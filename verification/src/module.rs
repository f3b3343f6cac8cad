//! Compiled modules.
use crate::code_memory::{CodeMemory, CodeModel};
use crate::indices::{DefinedFuncIndex, EntityIndex, ModuleInternedTypeIndex};
use crate::module_env::{Import, ModuleEnvironment, ModuleTranslation};
use crate::runtime::mmap::DANGLING;
use crate::translate::TranslatedModule;
use vstd::prelude::*;

verus! {

/// A compiled module.
pub struct Module {
    name: Option<String>,
    translation: ModuleTranslation,
    code: CodeMemory,
}

impl Module {
    /// The name of the module, if it has one.
    pub closed spec fn spec_name(self) -> Option<Seq<char>> {
        match self.name {
            Some(name) => Some(name@),
            None => None,
        }
    }

    /// What the module declares.
    pub closed spec fn spec_translation(self) -> ModuleTranslation {
        self.translation
    }

    /// The code of the module.
    pub closed spec fn spec_code(self) -> CodeMemory {
        self.code
    }

    /// A module with its code.
    pub fn new(name: Option<String>, translation: ModuleTranslation, code: CodeMemory) -> (r: Self)
        ensures
            r.spec_name() == (match name {
                Some(name) => Some(name@),
                None => None,
            }),
            r.spec_translation() == translation,
            r.spec_code() == code,
    {
        Module { name, translation, code }
    }

    /// A module without declarations and without code.
    pub fn new_stub() -> (r: Self)
        ensures
            r.spec_name() == Some("<Stub>"@),
            r.spec_translation()@ == crate::module_env::nothing(),
            r.spec_code()@ == (CodeModel {
                base: DANGLING,
                len: 0,
                published: false,
                trap_offsets: Seq::empty(),
                traps: Seq::empty(),
                trampolines: Seq::empty(),
                function_info: Seq::empty(),
            }),
            r.spec_code()@.wf(),
    {
        let translation = ModuleEnvironment::new().finish();
        let code = CodeMemory::new(DANGLING, 0, Vec::new(), Vec::new(), Vec::new(), Vec::new());
        Module { name: Some(String::from_str("<Stub>")), translation, code }
    }

    /// The name that the module is shown under.
    pub fn display_name(&self) -> (r: String)
        ensures
            r@ == (match self.spec_name() {
                Some(name) => name,
                None => "<unnamed mystery module>"@,
            }),
    {
        match &self.name {
            Some(name) => name.clone(),
            None => String::from_str("<unnamed mystery module>"),
        }
    }

    /// The name of the module, if it has one.
    pub fn name(&self) -> (r: Option<&String>)
        ensures
            match r {
                Some(name) => self.spec_name() == Some(name@),
                None => self.spec_name() is None,
            },
    {
        match &self.name {
            Some(name) => Some(name),
            None => None,
        }
    }

    /// The imports of the module.
    pub fn imports(&self) -> (r: &Vec<Import>)
        ensures
            *r == self.spec_translation().imports,
    {
        &self.translation.imports
    }

    /// The exports of the module.
    pub fn exports(&self) -> (r: &Vec<(String, EntityIndex)>)
        ensures
            *r == self.spec_translation().module.exports,
    {
        &self.translation.module.exports
    }

    /// The index spaces of the module.
    pub fn translated(&self) -> (r: &TranslatedModule)
        ensures
            *r == self.spec_translation().module,
    {
        &self.translation.module
    }

    /// The code of the module.
    pub fn code(&self) -> (r: &CodeMemory)
        ensures
            *r == self.spec_code(),
    {
        &self.code
    }

    /// The address of the trampoline through which host code calls a function, if there is one.
    pub fn array_to_wasm_trampoline(&self, index: DefinedFuncIndex) -> (r: Option<usize>)
        requires
            self.spec_code()@.wf(),
            index.0 < self.spec_code()@.function_info.len(),
            self.spec_code()@.function_info[index.0 as int].host_to_wasm_trampoline matches Some(
                loc,
            ) ==> self.spec_code()@.holds(loc),
        ensures
            r == (match self.spec_code()@.function_info[index.0 as int].host_to_wasm_trampoline {
                Some(loc) => Some((self.spec_code()@.base + loc.start) as usize),
                None => None,
            }),
    {
        match self.code.function_info()[index.index()].host_to_wasm_trampoline {
            Some(loc) => Some(self.code.resolve_function_loc(loc)),
            None => None,
        }
    }

    /// The address of the trampoline through which compiled code calls host functions of a type,
    /// if the module has a trampoline type for it.
    pub fn wasm_to_array_trampoline(&self, trampoline_ty: Option<ModuleInternedTypeIndex>) -> (r:
        Option<usize>)
        requires
            self.spec_code()@.wf(),
            trampoline_ty matches Some(ty) ==> exists|i: int|
                0 <= i < self.spec_code()@.trampolines.len() && (
                #[trigger] self.spec_code()@.trampolines[i]).0 == ty,
            forall|i: int|
                0 <= i < self.spec_code()@.trampolines.len() ==> self.spec_code()@.holds(
                    (#[trigger] self.spec_code()@.trampolines[i]).1,
                ),
        ensures
            r is None <==> trampoline_ty is None,
            r matches Some(address) ==> exists|i: int|
                {
                    &&& 0 <= i < self.spec_code()@.trampolines.len()
                    &&& (#[trigger] self.spec_code()@.trampolines[i]).0 == trampoline_ty->0
                    &&& address == self.spec_code()@.base
                        + self.spec_code()@.trampolines[i].1.start
                },
    {
        match trampoline_ty {
            Some(ty) => Some(self.code.wasm_to_host_trampoline(ty)),
            None => None,
        }
    }

    /// The address of a function.
    pub fn function(&self, index: DefinedFuncIndex) -> (r: usize)
        requires
            self.spec_code()@.wf(),
            index.0 < self.spec_code()@.function_info.len(),
            self.spec_code()@.holds(
                self.spec_code()@.function_info[index.0 as int].wasm_func_loc,
            ),
        ensures
            r == self.spec_code()@.base
                + self.spec_code()@.function_info[index.0 as int].wasm_func_loc.start,
    {
        let loc = self.code.function_info()[index.index()].wasm_func_loc;
        self.code.resolve_function_loc(loc)
    }
}

} // verus!
