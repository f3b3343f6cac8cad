//! What is compiled for the jobs of a module: the bodies of its functions, and trampolines.
use crate::body::{read_locals, FunctionBodyInput};
use crate::builder::{Code, FunctionBuilder};
use crate::compile::CompileKey;
use crate::cranelift::compiler::{CraneliftCompiler, VALUE_SIZE};
use crate::cranelift::decode::decode_body;
use crate::cranelift::env::TranslationEnvironment;
use crate::errors::Error;
use crate::indices::{DefinedFuncIndex, FuncIndex};
use crate::ir::GlobalValue;
use crate::module_env::ModuleTranslation;
use crate::module_translator::val_type;
use crate::translate::TranslatedModule;
use crate::types::{FuncTypeModel, WasmFuncType, WasmValType};
use vstd::prelude::*;

verus! {

/// What is missing where a body cannot be read.
pub open spec fn unknown_body() -> Seq<char> {
    "an unknown operator or type of a local"@
}

/// What is missing where something is larger than compiled code can address.
pub open spec fn too_large() -> Seq<char> {
    "a module of this size"@
}

/// The locals of a body, if their types are supported.
pub open spec fn groups_of(body: Seq<u8>) -> Option<Seq<(u32, WasmValType)>> {
    match crate::body::body_locals(body) {
        Some(raw) => if forall|i: int|
            0 <= i < raw.len() ==> crate::module_translator::val_type_of(
                (#[trigger] raw[i]).1,
            ) is Some {
            Some(
                raw.map_values(
                    |g: (u32, crate::parse::RawVal)|
                        (g.0, crate::module_translator::val_type_of(g.1)->0),
                ),
            )
        } else {
            None
        },
        None => None,
    }
}

/// The locals of a body, if their types are supported.
fn decode_groups(body: &[u8]) -> (r: Option<Vec<(u32, WasmValType)>>)
    ensures
        (match r {
            Some(groups) => Some(groups@),
            None => None,
        }) == groups_of(body@),
{
    let raw = match read_locals(body) {
        Some(raw) => raw,
        None => return None,
    };
    let mut groups: Vec<(u32, WasmValType)> = Vec::new();
    for i in 0..raw.len()
        invariant
            crate::body::body_locals(body@) == Some(raw@),
            groups@.len() == i,
            forall|k: int|
                0 <= k < i ==> crate::module_translator::val_type_of((#[trigger] raw@[k]).1)
                    == Some(groups@[k].1) && groups@[k].0 == raw@[k].0,
    {
        match val_type(raw[i].1) {
            Some(ty) => groups.push((raw[i].0, ty)),
            None => {
                assert(crate::module_translator::val_type_of(raw@[i as int].1) is None);
                return None;
            },
        }
    }
    assert(groups@ =~= raw@.map_values(
        |g: (u32, crate::parse::RawVal)|
            (g.0, crate::module_translator::val_type_of(g.1)->0),
    ));
    Some(groups)
}

/// Whether the locals of groups can be numbered, besides the given number.
fn are_numbered(groups: &Vec<(u32, WasmValType)>, other: usize) -> (r: bool)
    ensures
        r == (other + crate::cranelift::function_translator::num_locals(groups@) + 2 <= u32::MAX),
{
    let mut sum: u64 = 0;
    assert(groups@.take(0) =~= Seq::empty());
    for i in 0..groups.len()
        invariant
            sum == crate::cranelift::function_translator::num_locals(groups@.take(i as int)),
            sum <= u32::MAX,
    {
        proof {
            assert(groups@.take(i + 1).drop_last() =~= groups@.take(i as int));
            crate::cranelift::function_translator::lemma_num_locals(groups@, i + 1);
        }
        sum = sum + groups[i].0 as u64;
        if sum > u32::MAX as u64 {
            return false;
        }
    }
    assert(groups@.take(groups@.len() as int) =~= groups@);
    other <= u32::MAX as usize && other as u64 + sum + 2 <= u32::MAX as u64
}

/// The type of a function that a module defines, if it can be compiled.
pub open spec fn defined_type(env: TranslationEnvironment, index: DefinedFuncIndex) -> Option<
    FuncTypeModel,
> {
    let f = index.0 + env.module.num_imported_functions;
    if f < env.module.functions@.len() && env.has_func_type(
        env.module.functions@[f as int].signature,
    ) {
        Some(env.func_type(env.module.functions@[f as int].signature))
    } else {
        None
    }
}

/// The type of a function that a module defines, if it can be compiled.
fn find_type<'a>(env: &TranslationEnvironment<'a>, index: DefinedFuncIndex) -> (r: Option<
    &'a WasmFuncType,
>)
    ensures
        (match r {
            Some(ty) => Some(ty@),
            None => None,
        }) == defined_type(*env, index),
{
    let f: u64 = index.0 as u64 + env.module.num_imported_functions as u64;
    if f >= env.module.functions.len() as u64 {
        return None;
    }
    let signature: u32 = env.module.functions[f as usize].signature;
    if !env.is_func_type(signature) {
        return None;
    }
    let interned = env.module.types[signature as usize];
    Some(&env.types.types[interned.index()])
}

impl CraneliftCompiler {
    /// What the body of a function of a type is translated to, or the missing feature that ends the
    /// translation.
    pub open spec fn typed_body_translated(
        self,
        body: Seq<u8>,
        ty: FuncTypeModel,
        env: TranslationEnvironment,
    ) -> Result<Code, Seq<char>> {
        match (groups_of(body), crate::cranelift::decode::body_operators(body)) {
            (Some(groups), Some(ops)) => if ty.params.len()
                + crate::cranelift::function_translator::num_locals(groups) + 2 <= u32::MAX {
                crate::cranelift::function_translator::function_translated(
                    self.prepared(ty),
                    groups,
                    ops,
                    env,
                )
            } else {
                Err(too_large())
            },
            _ => Err(unknown_body()),
        }
    }

    /// What the body of a function that a module defines is translated to, or the missing feature
    /// that ends the translation.
    pub open spec fn body_translated(
        self,
        body: Seq<u8>,
        index: DefinedFuncIndex,
        env: TranslationEnvironment,
    ) -> Result<Code, Seq<char>> {
        match defined_type(env, index) {
            Some(ty) => self.typed_body_translated(body, ty, env),
            None => Err(crate::cranelift::function_translator::untranslatable()),
        }
    }

    /// The environment after the body of a function was translated as far as it can be.
    pub open spec fn body_env<'a>(
        self,
        body: Seq<u8>,
        index: DefinedFuncIndex,
        env: TranslationEnvironment<'a>,
    ) -> TranslationEnvironment<'a> {
        match (
            defined_type(env, index),
            groups_of(body),
            crate::cranelift::decode::body_operators(body),
        ) {
            (Some(ty), Some(groups), Some(ops)) => if ty.params.len()
                + crate::cranelift::function_translator::num_locals(groups) + 2 <= u32::MAX {
                crate::cranelift::function_translator::reached(
                    ops,
                    crate::cranelift::function_translator::started(
                        self.prepared(ty),
                        groups,
                        env,
                    ),
                ).env
            } else {
                env
            },
            _ => env,
        }
    }

    /// Translates the body of a function that a module defines: reads its locals and operators, and
    /// fails where one of them is not known, cannot come next or is not supported. Gives the code,
    /// and the global value of the stack limit.
    pub fn translate_body(
        &self,
        input: &FunctionBodyInput,
        index: DefinedFuncIndex,
        env: &mut TranslationEnvironment,
    ) -> (r: Result<(FunctionBuilder, GlobalValue), Error>)
        requires
            self.wf(),
            old(env).wf(),
            old(env).pcc_vmctx_memtype is None,
            old(env).isa == self.isa,
        ensures
            match self.body_translated(input.body@, index, *old(env)) {
                Ok(code) => r matches Ok(f) && f.0@ == code && f.1 == GlobalValue(1),
                Err(missing) => r matches Err(Error::Unsupported(feature)) && feature@ == missing,
            },
            *final(env) == self.body_env(input.body@, index, *old(env)),
    {
        let ty = match find_type(env, index) {
            Some(ty) => ty,
            None => return Err(crate::cranelift::function_translator::not_implemented()),
        };
        let groups = decode_groups(input.body.as_slice());
        let ops = decode_body(input.body.as_slice());
        match (groups, ops) {
            (Some(groups), Some(ops)) => {
                if !are_numbered(&groups, ty.params.len()) {
                    return Err(Error::unsupported("a module of this size"));
                }
                self.translate_function(ty, &groups, &ops, env)
            },
            _ => Err(Error::unsupported("an unknown operator or type of a local")),
        }
    }

    /// Whether the functions of a module can be compiled: pages have sizes, and the context can be
    /// addressed.
    pub open spec fn addressable(self, module: TranslatedModule) -> bool {
        &&& forall|i: int|
            0 <= i < module.memories@.len() ==> (#[trigger] module.memories@[i]).wf()
        &&& crate::vmoffsets::vmctx_size(self.isa.pointer_type.spec_bytes(), module) <= i32::MAX
    }

    /// Whether the functions of a module can be compiled.
    pub fn is_addressable(&self, module: &TranslatedModule) -> (r: bool)
        requires
            self.wf(),
            module.wf(),
        ensures
            r == self.addressable(*module),
    {
        for i in 0..module.memories.len()
            invariant
                forall|k: int| 0 <= k < i ==> (#[trigger] module.memories@[k]).wf(),
        {
            if module.memories[i].page_size_log2 >= 64 {
                assert(!module.memories@[i as int].wf());
                return false;
            }
        }
        let defined: u64 = module.num_defined_tables() as u64 + module.num_defined_memories() as u64
            + module.num_defined_globals() as u64;
        let imported: u64 = module.num_imported_tables as u64 + module.num_imported_memories as u64
            + module.num_imported_globals as u64;
        let escaped: u64 = module.num_escaped_functions as u64;
        let functions: u64 = module.num_imported_functions as u64;
        assert(crate::vmoffsets::SIZE_OF_VMFUNC_REF == 32);
        assert(crate::vmoffsets::SIZE_OF_VMFUNCTION_IMPORT == 24);
        assert(crate::vmoffsets::SIZE_OF_VMIMPORT == 16);
        assert(crate::vmoffsets::SIZE_OF_VMDEFINITION == 16);
        let size: u64 = 7 * self.isa.pointer_type.bytes() as u64 + 32 * escaped + 24 * functions
            + 16 * imported + 16 * defined;
        size <= i32::MAX as u64
    }

    /// The code of a job, or the missing feature that ends it: the body of a function, the trampoline
    /// through which the host calls a function, or the trampoline of a builtin function.
    pub open spec fn job_code(self, t: ModuleTranslation, key: CompileKey) -> Result<
        Code,
        Seq<char>,
    > {
        let env = TranslationEnvironment::fresh(self.isa, &t.module, &t.types);
        match key {
            CompileKey::WasmFunction(i) => if i.0 < t@.bodies.len() {
                self.body_translated(t@.bodies[i.0 as int].1, i, env)
            } else {
                Err(unknown_body())
            },
            CompileKey::ArrayToWasmTrampoline(i) => match defined_type(env, i) {
                Some(ty) => if ty.params.len() * VALUE_SIZE <= i32::MAX && ty.results.len()
                    * VALUE_SIZE <= i32::MAX {
                    Ok(
                        self.array_to_wasm(
                            ty,
                            FuncIndex((i.0 + t.module.num_imported_functions) as u32),
                        ),
                    )
                } else {
                    Err(too_large())
                },
                None => Err(crate::cranelift::function_translator::untranslatable()),
            },
            CompileKey::WasmToBuiltinTrampoline(b) => Ok(self.wasm_to_builtin(b)),
        }
    }

    /// The global value of the stack limit of a job's code, for the bodies of functions.
    pub open spec fn job_limit(key: CompileKey) -> Option<GlobalValue> {
        match key {
            CompileKey::WasmFunction(_) => Some(GlobalValue(1)),
            _ => None,
        }
    }

    /// Makes the code of a job; gives the global value of the stack limit too, for the bodies of
    /// functions.
    pub fn record_job(&self, t: &ModuleTranslation, key: CompileKey) -> (r: Result<
        (FunctionBuilder, Option<GlobalValue>),
        Error,
    >)
        requires
            self.wf(),
            t.module.wf(),
        ensures
            if !self.addressable(t.module) {
                r matches Err(Error::Unsupported(feature)) && feature@ == too_large()
            } else {
                match self.job_code(*t, key) {
                    Ok(code) => r matches Ok(f) && f.0@ == code && f.1 == Self::job_limit(key),
                    Err(missing) => r matches Err(Error::Unsupported(feature)) && feature@
                        == missing,
                }
            },
    {
        if !self.is_addressable(&t.module) {
            return Err(Error::unsupported("a module of this size"));
        }
        let mut env = TranslationEnvironment::new(self.isa, &t.module, &t.types);
        match key {
            CompileKey::WasmFunction(i) => {
                if i.0 as usize >= t.function_body_inputs.len() {
                    return Err(Error::unsupported("an unknown operator or type of a local"));
                }
                let input = &t.function_body_inputs[i.0 as usize];
                assert(t@.bodies[i.0 as int] == input@);
                match self.translate_body(input, i, &mut env) {
                    Ok((code, limit)) => Ok((code, Some(limit))),
                    Err(e) => Err(e),
                }
            },
            CompileKey::ArrayToWasmTrampoline(i) => match find_type(&env, i) {
                Some(ty) => {
                    let most: usize = i32::MAX as usize / VALUE_SIZE;
                    if ty.params.len() > most || ty.results.len() > most {
                        return Err(Error::unsupported("a module of this size"));
                    }
                    let index = t.module.func_index(i);
                    Ok((self.compile_array_to_wasm_trampoline(ty, index), None))
                },
                None => Err(crate::cranelift::function_translator::not_implemented()),
            },
            CompileKey::WasmToBuiltinTrampoline(b) => Ok((self.compile_wasm_to_builtin(b), None)),
        }
    }
}

} // verus!
