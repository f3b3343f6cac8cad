//! The description of a translated module that code generation and the runtime work from.
use crate::indices::{
    DefinedFuncIndex, DefinedGlobalIndex, DefinedMemoryIndex, DefinedTableIndex, EntityIndex,
    FuncIndex, FuncRefIndex, GlobalIndex, MemoryIndex, ModuleInternedTypeIndex, TableIndex,
};
use crate::types::{GlobalDesc, MemoryDesc, TableDesc, WasmFuncType};
use vstd::prelude::*;

verus! {

/// A function, as its module describes it.
#[derive(Debug, Clone, Copy, PartialEq, Eq, Structural)]
pub struct FunctionDesc {
    /// The position of the function's type in the module's list of types.
    pub signature: u32,
    /// The slot of the function's reference, reserved for functions that do not escape.
    pub func_ref: FuncRefIndex,
}

impl FunctionDesc {
    /// Whether a reference to the function can leave the module.
    pub open spec fn spec_is_escaping(self) -> bool {
        !self.func_ref.spec_is_reserved()
    }

    /// Whether a reference to the function can leave the module.
    pub fn is_escaping(&self) -> (r: bool)
        ensures
            r == self.spec_is_escaping(),
    {
        !self.func_ref.is_reserved_value()
    }
}

/// The function types that a module declares, by interned index.
pub struct ModuleTypes {
    pub types: Vec<WasmFuncType>,
}

impl ModuleTypes {
    /// The type with the given index.
    pub fn get_wasm_type(&self, index: ModuleInternedTypeIndex) -> (r: Option<&WasmFuncType>)
        ensures
            r matches Some(ty) ==> index.0 < self.types@.len() && *ty == self.types@[index.0 as int],
            r is None <==> index.0 >= self.types@.len(),
    {
        if index.index() < self.types.len() {
            Some(&self.types[index.index()])
        } else {
            None
        }
    }
}

/// A module: its index spaces, imports first, and its exports.
pub struct TranslatedModule {
    pub types: Vec<ModuleInternedTypeIndex>,
    pub functions: Vec<FunctionDesc>,
    pub tables: Vec<TableDesc>,
    pub memories: Vec<MemoryDesc>,
    pub globals: Vec<GlobalDesc>,
    pub exports: Vec<(String, EntityIndex)>,
    pub num_imported_functions: u32,
    pub num_imported_tables: u32,
    pub num_imported_memories: u32,
    pub num_imported_globals: u32,
    pub num_escaped_functions: u32,
}

impl TranslatedModule {
    /// Every index space is addressable and begins with its imports.
    pub open spec fn wf(self) -> bool {
        &&& self.num_imported_functions <= self.functions@.len() < u32::MAX
        &&& self.num_imported_tables <= self.tables@.len() < u32::MAX
        &&& self.num_imported_memories <= self.memories@.len() < u32::MAX
        &&& self.num_imported_globals <= self.globals@.len() < u32::MAX
    }

    /// Whether a name is exported as a function.
    pub open spec fn exports_func(self, name: Seq<char>, f: FuncIndex) -> bool {
        exists|i: int|
            0 <= i < self.exports@.len() && (#[trigger] self.exports@[i]).0@ == name
                && self.exports@[i].1 == EntityIndex::Function(f) && forall|k: int|
                0 <= k < i ==> !((#[trigger] self.exports@[k]).0@ == name
                    && self.exports@[k].1 is Function)
    }

    /// The function that is exported under a name: the first one, if there are several.
    pub fn exported_func(&self, name: &str) -> (r: Option<FuncIndex>)
        ensures
            r matches Some(f) ==> self.exports_func(name@, f),
            r is None <==> forall|i: int|
                0 <= i < self.exports@.len() ==> !((#[trigger] self.exports@[i]).0@ == name@
                    && self.exports@[i].1 is Function),
    {
        let wanted = String::from_str(name);
        for i in 0..self.exports.len()
            invariant
                wanted@ == name@,
                forall|k: int|
                    0 <= k < i ==> !((#[trigger] self.exports@[k]).0@ == name@
                        && self.exports@[k].1 is Function),
        {
            if self.exports[i].0 == wanted {
                if let EntityIndex::Function(f) = self.exports[i].1 {
                    assert(self.exports@[i as int].1 is Function);
                    return Some(f);
                }
            }
        }
        None
    }

    /// The number of functions that the module defines.
    pub fn num_defined_functions(&self) -> (r: u32)
        requires
            self.wf(),
        ensures
            r == self.functions@.len() - self.num_imported_functions,
    {
        self.functions.len() as u32 - self.num_imported_functions
    }

    /// The number of tables that the module defines.
    pub fn num_defined_tables(&self) -> (r: u32)
        requires
            self.wf(),
        ensures
            r == self.tables@.len() - self.num_imported_tables,
    {
        self.tables.len() as u32 - self.num_imported_tables
    }

    /// The number of memories that the module defines.
    pub fn num_defined_memories(&self) -> (r: u32)
        requires
            self.wf(),
        ensures
            r == self.memories@.len() - self.num_imported_memories,
    {
        self.memories.len() as u32 - self.num_imported_memories
    }

    /// The number of globals that the module defines.
    pub fn num_defined_globals(&self) -> (r: u32)
        requires
            self.wf(),
        ensures
            r == self.globals@.len() - self.num_imported_globals,
    {
        self.globals.len() as u32 - self.num_imported_globals
    }

    /// Whether a function is imported.
    pub fn is_imported_func(&self, index: FuncIndex) -> (r: bool)
        ensures
            r == (index.0 < self.num_imported_functions),
    {
        index.0 < self.num_imported_functions
    }

    /// The position of a function among the defined ones, unless it is imported.
    pub fn defined_func_index(&self, index: FuncIndex) -> (r: Option<DefinedFuncIndex>)
        ensures
            r == self.spec_defined_func_index(index),
    {
        if index.0 < self.num_imported_functions {
            None
        } else {
            Some(DefinedFuncIndex(index.0 - self.num_imported_functions))
        }
    }

    /// The position of a function among the defined ones, unless it is imported.
    pub open spec fn spec_defined_func_index(self, index: FuncIndex) -> Option<DefinedFuncIndex> {
        if index.0 < self.num_imported_functions {
            None
        } else {
            Some(DefinedFuncIndex((index.0 - self.num_imported_functions) as u32))
        }
    }

    /// The function at a position among the defined ones.
    pub fn func_index(&self, index: DefinedFuncIndex) -> (r: FuncIndex)
        requires
            index.0 + self.num_imported_functions < u32::MAX,
        ensures
            r.0 == index.0 + self.num_imported_functions,
            self.spec_defined_func_index(r) == Some(index),
    {
        FuncIndex(index.0 + self.num_imported_functions)
    }

    /// The position of a table among the defined ones, unless it is imported.
    pub open spec fn spec_defined_table_index(self, index: TableIndex) -> Option<
        DefinedTableIndex,
    > {
        if index.0 < self.num_imported_tables {
            None
        } else {
            Some(DefinedTableIndex((index.0 - self.num_imported_tables) as u32))
        }
    }

    /// The position of a table among the defined ones, unless it is imported.
    pub fn defined_table_index(&self, index: TableIndex) -> (r: Option<DefinedTableIndex>)
        ensures
            r == self.spec_defined_table_index(index),
    {
        if index.0 < self.num_imported_tables {
            None
        } else {
            Some(DefinedTableIndex(index.0 - self.num_imported_tables))
        }
    }

    /// The position of a memory among the defined ones, unless it is imported.
    pub open spec fn spec_defined_memory_index(self, index: MemoryIndex) -> Option<
        DefinedMemoryIndex,
    > {
        if index.0 < self.num_imported_memories {
            None
        } else {
            Some(DefinedMemoryIndex((index.0 - self.num_imported_memories) as u32))
        }
    }

    /// The position of a memory among the defined ones, unless it is imported.
    pub fn defined_memory_index(&self, index: MemoryIndex) -> (r: Option<DefinedMemoryIndex>)
        ensures
            r == self.spec_defined_memory_index(index),
    {
        if index.0 < self.num_imported_memories {
            None
        } else {
            Some(DefinedMemoryIndex(index.0 - self.num_imported_memories))
        }
    }

    /// The position of a global among the defined ones, unless it is imported.
    pub open spec fn spec_defined_global_index(self, index: GlobalIndex) -> Option<
        DefinedGlobalIndex,
    > {
        if index.0 < self.num_imported_globals {
            None
        } else {
            Some(DefinedGlobalIndex((index.0 - self.num_imported_globals) as u32))
        }
    }

    /// The position of a global among the defined ones, unless it is imported.
    pub fn defined_global_index(&self, index: GlobalIndex) -> (r: Option<DefinedGlobalIndex>)
        ensures
            r == self.spec_defined_global_index(index),
    {
        if index.0 < self.num_imported_globals {
            None
        } else {
            Some(DefinedGlobalIndex(index.0 - self.num_imported_globals))
        }
    }
}

} // verus!
