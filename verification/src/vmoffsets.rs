//! The layout of the `VMContext`, the block of memory that compiled code finds its instance in.
//!
//! A context begins with seven pointer-sized fields. Behind them lie eight arrays, one after the
//! other without gaps: references to escaping functions, imported functions, tables, memories and
//! globals, then the definitions of tables, memories and globals. The entries have the sizes that
//! they have on 64-bit targets.
use crate::indices::{
    DefinedGlobalIndex, DefinedMemoryIndex, DefinedTableIndex, FuncIndex, FuncRefIndex,
    GlobalIndex, MemoryIndex, TableIndex,
};
use crate::translate::TranslatedModule;
use vstd::prelude::*;

verus! {

/// Bytes of a function reference: array call, wasm call, context, type index and padding.
pub const SIZE_OF_VMFUNC_REF: u32 = 32;

/// Where a function reference keeps its array-call address.
pub const VMFUNC_REF_ARRAY_CALL: u32 = 0;

/// Where a function reference keeps its wasm-call address.
pub const VMFUNC_REF_WASM_CALL: u32 = 8;

/// Where a function reference keeps its context.
pub const VMFUNC_REF_VMCTX: u32 = 16;

/// Where a function reference keeps its type index.
pub const VMFUNC_REF_TYPE_INDEX: u32 = 24;

/// Bytes of an imported function: wasm call, array call and context.
pub const SIZE_OF_VMFUNCTION_IMPORT: u32 = 24;

/// Where an imported function keeps its wasm-call address.
pub const VMFUNCTION_IMPORT_WASM_CALL: u32 = 0;

/// Where an imported function keeps its array-call address.
pub const VMFUNCTION_IMPORT_ARRAY_CALL: u32 = 8;

/// Where an imported function keeps its context.
pub const VMFUNCTION_IMPORT_VMCTX: u32 = 16;

/// Bytes of an imported table, memory or global: definition and context.
pub const SIZE_OF_VMIMPORT: u32 = 16;

/// Where an import keeps the address of its definition.
pub const VMIMPORT_FROM: u32 = 0;

/// Where an import keeps the context of its definition.
pub const VMIMPORT_VMCTX: u32 = 8;

/// Bytes of the definition of a table, memory or global.
pub const SIZE_OF_VMDEFINITION: u32 = 16;

/// Where the definition of a table or memory keeps its base address.
pub const VMDEFINITION_BASE: u32 = 0;

/// Where the definition of a table or memory keeps its current length.
pub const VMDEFINITION_CURRENT_LENGTH: u32 = 8;

/// Offsets to the fields of a `VMContext` that do not depend on a module.
#[derive(Debug, Clone, Copy, PartialEq, Eq, Structural)]
pub struct StaticVMOffsets {
    pub ptr_size: u8,
}

impl StaticVMOffsets {
    /// The seven fields fit in 255 bytes.
    pub open spec fn wf(self) -> bool {
        7 * self.ptr_size <= u8::MAX
    }

    /// The offsets for pointers of the given size.
    pub fn new(ptr_size: u8) -> (r: Self)
        ensures
            r.ptr_size == ptr_size,
    {
        StaticVMOffsets { ptr_size }
    }

    /// Offset of the `magic` value, which lies at the very start.
    pub fn vmctx_magic(&self) -> (r: u8)
        ensures
            r == 0,
    {
        0
    }

    /// Offset of the `builtin_functions` field.
    pub fn vmctx_builtin_functions(&self) -> (r: u8)
        requires
            self.wf(),
        ensures
            r == 1 * self.ptr_size,
    {
        self.vmctx_magic() + self.ptr_size
    }

    /// Offset of the `type_ids` field.
    pub fn vmctx_type_ids(&self) -> (r: u8)
        requires
            self.wf(),
        ensures
            r == 2 * self.ptr_size,
    {
        self.vmctx_builtin_functions() + self.ptr_size
    }

    /// Offset of the `stack_limit` field.
    pub fn vmctx_stack_limit(&self) -> (r: u8)
        requires
            self.wf(),
        ensures
            r == 3 * self.ptr_size,
    {
        self.vmctx_type_ids() + self.ptr_size
    }

    /// Offset of the `last_wasm_exit_fp` field.
    pub fn vmctx_last_wasm_exit_fp(&self) -> (r: u8)
        requires
            self.wf(),
        ensures
            r == 4 * self.ptr_size,
    {
        self.vmctx_stack_limit() + self.ptr_size
    }

    /// Offset of the `last_wasm_exit_pc` field.
    pub fn vmctx_last_wasm_exit_pc(&self) -> (r: u8)
        requires
            self.wf(),
        ensures
            r == 5 * self.ptr_size,
    {
        self.vmctx_last_wasm_exit_fp() + self.ptr_size
    }

    /// Offset of the `last_wasm_entry_fp` field.
    pub fn vmctx_last_wasm_entry_fp(&self) -> (r: u8)
        requires
            self.wf(),
        ensures
            r == 6 * self.ptr_size,
    {
        self.vmctx_last_wasm_exit_pc() + self.ptr_size
    }

    /// Offset of the end of the static fields.
    pub fn size(&self) -> (r: u8)
        requires
            self.wf(),
        ensures
            r == 7 * self.ptr_size,
    {
        self.vmctx_last_wasm_entry_fp() + self.ptr_size
    }

    /// Bytes of a shared type index.
    pub fn size_of_vmshared_type_index(&self) -> (r: u8)
        ensures
            r == 4,
    {
        4
    }
}

/// Offsets to the fields of the `VMContext` of a module.
#[derive(Debug, Clone, Copy, PartialEq, Eq, Structural)]
pub struct VMOffsets {
    pub num_imported_funcs: u32,
    pub num_imported_tables: u32,
    pub num_imported_memories: u32,
    pub num_imported_globals: u32,
    pub num_defined_tables: u32,
    pub num_defined_memories: u32,
    pub num_defined_globals: u32,
    pub num_escaped_funcs: u32,
    pub static_: StaticVMOffsets,
    pub func_refs: u32,
    pub imported_functions: u32,
    pub imported_tables: u32,
    pub imported_memories: u32,
    pub imported_globals: u32,
    pub tables: u32,
    pub memories: u32,
    pub globals: u32,
    pub size: u32,
}

/// An entry of one of the arrays of a context.
pub enum Slot {
    FuncRef(u32),
    ImportedFunction(u32),
    ImportedTable(u32),
    ImportedMemory(u32),
    ImportedGlobal(u32),
    Table(u32),
    Memory(u32),
    Global(u32),
}

/// The number of bytes of a context for a module on a target with the given pointer size.
pub open spec fn vmctx_size(ptr_size: u8, module: TranslatedModule) -> int {
    7 * ptr_size + SIZE_OF_VMFUNC_REF * module.num_escaped_functions + SIZE_OF_VMFUNCTION_IMPORT
        * module.num_imported_functions + SIZE_OF_VMIMPORT * (module.num_imported_tables
        + module.num_imported_memories + module.num_imported_globals) + SIZE_OF_VMDEFINITION * (
    module.tables@.len() - module.num_imported_tables + module.memories@.len()
        - module.num_imported_memories + module.globals@.len() - module.num_imported_globals)
}

impl VMOffsets {
    /// The arrays follow the static fields and each other without gaps.
    pub open spec fn wf(self) -> bool {
        &&& self.static_.wf()
        &&& self.func_refs == 7 * self.static_.ptr_size
        &&& self.imported_functions == self.func_refs + SIZE_OF_VMFUNC_REF * self.num_escaped_funcs
        &&& self.imported_tables == self.imported_functions + SIZE_OF_VMFUNCTION_IMPORT
            * self.num_imported_funcs
        &&& self.imported_memories == self.imported_tables + SIZE_OF_VMIMPORT
            * self.num_imported_tables
        &&& self.imported_globals == self.imported_memories + SIZE_OF_VMIMPORT
            * self.num_imported_memories
        &&& self.tables == self.imported_globals + SIZE_OF_VMIMPORT * self.num_imported_globals
        &&& self.memories == self.tables + SIZE_OF_VMDEFINITION * self.num_defined_tables
        &&& self.globals == self.memories + SIZE_OF_VMDEFINITION * self.num_defined_memories
        &&& self.size == self.globals + SIZE_OF_VMDEFINITION * self.num_defined_globals
    }

    /// The counts are those of a module.
    pub open spec fn describes(self, module: TranslatedModule) -> bool {
        &&& self.num_escaped_funcs == module.num_escaped_functions
        &&& self.num_imported_funcs == module.num_imported_functions
        &&& self.num_imported_tables == module.num_imported_tables
        &&& self.num_imported_memories == module.num_imported_memories
        &&& self.num_imported_globals == module.num_imported_globals
        &&& self.num_defined_tables == module.tables@.len() - module.num_imported_tables
        &&& self.num_defined_memories == module.memories@.len() - module.num_imported_memories
        &&& self.num_defined_globals == module.globals@.len() - module.num_imported_globals
    }

    /// The layout of the context of a module.
    pub open spec fn spec_for_module(ptr_size: u8, module: TranslatedModule) -> VMOffsets {
        let num_defined_tables = (module.tables@.len() - module.num_imported_tables) as u32;
        let num_defined_memories = (module.memories@.len() - module.num_imported_memories) as u32;
        let num_defined_globals = (module.globals@.len() - module.num_imported_globals) as u32;
        let func_refs = 7 * ptr_size;
        let imported_functions = func_refs + SIZE_OF_VMFUNC_REF * module.num_escaped_functions;
        let imported_tables = imported_functions + SIZE_OF_VMFUNCTION_IMPORT
            * module.num_imported_functions;
        let imported_memories = imported_tables + SIZE_OF_VMIMPORT * module.num_imported_tables;
        let imported_globals = imported_memories + SIZE_OF_VMIMPORT * module.num_imported_memories;
        let tables = imported_globals + SIZE_OF_VMIMPORT * module.num_imported_globals;
        let memories = tables + SIZE_OF_VMDEFINITION * num_defined_tables;
        let globals = memories + SIZE_OF_VMDEFINITION * num_defined_memories;
        VMOffsets {
            num_imported_funcs: module.num_imported_functions,
            num_imported_tables: module.num_imported_tables,
            num_imported_memories: module.num_imported_memories,
            num_imported_globals: module.num_imported_globals,
            num_defined_tables,
            num_defined_memories,
            num_defined_globals,
            num_escaped_funcs: module.num_escaped_functions,
            static_: StaticVMOffsets { ptr_size },
            func_refs: func_refs as u32,
            imported_functions: imported_functions as u32,
            imported_tables: imported_tables as u32,
            imported_memories: imported_memories as u32,
            imported_globals: imported_globals as u32,
            tables: tables as u32,
            memories: memories as u32,
            globals: globals as u32,
            size: (globals + SIZE_OF_VMDEFINITION * num_defined_globals) as u32,
        }
    }

    /// Lays out the context of a module.
    pub fn for_module(ptr_size: u8, module: &TranslatedModule) -> (r: Self)
        requires
            7 * ptr_size <= u8::MAX,
            module.wf(),
            vmctx_size(ptr_size, *module) <= u32::MAX,
        ensures
            r.wf(),
            r.static_.ptr_size == ptr_size,
            r.describes(*module),
            r.size == vmctx_size(ptr_size, *module),
            r == Self::spec_for_module(ptr_size, *module),
    {
        let static_ = StaticVMOffsets::new(ptr_size);
        let num_defined_tables: u32 = module.num_defined_tables();
        let num_defined_memories: u32 = module.num_defined_memories();
        let num_defined_globals: u32 = module.num_defined_globals();
        let func_refs: u32 = static_.size() as u32;
        let imported_functions: u32 = func_refs + SIZE_OF_VMFUNC_REF * module.num_escaped_functions;
        let imported_tables: u32 = imported_functions + SIZE_OF_VMFUNCTION_IMPORT
            * module.num_imported_functions;
        let imported_memories: u32 = imported_tables + SIZE_OF_VMIMPORT
            * module.num_imported_tables;
        let imported_globals: u32 = imported_memories + SIZE_OF_VMIMPORT
            * module.num_imported_memories;
        let tables: u32 = imported_globals + SIZE_OF_VMIMPORT * module.num_imported_globals;
        let memories: u32 = tables + SIZE_OF_VMDEFINITION * num_defined_tables;
        let globals: u32 = memories + SIZE_OF_VMDEFINITION * num_defined_memories;
        let size: u32 = globals + SIZE_OF_VMDEFINITION * num_defined_globals;
        VMOffsets {
            num_imported_funcs: module.num_imported_functions,
            num_imported_tables: module.num_imported_tables,
            num_imported_memories: module.num_imported_memories,
            num_imported_globals: module.num_imported_globals,
            num_defined_tables,
            num_defined_memories,
            num_defined_globals,
            num_escaped_funcs: module.num_escaped_functions,
            static_,
            func_refs,
            imported_functions,
            imported_tables,
            imported_memories,
            imported_globals,
            tables,
            memories,
            globals,
            size,
        }
    }

    /// Offset of the array of function references.
    pub fn vmctx_func_refs_begin(&self) -> (r: u32)
        ensures
            r == self.func_refs,
    {
        self.func_refs
    }

    /// Offset of the array of imported functions.
    pub fn vmctx_imported_functions_begin(&self) -> (r: u32)
        ensures
            r == self.imported_functions,
    {
        self.imported_functions
    }

    /// Offset of the array of imported tables.
    pub fn vmctx_imported_tables_begin(&self) -> (r: u32)
        ensures
            r == self.imported_tables,
    {
        self.imported_tables
    }

    /// Offset of the array of imported memories.
    pub fn vmctx_imported_memories_begin(&self) -> (r: u32)
        ensures
            r == self.imported_memories,
    {
        self.imported_memories
    }

    /// Offset of the array of imported globals.
    pub fn vmctx_imported_globals_begin(&self) -> (r: u32)
        ensures
            r == self.imported_globals,
    {
        self.imported_globals
    }

    /// Offset of the array of table definitions.
    pub fn vmctx_tables_begin(&self) -> (r: u32)
        ensures
            r == self.tables,
    {
        self.tables
    }

    /// Offset of the array of memory definitions.
    pub fn vmctx_memories_begin(&self) -> (r: u32)
        ensures
            r == self.memories,
    {
        self.memories
    }

    /// Offset of the array of global definitions.
    pub fn vmctx_globals_begin(&self) -> (r: u32)
        ensures
            r == self.globals,
    {
        self.globals
    }

    /// Offset of a function reference.
    pub fn vmctx_vmfunc_ref(&self, index: FuncRefIndex) -> (r: u32)
        requires
            self.wf(),
            index.0 < self.num_escaped_funcs,
        ensures
            r == self.func_refs + index.0 * SIZE_OF_VMFUNC_REF,
            r + SIZE_OF_VMFUNC_REF <= self.size,
    {
        self.vmctx_func_refs_begin() + index.as_u32() * SIZE_OF_VMFUNC_REF
    }

    /// Offset of the `array_call` field of a function reference.
    pub fn vmctx_vmfunc_ref_array_call(&self, index: FuncRefIndex) -> (r: u32)
        requires
            self.wf(),
            index.0 < self.num_escaped_funcs,
        ensures
            r == self.func_refs + index.0 * SIZE_OF_VMFUNC_REF + VMFUNC_REF_ARRAY_CALL,
            r < self.size,
    {
        self.vmctx_vmfunc_ref(index) + VMFUNC_REF_ARRAY_CALL
    }

    /// Offset of the `wasm_call` field of a function reference.
    pub fn vmctx_vmfunc_ref_wasm_call(&self, index: FuncRefIndex) -> (r: u32)
        requires
            self.wf(),
            index.0 < self.num_escaped_funcs,
        ensures
            r == self.func_refs + index.0 * SIZE_OF_VMFUNC_REF + VMFUNC_REF_WASM_CALL,
            r < self.size,
    {
        self.vmctx_vmfunc_ref(index) + VMFUNC_REF_WASM_CALL
    }

    /// Offset of the `vmctx` field of a function reference.
    pub fn vmctx_vmfunc_ref_vmctx(&self, index: FuncRefIndex) -> (r: u32)
        requires
            self.wf(),
            index.0 < self.num_escaped_funcs,
        ensures
            r == self.func_refs + index.0 * SIZE_OF_VMFUNC_REF + VMFUNC_REF_VMCTX,
            r < self.size,
    {
        self.vmctx_vmfunc_ref(index) + VMFUNC_REF_VMCTX
    }

    /// Offset of the `type_index` field of a function reference.
    pub fn vmctx_vmfunc_ref_type_index(&self, index: FuncRefIndex) -> (r: u32)
        requires
            self.wf(),
            index.0 < self.num_escaped_funcs,
        ensures
            r == self.func_refs + index.0 * SIZE_OF_VMFUNC_REF + VMFUNC_REF_TYPE_INDEX,
            r < self.size,
    {
        self.vmctx_vmfunc_ref(index) + VMFUNC_REF_TYPE_INDEX
    }

    /// Offset of an imported function.
    pub fn vmctx_vmfunction_import(&self, index: FuncIndex) -> (r: u32)
        requires
            self.wf(),
            index.0 < self.num_imported_funcs,
        ensures
            r == self.imported_functions + index.0 * SIZE_OF_VMFUNCTION_IMPORT,
            r + SIZE_OF_VMFUNCTION_IMPORT <= self.size,
    {
        self.vmctx_imported_functions_begin() + index.as_u32() * SIZE_OF_VMFUNCTION_IMPORT
    }

    /// Offset of the `wasm_call` field of an imported function.
    pub fn vmctx_vmfunction_import_wasm_call(&self, index: FuncIndex) -> (r: u32)
        requires
            self.wf(),
            index.0 < self.num_imported_funcs,
        ensures
            r == self.imported_functions + index.0 * SIZE_OF_VMFUNCTION_IMPORT + VMFUNCTION_IMPORT_WASM_CALL,
            r < self.size,
    {
        self.vmctx_vmfunction_import(index) + VMFUNCTION_IMPORT_WASM_CALL
    }

    /// Offset of the `array_call` field of an imported function.
    pub fn vmctx_vmfunction_import_array_call(&self, index: FuncIndex) -> (r: u32)
        requires
            self.wf(),
            index.0 < self.num_imported_funcs,
        ensures
            r == self.imported_functions + index.0 * SIZE_OF_VMFUNCTION_IMPORT + VMFUNCTION_IMPORT_ARRAY_CALL,
            r < self.size,
    {
        self.vmctx_vmfunction_import(index) + VMFUNCTION_IMPORT_ARRAY_CALL
    }

    /// Offset of the `vmctx` field of an imported function.
    pub fn vmctx_vmfunction_import_vmctx(&self, index: FuncIndex) -> (r: u32)
        requires
            self.wf(),
            index.0 < self.num_imported_funcs,
        ensures
            r == self.imported_functions + index.0 * SIZE_OF_VMFUNCTION_IMPORT + VMFUNCTION_IMPORT_VMCTX,
            r < self.size,
    {
        self.vmctx_vmfunction_import(index) + VMFUNCTION_IMPORT_VMCTX
    }

    /// Offset of an imported table.
    pub fn vmctx_vmtable_import(&self, index: TableIndex) -> (r: u32)
        requires
            self.wf(),
            index.0 < self.num_imported_tables,
        ensures
            r == self.imported_tables + index.0 * SIZE_OF_VMIMPORT,
            r + SIZE_OF_VMIMPORT <= self.size,
    {
        self.vmctx_imported_tables_begin() + index.as_u32() * SIZE_OF_VMIMPORT
    }

    /// Offset of the `from` field of an imported table.
    pub fn vmctx_vmtable_import_from(&self, index: TableIndex) -> (r: u32)
        requires
            self.wf(),
            index.0 < self.num_imported_tables,
        ensures
            r == self.imported_tables + index.0 * SIZE_OF_VMIMPORT + VMIMPORT_FROM,
            r < self.size,
    {
        self.vmctx_vmtable_import(index) + VMIMPORT_FROM
    }

    /// Offset of the `vmctx` field of an imported table.
    pub fn vmctx_vmtable_import_vmctx(&self, index: TableIndex) -> (r: u32)
        requires
            self.wf(),
            index.0 < self.num_imported_tables,
        ensures
            r == self.imported_tables + index.0 * SIZE_OF_VMIMPORT + VMIMPORT_VMCTX,
            r < self.size,
    {
        self.vmctx_vmtable_import(index) + VMIMPORT_VMCTX
    }

    /// Offset of an imported memory.
    pub fn vmctx_vmmemory_import(&self, index: MemoryIndex) -> (r: u32)
        requires
            self.wf(),
            index.0 < self.num_imported_memories,
        ensures
            r == self.imported_memories + index.0 * SIZE_OF_VMIMPORT,
            r + SIZE_OF_VMIMPORT <= self.size,
    {
        self.vmctx_imported_memories_begin() + index.as_u32() * SIZE_OF_VMIMPORT
    }

    /// Offset of the `from` field of an imported memory.
    pub fn vmctx_vmmemory_import_from(&self, index: MemoryIndex) -> (r: u32)
        requires
            self.wf(),
            index.0 < self.num_imported_memories,
        ensures
            r == self.imported_memories + index.0 * SIZE_OF_VMIMPORT + VMIMPORT_FROM,
            r < self.size,
    {
        self.vmctx_vmmemory_import(index) + VMIMPORT_FROM
    }

    /// Offset of the `vmctx` field of an imported memory.
    pub fn vmctx_vmmemory_import_vmctx(&self, index: MemoryIndex) -> (r: u32)
        requires
            self.wf(),
            index.0 < self.num_imported_memories,
        ensures
            r == self.imported_memories + index.0 * SIZE_OF_VMIMPORT + VMIMPORT_VMCTX,
            r < self.size,
    {
        self.vmctx_vmmemory_import(index) + VMIMPORT_VMCTX
    }

    /// Offset of an imported global.
    pub fn vmctx_vmglobal_import(&self, index: GlobalIndex) -> (r: u32)
        requires
            self.wf(),
            index.0 < self.num_imported_globals,
        ensures
            r == self.imported_globals + index.0 * SIZE_OF_VMIMPORT,
            r + SIZE_OF_VMIMPORT <= self.size,
    {
        self.vmctx_imported_globals_begin() + index.as_u32() * SIZE_OF_VMIMPORT
    }

    /// Offset of the `from` field of an imported global.
    pub fn vmctx_vmglobal_import_from(&self, index: GlobalIndex) -> (r: u32)
        requires
            self.wf(),
            index.0 < self.num_imported_globals,
        ensures
            r == self.imported_globals + index.0 * SIZE_OF_VMIMPORT + VMIMPORT_FROM,
            r < self.size,
    {
        self.vmctx_vmglobal_import(index) + VMIMPORT_FROM
    }

    /// Offset of the `vmctx` field of an imported global.
    pub fn vmctx_vmglobal_import_vmctx(&self, index: GlobalIndex) -> (r: u32)
        requires
            self.wf(),
            index.0 < self.num_imported_globals,
        ensures
            r == self.imported_globals + index.0 * SIZE_OF_VMIMPORT + VMIMPORT_VMCTX,
            r < self.size,
    {
        self.vmctx_vmglobal_import(index) + VMIMPORT_VMCTX
    }

    /// Offset of the definition of a table.
    pub fn vmctx_vmtable_definition(&self, index: DefinedTableIndex) -> (r: u32)
        requires
            self.wf(),
            index.0 < self.num_defined_tables,
        ensures
            r == self.tables + index.0 * SIZE_OF_VMDEFINITION,
            r + SIZE_OF_VMDEFINITION <= self.size,
    {
        self.vmctx_tables_begin() + index.as_u32() * SIZE_OF_VMDEFINITION
    }

    /// Offset of the `base` field of the definition of a table.
    pub fn vmctx_vmtable_definition_base(&self, index: DefinedTableIndex) -> (r: u32)
        requires
            self.wf(),
            index.0 < self.num_defined_tables,
        ensures
            r == self.tables + index.0 * SIZE_OF_VMDEFINITION + VMDEFINITION_BASE,
            r < self.size,
    {
        self.vmctx_vmtable_definition(index) + VMDEFINITION_BASE
    }

    /// Offset of the `current_length` field of the definition of a table.
    pub fn vmctx_vmtable_definition_current_length(&self, index: DefinedTableIndex) -> (r: u32)
        requires
            self.wf(),
            index.0 < self.num_defined_tables,
        ensures
            r == self.tables + index.0 * SIZE_OF_VMDEFINITION + VMDEFINITION_CURRENT_LENGTH,
            r < self.size,
    {
        self.vmctx_vmtable_definition(index) + VMDEFINITION_CURRENT_LENGTH
    }

    /// Offset of the definition of a memory.
    pub fn vmctx_vmmemory_definition(&self, index: DefinedMemoryIndex) -> (r: u32)
        requires
            self.wf(),
            index.0 < self.num_defined_memories,
        ensures
            r == self.memories + index.0 * SIZE_OF_VMDEFINITION,
            r + SIZE_OF_VMDEFINITION <= self.size,
    {
        self.vmctx_memories_begin() + index.as_u32() * SIZE_OF_VMDEFINITION
    }

    /// Offset of the `base` field of the definition of a memory.
    pub fn vmctx_vmmemory_definition_base(&self, index: DefinedMemoryIndex) -> (r: u32)
        requires
            self.wf(),
            index.0 < self.num_defined_memories,
        ensures
            r == self.memories + index.0 * SIZE_OF_VMDEFINITION + VMDEFINITION_BASE,
            r < self.size,
    {
        self.vmctx_vmmemory_definition(index) + VMDEFINITION_BASE
    }

    /// Offset of the `current_length` field of the definition of a memory.
    pub fn vmctx_vmmemory_definition_current_length(&self, index: DefinedMemoryIndex) -> (r: u32)
        requires
            self.wf(),
            index.0 < self.num_defined_memories,
        ensures
            r == self.memories + index.0 * SIZE_OF_VMDEFINITION + VMDEFINITION_CURRENT_LENGTH,
            r < self.size,
    {
        self.vmctx_vmmemory_definition(index) + VMDEFINITION_CURRENT_LENGTH
    }

    /// Offset of the definition of a global.
    pub fn vmctx_vmglobal_definition(&self, index: DefinedGlobalIndex) -> (r: u32)
        requires
            self.wf(),
            index.0 < self.num_defined_globals,
        ensures
            r == self.globals + index.0 * SIZE_OF_VMDEFINITION,
            r + SIZE_OF_VMDEFINITION <= self.size,
    {
        self.vmctx_globals_begin() + index.as_u32() * SIZE_OF_VMDEFINITION
    }

    /// The number of bytes of the context.
    pub fn size(&self) -> (r: u32)
        ensures
            r == self.size,
    {
        self.size
    }

    /// Whether the context has the entry.
    pub open spec fn has_slot(self, slot: Slot) -> bool {
        match slot {
            Slot::FuncRef(i) => i < self.num_escaped_funcs,
            Slot::ImportedFunction(i) => i < self.num_imported_funcs,
            Slot::ImportedTable(i) => i < self.num_imported_tables,
            Slot::ImportedMemory(i) => i < self.num_imported_memories,
            Slot::ImportedGlobal(i) => i < self.num_imported_globals,
            Slot::Table(i) => i < self.num_defined_tables,
            Slot::Memory(i) => i < self.num_defined_memories,
            Slot::Global(i) => i < self.num_defined_globals,
        }
    }

    /// The offset of an entry.
    pub open spec fn slot_offset(self, slot: Slot) -> int {
        match slot {
            Slot::FuncRef(i) => self.func_refs + i * SIZE_OF_VMFUNC_REF,
            Slot::ImportedFunction(i) => self.imported_functions + i * SIZE_OF_VMFUNCTION_IMPORT,
            Slot::ImportedTable(i) => self.imported_tables + i * SIZE_OF_VMIMPORT,
            Slot::ImportedMemory(i) => self.imported_memories + i * SIZE_OF_VMIMPORT,
            Slot::ImportedGlobal(i) => self.imported_globals + i * SIZE_OF_VMIMPORT,
            Slot::Table(i) => self.tables + i * SIZE_OF_VMDEFINITION,
            Slot::Memory(i) => self.memories + i * SIZE_OF_VMDEFINITION,
            Slot::Global(i) => self.globals + i * SIZE_OF_VMDEFINITION,
        }
    }

    /// The number of bytes of an entry.
    pub open spec fn slot_size(self, slot: Slot) -> int {
        match slot {
            Slot::FuncRef(_) => SIZE_OF_VMFUNC_REF as int,
            Slot::ImportedFunction(_) => SIZE_OF_VMFUNCTION_IMPORT as int,
            Slot::ImportedTable(_) | Slot::ImportedMemory(_) | Slot::ImportedGlobal(
                _,
            ) => SIZE_OF_VMIMPORT as int,
            _ => SIZE_OF_VMDEFINITION as int,
        }
    }
}

/// Every entry lies behind the static fields and inside the context.
pub proof fn slots_lie_in_context(offsets: VMOffsets, slot: Slot)
    requires
        offsets.wf(),
        offsets.has_slot(slot),
    ensures
        7 * offsets.static_.ptr_size <= offsets.slot_offset(slot),
        offsets.slot_offset(slot) + offsets.slot_size(slot) <= offsets.size,
{
}

/// Two different entries never share a byte.
pub proof fn slots_are_disjoint(offsets: VMOffsets, a: Slot, b: Slot)
    requires
        offsets.wf(),
        offsets.has_slot(a),
        offsets.has_slot(b),
        a != b,
    ensures
        offsets.slot_offset(a) + offsets.slot_size(a) <= offsets.slot_offset(b)
            || offsets.slot_offset(b) + offsets.slot_size(b) <= offsets.slot_offset(a),
{
}

} // verus!
