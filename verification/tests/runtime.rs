use k23_wasm::compile::{CompiledFunctionInfo, FilePos, FunctionLoc};
use k23_wasm::indices::{
    DefinedGlobalIndex, DefinedMemoryIndex, DefinedTableIndex, EntityIndex, FuncIndex,
    FuncRefIndex, GlobalIndex, MemoryIndex, ModuleInternedTypeIndex, TableIndex,
};
use k23_wasm::runtime::const_eval::{ConstExprEvaluator, ConstOp, VMVal};
use k23_wasm::host_funcs::mem_access::MemoryAccessor;
use k23_wasm::runtime::instance::{
    initialize_vmctx, Export, Imports, Instance, Linkage, MemoryInitializer, TableInitialValue,
    TableSegment, VMCONTEXT_MAGIC,
};
use k23_wasm::runtime::instance_allocator::PlaceholderAllocatorDontUse;
use k23_wasm::runtime::instance_check::is_one_value;
use k23_wasm::runtime::memory::Memory;
use k23_wasm::runtime::mmap::{round_usize_up_to_host_pages, Access, Mmap, Protect};
use k23_wasm::runtime::mmap_vec::MmapVec;
use k23_wasm::runtime::table::Table;
use k23_wasm::runtime::vmcontext::{OwnedVMContext, VMDefinition, VMFunctionImport, VMImport};
use k23_wasm::translate::{FunctionDesc, TranslatedModule};
use k23_wasm::trap_handling::{caught, Activations, CallThreadState};
use k23_wasm::types::{
    GlobalDesc, MemoryDesc, TableDesc, WasmHeapType, WasmHeapTypeInner, WasmRefType, WasmValType,
};
use k23_wasm::vmoffsets::{StaticVMOffsets, VMOffsets};

#[test]
fn constant_expressions_wrap() {
    let mut eval = ConstExprEvaluator::new();
    assert_eq!(eval.eval(&vec![ConstOp::I32Const(-1)]), VMVal(0xffff_ffff));
    assert_eq!(eval.eval(&vec![ConstOp::I64Const(-1)]), VMVal(0xffff_ffff_ffff_ffff));
    let sum = vec![ConstOp::I32Const(i32::MAX), ConstOp::I32Const(1), ConstOp::I32Add];
    assert_eq!(eval.eval(&sum), VMVal(0x8000_0000));
    let difference = vec![ConstOp::I32Const(1), ConstOp::I32Const(3), ConstOp::I32Sub];
    assert_eq!(eval.eval(&difference), VMVal::i32(-2));
    let product = vec![ConstOp::I32Const(-3), ConstOp::I32Const(5), ConstOp::I32Mul];
    assert_eq!(eval.eval(&product), VMVal::i32(-15));
    let wide = vec![
        ConstOp::I64Const(i64::MIN),
        ConstOp::I64Const(1),
        ConstOp::I64Sub,
        ConstOp::I64Const(2),
        ConstOp::I64Mul,
        ConstOp::I64Const(5),
        ConstOp::I64Add,
    ];
    assert_eq!(eval.eval(&wide), VMVal::i64(3));
    assert_eq!(eval.eval(&vec![ConstOp::F32Const(7)]), VMVal(7));
    assert_eq!(eval.eval(&vec![ConstOp::V128Const(u128::MAX)]), VMVal(u128::MAX));
    assert_eq!(VMVal(0x1_2345_6789).get_u32(), 0x2345_6789);
    assert_eq!(VMVal(u128::MAX).get_u64(), u64::MAX);
}

#[test]
fn constant_expressions_use_many_operands() {
    let mut ops = vec![ConstOp::I32Const(0)];
    for i in 1..=10 {
        ops.push(ConstOp::I32Const(i));
    }
    for _ in 0..10 {
        ops.push(ConstOp::I32Add);
    }
    assert_eq!(ConstExprEvaluator::new().eval(&ops), VMVal(55));
}

#[test]
fn sizes_are_rounded_to_pages() {
    assert_eq!(round_usize_up_to_host_pages(0, 4096), 0);
    assert_eq!(round_usize_up_to_host_pages(1, 4096), 4096);
    assert_eq!(round_usize_up_to_host_pages(4096, 4096), 4096);
    assert_eq!(round_usize_up_to_host_pages(4097, 4096), 8192);
}

#[test]
fn mappings_change_protection_in_ranges() {
    let mut mmap = Mmap::new(0x10000, 0x3000, 0x1000);
    assert!(!mmap.is_empty());
    assert!(Mmap::new_empty().is_empty());
    assert_eq!(mmap.as_ptr(), 0x10000);
    assert_eq!(mmap.slice(0x10, 0x30), (0x10010, 0x20));
    assert_eq!(
        mmap.make_accessible(0x1000, 0x800, 0x1000),
        Protect { addr: 0x11000, len: 0x800, access: Access::ReadWrite }
    );
    assert_eq!(
        mmap.make_executable(0x1000, 0x2000, 0x1000),
        Protect { addr: 0x11000, len: 0x1000, access: Access::ReadExecute }
    );
    assert_eq!(
        mmap.make_readonly(0, 0x3000, 0x1000),
        Protect { addr: 0x10000, len: 0x3000, access: Access::Read }
    );
}

#[test]
fn mapped_lists_keep_their_length() {
    let list = MmapVec::from_slice(0x2000, &vec![1u8, 2, 3], 0);
    assert_eq!(list.as_ptr(), 0x2000);
    assert_eq!(list.len(), 0);
    assert!(list.slice().is_empty());
    let empty: MmapVec<u8> = MmapVec::from_slice(0x2000, &vec![], 0);
    assert!(empty.is_empty());
    assert_eq!(empty.as_ptr(), 1);
    let mut zeroed = MmapVec::new_zeroed(0x3000, 4, 0u8);
    zeroed.extend_with(3, 9);
    assert_eq!(zeroed.as_mut_ptr(), 0x3000);
    assert_eq!(zeroed.len(), 0);
}

fn func_ref_type() -> WasmRefType {
    WasmRefType {
        nullable: true,
        heap_type: WasmHeapType { shared: false, ty: WasmHeapTypeInner::Func },
    }
}

fn memory_desc() -> MemoryDesc {
    MemoryDesc {
        minimum: 1,
        maximum: Some(2),
        shared: false,
        memory64: false,
        page_size_log2: 16,
        offset_guard_size: 0x8000_0001,
    }
}

#[test]
fn memories_and_tables_are_allocated() {
    let alloc = PlaceholderAllocatorDontUse { host_page_size: 4096 };
    let memory = alloc.allocate_memory(&memory_desc());
    assert_eq!(memory.len, 65536);
    assert_eq!(memory.maximum, Some(131072));
    assert_eq!(memory.offset_guard_size, 0x8000_1000);
    assert_eq!(memory.as_vmmemory_definition(), VMDefinition { base: 1, current_length: 65536 });
    let desc = TableDesc { element_type: func_ref_type(), minimum: 2, maximum: Some(8) };
    let table = alloc.allocate_table(0x7000, &desc);
    assert_eq!(table.maximum, Some(8));
    assert_eq!(table.as_vmtable_definition(), VMDefinition { base: 0x7000, current_length: 0 });
    assert!(table.elements().is_empty());
    let empty = Table::try_new(0x7000, &TableDesc { minimum: 0, ..desc }, Some(0));
    assert_eq!(empty.as_vmtable_definition().base, 1);
}

/// A module that imports one of everything and defines one of everything.
fn module() -> TranslatedModule {
    let table = TableDesc { element_type: func_ref_type(), minimum: 0, maximum: None };
    let global = GlobalDesc { content_type: WasmValType::I32, mutable: true, shared: false };
    TranslatedModule {
        types: vec![ModuleInternedTypeIndex::from_u32(0)],
        functions: vec![
            FunctionDesc { signature: 0, func_ref: FuncRefIndex::from_u32(1) },
            FunctionDesc { signature: 0, func_ref: FuncRefIndex::from_u32(0) },
            FunctionDesc { signature: 0, func_ref: FuncRefIndex::reserved_value() },
        ],
        tables: vec![table, table],
        memories: vec![memory_desc(), memory_desc()],
        globals: vec![global, global],
        exports: vec![("run".to_string(), EntityIndex::Function(FuncIndex::from_u32(1)))],
        num_imported_functions: 1,
        num_imported_tables: 1,
        num_imported_memories: 1,
        num_imported_globals: 1,
        num_escaped_functions: 2,
    }
}

#[test]
fn contexts_are_initialized() {
    let module = module();
    let offsets = VMOffsets::for_module(8, &module);
    assert_eq!(offsets.size(), 56 + 2 * 32 + 24 + 3 * 16 + 3 * 16);
    let imports = Imports {
        functions: vec![VMFunctionImport { wasm_call: 0xa1, array_call: 0xa2, vmctx: 0xa3 }],
        tables: vec![VMImport { from: 0xb1, vmctx: 0xb2 }],
        memories: vec![VMImport { from: 0xc1, vmctx: 0xc2 }],
        globals: vec![VMImport { from: 0xd1, vmctx: 0xd2 }],
    };
    let loc = |start| FunctionLoc { start, length: 4 };
    let function_info = vec![
        CompiledFunctionInfo {
            wasm_func_loc: loc(0x10),
            host_to_wasm_trampoline: Some(loc(0x20)),
            start_srcloc: FilePos::default(),
        },
        CompiledFunctionInfo {
            wasm_func_loc: loc(0x30),
            host_to_wasm_trampoline: None,
            start_srcloc: FilePos::default(),
        },
    ];
    let type_ids = vec![42];
    let globals = vec![vec![ConstOp::V128Const(0x11_0000_0000_0000_0022)]];
    let linkage = Linkage {
        module: &module,
        offsets,
        builtin_functions: 0x77,
        type_ids_ptr: 0x88,
        type_ids: &type_ids,
        text: 0x5000,
        function_info: &function_info,
        imports: &imports,
        global_initializers: &globals,
    };
    assert!(linkage.is_complete());
    let mut eval = ConstExprEvaluator::new();
    let mut memory = Memory::try_new(&memory_desc(), 65536, None, 4096);
    memory.mapped = vec![0; 8];
    memory.base = 0x8000;
    let init = MemoryInitializer {
        memory_index: MemoryIndex::from_u32(1),
        offset: vec![ConstOp::I32Const(2)],
        data: vec![7, 8, 9],
    };
    let table = Table::try_new(0x7000, &module.tables[1], None);
    let instance = Instance::new_unchecked(
        &linkage,
        OwnedVMContext::try_new(0x9000, &offsets),
        &mut eval,
        vec![table],
        vec![memory],
        &vec![TableInitialValue::RefNull],
        &vec![],
        &vec![init],
        vec![],
        vec![0],
    );
    assert_eq!(instance.dropped_data, vec![0]);
    assert!(instance.dropped_elems.is_empty());
    assert_eq!(instance.vmctx_magic(), VMCONTEXT_MAGIC as u64);
    assert_eq!(instance.vmctx_stack_limit(), 0);
    assert_eq!(instance.vmctx.word(8), 0x77);
    assert_eq!(instance.vmctx.word(16), 0x88);
    // The reference of the defined function, then that of the imported one.
    assert_eq!(instance.vmctx.word(56), 0x5020);
    assert_eq!(instance.vmctx.word(64), 0x5010);
    assert_eq!(instance.vmctx.word(72), 0x9000);
    assert_eq!(instance.vmctx.word(80), 42);
    assert_eq!(instance.vmctx.word(88), 0xa2);
    assert_eq!(instance.vmctx.word(96), 0xa1);
    assert_eq!(instance.vmctx.word(104), 0xa3);
    // The imported function.
    assert_eq!(instance.vmctx.word(120), 0xa1);
    assert_eq!(instance.vmctx.word(128), 0xa2);
    assert_eq!(instance.vmctx.word(144), 0xb1);
    assert_eq!(instance.vmctx.word(160), 0xc1);
    assert_eq!(instance.vmctx.word(184), 0xd2);
    // The table and the memory that the instance holds.
    assert_eq!((instance.vmctx.word(192), instance.vmctx.word(200)), (0x7000, 0));
    assert_eq!((instance.vmctx.word(208), instance.vmctx.word(216)), (0x8000, 65536));
    let definition = instance.tables[0].as_vmtable_definition();
    assert_eq!((definition.base, definition.current_length), (0x7000, 0));
    assert_eq!(instance.tables[0].maximum, None);
    assert_eq!((instance.memories[0].base, instance.memories[0].len), (0x8000, 65536));
    assert_eq!(instance.memories[0].maximum, None);
    assert_eq!(instance.memories[0].page_size_log2, 16);
    assert_eq!(instance.memories[0].offset_guard_size, 0x8000_1000);
    assert_eq!(instance.vmctx.word(224), 0x22);
    assert_eq!(instance.vmctx.word(232), 0x11);
    assert_eq!(instance.memories[0].mapped, vec![0, 0, 7, 8, 9, 0, 0, 0]);
    assert_eq!(instance.exports.len(), 1);

    let func = |i| EntityIndex::Function(FuncIndex::from_u32(i));
    match instance.get_export_by_index(func(1)) {
        Export::Function(f) => assert_eq!(f.func_ref, 0x9000 + 56),
        _ => panic!("a function is exported as a function"),
    }
    assert_eq!(instance.get_func_ref(FuncIndex::reserved_value()), None);
    let table = instance.get_exported_table(TableIndex::from_u32(0));
    assert_eq!((table.definition, table.vmctx), (0xb1, 0xb2));
    let table = instance.get_exported_table(TableIndex::from_u32(1));
    assert_eq!((table.definition, table.vmctx), (0x9000 + 192, 0x9000));
    let memory = instance.get_exported_memory(MemoryIndex::from_u32(0));
    assert_eq!((memory.definition, memory.vmctx), (0xc1, 0xc2));
    let global = instance.get_exported_global(GlobalIndex::from_u32(1));
    assert_eq!((global.definition, global.vmctx), (0x9000 + 224, 0x9000));

    assert_eq!(
        instance.imported_function(FuncIndex::from_u32(0)),
        VMFunctionImport { wasm_call: 0xa1, array_call: 0xa2, vmctx: 0xa3 }
    );
    assert_eq!(
        instance.imported_table(TableIndex::from_u32(0)),
        VMImport { from: 0xb1, vmctx: 0xb2 }
    );
    assert_eq!(
        instance.imported_memory(MemoryIndex::from_u32(0)),
        VMImport { from: 0xc1, vmctx: 0xc2 }
    );
    assert_eq!(
        instance.imported_global(GlobalIndex::from_u32(0)),
        VMImport { from: 0xd1, vmctx: 0xd2 }
    );
    assert_eq!(instance.table_ptr(DefinedTableIndex::from_u32(0)), 0x9000 + 192);
    assert_eq!(instance.memory_ptr(DefinedMemoryIndex::from_u32(0)), 0x9000 + 208);
    assert_eq!(instance.global_ptr(DefinedGlobalIndex::from_u32(0)), 0x9000 + 224);
}

#[test]
fn initializing_keeps_frames_and_limits() {
    let module = TranslatedModule { exports: vec![], ..plain_module() };
    let offsets = VMOffsets::for_module(8, &module);
    let imports =
        Imports { functions: vec![], tables: vec![], memories: vec![], globals: vec![] };
    let linkage = Linkage {
        module: &module,
        offsets,
        builtin_functions: 0x77,
        type_ids_ptr: 0x88,
        type_ids: &vec![],
        text: 0x5000,
        function_info: &vec![],
        imports: &imports,
        global_initializers: &vec![],
    };
    let mut vmctx = OwnedVMContext::try_new(0x9000, &offsets);
    for offset in [24, 32, 40, 48] {
        vmctx.set_word(offset, u64::from(offset));
    }
    initialize_vmctx(&mut vmctx, &mut ConstExprEvaluator::new(), &linkage, &vec![], &vec![]);
    for offset in [24, 32, 40, 48] {
        assert_eq!(vmctx.word(offset), u64::from(offset));
    }
    assert_eq!(vmctx.word(8), 0x77);
    assert_eq!(vmctx.word(16), 0x88);
}

fn plain_module() -> TranslatedModule {
    TranslatedModule {
        types: vec![],
        functions: vec![],
        tables: vec![],
        memories: vec![],
        globals: vec![],
        exports: vec![],
        num_imported_functions: 0,
        num_imported_tables: 0,
        num_imported_memories: 0,
        num_imported_globals: 0,
        num_escaped_functions: 0,
    }
}

#[test]
fn memory_is_accessed_where_there_is_one() {
    let instance_of = |module| {
        let offsets = VMOffsets::for_module(8, module);
        Instance {
            module,
            offsets,
            vmctx: OwnedVMContext::try_new(0x9000, &offsets),
            tables: vec![],
            memories: vec![],
            dropped_elems: vec![],
            dropped_data: vec![],
            exports: vec![],
        }
    };
    let other = VMDefinition { base: 0x1000, current_length: 2 };
    let without = plain_module();
    assert!(MemoryAccessor::new(&instance_of(&without), other, vec![1]).is_none());
    let imported = TranslatedModule {
        memories: vec![memory_desc()],
        num_imported_memories: 1,
        ..plain_module()
    };
    let mem = MemoryAccessor::new(&instance_of(&imported), other, vec![1, 2]).unwrap();
    assert_eq!((mem.base(), mem.size()), (0x1000, 2));
    let defined = TranslatedModule { memories: vec![memory_desc()], ..plain_module() };
    let mut instance = instance_of(&defined);
    let offset = instance.offsets.vmctx_vmmemory_definition(DefinedMemoryIndex::from_u32(0));
    instance.vmctx.set_words(offset, &vec![0x2000, 3]);
    let mem = MemoryAccessor::new(&instance, other, vec![1, 2, 3]).unwrap();
    assert_eq!((mem.base(), mem.size()), (0x2000, 3));
}

#[test]
fn elements_are_changed_in_place() {
    let desc = TableDesc { element_type: func_ref_type(), minimum: 0, maximum: None };
    let mut table = Table::try_new(0x7000, &desc, None);
    assert!(table.elements_mut().is_empty());
    let mut list = MmapVec::from_slice(0x2000, &vec![1u8, 2, 3], 0);
    assert!(list.slice_mut().is_empty());
}

#[test]
fn activations_are_nested() {
    let module = module();
    let offsets = VMOffsets::for_module(8, &module);
    let mut vmctx = OwnedVMContext::try_new(0x9000, &offsets);
    vmctx.set_words(32, &vec![1, 2, 3]);
    let statics = StaticVMOffsets::new(8);
    let state = CallThreadState::new(&vmctx, statics);
    assert_eq!(state.old_last_wasm_exit_pc, 2);
    let mut activations = Activations::new();
    activations.push(state);
    vmctx.set_words(32, &vec![4, 5, 6]);
    activations.push(CallThreadState::new(&vmctx, statics));
    assert_eq!(activations.iter(), vec![1, 0]);
    vmctx.set_words(32, &vec![7, 8, 9]);
    let inner = activations.pop();
    inner.restore(&mut vmctx, statics);
    assert_eq!(vmctx.word(40), 5);
    let outer = activations.pop();
    assert_eq!(outer.prev(), None);
    outer.restore(&mut vmctx, statics);
    assert_eq!((vmctx.word(32), vmctx.word(40), vmctx.word(48)), (1, 2, 3));
    assert!(!activations.is_active());
    assert!(caught(0, None).is_ok());
}

#[test]
fn expressions_of_one_value_are_told() {
    let c = ConstOp::I32Const(1);
    let one = |ops: &[ConstOp]| is_one_value(&ops.to_vec());
    assert!(one(&[c]));
    assert!(one(&[c, c, c, ConstOp::I32Add, ConstOp::I64Mul]));
    assert!(!one(&[]));
    assert!(!one(&[c, c]));
    assert!(!one(&[c, ConstOp::I32Sub]));
    assert!(!one(&[ConstOp::RefNull]));
    assert!(!one(&[c, c, ConstOp::RefI31]));
}

#[test]
fn what_cannot_be_instantiated_is_told() {
    let desc = TableDesc { element_type: func_ref_type(), minimum: 0, maximum: None };
    let module = TranslatedModule {
        tables: vec![desc],
        memories: vec![memory_desc()],
        ..plain_module()
    };
    let offsets = VMOffsets::for_module(8, &module);
    let imports =
        Imports { functions: vec![], tables: vec![], memories: vec![], globals: vec![] };
    let (ids, infos, exprs) = (vec![], vec![], vec![]);
    let linkage = Linkage {
        module: &module,
        offsets,
        builtin_functions: 0,
        type_ids_ptr: 0,
        type_ids: &ids,
        text: 0,
        function_info: &infos,
        imports: &imports,
        global_initializers: &exprs,
    };
    assert!(linkage.is_complete());
    let info = CompiledFunctionInfo {
        wasm_func_loc: FunctionLoc { start: 0, length: 0 },
        host_to_wasm_trampoline: None,
        start_srcloc: FilePos::default(),
    };
    assert!(!Linkage { function_info: &vec![info], ..linkage }.is_complete());
    let globals = vec![vec![ConstOp::I32Const(1)]];
    assert!(!Linkage { global_initializers: &globals, ..linkage }.is_complete());
    let shared = TranslatedModule {
        tables: vec![desc],
        memories: vec![MemoryDesc { shared: true, ..memory_desc() }],
        ..plain_module()
    };
    assert!(!Linkage { module: &shared, ..linkage }.is_complete());

    let context = OwnedVMContext::try_new(0x9000, &offsets);
    let bytes = |offset, len| MemoryInitializer {
        memory_index: MemoryIndex::from_u32(0),
        offset: vec![ConstOp::I32Const(offset)],
        data: vec![1; len],
    };
    let fits = |init: MemoryInitializer, values: Vec<TableInitialValue>, segments: Vec<TableSegment>| {
        let mut memory = Memory::try_new(&memory_desc(), 65536, None, 4096);
        memory.mapped = vec![0; 8];
        let tables = vec![Table::try_new(0x7000, &desc, None)];
        linkage.is_fitting(&context, &tables, &vec![memory], &values, &segments, &vec![init])
    };
    let none: (Vec<Table>, Vec<Memory>) = (vec![], vec![]);
    assert!(!linkage.is_fitting(&context, &none.0, &none.1, &vec![], &vec![], &vec![]));
    assert!(fits(bytes(0, 8), vec![], vec![]));
    assert!(fits(bytes(8, 0), vec![], vec![]));
    assert!(!fits(bytes(1, 8), vec![], vec![]));
    assert!(!fits(bytes(-1, 1), vec![], vec![]));
    let other = MemoryInitializer { memory_index: MemoryIndex::from_u32(1), ..bytes(0, 1) };
    assert!(!fits(other, vec![], vec![]));
    let get = vec![ConstOp::GlobalGet(GlobalIndex::from_u32(0))];
    assert!(!fits(MemoryInitializer { offset: get, ..bytes(0, 1) }, vec![], vec![]));
    let address = |n| TableInitialValue::ConstExpr(vec![ConstOp::I64Const(n)]);
    assert!(fits(bytes(0, 1), vec![address(0x10)], vec![]));
    assert!(!fits(bytes(0, 1), vec![address(0)], vec![]));
    assert!(!fits(bytes(0, 1), vec![TableInitialValue::RefNull, TableInitialValue::RefNull], vec![]));
    let segment = |elements| TableSegment {
        table_index: TableIndex::from_u32(0),
        offset: vec![ConstOp::I32Const(0)],
        elements,
    };
    assert!(fits(bytes(0, 1), vec![], vec![segment(vec![])]));
    assert!(!fits(bytes(0, 1), vec![], vec![segment(vec![vec![ConstOp::I64Const(1)]])]));
}
