use k23_wasm::errors::{Error, SizeOverflow};
use k23_wasm::indices::{
    CanonicalizedTypeIndex, DefinedMemoryIndex, FuncIndex, FuncRefIndex, GlobalIndex, MemoryIndex,
    ModuleInternedTypeIndex, TableIndex, VMSharedTypeIndex,
};
use k23_wasm::translate::{FunctionDesc, TranslatedModule};
use k23_wasm::ir::TrapCode;
use k23_wasm::types::{EntityType, MemoryDesc, WASM64_MAX_PAGES};
use k23_wasm::vmoffsets::{StaticVMOffsets, VMOffsets};

fn memory(minimum: u64, maximum: Option<u64>, memory64: bool) -> MemoryDesc {
    MemoryDesc { minimum, maximum, shared: false, memory64, page_size_log2: 16, offset_guard_size: 0 }
}

#[test]
fn indices_wrap_numbers() {
    assert_eq!(FuncIndex::from_u32(7).as_u32(), 7);
    assert_eq!(FuncIndex::from_u32(7).index(), 7);
    assert!(FuncRefIndex::reserved_value().is_reserved_value());
    assert!(!FuncRefIndex::from_u32(0).is_reserved_value());
    let ty = CanonicalizedTypeIndex::from(ModuleInternedTypeIndex::from_u32(3));
    assert!(matches!(ty, CanonicalizedTypeIndex::Module(i) if i.as_u32() == 3));
    let ty = CanonicalizedTypeIndex::from(VMSharedTypeIndex::from_u32(4));
    assert!(matches!(ty, CanonicalizedTypeIndex::Engine(_)));
}

#[test]
fn memory_sizes_are_in_bytes() {
    let m = memory(2, Some(5), false);
    assert_eq!(m.page_size(), 65536);
    assert_eq!(m.minimum_byte_size().ok(), Some(131072));
    assert_eq!(m.maximum_byte_size().ok(), Some(327680));
    assert_eq!(m.max_size_based_on_index_type(), 1 << 32);
    let all = memory(WASM64_MAX_PAGES, None, true);
    match all.minimum_byte_size() {
        Err(e) => assert_eq!(e.message(), "size overflow calculating memory size"),
        Ok(_) => panic!("the size does not fit"),
    }
    assert_eq!(memory(0, None, false).maximum_byte_size().ok(), Some(1 << 32));
    assert_eq!(SizeOverflow.message(), "size overflow calculating memory size");
}

#[test]
fn static_fields_follow_each_other() {
    let offsets = StaticVMOffsets::new(8);
    assert_eq!(offsets.vmctx_magic(), 0);
    assert_eq!(offsets.vmctx_builtin_functions(), 8);
    assert_eq!(offsets.vmctx_type_ids(), 16);
    assert_eq!(offsets.vmctx_stack_limit(), 24);
    assert_eq!(offsets.vmctx_last_wasm_exit_fp(), 32);
    assert_eq!(offsets.vmctx_last_wasm_exit_pc(), 40);
    assert_eq!(offsets.vmctx_last_wasm_entry_fp(), 48);
    assert_eq!(offsets.size(), 56);
}

#[test]
fn arrays_follow_the_static_fields() {
    let module = TranslatedModule {
        types: vec![],
        functions: vec![FunctionDesc { signature: 0, func_ref: FuncRefIndex::from_u32(0) }],
        tables: vec![],
        memories: vec![memory(1, None, false), memory(1, None, false)],
        globals: vec![],
        exports: vec![],
        num_imported_functions: 1,
        num_imported_tables: 0,
        num_imported_memories: 1,
        num_imported_globals: 0,
        num_escaped_functions: 1,
    };
    let offsets = VMOffsets::for_module(8, &module);
    assert_eq!(offsets.vmctx_func_refs_begin(), 56);
    assert_eq!(offsets.vmctx_vmfunc_ref_type_index(FuncRefIndex::from_u32(0)), 80);
    assert_eq!(offsets.vmctx_imported_functions_begin(), 88);
    assert_eq!(offsets.vmctx_vmfunction_import_vmctx(FuncIndex::from_u32(0)), 104);
    assert_eq!(offsets.vmctx_vmmemory_import_vmctx(MemoryIndex::from_u32(0)), 120);
    assert_eq!(offsets.vmctx_vmmemory_definition_current_length(DefinedMemoryIndex::from_u32(0)), 136);
    assert_eq!(offsets.size(), 144);
    assert_eq!(module.num_defined_memories(), 1);
    assert_eq!(module.defined_memory_index(MemoryIndex::from_u32(1)), Some(DefinedMemoryIndex::from_u32(0)));
    assert_eq!(module.defined_memory_index(MemoryIndex::from_u32(0)), None);
    assert!(module.is_imported_func(FuncIndex::from_u32(0)));
    assert_eq!(module.defined_table_index(TableIndex::from_u32(2)).unwrap().as_u32(), 2);
    assert_eq!(module.defined_global_index(GlobalIndex::from_u32(3)).unwrap().as_u32(), 3);
}

#[test]
fn errors_have_messages() {
    let invalid = Error::InvalidWebAssembly { message: "bad magic".to_string(), offset: 4 };
    assert_eq!(invalid.message(), "invalid WASM input at 4: bad magic");
    assert_eq!(
        Error::unsupported("threads").message(),
        "Feature used by the WebAssembly code is not supported: threads"
    );
    assert_eq!(Error::MmapFailed.message(), "Memory mapping failed");
    let name = |s: &str| s.to_string();
    let missing = Error::MissingImport {
        module: name("env"),
        field: name("mem"),
        type_: EntityType::Memory(memory(1, None, false)),
    };
    assert_eq!(missing.message(), "Missing required import env::mem (memory)");
    let cranelift = Error::Cranelift { func_name: name("f"), message: name("too big") };
    assert_eq!(cranelift.message(), "failed to compile function f: too big");
    assert_eq!(
        Error::Gimli(name("eof")).message(),
        "Failed to parse DWARF debug information: eof"
    );
    let trap = Error::Trap {
        pc: 1,
        faulting_addr: 2,
        trap: TrapCode::Unreachable,
        reason: name("unreachable"),
        message: name("WASM trapped"),
    };
    assert_eq!(trap.message(), "WASM trapped. Reason unreachable");
    let defined = Error::AlreadyDefined { module: name("a"), field: name("b") };
    assert_eq!(defined.message(), "Name a::b is already defined");
}
