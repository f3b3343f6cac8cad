use k23_wasm::indices::{EntityIndex, FuncIndex, GlobalIndex, TypeIndex};
use k23_wasm::module::Module;
use k23_wasm::module_env::ModuleEnvironment;
use k23_wasm::registry::{parse_bootargs, PreloadError, UnstableLocalRegistry};
use k23_wasm::types::{GlobalDesc, WasmFuncType, WasmValType};

#[test]
fn declarations_are_collected() {
    let mut env = ModuleEnvironment::new();
    env.declare_type_func(WasmFuncType { params: vec![WasmValType::I32], results: vec![] });
    env.declare_func_import(TypeIndex::from_u32(0), "env", "f");
    env.declare_func_type(TypeIndex::from_u32(0));
    let global = GlobalDesc { content_type: WasmValType::I64, mutable: false, shared: false };
    env.declare_global_import(global, "env", "g");
    env.declare_global(global);
    env.declare_func_export(FuncIndex::from_u32(0), "x");
    env.declare_global_export(GlobalIndex::from_u32(1), "y");
    env.declare_func_export(FuncIndex::from_u32(1), "x");
    env.declare_start_func(FuncIndex::from_u32(1));
    let result = env.finish();
    assert_eq!(result.module.functions.len(), 2);
    assert_eq!(result.module.num_imported_functions, 1);
    assert_eq!(result.module.num_imported_globals, 1);
    assert_eq!(result.module.globals.len(), 2);
    assert_eq!(result.imports.len(), 2);
    assert_eq!(result.imports[1].field, "g");
    assert_eq!(result.imports[1].index, EntityIndex::Global(GlobalIndex::from_u32(0)));
    assert_eq!(
        result.module.exports,
        vec![
            ("x".to_string(), EntityIndex::Function(FuncIndex::from_u32(1))),
            ("y".to_string(), EntityIndex::Global(GlobalIndex::from_u32(1))),
        ]
    );
    assert_eq!(result.start, Some(FuncIndex::from_u32(1)));
    assert!(env.finish().module.functions.is_empty());
}

#[test]
fn stubs_have_a_name() {
    let stub = Module::new_stub();
    assert_eq!(stub.display_name(), "<Stub>");
    assert!(stub.exports().is_empty());
    assert_eq!(stub.code().text_range(), (1, 1));
    assert_eq!(stub.code().lookup_trap_code(0), None);
    assert!(stub.code().function_info().is_empty());
    let unnamed = Module::new(None, ModuleEnvironment::new().finish(), code());
    assert_eq!(unnamed.display_name(), "<unnamed mystery module>");
    assert!(unnamed.name().is_none());
}

fn code() -> k23_wasm::code_memory::CodeMemory {
    k23_wasm::code_memory::CodeMemory::new(1, 0, vec![], vec![], vec![], vec![])
}

#[test]
fn base64_is_decoded() {
    let decode = UnstableLocalRegistry::decode_base64;
    assert_eq!(decode("").unwrap(), Vec::<u8>::new());
    assert_eq!(decode("AGFzbQ==").unwrap(), b"\0asm");
    assert_eq!(decode("aGVsbG8=").unwrap(), b"hello");
    assert_eq!(decode("+/+/").unwrap(), vec![0xfb, 0xff, 0xbf]);
    assert_eq!(decode("aGVsbG8"), Err(PreloadError::Base64));
    assert_eq!(decode("aGVsbG9="), Err(PreloadError::Base64));
    assert_eq!(decode("aGVs bG8="), Err(PreloadError::Base64));
    assert_eq!(decode("===="), Err(PreloadError::Base64));
}

#[test]
fn preloads_are_read_from_the_command_line() {
    let (list, error) = parse_bootargs("  log=debug;unstable_preload=fib=AGFzbQ==;x;unstable_preload=a= \n");
    assert_eq!(
        list,
        vec![("fib".to_string(), "AGFzbQ==".to_string()), ("a".to_string(), "".to_string())]
    );
    assert_eq!(error, None);
    let (list, error) = parse_bootargs("unstable_preload=a=b;unstable_preload=c;unstable_preload=d=e");
    assert_eq!(list, vec![("a".to_string(), "b".to_string())]);
    assert_eq!(error, Some(PreloadError::MalformedDirective));
    assert_eq!(parse_bootargs("").0, vec![]);
    assert_eq!(parse_bootargs(" unstable_preload").0, vec![]);
    // White space inside a part stays.
    assert_eq!(parse_bootargs("x; unstable_preload=a=b").0, vec![]);
}

#[test]
fn modules_are_registered_by_name() {
    let mut registry = UnstableLocalRegistry::new();
    assert_eq!(registry.get("fib"), None);
    registry.insert("fib", 1);
    registry.insert("fac", 2);
    registry.insert("fib", 3);
    assert_eq!(registry.get("fib"), Some(3));
    assert_eq!(registry.get("fac"), Some(2));
    assert_eq!(registry.get("fi"), None);
}
