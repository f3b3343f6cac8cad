use k23_wasm::errors::Error;
use k23_wasm::indices::{
    CanonicalizedTypeIndex, EntityIndex, FuncIndex, GlobalIndex, MemoryIndex,
    ModuleInternedTypeIndex, TableIndex,
};
use k23_wasm::module_env::{ModuleTranslation, SegmentKind, TableSegmentElements};
use k23_wasm::module_translator::{
    declare_all, translate_module, translate_sections, val_type, Expr, ParsedData, ParsedInit,
    ParsedItems, ParsedModule, ParsedSegment, DEFAULT_OFFSET_GUARD_SIZE,
};
use k23_wasm::parse::{
    RawEntity, RawExport, RawExternal, RawFuncType, RawHeap, RawImport, RawMemory, RawName,
    RawTable, RawVal,
};
use k23_wasm::runtime::const_eval::ConstOp;
use k23_wasm::runtime::initializers::{memory_initializers, table_initial_values, table_segments};
use k23_wasm::runtime::instance::TableInitialValue;
use k23_wasm::types::{WasmHeapTypeInner, WasmRefType, WasmValType};
use wasmparser::WasmFeatures;
use wast::parser::ParseBuffer;

fn encode(text: &str) -> Vec<u8> {
    let buffer = ParseBuffer::new(text).unwrap();
    wast::parser::parse::<wast::Wat>(&buffer).unwrap().encode().unwrap()
}

fn translate(text: &str) -> Result<ModuleTranslation, Error> {
    translate_module(&encode(text), features())
}

fn features() -> u32 {
    WasmFeatures::default().bits()
}

fn empty() -> ParsedModule {
    ParsedModule {
        types: vec![],
        imports: vec![],
        import_types: vec![],
        functions: vec![],
        tables: vec![],
        memories: vec![],
        globals: vec![],
        exports: vec![],
        start: vec![],
        names: vec![],
        global_inits: vec![],
        data: vec![],
        elements: vec![],
        element_items: vec![],
        table_inits: vec![],
        bodies: vec![],
    }
}

#[test]
fn modules_are_translated_from_bytes() {
    let t = translate(
        r#"(module $greeter
            (type (func (param i32 i64) (result f32)))
            (type (func))
            (import "env" "f" (func (type 0)))
            (import "env" "t" (table 1 2 funcref))
            (import "env" "g" (global (mut i64)))
            (import "env" "m" (memory 1))
            (func $a (type 1))
            (func $b (type 1))
            (table 3 externref)
            (memory 2 4)
            (global f64 (f64.const 1))
            (export "b" (func $b))
            (export "m" (memory 1))
            (export "again" (func $b))
            (export "imported" (func 0))
            (start $a))"#,
    )
    .ok()
    .unwrap();
    assert_eq!(t.name.as_deref(), Some("greeter"));
    assert_eq!(t.types.types[0].params, vec![WasmValType::I32, WasmValType::I64]);
    assert_eq!(t.types.types[0].results, vec![WasmValType::F32]);
    assert!(t.types.types[1].params.is_empty());
    let m = &t.module;
    assert_eq!(m.functions.iter().map(|f| f.signature).collect::<Vec<_>>(), vec![0, 1, 1]);
    assert_eq!(
        (m.num_imported_functions, m.num_imported_tables, m.num_imported_memories),
        (1, 1, 1)
    );
    assert_eq!(m.num_imported_globals, 1);
    assert_eq!((m.tables[0].minimum, m.tables[0].maximum), (1, Some(2)));
    assert_eq!(m.tables[0].element_type.heap_type.ty, WasmHeapTypeInner::Func);
    assert_eq!(m.tables[1].element_type.heap_type.ty, WasmHeapTypeInner::Extern);
    assert!(m.tables[1].element_type.nullable);
    assert_eq!((m.memories[1].minimum, m.memories[1].maximum), (2, Some(4)));
    assert_eq!(m.memories[0].offset_guard_size, DEFAULT_OFFSET_GUARD_SIZE);
    assert_eq!(m.memories[0].page_size_log2, 16);
    assert_eq!(m.globals[0].content_type, WasmValType::I64);
    assert!(m.globals[0].mutable);
    assert_eq!(m.globals[1].content_type, WasmValType::F64);
    assert_eq!(t.imports.len(), 4);
    assert_eq!(t.imports[2].field, "g");
    assert_eq!(t.imports[2].index, EntityIndex::Global(GlobalIndex::from_u32(0)));
    assert_eq!(t.imports[3].index, EntityIndex::Memory(MemoryIndex::from_u32(0)));
    assert_eq!(t.start, Some(FuncIndex::from_u32(1)));
    // Exported functions have slots, in the order of the exports; the others have none.
    assert_eq!(m.num_escaped_functions, 2);
    assert_eq!(m.functions[2].func_ref.as_u32(), 0);
    assert_eq!(m.functions[0].func_ref.as_u32(), 1);
    assert!(!m.functions[1].is_escaping());
    assert_eq!(m.exports.len(), 4);
}

#[test]
fn references_keep_what_they_refer_to() {
    let t = translate(
        "(module (type (func)) (func (param (ref null 0) (ref 0) nullfuncref (ref extern) anyref)))",
    )
    .ok()
    .unwrap();
    let refs: Vec<WasmRefType> = t.types.types[1]
        .params
        .iter()
        .map(|p| match p {
            WasmValType::Ref(r) => *r,
            _ => panic!("all parameters are references"),
        })
        .collect();
    let concrete = WasmHeapTypeInner::ConcreteFunc(CanonicalizedTypeIndex::Module(
        ModuleInternedTypeIndex::from_u32(0),
    ));
    assert_eq!((refs[0].nullable, refs[0].heap_type.ty), (true, concrete));
    assert_eq!((refs[1].nullable, refs[1].heap_type.ty), (false, concrete));
    assert_eq!(refs[2].heap_type.ty, WasmHeapTypeInner::NoFunc);
    assert_eq!((refs[3].nullable, refs[3].heap_type.ty), (false, WasmHeapTypeInner::Extern));
    assert_eq!(refs[4].heap_type.ty, WasmHeapTypeInner::Any);
}

#[test]
fn positions_of_abstract_types_are_those_of_the_parser() {
    let names = [
        ("func", WasmHeapTypeInner::Func),
        ("extern", WasmHeapTypeInner::Extern),
        ("any", WasmHeapTypeInner::Any),
        ("none", WasmHeapTypeInner::NoAny),
        ("noextern", WasmHeapTypeInner::NoExtern),
        ("nofunc", WasmHeapTypeInner::NoFunc),
        ("eq", WasmHeapTypeInner::Eq),
        ("struct", WasmHeapTypeInner::Struct),
        ("array", WasmHeapTypeInner::Array),
        ("i31", WasmHeapTypeInner::I31),
    ];
    for (name, ty) in names {
        let t = translate(&format!("(module (func (param (ref {name}))))")).ok().unwrap();
        match t.types.types[0].params[0] {
            WasmValType::Ref(r) => assert_eq!(r.heap_type.ty, ty, "{name}"),
            _ => panic!("the parameter is a reference"),
        }
    }
    let raw = |n| val_type(RawVal::Ref(true, RawHeap::Abstract(true, n)));
    for (n, ty) in [
        (10, WasmHeapTypeInner::Exn),
        (11, WasmHeapTypeInner::NoExn),
        (12, WasmHeapTypeInner::Cont),
        (13, WasmHeapTypeInner::NoCont),
    ] {
        match raw(n) {
            Some(WasmValType::Ref(r)) => {
                assert!(r.nullable && r.heap_type.shared);
                assert_eq!(r.heap_type.ty, ty);
            }
            _ => panic!("the type is a reference"),
        }
    }
    assert!(raw(14).is_none());
}

#[test]
fn segments_and_first_values_are_kept() {
    let t = translate(
        r#"(module
            (memory 1)
            (table 4 funcref)
            (func $f) (func $g) (func $h)
            (export "h" (func $h))
            (global i32 (i32.add (i32.const 1) (i32.mul (i32.const 2) (i32.const -3))))
            (global i64 (i64.sub (i64.const 7) (i64.const 9)))
            (global f32 (f32.const 1.5))
            (global f64 (f64.const -0))
            (global v128 (v128.const i64x2 1 2))
            (elem (i32.const 1) $g $h)
            (elem func $f)
            (data (i32.const 8) "hi")
            (data "later"))"#,
    )
    .ok()
    .unwrap();
    let i32s = |v| ConstOp::I32Const(v);
    assert_eq!(
        t.global_initializers,
        vec![
            vec![i32s(1), i32s(2), i32s(-3), ConstOp::I32Mul, ConstOp::I32Add],
            vec![ConstOp::I64Const(7), ConstOp::I64Const(9), ConstOp::I64Sub],
            vec![ConstOp::F32Const(0x3fc0_0000)],
            vec![ConstOp::F64Const(0x8000_0000_0000_0000)],
            vec![ConstOp::V128Const(0x2_0000_0000_0000_0001)],
        ]
    );
    assert_eq!(t.data.len(), 2);
    assert_eq!(t.data[0].memory, Some((MemoryIndex::from_u32(0), vec![i32s(8)])));
    assert_eq!(t.data[0].data, b"hi");
    assert_eq!(t.data[1].memory, None);
    assert_eq!(t.data[1].data, b"later");
    assert_eq!(t.elements.len(), 2);
    match &t.elements[0].kind {
        SegmentKind::Active(table, offset) => {
            assert_eq!((*table, offset), (TableIndex::from_u32(0), &vec![i32s(1)]));
        }
        _ => panic!("the segment is active"),
    }
    match &t.elements[0].elements {
        TableSegmentElements::Functions(f) => {
            assert_eq!(*f, vec![FuncIndex::from_u32(1), FuncIndex::from_u32(2)]);
        }
        _ => panic!("the elements are functions"),
    }
    assert!(matches!(t.elements[1].kind, SegmentKind::Passive));
    // Exported functions come first, then those of segments.
    let slots: Vec<u32> = t.module.functions.iter().map(|f| f.func_ref.as_u32()).collect();
    assert_eq!(slots, vec![2, 1, 0]);
    assert_eq!(t.module.num_escaped_functions, 3);
}

#[test]
fn expressions_refer_to_globals_and_functions() {
    let bytes = encode(
        r#"(module
            (import "e" "g" (global i32))
            (memory 1)
            (func $f) (func $g) (func $h)
            (table 1 (ref func) (ref.func $h))
            (table 2 funcref)
            (global i32 (global.get 0))
            (global externref (ref.null extern))
            (global (ref i31) (ref.i31 (i32.const 3)))
            (elem (table 1) (i32.const 0) funcref (ref.null func) (ref.func $f))
            (elem declare func $g)
            (data (global.get 0) "x"))"#,
    );
    let t = translate_module(&bytes, WasmFeatures::all().bits())
        .unwrap_or_else(|e| panic!("{}", e.message()));
    let get = ConstOp::GlobalGet(GlobalIndex::from_u32(0));
    let func = |n| ConstOp::RefFunc(FuncIndex::from_u32(n));
    assert_eq!(
        t.global_initializers,
        vec![vec![get], vec![ConstOp::RefNull], vec![ConstOp::I32Const(3), ConstOp::RefI31]]
    );
    assert_eq!(t.data[0].memory, Some((MemoryIndex::from_u32(0), vec![get])));
    assert_eq!(t.table_initializers[0].0, Some(vec![func(2)]));
    assert_eq!(t.table_initializers[1].0, None);
    match &t.elements[0].elements {
        TableSegmentElements::Expressions(e) => {
            assert_eq!(*e, vec![vec![ConstOp::RefNull], vec![func(0)]]);
        }
        _ => panic!("the elements are expressions"),
    }
    assert!(matches!(t.elements[1].kind, SegmentKind::Declared));
    // Functions that are referred to escape, wherever that is.
    assert_eq!(t.module.num_escaped_functions, 3);
    assert!(t.module.functions.iter().all(|f| f.is_escaping()));

    let (memories, data) = memory_initializers(&t);
    assert_eq!(data, vec![0]);
    assert_eq!((memories[0].memory_index.as_u32(), &memories[0].offset), (0, &vec![get]));
    assert_eq!(memories[0].data, b"x");
    let (tables, elements) = table_segments(&t);
    assert_eq!(elements, vec![0]);
    assert_eq!(tables.len(), 1);
    assert_eq!(tables[0].table_index, TableIndex::from_u32(1));
    assert_eq!(tables[0].offset, vec![ConstOp::I32Const(0)]);
    assert_eq!(tables[0].elements, vec![vec![ConstOp::RefNull], vec![func(0)]]);
    let values = table_initial_values(&t);
    assert_eq!(values.len(), 2);
    assert!(matches!(values[1], TableInitialValue::RefNull));
    match &values[0] {
        TableInitialValue::ConstExpr(ops) => assert_eq!(*ops, vec![func(2)]),
        TableInitialValue::RefNull => panic!("the table has a first value"),
    }
}

#[test]
fn active_segments_are_listed_in_order() {
    let t = translate(
        r#"(module
            (memory 1)
            (table 4 funcref)
            (func $f) (func $g)
            (elem func $f)
            (elem (i32.const 2) $g $f)
            (data "later")
            (data (i32.const 1) "a")
            (data "never")
            (data (i32.const 2) "b"))"#,
    )
    .ok()
    .unwrap();
    let (memories, data) = memory_initializers(&t);
    assert_eq!(data, vec![1, 3]);
    assert_eq!(memories.iter().map(|m| m.data.clone()).collect::<Vec<_>>(), vec![b"a", b"b"]);
    let (tables, elements) = table_segments(&t);
    assert_eq!(elements, vec![1]);
    let func = |n| vec![ConstOp::RefFunc(FuncIndex::from_u32(n))];
    assert_eq!(tables[0].elements, vec![func(1), func(0)]);
    assert_eq!(tables[0].offset, vec![ConstOp::I32Const(2)]);
}

#[test]
fn modules_are_validated_with_the_features_that_are_asked_for() {
    let text = "(module (memory 1 2 shared))";
    let all = WasmFeatures::all().bits();
    let without = (WasmFeatures::all() - WasmFeatures::THREADS).bits();
    assert_eq!(translate_module(&encode(text), all).ok().unwrap().required_features, all);
    match translate_module(&encode(text), without) {
        Err(Error::InvalidWebAssembly { message, offset }) => {
            assert!(message.contains("threads"), "{message}");
            assert!(offset > 0);
        }
        _ => panic!("shared memories need threads"),
    }
}

#[test]
fn exported_functions_are_found_by_name() {
    let t = translate(
        r#"(module
            (func $a) (func $b)
            (memory (export "m") 1)
            (export "b" (func $b))
            (export "a" (func $a)))"#,
    )
    .ok()
    .unwrap();
    assert_eq!(t.module.exported_func("a"), Some(FuncIndex::from_u32(0)));
    assert_eq!(t.module.exported_func("b"), Some(FuncIndex::from_u32(1)));
    assert_eq!(t.module.exported_func("m"), None);
    assert_eq!(t.module.exported_func(""), None);
}

#[test]
fn invalid_bytes_are_refused() {
    let message = |bytes: &[u8]| match translate_module(bytes, features()) {
        Err(Error::InvalidWebAssembly { message, offset }) => (message, offset),
        _ => panic!("the bytes are no module"),
    };
    assert_eq!(message(b"").1, 0);
    let expected = wasmparser::Validator::new().validate_all(b"\0asm").err().unwrap();
    assert_eq!(message(b"\0asm"), (expected.message().to_string(), expected.offset()));
    assert_eq!(message(b"\0asm").1, 4);
    let mut bytes = encode("(module (func))");
    let end = bytes.len();
    bytes.truncate(end - 1);
    assert!(message(&bytes).0.len() > 0);
    // A function of a type that is not declared.
    let bytes = b"\0asm\x01\0\0\0\x03\x02\x01\x00\x0a\x04\x01\x02\0\x0b";
    message(bytes);
}

#[test]
fn components_and_tags_are_not_supported() {
    assert!(matches!(translate("(component)"), Err(Error::Unsupported(_))));
    assert!(matches!(
        translate(r#"(module (import "e" "t" (tag)))"#),
        Err(Error::Unsupported(_) | Error::InvalidWebAssembly { .. })
    ));
}

#[test]
fn declarations_are_checked_in_order() {
    let ty = |types: Vec<RawVal>, params| RawFuncType(types, params);
    let import = |name: &str, entity| RawImport("m".to_string(), name.to_string(), entity);
    let table = RawTable { minimum: 1, maximum: None };
    let funcref = RawVal::Ref(true, RawHeap::Abstract(false, 0));
    let parsed = ParsedModule {
        types: vec![ty(vec![RawVal::I32, RawVal::I64], 1)],
        imports: vec![
            import("g", RawEntity::Global(false, false)),
            import("t", RawEntity::Table(1, None)),
            import("f", RawEntity::Func(0)),
        ],
        import_types: vec![Some(RawVal::F32), Some(funcref), None],
        functions: vec![0],
        exports: vec![
            RawExport { name: "x".to_string(), external: RawExternal::Func(1) },
            RawExport { name: "x".to_string(), external: RawExternal::Table(0) },
        ],
        start: vec![1],
        names: vec![
            RawName::Module("a".to_string()),
            RawName::Module("b".to_string()),
            RawName::Other,
            RawName::Unreadable,
            RawName::Module("c".to_string()),
        ],
        ..empty()
    };
    let t = declare_all(&parsed).ok().unwrap();
    assert_eq!(t.types.types[0].params, vec![WasmValType::I32]);
    assert_eq!(t.types.types[0].results, vec![WasmValType::I64]);
    assert_eq!(t.module.globals[0].content_type, WasmValType::F32);
    assert_eq!(t.module.exports.len(), 1);
    assert_eq!(t.module.exports[0].1, EntityIndex::Table(TableIndex::from_u32(0)));
    assert_eq!(t.name.as_deref(), Some("c"));
    assert_eq!(t.module.num_escaped_functions, 0);
    // The function is no longer exported, so that it does not escape.
    let t = translate_sections(&parsed).ok().unwrap();
    assert_eq!(t.module.num_escaped_functions, 0);

    let refused = |parsed: ParsedModule| match declare_all(&parsed) {
        Err(Error::Unsupported(feature)) => feature == "a declaration of the module",
        _ => false,
    };
    assert!(refused(ParsedModule { functions: vec![0], ..empty() }));
    assert!(refused(ParsedModule { start: vec![0], ..empty() }));
    assert!(refused(ParsedModule { types: vec![ty(vec![], 1)], ..empty() }));
    assert!(refused(ParsedModule { tables: vec![(table, RawVal::I32)], ..empty() }));
    assert!(refused(ParsedModule { imports: vec![import("t", RawEntity::Tag)], ..empty() }));
    assert!(refused(ParsedModule { imports: vec![import("t", RawEntity::Table(1, None))], ..empty() }));
    let tag = RawExport { name: "x".to_string(), external: RawExternal::Tag(0) };
    assert!(refused(ParsedModule { exports: vec![tag], ..empty() }));
    let memory = RawMemory {
        minimum: 1,
        maximum: None,
        shared: false,
        memory64: false,
        page_size_log2: Some(17),
    };
    assert!(refused(ParsedModule { memories: vec![memory], ..empty() }));
    assert!(refused(ParsedModule { global_inits: vec![Expr(None)], ..empty() }));
    let data = |memory| ParsedData { memory, data: vec![1] };
    assert!(refused(ParsedModule { data: vec![data(Some((0, Expr(Some(vec![])))))], ..empty() }));
    assert!(!refused(ParsedModule { data: vec![data(None)], ..empty() }));
    let functions = |f| ParsedModule {
        elements: vec![ParsedSegment::Passive],
        element_items: vec![ParsedItems::Functions(f)],
        ..empty()
    };
    assert!(refused(functions(vec![0])));
    assert!(!refused(functions(vec![])));
    let expressions = |e| ParsedModule {
        elements: vec![ParsedSegment::Declared],
        element_items: vec![ParsedItems::Expressions(vec![Expr(e)])],
        ..empty()
    };
    assert!(refused(expressions(None)));
    assert!(!refused(expressions(Some(vec![ConstOp::RefNull]))));
    let active = |table, offset| ParsedModule {
        elements: vec![ParsedSegment::Active(table, Expr(offset))],
        element_items: vec![ParsedItems::Functions(vec![])],
        tables: vec![(table_of_one(), funcref)],
        table_inits: vec![ParsedInit(None)],
        ..empty()
    };
    assert!(!refused(active(None, Some(vec![ConstOp::I32Const(0)]))));
    assert!(refused(active(None, None)));
    assert!(refused(active(Some(1), Some(vec![ConstOp::I32Const(0)]))));
    let table_init = |init| ParsedModule {
        tables: vec![(table_of_one(), funcref)],
        table_inits: vec![ParsedInit(Some(Expr(init)))],
        ..empty()
    };
    assert!(refused(table_init(None)));
    assert!(!refused(table_init(Some(vec![ConstOp::RefNull]))));
}

fn table_of_one() -> RawTable {
    RawTable { minimum: 1, maximum: None }
}
