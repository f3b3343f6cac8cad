use k23_wasm::builder::FunctionBuilder;
use k23_wasm::builtins::BuiltinFunction;
use k23_wasm::cranelift::compiler::{array_call_signature, CraneliftCompiler};
use k23_wasm::cranelift::env::TargetIsa;
use k23_wasm::func_env::{FuncEnvironment, Heap, HeapStyle, MemoryPlan, MemoryStyle};
use k23_wasm::indices::{FuncIndex, MemoryIndex, TableIndex};
use k23_wasm::ir::{
    ConvertOp, GlobalValue, GlobalValueData, ImmOp, Inst, Op, SigRef, Signature, Step, TrapCode,
    Type, Value,
};
use k23_wasm::translate::TranslatedModule;
use k23_wasm::types::{
    MemoryDesc, WasmFuncType, WasmHeapType, WasmHeapTypeInner, WasmValType,
};
use k23_wasm::vmoffsets::StaticVMOffsets;

fn isa() -> TargetIsa {
    TargetIsa {
        pointer_type: Type::I64,
        page_size_align_log2: 12,
        enable_pcc: false,
        is_x86: false,
        has_native_fma: false,
        has_x86_pshufb: false,
        has_x86_pmulhrsw: false,
        has_x86_pmaddubsw: false,
        has_x86_blendv_i8x16: false,
        has_x86_blendv_i16x8: false,
        has_x86_blendv_i32x4: false,
        has_x86_blendv_i64x2: false,
    }
}

fn compiler(debug_assertions: bool) -> CraneliftCompiler {
    CraneliftCompiler {
        isa: isa(),
        offsets: StaticVMOffsets::new(8),
        vmctx_magic: 0x6572_6f63,
        next_older_fp_from_fp_offset: -16,
        debug_assertions,
    }
}

fn func_type() -> WasmFuncType {
    WasmFuncType {
        params: vec![WasmValType::I32, WasmValType::F64],
        results: vec![WasmValType::I64],
    }
}

fn plain(builder: &FunctionBuilder) -> Vec<Op> {
    builder
        .steps()
        .iter()
        .filter_map(|s| match s {
            Step::Op(op) => Some(*op),
            _ => None,
        })
        .collect()
}

#[test]
fn array_calls_have_four_parameters() {
    let sig = array_call_signature(Type::I64);
    assert_eq!(sig.params.len(), 4);
    assert!(sig.returns.is_empty());
}

#[test]
fn host_calls_load_arguments_and_store_results() {
    let builder = compiler(false).compile_array_to_wasm_trampoline(&func_type(), FuncIndex::from_u32(9));
    let ops = plain(&builder);
    let loads: Vec<(Type, i32)> = ops
        .iter()
        .filter_map(|op| match op {
            Op::Load { ty, offset, addr: Value(2), .. } => Some((*ty, *offset)),
            _ => None,
        })
        .collect();
    assert_eq!(loads, vec![(Type::I32, 0), (Type::F64, 16)]);
    // The frame pointer goes to the context, and the result to the array.
    assert!(ops.iter().any(|op| matches!(op, Op::Store { addr: Value(0), offset: 48, .. })));
    assert!(ops.iter().any(|op| matches!(op, Op::Store { val: Value(7), addr: Value(2), offset: 0, .. })));
    assert_eq!(*ops.last().unwrap(), Op::Trap { code: TrapCode::Exit });
    assert_eq!(builder.funcs()[0].index, 9);
    assert_eq!(builder.funcs()[0].namespace, 0);
    let call = builder.steps().iter().find_map(|s| match s {
        Step::Call { args, .. } => Some(args.clone()),
        _ => None,
    });
    assert_eq!(call, Some(vec![Value(0), Value(1), Value(4), Value(5)]));
}

#[test]
fn assertions_are_optional() {
    let with = compiler(true).compile_array_to_wasm_trampoline(&func_type(), FuncIndex::from_u32(0));
    let without = compiler(false).compile_array_to_wasm_trampoline(&func_type(), FuncIndex::from_u32(0));
    let traps = |b: &FunctionBuilder| {
        plain(b).iter().filter(|op| matches!(op, Op::Trapz { code: TrapCode::DebugAssertion, .. })).count()
    };
    assert_eq!(traps(&with), 3);
    assert_eq!(traps(&without), 0);
}

#[test]
fn builtin_calls_go_through_the_context() {
    let builder = compiler(false).compile_wasm_to_builtin(BuiltinFunction::MemoryFill);
    let ops = plain(&builder);
    assert!(ops.contains(&Op::FramePointer { ty: Type::I64 }));
    assert!(ops.contains(&Op::ReturnAddress { ty: Type::I64 }));
    assert!(ops.iter().any(|op| matches!(op, Op::Load { addr: Value(0), offset: 8, .. })));
    // The third builtin function lies 16 bytes into the array.
    assert!(ops.iter().any(|op| matches!(op, Op::Load { offset: 16, .. })));
    match &builder.steps()[builder.steps().len() - 2] {
        Step::CallIndirect { signature, args, .. } => {
            assert_eq!(*signature, SigRef(0));
            assert_eq!(args.len(), 5);
        }
        _ => panic!("the function is called through its address"),
    }
}

#[test]
fn arguments_are_spilled_to_the_stack() {
    let mut builder = FunctionBuilder::new(Signature { params: vec![], returns: vec![] });
    let a = builder.iconst(Type::I32, 1);
    let b = builder.iconst(Type::I64, 2);
    let (base, len) = compiler(false).allocate_stack_array_and_spill_args(&func_type(), &mut builder, &vec![a, b]);
    assert_eq!((base, len), (Value(2), 2));
    let ops = plain(&builder);
    assert_eq!(ops[2], Op::StackSlot { bytes: 32 });
    assert_eq!(ops[3], Op::StackAddress { ty: Type::I64, slot: Inst(2) });
    assert!(matches!(ops[6], Op::Store { val: Value(1), addr: Value(2), offset: 16, .. }));
}

#[test]
fn functions_check_their_stack_limit() {
    let (builder, limit) = compiler(false).prepare_function(&func_type());
    assert_eq!(limit, GlobalValue(1));
    match builder.global_values()[1].data {
        GlobalValueData::Load { base, offset, .. } => assert_eq!((base, offset), (GlobalValue(0), 24)),
        _ => panic!("the limit is loaded from the context"),
    }
    assert_eq!(builder.signature().params.len(), 4);
}

fn memory(memory64: bool) -> MemoryDesc {
    MemoryDesc {
        minimum: 2,
        maximum: Some(3),
        shared: false,
        memory64,
        page_size_log2: 16,
        offset_guard_size: 0,
    }
}

fn module() -> TranslatedModule {
    TranslatedModule {
        types: vec![],
        functions: vec![],
        tables: vec![],
        memories: vec![memory(false), MemoryDesc { shared: true, ..memory(false) }, memory(true)],
        globals: vec![],
        exports: vec![],
        num_imported_functions: 0,
        num_imported_tables: 0,
        num_imported_memories: 0,
        num_imported_globals: 0,
        num_escaped_functions: 0,
    }
}

fn plans() -> Vec<MemoryPlan> {
    module()
        .memories
        .iter()
        .map(|m| MemoryPlan { memory: *m, style: MemoryStyle::Static { max_pages: 0x1_0000 } })
        .collect()
}

fn empty() -> FunctionBuilder {
    FunctionBuilder::new(Signature { params: vec![], returns: vec![] })
}

#[test]
fn heaps_skip_shared_memories() {
    let (module, plans, names) = (module(), plans(), vec![]);
    let mut env = FuncEnvironment::new(isa(), &module, &plans, &names, false);
    let mut builder = empty();
    assert_eq!(env.make_heap(&mut builder, MemoryIndex::from_u32(2)), Heap(0));
    assert_eq!(env.make_heap(&mut builder, MemoryIndex::from_u32(0)), Heap(1));
    let heap = env.heaps()[0];
    assert_eq!((heap.min_size, heap.max_size), (131072, Some(196608)));
    assert_eq!(heap.style, HeapStyle::Static { bound: 1 << 32 });
    assert_eq!(heap.index_type, Type::I64);
    // The second memory is shared, so that the third one comes second in the context.
    match builder.global_values()[1].data {
        GlobalValueData::Load { offset, .. } => assert_eq!(offset, 56 + 16),
        _ => panic!("the base is loaded from the context"),
    }
}

#[test]
fn builtins_are_declared_once() {
    let (module, plans, names) = (module(), plans(), vec![]);
    let mut env = FuncEnvironment::new(isa(), &module, &plans, &names, false);
    let mut builder = empty();
    let v = builder.iconst(Type::I32, 5);
    let r = env.translate_memory_grow(&mut builder, MemoryIndex::from_u32(0), v);
    assert_eq!(builder.value_type(r), Type::I32);
    env.translate_memory_grow(&mut builder, MemoryIndex::from_u32(0), v);
    env.translate_data_drop(&mut builder, 3);
    assert_eq!(builder.funcs().len(), 2);
    assert_eq!(builder.funcs()[0].namespace, 1);
    assert_eq!(builder.funcs()[0].index, BuiltinFunction::Memory32Grow.index());
    let args = builder.steps().iter().find_map(|s| match s {
        Step::Call { args, .. } => Some(args.clone()),
        _ => None,
    });
    assert_eq!(args, Some(vec![Value(1), Value(3), Value(2)]));
}

#[test]
fn wide_memories_need_no_widening() {
    let (module, plans, names) = (module(), plans(), vec![]);
    let mut env = FuncEnvironment::new(isa(), &module, &plans, &names, false);
    let mut builder = empty();
    let v = builder.iconst(Type::I64, 5);
    let (narrow, wide) = (MemoryIndex::from_u32(0), MemoryIndex::from_u32(2));
    env.translate_memory_copy(&mut builder, wide, wide, v, v, v);
    let extensions = |b: &FunctionBuilder| {
        plain(b).iter().filter(|op| matches!(op, Op::Convert { op: ConvertOp::Uextend, .. })).count()
    };
    assert_eq!(extensions(&builder), 0);
    env.translate_memory_copy(&mut builder, narrow, wide, v, v, v);
    assert_eq!(extensions(&builder), 2);
    env.translate_table_copy(&mut builder, TableIndex::from_u32(0), TableIndex::from_u32(1), v, v, v);
    assert_eq!(extensions(&builder), 2);
}

#[test]
fn small_integers_are_tagged() {
    let (module, plans, names) = (module(), plans(), vec![]);
    let mut env = FuncEnvironment::new(isa(), &module, &plans, &names, true);
    let mut builder = empty();
    let v = builder.iconst(Type::I32, 5);
    let r = env.translate_ref_i31(&mut builder, v);
    assert_eq!(builder.value_type(r), Type::R64);
    let got = env.translate_i31_get_s(&mut builder, r);
    assert_eq!(builder.value_type(got), Type::I32);
    let ops = plain(&builder);
    assert_eq!(ops[1], Op::BinaryImm { op: ImmOp::IshlImm, arg: Value(0), imm: 1 });
    assert_eq!(ops[2], Op::BinaryImm { op: ImmOp::BorImm, arg: Value(1), imm: 1 });
    assert!(ops.iter().any(|op| matches!(op, Op::Trapnz { code: TrapCode::NullI31Ref, .. })));
    assert!(ops.iter().any(|op| matches!(op, Op::Trapz { code: TrapCode::DebugAssertion, .. })));
    assert!(matches!(ops.last().unwrap(), Op::BinaryImm { op: ImmOp::SshrImm, imm: 1, .. }));
}

#[test]
fn null_references_are_zero_or_null() {
    let (module, plans, names) = (module(), plans(), vec![]);
    let mut env = FuncEnvironment::new(isa(), &module, &plans, &names, false);
    let mut builder = empty();
    let heap = |ty| WasmHeapType { shared: false, ty };
    let f = env.translate_ref_null(&mut builder, heap(WasmHeapTypeInner::NoFunc));
    let e = env.translate_ref_null(&mut builder, heap(WasmHeapTypeInner::Extern));
    assert_eq!(builder.value_type(f), Type::I64);
    assert_eq!(builder.value_type(e), Type::R64);
    let r = env.translate_ref_is_null(&mut builder, f);
    assert_eq!(builder.value_type(r), Type::I32);
}

#[test]
fn allocations_are_reported() {
    let module = module();
    let plans = plans();
    let names = vec![
        (FuncIndex::from_u32(1), "malloc".to_string()),
        (FuncIndex::from_u32(2), "free".to_string()),
        (FuncIndex::from_u32(3), "main".to_string()),
    ];
    let mut env = FuncEnvironment::new(isa(), &module, &plans, &names, false);
    let calls = |b: &FunctionBuilder| {
        b.steps().iter().filter(|s| matches!(s, Step::Call { .. })).count()
    };
    let mut builder = empty();
    env.before_translate_function(&mut builder, FuncIndex::from_u32(3));
    env.before_translate_function(&mut builder, FuncIndex::from_u32(4));
    assert_eq!(calls(&builder), 0);
    env.before_translate_function(&mut builder, FuncIndex::from_u32(1));
    assert_eq!(builder.funcs()[0].index, BuiltinFunction::MallocStart.index());
    let v = builder.iconst(Type::I32, 5);
    let params = vec![v, v, v];
    env.handle_before_return(&mut builder, FuncIndex::from_u32(1), &params, &vec![v]);
    assert_eq!(calls(&builder), 2);
    env.handle_before_return(&mut builder, FuncIndex::from_u32(1), &params, &vec![]);
    env.handle_before_return(&mut builder, FuncIndex::from_u32(2), &vec![v, v], &vec![]);
    assert_eq!(calls(&builder), 2);
    env.before_load(&mut builder, 4, v, 8);
    env.update_global(&mut builder, 0, v);
    env.update_global(&mut builder, 1, v);
    env.before_memory_grow(&mut builder, v, MemoryIndex::from_u32(1));
    assert_eq!(calls(&builder), 4);
}
