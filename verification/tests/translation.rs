use k23_wasm::builder::FunctionBuilder;
use k23_wasm::cranelift::code_translator::translate_operator;
use k23_wasm::cranelift::compiler::CraneliftCompiler;
use k23_wasm::cranelift::env::{wasm_call_signature, TargetIsa, TranslationEnvironment};
use k23_wasm::cranelift::memory::MemArg;
use k23_wasm::cranelift::operator::{
    type_of, AccessOp, NumericOp, Operator, ProposedOp, VectorOp,
};
use k23_wasm::cranelift::state::{BlockType, FuncTranslationState};
use k23_wasm::errors::Error;
use k23_wasm::indices::{FuncRefIndex, MemoryIndex, ModuleInternedTypeIndex};
use k23_wasm::ir::{
    BinaryOp, Block, ConvertOp, FloatCC, FuncRef, GlobalValue, IntCC, MemoryTypeData, Op, Step, TernaryOp,
    TrapCode, Type, Value,
};
use k23_wasm::translate::{FunctionDesc, ModuleTypes, TranslatedModule};
use k23_wasm::vmoffsets::StaticVMOffsets;
use k23_wasm::types::{
    GlobalDesc, MemoryDesc, TableDesc, WasmFuncType, WasmHeapType, WasmHeapTypeInner, WasmRefType,
    WasmValType,
};

fn isa() -> TargetIsa {
    TargetIsa {
        pointer_type: Type::I64,
        page_size_align_log2: 12,
        enable_pcc: false,
        is_x86: false,
        has_native_fma: false,
        has_x86_pshufb: false,
        has_x86_pmulhrsw: false,
        has_x86_pmaddubsw: false,
        has_x86_blendv_i8x16: false,
        has_x86_blendv_i16x8: false,
        has_x86_blendv_i32x4: false,
        has_x86_blendv_i64x2: false,
    }
}

fn module() -> TranslatedModule {
    let element_type = WasmRefType {
        nullable: true,
        heap_type: WasmHeapType { shared: false, ty: WasmHeapTypeInner::Func },
    };
    TranslatedModule {
        types: vec![ModuleInternedTypeIndex::from_u32(0)],
        functions: vec![FunctionDesc { signature: 0, func_ref: FuncRefIndex::reserved_value() }],
        tables: vec![TableDesc { element_type, minimum: 10, maximum: None }],
        memories: vec![MemoryDesc {
            minimum: 1,
            maximum: None,
            shared: false,
            memory64: false,
            page_size_log2: 16,
            offset_guard_size: 0x8000_0000,
        }],
        globals: vec![GlobalDesc { content_type: WasmValType::I64, mutable: true, shared: false }],
        exports: vec![],
        num_imported_functions: 0,
        num_imported_tables: 0,
        num_imported_memories: 0,
        num_imported_globals: 0,
        num_escaped_functions: 0,
    }
}

fn types() -> ModuleTypes {
    ModuleTypes {
        types: vec![WasmFuncType {
            params: vec![WasmValType::I32, WasmValType::I32],
            results: vec![WasmValType::I32],
        }],
    }
}

/// Translates operators of a function of the type above, whose parameters are its first variables.
fn translate(ops: &[Operator]) -> (Vec<Step>, Vec<Value>, Vec<Result<(), Error>>) {
    let (steps, stack, _, results) = translate_in(&module(), ops);
    (steps, stack, results)
}

/// Translates operators in a function of a module; gives the types of the values on the stack too.
fn translate_in(
    module: &TranslatedModule,
    ops: &[Operator],
) -> (Vec<Step>, Vec<Value>, Vec<Type>, Vec<Result<(), Error>>) {
    let types = types();
    let mut env = TranslationEnvironment::new(isa(), module, &types);
    let sig = wasm_call_signature(&types.types[0], Type::I64);
    let mut builder = FunctionBuilder::new(wasm_call_signature(&types.types[0], Type::I64));
    let entry = builder.block_with_params(&vec![Type::I64, Type::I64, Type::I32, Type::I32]);
    builder.switch_to_block(entry);
    builder.seal_block(entry);
    let params = vec![Value(0), Value(1), Value(2), Value(3)];
    builder.set_special_param(params[0]);
    for i in 0..2 {
        builder.declare_var(Type::I32);
        builder.def_var(i, params[2 + i as usize]);
    }
    let exit = builder.block_with_params(&vec![Type::I32]);
    let mut state = FuncTranslationState::new();
    state.initialize(&sig, exit);
    let start = builder.steps().len();
    let mut results = Vec::new();
    for op in ops {
        results.push(translate_operator(op, &mut builder, &mut state, &mut env));
    }
    let mut steps = Vec::new();
    for step in builder.steps().iter().skip(start) {
        steps.push(match step {
            Step::Op(op) => Step::Op(*op),
            Step::Jump { destination, args } => Step::Jump { destination: *destination, args: args.clone() },
            Step::Brif { condition, then_block, then_args, else_block, else_args } => Step::Brif {
                condition: *condition,
                then_block: *then_block,
                then_args: then_args.clone(),
                else_block: *else_block,
                else_args: else_args.clone(),
            },
            Step::Return { args } => Step::Return { args: args.clone() },
            Step::Call { callee, args } => Step::Call { callee: *callee, args: args.clone() },
            _ => panic!("a step that the tests do not use"),
        });
    }
    let stack_types = state.stack.iter().map(|v| builder.value_type(*v)).collect();
    (steps, state.stack.clone(), stack_types, results)
}

fn ops(steps: &[Step]) -> Vec<Op> {
    steps
        .iter()
        .map(|s| match s {
            Step::Op(op) => *op,
            _ => panic!("not a plain operation"),
        })
        .collect()
}

fn get(local_index: u32) -> Operator {
    Operator::LocalGet { local_index }
}

#[test]
fn addition_is_one_instruction() {
    let (steps, stack, _) = translate(&[get(0), get(1), Operator::Numeric(NumericOp::I32Add)]);
    // Values 0 to 3 are the parameters, and 4 belongs to the exit block.
    let steps: Vec<Op> = ops(&steps).into_iter().filter(|o| !matches!(o, Op::LabelAlias { .. } | Op::SetValLabel { .. })).collect();
    assert_eq!(
        steps,
        vec![
            Op::UseVar { var: 0 },
            Op::UseVar { var: 1 },
            Op::Binary { op: BinaryOp::Iadd, a: Value(5), b: Value(6) },
        ]
    );
    assert_eq!(stack, vec![Value(7)]);
}

#[test]
fn comparisons_are_widened() {
    let (steps, stack, _) = translate(&[
        Operator::I32Const { value: -1 },
        Operator::I32Const { value: 2 },
        Operator::Numeric(NumericOp::I32LtU),
        Operator::Numeric(NumericOp::I32Eqz),
    ]);
    let steps = ops(&steps);
    assert_eq!(steps[0], Op::Iconst { ty: Type::I32, imm: -1 });
    assert_eq!(steps[2], Op::IntCompare { cc: IntCC::UnsignedLessThan, a: Value(5), b: Value(6) });
    assert_eq!(steps[3], Op::Convert { op: ConvertOp::Uextend, ty: Type::I32, arg: Value(7) });
    assert_eq!(steps[4], Op::IntCompareImm { cc: IntCC::Equal, arg: Value(8), imm: 0 });
    assert_eq!(stack, vec![Value(10)]);
}

#[test]
fn floats_are_constants_of_bits() {
    let (steps, _, _) = translate(&[
        Operator::F32Const { bits: 0x3f80_0000 },
        Operator::F32Const { bits: 1 },
        Operator::Numeric(NumericOp::F32Lt),
    ]);
    let steps = ops(&steps);
    assert_eq!(steps[0], Op::F32const { bits: 0x3f80_0000 });
    assert_eq!(steps[2], Op::FloatCompare { cc: FloatCC::LessThan, a: Value(5), b: Value(6) });
}

#[test]
fn select_picks_one_of_two() {
    let (steps, stack, _) = translate(&[get(0), get(1), get(0), Operator::Select]);
    let last = ops(&steps).pop().unwrap();
    assert!(matches!(last, Op::Ternary { op: TernaryOp::Select, .. }));
    assert_eq!(stack.len(), 1);
}

#[test]
fn unreachable_code_is_skipped() {
    let (steps, stack, results) = translate(&[
        Operator::Unreachable,
        Operator::Numeric(NumericOp::I32Add),
        Operator::Block { blockty: BlockType::Empty },
        Operator::Proposed(ProposedOp::StructNew),
        Operator::End,
    ]);
    assert_eq!(ops(&steps), vec![Op::Trap { code: TrapCode::Unreachable }]);
    assert!(stack.is_empty());
    assert!(results.iter().all(|r| r.is_ok()));
}

#[test]
fn proposed_operators_are_refused() {
    let (_, _, results) = translate(&[Operator::Proposed(ProposedOp::StructNew)]);
    match &results[0] {
        Err(e) => assert!(matches!(e, Error::Unsupported(_))),
        Ok(()) => panic!("the operator is not supported"),
    }
    let (_, _, results) = translate(&[Operator::MemoryDiscard { mem: 12 }]);
    match &results[0] {
        Err(Error::Unsupported(feature)) => {
            assert_eq!(feature, "proposed memory-control operator MemoryDiscard { mem: 12 }")
        }
        _ => panic!("the operator is not supported"),
    }
}

#[test]
fn blocks_leave_their_results() {
    let (steps, stack, _) = translate(&[
        Operator::Block { blockty: BlockType::Type(WasmValType::I32) },
        get(0),
        Operator::Br { relative_depth: 0 },
        Operator::End,
        Operator::End,
    ]);
    assert!(steps.iter().any(|s| matches!(s, Step::Jump { destination: Block(2), .. })));
    assert!(steps.iter().any(|s| matches!(s, Step::Op(Op::SwitchToBlock { block: Block(2) }))));
    assert_eq!(stack.len(), 1);
}

#[test]
fn an_if_without_else_goes_on_behind() {
    let (steps, _, _) = translate(&[
        get(0),
        Operator::If { blockty: BlockType::Empty },
        Operator::Nop,
        Operator::End,
    ]);
    let branches = steps.iter().filter(|s| matches!(s, Step::Brif { .. })).count();
    assert_eq!(branches, 1);
    assert!(!steps.iter().any(|s| matches!(s, Step::Op(Op::ChangeJumpDestination { .. }))));
    let (steps, _, _) = translate(&[
        get(0),
        Operator::If { blockty: BlockType::Empty },
        Operator::Else,
        Operator::Nop,
        Operator::End,
    ]);
    assert!(steps.iter().any(|s| matches!(s, Step::Op(Op::ChangeJumpDestination { .. }))));
}

#[test]
fn calls_pass_the_context() {
    let (steps, stack, _) = translate(&[get(0), get(1), Operator::Call { function_index: 0 }]);
    match steps.last().unwrap() {
        Step::Call { callee, args } => {
            assert_eq!(*callee, FuncRef(0));
            assert_eq!(args.len(), 4);
            assert_eq!(args[0], args[1]);
        }
        _ => panic!("the last step is the call"),
    }
    assert_eq!(stack.len(), 1);
}

#[test]
fn loads_are_checked_against_the_bound() {
    let (steps, stack, _) = translate(&[
        get(0),
        Operator::Access { op: AccessOp::I32Load, memarg: MemArg { memory: 0, offset: 8 } },
    ]);
    // The guard makes an explicit check needless.
    assert!(!steps.iter().any(|s| matches!(s, Step::Op(Op::IntCompare { .. } | Op::IntCompareImm { .. }))));
    assert!(steps.iter().any(|s| matches!(s, Step::Op(Op::Load { ty: Type::I32, .. }))));
    assert_eq!(stack.len(), 1);
}

#[test]
fn an_access_beyond_every_memory_traps() {
    let (steps, stack, _) = translate(&[
        get(0),
        Operator::Access { op: AccessOp::I64Load, memarg: MemArg { memory: 0, offset: 0xffff_ffff } },
    ]);
    assert!(steps.iter().any(|s| matches!(s, Step::Op(Op::Trap { code: TrapCode::HeapOutOfBounds }))));
    assert!(stack.is_empty());
}

#[test]
fn returns_leave_code_unreachable() {
    let (steps, stack, _) = translate(&[get(0), Operator::Return, Operator::Drop]);
    assert!(matches!(steps.last().unwrap(), Step::Return { args } if args.len() == 1));
    assert!(stack.is_empty());
}

#[test]
fn vector_operators_name_their_type() {
    assert_eq!(type_of(&Operator::Vector(VectorOp::I16x8Add)), Type::I16X8);
    assert_eq!(type_of(&Operator::V128Const { bytes: 0 }), Type::I8X16);
}

#[test]
fn results_have_the_types_of_their_operators() {
    let numeric = |ops: &[NumericOp]| {
        let mut all = vec![get(0)];
        all.extend(ops.iter().map(|op| Operator::Numeric(*op)));
        translate_in(&module(), &all).2
    };
    assert_eq!(numeric(&[NumericOp::I64ExtendI32S]), vec![Type::I64]);
    assert_eq!(numeric(&[NumericOp::I64ExtendI32U, NumericOp::I64Eqz]), vec![Type::I32]);
    assert_eq!(numeric(&[NumericOp::F32ConvertI32U, NumericOp::F64PromoteF32]), vec![Type::F64]);
    assert_eq!(numeric(&[NumericOp::F32ReinterpretI32, NumericOp::F32Sqrt]), vec![Type::F32]);
    assert_eq!(numeric(&[NumericOp::I32Extend8S]), vec![Type::I32]);
}

fn explicitly_checked(steps: &[Step], limit: i64) -> bool {
    steps.iter().any(|s| matches!(s, Step::Op(Op::Iconst { imm, .. }) if *imm == limit))
        && steps
            .iter()
            .any(|s| matches!(s, Step::Op(Op::IntCompare { cc: IntCC::UnsignedGreaterThan, .. })))
        && steps
            .iter()
            .any(|s| matches!(s, Step::Op(Op::Ternary { op: TernaryOp::SelectSpectreGuard, .. })))
}

#[test]
fn loads_that_could_leave_the_guard_are_checked_explicitly() {
    let load = |offset: u64| Operator::Access {
        op: AccessOp::I64Load,
        memarg: MemArg { memory: 0, offset },
    };
    let (steps, stack, _) = translate(&[get(0), load(0xffff_0000)]);
    assert!(explicitly_checked(&steps, 0xfff8));
    assert_eq!(stack.len(), 1);

    // The guard covers offsets and sizes up to its own size and one byte more.
    let compares = |module: &TranslatedModule, offset: u64| {
        let (steps, _, _, _) = translate_in(module, &[get(0), load(offset)]);
        steps.iter().any(|s| matches!(s, Step::Op(Op::IntCompare { .. })))
    };
    assert!(!compares(&module(), 0x8000_0001 - 8));
    assert!(compares(&module(), 0x8000_0002 - 8));

    let mut unguarded = module();
    unguarded.memories[0].offset_guard_size = 0;
    let (steps, _, _, _) = translate_in(&unguarded, &[get(0), load(0)]);
    assert!(explicitly_checked(&steps, 0xffff_fff8));
}

#[test]
fn regions_list_their_fields_in_order() {
    let mut module = module();
    let memory = module.memories[0];
    module.memories = vec![memory, memory, memory];
    module.num_imported_memories = 3;
    let types = types();
    let mut env = TranslationEnvironment::new(TargetIsa { enable_pcc: true, ..isa() }, &module, &types);
    let mut builder = FunctionBuilder::new(wasm_call_signature(&types.types[0], Type::I64));
    for i in [2, 0, 1] {
        env.make_memory(&mut builder, MemoryIndex::from_u32(i));
    }
    match &builder.memory_types()[0] {
        MemoryTypeData::Struct { fields, .. } => {
            let offsets: Vec<u64> = fields.iter().map(|f| f.offset).collect();
            assert_eq!(offsets, vec![56, 72, 88]);
        }
        _ => panic!("the context has fields"),
    }
}

#[test]
fn functions_declare_their_locals_and_return_their_results() {
    let module = module();
    let types = types();
    let compiler = CraneliftCompiler {
        isa: isa(),
        offsets: StaticVMOffsets::new(8),
        vmctx_magic: 0,
        next_older_fp_from_fp_offset: 0,
        debug_assertions: false,
    };
    let body = |ops: Vec<Operator>| {
        let mut env = TranslationEnvironment::new(isa(), &module, &types);
        let locals = vec![(2, WasmValType::F64), (1, WasmValType::I64)];
        compiler.translate_function(&types.types[0], &locals, &ops, &mut env)
    };
    let sum = vec![get(0), get(1), Operator::Numeric(NumericOp::I32Add), Operator::End];
    let (code, limit) = body(sum).ok().unwrap();
    assert_eq!(limit, GlobalValue(1));
    let defined: Vec<(u32, Value)> = code
        .steps()
        .iter()
        .filter_map(|s| match s {
            Step::Op(Op::DefVar { var, val }) => Some((*var, *val)),
            _ => None,
        })
        .collect();
    // Values 0 to 3 are the parameters, 4 and 5 the first values of the locals.
    let vals: Vec<(u32, Value)> =
        vec![(0, Value(2)), (1, Value(3)), (2, Value(4)), (3, Value(4)), (4, Value(5))];
    assert_eq!(defined, vals);
    assert_eq!(code.value_type(Value(4)), Type::F64);
    assert_eq!(code.value_type(Value(5)), Type::I64);
    match code.steps().last().unwrap() {
        Step::Return { args } => assert_eq!(args.len(), 1),
        _ => panic!("a function ends with its results"),
    }

    let stops = vec![Operator::Unreachable, Operator::End];
    let (code, _) = body(stops).ok().unwrap();
    assert!(!code.steps().iter().any(|s| matches!(s, Step::Return { .. })));

    assert!(matches!(body(vec![Operator::MemoryDiscard { mem: 0 }]), Err(Error::Unsupported(_))));
}
