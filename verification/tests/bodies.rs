use k23_wasm::compile::{CompileInputs, CompileKey};
use k23_wasm::cranelift::compiler::CraneliftCompiler;
use k23_wasm::cranelift::decode::{decode_body, decode_const_expr, decode_operator};
use k23_wasm::cranelift::env::{TargetIsa, TranslationEnvironment};
use k23_wasm::cranelift::operator::Operator;
use k23_wasm::cranelift::state::BlockType;
use k23_wasm::errors::Error;
use k23_wasm::indices::{DefinedFuncIndex, FuncIndex, GlobalIndex};
use k23_wasm::ir::{BinaryOp, GlobalValue, Op, Step, Type};
use k23_wasm::module_env::ModuleTranslation;
use k23_wasm::module_translator::translate_module;
use k23_wasm::runtime::const_eval::ConstOp;
use k23_wasm::types::{WasmHeapTypeInner, WasmValType};
use k23_wasm::vmoffsets::StaticVMOffsets;
use wasmparser::{BinaryReader, WasmFeatures};
use wast::parser::ParseBuffer;

fn isa() -> TargetIsa {
    TargetIsa {
        pointer_type: Type::I64,
        page_size_align_log2: 12,
        enable_pcc: false,
        is_x86: false,
        has_native_fma: false,
        has_x86_pshufb: false,
        has_x86_pmulhrsw: false,
        has_x86_pmaddubsw: false,
        has_x86_blendv_i8x16: false,
        has_x86_blendv_i16x8: false,
        has_x86_blendv_i32x4: false,
        has_x86_blendv_i64x2: false,
    }
}

fn compiler() -> CraneliftCompiler {
    CraneliftCompiler {
        isa: isa(),
        offsets: StaticVMOffsets::new(8),
        vmctx_magic: 0,
        next_older_fp_from_fp_offset: 0,
        debug_assertions: false,
    }
}

fn translate(text: &str) -> ModuleTranslation {
    let buffer = ParseBuffer::new(text).unwrap();
    let bytes = wast::parser::parse::<wast::Wat>(&buffer).unwrap().encode().unwrap();
    translate_module(&bytes, WasmFeatures::all().bits()).ok().unwrap()
}

/// The operators of the first function of a module.
fn operators(text: &str) -> Vec<Operator> {
    decode_body(&translate(text).function_body_inputs[0].body).unwrap()
}

/// The first word of what a value is printed as.
fn first_word(s: &str) -> &str {
    s.split(|c: char| !c.is_alphanumeric()).next().unwrap()
}

/// The name of an operator, without the group that it belongs to.
fn name(op: &Operator) -> String {
    let printed = match op {
        Operator::Numeric(op) => format!("{op:?}"),
        Operator::Vector(op) => format!("{op:?}"),
        Operator::Access { op, .. } => format!("{op:?}"),
        Operator::LaneAccess { op, .. } => format!("{op:?}"),
        Operator::Lane { op, .. } => format!("{op:?}"),
        Operator::Untranslated(op) => format!("{op:?}"),
        Operator::Proposed(op) => format!("{op:?}"),
        other => format!("{other:?}"),
    };
    first_word(&printed).to_string()
}

#[test]
fn opcodes_are_those_of_the_parser() {
    let mut known: usize = 0;
    let mut missing: Vec<String> = Vec::new();
    let mut codes: Vec<Vec<u8>> = (0..=0xfau8).map(|b| vec![b]).collect();
    codes.push(vec![0xff]);
    for prefix in [0xfbu8, 0xfc, 0xfd, 0xfe] {
        for code in 0..0x200u32 {
            codes.push(if code < 0x80 {
                vec![prefix, code as u8]
            } else {
                vec![prefix, (code & 0x7f) as u8 | 0x80, (code >> 7) as u8]
            });
        }
    }
    for code in codes {
        let start = code.len();
        let mut bytes = code.clone();
        // Operands: a type of a reference where one is asked for, else numbers.
        bytes.extend(match code.as_slice() {
            [0x02 | 0x03 | 0x04] => vec![0x40],
            [0x1c] => vec![1, 0x7f],
            [0xd0] => vec![0x70],
            [0xfb, 0x14..=0x17] => vec![0x70],
            [0xfb, 0x18 | 0x19] => vec![0, 0, 0x70, 0x70],
            _ => vec![0; 24],
        });
        bytes.extend([0; 24]);
        let parsed = BinaryReader::new(&bytes, 0).read_operator();
        let decoded = decode_operator(&bytes, 0);
        match (parsed, decoded) {
            (Ok(op), Some(ours)) => {
                assert_eq!(name(&ours), first_word(&format!("{op:?}")), "{:x?}", &bytes[..start]);
                known += 1;
            }
            (Err(_), None) => {}
            (Err(e), Some(ours)) => panic!("{:x?}: {ours:?}, but {e}", &bytes[..start]),
            (Ok(op), None) => missing.push(first_word(&format!("{op:?}")).to_string()),
        }
    }
    assert!(known > 500, "{known}");
    assert_eq!(missing, Vec::<String>::new());
}

#[test]
fn places_outside_of_a_body_hold_no_operator() {
    assert!(decode_operator(&[], 0).is_none());
    assert!(decode_operator(&[0x01], 1).is_none());
    assert!(matches!(decode_operator(&[0x00, 0x01], 1), Some(Operator::Nop)));
    assert!(decode_operator(&[0xfc], 0).is_none());
    // Numbers of operators are written in up to five bytes.
    assert!(matches!(decode_operator(&[0xfe, 0x83, 0x00, 0x00], 0), Some(Operator::AtomicFence)));
    assert!(decode_operator(&[0xfe, 0x83, 0x80, 0x80, 0x80, 0x10, 0x00], 0).is_none());
    assert!(decode_body(&[]).is_none());
    assert!(decode_body(&[0x00, 0xff]).is_none());
    assert_eq!(decode_body(&[0x00, 0x01, 0x0b]).unwrap().len(), 2);
}

#[test]
fn operands_are_decoded() {
    let ops = operators(
        r#"(module
            (type (func (param i32) (result i32)))
            (table 1 funcref)
            (table 1 funcref)
            (memory 1)
            (memory 1)
            (global (mut i32) (i32.const 0))
            (func (param i32) (local i64) (local v128)
                block
                    block
                        i32.const -5
                        br_table 0 1 0 1
                    end
                end
                block (result i32)
                    i32.const 6
                end
                drop
                i32.const 1
                i32.const 2
                call_indirect 1 (type 0)
                drop
                i64.const 0x7fffffffffffffff
                local.set 1
                i32.const 0
                i64.load32_u 1 offset=77
                drop
                i32.const 0
                local.get 2
                v128.store8_lane offset=3 9
                local.get 2
                local.get 2
                i8x16.shuffle 0 1 2 3 4 5 6 7 8 9 10 11 12 13 14 31
                i32x4.extract_lane 2
                global.set 0
                ref.null extern
                drop
                v128.const i32x4 1 2 3 4
                local.set 2
                f32.const 1
                drop
                f64.const -2
                drop
                i32.const 0
                loop (type 0)
                end
                drop))"#,
    );
    let is = |f: &dyn Fn(&Operator) -> bool| ops.iter().any(f);
    assert!(matches!(ops[0], Operator::Block { blockty: BlockType::Empty }));
    assert!(matches!(ops[2], Operator::I32Const { value: -5 }));
    assert!(matches!(ops[6], Operator::Block { blockty: BlockType::Type(WasmValType::I32) }));
    assert!(is(&|op| matches!(op, Operator::BrTable { targets, default: 1 } if *targets == [0, 1, 0])));
    assert!(is(&|op| matches!(op, Operator::CallIndirect { type_index: 0, table_index: 1 })));
    assert!(is(&|op| matches!(op, Operator::I64Const { value: i64::MAX })));
    assert!(is(&|op| matches!(op, Operator::LocalSet { local_index: 1 })));
    assert!(is(&|op| name(op) == "I64Load32U"
        && matches!(op, Operator::Access { memarg, .. } if memarg.memory == 1 && memarg.offset == 77)));
    assert!(is(&|op| name(op) == "V128Store8Lane"
        && matches!(op, Operator::LaneAccess { memarg, lane: 9, .. }
            if memarg.memory == 0 && memarg.offset == 3)));
    let lanes = u128::from_le_bytes([0, 1, 2, 3, 4, 5, 6, 7, 8, 9, 10, 11, 12, 13, 14, 31]);
    assert!(is(&|op| matches!(op, Operator::I8x16Shuffle { lanes: l } if *l == lanes)));
    assert!(is(&|op| name(op) == "I32x4ExtractLane" && matches!(op, Operator::Lane { lane: 2, .. })));
    assert!(is(&|op| matches!(op, Operator::GlobalSet { global_index: 0 })));
    assert!(is(&|op| matches!(op, Operator::RefNull { hty }
        if hty.ty == WasmHeapTypeInner::Extern && !hty.shared)));
    let bytes = 0x00000004_00000003_00000002_00000001u128;
    assert!(is(&|op| matches!(op, Operator::V128Const { bytes: b } if *b == bytes)));
    assert!(is(&|op| matches!(op, Operator::F32Const { bits: 0x3f80_0000 })));
    assert!(is(&|op| matches!(op, Operator::F64Const { bits: 0xc000_0000_0000_0000 })));
    assert!(is(&|op| matches!(op, Operator::Loop { blockty: BlockType::FuncType(0) })));
    assert!(matches!(ops.last(), Some(Operator::End)));
}

#[test]
fn constant_expressions_are_decoded() {
    // i64.const 3, i64.const -1, i64.mul, end.
    let ops = decode_const_expr(&[0x42, 0x03, 0x42, 0x7f, 0x7e, 0x0b]);
    assert_eq!(ops, Some(vec![ConstOp::I64Const(3), ConstOp::I64Const(-1), ConstOp::I64Mul]));
    assert_eq!(
        decode_const_expr(&[0x23, 0x85, 0x01, 0x0b]),
        Some(vec![ConstOp::GlobalGet(GlobalIndex::from_u32(133))])
    );
    assert_eq!(
        decode_const_expr(&[0xd2, 0x07, 0x0b]),
        Some(vec![ConstOp::RefFunc(FuncIndex::from_u32(7))])
    );
    assert_eq!(decode_const_expr(&[0xd0, 0x70, 0x0b]), Some(vec![ConstOp::RefNull]));
    // A division is not constant, and an expression has an end.
    assert_eq!(decode_const_expr(&[0x41, 0x01, 0x41, 0x01, 0x6d, 0x0b]), None);
    assert_eq!(decode_const_expr(&[]), None);
    assert_eq!(decode_const_expr(&[0x41, 0x01]), None);
}

#[test]
fn bodies_are_translated_from_bytes() {
    let t = translate(
        r#"(module
            (import "e" "f" (func))
            (func (param i32) (result i32) (local i32 i32) (local i64)
                local.get 0
                i32.const 7
                i32.add))"#,
    );
    let compiler = compiler();
    let mut env = TranslationEnvironment::new(isa(), &t.module, &t.types);
    let index = DefinedFuncIndex::from_u32(0);
    let body = &t.function_body_inputs[0];
    let (code, limit) = compiler.translate_body(body, index, &mut env).ok().unwrap();
    assert_eq!(limit, GlobalValue(1));
    assert_eq!(code.signature().params.len(), 3);
    let adds = code
        .steps()
        .iter()
        .filter(|s| matches!(s, Step::Op(Op::Binary { op: BinaryOp::Iadd, .. })))
        .count();
    assert_eq!(adds, 1);
    assert!(code.steps().iter().any(|s| matches!(s, Step::Op(Op::Iconst { imm: 7, .. }))));
    // The parameters and the three locals are variables.
    let (job, job_limit) = compiler.record_job(&t, CompileKey::WasmFunction(index)).ok().unwrap();
    assert_eq!(job_limit, Some(limit));
    assert_eq!(job.steps().len(), code.steps().len());
}

#[test]
fn jobs_of_a_module_are_recorded() {
    let t = translate(
        r#"(module
            (func (export "a") (param i64) (result i64) local.get 0)
            (func nop))"#,
    );
    let compiler = compiler();
    let mut compilation = CompileInputs::from_module(&t.module, 2).compile();
    let mut functions: usize = 0;
    let mut trampolines: usize = 0;
    while let Some(input) = compilation.next_job() {
        let (code, limit) = compiler.record_job(&t, input.key).ok().unwrap();
        match input.key {
            CompileKey::WasmFunction(_) => {
                functions += 1;
                assert_eq!(limit, Some(GlobalValue(1)));
            }
            _ => {
                trampolines += 1;
                assert_eq!(limit, None);
            }
        }
        assert!(code.steps().len() > 0);
        let refused = compilation.complete(Err(Error::unsupported("nothing is compiled")));
        if refused.is_err() {
            break;
        }
    }
    assert_eq!((functions, trampolines), (1, 0));
    // A function that the module does not define has no body.
    let missing = CompileKey::WasmFunction(DefinedFuncIndex::from_u32(2));
    assert!(matches!(compiler.record_job(&t, missing), Err(Error::Unsupported(_))));
    // Neither has one a body that cannot be read.
    let mut t = t;
    t.function_body_inputs[0].body = vec![0x00, 0xff];
    let unread = CompileKey::WasmFunction(DefinedFuncIndex::from_u32(0));
    match compiler.record_job(&t, unread) {
        Err(Error::Unsupported(f)) => assert_eq!(f, "an unknown operator or type of a local"),
        _ => panic!("there is no such operator"),
    }
    let trampoline = CompileKey::ArrayToWasmTrampoline(DefinedFuncIndex::from_u32(0));
    let (code, limit) = compiler.record_job(&t, trampoline).ok().unwrap();
    assert_eq!(limit, None);
    assert_eq!(code.signature().params.len(), 4);
}

#[test]
fn operators_that_are_not_implemented_end_a_job() {
    let feature = |text: &str| {
        let t = translate(text);
        let compiler = compiler();
        let index = DefinedFuncIndex::from_u32(0);
        match compiler.record_job(&t, CompileKey::WasmFunction(index)) {
            Ok(_) => None,
            Err(Error::Unsupported(f)) => Some(f),
            Err(_) => panic!("no other error is possible"),
        }
    };
    let missing = Some("an operator that is not implemented".to_string());
    assert_eq!(feature("(module (memory 1) (func (drop (memory.size))))"), missing);
    assert_eq!(feature("(module (memory 1 1 shared) (func (drop (i32.load (i32.const 0)))))"), missing);
    assert_eq!(feature("(module (memory i64 1) (func (drop (i32.load (i64.const 0)))))"), missing);
    assert_eq!(feature("(module (memory 1) (func (drop (i32.load (i32.const 0)))))"), None);
    // Operators that are not reached are left out.
    assert_eq!(feature("(module (memory 1) (func unreachable (drop (memory.size))))"), None);
    let exceptions = Some("Exception Handling Proposal".to_string());
    assert_eq!(feature("(module (tag) (func (throw 0)))"), exceptions);
    let size = format!("(module (func (local {})))", "i32 ".repeat(10));
    assert_eq!(feature(&size), None);
}
