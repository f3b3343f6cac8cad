use k23_wasm::eval_command::{
    parse_argument, parse_arguments, parse_i32, parse_i64, parse_u128, split_whitespace,
    ArgumentError, EvalCommand,
};
use k23_wasm::func::Val;
use k23_wasm::types::{WasmHeapType, WasmHeapTypeInner, WasmRefType, WasmValType};

#[test]
fn words_are_separated_by_white_space() {
    assert_eq!(split_whitespace("  fib  run\t10\n"), vec!["fib", "run", "10"]);
    assert_eq!(split_whitespace(" \u{2003} "), Vec::<String>::new());
    assert_eq!(split_whitespace("one"), vec!["one"]);
}

#[test]
fn commands_name_a_module_and_a_function() {
    let command = EvalCommand::parse("fib run 10 -3").ok().unwrap();
    assert_eq!(command.module_name, "fib");
    assert_eq!(command.func_name, "run");
    assert_eq!(command.args, vec!["10", "-3"]);
    assert!(EvalCommand::parse("fib run").ok().unwrap().args.is_empty());
    assert!(EvalCommand::parse("fib").is_err());
    assert!(EvalCommand::parse("").is_err());
}

#[test]
fn numbers_are_parsed_as_their_types_do() {
    for text in ["0", "+7", "-7", "-0", "007", "2147483647", "-2147483648", "2147483648",
        "-2147483649", "", "+", "-", "1x", "+-1", "9223372036854775807", "-9223372036854775808",
        "9223372036854775808", "340282366920938463463374607431768211455",
        "340282366920938463463374607431768211456", "\u{0661}"]
    {
        assert_eq!(parse_i32(text), text.parse::<i32>().ok(), "{text}");
        assert_eq!(parse_i64(text), text.parse::<i64>().ok(), "{text}");
        assert_eq!(parse_u128(text), text.parse::<u128>().ok(), "{text}");
    }
}

#[test]
fn arguments_have_the_types_of_parameters() {
    let reference = WasmValType::Ref(WasmRefType {
        nullable: true,
        heap_type: WasmHeapType { shared: false, ty: WasmHeapTypeInner::Func },
    });
    let args = |list: &[&str]| list.iter().map(|s| s.to_string()).collect::<Vec<String>>();
    let types = vec![WasmValType::I32, WasmValType::F32, WasmValType::V128];
    let bits = vec![0, u64::from(1.5f32.to_bits()), 0];
    let vals = parse_arguments(&types, &args(&["-4", "1.5", "9"]), &bits).unwrap();
    assert!(matches!(vals[..], [Val::I32(-4), Val::F32(0x3fc0_0000), Val::V128(9)]));
    // What is left over on either side is passed over.
    assert_eq!(parse_arguments(&types, &args(&["1"]), &vec![0]).unwrap().len(), 1);
    assert_eq!(parse_arguments(&vec![], &args(&["1"]), &vec![0]).unwrap().len(), 0);
    assert!(matches!(
        parse_arguments(&vec![reference], &args(&["x"]), &vec![0]),
        Err(ArgumentError::Reference)
    ));
    assert!(parse_argument(WasmValType::I64, "x", 0).is_none());
    assert!(matches!(parse_argument(WasmValType::F64, "", 7), Some(Val::F64(7))));
}
