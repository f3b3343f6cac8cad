use k23_wasm::builtins::{BuiltinFunction, BUILTIN_COUNT};
use k23_wasm::code_memory::CodeMemory;
use k23_wasm::code_registry::{
    lookup_code, register_code, unregister_code, CodeObject, CodeRegistry,
};
use k23_wasm::compile::{
    builtin_input, required_builtins, CompileInputs, CompileKey, CompileOutput, CompiledFunction,
    FilePos, FunctionLoc, Relocation, RelocationTarget, TrapInfo,
};
use k23_wasm::errors::Error;
use k23_wasm::finish::{MachReloc, MachineCode};
use k23_wasm::func::TrapReason;
use k23_wasm::indices::{DefinedFuncIndex, EntityIndex, FuncIndex, FuncRefIndex, ModuleInternedTypeIndex};
use k23_wasm::ir::TrapCode;
use k23_wasm::link::{TrapsBuilder, UnlinkedCompileOutputs};
use k23_wasm::module_registry::{ModuleRegistry, RegisteredModule, RegisteredModuleId};
use k23_wasm::text_section::{RelocKind, TextTarget};
use k23_wasm::translate::{FunctionDesc, TranslatedModule};
use k23_wasm::trap_handling::{trap_for_signal, Activations, CallThreadState, Signal};

fn module(imported: u32, escaping: &[bool]) -> TranslatedModule {
    let mut functions = Vec::new();
    let mut escaped = 0;
    for flag in escaping {
        let func_ref = if *flag {
            escaped += 1;
            FuncRefIndex::from_u32(escaped - 1)
        } else {
            FuncRefIndex::reserved_value()
        };
        functions.push(FunctionDesc { signature: 0, func_ref });
    }
    TranslatedModule {
        types: vec![ModuleInternedTypeIndex::from_u32(0)],
        functions,
        tables: vec![],
        memories: vec![],
        globals: vec![],
        exports: vec![("f".to_string(), EntityIndex::Function(FuncIndex::from_u32(imported)))],
        num_imported_functions: imported,
        num_imported_tables: 0,
        num_imported_memories: 0,
        num_imported_globals: 0,
        num_escaped_functions: escaped,
    }
}

fn output(key: CompileKey, body: Vec<u8>, relocations: Vec<Relocation>, traps: Vec<TrapInfo>) -> CompileOutput {
    CompileOutput {
        key,
        function: CompiledFunction {
            body,
            alignment: 16,
            relocations,
            traps,
            start_srcloc: FilePos::new(7),
            end_srcloc: FilePos::default(),
        },
        symbol: String::new(),
    }
}

#[test]
fn file_positions_can_be_missing() {
    assert_eq!(FilePos::new(12).file_offset(), Some(12));
    assert_eq!(FilePos::default().file_offset(), None);
    assert_eq!(FilePos::new(u32::MAX).file_offset(), None);
}

#[test]
fn builtins_have_positions_and_names() {
    for i in 0..BUILTIN_COUNT {
        assert_eq!(BuiltinFunction::from_index(i).unwrap().index(), i);
    }
    assert_eq!(BuiltinFunction::from_index(BUILTIN_COUNT), None);
    assert_eq!(BuiltinFunction::MemoryCopy.name(), "memory_copy");
    let job = builtin_input(BuiltinFunction::RefFunc);
    assert_eq!(job.symbol, "wasm_builtin_ref_func");
    assert_eq!(job.key, CompileKey::WasmToBuiltinTrampoline(BuiltinFunction::RefFunc));
}

#[test]
fn jobs_come_in_order_with_trampolines_for_escaping_functions() {
    let module = module(2, &[false, false, true, false, true]);
    let inputs = CompileInputs::from_module(&module, 3);
    let symbols: Vec<&str> = inputs.0.iter().map(|i| i.symbol.as_str()).collect();
    assert_eq!(
        symbols,
        vec![
            "wasm[0]::function[0]",
            "wasm[0]::array_to_wasm_trampoline[2]",
            "wasm[0]::function[1]",
            "wasm[0]::function[2]",
            "wasm[0]::array_to_wasm_trampoline[4]",
        ]
    );
    assert_eq!(inputs.0[1].key, CompileKey::ArrayToWasmTrampoline(DefinedFuncIndex::from_u32(0)));
}

#[test]
fn relocations_are_named_by_namespace() {
    let r = Relocation::from_mach_reloc(RelocKind::RiscvCallPlt, 0, 5, 0, 8);
    assert_eq!(r.target, RelocationTarget::Wasm(FuncIndex::from_u32(5)));
    let r = Relocation::from_mach_reloc(RelocKind::X86CallPcRel4, 1, 1, -4, 9);
    assert_eq!(r.target, RelocationTarget::Builtin(BuiltinFunction::MemoryCopy));
    assert_eq!((r.addend, r.offset), (-4, 9));
}

fn builtin_reloc(b: BuiltinFunction) -> Relocation {
    Relocation { kind: RelocKind::X86CallPcRel4, target: RelocationTarget::Builtin(b), addend: -4, offset: 1 }
}

#[test]
fn required_builtins_are_listed_once_in_order() {
    let key = |i| CompileKey::WasmFunction(DefinedFuncIndex::from_u32(i));
    let outputs = vec![
        output(key(0), vec![0; 8], vec![builtin_reloc(BuiltinFunction::TableCopy), builtin_reloc(BuiltinFunction::DataDrop)], vec![]),
        output(key(1), vec![0; 8], vec![builtin_reloc(BuiltinFunction::DataDrop), builtin_reloc(BuiltinFunction::RefFunc)], vec![]),
    ];
    assert_eq!(
        required_builtins(&outputs),
        vec![BuiltinFunction::TableCopy, BuiltinFunction::DataDrop, BuiltinFunction::RefFunc]
    );
}

#[test]
fn functions_are_linked_on_x86_64() {
    let module = module(1, &[false, true, false]);
    let f = |i| DefinedFuncIndex::from_u32(i);
    // call rel32; ret
    let call = |target| Relocation { kind: RelocKind::X86CallPcRel4, target, addend: -4, offset: 1 };
    let outputs = vec![
        output(
            CompileKey::WasmFunction(f(0)),
            vec![0xe8, 0, 0, 0, 0, 0xc3],
            vec![call(RelocationTarget::Wasm(FuncIndex::from_u32(2)))],
            vec![TrapInfo { offset: 5, trap: TrapCode::Unreachable }],
        ),
        output(CompileKey::ArrayToWasmTrampoline(f(0)), vec![0x90, 0xc3], vec![], vec![]),
        output(
            CompileKey::WasmFunction(f(1)),
            vec![0xe8, 0, 0, 0, 0, 0x0f, 0x0b],
            vec![call(RelocationTarget::Builtin(BuiltinFunction::DataDrop))],
            vec![TrapInfo { offset: 5, trap: TrapCode::HeapOutOfBounds }],
        ),
        output(CompileKey::WasmToBuiltinTrampoline(BuiltinFunction::DataDrop), vec![0xc3], vec![], vec![]),
    ];
    let (text, funcs, (offsets, traps)) =
        UnlinkedCompileOutputs::new(outputs).link_and_finish(TextTarget::X86_64, &module);
    assert_eq!(text.len(), 49);
    // The call at 1 ends at 5 and goes to 32.
    assert_eq!(&text[0..6], &[0xe8, 27, 0, 0, 0, 0xc3]);
    assert_eq!(&text[6..16], &[0; 10]);
    assert_eq!(&text[16..18], &[0x90, 0xc3]);
    // The call at 33 ends at 37 and goes to 48.
    assert_eq!(&text[32..39], &[0xe8, 11, 0, 0, 0, 0x0f, 0x0b]);
    assert_eq!(text[48], 0xc3);
    assert_eq!(funcs.len(), 2);
    assert_eq!(funcs[0].wasm_func_loc, FunctionLoc { start: 0, length: 6 });
    assert_eq!(funcs[0].host_to_wasm_trampoline, Some(FunctionLoc { start: 16, length: 2 }));
    assert_eq!(funcs[0].start_srcloc, FilePos::new(7));
    assert_eq!(funcs[1].wasm_func_loc, FunctionLoc { start: 32, length: 7 });
    assert_eq!(funcs[1].host_to_wasm_trampoline, None);
    assert_eq!(offsets, vec![5, 37]);
    assert_eq!(traps, vec![TrapCode::Unreachable, TrapCode::HeapOutOfBounds]);
}

#[test]
fn functions_are_linked_on_riscv64() {
    let module = module(0, &[false, false]);
    let f = |i| DefinedFuncIndex::from_u32(i);
    // auipc ra, 0; jalr ra, 0(ra)
    let call = vec![0x97, 0, 0, 0, 0xe7, 0x80, 0, 0];
    let outputs = vec![
        output(
            CompileKey::WasmFunction(f(0)),
            call.clone(),
            vec![Relocation {
                kind: RelocKind::RiscvCallPlt,
                target: RelocationTarget::Wasm(FuncIndex::from_u32(1)),
                addend: 0,
                offset: 0,
            }],
            vec![],
        ),
        output(CompileKey::WasmFunction(f(1)), vec![0x67, 0x80, 0, 0], vec![], vec![]),
    ];
    let (text, funcs, _) =
        UnlinkedCompileOutputs::new(outputs).link_and_finish(TextTarget::Riscv64, &module);
    assert_eq!(text.len(), 20);
    assert_eq!(funcs[1].wasm_func_loc, FunctionLoc { start: 16, length: 4 });
    // auipc ra, 0; jalr ra, 16(ra)
    assert_eq!(&text[0..8], &[0x97, 0, 0, 0, 0xe7, 0x80, 0, 0x01]);
}

#[test]
fn functions_can_follow_each_other_without_gaps() {
    let module = module(0, &[false, false]);
    let f = |i| DefinedFuncIndex::from_u32(i);
    let mut outputs = vec![
        output(CompileKey::WasmFunction(f(0)), vec![1; 3], vec![], vec![]),
        output(CompileKey::WasmFunction(f(1)), vec![2; 2], vec![], vec![]),
    ];
    outputs[0].function.alignment = 1;
    outputs[1].function.alignment = 1;
    let (text, funcs, _) =
        UnlinkedCompileOutputs::new(outputs).link_and_finish(TextTarget::X86_64, &module);
    assert_eq!(text, vec![1, 1, 1, 2, 2]);
    assert_eq!(funcs[1].wasm_func_loc, FunctionLoc { start: 3, length: 2 });
}

#[test]
fn calls_reach_back_over_pages_on_riscv() {
    let module = module(0, &[false, false]);
    let f = |i| DefinedFuncIndex::from_u32(i);
    // auipc ra, 0; jalr ra, ra
    let call = vec![0x97, 0, 0, 0, 0xe7, 0x80, 0, 0];
    let outputs = vec![
        output(CompileKey::WasmFunction(f(0)), vec![0; 3000], vec![], vec![]),
        output(
            CompileKey::WasmFunction(f(1)),
            call,
            vec![Relocation {
                kind: RelocKind::RiscvCallPlt,
                target: RelocationTarget::Wasm(FuncIndex::from_u32(0)),
                addend: 0,
                offset: 0,
            }],
            vec![],
        ),
    ];
    let (text, funcs, _) =
        UnlinkedCompileOutputs::new(outputs).link_and_finish(TextTarget::Riscv64, &module);
    assert_eq!(funcs[1].wasm_func_loc, FunctionLoc { start: 3008, length: 8 });
    // auipc ra, -1; jalr ra, 1088(ra)
    assert_eq!(&text[3008..3016], &[0x97, 0xf0, 0xff, 0xff, 0xe7, 0x80, 0, 0x44]);
}

#[test]
fn traps_are_collected_in_order() {
    let mut traps = TrapsBuilder::new();
    traps.push_traps(
        FunctionLoc { start: 0, length: 8 },
        &vec![
            TrapInfo { offset: 2, trap: TrapCode::Unreachable },
            TrapInfo { offset: 6, trap: TrapCode::IntegerOverflow },
        ],
    );
    assert_eq!(traps.last_offset, 8);
    traps.push_traps(FunctionLoc { start: 16, length: 4 }, &vec![TrapInfo { offset: 0, trap: TrapCode::BadSignature }]);
    let (offsets, codes) = traps.finish();
    assert_eq!(offsets, vec![2, 6, 16]);
    assert_eq!(codes, vec![TrapCode::Unreachable, TrapCode::IntegerOverflow, TrapCode::BadSignature]);
}

#[test]
fn traps_come_behind_those_before() {
    let trap = |offset| TrapInfo { offset, trap: TrapCode::Unreachable };
    let mut traps = TrapsBuilder::new();
    traps.push_traps(FunctionLoc { start: 4, length: 8 }, &vec![trap(0), trap(8)]);
    // A function that begins before the end of the last one, with a trap behind both.
    traps.push_traps(FunctionLoc { start: 10, length: 4 }, &vec![trap(2), trap(20)]);
    assert_eq!(traps.last_offset, 14);
    traps.push_traps(FunctionLoc { start: 0, length: 0 }, &vec![]);
    assert_eq!(traps.last_offset, 0);
    assert_eq!(traps.finish().0, vec![4, 12, 12, 30]);
}

fn code_memory() -> CodeMemory {
    CodeMemory::new(
        0x4000,
        64,
        vec![2, 6, 16],
        vec![TrapCode::Unreachable, TrapCode::IntegerOverflow, TrapCode::BadSignature],
        vec![
            (ModuleInternedTypeIndex::from_u32(1), FunctionLoc { start: 8, length: 8 }),
            (ModuleInternedTypeIndex::from_u32(4), FunctionLoc { start: 24, length: 8 }),
        ],
        vec![],
    )
}

#[test]
fn traps_are_found_by_offset() {
    let mut code = code_memory();
    assert_eq!(code.lookup_trap_code(2), Some(TrapCode::Unreachable));
    assert_eq!(code.lookup_trap_code(6), Some(TrapCode::IntegerOverflow));
    assert_eq!(code.lookup_trap_code(16), Some(TrapCode::BadSignature));
    assert_eq!(code.lookup_trap_code(0), None);
    assert_eq!(code.lookup_trap_code(7), None);
    assert_eq!(code.lookup_trap_code(100), None);
    assert_eq!(code.text_range(), (0x4000, 0x4040));
    assert_eq!(code.resolve_function_loc(FunctionLoc { start: 60, length: 4 }), 0x403c);
    assert_eq!(code.wasm_to_host_trampoline(ModuleInternedTypeIndex::from_u32(4)), 0x4018);
    assert!(code.publish());
}

#[test]
fn code_is_found_while_it_is_registered() {
    let mut registry = CodeRegistry::new();
    let a = CodeObject { start: 0x1000, len: 0x100, id: 1 };
    let b = CodeObject { start: 0x3000, len: 0x10, id: 2 };
    let empty = CodeObject { start: 0x9000, len: 0, id: 3 };
    register_code(&mut registry, &b);
    register_code(&mut registry, &a);
    register_code(&mut registry, &empty);
    assert_eq!(lookup_code(&registry, 0x1000), Some((1, 0)));
    assert_eq!(lookup_code(&registry, 0x10ff), Some((1, 0xff)));
    assert_eq!(lookup_code(&registry, 0x1100), None);
    assert_eq!(lookup_code(&registry, 0xfff), None);
    assert_eq!(lookup_code(&registry, 0x300f), Some((2, 15)));
    assert_eq!(lookup_code(&registry, 0x9000), None);
    unregister_code(&mut registry, &a);
    unregister_code(&mut registry, &empty);
    assert_eq!(lookup_code(&registry, 0x1000), None);
    assert_eq!(lookup_code(&registry, 0x3000), Some((2, 0)));
}

#[test]
fn modules_are_found_by_id_and_address() {
    let mut registry = ModuleRegistry::new();
    let code = CodeObject { start: 0x1000, len: 0x100, id: 1 };
    let first = RegisteredModule { id: 10, code, first_function: Some(0x1000) };
    let second = RegisteredModule { id: 11, code, first_function: Some(0x1080) };
    let data = RegisteredModule {
        id: 12,
        code: CodeObject { start: 1, len: 0, id: 0 },
        first_function: None,
    };
    let id = registry.register_module(&first);
    assert_eq!(id, RegisteredModuleId::LoadedCode(0x1000));
    assert_eq!(registry.lookup_module_by_id(id), Some(first));
    registry.register_module(&second);
    assert_eq!(registry.module_and_offset(0x107f), Some((first, 0x7f)));
    assert_eq!(registry.module_and_offset(0x1080), Some((second, 0x80)));
    assert_eq!(registry.module_and_offset(0x1100), None);
    let id = registry.register_module(&data);
    assert_eq!(id, RegisteredModuleId::WithoutCode(0));
    assert_eq!(registry.lookup_module_by_id(id), Some(data));
    assert_eq!(registry.lookup_module_by_id(RegisteredModuleId::WithoutCode(1)), None);
    assert_eq!(registry.lookup_module_by_id(RegisteredModuleId::LoadedCode(0x5000)), None);
    // Registering a module again changes nothing.
    registry.register_module(&first);
    assert_eq!(registry.module_and_offset(0x1000), Some((first, 0)));
}

#[test]
fn signals_in_guests_are_traps() {
    let mut registry = CodeRegistry::new();
    register_code(&mut registry, &CodeObject { start: 0x4000, len: 64, id: 0 });
    let codes = vec![code_memory()];
    let mut activations = Activations::new();
    assert_eq!(trap_for_signal(Signal::Segv, 0x4002, 9, &activations, &registry, &codes), None);
    activations.push(CallThreadState {
        old_last_wasm_exit_fp: 0,
        old_last_wasm_exit_pc: 0,
        old_last_wasm_entry_fp: 0,
        prev: None,
    });
    assert_eq!(
        trap_for_signal(Signal::Segv, 0x4002, 9, &activations, &registry, &codes),
        Some(TrapReason::Jit { pc: 0x4002, faulting_addr: Some(9), trap: TrapCode::Unreachable })
    );
    assert_eq!(
        trap_for_signal(Signal::Ill, 0x4010, 9, &activations, &registry, &codes),
        Some(TrapReason::Jit { pc: 0x4010, faulting_addr: None, trap: TrapCode::BadSignature })
    );
    assert_eq!(trap_for_signal(Signal::Fpe, 0x4003, 9, &activations, &registry, &codes), None);
    assert_eq!(trap_for_signal(Signal::Bus, 0x8000, 9, &activations, &registry, &codes), None);
}

#[test]
fn compilations_end_with_the_trampolines_of_builtins() {
    let module = module(0, &[true, false]);
    let mut compilation = CompileInputs::from_module(&module, 2).compile();
    let mut keys = Vec::new();
    while let Some(input) = compilation.next_job() {
        let relocations = match input.key {
            CompileKey::WasmFunction(i) if i.as_u32() == 1 => {
                vec![builtin_reloc(BuiltinFunction::DataDrop), builtin_reloc(BuiltinFunction::DataDrop)]
            }
            _ => vec![],
        };
        keys.push((input.key, input.symbol.clone()));
        let output = output(input.key, vec![0; 8], relocations, vec![]);
        assert!(compilation.complete(Ok(output.function)).is_ok());
    }
    let f = |i| DefinedFuncIndex::from_u32(i);
    let expected = [
        CompileKey::WasmFunction(f(0)),
        CompileKey::ArrayToWasmTrampoline(f(0)),
        CompileKey::WasmFunction(f(1)),
        CompileKey::WasmToBuiltinTrampoline(BuiltinFunction::DataDrop),
    ];
    assert_eq!(keys.iter().map(|k| k.0).collect::<Vec<_>>(), expected);
    let outputs = compilation.finish();
    for (output, (key, symbol)) in outputs.outputs().iter().zip(&keys) {
        assert_eq!(output.key, *key);
        assert_eq!(output.symbol, *symbol);
    }
    assert_eq!(outputs.outputs().len(), 4);
}

#[test]
fn the_first_error_ends_a_compilation() {
    let module = module(0, &[false]);
    let mut compilation = CompileInputs::from_module(&module, 1).compile();
    assert!(compilation.next_job().is_some());
    let error = Error::Cranelift { func_name: "f".to_string(), message: "m".to_string() };
    match compilation.complete(Err(error)) {
        Err(Error::Cranelift { func_name, .. }) => assert_eq!(func_name, "f"),
        _ => panic!("the error is passed on"),
    }
}

#[test]
fn traps_have_numbers() {
    assert_eq!(TrapCode::StackOverflow.user_number(), None);
    assert_eq!(TrapCode::Unreachable.user_number(), Some(1));
    assert_eq!(TrapCode::Exit.user_number(), Some(9));
    for n in 1..=9 {
        assert_eq!(TrapCode::from_user_number(n).unwrap().user_number(), Some(n));
    }
    assert_eq!(TrapCode::from_user_number(0), None);
    assert_eq!(TrapCode::from_user_number(10), None);
}

#[test]
fn what_cannot_be_linked_is_told() {
    let module = module(1, &[false, false]);
    let key = CompileKey::WasmFunction(DefinedFuncIndex::from_u32(0));
    let call = |offset, addend, callee| Relocation {
        kind: RelocKind::X86CallPcRel4,
        target: RelocationTarget::Wasm(FuncIndex::from_u32(callee)),
        addend,
        offset,
    };
    let trap = |offset| TrapInfo { offset, trap: TrapCode::Unreachable };
    let ok = |relocations, traps, target| {
        let outputs = vec![output(key, vec![0; 6], relocations, traps)];
        UnlinkedCompileOutputs::new(outputs).is_linkable(target, &module)
    };
    let x86 = TextTarget::X86_64;
    assert!(ok(vec![], vec![], x86));
    assert!(ok(vec![call(2, -4, 1)], vec![trap(0), trap(0), trap(6)], x86));
    assert!(!ok(vec![call(3, -4, 1)], vec![], x86));
    assert!(!ok(vec![call(2, 0, 1)], vec![], x86));
    assert!(!ok(vec![call(2, -4, 1)], vec![], TextTarget::Riscv64));
    // An import, and a function that was not compiled.
    assert!(!ok(vec![call(2, -4, 0)], vec![], x86));
    assert!(!ok(vec![call(2, -4, 2)], vec![], x86));
    assert!(!ok(vec![builtin_reloc(BuiltinFunction::DataDrop)], vec![], x86));
    assert!(!ok(vec![], vec![trap(7)], x86));
    assert!(!ok(vec![], vec![trap(3), trap(2)], x86));
    let aligned = |alignment, target| {
        let mut output = output(key, vec![0; 6], vec![], vec![]);
        output.function.alignment = alignment;
        UnlinkedCompileOutputs::new(vec![output]).is_linkable(target, &module)
    };
    assert!(aligned(1, x86) && aligned(2, x86) && aligned(1 << 30, x86));
    assert!(!aligned(0, x86) && !aligned(3, x86) && !aligned(1 << 31, x86));
    assert!(aligned(2, TextTarget::Riscv64) && !aligned(1, TextTarget::Riscv64));
    // The module defines a function of which there is no output.
    assert!(!UnlinkedCompileOutputs::new(vec![]).is_linkable(x86, &module));
}

#[test]
fn generated_code_becomes_a_compiled_function() {
    let reference = |namespace, index| MachReloc {
        kind: RelocKind::X86CallPcRel4,
        namespace,
        index,
        addend: -4,
        offset: 1,
    };
    let finish = |references: &[MachReloc], alignment, span| {
        let code = MachineCode {
            body: vec![1, 2, 3],
            alignment,
            relocations: references.to_vec(),
            traps: vec![TrapInfo { offset: 2, trap: TrapCode::Exit }],
        };
        CompiledFunction::finish(code, 16, span)
    };
    let f = finish(&[reference(0, 7), reference(1, 2)], 8, Some((100, 20))).unwrap();
    assert_eq!((f.body, f.alignment), (vec![1, 2, 3], 16));
    assert_eq!(f.relocations[0].target, RelocationTarget::Wasm(FuncIndex::from_u32(7)));
    let builtin = BuiltinFunction::from_index(2).unwrap();
    assert_eq!(f.relocations[1].target, RelocationTarget::Builtin(builtin));
    assert_eq!((f.relocations[1].addend, f.relocations[1].offset), (-4, 1));
    assert_eq!(f.traps, vec![TrapInfo { offset: 2, trap: TrapCode::Exit }]);
    assert_eq!((f.start_srcloc, f.end_srcloc), (FilePos::new(100), FilePos::new(120)));
    let f = finish(&[], 32, None).unwrap();
    assert_eq!((f.alignment, f.start_srcloc.file_offset()), (32, None));
    assert!(finish(&[reference(2, 0)], 8, None).is_none());
    assert!(finish(&[reference(1, BUILTIN_COUNT)], 8, None).is_none());
    assert!(finish(&[], 8, Some((u32::MAX as usize, 1))).is_none());
}
