//! The jobs that a module is compiled in, and the linking of their outputs.
use crate::builtins::{BuiltinFunction, BUILTIN_COUNT};
use crate::cranelift::env::{NS_BUILTIN, NS_WASM_FUNC};
use crate::indices::{DefinedFuncIndex, FuncIndex};
use crate::ir::TrapCode;
use crate::text::push_decimal;
use crate::text_section::RelocKind;
use crate::translate::TranslatedModule;
use vstd::prelude::*;

verus! {

/// A position within a source file.
#[derive(Debug, Clone, Copy, PartialEq, Eq, Structural)]
pub struct FilePos(pub u32);

impl Default for FilePos {
    /// No position.
    fn default() -> (r: Self)
        ensures
            r == FilePos(u32::MAX),
    {
        FilePos(u32::MAX)
    }
}

impl FilePos {
    /// The given position.
    pub fn new(pos: u32) -> (r: Self)
        ensures
            r == FilePos(pos),
    {
        FilePos(pos)
    }

    /// The offset in the file, if there is a position.
    pub fn file_offset(self) -> (r: Option<u32>)
        ensures
            r == (if self.0 == u32::MAX {
                None
            } else {
                Some(self.0)
            }),
    {
        if self.0 == u32::MAX {
            None
        } else {
            Some(self.0)
        }
    }
}

/// Where a function is located in the text section.
#[derive(Debug, Clone, Copy, PartialEq, Eq, Structural)]
pub struct FunctionLoc {
    pub start: u32,
    pub length: u32,
}

/// Where a compiled function and its trampoline are located.
#[derive(Debug, Clone, Copy, PartialEq, Eq, Structural)]
pub struct CompiledFunctionInfo {
    pub wasm_func_loc: FunctionLoc,
    /// The trampoline through which host code calls the function, if there is one.
    pub host_to_wasm_trampoline: Option<FunctionLoc>,
    pub start_srcloc: FilePos,
}

/// A trap in a compiled function.
#[derive(Debug, Clone, Copy, PartialEq, Eq, Structural)]
pub struct TrapInfo {
    /// The offset of the trapping instruction in the function.
    pub offset: u32,
    pub trap: TrapCode,
}

/// What a compiled function refers to.
#[derive(Debug, Clone, Copy, PartialEq, Eq, Structural)]
pub enum RelocationTarget {
    Wasm(FuncIndex),
    Builtin(BuiltinFunction),
}

/// A reference of a compiled function to another function.
#[derive(Debug, Clone, Copy, PartialEq, Eq, Structural)]
pub struct Relocation {
    pub kind: RelocKind,
    pub target: RelocationTarget,
    pub addend: i64,
    pub offset: u32,
}

/// The target that a namespace and an index name.
pub open spec fn is_named(target: RelocationTarget, namespace: u32, index: u32) -> bool {
    match target {
        RelocationTarget::Wasm(f) => namespace == NS_WASM_FUNC && f.0 == index,
        RelocationTarget::Builtin(b) => namespace == NS_BUILTIN && b.spec_index() == index,
    }
}

impl Relocation {
    /// A reference to the function that a namespace and an index name.
    pub fn from_mach_reloc(kind: RelocKind, namespace: u32, index: u32, addend: i64, offset: u32) -> (r:
        Relocation)
        requires
            namespace == NS_WASM_FUNC && index < u32::MAX || namespace == NS_BUILTIN && index
                < BUILTIN_COUNT,
        ensures
            r.kind == kind,
            r.addend == addend,
            r.offset == offset,
            is_named(r.target, namespace, index),
    {
        let target = if namespace == NS_WASM_FUNC {
            RelocationTarget::Wasm(FuncIndex::from_u32(index))
        } else {
            match BuiltinFunction::from_index(index) {
                Some(b) => RelocationTarget::Builtin(b),
                None => {
                    assert(false);
                    RelocationTarget::Wasm(FuncIndex::from_u32(index))
                },
            }
        };
        Relocation { kind, target, addend, offset }
    }
}

/// A compiled function.
pub struct CompiledFunction {
    /// The machine code.
    pub body: Vec<u8>,
    pub alignment: u32,
    pub relocations: Vec<Relocation>,
    pub traps: Vec<TrapInfo>,
    pub start_srcloc: FilePos,
    pub end_srcloc: FilePos,
}

/// What a job compiles.
#[derive(Debug, Clone, Copy, PartialEq, Eq, Structural)]
pub enum CompileKey {
    WasmFunction(DefinedFuncIndex),
    ArrayToWasmTrampoline(DefinedFuncIndex),
    WasmToBuiltinTrampoline(BuiltinFunction),
}

impl CompileKey {
    /// A number that no other key has.
    pub open spec fn spec_number(self) -> u64 {
        match self {
            CompileKey::WasmFunction(i) => i.0 as u64,
            CompileKey::ArrayToWasmTrampoline(i) => (0x1_0000_0000 + i.0) as u64,
            CompileKey::WasmToBuiltinTrampoline(b) => (0x2_0000_0000 + b.spec_index()) as u64,
        }
    }

    /// A number that no other key has.
    pub fn number(self) -> (r: u64)
        ensures
            r == self.spec_number(),
    {
        match self {
            CompileKey::WasmFunction(i) => i.as_u32() as u64,
            CompileKey::ArrayToWasmTrampoline(i) => 0x1_0000_0000 + i.as_u32() as u64,
            CompileKey::WasmToBuiltinTrampoline(b) => 0x2_0000_0000 + b.index() as u64,
        }
    }
}

/// Different keys have different numbers.
pub proof fn keys_are_distinct(a: CompileKey, b: CompileKey)
    ensures
        a.spec_number() == b.spec_number() <==> a == b,
{
    match (a, b) {
        (CompileKey::WasmToBuiltinTrampoline(x), CompileKey::WasmToBuiltinTrampoline(y)) => {
            crate::builtins::positions_are_distinct(x, y);
        },
        _ => {},
    }
}

/// A job, with the symbol that its output gets.
pub struct CompileInput {
    pub key: CompileKey,
    pub symbol: String,
}

impl CompileInput {
    /// The key and the symbol.
    pub open spec fn model(self) -> (CompileKey, Seq<char>) {
        (self.key, self.symbol@)
    }
}

/// The symbol of a function.
pub open spec fn function_symbol(index: DefinedFuncIndex) -> Seq<char> {
    "wasm[0]::function["@ + crate::text::decimal(index.0 as nat) + "]"@
}

/// The symbol of the trampoline of a function.
pub open spec fn trampoline_symbol(index: FuncIndex) -> Seq<char> {
    "wasm[0]::array_to_wasm_trampoline["@ + crate::text::decimal(index.0 as nat) + "]"@
}

/// The symbol of the trampoline of a builtin function.
pub open spec fn builtin_symbol(b: BuiltinFunction) -> Seq<char> {
    "wasm_builtin_"@ + b.spec_name()
}

/// A numbered symbol.
fn numbered(prefix: &str, n: u32) -> (r: String)
    ensures
        r@ == prefix@ + crate::text::decimal(n as nat) + "]"@,
{
    let mut symbol = String::from_str(prefix);
    push_decimal(&mut symbol, n as u64);
    symbol.append("]");
    symbol
}

/// The jobs of the first functions that a module defines: each function, followed by its trampoline
/// if host code can get hold of the function.
pub open spec fn jobs_of(module: TranslatedModule, n: nat) -> Seq<(CompileKey, Seq<char>)>
    decreases n,
{
    if n == 0 {
        Seq::empty()
    } else {
        let def = DefinedFuncIndex((n - 1) as u32);
        let func = FuncIndex((module.num_imported_functions + n - 1) as u32);
        let before = jobs_of(module, (n - 1) as nat).push(
            (CompileKey::WasmFunction(def), function_symbol(def)),
        );
        if module.functions@[func.0 as int].spec_is_escaping() {
            before.push((CompileKey::ArrayToWasmTrampoline(def), trampoline_symbol(func)))
        } else {
            before
        }
    }
}

/// The jobs of a module.
pub struct CompileInputs(pub Vec<CompileInput>);

impl CompileInputs {
    /// The keys and the symbols.
    pub open spec fn model(self) -> Seq<(CompileKey, Seq<char>)> {
        self.0@.map_values(|input: CompileInput| input.model())
    }

    /// The jobs of a module with the given number of function bodies.
    pub fn from_module(module: &TranslatedModule, num_bodies: u32) -> (r: Self)
        requires
            module.wf(),
            module.num_imported_functions + num_bodies <= module.functions@.len(),
        ensures
            r.model() == jobs_of(*module, num_bodies as nat),
    {
        let mut inputs: Vec<CompileInput> = Vec::new();
        assert(CompileInputs(inputs).model() =~= Seq::empty());
        for i in 0..num_bodies
            invariant
                module.wf(),
                module.num_imported_functions + num_bodies <= module.functions@.len(),
                inputs@.map_values(|input: CompileInput| input.model()) == jobs_of(
                    *module,
                    i as nat,
                ),
        {
            let ghost before = inputs@.map_values(|input: CompileInput| input.model());
            let def_func_index = DefinedFuncIndex::from_u32(i);
            let symbol = numbered("wasm[0]::function[", i);
            inputs.push(CompileInput { key: CompileKey::WasmFunction(def_func_index), symbol });
            let ghost main = inputs@.map_values(|input: CompileInput| input.model());
            assert(main =~= before.push(
                (CompileKey::WasmFunction(def_func_index), function_symbol(def_func_index)),
            ));
            let func_index = module.func_index(def_func_index);
            if module.functions[func_index.index()].is_escaping() {
                let symbol = numbered("wasm[0]::array_to_wasm_trampoline[", func_index.as_u32());
                inputs.push(
                    CompileInput {
                        key: CompileKey::ArrayToWasmTrampoline(def_func_index),
                        symbol,
                    },
                );
                assert(inputs@.map_values(|input: CompileInput| input.model()) =~= main.push(
                    (
                        CompileKey::ArrayToWasmTrampoline(def_func_index),
                        trampoline_symbol(func_index),
                    ),
                ));
            }
        }
        CompileInputs(inputs)
    }
}

/// The job of the trampoline of a builtin function.
pub fn builtin_input(b: BuiltinFunction) -> (r: CompileInput)
    ensures
        r.model() == (CompileKey::WasmToBuiltinTrampoline(b), builtin_symbol(b)),
{
    let mut symbol = String::from_str("wasm_builtin_");
    symbol.append(b.name());
    CompileInput { key: CompileKey::WasmToBuiltinTrampoline(b), symbol }
}

/// The output of a job.
pub struct CompileOutput {
    pub key: CompileKey,
    pub function: CompiledFunction,
    pub symbol: String,
}

/// The builtin functions of a list, followed by those that references add to it.
pub open spec fn added_builtins(seen: Seq<BuiltinFunction>, relocs: Seq<Relocation>) -> Seq<
    BuiltinFunction,
>
    decreases relocs.len(),
{
    if relocs.len() == 0 {
        seen
    } else {
        let before = added_builtins(seen, relocs.drop_last());
        match relocs.last().target {
            RelocationTarget::Builtin(b) if !before.contains(b) => before.push(b),
            _ => before,
        }
    }
}

/// The builtin functions that outputs refer to, in the order of their first reference.
pub open spec fn builtins_of(outputs: Seq<CompileOutput>) -> Seq<BuiltinFunction>
    decreases outputs.len(),
{
    if outputs.len() == 0 {
        Seq::empty()
    } else {
        added_builtins(
            builtins_of(outputs.drop_last()),
            outputs.last().function.relocations@,
        )
    }
}

/// References add their builtin functions, and nothing else, and nothing twice.
proof fn lemma_added_builtins(seen: Seq<BuiltinFunction>, relocs: Seq<Relocation>)
    requires
        seen.no_duplicates(),
    ensures
        added_builtins(seen, relocs).no_duplicates(),
        forall|b: BuiltinFunction| #[trigger]
            added_builtins(seen, relocs).contains(b) <==> seen.contains(b) || exists|k: int|
                0 <= k < relocs.len() && (#[trigger] relocs[k]).target == RelocationTarget::Builtin(
                    b,
                ),
    decreases relocs.len(),
{
    if relocs.len() > 0 {
        let rest = relocs.drop_last();
        lemma_added_builtins(seen, rest);
        let before = added_builtins(seen, rest);
        let after = added_builtins(seen, relocs);
        assert forall|b: BuiltinFunction| #[trigger]
            after.contains(b) <==> seen.contains(b) || exists|k: int|
                0 <= k < relocs.len() && (#[trigger] relocs[k]).target == RelocationTarget::Builtin(
                    b,
                ) by {
            if before.contains(b) {
                let at = before.index_of(b);
                assert(after[at] == b);
                if !seen.contains(b) {
                    let k = choose|k: int|
                        0 <= k < rest.len() && (#[trigger] rest[k]).target
                            == RelocationTarget::Builtin(b);
                    assert(relocs[k] == rest[k]);
                }
            }
            if relocs.last().target == RelocationTarget::Builtin(b) {
                assert(relocs[relocs.len() - 1].target == RelocationTarget::Builtin(b));
                if !before.contains(b) {
                    assert(after[before.len() as int] == b);
                }
            }
            if after.contains(b) {
                let at = after.index_of(b);
                if at < before.len() {
                    assert(before[at] == b);
                } else {
                    assert(relocs[relocs.len() - 1].target == RelocationTarget::Builtin(b));
                }
            }
            if exists|k: int|
                0 <= k < relocs.len() && (#[trigger] relocs[k]).target == RelocationTarget::Builtin(
                    b,
                ) {
                let k = choose|k: int|
                    0 <= k < relocs.len() && (#[trigger] relocs[k]).target
                        == RelocationTarget::Builtin(b);
                if k < rest.len() {
                    assert(rest[k] == relocs[k]);
                }
            }
        }
    }
}

/// Every builtin function that an output refers to gets a trampoline, and gets it once.
pub proof fn required_builtins_are_complete(outputs: Seq<CompileOutput>)
    ensures
        builtins_of(outputs).no_duplicates(),
        forall|i: int, k: int|
            0 <= i < outputs.len() && 0 <= k < outputs[i].function.relocations@.len() && (
            #[trigger] outputs[i].function.relocations@[k]).target is Builtin ==> builtins_of(
                outputs,
            ).contains(outputs[i].function.relocations@[k].target->Builtin_0),
    decreases outputs.len(),
{
    if outputs.len() > 0 {
        let rest = outputs.drop_last();
        required_builtins_are_complete(rest);
        lemma_added_builtins(builtins_of(rest), outputs.last().function.relocations@);
        assert forall|i: int, k: int|
            0 <= i < outputs.len() && 0 <= k < outputs[i].function.relocations@.len() && (
            #[trigger] outputs[i].function.relocations@[k]).target is Builtin implies builtins_of(
            outputs,
        ).contains(outputs[i].function.relocations@[k].target->Builtin_0) by {
            let b = outputs[i].function.relocations@[k].target->Builtin_0;
            if i < rest.len() {
                assert(rest[i].function.relocations@[k].target is Builtin);
                assert(builtins_of(rest).contains(b));
            } else {
                assert(outputs.last().function.relocations@[k].target
                    == RelocationTarget::Builtin(b));
            }
        }
    }
}

/// The builtin functions that outputs refer to, each of which needs a trampoline.
pub fn required_builtins(outputs: &Vec<CompileOutput>) -> (r: Vec<BuiltinFunction>)
    ensures
        r@ == builtins_of(outputs@),
{
    let mut seen: Vec<bool> = Vec::new();
    for i in 0..BUILTIN_COUNT
        invariant
            seen@.len() == i,
            forall|k: int| 0 <= k < i ==> !(#[trigger] seen@[k]),
    {
        seen.push(false);
    }
    let mut builtins: Vec<BuiltinFunction> = Vec::new();
    assert(outputs@.take(0) =~= Seq::empty());
    for i in 0..outputs.len()
        invariant
            builtins@ == builtins_of(outputs@.take(i as int)),
            seen@.len() == BUILTIN_COUNT,
            forall|b: BuiltinFunction| #[trigger]
                builtins@.contains(b) <==> seen@[b.spec_index() as int],
    {
        let relocs = &outputs[i].function.relocations;
        let ghost before = builtins@;
        assert(relocs@.take(0) =~= Seq::empty());
        for k in 0..relocs.len()
            invariant
                builtins@ == added_builtins(before, relocs@.take(k as int)),
                seen@.len() == BUILTIN_COUNT,
                forall|b: BuiltinFunction| #[trigger]
                    builtins@.contains(b) <==> seen@[b.spec_index() as int],
        {
            assert(relocs@.take(k + 1).drop_last() =~= relocs@.take(k as int));
            assert(relocs@.take(k + 1).last() == relocs@[k as int]);
            if let RelocationTarget::Builtin(b) = relocs[k].target {
                let index: usize = b.index() as usize;
                if !seen[index] {
                    let ghost listed = builtins@;
                    let ghost marked = seen@;
                    seen.set(index, true);
                    builtins.push(b);
                    proof {
                        assert forall|c: BuiltinFunction| #[trigger]
                            builtins@.contains(c) <==> seen@[c.spec_index() as int] by {
                            crate::builtins::positions_are_distinct(b, c);
                            if c == b {
                                assert(builtins@[listed.len() as int] == c);
                            } else if listed.contains(c) {
                                assert(builtins@[listed.index_of(c)] == c);
                            } else if builtins@.contains(c) {
                                assert(listed[builtins@.index_of(c)] == c);
                            }
                        }
                    }
                }
            }
        }
        assert(relocs@.take(relocs@.len() as int) =~= relocs@);
        assert(outputs@.take(i + 1).drop_last() =~= outputs@.take(i as int));
        assert(outputs@.take(i + 1).last() == outputs@[i as int]);
    }
    assert(outputs@.take(outputs@.len() as int) =~= outputs@);
    builtins
}

} // verus!
