//! From what the code generator gives for a function to a compiled function.
use crate::builtins::BUILTIN_COUNT;
use crate::compile::{CompiledFunction, FilePos, Relocation, TrapInfo};
use crate::cranelift::env::{NS_BUILTIN, NS_WASM_FUNC};
use crate::text_section::RelocKind;
use vstd::prelude::*;

verus! {

/// A reference of generated code to what a namespace and an index name.
#[derive(Debug, Clone, Copy, PartialEq, Eq, Structural)]
pub struct MachReloc {
    pub kind: RelocKind,
    pub namespace: u32,
    pub index: u32,
    pub addend: i64,
    pub offset: u32,
}

impl MachReloc {
    /// Whether the reference is to a function of a module or to a builtin function.
    pub open spec fn is_known(self) -> bool {
        ||| self.namespace == NS_WASM_FUNC && self.index < u32::MAX
        ||| self.namespace == NS_BUILTIN && self.index < BUILTIN_COUNT
    }

    /// Whether a reference is this one, with its name resolved.
    pub open spec fn becomes(self, r: Relocation) -> bool {
        &&& r.kind == self.kind
        &&& r.addend == self.addend
        &&& r.offset == self.offset
        &&& crate::compile::is_named(r.target, self.namespace, self.index)
    }
}

/// What the code generator gives for a function.
pub struct MachineCode {
    pub body: Vec<u8>,
    /// The alignment that the code needs.
    pub alignment: u32,
    pub relocations: Vec<MachReloc>,
    pub traps: Vec<TrapInfo>,
}

/// Whether positions in a file can hold the place of a function: its start and its length.
pub open spec fn has_positions(span: Option<(usize, usize)>) -> bool {
    span matches Some((start, length)) ==> start + length <= u32::MAX
}

impl CompiledFunction {
    /// A compiled function: with the larger one of the alignments that the code needs and that the
    /// machine prefers, references to functions by what they are, and the place of the function in
    /// the module, if it has one. There is none if a reference is to something unknown, or if the
    /// place is too far behind.
    pub fn finish(code: MachineCode, preferred_alignment: u32, span: Option<(usize, usize)>) -> (r:
        Option<CompiledFunction>)
        ensures
            r is Some <==> has_positions(span) && forall|i: int|
                0 <= i < code.relocations@.len() ==> (#[trigger] code.relocations@[i]).is_known(),
            r matches Some(f) ==> {
                &&& f.body == code.body
                &&& f.alignment == (if code.alignment >= preferred_alignment {
                    code.alignment
                } else {
                    preferred_alignment
                })
                &&& f.relocations@.len() == code.relocations@.len()
                &&& forall|i: int|
                    0 <= i < code.relocations@.len() ==> (#[trigger] code.relocations@[i]).becomes(
                        f.relocations@[i],
                    )
                &&& f.traps == code.traps
                &&& (match span {
                    Some((start, length)) => f.start_srcloc == FilePos(start as u32)
                        && f.end_srcloc == FilePos((start + length) as u32),
                    None => f.start_srcloc == FilePos(u32::MAX) && f.end_srcloc == FilePos(
                        u32::MAX,
                    ),
                })
            },
    {
        let (start_srcloc, end_srcloc) = match span {
            Some((start, length)) => {
                if start > u32::MAX as usize || length > u32::MAX as usize - start {
                    return None;
                }
                (FilePos::new(start as u32), FilePos::new((start + length) as u32))
            },
            None => (FilePos::default(), FilePos::default()),
        };
        let mut relocations: Vec<Relocation> = Vec::new();
        for i in 0..code.relocations.len()
            invariant
                relocations@.len() == i,
                forall|k: int|
                    0 <= k < i ==> (#[trigger] code.relocations@[k]).is_known()
                        && code.relocations@[k].becomes(relocations@[k]),
        {
            let m = code.relocations[i];
            if !(m.namespace == NS_WASM_FUNC && m.index < u32::MAX || m.namespace == NS_BUILTIN
                && m.index < BUILTIN_COUNT) {
                assert(!code.relocations@[i as int].is_known());
                return None;
            }
            relocations.push(
                Relocation::from_mach_reloc(m.kind, m.namespace, m.index, m.addend, m.offset),
            );
        }
        let alignment: u32 = if code.alignment >= preferred_alignment {
            code.alignment
        } else {
            preferred_alignment
        };
        Some(
            CompiledFunction {
                body: code.body,
                alignment,
                relocations,
                traps: code.traps,
                start_srcloc,
                end_srcloc,
            },
        )
    }
}

} // verus!
