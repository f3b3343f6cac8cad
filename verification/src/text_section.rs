//! The text section that compiled functions are placed in.
use vstd::prelude::*;

verus! {

/// The machines that code is placed for.
#[derive(Debug, Clone, Copy, PartialEq, Eq, Structural)]
pub enum TextTarget {
    X86_64,
    Riscv64,
}

/// How a call refers to its target.
#[derive(Debug, Clone, Copy, PartialEq, Eq, Structural)]
pub enum RelocKind {
    /// A 32-bit distance, counted from the end of the field.
    X86CallPcRel4,
    /// An `auipc` and a `jalr` instruction.
    RiscvCallPlt,
}

impl RelocKind {
    /// The number of bytes of a reference.
    pub open spec fn spec_size(self) -> int {
        match self {
            RelocKind::X86CallPcRel4 => 4,
            RelocKind::RiscvCallPlt => 8,
        }
    }
}

/// Whether a machine knows how to resolve a reference.
pub open spec fn resolvable(target: TextTarget, kind: RelocKind, addend: i64) -> bool {
    match target {
        TextTarget::X86_64 => kind is X86CallPcRel4 && addend == -4,
        TextTarget::Riscv64 => kind is RiscvCallPlt,
    }
}

/// A reference in the text to a function.
#[derive(Debug, Clone, Copy, PartialEq, Eq, Structural)]
pub struct Fixup {
    pub offset: u64,
    pub kind: RelocKind,
    pub function: usize,
}

impl Fixup {
    /// Whether a reference takes up a byte of the text.
    pub open spec fn covers(self, pos: int) -> bool {
        self.offset <= pos < self.offset + self.kind.spec_size()
    }

    /// The bytes of a reference.
    pub open spec fn bytes_in(self, text: Seq<u8>) -> Seq<u8> {
        text.subrange(self.offset as int, self.offset + self.kind.spec_size())
    }

    /// How far a reference lies before the function that it refers to.
    pub open spec fn distance(self, functions: Seq<(int, Seq<u8>)>) -> int {
        functions[self.function as int].0 - self.offset
    }
}

/// The largest size of a text section: every function reaches every other.
pub const MAX_TEXT_SIZE: u64 = 0x7fff_0000;

/// Whether a number is an alignment: a power of two.
pub open spec fn is_alignment(align: u32) -> bool {
    exists|n: nat| n < 32 && align == #[trigger] vstd::arithmetic::power2::pow2(n)
}

/// The least multiple of an alignment that is not below a position.
pub open spec fn aligned_up(pos: int, align: int) -> int {
    (pos + align - 1) / align * align
}

/// Where the last of a list of placed functions ends.
pub open spec fn section_end(functions: Seq<(int, Seq<u8>)>) -> int {
    if functions.len() == 0 {
        0
    } else {
        functions.last().0 + functions.last().1.len()
    }
}

/// The bytes of placed functions, with zeros between them, before references are resolved.
pub open spec fn section_bytes(functions: Seq<(int, Seq<u8>)>) -> Seq<u8>
    decreases functions.len(),
{
    if functions.len() == 0 {
        Seq::empty()
    } else {
        let before = section_bytes(functions.drop_last());
        before + Seq::new((functions.last().0 - before.len()) as nat, |i: int| 0u8)
            + functions.last().1
    }
}

/// What the 8 bytes of an `auipc` and a `jalr` instruction become when they are made to reach over
/// a distance: the distance is a multiple of 4096, which goes into the upper 20 bits of the first
/// instruction, and a signed number of 12 bits, which goes into the upper 12 bits of the second. The
/// codes of the instructions, for the register that is always zero, are set too.
pub open spec fn riscv_call_patched(before: Seq<u8>, distance: int) -> Seq<u8> {
    let low = (distance + 2048) % 4096 - 2048;
    let high = (distance - low) / 4096;
    let first = vstd::bytes::spec_u32_from_le_bytes(before.take(4)) | 0x17u32 | ((high % 0x10_0000)
        * 0x1000) as u32;
    let second = vstd::bytes::spec_u32_from_le_bytes(before.skip(4)) | 0x67u32 | ((low % 0x1000)
        * 0x10_0000) as u32;
    vstd::bytes::spec_u32_to_le_bytes(first) + vstd::bytes::spec_u32_to_le_bytes(second)
}

/// What the 4 bytes of a distance become when it is made to reach over a distance from its start:
/// it counts from its end, and what it held is added.
pub open spec fn x86_call_patched(before: Seq<u8>, distance: int) -> Seq<u8> {
    vstd::bytes::spec_u32_to_le_bytes(
        ((distance + vstd::bytes::spec_u32_from_le_bytes(before) - 4) % 0x1_0000_0000) as u32,
    )
}

/// What the bytes of a reference become when it is resolved.
pub open spec fn call_patched(kind: RelocKind, before: Seq<u8>, distance: int) -> Seq<u8> {
    match kind {
        RelocKind::X86CallPcRel4 => x86_call_patched(before, distance),
        RelocKind::RiscvCallPlt => riscv_call_patched(before, distance),
    }
}

/// Whether a text holds the placed functions, with references resolved: a byte that no reference
/// takes up is that of its function, or zero between functions, and a reference that shares no byte
/// with another one reaches its function.
pub open spec fn is_text(text: Seq<u8>, functions: Seq<(int, Seq<u8>)>, fixups: Seq<Fixup>) -> bool {
    &&& text.len() == section_end(functions)
    &&& forall|p: int|
        0 <= p < text.len() && untouched(fixups, p) ==> #[trigger] text[p] == section_bytes(
            functions,
        )[p]
    &&& forall|k: int|
        0 <= k < fixups.len() && alone(fixups, k) ==> (#[trigger] fixups[k]).bytes_in(text)
            == call_patched(
            fixups[k].kind,
            fixups[k].bytes_in(section_bytes(functions)),
            fixups[k].distance(functions),
        )
}

/// Whether no reference takes up a byte of the text.
pub open spec fn untouched(fixups: Seq<Fixup>, pos: int) -> bool {
    forall|k: int| 0 <= k < fixups.len() ==> !(#[trigger] fixups[k]).covers(pos)
}

/// Whether a reference shares no byte with another one.
pub open spec fn alone(fixups: Seq<Fixup>, k: int) -> bool {
    forall|j: int, p: int|
        0 <= j < fixups.len() && j != k && #[trigger] fixups[j].covers(p) ==> !fixups[k].covers(p)
}

/// A text section under construction.
#[verifier::external_body]
pub struct TextSection {
    builder: Box<dyn cranelift_codegen::TextSectionBuilder>,
    control: cranelift_codegen::control::ControlPlane,
}

/// The machine that a text section is for.
pub uninterp spec fn text_section_target(section: TextSection) -> TextTarget;

/// The number of functions that a text section was made for.
pub uninterp spec fn text_section_capacity(section: TextSection) -> nat;

/// The functions of a text section in order, each with its offset.
pub uninterp spec fn text_section_functions(section: TextSection) -> Seq<(int, Seq<u8>)>;

/// The references that a text section will resolve.
pub uninterp spec fn text_section_fixups(section: TextSection) -> Seq<Fixup>;

impl TextSection {
    /// Calls `cranelift_codegen::isa::TargetIsa::text_section_builder` of the machine's default
    /// configuration, whose result holds no function and no reference, and expects as many
    /// functions as it is told.
    #[verifier::external_body]
    pub(crate) fn new(target: TextTarget, functions: usize) -> (r: TextSection)
        requires
            functions <= u32::MAX,
        ensures
            text_section_target(r) == target,
            text_section_capacity(r) == functions,
            (text_section_functions(r) == Seq::<(int, Seq<u8>)>::empty()),
            (text_section_fixups(r) == Seq::<Fixup>::empty()),
    {
        let name = match target {
            TextTarget::X86_64 => "x86_64",
            TextTarget::Riscv64 => "riscv64gc",
        };
        let flags = cranelift_codegen::settings::builder();
        let flags = cranelift_codegen::settings::Flags::new(flags);
        let isa = cranelift_codegen::isa::lookup_by_name(name).unwrap().finish(flags).unwrap();
        TextSection {
            builder: isa.text_section_builder(functions),
            control: cranelift_codegen::control::ControlPlane::default(),
        }
    }

    /// Calls `cranelift_codegen::TextSectionBuilder::append` for a labelled function, which places
    /// the function behind the others, at the next multiple of its alignment, and gives its offset.
    /// While the section stays below the largest size, nothing is put between functions but zeros.
    #[verifier::external_body]
    pub(crate) fn append(&mut self, body: &Vec<u8>, align: u32) -> (r: u64)
        requires
            is_alignment(align),
            text_section_functions(*old(self)).len() < text_section_capacity(*old(self)),
            section_end(text_section_functions(*old(self))) + align + body@.len() + 8
                * text_section_fixups(*old(self)).len() <= MAX_TEXT_SIZE,
        ensures
            r == aligned_up(section_end(text_section_functions(*old(self))), align as int),
            text_section_functions(*final(self)) == text_section_functions(*old(self)).push(
                (r as int, body@),
            ),
            text_section_fixups(*final(self)) == text_section_fixups(*old(self)),
            text_section_target(*final(self)) == text_section_target(*old(self)),
            text_section_capacity(*final(self)) == text_section_capacity(*old(self)),
    {
        self.builder.append(true, body, align, &mut self.control)
    }

    /// Calls `cranelift_codegen::TextSectionBuilder::resolve_reloc`, which notes a reference to a
    /// labelled function, to be resolved when the section is finished, unless the machine does not
    /// know the kind of reference.
    #[verifier::external_body]
    pub(crate) fn resolve_reloc(
        &mut self,
        offset: u64,
        kind: RelocKind,
        addend: i64,
        function: usize,
    ) -> (r: bool)
        requires
            function < text_section_capacity(*old(self)),
            offset + kind.spec_size() <= section_end(text_section_functions(*old(self)))
                <= MAX_TEXT_SIZE,
            kind is RiscvCallPlt ==> offset % 2 == 0,
        ensures
            r == resolvable(text_section_target(*old(self)), kind, addend),
            text_section_fixups(*final(self)) == (if r {
                text_section_fixups(*old(self)).push(Fixup { offset, kind, function })
            } else {
                text_section_fixups(*old(self))
            }),
            text_section_functions(*final(self)) == text_section_functions(*old(self)),
            text_section_target(*final(self)) == text_section_target(*old(self)),
            text_section_capacity(*final(self)) == text_section_capacity(*old(self)),
    {
        let reloc = match kind {
            RelocKind::X86CallPcRel4 => cranelift_codegen::binemit::Reloc::X86CallPCRel4,
            RelocKind::RiscvCallPlt => cranelift_codegen::binemit::Reloc::RiscvCallPlt,
        };
        self.builder.resolve_reloc(offset, reloc, addend, function)
    }

    /// Calls `cranelift_codegen::TextSectionBuilder::finish`, which resolves all references and
    /// gives the bytes of the section. A reference shares its bytes with no other one for the bytes
    /// to be told.
    #[verifier::external_body]
    pub(crate) fn finish(self) -> (r: Vec<u8>)
        requires
            text_section_functions(self).len() == text_section_capacity(self),
            section_end(text_section_functions(self)) <= MAX_TEXT_SIZE,
            text_section_target(self) is Riscv64 ==> forall|i: int|
                0 <= i < text_section_functions(self).len()
                    ==> (#[trigger] text_section_functions(self)[i]).0 % 2 == 0,
        ensures
            is_text(r@, text_section_functions(self), text_section_fixups(self)),
    {
        let mut section = self;
        section.builder.finish(&mut section.control)
    }
}

} // verus!
