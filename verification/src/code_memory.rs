//! The text of a module in memory, with its traps and its functions.
use crate::compile::{CompiledFunctionInfo, FunctionLoc};
use crate::indices::ModuleInternedTypeIndex;
use crate::ir::TrapCode;
use vstd::prelude::*;

verus! {

/// The text of a module.
pub struct CodeMemory {
    base: usize,
    len: usize,
    published: bool,
    trap_offsets: Vec<u32>,
    traps: Vec<TrapCode>,
    wasm_to_host_trampolines: Vec<(ModuleInternedTypeIndex, FunctionLoc)>,
    function_info: Vec<CompiledFunctionInfo>,
}

/// What is known of a text.
#[verifier::ext_equal]
pub struct CodeModel {
    pub base: usize,
    pub len: usize,
    pub published: bool,
    pub trap_offsets: Seq<u32>,
    pub traps: Seq<TrapCode>,
    pub trampolines: Seq<(ModuleInternedTypeIndex, FunctionLoc)>,
    pub function_info: Seq<CompiledFunctionInfo>,
}

impl View for CodeMemory {
    type V = CodeModel;

    closed spec fn view(&self) -> CodeModel {
        CodeModel {
            base: self.base,
            len: self.len,
            published: self.published,
            trap_offsets: self.trap_offsets@,
            traps: self.traps@,
            trampolines: self.wasm_to_host_trampolines@,
            function_info: self.function_info@,
        }
    }
}

/// What is found at an offset: a trap of that offset, if there is one.
pub open spec fn trap_found(
    offsets: Seq<u32>,
    traps: Seq<TrapCode>,
    offset: u32,
    r: Option<TrapCode>,
) -> bool {
    match r {
        Some(trap) => exists|i: int|
            0 <= i < offsets.len() && #[trigger] offsets[i] == offset && traps[i] == trap,
        None => !offsets.contains(offset),
    }
}

/// Where offsets are all different, every trap is found at its offset.
pub proof fn traps_are_found(
    offsets: Seq<u32>,
    traps: Seq<TrapCode>,
    i: int,
    r: Option<TrapCode>,
)
    requires
        offsets.no_duplicates(),
        0 <= i < offsets.len(),
        trap_found(offsets, traps, offsets[i], r),
    ensures
        r == Some(traps[i]),
{
    assert(offsets.contains(offsets[i]));
}

impl CodeModel {
    /// The text lies in the address space, and what is searched is in order.
    pub open spec fn wf(self) -> bool {
        &&& self.base + self.len <= usize::MAX
        &&& self.trap_offsets.len() == self.traps.len()
        &&& crate::link::in_order(self.trap_offsets)
        &&& forall|i: int, j: int|
            0 <= i < j < self.trampolines.len() ==> (#[trigger] self.trampolines[i]).0.0 < (
            #[trigger] self.trampolines[j]).0.0
    }

    /// Whether a function lies in the text.
    pub open spec fn holds(self, loc: FunctionLoc) -> bool {
        loc.start + loc.length <= self.len
    }
}

impl CodeMemory {
    /// The text at an address, not published yet.
    pub fn new(
        base: usize,
        len: usize,
        trap_offsets: Vec<u32>,
        traps: Vec<TrapCode>,
        wasm_to_host_trampolines: Vec<(ModuleInternedTypeIndex, FunctionLoc)>,
        function_info: Vec<CompiledFunctionInfo>,
    ) -> (r: Self)
        ensures
            r@ == (CodeModel {
                base,
                len,
                published: false,
                trap_offsets: trap_offsets@,
                traps: traps@,
                trampolines: wasm_to_host_trampolines@,
                function_info: function_info@,
            }),
    {
        CodeMemory {
            base,
            len,
            published: false,
            trap_offsets,
            traps,
            wasm_to_host_trampolines,
            function_info,
        }
    }

    /// Marks the text as published; tells whether there is anything to make executable.
    pub fn publish(&mut self) -> (r: bool)
        requires
            !old(self)@.published,
        ensures
            final(self)@ == (CodeModel { published: true, ..old(self)@ }),
            r == (old(self)@.len != 0),
    {
        self.published = true;
        self.len != 0
    }

    /// The first address of the text, and the first behind it.
    pub fn text_range(&self) -> (r: (usize, usize))
        requires
            self@.wf(),
        ensures
            r == (self@.base, (self@.base + self@.len) as usize),
    {
        (self.base, self.base + self.len)
    }

    /// The address of a function.
    pub fn resolve_function_loc(&self, func_loc: FunctionLoc) -> (r: usize)
        requires
            self@.wf(),
            self@.holds(func_loc),
        ensures
            r == self@.base + func_loc.start,
    {
        self.base + func_loc.start as usize
    }

    /// The trap at an offset in the text.
    pub fn lookup_trap_code(&self, text_offset: usize) -> (r: Option<TrapCode>)
        requires
            self@.wf(),
            text_offset <= u32::MAX,
        ensures
            trap_found(self@.trap_offsets, self@.traps, text_offset as u32, r),
    {
        let wanted: u32 = text_offset as u32;
        let mut lo: usize = 0;
        let mut hi: usize = self.trap_offsets.len();
        while lo < hi
            invariant
                self@.wf(),
                lo <= hi <= self.trap_offsets@.len(),
                forall|i: int| 0 <= i < lo ==> #[trigger] self.trap_offsets@[i] < wanted,
                forall|i: int|
                    hi <= i < self.trap_offsets@.len() ==> wanted < #[trigger] self.trap_offsets@[i],
                wanted == text_offset as u32,
            decreases hi - lo,
        {
            let mid: usize = lo + (hi - lo) / 2;
            let here: u32 = self.trap_offsets[mid];
            if here == wanted {
                return Some(self.traps[mid]);
            } else if here < wanted {
                assert forall|i: int| 0 <= i < mid + 1 implies #[trigger] self.trap_offsets@[i]
                    < wanted by {
                    assert(self@.trap_offsets[i] <= self@.trap_offsets[mid as int]);
                }
                lo = mid + 1;
            } else {
                assert forall|i: int| mid <= i < self.trap_offsets@.len() implies wanted
                    < #[trigger] self.trap_offsets@[i] by {
                    assert(self@.trap_offsets[mid as int] <= self@.trap_offsets[i]);
                }
                hi = mid;
            }
        }
        None
    }

    /// Where the functions of the module are located.
    pub fn function_info(&self) -> (r: &Vec<CompiledFunctionInfo>)
        ensures
            r@ == self@.function_info,
    {
        &self.function_info
    }

    /// The address of the trampoline through which functions of a type call the host. There must
    /// be one.
    pub fn wasm_to_host_trampoline(&self, sig: ModuleInternedTypeIndex) -> (r: usize)
        requires
            self@.wf(),
            exists|i: int|
                0 <= i < self@.trampolines.len() && (#[trigger] self@.trampolines[i]).0 == sig,
            forall|i: int|
                0 <= i < self@.trampolines.len() ==> self@.holds(
                    (#[trigger] self@.trampolines[i]).1,
                ),
        ensures
            exists|i: int|
                0 <= i < self@.trampolines.len() && (#[trigger] self@.trampolines[i]).0 == sig && r
                    == self@.base + self@.trampolines[i].1.start,
    {
        let ghost trampolines = self@.trampolines;
        let ghost at = choose|i: int|
            0 <= i < trampolines.len() && (#[trigger] trampolines[i]).0 == sig;
        let mut lo: usize = 0;
        let mut hi: usize = self.wasm_to_host_trampolines.len();
        while lo < hi
            invariant
                self@.wf(),
                trampolines == self@.trampolines,
                trampolines == self.wasm_to_host_trampolines@,
                lo <= at < hi <= trampolines.len(),
                trampolines[at].0 == sig,
                forall|i: int|
                    0 <= i < trampolines.len() ==> self@.holds((#[trigger] trampolines[i]).1),
            decreases hi - lo,
        {
            let mid: usize = lo + (hi - lo) / 2;
            let (here, loc) = self.wasm_to_host_trampolines[mid];
            assert(trampolines[mid as int] == (here, loc));
            if here.as_u32() == sig.as_u32() {
                return self.resolve_function_loc(loc);
            } else if here.as_u32() < sig.as_u32() {
                lo = mid + 1;
            } else {
                hi = mid;
            }
        }
        assert(false);
        0
    }
}

} // verus!
