//! Activations of guests, and the traps that end them.
use crate::code_memory::CodeMemory;
use crate::code_registry::{lookup_code, CodeRegistry};
use crate::func::TrapReason;
use crate::ir::TrapCode;
use crate::runtime::vmcontext::OwnedVMContext;
use crate::vmoffsets::StaticVMOffsets;
use vstd::prelude::*;

verus! {

/// A trap that ended an activation, with the return addresses on the guest's stack.
pub struct Trap {
    pub reason: TrapReason,
    pub backtrace: Option<Vec<usize>>,
}

/// An activation of a guest: what its context held about the activation before.
#[derive(Debug, Clone, Copy, PartialEq, Eq, Structural)]
pub struct CallThreadState {
    pub old_last_wasm_exit_fp: u64,
    pub old_last_wasm_exit_pc: u64,
    pub old_last_wasm_entry_fp: u64,
    /// The position of the activation before.
    pub prev: Option<usize>,
}

/// The number of bytes of the fields of a context that belong to no array.
pub const STATIC_SIZE: u64 = 56;

/// Where a context holds the frame and the address that a guest was left at, and the frame that it
/// was entered from.
pub open spec fn saved_words(mem: Seq<u8>) -> Seq<u64> {
    seq![
        crate::runtime::vmcontext::word_at(mem, 32),
        crate::runtime::vmcontext::word_at(mem, 40),
        crate::runtime::vmcontext::word_at(mem, 48),
    ]
}

impl CallThreadState {
    /// The words that were saved.
    pub open spec fn words(self) -> Seq<u64> {
        seq![
            self.old_last_wasm_exit_fp,
            self.old_last_wasm_exit_pc,
            self.old_last_wasm_entry_fp,
        ]
    }

    /// A new activation, that no other one follows yet: saves what the context holds.
    pub fn new(vmctx: &OwnedVMContext, offsets: StaticVMOffsets) -> (r: Self)
        requires
            offsets.ptr_size == 8,
            vmctx@.len() >= STATIC_SIZE,
        ensures
            r.words() == saved_words(vmctx@),
            r.prev is None,
    {
        CallThreadState {
            old_last_wasm_exit_fp: vmctx.word(offsets.vmctx_last_wasm_exit_fp() as u32),
            old_last_wasm_exit_pc: vmctx.word(offsets.vmctx_last_wasm_exit_pc() as u32),
            old_last_wasm_entry_fp: vmctx.word(offsets.vmctx_last_wasm_entry_fp() as u32),
            prev: None,
        }
    }

    /// The position of the activation before.
    pub fn prev(&self) -> (r: Option<usize>)
        ensures
            r == self.prev,
    {
        self.prev
    }

    /// Ends the activation: the context holds again what it held before.
    pub fn restore(&self, vmctx: &mut OwnedVMContext, offsets: StaticVMOffsets)
        requires
            offsets.ptr_size == 8,
            old(vmctx)@.len() >= STATIC_SIZE,
            old(vmctx)@.len() <= u32::MAX,
        ensures
            saved_words(final(vmctx)@) == self.words(),
            crate::runtime::vmcontext::same_outside(old(vmctx)@, final(vmctx)@, 32, 24),
            final(vmctx).spec_base() == old(vmctx).spec_base(),
    {
        let words: Vec<u64> = vec![
            self.old_last_wasm_exit_fp,
            self.old_last_wasm_exit_pc,
            self.old_last_wasm_entry_fp,
        ];
        assert(words@ =~= self.words());
        vmctx.set_words(offsets.vmctx_last_wasm_exit_fp() as u32, &words);
        proof {
            let w = words@;
            assert(w[0] == crate::runtime::vmcontext::word_at(vmctx@, 32));
            assert(w[1] == crate::runtime::vmcontext::word_at(vmctx@, 40));
            assert(w[2] == crate::runtime::vmcontext::word_at(vmctx@, 48));
            assert(saved_words(vmctx@) =~= self.words());
        }
    }
}

/// Equal words are equal bytes.
proof fn lemma_equal_words(a: Seq<u8>, b: Seq<u8>, at: int)
    requires
        0 <= at,
        at + 8 <= a.len() == b.len(),
        crate::runtime::vmcontext::word_at(a, at) == crate::runtime::vmcontext::word_at(b, at),
    ensures
        a.subrange(at, at + 8) == b.subrange(at, at + 8),
{
    vstd::bytes::lemma_auto_spec_u64_to_from_le_bytes();
    let (x, y) = (a.subrange(at, at + 8), b.subrange(at, at + 8));
    assert(vstd::bytes::spec_u64_to_le_bytes(vstd::bytes::spec_u64_from_le_bytes(x)) == x);
    assert(vstd::bytes::spec_u64_to_le_bytes(vstd::bytes::spec_u64_from_le_bytes(y)) == y);
}

/// Whatever a guest leaves in the fields about its activation, ending the activation brings the
/// context back to what it was, if nothing else in it changed.
pub proof fn activations_leave_no_trace(
    before: Seq<u8>,
    during: Seq<u8>,
    after: Seq<u8>,
    state: CallThreadState,
)
    requires
        before.len() >= STATIC_SIZE,
        state.words() == saved_words(before),
        crate::runtime::vmcontext::same_outside(before, during, 32, 24),
        saved_words(after) == state.words(),
        crate::runtime::vmcontext::same_outside(during, after, 32, 24),
    ensures
        after == before,
{
    assert(saved_words(before)[0] == saved_words(after)[0]);
    assert(saved_words(before)[1] == saved_words(after)[1]);
    assert(saved_words(before)[2] == saved_words(after)[2]);
    lemma_equal_words(before, after, 32);
    lemma_equal_words(before, after, 40);
    lemma_equal_words(before, after, 48);
    assert forall|p: int| 0 <= p < before.len() implies before[p] == after[p] by {
        if 32 <= p < 40 {
            assert(before.subrange(32, 40)[p - 32] == after.subrange(32, 40)[p - 32]);
        } else if 40 <= p < 48 {
            assert(before.subrange(40, 48)[p - 40] == after.subrange(40, 48)[p - 40]);
        } else if 48 <= p < 56 {
            assert(before.subrange(48, 56)[p - 48] == after.subrange(48, 56)[p - 48]);
        } else {
            assert(before[p] == during[p]);
        }
    }
    assert(after =~= before);
}

/// The activations of a thread, the current one last.
pub struct Activations {
    states: Vec<CallThreadState>,
}

impl View for Activations {
    type V = Seq<CallThreadState>;

    closed spec fn view(&self) -> Seq<CallThreadState> {
        self.states@
    }
}

/// Whether every activation knows the one before.
pub open spec fn chained(states: Seq<CallThreadState>) -> bool {
    forall|i: int|
        0 <= i < states.len() ==> (#[trigger] states[i]).prev == (if i == 0 {
            None
        } else {
            Some((i - 1) as usize)
        })
}

impl Activations {
    /// No guest is active.
    pub fn new() -> (r: Self)
        ensures
            r@ == Seq::<CallThreadState>::empty(),
            chained(r@),
    {
        Activations { states: Vec::new() }
    }

    /// Whether a guest is active.
    pub fn is_active(&self) -> (r: bool)
        ensures
            r == (self@.len() > 0),
    {
        self.states.len() > 0
    }

    /// Makes an activation the current one. It must not follow another one yet.
    pub fn push(&mut self, state: CallThreadState)
        requires
            chained(old(self)@),
            state.prev is None,
        ensures
            chained(final(self)@),
            final(self)@ == old(self)@.push(
                CallThreadState {
                    prev: if old(self)@.len() == 0 {
                        None
                    } else {
                        Some((old(self)@.len() - 1) as usize)
                    },
                    ..state
                },
            ),
    {
        let n: usize = self.states.len();
        let mut next = state;
        next.prev = if n == 0 {
            None
        } else {
            Some(n - 1)
        };
        self.states.push(next);
    }

    /// Ends the current activation, of which there must be one.
    pub fn pop(&mut self) -> (r: CallThreadState)
        requires
            chained(old(self)@),
            old(self)@.len() > 0,
        ensures
            chained(final(self)@),
            final(self)@ == old(self)@.drop_last(),
            r == (CallThreadState { prev: None, ..old(self)@.last() }),
    {
        match self.states.pop() {
            Some(state) => {
                let mut last = state;
                last.prev = None;
                last
            },
            None => {
                assert(false);
                CallThreadState {
                    old_last_wasm_exit_fp: 0,
                    old_last_wasm_exit_pc: 0,
                    old_last_wasm_entry_fp: 0,
                    prev: None,
                }
            },
        }
    }

    /// The positions of all activations, the current one first, found from each to the one before.
    pub fn iter(&self) -> (r: Vec<usize>)
        requires
            chained(self@),
        ensures
            r@ == Seq::new(self@.len(), |i: int| (self@.len() - 1 - i) as usize),
    {
        let n: usize = self.states.len();
        let mut positions: Vec<usize> = Vec::new();
        let mut state: Option<usize> = if n == 0 {
            None
        } else {
            Some(n - 1)
        };
        while state.is_some()
            invariant
                n == self@.len(),
                n == self.states@.len(),
                chained(self@),
                positions@.len() <= n,
                state == (if positions@.len() == n {
                    None
                } else {
                    Some((n - 1 - positions@.len()) as usize)
                }),
                positions@ == Seq::new(positions@.len(), |i: int| (n - 1 - i) as usize),
            decreases n - positions@.len(),
        {
            let ghost k = positions@.len();
            let at: usize = match state {
                Some(at) => at,
                None => 0,
            };
            positions.push(at);
            assert(self@[at as int].prev == self.states@[at as int].prev);
            state = self.states[at].prev();
            assert(positions@ =~= Seq::new((k + 1) as nat, |i: int| (n - 1 - i) as usize));
        }
        positions
    }
}

/// Ending an activation undoes making it the current one.
pub proof fn popping_undoes_pushing(states: Seq<CallThreadState>, state: CallThreadState)
    ensures
        states.push(state).drop_last() == states,
        states.push(state).last() == state,
{
    assert(states.push(state).drop_last() =~= states);
}

/// What a caller is told when an activation ends: a number other than zero says that a trap ended
/// it.
pub fn caught(ret: i32, unwind: Option<Trap>) -> (r: Result<(), Trap>)
    requires
        ret != 0 ==> unwind is Some,
    ensures
        ret == 0 ==> r is Ok,
        ret != 0 ==> r == Err::<(), Trap>(unwind->0),
{
    if ret == 0 {
        Ok(())
    } else {
        match unwind {
            Some(trap) => Err(trap),
            None => {
                assert(false);
                Ok(())
            },
        }
    }
}

/// The faults that the machine reports.
#[derive(Debug, Clone, Copy, PartialEq, Eq, Structural)]
pub enum Signal {
    Segv,
    Bus,
    Fpe,
    Ill,
}

/// Whether a fault comes with an address.
pub open spec fn has_address(signal: Signal) -> bool {
    signal is Segv || signal is Bus
}

/// The trap at an address, if a guest is active and the address is one of a trapping instruction:
/// then compiled code trapped, and otherwise the fault is not the guest's.
pub fn trap_for_signal(
    signal: Signal,
    pc: usize,
    si_addr: usize,
    activations: &Activations,
    registry: &CodeRegistry,
    codes: &Vec<CodeMemory>,
) -> (r: Option<TrapReason>)
    requires
        registry.wf(),
        forall|i: int| 0 <= i < codes@.len() ==> (#[trigger] codes@[i])@.wf(),
        forall|id: usize, offset: usize| #[trigger]
            crate::code_registry::looked_up(registry@, pc, Some((id, offset))) ==> id < codes@.len()
                && offset <= u32::MAX,
    ensures
        r matches Some(reason) ==> {
            &&& activations@.len() > 0
            &&& exists|id: usize, offset: usize, trap: TrapCode|
                {
                    &&& #[trigger] crate::code_registry::looked_up(
                        registry@,
                        pc,
                        Some((id, offset)),
                    )
                    &&& #[trigger] crate::code_memory::trap_found(
                        codes@[id as int]@.trap_offsets,
                        codes@[id as int]@.traps,
                        offset as u32,
                        Some(trap),
                    )
                    &&& reason == (TrapReason::Jit {
                        pc,
                        faulting_addr: if has_address(signal) {
                            Some(si_addr)
                        } else {
                            None
                        },
                        trap,
                    })
                }
        },
        r is None ==> {
            ||| activations@.len() == 0
            ||| crate::code_registry::looked_up(registry@, pc, None)
            ||| exists|id: usize, offset: usize|
                {
                    &&& #[trigger] crate::code_registry::looked_up(
                        registry@,
                        pc,
                        Some((id, offset)),
                    )
                    &&& crate::code_memory::trap_found(
                        codes@[id as int]@.trap_offsets,
                        codes@[id as int]@.traps,
                        offset as u32,
                        None,
                    )
                }
        },
{
    if !activations.is_active() {
        return None;
    }
    let faulting_addr: Option<usize> = match signal {
        Signal::Segv | Signal::Bus => Some(si_addr),
        _ => None,
    };
    match lookup_code(registry, pc) {
        Some((id, offset)) => {
            assert(crate::code_registry::looked_up(registry@, pc, Some((id, offset))));
            match codes[id].lookup_trap_code(offset) {
                Some(trap) => Some(TrapReason::Jit { pc, faulting_addr, trap }),
                None => None,
            }
        },
        None => None,
    }
}

} // verus!
