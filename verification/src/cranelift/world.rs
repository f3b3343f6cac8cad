//! Everything that the translation of an operator reads and changes, in one value.
use crate::builder::Code;
use crate::cranelift::env::TranslationEnvironment;
use crate::cranelift::state::{ControlStackFrame, StateModel};
use crate::ir::Block;
use vstd::prelude::*;

verus! {

/// The recorded code, the state of the translation, and the environment.
#[verifier::ext_equal]
pub struct World<'a> {
    pub code: Code,
    pub st: StateModel,
    pub env: TranslationEnvironment<'a>,
}

/// Whether the block behind a construct exists. It does not for constructs in unreachable code.
pub open spec fn live(code: Code, frame: ControlStackFrame) -> bool {
    frame.following().0 < code.blocks.len()
}

/// Whether no code behind a construct is reachable by way of it.
pub open spec fn dead(frame: ControlStackFrame) -> bool {
    match frame {
        ControlStackFrame::If { destination, exit_is_branched_to, head_is_reachable, .. } => {
            destination == Block::spec_reserved_value() && !exit_is_branched_to
                && !head_is_reachable
        },
        ControlStackFrame::Block { destination, exit_is_branched_to, .. } => destination
            == Block::spec_reserved_value() && !exit_is_branched_to,
        ControlStackFrame::Loop { .. } => false,
    }
}

/// Constructs in unreachable code lie inside those in reachable code and are never branched to.
pub open spec fn frames_ok(code: Code, st: StateModel) -> bool {
    &&& forall|i: int|
        0 <= i < st.control.len() ==> (#[trigger] st.control[i]).wf() && (live(
            code,
            st.control[i],
        ) || dead(st.control[i]))
    &&& forall|i: int, j: int|
        0 <= i <= j < st.control.len() && live(code, #[trigger] st.control[j]) ==> live(
            code,
            #[trigger] st.control[i],
        )
    &&& st.reachable && st.control.len() > 0 ==> live(code, st.control.last())
}

/// What has been looked up exists.
pub open spec fn caches_ok(code: Code, st: StateModel) -> bool {
    &&& forall|k: u32| #[trigger]
        st.functions.dom().contains(k) ==> code.has_func(st.functions[k].0)
    &&& forall|k: u32| #[trigger]
        st.signatures.dom().contains(k) ==> code.has_sig(st.signatures[k].0)
    &&& forall|k: u32| #[trigger]
        st.tables.dom().contains(k) ==> st.tables[k].bound <= i64::MAX
}

impl<'a> World<'a> {
    /// The world of three parts.
    pub open spec fn of(code: Code, st: StateModel, env: TranslationEnvironment<'a>) -> World<'a> {
        World { code, st, env }
    }

    /// All values, blocks and lookups exist.
    pub open spec fn valid(self) -> bool {
        &&& self.code.has_all(self.st.stack)
        &&& self.code.blocks_ok()
        &&& self.env.ready(self.code)
        &&& frames_ok(self.code, self.st)
        &&& caches_ok(self.code, self.st)
    }

    /// The same, with the code behind unreachable.
    pub open spec fn cut_off(self) -> World<'a> {
        World { st: StateModel { reachable: false, ..self.st }, ..self }
    }

    /// The same, with a value popped.
    pub open spec fn popped(self, n: int) -> World<'a> {
        World { st: self.st.pop(n), ..self }
    }
}

/// What existed still exists after more code.
pub proof fn lemma_still_valid(before: World, after: World)
    requires
        before.valid(),
        after.code.extends(before.code),
        after.code.has_all(after.st.stack),
        after.env.ready(after.code),
        after.st.control == before.st.control,
        after.st.reachable ==> before.st.reachable,
        after.st.functions == before.st.functions,
        after.st.signatures == before.st.signatures,
        after.st.tables == before.st.tables,
    ensures
        after.valid(),
{
    lemma_frames_still_ok(before.code, before.st, after.code, after.st);
    lemma_caches_still_ok(before.code, before.st, after.code, after.st);
}

/// What existed still exists after more code, with constructs entered or left.
pub proof fn lemma_valid_with_frames(before: World, after: World)
    requires
        before.valid(),
        after.code.extends(before.code),
        after.code.has_all(after.st.stack),
        after.env.ready(after.code),
        frames_ok(after.code, after.st),
        after.st.functions == before.st.functions,
        after.st.signatures == before.st.signatures,
        after.st.tables == before.st.tables,
    ensures
        after.valid(),
{
    lemma_caches_still_ok(before.code, before.st, after.code, after.st);
}

/// All constructs around reachable code are live.
pub proof fn lemma_all_live(code: Code, st: StateModel)
    requires
        frames_ok(code, st),
        st.reachable,
    ensures
        forall|i: int| 0 <= i < st.control.len() ==> live(code, #[trigger] st.control[i]),
{
    assert forall|i: int| 0 <= i < st.control.len() implies live(
        code,
        #[trigger] st.control[i],
    ) by {
        assert(live(code, st.control[st.control.len() - 1]));
    }
}

/// A construct entered in reachable code.
pub proof fn lemma_entered_live(
    code: Code,
    st: StateModel,
    after: Code,
    st_after: StateModel,
    frame: ControlStackFrame,
)
    requires
        frames_ok(code, st),
        st.reachable,
        code.blocks.len() <= after.blocks.len() <= usize::MAX,
        st_after.control == st.control.push(frame),
        frame.wf(),
        live(after, frame),
    ensures
        frames_ok(after, st_after),
{
    lemma_all_live(code, st);
    assert forall|i: int| 0 <= i < st_after.control.len() implies live(
        after,
        #[trigger] st_after.control[i],
    ) && st_after.control[i].wf() by {
        if i < st.control.len() {
            assert(st_after.control[i] == st.control[i]);
        }
    }
}

/// A construct entered in unreachable code.
pub proof fn lemma_entered_dead(
    code: Code,
    st: StateModel,
    st_after: StateModel,
    frame: ControlStackFrame,
)
    requires
        frames_ok(code, st),
        code.blocks.len() <= usize::MAX,
        !st_after.reachable,
        st_after.control == st.control.push(frame),
        frame.wf(),
        dead(frame),
    ensures
        frames_ok(code, st_after),
{
    assert forall|i: int| 0 <= i < st_after.control.len() implies (
    #[trigger] st_after.control[i]).wf() && (live(code, st_after.control[i]) || dead(
        st_after.control[i],
    )) by {
        if i < st.control.len() {
            assert(st_after.control[i] == st.control[i]);
        }
    }
    assert forall|i: int, j: int|
        0 <= i <= j < st_after.control.len() && live(
            code,
            #[trigger] st_after.control[j],
        ) implies live(code, #[trigger] st_after.control[i]) by {
        assert(j < st.control.len());
        assert(st_after.control[j] == st.control[j]);
        assert(st_after.control[i] == st.control[i]);
    }
}

/// Branches to constructs around reachable code.
pub proof fn lemma_branched_frames(
    code: Code,
    st: StateModel,
    after: Code,
    st_after: StateModel,
)
    requires
        frames_ok(code, st),
        st.reachable,
        code.blocks.len() <= after.blocks.len() <= usize::MAX,
        st_after.control.len() == st.control.len(),
        forall|i: int|
            0 <= i < st.control.len() ==> #[trigger] st_after.control[i] == st.control[i]
                || st_after.control[i] == st.control[i].branched(),
    ensures
        frames_ok(after, st_after),
{
    lemma_all_live(code, st);
    assert forall|i: int| 0 <= i < st_after.control.len() implies live(
        after,
        #[trigger] st_after.control[i],
    ) && st_after.control[i].wf() by {
        assert(live(code, st.control[i]));
        assert(st.control[i].wf());
    }
}

/// The innermost construct left, by way of which the code behind may be reachable.
pub proof fn lemma_left(code: Code, st: StateModel, after: Code, st_after: StateModel)
    requires
        frames_ok(code, st),
        st.control.len() > 0,
        code.blocks.len() <= after.blocks.len() <= usize::MAX,
        st_after.control == st.control.drop_last(),
        st_after.reachable ==> live(code, st.control.last()),
    ensures
        frames_ok(after, st_after),
{
    assert forall|i: int| 0 <= i < st_after.control.len() implies (
    #[trigger] st_after.control[i]).wf() && (live(after, st_after.control[i]) || dead(
        st_after.control[i],
    )) by {
        assert(st_after.control[i] == st.control[i]);
    }
    assert forall|i: int, j: int|
        0 <= i <= j < st_after.control.len() && live(
            after,
            #[trigger] st_after.control[j],
        ) implies live(after, #[trigger] st_after.control[i]) by {
        assert(st_after.control[j] == st.control[j]);
        assert(st_after.control[i] == st.control[i]);
        assert(!dead(st.control[j]));
        assert(live(code, st.control[i]));
    }
    if st_after.reachable && st_after.control.len() > 0 {
        let n = st.control.len() as int;
        assert(live(code, st.control[n - 1]));
        assert(live(code, st.control[n - 2]));
        assert(st_after.control.last() == st.control[n - 2]);
    }
}

/// The consequent of the innermost `if` finished.
pub proof fn lemma_finished(
    code: Code,
    st: StateModel,
    after: Code,
    st_after: StateModel,
    reachable: bool,
)
    requires
        frames_ok(code, st),
        st.control.len() > 0,
        code.blocks.len() <= after.blocks.len() <= usize::MAX,
        st_after.control == st.control.update(
            st.control.len() - 1,
            st.control.last().consequent_finished(reachable),
        ),
        st_after.reachable ==> live(code, st.control.last()),
    ensures
        frames_ok(after, st_after),
{
    assert forall|i: int| 0 <= i < st_after.control.len() implies (
    #[trigger] st_after.control[i]).wf() && (live(after, st_after.control[i]) || dead(
        st_after.control[i],
    )) by {
        assert(st.control[i].wf());
    }
    assert forall|i: int, j: int|
        0 <= i <= j < st_after.control.len() && live(
            after,
            #[trigger] st_after.control[j],
        ) implies live(after, #[trigger] st_after.control[i]) by {
        assert(st.control[j].wf());
        assert(!dead(st.control[j]));
        assert(live(code, st.control[j]));
        assert(live(code, st.control[i]));
    }
}

/// Constructs stay in order after more code.
pub proof fn lemma_frames_still_ok(code: Code, st: StateModel, after: Code, st_after: StateModel)
    requires
        frames_ok(code, st),
        code.blocks.len() <= after.blocks.len() <= usize::MAX,
        st_after.control == st.control,
        st_after.reachable ==> st.reachable,
    ensures
        frames_ok(after, st_after),
{
    assert forall|i: int, j: int|
        0 <= i <= j < st_after.control.len() && live(
            after,
            #[trigger] st_after.control[j],
        ) implies live(after, #[trigger] st_after.control[i]) by {
        assert(!dead(st.control[j]));
        assert(live(code, st.control[j]));
        assert(live(code, st.control[i]));
    }
}

/// Lookups stay in order after more code.
pub proof fn lemma_caches_still_ok(code: Code, st: StateModel, after: Code, st_after: StateModel)
    requires
        caches_ok(code, st),
        after.extends(code),
        st_after.functions == st.functions,
        st_after.signatures == st.signatures,
        st_after.tables == st.tables,
    ensures
        caches_ok(after, st_after),
{
    assert forall|k: u32| #[trigger] st_after.functions.dom().contains(k) implies after.has_func(
        st_after.functions[k].0,
    ) by {
        let f = st.functions[k].0;
        assert(code.has_func(f));
        assert(after.funcs[f.0 as int] == code.funcs[f.0 as int]);
    }
}

} // verus!
