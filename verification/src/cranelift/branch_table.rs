//! Translation of branches through a table.
use crate::builder::{Code, FunctionBuilder};
use crate::cranelift::control::canonicalise_then_jump;
use crate::cranelift::env::TranslationEnvironment;
use crate::cranelift::state::{ControlStackFrame, FuncTranslationState, StateModel};
use crate::cranelift::world::World;
use crate::index_map::IndexMap;
use crate::ir::{Block, Op, StepModel, Value};
use vstd::prelude::*;

verus! {

/// The innermost of the constructs that a table branches to.
pub open spec fn min_depth_of(targets: Seq<u32>, default: u32) -> u32
    decreases targets.len(),
{
    if targets.len() == 0 {
        default
    } else {
        let rest = min_depth_of(targets.drop_last(), default);
        if targets.last() < rest {
            targets.last()
        } else {
            rest
        }
    }
}

/// Constructs with branches to the given depths.
pub open spec fn all_branched(control: Seq<ControlStackFrame>, depths: Seq<u32>) -> Seq<
    ControlStackFrame,
>
    decreases depths.len(),
{
    if depths.len() == 0 {
        control
    } else {
        let rest = all_branched(control, depths.drop_last());
        let i = rest.len() - 1 - depths.last();
        rest.update(i, rest[i].branched())
    }
}

/// The block that was created for a depth.
pub open spec fn block_of(sequence: Seq<(u32, Block)>, depth: u32) -> Option<Block>
    decreases sequence.len(),
{
    if sequence.len() == 0 {
        None
    } else if sequence.last().0 == depth {
        Some(sequence.last().1)
    } else {
        block_of(sequence.drop_last(), depth)
    }
}

/// One new block for each depth of a list, however often it occurs: the code, the depths with
/// their blocks in the order of their first occurrence, and the blocks of the list.
pub open spec fn blocks_assigned(code: Code, depths: Seq<u32>) -> (
    Code,
    Seq<(u32, Block)>,
    Seq<Block>,
)
    decreases depths.len(),
{
    if depths.len() == 0 {
        (code, Seq::empty(), Seq::empty())
    } else {
        let (c1, sequence, data) = blocks_assigned(code, depths.drop_last());
        match block_of(sequence, depths.last()) {
            Some(block) => (c1, sequence, data.push(block)),
            None => (
                c1.block_created(),
                sequence.push((depths.last(), c1.next_block())),
                data.push(c1.next_block()),
            ),
        }
    }
}

/// The code of the blocks that lead from a table to their destinations.
pub open spec fn edges_emitted(
    code: Code,
    st: StateModel,
    sequence: Seq<(u32, Block)>,
    args: Seq<Value>,
) -> Code
    decreases sequence.len(),
{
    if sequence.len() == 0 {
        code
    } else {
        let (depth, block) = sequence.last();
        let c1 = edges_emitted(code, st, sequence.drop_last(), args);
        crate::cranelift::control::jumped(
            c1.emitted(Op::SwitchToBlock { block }).emitted(Op::SealBlock { block }),
            st.frame(depth as int).target(),
            args,
        )
    }
}

impl<'a> World<'a> {
    /// Whether a table can be branched through: all its constructs exist, and the values that the
    /// innermost takes are on the stack below the index.
    pub open spec fn table_branchable(self, targets: Seq<u32>, default: u32) -> bool {
        &&& forall|i: int|
            0 <= i < targets.len() ==> #[trigger] targets[i] < self.st.control.len()
        &&& default < self.st.control.len()
        &&& self.branchable(min_depth_of(targets, default), 1)
    }

    /// A branch through a table by the index on top of the stack.
    ///
    /// Without values the table leads to the destinations. With values it leads to blocks of their
    /// own, one for each destination, and these jump on with the values.
    #[verifier::opaque]
    pub open spec fn br_table(self, targets: Seq<u32>, default: u32) -> World<'a> {
        let val = self.st.peek(0);
        let st = self.st.pop(1);
        let n = st.frame(min_depth_of(targets, default) as int).branch_arity() as int;
        if n == 0 {
            World {
                code: self.code.step(
                    StepModel::BrTable {
                        index: val,
                        default: st.frame(default as int).target(),
                        targets: targets.map_values(|d: u32| st.frame(d as int).target()),
                    },
                ),
                st: StateModel {
                    control: all_branched(st.control, targets.push(default)),
                    reachable: false,
                    ..st
                },
                ..self
            }
        } else {
            let (c1, sequence, data) = blocks_assigned(self.code, targets.push(default));
            let c2 = c1.step(
                StepModel::BrTable { index: val, default: data.last(), targets: data.drop_last() },
            );
            World {
                code: edges_emitted(
                    c2,
                    st,
                    sequence,
                    crate::cranelift::state::top(st.stack, n),
                ),
                st: StateModel {
                    control: all_branched(
                        st.control,
                        sequence.map_values(|p: (u32, Block)| p.0),
                    ),
                    reachable: false,
                    ..st.pop(n)
                },
                ..self
            }
        }
    }
}

/// Notes a branch to a depth; returns its target.
fn branch_to(depth: u32, state: &mut FuncTranslationState) -> (r: Block)
    requires
        depth < old(state)@.control.len(),
    ensures
        final(state)@ == old(state)@.branched_at(depth as int),
        r == old(state)@.frame(depth as int).target(),
        old(state).wf() ==> final(state).wf(),
{
    let i: usize = state.control_stack.len() - 1 - depth as usize;
    let mut frame = state.control_stack[i];
    frame.set_branched_to_exit();
    state.control_stack.set(i, frame);
    assert(state@.control =~= old(state)@.branched_at(depth as int).control);
    frame.br_destination()
}

/// Branches only mark constructs; their destinations stay.
proof fn lemma_all_branched(control: Seq<ControlStackFrame>, depths: Seq<u32>)
    requires
        forall|i: int| 0 <= i < depths.len() ==> #[trigger] depths[i] < control.len(),
    ensures
        all_branched(control, depths).len() == control.len(),
        forall|i: int|
            0 <= i < control.len() ==> #[trigger] all_branched(control, depths)[i] == control[i]
                || all_branched(control, depths)[i] == control[i].branched(),
    decreases depths.len(),
{
    if depths.len() > 0 {
        let rest = depths.drop_last();
        assert forall|i: int| 0 <= i < rest.len() implies #[trigger] rest[i] < control.len() by {
            assert(depths[i] < control.len());
        }
        lemma_all_branched(control, rest);
        assert(depths[depths.len() - 1] < control.len());
    }
}

/// The innermost of the constructs that a table branches to.
pub(crate) fn min_depth(targets: &Vec<u32>, default: u32) -> (r: u32)
    ensures
        r == min_depth_of(targets@, default),
{
    let mut min: u32 = default;
    assert(targets@.take(0) =~= Seq::empty());
    for i in 0..targets.len()
        invariant
            min == min_depth_of(targets@.take(i as int), default),
    {
        assert(targets@.take(i + 1).drop_last() =~= targets@.take(i as int));
        if targets[i] < min {
            min = targets[i];
        }
    }
    assert(targets@.take(targets@.len() as int) =~= targets@);
    min
}

/// Notes branches to all depths of a list; returns their targets.
fn branch_to_all(depths: &Vec<u32>, state: &mut FuncTranslationState) -> (r: Vec<Block>)
    requires
        forall|i: int|
            0 <= i < depths@.len() ==> #[trigger] depths@[i] < old(state)@.control.len(),
        old(state).wf(),
    ensures
        final(state).wf(),
        final(state)@ == (StateModel {
            control: all_branched(old(state)@.control, depths@),
            ..old(state)@
        }),
        r@ == depths@.map_values(|d: u32| old(state)@.frame(d as int).target()),
{
    let mut data: Vec<Block> = Vec::new();
    assert(depths@.take(0) =~= Seq::empty());
    for i in 0..depths.len()
        invariant
            forall|k: int|
                0 <= k < depths@.len() ==> #[trigger] depths@[k] < old(state)@.control.len(),
            state.wf(),
            state@ == (StateModel {
                control: all_branched(old(state)@.control, depths@.take(i as int)),
                ..old(state)@
            }),
            data@ == depths@.take(i as int).map_values(
                |d: u32| old(state)@.frame(d as int).target(),
            ),
    {
        proof {
            assert forall|k: int| 0 <= k < i implies #[trigger] depths@.take(i as int)[k]
                < old(state)@.control.len() by {
                assert(depths@[k] < old(state)@.control.len());
            }
            lemma_all_branched(old(state)@.control, depths@.take(i as int));
            assert(depths@.take(i + 1).drop_last() =~= depths@.take(i as int));
            let k = old(state)@.control.len() - 1 - depths@[i as int];
            assert(all_branched(old(state)@.control, depths@.take(i as int))[k]
                == old(state)@.control[k] || all_branched(
                old(state)@.control,
                depths@.take(i as int),
            )[k] == old(state)@.control[k].branched());
        }
        let block = branch_to(depths[i], state);
        data.push(block);
        assert(data@ =~= depths@.take(i + 1).map_values(
            |d: u32| old(state)@.frame(d as int).target(),
        ));
    }
    assert(depths@.take(depths@.len() as int) =~= depths@);
    data
}

/// Creates one block for each depth of a list.
fn assign_blocks(depths: &Vec<u32>, builder: &mut FunctionBuilder) -> (r: (
    Vec<(u32, Block)>,
    Vec<Block>,
))
    ensures
        (final(builder)@, r.0@, r.1@) == blocks_assigned(old(builder)@, depths@),
        final(builder)@.extends(old(builder)@),
        r.1@.len() == depths@.len(),
        forall|i: int| 0 <= i < r.0@.len() ==> depths@.contains((#[trigger] r.0@[i]).0),
{
    let mut sequence: Vec<(u32, Block)> = Vec::new();
    let mut data: Vec<Block> = Vec::new();
    let mut map = IndexMap::new();
    assert(depths@.take(0) =~= Seq::empty());
    for i in 0..depths.len()
        invariant
            (builder@, sequence@, data@) == blocks_assigned(old(builder)@, depths@.take(i as int)),
            builder@.extends(old(builder)@),
            data@.len() == i,
            forall|k: int|
                0 <= k < sequence@.len() ==> depths@.contains((#[trigger] sequence@[k]).0),
            forall|d: u32| #[trigger]
                crate::index_map::index_map_entries(map).dom().contains(d) ==> {
                    &&& crate::index_map::index_map_entries(map)[d] < sequence@.len()
                    &&& block_of(sequence@, d) == Some(
                        sequence@[crate::index_map::index_map_entries(map)[d] as int].1,
                    )
                },
            forall|d: u32|
                !(#[trigger] crate::index_map::index_map_entries(map).dom().contains(d))
                    ==> block_of(sequence@, d) is None,
    {
        let depth: u32 = depths[i];
        let ghost c0 = builder@;
        let ghost before = sequence@;
        proof {
            assert(depths@.take(i + 1).drop_last() =~= depths@.take(i as int));
            assert(depths@.contains(depths@[i as int]));
        }
        match map.get(depth) {
            Some(position) => {
                data.push(sequence[position].1);
            },
            None => {
                let block = builder.create_block();
                map.insert(depth, sequence.len());
                sequence.push((depth, block));
                data.push(block);
                proof {
                    assert(sequence@.drop_last() =~= before);
                    assert(builder@.extends(c0));
                    crate::builder::lemma_extends_trans(old(builder)@, c0, builder@);
                }
            },
        }
    }
    assert(depths@.take(depths@.len() as int) =~= depths@);
    (sequence, data)
}

/// Emits the blocks that lead from a table to their destinations.
fn emit_edges(
    sequence: &Vec<(u32, Block)>,
    args: &Vec<Value>,
    builder: &mut FunctionBuilder,
    state: &mut FuncTranslationState,
)
    requires
        old(state).wf(),
        old(builder)@.has_all(args@),
        forall|i: int|
            0 <= i < sequence@.len() ==> (#[trigger] sequence@[i]).0 < old(state)@.control.len(),
    ensures
        final(state).wf(),
        final(builder)@ == edges_emitted(old(builder)@, old(state)@, sequence@, args@),
        final(state)@ == (StateModel {
            control: all_branched(
                old(state)@.control,
                sequence@.map_values(|p: (u32, Block)| p.0),
            ),
            ..old(state)@
        }),
        final(builder)@.grew(old(builder)@),
{
    assert(sequence@.take(0) =~= Seq::empty());
    assert(sequence@.take(0).map_values(|p: (u32, Block)| p.0) =~= Seq::empty());
    for i in 0..sequence.len()
        invariant
            state.wf(),
            old(builder)@.has_all(args@),
            forall|k: int|
                0 <= k < sequence@.len() ==> (#[trigger] sequence@[k]).0
                    < old(state)@.control.len(),
            builder@.grew(old(builder)@),
            builder@ == edges_emitted(
                old(builder)@,
                old(state)@,
                sequence@.take(i as int),
                args@,
            ),
            state@ == (StateModel {
                control: all_branched(
                    old(state)@.control,
                    sequence@.take(i as int).map_values(|p: (u32, Block)| p.0),
                ),
                ..old(state)@
            }),
    {
        let (depth, dest_block) = sequence[i];
        proof {
            let depths = sequence@.take(i as int).map_values(|p: (u32, Block)| p.0);
            let longer = sequence@.take(i + 1).map_values(|p: (u32, Block)| p.0);
            assert(sequence@.take(i + 1).drop_last() =~= sequence@.take(i as int));
            assert(longer.drop_last() =~= depths);
            assert(longer.last() == depth);
            assert(sequence@[i as int].0 < old(state)@.control.len());
            assert forall|k: int| 0 <= k < depths.len() implies #[trigger] depths[k]
                < old(state)@.control.len() by {
                assert(sequence@[k].0 < old(state)@.control.len());
            }
            lemma_all_branched(old(state)@.control, depths);
            let k = old(state)@.control.len() - 1 - depth;
            assert(all_branched(old(state)@.control, depths)[k] == old(state)@.control[k]
                || all_branched(old(state)@.control, depths)[k]
                == old(state)@.control[k].branched());
        }
        builder.switch_to_block(dest_block);
        builder.seal_block(dest_block);
        let real_dest_block = branch_to(depth, state);
        assert(builder@.has_all(args@));
        canonicalise_then_jump(builder, real_dest_block, args);
    }
    assert(sequence@.take(sequence@.len() as int) =~= sequence@);
}

/// Branches through a table.
pub fn translate_br_table(
    targets: &Vec<u32>,
    default: u32,
    builder: &mut FunctionBuilder,
    state: &mut FuncTranslationState,
    env: &TranslationEnvironment,
)
    requires
        old(state).wf(),
        World::of(old(builder)@, old(state)@, *env).valid(),
        World::of(old(builder)@, old(state)@, *env).table_branchable(targets@, default),
        old(state)@.reachable,
    ensures
        final(state).wf(),
        World::of(final(builder)@, final(state)@, *env) == World::of(
            old(builder)@,
            old(state)@,
            *env,
        ).br_table(targets@, default),
        World::of(final(builder)@, final(state)@, *env).valid(),
{
    proof {
        reveal(World::br_table);
    }
    let ghost w0 = World::of(builder@, state@, *env);
    let min: u32 = min_depth(targets, default);
    let i: usize = state.control_stack.len() - 1 - min as usize;
    let jump_args_count: usize = state.control_stack[i].num_branch_values();
    let val = state.pop1();
    let ghost st = state@;
    let mut depths: Vec<u32> = Vec::new();
    for i in 0..targets.len()
        invariant
            depths@ == targets@.take(i as int),
    {
        depths.push(targets[i]);
        assert(depths@ =~= targets@.take(i + 1));
    }
    assert(targets@.take(targets@.len() as int) =~= targets@);
    depths.push(default);
    assert(depths@ =~= targets@.push(default));
    assert forall|k: int| 0 <= k < depths@.len() implies #[trigger] depths@[k]
        < st.control.len() by {
        if k < targets@.len() {
            assert(targets@[k] < w0.st.control.len());
        }
    }
    if jump_args_count == 0 {
        let mut data = branch_to_all(&depths, state);
        let n: usize = data.len() - 1;
        let default_block = data[n];
        data.pop();
        builder.br_table(val, default_block, data);
        state.reachable = false;
        proof {
            let w1 = World::of(builder@, state@, *env);
            assert(data@ =~= targets@.map_values(|d: u32| st.frame(d as int).target()));
            lemma_all_branched(st.control, depths@);
            crate::builder::lemma_grew_extends(w0.code, w1.code);
            crate::cranelift::world::lemma_branched_frames(w0.code, w0.st, w1.code, w1.st);
            crate::cranelift::world::lemma_valid_with_frames(w0, w1);
        }
    } else {
        let (sequence, mut data) = assign_blocks(&depths, builder);
        let ghost c1 = builder@;
        let n: usize = data.len() - 1;
        let default_block = data[n];
        data.pop();
        builder.br_table(val, default_block, data);
        let ghost c2 = builder@;
        let args = state.peekn(jump_args_count);
        proof {
            assert forall|k: int| 0 <= k < sequence@.len() implies (#[trigger] sequence@[k]).0
                < st.control.len() by {
                assert(depths@.contains(sequence@[k].0));
            }
        }
        emit_edges(&sequence, &args, builder, state);
        state.popn(jump_args_count);
        state.reachable = false;
        proof {
            let w1 = World::of(builder@, state@, *env);
            let reached = sequence@.map_values(|p: (u32, Block)| p.0);
            assert forall|k: int| 0 <= k < reached.len() implies #[trigger] reached[k]
                < st.control.len() by {
                assert(sequence@[k].0 < st.control.len());
            }
            lemma_all_branched(st.control, reached);
            crate::builder::lemma_grew_extends(c1, w1.code);
            crate::builder::lemma_extends_trans(w0.code, c1, w1.code);
            crate::cranelift::world::lemma_branched_frames(w0.code, w0.st, w1.code, w1.st);
            crate::cranelift::world::lemma_valid_with_frames(w0, w1);
        }
    }
}

} // verus!
