//! What a function finds when it begins.
use crate::builder::Code;
use crate::cranelift::bits::lemma_wrap;
use crate::cranelift::constructs::{
    lemma_block_with_params, lemma_block_with_params_passed, lemma_entered,
};
use crate::cranelift::env::TranslationEnvironment;
use crate::cranelift::function_translator::{
    begun, groups_declared, local_declared, locals_declared, num_locals, params_declared, started,
    zero_made,
};
use crate::cranelift::meaning::{
    lemma_run_nothing, lemma_run_step, performed, run, runs, Flow, Machine, Moment,
};
use crate::cranelift::simulation::lemma_defined;
use crate::ir::{AbiParam, Op, StepModel, Type, Value};
use crate::types::WasmValType;
use vstd::arithmetic::power2::lemma_pow2_pos;
use vstd::prelude::*;

verus! {

/// Whether nothing but locals behind the first `n` was given a value.
pub open spec fn locals_kept(s: Moment, t: Moment, n: int) -> bool {
    &&& t.memory == s.memory
    &&& s.values.len() <= t.values.len()
    &&& forall|i: int| 0 <= i < s.values.len() ==> #[trigger] t.values[i] == s.values[i]
    &&& forall|k: u32| k < n ==> #[trigger] t.vars[k] == s.vars[k]
}

/// A local that is declared gets its first value.
proof fn lemma_local(
    m: Machine,
    code: Code,
    ty: Type,
    val: Value,
    from: nat,
    at: Flow,
    s: Moment,
) -> (t: Moment)
    requires
        from <= code.steps.len(),
        run(m, code.steps, from, at) == Flow::On(s),
        runs(s, code),
        code.vars.len() < u32::MAX,
    ensures
        ({
            let after = local_declared(code, ty, val);
            &&& run(m, after.steps, from, at) == Flow::On(t)
            &&& runs(t, after)
            &&& t.values == s.values
            &&& locals_kept(s, t, code.vars.len() as int)
            &&& t.vars[code.vars.len() as u32] == s.at(val)
            &&& after.vars.len() == code.vars.len() + 1
            &&& code.steps.len() <= after.steps.len()
            &&& after.values == code.values
            &&& after.blocks == code.blocks
            &&& after.vmctx_param == code.vmctx_param
        }),
{
    reveal(performed);
    let op = Op::DefVar { var: code.vars.len() as u32, val };
    lemma_run_step(m, code.steps, StepModel::Op(op), from, at);
    Moment { vars: s.vars.insert(code.vars.len() as u32, s.at(val)), ..s }
}

/// The parameters of a function become its first locals.
proof fn lemma_params(
    m: Machine,
    code: Code,
    params: Seq<AbiParam>,
    values: Seq<Value>,
    n: int,
    from: nat,
    at: Flow,
    s: Moment,
) -> (t: Moment)
    requires
        from <= code.steps.len(),
        run(m, code.steps, from, at) == Flow::On(s),
        runs(s, code),
        code.vars.len() == 0,
        n <= params.len() <= u32::MAX,
        2 <= n,
    ensures
        ({
            let after = params_declared(code, params, values, n);
            &&& run(m, after.steps, from, at) == Flow::On(t)
            &&& runs(t, after)
            &&& t.values == s.values
            &&& t.memory == s.memory
            &&& forall|k: u32| k < n - 2 ==> #[trigger] t.vars[k] == s.at(values[k + 2])
            &&& after.vars.len() == n - 2
            &&& code.steps.len() <= after.steps.len()
            &&& after.values == code.values
            &&& after.blocks == code.blocks
            &&& after.vmctx_param == code.vmctx_param
        }),
    decreases n,
{
    if n == 2 {
        s
    } else {
        let s1 = lemma_params(m, code, params, values, n - 1, from, at, s);
        let c1 = params_declared(code, params, values, n - 1);
        let t = lemma_local(m, c1, params[n - 1].ty, values[n - 1], from, at, s1);
        assert forall|k: u32| k < n - 2 implies #[trigger] t.vars[k] == s.at(values[k + 2]) by {
            if k < n - 3 {
                assert(t.vars[k] == s1.vars[k]);
            } else {
                assert(k == c1.vars.len() as u32);
            }
        }
        t
    }
}

/// Locals of one type get one first value.
proof fn lemma_locals(
    m: Machine,
    code: Code,
    ty: Type,
    val: Value,
    n: nat,
    from: nat,
    at: Flow,
    s: Moment,
) -> (t: Moment)
    requires
        from <= code.steps.len(),
        run(m, code.steps, from, at) == Flow::On(s),
        runs(s, code),
        code.vars.len() + n <= u32::MAX,
    ensures
        ({
            let after = locals_declared(code, ty, val, n);
            &&& run(m, after.steps, from, at) == Flow::On(t)
            &&& runs(t, after)
            &&& t.values == s.values
            &&& locals_kept(s, t, code.vars.len() as int)
            &&& forall|k: u32|
                code.vars.len() <= k < code.vars.len() + n ==> #[trigger] t.vars[k] == s.at(val)
            &&& after.vars.len() == code.vars.len() + n
            &&& code.steps.len() <= after.steps.len()
            &&& after.values == code.values
            &&& after.blocks == code.blocks
            &&& after.vmctx_param == code.vmctx_param
        }),
    decreases n,
{
    if n == 0 {
        s
    } else {
        let s1 = lemma_locals(m, code, ty, val, (n - 1) as nat, from, at, s);
        let c1 = locals_declared(code, ty, val, (n - 1) as nat);
        let t = lemma_local(m, c1, ty, val, from, at, s1);
        assert forall|k: u32|
            code.vars.len() <= k < code.vars.len() + n implies #[trigger] t.vars[k]
            == s.at(val) by {
            if k < code.vars.len() + n - 1 {
                assert(t.vars[k] == s1.vars[k]);
            } else {
                assert(k == c1.vars.len() as u32);
            }
        }
        assert forall|k: u32| k < code.vars.len() implies #[trigger] t.vars[k] == s.vars[k] by {
            assert(t.vars[k] == s1.vars[k]);
        }
        t
    }
}

/// The first value of a local is zero.
proof fn lemma_zero(m: Machine, code: Code, ty: Type, from: nat, at: Flow, s: Moment)
    requires
        from <= code.steps.len(),
        run(m, code.steps, from, at) == Flow::On(s),
        runs(s, code),
        code.values.len() < usize::MAX,
    ensures
        run(m, zero_made(code, ty).steps, from, at) == Flow::On(s.with(ty, 0)),
        runs(s.with(ty, 0), zero_made(code, ty)),
{
    reveal(performed);
    lemma_wrap(ty.width(), 0);
    lemma_pow2_pos(ty.width());
    let op = match ty {
        Type::F32 => Op::F32const { bits: 0 },
        Type::F64 => Op::F64const { bits: 0 },
        Type::I8X16 => Op::Vconst { ty, bytes: 0 },
        _ => Op::Iconst { ty, imm: 0 },
    };
    lemma_defined(m, code, op, ty, from, at, s, 0);
}

/// The locals of groups are zero.
proof fn lemma_groups(
    m: Machine,
    code: Code,
    groups: Seq<(u32, WasmValType)>,
    pointer_type: Type,
    from: nat,
    at: Flow,
    s: Moment,
) -> (t: Moment)
    requires
        from <= code.steps.len(),
        run(m, code.steps, from, at) == Flow::On(s),
        runs(s, code),
        code.values.len() + groups.len() <= usize::MAX,
        code.vars.len() + num_locals(groups) <= u32::MAX,
    ensures
        ({
            let after = groups_declared(code, groups, pointer_type);
            let first = code.vars.len() as int;
            &&& run(m, after.steps, from, at) == Flow::On(t)
            &&& runs(t, after)
            &&& locals_kept(s, t, first)
            &&& forall|k: u32|
                first <= k < first + num_locals(groups) ==> (#[trigger] t.vars[k]).bits == 0
            &&& after.vars.len() == first + num_locals(groups)
            &&& code.steps.len() <= after.steps.len()
            &&& after.values.len() == code.values.len() + groups.len()
            &&& after.blocks == code.blocks
            &&& after.vmctx_param == code.vmctx_param
        }),
    decreases groups.len(),
{
    if groups.len() == 0 {
        s
    } else {
        let rest = groups.drop_last();
        let s1 = lemma_groups(m, code, rest, pointer_type, from, at, s);
        let c1 = groups_declared(code, rest, pointer_type);
        let ty = crate::cranelift::env::value_type_of(groups.last().1, pointer_type);
        lemma_zero(m, c1, ty, from, at, s1);
        let c2 = zero_made(c1, ty);
        let s2 = s1.with(ty, 0);
        let v = c1.next_value();
        let n = groups.last().0 as nat;
        let t = lemma_locals(m, c2, ty, v, n, from, at, s2);
        let first = code.vars.len() as int;
        assert(s2.bits(v) == 0);
        assert forall|k: u32| first <= k < first + num_locals(groups) implies (
        #[trigger] t.vars[k]).bits == 0 by {
            if k < first + num_locals(rest) {
                assert(t.vars[k] == s2.vars[k]);
                assert(s1.vars[k].bits == 0);
            }
        }
        assert forall|k: u32| k < first implies #[trigger] t.vars[k] == s.vars[k] by {
            assert(t.vars[k] == s2.vars[k]);
            assert(s1.vars[k] == s.vars[k]);
        }
        assert forall|i: int| 0 <= i < s.values.len() implies #[trigger] t.values[i]
            == s.values[i] by {
            assert(s2.values[i] == s1.values[i]);
        }
        t
    }
}

/// When a function begins, its first locals are its WebAssembly arguments, which come behind two
/// contexts, and its other locals are zero. The first argument is its context, and nothing is on the
/// operand stack.
#[verifier::spinoff_prover]
#[verifier::rlimit(60)]
pub proof fn functions_begin_with_their_arguments(
    m: Machine,
    code: Code,
    groups: Seq<(u32, WasmValType)>,
    env: TranslationEnvironment,
    s: Moment,
    args: Seq<int>,
)
    requires
        runs(s, code),
        code.vars.len() == 0,
        code.signature.params.len() >= 2,
        args.len() == code.signature.params.len(),
        code.signature.params.len() + num_locals(groups) <= u32::MAX,
        code.values.len() + code.signature.params.len() + groups.len()
            + code.signature.returns.len() <= usize::MAX,
        code.blocks.len() + 2 < usize::MAX,
    ensures
        ({
            let after = started(code, groups, env);
            let entry = Flow::Left { block: code.next_block(), args, moment: s };
            let n = code.signature.params.len() - 2;
            &&& run(m, after.code.steps, code.steps.len(), entry) matches Flow::On(t) && {
                &&& runs(t, after.code)
                &&& t.memory == s.memory
                &&& forall|k: u32| k < n ==> (#[trigger] t.vars[k]).bits == args[k + 2]
                &&& forall|k: u32|
                    n <= k < n + num_locals(groups) ==> (#[trigger] t.vars[k]).bits == 0
                &&& t.bits(after.code.vmctx_param->0) == args[0]
            }
            &&& after.code.vars.len() == n + num_locals(groups)
            &&& after.st.stack.len() == 0
            &&& after.st.reachable
        }),
{
    let from = code.steps.len();
    let block = code.next_block();
    let at = Flow::Left { block, args, moment: s };
    let params = code.signature.params;
    let tys = crate::cranelift::compiler::types_of(params);
    lemma_run_nothing(m, code.steps, from, at);
    let s1 = lemma_block_with_params_passed(m, code, tys, from, at, block, args, s);
    let c1 = code.block_with_params(tys);
    let values = c1.blocks[block.0 as int];
    assert(values.no_duplicates());
    assert(c1.has_all(values));
    let s2 = lemma_entered(m, c1, from, at, block, args, s1);
    let c2 = c1.emitted(Op::SwitchToBlock { block });
    let seal = Op::SealBlock { block };
    assert(run(m, c2.emitted(seal).steps, from, at) == Flow::On(s2)) by {
        reveal(performed);
        lemma_run_step(m, c2.steps, StepModel::Op(seal), from, at);
    }
    let c3 = Code { vmctx_param: Some(values[0]), ..c2.emitted(seal) };
    lemma_vars_kept(code, tys);
    let s3 = lemma_params(m, c3, params, values, params.len() as int, from, at, s2);
    let c4 = begun(code);
    assert(c4 == params_declared(c3, params, values, params.len() as int));
    let s4 = lemma_groups(m, c4, groups, env.isa.pointer_type, from, at, s3);
    let c5 = groups_declared(c4, groups, env.isa.pointer_type);
    let returned = crate::cranelift::compiler::types_of(code.signature.returns);
    let t = lemma_block_with_params(m, c5, returned, from, at, s4);
    let n = params.len() - 2;
    assert forall|k: u32| k < n implies (#[trigger] t.vars[k]).bits == args[k + 2] by {
        assert(s4.vars[k] == s3.vars[k]);
        assert(s3.vars[k] == s2.at(values[k + 2]));
        assert(s2.all(values)[k + 2] == args[k + 2]);
    }
    assert forall|k: u32| n <= k < n + num_locals(groups) implies (#[trigger] t.vars[k]).bits
        == 0 by {
        assert(s4.vars[k].bits == 0);
    }
    let v = values[0];
    assert(c1.has(v));
    lemma_vars_kept(c5, returned);
    assert(t.bits(v) == args[0]) by {
        assert(s2.all(values)[0] == args[0]);
        assert(s4.values[v.0 as int] == s3.values[v.0 as int]);
        assert(t.values[v.0 as int] == s4.values[v.0 as int]);
    }
}

/// New blocks leave locals alone.
proof fn lemma_vars_kept(code: Code, tys: Seq<Type>)
    ensures
        code.block_with_params(tys).vars == code.vars,
        code.block_with_params(tys).vmctx_param == code.vmctx_param,
        code.block_with_params(tys).signature == code.signature,
{
    lemma_vars_kept_by_params(code.block_created(), code.next_block(), tys);
}

/// New parameters leave locals alone.
proof fn lemma_vars_kept_by_params(code: Code, block: crate::ir::Block, tys: Seq<Type>)
    ensures
        code.block_params_added(block, tys).vars == code.vars,
        code.block_params_added(block, tys).vmctx_param == code.vmctx_param,
        code.block_params_added(block, tys).signature == code.signature,
    decreases tys.len(),
{
    if tys.len() > 0 {
        lemma_vars_kept_by_params(code, block, tys.drop_last());
    }
}

} // verus!
