//! Translation of calls and returns.
use crate::builder::{Code, FunctionBuilder};
use crate::cranelift::call::CallBuilder;
use crate::cranelift::code_translator::Reachability;
use crate::cranelift::env::TranslationEnvironment;
use crate::cranelift::state::{FuncTranslationState, StateModel};
use crate::cranelift::world::World;
use crate::indices::{FuncIndex, TableIndex, TypeIndex};
use crate::ir::{
    AbiParam, MemFlags, SigRef, Signature, SignatureModel, StepModel, Type, Value,
};
use vstd::prelude::*;

verus! {

/// The types of the WebAssembly parameters of a signature.
pub open spec fn wasm_param_types(sig: SignatureModel) -> Seq<Type> {
    Seq::new(
        crate::cranelift::state::num_wasm_parameters_of(sig) as nat,
        |i: int| sig.params[i + 2].ty,
    )
}

/// The types of the WebAssembly return values of a signature.
pub open spec fn wasm_return_types(rets: Seq<AbiParam>) -> Seq<Type>
    decreases rets.len(),
{
    if rets.len() == 0 {
        Seq::empty()
    } else if rets.last().purpose is Normal {
        wasm_return_types(rets.drop_last()).push(rets.last().ty)
    } else {
        wasm_return_types(rets.drop_last())
    }
}

/// Whether a list of values can be passed as values of the given types: there are as many, and
/// vectors are where vectors are expected.
pub open spec fn passable(code: Code, args: Seq<Value>, types: Seq<Type>) -> bool {
    &&& args.len() == types.len()
    &&& forall|i: int|
        0 <= i < args.len() && (#[trigger] types[i]).spec_is_vector() ==> code.ty(
            args[i],
        ).spec_is_vector()
}

/// Values passed as values of the given types, with bit casts where vectors differ: the code and
/// the values.
pub open spec fn passed(code: Code, args: Seq<Value>, types: Seq<Type>) -> (Code, Seq<Value>)
    decreases args.len(),
{
    if args.len() == 0 {
        (code, Seq::empty())
    } else {
        let (c1, vs) = passed(code, args.drop_last(), types.drop_last());
        if types.last().spec_is_vector() && code.ty(args.last()) != types.last() {
            (
                c1.bitcast(
                    types.last(),
                    crate::cranelift::recipes::little_flags(),
                    args.last(),
                ),
                vs.push(c1.next_value()),
            )
        } else {
            (c1, vs.push(args.last()))
        }
    }
}

/// Passes values as values of the given types.
fn bitcast_arguments(builder: &mut FunctionBuilder, arguments: &Vec<Value>, types: &Vec<Type>) -> (r:
    Vec<Value>)
    requires
        old(builder)@.has_all(arguments@),
        passable(old(builder)@, arguments@, types@),
    ensures
        (final(builder)@, r@) == passed(old(builder)@, arguments@, types@),
        final(builder)@.grew(old(builder)@),
        final(builder)@.has_all(r@),
        r@.len() == arguments@.len(),
{
    let mut out: Vec<Value> = Vec::new();
    assert(arguments@.take(0) =~= Seq::empty());
    for i in 0..arguments.len()
        invariant
            arguments@.len() == types@.len(),
            old(builder)@.has_all(arguments@),
            builder@.grew(old(builder)@),
            builder@.has_all(out@),
            out@.len() == i,
            forall|v: Value|
                old(builder)@.has(v) ==> #[trigger] builder@.ty(v) == old(builder)@.ty(v),
            (builder@, out@) == passed(
                old(builder)@,
                arguments@.take(i as int),
                types@.take(i as int),
            ),
    {
        proof {
            assert(arguments@.take(i + 1).drop_last() =~= arguments@.take(i as int));
            assert(types@.take(i + 1).drop_last() =~= types@.take(i as int));
            assert(old(builder)@.has(arguments@[i as int]));
        }
        let arg = arguments[i];
        let ty = types[i];
        let ghost before = builder@;
        if ty.is_vector() && builder.value_type(arg) != ty {
            let v = builder.bitcast(ty, MemFlags::new().with_little_endian(), arg);
            out.push(v);
        } else {
            out.push(arg);
        }
        assert forall|v: Value| old(builder)@.has(v) implies #[trigger] builder@.ty(v) == old(
            builder,
        )@.ty(v) by {
            assert(before.ty(v) == old(builder)@.ty(v));
        }
    }
    assert(arguments@.take(arguments@.len() as int) =~= arguments@);
    assert(types@.take(types@.len() as int) =~= types@);
    out
}

/// The types of the WebAssembly parameters of a signature.
pub(crate) fn collect_param_types(sig: &Signature, env: &TranslationEnvironment) -> (r: Vec<Type>)
    ensures
        r@ == wasm_param_types(sig@),
{
    let mut types: Vec<Type> = Vec::new();
    for i in 0..sig.params.len()
        invariant
            types@.len() == (if i > 2 {
                i - 2
            } else {
                0
            }),
            forall|k: int| 0 <= k < types@.len() ==> types@[k] == sig.params@[k + 2].ty,
    {
        if env.is_wasm_parameter(i) {
            types.push(sig.params[i].ty);
        }
    }
    assert(types@ =~= wasm_param_types(sig@));
    types
}

/// The types of the WebAssembly return values of a signature.
pub(crate) fn collect_return_types(sig: &Signature, env: &TranslationEnvironment) -> (r: Vec<Type>)
    ensures
        r@ == wasm_return_types(sig.returns@),
{
    let mut types: Vec<Type> = Vec::new();
    assert(sig.returns@.take(0) =~= Seq::empty());
    for i in 0..sig.returns.len()
        invariant
            types@ == wasm_return_types(sig.returns@.take(i as int)),
    {
        assert(sig.returns@.take(i + 1).drop_last() =~= sig.returns@.take(i as int));
        if env.is_wasm_return(sig, i) {
            types.push(sig.returns[i].ty);
        }
    }
    assert(sig.returns@.take(sig.returns@.len() as int) =~= sig.returns@);
    types
}

/// Brings return values to the types that the function returns.
pub fn bitcast_wasm_returns(
    arguments: &Vec<Value>,
    builder: &mut FunctionBuilder,
    env: &TranslationEnvironment,
) -> (r: Vec<Value>)
    requires
        old(builder)@.has_all(arguments@),
        passable(
            old(builder)@,
            arguments@,
            wasm_return_types(old(builder)@.signature.returns),
        ),
    ensures
        (final(builder)@, r@) == passed(
            old(builder)@,
            arguments@,
            wasm_return_types(old(builder)@.signature.returns),
        ),
        final(builder)@.grew(old(builder)@),
{
    let types = collect_return_types(builder.signature(), env);
    bitcast_arguments(builder, arguments, &types)
}

/// Brings arguments to the types that a callee takes.
fn bitcast_wasm_params(
    callee_signature: SigRef,
    arguments: &Vec<Value>,
    builder: &mut FunctionBuilder,
    env: &TranslationEnvironment,
) -> (r: Vec<Value>)
    requires
        old(builder)@.has_sig(callee_signature),
        old(builder)@.has_all(arguments@),
        passable(
            old(builder)@,
            arguments@,
            wasm_param_types(old(builder)@.sigs[callee_signature.0 as int]),
        ),
    ensures
        (final(builder)@, r@) == passed(
            old(builder)@,
            arguments@,
            wasm_param_types(old(builder)@.sigs[callee_signature.0 as int]),
        ),
        final(builder)@.grew(old(builder)@),
        final(builder)@.has_all(r@),
        r@.len() == arguments@.len(),
{
    let types = collect_param_types(builder.signature_of(callee_signature), env);
    bitcast_arguments(builder, arguments, &types)
}

impl<'a> World<'a> {
    /// Whether the function can return: its return values are on the stack.
    pub open spec fn returnable(self) -> bool {
        &&& self.st.control.len() > 0
        &&& self.st.control[0].returned() <= self.st.stack.len()
        &&& passable(
            self.code,
            crate::cranelift::state::top(self.st.stack, self.st.control[0].returned() as int),
            wasm_return_types(self.code.signature.returns),
        )
    }

    /// A return; the code behind it is unreachable.
    #[verifier::opaque]
    pub open spec fn returned(self) -> World<'a> {
        let n = self.st.control[0].returned() as int;
        let (c1, args) = passed(
            self.code,
            crate::cranelift::state::top(self.st.stack, n),
            wasm_return_types(self.code.signature.returns),
        );
        World {
            code: c1.step(StepModel::Return { args }),
            st: StateModel { reachable: false, ..self.st.pop(n) },
            ..self
        }
    }

    /// Whether a function of the module can be called: its arguments are on the stack.
    pub open spec fn func_callable(self, function_index: u32) -> bool {
        let index = FuncIndex(function_index);
        let (c1, st1, (fref, n)) = crate::cranelift::state::direct_func_found(
            self.code,
            self.st,
            self.env,
            index,
        );
        &&& function_index < u32::MAX
        &&& function_index < self.env.module.functions@.len()
        &&& self.env.has_func_type(self.env.module.functions@[function_index as int].signature)
        &&& self.code.vmctx_param is Some
        &&& n <= self.st.stack.len()
        &&& passable(
            c1,
            crate::cranelift::state::top(self.st.stack, n as int),
            wasm_param_types(c1.sig_of(fref)),
        )
    }

    /// A call of a function of the module: the arguments give way to the results.
    #[verifier::opaque]
    pub open spec fn called(self, function_index: u32) -> World<'a> {
        let index = FuncIndex(function_index);
        let (c1, st1, (fref, n)) = crate::cranelift::state::direct_func_found(
            self.code,
            self.st,
            self.env,
            index,
        );
        let (c2, args) = passed(
            c1,
            crate::cranelift::state::top(st1.stack, n as int),
            wasm_param_types(c1.sig_of(fref)),
        );
        let (c3, env1, results) = (CallBuilder { tail: false }).call_made(
            c2,
            self.env,
            index,
            fref,
            args,
        );
        World {
            code: c3,
            st: StateModel { stack: st1.pop(n as int).stack + results, ..st1 },
            env: env1,
        }
    }

    /// Whether a function can be called through a table: its arguments and the index are on the
    /// stack.
    pub open spec fn indirectly_callable(self, type_index: u32, table_index: u32) -> bool {
        let (c1, st1, (sig, n)) = crate::cranelift::state::indirect_sig_found(
            self.code,
            self.st,
            self.env,
            TypeIndex(type_index),
        );
        &&& type_index < u32::MAX
        &&& table_index < u32::MAX
        &&& self.env.has_func_type(type_index)
        &&& self.env.has_table(TableIndex(table_index))
        &&& CallBuilder::callable(self.env, TableIndex(table_index), TypeIndex(type_index))
        &&& self.code.vmctx_param is Some
        &&& n + 1 <= self.st.stack.len()
        &&& passable(
            c1,
            crate::cranelift::state::top(self.st.pop(1).stack, n as int),
            wasm_param_types(c1.sigs[sig.0 as int]),
        )
    }

    /// A call through a table: the index and the arguments give way to the results. Where the call
    /// is known to trap, the code behind it is unreachable.
    #[verifier::opaque]
    pub open spec fn called_indirectly(self, type_index: u32, table_index: u32) -> World<'a> {
        let callee = self.st.peek(0);
        let (c1, st1, (sig, n)) = crate::cranelift::state::indirect_sig_found(
            self.code,
            self.st,
            self.env,
            TypeIndex(type_index),
        );
        let st2 = st1.pop(1);
        let (c2, args) = passed(
            c1,
            crate::cranelift::state::top(st2.stack, n as int),
            wasm_param_types(c1.sigs[sig.0 as int]),
        );
        let st3 = StateModel { stack: st2.pop(n as int).stack + args, ..st2 };
        let (c3, st4, env1, table) = crate::cranelift::state::table_found(
            c2,
            st3,
            self.env,
            TableIndex(table_index),
        );
        let (c4, env2, results) = (CallBuilder { tail: false }).indirect_call_made(
            c3,
            env1,
            TableIndex(table_index),
            table,
            TypeIndex(type_index),
            sig,
            callee,
            args,
        );
        match results {
            Reachability::Reachable(results) => World {
                code: c4,
                st: StateModel { stack: st4.pop(n as int).stack + results, ..st4 },
                env: env2,
            },
            Reachability::Unreachable => World {
                code: c4,
                st: StateModel { reachable: false, ..st4 },
                env: env2,
            },
        }
    }
}

/// Returns from the function.
pub fn translate_return(
    builder: &mut FunctionBuilder,
    state: &mut FuncTranslationState,
    env: &TranslationEnvironment,
)
    requires
        old(state).wf(),
        World::of(old(builder)@, old(state)@, *env).valid(),
        World::of(old(builder)@, old(state)@, *env).returnable(),
    ensures
        final(state).wf(),
        World::of(final(builder)@, final(state)@, *env) == World::of(
            old(builder)@,
            old(state)@,
            *env,
        ).returned(),
        World::of(final(builder)@, final(state)@, *env).valid(),
{
    proof {
        reveal(World::returned);
    }
    let ghost w0 = World::of(builder@, state@, *env);
    let return_count: usize = state.control_stack[0].num_return_values();
    let return_args = state.peekn(return_count);
    let return_args = bitcast_wasm_returns(&return_args, builder, env);
    builder.return_(return_args);
    state.popn(return_count);
    state.reachable = false;
    proof {
        let w1 = World::of(builder@, state@, *env);
        crate::builder::lemma_grew_extends(w0.code, w1.code);
        crate::cranelift::world::lemma_still_valid(w0, w1);
    }
}

/// Calls a function of the module.
pub fn translate_call(
    function_index: u32,
    builder: &mut FunctionBuilder,
    state: &mut FuncTranslationState,
    env: &mut TranslationEnvironment,
)
    requires
        old(state).wf(),
        World::of(old(builder)@, old(state)@, *old(env)).valid(),
        World::of(old(builder)@, old(state)@, *old(env)).func_callable(function_index),
    ensures
        final(state).wf(),
        World::of(final(builder)@, final(state)@, *final(env)) == World::of(
            old(builder)@,
            old(state)@,
            *old(env),
        ).called(function_index),
        World::of(final(builder)@, final(state)@, *final(env)).valid(),
{
    proof {
        reveal(World::called);
    }
    let ghost w0 = World::of(builder@, state@, *env);
    let index = FuncIndex::from_u32(function_index);
    let (fref, num_args) = state.get_direct_func(builder, index, env);
    let ghost c1 = builder@;
    let ghost st1 = state@;
    let args = state.peekn(num_args);
    let sig = builder.callee_signature(fref);
    let args = bitcast_wasm_params(sig, &args, builder, env);
    let ghost c2 = builder@;
    proof {
        crate::builder::lemma_declared_extends(w0.code, c1);
        crate::builder::lemma_grew_extends(c1, c2);
        crate::builder::lemma_extends_trans(w0.code, c1, c2);
    }
    let results = CallBuilder::new().direct_call(builder, env, index, fref, &args);
    state.popn(num_args);
    state.pushn(&results);
    proof {
        let w1 = World::of(builder@, state@, *env);
        crate::builder::lemma_extends_trans(c1, c2, w1.code);
        crate::builder::lemma_extends_trans(w0.code, c1, w1.code);
        crate::cranelift::world::lemma_caches_still_ok(c1, st1, w1.code, w1.st);
        crate::cranelift::world::lemma_frames_still_ok(w0.code, w0.st, w1.code, w1.st);
    }
}

/// Calls a function through a table.
pub fn translate_call_indirect(
    type_index: u32,
    table_index: u32,
    builder: &mut FunctionBuilder,
    state: &mut FuncTranslationState,
    env: &mut TranslationEnvironment,
)
    requires
        old(state).wf(),
        World::of(old(builder)@, old(state)@, *old(env)).valid(),
        World::of(old(builder)@, old(state)@, *old(env)).indirectly_callable(
            type_index,
            table_index,
        ),
    ensures
        final(state).wf(),
        World::of(final(builder)@, final(state)@, *final(env)) == World::of(
            old(builder)@,
            old(state)@,
            *old(env),
        ).called_indirectly(type_index, table_index),
        World::of(final(builder)@, final(state)@, *final(env)).valid(),
{
    proof {
        reveal(World::called_indirectly);
    }
    let ghost w0 = World::of(builder@, state@, *env);
    let type_index = TypeIndex::from_u32(type_index);
    let (sigref, num_args) = state.get_indirect_sig(builder, type_index, env);
    let ghost c1 = builder@;
    let callee = state.pop1();
    let args = state.peekn(num_args);
    let args = bitcast_wasm_params(sigref, &args, builder, env);
    let ghost c2 = builder@;
    state.replace_top(&args);
    let ghost st3 = state@;
    proof {
        crate::builder::lemma_declared_extends(w0.code, c1);
        crate::builder::lemma_grew_extends(c1, c2);
        crate::builder::lemma_extends_trans(w0.code, c1, c2);
        crate::cranelift::world::lemma_caches_still_ok(c1, st3, c2, st3);
    }
    let table_index = TableIndex::from_u32(table_index);
    let table = state.get_table(builder, table_index, env);
    let ghost c3 = builder@;
    let ghost st4 = state@;
    let ghost env1 = *env;
    proof {
        crate::builder::lemma_declared_extends(c2, c3);
        crate::builder::lemma_extends_trans(w0.code, c2, c3);
        reveal(TranslationEnvironment::table_made);
        assert(env1.module == w0.env.module);
        assert(c3.has_all(args@));
    }
    let call = CallBuilder::new().indirect_call(
        builder,
        env,
        table_index,
        &table,
        type_index,
        sigref,
        callee,
        &args,
    );
    match call {
        Reachability::Reachable(results) => {
            state.popn(num_args);
            state.pushn(&results);
        },
        Reachability::Unreachable => {
            state.reachable = false;
        },
    }
    proof {
        let w1 = World::of(builder@, state@, *env);
        crate::builder::lemma_extends_trans(w0.code, c3, w1.code);
        crate::cranelift::world::lemma_caches_still_ok(c3, st4, w1.code, w1.st);
        crate::cranelift::world::lemma_frames_still_ok(w0.code, w0.st, w1.code, w1.st);
    }
}

} // verus!
