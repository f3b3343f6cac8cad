//! Translation of whole functions: their parameters and locals, their operators, and their results.
use crate::builder::{Code, FunctionBuilder};
use crate::cranelift::admission::{is_admissible, is_all_returnable};
use crate::cranelift::code_translator::translate_operator;
use crate::cranelift::compiler::CraneliftCompiler;
use crate::cranelift::env::{value_type, TranslationEnvironment};
use crate::cranelift::invoke::bitcast_wasm_returns;
use crate::cranelift::operator::Operator;
use crate::cranelift::state::{FuncTranslationState, StateModel};
use crate::cranelift::world::World;
use crate::errors::Error;
use crate::ir::{AbiParam, Block, GlobalValue, Op, Type, Value};
use crate::types::{WasmFuncType, WasmValType};
use vstd::prelude::*;

verus! {

/// A local more, with its first value.
pub open spec fn local_declared(code: Code, ty: Type, val: Value) -> Code {
    Code { vars: code.vars.push(ty), ..code }.emitted(
        Op::DefVar { var: code.vars.len() as u32, val },
    )
}

/// The parameters of a function as locals: the first two belong to the calling convention.
pub open spec fn params_declared(
    code: Code,
    params: Seq<AbiParam>,
    values: Seq<Value>,
    n: int,
) -> Code
    decreases n,
{
    if n <= 2 {
        code
    } else {
        local_declared(params_declared(code, params, values, n - 1), params[n - 1].ty, values[n - 1])
    }
}

/// The code that enters a function: its first block has the parameters, the first of which is the
/// context, and the others of the WebAssembly type are locals.
pub open spec fn begun(code: Code) -> Code {
    let block = code.next_block();
    let entered = code.block_with_params(
        crate::cranelift::compiler::types_of(code.signature.params),
    ).emitted(Op::SwitchToBlock { block }).emitted(Op::SealBlock { block });
    let values = entered.blocks[block.0 as int];
    params_declared(
        Code { vmctx_param: Some(values[0]), ..entered },
        code.signature.params,
        values,
        code.signature.params.len() as int,
    )
}

/// The code that makes the first value of locals of a type: zero, or a null reference.
pub open spec fn zero_made(code: Code, ty: Type) -> Code {
    match ty {
        Type::F32 => code.defined(Op::F32const { bits: 0 }, ty),
        Type::F64 => code.defined(Op::F64const { bits: 0 }, ty),
        Type::I8X16 => code.vconst(ty, 0),
        _ => code.iconst(ty, 0),
    }
}

/// Locals of one type with one first value.
pub open spec fn locals_declared(code: Code, ty: Type, val: Value, n: nat) -> Code
    decreases n,
{
    if n == 0 {
        code
    } else {
        local_declared(locals_declared(code, ty, val, (n - 1) as nat), ty, val)
    }
}

/// Groups of locals, each of one type.
pub open spec fn groups_declared(
    code: Code,
    groups: Seq<(u32, WasmValType)>,
    pointer_type: Type,
) -> Code
    decreases groups.len(),
{
    if groups.len() == 0 {
        code
    } else {
        let before = groups_declared(code, groups.drop_last(), pointer_type);
        let ty = crate::cranelift::env::value_type_of(groups.last().1, pointer_type);
        locals_declared(zero_made(before, ty), ty, before.next_value(), groups.last().0 as nat)
    }
}

/// The number of locals of groups.
pub open spec fn num_locals(groups: Seq<(u32, WasmValType)>) -> nat
    decreases groups.len(),
{
    if groups.len() == 0 {
        0
    } else {
        num_locals(groups.drop_last()) + groups.last().0 as nat
    }
}

/// The state before the first operator of a function whose code ends at a block.
pub open spec fn fresh_state(exit: Block, results: usize) -> StateModel {
    let empty = StateModel {
        stack: Seq::empty(),
        control: Seq::empty(),
        reachable: true,
        signatures: Map::empty(),
        functions: Map::empty(),
        tables: Map::empty(),
        memories: Map::empty(),
        globals: Map::empty(),
    };
    empty.enter(empty.block_frame(exit, 0, results))
}

/// Everything before the first operator of a function with locals.
pub open spec fn started<'a>(
    code: Code,
    groups: Seq<(u32, WasmValType)>,
    env: TranslationEnvironment<'a>,
) -> World<'a> {
    let declared = groups_declared(begun(code), groups, env.isa.pointer_type);
    World {
        code: declared.block_with_params(
            crate::cranelift::compiler::types_of(code.signature.returns),
        ),
        st: fresh_state(
            declared.next_block(),
            code.signature.returns.filter(|p: AbiParam| p.purpose is Normal).len() as usize,
        ),
        env,
    }
}

/// The types of parameters or return values.
fn types_of(params: &Vec<AbiParam>) -> (r: Vec<Type>)
    ensures
        r@ == crate::cranelift::compiler::types_of(params@),
{
    let mut types: Vec<Type> = Vec::new();
    for i in 0..params.len()
        invariant
            types@ == crate::cranelift::compiler::types_of(params@.take(i as int)),
    {
        types.push(params[i].ty);
        assert(types@ =~= crate::cranelift::compiler::types_of(params@.take(i + 1)));
    }
    assert(params@.take(params@.len() as int) =~= params@);
    types
}

/// Declares a local with its first value.
fn declare_local(builder: &mut FunctionBuilder, ty: Type, val: Value)
    requires
        old(builder)@.vars.len() < u32::MAX,
    ensures
        final(builder)@ == local_declared(old(builder)@, ty, val),
{
    let var: u32 = builder.num_vars();
    builder.declare_var(ty);
    builder.def_var(var, val);
}

/// Whether code differs only in steps, values, locals and the parameter that holds the context, with
/// blocks that are in order.
pub open spec fn only_locals(code: Code, before: Code) -> bool {
    &&& code == (Code {
        steps: code.steps,
        values: code.values,
        vars: code.vars,
        vmctx_param: code.vmctx_param,
        ..before
    })
    &&& before.values.len() <= code.values.len()
    &&& before.blocks_ok() ==> code.blocks_ok()
}

/// Enters a function: declares its parameters as locals.
fn begin(builder: &mut FunctionBuilder)
    requires
        old(builder)@.blocks_ok(),
        old(builder)@.signature.params.len() >= 2,
        old(builder)@.vars.len() + old(builder)@.signature.params.len() <= u32::MAX,
    ensures
        final(builder)@ == begun(old(builder)@),
        final(builder)@.blocks_ok(),
        final(builder)@.signature == old(builder)@.signature,
        final(builder)@.vars.len() == old(builder)@.vars.len() + old(builder)@.signature.params.len()
            - 2,
{
    let types = types_of(&builder.signature().params);
    let block = builder.block_with_params(&types);
    builder.switch_to_block(block);
    builder.seal_block(block);
    let vmctx = builder.block_params(block)[0];
    builder.set_special_param(vmctx);
    let ghost entered = builder@;
    let ghost params = builder@.signature.params;
    let ghost values = builder@.blocks[block.0 as int];
    assert(params_declared(entered, params, values, 2) == entered);
    for i in 2..types.len()
        invariant
            types@ == crate::cranelift::compiler::types_of(params),
            types@.len() == params.len() == values.len(),
            entered.blocks_ok(),
            block.0 < entered.blocks.len(),
            values == entered.blocks[block.0 as int],
            entered.vars.len() + params.len() <= u32::MAX,
            builder@ == params_declared(entered, params, values, i as int),
            only_locals(builder@, entered),
            builder@.vars.len() == entered.vars.len() + i - 2,
    {
        let val = builder.block_params(block)[i];
        declare_local(builder, types[i], val);
    }
}

/// Declares locals of one type.
fn declare_group(builder: &mut FunctionBuilder, count: u32, ty: Type)
    requires
        old(builder)@.vars.len() + count <= u32::MAX,
    ensures
        final(builder)@ == locals_declared(
            zero_made(old(builder)@, ty),
            ty,
            old(builder)@.next_value(),
            count as nat,
        ),
        only_locals(final(builder)@, old(builder)@),
        final(builder)@.vars.len() == old(builder)@.vars.len() + count,
{
    let zero = match ty {
        Type::F32 => builder.emit_value(Op::F32const { bits: 0 }, ty),
        Type::F64 => builder.emit_value(Op::F64const { bits: 0 }, ty),
        Type::I8X16 => builder.vconst(ty, 0),
        _ => builder.iconst(ty, 0),
    };
    let ghost made = builder@;
    for i in 0..count
        invariant
            made == zero_made(old(builder)@, ty),
            zero == old(builder)@.next_value(),
            made.vars.len() + count <= u32::MAX,
            builder@ == locals_declared(made, ty, zero, i as nat),
            only_locals(builder@, old(builder)@),
            builder@.vars.len() == made.vars.len() + i,
    {
        declare_local(builder, ty, zero);
    }
}

/// Declares groups of locals.
fn declare_groups(
    builder: &mut FunctionBuilder,
    groups: &Vec<(u32, WasmValType)>,
    pointer_type: Type,
)
    requires
        old(builder)@.vars.len() + num_locals(groups@) <= u32::MAX,
    ensures
        final(builder)@ == groups_declared(old(builder)@, groups@, pointer_type),
        only_locals(final(builder)@, old(builder)@),
{
    assert(groups@.take(0) =~= Seq::empty());
    for i in 0..groups.len()
        invariant
            old(builder)@.vars.len() + num_locals(groups@) <= u32::MAX,
            builder@ == groups_declared(old(builder)@, groups@.take(i as int), pointer_type),
            only_locals(builder@, old(builder)@),
            builder@.vars.len() == old(builder)@.vars.len() + num_locals(groups@.take(i as int)),
    {
        proof {
            assert(groups@.take(i + 1).drop_last() =~= groups@.take(i as int));
            lemma_num_locals(groups@, i + 1);
        }
        declare_group(builder, groups[i].0, value_type(&groups[i].1, pointer_type));
    }
    assert(groups@.take(groups@.len() as int) =~= groups@);
}

/// The first groups have no more locals than all.
pub proof fn lemma_num_locals(groups: Seq<(u32, WasmValType)>, n: int)
    requires
        0 <= n <= groups.len(),
    ensures
        num_locals(groups.take(n)) <= num_locals(groups),
    decreases groups.len(),
{
    if n < groups.len() {
        assert(groups.drop_last().take(n) =~= groups.take(n));
        lemma_num_locals(groups.drop_last(), n);
    } else {
        assert(groups.take(n) =~= groups);
    }
}

/// The feature that is missing where an operator cannot be translated.
pub open spec fn untranslatable() -> Seq<char> {
    "an operator that is not implemented"@
}

/// Why an operator ends a translation: it cannot come next, or needs something that is not
/// supported.
pub open spec fn stopped(op: Operator<Seq<u32>>, w: World) -> Option<Seq<char>> {
    if !crate::cranelift::code_translator::admissible(op, w) {
        Some(untranslatable())
    } else if w.st.reachable {
        crate::cranelift::code_translator::unsupported_feature(op)
    } else {
        None
    }
}

/// What operators are translated to, or the missing feature that ends the translation.
pub open spec fn all_translated<'a>(ops: Seq<Operator<Seq<u32>>>, w: World<'a>) -> Result<
    World<'a>,
    Seq<char>,
>
    decreases ops.len(),
{
    if ops.len() == 0 {
        Ok(w)
    } else {
        match stopped(ops[0], w) {
            Some(feature) => Err(feature),
            None => all_translated(
                ops.skip(1),
                crate::cranelift::code_translator::translated(ops[0], w),
            ),
        }
    }
}

/// What operators are translated to as far as they can be: up to the first that cannot come next, or
/// with the first that needs something that is not supported.
pub open spec fn reached<'a>(ops: Seq<Operator<Seq<u32>>>, w: World<'a>) -> World<'a>
    decreases ops.len(),
{
    if ops.len() == 0 || !crate::cranelift::code_translator::admissible(ops[0], w) {
        w
    } else {
        let next = crate::cranelift::code_translator::translated(ops[0], w);
        if stopped(ops[0], w) is Some {
            next
        } else {
            reached(ops.skip(1), next)
        }
    }
}

/// Operators by their views.
pub open spec fn views(ops: Seq<Operator>) -> Seq<Operator<Seq<u32>>> {
    ops.map_values(|op: Operator| op@)
}

/// The error for an operator that cannot be translated.
pub(crate) fn not_implemented() -> (r: Error)
    ensures
        r matches Error::Unsupported(feature) && feature@ == untranslatable(),
{
    Error::unsupported("an operator that is not implemented")
}

/// Translates operators one after the other; fails at the first that cannot come next or is not
/// supported.
pub fn translate_operators(
    ops: &Vec<Operator>,
    builder: &mut FunctionBuilder,
    state: &mut FuncTranslationState,
    env: &mut TranslationEnvironment,
) -> (r: Result<(), Error>)
    requires
        old(state).wf(),
        World::of(old(builder)@, old(state)@, *old(env)).valid(),
    ensures
        match all_translated(views(ops@), World::of(old(builder)@, old(state)@, *old(env))) {
            Ok(w) => r is Ok && World::of(final(builder)@, final(state)@, *final(env)) == w,
            Err(missing) => r matches Err(Error::Unsupported(feature)) && feature@ == missing,
        },
        World::of(final(builder)@, final(state)@, *final(env)) == reached(
            views(ops@),
            World::of(old(builder)@, old(state)@, *old(env)),
        ),
        final(state).wf(),
        World::of(final(builder)@, final(state)@, *final(env)).valid(),
{
    let ghost w0 = World::of(builder@, state@, *env);
    let ghost all = views(ops@);
    assert(all.skip(0) =~= all);
    for i in 0..ops.len()
        invariant
            w0 == World::of(old(builder)@, old(state)@, *old(env)),
            all == views(ops@),
            state.wf(),
            World::of(builder@, state@, *env).valid(),
            all_translated(all.skip(i as int), World::of(builder@, state@, *env))
                == all_translated(all, w0),
            reached(all.skip(i as int), World::of(builder@, state@, *env)) == reached(all, w0),
    {
        let ghost rest = all.skip(i as int);
        assert(rest[0] == ops@[i as int]@);
        assert(rest.skip(1) =~= all.skip(i + 1));
        if !is_admissible(&ops[i], builder, state, env) {
            return Err(not_implemented());
        }
        match translate_operator(&ops[i], builder, state, env) {
            Ok(()) => {},
            Err(e) => return Err(e),
        }
    }
    Ok(())
}

/// The code at the end of a function: what is left on the stack is returned, if the end is reached.
pub open spec fn ended(w: World) -> Code {
    if w.st.reachable {
        let (code, results) = crate::cranelift::invoke::passed(
            w.code,
            w.st.stack,
            crate::cranelift::invoke::wasm_return_types(w.code.signature.returns),
        );
        code.step(crate::ir::StepModel::Return { args: results })
    } else {
        w.code
    }
}

/// Whether what is left on the stack can be returned, if the end is reached.
pub open spec fn returnable(w: World) -> bool {
    w.st.reachable ==> crate::cranelift::invoke::passable(
        w.code,
        w.st.stack,
        crate::cranelift::invoke::wasm_return_types(w.code.signature.returns),
    )
}

/// The code of a function with its parameters, locals, operators and results, or the missing feature
/// that ends the translation.
pub open spec fn function_translated(
    code: Code,
    groups: Seq<(u32, WasmValType)>,
    ops: Seq<Operator<Seq<u32>>>,
    env: TranslationEnvironment,
) -> Result<Code, Seq<char>> {
    match all_translated(ops, started(code, groups, env)) {
        Ok(w) => if returnable(w) {
            Ok(ended(w))
        } else {
            Err(untranslatable())
        },
        Err(missing) => Err(missing),
    }
}

impl CraneliftCompiler {
    /// Translates a function: its parameters and locals, its operators, and its results. Gives the
    /// code, and the global value of the stack limit.
    pub fn translate_function(
        &self,
        ty: &WasmFuncType,
        groups: &Vec<(u32, WasmValType)>,
        ops: &Vec<Operator>,
        env: &mut TranslationEnvironment,
    ) -> (r: Result<(FunctionBuilder, GlobalValue), Error>)
        requires
            self.wf(),
            old(env).wf(),
            old(env).pcc_vmctx_memtype is None,
            old(env).isa == self.isa,
            ty.params@.len() + num_locals(groups@) + 2 <= u32::MAX,
        ensures
            match function_translated(self.prepared(ty@), groups@, views(ops@), *old(env)) {
                Ok(code) => r matches Ok(f) && f.0@ == code && f.1 == GlobalValue(1),
                Err(missing) => r matches Err(Error::Unsupported(feature)) && feature@ == missing,
            },
            *final(env) == reached(
                views(ops@),
                started(self.prepared(ty@), groups@, *old(env)),
            ).env,
    {
        let (mut builder, limit) = self.prepare_function(ty);
        let ghost prepared = builder@;
        assert(prepared.blocks_ok());
        begin(&mut builder);
        declare_groups(&mut builder, groups, self.isa.pointer_type);
        let return_types = types_of(&builder.signature().returns);
        let exit = builder.block_with_params(&return_types);
        let mut state = FuncTranslationState::new();
        state.initialize(builder.signature(), exit);
        proof {
            let w = World::of(builder@, state@, *env);
            assert(w.st =~= started(prepared, groups@, *env).st);
            assert(w == started(prepared, groups@, *env));
            assert(w.valid());
        }
        match translate_operators(ops, &mut builder, &mut state, env) {
            Ok(()) => {},
            Err(e) => return Err(e),
        }
        if state.reachable {
            if !is_all_returnable(&builder, &state, env) {
                return Err(not_implemented());
            }
            let results = bitcast_wasm_returns(&state.stack, &mut builder, env);
            builder.return_(results);
        }
        Ok((builder, limit))
    }
}

} // verus!
