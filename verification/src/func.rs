//! Functions of a store, their values, and calls of them.
use crate::indices::{CanonicalizedTypeIndex, VMSharedTypeIndex};
use crate::ir::TrapCode;
use crate::matching::{func_matches, val_matches};
use crate::runtime::const_eval::VMVal;
use crate::runtime::instance::ExportedFunction;
use crate::runtime::vmcontext::{VMFuncRef, VMFunctionImport};
use crate::store::{FuncData, FuncKind, StoreModel, StoreOpaque, Stored, WasmFault};
use crate::types::{
    WasmFuncType, WasmHeapType, WasmHeapTypeInner, WasmRefType, WasmValType,
};
use std::marker::PhantomData;
use vstd::prelude::*;

verus! {

/// The number of bytes of stack that a guest gets.
pub const MAX_WASM_STACK: usize = 524_288;

/// A function of a store.
#[derive(Clone, Copy)]
pub struct Func(pub Stored<FuncData>);

/// A value that is passed to or returned by a function. Floats are given as bits.
#[derive(Clone, Copy)]
pub enum Val {
    I32(i32),
    I64(i64),
    F32(u32),
    F64(u64),
    V128(u128),
    FuncRef(Option<Func>),
}

impl Func {
    /// Whether the store has the function, and its type.
    pub open spec fn known(self, store: StoreModel) -> bool {
        &&& self.0.lies_in(store.id, store.funcs.len())
        &&& store.funcs[self.0.index as int].func_ref.type_index < store.types.len()
    }

    /// What the store holds of the function.
    pub open spec fn data(self, store: StoreModel) -> FuncData {
        store.funcs[self.0.index as int]
    }

    /// The function that is added next.
    pub open spec fn next(store: StoreModel) -> Func {
        Func(
            Stored {
                store_id: store.id,
                index: store.funcs.len() as usize,
                kind: PhantomData,
            },
        )
    }

    /// The store with a function of an instance added.
    pub open spec fn added(store: StoreModel, address: usize, func_ref: VMFuncRef) -> StoreModel {
        StoreModel {
            funcs: store.funcs.push(FuncData { kind: FuncKind::StoreOwned, address, func_ref }),
            ..store
        }
    }

    /// The type of the function.
    pub open spec fn spec_ty(self, store: StoreModel) -> WasmFuncType {
        store.types[self.data(store).func_ref.type_index as int]
    }

    /// The type of the function.
    pub fn ty<'a>(&self, store: &'a StoreOpaque) -> (r: &'a WasmFuncType)
        requires
            self.known(store@),
        ensures
            *r == self.spec_ty(store@),
    {
        let index: VMSharedTypeIndex = self.type_index(store);
        store.func_type(index.as_u32() as usize)
    }

    /// Whether the function can be used as one of a type.
    pub fn matches_ty(&self, store: &StoreOpaque, ty: &WasmFuncType) -> (r: bool)
        requires
            self.known(store@),
        ensures
            r == crate::matching::func_type_matches(self.spec_ty(store@)@, ty@),
    {
        func_matches(self.ty(store), ty)
    }

    /// The shared index of the function's type.
    pub fn type_index(&self, store: &StoreOpaque) -> (r: VMSharedTypeIndex)
        requires
            self.0.lies_in(store@.id, store@.funcs.len()),
        ensures
            r.0 == self.data(store@).func_ref.type_index,
    {
        VMSharedTypeIndex(self.func_data(store).func_ref.type_index)
    }

    /// What the store holds of the function.
    fn func_data(&self, store: &StoreOpaque) -> (r: FuncData)
        requires
            self.0.lies_in(store@.id, store@.funcs.len()),
        ensures
            r == self.data(store@),
    {
        store.function(self.0)
    }

    /// The address of the function's reference.
    pub fn vm_func_ref(&self, store: &StoreOpaque) -> (r: usize)
        requires
            self.0.lies_in(store@.id, store@.funcs.len()),
        ensures
            r == self.data(store@).address,
    {
        self.func_data(store).address
    }

    /// A function that an instance of the store exports.
    pub fn from_exported_function(
        store: &mut StoreOpaque,
        export: ExportedFunction,
        func_ref: VMFuncRef,
    ) -> (r: Self)
        ensures
            r == Self::next(old(store)@),
            final(store)@ == Self::added(old(store)@, export.func_ref, func_ref),
    {
        Func(
            store.add_function(
                FuncData { kind: FuncKind::StoreOwned, address: export.func_ref, func_ref },
            ),
        )
    }

    /// The function of a reference, unless its address is null.
    pub fn from_vmval(store: &mut StoreOpaque, address: usize, func_ref: VMFuncRef) -> (r: Option<
        Self,
    >)
        ensures
            address == 0 ==> r is None && final(store)@ == old(store)@,
            address != 0 ==> r == Some(Self::next(old(store)@)) && final(store)@ == Self::added(
                old(store)@,
                address,
                func_ref,
            ),
    {
        if address == 0 {
            return None;
        }
        Some(
            Self::from_exported_function(
                store,
                ExportedFunction { func_ref: address },
                func_ref,
            ),
        )
    }

    /// What a module that imports the function is given. A function without code for compiled
    /// callers is called through the trampoline of its type, which must be there.
    pub fn as_vmfunction_import(
        func_ref: &VMFuncRef,
        wasm_call: Option<u64>,
        trampoline: Option<u64>,
    ) -> (r: VMFunctionImport)
        requires
            wasm_call is Some || trampoline is Some,
        ensures
            r.wasm_call == (match wasm_call {
                Some(ptr) => ptr,
                None => trampoline->0,
            }),
            r.array_call == func_ref.array_call,
            r.vmctx == func_ref.vmctx,
    {
        let wasm_call: u64 = match wasm_call {
            Some(ptr) => ptr,
            None => match trampoline {
                Some(ptr) => ptr,
                None => {
                    assert(false);
                    0
                },
            },
        };
        VMFunctionImport {
            wasm_call,
            array_call: func_ref.array_call,
            vmctx: func_ref.vmctx,
        }
    }

    /// Whether the store has the function.
    pub fn comes_from_same_store(&self, store: &StoreOpaque) -> (r: bool)
        ensures
            r == (self.0.lies_in(store@.id, store@.funcs.len())),
    {
        store.has_function(self.0)
    }
}

/// The type of references to functions, which can be null.
pub open spec fn null_type() -> WasmValType {
    WasmValType::Ref(
        WasmRefType {
            nullable: true,
            heap_type: WasmHeapType { shared: false, ty: WasmHeapTypeInner::NoFunc },
        },
    )
}

impl Val {
    /// Whether a store knows the value.
    pub open spec fn known(self, store: StoreModel) -> bool {
        self matches Val::FuncRef(Some(f)) ==> f.known(store)
    }

    /// The type of the value: functions have their exact type.
    pub open spec fn spec_ty(self, store: StoreModel) -> WasmValType {
        match self {
            Val::I32(_) => WasmValType::I32,
            Val::I64(_) => WasmValType::I64,
            Val::F32(_) => WasmValType::F32,
            Val::F64(_) => WasmValType::F64,
            Val::V128(_) => WasmValType::V128,
            Val::FuncRef(None) => null_type(),
            Val::FuncRef(Some(f)) => WasmValType::Ref(
                WasmRefType {
                    nullable: false,
                    heap_type: WasmHeapType {
                        shared: false,
                        ty: WasmHeapTypeInner::ConcreteFunc(
                            CanonicalizedTypeIndex::Engine(
                                VMSharedTypeIndex(f.data(store).func_ref.type_index),
                            ),
                        ),
                    },
                },
            ),
        }
    }

    /// The type of the value.
    pub fn ty(&self, store: &StoreOpaque) -> (r: WasmValType)
        requires
            self.known(store@),
        ensures
            r == self.spec_ty(store@),
    {
        match *self {
            Val::I32(_) => WasmValType::I32,
            Val::I64(_) => WasmValType::I64,
            Val::F32(_) => WasmValType::F32,
            Val::F64(_) => WasmValType::F64,
            Val::V128(_) => WasmValType::V128,
            Val::FuncRef(None) => WasmValType::Ref(
                WasmRefType {
                    nullable: true,
                    heap_type: WasmHeapType { shared: false, ty: WasmHeapTypeInner::NoFunc },
                },
            ),
            Val::FuncRef(Some(f)) => WasmValType::Ref(
                WasmRefType {
                    nullable: false,
                    heap_type: WasmHeapType {
                        shared: false,
                        ty: WasmHeapTypeInner::ConcreteFunc(
                            CanonicalizedTypeIndex::Engine(f.type_index(store)),
                        ),
                    },
                },
            ),
        }
    }

    /// The bits that the value is passed as: functions as the addresses of their references.
    pub open spec fn spec_to_vmval(self, store: StoreModel) -> VMVal {
        match self {
            Val::I32(v) => VMVal::spec_i32(v),
            Val::I64(v) => VMVal::spec_i64(v),
            Val::F32(bits) => VMVal(bits as u128),
            Val::F64(bits) => VMVal(bits as u128),
            Val::V128(bits) => VMVal(bits),
            Val::FuncRef(None) => VMVal(0),
            Val::FuncRef(Some(f)) => VMVal(f.data(store).address as u128),
        }
    }

    /// The bits that the value is passed as.
    pub fn to_vmval(&self, store: &StoreOpaque) -> (r: VMVal)
        requires
            self.known(store@),
        ensures
            r == self.spec_to_vmval(store@),
    {
        match *self {
            Val::I32(v) => VMVal::i32(v),
            Val::I64(v) => VMVal::i64(v),
            Val::F32(bits) => VMVal::bits32(bits),
            Val::F64(bits) => VMVal::bits64(bits),
            Val::V128(bits) => VMVal::v128(bits),
            Val::FuncRef(None) => VMVal(0),
            Val::FuncRef(Some(f)) => VMVal(f.vm_func_ref(store) as u128),
        }
    }

    /// The value that bits of a type stand for, and the store that has it. A reference to a function
    /// that is not null becomes a new function of the store, given what the reference holds.
    pub open spec fn spec_from_vmval(
        bits: VMVal,
        ty: WasmValType,
        func_ref: VMFuncRef,
        store: StoreModel,
    ) -> (Val, StoreModel) {
        match ty {
            WasmValType::I32 => (Val::I32(bits.low32() as i32), store),
            WasmValType::I64 => (Val::I64(bits.low64() as i64), store),
            WasmValType::F32 => (Val::F32(bits.low32()), store),
            WasmValType::F64 => (Val::F64(bits.low64()), store),
            WasmValType::V128 => (Val::V128(bits.0), store),
            WasmValType::Ref(_) => if bits.low64() == 0 {
                (Val::FuncRef(None), store)
            } else {
                (
                    Val::FuncRef(Some(Func::next(store))),
                    Func::added(store, bits.low64() as usize, func_ref),
                )
            },
        }
    }

    /// The value that bits of a type stand for.
    pub fn from_vmval(
        store: &mut StoreOpaque,
        bits: VMVal,
        ty: WasmValType,
        func_ref: VMFuncRef,
    ) -> (r: Val)
        requires
            ty is Ref ==> bits.low64() <= usize::MAX,
        ensures
            (r, final(store)@) == Self::spec_from_vmval(bits, ty, func_ref, old(store)@),
    {
        match ty {
            WasmValType::I32 => Val::I32(bits.get_u32() as i32),
            WasmValType::I64 => Val::I64(bits.get_u64() as i64),
            WasmValType::F32 => Val::F32(bits.get_u32()),
            WasmValType::F64 => Val::F64(bits.get_u64()),
            WasmValType::V128 => Val::V128(bits.0),
            WasmValType::Ref(_) => Val::FuncRef(
                Func::from_vmval(store, bits.get_u64() as usize, func_ref),
            ),
        }
    }
}

/// Numbers that are passed as bits are the same numbers.
pub proof fn numbers_survive_passing(val: Val, store: StoreModel)
    requires
        !(val is FuncRef),
    ensures
        forall|func_ref: VMFuncRef| #[trigger]
            Val::spec_from_vmval(val.spec_to_vmval(store), val.spec_ty(store), func_ref, store) == (
                val,
                store,
            ),
{
    match val {
        Val::I32(v) => {
            let u = v as u32;
            assert(u as i32 == v) by (bit_vector)
                requires
                    u == v as u32,
            ;
            assert(u as u128 % 0x1_0000_0000 == u);
        },
        Val::I64(v) => {
            let u = v as u64;
            assert(u as i64 == v) by (bit_vector)
                requires
                    u == v as u64,
            ;
            assert(u as u128 % 0x1_0000_0000_0000_0000 == u);
        },
        _ => {},
    }
}

/// Why a call is refused before it is made.
#[derive(Debug, Clone, Copy, PartialEq, Eq, Structural)]
pub enum CallError {
    /// An argument has the wrong type.
    TypeMismatch { expected: WasmValType, found: WasmValType },
    /// There is no room for all results.
    ResultsTooSmall { needed: usize, found: usize },
}

/// The first argument that the function does not take, or the number of arguments.
pub open spec fn first_mismatch(
    expected: Seq<WasmValType>,
    params: Seq<Val>,
    store: StoreModel,
) -> int
    decreases expected.len(),
{
    if expected.len() == 0 {
        0
    } else {
        let before = first_mismatch(expected.drop_last(), params.drop_last(), store);
        let n = expected.len() - 1;
        if before < n {
            before
        } else if crate::matching::val_type_matches(
            expected.last(),
            params.last().spec_ty(store),
        ) {
            n + 1
        } else {
            n
        }
    }
}

/// A mismatch among the first arguments is the first one of all.
proof fn lemma_mismatch_stays(
    expected: Seq<WasmValType>,
    params: Seq<Val>,
    store: StoreModel,
    n: int,
)
    requires
        0 <= n <= expected.len() == params.len(),
        first_mismatch(expected.take(n), params.take(n), store) < n,
    ensures
        first_mismatch(expected, params, store) == first_mismatch(
            expected.take(n),
            params.take(n),
            store,
        ),
    decreases expected.len() - n,
{
    if n == expected.len() {
        assert(expected.take(n) =~= expected);
        assert(params.take(n) =~= params);
    } else {
        assert(expected.take(n + 1).drop_last() =~= expected.take(n));
        assert(params.take(n + 1).drop_last() =~= params.take(n));
        lemma_mismatch_stays(expected, params, store, n + 1);
    }
}

/// Whether a call can be made: all arguments have the right types, and there is room for all
/// results.
pub open spec fn callable(
    ty: WasmFuncType,
    params: Seq<Val>,
    results: nat,
    store: StoreModel,
) -> bool {
    &&& first_mismatch(ty.params@, params, store) == params.len()
    &&& results >= ty.results@.len()
}

/// Checks the arguments and the room for results of a call. There must be as many arguments as the
/// function has parameters.
pub fn check_call(func: Func, store: &StoreOpaque, params: &Vec<Val>, results_len: usize) -> (r:
    Result<(), CallError>)
    requires
        func.known(store@),
        params@.len() == func.spec_ty(store@).params@.len(),
        forall|i: int| 0 <= i < params@.len() ==> (#[trigger] params@[i]).known(store@),
    ensures
        r is Ok <==> callable(func.spec_ty(store@), params@, results_len as nat, store@),
        r matches Err(e) ==> {
            let ty = func.spec_ty(store@);
            let k = first_mismatch(ty.params@, params@, store@);
            e == (if k < params@.len() {
                CallError::TypeMismatch {
                    expected: ty.params@[k],
                    found: params@[k].spec_ty(store@),
                }
            } else {
                CallError::ResultsTooSmall {
                    needed: ty.results@.len() as usize,
                    found: results_len,
                }
            })
        },
{
    let ty = func.ty(store);
    assert(ty.params@.take(0) =~= Seq::empty());
    for i in 0..params.len()
        invariant
            *ty == func.spec_ty(store@),
            params@.len() == ty.params@.len(),
            forall|k: int| 0 <= k < params@.len() ==> (#[trigger] params@[k]).known(store@),
            first_mismatch(ty.params@.take(i as int), params@.take(i as int), store@) == i,
    {
        assert(ty.params@.take(i + 1).drop_last() =~= ty.params@.take(i as int));
        assert(params@.take(i + 1).drop_last() =~= params@.take(i as int));
        let expected = ty.params[i];
        let found = params[i].ty(store);
        if !val_matches(expected, found) {
            proof {
                lemma_mismatch_stays(ty.params@, params@, store@, i + 1);
            }
            return Err(CallError::TypeMismatch { expected, found });
        }
    }
    assert(ty.params@.take(params@.len() as int) =~= ty.params@);
    assert(params@.take(params@.len() as int) =~= params@);
    if results_len < ty.results.len() {
        return Err(
            CallError::ResultsTooSmall { needed: ty.results.len(), found: results_len },
        );
    }
    Ok(())
}

/// The list that arguments are passed in: as long as the longer of arguments and results, and zero
/// behind the arguments.
pub open spec fn lowered(params: Seq<Val>, results: nat, store: StoreModel) -> Seq<VMVal> {
    Seq::new(
        if params.len() < results {
            results
        } else {
            params.len()
        },
        |i: int|
            if i < params.len() {
                params[i].spec_to_vmval(store)
            } else {
                VMVal(0)
            },
    )
}

/// Lowers arguments into the store's list for them, which must be empty.
pub fn lower_params(store: &mut StoreOpaque, params: &Vec<Val>, results_len: usize) -> (r: Vec<VMVal>)
    requires
        old(store)@.storage.len() == 0,
        forall|i: int| 0 <= i < params@.len() ==> (#[trigger] params@[i]).known(old(store)@),
    ensures
        r@ == lowered(params@, results_len as nat, old(store)@),
        final(store)@ == (StoreModel { storage: Seq::empty(), ..old(store)@ }),
{
    let ghost before = store@;
    let mut values_vec = store.take_wasm_vmval_storage();
    let size: usize = if params.len() < results_len {
        results_len
    } else {
        params.len()
    };
    for i in 0..size
        invariant
            size == lowered(params@, results_len as nat, before).len(),
            before == old(store)@,
            store@ == (StoreModel { storage: Seq::empty(), ..before }),
            forall|k: int| 0 <= k < params@.len() ==> (#[trigger] params@[k]).known(before),
            values_vec@ == lowered(params@, results_len as nat, before).take(i as int),
    {
        if i < params.len() {
            assert(params@[i as int].known(store@));
            values_vec.push(params[i].to_vmval(store));
        } else {
            values_vec.push(VMVal(0));
        }
        assert(values_vec@ =~= lowered(params@, results_len as nat, before).take(i + 1));
    }
    assert(values_vec@ =~= lowered(params@, results_len as nat, before));
    values_vec
}

/// The first results in the list that they are returned in, and the store that has them.
pub open spec fn lifted(
    values: Seq<VMVal>,
    types: Seq<WasmValType>,
    refs: Seq<VMFuncRef>,
    store: StoreModel,
) -> (Seq<Val>, StoreModel)
    decreases types.len(),
{
    if types.len() == 0 {
        (Seq::empty(), store)
    } else {
        let (before, during) = lifted(values, types.drop_last(), refs, store);
        let n = types.len() - 1;
        let (val, after) = Val::spec_from_vmval(values[n], types.last(), refs[n], during);
        (before.push(val), after)
    }
}

/// Lifts results out of the list that they are returned in, and gives the list back. What lies at
/// the addresses of references is given.
pub fn lift_results(
    store: &mut StoreOpaque,
    values: Vec<VMVal>,
    types: &Vec<WasmValType>,
    refs: &Vec<VMFuncRef>,
) -> (r: Vec<Val>)
    requires
        types@.len() <= values@.len(),
        types@.len() <= refs@.len(),
        forall|i: int|
            0 <= i < types@.len() && #[trigger] types@[i] is Ref ==> values@[i].low64()
                <= usize::MAX,
    ensures
        ({
            let (results, after) = lifted(values@, types@, refs@, old(store)@);
            &&& r@ == results
            &&& final(store)@ == (StoreModel { storage: Seq::empty(), ..after })
        }),
{
    let mut results: Vec<Val> = Vec::new();
    assert(types@.take(0) =~= Seq::empty());
    for i in 0..types.len()
        invariant
            types@.len() <= values@.len(),
            types@.len() <= refs@.len(),
            forall|k: int|
                0 <= k < types@.len() && #[trigger] types@[k] is Ref ==> values@[k].low64()
                    <= usize::MAX,
            (results@, store@) == lifted(values@, types@.take(i as int), refs@, old(store)@),
    {
        assert(types@.take(i + 1).drop_last() =~= types@.take(i as int));
        assert(types@.take(i + 1).last() == types@[i as int]);
        let val = Val::from_vmval(store, values[i], types[i], refs[i]);
        results.push(val);
    }
    assert(types@.take(types@.len() as int) =~= types@);
    let mut values = values;
    values.clear();
    store.return_wasm_vmval_storage(values);
    results
}

/// Sets the limit that the stack of a guest can grow to, counted from the current stack pointer;
/// gives the limit before.
pub fn enter_wasm(store: &mut StoreOpaque, stack_pointer: usize) -> (r: usize)
    requires
        stack_pointer >= MAX_WASM_STACK,
    ensures
        r == old(store)@.stack_limit,
        final(store)@ == (StoreModel {
            stack_limit: (stack_pointer - MAX_WASM_STACK) as usize,
            ..old(store)@
        }),
{
    store.replace_stack_limit(stack_pointer - MAX_WASM_STACK)
}

/// Restores the limit of the stack, if there is one to restore.
pub fn exit_wasm(store: &mut StoreOpaque, prev_stack: Option<usize>)
    ensures
        final(store)@ == (StoreModel {
            stack_limit: match prev_stack {
                Some(limit) => limit,
                None => old(store)@.stack_limit,
            },
            ..old(store)@
        }),
{
    if let Some(limit) = prev_stack {
        store.replace_stack_limit(limit);
    }
}

/// Leaving a guest undoes entering it: whatever limits were set in between, the store has the
/// limit again that it had before.
pub proof fn leaving_undoes_entering(before: StoreModel, during: StoreModel, prev: usize)
    requires
        prev == before.stack_limit,
        during == (StoreModel { stack_limit: during.stack_limit, ..before }),
    ensures
        (StoreModel { stack_limit: prev, ..during }) == before,
{
}

/// How a trap was raised.
#[derive(Debug, Clone, Copy, PartialEq, Eq, Structural)]
pub enum TrapReason {
    /// By a builtin function.
    Wasm(TrapCode),
    /// By compiled code.
    Jit { pc: usize, faulting_addr: Option<usize>, trap: TrapCode },
}

/// What a caller is told of a trap.
#[derive(Debug, Clone, Copy, PartialEq, Eq, Structural)]
pub struct TrapError {
    pub trap: TrapCode,
    /// The access that failed.
    pub fault: Option<WasmFault>,
}

/// What a caller is told of a trap, given what the store finds out about the address of an access
/// that failed.
pub fn trap_error(reason: TrapReason, lookup: Option<WasmFault>) -> (r: TrapError)
    ensures
        r == (match reason {
            TrapReason::Wasm(trap) => TrapError { trap, fault: None },
            TrapReason::Jit { faulting_addr: Some(_), trap, .. } => TrapError {
                trap,
                fault: lookup,
            },
            TrapReason::Jit { faulting_addr: None, trap, .. } => TrapError { trap, fault: None },
        }),
{
    match reason {
        TrapReason::Wasm(trap) => TrapError { trap, fault: None },
        TrapReason::Jit { pc: _, faulting_addr, trap } => match faulting_addr {
            Some(_) => TrapError { trap, fault: lookup },
            None => TrapError { trap, fault: None },
        },
    }
}

} // verus!
