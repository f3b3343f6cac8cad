//! Functions whose types are known.
use crate::func::{Func, Val};
use crate::matching::val_matches;
use crate::runtime::const_eval::VMVal;
use crate::store::{StoreModel, StoreOpaque};
use crate::types::{WasmFuncType, WasmHeapTopType, WasmHeapTypeInner, WasmValType};
use vstd::prelude::*;

verus! {

/// Where a type is checked.
#[derive(Debug, Clone, Copy, PartialEq, Eq, Structural)]
pub enum TypeCheckPosition {
    Param,
    Result,
}

/// Why the types of a function are not the expected ones.
#[derive(Debug, Clone, Copy, PartialEq, Eq, Structural)]
pub enum TypeCheckError {
    /// A type does not match.
    Mismatch { expected: WasmValType, actual: WasmValType },
    /// There are more or fewer types.
    Arity { expected: usize, found: usize },
}

/// The heap type at the top of a hierarchy.
pub open spec fn top_type(top: WasmHeapTopType) -> WasmHeapTypeInner {
    match top {
        WasmHeapTopType::Extern => WasmHeapTypeInner::Extern,
        WasmHeapTopType::Any => WasmHeapTypeInner::Any,
        WasmHeapTopType::Func => WasmHeapTypeInner::Func,
        WasmHeapTopType::Exn => WasmHeapTypeInner::Exn,
        WasmHeapTopType::Cont => WasmHeapTypeInner::Cont,
    }
}

/// Whether a type is as expected. Here a parameter of a declared type takes every reference of the
/// same hierarchy; that a value has the declared type is not known from this, and such a function
/// cannot be called with references through [`store_params`].
pub open spec fn type_checks(
    expected: WasmValType,
    actual: WasmValType,
    position: TypeCheckPosition,
) -> bool {
    match (expected, actual) {
        (WasmValType::Ref(e), WasmValType::Ref(a)) if position is Param
            && a.heap_type.spec_is_concrete() => e.heap_type.spec_top() == a.heap_type.spec_top(),
        _ => crate::matching::val_type_matches(expected, actual),
    }
}

/// Checks a type.
pub fn typecheck(expected: WasmValType, actual: WasmValType, position: TypeCheckPosition) -> (r:
    Result<(), TypeCheckError>)
    ensures
        r is Ok <==> type_checks(expected, actual, position),
        r matches Err(e) ==> e == (TypeCheckError::Mismatch { expected, actual }),
{
    let ok = match (position, expected, actual) {
        (TypeCheckPosition::Param, WasmValType::Ref(e), WasmValType::Ref(a)) => {
            if a.heap_type.is_concrete() {
                e.heap_type.top() == a.heap_type.top()
            } else {
                val_matches(expected, actual)
            }
        },
        _ => val_matches(expected, actual),
    };
    if ok {
        Ok(())
    } else {
        Err(TypeCheckError::Mismatch { expected, actual })
    }
}

/// Tops of hierarchies match only themselves.
pub proof fn tops_match_themselves(a: WasmHeapTopType, b: WasmHeapTopType)
    ensures
        crate::matching::heap_type_matches(top_type(a), top_type(b)) <==> a == b,
{
}

/// Whether the first types of a function are the first expected ones.
pub open spec fn prefix_checks(
    expected: Seq<WasmValType>,
    actual: Seq<WasmValType>,
    n: int,
) -> bool {
    forall|i: int|
        0 <= i < n ==> type_checks(
            #[trigger] expected[i],
            actual[i],
            TypeCheckPosition::Param,
        )
}

/// Whether the types of a function are the expected ones.
pub open spec fn all_check(expected: Seq<WasmValType>, actual: Seq<WasmValType>) -> bool {
    &&& expected.len() == actual.len()
    &&& prefix_checks(expected, actual, expected.len() as int)
}

/// Whether an error tells what is wrong with the types of a function: the first one that does not
/// match, or, if there is none, their number.
pub open spec fn fails_with(
    expected: Seq<WasmValType>,
    actual: Seq<WasmValType>,
    error: TypeCheckError,
) -> bool {
    match error {
        TypeCheckError::Mismatch { expected: e, actual: a } => exists|k: int|
            {
                &&& 0 <= k < expected.len() && k < actual.len()
                &&& e == #[trigger] expected[k]
                &&& a == actual[k]
                &&& !type_checks(e, a, TypeCheckPosition::Param)
                &&& prefix_checks(expected, actual, k)
            },
        TypeCheckError::Arity { expected: e, found } => {
            &&& e == expected.len()
            &&& found == actual.len()
            &&& e != found
            &&& prefix_checks(
                expected,
                actual,
                if e < found {
                    e as int
                } else {
                    found as int
                },
            )
        },
    }
}

/// Checks the types of a function, one after the other, and then their number.
pub fn typecheck_all(expected: &Vec<WasmValType>, actual: &Vec<WasmValType>) -> (r: Result<
    (),
    TypeCheckError,
>)
    ensures
        r is Ok <==> all_check(expected@, actual@),
        r matches Err(e) ==> fails_with(expected@, actual@, e),
{
    for i in 0..expected.len()
        invariant
            i <= actual@.len(),
            prefix_checks(expected@, actual@, i as int),
    {
        if i >= actual.len() {
            return Err(
                TypeCheckError::Arity { expected: expected.len(), found: actual.len() },
            );
        }
        match typecheck(expected[i], actual[i], TypeCheckPosition::Param) {
            Ok(()) => {},
            Err(e) => {
                assert(prefix_checks(expected@, actual@, i as int));
                assert(expected@[i as int] == expected@[i as int]);
                return Err(e);
            },
        }
    }
    if actual.len() > expected.len() {
        return Err(TypeCheckError::Arity { expected: expected.len(), found: actual.len() });
    }
    Ok(())
}

/// A function whose parameter and result types were checked.
pub struct TypedFunc {
    func: Func,
}

impl TypedFunc {
    /// The function.
    pub closed spec fn spec_func(self) -> Func {
        self.func
    }

    /// The function.
    pub fn into_func(self) -> (r: Func)
        ensures
            r == self.spec_func(),
    {
        self.func
    }
}

impl Func {
    /// The function with its type checked: first the parameters, then the results.
    pub fn typed(
        self,
        store: &StoreOpaque,
        params: &Vec<WasmValType>,
        results: &Vec<WasmValType>,
    ) -> (r: Result<TypedFunc, TypeCheckError>)
        requires
            self.known(store@),
        ensures
            r is Ok <==> {
                let ty = self.spec_ty(store@);
                &&& all_check(params@, ty.params@)
                &&& all_check(results@, ty.results@)
            },
            r matches Ok(f) ==> f.spec_func() == self,
            r matches Err(e) ==> {
                let ty = self.spec_ty(store@);
                if all_check(params@, ty.params@) {
                    fails_with(results@, ty.results@, e)
                } else {
                    fails_with(params@, ty.params@, e)
                }
            },
    {
        let ty = self.ty(store);
        match typecheck_all(params, &ty.params) {
            Ok(()) => {},
            Err(e) => return Err(e),
        }
        match typecheck_all(results, &ty.results) {
            Ok(()) => {},
            Err(e) => return Err(e),
        }
        Ok(TypedFunc { func: self })
    }
}

/// A value of another store was passed.
#[derive(Debug, Clone, Copy, PartialEq, Eq, Structural)]
pub struct CrossStoreValue;

/// Whether a value can be passed to a function of a store: numbers always, functions if the
/// store owns them.
pub open spec fn compatible(val: Val, store: StoreModel) -> bool {
    val matches Val::FuncRef(Some(f)) ==> f.0.lies_in(store.id, store.funcs.len())
}

/// Whether a value can be passed to a function of a store.
pub fn compatible_with_store(val: &Val, store: &StoreOpaque) -> (r: bool)
    ensures
        r == compatible(*val, store@),
{
    match *val {
        Val::FuncRef(Some(f)) => f.comes_from_same_store(store),
        _ => true,
    }
}

/// Whether a parameter takes every reference of its hierarchy, so that the values passed for it need
/// no check of their own.
pub open spec fn takes_any_reference(ty: WasmValType) -> bool {
    ty matches WasmValType::Ref(r) && !r.heap_type.spec_is_concrete()
}

/// Lowers the arguments of a typed call, unless one belongs to another store. Parameters that
/// references are passed for are not of a declared type.
pub fn store_params(store: &StoreOpaque, func_ty: &WasmFuncType, params: &Vec<Val>) -> (r: Result<
    Vec<VMVal>,
    CrossStoreValue,
>)
    requires
        params@.len() == func_ty.params@.len(),
        forall|i: int|
            0 <= i < params@.len() && (#[trigger] params@[i]) is FuncRef ==> takes_any_reference(
                func_ty.params@[i],
            ),
        forall|i: int|
            0 <= i < params@.len() && compatible(#[trigger] params@[i], store@)
                ==> params@[i].known(store@),
    ensures
        r is Ok <==> forall|i: int|
            0 <= i < params@.len() ==> compatible(#[trigger] params@[i], store@),
        r matches Ok(values) ==> values@ == Seq::new(
            params@.len(),
            |i: int| params@[i].spec_to_vmval(store@),
        ),
{
    let mut values: Vec<VMVal> = Vec::new();
    for i in 0..params.len()
        invariant
            forall|k: int|
                0 <= k < params@.len() && compatible(#[trigger] params@[k], store@)
                    ==> params@[k].known(store@),
            forall|k: int| 0 <= k < i ==> compatible(#[trigger] params@[k], store@),
            values@ == Seq::new(i as nat, |k: int| params@[k].spec_to_vmval(store@)),
    {
        if !compatible_with_store(&params[i], store) {
            return Err(CrossStoreValue);
        }
        values.push(params[i].to_vmval(store));
        assert(values@ =~= Seq::new((i + 1) as nat, |k: int| params@[k].spec_to_vmval(store@)));
    }
    Ok(values)
}

/// A reference to a function can be passed to the store that owns it, and to no other.
pub proof fn references_stay_in_their_store(f: Func, owner: StoreModel, other: StoreModel)
    requires
        f.0.lies_in(owner.id, owner.funcs.len()),
        other.id != owner.id,
    ensures
        compatible(Val::FuncRef(Some(f)), owner),
        !compatible(Val::FuncRef(Some(f)), other),
{
}

} // verus!
