//! Which types match which.
use crate::types::{
    FuncTypeModel, WasmFuncType, WasmHeapType, WasmHeapTypeInner, WasmRefType, WasmValType,
};
use vstd::prelude::*;

verus! {

/// Whether values of a heap type are values of another one.
pub open spec fn heap_type_matches(a: WasmHeapTypeInner, b: WasmHeapTypeInner) -> bool {
    a == b || match b {
        WasmHeapTypeInner::Extern => a is NoExtern,
        WasmHeapTypeInner::Func => a is NoFunc || a is ConcreteFunc,
        WasmHeapTypeInner::ConcreteFunc(_) => a is NoFunc,
        WasmHeapTypeInner::Any => a is Eq || a is I31 || a is Array || a is Struct
            || a is ConcreteArray || a is ConcreteStruct || a is NoAny,
        WasmHeapTypeInner::Eq => a is I31 || a is Array || a is Struct || a is ConcreteArray
            || a is ConcreteStruct || a is NoAny,
        WasmHeapTypeInner::I31 | WasmHeapTypeInner::ConcreteArray(_)
        | WasmHeapTypeInner::ConcreteStruct(_) => a is NoAny,
        WasmHeapTypeInner::Array => a is ConcreteArray || a is NoAny,
        WasmHeapTypeInner::Struct => a is ConcreteStruct || a is NoAny,
        WasmHeapTypeInner::Exn => a is NoExn,
        WasmHeapTypeInner::Cont => a is NoCont,
        _ => false,
    }
}

/// Whether values of a reference type are values of another one.
pub open spec fn ref_type_matches(a: WasmRefType, b: WasmRefType) -> bool {
    &&& a.nullable ==> b.nullable
    &&& a.heap_type.shared == b.heap_type.shared
    &&& heap_type_matches(a.heap_type.ty, b.heap_type.ty)
}

/// Whether values of a type are values of another one.
pub open spec fn val_type_matches(a: WasmValType, b: WasmValType) -> bool {
    match (a, b) {
        (WasmValType::Ref(x), WasmValType::Ref(y)) => ref_type_matches(x, y),
        _ => a == b,
    }
}

/// Whether types match others position by position.
pub open spec fn val_types_match(a: Seq<WasmValType>, b: Seq<WasmValType>) -> bool {
    a.len() == b.len() && forall|i: int|
        0 <= i < a.len() ==> val_type_matches(#[trigger] a[i], b[i])
}

/// Whether functions of a type can be used as functions of another one: they take all that the
/// other takes, and return nothing that the other does not.
pub open spec fn func_type_matches(a: FuncTypeModel, b: FuncTypeModel) -> bool {
    val_types_match(b.params, a.params) && val_types_match(a.results, b.results)
}

/// Every type matches itself.
pub proof fn matching_is_reflexive(ty: WasmValType)
    ensures
        val_type_matches(ty, ty),
{
}

/// What matches a matching type matches.
pub proof fn matching_is_transitive(a: WasmValType, b: WasmValType, c: WasmValType)
    requires
        val_type_matches(a, b),
        val_type_matches(b, c),
    ensures
        val_type_matches(a, c),
{
}

/// Every function type matches itself.
pub proof fn function_matching_is_reflexive(ty: FuncTypeModel)
    ensures
        func_type_matches(ty, ty),
{
}

/// What matches a matching function type matches.
pub proof fn function_matching_is_transitive(
    a: FuncTypeModel,
    b: FuncTypeModel,
    c: FuncTypeModel,
)
    requires
        func_type_matches(a, b),
        func_type_matches(b, c),
    ensures
        func_type_matches(a, c),
{
    assert forall|i: int| 0 <= i < c.params.len() implies val_type_matches(
        #[trigger] c.params[i],
        a.params[i],
    ) by {
        matching_is_transitive(c.params[i], b.params[i], a.params[i]);
    }
    assert forall|i: int| 0 <= i < a.results.len() implies val_type_matches(
        #[trigger] a.results[i],
        c.results[i],
    ) by {
        matching_is_transitive(a.results[i], b.results[i], c.results[i]);
    }
}

/// Matching heap types belong to one hierarchy.
pub proof fn matching_keeps_the_top(a: WasmHeapType, b: WasmHeapType)
    requires
        heap_type_matches(a.ty, b.ty),
    ensures
        a.spec_top() == b.spec_top(),
{
}

/// Whether values of a heap type are values of another one.
pub fn heap_matches(a: WasmHeapTypeInner, b: WasmHeapTypeInner) -> (r: bool)
    ensures
        r == heap_type_matches(a, b),
{
    a == b || match b {
        WasmHeapTypeInner::Extern => matches!(a, WasmHeapTypeInner::NoExtern),
        WasmHeapTypeInner::Func => matches!(
            a,
            WasmHeapTypeInner::NoFunc | WasmHeapTypeInner::ConcreteFunc(_)
        ),
        WasmHeapTypeInner::ConcreteFunc(_) => matches!(a, WasmHeapTypeInner::NoFunc),
        WasmHeapTypeInner::Any => matches!(
            a,
            WasmHeapTypeInner::Eq
            | WasmHeapTypeInner::I31
            | WasmHeapTypeInner::Array
            | WasmHeapTypeInner::Struct
            | WasmHeapTypeInner::ConcreteArray(_)
            | WasmHeapTypeInner::ConcreteStruct(_)
            | WasmHeapTypeInner::NoAny
        ),
        WasmHeapTypeInner::Eq => matches!(
            a,
            WasmHeapTypeInner::I31
            | WasmHeapTypeInner::Array
            | WasmHeapTypeInner::Struct
            | WasmHeapTypeInner::ConcreteArray(_)
            | WasmHeapTypeInner::ConcreteStruct(_)
            | WasmHeapTypeInner::NoAny
        ),
        WasmHeapTypeInner::I31
        | WasmHeapTypeInner::ConcreteArray(_)
        | WasmHeapTypeInner::ConcreteStruct(_) => matches!(a, WasmHeapTypeInner::NoAny),
        WasmHeapTypeInner::Array => matches!(
            a,
            WasmHeapTypeInner::ConcreteArray(_) | WasmHeapTypeInner::NoAny
        ),
        WasmHeapTypeInner::Struct => matches!(
            a,
            WasmHeapTypeInner::ConcreteStruct(_) | WasmHeapTypeInner::NoAny
        ),
        WasmHeapTypeInner::Exn => matches!(a, WasmHeapTypeInner::NoExn),
        WasmHeapTypeInner::Cont => matches!(a, WasmHeapTypeInner::NoCont),
        _ => false,
    }
}

/// Whether values of a type are values of another one.
pub fn val_matches(a: WasmValType, b: WasmValType) -> (r: bool)
    ensures
        r == val_type_matches(a, b),
{
    match (a, b) {
        (WasmValType::Ref(x), WasmValType::Ref(y)) => {
            (!x.nullable || y.nullable) && x.heap_type.shared == y.heap_type.shared
                && heap_matches(x.heap_type.ty, y.heap_type.ty)
        },
        (WasmValType::Ref(_), _) => false,
        (_, WasmValType::Ref(_)) => false,
        _ => a == b,
    }
}

/// Whether types match others position by position.
pub fn vals_match(a: &Vec<WasmValType>, b: &Vec<WasmValType>) -> (r: bool)
    ensures
        r == val_types_match(a@, b@),
{
    if a.len() != b.len() {
        return false;
    }
    for i in 0..a.len()
        invariant
            a@.len() == b@.len(),
            forall|k: int| 0 <= k < i ==> val_type_matches(#[trigger] a@[k], b@[k]),
    {
        if !val_matches(a[i], b[i]) {
            return false;
        }
    }
    true
}

/// Whether functions of a type can be used as functions of another one.
pub fn func_matches(a: &WasmFuncType, b: &WasmFuncType) -> (r: bool)
    ensures
        r == func_type_matches(a@, b@),
{
    vals_match(&b.params, &a.params) && vals_match(&a.results, &b.results)
}

} // verus!
