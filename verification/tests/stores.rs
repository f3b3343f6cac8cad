use k23_wasm::func::{
    check_call, enter_wasm, exit_wasm, lift_results, lower_params, trap_error, CallError, Func,
    TrapReason, Val, MAX_WASM_STACK,
};
use k23_wasm::global::{Extern, Global, GlobalError, Memory, Tag};
use k23_wasm::indices::{CanonicalizedTypeIndex, VMSharedTypeIndex};
use k23_wasm::ir::TrapCode;
use k23_wasm::matching::val_matches;
use k23_wasm::runtime::const_eval::VMVal;
use k23_wasm::runtime::instance::{Export, ExportedFunction, ExportedMemory};
use k23_wasm::runtime::vmcontext::VMFuncRef;
use k23_wasm::store::{ExportedTag, FaultLookup, StoreIds, StoreOpaque, WasmFault};
use k23_wasm::typed::{compatible_with_store, store_params, typecheck_all, TypeCheckError};
use k23_wasm::types::{
    GlobalDesc, MemoryDesc, WasmFuncType, WasmHeapType, WasmHeapTypeInner, WasmRefType, WasmValType,
};

fn reference(nullable: bool, ty: WasmHeapTypeInner) -> WasmValType {
    WasmValType::Ref(WasmRefType { nullable, heap_type: WasmHeapType { shared: false, ty } })
}

fn concrete(i: u32) -> WasmHeapTypeInner {
    WasmHeapTypeInner::ConcreteFunc(CanonicalizedTypeIndex::Engine(VMSharedTypeIndex::from_u32(i)))
}

fn func_ref(type_index: u32) -> VMFuncRef {
    VMFuncRef { array_call: 1, wasm_call: 2, vmctx: 3, type_index }
}

fn store() -> StoreOpaque {
    store_with_id(0)
}

fn store_with_id(id: u64) -> StoreOpaque {
    StoreOpaque::new(id, vec![WasmFuncType {
        params: vec![WasmValType::I32, WasmValType::I64],
        results: vec![WasmValType::F32],
    }])
}

fn func(store: &mut StoreOpaque) -> Func {
    Func::from_exported_function(store, ExportedFunction { func_ref: 0x1234 }, func_ref(0))
}

#[test]
fn types_match_their_supertypes() {
    assert!(val_matches(WasmValType::I32, WasmValType::I32));
    assert!(!val_matches(WasmValType::I32, WasmValType::I64));
    assert!(val_matches(reference(false, concrete(3)), reference(true, WasmHeapTypeInner::Func)));
    assert!(!val_matches(reference(true, WasmHeapTypeInner::Func), reference(false, WasmHeapTypeInner::Func)));
    assert!(!val_matches(reference(true, concrete(3)), reference(true, concrete(4))));
    assert!(val_matches(reference(true, WasmHeapTypeInner::NoFunc), reference(true, concrete(4))));
    assert!(val_matches(reference(true, WasmHeapTypeInner::I31), reference(true, WasmHeapTypeInner::Eq)));
    assert!(val_matches(reference(true, WasmHeapTypeInner::NoAny), reference(true, WasmHeapTypeInner::Any)));
    assert!(!val_matches(reference(true, WasmHeapTypeInner::Extern), reference(true, WasmHeapTypeInner::Any)));
    assert!(!val_matches(WasmValType::I32, reference(true, WasmHeapTypeInner::Any)));
}

#[test]
fn functions_match_types_that_ask_for_less() {
    let any_func = reference(true, WasmHeapTypeInner::Func);
    let special = reference(false, concrete(0));
    let mut store = StoreOpaque::new(0, vec![WasmFuncType {
        params: vec![any_func],
        results: vec![special],
    }]);
    let f = func(&mut store);
    let ty = |params: Vec<WasmValType>, results: Vec<WasmValType>| WasmFuncType { params, results };
    assert!(f.matches_ty(&store, &ty(vec![any_func], vec![special])));
    assert!(f.matches_ty(&store, &ty(vec![special], vec![any_func])));
    assert!(!f.matches_ty(&store, &ty(vec![WasmValType::I32], vec![special])));
    assert!(!f.matches_ty(&store, &ty(vec![any_func], vec![reference(false, concrete(1))])));
    assert!(!f.matches_ty(&store, &ty(vec![], vec![special])));
    assert!(!f.matches_ty(&store, &ty(vec![any_func], vec![special, special])));
}

#[test]
fn calls_are_checked() {
    let mut store = store();
    let f = func(&mut store);
    assert!(f.comes_from_same_store(&store));
    assert_eq!(f.vm_func_ref(&store), 0x1234);
    assert_eq!(check_call(f, &store, &vec![Val::I32(1), Val::I64(2)], 1), Ok(()));
    assert_eq!(
        check_call(f, &store, &vec![Val::I32(1), Val::F64(2)], 1),
        Err(CallError::TypeMismatch { expected: WasmValType::I64, found: WasmValType::F64 })
    );
    assert_eq!(
        check_call(f, &store, &vec![Val::I32(1), Val::I64(2)], 0),
        Err(CallError::ResultsTooSmall { needed: 1, found: 0 })
    );
}

#[test]
fn values_survive_a_call() {
    let mut store = store();
    let f = func(&mut store);
    let params = vec![Val::I32(-1), Val::I64(-2), Val::FuncRef(Some(f)), Val::FuncRef(None)];
    let values = lower_params(&mut store, &params, 6);
    assert_eq!(
        values,
        vec![
            VMVal(0xffff_ffff),
            VMVal(0xffff_ffff_ffff_fffe),
            VMVal(0x1234),
            VMVal(0),
            VMVal(0),
            VMVal(0),
        ]
    );
    let funcref = reference(true, WasmHeapTypeInner::Func);
    let types = vec![WasmValType::I32, WasmValType::I64, funcref, funcref];
    let refs = vec![func_ref(0); 4];
    let results = lift_results(&mut store, values, &types, &refs);
    assert!(matches!(results[0], Val::I32(-1)));
    assert!(matches!(results[1], Val::I64(-2)));
    match results[2] {
        Val::FuncRef(Some(g)) => assert_eq!(g.vm_func_ref(&store), 0x1234),
        _ => panic!("a reference stays a reference"),
    }
    assert!(matches!(results[3], Val::FuncRef(None)));
}

#[test]
fn stack_limits_are_restored() {
    let mut store = store();
    let outer = enter_wasm(&mut store, 0x100_0000);
    assert_eq!(outer, usize::MAX);
    let inner = enter_wasm(&mut store, 0x90_0000);
    assert_eq!(inner, 0x100_0000 - MAX_WASM_STACK);
    exit_wasm(&mut store, None);
    exit_wasm(&mut store, Some(inner));
    exit_wasm(&mut store, Some(outer));
    assert_eq!(enter_wasm(&mut store, MAX_WASM_STACK), usize::MAX);
    assert_eq!(MAX_WASM_STACK, 512 * 1024);
}

#[test]
fn faults_are_attributed_to_instances() {
    let store = store();
    let fault = WasmFault { memory_size: 65536, wasm_address: 70000 };
    assert_eq!(store.wasm_fault(32, &vec![Some(fault)]), FaultLookup::NearNull);
    assert_eq!(store.wasm_fault(33, &vec![None, Some(fault)]), FaultLookup::Fault(fault));
    assert_eq!(store.wasm_fault(33, &vec![None, None]), FaultLookup::Unknown);
    let jit = |faulting_addr| TrapReason::Jit { pc: 1, faulting_addr, trap: TrapCode::HeapOutOfBounds };
    assert_eq!(trap_error(jit(Some(5)), Some(fault)).fault, Some(fault));
    assert_eq!(trap_error(jit(None), Some(fault)).fault, None);
    let wasm = trap_error(TrapReason::Wasm(TrapCode::Unreachable), Some(fault));
    assert_eq!((wasm.trap, wasm.fault), (TrapCode::Unreachable, None));
}

#[test]
fn typed_functions_have_the_right_types() {
    let mut store = store();
    let f = func(&mut store);
    let params = vec![WasmValType::I32, WasmValType::I64];
    let results = vec![WasmValType::F32];
    assert!(f.typed(&store, &params, &results).is_ok());
    let mismatch = |expected, actual| Some(TypeCheckError::Mismatch { expected, actual });
    let refused = |p: &Vec<WasmValType>, r: &Vec<WasmValType>| f.typed(&store, p, r).err();
    assert_eq!(refused(&results, &results), mismatch(WasmValType::F32, WasmValType::I32));
    assert_eq!(refused(&params, &vec![WasmValType::I64]), mismatch(WasmValType::I64, WasmValType::F32));
    // The parameters are checked before the results.
    assert_eq!(refused(&vec![], &vec![]), Some(TypeCheckError::Arity { expected: 0, found: 2 }));
    assert_eq!(refused(&params, &vec![]), Some(TypeCheckError::Arity { expected: 0, found: 1 }));
    assert_eq!(
        typecheck_all(&vec![WasmValType::I32], &params),
        Err(TypeCheckError::Arity { expected: 1, found: 2 })
    );
    assert_eq!(
        typecheck_all(&params, &vec![WasmValType::I32]),
        Err(TypeCheckError::Arity { expected: 2, found: 1 })
    );
    assert_eq!(
        typecheck_all(&params, &vec![WasmValType::I32, WasmValType::F32]),
        Err(TypeCheckError::Mismatch { expected: WasmValType::I64, actual: WasmValType::F32 })
    );
    // A parameter of a declared type takes any reference to a function.
    let funcref = vec![reference(true, WasmHeapTypeInner::Func)];
    assert_eq!(typecheck_all(&funcref, &vec![reference(false, concrete(9))]), Ok(()));
}

#[test]
fn values_of_other_stores_are_refused() {
    let mut ids = StoreIds::new();
    let mut first = store_with_id(ids.allocate().unwrap());
    let mut second = store_with_id(ids.allocate().unwrap());
    let f = func(&mut first);
    let any_func = reference(true, WasmHeapTypeInner::Func);
    let takes = |params: Vec<WasmValType>| WasmFuncType { params, results: vec![] };
    let (one, two) = (takes(vec![any_func]), takes(vec![WasmValType::I32, any_func]));
    assert_eq!(store_params(&first, &one, &vec![Val::FuncRef(Some(f))]), Ok(vec![VMVal(0x1234)]));
    assert!(store_params(&second, &two, &vec![Val::I32(1), Val::FuncRef(Some(f))]).is_err());
    assert_eq!(store_params(&second, &one, &vec![Val::FuncRef(None)]), Ok(vec![VMVal(0)]));

    // A store with more functions does not own the function either.
    let g = func(&mut second);
    func(&mut second);
    assert!(compatible_with_store(&Val::FuncRef(Some(f)), &first));
    assert!(!compatible_with_store(&Val::FuncRef(Some(f)), &second));
    assert!(!f.comes_from_same_store(&second));
    assert!(!second.has_function(f.0));
    assert!(second.get_function(f.0).is_none());
    assert!(g.comes_from_same_store(&second));
    assert!(!g.comes_from_same_store(&first));
    assert!(compatible_with_store(&Val::I64(-1), &second));
}

#[test]
fn globals_keep_their_values() {
    let mut store = store();
    let desc = |mutable| GlobalDesc { content_type: WasmValType::I32, mutable, shared: false };
    assert_eq!(Global::new(&mut store, desc(true), Val::I64(1)).err(), Some(GlobalError::TypeMismatch));
    let fixed = Global::new(&mut store, desc(false), Val::I32(5)).unwrap();
    let open = Global::new(&mut store, desc(true), Val::I32(6)).unwrap();
    assert_eq!(fixed.set(&mut store, Val::I32(7)), Err(GlobalError::Immutable));
    assert_eq!(open.set(&mut store, Val::F32(7)), Err(GlobalError::TypeMismatch));
    assert_eq!(open.set(&mut store, Val::I32(-7)), Ok(()));
    assert!(matches!(open.get(&mut store, func_ref(0)), Val::I32(-7)));
    assert!(matches!(fixed.get(&mut store, func_ref(0)), Val::I32(5)));
    assert!(open.ty(&store).mutable);
}

#[test]
fn setting_a_global_keeps_higher_bits() {
    let mut store = store();
    let desc = GlobalDesc { content_type: WasmValType::V128, mutable: true, shared: false };
    let global = Global::new(&mut store, desc, Val::V128(u128::MAX)).unwrap();
    assert_eq!(global.as_vmglobal_import(&store), 0);
    assert_eq!(global.set(&mut store, Val::V128(3)), Ok(()));
    assert!(matches!(global.get(&mut store, func_ref(0)), Val::V128(3)));
}

#[test]
fn exports_become_items_of_the_store() {
    let mut store = store();
    let memory = MemoryDesc {
        minimum: 1,
        maximum: None,
        shared: false,
        memory64: false,
        page_size_log2: 16,
        offset_guard_size: 0,
    };
    let export = Export::Memory(ExportedMemory { definition: 8, vmctx: 9, memory });
    let item = Extern::from_export(&mut store, export, func_ref(0));
    assert!(item.is_memory());
    let m: Memory = item.get_memory().unwrap();
    assert!(item.get_func().is_none());
    assert_eq!(m.ty(&store).minimum, 1);
    assert_eq!(m.as_vmmemory_import(&store).vmctx, 9);
    let tag = Tag::from_exported_tag(&mut store, ExportedTag { definition: 11 });
    assert_eq!(tag.as_vmtag_import(&store), 11);
    assert!(Func::from_vmval(&mut store, 0, func_ref(0)).is_none());
    let import = Func::as_vmfunction_import(&func_ref(0), None, Some(77));
    assert_eq!((import.wasm_call, import.array_call, import.vmctx), (77, 1, 3));
    assert!(matches!(Extern::from(m), Extern::Memory(_)));
}
