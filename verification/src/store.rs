//! Stores, which own everything that instances share.
use crate::runtime::const_eval::VMVal;
use crate::runtime::instance::{ExportedGlobal, ExportedMemory, ExportedTable};
use crate::runtime::vmcontext::VMFuncRef;
use crate::types::WasmFuncType;
use std::marker::PhantomData;
use vstd::prelude::*;

verus! {

/// The place of an item in a store, which belongs to that store alone.
pub struct Stored<T> {
    /// The identity of the store.
    pub store_id: u64,
    pub index: usize,
    pub kind: PhantomData<T>,
}

impl<T> Clone for Stored<T> {
    fn clone(&self) -> (r: Self)
        ensures
            r == *self,
    {
        Stored { store_id: self.store_id, index: self.index, kind: PhantomData }
    }
}

impl<T> Copy for Stored<T> {

}

impl<T> Stored<T> {
    /// The place with a number in a store.
    pub fn new(store_id: u64, index: usize) -> (r: Self)
        ensures
            r.store_id == store_id,
            r.index == index,
    {
        Stored { store_id, index, kind: PhantomData }
    }

    /// Whether the place is one of the first `len` of a store.
    pub open spec fn lies_in(self, store_id: u64, len: nat) -> bool {
        self.store_id == store_id && self.index < len
    }
}

/// Who owns a function.
#[derive(Debug, Clone, Copy, PartialEq, Eq, Structural)]
pub enum FuncKind {
    /// An instance of the store.
    StoreOwned,
    /// The host, for several stores.
    SharedHost,
    /// The host, for this store.
    Host,
}

/// A function of a store: the address of its reference, and what the reference holds.
#[derive(Debug, Clone, Copy, PartialEq, Eq, Structural)]
pub struct FuncData {
    pub kind: FuncKind,
    pub address: usize,
    pub func_ref: VMFuncRef,
}

/// An exported tag, by the address of its definition.
#[derive(Debug, Clone, Copy, PartialEq, Eq, Structural)]
pub struct ExportedTag {
    pub definition: u64,
}

/// An access outside of everything that a guest may access, in terms of the guest.
#[derive(Debug, Clone, Copy, PartialEq, Eq, Structural)]
pub struct WasmFault {
    /// The size of the memory that the access was meant for.
    pub memory_size: usize,
    /// The address in the memory.
    pub wasm_address: u64,
}

/// What a store finds out about an access that failed.
#[derive(Debug, Clone, Copy, PartialEq, Eq, Structural)]
pub enum FaultLookup {
    /// The access was to an address near zero, which compiled code uses on purpose.
    NearNull,
    /// The access was meant for a memory of an instance.
    Fault(WasmFault),
    /// The access was meant for nothing that the store knows: the guest must be stopped.
    Unknown,
}

/// The number of bytes of a function reference.
pub const FUNC_REF_SIZE: usize = 32;

/// What all instances of a store share.
pub struct StoreOpaque {
    /// What tells the store from all others.
    id: u64,
    /// The lowest address that the stack can grow to.
    stack_limit: usize,
    funcs: Vec<FuncData>,
    tables: Vec<ExportedTable>,
    memories: Vec<ExportedMemory>,
    globals: Vec<ExportedGlobal>,
    tags: Vec<ExportedTag>,
    /// The types of functions, by shared index.
    types: Vec<WasmFuncType>,
    /// The values of globals that the host defines.
    host_globals: Vec<u128>,
    wasm_vmval_storage: Vec<VMVal>,
}

/// Everything that a store holds.
#[verifier::ext_equal]
pub struct StoreModel {
    pub id: u64,
    pub stack_limit: usize,
    pub funcs: Seq<FuncData>,
    pub tables: Seq<ExportedTable>,
    pub memories: Seq<ExportedMemory>,
    pub globals: Seq<ExportedGlobal>,
    pub tags: Seq<ExportedTag>,
    pub types: Seq<WasmFuncType>,
    pub host_globals: Seq<u128>,
    pub storage: Seq<VMVal>,
}

impl View for StoreOpaque {
    type V = StoreModel;

    closed spec fn view(&self) -> StoreModel {
        StoreModel {
            id: self.id,
            stack_limit: self.stack_limit,
            funcs: self.funcs@,
            tables: self.tables@,
            memories: self.memories@,
            globals: self.globals@,
            tags: self.tags@,
            types: self.types@,
            host_globals: self.host_globals@,
            storage: self.wasm_vmval_storage@,
        }
    }
}

/// The identities that stores were given so far: each is given once.
pub struct StoreIds {
    next: u64,
}

impl View for StoreIds {
    type V = Set<u64>;

    closed spec fn view(&self) -> Set<u64> {
        Set::new(|id: u64| id < self.next)
    }
}

impl StoreIds {
    /// No identity was given.
    pub fn new() -> (r: Self)
        ensures
            r@ == Set::<u64>::empty(),
    {
        let r = StoreIds { next: 0 };
        assert(r@ =~= Set::<u64>::empty());
        r
    }

    /// An identity that was not given before, as long as one is left.
    pub fn allocate(&mut self) -> (r: Option<u64>)
        ensures
            r matches Some(id) ==> !old(self)@.contains(id) && final(self)@ == old(self)@.insert(id),
            r is None <==> old(self)@.contains((u64::MAX - 1) as u64),
            r is None ==> final(self)@ == old(self)@,
    {
        let id: u64 = self.next;
        if id == u64::MAX {
            return None;
        }
        self.next = id + 1;
        assert(self@ =~= old(self)@.insert(id));
        Some(id)
    }
}

/// The stack limit of a store that runs no guest.
pub const NO_STACK_LIMIT: usize = usize::MAX;

impl StoreOpaque {
    /// A store without items, that knows the given types.
    pub fn new(id: u64, types: Vec<WasmFuncType>) -> (r: Self)
        ensures
            r@ == (StoreModel {
                id,
                stack_limit: NO_STACK_LIMIT,
                funcs: Seq::empty(),
                tables: Seq::empty(),
                memories: Seq::empty(),
                globals: Seq::empty(),
                tags: Seq::empty(),
                types: types@,
                host_globals: Seq::empty(),
                storage: Seq::empty(),
            }),
    {
        StoreOpaque {
            id,
            stack_limit: NO_STACK_LIMIT,
            funcs: Vec::new(),
            tables: Vec::new(),
            memories: Vec::new(),
            globals: Vec::new(),
            tags: Vec::new(),
            types,
            host_globals: Vec::new(),
            wasm_vmval_storage: Vec::new(),
        }
    }

    /// Takes the list that values are passed in.
    pub fn take_wasm_vmval_storage(&mut self) -> (r: Vec<VMVal>)
        ensures
            r@ == old(self)@.storage,
            final(self)@ == (StoreModel { storage: Seq::empty(), ..old(self)@ }),
    {
        let mut storage: Vec<VMVal> = Vec::new();
        std::mem::swap(&mut storage, &mut self.wasm_vmval_storage);
        storage
    }

    /// Gives the list back that values are passed in.
    pub fn return_wasm_vmval_storage(&mut self, storage: Vec<VMVal>)
        ensures
            final(self)@ == (StoreModel { storage: storage@, ..old(self)@ }),
    {
        self.wasm_vmval_storage = storage;
    }

    /// Sets the lowest address that the stack can grow to; gives the one before.
    pub fn replace_stack_limit(&mut self, limit: usize) -> (r: usize)
        ensures
            r == old(self)@.stack_limit,
            final(self)@ == (StoreModel { stack_limit: limit, ..old(self)@ }),
    {
        let before: usize = self.stack_limit;
        self.stack_limit = limit;
        before
    }

    /// Adds the value of a global that the host defines; gives its place.
    pub fn add_host_global(&mut self, value: u128) -> (r: usize)
        ensures
            r == old(self)@.host_globals.len(),
            final(self)@ == (StoreModel {
                host_globals: old(self)@.host_globals.push(value),
                ..old(self)@
            }),
    {
        let place: usize = self.host_globals.len();
        self.host_globals.push(value);
        place
    }

    /// The value of a global that the host defines.
    pub fn host_global(&self, place: usize) -> (r: u128)
        requires
            place < self@.host_globals.len(),
        ensures
            r == self@.host_globals[place as int],
    {
        self.host_globals[place]
    }

    /// Sets the value of a global that the host defines.
    pub fn set_host_global(&mut self, place: usize, value: u128)
        requires
            place < old(self)@.host_globals.len(),
        ensures
            final(self)@ == (StoreModel {
                host_globals: old(self)@.host_globals.update(place as int, value),
                ..old(self)@
            }),
    {
        self.host_globals.set(place, value);
    }

    /// The type with a shared index.
    pub fn func_type(&self, index: usize) -> (r: &WasmFuncType)
        requires
            index < self@.types.len(),
        ensures
            *r == self@.types[index as int],
    {
        &self.types[index]
    }

    /// What is to be made of an access that failed, given what each instance says of its address:
    /// at most one instance can know it.
    pub fn wasm_fault(&self, faulting_addr: usize, faults: &Vec<Option<WasmFault>>) -> (r:
        FaultLookup)
        requires
            forall|i: int, j: int|
                0 <= i < j < faults@.len() ==> !(#[trigger] faults@[i] is Some
                    && #[trigger] faults@[j] is Some),
        ensures
            if faulting_addr <= FUNC_REF_SIZE {
                r is NearNull
            } else {
                match r {
                    FaultLookup::NearNull => false,
                    FaultLookup::Fault(f) => faults@.contains(Some(f)),
                    FaultLookup::Unknown => forall|i: int|
                        0 <= i < faults@.len() ==> (#[trigger] faults@[i]) is None,
                }
            },
    {
        if faulting_addr <= FUNC_REF_SIZE {
            return FaultLookup::NearNull;
        }
        for i in 0..faults.len()
            invariant
                faulting_addr > FUNC_REF_SIZE,
                forall|k: int| 0 <= k < i ==> (#[trigger] faults@[k]) is None,
        {
            if let Some(fault) = faults[i] {
                assert(faults@[i as int] == Some(fault));
                return FaultLookup::Fault(fault);
            }
        }
        FaultLookup::Unknown
    }

    /// Adds a function; gives its place.
    pub fn add_function(&mut self, item: FuncData) -> (r: Stored<FuncData>)
        ensures
            r.store_id == old(self)@.id,
            r.index == old(self)@.funcs.len(),
            final(self)@ == (StoreModel { funcs: old(self)@.funcs.push(item), ..old(self)@ }),
    {
        let index: usize = self.funcs.len();
        self.funcs.push(item);
        Stored::new(self.id, index)
    }

    /// Whether the store has a function at a place.
    pub fn has_function(&self, stored: Stored<FuncData>) -> (r: bool)
        ensures
            r == (stored.lies_in(self@.id, self@.funcs.len())),
    {
        stored.store_id == self.id && stored.index < self.funcs.len()
    }

    /// The function at a place.
    pub fn get_function(&self, stored: Stored<FuncData>) -> (r: Option<FuncData>)
        ensures
            r == (if stored.lies_in(self@.id, self@.funcs.len()) {
                Some(self@.funcs[stored.index as int])
            } else {
                None
            }),
    {
        if stored.store_id == self.id && stored.index < self.funcs.len() {
            Some(self.funcs[stored.index])
        } else {
            None
        }
    }

    /// The function at a place, which the store must have.
    pub fn function(&self, stored: Stored<FuncData>) -> (r: FuncData)
        requires
            stored.lies_in(self@.id, self@.funcs.len()),
        ensures
            r == self@.funcs[stored.index as int],
    {
        self.funcs[stored.index]
    }

    /// Adds a table; gives its place.
    pub fn add_table(&mut self, item: ExportedTable) -> (r: Stored<ExportedTable>)
        ensures
            r.store_id == old(self)@.id,
            r.index == old(self)@.tables.len(),
            final(self)@ == (StoreModel { tables: old(self)@.tables.push(item), ..old(self)@ }),
    {
        let index: usize = self.tables.len();
        self.tables.push(item);
        Stored::new(self.id, index)
    }

    /// Whether the store has a table at a place.
    pub fn has_table(&self, stored: Stored<ExportedTable>) -> (r: bool)
        ensures
            r == (stored.lies_in(self@.id, self@.tables.len())),
    {
        stored.store_id == self.id && stored.index < self.tables.len()
    }

    /// The table at a place.
    pub fn get_table(&self, stored: Stored<ExportedTable>) -> (r: Option<ExportedTable>)
        ensures
            r == (if stored.lies_in(self@.id, self@.tables.len()) {
                Some(self@.tables[stored.index as int])
            } else {
                None
            }),
    {
        if stored.store_id == self.id && stored.index < self.tables.len() {
            Some(self.tables[stored.index])
        } else {
            None
        }
    }

    /// The table at a place, which the store must have.
    pub fn table(&self, stored: Stored<ExportedTable>) -> (r: ExportedTable)
        requires
            stored.lies_in(self@.id, self@.tables.len()),
        ensures
            r == self@.tables[stored.index as int],
    {
        self.tables[stored.index]
    }

    /// Adds a memory; gives its place.
    pub fn add_memory(&mut self, item: ExportedMemory) -> (r: Stored<ExportedMemory>)
        ensures
            r.store_id == old(self)@.id,
            r.index == old(self)@.memories.len(),
            final(self)@ == (StoreModel { memories: old(self)@.memories.push(item), ..old(self)@ }),
    {
        let index: usize = self.memories.len();
        self.memories.push(item);
        Stored::new(self.id, index)
    }

    /// Whether the store has a memory at a place.
    pub fn has_memory(&self, stored: Stored<ExportedMemory>) -> (r: bool)
        ensures
            r == (stored.lies_in(self@.id, self@.memories.len())),
    {
        stored.store_id == self.id && stored.index < self.memories.len()
    }

    /// The memory at a place.
    pub fn get_memory(&self, stored: Stored<ExportedMemory>) -> (r: Option<ExportedMemory>)
        ensures
            r == (if stored.lies_in(self@.id, self@.memories.len()) {
                Some(self@.memories[stored.index as int])
            } else {
                None
            }),
    {
        if stored.store_id == self.id && stored.index < self.memories.len() {
            Some(self.memories[stored.index])
        } else {
            None
        }
    }

    /// The memory at a place, which the store must have.
    pub fn memory(&self, stored: Stored<ExportedMemory>) -> (r: ExportedMemory)
        requires
            stored.lies_in(self@.id, self@.memories.len()),
        ensures
            r == self@.memories[stored.index as int],
    {
        self.memories[stored.index]
    }

    /// Adds a global; gives its place.
    pub fn add_global(&mut self, item: ExportedGlobal) -> (r: Stored<ExportedGlobal>)
        ensures
            r.store_id == old(self)@.id,
            r.index == old(self)@.globals.len(),
            final(self)@ == (StoreModel { globals: old(self)@.globals.push(item), ..old(self)@ }),
    {
        let index: usize = self.globals.len();
        self.globals.push(item);
        Stored::new(self.id, index)
    }

    /// Whether the store has a global at a place.
    pub fn has_global(&self, stored: Stored<ExportedGlobal>) -> (r: bool)
        ensures
            r == (stored.lies_in(self@.id, self@.globals.len())),
    {
        stored.store_id == self.id && stored.index < self.globals.len()
    }

    /// The global at a place.
    pub fn get_global(&self, stored: Stored<ExportedGlobal>) -> (r: Option<ExportedGlobal>)
        ensures
            r == (if stored.lies_in(self@.id, self@.globals.len()) {
                Some(self@.globals[stored.index as int])
            } else {
                None
            }),
    {
        if stored.store_id == self.id && stored.index < self.globals.len() {
            Some(self.globals[stored.index])
        } else {
            None
        }
    }

    /// The global at a place, which the store must have.
    pub fn global(&self, stored: Stored<ExportedGlobal>) -> (r: ExportedGlobal)
        requires
            stored.lies_in(self@.id, self@.globals.len()),
        ensures
            r == self@.globals[stored.index as int],
    {
        self.globals[stored.index]
    }

    /// Adds a tag; gives its place.
    pub fn add_tag(&mut self, item: ExportedTag) -> (r: Stored<ExportedTag>)
        ensures
            r.store_id == old(self)@.id,
            r.index == old(self)@.tags.len(),
            final(self)@ == (StoreModel { tags: old(self)@.tags.push(item), ..old(self)@ }),
    {
        let index: usize = self.tags.len();
        self.tags.push(item);
        Stored::new(self.id, index)
    }

    /// Whether the store has a tag at a place.
    pub fn has_tag(&self, stored: Stored<ExportedTag>) -> (r: bool)
        ensures
            r == (stored.lies_in(self@.id, self@.tags.len())),
    {
        stored.store_id == self.id && stored.index < self.tags.len()
    }

    /// The tag at a place.
    pub fn get_tag(&self, stored: Stored<ExportedTag>) -> (r: Option<ExportedTag>)
        ensures
            r == (if stored.lies_in(self@.id, self@.tags.len()) {
                Some(self@.tags[stored.index as int])
            } else {
                None
            }),
    {
        if stored.store_id == self.id && stored.index < self.tags.len() {
            Some(self.tags[stored.index])
        } else {
            None
        }
    }

    /// The tag at a place, which the store must have.
    pub fn tag(&self, stored: Stored<ExportedTag>) -> (r: ExportedTag)
        requires
            stored.lies_in(self@.id, self@.tags.len()),
        ensures
            r == self@.tags[stored.index as int],
    {
        self.tags[stored.index]
    }
}

} // verus!
