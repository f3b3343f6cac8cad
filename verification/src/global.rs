//! Globals, tables, memories and tags of a store.
use crate::func::{Func, Val};
use crate::matching::val_matches;
use crate::runtime::const_eval::VMVal;
use crate::runtime::instance::{Export, ExportedGlobal, ExportedMemory, ExportedTable};
use crate::runtime::vmcontext::{VMFuncRef, VMImport};
use crate::store::{ExportedTag, StoreModel, StoreOpaque, Stored};
use crate::types::{GlobalDesc, MemoryDesc, WasmHeapTypeInner, WasmValType};
use vstd::prelude::*;

verus! {

/// A global of a store.
#[derive(Clone, Copy)]
pub struct Global(pub Stored<ExportedGlobal>);

/// A table of a store.
#[derive(Clone, Copy)]
pub struct Table(pub Stored<ExportedTable>);

/// A memory of a store.
#[derive(Clone, Copy)]
pub struct Memory(pub Stored<ExportedMemory>);

/// A tag of a store.
#[derive(Clone, Copy)]
pub struct Tag(pub Stored<ExportedTag>);

/// Why a global is not created or set.
#[derive(Debug, Clone, Copy, PartialEq, Eq, Structural)]
pub enum GlobalError {
    /// The global cannot change.
    Immutable,
    /// The value has the wrong type.
    TypeMismatch,
}

/// The bits of a global after a value was set: the bits above those of the value stay.
pub open spec fn bits_set(bits: u128, value: Val, store: StoreModel) -> u128 {
    let low = value.spec_to_vmval(store).0;
    match value {
        Val::I32(_) | Val::F32(_) => (bits - bits % 0x1_0000_0000 + low) as u128,
        Val::V128(_) => low,
        _ => (bits - bits % 0x1_0000_0000_0000_0000 + low) as u128,
    }
}

/// Whether a value can be read: numbers always, references to functions unless they are null, and
/// references that are always null.
pub open spec fn readable(ty: WasmValType, bits: u128) -> bool {
    ty matches WasmValType::Ref(r) ==> {
        ||| r.heap_type.ty is NoFunc
        ||| (r.heap_type.ty is Func || r.heap_type.ty is ConcreteFunc) && 0 < VMVal(bits).low64()
            <= usize::MAX
    }
}

/// The value that a global of a type has, and the store that has it.
pub open spec fn value_of(
    ty: WasmValType,
    bits: u128,
    func_ref: VMFuncRef,
    store: StoreModel,
) -> (Val, StoreModel) {
    if ty is Ref && (ty->Ref_0).heap_type.ty is NoFunc {
        (Val::FuncRef(None), store)
    } else {
        Val::spec_from_vmval(VMVal(bits), ty, func_ref, store)
    }
}

impl Global {
    /// Whether the store has the global, and holds its value.
    pub open spec fn known(self, store: StoreModel) -> bool {
        &&& self.0.lies_in(store.id, store.globals.len())
        &&& store.globals[self.0.index as int].definition < store.host_globals.len() <= usize::MAX
    }

    /// The place of the global's value.
    pub open spec fn place(self, store: StoreModel) -> int {
        store.globals[self.0.index as int].definition as int
    }

    /// The type of the global.
    pub open spec fn spec_ty(self, store: StoreModel) -> GlobalDesc {
        store.globals[self.0.index as int].ty
    }

    /// The bits of the global's value.
    pub open spec fn bits(self, store: StoreModel) -> u128 {
        store.host_globals[self.place(store)]
    }

    /// Creates a global of the host, unless the value has the wrong type.
    pub fn new(store: &mut StoreOpaque, ty: GlobalDesc, val: Val) -> (r: Result<Self, GlobalError>)
        requires
            val.known(old(store)@),
        ensures
            r is Ok <==> crate::matching::val_type_matches(
                val.spec_ty(old(store)@),
                ty.content_type,
            ),
            r matches Ok(g) ==> {
                &&& g.0.store_id == old(store)@.id
                &&& g.0.index == old(store)@.globals.len()
                &&& final(store)@ == (StoreModel {
                    host_globals: old(store)@.host_globals.push(
                        val.spec_to_vmval(old(store)@).0,
                    ),
                    globals: old(store)@.globals.push(
                        ExportedGlobal {
                            definition: old(store)@.host_globals.len() as u64,
                            vmctx: 0,
                            ty,
                        },
                    ),
                    ..old(store)@
                })
            },
            r matches Err(e) ==> e is TypeMismatch && final(store)@ == old(store)@,
    {
        if !val_matches(val.ty(store), ty.content_type) {
            return Err(GlobalError::TypeMismatch);
        }
        let bits = val.to_vmval(store);
        let place: usize = store.add_host_global(bits.0);
        let stored = store.add_global(ExportedGlobal { definition: place as u64, vmctx: 0, ty });
        Ok(Global(stored))
    }

    /// The type of the global.
    pub fn ty(&self, store: &StoreOpaque) -> (r: GlobalDesc)
        requires
            self.0.lies_in(store@.id, store@.globals.len()),
        ensures
            r == self.spec_ty(store@),
    {
        store.global(self.0).ty
    }

    /// The value of the global, given what lies at the address of a reference.
    pub fn get(&self, store: &mut StoreOpaque, func_ref: VMFuncRef) -> (r: Val)
        requires
            self.known(old(store)@),
            readable(self.spec_ty(old(store)@).content_type, self.bits(old(store)@)),
        ensures
            (r, final(store)@) == value_of(
                self.spec_ty(old(store)@).content_type,
                self.bits(old(store)@),
                func_ref,
                old(store)@,
            ),
    {
        let export = store.global(self.0);
        let bits: u128 = store.host_global(export.definition as usize);
        match export.ty.content_type {
            WasmValType::Ref(r) => {
                if matches!(r.heap_type.ty, WasmHeapTypeInner::NoFunc) {
                    Val::FuncRef(None)
                } else {
                    Val::from_vmval(store, VMVal(bits), export.ty.content_type, func_ref)
                }
            },
            ty => Val::from_vmval(store, VMVal(bits), ty, func_ref),
        }
    }

    /// Sets the value of the global, unless it cannot change or the value has the wrong type.
    pub fn set(&self, store: &mut StoreOpaque, val: Val) -> (r: Result<(), GlobalError>)
        requires
            self.known(old(store)@),
            val.known(old(store)@),
        ensures
            ({
                let ty = self.spec_ty(old(store)@);
                if !ty.mutable {
                    r == Err::<(), GlobalError>(GlobalError::Immutable) && final(store)@
                        == old(store)@
                } else if !crate::matching::val_type_matches(
                    val.spec_ty(old(store)@),
                    ty.content_type,
                ) {
                    r == Err::<(), GlobalError>(GlobalError::TypeMismatch) && final(store)@
                        == old(store)@
                } else {
                    &&& r is Ok
                    &&& final(store)@ == (StoreModel {
                        host_globals: old(store)@.host_globals.update(
                            self.place(old(store)@),
                            bits_set(self.bits(old(store)@), val, old(store)@),
                        ),
                        ..old(store)@
                    })
                }
            }),
    {
        let export = store.global(self.0);
        if !export.ty.mutable {
            return Err(GlobalError::Immutable);
        }
        if !val_matches(val.ty(store), export.ty.content_type) {
            return Err(GlobalError::TypeMismatch);
        }
        let place: usize = export.definition as usize;
        let bits: u128 = store.host_global(place);
        let low: u128 = val.to_vmval(store).0;
        let next: u128 = match val {
            Val::I32(_) | Val::F32(_) => bits - bits % 0x1_0000_0000 + low,
            Val::V128(_) => low,
            _ => bits - bits % 0x1_0000_0000_0000_0000 + low,
        };
        store.set_host_global(place, next);
        Ok(())
    }

    /// A global that an instance of the store exports.
    pub fn from_exported_global(store: &mut StoreOpaque, export: ExportedGlobal) -> (r: Self)
        ensures
            r.0.store_id == old(store)@.id,
            r.0.index == old(store)@.globals.len(),
            final(store)@ == (StoreModel {
                globals: old(store)@.globals.push(export),
                ..old(store)@
            }),
    {
        Global(store.add_global(export))
    }

    /// What a module that imports the global is given.
    pub fn as_vmglobal_import(&self, store: &StoreOpaque) -> (r: u64)
        requires
            self.0.lies_in(store@.id, store@.globals.len()),
        ensures
            r == store@.globals[self.0.index as int].definition,
    {
        store.global(self.0).definition
    }
}

/// A number that a global was set to is the global's value, and other globals keep theirs.
pub proof fn globals_keep_what_was_set(
    store: StoreModel,
    after: StoreModel,
    global: Global,
    val: Val,
)
    requires
        global.known(store),
        !(val is FuncRef),
        val.spec_ty(store) == global.spec_ty(store).content_type,
        after == (StoreModel {
            host_globals: store.host_globals.update(
                global.place(store),
                bits_set(global.bits(store), val, store),
            ),
            ..store
        }),
    ensures
        forall|func_ref: VMFuncRef| #[trigger]
            value_of(
                global.spec_ty(after).content_type,
                global.bits(after),
                func_ref,
                after,
            ) == (val, after),
        forall|other: Global| #[trigger]
            other.known(store) && other.place(store) != global.place(store) ==> other.bits(after)
                == other.bits(store),
{
    lemma_bits_read_back(global.bits(store), val, store);
    let next = bits_set(global.bits(store), val, store);
    assert(global.bits(after) == next);
    let ty = global.spec_ty(store).content_type;
    assert forall|func_ref: VMFuncRef| #[trigger]
        value_of(ty, global.bits(after), func_ref, after) == (val, after) by {
        assert(Val::spec_from_vmval(VMVal(next), ty, func_ref, after) == (val, after));
    }
}

/// The lower bits of a number are what they were replaced by.
proof fn lemma_lower_replaced(bits: int, low: int, m: int)
    requires
        bits >= 0,
        0 <= low < m,
    ensures
        (bits - bits % m + low) % m == low,
{
    vstd::arithmetic::div_mod::lemma_fundamental_div_mod(bits, m);
    vstd::arithmetic::div_mod::lemma_mod_multiples_vanish(bits / m, low, m);
    vstd::arithmetic::div_mod::lemma_small_mod(low as nat, m as nat);
}

/// A number is read back from the bits that it was set in.
proof fn lemma_bits_read_back(bits: u128, val: Val, store: StoreModel)
    requires
        !(val is FuncRef),
    ensures
        forall|func_ref: VMFuncRef, s: StoreModel| #[trigger]
            Val::spec_from_vmval(
                VMVal(bits_set(bits, val, store)),
                val.spec_ty(store),
                func_ref,
                s,
            ) == (val, s),
{
    let low = val.spec_to_vmval(store).0;
    let next = bits_set(bits, val, store);
    crate::func::numbers_survive_passing(val, store);
    match val {
        Val::I32(_) | Val::F32(_) => {
            lemma_lower_replaced(bits as int, low as int, 0x1_0000_0000);
            assert(VMVal(next).low32() == VMVal(low).low32());
        },
        Val::I64(_) | Val::F64(_) => {
            lemma_lower_replaced(bits as int, low as int, 0x1_0000_0000_0000_0000);
            assert(VMVal(next).low64() == VMVal(low).low64());
        },
        _ => {},
    }
    assert forall|func_ref: VMFuncRef, s: StoreModel| #[trigger]
        Val::spec_from_vmval(VMVal(next), val.spec_ty(store), func_ref, s) == (val, s) by {
        assert(Val::spec_from_vmval(VMVal(low), val.spec_ty(store), func_ref, store) == (
            val,
            store,
        ));
    }
}

impl Memory {
    /// The type of the memory.
    pub fn ty(&self, store: &StoreOpaque) -> (r: MemoryDesc)
        requires
            self.0.lies_in(store@.id, store@.memories.len()),
        ensures
            r == store@.memories[self.0.index as int].memory,
    {
        store.memory(self.0).memory
    }

    /// A memory that an instance of the store exports.
    pub fn from_exported_memory(store: &mut StoreOpaque, export: ExportedMemory) -> (r: Self)
        ensures
            r.0.store_id == old(store)@.id,
            r.0.index == old(store)@.memories.len(),
            final(store)@ == (StoreModel {
                memories: old(store)@.memories.push(export),
                ..old(store)@
            }),
    {
        Memory(store.add_memory(export))
    }

    /// What a module that imports the memory is given.
    pub fn as_vmmemory_import(&self, store: &StoreOpaque) -> (r: VMImport)
        requires
            self.0.lies_in(store@.id, store@.memories.len()),
        ensures
            r.from == store@.memories[self.0.index as int].definition,
            r.vmctx == store@.memories[self.0.index as int].vmctx,
    {
        let export = store.memory(self.0);
        VMImport { from: export.definition, vmctx: export.vmctx }
    }
}

impl Table {
    /// A table that an instance of the store exports.
    pub fn from_exported_table(store: &mut StoreOpaque, export: ExportedTable) -> (r: Self)
        ensures
            r.0.store_id == old(store)@.id,
            r.0.index == old(store)@.tables.len(),
            final(store)@ == (StoreModel {
                tables: old(store)@.tables.push(export),
                ..old(store)@
            }),
    {
        Table(store.add_table(export))
    }
}

impl Tag {
    /// A tag that an instance of the store exports.
    pub fn from_exported_tag(store: &mut StoreOpaque, export: ExportedTag) -> (r: Self)
        ensures
            r.0.store_id == old(store)@.id,
            r.0.index == old(store)@.tags.len(),
            final(store)@ == (StoreModel { tags: old(store)@.tags.push(export), ..old(store)@ }),
    {
        Tag(store.add_tag(export))
    }

    /// What a module that imports the tag is given.
    pub fn as_vmtag_import(&self, store: &StoreOpaque) -> (r: u64)
        requires
            self.0.lies_in(store@.id, store@.tags.len()),
        ensures
            r == store@.tags[self.0.index as int].definition,
    {
        store.tag(self.0).definition
    }
}

/// Anything that can be imported or exported.
#[derive(Clone, Copy)]
pub enum Extern {
    Func(Func),
    Table(Table),
    Memory(Memory),
    Global(Global),
    Tag(Tag),
}

impl Extern {
    /// What a store makes of an export of one of its instances.
    pub fn from_export(store: &mut StoreOpaque, export: Export, func_ref: VMFuncRef) -> (r: Self)
        ensures
            match export {
                Export::Function(e) => {
                    &&& r == Extern::Func(Func::next(old(store)@))
                    &&& final(store)@ == Func::added(old(store)@, e.func_ref, func_ref)
                },
                Export::Table(e) => {
                    &&& r matches Extern::Table(t) && t.0.store_id == old(store)@.id
                        && t.0.index == old(store)@.tables.len()
                    &&& final(store)@ == (StoreModel {
                        tables: old(store)@.tables.push(e),
                        ..old(store)@
                    })
                },
                Export::Memory(e) => {
                    &&& r matches Extern::Memory(m) && m.0.store_id == old(store)@.id
                        && m.0.index == old(store)@.memories.len()
                    &&& final(store)@ == (StoreModel {
                        memories: old(store)@.memories.push(e),
                        ..old(store)@
                    })
                },
                Export::Global(e) => {
                    &&& r matches Extern::Global(g) && g.0.store_id == old(store)@.id
                        && g.0.index == old(store)@.globals.len()
                    &&& final(store)@ == (StoreModel {
                        globals: old(store)@.globals.push(e),
                        ..old(store)@
                    })
                },
            },
    {
        match export {
            Export::Function(e) => Extern::Func(Func::from_exported_function(store, e, func_ref)),
            Export::Table(e) => Extern::Table(Table::from_exported_table(store, e)),
            Export::Memory(e) => Extern::Memory(Memory::from_exported_memory(store, e)),
            Export::Global(e) => Extern::Global(Global::from_exported_global(store, e)),
        }
    }

    /// Whether this is a function.
    pub fn is_func(&self) -> (r: bool)
        ensures
            r == (*self is Func),
    {
        matches!(*self, Extern::Func(_))
    }

    /// The function, if this is one.
    pub fn get_func(&self) -> (r: Option<Func>)
        ensures
            r == (match *self {
                Extern::Func(e) => Some(e),
                _ => None,
            }),
    {
        match *self {
            Extern::Func(e) => Some(e),
            _ => None,
        }
    }

    /// Whether this is a table.
    pub fn is_table(&self) -> (r: bool)
        ensures
            r == (*self is Table),
    {
        matches!(*self, Extern::Table(_))
    }

    /// The table, if this is one.
    pub fn get_table(&self) -> (r: Option<Table>)
        ensures
            r == (match *self {
                Extern::Table(e) => Some(e),
                _ => None,
            }),
    {
        match *self {
            Extern::Table(e) => Some(e),
            _ => None,
        }
    }

    /// Whether this is a memory.
    pub fn is_memory(&self) -> (r: bool)
        ensures
            r == (*self is Memory),
    {
        matches!(*self, Extern::Memory(_))
    }

    /// The memory, if this is one.
    pub fn get_memory(&self) -> (r: Option<Memory>)
        ensures
            r == (match *self {
                Extern::Memory(e) => Some(e),
                _ => None,
            }),
    {
        match *self {
            Extern::Memory(e) => Some(e),
            _ => None,
        }
    }

    /// Whether this is a global.
    pub fn is_global(&self) -> (r: bool)
        ensures
            r == (*self is Global),
    {
        matches!(*self, Extern::Global(_))
    }

    /// The global, if this is one.
    pub fn get_global(&self) -> (r: Option<Global>)
        ensures
            r == (match *self {
                Extern::Global(e) => Some(e),
                _ => None,
            }),
    {
        match *self {
            Extern::Global(e) => Some(e),
            _ => None,
        }
    }
}

impl vstd::std_specs::convert::FromSpecImpl<Func> for Extern {
    open spec fn obeys_from_spec() -> bool {
        true
    }

    open spec fn from_spec(e: Func) -> Extern {
        Extern::Func(e)
    }
}

impl From<Func> for Extern {
    fn from(e: Func) -> (r: Extern) {
        Extern::Func(e)
    }
}

impl vstd::std_specs::convert::FromSpecImpl<Table> for Extern {
    open spec fn obeys_from_spec() -> bool {
        true
    }

    open spec fn from_spec(e: Table) -> Extern {
        Extern::Table(e)
    }
}

impl From<Table> for Extern {
    fn from(e: Table) -> (r: Extern) {
        Extern::Table(e)
    }
}

impl vstd::std_specs::convert::FromSpecImpl<Memory> for Extern {
    open spec fn obeys_from_spec() -> bool {
        true
    }

    open spec fn from_spec(e: Memory) -> Extern {
        Extern::Memory(e)
    }
}

impl From<Memory> for Extern {
    fn from(e: Memory) -> (r: Extern) {
        Extern::Memory(e)
    }
}

impl vstd::std_specs::convert::FromSpecImpl<Global> for Extern {
    open spec fn obeys_from_spec() -> bool {
        true
    }

    open spec fn from_spec(e: Global) -> Extern {
        Extern::Global(e)
    }
}

impl From<Global> for Extern {
    fn from(e: Global) -> (r: Extern) {
        Extern::Global(e)
    }
}

impl vstd::std_specs::convert::FromSpecImpl<Tag> for Extern {
    open spec fn obeys_from_spec() -> bool {
        true
    }

    open spec fn from_spec(e: Tag) -> Extern {
        Extern::Tag(e)
    }
}

impl From<Tag> for Extern {
    fn from(e: Tag) -> (r: Extern) {
        Extern::Tag(e)
    }
}

} // verus!
