//! From the bytes of a module to its description.
use crate::body::FunctionBodyInput;
use crate::cranelift::decode::decode_const_expr;
use crate::errors::Error;
use crate::indices::{
    CanonicalizedTypeIndex, EntityIndex, FuncIndex, FuncRefIndex, GlobalIndex, MemoryIndex,
    ModuleInternedTypeIndex, TableIndex, TypeIndex,
};
use crate::module_env::{
    DataSegment, Declarations, ElementModel, ElementSegment, ElementsModel, KindModel,
    ModuleEnvironment, ModuleTranslation, SegmentKind, TableInitializer, TableSegmentElements,
};
use crate::parse::{
    DataItem, ExportItem, FuncTypeItem, ImportItem, ItemsItem, NamePart, RawData, RawEntity,
    RawExport, RawExternal, RawFuncType, RawGlobal, RawHeap, RawImport, RawInit, RawItems, RawMemory,
    RawName, RawSegment, RawTable, RawVal, SegmentItem,
};
use crate::runtime::const_eval::ConstOp;
use crate::types::{
    FuncTypeModel, GlobalDesc, MemoryDesc, TableDesc, WasmFuncType, WasmHeapType,
    WasmHeapTypeInner, WasmRefType, WasmValType,
};
use vstd::prelude::*;

verus! {

/// Guard bytes behind every memory: 2 GiB, so that most bounds checks can be left out.
pub const DEFAULT_OFFSET_GUARD_SIZE: u64 = 0x8000_0000;

/// The binary logarithm of the page size of memories that name none.
pub const DEFAULT_PAGE_SIZE_LOG2: u32 = 16;

/// A constant expression, if it is supported.
pub struct Expr(pub Option<Vec<ConstOp>>);

impl View for Expr {
    type V = Option<Seq<ConstOp>>;

    open spec fn view(&self) -> Option<Seq<ConstOp>> {
        match self.0 {
            Some(ops) => Some(ops@),
            None => None,
        }
    }
}

/// A data segment, with the expression of its offset.
pub struct ParsedData {
    pub memory: Option<(u32, Expr)>,
    pub data: Vec<u8>,
}

/// What becomes of an element segment, with the expression of its offset.
pub enum ParsedSegment {
    Passive,
    Declared,
    Active(Option<u32>, Expr),
}

/// The elements of a segment.
pub enum ParsedItems {
    Functions(Vec<u32>),
    Expressions(Vec<Expr>),
}

/// The expression of the first elements of a table, if there is one.
pub struct ParsedInit(pub Option<Expr>);

/// A data segment as sequences.
#[verifier::ext_equal]
pub struct ParsedDataItem {
    pub memory: Option<(u32, Option<Seq<ConstOp>>)>,
    pub data: Seq<u8>,
}

/// What becomes of an element segment, with its expression as a sequence.
pub enum ParsedSegmentItem {
    Passive,
    Declared,
    Active(Option<u32>, Option<Seq<ConstOp>>),
}

/// The elements of a segment as sequences.
pub enum ParsedItemsItem {
    Functions(Seq<u32>),
    Expressions(Seq<Option<Seq<ConstOp>>>),
}

impl View for ParsedData {
    type V = ParsedDataItem;

    open spec fn view(&self) -> ParsedDataItem {
        ParsedDataItem {
            memory: match self.memory {
                Some((memory, offset)) => Some((memory, offset@)),
                None => None,
            },
            data: self.data@,
        }
    }
}

impl View for ParsedSegment {
    type V = ParsedSegmentItem;

    open spec fn view(&self) -> ParsedSegmentItem {
        match self {
            ParsedSegment::Passive => ParsedSegmentItem::Passive,
            ParsedSegment::Declared => ParsedSegmentItem::Declared,
            ParsedSegment::Active(table, offset) => ParsedSegmentItem::Active(*table, offset@),
        }
    }
}

impl View for ParsedItems {
    type V = ParsedItemsItem;

    open spec fn view(&self) -> ParsedItemsItem {
        match self {
            ParsedItems::Functions(funcs) => ParsedItemsItem::Functions(funcs@),
            ParsedItems::Expressions(exprs) => ParsedItemsItem::Expressions(
                crate::parse::items(exprs@),
            ),
        }
    }
}

impl View for ParsedInit {
    type V = Option<Option<Seq<ConstOp>>>;

    open spec fn view(&self) -> Option<Option<Seq<ConstOp>>> {
        match self.0 {
            Some(expr) => Some(expr@),
            None => None,
        }
    }
}

/// What was read of a module, section by section.
pub struct ParsedModule {
    pub types: Vec<RawFuncType>,
    pub imports: Vec<RawImport>,
    /// For each import the type of what it holds, if it is a table or a global.
    pub import_types: Vec<Option<RawVal>>,
    pub functions: Vec<u32>,
    pub tables: Vec<(RawTable, RawVal)>,
    pub memories: Vec<RawMemory>,
    pub globals: Vec<(RawGlobal, RawVal)>,
    pub exports: Vec<RawExport>,
    pub start: Vec<u32>,
    pub names: Vec<RawName>,
    /// The expressions of the first values of globals, as far as they are supported.
    pub global_inits: Vec<Expr>,
    pub data: Vec<ParsedData>,
    pub elements: Vec<ParsedSegment>,
    pub element_items: Vec<ParsedItems>,
    pub table_inits: Vec<ParsedInit>,
    pub bodies: Vec<FunctionBodyInput>,
}

/// What was read of a module, as sequences.
#[verifier::ext_equal]
pub struct ParsedModel {
    pub types: Seq<FuncTypeItem>,
    pub imports: Seq<ImportItem>,
    pub import_types: Seq<Option<RawVal>>,
    pub functions: Seq<u32>,
    pub tables: Seq<(RawTable, RawVal)>,
    pub memories: Seq<RawMemory>,
    pub globals: Seq<(RawGlobal, RawVal)>,
    pub exports: Seq<ExportItem>,
    pub start: Seq<u32>,
    pub names: Seq<NamePart>,
    pub global_inits: Seq<Option<Seq<ConstOp>>>,
    pub data: Seq<ParsedDataItem>,
    pub elements: Seq<ParsedSegmentItem>,
    pub element_items: Seq<ParsedItemsItem>,
    pub table_inits: Seq<Option<Option<Seq<ConstOp>>>>,
    pub bodies: Seq<(usize, Seq<u8>)>,
}

impl View for ParsedModule {
    type V = ParsedModel;

    open spec fn view(&self) -> ParsedModel {
        ParsedModel {
            types: crate::parse::items(self.types@),
            imports: crate::parse::items(self.imports@),
            import_types: self.import_types@,
            functions: self.functions@,
            tables: self.tables@,
            memories: self.memories@,
            globals: self.globals@,
            exports: crate::parse::items(self.exports@),
            start: self.start@,
            names: crate::parse::items(self.names@),
            global_inits: crate::parse::items(self.global_inits@),
            data: crate::parse::items(self.data@),
            elements: crate::parse::items(self.elements@),
            element_items: crate::parse::items(self.element_items@),
            table_inits: crate::parse::items(self.table_inits@),
            bodies: crate::parse::items(self.bodies@),
        }
    }
}

/// What a reference refers to, if that is supported: the abstract types by their positions in the
/// parser's list, and the function types of the module.
pub open spec fn heap_type_of(heap: RawHeap) -> Option<WasmHeapType> {
    match heap {
        RawHeap::Abstract(shared, n) => match n {
            0 => Some(WasmHeapType { shared, ty: WasmHeapTypeInner::Func }),
            1 => Some(WasmHeapType { shared, ty: WasmHeapTypeInner::Extern }),
            2 => Some(WasmHeapType { shared, ty: WasmHeapTypeInner::Any }),
            3 => Some(WasmHeapType { shared, ty: WasmHeapTypeInner::NoAny }),
            4 => Some(WasmHeapType { shared, ty: WasmHeapTypeInner::NoExtern }),
            5 => Some(WasmHeapType { shared, ty: WasmHeapTypeInner::NoFunc }),
            6 => Some(WasmHeapType { shared, ty: WasmHeapTypeInner::Eq }),
            7 => Some(WasmHeapType { shared, ty: WasmHeapTypeInner::Struct }),
            8 => Some(WasmHeapType { shared, ty: WasmHeapTypeInner::Array }),
            9 => Some(WasmHeapType { shared, ty: WasmHeapTypeInner::I31 }),
            10 => Some(WasmHeapType { shared, ty: WasmHeapTypeInner::Exn }),
            11 => Some(WasmHeapType { shared, ty: WasmHeapTypeInner::NoExn }),
            12 => Some(WasmHeapType { shared, ty: WasmHeapTypeInner::Cont }),
            13 => Some(WasmHeapType { shared, ty: WasmHeapTypeInner::NoCont }),
            _ => None,
        },
        RawHeap::Concrete(Some(i)) => Some(
            WasmHeapType {
                shared: false,
                ty: WasmHeapTypeInner::ConcreteFunc(
                    CanonicalizedTypeIndex::Module(ModuleInternedTypeIndex(i)),
                ),
            },
        ),
        RawHeap::Concrete(None) => None,
    }
}

/// What a reference refers to, if that is supported.
pub fn heap_type(heap: RawHeap) -> (r: Option<WasmHeapType>)
    ensures
        r == heap_type_of(heap),
{
    match heap {
        RawHeap::Abstract(shared, n) => {
            let ty = match n {
                0 => WasmHeapTypeInner::Func,
                1 => WasmHeapTypeInner::Extern,
                2 => WasmHeapTypeInner::Any,
                3 => WasmHeapTypeInner::NoAny,
                4 => WasmHeapTypeInner::NoExtern,
                5 => WasmHeapTypeInner::NoFunc,
                6 => WasmHeapTypeInner::Eq,
                7 => WasmHeapTypeInner::Struct,
                8 => WasmHeapTypeInner::Array,
                9 => WasmHeapTypeInner::I31,
                10 => WasmHeapTypeInner::Exn,
                11 => WasmHeapTypeInner::NoExn,
                12 => WasmHeapTypeInner::Cont,
                13 => WasmHeapTypeInner::NoCont,
                _ => return None,
            };
            Some(WasmHeapType { shared, ty })
        },
        RawHeap::Concrete(Some(i)) => {
            let index = CanonicalizedTypeIndex::Module(ModuleInternedTypeIndex(i));
            Some(WasmHeapType { shared: false, ty: WasmHeapTypeInner::ConcreteFunc(index) })
        },
        RawHeap::Concrete(None) => None,
    }
}

/// The type of values, if it is supported.
pub open spec fn val_type_of(val: RawVal) -> Option<WasmValType> {
    match val {
        RawVal::I32 => Some(WasmValType::I32),
        RawVal::I64 => Some(WasmValType::I64),
        RawVal::F32 => Some(WasmValType::F32),
        RawVal::F64 => Some(WasmValType::F64),
        RawVal::V128 => Some(WasmValType::V128),
        RawVal::Ref(nullable, heap) => match heap_type_of(heap) {
            Some(heap_type) => Some(WasmValType::Ref(WasmRefType { nullable, heap_type })),
            None => None,
        },
    }
}

/// The type of values, if it is supported.
pub fn val_type(val: RawVal) -> (r: Option<WasmValType>)
    ensures
        r == val_type_of(val),
{
    match val {
        RawVal::I32 => Some(WasmValType::I32),
        RawVal::I64 => Some(WasmValType::I64),
        RawVal::F32 => Some(WasmValType::F32),
        RawVal::F64 => Some(WasmValType::F64),
        RawVal::V128 => Some(WasmValType::V128),
        RawVal::Ref(nullable, heap) => match heap_type(heap) {
            Some(heap_type) => Some(WasmValType::Ref(WasmRefType { nullable, heap_type })),
            None => None,
        },
    }
}

/// The types of values, if all are supported.
pub open spec fn val_types_of(vals: Seq<RawVal>) -> Option<Seq<WasmValType>> {
    if forall|i: int| 0 <= i < vals.len() ==> val_type_of(#[trigger] vals[i]) is Some {
        Some(vals.map_values(|v: RawVal| val_type_of(v)->0))
    } else {
        None
    }
}

/// The types of values in a range, if all are supported.
fn val_types(vals: &Vec<RawVal>, from: usize, to: usize) -> (r: Option<Vec<WasmValType>>)
    requires
        from <= to <= vals@.len(),
    ensures
        (match r {
            Some(types) => Some(types@),
            None => None,
        }) == val_types_of(vals@.subrange(from as int, to as int)),
{
    let ghost wanted = vals@.subrange(from as int, to as int);
    let mut types: Vec<WasmValType> = Vec::new();
    for i in from..to
        invariant
            from <= to <= vals@.len(),
            wanted == vals@.subrange(from as int, to as int),
            types@.len() == i - from,
            forall|k: int|
                0 <= k < i - from ==> val_type_of(#[trigger] wanted[k]) == Some(types@[k]),
    {
        assert(wanted[i - from] == vals@[i as int]);
        match val_type(vals[i]) {
            Some(ty) => types.push(ty),
            None => {
                assert(val_type_of(wanted[i - from]) is None);
                return None;
            },
        }
    }
    assert(types@ =~= wanted.map_values(|v: RawVal| val_type_of(v)->0));
    Some(types)
}

/// A function type, if it is supported.
pub open spec fn func_type_of(item: FuncTypeItem) -> Option<FuncTypeModel> {
    if item.params > item.types.len() {
        None
    } else {
        let params = val_types_of(item.types.subrange(0, item.params as int));
        let results = val_types_of(
            item.types.subrange(item.params as int, item.types.len() as int),
        );
        if params is Some && results is Some {
            Some(FuncTypeModel { params: params->0, results: results->0 })
        } else {
            None
        }
    }
}

/// A function type, if it is supported.
fn func_type(raw: &RawFuncType) -> (r: Option<WasmFuncType>)
    ensures
        (match r {
            Some(ty) => Some(ty@),
            None => None,
        }) == func_type_of(raw@),
{
    if raw.1 > raw.0.len() {
        return None;
    }
    let params = val_types(&raw.0, 0, raw.1);
    let results = val_types(&raw.0, raw.1, raw.0.len());
    match (params, results) {
        (Some(params), Some(results)) => Some(WasmFuncType { params, results }),
        _ => None,
    }
}

/// A table whose elements have a type, if that is a supported reference type.
pub open spec fn table_of(table: RawTable, element: RawVal) -> Option<TableDesc> {
    match val_type_of(element) {
        Some(WasmValType::Ref(element_type)) => Some(
            TableDesc { element_type, minimum: table.minimum, maximum: table.maximum },
        ),
        _ => None,
    }
}

/// A table whose elements have a type, if that is a supported reference type.
fn table_desc(table: RawTable, element: RawVal) -> (r: Option<TableDesc>)
    ensures
        r == table_of(table, element),
{
    match val_type(element) {
        Some(WasmValType::Ref(element_type)) => Some(
            TableDesc { element_type, minimum: table.minimum, maximum: table.maximum },
        ),
        _ => None,
    }
}

/// A memory with the default guard, if its pages are no larger than the default.
pub open spec fn memory_of(memory: RawMemory) -> Option<MemoryDesc> {
    let log2 = match memory.page_size_log2 {
        Some(log2) => log2,
        None => DEFAULT_PAGE_SIZE_LOG2,
    };
    if log2 > DEFAULT_PAGE_SIZE_LOG2 {
        None
    } else {
        Some(
            MemoryDesc {
                minimum: memory.minimum,
                maximum: memory.maximum,
                shared: memory.shared,
                memory64: memory.memory64,
                page_size_log2: log2 as u8,
                offset_guard_size: DEFAULT_OFFSET_GUARD_SIZE,
            },
        )
    }
}

/// A memory with the default guard, if its pages are no larger than the default.
fn memory_desc(memory: RawMemory) -> (r: Option<MemoryDesc>)
    ensures
        r == memory_of(memory),
{
    let log2: u32 = match memory.page_size_log2 {
        Some(log2) => log2,
        None => DEFAULT_PAGE_SIZE_LOG2,
    };
    if log2 > DEFAULT_PAGE_SIZE_LOG2 {
        return None;
    }
    Some(
        MemoryDesc {
            minimum: memory.minimum,
            maximum: memory.maximum,
            shared: memory.shared,
            memory64: memory.memory64,
            page_size_log2: log2 as u8,
            offset_guard_size: DEFAULT_OFFSET_GUARD_SIZE,
        },
    )
}

/// A global whose values have a type, if that is supported.
pub open spec fn global_of(global: RawGlobal, content: RawVal) -> Option<GlobalDesc> {
    match val_type_of(content) {
        Some(content_type) => Some(
            GlobalDesc { content_type, mutable: global.mutable, shared: global.shared },
        ),
        None => None,
    }
}

/// A global whose values have a type, if that is supported.
fn global_desc(global: RawGlobal, content: RawVal) -> (r: Option<GlobalDesc>)
    ensures
        r == global_of(global, content),
{
    match val_type(content) {
        Some(content_type) => Some(
            GlobalDesc { content_type, mutable: global.mutable, shared: global.shared },
        ),
        None => None,
    }
}

/// The number of things of one kind that a module can have.
pub const MAX_ITEMS: usize = 0xffff_fffe;

/// The declarations after a list of items, each of which may be refused.
pub open spec fn folded<T>(
    start: Declarations,
    list: Seq<T>,
    step: spec_fn(Declarations, T) -> Option<Declarations>,
) -> Option<Declarations>
    decreases list.len(),
{
    if list.len() == 0 {
        Some(start)
    } else {
        match folded(start, list.drop_last(), step) {
            Some(d) => step(d, list.last()),
            None => None,
        }
    }
}

/// One more item is declared after those before it.
proof fn lemma_folded_step<T>(
    start: Declarations,
    list: Seq<T>,
    step: spec_fn(Declarations, T) -> Option<Declarations>,
    i: int,
)
    requires
        0 <= i < list.len(),
    ensures
        folded(start, list.take(i + 1), step) == (match folded(start, list.take(i), step) {
            Some(d) => step(d, list[i]),
            None => None,
        }),
{
    assert(list.take(i + 1).drop_last() =~= list.take(i));
}

/// Where an item is refused, the list is.
proof fn lemma_folded_refused<T>(
    start: Declarations,
    list: Seq<T>,
    step: spec_fn(Declarations, T) -> Option<Declarations>,
    i: int,
)
    requires
        0 <= i <= list.len(),
        folded(start, list.take(i), step) is None,
    ensures
        folded(start, list, step) is None,
    decreases list.len() - i,
{
    if i < list.len() {
        lemma_folded_step(start, list, step, i);
        lemma_folded_refused(start, list, step, i + 1);
    } else {
        assert(list.take(i) =~= list);
    }
}

/// Whether imports come first in every index space, every index space is addressable, and no
/// function has a slot for its reference yet.
pub open spec fn counted(d: Declarations) -> bool {
    &&& d.num_imported_functions <= d.functions.len() <= MAX_ITEMS
    &&& d.num_imported_tables <= d.tables.len() <= MAX_ITEMS
    &&& d.num_imported_memories <= d.memories.len() <= MAX_ITEMS
    &&& d.num_imported_globals <= d.globals.len() <= MAX_ITEMS
    &&& d.exports.len() <= MAX_ITEMS
    &&& d.num_escaped_functions == 0
    &&& forall|i: int|
        0 <= i < d.functions.len() ==> !(#[trigger] d.functions[i]).spec_is_escaping()
}

/// The declarations after a function type, which must be supported.
pub open spec fn type_declared(d: Declarations, item: FuncTypeItem) -> Option<Declarations> {
    match func_type_of(item) {
        Some(ty) if d.func_types.len() < MAX_ITEMS => Some(
            Declarations {
                func_types: d.func_types.push(ty),
                types: d.types.push(ModuleInternedTypeIndex(d.func_types.len() as u32)),
                ..d
            },
        ),
        _ => None,
    }
}

/// Declares a function type; gives whether it is supported.
fn declare_type(env: &mut ModuleEnvironment, item: &RawFuncType) -> (r: bool)
    requires
        old(env)@.types.len() == old(env)@.func_types.len(),
    ensures
        (match type_declared(old(env)@, item@) {
            Some(d) => r && final(env)@ == d,
            None => !r,
        }),
{
    match func_type(item) {
        Some(ty) => {
            if env.num_types() >= MAX_ITEMS {
                return false;
            }
            env.declare_type_func(ty);
            true
        },
        None => false,
    }
}

/// The declarations with an import of something that comes next in its index space.
pub open spec fn with_import(
    d: Declarations,
    item: ImportItem,
    index: EntityIndex,
) -> Declarations {
    Declarations {
        imports: d.imports.push(
            crate::module_env::ImportModel { module: item.module, field: item.name, index },
        ),
        ..d
    }
}

/// The declarations after an import. What an imported table or global holds is found at the number
/// of imports before it.
pub open spec fn import_declared(
    d: Declarations,
    types: Seq<Option<RawVal>>,
    item: ImportItem,
) -> Option<Declarations> {
    let k = d.imports.len() as int;
    match item.entity {
        RawEntity::Func(i) => if i < d.types.len() && d.functions.len() < MAX_ITEMS {
            Some(
                Declarations {
                    functions: d.functions.push(crate::module_env::plain_function(TypeIndex(i))),
                    num_imported_functions: (d.num_imported_functions + 1) as u32,
                    ..with_import(
                        d,
                        item,
                        EntityIndex::Function(FuncIndex(d.functions.len() as u32)),
                    )
                },
            )
        } else {
            None
        },
        RawEntity::Table(minimum, maximum) => if k < types.len() && types[k] is Some && table_of(
            RawTable { minimum, maximum },
            types[k]->0,
        ) is Some && d.tables.len() < MAX_ITEMS {
            Some(
                Declarations {
                    tables: d.tables.push(table_of(RawTable { minimum, maximum }, types[k]->0)->0),
                    num_imported_tables: (d.num_imported_tables + 1) as u32,
                    ..with_import(d, item, EntityIndex::Table(TableIndex(d.tables.len() as u32)))
                },
            )
        } else {
            None
        },
        RawEntity::Memory(minimum, maximum, shared, memory64, page_size_log2) => if memory_of(
            RawMemory { minimum, maximum, shared, memory64, page_size_log2 },
        ) is Some && d.memories.len() < MAX_ITEMS {
            Some(
                Declarations {
                    memories: d.memories.push(
                        memory_of(
                            RawMemory { minimum, maximum, shared, memory64, page_size_log2 },
                        )->0,
                    ),
                    num_imported_memories: (d.num_imported_memories + 1) as u32,
                    ..with_import(
                        d,
                        item,
                        EntityIndex::Memory(MemoryIndex(d.memories.len() as u32)),
                    )
                },
            )
        } else {
            None
        },
        RawEntity::Global(mutable, shared) => if k < types.len() && types[k] is Some && global_of(
            RawGlobal { mutable, shared },
            types[k]->0,
        ) is Some && d.globals.len() < MAX_ITEMS {
            Some(
                Declarations {
                    globals: d.globals.push(global_of(RawGlobal { mutable, shared }, types[k]->0)->0),
                    num_imported_globals: (d.num_imported_globals + 1) as u32,
                    ..with_import(
                        d,
                        item,
                        EntityIndex::Global(GlobalIndex(d.globals.len() as u32)),
                    )
                },
            )
        } else {
            None
        },
        RawEntity::Tag => None,
    }
}

/// Declares an import; gives whether it is supported.
fn declare_import(env: &mut ModuleEnvironment, types: &Vec<Option<RawVal>>, item: &RawImport) -> (r:
    bool)
    requires
        counted(old(env)@),
    ensures
        (match import_declared(old(env)@, types@, item@) {
            Some(d) => r && final(env)@ == d && counted(d),
            None => !r,
        }),
{
    let k: usize = env.num_imports();
    let held: Option<RawVal> = if k < types.len() {
        types[k]
    } else {
        None
    };
    let (module, name) = (item.0.as_str(), item.1.as_str());
    match item.2 {
        RawEntity::Func(i) => {
            if i as usize >= env.num_types() || env.num_functions() >= MAX_ITEMS {
                return false;
            }
            env.declare_func_import(TypeIndex(i), module, name);
        },
        RawEntity::Table(minimum, maximum) => {
            let table = match held {
                Some(element) => table_desc(RawTable { minimum, maximum }, element),
                None => None,
            };
            match table {
                Some(table) if env.num_tables() < MAX_ITEMS => {
                    env.declare_table_import(table, module, name);
                },
                _ => return false,
            }
        },
        RawEntity::Memory(minimum, maximum, shared, memory64, page_size_log2) => {
            let memory = RawMemory { minimum, maximum, shared, memory64, page_size_log2 };
            match memory_desc(memory) {
                Some(memory) if env.num_memories() < MAX_ITEMS => {
                    env.declare_memory_import(memory, module, name);
                },
                _ => return false,
            }
        },
        RawEntity::Global(mutable, shared) => {
            let global = match held {
                Some(content) => global_desc(RawGlobal { mutable, shared }, content),
                None => None,
            };
            match global {
                Some(global) if env.num_globals() < MAX_ITEMS => {
                    env.declare_global_import(global, module, name);
                },
                _ => return false,
            }
        },
        RawEntity::Tag => return false,
    }
    true
}

/// The declarations after a function of a declared type.
pub open spec fn function_declared(d: Declarations, ty: u32) -> Option<Declarations> {
    if ty < d.types.len() && d.functions.len() < MAX_ITEMS {
        Some(
            Declarations {
                functions: d.functions.push(crate::module_env::plain_function(TypeIndex(ty))),
                ..d
            },
        )
    } else {
        None
    }
}

/// The declarations after a table.
pub open spec fn table_declared(d: Declarations, item: (RawTable, RawVal)) -> Option<
    Declarations,
> {
    match table_of(item.0, item.1) {
        Some(table) if d.tables.len() < MAX_ITEMS => Some(
            Declarations { tables: d.tables.push(table), ..d },
        ),
        _ => None,
    }
}

/// The declarations after a memory.
pub open spec fn memory_declared(d: Declarations, item: RawMemory) -> Option<Declarations> {
    match memory_of(item) {
        Some(memory) if d.memories.len() < MAX_ITEMS => Some(
            Declarations { memories: d.memories.push(memory), ..d },
        ),
        _ => None,
    }
}

/// The declarations after a global.
pub open spec fn global_declared(d: Declarations, item: (RawGlobal, RawVal)) -> Option<
    Declarations,
> {
    match global_of(item.0, item.1) {
        Some(global) if d.globals.len() < MAX_ITEMS => Some(
            Declarations { globals: d.globals.push(global), ..d },
        ),
        _ => None,
    }
}

/// What is exported, if the module has it.
pub open spec fn entity_of(d: Declarations, external: RawExternal) -> Option<EntityIndex> {
    match external {
        RawExternal::Func(i) if i < d.functions.len() => Some(EntityIndex::Function(FuncIndex(i))),
        RawExternal::Table(i) if i < d.tables.len() => Some(EntityIndex::Table(TableIndex(i))),
        RawExternal::Memory(i) if i < d.memories.len() => Some(
            EntityIndex::Memory(MemoryIndex(i)),
        ),
        RawExternal::Global(i) if i < d.globals.len() => Some(
            EntityIndex::Global(GlobalIndex(i)),
        ),
        _ => None,
    }
}

/// The declarations after an export.
pub open spec fn export_declared(d: Declarations, item: ExportItem) -> Option<Declarations> {
    match entity_of(d, item.external) {
        Some(index) if d.exports.len() < MAX_ITEMS => Some(
            Declarations {
                exports: crate::module_env::exported(d.exports, item.name, index),
                ..d
            },
        ),
        _ => None,
    }
}

/// Declares an export; gives whether the module has what is exported.
fn declare_export(env: &mut ModuleEnvironment, item: &RawExport) -> (r: bool)
    requires
        counted(old(env)@),
    ensures
        (match export_declared(old(env)@, item@) {
            Some(d) => r && final(env)@ == d && counted(d),
            None => !r,
        }),
{
    if env.num_exports() >= MAX_ITEMS {
        return false;
    }
    let name = item.name.as_str();
    match item.external {
        RawExternal::Func(i) => {
            if i as usize >= env.num_functions() {
                return false;
            }
            env.declare_func_export(FuncIndex(i), name);
        },
        RawExternal::Table(i) => {
            if i as usize >= env.num_tables() {
                return false;
            }
            env.declare_table_export(TableIndex(i), name);
        },
        RawExternal::Memory(i) => {
            if i as usize >= env.num_memories() {
                return false;
            }
            env.declare_memory_export(MemoryIndex(i), name);
        },
        RawExternal::Global(i) => {
            if i as usize >= env.num_globals() {
                return false;
            }
            env.declare_global_export(GlobalIndex(i), name);
        },
        RawExternal::Tag(_) => return false,
    }
    true
}

/// The declarations after a start function, which the module must have.
pub open spec fn start_declared(d: Declarations, func: u32) -> Option<Declarations> {
    if func < d.functions.len() {
        Some(Declarations { start: Some(FuncIndex(func)), ..d })
    } else {
        None
    }
}

/// The declarations after a part of a name section: only the name of the module matters, and what
/// cannot be read is passed over.
pub open spec fn name_declared(d: Declarations, part: NamePart) -> Option<Declarations> {
    match part {
        NamePart::Module(name) => Some(Declarations { name: Some(name), ..d }),
        _ => Some(d),
    }
}

/// A copy of operators.
fn copied(list: &Vec<ConstOp>) -> (r: Vec<ConstOp>)
    ensures
        r@ == list@,
{
    let mut out: Vec<ConstOp> = Vec::new();
    for i in 0..list.len()
        invariant
            out@ == list@.take(i as int),
    {
        out.push(list[i]);
        assert(out@ =~= list@.take(i + 1));
    }
    assert(list@.take(list@.len() as int) =~= list@);
    out
}

/// A copy of bytes.
fn bytes_copied(list: &Vec<u8>) -> (r: Vec<u8>)
    ensures
        r@ == list@,
{
    let mut out: Vec<u8> = Vec::new();
    for i in 0..list.len()
        invariant
            out@ == list@.take(i as int),
    {
        out.push(list[i]);
        assert(out@ =~= list@.take(i + 1));
    }
    assert(list@.take(list@.len() as int) =~= list@);
    out
}

/// A copy of numbers.
fn numbers_copied(list: &Vec<u32>) -> (r: Vec<u32>)
    ensures
        r@ == list@,
{
    let mut out: Vec<u32> = Vec::new();
    for i in 0..list.len()
        invariant
            out@ == list@.take(i as int),
    {
        out.push(list[i]);
        assert(out@ =~= list@.take(i + 1));
    }
    assert(list@.take(list@.len() as int) =~= list@);
    out
}

/// The declarations after the first value of a global.
pub open spec fn global_init_declared(d: Declarations, init: Option<Seq<ConstOp>>) -> Option<
    Declarations,
> {
    match init {
        Some(ops) => Some(
            Declarations { global_initializers: d.global_initializers.push(ops), ..d },
        ),
        None => None,
    }
}

/// The declarations after a data segment, which a memory of the module is named for, or none.
pub open spec fn data_declared(d: Declarations, item: ParsedDataItem) -> Option<Declarations> {
    match item.memory {
        None => Some(
            Declarations {
                data: d.data.push(
                    crate::module_env::DataModel { memory: None, data: item.data },
                ),
                ..d
            },
        ),
        Some((memory, Some(offset))) if memory < d.memories.len() => Some(
            Declarations {
                data: d.data.push(
                    crate::module_env::DataModel {
                        memory: Some((MemoryIndex(memory), offset)),
                        data: item.data,
                    },
                ),
                ..d
            },
        ),
        _ => None,
    }
}

/// Declares a data segment; gives whether it is supported.
fn declare_data_segment(env: &mut ModuleEnvironment, item: &ParsedData) -> (r: bool)
    ensures
        (match data_declared(old(env)@, item@) {
            Some(d) => r && final(env)@ == d,
            None => !r,
        }),
{
    let data = bytes_copied(&item.data);
    let memory: Option<(MemoryIndex, Vec<ConstOp>)> = match &item.memory {
        None => None,
        Some((memory, Expr(Some(offset)))) => {
            if *memory as usize >= env.num_memories() {
                return false;
            }
            Some((MemoryIndex(*memory), copied(offset)))
        },
        Some((_, Expr(None))) => return false,
    };
    env.declare_data_segment(DataSegment { memory, data });
    true
}

/// What becomes of an element segment: a table that it is copied to is one of the module, the first
/// one if none is named.
pub open spec fn kind_of(d: Declarations, item: ParsedSegmentItem) -> Option<KindModel> {
    match item {
        ParsedSegmentItem::Passive => Some(KindModel::Passive),
        ParsedSegmentItem::Declared => Some(KindModel::Declared),
        ParsedSegmentItem::Active(named, Some(offset)) => {
            let table = match named {
                Some(table) => table,
                None => 0,
            };
            if table < d.tables.len() {
                Some(KindModel::Active(TableIndex(table), offset))
            } else {
                None
            }
        },
        ParsedSegmentItem::Active(_, None) => None,
    }
}

/// What becomes of an element segment, if that is supported.
fn segment_kind(env: &ModuleEnvironment, item: &ParsedSegment) -> (r: Option<SegmentKind>)
    ensures
        (match r {
            Some(SegmentKind::Passive) => Some(KindModel::Passive),
            Some(SegmentKind::Declared) => Some(KindModel::Declared),
            Some(SegmentKind::Active(table, offset)) => Some(KindModel::Active(table, offset@)),
            None => None,
        }) == kind_of(env@, item@),
{
    match item {
        ParsedSegment::Passive => Some(SegmentKind::Passive),
        ParsedSegment::Declared => Some(SegmentKind::Declared),
        ParsedSegment::Active(named, Expr(Some(offset))) => {
            let table: u32 = match *named {
                Some(table) => table,
                None => 0,
            };
            if table as usize >= env.num_tables() {
                return None;
            }
            Some(SegmentKind::Active(TableIndex(table), copied(offset)))
        },
        ParsedSegment::Active(_, Expr(None)) => None,
    }
}

/// The elements of a segment: functions of the module, or expressions that are supported.
pub open spec fn elements_of(d: Declarations, item: ParsedItemsItem) -> Option<ElementsModel> {
    match item {
        ParsedItemsItem::Functions(funcs) => if forall|i: int|
            0 <= i < funcs.len() ==> #[trigger] funcs[i] < d.functions.len() {
            Some(ElementsModel::Functions(funcs.map_values(|f: u32| FuncIndex(f))))
        } else {
            None
        },
        ParsedItemsItem::Expressions(exprs) => if forall|i: int|
            0 <= i < exprs.len() ==> (#[trigger] exprs[i]) is Some {
            Some(ElementsModel::Expressions(exprs.map_values(|e: Option<Seq<ConstOp>>| e->0)))
        } else {
            None
        },
    }
}

/// The elements of a segment, if they are supported.
fn segment_elements(env: &ModuleEnvironment, item: &ParsedItems) -> (r: Option<
    TableSegmentElements,
>)
    ensures
        (match r {
            Some(TableSegmentElements::Functions(funcs)) => Some(ElementsModel::Functions(funcs@)),
            Some(TableSegmentElements::Expressions(exprs)) => Some(
                ElementsModel::Expressions(crate::parse::items(exprs@)),
            ),
            None => None,
        }) == elements_of(env@, item@),
{
    match item {
        ParsedItems::Functions(raw) => {
            let mut funcs: Vec<FuncIndex> = Vec::new();
            for i in 0..raw.len()
                invariant
                    item@ == ParsedItemsItem::Functions(raw@),
                    funcs@ == raw@.take(i as int).map_values(|f: u32| FuncIndex(f)),
                    forall|k: int| 0 <= k < i ==> #[trigger] raw@[k] < env@.functions.len(),
            {
                if raw[i] as usize >= env.num_functions() {
                    assert(raw@[i as int] >= env@.functions.len());
                    return None;
                }
                funcs.push(FuncIndex(raw[i]));
                assert(funcs@ =~= raw@.take(i + 1).map_values(|f: u32| FuncIndex(f)));
            }
            assert(raw@.take(raw@.len() as int) =~= raw@);
            Some(TableSegmentElements::Functions(funcs))
        },
        ParsedItems::Expressions(raw) => {
            let ghost all = crate::parse::items(raw@);
            let mut exprs: Vec<Vec<ConstOp>> = Vec::new();
            for i in 0..raw.len()
                invariant
                    all == crate::parse::items(raw@),
                    item@ == ParsedItemsItem::Expressions(all),
                    exprs@.len() == i,
                    forall|k: int| 0 <= k < i ==> #[trigger] all[k] == Some(exprs@[k]@),
            {
                assert(all[i as int] == raw@[i as int]@);
                match &raw[i].0 {
                    Some(ops) => exprs.push(copied(ops)),
                    None => {
                        assert(all[i as int] is None);
                        return None;
                    },
                }
            }
            assert(crate::parse::items(exprs@) =~= all.map_values(
                |e: Option<Seq<ConstOp>>| e->0,
            ));
            Some(TableSegmentElements::Expressions(exprs))
        },
    }
}

/// The declarations after an element segment. Its elements are found at the number of segments before
/// it.
pub open spec fn elements_declared(
    d: Declarations,
    all_items: Seq<ParsedItemsItem>,
    item: ParsedSegmentItem,
) -> Option<Declarations> {
    let k = d.elements.len() as int;
    if k >= all_items.len() {
        None
    } else {
        match (kind_of(d, item), elements_of(d, all_items[k])) {
            (Some(kind), Some(elements)) => Some(
                Declarations {
                    elements: d.elements.push(
                        crate::module_env::ElementModel { kind, elements },
                    ),
                    ..d
                },
            ),
            _ => None,
        }
    }
}

/// Declares an element segment; gives whether it is supported.
fn declare_element_segment(
    env: &mut ModuleEnvironment,
    all_items: &Vec<ParsedItems>,
    item: &ParsedSegment,
) -> (r: bool)
    ensures
        (match elements_declared(old(env)@, crate::parse::items(all_items@), item@) {
            Some(d) => r && final(env)@ == d,
            None => !r,
        }),
{
    let k: usize = env.num_elements();
    if k >= all_items.len() {
        return false;
    }
    assert(crate::parse::items(all_items@)[k as int] == all_items@[k as int]@);
    let kind = segment_kind(env, item);
    let elements = segment_elements(env, &all_items[k]);
    match (kind, elements) {
        (Some(kind), Some(elements)) => {
            env.declare_element_segment(ElementSegment { kind, elements });
            true
        },
        _ => false,
    }
}

/// The declarations after the first elements of a table.
pub open spec fn table_init_declared(d: Declarations, init: Option<Option<Seq<ConstOp>>>) -> Option<
    Declarations,
> {
    match init {
        None => Some(Declarations { table_initializers: d.table_initializers.push(None), ..d }),
        Some(Some(ops)) => Some(
            Declarations { table_initializers: d.table_initializers.push(Some(ops)), ..d },
        ),
        Some(None) => None,
    }
}

/// The declarations after the body of a function.
pub open spec fn body_declared(d: Declarations, body: (usize, Seq<u8>)) -> Option<Declarations> {
    Some(Declarations { bodies: d.bodies.push(body), ..d })
}

/// The declarations after the function types.
pub open spec fn after_types(p: ParsedModel) -> Option<Declarations> {
    folded(
        crate::module_env::nothing(),
        p.types,
        |d: Declarations, t: FuncTypeItem| type_declared(d, t),
    )
}

/// The declarations after the imports.
pub open spec fn after_imports(p: ParsedModel) -> Option<Declarations> {
    match after_types(p) {
        Some(d) => folded(
            d,
            p.imports,
            |d: Declarations, i: ImportItem| import_declared(d, p.import_types, i),
        ),
        None => None,
    }
}

/// The declarations after the functions.
pub open spec fn after_functions(p: ParsedModel) -> Option<Declarations> {
    match after_imports(p) {
        Some(d) => folded(d, p.functions, |d: Declarations, f: u32| function_declared(d, f)),
        None => None,
    }
}

/// The declarations after the tables.
pub open spec fn after_tables(p: ParsedModel) -> Option<Declarations> {
    match after_functions(p) {
        Some(d) => folded(
            d,
            p.tables,
            |d: Declarations, t: (RawTable, RawVal)| table_declared(d, t),
        ),
        None => None,
    }
}

/// The declarations after the memories.
pub open spec fn after_memories(p: ParsedModel) -> Option<Declarations> {
    match after_tables(p) {
        Some(d) => folded(d, p.memories, |d: Declarations, m: RawMemory| memory_declared(d, m)),
        None => None,
    }
}

/// The declarations after the globals.
pub open spec fn after_globals(p: ParsedModel) -> Option<Declarations> {
    match after_memories(p) {
        Some(d) => folded(
            d,
            p.globals,
            |d: Declarations, g: (RawGlobal, RawVal)| global_declared(d, g),
        ),
        None => None,
    }
}

/// The declarations after the exports.
pub open spec fn after_exports(p: ParsedModel) -> Option<Declarations> {
    match after_globals(p) {
        Some(d) => folded(d, p.exports, |d: Declarations, e: ExportItem| export_declared(d, e)),
        None => None,
    }
}

/// The declarations after the start functions, of which the last counts.
pub open spec fn after_start(p: ParsedModel) -> Option<Declarations> {
    match after_exports(p) {
        Some(d) => folded(d, p.start, |d: Declarations, f: u32| start_declared(d, f)),
        None => None,
    }
}

/// The declarations after the names of the module, of which the last counts.
pub open spec fn after_names(p: ParsedModel) -> Option<Declarations> {
    match after_start(p) {
        Some(d) => folded(d, p.names, |d: Declarations, n: NamePart| name_declared(d, n)),
        None => None,
    }
}

/// The declarations after the first values of globals.
pub open spec fn after_global_inits(p: ParsedModel) -> Option<Declarations> {
    match after_names(p) {
        Some(d) => folded(
            d,
            p.global_inits,
            |d: Declarations, i: Option<Seq<ConstOp>>| global_init_declared(d, i),
        ),
        None => None,
    }
}

/// The declarations after the data segments.
pub open spec fn after_data(p: ParsedModel) -> Option<Declarations> {
    match after_global_inits(p) {
        Some(d) => folded(d, p.data, |d: Declarations, s: ParsedDataItem| data_declared(d, s)),
        None => None,
    }
}

/// The declarations after the element segments.
pub open spec fn after_elements(p: ParsedModel) -> Option<Declarations> {
    match after_data(p) {
        Some(d) => folded(
            d,
            p.elements,
            |d: Declarations, s: ParsedSegmentItem| elements_declared(d, p.element_items, s),
        ),
        None => None,
    }
}

/// The declarations after the first elements of tables.
pub open spec fn after_table_inits(p: ParsedModel) -> Option<Declarations> {
    match after_elements(p) {
        Some(d) => folded(
            d,
            p.table_inits,
            |d: Declarations, i: Option<Option<Seq<ConstOp>>>| table_init_declared(d, i),
        ),
        None => None,
    }
}

/// The declarations after the bodies of functions.
pub open spec fn after_bodies(p: ParsedModel) -> Option<Declarations> {
    match after_table_inits(p) {
        Some(d) => folded(
            d,
            p.bodies,
            |d: Declarations, b: (usize, Seq<u8>)| body_declared(d, b),
        ),
        None => None,
    }
}

/// What a module declares, section by section, if everything in it is supported.
pub open spec fn declared_all(p: ParsedModel) -> Option<Declarations> {
    after_bodies(p)
}

/// Declares the function types; gives whether all are supported.
fn declare_types(env: &mut ModuleEnvironment, parsed: &ParsedModule) -> (r: bool)
    requires
        old(env)@ == crate::module_env::nothing(),
        counted(old(env)@),
        old(env)@.types.len() == old(env)@.func_types.len(),
    ensures
        r ==> after_types(parsed@) == Some(final(env)@) && counted(final(env)@)
            && final(env)@.types.len() == final(env)@.func_types.len(),
        !r ==> after_types(parsed@) is None,
{
    let ghost p = parsed@;
    let ghost start = env@;
    let ghost list = p.types;
    let ghost step = |d: Declarations, t: FuncTypeItem| type_declared(d, t);
    assert(folded(start, list.take(0), step) == Some(start));
    for i in 0..parsed.types.len()
        invariant
            p == parsed@,
            list == p.types,
            list.len() == parsed.types@.len(),
            step == (|d: Declarations, t: FuncTypeItem| type_declared(d, t)),
            after_types(p) == folded(start, list, step),
            folded(start, list.take(i as int), step) == Some(env@),
            counted(env@),
            env@.types.len() == env@.func_types.len(),
    {
        proof {
            lemma_folded_step(start, list, step, i as int);
        }
        let ok = declare_type(env, &parsed.types[i]);
        if !ok {
            proof {
                lemma_folded_refused(start, list, step, i + 1);
            }
            return false;
        }
    }
    assert(list.take(list.len() as int) =~= list);
    true
}

/// Declares the imports; gives whether all are supported.
fn declare_imports(env: &mut ModuleEnvironment, parsed: &ParsedModule) -> (r: bool)
    requires
        after_types(parsed@) == Some(old(env)@),
        counted(old(env)@),
        old(env)@.types.len() == old(env)@.func_types.len(),
    ensures
        r ==> after_imports(parsed@) == Some(final(env)@) && counted(final(env)@)
            && final(env)@.types.len() == final(env)@.func_types.len(),
        !r ==> after_imports(parsed@) is None,
{
    let ghost p = parsed@;
    let ghost start = env@;
    let ghost list = p.imports;
    let ghost step = |d: Declarations, i: ImportItem| import_declared(d, p.import_types, i);
    assert(folded(start, list.take(0), step) == Some(start));
    for i in 0..parsed.imports.len()
        invariant
            p == parsed@,
            list == p.imports,
            list.len() == parsed.imports@.len(),
            step == (|d: Declarations, i: ImportItem| import_declared(d, p.import_types, i)),
            after_imports(p) == folded(start, list, step),
            folded(start, list.take(i as int), step) == Some(env@),
            counted(env@),
            env@.types.len() == env@.func_types.len(),
    {
        proof {
            lemma_folded_step(start, list, step, i as int);
        }
        let ok = declare_import(env, &parsed.import_types, &parsed.imports[i]);
        if !ok {
            proof {
                lemma_folded_refused(start, list, step, i + 1);
            }
            return false;
        }
    }
    assert(list.take(list.len() as int) =~= list);
    true
}

/// Declares the functions; gives whether all are supported.
fn declare_functions(env: &mut ModuleEnvironment, parsed: &ParsedModule) -> (r: bool)
    requires
        after_imports(parsed@) == Some(old(env)@),
        counted(old(env)@),
        old(env)@.types.len() == old(env)@.func_types.len(),
    ensures
        r ==> after_functions(parsed@) == Some(final(env)@) && counted(final(env)@)
            && final(env)@.types.len() == final(env)@.func_types.len(),
        !r ==> after_functions(parsed@) is None,
{
    let ghost p = parsed@;
    let ghost start = env@;
    let ghost list = p.functions;
    let ghost step = |d: Declarations, f: u32| function_declared(d, f);
    assert(folded(start, list.take(0), step) == Some(start));
    for i in 0..parsed.functions.len()
        invariant
            p == parsed@,
            list == p.functions,
            list.len() == parsed.functions@.len(),
            step == (|d: Declarations, f: u32| function_declared(d, f)),
            after_functions(p) == folded(start, list, step),
            folded(start, list.take(i as int), step) == Some(env@),
            counted(env@),
            env@.types.len() == env@.func_types.len(),
    {
        proof {
            lemma_folded_step(start, list, step, i as int);
        }
        let ok = if (parsed.functions[i] as usize) < env.num_types() && env.num_functions() < MAX_ITEMS {
            env.declare_func_type(TypeIndex(parsed.functions[i]));
            true
        } else {
            false
        };
        if !ok {
            proof {
                lemma_folded_refused(start, list, step, i + 1);
            }
            return false;
        }
    }
    assert(list.take(list.len() as int) =~= list);
    true
}

/// Declares the tables; gives whether all are supported.
fn declare_tables(env: &mut ModuleEnvironment, parsed: &ParsedModule) -> (r: bool)
    requires
        after_functions(parsed@) == Some(old(env)@),
        counted(old(env)@),
        old(env)@.types.len() == old(env)@.func_types.len(),
    ensures
        r ==> after_tables(parsed@) == Some(final(env)@) && counted(final(env)@)
            && final(env)@.types.len() == final(env)@.func_types.len(),
        !r ==> after_tables(parsed@) is None,
{
    let ghost p = parsed@;
    let ghost start = env@;
    let ghost list = p.tables;
    let ghost step = |d: Declarations, t: (RawTable, RawVal)| table_declared(d, t);
    assert(folded(start, list.take(0), step) == Some(start));
    for i in 0..parsed.tables.len()
        invariant
            p == parsed@,
            list == p.tables,
            list.len() == parsed.tables@.len(),
            step == (|d: Declarations, t: (RawTable, RawVal)| table_declared(d, t)),
            after_tables(p) == folded(start, list, step),
            folded(start, list.take(i as int), step) == Some(env@),
            counted(env@),
            env@.types.len() == env@.func_types.len(),
    {
        proof {
            lemma_folded_step(start, list, step, i as int);
        }
        let ok = match table_desc(parsed.tables[i].0, parsed.tables[i].1) {
            Some(desc) if env.num_tables() < MAX_ITEMS => {
                env.declare_table(desc);
                true
            },
            _ => false,
        };
        if !ok {
            proof {
                lemma_folded_refused(start, list, step, i + 1);
            }
            return false;
        }
    }
    assert(list.take(list.len() as int) =~= list);
    true
}

/// Declares the memories; gives whether all are supported.
fn declare_memories(env: &mut ModuleEnvironment, parsed: &ParsedModule) -> (r: bool)
    requires
        after_tables(parsed@) == Some(old(env)@),
        counted(old(env)@),
        old(env)@.types.len() == old(env)@.func_types.len(),
    ensures
        r ==> after_memories(parsed@) == Some(final(env)@) && counted(final(env)@)
            && final(env)@.types.len() == final(env)@.func_types.len(),
        !r ==> after_memories(parsed@) is None,
{
    let ghost p = parsed@;
    let ghost start = env@;
    let ghost list = p.memories;
    let ghost step = |d: Declarations, m: RawMemory| memory_declared(d, m);
    assert(folded(start, list.take(0), step) == Some(start));
    for i in 0..parsed.memories.len()
        invariant
            p == parsed@,
            list == p.memories,
            list.len() == parsed.memories@.len(),
            step == (|d: Declarations, m: RawMemory| memory_declared(d, m)),
            after_memories(p) == folded(start, list, step),
            folded(start, list.take(i as int), step) == Some(env@),
            counted(env@),
            env@.types.len() == env@.func_types.len(),
    {
        proof {
            lemma_folded_step(start, list, step, i as int);
        }
        let ok = match memory_desc(parsed.memories[i]) {
            Some(desc) if env.num_memories() < MAX_ITEMS => {
                env.declare_memory(desc);
                true
            },
            _ => false,
        };
        if !ok {
            proof {
                lemma_folded_refused(start, list, step, i + 1);
            }
            return false;
        }
    }
    assert(list.take(list.len() as int) =~= list);
    true
}

/// Declares the globals; gives whether all are supported.
fn declare_globals(env: &mut ModuleEnvironment, parsed: &ParsedModule) -> (r: bool)
    requires
        after_memories(parsed@) == Some(old(env)@),
        counted(old(env)@),
        old(env)@.types.len() == old(env)@.func_types.len(),
    ensures
        r ==> after_globals(parsed@) == Some(final(env)@) && counted(final(env)@)
            && final(env)@.types.len() == final(env)@.func_types.len(),
        !r ==> after_globals(parsed@) is None,
{
    let ghost p = parsed@;
    let ghost start = env@;
    let ghost list = p.globals;
    let ghost step = |d: Declarations, g: (RawGlobal, RawVal)| global_declared(d, g);
    assert(folded(start, list.take(0), step) == Some(start));
    for i in 0..parsed.globals.len()
        invariant
            p == parsed@,
            list == p.globals,
            list.len() == parsed.globals@.len(),
            step == (|d: Declarations, g: (RawGlobal, RawVal)| global_declared(d, g)),
            after_globals(p) == folded(start, list, step),
            folded(start, list.take(i as int), step) == Some(env@),
            counted(env@),
            env@.types.len() == env@.func_types.len(),
    {
        proof {
            lemma_folded_step(start, list, step, i as int);
        }
        let ok = match global_desc(parsed.globals[i].0, parsed.globals[i].1) {
            Some(desc) if env.num_globals() < MAX_ITEMS => {
                env.declare_global(desc);
                true
            },
            _ => false,
        };
        if !ok {
            proof {
                lemma_folded_refused(start, list, step, i + 1);
            }
            return false;
        }
    }
    assert(list.take(list.len() as int) =~= list);
    true
}

/// Declares the exports; gives whether all are supported.
fn declare_exports(env: &mut ModuleEnvironment, parsed: &ParsedModule) -> (r: bool)
    requires
        after_globals(parsed@) == Some(old(env)@),
        counted(old(env)@),
        old(env)@.types.len() == old(env)@.func_types.len(),
    ensures
        r ==> after_exports(parsed@) == Some(final(env)@) && counted(final(env)@)
            && final(env)@.types.len() == final(env)@.func_types.len(),
        !r ==> after_exports(parsed@) is None,
{
    let ghost p = parsed@;
    let ghost start = env@;
    let ghost list = p.exports;
    let ghost step = |d: Declarations, e: ExportItem| export_declared(d, e);
    assert(folded(start, list.take(0), step) == Some(start));
    for i in 0..parsed.exports.len()
        invariant
            p == parsed@,
            list == p.exports,
            list.len() == parsed.exports@.len(),
            step == (|d: Declarations, e: ExportItem| export_declared(d, e)),
            after_exports(p) == folded(start, list, step),
            folded(start, list.take(i as int), step) == Some(env@),
            counted(env@),
            env@.types.len() == env@.func_types.len(),
    {
        proof {
            lemma_folded_step(start, list, step, i as int);
        }
        let ok = declare_export(env, &parsed.exports[i]);
        if !ok {
            proof {
                lemma_folded_refused(start, list, step, i + 1);
            }
            return false;
        }
    }
    assert(list.take(list.len() as int) =~= list);
    true
}

/// Declares the start functions, of which the last counts; gives whether all are supported.
fn declare_start(env: &mut ModuleEnvironment, parsed: &ParsedModule) -> (r: bool)
    requires
        after_exports(parsed@) == Some(old(env)@),
        counted(old(env)@),
        old(env)@.types.len() == old(env)@.func_types.len(),
    ensures
        r ==> after_start(parsed@) == Some(final(env)@) && counted(final(env)@)
            && final(env)@.types.len() == final(env)@.func_types.len(),
        !r ==> after_start(parsed@) is None,
{
    let ghost p = parsed@;
    let ghost start = env@;
    let ghost list = p.start;
    let ghost step = |d: Declarations, f: u32| start_declared(d, f);
    assert(folded(start, list.take(0), step) == Some(start));
    for i in 0..parsed.start.len()
        invariant
            p == parsed@,
            list == p.start,
            list.len() == parsed.start@.len(),
            step == (|d: Declarations, f: u32| start_declared(d, f)),
            after_start(p) == folded(start, list, step),
            folded(start, list.take(i as int), step) == Some(env@),
            counted(env@),
            env@.types.len() == env@.func_types.len(),
    {
        proof {
            lemma_folded_step(start, list, step, i as int);
        }
        let ok = if (parsed.start[i] as usize) < env.num_functions() {
            env.declare_start_func(FuncIndex(parsed.start[i]));
            true
        } else {
            false
        };
        if !ok {
            proof {
                lemma_folded_refused(start, list, step, i + 1);
            }
            return false;
        }
    }
    assert(list.take(list.len() as int) =~= list);
    true
}

/// Declares the names of the module, of which the last counts; gives whether all are supported.
fn declare_names(env: &mut ModuleEnvironment, parsed: &ParsedModule) -> (r: bool)
    requires
        after_start(parsed@) == Some(old(env)@),
        counted(old(env)@),
        old(env)@.types.len() == old(env)@.func_types.len(),
    ensures
        r ==> after_names(parsed@) == Some(final(env)@) && counted(final(env)@)
            && final(env)@.types.len() == final(env)@.func_types.len(),
        !r ==> after_names(parsed@) is None,
{
    let ghost p = parsed@;
    let ghost start = env@;
    let ghost list = p.names;
    let ghost step = |d: Declarations, n: NamePart| name_declared(d, n);
    assert(folded(start, list.take(0), step) == Some(start));
    for i in 0..parsed.names.len()
        invariant
            p == parsed@,
            list == p.names,
            list.len() == parsed.names@.len(),
            step == (|d: Declarations, n: NamePart| name_declared(d, n)),
            after_names(p) == folded(start, list, step),
            folded(start, list.take(i as int), step) == Some(env@),
            counted(env@),
            env@.types.len() == env@.func_types.len(),
    {
        proof {
            lemma_folded_step(start, list, step, i as int);
        }
        let ok = {
            match &parsed.names[i] {
                RawName::Module(name) => env.declare_module_name(name.as_str()),
                _ => {},
            }
            true
        };
        if !ok {
            proof {
                lemma_folded_refused(start, list, step, i + 1);
            }
            return false;
        }
    }
    assert(list.take(list.len() as int) =~= list);
    true
}

/// Declares the first values of globals; gives whether all are supported.
fn declare_global_inits(env: &mut ModuleEnvironment, parsed: &ParsedModule) -> (r: bool)
    requires
        after_names(parsed@) == Some(old(env)@),
        counted(old(env)@),
        old(env)@.types.len() == old(env)@.func_types.len(),
    ensures
        r ==> after_global_inits(parsed@) == Some(final(env)@) && counted(final(env)@)
            && final(env)@.types.len() == final(env)@.func_types.len(),
        !r ==> after_global_inits(parsed@) is None,
{
    let ghost p = parsed@;
    let ghost start = env@;
    let ghost list = p.global_inits;
    let ghost step = |d: Declarations, i: Option<Seq<ConstOp>>| global_init_declared(d, i);
    assert(folded(start, list.take(0), step) == Some(start));
    for i in 0..parsed.global_inits.len()
        invariant
            p == parsed@,
            list == p.global_inits,
            list.len() == parsed.global_inits@.len(),
            step == (|d: Declarations, i: Option<Seq<ConstOp>>| global_init_declared(d, i)),
            after_global_inits(p) == folded(start, list, step),
            folded(start, list.take(i as int), step) == Some(env@),
            counted(env@),
            env@.types.len() == env@.func_types.len(),
    {
        proof {
            lemma_folded_step(start, list, step, i as int);
        }
        let ok = match &parsed.global_inits[i].0 {
            Some(ops) => {
                env.declare_global_initializer(copied(ops));
                true
            },
            None => false,
        };
        if !ok {
            proof {
                lemma_folded_refused(start, list, step, i + 1);
            }
            return false;
        }
    }
    assert(list.take(list.len() as int) =~= list);
    true
}

/// Declares the data segments; gives whether all are supported.
fn declare_data(env: &mut ModuleEnvironment, parsed: &ParsedModule) -> (r: bool)
    requires
        after_global_inits(parsed@) == Some(old(env)@),
        counted(old(env)@),
        old(env)@.types.len() == old(env)@.func_types.len(),
    ensures
        r ==> after_data(parsed@) == Some(final(env)@) && counted(final(env)@)
            && final(env)@.types.len() == final(env)@.func_types.len(),
        !r ==> after_data(parsed@) is None,
{
    let ghost p = parsed@;
    let ghost start = env@;
    let ghost list = p.data;
    let ghost step = |d: Declarations, s: ParsedDataItem| data_declared(d, s);
    assert(folded(start, list.take(0), step) == Some(start));
    for i in 0..parsed.data.len()
        invariant
            p == parsed@,
            list == p.data,
            list.len() == parsed.data@.len(),
            step == (|d: Declarations, s: ParsedDataItem| data_declared(d, s)),
            after_data(p) == folded(start, list, step),
            folded(start, list.take(i as int), step) == Some(env@),
            counted(env@),
            env@.types.len() == env@.func_types.len(),
    {
        proof {
            lemma_folded_step(start, list, step, i as int);
        }
        let ok = declare_data_segment(env, &parsed.data[i]);
        if !ok {
            proof {
                lemma_folded_refused(start, list, step, i + 1);
            }
            return false;
        }
    }
    assert(list.take(list.len() as int) =~= list);
    true
}

/// Declares the element segments; gives whether all are supported.
fn declare_elements(env: &mut ModuleEnvironment, parsed: &ParsedModule) -> (r: bool)
    requires
        after_data(parsed@) == Some(old(env)@),
        counted(old(env)@),
        old(env)@.types.len() == old(env)@.func_types.len(),
    ensures
        r ==> after_elements(parsed@) == Some(final(env)@) && counted(final(env)@)
            && final(env)@.types.len() == final(env)@.func_types.len(),
        !r ==> after_elements(parsed@) is None,
{
    let ghost p = parsed@;
    let ghost start = env@;
    let ghost list = p.elements;
    let ghost step = |d: Declarations, s: ParsedSegmentItem| elements_declared(d, p.element_items, s);
    assert(folded(start, list.take(0), step) == Some(start));
    for i in 0..parsed.elements.len()
        invariant
            p == parsed@,
            list == p.elements,
            list.len() == parsed.elements@.len(),
            step == (|d: Declarations, s: ParsedSegmentItem| elements_declared(d, p.element_items, s)),
            after_elements(p) == folded(start, list, step),
            folded(start, list.take(i as int), step) == Some(env@),
            counted(env@),
            env@.types.len() == env@.func_types.len(),
    {
        proof {
            lemma_folded_step(start, list, step, i as int);
        }
        let ok = declare_element_segment(env, &parsed.element_items, &parsed.elements[i]);
        if !ok {
            proof {
                lemma_folded_refused(start, list, step, i + 1);
            }
            return false;
        }
    }
    assert(list.take(list.len() as int) =~= list);
    true
}

/// Declares the first elements of tables; gives whether all are supported.
fn declare_table_inits(env: &mut ModuleEnvironment, parsed: &ParsedModule) -> (r: bool)
    requires
        after_elements(parsed@) == Some(old(env)@),
        counted(old(env)@),
        old(env)@.types.len() == old(env)@.func_types.len(),
    ensures
        r ==> after_table_inits(parsed@) == Some(final(env)@) && counted(final(env)@)
            && final(env)@.types.len() == final(env)@.func_types.len(),
        !r ==> after_table_inits(parsed@) is None,
{
    let ghost p = parsed@;
    let ghost start = env@;
    let ghost list = p.table_inits;
    let ghost step = |d: Declarations, i: Option<Option<Seq<ConstOp>>>| table_init_declared(d, i);
    assert(folded(start, list.take(0), step) == Some(start));
    for i in 0..parsed.table_inits.len()
        invariant
            p == parsed@,
            list == p.table_inits,
            list.len() == parsed.table_inits@.len(),
            step == (|d: Declarations, i: Option<Option<Seq<ConstOp>>>| table_init_declared(d, i)),
            after_table_inits(p) == folded(start, list, step),
            folded(start, list.take(i as int), step) == Some(env@),
            counted(env@),
            env@.types.len() == env@.func_types.len(),
    {
        proof {
            lemma_folded_step(start, list, step, i as int);
        }
        let ok = match &parsed.table_inits[i].0 {
            None => {
                env.declare_table_initializer(TableInitializer(None));
                true
            },
            Some(Expr(Some(ops))) => {
                env.declare_table_initializer(TableInitializer(Some(copied(ops))));
                true
            },
            Some(Expr(None)) => false,
        };
        if !ok {
            proof {
                lemma_folded_refused(start, list, step, i + 1);
            }
            return false;
        }
    }
    assert(list.take(list.len() as int) =~= list);
    true
}

/// Declares the bodies of functions; gives whether all are supported.
fn declare_bodies(env: &mut ModuleEnvironment, parsed: &ParsedModule) -> (r: bool)
    requires
        after_table_inits(parsed@) == Some(old(env)@),
        counted(old(env)@),
        old(env)@.types.len() == old(env)@.func_types.len(),
    ensures
        r ==> after_bodies(parsed@) == Some(final(env)@) && counted(final(env)@)
            && final(env)@.types.len() == final(env)@.func_types.len(),
        !r ==> after_bodies(parsed@) is None,
{
    let ghost p = parsed@;
    let ghost start = env@;
    let ghost list = p.bodies;
    let ghost step = |d: Declarations, b: (usize, Seq<u8>)| body_declared(d, b);
    assert(folded(start, list.take(0), step) == Some(start));
    for i in 0..parsed.bodies.len()
        invariant
            p == parsed@,
            list == p.bodies,
            list.len() == parsed.bodies@.len(),
            step == (|d: Declarations, b: (usize, Seq<u8>)| body_declared(d, b)),
            after_bodies(p) == folded(start, list, step),
            folded(start, list.take(i as int), step) == Some(env@),
            counted(env@),
            env@.types.len() == env@.func_types.len(),
    {
        proof {
            lemma_folded_step(start, list, step, i as int);
        }
        let ok = {
            let body = bytes_copied(&parsed.bodies[i].body);
            env.define_function_body(FunctionBodyInput { start: parsed.bodies[i].start, body });
            true
        };
        if !ok {
            proof {
                lemma_folded_refused(start, list, step, i + 1);
            }
            return false;
        }
    }
    assert(list.take(list.len() as int) =~= list);
    true
}

/// What is missing where a declaration of a module is not supported.
pub open spec fn undeclarable() -> Seq<char> {
    "a declaration of the module"@
}

/// Collects what a module declares; fails where something is not supported.
pub fn declare_all(parsed: &ParsedModule) -> (r: Result<ModuleTranslation, Error>)
    ensures
        (match declared_all(parsed@) {
            Some(d) => r matches Ok(t) && t@ == d && counted(d),
            None => r matches Err(Error::Unsupported(feature)) && feature@ == undeclarable(),
        }),
{
    let mut env = ModuleEnvironment::new();
    let ok = declare_types(&mut env, parsed) && declare_imports(&mut env, parsed)
        && declare_functions(&mut env, parsed) && declare_tables(&mut env, parsed)
        && declare_memories(&mut env, parsed) && declare_globals(&mut env, parsed)
        && declare_exports(&mut env, parsed) && declare_start(&mut env, parsed)
        && declare_names(&mut env, parsed) && declare_global_inits(&mut env, parsed)
        && declare_data(&mut env, parsed) && declare_elements(&mut env, parsed)
        && declare_table_inits(&mut env, parsed) && declare_bodies(&mut env, parsed);
    if ok {
        Ok(env.finish())
    } else {
        Err(Error::unsupported("a declaration of the module"))
    }
}

/// The bytes that a module begins with: the magic number and the version of the format.
pub open spec fn header() -> Seq<u8> {
    seq![0x00u8, 0x61u8, 0x73u8, 0x6du8, 0x01u8, 0x00u8, 0x00u8, 0x00u8]
}

/// Whether bytes begin as a module does.
pub open spec fn begins_as_module(bytes: Seq<u8>) -> bool {
    bytes.len() >= 8 && bytes.take(8) == header()
}

/// Whether bytes begin as a module does.
fn is_module(bytes: &[u8]) -> (r: bool)
    ensures
        r == begins_as_module(bytes@),
{
    if bytes.len() < 8 {
        return false;
    }
    let r = bytes[0] == 0x00 && bytes[1] == 0x61 && bytes[2] == 0x73 && bytes[3] == 0x6d && bytes[4]
        == 0x01 && bytes[5] == 0x00 && bytes[6] == 0x00 && bytes[7] == 0x00;
    proof {
        let start = bytes@.take(8);
        assert(forall|i: int| 0 <= i < 8 ==> #[trigger] start[i] == bytes@[i]);
        assert(header()[0] == 0x00 && header()[1] == 0x61 && header()[2] == 0x73 && header()[3]
            == 0x6d && header()[4] == 0x01 && header()[5] == 0x00 && header()[6] == 0x00
            && header()[7] == 0x00);
        if r {
            assert(start =~= header());
        }
    }
    r
}

/// A data segment with its expression read.
pub open spec fn data_resolved(item: DataItem) -> ParsedDataItem {
    ParsedDataItem {
        memory: match item.memory {
            Some((memory, offset)) => Some((memory, crate::cranelift::decode::const_expr(offset))),
            None => None,
        },
        data: item.data,
    }
}

/// What becomes of an element segment, with its expression read.
pub open spec fn segment_resolved(item: SegmentItem) -> ParsedSegmentItem {
    match item {
        SegmentItem::Passive => ParsedSegmentItem::Passive,
        SegmentItem::Declared => ParsedSegmentItem::Declared,
        SegmentItem::Active(table, offset) => ParsedSegmentItem::Active(
            table,
            crate::cranelift::decode::const_expr(offset),
        ),
    }
}

/// The elements of a segment with their expressions read.
pub open spec fn items_resolved(item: ItemsItem) -> ParsedItemsItem {
    match item {
        ItemsItem::Functions(funcs) => ParsedItemsItem::Functions(funcs),
        ItemsItem::Expressions(exprs) => ParsedItemsItem::Expressions(
            exprs.map_values(|e: Seq<u8>| crate::cranelift::decode::const_expr(e)),
        ),
    }
}

/// The first elements of a table, with their expression read.
pub open spec fn init_resolved(item: Option<Seq<u8>>) -> Option<Option<Seq<ConstOp>>> {
    match item {
        Some(expr) => Some(crate::cranelift::decode::const_expr(expr)),
        None => None,
    }
}

/// Reads expressions.
fn resolve_inits(list: &Vec<Vec<u8>>) -> (r: Vec<Expr>)
    ensures
        crate::parse::items(r@) == crate::parse::items(list@).map_values(
            |e: Seq<u8>| crate::cranelift::decode::const_expr(e),
        ),
{
    let mut out: Vec<Expr> = Vec::new();
    for i in 0..list.len()
        invariant
            out@.len() == i,
            forall|k: int|
                0 <= k < i ==> (#[trigger] out@[k])@ == crate::cranelift::decode::const_expr(list@[k]@),
    {
        out.push(Expr(decode_const_expr(list[i].as_slice())));
    }
    assert(crate::parse::items(out@) =~= crate::parse::items(list@).map_values(
        |e: Seq<u8>| crate::cranelift::decode::const_expr(e),
    ));
    out
}

/// Reads the expressions of data segments.
fn resolve_data(list: &Vec<RawData>) -> (r: Vec<ParsedData>)
    ensures
        crate::parse::items(r@) == crate::parse::items(list@).map_values(
            |s: DataItem| data_resolved(s),
        ),
{
    let mut out: Vec<ParsedData> = Vec::new();
    for i in 0..list.len()
        invariant
            out@.len() == i,
            forall|k: int| 0 <= k < i ==> (#[trigger] out@[k])@ == data_resolved(list@[k]@),
    {
        let memory: Option<(u32, Expr)> = match &list[i].0 {
            Some((memory, offset)) => Some(
                (*memory, Expr(decode_const_expr(offset.as_slice()))),
            ),
            None => None,
        };
        out.push(ParsedData { memory, data: bytes_copied(&list[i].1) });
    }
    assert(crate::parse::items(out@) =~= crate::parse::items(list@).map_values(
        |s: DataItem| data_resolved(s),
    ));
    out
}

/// Reads the expressions of element segments.
fn resolve_elements(list: &Vec<RawSegment>) -> (r: Vec<ParsedSegment>)
    ensures
        crate::parse::items(r@) == crate::parse::items(list@).map_values(
            |s: SegmentItem| segment_resolved(s),
        ),
{
    let mut out: Vec<ParsedSegment> = Vec::new();
    for i in 0..list.len()
        invariant
            out@.len() == i,
            forall|k: int| 0 <= k < i ==> (#[trigger] out@[k])@ == segment_resolved(list@[k]@),
    {
        out.push(
            match &list[i] {
                RawSegment::Passive => ParsedSegment::Passive,
                RawSegment::Declared => ParsedSegment::Declared,
                RawSegment::Active(table, offset) => ParsedSegment::Active(
                    *table,
                    Expr(decode_const_expr(offset.as_slice())),
                ),
            },
        );
    }
    assert(crate::parse::items(out@) =~= crate::parse::items(list@).map_values(
        |s: SegmentItem| segment_resolved(s),
    ));
    out
}

/// Reads the expressions of the elements of segments.
fn resolve_items(list: &Vec<RawItems>) -> (r: Vec<ParsedItems>)
    ensures
        crate::parse::items(r@) == crate::parse::items(list@).map_values(
            |s: ItemsItem| items_resolved(s),
        ),
{
    let mut out: Vec<ParsedItems> = Vec::new();
    for i in 0..list.len()
        invariant
            out@.len() == i,
            forall|k: int| 0 <= k < i ==> (#[trigger] out@[k])@ == items_resolved(list@[k]@),
    {
        out.push(
            match &list[i] {
                RawItems::Functions(funcs) => ParsedItems::Functions(numbers_copied(funcs)),
                RawItems::Expressions(exprs) => ParsedItems::Expressions(resolve_inits(exprs)),
            },
        );
    }
    assert(crate::parse::items(out@) =~= crate::parse::items(list@).map_values(
        |s: ItemsItem| items_resolved(s),
    ));
    out
}

/// Reads the expressions of the first elements of tables.
fn resolve_table_inits(list: &Vec<RawInit>) -> (r: Vec<ParsedInit>)
    ensures
        crate::parse::items(r@) == crate::parse::items(list@).map_values(
            |s: Option<Seq<u8>>| init_resolved(s),
        ),
{
    let mut out: Vec<ParsedInit> = Vec::new();
    for i in 0..list.len()
        invariant
            out@.len() == i,
            forall|k: int| 0 <= k < i ==> (#[trigger] out@[k])@ == init_resolved(list@[k]@),
    {
        out.push(
            ParsedInit(
                match &list[i].0 {
                    Some(expr) => Some(Expr(decode_const_expr(expr.as_slice()))),
                    None => None,
                },
            ),
        );
    }
    assert(crate::parse::items(out@) =~= crate::parse::items(list@).map_values(
        |s: Option<Seq<u8>>| init_resolved(s),
    ));
    out
}

/// Whether the parser can read all sections of a module.
pub open spec fn readable(bytes: Seq<u8>) -> bool {
    &&& crate::parse::type_section(bytes) is Some
    &&& crate::parse::import_section(bytes) is Some
    &&& crate::parse::import_types(bytes) is Some
    &&& crate::parse::function_section(bytes) is Some
    &&& crate::parse::table_section(bytes) is Some
    &&& crate::parse::memory_section(bytes) is Some
    &&& crate::parse::global_section(bytes) is Some
    &&& crate::parse::export_section(bytes) is Some
    &&& crate::parse::start_section(bytes) is Some
    &&& crate::parse::name_section(bytes) is Some
    &&& crate::parse::global_inits(bytes) is Some
    &&& crate::parse::data_section(bytes) is Some
    &&& crate::parse::element_section(bytes) is Some
    &&& crate::parse::element_items(bytes) is Some
    &&& crate::parse::table_inits(bytes) is Some
    &&& crate::body::code_section(bytes) is Some
}

/// What the parser reads of a module, unless some of its sections cannot be read.
pub open spec fn sections(bytes: Seq<u8>) -> Option<ParsedModel> {
    if readable(bytes) {
        Some(
            ParsedModel {
                types: crate::parse::type_section(bytes)->0,
                imports: crate::parse::import_section(bytes)->0,
                import_types: crate::parse::import_types(bytes)->0,
                functions: crate::parse::function_section(bytes)->0,
                tables: crate::parse::table_section(bytes)->0,
                memories: crate::parse::memory_section(bytes)->0,
                globals: crate::parse::global_section(bytes)->0,
                exports: crate::parse::export_section(bytes)->0,
                start: crate::parse::start_section(bytes)->0,
                names: crate::parse::name_section(bytes)->0,
                global_inits: crate::parse::global_inits(bytes)->0.map_values(
                    |e: Seq<u8>| crate::cranelift::decode::const_expr(e),
                ),
                data: crate::parse::data_section(bytes)->0.map_values(
                    |s: DataItem| data_resolved(s),
                ),
                elements: crate::parse::element_section(bytes)->0.map_values(
                    |s: SegmentItem| segment_resolved(s),
                ),
                element_items: crate::parse::element_items(bytes)->0.map_values(
                    |s: ItemsItem| items_resolved(s),
                ),
                table_inits: crate::parse::table_inits(bytes)->0.map_values(
                    |s: Option<Seq<u8>>| init_resolved(s),
                ),
                bodies: crate::body::code_section(bytes)->0,
            },
        )
    } else {
        None
    }
}

/// What is said of a module with a section that cannot be read.
pub open spec fn unreadable() -> Seq<char> {
    "a section cannot be read"@
}

/// The error for a module with a section that cannot be read.
fn unreadable_section() -> (r: Error)
    ensures
        is_unreadable(r),
{
    Error::InvalidWebAssembly { message: String::from_str("a section cannot be read"), offset: 0 }
}

/// Whether an error says that a section cannot be read.
pub open spec fn is_unreadable(e: Error) -> bool {
    e matches Error::InvalidWebAssembly { message, offset } && message@ == unreadable() && offset
        == 0
}

/// Reads the sections of a module.
fn read_sections(bytes: &[u8]) -> (r: Result<ParsedModule, Error>)
    ensures
        (match sections(bytes@) {
            Some(p) => r matches Ok(parsed) && parsed@ == p,
            None => r matches Err(e) && is_unreadable(e),
        }),
{
    let types = match crate::parse::read_types(bytes) {
        Ok(types) => types,
        Err(_) => return Err(unreadable_section()),
    };
    let imports = match crate::parse::read_imports(bytes) {
        Ok(imports) => imports,
        Err(_) => return Err(unreadable_section()),
    };
    let import_types = match crate::parse::read_import_types(bytes) {
        Ok(import_types) => import_types,
        Err(_) => return Err(unreadable_section()),
    };
    let functions = match crate::parse::read_functions(bytes) {
        Ok(functions) => functions,
        Err(_) => return Err(unreadable_section()),
    };
    let tables = match crate::parse::read_tables(bytes) {
        Ok(tables) => tables,
        Err(_) => return Err(unreadable_section()),
    };
    let memories = match crate::parse::read_memories(bytes) {
        Ok(memories) => memories,
        Err(_) => return Err(unreadable_section()),
    };
    let globals = match crate::parse::read_globals(bytes) {
        Ok(globals) => globals,
        Err(_) => return Err(unreadable_section()),
    };
    let exports = match crate::parse::read_exports(bytes) {
        Ok(exports) => exports,
        Err(_) => return Err(unreadable_section()),
    };
    let start = match crate::parse::read_start(bytes) {
        Ok(start) => start,
        Err(_) => return Err(unreadable_section()),
    };
    let names = match crate::parse::read_names(bytes) {
        Ok(names) => names,
        Err(_) => return Err(unreadable_section()),
    };
    let global_inits = match crate::parse::read_global_inits(bytes) {
        Ok(global_inits) => global_inits,
        Err(_) => return Err(unreadable_section()),
    };
    let data = match crate::parse::read_data(bytes) {
        Ok(data) => data,
        Err(_) => return Err(unreadable_section()),
    };
    let element_items = match crate::parse::read_element_items(bytes) {
        Ok(element_items) => element_items,
        Err(_) => return Err(unreadable_section()),
    };
    let table_inits = match crate::parse::read_table_inits(bytes) {
        Ok(table_inits) => table_inits,
        Err(_) => return Err(unreadable_section()),
    };
    let bodies = match crate::body::read_bodies(bytes) {
        Ok(bodies) => bodies,
        Err(_) => return Err(unreadable_section()),
    };
    let elements = match crate::parse::read_elements(bytes) {
        Ok(elements) => elements,
        Err(_) => return Err(unreadable_section()),
    };
    Ok(
        ParsedModule {
            types,
            imports,
            import_types,
            functions,
            tables,
            memories,
            globals,
            exports,
            start,
            names,
            global_inits: resolve_inits(&global_inits),
            data: resolve_data(&data),
            elements: resolve_elements(&elements),
            element_items: resolve_items(&element_items),
            table_inits: resolve_table_inits(&table_inits),
            bodies,
        },
    )
}

/// The declarations after something is referred to from outside: a function gets a slot for its
/// reference, unless it has one.
pub open spec fn escaped_one(d: Declarations, index: EntityIndex) -> Declarations {
    match index {
        EntityIndex::Function(f) if f.0 < d.functions.len()
            && !d.functions[f.0 as int].spec_is_escaping() => Declarations {
            functions: d.functions.update(
                f.0 as int,
                crate::translate::FunctionDesc {
                    func_ref: FuncRefIndex(d.num_escaped_functions),
                    ..d.functions[f.0 as int]
                },
            ),
            num_escaped_functions: (d.num_escaped_functions + 1) as u32,
            ..d
        },
        _ => d,
    }
}

/// The functions that constant expressions refer to.
pub open spec fn func_refs(ops: Seq<ConstOp>) -> Seq<EntityIndex>
    decreases ops.len(),
{
    if ops.len() == 0 {
        Seq::empty()
    } else {
        let before = func_refs(ops.drop_last());
        match ops.last() {
            ConstOp::RefFunc(f) => before.push(EntityIndex::Function(f)),
            _ => before,
        }
    }
}

/// The functions that a list of constant expressions refers to.
pub open spec fn all_func_refs(exprs: Seq<Seq<ConstOp>>) -> Seq<EntityIndex>
    decreases exprs.len(),
{
    if exprs.len() == 0 {
        Seq::empty()
    } else {
        all_func_refs(exprs.drop_last()) + func_refs(exprs.last())
    }
}

/// The functions that the elements of a segment refer to.
pub open spec fn elements_roots(elements: ElementsModel) -> Seq<EntityIndex> {
    match elements {
        ElementsModel::Functions(funcs) => funcs.map_values(
            |f: FuncIndex| EntityIndex::Function(f),
        ),
        ElementsModel::Expressions(exprs) => all_func_refs(exprs),
    }
}

/// The functions that element segments refer to.
pub open spec fn element_roots(elements: Seq<ElementModel>) -> Seq<EntityIndex>
    decreases elements.len(),
{
    if elements.len() == 0 {
        Seq::empty()
    } else {
        element_roots(elements.drop_last()) + elements_roots(elements.last().elements)
    }
}

/// The functions that the first elements of tables refer to.
pub open spec fn table_roots(inits: Seq<Option<Seq<ConstOp>>>) -> Seq<EntityIndex>
    decreases inits.len(),
{
    if inits.len() == 0 {
        Seq::empty()
    } else {
        let before = table_roots(inits.drop_last());
        match inits.last() {
            Some(ops) => before + func_refs(ops),
            None => before,
        }
    }
}

/// What can be referred to from outside a function: the exports of the module, and then the functions
/// of its element segments, its globals and its tables.
pub open spec fn roots(d: Declarations) -> Seq<EntityIndex> {
    d.exports.map_values(|e: (Seq<char>, EntityIndex)| e.1) + element_roots(d.elements)
        + all_func_refs(d.global_initializers) + table_roots(d.table_initializers)
}

/// The declarations after the first of a list of things are referred to from outside: their functions
/// have slots for their references, in order.
pub open spec fn escaped(d: Declarations, list: Seq<EntityIndex>, n: int) -> Declarations
    decreases n,
{
    if n <= 0 {
        d
    } else {
        escaped_one(escaped(d, list, n - 1), list[n - 1])
    }
}

/// Whether every function that escapes has a slot of its own.
pub open spec fn slots_are_distinct(d: Declarations) -> bool {
    &&& forall|i: int|
        0 <= i < d.functions.len() && (#[trigger] d.functions[i]).spec_is_escaping()
            ==> d.functions[i].func_ref.0 < d.num_escaped_functions
    &&& forall|i: int, j: int|
        0 <= i < j < d.functions.len() && (#[trigger] d.functions[i]).spec_is_escaping() && (
        #[trigger] d.functions[j]).spec_is_escaping() ==> d.functions[i].func_ref
            != d.functions[j].func_ref
}

/// Functions that can be referred to from outside escape, every function that escapes has a slot of
/// its own, and everything else stays as it was.
pub proof fn referenced_functions_escape(d: Declarations, list: Seq<EntityIndex>, n: int)
    requires
        0 <= n <= list.len(),
        d.num_escaped_functions + n < u32::MAX,
        slots_are_distinct(d),
    ensures
        slots_are_distinct(escaped(d, list, n)),
        escaped(d, list, n).num_escaped_functions <= d.num_escaped_functions + n,
        escaped(d, list, n).functions.len() == d.functions.len(),
        escaped(d, list, n) == (Declarations {
            functions: escaped(d, list, n).functions,
            num_escaped_functions: escaped(d, list, n).num_escaped_functions,
            ..d
        }),
        forall|i: int|
            0 <= i < d.functions.len() ==> (#[trigger] escaped(d, list, n).functions[i]).signature
                == d.functions[i].signature,
        forall|i: int|
            0 <= i < d.functions.len() && d.functions[i].spec_is_escaping() ==> (
            #[trigger] escaped(d, list, n).functions[i]) == d.functions[i],
        forall|k: int|
            0 <= k < n ==> (#[trigger] list[k] matches EntityIndex::Function(f) ==> f.0
                < d.functions.len() ==> escaped(
                d,
                list,
                n,
            ).functions[f.0 as int].spec_is_escaping()),
    decreases n,
{
    if n > 0 {
        referenced_functions_escape(d, list, n - 1);
        let before = escaped(d, list, n - 1);
        let after = escaped(d, list, n);
        assert(after == escaped_one(before, list[n - 1]));
        assert forall|k: int| 0 <= k < n implies (#[trigger] list[k] matches EntityIndex::Function(
            f,
        ) ==> f.0 < d.functions.len() ==> after.functions[f.0 as int].spec_is_escaping()) by {
            if let EntityIndex::Function(f) = list[k] {
                if k < n - 1 && f.0 < d.functions.len() {
                    assert(before.functions[f.0 as int].spec_is_escaping());
                }
            }
        }
    }
}

/// Adds the functions that a constant expression refers to.
fn push_func_refs(list: &mut Vec<EntityIndex>, ops: &Vec<ConstOp>)
    ensures
        final(list)@ == old(list)@ + func_refs(ops@),
{
    assert(ops@.take(0) =~= Seq::empty());
    assert(list@ =~= old(list)@ + func_refs(ops@.take(0)));
    for i in 0..ops.len()
        invariant
            list@ == old(list)@ + func_refs(ops@.take(i as int)),
    {
        assert(ops@.take(i + 1).drop_last() =~= ops@.take(i as int));
        if let ConstOp::RefFunc(f) = ops[i] {
            list.push(EntityIndex::Function(f));
        }
        assert(list@ =~= old(list)@ + func_refs(ops@.take(i + 1)));
    }
    assert(ops@.take(ops@.len() as int) =~= ops@);
}

/// Adds the functions that constant expressions refer to.
fn push_all_func_refs(list: &mut Vec<EntityIndex>, exprs: &Vec<Vec<ConstOp>>)
    ensures
        final(list)@ == old(list)@ + all_func_refs(crate::parse::items(exprs@)),
{
    let ghost all = crate::parse::items(exprs@);
    assert(all.take(0) =~= Seq::empty());
    assert(list@ =~= old(list)@ + all_func_refs(all.take(0)));
    for i in 0..exprs.len()
        invariant
            all == crate::parse::items(exprs@),
            list@ == old(list)@ + all_func_refs(all.take(i as int)),
    {
        push_func_refs(list, &exprs[i]);
        assert(all[i as int] == exprs@[i as int]@);
        assert(all.take(i + 1).drop_last() =~= all.take(i as int));
        assert(list@ =~= old(list)@ + all_func_refs(all.take(i + 1)));
    }
    assert(all.take(all.len() as int) =~= all);
}

/// Adds the functions that the elements of a segment refer to.
fn push_elements(list: &mut Vec<EntityIndex>, segment: &ElementSegment)
    ensures
        final(list)@ == old(list)@ + elements_roots(segment@.elements),
{
    match &segment.elements {
        TableSegmentElements::Functions(funcs) => {
            assert(list@ =~= old(list)@ + funcs@.take(0).map_values(
                |f: FuncIndex| EntityIndex::Function(f),
            ));
            for j in 0..funcs.len()
                invariant
                    list@ == old(list)@ + funcs@.take(j as int).map_values(
                        |f: FuncIndex| EntityIndex::Function(f),
                    ),
            {
                list.push(EntityIndex::Function(funcs[j]));
                assert(list@ =~= old(list)@ + funcs@.take(j + 1).map_values(
                    |f: FuncIndex| EntityIndex::Function(f),
                ));
            }
            assert(funcs@.take(funcs@.len() as int) =~= funcs@);
        },
        TableSegmentElements::Expressions(exprs) => push_all_func_refs(list, exprs),
    }
}

/// What can be referred to from outside a function.
fn collect_roots(translation: &ModuleTranslation) -> (r: Vec<EntityIndex>)
    ensures
        r@ == roots(translation@),
{
    let ghost d = translation@;
    let mut list: Vec<EntityIndex> = Vec::new();
    for i in 0..translation.module.exports.len()
        invariant
            d == translation@,
            list@.len() == i,
            forall|k: int| 0 <= k < i ==> #[trigger] list@[k] == d.exports[k].1,
    {
        list.push(translation.module.exports[i].1);
    }
    let ghost exported = list@;
    assert(exported =~= d.exports.map_values(|e: (Seq<char>, EntityIndex)| e.1));
    assert(d.elements.take(0) =~= Seq::empty());
    assert(list@ =~= exported + element_roots(d.elements.take(0)));
    for i in 0..translation.elements.len()
        invariant
            d == translation@,
            list@ == exported + element_roots(d.elements.take(i as int)),
    {
        push_elements(&mut list, &translation.elements[i]);
        assert(d.elements[i as int] == translation.elements@[i as int]@);
        assert(d.elements.take(i + 1).drop_last() =~= d.elements.take(i as int));
        assert(list@ =~= exported + element_roots(d.elements.take(i + 1)));
    }
    assert(d.elements.take(d.elements.len() as int) =~= d.elements);
    push_all_func_refs(&mut list, &translation.global_initializers);
    let ghost before = list@;
    let ghost inits = d.table_initializers;
    assert(inits.take(0) =~= Seq::empty());
    assert(list@ =~= before + table_roots(inits.take(0)));
    for i in 0..translation.table_initializers.len()
        invariant
            d == translation@,
            inits == d.table_initializers,
            list@ == before + table_roots(inits.take(i as int)),
    {
        assert(inits[i as int] == translation.table_initializers@[i as int]@);
        assert(inits.take(i + 1).drop_last() =~= inits.take(i as int));
        if let Some(ops) = &translation.table_initializers[i].0 {
            push_func_refs(&mut list, ops);
        }
        assert(list@ =~= before + table_roots(inits.take(i + 1)));
    }
    assert(inits.take(inits.len() as int) =~= inits);
    list
}

/// Gives every function of a list a slot for its reference, so that it can be called from outside.
pub fn mark_escaping(translation: &mut ModuleTranslation, list: &Vec<EntityIndex>)
    requires
        old(translation)@.num_escaped_functions + list@.len() < u32::MAX,
        slots_are_distinct(old(translation)@),
    ensures
        final(translation)@ == escaped(old(translation)@, list@, list@.len() as int),
{
    let ghost before = translation@;
    for i in 0..list.len()
        invariant
            before.num_escaped_functions + list@.len() < u32::MAX,
            slots_are_distinct(before),
            translation@ == escaped(before, list@, i as int),
    {
        proof {
            referenced_functions_escape(before, list@, i as int);
        }
        if let EntityIndex::Function(f) = list[i] {
            let at: usize = f.0 as usize;
            if at < translation.module.functions.len() {
                let func = translation.module.functions[at];
                if !func.is_escaping() {
                    let slot: u32 = translation.module.num_escaped_functions;
                    translation.module.functions.set(
                        at,
                        crate::translate::FunctionDesc {
                            signature: func.signature,
                            func_ref: FuncRefIndex(slot),
                        },
                    );
                    translation.module.num_escaped_functions = slot + 1;
                }
            }
        }
        assert(translation@ =~= escaped(before, list@, i + 1));
    }
}

/// What a module is translated to, if everything in it is supported: what it declares, with slots
/// for the references of functions that can be referred to from outside.
pub open spec fn translated(p: ParsedModel) -> Option<Declarations> {
    match declared_all(p) {
        Some(d) if roots(d).len() <= MAX_ITEMS => Some(
            escaped(d, roots(d), roots(d).len() as int),
        ),
        _ => None,
    }
}

/// Translates a module that was read.
pub fn translate_sections(parsed: &ParsedModule) -> (r: Result<ModuleTranslation, Error>)
    ensures
        (match translated(parsed@) {
            Some(d) => r matches Ok(t) && t@ == d && t.module.wf() && slots_are_distinct(d),
            None => r matches Err(Error::Unsupported(feature)) && feature@ == undeclarable(),
        }),
{
    match declare_all(parsed) {
        Ok(mut translation) => {
            let list = collect_roots(&translation);
            if list.len() > MAX_ITEMS {
                return Err(Error::unsupported("a declaration of the module"));
            }
            proof {
                referenced_functions_escape(translation@, list@, list@.len() as int);
            }
            mark_escaping(&mut translation, &list);
            Ok(translation)
        },
        Err(e) => Err(e),
    }
}

/// Translates a module: its bytes must be valid with the given features, be a module and not a
/// component, and declare only what is supported.
pub fn translate_module(bytes: &[u8], features: u32) -> (r: Result<ModuleTranslation, Error>)
    ensures
        match crate::parse::validation_failure(bytes@, features) {
            Some((why, at)) => r matches Err(Error::InvalidWebAssembly { message, offset })
                && message@ == why && offset == at,
            None => if !begins_as_module(bytes@) {
                r matches Err(Error::Unsupported(feature)) && feature@ == "components"@
            } else {
                match sections(bytes@) {
                    None => r matches Err(e) && is_unreadable(e),
                    Some(p) => match translated(p) {
                        Some(d) => {
                            &&& r matches Ok(t) && t@ == (Declarations {
                                required_features: features,
                                ..d
                            }) && t.module.wf() && slots_are_distinct(t@)
                        },
                        None => r matches Err(Error::Unsupported(feature)) && feature@ == undeclarable(),
                    },
                }
            },
        },
{
    match crate::parse::validate(bytes, features) {
        Some((message, offset)) => return Err(Error::InvalidWebAssembly { message, offset }),
        None => {},
    }
    if !is_module(bytes) {
        return Err(Error::unsupported("components"));
    }
    match read_sections(bytes) {
        Ok(parsed) => match translate_sections(&parsed) {
            Ok(mut translation) => {
                translation.required_features = features;
                Ok(translation)
            },
            Err(e) => Err(e),
        },
        Err(e) => Err(e),
    }
}

} // verus!
