//! That a translated module is the module that was read.
use crate::indices::{CanonicalizedTypeIndex, EntityIndex, FuncIndex};
use crate::module_env::{
    exported, exports_as, last_export_counts, names_differ, nothing, DataModel, Declarations,
    ElementModel, ElementsModel, KindModel,
};
use crate::module_translator::{
    after_bodies, after_data, after_elements, after_exports, after_functions, after_global_inits,
    after_globals, after_imports, after_memories, after_names, after_start, after_table_inits,
    after_tables, after_types, body_declared, data_declared, elements_declared, export_declared,
    folded, function_declared, global_declared, global_init_declared, import_declared,
    memory_declared, name_declared, referenced_functions_escape, roots, slots_are_distinct,
    start_declared, table_declared, table_init_declared, translated, type_declared,
    ParsedDataItem, ParsedItemsItem, ParsedModel, ParsedSegmentItem,
};
use crate::parse::{
    ExportItem, FuncTypeItem, ImportItem, NamePart, RawEntity, RawExternal, RawGlobal,
    RawHeap, RawMemory, RawTable, RawVal,
};
use crate::runtime::const_eval::ConstOp;
use crate::types::{
    FuncTypeModel, GlobalDesc, MemoryDesc, TableDesc, WasmHeapType, WasmHeapTypeInner, WasmValType,
};
use vstd::prelude::*;

verus! {

/// Whether a kind of references is the one that was read.
pub open spec fn is_heap(raw: RawHeap, ty: WasmHeapType) -> bool {
    match raw {
        RawHeap::Abstract(shared, n) => ty.shared == shared && match ty.ty {
            WasmHeapTypeInner::Func => n == 0,
            WasmHeapTypeInner::Extern => n == 1,
            WasmHeapTypeInner::Any => n == 2,
            WasmHeapTypeInner::NoAny => n == 3,
            WasmHeapTypeInner::NoExtern => n == 4,
            WasmHeapTypeInner::NoFunc => n == 5,
            WasmHeapTypeInner::Eq => n == 6,
            WasmHeapTypeInner::Struct => n == 7,
            WasmHeapTypeInner::Array => n == 8,
            WasmHeapTypeInner::I31 => n == 9,
            WasmHeapTypeInner::Exn => n == 10,
            WasmHeapTypeInner::NoExn => n == 11,
            WasmHeapTypeInner::Cont => n == 12,
            WasmHeapTypeInner::NoCont => n == 13,
            _ => false,
        },
        RawHeap::Concrete(index) => !ty.shared && match ty.ty {
            WasmHeapTypeInner::ConcreteFunc(CanonicalizedTypeIndex::Module(i)) => index == Some(
                i.0,
            ),
            _ => false,
        },
    }
}

/// Whether a type of values is the one that was read.
pub open spec fn is_val(raw: RawVal, ty: WasmValType) -> bool {
    match ty {
        WasmValType::I32 => raw is I32,
        WasmValType::I64 => raw is I64,
        WasmValType::F32 => raw is F32,
        WasmValType::F64 => raw is F64,
        WasmValType::V128 => raw is V128,
        WasmValType::Ref(r) => raw matches RawVal::Ref(nullable, heap) && nullable == r.nullable
            && is_heap(heap, r.heap_type),
    }
}

/// Whether a function type is the one that was read: the parameters come first, and then the
/// results.
pub open spec fn is_func_type(raw: FuncTypeItem, ty: FuncTypeModel) -> bool {
    &&& ty.params.len() == raw.params
    &&& ty.params.len() + ty.results.len() == raw.types.len()
    &&& forall|i: int|
        0 <= i < ty.params.len() ==> is_val(raw.types[i], #[trigger] ty.params[i])
    &&& forall|i: int|
        0 <= i < ty.results.len() ==> is_val(
            raw.types[ty.params.len() + i],
            #[trigger] ty.results[i],
        )
}

/// Whether a table is the one that was read.
pub open spec fn is_table(raw: RawTable, element: RawVal, table: TableDesc) -> bool {
    &&& table.minimum == raw.minimum
    &&& table.maximum == raw.maximum
    &&& is_val(element, WasmValType::Ref(table.element_type))
}

/// Whether a memory is the one that was read: pages are of 64 KiB where no other size is given.
pub open spec fn is_memory(raw: RawMemory, memory: MemoryDesc) -> bool {
    &&& memory.minimum == raw.minimum
    &&& memory.maximum == raw.maximum
    &&& memory.shared == raw.shared
    &&& memory.memory64 == raw.memory64
    &&& match raw.page_size_log2 {
        Some(log2) => memory.page_size_log2 == log2,
        None => memory.page_size_log2 == 16,
    }
}

/// Whether a global is the one that was read.
pub open spec fn is_global(raw: RawGlobal, content: RawVal, global: GlobalDesc) -> bool {
    &&& global.mutable == raw.mutable
    &&& global.shared == raw.shared
    &&& is_val(content, global.content_type)
}

/// The kinds of things that a module has.
#[verifier::ext_equal]
pub enum Kind {
    Function,
    Table,
    Memory,
    Global,
    Tag,
}

/// The kind of what is imported.
pub open spec fn kind_of_import(entity: RawEntity) -> Kind {
    match entity {
        RawEntity::Func(_) => Kind::Function,
        RawEntity::Table(_, _) => Kind::Table,
        RawEntity::Memory(_, _, _, _, _) => Kind::Memory,
        RawEntity::Global(_, _) => Kind::Global,
        RawEntity::Tag => Kind::Tag,
    }
}

/// The number of imports of a kind.
pub open spec fn imports_of(imports: Seq<ImportItem>, kind: Kind) -> nat
    decreases imports.len(),
{
    if imports.len() == 0 {
        0
    } else if kind_of_import(imports.last().entity) == kind {
        imports_of(imports.drop_last(), kind) + 1
    } else {
        imports_of(imports.drop_last(), kind)
    }
}

/// Whether an import is the one that was read at a position: its names are the same, it has the
/// next index of its kind, and it is described as what it is.
pub open spec fn import_is(
    imports: Seq<ImportItem>,
    types: Seq<Option<RawVal>>,
    k: int,
    d: Declarations,
) -> bool {
    let raw = imports[k];
    let before = imports.take(k);
    &&& d.imports[k].module == raw.module
    &&& d.imports[k].field == raw.name
    &&& match d.imports[k].index {
        EntityIndex::Function(f) => {
            &&& raw.entity matches RawEntity::Func(ty) && d.functions[f.0 as int].signature == ty
            &&& f.0 == imports_of(before, Kind::Function)
            &&& f.0 < d.num_imported_functions
        },
        EntityIndex::Table(t) => {
            &&& raw.entity matches RawEntity::Table(minimum, maximum) && types[k] matches Some(
                element,
            ) && is_table(RawTable { minimum, maximum }, element, d.tables[t.0 as int])
            &&& t.0 == imports_of(before, Kind::Table)
            &&& t.0 < d.num_imported_tables
        },
        EntityIndex::Memory(i) => {
            &&& raw.entity matches RawEntity::Memory(
                minimum,
                maximum,
                shared,
                memory64,
                page_size_log2,
            ) && is_memory(
                RawMemory { minimum, maximum, shared, memory64, page_size_log2 },
                d.memories[i.0 as int],
            )
            &&& i.0 == imports_of(before, Kind::Memory)
            &&& i.0 < d.num_imported_memories
        },
        EntityIndex::Global(g) => {
            &&& raw.entity matches RawEntity::Global(mutable, shared) && types[k] matches Some(
                content,
            ) && is_global(RawGlobal { mutable, shared }, content, d.globals[g.0 as int])
            &&& g.0 == imports_of(before, Kind::Global)
            &&& g.0 < d.num_imported_globals
        },
        EntityIndex::Tag(_) => false,
    }
}

/// Whether what is exported has the kind and the index that were read.
pub open spec fn denotes(raw: RawExternal, index: EntityIndex) -> bool {
    match index {
        EntityIndex::Function(f) => raw == RawExternal::Func(f.0),
        EntityIndex::Table(t) => raw == RawExternal::Table(t.0),
        EntityIndex::Memory(i) => raw == RawExternal::Memory(i.0),
        EntityIndex::Global(g) => raw == RawExternal::Global(g.0),
        EntityIndex::Tag(_) => false,
    }
}

/// Whether a module has something.
pub open spec fn has_entity(d: Declarations, index: EntityIndex) -> bool {
    match index {
        EntityIndex::Function(f) => f.0 < d.functions.len(),
        EntityIndex::Table(t) => t.0 < d.tables.len(),
        EntityIndex::Memory(i) => i.0 < d.memories.len(),
        EntityIndex::Global(g) => g.0 < d.globals.len(),
        EntityIndex::Tag(_) => false,
    }
}

/// Whether no later export has the name of one.
pub open spec fn is_last(exports: Seq<ExportItem>, i: int) -> bool {
    forall|j: int| i < j < exports.len() ==> (#[trigger] exports[j]).name != exports[i].name
}

/// Whether the module exports a name as what was read: with the same kind and the same index, which
/// the module has.
pub open spec fn is_export(raw: ExportItem, d: Declarations) -> bool {
    exists|index: EntityIndex| #[trigger]
        exports_as(d.exports, raw.name, index) && denotes(raw.external, index) && has_entity(
            d,
            index,
        )
}

/// Whether a name is among those that were read.
pub open spec fn is_named(exports: Seq<ExportItem>, name: Seq<char>) -> bool {
    exists|i: int| 0 <= i < exports.len() && (#[trigger] exports[i]).name == name
}

/// Whether the exports of a module are those that were read: each name has the kind and the index
/// of its last export, and no other name is exported.
pub open spec fn exports_are(exports: Seq<ExportItem>, d: Declarations) -> bool {
    &&& forall|i: int|
        0 <= i < exports.len() && is_last(exports, i) ==> is_export(#[trigger] exports[i], d)
    &&& names_differ(d.exports)
    &&& forall|k: int|
        0 <= k < d.exports.len() ==> is_named(exports, (#[trigger] d.exports[k]).0)
}

/// Whether a data segment is the one that was read.
pub open spec fn is_data(raw: ParsedDataItem, data: DataModel) -> bool {
    &&& data.data == raw.data
    &&& match data.memory {
        Some((memory, offset)) => raw.memory == Some((memory.0, Some(offset))),
        None => raw.memory is None,
    }
}

/// Whether an element segment is the one that was read. A table that is not named is the first one.
pub open spec fn is_segment(
    raw: ParsedSegmentItem,
    items: ParsedItemsItem,
    segment: ElementModel,
) -> bool {
    &&& match segment.kind {
        KindModel::Passive => raw is Passive,
        KindModel::Declared => raw is Declared,
        KindModel::Active(table, offset) => raw matches ParsedSegmentItem::Active(named, at)
            && at == Some(offset) && table.0 == match named {
            Some(i) => i,
            None => 0,
        },
    }
    &&& match segment.elements {
        ElementsModel::Functions(funcs) => items matches ParsedItemsItem::Functions(raw)
            && raw.len() == funcs.len() && forall|i: int|
            0 <= i < funcs.len() ==> (#[trigger] funcs[i]).0 == raw[i],
        ElementsModel::Expressions(exprs) => items matches ParsedItemsItem::Expressions(raw)
            && raw.len() == exprs.len() && forall|i: int|
            0 <= i < exprs.len() ==> raw[i] == Some(#[trigger] exprs[i]),
    }
}

/// The name of a module: the last one that was read.
pub open spec fn last_name(names: Seq<NamePart>) -> Option<Seq<char>>
    decreases names.len(),
{
    if names.len() == 0 {
        None
    } else {
        match names.last() {
            NamePart::Module(name) => Some(name),
            _ => last_name(names.drop_last()),
        }
    }
}

/// Function types that were read.
proof fn lemma_types(list: Seq<FuncTypeItem>)
    ensures
        folded(
            nothing(),
            list,
            |d: Declarations, t: FuncTypeItem| type_declared(d, t),
        ) matches Some(d) ==> {
            &&& d == (Declarations { func_types: d.func_types, types: d.types, ..nothing() })
            &&& d.func_types.len() == list.len()
            &&& d.types.len() == list.len()
            &&& forall|i: int|
                0 <= i < list.len() ==> (#[trigger] d.types[i]).0 == i && is_func_type(
                    list[i],
                    d.func_types[i],
                )
        },
    decreases list.len(),
{
    let step = |d: Declarations, t: FuncTypeItem| type_declared(d, t);
    if list.len() > 0 {
        let rest = list.drop_last();
        lemma_types(rest);
        if let Some(before) = folded(nothing(), rest, step) {
            if let Some(d) = type_declared(before, list.last()) {
                assert forall|i: int| 0 <= i < list.len() implies (#[trigger] d.types[i]).0 == i
                    && is_func_type(list[i], d.func_types[i]) by {
                    if i < rest.len() {
                        assert(d.types[i] == before.types[i]);
                        assert(is_func_type(rest[i], before.func_types[i]));
                    } else {
                        lemma_func_type(list[i], d.func_types[i]);
                    }
                }
            }
        }
    }
}

/// A function type that was read.
proof fn lemma_func_type(raw: FuncTypeItem, ty: FuncTypeModel)
    requires
        crate::module_translator::func_type_of(raw) == Some(ty),
    ensures
        is_func_type(raw, ty),
{
    let k = raw.params as int;
    let first = raw.types.subrange(0, k);
    let second = raw.types.subrange(k, raw.types.len() as int);
    assert forall|i: int| 0 <= i < ty.params.len() implies is_val(
        raw.types[i],
        #[trigger] ty.params[i],
    ) by {
        lemma_val(first[i]);
    }
    assert forall|i: int| 0 <= i < ty.results.len() implies is_val(
        raw.types[k + i],
        #[trigger] ty.results[i],
    ) by {
        lemma_val(second[i]);
    }
}

/// A type of values that was read.
proof fn lemma_val(raw: RawVal)
    ensures
        crate::module_translator::val_type_of(raw) matches Some(ty) ==> is_val(raw, ty),
{
}

/// Functions that were read.
proof fn lemma_functions(start: Declarations, list: Seq<u32>)
    ensures
        folded(start, list, |d: Declarations, x: u32| function_declared(d, x)) matches Some(d) ==> {
            &&& d == (Declarations { functions: d.functions, ..start })
            &&& d.functions.len() == start.functions.len() + list.len()
            &&& forall|i: int|
                0 <= i < start.functions.len() ==> #[trigger] d.functions[i] == start.functions[i]
            &&& forall|i: int|
                0 <= i < list.len() ==> #[trigger] list[i] < start.types.len() && d.functions[start.functions.len() + i].signature == list[i] && !d.functions[start.functions.len() + i].spec_is_escaping()
        },
    decreases list.len(),
{
    let step = |d: Declarations, x: u32| function_declared(d, x);
    if list.len() > 0 {
        let rest = list.drop_last();
        lemma_functions(start, rest);
        if let Some(before) = folded(start, rest, step) {
            if let Some(d) = step(before, list.last()) {
                let n = start.functions.len() as int;
                assert forall|i: int| 0 <= i < list.len() implies #[trigger] list[i] < start.types.len() && d.functions[start.functions.len() + i].signature == list[i] && !d.functions[start.functions.len() + i].spec_is_escaping() by {
                    if i < rest.len() {
                        assert(list[i] == rest[i]);
                        assert(d.functions[n + i] == before.functions[n + i]);
                        assert(rest[i] < start.types.len() && before.functions[start.functions.len() + i].signature == rest[i] && !before.functions[start.functions.len() + i].spec_is_escaping());
                    } else {
                        assert(d.functions[n + i] == d.functions.last());
                    }
                }
            }
        }
    }
}

/// Tables that were read.
proof fn lemma_tables(start: Declarations, list: Seq<(RawTable, RawVal)>)
    ensures
        folded(start, list, |d: Declarations, x: (RawTable, RawVal)| table_declared(d, x)) matches Some(d) ==> {
            &&& d == (Declarations { tables: d.tables, ..start })
            &&& d.tables.len() == start.tables.len() + list.len()
            &&& forall|i: int|
                0 <= i < start.tables.len() ==> #[trigger] d.tables[i] == start.tables[i]
            &&& forall|i: int|
                0 <= i < list.len() ==> is_table((#[trigger] list[i]).0, list[i].1, d.tables[start.tables.len() + i])
        },
    decreases list.len(),
{
    let step = |d: Declarations, x: (RawTable, RawVal)| table_declared(d, x);
    if list.len() > 0 {
        let rest = list.drop_last();
        lemma_tables(start, rest);
        if let Some(before) = folded(start, rest, step) {
            if let Some(d) = step(before, list.last()) {
                let n = start.tables.len() as int;
                assert forall|i: int| 0 <= i < list.len() implies is_table((#[trigger] list[i]).0, list[i].1, d.tables[start.tables.len() + i]) by {
                    if i < rest.len() {
                        assert(list[i] == rest[i]);
                        assert(d.tables[n + i] == before.tables[n + i]);
                        assert(is_table((rest[i]).0, rest[i].1, before.tables[start.tables.len() + i]));
                    } else {
                        assert(d.tables[n + i] == d.tables.last());
                    }
                }
            }
        }
    }
}

/// Memories that were read.
proof fn lemma_memories(start: Declarations, list: Seq<RawMemory>)
    ensures
        folded(start, list, |d: Declarations, x: RawMemory| memory_declared(d, x)) matches Some(d) ==> {
            &&& d == (Declarations { memories: d.memories, ..start })
            &&& d.memories.len() == start.memories.len() + list.len()
            &&& forall|i: int|
                0 <= i < start.memories.len() ==> #[trigger] d.memories[i] == start.memories[i]
            &&& forall|i: int|
                0 <= i < list.len() ==> is_memory(#[trigger] list[i], d.memories[start.memories.len() + i])
        },
    decreases list.len(),
{
    let step = |d: Declarations, x: RawMemory| memory_declared(d, x);
    if list.len() > 0 {
        let rest = list.drop_last();
        lemma_memories(start, rest);
        if let Some(before) = folded(start, rest, step) {
            if let Some(d) = step(before, list.last()) {
                let n = start.memories.len() as int;
                assert forall|i: int| 0 <= i < list.len() implies is_memory(#[trigger] list[i], d.memories[start.memories.len() + i]) by {
                    if i < rest.len() {
                        assert(list[i] == rest[i]);
                        assert(d.memories[n + i] == before.memories[n + i]);
                        assert(is_memory(rest[i], before.memories[start.memories.len() + i]));
                    } else {
                        assert(d.memories[n + i] == d.memories.last());
                    }
                }
            }
        }
    }
}

/// Globals that were read.
proof fn lemma_globals(start: Declarations, list: Seq<(RawGlobal, RawVal)>)
    ensures
        folded(start, list, |d: Declarations, x: (RawGlobal, RawVal)| global_declared(d, x)) matches Some(d) ==> {
            &&& d == (Declarations { globals: d.globals, ..start })
            &&& d.globals.len() == start.globals.len() + list.len()
            &&& forall|i: int|
                0 <= i < start.globals.len() ==> #[trigger] d.globals[i] == start.globals[i]
            &&& forall|i: int|
                0 <= i < list.len() ==> is_global((#[trigger] list[i]).0, list[i].1, d.globals[start.globals.len() + i])
        },
    decreases list.len(),
{
    let step = |d: Declarations, x: (RawGlobal, RawVal)| global_declared(d, x);
    if list.len() > 0 {
        let rest = list.drop_last();
        lemma_globals(start, rest);
        if let Some(before) = folded(start, rest, step) {
            if let Some(d) = step(before, list.last()) {
                let n = start.globals.len() as int;
                assert forall|i: int| 0 <= i < list.len() implies is_global((#[trigger] list[i]).0, list[i].1, d.globals[start.globals.len() + i]) by {
                    if i < rest.len() {
                        assert(list[i] == rest[i]);
                        assert(d.globals[n + i] == before.globals[n + i]);
                        assert(is_global((rest[i]).0, rest[i].1, before.globals[start.globals.len() + i]));
                    } else {
                        assert(d.globals[n + i] == d.globals.last());
                    }
                }
            }
        }
    }
}

/// First values of globals that were read.
proof fn lemma_global_inits(start: Declarations, list: Seq<Option<Seq<ConstOp>>>)
    ensures
        folded(start, list, |d: Declarations, x: Option<Seq<ConstOp>>| global_init_declared(d, x)) matches Some(d) ==> {
            &&& d == (Declarations { global_initializers: d.global_initializers, ..start })
            &&& d.global_initializers.len() == start.global_initializers.len() + list.len()
            &&& forall|i: int|
                0 <= i < start.global_initializers.len() ==> #[trigger] d.global_initializers[i] == start.global_initializers[i]
            &&& forall|i: int|
                0 <= i < list.len() ==> #[trigger] list[i] == Some(d.global_initializers[start.global_initializers.len() + i])
        },
    decreases list.len(),
{
    let step = |d: Declarations, x: Option<Seq<ConstOp>>| global_init_declared(d, x);
    if list.len() > 0 {
        let rest = list.drop_last();
        lemma_global_inits(start, rest);
        if let Some(before) = folded(start, rest, step) {
            if let Some(d) = step(before, list.last()) {
                let n = start.global_initializers.len() as int;
                assert forall|i: int| 0 <= i < list.len() implies #[trigger] list[i] == Some(d.global_initializers[start.global_initializers.len() + i]) by {
                    if i < rest.len() {
                        assert(list[i] == rest[i]);
                        assert(d.global_initializers[n + i] == before.global_initializers[n + i]);
                        assert(rest[i] == Some(before.global_initializers[start.global_initializers.len() + i]));
                    } else {
                        assert(d.global_initializers[n + i] == d.global_initializers.last());
                    }
                }
            }
        }
    }
}

/// Data segments that were read.
proof fn lemma_data(start: Declarations, list: Seq<ParsedDataItem>)
    ensures
        folded(start, list, |d: Declarations, x: ParsedDataItem| data_declared(d, x)) matches Some(d) ==> {
            &&& d == (Declarations { data: d.data, ..start })
            &&& d.data.len() == start.data.len() + list.len()
            &&& forall|i: int|
                0 <= i < start.data.len() ==> #[trigger] d.data[i] == start.data[i]
            &&& forall|i: int|
                0 <= i < list.len() ==> is_data(#[trigger] list[i], d.data[start.data.len() + i])
        },
    decreases list.len(),
{
    let step = |d: Declarations, x: ParsedDataItem| data_declared(d, x);
    if list.len() > 0 {
        let rest = list.drop_last();
        lemma_data(start, rest);
        if let Some(before) = folded(start, rest, step) {
            if let Some(d) = step(before, list.last()) {
                let n = start.data.len() as int;
                assert forall|i: int| 0 <= i < list.len() implies is_data(#[trigger] list[i], d.data[start.data.len() + i]) by {
                    if i < rest.len() {
                        assert(list[i] == rest[i]);
                        assert(d.data[n + i] == before.data[n + i]);
                        assert(is_data(rest[i], before.data[start.data.len() + i]));
                    } else {
                        assert(d.data[n + i] == d.data.last());
                    }
                }
            }
        }
    }
}

/// Element segments that were read.
proof fn lemma_elements(start: Declarations, list: Seq<ParsedSegmentItem>, items: Seq<ParsedItemsItem>)
    requires
        start.elements.len() == 0,
    ensures
        folded(start, list, |d: Declarations, x: ParsedSegmentItem| elements_declared(d, items, x)) matches Some(d) ==> {
            &&& d == (Declarations { elements: d.elements, ..start })
            &&& d.elements.len() == start.elements.len() + list.len()
            &&& forall|i: int|
                0 <= i < start.elements.len() ==> #[trigger] d.elements[i] == start.elements[i]
            &&& forall|i: int|
                0 <= i < list.len() ==> is_segment(#[trigger] list[i], items[i], d.elements[start.elements.len() + i])
        },
    decreases list.len(),
{
    let step = |d: Declarations, x: ParsedSegmentItem| elements_declared(d, items, x);
    if list.len() > 0 {
        let rest = list.drop_last();
        lemma_elements(start, rest, items);
        if let Some(before) = folded(start, rest, step) {
            if let Some(d) = step(before, list.last()) {
                let n = start.elements.len() as int;
                assert forall|i: int| 0 <= i < list.len() implies is_segment(#[trigger] list[i], items[i], d.elements[start.elements.len() + i]) by {
                    if i < rest.len() {
                        assert(list[i] == rest[i]);
                        assert(d.elements[n + i] == before.elements[n + i]);
                        assert(is_segment(rest[i], items[i], before.elements[start.elements.len() + i]));
                    } else {
                        assert(d.elements[n + i] == d.elements.last());
                        lemma_segment(before, list[i], items[i], d.elements.last());
                    }
                }
            }
        }
    }
}

/// First elements of tables that were read.
proof fn lemma_table_inits(start: Declarations, list: Seq<Option<Option<Seq<ConstOp>>>>)
    ensures
        folded(start, list, |d: Declarations, x: Option<Option<Seq<ConstOp>>>| table_init_declared(d, x)) matches Some(d) ==> {
            &&& d == (Declarations { table_initializers: d.table_initializers, ..start })
            &&& d.table_initializers.len() == start.table_initializers.len() + list.len()
            &&& forall|i: int|
                0 <= i < start.table_initializers.len() ==> #[trigger] d.table_initializers[i] == start.table_initializers[i]
            &&& forall|i: int|
                0 <= i < list.len() ==> #[trigger] list[i] == match d.table_initializers[start.table_initializers.len() + i] { Some(ops) => Some(Some(ops)), None => None, }
        },
    decreases list.len(),
{
    let step = |d: Declarations, x: Option<Option<Seq<ConstOp>>>| table_init_declared(d, x);
    if list.len() > 0 {
        let rest = list.drop_last();
        lemma_table_inits(start, rest);
        if let Some(before) = folded(start, rest, step) {
            if let Some(d) = step(before, list.last()) {
                let n = start.table_initializers.len() as int;
                assert forall|i: int| 0 <= i < list.len() implies #[trigger] list[i] == match d.table_initializers[start.table_initializers.len() + i] { Some(ops) => Some(Some(ops)), None => None, } by {
                    if i < rest.len() {
                        assert(list[i] == rest[i]);
                        assert(d.table_initializers[n + i] == before.table_initializers[n + i]);
                        assert(rest[i] == match before.table_initializers[start.table_initializers.len() + i] { Some(ops) => Some(Some(ops)), None => None, });
                    } else {
                        assert(d.table_initializers[n + i] == d.table_initializers.last());
                    }
                }
            }
        }
    }
}

/// Bodies of functions that were read.
proof fn lemma_bodies(start: Declarations, list: Seq<(usize, Seq<u8>)>)
    ensures
        folded(start, list, |d: Declarations, x: (usize, Seq<u8>)| body_declared(d, x)) matches Some(d) ==> {
            &&& d == (Declarations { bodies: d.bodies, ..start })
            &&& d.bodies.len() == start.bodies.len() + list.len()
            &&& forall|i: int|
                0 <= i < start.bodies.len() ==> #[trigger] d.bodies[i] == start.bodies[i]
            &&& forall|i: int|
                0 <= i < list.len() ==> #[trigger] list[i] == d.bodies[start.bodies.len() + i]
        },
    decreases list.len(),
{
    let step = |d: Declarations, x: (usize, Seq<u8>)| body_declared(d, x);
    if list.len() > 0 {
        let rest = list.drop_last();
        lemma_bodies(start, rest);
        if let Some(before) = folded(start, rest, step) {
            if let Some(d) = step(before, list.last()) {
                let n = start.bodies.len() as int;
                assert forall|i: int| 0 <= i < list.len() implies #[trigger] list[i] == d.bodies[start.bodies.len() + i] by {
                    if i < rest.len() {
                        assert(list[i] == rest[i]);
                        assert(d.bodies[n + i] == before.bodies[n + i]);
                        assert(rest[i] == before.bodies[start.bodies.len() + i]);
                    } else {
                        assert(d.bodies[n + i] == d.bodies.last());
                    }
                }
            }
        }
    }
}

/// An element segment that was read.
proof fn lemma_segment(
    d: Declarations,
    raw: ParsedSegmentItem,
    items: ParsedItemsItem,
    segment: ElementModel,
)
    requires
        crate::module_translator::kind_of(d, raw) == Some(segment.kind),
        crate::module_translator::elements_of(d, items) == Some(segment.elements),
    ensures
        is_segment(raw, items, segment),
{
}

/// Imports that were read.
#[verifier::spinoff_prover]
#[verifier::rlimit(60)]
proof fn lemma_imports(start: Declarations, list: Seq<ImportItem>, types: Seq<Option<RawVal>>)
    requires
        start.imports.len() == 0,
        start.functions.len() == start.num_imported_functions == 0,
        start.tables.len() == start.num_imported_tables == 0,
        start.memories.len() == start.num_imported_memories == 0,
        start.globals.len() == start.num_imported_globals == 0,
    ensures
        folded(
            start,
            list,
            |d: Declarations, i: ImportItem| import_declared(d, types, i),
        ) matches Some(d) ==> {
            &&& d == (Declarations {
                functions: d.functions,
                tables: d.tables,
                memories: d.memories,
                globals: d.globals,
                imports: d.imports,
                num_imported_functions: d.num_imported_functions,
                num_imported_tables: d.num_imported_tables,
                num_imported_memories: d.num_imported_memories,
                num_imported_globals: d.num_imported_globals,
                ..start
            })
            &&& imports_counted(list, d)
            &&& forall|i: int|
                0 <= i < d.functions.len() ==> !(#[trigger] d.functions[i]).spec_is_escaping()
            &&& d.imports.len() == list.len()
            &&& forall|k: int| 0 <= k < list.len() ==> #[trigger] import_is(list, types, k, d)
        },
    decreases list.len(),
{
    let step = |d: Declarations, i: ImportItem| import_declared(d, types, i);
    if list.len() > 0 {
        let rest = list.drop_last();
        lemma_imports(start, rest, types);
        if let Some(before) = folded(start, rest, step) {
            if let Some(d) = import_declared(before, types, list.last()) {
                let n = rest.len() as int;
                assert(list.take(n) =~= rest);
                assert forall|k: int| 0 <= k < list.len() implies #[trigger] import_is(
                    list,
                    types,
                    k,
                    d,
                ) by {
                    if k < n {
                        assert(import_is(rest, types, k, before));
                        assert(rest.take(k) =~= list.take(k));
                        assert(rest[k] == list[k]);
                        assert(d.imports[k] == before.imports[k]);
                    } else {
                        assert(d.imports[k] == d.imports.last());
                    }
                }
            }
        }
    }
}

/// Whether the index spaces of a module hold its imports and nothing else.
pub open spec fn imports_counted(list: Seq<ImportItem>, d: Declarations) -> bool {
    &&& d.functions.len() == d.num_imported_functions == imports_of(list, Kind::Function)
    &&& d.tables.len() == d.num_imported_tables == imports_of(list, Kind::Table)
    &&& d.memories.len() == d.num_imported_memories == imports_of(list, Kind::Memory)
    &&& d.globals.len() == d.num_imported_globals == imports_of(list, Kind::Global)
}

/// One more export that was read.
#[verifier::spinoff_prover]
proof fn lemma_export(before: Declarations, list: Seq<ExportItem>, d: Declarations)
    requires
        list.len() > 0,
        exports_are(list.drop_last(), before),
        export_declared(before, list.last()) == Some(d),
    ensures
        d == (Declarations { exports: d.exports, ..before }),
        exports_are(list, d),
{
    let rest = list.drop_last();
    let item = list.last();
    let index = crate::module_translator::entity_of(before, item.external)->0;
    last_export_counts(before.exports, item.name, index);
    assert(is_export(item, d)) by {
        assert(denotes(item.external, index));
        assert(has_entity(d, index));
        assert(exports_as(d.exports, item.name, index));
    }
    assert forall|i: int| 0 <= i < list.len() && is_last(list, i) implies is_export(
        #[trigger] list[i],
        d,
    ) by {
        if i < rest.len() {
            lemma_earlier_export(before, list, d, i, index);
        }
    }
    assert forall|k: int| 0 <= k < d.exports.len() implies is_named(
        list,
        (#[trigger] d.exports[k]).0,
    ) by {
        if d.exports[k].0 == item.name {
            assert(list[list.len() - 1].name == d.exports[k].0);
        } else {
            assert(before.exports[k].0 == d.exports[k].0);
            assert(is_named(rest, before.exports[k].0));
            let i = choose|i: int|
                0 <= i < rest.len() && (#[trigger] rest[i]).name == before.exports[k].0;
            assert(list[i].name == d.exports[k].0);
        }
    }
}

/// An export of another name stays.
proof fn lemma_earlier_export(
    before: Declarations,
    list: Seq<ExportItem>,
    d: Declarations,
    i: int,
    index: EntityIndex,
)
    requires
        0 <= i < list.len() - 1,
        is_last(list, i),
        exports_are(list.drop_last(), before),
        d == (Declarations {
            exports: exported(before.exports, list.last().name, index),
            ..before
        }),
    ensures
        is_export(list[i], d),
{
    let rest = list.drop_last();
    assert(list[list.len() - 1].name != list[i].name);
    assert(is_last(rest, i)) by {
        assert forall|j: int| i < j < rest.len() implies (#[trigger] rest[j]).name
            != rest[i].name by {
            assert(list[j].name != list[i].name);
        }
    }
    assert(is_export(rest[i], before));
    let other = choose|other: EntityIndex| #[trigger]
        exports_as(before.exports, rest[i].name, other) && denotes(rest[i].external, other)
            && has_entity(before, other);
    last_export_counts(before.exports, list.last().name, index);
    assert(exports_as(d.exports, list[i].name, other));
}

/// Exports that were read.
proof fn lemma_exports(start: Declarations, list: Seq<ExportItem>)
    requires
        start.exports.len() == 0,
    ensures
        folded(
            start,
            list,
            |d: Declarations, e: ExportItem| export_declared(d, e),
        ) matches Some(d) ==> {
            &&& d == (Declarations { exports: d.exports, ..start })
            &&& exports_are(list, d)
        },
    decreases list.len(),
{
    let step = |d: Declarations, e: ExportItem| export_declared(d, e);
    if list.len() > 0 {
        let rest = list.drop_last();
        lemma_exports(start, rest);
        if let Some(before) = folded(start, rest, step) {
            if let Some(d) = export_declared(before, list.last()) {
                lemma_export(before, list, d);
            }
        }
    }
}

/// The start function that was read.
proof fn lemma_start(start: Declarations, list: Seq<u32>)
    ensures
        folded(start, list, |d: Declarations, f: u32| start_declared(d, f)) matches Some(d) ==> {
            &&& d == (Declarations { start: d.start, ..start })
            &&& list.len() == 0 ==> d.start == start.start
            &&& list.len() > 0 ==> d.start == Some(FuncIndex(list.last())) && list.last()
                < start.functions.len()
        },
    decreases list.len(),
{
    if list.len() > 0 {
        lemma_start(start, list.drop_last());
    }
}

/// The name that was read.
proof fn lemma_names(start: Declarations, list: Seq<NamePart>)
    requires
        start.name is None,
    ensures
        folded(start, list, |d: Declarations, n: NamePart| name_declared(d, n)) matches Some(d)
            ==> d == (Declarations { name: last_name(list), ..start }),
    decreases list.len(),
{
    if list.len() > 0 {
        lemma_names(start, list.drop_last());
    }
}

/// Whether a translated module is the module that was read.
pub open spec fn is_module(p: ParsedModel, d: Declarations) -> bool {
    &&& d.func_types.len() == d.types.len() == p.types.len()
    &&& forall|i: int|
        0 <= i < p.types.len() ==> (#[trigger] d.types[i]).0 == i && is_func_type(
            p.types[i],
            d.func_types[i],
        )
    &&& d.num_imported_functions == imports_of(p.imports, Kind::Function)
    &&& d.num_imported_tables == imports_of(p.imports, Kind::Table)
    &&& d.num_imported_memories == imports_of(p.imports, Kind::Memory)
    &&& d.num_imported_globals == imports_of(p.imports, Kind::Global)
    &&& d.imports.len() == p.imports.len()
    &&& forall|k: int|
        0 <= k < p.imports.len() ==> #[trigger] import_is(p.imports, p.import_types, k, d)
    &&& d.functions.len() == d.num_imported_functions + p.functions.len()
    &&& forall|i: int|
        0 <= i < p.functions.len() ==> #[trigger] p.functions[i] < d.types.len()
            && d.functions[d.num_imported_functions + i].signature == p.functions[i]
    &&& d.tables.len() == d.num_imported_tables + p.tables.len()
    &&& forall|i: int|
        0 <= i < p.tables.len() ==> is_table(
            (#[trigger] p.tables[i]).0,
            p.tables[i].1,
            d.tables[d.num_imported_tables + i],
        )
    &&& d.memories.len() == d.num_imported_memories + p.memories.len()
    &&& forall|i: int|
        0 <= i < p.memories.len() ==> is_memory(
            #[trigger] p.memories[i],
            d.memories[d.num_imported_memories + i],
        )
    &&& d.globals.len() == d.num_imported_globals + p.globals.len()
    &&& forall|i: int|
        0 <= i < p.globals.len() ==> is_global(
            (#[trigger] p.globals[i]).0,
            p.globals[i].1,
            d.globals[d.num_imported_globals + i],
        )
    &&& exports_are(p.exports, d)
    &&& d.start == if p.start.len() > 0 {
        Some(FuncIndex(p.start.last()))
    } else {
        None
    }
    &&& d.name == last_name(p.names)
    &&& d.global_initializers.len() == p.global_inits.len()
    &&& forall|i: int|
        0 <= i < p.global_inits.len() ==> #[trigger] p.global_inits[i] == Some(
            d.global_initializers[i],
        )
    &&& d.data.len() == p.data.len()
    &&& forall|i: int| 0 <= i < p.data.len() ==> is_data(#[trigger] p.data[i], d.data[i])
    &&& d.elements.len() == p.elements.len()
    &&& forall|i: int|
        0 <= i < p.elements.len() ==> is_segment(
            #[trigger] p.elements[i],
            p.element_items[i],
            d.elements[i],
        )
    &&& d.table_initializers.len() == p.table_inits.len()
    &&& forall|i: int|
        0 <= i < p.table_inits.len() ==> #[trigger] p.table_inits[i]
            == match d.table_initializers[i] {
            Some(ops) => Some(Some(ops)),
            None => None,
        }
    &&& d.bodies == p.bodies
}

/// An import stays described as what it is where declarations are only added.
proof fn lemma_import_kept(
    imports: Seq<ImportItem>,
    types: Seq<Option<RawVal>>,
    k: int,
    before: Declarations,
    d: Declarations,
)
    requires
        import_is(imports, types, k, before),
        imports_counted(imports, before),
        d.imports == before.imports,
        d.num_imported_functions == before.num_imported_functions,
        d.num_imported_tables == before.num_imported_tables,
        d.num_imported_memories == before.num_imported_memories,
        d.num_imported_globals == before.num_imported_globals,
        forall|i: int|
            0 <= i < before.functions.len() ==> (#[trigger] d.functions[i]).signature
                == before.functions[i].signature,
        forall|i: int|
            0 <= i < before.tables.len() ==> #[trigger] d.tables[i] == before.tables[i],
        forall|i: int|
            0 <= i < before.memories.len() ==> #[trigger] d.memories[i] == before.memories[i],
        forall|i: int|
            0 <= i < before.globals.len() ==> #[trigger] d.globals[i] == before.globals[i],
    ensures
        import_is(imports, types, k, d),
{
}

/// A translated module is the module that was read: its types, imports, functions, tables, memories,
/// globals, exports, start function, name, segments, first values and bodies are those that were
/// read, in the same order, with imports first.
#[verifier::spinoff_prover]
#[verifier::rlimit(100)]
pub proof fn modules_are_translated_faithfully(p: ParsedModel)
    requires
        translated(p) is Some,
    ensures
        is_module(p, translated(p)->0),
{
    let d_types = after_types(p)->0;
    lemma_types(p.types);
    let d_imports = after_imports(p)->0;
    lemma_imports(d_types, p.imports, p.import_types);
    let d_functions = after_functions(p)->0;
    lemma_functions(d_imports, p.functions);
    let d_tables = after_tables(p)->0;
    lemma_tables(d_functions, p.tables);
    let d_memories = after_memories(p)->0;
    lemma_memories(d_tables, p.memories);
    let d_globals = after_globals(p)->0;
    lemma_globals(d_memories, p.globals);
    let d_exports = after_exports(p)->0;
    lemma_exports(d_globals, p.exports);
    let d_start = after_start(p)->0;
    lemma_start(d_exports, p.start);
    let d_names = after_names(p)->0;
    lemma_names(d_start, p.names);
    let d_inits = after_global_inits(p)->0;
    lemma_global_inits(d_names, p.global_inits);
    let d_data = after_data(p)->0;
    lemma_data(d_inits, p.data);
    let d_elements = after_elements(p)->0;
    lemma_elements(d_data, p.elements, p.element_items);
    let d_table_inits = after_table_inits(p)->0;
    lemma_table_inits(d_elements, p.table_inits);
    let all = after_bodies(p)->0;
    lemma_bodies(d_table_inits, p.bodies);
    assert(all.bodies =~= p.bodies);
    let d = translated(p)->0;
    assert forall|i: int| 0 <= i < all.functions.len() implies !(
    #[trigger] all.functions[i]).spec_is_escaping() by {
        if i < d_imports.functions.len() {
            assert(all.functions[i] == d_imports.functions[i]);
        } else {
            let k = i - d_imports.functions.len();
            assert(p.functions[k] < d_imports.types.len());
        }
    }
    assert(slots_are_distinct(all));
    referenced_functions_escape(all, roots(all), roots(all).len() as int);
    assert forall|k: int| 0 <= k < p.imports.len() implies #[trigger] import_is(
        p.imports,
        p.import_types,
        k,
        d,
    ) by {
        assert(import_is(p.imports, p.import_types, k, d_imports));
        lemma_import_kept(p.imports, p.import_types, k, d_imports, d);
    }
    assert forall|i: int| 0 <= i < p.exports.len() && is_last(p.exports, i) implies is_export(
        #[trigger] p.exports[i],
        d,
    ) by {
        assert(is_export(p.exports[i], d_exports));
        let index = choose|index: EntityIndex| #[trigger]
            exports_as(d_exports.exports, p.exports[i].name, index) && denotes(
                p.exports[i].external,
                index,
            ) && has_entity(d_exports, index);
        assert(exports_as(d.exports, p.exports[i].name, index));
    }
}

} // verus!
