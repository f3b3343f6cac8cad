//! What a module gives its tables and memories when it is instantiated.
use crate::indices::{FuncIndex, MemoryIndex, TableIndex};
use crate::module_env::{
    DataModel, ElementModel, ElementsModel, KindModel, ModuleTranslation, SegmentKind,
    TableSegmentElements,
};
use crate::runtime::const_eval::ConstOp;
use crate::runtime::instance::{MemoryInitializer, TableInitialValue, TableSegment};
use vstd::prelude::*;

verus! {

/// A copy of operators.
fn copied(ops: &Vec<ConstOp>) -> (r: Vec<ConstOp>)
    ensures
        r@ == ops@,
{
    let mut out: Vec<ConstOp> = Vec::new();
    for i in 0..ops.len()
        invariant
            out@ == ops@.take(i as int),
    {
        out.push(ops[i]);
        assert(out@ =~= ops@.take(i + 1));
    }
    assert(ops@.take(ops@.len() as int) =~= ops@);
    out
}

/// A copy of bytes.
fn copied_bytes(bytes: &Vec<u8>) -> (r: Vec<u8>)
    ensures
        r@ == bytes@,
{
    let mut out: Vec<u8> = Vec::new();
    for i in 0..bytes.len()
        invariant
            out@ == bytes@.take(i as int),
    {
        out.push(bytes[i]);
        assert(out@ =~= bytes@.take(i + 1));
    }
    assert(bytes@.take(bytes@.len() as int) =~= bytes@);
    out
}

impl View for MemoryInitializer {
    type V = (MemoryIndex, Seq<ConstOp>, Seq<u8>);

    open spec fn view(&self) -> (MemoryIndex, Seq<ConstOp>, Seq<u8>) {
        (self.memory_index, self.offset@, self.data@)
    }
}

impl View for TableSegment {
    type V = (TableIndex, Seq<ConstOp>, Seq<Seq<ConstOp>>);

    open spec fn view(&self) -> (TableIndex, Seq<ConstOp>, Seq<Seq<ConstOp>>) {
        (self.table_index, self.offset@, crate::parse::items(self.elements@))
    }
}

impl View for TableInitialValue {
    type V = Option<Seq<ConstOp>>;

    open spec fn view(&self) -> Option<Seq<ConstOp>> {
        match self {
            TableInitialValue::RefNull => None,
            TableInitialValue::ConstExpr(ops) => Some(ops@),
        }
    }
}

/// The data segments that are copied to memories, in order.
pub open spec fn active_data(data: Seq<DataModel>) -> Seq<(MemoryIndex, Seq<ConstOp>, Seq<u8>)>
    decreases data.len(),
{
    if data.len() == 0 {
        Seq::empty()
    } else {
        let before = active_data(data.drop_last());
        match data.last().memory {
            Some((memory, offset)) => before.push((memory, offset, data.last().data)),
            None => before,
        }
    }
}

/// The positions of the data segments that are copied to memories.
pub open spec fn active_data_indices(data: Seq<DataModel>) -> Seq<u32>
    decreases data.len(),
{
    if data.len() == 0 {
        Seq::empty()
    } else {
        let before = active_data_indices(data.drop_last());
        if data.last().memory is Some {
            before.push((data.len() - 1) as u32)
        } else {
            before
        }
    }
}

/// The data segments that are copied to memories, and their positions.
pub fn memory_initializers(t: &ModuleTranslation) -> (r: (Vec<MemoryInitializer>, Vec<u32>))
    ensures
        crate::parse::items(r.0@) == active_data(t@.data),
        r.1@ == active_data_indices(t@.data),
{
    let ghost all = t@.data;
    let mut list: Vec<MemoryInitializer> = Vec::new();
    let mut indices: Vec<u32> = Vec::new();
    assert(all.take(0) =~= Seq::empty());
    assert(crate::parse::items(list@) =~= active_data(all.take(0)));
    for i in 0..t.data.len()
        invariant
            all == t@.data,
            crate::parse::items(list@) == active_data(all.take(i as int)),
            indices@ == active_data_indices(all.take(i as int)),
    {
        assert(all[i as int] == t.data@[i as int]@);
        assert(all.take(i + 1).drop_last() =~= all.take(i as int));
        if let Some((memory, offset)) = &t.data[i].memory {
            let ghost before = crate::parse::items(list@);
            let init = MemoryInitializer {
                memory_index: *memory,
                offset: copied(offset),
                data: copied_bytes(&t.data[i].data),
            };
            list.push(init);
            indices.push(i as u32);
            assert(crate::parse::items(list@) =~= before.push(init@));
        }
    }
    assert(all.take(all.len() as int) =~= all);
    (list, indices)
}

/// The elements of a segment as expressions: a function is a reference to it.
pub open spec fn as_expressions(elements: ElementsModel) -> Seq<Seq<ConstOp>> {
    match elements {
        ElementsModel::Functions(funcs) => funcs.map_values(
            |f: FuncIndex| seq![ConstOp::RefFunc(f)],
        ),
        ElementsModel::Expressions(exprs) => exprs,
    }
}

/// The element segments that are copied to tables, in order.
pub open spec fn active_elements(elements: Seq<ElementModel>) -> Seq<
    (TableIndex, Seq<ConstOp>, Seq<Seq<ConstOp>>),
>
    decreases elements.len(),
{
    if elements.len() == 0 {
        Seq::empty()
    } else {
        let before = active_elements(elements.drop_last());
        match elements.last().kind {
            KindModel::Active(table, offset) => before.push(
                (table, offset, as_expressions(elements.last().elements)),
            ),
            _ => before,
        }
    }
}

/// The positions of the element segments that are copied to tables.
pub open spec fn active_element_indices(elements: Seq<ElementModel>) -> Seq<u32>
    decreases elements.len(),
{
    if elements.len() == 0 {
        Seq::empty()
    } else {
        let before = active_element_indices(elements.drop_last());
        if elements.last().kind is Active {
            before.push((elements.len() - 1) as u32)
        } else {
            before
        }
    }
}

/// The elements of a segment as expressions.
fn expressions(elements: &TableSegmentElements, Ghost(model): Ghost<ElementsModel>) -> (r: Vec<
    Vec<ConstOp>,
>)
    requires
        model == (match *elements {
            TableSegmentElements::Functions(funcs) => ElementsModel::Functions(funcs@),
            TableSegmentElements::Expressions(exprs) => ElementsModel::Expressions(
                crate::parse::items(exprs@),
            ),
        }),
    ensures
        crate::parse::items(r@) == as_expressions(model),
{
    let mut out: Vec<Vec<ConstOp>> = Vec::new();
    match elements {
        TableSegmentElements::Functions(funcs) => {
            for i in 0..funcs.len()
                invariant
                    model == ElementsModel::Functions(funcs@),
                    out@.len() == i,
                    forall|k: int|
                        0 <= k < i ==> (#[trigger] out@[k])@ == seq![ConstOp::RefFunc(funcs@[k])],
            {
                let ops: Vec<ConstOp> = vec![ConstOp::RefFunc(funcs[i])];
                assert(ops@ =~= seq![ConstOp::RefFunc(funcs@[i as int])]);
                out.push(ops);
            }
        },
        TableSegmentElements::Expressions(exprs) => {
            for i in 0..exprs.len()
                invariant
                    model == ElementsModel::Expressions(crate::parse::items(exprs@)),
                    out@.len() == i,
                    forall|k: int| 0 <= k < i ==> (#[trigger] out@[k])@ == exprs@[k]@,
            {
                out.push(copied(&exprs[i]));
            }
        },
    }
    assert(crate::parse::items(out@) =~= as_expressions(model));
    out
}

/// The element segments that are copied to tables, and their positions.
pub fn table_segments(t: &ModuleTranslation) -> (r: (Vec<TableSegment>, Vec<u32>))
    ensures
        crate::parse::items(r.0@) == active_elements(t@.elements),
        r.1@ == active_element_indices(t@.elements),
{
    let ghost all = t@.elements;
    let mut list: Vec<TableSegment> = Vec::new();
    let mut indices: Vec<u32> = Vec::new();
    assert(all.take(0) =~= Seq::empty());
    assert(crate::parse::items(list@) =~= active_elements(all.take(0)));
    for i in 0..t.elements.len()
        invariant
            all == t@.elements,
            crate::parse::items(list@) == active_elements(all.take(i as int)),
            indices@ == active_element_indices(all.take(i as int)),
    {
        assert(all[i as int] == t.elements@[i as int]@);
        assert(all.take(i + 1).drop_last() =~= all.take(i as int));
        match &t.elements[i].kind {
            SegmentKind::Passive => {},
            SegmentKind::Declared => {},
            SegmentKind::Active(table, offset) => {
                let ghost before = crate::parse::items(list@);
                let elements = expressions(
                    &t.elements[i].elements,
                    Ghost(all[i as int].elements),
                );
                let segment = TableSegment {
                    table_index: *table,
                    offset: copied(offset),
                    elements,
                };
                list.push(segment);
                indices.push(i as u32);
                assert(crate::parse::items(list@) =~= before.push(segment@));
            },
        }
    }
    assert(all.take(all.len() as int) =~= all);
    (list, indices)
}

/// What the elements of the tables start with that the module defines.
pub fn table_initial_values(t: &ModuleTranslation) -> (r: Vec<TableInitialValue>)
    ensures
        crate::parse::items(r@) == t@.table_initializers,
{
    let mut list: Vec<TableInitialValue> = Vec::new();
    for i in 0..t.table_initializers.len()
        invariant
            list@.len() == i,
            forall|k: int| 0 <= k < i ==> (#[trigger] list@[k])@ == t.table_initializers@[k]@,
    {
        list.push(
            match &t.table_initializers[i].0 {
                Some(ops) => TableInitialValue::ConstExpr(copied(ops)),
                None => TableInitialValue::RefNull,
            },
        );
    }
    assert(crate::parse::items(list@) =~= t@.table_initializers);
    list
}

/// Every initialiser of a memory is the data segment at its position, and positions go up.
pub proof fn memory_initializers_are_segments(data: Seq<DataModel>, k: int)
    requires
        data.len() <= u32::MAX,
        0 <= k < active_data_indices(data).len(),
    ensures
        active_data(data).len() == active_data_indices(data).len(),
        active_data_indices(data)[k] < data.len(),
        ({
            let segment = data[active_data_indices(data)[k] as int];
            &&& segment.memory is Some
            &&& active_data(data)[k] == (
                (segment.memory->0).0,
                (segment.memory->0).1,
                segment.data,
            )
        }),
        k > 0 ==> active_data_indices(data)[k - 1] < active_data_indices(data)[k],
    decreases data.len(),
{
    lemma_active_data_len(data);
    let before = data.drop_last();
    let indices = active_data_indices(before);
    lemma_active_data_len(before);
    if k < indices.len() {
        memory_initializers_are_segments(before, k);
    } else if k > 0 {
        memory_initializers_are_segments(before, k - 1);
    }
}

/// There are as many initialisers of memories as positions.
proof fn lemma_active_data_len(data: Seq<DataModel>)
    ensures
        active_data(data).len() == active_data_indices(data).len(),
    decreases data.len(),
{
    if data.len() > 0 {
        lemma_active_data_len(data.drop_last());
    }
}

/// Every segment of a table is the element segment at its position, and positions go up.
pub proof fn table_segments_are_segments(elements: Seq<ElementModel>, k: int)
    requires
        elements.len() <= u32::MAX,
        0 <= k < active_element_indices(elements).len(),
    ensures
        active_elements(elements).len() == active_element_indices(elements).len(),
        active_element_indices(elements)[k] < elements.len(),
        ({
            let segment = elements[active_element_indices(elements)[k] as int];
            segment.kind matches KindModel::Active(table, offset) && active_elements(elements)[k]
                == (table, offset, as_expressions(segment.elements))
        }),
        k > 0 ==> active_element_indices(elements)[k - 1] < active_element_indices(elements)[k],
    decreases elements.len(),
{
    lemma_active_elements_len(elements);
    let before = elements.drop_last();
    let indices = active_element_indices(before);
    lemma_active_elements_len(before);
    if k < indices.len() {
        table_segments_are_segments(before, k);
    } else if k > 0 {
        table_segments_are_segments(before, k - 1);
    }
}

/// There are as many segments of tables as positions.
proof fn lemma_active_elements_len(elements: Seq<ElementModel>)
    ensures
        active_elements(elements).len() == active_element_indices(elements).len(),
    decreases elements.len(),
{
    if elements.len() > 0 {
        lemma_active_elements_len(elements.drop_last());
    }
}

} // verus!
