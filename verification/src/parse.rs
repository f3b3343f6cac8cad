//! What the sections of a module hold, as the parser reads them.
//!
//! Everything is read as plain values. Each function goes through the module anew and keeps one
//! kind of section, so that what it gives depends on the bytes of the module alone.
use vstd::prelude::*;
use wasmparser::HeapType::{Abstract, Concrete};
use wasmparser::Payload::{
    CustomSection, DataSection, ElementSection, ExportSection, FunctionSection, GlobalSection,
    ImportSection, MemorySection, StartSection, TableSection, TypeSection,
};
use wasmparser::ValType::{F32, F64, I32, I64, Ref, V128};
use wasmparser::{
    BinaryReaderError, DataKind, ElementItems, ElementKind, ExternalKind, KnownCustom, Name, Parser,
    TableInit, TypeRef, Validator, WasmFeatures,
};

verus! {

/// An error of the parser.
#[verifier::external_type_specification]
#[verifier::external_body]
pub struct ExBinaryReaderError(BinaryReaderError);

/// What a reference refers to: an abstract type, by its position in the parser's list of abstract
/// types and whether it is shared, or a type of the module.
#[derive(Debug, Clone, Copy, PartialEq, Eq, Structural)]
pub enum RawHeap {
    Abstract(bool, u8),
    Concrete(Option<u32>),
}

/// A type of values; references with whether they can be null.
#[derive(Debug, Clone, Copy, PartialEq, Eq, Structural)]
pub enum RawVal {
    I32,
    I64,
    F32,
    F64,
    V128,
    Ref(bool, RawHeap),
}

/// The sizes of a table.
#[derive(Debug, Clone, Copy, PartialEq, Eq, Structural)]
pub struct RawTable {
    pub minimum: u64,
    pub maximum: Option<u64>,
}

/// A memory, with its sizes in pages.
#[derive(Debug, Clone, Copy, PartialEq, Eq, Structural)]
pub struct RawMemory {
    pub minimum: u64,
    pub maximum: Option<u64>,
    pub shared: bool,
    pub memory64: bool,
    pub page_size_log2: Option<u32>,
}

/// How a global can be used.
#[derive(Debug, Clone, Copy, PartialEq, Eq, Structural)]
pub struct RawGlobal {
    pub mutable: bool,
    pub shared: bool,
}

/// What is imported, without the types of values that tables and globals hold: functions with the
/// position of their type; tables with their size and the size that they can grow to; memories with
/// these in pages, whether they are shared and whether they are indexed with 64-bit integers, and the
/// binary logarithm of their page size; and globals with whether they are mutable and shared.
#[derive(Debug, Clone, Copy, PartialEq, Eq, Structural)]
pub enum RawEntity {
    Func(u32),
    Table(u64, Option<u64>),
    Memory(u64, Option<u64>, bool, bool, Option<u32>),
    Global(bool, bool),
    Tag,
}

/// What is exported, by its position among the things of its kind.
#[derive(Debug, Clone, Copy, PartialEq, Eq, Structural)]
pub enum RawExternal {
    Func(u32),
    Table(u32),
    Memory(u32),
    Global(u32),
    Tag(u32),
}

/// A function type: its parameters followed by its results, and the number of parameters.
pub struct RawFuncType(pub Vec<RawVal>, pub usize);

/// An import: the name of the module, the name in the module, and what is imported.
pub struct RawImport(pub String, pub String, pub RawEntity);

/// An export.
pub struct RawExport {
    pub name: String,
    pub external: RawExternal,
}

/// A part of a name section.
pub enum RawName {
    /// The name of the module.
    Module(String),
    /// The names of something else.
    Other,
    /// A part that cannot be read.
    Unreadable,
}

/// A part of a name section, with the name as a sequence of characters.
pub enum NamePart {
    Module(Seq<char>),
    Other,
    Unreadable,
}

impl View for RawName {
    type V = NamePart;

    open spec fn view(&self) -> NamePart {
        match self {
            RawName::Module(name) => NamePart::Module(name@),
            RawName::Other => NamePart::Other,
            RawName::Unreadable => NamePart::Unreadable,
        }
    }
}

/// A data segment: the memory and the expression of the offset that it is copied to when the module
/// is instantiated, if it is, and the bytes.
pub struct RawData(pub Option<(u32, Vec<u8>)>, pub Vec<u8>);

/// What becomes of an element segment when the module is instantiated.
pub enum RawSegment {
    Passive,
    Declared,
    /// It is copied to a table, the first one if none is named, at the offset of an expression.
    Active(Option<u32>, Vec<u8>),
}

/// The elements of a segment: functions, or expressions.
pub enum RawItems {
    Functions(Vec<u32>),
    Expressions(Vec<Vec<u8>>),
}

/// A data segment as sequences.
#[verifier::ext_equal]
pub struct DataItem {
    pub memory: Option<(u32, Seq<u8>)>,
    pub data: Seq<u8>,
}

/// What becomes of an element segment, with its expression as a sequence.
pub enum SegmentItem {
    Passive,
    Declared,
    Active(Option<u32>, Seq<u8>),
}

/// The elements of a segment as sequences.
pub enum ItemsItem {
    Functions(Seq<u32>),
    Expressions(Seq<Seq<u8>>),
}

impl View for RawData {
    type V = DataItem;

    open spec fn view(&self) -> DataItem {
        DataItem {
            memory: match self.0 {
                Some((memory, offset)) => Some((memory, offset@)),
                None => None,
            },
            data: self.1@,
        }
    }
}

impl View for RawSegment {
    type V = SegmentItem;

    open spec fn view(&self) -> SegmentItem {
        match self {
            RawSegment::Passive => SegmentItem::Passive,
            RawSegment::Declared => SegmentItem::Declared,
            RawSegment::Active(table, offset) => SegmentItem::Active(*table, offset@),
        }
    }
}

impl View for RawItems {
    type V = ItemsItem;

    open spec fn view(&self) -> ItemsItem {
        match self {
            RawItems::Functions(funcs) => ItemsItem::Functions(funcs@),
            RawItems::Expressions(exprs) => ItemsItem::Expressions(items(exprs@)),
        }
    }
}

/// An expression, if there is one.
pub struct RawInit(pub Option<Vec<u8>>);

impl View for RawInit {
    type V = Option<Seq<u8>>;

    open spec fn view(&self) -> Option<Seq<u8>> {
        match self.0 {
            Some(expr) => Some(expr@),
            None => None,
        }
    }
}

/// A function type as a sequence.
#[verifier::ext_equal]
pub struct FuncTypeItem {
    pub types: Seq<RawVal>,
    pub params: usize,
}

/// An import with its names as sequences of characters.
#[verifier::ext_equal]
pub struct ImportItem {
    pub module: Seq<char>,
    pub name: Seq<char>,
    pub entity: RawEntity,
}

/// An export with its name as a sequence of characters.
#[verifier::ext_equal]
pub struct ExportItem {
    pub name: Seq<char>,
    pub external: RawExternal,
}

impl View for RawFuncType {
    type V = FuncTypeItem;

    open spec fn view(&self) -> FuncTypeItem {
        FuncTypeItem { types: self.0@, params: self.1 }
    }
}

impl View for RawImport {
    type V = ImportItem;

    open spec fn view(&self) -> ImportItem {
        ImportItem { module: self.0@, name: self.1@, entity: self.2 }
    }
}

impl View for RawExport {
    type V = ExportItem;

    open spec fn view(&self) -> ExportItem {
        ExportItem { name: self.name@, external: self.external }
    }
}

/// The items of a list by their views.
pub open spec fn items<T: View>(list: Seq<T>) -> Seq<T::V> {
    list.map_values(|t: T| t@)
}

/// Why the validator refuses a module, and where; nothing for valid modules.
pub uninterp spec fn validation_failure(bytes: Seq<u8>, features: u32) -> Option<(Seq<char>, usize)>;

/// The function types of a module, unless they cannot be read.
pub uninterp spec fn type_section(bytes: Seq<u8>) -> Option<Seq<FuncTypeItem>>;

/// The imports of a module, unless they cannot be read.
pub uninterp spec fn import_section(bytes: Seq<u8>) -> Option<Seq<ImportItem>>;

/// For each import the type of what it holds, elements of a table or the value of a global, unless
/// the imports cannot be read.
pub uninterp spec fn import_types(bytes: Seq<u8>) -> Option<Seq<Option<RawVal>>>;

/// The positions of the types of the functions of a module, unless they cannot be read.
pub uninterp spec fn function_section(bytes: Seq<u8>) -> Option<Seq<u32>>;

/// The tables of a module with the types of their elements, unless they cannot be read.
pub uninterp spec fn table_section(bytes: Seq<u8>) -> Option<Seq<(RawTable, RawVal)>>;

/// The memories of a module, unless they cannot be read.
pub uninterp spec fn memory_section(bytes: Seq<u8>) -> Option<Seq<RawMemory>>;

/// The globals of a module with the types of their values, unless they cannot be read.
pub uninterp spec fn global_section(bytes: Seq<u8>) -> Option<Seq<(RawGlobal, RawVal)>>;

/// The exports of a module, unless they cannot be read.
pub uninterp spec fn export_section(bytes: Seq<u8>) -> Option<Seq<ExportItem>>;

/// The functions that start sections of a module name, unless they cannot be read.
pub uninterp spec fn start_section(bytes: Seq<u8>) -> Option<Seq<u32>>;

/// The parts of the name sections of a module, unless the sections of the module cannot be read.
pub uninterp spec fn name_section(bytes: Seq<u8>) -> Option<Seq<NamePart>>;

/// The expressions of the first values of globals, as bytes, unless they cannot be read.
pub uninterp spec fn global_inits(bytes: Seq<u8>) -> Option<Seq<Seq<u8>>>;

/// The data segments of a module, unless they cannot be read.
pub uninterp spec fn data_section(bytes: Seq<u8>) -> Option<Seq<DataItem>>;

/// What becomes of the element segments of a module, unless they cannot be read.
pub uninterp spec fn element_section(bytes: Seq<u8>) -> Option<Seq<SegmentItem>>;

/// The elements of the element segments of a module, unless they cannot be read.
pub uninterp spec fn element_items(bytes: Seq<u8>) -> Option<Seq<ItemsItem>>;

/// For each table of a module the expression of its first elements, if there is one, unless the
/// tables cannot be read.
pub uninterp spec fn table_inits(bytes: Seq<u8>) -> Option<Seq<Option<Seq<u8>>>>;

/// Calls `wasmparser::Validator::validate_all` of a new validator with the given features, on all of a
/// module, the bodies of its functions among it. Whether it fails, with which message and where,
/// depends on the bytes and the features alone, and is named.
#[verifier::external_body]
pub(crate) fn validate(bytes: &[u8], features: u32) -> (r: Option<(String, usize)>)
    ensures
        (match r {
            Some((message, offset)) => Some((message@, offset)),
            None => None,
        }) == validation_failure(bytes@, features),
{
    let features = WasmFeatures::from_bits_truncate(features);
    match Validator::new_with_features(features).validate_all(bytes) {
        Ok(_) => None,
        Err(e) => Some((e.message().to_string(), e.offset())),
    }
}

/// Calls `wasmparser::TypeSectionReader::into_iter_err_on_gc_types` on the type sections that
/// `wasmparser::Parser::parse_all` gives; what it gives depends on the bytes alone, and is named.
#[verifier::external_body]
pub(crate) fn read_types(bytes: &[u8]) -> (r: Result<Vec<RawFuncType>, BinaryReaderError>)
    ensures
        (match r {
            Ok(list) => Some(items(list@)),
            Err(_) => None,
        }) == type_section(bytes@),
{
    let mut list = vec![];
    for payload in Parser::new(0).parse_all(bytes) {
        let TypeSection(section) = payload? else { continue };
        for ty in section.into_iter_err_on_gc_types() {
            let ty = ty?;
            list.push(RawFuncType(ty.params().iter().chain(ty.results()).map(|t| match t {
                I32 => RawVal::I32, I64 => RawVal::I64, F32 => RawVal::F32, F64 => RawVal::F64,
                V128 => RawVal::V128, Ref(r) => RawVal::Ref(r.is_nullable(), match r.heap_type() {
                    Abstract { shared, ty } => RawHeap::Abstract(shared, ty as u8),
                    Concrete(i) => RawHeap::Concrete(i.as_module_index()),
                }),
            }).collect(), ty.params().len()));
        }
    }
    Ok(list)
}

/// Calls `wasmparser::ImportSectionReader` on the import sections that
/// `wasmparser::Parser::parse_all` gives; what it gives depends on the bytes alone, and is named.
#[verifier::external_body]
pub(crate) fn read_imports(bytes: &[u8]) -> (r: Result<Vec<RawImport>, BinaryReaderError>)
    ensures
        (match r {
            Ok(list) => Some(items(list@)),
            Err(_) => None,
        }) == import_section(bytes@),
{
    let mut list = vec![];
    for payload in Parser::new(0).parse_all(bytes) {
        let ImportSection(section) = payload? else { continue };
        for import in section {
            let wasmparser::Import { module, name, ty } = import?;
            list.push(RawImport(module.to_string(), name.to_string(), match ty {
                TypeRef::Func(i) => RawEntity::Func(i),
                TypeRef::Table(t) => RawEntity::Table(t.initial, t.maximum),
                TypeRef::Memory(m) => RawEntity::Memory(m.initial, m.maximum, m.shared, m.memory64,
                    m.page_size_log2),
                TypeRef::Global(g) => RawEntity::Global(g.mutable, g.shared), TypeRef::Tag(_) => RawEntity::Tag,
            }));
        }
    }
    Ok(list)
}

/// Calls `wasmparser::ImportSectionReader` on the import sections that
/// `wasmparser::Parser::parse_all` gives; what it gives depends on the bytes alone, and is named.
#[verifier::external_body]
pub(crate) fn read_import_types(bytes: &[u8]) -> (r: Result<Vec<Option<RawVal>>, BinaryReaderError>)
    ensures
        (match r {
            Ok(list) => Some(list@),
            Err(_) => None,
        }) == import_types(bytes@),
{
    let mut list = vec![];
    for payload in Parser::new(0).parse_all(bytes) {
        let ImportSection(section) = payload? else { continue };
        for import in section {
            list.push(match import?.ty {
                TypeRef::Table(t) => Some(Ref(t.element_type)),
                TypeRef::Global(g) => Some(g.content_type), _ => None,
            }.map(|ty| match ty {
                I32 => RawVal::I32, I64 => RawVal::I64, F32 => RawVal::F32, F64 => RawVal::F64,
                V128 => RawVal::V128, Ref(r) => RawVal::Ref(r.is_nullable(), match r.heap_type() {
                    Abstract { shared, ty } => RawHeap::Abstract(shared, ty as u8),
                    Concrete(i) => RawHeap::Concrete(i.as_module_index()),
                }) })); }
    }
    Ok(list)
}

/// Calls `wasmparser::FunctionSectionReader` on the function sections that
/// `wasmparser::Parser::parse_all` gives; what it gives depends on the bytes alone, and is named.
#[verifier::external_body]
pub(crate) fn read_functions(bytes: &[u8]) -> (r: Result<Vec<u32>, BinaryReaderError>)
    ensures
        (match r {
            Ok(list) => Some(list@),
            Err(_) => None,
        }) == function_section(bytes@),
{
    let mut list = vec![];
    for payload in Parser::new(0).parse_all(bytes) {
        let FunctionSection(section) = payload? else { continue };
        for ty in section {
            list.push(ty?);
        }
    }
    Ok(list)
}

/// Calls `wasmparser::TableSectionReader` on the table sections that
/// `wasmparser::Parser::parse_all` gives; what it gives depends on the bytes alone, and is named.
#[verifier::external_body]
pub(crate) fn read_tables(bytes: &[u8]) -> (r: Result<Vec<(RawTable, RawVal)>, BinaryReaderError>)
    ensures
        (match r {
            Ok(list) => Some(list@),
            Err(_) => None,
        }) == table_section(bytes@),
{
    let mut list = vec![];
    for payload in Parser::new(0).parse_all(bytes) {
        let TableSection(section) = payload? else { continue };
        for table in section {
            let t = table?.ty;
            let sizes = RawTable { minimum: t.initial, maximum: t.maximum };
            list.push((sizes, RawVal::Ref(t.element_type.is_nullable(), match t.element_type.heap_type() {
                Abstract { shared, ty } => RawHeap::Abstract(shared, ty as u8),
                Concrete(i) => RawHeap::Concrete(i.as_module_index()),
            })));
        }
    }
    Ok(list)
}

/// Calls `wasmparser::MemorySectionReader` on the memory sections that
/// `wasmparser::Parser::parse_all` gives; what it gives depends on the bytes alone, and is named.
#[verifier::external_body]
pub(crate) fn read_memories(bytes: &[u8]) -> (r: Result<Vec<RawMemory>, BinaryReaderError>)
    ensures
        (match r {
            Ok(list) => Some(list@),
            Err(_) => None,
        }) == memory_section(bytes@),
{
    let mut list = vec![];
    for payload in Parser::new(0).parse_all(bytes) {
        let MemorySection(section) = payload? else { continue };
        for memory in section {
            let m = memory?;
            list.push(RawMemory {
                minimum: m.initial, maximum: m.maximum, shared: m.shared, memory64: m.memory64,
                page_size_log2: m.page_size_log2,
            });
        }
    }
    Ok(list)
}

/// Calls `wasmparser::GlobalSectionReader` on the global sections that
/// `wasmparser::Parser::parse_all` gives; what it gives depends on the bytes alone, and is named.
#[verifier::external_body]
pub(crate) fn read_globals(bytes: &[u8]) -> (r: Result<Vec<(RawGlobal, RawVal)>, BinaryReaderError>)
    ensures
        (match r {
            Ok(list) => Some(list@),
            Err(_) => None,
        }) == global_section(bytes@),
{
    let mut list = vec![];
    for payload in Parser::new(0).parse_all(bytes) {
        let GlobalSection(section) = payload? else { continue };
        for global in section {
            let g = global?.ty;
            list.push((RawGlobal { mutable: g.mutable, shared: g.shared }, match g.content_type {
                I32 => RawVal::I32, I64 => RawVal::I64, F32 => RawVal::F32, F64 => RawVal::F64,
                V128 => RawVal::V128, Ref(r) => RawVal::Ref(r.is_nullable(), match r.heap_type() {
                    Abstract { shared, ty } => RawHeap::Abstract(shared, ty as u8),
                    Concrete(i) => RawHeap::Concrete(i.as_module_index()),
                }),
            })); }
    }
    Ok(list)
}

/// Calls `wasmparser::ExportSectionReader` on the export sections that
/// `wasmparser::Parser::parse_all` gives; what it gives depends on the bytes alone, and is named.
#[verifier::external_body]
pub(crate) fn read_exports(bytes: &[u8]) -> (r: Result<Vec<RawExport>, BinaryReaderError>)
    ensures
        (match r {
            Ok(list) => Some(items(list@)),
            Err(_) => None,
        }) == export_section(bytes@),
{
    let mut list = vec![];
    for payload in Parser::new(0).parse_all(bytes) {
        let ExportSection(section) = payload? else { continue };
        for export in section {
            let wasmparser::Export { name, kind, index } = export?;
            list.push(RawExport { name: name.to_string(), external: match kind {
                ExternalKind::Func => RawExternal::Func(index),
                ExternalKind::Table => RawExternal::Table(index),
                ExternalKind::Memory => RawExternal::Memory(index),
                ExternalKind::Global => RawExternal::Global(index),
                ExternalKind::Tag => RawExternal::Tag(index), } });
        }
    }
    Ok(list)
}

/// Calls `wasmparser::Parser::parse_all` and keeps the functions of the start sections; what it gives
/// depends on the bytes alone, and is named.
#[verifier::external_body]
pub(crate) fn read_start(bytes: &[u8]) -> (r: Result<Vec<u32>, BinaryReaderError>)
    ensures
        (match r {
            Ok(list) => Some(list@),
            Err(_) => None,
        }) == start_section(bytes@),
{
    let mut list = vec![];
    for payload in Parser::new(0).parse_all(bytes) {
        let StartSection { func, .. } = payload? else { continue };
        list.push(func);
    }
    Ok(list)
}

/// Calls `wasmparser::CustomSectionReader::as_known` on the custom sections that
/// `wasmparser::Parser::parse_all` gives, and reads the parts of name sections. What it gives depends
/// on the bytes alone, and is named.
#[verifier::external_body]
pub(crate) fn read_names(bytes: &[u8]) -> (r: Result<Vec<RawName>, BinaryReaderError>)
    ensures
        (match r {
            Ok(list) => Some(items(list@)),
            Err(_) => None,
        }) == name_section(bytes@),
{
    let mut list = vec![];
    for payload in Parser::new(0).parse_all(bytes) {
        let CustomSection(section) = payload? else { continue };
        let KnownCustom::Name(section) = section.as_known() else { continue };
        for part in section {
            list.push(match part {
                Ok(Name::Module { name, .. }) => RawName::Module(name.to_string()),
                Ok(_) => RawName::Other,
                Err(_) => RawName::Unreadable,
            });
        }
    }
    Ok(list)
}

/// Calls `wasmparser::GlobalSectionReader` on the global sections that
/// `wasmparser::Parser::parse_all` gives; what it gives depends on the bytes alone, and is named.
#[verifier::external_body]
pub(crate) fn read_global_inits(bytes: &[u8]) -> (r: Result<Vec<Vec<u8>>, BinaryReaderError>)
    ensures
        (match r {
            Ok(list) => Some(items(list@)),
            Err(_) => None,
        }) == global_inits(bytes@),
{
    let mut list = vec![];
    for payload in Parser::new(0).parse_all(bytes) {
        let GlobalSection(section) = payload? else { continue };
        for global in section {
            list.push(bytes[global?.init_expr.get_binary_reader().range()].to_vec());
        }
    }
    Ok(list)
}

/// Calls `wasmparser::DataSectionReader` on the data sections that
/// `wasmparser::Parser::parse_all` gives; what it gives depends on the bytes alone, and is named.
#[verifier::external_body]
pub(crate) fn read_data(bytes: &[u8]) -> (r: Result<Vec<RawData>, BinaryReaderError>)
    ensures
        (match r {
            Ok(list) => Some(items(list@)),
            Err(_) => None,
        }) == data_section(bytes@),
{
    let mut list = vec![];
    for payload in Parser::new(0).parse_all(bytes) {
        let DataSection(section) = payload? else { continue };
        for data in section {
            let data = data?;
            list.push(RawData(match data.kind {
                DataKind::Passive => None,
                DataKind::Active { memory_index, offset_expr } =>
                    Some((memory_index, bytes[offset_expr.get_binary_reader().range()].to_vec())),
            }, data.data.to_vec()));
        }
    }
    Ok(list)
}

/// Calls `wasmparser::ElementSectionReader` on the element sections that
/// `wasmparser::Parser::parse_all` gives; the kinds of the segments depend on the bytes alone, and are
/// named.
#[verifier::external_body]
pub(crate) fn read_elements(bytes: &[u8]) -> (r: Result<Vec<RawSegment>, BinaryReaderError>)
    ensures
        (match r {
            Ok(list) => Some(items(list@)),
            Err(_) => None,
        }) == element_section(bytes@),
{
    let mut list = vec![];
    for payload in Parser::new(0).parse_all(bytes) {
        let ElementSection(section) = payload? else { continue };
        for element in section {
            list.push(match element?.kind {
                ElementKind::Passive => RawSegment::Passive,
                ElementKind::Declared => RawSegment::Declared,
                ElementKind::Active { table_index, offset_expr } => RawSegment::Active(table_index,
                    bytes[offset_expr.get_binary_reader().range()].to_vec()),
            });
        }
    }
    Ok(list)
}

/// Calls `wasmparser::ElementSectionReader` on the element sections that
/// `wasmparser::Parser::parse_all` gives; the elements of the segments depend on the bytes alone, and
/// are named.
#[verifier::external_body]
pub(crate) fn read_element_items(bytes: &[u8]) -> (r: Result<Vec<RawItems>, BinaryReaderError>)
    ensures
        (match r {
            Ok(list) => Some(items(list@)),
            Err(_) => None,
        }) == element_items(bytes@),
{
    let mut list = vec![];
    for payload in Parser::new(0).parse_all(bytes) {
        let ElementSection(section) = payload? else { continue };
        for element in section {
            list.push(match element?.items {
                ElementItems::Functions(list) =>
                    RawItems::Functions(list.into_iter().collect::<Result<_, _>>()?),
                ElementItems::Expressions(_, list) => RawItems::Expressions(list.into_iter().map(
                    |expr| Ok(bytes[expr?.get_binary_reader().range()].to_vec()),
                ).collect::<Result<_, BinaryReaderError>>()?),
            }); }
    }
    Ok(list)
}

/// Calls `wasmparser::TableSectionReader` on the table sections that `wasmparser::Parser::parse_all`
/// gives; the expressions of the tables depend on the bytes alone, and are named.
#[verifier::external_body]
pub(crate) fn read_table_inits(bytes: &[u8]) -> (r: Result<Vec<RawInit>, BinaryReaderError>)
    ensures
        (match r {
            Ok(list) => Some(items(list@)),
            Err(_) => None,
        }) == table_inits(bytes@),
{
    let mut list = vec![];
    for payload in Parser::new(0).parse_all(bytes) {
        let TableSection(section) = payload? else { continue };
        for table in section {
            list.push(RawInit(match table?.init {
                TableInit::RefNull => None,
                TableInit::Expr(expr) => Some(bytes[expr.get_binary_reader().range()].to_vec()),
            }));
        }
    }
    Ok(list)
}

} // verus!
