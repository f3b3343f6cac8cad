//! The environment that the declarations of a module are collected in.
use crate::body::FunctionBodyInput;
use crate::indices::{
    EntityIndex, FuncIndex, FuncRefIndex, GlobalIndex, MemoryIndex, ModuleInternedTypeIndex,
    TableIndex, TypeIndex,
};
use crate::runtime::const_eval::ConstOp;
use crate::translate::{FunctionDesc, ModuleTypes, TranslatedModule};
use crate::types::{FuncTypeModel, GlobalDesc, MemoryDesc, TableDesc, WasmFuncType};
use vstd::prelude::*;

verus! {

/// An import of a module.
pub struct Import {
    pub module: String,
    pub field: String,
    pub index: EntityIndex,
}

/// An import, with its names as sequences of characters.
#[verifier::ext_equal]
pub struct ImportModel {
    pub module: Seq<char>,
    pub field: Seq<char>,
    pub index: EntityIndex,
}

/// Bytes for a memory: those of a memory that is named are copied to an offset when the module is
/// instantiated.
pub struct DataSegment {
    pub memory: Option<(MemoryIndex, Vec<ConstOp>)>,
    pub data: Vec<u8>,
}

/// What becomes of an element segment when the module is instantiated.
pub enum SegmentKind {
    /// Nothing: it can be copied later.
    Passive,
    /// It is dropped: it only says which functions can be referred to.
    Declared,
    /// It is copied to a table at an offset.
    Active(TableIndex, Vec<ConstOp>),
}

/// The elements of a segment.
pub enum TableSegmentElements {
    Functions(Vec<FuncIndex>),
    Expressions(Vec<Vec<ConstOp>>),
}

/// Elements for a table.
pub struct ElementSegment {
    pub kind: SegmentKind,
    pub elements: TableSegmentElements,
}

/// A data segment as sequences.
#[verifier::ext_equal]
pub struct DataModel {
    pub memory: Option<(MemoryIndex, Seq<ConstOp>)>,
    pub data: Seq<u8>,
}

/// What becomes of an element segment, with its offset as a sequence.
pub enum KindModel {
    Passive,
    Declared,
    Active(TableIndex, Seq<ConstOp>),
}

/// The elements of a segment as sequences.
pub enum ElementsModel {
    Functions(Seq<FuncIndex>),
    Expressions(Seq<Seq<ConstOp>>),
}

/// An element segment as sequences.
#[verifier::ext_equal]
pub struct ElementModel {
    pub kind: KindModel,
    pub elements: ElementsModel,
}

impl View for DataSegment {
    type V = DataModel;

    open spec fn view(&self) -> DataModel {
        DataModel {
            memory: match self.memory {
                Some((memory, offset)) => Some((memory, offset@)),
                None => None,
            },
            data: self.data@,
        }
    }
}

impl View for ElementSegment {
    type V = ElementModel;

    open spec fn view(&self) -> ElementModel {
        ElementModel {
            kind: match self.kind {
                SegmentKind::Passive => KindModel::Passive,
                SegmentKind::Declared => KindModel::Declared,
                SegmentKind::Active(table, offset) => KindModel::Active(table, offset@),
            },
            elements: match self.elements {
                TableSegmentElements::Functions(funcs) => ElementsModel::Functions(funcs@),
                TableSegmentElements::Expressions(exprs) => ElementsModel::Expressions(
                    crate::parse::items(exprs@),
                ),
            },
        }
    }
}

/// The expression of the first elements of a table, if it has one.
pub struct TableInitializer(pub Option<Vec<ConstOp>>);

impl View for TableInitializer {
    type V = Option<Seq<ConstOp>>;

    open spec fn view(&self) -> Option<Seq<ConstOp>> {
        match self.0 {
            Some(ops) => Some(ops@),
            None => None,
        }
    }
}

/// A module whose declarations are complete.
pub struct ModuleTranslation {
    /// The name of the module, if it gives one.
    pub name: Option<String>,
    pub module: TranslatedModule,
    pub types: ModuleTypes,
    pub imports: Vec<Import>,
    pub start: Option<FuncIndex>,
    /// The expressions of the first values of the globals that the module defines.
    pub global_initializers: Vec<Vec<ConstOp>>,
    pub data: Vec<DataSegment>,
    pub elements: Vec<ElementSegment>,
    /// The expressions of the first elements of the tables that the module defines.
    pub table_initializers: Vec<TableInitializer>,
    /// The bodies of the functions that the module defines.
    pub function_body_inputs: Vec<FunctionBodyInput>,
    /// The features that the module was validated with, as bits of the validator.
    pub required_features: u32,
}

/// What a module has declared.
#[verifier::ext_equal]
pub struct Declarations {
    pub name: Option<Seq<char>>,
    /// The function types, by interned index.
    pub func_types: Seq<FuncTypeModel>,
    /// The interned indices of the module's types.
    pub types: Seq<ModuleInternedTypeIndex>,
    pub functions: Seq<FunctionDesc>,
    pub tables: Seq<TableDesc>,
    pub memories: Seq<MemoryDesc>,
    pub globals: Seq<GlobalDesc>,
    pub imports: Seq<ImportModel>,
    pub exports: Seq<(Seq<char>, EntityIndex)>,
    pub num_imported_functions: u32,
    pub num_imported_tables: u32,
    pub num_imported_memories: u32,
    pub num_imported_globals: u32,
    /// The number of functions whose references can leave the module.
    pub num_escaped_functions: u32,
    pub start: Option<FuncIndex>,
    /// The expressions of the first values of the globals that the module defines.
    pub global_initializers: Seq<Seq<ConstOp>>,
    pub data: Seq<DataModel>,
    pub elements: Seq<ElementModel>,
    /// The expressions of the first elements of the tables that the module defines.
    pub table_initializers: Seq<Option<Seq<ConstOp>>>,
    /// The bodies of functions: where they begin in the module, and their bytes.
    pub bodies: Seq<(usize, Seq<u8>)>,
    pub required_features: u32,
}

/// A function of a type that does not escape.
pub open spec fn plain_function(index: TypeIndex) -> FunctionDesc {
    FunctionDesc { signature: index.0, func_ref: FuncRefIndex(u32::MAX) }
}

impl View for ModuleTranslation {
    type V = Declarations;

    open spec fn view(&self) -> Declarations {
        Declarations {
            name: match self.name {
                Some(name) => Some(name@),
                None => None,
            },
            func_types: self.types.types@.map_values(|t: WasmFuncType| t@),
            types: self.module.types@,
            functions: self.module.functions@,
            tables: self.module.tables@,
            memories: self.module.memories@,
            globals: self.module.globals@,
            imports: self.imports@.map_values(
                |i: Import| ImportModel { module: i.module@, field: i.field@, index: i.index },
            ),
            exports: export_names(self.module.exports@),
            num_imported_functions: self.module.num_imported_functions,
            num_imported_tables: self.module.num_imported_tables,
            num_imported_memories: self.module.num_imported_memories,
            num_imported_globals: self.module.num_imported_globals,
            num_escaped_functions: self.module.num_escaped_functions,
            start: self.start,
            global_initializers: crate::parse::items(self.global_initializers@),
            data: crate::parse::items(self.data@),
            elements: crate::parse::items(self.elements@),
            table_initializers: crate::parse::items(self.table_initializers@),
            bodies: crate::parse::items(self.function_body_inputs@),
            required_features: self.required_features,
        }
    }
}

/// No declarations.
pub open spec fn nothing() -> Declarations {
    Declarations {
        name: None,
        func_types: Seq::empty(),
        types: Seq::empty(),
        functions: Seq::empty(),
        tables: Seq::empty(),
        memories: Seq::empty(),
        globals: Seq::empty(),
        imports: Seq::empty(),
        exports: Seq::empty(),
        num_imported_functions: 0,
        num_imported_tables: 0,
        num_imported_memories: 0,
        num_imported_globals: 0,
        num_escaped_functions: 0,
        start: None,
        global_initializers: Seq::empty(),
        data: Seq::empty(),
        elements: Seq::empty(),
        table_initializers: Seq::empty(),
        bodies: Seq::empty(),
        required_features: 0,
    }
}

/// Whether a name is exported.
pub open spec fn is_exported(exports: Seq<(Seq<char>, EntityIndex)>, name: Seq<char>) -> bool {
    exists|i: int| 0 <= i < exports.len() && (#[trigger] exports[i]).0 == name
}

/// Whether exports are those after one more: an export of the same name is replaced, and a new name
/// comes last.
pub open spec fn exported(
    exports: Seq<(Seq<char>, EntityIndex)>,
    name: Seq<char>,
    index: EntityIndex,
) -> Seq<(Seq<char>, EntityIndex)> {
    let replaced = exports.map_values(
        |e: (Seq<char>, EntityIndex)|
            if e.0 == name {
                (name, index)
            } else {
                e
            },
    );
    if is_exported(exports, name) {
        replaced
    } else {
        replaced.push((name, index))
    }
}

/// No two exports have one name.
pub open spec fn names_differ(exports: Seq<(Seq<char>, EntityIndex)>) -> bool {
    forall|i: int, j: int|
        0 <= i < j < exports.len() ==> (#[trigger] exports[i]).0 != (#[trigger] exports[j]).0
}

/// Whether a name is exported as an entity.
pub open spec fn exports_as(
    exports: Seq<(Seq<char>, EntityIndex)>,
    name: Seq<char>,
    index: EntityIndex,
) -> bool {
    exists|i: int| 0 <= i < exports.len() && #[trigger] exports[i] == (name, index)
}

/// What was exported last under a name is all that the name is exported as, other names stay what
/// they were, and no name is exported twice.
pub proof fn last_export_counts(
    exports: Seq<(Seq<char>, EntityIndex)>,
    name: Seq<char>,
    index: EntityIndex,
)
    requires
        names_differ(exports),
    ensures
        names_differ(exported(exports, name, index)),
        forall|i: EntityIndex| #[trigger]
            exports_as(exported(exports, name, index), name, i) <==> i == index,
        forall|other: Seq<char>, i: EntityIndex|
            other != name ==> (#[trigger] exports_as(exported(exports, name, index), other, i)
                <==> exports_as(exports, other, i)),
{
    let after = exported(exports, name, index);
    assert(forall|k: int| 0 <= k < exports.len() ==> (#[trigger] after[k]).0 == exports[k].0);
    assert(exports_as(after, name, index)) by {
        if is_exported(exports, name) {
            let k = choose|k: int| 0 <= k < exports.len() && (#[trigger] exports[k]).0 == name;
            assert(after[k] == (name, index));
        } else {
            assert(after[exports.len() as int] == (name, index));
        }
    }
    assert forall|other: Seq<char>, i: EntityIndex| other != name implies (
    #[trigger] exports_as(after, other, i) <==> exports_as(exports, other, i)) by {
        if exports_as(after, other, i) {
            let k = choose|k: int| 0 <= k < after.len() && #[trigger] after[k] == (other, i);
            assert(exports[k] == (other, i));
        }
        if exports_as(exports, other, i) {
            let k = choose|k: int| 0 <= k < exports.len() && #[trigger] exports[k] == (other, i);
            assert(after[k] == (other, i));
        }
    }
}

/// Collects the declarations of a module.
pub struct ModuleEnvironment {
    result: ModuleTranslation,
}

impl View for ModuleEnvironment {
    type V = Declarations;

    closed spec fn view(&self) -> Declarations {
        self.result@
    }
}

/// A module without declarations.
fn empty_translation() -> (r: ModuleTranslation)
    ensures
        r@ == nothing(),
{
    let r = ModuleTranslation {
        name: None,
        module: TranslatedModule {
            types: Vec::new(),
            functions: Vec::new(),
            tables: Vec::new(),
            memories: Vec::new(),
            globals: Vec::new(),
            exports: Vec::new(),
            num_imported_functions: 0,
            num_imported_tables: 0,
            num_imported_memories: 0,
            num_imported_globals: 0,
            num_escaped_functions: 0,
        },
        types: ModuleTypes { types: Vec::new() },
        imports: Vec::new(),
        start: None,
        global_initializers: Vec::new(),
        data: Vec::new(),
        elements: Vec::new(),
        table_initializers: Vec::new(),
        function_body_inputs: Vec::new(),
        required_features: 0,
    };
    assert(r@ =~= nothing());
    r
}

/// Exports as sequences of characters.
pub open spec fn export_names(exports: Seq<(String, EntityIndex)>) -> Seq<
    (Seq<char>, EntityIndex),
> {
    exports.map_values(|e: (String, EntityIndex)| (e.0@, e.1))
}

/// Adds an export, or replaces the one of the same name.
fn insert_export(exports: &mut Vec<(String, EntityIndex)>, name: &str, index: EntityIndex)
    ensures
        export_names(final(exports)@) == exported(export_names(old(exports)@), name@, index),
{
    let wanted = String::from_str(name);
    let ghost before = export_names(exports@);
    let mut found = false;
    let n: usize = exports.len();
    for i in 0..n
        invariant
            wanted@ == name@,
            before == export_names(old(exports)@),
            n == before.len(),
            exports@.len() == n,
            found == exists|k: int| 0 <= k < i && (#[trigger] before[k]).0 == name@,
            forall|k: int|
                0 <= k < n ==> #[trigger] export_names(exports@)[k] == (if k < i && before[k].0
                    == name@ {
                    (name@, index)
                } else {
                    before[k]
                }),
    {
        let ghost now = export_names(exports@);
        assert(now[i as int] == before[i as int]);
        if exports[i].0 == wanted {
            assert(before[i as int].0 == name@);
            exports.set(i, (String::from_str(name), index));
            found = true;
            assert(export_names(exports@) =~= now.update(i as int, (name@, index)));
        }
    }
    let ghost replaced = export_names(exports@);
    if !found {
        exports.push((wanted, index));
        assert(export_names(exports@) =~= replaced.push((name@, index)));
    }
    assert(is_exported(before, name@) == found);
    assert(replaced =~= before.map_values(
        |e: (Seq<char>, EntityIndex)|
            if e.0 == name@ {
                (name@, index)
            } else {
                e
            },
    ));
}

impl ModuleEnvironment {
    /// No declarations.
    pub fn new() -> (r: Self)
        ensures
            r@ == nothing(),
    {
        ModuleEnvironment { result: empty_translation() }
    }

    /// The declarations; none are left.
    pub fn finish(&mut self) -> (r: ModuleTranslation)
        ensures
            r@ == old(self)@,
            final(self)@ == nothing(),
    {
        let mut result = empty_translation();
        std::mem::swap(&mut result, &mut self.result);
        result
    }

    /// The number of types so far.
    pub fn num_types(&self) -> (r: usize)
        ensures
            r == self@.types.len(),
    {
        self.result.module.types.len()
    }

    /// The number of functions so far.
    pub fn num_functions(&self) -> (r: usize)
        ensures
            r == self@.functions.len(),
    {
        self.result.module.functions.len()
    }

    /// The number of tables so far.
    pub fn num_tables(&self) -> (r: usize)
        ensures
            r == self@.tables.len(),
    {
        self.result.module.tables.len()
    }

    /// The number of memories so far.
    pub fn num_memories(&self) -> (r: usize)
        ensures
            r == self@.memories.len(),
    {
        self.result.module.memories.len()
    }

    /// The number of globals so far.
    pub fn num_globals(&self) -> (r: usize)
        ensures
            r == self@.globals.len(),
    {
        self.result.module.globals.len()
    }

    /// The number of exports so far.
    pub fn num_exports(&self) -> (r: usize)
        ensures
            r == self@.exports.len(),
    {
        self.result.module.exports.len()
    }

    /// The number of imports so far.
    pub fn num_imports(&self) -> (r: usize)
        ensures
            r == self@.imports.len(),
    {
        self.result.imports.len()
    }

    /// The number of element segments so far.
    pub fn num_elements(&self) -> (r: usize)
        ensures
            r == self@.elements.len(),
    {
        self.result.elements.len()
    }

    /// Declares the name of the module.
    pub fn declare_module_name(&mut self, name: &str)
        ensures
            final(self)@ == (Declarations { name: Some(name@), ..old(self)@ }),
    {
        self.result.name = Some(String::from_str(name));
    }

    /// Declares a function type.
    pub fn declare_type_func(&mut self, ty: WasmFuncType)
        requires
            old(self)@.func_types.len() < u32::MAX,
        ensures
            final(self)@ == (Declarations {
                func_types: old(self)@.func_types.push(ty@),
                types: old(self)@.types.push(
                    ModuleInternedTypeIndex(old(self)@.func_types.len() as u32),
                ),
                ..old(self)@
            }),
    {
        let index = ModuleInternedTypeIndex(self.result.types.types.len() as u32);
        self.result.types.types.push(ty);
        self.result.module.types.push(index);
        assert(self@.func_types =~= old(self)@.func_types.push(ty@));
    }

    /// Adds a function of a type.
    fn push_function(&mut self, index: TypeIndex)
        ensures
            final(self)@ == (Declarations {
                functions: old(self)@.functions.push(plain_function(index)),
                ..old(self)@
            }),
    {
        self.result.module.functions.push(
            FunctionDesc { signature: index.as_u32(), func_ref: FuncRefIndex::reserved_value() },
        );
        assert(self@.functions =~= old(self)@.functions.push(plain_function(index)));
    }

    /// Adds an import.
    fn push_import(&mut self, module: &str, field: &str, index: EntityIndex)
        ensures
            final(self)@ == (Declarations {
                imports: old(self)@.imports.push(
                    ImportModel { module: module@, field: field@, index },
                ),
                ..old(self)@
            }),
    {
        self.result.imports.push(
            Import { module: String::from_str(module), field: String::from_str(field), index },
        );
        assert(self@.imports =~= old(self)@.imports.push(
            ImportModel { module: module@, field: field@, index },
        ));
    }

    /// Declares an imported function of a declared type.
    pub fn declare_func_import(&mut self, index: TypeIndex, module: &str, field: &str)
        requires
            index.0 < old(self)@.types.len(),
            old(self)@.functions.len() < u32::MAX,
            old(self)@.num_imported_functions < u32::MAX,
        ensures
            final(self)@ == (Declarations {
                functions: old(self)@.functions.push(plain_function(index)),
                num_imported_functions: (old(self)@.num_imported_functions + 1) as u32,
                imports: old(self)@.imports.push(
                    ImportModel {
                        module: module@,
                        field: field@,
                        index: EntityIndex::Function(FuncIndex(old(self)@.functions.len() as u32)),
                    },
                ),
                ..old(self)@
            }),
    {
        self.result.module.num_imported_functions = self.result.module.num_imported_functions + 1;
        let func_index = FuncIndex(self.result.module.functions.len() as u32);
        self.push_function(index);
        self.push_import(module, field, EntityIndex::Function(func_index));
    }

    /// Declares an imported table.
    pub fn declare_table_import(&mut self, table: TableDesc, module: &str, field: &str)
        requires
            old(self)@.tables.len() < u32::MAX,
            old(self)@.num_imported_tables < u32::MAX,
        ensures
            final(self)@ == (Declarations {
                tables: old(self)@.tables.push(table),
                num_imported_tables: (old(self)@.num_imported_tables + 1) as u32,
                imports: old(self)@.imports.push(
                    ImportModel {
                        module: module@,
                        field: field@,
                        index: EntityIndex::Table(TableIndex(old(self)@.tables.len() as u32)),
                    },
                ),
                ..old(self)@
            }),
    {
        self.result.module.num_imported_tables = self.result.module.num_imported_tables + 1;
        let table_index = TableIndex(self.result.module.tables.len() as u32);
        self.result.module.tables.push(table);
        self.push_import(module, field, EntityIndex::Table(table_index));
    }

    /// Declares a table that the module defines.
    pub fn declare_table(&mut self, table: TableDesc)
        ensures
            final(self)@ == (Declarations { tables: old(self)@.tables.push(table), ..old(self)@ }),
    {
        self.result.module.tables.push(table);
    }

    /// Declares an imported memory.
    pub fn declare_memory_import(&mut self, memory: MemoryDesc, module: &str, field: &str)
        requires
            old(self)@.memories.len() < u32::MAX,
            old(self)@.num_imported_memories < u32::MAX,
        ensures
            final(self)@ == (Declarations {
                memories: old(self)@.memories.push(memory),
                num_imported_memories: (old(self)@.num_imported_memories + 1) as u32,
                imports: old(self)@.imports.push(
                    ImportModel {
                        module: module@,
                        field: field@,
                        index: EntityIndex::Memory(MemoryIndex(old(self)@.memories.len() as u32)),
                    },
                ),
                ..old(self)@
            }),
    {
        self.result.module.num_imported_memories = self.result.module.num_imported_memories + 1;
        let memory_index = MemoryIndex(self.result.module.memories.len() as u32);
        self.result.module.memories.push(memory);
        self.push_import(module, field, EntityIndex::Memory(memory_index));
    }

    /// Declares a memory that the module defines.
    pub fn declare_memory(&mut self, memory: MemoryDesc)
        ensures
            final(self)@ == (Declarations { memories: old(self)@.memories.push(memory), ..old(self)@ }),
    {
        self.result.module.memories.push(memory);
    }

    /// Declares an imported global.
    pub fn declare_global_import(&mut self, global: GlobalDesc, module: &str, field: &str)
        requires
            old(self)@.globals.len() < u32::MAX,
            old(self)@.num_imported_globals < u32::MAX,
        ensures
            final(self)@ == (Declarations {
                globals: old(self)@.globals.push(global),
                num_imported_globals: (old(self)@.num_imported_globals + 1) as u32,
                imports: old(self)@.imports.push(
                    ImportModel {
                        module: module@,
                        field: field@,
                        index: EntityIndex::Global(GlobalIndex(old(self)@.globals.len() as u32)),
                    },
                ),
                ..old(self)@
            }),
    {
        self.result.module.num_imported_globals = self.result.module.num_imported_globals + 1;
        let global_index = GlobalIndex(self.result.module.globals.len() as u32);
        self.result.module.globals.push(global);
        self.push_import(module, field, EntityIndex::Global(global_index));
    }

    /// Declares a global that the module defines.
    pub fn declare_global(&mut self, global: GlobalDesc)
        ensures
            final(self)@ == (Declarations { globals: old(self)@.globals.push(global), ..old(self)@ }),
    {
        self.result.module.globals.push(global);
    }

    /// Declares a function that the module defines, of a declared type.
    pub fn declare_func_type(&mut self, index: TypeIndex)
        requires
            index.0 < old(self)@.types.len(),
        ensures
            final(self)@ == (Declarations {
                functions: old(self)@.functions.push(plain_function(index)),
                ..old(self)@
            }),
    {
        self.push_function(index);
    }

    /// Declares the export of a function.
    pub fn declare_func_export(&mut self, index: FuncIndex, name: &str)
        ensures
            final(self)@ == (Declarations {
                exports: exported(old(self)@.exports, name@, EntityIndex::Function(index)),
                ..old(self)@
            }),
    {
        insert_export(&mut self.result.module.exports, name, EntityIndex::Function(index));
    }

    /// Declares the export of a table.
    pub fn declare_table_export(&mut self, index: TableIndex, name: &str)
        ensures
            final(self)@ == (Declarations {
                exports: exported(old(self)@.exports, name@, EntityIndex::Table(index)),
                ..old(self)@
            }),
    {
        insert_export(&mut self.result.module.exports, name, EntityIndex::Table(index));
    }

    /// Declares the export of a memory.
    pub fn declare_memory_export(&mut self, index: MemoryIndex, name: &str)
        ensures
            final(self)@ == (Declarations {
                exports: exported(old(self)@.exports, name@, EntityIndex::Memory(index)),
                ..old(self)@
            }),
    {
        insert_export(&mut self.result.module.exports, name, EntityIndex::Memory(index));
    }

    /// Declares the export of a global.
    pub fn declare_global_export(&mut self, index: GlobalIndex, name: &str)
        ensures
            final(self)@ == (Declarations {
                exports: exported(old(self)@.exports, name@, EntityIndex::Global(index)),
                ..old(self)@
            }),
    {
        insert_export(&mut self.result.module.exports, name, EntityIndex::Global(index));
    }

    /// Declares the expression of the first value of a global.
    pub fn declare_global_initializer(&mut self, ops: Vec<ConstOp>)
        ensures
            final(self)@ == (Declarations {
                global_initializers: old(self)@.global_initializers.push(ops@),
                ..old(self)@
            }),
    {
        self.result.global_initializers.push(ops);
        assert(self@.global_initializers =~= old(self)@.global_initializers.push(ops@));
    }

    /// Declares the expression of the first elements of a table, if it has one.
    pub fn declare_table_initializer(&mut self, init: TableInitializer)
        ensures
            final(self)@ == (Declarations {
                table_initializers: old(self)@.table_initializers.push(init@),
                ..old(self)@
            }),
    {
        self.result.table_initializers.push(init);
        assert(self@.table_initializers =~= old(self)@.table_initializers.push(init@));
    }

    /// Keeps the body of a function.
    pub fn define_function_body(&mut self, input: FunctionBodyInput)
        ensures
            final(self)@ == (Declarations { bodies: old(self)@.bodies.push(input@), ..old(self)@ }),
    {
        self.result.function_body_inputs.push(input);
        assert(self@.bodies =~= old(self)@.bodies.push(input@));
    }

    /// Declares a data segment.
    pub fn declare_data_segment(&mut self, segment: DataSegment)
        ensures
            final(self)@ == (Declarations { data: old(self)@.data.push(segment@), ..old(self)@ }),
    {
        self.result.data.push(segment);
        assert(self@.data =~= old(self)@.data.push(segment@));
    }

    /// Declares an element segment.
    pub fn declare_element_segment(&mut self, segment: ElementSegment)
        ensures
            final(self)@ == (Declarations {
                elements: old(self)@.elements.push(segment@),
                ..old(self)@
            }),
    {
        self.result.elements.push(segment);
        assert(self@.elements =~= old(self)@.elements.push(segment@));
    }

    /// Declares the function that is called when the module is instantiated.
    pub fn declare_start_func(&mut self, index: FuncIndex)
        ensures
            final(self)@ == (Declarations { start: Some(index), ..old(self)@ }),
    {
        self.result.start = Some(index);
    }
}

} // verus!
