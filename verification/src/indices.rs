//! Index spaces of WebAssembly modules.
//!
//! Every index is a `u32` wrapped in a type of its own, so that an index of one space is never
//! mistaken for one of another. `u32::MAX` is reserved in every space: it stands for "no index".
use vstd::prelude::*;

verus! {

/// The index of a type declared by a module.
#[derive(Debug, Clone, Copy, PartialEq, Eq, Hash, PartialOrd, Ord, Structural)]
pub struct TypeIndex(pub u32);

impl TypeIndex {
    /// Wraps a raw index.
    pub fn from_u32(x: u32) -> (r: Self)
        requires
            x < u32::MAX,
        ensures
            r.0 == x,
            !r.spec_is_reserved(),
    {
        TypeIndex(x)
    }

    /// The raw index.
    pub fn as_u32(self) -> (r: u32)
        ensures
            r == self.0,
    {
        self.0
    }

    /// The raw index, widened for use as a position.
    pub fn index(self) -> (r: usize)
        ensures
            r == self.0,
    {
        self.0 as usize
    }

    /// The value that stands for "no index".
    pub fn reserved_value() -> (r: Self)
        ensures
            r.spec_is_reserved(),
    {
        TypeIndex(u32::MAX)
    }

    /// Whether an index is the reserved one.
    pub open spec fn spec_is_reserved(self) -> bool {
        self.0 == u32::MAX
    }

    /// Whether this is the value that stands for "no index".
    pub fn is_reserved_value(&self) -> (r: bool)
        ensures
            r == self.spec_is_reserved(),
    {
        self.0 == u32::MAX
    }
}

/// The index of a function, imported or defined.
#[derive(Debug, Clone, Copy, PartialEq, Eq, Hash, PartialOrd, Ord, Structural)]
pub struct FuncIndex(pub u32);

impl FuncIndex {
    /// Wraps a raw index.
    pub fn from_u32(x: u32) -> (r: Self)
        requires
            x < u32::MAX,
        ensures
            r.0 == x,
            !r.spec_is_reserved(),
    {
        FuncIndex(x)
    }

    /// The raw index.
    pub fn as_u32(self) -> (r: u32)
        ensures
            r == self.0,
    {
        self.0
    }

    /// The raw index, widened for use as a position.
    pub fn index(self) -> (r: usize)
        ensures
            r == self.0,
    {
        self.0 as usize
    }

    /// The value that stands for "no index".
    pub fn reserved_value() -> (r: Self)
        ensures
            r.spec_is_reserved(),
    {
        FuncIndex(u32::MAX)
    }

    /// Whether an index is the reserved one.
    pub open spec fn spec_is_reserved(self) -> bool {
        self.0 == u32::MAX
    }

    /// Whether this is the value that stands for "no index".
    pub fn is_reserved_value(&self) -> (r: bool)
        ensures
            r == self.spec_is_reserved(),
    {
        self.0 == u32::MAX
    }
}

/// The index of a function that the module itself defines.
#[derive(Debug, Clone, Copy, PartialEq, Eq, Hash, PartialOrd, Ord, Structural)]
pub struct DefinedFuncIndex(pub u32);

impl DefinedFuncIndex {
    /// Wraps a raw index.
    pub fn from_u32(x: u32) -> (r: Self)
        requires
            x < u32::MAX,
        ensures
            r.0 == x,
            !r.spec_is_reserved(),
    {
        DefinedFuncIndex(x)
    }

    /// The raw index.
    pub fn as_u32(self) -> (r: u32)
        ensures
            r == self.0,
    {
        self.0
    }

    /// The raw index, widened for use as a position.
    pub fn index(self) -> (r: usize)
        ensures
            r == self.0,
    {
        self.0 as usize
    }

    /// The value that stands for "no index".
    pub fn reserved_value() -> (r: Self)
        ensures
            r.spec_is_reserved(),
    {
        DefinedFuncIndex(u32::MAX)
    }

    /// Whether an index is the reserved one.
    pub open spec fn spec_is_reserved(self) -> bool {
        self.0 == u32::MAX
    }

    /// Whether this is the value that stands for "no index".
    pub fn is_reserved_value(&self) -> (r: bool)
        ensures
            r == self.spec_is_reserved(),
    {
        self.0 == u32::MAX
    }
}

/// The index of a table, imported or defined.
#[derive(Debug, Clone, Copy, PartialEq, Eq, Hash, PartialOrd, Ord, Structural)]
pub struct TableIndex(pub u32);

impl TableIndex {
    /// Wraps a raw index.
    pub fn from_u32(x: u32) -> (r: Self)
        requires
            x < u32::MAX,
        ensures
            r.0 == x,
            !r.spec_is_reserved(),
    {
        TableIndex(x)
    }

    /// The raw index.
    pub fn as_u32(self) -> (r: u32)
        ensures
            r == self.0,
    {
        self.0
    }

    /// The raw index, widened for use as a position.
    pub fn index(self) -> (r: usize)
        ensures
            r == self.0,
    {
        self.0 as usize
    }

    /// The value that stands for "no index".
    pub fn reserved_value() -> (r: Self)
        ensures
            r.spec_is_reserved(),
    {
        TableIndex(u32::MAX)
    }

    /// Whether an index is the reserved one.
    pub open spec fn spec_is_reserved(self) -> bool {
        self.0 == u32::MAX
    }

    /// Whether this is the value that stands for "no index".
    pub fn is_reserved_value(&self) -> (r: bool)
        ensures
            r == self.spec_is_reserved(),
    {
        self.0 == u32::MAX
    }
}

/// The index of a table that the module itself defines.
#[derive(Debug, Clone, Copy, PartialEq, Eq, Hash, PartialOrd, Ord, Structural)]
pub struct DefinedTableIndex(pub u32);

impl DefinedTableIndex {
    /// Wraps a raw index.
    pub fn from_u32(x: u32) -> (r: Self)
        requires
            x < u32::MAX,
        ensures
            r.0 == x,
            !r.spec_is_reserved(),
    {
        DefinedTableIndex(x)
    }

    /// The raw index.
    pub fn as_u32(self) -> (r: u32)
        ensures
            r == self.0,
    {
        self.0
    }

    /// The raw index, widened for use as a position.
    pub fn index(self) -> (r: usize)
        ensures
            r == self.0,
    {
        self.0 as usize
    }

    /// The value that stands for "no index".
    pub fn reserved_value() -> (r: Self)
        ensures
            r.spec_is_reserved(),
    {
        DefinedTableIndex(u32::MAX)
    }

    /// Whether an index is the reserved one.
    pub open spec fn spec_is_reserved(self) -> bool {
        self.0 == u32::MAX
    }

    /// Whether this is the value that stands for "no index".
    pub fn is_reserved_value(&self) -> (r: bool)
        ensures
            r == self.spec_is_reserved(),
    {
        self.0 == u32::MAX
    }
}

/// The index of a linear memory, imported or defined.
#[derive(Debug, Clone, Copy, PartialEq, Eq, Hash, PartialOrd, Ord, Structural)]
pub struct MemoryIndex(pub u32);

impl MemoryIndex {
    /// Wraps a raw index.
    pub fn from_u32(x: u32) -> (r: Self)
        requires
            x < u32::MAX,
        ensures
            r.0 == x,
            !r.spec_is_reserved(),
    {
        MemoryIndex(x)
    }

    /// The raw index.
    pub fn as_u32(self) -> (r: u32)
        ensures
            r == self.0,
    {
        self.0
    }

    /// The raw index, widened for use as a position.
    pub fn index(self) -> (r: usize)
        ensures
            r == self.0,
    {
        self.0 as usize
    }

    /// The value that stands for "no index".
    pub fn reserved_value() -> (r: Self)
        ensures
            r.spec_is_reserved(),
    {
        MemoryIndex(u32::MAX)
    }

    /// Whether an index is the reserved one.
    pub open spec fn spec_is_reserved(self) -> bool {
        self.0 == u32::MAX
    }

    /// Whether this is the value that stands for "no index".
    pub fn is_reserved_value(&self) -> (r: bool)
        ensures
            r == self.spec_is_reserved(),
    {
        self.0 == u32::MAX
    }
}

/// The index of a linear memory that the module itself defines.
#[derive(Debug, Clone, Copy, PartialEq, Eq, Hash, PartialOrd, Ord, Structural)]
pub struct DefinedMemoryIndex(pub u32);

impl DefinedMemoryIndex {
    /// Wraps a raw index.
    pub fn from_u32(x: u32) -> (r: Self)
        requires
            x < u32::MAX,
        ensures
            r.0 == x,
            !r.spec_is_reserved(),
    {
        DefinedMemoryIndex(x)
    }

    /// The raw index.
    pub fn as_u32(self) -> (r: u32)
        ensures
            r == self.0,
    {
        self.0
    }

    /// The raw index, widened for use as a position.
    pub fn index(self) -> (r: usize)
        ensures
            r == self.0,
    {
        self.0 as usize
    }

    /// The value that stands for "no index".
    pub fn reserved_value() -> (r: Self)
        ensures
            r.spec_is_reserved(),
    {
        DefinedMemoryIndex(u32::MAX)
    }

    /// Whether an index is the reserved one.
    pub open spec fn spec_is_reserved(self) -> bool {
        self.0 == u32::MAX
    }

    /// Whether this is the value that stands for "no index".
    pub fn is_reserved_value(&self) -> (r: bool)
        ensures
            r == self.spec_is_reserved(),
    {
        self.0 == u32::MAX
    }
}

/// The index of a linear memory that the instance itself owns.
#[derive(Debug, Clone, Copy, PartialEq, Eq, Hash, PartialOrd, Ord, Structural)]
pub struct OwnedMemoryIndex(pub u32);

impl OwnedMemoryIndex {
    /// Wraps a raw index.
    pub fn from_u32(x: u32) -> (r: Self)
        requires
            x < u32::MAX,
        ensures
            r.0 == x,
            !r.spec_is_reserved(),
    {
        OwnedMemoryIndex(x)
    }

    /// The raw index.
    pub fn as_u32(self) -> (r: u32)
        ensures
            r == self.0,
    {
        self.0
    }

    /// The raw index, widened for use as a position.
    pub fn index(self) -> (r: usize)
        ensures
            r == self.0,
    {
        self.0 as usize
    }

    /// The value that stands for "no index".
    pub fn reserved_value() -> (r: Self)
        ensures
            r.spec_is_reserved(),
    {
        OwnedMemoryIndex(u32::MAX)
    }

    /// Whether an index is the reserved one.
    pub open spec fn spec_is_reserved(self) -> bool {
        self.0 == u32::MAX
    }

    /// Whether this is the value that stands for "no index".
    pub fn is_reserved_value(&self) -> (r: bool)
        ensures
            r == self.spec_is_reserved(),
    {
        self.0 == u32::MAX
    }
}

/// The index of a global, imported or defined.
#[derive(Debug, Clone, Copy, PartialEq, Eq, Hash, PartialOrd, Ord, Structural)]
pub struct GlobalIndex(pub u32);

impl GlobalIndex {
    /// Wraps a raw index.
    pub fn from_u32(x: u32) -> (r: Self)
        requires
            x < u32::MAX,
        ensures
            r.0 == x,
            !r.spec_is_reserved(),
    {
        GlobalIndex(x)
    }

    /// The raw index.
    pub fn as_u32(self) -> (r: u32)
        ensures
            r == self.0,
    {
        self.0
    }

    /// The raw index, widened for use as a position.
    pub fn index(self) -> (r: usize)
        ensures
            r == self.0,
    {
        self.0 as usize
    }

    /// The value that stands for "no index".
    pub fn reserved_value() -> (r: Self)
        ensures
            r.spec_is_reserved(),
    {
        GlobalIndex(u32::MAX)
    }

    /// Whether an index is the reserved one.
    pub open spec fn spec_is_reserved(self) -> bool {
        self.0 == u32::MAX
    }

    /// Whether this is the value that stands for "no index".
    pub fn is_reserved_value(&self) -> (r: bool)
        ensures
            r == self.spec_is_reserved(),
    {
        self.0 == u32::MAX
    }
}

/// The index of a global that the module itself defines.
#[derive(Debug, Clone, Copy, PartialEq, Eq, Hash, PartialOrd, Ord, Structural)]
pub struct DefinedGlobalIndex(pub u32);

impl DefinedGlobalIndex {
    /// Wraps a raw index.
    pub fn from_u32(x: u32) -> (r: Self)
        requires
            x < u32::MAX,
        ensures
            r.0 == x,
            !r.spec_is_reserved(),
    {
        DefinedGlobalIndex(x)
    }

    /// The raw index.
    pub fn as_u32(self) -> (r: u32)
        ensures
            r == self.0,
    {
        self.0
    }

    /// The raw index, widened for use as a position.
    pub fn index(self) -> (r: usize)
        ensures
            r == self.0,
    {
        self.0 as usize
    }

    /// The value that stands for "no index".
    pub fn reserved_value() -> (r: Self)
        ensures
            r.spec_is_reserved(),
    {
        DefinedGlobalIndex(u32::MAX)
    }

    /// Whether an index is the reserved one.
    pub open spec fn spec_is_reserved(self) -> bool {
        self.0 == u32::MAX
    }

    /// Whether this is the value that stands for "no index".
    pub fn is_reserved_value(&self) -> (r: bool)
        ensures
            r == self.spec_is_reserved(),
    {
        self.0 == u32::MAX
    }
}

/// The index of a tag that the module itself defines.
#[derive(Debug, Clone, Copy, PartialEq, Eq, Hash, PartialOrd, Ord, Structural)]
pub struct DefinedTagIndex(pub u32);

impl DefinedTagIndex {
    /// Wraps a raw index.
    pub fn from_u32(x: u32) -> (r: Self)
        requires
            x < u32::MAX,
        ensures
            r.0 == x,
            !r.spec_is_reserved(),
    {
        DefinedTagIndex(x)
    }

    /// The raw index.
    pub fn as_u32(self) -> (r: u32)
        ensures
            r == self.0,
    {
        self.0
    }

    /// The raw index, widened for use as a position.
    pub fn index(self) -> (r: usize)
        ensures
            r == self.0,
    {
        self.0 as usize
    }

    /// The value that stands for "no index".
    pub fn reserved_value() -> (r: Self)
        ensures
            r.spec_is_reserved(),
    {
        DefinedTagIndex(u32::MAX)
    }

    /// Whether an index is the reserved one.
    pub open spec fn spec_is_reserved(self) -> bool {
        self.0 == u32::MAX
    }

    /// Whether this is the value that stands for "no index".
    pub fn is_reserved_value(&self) -> (r: bool)
        ensures
            r == self.spec_is_reserved(),
    {
        self.0 == u32::MAX
    }
}

/// The index of an element segment.
#[derive(Debug, Clone, Copy, PartialEq, Eq, Hash, PartialOrd, Ord, Structural)]
pub struct ElemIndex(pub u32);

impl ElemIndex {
    /// Wraps a raw index.
    pub fn from_u32(x: u32) -> (r: Self)
        requires
            x < u32::MAX,
        ensures
            r.0 == x,
            !r.spec_is_reserved(),
    {
        ElemIndex(x)
    }

    /// The raw index.
    pub fn as_u32(self) -> (r: u32)
        ensures
            r == self.0,
    {
        self.0
    }

    /// The raw index, widened for use as a position.
    pub fn index(self) -> (r: usize)
        ensures
            r == self.0,
    {
        self.0 as usize
    }

    /// The value that stands for "no index".
    pub fn reserved_value() -> (r: Self)
        ensures
            r.spec_is_reserved(),
    {
        ElemIndex(u32::MAX)
    }

    /// Whether an index is the reserved one.
    pub open spec fn spec_is_reserved(self) -> bool {
        self.0 == u32::MAX
    }

    /// Whether this is the value that stands for "no index".
    pub fn is_reserved_value(&self) -> (r: bool)
        ensures
            r == self.spec_is_reserved(),
    {
        self.0 == u32::MAX
    }
}

/// The index of a data segment.
#[derive(Debug, Clone, Copy, PartialEq, Eq, Hash, PartialOrd, Ord, Structural)]
pub struct DataIndex(pub u32);

impl DataIndex {
    /// Wraps a raw index.
    pub fn from_u32(x: u32) -> (r: Self)
        requires
            x < u32::MAX,
        ensures
            r.0 == x,
            !r.spec_is_reserved(),
    {
        DataIndex(x)
    }

    /// The raw index.
    pub fn as_u32(self) -> (r: u32)
        ensures
            r == self.0,
    {
        self.0
    }

    /// The raw index, widened for use as a position.
    pub fn index(self) -> (r: usize)
        ensures
            r == self.0,
    {
        self.0 as usize
    }

    /// The value that stands for "no index".
    pub fn reserved_value() -> (r: Self)
        ensures
            r.spec_is_reserved(),
    {
        DataIndex(u32::MAX)
    }

    /// Whether an index is the reserved one.
    pub open spec fn spec_is_reserved(self) -> bool {
        self.0 == u32::MAX
    }

    /// Whether this is the value that stands for "no index".
    pub fn is_reserved_value(&self) -> (r: bool)
        ensures
            r == self.spec_is_reserved(),
    {
        self.0 == u32::MAX
    }
}

/// The index of a slot in the table of function references.
#[derive(Debug, Clone, Copy, PartialEq, Eq, Hash, PartialOrd, Ord, Structural)]
pub struct FuncRefIndex(pub u32);

impl FuncRefIndex {
    /// Wraps a raw index.
    pub fn from_u32(x: u32) -> (r: Self)
        requires
            x < u32::MAX,
        ensures
            r.0 == x,
            !r.spec_is_reserved(),
    {
        FuncRefIndex(x)
    }

    /// The raw index.
    pub fn as_u32(self) -> (r: u32)
        ensures
            r == self.0,
    {
        self.0
    }

    /// The raw index, widened for use as a position.
    pub fn index(self) -> (r: usize)
        ensures
            r == self.0,
    {
        self.0 as usize
    }

    /// The value that stands for "no index".
    pub fn reserved_value() -> (r: Self)
        ensures
            r.spec_is_reserved(),
    {
        FuncRefIndex(u32::MAX)
    }

    /// Whether an index is the reserved one.
    pub open spec fn spec_is_reserved(self) -> bool {
        self.0 == u32::MAX
    }

    /// Whether this is the value that stands for "no index".
    pub fn is_reserved_value(&self) -> (r: bool)
        ensures
            r == self.spec_is_reserved(),
    {
        self.0 == u32::MAX
    }
}

/// The index of a local variable of a function.
#[derive(Debug, Clone, Copy, PartialEq, Eq, Hash, PartialOrd, Ord, Structural)]
pub struct LocalIndex(pub u32);

impl LocalIndex {
    /// Wraps a raw index.
    pub fn from_u32(x: u32) -> (r: Self)
        requires
            x < u32::MAX,
        ensures
            r.0 == x,
            !r.spec_is_reserved(),
    {
        LocalIndex(x)
    }

    /// The raw index.
    pub fn as_u32(self) -> (r: u32)
        ensures
            r == self.0,
    {
        self.0
    }

    /// The raw index, widened for use as a position.
    pub fn index(self) -> (r: usize)
        ensures
            r == self.0,
    {
        self.0 as usize
    }

    /// The value that stands for "no index".
    pub fn reserved_value() -> (r: Self)
        ensures
            r.spec_is_reserved(),
    {
        LocalIndex(u32::MAX)
    }

    /// Whether an index is the reserved one.
    pub open spec fn spec_is_reserved(self) -> bool {
        self.0 == u32::MAX
    }

    /// Whether this is the value that stands for "no index".
    pub fn is_reserved_value(&self) -> (r: bool)
        ensures
            r == self.spec_is_reserved(),
    {
        self.0 == u32::MAX
    }
}

/// The index of a field of a struct type.
#[derive(Debug, Clone, Copy, PartialEq, Eq, Hash, PartialOrd, Ord, Structural)]
pub struct FieldIndex(pub u32);

impl FieldIndex {
    /// Wraps a raw index.
    pub fn from_u32(x: u32) -> (r: Self)
        requires
            x < u32::MAX,
        ensures
            r.0 == x,
            !r.spec_is_reserved(),
    {
        FieldIndex(x)
    }

    /// The raw index.
    pub fn as_u32(self) -> (r: u32)
        ensures
            r == self.0,
    {
        self.0
    }

    /// The raw index, widened for use as a position.
    pub fn index(self) -> (r: usize)
        ensures
            r == self.0,
    {
        self.0 as usize
    }

    /// The value that stands for "no index".
    pub fn reserved_value() -> (r: Self)
        ensures
            r.spec_is_reserved(),
    {
        FieldIndex(u32::MAX)
    }

    /// Whether an index is the reserved one.
    pub open spec fn spec_is_reserved(self) -> bool {
        self.0 == u32::MAX
    }

    /// Whether this is the value that stands for "no index".
    pub fn is_reserved_value(&self) -> (r: bool)
        ensures
            r == self.spec_is_reserved(),
    {
        self.0 == u32::MAX
    }
}

/// The index of a tag, imported or defined.
#[derive(Debug, Clone, Copy, PartialEq, Eq, Hash, PartialOrd, Ord, Structural)]
pub struct TagIndex(pub u32);

impl TagIndex {
    /// Wraps a raw index.
    pub fn from_u32(x: u32) -> (r: Self)
        requires
            x < u32::MAX,
        ensures
            r.0 == x,
            !r.spec_is_reserved(),
    {
        TagIndex(x)
    }

    /// The raw index.
    pub fn as_u32(self) -> (r: u32)
        ensures
            r == self.0,
    {
        self.0
    }

    /// The raw index, widened for use as a position.
    pub fn index(self) -> (r: usize)
        ensures
            r == self.0,
    {
        self.0 as usize
    }

    /// The value that stands for "no index".
    pub fn reserved_value() -> (r: Self)
        ensures
            r.spec_is_reserved(),
    {
        TagIndex(u32::MAX)
    }

    /// Whether an index is the reserved one.
    pub open spec fn spec_is_reserved(self) -> bool {
        self.0 == u32::MAX
    }

    /// Whether this is the value that stands for "no index".
    pub fn is_reserved_value(&self) -> (r: bool)
        ensures
            r == self.spec_is_reserved(),
    {
        self.0 == u32::MAX
    }
}

/// The index of a label in a function, numbered in the order in which blocks appear.
#[derive(Debug, Clone, Copy, PartialEq, Eq, Hash, PartialOrd, Ord, Structural)]
pub struct LabelIndex(pub u32);

impl LabelIndex {
    /// Wraps a raw index.
    pub fn from_u32(x: u32) -> (r: Self)
        requires
            x < u32::MAX,
        ensures
            r.0 == x,
            !r.spec_is_reserved(),
    {
        LabelIndex(x)
    }

    /// The raw index.
    pub fn as_u32(self) -> (r: u32)
        ensures
            r == self.0,
    {
        self.0
    }

    /// The raw index, widened for use as a position.
    pub fn index(self) -> (r: usize)
        ensures
            r == self.0,
    {
        self.0 as usize
    }

    /// The value that stands for "no index".
    pub fn reserved_value() -> (r: Self)
        ensures
            r.spec_is_reserved(),
    {
        LabelIndex(u32::MAX)
    }

    /// Whether an index is the reserved one.
    pub open spec fn spec_is_reserved(self) -> bool {
        self.0 == u32::MAX
    }

    /// Whether this is the value that stands for "no index".
    pub fn is_reserved_value(&self) -> (r: bool)
        ensures
            r == self.spec_is_reserved(),
    {
        self.0 == u32::MAX
    }
}

/// The index of a type interned in one module.
#[derive(Debug, Clone, Copy, PartialEq, Eq, Hash, PartialOrd, Ord, Structural)]
pub struct ModuleInternedTypeIndex(pub u32);

impl ModuleInternedTypeIndex {
    /// Wraps a raw index.
    pub fn from_u32(x: u32) -> (r: Self)
        requires
            x < u32::MAX,
        ensures
            r.0 == x,
            !r.spec_is_reserved(),
    {
        ModuleInternedTypeIndex(x)
    }

    /// The raw index.
    pub fn as_u32(self) -> (r: u32)
        ensures
            r == self.0,
    {
        self.0
    }

    /// The raw index, widened for use as a position.
    pub fn index(self) -> (r: usize)
        ensures
            r == self.0,
    {
        self.0 as usize
    }

    /// The value that stands for "no index".
    pub fn reserved_value() -> (r: Self)
        ensures
            r.spec_is_reserved(),
    {
        ModuleInternedTypeIndex(u32::MAX)
    }

    /// Whether an index is the reserved one.
    pub open spec fn spec_is_reserved(self) -> bool {
        self.0 == u32::MAX
    }

    /// Whether this is the value that stands for "no index".
    pub fn is_reserved_value(&self) -> (r: bool)
        ensures
            r == self.spec_is_reserved(),
    {
        self.0 == u32::MAX
    }
}

/// The index of a recursion group interned in one module.
#[derive(Debug, Clone, Copy, PartialEq, Eq, Hash, PartialOrd, Ord, Structural)]
pub struct ModuleInternedRecGroupIndex(pub u32);

impl ModuleInternedRecGroupIndex {
    /// Wraps a raw index.
    pub fn from_u32(x: u32) -> (r: Self)
        requires
            x < u32::MAX,
        ensures
            r.0 == x,
            !r.spec_is_reserved(),
    {
        ModuleInternedRecGroupIndex(x)
    }

    /// The raw index.
    pub fn as_u32(self) -> (r: u32)
        ensures
            r == self.0,
    {
        self.0
    }

    /// The raw index, widened for use as a position.
    pub fn index(self) -> (r: usize)
        ensures
            r == self.0,
    {
        self.0 as usize
    }

    /// The value that stands for "no index".
    pub fn reserved_value() -> (r: Self)
        ensures
            r.spec_is_reserved(),
    {
        ModuleInternedRecGroupIndex(u32::MAX)
    }

    /// Whether an index is the reserved one.
    pub open spec fn spec_is_reserved(self) -> bool {
        self.0 == u32::MAX
    }

    /// Whether this is the value that stands for "no index".
    pub fn is_reserved_value(&self) -> (r: bool)
        ensures
            r == self.spec_is_reserved(),
    {
        self.0 == u32::MAX
    }
}

/// The index of a type canonicalized for a whole engine.
#[derive(Debug, Clone, Copy, PartialEq, Eq, Hash, PartialOrd, Ord, Structural)]
pub struct VMSharedTypeIndex(pub u32);

impl VMSharedTypeIndex {
    /// Wraps a raw index.
    pub fn from_u32(x: u32) -> (r: Self)
        requires
            x < u32::MAX,
        ensures
            r.0 == x,
            !r.spec_is_reserved(),
    {
        VMSharedTypeIndex(x)
    }

    /// The raw index.
    pub fn as_u32(self) -> (r: u32)
        ensures
            r == self.0,
    {
        self.0
    }

    /// The raw index, widened for use as a position.
    pub fn index(self) -> (r: usize)
        ensures
            r == self.0,
    {
        self.0 as usize
    }

    /// The value that stands for "no index".
    pub fn reserved_value() -> (r: Self)
        ensures
            r.spec_is_reserved(),
    {
        VMSharedTypeIndex(u32::MAX)
    }

    /// Whether an index is the reserved one.
    pub open spec fn spec_is_reserved(self) -> bool {
        self.0 == u32::MAX
    }

    /// Whether this is the value that stands for "no index".
    pub fn is_reserved_value(&self) -> (r: bool)
        ensures
            r == self.spec_is_reserved(),
    {
        self.0 == u32::MAX
    }
}

/// The index of a type relative to its recursion group.
#[derive(Debug, Clone, Copy, PartialEq, Eq, Hash, PartialOrd, Ord, Structural)]
pub struct RecGroupRelativeTypeIndex(pub u32);

impl RecGroupRelativeTypeIndex {
    /// Wraps a raw index.
    pub fn from_u32(x: u32) -> (r: Self)
        requires
            x < u32::MAX,
        ensures
            r.0 == x,
            !r.spec_is_reserved(),
    {
        RecGroupRelativeTypeIndex(x)
    }

    /// The raw index.
    pub fn as_u32(self) -> (r: u32)
        ensures
            r == self.0,
    {
        self.0
    }

    /// The raw index, widened for use as a position.
    pub fn index(self) -> (r: usize)
        ensures
            r == self.0,
    {
        self.0 as usize
    }

    /// The value that stands for "no index".
    pub fn reserved_value() -> (r: Self)
        ensures
            r.spec_is_reserved(),
    {
        RecGroupRelativeTypeIndex(u32::MAX)
    }

    /// Whether an index is the reserved one.
    pub open spec fn spec_is_reserved(self) -> bool {
        self.0 == u32::MAX
    }

    /// Whether this is the value that stands for "no index".
    pub fn is_reserved_value(&self) -> (r: bool)
        ensures
            r == self.spec_is_reserved(),
    {
        self.0 == u32::MAX
    }
}

impl Default for VMSharedTypeIndex {
    /// The reserved index.
    fn default() -> (r: Self)
        ensures
            r == VMSharedTypeIndex(u32::MAX),
    {
        VMSharedTypeIndex(u32::MAX)
    }
}

/// The index of anything that a module can import or export.
#[derive(Debug, Clone, Copy, PartialEq, Eq, Hash, PartialOrd, Ord, Structural)]
pub enum EntityIndex {
    /// A function.
    Function(FuncIndex),
    /// A table.
    Table(TableIndex),
    /// A linear memory.
    Memory(MemoryIndex),
    /// A global.
    Global(GlobalIndex),
    /// A tag.
    Tag(TagIndex),
}

impl EntityIndex {
    /// Whether this is a `Function` index.
    pub fn is_func(&self) -> (r: bool)
        ensures
            r == (*self is Function),
    {
        matches!(self, EntityIndex::Function(_))
    }

    /// The `Function` index, if this is one.
    pub fn func(&self) -> (r: Option<FuncIndex>)
        ensures
            r == match *self {
                EntityIndex::Function(e) => Some(e),
                _ => None,
            },
    {
        match self {
            EntityIndex::Function(e) => Some(*e),
            _ => None,
        }
    }

    /// The `Function` index of a value known to be one.
    pub fn unwrap_func(&self) -> (r: FuncIndex)
        requires
            *self is Function,
        ensures
            *self == EntityIndex::Function(r),
    {
        match self {
            EntityIndex::Function(e) => *e,
            _ => {
                assert(false);
                FuncIndex(0)
            },
        }
    }

    /// Whether this is a `Table` index.
    pub fn is_table(&self) -> (r: bool)
        ensures
            r == (*self is Table),
    {
        matches!(self, EntityIndex::Table(_))
    }

    /// The `Table` index, if this is one.
    pub fn table(&self) -> (r: Option<TableIndex>)
        ensures
            r == match *self {
                EntityIndex::Table(e) => Some(e),
                _ => None,
            },
    {
        match self {
            EntityIndex::Table(e) => Some(*e),
            _ => None,
        }
    }

    /// The `Table` index of a value known to be one.
    pub fn unwrap_table(&self) -> (r: TableIndex)
        requires
            *self is Table,
        ensures
            *self == EntityIndex::Table(r),
    {
        match self {
            EntityIndex::Table(e) => *e,
            _ => {
                assert(false);
                TableIndex(0)
            },
        }
    }

    /// Whether this is a `Memory` index.
    pub fn is_memory(&self) -> (r: bool)
        ensures
            r == (*self is Memory),
    {
        matches!(self, EntityIndex::Memory(_))
    }

    /// The `Memory` index, if this is one.
    pub fn memory(&self) -> (r: Option<MemoryIndex>)
        ensures
            r == match *self {
                EntityIndex::Memory(e) => Some(e),
                _ => None,
            },
    {
        match self {
            EntityIndex::Memory(e) => Some(*e),
            _ => None,
        }
    }

    /// The `Memory` index of a value known to be one.
    pub fn unwrap_memory(&self) -> (r: MemoryIndex)
        requires
            *self is Memory,
        ensures
            *self == EntityIndex::Memory(r),
    {
        match self {
            EntityIndex::Memory(e) => *e,
            _ => {
                assert(false);
                MemoryIndex(0)
            },
        }
    }

    /// Whether this is a `Global` index.
    pub fn is_global(&self) -> (r: bool)
        ensures
            r == (*self is Global),
    {
        matches!(self, EntityIndex::Global(_))
    }

    /// The `Global` index, if this is one.
    pub fn global(&self) -> (r: Option<GlobalIndex>)
        ensures
            r == match *self {
                EntityIndex::Global(e) => Some(e),
                _ => None,
            },
    {
        match self {
            EntityIndex::Global(e) => Some(*e),
            _ => None,
        }
    }

    /// The `Global` index of a value known to be one.
    pub fn unwrap_global(&self) -> (r: GlobalIndex)
        requires
            *self is Global,
        ensures
            *self == EntityIndex::Global(r),
    {
        match self {
            EntityIndex::Global(e) => *e,
            _ => {
                assert(false);
                GlobalIndex(0)
            },
        }
    }

    /// Whether this is a `Tag` index.
    pub fn is_tag(&self) -> (r: bool)
        ensures
            r == (*self is Tag),
    {
        matches!(self, EntityIndex::Tag(_))
    }

    /// The `Tag` index, if this is one.
    pub fn tag(&self) -> (r: Option<TagIndex>)
        ensures
            r == match *self {
                EntityIndex::Tag(e) => Some(e),
                _ => None,
            },
    {
        match self {
            EntityIndex::Tag(e) => Some(*e),
            _ => None,
        }
    }

    /// The `Tag` index of a value known to be one.
    pub fn unwrap_tag(&self) -> (r: TagIndex)
        requires
            *self is Tag,
        ensures
            *self == EntityIndex::Tag(r),
    {
        match self {
            EntityIndex::Tag(e) => *e,
            _ => {
                assert(false);
                TagIndex(0)
            },
        }
    }
}

/// An index of a type, together with the scope in which it is canonicalized.
#[derive(Debug, Clone, Copy, PartialEq, Eq, Hash, PartialOrd, Ord, Structural)]
pub enum CanonicalizedTypeIndex {
    /// Canonicalized within one module only.
    Module(ModuleInternedTypeIndex),
    /// Canonicalized among all modules of an engine.
    Engine(VMSharedTypeIndex),
    /// Relative to the recursion group that contains the type.
    RecGroup(RecGroupRelativeTypeIndex),
}

impl CanonicalizedTypeIndex {
    /// Whether this is a `Module` index.
    pub fn is_module_type_index(&self) -> (r: bool)
        ensures
            r == (*self is Module),
    {
        matches!(self, CanonicalizedTypeIndex::Module(_))
    }

    /// The `Module` index, if this is one.
    pub fn as_module_type_index(&self) -> (r: Option<ModuleInternedTypeIndex>)
        ensures
            r == match *self {
                CanonicalizedTypeIndex::Module(e) => Some(e),
                _ => None,
            },
    {
        match self {
            CanonicalizedTypeIndex::Module(e) => Some(*e),
            _ => None,
        }
    }

    /// The `Module` index of a value known to be one.
    pub fn unwrap_module_type_index(&self) -> (r: ModuleInternedTypeIndex)
        requires
            *self is Module,
        ensures
            *self == CanonicalizedTypeIndex::Module(r),
    {
        match self {
            CanonicalizedTypeIndex::Module(e) => *e,
            _ => {
                assert(false);
                ModuleInternedTypeIndex(0)
            },
        }
    }

    /// Whether this is a `Engine` index.
    pub fn is_engine_type_index(&self) -> (r: bool)
        ensures
            r == (*self is Engine),
    {
        matches!(self, CanonicalizedTypeIndex::Engine(_))
    }

    /// The `Engine` index, if this is one.
    pub fn as_engine_type_index(&self) -> (r: Option<VMSharedTypeIndex>)
        ensures
            r == match *self {
                CanonicalizedTypeIndex::Engine(e) => Some(e),
                _ => None,
            },
    {
        match self {
            CanonicalizedTypeIndex::Engine(e) => Some(*e),
            _ => None,
        }
    }

    /// The `Engine` index of a value known to be one.
    pub fn unwrap_engine_type_index(&self) -> (r: VMSharedTypeIndex)
        requires
            *self is Engine,
        ensures
            *self == CanonicalizedTypeIndex::Engine(r),
    {
        match self {
            CanonicalizedTypeIndex::Engine(e) => *e,
            _ => {
                assert(false);
                VMSharedTypeIndex(0)
            },
        }
    }

    /// Whether this is a `RecGroup` index.
    pub fn is_rec_group_type_index(&self) -> (r: bool)
        ensures
            r == (*self is RecGroup),
    {
        matches!(self, CanonicalizedTypeIndex::RecGroup(_))
    }

    /// The `RecGroup` index, if this is one.
    pub fn as_rec_group_type_index(&self) -> (r: Option<RecGroupRelativeTypeIndex>)
        ensures
            r == match *self {
                CanonicalizedTypeIndex::RecGroup(e) => Some(e),
                _ => None,
            },
    {
        match self {
            CanonicalizedTypeIndex::RecGroup(e) => Some(*e),
            _ => None,
        }
    }

    /// The `RecGroup` index of a value known to be one.
    pub fn unwrap_rec_group_type_index(&self) -> (r: RecGroupRelativeTypeIndex)
        requires
            *self is RecGroup,
        ensures
            *self == CanonicalizedTypeIndex::RecGroup(r),
    {
        match self {
            CanonicalizedTypeIndex::RecGroup(e) => *e,
            _ => {
                assert(false);
                RecGroupRelativeTypeIndex(0)
            },
        }
    }
}

impl From<ModuleInternedTypeIndex> for CanonicalizedTypeIndex {
    fn from(index: ModuleInternedTypeIndex) -> (r: Self) {
        CanonicalizedTypeIndex::Module(index)
    }
}

impl vstd::std_specs::convert::FromSpecImpl<ModuleInternedTypeIndex> for CanonicalizedTypeIndex {
    open spec fn obeys_from_spec() -> bool {
        true
    }

    open spec fn from_spec(index: ModuleInternedTypeIndex) -> Self {
        CanonicalizedTypeIndex::Module(index)
    }
}

impl From<VMSharedTypeIndex> for CanonicalizedTypeIndex {
    fn from(index: VMSharedTypeIndex) -> (r: Self) {
        CanonicalizedTypeIndex::Engine(index)
    }
}

impl vstd::std_specs::convert::FromSpecImpl<VMSharedTypeIndex> for CanonicalizedTypeIndex {
    open spec fn obeys_from_spec() -> bool {
        true
    }

    open spec fn from_spec(index: VMSharedTypeIndex) -> Self {
        CanonicalizedTypeIndex::Engine(index)
    }
}

impl From<RecGroupRelativeTypeIndex> for CanonicalizedTypeIndex {
    fn from(index: RecGroupRelativeTypeIndex) -> (r: Self) {
        CanonicalizedTypeIndex::RecGroup(index)
    }
}

impl vstd::std_specs::convert::FromSpecImpl<RecGroupRelativeTypeIndex> for CanonicalizedTypeIndex {
    open spec fn obeys_from_spec() -> bool {
        true
    }

    open spec fn from_spec(index: RecGroupRelativeTypeIndex) -> Self {
        CanonicalizedTypeIndex::RecGroup(index)
    }
}

} // verus!
