//! WebAssembly value types and the descriptions of tables, memories and globals.
use crate::errors::SizeOverflow;
use crate::indices::CanonicalizedTypeIndex;
use vstd::prelude::*;

verus! {

/// The largest number of bytes that a 32-bit memory can hold.
pub const WASM32_MAX_SIZE: u64 = 0x1_0000_0000;

/// The largest number of standard pages of a 32-bit memory.
pub const WASM32_MAX_PAGES: u64 = 0x1_0000;

/// The largest number of standard pages of a 64-bit memory.
pub const WASM64_MAX_PAGES: u64 = 0x1_0000_0000_0000;

/// The kinds of heap types.
#[derive(Debug, Clone, Copy, PartialEq, Eq, Structural)]
pub enum WasmHeapTypeInner {
    Extern,
    NoExtern,
    Func,
    NoFunc,
    ConcreteFunc(CanonicalizedTypeIndex),
    Any,
    Eq,
    I31,
    Array,
    ConcreteArray(CanonicalizedTypeIndex),
    Struct,
    ConcreteStruct(CanonicalizedTypeIndex),
    NoAny,
    Exn,
    NoExn,
    Cont,
    NoCont,
}

/// The tops of the heap type hierarchies.
#[derive(Debug, Clone, Copy, PartialEq, Eq, Structural)]
pub enum WasmHeapTopType {
    Extern,
    Any,
    Func,
    Exn,
    Cont,
}

/// A heap type.
#[derive(Debug, Clone, Copy, PartialEq, Eq, Structural)]
pub struct WasmHeapType {
    pub shared: bool,
    pub ty: WasmHeapTypeInner,
}

impl WasmHeapType {
    /// The top of the hierarchy that the type belongs to.
    pub open spec fn spec_top(self) -> WasmHeapTopType {
        match self.ty {
            WasmHeapTypeInner::Extern | WasmHeapTypeInner::NoExtern => WasmHeapTopType::Extern,
            WasmHeapTypeInner::Func | WasmHeapTypeInner::NoFunc | WasmHeapTypeInner::ConcreteFunc(
                _,
            ) => WasmHeapTopType::Func,
            WasmHeapTypeInner::Exn | WasmHeapTypeInner::NoExn => WasmHeapTopType::Exn,
            WasmHeapTypeInner::Cont | WasmHeapTypeInner::NoCont => WasmHeapTopType::Cont,
            _ => WasmHeapTopType::Any,
        }
    }

    /// The top of the hierarchy that the type belongs to.
    pub fn top(&self) -> (r: WasmHeapTopType)
        ensures
            r == self.spec_top(),
    {
        match self.ty {
            WasmHeapTypeInner::Extern | WasmHeapTypeInner::NoExtern => WasmHeapTopType::Extern,
            WasmHeapTypeInner::Func | WasmHeapTypeInner::NoFunc | WasmHeapTypeInner::ConcreteFunc(
                _,
            ) => WasmHeapTopType::Func,
            WasmHeapTypeInner::Exn | WasmHeapTypeInner::NoExn => WasmHeapTopType::Exn,
            WasmHeapTypeInner::Cont | WasmHeapTypeInner::NoCont => WasmHeapTopType::Cont,
            _ => WasmHeapTopType::Any,
        }
    }

    /// Whether values of the type are references into the collected heap.
    pub open spec fn spec_is_vmgcref_type(self) -> bool {
        self.spec_top() is Any || self.spec_top() is Extern
    }

    /// Whether values of the type are references into the collected heap.
    pub fn is_vmgcref_type(&self) -> (r: bool)
        ensures
            r == self.spec_is_vmgcref_type(),
    {
        matches!(self.top(), WasmHeapTopType::Any | WasmHeapTopType::Extern)
    }

    /// Whether the type names a declared type.
    pub open spec fn spec_is_concrete(self) -> bool {
        self.ty is ConcreteFunc || self.ty is ConcreteArray || self.ty is ConcreteStruct
    }

    /// Whether the type names a declared type.
    pub fn is_concrete(&self) -> (r: bool)
        ensures
            r == self.spec_is_concrete(),
    {
        matches!(
            self.ty,
            WasmHeapTypeInner::ConcreteFunc(_)
            | WasmHeapTypeInner::ConcreteArray(_)
            | WasmHeapTypeInner::ConcreteStruct(_)
        )
    }
}

/// A reference type.
#[derive(Debug, Clone, Copy, PartialEq, Eq, Structural)]
pub struct WasmRefType {
    pub nullable: bool,
    pub heap_type: WasmHeapType,
}

/// A value type.
#[derive(Debug, Clone, Copy, PartialEq, Eq, Structural)]
pub enum WasmValType {
    I32,
    I64,
    F32,
    F64,
    V128,
    Ref(WasmRefType),
}

/// The type of a function.
pub struct WasmFuncType {
    pub params: Vec<WasmValType>,
    pub results: Vec<WasmValType>,
}

/// A function type as sequences.
#[verifier::ext_equal]
pub struct FuncTypeModel {
    pub params: Seq<WasmValType>,
    pub results: Seq<WasmValType>,
}

impl View for WasmFuncType {
    type V = FuncTypeModel;

    open spec fn view(&self) -> FuncTypeModel {
        FuncTypeModel { params: self.params@, results: self.results@ }
    }
}

/// A table, as its module describes it.
#[derive(Debug, Clone, Copy, PartialEq, Eq, Structural)]
pub struct TableDesc {
    pub element_type: WasmRefType,
    pub minimum: u64,
    pub maximum: Option<u64>,
}

/// A global, as its module describes it.
#[derive(Debug, Clone, Copy, PartialEq, Eq, Structural)]
pub struct GlobalDesc {
    pub content_type: WasmValType,
    pub mutable: bool,
    pub shared: bool,
}

/// A linear memory, as its module describes it.
#[derive(Debug, Clone, Copy, PartialEq, Eq, Structural)]
pub struct MemoryDesc {
    /// The size at the start, in pages.
    pub minimum: u64,
    /// The size that the memory can grow to, in pages.
    pub maximum: Option<u64>,
    pub shared: bool,
    /// Whether the memory is indexed with 64-bit integers.
    pub memory64: bool,
    /// The binary logarithm of the page size.
    pub page_size_log2: u8,
    /// The number of guard bytes behind the memory.
    pub offset_guard_size: u64,
}

impl MemoryDesc {
    /// Page sizes fit in 64 bits.
    pub open spec fn wf(self) -> bool {
        self.page_size_log2 < 64
    }

    /// The page size in bytes.
    pub open spec fn spec_page_size(self) -> nat {
        vstd::arithmetic::power2::pow2(self.page_size_log2 as nat)
    }

    /// The page size in bytes.
    pub fn page_size(&self) -> (r: u64)
        requires
            self.wf(),
        ensures
            r == self.spec_page_size(),
            r > 0,
    {
        let log2: u64 = self.page_size_log2 as u64;
        proof {
            vstd::arithmetic::power2::lemma_pow2_pos(log2 as nat);
            if log2 < 63 {
                vstd::arithmetic::power2::lemma_pow2_strictly_increases(log2 as nat, 64);
            }
            vstd::arithmetic::power2::lemma2_to64_rest();
            vstd::bits::lemma_u64_shl_is_mul(1, log2);
        }
        1u64 << log2
    }

    /// The initial size in bytes, as a mathematical integer.
    pub open spec fn spec_minimum_bytes(self) -> int {
        self.minimum * self.spec_page_size()
    }

    /// The initial size in bytes, or an error where that exceeds 64 bits.
    pub fn minimum_byte_size(&self) -> (r: Result<u64, SizeOverflow>)
        requires
            self.wf(),
        ensures
            r is Ok <==> self.spec_minimum_bytes() <= u64::MAX,
            r matches Ok(n) ==> n == self.spec_minimum_bytes(),
    {
        match self.minimum.checked_mul(self.page_size()) {
            Some(n) => Ok(n),
            None => Err(SizeOverflow),
        }
    }

    /// The number of bytes that the index type can address.
    pub open spec fn spec_max_size_based_on_index_type(self) -> int {
        if self.memory64 {
            0x1_0000_0000_0000_0000 - self.spec_page_size()
        } else {
            WASM32_MAX_SIZE as int
        }
    }

    /// The number of bytes that the index type can address, less one page for 64-bit memories, so
    /// that the number fits in 64 bits.
    pub fn max_size_based_on_index_type(&self) -> (r: u64)
        requires
            self.wf(),
        ensures
            r == self.spec_max_size_based_on_index_type(),
    {
        if self.memory64 {
            let page: u64 = self.page_size();
            u64::MAX - page + 1
        } else {
            WASM32_MAX_SIZE
        }
    }

    /// The largest size in bytes, as a mathematical integer: the declared maximum, and without one
    /// what the index type can address, but no less than the initial size.
    pub open spec fn spec_maximum_bytes(self) -> int {
        match self.maximum {
            Some(max) => max * self.spec_page_size(),
            None => if self.spec_minimum_bytes() > self.spec_max_size_based_on_index_type() {
                self.spec_minimum_bytes()
            } else {
                self.spec_max_size_based_on_index_type()
            },
        }
    }

    /// The largest size in bytes, or an error where that exceeds 64 bits.
    pub fn maximum_byte_size(&self) -> (r: Result<u64, SizeOverflow>)
        requires
            self.wf(),
        ensures
            r is Ok <==> self.spec_maximum_bytes() <= u64::MAX,
            r matches Ok(n) ==> n == self.spec_maximum_bytes(),
    {
        match self.maximum {
            Some(max) => match max.checked_mul(self.page_size()) {
                Some(n) => Ok(n),
                None => Err(SizeOverflow),
            },
            None => {
                let limit: u64 = self.max_size_based_on_index_type();
                match self.minimum_byte_size() {
                    Ok(min) => if min > limit {
                        Ok(min)
                    } else {
                        Ok(limit)
                    },
                    Err(e) => Err(e),
                }
            },
        }
    }
}

/// The type of an import or export.
#[derive(Debug, Clone, Copy, PartialEq, Eq, Structural)]
pub enum EntityType {
    Function(CanonicalizedTypeIndex),
    Table(TableDesc),
    Memory(MemoryDesc),
    Global(GlobalDesc),
}

} // verus!
