//! The functions of the runtime that compiled code calls.
use crate::builder::{Code, FunctionBuilder};
use crate::cranelift::env::NS_BUILTIN;
use crate::ir::{
    AbiParam, ArgumentPurpose, ExtFuncData, FuncRef, SigRef, Signature, SignatureModel, Type,
};
use vstd::prelude::*;

verus! {

/// The number of builtin functions.
pub const BUILTIN_COUNT: u32 = 20;

/// A function of the runtime that compiled code calls.
#[derive(Debug, Clone, Copy, PartialEq, Eq, Structural)]
pub enum BuiltinFunction {
    /// `memory32_grow(ctx, i64, i32) -> ptr`
    Memory32Grow,
    /// `memory_copy(ctx, i32, i64, i32, i64, i64)`
    MemoryCopy,
    /// `memory_fill(ctx, i32, i64, i32, i64)`
    MemoryFill,
    /// `memory_init(ctx, i32, i32, i64, i32, i32)`
    MemoryInit,
    /// `data_drop(ctx, i32)`
    DataDrop,
    /// `table_copy(ctx, i32, i32, i32, i32, i32)`
    TableCopy,
    /// `table_init(ctx, i32, i32, i32, i32, i32)`
    TableInit,
    /// `elem_drop(ctx, i32)`
    ElemDrop,
    /// `ref_func(ctx, i32) -> ptr`
    RefFunc,
    /// `memory_atomic_notify(ctx, i32, i64, i32) -> i32`
    MemoryAtomicNotify,
    /// `memory_atomic_wait32(ctx, i32, i64, i32, i64) -> i32`
    MemoryAtomicWait32,
    /// `memory_atomic_wait64(ctx, i32, i64, i64, i64) -> i32`
    MemoryAtomicWait64,
    /// `malloc_start(ctx)`
    MallocStart,
    /// `check_malloc(ctx, i32, i32) -> i32`
    CheckMalloc,
    /// `free_start(ctx)`
    FreeStart,
    /// `check_free(ctx, i32) -> i32`
    CheckFree,
    /// `check_load(ctx, i32, i32, i64) -> i32`
    CheckLoad,
    /// `check_store(ctx, i32, i32, i64) -> i32`
    CheckStore,
    /// `update_stack_pointer(ctx, i32)`
    UpdateStackPointer,
    /// `update_mem_size(ctx, i32)`
    UpdateMemSize,
}

impl BuiltinFunction {
    /// The position of the function in the runtime's array of builtin functions.
    pub open spec fn spec_index(self) -> u32 {
        match self {
            BuiltinFunction::Memory32Grow => 0,
            BuiltinFunction::MemoryCopy => 1,
            BuiltinFunction::MemoryFill => 2,
            BuiltinFunction::MemoryInit => 3,
            BuiltinFunction::DataDrop => 4,
            BuiltinFunction::TableCopy => 5,
            BuiltinFunction::TableInit => 6,
            BuiltinFunction::ElemDrop => 7,
            BuiltinFunction::RefFunc => 8,
            BuiltinFunction::MemoryAtomicNotify => 9,
            BuiltinFunction::MemoryAtomicWait32 => 10,
            BuiltinFunction::MemoryAtomicWait64 => 11,
            BuiltinFunction::MallocStart => 12,
            BuiltinFunction::CheckMalloc => 13,
            BuiltinFunction::FreeStart => 14,
            BuiltinFunction::CheckFree => 15,
            BuiltinFunction::CheckLoad => 16,
            BuiltinFunction::CheckStore => 17,
            BuiltinFunction::UpdateStackPointer => 18,
            BuiltinFunction::UpdateMemSize => 19,
        }
    }

    /// The position of the function in the runtime's array of builtin functions.
    pub fn index(self) -> (r: u32)
        ensures
            r == self.spec_index(),
            r < BUILTIN_COUNT,
    {
        match self {
            BuiltinFunction::Memory32Grow => 0,
            BuiltinFunction::MemoryCopy => 1,
            BuiltinFunction::MemoryFill => 2,
            BuiltinFunction::MemoryInit => 3,
            BuiltinFunction::DataDrop => 4,
            BuiltinFunction::TableCopy => 5,
            BuiltinFunction::TableInit => 6,
            BuiltinFunction::ElemDrop => 7,
            BuiltinFunction::RefFunc => 8,
            BuiltinFunction::MemoryAtomicNotify => 9,
            BuiltinFunction::MemoryAtomicWait32 => 10,
            BuiltinFunction::MemoryAtomicWait64 => 11,
            BuiltinFunction::MallocStart => 12,
            BuiltinFunction::CheckMalloc => 13,
            BuiltinFunction::FreeStart => 14,
            BuiltinFunction::CheckFree => 15,
            BuiltinFunction::CheckLoad => 16,
            BuiltinFunction::CheckStore => 17,
            BuiltinFunction::UpdateStackPointer => 18,
            BuiltinFunction::UpdateMemSize => 19,
        }
    }

    /// The function at a position.
    pub fn from_index(index: u32) -> (r: Option<BuiltinFunction>)
        ensures
            r matches Some(b) ==> b.spec_index() == index,
            r is None <==> index >= BUILTIN_COUNT,
    {
        match index {
            0 => Some(BuiltinFunction::Memory32Grow),
            1 => Some(BuiltinFunction::MemoryCopy),
            2 => Some(BuiltinFunction::MemoryFill),
            3 => Some(BuiltinFunction::MemoryInit),
            4 => Some(BuiltinFunction::DataDrop),
            5 => Some(BuiltinFunction::TableCopy),
            6 => Some(BuiltinFunction::TableInit),
            7 => Some(BuiltinFunction::ElemDrop),
            8 => Some(BuiltinFunction::RefFunc),
            9 => Some(BuiltinFunction::MemoryAtomicNotify),
            10 => Some(BuiltinFunction::MemoryAtomicWait32),
            11 => Some(BuiltinFunction::MemoryAtomicWait64),
            12 => Some(BuiltinFunction::MallocStart),
            13 => Some(BuiltinFunction::CheckMalloc),
            14 => Some(BuiltinFunction::FreeStart),
            15 => Some(BuiltinFunction::CheckFree),
            16 => Some(BuiltinFunction::CheckLoad),
            17 => Some(BuiltinFunction::CheckStore),
            18 => Some(BuiltinFunction::UpdateStackPointer),
            19 => Some(BuiltinFunction::UpdateMemSize),
            _ => None,
        }
    }

    /// The name of the function.
    pub open spec fn spec_name(self) -> Seq<char> {
        match self {
            BuiltinFunction::Memory32Grow => "memory32_grow"@,
            BuiltinFunction::MemoryCopy => "memory_copy"@,
            BuiltinFunction::MemoryFill => "memory_fill"@,
            BuiltinFunction::MemoryInit => "memory_init"@,
            BuiltinFunction::DataDrop => "data_drop"@,
            BuiltinFunction::TableCopy => "table_copy"@,
            BuiltinFunction::TableInit => "table_init"@,
            BuiltinFunction::ElemDrop => "elem_drop"@,
            BuiltinFunction::RefFunc => "ref_func"@,
            BuiltinFunction::MemoryAtomicNotify => "memory_atomic_notify"@,
            BuiltinFunction::MemoryAtomicWait32 => "memory_atomic_wait32"@,
            BuiltinFunction::MemoryAtomicWait64 => "memory_atomic_wait64"@,
            BuiltinFunction::MallocStart => "malloc_start"@,
            BuiltinFunction::CheckMalloc => "check_malloc"@,
            BuiltinFunction::FreeStart => "free_start"@,
            BuiltinFunction::CheckFree => "check_free"@,
            BuiltinFunction::CheckLoad => "check_load"@,
            BuiltinFunction::CheckStore => "check_store"@,
            BuiltinFunction::UpdateStackPointer => "update_stack_pointer"@,
            BuiltinFunction::UpdateMemSize => "update_mem_size"@,
        }
    }

    /// The name of the function.
    pub fn name(self) -> (r: &'static str)
        ensures
            r@ == self.spec_name(),
    {
        match self {
            BuiltinFunction::Memory32Grow => "memory32_grow",
            BuiltinFunction::MemoryCopy => "memory_copy",
            BuiltinFunction::MemoryFill => "memory_fill",
            BuiltinFunction::MemoryInit => "memory_init",
            BuiltinFunction::DataDrop => "data_drop",
            BuiltinFunction::TableCopy => "table_copy",
            BuiltinFunction::TableInit => "table_init",
            BuiltinFunction::ElemDrop => "elem_drop",
            BuiltinFunction::RefFunc => "ref_func",
            BuiltinFunction::MemoryAtomicNotify => "memory_atomic_notify",
            BuiltinFunction::MemoryAtomicWait32 => "memory_atomic_wait32",
            BuiltinFunction::MemoryAtomicWait64 => "memory_atomic_wait64",
            BuiltinFunction::MallocStart => "malloc_start",
            BuiltinFunction::CheckMalloc => "check_malloc",
            BuiltinFunction::FreeStart => "free_start",
            BuiltinFunction::CheckFree => "check_free",
            BuiltinFunction::CheckLoad => "check_load",
            BuiltinFunction::CheckStore => "check_store",
            BuiltinFunction::UpdateStackPointer => "update_stack_pointer",
            BuiltinFunction::UpdateMemSize => "update_mem_size",
        }
    }

    /// The parameters of the function.
    pub open spec fn spec_params(self, pointer_type: Type) -> Seq<AbiParam> {
        let ctx = AbiParam { ty: pointer_type, purpose: ArgumentPurpose::VMContext };
        match self {
            BuiltinFunction::Memory32Grow => seq![ctx, normal(Type::I64), normal(Type::I32)],
            BuiltinFunction::MemoryCopy => seq![ctx, normal(Type::I32), normal(Type::I64), normal(Type::I32), normal(Type::I64), normal(Type::I64)],
            BuiltinFunction::MemoryFill => seq![ctx, normal(Type::I32), normal(Type::I64), normal(Type::I32), normal(Type::I64)],
            BuiltinFunction::MemoryInit => seq![ctx, normal(Type::I32), normal(Type::I32), normal(Type::I64), normal(Type::I32), normal(Type::I32)],
            BuiltinFunction::DataDrop => seq![ctx, normal(Type::I32)],
            BuiltinFunction::TableCopy => seq![ctx, normal(Type::I32), normal(Type::I32), normal(Type::I32), normal(Type::I32), normal(Type::I32)],
            BuiltinFunction::TableInit => seq![ctx, normal(Type::I32), normal(Type::I32), normal(Type::I32), normal(Type::I32), normal(Type::I32)],
            BuiltinFunction::ElemDrop => seq![ctx, normal(Type::I32)],
            BuiltinFunction::RefFunc => seq![ctx, normal(Type::I32)],
            BuiltinFunction::MemoryAtomicNotify => seq![ctx, normal(Type::I32), normal(Type::I64), normal(Type::I32)],
            BuiltinFunction::MemoryAtomicWait32 => seq![ctx, normal(Type::I32), normal(Type::I64), normal(Type::I32), normal(Type::I64)],
            BuiltinFunction::MemoryAtomicWait64 => seq![ctx, normal(Type::I32), normal(Type::I64), normal(Type::I64), normal(Type::I64)],
            BuiltinFunction::MallocStart => seq![ctx],
            BuiltinFunction::CheckMalloc => seq![ctx, normal(Type::I32), normal(Type::I32)],
            BuiltinFunction::FreeStart => seq![ctx],
            BuiltinFunction::CheckFree => seq![ctx, normal(Type::I32)],
            BuiltinFunction::CheckLoad => seq![ctx, normal(Type::I32), normal(Type::I32), normal(Type::I64)],
            BuiltinFunction::CheckStore => seq![ctx, normal(Type::I32), normal(Type::I32), normal(Type::I64)],
            BuiltinFunction::UpdateStackPointer => seq![ctx, normal(Type::I32)],
            BuiltinFunction::UpdateMemSize => seq![ctx, normal(Type::I32)],
        }
    }

    /// The results of the function.
    pub open spec fn spec_results(self, pointer_type: Type) -> Seq<AbiParam> {
        match self {
            BuiltinFunction::Memory32Grow | BuiltinFunction::RefFunc => seq![normal(pointer_type)],
            BuiltinFunction::MemoryAtomicNotify | BuiltinFunction::MemoryAtomicWait32 | BuiltinFunction::MemoryAtomicWait64 | BuiltinFunction::CheckMalloc | BuiltinFunction::CheckFree | BuiltinFunction::CheckLoad | BuiltinFunction::CheckStore => seq![normal(Type::I32)],
            _ => Seq::empty(),
        }
    }

    /// The signature of the function.
    pub open spec fn spec_signature(self, pointer_type: Type) -> SignatureModel {
        SignatureModel {
            params: self.spec_params(pointer_type),
            returns: self.spec_results(pointer_type),
        }
    }
}

/// A parameter or result that the calling convention gives no role.
pub open spec fn normal(ty: Type) -> AbiParam {
    AbiParam { ty, purpose: ArgumentPurpose::Normal }
}

/// The signatures of the builtin functions on one target.
#[derive(Debug, Clone, Copy, PartialEq, Eq, Structural)]
pub struct BuiltinFunctionSignatures {
    pub pointer_type: Type,
}

impl BuiltinFunctionSignatures {
    /// The signatures for pointers of a type.
    pub fn new(pointer_type: Type) -> (r: Self)
        ensures
            r.pointer_type == pointer_type,
    {
        BuiltinFunctionSignatures { pointer_type }
    }

    /// The context of the caller.
    fn vmctx(&self) -> (r: AbiParam)
        ensures
            r == (AbiParam { ty: self.pointer_type, purpose: ArgumentPurpose::VMContext }),
    {
        AbiParam { ty: self.pointer_type, purpose: ArgumentPurpose::VMContext }
    }

    /// A native pointer.
    fn pointer(&self) -> (r: AbiParam)
        ensures
            r == normal(self.pointer_type),
    {
        AbiParam { ty: self.pointer_type, purpose: ArgumentPurpose::Normal }
    }

    /// A 32-bit integer.
    fn i32(&self) -> (r: AbiParam)
        ensures
            r == normal(Type::I32),
    {
        AbiParam { ty: Type::I32, purpose: ArgumentPurpose::Normal }
    }

    /// A 64-bit integer.
    fn i64(&self) -> (r: AbiParam)
        ensures
            r == normal(Type::I64),
    {
        AbiParam { ty: Type::I64, purpose: ArgumentPurpose::Normal }
    }

    /// The signature of a builtin function.
    pub fn signature(&self, builtin: BuiltinFunction) -> (r: Signature)
        ensures
            r@ == builtin.spec_signature(self.pointer_type),
    {
        let params: Vec<AbiParam> = match builtin {
            BuiltinFunction::Memory32Grow => vec![self.vmctx(), self.i64(), self.i32()],
            BuiltinFunction::MemoryCopy => vec![self.vmctx(), self.i32(), self.i64(), self.i32(), self.i64(), self.i64()],
            BuiltinFunction::MemoryFill => vec![self.vmctx(), self.i32(), self.i64(), self.i32(), self.i64()],
            BuiltinFunction::MemoryInit => vec![self.vmctx(), self.i32(), self.i32(), self.i64(), self.i32(), self.i32()],
            BuiltinFunction::DataDrop => vec![self.vmctx(), self.i32()],
            BuiltinFunction::TableCopy => vec![self.vmctx(), self.i32(), self.i32(), self.i32(), self.i32(), self.i32()],
            BuiltinFunction::TableInit => vec![self.vmctx(), self.i32(), self.i32(), self.i32(), self.i32(), self.i32()],
            BuiltinFunction::ElemDrop => vec![self.vmctx(), self.i32()],
            BuiltinFunction::RefFunc => vec![self.vmctx(), self.i32()],
            BuiltinFunction::MemoryAtomicNotify => vec![self.vmctx(), self.i32(), self.i64(), self.i32()],
            BuiltinFunction::MemoryAtomicWait32 => vec![self.vmctx(), self.i32(), self.i64(), self.i32(), self.i64()],
            BuiltinFunction::MemoryAtomicWait64 => vec![self.vmctx(), self.i32(), self.i64(), self.i64(), self.i64()],
            BuiltinFunction::MallocStart => vec![self.vmctx()],
            BuiltinFunction::CheckMalloc => vec![self.vmctx(), self.i32(), self.i32()],
            BuiltinFunction::FreeStart => vec![self.vmctx()],
            BuiltinFunction::CheckFree => vec![self.vmctx(), self.i32()],
            BuiltinFunction::CheckLoad => vec![self.vmctx(), self.i32(), self.i32(), self.i64()],
            BuiltinFunction::CheckStore => vec![self.vmctx(), self.i32(), self.i32(), self.i64()],
            BuiltinFunction::UpdateStackPointer => vec![self.vmctx(), self.i32()],
            BuiltinFunction::UpdateMemSize => vec![self.vmctx(), self.i32()],
        };
        let rets: Vec<AbiParam> = match builtin {
            BuiltinFunction::Memory32Grow | BuiltinFunction::RefFunc => vec![self.pointer()],
            BuiltinFunction::MemoryAtomicNotify | BuiltinFunction::MemoryAtomicWait32 | BuiltinFunction::MemoryAtomicWait64 | BuiltinFunction::CheckMalloc | BuiltinFunction::CheckFree | BuiltinFunction::CheckLoad | BuiltinFunction::CheckStore => vec![self.i32()],
            _ => vec![],
        };
        assert(params@ =~= builtin.spec_params(self.pointer_type));
        assert(rets@ =~= builtin.spec_results(self.pointer_type));
        Signature { params, returns: rets }
    }
}

/// The builtin functions that a function has declared, each at most once.
pub struct BuiltinFunctions {
    types: BuiltinFunctionSignatures,
    builtins: Vec<Option<FuncRef>>,
}

/// What a function has declared of the builtin functions.
#[verifier::ext_equal]
pub struct DeclaredBuiltins {
    pub pointer_type: Type,
    /// The declarations, by the position of the builtin function.
    pub builtins: Seq<Option<FuncRef>>,
}

impl View for BuiltinFunctions {
    type V = DeclaredBuiltins;

    closed spec fn view(&self) -> DeclaredBuiltins {
        DeclaredBuiltins { pointer_type: self.types.pointer_type, builtins: self.builtins@ }
    }
}

impl DeclaredBuiltins {
    /// Every declaration names its builtin function.
    pub open spec fn ready(self, code: Code) -> bool {
        &&& self.builtins.len() == BUILTIN_COUNT
        &&& forall|b: BuiltinFunction|
            #![trigger self.builtins[b.spec_index() as int]]
            self.builtins[b.spec_index() as int] matches Some(f) ==> self.names(code, b, f)
    }

    /// Whether a declared function is the given builtin function.
    pub open spec fn names(self, code: Code, b: BuiltinFunction, f: FuncRef) -> bool {
        &&& code.has_func(f)
        &&& code.sig_of(f) == b.spec_signature(self.pointer_type)
        &&& code.funcs[f.0 as int].namespace == NS_BUILTIN
        &&& code.funcs[f.0 as int].index == b.spec_index()
    }

    /// The code that declares a builtin function, unless it is declared already.
    pub open spec fn loaded(self, code: Code, b: BuiltinFunction) -> (
        Code,
        DeclaredBuiltins,
        FuncRef,
    ) {
        match self.builtins[b.spec_index() as int] {
            Some(f) => (code, self, f),
            None => {
                let f = FuncRef(code.funcs.len() as usize);
                (
                    Code {
                        sigs: code.sigs.push(b.spec_signature(self.pointer_type)),
                        funcs: code.funcs.push(
                            ExtFuncData {
                                namespace: NS_BUILTIN,
                                index: b.spec_index(),
                                signature: SigRef(code.sigs.len() as usize),
                                colocated: true,
                            },
                        ),
                        ..code
                    },
                    DeclaredBuiltins {
                        builtins: self.builtins.update(b.spec_index() as int, Some(f)),
                        ..self
                    },
                    f,
                )
            },
        }
    }
}

/// No two builtin functions share a position.
pub proof fn positions_are_distinct(a: BuiltinFunction, b: BuiltinFunction)
    ensures
        a.spec_index() == b.spec_index() <==> a == b,
        a.spec_index() < BUILTIN_COUNT,
{
}

impl BuiltinFunctions {
    /// Nothing is declared yet.
    pub fn new(pointer_type: Type) -> (r: Self)
        ensures
            r@.pointer_type == pointer_type,
            r@.builtins == Seq::new(BUILTIN_COUNT as nat, |i: int| None::<FuncRef>),
    {
        let mut builtins: Vec<Option<FuncRef>> = Vec::new();
        for i in 0..BUILTIN_COUNT
            invariant
                builtins@ == Seq::new(i as nat, |k: int| None::<FuncRef>),
        {
            builtins.push(None);
            assert(builtins@ =~= Seq::new((i + 1) as nat, |k: int| None::<FuncRef>));
        }
        BuiltinFunctions { types: BuiltinFunctionSignatures::new(pointer_type), builtins }
    }

    /// The declaration of a builtin function.
    pub fn load_builtin(&mut self, func: &mut FunctionBuilder, builtin: BuiltinFunction) -> (r:
        FuncRef)
        requires
            old(self)@.ready(old(func)@),
        ensures
            (final(func)@, final(self)@, r) == old(self)@.loaded(old(func)@, builtin),
            final(self)@.ready(final(func)@),
            final(func)@.declared(old(func)@),
            final(func)@.has_func(r),
            final(func)@.sig_of(r) == builtin.spec_signature(old(self)@.pointer_type),
    {
        let index: usize = builtin.index() as usize;
        match self.builtins[index] {
            Some(f) => f,
            None => {
                let signature = func.import_signature(self.types.signature(builtin));
                let f = func.import_function(
                    ExtFuncData {
                        namespace: NS_BUILTIN,
                        index: builtin.index(),
                        signature,
                        colocated: true,
                    },
                );
                self.builtins.set(index, Some(f));
                proof {
                    assert forall|b: BuiltinFunction|
                        #![trigger self@.builtins[b.spec_index() as int]]
                        self@.builtins[b.spec_index() as int] is Some implies self@.names(
                        func@,
                        b,
                        self@.builtins[b.spec_index() as int]->0,
                    ) by {
                        positions_are_distinct(b, builtin);
                        assert(b != builtin ==> old(self)@.builtins[b.spec_index() as int]
                            == self@.builtins[b.spec_index() as int]);
                    }
                }
                f
            },
        }
    }
}

} // verus!
