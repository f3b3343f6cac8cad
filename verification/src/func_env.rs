//! The environment that lowers memory, table and reference operators to calls of builtin functions,
//! and that places the heaps of a module.
use crate::builder::{Code, FunctionBuilder};
use crate::builtins::{BuiltinFunction, BuiltinFunctions, DeclaredBuiltins};
use crate::cranelift::env::TargetIsa;
use crate::cranelift::table::CraneliftGlobal;
use crate::indices::{
    DefinedMemoryIndex, FuncIndex, GlobalIndex, MemoryIndex, TableIndex,
};
use crate::ir::{
    ConvertOp, Fact, FuncRef, GlobalValue, GlobalValueData, ImmOp, IntCC, MemFlags,
    MemoryType, MemoryTypeField, MemoryTypeModel, Op, StepModel, TrapCode, Type, UnaryOp, Value,
};
use crate::translate::TranslatedModule;
use crate::types::{MemoryDesc, WasmHeapTopType, WasmHeapType};
use crate::vmoffsets::VMOffsets;
use vstd::prelude::*;

verus! {

/// The size of a page of linear memory.
pub const WASM_PAGE_SIZE: u32 = 0x1_0000;

/// The bit that tells small integers from pointers.
pub const I31_REF_DISCRIMINANT: u32 = 1;

/// How the address space of a memory is laid out.
#[derive(Debug, Clone, Copy, PartialEq, Eq, Structural)]
pub enum MemoryStyle {
    /// The memory is reserved for its largest size, and never moves.
    Static { max_pages: u32 },
    /// The memory grows, and can move.
    Dynamic,
}

/// A memory, and how it is laid out.
#[derive(Debug, Clone, Copy, PartialEq, Eq, Structural)]
pub struct MemoryPlan {
    pub memory: MemoryDesc,
    pub style: MemoryStyle,
}

/// How accesses to a heap are bounded.
#[derive(Debug, Clone, Copy, PartialEq, Eq, Structural)]
pub enum HeapStyle {
    Static { bound: u64 },
}

/// A heap that code accesses.
#[derive(Debug, Clone, Copy, PartialEq, Eq, Structural)]
pub struct HeapData {
    pub base: GlobalValue,
    pub min_size: u64,
    pub max_size: Option<u64>,
    pub offset_guard_size: u64,
    pub style: HeapStyle,
    pub index_type: Type,
    pub memory_type: Option<MemoryType>,
}

/// The number of a heap.
#[derive(Debug, Clone, Copy, PartialEq, Eq, Structural)]
pub struct Heap(pub usize);

/// The environment of the functions of one module.
pub struct FuncEnvironment<'a> {
    isa: TargetIsa,
    module: &'a TranslatedModule,
    memory_plans: &'a Vec<MemoryPlan>,
    func_names: &'a Vec<(FuncIndex, String)>,
    offsets: VMOffsets,
    builtin_functions: BuiltinFunctions,
    wmemcheck: bool,
    debug_assertions: bool,
    heaps: Vec<HeapData>,
    vmctx: Option<GlobalValue>,
    pcc_vmctx_memtype: Option<MemoryType>,
}

/// An environment, with its lists as sequences.
#[verifier::ext_equal]
pub struct EnvModel<'a> {
    pub isa: TargetIsa,
    pub module: &'a TranslatedModule,
    pub plans: Seq<MemoryPlan>,
    pub names: Seq<(FuncIndex, String)>,
    pub offsets: VMOffsets,
    pub builtins: DeclaredBuiltins,
    /// Whether loads, stores and allocations are reported to the runtime.
    pub wmemcheck: bool,
    /// Whether code checks its own assumptions.
    pub debug_assertions: bool,
    pub heaps: Seq<HeapData>,
    pub vmctx: Option<GlobalValue>,
    /// The region of the context, if code carries facts.
    pub memtype: Option<MemoryType>,
}

impl<'a> View for FuncEnvironment<'a> {
    type V = EnvModel<'a>;

    closed spec fn view(&self) -> EnvModel<'a> {
        EnvModel {
            isa: self.isa,
            module: self.module,
            plans: self.memory_plans@,
            names: self.func_names@,
            offsets: self.offsets,
            builtins: self.builtin_functions@,
            wmemcheck: self.wmemcheck,
            debug_assertions: self.debug_assertions,
            heaps: self.heaps@,
            vmctx: self.vmctx,
            memtype: self.pcc_vmctx_memtype,
        }
    }
}

/// The number of memories in a list that are not shared.
pub open spec fn unshared(plans: Seq<MemoryPlan>) -> nat
    decreases plans.len(),
{
    if plans.len() == 0 {
        0
    } else {
        unshared(plans.drop_last()) + if plans.last().memory.shared {
            0nat
        } else {
            1nat
        }
    }
}

/// The name of a function: the last one that a list of names gives to it.
pub open spec fn name_of(names: Seq<(FuncIndex, String)>, index: FuncIndex) -> Option<Seq<char>>
    decreases names.len(),
{
    if names.len() == 0 {
        None
    } else if names.last().0 == index {
        Some(names.last().1@)
    } else {
        name_of(names.drop_last(), index)
    }
}

/// The type of references that the collector manages.
pub open spec fn managed_type(pointer_type: Type) -> Type {
    if pointer_type is I32 {
        Type::R32
    } else {
        Type::R64
    }
}

impl<'a> EnvModel<'a> {
    /// The plans and the layout are those of the module, and every offset fits in an immediate.
    pub open spec fn wf(self) -> bool {
        &&& self.isa.wf()
        &&& self.module.wf()
        &&& self.offsets.wf()
        &&& self.offsets.describes(*self.module)
        &&& self.offsets.static_.ptr_size == self.isa.pointer_type.spec_bytes()
        &&& self.offsets.size <= i32::MAX
        &&& self.plans.len() == self.module.memories@.len()
        &&& self.builtins.pointer_type == self.isa.pointer_type
        &&& self.heaps.len() <= usize::MAX
    }

    /// Everything that the environment has declared exists.
    pub open spec fn ready(self, code: Code) -> bool {
        &&& self.wf()
        &&& self.builtins.ready(code)
        &&& self.memtype matches Some(mt) ==> code.is_struct(mt)
    }

    /// A builtin function declared.
    pub open spec fn loaded(self, code: Code, b: BuiltinFunction) -> (
        Code,
        EnvModel<'a>,
        FuncRef,
    ) {
        let (c, builtins, f) = self.builtins.loaded(code, b);
        (c, EnvModel { builtins, ..self }, f)
    }

    /// The code that makes the global value of the context, unless there is one already.
    pub open spec fn vmctx_made(self, code: Code) -> (Code, EnvModel<'a>, GlobalValue) {
        match self.vmctx {
            Some(gv) => (code, self, gv),
            None => {
                let gv = code.next_gv();
                let env = EnvModel { vmctx: Some(gv), ..self };
                if self.isa.enable_pcc {
                    (
                        code.gv_created(
                            GlobalValueData::VMContext,
                            Some(Fact::base_of(code.next_memtype())),
                        ).memtype_created(
                            MemoryTypeModel::Struct { size: 0, fields: Seq::empty() },
                        ),
                        env,
                        gv,
                    )
                } else {
                    (code.gv_created(GlobalValueData::VMContext, None), env, gv)
                }
            },
        }
    }

    /// The code that yields the address of the context, and the address.
    pub open spec fn vmctx_val_made(self, code: Code) -> (Code, EnvModel<'a>, Value) {
        let (c1, env, gv) = self.vmctx_made(code);
        (c1.global_value(self.isa.pointer_type, gv), env, c1.next_value())
    }

    /// A builtin function declared, and the address of the context at hand.
    pub open spec fn begun(self, code: Code, b: BuiltinFunction) -> (
        Code,
        EnvModel<'a>,
        FuncRef,
        Value,
    ) {
        let (c1, e1, f) = self.loaded(code, b);
        let (c2, e2, vmctx) = e1.vmctx_val_made(c1);
        (c2, e2, f, vmctx)
    }

    /// A builtin function called.
    pub open spec fn finished(
        self,
        code: Code,
        b: BuiltinFunction,
        callee: FuncRef,
        args: Seq<Value>,
    ) -> Code {
        code.called(StepModel::Call { callee, args }, b.spec_results(self.isa.pointer_type))
    }

    /// The type of addresses of a memory.
    pub open spec fn index_type(self, index: MemoryIndex) -> Type {
        if self.plans[index.0 as int].memory.memory64 {
            Type::I64
        } else {
            Type::I32
        }
    }

    /// An address of a memory as a 64-bit integer.
    pub open spec fn widened(self, code: Code, val: Value, index: MemoryIndex) -> (Code, Value) {
        if self.index_type(index) == Type::I64 {
            (code, val)
        } else {
            (code.convert(ConvertOp::Uextend, Type::I64, val), code.next_value())
        }
    }

    /// A pointer-sized number of pages as an integer of the memory's index type. The sign is kept,
    /// so that a failure stays a failure.
    pub open spec fn fitted(self, code: Code, val: Value, index: MemoryIndex) -> (Code, Value) {
        let desired = self.index_type(index);
        let pointer_type = self.isa.pointer_type;
        if pointer_type == desired {
            (code, val)
        } else if pointer_type.spec_bits() > desired.spec_bits() {
            (code.convert(ConvertOp::Ireduce, desired, val), code.next_value())
        } else {
            (code.convert(ConvertOp::Sextend, desired, val), code.next_value())
        }
    }

    /// Whether a memory can be placed: the module defines it and does not share it, it is laid out
    /// for its largest size, and the one size that exceeds 64 bits is that of all of a 64-bit
    /// memory.
    pub open spec fn has_heap(self, index: MemoryIndex) -> bool {
        &&& self.module.num_imported_memories <= index.0 < self.plans.len()
        &&& !self.plans[index.0 as int].memory.shared
        &&& self.plans[index.0 as int].style is Static
        &&& self.plans[index.0 as int].memory.minimum * WASM_PAGE_SIZE > u64::MAX
            ==> self.plans[index.0 as int].memory.minimum == 0x1_0000_0000_0000
    }

    /// The position of a memory among those that the module defines and does not share.
    pub open spec fn owned_index(self, index: MemoryIndex) -> nat {
        unshared(self.plans.subrange(self.module.num_imported_memories as int, index.0 as int))
    }

    /// Where the context holds the base address of a memory.
    pub open spec fn heap_base_offset(self, index: MemoryIndex) -> int {
        self.offsets.memories + self.owned_index(index) * crate::vmoffsets::SIZE_OF_VMDEFINITION
            + crate::vmoffsets::VMDEFINITION_BASE
    }

    /// The code that finds a heap, and the heap.
    #[verifier::opaque]
    pub open spec fn heap_made(self, code: Code, index: MemoryIndex) -> (
        Code,
        EnvModel<'a>,
        Heap,
    ) {
        let plan = self.plans[index.0 as int];
        let (c1, env, ptr) = self.vmctx_made(code);
        let offset = self.heap_base_offset(index);
        let bound = (plan.style->max_pages * WASM_PAGE_SIZE) as u64;
        let (c2, memory_type) = match env.memtype {
            Some(memtype) => (
                self.base_field_added(
                    c1.memtype_created(MemoryTypeModel::Memory { size: bound }),
                    memtype,
                    offset,
                    c1.next_memtype(),
                ),
                Some(c1.next_memtype()),
            ),
            None => (c1, None),
        };
        let base_fact = match memory_type {
            Some(ty) => Some(Fact::base_of(ty)),
            None => None,
        };
        let heap = HeapData {
            base: c2.next_gv(),
            min_size: if plan.memory.minimum * WASM_PAGE_SIZE <= u64::MAX {
                (plan.memory.minimum * WASM_PAGE_SIZE) as u64
            } else {
                u64::MAX
            },
            max_size: match plan.memory.maximum {
                Some(max) if max * WASM_PAGE_SIZE <= u64::MAX => Some((max * WASM_PAGE_SIZE) as u64),
                _ => None,
            },
            offset_guard_size: 0,
            style: HeapStyle::Static { bound },
            index_type: self.index_type(index),
            memory_type,
        };
        (
            c2.gv_created(
                GlobalValueData::Load {
                    base: ptr,
                    offset: offset as i32,
                    global_type: self.isa.pointer_type,
                    flags: MemFlags::spec_trusted().spec_with_checked().spec_with_readonly(),
                },
                base_fact,
            ),
            EnvModel { heaps: env.heaps.push(heap), ..env },
            Heap(self.heaps.len() as usize),
        )
    }

    /// A base address more at the end of a region's fields.
    pub open spec fn base_field_added(
        self,
        code: Code,
        memtype: MemoryType,
        offset: int,
        pointee: MemoryType,
    ) -> Code {
        let before = code.memtypes[memtype.0 as int];
        Code {
            memtypes: code.memtypes.update(
                memtype.0 as int,
                MemoryTypeModel::Struct {
                    size: crate::cranelift::env::larger(
                        before->Struct_size,
                        offset + self.isa.pointer_type.spec_bytes(),
                    ),
                    fields: before->fields.push(
                        MemoryTypeField {
                            offset: offset as u64,
                            ty: self.isa.pointer_type,
                            readonly: true,
                            fact: Some(Fact::base_of(pointee)),
                        },
                    ),
                },
            ),
            ..code
        }
    }

    /// Whether a global can be located: the module defines it, and it holds no managed reference.
    pub open spec fn has_global(self, index: GlobalIndex) -> bool {
        &&& self.module.num_imported_globals <= index.0 < self.module.globals@.len()
        &&& self.module.globals@[index.0 as int].content_type matches crate::types::WasmValType::Ref(r)
            ==> !r.heap_type.spec_is_vmgcref_type()
    }

    /// The code that finds a global, and the global.
    pub open spec fn global_made(self, code: Code, index: GlobalIndex) -> (
        Code,
        EnvModel<'a>,
        CraneliftGlobal,
    ) {
        let (c1, env, gv) = self.vmctx_made(code);
        (
            c1,
            env,
            CraneliftGlobal::Memory {
                gv,
                offset: (self.offsets.globals + (index.0 - self.module.num_imported_globals)
                    * crate::vmoffsets::SIZE_OF_VMDEFINITION) as i32,
                ty: crate::cranelift::env::value_type_of(
                    self.module.globals@[index.0 as int].content_type,
                    self.isa.pointer_type,
                ),
            },
        )
    }


    /// Grows a memory by a number of pages.
    pub open spec fn memory_grow_made(self, code: Code, memory_index: MemoryIndex, val: Value) -> (Code, EnvModel<'a>, Value) {
        let b = BuiltinFunction::Memory32Grow;
        let (c0, env, callee, vmctx) = self.begun(code, b);
        let c1 = c0.iconst(Type::I32, memory_index.0 as i64);
        let (c2, delta) = self.widened(c1, val, memory_index);
        let done = self.finished(c2, b, callee, seq![vmctx, delta, c0.next_value()]);
        let (fit, r) = self.fitted(done, c2.next_value(), memory_index);
        (fit, env, r)
    }

    /// Fills a range of a memory with a byte.
    pub open spec fn memory_fill_made(self, code: Code, memory_index: MemoryIndex, dst: Value, val: Value, len: Value) -> (Code, EnvModel<'a>) {
        let b = BuiltinFunction::MemoryFill;
        let (c0, env, callee, vmctx) = self.begun(code, b);
        let c1 = c0.iconst(Type::I32, memory_index.0 as i64);
        let (c2, wide_dst) = self.widened(c1, dst, memory_index);
        let (c3, wide_len) = self.widened(c2, len, memory_index);
        (self.finished(c3, b, callee, seq![vmctx, c0.next_value(), wide_dst, val, wide_len]), env)
    }

    /// Copies a range of a data segment into a memory.
    pub open spec fn memory_init_made(self, code: Code, memory_index: MemoryIndex, seg_index: u32, dst: Value, src: Value, len: Value) -> (Code, EnvModel<'a>) {
        let b = BuiltinFunction::MemoryInit;
        let (c0, env, callee, vmctx) = self.begun(code, b);
        let c1 = c0.iconst(Type::I32, memory_index.0 as i64);
        let c2 = c1.iconst(Type::I32, seg_index as i64);
        let (c3, wide_dst) = self.widened(c2, dst, memory_index);
        (self.finished(c3, b, callee, seq![vmctx, c0.next_value(), c1.next_value(), wide_dst, src, len]), env)
    }

    /// Drops a data segment.
    pub open spec fn data_drop_made(self, code: Code, seg_index: u32) -> (Code, EnvModel<'a>) {
        let b = BuiltinFunction::DataDrop;
        let (c0, env, callee, vmctx) = self.begun(code, b);
        let c1 = c0.iconst(Type::I32, seg_index as i64);
        (self.finished(c1, b, callee, seq![vmctx, c0.next_value()]), env)
    }

    /// Copies a range of one table into another.
    pub open spec fn table_copy_made(self, code: Code, dst_table_index: TableIndex, src_table_index: TableIndex, dst: Value, src: Value, len: Value) -> (Code, EnvModel<'a>) {
        let b = BuiltinFunction::TableCopy;
        let (c0, env, callee, vmctx) = self.begun(code, b);
        let c1 = c0.iconst(Type::I32, dst_table_index.0 as i64);
        let c2 = c1.iconst(Type::I32, src_table_index.0 as i64);
        (self.finished(c2, b, callee, seq![vmctx, c0.next_value(), c1.next_value(), dst, src, len]), env)
    }

    /// Copies a range of an element segment into a table.
    pub open spec fn table_init_made(self, code: Code, seg_index: u32, table_index: TableIndex, dst: Value, src: Value, len: Value) -> (Code, EnvModel<'a>) {
        let b = BuiltinFunction::TableInit;
        let (c0, env, callee, vmctx) = self.begun(code, b);
        let c1 = c0.iconst(Type::I32, table_index.0 as i64);
        let c2 = c1.iconst(Type::I32, seg_index as i64);
        (self.finished(c2, b, callee, seq![vmctx, c0.next_value(), c1.next_value(), dst, src, len]), env)
    }

    /// Drops an element segment.
    pub open spec fn elem_drop_made(self, code: Code, seg_index: u32) -> (Code, EnvModel<'a>) {
        let b = BuiltinFunction::ElemDrop;
        let (c0, env, callee, vmctx) = self.begun(code, b);
        let c1 = c0.iconst(Type::I32, seg_index as i64);
        (self.finished(c1, b, callee, seq![vmctx, c0.next_value()]), env)
    }

    /// Wakes waiters at an address.
    pub open spec fn atomic_notify_made(self, code: Code, memory_index: MemoryIndex, addr: Value, count: Value) -> (Code, EnvModel<'a>, Value) {
        let b = BuiltinFunction::MemoryAtomicNotify;
        let (c0, env, callee, vmctx) = self.begun(code, b);
        let c1 = c0.iconst(Type::I32, memory_index.0 as i64);
        (self.finished(c1, b, callee, seq![vmctx, c0.next_value(), addr, count]), env, c1.next_value())
    }

    /// The reference to a function.
    pub open spec fn ref_func_made(self, code: Code, func_index: FuncIndex) -> (Code, EnvModel<'a>, Value) {
        let b = BuiltinFunction::RefFunc;
        let (c0, env, callee, vmctx) = self.begun(code, b);
        let c1 = c0.iconst(Type::I32, func_index.0 as i64);
        (self.finished(c1, b, callee, seq![vmctx, c0.next_value()]), env, c1.next_value())
    }

    /// The function that waits on values of a type.
    pub open spec fn wait_builtin(ty: Type) -> BuiltinFunction {
        if ty is I32 {
            BuiltinFunction::MemoryAtomicWait32
        } else {
            BuiltinFunction::MemoryAtomicWait64
        }
    }

    /// Waits until the value at an address changes.
    pub open spec fn atomic_wait_made(
        self,
        code: Code,
        memory_index: MemoryIndex,
        addr: Value,
        expected: Value,
        timeout: Value,
    ) -> (Code, EnvModel<'a>, Value) {
        let b = Self::wait_builtin(code.ty(expected));
        let (c0, env, callee, vmctx) = self.begun(code, b);
        let c1 = c0.iconst(Type::I32, memory_index.0 as i64);
        let (c2, wide_addr) = self.widened(c1, addr, memory_index);
        let args = seq![vmctx, c0.next_value(), wide_addr, expected, timeout];
        (self.finished(c2, b, callee, args), env, c2.next_value())
    }

    /// Copies a range of one memory into another. The length is as wide as the narrower of the two
    /// address types.
    pub open spec fn memory_copy_made(
        self,
        code: Code,
        src_index: MemoryIndex,
        dst_index: MemoryIndex,
        dst: Value,
        src: Value,
        len: Value,
    ) -> (Code, EnvModel<'a>) {
        let b = BuiltinFunction::MemoryCopy;
        let (c0, e0, callee) = self.loaded(code, b);
        let (c1, wide_len) = if self.index_type(dst_index) == Type::I64 && self.index_type(
            src_index,
        ) == Type::I64 {
            (c0, len)
        } else {
            (c0.convert(ConvertOp::Uextend, Type::I64, len), c0.next_value())
        };
        let (c2, env, vmctx) = e0.vmctx_val_made(c1);
        let (c3, wide_dst) = self.widened(c2, dst, dst_index);
        let c4 = c3.iconst(Type::I32, dst_index.0 as i64);
        let (c5, wide_src) = self.widened(c4, src, src_index);
        let c6 = c5.iconst(Type::I32, src_index.0 as i64);
        let args = seq![
            vmctx,
            c3.next_value(),
            wide_dst,
            c5.next_value(),
            wide_src,
            wide_len,
        ];
        (self.finished(c6, b, callee, args), env)
    }

    /// A small integer as a reference: shifted by one bit, with the discriminant set.
    pub open spec fn ref_i31_made(self, code: Code, val: Value) -> (Code, Value) {
        let ref_ty = managed_type(self.isa.pointer_type);
        let c1 = code.binary_imm(ImmOp::IshlImm, val, 1);
        let c2 = c1.binary_imm(ImmOp::BorImm, code.next_value(), I31_REF_DISCRIMINANT as i64);
        let (c3, extended) = if ref_ty.spec_bytes() > 4 {
            (c2.convert(ConvertOp::Uextend, ref_ty.spec_as_int(), c1.next_value()), c2.next_value())
        } else {
            (c2, c1.next_value())
        };
        (c3.bitcast(ref_ty, MemFlags::spec_new(), extended), c3.next_value())
    }

    /// The bits of a small integer, still shifted; null traps.
    pub open spec fn unshifted(self, code: Code, i31ref: Value) -> (Code, Value) {
        let int_ty = managed_type(self.isa.pointer_type).spec_as_int();
        let c1 = code.unary(UnaryOp::IsNull, i31ref);
        let c2 = c1.emitted(Op::Trapnz { arg: code.next_value(), code: TrapCode::NullI31Ref });
        let c3 = c2.bitcast(int_ty, MemFlags::spec_new(), i31ref);
        let val = c2.next_value();
        let c4 = if self.debug_assertions {
            c3.binary_imm(ImmOp::BandImm, val, I31_REF_DISCRIMINANT as i64).emitted(
                Op::Trapz { arg: c3.next_value(), code: TrapCode::DebugAssertion },
            )
        } else {
            c3
        };
        if int_ty.spec_bytes() == 8 {
            (c4.convert(ConvertOp::Ireduce, Type::I32, val), c4.next_value())
        } else {
            (c4, val)
        }
    }

    /// The value of a small integer, shifted back with or without its sign.
    pub open spec fn i31_get_made(self, code: Code, op: ImmOp, i31ref: Value) -> (Code, Value) {
        let (c1, val) = self.unshifted(code, i31ref);
        (c1.binary_imm(op, val, 1), c1.next_value())
    }

    /// A null reference of a heap type.
    pub open spec fn ref_null_made(self, code: Code, ht: WasmHeapType) -> (Code, Value) {
        if ht.spec_top() is Func {
            (code.iconst(self.isa.pointer_type, 0), code.next_value())
        } else {
            let ty = managed_type(self.isa.pointer_type);
            (code.defined(Op::Null { ty }, ty), code.next_value())
        }
    }

    /// Whether a reference is null, as a 32-bit integer.
    pub open spec fn ref_is_null_made(self, code: Code, value: Value) -> (Code, Value) {
        let c1 = if code.ty(value).spec_is_ref() {
            code.unary(UnaryOp::IsNull, value)
        } else {
            code.int_compare_imm(IntCC::Equal, value, 0)
        };
        (c1.convert(ConvertOp::Uextend, Type::I32, code.next_value()), c1.next_value())
    }

    /// A call that reports to the runtime, with the context as its first argument.
    pub open spec fn reported(self, code: Code, b: BuiltinFunction, rest: Seq<Value>) -> (
        Code,
        EnvModel<'a>,
    ) {
        let (c0, env, callee, vmctx) = self.begun(code, b);
        (self.finished(c0, b, callee, seq![vmctx] + rest), env)
    }

    /// What is done before a function's body: the start of an allocation or release is reported.
    pub open spec fn entry_made(self, code: Code, func: FuncIndex) -> (Code, EnvModel<'a>) {
        let name = name_of(self.names, func);
        if self.wmemcheck && name == Some("malloc"@) {
            self.reported(code, BuiltinFunction::MallocStart, Seq::empty())
        } else if self.wmemcheck && name == Some("free"@) {
            self.reported(code, BuiltinFunction::FreeStart, Seq::empty())
        } else {
            (code, self)
        }
    }

    /// What is done before a function returns: the end of an allocation or release is reported,
    /// with the first argument of the function behind its two contexts, if it has one.
    pub open spec fn exit_made(
        self,
        code: Code,
        func: FuncIndex,
        params: Seq<Value>,
        retvals: Seq<Value>,
    ) -> (Code, EnvModel<'a>) {
        let name = name_of(self.names, func);
        if self.wmemcheck && name == Some("malloc"@) {
            let (c0, env, callee, vmctx) = self.begun(code, BuiltinFunction::CheckMalloc);
            if params.len() < 3 || retvals.len() < 1 {
                (c0, env)
            } else {
                (
                    self.finished(
                        c0,
                        BuiltinFunction::CheckMalloc,
                        callee,
                        seq![vmctx, retvals[0], params[2]],
                    ),
                    env,
                )
            }
        } else if self.wmemcheck && name == Some("free"@) {
            let (c0, env, callee, vmctx) = self.begun(code, BuiltinFunction::CheckFree);
            if params.len() < 3 {
                (c0, env)
            } else {
                (
                    self.finished(
                        c0,
                        BuiltinFunction::CheckFree,
                        callee,
                        seq![vmctx, params[2]],
                    ),
                    env,
                )
            }
        } else {
            (code, self)
        }
    }

    /// What is done before an access: it is reported with its size, address and offset.
    pub open spec fn access_made(
        self,
        code: Code,
        b: BuiltinFunction,
        val_size: u8,
        addr: Value,
        offset: u64,
    ) -> (Code, EnvModel<'a>) {
        if self.wmemcheck {
            let (c0, env, callee, vmctx) = self.begun(code, b);
            let c1 = c0.iconst(Type::I32, val_size as i64);
            let c2 = c1.iconst(Type::I64, offset as i64);
            (
                self.finished(
                    c2,
                    b,
                    callee,
                    seq![vmctx, c0.next_value(), addr, c1.next_value()],
                ),
                env,
            )
        } else {
            (code, self)
        }
    }

    /// What is done after a global is set: global 0 is taken for the stack pointer, whose new
    /// value is reported.
    pub open spec fn global_updated(self, code: Code, global_index: u32, value: Value) -> (
        Code,
        EnvModel<'a>,
    ) {
        if self.wmemcheck && global_index == 0 {
            self.reported(code, BuiltinFunction::UpdateStackPointer, seq![value])
        } else {
            (code, self)
        }
    }

    /// What is done before a memory grows: the new size of memory 0 is reported.
    pub open spec fn growth_reported(
        self,
        code: Code,
        num_bytes: Value,
        mem_index: MemoryIndex,
    ) -> (Code, EnvModel<'a>) {
        if self.wmemcheck && mem_index.0 == 0 {
            self.reported(code, BuiltinFunction::UpdateMemSize, seq![num_bytes])
        } else {
            (code, self)
        }
    }
}

impl<'a> FuncEnvironment<'a> {
    /// The environment of the functions of a module on a target.
    pub fn new(
        isa: TargetIsa,
        module: &'a TranslatedModule,
        memory_plans: &'a Vec<MemoryPlan>,
        func_names: &'a Vec<(FuncIndex, String)>,
        debug_assertions: bool,
    ) -> (r: Self)
        requires
            isa.wf(),
            module.wf(),
            memory_plans@.len() == module.memories@.len(),
            crate::vmoffsets::vmctx_size(isa.pointer_type.spec_bytes(), *module) <= i32::MAX,
        ensures
            forall|code: Code| #[trigger] r@.ready(code),
            r@ == (EnvModel {
                isa,
                module,
                plans: memory_plans@,
                names: func_names@,
                offsets: VMOffsets::spec_for_module(isa.pointer_type.spec_bytes(), *module),
                builtins: DeclaredBuiltins {
                    pointer_type: isa.pointer_type,
                    builtins: Seq::new(
                        crate::builtins::BUILTIN_COUNT as nat,
                        |i: int| None::<FuncRef>,
                    ),
                },
                wmemcheck: true,
                debug_assertions,
                heaps: Seq::empty(),
                vmctx: None,
                memtype: None,
            }),
    {
        let r = FuncEnvironment {
            isa,
            module,
            memory_plans,
            func_names,
            offsets: VMOffsets::for_module(isa.pointer_type.bytes(), module),
            builtin_functions: BuiltinFunctions::new(isa.pointer_type),
            wmemcheck: true,
            debug_assertions,
            heaps: Vec::new(),
            vmctx: None,
            pcc_vmctx_memtype: None,
        };
        proof {
            assert forall|b: BuiltinFunction|
                (#[trigger] r@.builtins.builtins[b.spec_index() as int]) is None by {
                crate::builtins::positions_are_distinct(b, b);
            }
        }
        r
    }

    /// The integer type of native pointers.
    pub fn pointer_type(&self) -> (r: Type)
        ensures
            r == self@.isa.pointer_type,
    {
        self.isa.pointer_type
    }

    /// The heaps that were made.
    pub fn heaps(&self) -> (r: &Vec<HeapData>)
        ensures
            r@ == self@.heaps,
    {
        &self.heaps
    }

    /// The global value of the context.
    pub fn vmctx(&mut self, builder: &mut FunctionBuilder) -> (r: GlobalValue)
        requires
            old(self)@.ready(old(builder)@),
        ensures
            (final(builder)@, final(self)@, r) == old(self)@.vmctx_made(old(builder)@),
            final(self)@.ready(final(builder)@),
            final(builder)@.declared(old(builder)@),
    {
        match self.vmctx {
            Some(gv) => gv,
            None => {
                let fact = if self.isa.enable_pcc {
                    let ty = builder.create_struct_memtype();
                    Some(Fact::Mem { ty, min_offset: 0, max_offset: 0, nullable: false })
                } else {
                    None
                };
                let gv = builder.create_global_value(GlobalValueData::VMContext, fact);
                self.vmctx = Some(gv);
                proof {
                    assert(self@.builtins == old(self)@.builtins);
                    lemma_still_declared(self@.builtins, old(builder)@, builder@);
                }
                gv
            },
        }
    }

    /// The address of the context.
    pub fn vmctx_val(&mut self, builder: &mut FunctionBuilder) -> (r: Value)
        requires
            old(self)@.ready(old(builder)@),
        ensures
            (final(builder)@, final(self)@, r) == old(self)@.vmctx_val_made(old(builder)@),
            final(self)@.ready(final(builder)@),
            final(builder)@.extends(old(builder)@),
            r.0 == old(builder)@.values.len(),
            final(builder)@.sigs == old(builder)@.sigs,
            final(builder)@.funcs == old(builder)@.funcs,
    {
        let gv = self.vmctx(builder);
        let ghost declared = builder@;
        let pointer_type = self.isa.pointer_type;
        let r = builder.global_value(pointer_type, gv);
        proof {
            lemma_still_declared(self@.builtins, declared, builder@);
            crate::builder::lemma_declared_extends(old(builder)@, declared);
            crate::builder::lemma_grew_extends(declared, builder@);
            crate::builder::lemma_extends_trans(old(builder)@, declared, builder@);
        }
        r
    }

    /// Declares a builtin function and loads the address of the context.
    fn begin_call(&mut self, builder: &mut FunctionBuilder, b: BuiltinFunction) -> (r: (
        FuncRef,
        Value,
    ))
        requires
            old(self)@.ready(old(builder)@),
        ensures
            (final(builder)@, final(self)@, r.0, r.1) == old(self)@.begun(old(builder)@, b),
            final(self)@.ready(final(builder)@),
            final(builder)@.extends(old(builder)@),
            final(builder)@.has_func(r.0),
            final(builder)@.sig_of(r.0) == b.spec_signature(old(self)@.isa.pointer_type),
            final(self)@.isa == old(self)@.isa,
            final(self)@.plans == old(self)@.plans,
    {
        let callee = self.load_builtin(builder, b);
        let ghost loaded = builder@;
        let vmctx = self.vmctx_val(builder);
        proof {
            crate::builder::lemma_declared_extends(old(builder)@, loaded);
            crate::builder::lemma_extends_trans(old(builder)@, loaded, builder@);
        }
        (callee, vmctx)
    }

    /// Declares a builtin function.
    fn load_builtin(&mut self, builder: &mut FunctionBuilder, b: BuiltinFunction) -> (r: FuncRef)
        requires
            old(self)@.ready(old(builder)@),
        ensures
            (final(builder)@, final(self)@, r) == old(self)@.loaded(old(builder)@, b),
            final(self)@.ready(final(builder)@),
            final(builder)@.declared(old(builder)@),
            final(builder)@.has_func(r),
            final(builder)@.sig_of(r) == b.spec_signature(old(self)@.isa.pointer_type),
    {
        self.builtin_functions.load_builtin(builder, b)
    }

    /// The type of addresses of a memory.
    fn memory_index_type(&self, index: MemoryIndex) -> (r: Type)
        requires
            index.0 < self@.plans.len(),
        ensures
            r == self@.index_type(index),
    {
        if self.memory_plans[index.index()].memory.memory64 {
            Type::I64
        } else {
            Type::I32
        }
    }

    /// Brings a pointer-sized number of pages to the width of the memory's addresses.
    fn cast_pointer_to_memory_index(
        &self,
        builder: &mut FunctionBuilder,
        val: Value,
        index: MemoryIndex,
    ) -> (r: Value)
        requires
            index.0 < self@.plans.len(),
            self@.ready(old(builder)@),
        ensures
            (final(builder)@, r) == self@.fitted(old(builder)@, val, index),
            self@.ready(final(builder)@),
            final(builder)@.extends(old(builder)@),
    {
        let desired_type = self.memory_index_type(index);
        let pointer_type = self.isa.pointer_type;
        if pointer_type == desired_type {
            val
        } else if pointer_type.bits() > desired_type.bits() {
            builder.convert(ConvertOp::Ireduce, desired_type, val)
        } else {
            builder.convert(ConvertOp::Sextend, desired_type, val)
        }
    }

    /// Brings an address of a memory to 64 bits.
    fn cast_memory_index_to_i64(
        &self,
        builder: &mut FunctionBuilder,
        val: Value,
        memory_index: MemoryIndex,
    ) -> (r: Value)
        requires
            memory_index.0 < self@.plans.len(),
            self@.ready(old(builder)@),
        ensures
            (final(builder)@, r) == self@.widened(old(builder)@, val, memory_index),
            self@.ready(final(builder)@),
            final(builder)@.extends(old(builder)@),
    {
        if self.memory_index_type(memory_index) == Type::I64 {
            val
        } else {
            builder.convert(ConvertOp::Uextend, Type::I64, val)
        }
    }

    /// The position of a memory among those that the module defines and does not share.
    fn owned_memory_index(&self, index: MemoryIndex) -> (r: u32)
        requires
            self@.wf(),
            self@.module.num_imported_memories <= index.0 < self@.plans.len(),
        ensures
            r == self@.owned_index(index),
            r <= index.0 - self@.module.num_imported_memories,
    {
        let first: u32 = self.module.num_imported_memories;
        let mut owned: u32 = 0;
        let ghost plans = self.memory_plans@;
        assert(plans.subrange(first as int, first as int) =~= Seq::empty());
        for i in first..index.0
            invariant
                plans == self.memory_plans@,
                index.0 < plans.len(),
                first <= index.0,
                owned == unshared(plans.subrange(first as int, i as int)),
                owned <= i - first,
        {
            let ghost next = plans.subrange(first as int, i + 1);
            assert(next.drop_last() =~= plans.subrange(first as int, i as int));
            assert(next.last() == plans[i as int]);
            if !self.memory_plans[i as usize].memory.shared {
                owned = owned + 1;
            }
        }
        owned
    }

    /// Finds a heap.
    pub fn make_heap(&mut self, builder: &mut FunctionBuilder, index: MemoryIndex) -> (r: Heap)
        requires
            old(self)@.ready(old(builder)@),
            old(self)@.has_heap(index),
        ensures
            (final(builder)@, final(self)@, r) == old(self)@.heap_made(old(builder)@, index),
            final(self)@.ready(final(builder)@),
            final(builder)@.declared(old(builder)@),
            r.0 == old(self)@.heaps.len(),
    {
        proof {
            reveal(EnvModel::heap_made);
        }
        let pointer_type = self.isa.pointer_type;
        let plan = self.memory_plans[index.index()];
        let min_size: u64 = match plan.memory.minimum.checked_mul(WASM_PAGE_SIZE as u64) {
            Some(n) => n,
            None => u64::MAX,
        };
        let max_size: Option<u64> = match plan.memory.maximum {
            Some(max) => max.checked_mul(WASM_PAGE_SIZE as u64),
            None => None,
        };
        let ptr = self.vmctx(builder);
        let ghost begun = builder@;
        let owned_index: u32 = self.owned_memory_index(index);
        let base_offset: u32 = self.offsets.vmctx_vmmemory_definition_base(
            DefinedMemoryIndex(owned_index),
        );
        let bound: u64 = match plan.style {
            MemoryStyle::Static { max_pages } => max_pages as u64 * WASM_PAGE_SIZE as u64,
            MemoryStyle::Dynamic => {
                assert(false);
                0
            },
        };
        let memory_type: Option<MemoryType> = match self.pcc_vmctx_memtype {
            Some(memtype) => {
                let data = builder.create_memory_memtype(bound);
                let ghost before = builder@;
                let (size, mut fields) = builder.take_struct(memtype);
                fields.push(
                    MemoryTypeField {
                        offset: base_offset as u64,
                        ty: pointer_type,
                        readonly: true,
                        fact: Some(
                            Fact::Mem { ty: data, min_offset: 0, max_offset: 0, nullable: false },
                        ),
                    },
                );
                let end: u64 = base_offset as u64 + pointer_type.bytes() as u64;
                let size: u64 = if size < end {
                    end
                } else {
                    size
                };
                builder.set_struct(memtype, size, fields);
                assert(builder@.memtypes =~= self@.base_field_added(
                    before,
                    memtype,
                    base_offset as int,
                    data,
                ).memtypes);
                Some(data)
            },
            None => None,
        };
        let base_fact = match memory_type {
            Some(ty) => Some(Fact::Mem { ty, min_offset: 0, max_offset: 0, nullable: false }),
            None => None,
        };
        let base = builder.create_global_value(
            GlobalValueData::Load {
                base: ptr,
                offset: base_offset as i32,
                global_type: pointer_type,
                flags: MemFlags::trusted().with_checked().with_readonly(),
            },
            base_fact,
        );
        let index_type = self.memory_index_type(index);
        let heap = Heap(self.heaps.len());
        let ghost env = self@;
        self.heaps.push(
            HeapData {
                base,
                min_size,
                max_size,
                offset_guard_size: 0,
                style: HeapStyle::Static { bound },
                index_type,
                memory_type,
            },
        );
        proof {
            assert(self@ == (EnvModel { heaps: self@.heaps, ..env }));
            assert(self.heaps.len() <= usize::MAX);
            lemma_still_declared(self@.builtins, begun, builder@);
        }
        heap
    }

    /// The global value and the offset that a global is found at.
    pub fn get_global_location(&mut self, builder: &mut FunctionBuilder, index: GlobalIndex) -> (r:
        (GlobalValue, u32))
        requires
            old(self)@.ready(old(builder)@),
            old(self)@.module.num_imported_globals <= index.0
                < old(self)@.module.globals@.len(),
        ensures
            (final(builder)@, final(self)@, r.0) == old(self)@.vmctx_made(old(builder)@),
            r.1 == old(self)@.offsets.globals + (index.0
                - old(self)@.module.num_imported_globals) * crate::vmoffsets::SIZE_OF_VMDEFINITION,
            r.1 <= i32::MAX,
            final(self)@.ready(final(builder)@),
            final(builder)@.declared(old(builder)@),
    {
        let vmctx = self.vmctx(builder);
        let def_index = crate::indices::DefinedGlobalIndex(
            index.0 - self.module.num_imported_globals,
        );
        let offset: u32 = self.offsets.vmctx_vmglobal_definition(def_index);
        (vmctx, offset)
    }

    /// Finds a global.
    pub fn make_global(&mut self, builder: &mut FunctionBuilder, index: GlobalIndex) -> (r:
        CraneliftGlobal)
        requires
            old(self)@.ready(old(builder)@),
            old(self)@.has_global(index),
        ensures
            (final(builder)@, final(self)@, r) == old(self)@.global_made(old(builder)@, index),
            final(self)@.ready(final(builder)@),
            final(builder)@.declared(old(builder)@),
    {
        let (gv, offset) = self.get_global_location(builder, index);
        let content_type = self.module.globals[index.index()].content_type;
        CraneliftGlobal::Memory {
            gv,
            offset: offset as i32,
            ty: crate::cranelift::env::value_type(&content_type, self.isa.pointer_type),
        }
    }


    /// Grows a memory by a number of pages.
    pub fn translate_memory_grow(&mut self, builder: &mut FunctionBuilder, memory_index: MemoryIndex, val: Value) -> (r: Value)
        requires
            old(self)@.ready(old(builder)@),
            memory_index.0 < old(self)@.plans.len(),
        ensures
            (final(builder)@, final(self)@, r) == old(self)@.memory_grow_made(old(builder)@, memory_index, val),
            final(self)@.ready(final(builder)@),
            final(builder)@.extends(old(builder)@),
    {
        let (callee, vmctx) = self.begin_call(builder, BuiltinFunction::Memory32Grow);
        let index = builder.iconst(Type::I32, memory_index.as_u32() as i64);
        let delta = self.cast_memory_index_to_i64(builder, val, memory_index);
        let args: Vec<Value> = vec![vmctx, delta, index];
        let ghost listed = args@;
        let results = builder.call(callee, args);
        assert(listed =~= seq![vmctx, delta, index]);
        self.cast_pointer_to_memory_index(builder, results[0], memory_index)
    }

    /// Fills a range of a memory with a byte.
    pub fn translate_memory_fill(&mut self, builder: &mut FunctionBuilder, memory_index: MemoryIndex, dst: Value, val: Value, len: Value)
        requires
            old(self)@.ready(old(builder)@),
            memory_index.0 < old(self)@.plans.len(),
        ensures
            (final(builder)@, final(self)@) == old(self)@.memory_fill_made(old(builder)@, memory_index, dst, val, len),
            final(self)@.ready(final(builder)@),
            final(builder)@.extends(old(builder)@),
    {
        let (callee, vmctx) = self.begin_call(builder, BuiltinFunction::MemoryFill);
        let memory = builder.iconst(Type::I32, memory_index.as_u32() as i64);
        let wide_dst = self.cast_memory_index_to_i64(builder, dst, memory_index);
        let wide_len = self.cast_memory_index_to_i64(builder, len, memory_index);
        let args: Vec<Value> = vec![vmctx, memory, wide_dst, val, wide_len];
        let ghost listed = args@;
        builder.call(callee, args);
        assert(listed =~= seq![vmctx, memory, wide_dst, val, wide_len]);
    }

    /// Copies a range of a data segment into a memory.
    pub fn translate_memory_init(&mut self, builder: &mut FunctionBuilder, memory_index: MemoryIndex, seg_index: u32, dst: Value, src: Value, len: Value)
        requires
            old(self)@.ready(old(builder)@),
            memory_index.0 < old(self)@.plans.len(),
        ensures
            (final(builder)@, final(self)@) == old(self)@.memory_init_made(old(builder)@, memory_index, seg_index, dst, src, len),
            final(self)@.ready(final(builder)@),
            final(builder)@.extends(old(builder)@),
    {
        let (callee, vmctx) = self.begin_call(builder, BuiltinFunction::MemoryInit);
        let memory = builder.iconst(Type::I32, memory_index.as_u32() as i64);
        let data = builder.iconst(Type::I32, seg_index as i64);
        let wide_dst = self.cast_memory_index_to_i64(builder, dst, memory_index);
        let args: Vec<Value> = vec![vmctx, memory, data, wide_dst, src, len];
        let ghost listed = args@;
        builder.call(callee, args);
        assert(listed =~= seq![vmctx, memory, data, wide_dst, src, len]);
    }

    /// Drops a data segment.
    pub fn translate_data_drop(&mut self, builder: &mut FunctionBuilder, seg_index: u32)
        requires
            old(self)@.ready(old(builder)@),
        ensures
            (final(builder)@, final(self)@) == old(self)@.data_drop_made(old(builder)@, seg_index),
            final(self)@.ready(final(builder)@),
            final(builder)@.extends(old(builder)@),
    {
        let (callee, vmctx) = self.begin_call(builder, BuiltinFunction::DataDrop);
        let data = builder.iconst(Type::I32, seg_index as i64);
        let args: Vec<Value> = vec![vmctx, data];
        let ghost listed = args@;
        builder.call(callee, args);
        assert(listed =~= seq![vmctx, data]);
    }

    /// Copies a range of one table into another.
    pub fn translate_table_copy(&mut self, builder: &mut FunctionBuilder, dst_table_index: TableIndex, src_table_index: TableIndex, dst: Value, src: Value, len: Value)
        requires
            old(self)@.ready(old(builder)@),
        ensures
            (final(builder)@, final(self)@) == old(self)@.table_copy_made(old(builder)@, dst_table_index, src_table_index, dst, src, len),
            final(self)@.ready(final(builder)@),
            final(builder)@.extends(old(builder)@),
    {
        let (callee, vmctx) = self.begin_call(builder, BuiltinFunction::TableCopy);
        let dst_index = builder.iconst(Type::I32, dst_table_index.as_u32() as i64);
        let src_index = builder.iconst(Type::I32, src_table_index.as_u32() as i64);
        let args: Vec<Value> = vec![vmctx, dst_index, src_index, dst, src, len];
        let ghost listed = args@;
        builder.call(callee, args);
        assert(listed =~= seq![vmctx, dst_index, src_index, dst, src, len]);
    }

    /// Copies a range of an element segment into a table.
    pub fn translate_table_init(&mut self, builder: &mut FunctionBuilder, seg_index: u32, table_index: TableIndex, dst: Value, src: Value, len: Value)
        requires
            old(self)@.ready(old(builder)@),
        ensures
            (final(builder)@, final(self)@) == old(self)@.table_init_made(old(builder)@, seg_index, table_index, dst, src, len),
            final(self)@.ready(final(builder)@),
            final(builder)@.extends(old(builder)@),
    {
        let (callee, vmctx) = self.begin_call(builder, BuiltinFunction::TableInit);
        let table = builder.iconst(Type::I32, table_index.as_u32() as i64);
        let elem = builder.iconst(Type::I32, seg_index as i64);
        let args: Vec<Value> = vec![vmctx, table, elem, dst, src, len];
        let ghost listed = args@;
        builder.call(callee, args);
        assert(listed =~= seq![vmctx, table, elem, dst, src, len]);
    }

    /// Drops an element segment.
    pub fn translate_elem_drop(&mut self, builder: &mut FunctionBuilder, seg_index: u32)
        requires
            old(self)@.ready(old(builder)@),
        ensures
            (final(builder)@, final(self)@) == old(self)@.elem_drop_made(old(builder)@, seg_index),
            final(self)@.ready(final(builder)@),
            final(builder)@.extends(old(builder)@),
    {
        let (callee, vmctx) = self.begin_call(builder, BuiltinFunction::ElemDrop);
        let elem = builder.iconst(Type::I32, seg_index as i64);
        let args: Vec<Value> = vec![vmctx, elem];
        let ghost listed = args@;
        builder.call(callee, args);
        assert(listed =~= seq![vmctx, elem]);
    }

    /// Wakes waiters at an address.
    pub fn translate_atomic_notify(&mut self, builder: &mut FunctionBuilder, memory_index: MemoryIndex, addr: Value, count: Value) -> (r: Value)
        requires
            old(self)@.ready(old(builder)@),
        ensures
            (final(builder)@, final(self)@, r) == old(self)@.atomic_notify_made(old(builder)@, memory_index, addr, count),
            final(self)@.ready(final(builder)@),
            final(builder)@.extends(old(builder)@),
    {
        let (callee, vmctx) = self.begin_call(builder, BuiltinFunction::MemoryAtomicNotify);
        let memory = builder.iconst(Type::I32, memory_index.as_u32() as i64);
        let args: Vec<Value> = vec![vmctx, memory, addr, count];
        let ghost listed = args@;
        let results = builder.call(callee, args);
        assert(listed =~= seq![vmctx, memory, addr, count]);
        results[0]
    }

    /// The reference to a function.
    pub fn translate_ref_func(&mut self, builder: &mut FunctionBuilder, func_index: FuncIndex) -> (r: Value)
        requires
            old(self)@.ready(old(builder)@),
        ensures
            (final(builder)@, final(self)@, r) == old(self)@.ref_func_made(old(builder)@, func_index),
            final(self)@.ready(final(builder)@),
            final(builder)@.extends(old(builder)@),
    {
        let (callee, vmctx) = self.begin_call(builder, BuiltinFunction::RefFunc);
        let func = builder.iconst(Type::I32, func_index.as_u32() as i64);
        let args: Vec<Value> = vec![vmctx, func];
        let ghost listed = args@;
        let results = builder.call(callee, args);
        assert(listed =~= seq![vmctx, func]);
        results[0]
    }

    /// Waits until the value at an address changes; the width is that of the expected value.
    pub fn translate_atomic_wait(
        &mut self,
        builder: &mut FunctionBuilder,
        memory_index: MemoryIndex,
        addr: Value,
        expected: Value,
        timeout: Value,
    ) -> (r: Value)
        requires
            old(self)@.ready(old(builder)@),
            memory_index.0 < old(self)@.plans.len(),
            old(builder)@.has(expected),
            old(builder)@.ty(expected) is I32 || old(builder)@.ty(expected) is I64,
        ensures
            (final(builder)@, final(self)@, r) == old(self)@.atomic_wait_made(
                old(builder)@,
                memory_index,
                addr,
                expected,
                timeout,
            ),
            final(self)@.ready(final(builder)@),
            final(builder)@.extends(old(builder)@),
    {
        let b = match builder.value_type(expected) {
            Type::I32 => BuiltinFunction::MemoryAtomicWait32,
            _ => BuiltinFunction::MemoryAtomicWait64,
        };
        let (callee, vmctx) = self.begin_call(builder, b);
        let memory = builder.iconst(Type::I32, memory_index.as_u32() as i64);
        let wide_addr = self.cast_memory_index_to_i64(builder, addr, memory_index);
        let args: Vec<Value> = vec![vmctx, memory, wide_addr, expected, timeout];
        let ghost listed = args@;
        let results = builder.call(callee, args);
        assert(listed =~= seq![vmctx, memory, wide_addr, expected, timeout]);
        results[0]
    }

    /// Copies a range of one memory into another.
    pub fn translate_memory_copy(
        &mut self,
        builder: &mut FunctionBuilder,
        src_index: MemoryIndex,
        dst_index: MemoryIndex,
        dst: Value,
        src: Value,
        len: Value,
    )
        requires
            old(self)@.ready(old(builder)@),
            src_index.0 < old(self)@.plans.len(),
            dst_index.0 < old(self)@.plans.len(),
        ensures
            (final(builder)@, final(self)@) == old(self)@.memory_copy_made(
                old(builder)@,
                src_index,
                dst_index,
                dst,
                src,
                len,
            ),
            final(self)@.ready(final(builder)@),
            final(builder)@.extends(old(builder)@),
    {
        let callee = self.load_builtin(builder, BuiltinFunction::MemoryCopy);
        let ghost loaded = builder@;
        let wide = self.memory_index_type(dst_index) == Type::I64 && self.memory_index_type(
            src_index,
        ) == Type::I64;
        let wide_len = if wide {
            len
        } else {
            builder.convert(ConvertOp::Uextend, Type::I64, len)
        };
        let ghost lengthened = builder@;
        proof {
            lemma_still_declared(self@.builtins, loaded, lengthened);
        }
        let vmctx = self.vmctx_val(builder);
        let ghost begun = builder@;
        let wide_dst = self.cast_memory_index_to_i64(builder, dst, dst_index);
        let dst_const = builder.iconst(Type::I32, dst_index.as_u32() as i64);
        let wide_src = self.cast_memory_index_to_i64(builder, src, src_index);
        let src_const = builder.iconst(Type::I32, src_index.as_u32() as i64);
        let args: Vec<Value> = vec![vmctx, dst_const, wide_dst, src_const, wide_src, wide_len];
        let ghost listed = args@;
        builder.call(callee, args);
        assert(listed =~= seq![vmctx, dst_const, wide_dst, src_const, wide_src, wide_len]);
        proof {
            crate::builder::lemma_declared_extends(old(builder)@, loaded);
            crate::builder::lemma_grew_extends(loaded, lengthened);
            crate::builder::lemma_extends_trans(old(builder)@, loaded, lengthened);
            crate::builder::lemma_extends_trans(old(builder)@, lengthened, begun);
            crate::builder::lemma_grew_extends(begun, builder@);
            crate::builder::lemma_extends_trans(old(builder)@, begun, builder@);
        }
    }

    /// The type of references that the collector manages.
    fn managed_type(&self) -> (r: Type)
        requires
            self@.isa.wf(),
        ensures
            r == managed_type(self@.isa.pointer_type),
    {
        match self.isa.pointer_type {
            Type::I32 => Type::R32,
            _ => Type::R64,
        }
    }

    /// A small integer as a reference.
    pub fn translate_ref_i31(&mut self, builder: &mut FunctionBuilder, val: Value) -> (r: Value)
        requires
            old(self)@.isa.wf(),
            old(builder)@.has(val),
        ensures
            *final(self) == *old(self),
            (final(builder)@, r) == old(self)@.ref_i31_made(old(builder)@, val),
    {
        let shifted = builder.binary_imm(ImmOp::IshlImm, val, 1);
        let tagged = builder.binary_imm(ImmOp::BorImm, shifted, I31_REF_DISCRIMINANT as i64);
        let ref_ty = self.managed_type();
        let extended = if ref_ty.bytes() > 4 {
            builder.convert(ConvertOp::Uextend, ref_ty.as_int(), tagged)
        } else {
            tagged
        };
        builder.bitcast(ref_ty, MemFlags::new(), extended)
    }

    /// The bits of a small integer, still shifted.
    fn i31_ref_to_unshifted_value(&self, builder: &mut FunctionBuilder, i31ref: Value) -> (r: Value)
        requires
            self@.isa.wf(),
            old(builder)@.has(i31ref),
        ensures
            (final(builder)@, r) == self@.unshifted(old(builder)@, i31ref),
            final(builder)@.has(r),
    {
        let ref_ty = self.managed_type();
        let is_null = builder.unary(UnaryOp::IsNull, i31ref);
        builder.emit(Op::Trapnz { arg: is_null, code: TrapCode::NullI31Ref });
        let val = builder.bitcast(ref_ty.as_int(), MemFlags::new(), i31ref);
        if self.debug_assertions {
            let is_i31_ref = builder.binary_imm(ImmOp::BandImm, val, I31_REF_DISCRIMINANT as i64);
            builder.emit(Op::Trapz { arg: is_i31_ref, code: TrapCode::DebugAssertion });
        }
        if ref_ty.as_int().bytes() == 8 {
            builder.convert(ConvertOp::Ireduce, Type::I32, val)
        } else {
            val
        }
    }

    /// The value of a small integer, with its sign.
    pub fn translate_i31_get_s(&mut self, builder: &mut FunctionBuilder, i31ref: Value) -> (r:
        Value)
        requires
            old(self)@.isa.wf(),
            old(builder)@.has(i31ref),
        ensures
            *final(self) == *old(self),
            (final(builder)@, r) == old(self)@.i31_get_made(old(builder)@, ImmOp::SshrImm, i31ref),
    {
        let val = self.i31_ref_to_unshifted_value(builder, i31ref);
        builder.binary_imm(ImmOp::SshrImm, val, 1)
    }

    /// The value of a small integer, without a sign.
    pub fn translate_i31_get_u(&mut self, builder: &mut FunctionBuilder, i31ref: Value) -> (r:
        Value)
        requires
            old(self)@.isa.wf(),
            old(builder)@.has(i31ref),
        ensures
            *final(self) == *old(self),
            (final(builder)@, r) == old(self)@.i31_get_made(old(builder)@, ImmOp::UshrImm, i31ref),
    {
        let val = self.i31_ref_to_unshifted_value(builder, i31ref);
        builder.binary_imm(ImmOp::UshrImm, val, 1)
    }

    /// A null reference of a heap type.
    pub fn translate_ref_null(&mut self, builder: &mut FunctionBuilder, ht: WasmHeapType) -> (r:
        Value)
        requires
            old(self)@.isa.wf(),
            crate::cranelift::env::supported_heap_type(ht),
        ensures
            *final(self) == *old(self),
            (final(builder)@, r) == old(self)@.ref_null_made(old(builder)@, ht),
    {
        match ht.top() {
            WasmHeapTopType::Func => builder.iconst(self.isa.pointer_type, 0),
            _ => {
                let ty = self.managed_type();
                builder.emit_value(Op::Null { ty }, ty)
            },
        }
    }

    /// Whether a reference is null.
    pub fn translate_ref_is_null(&mut self, builder: &mut FunctionBuilder, value: Value) -> (r:
        Value)
        requires
            old(builder)@.has(value),
            old(builder)@.ty(value).spec_is_ref() || old(builder)@.ty(value)
                == old(self)@.isa.pointer_type,
        ensures
            *final(self) == *old(self),
            (final(builder)@, r) == old(self)@.ref_is_null_made(old(builder)@, value),
    {
        let bool_is_null = if builder.value_type(value).is_ref() {
            builder.unary(UnaryOp::IsNull, value)
        } else {
            builder.int_compare_imm(IntCC::Equal, value, 0)
        };
        builder.convert(ConvertOp::Uextend, Type::I32, bool_is_null)
    }

    /// Reports to the runtime.
    fn report(&mut self, builder: &mut FunctionBuilder, b: BuiltinFunction, rest: &Vec<Value>)
        requires
            old(self)@.ready(old(builder)@),
        ensures
            (final(builder)@, final(self)@) == old(self)@.reported(old(builder)@, b, rest@),
            final(self)@.ready(final(builder)@),
            final(builder)@.extends(old(builder)@),
    {
        let (callee, vmctx) = self.begin_call(builder, b);
        let mut args: Vec<Value> = vec![vmctx];
        for i in 0..rest.len()
            invariant
                args@ == seq![vmctx] + rest@.take(i as int),
        {
            args.push(rest[i]);
            assert(args@ =~= seq![vmctx] + rest@.take(i + 1));
        }
        assert(rest@.take(rest@.len() as int) =~= rest@);
        builder.call(callee, args);
    }

    /// Whether a function has a name.
    fn is_named(&self, func: FuncIndex, name: &str) -> (r: bool)
        ensures
            r == (name_of(self@.names, func) == Some(name@)),
    {
        let wanted = String::from_str(name);
        let mut i: usize = self.func_names.len();
        let ghost names = self.func_names@;
        assert(names.take(i as int) =~= names);
        while i > 0
            invariant
                names == self.func_names@,
                i <= names.len(),
                wanted@ == name@,
                name_of(names, func) == name_of(names.take(i as int), func),
            decreases i,
        {
            i = i - 1;
            assert(names.take(i + 1).drop_last() =~= names.take(i as int));
            assert(names.take(i + 1).last() == names[i as int]);
            if self.func_names[i].0.as_u32() == func.as_u32() {
                return self.func_names[i].1 == wanted;
            }
        }
        false
    }

    /// What is done before a function's body.
    pub fn before_translate_function(&mut self, builder: &mut FunctionBuilder, func: FuncIndex)
        requires
            old(self)@.ready(old(builder)@),
        ensures
            (final(builder)@, final(self)@) == old(self)@.entry_made(old(builder)@, func),
            final(self)@.ready(final(builder)@),
            final(builder)@.extends(old(builder)@),
    {
        proof {
            reveal_strlit("malloc");
            reveal_strlit("free");
        }
        if self.wmemcheck {
            if self.is_named(func, "malloc") {
                self.report(builder, BuiltinFunction::MallocStart, &Vec::new());
            } else if self.is_named(func, "free") {
                self.report(builder, BuiltinFunction::FreeStart, &Vec::new());
            }
        }
    }

    /// What is done before a function returns, given the parameters of its first block.
    pub fn handle_before_return(
        &mut self,
        builder: &mut FunctionBuilder,
        func: FuncIndex,
        params: &Vec<Value>,
        retvals: &Vec<Value>,
    )
        requires
            old(self)@.ready(old(builder)@),
        ensures
            (final(builder)@, final(self)@) == old(self)@.exit_made(
                old(builder)@,
                func,
                params@,
                retvals@,
            ),
            final(self)@.ready(final(builder)@),
            final(builder)@.extends(old(builder)@),
    {
        proof {
            reveal_strlit("malloc");
            reveal_strlit("free");
        }
        if self.wmemcheck {
            if self.is_named(func, "malloc") {
                let (callee, vmctx) = self.begin_call(builder, BuiltinFunction::CheckMalloc);
                if params.len() >= 3 && retvals.len() >= 1 {
                    let args: Vec<Value> = vec![vmctx, retvals[0], params[2]];
                    assert(args@ =~= seq![vmctx, retvals@[0], params@[2]]);
                    builder.call(callee, args);
                }
            } else if self.is_named(func, "free") {
                let (callee, vmctx) = self.begin_call(builder, BuiltinFunction::CheckFree);
                if params.len() >= 3 {
                    let args: Vec<Value> = vec![vmctx, params[2]];
                    assert(args@ =~= seq![vmctx, params@[2]]);
                    builder.call(callee, args);
                }
            }
        }
    }

    /// Reports an access.
    fn before_access(
        &mut self,
        builder: &mut FunctionBuilder,
        b: BuiltinFunction,
        val_size: u8,
        addr: Value,
        offset: u64,
    )
        requires
            old(self)@.ready(old(builder)@),
        ensures
            (final(builder)@, final(self)@) == old(self)@.access_made(
                old(builder)@,
                b,
                val_size,
                addr,
                offset,
            ),
            final(self)@.ready(final(builder)@),
            final(builder)@.extends(old(builder)@),
    {
        if self.wmemcheck {
            let (callee, vmctx) = self.begin_call(builder, b);
            let num_bytes = builder.iconst(Type::I32, val_size as i64);
            let offset_val = builder.iconst(Type::I64, offset as i64);
            let args: Vec<Value> = vec![vmctx, num_bytes, addr, offset_val];
            assert(args@ =~= seq![vmctx, num_bytes, addr, offset_val]);
            builder.call(callee, args);
        }
    }


    /// What is done before a load.
    pub fn before_load(&mut self, builder: &mut FunctionBuilder, val_size: u8, addr: Value, offset: u64)
        requires
            old(self)@.ready(old(builder)@),
        ensures
            (final(builder)@, final(self)@) == old(self)@.access_made(
                old(builder)@,
                BuiltinFunction::CheckLoad,
                val_size,
                addr,
                offset,
            ),
            final(self)@.ready(final(builder)@),
            final(builder)@.extends(old(builder)@),
    {
        self.before_access(builder, BuiltinFunction::CheckLoad, val_size, addr, offset);
    }

    /// What is done before a store.
    pub fn before_store(&mut self, builder: &mut FunctionBuilder, val_size: u8, addr: Value, offset: u64)
        requires
            old(self)@.ready(old(builder)@),
        ensures
            (final(builder)@, final(self)@) == old(self)@.access_made(
                old(builder)@,
                BuiltinFunction::CheckStore,
                val_size,
                addr,
                offset,
            ),
            final(self)@.ready(final(builder)@),
            final(builder)@.extends(old(builder)@),
    {
        self.before_access(builder, BuiltinFunction::CheckStore, val_size, addr, offset);
    }

    /// What is done when a global is set.
    pub fn update_global(&mut self, builder: &mut FunctionBuilder, global_index: u32, value: Value)
        requires
            old(self)@.ready(old(builder)@),
        ensures
            (final(builder)@, final(self)@) == old(self)@.global_updated(
                old(builder)@,
                global_index,
                value,
            ),
            final(self)@.ready(final(builder)@),
            final(builder)@.extends(old(builder)@),
    {
        if self.wmemcheck && global_index == 0 {
            let rest: Vec<Value> = vec![value];
            assert(rest@ =~= seq![value]);
            self.report(builder, BuiltinFunction::UpdateStackPointer, &rest);
        }
    }

    /// What is done before a memory grows.
    pub fn before_memory_grow(
        &mut self,
        builder: &mut FunctionBuilder,
        num_bytes: Value,
        mem_index: MemoryIndex,
    )
        requires
            old(self)@.ready(old(builder)@),
        ensures
            (final(builder)@, final(self)@) == old(self)@.growth_reported(
                old(builder)@,
                num_bytes,
                mem_index,
            ),
            final(self)@.ready(final(builder)@),
            final(builder)@.extends(old(builder)@),
    {
        if self.wmemcheck && mem_index.as_u32() == 0 {
            let rest: Vec<Value> = vec![num_bytes];
            assert(rest@ =~= seq![num_bytes]);
            self.report(builder, BuiltinFunction::UpdateMemSize, &rest);
        }
    }
}

/// Declarations stay what they are while no function or signature is added.
proof fn lemma_still_declared(builtins: DeclaredBuiltins, before: Code, after: Code)
    requires
        builtins.ready(before),
        after.funcs == before.funcs,
        after.sigs == before.sigs,
    ensures
        builtins.ready(after),
{
    assert forall|b: BuiltinFunction|
        #![trigger builtins.builtins[b.spec_index() as int]]
        builtins.builtins[b.spec_index() as int] is Some implies builtins.names(
        after,
        b,
        builtins.builtins[b.spec_index() as int]->0,
    ) by {
        assert(builtins.names(before, b, builtins.builtins[b.spec_index() as int]->0));
    }
}

} // verus!
