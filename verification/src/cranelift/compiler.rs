//! Trampolines between calling conventions.
//!
//! Host code calls compiled functions through an array of 16-byte slots that holds the arguments
//! before the call and the results after it. Compiled functions call builtin functions through the
//! array of addresses that every context holds.
use crate::builder::{Code, FunctionBuilder};
use crate::builtins::{BuiltinFunction, BuiltinFunctionSignatures};
use crate::cranelift::env::{value_type, wasm_call_signature, TargetIsa, NS_WASM_FUNC};
use crate::indices::FuncIndex;
use crate::ir::{
    AbiParam, ArgumentPurpose, ExtFuncData, FuncRef, GlobalValue, GlobalValueData, IntCC, MemFlags,
    Op, Opcode, SigRef, Signature, SignatureModel, StepModel, TrapCode, Type, Value, ValueData,
};
use crate::types::{FuncTypeModel, WasmFuncType, WasmValType};
use crate::vmoffsets::StaticVMOffsets;
use vstd::prelude::*;

verus! {

/// The number of bytes of a slot of a value array.
pub const VALUE_SIZE: usize = 16;

/// The accesses to value arrays: little-endian, and never trapping.
pub open spec fn array_flags() -> MemFlags {
    MemFlags::spec_new().spec_with_trap_code(None).spec_with_little_endian()
}

/// The signature of functions that are called with an array: the contexts of the callee and of the
/// caller, and the address and the length of the array.
pub open spec fn array_call_signature_of(pointer_type: Type) -> SignatureModel {
    SignatureModel {
        params: seq![
            AbiParam { ty: pointer_type, purpose: ArgumentPurpose::VMContext },
            AbiParam { ty: pointer_type, purpose: ArgumentPurpose::Normal },
            AbiParam { ty: pointer_type, purpose: ArgumentPurpose::Normal },
            AbiParam { ty: pointer_type, purpose: ArgumentPurpose::Normal },
        ],
        returns: Seq::empty(),
    }
}

/// The signature of functions that are called with an array.
pub fn array_call_signature(pointer_type: Type) -> (r: Signature)
    ensures
        r@ == array_call_signature_of(pointer_type),
{
    let normal = AbiParam { ty: pointer_type, purpose: ArgumentPurpose::Normal };
    let vmctx = AbiParam { ty: pointer_type, purpose: ArgumentPurpose::VMContext };
    let params: Vec<AbiParam> = vec![vmctx, normal, normal, normal];
    let rets: Vec<AbiParam> = Vec::new();
    assert(params@ =~= array_call_signature_of(pointer_type).params);
    Signature { params, returns: rets }
}

/// The types of a list of parameters.
pub open spec fn types_of(params: Seq<AbiParam>) -> Seq<Type> {
    params.map_values(|p: AbiParam| p.ty)
}

/// A function of which nothing is recorded.
pub open spec fn blank(signature: SignatureModel) -> Code {
    Code {
        steps: Seq::empty(),
        values: Seq::empty(),
        blocks: Seq::empty(),
        sigs: Seq::empty(),
        funcs: Seq::empty(),
        gvs: Seq::empty(),
        memtypes: Seq::empty(),
        vars: Seq::empty(),
        signature,
        vmctx_param: None,
    }
}

/// A function that has entered its first block, whose parameters are those of the function.
pub open spec fn entered(signature: SignatureModel) -> Code {
    let block = crate::ir::Block(0);
    blank(signature).block_with_params(types_of(signature.params)).emitted(
        Op::SwitchToBlock { block },
    ).emitted(Op::SealBlock { block })
}

/// The parameters of the first block.
pub open spec fn entry_params(signature: SignatureModel) -> Seq<Value> {
    entered(signature).blocks[0]
}

/// Starts a function.
fn enter(signature: Signature) -> (r: (FunctionBuilder, Vec<Value>))
    ensures
        r.0@ == entered(signature@),
        r.1@ == entry_params(signature@),
        r.1@.len() == signature@.params.len(),
        r.0@.has_all(r.1@),
{
    let mut types: Vec<Type> = Vec::new();
    for i in 0..signature.params.len()
        invariant
            types@ == types_of(signature@.params.take(i as int)),
    {
        types.push(signature.params[i].ty);
        assert(types@ =~= types_of(signature@.params.take(i + 1)));
    }
    assert(signature@.params.take(signature@.params.len() as int) =~= signature@.params);
    let mut builder = FunctionBuilder::new(signature);
    assert(builder@.blocks_ok());
    let block = builder.block_with_params(&types);
    let listed = builder.block_params(block);
    let mut params: Vec<Value> = Vec::new();
    for i in 0..listed.len()
        invariant
            params@ == listed@.take(i as int),
    {
        params.push(listed[i]);
        assert(params@ =~= listed@.take(i + 1));
    }
    assert(listed@.take(listed@.len() as int) =~= listed@);
    builder.switch_to_block(block);
    builder.seal_block(block);
    (builder, params)
}

/// The offset of a slot of a value array.
pub open spec fn slot_offset(slot: int) -> i32 {
    (slot * VALUE_SIZE) as i32
}

/// The code that loads values from the slots of an array.
pub open spec fn array_loaded(code: Code, types: Seq<WasmValType>, base: Value, pointer_type: Type) -> Code {
    Code {
        steps: code.steps + Seq::new(
            types.len(),
            |i: int|
                StepModel::Op(
                    Op::Load {
                        op: Opcode::Load,
                        ty: crate::cranelift::env::value_type_of(types[i], pointer_type),
                        flags: array_flags(),
                        addr: base,
                        offset: slot_offset(i),
                    },
                ),
        ),
        values: code.values + Seq::new(
            types.len(),
            |i: int|
                ValueData {
                    ty: crate::cranelift::env::value_type_of(types[i], pointer_type),
                    fact: None,
                },
        ),
        ..code
    }
}

/// The code that stores values to the slots of an array.
pub open spec fn array_stored(code: Code, values: Seq<Value>, base: Value) -> Code {
    Code {
        steps: code.steps + Seq::new(
            values.len(),
            |i: int|
                StepModel::Op(
                    Op::Store {
                        op: Opcode::Store,
                        flags: array_flags(),
                        val: values[i],
                        addr: base,
                        offset: slot_offset(i),
                    },
                ),
        ),
        ..code
    }
}

/// What trampolines depend on.
#[derive(Debug, Clone, Copy, PartialEq, Eq, Structural)]
pub struct CraneliftCompiler {
    pub isa: TargetIsa,
    pub offsets: StaticVMOffsets,
    /// The value at the start of every context of a module.
    pub vmctx_magic: u32,
    /// Where a frame holds the frame pointer of its caller.
    pub next_older_fp_from_fp_offset: i32,
    /// Whether code checks its own assumptions.
    pub debug_assertions: bool,
}

impl CraneliftCompiler {
    /// The offsets are those for the target's pointers.
    pub open spec fn wf(self) -> bool {
        &&& self.isa.wf()
        &&& self.offsets.wf()
    }

    /// The code that checks that an array is long enough.
    pub open spec fn capacity_checked(self, code: Code, length: nat, capacity: Value) -> Code {
        if self.debug_assertions {
            code.int_compare_imm(IntCC::UnsignedGreaterThanOrEqual, capacity, length as i64).emitted(
                Op::Trapz { arg: code.next_value(), code: TrapCode::DebugAssertion },
            )
        } else {
            code
        }
    }

    /// Checks that an array is long enough.
    fn debug_assert_enough_capacity_for_length(
        &self,
        builder: &mut FunctionBuilder,
        length: usize,
        capacity: Value,
    )
        requires
            old(builder)@.has(capacity),
            length <= i32::MAX,
        ensures
            final(builder)@ == self.capacity_checked(old(builder)@, length as nat, capacity),
            final(builder)@.grew(old(builder)@),
    {
        if self.debug_assertions {
            let enough_capacity = builder.int_compare_imm(
                IntCC::UnsignedGreaterThanOrEqual,
                capacity,
                length as i64,
            );
            builder.emit(Op::Trapz { arg: enough_capacity, code: TrapCode::DebugAssertion });
        }
    }

    /// The code that checks that a context belongs to a module.
    pub open spec fn kind_checked(self, code: Code, vmctx: Value) -> Code {
        if self.debug_assertions {
            let c1 = code.load(
                Opcode::Load,
                Type::I32,
                MemFlags::spec_trusted().spec_with_little_endian(),
                vmctx,
                0,
            );
            c1.int_compare_imm(
                IntCC::Equal,
                code.next_value(),
                self.vmctx_magic as i64,
            ).emitted(Op::Trapz { arg: c1.next_value(), code: TrapCode::DebugAssertion })
        } else {
            code
        }
    }

    /// Checks that a context belongs to a module.
    fn debug_assert_vmctx_kind(&self, builder: &mut FunctionBuilder, vmctx: Value)
        ensures
            final(builder)@ == self.kind_checked(old(builder)@, vmctx),
            final(builder)@.grew(old(builder)@),
    {
        if self.debug_assertions {
            let magic = builder.load(
                Opcode::Load,
                Type::I32,
                MemFlags::trusted().with_little_endian(),
                vmctx,
                0,
            );
            let is_expected_vmctx = builder.int_compare_imm(
                IntCC::Equal,
                magic,
                self.vmctx_magic as i64,
            );
            builder.emit(Op::Trapz { arg: is_expected_vmctx, code: TrapCode::DebugAssertion });
        }
    }

    /// Loads values from the slots of an array.
    pub fn load_values_from_array(
        &self,
        types: &Vec<WasmValType>,
        builder: &mut FunctionBuilder,
        values_vec_ptr: Value,
        values_vec_capacity: Value,
    ) -> (r: Vec<Value>)
        requires
            types@.len() * VALUE_SIZE <= i32::MAX,
            old(builder)@.has(values_vec_capacity),
        ensures
            final(builder)@ == array_loaded(
                self.capacity_checked(old(builder)@, types@.len(), values_vec_capacity),
                types@,
                values_vec_ptr,
                self.isa.pointer_type,
            ),
            r@ == self.capacity_checked(
                old(builder)@,
                types@.len(),
                values_vec_capacity,
            ).next_values(types@.len()),
            forall|i: int| 0 <= i < r@.len() ==> (#[trigger] r@[i]).0 < final(builder)@.values.len(),
    {
        let pointer_type = self.isa.pointer_type;
        self.debug_assert_enough_capacity_for_length(builder, types.len(), values_vec_capacity);
        let flags = MemFlags::new().with_trap_code(None).with_little_endian();
        let mut results: Vec<Value> = Vec::new();
        let ghost checked = builder@;
        for i in 0..types.len()
            invariant
                types@.len() * VALUE_SIZE <= i32::MAX,
                flags == array_flags(),
                pointer_type == self.isa.pointer_type,
                builder@ == array_loaded(
                    checked,
                    types@.take(i as int),
                    values_vec_ptr,
                    pointer_type,
                ),
                results@.len() == i,
                forall|k: int| 0 <= k < i ==> (#[trigger] results@[k]).0 == checked.values.len() + k,
        {
            let ty = value_type(&types[i], pointer_type);
            let offset: usize = i * VALUE_SIZE;
            let val = builder.load(Opcode::Load, ty, flags, values_vec_ptr, offset as i32);
            results.push(val);
            let ghost next = array_loaded(
                checked,
                types@.take(i + 1),
                values_vec_ptr,
                pointer_type,
            );
            assert(builder@.steps =~= next.steps);
            assert(builder@.values =~= next.values);
        }
        assert(types@.take(types@.len() as int) =~= types@);
        assert(results@ =~= checked.next_values(types@.len()));
        results
    }

    /// Stores values to the slots of an array.
    pub fn store_values_to_array(
        &self,
        builder: &mut FunctionBuilder,
        values: &Vec<Value>,
        values_vec_ptr: Value,
        values_vec_capacity: Value,
    )
        requires
            values@.len() * VALUE_SIZE <= i32::MAX,
            old(builder)@.has(values_vec_capacity),
        ensures
            final(builder)@ == array_stored(
                self.capacity_checked(old(builder)@, values@.len(), values_vec_capacity),
                values@,
                values_vec_ptr,
            ),
    {
        self.debug_assert_enough_capacity_for_length(builder, values.len(), values_vec_capacity);
        let flags = MemFlags::new().with_trap_code(None).with_little_endian();
        let ghost checked = builder@;
        assert(checked.steps =~= array_stored(checked, values@.take(0), values_vec_ptr).steps);
        for i in 0..values.len()
            invariant
                values@.len() * VALUE_SIZE <= i32::MAX,
                flags == array_flags(),
                builder@ == array_stored(checked, values@.take(i as int), values_vec_ptr),
        {
            let offset: usize = i * VALUE_SIZE;
            builder.emit(
                Op::Store {
                    op: Opcode::Store,
                    flags,
                    val: values[i],
                    addr: values_vec_ptr,
                    offset: offset as i32,
                },
            );
            assert(builder@.steps =~= array_stored(
                checked,
                values@.take(i + 1),
                values_vec_ptr,
            ).steps);
        }
        assert(values@.take(values@.len() as int) =~= values@);
    }

    /// The number of slots that the parameters and the results of a function share.
    pub open spec fn slots_of(ty: FuncTypeModel) -> nat {
        if ty.params.len() < ty.results.len() {
            ty.results.len()
        } else {
            ty.params.len()
        }
    }

    /// The code that spills arguments to an array on the stack, and the array's address.
    pub open spec fn spilled(self, code: Code, ty: FuncTypeModel, args: Seq<Value>) -> (Code, Value) {
        let len = Self::slots_of(ty);
        let c1 = code.emitted(Op::StackSlot { bytes: (len * VALUE_SIZE) as u32 });
        let address = Op::StackAddress { ty: self.isa.pointer_type, slot: code.next_inst() };
        let c2 = c1.defined(address, self.isa.pointer_type);
        let c3 = c2.iconst(Type::I32, len as i64);
        (
            array_stored(
                self.capacity_checked(c3, args.len(), c2.next_value()),
                args,
                c1.next_value(),
            ),
            c1.next_value(),
        )
    }

    /// Spills arguments to an array on the stack that also has room for the results.
    pub fn allocate_stack_array_and_spill_args(
        &self,
        ty: &WasmFuncType,
        builder: &mut FunctionBuilder,
        args: &Vec<Value>,
    ) -> (r: (Value, u32))
        requires
            args@.len() == ty@.params.len(),
            ty@.params.len() * VALUE_SIZE <= i32::MAX,
            ty@.results.len() * VALUE_SIZE <= i32::MAX,
        ensures
            (final(builder)@, r.0) == self.spilled(old(builder)@, ty@, args@),
            r.1 == Self::slots_of(ty@),
    {
        let values_vec_len: usize = if ty.params.len() < ty.results.len() {
            ty.results.len()
        } else {
            ty.params.len()
        };
        let byte_size: usize = values_vec_len * VALUE_SIZE;
        let ghost before = builder@;
        let slot = builder.stack_slot(byte_size as u32);
        let pointer_type = self.isa.pointer_type;
        let values_vec_ptr = builder.emit_value(
            Op::StackAddress { ty: pointer_type, slot },
            pointer_type,
        );
        let len = builder.iconst(Type::I32, values_vec_len as i64);
        self.store_values_to_array(builder, args, values_vec_ptr, len);
        (values_vec_ptr, values_vec_len as u32)
    }

    /// The code that calls a compiled function.
    pub open spec fn declared_and_called(
        code: Code,
        signature: SignatureModel,
        func_index: u32,
        args: Seq<Value>,
    ) -> Code {
        let callee = FuncRef(code.funcs.len() as usize);
        (Code {
            sigs: code.sigs.push(signature),
            funcs: code.funcs.push(
                ExtFuncData {
                    namespace: NS_WASM_FUNC,
                    index: func_index,
                    signature: SigRef(code.sigs.len() as usize),
                    colocated: true,
                },
            ),
            ..code
        }).called(StepModel::Call { callee, args }, signature.returns)
    }

    /// Declares a compiled function and calls it.
    fn declare_and_call(
        builder: &mut FunctionBuilder,
        signature: Signature,
        func_index: u32,
        args: Vec<Value>,
    ) -> (r: Vec<Value>)
        ensures
            final(builder)@ == Self::declared_and_called(
                old(builder)@,
                signature@,
                func_index,
                args@,
            ),
            r@ == old(builder)@.next_values(signature@.returns.len()),
    {
        let signature = builder.import_signature(signature);
        let callee = builder.import_function(
            ExtFuncData { namespace: NS_WASM_FUNC, index: func_index, signature, colocated: true },
        );
        builder.call(callee, args)
    }

    /// The function that a compiled function's translation starts from: it checks the stack
    /// against the limit in its context.
    pub open spec fn prepared(self, ty: FuncTypeModel) -> Code {
        blank(
            crate::cranelift::env::wasm_call_signature_of(ty, self.isa.pointer_type),
        ).gv_created(GlobalValueData::VMContext, None).gv_created(
            GlobalValueData::Load {
                base: GlobalValue(0),
                offset: (3 * self.offsets.ptr_size) as i32,
                global_type: self.isa.pointer_type,
                flags: MemFlags::spec_trusted(),
            },
            None,
        )
    }

    /// Prepares the translation of a function; gives the global value of its stack limit.
    pub fn prepare_function(&self, ty: &WasmFuncType) -> (r: (FunctionBuilder, GlobalValue))
        requires
            self.wf(),
        ensures
            r.0@ == self.prepared(ty@),
            r.1 == GlobalValue(1),
    {
        let mut builder = FunctionBuilder::new(wasm_call_signature(ty, self.isa.pointer_type));
        let vmctx = builder.create_global_value(GlobalValueData::VMContext, None);
        let stack_limit = builder.create_global_value(
            GlobalValueData::Load {
                base: vmctx,
                offset: self.offsets.vmctx_stack_limit() as i32,
                global_type: self.isa.pointer_type,
                flags: MemFlags::trusted(),
            },
            None,
        );
        (builder, stack_limit)
    }

    /// The trampoline through which host code calls a compiled function: it loads the arguments,
    /// records the frame that compiled code was entered from, calls the function, stores the
    /// results, and leaves.
    pub open spec fn array_to_wasm(self, ty: FuncTypeModel, index: FuncIndex) -> Code {
        let pointer_type = self.isa.pointer_type;
        let sig = array_call_signature_of(pointer_type);
        let params = entry_params(sig);
        let (vmctx, caller, base, capacity) = (params[0], params[1], params[2], params[3]);
        let c1 = self.capacity_checked(entered(sig), ty.params.len(), capacity);
        let c2 = array_loaded(c1, ty.params, base, pointer_type);
        let c3 = self.kind_checked(c2, vmctx);
        let c4 = c3.defined(Op::FramePointer { ty: pointer_type }, pointer_type).emitted(
            Op::Store {
                op: Opcode::Store,
                flags: MemFlags::spec_trusted(),
                val: c3.next_value(),
                addr: vmctx,
                offset: (6 * self.offsets.ptr_size) as i32,
            },
        );
        let c5 = Self::declared_and_called(
            c4,
            crate::cranelift::env::wasm_call_signature_of(ty, pointer_type),
            index.0,
            seq![vmctx, caller] + c1.next_values(ty.params.len()),
        );
        let c6 = array_stored(
            self.capacity_checked(c5, ty.results.len(), capacity),
            c4.next_values(ty.results.len()),
            base,
        );
        c6.emitted(Op::Trap { code: TrapCode::Exit })
    }

    /// Builds the trampoline through which host code calls a compiled function.
    pub fn compile_array_to_wasm_trampoline(&self, ty: &WasmFuncType, index: FuncIndex) -> (r:
        FunctionBuilder)
        requires
            self.wf(),
            ty@.params.len() * VALUE_SIZE <= i32::MAX,
            ty@.results.len() * VALUE_SIZE <= i32::MAX,
        ensures
            r@ == self.array_to_wasm(ty@, index),
    {
        let pointer_type = self.isa.pointer_type;
        let wasm_call_sig = wasm_call_signature(ty, pointer_type);
        let (mut builder, params) = enter(array_call_signature(pointer_type));
        let (vmctx, caller_vmctx) = (params[0], params[1]);
        let (values_vec_ptr, values_vec_len) = (params[2], params[3]);
        assert(builder@.has(params@[3]));
        let values = self.load_values_from_array(
            &ty.params,
            &mut builder,
            values_vec_ptr,
            values_vec_len,
        );
        let mut args: Vec<Value> = vec![vmctx, caller_vmctx];
        for i in 0..values.len()
            invariant
                args@ == seq![vmctx, caller_vmctx] + values@.take(i as int),
        {
            args.push(values[i]);
            assert(args@ =~= seq![vmctx, caller_vmctx] + values@.take(i + 1));
        }
        assert(values@.take(values@.len() as int) =~= values@);
        self.debug_assert_vmctx_kind(&mut builder, vmctx);
        let fp = builder.emit_value(Op::FramePointer { ty: pointer_type }, pointer_type);
        builder.emit(
            Op::Store {
                op: Opcode::Store,
                flags: MemFlags::trusted(),
                val: fp,
                addr: vmctx,
                offset: self.offsets.vmctx_last_wasm_entry_fp() as i32,
            },
        );
        let results = Self::declare_and_call(
            &mut builder,
            wasm_call_sig,
            index.as_u32(),
            args,
        );
        self.store_values_to_array(&mut builder, &results, values_vec_ptr, values_vec_len);
        builder.emit(Op::Trap { code: TrapCode::Exit });
        builder
    }

    /// The code that records, in the context, the frame and the address that compiled code was
    /// left at. The frame is that of the trampoline's caller.
    pub open spec fn exit_saved(self, code: Code, vmctx: Value) -> Code {
        let pointer_type = self.isa.pointer_type;
        let c1 = code.defined(Op::FramePointer { ty: pointer_type }, pointer_type);
        let c2 = c1.load(
            Opcode::Load,
            pointer_type,
            MemFlags::spec_trusted(),
            code.next_value(),
            self.next_older_fp_from_fp_offset,
        ).emitted(
            Op::Store {
                op: Opcode::Store,
                flags: MemFlags::spec_trusted(),
                val: c1.next_value(),
                addr: vmctx,
                offset: (4 * self.offsets.ptr_size) as i32,
            },
        );
        c2.defined(Op::ReturnAddress { ty: pointer_type }, pointer_type).emitted(
            Op::Store {
                op: Opcode::Store,
                flags: MemFlags::spec_trusted(),
                val: c2.next_value(),
                addr: vmctx,
                offset: (5 * self.offsets.ptr_size) as i32,
            },
        )
    }

    /// Records where compiled code was left.
    fn save_last_wasm_exit_fp_and_pc(&self, builder: &mut FunctionBuilder, vmctx: Value)
        requires
            self.wf(),
        ensures
            final(builder)@ == self.exit_saved(old(builder)@, vmctx),
            final(builder)@.grew(old(builder)@),
    {
        let pointer_type = self.isa.pointer_type;
        let trampoline_fp = builder.emit_value(Op::FramePointer { ty: pointer_type }, pointer_type);
        let wasm_fp = builder.load(
            Opcode::Load,
            pointer_type,
            MemFlags::trusted(),
            trampoline_fp,
            self.next_older_fp_from_fp_offset,
        );
        builder.emit(
            Op::Store {
                op: Opcode::Store,
                flags: MemFlags::trusted(),
                val: wasm_fp,
                addr: vmctx,
                offset: self.offsets.vmctx_last_wasm_exit_fp() as i32,
            },
        );
        let wasm_pc = builder.emit_value(Op::ReturnAddress { ty: pointer_type }, pointer_type);
        builder.emit(
            Op::Store {
                op: Opcode::Store,
                flags: MemFlags::trusted(),
                val: wasm_pc,
                addr: vmctx,
                offset: self.offsets.vmctx_last_wasm_exit_pc() as i32,
            },
        );
    }

    /// The trampoline through which compiled code calls a builtin function: it records where
    /// compiled code was left, finds the function's address in the context, passes on its own
    /// arguments, and returns the function's results.
    pub open spec fn wasm_to_builtin(self, builtin: BuiltinFunction) -> Code {
        let pointer_type = self.isa.pointer_type;
        let sig = builtin.spec_signature(pointer_type);
        let params = entry_params(sig);
        let flags = MemFlags::spec_trusted().spec_with_readonly();
        let c1 = self.exit_saved(self.kind_checked(entered(sig), params[0]), params[0]);
        let c2 = c1.load(
            Opcode::Load,
            pointer_type,
            flags,
            params[0],
            self.offsets.ptr_size as i32,
        );
        let c3 = c2.load(
            Opcode::Load,
            pointer_type,
            flags,
            c1.next_value(),
            (builtin.spec_index() * pointer_type.spec_bytes()) as i32,
        );
        let c4 = Code { sigs: c3.sigs.push(sig), ..c3 };
        c4.called(
            StepModel::CallIndirect {
                signature: SigRef(c3.sigs.len() as usize),
                callee: c2.next_value(),
                args: params,
            },
            sig.returns,
        ).step(StepModel::Return { args: c4.next_values(sig.returns.len()) })
    }

    /// Builds the trampoline through which compiled code calls a builtin function.
    pub fn compile_wasm_to_builtin(&self, builtin: BuiltinFunction) -> (r: FunctionBuilder)
        requires
            self.wf(),
        ensures
            r@ == self.wasm_to_builtin(builtin),
    {
        let pointer_type = self.isa.pointer_type;
        let signatures = BuiltinFunctionSignatures::new(pointer_type);
        let (mut builder, params) = enter(signatures.signature(builtin));
        assert(params@.len() >= 1);
        let vmctx = params[0];
        self.debug_assert_vmctx_kind(&mut builder, vmctx);
        self.save_last_wasm_exit_fp_and_pc(&mut builder, vmctx);
        let mem_flags = MemFlags::trusted().with_readonly();
        let array_addr = builder.load(
            Opcode::Load,
            pointer_type,
            mem_flags,
            vmctx,
            self.offsets.vmctx_builtin_functions() as i32,
        );
        let func_offset: u32 = builtin.index() * pointer_type.bytes() as u32;
        let func_addr = builder.load(
            Opcode::Load,
            pointer_type,
            mem_flags,
            array_addr,
            func_offset as i32,
        );
        let sig = builder.import_signature(signatures.signature(builtin));
        let results = builder.call_indirect(sig, func_addr, params);
        builder.return_(results);
        builder
    }
}

} // verus!
