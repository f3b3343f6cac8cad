//! Direct and indirect calls.
use crate::builder::{Code, FunctionBuilder};
use crate::cranelift::code_translator::Reachability;
use crate::cranelift::env::TranslationEnvironment;
use crate::cranelift::table::CraneliftTable;
use crate::indices::{CanonicalizedTypeIndex, FuncIndex, TableIndex, TypeIndex};
use crate::ir::{
    FuncRef, IntCC, MemFlags, Op, Opcode, SigRef, StepModel, TrapCode, Type, Value,
};
use crate::types::WasmHeapTypeInner;
use crate::vmoffsets::{VMFUNC_REF_TYPE_INDEX, VMFUNC_REF_VMCTX, VMFUNC_REF_WASM_CALL};
use vstd::prelude::*;

verus! {

/// How the type of the callee of an indirect call is checked.
#[derive(Debug, Clone, Copy, PartialEq, Eq, Structural)]
pub enum CheckIndirectCallTypeSignature {
    /// The code compares the types.
    Runtime,
    /// The types are known to match; the reference may still be null.
    StaticMatch { may_be_null: bool },
    /// The call is known to trap.
    StaticTrap,
}

/// A call site: a regular call, or a tail call that replaces the caller.
#[derive(Debug, Clone, Copy, PartialEq, Eq, Structural)]
pub struct CallBuilder {
    pub tail: bool,
}

/// The flags of loads from parts of the context that never change.
pub open spec fn readonly_flags() -> MemFlags {
    MemFlags::spec_trusted().spec_with_readonly()
}

/// Prefixes a list of arguments with the contexts of the callee and of the caller.
fn with_contexts(callee_vmctx: Value, caller_vmctx: Value, call_args: &Vec<Value>) -> (r: Vec<
    Value,
>)
    ensures
        r@ == seq![callee_vmctx, caller_vmctx] + call_args@,
{
    let mut args: Vec<Value> = Vec::new();
    args.push(callee_vmctx);
    args.push(caller_vmctx);
    for i in 0..call_args.len()
        invariant
            args@ == seq![callee_vmctx, caller_vmctx] + call_args@.take(i as int),
    {
        args.push(call_args[i]);
        assert(args@ =~= seq![callee_vmctx, caller_vmctx] + call_args@.take(i + 1));
    }
    assert(call_args@.take(call_args@.len() as int) =~= call_args@);
    args
}

impl CallBuilder {
    /// A regular call.
    pub fn new() -> (r: Self)
        ensures
            !r.tail,
    {
        CallBuilder { tail: false }
    }

    /// A tail call.
    pub fn new_tail() -> (r: Self)
        ensures
            r.tail,
    {
        CallBuilder { tail: true }
    }

    /// The code of a direct call, and its results.
    pub open spec fn directly_called(
        self,
        code: Code,
        callee: FuncRef,
        args: Seq<Value>,
    ) -> (Code, Seq<Value>) {
        if self.tail {
            (code.step(StepModel::ReturnCall { callee, args }), Seq::empty())
        } else {
            let rets = code.sig_of(callee).returns;
            (code.called(StepModel::Call { callee, args }, rets), code.next_values(rets.len()))
        }
    }

    fn direct_call_inst(&self, builder: &mut FunctionBuilder, callee: FuncRef, args: Vec<Value>)
        -> (r: Vec<Value>)
        requires
            old(builder)@.has_func(callee),
        ensures
            (final(builder)@, r@) == self.directly_called(old(builder)@, callee, args@),
            final(builder)@.has_all(r@),
            final(builder)@.grew(old(builder)@),
    {
        if self.tail {
            builder.return_call(callee, args);
            Vec::new()
        } else {
            builder.call(callee, args)
        }
    }

    /// The code of a call through an address, and its results.
    pub open spec fn indirectly_called(
        self,
        code: Code,
        signature: SigRef,
        callee: Value,
        args: Seq<Value>,
    ) -> (Code, Seq<Value>) {
        if self.tail {
            (code.step(StepModel::ReturnCallIndirect { signature, callee, args }), Seq::empty())
        } else {
            let rets = code.sigs[signature.0 as int].returns;
            (
                code.called(StepModel::CallIndirect { signature, callee, args }, rets),
                code.next_values(rets.len()),
            )
        }
    }

    fn indirect_call_inst(
        &self,
        builder: &mut FunctionBuilder,
        sig_ref: SigRef,
        func_addr: Value,
        args: Vec<Value>,
    ) -> (r: Vec<Value>)
        requires
            old(builder)@.has_sig(sig_ref),
        ensures
            (final(builder)@, r@) == self.indirectly_called(
                old(builder)@,
                sig_ref,
                func_addr,
                args@,
            ),
            final(builder)@.has_all(r@),
            final(builder)@.grew(old(builder)@),
    {
        if self.tail {
            builder.return_call_indirect(sig_ref, func_addr, args);
            Vec::new()
        } else {
            builder.call_indirect(sig_ref, func_addr, args)
        }
    }

    /// The code of a call to a function of the module, and its results.
    ///
    /// A function that the module defines is called by name, with its own context as the context of
    /// the callee. An imported function is called through its entry in the context.
    #[verifier::opaque]
    pub open spec fn call_made<'a>(
        self,
        code: Code,
        env: TranslationEnvironment<'a>,
        callee_index: FuncIndex,
        callee: FuncRef,
        call_args: Seq<Value>,
    ) -> (Code, TranslationEnvironment<'a>, Seq<Value>) {
        let caller_vmctx = code.vmctx_param->0;
        if callee_index.0 >= env.module.num_imported_functions {
            let (c1, results) = self.directly_called(
                code,
                callee,
                seq![caller_vmctx, caller_vmctx] + call_args,
            );
            (c1, env, results)
        } else {
            let pointer_type = env.isa.pointer_type;
            let import = env.offsets.imported_functions + callee_index.0
                * crate::vmoffsets::SIZE_OF_VMFUNCTION_IMPORT;
            let (c1, env1, base) = env.vmctx_val_made(code);
            let c2 = c1.load(
                Opcode::Load,
                pointer_type,
                readonly_flags(),
                base,
                (import + crate::vmoffsets::VMFUNCTION_IMPORT_WASM_CALL) as i32,
            );
            let c3 = c2.load(
                Opcode::Load,
                pointer_type,
                readonly_flags(),
                base,
                (import + crate::vmoffsets::VMFUNCTION_IMPORT_VMCTX) as i32,
            );
            let (c4, results) = self.indirectly_called(
                c3,
                code.funcs[callee.0 as int].signature,
                c1.next_value(),
                seq![c2.next_value(), caller_vmctx] + call_args,
            );
            (c4, env1, results)
        }
    }

    /// Calls a function of the module; returns the results.
    pub fn direct_call(
        &self,
        builder: &mut FunctionBuilder,
        env: &mut TranslationEnvironment,
        callee_index: FuncIndex,
        callee: FuncRef,
        call_args: &Vec<Value>,
    ) -> (r: Vec<Value>)
        requires
            old(env).ready(old(builder)@),
            old(builder)@.has_func(callee),
            old(builder)@.vmctx_param is Some,
        ensures
            (final(builder)@, *final(env), r@) == self.call_made(
                old(builder)@,
                *old(env),
                callee_index,
                callee,
                call_args@,
            ),
            final(env).ready(final(builder)@),
            final(builder)@.has_all(r@),
            final(builder)@.extends(old(builder)@),
    {
        proof {
            reveal(CallBuilder::call_made);
        }
        let caller_vmctx = builder.special_param().unwrap();
        if !env.module.is_imported_func(callee_index) {
            let args = with_contexts(caller_vmctx, caller_vmctx, call_args);
            self.direct_call_inst(builder, callee, args)
        } else {
            let pointer_type = env.pointer_type();
            let sig_ref = builder.callee_signature(callee);
            let base = env.vmctx_val(builder);
            let mem_flags = MemFlags::trusted().with_readonly();
            let body_offset: u32 = env.offsets.vmctx_vmfunction_import_wasm_call(callee_index);
            let func_addr = builder.load(
                Opcode::Load,
                pointer_type,
                mem_flags,
                base,
                body_offset as i32,
            );
            let vmctx_offset: u32 = env.offsets.vmctx_vmfunction_import_vmctx(callee_index);
            let vmctx = builder.load(
                Opcode::Load,
                pointer_type,
                mem_flags,
                base,
                vmctx_offset as i32,
            );
            let args = with_contexts(vmctx, caller_vmctx, call_args);
            self.indirect_call_inst(builder, sig_ref, func_addr, args)
        }
    }

    /// Whether functions of a type can be called through a table.
    pub open spec fn callable(
        env: TranslationEnvironment,
        table_index: TableIndex,
        ty_index: TypeIndex,
    ) -> bool {
        let element = env.module.tables@[table_index.0 as int].element_type;
        &&& table_index.0 < env.module.tables@.len()
        &&& ty_index.0 < env.module.types@.len()
        &&& !element.heap_type.shared
        &&& match element.heap_type.ty {
            WasmHeapTypeInner::Func => ty_index.0 * 4 <= i32::MAX,
            WasmHeapTypeInner::ConcreteFunc(CanonicalizedTypeIndex::Module(_)) => true,
            WasmHeapTypeInner::NoFunc => element.nullable,
            _ => false,
        }
    }

    /// A load of the type index of a function reference, which traps where the reference is null.
    pub open spec fn type_index_loaded(code: Code, funcref_ptr: Value) -> Code {
        code.load(
            Opcode::Load,
            Type::I32,
            readonly_flags().spec_with_trap_code(Some(TrapCode::IndirectCallToNull)),
            funcref_ptr,
            VMFUNC_REF_TYPE_INDEX as i32,
        )
    }

    /// The code that checks the type of a callee, and what is then known.
    ///
    /// For tables of arbitrary functions the code compares the type of the reference with the
    /// expected one. For tables of one type the answer is known; a mismatch always traps, and so
    /// does any call through a table that can only hold null.
    #[verifier::opaque]
    pub open spec fn signature_checked<'a>(
        code: Code,
        env: TranslationEnvironment<'a>,
        table_index: TableIndex,
        ty_index: TypeIndex,
        funcref_ptr: Value,
    ) -> (Code, TranslationEnvironment<'a>, CheckIndirectCallTypeSignature) {
        let element = env.module.tables@[table_index.0 as int].element_type;
        match element.heap_type.ty {
            WasmHeapTypeInner::Func => {
                let (c1, env1, vmctx) = env.vmctx_val_made(code);
                let type_ids = c1.next_value();
                let c2 = c1.load(
                    Opcode::Load,
                    env.isa.pointer_type,
                    readonly_flags(),
                    vmctx,
                    (2 * env.offsets.static_.ptr_size) as i32,
                );
                let expected = c2.next_value();
                let c3 = c2.load(
                    Opcode::Load,
                    Type::I32,
                    readonly_flags(),
                    type_ids,
                    (ty_index.0 * 4) as i32,
                );
                let actual = c3.next_value();
                let c4 = Self::type_index_loaded(c3, funcref_ptr);
                let equal = c4.next_value();
                let c5 = c4.int_compare(IntCC::Equal, expected, actual);
                (
                    c5.emitted(Op::Trapz { arg: equal, code: TrapCode::BadSignature }),
                    env1,
                    CheckIndirectCallTypeSignature::Runtime,
                )
            },
            WasmHeapTypeInner::ConcreteFunc(CanonicalizedTypeIndex::Module(expected)) => {
                if env.module.types@[ty_index.0 as int] == expected {
                    (
                        code,
                        env,
                        CheckIndirectCallTypeSignature::StaticMatch {
                            may_be_null: element.nullable,
                        },
                    )
                } else {
                    let c1 = if element.nullable {
                        Self::type_index_loaded(code, funcref_ptr)
                    } else {
                        code
                    };
                    (
                        c1.emitted(Op::Trap { code: TrapCode::BadSignature }),
                        env,
                        CheckIndirectCallTypeSignature::StaticTrap,
                    )
                }
            },
            _ => (
                code.emitted(Op::Trap { code: TrapCode::IndirectCallToNull }),
                env,
                CheckIndirectCallTypeSignature::StaticTrap,
            ),
        }
    }

    fn load_type_index(builder: &mut FunctionBuilder, funcref_ptr: Value) -> (r: Value)
        ensures
            final(builder)@ == Self::type_index_loaded(old(builder)@, funcref_ptr),
            r == old(builder)@.next_value(),
            r.0 == old(builder)@.values.len(),
    {
        builder.load(
            Opcode::Load,
            Type::I32,
            MemFlags::trusted().with_readonly().with_trap_code(Some(TrapCode::IndirectCallToNull)),
            funcref_ptr,
            VMFUNC_REF_TYPE_INDEX as i32,
        )
    }

    /// Checks the type of a callee.
    fn check_indirect_call_type_signature(
        &self,
        builder: &mut FunctionBuilder,
        env: &mut TranslationEnvironment,
        table_index: TableIndex,
        ty_index: TypeIndex,
        funcref_ptr: Value,
    ) -> (r: CheckIndirectCallTypeSignature)
        requires
            old(env).ready(old(builder)@),
            Self::callable(*old(env), table_index, ty_index),
        ensures
            (final(builder)@, *final(env), r) == Self::signature_checked(
                old(builder)@,
                *old(env),
                table_index,
                ty_index,
                funcref_ptr,
            ),
            final(env).ready(final(builder)@),
            final(builder)@.extends(old(builder)@),
            final(builder)@.sigs == old(builder)@.sigs,
            final(builder)@.vmctx_param == old(builder)@.vmctx_param,
    {
        proof {
            reveal(CallBuilder::signature_checked);
        }
        let element = env.module.tables[table_index.index()].element_type;
        match element.heap_type.ty {
            WasmHeapTypeInner::Func => {
                let mem_flags = MemFlags::trusted().with_readonly();
                let vmctx = env.vmctx_val(builder);
                let type_ids_offset: i32 = env.offsets.static_.vmctx_type_ids() as i32;
                let type_ids = builder.load(
                    Opcode::Load,
                    env.pointer_type(),
                    mem_flags,
                    vmctx,
                    type_ids_offset,
                );
                let offset: u32 = ty_index.as_u32()
                    * env.offsets.static_.size_of_vmshared_type_index() as u32;
                let expected_type_id = builder.load(
                    Opcode::Load,
                    Type::I32,
                    mem_flags,
                    type_ids,
                    offset as i32,
                );
                let actual_type_id = Self::load_type_index(builder, funcref_ptr);
                let equal = builder.int_compare(IntCC::Equal, expected_type_id, actual_type_id);
                builder.emit(Op::Trapz { arg: equal, code: TrapCode::BadSignature });
                CheckIndirectCallTypeSignature::Runtime
            },
            WasmHeapTypeInner::ConcreteFunc(CanonicalizedTypeIndex::Module(expected_type)) => {
                let actual_ty = env.module.types[ty_index.index()];
                if actual_ty == expected_type {
                    CheckIndirectCallTypeSignature::StaticMatch { may_be_null: element.nullable }
                } else {
                    if element.nullable {
                        Self::load_type_index(builder, funcref_ptr);
                    }
                    builder.emit(Op::Trap { code: TrapCode::BadSignature });
                    CheckIndirectCallTypeSignature::StaticTrap
                }
            },
            _ => {
                builder.emit(Op::Trap { code: TrapCode::IndirectCallToNull });
                CheckIndirectCallTypeSignature::StaticTrap
            },
        }
    }

    /// Loads of the address and the context of a function reference.
    pub open spec fn func_and_vmctx_loaded(
        code: Code,
        pointer_type: Type,
        callee: Value,
        trap: Option<TrapCode>,
    ) -> Code {
        code.load(
            Opcode::Load,
            pointer_type,
            readonly_flags().spec_with_trap_code(trap),
            callee,
            VMFUNC_REF_WASM_CALL as i32,
        ).load(Opcode::Load, pointer_type, readonly_flags(), callee, VMFUNC_REF_VMCTX as i32)
    }

    /// Loads the address and the context of a function reference.
    fn load_func_and_vmctx(
        &self,
        builder: &mut FunctionBuilder,
        pointer_type: Type,
        callee: Value,
        callee_load_trap_code: Option<TrapCode>,
    ) -> (r: (Value, Value))
        ensures
            final(builder)@ == Self::func_and_vmctx_loaded(
                old(builder)@,
                pointer_type,
                callee,
                callee_load_trap_code,
            ),
            r.0 == old(builder)@.next_value(),
            r.1.0 == old(builder)@.values.len() + 1,
            final(builder)@.values.len() == old(builder)@.values.len() + 2,
            final(builder)@.grew(old(builder)@),
    {
        let mem_flags = MemFlags::trusted().with_readonly();
        let func_addr = builder.load(
            Opcode::Load,
            pointer_type,
            mem_flags.with_trap_code(callee_load_trap_code),
            callee,
            VMFUNC_REF_WASM_CALL as i32,
        );
        let callee_vmctx = builder.load(
            Opcode::Load,
            pointer_type,
            mem_flags,
            callee,
            VMFUNC_REF_VMCTX as i32,
        );
        (func_addr, callee_vmctx)
    }

    /// The code of a call through a table, and its results unless it is known to trap.
    #[verifier::opaque]
    pub open spec fn indirect_call_made<'a>(
        self,
        code: Code,
        env: TranslationEnvironment<'a>,
        table_index: TableIndex,
        table: CraneliftTable,
        ty_index: TypeIndex,
        sig_ref: SigRef,
        callee: Value,
        call_args: Seq<Value>,
    ) -> (Code, TranslationEnvironment<'a>, Reachability<Seq<Value>>) {
        let pointer_type = env.isa.pointer_type;
        let (c1, (addr, flags)) = table.prepared(
            code,
            callee,
            pointer_type,
            env.table_access_spectre_mitigation,
        );
        let funcref_ptr = c1.next_value();
        let c2 = c1.load(Opcode::Load, pointer_type, flags, addr, 0);
        let (c3, env1, check) = Self::signature_checked(
            c2,
            env,
            table_index,
            ty_index,
            funcref_ptr,
        );
        if check is StaticTrap {
            (c3, env1, Reachability::Unreachable)
        } else {
            let trap = match check {
                CheckIndirectCallTypeSignature::StaticMatch { may_be_null: true } => Some(
                    TrapCode::IndirectCallToNull,
                ),
                _ => None,
            };
            let c4 = Self::func_and_vmctx_loaded(c3, pointer_type, funcref_ptr, trap);
            let callee_vmctx = Value((c3.values.len() + 1) as usize);
            let (c5, results) = self.indirectly_called(
                c4,
                sig_ref,
                c3.next_value(),
                seq![callee_vmctx, code.vmctx_param->0] + call_args,
            );
            (c5, env1, Reachability::Reachable(results))
        }
    }

    /// Calls through an address that is known to be callable.
    fn unchecked_indirect_call(
        &self,
        builder: &mut FunctionBuilder,
        sig_ref: SigRef,
        func_addr: Value,
        callee_vmctx: Value,
        call_args: &Vec<Value>,
    ) -> (r: Vec<Value>)
        requires
            old(builder)@.has_sig(sig_ref),
            old(builder)@.vmctx_param is Some,
        ensures
            (final(builder)@, r@) == self.indirectly_called(
                old(builder)@,
                sig_ref,
                func_addr,
                seq![callee_vmctx, old(builder)@.vmctx_param->0] + call_args@,
            ),
            final(builder)@.has_all(r@),
            final(builder)@.grew(old(builder)@),
    {
        let caller_vmctx = builder.special_param().unwrap();
        let args = with_contexts(callee_vmctx, caller_vmctx, call_args);
        self.indirect_call_inst(builder, sig_ref, func_addr, args)
    }

    /// Calls through a table; returns the results unless the call is known to trap.
    pub fn indirect_call(
        &self,
        builder: &mut FunctionBuilder,
        env: &mut TranslationEnvironment,
        table_index: TableIndex,
        table: &CraneliftTable,
        ty_index: TypeIndex,
        sig_ref: SigRef,
        callee: Value,
        call_args: &Vec<Value>,
    ) -> (r: Reachability<Vec<Value>>)
        requires
            old(env).ready(old(builder)@),
            old(builder)@.has(callee),
            old(builder)@.has_sig(sig_ref),
            old(builder)@.vmctx_param is Some,
            table.bound <= i64::MAX,
            Self::callable(*old(env), table_index, ty_index),
        ensures
            ({
                let (code, env1, results) = self.indirect_call_made(
                    old(builder)@,
                    *old(env),
                    table_index,
                    *table,
                    ty_index,
                    sig_ref,
                    callee,
                    call_args@,
                );
                &&& final(builder)@ == code
                &&& *final(env) == env1
                &&& r is Reachable == results is Reachable
                &&& r matches Reachability::Reachable(vs) ==> results == Reachability::Reachable(
                    vs@,
                )
            }),
            final(env).ready(final(builder)@),
            r matches Reachability::Reachable(vs) ==> final(builder)@.has_all(vs@),
            final(builder)@.extends(old(builder)@),
    {
        proof {
            reveal(CallBuilder::indirect_call_made);
        }
        let pointer_type = env.pointer_type();
        let (table_entry_addr, flags) = table.prepare_addr(
            builder,
            callee,
            pointer_type,
            env.table_access_spectre_mitigation(),
        );
        let funcref_ptr = builder.load(Opcode::Load, pointer_type, flags, table_entry_addr, 0);
        let check = self.check_indirect_call_type_signature(
            builder,
            env,
            table_index,
            ty_index,
            funcref_ptr,
        );
        let trap_code = match check {
            CheckIndirectCallTypeSignature::Runtime => None,
            CheckIndirectCallTypeSignature::StaticMatch { may_be_null } => if may_be_null {
                Some(TrapCode::IndirectCallToNull)
            } else {
                None
            },
            CheckIndirectCallTypeSignature::StaticTrap => {
                return Reachability::Unreachable;
            },
        };
        let (func_ptr, callee_vmctx) = self.load_func_and_vmctx(
            builder,
            pointer_type,
            funcref_ptr,
            trap_code,
        );
        Reachability::Reachable(
            self.unchecked_indirect_call(builder, sig_ref, func_ptr, callee_vmctx, call_args),
        )
    }
}

} // verus!
