//! The builder that records a function, and the model of what it has recorded.
use crate::ir::{
    AbiParam, BinaryOp, Block, ConvertOp, ExtFuncData, Fact, FloatCC, FuncRef, GlobalValue,
    GlobalValueData, GlobalValueEntry, ImmOp, Inst, IntCC, MemFlags, MemoryType, MemoryTypeData,
    MemoryTypeField, MemoryTypeModel, Op, Opcode, SigRef, Signature, SignatureModel, Step,
    StepModel, TernaryOp, TrapCode, Type, UnaryOp, Value, ValueData,
};
use vstd::prelude::*;

verus! {

/// What has been recorded of a function.
#[verifier::ext_equal]
pub struct Code {
    /// The steps in order.
    pub steps: Seq<StepModel>,
    /// All values, by number.
    pub values: Seq<ValueData>,
    /// The parameters of all blocks, by number.
    pub blocks: Seq<Seq<Value>>,
    /// The signatures that calls are made with.
    pub sigs: Seq<SignatureModel>,
    /// The functions that are called directly.
    pub funcs: Seq<ExtFuncData>,
    /// The global values.
    pub gvs: Seq<GlobalValueEntry>,
    /// The regions of memory.
    pub memtypes: Seq<MemoryTypeModel>,
    /// The types of the variables.
    pub vars: Seq<Type>,
    /// The signature of the function itself.
    pub signature: SignatureModel,
    /// The parameter that holds the context.
    pub vmctx_param: Option<Value>,
}

impl Code {
    /// Whether a value exists.
    pub open spec fn has(self, v: Value) -> bool {
        v.0 < self.values.len()
    }

    /// Whether all values of a list exist.
    pub open spec fn has_all(self, vs: Seq<Value>) -> bool {
        forall|i: int| 0 <= i < vs.len() ==> self.has(#[trigger] vs[i])
    }

    /// The parameters of all blocks exist.
    pub open spec fn blocks_ok(self) -> bool {
        &&& self.blocks.len() <= usize::MAX
        &&& forall|b: int, i: int|
            0 <= b < self.blocks.len() && 0 <= i < self.blocks[b].len() ==> self.has(
                #[trigger] self.blocks[b][i],
            )
    }

    /// Whether this goes on from what was recorded before: nothing that existed is gone.
    pub open spec fn extends(self, before: Code) -> bool {
        &&& before.values.len() <= self.values.len()
        &&& before.blocks.len() <= self.blocks.len()
        &&& before.sigs.len() <= self.sigs.len()
        &&& before.funcs.len() <= self.funcs.len()
        &&& forall|i: int|
            0 <= i < before.funcs.len() ==> #[trigger] self.funcs[i] == before.funcs[i]
        &&& before.memtypes.len() <= self.memtypes.len()
        &&& forall|i: int|
            0 <= i < before.memtypes.len() && before.memtypes[i] is Struct
                ==> #[trigger] self.memtypes[i] is Struct
        &&& self.vmctx_param == before.vmctx_param
        &&& self.vars == before.vars
        &&& self.signature == before.signature
        &&& before.blocks_ok() ==> self.blocks_ok()
    }

    /// Whether only steps and values were added.
    pub open spec fn grew(self, before: Code) -> bool {
        &&& self == (Code { steps: self.steps, values: self.values, ..before })
        &&& before.values.len() <= self.values.len()
    }

    /// Whether only signatures, functions, global values and regions of memory were added, and
    /// fields to regions.
    pub open spec fn declared(self, before: Code) -> bool {
        &&& self == (Code {
            sigs: self.sigs,
            funcs: self.funcs,
            gvs: self.gvs,
            memtypes: self.memtypes,
            ..before
        })
        &&& before.sigs.len() <= self.sigs.len()
        &&& before.funcs.len() <= self.funcs.len()
        &&& forall|i: int|
            0 <= i < before.funcs.len() ==> #[trigger] self.funcs[i] == before.funcs[i]
        &&& before.memtypes.len() <= self.memtypes.len()
        &&& forall|i: int|
            0 <= i < before.memtypes.len() && before.memtypes[i] is Struct
                ==> #[trigger] self.memtypes[i] is Struct
    }

    /// The type of a value.
    pub open spec fn ty(self, v: Value) -> Type {
        self.values[v.0 as int].ty
    }

    /// What is known of a value.
    pub open spec fn fact(self, v: Value) -> Option<Fact> {
        self.values[v.0 as int].fact
    }

    /// The number that the next value gets.
    pub open spec fn next_value(self) -> Value {
        Value(self.values.len() as usize)
    }

    /// The numbers that the next `n` values get.
    pub open spec fn next_values(self, n: nat) -> Seq<Value> {
        Seq::new(n, |i: int| Value((self.values.len() + i) as usize))
    }

    /// The number that the next instruction gets.
    pub open spec fn next_inst(self) -> Inst {
        Inst(self.steps.len() as usize)
    }

    /// The number that the next block gets.
    pub open spec fn next_block(self) -> Block {
        Block(self.blocks.len() as usize)
    }

    /// A step more.
    pub open spec fn step(self, step: StepModel) -> Code {
        Code { steps: self.steps.push(step), ..self }
    }

    /// An operation more, without a result.
    pub open spec fn emitted(self, op: Op) -> Code {
        self.step(StepModel::Op(op))
    }

    /// An operation more, and its result.
    pub open spec fn defined(self, op: Op, ty: Type) -> Code {
        Code {
            steps: self.steps.push(StepModel::Op(op)),
            values: self.values.push(ValueData { ty, fact: None }),
            ..self
        }
    }

    /// A fact about a value.
    pub open spec fn with_fact(self, v: Value, fact: Fact) -> Code {
        Code {
            values: self.values.update(
                v.0 as int,
                ValueData { ty: self.ty(v), fact: Some(fact) },
            ),
            ..self
        }
    }

    /// A fact about a value, where facts are wanted.
    pub open spec fn with_fact_if(self, wanted: bool, v: Value, fact: Fact) -> Code {
        if wanted {
            self.with_fact(v, fact)
        } else {
            self
        }
    }

    /// A call more, and a value for each of its returns.
    pub open spec fn called(self, step: StepModel, rets: Seq<AbiParam>) -> Code {
        Code {
            steps: self.steps.push(step),
            values: self.values + rets.map_values(
                |p: AbiParam| ValueData { ty: p.ty, fact: None },
            ),
            ..self
        }
    }

    /// A block more.
    pub open spec fn block_created(self) -> Code {
        Code {
            steps: self.steps.push(StepModel::Op(Op::CreateBlock { block: self.next_block() })),
            blocks: self.blocks.push(Seq::empty()),
            ..self
        }
    }

    /// A block parameter more.
    pub open spec fn block_param(self, block: Block, ty: Type) -> Code {
        Code {
            steps: self.steps.push(StepModel::Op(Op::AppendBlockParam { block, ty })),
            values: self.values.push(ValueData { ty, fact: None }),
            blocks: self.blocks.update(
                block.0 as int,
                self.blocks[block.0 as int].push(self.next_value()),
            ),
            ..self
        }
    }

    /// A parameter more for each type of a list.
    pub open spec fn block_params_added(self, block: Block, tys: Seq<Type>) -> Code
        decreases tys.len(),
    {
        if tys.len() == 0 {
            self
        } else {
            self.block_params_added(block, tys.drop_last()).block_param(block, tys.last())
        }
    }

    /// A block more, with parameters of the given types.
    pub open spec fn block_with_params(self, tys: Seq<Type>) -> Code {
        self.block_created().block_params_added(self.next_block(), tys)
    }

    /// A global value more.
    pub open spec fn gv_created(self, data: GlobalValueData, fact: Option<Fact>) -> Code {
        Code { gvs: self.gvs.push(GlobalValueEntry { data, fact }), ..self }
    }

    /// The number that the next global value gets.
    pub open spec fn next_gv(self) -> GlobalValue {
        GlobalValue(self.gvs.len() as usize)
    }

    /// A region of memory more.
    pub open spec fn memtype_created(self, data: MemoryTypeModel) -> Code {
        Code { memtypes: self.memtypes.push(data), ..self }
    }

    /// The number that the next region of memory gets.
    pub open spec fn next_memtype(self) -> MemoryType {
        MemoryType(self.memtypes.len() as usize)
    }

    /// Whether a region of memory exists and has fields.
    pub open spec fn is_struct(self, ty: MemoryType) -> bool {
        ty.0 < self.memtypes.len() && self.memtypes[ty.0 as int] is Struct
    }

    /// Whether a function and its signature exist.
    pub open spec fn has_func(self, callee: FuncRef) -> bool {
        callee.0 < self.funcs.len() && self.has_sig(self.funcs[callee.0 as int].signature)
    }

    /// Whether a signature exists.
    pub open spec fn has_sig(self, sig: SigRef) -> bool {
        sig.0 < self.sigs.len()
    }

    /// The signature of a function.
    pub open spec fn sig_of(self, callee: FuncRef) -> SignatureModel {
        self.sigs[self.funcs[callee.0 as int].signature.0 as int]
    }

    /// An instruction of one operand.
    pub open spec fn unary(self, op: UnaryOp, arg: Value) -> Code {
        self.defined(Op::Unary { op, arg }, op.spec_result_type(self.ty(arg)))
    }

    /// An instruction of one operand whose result type is chosen.
    pub open spec fn convert(self, op: ConvertOp, ty: Type, arg: Value) -> Code {
        self.defined(Op::Convert { op, ty, arg }, ty)
    }

    /// The same bits as another type.
    pub open spec fn bitcast(self, ty: Type, flags: MemFlags, arg: Value) -> Code {
        self.defined(Op::Bitcast { ty, flags, arg }, ty)
    }

    /// An instruction of two operands.
    pub open spec fn binary(self, op: BinaryOp, a: Value, b: Value) -> Code {
        self.defined(Op::Binary { op, a, b }, op.spec_result_type(self.ty(a)))
    }

    /// An instruction of one operand and a constant.
    pub open spec fn binary_imm(self, op: ImmOp, arg: Value, imm: i64) -> Code {
        self.defined(Op::BinaryImm { op, arg, imm }, self.ty(arg))
    }

    /// An instruction of three operands.
    pub open spec fn ternary(self, op: TernaryOp, a: Value, b: Value, c: Value) -> Code {
        self.defined(Op::Ternary { op, a, b, c }, self.ty(b))
    }

    /// A comparison of integers.
    pub open spec fn int_compare(self, cc: IntCC, a: Value, b: Value) -> Code {
        self.defined(Op::IntCompare { cc, a, b }, self.ty(a).spec_as_truthy())
    }

    /// A comparison of an integer with a constant.
    pub open spec fn int_compare_imm(self, cc: IntCC, arg: Value, imm: i64) -> Code {
        self.defined(Op::IntCompareImm { cc, arg, imm }, self.ty(arg).spec_as_truthy())
    }

    /// A comparison of floats.
    pub open spec fn float_compare(self, cc: FloatCC, a: Value, b: Value) -> Code {
        self.defined(Op::FloatCompare { cc, a, b }, self.ty(a).spec_as_truthy())
    }

    /// An integer constant.
    pub open spec fn iconst(self, ty: Type, imm: i64) -> Code {
        self.defined(Op::Iconst { ty, imm }, ty)
    }

    /// A vector constant.
    pub open spec fn vconst(self, ty: Type, bytes: u128) -> Code {
        self.defined(Op::Vconst { ty, bytes }, ty)
    }

    /// A load.
    pub open spec fn load(self, op: Opcode, ty: Type, flags: MemFlags, addr: Value, offset: i32) -> Code {
        self.defined(Op::Load { op, ty, flags, addr, offset }, ty)
    }

    /// One lane of a vector.
    pub open spec fn extract_lane(self, arg: Value, lane: u8) -> Code {
        self.defined(Op::ExtractLane { arg, lane }, self.ty(arg).spec_lane_type())
    }

    /// A vector with one lane replaced.
    pub open spec fn insert_lane(self, a: Value, b: Value, lane: u8) -> Code {
        self.defined(Op::InsertLane { a, b, lane }, self.ty(a))
    }

    /// An addition that traps where it overflows.
    pub open spec fn uadd_overflow_trap(self, a: Value, b: Value, code: TrapCode) -> Code {
        self.defined(Op::UaddOverflowTrap { a, b, code }, self.ty(a))
    }

    /// The address of a global value.
    pub open spec fn global_value(self, ty: Type, gv: GlobalValue) -> Code {
        self.defined(Op::GlobalAddress { ty, gv }, ty)
    }
}

/// Added steps and values leave everything else in place.
pub proof fn lemma_grew_extends(before: Code, after: Code)
    requires
        after.grew(before),
    ensures
        after.extends(before),
{
}

/// Added declarations leave everything else in place.
pub proof fn lemma_declared_extends(before: Code, after: Code)
    requires
        after.declared(before),
    ensures
        after.extends(before),
{
}

/// What goes on from an extension goes on from the start.
pub proof fn lemma_extends_trans(a: Code, b: Code, c: Code)
    requires
        b.extends(a),
        c.extends(b),
    ensures
        c.extends(a),
{
    assert forall|i: int| 0 <= i < a.funcs.len() implies #[trigger] c.funcs[i] == a.funcs[i] by {
        assert(b.funcs[i] == a.funcs[i]);
    }
    assert forall|i: int|
        0 <= i < a.memtypes.len() && a.memtypes[i] is Struct implies #[trigger] c.memtypes[i] is Struct by {
        assert(b.memtypes[i] is Struct);
    }
}

/// Records a function, step by step.
pub struct FunctionBuilder {
    steps: Vec<Step>,
    values: Vec<ValueData>,
    blocks: Vec<Vec<Value>>,
    sigs: Vec<Signature>,
    funcs: Vec<ExtFuncData>,
    gvs: Vec<GlobalValueEntry>,
    memtypes: Vec<MemoryTypeData>,
    vars: Vec<Type>,
    signature: Signature,
    vmctx_param: Option<Value>,
}

impl View for FunctionBuilder {
    type V = Code;

    closed spec fn view(&self) -> Code {
        Code {
            steps: self.steps@.map_values(|s: Step| s@),
            values: self.values@,
            blocks: self.blocks@.map_values(|b: Vec<Value>| b@),
            sigs: self.sigs@.map_values(|s: Signature| s@),
            funcs: self.funcs@,
            gvs: self.gvs@,
            memtypes: self.memtypes@.map_values(|m: MemoryTypeData| m@),
            vars: self.vars@,
            signature: self.signature@,
            vmctx_param: self.vmctx_param,
        }
    }
}

impl FunctionBuilder {
    /// A builder that has recorded nothing of a function with the given signature.
    pub fn new(signature: Signature) -> (r: FunctionBuilder)
        ensures
            r@ == (Code {
                steps: Seq::empty(),
                values: Seq::empty(),
                blocks: Seq::empty(),
                sigs: Seq::empty(),
                funcs: Seq::empty(),
                gvs: Seq::empty(),
                memtypes: Seq::empty(),
                vars: Seq::empty(),
                signature: signature@,
                vmctx_param: None,
            }),
    {
        FunctionBuilder {
            steps: Vec::new(),
            values: Vec::new(),
            blocks: Vec::new(),
            sigs: Vec::new(),
            funcs: Vec::new(),
            gvs: Vec::new(),
            memtypes: Vec::new(),
            vars: Vec::new(),
            signature,
            vmctx_param: None,
        }
    }

    /// The recorded steps.
    pub fn steps(&self) -> (r: &Vec<Step>)
        ensures
            r@.map_values(|s: Step| s@) == self@.steps,
    {
        &self.steps
    }

    /// The functions that are called directly.
    pub fn funcs(&self) -> (r: &Vec<ExtFuncData>)
        ensures
            r@ == self@.funcs,
    {
        &self.funcs
    }

    /// The global values.
    pub fn global_values(&self) -> (r: &Vec<GlobalValueEntry>)
        ensures
            r@ == self@.gvs,
    {
        &self.gvs
    }

    /// The values with their types and facts.
    pub fn values(&self) -> (r: &Vec<ValueData>)
        ensures
            r@ == self@.values,
    {
        &self.values
    }

    /// The signatures that calls are made with.
    pub fn signatures(&self) -> (r: &Vec<Signature>)
        ensures
            r@.map_values(|s: Signature| s@) == self@.sigs,
    {
        &self.sigs
    }

    /// The regions of memory.
    pub fn memory_types(&self) -> (r: &Vec<MemoryTypeData>)
        ensures
            r@.map_values(|m: MemoryTypeData| m@) == self@.memtypes,
    {
        &self.memtypes
    }

    /// The types of the variables.
    pub fn variables(&self) -> (r: &Vec<Type>)
        ensures
            r@ == self@.vars,
    {
        &self.vars
    }

    /// The signature of the function itself.
    pub fn signature(&self) -> (r: &Signature)
        ensures
            r@ == self@.signature,
    {
        &self.signature
    }

    /// A signature that calls are made with.
    pub fn signature_of(&self, sig: SigRef) -> (r: &Signature)
        requires
            self@.has_sig(sig),
        ensures
            r@ == self@.sigs[sig.0 as int],
    {
        &self.sigs[sig.0]
    }

    /// The signature of a function that is called directly.
    pub fn callee_signature(&self, callee: FuncRef) -> (r: SigRef)
        requires
            callee.0 < self@.funcs.len(),
        ensures
            r == self@.funcs[callee.0 as int].signature,
    {
        self.funcs[callee.0].signature
    }

    /// The parameter that holds the context.
    pub fn special_param(&self) -> (r: Option<Value>)
        ensures
            r == self@.vmctx_param,
    {
        self.vmctx_param
    }

    /// Names the parameter that holds the context.
    pub fn set_special_param(&mut self, v: Value)
        ensures
            final(self)@ == (Code { vmctx_param: Some(v), ..old(self)@ }),
    {
        self.vmctx_param = Some(v);
    }

    /// The type of a value.
    pub fn value_type(&self, v: Value) -> (r: Type)
        requires
            self@.has(v),
        ensures
            r == self@.ty(v),
    {
        self.values[v.0].ty
    }

    /// What is known of a value.
    pub fn fact(&self, v: Value) -> (r: Option<Fact>)
        requires
            self@.has(v),
        ensures
            r == self@.fact(v),
    {
        self.values[v.0].fact
    }

    /// States a fact about a value.
    pub fn set_fact(&mut self, v: Value, fact: Fact)
        requires
            old(self)@.has(v),
        ensures
            final(self)@ == old(self)@.with_fact(v, fact),
    {
        let ty = self.values[v.0].ty;
        self.values.set(v.0, ValueData { ty, fact: Some(fact) });
    }

    /// Records a step.
    fn push_step(&mut self, step: Step)
        ensures
            final(self)@ == old(self)@.step(step@),
    {
        self.steps.push(step);
        assert(self@.steps =~= old(self)@.steps.push(step@));
    }

    /// Records an operation without a result.
    pub fn emit(&mut self, op: Op)
        ensures
            final(self)@ == old(self)@.emitted(op),
    {
        self.push_step(Step::Op(op));
    }

    /// Reserves bytes in the function's frame.
    pub fn stack_slot(&mut self, bytes: u32) -> (r: Inst)
        ensures
            r == old(self)@.next_inst(),
            final(self)@ == old(self)@.emitted(Op::StackSlot { bytes }),
    {
        let slot = Inst(self.steps.len());
        self.push_step(Step::Op(Op::StackSlot { bytes }));
        slot
    }

    /// Records an operation with a result.
    pub fn emit_value(&mut self, op: Op, ty: Type) -> (r: Value)
        ensures
            r == old(self)@.next_value(),
            r.0 == old(self)@.values.len(),
            final(self)@ == old(self)@.defined(op, ty),
    {
        let v = Value(self.values.len());
        self.push_step(Step::Op(op));
        self.values.push(ValueData { ty, fact: None });
        v
    }

    /// An instruction of one operand.
    pub fn unary(&mut self, op: UnaryOp, arg: Value) -> (r: Value)
        requires
            old(self)@.has(arg),
        ensures
            r == old(self)@.next_value(),
            r.0 == old(self)@.values.len(),
            final(self)@ == old(self)@.unary(op, arg),
    {
        let result_ty = op.result_type(self.value_type(arg));
        self.emit_value(Op::Unary { op, arg }, result_ty)
    }

    /// An instruction of one operand whose result type is chosen.
    pub fn convert(&mut self, op: ConvertOp, ty: Type, arg: Value) -> (r: Value)
        ensures
            r == old(self)@.next_value(),
            r.0 == old(self)@.values.len(),
            final(self)@ == old(self)@.convert(op, ty, arg),
    {
        let result_ty = ty;
        self.emit_value(Op::Convert { op, ty, arg }, result_ty)
    }

    /// The same bits as another type.
    pub fn bitcast(&mut self, ty: Type, flags: MemFlags, arg: Value) -> (r: Value)
        ensures
            r == old(self)@.next_value(),
            r.0 == old(self)@.values.len(),
            final(self)@ == old(self)@.bitcast(ty, flags, arg),
    {
        let result_ty = ty;
        self.emit_value(Op::Bitcast { ty, flags, arg }, result_ty)
    }

    /// An instruction of two operands.
    pub fn binary(&mut self, op: BinaryOp, a: Value, b: Value) -> (r: Value)
        requires
            old(self)@.has(a),
        ensures
            r == old(self)@.next_value(),
            r.0 == old(self)@.values.len(),
            final(self)@ == old(self)@.binary(op, a, b),
    {
        let result_ty = op.result_type(self.value_type(a));
        self.emit_value(Op::Binary { op, a, b }, result_ty)
    }

    /// An instruction of one operand and a constant.
    pub fn binary_imm(&mut self, op: ImmOp, arg: Value, imm: i64) -> (r: Value)
        requires
            old(self)@.has(arg),
        ensures
            r == old(self)@.next_value(),
            r.0 == old(self)@.values.len(),
            final(self)@ == old(self)@.binary_imm(op, arg, imm),
    {
        let result_ty = self.value_type(arg);
        self.emit_value(Op::BinaryImm { op, arg, imm }, result_ty)
    }

    /// An instruction of three operands.
    pub fn ternary(&mut self, op: TernaryOp, a: Value, b: Value, c: Value) -> (r: Value)
        requires
            old(self)@.has(b),
        ensures
            r == old(self)@.next_value(),
            r.0 == old(self)@.values.len(),
            final(self)@ == old(self)@.ternary(op, a, b, c),
    {
        let result_ty = self.value_type(b);
        self.emit_value(Op::Ternary { op, a, b, c }, result_ty)
    }

    /// A comparison of integers.
    pub fn int_compare(&mut self, cc: IntCC, a: Value, b: Value) -> (r: Value)
        requires
            old(self)@.has(a),
        ensures
            r == old(self)@.next_value(),
            r.0 == old(self)@.values.len(),
            final(self)@ == old(self)@.int_compare(cc, a, b),
    {
        let result_ty = self.value_type(a).as_truthy();
        self.emit_value(Op::IntCompare { cc, a, b }, result_ty)
    }

    /// A comparison of an integer with a constant.
    pub fn int_compare_imm(&mut self, cc: IntCC, arg: Value, imm: i64) -> (r: Value)
        requires
            old(self)@.has(arg),
        ensures
            r == old(self)@.next_value(),
            r.0 == old(self)@.values.len(),
            final(self)@ == old(self)@.int_compare_imm(cc, arg, imm),
    {
        let result_ty = self.value_type(arg).as_truthy();
        self.emit_value(Op::IntCompareImm { cc, arg, imm }, result_ty)
    }

    /// A comparison of floats.
    pub fn float_compare(&mut self, cc: FloatCC, a: Value, b: Value) -> (r: Value)
        requires
            old(self)@.has(a),
        ensures
            r == old(self)@.next_value(),
            r.0 == old(self)@.values.len(),
            final(self)@ == old(self)@.float_compare(cc, a, b),
    {
        let result_ty = self.value_type(a).as_truthy();
        self.emit_value(Op::FloatCompare { cc, a, b }, result_ty)
    }

    /// An integer constant.
    pub fn iconst(&mut self, ty: Type, imm: i64) -> (r: Value)
        ensures
            r == old(self)@.next_value(),
            r.0 == old(self)@.values.len(),
            final(self)@ == old(self)@.iconst(ty, imm),
    {
        let result_ty = ty;
        self.emit_value(Op::Iconst { ty, imm }, result_ty)
    }

    /// A vector constant.
    pub fn vconst(&mut self, ty: Type, bytes: u128) -> (r: Value)
        ensures
            r == old(self)@.next_value(),
            r.0 == old(self)@.values.len(),
            final(self)@ == old(self)@.vconst(ty, bytes),
    {
        let result_ty = ty;
        self.emit_value(Op::Vconst { ty, bytes }, result_ty)
    }

    /// A load.
    pub fn load(&mut self, op: Opcode, ty: Type, flags: MemFlags, addr: Value, offset: i32) -> (r: Value)
        ensures
            r == old(self)@.next_value(),
            r.0 == old(self)@.values.len(),
            final(self)@ == old(self)@.load(op, ty, flags, addr, offset),
    {
        let result_ty = ty;
        self.emit_value(Op::Load { op, ty, flags, addr, offset }, result_ty)
    }

    /// One lane of a vector.
    pub fn extract_lane(&mut self, arg: Value, lane: u8) -> (r: Value)
        requires
            old(self)@.has(arg),
        ensures
            r == old(self)@.next_value(),
            r.0 == old(self)@.values.len(),
            final(self)@ == old(self)@.extract_lane(arg, lane),
    {
        let result_ty = self.value_type(arg).lane_type();
        self.emit_value(Op::ExtractLane { arg, lane }, result_ty)
    }

    /// A vector with one lane replaced.
    pub fn insert_lane(&mut self, a: Value, b: Value, lane: u8) -> (r: Value)
        requires
            old(self)@.has(a),
        ensures
            r == old(self)@.next_value(),
            r.0 == old(self)@.values.len(),
            final(self)@ == old(self)@.insert_lane(a, b, lane),
    {
        let result_ty = self.value_type(a);
        self.emit_value(Op::InsertLane { a, b, lane }, result_ty)
    }

    /// An addition that traps where it overflows.
    pub fn uadd_overflow_trap(&mut self, a: Value, b: Value, code: TrapCode) -> (r: Value)
        requires
            old(self)@.has(a),
        ensures
            r == old(self)@.next_value(),
            r.0 == old(self)@.values.len(),
            final(self)@ == old(self)@.uadd_overflow_trap(a, b, code),
    {
        let result_ty = self.value_type(a);
        self.emit_value(Op::UaddOverflowTrap { a, b, code }, result_ty)
    }

    /// The address of a global value.
    pub fn global_value(&mut self, ty: Type, gv: GlobalValue) -> (r: Value)
        ensures
            r == old(self)@.next_value(),
            r.0 == old(self)@.values.len(),
            final(self)@ == old(self)@.global_value(ty, gv),
    {
        let result_ty = ty;
        self.emit_value(Op::GlobalAddress { ty, gv }, result_ty)
    }

    /// Creates a block without parameters.
    pub fn create_block(&mut self) -> (r: Block)
        ensures
            r == old(self)@.next_block(),
            r.0 == old(self)@.blocks.len(),
            final(self)@ == old(self)@.block_created(),
            final(self)@.blocks.len() <= usize::MAX,
    {
        let block = Block(self.blocks.len());
        self.push_step(Step::Op(Op::CreateBlock { block }));
        self.blocks.push(Vec::new());
        assert(self@.blocks =~= old(self)@.blocks.push(Seq::empty()));
        assert(self.blocks.len() <= usize::MAX);
        block
    }

    /// Adds a parameter to a block.
    pub fn append_block_param(&mut self, block: Block, ty: Type) -> (r: Value)
        requires
            block.0 < old(self)@.blocks.len(),
        ensures
            r == old(self)@.next_value(),
            r.0 == old(self)@.values.len(),
            final(self)@ == old(self)@.block_param(block, ty),
    {
        let v = Value(self.values.len());
        self.push_step(Step::Op(Op::AppendBlockParam { block, ty }));
        self.values.push(ValueData { ty, fact: None });
        let mut params: Vec<Value> = Vec::new();
        std::mem::swap(&mut params, &mut self.blocks[block.0]);
        params.push(v);
        self.blocks.set(block.0, params);
        assert(self@.blocks =~= old(self)@.blocks.update(
            block.0 as int,
            old(self)@.blocks[block.0 as int].push(v),
        ));
        v
    }

    /// Creates a block with parameters of the given types.
    pub fn block_with_params(&mut self, tys: &Vec<Type>) -> (r: Block)
        ensures
            r == old(self)@.next_block(),
            r.0 == old(self)@.blocks.len(),
            r.0 < final(self)@.blocks.len(),
            final(self)@ == old(self)@.block_with_params(tys@),
            final(self)@.blocks.len() == old(self)@.blocks.len() + 1 <= usize::MAX,
            final(self)@.values.len() == old(self)@.values.len() + tys@.len(),
            final(self)@.extends(old(self)@),
            final(self)@.blocks[r.0 as int].len() == tys@.len(),
            old(self)@.blocks_ok() ==> final(self)@.has_all(final(self)@.blocks[r.0 as int]),
    {
        let block = self.create_block();
        let ghost created = self@;
        assert(tys@.take(0) =~= Seq::empty());
        for i in 0..tys.len()
            invariant
                block == old(self)@.next_block(),
                created == old(self)@.block_created(),
                self@ == created.block_params_added(block, tys@.take(i as int)),
                block.0 == old(self)@.blocks.len(),
                self@.blocks.len() == old(self)@.blocks.len() + 1 <= usize::MAX,
                self@.values.len() == old(self)@.values.len() + i,
                self@.extends(old(self)@),
                self@.blocks[block.0 as int].len() == i,
        {
            self.append_block_param(block, tys[i]);
            assert(tys@.take(i + 1).drop_last() =~= tys@.take(i as int));
            assert(tys@.take(i + 1).last() == tys@[i as int]);
        }
        assert(tys@.take(tys@.len() as int) =~= tys@);
        block
    }

    /// The parameters of a block.
    pub fn block_params(&self, block: Block) -> (r: &Vec<Value>)
        requires
            block.0 < self@.blocks.len(),
        ensures
            r@ == self@.blocks[block.0 as int],
    {
        &self.blocks[block.0]
    }

    /// Continues with a block.
    pub fn switch_to_block(&mut self, block: Block)
        ensures
            final(self)@ == old(self)@.emitted(Op::SwitchToBlock { block }),
    {
        self.emit(Op::SwitchToBlock { block });
    }

    /// Declares that a block gets no more predecessors.
    pub fn seal_block(&mut self, block: Block)
        ensures
            final(self)@ == old(self)@.emitted(Op::SealBlock { block }),
    {
        self.emit(Op::SealBlock { block });
    }

    /// Redirects a recorded branch.
    pub fn change_jump_destination(&mut self, inst: Inst, from: Block, to: Block)
        ensures
            final(self)@ == old(self)@.emitted(Op::ChangeJumpDestination { inst, from, to }),
    {
        self.emit(Op::ChangeJumpDestination { inst, from, to });
    }

    /// Jumps to a block.
    pub fn jump(&mut self, destination: Block, args: Vec<Value>) -> (r: Inst)
        ensures
            r == old(self)@.next_inst(),
            r.0 == old(self)@.steps.len(),
            final(self)@ == old(self)@.step(StepModel::Jump { destination, args: args@ }),
    {
        let inst = Inst(self.steps.len());
        self.push_step(Step::Jump { destination, args });
        inst
    }

    /// Branches to one of two blocks.
    pub fn brif(
        &mut self,
        condition: Value,
        then_block: Block,
        then_args: Vec<Value>,
        else_block: Block,
        else_args: Vec<Value>,
    ) -> (r: Inst)
        ensures
            r == old(self)@.next_inst(),
            r.0 == old(self)@.steps.len(),
            final(self)@ == old(self)@.step(
                StepModel::Brif {
                    condition,
                    then_block,
                    then_args: then_args@,
                    else_block,
                    else_args: else_args@,
                },
            ),
    {
        let inst = Inst(self.steps.len());
        self.push_step(Step::Brif { condition, then_block, then_args, else_block, else_args });
        inst
    }

    /// Branches to the block at an index, or to the default.
    pub fn br_table(&mut self, index: Value, default: Block, targets: Vec<Block>)
        ensures
            final(self)@ == old(self)@.step(
                StepModel::BrTable { index, default, targets: targets@ },
            ),
    {
        self.push_step(Step::BrTable { index, default, targets });
    }

    /// Returns from the function.
    pub fn return_(&mut self, args: Vec<Value>)
        ensures
            final(self)@ == old(self)@.step(StepModel::Return { args: args@ }),
    {
        self.push_step(Step::Return { args });
    }

    /// Creates one value for each return value of a signature.
    fn push_results(&mut self, sig: SigRef) -> (r: Vec<Value>)
        requires
            old(self)@.has_sig(sig),
        ensures
            forall|k: int|
                0 <= k < r@.len() ==> (#[trigger] r@[k]).0 == old(self)@.values.len() + k,
            r@ == old(self)@.next_values(old(self)@.sigs[sig.0 as int].returns.len()),
            final(self)@ == (Code {
                values: old(self)@.values + old(self)@.sigs[sig.0 as int].returns.map_values(
                    |p: AbiParam| ValueData { ty: p.ty, fact: None },
                ),
                ..old(self)@
            }),
    {
        let mut results: Vec<Value> = Vec::new();
        let n: usize = self.sigs[sig.0].returns.len();
        let ghost rets = self@.sigs[sig.0 as int].returns;
        for i in 0..n
            invariant
                n == rets.len(),
                rets == old(self)@.sigs[sig.0 as int].returns,
                sig.0 < self.sigs@.len(),
                self.sigs == old(self).sigs,
                self.sigs@[sig.0 as int].returns@ == rets,
                results@.len() == i,
                forall|k: int|
                    0 <= k < i ==> (#[trigger] results@[k]).0 == old(self)@.values.len() + k,
                self@ == (Code { values: self@.values, ..old(self)@ }),
                self@.values == old(self)@.values + rets.take(i as int).map_values(
                    |p: AbiParam| ValueData { ty: p.ty, fact: None },
                ),
        {
            let ty = self.sigs[sig.0].returns[i].ty;
            results.push(Value(self.values.len()));
            self.values.push(ValueData { ty, fact: None });
            assert(rets.take(i + 1) =~= rets.take(i as int).push(rets[i as int]));
            assert(self@.values =~= old(self)@.values + rets.take(i + 1).map_values(
                |p: AbiParam| ValueData { ty: p.ty, fact: None },
            ));
        }
        assert(rets.take(n as int) =~= rets);
        results
    }

    /// Calls a function directly; its results are new values.
    pub fn call(&mut self, callee: FuncRef, args: Vec<Value>) -> (r: Vec<Value>)
        requires
            old(self)@.has_func(callee),
        ensures
            forall|k: int|
                0 <= k < r@.len() ==> (#[trigger] r@[k]).0 == old(self)@.values.len() + k,
            r@ == old(self)@.next_values(old(self)@.sig_of(callee).returns.len()),
            final(self)@ == old(self)@.called(
                StepModel::Call { callee, args: args@ },
                old(self)@.sig_of(callee).returns,
            ),
    {
        let sig = self.funcs[callee.0].signature;
        self.push_step(Step::Call { callee, args });
        self.push_results(sig)
    }

    /// Calls through an address; the results are new values.
    pub fn call_indirect(&mut self, signature: SigRef, callee: Value, args: Vec<Value>) -> (r: Vec<
        Value,
    >)
        requires
            old(self)@.has_sig(signature),
        ensures
            forall|k: int|
                0 <= k < r@.len() ==> (#[trigger] r@[k]).0 == old(self)@.values.len() + k,
            r@ == old(self)@.next_values(old(self)@.sigs[signature.0 as int].returns.len()),
            final(self)@ == old(self)@.called(
                StepModel::CallIndirect { signature, callee, args: args@ },
                old(self)@.sigs[signature.0 as int].returns,
            ),
    {
        self.push_step(Step::CallIndirect { signature, callee, args });
        self.push_results(signature)
    }

    /// Replaces the function's activation with a direct call.
    pub fn return_call(&mut self, callee: FuncRef, args: Vec<Value>)
        ensures
            final(self)@ == old(self)@.step(StepModel::ReturnCall { callee, args: args@ }),
    {
        self.push_step(Step::ReturnCall { callee, args });
    }

    /// Replaces the function's activation with a call through an address.
    pub fn return_call_indirect(&mut self, signature: SigRef, callee: Value, args: Vec<Value>)
        ensures
            final(self)@ == old(self)@.step(
                StepModel::ReturnCallIndirect { signature, callee, args: args@ },
            ),
    {
        self.push_step(Step::ReturnCallIndirect { signature, callee, args });
    }

    /// The number of variables, which must fit in 32 bits.
    pub fn num_vars(&self) -> (r: u32)
        requires
            self@.vars.len() <= u32::MAX,
        ensures
            r == self@.vars.len(),
    {
        self.vars.len() as u32
    }

    /// Declares a variable.
    pub fn declare_var(&mut self, ty: Type)
        ensures
            final(self)@ == (Code { vars: old(self)@.vars.push(ty), ..old(self)@ }),
    {
        self.vars.push(ty);
    }

    /// The current value of a variable.
    pub fn use_var(&mut self, var: u32) -> (r: Value)
        requires
            var < old(self)@.vars.len(),
        ensures
            r == old(self)@.next_value(),
            r.0 == old(self)@.values.len(),
            final(self)@ == old(self)@.defined(Op::UseVar { var }, old(self)@.vars[var as int]),
    {
        let ty = self.vars[var as usize];
        self.emit_value(Op::UseVar { var }, ty)
    }

    /// Gives a variable a new value.
    pub fn def_var(&mut self, var: u32, val: Value)
        ensures
            final(self)@ == old(self)@.emitted(Op::DefVar { var, val }),
    {
        self.emit(Op::DefVar { var, val });
    }

    /// Labels a value for debugging.
    pub fn set_val_label(&mut self, val: Value, label: u32)
        ensures
            final(self)@ == old(self)@.emitted(Op::SetValLabel { val, label }),
    {
        self.emit(Op::SetValLabel { val, label });
    }

    /// Adds a signature.
    pub fn import_signature(&mut self, signature: Signature) -> (r: SigRef)
        ensures
            r.0 == old(self)@.sigs.len(),
            final(self)@ == (Code { sigs: old(self)@.sigs.push(signature@), ..old(self)@ }),
    {
        let r = SigRef(self.sigs.len());
        self.sigs.push(signature);
        assert(self@.sigs =~= old(self)@.sigs.push(signature@));
        r
    }

    /// Adds a function that can be called directly.
    pub fn import_function(&mut self, data: ExtFuncData) -> (r: FuncRef)
        ensures
            r.0 == old(self)@.funcs.len(),
            final(self)@ == (Code { funcs: old(self)@.funcs.push(data), ..old(self)@ }),
    {
        let r = FuncRef(self.funcs.len());
        self.funcs.push(data);
        r
    }

    /// Adds a global value.
    pub fn create_global_value(&mut self, data: GlobalValueData, fact: Option<Fact>) -> (r:
        GlobalValue)
        ensures
            r == old(self)@.next_gv(),
            r.0 == old(self)@.gvs.len(),
            final(self)@ == old(self)@.gv_created(data, fact),
    {
        let r = GlobalValue(self.gvs.len());
        self.gvs.push(GlobalValueEntry { data, fact });
        r
    }

    /// Adds a region of memory without fields.
    pub fn create_struct_memtype(&mut self) -> (r: MemoryType)
        ensures
            r == old(self)@.next_memtype(),
            r.0 == old(self)@.memtypes.len(),
            final(self)@ == old(self)@.memtype_created(
                MemoryTypeModel::Struct { size: 0, fields: Seq::empty() },
            ),
    {
        let r = MemoryType(self.memtypes.len());
        self.memtypes.push(MemoryTypeData::Struct { size: 0, fields: Vec::new() });
        assert(self@.memtypes =~= old(self)@.memtypes.push(
            MemoryTypeModel::Struct { size: 0, fields: Seq::empty() },
        ));
        r
    }

    /// Adds a region of untyped memory.
    pub fn create_memory_memtype(&mut self, size: u64) -> (r: MemoryType)
        ensures
            r == old(self)@.next_memtype(),
            r.0 == old(self)@.memtypes.len(),
            final(self)@ == old(self)@.memtype_created(MemoryTypeModel::Memory { size }),
    {
        let r = MemoryType(self.memtypes.len());
        self.memtypes.push(MemoryTypeData::Memory { size });
        assert(self@.memtypes =~= old(self)@.memtypes.push(MemoryTypeModel::Memory { size }));
        r
    }

    /// Takes the fields of a region, to be put back with [`FunctionBuilder::set_struct`].
    pub fn take_struct(&mut self, ty: MemoryType) -> (r: (u64, Vec<MemoryTypeField>))
        requires
            old(self)@.is_struct(ty),
        ensures
            old(self)@.memtypes[ty.0 as int] == (MemoryTypeModel::Struct {
                size: r.0,
                fields: r.1@,
            }),
            final(self)@ == (Code {
                memtypes: old(self)@.memtypes.update(
                    ty.0 as int,
                    MemoryTypeModel::Memory { size: 0 },
                ),
                ..old(self)@
            }),
    {
        let mut data = MemoryTypeData::Memory { size: 0 };
        std::mem::swap(&mut data, &mut self.memtypes[ty.0]);
        assert(self@.memtypes =~= old(self)@.memtypes.update(
            ty.0 as int,
            MemoryTypeModel::Memory { size: 0 },
        ));
        assert(old(self)@.memtypes[ty.0 as int] == data@);
        match data {
            MemoryTypeData::Struct { size, fields } => (size, fields),
            MemoryTypeData::Memory { size } => {
                assert(false);
                (size, Vec::new())
            },
        }
    }

    /// Replaces a region by one with the given fields.
    pub fn set_struct(&mut self, ty: MemoryType, size: u64, fields: Vec<MemoryTypeField>)
        requires
            ty.0 < old(self)@.memtypes.len(),
        ensures
            final(self)@ == (Code {
                memtypes: old(self)@.memtypes.update(
                    ty.0 as int,
                    MemoryTypeModel::Struct { size, fields: fields@ },
                ),
                ..old(self)@
            }),
    {
        self.memtypes.set(ty.0, MemoryTypeData::Struct { size, fields });
        assert(self@.memtypes =~= old(self)@.memtypes.update(
            ty.0 as int,
            MemoryTypeModel::Struct { size, fields: fields@ },
        ));
    }
}

/// Everything that a function records is numbered in machine words.
pub proof fn lemma_counts(builder: &FunctionBuilder)
    ensures
        builder@.values.len() <= usize::MAX,
        builder@.sigs.len() <= usize::MAX,
        builder@.funcs.len() <= usize::MAX,
{
    assert(builder.values.len() <= usize::MAX);
    assert(builder.sigs.len() <= usize::MAX);
    assert(builder.funcs.len() <= usize::MAX);
}

} // verus!
