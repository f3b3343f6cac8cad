//! The state of the translation of a function: the stack of values, the stack of control frames,
//! and what has been looked up already.
use crate::builder::{Code, FunctionBuilder};
use crate::cranelift::env::TranslationEnvironment;
use crate::cranelift::memory::CraneliftMemory;
use crate::cranelift::table::{CraneliftGlobal, CraneliftTable};
use crate::index_map::Cache;
use crate::indices::{FuncIndex, GlobalIndex, MemoryIndex, TableIndex, TypeIndex};
use crate::ir::{ArgumentPurpose, Block, FuncRef, Inst, SigRef, Signature, SignatureModel, Value};
use crate::types::WasmValType;
use vstd::prelude::*;

verus! {

/// The type of a block: nothing, one result, or a function type.
#[derive(Debug, Clone, Copy, PartialEq, Eq, Structural)]
pub enum BlockType {
    Empty,
    Type(WasmValType),
    FuncType(u32),
}

/// Whether an `if` has an `else` block already.
#[derive(Debug, Clone, Copy, PartialEq, Eq, Structural)]
pub enum ElseData {
    /// The branch at the head of the `if` goes to a placeholder, to be redirected if an `else`
    /// comes.
    NoElse { branch_inst: Inst, placeholder: Block },
    /// The block of the `else`.
    WithElse { else_block: Block },
}

/// A control construct that is being translated.
#[derive(Debug, Clone, Copy, PartialEq, Eq, Structural)]
pub enum ControlStackFrame {
    If {
        destination: Block,
        else_data: ElseData,
        num_param_values: usize,
        num_return_values: usize,
        original_stack_size: usize,
        exit_is_branched_to: bool,
        blocktype: BlockType,
        head_is_reachable: bool,
        consequent_ends_reachable: Option<bool>,
    },
    Block {
        destination: Block,
        num_param_values: usize,
        num_return_values: usize,
        original_stack_size: usize,
        exit_is_branched_to: bool,
    },
    Loop {
        destination: Block,
        header: Block,
        num_param_values: usize,
        num_return_values: usize,
        original_stack_size: usize,
    },
}

impl ControlStackFrame {
    /// The number of values that the construct leaves.
    pub open spec fn returned(self) -> usize {
        match self {
            ControlStackFrame::If { num_return_values, .. } => num_return_values,
            ControlStackFrame::Block { num_return_values, .. } => num_return_values,
            ControlStackFrame::Loop { num_return_values, .. } => num_return_values,
        }
    }

    /// The number of values that the construct leaves.
    pub fn num_return_values(&self) -> (r: usize)
        ensures
            r == self.returned(),
    {
        match *self {
            ControlStackFrame::If { num_return_values, .. } => num_return_values,
            ControlStackFrame::Block { num_return_values, .. } => num_return_values,
            ControlStackFrame::Loop { num_return_values, .. } => num_return_values,
        }
    }

    /// The number of values that the construct takes.
    pub open spec fn taken(self) -> usize {
        match self {
            ControlStackFrame::If { num_param_values, .. } => num_param_values,
            ControlStackFrame::Block { num_param_values, .. } => num_param_values,
            ControlStackFrame::Loop { num_param_values, .. } => num_param_values,
        }
    }

    /// The number of values that the construct takes.
    pub fn num_param_values(&self) -> (r: usize)
        ensures
            r == self.taken(),
    {
        match *self {
            ControlStackFrame::If { num_param_values, .. } => num_param_values,
            ControlStackFrame::Block { num_param_values, .. } => num_param_values,
            ControlStackFrame::Loop { num_param_values, .. } => num_param_values,
        }
    }

    /// The block behind the construct.
    pub open spec fn following(self) -> Block {
        match self {
            ControlStackFrame::If { destination, .. } => destination,
            ControlStackFrame::Block { destination, .. } => destination,
            ControlStackFrame::Loop { destination, .. } => destination,
        }
    }

    /// The block behind the construct.
    pub fn following_code(&self) -> (r: Block)
        ensures
            r == self.following(),
    {
        match *self {
            ControlStackFrame::If { destination, .. } => destination,
            ControlStackFrame::Block { destination, .. } => destination,
            ControlStackFrame::Loop { destination, .. } => destination,
        }
    }

    /// Where branches to the construct go: to the start of a loop, and behind anything else.
    pub open spec fn target(self) -> Block {
        match self {
            ControlStackFrame::If { destination, .. } => destination,
            ControlStackFrame::Block { destination, .. } => destination,
            ControlStackFrame::Loop { header, .. } => header,
        }
    }

    /// Where branches to the construct go.
    pub fn br_destination(&self) -> (r: Block)
        ensures
            r == self.target(),
    {
        match *self {
            ControlStackFrame::If { destination, .. } => destination,
            ControlStackFrame::Block { destination, .. } => destination,
            ControlStackFrame::Loop { header, .. } => header,
        }
    }

    /// The number of values that a branch to the construct carries.
    pub open spec fn branch_arity(self) -> usize {
        if self is Loop {
            self.taken()
        } else {
            self.returned()
        }
    }

    /// The number of values that a branch to the construct carries.
    pub fn num_branch_values(&self) -> (r: usize)
        ensures
            r == self.branch_arity(),
    {
        if self.is_loop() {
            self.num_param_values()
        } else {
            self.num_return_values()
        }
    }

    /// The height of the value stack below the construct; for an `if`, with one copy of its
    /// parameters.
    pub open spec fn base_height(self) -> usize {
        match self {
            ControlStackFrame::If { original_stack_size, .. } => original_stack_size,
            ControlStackFrame::Block { original_stack_size, .. } => original_stack_size,
            ControlStackFrame::Loop { original_stack_size, .. } => original_stack_size,
        }
    }

    fn original_stack_size(&self) -> (r: usize)
        ensures
            r == self.base_height(),
    {
        match *self {
            ControlStackFrame::If { original_stack_size, .. } => original_stack_size,
            ControlStackFrame::Block { original_stack_size, .. } => original_stack_size,
            ControlStackFrame::Loop { original_stack_size, .. } => original_stack_size,
        }
    }

    /// Whether the construct is a loop.
    pub fn is_loop(&self) -> (r: bool)
        ensures
            r == (*self is Loop),
    {
        matches!(self, ControlStackFrame::Loop { .. })
    }

    /// Whether a branch leads behind the construct.
    pub open spec fn exits(self) -> bool {
        match self {
            ControlStackFrame::If { exit_is_branched_to, .. } => exit_is_branched_to,
            ControlStackFrame::Block { exit_is_branched_to, .. } => exit_is_branched_to,
            ControlStackFrame::Loop { .. } => false,
        }
    }

    /// Whether a branch leads behind the construct.
    pub fn exit_is_branched_to(&self) -> (r: bool)
        ensures
            r == self.exits(),
    {
        match *self {
            ControlStackFrame::If { exit_is_branched_to, .. } => exit_is_branched_to,
            ControlStackFrame::Block { exit_is_branched_to, .. } => exit_is_branched_to,
            ControlStackFrame::Loop { .. } => false,
        }
    }

    /// The construct, with a branch that leads behind it; nothing changes for a loop.
    pub open spec fn branched(self) -> ControlStackFrame {
        match self {
            ControlStackFrame::If {
                destination,
                else_data,
                num_param_values,
                num_return_values,
                original_stack_size,
                exit_is_branched_to,
                blocktype,
                head_is_reachable,
                consequent_ends_reachable,
            } => ControlStackFrame::If {
                destination,
                else_data,
                num_param_values,
                num_return_values,
                original_stack_size,
                exit_is_branched_to: true,
                blocktype,
                head_is_reachable,
                consequent_ends_reachable,
            },
            ControlStackFrame::Block {
                destination,
                num_param_values,
                num_return_values,
                original_stack_size,
                exit_is_branched_to,
            } => ControlStackFrame::Block {
                destination,
                num_param_values,
                num_return_values,
                original_stack_size,
                exit_is_branched_to: true,
            },
            other => other,
        }
    }

    /// Notes that a branch leads behind the construct.
    pub fn set_branched_to_exit(&mut self)
        ensures
            *final(self) == old(self).branched(),
    {
        *self = match *self {
            ControlStackFrame::If {
                destination,
                else_data,
                num_param_values,
                num_return_values,
                original_stack_size,
                exit_is_branched_to,
                blocktype,
                head_is_reachable,
                consequent_ends_reachable,
            } => ControlStackFrame::If {
                destination,
                else_data,
                num_param_values,
                num_return_values,
                original_stack_size,
                exit_is_branched_to: true,
                blocktype,
                head_is_reachable,
                consequent_ends_reachable,
            },
            ControlStackFrame::Block {
                destination,
                num_param_values,
                num_return_values,
                original_stack_size,
                exit_is_branched_to,
            } => ControlStackFrame::Block {
                destination,
                num_param_values,
                num_return_values,
                original_stack_size,
                exit_is_branched_to: true,
            },
            other => other,
        };
    }

    /// The `if`, with its consequent finished.
    pub open spec fn consequent_finished(self, reachable: bool) -> ControlStackFrame {
        match self {
            ControlStackFrame::If {
                destination,
                else_data,
                num_param_values,
                num_return_values,
                original_stack_size,
                exit_is_branched_to,
                blocktype,
                head_is_reachable,
                consequent_ends_reachable,
            } => ControlStackFrame::If {
                destination,
                else_data,
                num_param_values,
                num_return_values,
                original_stack_size,
                exit_is_branched_to,
                blocktype,
                head_is_reachable,
                consequent_ends_reachable: Some(reachable),
            },
            other => other,
        }
    }

    /// Notes whether the end of the consequent of an `if` is reachable.
    pub fn finish_consequent(&mut self, reachable: bool)
        ensures
            *final(self) == old(self).consequent_finished(reachable),
    {
        *self = match *self {
            ControlStackFrame::If {
                destination,
                else_data,
                num_param_values,
                num_return_values,
                original_stack_size,
                exit_is_branched_to,
                blocktype,
                head_is_reachable,
                consequent_ends_reachable,
            } => ControlStackFrame::If {
                destination,
                else_data,
                num_param_values,
                num_return_values,
                original_stack_size,
                exit_is_branched_to,
                blocktype,
                head_is_reachable,
                consequent_ends_reachable: Some(reachable),
            },
            other => other,
        };
    }

    /// The height of the value stack below the construct and all its parameters.
    pub open spec fn floor(self) -> int {
        if self is If {
            self.base_height() - self.taken()
        } else {
            self.base_height() as int
        }
    }

    /// Whether the second copy of an `if`'s parameters lies within the recorded height.
    pub open spec fn wf(self) -> bool {
        self is If ==> self.taken() <= self.base_height()
    }

    /// Cuts a stack back to the parameters of an `else`.
    pub fn truncate_value_stack_to_else_params(&self, stack: &mut Vec<Value>)
        requires
            *self is If,
        ensures
            final(stack)@ == cut(old(stack)@, self.base_height() as int),
    {
        stack.truncate(self.original_stack_size());
        assert(stack@ =~= cut(old(stack)@, self.base_height() as int));
    }

    /// Cuts a stack back to where it was before the construct.
    pub fn truncate_value_stack_to_original_size(&self, stack: &mut Vec<Value>)
        requires
            self.wf(),
        ensures
            final(stack)@ == cut(old(stack)@, self.floor()),
    {
        let num_duplicated_params: usize = match *self {
            ControlStackFrame::If { num_param_values, .. } => num_param_values,
            _ => 0,
        };
        stack.truncate(self.original_stack_size() - num_duplicated_params);
        assert(stack@ =~= cut(old(stack)@, self.floor()));
    }
}

/// A stack cut back to a height, if it is higher.
pub open spec fn cut(stack: Seq<Value>, height: int) -> Seq<Value> {
    if height < stack.len() {
        stack.take(height)
    } else {
        stack
    }
}

/// The top `n` values of a stack, lowest first.
pub open spec fn top(stack: Seq<Value>, n: int) -> Seq<Value> {
    stack.subrange(stack.len() - n, stack.len() as int)
}

/// A stack without its top `n` values.
pub open spec fn below(stack: Seq<Value>, n: int) -> Seq<Value> {
    stack.take(stack.len() - n)
}

/// The number of WebAssembly parameters of a signature.
pub open spec fn num_wasm_parameters_of(sig: SignatureModel) -> int {
    if sig.params.len() > 2 {
        sig.params.len() - 2
    } else {
        0
    }
}

/// The state of a translation.
#[verifier::ext_equal]
pub struct StateModel {
    pub stack: Seq<Value>,
    pub control: Seq<ControlStackFrame>,
    pub reachable: bool,
    pub signatures: Map<u32, (SigRef, usize)>,
    pub functions: Map<u32, (FuncRef, usize)>,
    pub tables: Map<u32, CraneliftTable>,
    pub memories: Map<u32, CraneliftMemory>,
    pub globals: Map<u32, CraneliftGlobal>,
}

impl StateModel {
    /// One value more on the stack.
    pub open spec fn push(self, v: Value) -> StateModel {
        StateModel { stack: self.stack.push(v), ..self }
    }

    /// `n` values less on the stack.
    pub open spec fn pop(self, n: int) -> StateModel {
        StateModel { stack: below(self.stack, n), ..self }
    }

    /// The value at a depth of the stack; the top has depth 0.
    pub open spec fn peek(self, depth: int) -> Value {
        self.stack[self.stack.len() - 1 - depth]
    }

    /// A control frame more.
    pub open spec fn enter(self, frame: ControlStackFrame) -> StateModel {
        StateModel { control: self.control.push(frame), ..self }
    }

    /// The frame at a depth of the control stack; the innermost has depth 0.
    pub open spec fn frame(self, depth: int) -> ControlStackFrame {
        self.control[self.control.len() - 1 - depth]
    }

    /// A branch to the frame at a depth.
    pub open spec fn branched_at(self, depth: int) -> StateModel {
        StateModel {
            control: self.control.update(
                self.control.len() - 1 - depth,
                self.frame(depth).branched(),
            ),
            ..self
        }
    }

    /// The frame of a block that is entered.
    pub open spec fn block_frame(
        self,
        following_code: Block,
        params: usize,
        results: usize,
    ) -> ControlStackFrame {
        ControlStackFrame::Block {
            destination: following_code,
            num_param_values: params,
            num_return_values: results,
            original_stack_size: (self.stack.len() - params) as usize,
            exit_is_branched_to: false,
        }
    }

    /// The frame of a loop that is entered.
    pub open spec fn loop_frame(
        self,
        header: Block,
        following_code: Block,
        params: usize,
        results: usize,
    ) -> ControlStackFrame {
        ControlStackFrame::Loop {
            destination: following_code,
            header,
            num_param_values: params,
            num_return_values: results,
            original_stack_size: (self.stack.len() - params) as usize,
        }
    }

    /// An `if` that is entered: its parameters are on the stack twice, once for the consequent and
    /// once for the alternative.
    pub open spec fn if_entered(
        self,
        destination: Block,
        else_data: ElseData,
        params: usize,
        results: usize,
        blocktype: BlockType,
    ) -> StateModel {
        StateModel {
            stack: self.stack + top(self.stack, params as int),
            control: self.control.push(
                ControlStackFrame::If {
                    destination,
                    else_data,
                    num_param_values: params,
                    num_return_values: results,
                    original_stack_size: self.stack.len() as usize,
                    exit_is_branched_to: false,
                    blocktype,
                    head_is_reachable: self.reachable,
                    consequent_ends_reachable: None,
                },
            ),
            ..self
        }
    }

    /// A state in which nothing has been looked up and the code is reachable.
    pub open spec fn cleared(self) -> StateModel {
        StateModel {
            reachable: true,
            signatures: Map::empty(),
            functions: Map::empty(),
            tables: Map::empty(),
            memories: Map::empty(),
            globals: Map::empty(),
            ..self
        }
    }
}

/// The state of the translation of a function.
pub struct FuncTranslationState {
    pub stack: Vec<Value>,
    pub control_stack: Vec<ControlStackFrame>,
    pub reachable: bool,
    pub signatures: Cache<(SigRef, usize)>,
    pub functions: Cache<(FuncRef, usize)>,
    pub tables: Cache<CraneliftTable>,
    pub memories: Cache<CraneliftMemory>,
    pub globals: Cache<CraneliftGlobal>,
}

impl View for FuncTranslationState {
    type V = StateModel;

    open spec fn view(&self) -> StateModel {
        StateModel {
            stack: self.stack@,
            control: self.control_stack@,
            reachable: self.reachable,
            signatures: self.signatures@,
            functions: self.functions@,
            tables: self.tables@,
            memories: self.memories@,
            globals: self.globals@,
        }
    }
}

impl FuncTranslationState {
    /// The caches are in order.
    pub open spec fn wf(self) -> bool {
        &&& self.signatures.wf()
        &&& self.functions.wf()
        &&& self.tables.wf()
        &&& self.memories.wf()
        &&& self.globals.wf()
    }

    /// The state before a function.
    pub fn new() -> (r: Self)
        ensures
            r.wf(),
            r@.stack == Seq::<Value>::empty(),
            r@.control == Seq::<ControlStackFrame>::empty(),
            r@ == r@.cleared(),
    {
        FuncTranslationState {
            stack: Vec::new(),
            control_stack: Vec::new(),
            reachable: true,
            signatures: Cache::new(),
            functions: Cache::new(),
            tables: Cache::new(),
            memories: Cache::new(),
            globals: Cache::new(),
        }
    }

    /// Prepares a finished state for the next function.
    pub fn clear(&mut self)
        requires
            old(self)@.stack.len() == 0,
            old(self)@.control.len() == 0,
        ensures
            final(self).wf(),
            final(self)@ == old(self)@.cleared(),
    {
        self.reachable = true;
        self.signatures.clear();
        self.functions.clear();
        self.tables.clear();
        self.memories.clear();
        self.globals.clear();
    }

    /// Begins a function: everything is inside one block that leaves the return values.
    pub fn initialize(&mut self, sig: &Signature, exit_block: Block)
        requires
            old(self)@.stack.len() == 0,
            old(self)@.control.len() == 0,
        ensures
            final(self).wf(),
            final(self)@ == old(self)@.cleared().enter(
                old(self)@.block_frame(
                    exit_block,
                    0,
                    sig.returns@.filter(
                        |p: crate::ir::AbiParam| p.purpose is Normal,
                    ).len() as usize,
                ),
            ),
    {
        self.clear();
        let mut count: usize = 0;
        for i in 0..sig.returns.len()
            invariant
                count <= i,
                count == sig.returns@.take(i as int).filter(
                    |p: crate::ir::AbiParam| p.purpose is Normal,
                ).len(),
        {
            proof {
                let pred = |p: crate::ir::AbiParam| p.purpose is Normal;
                assert(sig.returns@.take(i + 1).drop_last() =~= sig.returns@.take(i as int));
                reveal(Seq::filter);
            }
            if matches!(sig.returns[i].purpose, ArgumentPurpose::Normal) {
                count = count + 1;
            }
        }
        assert(sig.returns@.take(sig.returns@.len() as int) =~= sig.returns@);
        self.push_block(exit_block, 0, count);
    }

    /// Pushes a value.
    pub fn push1(&mut self, val: Value)
        ensures
            final(self)@ == old(self)@.push(val),
            old(self).wf() ==> final(self).wf(),
    {
        self.stack.push(val);
    }

    /// Pushes values, the first one lowest.
    pub fn pushn(&mut self, vals: &Vec<Value>)
        ensures
            final(self)@ == (StateModel { stack: old(self)@.stack + vals@, ..old(self)@ }),
            old(self).wf() ==> final(self).wf(),
    {
        for i in 0..vals.len()
            invariant
                self@ == (StateModel {
                    stack: old(self)@.stack + vals@.take(i as int),
                    ..old(self)@
                }),
                old(self).wf() ==> self.wf(),
        {
            self.stack.push(vals[i]);
            assert(self@.stack =~= old(self)@.stack + vals@.take(i + 1));
        }
        assert(vals@.take(vals@.len() as int) =~= vals@);
    }

    /// Pops a value.
    pub fn pop1(&mut self) -> (r: Value)
        requires
            old(self)@.stack.len() >= 1,
        ensures
            r == old(self)@.peek(0),
            final(self)@ == old(self)@.pop(1),
            old(self).wf() ==> final(self).wf(),
    {
        let v = self.stack[self.stack.len() - 1];
        self.stack.pop();
        assert(self@.stack =~= below(old(self)@.stack, 1));
        v
    }

    /// The value on top.
    pub fn peek1(&self) -> (r: Value)
        requires
            self@.stack.len() >= 1,
        ensures
            r == self@.peek(0),
    {
        self.stack[self.stack.len() - 1]
    }

    /// Pops two values; the first one was lower.
    pub fn pop2(&mut self) -> (r: (Value, Value))
        requires
            old(self)@.stack.len() >= 2,
        ensures
            r == (old(self)@.peek(1), old(self)@.peek(0)),
            final(self)@ == old(self)@.pop(2),
            old(self).wf() ==> final(self).wf(),
    {
        let n: usize = self.stack.len();
        let v2 = self.stack[n - 1];
        let v1 = self.stack[n - 2];
        self.stack.truncate(n - 2);
        assert(self@.stack =~= below(old(self)@.stack, 2));
        (v1, v2)
    }

    /// Pops three values; the first one was lowest.
    pub fn pop3(&mut self) -> (r: (Value, Value, Value))
        requires
            old(self)@.stack.len() >= 3,
        ensures
            r == (old(self)@.peek(2), old(self)@.peek(1), old(self)@.peek(0)),
            final(self)@ == old(self)@.pop(3),
            old(self).wf() ==> final(self).wf(),
    {
        let n: usize = self.stack.len();
        let v3 = self.stack[n - 1];
        let v2 = self.stack[n - 2];
        let v1 = self.stack[n - 3];
        self.stack.truncate(n - 3);
        assert(self@.stack =~= below(old(self)@.stack, 3));
        (v1, v2, v3)
    }

    /// Pops `n` values.
    pub fn popn(&mut self, n: usize)
        requires
            n <= old(self)@.stack.len(),
        ensures
            final(self)@ == old(self)@.pop(n as int),
            old(self).wf() ==> final(self).wf(),
    {
        let new_len: usize = self.stack.len() - n;
        self.stack.truncate(new_len);
        assert(self@.stack =~= below(old(self)@.stack, n as int));
    }

    /// The top `n` values, lowest first.
    pub fn peekn(&self, n: usize) -> (r: Vec<Value>)
        requires
            n <= self@.stack.len(),
        ensures
            r@ == top(self@.stack, n as int),
    {
        let mut r: Vec<Value> = Vec::new();
        let start: usize = self.stack.len() - n;
        for i in start..self.stack.len()
            invariant
                start == self.stack@.len() - n,
                n <= self.stack@.len(),
                r@ == self.stack@.subrange(start as int, i as int),
        {
            r.push(self.stack[i]);
            assert(r@ =~= self.stack@.subrange(start as int, i + 1));
        }
        r
    }

    /// Replaces the top values.
    pub fn replace_top(&mut self, vals: &Vec<Value>)
        requires
            vals@.len() <= old(self)@.stack.len(),
        ensures
            final(self)@ == (StateModel {
                stack: below(old(self)@.stack, vals@.len() as int) + vals@,
                ..old(self)@
            }),
            old(self).wf() ==> final(self).wf(),
    {
        self.popn(vals.len());
        self.pushn(vals);
    }

    /// Enters a block.
    pub fn push_block(
        &mut self,
        following_code: Block,
        num_param_types: usize,
        num_result_types: usize,
    )
        requires
            num_param_types <= old(self)@.stack.len(),
        ensures
            final(self)@ == old(self)@.enter(
                old(self)@.block_frame(following_code, num_param_types, num_result_types),
            ),
            old(self).wf() ==> final(self).wf(),
    {
        self.control_stack.push(
            ControlStackFrame::Block {
                destination: following_code,
                num_param_values: num_param_types,
                num_return_values: num_result_types,
                original_stack_size: self.stack.len() - num_param_types,
                exit_is_branched_to: false,
            },
        );
    }

    /// Enters a loop.
    pub fn push_loop(
        &mut self,
        header: Block,
        following_code: Block,
        num_param_types: usize,
        num_result_types: usize,
    )
        requires
            num_param_types <= old(self)@.stack.len(),
        ensures
            final(self)@ == old(self)@.enter(
                old(self)@.loop_frame(header, following_code, num_param_types, num_result_types),
            ),
            old(self).wf() ==> final(self).wf(),
    {
        self.control_stack.push(
            ControlStackFrame::Loop {
                destination: following_code,
                header,
                num_param_values: num_param_types,
                num_return_values: num_result_types,
                original_stack_size: self.stack.len() - num_param_types,
            },
        );
    }

    /// Enters an `if`, whose parameters are pushed a second time for a later `else`.
    pub fn push_if(
        &mut self,
        destination: Block,
        else_data: ElseData,
        num_param_types: usize,
        num_result_types: usize,
        blocktype: BlockType,
    )
        requires
            num_param_types <= old(self)@.stack.len(),
        ensures
            final(self)@ == old(self)@.if_entered(
                destination,
                else_data,
                num_param_types,
                num_result_types,
                blocktype,
            ),
            final(self)@.control.last().wf(),
            old(self).wf() ==> final(self).wf(),
    {
        let size: usize = self.stack.len();
        let params = self.peekn(num_param_types);
        self.pushn(&params);
        self.control_stack.push(
            ControlStackFrame::If {
                destination,
                else_data,
                num_param_values: num_param_types,
                num_return_values: num_result_types,
                original_stack_size: size,
                exit_is_branched_to: false,
                blocktype,
                head_is_reachable: self.reachable,
                consequent_ends_reachable: None,
            },
        );
    }
}

/// What looking up a function yields: the code, the new state, the function and its number of
/// parameters.
pub open spec fn direct_func_found(
    code: Code,
    st: StateModel,
    env: TranslationEnvironment,
    index: FuncIndex,
) -> (Code, StateModel, (FuncRef, usize)) {
    if st.functions.dom().contains(index.0) {
        (code, st, st.functions[index.0])
    } else {
        let (c1, fref) = env.direct_func_made(code, index);
        let entry = (fref, num_wasm_parameters_of(c1.sig_of(fref)) as usize);
        (c1, StateModel { functions: st.functions.insert(index.0, entry), ..st }, entry)
    }
}

/// What looking up a signature yields: the code, the new state, the signature and its number of
/// parameters.
pub open spec fn indirect_sig_found(
    code: Code,
    st: StateModel,
    env: TranslationEnvironment,
    index: TypeIndex,
) -> (Code, StateModel, (SigRef, usize)) {
    if st.signatures.dom().contains(index.0) {
        (code, st, st.signatures[index.0])
    } else {
        let (c1, sig) = env.indirect_sig_made(code, index);
        let entry = (sig, num_wasm_parameters_of(c1.sigs[sig.0 as int]) as usize);
        (c1, StateModel { signatures: st.signatures.insert(index.0, entry), ..st }, entry)
    }
}

/// What looking up a global yields.
pub open spec fn global_found<'a>(
    code: Code,
    st: StateModel,
    env: TranslationEnvironment<'a>,
    index: GlobalIndex,
) -> (Code, StateModel, TranslationEnvironment<'a>, CraneliftGlobal) {
    if st.globals.dom().contains(index.0) {
        (code, st, env, st.globals[index.0])
    } else {
        let (c1, env1, global) = env.global_made(code, index);
        (c1, StateModel { globals: st.globals.insert(index.0, global), ..st }, env1, global)
    }
}

/// What looking up a memory yields.
pub open spec fn memory_found<'a>(
    code: Code,
    st: StateModel,
    env: TranslationEnvironment<'a>,
    index: MemoryIndex,
) -> (Code, StateModel, TranslationEnvironment<'a>, CraneliftMemory) {
    if st.memories.dom().contains(index.0) {
        (code, st, env, st.memories[index.0])
    } else {
        let (c1, env1, memory) = env.memory_made(code, index);
        (c1, StateModel { memories: st.memories.insert(index.0, memory), ..st }, env1, memory)
    }
}

/// What looking up a table yields.
pub open spec fn table_found<'a>(
    code: Code,
    st: StateModel,
    env: TranslationEnvironment<'a>,
    index: TableIndex,
) -> (Code, StateModel, TranslationEnvironment<'a>, CraneliftTable) {
    if st.tables.dom().contains(index.0) {
        (code, st, env, st.tables[index.0])
    } else {
        let (c1, env1, table) = env.table_made(code, index);
        (c1, StateModel { tables: st.tables.insert(index.0, table), ..st }, env1, table)
    }
}

/// Declarations keep lookups in order.
proof fn lemma_still_cached(code: Code, st: StateModel, after: Code)
    requires
        after.declared(code),
    ensures
        crate::cranelift::world::caches_ok(code, st) ==> crate::cranelift::world::caches_ok(
            after,
            st,
        ),
{
    crate::builder::lemma_declared_extends(code, after);
    if crate::cranelift::world::caches_ok(code, st) {
        crate::cranelift::world::lemma_caches_still_ok(code, st, after, st);
    }
}

/// The number of WebAssembly parameters of a signature.
fn num_wasm_parameters(signature: &Signature, env: &TranslationEnvironment) -> (r: usize)
    ensures
        r == num_wasm_parameters_of(signature@),
{
    let mut count: usize = 0;
    for i in 0..signature.params.len()
        invariant
            count == (if i > 2 {
                i - 2
            } else {
                0
            }),
    {
        if env.is_wasm_parameter(i) {
            count = count + 1;
        }
    }
    count
}

impl FuncTranslationState {
    /// Looks a function up for direct calls.
    pub fn get_direct_func(
        &mut self,
        builder: &mut FunctionBuilder,
        index: FuncIndex,
        env: &TranslationEnvironment,
    ) -> (r: (FuncRef, usize))
        requires
            old(self).wf(),
            index.0 < env.module.functions@.len(),
            env.has_func_type(env.module.functions@[index.0 as int].signature),
        ensures
            final(self).wf(),
            final(builder)@.declared(old(builder)@),
            crate::cranelift::world::caches_ok(old(builder)@, old(self)@)
                ==> crate::cranelift::world::caches_ok(final(builder)@, final(self)@)
                && final(builder)@.has_func(r.0),
            (final(builder)@, final(self)@, r) == direct_func_found(
                old(builder)@,
                old(self)@,
                *env,
                index,
            ),
    {
        proof {
            reveal(TranslationEnvironment::direct_func_made);
        }
        match self.functions.get(index.as_u32()) {
            Some(entry) => {
                assert(old(self)@.functions.dom().contains(index.0));
                entry
            },
            None => {
                let fref = env.make_direct_func(builder, index);
                let sig = builder.callee_signature(fref);
                let n: usize = num_wasm_parameters(builder.signature_of(sig), env);
                self.functions.insert(index.as_u32(), (fref, n));
                proof {
                    lemma_still_cached(old(builder)@, old(self)@, builder@);
                    assert(self@.signatures == old(self)@.signatures);
                    assert(self@.tables == old(self)@.tables);
                    if crate::cranelift::world::caches_ok(old(builder)@, old(self)@) {
                        assert forall|k: u32| #[trigger]
                            self@.functions.dom().contains(k) implies builder@.has_func(self@.functions[k].0) by {
                            if k != index.0 {
                                assert(old(self)@.functions.dom().contains(k));
                            }
                        }
                    }
                }
                (fref, n)
            },
        }
    }

    /// Looks a signature up for indirect calls.
    pub fn get_indirect_sig(
        &mut self,
        builder: &mut FunctionBuilder,
        index: TypeIndex,
        env: &TranslationEnvironment,
    ) -> (r: (SigRef, usize))
        requires
            old(self).wf(),
            env.has_func_type(index.0),
        ensures
            final(self).wf(),
            final(builder)@.declared(old(builder)@),
            crate::cranelift::world::caches_ok(old(builder)@, old(self)@)
                ==> crate::cranelift::world::caches_ok(final(builder)@, final(self)@)
                && final(builder)@.has_sig(r.0),
            (final(builder)@, final(self)@, r) == indirect_sig_found(
                old(builder)@,
                old(self)@,
                *env,
                index,
            ),
    {
        proof {
            reveal(TranslationEnvironment::indirect_sig_made);
        }
        match self.signatures.get(index.as_u32()) {
            Some(entry) => {
                assert(old(self)@.signatures.dom().contains(index.0));
                entry
            },
            None => {
                let sig = env.make_indirect_sig(builder, index);
                let n: usize = num_wasm_parameters(builder.signature_of(sig), env);
                self.signatures.insert(index.as_u32(), (sig, n));
                proof {
                    lemma_still_cached(old(builder)@, old(self)@, builder@);
                    assert(self@.functions == old(self)@.functions);
                    assert(self@.tables == old(self)@.tables);
                    if crate::cranelift::world::caches_ok(old(builder)@, old(self)@) {
                        assert forall|k: u32| #[trigger]
                            self@.signatures.dom().contains(k) implies builder@.has_sig(self@.signatures[k].0) by {
                            if k != index.0 {
                                assert(old(self)@.signatures.dom().contains(k));
                            }
                        }
                    }
                }
                (sig, n)
            },
        }
    }

    /// Looks a global up.
    pub fn get_global(
        &mut self,
        builder: &mut FunctionBuilder,
        index: GlobalIndex,
        env: &mut TranslationEnvironment,
    ) -> (r: CraneliftGlobal)
        requires
            old(self).wf(),
            old(env).ready(old(builder)@),
            old(env).has_global(index),
        ensures
            final(self).wf(),
            final(env).ready(final(builder)@),
            final(builder)@.declared(old(builder)@),
            (final(builder)@, final(self)@, *final(env), r) == global_found(
                old(builder)@,
                old(self)@,
                *old(env),
                index,
            ),
    {
        match self.globals.get(index.as_u32()) {
            Some(global) => global,
            None => {
                let global = env.make_global(builder, index);
                self.globals.insert(index.as_u32(), global);
                global
            },
        }
    }

    /// Looks a memory up.
    pub fn get_memory(
        &mut self,
        builder: &mut FunctionBuilder,
        index: MemoryIndex,
        env: &mut TranslationEnvironment,
    ) -> (r: CraneliftMemory)
        requires
            old(self).wf(),
            old(env).ready(old(builder)@),
            old(env).has_memory(index),
        ensures
            final(self).wf(),
            final(env).ready(final(builder)@),
            final(builder)@.declared(old(builder)@),
            (final(builder)@, final(self)@, *final(env), r) == memory_found(
                old(builder)@,
                old(self)@,
                *old(env),
                index,
            ),
    {
        match self.memories.get(index.as_u32()) {
            Some(memory) => memory,
            None => {
                let memory = env.make_memory(builder, index);
                self.memories.insert(index.as_u32(), memory);
                memory
            },
        }
    }

    /// Looks a table up.
    pub fn get_table(
        &mut self,
        builder: &mut FunctionBuilder,
        index: TableIndex,
        env: &mut TranslationEnvironment,
    ) -> (r: CraneliftTable)
        requires
            old(self).wf(),
            old(env).ready(old(builder)@),
            old(env).has_table(index),
        ensures
            final(self).wf(),
            final(env).ready(final(builder)@),
            final(builder)@.declared(old(builder)@),
            crate::cranelift::world::caches_ok(old(builder)@, old(self)@)
                ==> crate::cranelift::world::caches_ok(final(builder)@, final(self)@) && r.bound
                <= i64::MAX,
            (final(builder)@, final(self)@, *final(env), r) == table_found(
                old(builder)@,
                old(self)@,
                *old(env),
                index,
            ),
    {
        match self.tables.get(index.as_u32()) {
            Some(table) => {
                assert(old(self)@.tables.dom().contains(index.0));
                table
            },
            None => {
                let table = env.make_table(builder, index);
                self.tables.insert(index.as_u32(), table);
                proof {
                    reveal(TranslationEnvironment::table_made);
                    lemma_still_cached(old(builder)@, old(self)@, builder@);
                    assert(self@.functions == old(self)@.functions);
                    assert(self@.signatures == old(self)@.signatures);
                    if crate::cranelift::world::caches_ok(old(builder)@, old(self)@) {
                        assert forall|k: u32| #[trigger]
                            self@.tables.dom().contains(k) implies self@.tables[k].bound <= i64::MAX by {
                            if k != index.0 {
                                assert(old(self)@.tables.dom().contains(k));
                            }
                        }
                    }
                }
                table
            },
        }
    }
}

/// Leaving an `if` cuts the stack back to what lay below its parameters, whatever was pushed above
/// both copies of them.
pub proof fn leaving_an_if_restores_the_stack(
    st: StateModel,
    destination: Block,
    else_data: ElseData,
    params: usize,
    results: usize,
    blocktype: BlockType,
    pushed: Seq<Value>,
)
    requires
        params <= st.stack.len() <= usize::MAX,
    ensures
        ({
            let entered = st.if_entered(destination, else_data, params, results, blocktype);
            &&& entered.frame(0).wf()
            &&& cut(entered.stack + pushed, entered.frame(0).floor()) == below(
                st.stack,
                params as int,
            )
            &&& cut(entered.stack + pushed, entered.frame(0).base_height() as int) == st.stack
        }),
{
    let entered = st.if_entered(destination, else_data, params, results, blocktype);
    assert(cut(entered.stack + pushed, entered.frame(0).floor()) =~= below(
        st.stack,
        params as int,
    ));
    assert(cut(entered.stack + pushed, entered.frame(0).base_height() as int) =~= st.stack);
}

/// Leaving a block cuts the stack back to what lay below its parameters.
pub proof fn leaving_a_block_restores_the_stack(
    st: StateModel,
    following_code: Block,
    params: usize,
    results: usize,
    pushed: Seq<Value>,
)
    requires
        params <= st.stack.len() <= usize::MAX,
    ensures
        cut(
            st.stack + pushed,
            st.block_frame(following_code, params, results).floor(),
        ) == below(st.stack, params as int),
{
    assert(cut(
        st.stack + pushed,
        st.block_frame(following_code, params, results).floor(),
    ) =~= below(st.stack, params as int));
}

/// Leaving a loop cuts the stack back to what lay below its parameters.
pub proof fn leaving_a_loop_restores_the_stack(
    st: StateModel,
    header: Block,
    following_code: Block,
    params: usize,
    results: usize,
    pushed: Seq<Value>,
)
    requires
        params <= st.stack.len() <= usize::MAX,
    ensures
        cut(
            st.stack + pushed,
            st.loop_frame(header, following_code, params, results).floor(),
        ) == below(st.stack, params as int),
{
    assert(cut(
        st.stack + pushed,
        st.loop_frame(header, following_code, params, results).floor(),
    ) =~= below(st.stack, params as int));
}

} // verus!
