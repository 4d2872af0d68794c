//! The execution engine: a call stack over a loaded module, advanced one
//! instruction at a time.
//!
//! The machine never blocks and never prints. A step that needs the host
//! says so in the [`Action`] it returns: to compute on two numbers, to emit
//! a value, or to stop calling. A fault is returned as an error and ends the
//! run; nothing is rolled back.

use vstd::prelude::*;
use crate::error::Fault;
use crate::frame::{CallFrame, FrameView};
use crate::opcode::{Instruction, Opcode};
use crate::program::{Bytecode, ProgramView};
use crate::semantics::{
    arithmetic, arithmetic_of, bound_arguments, call, execute, jumped, logical, popped, pushed,
    resume, ret, started, step, unary, with_top, ActionView, MachineView, Step,
};
use crate::value::{ArithOp, Value, ValueView};

verus! {

impl ArithOp {
    /// The arithmetic operation that an opcode stands for, if it is one of
    /// the five.
    pub fn from_opcode(opcode: Opcode) -> (r: Option<ArithOp>)
        ensures
            r == arithmetic_of(opcode),
    {
        match opcode {
            Opcode::Add => Some(ArithOp::Add),
            Opcode::Subtract => Some(ArithOp::Subtract),
            Opcode::Multiply => Some(ArithOp::Multiply),
            Opcode::Divide => Some(ArithOp::Divide),
            Opcode::Modulo => Some(ArithOp::Modulo),
            _ => None,
        }
    }
}

/// Whether the machine can go on, and if not, why.
#[derive(Clone, Copy, Debug, PartialEq, Eq, Structural)]
pub enum Status {
    /// The next step executes an instruction.
    Running,
    /// Both operands of an arithmetic instruction have been popped; the
    /// machine goes on when the host hands in the result.
    Awaiting { op: ArithOp, left: u64, right: u64 },
    /// A halt instruction was executed.
    Halted,
    /// A fault ended the run.
    Faulted(Fault),
}

/// What a step tells the host.
#[derive(Debug)]
pub enum Action {
    /// An instruction was executed; there is nothing for the host to do.
    Continue,
    /// The host is to compute `left op right` on binary64 numbers and hand
    /// the result's pattern to `resume`.
    Compute { op: ArithOp, left: u64, right: u64 },
    /// The host is to emit the text of this value.
    Print(Value),
    /// The run is over: the machine has halted, or its call stack is empty.
    Stop,
}

impl View for Action {
    type V = ActionView;

    open spec fn view(&self) -> ActionView {
        match self {
            Action::Continue => ActionView::Continue,
            Action::Compute { op, left, right } => ActionView::Compute {
                op: *op,
                left: *left,
                right: *right,
            },
            Action::Print(value) => ActionView::Print(value@),
            Action::Stop => ActionView::Stop,
        }
    }
}

/// A machine over a module that it only reads.
pub struct VirtualMachine<'a> {
    status: Status,
    bytecode: &'a Bytecode,
    frames: Vec<CallFrame>,
}

impl<'a> View for VirtualMachine<'a> {
    type V = MachineView;

    closed spec fn view(&self) -> MachineView {
        MachineView { status: self.status, frames: self.frames@.map_values(|f: CallFrame| f@) }
    }
}

impl<'a> VirtualMachine<'a> {
    /// The module that the machine runs.
    pub closed spec fn program(&self) -> ProgramView {
        self.bytecode@
    }

    /// A running machine over `bytecode` with an empty call stack.
    pub fn new(bytecode: &'a Bytecode) -> (r: Self)
        ensures
            r@ == (MachineView { status: Status::Running, frames: Seq::empty() }),
            r.program() == bytecode@,
    {
        VirtualMachine { status: Status::Running, bytecode, frames: Vec::new() }
    }

    /// Enters the entry point: a frame for function 0 becomes the innermost.
    pub fn start(&mut self)
        ensures
            final(self)@ == started(old(self)@),
            final(self).program() == old(self).program(),
    {
        self.push_frame(CallFrame::new(0));
    }

    /// Where the machine stands.
    pub fn status(&self) -> (r: Status)
        ensures
            r == self@.status,
    {
        self.status
    }

    /// The call stack, innermost frame last.
    pub fn frames(&self) -> (r: &Vec<CallFrame>)
        ensures
            r@.map_values(|f: CallFrame| f@) == self@.frames,
    {
        &self.frames
    }

    fn push_frame(&mut self, frame: CallFrame)
        ensures
            final(self)@ == (MachineView {
                frames: old(self)@.frames.push(frame@),
                ..old(self)@
            }),
            final(self).program() == old(self).program(),
    {
        self.frames.push(frame);
    }

    fn pop_frame(&mut self) -> (r: Result<(), Fault>)
        ensures
            final(self).program() == old(self).program(),
            match r {
                Ok(_) => old(self)@.frames.len() > 0 && final(self)@ == (MachineView {
                    frames: old(self)@.frames.drop_last(),
                    ..old(self)@
                }),
                Err(fault) => fault == Fault::CallStackUnderflow && old(self)@.frames.len() == 0
                    && final(self)@ == old(self)@,
            },
    {
        if self.frames.is_empty() {
            return Err(Fault::CallStackUnderflow);
        }
        self.frames.pop();
        Ok(())
    }

    /// The innermost frame, to be changed in place.
    fn current_frame(&mut self) -> (r: Result<&mut CallFrame, Fault>)
        ensures
            final(self).program() == old(self).program(),
            match r {
                Ok(frame) => old(self)@.frames.len() > 0 && frame@ == old(self)@.frames.last()
                    && final(self)@ == (MachineView {
                    frames: with_top(old(self)@.frames, final(frame)@),
                    ..old(self)@
                }),
                Err(fault) => fault == Fault::CallStackUnderflow && old(self)@.frames.len() == 0
                    && final(self)@ == old(self)@,
            },
    {
        match self.frames.as_mut_slice().last_mut() {
            Some(frame) => Ok(frame),
            None => Err(Fault::CallStackUnderflow),
        }
    }

    pub fn is_call_stack_empty(&self) -> (r: bool)
        ensures
            r == (self@.frames.len() == 0),
    {
        self.frames.is_empty()
    }

    /// Whether nothing can be popped: the innermost operand stack is empty,
    /// or there is no frame at all.
    pub fn is_operand_stack_empty(&self) -> (r: bool)
        ensures
            r == (self@.frames.len() == 0 || self@.frames.last().stack.len() == 0),
    {
        if self.frames.len() > 0 {
            self.frames[self.frames.len() - 1].is_stack_empty()
        } else {
            true
        }
    }

    fn push_operand(&mut self, value: Value) -> (r: Result<(), Fault>)
        ensures
            final(self).program() == old(self).program(),
            match r {
                Ok(_) => old(self)@.frames.len() > 0 && final(self)@ == (MachineView {
                    frames: pushed(old(self)@.frames, value@),
                    ..old(self)@
                }),
                Err(fault) => fault == Fault::CallStackUnderflow && old(self)@.frames.len() == 0
                    && final(self)@ == old(self)@,
            },
    {
        match self.current_frame() {
            Ok(frame) => {
                frame.stack_push(value);
                Ok(())
            },
            Err(fault) => Err(fault),
        }
    }

    fn pop_operand(&mut self) -> (r: Result<Value, Fault>)
        ensures
            final(self).program() == old(self).program(),
            match r {
                Ok(value) => old(self)@.frames.len() > 0 && old(self)@.frames.last().stack.len() > 0
                    && value@ == old(self)@.frames.last().stack.last() && final(self)@
                    == (MachineView { frames: popped(old(self)@.frames), ..old(self)@ }),
                Err(fault) => final(self)@ == old(self)@ && if old(self)@.frames.len() == 0 {
                    fault == Fault::CallStackUnderflow
                } else {
                    fault == Fault::StackUnderflow && old(self)@.frames.last().stack.len() == 0
                },
            },
    {
        match self.current_frame() {
            Ok(frame) => match frame.stack_pop() {
                Some(value) => Ok(value),
                None => Err(Fault::StackUnderflow),
            },
            Err(fault) => Err(fault),
        }
    }

    /// What a slot of the innermost frame holds.
    fn get_local(&self, index: usize) -> (r: Result<Value, Fault>)
        ensures
            match r {
                Ok(value) => self@.frames.len() > 0 && self@.frames.last().locals.contains_key(
                    index,
                ) && value@ == self@.frames.last().locals[index],
                Err(fault) => if self@.frames.len() == 0 {
                    fault == Fault::CallStackUnderflow
                } else {
                    fault == Fault::MissingLocal && !self@.frames.last().locals.contains_key(index)
                },
            },
    {
        if self.frames.len() == 0 {
            return Err(Fault::CallStackUnderflow);
        }
        match self.frames[self.frames.len() - 1].get_local(index) {
            Some(value) => Ok(value.clone()),
            None => Err(Fault::MissingLocal),
        }
    }

    /// Writes a slot of the innermost frame.
    fn set_local(&mut self, index: usize, value: Value) -> (r: Result<(), Fault>)
        ensures
            final(self).program() == old(self).program(),
            match r {
                Ok(_) => old(self)@.frames.len() > 0 && final(self)@ == (MachineView {
                    frames: with_top(
                        old(self)@.frames,
                        FrameView {
                            locals: old(self)@.frames.last().locals.insert(index, value@),
                            ..old(self)@.frames.last()
                        },
                    ),
                    ..old(self)@
                }),
                Err(fault) => fault == Fault::CallStackUnderflow && old(self)@.frames.len() == 0
                    && final(self)@ == old(self)@,
            },
    {
        match self.current_frame() {
            Ok(frame) => {
                frame.set_local(index, value);
                Ok(())
            },
            Err(fault) => Err(fault),
        }
    }

    /// Sets the innermost frame's instruction pointer.
    fn handle_jump(&mut self, target: usize) -> (r: Result<(), Fault>)
        ensures
            final(self).program() == old(self).program(),
            match r {
                Ok(_) => old(self)@.frames.len() > 0 && final(self)@ == (MachineView {
                    frames: jumped(old(self)@.frames, target as nat),
                    ..old(self)@
                }),
                Err(fault) => fault == Fault::CallStackUnderflow && old(self)@.frames.len() == 0
                    && final(self)@ == old(self)@,
            },
    {
        match self.current_frame() {
            Ok(frame) => {
                frame.set_instruction_pointer(target);
                Ok(())
            },
            Err(fault) => Err(fault),
        }
    }

    /// Negate or not on the top of the stack.
    fn unary_op(&mut self, opcode: Opcode) -> (r: Result<Action, Fault>)
        requires
            opcode is Negate || opcode is Not,
            old(self)@.frames.len() > 0,
        ensures
            final(self).program() == old(self).program(),
            final(self)@.frames == unary(old(self)@.frames, opcode).machine.frames,
            final(self)@.status == old(self)@.status,
            match r {
                Ok(action) => unary(old(self)@.frames, opcode).outcome == Ok::<ActionView, Fault>(
                    action@,
                ),
                Err(fault) => unary(old(self)@.frames, opcode).outcome == Err::<ActionView, Fault>(
                    fault,
                ),
            },
    {
        let val = match self.pop_operand() {
            Ok(val) => val,
            Err(fault) => { return Err(fault); },
        };
        let result = match opcode {
            Opcode::Not => val.logical_not(),
            _ => val.negate(),
        };
        match result {
            Ok(result) => {
                let pushed = self.push_operand(result);
                Ok(Action::Continue)
            },
            Err(fault) => Err(fault),
        }
    }

    /// One of the seven operations on the two topmost values. The value
    /// popped first is the right operand.
    fn binary_op(&mut self, opcode: Opcode) -> (r: Result<Action, Fault>)
        requires
            arithmetic_of(opcode) is Some || opcode is And || opcode is Or,
            old(self)@.frames.len() > 0,
            old(self)@.status is Running,
        ensures
            final(self).program() == old(self).program(),
            final(self)@.frames == Self::binary(old(self)@.frames, opcode).machine.frames,
            match r {
                Ok(action) => Self::binary(old(self)@.frames, opcode).outcome == Ok::<
                    ActionView,
                    Fault,
                >(action@) && final(self)@.status == Self::binary(
                    old(self)@.frames,
                    opcode,
                ).machine.status,
                Err(fault) => Self::binary(old(self)@.frames, opcode).outcome == Err::<
                    ActionView,
                    Fault,
                >(fault) && final(self)@.status is Running,
            },
    {
        let val2 = match self.pop_operand() {
            Ok(val) => val,
            Err(fault) => { return Err(fault); },
        };
        let val1 = match self.pop_operand() {
            Ok(val) => val,
            Err(fault) => { return Err(fault); },
        };
        match ArithOp::from_opcode(opcode) {
            Some(op) => match (val1, val2) {
                (Value::Number(left), Value::Number(right)) => {
                    self.status = Status::Awaiting { op, left, right };
                    Ok(Action::Compute { op, left, right })
                },
                _ => Err(Fault::TypeMismatch),
            },
            None => {
                let result = match opcode {
                    Opcode::And => val1.logical_and(&val2),
                    _ => val1.logical_or(&val2),
                };
                match result {
                    Ok(result) => {
                        let pushed = self.push_operand(result);
                        Ok(Action::Continue)
                    },
                    Err(fault) => Err(fault),
                }
            },
        }
    }

    /// What a binary instruction does: arithmetic goes to the host, and/or
    /// is done in place.
    pub open spec fn binary(frames: Seq<FrameView>, opcode: Opcode) -> Step {
        match arithmetic_of(opcode) {
            Some(op) => arithmetic(frames, op),
            None => logical(frames, opcode),
        }
    }

    /// Enters function `index`: its arguments are popped off the caller's
    /// stack, last pushed first, and bound to slots so that the first
    /// pushed is slot 0.
    fn call_function(&mut self, index: usize) -> (r: Result<Action, Fault>)
        requires
            old(self)@.frames.len() > 0,
        ensures
            final(self).program() == old(self).program(),
            final(self)@.frames == call(
                old(self).program(),
                old(self)@.frames,
                index as nat,
            ).machine.frames,
            final(self)@.status == old(self)@.status,
            match r {
                Ok(action) => call(old(self).program(), old(self)@.frames, index as nat).outcome
                    == Ok::<ActionView, Fault>(action@),
                Err(fault) => call(old(self).program(), old(self)@.frames, index as nat).outcome
                    == Err::<ActionView, Fault>(fault),
            },
    {
        let bytecode = self.bytecode;
        if index >= bytecode.function_count() {
            return Err(Fault::FunctionOutOfRange);
        }
        let num_args = bytecode.get_function(index).num_args;
        let mut new_frame = CallFrame::new(index);
        let ghost frames = self@.frames;
        let ghost caller = frames.last();
        let ghost depth = caller.stack.len();
        let mut i: usize = 0;
        proof {
            assert(caller.stack.take(depth as int) == caller.stack);
            assert(self@.frames == with_top(frames, caller));
        }
        while i < num_args
            invariant
                i <= num_args,
                i <= depth,
                frames == old(self)@.frames,
                index < old(self).program().functions.len(),
                num_args as nat == old(self).program().functions[index as int].num_args,
                frames.len() > 0,
                caller == frames.last(),
                depth == caller.stack.len(),
                self.program() == old(self).program(),
                self@.status == old(self)@.status,
                self@.frames == with_top(
                    frames,
                    FrameView { stack: caller.stack.take(depth - i), ..caller },
                ),
                new_frame@ == (FrameView {
                    instruction_pointer: 0,
                    function_index: index as nat,
                    stack: Seq::empty(),
                    locals: Map::new(
                        |slot: usize| num_args - i <= slot < num_args,
                        |slot: usize| caller.stack[depth - num_args + slot],
                    ),
                }),
            decreases num_args - i,
        {
            let arg = match self.pop_operand() {
                Ok(arg) => arg,
                Err(fault) => {
                    assert(caller.stack.take(depth - i) == Seq::<ValueView>::empty());
                    return Err(fault);
                },
            };
            let ghost before = new_frame@.locals;
            new_frame.set_local(num_args - i - 1, arg);
            proof {
                assert(caller.stack.take(depth - i).drop_last() == caller.stack.take(
                    depth - i - 1,
                ));
                assert(new_frame@.locals == Map::new(
                    |slot: usize| num_args - (i + 1) <= slot < num_args,
                    |slot: usize| caller.stack[depth - num_args + slot],
                ));
            }
            i = i + 1;
        }
        proof {
            assert(new_frame@.locals == bound_arguments(caller.stack, num_args as nat));
        }
        self.push_frame(new_frame);
        Ok(Action::Continue)
    }

    /// Leaves the innermost frame: what it returns goes on the stack of the
    /// frame below, if there is one.
    fn return_from_function(&mut self) -> (r: Action)
        requires
            old(self)@.frames.len() > 0,
        ensures
            final(self).program() == old(self).program(),
            final(self)@.frames == ret(old(self)@.frames).machine.frames,
            final(self)@.status == old(self)@.status,
            ret(old(self)@.frames).outcome == Ok::<ActionView, Fault>(r@),
    {
        let return_value = if !self.is_operand_stack_empty() {
            match self.pop_operand() {
                Ok(value) => value,
                Err(_) => Value::Boolean(false),
            }
        } else {
            Value::Boolean(false)
        };
        let popped = self.pop_frame();
        if !self.is_call_stack_empty() {
            let pushed = self.push_operand(return_value);
            Action::Continue
        } else {
            assert(self@.frames == old(self)@.frames.drop_last());
            Action::Stop
        }
    }

    /// Executes an instruction that the innermost frame has moved past.
    fn dispatch(&mut self, instruction: Instruction) -> (r: Result<Action, Fault>)
        requires
            old(self)@.frames.len() > 0,
            old(self)@.status is Running,
        ensures
            final(self).program() == old(self).program(),
            final(self)@.frames == execute(
                old(self).program(),
                old(self)@.frames,
                instruction@,
            ).machine.frames,
            match r {
                Ok(action) => execute(old(self).program(), old(self)@.frames, instruction@).outcome
                    == Ok::<ActionView, Fault>(action@) && final(self)@.status == execute(
                    old(self).program(),
                    old(self)@.frames,
                    instruction@,
                ).machine.status,
                Err(fault) => execute(old(self).program(), old(self)@.frames, instruction@).outcome
                    == Err::<ActionView, Fault>(fault) && final(self)@.status is Running,
            },
    {
        let opcode = instruction.opcode();
        match opcode {
            Opcode::PushConst => {
                let bytecode = self.bytecode;
                match bytecode.get_constant(instruction.operand() as usize) {
                    Some(constant) => {
                        let pushed = self.push_operand(constant.clone());
                        Ok(Action::Continue)
                    },
                    None => Err(Fault::ConstantOutOfRange),
                }
            },
            Opcode::Add
            | Opcode::Subtract
            | Opcode::Multiply
            | Opcode::Divide
            | Opcode::Modulo
            | Opcode::And
            | Opcode::Or => self.binary_op(opcode),
            Opcode::Not | Opcode::Negate => self.unary_op(opcode),
            Opcode::Equal => {
                let val2 = match self.pop_operand() {
                    Ok(val) => val,
                    Err(fault) => { return Err(fault); },
                };
                let val1 = match self.pop_operand() {
                    Ok(val) => val,
                    Err(fault) => { return Err(fault); },
                };
                let pushed = self.push_operand(Value::Boolean(val1.eq(&val2)));
                Ok(Action::Continue)
            },
            Opcode::Jump => {
                let jumped = self.handle_jump(instruction.operand() as usize);
                Ok(Action::Continue)
            },
            Opcode::JumpIfTrue => {
                let val = match self.pop_operand() {
                    Ok(val) => val,
                    Err(fault) => { return Err(fault); },
                };
                match val {
                    Value::Boolean(true) => {
                        let jumped = self.handle_jump(instruction.operand() as usize);
                        Ok(Action::Continue)
                    },
                    Value::Boolean(false) => Ok(Action::Continue),
                    _ => Err(Fault::NonBooleanCondition),
                }
            },
            Opcode::JumpIfFalse => {
                let val = match self.pop_operand() {
                    Ok(val) => val,
                    Err(fault) => { return Err(fault); },
                };
                match val {
                    Value::Boolean(false) => {
                        let jumped = self.handle_jump(instruction.operand() as usize);
                        Ok(Action::Continue)
                    },
                    Value::Boolean(true) => Ok(Action::Continue),
                    _ => Err(Fault::NonBooleanCondition),
                }
            },
            Opcode::Print => {
                match self.pop_operand() {
                    Ok(val) => Ok(Action::Print(val)),
                    Err(fault) => Err(fault),
                }
            },
            Opcode::GetLocal => {
                match self.get_local(instruction.operand() as usize) {
                    Ok(val) => {
                        let pushed = self.push_operand(val);
                        Ok(Action::Continue)
                    },
                    Err(fault) => Err(fault),
                }
            },
            Opcode::SetLocal => {
                match self.pop_operand() {
                    Ok(val) => {
                        let stored = self.set_local(instruction.operand() as usize, val);
                        Ok(Action::Continue)
                    },
                    Err(fault) => Err(fault),
                }
            },
            Opcode::Call => self.call_function(instruction.operand() as usize),
            Opcode::Return => Ok(self.return_from_function()),
            Opcode::Halt => {
                self.status = Status::Halted;
                Ok(Action::Stop)
            },
        }
    }

    /// Executes the next instruction.
    ///
    /// The machine afterwards and what is returned are exactly what
    /// [`step`](crate::semantics::step) says. A fault is returned as the
    /// error and leaves the machine faulted; every later step returns the
    /// same fault and changes nothing.
    pub fn step(&mut self) -> (r: Result<Action, Fault>)
        ensures
            final(self).program() == old(self).program(),
            final(self)@ == step(old(self).program(), old(self)@).machine,
            match r {
                Ok(action) => step(old(self).program(), old(self)@).outcome == Ok::<
                    ActionView,
                    Fault,
                >(action@),
                Err(fault) => step(old(self).program(), old(self)@).outcome == Err::<
                    ActionView,
                    Fault,
                >(fault),
            },
    {
        match self.status {
            Status::Halted => { return Ok(Action::Stop); },
            Status::Faulted(fault) => { return Err(fault); },
            Status::Awaiting { op, left, right } => {
                return Ok(Action::Compute { op, left, right });
            },
            Status::Running => {},
        }
        if self.frames.is_empty() {
            return Ok(Action::Stop);
        }
        let bytecode = self.bytecode;
        let function_index = self.frames[self.frames.len() - 1].get_function_index();
        let ip = self.frames[self.frames.len() - 1].get_instruction_pointer();
        if function_index >= bytecode.function_count() {
            self.status = Status::Faulted(Fault::FunctionOutOfRange);
            return Err(Fault::FunctionOutOfRange);
        }
        let function = bytecode.get_function(function_index);
        if ip >= function.instructions.len() {
            self.status = Status::Faulted(Fault::InstructionOutOfRange);
            return Err(Fault::InstructionOutOfRange);
        }
        let instruction = *function.get_instruction(ip);
        match self.current_frame() {
            Ok(frame) => frame.advance_instruction_pointer(),
            Err(_) => {},
        }
        match self.dispatch(instruction) {
            Ok(action) => Ok(action),
            Err(fault) => {
                self.status = Status::Faulted(fault);
                Err(fault)
            },
        }
    }

    /// Hands in the result of the arithmetic that the machine asked for.
    ///
    /// If the machine was waiting, the number is pushed, the machine runs
    /// again and the answer is `true`. Otherwise nothing changes and the
    /// answer is `false`.
    pub fn resume(&mut self, result: u64) -> (accepted: bool)
        ensures
            final(self).program() == old(self).program(),
            final(self)@ == resume(old(self)@, result),
            accepted == (old(self)@.status is Awaiting && old(self)@.frames.len() > 0),
    {
        match self.status {
            Status::Awaiting { .. } => {
                match self.push_operand(Value::Number(result)) {
                    Ok(_) => {
                        self.status = Status::Running;
                        true
                    },
                    Err(_) => false,
                }
            },
            _ => false,
        }
    }
}

} // verus!
