//! What one step of the machine does, as mathematics.
//!
//! [`step`] maps a module and a machine to the machine after its next
//! instruction and to what the host is told. [`resume`] is the host's answer
//! to a request for arithmetic. The functions before them say what each kind
//! of instruction does to the call stack once the instruction pointer has
//! moved past it.

use vstd::prelude::*;
use crate::error::Fault;
use crate::frame::FrameView;
use crate::machine::Status;
use crate::opcode::{InstructionView, Opcode};
use crate::program::ProgramView;
use crate::value::{negated, value_eq, ArithOp, ValueView};

verus! {

/// What a machine is: its status and its call stack, innermost frame last.
#[verifier::ext_equal]
pub struct MachineView {
    pub status: Status,
    pub frames: Seq<FrameView>,
}

/// What a step tells the host, as contracts speak of it.
pub enum ActionView {
    Continue,
    Compute { op: ArithOp, left: u64, right: u64 },
    Print(ValueView),
    Stop,
}

/// The machine after a step, and what the step told the host.
#[verifier::ext_equal]
pub struct Step {
    pub machine: MachineView,
    pub outcome: Result<ActionView, Fault>,
}

/// The call stack with its innermost frame replaced.
pub open spec fn with_top(frames: Seq<FrameView>, frame: FrameView) -> Seq<FrameView> {
    frames.update(frames.len() - 1, frame)
}

/// The call stack after `value` is pushed on the innermost operand stack.
pub open spec fn pushed(frames: Seq<FrameView>, value: ValueView) -> Seq<FrameView> {
    let frame = frames.last();
    with_top(frames, FrameView { stack: frame.stack.push(value), ..frame })
}

/// The call stack after the innermost operand stack lost its top.
pub open spec fn popped(frames: Seq<FrameView>) -> Seq<FrameView> {
    let frame = frames.last();
    with_top(frames, FrameView { stack: frame.stack.drop_last(), ..frame })
}

/// The call stack after the innermost frame's instruction pointer was set.
pub open spec fn jumped(frames: Seq<FrameView>, target: nat) -> Seq<FrameView> {
    with_top(frames, FrameView { instruction_pointer: target, ..frames.last() })
}

/// A step that executed an instruction and leaves the machine running.
pub open spec fn proceed(frames: Seq<FrameView>) -> Step {
    Step {
        machine: MachineView { status: Status::Running, frames },
        outcome: Ok(ActionView::Continue),
    }
}

/// A step that ended in a fault. The call stack stays as the fault found it.
pub open spec fn fail(frames: Seq<FrameView>, fault: Fault) -> Step {
    Step { machine: MachineView { status: Status::Faulted(fault), frames }, outcome: Err(fault) }
}

/// The arithmetic operation that an opcode asks the host for, if it is one
/// of the five.
pub open spec fn arithmetic_of(opcode: Opcode) -> Option<ArithOp> {
    match opcode {
        Opcode::Add => Some(ArithOp::Add),
        Opcode::Subtract => Some(ArithOp::Subtract),
        Opcode::Multiply => Some(ArithOp::Multiply),
        Opcode::Divide => Some(ArithOp::Divide),
        Opcode::Modulo => Some(ArithOp::Modulo),
        _ => None,
    }
}

/// push-constant: the constant at `index` goes on the operand stack.
pub open spec fn push_constant(
    program: ProgramView,
    frames: Seq<FrameView>,
    index: nat,
) -> Step {
    if index < program.constants.len() {
        proceed(pushed(frames, program.constants[index as int]))
    } else {
        fail(frames, Fault::ConstantOutOfRange)
    }
}

/// What negate and not make of a value.
pub open spec fn unary_result(opcode: Opcode, value: ValueView) -> Result<ValueView, Fault> {
    match (opcode, value) {
        (Opcode::Negate, ValueView::Number(bits)) => Ok(ValueView::Number(negated(bits))),
        (Opcode::Not, ValueView::Boolean(b)) => Ok(ValueView::Boolean(!b)),
        _ => Err(Fault::TypeMismatch),
    }
}

/// negate, not: the top of the stack is replaced by the result.
pub open spec fn unary(frames: Seq<FrameView>, opcode: Opcode) -> Step {
    let stack = frames.last().stack;
    if stack.len() < 1 {
        fail(frames, Fault::StackUnderflow)
    } else {
        match unary_result(opcode, stack.last()) {
            Ok(result) => proceed(pushed(popped(frames), result)),
            Err(fault) => fail(popped(frames), fault),
        }
    }
}

/// and, or: the two topmost values, the left one pushed first, are replaced
/// by the result.
pub open spec fn logical(frames: Seq<FrameView>, opcode: Opcode) -> Step {
    let stack = frames.last().stack;
    if stack.len() < 1 {
        fail(frames, Fault::StackUnderflow)
    } else if stack.len() < 2 {
        fail(popped(frames), Fault::StackUnderflow)
    } else {
        let right = stack[stack.len() - 1];
        let left = stack[stack.len() - 2];
        let rest = popped(popped(frames));
        match (left, right) {
            (ValueView::Boolean(a), ValueView::Boolean(b)) => proceed(
                pushed(rest, ValueView::Boolean(if opcode is And { a && b } else { a || b })),
            ),
            _ => fail(rest, Fault::TypeMismatch),
        }
    }
}

/// add, subtract, multiply, divide, modulo: the two topmost values, the left
/// one pushed first, are taken off the stack and handed to the host.
pub open spec fn arithmetic(frames: Seq<FrameView>, op: ArithOp) -> Step {
    let stack = frames.last().stack;
    if stack.len() < 1 {
        fail(frames, Fault::StackUnderflow)
    } else if stack.len() < 2 {
        fail(popped(frames), Fault::StackUnderflow)
    } else {
        let right = stack[stack.len() - 1];
        let left = stack[stack.len() - 2];
        let rest = popped(popped(frames));
        match (left, right) {
            (ValueView::Number(a), ValueView::Number(b)) => Step {
                machine: MachineView {
                    status: Status::Awaiting { op, left: a, right: b },
                    frames: rest,
                },
                outcome: Ok(ActionView::Compute { op, left: a, right: b }),
            },
            _ => fail(rest, Fault::TypeMismatch),
        }
    }
}

/// equal: the two topmost values are replaced by whether they are equal.
pub open spec fn equality(frames: Seq<FrameView>) -> Step {
    let stack = frames.last().stack;
    if stack.len() < 1 {
        fail(frames, Fault::StackUnderflow)
    } else if stack.len() < 2 {
        fail(popped(frames), Fault::StackUnderflow)
    } else {
        let right = stack[stack.len() - 1];
        let left = stack[stack.len() - 2];
        proceed(pushed(popped(popped(frames)), ValueView::Boolean(value_eq(left, right))))
    }
}

/// jump-if-true (`when` true) and jump-if-false (`when` false): the top of
/// the stack is taken; control goes to `target` if it is the Boolean `when`,
/// and falls through if it is the other Boolean.
pub open spec fn conditional_jump(frames: Seq<FrameView>, when: bool, target: nat) -> Step {
    let stack = frames.last().stack;
    if stack.len() < 1 {
        fail(frames, Fault::StackUnderflow)
    } else {
        match stack.last() {
            ValueView::Boolean(b) => if b == when {
                proceed(jumped(popped(frames), target))
            } else {
                proceed(popped(frames))
            },
            _ => fail(popped(frames), Fault::NonBooleanCondition),
        }
    }
}

/// print: the top of the stack is taken and handed to the host.
pub open spec fn print(frames: Seq<FrameView>) -> Step {
    let stack = frames.last().stack;
    if stack.len() < 1 {
        fail(frames, Fault::StackUnderflow)
    } else {
        Step {
            machine: MachineView { status: Status::Running, frames: popped(frames) },
            outcome: Ok(ActionView::Print(stack.last())),
        }
    }
}

/// get-local: what the slot holds goes on the stack.
pub open spec fn get_local(frames: Seq<FrameView>, slot: usize) -> Step {
    let locals = frames.last().locals;
    if locals.contains_key(slot) {
        proceed(pushed(frames, locals[slot]))
    } else {
        fail(frames, Fault::MissingLocal)
    }
}

/// set-local: the top of the stack is taken and written to the slot.
pub open spec fn set_local(frames: Seq<FrameView>, slot: usize) -> Step {
    let frame = frames.last();
    if frame.stack.len() < 1 {
        fail(frames, Fault::StackUnderflow)
    } else {
        proceed(
            with_top(
                frames,
                FrameView {
                    stack: frame.stack.drop_last(),
                    locals: frame.locals.insert(slot, frame.stack.last()),
                    ..frame
                },
            ),
        )
    }
}

/// The slots of a new frame whose `count` arguments are the topmost `count`
/// values of `stack`: slot 0 holds the one pushed first.
pub open spec fn bound_arguments(stack: Seq<ValueView>, count: nat) -> Map<usize, ValueView> {
    Map::new(|slot: usize| slot < count, |slot: usize| stack[stack.len() - count + slot])
}

/// call: the callee's arguments leave the caller's stack and become the
/// slots of a new innermost frame at the callee's first instruction.
pub open spec fn call(program: ProgramView, frames: Seq<FrameView>, index: nat) -> Step {
    if index >= program.functions.len() {
        fail(frames, Fault::FunctionOutOfRange)
    } else {
        let caller = frames.last();
        let count = program.functions[index as int].num_args;
        if caller.stack.len() < count {
            fail(
                with_top(frames, FrameView { stack: Seq::empty(), ..caller }),
                Fault::StackUnderflow,
            )
        } else {
            let callee = FrameView {
                instruction_pointer: 0,
                function_index: index,
                stack: Seq::empty(),
                locals: bound_arguments(caller.stack, count),
            };
            proceed(
                with_top(
                    frames,
                    FrameView {
                        stack: caller.stack.take(caller.stack.len() - count),
                        ..caller
                    },
                ).push(callee),
            )
        }
    }
}

/// What a frame returns: the top of its stack, or false if the stack is
/// empty.
pub open spec fn return_value(frame: FrameView) -> ValueView {
    if frame.stack.len() > 0 {
        frame.stack.last()
    } else {
        ValueView::Boolean(false)
    }
}

/// return: the innermost frame goes, and what it returns is pushed on the
/// stack of the frame below. If there is none, the run is over.
pub open spec fn ret(frames: Seq<FrameView>) -> Step {
    let value = return_value(frames.last());
    let rest = frames.drop_last();
    if rest.len() > 0 {
        proceed(pushed(rest, value))
    } else {
        Step {
            machine: MachineView { status: Status::Running, frames: rest },
            outcome: Ok(ActionView::Stop),
        }
    }
}

/// halt: the machine stops where it is.
pub open spec fn halt(frames: Seq<FrameView>) -> Step {
    Step {
        machine: MachineView { status: Status::Halted, frames },
        outcome: Ok(ActionView::Stop),
    }
}

/// The operand of an instruction, as an index.
pub open spec fn operand_of(instruction: InstructionView) -> nat {
    instruction.operand->0 as nat
}

/// What an instruction does to a call stack whose innermost frame has
/// already moved past it.
pub open spec fn execute(
    program: ProgramView,
    frames: Seq<FrameView>,
    instruction: InstructionView,
) -> Step {
    let operand = operand_of(instruction);
    match instruction.opcode {
        Opcode::PushConst => push_constant(program, frames, operand),
        Opcode::Add => arithmetic(frames, ArithOp::Add),
        Opcode::Subtract => arithmetic(frames, ArithOp::Subtract),
        Opcode::Multiply => arithmetic(frames, ArithOp::Multiply),
        Opcode::Divide => arithmetic(frames, ArithOp::Divide),
        Opcode::Modulo => arithmetic(frames, ArithOp::Modulo),
        Opcode::And => logical(frames, Opcode::And),
        Opcode::Or => logical(frames, Opcode::Or),
        Opcode::Negate => unary(frames, Opcode::Negate),
        Opcode::Not => unary(frames, Opcode::Not),
        Opcode::Equal => equality(frames),
        Opcode::Jump => proceed(jumped(frames, operand)),
        Opcode::JumpIfTrue => conditional_jump(frames, true, operand),
        Opcode::JumpIfFalse => conditional_jump(frames, false, operand),
        Opcode::Print => print(frames),
        Opcode::GetLocal => get_local(frames, operand as usize),
        Opcode::SetLocal => set_local(frames, operand as usize),
        Opcode::Call => call(program, frames, operand),
        Opcode::Return => ret(frames),
        Opcode::Halt => halt(frames),
    }
}

/// A step that changes nothing and tells the host where the machine stands.
pub open spec fn stay(machine: MachineView, outcome: Result<ActionView, Fault>) -> Step {
    Step { machine, outcome }
}

/// One step of the machine.
///
/// A machine that is not running, or whose call stack is empty, stays as it
/// is: the step repeats the request it is waiting on, the fault that ended
/// it, or that the run is over. A running machine fetches the instruction at
/// the innermost frame's pointer, moves the pointer past it, and executes it.
pub open spec fn step(program: ProgramView, machine: MachineView) -> Step {
    match machine.status {
        Status::Halted => stay(machine, Ok(ActionView::Stop)),
        Status::Faulted(fault) => stay(machine, Err(fault)),
        Status::Awaiting { op, left, right } => stay(
            machine,
            Ok(ActionView::Compute { op, left, right }),
        ),
        Status::Running => if machine.frames.len() == 0 {
            stay(machine, Ok(ActionView::Stop))
        } else {
            let frame = machine.frames.last();
            if frame.function_index >= program.functions.len() {
                fail(machine.frames, Fault::FunctionOutOfRange)
            } else {
                let function = program.functions[frame.function_index as int];
                if frame.instruction_pointer >= function.instructions.len() {
                    fail(machine.frames, Fault::InstructionOutOfRange)
                } else {
                    execute(
                        program,
                        jumped(machine.frames, frame.instruction_pointer + 1),
                        function.instructions[frame.instruction_pointer as int],
                    )
                }
            }
        },
    }
}

/// The machine after the host handed in the result of the arithmetic it was
/// asked for: the result is on the stack and the machine runs again. A
/// machine that asked for nothing stays as it is.
pub open spec fn resume(machine: MachineView, result: u64) -> MachineView {
    if machine.status is Awaiting && machine.frames.len() > 0 {
        MachineView {
            status: Status::Running,
            frames: pushed(machine.frames, ValueView::Number(result)),
        }
    } else {
        machine
    }
}

/// The machine after `start`: a frame for the entry function is pushed.
pub open spec fn started(machine: MachineView) -> MachineView {
    MachineView {
        status: machine.status,
        frames: machine.frames.push(
            FrameView {
                instruction_pointer: 0,
                function_index: 0,
                stack: Seq::empty(),
                locals: Map::empty(),
            },
        ),
    }
}

} // verus!
