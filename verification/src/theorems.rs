//! What follows from the step function, proved for every module and
//! every machine.

use vstd::prelude::*;
use crate::error::Fault;
use crate::frame::FrameView;
use crate::machine::Status;
use crate::opcode::{InstructionView, Opcode};
use crate::program::{FunctionView, ProgramView};
use crate::semantics::{
    arithmetic_of, operand_of, resume, return_value, step, with_top, ActionView, MachineView,
};
use crate::value::{value_eq, ValueView};

verus! {

/// The machine is running and its innermost frame points at an instruction
/// of an existing function.
pub open spec fn can_fetch(program: ProgramView, machine: MachineView) -> bool {
    &&& machine.status is Running
    &&& machine.frames.len() > 0
    &&& machine.frames.last().function_index < program.functions.len()
    &&& machine.frames.last().instruction_pointer < current_function(
        program,
        machine,
    ).instructions.len()
}

/// The function that the innermost frame is in.
pub open spec fn current_function(program: ProgramView, machine: MachineView) -> FunctionView {
    program.functions[machine.frames.last().function_index as int]
}

/// The instruction `offset` places after the one that the innermost frame
/// points at.
pub open spec fn instruction_at(
    program: ProgramView,
    machine: MachineView,
    offset: nat,
) -> InstructionView {
    current_function(program, machine).instructions[machine.frames.last().instruction_pointer
        + offset as int]
}

/// The innermost frame with its pointer moved on by `count` and another
/// operand stack.
pub open spec fn moved_on(frame: FrameView, count: nat, stack: Seq<ValueView>) -> FrameView {
    FrameView { instruction_pointer: frame.instruction_pointer + count, stack, ..frame }
}

/// Whether two values are of the same variant.
pub open spec fn same_variant(a: ValueView, b: ValueView) -> bool {
    ||| a is Number && b is Number
    ||| a is Boolean && b is Boolean
    ||| a is Str && b is Str
}

/// Values of different variants are never equal.
pub proof fn different_variants_are_unequal(a: ValueView, b: ValueView)
    requires
        !same_variant(a, b),
    ensures
        !value_eq(a, b),
        !value_eq(b, a),
{
}

/// The equality instruction never faults on two values, whatever their
/// variants: it replaces them by a Boolean, which is false when the variants
/// differ.
pub proof fn equal_compares_any_two_values(
    program: ProgramView,
    machine: MachineView,
    rest: Seq<ValueView>,
    a: ValueView,
    b: ValueView,
)
    requires
        can_fetch(program, machine),
        instruction_at(program, machine, 0).opcode is Equal,
        machine.frames.last().stack == rest.push(a).push(b),
    ensures
        step(program, machine).outcome == Ok::<ActionView, Fault>(ActionView::Continue),
        step(program, machine).machine == (MachineView {
            status: Status::Running,
            frames: with_top(
                machine.frames,
                moved_on(machine.frames.last(), 1, rest.push(ValueView::Boolean(value_eq(a, b)))),
            ),
        }),
        !same_variant(a, b) ==> step(program, machine).machine.frames.last().stack.last()
            == ValueView::Boolean(false),
{
    let stack = rest.push(a).push(b);
    assert(stack.drop_last().drop_last() == rest);
    assert(step(program, machine).machine.frames == with_top(
        machine.frames,
        moved_on(machine.frames.last(), 1, rest.push(ValueView::Boolean(value_eq(a, b)))),
    ));
}

/// jump-if-false takes the top of the stack and does not put it back. It
/// sends control to its target exactly when that value is the Boolean false;
/// on the Boolean true control falls through to the next instruction; on
/// anything else the machine faults.
pub proof fn jump_if_false_branches_on_false_only(
    program: ProgramView,
    machine: MachineView,
    target: u16,
    rest: Seq<ValueView>,
    condition: ValueView,
)
    requires
        can_fetch(program, machine),
        instruction_at(program, machine, 0) == (InstructionView {
            opcode: Opcode::JumpIfFalse,
            operand: Some(target),
        }),
        machine.frames.last().stack == rest.push(condition),
    ensures
        step(program, machine).machine.frames == with_top(
            machine.frames,
            FrameView {
                instruction_pointer: if condition == ValueView::Boolean(false) {
                    target as nat
                } else {
                    machine.frames.last().instruction_pointer + 1
                },
                stack: rest,
                ..machine.frames.last()
            },
        ),
        condition is Boolean ==> step(program, machine).outcome == Ok::<ActionView, Fault>(
            ActionView::Continue,
        ) && step(program, machine).machine.status is Running,
        !(condition is Boolean) ==> step(program, machine).outcome == Err::<ActionView, Fault>(
            Fault::NonBooleanCondition,
        ) && step(program, machine).machine.status == Status::Faulted(Fault::NonBooleanCondition),
{
    assert(rest.push(condition).drop_last() == rest);
    assert(step(program, machine).machine.frames == with_top(
        machine.frames,
        FrameView {
            instruction_pointer: if condition == ValueView::Boolean(false) {
                target as nat
            } else {
                machine.frames.last().instruction_pointer + 1
            },
            stack: rest,
            ..machine.frames.last()
        },
    ));
}

/// A return hands the caller the top of the returning frame's stack, and
/// the Boolean false if that stack is empty: the value is pushed on the
/// caller's stack, where the call left off.
pub proof fn return_hands_value_to_caller(program: ProgramView, machine: MachineView)
    requires
        can_fetch(program, machine),
        instruction_at(program, machine, 0).opcode is Return,
        machine.frames.len() >= 2,
    ensures
        step(program, machine).outcome == Ok::<ActionView, Fault>(ActionView::Continue),
        step(program, machine).machine.status is Running,
        step(program, machine).machine.frames == machine.frames.drop_last().drop_last().push(
            FrameView {
                stack: machine.frames[machine.frames.len() - 2].stack.push(
                    return_value(machine.frames.last()),
                ),
                ..machine.frames[machine.frames.len() - 2]
            },
        ),
        machine.frames.last().stack.len() == 0 ==> return_value(machine.frames.last())
            == ValueView::Boolean(false),
{
    assert(step(program, machine).machine.frames == machine.frames.drop_last().drop_last().push(
        FrameView {
            stack: machine.frames[machine.frames.len() - 2].stack.push(
                return_value(machine.frames.last()),
            ),
            ..machine.frames[machine.frames.len() - 2]
        },
    ));
}

/// The return that leaves the last frame ends the run: the call stack is
/// empty and the host is told to stop.
pub proof fn last_return_ends_the_run(program: ProgramView, machine: MachineView)
    requires
        can_fetch(program, machine),
        instruction_at(program, machine, 0).opcode is Return,
        machine.frames.len() == 1,
    ensures
        step(program, machine).outcome == Ok::<ActionView, Fault>(ActionView::Stop),
        step(program, machine).machine.frames.len() == 0,
        step(program, step(program, machine).machine).outcome == Ok::<ActionView, Fault>(
            ActionView::Stop,
        ),
{
}

/// A halt stops the machine at once: the step that executes it touches
/// nothing but the instruction pointer, leaves every frame on the call
/// stack, and tells the host to stop.
pub proof fn halt_stops_at_once(program: ProgramView, machine: MachineView)
    requires
        can_fetch(program, machine),
        instruction_at(program, machine, 0).opcode is Halt,
    ensures
        step(program, machine).outcome == Ok::<ActionView, Fault>(ActionView::Stop),
        step(program, machine).machine == (MachineView {
            status: Status::Halted,
            frames: with_top(
                machine.frames,
                moved_on(machine.frames.last(), 1, machine.frames.last().stack),
            ),
        }),
{
    assert(step(program, machine).machine.frames == with_top(
        machine.frames,
        moved_on(machine.frames.last(), 1, machine.frames.last().stack),
    ));
}

/// The machine after `count` further steps, the host handing in `result`
/// before each of them.
pub open spec fn after_steps(
    program: ProgramView,
    machine: MachineView,
    result: u64,
    count: nat,
) -> MachineView
    decreases count,
{
    if count == 0 {
        machine
    } else {
        after_steps(
            program,
            step(program, resume(machine, result)).machine,
            result,
            (count - 1) as nat,
        )
    }
}

/// Nothing executes after a halt or a fault: whatever the host does next,
/// however often, the machine stays exactly as it is, and each step gives
/// the same answer.
pub proof fn stopped_machine_stays(
    program: ProgramView,
    machine: MachineView,
    result: u64,
    count: nat,
)
    requires
        machine.status is Halted || machine.status is Faulted,
    ensures
        resume(machine, result) == machine,
        step(program, machine).machine == machine,
        machine.status is Halted ==> step(program, machine).outcome == Ok::<ActionView, Fault>(
            ActionView::Stop,
        ),
        machine.status is Faulted ==> step(program, machine).outcome == Err::<ActionView, Fault>(
            machine.status->Faulted_0,
        ),
        after_steps(program, machine, result, count) == machine,
    decreases count,
{
    if count > 0 {
        stopped_machine_stays(program, machine, result, (count - 1) as nat);
    }
}

/// Reading a slot that was never written is a fault: no value is made up
/// for it, and nothing is pushed.
pub proof fn unwritten_local_faults(program: ProgramView, machine: MachineView, slot: u16)
    requires
        can_fetch(program, machine),
        instruction_at(program, machine, 0) == (InstructionView {
            opcode: Opcode::GetLocal,
            operand: Some(slot),
        }),
        !machine.frames.last().locals.contains_key(slot as usize),
    ensures
        step(program, machine).outcome == Err::<ActionView, Fault>(Fault::MissingLocal),
        step(program, machine).machine == (MachineView {
            status: Status::Faulted(Fault::MissingLocal),
            frames: with_top(
                machine.frames,
                moved_on(machine.frames.last(), 1, machine.frames.last().stack),
            ),
        }),
{
    assert(step(program, machine).machine.frames == with_top(
        machine.frames,
        moved_on(machine.frames.last(), 1, machine.frames.last().stack),
    ));
}

/// A call takes as many values off the caller's stack as the callee
/// declares arguments and binds them to the callee's slots in the order in
/// which they were pushed: slot 0 holds the first, no other slot is bound,
/// and the callee starts at its first instruction with an empty stack.
pub proof fn call_binds_arguments_in_push_order(
    program: ProgramView,
    machine: MachineView,
    callee: u16,
    rest: Seq<ValueView>,
    arguments: Seq<ValueView>,
)
    requires
        can_fetch(program, machine),
        instruction_at(program, machine, 0) == (InstructionView {
            opcode: Opcode::Call,
            operand: Some(callee),
        }),
        callee < program.functions.len(),
        program.functions[callee as int].num_args == arguments.len(),
        machine.frames.last().stack == rest + arguments,
    ensures
        step(program, machine).outcome == Ok::<ActionView, Fault>(ActionView::Continue),
        step(program, machine).machine.status is Running,
        step(program, machine).machine.frames.len() == machine.frames.len() + 1,
        step(program, machine).machine.frames.drop_last() == with_top(
            machine.frames,
            moved_on(machine.frames.last(), 1, rest),
        ),
        step(program, machine).machine.frames.last().instruction_pointer == 0,
        step(program, machine).machine.frames.last().function_index == callee,
        step(program, machine).machine.frames.last().stack.len() == 0,
        forall|slot: usize|
            step(program, machine).machine.frames.last().locals.contains_key(slot) <==> slot
                < arguments.len(),
        forall|slot: usize|
            slot < arguments.len() ==> step(program, machine).machine.frames.last().locals[slot]
                == arguments[slot as int],
{
    let stack = rest + arguments;
    assert(stack.take(stack.len() - arguments.len()) == rest);
    assert(step(program, machine).machine.frames.drop_last() == with_top(
        machine.frames,
        moved_on(machine.frames.last(), 1, rest),
    ));
}

/// After `push A; push B`, a call of a function that declares two
/// arguments binds slot 0 to A and slot 1 to B, and nothing else.
pub proof fn call_with_two_arguments(
    program: ProgramView,
    machine: MachineView,
    callee: u16,
    rest: Seq<ValueView>,
    a: ValueView,
    b: ValueView,
)
    requires
        can_fetch(program, machine),
        instruction_at(program, machine, 0) == (InstructionView {
            opcode: Opcode::Call,
            operand: Some(callee),
        }),
        callee < program.functions.len(),
        program.functions[callee as int].num_args == 2,
        machine.frames.last().stack == rest.push(a).push(b),
    ensures
        step(program, machine).outcome == Ok::<ActionView, Fault>(ActionView::Continue),
        step(program, machine).machine.frames.last().function_index == callee,
        step(program, machine).machine.frames.last().locals == Map::<usize, ValueView>::empty()
            .insert(0, a).insert(1, b),
{
    assert(rest.push(a).push(b) == rest + seq![a, b]);
    call_binds_arguments_in_push_order(program, machine, callee, rest, seq![a, b]);
    assert(step(program, machine).machine.frames.last().locals =~= Map::<
        usize,
        ValueView,
    >::empty().insert(0, a).insert(1, b));
}

/// After `push-constant i; push-constant j; op`, where the constants are
/// the numbers `a` and `b` and `op` is one of the five arithmetic
/// instructions, the host is asked for `a op b` with `a`, pushed first, as
/// the left operand. The number that the host hands in replaces the two on
/// the stack, and the machine runs on behind the three instructions.
pub proof fn arithmetic_operands_in_push_order(
    program: ProgramView,
    machine: MachineView,
    i: u16,
    j: u16,
    opcode: Opcode,
    a: u64,
    b: u64,
    result: u64,
)
    requires
        can_fetch(program, machine),
        machine.frames.last().instruction_pointer + 2 < current_function(
            program,
            machine,
        ).instructions.len(),
        instruction_at(program, machine, 0) == (InstructionView {
            opcode: Opcode::PushConst,
            operand: Some(i),
        }),
        instruction_at(program, machine, 1) == (InstructionView {
            opcode: Opcode::PushConst,
            operand: Some(j),
        }),
        instruction_at(program, machine, 2).opcode == opcode,
        arithmetic_of(opcode) is Some,
        i < program.constants.len(),
        j < program.constants.len(),
        program.constants[i as int] == ValueView::Number(a),
        program.constants[j as int] == ValueView::Number(b),
    ensures
        ({
            let first = step(program, machine);
            let second = step(program, first.machine);
            let third = step(program, second.machine);
            &&& first.outcome == Ok::<ActionView, Fault>(ActionView::Continue)
            &&& second.outcome == Ok::<ActionView, Fault>(ActionView::Continue)
            &&& third.outcome == Ok::<ActionView, Fault>(
                ActionView::Compute { op: arithmetic_of(opcode)->0, left: a, right: b },
            )
            &&& resume(third.machine, result) == (MachineView {
                status: Status::Running,
                frames: with_top(
                    machine.frames,
                    moved_on(
                        machine.frames.last(),
                        3,
                        machine.frames.last().stack.push(ValueView::Number(result)),
                    ),
                ),
            })
        }),
{
    let frame = machine.frames.last();
    let stack = frame.stack;
    let first = step(program, machine);
    let second = step(program, first.machine);
    let third = step(program, second.machine);
    let pushed_a = stack.push(ValueView::Number(a));
    let pushed_b = pushed_a.push(ValueView::Number(b));
    assert(first.machine.frames == with_top(machine.frames, moved_on(frame, 1, pushed_a)));
    assert(first.machine.frames.last() == moved_on(frame, 1, pushed_a));
    assert(instruction_at(program, first.machine, 0) == instruction_at(program, machine, 1));
    assert(second.machine.frames == with_top(machine.frames, moved_on(frame, 2, pushed_b)));
    assert(second.machine.frames.last() == moved_on(frame, 2, pushed_b));
    assert(instruction_at(program, second.machine, 0) == instruction_at(program, machine, 2));
    assert(pushed_b.drop_last() == pushed_a);
    assert(pushed_a.drop_last() == stack);
    assert(third.machine.frames == with_top(machine.frames, moved_on(frame, 3, stack)));
    assert(resume(third.machine, result).frames == with_top(
        machine.frames,
        moved_on(frame, 3, stack.push(ValueView::Number(result))),
    ));
}

/// A step leaves every frame but the innermost as it is, with one
/// exception: a return pushes what it returns on the frame below.
pub proof fn outer_frames_are_untouched(program: ProgramView, machine: MachineView, depth: int)
    requires
        0 <= depth < machine.frames.len() - 1,
    ensures
        depth < step(program, machine).machine.frames.len(),
        step(program, machine).machine.frames[depth] != machine.frames[depth] ==> {
            &&& can_fetch(program, machine)
            &&& instruction_at(program, machine, 0).opcode is Return
            &&& depth == machine.frames.len() - 2
            &&& step(program, machine).machine.frames[depth] == (FrameView {
                stack: machine.frames[depth].stack.push(return_value(machine.frames.last())),
                ..machine.frames[depth]
            })
        },
{
}

/// A slot of a frame comes to hold a value in one way only: a set-local
/// for that slot, executed in that frame while it is the innermost.
pub proof fn only_set_local_binds_a_slot(
    program: ProgramView,
    machine: MachineView,
    depth: int,
    slot: usize,
)
    requires
        0 <= depth < machine.frames.len(),
        depth < step(program, machine).machine.frames.len(),
        !machine.frames[depth].locals.contains_key(slot),
        step(program, machine).machine.frames[depth].locals.contains_key(slot),
    ensures
        can_fetch(program, machine),
        depth == machine.frames.len() - 1,
        instruction_at(program, machine, 0).opcode is SetLocal,
        operand_of(instruction_at(program, machine, 0)) as usize == slot,
{
    if depth < machine.frames.len() - 1 {
        outer_frames_are_untouched(program, machine, depth);
    }
}

} // verus!
