//! One function activation: where it is in its function, its operand stack
//! and its local slots.

use std::collections::HashMap;
use vstd::prelude::*;
use crate::value::{Value, ValueView};

verus! {

/// What a call frame is.
#[verifier::ext_equal]
pub struct FrameView {
    /// The index of the next instruction within the function.
    pub instruction_pointer: nat,
    /// The index of the function within the module.
    pub function_index: nat,
    /// The operand stack, top last.
    pub stack: Seq<ValueView>,
    /// The local slots that have been written, and what they hold.
    pub locals: Map<usize, ValueView>,
}

/// One activation record.
#[derive(Debug)]
pub struct CallFrame {
    instruction_pointer: usize,
    function_index: usize,
    stack: Vec<Value>,
    locals: HashMap<usize, Value>,
}

impl View for CallFrame {
    type V = FrameView;

    closed spec fn view(&self) -> FrameView {
        FrameView {
            instruction_pointer: self.instruction_pointer as nat,
            function_index: self.function_index as nat,
            stack: self.stack@.map_values(|v: Value| v@),
            locals: self.locals@.map_values(|v: Value| v@),
        }
    }
}

impl CallFrame {
    /// A frame at the start of function `func_index`, with nothing on its
    /// stack and no slot written.
    pub fn new(func_index: usize) -> (r: Self)
        ensures
            r@ == (FrameView {
                instruction_pointer: 0,
                function_index: func_index as nat,
                stack: Seq::empty(),
                locals: Map::empty(),
            }),
    {
        let frame = CallFrame {
            instruction_pointer: 0,
            function_index: func_index,
            stack: Vec::new(),
            locals: HashMap::new(),
        };
        assert(frame@.stack =~= Seq::empty());
        assert(frame@.locals =~= Map::empty());
        frame
    }

    /// Moves on to the next instruction.
    pub fn advance_instruction_pointer(&mut self)
        requires
            old(self)@.instruction_pointer < usize::MAX,
        ensures
            final(self)@ == (FrameView {
                instruction_pointer: old(self)@.instruction_pointer + 1,
                ..old(self)@
            }),
    {
        self.instruction_pointer += 1;
    }

    pub fn set_instruction_pointer(&mut self, ip: usize)
        ensures
            final(self)@ == (FrameView { instruction_pointer: ip as nat, ..old(self)@ }),
    {
        self.instruction_pointer = ip;
    }

    pub fn get_instruction_pointer(&self) -> (r: usize)
        ensures
            r == self@.instruction_pointer,
    {
        self.instruction_pointer
    }

    pub fn get_function_index(&self) -> (r: usize)
        ensures
            r == self@.function_index,
    {
        self.function_index
    }

    /// Writes `value` to slot `index`, over whatever the slot held.
    pub fn set_local(&mut self, index: usize, value: Value)
        ensures
            final(self)@ == (FrameView {
                locals: old(self)@.locals.insert(index, value@),
                ..old(self)@
            }),
    {
        self.locals.insert(index, value);
        assert(self@.locals =~= old(self)@.locals.insert(index, value@));
    }

    /// What slot `index` holds, if it was ever written.
    pub fn get_local(&self, index: usize) -> (r: Option<&Value>)
        ensures
            match r {
                Some(value) => self@.locals.contains_key(index) && value@ == self@.locals[index],
                None => !self@.locals.contains_key(index),
            },
    {
        self.locals.get(&index)
    }

    pub fn stack_push(&mut self, value: Value)
        ensures
            final(self)@ == (FrameView { stack: old(self)@.stack.push(value@), ..old(self)@ }),
    {
        self.stack.push(value);
        assert(self@.stack =~= old(self)@.stack.push(value@));
    }

    /// Takes the top of the stack, if there is one.
    pub fn stack_pop(&mut self) -> (r: Option<Value>)
        ensures
            match r {
                Some(value) => old(self)@.stack.len() > 0 && value@ == old(self)@.stack.last()
                    && final(self)@ == (FrameView {
                    stack: old(self)@.stack.drop_last(),
                    ..old(self)@
                }),
                None => old(self)@.stack.len() == 0 && final(self)@ == old(self)@,
            },
    {
        let top = self.stack.pop();
        assert(top is Some ==> self@.stack =~= old(self)@.stack.drop_last());
        top
    }

    /// The operand stack, top last.
    pub fn stack(&self) -> (r: &Vec<Value>)
        ensures
            r@.map_values(|v: Value| v@) == self@.stack,
    {
        &self.stack
    }

    pub fn is_stack_empty(&self) -> (r: bool)
        ensures
            r == (self@.stack.len() == 0),
    {
        self.stack.is_empty()
    }
}

} // verus!
