//! A loaded module: its functions and its constant pool.

use vstd::prelude::*;
use crate::opcode::{Instruction, InstructionView};
use crate::value::{Value, ValueView};

verus! {

/// What a function is: its instructions in order and the number of
/// arguments it declares.
pub struct FunctionView {
    pub instructions: Seq<InstructionView>,
    pub num_args: nat,
}

/// A sequence of instructions and a declared argument count.
#[derive(Debug)]
pub struct Function {
    pub instructions: Vec<Instruction>,
    pub num_args: usize,
}

impl View for Function {
    type V = FunctionView;

    open spec fn view(&self) -> FunctionView {
        FunctionView {
            instructions: self.instructions@.map_values(|i: Instruction| i@),
            num_args: self.num_args as nat,
        }
    }
}

impl Function {
    pub fn new(instructions: Vec<Instruction>, num_args: usize) -> (r: Self)
        ensures
            r.instructions == instructions,
            r.num_args == num_args,
    {
        Function { instructions, num_args }
    }

    /// The instruction at `index`, which lies within the function.
    pub fn get_instruction(&self, index: usize) -> (r: &Instruction)
        requires
            index < self@.instructions.len(),
        ensures
            r@ == self@.instructions[index as int],
    {
        &self.instructions[index]
    }
}

/// What a module is: its function table and its constant pool, both in the
/// order of the module.
pub struct ProgramView {
    pub functions: Seq<FunctionView>,
    pub constants: Seq<ValueView>,
}

/// A module in memory. Function 0 is the entry point.
#[derive(Debug)]
pub struct Bytecode {
    functions: Vec<Function>,
    constants: Vec<Value>,
}

impl View for Bytecode {
    type V = ProgramView;

    closed spec fn view(&self) -> ProgramView {
        ProgramView {
            functions: self.functions@.map_values(|f: Function| f@),
            constants: self.constants@.map_values(|v: Value| v@),
        }
    }
}

impl Bytecode {
    /// The module with these functions and constants.
    pub fn new(functions: Vec<Function>, constants: Vec<Value>) -> (r: Self)
        ensures
            r@.functions == functions@.map_values(|f: Function| f@),
            r@.constants == constants@.map_values(|v: Value| v@),
    {
        Bytecode { functions, constants }
    }

    /// The number of functions in the table.
    pub fn function_count(&self) -> (r: usize)
        ensures
            r == self@.functions.len(),
    {
        self.functions.len()
    }

    /// The function at `index`, which lies within the table.
    pub fn get_function(&self, index: usize) -> (r: &Function)
        requires
            index < self@.functions.len(),
        ensures
            r@ == self@.functions[index as int],
    {
        &self.functions[index]
    }

    /// The constant at `index`, if the pool reaches that far.
    pub fn get_constant(&self, index: usize) -> (r: Option<&Value>)
        ensures
            match r {
                Some(value) => index < self@.constants.len() && value@
                    == self@.constants[index as int],
                None => index >= self@.constants.len(),
            },
    {
        if index < self.constants.len() {
            Some(&self.constants[index])
        } else {
            None
        }
    }
}

} // verus!
