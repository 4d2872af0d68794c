//! The two classes of failure: a module that cannot be loaded, and a fault
//! while one runs.

use vstd::prelude::*;

verus! {

/// Why a byte string is not a module.
#[derive(Clone, Copy, Debug, PartialEq, Eq, Structural)]
pub enum LoadError {
    /// The bytes end before the module does.
    Truncated,
    /// The first four bytes are not the format's tag.
    BadMagic,
    /// The version byte names a version other than the supported one.
    UnsupportedVersion(u8),
    /// A constant record begins with a tag byte that names no kind of value.
    UnknownConstantTag(u8),
    /// An instruction record begins with a byte that names no opcode.
    UnknownOpcode(u8),
    /// The bytes of a string constant are not UTF-8.
    InvalidUtf8,
}

/// Why a running machine stopped for good.
#[derive(Clone, Copy, Debug, PartialEq, Eq, Structural)]
pub enum Fault {
    /// An instruction needed a value and the operand stack was empty.
    StackUnderflow,
    /// A frame was needed and the call stack was empty.
    CallStackUnderflow,
    /// A local slot was read before anything was written to it.
    MissingLocal,
    /// A constant index past the end of the constant pool.
    ConstantOutOfRange,
    /// A function index past the end of the function table.
    FunctionOutOfRange,
    /// The instruction pointer left the function's instructions.
    InstructionOutOfRange,
    /// An operation met a value of a variant it is not defined for.
    TypeMismatch,
    /// A conditional jump consumed a value that is not a Boolean.
    NonBooleanCondition,
}

impl LoadError {
    /// The words for this error.
    pub open spec fn wording(self) -> Seq<char> {
        match self {
            LoadError::Truncated => "Unexpected end of input"@,
            LoadError::BadMagic => "Invalid magic number"@,
            LoadError::UnsupportedVersion(_) => "Unsupported version"@,
            LoadError::UnknownConstantTag(_) => "Unknown constant type"@,
            LoadError::UnknownOpcode(_) => "Unknown opcode"@,
            LoadError::InvalidUtf8 => "Invalid UTF-8 in string constant"@,
        }
    }

    /// A message for the error stream.
    pub fn message(&self) -> (r: String)
        ensures
            r@ == self.wording(),
    {
        match self {
            LoadError::Truncated => "Unexpected end of input".to_owned(),
            LoadError::BadMagic => "Invalid magic number".to_owned(),
            LoadError::UnsupportedVersion(_) => "Unsupported version".to_owned(),
            LoadError::UnknownConstantTag(_) => "Unknown constant type".to_owned(),
            LoadError::UnknownOpcode(_) => "Unknown opcode".to_owned(),
            LoadError::InvalidUtf8 => "Invalid UTF-8 in string constant".to_owned(),
        }
    }
}

impl Fault {
    /// The words for this fault.
    pub open spec fn wording(self) -> Seq<char> {
        match self {
            Fault::StackUnderflow => "Stack underflow."@,
            Fault::CallStackUnderflow => "Call stack underflow."@,
            Fault::MissingLocal => "Local variable not found."@,
            Fault::ConstantOutOfRange => "Constant index out of range."@,
            Fault::FunctionOutOfRange => "Invalid function index"@,
            Fault::InstructionOutOfRange => "Invalid instruction index"@,
            Fault::TypeMismatch => "Invalid operand types."@,
            Fault::NonBooleanCondition => "Condition is not a Boolean."@,
        }
    }

    /// A message for the error stream.
    pub fn message(&self) -> (r: String)
        ensures
            r@ == self.wording(),
    {
        match self {
            Fault::StackUnderflow => "Stack underflow.".to_owned(),
            Fault::CallStackUnderflow => "Call stack underflow.".to_owned(),
            Fault::MissingLocal => "Local variable not found.".to_owned(),
            Fault::ConstantOutOfRange => "Constant index out of range.".to_owned(),
            Fault::FunctionOutOfRange => "Invalid function index".to_owned(),
            Fault::InstructionOutOfRange => "Invalid instruction index".to_owned(),
            Fault::TypeMismatch => "Invalid operand types.".to_owned(),
            Fault::NonBooleanCondition => "Condition is not a Boolean.".to_owned(),
        }
    }
}

} // verus!
