//! Opcodes, their wire tags and operand arity, and instructions.

use vstd::prelude::*;
use crate::error::LoadError;

verus! {

/// One executable operation.
#[derive(Clone, Copy, Debug, PartialEq, Eq, Structural)]
pub enum Opcode {
    PushConst,
    Add,
    Subtract,
    Multiply,
    Divide,
    Modulo,
    Negate,
    And,
    Or,
    Not,
    Equal,
    Jump,
    JumpIfTrue,
    JumpIfFalse,
    Print,
    GetLocal,
    SetLocal,
    Call,
    Return,
    Halt,
}

impl Opcode {
    /// The byte that stands for this opcode in a module.
    pub open spec fn tag(self) -> u8 {
        match self {
            Opcode::PushConst => 0x01,
            Opcode::Add => 0x10,
            Opcode::Subtract => 0x11,
            Opcode::Multiply => 0x12,
            Opcode::Divide => 0x13,
            Opcode::Modulo => 0x14,
            Opcode::Negate => 0x15,
            Opcode::And => 0x20,
            Opcode::Or => 0x21,
            Opcode::Not => 0x22,
            Opcode::Equal => 0x30,
            Opcode::Jump => 0x40,
            Opcode::JumpIfTrue => 0x41,
            Opcode::JumpIfFalse => 0x42,
            Opcode::Print => 0x60,
            Opcode::GetLocal => 0x70,
            Opcode::SetLocal => 0x71,
            Opcode::Call => 0x80,
            Opcode::Return => 0x81,
            Opcode::Halt => 0xFF,
        }
    }

    /// The opcode that a tag byte stands for, if any.
    pub open spec fn from_tag(tag: u8) -> Option<Opcode> {
        if tag == 0x01 {
            Some(Opcode::PushConst)
        } else if tag == 0x10 {
            Some(Opcode::Add)
        } else if tag == 0x11 {
            Some(Opcode::Subtract)
        } else if tag == 0x12 {
            Some(Opcode::Multiply)
        } else if tag == 0x13 {
            Some(Opcode::Divide)
        } else if tag == 0x14 {
            Some(Opcode::Modulo)
        } else if tag == 0x15 {
            Some(Opcode::Negate)
        } else if tag == 0x20 {
            Some(Opcode::And)
        } else if tag == 0x21 {
            Some(Opcode::Or)
        } else if tag == 0x22 {
            Some(Opcode::Not)
        } else if tag == 0x30 {
            Some(Opcode::Equal)
        } else if tag == 0x40 {
            Some(Opcode::Jump)
        } else if tag == 0x41 {
            Some(Opcode::JumpIfTrue)
        } else if tag == 0x42 {
            Some(Opcode::JumpIfFalse)
        } else if tag == 0x60 {
            Some(Opcode::Print)
        } else if tag == 0x70 {
            Some(Opcode::GetLocal)
        } else if tag == 0x71 {
            Some(Opcode::SetLocal)
        } else if tag == 0x80 {
            Some(Opcode::Call)
        } else if tag == 0x81 {
            Some(Opcode::Return)
        } else if tag == 0xFF {
            Some(Opcode::Halt)
        } else {
            None
        }
    }

    /// `from_tag` is the inverse of `tag`: a byte decodes to an opcode exactly
    /// when it is that opcode's tag.
    pub proof fn from_tag_inverts_tag(tag: u8, opcode: Opcode)
        ensures
            Opcode::from_tag(tag) == Some(opcode) <==> opcode.tag() == tag,
    {
    }

    /// Whether an instruction with this opcode carries a 16-bit operand.
    pub open spec fn takes_operand(self) -> bool {
        self is PushConst || self is Jump || self is JumpIfTrue || self is JumpIfFalse
            || self is GetLocal || self is SetLocal || self is Call
    }

    /// Decodes a tag byte. Fails exactly when no opcode has that tag.
    pub fn from_u8(value: u8) -> (r: Result<Opcode, LoadError>)
        ensures
            r == match Opcode::from_tag(value) {
                Some(opcode) => Ok::<Opcode, LoadError>(opcode),
                None => Err(LoadError::UnknownOpcode(value)),
            },
            match r {
                Ok(opcode) => opcode.tag() == value,
                Err(_) => forall|opcode: Opcode| opcode.tag() != value,
            },
    {
        match value {
            0x01 => Ok(Opcode::PushConst),
            0x10 => Ok(Opcode::Add),
            0x11 => Ok(Opcode::Subtract),
            0x12 => Ok(Opcode::Multiply),
            0x13 => Ok(Opcode::Divide),
            0x14 => Ok(Opcode::Modulo),
            0x15 => Ok(Opcode::Negate),
            0x20 => Ok(Opcode::And),
            0x21 => Ok(Opcode::Or),
            0x22 => Ok(Opcode::Not),
            0x30 => Ok(Opcode::Equal),
            0x40 => Ok(Opcode::Jump),
            0x41 => Ok(Opcode::JumpIfTrue),
            0x42 => Ok(Opcode::JumpIfFalse),
            0x60 => Ok(Opcode::Print),
            0x70 => Ok(Opcode::GetLocal),
            0x71 => Ok(Opcode::SetLocal),
            0x80 => Ok(Opcode::Call),
            0x81 => Ok(Opcode::Return),
            0xFF => Ok(Opcode::Halt),
            _ => Err(LoadError::UnknownOpcode(value)),
        }
    }

    /// The tag byte of this opcode.
    pub fn to_u8(self) -> (r: u8)
        ensures
            r == self.tag(),
    {
        match self {
            Opcode::PushConst => 0x01,
            Opcode::Add => 0x10,
            Opcode::Subtract => 0x11,
            Opcode::Multiply => 0x12,
            Opcode::Divide => 0x13,
            Opcode::Modulo => 0x14,
            Opcode::Negate => 0x15,
            Opcode::And => 0x20,
            Opcode::Or => 0x21,
            Opcode::Not => 0x22,
            Opcode::Equal => 0x30,
            Opcode::Jump => 0x40,
            Opcode::JumpIfTrue => 0x41,
            Opcode::JumpIfFalse => 0x42,
            Opcode::Print => 0x60,
            Opcode::GetLocal => 0x70,
            Opcode::SetLocal => 0x71,
            Opcode::Call => 0x80,
            Opcode::Return => 0x81,
            Opcode::Halt => 0xFF,
        }
    }

    /// Whether an instruction with this opcode carries a 16-bit operand.
    #[verifier::when_used_as_spec(takes_operand)]
    pub fn has_operand(self) -> (r: bool)
        ensures
            r == self.takes_operand(),
    {
        match self {
            Opcode::PushConst => true,
            Opcode::Add => false,
            Opcode::Subtract => false,
            Opcode::Multiply => false,
            Opcode::Divide => false,
            Opcode::Modulo => false,
            Opcode::Negate => false,
            Opcode::And => false,
            Opcode::Or => false,
            Opcode::Not => false,
            Opcode::Equal => false,
            Opcode::Jump => true,
            Opcode::JumpIfTrue => true,
            Opcode::JumpIfFalse => true,
            Opcode::Print => false,
            Opcode::GetLocal => true,
            Opcode::SetLocal => true,
            Opcode::Call => true,
            Opcode::Return => false,
            Opcode::Halt => false,
        }
    }
}

/// What an instruction holds.
pub struct InstructionView {
    pub opcode: Opcode,
    pub operand: Option<u16>,
}

impl InstructionView {
    /// The operand is present exactly when the opcode takes one.
    pub open spec fn well_formed(self) -> bool {
        self.operand is Some <==> self.opcode.takes_operand()
    }
}

/// An opcode with its operand, if the opcode takes one.
///
/// Every instruction is well formed: none lacks an operand that its opcode
/// takes, and none carries one that its opcode does not take.
#[derive(Clone, Copy, Debug)]
pub struct Instruction {
    opcode: Opcode,
    operand: Option<u16>,
}

impl View for Instruction {
    type V = InstructionView;

    closed spec fn view(&self) -> InstructionView {
        InstructionView { opcode: self.opcode, operand: self.operand }
    }
}

impl Instruction {
    #[verifier::type_invariant]
    spec fn arity_respected(self) -> bool {
        self.operand is Some <==> self.opcode.takes_operand()
    }

    pub fn new(opcode: Opcode, operand: Option<u16>) -> (r: Self)
        requires
            operand is Some <==> opcode.takes_operand(),
        ensures
            r@ == (InstructionView { opcode, operand }),
    {
        Instruction { opcode, operand }
    }

    pub fn opcode(&self) -> (r: Opcode)
        ensures
            r == self@.opcode,
            self@.well_formed(),
    {
        proof {
            use_type_invariant(self);
        }
        self.opcode
    }

    /// The operand of an instruction whose opcode takes one.
    pub fn operand(&self) -> (r: u16)
        requires
            self@.opcode.takes_operand(),
        ensures
            self@.operand == Some(r),
    {
        proof {
            use_type_invariant(self);
        }
        self.operand.unwrap()
    }
}

} // verus!
