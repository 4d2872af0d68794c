use zircon_vm::error::{Fault, LoadError};
use zircon_vm::frame::CallFrame;
use zircon_vm::opcode::{Instruction, Opcode};
use zircon_vm::program::{Bytecode, Function};
use zircon_vm::value::{numbers_equal, ArithOp, Value};

fn num(value: f64) -> Value {
    Value::Number(value.to_bits())
}

fn text(s: &str) -> Value {
    Value::Str(s.to_string())
}

fn bits_of(value: &Value) -> u64 {
    match value {
        Value::Number(bits) => *bits,
        other => panic!("not a number: {:?}", other),
    }
}

fn samples() -> Vec<f64> {
    vec![
        0.0,
        -0.0,
        1.0,
        -1.0,
        0.1,
        -2.5,
        1e300,
        -1e-300,
        5e-324,
        -5e-324,
        f64::MIN_POSITIVE,
        f64::MAX,
        f64::MIN,
        f64::EPSILON,
        f64::INFINITY,
        f64::NEG_INFINITY,
        f64::NAN,
        -f64::NAN,
        f64::from_bits(0x7FF0_0000_0000_0001),
        f64::from_bits(0xFFF0_0000_0000_0001),
        f64::from_bits(0x7FFF_FFFF_FFFF_FFFF),
        f64::from_bits(0xFFFF_FFFF_FFFF_FFFF),
        f64::from_bits(0x7FEF_FFFF_FFFF_FFFF),
        f64::from_bits(0x000F_FFFF_FFFF_FFFF),
    ]
}

#[test]
fn opcode_tags_decode() {
    assert_eq!(Opcode::from_u8(0x01), Ok(Opcode::PushConst));
    assert_eq!(Opcode::from_u8(0x10), Ok(Opcode::Add));
    assert_eq!(Opcode::from_u8(0x11), Ok(Opcode::Subtract));
    assert_eq!(Opcode::from_u8(0x12), Ok(Opcode::Multiply));
    assert_eq!(Opcode::from_u8(0x13), Ok(Opcode::Divide));
    assert_eq!(Opcode::from_u8(0x14), Ok(Opcode::Modulo));
    assert_eq!(Opcode::from_u8(0x15), Ok(Opcode::Negate));
    assert_eq!(Opcode::from_u8(0x20), Ok(Opcode::And));
    assert_eq!(Opcode::from_u8(0x21), Ok(Opcode::Or));
    assert_eq!(Opcode::from_u8(0x22), Ok(Opcode::Not));
    assert_eq!(Opcode::from_u8(0x30), Ok(Opcode::Equal));
    assert_eq!(Opcode::from_u8(0x40), Ok(Opcode::Jump));
    assert_eq!(Opcode::from_u8(0x41), Ok(Opcode::JumpIfTrue));
    assert_eq!(Opcode::from_u8(0x42), Ok(Opcode::JumpIfFalse));
    assert_eq!(Opcode::from_u8(0x60), Ok(Opcode::Print));
    assert_eq!(Opcode::from_u8(0x70), Ok(Opcode::GetLocal));
    assert_eq!(Opcode::from_u8(0x71), Ok(Opcode::SetLocal));
    assert_eq!(Opcode::from_u8(0x80), Ok(Opcode::Call));
    assert_eq!(Opcode::from_u8(0x81), Ok(Opcode::Return));
    assert_eq!(Opcode::from_u8(0xFF), Ok(Opcode::Halt));
}

#[test]
fn tags_and_opcodes_are_inverse() {
    let mut known = 0;
    for tag in 0..=255u8 {
        match Opcode::from_u8(tag) {
            Ok(opcode) => {
                known += 1;
                assert_eq!(opcode.to_u8(), tag);
            }
            Err(e) => assert_eq!(e, LoadError::UnknownOpcode(tag)),
        }
    }
    assert_eq!(known, 20);
}

#[test]
fn operand_arity_table() {
    let with_operand = [
        Opcode::PushConst,
        Opcode::Jump,
        Opcode::JumpIfTrue,
        Opcode::JumpIfFalse,
        Opcode::GetLocal,
        Opcode::SetLocal,
        Opcode::Call,
    ];
    let without_operand = [
        Opcode::Add,
        Opcode::Subtract,
        Opcode::Multiply,
        Opcode::Divide,
        Opcode::Modulo,
        Opcode::Negate,
        Opcode::And,
        Opcode::Or,
        Opcode::Not,
        Opcode::Equal,
        Opcode::Print,
        Opcode::Return,
        Opcode::Halt,
    ];
    for opcode in with_operand {
        assert!(opcode.has_operand(), "{:?}", opcode);
    }
    for opcode in without_operand {
        assert!(!opcode.has_operand(), "{:?}", opcode);
    }
}

#[test]
fn instruction_keeps_opcode_and_operand() {
    let jump = Instruction::new(Opcode::Jump, Some(65535));
    assert_eq!(jump.opcode(), Opcode::Jump);
    assert_eq!(jump.operand(), 65535);
    let push = Instruction::new(Opcode::PushConst, Some(0));
    assert_eq!(push.opcode(), Opcode::PushConst);
    assert_eq!(push.operand(), 0);
    let halt = Instruction::new(Opcode::Halt, None);
    assert_eq!(halt.opcode(), Opcode::Halt);
}

#[test]
fn function_and_module_accessors() {
    let first = Function::new(
        vec![Instruction::new(Opcode::PushConst, Some(1)), Instruction::new(Opcode::Return, None)],
        0,
    );
    let second = Function::new(vec![Instruction::new(Opcode::Halt, None)], 3);
    assert_eq!(first.num_args, 0);
    assert_eq!(first.get_instruction(1).opcode(), Opcode::Return);
    let program = Bytecode::new(vec![first, second], vec![Value::Boolean(true), num(4.0)]);
    assert_eq!(program.function_count(), 2);
    assert_eq!(program.get_function(0).instructions.len(), 2);
    assert_eq!(program.get_function(1).num_args, 3);
    assert_eq!(program.get_function(1).get_instruction(0).opcode(), Opcode::Halt);
    assert!(matches!(program.get_constant(0), Some(Value::Boolean(true))));
    assert_eq!(bits_of(program.get_constant(1).unwrap()), 4.0f64.to_bits());
    assert!(program.get_constant(2).is_none());
    assert!(program.get_constant(usize::MAX).is_none());
}

#[test]
fn equality_across_variants_is_false() {
    let values = [
        num(0.0),
        num(1.0),
        Value::Boolean(false),
        Value::Boolean(true),
        text(""),
        text("true"),
        text("1"),
        text("0"),
    ];
    for (i, a) in values.iter().enumerate() {
        for (j, b) in values.iter().enumerate() {
            let same_variant = std::mem::discriminant(a) == std::mem::discriminant(b);
            if !same_variant {
                assert!(!(a == b), "{:?} == {:?}", a, b);
                assert!(a != b);
            } else if i == j {
                assert!(a == b, "{:?} != {:?}", a, b);
            } else {
                assert!(a != b, "{:?} == {:?}", a, b);
            }
        }
    }
}

#[test]
fn equality_within_variants() {
    assert!(Value::Boolean(true) == Value::Boolean(true));
    assert!(Value::Boolean(false) == Value::Boolean(false));
    assert!(Value::Boolean(true) != Value::Boolean(false));
    assert!(text("abc") == text("abc"));
    assert!(text("abc") != text("abd"));
    assert!(text("abc") != text("ab"));
    assert!(num(2.5) == num(2.5));
    assert!(num(2.5) != num(-2.5));
}

#[test]
fn number_equality_is_that_of_binary64() {
    let values = samples();
    for a in &values {
        for b in &values {
            assert_eq!(
                numbers_equal(a.to_bits(), b.to_bits()),
                a == b,
                "{:?} ({:#x}) and {:?} ({:#x})",
                a,
                a.to_bits(),
                b,
                b.to_bits()
            );
            assert_eq!(num(*a) == num(*b), a == b);
        }
    }
}

#[test]
fn zeros_are_equal_and_nan_is_not() {
    assert!(numbers_equal(0.0f64.to_bits(), (-0.0f64).to_bits()));
    assert!(numbers_equal(0x8000_0000_0000_0000, 0));
    assert!(!numbers_equal(f64::NAN.to_bits(), f64::NAN.to_bits()));
    assert!(!numbers_equal(0x7FF0_0000_0000_0001, 0x7FF0_0000_0000_0001));
    assert!(numbers_equal(0x7FF0_0000_0000_0000, 0x7FF0_0000_0000_0000));
    assert!(!numbers_equal(0x7FF0_0000_0000_0000, 0xFFF0_0000_0000_0000));
    assert!(!numbers_equal(1, 0x8000_0000_0000_0001));
}

#[test]
fn negate_flips_the_sign_as_binary64_does() {
    for value in samples() {
        let negated = num(value).negate().unwrap();
        assert_eq!(bits_of(&negated), (-value).to_bits(), "{:?}", value);
    }
    assert_eq!(bits_of(&num(5.0).negate().unwrap()), (-5.0f64).to_bits());
    assert_eq!(bits_of(&Value::Number(0).negate().unwrap()), 0x8000_0000_0000_0000);
    assert_eq!(bits_of(&Value::Number(0x8000_0000_0000_0000).negate().unwrap()), 0);
    assert_eq!(bits_of(&Value::Number(u64::MAX).negate().unwrap()), 0x7FFF_FFFF_FFFF_FFFF);
}

#[test]
fn negate_of_other_variants_is_a_mismatch() {
    assert_eq!(Value::Boolean(true).negate().unwrap_err(), Fault::TypeMismatch);
    assert_eq!(text("1").negate().unwrap_err(), Fault::TypeMismatch);
}

#[test]
fn logical_operations() {
    for a in [false, true] {
        for b in [false, true] {
            let and = Value::Boolean(a).logical_and(&Value::Boolean(b)).unwrap();
            assert!(matches!(and, Value::Boolean(r) if r == (a && b)));
            let or = Value::Boolean(a).logical_or(&Value::Boolean(b)).unwrap();
            assert!(matches!(or, Value::Boolean(r) if r == (a || b)));
        }
        let not = Value::Boolean(a).logical_not().unwrap();
        assert!(matches!(not, Value::Boolean(r) if r == !a));
    }
}

#[test]
fn logical_operations_refuse_other_variants() {
    let t = Value::Boolean(true);
    assert_eq!(t.logical_and(&num(1.0)).unwrap_err(), Fault::TypeMismatch);
    assert_eq!(num(1.0).logical_and(&t).unwrap_err(), Fault::TypeMismatch);
    assert_eq!(text("x").logical_and(&text("y")).unwrap_err(), Fault::TypeMismatch);
    assert_eq!(t.logical_or(&text("true")).unwrap_err(), Fault::TypeMismatch);
    assert_eq!(num(0.0).logical_or(&num(0.0)).unwrap_err(), Fault::TypeMismatch);
    assert_eq!(num(0.0).logical_not().unwrap_err(), Fault::TypeMismatch);
    assert_eq!(text("").logical_not().unwrap_err(), Fault::TypeMismatch);
}

#[test]
fn text_of_booleans_and_strings() {
    assert_eq!(Value::Boolean(true).text(), Some("true".to_string()));
    assert_eq!(Value::Boolean(false).text(), Some("false".to_string()));
    assert_eq!(text("h\u{e9}llo").text(), Some("h\u{e9}llo".to_string()));
    assert_eq!(text("").text(), Some(String::new()));
    assert_eq!(num(5.0).text(), None);
}

#[test]
fn clone_keeps_the_value() {
    let values = [num(f64::NAN), num(-0.0), Value::Boolean(true), text("abc")];
    for value in &values {
        let copy = value.clone();
        match (value, &copy) {
            (Value::Number(a), Value::Number(b)) => assert_eq!(a, b),
            (Value::Boolean(a), Value::Boolean(b)) => assert_eq!(a, b),
            (Value::Str(a), Value::Str(b)) => assert_eq!(a, b),
            _ => panic!("{:?} became {:?}", value, copy),
        }
    }
}

#[test]
fn arithmetic_of_opcodes() {
    assert_eq!(ArithOp::from_opcode(Opcode::Add), Some(ArithOp::Add));
    assert_eq!(ArithOp::from_opcode(Opcode::Subtract), Some(ArithOp::Subtract));
    assert_eq!(ArithOp::from_opcode(Opcode::Multiply), Some(ArithOp::Multiply));
    assert_eq!(ArithOp::from_opcode(Opcode::Divide), Some(ArithOp::Divide));
    assert_eq!(ArithOp::from_opcode(Opcode::Modulo), Some(ArithOp::Modulo));
    assert_eq!(ArithOp::from_opcode(Opcode::Negate), None);
    assert_eq!(ArithOp::from_opcode(Opcode::And), None);
    assert_eq!(ArithOp::from_opcode(Opcode::Halt), None);
}

#[test]
fn frame_starts_empty() {
    let frame = CallFrame::new(3);
    assert_eq!(frame.get_function_index(), 3);
    assert_eq!(frame.get_instruction_pointer(), 0);
    assert!(frame.is_stack_empty());
    assert!(frame.get_local(0).is_none());
}

#[test]
fn frame_stack_is_last_in_first_out() {
    let mut frame = CallFrame::new(0);
    frame.stack_push(num(1.0));
    frame.stack_push(Value::Boolean(true));
    frame.stack_push(text("top"));
    assert!(!frame.is_stack_empty());
    assert!(matches!(frame.stack_pop(), Some(Value::Str(s)) if s == "top"));
    assert!(matches!(frame.stack_pop(), Some(Value::Boolean(true))));
    assert_eq!(bits_of(&frame.stack_pop().unwrap()), 1.0f64.to_bits());
    assert!(frame.is_stack_empty());
    assert!(frame.stack_pop().is_none());
    assert!(frame.is_stack_empty());
}

#[test]
fn frame_locals_are_sparse_and_overwritten() {
    let mut frame = CallFrame::new(0);
    frame.set_local(7, num(1.0));
    frame.set_local(65535, Value::Boolean(false));
    assert!(frame.get_local(0).is_none());
    assert!(frame.get_local(6).is_none());
    assert_eq!(bits_of(frame.get_local(7).unwrap()), 1.0f64.to_bits());
    assert!(matches!(frame.get_local(65535), Some(Value::Boolean(false))));
    frame.set_local(7, text("new"));
    assert!(matches!(frame.get_local(7), Some(Value::Str(s)) if s == "new"));
    assert!(frame.is_stack_empty());
}

#[test]
fn frame_instruction_pointer_moves() {
    let mut frame = CallFrame::new(1);
    frame.advance_instruction_pointer();
    frame.advance_instruction_pointer();
    assert_eq!(frame.get_instruction_pointer(), 2);
    frame.set_instruction_pointer(40);
    assert_eq!(frame.get_instruction_pointer(), 40);
    frame.advance_instruction_pointer();
    assert_eq!(frame.get_instruction_pointer(), 41);
    assert_eq!(frame.get_function_index(), 1);
}

#[test]
fn messages_name_the_failure() {
    assert_eq!(LoadError::Truncated.message(), "Unexpected end of input");
    assert_eq!(LoadError::BadMagic.message(), "Invalid magic number");
    assert_eq!(LoadError::UnsupportedVersion(3).message(), "Unsupported version");
    assert_eq!(LoadError::UnknownConstantTag(9).message(), "Unknown constant type");
    assert_eq!(LoadError::UnknownOpcode(2).message(), "Unknown opcode");
    assert_eq!(LoadError::InvalidUtf8.message(), "Invalid UTF-8 in string constant");
    assert_eq!(Fault::StackUnderflow.message(), "Stack underflow.");
    assert_eq!(Fault::CallStackUnderflow.message(), "Call stack underflow.");
    assert_eq!(Fault::MissingLocal.message(), "Local variable not found.");
    assert_eq!(Fault::ConstantOutOfRange.message(), "Constant index out of range.");
    assert_eq!(Fault::FunctionOutOfRange.message(), "Invalid function index");
    assert_eq!(Fault::InstructionOutOfRange.message(), "Invalid instruction index");
    assert_eq!(Fault::TypeMismatch.message(), "Invalid operand types.");
    assert_eq!(Fault::NonBooleanCondition.message(), "Condition is not a Boolean.");
}
