use zircon_vm::error::LoadError;
use zircon_vm::loader::{read_constant, read_function, read_instruction};
use zircon_vm::opcode::Opcode;
use zircon_vm::program::Bytecode;
use zircon_vm::reader::ByteReader;
use zircon_vm::value::Value;

fn header() -> Vec<u8> {
    vec![b'Z', b'R', b'C', b'N', 1]
}

fn number(value: f64) -> Vec<u8> {
    let mut out = vec![1u8];
    out.extend_from_slice(&value.to_le_bytes());
    out
}

fn boolean(byte: u8) -> Vec<u8> {
    vec![2u8, byte]
}

fn string(text: &[u8]) -> Vec<u8> {
    let mut out = vec![3u8];
    out.extend_from_slice(&(text.len() as u16).to_le_bytes());
    out.extend_from_slice(text);
    out
}

fn function(num_args: u32, code: &[(u8, Option<u16>)]) -> Vec<u8> {
    let mut out = Vec::new();
    out.extend_from_slice(&(code.len() as u32).to_le_bytes());
    out.extend_from_slice(&num_args.to_le_bytes());
    for (tag, operand) in code {
        out.push(*tag);
        if let Some(operand) = operand {
            out.extend_from_slice(&operand.to_le_bytes());
        }
    }
    out
}

fn module(constants: &[Vec<u8>], functions: &[Vec<u8>]) -> Vec<u8> {
    let mut out = header();
    out.extend_from_slice(&(constants.len() as u32).to_le_bytes());
    for constant in constants {
        out.extend_from_slice(constant);
    }
    out.extend_from_slice(&(functions.len() as u32).to_le_bytes());
    for function in functions {
        out.extend_from_slice(function);
    }
    out
}

fn load_error(bytes: &[u8]) -> LoadError {
    match Bytecode::from_bytes(bytes) {
        Ok(_) => panic!("the bytes loaded"),
        Err(e) => e,
    }
}

fn number_bits(value: &Value) -> u64 {
    match value {
        Value::Number(bits) => *bits,
        other => panic!("not a number: {:?}", other),
    }
}

#[test]
fn empty_module_loads() {
    let program = Bytecode::from_bytes(&module(&[], &[])).unwrap();
    assert_eq!(program.function_count(), 0);
    assert!(program.get_constant(0).is_none());
}

#[test]
fn constants_keep_order_and_values() {
    let bytes = module(
        &[number(10.0), boolean(1), string(b"hello"), boolean(0), number(-0.5)],
        &[],
    );
    let program = Bytecode::from_bytes(&bytes).unwrap();
    assert_eq!(number_bits(program.get_constant(0).unwrap()), 10.0f64.to_bits());
    assert!(matches!(program.get_constant(1).unwrap(), Value::Boolean(true)));
    match program.get_constant(2).unwrap() {
        Value::Str(s) => assert_eq!(s, "hello"),
        other => panic!("not a string: {:?}", other),
    }
    assert!(matches!(program.get_constant(3).unwrap(), Value::Boolean(false)));
    assert_eq!(number_bits(program.get_constant(4).unwrap()), (-0.5f64).to_bits());
    assert!(program.get_constant(5).is_none());
}

#[test]
fn functions_keep_order_and_instructions() {
    let bytes = module(
        &[],
        &[
            function(0, &[(0x01, Some(0x1234)), (0x10, None), (0xFF, None)]),
            function(2, &[(0x70, Some(1)), (0x81, None)]),
        ],
    );
    let program = Bytecode::from_bytes(&bytes).unwrap();
    assert_eq!(program.function_count(), 2);
    let first = program.get_function(0);
    assert_eq!(first.num_args, 0);
    assert_eq!(first.instructions.len(), 3);
    assert_eq!(first.get_instruction(0).opcode(), Opcode::PushConst);
    assert_eq!(first.get_instruction(0).operand(), 0x1234);
    assert_eq!(first.get_instruction(1).opcode(), Opcode::Add);
    assert_eq!(first.get_instruction(2).opcode(), Opcode::Halt);
    let second = program.get_function(1);
    assert_eq!(second.num_args, 2);
    assert_eq!(second.instructions.len(), 2);
    assert_eq!(second.get_instruction(0).opcode(), Opcode::GetLocal);
    assert_eq!(second.get_instruction(0).operand(), 1);
    assert_eq!(second.get_instruction(1).opcode(), Opcode::Return);
}

#[test]
fn every_opcode_survives_loading() {
    let tags: [(u8, Opcode, bool); 20] = [
        (0x01, Opcode::PushConst, true),
        (0x10, Opcode::Add, false),
        (0x11, Opcode::Subtract, false),
        (0x12, Opcode::Multiply, false),
        (0x13, Opcode::Divide, false),
        (0x14, Opcode::Modulo, false),
        (0x15, Opcode::Negate, false),
        (0x20, Opcode::And, false),
        (0x21, Opcode::Or, false),
        (0x22, Opcode::Not, false),
        (0x30, Opcode::Equal, false),
        (0x40, Opcode::Jump, true),
        (0x41, Opcode::JumpIfTrue, true),
        (0x42, Opcode::JumpIfFalse, true),
        (0x60, Opcode::Print, false),
        (0x70, Opcode::GetLocal, true),
        (0x71, Opcode::SetLocal, true),
        (0x80, Opcode::Call, true),
        (0x81, Opcode::Return, false),
        (0xFF, Opcode::Halt, false),
    ];
    let code: Vec<(u8, Option<u16>)> = tags
        .iter()
        .enumerate()
        .map(|(i, (tag, _, operand))| (*tag, if *operand { Some(1000 + i as u16) } else { None }))
        .collect();
    let program = Bytecode::from_bytes(&module(&[], &[function(7, &code)])).unwrap();
    let loaded = program.get_function(0);
    assert_eq!(loaded.num_args, 7);
    assert_eq!(loaded.instructions.len(), 20);
    for (i, (_, opcode, operand)) in tags.iter().enumerate() {
        let instruction = loaded.get_instruction(i);
        assert_eq!(instruction.opcode(), *opcode);
        if *operand {
            assert_eq!(instruction.operand(), 1000 + i as u16);
        }
    }
}

#[test]
fn bytes_after_the_module_are_ignored() {
    let mut bytes = module(&[boolean(1)], &[function(0, &[(0xFF, None)])]);
    bytes.extend_from_slice(&[0xAA, 0xBB, 0xCC]);
    let program = Bytecode::from_bytes(&bytes).unwrap();
    assert_eq!(program.function_count(), 1);
    assert!(matches!(program.get_constant(0).unwrap(), Value::Boolean(true)));
}

#[test]
fn wrong_magic_is_refused() {
    let mut bytes = module(&[], &[]);
    bytes[3] = b'X';
    assert_eq!(load_error(&bytes), LoadError::BadMagic);
    assert_eq!(load_error(b"ELF\x7f\x01\0\0\0\0\0\0\0\0"), LoadError::BadMagic);
}

#[test]
fn short_magic_is_truncated() {
    assert_eq!(load_error(b""), LoadError::Truncated);
    assert_eq!(load_error(b"ZRC"), LoadError::Truncated);
    assert_eq!(load_error(b"XY"), LoadError::Truncated);
}

#[test]
fn other_versions_are_refused() {
    let mut bytes = module(&[], &[]);
    bytes[4] = 2;
    assert_eq!(load_error(&bytes), LoadError::UnsupportedVersion(2));
    bytes[4] = 0;
    assert_eq!(load_error(&bytes), LoadError::UnsupportedVersion(0));
    assert_eq!(load_error(b"ZRCN"), LoadError::Truncated);
}

#[test]
fn magic_is_checked_before_version() {
    assert_eq!(load_error(b"ABCD\x09"), LoadError::BadMagic);
}

#[test]
fn unknown_constant_tag_is_refused() {
    let bytes = module(&[boolean(1), vec![4u8, 0, 0]], &[]);
    assert_eq!(load_error(&bytes), LoadError::UnknownConstantTag(4));
    let bytes = module(&[vec![0u8]], &[]);
    assert_eq!(load_error(&bytes), LoadError::UnknownConstantTag(0));
}

#[test]
fn unknown_opcode_is_refused() {
    let bytes = module(&[], &[function(0, &[(0x10, None), (0x02, None)])]);
    assert_eq!(load_error(&bytes), LoadError::UnknownOpcode(0x02));
    let bytes = module(&[], &[function(0, &[(0x00, None)])]);
    assert_eq!(load_error(&bytes), LoadError::UnknownOpcode(0x00));
}

#[test]
fn invalid_utf8_is_refused() {
    let bytes = module(&[string(&[0xFF, 0xFE])], &[]);
    assert_eq!(load_error(&bytes), LoadError::InvalidUtf8);
    let bytes = module(&[string(&[b'a', 0xC3])], &[]);
    assert_eq!(load_error(&bytes), LoadError::InvalidUtf8);
}

#[test]
fn multibyte_strings_load() {
    let text = "h\u{e9}llo \u{4e16}\u{754c} \u{1F600}";
    let bytes = module(&[string(text.as_bytes()), string(b"")], &[]);
    let program = Bytecode::from_bytes(&bytes).unwrap();
    match program.get_constant(0).unwrap() {
        Value::Str(s) => assert_eq!(s, text),
        other => panic!("not a string: {:?}", other),
    }
    match program.get_constant(1).unwrap() {
        Value::Str(s) => assert_eq!(s, ""),
        other => panic!("not a string: {:?}", other),
    }
}

#[test]
fn any_nonzero_byte_is_true() {
    let bytes = module(&[boolean(0), boolean(1), boolean(2), boolean(255)], &[]);
    let program = Bytecode::from_bytes(&bytes).unwrap();
    assert!(matches!(program.get_constant(0).unwrap(), Value::Boolean(false)));
    assert!(matches!(program.get_constant(1).unwrap(), Value::Boolean(true)));
    assert!(matches!(program.get_constant(2).unwrap(), Value::Boolean(true)));
    assert!(matches!(program.get_constant(3).unwrap(), Value::Boolean(true)));
}

#[test]
fn number_bits_are_kept_verbatim() {
    let values = [
        0.0f64,
        -0.0,
        1.0,
        -1.5,
        f64::INFINITY,
        f64::NEG_INFINITY,
        f64::MIN_POSITIVE,
        f64::MAX,
        5e-324,
        std::f64::consts::PI,
    ];
    let mut constants: Vec<Vec<u8>> = values.iter().map(|v| number(*v)).collect();
    let mut nan = vec![1u8];
    nan.extend_from_slice(&0x7FF8_0000_DEAD_BEEFu64.to_le_bytes());
    constants.push(nan);
    let program = Bytecode::from_bytes(&module(&constants, &[])).unwrap();
    for (i, v) in values.iter().enumerate() {
        assert_eq!(number_bits(program.get_constant(i).unwrap()), v.to_bits());
    }
    assert_eq!(number_bits(program.get_constant(values.len()).unwrap()), 0x7FF8_0000_DEAD_BEEF);
}

#[test]
fn every_truncation_is_reported() {
    let bytes = module(
        &[number(2.5), boolean(1), string(b"abc")],
        &[function(1, &[(0x01, Some(2)), (0x60, None), (0x81, None)])],
    );
    assert!(Bytecode::from_bytes(&bytes).is_ok());
    for cut in 0..bytes.len() {
        assert_eq!(load_error(&bytes[..cut]), LoadError::Truncated, "cut at {}", cut);
    }
}

#[test]
fn counts_larger_than_the_input_are_truncated() {
    let mut bytes = header();
    bytes.extend_from_slice(&u32::MAX.to_le_bytes());
    bytes.extend_from_slice(&boolean(1));
    assert_eq!(load_error(&bytes), LoadError::Truncated);
    let mut bytes = header();
    bytes.extend_from_slice(&0u32.to_le_bytes());
    bytes.extend_from_slice(&1u32.to_le_bytes());
    bytes.extend_from_slice(&u32::MAX.to_le_bytes());
    bytes.extend_from_slice(&0u32.to_le_bytes());
    bytes.push(0xFF);
    assert_eq!(load_error(&bytes), LoadError::Truncated);
}

#[test]
fn string_length_is_little_endian() {
    let text = vec![b'x'; 0x0102];
    let mut record = vec![3u8, 0x02, 0x01];
    record.extend_from_slice(&text);
    let program = Bytecode::from_bytes(&module(&[record], &[])).unwrap();
    match program.get_constant(0).unwrap() {
        Value::Str(s) => assert_eq!(s.len(), 0x0102),
        other => panic!("not a string: {:?}", other),
    }
}

#[test]
fn argument_count_is_little_endian() {
    let mut record = Vec::new();
    record.extend_from_slice(&[0, 0, 0, 0]);
    record.extend_from_slice(&[0x04, 0x03, 0x02, 0x01]);
    let program = Bytecode::from_bytes(&module(&[], &[record])).unwrap();
    assert_eq!(program.get_function(0).num_args, 0x01020304);
    assert_eq!(program.get_function(0).instructions.len(), 0);
}

#[test]
fn reader_reads_little_endian_integers() {
    let bytes = [
        0x11u8, 0x22, 0x33, 0x44, 0x55, 0x66, 0x77, 0x88, 0x99, 0xAA, 0xBB, 0xCC, 0xDD, 0xEE, 0xFF,
    ];
    let mut reader = ByteReader::new(&bytes);
    assert_eq!(reader.remaining(), 15);
    assert_eq!(reader.read_u8(), Ok(0x11));
    assert_eq!(reader.read_u16(), Ok(0x3322));
    assert_eq!(reader.read_u32(), Ok(0x77665544));
    assert_eq!(reader.remaining(), 8);
    assert_eq!(reader.read_u64(), Ok(0xFFEEDDCCBBAA9988));
    assert_eq!(reader.remaining(), 0);
    assert_eq!(reader.read_u8(), Err(LoadError::Truncated));
}

#[test]
fn reader_keeps_its_place_when_short() {
    let bytes = [1u8, 2, 3];
    let mut reader = ByteReader::new(&bytes);
    assert_eq!(reader.read_u32(), Err(LoadError::Truncated));
    assert_eq!(reader.read_u64(), Err(LoadError::Truncated));
    assert_eq!(reader.read_bytes(4), Err(LoadError::Truncated));
    assert_eq!(reader.remaining(), 3);
    assert_eq!(reader.read_bytes(2), Ok(vec![1u8, 2]));
    assert_eq!(reader.read_u16(), Err(LoadError::Truncated));
    assert_eq!(reader.read_bytes(0), Ok(vec![]));
    assert_eq!(reader.read_u8(), Ok(3));
}

#[test]
fn read_constant_moves_past_the_record() {
    let mut bytes = string(b"ab");
    bytes.extend_from_slice(&boolean(7));
    bytes.extend_from_slice(&number(3.25));
    let mut reader = ByteReader::new(&bytes);
    match read_constant(&mut reader).unwrap() {
        Value::Str(s) => assert_eq!(s, "ab"),
        other => panic!("not a string: {:?}", other),
    }
    assert!(matches!(read_constant(&mut reader).unwrap(), Value::Boolean(true)));
    assert_eq!(number_bits(&read_constant(&mut reader).unwrap()), 3.25f64.to_bits());
    assert_eq!(reader.remaining(), 0);
    assert_eq!(read_constant(&mut reader).unwrap_err(), LoadError::Truncated);
}

#[test]
fn read_instruction_reads_operand_only_where_taken() {
    let bytes = [0x40u8, 0x34, 0x12, 0x10, 0x42];
    let mut reader = ByteReader::new(&bytes);
    let jump = read_instruction(&mut reader).unwrap();
    assert_eq!(jump.opcode(), Opcode::Jump);
    assert_eq!(jump.operand(), 0x1234);
    let add = read_instruction(&mut reader).unwrap();
    assert_eq!(add.opcode(), Opcode::Add);
    assert_eq!(reader.remaining(), 1);
    assert_eq!(read_instruction(&mut reader).unwrap_err(), LoadError::Truncated);
}

#[test]
fn read_function_reads_counts_then_instructions() {
    let mut bytes = function(3, &[(0x71, Some(9)), (0x81, None)]);
    bytes.push(0x55);
    let mut reader = ByteReader::new(&bytes);
    let loaded = read_function(&mut reader).unwrap();
    assert_eq!(loaded.num_args, 3);
    assert_eq!(loaded.instructions.len(), 2);
    assert_eq!(loaded.get_instruction(0).opcode(), Opcode::SetLocal);
    assert_eq!(loaded.get_instruction(0).operand(), 9);
    assert_eq!(loaded.get_instruction(1).opcode(), Opcode::Return);
    assert_eq!(reader.remaining(), 1);
}
