//! The module loader: one linear pass over the bytes.

use vstd::prelude::*;
use vstd::utf8::{decode_utf8, valid_utf8};
use crate::error::LoadError;
use crate::format::{
    le_u32, magic, parse_constant, parse_constant_pool, parse_constants, parse_function,
    parse_function_table, parse_functions, parse_instruction, parse_instructions, parse_module,
    Parsed, VERSION,
};
use crate::opcode::{Instruction, InstructionView, Opcode};
use crate::program::{Bytecode, Function, FunctionView};
use crate::reader::ByteReader;
use crate::value::{Value, ValueView};

verus! {

/// The error of `String::from_utf8`; nothing is read from it.
#[verifier::external_type_specification]
#[verifier::external_body]
pub struct ExFromUtf8Error(std::string::FromUtf8Error);

/// `String::from_utf8` succeeds exactly on well-formed UTF-8, and the string
/// it returns holds the characters that the bytes encode.
pub assume_specification[ String::from_utf8 ](vec: Vec<u8>) -> (r: Result<
    String,
    std::string::FromUtf8Error,
>)
    ensures
        r is Ok <==> valid_utf8(vec@),
        r is Ok ==> r->Ok_0@ == decode_utf8(vec@),
;

/// What is left of a run of records after some have been decoded: the items
/// so far and their size, followed by what the rest decodes to.
pub open spec fn continued<T>(
    done: Seq<T>,
    used: nat,
    rest: Result<Parsed<Seq<T>>, LoadError>,
) -> Result<Parsed<Seq<T>>, LoadError> {
    match rest {
        Err(e) => Err(e),
        Ok(tail) => Ok(Parsed { value: done + tail.value, used: used + tail.used }),
    }
}

/// Reads one constant record.
pub fn read_constant(reader: &mut ByteReader) -> (r: Result<Value, LoadError>)
    ensures
        match parse_constant(old(reader)@) {
            Ok(parsed) => r is Ok && r->Ok_0@ == parsed.value && parsed.used <= old(reader)@.len()
                && final(reader)@ == old(reader)@.skip(parsed.used as int),
            Err(e) => r is Err && r->Err_0 == e,
        },
{
    let ghost input = reader@;
    let type_id = match reader.read_u8() {
        Ok(byte) => byte,
        Err(e) => { return Err(e); },
    };
    if type_id == 1 {
        let bits = match reader.read_u64() {
            Ok(bits) => bits,
            Err(e) => { return Err(e); },
        };
        assert(input.skip(1).subrange(0, 8) == input.subrange(1, 9));
        assert(reader@ == input.skip(9));
        Ok(Value::Number(bits))
    } else if type_id == 2 {
        let flag = match reader.read_u8() {
            Ok(byte) => byte,
            Err(e) => { return Err(e); },
        };
        assert(reader@ == input.skip(2));
        Ok(Value::Boolean(flag != 0))
    } else if type_id == 3 {
        let len = match reader.read_u16() {
            Ok(len) => len as usize,
            Err(e) => { return Err(e); },
        };
        assert(input.skip(1).subrange(0, 2) == input.subrange(1, 3));
        let buffer = match reader.read_bytes(len) {
            Ok(buffer) => buffer,
            Err(e) => { return Err(e); },
        };
        assert(input.skip(1).skip(2).subrange(0, len as int) == input.subrange(3, 3 + len));
        assert(reader@ == input.skip(3 + len));
        match String::from_utf8(buffer) {
            Ok(string) => Ok(Value::Str(string)),
            Err(_) => Err(LoadError::InvalidUtf8),
        }
    } else {
        Err(LoadError::UnknownConstantTag(type_id))
    }
}

/// Reads one instruction record.
pub fn read_instruction(reader: &mut ByteReader) -> (r: Result<Instruction, LoadError>)
    ensures
        match parse_instruction(old(reader)@) {
            Ok(parsed) => r is Ok && r->Ok_0@ == parsed.value && parsed.used <= old(reader)@.len()
                && final(reader)@ == old(reader)@.skip(parsed.used as int),
            Err(e) => r is Err && r->Err_0 == e,
        },
{
    let ghost input = reader@;
    let tag = match reader.read_u8() {
        Ok(byte) => byte,
        Err(e) => { return Err(e); },
    };
    let opcode = match Opcode::from_u8(tag) {
        Ok(opcode) => opcode,
        Err(e) => { return Err(e); },
    };
    let operand = if opcode.has_operand() {
        let operand = match reader.read_u16() {
            Ok(operand) => operand,
            Err(e) => { return Err(e); },
        };
        proof {
            assert(input.skip(1).subrange(0, 2) == input.subrange(1, 3));
            assert(input.skip(1).skip(2) == input.skip(3));
        }
        Some(operand)
    } else {
        None
    };
    Ok(Instruction::new(opcode, operand))
}

/// Reads one function record.
pub fn read_function(reader: &mut ByteReader) -> (r: Result<Function, LoadError>)
    ensures
        match parse_function(old(reader)@) {
            Ok(parsed) => r is Ok && r->Ok_0@ == parsed.value && parsed.used <= old(reader)@.len()
                && final(reader)@ == old(reader)@.skip(parsed.used as int),
            Err(e) => r is Err && r->Err_0 == e,
        },
{
    let ghost input = reader@;
    let num_instructions = match reader.read_u32() {
        Ok(count) => count,
        Err(e) => { return Err(e); },
    };
    let num_args = match reader.read_u32() {
        Ok(count) => count as usize,
        Err(e) => { return Err(e); },
    };
    proof {
        assert(input.skip(4).subrange(0, 4) == input.subrange(4, 8));
        assert(input.skip(4).skip(4) == input.skip(8));
    }
    let ghost body = reader@;
    let ghost mut used: nat = 0;
    let mut instructions: Vec<Instruction> = Vec::new();
    let mut i: u32 = 0;
    while i < num_instructions
        invariant
            i <= num_instructions,
            input == old(reader)@,
            input.len() >= 8,
            num_instructions as nat == le_u32(input.subrange(0, 4)),
            num_args as nat == le_u32(input.subrange(4, 8)),
            body == input.skip(8),
            used <= body.len(),
            reader@ == body.skip(used as int),
            parse_instructions(body, num_instructions as nat) == continued(
                instructions@.map_values(|x: Instruction| x@),
                used,
                parse_instructions(reader@, (num_instructions - i) as nat),
            ),
        decreases num_instructions - i,
    {
        let ghost before = reader@;
        let ghost done = instructions@.map_values(|x: Instruction| x@);
        let instruction = match read_instruction(reader) {
            Ok(instruction) => instruction,
            Err(e) => { return Err(e); },
        };
        proof {
            let first = parse_instruction(before)->Ok_0;
            let tail = parse_instructions(reader@, (num_instructions - i - 1) as nat);
            assert(body.skip(used as int).skip(first.used as int) == body.skip(
                (used + first.used) as int,
            ));
            assert(instructions@.push(instruction).map_values(|x: Instruction| x@) == done.push(
                instruction@,
            ));
            if tail is Ok {
                assert(done + (seq![first.value] + tail->Ok_0.value) == done.push(first.value)
                    + tail->Ok_0.value);
            }
            used = used + first.used;
        }
        instructions.push(instruction);
        i = i + 1;
    }
    proof {
        let done = instructions@.map_values(|x: Instruction| x@);
        assert(done + Seq::<InstructionView>::empty() == done);
        assert(input.skip(8).skip(used as int) == input.skip(8 + used as int));
    }
    Ok(Function::new(instructions, num_args))
}

/// Reads the constant count and the constant records.
fn read_constant_pool(reader: &mut ByteReader) -> (r: Result<Vec<Value>, LoadError>)
    ensures
        match parse_constant_pool(old(reader)@) {
            Ok(parsed) => r is Ok && r->Ok_0@.map_values(|v: Value| v@) == parsed.value
                && parsed.used <= old(reader)@.len() && final(reader)@ == old(reader)@.skip(
                parsed.used as int,
            ),
            Err(e) => r is Err && r->Err_0 == e,
        },
{
    let ghost input = reader@;
    let num_constants = match reader.read_u32() {
        Ok(count) => count,
        Err(e) => { return Err(e); },
    };
    let ghost body = reader@;
    let ghost mut used: nat = 0;
    let mut constants: Vec<Value> = Vec::new();
    let mut i: u32 = 0;
    while i < num_constants
        invariant
            i <= num_constants,
            input == old(reader)@,
            input.len() >= 4,
            num_constants as nat == le_u32(input.subrange(0, 4)),
            body == input.skip(4),
            used <= body.len(),
            reader@ == body.skip(used as int),
            parse_constants(body, num_constants as nat) == continued(
                constants@.map_values(|v: Value| v@),
                used,
                parse_constants(reader@, (num_constants - i) as nat),
            ),
        decreases num_constants - i,
    {
        let ghost before = reader@;
        let ghost done = constants@.map_values(|v: Value| v@);
        let constant = match read_constant(reader) {
            Ok(constant) => constant,
            Err(e) => { return Err(e); },
        };
        proof {
            let first = parse_constant(before)->Ok_0;
            let tail = parse_constants(reader@, (num_constants - i - 1) as nat);
            assert(body.skip(used as int).skip(first.used as int) == body.skip(
                (used + first.used) as int,
            ));
            assert(constants@.push(constant).map_values(|v: Value| v@) == done.push(constant@));
            if tail is Ok {
                assert(done + (seq![first.value] + tail->Ok_0.value) == done.push(first.value)
                    + tail->Ok_0.value);
            }
            used = used + first.used;
        }
        constants.push(constant);
        i = i + 1;
    }
    proof {
        let done = constants@.map_values(|v: Value| v@);
        assert(done + Seq::<ValueView>::empty() == done);
        assert(input.skip(4).skip(used as int) == input.skip(4 + used as int));
    }
    Ok(constants)
}

/// Reads the function count and the function records.
fn read_function_table(reader: &mut ByteReader) -> (r: Result<Vec<Function>, LoadError>)
    ensures
        match parse_function_table(old(reader)@) {
            Ok(parsed) => r is Ok && r->Ok_0@.map_values(|f: Function| f@) == parsed.value
                && parsed.used <= old(reader)@.len() && final(reader)@ == old(reader)@.skip(
                parsed.used as int,
            ),
            Err(e) => r is Err && r->Err_0 == e,
        },
{
    let ghost input = reader@;
    let num_functions = match reader.read_u32() {
        Ok(count) => count,
        Err(e) => { return Err(e); },
    };
    let ghost body = reader@;
    let ghost mut used: nat = 0;
    let mut functions: Vec<Function> = Vec::new();
    let mut i: u32 = 0;
    while i < num_functions
        invariant
            i <= num_functions,
            input == old(reader)@,
            input.len() >= 4,
            num_functions as nat == le_u32(input.subrange(0, 4)),
            body == input.skip(4),
            used <= body.len(),
            reader@ == body.skip(used as int),
            parse_functions(body, num_functions as nat) == continued(
                functions@.map_values(|f: Function| f@),
                used,
                parse_functions(reader@, (num_functions - i) as nat),
            ),
        decreases num_functions - i,
    {
        let ghost before = reader@;
        let ghost done = functions@.map_values(|f: Function| f@);
        let function = match read_function(reader) {
            Ok(function) => function,
            Err(e) => { return Err(e); },
        };
        proof {
            let first = parse_function(before)->Ok_0;
            let tail = parse_functions(reader@, (num_functions - i - 1) as nat);
            assert(body.skip(used as int).skip(first.used as int) == body.skip(
                (used + first.used) as int,
            ));
            assert(functions@.push(function).map_values(|f: Function| f@) == done.push(function@));
            if tail is Ok {
                assert(done + (seq![first.value] + tail->Ok_0.value) == done.push(first.value)
                    + tail->Ok_0.value);
            }
            used = used + first.used;
        }
        functions.push(function);
        i = i + 1;
    }
    proof {
        let done = functions@.map_values(|f: Function| f@);
        assert(done + Seq::<FunctionView>::empty() == done);
        assert(input.skip(4).skip(used as int) == input.skip(4 + used as int));
    }
    Ok(functions)
}

impl Bytecode {
    /// Loads the module that `bytes` begins with.
    ///
    /// The result is what the format says the bytes decode to: the module
    /// with its constants and functions in order, or the first thing wrong
    /// with the bytes.
    pub fn from_bytes(bytes: &[u8]) -> (r: Result<Bytecode, LoadError>)
        ensures
            match parse_module(bytes@) {
                Ok(program) => r is Ok && r->Ok_0@ == program,
                Err(e) => r is Err && r->Err_0 == e,
            },
    {
        let mut reader = ByteReader::new(bytes);
        let tag = match reader.read_bytes(4) {
            Ok(tag) => tag,
            Err(e) => { return Err(e); },
        };
        if tag[0] != 0x5A || tag[1] != 0x52 || tag[2] != 0x43 || tag[3] != 0x4E {
            return Err(LoadError::BadMagic);
        }
        assert(bytes@.subrange(0, 4) == magic());
        let version = match reader.read_u8() {
            Ok(version) => version,
            Err(e) => { return Err(e); },
        };
        if version != VERSION {
            return Err(LoadError::UnsupportedVersion(version));
        }
        assert(reader@ == bytes@.skip(5));
        let constants = match read_constant_pool(&mut reader) {
            Ok(constants) => constants,
            Err(e) => { return Err(e); },
        };
        proof {
            let pool = parse_constant_pool(bytes@.skip(5))->Ok_0;
            assert(bytes@.skip(5).skip(pool.used as int) == bytes@.skip(5 + pool.used as int));
        }
        let functions = match read_function_table(&mut reader) {
            Ok(functions) => functions,
            Err(e) => { return Err(e); },
        };
        Ok(Bytecode::new(functions, constants))
    }
}

} // verus!
