//! The binary module format, as mathematics.
//!
//! ```text
//! magic       4 bytes  "ZRCN"
//! version     1 byte   1
//! constants   u32 count, then that many records:
//!               1, 8 bytes                a number (binary64, little-endian)
//!               2, 1 byte                 a Boolean (nonzero is true)
//!               3, u16 length, bytes      a string (UTF-8)
//! functions   u32 count, then that many records:
//!               u32 instruction count, u32 argument count, then the
//!               instructions: an opcode tag, followed by a u16 operand
//!               where the opcode takes one
//! ```
//!
//! All integers are little-endian. [`parse_module`] says what a byte string
//! decodes to, [`encode_module`] what a module is written as, and
//! [`parse_inverts_encode`] that the first undoes the second.

use vstd::prelude::*;
use vstd::utf8::{decode_utf8, encode_utf8, valid_utf8};
use crate::error::LoadError;
use crate::opcode::{InstructionView, Opcode};
use crate::program::{FunctionView, ProgramView};
use crate::value::ValueView;

verus! {

/// The four bytes every module begins with.
pub open spec fn magic() -> Seq<u8> {
    seq![0x5Au8, 0x52u8, 0x43u8, 0x4Eu8]
}

/// The one supported version.
pub const VERSION: u8 = 1;

/// The number that two bytes stand for, least significant byte first.
pub open spec fn le_u16(b: Seq<u8>) -> nat {
    (b[0] as nat) + 0x100 * (b[1] as nat)
}

/// The number that four bytes stand for, least significant byte first.
pub open spec fn le_u32(b: Seq<u8>) -> nat {
    (b[0] as nat) + 0x100 * (b[1] as nat) + 0x1_0000 * (b[2] as nat) + 0x100_0000 * (b[3] as nat)
}

/// The number that eight bytes stand for, least significant byte first.
pub open spec fn le_u64(b: Seq<u8>) -> nat {
    le_u32(b.subrange(0, 4)) + 0x1_0000_0000 * le_u32(b.subrange(4, 8))
}

/// The two bytes of a 16-bit number, least significant first.
pub open spec fn u16_le(v: u16) -> Seq<u8> {
    seq![(v % 0x100) as u8, (v / 0x100) as u8]
}

/// The four bytes of a 32-bit number, least significant first.
pub open spec fn u32_le(v: u32) -> Seq<u8> {
    seq![
        (v % 0x100) as u8,
        (v / 0x100 % 0x100) as u8,
        (v / 0x1_0000 % 0x100) as u8,
        (v / 0x100_0000) as u8,
    ]
}

/// The eight bytes of a 64-bit number, least significant first.
pub open spec fn u64_le(v: u64) -> Seq<u8> {
    u32_le((v % 0x1_0000_0000) as u32) + u32_le((v / 0x1_0000_0000) as u32)
}

/// A decoded item and the number of bytes it took.
pub struct Parsed<T> {
    pub value: T,
    pub used: nat,
}

/// Decodes the constant record at the start of `input`.
pub open spec fn parse_constant(input: Seq<u8>) -> Result<Parsed<ValueView>, LoadError> {
    if input.len() < 1 {
        Err(LoadError::Truncated)
    } else if input[0] == 1 {
        if input.len() < 9 {
            Err(LoadError::Truncated)
        } else {
            Ok(Parsed { value: ValueView::Number(le_u64(input.subrange(1, 9)) as u64), used: 9 })
        }
    } else if input[0] == 2 {
        if input.len() < 2 {
            Err(LoadError::Truncated)
        } else {
            Ok(Parsed { value: ValueView::Boolean(input[1] != 0), used: 2 })
        }
    } else if input[0] == 3 {
        if input.len() < 3 {
            Err(LoadError::Truncated)
        } else {
            let n = le_u16(input.subrange(1, 3));
            if input.len() < 3 + n {
                Err(LoadError::Truncated)
            } else {
                let text = input.subrange(3, 3 + n as int);
                if valid_utf8(text) {
                    Ok(Parsed { value: ValueView::Str(decode_utf8(text)), used: 3 + n })
                } else {
                    Err(LoadError::InvalidUtf8)
                }
            }
        }
    } else {
        Err(LoadError::UnknownConstantTag(input[0]))
    }
}

/// Decodes `count` constant records, one after the other.
pub open spec fn parse_constants(input: Seq<u8>, count: nat) -> Result<
    Parsed<Seq<ValueView>>,
    LoadError,
>
    decreases count,
{
    if count == 0 {
        Ok(Parsed { value: Seq::empty(), used: 0 })
    } else {
        match parse_constant(input) {
            Err(e) => Err(e),
            Ok(first) => match parse_constants(input.skip(first.used as int), (count - 1) as nat) {
                Err(e) => Err(e),
                Ok(rest) => Ok(
                    Parsed { value: seq![first.value] + rest.value, used: first.used + rest.used },
                ),
            },
        }
    }
}

/// Decodes the instruction record at the start of `input`.
pub open spec fn parse_instruction(input: Seq<u8>) -> Result<Parsed<InstructionView>, LoadError> {
    if input.len() < 1 {
        Err(LoadError::Truncated)
    } else {
        match Opcode::from_tag(input[0]) {
            None => Err(LoadError::UnknownOpcode(input[0])),
            Some(opcode) => if opcode.takes_operand() {
                if input.len() < 3 {
                    Err(LoadError::Truncated)
                } else {
                    Ok(
                        Parsed {
                            value: InstructionView {
                                opcode,
                                operand: Some(le_u16(input.subrange(1, 3)) as u16),
                            },
                            used: 3,
                        },
                    )
                }
            } else {
                Ok(Parsed { value: InstructionView { opcode, operand: None }, used: 1 })
            },
        }
    }
}

/// Decodes `count` instruction records, one after the other.
pub open spec fn parse_instructions(input: Seq<u8>, count: nat) -> Result<
    Parsed<Seq<InstructionView>>,
    LoadError,
>
    decreases count,
{
    if count == 0 {
        Ok(Parsed { value: Seq::empty(), used: 0 })
    } else {
        match parse_instruction(input) {
            Err(e) => Err(e),
            Ok(first) => match parse_instructions(
                input.skip(first.used as int),
                (count - 1) as nat,
            ) {
                Err(e) => Err(e),
                Ok(rest) => Ok(
                    Parsed { value: seq![first.value] + rest.value, used: first.used + rest.used },
                ),
            },
        }
    }
}

/// Decodes the function record at the start of `input`.
pub open spec fn parse_function(input: Seq<u8>) -> Result<Parsed<FunctionView>, LoadError> {
    if input.len() < 8 {
        Err(LoadError::Truncated)
    } else {
        let count = le_u32(input.subrange(0, 4));
        let num_args = le_u32(input.subrange(4, 8));
        match parse_instructions(input.skip(8), count) {
            Err(e) => Err(e),
            Ok(body) => Ok(
                Parsed {
                    value: FunctionView { instructions: body.value, num_args },
                    used: 8 + body.used,
                },
            ),
        }
    }
}

/// Decodes `count` function records, one after the other.
pub open spec fn parse_functions(input: Seq<u8>, count: nat) -> Result<
    Parsed<Seq<FunctionView>>,
    LoadError,
>
    decreases count,
{
    if count == 0 {
        Ok(Parsed { value: Seq::empty(), used: 0 })
    } else {
        match parse_function(input) {
            Err(e) => Err(e),
            Ok(first) => match parse_functions(input.skip(first.used as int), (count - 1) as nat) {
                Err(e) => Err(e),
                Ok(rest) => Ok(
                    Parsed { value: seq![first.value] + rest.value, used: first.used + rest.used },
                ),
            },
        }
    }
}

/// Decodes a count and then that many constant records.
pub open spec fn parse_constant_pool(input: Seq<u8>) -> Result<Parsed<Seq<ValueView>>, LoadError> {
    if input.len() < 4 {
        Err(LoadError::Truncated)
    } else {
        match parse_constants(input.skip(4), le_u32(input.subrange(0, 4))) {
            Err(e) => Err(e),
            Ok(pool) => Ok(Parsed { value: pool.value, used: 4 + pool.used }),
        }
    }
}

/// Decodes a count and then that many function records.
pub open spec fn parse_function_table(input: Seq<u8>) -> Result<
    Parsed<Seq<FunctionView>>,
    LoadError,
> {
    if input.len() < 4 {
        Err(LoadError::Truncated)
    } else {
        match parse_functions(input.skip(4), le_u32(input.subrange(0, 4))) {
            Err(e) => Err(e),
            Ok(table) => Ok(Parsed { value: table.value, used: 4 + table.used }),
        }
    }
}

/// What a byte string decodes to: the module it begins with, or the first
/// thing wrong with it. Bytes after the module are not looked at.
pub open spec fn parse_module(input: Seq<u8>) -> Result<ProgramView, LoadError> {
    if input.len() < 4 {
        Err(LoadError::Truncated)
    } else if input.subrange(0, 4) != magic() {
        Err(LoadError::BadMagic)
    } else if input.len() < 5 {
        Err(LoadError::Truncated)
    } else if input[4] != VERSION {
        Err(LoadError::UnsupportedVersion(input[4]))
    } else {
        match parse_constant_pool(input.skip(5)) {
            Err(e) => Err(e),
            Ok(pool) => match parse_function_table(input.skip(5 + pool.used as int)) {
                Err(e) => Err(e),
                Ok(table) => Ok(ProgramView { functions: table.value, constants: pool.value }),
            },
        }
    }
}

/// The record that a constant is written as.
pub open spec fn encode_constant(value: ValueView) -> Seq<u8> {
    match value {
        ValueView::Number(bits) => seq![1u8] + u64_le(bits),
        ValueView::Boolean(b) => seq![2u8, if b { 1u8 } else { 0u8 }],
        ValueView::Str(chars) => seq![3u8] + u16_le(encode_utf8(chars).len() as u16) + encode_utf8(
            chars,
        ),
    }
}

/// The records of a run of constants, one after the other.
pub open spec fn encode_constants(values: Seq<ValueView>) -> Seq<u8>
    decreases values.len(),
{
    if values.len() == 0 {
        Seq::empty()
    } else {
        encode_constant(values[0]) + encode_constants(values.drop_first())
    }
}

/// The record that an instruction is written as.
pub open spec fn encode_instruction(instruction: InstructionView) -> Seq<u8> {
    match instruction.operand {
        Some(operand) => seq![instruction.opcode.tag()] + u16_le(operand),
        None => seq![instruction.opcode.tag()],
    }
}

/// The records of a run of instructions, one after the other.
pub open spec fn encode_instructions(instructions: Seq<InstructionView>) -> Seq<u8>
    decreases instructions.len(),
{
    if instructions.len() == 0 {
        Seq::empty()
    } else {
        encode_instruction(instructions[0]) + encode_instructions(instructions.drop_first())
    }
}

/// The record that a function is written as.
pub open spec fn encode_function(function: FunctionView) -> Seq<u8> {
    u32_le(function.instructions.len() as u32) + u32_le(function.num_args as u32)
        + encode_instructions(function.instructions)
}

/// The records of a run of functions, one after the other.
pub open spec fn encode_functions(functions: Seq<FunctionView>) -> Seq<u8>
    decreases functions.len(),
{
    if functions.len() == 0 {
        Seq::empty()
    } else {
        encode_function(functions[0]) + encode_functions(functions.drop_first())
    }
}

/// The bytes that a module is written as.
pub open spec fn encode_module(program: ProgramView) -> Seq<u8> {
    magic() + seq![VERSION] + u32_le(program.constants.len() as u32) + encode_constants(
        program.constants,
    ) + u32_le(program.functions.len() as u32) + encode_functions(program.functions)
}

/// A constant that the format has room for: a string's UTF-8 length fits in
/// 16 bits.
pub open spec fn constant_fits(value: ValueView) -> bool {
    value matches ValueView::Str(chars) ==> encode_utf8(chars).len() <= 0xFFFF
}

/// A function that the format has room for: both counts fit in 32 bits, and
/// each instruction has an operand exactly when its opcode takes one.
pub open spec fn function_fits(function: FunctionView) -> bool {
    &&& function.instructions.len() <= 0xFFFF_FFFF
    &&& function.num_args <= 0xFFFF_FFFF
    &&& forall|i: int|
        0 <= i < function.instructions.len() ==> (#[trigger] function.instructions[i]).well_formed()
}

/// A module that the format has room for.
pub open spec fn module_fits(program: ProgramView) -> bool {
    &&& program.constants.len() <= 0xFFFF_FFFF
    &&& program.functions.len() <= 0xFFFF_FFFF
    &&& forall|i: int|
        0 <= i < program.constants.len() ==> constant_fits(#[trigger] program.constants[i])
    &&& forall|i: int|
        0 <= i < program.functions.len() ==> function_fits(#[trigger] program.functions[i])
}

/// Two bytes written from a number read back as that number.
pub proof fn le_u16_inverts(v: u16)
    ensures
        u16_le(v).len() == 2,
        le_u16(u16_le(v)) == v,
{
}

/// Four bytes written from a number read back as that number.
pub proof fn le_u32_inverts(v: u32)
    ensures
        u32_le(v).len() == 4,
        le_u32(u32_le(v)) == v,
{
}

/// Eight bytes written from a number read back as that number.
pub proof fn le_u64_inverts(v: u64)
    ensures
        u64_le(v).len() == 8,
        le_u64(u64_le(v)) == v,
{
    let low = (v % 0x1_0000_0000) as u32;
    let high = (v / 0x1_0000_0000) as u32;
    le_u32_inverts(low);
    le_u32_inverts(high);
    assert(u64_le(v).subrange(0, 4) == u32_le(low));
    assert(u64_le(v).subrange(4, 8) == u32_le(high));
}

/// A constant record, whatever follows it, decodes to the constant.
pub proof fn parse_constant_inverts(value: ValueView, rest: Seq<u8>)
    requires
        constant_fits(value),
    ensures
        parse_constant(encode_constant(value) + rest) == Ok::<Parsed<ValueView>, LoadError>(
            Parsed { value, used: encode_constant(value).len() },
        ),
{
    let input = encode_constant(value) + rest;
    match value {
        ValueView::Number(bits) => {
            le_u64_inverts(bits);
            assert(input.subrange(1, 9) == u64_le(bits));
        },
        ValueView::Boolean(b) => {},
        ValueView::Str(chars) => {
            let text = encode_utf8(chars);
            le_u16_inverts(text.len() as u16);
            assert(input.subrange(1, 3) == u16_le(text.len() as u16));
            assert(input.subrange(3, 3 + text.len() as int) == text);
            vstd::utf8::encode_utf8_valid_utf8(chars);
            vstd::utf8::encode_utf8_decode_utf8(chars);
        },
    }
}

/// A run of constant records, whatever follows it, decodes to the constants.
pub proof fn parse_constants_inverts(values: Seq<ValueView>, rest: Seq<u8>)
    requires
        forall|i: int| 0 <= i < values.len() ==> constant_fits(#[trigger] values[i]),
    ensures
        parse_constants(encode_constants(values) + rest, values.len()) == Ok::<
            Parsed<Seq<ValueView>>,
            LoadError,
        >(Parsed { value: values, used: encode_constants(values).len() }),
    decreases values.len(),
{
    if values.len() == 0 {
        assert(values == Seq::<ValueView>::empty());
    } else {
        let head = encode_constant(values[0]);
        let tail = values.drop_first();
        let input = encode_constants(values) + rest;
        let after = encode_constants(tail) + rest;
        assert(input == head + after);
        parse_constant_inverts(values[0], after);
        assert(input.skip(head.len() as int) == after);
        assert forall|i: int| 0 <= i < tail.len() implies constant_fits(#[trigger] tail[i]) by {
            assert(tail[i] == values[i + 1]);
        }
        parse_constants_inverts(tail, rest);
        assert(seq![values[0]] + tail == values);
    }
}

/// An instruction record, whatever follows it, decodes to the instruction.
pub proof fn parse_instruction_inverts(instruction: InstructionView, rest: Seq<u8>)
    requires
        instruction.well_formed(),
    ensures
        parse_instruction(encode_instruction(instruction) + rest) == Ok::<
            Parsed<InstructionView>,
            LoadError,
        >(Parsed { value: instruction, used: encode_instruction(instruction).len() }),
{
    let input = encode_instruction(instruction) + rest;
    Opcode::from_tag_inverts_tag(instruction.opcode.tag(), instruction.opcode);
    match instruction.operand {
        Some(operand) => {
            le_u16_inverts(operand);
            assert(input.subrange(1, 3) == u16_le(operand));
        },
        None => {},
    }
}

/// A run of instruction records, whatever follows it, decodes to the
/// instructions.
pub proof fn parse_instructions_inverts(instructions: Seq<InstructionView>, rest: Seq<u8>)
    requires
        forall|i: int| 0 <= i < instructions.len() ==> (#[trigger] instructions[i]).well_formed(),
    ensures
        parse_instructions(encode_instructions(instructions) + rest, instructions.len()) == Ok::<
            Parsed<Seq<InstructionView>>,
            LoadError,
        >(Parsed { value: instructions, used: encode_instructions(instructions).len() }),
    decreases instructions.len(),
{
    if instructions.len() == 0 {
        assert(instructions == Seq::<InstructionView>::empty());
    } else {
        let head = encode_instruction(instructions[0]);
        let tail = instructions.drop_first();
        let input = encode_instructions(instructions) + rest;
        let after = encode_instructions(tail) + rest;
        assert(input == head + after);
        parse_instruction_inverts(instructions[0], after);
        assert(input.skip(head.len() as int) == after);
        assert forall|i: int| 0 <= i < tail.len() implies (#[trigger] tail[i]).well_formed() by {
            assert(tail[i] == instructions[i + 1]);
        }
        parse_instructions_inverts(tail, rest);
        assert(seq![instructions[0]] + tail == instructions);
    }
}

/// A function record, whatever follows it, decodes to the function.
pub proof fn parse_function_inverts(function: FunctionView, rest: Seq<u8>)
    requires
        function_fits(function),
    ensures
        parse_function(encode_function(function) + rest) == Ok::<Parsed<FunctionView>, LoadError>(
            Parsed { value: function, used: encode_function(function).len() },
        ),
{
    let count = function.instructions.len() as u32;
    let args = function.num_args as u32;
    let input = encode_function(function) + rest;
    le_u32_inverts(count);
    le_u32_inverts(args);
    assert(input.subrange(0, 4) == u32_le(count));
    assert(input.subrange(4, 8) == u32_le(args));
    assert(input.skip(8) == encode_instructions(function.instructions) + rest);
    parse_instructions_inverts(function.instructions, rest);
}

/// A run of function records, whatever follows it, decodes to the functions.
pub proof fn parse_functions_inverts(functions: Seq<FunctionView>, rest: Seq<u8>)
    requires
        forall|i: int| 0 <= i < functions.len() ==> function_fits(#[trigger] functions[i]),
    ensures
        parse_functions(encode_functions(functions) + rest, functions.len()) == Ok::<
            Parsed<Seq<FunctionView>>,
            LoadError,
        >(Parsed { value: functions, used: encode_functions(functions).len() }),
    decreases functions.len(),
{
    if functions.len() == 0 {
        assert(functions == Seq::<FunctionView>::empty());
    } else {
        let head = encode_function(functions[0]);
        let tail = functions.drop_first();
        let input = encode_functions(functions) + rest;
        let after = encode_functions(tail) + rest;
        assert(input == head + after);
        parse_function_inverts(functions[0], after);
        assert(input.skip(head.len() as int) == after);
        assert forall|i: int| 0 <= i < tail.len() implies function_fits(#[trigger] tail[i]) by {
            assert(tail[i] == functions[i + 1]);
        }
        parse_functions_inverts(tail, rest);
        assert(seq![functions[0]] + tail == functions);
    }
}

/// A constant count and its records, whatever follows, decode to the
/// constants.
pub proof fn parse_constant_pool_inverts(values: Seq<ValueView>, rest: Seq<u8>)
    requires
        values.len() <= 0xFFFF_FFFF,
        forall|i: int| 0 <= i < values.len() ==> constant_fits(#[trigger] values[i]),
    ensures
        parse_constant_pool(u32_le(values.len() as u32) + encode_constants(values) + rest) == Ok::<
            Parsed<Seq<ValueView>>,
            LoadError,
        >(Parsed { value: values, used: 4 + encode_constants(values).len() }),
{
    let count = u32_le(values.len() as u32);
    let input = count + encode_constants(values) + rest;
    le_u32_inverts(values.len() as u32);
    assert(input.subrange(0, 4) == count);
    assert(input.skip(4) == encode_constants(values) + rest);
    parse_constants_inverts(values, rest);
}

/// A function count and its records, whatever follows, decode to the
/// functions.
pub proof fn parse_function_table_inverts(functions: Seq<FunctionView>, rest: Seq<u8>)
    requires
        functions.len() <= 0xFFFF_FFFF,
        forall|i: int| 0 <= i < functions.len() ==> function_fits(#[trigger] functions[i]),
    ensures
        parse_function_table(u32_le(functions.len() as u32) + encode_functions(functions) + rest)
            == Ok::<Parsed<Seq<FunctionView>>, LoadError>(
            Parsed { value: functions, used: 4 + encode_functions(functions).len() },
        ),
{
    let count = u32_le(functions.len() as u32);
    let input = count + encode_functions(functions) + rest;
    le_u32_inverts(functions.len() as u32);
    assert(input.subrange(0, 4) == count);
    assert(input.skip(4) == encode_functions(functions) + rest);
    parse_functions_inverts(functions, rest);
}

/// A header, a constant pool and a function table in a row decode to the
/// module made of what the pool and the table decode to.
proof fn parse_module_in_parts(
    pool: Seq<u8>,
    table: Seq<u8>,
    trailing: Seq<u8>,
    program: ProgramView,
)
    requires
        parse_constant_pool(pool + (table + trailing)) == Ok::<Parsed<Seq<ValueView>>, LoadError>(
            Parsed { value: program.constants, used: pool.len() },
        ),
        parse_function_table(table + trailing) == Ok::<Parsed<Seq<FunctionView>>, LoadError>(
            Parsed { value: program.functions, used: table.len() },
        ),
    ensures
        parse_module(magic() + seq![VERSION] + pool + table + trailing) == Ok::<
            ProgramView,
            LoadError,
        >(program),
{
    let input = magic() + seq![VERSION] + pool + table + trailing;
    assert(input.subrange(0, 4) == magic());
    assert(input[4] == VERSION);
    assert(input.skip(5) == pool + (table + trailing));
    assert(input.skip(5 + pool.len() as int) == table + trailing);
}

/// Decoding undoes encoding: the bytes that a module is written as, whatever
/// follows them, decode to that module, with every constant and function in
/// its place.
pub proof fn parse_inverts_encode(program: ProgramView, trailing: Seq<u8>)
    requires
        module_fits(program),
    ensures
        parse_module(encode_module(program) + trailing) == Ok::<ProgramView, LoadError>(program),
{
    let pool = u32_le(program.constants.len() as u32) + encode_constants(program.constants);
    let table = u32_le(program.functions.len() as u32) + encode_functions(program.functions);
    le_u32_inverts(program.constants.len() as u32);
    le_u32_inverts(program.functions.len() as u32);
    parse_constant_pool_inverts(program.constants, table + trailing);
    parse_function_table_inverts(program.functions, trailing);
    parse_module_in_parts(pool, table, trailing, program);
    assert(encode_module(program) + trailing == magic() + seq![VERSION] + pool + table + trailing);
}

} // verus!
