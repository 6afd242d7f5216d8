//! Binary decoding of the data-processing instruction class.
//!
//! A 32-bit word is classified as data-processing when its low 26 bits are
//! not all zero — an approximate single-class classifier, a documented
//! limitation of this core rather than a general multi-class dispatcher.
//! The bit layout, most-significant bit first: bits 31..28 the raw
//! condition field, 27..26 class bits (ignored), 25 the immediate-operand
//! flag, 24..21 the opcode, 20 the set-flags flag, 19..16 the source
//! register, 15..12 the destination register, 11..0 the raw operand-2
//! field.

use vstd::prelude::*;

verus! {

/// Error of the decoder: the word does not match the recognized
/// instruction-class mask.
#[derive(PartialEq, Eq, Structural, Clone, Copy, Debug)]
pub enum DecodeError {
    InvalidClass,
}

/// The opcodes this core gives an effect; every other encoding decodes to
/// `Unknown` and executes as a no-op.
#[derive(PartialEq, Eq, Structural, Clone, Copy, Debug)]
pub enum OpCode {
    ADD,
    MOV,
    Unknown,
}

#[derive(PartialEq, Eq, Structural, Clone, Copy, Debug)]
pub enum InstructionType {
    DataProcessing,
    Undefined,
}

/// A decoded instruction. The raw condition field is kept as encoded and
/// resolved to a named code only at execution time. When `immediate` is
/// set, the full 12-bit `operand_2` field is a plain unsigned immediate
/// (no rotate decoding is applied — a known simplification); when clear,
/// only its low 4 bits are consumed, as a register index.
#[derive(PartialEq, Eq, Structural, Clone, Copy, Debug)]
pub struct Instruction {
    pub instruction_type: InstructionType,
    pub condition: u8,
    pub immediate: bool,
    pub opcode: OpCode,
    /// Decoded but deliberately inert: this core never recomputes the
    /// status flags after an operation.
    pub set_state: bool,
    pub src_register: u8,
    pub dest_register: u8,
    pub operand_2: u16,
}

/// The raw 4-bit condition field, bits 31..28.
pub open spec fn condition_field(word: u32) -> u8 {
    ((word >> 28) & 0xf) as u8
}

/// The immediate-operand flag, bit 25.
pub open spec fn immediate_field(word: u32) -> bool {
    (word >> 25) & 1 != 0
}

/// The raw 4-bit opcode field, bits 24..21.
pub open spec fn opcode_field(word: u32) -> u8 {
    ((word >> 21) & 0xf) as u8
}

/// The set-flags flag, bit 20.
pub open spec fn set_flags_field(word: u32) -> bool {
    (word >> 20) & 1 != 0
}

/// The source register index, bits 19..16.
pub open spec fn src_field(word: u32) -> u8 {
    ((word >> 16) & 0xf) as u8
}

/// The destination register index, bits 15..12.
pub open spec fn dest_field(word: u32) -> u8 {
    ((word >> 12) & 0xf) as u8
}

/// The raw 12-bit operand-2 field, bits 11..0.
pub open spec fn operand2_field(word: u32) -> u16 {
    (word & 0xfff) as u16
}

/// The single-class classification: a word counts as data-processing when
/// its low 26 bits are not all zero.
pub open spec fn is_data_processing(word: u32) -> bool {
    word & 0x03ff_ffff != 0
}

/// The mapping of the raw 4-bit opcode field to the opcodes this core
/// executes.
pub open spec fn opcode_of(opcode: u8) -> OpCode {
    if opcode == 0b0100 {
        OpCode::ADD
    } else if opcode == 0b1101 {
        OpCode::MOV
    } else {
        OpCode::Unknown
    }
}

/// The instruction a data-processing word decodes to: each field read from
/// its place in the bit layout.
pub open spec fn decoded(word: u32) -> Instruction {
    Instruction {
        instruction_type: InstructionType::DataProcessing,
        condition: condition_field(word),
        immediate: immediate_field(word),
        opcode: opcode_of(opcode_field(word)),
        set_state: set_flags_field(word),
        src_register: src_field(word),
        dest_register: dest_field(word),
        operand_2: operand2_field(word),
    }
}

impl OpCode {
    /// Resolves the raw 4-bit opcode field, per `opcode_of`.
    pub fn from_u8(opcode: u8) -> (r: OpCode)
        ensures
            r == opcode_of(opcode),
    {
        match opcode {
            0b0100 => OpCode::ADD,
            0b1101 => OpCode::MOV,
            _ => OpCode::Unknown,
        }
    }
}

/// Extracts every field of a data-processing word. This never fails: the
/// classification happened in the caller.
pub fn decode_data_processing_instruction(instruction: u32) -> (r: Result<Instruction, DecodeError>)
    ensures
        r == Ok::<Instruction, DecodeError>(decoded(instruction)),
{
    proof {
        assert((instruction >> 28) & 0xf < 0x100) by (bit_vector);
        assert((instruction >> 21) & 0xf < 0x100) by (bit_vector);
        assert((instruction >> 16) & 0xf < 0x100) by (bit_vector);
        assert((instruction >> 12) & 0xf < 0x100) by (bit_vector);
        assert(instruction & 0xfff < 0x10000) by (bit_vector);
    }
    let condition = ((instruction >> 28) & 0xf) as u8;
    let immediate_mode = (instruction >> 25) & 1;
    let opcode = ((instruction >> 21) & 0xf) as u8;
    let set_status = (instruction >> 20) & 1;
    let src_register = ((instruction >> 16) & 0xf) as u8;
    let dest_register = ((instruction >> 12) & 0xf) as u8;
    let operand_2 = (instruction & 0xfff) as u16;

    Ok(
        Instruction {
            instruction_type: InstructionType::DataProcessing,
            condition,
            immediate: immediate_mode != 0,
            opcode: OpCode::from_u8(opcode),
            set_state: set_status != 0,
            src_register,
            dest_register,
            operand_2,
        },
    )
}

/// Classifies and decodes a word: a word whose low 26 bits are all zero
/// fails with `InvalidClass`, every other word decodes to its
/// data-processing fields.
pub fn decode_instruction(instruction: u32) -> (r: Result<Instruction, DecodeError>)
    ensures
        is_data_processing(instruction) ==> r == Ok::<Instruction, DecodeError>(
            decoded(instruction),
        ),
        !is_data_processing(instruction) ==> r == Err::<Instruction, DecodeError>(
            DecodeError::InvalidClass,
        ),
{
    if instruction & 0x03ff_ffff != 0 {
        decode_data_processing_instruction(instruction)
    } else {
        Err(DecodeError::InvalidClass)
    }
}

/// The decoded register fields always fit in four bits.
pub proof fn lemma_decoded_fields_bounded(word: u32)
    ensures
        decoded(word).condition < 16,
        decoded(word).src_register < 16,
        decoded(word).dest_register < 16,
        decoded(word).operand_2 < 0x1000,
{
    assert((word >> 28) & 0xf < 16) by (bit_vector);
    assert((word >> 16) & 0xf < 16) by (bit_vector);
    assert((word >> 12) & 0xf < 16) by (bit_vector);
    assert(word & 0xfff < 0x1000) by (bit_vector);
}

} // verus!
