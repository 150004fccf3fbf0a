//! The instruction decoder: two total maps from an opcode byte to a typed
//! instruction, one for plain opcodes and one for the opcodes that follow
//! the prefix byte.

use vstd::prelude::*;
use crate::hardware::registers::{Register, RegisterPair};

verus! {

/// The opcode that escapes to the prefixed instruction set.
pub const PREFIX_OPCODE: u8 = 0xCB;

/// The first opcode of the family that XORs a register into the accumulator.
pub const XOR_BASE_OPCODE: u8 = 0xA8;

/// The first opcode of the prefixed bit-test family.
pub const BIT_BASE_OPCODE: u8 = 0x40;

/// What a load instruction loads.
#[derive(Debug, PartialEq, Eq, Structural)]
pub enum LoadType {
    /// The two bytes that follow the opcode, into a register pair.
    ImmediateWord(RegisterPair),
}

/// What an XOR instruction combines with the accumulator.
#[derive(Debug, PartialEq, Eq, Structural)]
pub enum XORTarget {
    /// An 8-bit register.
    Register(Register),
}

/// A decoded plain instruction. It routes one dispatch and is consumed by
/// it.
#[derive(Debug, PartialEq, Eq, Structural)]
pub enum Instruction {
    /// XOR a source into the accumulator.
    XOR(XORTarget),
    /// Load a value into a register or pair.
    Load(LoadType),
    /// The escape to the prefixed instruction set.
    Prefixed,
    /// Every opcode that names none of the above.
    NoOp,
}

/// A decoded prefixed instruction. It routes one dispatch and is consumed
/// by it.
#[derive(Debug, PartialEq, Eq, Structural)]
pub enum PrefixedInstruction {
    /// Test one bit of a register: the first field is the bit's index,
    /// from 0 to 7, the second the register.
    Bit(u8, Register),
    /// Every prefixed opcode that names no bit test of a register.
    NoOp,
}

/// The register that a 3-bit operand field names. The field value 6 names a
/// memory operand and therefore no register; `F` has no field value.
pub open spec fn spec_operand_register(field: u8) -> Option<Register> {
    match field {
        0 => Some(Register::B),
        1 => Some(Register::C),
        2 => Some(Register::D),
        3 => Some(Register::E),
        4 => Some(Register::H),
        5 => Some(Register::L),
        7 => Some(Register::A),
        _ => None,
    }
}

/// The register pair that a 2-bit operand field names. The field value 3
/// names a register that is no pair of the register file.
pub open spec fn spec_operand_pair(field: u8) -> Option<RegisterPair> {
    match field {
        0 => Some(RegisterPair::BC),
        1 => Some(RegisterPair::DE),
        2 => Some(RegisterPair::HL),
        _ => None,
    }
}

/// The operand field that names `register`, if it has one.
pub open spec fn operand_field(register: Register) -> Option<u8> {
    match register {
        Register::B => Some(0),
        Register::C => Some(1),
        Register::D => Some(2),
        Register::E => Some(3),
        Register::H => Some(4),
        Register::L => Some(5),
        Register::A => Some(7),
        Register::F => None,
    }
}

/// Looks up the register that a 3-bit operand field names.
#[verifier::when_used_as_spec(spec_operand_register)]
pub fn operand_register(field: u8) -> (register: Option<Register>)
    ensures
        register == spec_operand_register(field),
{
    match field {
        0 => Some(Register::B),
        1 => Some(Register::C),
        2 => Some(Register::D),
        3 => Some(Register::E),
        4 => Some(Register::H),
        5 => Some(Register::L),
        7 => Some(Register::A),
        _ => None,
    }
}

/// Looks up the register pair that a 2-bit operand field names.
#[verifier::when_used_as_spec(spec_operand_pair)]
pub fn operand_pair(field: u8) -> (pair: Option<RegisterPair>)
    ensures
        pair == spec_operand_pair(field),
{
    match field {
        0 => Some(RegisterPair::BC),
        1 => Some(RegisterPair::DE),
        2 => Some(RegisterPair::HL),
        _ => None,
    }
}

impl Instruction {
    /// The instruction that `opcode` encodes:
    /// the prefix byte is the escape;
    /// `0x01`, `0x11` and `0x21` load an immediate word into the pair that
    /// the upper nibble names;
    /// `0xA8` to `0xAF` XOR the register that the lower three bits name
    /// into the accumulator;
    /// every other byte is a no-op.
    pub open spec fn spec_decode(opcode: u8) -> Instruction {
        if opcode == PREFIX_OPCODE {
            Instruction::Prefixed
        } else if opcode % 16 == 1 && opcode / 16 < 4 {
            match spec_operand_pair(opcode / 16) {
                Some(pair) => Instruction::Load(LoadType::ImmediateWord(pair)),
                None => Instruction::NoOp,
            }
        } else if XOR_BASE_OPCODE <= opcode < XOR_BASE_OPCODE + 8 {
            match spec_operand_register((opcode - XOR_BASE_OPCODE) as u8) {
                Some(register) => Instruction::XOR(XORTarget::Register(register)),
                None => Instruction::NoOp,
            }
        } else {
            Instruction::NoOp
        }
    }

    /// The number of bytes that the instruction occupies in memory, its
    /// opcode included.
    pub open spec fn length(self) -> nat {
        match self {
            Instruction::Load(LoadType::ImmediateWord(_)) => 3,
            Instruction::Prefixed => 2,
            Instruction::XOR(_) => 1,
            Instruction::NoOp => 1,
        }
    }

    /// Decodes a plain opcode. Every byte decodes to some instruction.
    #[verifier::when_used_as_spec(spec_decode)]
    pub fn decode(opcode: u8) -> (instruction: Instruction)
        ensures
            instruction == Instruction::spec_decode(opcode),
    {
        assert((opcode & 0xCF == 0x01) == (opcode % 16 == 1 && opcode / 16 < 4)) by (bit_vector);
        assert(opcode >> 4 == opcode / 16) by (bit_vector);
        assert((opcode & 0xF8 == 0xA8) == (0xA8 <= opcode && opcode < 0xA8 + 8)) by (bit_vector);
        assert(opcode & 0xF8 == 0xA8 ==> opcode & 0x07 == opcode - 0xA8) by (bit_vector);
        if opcode == PREFIX_OPCODE {
            Instruction::Prefixed
        } else if opcode & 0xCF == 0x01 {
            match operand_pair(opcode >> 4) {
                Some(pair) => Instruction::Load(LoadType::ImmediateWord(pair)),
                None => Instruction::NoOp,
            }
        } else if opcode & 0xF8 == XOR_BASE_OPCODE {
            match operand_register(opcode & 0x07) {
                Some(register) => Instruction::XOR(XORTarget::Register(register)),
                None => Instruction::NoOp,
            }
        } else {
            Instruction::NoOp
        }
    }
}

impl PrefixedInstruction {
    /// The prefixed instruction that `opcode` encodes: `0x40` to `0x7F`
    /// test a bit of a register, the bit index in bits 3 to 5 and the
    /// register in bits 0 to 2; every other byte, and a bit test of the
    /// memory operand, is a no-op.
    pub open spec fn spec_decode(opcode: u8) -> PrefixedInstruction {
        if BIT_BASE_OPCODE <= opcode < BIT_BASE_OPCODE + 64 {
            match spec_operand_register(opcode % 8) {
                Some(register) => PrefixedInstruction::Bit(
                    ((opcode - BIT_BASE_OPCODE) / 8) as u8,
                    register,
                ),
                None => PrefixedInstruction::NoOp,
            }
        } else {
            PrefixedInstruction::NoOp
        }
    }

    /// A bit test is well formed when its index names one of the eight
    /// bits of a byte.
    pub open spec fn well_formed(self) -> bool {
        match self {
            PrefixedInstruction::Bit(index, _) => index < 8,
            PrefixedInstruction::NoOp => true,
        }
    }

    /// Decodes the opcode that follows the prefix byte. Every byte decodes
    /// to some instruction, and a decoded bit test is well formed.
    #[verifier::when_used_as_spec(spec_decode)]
    pub fn decode(opcode: u8) -> (instruction: PrefixedInstruction)
        ensures
            instruction == PrefixedInstruction::spec_decode(opcode),
            instruction.well_formed(),
    {
        assert((opcode & 0xC0 == 0x40) == (0x40 <= opcode && opcode < 0x40 + 64)) by (bit_vector);
        assert(opcode & 0x07 == opcode % 8) by (bit_vector);
        assert(opcode & 0xC0 == 0x40 ==> (opcode >> 3) & 0x07 == (opcode - 0x40) / 8 && (opcode
            >> 3) & 0x07 < 8) by (bit_vector);
        if opcode & 0xC0 == BIT_BASE_OPCODE {
            match operand_register(opcode & 0x07) {
                Some(register) => PrefixedInstruction::Bit((opcode >> 3) & 0x07, register),
                None => PrefixedInstruction::NoOp,
            }
        } else {
            PrefixedInstruction::NoOp
        }
    }
}

/// Every bit test of a register has an opcode: for each index from 0 to 7
/// and each register that an operand field names, the byte
/// `0x40 + 8 * index + field` decodes to that bit test.
pub proof fn lemma_bit_test_has_opcode(index: u8, register: Register)
    requires
        index < 8,
        register != Register::F,
    ensures
        PrefixedInstruction::spec_decode(
            (BIT_BASE_OPCODE + 8 * index + operand_field(register).unwrap()) as u8,
        ) == PrefixedInstruction::Bit(index, register),
{
}

/// Every XOR of a register has an opcode: for each register that an
/// operand field names, the byte `0xA8 + field` decodes to the XOR of that
/// register into the accumulator.
pub proof fn lemma_xor_has_opcode(register: Register)
    requires
        register != Register::F,
    ensures
        Instruction::spec_decode((XOR_BASE_OPCODE + operand_field(register).unwrap()) as u8)
            == Instruction::XOR(XORTarget::Register(register)),
{
}

} // verus!
