//! The processor: it owns the register file, the memory and the program
//! counter, and executes one instruction per step.
//!
//! The program counter is a 16-bit address. Address arithmetic wraps: the
//! byte after address `0xFFFF` is the byte at address `0x0000`, for the
//! fetch of an opcode as for the fetch of its operands.

use vstd::prelude::*;
use crate::hardware::instructions::{Instruction, LoadType, PrefixedInstruction, XORTarget};
use crate::hardware::memory::{zeroed_image, Memory, MEMORY_SIZE};
use crate::hardware::registers::{
    lemma_flag_is_bit_of_f, lemma_write16_read16, lemma_zero_has_no_bits, Flag, Register,
    RegisterFile, RegisterPair, RegisterState,
};
use crate::utils::{bit_is_set, bytes_to_word, test_bit, word_of};

verus! {

/// The state of the machine as a mathematical value.
pub struct MachineState {
    /// The address of the next byte to fetch.
    pub program_counter: u16,
    /// What the register file holds.
    pub registers: RegisterState,
    /// The memory image, one byte per address.
    pub memory: Seq<u8>,
}

impl MachineState {
    /// The state of a new machine: program counter 0, registers zero,
    /// flags clear, memory zero.
    pub open spec fn initial() -> MachineState {
        MachineState {
            program_counter: 0,
            registers: RegisterState::zeroed(),
            memory: zeroed_image(),
        }
    }

    /// The address `bytes` bytes after `address`, wrapping at the top of
    /// the address space.
    pub open spec fn address_after(address: u16, bytes: nat) -> u16 {
        ((address + bytes) % (MEMORY_SIZE as int)) as u16
    }

    /// This state with the program counter moved on by `bytes` bytes.
    pub open spec fn advance(self, bytes: nat) -> MachineState {
        MachineState {
            program_counter: Self::address_after(self.program_counter, bytes),
            ..self
        }
    }

    /// The byte at the program counter.
    pub open spec fn fetch(self) -> u8 {
        self.memory[self.program_counter as int]
    }

    /// This state with `value` stored at `address`.
    pub open spec fn store(self, address: u16, value: u8) -> MachineState {
        MachineState { memory: self.memory.update(address as int, value), ..self }
    }

    /// This state with `registers` in place of the register file.
    pub open spec fn with_registers(self, registers: RegisterState) -> MachineState {
        MachineState { registers, ..self }
    }

    /// The effect of a load, with the program counter at its opcode. The
    /// byte after the opcode is the less-significant byte of the word, the
    /// byte after that the more-significant one. The program counter ends
    /// on the last operand byte.
    pub open spec fn load(self, load_type: LoadType) -> MachineState {
        match load_type {
            LoadType::ImmediateWord(pair) => {
                let low = self.advance(1).fetch();
                let high = self.advance(2).fetch();
                self.advance(2).with_registers(self.registers.write16(pair, word_of(high, low)))
            },
        }
    }

    /// The effect of an XOR: the accumulator becomes the XOR of its old
    /// value and the source, Zero says whether that is zero, and the other
    /// three flags are clear.
    pub open spec fn xor(self, target: XORTarget) -> MachineState {
        match target {
            XORTarget::Register(source) => {
                let result = self.registers.a ^ self.registers.read8(source);
                self.with_registers(
                    RegisterState {
                        a: result,
                        zero: result == 0,
                        subtract: false,
                        half_carry: false,
                        carry: false,
                        ..self.registers
                    },
                )
            },
        }
    }

    /// The effect of a bit test: Zero becomes the negation of the tested
    /// bit, Subtract is cleared, Half-carry is set. Carry and all registers
    /// stay as they are.
    pub open spec fn bit(self, index: u8, register: Register) -> MachineState {
        self.with_registers(
            RegisterState {
                zero: !bit_is_set(self.registers.read8(register), index),
                subtract: false,
                half_carry: true,
                ..self.registers
            },
        )
    }

    /// The effect of the prefix byte, with the program counter at it: the
    /// program counter moves to the byte that follows, and that byte is
    /// decoded and executed as a prefixed instruction.
    pub open spec fn prefixed(self) -> MachineState {
        let at_second = self.advance(1);
        match PrefixedInstruction::spec_decode(at_second.fetch()) {
            PrefixedInstruction::Bit(index, register) => at_second.bit(index, register),
            PrefixedInstruction::NoOp => at_second,
        }
    }

    /// The effect of `instruction`, with the program counter at its
    /// opcode: the instruction's own effect, then the program counter moves
    /// on by one more byte.
    pub open spec fn execute(self, instruction: Instruction) -> MachineState {
        (match instruction {
            Instruction::XOR(target) => self.xor(target),
            Instruction::Load(load_type) => self.load(load_type),
            Instruction::Prefixed => self.prefixed(),
            Instruction::NoOp => self,
        }).advance(1)
    }

    /// One step of the machine: the byte at the program counter is decoded
    /// and executed.
    pub open spec fn step(self) -> MachineState {
        self.execute(Instruction::spec_decode(self.fetch()))
    }
}

/// The processor.
pub struct CPU {
    program_counter: u16,
    registers: RegisterFile,
    memory: Memory,
}

impl View for CPU {
    type V = MachineState;

    closed spec fn view(&self) -> MachineState {
        MachineState {
            program_counter: self.program_counter,
            registers: self.registers@,
            memory: self.memory@,
        }
    }
}

impl CPU {
    /// The memory of every processor holds exactly `MEMORY_SIZE` bytes.
    pub proof fn lemma_memory_size(&self)
        ensures
            self@.memory.len() == MEMORY_SIZE,
    {
        self.memory.lemma_size();
    }

    /// A processor with the program counter at address 0, all registers
    /// zero, all flags clear and all of memory zero.
    pub fn new() -> (cpu: CPU)
        ensures
            cpu@ == MachineState::initial(),
    {
        let registers = RegisterFile::new();
        let memory = Memory::new();
        CPU { program_counter: 0, registers, memory }
    }

    /// The address of the next byte to fetch.
    pub fn program_counter(&self) -> (address: u16)
        ensures
            address == self@.program_counter,
    {
        self.program_counter
    }

    /// The register file, for reading.
    pub fn registers(&self) -> (registers: &RegisterFile)
        ensures
            registers@ == self@.registers,
    {
        &self.registers
    }

    /// The memory, for reading.
    pub fn memory(&self) -> (memory: &Memory)
        ensures
            memory@ == self@.memory,
    {
        &self.memory
    }

    /// Stores `value` at `address`. This is how a program image gets into
    /// memory before the first step.
    pub fn write_memory(&mut self, address: u16, value: u8)
        ensures
            final(self)@ == old(self)@.store(address, value),
    {
        self.memory.write(address, value);
    }

    /// Writes one 8-bit register, as `RegisterFile::write8` does.
    pub fn write_register(&mut self, register: Register, value: u8)
        ensures
            final(self)@ == old(self)@.with_registers(
                old(self)@.registers.write8(register, value),
            ),
    {
        self.registers.write8(register, value);
    }

    /// Moves the program counter on by one byte and returns the byte it
    /// then points at.
    fn next_byte(&mut self) -> (value: u8)
        ensures
            final(self)@ == old(self)@.advance(1),
            value == final(self)@.fetch(),
    {
        self.program_counter = self.program_counter.wrapping_add(1);
        self.memory.read(self.program_counter)
    }

    /// Executes a load whose opcode is at the program counter.
    pub fn execute_load_instruction(&mut self, load_type: LoadType)
        ensures
            final(self)@ == old(self)@.load(load_type),
    {
        match load_type {
            LoadType::ImmediateWord(reg) => {
                let lower_byte: u8 = self.next_byte();
                let higher_byte: u8 = self.next_byte();

                let word: u16 = bytes_to_word(higher_byte, lower_byte);

                self.registers.write16(reg, word);
            },
        }
    }

    /// Executes an XOR into the accumulator.
    pub fn execute_xor_instruction(&mut self, target: XORTarget)
        ensures
            final(self)@ == old(self)@.xor(target),
    {
        match target {
            XORTarget::Register(reg) => {
                let a_reg: u8 = self.registers.read8(Register::A);
                let val: u8 = self.registers.read8(reg);
                let xor_result: u8 = a_reg ^ val;

                self.registers.write8(Register::A, xor_result);
                // Clear all four flags before Zero is set from the result.
                self.registers.write8(Register::F, 0);
                self.registers.set_flag(Flag::Z, xor_result == 0);
                proof {
                    lemma_zero_has_no_bits();
                }
            },
        }
    }

    /// Executes a bit test. It changes flags only.
    pub fn execute_bit_instruction(&mut self, index: u8, reg: Register)
        requires
            index < 8,
        ensures
            final(self)@ == old(self)@.bit(index, reg),
    {
        let value: u8 = self.registers.read8(reg);
        let bit: bool = test_bit(value, index);

        self.registers.set_flag(Flag::Z, !bit);
        self.registers.set_flag(Flag::N, false);
        self.registers.set_flag(Flag::H, true);
    }

    /// Executes the prefix byte at the program counter together with the
    /// prefixed opcode that follows it.
    pub fn execute_prefixed_instruction(&mut self)
        ensures
            final(self)@ == old(self)@.prefixed(),
    {
        let opcode: u8 = self.next_byte();
        let instruction = PrefixedInstruction::decode(opcode);

        match instruction {
            PrefixedInstruction::Bit(index, reg) => self.execute_bit_instruction(index, reg),
            PrefixedInstruction::NoOp => (),
        };
    }

    /// Executes `instruction`, whose opcode is at the program counter, and
    /// moves the program counter past it.
    pub fn execute(&mut self, instruction: Instruction)
        ensures
            final(self)@ == old(self)@.execute(instruction),
    {
        match instruction {
            Instruction::XOR(target) => self.execute_xor_instruction(target),
            Instruction::Load(load_type) => self.execute_load_instruction(load_type),
            Instruction::Prefixed => self.execute_prefixed_instruction(),
            Instruction::NoOp => (),
        };

        self.program_counter = self.program_counter.wrapping_add(1);
    }

    /// Fetches the byte at the program counter, decodes it and executes the
    /// instruction. Every byte is executable, so a step never fails.
    pub fn step(&mut self)
        ensures
            final(self)@ == old(self)@.step(),
    {
        let opcode: u8 = self.memory.read(self.program_counter);

        let instruction = Instruction::decode(opcode);

        self.execute(instruction);
    }
}

/// XOR of the accumulator with itself leaves zero in it and sets Zero. XOR
/// with any source sets Zero exactly when the source held the
/// accumulator's value, so two distinct values clear Zero and leave a
/// nonzero accumulator. Subtract, Half-carry and Carry are clear
/// afterwards, and the lower nibble of `F` is zero.
pub proof fn lemma_xor_sets_zero_flag(state: MachineState, source: Register)
    ensures
        state.xor(XORTarget::Register(Register::A)).registers.read8(Register::A) == 0,
        state.xor(XORTarget::Register(Register::A)).registers.flag(Flag::Z),
        state.xor(XORTarget::Register(source)).registers.flag(Flag::Z) == (state.registers.read8(
            source,
        ) == state.registers.read8(Register::A)),
        state.xor(XORTarget::Register(source)).registers.flag(Flag::Z) == (state.xor(
            XORTarget::Register(source),
        ).registers.read8(Register::A) == 0),
        !state.xor(XORTarget::Register(source)).registers.flag(Flag::N),
        !state.xor(XORTarget::Register(source)).registers.flag(Flag::H),
        !state.xor(XORTarget::Register(source)).registers.flag(Flag::C),
        state.xor(XORTarget::Register(source)).registers.read8(Register::F) & 0x0F == 0,
{
    let a = state.registers.a;
    let v = state.registers.read8(source);
    assert((a ^ v == 0) == (a == v)) by (bit_vector);
    assert(a ^ a == 0) by (bit_vector);
    lemma_flag_is_bit_of_f(state.xor(XORTarget::Register(source)).registers, Flag::Z);
}

/// A bit test of a register whose bit `index` is set clears Zero; one whose
/// bit `index` is clear sets Zero. Either way Half-carry is set, Subtract
/// is clear and Carry is as before, and neither a register other than `F`,
/// nor memory, nor the program counter has changed.
pub proof fn lemma_bit_test_flags(state: MachineState, index: u8, register: Register)
    requires
        index < 8,
    ensures
        state.bit(index, register).registers.flag(Flag::Z) == !bit_is_set(
            state.registers.read8(register),
            index,
        ),
        state.bit(index, register).registers.flag(Flag::H),
        !state.bit(index, register).registers.flag(Flag::N),
        state.bit(index, register).registers.flag(Flag::C) == state.registers.flag(Flag::C),
        forall|other: Register|
            other != Register::F ==> #[trigger] state.bit(index, register).registers.read8(other)
                == state.registers.read8(other),
        state.bit(index, register).memory == state.memory,
        state.bit(index, register).program_counter == state.program_counter,
{
}

/// A step moves the program counter on by exactly the length of the
/// instruction at it, wrapping at the top of the address space: three
/// bytes for a load of an immediate word, two for a prefixed instruction,
/// one for everything else.
pub proof fn lemma_step_advances_by_length(state: MachineState)
    ensures
        state.step().program_counter == MachineState::address_after(
            state.program_counter,
            Instruction::spec_decode(state.fetch()).length(),
        ),
{
}

/// No instruction of this set writes memory.
pub proof fn lemma_step_preserves_memory(state: MachineState)
    ensures
        state.step().memory == state.memory,
{
}

/// A byte that encodes no instruction is skipped: the step changes no
/// register, no flag and no byte of memory, and moves the program counter
/// on by one.
pub proof fn lemma_step_skips_unknown_opcode(state: MachineState)
    requires
        Instruction::spec_decode(state.fetch()) == Instruction::NoOp,
    ensures
        state.step().registers == state.registers,
        state.step().memory == state.memory,
        state.step().program_counter == MachineState::address_after(state.program_counter, 1),
{
}

/// A load of an immediate word leaves in the pair the word whose
/// less-significant byte follows the opcode and whose more-significant
/// byte comes after that, and changes no register outside the pair and no
/// flag.
pub proof fn lemma_load_immediate_word(state: MachineState, pair: RegisterPair)
    ensures
        state.load(LoadType::ImmediateWord(pair)).registers.read16(pair) == word_of(
            state.memory[MachineState::address_after(state.program_counter, 2) as int],
            state.memory[MachineState::address_after(state.program_counter, 1) as int],
        ),
        forall|other: Register|
            other != pair.spec_high() && other != pair.spec_low() ==> #[trigger] state.load(
                LoadType::ImmediateWord(pair),
            ).registers.read8(other) == state.registers.read8(other),
{
    let low = state.advance(1).fetch();
    let high = state.advance(2).fetch();
    lemma_write16_read16(state.registers, pair, word_of(high, low));
}

} // verus!
