//! The register file: eight 8-bit cells, three 16-bit pairings of them, and
//! the four condition flags packed into the upper nibble of `F`.

use vstd::prelude::*;
use crate::utils::{bytes_to_word, high_byte_of, low_byte_of, word_of, word_to_bytes};

verus! {

/// The eight 8-bit registers. `A` is the accumulator, `F` holds the flags.
#[derive(Clone, Copy, Debug, PartialEq, Eq, Structural)]
pub enum Register {
    A,
    B,
    C,
    D,
    E,
    F,
    H,
    L,
}

/// The pairings of two 8-bit registers that are addressable as one 16-bit
/// register. The first letter names the more-significant half. No pair
/// contains `F`, whose lower nibble cannot hold what is written to it, so a
/// word written to a pair always reads back unchanged.
#[derive(Clone, Copy, Debug, PartialEq, Eq, Structural)]
pub enum RegisterPair {
    BC,
    DE,
    HL,
}

/// The four condition flags.
#[derive(Clone, Copy, Debug, PartialEq, Eq, Structural)]
pub enum Flag {
    /// Zero: the last result was zero.
    Z,
    /// Subtract: the last operation was a subtraction.
    N,
    /// Half-carry: carry out of the lower nibble.
    H,
    /// Carry: carry out of the byte.
    C,
}

impl Flag {
    /// The bit of `F` that holds this flag.
    pub open spec fn spec_mask(self) -> u8 {
        match self {
            Flag::Z => 0x80,
            Flag::N => 0x40,
            Flag::H => 0x20,
            Flag::C => 0x10,
        }
    }

    /// The bit of `F` that holds this flag.
    #[verifier::when_used_as_spec(spec_mask)]
    pub fn mask(self) -> (m: u8)
        ensures
            m == self.spec_mask(),
    {
        match self {
            Flag::Z => 0x80,
            Flag::N => 0x40,
            Flag::H => 0x20,
            Flag::C => 0x10,
        }
    }
}

impl RegisterPair {
    /// The register that holds the more-significant byte of the pair.
    pub open spec fn spec_high(self) -> Register {
        match self {
            RegisterPair::BC => Register::B,
            RegisterPair::DE => Register::D,
            RegisterPair::HL => Register::H,
        }
    }

    /// The register that holds the less-significant byte of the pair.
    pub open spec fn spec_low(self) -> Register {
        match self {
            RegisterPair::BC => Register::C,
            RegisterPair::DE => Register::E,
            RegisterPair::HL => Register::L,
        }
    }

    /// The register that holds the more-significant byte of the pair.
    #[verifier::when_used_as_spec(spec_high)]
    pub fn high(self) -> (r: Register)
        ensures
            r == self.spec_high(),
    {
        match self {
            RegisterPair::BC => Register::B,
            RegisterPair::DE => Register::D,
            RegisterPair::HL => Register::H,
        }
    }

    /// The register that holds the less-significant byte of the pair.
    #[verifier::when_used_as_spec(spec_low)]
    pub fn low(self) -> (r: Register)
        ensures
            r == self.spec_low(),
    {
        match self {
            RegisterPair::BC => Register::C,
            RegisterPair::DE => Register::E,
            RegisterPair::HL => Register::L,
        }
    }
}

/// What a register file holds, as a mathematical value: seven bytes and
/// four booleans. The flags register has no byte of its own here; its
/// value is derived from the four flags by `flags_byte`, so its lower
/// nibble is zero by construction.
pub struct RegisterState {
    pub a: u8,
    pub b: u8,
    pub c: u8,
    pub d: u8,
    pub e: u8,
    pub h: u8,
    pub l: u8,
    pub zero: bool,
    pub subtract: bool,
    pub half_carry: bool,
    pub carry: bool,
}

impl RegisterState {
    /// All registers zero, all flags clear.
    pub open spec fn zeroed() -> RegisterState {
        RegisterState {
            a: 0,
            b: 0,
            c: 0,
            d: 0,
            e: 0,
            h: 0,
            l: 0,
            zero: false,
            subtract: false,
            half_carry: false,
            carry: false,
        }
    }

    /// Whether `flag` is set.
    pub open spec fn flag(self, flag: Flag) -> bool {
        match flag {
            Flag::Z => self.zero,
            Flag::N => self.subtract,
            Flag::H => self.half_carry,
            Flag::C => self.carry,
        }
    }

    /// This state with `flag` set to `value` and nothing else changed.
    pub open spec fn set_flag(self, flag: Flag, value: bool) -> RegisterState {
        match flag {
            Flag::Z => RegisterState { zero: value, ..self },
            Flag::N => RegisterState { subtract: value, ..self },
            Flag::H => RegisterState { half_carry: value, ..self },
            Flag::C => RegisterState { carry: value, ..self },
        }
    }

    /// The byte read from `F`: the sum of the masks of the flags that are set.
    pub open spec fn flags_byte(self) -> u8 {
        ((if self.zero { 0x80int } else { 0 })
            + (if self.subtract { 0x40int } else { 0 })
            + (if self.half_carry { 0x20int } else { 0 })
            + (if self.carry { 0x10int } else { 0 })) as u8
    }

    /// The byte read from `register`.
    pub open spec fn read8(self, register: Register) -> u8 {
        match register {
            Register::A => self.a,
            Register::B => self.b,
            Register::C => self.c,
            Register::D => self.d,
            Register::E => self.e,
            Register::F => self.flags_byte(),
            Register::H => self.h,
            Register::L => self.l,
        }
    }

    /// This state after `value` is written to `register`. A write to `F`
    /// sets each flag from its bit of `value`; bits 0 to 3 of `value` are
    /// not stored anywhere.
    pub open spec fn write8(self, register: Register, value: u8) -> RegisterState {
        match register {
            Register::A => RegisterState { a: value, ..self },
            Register::B => RegisterState { b: value, ..self },
            Register::C => RegisterState { c: value, ..self },
            Register::D => RegisterState { d: value, ..self },
            Register::E => RegisterState { e: value, ..self },
            Register::F => RegisterState {
                zero: value & Flag::Z.spec_mask() != 0,
                subtract: value & Flag::N.spec_mask() != 0,
                half_carry: value & Flag::H.spec_mask() != 0,
                carry: value & Flag::C.spec_mask() != 0,
                ..self
            },
            Register::H => RegisterState { h: value, ..self },
            Register::L => RegisterState { l: value, ..self },
        }
    }

    /// The word read from `pair`: its high register is the
    /// more-significant byte.
    pub open spec fn read16(self, pair: RegisterPair) -> u16 {
        word_of(self.read8(pair.spec_high()), self.read8(pair.spec_low()))
    }

    /// This state after `value` is written to `pair`: the more-significant
    /// byte goes to the high register, the less-significant to the low one.
    pub open spec fn write16(self, pair: RegisterPair, value: u16) -> RegisterState {
        self.write8(pair.spec_high(), high_byte_of(value)).write8(
            pair.spec_low(),
            low_byte_of(value),
        )
    }
}

/// The register file. The flags live in the upper nibble of one byte; the
/// lower nibble of that byte is always zero.
pub struct RegisterFile {
    a: u8,
    b: u8,
    c: u8,
    d: u8,
    e: u8,
    f: u8,
    h: u8,
    l: u8,
}

impl View for RegisterFile {
    type V = RegisterState;

    closed spec fn view(&self) -> RegisterState {
        RegisterState {
            a: self.a,
            b: self.b,
            c: self.c,
            d: self.d,
            e: self.e,
            h: self.h,
            l: self.l,
            zero: self.f & 0x80 != 0,
            subtract: self.f & 0x40 != 0,
            half_carry: self.f & 0x20 != 0,
            carry: self.f & 0x10 != 0,
        }
    }
}

impl RegisterFile {
    #[verifier::type_invariant]
    spec fn low_nibble_clear(self) -> bool {
        self.f & 0x0F == 0
    }

    /// A register file with every register zero and every flag clear.
    pub fn new() -> (registers: RegisterFile)
        ensures
            registers@ == RegisterState::zeroed(),
    {
        proof {
            lemma_zero_has_no_bits();
        }
        RegisterFile { a: 0, b: 0, c: 0, d: 0, e: 0, f: 0, h: 0, l: 0 }
    }

    /// Reads one 8-bit register.
    pub fn read8(&self, register: Register) -> (value: u8)
        ensures
            value == self@.read8(register),
    {
        proof {
            use_type_invariant(self);
            lemma_decompose_flag_bits(self.f);
            lemma_upper_nibble(self.f);
        }
        match register {
            Register::A => self.a,
            Register::B => self.b,
            Register::C => self.c,
            Register::D => self.d,
            Register::E => self.e,
            Register::F => self.f,
            Register::H => self.h,
            Register::L => self.l,
        }
    }

    /// Writes one 8-bit register. Of a byte written to `F` only the upper
    /// nibble is kept.
    pub fn write8(&mut self, register: Register, value: u8)
        ensures
            final(self)@ == old(self)@.write8(register, value),
    {
        proof {
            use_type_invariant(&*self);
        }
        match register {
            Register::A => { self.a = value; },
            Register::B => { self.b = value; },
            Register::C => { self.c = value; },
            Register::D => { self.d = value; },
            Register::E => { self.e = value; },
            Register::F => {
                proof {
                    lemma_upper_nibble(value);
                }
                self.f = value & 0xF0;
            },
            Register::H => { self.h = value; },
            Register::L => { self.l = value; },
        }
    }

    /// Reads a register pair as one word, the high register first.
    pub fn read16(&self, pair: RegisterPair) -> (value: u16)
        ensures
            value == self@.read16(pair),
    {
        let high: u8 = self.read8(pair.high());
        let low: u8 = self.read8(pair.low());
        bytes_to_word(high, low)
    }

    /// Writes a word to a register pair: its more-significant byte to the
    /// high register, its less-significant byte to the low register.
    pub fn write16(&mut self, pair: RegisterPair, value: u16)
        ensures
            final(self)@ == old(self)@.write16(pair, value),
    {
        let (high, low) = word_to_bytes(value);
        self.write8(pair.high(), high);
        self.write8(pair.low(), low);
    }

    /// Tests one flag.
    pub fn get_flag(&self, flag: Flag) -> (set: bool)
        ensures
            set == self@.flag(flag),
    {
        self.f & flag.mask() != 0
    }

    /// Sets or clears one flag. The other three flags, the lower nibble of
    /// `F` and the other registers stay as they are.
    pub fn set_flag(&mut self, flag: Flag, value: bool)
        ensures
            final(self)@ == old(self)@.set_flag(flag, value),
    {
        proof {
            use_type_invariant(&*self);
            lemma_change_one_bit(self.f, flag.mask());
        }
        if value {
            self.f = self.f | flag.mask();
        } else {
            self.f = self.f & !flag.mask();
        }
    }
}

/// The zero byte has none of the four flag bits and nothing in its lower
/// nibble.
pub(crate) proof fn lemma_zero_has_no_bits()
    by (bit_vector)
    ensures
        0u8 & 0x0F == 0,
        0u8 & 0x80 == 0,
        0u8 & 0x40 == 0,
        0u8 & 0x20 == 0,
        0u8 & 0x10 == 0,
{
}

/// The upper nibble of a byte has the byte's four flag bits and nothing in
/// its lower nibble; a byte with nothing in its lower nibble is its own
/// upper nibble.
proof fn lemma_upper_nibble(v: u8)
    by (bit_vector)
    ensures
        (v & 0xF0) & 0x0F == 0,
        (v & 0xF0) & 0x80 == v & 0x80,
        (v & 0xF0) & 0x40 == v & 0x40,
        (v & 0xF0) & 0x20 == v & 0x20,
        (v & 0xF0) & 0x10 == v & 0x10,
        v & 0x0F == 0 ==> v & 0xF0 == v,
{
}

/// Setting or clearing one of the four flag bits of a byte whose lower
/// nibble is zero changes that bit and no other.
proof fn lemma_change_one_bit(f: u8, m: u8)
    by (bit_vector)
    requires
        f & 0x0F == 0,
        m == 0x80 || m == 0x40 || m == 0x20 || m == 0x10,
    ensures
        (f | m) & 0x0F == 0,
        (f & !m) & 0x0F == 0,
        (f | m) & m != 0,
        (f & !m) & m == 0,
        m != 0x80 ==> (f | m) & 0x80 == f & 0x80 && (f & !m) & 0x80 == f & 0x80,
        m != 0x40 ==> (f | m) & 0x40 == f & 0x40 && (f & !m) & 0x40 == f & 0x40,
        m != 0x20 ==> (f | m) & 0x20 == f & 0x20 && (f & !m) & 0x20 == f & 0x20,
        m != 0x10 ==> (f | m) & 0x10 == f & 0x10 && (f & !m) & 0x10 == f & 0x10,
{
}

/// A byte composed of the four flag masks has each flag at its own bit and
/// nothing in the lower nibble.
proof fn lemma_compose_flag_bits(z: bool, n: bool, h: bool, c: bool, f: u8)
    by (bit_vector)
    requires
        f == (if z { 0x80u8 } else { 0 }) + (if n { 0x40u8 } else { 0 }) + (if h { 0x20u8 } else {
            0
        }) + (if c { 0x10u8 } else { 0 }),
    ensures
        f & 0x0F == 0,
        (f & 0x80 != 0) == z,
        (f & 0x40 != 0) == n,
        (f & 0x20 != 0) == h,
        (f & 0x10 != 0) == c,
{
}

/// The four flag bits of a byte, composed again, are its upper nibble.
proof fn lemma_decompose_flag_bits(v: u8)
    by (bit_vector)
    ensures
        (if v & 0x80 != 0 { 0x80u8 } else { 0 }) + (if v & 0x40 != 0 { 0x40u8 } else { 0 }) + (if v
            & 0x20 != 0 { 0x20u8 } else { 0 }) + (if v & 0x10 != 0 { 0x10u8 } else { 0 }) == v
            & 0xF0,
{
}

/// Each flag is one bit of `F`, the bit that its mask names, and the lower
/// nibble of `F` is zero in every state.
pub proof fn lemma_flag_is_bit_of_f(state: RegisterState, flag: Flag)
    ensures
        state.flag(flag) == (state.read8(Register::F) & flag.spec_mask() != 0),
        state.read8(Register::F) & 0x0F == 0,
{
    lemma_compose_flag_bits(
        state.zero,
        state.subtract,
        state.half_carry,
        state.carry,
        state.flags_byte(),
    );
}

/// A flag that was just set or cleared reads back as written, and neither
/// another flag nor a register other than `F` has changed.
pub proof fn lemma_set_flag_get_flag(state: RegisterState, flag: Flag, value: bool)
    ensures
        state.set_flag(flag, value).flag(flag) == value,
        forall|other: Flag|
            other != flag ==> #[trigger] state.set_flag(flag, value).flag(other) == state.flag(
                other,
            ),
        forall|register: Register|
            register != Register::F ==> #[trigger] state.set_flag(flag, value).read8(register)
                == state.read8(register),
{
}

/// A byte written to a register other than `F` reads back unchanged; of a
/// byte written to `F` the upper nibble reads back. No other register
/// changes.
pub proof fn lemma_write8_read8(state: RegisterState, register: Register, value: u8)
    ensures
        register != Register::F ==> state.write8(register, value).read8(register) == value,
        register == Register::F ==> state.write8(register, value).read8(register) == value & 0xF0,
        forall|other: Register|
            other != register ==> #[trigger] state.write8(register, value).read8(other)
                == state.read8(other),
{
    lemma_decompose_flag_bits(value);
}

/// A word written to a pair reads back unchanged. After the write the
/// pair's high register holds the word's more-significant byte and its low
/// register the less-significant byte, and no register outside the pair
/// has changed.
pub proof fn lemma_write16_read16(state: RegisterState, pair: RegisterPair, value: u16)
    ensures
        state.write16(pair, value).read16(pair) == value,
        state.write16(pair, value).read8(pair.spec_high()) == high_byte_of(value),
        state.write16(pair, value).read8(pair.spec_low()) == low_byte_of(value),
        forall|other: Register|
            other != pair.spec_high() && other != pair.spec_low() ==> #[trigger] state.write16(
                pair,
                value,
            ).read8(other) == state.read8(other),
{
}

} // verus!
