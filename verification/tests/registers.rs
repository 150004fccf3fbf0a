use cpu_core::hardware::registers::{Flag, Register, RegisterFile, RegisterPair};

const REGISTERS: [Register; 8] = [
    Register::A,
    Register::B,
    Register::C,
    Register::D,
    Register::E,
    Register::F,
    Register::H,
    Register::L,
];

const PAIRS: [RegisterPair; 3] = [RegisterPair::BC, RegisterPair::DE, RegisterPair::HL];

const FLAGS: [Flag; 4] = [Flag::Z, Flag::N, Flag::H, Flag::C];

#[test]
fn new_register_file_is_all_zero() {
    let registers = RegisterFile::new();
    for register in REGISTERS {
        assert_eq!(registers.read8(register), 0);
    }
    for pair in PAIRS {
        assert_eq!(registers.read16(pair), 0);
    }
    for flag in FLAGS {
        assert!(!registers.get_flag(flag));
    }
}

#[test]
fn write8_then_read8_returns_the_byte() {
    for register in REGISTERS {
        if register == Register::F {
            continue;
        }
        for value in [0x00u8, 0x01, 0x0F, 0x7F, 0x80, 0xA5, 0xFF] {
            let mut registers = RegisterFile::new();
            registers.write8(register, value);
            assert_eq!(registers.read8(register), value);
            for other in REGISTERS {
                if other != register {
                    assert_eq!(registers.read8(other), 0);
                }
            }
        }
    }
}

#[test]
fn write8_to_flags_register_keeps_only_the_upper_nibble() {
    let mut registers = RegisterFile::new();
    registers.write8(Register::F, 0xFF);
    assert_eq!(registers.read8(Register::F), 0xF0);
    registers.write8(Register::F, 0x0F);
    assert_eq!(registers.read8(Register::F), 0x00);
    registers.write8(Register::F, 0xA5);
    assert_eq!(registers.read8(Register::F), 0xA0);
    assert!(registers.get_flag(Flag::Z));
    assert!(!registers.get_flag(Flag::N));
    assert!(registers.get_flag(Flag::H));
    assert!(!registers.get_flag(Flag::C));
}

#[test]
fn write16_then_read16_returns_the_word() {
    for pair in PAIRS {
        for value in [0x0000u16, 0x0001, 0x00FF, 0x0100, 0x1234, 0x8000, 0xABCD, 0xFFFF] {
            let mut registers = RegisterFile::new();
            registers.write16(pair, value);
            assert_eq!(registers.read16(pair), value);
            assert_eq!(registers.read8(pair.high()), (value >> 8) as u8);
            assert_eq!(registers.read8(pair.low()), (value & 0xFF) as u8);
        }
    }
}

#[test]
fn write16_exhaustive_round_trip_on_hl() {
    let mut registers = RegisterFile::new();
    for value in 0..=u16::MAX {
        registers.write16(RegisterPair::HL, value);
        assert_eq!(registers.read16(RegisterPair::HL), value);
    }
}

#[test]
fn write16_splits_big_endian_across_the_two_halves() {
    let mut registers = RegisterFile::new();
    registers.write16(RegisterPair::BC, 0x1234);
    assert_eq!(registers.read8(Register::B), 0x12);
    assert_eq!(registers.read8(Register::C), 0x34);
    registers.write16(RegisterPair::DE, 0x5678);
    assert_eq!(registers.read8(Register::D), 0x56);
    assert_eq!(registers.read8(Register::E), 0x78);
    registers.write16(RegisterPair::HL, 0x9ABC);
    assert_eq!(registers.read8(Register::H), 0x9A);
    assert_eq!(registers.read8(Register::L), 0xBC);
    // Nothing outside the three pairs was touched.
    assert_eq!(registers.read8(Register::A), 0);
    assert_eq!(registers.read8(Register::F), 0);
    // The earlier pairs kept their words.
    assert_eq!(registers.read16(RegisterPair::BC), 0x1234);
    assert_eq!(registers.read16(RegisterPair::DE), 0x5678);
}

#[test]
fn read16_composes_the_two_halves() {
    let mut registers = RegisterFile::new();
    registers.write8(Register::H, 0xC0);
    registers.write8(Register::L, 0xDE);
    assert_eq!(registers.read16(RegisterPair::HL), 0xC0DE);
}

#[test]
fn pair_halves_are_the_named_registers() {
    assert_eq!(RegisterPair::BC.high(), Register::B);
    assert_eq!(RegisterPair::BC.low(), Register::C);
    assert_eq!(RegisterPair::DE.high(), Register::D);
    assert_eq!(RegisterPair::DE.low(), Register::E);
    assert_eq!(RegisterPair::HL.high(), Register::H);
    assert_eq!(RegisterPair::HL.low(), Register::L);
}

#[test]
fn flag_masks_are_the_upper_four_bits() {
    assert_eq!(Flag::Z.mask(), 0x80);
    assert_eq!(Flag::N.mask(), 0x40);
    assert_eq!(Flag::H.mask(), 0x20);
    assert_eq!(Flag::C.mask(), 0x10);
}

#[test]
fn set_flag_then_get_flag_returns_the_value() {
    // From every one of the sixteen flag combinations, set or clear each
    // flag and see that it alone changed.
    for start in 0u8..16 {
        for flag in FLAGS {
            for value in [false, true] {
                let mut registers = RegisterFile::new();
                registers.write8(Register::F, start << 4);
                let before: Vec<bool> = FLAGS.iter().map(|f| registers.get_flag(*f)).collect();
                registers.set_flag(flag, value);
                assert_eq!(registers.get_flag(flag), value);
                for (i, other) in FLAGS.iter().enumerate() {
                    if *other != flag {
                        assert_eq!(registers.get_flag(*other), before[i]);
                    }
                }
                assert_eq!(registers.read8(Register::F) & 0x0F, 0);
            }
        }
    }
}

#[test]
fn set_flag_sets_exactly_its_bit_of_f() {
    for flag in FLAGS {
        let mut registers = RegisterFile::new();
        registers.set_flag(flag, true);
        assert_eq!(registers.read8(Register::F), flag.mask());
        registers.set_flag(flag, false);
        assert_eq!(registers.read8(Register::F), 0);
    }
    let mut registers = RegisterFile::new();
    registers.set_flag(Flag::Z, true);
    registers.set_flag(Flag::C, true);
    assert_eq!(registers.read8(Register::F), 0x90);
    registers.set_flag(Flag::Z, false);
    assert_eq!(registers.read8(Register::F), 0x10);
}

#[test]
fn set_flag_leaves_the_other_registers_alone() {
    let mut registers = RegisterFile::new();
    registers.write8(Register::A, 0x11);
    registers.write16(RegisterPair::BC, 0x2233);
    registers.write16(RegisterPair::DE, 0x4455);
    registers.write16(RegisterPair::HL, 0x6677);
    for flag in FLAGS {
        registers.set_flag(flag, true);
    }
    assert_eq!(registers.read8(Register::A), 0x11);
    assert_eq!(registers.read16(RegisterPair::BC), 0x2233);
    assert_eq!(registers.read16(RegisterPair::DE), 0x4455);
    assert_eq!(registers.read16(RegisterPair::HL), 0x6677);
    assert_eq!(registers.read8(Register::F), 0xF0);
}
