use sm83_core::registers::{high_byte, low_byte, make_word, Flag, Register, Registers};

#[test]
fn new_registers_are_zero() {
    let regs = Registers::new();
    for reg in [
        Register::A,
        Register::B,
        Register::C,
        Register::D,
        Register::E,
        Register::H,
        Register::L,
        Register::F,
    ] {
        assert_eq!(regs.get_8(&reg), 0);
    }
    for pair in [Register::BC, Register::DE, Register::HL] {
        assert_eq!(regs.get_16(&pair), 0);
    }
    for flag in [Flag::Z, Flag::N, Flag::H, Flag::C] {
        assert!(!regs.get_flag(&flag));
    }
}

#[test]
fn byte_registers_are_independent() {
    let mut regs = Registers::new();
    let names = [
        Register::A,
        Register::B,
        Register::C,
        Register::D,
        Register::E,
        Register::H,
        Register::L,
    ];
    for (i, reg) in names.iter().enumerate() {
        regs.set_8(reg, 0x10 + i as u8);
    }
    for (i, reg) in names.iter().enumerate() {
        assert_eq!(regs.get_8(reg), 0x10 + i as u8);
    }
    assert_eq!(regs.get_8(&Register::F), 0);
}

#[test]
fn pair_set_shows_in_both_halves_for_every_value() {
    let mut regs = Registers::new();
    for v in 0u32..=0xFFFF {
        let v = v as u16;
        regs.set_16(&Register::HL, v);
        assert_eq!(regs.get_8(&Register::H), (v >> 8) as u8);
        assert_eq!(regs.get_8(&Register::L), (v & 0xFF) as u8);
        assert_eq!(regs.get_16(&Register::HL), v);
    }
}

#[test]
fn pairs_are_views_over_their_halves() {
    let mut regs = Registers::new();
    regs.set_16(&Register::BC, 0xBEEF);
    regs.set_16(&Register::DE, 0x1234);
    regs.set_16(&Register::HL, 0xCAFE);
    assert_eq!(regs.get_8(&Register::B), 0xBE);
    assert_eq!(regs.get_8(&Register::C), 0xEF);
    assert_eq!(regs.get_8(&Register::D), 0x12);
    assert_eq!(regs.get_8(&Register::E), 0x34);
    assert_eq!(regs.get_8(&Register::H), 0xCA);
    assert_eq!(regs.get_8(&Register::L), 0xFE);
    regs.set_8(&Register::B, 0x01);
    assert_eq!(regs.get_16(&Register::BC), 0x01EF);
    regs.set_8(&Register::E, 0xFF);
    assert_eq!(regs.get_16(&Register::DE), 0x12FF);
    regs.set_8(&Register::H, 0x00);
    regs.set_8(&Register::L, 0x01);
    assert_eq!(regs.get_16(&Register::HL), 0x0001);
    assert_eq!(regs.get_8(&Register::A), 0);
}

#[test]
fn word_helpers() {
    assert_eq!(make_word(0x12, 0x34), 0x1234);
    assert_eq!(make_word(0xFF, 0x00), 0xFF00);
    assert_eq!(make_word(0x00, 0xFF), 0x00FF);
    assert_eq!(high_byte(0xABCD), 0xAB);
    assert_eq!(low_byte(0xABCD), 0xCD);
}

#[test]
fn flags_sit_in_bits_seven_to_four() {
    let mut regs = Registers::new();
    regs.set_flag(&Flag::Z, true);
    assert_eq!(regs.get_8(&Register::F), 0x80);
    regs.set_flag(&Flag::N, true);
    assert_eq!(regs.get_8(&Register::F), 0xC0);
    regs.set_flag(&Flag::H, true);
    assert_eq!(regs.get_8(&Register::F), 0xE0);
    regs.set_flag(&Flag::C, true);
    assert_eq!(regs.get_8(&Register::F), 0xF0);
    regs.set_flag(&Flag::N, false);
    assert_eq!(regs.get_8(&Register::F), 0xB0);
    regs.set_flag(&Flag::Z, false);
    assert_eq!(regs.get_8(&Register::F), 0x30);
}

#[test]
fn set_flag_then_get_flag_for_all_flag_states() {
    let flags = [Flag::Z, Flag::N, Flag::H, Flag::C];
    for state in 0u8..16 {
        for (i, flag) in flags.iter().enumerate() {
            for value in [true, false] {
                let mut regs = Registers::new();
                regs.set_8(&Register::F, state << 4);
                let before: Vec<bool> = flags.iter().map(|f| regs.get_flag(f)).collect();
                regs.set_flag(flag, value);
                assert_eq!(regs.get_flag(flag), value);
                for (j, other) in flags.iter().enumerate() {
                    if j != i {
                        assert_eq!(regs.get_flag(other), before[j]);
                    }
                }
                assert_eq!(regs.get_8(&Register::F) & 0x0F, 0);
            }
        }
    }
}

#[test]
fn low_nibble_of_f_reads_zero_whatever_is_written() {
    let mut regs = Registers::new();
    for v in 0u16..=0xFF {
        regs.set_8(&Register::F, v as u8);
        assert_eq!(regs.get_8(&Register::F), (v as u8) & 0xF0);
        assert_eq!(regs.get_8(&Register::F) & 0x0F, 0);
    }
    regs.set_8(&Register::F, 0xFF);
    assert!(regs.get_flag(&Flag::Z));
    assert!(regs.get_flag(&Flag::N));
    assert!(regs.get_flag(&Flag::H));
    assert!(regs.get_flag(&Flag::C));
    regs.set_8(&Register::F, 0x0F);
    assert!(!regs.get_flag(&Flag::Z));
    assert!(!regs.get_flag(&Flag::C));
}

#[test]
fn set_flags_sets_all_four() {
    let mut regs = Registers::new();
    regs.set_8(&Register::A, 0x77);
    regs.set_flags(true, false, true, false);
    assert_eq!(regs.get_8(&Register::F), 0xA0);
    regs.set_flags(false, true, false, true);
    assert_eq!(regs.get_8(&Register::F), 0x50);
    assert_eq!(regs.get_8(&Register::A), 0x77);
}

#[test]
fn decode_register_8_table() {
    let regs = Registers::new();
    assert_eq!(regs.decode_register_8(0b000), Register::B);
    assert_eq!(regs.decode_register_8(0b001), Register::C);
    assert_eq!(regs.decode_register_8(0b010), Register::D);
    assert_eq!(regs.decode_register_8(0b011), Register::E);
    assert_eq!(regs.decode_register_8(0b100), Register::H);
    assert_eq!(regs.decode_register_8(0b101), Register::L);
    assert_eq!(regs.decode_register_8(0b110), Register::HL);
    assert_eq!(regs.decode_register_8(0b111), Register::A);
}

#[test]
fn decode_register_16_table() {
    let regs = Registers::new();
    assert_eq!(regs.decode_register_16(0b00), Register::BC);
    assert_eq!(regs.decode_register_16(0b01), Register::DE);
    assert_eq!(regs.decode_register_16(0b10), Register::HL);
}
