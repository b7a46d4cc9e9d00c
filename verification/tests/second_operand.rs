use emu::bitwise::{get_bit, get_bits};
use emu::text::{decimal_string, push_decimal};
use emu::{AluSecondOperandInfo, ShiftKind, ShiftOperator};

fn register(shift_op: ShiftOperator, shift_kind: ShiftKind, register: u32) -> AluSecondOperandInfo {
    AluSecondOperandInfo::Register { shift_op, shift_kind, register }
}

#[test]
fn immediate_with_base_ff_and_rotate_field_one() {
    let word = 0xE3A0_01FF;
    let operand = AluSecondOperandInfo::decode(word, true);
    assert_eq!(operand, AluSecondOperandInfo::Immediate { base: 0xFF, shift: 2 });
    assert_eq!(operand.to_string(), format!("#{}", 0xFFu32.rotate_right(2)));
    assert_eq!(operand.to_string(), "#3221225535");
}

#[test]
fn unshifted_register_five_is_written_alone() {
    let word = 0xE1A0_0005;
    let operand = AluSecondOperandInfo::decode(word, false);
    assert_eq!(operand, register(ShiftOperator::Immediate(0), ShiftKind::Lsl, 5));
    assert_eq!(operand.to_string(), "R5");
}

#[test]
fn immediate_rotation_is_twice_the_field() {
    for field in 0..16u32 {
        let operand = AluSecondOperandInfo::decode((field << 8) | 0xA5, true);
        assert_eq!(operand, AluSecondOperandInfo::Immediate { base: 0xA5, shift: field * 2 });
    }
}

#[test]
fn immediate_ignores_the_bits_above_the_twelfth() {
    let operand = AluSecondOperandInfo::decode(0xFFFF_F000 | 0x4F0, true);
    assert_eq!(operand, AluSecondOperandInfo::Immediate { base: 0xF0, shift: 8 });
}

#[test]
fn register_shifted_by_a_constant() {
    // R3, LSR #7: amount 7 in bits 7 to 11, kind 01 in bits 5 and 6.
    let word = (7 << 7) | (1 << 5) | 3;
    let operand = AluSecondOperandInfo::decode(word, false);
    assert_eq!(operand, register(ShiftOperator::Immediate(7), ShiftKind::Lsr, 3));
    assert_eq!(operand.to_string(), "R3, LSR #7");

    let word = (31 << 7) | (2 << 5) | 15;
    let operand = AluSecondOperandInfo::decode(word, false);
    assert_eq!(operand, register(ShiftOperator::Immediate(31), ShiftKind::Asr, 15));
    assert_eq!(operand.to_string(), "R15, ASR #31");
}

#[test]
fn register_shifted_by_a_register() {
    // R2, ROR R9: register 9 in bits 8 to 11, bit 4 set, kind 11.
    let word = (9 << 8) | (3 << 5) | (1 << 4) | 2;
    let operand = AluSecondOperandInfo::decode(word, false);
    assert_eq!(operand, register(ShiftOperator::Register(9), ShiftKind::Ror, 2));
    assert_eq!(operand.to_string(), "R2, ROR R9");

    // Bit 7 does not belong to the register's index.
    let word = (12 << 8) | (1 << 7) | (1 << 4) | 10;
    let operand = AluSecondOperandInfo::decode(word, false);
    assert_eq!(operand, register(ShiftOperator::Register(12), ShiftKind::Lsl, 10));
    assert_eq!(operand.to_string(), "R10, LSL R12");
}

#[test]
fn every_shift_kind_field_decodes() {
    let kinds = [ShiftKind::Lsl, ShiftKind::Lsr, ShiftKind::Asr, ShiftKind::Ror];
    for (field, kind) in kinds.iter().enumerate() {
        let word = (1 << 7) | ((field as u32) << 5) | 1;
        let operand = AluSecondOperandInfo::decode(word, false);
        assert_eq!(operand, register(ShiftOperator::Immediate(1), *kind, 1));
    }
}

#[test]
fn decoded_operands_are_well_formed() {
    let mut word: u32 = 0x9E37_79B9;
    for _ in 0..2000 {
        word = word.wrapping_mul(0x0019_660D).wrapping_add(0x3C6E_F35F);
        match AluSecondOperandInfo::decode(word, true) {
            AluSecondOperandInfo::Immediate { base, shift } => {
                assert!(base <= 0xFF);
                assert!(shift <= 30);
                assert_eq!(shift % 2, 0);
            }
            AluSecondOperandInfo::Register { .. } => panic!("an immediate was asked for"),
        }
        match AluSecondOperandInfo::decode(word, false) {
            AluSecondOperandInfo::Register { shift_op, register, .. } => {
                assert!(register <= 15);
                match shift_op {
                    ShiftOperator::Immediate(amount) => assert!(amount <= 31),
                    ShiftOperator::Register(index) => assert!(index <= 15),
                }
            }
            AluSecondOperandInfo::Immediate { .. } => panic!("a register was asked for"),
        }
    }
}

#[test]
fn decoding_a_word_twice_gives_the_same_operand() {
    let mut word: u32 = 1;
    for _ in 0..500 {
        word = word.wrapping_mul(0x0019_660D).wrapping_add(0x3C6E_F35F);
        for immediate in [false, true] {
            let first = AluSecondOperandInfo::decode(word, immediate);
            let second = AluSecondOperandInfo::decode(word, immediate);
            assert_eq!(first, second);
        }
    }
}

#[test]
fn zero_amounts_are_written_as_what_they_stand_for() {
    let zero = ShiftOperator::Immediate(0);
    assert_eq!(register(zero, ShiftKind::Lsl, 0).to_string(), "R0");
    assert_eq!(register(zero, ShiftKind::Ror, 7).to_string(), "R7, RRX");
    assert_eq!(register(zero, ShiftKind::Lsr, 12).to_string(), "R12, LSR #32");
    assert_eq!(register(zero, ShiftKind::Asr, 4).to_string(), "R4, ASR #32");
}

#[test]
fn a_register_amount_of_index_zero_is_written_in_full() {
    let operand = register(ShiftOperator::Register(0), ShiftKind::Lsl, 1);
    assert_eq!(operand.to_string(), "R1, LSL R0");
    let operand = register(ShiftOperator::Register(0), ShiftKind::Ror, 1);
    assert_eq!(operand.to_string(), "R1, ROR R0");
}

#[test]
fn nonzero_amounts_are_written_in_full() {
    assert_eq!(register(ShiftOperator::Immediate(1), ShiftKind::Lsl, 5).to_string(), "R5, LSL #1");
    assert_eq!(
        register(ShiftOperator::Immediate(16), ShiftKind::Ror, 14).to_string(),
        "R14, ROR #16"
    );
}

#[test]
fn immediates_are_written_by_value() {
    let operand = AluSecondOperandInfo::Immediate { base: 0xFF, shift: 0 };
    assert_eq!(operand.to_string(), "#255");
    let operand = AluSecondOperandInfo::Immediate { base: 0x01, shift: 2 };
    assert_eq!(operand.to_string(), "#1073741824");
    let operand = AluSecondOperandInfo::Immediate { base: 0xF0, shift: 8 };
    assert_eq!(operand.to_string(), "#4026531840");
    let operand = AluSecondOperandInfo::Immediate { base: 0, shift: 30 };
    assert_eq!(operand.to_string(), "#0");
    let operand = AluSecondOperandInfo::Immediate { base: 0x3F, shift: 30 };
    assert_eq!(operand.to_string(), "#252");
}

#[test]
fn shift_operators_are_written_with_their_sign() {
    assert_eq!(ShiftOperator::Immediate(0).to_string(), "#0");
    assert_eq!(ShiftOperator::Immediate(31).to_string(), "#31");
    assert_eq!(ShiftOperator::Register(0).to_string(), "R0");
    assert_eq!(ShiftOperator::Register(15).to_string(), "R15");
    let mut text = String::from("by ");
    ShiftOperator::Register(4).push_to(&mut text);
    assert_eq!(text, "by R4");
}

#[test]
fn decimal_numerals() {
    assert_eq!(decimal_string(0), "0");
    assert_eq!(decimal_string(7), "7");
    assert_eq!(decimal_string(10), "10");
    assert_eq!(decimal_string(1234567890), "1234567890");
    assert_eq!(decimal_string(u32::MAX), "4294967295");
    for number in (0..100_000u32).step_by(37) {
        assert_eq!(decimal_string(number), format!("{}", number));
    }
    let mut text = String::from("x = ");
    push_decimal(&mut text, 405);
    assert_eq!(text, "x = 405");
}

#[test]
fn single_bits() {
    assert!(get_bit(0x8000_0000, 31));
    assert!(!get_bit(0x8000_0000, 30));
    assert!(get_bit(1, 0));
    assert!(!get_bit(0xFFFF_FFFE, 0));
    assert!(get_bit(0x0200_0000, 25));
}

#[test]
fn bit_fields() {
    assert_eq!(get_bits(0xDEAD_BEEF, 0, 31), 0xDEAD_BEEF);
    assert_eq!(get_bits(0xDEAD_BEEF, 0, 3), 0xF);
    assert_eq!(get_bits(0xDEAD_BEEF, 4, 11), 0xEE);
    assert_eq!(get_bits(0xDEAD_BEEF, 28, 31), 0xD);
    assert_eq!(get_bits(0xDEAD_BEEF, 31, 31), 1);
    assert_eq!(get_bits(0xDEAD_BEEF, 16, 16), 1);
    assert_eq!(get_bits(0xDEAD_BEEF, 12, 21), 0x2DB);
}
