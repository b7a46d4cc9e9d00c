use emu::{try_decode_psr, AluSecondOperandInfo, PsrKind, PsrOpKind, ShiftKind, ShiftOperator};

const MRS: u32 = 0x010F_0000;
const MSR: u32 = 0x0129_F000;
const MSR_FLG: u32 = 0x0128_F000;

#[test]
fn mrs_with_destination_three() {
    let word = MRS | (3 << 12);
    assert_eq!(try_decode_psr(word), Some(PsrOpKind::Mrs { destination_register: 3 }));
    assert_eq!(PsrOpKind::from(word), PsrOpKind::Mrs { destination_register: 3 });
}

#[test]
fn mrs_with_every_destination_condition_and_selector() {
    for destination in 0..16u32 {
        for condition in [0x0u32, 0xE, 0xF] {
            for selector in [0u32, 1] {
                let word = (condition << 28) | (selector << 22) | MRS | (destination << 12);
                assert_eq!(
                    try_decode_psr(word),
                    Some(PsrOpKind::Mrs { destination_register: destination })
                );
            }
        }
    }
}

#[test]
fn msr_from_a_register() {
    assert_eq!(try_decode_psr(0xE129_F005), Some(PsrOpKind::Msr { source_register: 5 }));
    assert_eq!(try_decode_psr(0xE169_F00E), Some(PsrOpKind::Msr { source_register: 14 }));
    for source in 0..16u32 {
        assert_eq!(try_decode_psr(MSR | source), Some(PsrOpKind::Msr { source_register: source }));
    }
}

#[test]
fn msr_flags_from_an_immediate() {
    let word = 0xE328_F000 | (4 << 8) | 0xF0;
    assert_eq!(
        try_decode_psr(word),
        Some(PsrOpKind::MsrFlg {
            operand: AluSecondOperandInfo::Immediate { base: 0xF0, shift: 8 }
        })
    );
}

#[test]
fn msr_flags_from_a_register() {
    let word = 0xE128_F005;
    assert_eq!(
        try_decode_psr(word),
        Some(PsrOpKind::MsrFlg {
            operand: AluSecondOperandInfo::Register {
                shift_op: ShiftOperator::Immediate(0),
                shift_kind: ShiftKind::Lsl,
                register: 5,
            }
        })
    );
}

#[test]
fn msr_flags_operand_follows_the_operand_encoding() {
    let word = MSR_FLG | (1 << 8) | (1 << 4) | 5;
    assert_eq!(
        try_decode_psr(word),
        Some(PsrOpKind::MsrFlg { operand: AluSecondOperandInfo::decode(word, false) })
    );
    assert_eq!(
        try_decode_psr(word),
        Some(PsrOpKind::MsrFlg {
            operand: AluSecondOperandInfo::Register {
                shift_op: ShiftOperator::Register(1),
                shift_kind: ShiftKind::Lsl,
                register: 5,
            }
        })
    );
    let word = MSR_FLG | (1 << 25) | 0xABC;
    assert_eq!(
        try_decode_psr(word),
        Some(PsrOpKind::MsrFlg { operand: AluSecondOperandInfo::decode(word, true) })
    );
}

#[test]
fn ordinary_instructions_are_no_transfers() {
    // MOV R0, R5; ADD R1, R2, #1; TEQ R1, R2; CMP R0, #0.
    for word in [0xE1A0_0005u32, 0xE282_1001, 0xE131_0002, 0xE350_0000, 0, u32::MAX] {
        assert_eq!(try_decode_psr(word), None);
    }
}

#[test]
fn one_wrong_bit_spoils_a_pattern() {
    assert_eq!(try_decode_psr(MRS | 1), None);
    assert_eq!(try_decode_psr(MRS | (1 << 11)), None);
    assert_eq!(try_decode_psr(MRS ^ (1 << 16)), None);
    assert_eq!(try_decode_psr(MRS | (1 << 23)), None);
    assert_eq!(try_decode_psr(MRS | (1 << 27)), None);
    assert_eq!(try_decode_psr(MSR | (1 << 4)), None);
    assert_eq!(try_decode_psr(MSR ^ (1 << 12)), None);
    assert_eq!(try_decode_psr(MSR | (1 << 26)), None);
    assert_eq!(try_decode_psr(MSR_FLG | (1 << 26)), None);
    assert_eq!(try_decode_psr(MSR_FLG | (1 << 23)), None);
    assert_eq!(try_decode_psr(MSR_FLG ^ (1 << 24)), None);
    assert_eq!(try_decode_psr(MSR_FLG ^ (1 << 21)), None);
}

#[test]
fn decoding_a_word_twice_gives_the_same_transfer() {
    let mut word: u32 = 7;
    for _ in 0..500 {
        word = word.wrapping_mul(0x0019_660D).wrapping_add(0x3C6E_F35F);
        for candidate in [word, (word & 0xF040_0FFF) | MRS, (word & 0xF040_000F) | MSR] {
            assert_eq!(try_decode_psr(candidate), try_decode_psr(candidate));
        }
    }
}

#[test]
fn decoded_transfers_are_well_formed() {
    let mut word: u32 = 99;
    for _ in 0..500 {
        word = word.wrapping_mul(0x0019_660D).wrapping_add(0x3C6E_F35F);
        match try_decode_psr((word & 0xF040_F000) | MRS) {
            Some(PsrOpKind::Mrs { destination_register }) => assert!(destination_register <= 15),
            other => panic!("not an MRS: {:?}", other),
        }
        match try_decode_psr((word & 0xF040_000F) | MSR) {
            Some(PsrOpKind::Msr { source_register }) => assert!(source_register <= 15),
            other => panic!("not an MSR: {:?}", other),
        }
        match try_decode_psr((word & 0xF240_0FFF) | MSR_FLG) {
            Some(PsrOpKind::MsrFlg { .. }) => {}
            other => panic!("not an MSR to the flags: {:?}", other),
        }
    }
}

#[test]
fn selector_bit_names_the_register() {
    assert_eq!(PsrKind::from(false), PsrKind::Cpsr);
    assert_eq!(PsrKind::from(true), PsrKind::Spsr);
}

#[test]
fn status_registers_have_upper_case_names() {
    assert_eq!(PsrKind::Cpsr.to_string(), "CPSR");
    assert_eq!(PsrKind::Spsr.to_string(), "SPSR");
}
