//! The second operand of a data-processing instruction: how an instruction
//! word encodes it, and how it is written in assembly text.

use crate::bitwise::{bit_at, bit_field, get_bit, get_bits};
use crate::shifter::{rotate_right, rotated_right, ShiftKind};
use crate::text::{decimal, push_decimal};
use vstd::prelude::*;
use vstd::string::*;

verus! {

/// Where a register operand's shift amount comes from.
#[derive(Clone, Copy, Debug, Eq, PartialEq, Structural)]
pub enum ShiftOperator {
    /// A constant of five bits in the instruction word.
    Immediate(u32),
    /// The register with this index, read when the instruction runs.
    Register(u32),
}

/// The second operand, as the instruction word describes it.
#[derive(Clone, Copy, Debug, Eq, PartialEq, Structural)]
pub enum AluSecondOperandInfo {
    /// The register `register`, shifted as `shift_kind` says by the amount
    /// that `shift_op` gives.
    Register { shift_op: ShiftOperator, shift_kind: ShiftKind, register: u32 },
    /// The constant `base` rotated right by `shift` places.
    Immediate { base: u32, shift: u32 },
}

impl ShiftOperator {
    /// A constant amount fits in five bits, a register index in four.
    pub open spec fn well_formed(self) -> bool {
        match self {
            ShiftOperator::Immediate(amount) => amount <= 31,
            ShiftOperator::Register(register) => register <= 15,
        }
    }

    /// The amount in assembly text: `#` and the constant, or `R` and the
    /// register's index.
    pub open spec fn text(self) -> Seq<char> {
        match self {
            ShiftOperator::Immediate(amount) => seq!['#'] + decimal(amount as nat),
            ShiftOperator::Register(register) => seq!['R'] + decimal(register as nat),
        }
    }

    /// Appends the amount in assembly text to `text`.
    pub fn push_to(&self, text: &mut String)
        ensures
            final(text)@ == old(text)@ + self.text(),
    {
        proof {
            reveal_strlit("#");
            reveal_strlit("R");
        }
        match self {
            ShiftOperator::Immediate(amount) => {
                text.append("#");
                push_decimal(text, *amount);
            },
            ShiftOperator::Register(register) => {
                text.append("R");
                push_decimal(text, *register);
            },
        }
        assert(text@ =~= old(text)@ + self.text());
    }

    /// The amount in assembly text.
    pub fn to_string(&self) -> (text: String)
        ensures
            text@ == self.text(),
    {
        let mut text = String::new();
        self.push_to(&mut text);
        assert(text@ =~= self.text());
        text
    }
}

impl AluSecondOperandInfo {
    /// Every field is within the width of the bits it was read from, and the
    /// rotation of a constant is an even number of places, 30 at most.
    pub open spec fn well_formed(self) -> bool {
        match self {
            AluSecondOperandInfo::Register { shift_op, shift_kind, register } => {
                shift_op.well_formed() && register <= 15
            },
            AluSecondOperandInfo::Immediate { base, shift } => {
                base <= 0xFF && shift <= 30 && shift % 2 == 0
            },
        }
    }

    /// The operand that the low twelve bits of `word` encode. With the
    /// immediate flag set they hold a constant in bits 0 to 7 and half its
    /// rotation in bits 8 to 11. With the flag clear they hold a register in
    /// bits 0 to 3, the shift kind in bits 5 and 6, and the amount: a
    /// constant in bits 7 to 11 where bit 4 is clear, a register in bits 8 to
    /// 11 where it is set.
    pub open spec fn decoded(word: u32, immediate: bool) -> AluSecondOperandInfo {
        if immediate {
            AluSecondOperandInfo::Immediate {
                base: bit_field(word, 0, 7),
                shift: (bit_field(word, 8, 11) * 2) as u32,
            }
        } else {
            AluSecondOperandInfo::Register {
                shift_op: if bit_at(word, 4) {
                    ShiftOperator::Register(bit_field(word, 8, 11))
                } else {
                    ShiftOperator::Immediate(bit_field(word, 7, 11))
                },
                shift_kind: ShiftKind::decoded(bit_field(word, 5, 6)),
                register: bit_field(word, 0, 3),
            }
        }
    }

    /// The operand in assembly text. A register is written `R` and its index,
    /// followed by a comma, the shift kind and the amount. A constant amount
    /// of 0 is written as what it stands for: nothing at all after the
    /// register for a left shift, `RRX` for a rotation, and `#32` for the two
    /// right shifts. A constant operand is written `#` and its value, the
    /// base rotated right.
    pub open spec fn text(self) -> Seq<char> {
        match self {
            AluSecondOperandInfo::Register { shift_op, shift_kind, register } => {
                let name = seq!['R'] + decimal(register as nat);
                if shift_op == ShiftOperator::Immediate(0) {
                    if shift_kind == ShiftKind::Lsl {
                        name
                    } else if shift_kind == ShiftKind::Ror {
                        name + seq![',', ' ', 'R', 'R', 'X']
                    } else {
                        name + seq![',', ' '] + shift_kind.text() + seq![' ', '#', '3', '2']
                    }
                } else {
                    name + seq![',', ' '] + shift_kind.text() + seq![' '] + shift_op.text()
                }
            },
            AluSecondOperandInfo::Immediate { base, shift } => {
                seq!['#'] + decimal(rotated_right(base, shift) as nat)
            },
        }
    }

    /// Decodes the second operand from an instruction word. `immediate` is
    /// the word's immediate flag.
    pub fn decode(word: u32, immediate: bool) -> (operand: AluSecondOperandInfo)
        ensures
            operand == AluSecondOperandInfo::decoded(word, immediate),
            operand.well_formed(),
    {
        proof {
            lemma_decoded_well_formed(word, immediate);
        }
        if immediate {
            assert(bit_field(word, 8, 11) <= 15) by (bit_vector);
            AluSecondOperandInfo::Immediate {
                base: get_bits(word, 0, 7),
                shift: get_bits(word, 8, 11) * 2,
            }
        } else {
            assert(bit_field(word, 5, 6) <= 3) by (bit_vector);
            AluSecondOperandInfo::Register {
                shift_op: if get_bit(word, 4) {
                    ShiftOperator::Register(get_bits(word, 8, 11))
                } else {
                    ShiftOperator::Immediate(get_bits(word, 7, 11))
                },
                shift_kind: ShiftKind::from(get_bits(word, 5, 6)),
                register: get_bits(word, 0, 3),
            }
        }
    }

    /// The operand in assembly text.
    pub fn to_string(&self) -> (text: String)
        ensures
            text@ == self.text(),
    {
        proof {
            reveal_strlit("R");
            reveal_strlit("#");
            reveal_strlit(", ");
            reveal_strlit(", RRX");
            reveal_strlit(" #32");
            reveal_strlit(" ");
        }
        let mut text = String::new();
        match *self {
            AluSecondOperandInfo::Register { shift_op, shift_kind, register } => {
                text.append("R");
                push_decimal(&mut text, register);
                let unshifted = match shift_op {
                    ShiftOperator::Immediate(amount) => amount == 0,
                    ShiftOperator::Register(_) => false,
                };
                if unshifted {
                    match shift_kind {
                        ShiftKind::Lsl => {},
                        ShiftKind::Ror => {
                            text.append(", RRX");
                        },
                        _ => {
                            text.append(", ");
                            text.append(shift_kind.as_str());
                            text.append(" #32");
                        },
                    }
                } else {
                    text.append(", ");
                    text.append(shift_kind.as_str());
                    text.append(" ");
                    shift_op.push_to(&mut text);
                }
            },
            AluSecondOperandInfo::Immediate { base, shift } => {
                text.append("#");
                push_decimal(&mut text, rotate_right(base, shift));
            },
        }
        assert(text@ =~= self.text());
        text
    }
}

/// Decoding only ever yields a well-formed operand.
pub proof fn lemma_decoded_well_formed(word: u32, immediate: bool)
    ensures
        AluSecondOperandInfo::decoded(word, immediate).well_formed(),
{
    assert(bit_field(word, 0, 7) <= 0xFF) by (bit_vector);
    assert(bit_field(word, 8, 11) <= 15) by (bit_vector);
    assert(bit_field(word, 7, 11) <= 31) by (bit_vector);
    assert(bit_field(word, 0, 3) <= 15) by (bit_vector);
}

/// Decoding keeps no state between calls: whatever two calls on one word and
/// flag return is the same operand.
pub proof fn lemma_operand_decoding_repeats(
    word: u32,
    immediate: bool,
    first: AluSecondOperandInfo,
    second: AluSecondOperandInfo,
)
    requires
        call_ensures(AluSecondOperandInfo::decode, (word, immediate), first),
        call_ensures(AluSecondOperandInfo::decode, (word, immediate), second),
    ensures
        first == second,
        first == AluSecondOperandInfo::decoded(word, immediate),
{
}

} // verus!
