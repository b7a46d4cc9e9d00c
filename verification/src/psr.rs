//! Transfers between a program status register and a general register. They
//! share their encoding space with the data-processing instructions and are
//! told apart by three fixed bit patterns.

use crate::bitwise::{bit_at, bit_field, get_bit, get_bits};
use crate::operand::{lemma_decoded_well_formed, AluSecondOperandInfo};
use vstd::prelude::*;
use vstd::string::*;

verus! {

/// Represents the kind of PSR operation.
#[derive(Copy, Clone, Debug, PartialEq, Eq, Structural)]
pub enum PsrOpKind {
    /// MRS operation (transfer PSR contents to a register).
    Mrs { destination_register: u32 },
    /// MSR operation (transfer register contents to PSR).
    Msr { source_register: u32 },
    /// MSR flags operation (transfer register contents or immediate value to
    /// PSR flag bits only).
    MsrFlg { operand: AluSecondOperandInfo },
}

/// Represents the kind of PSR register to use.
#[derive(Copy, Clone, Debug, PartialEq, Eq, Structural)]
pub enum PsrKind {
    /// The current program status register.
    Cpsr,
    /// The saved program status register of the current mode.
    Spsr,
}

/// The pattern of a transfer from a status register to a general register.
pub open spec fn is_mrs(word: u32) -> bool {
    &&& bit_field(word, 23, 27) == 0b0_0010
    &&& bit_field(word, 16, 21) == 0b00_1111
    &&& bit_field(word, 0, 11) == 0
}

/// The pattern of a transfer from a general register to a status register.
pub open spec fn is_msr(word: u32) -> bool {
    &&& bit_field(word, 23, 27) == 0b0_0010
    &&& bit_field(word, 12, 21) == 0b10_1001_1111
    &&& bit_field(word, 4, 11) == 0
}

/// The pattern of a transfer to the flag bits of a status register.
pub open spec fn is_msr_flg(word: u32) -> bool {
    &&& bit_field(word, 26, 27) == 0b00
    &&& bit_field(word, 23, 24) == 0b10
    &&& bit_field(word, 12, 21) == 0b10_1000_1111
}

/// The transfer that `word` encodes, if it encodes one. The three patterns
/// are tried in the order in which they stand above.
pub open spec fn psr_transfer(word: u32) -> Option<PsrOpKind> {
    if is_mrs(word) {
        Some(PsrOpKind::Mrs { destination_register: bit_field(word, 12, 15) })
    } else if is_msr(word) {
        Some(PsrOpKind::Msr { source_register: bit_field(word, 0, 3) })
    } else if is_msr_flg(word) {
        Some(PsrOpKind::MsrFlg { operand: AluSecondOperandInfo::decoded(word, bit_at(word, 25)) })
    } else {
        None
    }
}

impl PsrOpKind {
    /// Register indices fit in four bits and the operand is well formed.
    pub open spec fn well_formed(self) -> bool {
        match self {
            PsrOpKind::Mrs { destination_register } => destination_register <= 15,
            PsrOpKind::Msr { source_register } => source_register <= 15,
            PsrOpKind::MsrFlg { operand } => operand.well_formed(),
        }
    }

    /// Decodes a word that is known to encode a transfer.
    pub fn from(op_code: u32) -> (kind: PsrOpKind)
        requires
            psr_transfer(op_code) is Some,
        ensures
            psr_transfer(op_code) == Some(kind),
            kind.well_formed(),
    {
        match try_decode_psr(op_code) {
            Some(kind) => kind,
            None => vstd::pervasive::unreached(),
        }
    }
}

/// Tells whether `word` encodes a transfer to or from a status register, and
/// which. `None` says that it encodes none: the word is then an ordinary
/// data-processing instruction.
pub fn try_decode_psr(word: u32) -> (transfer: Option<PsrOpKind>)
    ensures
        transfer == psr_transfer(word),
        transfer matches Some(kind) ==> kind.well_formed(),
{
    proof {
        lemma_transfer_well_formed(word);
    }
    if get_bits(word, 23, 27) == 0b0_0010 && get_bits(word, 16, 21) == 0b00_1111 && get_bits(
        word,
        0,
        11,
    ) == 0 {
        Some(PsrOpKind::Mrs { destination_register: get_bits(word, 12, 15) })
    } else if get_bits(word, 23, 27) == 0b0_0010 && get_bits(word, 12, 21) == 0b10_1001_1111
        && get_bits(word, 4, 11) == 0 {
        Some(PsrOpKind::Msr { source_register: get_bits(word, 0, 3) })
    } else if get_bits(word, 26, 27) == 0b00 && get_bits(word, 23, 24) == 0b10 && get_bits(
        word,
        12,
        21,
    ) == 0b10_1000_1111 {
        Some(PsrOpKind::MsrFlg { operand: AluSecondOperandInfo::decode(word, get_bit(word, 25)) })
    } else {
        None
    }
}

impl PsrKind {
    /// The register that the selector bit of an instruction word names:
    /// the saved one where the bit is set, the current one where it is clear.
    pub open spec fn selected(saved: bool) -> PsrKind {
        if saved {
            PsrKind::Spsr
        } else {
            PsrKind::Cpsr
        }
    }

    /// The register's name in assembly text.
    pub open spec fn text(self) -> Seq<char> {
        match self {
            PsrKind::Cpsr => seq!['C', 'P', 'S', 'R'],
            PsrKind::Spsr => seq!['S', 'P', 'S', 'R'],
        }
    }

    /// The register's name in assembly text.
    pub fn to_string(&self) -> (text: String)
        ensures
            text@ == self.text(),
    {
        proof {
            reveal_strlit("CPSR");
            reveal_strlit("SPSR");
        }
        let text = match self {
            PsrKind::Cpsr => String::from_str("CPSR"),
            PsrKind::Spsr => String::from_str("SPSR"),
        };
        assert(text@ =~= self.text());
        text
    }
}

impl From<bool> for PsrKind {
    fn from(value: bool) -> (kind: PsrKind) {
        if value {
            PsrKind::Spsr
        } else {
            PsrKind::Cpsr
        }
    }
}

impl vstd::std_specs::convert::FromSpecImpl<bool> for PsrKind {
    open spec fn obeys_from_spec() -> bool {
        true
    }

    open spec fn from_spec(value: bool) -> PsrKind {
        PsrKind::selected(value)
    }
}

/// No word matches two of the three patterns.
pub proof fn lemma_patterns_exclude_each_other(word: u32)
    ensures
        !(is_mrs(word) && is_msr(word)),
        !(is_mrs(word) && is_msr_flg(word)),
        !(is_msr(word) && is_msr_flg(word)),
{
    assert(!(bit_field(word, 16, 21) == 0b00_1111 && bit_field(word, 12, 21) == 0b10_1001_1111))
        by (bit_vector);
    assert(!(bit_field(word, 16, 21) == 0b00_1111 && bit_field(word, 12, 21) == 0b10_1000_1111))
        by (bit_vector);
}

/// A word encodes a transfer exactly if it matches one of the three
/// patterns, and the pattern it matches decides the kind of the transfer.
pub proof fn lemma_transfer_by_pattern(word: u32)
    ensures
        psr_transfer(word) is Some <==> is_mrs(word) || is_msr(word) || is_msr_flg(word),
        is_mrs(word) <==> psr_transfer(word) matches Some(PsrOpKind::Mrs { .. }),
        is_msr(word) <==> psr_transfer(word) matches Some(PsrOpKind::Msr { .. }),
        is_msr_flg(word) <==> psr_transfer(word) matches Some(PsrOpKind::MsrFlg { .. }),
{
    lemma_patterns_exclude_each_other(word);
}

/// Decoding only ever yields a well-formed transfer.
pub proof fn lemma_transfer_well_formed(word: u32)
    ensures
        psr_transfer(word) matches Some(kind) ==> kind.well_formed(),
{
    assert(bit_field(word, 12, 15) <= 15) by (bit_vector);
    assert(bit_field(word, 0, 3) <= 15) by (bit_vector);
    lemma_decoded_well_formed(word, bit_at(word, 25));
}

/// Decoding keeps no state between calls: whatever two calls on one word
/// return is the same transfer, or both times none.
pub proof fn lemma_transfer_decoding_repeats(
    word: u32,
    first: Option<PsrOpKind>,
    second: Option<PsrOpKind>,
)
    requires
        call_ensures(try_decode_psr, (word,), first),
        call_ensures(try_decode_psr, (word,), second),
    ensures
        first == second,
        first == psr_transfer(word),
{
}

} // verus!
