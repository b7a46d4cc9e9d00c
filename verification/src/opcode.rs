//! The sixteen data-processing instructions: their opcodes, their names and
//! the family each belongs to.

use vstd::prelude::*;
use vstd::string::*;

verus! {

/// A data-processing instruction. The variants stand in the order of their
/// opcodes, from 0x0 to 0xF.
#[derive(Debug, Clone, Copy, Eq, PartialEq, Structural)]
pub enum ArmModeAluInstr {
    /// Bitwise and.
    And,
    /// Bitwise exclusive or.
    Eor,
    /// Subtract.
    Sub,
    /// Reverse subtract.
    Rsb,
    /// Add.
    Add,
    /// Add with carry.
    Adc,
    /// Subtract with carry.
    Sbc,
    /// Reverse subtract with carry.
    Rsc,
    /// Test bits: an and that only sets flags.
    Tst,
    /// Test equivalence: an exclusive or that only sets flags.
    Teq,
    /// Compare: a subtraction that only sets flags.
    Cmp,
    /// Compare negative: an addition that only sets flags.
    Cmn,
    /// Bitwise or.
    Orr,
    /// Move.
    Mov,
    /// Bit clear.
    Bic,
    /// Move not.
    Mvn,
}

/// The two families of data-processing instructions. The family decides which
/// condition flags an instruction may update.
#[derive(Eq, PartialEq, Debug, Structural)]
pub enum AIKind {
    /// The result is a bitwise combination of the operands.
    Logical,
    /// The result is a sum or a difference of the operands.
    Arithmetic,
}

/// Something that belongs to one of the two instruction families.
pub trait Kind {
    /// The family.
    fn kind(&self) -> AIKind;
}

impl ArmModeAluInstr {
    /// The instruction that a four-bit opcode field selects.
    pub open spec fn decoded(opcode: u32) -> ArmModeAluInstr {
        if opcode == 0x0 {
            ArmModeAluInstr::And
        } else if opcode == 0x1 {
            ArmModeAluInstr::Eor
        } else if opcode == 0x2 {
            ArmModeAluInstr::Sub
        } else if opcode == 0x3 {
            ArmModeAluInstr::Rsb
        } else if opcode == 0x4 {
            ArmModeAluInstr::Add
        } else if opcode == 0x5 {
            ArmModeAluInstr::Adc
        } else if opcode == 0x6 {
            ArmModeAluInstr::Sbc
        } else if opcode == 0x7 {
            ArmModeAluInstr::Rsc
        } else if opcode == 0x8 {
            ArmModeAluInstr::Tst
        } else if opcode == 0x9 {
            ArmModeAluInstr::Teq
        } else if opcode == 0xa {
            ArmModeAluInstr::Cmp
        } else if opcode == 0xb {
            ArmModeAluInstr::Cmn
        } else if opcode == 0xc {
            ArmModeAluInstr::Orr
        } else if opcode == 0xd {
            ArmModeAluInstr::Mov
        } else if opcode == 0xe {
            ArmModeAluInstr::Bic
        } else {
            ArmModeAluInstr::Mvn
        }
    }

    /// The opcode that selects the instruction.
    pub open spec fn encoding(self) -> u32 {
        match self {
            ArmModeAluInstr::And => 0x0,
            ArmModeAluInstr::Eor => 0x1,
            ArmModeAluInstr::Sub => 0x2,
            ArmModeAluInstr::Rsb => 0x3,
            ArmModeAluInstr::Add => 0x4,
            ArmModeAluInstr::Adc => 0x5,
            ArmModeAluInstr::Sbc => 0x6,
            ArmModeAluInstr::Rsc => 0x7,
            ArmModeAluInstr::Tst => 0x8,
            ArmModeAluInstr::Teq => 0x9,
            ArmModeAluInstr::Cmp => 0xa,
            ArmModeAluInstr::Cmn => 0xb,
            ArmModeAluInstr::Orr => 0xc,
            ArmModeAluInstr::Mov => 0xd,
            ArmModeAluInstr::Bic => 0xe,
            ArmModeAluInstr::Mvn => 0xf,
        }
    }

    /// The instruction's name in assembly text.
    pub open spec fn mnemonic(self) -> Seq<char> {
        match self {
            ArmModeAluInstr::And => seq!['A', 'N', 'D'],
            ArmModeAluInstr::Eor => seq!['E', 'O', 'R'],
            ArmModeAluInstr::Sub => seq!['S', 'U', 'B'],
            ArmModeAluInstr::Rsb => seq!['R', 'S', 'B'],
            ArmModeAluInstr::Add => seq!['A', 'D', 'D'],
            ArmModeAluInstr::Adc => seq!['A', 'D', 'C'],
            ArmModeAluInstr::Sbc => seq!['S', 'B', 'C'],
            ArmModeAluInstr::Rsc => seq!['R', 'S', 'C'],
            ArmModeAluInstr::Tst => seq!['T', 'S', 'T'],
            ArmModeAluInstr::Teq => seq!['T', 'E', 'Q'],
            ArmModeAluInstr::Cmp => seq!['C', 'M', 'P'],
            ArmModeAluInstr::Cmn => seq!['C', 'M', 'N'],
            ArmModeAluInstr::Orr => seq!['O', 'R', 'R'],
            ArmModeAluInstr::Mov => seq!['M', 'O', 'V'],
            ArmModeAluInstr::Bic => seq!['B', 'I', 'C'],
            ArmModeAluInstr::Mvn => seq!['M', 'V', 'N'],
        }
    }

    /// The family of the instruction: logical where the result is a bitwise
    /// combination of the operands, arithmetic where it is a sum or a
    /// difference.
    pub open spec fn family(self) -> AIKind {
        match self {
            ArmModeAluInstr::And
            | ArmModeAluInstr::Eor
            | ArmModeAluInstr::Tst
            | ArmModeAluInstr::Teq
            | ArmModeAluInstr::Orr
            | ArmModeAluInstr::Mov
            | ArmModeAluInstr::Bic
            | ArmModeAluInstr::Mvn => AIKind::Logical,
            ArmModeAluInstr::Sub
            | ArmModeAluInstr::Rsb
            | ArmModeAluInstr::Add
            | ArmModeAluInstr::Adc
            | ArmModeAluInstr::Sbc
            | ArmModeAluInstr::Rsc
            | ArmModeAluInstr::Cmp
            | ArmModeAluInstr::Cmn => AIKind::Arithmetic,
        }
    }

    /// Decodes a four-bit opcode field.
    pub fn from(alu_op_code: u32) -> (instruction: ArmModeAluInstr)
        requires
            alu_op_code <= 0xF,
        ensures
            instruction == ArmModeAluInstr::decoded(alu_op_code),
    {
        match alu_op_code {
            0x0 => ArmModeAluInstr::And,
            0x1 => ArmModeAluInstr::Eor,
            0x2 => ArmModeAluInstr::Sub,
            0x3 => ArmModeAluInstr::Rsb,
            0x4 => ArmModeAluInstr::Add,
            0x5 => ArmModeAluInstr::Adc,
            0x6 => ArmModeAluInstr::Sbc,
            0x7 => ArmModeAluInstr::Rsc,
            0x8 => ArmModeAluInstr::Tst,
            0x9 => ArmModeAluInstr::Teq,
            0xa => ArmModeAluInstr::Cmp,
            0xb => ArmModeAluInstr::Cmn,
            0xc => ArmModeAluInstr::Orr,
            0xd => ArmModeAluInstr::Mov,
            0xe => ArmModeAluInstr::Bic,
            0xf => ArmModeAluInstr::Mvn,
            _ => vstd::pervasive::unreached(),
        }
    }

    /// The opcode that selects the instruction.
    pub fn opcode(&self) -> (opcode: u32)
        ensures
            opcode == self.encoding(),
            opcode <= 0xF,
    {
        match self {
            ArmModeAluInstr::And => 0x0,
            ArmModeAluInstr::Eor => 0x1,
            ArmModeAluInstr::Sub => 0x2,
            ArmModeAluInstr::Rsb => 0x3,
            ArmModeAluInstr::Add => 0x4,
            ArmModeAluInstr::Adc => 0x5,
            ArmModeAluInstr::Sbc => 0x6,
            ArmModeAluInstr::Rsc => 0x7,
            ArmModeAluInstr::Tst => 0x8,
            ArmModeAluInstr::Teq => 0x9,
            ArmModeAluInstr::Cmp => 0xa,
            ArmModeAluInstr::Cmn => 0xb,
            ArmModeAluInstr::Orr => 0xc,
            ArmModeAluInstr::Mov => 0xd,
            ArmModeAluInstr::Bic => 0xe,
            ArmModeAluInstr::Mvn => 0xf,
        }
    }

    /// The instruction's name in assembly text.
    pub fn as_str(&self) -> (text: &'static str)
        ensures
            text@ == self.mnemonic(),
    {
        proof {
            reveal_strlit("AND");
            reveal_strlit("EOR");
            reveal_strlit("SUB");
            reveal_strlit("RSB");
            reveal_strlit("ADD");
            reveal_strlit("ADC");
            reveal_strlit("SBC");
            reveal_strlit("RSC");
            reveal_strlit("TST");
            reveal_strlit("TEQ");
            reveal_strlit("CMP");
            reveal_strlit("CMN");
            reveal_strlit("ORR");
            reveal_strlit("MOV");
            reveal_strlit("BIC");
            reveal_strlit("MVN");
        }
        let text = match self {
            ArmModeAluInstr::And => "AND",
            ArmModeAluInstr::Eor => "EOR",
            ArmModeAluInstr::Sub => "SUB",
            ArmModeAluInstr::Rsb => "RSB",
            ArmModeAluInstr::Add => "ADD",
            ArmModeAluInstr::Adc => "ADC",
            ArmModeAluInstr::Sbc => "SBC",
            ArmModeAluInstr::Rsc => "RSC",
            ArmModeAluInstr::Tst => "TST",
            ArmModeAluInstr::Teq => "TEQ",
            ArmModeAluInstr::Cmp => "CMP",
            ArmModeAluInstr::Cmn => "CMN",
            ArmModeAluInstr::Orr => "ORR",
            ArmModeAluInstr::Mov => "MOV",
            ArmModeAluInstr::Bic => "BIC",
            ArmModeAluInstr::Mvn => "MVN",
        };
        assert(text@ =~= self.mnemonic());
        text
    }

    /// The instruction's name in assembly text, as an owned string.
    pub fn to_string(&self) -> (text: String)
        ensures
            text@ == self.mnemonic(),
    {
        String::from_str(self.as_str())
    }
}

impl Kind for ArmModeAluInstr {
    fn kind(&self) -> (kind: AIKind)
        ensures
            kind == self.family(),
    {
        match self {
            ArmModeAluInstr::And
            | ArmModeAluInstr::Eor
            | ArmModeAluInstr::Tst
            | ArmModeAluInstr::Teq
            | ArmModeAluInstr::Orr
            | ArmModeAluInstr::Mov
            | ArmModeAluInstr::Bic
            | ArmModeAluInstr::Mvn => AIKind::Logical,
            ArmModeAluInstr::Sub
            | ArmModeAluInstr::Rsb
            | ArmModeAluInstr::Add
            | ArmModeAluInstr::Adc
            | ArmModeAluInstr::Sbc
            | ArmModeAluInstr::Rsc
            | ArmModeAluInstr::Cmp
            | ArmModeAluInstr::Cmn => AIKind::Arithmetic,
        }
    }
}

/// Opcodes and instructions correspond one to one: decoding an opcode and
/// taking the opcode of the result gives the opcode back, and the same holds
/// the other way round.
pub proof fn lemma_opcode_round_trip(opcode: u32, instruction: ArmModeAluInstr)
    requires
        opcode <= 0xF,
    ensures
        ArmModeAluInstr::decoded(opcode).encoding() == opcode,
        instruction.encoding() <= 0xF,
        ArmModeAluInstr::decoded(instruction.encoding()) == instruction,
{
}

/// No two opcodes select the same instruction.
pub proof fn lemma_decoding_is_injective(first: u32, second: u32)
    requires
        first <= 0xF,
        second <= 0xF,
        ArmModeAluInstr::decoded(first) == ArmModeAluInstr::decoded(second),
    ensures
        first == second,
{
    lemma_opcode_round_trip(first, ArmModeAluInstr::And);
    lemma_opcode_round_trip(second, ArmModeAluInstr::And);
}

/// Every instruction is selected by some opcode.
pub proof fn lemma_decoding_is_surjective(instruction: ArmModeAluInstr)
    ensures
        exists|opcode: u32| opcode <= 0xF && #[trigger] ArmModeAluInstr::decoded(opcode) == instruction,
{
    lemma_opcode_round_trip(0, instruction);
}

/// Decoding keeps no state between calls: whatever two calls on one opcode
/// return is the same instruction, of the same family.
pub proof fn lemma_opcode_decoding_repeats(
    opcode: u32,
    first: ArmModeAluInstr,
    second: ArmModeAluInstr,
)
    requires
        opcode <= 0xF,
        call_ensures(ArmModeAluInstr::from, (opcode,), first),
        call_ensures(ArmModeAluInstr::from, (opcode,), second),
    ensures
        first == second,
        first == ArmModeAluInstr::decoded(opcode),
        first.family() == second.family(),
{
}

} // verus!
