//! Decoding and barrel-shifter semantics for the data-processing instructions
//! of an ARM7TDMI-style core.
//!
//! An instruction word is first tried as a status-register transfer
//! ([`try_decode_psr`]). A word that is none is a data-processing
//! instruction: its opcode field selects an [`ArmModeAluInstr`] and its low
//! twelve bits describe the second operand ([`AluSecondOperandInfo`]). A
//! register operand is resolved when the instruction runs, by [`shift`].

pub mod bitwise;
pub mod opcode;
pub mod operand;
pub mod psr;
pub mod shifter;
pub mod text;

pub use crate::opcode::{AIKind, ArmModeAluInstr, Kind};
pub use crate::operand::{AluSecondOperandInfo, ShiftOperator};
pub use crate::psr::{try_decode_psr, PsrKind, PsrOpKind};
pub use crate::shifter::{rotate_right, shift, ArithmeticOpResult, ShiftKind};
