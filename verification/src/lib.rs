//! Instruction model of the CASM assembly language: the instruction forms,
//! the word size of each form, and the canonical listing text.

pub mod hints;
pub mod instructions;
pub mod operand;
