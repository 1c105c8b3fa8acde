//! Decoder for 32-bit MIPS instruction words.
//!
//! A word is split into its bit fields ([`fields`]), its opcode is looked up
//! in the table of instruction formats ([`classifier`]), and the operation is
//! resolved from the format's own selector ([`instruction`]). A decoded
//! instruction renders as one line of disassembly; [`text`] writes the
//! numbers in it. [`laws`] holds what is proved of decoding as a whole.
use vstd::prelude::*;

pub mod classifier;
pub mod fields;
pub mod instruction;
pub mod laws;
pub mod text;

verus! {

/// An index into the register file: five bits of an instruction word.
pub type Register = u8;

} // verus!
