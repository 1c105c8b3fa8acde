//! The bit fields of an instruction word.
//!
//! The opcode is the top six bits of the word, bits 31 to 26, as in the MIPS
//! reference layout; every other field lies below it.
//!
//! ```text
//! R  opcode(6) rs(5) rt(5) rd(5) shamt(5) funct(6)
//! I  opcode(6) rs(5) rt(5) immediate(16)
//! J  opcode(6) target(26)
//! ```
use crate::Register;
use vstd::prelude::*;

verus! {

/// Bits 31 to 26: the primary operation selector.
pub open spec fn opcode(raw: u32) -> u8 {
    (raw >> 26) as u8
}

/// Bits 25 to 21: the source register.
pub open spec fn rs(raw: u32) -> Register {
    ((raw >> 21) & 0x1f) as u8
}

/// Bits 20 to 16: the target register.
pub open spec fn rt(raw: u32) -> Register {
    ((raw >> 16) & 0x1f) as u8
}

/// Bits 15 to 11: the destination register.
pub open spec fn rd(raw: u32) -> Register {
    ((raw >> 11) & 0x1f) as u8
}

/// Bits 10 to 6: the shift amount.
pub open spec fn shamt(raw: u32) -> u8 {
    ((raw >> 6) & 0x1f) as u8
}

/// Bits 5 to 0: the function code.
pub open spec fn funct(raw: u32) -> u8 {
    (raw & 0x3f) as u8
}

/// Bits 15 to 0: the immediate value or offset.
pub open spec fn immediate(raw: u32) -> u16 {
    (raw & 0xffff) as u16
}

/// Bits 25 to 0: the jump target.
pub open spec fn target(raw: u32) -> u32 {
    raw & 0x3ff_ffff
}

/// Each field is as wide as its bits allow and no wider.
pub proof fn lemma_field_ranges(raw: u32)
    by (bit_vector)
    ensures
        opcode(raw) < 64,
        rs(raw) < 32,
        rt(raw) < 32,
        rd(raw) < 32,
        shamt(raw) < 32,
        funct(raw) < 64,
        target(raw) < 0x400_0000,
{
}

/// The fields of each layout, put back in their places, give the word: no
/// bit is lost and none is read twice.
pub proof fn lemma_layouts_cover_word(raw: u32)
    by (bit_vector)
    ensures
        raw == (opcode(raw) as u32) << 26 | (rs(raw) as u32) << 21 | (rt(raw) as u32) << 16 | (rd(
            raw,
        ) as u32) << 11 | (shamt(raw) as u32) << 6 | funct(raw) as u32,
        raw == (opcode(raw) as u32) << 26 | (rs(raw) as u32) << 21 | (rt(raw) as u32) << 16
            | immediate(raw) as u32,
        raw == (opcode(raw) as u32) << 26 | target(raw),
{
}

/// A word put together from an opcode and the 26 bits below it has that
/// opcode, whatever those bits are.
pub proof fn lemma_opcode_of_composed(op: u8, rest: u32)
    by (bit_vector)
    requires
        op < 64,
        rest < 0x400_0000,
    ensures
        opcode((op as u32) << 26 | rest) == op,
        target((op as u32) << 26 | rest) == rest,
{
}

/// Reads the opcode of a word.
pub fn read_opcode(raw: u32) -> (op: u8)
    ensures
        op == opcode(raw),
        op < 64,
{
    assert(raw >> 26 < 64) by (bit_vector);
    (raw >> 26) as u8
}

/// Reads the source register of a word.
pub fn read_rs(raw: u32) -> (reg: Register)
    ensures
        reg == rs(raw),
        reg < 32,
{
    assert((raw >> 21) & 0x1f < 32) by (bit_vector);
    ((raw >> 21) & 0x1f) as u8
}

/// Reads the target register of a word.
pub fn read_rt(raw: u32) -> (reg: Register)
    ensures
        reg == rt(raw),
        reg < 32,
{
    assert((raw >> 16) & 0x1f < 32) by (bit_vector);
    ((raw >> 16) & 0x1f) as u8
}

/// Reads the destination register of a word.
pub fn read_rd(raw: u32) -> (reg: Register)
    ensures
        reg == rd(raw),
        reg < 32,
{
    assert((raw >> 11) & 0x1f < 32) by (bit_vector);
    ((raw >> 11) & 0x1f) as u8
}

/// Reads the shift amount of a word.
pub fn read_shamt(raw: u32) -> (amount: u8)
    ensures
        amount == shamt(raw),
        amount < 32,
{
    assert((raw >> 6) & 0x1f < 32) by (bit_vector);
    ((raw >> 6) & 0x1f) as u8
}

/// Reads the function code of a word.
pub fn read_funct(raw: u32) -> (code: u8)
    ensures
        code == funct(raw),
        code < 64,
{
    assert(raw & 0x3f < 64) by (bit_vector);
    (raw & 0x3f) as u8
}

/// Reads the immediate value of a word.
pub fn read_immediate(raw: u32) -> (value: u16)
    ensures
        value == immediate(raw),
{
    assert(raw & 0xffff < 0x1_0000) by (bit_vector);
    (raw & 0xffff) as u16
}

/// Reads the jump target of a word.
pub fn read_target(raw: u32) -> (value: u32)
    ensures
        value == target(raw),
        value < 0x400_0000,
{
    assert(raw & 0x3ff_ffff < 0x400_0000) by (bit_vector);
    raw & 0x3ff_ffff
}

} // verus!
