//! What holds of decoding and rendering as a whole.
use crate::classifier::{format_of, FormatClass};
use crate::fields::{funct, lemma_field_ranges, lemma_opcode_of_composed, opcode, rt, shamt};
use crate::instruction::{decode, i_kind, j_kind, r_kind, InstructionView, Kind};
use vstd::prelude::*;

verus! {

/// The operation that the resolution table of a word's format gives it, or
/// `None` where the classifier does not hold the opcode or the table does
/// not hold the selector.
pub open spec fn table_kind(raw: u32) -> Option<Kind> {
    match format_of(opcode(raw)) {
        Some(FormatClass::R) => r_kind(funct(raw), shamt(raw)),
        Some(FormatClass::I) => i_kind(opcode(raw), rt(raw)),
        Some(FormatClass::J) => j_kind(opcode(raw)),
        None => None,
    }
}

/// A word whose opcode is in the classifier and whose selector is in the
/// resolution table of its format decodes: to the operation that the table
/// names, to operands that fit their fields, and to a record that keeps the
/// word unchanged. Every other word is not recognised.
pub proof fn lemma_table_entries_decode(raw: u32)
    ensures
        table_kind(raw) matches Some(kind) ==> decode(raw) matches Some(decoded) && decoded.kind
            == kind && decoded.raw == raw && decoded.format.in_range(),
        table_kind(raw) is None <==> decode(raw) is None,
{
    lemma_field_ranges(raw);
}

/// The classifier holds no opcode of the J format that names no jump, so a
/// word is not recognised for exactly three reasons: its opcode is not in
/// the classifier, it has the R format and its function code is not in the
/// table, or it has the I format and its opcode and target register field
/// are not in the table.
pub proof fn lemma_unrecognised_causes(raw: u32)
    ensures
        decode(raw) is None <==> {
            ||| format_of(opcode(raw)) is None
            ||| format_of(opcode(raw)) == Some(FormatClass::R) && r_kind(funct(raw), shamt(raw))
                is None
            ||| format_of(opcode(raw)) == Some(FormatClass::I) && i_kind(opcode(raw), rt(raw))
                is None
        },
{
}

/// A word whose opcode is not in the classifier is not recognised, whatever
/// its other 26 bits are.
pub proof fn lemma_unclassified_opcode(op: u8, rest: u32)
    requires
        op < 64,
        rest < 0x400_0000,
        format_of(op) is None,
    ensures
        decode((op as u32) << 26 | rest) is None,
{
    lemma_opcode_of_composed(op, rest);
}

/// In an R-format word, function code 0 with shift amount 0 is the no-op,
/// and function code 0 with any other shift amount is the shift left
/// logical.
pub proof fn lemma_function_code_zero(raw: u32)
    requires
        format_of(opcode(raw)) == Some(FormatClass::R),
        funct(raw) == 0,
    ensures
        decode(raw) matches Some(decoded) && decoded.kind == (if shamt(raw) == 0 {
            Kind::Noop
        } else {
            Kind::Sll
        }),
{
}

/// The text of a decoded instruction depends on the word alone: two records
/// of one word are the same record, and render alike in both forms.
pub proof fn lemma_text_depends_on_word(first: InstructionView, second: InstructionView)
    requires
        first.well_formed(),
        second.well_formed(),
        first.raw == second.raw,
    ensures
        first == second,
        first.text() == second.text(),
        first.verbose_text() == second.verbose_text(),
{
}

/// An operation belongs to one entry of the tables: two words that decode
/// to the same operation have the same opcode, hence the same format, and
/// in the R format the same function code.
pub proof fn lemma_kind_names_one_entry(first: u32, second: u32)
    requires
        decode(first) is Some,
        decode(second) is Some,
        decode(first).unwrap().kind == decode(second).unwrap().kind,
    ensures
        opcode(first) == opcode(second),
        format_of(opcode(first)) == Some(FormatClass::R) ==> funct(first) == funct(second),
{
}

} // verus!
