//! The format classifier: which operand layout an opcode selects.
//!
//! The classifier is a table from the 6-bit opcode to one of three formats.
//! It is held in a [`once_cell::sync::Lazy`] cell, which builds it when it is
//! first asked for; nothing writes to it afterwards.
use once_cell::sync::Lazy;
use std::collections::HashMap;
use vstd::prelude::*;

verus! {

/// The operand layout that an opcode selects.
#[derive(Clone, Copy, Debug, PartialEq, Eq, Structural, Hash)]
pub enum FormatClass {
    /// Three registers, a shift amount and a function code.
    R,
    /// Two registers and a 16-bit value.
    I,
    /// A 26-bit target.
    J,
}

/// The classifier as a mathematical map: every opcode that is recognised,
/// with its format.
pub open spec fn format_table() -> Map<u8, FormatClass> {
    map![
        0b000000u8 => FormatClass::R,
        0b001000u8 => FormatClass::I,
        0b001001u8 => FormatClass::I,
        0b001100u8 => FormatClass::I,
        0b000100u8 => FormatClass::I,
        0b000001u8 => FormatClass::I,
        0b000111u8 => FormatClass::I,
        0b000110u8 => FormatClass::I,
        0b000101u8 => FormatClass::I,
        0b000010u8 => FormatClass::J,
        0b000011u8 => FormatClass::J,
        0b100000u8 => FormatClass::I,
        0b001111u8 => FormatClass::I,
        0b100011u8 => FormatClass::I,
        0b001101u8 => FormatClass::I,
        0b101000u8 => FormatClass::I,
        0b001010u8 => FormatClass::I,
        0b001011u8 => FormatClass::I,
        0b101011u8 => FormatClass::I,
        0b001110u8 => FormatClass::I,
    ]
}

/// The format of an opcode, or `None` where the classifier does not hold it.
pub open spec fn format_of(opcode: u8) -> Option<FormatClass> {
    if format_table().contains_key(opcode) {
        Some(format_table()[opcode])
    } else {
        None
    }
}

/// The classifier holds twenty opcodes: one of the R format, two of the J
/// format, and seventeen of the I format.
pub proof fn lemma_format_table_entries(opcode: u8)
    ensures
        format_of(opcode) == Some(FormatClass::R) <==> opcode == 0,
        format_of(opcode) == Some(FormatClass::J) <==> opcode == 2 || opcode == 3,
        format_of(opcode) == Some(FormatClass::I) <==> opcode == 1 || 4 <= opcode <= 15 || opcode
            == 0b100000 || opcode == 0b100011 || opcode == 0b101000 || opcode == 0b101011,
{
}

/// Builds the classifier's table.
pub fn build_format_table() -> (table: HashMap<u8, FormatClass>)
    ensures
        table@ == format_table(),
{
    broadcast use vstd::std_specs::hash::group_hash_axioms;

    let mut table: HashMap<u8, FormatClass> = HashMap::new();
    table.insert(0b000000, FormatClass::R);
    table.insert(0b001000, FormatClass::I);
    table.insert(0b001001, FormatClass::I);
    table.insert(0b001100, FormatClass::I);
    table.insert(0b000100, FormatClass::I);
    table.insert(0b000001, FormatClass::I);
    table.insert(0b000111, FormatClass::I);
    table.insert(0b000110, FormatClass::I);
    table.insert(0b000101, FormatClass::I);
    table.insert(0b000010, FormatClass::J);
    table.insert(0b000011, FormatClass::J);
    table.insert(0b100000, FormatClass::I);
    table.insert(0b001111, FormatClass::I);
    table.insert(0b100011, FormatClass::I);
    table.insert(0b001101, FormatClass::I);
    table.insert(0b101000, FormatClass::I);
    table.insert(0b001010, FormatClass::I);
    table.insert(0b001011, FormatClass::I);
    table.insert(0b101011, FormatClass::I);
    table.insert(0b001110, FormatClass::I);
    table
}

/// The table inside a `once_cell::sync::Lazy` cell, which is made with the
/// table's builder and runs it when the cell is first forced.
///
/// Verus does not look inside: the second type parameter of the cell is a
/// function pointer, which Verus does not take.
#[verifier::external_body]
pub struct LazyFormatTable {
    cell: Lazy<HashMap<u8, FormatClass>>,
}

/// The table that a cell hands out when it is forced.
pub uninterp spec fn cell_table(cell: LazyFormatTable) -> Map<u8, FormatClass>;

/// Makes a cell, by `once_cell::sync::Lazy::new` with
/// [`build_format_table`] as the initialiser.
///
/// `Lazy::new` stores the initialiser and runs nothing. The first
/// `Lazy::force` calls it and keeps what it returns, so the table that the
/// cell hands out is one that `build_format_table` returned, and the
/// contract of `build_format_table` fixes what such a table holds. That the
/// cell passes the initialiser's value on unchanged is taken on trust.
#[verifier::external_body]
fn lazy_format_table() -> (cell: LazyFormatTable)
    ensures
        cell_table(cell) == format_table(),
{
    LazyFormatTable { cell: Lazy::new(build_format_table) }
}

/// Forces a cell, by `once_cell::sync::Lazy::force`: the initialiser runs
/// if it has not run yet, and the result is a reference to the value that
/// the cell keeps. Taken on trust: that value is the cell's table.
///
/// `Lazy::force` panics where an earlier run of the initialiser panicked.
/// Every cell comes from [`lazy_format_table`], whose initialiser is
/// verified and does not.
#[verifier::external_body]
fn force_format_table(cell: &LazyFormatTable) -> (table: &HashMap<u8, FormatClass>)
    ensures
        table@ == cell_table(*cell),
{
    Lazy::force(&cell.cell)
}

/// The format classifier.
///
/// Making one is cheap: the table is built when an opcode is first looked
/// up, once, and every later lookup reads the same table. A classifier can
/// be shared between threads.
pub struct Classifier {
    table: LazyFormatTable,
}

impl View for Classifier {
    type V = Map<u8, FormatClass>;

    /// The table that the classifier answers from.
    closed spec fn view(&self) -> Map<u8, FormatClass> {
        cell_table(self.table)
    }
}

impl Classifier {
    #[verifier::type_invariant]
    spec fn holds_format_table(self) -> bool {
        self@ == format_table()
    }

    /// Makes a classifier. Its table is not built yet.
    pub fn new() -> (classifier: Classifier)
        ensures
            classifier@ == format_table(),
    {
        Classifier { table: lazy_format_table() }
    }

    /// Looks an opcode up.
    ///
    /// Returns the opcode's format, or `None` for an opcode that the
    /// classifier does not hold.
    pub fn classify(&self, opcode: u8) -> (class: Option<FormatClass>)
        ensures
            self@ == format_table(),
            class == format_of(opcode),
    {
        broadcast use vstd::std_specs::hash::group_hash_axioms;

        proof {
            use_type_invariant(self);
        }
        let table = force_format_table(&self.table);
        match table.get(&opcode) {
            Some(class) => Some(*class),
            None => None,
        }
    }
}

} // verus!
