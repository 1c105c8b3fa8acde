//! Decoded instructions: the mnemonic, the operands, and the decoder that
//! resolves both from a word.
use crate::classifier::{format_of, lemma_format_table_entries, Classifier, FormatClass};
use crate::fields::{
    funct, immediate, opcode, rd, read_funct, read_immediate, read_opcode, read_rd, read_rs,
    read_rt, read_shamt, read_target, rs, rt, shamt, target,
};
use crate::text::{decimal, hexadecimal, push_decimal, push_hexadecimal};
use crate::Register;
use vstd::prelude::*;

verus! {

/// The operation that an instruction encodes.
#[derive(Clone, Copy, Debug, PartialEq, Eq, Structural, Hash)]
pub enum Kind {
    /// Add, trapping on overflow.
    Add,
    /// Add an immediate, trapping on overflow.
    Addi,
    /// Add an immediate, without trapping.
    Addiu,
    /// Add, without trapping.
    Addu,
    /// Bitwise and.
    And,
    /// Bitwise and with an immediate.
    Andi,
    /// Branch if equal.
    Beq,
    /// Branch if greater than or equal to zero.
    Bgez,
    /// Branch if greater than or equal to zero, and link.
    Bgezal,
    /// Branch if greater than zero.
    Bgtz,
    /// Branch if less than or equal to zero.
    Blez,
    /// Branch if less than zero.
    Bltz,
    /// Branch if less than zero, and link.
    Bltzal,
    /// Branch if not equal.
    Bne,
    /// Signed division.
    Div,
    /// Unsigned division.
    Divu,
    /// Jump.
    J,
    /// Jump and link.
    Jal,
    /// Jump to the address in a register.
    Jr,
    /// Load a byte.
    Lb,
    /// Load the upper half of a register from an immediate.
    Lui,
    /// Load a word.
    Lw,
    /// Move from the high result register.
    Mfhi,
    /// Move from the low result register.
    Mflo,
    /// Signed multiplication.
    Mult,
    /// Unsigned multiplication.
    Multu,
    /// No operation.
    Noop,
    /// Bitwise or.
    Or,
    /// Bitwise or with an immediate.
    Ori,
    /// Store a byte.
    Sb,
    /// Shift left logical.
    Sll,
    /// Shift left logical by a register.
    Sllv,
    /// Set if less than, signed.
    Slt,
    /// Set if less than an immediate, signed.
    Slti,
    /// Set if less than an immediate, unsigned.
    Sltiu,
    /// Set if less than, unsigned.
    Sltu,
    /// Shift right arithmetic.
    Sra,
    /// Shift right logical.
    Srl,
    /// Shift right logical by a register.
    Srlv,
    /// Subtract, trapping on overflow.
    Sub,
    /// Subtract, without trapping.
    Subu,
    /// Store a word.
    Sw,
    /// System call.
    Syscall,
    /// Bitwise exclusive or.
    Xor,
    /// Bitwise exclusive or with an immediate.
    Xori,
}

impl Kind {
    /// The mnemonic of the operation, as a sequence of characters.
    pub open spec fn mnemonic_text(self) -> Seq<char> {
        match self {
            Kind::Add => "add"@,
            Kind::Addi => "addi"@,
            Kind::Addiu => "addiu"@,
            Kind::Addu => "addu"@,
            Kind::And => "and"@,
            Kind::Andi => "andi"@,
            Kind::Beq => "beq"@,
            Kind::Bgez => "bgez"@,
            Kind::Bgezal => "bgezal"@,
            Kind::Bgtz => "bgtz"@,
            Kind::Blez => "blez"@,
            Kind::Bltz => "bltz"@,
            Kind::Bltzal => "bltzal"@,
            Kind::Bne => "bne"@,
            Kind::Div => "div"@,
            Kind::Divu => "divu"@,
            Kind::J => "j"@,
            Kind::Jal => "jal"@,
            Kind::Jr => "jr"@,
            Kind::Lb => "lb"@,
            Kind::Lui => "lui"@,
            Kind::Lw => "lw"@,
            Kind::Mfhi => "mfhi"@,
            Kind::Mflo => "mflo"@,
            Kind::Mult => "mult"@,
            Kind::Multu => "multu"@,
            Kind::Noop => "noop"@,
            Kind::Or => "or"@,
            Kind::Ori => "ori"@,
            Kind::Sb => "sb"@,
            Kind::Sll => "sll"@,
            Kind::Sllv => "sllv"@,
            Kind::Slt => "slt"@,
            Kind::Slti => "slti"@,
            Kind::Sltiu => "sltiu"@,
            Kind::Sltu => "sltu"@,
            Kind::Sra => "sra"@,
            Kind::Srl => "srl"@,
            Kind::Srlv => "srlv"@,
            Kind::Sub => "sub"@,
            Kind::Subu => "subu"@,
            Kind::Sw => "sw"@,
            Kind::Syscall => "syscall"@,
            Kind::Xor => "xor"@,
            Kind::Xori => "xori"@,
        }
    }

    /// The mnemonic of the operation.
    pub fn mnemonic(&self) -> (name: &'static str)
        ensures
            name@ == self.mnemonic_text(),
    {
        match self {
            Kind::Add => "add",
            Kind::Addi => "addi",
            Kind::Addiu => "addiu",
            Kind::Addu => "addu",
            Kind::And => "and",
            Kind::Andi => "andi",
            Kind::Beq => "beq",
            Kind::Bgez => "bgez",
            Kind::Bgezal => "bgezal",
            Kind::Bgtz => "bgtz",
            Kind::Blez => "blez",
            Kind::Bltz => "bltz",
            Kind::Bltzal => "bltzal",
            Kind::Bne => "bne",
            Kind::Div => "div",
            Kind::Divu => "divu",
            Kind::J => "j",
            Kind::Jal => "jal",
            Kind::Jr => "jr",
            Kind::Lb => "lb",
            Kind::Lui => "lui",
            Kind::Lw => "lw",
            Kind::Mfhi => "mfhi",
            Kind::Mflo => "mflo",
            Kind::Mult => "mult",
            Kind::Multu => "multu",
            Kind::Noop => "noop",
            Kind::Or => "or",
            Kind::Ori => "ori",
            Kind::Sb => "sb",
            Kind::Sll => "sll",
            Kind::Sllv => "sllv",
            Kind::Slt => "slt",
            Kind::Slti => "slti",
            Kind::Sltiu => "sltiu",
            Kind::Sltu => "sltu",
            Kind::Sra => "sra",
            Kind::Srl => "srl",
            Kind::Srlv => "srlv",
            Kind::Sub => "sub",
            Kind::Subu => "subu",
            Kind::Sw => "sw",
            Kind::Syscall => "syscall",
            Kind::Xor => "xor",
            Kind::Xori => "xori",
        }
    }
}

/// The operation of an R-format word with the given function code and shift
/// amount, or `None` for a function code that stands for no operation.
///
/// Function code 0 is shared by two operations: with shift amount 0 it is
/// the no-op, with any other shift amount the shift left logical.
pub open spec fn r_kind(funct: u8, shamt: u8) -> Option<Kind> {
    if funct == 0 && shamt == 0 {
        Some(Kind::Noop)
    } else {
        match funct {
            0b100000 => Some(Kind::Add),
            0b100001 => Some(Kind::Addu),
            0b100100 => Some(Kind::And),
            0b011010 => Some(Kind::Div),
            0b011011 => Some(Kind::Divu),
            0b001000 => Some(Kind::Jr),
            0b010000 => Some(Kind::Mfhi),
            0b010010 => Some(Kind::Mflo),
            0b011000 => Some(Kind::Mult),
            0b011001 => Some(Kind::Multu),
            0b100101 => Some(Kind::Or),
            0b000000 => Some(Kind::Sll),
            0b000100 => Some(Kind::Sllv),
            0b101010 => Some(Kind::Slt),
            0b101011 => Some(Kind::Sltu),
            0b000011 => Some(Kind::Sra),
            0b000010 => Some(Kind::Srl),
            0b000110 => Some(Kind::Srlv),
            0b100010 => Some(Kind::Sub),
            0b100011 => Some(Kind::Subu),
            0b100110 => Some(Kind::Xor),
            0b001100 => Some(Kind::Syscall),
            _ => None,
        }
    }
}

/// The operation of an I-format word with the given opcode and target
/// register field, or `None` for a pair that stands for no operation.
///
/// Most opcodes name their operation alone. Opcode 1 names four branches,
/// told apart by the target register field; the opcodes of `bgtz` and of
/// `blez` name one operation each, and only with that field at zero.
pub open spec fn i_kind(opcode: u8, rt: Register) -> Option<Kind> {
    match (opcode, rt) {
        (0b001000, _) => Some(Kind::Addi),
        (0b001001, _) => Some(Kind::Addiu),
        (0b001100, _) => Some(Kind::Andi),
        (0b000100, _) => Some(Kind::Beq),
        (0b000001, 0b00001) => Some(Kind::Bgez),
        (0b000001, 0b10001) => Some(Kind::Bgezal),
        (0b000001, 0b00000) => Some(Kind::Bltz),
        (0b000001, 0b10000) => Some(Kind::Bltzal),
        (0b000111, 0b00000) => Some(Kind::Bgtz),
        (0b000110, 0b00000) => Some(Kind::Blez),
        (0b000101, _) => Some(Kind::Bne),
        (0b100000, _) => Some(Kind::Lb),
        (0b001111, _) => Some(Kind::Lui),
        (0b100011, _) => Some(Kind::Lw),
        (0b001101, _) => Some(Kind::Ori),
        (0b101000, _) => Some(Kind::Sb),
        (0b001010, _) => Some(Kind::Slti),
        (0b001011, _) => Some(Kind::Sltiu),
        (0b101011, _) => Some(Kind::Sw),
        (0b001110, _) => Some(Kind::Xori),
        _ => None,
    }
}

/// The operation of a J-format word with the given opcode, or `None` for an
/// opcode that names no jump.
pub open spec fn j_kind(opcode: u8) -> Option<Kind> {
    match opcode {
        0b000010 => Some(Kind::J),
        0b000011 => Some(Kind::Jal),
        _ => None,
    }
}

/// Resolves the operation of an R-format word from its function code and
/// shift amount.
pub fn resolve_r(funct: u8, shamt: u8) -> (kind: Option<Kind>)
    ensures
        kind == r_kind(funct, shamt),
{
    match funct {
        0b000000 if shamt == 0 => Some(Kind::Noop),
        0b100000 => Some(Kind::Add),
        0b100001 => Some(Kind::Addu),
        0b100100 => Some(Kind::And),
        0b011010 => Some(Kind::Div),
        0b011011 => Some(Kind::Divu),
        0b001000 => Some(Kind::Jr),
        0b010000 => Some(Kind::Mfhi),
        0b010010 => Some(Kind::Mflo),
        0b011000 => Some(Kind::Mult),
        0b011001 => Some(Kind::Multu),
        0b100101 => Some(Kind::Or),
        0b000000 => Some(Kind::Sll),
        0b000100 => Some(Kind::Sllv),
        0b101010 => Some(Kind::Slt),
        0b101011 => Some(Kind::Sltu),
        0b000011 => Some(Kind::Sra),
        0b000010 => Some(Kind::Srl),
        0b000110 => Some(Kind::Srlv),
        0b100010 => Some(Kind::Sub),
        0b100011 => Some(Kind::Subu),
        0b100110 => Some(Kind::Xor),
        0b001100 => Some(Kind::Syscall),
        _ => None,
    }
}

/// Resolves the operation of an I-format word from its opcode and target
/// register field.
pub fn resolve_i(opcode: u8, rt: Register) -> (kind: Option<Kind>)
    ensures
        kind == i_kind(opcode, rt),
{
    match (opcode, rt) {
        (0b001000, _) => Some(Kind::Addi),
        (0b001001, _) => Some(Kind::Addiu),
        (0b001100, _) => Some(Kind::Andi),
        (0b000100, _) => Some(Kind::Beq),
        (0b000001, 0b00001) => Some(Kind::Bgez),
        (0b000001, 0b10001) => Some(Kind::Bgezal),
        (0b000001, 0b00000) => Some(Kind::Bltz),
        (0b000001, 0b10000) => Some(Kind::Bltzal),
        (0b000111, 0b00000) => Some(Kind::Bgtz),
        (0b000110, 0b00000) => Some(Kind::Blez),
        (0b000101, _) => Some(Kind::Bne),
        (0b100000, _) => Some(Kind::Lb),
        (0b001111, _) => Some(Kind::Lui),
        (0b100011, _) => Some(Kind::Lw),
        (0b001101, _) => Some(Kind::Ori),
        (0b101000, _) => Some(Kind::Sb),
        (0b001010, _) => Some(Kind::Slti),
        (0b001011, _) => Some(Kind::Sltiu),
        (0b101011, _) => Some(Kind::Sw),
        (0b001110, _) => Some(Kind::Xori),
        _ => None,
    }
}

/// The operands of an instruction, laid out as its format has them.
#[derive(Clone, Copy, Debug, PartialEq, Eq, Structural, Hash)]
pub enum Format {
    /// The register format.
    R {
        /// The source register.
        rs: Register,
        /// The target register.
        rt: Register,
        /// The destination register.
        rd: Register,
        /// The shift amount.
        shamt: u8,
        /// The function code.
        funct: u8,
    },
    /// The immediate format.
    I {
        /// The source register.
        rs: Register,
        /// The target register.
        rt: Register,
        /// The immediate value or offset.
        val: u16,
    },
    /// The jump format, with its 26-bit target.
    J(u32),
}

/// A register operand: the marker `$` and the register's index in decimal.
pub open spec fn register_text(reg: Register) -> Seq<char> {
    "$"@ + decimal(reg as nat)
}

/// Appends a register operand to `out`.
fn push_register(out: &mut String, reg: Register)
    ensures
        final(out)@ == old(out)@ + register_text(reg),
{
    out.append("$");
    push_decimal(out, reg as u32);
}

impl Format {
    /// The operands that the R layout gives a word.
    pub open spec fn r_of(raw: u32) -> Format {
        Format::R { rs: rs(raw), rt: rt(raw), rd: rd(raw), shamt: shamt(raw), funct: funct(raw) }
    }

    /// The operands that the I layout gives a word.
    pub open spec fn i_of(raw: u32) -> Format {
        Format::I { rs: rs(raw), rt: rt(raw), val: immediate(raw) }
    }

    /// The operands that the J layout gives a word.
    pub open spec fn j_of(raw: u32) -> Format {
        Format::J(target(raw))
    }

    /// Every operand fits the bits that its field has in a word: a register
    /// and a shift amount five, a function code six, a jump target 26.
    pub open spec fn in_range(self) -> bool {
        match self {
            Format::R { rs, rt, rd, shamt, funct } => rs < 32 && rt < 32 && rd < 32 && shamt < 32
                && funct < 64,
            Format::I { rs, rt, .. } => rs < 32 && rt < 32,
            Format::J(target) => target < 0x400_0000,
        }
    }

    /// The operands as they stand in a line of disassembly, separated by
    /// single spaces.
    ///
    /// - R: the source, target and destination registers. The shift amount
    ///   and the function code are not written.
    /// - I: the source and target registers, then the value in lower-case
    ///   hexadecimal.
    /// - J: the target in lower-case hexadecimal.
    pub open spec fn operands_text(self) -> Seq<char> {
        match self {
            Format::R { rs, rt, rd, .. } => register_text(rs) + " "@ + register_text(rt) + " "@
                + register_text(rd),
            Format::I { rs, rt, val } => register_text(rs) + " "@ + register_text(rt) + " "@
                + hexadecimal(val as nat),
            Format::J(target) => hexadecimal(target as nat),
        }
    }

    /// The operands in the fuller form: as [`Self::operands_text`], and for
    /// the R format the shift amount and the function code after them, each
    /// in lower-case hexadecimal.
    pub open spec fn verbose_operands_text(self) -> Seq<char> {
        match self {
            Format::R { shamt, funct, .. } => self.operands_text() + " "@ + hexadecimal(
                shamt as nat,
            ) + " "@ + hexadecimal(funct as nat),
            _ => self.operands_text(),
        }
    }

    /// Appends the operands to `out`, in the fuller form if `verbose` is
    /// set.
    fn push_operands(&self, out: &mut String, verbose: bool)
        ensures
            final(out)@ == old(out)@ + (if verbose {
                self.verbose_operands_text()
            } else {
                self.operands_text()
            }),
    {
        match *self {
            Format::R { rs, rt, rd, shamt, funct } => {
                push_register(out, rs);
                out.append(" ");
                push_register(out, rt);
                out.append(" ");
                push_register(out, rd);
                if verbose {
                    out.append(" ");
                    push_hexadecimal(out, shamt as u32);
                    out.append(" ");
                    push_hexadecimal(out, funct as u32);
                }
            },
            Format::I { rs, rt, val } => {
                push_register(out, rs);
                out.append(" ");
                push_register(out, rt);
                out.append(" ");
                push_hexadecimal(out, val as u32);
            },
            Format::J(target) => {
                push_hexadecimal(out, target);
            },
        }
    }

    /// Renders the operands.
    pub fn render(&self) -> (text: String)
        ensures
            text@ == self.operands_text(),
    {
        let mut text = String::new();
        self.push_operands(&mut text, false);
        text
    }

    /// Renders the operands in the fuller form.
    pub fn render_verbose(&self) -> (text: String)
        ensures
            text@ == self.verbose_operands_text(),
    {
        let mut text = String::new();
        self.push_operands(&mut text, true);
        text
    }
}

/// What an instruction holds, as a plain value.
pub struct InstructionView {
    /// The word that was decoded.
    pub raw: u32,
    /// The operation.
    pub kind: Kind,
    /// The operands.
    pub format: Format,
}

/// What a word decodes to, or `None` for a word that is not recognised.
///
/// The opcode selects the format. The format gives the operands their
/// places in the word and names the selector that resolves the operation:
/// function code and shift amount for R, opcode and target register field
/// for I, the opcode alone for J. A word is not recognised where the
/// classifier does not hold its opcode or the selector stands for no
/// operation.
pub open spec fn decode(raw: u32) -> Option<InstructionView> {
    match format_of(opcode(raw)) {
        Some(FormatClass::R) => match r_kind(funct(raw), shamt(raw)) {
            Some(kind) => Some(InstructionView { raw, kind, format: Format::r_of(raw) }),
            None => None,
        },
        Some(FormatClass::I) => match i_kind(opcode(raw), rt(raw)) {
            Some(kind) => Some(InstructionView { raw, kind, format: Format::i_of(raw) }),
            None => None,
        },
        Some(FormatClass::J) => match j_kind(opcode(raw)) {
            Some(kind) => Some(InstructionView { raw, kind, format: Format::j_of(raw) }),
            None => None,
        },
        None => None,
    }
}

impl InstructionView {
    /// The record is what its own word decodes to: the operation and the
    /// operands agree with each other and with the word.
    pub open spec fn well_formed(self) -> bool {
        decode(self.raw) == Some(self)
    }

    /// The line of disassembly: the mnemonic, a space, the operands.
    pub open spec fn text(self) -> Seq<char> {
        self.kind.mnemonic_text() + " "@ + self.format.operands_text()
    }

    /// The line of disassembly in the fuller form.
    pub open spec fn verbose_text(self) -> Seq<char> {
        self.kind.mnemonic_text() + " "@ + self.format.verbose_operands_text()
    }
}

/// A decoded instruction: the word, its operation and its operands.
///
/// Only the decoder makes one, so the three always agree.
#[derive(Clone, Copy, Debug, PartialEq, Eq, Hash)]
pub struct Instruction {
    raw: u32,
    kind: Kind,
    format: Format,
}

impl View for Instruction {
    type V = InstructionView;

    closed spec fn view(&self) -> InstructionView {
        InstructionView { raw: self.raw, kind: self.kind, format: self.format }
    }
}

impl Instruction {
    #[verifier::type_invariant]
    spec fn agrees_with_word(self) -> bool {
        self@.well_formed()
    }

    /// The word that was decoded, unchanged.
    pub fn raw(&self) -> (raw: u32)
        ensures
            raw == self@.raw,
            self@.well_formed(),
    {
        proof {
            use_type_invariant(self);
        }
        self.raw
    }

    /// The operation.
    pub fn kind(&self) -> (kind: Kind)
        ensures
            kind == self@.kind,
            self@.well_formed(),
    {
        proof {
            use_type_invariant(self);
        }
        self.kind
    }

    /// The operands.
    pub fn format(&self) -> (format: Format)
        ensures
            format == self@.format,
            self@.well_formed(),
    {
        proof {
            use_type_invariant(self);
        }
        self.format
    }

    /// Renders the instruction as a line of disassembly.
    pub fn render(&self) -> (text: String)
        ensures
            text@ == self@.text(),
    {
        let mut text = String::from_str(self.kind.mnemonic());
        text.append(" ");
        self.format.push_operands(&mut text, false);
        text
    }

    /// Renders the instruction in the fuller form, which for the R format
    /// also shows the shift amount and the function code.
    pub fn render_verbose(&self) -> (text: String)
        ensures
            text@ == self@.verbose_text(),
    {
        let mut text = String::from_str(self.kind.mnemonic());
        text.append(" ");
        self.format.push_operands(&mut text, true);
        text
    }
}

/// Decodes an instruction word.
///
/// Returns the instruction, or `None` for a word that is not recognised:
/// one whose opcode the classifier does not hold, an R-format word whose
/// function code stands for no operation, or an I-format word whose opcode
/// and target register field together stand for none.
///
/// Each call makes a classifier of its own and so builds the table anew. To
/// decode many words, make one [`Classifier`] and call [`parse_with`].
pub fn parse(raw: u32) -> (result: Option<Instruction>)
    ensures
        match result {
            Some(instruction) => decode(raw) == Some(instruction@),
            None => decode(raw) is None,
        },
{
    let classifier = Classifier::new();
    parse_with(&classifier, raw)
}

/// Decodes an instruction word with a classifier that the caller keeps.
///
/// The result is that of [`parse`].
pub fn parse_with(classifier: &Classifier, raw: u32) -> (result: Option<Instruction>)
    ensures
        match result {
            Some(instruction) => decode(raw) == Some(instruction@),
            None => decode(raw) is None,
        },
{
    let opcode: u8 = read_opcode(raw);
    let class = match classifier.classify(opcode) {
        Some(class) => class,
        None => {
            return None;
        },
    };
    match class {
        FormatClass::R => {
            let rs: Register = read_rs(raw);
            let rt: Register = read_rt(raw);
            let rd: Register = read_rd(raw);
            let shamt: u8 = read_shamt(raw);
            let funct: u8 = read_funct(raw);
            match resolve_r(funct, shamt) {
                Some(kind) => Some(
                    Instruction { raw, kind, format: Format::R { rs, rt, rd, shamt, funct } },
                ),
                None => None,
            }
        },
        FormatClass::I => {
            let rs: Register = read_rs(raw);
            let rt: Register = read_rt(raw);
            let val: u16 = read_immediate(raw);
            match resolve_i(opcode, rt) {
                Some(kind) => Some(Instruction { raw, kind, format: Format::I { rs, rt, val } }),
                None => None,
            }
        },
        FormatClass::J => {
            proof {
                lemma_format_table_entries(opcode);
            }
            let kind = if opcode == 0b000010 {
                Kind::J
            } else {
                Kind::Jal
            };
            Some(Instruction { raw, kind, format: Format::J(read_target(raw)) })
        },
    }
}

} // verus!
