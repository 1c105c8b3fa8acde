use mips_decoder::classifier::Classifier;
use mips_decoder::instruction::{parse, parse_with, Format, Instruction, Kind};

/// The opcodes of the I format that name their operation alone.
const PLAIN_I: [(u32, Kind); 14] = [
    (0b001000, Kind::Addi),
    (0b001001, Kind::Addiu),
    (0b001100, Kind::Andi),
    (0b000100, Kind::Beq),
    (0b000101, Kind::Bne),
    (0b100000, Kind::Lb),
    (0b001111, Kind::Lui),
    (0b100011, Kind::Lw),
    (0b001101, Kind::Ori),
    (0b101000, Kind::Sb),
    (0b001010, Kind::Slti),
    (0b001011, Kind::Sltiu),
    (0b101011, Kind::Sw),
    (0b001110, Kind::Xori),
];

/// The opcodes of the I format that also read the target register field.
const KEYED_I: [(u32, u32, Kind); 6] = [
    (0b000001, 0b00001, Kind::Bgez),
    (0b000001, 0b10001, Kind::Bgezal),
    (0b000001, 0b00000, Kind::Bltz),
    (0b000001, 0b10000, Kind::Bltzal),
    (0b000111, 0b00000, Kind::Bgtz),
    (0b000110, 0b00000, Kind::Blez),
];

/// The function codes of the R format, but for 0.
const FUNCTS: [(u32, Kind); 21] = [
    (0b100000, Kind::Add),
    (0b100001, Kind::Addu),
    (0b100100, Kind::And),
    (0b011010, Kind::Div),
    (0b011011, Kind::Divu),
    (0b001000, Kind::Jr),
    (0b010000, Kind::Mfhi),
    (0b010010, Kind::Mflo),
    (0b011000, Kind::Mult),
    (0b011001, Kind::Multu),
    (0b100101, Kind::Or),
    (0b000100, Kind::Sllv),
    (0b101010, Kind::Slt),
    (0b101011, Kind::Sltu),
    (0b000011, Kind::Sra),
    (0b000010, Kind::Srl),
    (0b000110, Kind::Srlv),
    (0b100010, Kind::Sub),
    (0b100011, Kind::Subu),
    (0b100110, Kind::Xor),
    (0b001100, Kind::Syscall),
];

/// Bit patterns for the 26 bits below the opcode.
const LOW_BITS: [u32; 8] = [
    0,
    0x3ff_ffff,
    0x200_0000,
    0x1ff_ffff,
    0x155_5555,
    0x2aa_aaaa,
    0x001_0000,
    0x000_003f,
];

fn decoded(raw: u32) -> Instruction {
    match parse(raw) {
        Some(instruction) => instruction,
        None => panic!("{:#010x} is not recognised", raw),
    }
}

#[test]
fn test() {
    let raw = 0x00220821;
    if let Some(result) = parse(raw) {
        println!("{}", result.render());
    } else {
        println!("None");
    }
}

#[test]
fn addu_word_decodes_to_its_fields() {
    let instruction = decoded(0x00220821);
    assert_eq!(instruction.raw(), 0x00220821);
    assert_eq!(instruction.kind(), Kind::Addu);
    assert_eq!(
        instruction.format(),
        Format::R { rs: 1, rt: 2, rd: 1, shamt: 0, funct: 0x21 }
    );
    assert_eq!(instruction.kind().mnemonic(), "addu");
    assert_eq!(instruction.render(), "addu $1 $2 $1");
}

#[test]
fn jump_opcode_decodes_whatever_the_target() {
    let instruction = decoded(0x0bff_ffff);
    assert_eq!(instruction.kind(), Kind::J);
    assert_eq!(instruction.format(), Format::J(0x3ff_ffff));
    assert_eq!(instruction.render(), "j 3ffffff");
    for low in LOW_BITS {
        let raw = (0b000010 << 26) | low;
        let instruction = decoded(raw);
        assert_eq!(instruction.raw(), raw);
        assert_eq!(instruction.kind(), Kind::J);
        assert_eq!(instruction.format(), Format::J(low));
        assert_eq!(instruction.render(), format!("j {:x}", low));
    }
}

#[test]
fn jump_and_link_decodes() {
    let instruction = decoded(0x0c00_0040);
    assert_eq!(instruction.kind(), Kind::Jal);
    assert_eq!(instruction.format(), Format::J(0x40));
    assert_eq!(instruction.render(), "jal 40");
}

#[test]
fn branch_on_opcode_one_is_keyed_by_target_register() {
    let bgez = decoded((0b000001 << 26) | (0b00001 << 16));
    assert_eq!(bgez.kind(), Kind::Bgez);
    assert_eq!(bgez.kind().mnemonic(), "bgez");
    assert_eq!(bgez.format(), Format::I { rs: 0, rt: 1, val: 0 });
    assert_eq!(parse((0b000001 << 26) | (0b11111 << 16)), None);
}

#[test]
fn opcode_one_recognises_four_target_registers_only() {
    for rt in 0..32u32 {
        let raw = (0b000001 << 26) | (7 << 21) | (rt << 16) | 0x1234;
        let expected = match rt {
            0b00001 => Some(Kind::Bgez),
            0b10001 => Some(Kind::Bgezal),
            0b00000 => Some(Kind::Bltz),
            0b10000 => Some(Kind::Bltzal),
            _ => None,
        };
        assert_eq!(parse(raw).map(|instruction| instruction.kind()), expected);
    }
}

#[test]
fn bgtz_and_blez_need_a_zero_target_register() {
    for (opcode, kind) in [(0b000111u32, Kind::Bgtz), (0b000110u32, Kind::Blez)] {
        for rt in 0..32u32 {
            let raw = (opcode << 26) | (3 << 21) | (rt << 16) | 0xfffc;
            match parse(raw) {
                Some(instruction) => {
                    assert_eq!(rt, 0);
                    assert_eq!(instruction.kind(), kind);
                    assert_eq!(instruction.format(), Format::I { rs: 3, rt: 0, val: 0xfffc });
                }
                None => assert_ne!(rt, 0),
            }
        }
    }
}

#[test]
fn unassigned_opcode_is_not_recognised() {
    assert_eq!(parse(0xffff_ffff), None);
    assert_eq!(parse(0xfc00_0000), None);
    for low in LOW_BITS {
        assert_eq!(parse((0b111111 << 26) | low), None);
    }
}

#[test]
fn every_table_entry_decodes_to_its_mnemonic() {
    for (funct, kind) in FUNCTS {
        for middle in [0u32, 0x3ff_ffc0, 0x022_0800, 0x155_5540] {
            let raw = middle | funct;
            let instruction = decoded(raw);
            assert_eq!(instruction.kind(), kind);
            assert_eq!(instruction.raw(), raw);
        }
    }
    for (opcode, kind) in PLAIN_I {
        for low in LOW_BITS {
            let raw = (opcode << 26) | low;
            let instruction = decoded(raw);
            assert_eq!(instruction.kind(), kind);
            assert_eq!(instruction.raw(), raw);
        }
    }
    for (opcode, rt, kind) in KEYED_I {
        for rest in [0u32, 0x3e0_ffff, 0x120_8001] {
            let raw = (opcode << 26) | (rt << 16) | rest;
            let instruction = decoded(raw);
            assert_eq!(instruction.kind(), kind);
            assert_eq!(instruction.raw(), raw);
        }
    }
    for (opcode, kind) in [(0b000010u32, Kind::J), (0b000011u32, Kind::Jal)] {
        for low in LOW_BITS {
            let raw = (opcode << 26) | low;
            let instruction = decoded(raw);
            assert_eq!(instruction.kind(), kind);
            assert_eq!(instruction.raw(), raw);
        }
    }
}

#[test]
fn opcodes_outside_the_classifier_never_decode() {
    let mut absent = 0;
    for opcode in 0..64u32 {
        let known = opcode == 0
            || opcode == 2
            || opcode == 3
            || PLAIN_I.iter().any(|(op, _)| *op == opcode)
            || KEYED_I.iter().any(|(op, _, _)| *op == opcode);
        if known {
            continue;
        }
        absent += 1;
        for low in LOW_BITS {
            assert_eq!(parse((opcode << 26) | low), None);
        }
    }
    assert_eq!(absent, 44);
}

#[test]
fn function_code_zero_is_noop_or_shift() {
    let noop = decoded(0);
    assert_eq!(noop.kind(), Kind::Noop);
    assert_eq!(noop.format(), Format::R { rs: 0, rt: 0, rd: 0, shamt: 0, funct: 0 });
    // Registers do not matter, the shift amount does.
    assert_eq!(decoded(0x03ff_f800).kind(), Kind::Noop);
    for shamt in 1..32u32 {
        let raw = (2 << 16) | (3 << 11) | (shamt << 6);
        let instruction = decoded(raw);
        assert_eq!(instruction.kind(), Kind::Sll);
        assert_eq!(
            instruction.format(),
            Format::R { rs: 0, rt: 2, rd: 3, shamt: shamt as u8, funct: 0 }
        );
    }
}

#[test]
fn unknown_function_codes_are_not_recognised() {
    let mut unknown = 0;
    for funct in 1..64u32 {
        if FUNCTS.iter().any(|(code, _)| *code == funct) {
            continue;
        }
        unknown += 1;
        assert_eq!(parse(funct), None);
        assert_eq!(parse(0x03ff_ffc0 | funct), None);
    }
    assert_eq!(unknown, 42);
}

#[test]
fn opcode_is_read_from_the_top_six_bits() {
    // Bit 31 set, bit 25 clear: opcode 100011.
    let lw = decoded(0x8c00_0000);
    assert_eq!(lw.kind(), Kind::Lw);
    assert_eq!(lw.format(), Format::I { rs: 0, rt: 0, val: 0 });
    // Bit 31 clear, bit 25 set: opcode 000000, and bit 25 belongs to rs.
    let noop = decoded(0x0200_0000);
    assert_eq!(noop.kind(), Kind::Noop);
    assert_eq!(noop.format(), Format::R { rs: 16, rt: 0, rd: 0, shamt: 0, funct: 0 });
    // Bits 31 and 25 both set: opcode 101011, rs 16.
    let sw = decoded(0xae11_0004);
    assert_eq!(sw.kind(), Kind::Sw);
    assert_eq!(sw.format(), Format::I { rs: 16, rt: 17, val: 4 });
    // Bits 30 to 25 spell 000010, the opcode does not.
    assert_eq!(parse(0x8400_0000), None);
}

#[test]
fn fields_are_read_from_their_bits() {
    let instruction = decoded(0b000000_10101_01010_11011_00100_100000);
    assert_eq!(instruction.kind(), Kind::Add);
    assert_eq!(
        instruction.format(),
        Format::R { rs: 0b10101, rt: 0b01010, rd: 0b11011, shamt: 0b00100, funct: 0b100000 }
    );
    let instruction = decoded(0b001000_11111_00001_1000_0000_0000_0001);
    assert_eq!(instruction.kind(), Kind::Addi);
    assert_eq!(instruction.format(), Format::I { rs: 31, rt: 1, val: 0x8001 });
}

#[test]
fn decoding_is_repeatable() {
    for raw in [0x00220821u32, 0x0bff_ffff, 0x0401_0000, 0x8c00_0000, 0xffff_ffff, 0] {
        let first = parse(raw);
        let second = parse(raw);
        assert_eq!(first, second);
        assert_eq!(
            first.map(|instruction| instruction.render()),
            second.map(|instruction| instruction.render())
        );
    }
}

#[test]
fn instruction_is_a_plain_value() {
    let instruction = decoded(0x00220821);
    let copy = instruction;
    assert_eq!(copy, instruction.clone());
    assert_ne!(copy, decoded(0x00220820));
    assert_eq!(
        format!("{:?}", instruction.format()),
        "R { rs: 1, rt: 2, rd: 1, shamt: 0, funct: 33 }"
    );
    assert_eq!(format!("{:?}", instruction.kind()), "Addu");
}

#[test]
fn one_classifier_decodes_many_words() {
    let classifier = Classifier::new();
    let mut raw: u32 = 0x00220821;
    let mut recognised = 0;
    for _ in 0..5000 {
        let result = parse_with(&classifier, raw);
        assert_eq!(result, parse(raw));
        if let Some(instruction) = result {
            assert_eq!(instruction.raw(), raw);
            recognised += 1;
        }
        raw = raw.wrapping_mul(1_664_525).wrapping_add(1_013_904_223);
    }
    assert!(recognised > 0);
    assert!(recognised < 5000);
}

#[test]
fn kept_classifier_decodes_the_known_words() {
    let classifier = Classifier::new();
    let addu = parse_with(&classifier, 0x00220821).unwrap();
    assert_eq!(addu.kind(), Kind::Addu);
    assert_eq!(addu.render(), "addu $1 $2 $1");
    let jump = parse_with(&classifier, 0x0bff_ffff).unwrap();
    assert_eq!(jump.kind(), Kind::J);
    assert_eq!(jump.render(), "j 3ffffff");
    assert_eq!(parse_with(&classifier, 0x041f_0000), None);
    assert_eq!(parse_with(&classifier, 0xfc00_0000), None);
}

#[test]
fn every_kind_is_decoded_from_some_word() {
    let mut kinds: Vec<Kind> = Vec::new();
    kinds.push(decoded(0).kind());
    kinds.push(decoded(1 << 6).kind());
    for (funct, _) in FUNCTS {
        kinds.push(decoded(funct).kind());
    }
    for (opcode, _) in PLAIN_I {
        kinds.push(decoded(opcode << 26).kind());
    }
    for (opcode, rt, _) in KEYED_I {
        kinds.push(decoded((opcode << 26) | (rt << 16)).kind());
    }
    kinds.push(decoded(0b000010 << 26).kind());
    kinds.push(decoded(0b000011 << 26).kind());
    assert_eq!(kinds.len(), 45);
    for (i, first) in kinds.iter().enumerate() {
        for second in &kinds[i + 1..] {
            assert_ne!(first, second);
        }
    }
}

#[test]
fn words_of_one_kind_share_opcode_and_function_code() {
    let mut seen: Vec<(Kind, u32, u32)> = Vec::new();
    let mut raw: u32 = 0x00220821;
    for _ in 0..20000 {
        if let Some(instruction) = parse(raw) {
            let opcode = raw >> 26;
            let funct = if opcode == 0 { raw & 0x3f } else { 0 };
            match seen.iter().find(|(kind, _, _)| *kind == instruction.kind()) {
                Some((_, known_opcode, known_funct)) => {
                    assert_eq!(*known_opcode, opcode);
                    assert_eq!(*known_funct, funct);
                }
                None => seen.push((instruction.kind(), opcode, funct)),
            }
        }
        raw = raw.wrapping_mul(1_664_525).wrapping_add(1_013_904_223);
    }
    assert!(seen.len() > 20);
}
