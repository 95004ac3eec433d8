use mimasim::types::{Instruction, Word};

#[test]
fn decode_basic_format() {
    assert_eq!(Instruction::decode(Word(0x00000005)), Instruction::Add(Word(5)));
    assert_eq!(Instruction::decode(Word(0x10000001)), Instruction::And(Word(1)));
    assert_eq!(Instruction::decode(Word(0x2FFFFFFF)), Instruction::Or(Word(0x0FFFFFFF)));
    assert_eq!(Instruction::decode(Word(0x30000000)), Instruction::Xor(Word(0)));
    assert_eq!(Instruction::decode(Word(0x40000010)), Instruction::LoadValue(Word(0x10)));
    assert_eq!(Instruction::decode(Word(0x50000010)), Instruction::StoreValue(Word(0x10)));
    assert_eq!(Instruction::decode(Word(0x60000042)), Instruction::LoadConstant(Word(0x42)));
    assert_eq!(Instruction::decode(Word(0x70000003)), Instruction::Jump(Word(3)));
    assert_eq!(Instruction::decode(Word(0x80000003)), Instruction::JumpIfNegative(Word(3)));
    assert_eq!(Instruction::decode(Word(0x90000003)), Instruction::Equals(Word(3)));
}

#[test]
fn decode_extended_format() {
    assert_eq!(Instruction::decode(Word(0xF0000000)), Instruction::Halt);
    assert_eq!(Instruction::decode(Word(0xF1000000)), Instruction::Not);
    assert_eq!(Instruction::decode(Word(0xF2000010)), Instruction::RotateRight(Word(0x10)));
    assert_eq!(Instruction::decode(Word(0xFF000000)), Instruction::NoOperation);
}

#[test]
fn decode_unknown_opcodes_read_as_nop() {
    // An unknown sub-opcode in the extended range yields NOP:
    assert_eq!(Instruction::decode(Word(0xF3000000)), Instruction::NoOperation);
    assert_eq!(Instruction::decode(Word(0xFE123456)), Instruction::NoOperation);
    // So does an unknown basic opcode:
    assert_eq!(Instruction::decode(Word(0xA0000000)), Instruction::NoOperation);
}

#[test]
fn encode_all_opcodes() {
    assert_eq!(Instruction::Add(Word(5)).encode(), Word(0x00000005));
    assert_eq!(Instruction::And(Word(5)).encode(), Word(0x10000005));
    assert_eq!(Instruction::Or(Word(5)).encode(), Word(0x20000005));
    assert_eq!(Instruction::Xor(Word(5)).encode(), Word(0x30000005));
    assert_eq!(Instruction::LoadValue(Word(5)).encode(), Word(0x40000005));
    assert_eq!(Instruction::StoreValue(Word(5)).encode(), Word(0x50000005));
    assert_eq!(Instruction::LoadConstant(Word(5)).encode(), Word(0x60000005));
    assert_eq!(Instruction::Jump(Word(5)).encode(), Word(0x70000005));
    assert_eq!(Instruction::JumpIfNegative(Word(5)).encode(), Word(0x80000005));
    assert_eq!(Instruction::Equals(Word(5)).encode(), Word(0x90000005));
    assert_eq!(Instruction::Halt.encode(), Word(0xF0000000));
    assert_eq!(Instruction::Not.encode(), Word(0xF1000000));
    assert_eq!(Instruction::RotateRight(Word(5)).encode(), Word(0xF2000005));
    assert_eq!(Instruction::NoOperation.encode(), Word(0xFF000000));
}

#[test]
fn instruction_round_trip() {
    let samples = vec![
        Instruction::Add(Word(0x0FFFFFFF)),
        Instruction::And(Word(0)),
        Instruction::Or(Word(123)),
        Instruction::Xor(Word(0x0ABCDEF)),
        Instruction::LoadValue(Word(77)),
        Instruction::StoreValue(Word(88)),
        Instruction::LoadConstant(Word(99)),
        Instruction::Jump(Word(1)),
        Instruction::JumpIfNegative(Word(2)),
        Instruction::Equals(Word(3)),
        Instruction::Halt,
        Instruction::Not,
        Instruction::RotateRight(Word(0x00FFFFFF)),
        Instruction::NoOperation,
    ];
    for i in samples {
        assert_eq!(Instruction::decode(i.encode()), i);
    }
}

#[test]
fn word_round_trip() {
    // Basic-format words survive unchanged:
    for w in [0x00000000u32, 0x12345678, 0x9FFFFFFF, 0x60000042] {
        assert_eq!(Instruction::decode(Word(w)).encode(), Word(w));
    }
    // So does an extended word with the rotate sub-opcode:
    assert_eq!(Instruction::decode(Word(0xF2ABCDEF)).encode(), Word(0xF2ABCDEF));
    // A halt with payload bits keeps only its upper byte:
    assert_eq!(Instruction::decode(Word(0xF0123456)).encode(), Word(0xF0000000));
    // Unknown sub-opcodes normalize to the canonical NOP word:
    assert_eq!(Instruction::decode(Word(0xF7123456)).encode(), Word(0xFF000000));
}

#[test]
fn opcode_names() {
    assert_eq!(Instruction::Add(Word(0)).format_opcode(), "ADD");
    assert_eq!(Instruction::Halt.format_opcode(), "HLT");
    assert_eq!(Instruction::RotateRight(Word(0)).format_opcode(), "RAR");
    assert_eq!(Instruction::NoOperation.format_opcode(), "NOP");
}

#[test]
fn signed_reading_of_words() {
    assert_eq!(Word(0).0, 0);
    assert_eq!(Word(0xFFFFFFFF).0 as i32, -1);
    assert_eq!(Word(0x80000000).0 as i32, i32::MIN);
}
