use mimasim::assembly::{
    AssemblerError, DiagnosticsType, LabelErrorType, ObjectCode, ProgramToken,
};
use mimasim::types::Word;

fn raw(source: &[u8]) -> Vec<Word> {
    let (object_code, _) = ObjectCode::assemble(source).unwrap();
    object_code.raw_code
}

#[test]
fn parse_simple_program() {
    let program = ProgramToken::parse(b"LDC 0x42\nHLT").unwrap();
    assert_eq!(program.0.len(), 2);
    assert_eq!(program.0[0].line_number, 0);
    assert_eq!(program.0[1].line_number, 1);
    assert_eq!(program.0[0].required_words(), 1);
}

#[test]
fn parse_blank_lines_and_comments() {
    let program = ProgramToken::parse(b"\n  # only a comment\n  hlt  # stop\n\n").unwrap();
    assert_eq!(program.0.len(), 1);
    assert_eq!(program.0[0].line_number, 2);
}

#[test]
fn parse_is_case_insensitive() {
    assert_eq!(raw(b"hLt"), vec![Word(0xF0000000)]);
    assert_eq!(raw(b"Dat 7"), vec![Word(7)]);
}

#[test]
fn numeric_literal_radixes() {
    assert_eq!(raw(b"DAT 0b101"), vec![Word(5)]);
    assert_eq!(raw(b"DAT 0d12"), vec![Word(12)]);
    assert_eq!(raw(b"DAT 0x10"), vec![Word(16)]);
    assert_eq!(raw(b"DAT 42"), vec![Word(42)]);
    assert_eq!(raw(b"DAT +7"), vec![Word(7)]);
    assert_eq!(raw(b"DAT 4294967295"), vec![Word(0xFFFFFFFF)]);
}

#[test]
fn numeric_literal_negative_values() {
    // Signed values are folded into their two's-complement encoding:
    assert_eq!(raw(b"DAT -1"), vec![Word(0xFFFFFFFF)]);
    assert_eq!(raw(b"DAT -2"), vec![Word(0xFFFFFFFE)]);
    assert_eq!(raw(b"DAT -2147483648"), vec![Word(0x80000000)]);
    assert_eq!(raw(b"DAT -0"), vec![Word(0)]);
}

#[test]
fn numeric_literal_out_of_range() {
    assert!(matches!(
        ObjectCode::assemble(b"DAT 4294967296"),
        Err(AssemblerError::ParserError(_))
    ));
    assert!(matches!(
        ObjectCode::assemble(b"DAT -2147483649"),
        Err(AssemblerError::ParserError(_))
    ));
}

#[test]
fn assemble_resolves_local_labels() {
    let words = raw(b"LDC 3\nADD val\nHLT\nval: DAT 4");
    assert_eq!(
        words,
        vec![Word(0x60000003), Word(0x00000003), Word(0xF0000000), Word(0x00000004)]
    );
}

#[test]
fn assemble_data_with_repetition() {
    assert_eq!(raw(b"DAT 7 TIMES 3"), vec![Word(7), Word(7), Word(7)]);
}

#[test]
fn assemble_this_prefix_is_allowed() {
    let words = raw(b"this.start: JMP start");
    assert_eq!(words, vec![Word(0x70000000)]);
}

#[test]
fn error_duplicate_label() {
    let err = ObjectCode::assemble(b"a: HLT\na: NOP").unwrap_err();
    match err {
        AssemblerError::LabelError(e) => {
            assert_eq!(e.line_number, 1);
            assert_eq!(e.err_type, LabelErrorType::Duplicate(b"a".to_vec()));
        },
        other => panic!("unexpected error: {:?}", other),
    }
}

#[test]
fn error_unresolved_label() {
    let err = ObjectCode::assemble(b"JMP nowhere").unwrap_err();
    match err {
        AssemblerError::LabelError(e) => {
            assert_eq!(e.line_number, 0);
            assert_eq!(e.err_type, LabelErrorType::NotResolved(b"nowhere".to_vec()));
        },
        other => panic!("unexpected error: {:?}", other),
    }
}

#[test]
fn error_bad_definition_prefix() {
    let err = ObjectCode::assemble(b"dev.entry: HLT").unwrap_err();
    match err {
        AssemblerError::LabelError(e) => {
            assert_eq!(e.err_type, LabelErrorType::BadDefPrefix(b"dev".to_vec()));
        },
        other => panic!("unexpected error: {:?}", other),
    }
}

#[test]
fn error_parse_failure_reports_leftover() {
    let err = ObjectCode::assemble(b"HLT\nwhat !").unwrap_err();
    match err {
        AssemblerError::ParserError(e) => {
            assert_eq!(e.line_number, 1);
            assert_eq!(e.token, Some(b"what !".to_vec()));
        },
        other => panic!("unexpected error: {:?}", other),
    }
}

#[test]
fn symbol_table_for_external_reference() {
    let (object_code, diagnostics) = ObjectCode::assemble(b"JMP dev.entry\nHLT").unwrap();
    // The reference appears exactly once, at its emission offset, and
    // the emitted word carries the placeholder address:
    assert_eq!(object_code.symbol_table.len(), 1);
    assert_eq!(object_code.symbol_table[0].instruction_address, Word(0));
    assert_eq!(object_code.symbol_table[0].label.prefix, b"dev".to_vec());
    assert_eq!(object_code.symbol_table[0].label.name, b"entry".to_vec());
    assert_eq!(object_code.raw_code[0], Word(0x7FFFFFFF));
    assert_eq!(diagnostics.len(), 0);
}

#[test]
fn symbol_table_offsets_follow_data() {
    let (object_code, _) = ObjectCode::assemble(b"DAT 0 TIMES 4\nSTV dev.port").unwrap();
    assert_eq!(object_code.symbol_table.len(), 1);
    assert_eq!(object_code.symbol_table[0].instruction_address, Word(4));
}

#[test]
fn unused_label_diagnostic() {
    let (_, diagnostics) = ObjectCode::assemble(b"foo: HLT").unwrap();
    assert_eq!(diagnostics.len(), 1);
    assert_eq!(diagnostics[0].line_number, 0);
    assert_eq!(
        diagnostics[0].diag_type,
        DiagnosticsType::UnusedLocalLabel(b"foo".to_vec())
    );
}

#[test]
fn referenced_label_gives_no_diagnostic() {
    let (_, diagnostics) = ObjectCode::assemble(b"foo: JMP foo").unwrap();
    assert_eq!(diagnostics.len(), 0);
}

#[test]
fn unused_label_diagnostics_in_line_order() {
    let (_, diagnostics) =
        ObjectCode::assemble(b"a: HLT\nb: HLT\nc: HLT").unwrap();
    assert_eq!(diagnostics.len(), 3);
    assert_eq!(diagnostics[0].line_number, 0);
    assert_eq!(diagnostics[1].line_number, 1);
    assert_eq!(diagnostics[2].line_number, 2);
}

#[test]
fn listing_is_produced() {
    let (_, _, repr) = ObjectCode::assemble_with_repr(b"val: DAT 4\nLDV val").unwrap();
    assert!(!repr.is_empty());
    let text = String::from_utf8(repr).unwrap();
    assert!(text.contains("val"));
    assert!(text.contains("DAT 4"));
    assert!(text.contains("LDV"));
}

#[test]
fn crlf_line_endings() {
    let words = raw(b"LDC 1\r\nHLT\r\n");
    assert_eq!(words, vec![Word(0x60000001), Word(0xF0000000)]);
}

#[test]
fn empty_program_assembles_to_nothing() {
    let (object_code, diagnostics) = ObjectCode::assemble(b"").unwrap();
    assert_eq!(object_code.raw_code.len(), 0);
    assert_eq!(object_code.symbol_table.len(), 0);
    assert_eq!(diagnostics.len(), 0);
}

#[test]
fn error_overflow_beyond_linear_memory() {
    // 3 * 2^26 words fit; one more does not:
    let err = ObjectCode::assemble(b"DAT 0 TIMES 201326593").unwrap_err();
    match err {
        AssemblerError::OverflowError(line) => assert_eq!(line, 0),
        other => panic!("unexpected error: {:?}", other),
    }
}

#[test]
fn error_label_behind_full_memory() {
    // A program may fill linear memory completely, but no label can be
    // defined behind it:
    let err = ObjectCode::assemble(b"DAT 0 TIMES 201326592\nx: HLT").unwrap_err();
    match err {
        AssemblerError::LabelError(e) => {
            assert_eq!(e.line_number, 1);
            assert_eq!(e.err_type, LabelErrorType::BehindFullMemory(b"x".to_vec()));
        },
        other => panic!("unexpected error: {:?}", other),
    }
}

#[test]
fn error_leftover_after_operand() {
    assert!(matches!(
        ObjectCode::assemble(b"add 5x"),
        Err(AssemblerError::ParserError(_))
    ));
    assert!(matches!(
        ObjectCode::assemble(b"hlt extra"),
        Err(AssemblerError::ParserError(_))
    ));
    // A truncated binary literal leaves its non-binary digit over:
    assert!(matches!(
        ObjectCode::assemble(b"DAT 0b12"),
        Err(AssemblerError::ParserError(_))
    ));
}

#[test]
fn this_prefixed_reference_is_an_external_symbol() {
    // Any prefixed reference goes to the symbol table, even "this":
    let (object_code, _) = ObjectCode::assemble(b"JMP this.x\nx: HLT").unwrap();
    assert_eq!(object_code.symbol_table.len(), 1);
    assert_eq!(object_code.symbol_table[0].label.prefix, b"this".to_vec());
    assert_eq!(object_code.raw_code[0], Word(0x7FFFFFFF));
}

#[test]
fn identifiers_may_hold_digits_and_underscores() {
    let words = raw(b"l1_x: JMP l1_x");
    assert_eq!(words, vec![Word(0x70000000)]);
}

#[test]
fn multiple_labels_on_one_statement() {
    let words = raw(b"a: b: DAT 9\nJMP a\nJMP b");
    assert_eq!(words, vec![Word(9), Word(0x70000000), Word(0x70000000)]);
}
