use vp8::analyze_code::{
    decode_instruction, get_instructions, AddressingMode, DecodeError, DecodeErrorKind, Opcode,
};

fn lines(text: &[&str]) -> Vec<String> {
    text.iter().map(|l| l.to_string()).collect()
}

#[test]
fn immediate_operand_gives_its_byte() {
    let ins = decode_instruction(&"LDA #$3F".to_string()).unwrap();
    assert_eq!(ins.opcode, Opcode::LDA);
    assert_eq!(ins.addressing_mode, AddressingMode::Immediate);
    assert_eq!(ins.value, 0x3F);
}

#[test]
fn immediate_operand_accepts_lower_case_digits() {
    let ins = decode_instruction(&"ADC #$af".to_string()).unwrap();
    assert_eq!(ins.addressing_mode, AddressingMode::Immediate);
    assert_eq!(ins.value, 0xAF);
}

#[test]
fn every_immediate_byte_round_trips() {
    for v in 0..=255u16 {
        let line = format!("CMP #${:02X}", v);
        let ins = decode_instruction(&line).unwrap();
        assert_eq!(ins.addressing_mode, AddressingMode::Immediate);
        assert_eq!(ins.value, v);
    }
}

#[test]
fn operand_forms_are_classified() {
    let cases: [(&str, AddressingMode, u16); 9] = [
        ("LDA $10", AddressingMode::ZeroPage, 0x10),
        ("LDA $10,X", AddressingMode::ZeroPageX, 0x10),
        ("LDX $10,Y", AddressingMode::ZeroPageY, 0x10),
        ("LDA $1234", AddressingMode::Absolute, 0x1234),
        ("LDA $1234,X", AddressingMode::AbsoluteX, 0x1234),
        ("LDA $1234,Y", AddressingMode::AbsoluteY, 0x1234),
        ("LDA ($20,X)", AddressingMode::IndirectX, 0x20),
        ("LDA ($20),Y", AddressingMode::IndirectY, 0x20),
        ("NOP", AddressingMode::Implied, 0xFFFF),
    ];
    for (line, mode, value) in cases.iter() {
        let ins = decode_instruction(&line.to_string()).unwrap();
        assert_eq!(ins.addressing_mode, *mode, "{}", line);
        assert_eq!(ins.value, *value, "{}", line);
    }
}

#[test]
fn blanks_inside_an_operand_are_ignored() {
    let ins = decode_instruction(&"STA $ 12 , X".to_string()).unwrap();
    assert_eq!(ins.addressing_mode, AddressingMode::ZeroPageX);
    assert_eq!(ins.value, 0x12);
}

#[test]
fn label_reference_keeps_its_text() {
    let ins = decode_instruction(&"BNE loop".to_string()).unwrap();
    assert_eq!(ins.opcode, Opcode::BNE);
    assert_eq!(ins.addressing_mode, AddressingMode::Relative);
    assert_eq!(ins.value, 0xFFFF);
    assert_eq!(ins.label_name, "loop");
}

#[test]
fn label_definition_line() {
    let ins = decode_instruction(&"loop:".to_string()).unwrap();
    assert_eq!(ins.opcode, Opcode::LABEL);
    assert_eq!(ins.label_name, "loop");
}

#[test]
fn draw_marker_decodes() {
    let ins = decode_instruction(&"DRW".to_string()).unwrap();
    assert_eq!(ins.opcode, Opcode::DRW);
    assert_eq!(ins.addressing_mode, AddressingMode::Implied);
}

#[test]
fn unknown_mnemonic_is_refused() {
    assert_eq!(decode_instruction(&"XYZ #$01".to_string()).unwrap_err(), DecodeErrorKind::UnknownMnemonic);
    assert_eq!(decode_instruction(&"lda #$01".to_string()).unwrap_err(), DecodeErrorKind::UnknownMnemonic);
    assert_eq!(decode_instruction(&"LD".to_string()).unwrap_err(), DecodeErrorKind::UnknownMnemonic);
}

#[test]
fn malformed_operands_are_refused() {
    for line in ["LDA #$123", "LDA #12", "LDA $1", "LDA $12,Z,", "LDA ($12,Y)", "LDA foo", "LDA $12345678"].iter() {
        assert_eq!(decode_instruction(&line.to_string()).unwrap_err(), DecodeErrorKind::MalformedOperand, "{}", line);
    }
}

#[test]
fn non_hex_digits_are_refused() {
    assert_eq!(decode_instruction(&"LDA #$G1".to_string()).unwrap_err(), DecodeErrorKind::InvalidHexDigit);
    assert_eq!(decode_instruction(&"LDA $12Q4".to_string()).unwrap_err(), DecodeErrorKind::InvalidHexDigit);
}

#[test]
fn program_decodes_in_order() {
    let program = get_instructions(lines(&["start:", "LDX #$00", "INX", "BNE start"])).unwrap();
    assert_eq!(program.len(), 4);
    assert_eq!(program[0].opcode, Opcode::LABEL);
    assert_eq!(program[1].opcode, Opcode::LDX);
    assert_eq!(program[2].opcode, Opcode::INX);
    assert_eq!(program[3].opcode, Opcode::BNE);
}

#[test]
fn program_reports_first_bad_line() {
    let err = get_instructions(lines(&["LDA #$01", "FOO", "LDA #$ZZ"])).unwrap_err();
    assert_eq!(err, DecodeError { line: 1, kind: DecodeErrorKind::UnknownMnemonic });
}

#[test]
fn source_text_loses_comments_and_blank_lines() {
    let text = "; a program\n\n  LDA #$01 ; load one\nloop:\r\n   \n\tINX\n;end";
    assert_eq!(
        vp8::source::source_lines(text),
        vec!["LDA #$01".to_string(), "loop:".to_string(), "INX".to_string()]
    );
}

#[test]
fn source_text_feeds_the_decoder() {
    let lines = vp8::source::source_lines("LDA #$05 ; five\nSTA $10\n");
    let program = get_instructions(lines).unwrap();
    assert_eq!(program.len(), 2);
    assert_eq!(program[1].opcode, Opcode::STA);
    assert_eq!(program[1].value, 0x10);
}

#[test]
fn source_lines_lose_unicode_white_space() {
    let text = "\u{A0}LDA #$01\u{3000}\n\u{2003}\u{85}\n\u{200A}INX\u{0B};c";
    assert_eq!(
        vp8::source::source_lines(text),
        vec!["LDA #$01".to_string(), "INX".to_string()]
    );
}
