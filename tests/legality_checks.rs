use vp8::analyze_code::{get_instructions, AddressingMode, Instruction, Opcode};
use vp8::legality::{allowed_addressing_mode_check, verify_data, VerifyError};

fn lines(text: &[&str]) -> Vec<String> {
    text.iter().map(|l| l.to_string()).collect()
}

fn ins(opcode: Opcode, addressing_mode: AddressingMode) -> Instruction {
    Instruction { opcode, addressing_mode, value: 0, label_name: String::new() }
}

const ALL_MODES: [AddressingMode; 11] = [
    AddressingMode::Immediate,
    AddressingMode::ZeroPage,
    AddressingMode::ZeroPageX,
    AddressingMode::ZeroPageY,
    AddressingMode::Absolute,
    AddressingMode::AbsoluteX,
    AddressingMode::AbsoluteY,
    AddressingMode::IndirectX,
    AddressingMode::IndirectY,
    AddressingMode::Relative,
    AddressingMode::Implied,
];

#[test]
fn implied_only_opcodes_accept_implied_alone() {
    let implied_only = [
        Opcode::TXS, Opcode::TSX, Opcode::PHA, Opcode::PLA, Opcode::RTS, Opcode::TAX, Opcode::TXA,
        Opcode::DEX, Opcode::INX, Opcode::TAY, Opcode::TYA, Opcode::DEY, Opcode::INY, Opcode::NOP,
        Opcode::CLC, Opcode::SEC, Opcode::CLI, Opcode::SEI, Opcode::CLV, Opcode::CLD, Opcode::SED,
        Opcode::BRK,
    ];
    for op in implied_only.iter() {
        for mode in ALL_MODES.iter() {
            let ok = verify_data(&vec![ins(*op, *mode)]).is_ok();
            assert_eq!(ok, *mode == AddressingMode::Implied, "{:?} {:?}", op, mode);
        }
    }
}

#[test]
fn branches_accept_relative_alone() {
    let branches = [
        Opcode::BPL, Opcode::BMI, Opcode::BVC, Opcode::BVS, Opcode::BCC, Opcode::BCS, Opcode::BNE,
        Opcode::BEQ,
    ];
    for op in branches.iter() {
        for mode in ALL_MODES.iter() {
            let ok = verify_data(&vec![ins(*op, *mode)]).is_ok();
            assert_eq!(ok, *mode == AddressingMode::Relative, "{:?} {:?}", op, mode);
        }
    }
}

#[test]
fn restricted_families_follow_the_table() {
    assert!(allowed_addressing_mode_check(Opcode::ASL, AddressingMode::Implied));
    assert!(!allowed_addressing_mode_check(Opcode::ASL, AddressingMode::Immediate));
    assert!(allowed_addressing_mode_check(Opcode::INC, AddressingMode::AbsoluteX));
    assert!(!allowed_addressing_mode_check(Opcode::INC, AddressingMode::Implied));
    assert!(allowed_addressing_mode_check(Opcode::CPX, AddressingMode::Immediate));
    assert!(!allowed_addressing_mode_check(Opcode::CPY, AddressingMode::ZeroPageX));
    assert!(allowed_addressing_mode_check(Opcode::STX, AddressingMode::IndirectY));
    assert!(!allowed_addressing_mode_check(Opcode::STX, AddressingMode::Immediate));
    assert!(allowed_addressing_mode_check(Opcode::STY, AddressingMode::ZeroPageY));
    assert!(!allowed_addressing_mode_check(Opcode::BIT, AddressingMode::Immediate));
    assert!(allowed_addressing_mode_check(Opcode::JMP, AddressingMode::Relative));
    assert!(allowed_addressing_mode_check(Opcode::LDA, AddressingMode::IndirectY));
    assert!(allowed_addressing_mode_check(Opcode::LABEL, AddressingMode::Absolute));
}

#[test]
fn legal_program_assembles_and_passes() {
    let program = get_instructions(lines(&[
        "LDX #$00", "loop:", "INX", "STX $10", "CPX #$10", "BNE loop", "JSR done", "BRK", "done:",
        "RTS",
    ]))
    .unwrap();
    assert_eq!(verify_data(&program), Ok(()));
}

#[test]
fn injected_illegal_pair_fails() {
    let program = get_instructions(lines(&["LDX #$01", "STX #$10", "BRK"])).unwrap();
    assert_eq!(
        verify_data(&program),
        Err(VerifyError { index: 1, opcode: Opcode::STX, addressing_mode: AddressingMode::Immediate })
    );
}
