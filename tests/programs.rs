use vp8::analyze_code::get_instructions;
use vp8::emulator::{get_labels, start_emulator, Emulator, ExecError, StepOutcome};
use vp8::instruction_functions::ExecErrorKind;

fn load(text: &[&str]) -> Emulator {
    let lines: Vec<String> = text.iter().map(|l| l.to_string()).collect();
    start_emulator(get_instructions(lines).unwrap()).unwrap()
}

fn run(e: &mut Emulator) -> Result<StepOutcome, ExecError> {
    loop {
        match e.step(0) {
            Ok(StepOutcome::Continue) => {},
            other => return other,
        }
    }
}

#[test]
fn load_store_load() {
    let mut e = load(&["LDA #$05", "STA $10", "LDA $10"]);
    assert_eq!(run(&mut e), Ok(StepOutcome::Halt));
    assert_eq!(e.registers().get_acc(), 5);
    assert_eq!(e.memory().get_mem_cell_value(0x10), 5);
}

#[test]
fn increment_loop_wraps_and_falls_through() {
    let mut e = load(&["loop:", "INX", "BNE loop", "BRK"]);
    assert_eq!(e.step(0), Ok(StepOutcome::Continue));
    assert_eq!(e.step(0), Ok(StepOutcome::Continue));
    assert_eq!(e.registers().get_x(), 1);
    assert!(!e.flags().get_zerro_flag());
    assert_eq!(e.step(0), Ok(StepOutcome::Continue));
    assert_eq!(e.index(), 1);
    let mut taken = 1;
    loop {
        assert_eq!(e.step(0), Ok(StepOutcome::Continue));
        assert_eq!(e.step(0), Ok(StepOutcome::Continue));
        if e.index() != 1 {
            break;
        }
        taken += 1;
    }
    assert_eq!(taken, 255);
    assert_eq!(e.registers().get_x(), 0);
    assert!(e.flags().get_zerro_flag());
    assert_eq!(e.index(), 3);
    assert_eq!(e.step(0), Ok(StepOutcome::Halt));
    assert!(e.is_halted());
}

#[test]
fn call_returns_after_the_call() {
    let mut e = load(&["JSR sub", "LDY #$07", "BRK", "sub:", "LDX #$09", "RTS"]);
    assert_eq!(e.step(0), Ok(StepOutcome::Continue));
    assert_eq!(e.index(), 4);
    assert_eq!(e.step(0), Ok(StepOutcome::Continue));
    assert_eq!(e.step(0), Ok(StepOutcome::Continue));
    assert_eq!(e.index(), 1);
    assert_eq!(run(&mut e), Ok(StepOutcome::Halt));
    assert_eq!(e.registers().get_x(), 9);
    assert_eq!(e.registers().get_y(), 7);
}

#[test]
fn push_then_pull_in_a_program() {
    let mut e = load(&["LDA #$2A", "PHA", "LDA #$00", "PLA"]);
    assert_eq!(run(&mut e), Ok(StepOutcome::Halt));
    assert_eq!(e.registers().get_acc(), 0x2A);
}

#[test]
fn return_without_call_fails() {
    let mut e = load(&["NOP", "RTS"]);
    assert_eq!(e.step(0), Ok(StepOutcome::Continue));
    assert_eq!(e.step(0), Err(ExecError { index: 1, kind: ExecErrorKind::NoRoutine }));
    assert_eq!(e.index(), 1);
}

#[test]
fn jump_to_missing_label_fails() {
    let mut e = load(&["JMP nowhere"]);
    assert_eq!(e.step(0), Err(ExecError { index: 0, kind: ExecErrorKind::UnknownLabel }));
}

#[test]
fn untaken_branch_to_missing_label_is_fine() {
    let mut e = load(&["BEQ nowhere", "LDA #$01"]);
    assert_eq!(run(&mut e), Ok(StepOutcome::Halt));
    assert_eq!(e.registers().get_acc(), 1);
}

#[test]
fn pull_from_empty_stack_in_a_program_fails() {
    let mut e = load(&["PLA"]);
    assert_eq!(e.step(0), Err(ExecError { index: 0, kind: ExecErrorKind::StackUnderflow }));
}

#[test]
fn draw_yields_then_continues() {
    let mut e = load(&["LDA #$01", "DRW", "LDA #$02"]);
    assert_eq!(e.execute_code(100), Ok(StepOutcome::Yield));
    assert_eq!(e.registers().get_acc(), 1);
    assert_eq!(e.index(), 2);
    assert_eq!(e.execute_code(100), Ok(StepOutcome::Halt));
    assert_eq!(e.registers().get_acc(), 2);
}

#[test]
fn execute_code_stops_at_its_step_budget() {
    let mut e = load(&["top:", "INX", "JMP top"]);
    assert_eq!(e.execute_code(10), Ok(StepOutcome::Continue));
    assert_eq!(e.registers().get_x(), 5);
}

#[test]
fn brk_halts() {
    let mut e = load(&["BRK", "LDA #$01"]);
    assert_eq!(e.step(0), Ok(StepOutcome::Halt));
    assert_eq!(e.step(0), Ok(StepOutcome::Halt));
    assert_eq!(e.registers().get_acc(), 0);
    assert_eq!(e.index(), 0);
}

#[test]
fn every_step_refreshes_the_random_cell() {
    let mut e = load(&["NOP", "NOP"]);
    assert_eq!(e.step(0xAB), Ok(StepOutcome::Continue));
    assert_eq!(e.memory().get_mem_cell_value(0xFE), 0xAB);
}

#[test]
fn key_press_is_stored() {
    let mut e = load(&["NOP"]);
    e.record_key(0x41);
    assert_eq!(e.memory().get_mem_cell_value(0xFF), 0x41);
}

#[test]
fn unverified_program_is_refused() {
    let lines: Vec<String> = ["TAX #$01"].iter().map(|l| l.to_string()).collect();
    assert!(start_emulator(get_instructions(lines).unwrap()).is_err());
}

#[test]
fn labels_are_listed_in_order() {
    let lines: Vec<String> = ["a:", "NOP", "b:"].iter().map(|l| l.to_string()).collect();
    let labels = get_labels(&get_instructions(lines).unwrap());
    assert_eq!(labels, vec![("a".to_string(), 0), ("b".to_string(), 2)]);
}
