//! The semantic check of a decoded program: each instruction's addressing
//! mode must be legal for its opcode.

use vstd::prelude::*;
use crate::analyze_code::{decode_line, AddressingMode, DecodeErrorKind, Instruction, InstructionView, Opcode};

verus! {

/// The opcodes that take no operand.
pub open spec fn is_implied_only(op: Opcode) -> bool {
    match op {
        Opcode::TXS | Opcode::TSX | Opcode::PHA | Opcode::PLA | Opcode::RTS | Opcode::TAX
        | Opcode::TXA | Opcode::DEX | Opcode::INX | Opcode::TAY | Opcode::TYA | Opcode::DEY
        | Opcode::INY | Opcode::NOP | Opcode::CLC | Opcode::SEC | Opcode::CLI | Opcode::SEI
        | Opcode::CLV | Opcode::CLD | Opcode::SED | Opcode::BRK => true,
        _ => false,
    }
}

/// The opcodes whose operand must be a label: the conditional branches, and
/// `JMP` and `JSR`, which resolve their label as the branches do.
///
/// This departs from the classic legality table, which lists `JMP` and `JSR`
/// among the operand-less opcodes: their operand is a label reference,
/// which decodes in relative mode, so under that table no program could
/// jump or call. Here they are legal in relative mode only.
pub open spec fn takes_label(op: Opcode) -> bool {
    match op {
        Opcode::BPL | Opcode::BMI | Opcode::BVC | Opcode::BVS | Opcode::BCC | Opcode::BCS
        | Opcode::BNE | Opcode::BEQ | Opcode::JMP | Opcode::JSR => true,
        _ => false,
    }
}

/// The legality table: whether `op` may be used in addressing mode `mode`.
/// Opcodes outside every restricted family accept any mode.
pub open spec fn mode_allowed(op: Opcode, mode: AddressingMode) -> bool {
    match op {
        Opcode::ASL | Opcode::LSR | Opcode::ROR | Opcode::ROL => match mode {
            AddressingMode::Implied | AddressingMode::ZeroPage | AddressingMode::ZeroPageX
            | AddressingMode::Absolute | AddressingMode::AbsoluteX => true,
            _ => false,
        },
        Opcode::DEC | Opcode::INC => match mode {
            AddressingMode::ZeroPage | AddressingMode::ZeroPageX | AddressingMode::Absolute
            | AddressingMode::AbsoluteX => true,
            _ => false,
        },
        Opcode::CPX | Opcode::CPY => match mode {
            AddressingMode::Immediate | AddressingMode::ZeroPage | AddressingMode::Absolute => true,
            _ => false,
        },
        Opcode::STX => match mode {
            AddressingMode::ZeroPage | AddressingMode::IndirectY | AddressingMode::Absolute
            | AddressingMode::AbsoluteX => true,
            _ => false,
        },
        Opcode::STY => match mode {
            AddressingMode::ZeroPage | AddressingMode::ZeroPageY | AddressingMode::Absolute
            | AddressingMode::AbsoluteX => true,
            _ => false,
        },
        Opcode::BIT => match mode {
            AddressingMode::ZeroPage | AddressingMode::Absolute => true,
            _ => false,
        },
        _ => {
            &&& is_implied_only(op) ==> mode == AddressingMode::Implied
            &&& takes_label(op) ==> mode == AddressingMode::Relative
        },
    }
}

/// Every instruction of `program` uses a legal addressing mode.
pub open spec fn program_verified(program: Seq<Instruction>) -> bool {
    forall|i: int| 0 <= i < program.len() ==>
        mode_allowed(#[trigger] program[i].opcode, program[i].addressing_mode)
}

/// The first instruction whose addressing mode is illegal for its opcode.
#[derive(Clone, Copy, Debug, PartialEq, Eq, Structural)]
pub struct VerifyError {
    pub index: usize,
    pub opcode: Opcode,
    pub addressing_mode: AddressingMode,
}

/// Whether `opcode` may be used in `addressing_mode`.
pub fn allowed_addressing_mode_check(opcode: Opcode, addressing_mode: AddressingMode) -> (r: bool)
    ensures
        r == mode_allowed(opcode, addressing_mode),
{
    match opcode {
        Opcode::ASL | Opcode::LSR | Opcode::ROR | Opcode::ROL => matches!(
            addressing_mode,
            AddressingMode::Implied | AddressingMode::ZeroPage | AddressingMode::ZeroPageX
                | AddressingMode::Absolute | AddressingMode::AbsoluteX
        ),
        Opcode::DEC | Opcode::INC => matches!(
            addressing_mode,
            AddressingMode::ZeroPage | AddressingMode::ZeroPageX | AddressingMode::Absolute
                | AddressingMode::AbsoluteX
        ),
        Opcode::CPX | Opcode::CPY => matches!(
            addressing_mode,
            AddressingMode::Immediate | AddressingMode::ZeroPage | AddressingMode::Absolute
        ),
        Opcode::STX => matches!(
            addressing_mode,
            AddressingMode::ZeroPage | AddressingMode::IndirectY | AddressingMode::Absolute
                | AddressingMode::AbsoluteX
        ),
        Opcode::STY => matches!(
            addressing_mode,
            AddressingMode::ZeroPage | AddressingMode::ZeroPageY | AddressingMode::Absolute
                | AddressingMode::AbsoluteX
        ),
        Opcode::BIT => matches!(addressing_mode, AddressingMode::ZeroPage | AddressingMode::Absolute),
        Opcode::TXS | Opcode::TSX | Opcode::PHA | Opcode::PLA | Opcode::RTS | Opcode::TAX
        | Opcode::TXA | Opcode::DEX | Opcode::INX | Opcode::TAY | Opcode::TYA | Opcode::DEY
        | Opcode::INY | Opcode::NOP | Opcode::CLC | Opcode::SEC | Opcode::CLI | Opcode::SEI
        | Opcode::CLV | Opcode::CLD | Opcode::SED | Opcode::BRK => matches!(addressing_mode, AddressingMode::Implied),
        Opcode::BPL | Opcode::BMI | Opcode::BVC | Opcode::BVS | Opcode::BCC | Opcode::BCS
        | Opcode::BNE | Opcode::BEQ | Opcode::JMP | Opcode::JSR => matches!(addressing_mode, AddressingMode::Relative),
        _ => true,
    }
}

/// Checks every instruction's addressing mode against the legality table.
/// Succeeds exactly when the whole program is legal; otherwise reports the
/// first offending instruction.
pub fn verify_data(instructions: &Vec<Instruction>) -> (r: Result<(), VerifyError>)
    ensures
        r is Ok <==> program_verified(instructions@),
        r matches Err(e) ==> {
            &&& e.index < instructions.len()
            &&& e.opcode == instructions@[e.index as int].opcode
            &&& e.addressing_mode == instructions@[e.index as int].addressing_mode
            &&& !mode_allowed(e.opcode, e.addressing_mode)
            &&& program_verified(instructions@.subrange(0, e.index as int))
        },
{
    let mut i: usize = 0;
    while i < instructions.len()
        invariant
            i <= instructions.len(),
            program_verified(instructions@.subrange(0, i as int)),
        decreases instructions.len() - i,
    {
        let opcode = instructions[i].opcode;
        let addressing_mode = instructions[i].addressing_mode;
        if !allowed_addressing_mode_check(opcode, addressing_mode) {
            return Err(VerifyError { index: i, opcode, addressing_mode });
        }
        assert forall|j: int| 0 <= j < i + 1 implies
            mode_allowed(#[trigger] instructions@.subrange(0, i + 1)[j].opcode,
                instructions@.subrange(0, i + 1)[j].addressing_mode) by {
            if j < i {
                assert(instructions@.subrange(0, i + 1)[j] == instructions@.subrange(0, i as int)[j]);
            }
        }
        i = i + 1;
    }
    assert(instructions@.subrange(0, i as int) =~= instructions@);
    Ok(())
}

/// An opcode that takes no operand passes the check exactly in implied mode:
/// a program holding it in another mode fails, and a program made of it
/// alone passes exactly when its mode is implied.
pub proof fn implied_only_opcodes_need_implied_mode(program: Seq<Instruction>, i: int)
    requires
        0 <= i < program.len(),
        is_implied_only(program[i].opcode),
    ensures
        program[i].addressing_mode != AddressingMode::Implied ==> !program_verified(program),
        program.len() == 1 ==> (program_verified(program) <==> program[0].addressing_mode == AddressingMode::Implied),
{
}

/// A conditional branch passes the check exactly in relative (label) mode:
/// a program holding it in another mode fails, and a program made of it
/// alone passes exactly when its mode is relative.
pub proof fn branches_need_relative_mode(program: Seq<Instruction>, i: int)
    requires
        0 <= i < program.len(),
        match program[i].opcode {
            Opcode::BPL | Opcode::BMI | Opcode::BVC | Opcode::BVS | Opcode::BCC | Opcode::BCS
            | Opcode::BNE | Opcode::BEQ => true,
            _ => false,
        },
    ensures
        program[i].addressing_mode != AddressingMode::Relative ==> !program_verified(program),
        program.len() == 1 ==> (program_verified(program) <==> program[0].addressing_mode == AddressingMode::Relative),
{
}

/// Assembling lines that each decode to an instruction whose mode is legal
/// for its opcode gives a program that passes the check.
pub proof fn assembled_legal_program_passes(lines: Seq<String>, program: Seq<Instruction>)
    requires
        program.len() == lines.len(),
        forall|i: int| 0 <= i < lines.len() ==>
            decode_line(#[trigger] lines[i]@) == Ok::<InstructionView, DecodeErrorKind>(program[i]@),
        forall|i: int| 0 <= i < lines.len() ==> (#[trigger] decode_line(lines[i]@) matches Ok(v)
            ==> mode_allowed(v.opcode, v.addressing_mode)),
    ensures
        program_verified(program),
{
    assert forall|i: int| 0 <= i < program.len() implies
        mode_allowed(#[trigger] program[i].opcode, program[i].addressing_mode) by {
        assert(decode_line(lines[i]@) == Ok::<InstructionView, DecodeErrorKind>(program[i]@));
    }
}

/// A program of legal instructions passes; replacing any one instruction
/// with one whose mode is illegal for its opcode makes it fail.
pub proof fn injected_illegal_instruction_fails(program: Seq<Instruction>, i: int, bad: Instruction)
    requires
        (forall|j: int| 0 <= j < program.len() ==>
            mode_allowed(#[trigger] program[j].opcode, program[j].addressing_mode)),
        0 <= i < program.len(),
        !mode_allowed(bad.opcode, bad.addressing_mode),
    ensures
        program_verified(program),
        !program_verified(program.update(i, bad)),
{
    assert(program.update(i, bad)[i] == bad);
}

} // verus!
