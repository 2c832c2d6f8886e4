//! The execution engine: one step at a time over a decoded program, and a
//! bounded run that stops at a `DRW` yield point, a halt or an error.
//!
//! A jump, call or taken branch sets the instruction index to the label's own
//! position; the advance that follows every instruction then lands on the
//! instruction after the label. When several labels share a name, the first
//! one counts. A return sets the index to the call's position, so execution
//! resumes after the call. Running past the last instruction halts, as `BRK`
//! does.

use vstd::prelude::*;
use crate::analyze_code::{Instruction, Opcode};
use crate::instruction_functions::{
    add_effect, adc, and, asl, bcc, bcs, beq, bit, bit_test, bmi, bne, bpl, branch_target, bvc,
    bvs, clc, cld, cli, clv, cmp, compare_effect, cpx, cpy, dec, dex, dey, eor, flags_of_status,
    inc, iny, inx, jmp, lda, ldx, ldy, lookup_label, lsr, operand_address, operand_byte, ora, pha,
    php, pla, plp, pull_effect, push_effect, rol, ror, sbc, sec, sed, sei, shift_effect, sta,
    status_byte, step_byte, step_cell_effect, store_effect, stx, sty, sub_effect, tax, tay, tsx,
    txa, txs, tya, with_zn, ExecErrorKind,
};
use crate::legality::{program_verified, verify_data, VerifyError};
use crate::system::{Flags, Memory, MemoryView, Registers, KEY_CELL, MEMORY_SIZE, RANDOM_CELL};

verus! {

/// Registers, flags and memory of one machine.
pub struct Vp8System {
    pub registers: Registers,
    pub memory: Memory,
    pub flags: Flags,
}

/// What a [`Vp8System`] holds.
pub struct CpuState {
    pub registers: Registers,
    pub flags: Flags,
    pub memory: MemoryView,
}

impl Vp8System {
    pub open spec fn state(&self) -> CpuState {
        CpuState { registers: self.registers, flags: self.flags, memory: self.memory@ }
    }

    pub fn init() -> (r: Vp8System)
        ensures
            r.memory.wf(),
            r.registers == Registers::initial(),
            r.flags == Flags::initial(),
            r.memory@ == Memory::initial(),
    {
        Vp8System { registers: Registers::init(), memory: Memory::init(), flags: Flags::init() }
    }
}

/// How a step ended.
#[derive(Clone, Copy, Debug, PartialEq, Eq, Structural)]
pub enum StepOutcome {
    /// The next instruction is ready to run.
    Continue,
    /// A `DRW` instruction asked to hand the screen to the renderer.
    Yield,
    /// Execution is over: `BRK` ran, or the index went past the program.
    Halt,
}

/// A fatal error and the index of the instruction that raised it.
#[derive(Clone, Copy, Debug, PartialEq, Eq, Structural)]
pub struct ExecError {
    pub index: usize,
    pub kind: ExecErrorKind,
}

/// The label table of `program`: the name and index of each `LABEL`
/// instruction, in program order.
pub open spec fn labels_of(program: Seq<Instruction>) -> Seq<(String, usize)>
    decreases program.len(),
{
    if program.len() == 0 {
        seq![]
    } else {
        let rest = labels_of(program.drop_last());
        if program.last().opcode == Opcode::LABEL {
            rest.push((program.last().label_name, (program.len() - 1) as usize))
        } else {
            rest
        }
    }
}

/// The effect of the arithmetic, logic and compare instructions.
pub open spec fn alu_effect(ins: Instruction, s: CpuState) -> CpuState {
    let r = s.registers;
    let f = s.flags;
    let m = s.memory;
    match operand_byte(ins.addressing_mode, ins.value, r, m.cells) {
        None => s,
        Some(b) => match ins.opcode {
            Opcode::ADC => CpuState { registers: add_effect(b, r, f).0, flags: add_effect(b, r, f).1, ..s },
            Opcode::SBC => CpuState { registers: sub_effect(b, r, f).0, flags: sub_effect(b, r, f).1, ..s },
            Opcode::AND => CpuState { registers: Registers { acc: r.acc & b, ..r }, ..s },
            Opcode::ORA => CpuState { registers: Registers { acc: r.acc | b, ..r }, ..s },
            Opcode::EOR => CpuState { registers: Registers { acc: r.acc ^ b, ..r }, ..s },
            Opcode::CMP => CpuState { flags: compare_effect(r.acc, b, f), ..s },
            Opcode::CPX => CpuState { flags: compare_effect(r.x, b, f), ..s },
            Opcode::CPY => CpuState { flags: compare_effect(r.y, b, f), ..s },
            _ => s,
        },
    }
}

/// The effect of `BIT`.
pub open spec fn bit_test_effect(ins: Instruction, s: CpuState) -> CpuState {
    CpuState { flags: bit_test(ins.addressing_mode, ins.value, s.flags, s.memory.cells), ..s }
}

/// The effect of the shifts, rotates, increments and decrements.
pub open spec fn modify_effect(ins: Instruction, s: CpuState) -> CpuState {
    let r = s.registers;
    let f = s.flags;
    let m = s.memory;
    let mode = ins.addressing_mode;
    let v = ins.value;
    match ins.opcode {
        Opcode::ASL | Opcode::LSR | Opcode::ROL | Opcode::ROR => {
            let e = shift_effect(ins.opcode, mode, v, r, f, m);
            CpuState { registers: e.0, flags: e.1, memory: e.2 }
        },
        Opcode::INC | Opcode::DEC => {
            let e = step_cell_effect(ins.opcode == Opcode::INC, mode, v, r, f, m);
            CpuState { flags: e.0, memory: e.1, ..s }
        },
        Opcode::INX => CpuState {
            registers: Registers { x: step_byte(true, r.x), ..r },
            flags: with_zn(f, step_byte(true, r.x)),
            ..s
        },
        Opcode::INY => CpuState {
            registers: Registers { y: step_byte(true, r.y), ..r },
            flags: with_zn(f, step_byte(true, r.y)),
            ..s
        },
        Opcode::DEX => CpuState {
            registers: Registers { x: step_byte(false, r.x), ..r },
            flags: with_zn(f, step_byte(false, r.x)),
            ..s
        },
        Opcode::DEY => CpuState {
            registers: Registers { y: step_byte(false, r.y), ..r },
            flags: with_zn(f, step_byte(false, r.y)),
            ..s
        },
        _ => s,
    }
}

/// The effect of the loads, stores and register transfers.
pub open spec fn move_effect(ins: Instruction, s: CpuState) -> CpuState {
    let r = s.registers;
    let m = s.memory;
    let mode = ins.addressing_mode;
    let v = ins.value;
    let byte = operand_byte(mode, v, r, m.cells);
    match ins.opcode {
        Opcode::LDA => match byte {
            Some(b) => CpuState { registers: Registers { acc: b, ..r }, ..s },
            None => s,
        },
        Opcode::LDX => match byte {
            Some(b) => CpuState { registers: Registers { x: b, ..r }, ..s },
            None => s,
        },
        Opcode::LDY => match byte {
            Some(b) => CpuState { registers: Registers { y: b, ..r }, ..s },
            None => s,
        },
        Opcode::STA => CpuState { memory: store_effect(mode, v, r, r.acc, m), ..s },
        Opcode::STX => CpuState { memory: store_effect(mode, v, r, r.x, m), ..s },
        Opcode::STY => CpuState { memory: store_effect(mode, v, r, r.y, m), ..s },
        Opcode::TAX => CpuState { registers: Registers { x: r.acc, ..r }, ..s },
        Opcode::TAY => CpuState { registers: Registers { y: r.acc, ..r }, ..s },
        Opcode::TXA => CpuState { registers: Registers { acc: r.x, ..r }, ..s },
        Opcode::TYA => CpuState { registers: Registers { acc: r.y, ..r }, ..s },
        Opcode::TSX => CpuState { registers: Registers { x: r.sp, ..r }, ..s },
        Opcode::TXS => CpuState {
            registers: Registers { sp: r.x, ..r },
            memory: MemoryView { stack_pointer: (0x0100 + r.x) as u16, ..m },
            ..s
        },
        _ => s,
    }
}

/// The effect of the pushes and pulls.
pub open spec fn stack_effect(ins: Instruction, s: CpuState) -> Result<CpuState, ExecErrorKind> {
    let r = s.registers;
    let f = s.flags;
    let m = s.memory;
    match ins.opcode {
        Opcode::PHA => match push_effect(r.acc, r, m) {
            Ok((r2, m2)) => Ok(CpuState { registers: r2, memory: m2, ..s }),
            Err(e) => Err(e),
        },
        Opcode::PHP => match push_effect(status_byte(f), r, m) {
            Ok((r2, m2)) => Ok(CpuState { registers: r2, memory: m2, ..s }),
            Err(e) => Err(e),
        },
        Opcode::PLA => match pull_effect(r, m) {
            Ok((b, r2, m2)) => Ok(CpuState { registers: Registers { acc: b, ..r2 }, memory: m2, ..s }),
            Err(e) => Err(e),
        },
        Opcode::PLP => match pull_effect(r, m) {
            Ok((b, r2, m2)) => Ok(CpuState { registers: r2, flags: flags_of_status(b), memory: m2 }),
            Err(e) => Err(e),
        },
        _ => Ok(s),
    }
}

/// The effect of the instructions that set or clear one flag.
pub open spec fn flag_effect(ins: Instruction, s: CpuState) -> CpuState {
    let f = s.flags;
    match ins.opcode {
        Opcode::CLC => CpuState { flags: Flags { carry: false, ..f }, ..s },
        Opcode::SEC => CpuState { flags: Flags { carry: true, ..f }, ..s },
        Opcode::CLI => CpuState { flags: Flags { interrupt_disable: false, ..f }, ..s },
        Opcode::SEI => CpuState { flags: Flags { interrupt_disable: true, ..f }, ..s },
        Opcode::CLV => CpuState { flags: Flags { overflow: false, ..f }, ..s },
        Opcode::CLD => CpuState { flags: Flags { decimal: false, ..f }, ..s },
        Opcode::SED => CpuState { flags: Flags { decimal: true, ..f }, ..s },
        _ => s,
    }
}

/// The effect of an instruction on registers, flags and memory. Control
/// transfers, `NOP`, `LABEL`, `BRK` and `DRW` leave them alone.
#[verifier::opaque]
pub open spec fn data_effect(ins: Instruction, s: CpuState) -> Result<CpuState, ExecErrorKind> {
    match ins.opcode {
        Opcode::ADC | Opcode::SBC | Opcode::AND | Opcode::ORA | Opcode::EOR | Opcode::CMP
        | Opcode::CPX | Opcode::CPY => Ok(alu_effect(ins, s)),
        Opcode::BIT => Ok(bit_test_effect(ins, s)),
        Opcode::ASL | Opcode::LSR | Opcode::ROL | Opcode::ROR | Opcode::INC | Opcode::DEC
        | Opcode::INX | Opcode::INY | Opcode::DEX | Opcode::DEY => Ok(modify_effect(ins, s)),
        Opcode::LDA | Opcode::LDX | Opcode::LDY | Opcode::STA | Opcode::STX | Opcode::STY
        | Opcode::TAX | Opcode::TAY | Opcode::TXA | Opcode::TYA | Opcode::TSX
        | Opcode::TXS => Ok(move_effect(ins, s)),
        Opcode::PHA | Opcode::PHP | Opcode::PLA | Opcode::PLP => stack_effect(ins, s),
        Opcode::CLC | Opcode::SEC | Opcode::CLI | Opcode::SEI | Opcode::CLV | Opcode::CLD
        | Opcode::SED => Ok(flag_effect(ins, s)),
        _ => Ok(s),
    }
}

/// A taken or untaken branch: the position it leaves the index at.
pub open spec fn branch_flow(target: Option<usize>, routines: Seq<usize>) -> Result<(usize, Seq<usize>, StepOutcome), ExecErrorKind> {
    match target {
        Some(t) => Ok((t, routines, StepOutcome::Continue)),
        None => Err(ExecErrorKind::UnknownLabel),
    }
}

/// The control flow of an instruction at `index`: the position the index is
/// left at before the advance, the new call stack, and the outcome.
pub open spec fn control_flow(ins: Instruction, flags: Flags, labels: Seq<(String, usize)>, index: usize, routines: Seq<usize>) -> Result<(usize, Seq<usize>, StepOutcome), ExecErrorKind> {
    let name = ins.label_name@;
    match ins.opcode {
        Opcode::BPL => branch_flow(branch_target(flags.negative, false, name, labels, index), routines),
        Opcode::BMI => branch_flow(branch_target(flags.negative, true, name, labels, index), routines),
        Opcode::BVC => branch_flow(branch_target(flags.overflow, false, name, labels, index), routines),
        Opcode::BVS => branch_flow(branch_target(flags.overflow, true, name, labels, index), routines),
        Opcode::BCC => branch_flow(branch_target(flags.carry, false, name, labels, index), routines),
        Opcode::BCS => branch_flow(branch_target(flags.carry, true, name, labels, index), routines),
        Opcode::BNE => branch_flow(branch_target(flags.zero, false, name, labels, index), routines),
        Opcode::BEQ => branch_flow(branch_target(flags.zero, true, name, labels, index), routines),
        Opcode::JMP => branch_flow(lookup_label(labels, name), routines),
        Opcode::JSR => branch_flow(lookup_label(labels, name), routines.push(index)),
        Opcode::RTS => if routines.len() == 0 {
            Err(ExecErrorKind::NoRoutine)
        } else {
            Ok((routines.last(), routines.drop_last(), StepOutcome::Continue))
        },
        Opcode::BRK => Ok((index, routines, StepOutcome::Halt)),
        Opcode::DRW => Ok((index, routines, StepOutcome::Yield)),
        _ => Ok((index, routines, StepOutcome::Continue)),
    }
}

/// What an [`Emulator`] holds besides its program.
pub struct EmulatorView {
    pub state: CpuState,
    pub index: usize,
    pub routines: Seq<usize>,
    pub halted: bool,
}

/// One execution step: run the instruction at the index, advance, and store
/// `random` in the random cell. A halted machine stays as it is. On an error
/// nothing changes.
pub open spec fn step_spec(program: Seq<Instruction>, labels: Seq<(String, usize)>, e: EmulatorView, random: u8) -> Result<(EmulatorView, StepOutcome), ExecErrorKind> {
    if e.halted || e.index >= program.len() {
        Ok((e, StepOutcome::Halt))
    } else {
        let ins = program[e.index as int];
        match data_effect(ins, e.state) {
            Err(k) => Err(k),
            Ok(s) => match control_flow(ins, s.flags, labels, e.index, e.routines) {
                Err(k) => Err(k),
                Ok((pos, routines, outcome)) => {
                    let state = CpuState {
                        memory: MemoryView { cells: s.memory.cells.update(RANDOM_CELL as int, random), ..s.memory },
                        ..s
                    };
                    if outcome == StepOutcome::Halt {
                        Ok((EmulatorView { state, index: e.index, routines, halted: true }, StepOutcome::Halt))
                    } else {
                        let next = (pos + 1) as usize;
                        let past_end = next >= program.len();
                        Ok((
                            EmulatorView { state, index: next, routines, halted: past_end },
                            if past_end { StepOutcome::Halt } else { outcome },
                        ))
                    }
                },
            },
        }
    }
}

/// Steps with the bytes of `randoms`, one per step, until a step ends in
/// anything but `Continue` or the bytes run out: the final state and how the
/// last step ended.
pub open spec fn run_spec(program: Seq<Instruction>, labels: Seq<(String, usize)>, e: EmulatorView, randoms: Seq<u8>) -> (EmulatorView, Result<StepOutcome, ExecErrorKind>)
    decreases randoms.len(),
{
    if randoms.len() == 0 {
        (e, Ok(StepOutcome::Continue))
    } else {
        match step_spec(program, labels, e, randoms[0]) {
            Err(k) => (e, Err(k)),
            Ok((e2, StepOutcome::Continue)) => run_spec(program, labels, e2, randoms.drop_first()),
            Ok((e2, outcome)) => (e2, Ok(outcome)),
        }
    }
}

/// A program being executed: the instructions, their label table, the
/// machine, the instruction index and the stack of call sites.
pub struct Emulator {
    instructions: Vec<Instruction>,
    labels: Vec<(String, usize)>,
    system: Vp8System,
    index: usize,
    routines: Vec<usize>,
    halted: bool,
}

impl View for Emulator {
    type V = EmulatorView;

    closed spec fn view(&self) -> EmulatorView {
        EmulatorView {
            state: self.system.state(),
            index: self.index,
            routines: self.routines@,
            halted: self.halted,
        }
    }
}

impl Emulator {
    pub closed spec fn program(&self) -> Seq<Instruction> {
        self.instructions@
    }

    pub closed spec fn label_table(&self) -> Seq<(String, usize)> {
        self.labels@
    }

    pub open spec fn wf(&self) -> bool {
        &&& self@.state.memory.cells.len() == MEMORY_SIZE
        &&& self.program().len() <= usize::MAX
        &&& self.label_table() == labels_of(self.program())
        &&& self@.index <= self.program().len()
        &&& !self@.halted ==> self@.index < self.program().len()
        &&& forall|i: int| 0 <= i < self@.routines.len() ==> #[trigger] self@.routines[i] < self.program().len()
    }
}

// ---------------------------------------------------------------------------
// Lemmas
// ---------------------------------------------------------------------------

/// Every entry of the label table points into the program.
proof fn lemma_labels_in_range(program: Seq<Instruction>)
    ensures
        forall|i: int| 0 <= i < labels_of(program).len() ==> #[trigger] labels_of(program)[i].1 < program.len(),
    decreases program.len(),
{
    if program.len() > 0 {
        let rest = program.drop_last();
        lemma_labels_in_range(rest);
        assert forall|i: int| 0 <= i < labels_of(program).len() implies #[trigger] labels_of(program)[i].1 < program.len() by {
            if i < labels_of(rest).len() {
                assert(labels_of(program)[i] == labels_of(rest)[i]);
            }
        }
    }
}

/// A label found in the table points into the program.
proof fn lemma_lookup_in_range(program: Seq<Instruction>, labels: Seq<(String, usize)>, name: Seq<char>)
    requires
        forall|i: int| 0 <= i < labels.len() ==> #[trigger] labels[i].1 < program.len(),
    ensures
        lookup_label(labels, name) matches Some(t) ==> t < program.len(),
    decreases labels.len(),
{
    if labels.len() > 0 {
        assert forall|i: int| 0 <= i < labels.drop_first().len() implies #[trigger] labels.drop_first()[i].1 < program.len() by {
            assert(labels.drop_first()[i] == labels[i + 1]);
        }
        lemma_lookup_in_range(program, labels.drop_first(), name);
    }
}

/// Control flow keeps the index and the call stack inside the program.
proof fn lemma_control_in_range(program: Seq<Instruction>, flags: Flags, index: usize, routines: Seq<usize>)
    requires
        index < program.len(),
        forall|i: int| 0 <= i < routines.len() ==> #[trigger] routines[i] < program.len(),
    ensures
        ({
            let c = control_flow(program[index as int], flags, labels_of(program), index, routines);
            c is Ok ==> {
                &&& c->Ok_0.0 < program.len()
                &&& forall|i: int| 0 <= i < c->Ok_0.1.len() ==> #[trigger] c->Ok_0.1[i] < program.len()
            }
        }),
{
    let ins = program[index as int];
    lemma_labels_in_range(program);
    lemma_lookup_in_range(program, labels_of(program), ins.label_name@);
    if let Ok((pos, rs, outcome)) = control_flow(ins, flags, labels_of(program), index, routines) {
        if ins.opcode == Opcode::JSR {
            assert forall|i: int| 0 <= i < rs.len() implies #[trigger] rs[i] < program.len() by {
                if i < routines.len() {
                    assert(rs[i] == routines[i]);
                }
            }
        }
        if ins.opcode == Opcode::RTS {
            assert(pos == routines[routines.len() - 1]);
            assert forall|i: int| 0 <= i < rs.len() implies #[trigger] rs[i] < program.len() by {
                assert(rs[i] == routines[i]);
            }
        }
    }
}

/// The instructions whose control flow can fail leave registers, flags and
/// memory alone.
proof fn lemma_failing_control_keeps_state(ins: Instruction, s: CpuState, flags: Flags, labels: Seq<(String, usize)>, index: usize, routines: Seq<usize>)
    requires
        control_flow(ins, flags, labels, index, routines) is Err,
    ensures
        data_effect(ins, s) == Ok::<CpuState, ExecErrorKind>(s),
{
    reveal(data_effect);
}

/// Running with one more byte takes one more step from where the run stopped.
proof fn lemma_run_extend(program: Seq<Instruction>, labels: Seq<(String, usize)>, e: EmulatorView, randoms: Seq<u8>, b: u8)
    requires
        run_spec(program, labels, e, randoms).1 == Ok::<StepOutcome, ExecErrorKind>(StepOutcome::Continue),
    ensures
        run_spec(program, labels, e, randoms.push(b)) == ({
            let mid = run_spec(program, labels, e, randoms).0;
            match step_spec(program, labels, mid, b) {
                Err(k) => (mid, Err(k)),
                Ok((e2, outcome)) => (e2, Ok(outcome)),
            }
        }),
    decreases randoms.len(),
{
    let longer = randoms.push(b);
    assert(longer[0] == if randoms.len() > 0 { randoms[0] } else { b });
    if randoms.len() > 0 {
        assert(longer.drop_first() =~= randoms.drop_first().push(b));
        let first = step_spec(program, labels, e, randoms[0]);
        assert(first is Ok && first->Ok_0.1 == StepOutcome::Continue);
        lemma_run_extend(program, labels, first->Ok_0.0, randoms.drop_first(), b);
    } else {
        assert(longer.drop_first() =~= Seq::<u8>::empty());
        let first = step_spec(program, labels, e, b);
        if first is Ok && first->Ok_0.1 == StepOutcome::Continue {
            assert(run_spec(program, labels, first->Ok_0.0, longer.drop_first()) == (first->Ok_0.0, Ok::<StepOutcome, ExecErrorKind>(StepOutcome::Continue)));
        }
    }
}

/// A call resumes at the instruction right after it once a return runs with
/// the call stack as the call left it: the return sets the index one past
/// the call (halting if the call was the last instruction) and restores the
/// call stack from before the call.
pub proof fn call_then_return_resumes_after_call(
    program: Seq<Instruction>,
    labels: Seq<(String, usize)>,
    e: EmulatorView,
    r1: u8,
    later: EmulatorView,
    r2: u8,
)
    requires
        program.len() <= usize::MAX,
        !e.halted,
        e.index < program.len(),
        program[e.index as int].opcode == Opcode::JSR,
        step_spec(program, labels, e, r1) is Ok,
        later.routines == step_spec(program, labels, e, r1)->Ok_0.0.routines,
        !later.halted,
        later.index < program.len(),
        program[later.index as int].opcode == Opcode::RTS,
    ensures
        step_spec(program, labels, later, r2) is Ok,
        step_spec(program, labels, later, r2)->Ok_0.0.index == e.index + 1,
        step_spec(program, labels, later, r2)->Ok_0.0.routines == e.routines,
        step_spec(program, labels, later, r2)->Ok_0.0.halted == (e.index + 1 >= program.len()),
{
    reveal(data_effect);
    assert(later.routines == e.routines.push(e.index));
    assert(later.routines.drop_last() =~= e.routines);
}

// ---------------------------------------------------------------------------
// Execution
// ---------------------------------------------------------------------------

/// Relies on rand::random: a byte from the thread-local generator. Nothing is
/// promised of its value.
#[verifier::external_body]
fn random_byte() -> u8 {
    rand::random::<u8>()
}

/// The label table of a program.
pub fn get_labels(instructions: &Vec<Instruction>) -> (r: Vec<(String, usize)>)
    ensures
        r@ == labels_of(instructions@),
{
    let mut to_return: Vec<(String, usize)> = Vec::new();
    let mut i: usize = 0;
    assert(instructions@.subrange(0, 0) =~= Seq::<Instruction>::empty());
    while i < instructions.len()
        invariant
            i <= instructions.len(),
            to_return@ == labels_of(instructions@.subrange(0, i as int)),
        decreases instructions.len() - i,
    {
        assert(instructions@.subrange(0, i + 1).drop_last() =~= instructions@.subrange(0, i as int));
        if instructions[i].opcode == Opcode::LABEL {
            to_return.push((instructions[i].label_name.clone(), i));
        }
        i = i + 1;
    }
    assert(instructions@.subrange(0, i as int) =~= instructions@);
    to_return
}

fn execute_alu(ins: &Instruction, vp8: &mut Vp8System)
    requires
        old(vp8).memory.wf(),
    ensures
        final(vp8).memory.wf(),
        final(vp8).state() == alu_effect(*ins, old(vp8).state()),
{
    let address = ins.value;
    let mode = ins.addressing_mode;
    match ins.opcode {
        Opcode::ADC => adc(address, mode, &mut vp8.registers, &mut vp8.flags, &vp8.memory),
        Opcode::SBC => sbc(address, mode, &mut vp8.registers, &mut vp8.flags, &vp8.memory),
        Opcode::AND => and(address, mode, &mut vp8.registers, &vp8.memory),
        Opcode::ORA => ora(address, mode, &mut vp8.registers, &vp8.memory),
        Opcode::EOR => eor(address, mode, &vp8.memory, &mut vp8.registers),
        Opcode::CMP => cmp(address, mode, &vp8.registers, &mut vp8.flags, &vp8.memory),
        Opcode::CPX => cpx(address, mode, &vp8.registers, &mut vp8.flags, &vp8.memory),
        Opcode::CPY => cpy(address, mode, &vp8.registers, &mut vp8.flags, &vp8.memory),
        _ => {},
    }
}

fn execute_shift(ins: &Instruction, vp8: &mut Vp8System)
    requires
        old(vp8).memory.wf(),
        ins.opcode == Opcode::ASL || ins.opcode == Opcode::LSR || ins.opcode == Opcode::ROL
            || ins.opcode == Opcode::ROR,
    ensures
        final(vp8).memory.wf(),
        final(vp8).state() == modify_effect(*ins, old(vp8).state()),
{
    let address = ins.value;
    let mode = ins.addressing_mode;
    match ins.opcode {
        Opcode::ASL => asl(address, mode, &mut vp8.registers, &mut vp8.flags, &mut vp8.memory),
        Opcode::LSR => lsr(address, mode, &mut vp8.memory, &mut vp8.registers, &mut vp8.flags),
        Opcode::ROL => rol(address, mode, &mut vp8.registers, &mut vp8.memory, &mut vp8.flags),
        _ => ror(address, mode, &mut vp8.registers, &mut vp8.memory, &mut vp8.flags),
    }
}

fn execute_modify(ins: &Instruction, vp8: &mut Vp8System)
    requires
        old(vp8).memory.wf(),
    ensures
        final(vp8).memory.wf(),
        final(vp8).state() == modify_effect(*ins, old(vp8).state()),
{
    let address = ins.value;
    let mode = ins.addressing_mode;
    match ins.opcode {
        Opcode::ASL | Opcode::LSR | Opcode::ROL | Opcode::ROR => execute_shift(ins, vp8),
        Opcode::INC => inc(address, mode, &vp8.registers, &mut vp8.flags, &mut vp8.memory),
        Opcode::DEC => dec(address, mode, &vp8.registers, &mut vp8.flags, &mut vp8.memory),
        Opcode::INX => inx(&mut vp8.registers, &mut vp8.flags),
        Opcode::INY => iny(&mut vp8.registers, &mut vp8.flags),
        Opcode::DEX => dex(&mut vp8.registers, &mut vp8.flags),
        Opcode::DEY => dey(&mut vp8.registers, &mut vp8.flags),
        _ => {},
    }
}

fn execute_move(ins: &Instruction, vp8: &mut Vp8System)
    requires
        old(vp8).memory.wf(),
    ensures
        final(vp8).memory.wf(),
        final(vp8).state() == move_effect(*ins, old(vp8).state()),
{
    let address = ins.value;
    let mode = ins.addressing_mode;
    match ins.opcode {
        Opcode::LDA => lda(address, mode, &vp8.memory, &mut vp8.registers),
        Opcode::LDX => ldx(address, mode, &vp8.memory, &mut vp8.registers),
        Opcode::LDY => ldy(address, mode, &vp8.memory, &mut vp8.registers),
        Opcode::STA => sta(address, mode, &vp8.registers, &mut vp8.memory),
        Opcode::STX => stx(address, mode, &vp8.registers, &mut vp8.memory),
        Opcode::STY => sty(address, mode, &vp8.registers, &mut vp8.memory),
        Opcode::TAX => tax(&mut vp8.registers),
        Opcode::TAY => tay(&mut vp8.registers),
        Opcode::TXA => txa(&mut vp8.registers),
        Opcode::TYA => tya(&mut vp8.registers),
        Opcode::TSX => tsx(&mut vp8.registers),
        Opcode::TXS => txs(&mut vp8.registers, &mut vp8.memory),
        _ => {},
    }
}

fn execute_stack(ins: &Instruction, vp8: &mut Vp8System) -> (r: Result<(), ExecErrorKind>)
    requires
        old(vp8).memory.wf(),
    ensures
        final(vp8).memory.wf(),
        match stack_effect(*ins, old(vp8).state()) {
            Ok(s) => r is Ok && final(vp8).state() == s,
            Err(k) => r == Err::<(), ExecErrorKind>(k) && final(vp8).state() == old(vp8).state(),
        },
{
    match ins.opcode {
        Opcode::PHA => pha(&mut vp8.registers, &mut vp8.memory),
        Opcode::PHP => php(&mut vp8.registers, &vp8.flags, &mut vp8.memory),
        Opcode::PLA => pla(&mut vp8.registers, &mut vp8.memory),
        Opcode::PLP => plp(&mut vp8.registers, &mut vp8.flags, &mut vp8.memory),
        _ => Ok(()),
    }
}

fn execute_flag(ins: &Instruction, vp8: &mut Vp8System)
    ensures
        final(vp8).memory == old(vp8).memory,
        final(vp8).state() == flag_effect(*ins, old(vp8).state()),
{
    match ins.opcode {
        Opcode::CLC => clc(&mut vp8.flags),
        Opcode::SEC => sec(&mut vp8.flags),
        Opcode::CLI => cli(&mut vp8.flags),
        Opcode::SEI => sei(&mut vp8.flags),
        Opcode::CLV => clv(&mut vp8.flags),
        Opcode::CLD => cld(&mut vp8.flags),
        Opcode::SED => sed(&mut vp8.flags),
        _ => {},
    }
}

/// Applies an instruction's effect on registers, flags and memory.
fn execute_data(ins: &Instruction, vp8: &mut Vp8System) -> (r: Result<(), ExecErrorKind>)
    requires
        old(vp8).memory.wf(),
    ensures
        final(vp8).memory.wf(),
        match data_effect(*ins, old(vp8).state()) {
            Ok(s) => r is Ok && final(vp8).state() == s,
            Err(k) => r == Err::<(), ExecErrorKind>(k) && final(vp8).state() == old(vp8).state(),
        },
{
    reveal(data_effect);
    match ins.opcode {
        Opcode::ADC | Opcode::SBC | Opcode::AND | Opcode::ORA | Opcode::EOR | Opcode::CMP
        | Opcode::CPX | Opcode::CPY => execute_alu(ins, vp8),
        Opcode::BIT => bit(ins.value, ins.addressing_mode, &mut vp8.flags, &vp8.memory),
        Opcode::ASL | Opcode::LSR | Opcode::ROL | Opcode::ROR | Opcode::INC | Opcode::DEC
        | Opcode::INX | Opcode::INY | Opcode::DEX | Opcode::DEY => execute_modify(ins, vp8),
        Opcode::LDA | Opcode::LDX | Opcode::LDY | Opcode::STA | Opcode::STX | Opcode::STY
        | Opcode::TAX | Opcode::TAY | Opcode::TXA | Opcode::TYA | Opcode::TSX
        | Opcode::TXS => execute_move(ins, vp8),
        Opcode::PHA | Opcode::PHP | Opcode::PLA | Opcode::PLP => return execute_stack(ins, vp8),
        Opcode::CLC | Opcode::SEC | Opcode::CLI | Opcode::SEI | Opcode::CLV | Opcode::CLD
        | Opcode::SED => execute_flag(ins, vp8),
        _ => {},
    }
    Ok(())
}

fn branch_result(target: Option<usize>) -> (r: Result<(usize, StepOutcome), ExecErrorKind>)
    ensures
        match target {
            Some(t) => r == Ok::<(usize, StepOutcome), ExecErrorKind>((t, StepOutcome::Continue)),
            None => r == Err::<(usize, StepOutcome), ExecErrorKind>(ExecErrorKind::UnknownLabel),
        },
{
    match target {
        Some(t) => Ok((t, StepOutcome::Continue)),
        None => Err(ExecErrorKind::UnknownLabel),
    }
}

/// Decides where the instruction at `index` leaves the index, and updates
/// the call stack.
fn control(ins: &Instruction, flags: &Flags, labels: &Vec<(String, usize)>, index: usize, routines: &mut Vec<usize>) -> (r: Result<(usize, StepOutcome), ExecErrorKind>)
    ensures
        match control_flow(*ins, *flags, labels@, index, old(routines)@) {
            Ok((pos, rs, outcome)) => r == Ok::<(usize, StepOutcome), ExecErrorKind>((pos, outcome)) && final(routines)@ == rs,
            Err(k) => r == Err::<(usize, StepOutcome), ExecErrorKind>(k) && final(routines)@ == old(routines)@,
        },
{
    let name = &ins.label_name;
    match ins.opcode {
        Opcode::BPL => branch_result(bpl(index, flags, name, labels)),
        Opcode::BMI => branch_result(bmi(index, flags, name, labels)),
        Opcode::BVC => branch_result(bvc(index, flags, name, labels)),
        Opcode::BVS => branch_result(bvs(index, flags, name, labels)),
        Opcode::BCC => branch_result(bcc(index, flags, name, labels)),
        Opcode::BCS => branch_result(bcs(index, flags, name, labels)),
        Opcode::BNE => branch_result(bne(index, flags, name, labels)),
        Opcode::BEQ => branch_result(beq(index, flags, name, labels)),
        Opcode::JMP => branch_result(jmp(name, labels)),
        Opcode::JSR => {
            let target = jmp(name, labels);
            if target.is_some() {
                routines.push(index);
            }
            branch_result(target)
        },
        Opcode::RTS => match routines.pop() {
            Some(call_site) => Ok((call_site, StepOutcome::Continue)),
            None => Err(ExecErrorKind::NoRoutine),
        },
        Opcode::BRK => Ok((index, StepOutcome::Halt)),
        Opcode::DRW => Ok((index, StepOutcome::Yield)),
        _ => Ok((index, StepOutcome::Continue)),
    }
}

/// Checks a program and sets up a machine to run it: registers, flags and
/// memory in their initial state, the index on the first instruction, no
/// routine entered. A program that fails the check is refused.
pub fn start_emulator(instructions: Vec<Instruction>) -> (r: Result<Emulator, VerifyError>)
    ensures
        r is Ok <==> program_verified(instructions@),
        r matches Ok(e) ==> {
            &&& e.wf()
            &&& e.program() == instructions@
            &&& e@.state.registers == Registers::initial()
            &&& e@.state.flags == Flags::initial()
            &&& e@.state.memory == Memory::initial()
            &&& e@.index == 0
            &&& e@.routines.len() == 0
            &&& e@.halted == (instructions.len() == 0)
        },
{
    match verify_data(&instructions) {
        Err(e) => return Err(e),
        Ok(()) => {},
    }
    let labels = get_labels(&instructions);
    let halted = instructions.len() == 0;
    Ok(Emulator {
        instructions,
        labels,
        system: Vp8System::init(),
        index: 0,
        routines: Vec::new(),
        halted,
    })
}

impl Emulator {
    /// Executes one instruction with `random` as the byte for the random cell.
    pub fn step(&mut self, random: u8) -> (r: Result<StepOutcome, ExecError>)
        requires
            old(self).wf(),
        ensures
            final(self).wf(),
            final(self).program() == old(self).program(),
            final(self).label_table() == old(self).label_table(),
            match step_spec(old(self).program(), old(self).label_table(), old(self)@, random) {
                Ok((e, outcome)) => r == Ok::<StepOutcome, ExecError>(outcome) && final(self)@ == e,
                Err(k) => r == Err::<StepOutcome, ExecError>(ExecError { index: old(self)@.index, kind: k })
                    && final(self)@ == old(self)@,
            },
    {
        if self.halted {
            return Ok(StepOutcome::Halt);
        }
        let index = self.index;
        let ghost before = self.system.state();
        let ins = &self.instructions[index];
        if let Err(kind) = execute_data(ins, &mut self.system) {
            return Err(ExecError { index, kind });
        }
        proof {
            assert forall|i: int| 0 <= i < self.routines@.len() implies #[trigger] self.routines@[i] < self.instructions@.len() by {
                assert(old(self)@.routines[i] == self.routines@[i]);
            }
            assert(self.labels@ == labels_of(self.instructions@));
            assert(*ins == self.instructions@[index as int]);
            lemma_control_in_range(self.instructions@, self.system.flags, index, self.routines@);
            if control_flow(*ins, self.system.flags, self.labels@, index, self.routines@) is Err {
                lemma_failing_control_keeps_state(*ins, before, self.system.flags, self.labels@, index, self.routines@);
            }
        }
        let (pos, outcome) = match control(ins, &self.system.flags, &self.labels, index, &mut self.routines) {
            Ok(flow) => flow,
            Err(kind) => return Err(ExecError { index, kind }),
        };
        proof {
            assert(control_flow(*ins, self.system.flags, labels_of(self.instructions@), index, old(self)@.routines) is Ok);
            assert(pos < self.instructions.len());
        }
        self.system.memory.set_mem_cell_value(RANDOM_CELL, random);
        if outcome == StepOutcome::Halt {
            self.halted = true;
            return Ok(StepOutcome::Halt);
        }
        self.index = pos + 1;
        if self.index >= self.instructions.len() {
            self.halted = true;
            return Ok(StepOutcome::Halt);
        }
        Ok(outcome)
    }

    /// Runs at most `max_steps` instructions, each followed by a fresh
    /// pseudo-random byte in the random cell, stopping early at a `DRW`
    /// yield, a halt or an error. The run is the one [`run_spec`] gives for
    /// the bytes drawn; which bytes those are is up to the generator.
    pub fn execute_code(&mut self, max_steps: usize) -> (r: Result<StepOutcome, ExecError>)
        requires
            old(self).wf(),
        ensures
            final(self).wf(),
            final(self).program() == old(self).program(),
            final(self).label_table() == old(self).label_table(),
            exists|randoms: Seq<u8>| {
                &&& randoms.len() <= max_steps
                &&& (r == Ok::<StepOutcome, ExecError>(StepOutcome::Continue) ==> randoms.len() == max_steps)
                &&& #[trigger] run_spec(old(self).program(), old(self).label_table(), old(self)@, randoms) == (
                    final(self)@,
                    match r {
                        Ok(outcome) => Ok::<StepOutcome, ExecErrorKind>(outcome),
                        Err(e) => Err::<StepOutcome, ExecErrorKind>(e.kind),
                    },
                )
            },
            r matches Err(e) ==> e.index == final(self)@.index,
    {
        let ghost start = self@;
        let ghost mut drawn: Seq<u8> = Seq::empty();
        let mut n: usize = 0;
        assert(run_spec(self.program(), self.label_table(), start, drawn) == (self@, Ok::<StepOutcome, ExecErrorKind>(StepOutcome::Continue)));
        while n < max_steps
            invariant
                self.wf(),
                self.program() == old(self).program(),
                self.label_table() == old(self).label_table(),
                start == old(self)@,
                n == drawn.len(),
                n <= max_steps,
                run_spec(self.program(), self.label_table(), start, drawn) == (self@, Ok::<StepOutcome, ExecErrorKind>(StepOutcome::Continue)),
            decreases max_steps - n,
        {
            let b = random_byte();
            proof {
                lemma_run_extend(self.program(), self.label_table(), start, drawn, b);
            }
            let result = self.step(b);
            proof {
                drawn = drawn.push(b);
            }
            match result {
                Ok(StepOutcome::Continue) => {},
                Ok(outcome) => return Ok(outcome),
                Err(e) => return Err(e),
            }
            n = n + 1;
        }
        Ok(StepOutcome::Continue)
    }

    /// Stores the code of a pressed key in the key cell.
    pub fn record_key(&mut self, key: u8)
        requires
            old(self).wf(),
        ensures
            final(self).wf(),
            final(self).program() == old(self).program(),
            final(self).label_table() == old(self).label_table(),
            final(self)@ == (EmulatorView {
                state: CpuState {
                    memory: MemoryView { cells: old(self)@.state.memory.cells.update(KEY_CELL as int, key), ..old(self)@.state.memory },
                    ..old(self)@.state
                },
                ..old(self)@
            }),
    {
        self.system.memory.set_mem_cell_value(KEY_CELL, key);
    }

    pub fn registers(&self) -> (r: Registers)
        ensures
            r == self@.state.registers,
    {
        self.system.registers
    }

    pub fn flags(&self) -> (r: Flags)
        ensures
            r == self@.state.flags,
    {
        self.system.flags
    }

    pub fn memory(&self) -> (r: &Memory)
        ensures
            r@ == self@.state.memory,
    {
        &self.system.memory
    }

    pub fn index(&self) -> (r: usize)
        ensures
            r == self@.index,
    {
        self.index
    }

    pub fn is_halted(&self) -> (r: bool)
        ensures
            r == self@.halted,
    {
        self.halted
    }
}

} // verus!
