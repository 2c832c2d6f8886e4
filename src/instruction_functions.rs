//! The semantics of each instruction, as effect functions over registers,
//! flags and memory, with an executable handler for each.
//!
//! Choices where the instruction set is loose:
//! - Effective addresses wrap at 16 bits.
//! - `ADC` adds the operand to the accumulator without a carry-in; carry
//!   tells whether the 16-bit sum exceeded 255 and overflow whether the
//!   signed sum left -128..=127. `SBC` is the same for the difference, with
//!   carry telling whether a borrow occurred. Decimal mode is not modelled.
//! - Compares set flags asymmetrically: equal sets zero and carry, greater
//!   sets negative and carry, less clears negative only.
//! - The increments and decrements wrap at 8 bits and set zero and negative
//!   from the result; loads, stores and transfers leave the flags alone.
//! - Pushes store at the stack pointer and then move it down; pulls move it
//!   up and then read, so a pull returns the byte of the latest push.

use vstd::prelude::*;
use crate::analyze_code::{AddressingMode, Opcode};
use crate::system::{Flags, Memory, MemoryView, Registers, MEMORY_SIZE, STACK_EMPTY, STACK_FULL};

verus! {

/// A fatal condition met while executing an instruction.
#[derive(Clone, Copy, Debug, PartialEq, Eq, Structural)]
pub enum ExecErrorKind {
    /// A taken branch, jump or call names a label that the program lacks.
    UnknownLabel,
    /// A push with the stack full.
    StackOverflow,
    /// A pull with the stack empty.
    StackUnderflow,
    /// A return with no routine to return from.
    NoRoutine,
}

// ---------------------------------------------------------------------------
// Operands
// ---------------------------------------------------------------------------

/// `n` reduced to a 16-bit address.
pub open spec fn wrap_address(n: int) -> u16 {
    (n % 65536) as u16
}

/// The little-endian pointer stored at `p` and the cell after it.
pub open spec fn pointer_at(cells: Seq<u8>, p: u16) -> u16 {
    (cells[p as int] as int + 256 * cells[wrap_address(p + 1) as int] as int) as u16
}

/// The memory address an operand designates, for the memory addressing modes.
pub open spec fn operand_address(mode: AddressingMode, value: u16, regs: Registers, cells: Seq<u8>) -> Option<u16> {
    match mode {
        AddressingMode::ZeroPage | AddressingMode::Absolute => Some(value),
        AddressingMode::ZeroPageX | AddressingMode::AbsoluteX => Some(wrap_address(value + regs.x)),
        AddressingMode::ZeroPageY | AddressingMode::AbsoluteY => Some(wrap_address(value + regs.y)),
        AddressingMode::IndirectX => Some(pointer_at(cells, wrap_address(value + regs.x))),
        AddressingMode::IndirectY => Some(wrap_address(pointer_at(cells, value) + regs.y)),
        _ => None,
    }
}

/// The byte an operand yields: the low byte of the value when immediate,
/// the designated cell in a memory mode, none otherwise.
pub open spec fn operand_byte(mode: AddressingMode, value: u16, regs: Registers, cells: Seq<u8>) -> Option<u8> {
    if mode == AddressingMode::Immediate {
        Some((value % 256) as u8)
    } else {
        match operand_address(mode, value, regs, cells) {
            Some(a) => Some(cells[a as int]),
            None => None,
        }
    }
}

/// The byte as a two's-complement number.
pub open spec fn signed(b: u8) -> int {
    if b < 128 {
        b as int
    } else {
        b as int - 256
    }
}

/// `flags` with zero and negative describing `v`.
pub open spec fn with_zn(flags: Flags, v: u8) -> Flags {
    Flags { zero: v == 0, negative: v >= 128, ..flags }
}

// ---------------------------------------------------------------------------
// Effects
// ---------------------------------------------------------------------------

/// Addition of `m` to the accumulator.
pub open spec fn add_effect(m: u8, regs: Registers, flags: Flags) -> (Registers, Flags) {
    let sum = regs.acc + m;
    let s = signed(regs.acc) + signed(m);
    (
        Registers { acc: (sum % 256) as u8, ..regs },
        Flags { carry: sum > 255, overflow: s < -128 || s > 127, ..flags },
    )
}

/// Subtraction of `m` from the accumulator.
pub open spec fn sub_effect(m: u8, regs: Registers, flags: Flags) -> (Registers, Flags) {
    let diff = regs.acc - m;
    let s = signed(regs.acc) - signed(m);
    (
        Registers { acc: ((diff + 256) % 256) as u8, ..regs },
        Flags { carry: diff < 0, overflow: s < -128 || s > 127, ..flags },
    )
}

/// The three-way compare of a register with `m`.
pub open spec fn compare_effect(register_value: u8, m: u8, flags: Flags) -> Flags {
    if register_value < m {
        Flags { negative: false, ..flags }
    } else if register_value == m {
        Flags { zero: true, carry: true, ..flags }
    } else {
        Flags { negative: true, carry: true, ..flags }
    }
}

/// A shift or rotate of `v`: the new value and the new carry.
pub open spec fn shift_value(op: Opcode, v: u8, carry: bool) -> (u8, bool) {
    match op {
        Opcode::ASL => (((v * 2) % 256) as u8, v >= 128),
        Opcode::LSR => ((v / 2) as u8, v % 2 == 1),
        Opcode::ROL => (((v * 2) % 256 + if carry { 1int } else { 0int }) as u8, v >= 128),
        _ => ((v / 2 + if carry { 128int } else { 0int }) as u8, v % 2 == 1),
    }
}

/// A shift or rotate on the accumulator (implied mode) or on a memory cell.
pub open spec fn shift_effect(op: Opcode, mode: AddressingMode, value: u16, regs: Registers, flags: Flags, mem: MemoryView) -> (Registers, Flags, MemoryView) {
    if mode == AddressingMode::Implied {
        let (v, c) = shift_value(op, regs.acc, flags.carry);
        (Registers { acc: v, ..regs }, Flags { carry: c, ..flags }, mem)
    } else {
        match operand_address(mode, value, regs, mem.cells) {
            Some(a) => {
                let (v, c) = shift_value(op, mem.cells[a as int], flags.carry);
                (regs, Flags { carry: c, ..flags }, MemoryView { cells: mem.cells.update(a as int, v), ..mem })
            },
            None => (regs, flags, mem),
        }
    }
}

/// An increment (`up`) or decrement of a memory cell.
pub open spec fn step_cell_effect(up: bool, mode: AddressingMode, value: u16, regs: Registers, flags: Flags, mem: MemoryView) -> (Flags, MemoryView) {
    match operand_address(mode, value, regs, mem.cells) {
        Some(a) => {
            let v = step_byte(up, mem.cells[a as int]);
            (with_zn(flags, v), MemoryView { cells: mem.cells.update(a as int, v), ..mem })
        },
        None => (flags, mem),
    }
}

/// `v` plus or minus one, wrapping at 8 bits.
pub open spec fn step_byte(up: bool, v: u8) -> u8 {
    if up {
        ((v + 1) % 256) as u8
    } else {
        ((v + 255) % 256) as u8
    }
}

/// A store of `byte` to the operand's memory cell.
pub open spec fn store_effect(mode: AddressingMode, value: u16, regs: Registers, byte: u8, mem: MemoryView) -> MemoryView {
    match operand_address(mode, value, regs, mem.cells) {
        Some(a) => MemoryView { cells: mem.cells.update(a as int, byte), ..mem },
        None => mem,
    }
}

/// The bit test of a byte `m`: negative and overflow take bits 7 and 6 of
/// `m`; the other flags stay.
pub open spec fn bit_effect(m: u8, flags: Flags) -> Flags {
    Flags { negative: m >= 128, overflow: (m / 64) % 2 == 1, ..flags }
}

/// `BIT` reads its byte in zero-page and absolute mode only; in any other
/// mode it has no effect.
pub open spec fn bit_test(mode: AddressingMode, value: u16, flags: Flags, cells: Seq<u8>) -> Flags {
    if mode == AddressingMode::ZeroPage || mode == AddressingMode::Absolute {
        bit_effect(cells[value as int], flags)
    } else {
        flags
    }
}

/// The low byte of a stack pointer, which the `sp` register mirrors.
pub open spec fn stack_register(p: u16) -> u8 {
    (p % 256) as u8
}

/// A push of `byte` onto the stack.
pub open spec fn push_effect(byte: u8, regs: Registers, mem: MemoryView) -> Result<(Registers, MemoryView), ExecErrorKind> {
    if mem.stack_pointer <= STACK_FULL {
        Err(ExecErrorKind::StackOverflow)
    } else {
        let p = (mem.stack_pointer - 1) as u16;
        Ok((
            Registers { sp: stack_register(p), ..regs },
            MemoryView { cells: mem.cells.update(mem.stack_pointer as int, byte), stack_pointer: p },
        ))
    }
}

/// A pull from the stack: the byte pulled, and the new registers and memory.
pub open spec fn pull_effect(regs: Registers, mem: MemoryView) -> Result<(u8, Registers, MemoryView), ExecErrorKind> {
    if mem.stack_pointer >= STACK_EMPTY {
        Err(ExecErrorKind::StackUnderflow)
    } else {
        let p = (mem.stack_pointer + 1) as u16;
        Ok((
            mem.cells[p as int],
            Registers { sp: stack_register(p), ..regs },
            MemoryView { stack_pointer: p, ..mem },
        ))
    }
}

/// The flags packed into a status byte: carry, zero, interrupt disable and
/// decimal in bits 0 to 3, overflow in bit 6, negative in bit 7.
pub open spec fn status_byte(f: Flags) -> u8 {
    ((if f.carry { 1int } else { 0int }) + (if f.zero { 2int } else { 0int })
        + (if f.interrupt_disable { 4int } else { 0int }) + (if f.decimal { 8int } else { 0int })
        + (if f.overflow { 64int } else { 0int }) + (if f.negative { 128int } else { 0int })) as u8
}

/// The flags unpacked from a status byte.
pub open spec fn flags_of_status(b: u8) -> Flags {
    Flags {
        carry: b % 2 == 1,
        zero: (b / 2) % 2 == 1,
        interrupt_disable: (b / 4) % 2 == 1,
        decimal: (b / 8) % 2 == 1,
        overflow: (b / 64) % 2 == 1,
        negative: b >= 128,
    }
}

/// The first entry of the label table named `name`.
pub open spec fn lookup_label(labels: Seq<(String, usize)>, name: Seq<char>) -> Option<usize>
    decreases labels.len(),
{
    if labels.len() == 0 {
        None
    } else if labels[0].0@ == name {
        Some(labels[0].1)
    } else {
        lookup_label(labels.drop_first(), name)
    }
}

/// Where a conditional branch leaves the instruction index: at the label when
/// `flag` equals `expected`, at `current` otherwise; none for an unknown label.
pub open spec fn branch_target(flag: bool, expected: bool, name: Seq<char>, labels: Seq<(String, usize)>, current: usize) -> Option<usize> {
    if flag == expected {
        lookup_label(labels, name)
    } else {
        Some(current)
    }
}

/// A push followed by a pull gives back the pushed byte and the stack
/// pointer from before the push, whatever ran in between as long as it left
/// the stack pointer and the pushed cell alone.
pub proof fn push_then_pull_restores(byte: u8, regs: Registers, mem: MemoryView, regs2: Registers, mem2: MemoryView)
    requires
        mem.cells.len() == MEMORY_SIZE,
        mem2.cells.len() == MEMORY_SIZE,
        mem.stack_pointer <= STACK_EMPTY,
        push_effect(byte, regs, mem) is Ok,
        mem2.stack_pointer == push_effect(byte, regs, mem)->Ok_0.1.stack_pointer,
        mem2.cells[mem.stack_pointer as int] == push_effect(byte, regs, mem)->Ok_0.1.cells[mem.stack_pointer as int],
    ensures
        pull_effect(regs2, mem2) is Ok,
        pull_effect(regs2, mem2)->Ok_0.0 == byte,
        pull_effect(regs2, mem2)->Ok_0.2.stack_pointer == mem.stack_pointer,
        pull_effect(regs2, mem2)->Ok_0.1.sp == stack_register(mem.stack_pointer),
{
}

// ---------------------------------------------------------------------------
// Operand resolution
// ---------------------------------------------------------------------------

fn wrapped_sum(a: u16, b: u16) -> (r: u16)
    ensures
        r == wrap_address(a + b),
{
    ((a as u32 + b as u32) % 65536) as u16
}

fn pointer(memory: &Memory, p: u16) -> (r: u16)
    requires
        memory.wf(),
    ensures
        r == pointer_at(memory@.cells, p),
{
    let low = memory.get_mem_cell_value(p as usize);
    let high = memory.get_mem_cell_value(wrapped_sum(p, 1) as usize);
    high as u16 * 256 + low as u16
}

/// The pointer stored at `address + x_register`.
pub fn indexed_indirect_address(memory: &Memory, address: u16, x_register: u8) -> (r: u16)
    requires
        memory.wf(),
    ensures
        r == pointer_at(memory@.cells, wrap_address(address + x_register)),
{
    pointer(memory, wrapped_sum(address, x_register as u16))
}

/// The pointer stored at `address`, plus `y_register`.
pub fn indirect_indexed_address(memory: &Memory, address: u16, y_register: u8) -> (r: u16)
    requires
        memory.wf(),
    ensures
        r == wrap_address(pointer_at(memory@.cells, address) + y_register),
{
    wrapped_sum(pointer(memory, address), y_register as u16)
}

/// The memory address an operand designates.
pub fn effective_address(addressing_mode: AddressingMode, address: u16, registers: &Registers, memory: &Memory) -> (r: Option<u16>)
    requires
        memory.wf(),
    ensures
        r == operand_address(addressing_mode, address, *registers, memory@.cells),
{
    match addressing_mode {
        AddressingMode::ZeroPage | AddressingMode::Absolute => Some(address),
        AddressingMode::ZeroPageX | AddressingMode::AbsoluteX => Some(wrapped_sum(address, registers.x as u16)),
        AddressingMode::ZeroPageY | AddressingMode::AbsoluteY => Some(wrapped_sum(address, registers.y as u16)),
        AddressingMode::IndirectX => Some(indexed_indirect_address(memory, address, registers.x)),
        AddressingMode::IndirectY => Some(indirect_indexed_address(memory, address, registers.y)),
        _ => None,
    }
}

/// The byte an operand yields.
pub fn read_operand(addressing_mode: AddressingMode, address: u16, registers: &Registers, memory: &Memory) -> (r: Option<u8>)
    requires
        memory.wf(),
    ensures
        r == operand_byte(addressing_mode, address, *registers, memory@.cells),
{
    if addressing_mode == AddressingMode::Immediate {
        return Some((address % 256) as u8);
    }
    match effective_address(addressing_mode, address, registers, memory) {
        Some(a) => Some(memory.get_mem_cell_value(a as usize)),
        None => None,
    }
}

// ---------------------------------------------------------------------------
// Arithmetic and logic
// ---------------------------------------------------------------------------

fn signed_value(b: u8) -> (r: i16)
    ensures
        r == signed(b),
{
    if b < 128 {
        b as i16
    } else {
        b as i16 - 256
    }
}

/// Add with carry out.
pub fn adc(address: u16, addressing_mode: AddressingMode, registers: &mut Registers, flags: &mut Flags, memory: &Memory)
    requires
        memory.wf(),
    ensures
        match operand_byte(addressing_mode, address, *old(registers), memory@.cells) {
            Some(m) => (*final(registers), *final(flags)) == add_effect(m, *old(registers), *old(flags)),
            None => *final(registers) == *old(registers) && *final(flags) == *old(flags),
        },
{
    if let Some(m) = read_operand(addressing_mode, address, registers, memory) {
        let sum: u16 = registers.acc as u16 + m as u16;
        let s: i16 = signed_value(registers.acc) + signed_value(m);
        flags.set_carry_flag(sum > 255);
        flags.set_overflow_flag(s < -128 || s > 127);
        registers.set_acc((sum % 256) as u8);
    }
}

/// Subtract, with carry telling whether a borrow occurred.
pub fn sbc(address: u16, addressing_mode: AddressingMode, registers: &mut Registers, flags: &mut Flags, memory: &Memory)
    requires
        memory.wf(),
    ensures
        match operand_byte(addressing_mode, address, *old(registers), memory@.cells) {
            Some(m) => (*final(registers), *final(flags)) == sub_effect(m, *old(registers), *old(flags)),
            None => *final(registers) == *old(registers) && *final(flags) == *old(flags),
        },
{
    if let Some(m) = read_operand(addressing_mode, address, registers, memory) {
        let acc = registers.acc;
        let s: i16 = signed_value(acc) - signed_value(m);
        flags.set_carry_flag(acc < m);
        flags.set_overflow_flag(s < -128 || s > 127);
        let diff: u16 = (acc as u16 + 256 - m as u16) % 256;
        registers.set_acc(diff as u8);
    }
}

/// Bitwise and into the accumulator.
pub fn and(address: u16, addressing_mode: AddressingMode, registers: &mut Registers, memory: &Memory)
    requires
        memory.wf(),
    ensures
        *final(registers) == match operand_byte(addressing_mode, address, *old(registers), memory@.cells) {
            Some(m) => Registers { acc: old(registers).acc & m, ..*old(registers) },
            None => *old(registers),
        },
{
    if let Some(m) = read_operand(addressing_mode, address, registers, memory) {
        registers.set_acc(registers.acc & m);
    }
}

/// Bitwise or into the accumulator.
pub fn ora(address: u16, addressing_mode: AddressingMode, registers: &mut Registers, memory: &Memory)
    requires
        memory.wf(),
    ensures
        *final(registers) == match operand_byte(addressing_mode, address, *old(registers), memory@.cells) {
            Some(m) => Registers { acc: old(registers).acc | m, ..*old(registers) },
            None => *old(registers),
        },
{
    if let Some(m) = read_operand(addressing_mode, address, registers, memory) {
        registers.set_acc(registers.acc | m);
    }
}

/// Bitwise exclusive or into the accumulator.
pub fn eor(address: u16, addressing_mode: AddressingMode, memory: &Memory, registers: &mut Registers)
    requires
        memory.wf(),
    ensures
        *final(registers) == match operand_byte(addressing_mode, address, *old(registers), memory@.cells) {
            Some(m) => Registers { acc: old(registers).acc ^ m, ..*old(registers) },
            None => *old(registers),
        },
{
    if let Some(m) = read_operand(addressing_mode, address, registers, memory) {
        registers.set_acc(registers.acc ^ m);
    }
}

/// Tests the bits of a memory cell, in zero-page or absolute mode.
pub fn bit(address: u16, addressing_mode: AddressingMode, flags: &mut Flags, memory: &Memory)
    requires
        memory.wf(),
    ensures
        *final(flags) == bit_test(addressing_mode, address, *old(flags), memory@.cells),
{
    if addressing_mode == AddressingMode::ZeroPage || addressing_mode == AddressingMode::Absolute {
        let m = memory.get_mem_cell_value(address as usize);
        flags.set_negative_flag(m >= 128);
        flags.set_overflow_flag((m / 64) % 2 == 1);
    }
}

/// The shared body of the shifts and rotates.
fn shift(op: Opcode, address: u16, addressing_mode: AddressingMode, registers: &mut Registers, flags: &mut Flags, memory: &mut Memory)
    requires
        old(memory).wf(),
    ensures
        final(memory).wf(),
        (*final(registers), *final(flags), final(memory)@)
            == shift_effect(op, addressing_mode, address, *old(registers), *old(flags), old(memory)@),
{
    let carry = flags.carry;
    if addressing_mode == AddressingMode::Implied {
        let (v, c) = shift_byte(op, registers.acc, carry);
        registers.set_acc(v);
        flags.set_carry_flag(c);
    } else {
        match effective_address(addressing_mode, address, registers, memory) {
            Some(a) => {
                let (v, c) = shift_byte(op, memory.get_mem_cell_value(a as usize), carry);
                memory.set_mem_cell_value(a as usize, v);
                flags.set_carry_flag(c);
            },
            None => {},
        }
    }
}

fn shift_byte(op: Opcode, v: u8, carry: bool) -> (r: (u8, bool))
    ensures
        r == shift_value(op, v, carry),
{
    match op {
        Opcode::ASL => (((v as u16 * 2) % 256) as u8, v >= 128),
        Opcode::LSR => (v / 2, v % 2 == 1),
        Opcode::ROL => (((v as u16 * 2) % 256 + if carry { 1 } else { 0 }) as u8, v >= 128),
        _ => (v / 2 + if carry { 128 } else { 0 }, v % 2 == 1),
    }
}

/// Arithmetic shift left of the accumulator or a memory cell.
pub fn asl(address: u16, addressing_mode: AddressingMode, registers: &mut Registers, flags: &mut Flags, memory: &mut Memory)
    requires
        old(memory).wf(),
    ensures
        final(memory).wf(),
        (*final(registers), *final(flags), final(memory)@)
            == shift_effect(Opcode::ASL, addressing_mode, address, *old(registers), *old(flags), old(memory)@),
{
    shift(Opcode::ASL, address, addressing_mode, registers, flags, memory);
}

/// Logical shift right of the accumulator or a memory cell.
pub fn lsr(address: u16, addressing_mode: AddressingMode, memory: &mut Memory, registers: &mut Registers, flags: &mut Flags)
    requires
        old(memory).wf(),
    ensures
        final(memory).wf(),
        (*final(registers), *final(flags), final(memory)@)
            == shift_effect(Opcode::LSR, addressing_mode, address, *old(registers), *old(flags), old(memory)@),
{
    shift(Opcode::LSR, address, addressing_mode, registers, flags, memory);
}

/// Rotate left through carry of the accumulator or a memory cell.
pub fn rol(address: u16, addressing_mode: AddressingMode, registers: &mut Registers, memory: &mut Memory, flags: &mut Flags)
    requires
        old(memory).wf(),
    ensures
        final(memory).wf(),
        (*final(registers), *final(flags), final(memory)@)
            == shift_effect(Opcode::ROL, addressing_mode, address, *old(registers), *old(flags), old(memory)@),
{
    shift(Opcode::ROL, address, addressing_mode, registers, flags, memory);
}

/// Rotate right through carry of the accumulator or a memory cell.
pub fn ror(address: u16, addressing_mode: AddressingMode, registers: &mut Registers, memory: &mut Memory, flags: &mut Flags)
    requires
        old(memory).wf(),
    ensures
        final(memory).wf(),
        (*final(registers), *final(flags), final(memory)@)
            == shift_effect(Opcode::ROR, addressing_mode, address, *old(registers), *old(flags), old(memory)@),
{
    shift(Opcode::ROR, address, addressing_mode, registers, flags, memory);
}

// ---------------------------------------------------------------------------
// Compares
// ---------------------------------------------------------------------------

/// Sets the flags from the three-way compare of a register with a byte.
pub fn compare(register_value: u8, expected_value: u8, flags: &mut Flags)
    ensures
        *final(flags) == compare_effect(register_value, expected_value, *old(flags)),
{
    if register_value < expected_value {
        flags.set_negative_flag(false);
    } else if register_value == expected_value {
        flags.set_zerro_flag(true);
        flags.set_carry_flag(true);
    } else {
        flags.set_negative_flag(true);
        flags.set_carry_flag(true);
    }
}

/// Compares the accumulator with the operand.
pub fn cmp(address: u16, addressing_mode: AddressingMode, registers: &Registers, flags: &mut Flags, memory: &Memory)
    requires
        memory.wf(),
    ensures
        *final(flags) == match operand_byte(addressing_mode, address, *registers, memory@.cells) {
            Some(m) => compare_effect(registers.acc, m, *old(flags)),
            None => *old(flags),
        },
{
    if let Some(m) = read_operand(addressing_mode, address, registers, memory) {
        compare(registers.acc, m, flags);
    }
}

/// Compares X with the operand.
pub fn cpx(address: u16, addressing_mode: AddressingMode, registers: &Registers, flags: &mut Flags, memory: &Memory)
    requires
        memory.wf(),
    ensures
        *final(flags) == match operand_byte(addressing_mode, address, *registers, memory@.cells) {
            Some(m) => compare_effect(registers.x, m, *old(flags)),
            None => *old(flags),
        },
{
    if let Some(m) = read_operand(addressing_mode, address, registers, memory) {
        compare(registers.x, m, flags);
    }
}

/// Compares Y with the operand.
pub fn cpy(address: u16, addressing_mode: AddressingMode, registers: &Registers, flags: &mut Flags, memory: &Memory)
    requires
        memory.wf(),
    ensures
        *final(flags) == match operand_byte(addressing_mode, address, *registers, memory@.cells) {
            Some(m) => compare_effect(registers.y, m, *old(flags)),
            None => *old(flags),
        },
{
    if let Some(m) = read_operand(addressing_mode, address, registers, memory) {
        compare(registers.y, m, flags);
    }
}

// ---------------------------------------------------------------------------
// Increments and decrements
// ---------------------------------------------------------------------------

fn step_value(up: bool, v: u8) -> (r: u8)
    ensures
        r == step_byte(up, v),
{
    if up {
        if v == 255 { 0 } else { v + 1 }
    } else {
        if v == 0 { 255 } else { v - 1 }
    }
}

fn set_zn(flags: &mut Flags, v: u8)
    ensures
        *final(flags) == with_zn(*old(flags), v),
{
    flags.set_zerro_flag(v == 0);
    flags.set_negative_flag(v >= 128);
}

fn step_cell(up: bool, address: u16, addressing_mode: AddressingMode, registers: &Registers, flags: &mut Flags, memory: &mut Memory)
    requires
        old(memory).wf(),
    ensures
        final(memory).wf(),
        (*final(flags), final(memory)@) == step_cell_effect(up, addressing_mode, address, *registers, *old(flags), old(memory)@),
{
    if let Some(a) = effective_address(addressing_mode, address, registers, memory) {
        let v = step_value(up, memory.get_mem_cell_value(a as usize));
        memory.set_mem_cell_value(a as usize, v);
        set_zn(flags, v);
    }
}

/// Increments a memory cell.
pub fn inc(address: u16, addressing_mode: AddressingMode, registers: &Registers, flags: &mut Flags, memory: &mut Memory)
    requires
        old(memory).wf(),
    ensures
        final(memory).wf(),
        (*final(flags), final(memory)@) == step_cell_effect(true, addressing_mode, address, *registers, *old(flags), old(memory)@),
{
    step_cell(true, address, addressing_mode, registers, flags, memory);
}

/// Decrements a memory cell.
pub fn dec(address: u16, addressing_mode: AddressingMode, registers: &Registers, flags: &mut Flags, memory: &mut Memory)
    requires
        old(memory).wf(),
    ensures
        final(memory).wf(),
        (*final(flags), final(memory)@) == step_cell_effect(false, addressing_mode, address, *registers, *old(flags), old(memory)@),
{
    step_cell(false, address, addressing_mode, registers, flags, memory);
}

/// Increments X, wrapping from 255 to 0.
pub fn inx(registers: &mut Registers, flags: &mut Flags)
    ensures
        *final(registers) == (Registers { x: step_byte(true, old(registers).x), ..*old(registers) }),
        *final(flags) == with_zn(*old(flags), step_byte(true, old(registers).x)),
{
    let v = step_value(true, registers.x);
    registers.set_x(v);
    set_zn(flags, v);
}

/// Increments Y, wrapping from 255 to 0.
pub fn iny(registers: &mut Registers, flags: &mut Flags)
    ensures
        *final(registers) == (Registers { y: step_byte(true, old(registers).y), ..*old(registers) }),
        *final(flags) == with_zn(*old(flags), step_byte(true, old(registers).y)),
{
    let v = step_value(true, registers.y);
    registers.set_y(v);
    set_zn(flags, v);
}

/// Decrements X, wrapping from 0 to 255.
pub fn dex(registers: &mut Registers, flags: &mut Flags)
    ensures
        *final(registers) == (Registers { x: step_byte(false, old(registers).x), ..*old(registers) }),
        *final(flags) == with_zn(*old(flags), step_byte(false, old(registers).x)),
{
    let v = step_value(false, registers.x);
    registers.set_x(v);
    set_zn(flags, v);
}

/// Decrements Y, wrapping from 0 to 255.
pub fn dey(registers: &mut Registers, flags: &mut Flags)
    ensures
        *final(registers) == (Registers { y: step_byte(false, old(registers).y), ..*old(registers) }),
        *final(flags) == with_zn(*old(flags), step_byte(false, old(registers).y)),
{
    let v = step_value(false, registers.y);
    registers.set_y(v);
    set_zn(flags, v);
}

// ---------------------------------------------------------------------------
// Loads, stores and transfers
// ---------------------------------------------------------------------------

/// Loads the accumulator.
pub fn lda(address: u16, addressing_mode: AddressingMode, memory: &Memory, registers: &mut Registers)
    requires
        memory.wf(),
    ensures
        *final(registers) == match operand_byte(addressing_mode, address, *old(registers), memory@.cells) {
            Some(m) => Registers { acc: m, ..*old(registers) },
            None => *old(registers),
        },
{
    if let Some(m) = read_operand(addressing_mode, address, registers, memory) {
        registers.set_acc(m);
    }
}

/// Loads X.
pub fn ldx(address: u16, addressing_mode: AddressingMode, memory: &Memory, registers: &mut Registers)
    requires
        memory.wf(),
    ensures
        *final(registers) == match operand_byte(addressing_mode, address, *old(registers), memory@.cells) {
            Some(m) => Registers { x: m, ..*old(registers) },
            None => *old(registers),
        },
{
    if let Some(m) = read_operand(addressing_mode, address, registers, memory) {
        registers.set_x(m);
    }
}

/// Loads Y.
pub fn ldy(address: u16, addressing_mode: AddressingMode, memory: &Memory, registers: &mut Registers)
    requires
        memory.wf(),
    ensures
        *final(registers) == match operand_byte(addressing_mode, address, *old(registers), memory@.cells) {
            Some(m) => Registers { y: m, ..*old(registers) },
            None => *old(registers),
        },
{
    if let Some(m) = read_operand(addressing_mode, address, registers, memory) {
        registers.set_y(m);
    }
}

fn store(address: u16, addressing_mode: AddressingMode, registers: &Registers, byte: u8, memory: &mut Memory)
    requires
        old(memory).wf(),
    ensures
        final(memory).wf(),
        final(memory)@ == store_effect(addressing_mode, address, *registers, byte, old(memory)@),
{
    if let Some(a) = effective_address(addressing_mode, address, registers, memory) {
        memory.set_mem_cell_value(a as usize, byte);
    }
}

/// Stores the accumulator.
pub fn sta(address: u16, addressing_mode: AddressingMode, registers: &Registers, memory: &mut Memory)
    requires
        old(memory).wf(),
    ensures
        final(memory).wf(),
        final(memory)@ == store_effect(addressing_mode, address, *registers, registers.acc, old(memory)@),
{
    store(address, addressing_mode, registers, registers.acc, memory);
}

/// Stores X.
pub fn stx(address: u16, addressing_mode: AddressingMode, registers: &Registers, memory: &mut Memory)
    requires
        old(memory).wf(),
    ensures
        final(memory).wf(),
        final(memory)@ == store_effect(addressing_mode, address, *registers, registers.x, old(memory)@),
{
    store(address, addressing_mode, registers, registers.x, memory);
}

/// Stores Y.
pub fn sty(address: u16, addressing_mode: AddressingMode, registers: &Registers, memory: &mut Memory)
    requires
        old(memory).wf(),
    ensures
        final(memory).wf(),
        final(memory)@ == store_effect(addressing_mode, address, *registers, registers.y, old(memory)@),
{
    store(address, addressing_mode, registers, registers.y, memory);
}

pub fn tax(registers: &mut Registers)
    ensures
        *final(registers) == (Registers { x: old(registers).acc, ..*old(registers) }),
{
    registers.set_x(registers.acc);
}

pub fn tay(registers: &mut Registers)
    ensures
        *final(registers) == (Registers { y: old(registers).acc, ..*old(registers) }),
{
    registers.set_y(registers.acc);
}

pub fn txa(registers: &mut Registers)
    ensures
        *final(registers) == (Registers { acc: old(registers).x, ..*old(registers) }),
{
    registers.set_acc(registers.x);
}

pub fn tya(registers: &mut Registers)
    ensures
        *final(registers) == (Registers { acc: old(registers).y, ..*old(registers) }),
{
    registers.set_acc(registers.y);
}

/// Copies the stack register into X.
pub fn tsx(registers: &mut Registers)
    ensures
        *final(registers) == (Registers { x: old(registers).sp, ..*old(registers) }),
{
    registers.set_x(registers.sp);
}

/// Moves the stack pointer to `0x0100 + X`, mirrored in the stack register.
pub fn txs(registers: &mut Registers, memory: &mut Memory)
    ensures
        *final(registers) == (Registers { sp: old(registers).x, ..*old(registers) }),
        final(memory)@ == (MemoryView { stack_pointer: (0x0100 + old(registers).x) as u16, ..old(memory)@ }),
{
    registers.set_sp(registers.x);
    memory.set_stack_pointer(0x0100 + registers.x as u16);
}

// ---------------------------------------------------------------------------
// Stack
// ---------------------------------------------------------------------------

fn push(byte: u8, registers: &mut Registers, memory: &mut Memory) -> (r: Result<(), ExecErrorKind>)
    requires
        old(memory).wf(),
    ensures
        final(memory).wf(),
        match push_effect(byte, *old(registers), old(memory)@) {
            Ok((regs, mem)) => r is Ok && *final(registers) == regs && final(memory)@ == mem,
            Err(e) => r == Err::<(), ExecErrorKind>(e) && *final(registers) == *old(registers) && final(memory)@ == old(memory)@,
        },
{
    let p = memory.get_stack_pointer();
    if p <= STACK_FULL {
        return Err(ExecErrorKind::StackOverflow);
    }
    memory.set_mem_cell_value(p as usize, byte);
    memory.decrement_stack_pointer();
    registers.set_sp(((p - 1) % 256) as u8);
    Ok(())
}

fn pull(registers: &mut Registers, memory: &mut Memory) -> (r: Result<u8, ExecErrorKind>)
    requires
        old(memory).wf(),
    ensures
        final(memory).wf(),
        match pull_effect(*old(registers), old(memory)@) {
            Ok((b, regs, mem)) => r == Ok::<u8, ExecErrorKind>(b) && *final(registers) == regs && final(memory)@ == mem,
            Err(e) => r == Err::<u8, ExecErrorKind>(e) && *final(registers) == *old(registers) && final(memory)@ == old(memory)@,
        },
{
    let p = memory.get_stack_pointer();
    if p >= STACK_EMPTY {
        return Err(ExecErrorKind::StackUnderflow);
    }
    memory.increment_stack_pointer();
    registers.set_sp(((p + 1) % 256) as u8);
    Ok(memory.get_mem_cell_value((p + 1) as usize))
}

/// Pushes the accumulator.
pub fn pha(registers: &mut Registers, memory: &mut Memory) -> (r: Result<(), ExecErrorKind>)
    requires
        old(memory).wf(),
    ensures
        final(memory).wf(),
        match push_effect(old(registers).acc, *old(registers), old(memory)@) {
            Ok((regs, mem)) => r is Ok && *final(registers) == regs && final(memory)@ == mem,
            Err(e) => r == Err::<(), ExecErrorKind>(e) && *final(registers) == *old(registers) && final(memory)@ == old(memory)@,
        },
{
    let acc = registers.acc;
    push(acc, registers, memory)
}

/// Pulls the accumulator.
pub fn pla(registers: &mut Registers, memory: &mut Memory) -> (r: Result<(), ExecErrorKind>)
    requires
        old(memory).wf(),
    ensures
        final(memory).wf(),
        match pull_effect(*old(registers), old(memory)@) {
            Ok((b, regs, mem)) => r is Ok && *final(registers) == (Registers { acc: b, ..regs }) && final(memory)@ == mem,
            Err(e) => r == Err::<(), ExecErrorKind>(e) && *final(registers) == *old(registers) && final(memory)@ == old(memory)@,
        },
{
    match pull(registers, memory) {
        Ok(b) => {
            registers.set_acc(b);
            Ok(())
        },
        Err(e) => Err(e),
    }
}

/// Pushes the status byte.
pub fn php(registers: &mut Registers, flags: &Flags, memory: &mut Memory) -> (r: Result<(), ExecErrorKind>)
    requires
        old(memory).wf(),
    ensures
        final(memory).wf(),
        match push_effect(status_byte(*flags), *old(registers), old(memory)@) {
            Ok((regs, mem)) => r is Ok && *final(registers) == regs && final(memory)@ == mem,
            Err(e) => r == Err::<(), ExecErrorKind>(e) && *final(registers) == *old(registers) && final(memory)@ == old(memory)@,
        },
{
    let b: u8 = (if flags.carry { 1u8 } else { 0u8 }) + (if flags.zero { 2u8 } else { 0u8 })
        + (if flags.interrupt_disable { 4u8 } else { 0u8 }) + (if flags.decimal { 8u8 } else { 0u8 })
        + (if flags.overflow { 64u8 } else { 0u8 }) + (if flags.negative { 128u8 } else { 0u8 });
    push(b, registers, memory)
}

/// Pulls the status byte into the flags.
pub fn plp(registers: &mut Registers, flags: &mut Flags, memory: &mut Memory) -> (r: Result<(), ExecErrorKind>)
    requires
        old(memory).wf(),
    ensures
        final(memory).wf(),
        match pull_effect(*old(registers), old(memory)@) {
            Ok((b, regs, mem)) => r is Ok && *final(flags) == flags_of_status(b) && *final(registers) == regs && final(memory)@ == mem,
            Err(e) => r == Err::<(), ExecErrorKind>(e) && *final(flags) == *old(flags) && *final(registers) == *old(registers)
                && final(memory)@ == old(memory)@,
        },
{
    match pull(registers, memory) {
        Ok(b) => {
            *flags = Flags {
                carry: b % 2 == 1,
                zero: (b / 2) % 2 == 1,
                interrupt_disable: (b / 4) % 2 == 1,
                decimal: (b / 8) % 2 == 1,
                overflow: (b / 64) % 2 == 1,
                negative: b >= 128,
            };
            Ok(())
        },
        Err(e) => Err(e),
    }
}

// ---------------------------------------------------------------------------
// Flags
// ---------------------------------------------------------------------------

pub fn clc(flags: &mut Flags)
    ensures
        *final(flags) == (Flags { carry: false, ..*old(flags) }),
{
    flags.set_carry_flag(false);
}

pub fn sec(flags: &mut Flags)
    ensures
        *final(flags) == (Flags { carry: true, ..*old(flags) }),
{
    flags.set_carry_flag(true);
}

pub fn cli(flags: &mut Flags)
    ensures
        *final(flags) == (Flags { interrupt_disable: false, ..*old(flags) }),
{
    flags.set_interrupt_disable_flag(false);
}

pub fn sei(flags: &mut Flags)
    ensures
        *final(flags) == (Flags { interrupt_disable: true, ..*old(flags) }),
{
    flags.set_interrupt_disable_flag(true);
}

pub fn clv(flags: &mut Flags)
    ensures
        *final(flags) == (Flags { overflow: false, ..*old(flags) }),
{
    flags.set_overflow_flag(false);
}

pub fn cld(flags: &mut Flags)
    ensures
        *final(flags) == (Flags { decimal: false, ..*old(flags) }),
{
    flags.set_decimal_flag(false);
}

pub fn sed(flags: &mut Flags)
    ensures
        *final(flags) == (Flags { decimal: true, ..*old(flags) }),
{
    flags.set_decimal_flag(true);
}

// ---------------------------------------------------------------------------
// Control transfer
// ---------------------------------------------------------------------------

/// The index of the first label named `label_name`.
pub fn jmp(label_name: &String, label_names: &Vec<(String, usize)>) -> (r: Option<usize>)
    ensures
        r == lookup_label(label_names@, label_name@),
{
    let mut i: usize = 0;
    assert(label_names@.subrange(0, label_names.len() as int) =~= label_names@);
    while i < label_names.len()
        invariant
            i <= label_names.len(),
            lookup_label(label_names@, label_name@) == lookup_label(label_names@.subrange(i as int, label_names.len() as int), label_name@),
        decreases label_names.len() - i,
    {
        assert(label_names@.subrange(i as int, label_names.len() as int).drop_first()
            =~= label_names@.subrange(i + 1, label_names.len() as int));
        if label_names[i].0 == *label_name {
            return Some(label_names[i].1);
        }
        i = i + 1;
    }
    None
}

/// A conditional branch on `flag_to_check`.
pub fn branch(flag_to_check: bool, expected_value: bool, label_name: &String, labels: &Vec<(String, usize)>, current_index: usize) -> (r: Option<usize>)
    ensures
        r == branch_target(flag_to_check, expected_value, label_name@, labels@, current_index),
{
    if flag_to_check == expected_value {
        jmp(label_name, labels)
    } else {
        Some(current_index)
    }
}

/// Branches when negative is clear.
pub fn bpl(current_index: usize, flags: &Flags, label_name: &String, labels: &Vec<(String, usize)>) -> (r: Option<usize>)
    ensures
        r == branch_target(flags.negative, false, label_name@, labels@, current_index),
{
    branch(flags.negative, false, label_name, labels, current_index)
}

/// Branches when negative is set.
pub fn bmi(current_index: usize, flags: &Flags, label_name: &String, labels: &Vec<(String, usize)>) -> (r: Option<usize>)
    ensures
        r == branch_target(flags.negative, true, label_name@, labels@, current_index),
{
    branch(flags.negative, true, label_name, labels, current_index)
}

/// Branches when overflow is clear.
pub fn bvc(current_index: usize, flags: &Flags, label_name: &String, labels: &Vec<(String, usize)>) -> (r: Option<usize>)
    ensures
        r == branch_target(flags.overflow, false, label_name@, labels@, current_index),
{
    branch(flags.overflow, false, label_name, labels, current_index)
}

/// Branches when overflow is set.
pub fn bvs(current_index: usize, flags: &Flags, label_name: &String, labels: &Vec<(String, usize)>) -> (r: Option<usize>)
    ensures
        r == branch_target(flags.overflow, true, label_name@, labels@, current_index),
{
    branch(flags.overflow, true, label_name, labels, current_index)
}

/// Branches when carry is clear.
pub fn bcc(current_index: usize, flags: &Flags, label_name: &String, labels: &Vec<(String, usize)>) -> (r: Option<usize>)
    ensures
        r == branch_target(flags.carry, false, label_name@, labels@, current_index),
{
    branch(flags.carry, false, label_name, labels, current_index)
}

/// Branches when carry is set.
pub fn bcs(current_index: usize, flags: &Flags, label_name: &String, labels: &Vec<(String, usize)>) -> (r: Option<usize>)
    ensures
        r == branch_target(flags.carry, true, label_name@, labels@, current_index),
{
    branch(flags.carry, true, label_name, labels, current_index)
}

/// Branches when zero is clear.
pub fn bne(current_index: usize, flags: &Flags, label_name: &String, labels: &Vec<(String, usize)>) -> (r: Option<usize>)
    ensures
        r == branch_target(flags.zero, false, label_name@, labels@, current_index),
{
    branch(flags.zero, false, label_name, labels, current_index)
}

/// Branches when zero is set.
pub fn beq(current_index: usize, flags: &Flags, label_name: &String, labels: &Vec<(String, usize)>) -> (r: Option<usize>)
    ensures
        r == branch_target(flags.zero, true, label_name@, labels@, current_index),
{
    branch(flags.zero, true, label_name, labels, current_index)
}

} // verus!
