//! The processor's state: registers, status flags and memory.

use vstd::prelude::*;

verus! {

/// Number of byte cells in memory.
pub const MEMORY_SIZE: usize = 65536;

/// Stack pointer value of an empty stack; the stack grows downward from here.
pub const STACK_EMPTY: u16 = 0x01FF;

/// Stack pointer value of a full stack: no further push is accepted.
pub const STACK_FULL: u16 = 0x00FF;

/// Cell refreshed with a pseudo-random byte after every executed instruction.
pub const RANDOM_CELL: usize = 0xFE;

/// Cell that receives the code of the last pressed key.
pub const KEY_CELL: usize = 0xFF;

/// First cell of the screen buffer.
pub const SCREEN_START: usize = 256;

/// Number of cells in the screen buffer.
pub const SCREEN_SIZE: usize = 16384;

/// The register file. `sp` mirrors the low byte of the memory-resident
/// stack pointer (see [`Memory`]), which is the authoritative one.
#[derive(Clone, Copy, Debug, PartialEq, Eq, Structural)]
pub struct Registers {
    pub acc: u8,
    pub x: u8,
    pub y: u8,
    pub sp: u8,
}

impl Registers {
    /// All registers zero but the stack register, which mirrors an empty stack.
    pub open spec fn initial() -> Registers {
        Registers { acc: 0, x: 0, y: 0, sp: 255 }
    }

    pub fn init() -> (r: Registers)
        ensures
            r == Registers::initial(),
    {
        Registers { acc: 0, x: 0, y: 0, sp: 255 }
    }

    pub fn get_acc(&self) -> (r: u8)
        ensures
            r == self.acc,
    {
        self.acc
    }

    pub fn get_x(&self) -> (r: u8)
        ensures
            r == self.x,
    {
        self.x
    }

    pub fn get_y(&self) -> (r: u8)
        ensures
            r == self.y,
    {
        self.y
    }

    pub fn get_sp(&self) -> (r: u8)
        ensures
            r == self.sp,
    {
        self.sp
    }

    pub fn set_acc(&mut self, value: u8)
        ensures
            *final(self) == (Registers { acc: value, ..*old(self) }),
    {
        self.acc = value;
    }

    pub fn set_x(&mut self, value: u8)
        ensures
            *final(self) == (Registers { x: value, ..*old(self) }),
    {
        self.x = value;
    }

    pub fn set_y(&mut self, value: u8)
        ensures
            *final(self) == (Registers { y: value, ..*old(self) }),
    {
        self.y = value;
    }

    pub fn set_sp(&mut self, value: u8)
        ensures
            *final(self) == (Registers { sp: value, ..*old(self) }),
    {
        self.sp = value;
    }
}

/// The status flags. The break flag is not modelled.
#[derive(Clone, Copy, Debug, PartialEq, Eq, Structural)]
pub struct Flags {
    pub carry: bool,
    pub zero: bool,
    pub interrupt_disable: bool,
    pub decimal: bool,
    pub overflow: bool,
    pub negative: bool,
}

impl Flags {
    /// Every flag clear.
    pub open spec fn initial() -> Flags {
        Flags {
            carry: false,
            zero: false,
            interrupt_disable: false,
            decimal: false,
            overflow: false,
            negative: false,
        }
    }

    pub fn init() -> (r: Flags)
        ensures
            r == Flags::initial(),
    {
        Flags {
            carry: false,
            zero: false,
            interrupt_disable: false,
            decimal: false,
            overflow: false,
            negative: false,
        }
    }

    pub fn set_carry_flag(&mut self, value: bool)
        ensures
            *final(self) == (Flags { carry: value, ..*old(self) }),
    {
        self.carry = value;
    }

    pub fn set_zerro_flag(&mut self, value: bool)
        ensures
            *final(self) == (Flags { zero: value, ..*old(self) }),
    {
        self.zero = value;
    }

    pub fn set_interrupt_disable_flag(&mut self, value: bool)
        ensures
            *final(self) == (Flags { interrupt_disable: value, ..*old(self) }),
    {
        self.interrupt_disable = value;
    }

    pub fn set_decimal_flag(&mut self, value: bool)
        ensures
            *final(self) == (Flags { decimal: value, ..*old(self) }),
    {
        self.decimal = value;
    }

    pub fn set_overflow_flag(&mut self, value: bool)
        ensures
            *final(self) == (Flags { overflow: value, ..*old(self) }),
    {
        self.overflow = value;
    }

    pub fn set_negative_flag(&mut self, value: bool)
        ensures
            *final(self) == (Flags { negative: value, ..*old(self) }),
    {
        self.negative = value;
    }

    pub fn get_carry_flag(&self) -> (r: bool)
        ensures
            r == self.carry,
    {
        self.carry
    }

    pub fn get_zerro_flag(&self) -> (r: bool)
        ensures
            r == self.zero,
    {
        self.zero
    }

    pub fn get_overflow_flag(&self) -> (r: bool)
        ensures
            r == self.overflow,
    {
        self.overflow
    }

    pub fn get_negative_flag(&self) -> (r: bool)
        ensures
            r == self.negative,
    {
        self.negative
    }
}

/// What a [`Memory`] holds: its cells and the stack pointer.
#[verifier::ext_equal]
pub struct MemoryView {
    pub cells: Seq<u8>,
    pub stack_pointer: u16,
}

/// 65536 byte cells and a 16-bit stack pointer. The stack occupies the
/// cells `STACK_FULL + 1 ..= STACK_EMPTY`; a push stores at the pointer and
/// then moves it down, a pull moves it up and then reads.
#[derive(Clone, Debug)]
pub struct Memory {
    mem_cell: Vec<u8>,
    stack_pointer: u16,
}

impl View for Memory {
    type V = MemoryView;

    closed spec fn view(&self) -> MemoryView {
        MemoryView { cells: self.mem_cell@, stack_pointer: self.stack_pointer }
    }
}

impl Memory {
    /// Memory has exactly `MEMORY_SIZE` cells.
    pub open spec fn wf(&self) -> bool {
        self@.cells.len() == MEMORY_SIZE
    }

    /// Every cell zero and the stack empty.
    pub open spec fn initial() -> MemoryView {
        MemoryView { cells: Seq::new(MEMORY_SIZE as nat, |i: int| 0u8), stack_pointer: STACK_EMPTY }
    }

    pub fn init() -> (r: Memory)
        ensures
            r.wf(),
            r@ == Memory::initial(),
    {
        let r = Memory { mem_cell: vec![0u8; MEMORY_SIZE], stack_pointer: STACK_EMPTY };
        assert(r@.cells =~= Memory::initial().cells);
        r
    }

    pub fn get_mem_cell_value(&self, index: usize) -> (r: u8)
        requires
            self.wf(),
            index < MEMORY_SIZE,
        ensures
            r == self@.cells[index as int],
    {
        self.mem_cell[index]
    }

    pub fn get_stack_pointer(&self) -> (r: u16)
        ensures
            r == self@.stack_pointer,
    {
        self.stack_pointer
    }

    pub fn set_mem_cell_value(&mut self, index: usize, value: u8)
        requires
            old(self).wf(),
            index < MEMORY_SIZE,
        ensures
            final(self).wf(),
            final(self)@.cells == old(self)@.cells.update(index as int, value),
            final(self)@.stack_pointer == old(self)@.stack_pointer,
    {
        self.mem_cell.set(index, value);
    }

    /// Sets the stack pointer; used by the stack-pointer transfer.
    pub fn set_stack_pointer(&mut self, value: u16)
        ensures
            final(self)@.cells == old(self)@.cells,
            final(self)@.stack_pointer == value,
    {
        self.stack_pointer = value;
    }

    pub fn increment_stack_pointer(&mut self)
        requires
            old(self)@.stack_pointer < u16::MAX,
        ensures
            final(self)@.cells == old(self)@.cells,
            final(self)@.stack_pointer == old(self)@.stack_pointer + 1,
    {
        self.stack_pointer = self.stack_pointer + 1;
    }

    pub fn decrement_stack_pointer(&mut self)
        requires
            old(self)@.stack_pointer > 0,
        ensures
            final(self)@.cells == old(self)@.cells,
            final(self)@.stack_pointer == old(self)@.stack_pointer - 1,
    {
        self.stack_pointer = self.stack_pointer - 1;
    }

    /// A copy of the screen buffer, the cells
    /// `SCREEN_START .. SCREEN_START + SCREEN_SIZE`.
    pub fn get_screen_memory(&self) -> (r: Vec<u8>)
        requires
            self.wf(),
        ensures
            r@ == self@.cells.subrange(SCREEN_START as int, (SCREEN_START + SCREEN_SIZE) as int),
    {
        let mut r: Vec<u8> = Vec::with_capacity(SCREEN_SIZE);
        let mut i: usize = SCREEN_START;
        while i < SCREEN_START + SCREEN_SIZE
            invariant
                self.wf(),
                SCREEN_START <= i <= SCREEN_START + SCREEN_SIZE,
                r@ == self@.cells.subrange(SCREEN_START as int, i as int),
            decreases SCREEN_START + SCREEN_SIZE - i,
        {
            r.push(self.mem_cell[i]);
            i = i + 1;
        }
        r
    }
}

} // verus!
