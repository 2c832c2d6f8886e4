use vp8::analyze_code::AddressingMode;
use vp8::instruction_functions::{
    adc, asl, bit, cmp, compare, cpx, dec, dex, dey, effective_address, inc, inx, iny, jmp, lda,
    lsr, pha, php, pla, plp, rol, ror, sbc, sta, txs, ExecErrorKind,
};
use vp8::system::{Flags, Memory, Registers};

#[test]
fn inx_wraps_from_255_to_0() {
    let mut r = Registers::init();
    let mut f = Flags::init();
    r.set_x(255);
    inx(&mut r, &mut f);
    assert_eq!(r.get_x(), 0);
    assert!(f.get_zerro_flag());
}

#[test]
fn dex_wraps_from_0_to_255() {
    let mut r = Registers::init();
    let mut f = Flags::init();
    dex(&mut r, &mut f);
    assert_eq!(r.get_x(), 255);
    assert!(!f.get_zerro_flag());
    assert!(f.get_negative_flag());
}

#[test]
fn iny_and_dey_touch_y_only() {
    let mut r = Registers::init();
    let mut f = Flags::init();
    iny(&mut r, &mut f);
    iny(&mut r, &mut f);
    dey(&mut r, &mut f);
    assert_eq!(r.get_y(), 1);
    assert_eq!(r.get_x(), 0);
}

#[test]
fn cmp_equal_sets_zero_and_carry() {
    let mut r = Registers::init();
    let mut f = Flags::init();
    let m = Memory::init();
    r.set_acc(5);
    cmp(5, AddressingMode::Immediate, &r, &mut f, &m);
    assert!(f.get_zerro_flag());
    assert!(f.get_carry_flag());
}

#[test]
fn cmp_greater_sets_negative_and_carry() {
    let mut r = Registers::init();
    let mut f = Flags::init();
    let m = Memory::init();
    r.set_acc(10);
    cmp(5, AddressingMode::Immediate, &r, &mut f, &m);
    assert!(f.get_negative_flag());
    assert!(f.get_carry_flag());
}

#[test]
fn cmp_less_clears_negative_and_leaves_carry() {
    let mut r = Registers::init();
    let mut f = Flags::init();
    let m = Memory::init();
    r.set_acc(3);
    f.set_negative_flag(true);
    cmp(5, AddressingMode::Immediate, &r, &mut f, &m);
    assert!(!f.get_negative_flag());
    assert!(!f.get_carry_flag());
    assert!(!f.get_zerro_flag());
}

#[test]
fn cpx_compares_x_with_memory() {
    let mut r = Registers::init();
    let mut f = Flags::init();
    let mut m = Memory::init();
    m.set_mem_cell_value(0x40, 7);
    r.set_x(7);
    cpx(0x40, AddressingMode::ZeroPage, &r, &mut f, &m);
    assert!(f.get_zerro_flag());
    let mut g = Flags::init();
    compare(1, 2, &mut g);
    assert!(!g.get_carry_flag());
}

#[test]
fn pha_then_pla_restores_accumulator() {
    let mut r = Registers::init();
    let mut m = Memory::init();
    r.set_acc(0x42);
    assert_eq!(pha(&mut r, &mut m), Ok(()));
    assert_eq!(m.get_stack_pointer(), 0x01FE);
    assert_eq!(r.get_sp(), 0xFE);
    r.set_acc(0);
    assert_eq!(pla(&mut r, &mut m), Ok(()));
    assert_eq!(r.get_acc(), 0x42);
    assert_eq!(m.get_stack_pointer(), 0x01FF);
    assert_eq!(r.get_sp(), 0xFF);
}

#[test]
fn pull_from_empty_stack_fails() {
    let mut r = Registers::init();
    let mut m = Memory::init();
    assert_eq!(pla(&mut r, &mut m), Err(ExecErrorKind::StackUnderflow));
}

#[test]
fn push_past_full_stack_fails() {
    let mut r = Registers::init();
    let mut m = Memory::init();
    for _ in 0..256 {
        assert_eq!(pha(&mut r, &mut m), Ok(()));
    }
    assert_eq!(m.get_stack_pointer(), 0x00FF);
    assert_eq!(pha(&mut r, &mut m), Err(ExecErrorKind::StackOverflow));
}

#[test]
fn status_byte_round_trips() {
    let mut r = Registers::init();
    let mut m = Memory::init();
    let mut f = Flags::init();
    f.set_carry_flag(true);
    f.set_negative_flag(true);
    f.set_decimal_flag(true);
    assert_eq!(php(&mut r, &f, &mut m), Ok(()));
    assert_eq!(m.get_mem_cell_value(0x01FF), 0b1000_1001);
    let mut g = Flags::init();
    assert_eq!(plp(&mut r, &mut g, &mut m), Ok(()));
    assert_eq!(g, f);
}

#[test]
fn adc_sets_carry_and_overflow() {
    let mut r = Registers::init();
    let mut f = Flags::init();
    let m = Memory::init();
    r.set_acc(0xF0);
    adc(0x20, AddressingMode::Immediate, &mut r, &mut f, &m);
    assert_eq!(r.get_acc(), 0x10);
    assert!(f.get_carry_flag());
    assert!(!f.get_overflow_flag());
    r.set_acc(0x50);
    adc(0x50, AddressingMode::Immediate, &mut r, &mut f, &m);
    assert_eq!(r.get_acc(), 0xA0);
    assert!(!f.get_carry_flag());
    assert!(f.get_overflow_flag());
}

#[test]
fn sbc_wraps_and_reports_borrow() {
    let mut r = Registers::init();
    let mut f = Flags::init();
    let m = Memory::init();
    r.set_acc(3);
    sbc(5, AddressingMode::Immediate, &mut r, &mut f, &m);
    assert_eq!(r.get_acc(), 0xFE);
    assert!(f.get_carry_flag());
    r.set_acc(0x80);
    sbc(1, AddressingMode::Immediate, &mut r, &mut f, &m);
    assert_eq!(r.get_acc(), 0x7F);
    assert!(!f.get_carry_flag());
    assert!(f.get_overflow_flag());
}

#[test]
fn shifts_and_rotates_move_bits_through_carry() {
    let mut r = Registers::init();
    let mut f = Flags::init();
    let mut m = Memory::init();
    r.set_acc(0b1000_0001);
    asl(0, AddressingMode::Implied, &mut r, &mut f, &mut m);
    assert_eq!(r.get_acc(), 0b0000_0010);
    assert!(f.get_carry_flag());
    rol(0, AddressingMode::Implied, &mut r, &mut m, &mut f);
    assert_eq!(r.get_acc(), 0b0000_0101);
    assert!(!f.get_carry_flag());
    ror(0, AddressingMode::Implied, &mut r, &mut m, &mut f);
    assert_eq!(r.get_acc(), 0b0000_0010);
    assert!(f.get_carry_flag());
    ror(0, AddressingMode::Implied, &mut r, &mut m, &mut f);
    assert_eq!(r.get_acc(), 0b1000_0001);
    assert!(!f.get_carry_flag());
    m.set_mem_cell_value(0x30, 0b0000_0011);
    lsr(0x30, AddressingMode::ZeroPage, &mut m, &mut r, &mut f);
    assert_eq!(m.get_mem_cell_value(0x30), 0b0000_0001);
    assert!(f.get_carry_flag());
    assert_eq!(r.get_acc(), 0b1000_0001);
}

#[test]
fn inc_and_dec_change_the_addressed_cell() {
    let r = Registers::init();
    let mut f = Flags::init();
    let mut m = Memory::init();
    m.set_mem_cell_value(0x20, 255);
    inc(0x20, AddressingMode::ZeroPage, &r, &mut f, &mut m);
    assert_eq!(m.get_mem_cell_value(0x20), 0);
    assert!(f.get_zerro_flag());
    dec(0x20, AddressingMode::ZeroPage, &r, &mut f, &mut m);
    assert_eq!(m.get_mem_cell_value(0x20), 255);
    assert!(f.get_negative_flag());
}

#[test]
fn bit_reads_bits_seven_and_six() {
    let mut f = Flags::init();
    let mut m = Memory::init();
    m.set_mem_cell_value(0x10, 0b1100_0000);
    bit(0x10, AddressingMode::ZeroPage, &mut f, &m);
    assert!(f.get_negative_flag());
    assert!(f.get_overflow_flag());
    assert!(!f.get_zerro_flag());
    assert!(!f.get_carry_flag());
    m.set_mem_cell_value(0x1234, 0b0100_0000);
    bit(0x1234, AddressingMode::Absolute, &mut f, &m);
    assert!(!f.get_negative_flag());
    assert!(f.get_overflow_flag());
}

#[test]
fn bit_ignores_other_modes() {
    let mut f = Flags::init();
    let mut m = Memory::init();
    m.set_mem_cell_value(0x10, 0b1100_0000);
    bit(0x10, AddressingMode::ZeroPageX, &mut f, &m);
    bit(0x10, AddressingMode::Immediate, &mut f, &m);
    assert_eq!(f, Flags::init());
}

#[test]
fn indexed_and_indirect_addresses() {
    let mut r = Registers::init();
    let mut m = Memory::init();
    r.set_x(2);
    r.set_y(3);
    m.set_mem_cell_value(0x22, 0x34);
    m.set_mem_cell_value(0x23, 0x12);
    m.set_mem_cell_value(0x20, 0x00);
    m.set_mem_cell_value(0x21, 0x30);
    assert_eq!(effective_address(AddressingMode::ZeroPageX, 0x10, &r, &m), Some(0x12));
    assert_eq!(effective_address(AddressingMode::AbsoluteY, 0xFFFF, &r, &m), Some(0x0002));
    assert_eq!(effective_address(AddressingMode::IndirectX, 0x20, &r, &m), Some(0x1234));
    assert_eq!(effective_address(AddressingMode::IndirectY, 0x20, &r, &m), Some(0x3003));
    assert_eq!(effective_address(AddressingMode::Immediate, 0x20, &r, &m), None);
    m.set_mem_cell_value(0x1234, 0x99);
    lda(0x20, AddressingMode::IndirectX, &m, &mut r);
    assert_eq!(r.get_acc(), 0x99);
    sta(0x40, AddressingMode::AbsoluteY, &r, &mut m);
    assert_eq!(m.get_mem_cell_value(0x43), 0x99);
}

#[test]
fn txs_moves_the_stack_pointer() {
    let mut r = Registers::init();
    let mut m = Memory::init();
    r.set_x(0x80);
    txs(&mut r, &mut m);
    assert_eq!(r.get_sp(), 0x80);
    assert_eq!(m.get_stack_pointer(), 0x0180);
}

#[test]
fn label_lookup_takes_the_first_match() {
    let labels = vec![("a".to_string(), 1usize), ("b".to_string(), 4), ("a".to_string(), 9)];
    assert_eq!(jmp(&"a".to_string(), &labels), Some(1));
    assert_eq!(jmp(&"b".to_string(), &labels), Some(4));
    assert_eq!(jmp(&"c".to_string(), &labels), None);
}

#[test]
fn screen_memory_is_the_window_above_page_zero() {
    let mut m = Memory::init();
    m.set_mem_cell_value(256, 7);
    m.set_mem_cell_value(256 + 16383, 9);
    m.set_mem_cell_value(255, 1);
    let screen = m.get_screen_memory();
    assert_eq!(screen.len(), 16384);
    assert_eq!(screen[0], 7);
    assert_eq!(screen[16383], 9);
}
