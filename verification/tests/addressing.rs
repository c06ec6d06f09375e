use nesferratu_core::cpu::instructions::addressing::{
    abs, abs_x, abs_x_extra, abs_y, abs_y_extra, acc, imm, imp, ind, ind_x, ind_y, ind_y_extra,
    rel, zp, zp_x, zp_y,
};
use nesferratu_core::cpu::instructions::{AddrDelegate, AddrDelegateReturn, Operand};
use nesferratu_core::cpu::{CpuRegisters, CpuState};
use nesferratu_core::BusMessage;

fn state(o1: u8, o2: u8, x: u8, y: u8) -> CpuState {
    CpuState {
        regs: CpuRegisters { a: 0xAA, x, y, sp: 0xFD, pc: 0x8002, status: 0x24 },
        op: 0xEA,
        o1,
        o2,
        addr: 0xBEEF,
        data: 0x00,
        extra_cycle: false,
    }
}

fn address(addr: u16) -> AddrDelegateReturn {
    AddrDelegateReturn::Return(Operand::Address(addr))
}

fn read(addr: u16) -> AddrDelegateReturn {
    AddrDelegateReturn::Yield(BusMessage::Read { addr })
}

#[test]
fn implied_and_accumulator() {
    let mut s = state(1, 2, 3, 4);
    assert_eq!(imp(&mut s, 1), AddrDelegateReturn::Return(Operand::Implied));
    assert_eq!(acc(&mut s, 1), AddrDelegateReturn::Return(Operand::Implied));
    assert_eq!(s, state(1, 2, 3, 4));
}

#[test]
fn immediate_is_the_second_byte() {
    let mut s = state(0x42, 0x99, 3, 4);
    assert_eq!(imm(&mut s, 1), AddrDelegateReturn::Return(Operand::Immediate(0x42)));
    assert_eq!(s, state(0x42, 0x99, 3, 4));
}

#[test]
fn absolute_is_little_endian() {
    let mut s = state(0x34, 0x12, 0xFF, 0xFF);
    assert_eq!(abs(&mut s, 1), address(0x1234));
    assert_eq!(s.addr, 0x1234);
}

#[test]
fn zero_page() {
    let mut s = state(0x80, 0x12, 0xFF, 0xFF);
    assert_eq!(zp(&mut s, 1), address(0x0080));
    assert_eq!(s.addr, 0x0080);
}

#[test]
fn zero_page_indexed_stays_in_zero_page() {
    let mut s = state(0xF0, 0, 0x20, 0x30);
    assert_eq!(zp_x(&mut s, 1), AddrDelegateReturn::Yield(BusMessage::Nop));
    assert_eq!(s, state(0xF0, 0, 0x20, 0x30));
    assert_eq!(zp_x(&mut s, 2), address(0x0010));
    let mut s = state(0xF0, 0, 0x20, 0x30);
    assert_eq!(zp_y(&mut s, 1), AddrDelegateReturn::Yield(BusMessage::Nop));
    assert_eq!(zp_y(&mut s, 2), address(0x0020));
    let mut s = state(0x10, 0, 0x05, 0x06);
    assert_eq!(zp_x(&mut s, 2), address(0x0015));
    assert_eq!(zp_y(&mut s, 2), address(0x0016));
}

#[test]
fn absolute_indexed_without_penalty() {
    let mut s = state(0xFF, 0x12, 0x01, 0x02);
    assert_eq!(abs_x(&mut s, 1), address(0x1300));
    assert!(!s.extra_cycle);
    assert_eq!(abs_y(&mut s, 1), address(0x1301));
    assert!(!s.extra_cycle);
    let mut s = state(0xFF, 0xFF, 0x01, 0x02);
    assert_eq!(abs_x(&mut s, 1), address(0x0000));
    assert_eq!(abs_y(&mut s, 1), address(0x0001));
}

#[test]
fn absolute_indexed_within_the_page() {
    let mut s = state(0x10, 0x12, 0x01, 0x02);
    assert_eq!(abs_x_extra(&mut s, 1), address(0x1211));
    assert!(!s.extra_cycle);
    let mut s = state(0x10, 0x12, 0x01, 0x02);
    assert_eq!(abs_y_extra(&mut s, 1), address(0x1212));
    assert!(!s.extra_cycle);
    let mut s = state(0x00, 0x12, 0xFF, 0xFF);
    assert_eq!(abs_x_extra(&mut s, 1), address(0x12FF));
    assert!(!s.extra_cycle);
}

#[test]
fn absolute_indexed_across_pages() {
    let mut s = state(0xFF, 0x12, 0x01, 0x02);
    assert_eq!(abs_x_extra(&mut s, 1), AddrDelegateReturn::Yield(BusMessage::Nop));
    assert!(s.extra_cycle);
    s.extra_cycle = false;
    assert_eq!(abs_x_extra(&mut s, 2), address(0x1300));
    assert!(!s.extra_cycle);

    let mut s = state(0xFF, 0x12, 0x01, 0x02);
    assert_eq!(abs_y_extra(&mut s, 1), AddrDelegateReturn::Yield(BusMessage::Nop));
    assert!(s.extra_cycle);
    s.extra_cycle = false;
    assert_eq!(abs_y_extra(&mut s, 2), address(0x1301));
}

#[test]
fn relative_adds_a_signed_offset() {
    let mut s = state(0x02, 0, 0, 0);
    s.regs.pc = 0x8100;
    assert_eq!(rel(&mut s, 1), address(0x8102));
    s.o1 = 0x7F;
    assert_eq!(rel(&mut s, 1), address(0x817F));
    s.o1 = 0x80;
    assert_eq!(rel(&mut s, 1), address(0x8080));
    s.o1 = 0xFF;
    assert_eq!(rel(&mut s, 1), address(0x80FF));
    s.o1 = 0x00;
    assert_eq!(rel(&mut s, 1), address(0x8100));
    assert_eq!(s.regs.pc, 0x8100);
}

#[test]
fn relative_wraps_at_both_ends() {
    let mut s = state(0x10, 0, 0, 0);
    s.regs.pc = 0xFFF8;
    assert_eq!(rel(&mut s, 1), address(0x0008));
    s.regs.pc = 0x0004;
    s.o1 = 0xF0;
    assert_eq!(rel(&mut s, 1), address(0xFFF4));
}

#[test]
fn indirect() {
    let mut s = state(0x34, 0x12, 0xFF, 0xFF);
    assert_eq!(ind(&mut s, 1), read(0x1234));
    s.data = 0xCD;
    assert_eq!(ind(&mut s, 2), read(0x1235));
    s.data = 0xAB;
    assert_eq!(ind(&mut s, 3), address(0xABCD));
    assert_eq!(s.addr, 0xABCD);
}

#[test]
fn indirect_reads_its_high_byte_from_the_next_page() {
    let mut s = state(0xFF, 0x12, 0, 0);
    assert_eq!(ind(&mut s, 1), read(0x12FF));
    assert_eq!(ind(&mut s, 2), read(0x1300));
}

#[test]
fn indexed_indirect() {
    let mut s = state(0x20, 0, 0x04, 0xFF);
    assert_eq!(ind_x(&mut s, 1), read(0x0024));
    s.data = 0x78;
    assert_eq!(ind_x(&mut s, 2), read(0x0025));
    s.data = 0x56;
    assert_eq!(ind_x(&mut s, 3), address(0x5678));
    assert!(!s.extra_cycle);
}

#[test]
fn indexed_indirect_wraps_its_pointer() {
    let mut s = state(0xFF, 0, 0x00, 0);
    assert_eq!(ind_x(&mut s, 1), read(0x00FF));
    assert_eq!(ind_x(&mut s, 2), read(0x0000));
    let mut s = state(0xF0, 0, 0x20, 0);
    assert_eq!(ind_x(&mut s, 1), read(0x0010));
    assert_eq!(ind_x(&mut s, 2), read(0x0011));
}

#[test]
fn indirect_indexed_without_penalty() {
    let mut s = state(0x20, 0, 0xFF, 0x10);
    assert_eq!(ind_y(&mut s, 1), read(0x0020));
    s.data = 0xF8;
    assert_eq!(ind_y(&mut s, 2), read(0x0021));
    s.data = 0x12;
    assert_eq!(ind_y(&mut s, 3), address(0x1308));
    assert!(!s.extra_cycle);
}

#[test]
fn indirect_indexed_with_penalty() {
    let mut s = state(0x20, 0, 0xFF, 0x10);
    assert_eq!(ind_y_extra(&mut s, 1), read(0x0020));
    s.data = 0xF8;
    assert_eq!(ind_y_extra(&mut s, 2), read(0x0021));
    s.data = 0x12;
    assert_eq!(ind_y_extra(&mut s, 3), address(0x1308));
    assert!(s.extra_cycle);

    let mut s = state(0xFF, 0, 0xFF, 0x07);
    assert_eq!(ind_y_extra(&mut s, 1), read(0x00FF));
    s.data = 0xF8;
    assert_eq!(ind_y_extra(&mut s, 2), read(0x0000));
    s.data = 0x12;
    assert_eq!(ind_y_extra(&mut s, 3), address(0x12FF));
    assert!(!s.extra_cycle);
}

#[test]
fn dispatch_runs_the_named_routine() {
    let mut s = state(0x34, 0x12, 0x01, 0x02);
    assert_eq!(AddrDelegate::Abs.call(&mut s, 1), address(0x1234));
    assert_eq!(AddrDelegate::AbsX.call(&mut s, 1), address(0x1235));
    assert_eq!(AddrDelegate::AbsY.call(&mut s, 1), address(0x1236));
    assert_eq!(AddrDelegate::AbsXExtra.call(&mut s, 1), address(0x1235));
    assert_eq!(AddrDelegate::AbsYExtra.call(&mut s, 1), address(0x1236));
    assert_eq!(AddrDelegate::Zp.call(&mut s, 1), address(0x0034));
    assert_eq!(AddrDelegate::ZpX.call(&mut s, 2), address(0x0035));
    assert_eq!(AddrDelegate::ZpY.call(&mut s, 2), address(0x0036));
    assert_eq!(AddrDelegate::Rel.call(&mut s, 1), address(0x8036));
    assert_eq!(AddrDelegate::Ind.call(&mut s, 1), read(0x1234));
    assert_eq!(AddrDelegate::IndX.call(&mut s, 1), read(0x0035));
    assert_eq!(AddrDelegate::IndY.call(&mut s, 1), read(0x0034));
    assert_eq!(AddrDelegate::IndYExtra.call(&mut s, 1), read(0x0034));
    assert_eq!(
        AddrDelegate::Imm.call(&mut s, 1),
        AddrDelegateReturn::Return(Operand::Immediate(0x34))
    );
    assert_eq!(AddrDelegate::Imp.call(&mut s, 1), AddrDelegateReturn::Return(Operand::Implied));
    assert_eq!(AddrDelegate::Acc.call(&mut s, 1), AddrDelegateReturn::Return(Operand::Implied));
}

#[test]
fn lengths_and_labels() {
    assert_eq!(AddrDelegate::Imp.bytes(), 1);
    assert_eq!(AddrDelegate::Acc.bytes(), 1);
    for mode in [
        AddrDelegate::Imm,
        AddrDelegate::Zp,
        AddrDelegate::ZpX,
        AddrDelegate::ZpY,
        AddrDelegate::Rel,
        AddrDelegate::IndX,
        AddrDelegate::IndY,
        AddrDelegate::IndYExtra,
    ] {
        assert_eq!(mode.bytes(), 2);
    }
    for mode in [
        AddrDelegate::Abs,
        AddrDelegate::AbsX,
        AddrDelegate::AbsY,
        AddrDelegate::AbsXExtra,
        AddrDelegate::AbsYExtra,
        AddrDelegate::Ind,
    ] {
        assert_eq!(mode.bytes(), 3);
    }
    assert_eq!(AddrDelegate::ZpX.label(), "ZP, X");
    assert_eq!(AddrDelegate::AbsXExtra.label(), "ABS, X");
    assert_eq!(AddrDelegate::AbsX.label(), "ABS, X");
    assert_eq!(AddrDelegate::IndYExtra.label(), "(IND), Y");
    assert_eq!(AddrDelegate::Acc.label(), "Accum");
}
