//! The addressing routines. Each is a co-routine over a cycle counter
//! that starts at one: a call either spends the tick on a bus request or
//! returns the operand.

use vstd::prelude::*;
use crate::BusMessage;
use crate::cpu::{CpuState, word, page, low, make_word, high_byte, low_byte};
use crate::cpu::instructions::{AddrDelegateReturn, Operand};

verus! {

/// `base + index` in the sixteen-bit address space.
pub open spec fn indexed(base: u16, index: u8) -> u16 {
    ((base + index) % 0x1_0000) as u16
}

/// `base + index` within the zero page.
pub open spec fn zero_page_indexed(base: u8, index: u8) -> u8 {
    ((base + index) % 0x100) as u8
}

/// The byte `offset` read as a two's complement number.
pub open spec fn signed(offset: u8) -> int {
    if offset < 0x80 {
        offset as int
    } else {
        offset - 0x100
    }
}

/// The target of a relative branch: `pc` plus the signed `offset`,
/// in the sixteen-bit address space.
pub open spec fn branch_target(pc: u16, offset: u8) -> u16 {
    ((pc + signed(offset)) % 0x1_0000) as u16
}

/// Whether indexing `base` by `index` leaves the page of `base`.
pub open spec fn crosses_page(base: u16, index: u8) -> bool {
    page(indexed(base, index)) != page(base)
}

/// The state once the effective address `addr` has been formed.
pub open spec fn resolved(s: CpuState, addr: u16) -> (CpuState, AddrDelegateReturn) {
    (CpuState { addr, ..s }, AddrDelegateReturn::Return(Operand::Address(addr)))
}

/// A tick spent reading `addr`, the state as it was.
pub open spec fn reading(s: CpuState, addr: u16) -> (CpuState, AddrDelegateReturn) {
    (s, AddrDelegateReturn::Yield(BusMessage::Read { addr }))
}

fn add_index(base: u16, index: u8) -> (addr: u16)
    ensures
        addr == indexed(base, index),
{
    base.wrapping_add(index as u16)
}

pub open spec fn acc_spec(s: CpuState, cycle: u8) -> (CpuState, AddrDelegateReturn) {
    (s, AddrDelegateReturn::Return(Operand::Implied))
}

/// Accumulator: the operation works on A; nothing to fetch.
pub fn acc(s: &mut CpuState, cycle: u8) -> (r: AddrDelegateReturn)
    ensures
        (*final(s), r) == acc_spec(*old(s), cycle),
{
    AddrDelegateReturn::Return(Operand::Implied)
}

pub open spec fn imm_spec(s: CpuState, cycle: u8) -> (CpuState, AddrDelegateReturn) {
    (s, AddrDelegateReturn::Return(Operand::Immediate(s.o1)))
}

/// Immediate: the operand is the instruction's second byte.
pub fn imm(s: &mut CpuState, cycle: u8) -> (r: AddrDelegateReturn)
    ensures
        (*final(s), r) == imm_spec(*old(s), cycle),
{
    AddrDelegateReturn::Return(Operand::Immediate(s.o1))
}

pub open spec fn abs_spec(s: CpuState, cycle: u8) -> (CpuState, AddrDelegateReturn) {
    resolved(s, word(s.o1, s.o2))
}

/// Absolute: the address is the little-endian word after the opcode.
pub fn abs(s: &mut CpuState, cycle: u8) -> (r: AddrDelegateReturn)
    ensures
        (*final(s), r) == abs_spec(*old(s), cycle),
{
    s.addr = make_word(s.o1, s.o2);
    AddrDelegateReturn::Return(Operand::Address(s.addr))
}

pub open spec fn zp_spec(s: CpuState, cycle: u8) -> (CpuState, AddrDelegateReturn) {
    resolved(s, s.o1 as u16)
}

/// Zero page: the address is the instruction's second byte.
pub fn zp(s: &mut CpuState, cycle: u8) -> (r: AddrDelegateReturn)
    ensures
        (*final(s), r) == zp_spec(*old(s), cycle),
{
    s.addr = s.o1 as u16;
    AddrDelegateReturn::Return(Operand::Address(s.addr))
}

pub open spec fn zp_x_spec(s: CpuState, cycle: u8) -> (CpuState, AddrDelegateReturn) {
    if cycle == 1 {
        (s, AddrDelegateReturn::Yield(BusMessage::Nop))
    } else {
        resolved(s, zero_page_indexed(s.o1, s.regs.x) as u16)
    }
}

/// Zero page indexed by X: one idle cycle, then the address, which
/// stays in the zero page.
pub fn zp_x(s: &mut CpuState, cycle: u8) -> (r: AddrDelegateReturn)
    requires
        1 <= cycle <= 2,
    ensures
        (*final(s), r) == zp_x_spec(*old(s), cycle),
{
    if cycle == 1 {
        AddrDelegateReturn::Yield(BusMessage::Nop)
    } else {
        s.addr = s.o1.wrapping_add(s.regs.x) as u16;
        AddrDelegateReturn::Return(Operand::Address(s.addr))
    }
}

pub open spec fn zp_y_spec(s: CpuState, cycle: u8) -> (CpuState, AddrDelegateReturn) {
    if cycle == 1 {
        (s, AddrDelegateReturn::Yield(BusMessage::Nop))
    } else {
        resolved(s, zero_page_indexed(s.o1, s.regs.y) as u16)
    }
}

/// Zero page indexed by Y: one idle cycle, then the address, which
/// stays in the zero page.
pub fn zp_y(s: &mut CpuState, cycle: u8) -> (r: AddrDelegateReturn)
    requires
        1 <= cycle <= 2,
    ensures
        (*final(s), r) == zp_y_spec(*old(s), cycle),
{
    if cycle == 1 {
        AddrDelegateReturn::Yield(BusMessage::Nop)
    } else {
        s.addr = s.o1.wrapping_add(s.regs.y) as u16;
        AddrDelegateReturn::Return(Operand::Address(s.addr))
    }
}

pub open spec fn abs_x_spec(s: CpuState, cycle: u8) -> (CpuState, AddrDelegateReturn) {
    resolved(s, indexed(word(s.o1, s.o2), s.regs.x))
}

/// Absolute indexed by X, for instructions whose length does not
/// depend on the page.
pub fn abs_x(s: &mut CpuState, cycle: u8) -> (r: AddrDelegateReturn)
    ensures
        (*final(s), r) == abs_x_spec(*old(s), cycle),
{
    s.addr = add_index(make_word(s.o1, s.o2), s.regs.x);
    AddrDelegateReturn::Return(Operand::Address(s.addr))
}

pub open spec fn abs_y_spec(s: CpuState, cycle: u8) -> (CpuState, AddrDelegateReturn) {
    resolved(s, indexed(word(s.o1, s.o2), s.regs.y))
}

/// Absolute indexed by Y, for instructions whose length does not
/// depend on the page.
pub fn abs_y(s: &mut CpuState, cycle: u8) -> (r: AddrDelegateReturn)
    ensures
        (*final(s), r) == abs_y_spec(*old(s), cycle),
{
    s.addr = add_index(make_word(s.o1, s.o2), s.regs.y);
    AddrDelegateReturn::Return(Operand::Address(s.addr))
}

pub open spec fn imp_spec(s: CpuState, cycle: u8) -> (CpuState, AddrDelegateReturn) {
    (s, AddrDelegateReturn::Return(Operand::Implied))
}

/// Implied: the instruction names no operand.
pub fn imp(s: &mut CpuState, cycle: u8) -> (r: AddrDelegateReturn)
    ensures
        (*final(s), r) == imp_spec(*old(s), cycle),
{
    AddrDelegateReturn::Return(Operand::Implied)
}

pub open spec fn rel_spec(s: CpuState, cycle: u8) -> (CpuState, AddrDelegateReturn) {
    (s, AddrDelegateReturn::Return(Operand::Address(branch_target(s.regs.pc, s.o1))))
}

/// Relative: the operand is the branch target, the program counter plus
/// the signed second byte.
pub fn rel(s: &mut CpuState, cycle: u8) -> (r: AddrDelegateReturn)
    ensures
        (*final(s), r) == rel_spec(*old(s), cycle),
{
    let target = if s.o1 < 0x80 {
        s.regs.pc.wrapping_add(s.o1 as u16)
    } else {
        s.regs.pc.wrapping_sub(0x100 - (s.o1 as u16))
    };
    AddrDelegateReturn::Return(Operand::Address(target))
}

pub open spec fn ind_x_spec(s: CpuState, cycle: u8) -> (CpuState, AddrDelegateReturn) {
    let pointer = zero_page_indexed(s.o1, s.regs.x);
    if cycle == 1 {
        reading(s, pointer as u16)
    } else if cycle == 2 {
        reading(CpuState { addr: s.data as u16, ..s }, zero_page_indexed(pointer, 1) as u16)
    } else {
        resolved(s, word(low(s.addr), s.data))
    }
}

/// Indexed indirect: the address is the word stored in the zero page at
/// the second byte plus X. Two cycles read it, the third returns it.
pub fn ind_x(s: &mut CpuState, cycle: u8) -> (r: AddrDelegateReturn)
    requires
        1 <= cycle <= 3,
    ensures
        (*final(s), r) == ind_x_spec(*old(s), cycle),
{
    let pointer = s.o1.wrapping_add(s.regs.x);
    if cycle == 1 {
        AddrDelegateReturn::Yield(BusMessage::Read { addr: pointer as u16 })
    } else if cycle == 2 {
        s.addr = s.data as u16;
        AddrDelegateReturn::Yield(BusMessage::Read { addr: pointer.wrapping_add(1) as u16 })
    } else {
        s.addr = make_word(low_byte(s.addr), s.data);
        AddrDelegateReturn::Return(Operand::Address(s.addr))
    }
}

pub open spec fn ind_y_spec(s: CpuState, cycle: u8) -> (CpuState, AddrDelegateReturn) {
    if cycle == 1 {
        reading(s, s.o1 as u16)
    } else if cycle == 2 {
        reading(CpuState { addr: s.data as u16, ..s }, zero_page_indexed(s.o1, 1) as u16)
    } else {
        resolved(s, indexed(word(low(s.addr), s.data), s.regs.y))
    }
}

/// Indirect indexed, for instructions whose length does not depend on
/// the page: the address is the word stored in the zero page at the
/// second byte, plus Y.
pub fn ind_y(s: &mut CpuState, cycle: u8) -> (r: AddrDelegateReturn)
    requires
        1 <= cycle <= 3,
    ensures
        (*final(s), r) == ind_y_spec(*old(s), cycle),
{
    if cycle == 1 {
        AddrDelegateReturn::Yield(BusMessage::Read { addr: s.o1 as u16 })
    } else if cycle == 2 {
        s.addr = s.data as u16;
        AddrDelegateReturn::Yield(BusMessage::Read { addr: s.o1.wrapping_add(1) as u16 })
    } else {
        s.addr = add_index(make_word(low_byte(s.addr), s.data), s.regs.y);
        AddrDelegateReturn::Return(Operand::Address(s.addr))
    }
}

pub open spec fn ind_spec(s: CpuState, cycle: u8) -> (CpuState, AddrDelegateReturn) {
    if cycle == 1 {
        reading(s, word(s.o1, s.o2))
    } else if cycle == 2 {
        reading(CpuState { addr: s.data as u16, ..s }, indexed(word(s.o1, s.o2), 1))
    } else {
        resolved(s, word(low(s.addr), s.data))
    }
}

/// Indirect: the address is the word stored at the word after the
/// opcode. The high byte is read from the next address in the
/// sixteen-bit space, also where the pointer ends a page.
pub fn ind(s: &mut CpuState, cycle: u8) -> (r: AddrDelegateReturn)
    requires
        1 <= cycle <= 3,
    ensures
        (*final(s), r) == ind_spec(*old(s), cycle),
{
    if cycle == 1 {
        AddrDelegateReturn::Yield(BusMessage::Read { addr: make_word(s.o1, s.o2) })
    } else if cycle == 2 {
        s.addr = s.data as u16;
        AddrDelegateReturn::Yield(BusMessage::Read { addr: add_index(make_word(s.o1, s.o2), 1) })
    } else {
        s.addr = make_word(low_byte(s.addr), s.data);
        AddrDelegateReturn::Return(Operand::Address(s.addr))
    }
}

/// Absolute indexed where leaving the page of the base costs a cycle:
/// the first call forms the address and, on a crossing, asks for the
/// extra cycle and spends this one idle; the second call returns.
pub open spec fn abs_indexed_extra(s: CpuState, index: u8, cycle: u8) -> (
    CpuState,
    AddrDelegateReturn,
) {
    let base = word(s.o1, s.o2);
    if cycle == 1 {
        if crosses_page(base, index) {
            (
                CpuState { addr: indexed(base, index), extra_cycle: true, ..s },
                AddrDelegateReturn::Yield(BusMessage::Nop),
            )
        } else {
            resolved(s, indexed(base, index))
        }
    } else {
        (s, AddrDelegateReturn::Return(Operand::Address(s.addr)))
    }
}

fn index_with_penalty(s: &mut CpuState, index: u8, cycle: u8) -> (r: AddrDelegateReturn)
    ensures
        (*final(s), r) == abs_indexed_extra(*old(s), index, cycle),
{
    if cycle == 1 {
        s.addr = add_index(make_word(s.o1, s.o2), index);
        if high_byte(s.addr) != s.o2 {
            s.extra_cycle = true;
            AddrDelegateReturn::Yield(BusMessage::Nop)
        } else {
            AddrDelegateReturn::Return(Operand::Address(s.addr))
        }
    } else {
        AddrDelegateReturn::Return(Operand::Address(s.addr))
    }
}

pub open spec fn abs_x_extra_spec(s: CpuState, cycle: u8) -> (CpuState, AddrDelegateReturn) {
    abs_indexed_extra(s, s.regs.x, cycle)
}

/// Absolute indexed by X with the page-crossing penalty.
pub fn abs_x_extra(s: &mut CpuState, cycle: u8) -> (r: AddrDelegateReturn)
    requires
        1 <= cycle <= 2,
    ensures
        (*final(s), r) == abs_x_extra_spec(*old(s), cycle),
{
    let index = s.regs.x;
    index_with_penalty(s, index, cycle)
}

pub open spec fn abs_y_extra_spec(s: CpuState, cycle: u8) -> (CpuState, AddrDelegateReturn) {
    abs_indexed_extra(s, s.regs.y, cycle)
}

/// Absolute indexed by Y with the page-crossing penalty.
pub fn abs_y_extra(s: &mut CpuState, cycle: u8) -> (r: AddrDelegateReturn)
    requires
        1 <= cycle <= 2,
    ensures
        (*final(s), r) == abs_y_extra_spec(*old(s), cycle),
{
    let index = s.regs.y;
    index_with_penalty(s, index, cycle)
}

pub open spec fn ind_y_extra_spec(s: CpuState, cycle: u8) -> (CpuState, AddrDelegateReturn) {
    if cycle == 1 {
        reading(s, s.o1 as u16)
    } else if cycle == 2 {
        reading(CpuState { addr: s.data as u16, ..s }, zero_page_indexed(s.o1, 1) as u16)
    } else {
        let pointer = word(low(s.addr), s.data);
        let addr = indexed(pointer, s.regs.y);
        (
            CpuState { addr, extra_cycle: s.extra_cycle || crosses_page(pointer, s.regs.y), ..s },
            AddrDelegateReturn::Return(Operand::Address(addr)),
        )
    }
}

/// Indirect indexed with the page-crossing penalty: as [`ind_y`], and
/// the third call asks for the extra cycle when adding Y leaves the
/// page of the pointer.
pub fn ind_y_extra(s: &mut CpuState, cycle: u8) -> (r: AddrDelegateReturn)
    requires
        1 <= cycle <= 3,
    ensures
        (*final(s), r) == ind_y_extra_spec(*old(s), cycle),
{
    if cycle == 1 {
        AddrDelegateReturn::Yield(BusMessage::Read { addr: s.o1 as u16 })
    } else if cycle == 2 {
        s.addr = s.data as u16;
        AddrDelegateReturn::Yield(BusMessage::Read { addr: s.o1.wrapping_add(1) as u16 })
    } else {
        let high = s.data;
        s.addr = add_index(make_word(low_byte(s.addr), high), s.regs.y);
        if high_byte(s.addr) != high {
            s.extra_cycle = true;
        }
        AddrDelegateReturn::Return(Operand::Address(s.addr))
    }
}

} // verus!
