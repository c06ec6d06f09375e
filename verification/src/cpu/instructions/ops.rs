//! The operation routines. Each is called once per tick of the execute
//! phase with a cycle counter that starts at one, may change the
//! processor state, and answers with the tick's bus request.

use vstd::prelude::*;
use crate::BusMessage;
use crate::cpu::{CpuFlags, CpuRegisters, CpuState, IRQ_VECTOR};
use crate::cpu::{following, low, page, preceding, stack_slot, word};
use crate::cpu::{high_byte, low_byte, make_word, stack_address};
use crate::cpu::alu::{decremented, incremented, shifted_left, shifted_right};

verus! {

/// An operation on the registers alone: it turns them into `regs` in
/// its first cycle and idles in every other.
pub open spec fn at_once(s: CpuState, cycle: u8, regs: CpuRegisters) -> (CpuState, BusMessage) {
    if cycle == 1 {
        (CpuState { regs, ..s }, BusMessage::Nop)
    } else {
        (s, BusMessage::Nop)
    }
}

/// An operation on a byte in memory: the first cycle asks for the byte
/// at `address`, the second turns the registers into `regs`, which was
/// computed from the byte on the data latch.
pub open spec fn on_fetched(s: CpuState, address: u16, cycle: u8, regs: CpuRegisters) -> (
    CpuState,
    BusMessage,
) {
    if cycle == 1 {
        (s, BusMessage::Read { addr: address })
    } else if cycle == 2 {
        (CpuState { regs, ..s }, BusMessage::Nop)
    } else {
        (s, BusMessage::Nop)
    }
}

/// A shift of a byte in memory: the first cycle asks for the byte at
/// `address`, the second replaces the latched byte by `value`, sets the
/// flags as in `regs` and writes `value` back.
pub open spec fn rewritten(
    s: CpuState,
    address: u16,
    cycle: u8,
    value: u8,
    regs: CpuRegisters,
) -> (CpuState, BusMessage) {
    if cycle == 1 {
        (s, BusMessage::Read { addr: address })
    } else if cycle == 2 {
        (CpuState { regs, data: value, ..s }, BusMessage::Write { addr: address, data: value })
    } else {
        (s, BusMessage::Nop)
    }
}

/// A count up or down of a byte in memory: the first cycle asks for the
/// byte at `address`, the second replaces the latched byte by `value`
/// and sets Z and N from it, the third writes the latched byte back.
pub open spec fn counted(s: CpuState, address: u16, cycle: u8, value: u8) -> (
    CpuState,
    BusMessage,
) {
    if cycle == 1 {
        (s, BusMessage::Read { addr: address })
    } else if cycle == 2 {
        (CpuState { regs: s.regs.with_zn(value), data: value, ..s }, BusMessage::Nop)
    } else if cycle == 3 {
        (s, BusMessage::Write { addr: address, data: s.data })
    } else {
        (s, BusMessage::Nop)
    }
}

/// A store: the first cycle writes `value` to `address`.
pub open spec fn stored(s: CpuState, address: u16, cycle: u8, value: u8) -> (
    CpuState,
    BusMessage,
) {
    if cycle == 1 {
        (s, BusMessage::Write { addr: address, data: value })
    } else {
        (s, BusMessage::Nop)
    }
}

/// A push of `value`: the first cycle writes it to the stack slot, the
/// second moves the stack pointer down.
pub open spec fn pushing(s: CpuState, cycle: u8, value: u8) -> (CpuState, BusMessage) {
    if cycle == 1 {
        (s, BusMessage::Write { addr: stack_slot(s.regs.sp), data: value })
    } else if cycle == 2 {
        (CpuState { regs: s.regs.pushed(), ..s }, BusMessage::Nop)
    } else {
        (s, BusMessage::Nop)
    }
}

/// A pull: the first cycle moves the stack pointer up and asks for the
/// byte in the slot it then points at, the second turns the registers
/// into `regs`, which was computed from the byte on the data latch.
pub open spec fn pulling(s: CpuState, cycle: u8, regs: CpuRegisters) -> (CpuState, BusMessage) {
    if cycle == 1 {
        (
            CpuState { regs: s.regs.pulled(), ..s },
            BusMessage::Read { addr: stack_slot(incremented(s.regs.sp)) },
        )
    } else if cycle == 2 {
        (CpuState { regs, ..s }, BusMessage::Nop)
    } else {
        (s, BusMessage::Nop)
    }
}

/// A conditional branch to `address`. The first cycle tests the
/// condition and, where it holds, asks for an extra cycle. The second
/// cycle, which the interpreter reaches only through that extra cycle,
/// asks for one more where the target lies on another page than the
/// program counter, and jumps.
pub open spec fn branching(s: CpuState, address: u16, cycle: u8, taken: bool) -> (
    CpuState,
    BusMessage,
) {
    if cycle == 1 {
        (CpuState { extra_cycle: s.extra_cycle || taken, ..s }, BusMessage::Nop)
    } else if cycle == 2 {
        (
            CpuState {
                regs: CpuRegisters { pc: address, ..s.regs },
                extra_cycle: s.extra_cycle || page(s.regs.pc) != page(address),
                ..s
            },
            BusMessage::Nop,
        )
    } else {
        (s, BusMessage::Nop)
    }
}

fn branch(s: &mut CpuState, address: u16, cycle: u8, taken: bool) -> (msg: BusMessage)
    ensures
        (*final(s), msg) == branching(*old(s), address, cycle, taken),
{
    match cycle {
        1 => {
            if taken {
                s.extra_cycle = true;
            }
            BusMessage::Nop
        },
        2 => {
            if high_byte(s.regs.pc) != high_byte(address) {
                s.extra_cycle = true;
            }
            s.regs.pc = address;
            BusMessage::Nop
        },
        _ => BusMessage::Nop,
    }
}

/// State and request after a call of [`lda_immediate`].
pub open spec fn lda_immediate_spec(s: CpuState, immediate: u8, cycle: u8) -> (
    CpuState,
    BusMessage,
) {
    at_once(s, cycle, s.regs.after_lda(immediate))
}

/// LDA #: loads the operand into A and sets Z and N from it.
pub fn lda_immediate(s: &mut CpuState, immediate: u8, cycle: u8) -> (msg: BusMessage)
    ensures
        (*final(s), msg) == lda_immediate_spec(*old(s), immediate, cycle),
{
    if cycle == 1 {
        s.regs.lda(immediate);
    }
    BusMessage::Nop
}

/// State and request after a call of [`lda_address`].
pub open spec fn lda_address_spec(s: CpuState, address: u16, cycle: u8) -> (CpuState, BusMessage) {
    on_fetched(s, address, cycle, s.regs.after_lda(s.data))
}

/// LDA: loads the byte at `address` into A and sets Z and N from it.
pub fn lda_address(s: &mut CpuState, address: u16, cycle: u8) -> (msg: BusMessage)
    ensures
        (*final(s), msg) == lda_address_spec(*old(s), address, cycle),
{
    match cycle {
        1 => BusMessage::Read { addr: address },
        2 => {
            let m = s.data;
            s.regs.lda(m);
            BusMessage::Nop
        },
        _ => BusMessage::Nop,
    }
}

/// State and request after a call of [`ldx_immediate`].
pub open spec fn ldx_immediate_spec(s: CpuState, immediate: u8, cycle: u8) -> (
    CpuState,
    BusMessage,
) {
    at_once(s, cycle, s.regs.after_ldx(immediate))
}

/// LDX #: loads the operand into X and sets Z and N from it.
pub fn ldx_immediate(s: &mut CpuState, immediate: u8, cycle: u8) -> (msg: BusMessage)
    ensures
        (*final(s), msg) == ldx_immediate_spec(*old(s), immediate, cycle),
{
    if cycle == 1 {
        s.regs.ldx(immediate);
    }
    BusMessage::Nop
}

/// State and request after a call of [`ldx_address`].
pub open spec fn ldx_address_spec(s: CpuState, address: u16, cycle: u8) -> (CpuState, BusMessage) {
    on_fetched(s, address, cycle, s.regs.after_ldx(s.data))
}

/// LDX: loads the byte at `address` into X and sets Z and N from it.
pub fn ldx_address(s: &mut CpuState, address: u16, cycle: u8) -> (msg: BusMessage)
    ensures
        (*final(s), msg) == ldx_address_spec(*old(s), address, cycle),
{
    match cycle {
        1 => BusMessage::Read { addr: address },
        2 => {
            let m = s.data;
            s.regs.ldx(m);
            BusMessage::Nop
        },
        _ => BusMessage::Nop,
    }
}

/// State and request after a call of [`ldy_immediate`].
pub open spec fn ldy_immediate_spec(s: CpuState, immediate: u8, cycle: u8) -> (
    CpuState,
    BusMessage,
) {
    at_once(s, cycle, s.regs.after_ldy(immediate))
}

/// LDY #: loads the operand into Y and sets Z and N from it.
pub fn ldy_immediate(s: &mut CpuState, immediate: u8, cycle: u8) -> (msg: BusMessage)
    ensures
        (*final(s), msg) == ldy_immediate_spec(*old(s), immediate, cycle),
{
    if cycle == 1 {
        s.regs.ldy(immediate);
    }
    BusMessage::Nop
}

/// State and request after a call of [`ldy_address`].
pub open spec fn ldy_address_spec(s: CpuState, address: u16, cycle: u8) -> (CpuState, BusMessage) {
    on_fetched(s, address, cycle, s.regs.after_ldy(s.data))
}

/// LDY: loads the byte at `address` into Y and sets Z and N from it.
pub fn ldy_address(s: &mut CpuState, address: u16, cycle: u8) -> (msg: BusMessage)
    ensures
        (*final(s), msg) == ldy_address_spec(*old(s), address, cycle),
{
    match cycle {
        1 => BusMessage::Read { addr: address },
        2 => {
            let m = s.data;
            s.regs.ldy(m);
            BusMessage::Nop
        },
        _ => BusMessage::Nop,
    }
}

/// State and request after a call of [`sta_address`].
pub open spec fn sta_address_spec(s: CpuState, address: u16, cycle: u8) -> (CpuState, BusMessage) {
    stored(s, address, cycle, s.regs.a)
}

/// STA: writes A to `address`, in one cycle.
pub fn sta_address(s: &mut CpuState, address: u16, cycle: u8) -> (msg: BusMessage)
    ensures
        (*final(s), msg) == sta_address_spec(*old(s), address, cycle),
{
    match cycle {
        1 => BusMessage::Write { addr: address, data: s.regs.a },
        _ => BusMessage::Nop,
    }
}

/// State and request after a call of [`stx_address`].
pub open spec fn stx_address_spec(s: CpuState, address: u16, cycle: u8) -> (CpuState, BusMessage) {
    stored(s, address, cycle, s.regs.x)
}

/// STX: writes X to `address`, in one cycle.
pub fn stx_address(s: &mut CpuState, address: u16, cycle: u8) -> (msg: BusMessage)
    ensures
        (*final(s), msg) == stx_address_spec(*old(s), address, cycle),
{
    match cycle {
        1 => BusMessage::Write { addr: address, data: s.regs.x },
        _ => BusMessage::Nop,
    }
}

/// State and request after a call of [`sty_address`].
pub open spec fn sty_address_spec(s: CpuState, address: u16, cycle: u8) -> (CpuState, BusMessage) {
    stored(s, address, cycle, s.regs.y)
}

/// STY: writes Y to `address`, in one cycle.
pub fn sty_address(s: &mut CpuState, address: u16, cycle: u8) -> (msg: BusMessage)
    ensures
        (*final(s), msg) == sty_address_spec(*old(s), address, cycle),
{
    match cycle {
        1 => BusMessage::Write { addr: address, data: s.regs.y },
        _ => BusMessage::Nop,
    }
}

/// State and request after a call of [`adc_immediate`].
pub open spec fn adc_immediate_spec(s: CpuState, immediate: u8, cycle: u8) -> (
    CpuState,
    BusMessage,
) {
    at_once(s, cycle, s.regs.after_adc(immediate))
}

/// ADC #: adds the operand and the carry to A; C, V, Z and N follow the
/// sum.
pub fn adc_immediate(s: &mut CpuState, immediate: u8, cycle: u8) -> (msg: BusMessage)
    ensures
        (*final(s), msg) == adc_immediate_spec(*old(s), immediate, cycle),
{
    if cycle == 1 {
        s.regs.adc(immediate);
    }
    BusMessage::Nop
}

/// State and request after a call of [`adc_address`].
pub open spec fn adc_address_spec(s: CpuState, address: u16, cycle: u8) -> (CpuState, BusMessage) {
    on_fetched(s, address, cycle, s.regs.after_adc(s.data))
}

/// ADC, with M the byte at `address`: adds the operand and the carry to A;
/// C, V, Z and N follow the sum.
pub fn adc_address(s: &mut CpuState, address: u16, cycle: u8) -> (msg: BusMessage)
    ensures
        (*final(s), msg) == adc_address_spec(*old(s), address, cycle),
{
    match cycle {
        1 => BusMessage::Read { addr: address },
        2 => {
            let m = s.data;
            s.regs.adc(m);
            BusMessage::Nop
        },
        _ => BusMessage::Nop,
    }
}

/// State and request after a call of [`sbc_immediate`].
pub open spec fn sbc_immediate_spec(s: CpuState, immediate: u8, cycle: u8) -> (
    CpuState,
    BusMessage,
) {
    at_once(s, cycle, s.regs.after_sbc(immediate))
}

/// SBC #: subtracts the operand and the borrow from A, as the addition of
/// the operand's complement.
pub fn sbc_immediate(s: &mut CpuState, immediate: u8, cycle: u8) -> (msg: BusMessage)
    ensures
        (*final(s), msg) == sbc_immediate_spec(*old(s), immediate, cycle),
{
    if cycle == 1 {
        s.regs.sbc(immediate);
    }
    BusMessage::Nop
}

/// State and request after a call of [`sbc_address`].
pub open spec fn sbc_address_spec(s: CpuState, address: u16, cycle: u8) -> (CpuState, BusMessage) {
    on_fetched(s, address, cycle, s.regs.after_sbc(s.data))
}

/// SBC, with M the byte at `address`: subtracts the operand and the borrow
/// from A, as the addition of the operand's complement.
pub fn sbc_address(s: &mut CpuState, address: u16, cycle: u8) -> (msg: BusMessage)
    ensures
        (*final(s), msg) == sbc_address_spec(*old(s), address, cycle),
{
    match cycle {
        1 => BusMessage::Read { addr: address },
        2 => {
            let m = s.data;
            s.regs.sbc(m);
            BusMessage::Nop
        },
        _ => BusMessage::Nop,
    }
}

/// State and request after a call of [`and_immediate`].
pub open spec fn and_immediate_spec(s: CpuState, immediate: u8, cycle: u8) -> (
    CpuState,
    BusMessage,
) {
    at_once(s, cycle, s.regs.after_and(immediate))
}

/// AND #: A becomes `A & M`; Z and N follow it.
pub fn and_immediate(s: &mut CpuState, immediate: u8, cycle: u8) -> (msg: BusMessage)
    ensures
        (*final(s), msg) == and_immediate_spec(*old(s), immediate, cycle),
{
    if cycle == 1 {
        s.regs.and(immediate);
    }
    BusMessage::Nop
}

/// State and request after a call of [`and_address`].
pub open spec fn and_address_spec(s: CpuState, address: u16, cycle: u8) -> (CpuState, BusMessage) {
    on_fetched(s, address, cycle, s.regs.after_and(s.data))
}

/// AND, with M the byte at `address`: A becomes `A & M`; Z and N follow it.
pub fn and_address(s: &mut CpuState, address: u16, cycle: u8) -> (msg: BusMessage)
    ensures
        (*final(s), msg) == and_address_spec(*old(s), address, cycle),
{
    match cycle {
        1 => BusMessage::Read { addr: address },
        2 => {
            let m = s.data;
            s.regs.and(m);
            BusMessage::Nop
        },
        _ => BusMessage::Nop,
    }
}

/// State and request after a call of [`ora_immediate`].
pub open spec fn ora_immediate_spec(s: CpuState, immediate: u8, cycle: u8) -> (
    CpuState,
    BusMessage,
) {
    at_once(s, cycle, s.regs.after_ora(immediate))
}

/// ORA #: A becomes `A | M`; Z and N follow it.
pub fn ora_immediate(s: &mut CpuState, immediate: u8, cycle: u8) -> (msg: BusMessage)
    ensures
        (*final(s), msg) == ora_immediate_spec(*old(s), immediate, cycle),
{
    if cycle == 1 {
        s.regs.ora(immediate);
    }
    BusMessage::Nop
}

/// State and request after a call of [`ora_address`].
pub open spec fn ora_address_spec(s: CpuState, address: u16, cycle: u8) -> (CpuState, BusMessage) {
    on_fetched(s, address, cycle, s.regs.after_ora(s.data))
}

/// ORA, with M the byte at `address`: A becomes `A | M`; Z and N follow it.
pub fn ora_address(s: &mut CpuState, address: u16, cycle: u8) -> (msg: BusMessage)
    ensures
        (*final(s), msg) == ora_address_spec(*old(s), address, cycle),
{
    match cycle {
        1 => BusMessage::Read { addr: address },
        2 => {
            let m = s.data;
            s.regs.ora(m);
            BusMessage::Nop
        },
        _ => BusMessage::Nop,
    }
}

/// State and request after a call of [`eor_immediate`].
pub open spec fn eor_immediate_spec(s: CpuState, immediate: u8, cycle: u8) -> (
    CpuState,
    BusMessage,
) {
    at_once(s, cycle, s.regs.after_eor(immediate))
}

/// EOR #: A becomes `A ^ M`; Z and N follow it.
pub fn eor_immediate(s: &mut CpuState, immediate: u8, cycle: u8) -> (msg: BusMessage)
    ensures
        (*final(s), msg) == eor_immediate_spec(*old(s), immediate, cycle),
{
    if cycle == 1 {
        s.regs.eor(immediate);
    }
    BusMessage::Nop
}

/// State and request after a call of [`eor_address`].
pub open spec fn eor_address_spec(s: CpuState, address: u16, cycle: u8) -> (CpuState, BusMessage) {
    on_fetched(s, address, cycle, s.regs.after_eor(s.data))
}

/// EOR, with M the byte at `address`: A becomes `A ^ M`; Z and N follow it.
pub fn eor_address(s: &mut CpuState, address: u16, cycle: u8) -> (msg: BusMessage)
    ensures
        (*final(s), msg) == eor_address_spec(*old(s), address, cycle),
{
    match cycle {
        1 => BusMessage::Read { addr: address },
        2 => {
            let m = s.data;
            s.regs.eor(m);
            BusMessage::Nop
        },
        _ => BusMessage::Nop,
    }
}

/// State and request after a call of [`cmp_immediate`].
pub open spec fn cmp_immediate_spec(s: CpuState, immediate: u8, cycle: u8) -> (
    CpuState,
    BusMessage,
) {
    at_once(s, cycle, s.regs.after_compare(s.regs.a, immediate))
}

/// CMP #: sets Z, C and N from the comparison of A with the operand; A
/// stays.
pub fn cmp_immediate(s: &mut CpuState, immediate: u8, cycle: u8) -> (msg: BusMessage)
    ensures
        (*final(s), msg) == cmp_immediate_spec(*old(s), immediate, cycle),
{
    if cycle == 1 {
        let register = s.regs.a;
        s.regs.compare(register, immediate);
    }
    BusMessage::Nop
}

/// State and request after a call of [`cmp_address`].
pub open spec fn cmp_address_spec(s: CpuState, address: u16, cycle: u8) -> (CpuState, BusMessage) {
    on_fetched(s, address, cycle, s.regs.after_compare(s.regs.a, s.data))
}

/// CMP, with the operand at `address`: sets Z, C and N from the comparison
/// of A with the operand; A stays.
pub fn cmp_address(s: &mut CpuState, address: u16, cycle: u8) -> (msg: BusMessage)
    ensures
        (*final(s), msg) == cmp_address_spec(*old(s), address, cycle),
{
    match cycle {
        1 => BusMessage::Read { addr: address },
        2 => {
            let register = s.regs.a;
            let m = s.data;
            s.regs.compare(register, m);
            BusMessage::Nop
        },
        _ => BusMessage::Nop,
    }
}

/// State and request after a call of [`cpx_immediate`].
pub open spec fn cpx_immediate_spec(s: CpuState, immediate: u8, cycle: u8) -> (
    CpuState,
    BusMessage,
) {
    at_once(s, cycle, s.regs.after_compare(s.regs.x, immediate))
}

/// CPX #: sets Z, C and N from the comparison of X with the operand; X
/// stays.
pub fn cpx_immediate(s: &mut CpuState, immediate: u8, cycle: u8) -> (msg: BusMessage)
    ensures
        (*final(s), msg) == cpx_immediate_spec(*old(s), immediate, cycle),
{
    if cycle == 1 {
        let register = s.regs.x;
        s.regs.compare(register, immediate);
    }
    BusMessage::Nop
}

/// State and request after a call of [`cpx_address`].
pub open spec fn cpx_address_spec(s: CpuState, address: u16, cycle: u8) -> (CpuState, BusMessage) {
    on_fetched(s, address, cycle, s.regs.after_compare(s.regs.x, s.data))
}

/// CPX, with the operand at `address`: sets Z, C and N from the comparison
/// of X with the operand; X stays.
pub fn cpx_address(s: &mut CpuState, address: u16, cycle: u8) -> (msg: BusMessage)
    ensures
        (*final(s), msg) == cpx_address_spec(*old(s), address, cycle),
{
    match cycle {
        1 => BusMessage::Read { addr: address },
        2 => {
            let register = s.regs.x;
            let m = s.data;
            s.regs.compare(register, m);
            BusMessage::Nop
        },
        _ => BusMessage::Nop,
    }
}

/// State and request after a call of [`cpy_immediate`].
pub open spec fn cpy_immediate_spec(s: CpuState, immediate: u8, cycle: u8) -> (
    CpuState,
    BusMessage,
) {
    at_once(s, cycle, s.regs.after_compare(s.regs.y, immediate))
}

/// CPY #: sets Z, C and N from the comparison of Y with the operand; Y
/// stays.
pub fn cpy_immediate(s: &mut CpuState, immediate: u8, cycle: u8) -> (msg: BusMessage)
    ensures
        (*final(s), msg) == cpy_immediate_spec(*old(s), immediate, cycle),
{
    if cycle == 1 {
        let register = s.regs.y;
        s.regs.compare(register, immediate);
    }
    BusMessage::Nop
}

/// State and request after a call of [`cpy_address`].
pub open spec fn cpy_address_spec(s: CpuState, address: u16, cycle: u8) -> (CpuState, BusMessage) {
    on_fetched(s, address, cycle, s.regs.after_compare(s.regs.y, s.data))
}

/// CPY, with the operand at `address`: sets Z, C and N from the comparison
/// of Y with the operand; Y stays.
pub fn cpy_address(s: &mut CpuState, address: u16, cycle: u8) -> (msg: BusMessage)
    ensures
        (*final(s), msg) == cpy_address_spec(*old(s), address, cycle),
{
    match cycle {
        1 => BusMessage::Read { addr: address },
        2 => {
            let register = s.regs.y;
            let m = s.data;
            s.regs.compare(register, m);
            BusMessage::Nop
        },
        _ => BusMessage::Nop,
    }
}

/// State and request after a call of [`bit_address`].
pub open spec fn bit_address_spec(s: CpuState, address: u16, cycle: u8) -> (CpuState, BusMessage) {
    on_fetched(s, address, cycle, s.regs.after_bit(s.data))
}

/// BIT: Z tells whether `A & M` is zero for the byte M at `address`; V and
/// N are bits 6 and 7 of M.
pub fn bit_address(s: &mut CpuState, address: u16, cycle: u8) -> (msg: BusMessage)
    ensures
        (*final(s), msg) == bit_address_spec(*old(s), address, cycle),
{
    match cycle {
        1 => BusMessage::Read { addr: address },
        2 => {
            let m = s.data;
            s.regs.bit(m);
            BusMessage::Nop
        },
        _ => BusMessage::Nop,
    }
}

/// State and request after a call of [`asl_implied`].
pub open spec fn asl_implied_spec(s: CpuState, cycle: u8) -> (CpuState, BusMessage) {
    at_once(s, cycle, s.regs.after_asl())
}

/// ASL A: shifts A left by one bit; C takes bit 7, bit 0 becomes zero.
pub fn asl_implied(s: &mut CpuState, cycle: u8) -> (msg: BusMessage)
    ensures
        (*final(s), msg) == asl_implied_spec(*old(s), cycle),
{
    if cycle == 1 {
        let value = s.regs.a;
        s.regs.a = s.regs.left(value, false);
    }
    BusMessage::Nop
}

/// State and request after a call of [`asl_address`].
pub open spec fn asl_address_spec(s: CpuState, address: u16, cycle: u8) -> (CpuState, BusMessage) {
    rewritten(
        s,
        address,
        cycle,
        shifted_left(s.data, false),
        s.regs.after_left(s.data, false),
    )
}

/// ASL: shifts the byte at `address` left by one bit; C takes bit 7, bit 0
/// becomes zero. The first cycle reads the byte, the second writes it back.
pub fn asl_address(s: &mut CpuState, address: u16, cycle: u8) -> (msg: BusMessage)
    ensures
        (*final(s), msg) == asl_address_spec(*old(s), address, cycle),
{
    match cycle {
        1 => BusMessage::Read { addr: address },
        2 => {
            let value = s.data;
            s.data = s.regs.left(value, false);
            BusMessage::Write { addr: address, data: s.data }
        },
        _ => BusMessage::Nop,
    }
}

/// State and request after a call of [`lsr_implied`].
pub open spec fn lsr_implied_spec(s: CpuState, cycle: u8) -> (CpuState, BusMessage) {
    at_once(s, cycle, s.regs.after_lsr())
}

/// LSR A: shifts A right by one bit; C takes bit 0, bit 7 becomes zero.
pub fn lsr_implied(s: &mut CpuState, cycle: u8) -> (msg: BusMessage)
    ensures
        (*final(s), msg) == lsr_implied_spec(*old(s), cycle),
{
    if cycle == 1 {
        let value = s.regs.a;
        s.regs.a = s.regs.right(value, false);
    }
    BusMessage::Nop
}

/// State and request after a call of [`lsr_address`].
pub open spec fn lsr_address_spec(s: CpuState, address: u16, cycle: u8) -> (CpuState, BusMessage) {
    rewritten(
        s,
        address,
        cycle,
        shifted_right(s.data, false),
        s.regs.after_right(s.data, false),
    )
}

/// LSR: shifts the byte at `address` right by one bit; C takes bit 0, bit 7
/// becomes zero. The first cycle reads the byte, the second writes it back.
pub fn lsr_address(s: &mut CpuState, address: u16, cycle: u8) -> (msg: BusMessage)
    ensures
        (*final(s), msg) == lsr_address_spec(*old(s), address, cycle),
{
    match cycle {
        1 => BusMessage::Read { addr: address },
        2 => {
            let value = s.data;
            s.data = s.regs.right(value, false);
            BusMessage::Write { addr: address, data: s.data }
        },
        _ => BusMessage::Nop,
    }
}

/// State and request after a call of [`rol_implied`].
pub open spec fn rol_implied_spec(s: CpuState, cycle: u8) -> (CpuState, BusMessage) {
    at_once(s, cycle, s.regs.after_rol())
}

/// ROL A: rotates A left through C: C takes bit 7, bit 0 takes the old C.
pub fn rol_implied(s: &mut CpuState, cycle: u8) -> (msg: BusMessage)
    ensures
        (*final(s), msg) == rol_implied_spec(*old(s), cycle),
{
    if cycle == 1 {
        let carry = s.regs.get_flag(CpuFlags::C);
        let value = s.regs.a;
        s.regs.a = s.regs.left(value, carry);
    }
    BusMessage::Nop
}

/// State and request after a call of [`rol_address`].
pub open spec fn rol_address_spec(s: CpuState, address: u16, cycle: u8) -> (CpuState, BusMessage) {
    rewritten(
        s,
        address,
        cycle,
        shifted_left(s.data, s.regs.flag(CpuFlags::C)),
        s.regs.after_left(s.data, s.regs.flag(CpuFlags::C)),
    )
}

/// ROL: rotates the byte at `address` left through C: C takes bit 7, bit 0
/// takes the old C. The first cycle reads the byte, the second writes it
/// back.
pub fn rol_address(s: &mut CpuState, address: u16, cycle: u8) -> (msg: BusMessage)
    ensures
        (*final(s), msg) == rol_address_spec(*old(s), address, cycle),
{
    match cycle {
        1 => BusMessage::Read { addr: address },
        2 => {
            let carry = s.regs.get_flag(CpuFlags::C);
            let value = s.data;
            s.data = s.regs.left(value, carry);
            BusMessage::Write { addr: address, data: s.data }
        },
        _ => BusMessage::Nop,
    }
}

/// State and request after a call of [`ror_implied`].
pub open spec fn ror_implied_spec(s: CpuState, cycle: u8) -> (CpuState, BusMessage) {
    at_once(s, cycle, s.regs.after_ror())
}

/// ROR A: rotates A right through C: C takes bit 0, bit 7 takes the old C.
pub fn ror_implied(s: &mut CpuState, cycle: u8) -> (msg: BusMessage)
    ensures
        (*final(s), msg) == ror_implied_spec(*old(s), cycle),
{
    if cycle == 1 {
        let carry = s.regs.get_flag(CpuFlags::C);
        let value = s.regs.a;
        s.regs.a = s.regs.right(value, carry);
    }
    BusMessage::Nop
}

/// State and request after a call of [`ror_address`].
pub open spec fn ror_address_spec(s: CpuState, address: u16, cycle: u8) -> (CpuState, BusMessage) {
    rewritten(
        s,
        address,
        cycle,
        shifted_right(s.data, s.regs.flag(CpuFlags::C)),
        s.regs.after_right(s.data, s.regs.flag(CpuFlags::C)),
    )
}

/// ROR: rotates the byte at `address` right through C: C takes bit 0, bit 7
/// takes the old C. The first cycle reads the byte, the second writes it
/// back.
pub fn ror_address(s: &mut CpuState, address: u16, cycle: u8) -> (msg: BusMessage)
    ensures
        (*final(s), msg) == ror_address_spec(*old(s), address, cycle),
{
    match cycle {
        1 => BusMessage::Read { addr: address },
        2 => {
            let carry = s.regs.get_flag(CpuFlags::C);
            let value = s.data;
            s.data = s.regs.right(value, carry);
            BusMessage::Write { addr: address, data: s.data }
        },
        _ => BusMessage::Nop,
    }
}

/// State and request after a call of [`inc_address`].
pub open spec fn inc_address_spec(s: CpuState, address: u16, cycle: u8) -> (CpuState, BusMessage) {
    counted(s, address, cycle, incremented(s.data))
}

/// INC: reads the byte at `address`, counts it up by one in eight bits,
/// sets Z and N from the result and writes it back.
pub fn inc_address(s: &mut CpuState, address: u16, cycle: u8) -> (msg: BusMessage)
    ensures
        (*final(s), msg) == inc_address_spec(*old(s), address, cycle),
{
    match cycle {
        1 => BusMessage::Read { addr: address },
        2 => {
            s.data = s.data.wrapping_add(1);
            s.regs.set_zn(s.data);
            BusMessage::Nop
        },
        3 => BusMessage::Write { addr: address, data: s.data },
        _ => BusMessage::Nop,
    }
}

/// State and request after a call of [`dec_address`].
pub open spec fn dec_address_spec(s: CpuState, address: u16, cycle: u8) -> (CpuState, BusMessage) {
    counted(s, address, cycle, decremented(s.data))
}

/// DEC: reads the byte at `address`, counts it down by one in eight bits,
/// sets Z and N from the result and writes it back.
pub fn dec_address(s: &mut CpuState, address: u16, cycle: u8) -> (msg: BusMessage)
    ensures
        (*final(s), msg) == dec_address_spec(*old(s), address, cycle),
{
    match cycle {
        1 => BusMessage::Read { addr: address },
        2 => {
            s.data = s.data.wrapping_sub(1);
            s.regs.set_zn(s.data);
            BusMessage::Nop
        },
        3 => BusMessage::Write { addr: address, data: s.data },
        _ => BusMessage::Nop,
    }
}

/// State and request after a call of [`inx_implied`].
pub open spec fn inx_implied_spec(s: CpuState, cycle: u8) -> (CpuState, BusMessage) {
    at_once(s, cycle, s.regs.after_inx())
}

/// INX: counts X up by one in eight bits and sets Z and N from it.
pub fn inx_implied(s: &mut CpuState, cycle: u8) -> (msg: BusMessage)
    ensures
        (*final(s), msg) == inx_implied_spec(*old(s), cycle),
{
    if cycle == 1 {
        s.regs.x = s.regs.x.wrapping_add(1);
        s.regs.set_zn(s.regs.x);
    }
    BusMessage::Nop
}

/// State and request after a call of [`iny_implied`].
pub open spec fn iny_implied_spec(s: CpuState, cycle: u8) -> (CpuState, BusMessage) {
    at_once(s, cycle, s.regs.after_iny())
}

/// INY: counts Y up by one in eight bits and sets Z and N from it.
pub fn iny_implied(s: &mut CpuState, cycle: u8) -> (msg: BusMessage)
    ensures
        (*final(s), msg) == iny_implied_spec(*old(s), cycle),
{
    if cycle == 1 {
        s.regs.y = s.regs.y.wrapping_add(1);
        s.regs.set_zn(s.regs.y);
    }
    BusMessage::Nop
}

/// State and request after a call of [`dex_implied`].
pub open spec fn dex_implied_spec(s: CpuState, cycle: u8) -> (CpuState, BusMessage) {
    at_once(s, cycle, s.regs.after_dex())
}

/// DEX: counts X down by one in eight bits and sets Z and N from it.
pub fn dex_implied(s: &mut CpuState, cycle: u8) -> (msg: BusMessage)
    ensures
        (*final(s), msg) == dex_implied_spec(*old(s), cycle),
{
    if cycle == 1 {
        s.regs.x = s.regs.x.wrapping_sub(1);
        s.regs.set_zn(s.regs.x);
    }
    BusMessage::Nop
}

/// State and request after a call of [`dey_implied`].
pub open spec fn dey_implied_spec(s: CpuState, cycle: u8) -> (CpuState, BusMessage) {
    at_once(s, cycle, s.regs.after_dey())
}

/// DEY: counts Y down by one in eight bits and sets Z and N from it.
pub fn dey_implied(s: &mut CpuState, cycle: u8) -> (msg: BusMessage)
    ensures
        (*final(s), msg) == dey_implied_spec(*old(s), cycle),
{
    if cycle == 1 {
        s.regs.y = s.regs.y.wrapping_sub(1);
        s.regs.set_zn(s.regs.y);
    }
    BusMessage::Nop
}

/// State and request after a call of [`tax_implied`].
pub open spec fn tax_implied_spec(s: CpuState, cycle: u8) -> (CpuState, BusMessage) {
    at_once(s, cycle, s.regs.after_tax())
}

/// TAX: copies A to X and sets Z and N from it.
pub fn tax_implied(s: &mut CpuState, cycle: u8) -> (msg: BusMessage)
    ensures
        (*final(s), msg) == tax_implied_spec(*old(s), cycle),
{
    if cycle == 1 {
        s.regs.x = s.regs.a;
        s.regs.set_zn(s.regs.x);
    }
    BusMessage::Nop
}

/// State and request after a call of [`tay_implied`].
pub open spec fn tay_implied_spec(s: CpuState, cycle: u8) -> (CpuState, BusMessage) {
    at_once(s, cycle, s.regs.after_tay())
}

/// TAY: copies A to Y and sets Z and N from it.
pub fn tay_implied(s: &mut CpuState, cycle: u8) -> (msg: BusMessage)
    ensures
        (*final(s), msg) == tay_implied_spec(*old(s), cycle),
{
    if cycle == 1 {
        s.regs.y = s.regs.a;
        s.regs.set_zn(s.regs.y);
    }
    BusMessage::Nop
}

/// State and request after a call of [`tsx_implied`].
pub open spec fn tsx_implied_spec(s: CpuState, cycle: u8) -> (CpuState, BusMessage) {
    at_once(s, cycle, s.regs.after_tsx())
}

/// TSX: copies the stack pointer to X and sets Z and N from it.
pub fn tsx_implied(s: &mut CpuState, cycle: u8) -> (msg: BusMessage)
    ensures
        (*final(s), msg) == tsx_implied_spec(*old(s), cycle),
{
    if cycle == 1 {
        s.regs.x = s.regs.sp;
        s.regs.set_zn(s.regs.x);
    }
    BusMessage::Nop
}

/// State and request after a call of [`txa_implied`].
pub open spec fn txa_implied_spec(s: CpuState, cycle: u8) -> (CpuState, BusMessage) {
    at_once(s, cycle, s.regs.after_txa())
}

/// TXA: copies X to A and sets Z and N from it.
pub fn txa_implied(s: &mut CpuState, cycle: u8) -> (msg: BusMessage)
    ensures
        (*final(s), msg) == txa_implied_spec(*old(s), cycle),
{
    if cycle == 1 {
        s.regs.a = s.regs.x;
        s.regs.set_zn(s.regs.a);
    }
    BusMessage::Nop
}

/// State and request after a call of [`tya_implied`].
pub open spec fn tya_implied_spec(s: CpuState, cycle: u8) -> (CpuState, BusMessage) {
    at_once(s, cycle, s.regs.after_tya())
}

/// TYA: copies Y to A and sets Z and N from it.
pub fn tya_implied(s: &mut CpuState, cycle: u8) -> (msg: BusMessage)
    ensures
        (*final(s), msg) == tya_implied_spec(*old(s), cycle),
{
    if cycle == 1 {
        s.regs.a = s.regs.y;
        s.regs.set_zn(s.regs.a);
    }
    BusMessage::Nop
}

/// State and request after a call of [`txs_implied`].
pub open spec fn txs_implied_spec(s: CpuState, cycle: u8) -> (CpuState, BusMessage) {
    at_once(s, cycle, s.regs.after_txs())
}

/// TXS: copies X to the stack pointer; no flag changes.
pub fn txs_implied(s: &mut CpuState, cycle: u8) -> (msg: BusMessage)
    ensures
        (*final(s), msg) == txs_implied_spec(*old(s), cycle),
{
    if cycle == 1 {
        s.regs.sp = s.regs.x;
    }
    BusMessage::Nop
}

/// State and request after a call of [`clc_implied`].
pub open spec fn clc_implied_spec(s: CpuState, cycle: u8) -> (CpuState, BusMessage) {
    at_once(s, cycle, s.regs.with_flag(CpuFlags::C, false))
}

/// CLC: clears the C flag.
pub fn clc_implied(s: &mut CpuState, cycle: u8) -> (msg: BusMessage)
    ensures
        (*final(s), msg) == clc_implied_spec(*old(s), cycle),
{
    if cycle == 1 {
        s.regs.set_flag(CpuFlags::C, false);
    }
    BusMessage::Nop
}

/// State and request after a call of [`sec_implied`].
pub open spec fn sec_implied_spec(s: CpuState, cycle: u8) -> (CpuState, BusMessage) {
    at_once(s, cycle, s.regs.with_flag(CpuFlags::C, true))
}

/// SEC: sets the C flag.
pub fn sec_implied(s: &mut CpuState, cycle: u8) -> (msg: BusMessage)
    ensures
        (*final(s), msg) == sec_implied_spec(*old(s), cycle),
{
    if cycle == 1 {
        s.regs.set_flag(CpuFlags::C, true);
    }
    BusMessage::Nop
}

/// State and request after a call of [`cli_implied`].
pub open spec fn cli_implied_spec(s: CpuState, cycle: u8) -> (CpuState, BusMessage) {
    at_once(s, cycle, s.regs.with_flag(CpuFlags::I, false))
}

/// CLI: clears the I flag.
pub fn cli_implied(s: &mut CpuState, cycle: u8) -> (msg: BusMessage)
    ensures
        (*final(s), msg) == cli_implied_spec(*old(s), cycle),
{
    if cycle == 1 {
        s.regs.set_flag(CpuFlags::I, false);
    }
    BusMessage::Nop
}

/// State and request after a call of [`sei_implied`].
pub open spec fn sei_implied_spec(s: CpuState, cycle: u8) -> (CpuState, BusMessage) {
    at_once(s, cycle, s.regs.with_flag(CpuFlags::I, true))
}

/// SEI: sets the I flag.
pub fn sei_implied(s: &mut CpuState, cycle: u8) -> (msg: BusMessage)
    ensures
        (*final(s), msg) == sei_implied_spec(*old(s), cycle),
{
    if cycle == 1 {
        s.regs.set_flag(CpuFlags::I, true);
    }
    BusMessage::Nop
}

/// State and request after a call of [`cld_implied`].
pub open spec fn cld_implied_spec(s: CpuState, cycle: u8) -> (CpuState, BusMessage) {
    at_once(s, cycle, s.regs.with_flag(CpuFlags::D, false))
}

/// CLD: clears the D flag.
pub fn cld_implied(s: &mut CpuState, cycle: u8) -> (msg: BusMessage)
    ensures
        (*final(s), msg) == cld_implied_spec(*old(s), cycle),
{
    if cycle == 1 {
        s.regs.set_flag(CpuFlags::D, false);
    }
    BusMessage::Nop
}

/// State and request after a call of [`sed_implied`].
pub open spec fn sed_implied_spec(s: CpuState, cycle: u8) -> (CpuState, BusMessage) {
    at_once(s, cycle, s.regs.with_flag(CpuFlags::D, true))
}

/// SED: sets the D flag.
pub fn sed_implied(s: &mut CpuState, cycle: u8) -> (msg: BusMessage)
    ensures
        (*final(s), msg) == sed_implied_spec(*old(s), cycle),
{
    if cycle == 1 {
        s.regs.set_flag(CpuFlags::D, true);
    }
    BusMessage::Nop
}

/// State and request after a call of [`clv_implied`].
pub open spec fn clv_implied_spec(s: CpuState, cycle: u8) -> (CpuState, BusMessage) {
    at_once(s, cycle, s.regs.with_flag(CpuFlags::V, false))
}

/// CLV: clears the V flag.
pub fn clv_implied(s: &mut CpuState, cycle: u8) -> (msg: BusMessage)
    ensures
        (*final(s), msg) == clv_implied_spec(*old(s), cycle),
{
    if cycle == 1 {
        s.regs.set_flag(CpuFlags::V, false);
    }
    BusMessage::Nop
}

/// State and request after a call of [`nop_implied`].
pub open spec fn nop_implied_spec(s: CpuState, cycle: u8) -> (CpuState, BusMessage) {
    (s, BusMessage::Nop)
}

/// NOP: no effect.
pub fn nop_implied(s: &mut CpuState, cycle: u8) -> (msg: BusMessage)
    ensures
        (*final(s), msg) == nop_implied_spec(*old(s), cycle),
{
    BusMessage::Nop
}

/// State and request after a call of [`pha_implied`].
pub open spec fn pha_implied_spec(s: CpuState, cycle: u8) -> (CpuState, BusMessage) {
    pushing(s, cycle, s.regs.a)
}

/// PHA: writes A to the stack slot, then moves the stack pointer down.
pub fn pha_implied(s: &mut CpuState, cycle: u8) -> (msg: BusMessage)
    ensures
        (*final(s), msg) == pha_implied_spec(*old(s), cycle),
{
    match cycle {
        1 => BusMessage::Write { addr: stack_address(s.regs.sp), data: s.regs.a },
        2 => {
            s.regs.push();
            BusMessage::Nop
        },
        _ => BusMessage::Nop,
    }
}

/// State and request after a call of [`php_implied`].
pub open spec fn php_implied_spec(s: CpuState, cycle: u8) -> (CpuState, BusMessage) {
    pushing(s, cycle, s.regs.status)
}

/// PHP: writes the status register to the stack slot, then moves the stack
/// pointer down.
pub fn php_implied(s: &mut CpuState, cycle: u8) -> (msg: BusMessage)
    ensures
        (*final(s), msg) == php_implied_spec(*old(s), cycle),
{
    match cycle {
        1 => BusMessage::Write { addr: stack_address(s.regs.sp), data: s.regs.status },
        2 => {
            s.regs.push();
            BusMessage::Nop
        },
        _ => BusMessage::Nop,
    }
}

/// State and request after a call of [`pla_implied`].
pub open spec fn pla_implied_spec(s: CpuState, cycle: u8) -> (CpuState, BusMessage) {
    pulling(s, cycle, CpuRegisters { a: s.data, ..s.regs })
}

/// PLA: moves the stack pointer up and reads the slot into A. The flags
/// stay as they are.
pub fn pla_implied(s: &mut CpuState, cycle: u8) -> (msg: BusMessage)
    ensures
        (*final(s), msg) == pla_implied_spec(*old(s), cycle),
{
    match cycle {
        1 => {
            s.regs.pull();
            BusMessage::Read { addr: stack_address(s.regs.sp) }
        },
        2 => {
            s.regs.a = s.data;
            BusMessage::Nop
        },
        _ => BusMessage::Nop,
    }
}

/// State and request after a call of [`plp_implied`].
pub open spec fn plp_implied_spec(s: CpuState, cycle: u8) -> (CpuState, BusMessage) {
    pulling(s, cycle, CpuRegisters { status: s.data, ..s.regs })
}

/// PLP: moves the stack pointer up and reads the slot into the status
/// register, all eight bits of it.
pub fn plp_implied(s: &mut CpuState, cycle: u8) -> (msg: BusMessage)
    ensures
        (*final(s), msg) == plp_implied_spec(*old(s), cycle),
{
    match cycle {
        1 => {
            s.regs.pull();
            BusMessage::Read { addr: stack_address(s.regs.sp) }
        },
        2 => {
            s.regs.status = s.data;
            BusMessage::Nop
        },
        _ => BusMessage::Nop,
    }
}

/// State and request after a call of [`jmp_address`].
pub open spec fn jmp_address_spec(s: CpuState, address: u16, cycle: u8) -> (CpuState, BusMessage) {
    at_once(s, cycle, CpuRegisters { pc: address, ..s.regs })
}

/// JMP: the program counter becomes `address`.
pub fn jmp_address(s: &mut CpuState, address: u16, cycle: u8) -> (msg: BusMessage)
    ensures
        (*final(s), msg) == jmp_address_spec(*old(s), address, cycle),
{
    if cycle == 1 {
        s.regs.pc = address;
    }
    BusMessage::Nop
}

/// State and request after a call of [`jsr_address`].
pub open spec fn jsr_address_spec(s: CpuState, address: u16, cycle: u8) -> (CpuState, BusMessage) {
    let ret = preceding(s.regs.pc);
    if cycle == 1 {
        (s, BusMessage::Write { addr: stack_slot(s.regs.sp), data: page(ret) })
    } else if cycle == 2 {
        (
            CpuState { regs: s.regs.pushed(), ..s },
            BusMessage::Write { addr: stack_slot(decremented(s.regs.sp)), data: low(ret) },
        )
    } else if cycle == 3 {
        (CpuState { regs: CpuRegisters { pc: address, ..s.regs.pushed() }, ..s }, BusMessage::Nop)
    } else {
        (s, BusMessage::Nop)
    }
}

/// JSR: pushes the address of its own last byte, the program counter minus
/// one, high byte first, then jumps to `address`.
pub fn jsr_address(s: &mut CpuState, address: u16, cycle: u8) -> (msg: BusMessage)
    ensures
        (*final(s), msg) == jsr_address_spec(*old(s), address, cycle),
{
    let ret = s.regs.pc.wrapping_sub(1);
    match cycle {
        1 => BusMessage::Write { addr: stack_address(s.regs.sp), data: high_byte(ret) },
        2 => {
            s.regs.push();
            BusMessage::Write { addr: stack_address(s.regs.sp), data: low_byte(ret) }
        },
        3 => {
            s.regs.push();
            s.regs.pc = address;
            BusMessage::Nop
        },
        _ => BusMessage::Nop,
    }
}

/// State and request after a call of [`rts_implied`].
pub open spec fn rts_implied_spec(s: CpuState, cycle: u8) -> (CpuState, BusMessage) {
    if cycle == 1 {
        (
            CpuState { regs: s.regs.pulled(), ..s },
            BusMessage::Read { addr: stack_slot(incremented(s.regs.sp)) },
        )
    } else if cycle == 2 {
        (
            CpuState { regs: CpuRegisters { pc: s.data as u16, ..s.regs.pulled() }, ..s },
            BusMessage::Read { addr: stack_slot(incremented(s.regs.sp)) },
        )
    } else if cycle == 3 {
        (
            CpuState { regs: CpuRegisters { pc: word(low(s.regs.pc), s.data), ..s.regs }, ..s },
            BusMessage::Nop,
        )
    } else if cycle == 4 {
        (
            CpuState { regs: CpuRegisters { pc: following(s.regs.pc), ..s.regs }, ..s },
            BusMessage::Nop,
        )
    } else {
        (s, BusMessage::Nop)
    }
}

/// RTS: pulls the program counter, low byte first, then steps it past the
/// last byte of the calling instruction.
pub fn rts_implied(s: &mut CpuState, cycle: u8) -> (msg: BusMessage)
    ensures
        (*final(s), msg) == rts_implied_spec(*old(s), cycle),
{
    match cycle {
        1 => {
            s.regs.pull();
            BusMessage::Read { addr: stack_address(s.regs.sp) }
        },
        2 => {
            s.regs.pc = s.data as u16;
            s.regs.pull();
            BusMessage::Read { addr: stack_address(s.regs.sp) }
        },
        3 => {
            s.regs.pc = make_word(low_byte(s.regs.pc), s.data);
            BusMessage::Nop
        },
        4 => {
            s.regs.pc = s.regs.pc.wrapping_add(1);
            BusMessage::Nop
        },
        _ => BusMessage::Nop,
    }
}

/// State and request after a call of [`rti_implied`].
pub open spec fn rti_implied_spec(s: CpuState, cycle: u8) -> (CpuState, BusMessage) {
    if cycle == 1 {
        (
            CpuState { regs: s.regs.pulled(), ..s },
            BusMessage::Read { addr: stack_slot(incremented(s.regs.sp)) },
        )
    } else if cycle == 2 {
        (
            CpuState { regs: CpuRegisters { status: s.data, ..s.regs.pulled() }, ..s },
            BusMessage::Read { addr: stack_slot(incremented(s.regs.sp)) },
        )
    } else if cycle == 3 {
        (
            CpuState { regs: CpuRegisters { pc: s.data as u16, ..s.regs.pulled() }, ..s },
            BusMessage::Read { addr: stack_slot(incremented(s.regs.sp)) },
        )
    } else if cycle == 4 {
        (
            CpuState { regs: CpuRegisters { pc: word(low(s.regs.pc), s.data), ..s.regs }, ..s },
            BusMessage::Nop,
        )
    } else {
        (s, BusMessage::Nop)
    }
}

/// RTI: pulls the status register, then the program counter, low byte
/// first.
pub fn rti_implied(s: &mut CpuState, cycle: u8) -> (msg: BusMessage)
    ensures
        (*final(s), msg) == rti_implied_spec(*old(s), cycle),
{
    match cycle {
        1 => {
            s.regs.pull();
            BusMessage::Read { addr: stack_address(s.regs.sp) }
        },
        2 => {
            s.regs.status = s.data;
            s.regs.pull();
            BusMessage::Read { addr: stack_address(s.regs.sp) }
        },
        3 => {
            s.regs.pc = s.data as u16;
            s.regs.pull();
            BusMessage::Read { addr: stack_address(s.regs.sp) }
        },
        4 => {
            s.regs.pc = make_word(low_byte(s.regs.pc), s.data);
            BusMessage::Nop
        },
        _ => BusMessage::Nop,
    }
}

/// State and request after a call of [`brk_implied`].
pub open spec fn brk_implied_spec(s: CpuState, cycle: u8) -> (CpuState, BusMessage) {
    let ret = following(s.regs.pc);
    if cycle == 1 {
        (s, BusMessage::Write { addr: stack_slot(s.regs.sp), data: page(ret) })
    } else if cycle == 2 {
        (
            CpuState { regs: s.regs.pushed(), ..s },
            BusMessage::Write { addr: stack_slot(decremented(s.regs.sp)), data: low(ret) },
        )
    } else if cycle == 3 {
        (
            CpuState { regs: s.regs.pushed(), ..s },
            BusMessage::Write {
                addr: stack_slot(decremented(s.regs.sp)),
                data: CpuRegisters::status_with(s.regs.status, CpuFlags::B, true),
            },
        )
    } else if cycle == 4 {
        (CpuState { regs: s.regs.pushed(), ..s }, BusMessage::Read { addr: IRQ_VECTOR })
    } else if cycle == 5 {
        (
            CpuState { regs: CpuRegisters { pc: s.data as u16, ..s.regs }, ..s },
            BusMessage::Read { addr: following(IRQ_VECTOR) },
        )
    } else if cycle == 6 {
        (
            CpuState { regs: CpuRegisters { pc: word(low(s.regs.pc), s.data), ..s.regs }, ..s },
            BusMessage::Nop,
        )
    } else {
        (s, BusMessage::Nop)
    }
}

/// BRK: pushes the program counter plus one, high byte first, then the
/// status register with B set, and loads the program counter from the IRQ
/// vector.
pub fn brk_implied(s: &mut CpuState, cycle: u8) -> (msg: BusMessage)
    ensures
        (*final(s), msg) == brk_implied_spec(*old(s), cycle),
{
    let ret = s.regs.pc.wrapping_add(1);
    match cycle {
        1 => BusMessage::Write { addr: stack_address(s.regs.sp), data: high_byte(ret) },
        2 => {
            s.regs.push();
            BusMessage::Write { addr: stack_address(s.regs.sp), data: low_byte(ret) }
        },
        3 => {
            s.regs.push();
            BusMessage::Write {
                addr: stack_address(s.regs.sp),
                data: s.regs.status | CpuFlags::B.mask(),
            }
        },
        4 => {
            s.regs.push();
            BusMessage::Read { addr: IRQ_VECTOR }
        },
        5 => {
            s.regs.pc = s.data as u16;
            BusMessage::Read { addr: IRQ_VECTOR.wrapping_add(1) }
        },
        6 => {
            s.regs.pc = make_word(low_byte(s.regs.pc), s.data);
            BusMessage::Nop
        },
        _ => BusMessage::Nop,
    }
}

/// State and request after a call of [`bpl_address`].
pub open spec fn bpl_address_spec(s: CpuState, address: u16, cycle: u8) -> (CpuState, BusMessage) {
    branching(s, address, cycle, !s.regs.flag(CpuFlags::N))
}

/// BPL: branches to `address` where N is clear.
pub fn bpl_address(s: &mut CpuState, address: u16, cycle: u8) -> (msg: BusMessage)
    ensures
        (*final(s), msg) == bpl_address_spec(*old(s), address, cycle),
{
    let taken = !s.regs.get_flag(CpuFlags::N);
    branch(s, address, cycle, taken)
}

/// State and request after a call of [`bmi_address`].
pub open spec fn bmi_address_spec(s: CpuState, address: u16, cycle: u8) -> (CpuState, BusMessage) {
    branching(s, address, cycle, s.regs.flag(CpuFlags::N))
}

/// BMI: branches to `address` where N is set.
pub fn bmi_address(s: &mut CpuState, address: u16, cycle: u8) -> (msg: BusMessage)
    ensures
        (*final(s), msg) == bmi_address_spec(*old(s), address, cycle),
{
    let taken = s.regs.get_flag(CpuFlags::N);
    branch(s, address, cycle, taken)
}

/// State and request after a call of [`bvc_address`].
pub open spec fn bvc_address_spec(s: CpuState, address: u16, cycle: u8) -> (CpuState, BusMessage) {
    branching(s, address, cycle, !s.regs.flag(CpuFlags::V))
}

/// BVC: branches to `address` where V is clear.
pub fn bvc_address(s: &mut CpuState, address: u16, cycle: u8) -> (msg: BusMessage)
    ensures
        (*final(s), msg) == bvc_address_spec(*old(s), address, cycle),
{
    let taken = !s.regs.get_flag(CpuFlags::V);
    branch(s, address, cycle, taken)
}

/// State and request after a call of [`bvs_address`].
pub open spec fn bvs_address_spec(s: CpuState, address: u16, cycle: u8) -> (CpuState, BusMessage) {
    branching(s, address, cycle, s.regs.flag(CpuFlags::V))
}

/// BVS: branches to `address` where V is set.
pub fn bvs_address(s: &mut CpuState, address: u16, cycle: u8) -> (msg: BusMessage)
    ensures
        (*final(s), msg) == bvs_address_spec(*old(s), address, cycle),
{
    let taken = s.regs.get_flag(CpuFlags::V);
    branch(s, address, cycle, taken)
}

/// State and request after a call of [`bcc_address`].
pub open spec fn bcc_address_spec(s: CpuState, address: u16, cycle: u8) -> (CpuState, BusMessage) {
    branching(s, address, cycle, !s.regs.flag(CpuFlags::C))
}

/// BCC: branches to `address` where C is clear.
pub fn bcc_address(s: &mut CpuState, address: u16, cycle: u8) -> (msg: BusMessage)
    ensures
        (*final(s), msg) == bcc_address_spec(*old(s), address, cycle),
{
    let taken = !s.regs.get_flag(CpuFlags::C);
    branch(s, address, cycle, taken)
}

/// State and request after a call of [`bcs_address`].
pub open spec fn bcs_address_spec(s: CpuState, address: u16, cycle: u8) -> (CpuState, BusMessage) {
    branching(s, address, cycle, s.regs.flag(CpuFlags::C))
}

/// BCS: branches to `address` where C is set.
pub fn bcs_address(s: &mut CpuState, address: u16, cycle: u8) -> (msg: BusMessage)
    ensures
        (*final(s), msg) == bcs_address_spec(*old(s), address, cycle),
{
    let taken = s.regs.get_flag(CpuFlags::C);
    branch(s, address, cycle, taken)
}

/// State and request after a call of [`bne_address`].
pub open spec fn bne_address_spec(s: CpuState, address: u16, cycle: u8) -> (CpuState, BusMessage) {
    branching(s, address, cycle, !s.regs.flag(CpuFlags::Z))
}

/// BNE: branches to `address` where Z is clear.
pub fn bne_address(s: &mut CpuState, address: u16, cycle: u8) -> (msg: BusMessage)
    ensures
        (*final(s), msg) == bne_address_spec(*old(s), address, cycle),
{
    let taken = !s.regs.get_flag(CpuFlags::Z);
    branch(s, address, cycle, taken)
}

/// State and request after a call of [`beq_address`].
pub open spec fn beq_address_spec(s: CpuState, address: u16, cycle: u8) -> (CpuState, BusMessage) {
    branching(s, address, cycle, s.regs.flag(CpuFlags::Z))
}

/// BEQ: branches to `address` where Z is set.
pub fn beq_address(s: &mut CpuState, address: u16, cycle: u8) -> (msg: BusMessage)
    ensures
        (*final(s), msg) == beq_address_spec(*old(s), address, cycle),
{
    let taken = s.regs.get_flag(CpuFlags::Z);
    branch(s, address, cycle, taken)
}

/// State and request after a call of [`reset`].
pub open spec fn reset_spec(s: CpuState, reset_vector: u16, cycle: u8) -> (CpuState, BusMessage) {
    if cycle < 6 {
        (s, BusMessage::Nop)
    } else if cycle == 6 {
        (
            CpuState { regs: s.regs.with_flag(CpuFlags::I, true), ..s },
            BusMessage::Read { addr: reset_vector },
        )
    } else if cycle == 7 {
        (CpuState { addr: s.data as u16, ..s }, BusMessage::Read { addr: following(reset_vector) })
    } else {
        let pc = word(low(s.addr), s.data);
        (
            CpuState {
                regs: CpuRegisters { a: 0, x: 0, y: 0, sp: 0xFD, pc, status: 0x24 },
                op: 0,
                o1: 0,
                o2: 0,
                ..s
            },
            BusMessage::Read { addr: pc },
        )
    }
}

/// The reset sequence, eight cycles: five idle, then I is set and the
/// vector is read, low byte first; the eighth cycle loads the program
/// counter from the vector, zeroes A, X and Y, sets the stack pointer to
/// 0xFD and the status register to 0x24, zeroes the instruction bytes and
/// asks for the first opcode. Nothing is pushed.
pub fn reset(s: &mut CpuState, reset_vector: u16, cycle: u8) -> (msg: BusMessage)
    requires
        cycle <= 8,
    ensures
        (*final(s), msg) == reset_spec(*old(s), reset_vector, cycle),
{
    if cycle < 6 {
        BusMessage::Nop
    } else if cycle == 6 {
        s.regs.set_flag(CpuFlags::I, true);
        BusMessage::Read { addr: reset_vector }
    } else if cycle == 7 {
        s.addr = s.data as u16;
        BusMessage::Read { addr: reset_vector.wrapping_add(1) }
    } else {
        s.regs.pc = make_word(low_byte(s.addr), s.data);
        s.regs.a = 0x00;
        s.regs.x = 0x00;
        s.regs.y = 0x00;
        s.regs.sp = 0xFD;
        s.regs.status = 0x24;
        s.op = 0x00;
        s.o1 = 0x00;
        s.o2 = 0x00;
        BusMessage::Read { addr: s.regs.pc }
    }
}

/// State and request after a call of [`interrupt`].
pub open spec fn interrupt_spec(s: CpuState, interrupt_vector: u16, cycle: u8) -> (
    CpuState,
    BusMessage,
) {
    if cycle < 3 {
        (s, BusMessage::Nop)
    } else if cycle == 3 {
        (s, BusMessage::Write { addr: stack_slot(s.regs.sp), data: page(s.regs.pc) })
    } else if cycle == 4 {
        (
            CpuState { regs: s.regs.pushed(), ..s },
            BusMessage::Write { addr: stack_slot(decremented(s.regs.sp)), data: low(s.regs.pc) },
        )
    } else if cycle == 5 {
        (
            CpuState { regs: s.regs.pushed(), ..s },
            BusMessage::Write {
                addr: stack_slot(decremented(s.regs.sp)),
                data: CpuRegisters::status_with(s.regs.status, CpuFlags::B, false),
            },
        )
    } else if cycle == 6 {
        (CpuState { regs: s.regs.pushed(), ..s }, BusMessage::Read { addr: interrupt_vector })
    } else if cycle == 7 {
        (
            CpuState {
                regs: CpuRegisters { pc: s.data as u16, ..s.regs }.with_flag(CpuFlags::I, true),
                ..s
            },
            BusMessage::Read { addr: following(interrupt_vector) },
        )
    } else {
        let pc = word(low(s.regs.pc), s.data);
        (CpuState { regs: CpuRegisters { pc, ..s.regs }, ..s }, BusMessage::Read { addr: pc })
    }
}

/// The interrupt sequence for IRQ and NMI, eight cycles: two idle, then the
/// program counter is pushed, high byte first, then the status register
/// with B clear; the vector is read, low byte first, I is set, and the
/// eighth cycle asks for the first opcode of the handler.
pub fn interrupt(s: &mut CpuState, interrupt_vector: u16, cycle: u8) -> (msg: BusMessage)
    requires
        cycle <= 8,
    ensures
        (*final(s), msg) == interrupt_spec(*old(s), interrupt_vector, cycle),
{
    if cycle < 3 {
        BusMessage::Nop
    } else if cycle == 3 {
        BusMessage::Write { addr: stack_address(s.regs.sp), data: high_byte(s.regs.pc) }
    } else if cycle == 4 {
        s.regs.push();
        BusMessage::Write { addr: stack_address(s.regs.sp), data: low_byte(s.regs.pc) }
    } else if cycle == 5 {
        s.regs.push();
        BusMessage::Write {
            addr: stack_address(s.regs.sp),
            data: s.regs.status & !CpuFlags::B.mask(),
        }
    } else if cycle == 6 {
        s.regs.push();
        BusMessage::Read { addr: interrupt_vector }
    } else if cycle == 7 {
        s.regs.pc = s.data as u16;
        s.regs.set_flag(CpuFlags::I, true);
        BusMessage::Read { addr: interrupt_vector.wrapping_add(1) }
    } else {
        s.regs.pc = make_word(low_byte(s.regs.pc), s.data);
        BusMessage::Read { addr: s.regs.pc }
    }
}

/// A push and a pull undo each other on the stack pointer, also across
/// the ends of the stack page, and the pull reads the slot that the push
/// wrote.
pub proof fn push_then_pull(regs: CpuRegisters)
    ensures
        regs.pushed().pulled() == regs,
        regs.pulled().pushed() == regs,
        stack_slot(regs.pushed().pulled().sp) == stack_slot(regs.sp),
        0x0100 <= stack_slot(regs.sp) <= 0x01FF,
{
}

/// A push with the stack pointer at 0x00 writes to 0x0100 and leaves the
/// stack pointer at 0xFF.
pub proof fn push_wraps(s: CpuState)
    requires
        s.regs.sp == 0x00,
    ensures
        pha_implied_spec(s, 1).1 == (BusMessage::Write { addr: 0x0100, data: s.regs.a }),
        pha_implied_spec(pha_implied_spec(s, 1).0, 2).0.regs.sp == 0xFF,
        php_implied_spec(s, 1).1 == (BusMessage::Write { addr: 0x0100, data: s.regs.status }),
        php_implied_spec(php_implied_spec(s, 1).0, 2).0.regs.sp == 0xFF,
{
}

/// PHA then PLA is the identity on A. Whatever `later`, the state in
/// which the PLA starts, holds in its other registers: where its stack
/// pointer is the one that the PHA left, the PLA reads the slot that the
/// PHA wrote, and once that byte is delivered A and the stack pointer
/// are what they were before the PHA.
pub proof fn pha_pla_round_trip(s: CpuState, later: CpuState)
    requires
        later.regs.sp == pha_implied_spec(pha_implied_spec(s, 1).0, 2).0.regs.sp,
    ensures
        pha_implied_spec(s, 1).1 == (BusMessage::Write {
            addr: stack_slot(s.regs.sp),
            data: s.regs.a,
        }),
        pla_implied_spec(later, 1).1 == (BusMessage::Read { addr: stack_slot(s.regs.sp) }),
        ({
            let delivered = CpuState { data: s.regs.a, ..pla_implied_spec(later, 1).0 };
            let pulled = pla_implied_spec(delivered, 2).0;
            &&& pulled.regs.a == s.regs.a
            &&& pulled.regs.sp == s.regs.sp
            &&& pulled.regs.status == later.regs.status
        }),
{
}

/// PHP then PLP preserves the status register, all eight bits of it, so
/// bit 5 and B come back as they were pushed. The states are as in
/// [`pha_pla_round_trip`].
pub proof fn php_plp_round_trip(s: CpuState, later: CpuState)
    requires
        later.regs.sp == php_implied_spec(php_implied_spec(s, 1).0, 2).0.regs.sp,
    ensures
        php_implied_spec(s, 1).1 == (BusMessage::Write {
            addr: stack_slot(s.regs.sp),
            data: s.regs.status,
        }),
        plp_implied_spec(later, 1).1 == (BusMessage::Read { addr: stack_slot(s.regs.sp) }),
        ({
            let delivered = CpuState { data: s.regs.status, ..plp_implied_spec(later, 1).0 };
            let pulled = plp_implied_spec(delivered, 2).0;
            &&& pulled.regs.status == s.regs.status
            &&& pulled.regs.sp == s.regs.sp
            &&& pulled.regs.a == later.regs.a
        }),
{
}
} // verus!
