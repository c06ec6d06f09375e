//! What each arithmetic, logic, load and transfer instruction does to
//! the register file, apart from any bus traffic and timing.

use vstd::prelude::*;
use crate::cpu::{flag_reads_as_set, zn_read_as_set, CpuFlags, CpuRegisters};
use crate::cpu::instructions::addressing::signed;

verus! {

/// `value + 1` in eight bits.
pub open spec fn incremented(value: u8) -> u8 {
    ((value + 1) % 0x100) as u8
}

/// `value - 1` in eight bits.
pub open spec fn decremented(value: u8) -> u8 {
    ((value - 1) % 0x100) as u8
}

/// The bitwise complement of `value`.
pub open spec fn complement(value: u8) -> u8 {
    (0xFF - value) as u8
}

/// `value` shifted left by one bit, `carry` entering at bit 0.
pub open spec fn shifted_left(value: u8, carry: bool) -> u8 {
    ((2 * value + if carry { 1int } else { 0int }) % 0x100) as u8
}

/// `value` shifted right by one bit, `carry` entering at bit 7.
pub open spec fn shifted_right(value: u8, carry: bool) -> u8 {
    (value / 2 + if carry { 0x80int } else { 0int }) as u8
}

/// The unsigned sum that add-with-carry forms before it is cut to
/// eight bits.
pub open spec fn carry_sum(a: u8, m: u8, carry: bool) -> int {
    a + m + if carry { 1int } else { 0int }
}

/// The overflow flag of an addition of `a` and `m` that gave `result`:
/// bit 7 of `(a ^ result) & (m ^ result)`.
pub open spec fn overflowed(a: u8, m: u8, result: u8) -> bool {
    (a ^ result) & (m ^ result) & 0x80 != 0
}

pub fn shift_left(value: u8, carry: bool) -> (shifted: u8)
    ensures
        shifted == shifted_left(value, carry),
{
    let low: u8 = if carry { 1 } else { 0 };
    let shifted = (value << 1) | low;
    assert(((value << 1) | low) == ((2 * value + low) % 0x100) as u8) by (bit_vector)
        requires
            low == 0 || low == 1,
    ;
    shifted
}

pub fn shift_right(value: u8, carry: bool) -> (shifted: u8)
    ensures
        shifted == shifted_right(value, carry),
{
    let high: u8 = if carry { 0x80 } else { 0 };
    let shifted = (value >> 1) | high;
    assert(((value >> 1) | high) == (value / 2 + high) as u8) by (bit_vector)
        requires
            high == 0 || high == 0x80,
    ;
    shifted
}

impl CpuRegisters {
    /// After a load of `m` into A.
    pub open spec fn after_lda(self, m: u8) -> CpuRegisters {
        CpuRegisters { a: m, ..self }.with_zn(m)
    }

    /// After a load of `m` into X.
    pub open spec fn after_ldx(self, m: u8) -> CpuRegisters {
        CpuRegisters { x: m, ..self }.with_zn(m)
    }

    /// After a load of `m` into Y.
    pub open spec fn after_ldy(self, m: u8) -> CpuRegisters {
        CpuRegisters { y: m, ..self }.with_zn(m)
    }

    /// After `A + m + C`: A holds the low eight bits of the sum, C its
    /// ninth bit, V the signed overflow, Z and N describe the new A.
    /// The decimal flag plays no part.
    pub open spec fn after_adc(self, m: u8) -> CpuRegisters {
        let sum = carry_sum(self.a, m, self.flag(CpuFlags::C));
        let result = (sum % 0x100) as u8;
        CpuRegisters { a: result, ..self }.with_flag(CpuFlags::C, sum > 0xFF).with_flag(
            CpuFlags::V,
            overflowed(self.a, m, result),
        ).with_zn(result)
    }

    /// After `A - m - (1 - C)`: the addition of the complement of `m`.
    pub open spec fn after_sbc(self, m: u8) -> CpuRegisters {
        self.after_adc(complement(m))
    }

    /// After `A & m`.
    pub open spec fn after_and(self, m: u8) -> CpuRegisters {
        CpuRegisters { a: self.a & m, ..self }.with_zn(self.a & m)
    }

    /// After `A | m`.
    pub open spec fn after_ora(self, m: u8) -> CpuRegisters {
        CpuRegisters { a: self.a | m, ..self }.with_zn(self.a | m)
    }

    /// After `A ^ m`.
    pub open spec fn after_eor(self, m: u8) -> CpuRegisters {
        CpuRegisters { a: self.a ^ m, ..self }.with_zn(self.a ^ m)
    }

    /// After a comparison of `register` with `m`: Z when they are
    /// equal, C when `register` is not below `m`, N from bit 7 of the
    /// eight-bit difference.
    pub open spec fn after_compare(self, register: u8, m: u8) -> CpuRegisters {
        self.with_flag(CpuFlags::Z, register == m).with_flag(CpuFlags::C, register >= m).with_flag(
            CpuFlags::N,
            register.wrapping_sub(m) >= 0x80,
        )
    }

    /// After a bit test of `m`: Z when `A & m` is zero, V and N are
    /// bits 6 and 7 of `m`.
    pub open spec fn after_bit(self, m: u8) -> CpuRegisters {
        self.with_flag(CpuFlags::Z, self.a & m == 0).with_flag(
            CpuFlags::V,
            m & 0x40 != 0,
        ).with_flag(CpuFlags::N, m >= 0x80)
    }

    /// The flags after `value` was shifted or rotated left into
    /// `shifted_left(value, carry)`: C is the bit that left.
    pub open spec fn after_left(self, value: u8, carry: bool) -> CpuRegisters {
        self.with_flag(CpuFlags::C, value >= 0x80).with_zn(shifted_left(value, carry))
    }

    /// The flags after `value` was shifted or rotated right into
    /// `shifted_right(value, carry)`: C is the bit that left.
    pub open spec fn after_right(self, value: u8, carry: bool) -> CpuRegisters {
        self.with_flag(CpuFlags::C, value % 2 == 1).with_zn(shifted_right(value, carry))
    }

    /// After an arithmetic shift left of A.
    pub open spec fn after_asl(self) -> CpuRegisters {
        CpuRegisters { a: shifted_left(self.a, false), ..self }.after_left(self.a, false)
    }

    /// After a logical shift right of A.
    pub open spec fn after_lsr(self) -> CpuRegisters {
        CpuRegisters { a: shifted_right(self.a, false), ..self }.after_right(self.a, false)
    }

    /// After a rotation of A to the left through C.
    pub open spec fn after_rol(self) -> CpuRegisters {
        let carry = self.flag(CpuFlags::C);
        CpuRegisters { a: shifted_left(self.a, carry), ..self }.after_left(self.a, carry)
    }

    /// After a rotation of A to the right through C.
    pub open spec fn after_ror(self) -> CpuRegisters {
        let carry = self.flag(CpuFlags::C);
        CpuRegisters { a: shifted_right(self.a, carry), ..self }.after_right(self.a, carry)
    }

    pub open spec fn after_inx(self) -> CpuRegisters {
        CpuRegisters { x: incremented(self.x), ..self }.with_zn(incremented(self.x))
    }

    pub open spec fn after_iny(self) -> CpuRegisters {
        CpuRegisters { y: incremented(self.y), ..self }.with_zn(incremented(self.y))
    }

    pub open spec fn after_dex(self) -> CpuRegisters {
        CpuRegisters { x: decremented(self.x), ..self }.with_zn(decremented(self.x))
    }

    pub open spec fn after_dey(self) -> CpuRegisters {
        CpuRegisters { y: decremented(self.y), ..self }.with_zn(decremented(self.y))
    }

    pub open spec fn after_tax(self) -> CpuRegisters {
        CpuRegisters { x: self.a, ..self }.with_zn(self.a)
    }

    pub open spec fn after_tay(self) -> CpuRegisters {
        CpuRegisters { y: self.a, ..self }.with_zn(self.a)
    }

    pub open spec fn after_tsx(self) -> CpuRegisters {
        CpuRegisters { x: self.sp, ..self }.with_zn(self.sp)
    }

    pub open spec fn after_txa(self) -> CpuRegisters {
        CpuRegisters { a: self.x, ..self }.with_zn(self.x)
    }

    pub open spec fn after_tya(self) -> CpuRegisters {
        CpuRegisters { a: self.y, ..self }.with_zn(self.y)
    }

    /// After the transfer of X to the stack pointer, which leaves the
    /// flags alone.
    pub open spec fn after_txs(self) -> CpuRegisters {
        CpuRegisters { sp: self.x, ..self }
    }

    /// With the stack pointer moved down by one slot, from 0x00 to 0xFF.
    pub open spec fn pushed(self) -> CpuRegisters {
        CpuRegisters { sp: decremented(self.sp), ..self }
    }

    /// With the stack pointer moved up by one slot, from 0xFF to 0x00.
    pub open spec fn pulled(self) -> CpuRegisters {
        CpuRegisters { sp: incremented(self.sp), ..self }
    }

    pub fn lda(&mut self, m: u8)
        ensures
            *final(self) == old(self).after_lda(m),
    {
        self.a = m;
        self.set_zn(m);
    }

    pub fn ldx(&mut self, m: u8)
        ensures
            *final(self) == old(self).after_ldx(m),
    {
        self.x = m;
        self.set_zn(m);
    }

    pub fn ldy(&mut self, m: u8)
        ensures
            *final(self) == old(self).after_ldy(m),
    {
        self.y = m;
        self.set_zn(m);
    }

    pub fn adc(&mut self, m: u8)
        ensures
            *final(self) == old(self).after_adc(m),
    {
        let carry: u16 = if self.get_flag(CpuFlags::C) { 1 } else { 0 };
        let sum: u16 = self.a as u16 + m as u16 + carry;
        let result: u8 = (sum % 0x100) as u8;
        let overflow = (self.a ^ result) & (m ^ result) & 0x80 != 0;
        self.a = result;
        self.set_flag(CpuFlags::C, sum > 0xFF);
        self.set_flag(CpuFlags::V, overflow);
        self.set_zn(result);
    }

    pub fn sbc(&mut self, m: u8)
        ensures
            *final(self) == old(self).after_sbc(m),
    {
        self.adc(0xFF - m);
    }

    pub fn and(&mut self, m: u8)
        ensures
            *final(self) == old(self).after_and(m),
    {
        self.a = self.a & m;
        self.set_zn(self.a);
    }

    pub fn ora(&mut self, m: u8)
        ensures
            *final(self) == old(self).after_ora(m),
    {
        self.a = self.a | m;
        self.set_zn(self.a);
    }

    pub fn eor(&mut self, m: u8)
        ensures
            *final(self) == old(self).after_eor(m),
    {
        self.a = self.a ^ m;
        self.set_zn(self.a);
    }

    pub fn compare(&mut self, register: u8, m: u8)
        ensures
            *final(self) == old(self).after_compare(register, m),
    {
        self.set_flag(CpuFlags::Z, register == m);
        self.set_flag(CpuFlags::C, register >= m);
        self.set_flag(CpuFlags::N, register.wrapping_sub(m) >= 0x80);
    }

    pub fn bit(&mut self, m: u8)
        ensures
            *final(self) == old(self).after_bit(m),
    {
        self.set_flag(CpuFlags::Z, self.a & m == 0);
        self.set_flag(CpuFlags::V, m & 0x40 != 0);
        self.set_flag(CpuFlags::N, m >= 0x80);
    }

    /// Shifts `value` left with `carry` entering, sets C, Z and N, and
    /// returns the shifted byte.
    pub fn left(&mut self, value: u8, carry: bool) -> (shifted: u8)
        ensures
            shifted == shifted_left(value, carry),
            *final(self) == old(self).after_left(value, carry),
    {
        let shifted = shift_left(value, carry);
        self.set_flag(CpuFlags::C, value >= 0x80);
        self.set_zn(shifted);
        shifted
    }

    /// Shifts `value` right with `carry` entering, sets C, Z and N, and
    /// returns the shifted byte.
    pub fn right(&mut self, value: u8, carry: bool) -> (shifted: u8)
        ensures
            shifted == shifted_right(value, carry),
            *final(self) == old(self).after_right(value, carry),
    {
        let shifted = shift_right(value, carry);
        self.set_flag(CpuFlags::C, value % 2 == 1);
        self.set_zn(shifted);
        shifted
    }

    pub fn push(&mut self)
        ensures
            *final(self) == old(self).pushed(),
    {
        self.sp = self.sp.wrapping_sub(1);
    }

    pub fn pull(&mut self)
        ensures
            *final(self) == old(self).pulled(),
    {
        self.sp = self.sp.wrapping_add(1);
    }
}

/// The sum of `a`, `m` and the carry, each byte read as a two's
/// complement number.
pub open spec fn signed_sum(a: u8, m: u8, carry: bool) -> int {
    signed(a) + signed(m) + if carry { 1int } else { 0int }
}

/// The overflow flag tells whether the signed sum left the range of a
/// signed byte.
pub proof fn overflow_is_signed_overflow(a: u8, m: u8, carry: bool)
    ensures
        overflowed(a, m, (carry_sum(a, m, carry) % 0x100) as u8) == !(-128 <= signed_sum(
            a,
            m,
            carry,
        ) <= 127),
{
    let r = (carry_sum(a, m, carry) % 0x100) as u8;
    assert(((a ^ r) & (m ^ r) & 0x80 != 0) == ((a < 0x80 && m < 0x80 && r >= 0x80) || (a >= 0x80
        && m >= 0x80 && r < 0x80))) by (bit_vector);
}

/// The flags and the accumulator after an addition, for every input:
/// A is the sum modulo 256, C its ninth bit, Z and N describe the new
/// A, V is the signed overflow, and I, D and B are left alone.
pub proof fn adc_flags(regs: CpuRegisters, m: u8)
    ensures
        ({
            let sum = carry_sum(regs.a, m, regs.flag(CpuFlags::C));
            let after = regs.after_adc(m);
            &&& after.a == sum % 0x100
            &&& after.flag(CpuFlags::C) == (sum > 0xFF)
            &&& after.flag(CpuFlags::Z) == (after.a == 0)
            &&& after.flag(CpuFlags::N) == (after.a >= 0x80)
            &&& after.flag(CpuFlags::V) == !(-128 <= signed_sum(
                regs.a,
                m,
                regs.flag(CpuFlags::C),
            ) <= 127)
            &&& after.flag(CpuFlags::I) == regs.flag(CpuFlags::I)
            &&& after.flag(CpuFlags::D) == regs.flag(CpuFlags::D)
            &&& after.flag(CpuFlags::B) == regs.flag(CpuFlags::B)
            &&& after == (CpuRegisters { a: after.a, status: after.status, ..regs })
        }),
{
    let carry = regs.flag(CpuFlags::C);
    let sum = carry_sum(regs.a, m, carry);
    let result = (sum % 0x100) as u8;
    let loaded = CpuRegisters { a: result, ..regs };
    let with_c = loaded.with_flag(CpuFlags::C, sum > 0xFF);
    let with_v = with_c.with_flag(CpuFlags::V, overflowed(regs.a, m, result));
    overflow_is_signed_overflow(regs.a, m, carry);
    flag_reads_as_set(loaded, CpuFlags::C, sum > 0xFF, CpuFlags::V);
    flag_reads_as_set(loaded, CpuFlags::C, sum > 0xFF, CpuFlags::I);
    flag_reads_as_set(loaded, CpuFlags::C, sum > 0xFF, CpuFlags::D);
    flag_reads_as_set(loaded, CpuFlags::C, sum > 0xFF, CpuFlags::B);
    flag_reads_as_set(with_c, CpuFlags::V, overflowed(regs.a, m, result), CpuFlags::C);
    flag_reads_as_set(with_c, CpuFlags::V, overflowed(regs.a, m, result), CpuFlags::I);
    flag_reads_as_set(with_c, CpuFlags::V, overflowed(regs.a, m, result), CpuFlags::D);
    flag_reads_as_set(with_c, CpuFlags::V, overflowed(regs.a, m, result), CpuFlags::B);
    zn_read_as_set(with_v, result, CpuFlags::C);
    zn_read_as_set(with_v, result, CpuFlags::V);
    zn_read_as_set(with_v, result, CpuFlags::I);
    zn_read_as_set(with_v, result, CpuFlags::D);
    zn_read_as_set(with_v, result, CpuFlags::B);
}

/// The flags and the accumulator after a subtraction, for every input:
/// with the borrow `1 - C`, A is `A - m - borrow` modulo 256, C tells
/// that no borrow left the byte, V that the signed difference left the
/// range of a signed byte, and Z and N describe the new A.
pub proof fn sbc_flags(regs: CpuRegisters, m: u8)
    ensures
        ({
            let borrow = if regs.flag(CpuFlags::C) {
                0int
            } else {
                1int
            };
            let after = regs.after_sbc(m);
            &&& after.a == (regs.a - m - borrow) % 0x100
            &&& after.flag(CpuFlags::C) == (regs.a - m - borrow >= 0)
            &&& after.flag(CpuFlags::Z) == (after.a == 0)
            &&& after.flag(CpuFlags::N) == (after.a >= 0x80)
            &&& after.flag(CpuFlags::V) == !(-128 <= signed(regs.a) - signed(m) - borrow <= 127)
        }),
{
    adc_flags(regs, complement(m));
}

/// The flags after a comparison, for every input: Z tells equality, C
/// that the register is not below the operand, N is bit 7 of the
/// difference modulo 256, and nothing else changes.
pub proof fn compare_flags(regs: CpuRegisters, register: u8, m: u8)
    ensures
        ({
            let after = regs.after_compare(register, m);
            &&& after.flag(CpuFlags::Z) == (register == m)
            &&& after.flag(CpuFlags::C) == (register >= m)
            &&& after.flag(CpuFlags::N) == ((register - m) % 0x100 >= 0x80)
            &&& after.flag(CpuFlags::V) == regs.flag(CpuFlags::V)
            &&& after == (CpuRegisters { status: after.status, ..regs })
        }),
{
    let z = regs.with_flag(CpuFlags::Z, register == m);
    let c = z.with_flag(CpuFlags::C, register >= m);
    let n = register.wrapping_sub(m) >= 0x80;
    flag_reads_as_set(regs, CpuFlags::Z, register == m, CpuFlags::V);
    flag_reads_as_set(z, CpuFlags::C, register >= m, CpuFlags::Z);
    flag_reads_as_set(z, CpuFlags::C, register >= m, CpuFlags::V);
    flag_reads_as_set(c, CpuFlags::N, n, CpuFlags::Z);
    flag_reads_as_set(c, CpuFlags::N, n, CpuFlags::C);
    flag_reads_as_set(c, CpuFlags::N, n, CpuFlags::V);
}

/// The flags after a shift or rotation to the left: C is the bit that
/// left, Z and N describe the result.
pub proof fn left_flags(regs: CpuRegisters, value: u8, carry: bool)
    ensures
        regs.after_left(value, carry).flag(CpuFlags::C) == (value >= 0x80),
        regs.after_left(value, carry).flag(CpuFlags::Z) == (shifted_left(value, carry) == 0),
        regs.after_left(value, carry).flag(CpuFlags::N) == (shifted_left(value, carry) >= 0x80),
{
    let c = regs.with_flag(CpuFlags::C, value >= 0x80);
    flag_reads_as_set(regs, CpuFlags::C, value >= 0x80, CpuFlags::C);
    zn_read_as_set(c, shifted_left(value, carry), CpuFlags::C);
}

/// The flags after a shift or rotation to the right: C is the bit that
/// left, Z and N describe the result.
pub proof fn right_flags(regs: CpuRegisters, value: u8, carry: bool)
    ensures
        regs.after_right(value, carry).flag(CpuFlags::C) == (value % 2 == 1),
        regs.after_right(value, carry).flag(CpuFlags::Z) == (shifted_right(value, carry) == 0),
        regs.after_right(value, carry).flag(CpuFlags::N) == (shifted_right(value, carry) >= 0x80),
{
    let c = regs.with_flag(CpuFlags::C, value % 2 == 1);
    flag_reads_as_set(regs, CpuFlags::C, value % 2 == 1, CpuFlags::C);
    zn_read_as_set(c, shifted_right(value, carry), CpuFlags::C);
}

} // verus!
