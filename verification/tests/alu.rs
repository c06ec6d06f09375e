use nesferratu_core::cpu::alu::{shift_left, shift_right};
use nesferratu_core::cpu::{
    high_byte, low_byte, make_word, stack_address, CpuFlags, CpuRegisters,
};

const BOUNDARY: [u8; 5] = [0x00, 0x01, 0x7F, 0x80, 0xFF];

fn registers(a: u8, carry: bool) -> CpuRegisters {
    CpuRegisters { a, x: 0x11, y: 0x22, sp: 0x33, pc: 0x4455, status: 0x20 | carry as u8 }
}

fn nvzc(regs: &CpuRegisters) -> (bool, bool, bool, bool) {
    (
        regs.get_flag(CpuFlags::N),
        regs.get_flag(CpuFlags::V),
        regs.get_flag(CpuFlags::Z),
        regs.get_flag(CpuFlags::C),
    )
}

#[test]
fn flag_masks() {
    assert_eq!(CpuFlags::C.mask(), 0x01);
    assert_eq!(CpuFlags::Z.mask(), 0x02);
    assert_eq!(CpuFlags::I.mask(), 0x04);
    assert_eq!(CpuFlags::D.mask(), 0x08);
    assert_eq!(CpuFlags::B.mask(), 0x10);
    assert_eq!(CpuFlags::V.mask(), 0x40);
    assert_eq!(CpuFlags::N.mask(), 0x80);
}

#[test]
fn a_flag_reads_as_it_was_set() {
    let flags = [
        CpuFlags::C,
        CpuFlags::Z,
        CpuFlags::I,
        CpuFlags::D,
        CpuFlags::B,
        CpuFlags::V,
        CpuFlags::N,
    ];
    for status in [0x00u8, 0x20, 0x24, 0xFF, 0xA5] {
        for f in flags {
            for value in [false, true] {
                let mut regs = registers(0, false);
                regs.status = status;
                regs.set_flag(f, value);
                assert_eq!(regs.get_flag(f), value);
                for g in flags {
                    if g != f {
                        assert_eq!(regs.get_flag(g), status & g.mask() != 0);
                    }
                }
                assert_eq!(regs.status & 0x20, status & 0x20);
                assert_eq!((regs.a, regs.x, regs.y, regs.sp, regs.pc), (0, 0x11, 0x22, 0x33, 0x4455));
            }
        }
    }
}

#[test]
fn default_registers_are_zero() {
    let regs = CpuRegisters::default();
    assert_eq!(regs, CpuRegisters { a: 0, x: 0, y: 0, sp: 0, pc: 0, status: 0 });
}

#[test]
fn adc_truth_table() {
    for a in BOUNDARY {
        for m in BOUNDARY {
            for carry in [false, true] {
                let mut regs = registers(a, carry);
                regs.adc(m);
                let sum = a as u16 + m as u16 + carry as u16;
                let signed = a as i8 as i16 + m as i8 as i16 + carry as i16;
                let result = sum as u8;
                assert_eq!(regs.a, result, "{a:#x} + {m:#x} + {carry}");
                assert_eq!(
                    nvzc(&regs),
                    (result & 0x80 != 0, !(-128..=127).contains(&signed), result == 0, sum > 0xFF),
                    "{a:#x} + {m:#x} + {carry}"
                );
                assert_eq!((regs.x, regs.y, regs.sp, regs.pc), (0x11, 0x22, 0x33, 0x4455));
                assert_eq!(regs.status & 0x3C, 0x20);
            }
        }
    }
}

#[test]
fn adc_overflow_flag() {
    let mut regs = registers(0x7F, false);
    regs.adc(0x01);
    assert_eq!(regs.a, 0x80);
    assert_eq!(nvzc(&regs), (true, true, false, false));
}

#[test]
fn adc_exact_values() {
    let mut regs = registers(0xFF, true);
    regs.adc(0xFF);
    assert_eq!(regs.a, 0xFF);
    assert_eq!(nvzc(&regs), (true, false, false, true));

    let mut regs = registers(0x80, false);
    regs.adc(0x80);
    assert_eq!(regs.a, 0x00);
    assert_eq!(nvzc(&regs), (false, true, true, true));

    let mut regs = registers(0x01, true);
    regs.adc(0x01);
    assert_eq!(regs.a, 0x03);
    assert_eq!(nvzc(&regs), (false, false, false, false));
}

#[test]
fn adc_ignores_decimal_mode() {
    let mut regs = registers(0x09, false);
    regs.set_flag(CpuFlags::D, true);
    regs.adc(0x01);
    assert_eq!(regs.a, 0x0A);
    assert!(regs.get_flag(CpuFlags::D));
}

#[test]
fn sbc_truth_table() {
    for a in BOUNDARY {
        for m in BOUNDARY {
            for carry in [false, true] {
                let mut regs = registers(a, carry);
                regs.sbc(m);
                let borrow = !carry as i16;
                let difference = a as i16 - m as i16 - borrow;
                let signed = a as i8 as i16 - m as i8 as i16 - borrow;
                let result = difference as u8;
                assert_eq!(regs.a, result, "{a:#x} - {m:#x} - {borrow}");
                assert_eq!(
                    nvzc(&regs),
                    (
                        result & 0x80 != 0,
                        !(-128..=127).contains(&signed),
                        result == 0,
                        difference >= 0
                    ),
                    "{a:#x} - {m:#x} - {borrow}"
                );
            }
        }
    }
}

#[test]
fn sbc_exact_values() {
    let mut regs = registers(0x50, true);
    regs.sbc(0x10);
    assert_eq!(regs.a, 0x40);
    assert_eq!(nvzc(&regs), (false, false, false, true));

    let mut regs = registers(0x00, true);
    regs.sbc(0x01);
    assert_eq!(regs.a, 0xFF);
    assert_eq!(nvzc(&regs), (true, false, false, false));

    let mut regs = registers(0x80, true);
    regs.sbc(0x01);
    assert_eq!(regs.a, 0x7F);
    assert_eq!(nvzc(&regs), (false, true, false, true));
}

#[test]
fn compare_truth_table() {
    for register in BOUNDARY {
        for m in BOUNDARY {
            for carry in [false, true] {
                let mut regs = registers(0x99, carry);
                regs.set_flag(CpuFlags::V, carry);
                regs.compare(register, m);
                let difference = register.wrapping_sub(m);
                assert_eq!(
                    nvzc(&regs),
                    (difference & 0x80 != 0, carry, register == m, register >= m),
                    "{register:#x} ? {m:#x}"
                );
                assert_eq!(regs.a, 0x99);
            }
        }
    }
}

#[test]
fn logic_truth_table() {
    for a in BOUNDARY {
        for m in BOUNDARY {
            for carry in [false, true] {
                let mut regs = registers(a, carry);
                regs.and(m);
                assert_eq!(regs.a, a & m);
                assert_eq!(nvzc(&regs), ((a & m) & 0x80 != 0, false, a & m == 0, carry));

                let mut regs = registers(a, carry);
                regs.ora(m);
                assert_eq!(regs.a, a | m);
                assert_eq!(nvzc(&regs), ((a | m) & 0x80 != 0, false, a | m == 0, carry));

                let mut regs = registers(a, carry);
                regs.eor(m);
                assert_eq!(regs.a, a ^ m);
                assert_eq!(nvzc(&regs), ((a ^ m) & 0x80 != 0, false, a ^ m == 0, carry));
            }
        }
    }
}

#[test]
fn bit_truth_table() {
    for a in BOUNDARY {
        for m in [0x00u8, 0x01, 0x3F, 0x40, 0x7F, 0x80, 0xBF, 0xC0, 0xFF] {
            let mut regs = registers(a, true);
            regs.bit(m);
            assert_eq!(nvzc(&regs), (m & 0x80 != 0, m & 0x40 != 0, a & m == 0, true));
            assert_eq!(regs.a, a);
        }
    }
}

#[test]
fn bit_takes_v_from_bit_six_alone() {
    let mut regs = registers(0xFF, false);
    regs.bit(0x30);
    assert!(!regs.get_flag(CpuFlags::V));
    regs.bit(0x40);
    assert!(regs.get_flag(CpuFlags::V));
}

#[test]
fn shifts_truth_table() {
    for value in BOUNDARY {
        for carry in [false, true] {
            assert_eq!(shift_left(value, carry), (value << 1) | carry as u8);
            assert_eq!(shift_right(value, carry), (value >> 1) | (carry as u8) << 7);

            let mut regs = registers(0, !carry);
            let shifted = regs.left(value, carry);
            assert_eq!(shifted, (value << 1) | carry as u8);
            assert_eq!(nvzc(&regs), (shifted & 0x80 != 0, false, shifted == 0, value & 0x80 != 0));

            let mut regs = registers(0, !carry);
            let shifted = regs.right(value, carry);
            assert_eq!(shifted, (value >> 1) | (carry as u8) << 7);
            assert_eq!(nvzc(&regs), (shifted & 0x80 != 0, false, shifted == 0, value & 1 != 0));
        }
    }
}

#[test]
fn shift_exact_values() {
    assert_eq!(shift_left(0x81, false), 0x02);
    assert_eq!(shift_left(0x81, true), 0x03);
    assert_eq!(shift_right(0x81, false), 0x40);
    assert_eq!(shift_right(0x81, true), 0xC0);
}

#[test]
fn loads_set_z_and_n() {
    for m in BOUNDARY {
        let mut regs = registers(0x55, true);
        regs.lda(m);
        assert_eq!(regs.a, m);
        assert_eq!(nvzc(&regs), (m & 0x80 != 0, false, m == 0, true));
        let mut regs = registers(0x55, true);
        regs.ldx(m);
        assert_eq!((regs.a, regs.x), (0x55, m));
        assert_eq!(nvzc(&regs), (m & 0x80 != 0, false, m == 0, true));
        let mut regs = registers(0x55, true);
        regs.ldy(m);
        assert_eq!((regs.a, regs.y), (0x55, m));
        assert_eq!(nvzc(&regs), (m & 0x80 != 0, false, m == 0, true));
    }
}

#[test]
fn stack_pointer_wraps_both_ways() {
    let mut regs = registers(0, false);
    regs.sp = 0x00;
    regs.push();
    assert_eq!(regs.sp, 0xFF);
    regs.pull();
    assert_eq!(regs.sp, 0x00);
    regs.sp = 0x80;
    regs.push();
    assert_eq!(regs.sp, 0x7F);
}

#[test]
fn words_and_bytes() {
    assert_eq!(make_word(0x34, 0x12), 0x1234);
    assert_eq!(make_word(0xFF, 0xFF), 0xFFFF);
    assert_eq!(high_byte(0x1234), 0x12);
    assert_eq!(low_byte(0x1234), 0x34);
    assert_eq!(stack_address(0x00), 0x0100);
    assert_eq!(stack_address(0xFD), 0x01FD);
    assert_eq!(stack_address(0xFF), 0x01FF);
}
