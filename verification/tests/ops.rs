use nesferratu_core::cpu::instructions::ops::{
    adc_address, adc_immediate, and_address, and_immediate, asl_address, asl_implied,
    bcc_address, bcs_address, beq_address, bit_address, bmi_address, bne_address, bpl_address,
    brk_implied, bvc_address, bvs_address, clc_implied, cld_implied, cli_implied, clv_implied,
    cmp_address, cmp_immediate, cpx_address, cpx_immediate, cpy_address, cpy_immediate,
    dec_address, dex_implied, dey_implied, eor_address, eor_immediate, inc_address, interrupt,
    inx_implied, iny_implied, jmp_address, jsr_address, lda_address, lda_immediate, ldx_address,
    ldx_immediate, ldy_address, ldy_immediate, lsr_address, lsr_implied, nop_implied,
    ora_address, ora_immediate, pha_implied, php_implied, pla_implied, plp_implied, reset,
    rol_address, rol_implied, ror_address, ror_implied, rti_implied, rts_implied, sbc_address,
    sbc_immediate, sec_implied, sed_implied, sei_implied, sta_address, stx_address, sty_address,
    tax_implied, tay_implied, tsx_implied, txa_implied, txs_implied, tya_implied,
};
use nesferratu_core::cpu::{CpuFlags, CpuRegisters, CpuState};
use nesferratu_core::BusMessage;
use nesferratu_core::BusMessage::{Nop, Read, Write};

const C: u8 = 0x01;
const Z: u8 = 0x02;
const I: u8 = 0x04;
const D: u8 = 0x08;
const B: u8 = 0x10;
const V: u8 = 0x40;
const N: u8 = 0x80;

fn state() -> CpuState {
    CpuState {
        regs: CpuRegisters { a: 0x10, x: 0x20, y: 0x30, sp: 0xFD, pc: 0x8003, status: 0x20 },
        op: 0xA1,
        o1: 0xB2,
        o2: 0xC3,
        addr: 0xD4E5,
        data: 0x00,
        extra_cycle: false,
    }
}

fn with_data(data: u8) -> CpuState {
    CpuState { data, ..state() }
}

type Implied = fn(&mut CpuState, u8) -> BusMessage;
type Immediate = fn(&mut CpuState, u8, u8) -> BusMessage;
type Address = fn(&mut CpuState, u16, u8) -> BusMessage;

/// A routine that works on registers alone does so on its first call
/// and is idle on every other.
fn acts_once(routine: Implied, before: CpuState, after: CpuState) {
    for cycle in [0u8, 2, 3, 8, 255] {
        let mut s = before;
        assert_eq!(routine(&mut s, cycle), Nop);
        assert_eq!(s, before, "cycle {}", cycle);
    }
    let mut s = before;
    assert_eq!(routine(&mut s, 1), Nop);
    assert_eq!(s, after);
}

/// A routine that reads its operand asks for it on its first call,
/// works on the delivered byte on its second, and is idle after that.
fn acts_on_fetched(routine: Address, before: CpuState, after: CpuState) {
    let mut s = before;
    assert_eq!(routine(&mut s, 0x1234, 1), Read { addr: 0x1234 });
    assert_eq!(s, before);
    assert_eq!(routine(&mut s, 0x1234, 2), Nop);
    assert_eq!(s, after);
    for cycle in [0u8, 3, 4, 255] {
        let mut s = before;
        assert_eq!(routine(&mut s, 0x1234, cycle), Nop);
        assert_eq!(s, before, "cycle {}", cycle);
    }
}

fn acts_on_immediate(routine: Immediate, before: CpuState, operand: u8, after: CpuState) {
    let mut s = before;
    assert_eq!(routine(&mut s, operand, 1), Nop);
    assert_eq!(s, after);
    let mut s = before;
    assert_eq!(routine(&mut s, operand, 2), Nop);
    assert_eq!(s, before);
}

fn regs(s: CpuState, change: impl Fn(&mut CpuRegisters)) -> CpuState {
    let mut s = s;
    change(&mut s.regs);
    s
}

#[test]
fn loads() {
    acts_on_immediate(lda_immediate, state(), 0x80, regs(state(), |r| { r.a = 0x80; r.status |= N }));
    acts_on_immediate(ldx_immediate, state(), 0x00, regs(state(), |r| { r.x = 0x00; r.status |= Z }));
    acts_on_immediate(ldy_immediate, state(), 0x7F, regs(state(), |r| r.y = 0x7F));
    acts_on_fetched(lda_address, with_data(0x00), regs(with_data(0x00), |r| { r.a = 0; r.status |= Z }));
    acts_on_fetched(ldx_address, with_data(0x81), regs(with_data(0x81), |r| { r.x = 0x81; r.status |= N }));
    acts_on_fetched(ldy_address, with_data(0x01), regs(with_data(0x01), |r| r.y = 0x01));
}

#[test]
fn loads_clear_stale_flags() {
    let before = regs(state(), |r| r.status |= N | Z);
    acts_on_immediate(lda_immediate, before, 0x01, regs(state(), |r| r.a = 0x01));
}

#[test]
fn stores_take_one_cycle() {
    for (routine, value) in [(sta_address as Address, 0x10u8), (stx_address, 0x20), (sty_address, 0x30)] {
        let mut s = state();
        assert_eq!(routine(&mut s, 0x0200, 1), Write { addr: 0x0200, data: value });
        assert_eq!(routine(&mut s, 0x0200, 2), Nop);
        assert_eq!(routine(&mut s, 0x0200, 0), Nop);
        assert_eq!(s, state());
    }
}

#[test]
fn adc_both_forms() {
    let before = regs(state(), |r| r.a = 0x7F);
    let after = regs(state(), |r| { r.a = 0x80; r.status |= N | V });
    acts_on_immediate(adc_immediate, before, 0x01, after);
    acts_on_fetched(adc_address, CpuState { data: 0x01, ..before }, CpuState { data: 0x01, ..after });

    let before = regs(state(), |r| { r.a = 0xFF; r.status |= C });
    let after = regs(state(), |r| { r.a = 0x00; r.status |= C | Z });
    acts_on_immediate(adc_immediate, before, 0x00, after);
}

#[test]
fn sbc_both_forms() {
    let before = regs(state(), |r| { r.a = 0x50; r.status |= C });
    let after = regs(state(), |r| { r.a = 0x20; r.status |= C });
    acts_on_immediate(sbc_immediate, before, 0x30, after);
    acts_on_fetched(sbc_address, CpuState { data: 0x30, ..before }, CpuState { data: 0x30, ..after });

    // Without carry one more is taken away, and the borrow clears C.
    let before = regs(state(), |r| r.a = 0x00);
    let after = regs(state(), |r| { r.a = 0xFF; r.status |= N });
    acts_on_immediate(sbc_immediate, before, 0x00, after);
}

#[test]
fn logic_both_forms() {
    let before = regs(state(), |r| r.a = 0xF0);
    acts_on_immediate(and_immediate, before, 0x3C, regs(state(), |r| r.a = 0x30));
    acts_on_immediate(and_immediate, before, 0x0F, regs(state(), |r| { r.a = 0x00; r.status |= Z }));
    acts_on_immediate(ora_immediate, before, 0x0F, regs(state(), |r| { r.a = 0xFF; r.status |= N }));
    acts_on_immediate(eor_immediate, before, 0xFF, regs(state(), |r| r.a = 0x0F));
    let before = CpuState { data: 0x81, ..before };
    acts_on_fetched(and_address, before, regs(before, |r| { r.a = 0x80; r.status |= N }));
    acts_on_fetched(ora_address, before, regs(before, |r| { r.a = 0xF1; r.status |= N }));
    acts_on_fetched(eor_address, before, regs(before, |r| r.a = 0x71));
}

#[test]
fn compares() {
    // Equal: Z and C. Register above: C. Register below: N from the
    // difference.
    acts_on_immediate(cmp_immediate, state(), 0x10, regs(state(), |r| r.status |= Z | C));
    acts_on_immediate(cmp_immediate, state(), 0x0F, regs(state(), |r| r.status |= C));
    acts_on_immediate(cmp_immediate, state(), 0x11, regs(state(), |r| r.status |= N));
    acts_on_immediate(cpx_immediate, state(), 0x20, regs(state(), |r| r.status |= Z | C));
    acts_on_immediate(cpx_immediate, state(), 0x21, regs(state(), |r| r.status |= N));
    acts_on_immediate(cpy_immediate, state(), 0x30, regs(state(), |r| r.status |= Z | C));
    acts_on_immediate(cpy_immediate, state(), 0x2F, regs(state(), |r| r.status |= C));
    acts_on_fetched(cmp_address, with_data(0x10), regs(with_data(0x10), |r| r.status |= Z | C));
    acts_on_fetched(cpx_address, with_data(0x90), regs(with_data(0x90), |r| r.status |= N));
    acts_on_fetched(cpy_address, with_data(0x01), regs(with_data(0x01), |r| r.status |= C));
}

#[test]
fn cpy_immediate_compares_with_its_operand() {
    // The byte on the data latch plays no part.
    let before = with_data(0x30);
    acts_on_immediate(cpy_immediate, before, 0x31, regs(before, |r| r.status |= N));
}

#[test]
fn bit_test() {
    acts_on_fetched(bit_address, with_data(0xC0), regs(with_data(0xC0), |r| r.status |= N | V | Z));
    acts_on_fetched(bit_address, with_data(0x50), regs(with_data(0x50), |r| r.status |= V));
    acts_on_fetched(bit_address, with_data(0x30), with_data(0x30));
    acts_on_fetched(bit_address, with_data(0x0F), regs(with_data(0x0F), |r| r.status |= Z));
}

#[test]
fn shifts_of_the_accumulator() {
    let before = regs(state(), |r| r.a = 0x81);
    acts_once(asl_implied, before, regs(state(), |r| { r.a = 0x02; r.status |= C }));
    acts_once(lsr_implied, before, regs(state(), |r| { r.a = 0x40; r.status |= C }));
    acts_once(rol_implied, before, regs(state(), |r| { r.a = 0x02; r.status |= C }));
    acts_once(ror_implied, before, regs(state(), |r| { r.a = 0x40; r.status |= C }));
    let carried = regs(before, |r| r.status |= C);
    acts_once(rol_implied, carried, regs(state(), |r| { r.a = 0x03; r.status |= C }));
    acts_once(ror_implied, carried, regs(state(), |r| { r.a = 0xC0; r.status |= C | N }));
    let small = regs(state(), |r| { r.a = 0x40; r.status |= C });
    acts_once(asl_implied, small, regs(state(), |r| { r.a = 0x80; r.status |= N }));
    acts_once(rol_implied, small, regs(state(), |r| { r.a = 0x81; r.status |= N }));
    let one = regs(state(), |r| r.a = 0x01);
    acts_once(lsr_implied, one, regs(state(), |r| { r.a = 0x00; r.status |= C | Z }));
}

#[test]
fn shifts_of_memory() {
    for (routine, carry, result, flags) in [
        (asl_address as Address, true, 0x02u8, C),
        (lsr_address, true, 0x40, C),
        (rol_address, true, 0x03, C),
        (ror_address, true, 0xC0, C | N),
        (rol_address, false, 0x02, C),
        (ror_address, false, 0x40, C),
    ] {
        let before = regs(with_data(0x81), |r| r.status |= carry as u8);
        let mut s = before;
        assert_eq!(routine(&mut s, 0x0200, 1), Read { addr: 0x0200 });
        assert_eq!(s, before);
        assert_eq!(routine(&mut s, 0x0200, 2), Write { addr: 0x0200, data: result });
        assert_eq!(s, regs(with_data(result), |r| r.status |= flags));
        let after = s;
        assert_eq!(routine(&mut s, 0x0200, 3), Nop);
        assert_eq!(s, after);
    }
}

#[test]
fn counts_of_memory() {
    for (routine, data, result, flags) in [
        (inc_address as Address, 0xFFu8, 0x00u8, Z),
        (inc_address, 0x7F, 0x80, N),
        (inc_address, 0x00, 0x01, 0),
        (dec_address, 0x00, 0xFF, N),
        (dec_address, 0x01, 0x00, Z),
        (dec_address, 0x80, 0x7F, 0),
    ] {
        let before = with_data(data);
        let mut s = before;
        assert_eq!(routine(&mut s, 0x0200, 1), Read { addr: 0x0200 });
        assert_eq!(s, before);
        assert_eq!(routine(&mut s, 0x0200, 2), Nop);
        assert_eq!(s, regs(with_data(result), |r| r.status |= flags));
        let after = s;
        assert_eq!(routine(&mut s, 0x0200, 3), Write { addr: 0x0200, data: result });
        assert_eq!(s, after);
        assert_eq!(routine(&mut s, 0x0200, 4), Nop);
        assert_eq!(s, after);
    }
}

#[test]
fn counts_of_registers() {
    acts_once(inx_implied, state(), regs(state(), |r| r.x = 0x21));
    acts_once(iny_implied, state(), regs(state(), |r| r.y = 0x31));
    acts_once(dex_implied, state(), regs(state(), |r| r.x = 0x1F));
    acts_once(dey_implied, state(), regs(state(), |r| r.y = 0x2F));
    let top = regs(state(), |r| { r.x = 0xFF; r.y = 0xFF });
    acts_once(inx_implied, top, regs(top, |r| { r.x = 0; r.status |= Z }));
    acts_once(iny_implied, top, regs(top, |r| { r.y = 0; r.status |= Z }));
    let bottom = regs(state(), |r| { r.x = 0; r.y = 0 });
    acts_once(dex_implied, bottom, regs(bottom, |r| { r.x = 0xFF; r.status |= N }));
    acts_once(dey_implied, bottom, regs(bottom, |r| { r.y = 0xFF; r.status |= N }));
}

#[test]
fn transfers() {
    let before = regs(state(), |r| { r.a = 0x80; r.x = 0x00; r.y = 0x7F; r.sp = 0xF0 });
    acts_once(tax_implied, before, regs(before, |r| { r.x = 0x80; r.status |= N }));
    acts_once(tay_implied, before, regs(before, |r| { r.y = 0x80; r.status |= N }));
    acts_once(txa_implied, before, regs(before, |r| { r.a = 0x00; r.status |= Z }));
    acts_once(tya_implied, before, regs(before, |r| r.a = 0x7F));
    acts_once(tsx_implied, before, regs(before, |r| { r.x = 0xF0; r.status |= N }));
}

#[test]
fn txs_leaves_the_flags_alone() {
    let before = regs(state(), |r| { r.x = 0x00; r.status |= N });
    acts_once(txs_implied, before, regs(before, |r| r.sp = 0x00));
    let before = regs(state(), |r| r.x = 0x80);
    acts_once(txs_implied, before, regs(before, |r| r.sp = 0x80));
}

#[test]
fn flag_instructions() {
    let all = regs(state(), |r| r.status = 0xFF);
    acts_once(clc_implied, all, regs(all, |r| r.status = 0xFF & !C));
    acts_once(cli_implied, all, regs(all, |r| r.status = 0xFF & !I));
    acts_once(cld_implied, all, regs(all, |r| r.status = 0xFF & !D));
    acts_once(clv_implied, all, regs(all, |r| r.status = 0xFF & !V));
    let none = regs(state(), |r| r.status = 0x00);
    acts_once(sec_implied, none, regs(none, |r| r.status = C));
    acts_once(sei_implied, none, regs(none, |r| r.status = I));
    acts_once(sed_implied, none, regs(none, |r| r.status = D));
    acts_once(sec_implied, all, all);
    acts_once(clc_implied, none, none);
}

#[test]
fn nop_does_nothing() {
    for cycle in 0..=255u8 {
        let mut s = state();
        assert_eq!(nop_implied(&mut s, cycle), Nop);
        assert_eq!(s, state());
    }
}

#[test]
fn pushes() {
    let mut s = state();
    assert_eq!(pha_implied(&mut s, 1), Write { addr: 0x01FD, data: 0x10 });
    assert_eq!(s, state());
    assert_eq!(pha_implied(&mut s, 2), Nop);
    assert_eq!(s, regs(state(), |r| r.sp = 0xFC));
    assert_eq!(pha_implied(&mut s, 3), Nop);
    assert_eq!(s, regs(state(), |r| r.sp = 0xFC));

    let mut s = regs(state(), |r| r.status = 0xA5);
    assert_eq!(php_implied(&mut s, 1), Write { addr: 0x01FD, data: 0xA5 });
    assert_eq!(php_implied(&mut s, 2), Nop);
    assert_eq!(s.regs.sp, 0xFC);
    assert_eq!(s.regs.status, 0xA5);
}

#[test]
fn push_with_sp_zero_wraps() {
    let mut s = regs(state(), |r| r.sp = 0x00);
    assert_eq!(pha_implied(&mut s, 1), Write { addr: 0x0100, data: 0x10 });
    assert_eq!(pha_implied(&mut s, 2), Nop);
    assert_eq!(s.regs.sp, 0xFF);
}

#[test]
fn pulls() {
    let mut s = regs(state(), |r| { r.sp = 0xFC; r.status |= N });
    assert_eq!(pla_implied(&mut s, 1), Read { addr: 0x01FD });
    assert_eq!(s.regs.sp, 0xFD);
    s.data = 0x00;
    assert_eq!(pla_implied(&mut s, 2), Nop);
    assert_eq!(s.regs.a, 0x00);
    // The flags stay as they were.
    assert_eq!(s.regs.status, 0x20 | N);
    assert_eq!(pla_implied(&mut s, 3), Nop);
    assert_eq!(s.regs.sp, 0xFD);

    let mut s = regs(state(), |r| r.sp = 0xFF);
    assert_eq!(plp_implied(&mut s, 1), Read { addr: 0x0100 });
    assert_eq!(s.regs.sp, 0x00);
    s.data = 0xDB;
    assert_eq!(plp_implied(&mut s, 2), Nop);
    assert_eq!(s.regs.status, 0xDB);
    assert_eq!(s.regs.a, 0x10);
}

#[test]
fn jmp() {
    acts_on_nothing_but_pc(jmp_address, 0x1234);
}

fn acts_on_nothing_but_pc(routine: Address, target: u16) {
    let mut s = state();
    assert_eq!(routine(&mut s, target, 1), Nop);
    assert_eq!(s, regs(state(), |r| r.pc = target));
    let mut s = state();
    assert_eq!(routine(&mut s, target, 2), Nop);
    assert_eq!(s, state());
}

#[test]
fn jsr() {
    let mut s = state();
    assert_eq!(jsr_address(&mut s, 0x9000, 1), Write { addr: 0x01FD, data: 0x80 });
    assert_eq!(s, state());
    assert_eq!(jsr_address(&mut s, 0x9000, 2), Write { addr: 0x01FC, data: 0x02 });
    assert_eq!(s, regs(state(), |r| r.sp = 0xFC));
    assert_eq!(jsr_address(&mut s, 0x9000, 3), Nop);
    assert_eq!(s, regs(state(), |r| { r.sp = 0xFB; r.pc = 0x9000 }));
    let after = s;
    assert_eq!(jsr_address(&mut s, 0x9000, 4), Nop);
    assert_eq!(s, after);
}

#[test]
fn jsr_at_the_bottom_of_memory() {
    let mut s = regs(state(), |r| r.pc = 0x0000);
    assert_eq!(jsr_address(&mut s, 0x9000, 1), Write { addr: 0x01FD, data: 0xFF });
    assert_eq!(jsr_address(&mut s, 0x9000, 2), Write { addr: 0x01FC, data: 0xFF });
}

#[test]
fn rts() {
    let mut s = regs(state(), |r| r.sp = 0xFB);
    assert_eq!(rts_implied(&mut s, 1), Read { addr: 0x01FC });
    s.data = 0x02;
    assert_eq!(rts_implied(&mut s, 2), Read { addr: 0x01FD });
    assert_eq!(s.regs.pc, 0x0002);
    s.data = 0x80;
    assert_eq!(rts_implied(&mut s, 3), Nop);
    assert_eq!(s.regs.pc, 0x8002);
    assert_eq!(rts_implied(&mut s, 4), Nop);
    assert_eq!(s.regs.pc, 0x8003);
    assert_eq!(rts_implied(&mut s, 5), Nop);
    assert_eq!(rts_implied(&mut s, 6), Nop);
    assert_eq!(s.regs, CpuRegisters { pc: 0x8003, ..state().regs });
}

#[test]
fn rts_to_the_top_of_memory_wraps() {
    let mut s = regs(state(), |r| r.pc = 0xFFFF);
    assert_eq!(rts_implied(&mut s, 4), Nop);
    assert_eq!(s.regs.pc, 0x0000);
}

#[test]
fn rti() {
    let mut s = regs(state(), |r| r.sp = 0xFA);
    assert_eq!(rti_implied(&mut s, 1), Read { addr: 0x01FB });
    s.data = 0xE3;
    assert_eq!(rti_implied(&mut s, 2), Read { addr: 0x01FC });
    assert_eq!(s.regs.status, 0xE3);
    s.data = 0x34;
    assert_eq!(rti_implied(&mut s, 3), Read { addr: 0x01FD });
    s.data = 0x12;
    assert_eq!(rti_implied(&mut s, 4), Nop);
    assert_eq!(s.regs, CpuRegisters { pc: 0x1234, status: 0xE3, sp: 0xFD, ..state().regs });
    assert_eq!(rti_implied(&mut s, 5), Nop);
    assert_eq!(s.regs.pc, 0x1234);
}

#[test]
fn brk() {
    let mut s = regs(state(), |r| r.status = 0x21);
    assert_eq!(brk_implied(&mut s, 1), Write { addr: 0x01FD, data: 0x80 });
    assert_eq!(brk_implied(&mut s, 2), Write { addr: 0x01FC, data: 0x04 });
    assert_eq!(brk_implied(&mut s, 3), Write { addr: 0x01FB, data: 0x21 | B });
    assert_eq!(s.regs.status, 0x21);
    assert_eq!(brk_implied(&mut s, 4), Read { addr: 0xFFFE });
    assert_eq!(s.regs.sp, 0xFA);
    s.data = 0xCD;
    assert_eq!(brk_implied(&mut s, 5), Read { addr: 0xFFFF });
    s.data = 0xAB;
    assert_eq!(brk_implied(&mut s, 6), Nop);
    assert_eq!(s.regs.pc, 0xABCD);
    assert_eq!(brk_implied(&mut s, 7), Nop);
    assert_eq!(s.regs, CpuRegisters { pc: 0xABCD, sp: 0xFA, status: 0x21, ..state().regs });
}

#[test]
fn branches_test_their_flag() {
    for (routine, mask, wanted) in [
        (bpl_address as Address, N, false),
        (bmi_address, N, true),
        (bvc_address, V, false),
        (bvs_address, V, true),
        (bcc_address, C, false),
        (bcs_address, C, true),
        (bne_address, Z, false),
        (beq_address, Z, true),
    ] {
        for set in [false, true] {
            let before = regs(state(), |r| {
                if set {
                    r.status = mask | 0x20
                } else {
                    r.status = !mask
                }
            });
            let mut s = before;
            assert_eq!(routine(&mut s, 0x8010, 1), Nop);
            assert_eq!(s, CpuState { extra_cycle: set == wanted, ..before });
        }
    }
}

#[test]
fn branches_jump_on_their_second_call() {
    for routine in [
        bpl_address as Address,
        bmi_address,
        bvc_address,
        bvs_address,
        bcc_address,
        bcs_address,
        bne_address,
        beq_address,
    ] {
        let mut s = state();
        assert_eq!(routine(&mut s, 0x80FF, 2), Nop);
        assert_eq!(s, regs(state(), |r| r.pc = 0x80FF));
        let mut s = state();
        assert_eq!(routine(&mut s, 0x8100, 2), Nop);
        assert_eq!(s, CpuState { extra_cycle: true, ..regs(state(), |r| r.pc = 0x8100) });
        let mut s = state();
        assert_eq!(routine(&mut s, 0x7FFF, 2), Nop);
        assert_eq!(s, CpuState { extra_cycle: true, ..regs(state(), |r| r.pc = 0x7FFF) });
        let mut s = state();
        assert_eq!(routine(&mut s, 0x8100, 3), Nop);
        assert_eq!(s, state());
    }
}

#[test]
fn reset_sequence() {
    let mut s = regs(state(), |r| r.status = 0x20 | C);
    for cycle in 0..6 {
        assert_eq!(reset(&mut s, 0xFFFC, cycle), Nop);
        assert_eq!(s, regs(state(), |r| r.status = 0x20 | C));
    }
    assert_eq!(reset(&mut s, 0xFFFC, 6), Read { addr: 0xFFFC });
    assert!(s.regs.get_flag(CpuFlags::I));
    s.data = 0x34;
    assert_eq!(reset(&mut s, 0xFFFC, 7), Read { addr: 0xFFFD });
    assert_eq!(s.regs.pc, 0x8003);
    s.data = 0x12;
    assert_eq!(reset(&mut s, 0xFFFC, 8), Read { addr: 0x1234 });
    assert_eq!(s.regs, CpuRegisters { a: 0, x: 0, y: 0, sp: 0xFD, pc: 0x1234, status: 0x24 });
    assert_eq!((s.op, s.o1, s.o2), (0, 0, 0));
}

#[test]
fn interrupt_sequence() {
    let mut s = regs(state(), |r| r.status = 0x20 | B | C);
    for cycle in 0..3 {
        assert_eq!(interrupt(&mut s, 0xFFFA, cycle), Nop);
    }
    assert_eq!(interrupt(&mut s, 0xFFFA, 3), Write { addr: 0x01FD, data: 0x80 });
    assert_eq!(interrupt(&mut s, 0xFFFA, 4), Write { addr: 0x01FC, data: 0x03 });
    assert_eq!(interrupt(&mut s, 0xFFFA, 5), Write { addr: 0x01FB, data: 0x20 | C });
    assert_eq!(s.regs.status, 0x20 | B | C);
    assert_eq!(interrupt(&mut s, 0xFFFA, 6), Read { addr: 0xFFFA });
    assert_eq!(s.regs.sp, 0xFA);
    s.data = 0x78;
    assert_eq!(interrupt(&mut s, 0xFFFA, 7), Read { addr: 0xFFFB });
    assert!(s.regs.get_flag(CpuFlags::I));
    s.data = 0x56;
    assert_eq!(interrupt(&mut s, 0xFFFA, 8), Read { addr: 0x5678 });
    assert_eq!(
        s.regs,
        CpuRegisters { pc: 0x5678, sp: 0xFA, status: 0x20 | B | C | I, ..state().regs }
    );
}
