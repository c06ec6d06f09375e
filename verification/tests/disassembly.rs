use nesferratu_core::cpu::instructions::{
    irq_instruction, reset_instruction, Instruction, Opcode, Operand,
};
use nesferratu_core::debugger::disasm::disassemble;

fn line(pc: u16, opcode: Opcode, operand: Operand, raw: &[u8]) -> String {
    let entry = opcode.to_instruction();
    disassemble(pc, (Some(&entry), Some(&operand)), &raw.to_vec())
}

/// The line as the formatting of the standard library makes it.
fn expected(pc: u16, entry: &Instruction, raw: &[u8], operand: &str) -> String {
    let mut bytes = String::new();
    for b in raw {
        bytes.push_str(&format!("{:02X} ", b));
    }
    format!(
        "{:#04X} │ {:<9}│ {}{}",
        pc.wrapping_sub(entry.bytes as u16),
        bytes,
        entry.mnemonic,
        operand
    )
}

#[test]
fn nothing_decoded_gives_an_empty_line() {
    assert_eq!(disassemble(0x8000, (None, None), &vec![0xA9, 0x42]), "");
    assert_eq!(disassemble(0x8000, (None, Some(&Operand::Implied)), &vec![]), "");
}

#[test]
fn immediate_load_line() {
    assert_eq!(
        line(0x8002, Opcode::LDA_imm, Operand::Immediate(0x42), &[0xA9, 0x42]),
        "0x8000 │ A9 42    │ LDA #$42 (66)"
    );
}

#[test]
fn lines_of_each_addressing_mode() {
    assert_eq!(
        line(0x8001, Opcode::INX_imp, Operand::Implied, &[0xE8]),
        "0x8000 │ E8       │ INX"
    );
    assert_eq!(
        line(0x8001, Opcode::ASL_acc, Operand::Implied, &[0x0A]),
        "0x8000 │ 0A       │ ASL"
    );
    assert_eq!(
        line(0x8003, Opcode::LDA_abs, Operand::Address(0x1234), &[0xAD, 0x34, 0x12]),
        "0x8000 │ AD 34 12 │ LDA $1234"
    );
    assert_eq!(
        line(0x8002, Opcode::LDA_zp, Operand::Address(0x0034), &[0xA5, 0x34]),
        "0x8000 │ A5 34    │ LDA $34"
    );
    assert_eq!(
        line(0x8002, Opcode::LDA_zp_x, Operand::Address(0x0035), &[0xB5, 0x34]),
        "0x8000 │ B5 34    │ LDA $35,X"
    );
    assert_eq!(
        line(0x8002, Opcode::LDX_zp_y, Operand::Address(0x0036), &[0xB6, 0x34]),
        "0x8000 │ B6 34    │ LDX $36,Y"
    );
    assert_eq!(
        line(0x8003, Opcode::LDA_abs_x, Operand::Address(0x1300), &[0xBD, 0xFF, 0x12]),
        "0x8000 │ BD FF 12 │ LDA $1300,X"
    );
    assert_eq!(
        line(0x8003, Opcode::STA_abs_x, Operand::Address(0x1300), &[0x9D, 0xFF, 0x12]),
        "0x8000 │ 9D FF 12 │ STA $1300,X"
    );
    assert_eq!(
        line(0x8003, Opcode::LDA_abs_y, Operand::Address(0x1301), &[0xB9, 0xFF, 0x12]),
        "0x8000 │ B9 FF 12 │ LDA $1301,Y"
    );
    assert_eq!(
        line(0x8003, Opcode::STA_abs_y, Operand::Address(0x1301), &[0x99, 0xFF, 0x12]),
        "0x8000 │ 99 FF 12 │ STA $1301,Y"
    );
    assert_eq!(
        line(0x8002, Opcode::LDA_ind_x, Operand::Address(0x5678), &[0xA1, 0x20]),
        "0x8000 │ A1 20    │ LDA ($5678,X)"
    );
    assert_eq!(
        line(0x8002, Opcode::LDA_ind_y, Operand::Address(0x1308), &[0xB1, 0x20]),
        "0x8000 │ B1 20    │ LDA ($1308),Y"
    );
    assert_eq!(
        line(0x8002, Opcode::STA_ind_y, Operand::Address(0x1308), &[0x91, 0x20]),
        "0x8000 │ 91 20    │ STA ($1308),Y"
    );
    assert_eq!(
        line(0xABCD, Opcode::JMP_ind, Operand::Address(0xABCD), &[0x6C, 0x34, 0x12]),
        "0xABCA │ 6C 34 12 │ JMP ($ABCD)"
    );
}

#[test]
fn branch_lines_show_offset_and_target() {
    assert_eq!(
        line(0x8102, Opcode::BEQ_rel, Operand::Address(0x8102), &[0xF0, 0x02]),
        "0x8100 │ F0 02    │ BEQ $02 (2)    ; => $8102"
    );
    assert_eq!(
        line(0x80FF, Opcode::BNE_rel, Operand::Address(0x80FF), &[0xD0, 0xFD]),
        "0x80FD │ D0 FD    │ BNE $FD (-3)    ; => $80FF"
    );
    assert_eq!(
        line(0x8002, Opcode::BPL_rel, Operand::Address(0x7F82), &[0x10, 0x80]),
        "0x8000 │ 10 80    │ BPL $80 (-128)    ; => $7F82"
    );
}

#[test]
fn every_offset_of_a_branch() {
    let entry = Opcode::BCC_rel.to_instruction();
    for offset in 0..=255u8 {
        let raw = [0x90, offset];
        let target = 0x8002u16.wrapping_add(offset as i8 as u16);
        let operand = format!(" ${:02X} ({})    ; => ${:04X}", offset as i8, offset as i8, target);
        assert_eq!(
            line(0x8002, Opcode::BCC_rel, Operand::Address(target), &raw),
            expected(0x8002, &entry, &raw, &operand)
        );
    }
}

#[test]
fn every_immediate_operand() {
    let entry = Opcode::ADC_imm.to_instruction();
    for value in 0..=255u8 {
        let raw = [0x69, value];
        let operand = format!(" #${:02X} ({})", value, value);
        assert_eq!(
            line(0x0002, Opcode::ADC_imm, Operand::Immediate(value), &raw),
            expected(0x0002, &entry, &raw, &operand)
        );
    }
}

#[test]
fn addresses_of_every_width() {
    let entry = Opcode::NOP_imp.to_instruction();
    for pc in [
        0x0000u16, 0x0001, 0x0002, 0x000A, 0x0010, 0x0011, 0x00FF, 0x0100, 0x0101, 0x0ABC,
        0x0FFF, 0x1000, 0x1001, 0x8000, 0xFFFF,
    ] {
        assert_eq!(
            line(pc, Opcode::NOP_imp, Operand::Implied, &[0xEA]),
            expected(pc, &entry, &[0xEA], "")
        );
    }
    assert_eq!(line(0x0000, Opcode::NOP_imp, Operand::Implied, &[0xEA]), "0xFFFF │ EA       │ NOP");
    assert_eq!(line(0x0006, Opcode::NOP_imp, Operand::Implied, &[0xEA]), "0x05 │ EA       │ NOP");
    assert_eq!(line(0x0124, Opcode::NOP_imp, Operand::Implied, &[0xEA]), "0x123 │ EA       │ NOP");
}

#[test]
fn operand_addresses_of_every_width() {
    let entry = Opcode::JMP_abs.to_instruction();
    for address in [0x0000u16, 0x0009, 0x000A, 0x00FF, 0x0100, 0x0FFF, 0x1000, 0x9ABC, 0xFFFF] {
        let raw = [0x4C, address as u8, (address >> 8) as u8];
        assert_eq!(
            line(0x8003, Opcode::JMP_abs, Operand::Address(address), &raw),
            expected(0x8003, &entry, &raw, &format!(" ${:04X}", address))
        );
        assert_eq!(
            line(0x8002, Opcode::LDA_zp, Operand::Address(address), &[0xA5, address as u8]),
            expected(
                0x8002,
                &Opcode::LDA_zp.to_instruction(),
                &[0xA5, address as u8],
                &format!(" ${:02X}", address as u8)
            )
        );
    }
}

#[test]
fn the_byte_column_is_nine_wide_or_as_wide_as_the_bytes() {
    let entry = Opcode::NOP_imp.to_instruction();
    for raw in [
        vec![],
        vec![0xEA],
        vec![0xEA, 0x01],
        vec![0xEA, 0x01, 0x02],
        vec![0xEA, 0x01, 0x02, 0x03],
        vec![0xEA, 0x01, 0x02, 0x03, 0x04, 0x05],
    ] {
        assert_eq!(
            disassemble(0x8001, (Some(&entry), Some(&Operand::Implied)), &raw),
            expected(0x8001, &entry, &raw, "")
        );
    }
}

#[test]
fn sequences_are_shown_with_their_vector() {
    let reset = reset_instruction();
    assert_eq!(
        disassemble(0x8000, (Some(&reset), Some(&Operand::Address(0xFFFC))), &vec![]),
        "0x8000 │          │ RESET $FFFC"
    );
    let irq = irq_instruction();
    assert_eq!(
        disassemble(0x9000, (Some(&irq), Some(&Operand::Address(0xFFFE))), &vec![]),
        "0x9000 │          │ IRQ $FFFE"
    );
}

#[test]
fn an_entry_without_operand() {
    let entry = Opcode::LDA_abs.to_instruction();
    assert_eq!(
        disassemble(0x8003, (Some(&entry), None), &vec![0xAD, 0x34, 0x12]),
        "0x8000 │ AD 34 12 │ LDA"
    );
}
