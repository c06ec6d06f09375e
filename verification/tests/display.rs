use nesferratu_core::cpu::CpuRegisters;

/// The box as the formatting of the standard library makes it.
fn expected(regs: &CpuRegisters) -> String {
    let pc = format!("({})", regs.pc);
    let sp = format!("({})", regs.sp);
    let a = format!("({})", regs.a);
    let x = format!("({})", regs.x);
    let y = format!("({})", regs.y);
    let mut bullets = String::new();
    for i in 0..8 {
        if i == 2 {
            bullets.push('-');
        } else if regs.status >> i & 1 == 1 {
            bullets.push('●');
        } else {
            bullets.push('○');
        }
    }
    let mut text = String::new();
    text.push_str("┌──────┬────────────────────────┬────────────────┬─────────────────┐\n");
    text.push_str(&format!(
        "│ CPU  │ PC: 0x{:04X}     {:>7} │ SP: 0x{:02X} {:>5} │ Flags: NV-BDIZC │\n",
        regs.pc, pc, regs.sp, sp
    ));
    text.push_str(&format!(
        "├──────┴────────┬───────────────┼────────────────┤        {} │\n",
        bullets
    ));
    text.push_str(&format!(
        "│ A: 0x{:02X} {:>5} │ X: 0x{:02X} {:>5} │  Y: 0x{:02X} {:>5} │        {:08b} │\n",
        regs.a, a, regs.x, x, regs.y, y, regs.status
    ));
    text.push_str("└───────────────┴───────────────┴────────────────┴─────────────────┘");
    text
}

#[test]
fn registers_after_reset() {
    let regs = CpuRegisters { a: 0, x: 0, y: 0, sp: 0xFD, pc: 0x8000, status: 0x24 };
    assert_eq!(
        regs.to_text(),
        "┌──────┬────────────────────────┬────────────────┬─────────────────┐\n\
         │ CPU  │ PC: 0x8000     (32768) │ SP: 0xFD (253) │ Flags: NV-BDIZC │\n\
         ├──────┴────────┬───────────────┼────────────────┤        ○○-○○●○○ │\n\
         │ A: 0x00   (0) │ X: 0x00   (0) │  Y: 0x00   (0) │        00100100 │\n\
         └───────────────┴───────────────┴────────────────┴─────────────────┘"
    );
}

#[test]
fn registers_of_every_width() {
    for (a, x, y, sp, pc, status) in [
        (0u8, 0u8, 0u8, 0u8, 0u16, 0u8),
        (9, 10, 99, 100, 9, 0xFF),
        (255, 128, 127, 1, 10, 0x01),
        (1, 2, 3, 4, 99, 0x80),
        (0x42, 0x5A, 0xA5, 0xFF, 100, 0x55),
        (7, 70, 170, 17, 999, 0xAA),
        (0, 0, 0, 0, 1000, 0x04),
        (0, 0, 0, 0, 9999, 0x20),
        (0, 0, 0, 0, 10000, 0x24),
        (0, 0, 0, 0, 65535, 0xDB),
    ] {
        let regs = CpuRegisters { a, x, y, sp, pc, status };
        assert_eq!(regs.to_text(), expected(&regs));
    }
}

#[test]
fn every_status_byte() {
    for status in 0..=255u8 {
        let regs = CpuRegisters { a: 1, x: 22, y: 233, sp: 0xFD, pc: 0x1234, status };
        assert_eq!(regs.to_text(), expected(&regs));
    }
}

/// The dump as printing it byte by byte makes it.
fn printed(bytes: &[u8], start: usize, len: usize, title_text: Option<&str>) -> String {
    let len = if len > bytes.len() - start {
        bytes.len() - start
    } else {
        len
    };
    let title = title_text.unwrap_or_default();
    let mut out = String::new();
    out.push_str("┌──────┬─────────────────────────────────────────────────┬──────────────────┐\n");
    out.push_str(&format!(
        "│ Hex  │ 00 01 02 03 04 05 06 07 08 09 0A 0B 0C 0D 0E 0F │ {:^16.16} │\n",
        title
    ));
    out.push_str("├──────┼─────────────────────────────────────────────────┼──────────────────┤\n");
    let mut col = 0;
    let mut s = String::new();
    for (i, b) in bytes[start..start + len].iter().enumerate() {
        if i % 0x10 == 0 {
            out.push_str(&format!("│ {:04X} │ ", start + i));
        }
        out.push_str(&format!("{:02X} ", b));
        let c = *b as char;
        if c.is_ascii_graphic() || c == ' ' {
            s.push(c);
        } else {
            s.push('.');
        }
        col = i & 0xF;
        if col == 0xF {
            out.push_str(&format!("│ {} │\n", s));
            s.clear();
        }
    }
    if col < 0xF {
        while col < 0xF {
            out.push_str("   ");
            col += 1;
        }
        while s.len() <= 0xF {
            s.push(' ');
        }
        out.push_str(&format!("│ {} │\n", s));
    }
    out.push_str("└──────┴─────────────────────────────────────────────────┴──────────────────┘");
    out
}

#[test]
fn a_dump_of_one_row() {
    let bytes: Vec<u8> = (0..16).map(|i| 0x41 + i).collect();
    assert_eq!(
        nesferratu_core::debugger::hexdump::hex_dump(&bytes, 0, 16, Some("RAM")),
        "┌──────┬─────────────────────────────────────────────────┬──────────────────┐\n\
         │ Hex  │ 00 01 02 03 04 05 06 07 08 09 0A 0B 0C 0D 0E 0F │       RAM        │\n\
         ├──────┼─────────────────────────────────────────────────┼──────────────────┤\n\
         │ 0000 │ 41 42 43 44 45 46 47 48 49 4A 4B 4C 4D 4E 4F 50 │ ABCDEFGHIJKLMNOP │\n\
         └──────┴─────────────────────────────────────────────────┴──────────────────┘"
    );
}

#[test]
fn dumps_of_every_shape() {
    let bytes: Vec<u8> = (0..600u32).map(|i| (i * 7 % 256) as u8).collect();
    for (start, len) in [
        (0usize, 0usize),
        (0, 1),
        (0, 15),
        (0, 16),
        (0, 17),
        (0, 32),
        (0, 33),
        (5, 40),
        (16, 16),
        (255, 3),
        (300, 300),
        (300, 1000),
        (599, 1),
        (599, 5),
        (600, 0),
        (600, 9),
        (0, usize::MAX),
    ] {
        for title in [None, Some(""), Some("x"), Some("Work RAM"), Some("exactly sixteen!"),
            Some("a title that is far too long"), Some("ünïcödé"), Some("fifteen chars!!")]
        {
            assert_eq!(
                nesferratu_core::debugger::hexdump::hex_dump(&bytes, start, len, title),
                printed(&bytes, start, len, title),
                "start {} len {} title {:?}",
                start,
                len,
                title
            );
        }
    }
}

#[test]
fn every_byte_as_a_character() {
    let bytes: Vec<u8> = (0..=255).collect();
    assert_eq!(
        nesferratu_core::debugger::hexdump::hex_dump(&bytes, 0, 256, None),
        printed(&bytes, 0, 256, None)
    );
}

#[test]
fn addresses_beyond_four_digits() {
    let bytes = vec![0u8; 0x1_0020];
    assert_eq!(
        nesferratu_core::debugger::hexdump::hex_dump(&bytes, 0xFFF8, 0x28, Some("far")),
        printed(&bytes, 0xFFF8, 0x28, Some("far"))
    );
}
