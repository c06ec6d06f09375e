//! The registers as a box of text, for a terminal.

use vstd::prelude::*;
use crate::cpu::CpuRegisters;
use crate::debugger::disasm::blanks;
use crate::debugger::numerals::{decimal, hex2, hex4, push_hex2, push_hex4, push_number};

verus! {

/// `n` in base ten, in round brackets.
pub open spec fn parenthesized(n: nat) -> Seq<char> {
    "("@ + decimal(n) + ")"@
}

/// `text`, with blanks in front of it up to `width` characters.
pub open spec fn right_aligned(text: Seq<char>, width: nat) -> Seq<char> {
    if text.len() < width {
        blanks((width - text.len()) as nat) + text
    } else {
        text
    }
}

/// The mark for bit `i` of the status register in the row of marks: a
/// full circle for a set bit and an empty one for a clear bit; the third
/// mark is a dash whatever the bit.
pub open spec fn mark(status: u8, i: u8) -> Seq<char> {
    if i == 2 {
        "-"@
    } else if (status >> i) & 1 == 1 {
        "●"@
    } else {
        "○"@
    }
}

/// The marks for the bits below bit `n`, that for bit 0 first.
pub open spec fn marks_below(status: u8, n: u8) -> Seq<char>
    decreases n,
{
    if n == 0 {
        Seq::empty()
    } else {
        marks_below(status, (n - 1) as u8) + mark(status, (n - 1) as u8)
    }
}

/// The row of marks: one for each bit of the status register, from bit
/// 0 to bit 7.
pub open spec fn marks(status: u8) -> Seq<char> {
    marks_below(status, 8)
}

/// Bit `i` of the status register as a binary digit.
pub open spec fn bit(status: u8, i: u8) -> Seq<char> {
    if (status >> i) & 1 == 1 {
        "1"@
    } else {
        "0"@
    }
}

/// The binary digits of the bits from bit `n` on, that of bit 7 first.
pub open spec fn bits_from(status: u8, n: u8) -> Seq<char>
    decreases 8 - n,
{
    if n >= 8 {
        Seq::empty()
    } else {
        bits_from(status, (n + 1) as u8) + bit(status, n)
    }
}

/// The status register as eight binary digits, bit 7 first.
pub open spec fn binary(status: u8) -> Seq<char> {
    bits_from(status, 0)
}

/// A register of eight bits as it is shown: in hexadecimal and, to the
/// right in five columns, in decimal.
pub open spec fn byte_cell(value: u8) -> Seq<char> {
    "0x"@ + hex2(value) + " "@ + right_aligned(parenthesized(value as nat), 5)
}

/// The second line of the box: program counter and stack pointer.
pub open spec fn pointer_line(regs: CpuRegisters) -> Seq<char> {
    "│ CPU  │ PC: 0x"@ + hex4(regs.pc) + "     "@ + right_aligned(
        parenthesized(regs.pc as nat),
        7,
    ) + " │ SP: "@ + byte_cell(regs.sp) + " │ Flags: NV-BDIZC │\n"@
}

/// The fourth line of the box: A, X, Y and the status register.
pub open spec fn register_line(regs: CpuRegisters) -> Seq<char> {
    "│ A: "@ + byte_cell(regs.a) + " │ X: "@ + byte_cell(regs.x) + " │  Y: "@ + byte_cell(regs.y)
        + " │        "@ + binary(regs.status) + " │\n"@
}

/// The registers as a box of five lines.
pub open spec fn register_box(regs: CpuRegisters) -> Seq<char> {
    "┌──────┬────────────────────────┬────────────────┬─────────────────┐\n"@ + pointer_line(
        regs,
    ) + "├──────┴────────┬───────────────┼────────────────┤        "@ + marks(regs.status)
        + " │\n"@ + register_line(regs)
        + "└───────────────┴───────────────┴────────────────┴─────────────────┘"@
}

/// Appends `n` in round brackets, to the right in `width` columns.
fn push_parenthesized(text: &mut String, n: u32, width: usize)
    ensures
        final(text)@ == old(text)@ + right_aligned(parenthesized(n as nat), width as nat),
{
    let mut number = String::new();
    number.append("(");
    push_number(&mut number, n);
    number.append(")");
    assert(number@ =~= parenthesized(n as nat));
    let len = number.as_str().unicode_len();
    let ghost start = text@;
    if len < width {
        let mut filled: usize = len;
        assert(text@ =~= start + blanks(0));
        while filled < width
            invariant
                len <= filled <= width,
                text@ == start + blanks((filled - len) as nat),
            decreases width - filled,
        {
            text.append(" ");
            proof {
                reveal_strlit(" ");
                assert(" "@ =~= seq![' ']);
                assert(text@ =~= start + blanks((filled + 1 - len) as nat));
            }
            filled = filled + 1;
        }
    }
    text.append(number.as_str());
    assert(text@ =~= start + right_aligned(parenthesized(n as nat), width as nat));
}

/// Appends a register of eight bits.
fn push_byte_cell(text: &mut String, value: u8)
    ensures
        final(text)@ == old(text)@ + byte_cell(value),
{
    let ghost start = text@;
    text.append("0x");
    push_hex2(text, value);
    text.append(" ");
    assert(text@ =~= start + ("0x"@ + hex2(value) + " "@));
    push_parenthesized(text, value as u32, 5);
    assert(text@ =~= start + byte_cell(value));
}

/// Appends the mark for bit `i`.
fn push_mark(text: &mut String, status: u8, i: u8)
    requires
        i < 8,
    ensures
        final(text)@ == old(text)@ + mark(status, i),
{
    if i == 2 {
        text.append("-");
    } else if (status >> i) & 1 == 1 {
        text.append("●");
    } else {
        text.append("○");
    }
}

/// Appends bit `i` as a binary digit.
fn push_bit(text: &mut String, status: u8, i: u8)
    requires
        i < 8,
    ensures
        final(text)@ == old(text)@ + bit(status, i),
{
    if (status >> i) & 1 == 1 {
        text.append("1");
    } else {
        text.append("0");
    }
}

/// Appends the row of marks.
fn push_marks(text: &mut String, status: u8)
    ensures
        final(text)@ == old(text)@ + marks(status),
{
    let ghost start = text@;
    let mut i: u8 = 0;
    assert(text@ =~= start + marks_below(status, 0));
    while i < 8
        invariant
            i <= 8,
            text@ == start + marks_below(status, i),
        decreases 8 - i,
    {
        push_mark(text, status, i);
        assert(text@ =~= start + marks_below(status, (i + 1) as u8));
        i = i + 1;
    }
}

/// Appends the status register in binary.
fn push_binary(text: &mut String, status: u8)
    ensures
        final(text)@ == old(text)@ + binary(status),
{
    let ghost start = text@;
    let mut i: u8 = 8;
    assert(text@ =~= start + bits_from(status, 8));
    while i > 0
        invariant
            i <= 8,
            text@ == start + bits_from(status, i),
        decreases i,
    {
        i = i - 1;
        push_bit(text, status, i);
        assert(text@ =~= start + bits_from(status, i));
    }
}

/// Appends the line of program counter and stack pointer.
fn push_pointer_line(text: &mut String, regs: &CpuRegisters)
    ensures
        final(text)@ == old(text)@ + pointer_line(*regs),
{
    let ghost start = text@;
    text.append("│ CPU  │ PC: 0x");
    push_hex4(text, regs.pc);
    text.append("     ");
    let ghost pc = "│ CPU  │ PC: 0x"@ + hex4(regs.pc) + "     "@;
    assert(text@ =~= start + pc);
    push_parenthesized(text, regs.pc as u32, 7);
    text.append(" │ SP: ");
    let ghost sp = pc + right_aligned(parenthesized(regs.pc as nat), 7) + " │ SP: "@;
    assert(text@ =~= start + sp);
    push_byte_cell(text, regs.sp);
    text.append(" │ Flags: NV-BDIZC │\n");
    assert(text@ =~= start + (sp + byte_cell(regs.sp) + " │ Flags: NV-BDIZC │\n"@));
    assert(text@ =~= start + pointer_line(*regs));
}

/// Appends the line of A, X, Y and the status register.
fn push_register_line(text: &mut String, regs: &CpuRegisters)
    ensures
        final(text)@ == old(text)@ + register_line(*regs),
{
    let ghost start = text@;
    text.append("│ A: ");
    push_byte_cell(text, regs.a);
    text.append(" │ X: ");
    let ghost a = "│ A: "@ + byte_cell(regs.a) + " │ X: "@;
    assert(text@ =~= start + a);
    push_byte_cell(text, regs.x);
    text.append(" │  Y: ");
    let ghost x = a + byte_cell(regs.x) + " │  Y: "@;
    assert(text@ =~= start + x);
    push_byte_cell(text, regs.y);
    text.append(" │        ");
    let ghost y = x + byte_cell(regs.y) + " │        "@;
    assert(text@ =~= start + y);
    push_binary(text, regs.status);
    text.append(" │\n");
    assert(text@ =~= start + (y + binary(regs.status) + " │\n"@));
    assert(text@ =~= start + register_line(*regs));
}

impl CpuRegisters {
    /// The registers as a box of text: program counter and stack
    /// pointer, then A, X and Y, each in hexadecimal and decimal, and
    /// the status register in marks and in binary.
    pub fn to_text(&self) -> (text: String)
        ensures
            text@ == register_box(*self),
    {
        let mut text = String::new();
        text.append("┌──────┬────────────────────────┬────────────────┬─────────────────┐\n");
        push_pointer_line(&mut text, self);
        text.append("├──────┴────────┬───────────────┼────────────────┤        ");
        let ghost top =
            "┌──────┬────────────────────────┬────────────────┬─────────────────┐\n"@
            + pointer_line(*self)
            + "├──────┴────────┬───────────────┼────────────────┤        "@;
        assert(text@ =~= top);
        push_marks(&mut text, self.status);
        text.append(" │\n");
        let ghost middle = top + marks(self.status) + " │\n"@;
        assert(text@ =~= middle);
        push_register_line(&mut text, self);
        text.append("└───────────────┴───────────────┴────────────────┴─────────────────┘");
        assert(text@ =~= middle + register_line(*self)
            + "└───────────────┴───────────────┴────────────────┴─────────────────┘"@);
        text
    }
}

} // verus!
