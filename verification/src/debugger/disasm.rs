//! Disassembly: an instruction as a line of text, with its address, its
//! bytes, its mnemonic and its operand in the usual notation.

use vstd::prelude::*;
use crate::cpu::{low, low_byte};
use crate::cpu::instructions::{AddrDelegate, Instruction, Operand};
use crate::cpu::instructions::addressing::signed;
use crate::debugger::numerals::{decimal, hex2, hex4, hex_prefixed, signed_decimal};
use crate::debugger::numerals::{push_decimal, push_hex2, push_hex4, push_hex_prefixed, push_signed};

verus! {

/// `n` blanks.
pub open spec fn blanks(n: nat) -> Seq<char> {
    Seq::new(n, |i: int| ' ')
}

/// `text`, filled with blanks on the right up to `width` characters.
pub open spec fn padded(text: Seq<char>, width: nat) -> Seq<char> {
    if text.len() < width {
        text + blanks((width - text.len()) as nat)
    } else {
        text
    }
}

/// The bytes in hexadecimal, each followed by a blank.
pub open spec fn byte_column(raw: Seq<u8>) -> Seq<char>
    decreases raw.len(),
{
    if raw.len() == 0 {
        Seq::empty()
    } else {
        byte_column(raw.drop_last()) + hex2(raw.last()) + seq![' ']
    }
}

/// The operand in the notation of its addressing mode. An immediate
/// operand is shown in hexadecimal and in decimal, an address in
/// hexadecimal with the decoration of the mode, and the target of a
/// branch behind the offset that leads to it. `raw` holds the bytes of
/// the instruction; only a branch looks at them, for its offset.
pub open spec fn operand_text(mode: AddrDelegate, operand: Option<Operand>, raw: Seq<u8>) -> Seq<
    char,
> {
    match operand {
        None => Seq::empty(),
        Some(Operand::Implied) => Seq::empty(),
        Some(Operand::Immediate(i)) => " #$"@ + hex2(i) + " ("@ + decimal(i as nat) + ")"@,
        Some(Operand::Address(a)) => match mode {
            AddrDelegate::Zp => " $"@ + hex2(low(a)),
            AddrDelegate::ZpX => " $"@ + hex2(low(a)) + ",X"@,
            AddrDelegate::ZpY => " $"@ + hex2(low(a)) + ",Y"@,
            AddrDelegate::AbsX | AddrDelegate::AbsXExtra => " $"@ + hex4(a) + ",X"@,
            AddrDelegate::AbsY | AddrDelegate::AbsYExtra => " $"@ + hex4(a) + ",Y"@,
            AddrDelegate::Rel => " $"@ + hex2(raw[1]) + " ("@ + signed_decimal(signed(raw[1]))
                + ")"@ + "    ; => $"@ + hex4(a),
            AddrDelegate::IndX => " ($"@ + hex4(a) + ",X)"@,
            AddrDelegate::IndY | AddrDelegate::IndYExtra => " ($"@ + hex4(a) + "),Y"@,
            AddrDelegate::Ind => " ($"@ + hex4(a) + ")"@,
            _ => " $"@ + hex4(a),
        },
    }
}

/// The address at which an instruction of `bytes` bytes started that
/// has left the program counter at `pc`.
pub open spec fn started_at(pc: u16, bytes: u8) -> u16 {
    ((pc - bytes) % 0x1_0000) as u16
}

/// The line of disassembly for the instruction with the entry `ins`,
/// the operand `op` and the bytes `raw`, when the program counter stands
/// at `pc` behind it: address, bytes, mnemonic and operand. Without an
/// entry the line is empty.
pub open spec fn disassembly(
    pc: u16,
    ins: Option<Instruction>,
    op: Option<Operand>,
    raw: Seq<u8>,
) -> Seq<char> {
    match ins {
        None => Seq::empty(),
        Some(ins) => hex_prefixed(started_at(pc, ins.bytes)) + " │ "@ + padded(
            byte_column(raw),
            9,
        ) + "│ "@ + ins.mnemonic@ + operand_text(ins.addr_delegate, op, raw),
    }
}

/// Whether a line can be made: a branch needs its offset, the second
/// byte of the instruction.
pub open spec fn can_disassemble(
    ins: Option<Instruction>,
    op: Option<Operand>,
    raw: Seq<u8>,
) -> bool {
    match (ins, op) {
        (Some(i), Some(Operand::Address(_))) => i.addr_delegate == AddrDelegate::Rel ==> raw.len()
            >= 2,
        _ => true,
    }
}

/// Appends the bytes, each followed by a blank, and blanks up to nine
/// characters.
fn push_byte_column(text: &mut String, raw: &Vec<u8>)
    ensures
        final(text)@ == old(text)@ + padded(byte_column(raw@), 9),
{
    let mut i: usize = 0;
    let ghost start = text@;
    assert(raw@.take(0) =~= Seq::empty());
    assert(text@ =~= start + byte_column(raw@.take(0)));
    while i < raw.len()
        invariant
            i <= raw.len(),
            text@ == start + byte_column(raw@.take(i as int)),
            byte_column(raw@.take(i as int)).len() == 3 * i,
        decreases raw.len() - i,
    {
        let ghost before = text@;
        push_hex2(text, raw[i]);
        text.append(" ");
        proof {
            reveal_strlit(" ");
            assert(" "@ =~= seq![' ']);
            assert(raw@.take(i + 1).drop_last() =~= raw@.take(i as int));
            assert(text@ =~= start + byte_column(raw@.take(i + 1)));
        }
        i = i + 1;
    }
    assert(raw@.take(raw.len() as int) =~= raw@);
    let ghost column = byte_column(raw@);
    if raw.len() < 3 {
        let mut width: usize = 3 * raw.len();
        assert(text@ =~= start + column + blanks(0));
        while width < 9
            invariant
                column.len() <= width <= 9,
                text@ == start + column + blanks((width - column.len()) as nat),
            decreases 9 - width,
        {
            text.append(" ");
            proof {
                reveal_strlit(" ");
                assert(" "@ =~= seq![' ']);
                assert(text@ =~= start + column + blanks((width + 1 - column.len()) as nat));
            }
            width = width + 1;
        }
    }
    assert(text@ =~= start + padded(column, 9));
}

/// Appends the operand.
fn push_operand(text: &mut String, mode: AddrDelegate, operand: Option<&Operand>, raw: &Vec<u8>)
    requires
        (mode == AddrDelegate::Rel && (operand matches Some(Operand::Address(_)))) ==> raw@.len()
            >= 2,
    ensures
        final(text)@ == old(text)@ + operand_text(
            mode,
            match operand {
                Some(op) => Some(*op),
                None => None,
            },
            raw@,
        ),
{
    let ghost start = text@;
    match operand {
        None => {
            assert(text@ =~= start + Seq::<char>::empty());
        },
        Some(Operand::Implied) => {
            assert(text@ =~= start + Seq::<char>::empty());
        },
        Some(Operand::Immediate(i)) => {
            text.append(" #$");
            push_hex2(text, *i);
            text.append(" (");
            push_decimal(text, *i);
            text.append(")");
            assert(text@ =~= start + (" #$"@ + hex2(*i) + " ("@ + decimal(*i as nat) + ")"@));
        },
        Some(Operand::Address(a)) => {
            let a = *a;
            match mode {
                AddrDelegate::Zp => {
                    text.append(" $");
                    push_hex2(text, low_byte(a));
                    assert(text@ =~= start + (" $"@ + hex2(low(a))));
                },
                AddrDelegate::ZpX => {
                    text.append(" $");
                    push_hex2(text, low_byte(a));
                    text.append(",X");
                    assert(text@ =~= start + (" $"@ + hex2(low(a)) + ",X"@));
                },
                AddrDelegate::ZpY => {
                    text.append(" $");
                    push_hex2(text, low_byte(a));
                    text.append(",Y");
                    assert(text@ =~= start + (" $"@ + hex2(low(a)) + ",Y"@));
                },
                AddrDelegate::AbsX | AddrDelegate::AbsXExtra => {
                    text.append(" $");
                    push_hex4(text, a);
                    text.append(",X");
                    assert(text@ =~= start + (" $"@ + hex4(a) + ",X"@));
                },
                AddrDelegate::AbsY | AddrDelegate::AbsYExtra => {
                    text.append(" $");
                    push_hex4(text, a);
                    text.append(",Y");
                    assert(text@ =~= start + (" $"@ + hex4(a) + ",Y"@));
                },
                AddrDelegate::Rel => {
                    let offset = raw[1];
                    text.append(" $");
                    push_hex2(text, offset);
                    text.append(" (");
                    push_signed(text, offset);
                    text.append(")");
                    text.append("    ; => $");
                    push_hex4(text, a);
                    assert(text@ =~= start + (" $"@ + hex2(offset) + " ("@ + signed_decimal(
                        signed(offset),
                    ) + ")"@ + "    ; => $"@ + hex4(a)));
                },
                AddrDelegate::IndX => {
                    text.append(" ($");
                    push_hex4(text, a);
                    text.append(",X)");
                    assert(text@ =~= start + (" ($"@ + hex4(a) + ",X)"@));
                },
                AddrDelegate::IndY | AddrDelegate::IndYExtra => {
                    text.append(" ($");
                    push_hex4(text, a);
                    text.append("),Y");
                    assert(text@ =~= start + (" ($"@ + hex4(a) + "),Y"@));
                },
                AddrDelegate::Ind => {
                    text.append(" ($");
                    push_hex4(text, a);
                    text.append(")");
                    assert(text@ =~= start + (" ($"@ + hex4(a) + ")"@));
                },
                _ => {
                    text.append(" $");
                    push_hex4(text, a);
                    assert(text@ =~= start + (" $"@ + hex4(a)));
                },
            }
        },
    }
}

/// Disassembles: the line for the instruction that has left the
/// program counter at `pc`.
pub fn disassemble(
    pc: u16,
    decoded: (Option<&Instruction>, Option<&Operand>),
    raw: &Vec<u8>,
) -> (line: String)
    requires
        can_disassemble(
            match decoded.0 {
                Some(ins) => Some(*ins),
                None => None,
            },
            match decoded.1 {
                Some(op) => Some(*op),
                None => None,
            },
            raw@,
        ),
    ensures
        line@ == disassembly(
            pc,
            match decoded.0 {
                Some(ins) => Some(*ins),
                None => None,
            },
            match decoded.1 {
                Some(op) => Some(*op),
                None => None,
            },
            raw@,
        ),
{
    let mut s = String::new();
    if let Some(ins) = decoded.0 {
        let ghost op = match decoded.1 {
            Some(op) => Some(*op),
            None => None,
        };
        push_hex_prefixed(&mut s, pc.wrapping_sub(ins.bytes as u16));
        let ghost address = hex_prefixed(started_at(pc, ins.bytes));
        assert(s@ =~= address);
        s.append(" │ ");
        push_byte_column(&mut s, raw);
        let ghost bytes = address + " │ "@ + padded(byte_column(raw@), 9);
        assert(s@ =~= bytes);
        s.append("│ ");
        s.append(ins.mnemonic);
        let ghost name = bytes + "│ "@ + ins.mnemonic@;
        assert(s@ =~= name);
        push_operand(&mut s, ins.addr_delegate, decoded.1, raw);
        assert(s@ =~= name + operand_text(ins.addr_delegate, op, raw@));
    }
    s
}

} // verus!
