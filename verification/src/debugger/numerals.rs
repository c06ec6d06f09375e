//! Numbers as text: hexadecimal and decimal numerals, and the functions
//! that append them to a string.

use vstd::prelude::*;
use crate::cpu::{high_byte, low, low_byte, page};
use crate::cpu::instructions::addressing::signed;

verus! {

/// The digit for `n` in base sixteen, and so in base ten.
pub open spec fn digit(n: u8) -> char {
    if n < 10 {
        (('0' as u8) + n) as char
    } else {
        (('A' as u8) + (n - 10)) as char
    }
}

/// `byte` as two upper-case hexadecimal digits.
pub open spec fn hex2(byte: u8) -> Seq<char> {
    seq![digit(byte / 16), digit(byte % 16)]
}

/// `word` as four upper-case hexadecimal digits.
pub open spec fn hex4(word: u16) -> Seq<char> {
    hex2(page(word)) + hex2(low(word))
}

/// `word` in upper-case hexadecimal behind `0x`, with two digits at
/// least and no other leading zero.
pub open spec fn hex_prefixed(word: u16) -> Seq<char> {
    "0x"@ + if word < 0x100 {
        hex2(low(word))
    } else if word < 0x1000 {
        seq![digit(page(word))] + hex2(low(word))
    } else {
        hex4(word)
    }
}

/// `n` in base ten without leading zeros.
pub open spec fn decimal(n: nat) -> Seq<char>
    decreases n,
{
    if n < 10 {
        seq![digit(n as u8)]
    } else {
        decimal(n / 10) + seq![digit((n % 10) as u8)]
    }
}

/// `v` in base ten, with a minus sign where it is negative.
pub open spec fn signed_decimal(v: int) -> Seq<char> {
    if v < 0 {
        seq!['-'] + decimal((-v) as nat)
    } else {
        decimal(v as nat)
    }
}

/// The digit for `n`, as a string.
fn digit_str(n: u8) -> (s: &'static str)
    requires
        n < 16,
    ensures
        s@ == seq![digit(n)],
{
    proof {
        reveal_strlit("0");
        reveal_strlit("1");
        reveal_strlit("2");
        reveal_strlit("3");
        reveal_strlit("4");
        reveal_strlit("5");
        reveal_strlit("6");
        reveal_strlit("7");
        reveal_strlit("8");
        reveal_strlit("9");
        reveal_strlit("A");
        reveal_strlit("B");
        reveal_strlit("C");
        reveal_strlit("D");
        reveal_strlit("E");
        reveal_strlit("F");
    }
    let s = match n {
        0 => "0",
        1 => "1",
        2 => "2",
        3 => "3",
        4 => "4",
        5 => "5",
        6 => "6",
        7 => "7",
        8 => "8",
        9 => "9",
        10 => "A",
        11 => "B",
        12 => "C",
        13 => "D",
        14 => "E",
        _ => "F",
    };
    assert(s@ =~= seq![digit(n)]);
    s
}

/// Appends the digit for `n`.
pub fn push_hex_digit(text: &mut String, n: u8)
    requires
        n < 16,
    ensures
        final(text)@ == old(text)@ + seq![digit(n)],
{
    text.append(digit_str(n));
}

/// Appends `byte` as two hexadecimal digits.
pub fn push_hex2(text: &mut String, byte: u8)
    ensures
        final(text)@ == old(text)@ + hex2(byte),
{
    text.append(digit_str(byte / 16));
    text.append(digit_str(byte % 16));
    assert(text@ =~= old(text)@ + hex2(byte));
}

/// Appends `word` as four hexadecimal digits.
pub fn push_hex4(text: &mut String, word: u16)
    ensures
        final(text)@ == old(text)@ + hex4(word),
{
    push_hex2(text, high_byte(word));
    push_hex2(text, low_byte(word));
    assert(text@ =~= old(text)@ + hex4(word));
}

/// Appends `word` behind `0x`, with two digits at least.
pub fn push_hex_prefixed(text: &mut String, word: u16)
    ensures
        final(text)@ == old(text)@ + hex_prefixed(word),
{
    text.append("0x");
    if word < 0x100 {
        push_hex2(text, low_byte(word));
    } else if word < 0x1000 {
        text.append(digit_str(high_byte(word)));
        push_hex2(text, low_byte(word));
    } else {
        push_hex4(text, word);
    }
    assert(text@ =~= old(text)@ + hex_prefixed(word));
}

/// Appends `n` in base ten.
pub fn push_decimal(text: &mut String, n: u8)
    ensures
        final(text)@ == old(text)@ + decimal(n as nat),
{
    reveal_with_fuel(decimal, 3);
    if n >= 100 {
        text.append(digit_str(n / 100));
    }
    if n >= 10 {
        text.append(digit_str((n / 10) % 10));
    }
    text.append(digit_str(n % 10));
    assert(text@ =~= old(text)@ + decimal(n as nat));
}

/// Appends `n` in base ten.
pub fn push_number(text: &mut String, n: u32)
    ensures
        final(text)@ == old(text)@ + decimal(n as nat),
    decreases n,
{
    if n >= 10 {
        push_number(text, n / 10);
    }
    text.append(digit_str((n % 10) as u8));
    assert(text@ =~= old(text)@ + decimal(n as nat));
}

/// Appends `byte`, read as a two's complement number, in base ten.
pub fn push_signed(text: &mut String, byte: u8)
    ensures
        final(text)@ == old(text)@ + signed_decimal(signed(byte)),
{
    if byte < 0x80 {
        push_decimal(text, byte);
    } else {
        text.append("-");
        proof {
            reveal_strlit("-");
            assert("-"@ =~= seq!['-']);
        }
        if byte == 0x80 {
            push_decimal(text, 0x80);
        } else {
            push_decimal(text, (0xFF - byte) + 1);
        }
        assert(text@ =~= old(text)@ + signed_decimal(signed(byte)));
    }
}

} // verus!
