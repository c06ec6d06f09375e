//! A hex dump: bytes in rows of sixteen, each row with its address, the
//! bytes in hexadecimal and the bytes as characters, in a box.

use vstd::prelude::*;
use crate::debugger::disasm::{blanks, byte_column};
use crate::debugger::numerals::{digit, hex4, push_hex2, push_hex4, push_hex_digit};
use crate::debugger::text::push_char;

verus! {

/// Bytes in a row.
pub const ROW: usize = 16;

/// The character that shows a byte: the byte itself where it is a
/// printable ASCII character, a blank included, and a dot where it is
/// not.
pub open spec fn printable(byte: u8) -> char {
    if 0x20 <= byte <= 0x7E {
        byte as char
    } else {
        '.'
    }
}

/// The bytes as characters.
pub open spec fn characters(row: Seq<u8>) -> Seq<char> {
    Seq::new(row.len(), |i: int| printable(row[i]))
}

/// `n` in upper-case hexadecimal without leading zeros.
pub open spec fn hex_digits(n: nat) -> Seq<char>
    decreases n,
{
    if n < 16 {
        seq![digit(n as u8)]
    } else {
        hex_digits(n / 16) + seq![digit((n % 16) as u8)]
    }
}

/// `n` in upper-case hexadecimal with four digits at least.
pub open spec fn hex_address(n: nat) -> Seq<char> {
    if n < 0x1_0000 {
        hex4(n as u16)
    } else {
        hex_digits(n)
    }
}

/// A row of the dump: the address of its first byte, its bytes in
/// hexadecimal and as characters. A row of fewer than sixteen bytes is
/// filled with blanks.
pub open spec fn row(addr: nat, bytes: Seq<u8>) -> Seq<char> {
    "│ "@ + hex_address(addr) + " │ "@ + byte_column(bytes) + blanks(
        (3 * (ROW - bytes.len())) as nat,
    ) + "│ "@ + characters(bytes) + blanks((ROW - bytes.len()) as nat) + " │\n"@
}

/// The rows for `bytes`, of which the first has the address `addr`.
pub open spec fn rows(addr: nat, bytes: Seq<u8>) -> Seq<char>
    decreases bytes.len(),
{
    if bytes.len() == 0 {
        Seq::empty()
    } else if bytes.len() <= ROW {
        row(addr, bytes)
    } else {
        row(addr, bytes.take(ROW as int)) + rows(addr + ROW as nat, bytes.skip(ROW as int))
    }
}

/// What stands for the rows where there is no byte to show: a row of
/// blanks without address.
pub open spec fn empty_row() -> Seq<char> {
    blanks(45) + "│ "@ + blanks(16) + " │\n"@
}

/// The title in the sixteen columns it has: cut to sixteen characters
/// and centred, the odd blank to the right.
pub open spec fn centred(title: Seq<char>) -> Seq<char> {
    let shown = if title.len() > ROW {
        title.take(ROW as int)
    } else {
        title
    };
    blanks(((ROW - shown.len()) / 2) as nat) + shown + blanks(
        ((ROW - shown.len()) - (ROW - shown.len()) / 2) as nat,
    )
}

/// The bytes that a dump of `len` bytes from `start` shows: as many as
/// there are.
pub open spec fn shown(bytes: Seq<u8>, start: nat, len: nat) -> Seq<u8> {
    if len > bytes.len() - start {
        bytes.subrange(start as int, bytes.len() as int)
    } else {
        bytes.subrange(start as int, (start + len) as int)
    }
}

/// The dump of `len` bytes of `bytes` from `start`, under `title`.
pub open spec fn dump(bytes: Seq<u8>, start: nat, len: nat, title: Seq<char>) -> Seq<char> {
    "┌──────┬─────────────────────────────────────────────────┬──────────────────┐\n"@
        + "│ Hex  │ 00 01 02 03 04 05 06 07 08 09 0A 0B 0C 0D 0E 0F │ "@ + centred(title)
        + " │\n"@
        + "├──────┼─────────────────────────────────────────────────┼──────────────────┤\n"@
        + (if shown(bytes, start, len).len() == 0 {
        empty_row()
    } else {
        rows(start, shown(bytes, start, len))
    }) + "└──────┴─────────────────────────────────────────────────┴──────────────────┘"@
}

/// Appends `n` blanks.
fn push_blanks(text: &mut String, n: usize)
    ensures
        final(text)@ == old(text)@ + blanks(n as nat),
{
    let ghost start = text@;
    let mut i: usize = 0;
    assert(text@ =~= start + blanks(0));
    while i < n
        invariant
            i <= n,
            text@ == start + blanks(i as nat),
        decreases n - i,
    {
        push_char(text, ' ');
        assert(text@ =~= start + blanks((i + 1) as nat));
        i = i + 1;
    }
}

/// Appends `n` in hexadecimal without leading zeros.
fn push_hex_digits(text: &mut String, n: usize)
    ensures
        final(text)@ == old(text)@ + hex_digits(n as nat),
    decreases n,
{
    if n >= 16 {
        push_hex_digits(text, n / 16);
    }
    push_hex_digit(text, (n % 16) as u8);
    assert(text@ =~= old(text)@ + hex_digits(n as nat));
}

/// Appends `n` in hexadecimal with four digits at least.
fn push_hex_address(text: &mut String, n: usize)
    ensures
        final(text)@ == old(text)@ + hex_address(n as nat),
{
    if n < 0x1_0000 {
        push_hex4(text, n as u16);
    } else {
        push_hex_digits(text, n);
    }
}

/// Appends the row for the `count` bytes from `from`.
fn push_row(text: &mut String, bytes: &[u8], from: usize, count: usize)
    requires
        1 <= count <= ROW,
        from + count <= bytes@.len(),
    ensures
        final(text)@ == old(text)@ + row(from as nat, bytes@.subrange(from as int, from + count)),
{
    let ghost start = text@;
    let ghost these = bytes@.subrange(from as int, from + count);
    let total = bytes.len();
    text.append("│ ");
    push_hex_address(text, from);
    text.append(" │ ");
    let ghost head = "│ "@ + hex_address(from as nat) + " │ "@;
    assert(text@ =~= start + head);
    let mut i: usize = 0;
    assert(these.take(0) =~= Seq::empty());
    assert(text@ =~= start + head + byte_column(these.take(0)));
    while i < count
        invariant
            i <= count <= ROW,
            from + count <= bytes@.len() == total,
            these == bytes@.subrange(from as int, from + count),
            text@ == start + head + byte_column(these.take(i as int)),
        decreases count - i,
    {
        push_hex2(text, bytes[from + i]);
        push_char(text, ' ');
        proof {
            assert(these.take(i + 1).drop_last() =~= these.take(i as int));
            assert(these.take(i + 1).last() == bytes@[from + i]);
            assert(text@ =~= start + head + byte_column(these.take(i + 1)));
        }
        i = i + 1;
    }
    assert(these.take(count as int) =~= these);
    push_blanks(text, 3 * (ROW - count));
    text.append("│ ");
    let ghost cells = head + byte_column(these) + blanks((3 * (ROW - count)) as nat) + "│ "@;
    assert(text@ =~= start + cells);
    let mut j: usize = 0;
    assert(text@ =~= start + cells + characters(these.take(0)));
    while j < count
        invariant
            j <= count <= ROW,
            from + count <= bytes@.len() == total,
            these == bytes@.subrange(from as int, from + count),
            text@ == start + cells + characters(these.take(j as int)),
        decreases count - j,
    {
        let byte = bytes[from + j];
        let c = if 0x20 <= byte && byte <= 0x7E {
            byte as char
        } else {
            '.'
        };
        push_char(text, c);
        proof {
            assert(characters(these.take(j + 1)) =~= characters(these.take(j as int)).push(
                printable(byte),
            ));
            assert(text@ =~= start + cells + characters(these.take(j + 1)));
        }
        j = j + 1;
    }
    assert(these.take(count as int) =~= these);
    push_blanks(text, ROW - count);
    text.append(" │\n");
    assert(text@ =~= start + (cells + characters(these) + blanks((ROW - count) as nat)
        + " │\n"@));
    assert(text@ =~= start + row(from as nat, these));
}

/// Appends the title in its sixteen columns.
fn push_title(text: &mut String, title: &str)
    ensures
        final(text)@ == old(text)@ + centred(title@),
{
    let ghost start = text@;
    let len = title.unicode_len();
    let cut = if len > ROW {
        title.substring_char(0, ROW)
    } else {
        title
    };
    let width = if len > ROW {
        ROW
    } else {
        len
    };
    assert(cut@ =~= if title@.len() > ROW {
        title@.take(ROW as int)
    } else {
        title@
    });
    let left = (ROW - width) / 2;
    push_blanks(text, left);
    text.append(cut);
    push_blanks(text, (ROW - width) - left);
    assert(text@ =~= start + centred(title@));
}

/// The dump of `len` bytes of `bytes` from `start`, or of as many as
/// there are, under `title_text`.
pub fn hex_dump(bytes: &[u8], start: usize, len: usize, title_text: Option<&str>) -> (text: String)
    requires
        start <= bytes@.len(),
    ensures
        text@ == dump(
            bytes@,
            start as nat,
            len as nat,
            match title_text {
                Some(title) => title@,
                None => Seq::empty(),
            },
        ),
{
    let total = bytes.len();
    let len = if len > total - start {
        total - start
    } else {
        len
    };
    let ghost all = shown(bytes@, start as nat, len as nat);
    assert(all =~= bytes@.subrange(start as int, start + len));
    let title = match title_text {
        Some(title) => title,
        None => "",
    };
    proof {
        reveal_strlit("");
        assert(""@ =~= Seq::<char>::empty());
    }
    let mut text = String::new();
    text.append("┌──────┬─────────────────────────────────────────────────┬──────────────────┐\n");
    text.append("│ Hex  │ 00 01 02 03 04 05 06 07 08 09 0A 0B 0C 0D 0E 0F │ ");
    push_title(&mut text, title);
    text.append(" │\n");
    text.append("├──────┼─────────────────────────────────────────────────┼──────────────────┤\n");
    let ghost head =
        "┌──────┬─────────────────────────────────────────────────┬──────────────────┐\n"@
        + "│ Hex  │ 00 01 02 03 04 05 06 07 08 09 0A 0B 0C 0D 0E 0F │ "@ + centred(title@)
        + " │\n"@
        + "├──────┼─────────────────────────────────────────────────┼──────────────────┤\n"@;
    assert(text@ =~= head);
    if len == 0 {
        push_blanks(&mut text, 45);
        text.append("│ ");
        push_blanks(&mut text, 16);
        text.append(" │\n");
        assert(text@ =~= head + empty_row());
    } else {
        let mut offset: usize = 0;
        assert(all.skip(0) =~= all);
        assert(text@ =~= head + Seq::<char>::empty());
        while len - offset > ROW
            invariant
                offset < len,
                start + len <= bytes@.len() == total,
                all == bytes@.subrange(start as int, start + len),
                exists|done: Seq<char>|
                    #![auto]
                    text@ == head + done && rows(start as nat, all) == done + rows(
                        (start + offset) as nat,
                        all.skip(offset as int),
                    ),
            decreases len - offset,
        {
            let ghost done = choose|done: Seq<char>|
                #![auto]
                text@ == head + done && rows(start as nat, all) == done + rows(
                    (start + offset) as nat,
                    all.skip(offset as int),
                );
            push_row(&mut text, bytes, start + offset, ROW);
            proof {
                let rest = all.skip(offset as int);
                let line = row((start + offset) as nat, rest.take(ROW as int));
                assert(rest.take(ROW as int) =~= bytes@.subrange(
                    start + offset,
                    start + offset + ROW,
                ));
                assert(rest.skip(ROW as int) =~= all.skip(offset + ROW));
                assert(text@ =~= head + (done + line));
                assert(rows(start as nat, all) =~= (done + line) + rows(
                    (start + offset + ROW) as nat,
                    all.skip(offset + ROW),
                ));
            }
            offset = offset + ROW;
        }
        let ghost done = choose|done: Seq<char>|
            #![auto]
            text@ == head + done && rows(start as nat, all) == done + rows(
                (start + offset) as nat,
                all.skip(offset as int),
            );
        push_row(&mut text, bytes, start + offset, len - offset);
        proof {
            let rest = all.skip(offset as int);
            assert(rest =~= bytes@.subrange(start + offset, start + len));
            assert(text@ =~= head + rows(start as nat, all));
        }
    }
    let ghost body = head + (if all.len() == 0 {
        empty_row()
    } else {
        rows(start as nat, all)
    });
    assert(text@ =~= body);
    text.append("└──────┴─────────────────────────────────────────────────┴──────────────────┘");
    text
}

} // verus!
