//! Text functions that the debugger takes from elsewhere: regular
//! expressions from the `regex` crate; trimming, number parsing and the
//! appending of a character from the standard library. Their contracts
//! are believed, not proved.

use vstd::prelude::*;
use vstd::utf8::{encode_utf8, is_char_boundary};

verus! {

/// The first match of the regular expression `pattern` in `haystack`,
/// as the byte offsets of its start and its end in the UTF-8 encoding
/// of `haystack`; `None` where nothing matches or `pattern` is no
/// regular expression.
pub uninterp spec fn first_match(pattern: Seq<char>, haystack: Seq<char>) -> Option<(usize, usize)>;

/// Whether the regular expression `pattern` matches anywhere in
/// `haystack`; `false` where `pattern` is no regular expression.
pub uninterp spec fn has_match(pattern: Seq<char>, haystack: Seq<char>) -> bool;

/// Whether `c` has the Unicode property White_Space.
pub open spec fn is_white_space(c: char) -> bool {
    let code = c as u32;
    ||| 0x0009 <= code <= 0x000D
    ||| code == 0x0020
    ||| code == 0x0085
    ||| code == 0x00A0
    ||| code == 0x1680
    ||| 0x2000 <= code <= 0x200A
    ||| code == 0x2028
    ||| code == 0x2029
    ||| code == 0x202F
    ||| code == 0x205F
    ||| code == 0x3000
}

/// `text` without its leading white space.
pub open spec fn trimmed_start(text: Seq<char>) -> Seq<char>
    decreases text.len(),
{
    if text.len() > 0 && is_white_space(text.first()) {
        trimmed_start(text.drop_first())
    } else {
        text
    }
}

/// `text` without its trailing white space.
pub open spec fn trimmed_end(text: Seq<char>) -> Seq<char>
    decreases text.len(),
{
    if text.len() > 0 && is_white_space(text.last()) {
        trimmed_end(text.drop_last())
    } else {
        text
    }
}

/// `text` without its leading and trailing white space.
pub open spec fn trimmed(text: Seq<char>) -> Seq<char> {
    trimmed_end(trimmed_start(text))
}

/// Whether `c` is one of the ten ASCII digits.
pub open spec fn is_digit(c: char) -> bool {
    '0' <= c <= '9'
}

/// The number that a sequence of ASCII digits denotes in base ten.
pub open spec fn digits_value(digits: Seq<char>) -> nat
    decreases digits.len(),
{
    if digits.len() == 0 {
        0
    } else {
        (digits_value(digits.drop_last()) * 10 + (digits.last() as u32 - '0' as u32)) as nat
    }
}

/// The `u32` that `text` denotes: an optional plus sign and then one or
/// more ASCII digits whose value fits. Everything else denotes none.
pub open spec fn decimal_u32(text: Seq<char>) -> Option<u32> {
    let digits = if text.len() > 0 && text.first() == '+' {
        text.drop_first()
    } else {
        text
    };
    if digits.len() > 0 && (forall|i: int| 0 <= i < digits.len() ==> is_digit(#[trigger] digits[i]))
        && digits_value(digits) <= u32::MAX {
        Some(digits_value(digits) as u32)
    } else {
        None
    }
}

/// `Regex::new` and `Regex::find` of the crate `regex`: compiles
/// `pattern` and searches `haystack` for its first match. The contract
/// gives the answer a name, [`first_match`], and claims what the crate
/// documents of every match: its start is not behind its end, and both
/// lie on character boundaries of the haystack.
#[verifier::external_body]
pub(crate) fn find(pattern: &str, haystack: &str) -> (found: Option<(usize, usize)>)
    ensures
        found == first_match(pattern@, haystack@),
        found matches Some((start, end)) ==> {
            &&& start <= end <= encode_utf8(haystack@).len()
            &&& is_char_boundary(encode_utf8(haystack@), start as int)
            &&& is_char_boundary(encode_utf8(haystack@), end as int)
        },
{
    match regex::Regex::new(pattern) {
        Ok(re) => re.find(haystack).map(|m| (m.start(), m.end())),
        Err(_) => None,
    }
}

/// `Regex::new` and `Regex::is_match` of the crate `regex`: compiles
/// `pattern` and tells whether it matches anywhere in `haystack`. The
/// contract gives the answer a name, [`has_match`], and claims nothing
/// else.
#[verifier::external_body]
pub(crate) fn is_match(pattern: &str, haystack: &str) -> (matches: bool)
    ensures
        matches == has_match(pattern@, haystack@),
{
    match regex::Regex::new(pattern) {
        Ok(re) => re.is_match(haystack),
        Err(_) => false,
    }
}

/// `String::push` of the standard library: appends `c` to `text`.
#[verifier::external_body]
pub(crate) fn push_char(text: &mut String, c: char)
    ensures
        final(text)@ == old(text)@.push(c),
{
    text.push(c);
}

/// `str::trim` of the standard library: the slice without leading and
/// trailing white space, where white space is what Unicode calls so.
#[verifier::external_body]
pub(crate) fn trim(text: &str) -> (inner: &str)
    ensures
        inner@ == trimmed(text@),
{
    text.trim()
}

/// `str::parse::<u32>` of the standard library: the number that `text`
/// denotes in base ten, if it is an optional plus sign followed by
/// digits whose value fits into 32 bits.
#[verifier::external_body]
pub(crate) fn parse_u32(text: &str) -> (value: Option<u32>)
    ensures
        value == decimal_u32(text@),
{
    text.parse::<u32>().ok()
}

} // verus!
