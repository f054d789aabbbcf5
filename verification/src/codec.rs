//! The color type and the hex codec: parsing `#RRGGBB` strings into
//! colors and formatting colors back into canonical hex strings.
use vstd::prelude::*;
use vstd::string::StrSliceExecFns;
use vstd::string::StringExecFns;

verus! {

/// An RGB color: three independent 8-bit channels, red, green, blue.
/// Equality is component-wise.
#[derive(Clone, Copy, Debug, PartialEq, Eq, Structural)]
pub struct Color(pub u8, pub u8, pub u8);

/// A character that base-16 parsing accepts, in either case.
pub open spec fn is_hex_digit(c: char) -> bool {
    ('0' as int <= c as int && c as int <= '9' as int)
    || ('a' as int <= c as int && c as int <= 'f' as int)
    || ('A' as int <= c as int && c as int <= 'F' as int)
}

/// The numeric value of a hex digit (0 when `c` is not one).
pub open spec fn hex_digit_value(c: char) -> int
    recommends
        is_hex_digit(c),
{
    if '0' as int <= c as int && c as int <= '9' as int {
        c as int - '0' as int
    } else if 'a' as int <= c as int && c as int <= 'f' as int {
        c as int - 'a' as int + 10
    } else if 'A' as int <= c as int && c as int <= 'F' as int {
        c as int - 'A' as int + 10
    } else {
        0
    }
}

/// The byte spelled by a two-digit hex pair, high digit first.
pub open spec fn pair_value(hi: char, lo: char) -> int {
    16 * hex_digit_value(hi) + hex_digit_value(lo)
}

/// The input with at most one leading `#` removed.
pub open spec fn strip_hash(s: Seq<char>) -> Seq<char> {
    if s.len() >= 1 && s[0] == '#' {
        s.subrange(1, s.len() as int)
    } else {
        s
    }
}

/// What a bare six-character hex body parses to: the three bytes, or
/// nothing when the length is wrong or a character is not a hex digit.
pub open spec fn parse_hex_digits(s: Seq<char>) -> Option<Color> {
    if s.len() == 6
        && is_hex_digit(s[0]) && is_hex_digit(s[1])
        && is_hex_digit(s[2]) && is_hex_digit(s[3])
        && is_hex_digit(s[4]) && is_hex_digit(s[5])
    {
        Some(Color(
            pair_value(s[0], s[1]) as u8,
            pair_value(s[2], s[3]) as u8,
            pair_value(s[4], s[5]) as u8,
        ))
    } else {
        None
    }
}

/// What `parse_hex` returns on any input: strip one optional leading
/// `#`, then read exactly six hex digits as three bytes.
pub open spec fn parse_hex_spec(s: Seq<char>) -> Option<Color> {
    parse_hex_digits(strip_hash(s))
}

/// The uppercase hex digit for a value below 16.
pub open spec fn hex_char(v: int) -> char
    recommends
        0 <= v < 16,
{
    if v == 0 { '0' } else if v == 1 { '1' } else if v == 2 { '2' }
    else if v == 3 { '3' } else if v == 4 { '4' } else if v == 5 { '5' }
    else if v == 6 { '6' } else if v == 7 { '7' } else if v == 8 { '8' }
    else if v == 9 { '9' } else if v == 10 { 'A' } else if v == 11 { 'B' }
    else if v == 12 { 'C' } else if v == 13 { 'D' } else if v == 14 { 'E' }
    else { 'F' }
}

/// A byte as two uppercase hex digits, zero-padded.
pub open spec fn byte_hex(b: u8) -> Seq<char> {
    seq![hex_char(b as int / 16), hex_char(b as int % 16)]
}

/// What `format_hex` returns: `#` followed by the three channels, each
/// as two uppercase hex digits.
pub open spec fn format_hex_spec(c: Color) -> Seq<char> {
    seq!['#'] + byte_hex(c.0) + byte_hex(c.1) + byte_hex(c.2)
}

/// The value of a single hex digit, or `None` for any other character.
fn hex_val(c: char) -> (r: Option<u8>)
    ensures
        r is Some <==> is_hex_digit(c),
        r is Some ==> r->0 == hex_digit_value(c) && r->0 < 16,
{
    let u = c as u32;
    if 48 <= u && u <= 57 {
        Some((u - 48) as u8)
    } else if 97 <= u && u <= 102 {
        Some((u - 97 + 10) as u8)
    } else if 65 <= u && u <= 70 {
        Some((u - 65 + 10) as u8)
    } else {
        None
    }
}

/// Parse a hex color string: an optional leading `#`, then exactly six
/// hex digits (either case) read as the red, green and blue bytes.
/// Returns `None` on any other input.
pub fn parse_hex(input: &str) -> (r: Option<Color>)
    ensures
        r == parse_hex_spec(input@),
{
    let n = input.unicode_len();
    let off: usize = if n >= 1 && input.get_char(0) == '#' { 1 } else { 0 };
    proof {
        assert(strip_hash(input@) =~= input@.subrange(off as int, n as int));
    }
    if n - off != 6 {
        return None;
    }
    let c0 = input.get_char(off);
    let c1 = input.get_char(off + 1);
    let c2 = input.get_char(off + 2);
    let c3 = input.get_char(off + 3);
    let c4 = input.get_char(off + 4);
    let c5 = input.get_char(off + 5);
    let v0 = hex_val(c0);
    let v1 = hex_val(c1);
    let v2 = hex_val(c2);
    let v3 = hex_val(c3);
    let v4 = hex_val(c4);
    let v5 = hex_val(c5);
    if let (Some(h0), Some(h1), Some(h2), Some(h3), Some(h4), Some(h5))
        = (v0, v1, v2, v3, v4, v5)
    {
        Some(Color(16 * h0 + h1, 16 * h2 + h3, 16 * h4 + h5))
    } else {
        None
    }
}

/// A one-character string holding the uppercase hex digit for `v`.
fn hex_char_str(v: u8) -> (r: &'static str)
    requires
        v < 16,
    ensures
        r@.len() == 1,
        r@[0] == hex_char(v as int),
{
    if v == 0 {
        proof { reveal_strlit("0"); }
        "0"
    } else if v == 1 {
        proof { reveal_strlit("1"); }
        "1"
    } else if v == 2 {
        proof { reveal_strlit("2"); }
        "2"
    } else if v == 3 {
        proof { reveal_strlit("3"); }
        "3"
    } else if v == 4 {
        proof { reveal_strlit("4"); }
        "4"
    } else if v == 5 {
        proof { reveal_strlit("5"); }
        "5"
    } else if v == 6 {
        proof { reveal_strlit("6"); }
        "6"
    } else if v == 7 {
        proof { reveal_strlit("7"); }
        "7"
    } else if v == 8 {
        proof { reveal_strlit("8"); }
        "8"
    } else if v == 9 {
        proof { reveal_strlit("9"); }
        "9"
    } else if v == 10 {
        proof { reveal_strlit("A"); }
        "A"
    } else if v == 11 {
        proof { reveal_strlit("B"); }
        "B"
    } else if v == 12 {
        proof { reveal_strlit("C"); }
        "C"
    } else if v == 13 {
        proof { reveal_strlit("D"); }
        "D"
    } else if v == 14 {
        proof { reveal_strlit("E"); }
        "E"
    } else {
        proof { reveal_strlit("F"); }
        "F"
    }
}

/// Format a color as its canonical hex string: `#` followed by each
/// channel zero-padded to exactly two uppercase hex digits.
pub fn format_hex(c: Color) -> (r: String)
    ensures
        r@ == format_hex_spec(c),
{
    let mut s = String::from_str("#");
    proof { reveal_strlit("#"); }
    s.append(hex_char_str(c.0 / 16));
    s.append(hex_char_str(c.0 % 16));
    s.append(hex_char_str(c.1 / 16));
    s.append(hex_char_str(c.1 % 16));
    s.append(hex_char_str(c.2 / 16));
    s.append(hex_char_str(c.2 % 16));
    proof {
        assert(s@ =~= format_hex_spec(c));
    }
    s
}

proof fn lemma_hex_char_value(v: int)
    requires
        0 <= v < 16,
    ensures
        is_hex_digit(hex_char(v)),
        hex_digit_value(hex_char(v)) == v,
{
}

/// Formatting a color and parsing the result returns that same color,
/// for every color: the codec round-trips.
pub proof fn lemma_parse_format_round_trip(c: Color)
    ensures
        parse_hex_spec(format_hex_spec(c)) == Some(c),
{
    let s = format_hex_spec(c);
    let t = strip_hash(s);
    assert(t =~= byte_hex(c.0) + byte_hex(c.1) + byte_hex(c.2));
    lemma_hex_char_value(c.0 as int / 16);
    lemma_hex_char_value(c.0 as int % 16);
    lemma_hex_char_value(c.1 as int / 16);
    lemma_hex_char_value(c.1 as int % 16);
    lemma_hex_char_value(c.2 as int / 16);
    lemma_hex_char_value(c.2 as int % 16);
    assert(pair_value(t[0], t[1]) == c.0 as int);
    assert(pair_value(t[2], t[3]) == c.1 as int);
    assert(pair_value(t[4], t[5]) == c.2 as int);
}

/// The leading `#` is optional: prefixing one to an input that does
/// not itself start with `#` parses to the same result.
pub proof fn lemma_leading_hash_optional(s: Seq<char>)
    requires
        s.len() == 0 || s[0] != '#',
    ensures
        parse_hex_spec(seq!['#'] + s) == parse_hex_spec(s),
{
    assert(strip_hash(seq!['#'] + s) =~= s);
    assert(strip_hash(s) == s);
}

} // verus!
