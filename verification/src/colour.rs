//! The colour resolver.
//!
//! A colour is written either as a bare integer, as a string (a `#`-prefixed
//! six-digit hex value or a name from a fixed table), or as an object of
//! three byte channels.  `resolve` turns any of these into a 24-bit RGB
//! value or reports exactly why it cannot.

use vstd::prelude::*;

use crate::errors::{ColourErrorView, ColourParseError};
use crate::text::str_eq;

verus! {

use vstd::arithmetic::div_mod::{
    lemma_div_denominator,
    lemma_div_pos_is_pos,
    lemma_fundamental_div_mod,
    lemma_multiply_divide_lt,
    lemma_small_mod,
};

/// A colour as it appears in the message grammar.
#[derive(Debug, PartialEq, Clone)]
pub enum EmbedColourEnum {
    /// A bare integer, reinterpreted directly as a 24-bit RGB value.
    Integer(u32),
    /// Either a `#`-prefixed hex value or a name from the colour table.
    NamedOrHex(String),
    /// Three explicit byte channels.
    RGB(RGBColour),
}

/// Three colour channels, each a byte.
#[derive(Debug, PartialEq, Clone)]
pub struct RGBColour {
    pub red: u8,
    pub green: u8,
    pub blue: u8,
}

/// Spec-level view of `EmbedColourEnum`.
pub enum ColourView {
    Integer(u32),
    NamedOrHex(Seq<char>),
    RGB(u8, u8, u8),
}

impl View for EmbedColourEnum {
    type V = ColourView;

    open spec fn view(&self) -> ColourView {
        match self {
            EmbedColourEnum::Integer(v) => ColourView::Integer(*v),
            EmbedColourEnum::NamedOrHex(s) => ColourView::NamedOrHex(s@),
            EmbedColourEnum::RGB(rgb) => ColourView::RGB(rgb.red, rgb.green, rgb.blue),
        }
    }
}

/// Whether `c` is an ASCII hexadecimal digit, in either case.
pub open spec fn is_hex_digit(c: char) -> bool {
    ||| '0' as int <= c as int && c as int <= '9' as int
    ||| 'a' as int <= c as int && c as int <= 'f' as int
    ||| 'A' as int <= c as int && c as int <= 'F' as int
}

/// The numeric value of a hexadecimal digit (zero on a non-digit).
pub open spec fn hex_digit_value(c: char) -> int {
    if '0' as int <= c as int && c as int <= '9' as int {
        c as int - '0' as int
    } else if 'a' as int <= c as int && c as int <= 'f' as int {
        c as int - 'a' as int + 10
    } else if 'A' as int <= c as int && c as int <= 'F' as int {
        c as int - 'A' as int + 10
    } else {
        0
    }
}

/// Whether every character of `s` is a hexadecimal digit.
pub open spec fn all_hex_digits(s: Seq<char>) -> bool {
    forall|i: int| 0 <= i < s.len() ==> is_hex_digit(#[trigger] s[i])
}

/// The value of `s` read as a base-16 numeral, most significant digit first.
pub open spec fn hex_value(s: Seq<char>) -> int
    decreases s.len(),
{
    if s.len() == 0 {
        0
    } else {
        16 * hex_value(s.drop_last()) + hex_digit_value(s.last())
    }
}

/// The colour table: an exact, case-sensitive name to value mapping.
pub open spec fn named_colour(s: Seq<char>) -> Option<u32> {
    if s == "BLITZ_BLUE"@ { Some(0x6FC6E2u32) }
    else if s == "BLUE"@ { Some(0x3498DBu32) }
    else if s == "BLURPLE"@ { Some(0x7289DAu32) }
    else if s == "DARK_BLUE"@ { Some(0x206694u32) }
    else if s == "DARK_GOLD"@ { Some(0xC27C0Eu32) }
    else if s == "DARK_GREEN"@ { Some(0x1F8B4Cu32) }
    else if s == "DARK_GREY"@ { Some(0x607D8Bu32) }
    else if s == "DARK_MAGENTA"@ { Some(0xAD1457u32) }
    else if s == "DARK_ORANGE"@ { Some(0xA84300u32) }
    else if s == "DARK_PURPLE"@ { Some(0x71368Au32) }
    else if s == "DARK_RED"@ { Some(0x992D22u32) }
    else if s == "DARK_TEAL"@ { Some(0x11806Au32) }
    else if s == "DARKER_GREY"@ { Some(0x546E7Au32) }
    else if s == "FABLED_PINK"@ { Some(0xFAB1EDu32) }
    else if s == "FADED_PURPLE"@ { Some(0x8882C4u32) }
    else if s == "FOOYOO"@ { Some(0x11CA80u32) }
    else if s == "GOLD"@ { Some(0xF1C40Fu32) }
    else if s == "KERBAL"@ { Some(0xBADA55u32) }
    else if s == "LIGHT_GREY"@ { Some(0x979C9Fu32) }
    else if s == "LIGHTER_GREY"@ { Some(0x95A5A6u32) }
    else if s == "MAGENTA"@ { Some(0xE91E63u32) }
    else if s == "MEIBE_PINK"@ { Some(0xE68397u32) }
    else if s == "ORANGE"@ { Some(0xE67E22u32) }
    else if s == "PURPLE"@ { Some(0x9B59B6u32) }
    else if s == "RED"@ { Some(0xE74C3Cu32) }
    else if s == "ROHRKATZE_BLUE"@ { Some(0x7596FFu32) }
    else if s == "ROSEWATER"@ { Some(0xF6DBD8u32) }
    else if s == "TEAL"@ { Some(0x1ABC9Cu32) }
    else { None }
}

/// What `resolve` returns for each colour specification.
pub open spec fn spec_resolve(c: ColourView) -> Result<u32, ColourErrorView> {
    match c {
        ColourView::Integer(v) => Ok(v),
        ColourView::RGB(r, g, b) => Ok(
            ((r as int) * 0x10000 + (g as int) * 0x100 + (b as int)) as u32,
        ),
        ColourView::NamedOrHex(s) => {
            if s.len() > 0 && s[0] == '#' {
                if s.len() == 7 {
                    if all_hex_digits(s.subrange(1, 7)) {
                        Ok(hex_value(s.subrange(1, 7)) as u32)
                    } else {
                        Err(ColourErrorView::InvalidColourHexValue(s))
                    }
                } else {
                    Err(ColourErrorView::InvalidColourHexLength(s))
                }
            } else {
                match named_colour(s) {
                    Some(v) => Ok(v),
                    None => Err(ColourErrorView::UnknownColourName(s)),
                }
            }
        },
    }
}

/// The numeric value of one hexadecimal digit character, if it is one.
fn hex_digit_of(c: char) -> (r: Option<u32>)
    ensures
        match r {
            Some(v) => is_hex_digit(c) && v == hex_digit_value(c),
            None => !is_hex_digit(c),
        },
{
    let u: u32 = c as u32;
    if '0' as u32 <= u && u <= '9' as u32 {
        Some(u - '0' as u32)
    } else if 'a' as u32 <= u && u <= 'f' as u32 {
        Some(u - 'a' as u32 + 10)
    } else if 'A' as u32 <= u && u <= 'F' as u32 {
        Some(u - 'A' as u32 + 10)
    } else {
        None
    }
}

/// Looks a name up in the colour table.
fn lookup_named_colour(s: &str) -> (r: Option<u32>)
    ensures
        r == named_colour(s@),
{
    if str_eq(s, "BLITZ_BLUE") { Some(0x6FC6E2) }
    else if str_eq(s, "BLUE") { Some(0x3498DB) }
    else if str_eq(s, "BLURPLE") { Some(0x7289DA) }
    else if str_eq(s, "DARK_BLUE") { Some(0x206694) }
    else if str_eq(s, "DARK_GOLD") { Some(0xC27C0E) }
    else if str_eq(s, "DARK_GREEN") { Some(0x1F8B4C) }
    else if str_eq(s, "DARK_GREY") { Some(0x607D8B) }
    else if str_eq(s, "DARK_MAGENTA") { Some(0xAD1457) }
    else if str_eq(s, "DARK_ORANGE") { Some(0xA84300) }
    else if str_eq(s, "DARK_PURPLE") { Some(0x71368A) }
    else if str_eq(s, "DARK_RED") { Some(0x992D22) }
    else if str_eq(s, "DARK_TEAL") { Some(0x11806A) }
    else if str_eq(s, "DARKER_GREY") { Some(0x546E7A) }
    else if str_eq(s, "FABLED_PINK") { Some(0xFAB1ED) }
    else if str_eq(s, "FADED_PURPLE") { Some(0x8882C4) }
    else if str_eq(s, "FOOYOO") { Some(0x11CA80) }
    else if str_eq(s, "GOLD") { Some(0xF1C40F) }
    else if str_eq(s, "KERBAL") { Some(0xBADA55) }
    else if str_eq(s, "LIGHT_GREY") { Some(0x979C9F) }
    else if str_eq(s, "LIGHTER_GREY") { Some(0x95A5A6) }
    else if str_eq(s, "MAGENTA") { Some(0xE91E63) }
    else if str_eq(s, "MEIBE_PINK") { Some(0xE68397) }
    else if str_eq(s, "ORANGE") { Some(0xE67E22) }
    else if str_eq(s, "PURPLE") { Some(0x9B59B6) }
    else if str_eq(s, "RED") { Some(0xE74C3C) }
    else if str_eq(s, "ROHRKATZE_BLUE") { Some(0x7596FF) }
    else if str_eq(s, "ROSEWATER") { Some(0xF6DBD8) }
    else if str_eq(s, "TEAL") { Some(0x1ABC9C) }
    else { None }
}

/// Resolves a string colour: a `#`-prefixed hex value or a table name.
#[verifier::loop_isolation(false)]
fn resolve_named_or_hex(s: &String) -> (r: Result<u32, ColourParseError>)
    ensures
        match r {
            Ok(v) => spec_resolve(ColourView::NamedOrHex(s@)) == Ok::<u32, ColourErrorView>(v),
            Err(e) => spec_resolve(ColourView::NamedOrHex(s@)) == Err::<u32, ColourErrorView>(e@),
        },
{
    let st: &str = s.as_str();
    let n: usize = st.unicode_len();
    if n > 0 && st.get_char(0) == '#' {
        if n == 7 {
            let mut v: u32 = 0;
            let mut i: usize = 1;
            while i < 7
                invariant
                    1 <= i <= 7,
                    s@.len() == 7,
                    st@ == s@,
                    all_hex_digits(s@.subrange(1, i as int)),
                    v == hex_value(s@.subrange(1, i as int)),
                    i == 1 ==> v == 0,
                    i == 2 ==> v < 0x10,
                    i == 3 ==> v < 0x100,
                    i == 4 ==> v < 0x1000,
                    i == 5 ==> v < 0x10000,
                    i == 6 ==> v < 0x100000,
                    i == 7 ==> v < 0x1000000,
                decreases 7 - i,
            {
                let c: char = st.get_char(i);
                match hex_digit_of(c) {
                    None => {
                        proof {
                            assert(s@.subrange(1, 7)[i - 1] == s@[i as int]);
                            assert(!all_hex_digits(s@.subrange(1, 7)));
                        }
                        return Err(ColourParseError::InvalidColourHexValue(s.clone()));
                    },
                    Some(d) => {
                        proof {
                            let pre = s@.subrange(1, i as int);
                            let post = s@.subrange(1, i + 1);
                            assert(post.drop_last() =~= pre);
                            assert(post.last() == s@[i as int]);
                        }
                        v = v * 16 + d;
                    },
                }
                i += 1;
            }
            proof {
                assert(s@.subrange(1, i as int) =~= s@.subrange(1, 7));
            }
            Ok(v)
        } else {
            Err(ColourParseError::InvalidColourHexLength(s.clone()))
        }
    } else {
        match lookup_named_colour(st) {
            Some(v) => Ok(v),
            None => Err(ColourParseError::UnknownColourName(s.clone())),
        }
    }
}

/// Resolves a colour specification to its 24-bit RGB value, or reports
/// exactly why it cannot.
pub fn resolve(colour: &EmbedColourEnum) -> (r: Result<u32, ColourParseError>)
    ensures
        match r {
            Ok(v) => spec_resolve(colour@) == Ok::<u32, ColourErrorView>(v),
            Err(e) => spec_resolve(colour@) == Err::<u32, ColourErrorView>(e@),
        },
{
    match colour {
        EmbedColourEnum::Integer(v) => Ok(*v),
        EmbedColourEnum::RGB(rgb) => Ok(
            (rgb.red as u32) * 0x10000 + (rgb.green as u32) * 0x100 + (rgb.blue as u32),
        ),
        EmbedColourEnum::NamedOrHex(s) => resolve_named_or_hex(s),
    }
}

/// The uppercase hexadecimal digit character for a value below 16.
pub open spec fn hex_char(d: int) -> char {
    if d == 0 { '0' }
    else if d == 1 { '1' }
    else if d == 2 { '2' }
    else if d == 3 { '3' }
    else if d == 4 { '4' }
    else if d == 5 { '5' }
    else if d == 6 { '6' }
    else if d == 7 { '7' }
    else if d == 8 { '8' }
    else if d == 9 { '9' }
    else if d == 10 { 'A' }
    else if d == 11 { 'B' }
    else if d == 12 { 'C' }
    else if d == 13 { 'D' }
    else if d == 14 { 'E' }
    else { 'F' }
}

/// The canonical textual form of a 24-bit value: `#` and six uppercase
/// hexadecimal digits, most significant first.
pub open spec fn spec_format_hex(v: int) -> Seq<char> {
    seq![
        '#',
        hex_char(v / 0x100000 % 16),
        hex_char(v / 0x10000 % 16),
        hex_char(v / 0x1000 % 16),
        hex_char(v / 0x100 % 16),
        hex_char(v / 0x10 % 16),
        hex_char(v % 16),
    ]
}

/// The single-character string for one uppercase hexadecimal digit.
fn hex_digit_str(d: u32) -> (r: &'static str)
    requires
        d < 16,
    ensures
        r@.len() == 1,
        r@[0] == hex_char(d as int),
{
    proof {
        reveal_strlit("0");
        reveal_strlit("1");
        reveal_strlit("2");
        reveal_strlit("3");
        reveal_strlit("4");
        reveal_strlit("5");
        reveal_strlit("6");
        reveal_strlit("7");
        reveal_strlit("8");
        reveal_strlit("9");
        reveal_strlit("A");
        reveal_strlit("B");
        reveal_strlit("C");
        reveal_strlit("D");
        reveal_strlit("E");
        reveal_strlit("F");
    }
    match d {
        0 => "0",
        1 => "1",
        2 => "2",
        3 => "3",
        4 => "4",
        5 => "5",
        6 => "6",
        7 => "7",
        8 => "8",
        9 => "9",
        10 => "A",
        11 => "B",
        12 => "C",
        13 => "D",
        14 => "E",
        _ => "F",
    }
}

/// Formats a 24-bit value as `#` and six uppercase hexadecimal digits.
pub fn format_hex(v: u32) -> (r: String)
    requires
        v < 0x1000000,
    ensures
        r@ == spec_format_hex(v as int),
{
    let mut r: String = "#".to_owned();
    r.append(hex_digit_str(v / 0x100000 % 16));
    r.append(hex_digit_str(v / 0x10000 % 16));
    r.append(hex_digit_str(v / 0x1000 % 16));
    r.append(hex_digit_str(v / 0x100 % 16));
    r.append(hex_digit_str(v / 0x10 % 16));
    r.append(hex_digit_str(v % 16));
    proof {
        reveal_strlit("#");
        assert(r@ =~= spec_format_hex(v as int));
    }
    r
}

/// Each digit character written by `spec_format_hex` reads back as itself.
proof fn lemma_hex_char_value(d: int)
    requires
        0 <= d < 16,
    ensures
        is_hex_digit(hex_char(d)),
        hex_digit_value(hex_char(d)) == d,
{
}

/// Law: hex formatting and hex resolution are inverse.  For every 24-bit
/// value `v`, resolving the string `spec_format_hex(v)` as a colour yields
/// exactly `v`.
pub proof fn lemma_hex_round_trip(v: u32)
    requires
        v < 0x1000000,
    ensures
        spec_resolve(ColourView::NamedOrHex(spec_format_hex(v as int))) == Ok::<u32, ColourErrorView>(v),
{
    let s = spec_format_hex(v as int);
    let d5 = (v as int) / 0x100000 % 16;
    let d4 = (v as int) / 0x10000 % 16;
    let d3 = (v as int) / 0x1000 % 16;
    let d2 = (v as int) / 0x100 % 16;
    let d1 = (v as int) / 0x10 % 16;
    let d0 = (v as int) % 16;
    lemma_hex_char_value(d5);
    lemma_hex_char_value(d4);
    lemma_hex_char_value(d3);
    lemma_hex_char_value(d2);
    lemma_hex_char_value(d1);
    lemma_hex_char_value(d0);
    let digits = s.subrange(1, 7);
    assert(digits =~= seq![
        hex_char(d5), hex_char(d4), hex_char(d3), hex_char(d2), hex_char(d1), hex_char(d0),
    ]);
    assert(all_hex_digits(digits));
    let s1 = digits.subrange(0, 1);
    let s2 = digits.subrange(0, 2);
    let s3 = digits.subrange(0, 3);
    let s4 = digits.subrange(0, 4);
    let s5 = digits.subrange(0, 5);
    assert(s1.drop_last() =~= digits.subrange(0, 0));
    assert(s2.drop_last() =~= s1);
    assert(s3.drop_last() =~= s2);
    assert(s4.drop_last() =~= s3);
    assert(s5.drop_last() =~= s4);
    assert(digits.drop_last() =~= s5);
    assert(hex_value(digits.subrange(0, 0)) == 0);
    assert(s1.last() == hex_char(d5));
    assert(s2.last() == hex_char(d4));
    assert(s3.last() == hex_char(d3));
    assert(s4.last() == hex_char(d2));
    assert(s5.last() == hex_char(d1));
    assert(digits.last() == hex_char(d0));
    assert(hex_value(s1) == d5);
    assert(hex_value(s2) == d5 * 16 + d4);
    assert(hex_value(s3) == (d5 * 16 + d4) * 16 + d3);
    assert(hex_value(s4) == ((d5 * 16 + d4) * 16 + d3) * 16 + d2);
    assert(hex_value(s5) == (((d5 * 16 + d4) * 16 + d3) * 16 + d2) * 16 + d1);
    assert(hex_value(digits) ==
        ((((d5 * 16 + d4) * 16 + d3) * 16 + d2) * 16 + d1) * 16 + d0);
    assert(((((d5 * 16 + d4) * 16 + d3) * 16 + d2) * 16 + d1) * 16 + d0 == v as int) by {
        let x = v as int;
        let q1 = x / 0x10;
        let q2 = x / 0x100;
        let q3 = x / 0x1000;
        let q4 = x / 0x10000;
        let q5 = x / 0x100000;
        lemma_div_denominator(x, 0x10, 0x10);
        lemma_div_denominator(x, 0x100, 0x10);
        lemma_div_denominator(x, 0x1000, 0x10);
        lemma_div_denominator(x, 0x10000, 0x10);
        assert(q1 / 0x10 == q2);
        assert(q2 / 0x10 == q3);
        assert(q3 / 0x10 == q4);
        assert(q4 / 0x10 == q5);
        lemma_fundamental_div_mod(x, 0x10);
        lemma_fundamental_div_mod(q1, 0x10);
        lemma_fundamental_div_mod(q2, 0x10);
        lemma_fundamental_div_mod(q3, 0x10);
        lemma_fundamental_div_mod(q4, 0x10);
        lemma_multiply_divide_lt(x, 0x100000, 0x10);
        lemma_div_pos_is_pos(x, 0x100000);
        lemma_small_mod(q5 as nat, 0x10);
    }
    assert(s.len() == 7);
    assert(s[0] == '#');
}

} // verus!
