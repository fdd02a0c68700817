//! Small verified helpers for strings.

use vstd::prelude::*;

verus! {

/// The view of an optional owned string.
pub open spec fn opt_str_view(o: Option<String>) -> Option<Seq<char>> {
    match o {
        Some(s) => Some(s@),
        None => None,
    }
}

/// The decimal digit character for a value below ten.
pub open spec fn dec_char(d: int) -> char {
    if d == 0 { '0' }
    else if d == 1 { '1' }
    else if d == 2 { '2' }
    else if d == 3 { '3' }
    else if d == 4 { '4' }
    else if d == 5 { '5' }
    else if d == 6 { '6' }
    else if d == 7 { '7' }
    else if d == 8 { '8' }
    else { '9' }
}

/// The decimal numeral of a non-negative value, most significant digit
/// first, without leading zeroes (zero itself is `0`).
pub open spec fn spec_u64_dec(v: int) -> Seq<char>
    decreases v,
{
    if v < 10 {
        seq![dec_char(v)]
    } else {
        spec_u64_dec(v / 10) + seq![dec_char(v % 10)]
    }
}

/// The single-character string for one decimal digit.
fn dec_digit_str(d: u64) -> (r: &'static str)
    requires
        d < 10,
    ensures
        r@.len() == 1,
        r@[0] == dec_char(d as int),
{
    proof {
        reveal_strlit("0");
        reveal_strlit("1");
        reveal_strlit("2");
        reveal_strlit("3");
        reveal_strlit("4");
        reveal_strlit("5");
        reveal_strlit("6");
        reveal_strlit("7");
        reveal_strlit("8");
        reveal_strlit("9");
    }
    match d {
        0 => "0",
        1 => "1",
        2 => "2",
        3 => "3",
        4 => "4",
        5 => "5",
        6 => "6",
        7 => "7",
        8 => "8",
        _ => "9",
    }
}

/// Writes a value as its decimal numeral.
pub fn u64_to_dec(v: u64) -> (r: String)
    ensures
        r@ == spec_u64_dec(v as int),
    decreases v,
{
    let d: u64 = v % 10;
    if v < 10 {
        dec_digit_str(d).to_owned()
    } else {
        proof {
            vstd::arithmetic::div_mod::lemma_div_is_strictly_smaller(v as int, 10);
        }
        let mut prefix = u64_to_dec(v / 10);
        prefix.append(dec_digit_str(d));
        proof {
            assert(prefix@ =~= spec_u64_dec(v as int));
        }
        prefix
    }
}

/// Character-for-character equality of two string slices.
pub fn str_eq(a: &str, b: &str) -> (r: bool)
    ensures
        r == (a@ == b@),
{
    let alen: usize = a.unicode_len();
    let blen: usize = b.unicode_len();
    if alen != blen {
        return false;
    }
    let mut i: usize = 0;
    while i < alen
        invariant
            i <= alen,
            alen == a@.len(),
            alen == b@.len(),
            forall|j: int| 0 <= j < i ==> a@[j] == b@[j],
        decreases alen - i,
    {
        if a.get_char(i) != b.get_char(i) {
            return false;
        }
        i += 1;
    }
    proof {
        assert(a@ =~= b@);
    }
    true
}

} // verus!
