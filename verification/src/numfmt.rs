//! Decimal rendering of the integers the browser displays: file
//! sizes, page numbers and timestamp fields.

use vstd::prelude::*;
use vstd::string::StrSliceExecFns;
use vstd::string::StringExecFns;

verus! {

/// The decimal digit character for `d`.
pub open spec fn digit_char(d: int) -> char {
    if d == 0 {
        '0'
    } else if d == 1 {
        '1'
    } else if d == 2 {
        '2'
    } else if d == 3 {
        '3'
    } else if d == 4 {
        '4'
    } else if d == 5 {
        '5'
    } else if d == 6 {
        '6'
    } else if d == 7 {
        '7'
    } else if d == 8 {
        '8'
    } else {
        '9'
    }
}

/// The decimal rendering of `n`, without padding or sign.
pub open spec fn dec_str(n: nat) -> Seq<char>
    decreases n,
{
    if n < 10 {
        seq![digit_char(n as int)]
    } else {
        dec_str(n / 10) + seq![digit_char((n % 10) as int)]
    }
}

/// The single decimal digit `d` as a string slice.
pub fn digit_str(d: u64) -> (r: &'static str)
    requires
        d < 10,
    ensures
        r@ == seq![digit_char(d as int)],
{
    proof {
        reveal_strlit("0");
        reveal_strlit("1");
        reveal_strlit("2");
        reveal_strlit("3");
        reveal_strlit("4");
        reveal_strlit("5");
        reveal_strlit("6");
        reveal_strlit("7");
        reveal_strlit("8");
        reveal_strlit("9");
    }
    let r = match d {
        0 => "0",
        1 => "1",
        2 => "2",
        3 => "3",
        4 => "4",
        5 => "5",
        6 => "6",
        7 => "7",
        8 => "8",
        _ => "9",
    };
    proof {
        assert(r@ =~= seq![digit_char(d as int)]);
    }
    r
}

/// Renders `n` in decimal.
pub fn u64_to_string(n: u64) -> (s: String)
    ensures
        s@ == dec_str(n as nat),
    decreases n,
{
    if n < 10 {
        String::from_str(digit_str(n))
    } else {
        let mut s = u64_to_string(n / 10);
        s.append(digit_str(n % 10));
        s
    }
}

/// Renders `n` in decimal.
pub fn usize_to_string(n: usize) -> (s: String)
    ensures
        s@ == dec_str(n as nat),
{
    u64_to_string(n as u64)
}

/// Renders `n` in decimal, zero-padded on the left to at least
/// `width` digits.
pub open spec fn dec_str_padded(n: nat, width: nat) -> Seq<char>
    decreases width,
{
    if dec_str(n).len() >= width {
        dec_str(n)
    } else {
        seq!['0'] + dec_str_padded(n, (width - 1) as nat)
    }
}

/// The length of `dec_str(n)`.
pub open spec fn dec_len(n: nat) -> nat {
    dec_str(n).len()
}

proof fn lemma_dec_str_nonempty(n: nat)
    ensures
        dec_str(n).len() >= 1,
    decreases n,
{
    if n >= 10 {
        lemma_dec_str_nonempty(n / 10);
    }
}

/// Renders `n` in decimal, zero-padded on the left to at least
/// `width` digits.
pub fn u64_to_string_padded(n: u64, width: usize) -> (s: String)
    ensures
        s@ == dec_str_padded(n as nat, width as nat),
    decreases width,
{
    proof {
        reveal_strlit("0");
        lemma_dec_str_nonempty(n as nat);
    }
    let plain = u64_to_string(n);
    let digits = plain.as_str().unicode_len();
    if digits >= width {
        plain
    } else {
        let mut s = String::from_str("0");
        let rest = u64_to_string_padded(n, width - 1);
        s.append(rest.as_str());
        proof {
            assert(s@ =~= dec_str_padded(n as nat, width as nat));
        }
        s
    }
}

} // verus!
