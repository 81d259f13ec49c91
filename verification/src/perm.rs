//! Unix permission bits rendered as `rwx` triples, and the base
//! conversion that turns an octal mode into its decimal-looking
//! rendering.

use vstd::prelude::*;
use vstd::arithmetic::div_mod::lemma_fundamental_div_mod;
use vstd::arithmetic::mul::lemma_mul_inequality;
use vstd::arithmetic::power::lemma_pow_positive;
use vstd::arithmetic::power::pow;
use vstd::string::StringExecFns;

use crate::numfmt::dec_str;

verus! {

/// The digits of `x` in base `b`, reassembled as a decimal number:
/// digit `i` of `x` in base `b` becomes digit `i` of the result in
/// base ten.
pub open spec fn recomb(x: int, b: int) -> int
    recommends
        0 <= x,
        2 <= b,
    decreases x,
    when 0 <= x && 2 <= b
    via recomb_decreases
{
    if x <= 0 {
        0
    } else {
        recomb(x / b, b) * 10 + x % b
    }
}

#[via_fn]
proof fn recomb_decreases(x: int, b: int) {
    if x > 0 {
        lemma_fundamental_div_mod(x, b);
        assert(x / b < x) by (nonlinear_arith)
            requires
                0 < x,
                2 <= b,
        ;
    }
}

/// `recomb` never goes negative.
pub proof fn lemma_recomb_nonneg(x: int, b: int)
    requires
        0 <= x,
        2 <= b,
    ensures
        0 <= recomb(x, b),
    decreases x,
{
    if x > 0 {
        lemma_fundamental_div_mod(x, b);
        assert(0 <= x / b < x) by (nonlinear_arith)
            requires
                0 < x,
                2 <= b,
        ;
        lemma_recomb_nonneg(x / b, b);
    }
}

/// A `k`-digit bound: a value below `pow(b, k)` recombines below
/// `pow(10, k)`.
pub proof fn lemma_recomb_bound(x: int, b: int, k: nat)
    requires
        2 <= b <= 10,
        0 <= x < pow(b, k),
    ensures
        0 <= recomb(x, b) < pow(10, k),
    decreases k,
{
    reveal(pow);
    lemma_recomb_nonneg(x, b);
    lemma_pow_positive(10, k);
    if x > 0 {
        assert(k > 0) by {
            if k == 0 {
                assert(pow(b, 0) == 1);
            }
        }
        lemma_fundamental_div_mod(x, b);
        assert(pow(b, k) == b * pow(b, (k - 1) as nat));
        assert(x / b < pow(b, (k - 1) as nat)) by {
            assert(0 <= x / b) by (nonlinear_arith)
                requires
                    0 < x,
                    2 <= b,
            ;
            if x / b >= pow(b, (k - 1) as nat) {
                lemma_mul_inequality(pow(b, (k - 1) as nat), x / b, b);
                assert(pow(b, (k - 1) as nat) * b == b * pow(b, (k - 1) as nat)) by (nonlinear_arith);
                assert((x / b) * b <= x) by (nonlinear_arith)
                    requires
                        0 < x,
                        2 <= b,
                        x == b * (x / b) + x % b,
                        0 <= x % b,
                ;
            }
        }
        lemma_recomb_bound(x / b, b, (k - 1) as nat);
        assert(pow(10, k) == 10 * pow(10, (k - 1) as nat));
        lemma_mul_inequality(recomb(x / b, b), pow(10, (k - 1) as nat) - 1, 10);
        assert(0 <= x % b < b) by (nonlinear_arith)
            requires
                0 < x,
                2 <= b,
                x == b * (x / b) + x % b,
        ;
    }
}

/// The absolute value of `x`.
pub open spec fn abs_int(x: int) -> nat {
    if x < 0 {
        (-x) as nat
    } else {
        x as nat
    }
}

/// The octal-digit-looking number a mode renders as: the decimal
/// recombination minus the file-type prefix (100000 for regular
/// files, 40000 for directories).
pub open spec fn perm_adjusted(p: int) -> int {
    if p > 100000 {
        p - 100000
    } else {
        p - 40000
    }
}

/// The `rwx` triple for one permission digit; digits past 7 (and the
/// sign of a negative value) contribute nothing.
pub open spec fn triple(d: int) -> Seq<char> {
    if d == 0 {
        "---"@
    } else if d == 1 {
        "--x"@
    } else if d == 2 {
        "-w-"@
    } else if d == 3 {
        "-wx"@
    } else if d == 4 {
        "r--"@
    } else if d == 5 {
        "r-x"@
    } else if d == 6 {
        "rw-"@
    } else if d == 7 {
        "rwx"@
    } else {
        Seq::<char>::empty()
    }
}

/// The `rwx` triples of all decimal digits of `n`, in order.
pub open spec fn perm_digits_str(n: nat) -> Seq<char>
    decreases n,
{
    if n < 10 {
        triple(n as int)
    } else {
        perm_digits_str(n / 10) + triple((n % 10) as int)
    }
}

/// What `generate_permission_strings` renders for `p`.
pub open spec fn perm_string(p: int) -> Seq<char> {
    perm_digits_str(abs_int(perm_adjusted(p)))
}

/// The `rwx` triple of the single decimal digit `d`.
pub fn triple_str(d: u64) -> (r: &'static str)
    requires
        d < 10,
    ensures
        r@ == triple(d as int),
{
    proof {
        reveal_strlit("");
        assert(""@ =~= Seq::<char>::empty());
    }
    match d {
        0 => "---",
        1 => "--x",
        2 => "-w-",
        3 => "-wx",
        4 => "r--",
        5 => "r-x",
        6 => "rw-",
        7 => "rwx",
        _ => "",
    }
}

/// Renders the `rwx` triples of all decimal digits of `n`.
pub fn perm_digits_string(n: u64) -> (s: String)
    ensures
        s@ == perm_digits_str(n as nat),
    decreases n,
{
    if n < 10 {
        String::from_str(triple_str(n))
    } else {
        let mut s = perm_digits_string(n / 10);
        s.append(triple_str(n % 10));
        s
    }
}

/// The column header prepended before each permission digit in the
/// long-form rendering: owner, then group, then others for every
/// further digit.
pub open spec fn jp_prefix(i: int) -> Seq<char> {
    if i == 0 {
        "所有者 > "@
    } else if i == 1 {
        "グループ > "@
    } else {
        "その他 > "@
    }
}

/// Whether `c` is a permission digit the long-form rendering accepts.
pub open spec fn jp_valid(c: char) -> bool {
    c == '0' || c == '1' || c == '2' || c == '3' || c == '4' || c == '5' || c == '6' || c == '7'
}

/// The long-form label for one permission digit.
pub open spec fn jp_triple(c: char) -> Seq<char> {
    if c == '0' {
        "不可  "@
    } else if c == '1' {
        "実    "@
    } else if c == '2' {
        "書    "@
    } else if c == '3' {
        "実書  "@
    } else if c == '4' {
        "読    "@
    } else if c == '5' {
        "読実  "@
    } else if c == '6' {
        "読書  "@
    } else {
        "読書実"@
    }
}

/// The divider after each long-form label.
pub open spec fn jp_sep() -> Seq<char> {
    " │ "@
}

/// The long-form rendering of the digit characters `cs`, the position
/// prefix for `cs[0]` being `jp_prefix(i)`: each valid digit gets its
/// prefix, its label and a divider; the first invalid character gets
/// its prefix and stops the rendering.
pub open spec fn jp_render(cs: Seq<char>, i: int) -> Seq<char>
    decreases cs.len(),
{
    if cs.len() == 0 {
        Seq::<char>::empty()
    } else if jp_valid(cs[0]) {
        jp_prefix(i) + jp_triple(cs[0]) + jp_sep() + jp_render(cs.drop_first(), i + 1)
    } else {
        jp_prefix(i)
    }
}

/// The decimal rendering of `v` with a leading sign when negative.
pub open spec fn signed_dec_str(v: int) -> Seq<char> {
    if v < 0 {
        seq!['-'] + dec_str(abs_int(v))
    } else {
        dec_str(abs_int(v))
    }
}

/// What `generate_permission_strings_in_japanese` renders for `p`.
pub open spec fn jp_perm_string(p: int) -> Seq<char> {
    jp_render(signed_dec_str(perm_adjusted(p)), 0)
}

/// The position prefix for digit `i`.
pub fn jp_prefix_str(i: usize) -> (r: &'static str)
    ensures
        r@ == jp_prefix(i as int),
{
    if i == 0 {
        "所有者 > "
    } else if i == 1 {
        "グループ > "
    } else {
        "その他 > "
    }
}

/// The long-form label for the digit character `c`.
pub fn jp_triple_str(c: char) -> (r: &'static str)
    requires
        jp_valid(c),
    ensures
        r@ == jp_triple(c),
{
    match c {
        '0' => "不可  ",
        '1' => "実    ",
        '2' => "書    ",
        '3' => "実書  ",
        '4' => "読    ",
        '5' => "読実  ",
        '6' => "読書  ",
        _ => "読書実",
    }
}

/// Whether `c` is a permission digit the long-form rendering accepts.
pub fn jp_is_valid(c: char) -> (r: bool)
    ensures
        r == jp_valid(c),
{
    c == '0' || c == '1' || c == '2' || c == '3' || c == '4' || c == '5' || c == '6' || c == '7'
}

} // verus!
