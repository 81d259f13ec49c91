//! Character-level string utilities: the input buffer edits, prefix
//! matching for autocomplete, and the trimming and splitting that
//! turns a command line into a program and its arguments.

use vstd::prelude::*;
use vstd::string::StrSliceExecFns;
use vstd::string::StringExecFns;

verus! {

/// Relies on std's `String::push`: appends one character at the end.
#[verifier::external_body]
pub(crate) fn string_push(s: &mut String, c: char)
    ensures
        final(s)@ == old(s)@.push(c),
{
    s.push(c);
}

/// Relies on std's `String::pop`: removes and returns the last
/// character, or returns `None` when the string is empty.
#[verifier::external_body]
pub(crate) fn string_pop(s: &mut String) -> (r: Option<char>)
    ensures
        old(s)@.len() == 0 ==> r is None && final(s)@ == old(s)@,
        old(s)@.len() > 0 ==> r == Some(old(s)@.last()) && final(s)@ == old(s)@.drop_last(),
{
    s.pop()
}

/// The index of the first occurrence of `c` in `s`; meaningful only
/// when `s` contains `c`.
pub open spec fn first_index_of(s: Seq<char>, c: char) -> int
    decreases s.len(),
{
    if s.len() == 0 {
        0
    } else if s[0] == c {
        0
    } else {
        1 + first_index_of(s.drop_first(), c)
    }
}

proof fn lemma_first_index_of_at(s: Seq<char>, c: char, i: int)
    requires
        0 <= i < s.len(),
        s[i] == c,
        forall|j: int| 0 <= j < i ==> s[j] != c,
    ensures
        first_index_of(s, c) == i,
        s.contains(c),
    decreases i,
{
    if i > 0 {
        assert(s.drop_first()[i - 1] == c);
        lemma_first_index_of_at(s.drop_first(), c, i - 1);
    }
}

/// Finds the first occurrence of `c` in `s`.
pub fn find_char(s: &str, c: char) -> (r: Option<usize>)
    ensures
        match r {
            Some(i) => s@.contains(c) && i == first_index_of(s@, c) && i < s@.len() && s@[
                i as int
            ] == c,
            None => !s@.contains(c),
        },
{
    let len = s.unicode_len();
    let mut i: usize = 0;
    while i < len
        invariant
            i <= len,
            len == s@.len(),
            forall|j: int| 0 <= j < i ==> s@[j] != c,
        decreases len - i,
    {
        if s.get_char(i) == c {
            proof {
                lemma_first_index_of_at(s@, c, i as int);
            }
            return Some(i);
        }
        i += 1;
    }
    proof {
        assert(forall|j: int| 0 <= j < s@.len() ==> s@[j] != c);
        if s@.contains(c) {
            let j = choose|j: int| 0 <= j < s@.len() && s@[j] == c;
            assert(s@[j] != c);
        }
    }
    None
}

/// Whether `prefix` is a prefix of `s`.
pub fn is_prefix(prefix: &str, s: &str) -> (r: bool)
    ensures
        r == prefix@.is_prefix_of(s@),
{
    let plen = prefix.unicode_len();
    let slen = s.unicode_len();
    if plen > slen {
        proof {
            assert(!prefix@.is_prefix_of(s@));
        }
        return false;
    }
    let mut i: usize = 0;
    while i < plen
        invariant
            i <= plen,
            plen == prefix@.len(),
            slen == s@.len(),
            plen <= slen,
            forall|j: int| 0 <= j < i ==> prefix@[j] == s@[j],
        decreases plen - i,
    {
        if prefix.get_char(i) != s.get_char(i) {
            proof {
                assert(!prefix@.is_prefix_of(s@)) by {
                    assert(prefix@[i as int] != s@.subrange(0, plen as int)[i as int]);
                }
            }
            return false;
        }
        i += 1;
    }
    proof {
        assert(prefix@ =~= s@.subrange(0, plen as int));
    }
    true
}

/// `s` with its leading spaces removed.
pub open spec fn drop_leading_spaces(s: Seq<char>) -> Seq<char>
    decreases s.len(),
{
    if s.len() > 0 && s[0] == ' ' {
        drop_leading_spaces(s.drop_first())
    } else {
        s
    }
}

/// `s` with its trailing spaces removed.
pub open spec fn drop_trailing_spaces(s: Seq<char>) -> Seq<char>
    decreases s.len(),
{
    if s.len() > 0 && s.last() == ' ' {
        drop_trailing_spaces(s.drop_last())
    } else {
        s
    }
}

/// `s` with leading and trailing spaces removed.
pub open spec fn trim_spaces(s: Seq<char>) -> Seq<char> {
    drop_trailing_spaces(drop_leading_spaces(s))
}

proof fn lemma_drop_leading_spaces_skip(s: Seq<char>, i: int)
    requires
        0 <= i <= s.len(),
        forall|j: int| 0 <= j < i ==> s[j] == ' ',
        i < s.len() ==> s[i] != ' ',
    ensures
        drop_leading_spaces(s) == s.skip(i),
    decreases i,
{
    if i == 0 {
        assert(s.skip(0) =~= s);
    } else {
        assert(s.drop_first() =~= s.skip(1));
        assert(forall|j: int| 0 <= j < i - 1 ==> s.skip(1)[j] == ' ');
        lemma_drop_leading_spaces_skip(s.skip(1), i - 1);
        assert(s.skip(1).skip(i - 1) =~= s.skip(i));
    }
}

proof fn lemma_drop_trailing_spaces_take(s: Seq<char>, i: int)
    requires
        0 <= i <= s.len(),
        forall|j: int| i <= j < s.len() ==> s[j] == ' ',
        i > 0 ==> s[i - 1] != ' ',
    ensures
        drop_trailing_spaces(s) == s.take(i),
    decreases s.len() - i,
{
    if i == s.len() {
        assert(s.take(i) =~= s);
    } else {
        assert(s.drop_last() =~= s.take(s.len() - 1));
        lemma_drop_trailing_spaces_take(s.take(s.len() - 1), i);
        assert(s.take(s.len() - 1).take(i) =~= s.take(i));
    }
}

/// `s` with leading and trailing spaces removed.
pub fn trim_spaces_exec(s: &str) -> (r: String)
    ensures
        r@ == trim_spaces(s@),
{
    let len = s.unicode_len();
    let mut start: usize = 0;
    while start < len && s.get_char(start) == ' '
        invariant
            start <= len,
            len == s@.len(),
            forall|j: int| 0 <= j < start ==> s@[j] == ' ',
        decreases len - start,
    {
        start += 1;
    }
    proof {
        lemma_drop_leading_spaces_skip(s@, start as int);
    }
    let mut end: usize = len;
    while end > start && s.get_char(end - 1) == ' '
        invariant
            start <= end <= len,
            len == s@.len(),
            forall|j: int| 0 <= j < start ==> s@[j] == ' ',
            forall|j: int| end <= j < len ==> s@[j] == ' ',
        decreases end,
    {
        end -= 1;
    }
    let part = s.substring_char(start, end);
    proof {
        let skipped = s@.skip(start as int);
        assert(forall|j: int|
            end - start <= j < skipped.len() ==> #[trigger] skipped[j] == ' ');
        if end > start {
            assert(skipped[end - start - 1] == s@[end - 1]);
        }
        lemma_drop_trailing_spaces_take(skipped, end - start);
        assert(skipped.take(end - start) =~= s@.subrange(start as int, end as int));
    }
    String::from_str(part)
}

/// `s` split on single spaces, empty pieces kept: one piece when `s`
/// holds no space, else everything before the first space followed by
/// the split of everything after it.
pub open spec fn split_spaces(s: Seq<char>) -> Seq<Seq<char>>
    decreases s.len(),
{
    if !s.contains(' ') {
        seq![s]
    } else {
        let i = first_index_of(s, ' ');
        if 0 <= i < s.len() {
            seq![s.take(i)] + split_spaces(s.skip(i + 1))
        } else {
            seq![s]
        }
    }
}

proof fn lemma_first_index_in_range(s: Seq<char>, c: char)
    requires
        s.contains(c),
    ensures
        0 <= first_index_of(s, c) < s.len(),
        s[first_index_of(s, c)] == c,
    decreases s.len(),
{
    if s[0] != c {
        let j = choose|j: int| 0 <= j < s.len() && s[j] == c;
        assert(s.drop_first()[j - 1] == c);
        assert(s.drop_first().contains(c));
        lemma_first_index_in_range(s.drop_first(), c);
    }
}

/// `s` split on single spaces, each piece as its own string.
pub fn split_spaces_exec(s: &str) -> (r: Vec<String>)
    ensures
        r@.map_values(|w: String| w@) == split_spaces(s@),
        r@.len() >= 1,
{
    let mut out: Vec<String> = Vec::new();
    let mut rest: &str = s;
    loop
        invariant
            split_spaces(s@) == out@.map_values(|w: String| w@) + split_spaces(rest@),
        decreases rest@.len(),
    {
        let ghost old_out = out@;
        let ghost old_rest = rest@;
        match find_char(rest, ' ') {
            Some(i) => {
                proof {
                    lemma_first_index_in_range(rest@, ' ');
                }
                let len = rest.unicode_len();
                let piece = rest.substring_char(0, i);
                out.push(String::from_str(piece));
                rest = rest.substring_char(i + 1, len);
                proof {
                    assert(old_rest.subrange(0, i as int) =~= old_rest.take(i as int));
                    assert(old_rest.subrange(i + 1, old_rest.len() as int) =~= old_rest.skip(
                        i + 1,
                    ));
                    assert(out@.map_values(|w: String| w@) =~= old_out.map_values(
                        |w: String| w@,
                    ).push(old_rest.take(i as int)));
                    assert(split_spaces(old_rest) =~= seq![old_rest.take(i as int)]
                        + split_spaces(old_rest.skip(i + 1)));
                    assert(out@.map_values(|w: String| w@) + split_spaces(rest@)
                        =~= old_out.map_values(|w: String| w@) + split_spaces(old_rest));
                }
            },
            None => {
                out.push(String::from_str(rest));
                proof {
                    assert(split_spaces(old_rest) =~= seq![old_rest]);
                    assert(out@.map_values(|w: String| w@) =~= old_out.map_values(
                        |w: String| w@,
                    ).push(old_rest));
                    assert(out@.map_values(|w: String| w@) =~= old_out.map_values(
                        |w: String| w@,
                    ) + split_spaces(old_rest));
                    assert(out@.map_values(|w: String| w@).len() >= 1);
                }
                return out;
            },
        }
    }
}

} // verus!
