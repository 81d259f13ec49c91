//! Rendering of file timestamps: chrono turns a Unix timestamp into
//! UTC calendar fields, and verified code renders those fields as
//! `YYYY/MM/DD HH:MM`.

use chrono::Datelike;
use chrono::Timelike;
use vstd::prelude::*;
use vstd::string::StringExecFns;

use crate::numfmt::dec_str_padded;
use crate::numfmt::u64_to_string_padded;

verus! {

/// The UTC calendar fields (year, month, day, hour, minute) that the
/// Unix timestamp `secs` denotes. The fields are a function of the
/// seconds alone.
pub uninterp spec fn utc_field_parts(secs: int) -> (int, int, int, int, int);

/// Relies on chrono's `DateTime::from_timestamp` and its `Datelike` /
/// `Timelike` accessors: the UTC calendar fields of a count of
/// non-leap seconds since the Unix epoch. chrono documents the field
/// ranges (month 1..=12, day 1..=31, hour 0..=23, minute 0..=59, the
/// year an `i32`), returns `None` only for out-of-range seconds, and
/// represents all dates up to year 9999 and beyond.
#[verifier::external_body]
fn utc_calendar(secs: i64) -> (r: Option<(i64, u8, u8, u8, u8)>)
    ensures
        match r {
            Some(f) => {
                &&& (f.0 as int, f.1 as int, f.2 as int, f.3 as int, f.4 as int)
                    == utc_field_parts(secs as int)
                &&& 1 <= f.1 <= 12
                &&& 1 <= f.2 <= 31
                &&& f.3 <= 23
                &&& f.4 <= 59
                &&& -2147483648 <= f.0 <= 2147483647
            },
            None => true,
        },
        0 <= secs <= 253402300799 ==> r is Some,
{
    match chrono::DateTime::from_timestamp(secs, 0) {
        Some(t) => Some(
            (t.year() as i64, t.month() as u8, t.day() as u8, t.hour() as u8, t.minute() as u8),
        ),
        None => None,
    }
}

/// A year as `%Y` renders it: zero-padded to four digits, with a
/// leading sign when negative.
pub open spec fn year_str(y: int) -> Seq<char> {
    if y < 0 {
        seq!['-'] + dec_str_padded((-y) as nat, 4)
    } else {
        dec_str_padded(y as nat, 4)
    }
}

/// Calendar fields rendered as `YYYY/MM/DD HH:MM`.
pub open spec fn ymdhm_str(y: int, mo: int, d: int, h: int, mi: int) -> Seq<char> {
    year_str(y) + seq!['/'] + dec_str_padded(mo as nat, 2) + seq!['/'] + dec_str_padded(
        d as nat,
        2,
    ) + seq![' '] + dec_str_padded(h as nat, 2) + seq![':'] + dec_str_padded(mi as nat, 2)
}

/// The placeholder shown for a timestamp chrono cannot represent.
pub open spec fn out_of_range_text() -> Seq<char> {
    "????/??/?? ??:??"@
}

/// Renders calendar fields as `YYYY/MM/DD HH:MM`.
pub fn format_calendar(y: i64, mo: u8, d: u8, h: u8, mi: u8) -> (r: String)
    requires
        -2147483648 <= y <= 2147483647,
    ensures
        r@ == ymdhm_str(y as int, mo as int, d as int, h as int, mi as int),
{
    proof {
        reveal_strlit("-");
        reveal_strlit("/");
        reveal_strlit(" ");
        reveal_strlit(":");
    }
    let mut s = if y < 0 {
        let mut t = String::from_str("-");
        let mag = u64_to_string_padded((-y) as u64, 4);
        t.append(mag.as_str());
        proof {
            assert(t@ =~= year_str(y as int));
        }
        t
    } else {
        u64_to_string_padded(y as u64, 4)
    };
    s.append("/");
    let mo_text = u64_to_string_padded(mo as u64, 2);
    s.append(mo_text.as_str());
    s.append("/");
    let d_text = u64_to_string_padded(d as u64, 2);
    s.append(d_text.as_str());
    s.append(" ");
    let h_text = u64_to_string_padded(h as u64, 2);
    s.append(h_text.as_str());
    s.append(":");
    let mi_text = u64_to_string_padded(mi as u64, 2);
    s.append(mi_text.as_str());
    proof {
        assert(s@ =~= ymdhm_str(y as int, mo as int, d as int, h as int, mi as int));
    }
    s
}

/// Renders the Unix timestamp `secs` as `YYYY/MM/DD HH:MM` in UTC; a
/// timestamp that chrono cannot represent renders as a placeholder.
pub fn format_timestamp(secs: i64) -> (r: String)
    ensures
        ({
            let f = utc_field_parts(secs as int);
            r@ == ymdhm_str(f.0, f.1, f.2, f.3, f.4) || r@ == out_of_range_text()
        }),
        0 <= secs <= 253402300799 ==> ({
            let f = utc_field_parts(secs as int);
            r@ == ymdhm_str(f.0, f.1, f.2, f.3, f.4)
        }),
{
    match utc_calendar(secs) {
        Some(f) => format_calendar(f.0, f.1, f.2, f.3, f.4),
        None => String::from_str("????/??/?? ??:??"),
    }
}

} // verus!
