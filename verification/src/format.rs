use vstd::prelude::*;
use vstd::string::{StrSliceExecFns, StringExecFns};

use crate::text::{find_char, find_from};

verus! {

/// The characters before the first dot, a dot, then the characters between
/// the first dot and the second (or the end).
pub open spec fn spec_major_minor(s: Seq<char>) -> Seq<char> {
    let d1 = find_from(s, '.', 0);
    let d2 = find_from(s, '.', d1 + 1);
    s.take(d1) + "."@ + s.subrange(d1 + 1, d2)
}

/// Cuts a version string down to its major and minor components. A version
/// without a dot has no major and minor to speak of and is not accepted.
pub fn version_to_major_minor(version: String) -> (r: String)
    requires
        find_from(version@, '.', 0) < version@.len(),
    ensures
        r@ == spec_major_minor(version@),
{
    let s = version.as_str();
    let n = s.unicode_len();
    let d1 = find_char(s, '.', 0);
    let d2 = find_char(s, '.', d1 + 1);
    let mut r = String::from_str(s.substring_char(0, d1));
    r.append(".");
    r.append(s.substring_char(d1 + 1, d2));
    proof {
        assert(r@ =~= spec_major_minor(version@));
    }
    r
}

/// A year with one day more every fourth year, except every hundredth,
/// except every four-hundredth.
pub open spec fn is_leap_year(y: int) -> bool {
    y % 4 == 0 && (y % 100 != 0 || y % 400 == 0)
}

/// How many days the year has.
pub open spec fn days_in_year(y: int) -> int {
    if is_leap_year(y) {
        366
    } else {
        365
    }
}

/// How many days the month (1 to 12) of the year has.
pub open spec fn days_in_month(y: int, m: int) -> int {
    if m == 2 {
        if is_leap_year(y) {
            29
        } else {
            28
        }
    } else if m == 4 || m == 6 || m == 9 || m == 11 {
        30
    } else {
        31
    }
}

/// Resolves a day count against consecutive years starting at `y`: the year
/// the day falls in, and the zero-based day within it.
pub open spec fn year_and_day(y: int, d: int) -> (int, int)
    decreases d,
{
    if d < days_in_year(y) || d < 0 {
        (y, d)
    } else {
        year_and_day(y + 1, d - days_in_year(y))
    }
}

/// Resolves a day count within a year against its months starting at `m`:
/// the one-based month the day falls in, and the zero-based day within it.
pub open spec fn month_and_day(y: int, m: int, d: int) -> (int, int)
    decreases 12 - m,
{
    if m >= 12 || d < days_in_month(y, m) || d < 0 {
        (m, d)
    } else {
        month_and_day(y, m + 1, d - days_in_month(y, m))
    }
}

/// The decimal digit as a character.
pub open spec fn digit_char(d: int) -> char {
    ((d + 48) as u8) as char
}

/// The number, zero-padded to two digits.
pub open spec fn two_digits(n: int) -> Seq<char> {
    seq![digit_char(n / 10), digit_char(n % 10)]
}

/// The number, as four digits.
pub open spec fn four_digits(n: int) -> Seq<char> {
    seq![
        digit_char(n / 1000 % 10),
        digit_char(n / 100 % 10),
        digit_char(n / 10 % 10),
        digit_char(n % 10),
    ]
}

/// A timestamp of whole seconds rendered as day/month/year hour:minute,
/// each piece two digits but the four-digit year, counting from the epoch
/// of 1970 in the proleptic Gregorian calendar.
pub open spec fn spec_format_timestamp(secs: int) -> Seq<char> {
    let days = secs / 86400;
    let rem = secs % 86400;
    let y = year_and_day(1970, days).0;
    let yd = year_and_day(1970, days).1;
    let m = month_and_day(y, 1, yd).0;
    let md = month_and_day(y, 1, yd).1;
    two_digits(md + 1) + "/"@ + two_digits(m) + "/"@ + four_digits(y) + " "@ + two_digits(
        rem / 3600,
    ) + ":"@ + two_digits(rem % 3600 / 60)
}

/// One decimal digit as text.
pub fn digit_str(d: u64) -> (r: &'static str)
    requires
        d < 10,
    ensures
        r@ =~= seq![digit_char(d as int)],
{
    proof {
        reveal_strlit("0");
        reveal_strlit("1");
        reveal_strlit("2");
        reveal_strlit("3");
        reveal_strlit("4");
        reveal_strlit("5");
        reveal_strlit("6");
        reveal_strlit("7");
        reveal_strlit("8");
        reveal_strlit("9");
    }
    if d == 0 {
        "0"
    } else if d == 1 {
        "1"
    } else if d == 2 {
        "2"
    } else if d == 3 {
        "3"
    } else if d == 4 {
        "4"
    } else if d == 5 {
        "5"
    } else if d == 6 {
        "6"
    } else if d == 7 {
        "7"
    } else if d == 8 {
        "8"
    } else {
        "9"
    }
}

/// Appends the number as two digits.
fn append_two_digits(out: &mut String, n: u64)
    requires
        n < 100,
    ensures
        final(out)@ == old(out)@ + two_digits(n as int),
{
    out.append(digit_str(n / 10));
    out.append(digit_str(n % 10));
    proof {
        assert(old(out)@ + seq![digit_char(n as int / 10)] + seq![digit_char(n as int % 10)]
            =~= old(out)@ + two_digits(n as int));
    }
}

/// Days in the year, computed.
fn days_in_year_exec(y: u64) -> (r: u64)
    ensures
        r == days_in_year(y as int),
{
    if y % 4 == 0 && (y % 100 != 0 || y % 400 == 0) {
        366
    } else {
        365
    }
}

/// Days in the month, computed.
fn days_in_month_exec(y: u64, m: u64) -> (r: u64)
    ensures
        r == days_in_month(y as int, m as int),
{
    if m == 2 {
        if y % 4 == 0 && (y % 100 != 0 || y % 400 == 0) {
            29
        } else {
            28
        }
    } else if m == 4 || m == 6 || m == 9 || m == 11 {
        30
    } else {
        31
    }
}

/// Renders a timestamp of whole seconds since the 1970 epoch as
/// day/month/year hour:minute. Accepts timestamps far into the ninth
/// millennium, so the year always has four digits.
#[verifier::rlimit(60)]
pub fn format_timestamp(secs: u64) -> (r: String)
    requires
        secs < 253234080000,
    ensures
        r@ == spec_format_timestamp(secs as int),
{
    let days: u64 = secs / 86400;
    let rem: u64 = secs % 86400;
    let hh: u64 = rem / 3600;
    let mi: u64 = rem % 3600 / 60;
    let mut y: u64 = 1970;
    let mut d: u64 = days;
    while d >= days_in_year_exec(y)
        invariant
            d <= days,
            days < 2930950,
            y >= 1970,
            y - 1970 <= days - d,
            year_and_day(1970, days as int) == year_and_day(y as int, d as int),
        decreases d,
    {
        d = d - days_in_year_exec(y);
        y = y + 1;
    }
    let mut m: u64 = 1;
    while m < 12 && d >= days_in_month_exec(y, m)
        invariant
            1 <= m <= 12,
            d <= days,
            y >= 1970,
            d < days_in_year(y as int) - 28 * (m - 1),
            month_and_day(y as int, 1, year_and_day(1970, days as int).1) == month_and_day(
                y as int,
                m as int,
                d as int,
            ),
        decreases 12 - m,
    {
        d = d - days_in_month_exec(y, m);
        m = m + 1;
    }
    let ghost yv = year_and_day(1970, days as int).0;
    let ghost mv = month_and_day(yv, 1, year_and_day(1970, days as int).1).0;
    let ghost mdv = month_and_day(yv, 1, year_and_day(1970, days as int).1).1;
    proof {
        assert(yv == y as int);
        assert(mv == m as int && mdv == d as int);
        assert(d < 99);
        assert(y < 10000) by {
            lemma_year_bound(1970, days as int);
        }
    }
    let mut out = String::new();
    append_two_digits(&mut out, d + 1);
    out.append("/");
    append_two_digits(&mut out, m);
    out.append("/");
    append_two_digits(&mut out, y / 100);
    append_two_digits(&mut out, y % 100);
    out.append(" ");
    append_two_digits(&mut out, hh);
    out.append(":");
    append_two_digits(&mut out, mi);
    proof {
        assert(two_digits(y as int / 100) + two_digits(y as int % 100) =~= four_digits(y as int));
        assert(out@ =~= spec_format_timestamp(secs as int));
    }
    out
}

/// Starting from 1970 with fewer days than ten thousand years hold, the
/// resolved year stays below ten thousand.
proof fn lemma_year_bound(y: int, d: int)
    requires
        1970 <= y,
        0 <= d,
        d < 365 * (10000 - y),
    ensures
        year_and_day(y, d).0 < 10000,
    decreases d,
{
    if d < days_in_year(y) {
    } else {
        lemma_year_bound(y + 1, d - days_in_year(y));
    }
}

} // verus!
