//! Rendering of commit timestamps as ISO-8601 UTC text.
//!
//! The rendering is a pure function of the epoch second — the proleptic
//! Gregorian calendar worked out year by year and month by month — so the
//! timestamp carried by a push event is pinned exactly, with nothing
//! taken on trust and no dependence on the machine's time zone.

use vstd::prelude::*;
use vstd::string::StringExecFns;

verus! {

/// Whether `y` is a Gregorian leap year.
pub open spec fn is_leap_year(y: int) -> bool {
    y % 4 == 0 && (y % 100 != 0 || y % 400 == 0)
}

/// The number of days of year `y`.
pub open spec fn days_in_year(y: int) -> int {
    if is_leap_year(y) {
        366
    } else {
        365
    }
}

/// The number of days of month `m` (1 to 12) of year `y`.
pub open spec fn days_in_month(y: int, m: int) -> int {
    if m == 2 {
        if is_leap_year(y) {
            29
        } else {
            28
        }
    } else if m == 4 || m == 6 || m == 9 || m == 11 {
        30
    } else {
        31
    }
}

/// Steps whole years forward from `y`: the year that day number `days`
/// falls in, and the day's offset within it.
pub open spec fn resolve_year(y: int, days: int) -> (int, int)
    decreases days,
{
    if days >= days_in_year(y) {
        resolve_year(y + 1, days - days_in_year(y))
    } else {
        (y, days)
    }
}

/// Steps whole months forward from `m` within year `y`: the month that
/// day offset `days` falls in, and the day's offset within it.
pub open spec fn resolve_month(y: int, m: int, days: int) -> (int, int)
    decreases 12 - m,
{
    if m < 12 && days >= days_in_month(y, m) {
        resolve_month(y, m + 1, days - days_in_month(y, m))
    } else {
        (m, days)
    }
}

/// The decimal digit character for `n`, in `0 .. 10`.
pub open spec fn digit_char(n: int) -> char {
    ((48 + n) as u8) as char
}

/// `n` as two decimal digits, zero-padded.
pub open spec fn pad2(n: int) -> Seq<char> {
    seq![digit_char(n / 10), digit_char(n % 10)]
}

/// `n` as four decimal digits, zero-padded.
pub open spec fn pad4(n: int) -> Seq<char> {
    seq![
        digit_char(n / 1000),
        digit_char((n / 100) % 10),
        digit_char((n / 10) % 10),
        digit_char(n % 10),
    ]
}

/// The ISO-8601 UTC rendering `YYYY-MM-DDThh:mm:ssZ` of the epoch second
/// `secs`.
pub open spec fn iso_utc_of(secs: int) -> Seq<char> {
    let days = secs / 86400;
    let rem = secs % 86400;
    let yd = resolve_year(1970, days);
    let md = resolve_month(yd.0, 1, yd.1);
    pad4(yd.0) + seq!['-'] + pad2(md.0) + seq!['-'] + pad2(md.1 + 1) + seq!['T'] + pad2(
        rem / 3600,
    ) + seq![':'] + pad2((rem % 3600) / 60) + seq![':'] + pad2(rem % 60) + seq!['Z']
}

/// Whether `y` is a Gregorian leap year.
fn leap(y: u64) -> (r: bool)
    ensures
        r == is_leap_year(y as int),
{
    y % 4 == 0 && (y % 100 != 0 || y % 400 == 0)
}

/// The number of days of year `y`.
fn year_days(y: u64) -> (r: u64)
    ensures
        r as int == days_in_year(y as int),
{
    if leap(y) {
        366
    } else {
        365
    }
}

/// The number of days of month `m` of year `y`.
fn month_days(y: u64, m: u64) -> (r: u64)
    ensures
        r as int == days_in_month(y as int, m as int),
{
    if m == 2 {
        if leap(y) {
            29
        } else {
            28
        }
    } else if m == 4 || m == 6 || m == 9 || m == 11 {
        30
    } else {
        31
    }
}

/// The decimal digit character for `n`, as a one-character string.
fn digit_str(n: u64) -> (r: &'static str)
    requires
        n < 10,
    ensures
        r@ =~= seq![digit_char(n as int)],
{
    proof {
        reveal_strlit("0");
        reveal_strlit("1");
        reveal_strlit("2");
        reveal_strlit("3");
        reveal_strlit("4");
        reveal_strlit("5");
        reveal_strlit("6");
        reveal_strlit("7");
        reveal_strlit("8");
        reveal_strlit("9");
    }
    match n {
        0 => "0",
        1 => "1",
        2 => "2",
        3 => "3",
        4 => "4",
        5 => "5",
        6 => "6",
        7 => "7",
        8 => "8",
        _ => "9",
    }
}

/// Appends `n` as two zero-padded digits.
fn push_pad2(out: &mut String, n: u64)
    requires
        n < 100,
    ensures
        final(out)@ == old(out)@ + pad2(n as int),
{
    out.append(digit_str(n / 10));
    out.append(digit_str(n % 10));
    proof {
        assert(out@ =~= old(out)@ + pad2(n as int));
    }
}

/// Appends `n` as four zero-padded digits.
fn push_pad4(out: &mut String, n: u64)
    requires
        n < 10000,
    ensures
        final(out)@ == old(out)@ + pad4(n as int),
{
    out.append(digit_str(n / 1000));
    out.append(digit_str((n / 100) % 10));
    out.append(digit_str((n / 10) % 10));
    out.append(digit_str(n % 10));
    proof {
        assert(out@ =~= old(out)@ + pad4(n as int));
    }
}

/// Formats a commit's epoch-second timestamp as UTC ISO-8601 text, e.g.
/// `1970-01-01T00:00:00Z`: the exact rendering for every second from
/// 1970 up to within year 9992, and the empty string rather than a
/// failure outside that range (the format carries four year digits).
pub fn format_commit_time(secs: i64) -> (r: String)
    ensures
        0 <= secs <= 253_202_544_000i64 ==> r@ == iso_utc_of(secs as int),
        !(0 <= secs <= 253_202_544_000i64) ==> r@ == Seq::<char>::empty(),
{
    if !(0 <= secs && secs <= 253_202_544_000i64) {
        return String::new();
    }
    let total = secs as u64;
    let mut days: u64 = total / 86400;
    let rem: u64 = total % 86400;
    let ghost days0 = days as int;
    let mut year: u64 = 1970;
    while days >= year_days(year)
        invariant
            1970 <= year,
            days0 <= 2_930_585,
            days as int <= days0,
            365 * (year - 1970) <= days0 - days,
            resolve_year(1970, days0) == resolve_year(year as int, days as int),
        decreases days,
    {
        days = days - year_days(year);
        year = year + 1;
    }
    proof {
        assert(resolve_year(year as int, days as int) == (year as int, days as int));
    }
    let ghost dd0 = days as int;
    let mut m: u64 = 1;
    while m < 12 && days >= month_days(year, m)
        invariant
            1 <= m <= 12,
            dd0 <= 365,
            days as int <= dd0 - 28 * (m - 1),
            resolve_month(year as int, 1, dd0) == resolve_month(year as int, m as int, days as int),
        decreases 12 - m,
    {
        days = days - month_days(year, m);
        m = m + 1;
    }
    proof {
        assert(resolve_month(year as int, m as int, days as int) == (m as int, days as int));
    }
    let mut out = String::new();
    push_pad4(&mut out, year);
    out.append("-");
    push_pad2(&mut out, m);
    out.append("-");
    push_pad2(&mut out, days + 1);
    out.append("T");
    push_pad2(&mut out, rem / 3600);
    out.append(":");
    push_pad2(&mut out, (rem % 3600) / 60);
    out.append(":");
    push_pad2(&mut out, rem % 60);
    out.append("Z");
    proof {
        reveal_strlit("-");
        reveal_strlit("T");
        reveal_strlit(":");
        reveal_strlit("Z");
        assert(out@ =~= iso_utc_of(secs as int));
    }
    out
}

} // verus!
