//! Civil dates of nanosecond Unix timestamps, in the proleptic Gregorian calendar (UTC).
use vstd::prelude::*;

verus! {

pub const NANOS_PER_MINUTE: u64 = 60_000_000_000;

pub const NANOS_PER_HOUR: u64 = 3_600_000_000_000;

pub const NANOS_PER_DAY: u64 = 86_400_000_000_000;

pub open spec fn is_leap(y: nat) -> bool {
    y % 4 == 0 && (y % 100 != 0 || y % 400 == 0)
}

pub open spec fn year_len(y: nat) -> nat {
    if is_leap(y) { 366 } else { 365 }
}

/// Days in month `m` (1 to 12) of year `y`.
pub open spec fn month_len(y: nat, m: nat) -> nat {
    if m == 2 {
        if is_leap(y) { 29 } else { 28 }
    } else if m == 4 || m == 6 || m == 9 || m == 11 {
        30
    } else {
        31
    }
}

/// Year, month and day of day `doy` (from zero) of year `y`, counting months from `m`.
pub open spec fn month_day(y: nat, m: nat, doy: nat) -> (nat, nat, nat)
    decreases 12 - m,
{
    if m < 12 && doy >= month_len(y, m) {
        month_day(y, m + 1, (doy - month_len(y, m)) as nat)
    } else {
        (y, m, doy + 1)
    }
}

/// Year, month and day that lie `days` days after the first of January of year `y`.
pub open spec fn civil_from(y: nat, days: nat) -> (nat, nat, nat)
    decreases days,
{
    if days >= year_len(y) {
        civil_from(y + 1, (days - year_len(y)) as nat)
    } else {
        month_day(y, 1, days)
    }
}

/// Year, month and day of the day that holds nanosecond `ts` since the Unix epoch.
pub open spec fn civil_date(ts: nat) -> (nat, nat, nat) {
    civil_from(1970, ts / (NANOS_PER_DAY as nat))
}

fn is_leap_exec(y: u64) -> (r: bool)
    ensures
        r == is_leap(y as nat),
{
    y % 4 == 0 && (y % 100 != 0 || y % 400 == 0)
}

fn year_len_exec(y: u64) -> (r: u64)
    ensures
        r == year_len(y as nat),
{
    if is_leap_exec(y) { 366 } else { 365 }
}

fn month_len_exec(y: u64, m: u64) -> (r: u64)
    ensures
        r == month_len(y as nat, m as nat),
{
    if m == 2 {
        if is_leap_exec(y) { 29 } else { 28 }
    } else if m == 4 || m == 6 || m == 9 || m == 11 {
        30
    } else {
        31
    }
}

/// The civil date of nanosecond `ts` since the Unix epoch, as (year, month, day).
pub fn date_of(ts: u64) -> (r: (u64, u64, u64))
    ensures
        (r.0 as nat, r.1 as nat, r.2 as nat) == civil_date(ts as nat),
        1 <= r.1 <= 12,
{
    let days = ts / NANOS_PER_DAY;
    assert(days <= 213504);
    let mut y: u64 = 1970;
    let mut rem: u64 = days;
    while rem >= year_len_exec(y)
        invariant
            civil_from(y as nat, rem as nat) == civil_date(ts as nat),
            rem <= days,
            days <= 213504,
            365 * (y - 1970) + rem <= days,
            1970 <= y,
        decreases rem,
    {
        rem = rem - year_len_exec(y);
        y = y + 1;
    }
    let mut m: u64 = 1;
    while m < 12 && rem >= month_len_exec(y, m)
        invariant
            month_day(y as nat, m as nat, rem as nat) == civil_date(ts as nat),
            1 <= m <= 12,
            y <= 1970 + 213504,
            rem <= 213504,
        decreases 12 - m,
    {
        rem = rem - month_len_exec(y, m);
        m = m + 1;
    }
    (y, m, rem + 1)
}

} // verus!
