//! Instants given as Indian Standard Time (UTC+05:30).
use vstd::prelude::*;
use chrono::TimeZone;

verus! {

/// The offset of Indian Standard Time from UTC, in seconds.
pub const IST_OFFSET_SECS: i64 = 19800;

/// Whether `year` is a leap year of the proleptic Gregorian calendar.
pub open spec fn is_leap_year(year: int) -> bool {
    (year % 4 == 0 && year % 100 != 0) || year % 400 == 0
}

/// The number of days of `month` (1 to 12) in `year`.
pub open spec fn days_in_month(year: int, month: int) -> int {
    if month == 2 {
        if is_leap_year(year) {
            29
        } else {
            28
        }
    } else if month == 4 || month == 6 || month == 9 || month == 11 {
        30
    } else {
        31
    }
}

/// Whether the arguments name a date and a time of day.
pub open spec fn is_valid_time(year: int, month: int, day: int, hour: int, minute: int) -> bool {
    &&& 1 <= month <= 12
    &&& 1 <= day <= days_in_month(year, month)
    &&& 0 <= hour < 24
    &&& 0 <= minute < 60
}

/// The number of days from 1970-01-01 to the given date of the proleptic
/// Gregorian calendar.
pub open spec fn days_from_civil(year: int, month: int, day: int) -> int {
    let y = if month <= 2 {
        year - 1
    } else {
        year
    };
    let era = y / 400;
    let yoe = y - era * 400;
    let mp = (month + 9) % 12;
    let doy = (153 * mp + 2) / 5 + day - 1;
    let doe = yoe * 365 + yoe / 4 - yoe / 100 + doy;
    era * 146097 + doe - 719468
}

/// The Unix timestamp of the given IST date and time, at second zero.
pub open spec fn ist_seconds(year: int, month: int, day: int, hour: int, minute: int) -> int {
    days_from_civil(year, month, day) * 86400 + hour * 3600 + minute * 60 - IST_OFFSET_SECS
}

/// Relies on `chrono`'s `FixedOffset::with_ymd_and_hms` (an offset of
/// +05:30) and `DateTime::timestamp`: an invalid date or time gives no
/// instant, and a valid one well inside chrono's range of years gives its
/// Unix timestamp.
#[verifier::external_body]
fn ist_timestamp(year: i32, month: u32, day: u32, hour: u32, minute: u32) -> (r: Option<i64>)
    ensures
        r is Some ==> is_valid_time(year as int, month as int, day as int, hour as int, minute as int),
        is_valid_time(year as int, month as int, day as int, hour as int, minute as int)
            && -262000 <= year <= 262000 ==> r == Some(
            ist_seconds(year as int, month as int, day as int, hour as int, minute as int) as i64,
        ),
{
    let ist = chrono::FixedOffset::east_opt(IST_OFFSET_SECS as i32)?;
    ist.with_ymd_and_hms(year, month, day, hour, minute, 0).single().map(|t| t.timestamp())
}

/// The Unix timestamp of a date and time given in Indian Standard Time.
pub fn ist_datetime(year: i32, month: u32, day: u32, hour: u32, minute: u32) -> (r: i64)
    requires
        is_valid_time(year as int, month as int, day as int, hour as int, minute as int),
        -262000 <= year <= 262000,
    ensures
        r == ist_seconds(year as int, month as int, day as int, hour as int, minute as int),
{
    let t = ist_timestamp(year, month, day, hour, minute);
    proof {
        lemma_ist_seconds_fits(year as int, month as int, day as int, hour as int, minute as int);
    }
    t.unwrap()
}

proof fn lemma_ist_seconds_fits(year: int, month: int, day: int, hour: int, minute: int)
    requires
        is_valid_time(year, month, day, hour, minute),
        -262000 <= year <= 262000,
    ensures
        i64::MIN <= ist_seconds(year, month, day, hour, minute) <= i64::MAX,
{
    let y = if month <= 2 {
        year - 1
    } else {
        year
    };
    let era = y / 400;
    let yoe = y - era * 400;
    assert(0 <= yoe < 400);
    assert(-700 <= era <= 700);
    let mp = (month + 9) % 12;
    let doy = (153 * mp + 2) / 5 + day - 1;
    assert(0 <= doy <= 400) by (nonlinear_arith)
        requires
            0 <= mp < 12,
            1 <= day <= 31,
            doy == (153 * mp + 2) / 5 + day - 1,
    ;
    let doe = yoe * 365 + yoe / 4 - yoe / 100 + doy;
    assert(0 <= doe <= 400 * 366) by (nonlinear_arith)
        requires
            0 <= yoe < 400,
            0 <= doy <= 400,
            doe == yoe * 365 + yoe / 4 - yoe / 100 + doy,
    ;
    let days = era * 146097 + doe - 719468;
    assert(-200000000 <= days <= 200000000) by (nonlinear_arith)
        requires
            -700 <= era <= 700,
            0 <= doe <= 400 * 366,
            days == era * 146097 + doe - 719468,
    ;
    assert(days == days_from_civil(year, month, day));
}

} // verus!
