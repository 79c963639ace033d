//! Calendar dates as day numbers, and the arithmetic the license rules do
//! on them.
//!
//! A [`Date`] is the number of days since the start of the proleptic
//! Gregorian calendar (1 January of year 1 is day 1), exactly as chrono
//! counts them, within the range of dates chrono can represent.  Adding days
//! is integer arithmetic on that number.  Turning a day number into a year,
//! month and day and back, and reading an ISO date, is chrono's work; the
//! first two are stated below as proleptic Gregorian day counting.
use vstd::prelude::*;

use crate::text::{dec_zero_padded, push_char, push_dec_padded};
use chrono::Datelike;

verus! {

/// Day number of the earliest date chrono represents (1 January 262144 BCE).
pub const MIN_DAY: i32 = -95746129;

/// Day number of the latest date chrono represents (31 December 262142 CE).
pub const MAX_DAY: i32 = 95745399;

/// A calendar date, held as its day number.
#[derive(Clone, Copy, Debug, PartialEq, Eq, Structural)]
pub struct Date {
    days: i32,
}

/// A date and a time of day, as stored in database rows.
#[derive(Clone, Copy, Debug, PartialEq, Eq, Structural)]
pub struct DateTime {
    pub date: Date,
    pub hour: u32,
    pub minute: u32,
    pub second: u32,
    pub micro: u32,
}

/// Whether a year is a leap year of the proleptic Gregorian calendar.
pub open spec fn is_leap_year(y: int) -> bool {
    (y % 4 == 0 && y % 100 != 0) || y % 400 == 0
}

/// The number of days of a month (1 to 12) of a year.
pub open spec fn days_in_month(y: int, m: int) -> int {
    if m == 2 {
        if is_leap_year(y) { 29 } else { 28 }
    } else if m == 4 || m == 6 || m == 9 || m == 11 {
        30
    } else {
        31
    }
}

/// The days of a year before the first of a month.
pub open spec fn days_before_month(y: int, m: int) -> int
    decreases m,
{
    if m <= 1 {
        0
    } else {
        days_before_month(y, m - 1) + days_in_month(y, m - 1)
    }
}

/// The days from 1 January of year 1 to 1 January of a year (negative
/// before year 1).
pub open spec fn days_before_year(y: int) -> int {
    let p = y - 1;
    365 * p + p / 4 - p / 100 + p / 400
}

/// Whether a year, month and day name a date chrono represents: a year from
/// -262143 to 262142, a month from 1 to 12, and a day of that month.
pub open spec fn ymd_valid(y: int, m: int, d: int) -> bool {
    &&& -262143 <= y <= 262142
    &&& 1 <= m <= 12
    &&& 1 <= d <= days_in_month(y, m)
}

/// The day number of a year, month and day: 1 January of year 1 is day 1.
pub open spec fn day_number(y: int, m: int, d: int) -> int {
    days_before_year(y) + days_before_month(y, m) + d
}

/// What chrono's `NaiveDate::from_ymd_opt` followed by `num_days_from_ce`
/// gives for a year, month and day: the day number of a date it represents.
pub open spec fn chrono_days_from_ymd(year: i32, month: u32, day: u32) -> Option<i32> {
    if ymd_valid(year as int, month as int, day as int) {
        Some(day_number(year as int, month as int, day as int) as i32)
    } else {
        None
    }
}

/// The year, month and day chrono gives for a day number: the date it
/// represents whose day number that is.
pub open spec fn chrono_ymd_of_days(days: i32) -> (i32, u32, u32) {
    choose|t: (i32, u32, u32)|
        ymd_valid(t.0 as int, t.1 as int, t.2 as int) && day_number(t.0 as int, t.1 as int, t.2 as int) == days
}

/// The day number of the date chrono's `NaiveDate::from_str` reads from a
/// text, if it reads one.
pub uninterp spec fn chrono_parse_date(text: Seq<char>) -> Option<i32>;

/// Whether a day number lies in chrono's range.
pub open spec fn day_in_range(days: int) -> bool {
    MIN_DAY <= days <= MAX_DAY
}

impl Date {
    #[verifier::type_invariant]
    spec fn in_range(self) -> bool {
        day_in_range(self.days as int)
    }

    /// The day number of this date.
    pub closed spec fn day(self) -> int {
        self.days as int
    }

    /// A date is determined by its day number.
    pub proof fn lemma_day_determines_date(a: Date, b: Date)
        ensures
            a.day() as i32 == b.day() as i32 ==> a == b,
    {
    }

    /// The day number, which lies in chrono's range.
    pub fn days(&self) -> (r: i32)
        ensures
            r == self.day(),
            day_in_range(r as int),
    {
        proof {
            use_type_invariant(self);
        }
        self.days
    }

    /// The date with the given day number, if chrono can represent it.
    pub fn from_days(days: i64) -> (r: Option<Date>)
        ensures
            r is Some <==> day_in_range(days as int),
            r matches Some(d) ==> d.day() == days,
    {
        if MIN_DAY as i64 <= days && days <= MAX_DAY as i64 {
            Some(Date { days: days as i32 })
        } else {
            None
        }
    }

    /// The date `n` days later (earlier for negative `n`), if it is in
    /// range; chrono's `checked_add_signed` with a whole number of days.
    pub fn checked_add_days(self, n: i64) -> (r: Option<Date>)
        ensures
            r is Some <==> day_in_range(self.day() + n),
            r matches Some(d) ==> d.day() == self.day() + n,
    {
        let d = self.days() as i64;
        if n > (MAX_DAY as i64) - d || n < (MIN_DAY as i64) - d {
            None
        } else {
            Date::from_days(d + n)
        }
    }

    /// The date for a year, month and day (chrono's `from_ymd_opt`).
    #[verifier::external_body]
    pub fn from_ymd_opt(year: i32, month: u32, day: u32) -> (r: Option<Date>)
        ensures
            r matches Some(d) ==> Some(d.day() as i32) == chrono_days_from_ymd(year, month, day)
                && chrono_ymd_of_days(d.day() as i32) == (year, month, day),
            r is None ==> chrono_days_from_ymd(year, month, day) is None,
    {
        chrono::NaiveDate::from_ymd_opt(year, month, day).map(|d| Date { days: d.num_days_from_ce() })
    }

    /// The year, month and day of this date (chrono's `Datelike`).
    #[verifier::external_body]
    pub fn ymd(&self) -> (r: (i32, u32, u32))
        ensures
            r == chrono_ymd_of_days(self.day() as i32),
            1 <= r.1 <= 12,
            1 <= r.2 <= 31,
            -262143 <= r.0 <= 262142,
    {
        let d = chrono::NaiveDate::from_num_days_from_ce_opt(self.days).unwrap();
        (d.year(), d.month(), d.day())
    }

    /// The date an ISO text `YYYY-MM-DD` names, read by chrono's
    /// `NaiveDate::from_str`.
    #[verifier::external_body]
    pub fn parse(text: &str) -> (r: Option<Date>)
        ensures
            r matches Some(d) ==> chrono_parse_date(text@) == Some(d.day() as i32),
            r is None ==> chrono_parse_date(text@) is None,
    {
        text.parse::<chrono::NaiveDate>().ok().map(|d| Date { days: d.num_days_from_ce() })
    }

    /// The current date in the local time zone (chrono's `Local::now`).
    /// Nothing is stated of it: it depends on the clock and the zone.
    #[verifier::external_body]
    pub fn today() -> Date {
        Date { days: chrono::Local::now().date_naive().num_days_from_ce() }
    }
}

/// The year as chrono writes it: four digits for 0..=9999, otherwise a sign
/// and at least four digits.
pub open spec fn year_text(y: int) -> Seq<char> {
    if 0 <= y <= 9999 {
        dec_zero_padded(y as nat, 4)
    } else if y < 0 {
        seq!['-'] + dec_zero_padded((-y) as nat, 4)
    } else {
        seq!['+'] + dec_zero_padded(y as nat, 4)
    }
}

/// The ISO text `YYYY-MM-DD` of a year, month and day.
pub open spec fn ymd_text(y: int, m: int, d: int) -> Seq<char> {
    year_text(y) + seq!['-'] + dec_zero_padded(m as nat, 2) + seq!['-'] + dec_zero_padded(d as nat, 2)
}

/// Day number of 1970-01-01.
pub const UNIX_EPOCH_DAY: i32 = 719163;

/// Whether a date and time is the Unix epoch, 1970-01-01 00:00:00.
pub open spec fn is_epoch(t: DateTime) -> bool {
    t.date.day() == UNIX_EPOCH_DAY && t.hour == 0 && t.minute == 0 && t.second == 0 && t.micro == 0
}

/// The Unix epoch (`NaiveDateTime::from_timestamp(0, 0)`).
pub fn epoch() -> (r: DateTime)
    ensures
        is_epoch(r),
{
    DateTime { date: Date { days: UNIX_EPOCH_DAY }, hour: 0, minute: 0, second: 0, micro: 0 }
}

/// The ISO text chrono displays for a date.
pub open spec fn date_text(d: Date) -> Seq<char> {
    let ymd = chrono_ymd_of_days(d.day() as i32);
    ymd_text(ymd.0 as int, ymd.1 as int, ymd.2 as int)
}

/// Appends the ISO text of a date.
pub fn push_date(s: &mut String, d: Date)
    ensures
        final(s)@ == old(s)@ + date_text(d),
{
    let (y, m, day) = d.ymd();
    let ghost s0 = s@;
    if 0 <= y && y <= 9999 {
        push_dec_padded(s, y as u64, 4);
    } else if y < 0 {
        push_char(s, '-');
        let a: i64 = -(y as i64);
        push_dec_padded(s, a as u64, 4);
    } else {
        push_char(s, '+');
        push_dec_padded(s, y as u64, 4);
    }
    let ghost s1 = s@;
    assert(s1 =~= s0 + year_text(y as int));
    push_char(s, '-');
    push_dec_padded(s, m as u64, 2);
    push_char(s, '-');
    push_dec_padded(s, day as u64, 2);
    assert(s@ =~= s0 + date_text(d));
}

/// The ISO text of a date, as chrono's `Display` writes it.
pub fn date_to_string(d: Date) -> (r: String)
    ensures
        r@ == date_text(d),
{
    let mut s = String::new();
    push_date(&mut s, d);
    s
}

} // verus!

verus! {

/// The day a validity expires: its explicit expiry where it has one,
/// otherwise `value` units after issue (no expiry: 0 days, days, weeks of 7,
/// months of 30, years of 365); `None` when there is no validity, or no
/// expiry and no value or unit.
pub open spec fn expiration_day(v: Option<crate::license::types::ValidityInfo>) -> Option<int> {
    match v {
        None => None,
        Some(v) => match v.expires {
            Some(d) => Some(d.day()),
            None => match (v.validity_value, v.validity_unit) {
                (Some(value), Some(unit)) => Some(
                    v.issued.day() + value * crate::license::evaluator::unit_days(unit),
                ),
                _ => None,
            },
        },
    }
}

/// Whether the number of days a validity value spans, computed in `u16`,
/// fits, and the expiry it gives is a date chrono can hold.
pub open spec fn span_fits(v: Option<crate::license::types::ValidityInfo>) -> bool {
    match v {
        Some(v) => v.expires is None ==> match (v.validity_value, v.validity_unit) {
            (Some(value), Some(unit)) => value * crate::license::evaluator::unit_days(unit) <= 65535
                && day_in_range(v.issued.day() + value * crate::license::evaluator::unit_days(unit)),
            _ => true,
        },
        None => true,
    }
}

/// The expiry date of a validity.
pub fn compute_expiration(v: &Option<crate::license::types::ValidityInfo>) -> (r: Option<Date>)
    requires
        span_fits(*v),
    ensures
        match expiration_day(*v) {
            Some(day) => r matches Some(d) && d.day() == day,
            None => r is None,
        },
{
    let v = match v {
        Some(v) => v,
        None => return None,
    };
    match v.expires {
        Some(date) => Some(date),
        None => {
            let value = match v.validity_value {
                Some(x) => x,
                None => return None,
            };
            let unit = match v.validity_unit {
                Some(u) => u,
                None => return None,
            };
            let days: u16 = match unit {
                crate::license::types::ValidityUnit::NoExpiration => value * 0,
                crate::license::types::ValidityUnit::Days => value,
                crate::license::types::ValidityUnit::Weeks => value * 7,
                crate::license::types::ValidityUnit::Months => value * 30,
                crate::license::types::ValidityUnit::Years => value * 365,
            };
            v.issued.checked_add_days(days as i64)
        },
    }
}

/// The issue date of a bundle: its validity's, or when the application was
/// received.
pub fn determine_issued(bundle: &crate::license::types::LicenseBundle) -> (r: Date)
    ensures
        r == match bundle.validity {
            Some(v) => v.issued,
            None => bundle.application.received,
        },
{
    match &bundle.validity {
        Some(v) => v.issued,
        None => bundle.application.received,
    }
}

} // verus!
