//! Calendar dates as year, month and day, and the day a timestamp falls on.

use vstd::prelude::*;

use crate::ids::{EpochDay, UnixSeconds};

verus! {

/// Earliest year a calendar date may carry.
pub const MIN_YEAR: i32 = -262143;

/// Latest year a calendar date may carry.
pub const MAX_YEAR: i32 = 262142;

/// A day of the proleptic Gregorian calendar.
#[derive(Debug, Clone, Copy, PartialEq, Eq, Structural)]
pub struct CivilDate {
    pub year: i32,
    /// 1 for January through 12 for December.
    pub month: u32,
    /// 1-based day of the month.
    pub day: u32,
}

/// Gregorian leap years: every fourth year, except centuries not divisible
/// by 400.
pub open spec fn is_leap_year(year: int) -> bool {
    year % 4 == 0 && (year % 100 != 0 || year % 400 == 0)
}

/// Days in `month` of `year`.
pub open spec fn days_in_month(year: int, month: int) -> int {
    if month == 2 {
        if is_leap_year(year) {
            29
        } else {
            28
        }
    } else if month == 4 || month == 6 || month == 9 || month == 11 {
        30
    } else {
        31
    }
}

/// True when the triple names a day that exists and is within the
/// representable years.
pub open spec fn is_valid_ymd(year: int, month: int, day: int) -> bool {
    &&& MIN_YEAR <= year <= MAX_YEAR
    &&& 1 <= month <= 12
    &&& 1 <= day <= days_in_month(year, month)
}

impl CivilDate {
    pub open spec fn is_valid(self) -> bool {
        is_valid_ymd(self.year as int, self.month as int, self.day as int)
    }

    /// Calendar order: by year, then month, then day.
    pub open spec fn is_before(self, other: CivilDate) -> bool {
        ||| self.year < other.year
        ||| self.year == other.year && self.month < other.month
        ||| self.year == other.year && self.month == other.month && self.day < other.day
    }

    /// True when `self` comes strictly before `other` in the calendar.
    pub fn before(&self, other: &CivilDate) -> (r: bool)
        ensures
            r == self.is_before(*other),
    {
        self.year < other.year || (self.year == other.year && self.month < other.month) || (
        self.year == other.year && self.month == other.month && self.day < other.day)
    }
}

/// `chrono::NaiveDate::from_ymd_opt`: by its documentation and source, it
/// returns `None` exactly when the day does not exist, the month or day is
/// out of range, or the year is outside the representable range
/// (`MIN_YEAR..=MAX_YEAR`, which are chrono's own bounds), and otherwise the
/// date with that year, month and day. The result is handed back as its
/// year, month and day.
#[verifier::external_body]
pub(crate) fn date_from_ymd(year: i32, month: u32, day: u32) -> (r: Option<CivilDate>)
    ensures
        r is Some <==> is_valid_ymd(year as int, month as int, day as int),
        r matches Some(d) ==> d.year == year && d.month == month && d.day == day,
{
    match chrono::NaiveDate::from_ymd_opt(year, month, day) {
        Some(date) => Some(
            CivilDate {
                year: chrono::Datelike::year(&date),
                month: chrono::Datelike::month(&date),
                day: chrono::Datelike::day(&date),
            },
        ),
        None => None,
    }
}

/// Seconds in a day.
pub const SECONDS_PER_DAY: i64 = 86400;

/// The UTC day an instant falls on: whole days since the epoch, rounding
/// towards the past.
pub open spec fn day_of_spec(t: int) -> int {
    t / (SECONDS_PER_DAY as int)
}

/// The UTC day `t` falls on.
pub fn day_of(t: UnixSeconds) -> (r: EpochDay)
    ensures
        r == day_of_spec(t as int),
{
    let q = t / SECONDS_PER_DAY;
    let rem = t % SECONDS_PER_DAY;
    if rem < 0 {
        q - 1
    } else {
        q
    }
}

/// An instant falls inside the day it is given: that day starts at or
/// before it and the next day starts after it, before the epoch as well as
/// after (rounding goes to the past, not towards zero).
pub proof fn an_instant_lies_within_its_day(t: int)
    ensures
        day_of_spec(t) * SECONDS_PER_DAY <= t < (day_of_spec(t) + 1) * SECONDS_PER_DAY,
{
    vstd::arithmetic::div_mod::lemma_fundamental_div_mod(t, SECONDS_PER_DAY as int);
    vstd::arithmetic::div_mod::lemma_mod_bound(t, SECONDS_PER_DAY as int);
}

} // verus!
