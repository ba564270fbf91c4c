//! Days of the Gregorian calendar.

use chrono::{Datelike, Duration, Local, NaiveDate};
use vstd::prelude::*;

verus! {

/// The first year that the calendar reaches.
pub const FIRST_YEAR: i32 = -262143;

/// The last year that the calendar reaches.
pub const LAST_YEAR: i32 = 262142;

/// A day by its year, month and day.
#[derive(Clone, Copy, Debug, PartialEq, Eq, Structural)]
pub struct CalendarDate {
    /// The year.
    pub year: i32,
    /// The month, from one.
    pub month: u32,
    /// The day of the month, from one.
    pub day: u32,
}

/// Whether a year has a day more.
pub open spec fn is_leap(year: int) -> bool {
    year % 4 == 0 && (year % 100 != 0 || year % 400 == 0)
}

/// How many days a month has.
pub open spec fn month_length(year: int, month: int) -> int {
    if month == 2 {
        if is_leap(year) {
            29
        } else {
            28
        }
    } else if month == 4 || month == 6 || month == 9 || month == 11 {
        30
    } else {
        31
    }
}

/// How many days of a year lie before a month.
pub open spec fn days_before_month(year: int, month: int) -> int
    decreases month,
{
    if month <= 1 {
        0
    } else {
        days_before_month(year, month - 1) + month_length(year, month - 1)
    }
}

/// How many days lie between the beginning of the first year and that of another.
pub open spec fn days_before_year(year: int) -> int {
    365 * (year - 1) + (year - 1) / 4 - (year - 1) / 100 + (year - 1) / 400
}

impl CalendarDate {
    /// Whether the calendar has such a day, and reaches it.
    pub open spec fn is_real(self) -> bool {
        &&& FIRST_YEAR <= self.year <= LAST_YEAR
        &&& 1 <= self.month <= 12
        &&& 1 <= self.day <= month_length(self.year as int, self.month as int)
    }

    /// The number of a day: the first of the first year is the first.
    pub open spec fn day_number(self) -> int {
        days_before_year(self.year as int) + days_before_month(
            self.year as int,
            self.month as int,
        ) + self.day
    }

    /// How many days of its week lie before a day. The first of the first year is
    /// a Monday.
    pub open spec fn days_since_monday(self) -> int {
        (self.day_number() - 1) % 7
    }

    /// The first day of the same month.
    pub open spec fn month_start(self) -> CalendarDate {
        CalendarDate { year: self.year, month: self.month, day: 1 }
    }
}

/// The number of the first day that the calendar reaches.
pub open spec fn first_day_number() -> int {
    (CalendarDate { year: FIRST_YEAR, month: 1, day: 1 }).day_number()
}

/// The number of the last day that the calendar reaches.
pub open spec fn last_day_number() -> int {
    (CalendarDate { year: LAST_YEAR, month: 12, day: 31 }).day_number()
}

/// The number of the first day that the calendar reaches.
pub const FIRST_DAY_NUMBER: i64 = -95746129;

/// The number of the last day that the calendar reaches.
pub const LAST_DAY_NUMBER: i64 = 95745399;

/// `NaiveDate::from_ymd_opt` gives a date exactly where the calendar has such a day
/// and the year is one that it reaches.
#[verifier::external_body]
pub(crate) fn date_exists(date: CalendarDate) -> (result: bool)
    ensures
        result == date.is_real(),
{
    NaiveDate::from_ymd_opt(date.year, date.month, date.day).is_some()
}

/// `Datelike::num_days_from_ce` numbers a day: the first of the first year is the
/// first.
#[verifier::external_body]
pub(crate) fn days_from_ce(date: CalendarDate) -> (result: i32)
    requires
        date.is_real(),
    ensures
        result == date.day_number(),
{
    NaiveDate::from_ymd_opt(date.year, date.month, date.day).unwrap().num_days_from_ce()
}

/// `Weekday::num_days_from_monday` of `NaiveDate::weekday` counts the days of the
/// week that lie before a day.
#[verifier::external_body]
pub(crate) fn weekday_from_monday(date: CalendarDate) -> (result: u32)
    requires
        date.is_real(),
    ensures
        result == date.days_since_monday(),
{
    NaiveDate::from_ymd_opt(date.year, date.month, date.day).unwrap().weekday().num_days_from_monday()
}

/// `NaiveDate + Duration::days(..)` gives the day that lies a number of days later,
/// or earlier where the number is negative.
#[verifier::external_body]
pub(crate) fn shifted_date(date: CalendarDate, days: i64) -> (result: CalendarDate)
    requires
        date.is_real(),
        first_day_number() <= date.day_number() + days <= last_day_number(),
    ensures
        result.is_real(),
        result.day_number() == date.day_number() + days,
{
    let start = NaiveDate::from_ymd_opt(date.year, date.month, date.day).unwrap();
    let shifted = start + Duration::days(days);
    CalendarDate { year: shifted.year(), month: shifted.month(), day: shifted.day() }
}

/// `Local::now` gives the present day where the machine is. Only that it is a day
/// of the calendar holds of every outcome.
#[verifier::external_body]
pub(crate) fn local_today() -> (result: CalendarDate)
    ensures
        result.is_real(),
{
    let today = Local::now().date_naive();
    CalendarDate { year: today.year(), month: today.month(), day: today.day() }
}

proof fn lemma_year_length(year: int)
    ensures
        days_before_year(year + 1) == days_before_year(year) + (if is_leap(year) {
            366int
        } else {
            365int
        }),
{
}

proof fn lemma_years_ascend(first: int, second: int)
    requires
        first <= second,
    ensures
        days_before_year(first) <= days_before_year(second),
    decreases second - first,
{
    if first < second {
        lemma_years_ascend(first, second - 1);
        lemma_year_length(second - 1);
    }
}

proof fn lemma_months_ascend(year: int, first: int, second: int)
    requires
        1 <= first <= second,
    ensures
        days_before_month(year, first) <= days_before_month(year, second),
        first < second ==> days_before_month(year, first) + month_length(year, first)
            <= days_before_month(year, second),
    decreases second - first,
{
    if first < second {
        lemma_months_ascend(year, first, second - 1);
    }
}

proof fn lemma_day_within_year(date: CalendarDate)
    requires
        date.is_real(),
    ensures
        days_before_year(date.year as int) < date.day_number() <= days_before_year(
            date.year + 1,
        ),
{
    let year = date.year as int;
    lemma_year_length(year);
    lemma_months_ascend(year, 1, date.month as int);
    reveal_with_fuel(days_before_month, 13);
    lemma_months_ascend(year, date.month as int, 12);
    assert(days_before_month(year, 12) + 31 == (if is_leap(year) {
        366int
    } else {
        365int
    }));
}

/// Two days with the same number are the same day.
pub proof fn law_day_numbers_are_distinct(first: CalendarDate, second: CalendarDate)
    requires
        first.is_real(),
        second.is_real(),
        first.day_number() == second.day_number(),
    ensures
        first == second,
{
    lemma_day_within_year(first);
    lemma_day_within_year(second);
    if first.year < second.year {
        lemma_years_ascend(first.year + 1, second.year as int);
    } else if second.year < first.year {
        lemma_years_ascend(second.year + 1, first.year as int);
    }
    let year = first.year as int;
    if first.month < second.month {
        lemma_months_ascend(year, first.month as int, second.month as int);
    } else if second.month < first.month {
        lemma_months_ascend(year, second.month as int, first.month as int);
    }
}

/// The numbers of the first and the last day that the calendar reaches.
pub proof fn lemma_edges_of_reach()
    ensures
        first_day_number() == FIRST_DAY_NUMBER,
        last_day_number() == LAST_DAY_NUMBER,
{
    reveal_with_fuel(days_before_month, 13);
}

} // verus!
