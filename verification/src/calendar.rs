//! The proleptic Gregorian calendar, counted in days from 1 January 1970.

use vstd::prelude::*;

verus! {

/// The year in which day 0 falls.
pub const EPOCH_YEAR: u64 = 1970;

/// Whether `year` is a leap year: divisible by 4 and not by 100, unless
/// also divisible by 400.
pub open spec fn is_leap(year: int) -> bool {
    (year % 4 == 0 && year % 100 != 0) || year % 400 == 0
}

/// The number of days in `year`.
pub open spec fn year_days(year: int) -> int {
    if is_leap(year) {
        366
    } else {
        365
    }
}

/// The number of days in month `month` (1 to 12) of `year`; 0 for any other
/// month number.
pub open spec fn month_days(year: int, month: int) -> int {
    if month == 2 {
        if is_leap(year) {
            29
        } else {
            28
        }
    } else if month == 4 || month == 6 || month == 9 || month == 11 {
        30
    } else if 1 <= month <= 12 {
        31
    } else {
        0
    }
}

/// The days from 1 January 1970 to 1 January of `year`: the lengths of the
/// years 1970 to `year - 1`, added up.
pub open spec fn days_before_year(year: int) -> int
    decreases year,
{
    if year <= 1970 {
        0
    } else {
        days_before_year(year - 1) + year_days(year - 1)
    }
}

/// The days from 1 January of `year` to the first of `month`: the lengths of
/// the months 1 to `month - 1`, added up.
pub open spec fn days_before_month(year: int, month: int) -> int
    decreases month,
{
    if month <= 1 {
        0
    } else {
        days_before_month(year, month - 1) + month_days(year, month - 1)
    }
}

/// A day of the calendar.
#[derive(Clone, Copy, Debug, PartialEq, Eq, Structural)]
pub struct CivilDate {
    pub year: u64,
    /// 1 to 12.
    pub month: u8,
    /// 1 to the length of the month.
    pub day: u8,
}

impl CivilDate {
    /// The date exists and is not before 1970.
    pub open spec fn valid(self) -> bool {
        &&& self.year >= 1970
        &&& 1 <= self.month <= 12
        &&& 1 <= self.day <= month_days(self.year as int, self.month as int)
    }

    /// The number of days from 1 January 1970 to this date.
    pub open spec fn epoch_day(self) -> int {
        days_before_year(self.year as int) + days_before_month(self.year as int, self.month as int)
            + (self.day - 1)
    }
}

/// Whether `year` is a leap year.
pub fn is_leap_year(year: u64) -> (leap: bool)
    ensures
        leap == is_leap(year as int),
{
    (year % 4 == 0 && year % 100 != 0) || year % 400 == 0
}

/// The number of days in `year`: 366 in a leap year, else 365.
pub fn days_in_year(year: u64) -> (days: u64)
    ensures
        days == year_days(year as int),
        days == 365 || days == 366,
        days == 366 <==> is_leap(year as int),
{
    if is_leap_year(year) {
        366
    } else {
        365
    }
}

/// The number of days in `month` of `year`; 0 where `month` is not 1 to 12.
/// February has 29 days in a leap year and 28 otherwise.
pub fn days_in_month(year: u64, month: u8) -> (days: u8)
    ensures
        days == month_days(year as int, month as int),
        month == 2 ==> (days == 29 <==> is_leap(year as int)) && (days == 28 <==> !is_leap(
            year as int,
        )),
        1 <= month <= 12 ==> 28 <= days <= 31,
{
    if month == 2 {
        if is_leap_year(year) {
            29
        } else {
            28
        }
    } else if month == 4 || month == 6 || month == 9 || month == 11 {
        30
    } else if 1 <= month && month <= 12 {
        31
    } else {
        0
    }
}

/// A year of twelve months: the months of `year` add up to its length.
pub proof fn lemma_months_fill_year(year: int)
    ensures
        days_before_month(year, 13) == year_days(year),
{
    reveal_with_fuel(days_before_month, 14);
}

/// The count of days before a month grows with the month, and stays within
/// the year.
pub proof fn lemma_days_before_month_bounds(year: int, month: int)
    requires
        1 <= month <= 12,
    ensures
        0 <= days_before_month(year, month),
        days_before_month(year, month) + month_days(year, month) == days_before_month(
            year,
            month + 1,
        ),
        days_before_month(year, month + 1) <= year_days(year),
{
    reveal_with_fuel(days_before_month, 14);
}

/// A valid date lies within its year: its day number, counted from the
/// first of January, is less than the length of the year.
pub proof fn lemma_date_within_year(date: CivilDate)
    requires
        date.valid(),
    ensures
        0 <= days_before_month(date.year as int, date.month as int) + (date.day - 1) < year_days(
            date.year as int,
        ),
        days_before_year(date.year as int) <= date.epoch_day() < days_before_year(
            date.year as int + 1,
        ),
{
    lemma_days_before_month_bounds(date.year as int, date.month as int);
}

/// A later year starts after every day of an earlier one.
pub proof fn lemma_later_year_starts_later(earlier: int, later: int)
    requires
        1970 <= earlier < later,
    ensures
        days_before_year(earlier + 1) <= days_before_year(later),
    decreases later - earlier,
{
    if earlier + 1 < later {
        lemma_later_year_starts_later(earlier, later - 1);
    }
}

/// Within one year, a later month starts after every day of an earlier one.
pub proof fn lemma_later_month_starts_later(year: int, earlier: int, later: int)
    requires
        1 <= earlier < later <= 13,
    ensures
        days_before_month(year, earlier + 1) <= days_before_month(year, later),
    decreases later - earlier,
{
    if earlier + 1 < later {
        lemma_later_month_starts_later(year, earlier, later - 1);
    }
}

/// No two valid dates share a day number: the number of days since
/// 1 January 1970 determines year, month and day.
pub proof fn lemma_epoch_day_determines_date(a: CivilDate, b: CivilDate)
    requires
        a.valid(),
        b.valid(),
        a.epoch_day() == b.epoch_day(),
    ensures
        a == b,
{
    lemma_date_within_year(a);
    lemma_date_within_year(b);
    if a.year < b.year {
        lemma_later_year_starts_later(a.year as int, b.year as int);
    } else if b.year < a.year {
        lemma_later_year_starts_later(b.year as int, a.year as int);
    } else {
        let year = a.year as int;
        lemma_days_before_month_bounds(year, a.month as int);
        lemma_days_before_month_bounds(year, b.month as int);
        if a.month < b.month {
            lemma_later_month_starts_later(year, a.month as int, b.month as int);
        } else if b.month < a.month {
            lemma_later_month_starts_later(year, b.month as int, a.month as int);
        }
    }
}

/// The number of leap years among the years 1 to `year - 1`.
pub open spec fn leap_years_before(year: int) -> int {
    (year - 1) / 4 - (year - 1) / 100 + (year - 1) / 400
}

/// The walk from 1970 agrees with the closed form of the Gregorian day
/// count: 365 days for each year since 1970, and one more for each leap year
/// among them.
pub proof fn lemma_days_before_year_closed_form(year: int)
    requires
        year >= 1970,
    ensures
        days_before_year(year) == 365 * (year - 1970) + leap_years_before(year)
            - leap_years_before(1970),
    decreases year,
{
    if year > 1970 {
        lemma_days_before_year_closed_form(year - 1);
    }
}

/// The day that lies `days` days after 1 January 1970.
///
/// The year is found by walking forward from 1970 one year at a time, the
/// month by walking through the months of that year.
pub fn civil_from_days(days: u64) -> (date: CivilDate)
    ensures
        date.valid(),
        date.epoch_day() == days,
{
    let mut remaining: u64 = days;
    let mut year: u64 = EPOCH_YEAR;
    while remaining >= days_in_year(year)
        invariant
            year >= 1970,
            days_before_year(year as int) + remaining == days,
            365 * (year - 1970) + remaining <= days,
        decreases remaining,
    {
        remaining = remaining - days_in_year(year);
        year = year + 1;
    }
    let ghost in_year: int = remaining as int;
    let mut month: u8 = 1;
    proof {
        lemma_months_fill_year(year as int);
    }
    while month < 12 && remaining >= days_in_month(year, month) as u64
        invariant
            1 <= month <= 12,
            days_before_month(year as int, month as int) + remaining == in_year,
            in_year < year_days(year as int),
        decreases 12 - month,
    {
        proof {
            lemma_days_before_month_bounds(year as int, month as int);
        }
        remaining = remaining - days_in_month(year, month) as u64;
        month = month + 1;
    }
    proof {
        lemma_days_before_month_bounds(year as int, month as int);
        lemma_months_fill_year(year as int);
    }
    CivilDate { year, month, day: (remaining + 1) as u8 }
}

} // verus!
