//! Calendar dates and inclusive date ranges.
//!
//! Whether a year, month and day name a real date, and what date lies some
//! days earlier, are `chrono`'s answers; ordering and range construction are
//! this module's.

use vstd::prelude::*;
use chrono::Datelike;
use chrono::NaiveDate;
use crate::date_display::Weekday;

verus! {

/// The first year `chrono` represents.
pub open spec fn min_year() -> int {
    -262143
}

/// The last year `chrono` represents.
pub open spec fn max_year() -> int {
    262142
}

/// A leap year of the proleptic Gregorian calendar.
pub open spec fn is_leap_year(year: int) -> bool {
    (year % 4 == 0 && year % 100 != 0) || year % 400 == 0
}

/// The number of days in `month` of `year`.
pub open spec fn days_in_month(year: int, month: int) -> int {
    if month == 2 {
        if is_leap_year(year) { 29 } else { 28 }
    } else if month == 4 || month == 6 || month == 9 || month == 11 {
        30
    } else {
        31
    }
}

/// Whether the year, month and day name a date `chrono` represents.
pub open spec fn is_calendar_date(year: i32, month: u32, day: u32) -> bool {
    &&& min_year() <= year <= max_year()
    &&& 1 <= month <= 12
    &&& 1 <= day <= days_in_month(year as int, month as int)
}

/// The date `days` days before the given one, as `chrono` computes it
/// (`NaiveDate::checked_sub_days`), or `None` when it leaves chrono's range
/// or the input is not a date.
pub uninterp spec fn date_days_before(year: i32, month: u32, day: u32, days: u32) -> Option<(i32, u32, u32)>;

/// `NaiveDate::from_ymd_opt(year, month, day).is_some()`: a day that
/// exists in the proleptic Gregorian calendar, in a year chrono represents.
#[verifier::external_body]
fn chrono_date_exists(year: i32, month: u32, day: u32) -> (r: bool)
    ensures
        r == is_calendar_date(year, month, day),
{
    NaiveDate::from_ymd_opt(year, month, day).is_some()
}

/// `NaiveDate::checked_sub_days`, with the date taken apart. A result is an
/// accepted date, earlier than the input when `days` is positive; chrono's
/// earliest date is 1 January of its first year, so from a date in any later
/// year at most a year's days can always be subtracted, from a date past
/// January of the first year at most a month's, and from a January date of
/// the first year fewer days than its day of the month.
#[verifier::external_body]
fn chrono_days_before(year: i32, month: u32, day: u32, days: u32) -> (r: Option<(i32, u32, u32)>)
    ensures
        r == date_days_before(year, month, day, days),
        is_calendar_date(year, month, day) && year > min_year() && days <= 365 ==> r is Some,
        is_calendar_date(year, month, day) && year == min_year() && month > 1 && days <= 31 ==> r is Some,
        is_calendar_date(year, month, day) && year == min_year() && month == 1 && days <= 31
            ==> (r is Some <==> days < day),
        r matches Some(e) ==> is_calendar_date(e.0, e.1, e.2),
        r matches Some(e) ==> (days > 0 ==> date_before((e.0, e.1, e.2), (year, month, day))),
{
    match NaiveDate::from_ymd_opt(year, month, day) {
        Some(date) => match date.checked_sub_days(chrono::Days::new(days as u64)) {
            Some(earlier) => Some((earlier.year(), earlier.month(), earlier.day())),
            None => None,
        },
        None => None,
    }
}

/// The day of the week chrono gives for a date (`Datelike::weekday`).
pub uninterp spec fn weekday_of(year: i32, month: u32, day: u32) -> Weekday;

/// The ISO week number chrono gives for a date (`Datelike::iso_week`, then
/// `IsoWeek::week`).
pub uninterp spec fn iso_week_of(year: i32, month: u32, day: u32) -> u32;

/// `Datelike::weekday` of the date, when it is one.
#[verifier::external_body]
fn chrono_weekday(year: i32, month: u32, day: u32) -> (r: Option<Weekday>)
    ensures
        r == if is_calendar_date(year, month, day) { Some(weekday_of(year, month, day)) } else { None::<Weekday> },
{
    match NaiveDate::from_ymd_opt(year, month, day) {
        Some(date) => Some(match date.weekday() {
            chrono::Weekday::Mon => Weekday::Mon,
            chrono::Weekday::Tue => Weekday::Tue,
            chrono::Weekday::Wed => Weekday::Wed,
            chrono::Weekday::Thu => Weekday::Thu,
            chrono::Weekday::Fri => Weekday::Fri,
            chrono::Weekday::Sat => Weekday::Sat,
            chrono::Weekday::Sun => Weekday::Sun,
        }),
        None => None,
    }
}

/// `IsoWeek::week` of the date's ISO week, when it is a date; chrono
/// documents the week number as ranging from 1 to 53.
#[verifier::external_body]
fn chrono_iso_week(year: i32, month: u32, day: u32) -> (r: Option<u32>)
    ensures
        r == if is_calendar_date(year, month, day) { Some(iso_week_of(year, month, day)) } else { None::<u32> },
        r matches Some(w) ==> 1 <= w <= 53,
{
    match NaiveDate::from_ymd_opt(year, month, day) {
        Some(date) => Some(date.iso_week().week()),
        None => None,
    }
}

/// `a` comes strictly before `b` (year, then month, then day).
pub open spec fn date_before(a: (i32, u32, u32), b: (i32, u32, u32)) -> bool {
    a.0 < b.0 || (a.0 == b.0 && (a.1 < b.1 || (a.1 == b.1 && a.2 < b.2)))
}

/// A calendar date that `chrono` accepts.
#[derive(Debug, Clone, Copy, PartialEq, Eq, Structural)]
pub struct CalendarDate {
    year: i32,
    month: u32,
    day: u32,
}

impl CalendarDate {
    /// Every value names a real date.
    #[verifier::type_invariant]
    pub open spec fn wf(self) -> bool {
        is_calendar_date(self.ymd().0, self.ymd().1, self.ymd().2)
    }

    /// The date as a (year, month, day) triple.
    pub closed spec fn ymd(self) -> (i32, u32, u32) {
        (self.year, self.month, self.day)
    }

    /// The date for `year`, `month`, `day`, if it exists.
    pub fn from_ymd(year: i32, month: u32, day: u32) -> (r: Option<Self>)
        ensures
            r is Some <==> is_calendar_date(year, month, day),
            r matches Some(d) ==> d.ymd() == (year, month, day),
    {
        if chrono_date_exists(year, month, day) {
            Some(CalendarDate { year, month, day })
        } else {
            None
        }
    }

    pub fn year(&self) -> (r: i32)
        ensures
            r == self.ymd().0,
    {
        self.year
    }

    pub fn month(&self) -> (r: u32)
        ensures
            r == self.ymd().1,
            1 <= r <= 12,
    {
        proof {
            use_type_invariant(self);
        }
        self.month
    }

    pub fn day(&self) -> (r: u32)
        ensures
            r == self.ymd().2,
            1 <= r <= 31,
    {
        proof {
            use_type_invariant(self);
        }
        self.day
    }

    /// The day of the week.
    pub fn weekday(&self) -> (r: Weekday)
        ensures
            r == weekday_of(self.ymd().0, self.ymd().1, self.ymd().2),
    {
        proof {
            use_type_invariant(self);
        }
        match chrono_weekday(self.year, self.month, self.day) {
            Some(w) => w,
            // Unreachable: every value is a date.
            None => Weekday::Mon,
        }
    }

    /// The number of the ISO week the date falls in (1 to 53).
    pub fn iso_week(&self) -> (r: u32)
        ensures
            r == iso_week_of(self.ymd().0, self.ymd().1, self.ymd().2),
            1 <= r <= 53,
    {
        proof {
            use_type_invariant(self);
        }
        match chrono_iso_week(self.year, self.month, self.day) {
            Some(w) => w,
            // Unreachable: every value is a date.
            None => 1,
        }
    }

    /// The date `days` days earlier, if `chrono` can represent it.
    pub fn days_before(&self, days: u32) -> (r: Option<Self>)
        ensures
            r is Some <==> date_days_before(self.ymd().0, self.ymd().1, self.ymd().2, days) is Some,
            r matches Some(e) ==> Some(e.ymd()) == date_days_before(self.ymd().0, self.ymd().1, self.ymd().2, days),
            r matches Some(e) ==> (days > 0 ==> date_before(e.ymd(), self.ymd())),
            self.ymd().0 > min_year() && days <= 365 ==> r is Some,
            self.ymd().0 == min_year() && self.ymd().1 > 1 && days <= 31 ==> r is Some,
            self.ymd().0 == min_year() && self.ymd().1 == 1 && days <= 31 ==> (r is Some <==> days < self.ymd().2),
    {
        proof {
            use_type_invariant(self);
        }
        match chrono_days_before(self.year, self.month, self.day, days) {
            Some((y, m, d)) => Some(CalendarDate { year: y, month: m, day: d }),
            None => None,
        }
    }

    /// The first day of this date's month.
    pub fn first_of_month(&self) -> (r: Self)
        ensures
            r.ymd() == (self.ymd().0, self.ymd().1, 1u32),
    {
        proof {
            use_type_invariant(self);
        }
        CalendarDate { year: self.year, month: self.month, day: 1 }
    }

    /// Whether this date comes strictly before `other`.
    pub fn is_before(&self, other: &CalendarDate) -> (r: bool)
        ensures
            r == date_before(self.ymd(), other.ymd()),
    {
        self.year < other.year || (self.year == other.year && (self.month < other.month
            || (self.month == other.month && self.day < other.day)))
    }
}

} // verus!
