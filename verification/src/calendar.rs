//! Calendar dates as day numbers, and inclusive ranges of them.
//!
//! A [`Date`] is a day of the proleptic Gregorian calendar, held as its day
//! number: 1 for the first of January of the year 1, and one more for each
//! day after it. Order and distance are then plain integer arithmetic; what
//! needs the calendar itself (months, week numbers, weekdays) is asked of
//! the `chrono` crate.

use vstd::prelude::*;
use chrono::Datelike;
use chrono::Days;
use chrono::NaiveDate;

verus! {

/// The day number of the first date that can be held: 1 January -262143.
pub const MIN_DAY: i32 = -95_746_129;

/// The day number of the last date that can be held: 31 December 262142.
pub const MAX_DAY: i32 = 95_745_399;

/// Whether `day` is the day number of a date that can be held.
pub open spec fn in_calendar(day: int) -> bool {
    MIN_DAY <= day <= MAX_DAY
}

/// The day number of the date with this year, month and day of the month, as
/// `chrono::NaiveDate::from_ymd_opt` and `num_days_from_ce` give it; `None`
/// where the calendar has no such date.
pub uninterp spec fn day_number_of(year: int, month: int, day: int) -> Option<int>;

/// The month, from 1 to 12, in which the day with this number lies, as
/// `chrono::Datelike::month` gives it.
pub uninterp spec fn month_of(day: int) -> int;

/// The day number of the first day of the month in which the day with this
/// number lies, as `chrono::Datelike::with_day(1)` gives it.
pub uninterp spec fn month_start_of(day: int) -> int;

/// The ISO 8601 week number of the day with this number, as
/// `chrono::Datelike::iso_week` and `chrono::IsoWeek::week` give it.
pub uninterp spec fn iso_week_of(day: int) -> int;

/// The position in the week of the day with this number: 0 for Monday up to
/// 6 for Sunday. Day 1 is a Monday.
pub open spec fn weekday_index(day: int) -> int {
    (day - 1) % 7
}

/// Whether the day with this number is a Friday.
pub open spec fn is_friday(day: int) -> bool {
    weekday_index(day) == 4
}

/// How many Fridays lie among the days numbered `start` to `end`, both included.
pub open spec fn fridays_between(start: int, end: int) -> nat
    decreases end - start + 1,
{
    if end < start {
        0
    } else {
        fridays_between(start, end - 1) + if is_friday(end) { 1nat } else { 0nat }
    }
}

/// Calls `chrono::NaiveDate::from_ymd_opt`, and `num_days_from_ce` on what it
/// returns. Claimed: the result is the named day number, and every day
/// number that comes back is one of the calendar.
#[verifier::external_body]
fn chrono_day_number(year: i32, month: u32, day: u32) -> (r: Option<i32>)
    ensures
        match r {
            Some(n) => day_number_of(year as int, month as int, day as int) == Some(n as int)
                && in_calendar(n as int),
            None => day_number_of(year as int, month as int, day as int) is None,
        },
{
    match NaiveDate::from_ymd_opt(year, month, day) {
        Some(date) => Some(date.num_days_from_ce()),
        None => None,
    }
}

/// Calls `chrono::Datelike::weekday` on the date with this day number, and
/// `chrono::Weekday::num_days_from_monday` on the result. Claimed: day
/// numbers count the days one by one and day 1 is a Monday, so the result is
/// the remainder of `day - 1` by 7.
#[verifier::external_body]
fn chrono_weekday(day: i32) -> (r: u32)
    requires
        in_calendar(day as int),
    ensures
        r as int == weekday_index(day as int),
{
    NaiveDate::from_num_days_from_ce_opt(day).unwrap().weekday().num_days_from_monday()
}

/// Calls `chrono::Datelike::month` on the date with this day number. Claimed:
/// the result is the named month, and lies between 1 and 12.
#[verifier::external_body]
fn chrono_month(day: i32) -> (r: u32)
    requires
        in_calendar(day as int),
    ensures
        r as int == month_of(day as int),
        1 <= r <= 12,
{
    NaiveDate::from_num_days_from_ce_opt(day).unwrap().month()
}

/// Calls `chrono::Datelike::with_day(1)` on the date with this day number.
/// Claimed: a first day exists in every month, and the result is its named
/// day number, one of the calendar.
#[verifier::external_body]
fn chrono_month_start(day: i32) -> (r: i32)
    requires
        in_calendar(day as int),
    ensures
        r as int == month_start_of(day as int),
        in_calendar(r as int),
{
    NaiveDate::from_num_days_from_ce_opt(day).unwrap().with_day(1).unwrap().num_days_from_ce()
}

/// Calls `chrono::Datelike::iso_week` on the date with this day number, and
/// `chrono::IsoWeek::week` on the result. Claimed: the result is the named
/// week number.
#[verifier::external_body]
fn chrono_iso_week(day: i32) -> (r: u32)
    requires
        in_calendar(day as int),
    ensures
        r as int == iso_week_of(day as int),
{
    NaiveDate::from_num_days_from_ce_opt(day).unwrap().iso_week().week()
}

/// Calls `chrono::NaiveDate::checked_add_days`. Claimed: the result is the
/// day `count` days later, or `None` where that is past the last date.
#[verifier::external_body]
fn chrono_add_days(day: i32, count: u64) -> (r: Option<i32>)
    requires
        in_calendar(day as int),
    ensures
        r == if day + count <= MAX_DAY {
            Some((day + count) as i32)
        } else {
            None
        },
{
    match NaiveDate::from_num_days_from_ce_opt(day).unwrap().checked_add_days(Days::new(count)) {
        Some(date) => Some(date.num_days_from_ce()),
        None => None,
    }
}

/// Calls `chrono::NaiveDate::checked_sub_days`. Claimed: the result is the
/// day `count` days earlier, or `None` where that is before the first date.
#[verifier::external_body]
fn chrono_sub_days(day: i32, count: u64) -> (r: Option<i32>)
    requires
        in_calendar(day as int),
    ensures
        r == if day - count >= MIN_DAY {
            Some((day - count) as i32)
        } else {
            None
        },
{
    match NaiveDate::from_num_days_from_ce_opt(day).unwrap().checked_sub_days(Days::new(count)) {
        Some(date) => Some(date.num_days_from_ce()),
        None => None,
    }
}

/// A day of the week.
#[derive(Clone, Copy, Debug, PartialEq, Eq, Structural)]
pub enum Weekday {
    Mon,
    Tue,
    Wed,
    Thu,
    Fri,
    Sat,
    Sun,
}

impl Weekday {
    /// The position in the week: 0 for Monday up to 6 for Sunday.
    pub open spec fn index(self) -> int {
        match self {
            Weekday::Mon => 0,
            Weekday::Tue => 1,
            Weekday::Wed => 2,
            Weekday::Thu => 3,
            Weekday::Fri => 4,
            Weekday::Sat => 5,
            Weekday::Sun => 6,
        }
    }
}

/// A date of the proleptic Gregorian calendar between 1 January -262143 and
/// 31 December 262142.
#[derive(Clone, Copy, Debug, PartialEq, Eq, Structural)]
pub struct Date {
    pub(crate) day: i32,
}

impl Date {
    #[verifier::type_invariant]
    pub open(crate) spec fn within_calendar(self) -> bool {
        in_calendar(self.day as int)
    }

    /// The day number: 1 for 1 January of the year 1.
    pub open(crate) spec fn day_number(self) -> int {
        self.day as int
    }

    /// The date whose day number is `day`, for a day number of the calendar.
    pub open(crate) spec fn on_day(day: int) -> Date {
        Date { day: day as i32 }
    }

    /// The date with this year, month and day of the month, if there is one.
    pub fn from_ymd(year: i32, month: u32, day: u32) -> (r: Option<Date>)
        ensures
            match r {
                Some(date) => day_number_of(year as int, month as int, day as int) == Some(
                    date.day_number(),
                ) && in_calendar(date.day_number()),
                None => day_number_of(year as int, month as int, day as int) is None,
            },
    {
        match chrono_day_number(year, month, day) {
            Some(n) => Some(Date { day: n }),
            None => None,
        }
    }

    /// The date with this day number, if it is one of the calendar.
    pub fn from_day_number(day: i32) -> (r: Option<Date>)
        ensures
            match r {
                Some(date) => date.day_number() == day && in_calendar(day as int),
                None => !in_calendar(day as int),
            },
    {
        if MIN_DAY <= day && day <= MAX_DAY {
            Some(Date { day })
        } else {
            None
        }
    }

    /// The first date that can be held.
    pub fn first() -> (r: Date)
        ensures
            r.day_number() == MIN_DAY,
    {
        Date { day: MIN_DAY }
    }

    /// The last date that can be held.
    pub fn last() -> (r: Date)
        ensures
            r.day_number() == MAX_DAY,
    {
        Date { day: MAX_DAY }
    }

    pub fn to_day_number(&self) -> (r: i32)
        ensures
            r as int == self.day_number(),
            in_calendar(r as int),
    {
        proof {
            use_type_invariant(self);
        }
        self.day
    }

    /// The day of the week.
    pub fn weekday(&self) -> (r: Weekday)
        ensures
            r.index() == weekday_index(self.day_number()),
    {
        proof {
            use_type_invariant(self);
        }
        let index: u32 = chrono_weekday(self.day);
        if index == 0 {
            Weekday::Mon
        } else if index == 1 {
            Weekday::Tue
        } else if index == 2 {
            Weekday::Wed
        } else if index == 3 {
            Weekday::Thu
        } else if index == 4 {
            Weekday::Fri
        } else if index == 5 {
            Weekday::Sat
        } else {
            Weekday::Sun
        }
    }

    /// The month of the year, from 1 to 12.
    pub fn month(&self) -> (r: u32)
        ensures
            r as int == month_of(self.day_number()),
            1 <= r <= 12,
    {
        proof {
            use_type_invariant(self);
        }
        chrono_month(self.day)
    }

    /// The ISO 8601 week number.
    pub fn iso_week(&self) -> (r: u32)
        ensures
            r as int == iso_week_of(self.day_number()),
    {
        proof {
            use_type_invariant(self);
        }
        chrono_iso_week(self.day)
    }

    /// The first day of this date's month.
    pub fn first_of_month(&self) -> (r: Date)
        ensures
            r.day_number() == month_start_of(self.day_number()),
    {
        proof {
            use_type_invariant(self);
        }
        Date { day: chrono_month_start(self.day) }
    }

    /// The date `count` days later, unless that is past the last date.
    pub fn plus_days(&self, count: u64) -> (r: Option<Date>)
        ensures
            in_calendar(self.day_number()),
            match r {
                Some(date) => date.day_number() == self.day_number() + count,
                None => self.day_number() + count > MAX_DAY,
            },
    {
        proof {
            use_type_invariant(self);
        }
        match chrono_add_days(self.day, count) {
            Some(n) => Some(Date { day: n }),
            None => None,
        }
    }

    /// The date `count` days earlier, unless that is before the first date.
    pub fn minus_days(&self, count: u64) -> (r: Option<Date>)
        ensures
            in_calendar(self.day_number()),
            match r {
                Some(date) => date.day_number() == self.day_number() - count,
                None => self.day_number() - count < MIN_DAY,
            },
    {
        proof {
            use_type_invariant(self);
        }
        match chrono_sub_days(self.day, count) {
            Some(n) => Some(Date { day: n }),
            None => None,
        }
    }

    /// Whether this date is not after `other`.
    pub fn is_on_or_before(&self, other: &Date) -> (r: bool)
        ensures
            r == (self.day_number() <= other.day_number()),
    {
        self.day <= other.day
    }
}

/// The dates from `start` to `end`, both included; none where `end` is
/// before `start`.
#[derive(Clone, Copy, Debug, PartialEq, Eq, Structural)]
pub struct Period {
    pub start: Date,
    pub end: Date,
}

impl Period {
    /// Whether the day with this number lies in the period.
    pub open spec fn covers(self, day: int) -> bool {
        self.start.day_number() <= day <= self.end.day_number()
    }

    pub fn new(start: Date, end: Date) -> (r: Period)
        ensures
            r.start == start,
            r.end == end,
    {
        Period { start, end }
    }

    /// Whether `date` lies in the period.
    pub fn contains(&self, date: &Date) -> (r: bool)
        ensures
            r == self.covers(date.day_number()),
    {
        self.start.is_on_or_before(date) && date.is_on_or_before(&self.end)
    }

    /// How many Fridays lie in the period.
    pub fn count_fridays(&self) -> (r: u64)
        ensures
            r == fridays_between(self.start.day_number(), self.end.day_number()),
    {
        let first: i32 = self.start.to_day_number();
        let last: i32 = self.end.to_day_number();
        let mut count: u64 = 0;
        if last < first {
            return count;
        }
        let mut day: i64 = first as i64;
        while day <= last as i64
            invariant
                first <= day <= last + 1,
                in_calendar(first as int),
                in_calendar(last as int),
                count == fridays_between(first as int, day - 1),
                count <= day - first,
            decreases last + 1 - day,
        {
            if chrono_weekday(day as i32) == 4 {
                count = count + 1;
            }
            day = day + 1;
        }
        count
    }
}

} // verus!
