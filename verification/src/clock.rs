//! Instants and calendar dates.
//!
//! An instant is a count of seconds since 1970-01-01 00:00:00 UTC. The clock and
//! the calendar are chrono's.

use vstd::prelude::*;
use chrono::Datelike;

verus! {

/// No reading of the clock is later than this instant.
pub const MAX_CLOCK: i64 = 185_542_587_187_199;

/// The largest number of seconds that a validity or a session may last, and the
/// largest that chrono's durations hold.
pub const MAX_DURATION: i64 = 9_223_372_036_854_775;

/// The year of the epoch, from which instants are counted.
pub const EPOCH_YEAR: i32 = 1970;

/// Whether chrono's calendar has the day `day` of the month `month` of the year `year`.
pub uninterp spec fn calendar_date(year: int, month: int, day: int) -> bool;

/// How chrono writes a date of its calendar.
pub uninterp spec fn date_text(year: int, month: int, day: int) -> Seq<char>;

/// The year, month and day that chrono reads from `text` under the format `format`.
pub uninterp spec fn date_parsed(text: Seq<char>, format: Seq<char>) -> Option<(int, int, int)>;

/// A date of the calendar.
#[derive(Clone, Copy, Debug)]
pub struct Date {
    year: i32,
    month: u32,
    day: u32,
}

impl Date {
    #[verifier::type_invariant]
    spec fn on_calendar(self) -> bool {
        calendar_date(self.year as int, self.month as int, self.day as int)
    }

    /// Year, month and day.
    pub closed spec fn parts(self) -> (int, int, int) {
        (self.year as int, self.month as int, self.day as int)
    }

    /// The date of the given year, month and day, where the calendar has it.
    pub fn new(year: i32, month: u32, day: u32) -> (date: Option<Date>)
        ensures
            date is Some <==> calendar_date(year as int, month as int, day as int),
            date is Some ==> date->0.parts() == (year as int, month as int, day as int),
    {
        if date_exists(year, month, day) {
            Some(Date { year, month, day })
        } else {
            None
        }
    }

    /// The year.
    pub fn year(&self) -> (year: i32)
        ensures
            year == self.parts().0,
    {
        self.year
    }

    /// The month, from 1.
    pub fn month(&self) -> (month: u32)
        ensures
            month == self.parts().1,
    {
        self.month
    }

    /// The day of the month, from 1.
    pub fn day(&self) -> (day: u32)
        ensures
            day == self.parts().2,
    {
        self.day
    }

    /// Whether `a` comes before `b`.
    pub open spec fn earlier(a: (int, int, int), b: (int, int, int)) -> bool {
        a.0 < b.0 || (a.0 == b.0 && (a.1 < b.1 || (a.1 == b.1 && a.2 < b.2)))
    }

    /// Whether this date comes before `other`.
    pub fn before(&self, other: &Date) -> (r: bool)
        ensures
            r == Date::earlier(self.parts(), other.parts()),
    {
        self.year < other.year || (self.year == other.year && (self.month < other.month || (
        self.month == other.month && self.day < other.day)))
    }

    /// Whether the two dates are the same day.
    pub fn same(&self, other: &Date) -> (r: bool)
        ensures
            r == (self.parts() == other.parts()),
    {
        self.year == other.year && self.month == other.month && self.day == other.day
    }

    /// The date as text.
    pub fn to_text(&self) -> (text: String)
        ensures
            text@ == date_text(self.parts().0, self.parts().1, self.parts().2),
    {
        proof {
            use_type_invariant(self);
        }
        format_date(self.year, self.month, self.day)
    }

    /// Reads a date from `text` under `format`.
    pub fn parse(text: &str, format: &str) -> (date: Option<Date>)
        ensures
            date is Some <==> date_parsed(text@, format@) is Some,
            date is Some ==> date->0.parts() == date_parsed(text@, format@)->0,
    {
        match parse_date(text, format) {
            Some((year, month, day)) => Some(Date { year, month, day }),
            None => None,
        }
    }

    /// The day it is now, in UTC: a date of the calendar, and none before the year of
    /// the epoch, as the clock reads no instant before the epoch.
    pub fn today() -> (date: Date)
        ensures
            calendar_date(date.parts().0, date.parts().1, date.parts().2),
            date.parts().0 >= EPOCH_YEAR,
    {
        let (year, month, day) = today();
        Date { year, month, day }
    }
}

/// `Utc::now` and `DateTime::timestamp` of chrono: the seconds since the epoch. chrono
/// refuses a clock before the epoch and holds no instant whose day count leaves `i32`,
/// which bounds the reading. Nothing else is known of it.
#[verifier::external_body]
pub(crate) fn now() -> (t: i64)
    ensures
        0 <= t <= MAX_CLOCK,
{
    chrono::Utc::now().timestamp()
}

/// `Utc::now` and `DateTime::date_naive` of chrono: the day it is, which is a date of
/// the calendar. chrono refuses a clock before the epoch, so the day lies in no year
/// before that of the epoch.
#[verifier::external_body]
pub(crate) fn today() -> (date: (i32, u32, u32))
    ensures
        calendar_date(date.0 as int, date.1 as int, date.2 as int),
        date.0 >= EPOCH_YEAR,
{
    let day = chrono::Utc::now().date_naive();
    (day.year(), day.month(), day.day())
}

/// `NaiveDate::from_ymd_opt` of chrono: whether the calendar has the date.
#[verifier::external_body]
pub(crate) fn date_exists(year: i32, month: u32, day: u32) -> (r: bool)
    ensures
        r == calendar_date(year as int, month as int, day as int),
{
    chrono::NaiveDate::from_ymd_opt(year, month, day).is_some()
}

/// `Display` of chrono's `NaiveDate`: the text of a date of the calendar.
#[verifier::external_body]
pub(crate) fn format_date(year: i32, month: u32, day: u32) -> (text: String)
    requires
        calendar_date(year as int, month as int, day as int),
    ensures
        text@ == date_text(year as int, month as int, day as int),
{
    chrono::NaiveDate::from_ymd_opt(year, month, day).unwrap().to_string()
}

/// `NaiveDate::parse_from_str` of chrono: the date that the text holds under the
/// format, which is a date of the calendar, or nothing where the text holds none.
#[verifier::external_body]
pub(crate) fn parse_date(text: &str, format: &str) -> (date: Option<(i32, u32, u32)>)
    ensures
        match date {
            Some(d) => date_parsed(text@, format@) == Some((d.0 as int, d.1 as int, d.2 as int))
                && calendar_date(d.0 as int, d.1 as int, d.2 as int),
            None => date_parsed(text@, format@) is None,
        },
{
    chrono::NaiveDate::parse_from_str(text, format).ok().map(|d| (d.year(), d.month(), d.day()))
}

} // verus!
