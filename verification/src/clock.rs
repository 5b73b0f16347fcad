//! Calendar dates and times of day as the strategy reads them.
//!
//! A [`Date`] is the day number of a `chrono::NaiveDate` counted from 1 January of year 1
//! (day 1); a [`TimeOfDay`] holds the seconds since midnight and the nanoseconds of a
//! `chrono::NaiveTime`, which orders times by exactly these two numbers.
use vstd::prelude::*;
use crate::decimal::digit_char;

verus! {

/// Day number of the earliest date chrono represents (1 January of year -262143, that is
/// 262144 BCE).
pub const MIN_DAYS_FROM_CE: i32 = -95746129i32;

/// Day number of the latest date chrono represents (31 December 262142 CE).
pub const MAX_DAYS_FROM_CE: i32 = 95745399i32;

/// A calendar date, by its day number from the common era.
#[derive(Clone, Copy, Debug)]
pub struct Date {
    pub days_from_ce: i32,
}

/// The text chrono prints for the date with this day number (`%Y-%m-%d`).
pub uninterp spec fn chrono_date_text(days_from_ce: int) -> Seq<char>;

/// What chrono's `NaiveTime::parse_from_str(text, "%H:%M:%S")` gives: the seconds since
/// midnight and the nanoseconds, or the text of the parse error.
pub uninterp spec fn chrono_parse_hms(text: Seq<char>) -> Result<(int, int), Seq<char>>;

/// What chrono's `NaiveDate::parse_from_str(text, "%Y-%m-%d")` gives: the day number of the
/// date, or the text of the parse error.
pub uninterp spec fn chrono_parse_ymd(text: Seq<char>) -> Result<int, Seq<char>>;

impl Date {
    pub open spec fn wf(self) -> bool {
        MIN_DAYS_FROM_CE <= self.days_from_ce <= MAX_DAYS_FROM_CE
    }

    /// The date with this day number, refused outside chrono's range.
    pub fn from_days(days_from_ce: i32) -> (r: Option<Date>)
        ensures
            r is Some <==> MIN_DAYS_FROM_CE <= days_from_ce <= MAX_DAYS_FROM_CE,
            r is Some ==> r->0.days_from_ce == days_from_ce,
    {
        if MIN_DAYS_FROM_CE <= days_from_ce && days_from_ce <= MAX_DAYS_FROM_CE {
            Some(Date { days_from_ce })
        } else {
            None
        }
    }

    /// `self - Duration::days(days)`, computed by chrono.
    ///
    /// Trusted: `<chrono::NaiveDate as Sub<TimeDelta>>::sub` with `TimeDelta::days`.
    /// Claimed: the day number goes down by exactly `days`.
    #[verifier::external_body]
    pub(crate) fn minus_days(&self, days: i64) -> (r: Date)
        requires
            self.wf(),
            MIN_DAYS_FROM_CE <= self.days_from_ce - days <= MAX_DAYS_FROM_CE,
        ensures
            r.days_from_ce == self.days_from_ce - days,
            r.wf(),
    {
        let d = chrono::NaiveDate::from_num_days_from_ce_opt(self.days_from_ce).unwrap();
        let r = d - chrono::Duration::days(days);
        Date { days_from_ce: chrono::Datelike::num_days_from_ce(&r) }
    }

    /// Parses `YYYY-MM-DD` with chrono.
    ///
    /// Trusted: `chrono::NaiveDate::parse_from_str` with the format `%Y-%m-%d`. Its outcome
    /// is named; a parsed date is claimed to lie in chrono's range.
    #[verifier::external_body]
    pub(crate) fn parse_ymd(text: &str) -> (r: Result<Date, String>)
        ensures
            r is Ok ==> chrono_parse_ymd(text@) == Ok::<int, Seq<char>>(
                r->Ok_0.days_from_ce as int,
            ),
            r is Ok ==> r->Ok_0.wf(),
            r is Err ==> chrono_parse_ymd(text@) == Err::<int, Seq<char>>(r->Err_0@),
    {
        match chrono::NaiveDate::parse_from_str(text, "%Y-%m-%d") {
            Ok(d) => Ok(Date { days_from_ce: chrono::Datelike::num_days_from_ce(&d) }),
            Err(e) => Err(e.to_string()),
        }
    }

    /// The text of the date, as chrono displays it.
    ///
    /// Trusted: `<chrono::NaiveDate as Display>::fmt` through `format!`. Its text is named,
    /// not spelled out; chrono parses it back with `%Y-%m-%d`, the format it displays, as the
    /// same date.
    #[verifier::external_body]
    pub(crate) fn to_text(&self) -> (r: String)
        requires
            self.wf(),
        ensures
            r@ == chrono_date_text(self.days_from_ce as int),
            chrono_parse_ymd(r@) is Ok && chrono_parse_ymd(r@)->Ok_0 == self.days_from_ce,
    {
        let d = chrono::NaiveDate::from_num_days_from_ce_opt(self.days_from_ce).unwrap();
        format!("{}", d)
    }
}

/// Two decimal digits of `n` (below 100).
pub open spec fn two_digits(n: int) -> Seq<char> {
    seq![digit_char((n / 10) as nat), digit_char((n % 10) as nat)]
}

/// `HH:MM:SS` of a time of day.
pub open spec fn hms_text(t: TimeOfDay) -> Seq<char> {
    let s = t.secs as int;
    two_digits(s / 3600) + seq![':'] + two_digits((s / 60) % 60) + seq![':'] + two_digits(
        s % 60 + t.nanos as int / 1_000_000_000,
    )
}

/// A time of day: seconds since midnight and nanoseconds (above 10^9 only in a leap second).
#[derive(Clone, Copy, Debug)]
pub struct TimeOfDay {
    pub secs: u32,
    pub nanos: u32,
}

impl TimeOfDay {
    pub open spec fn wf(self) -> bool {
        &&& self.secs < 86400
        &&& self.nanos < 2_000_000_000
        &&& self.nanos >= 1_000_000_000 ==> self.secs % 60 == 59
    }

    /// `self` is at or after `other`.
    pub open spec fn at_or_after(self, other: TimeOfDay) -> bool {
        self.secs > other.secs || (self.secs == other.secs && self.nanos >= other.nanos)
    }

    /// The time `hour:min:sec`, as `NaiveTime::from_hms_opt`.
    pub fn from_hms(hour: u32, min: u32, sec: u32) -> (r: TimeOfDay)
        requires
            hour < 24,
            min < 60,
            sec < 60,
        ensures
            r.secs == hour * 3600 + min * 60 + sec,
            r.nanos == 0,
            r.wf(),
    {
        TimeOfDay { secs: hour * 3600 + min * 60 + sec, nanos: 0 }
    }

    pub fn is_at_or_after(&self, other: &TimeOfDay) -> (r: bool)
        ensures
            r == self.at_or_after(*other),
    {
        self.secs > other.secs || (self.secs == other.secs && self.nanos >= other.nanos)
    }

    /// The time of day from its parts, refused where chrono refuses them.
    pub fn from_parts(secs: u32, nanos: u32) -> (r: Option<TimeOfDay>)
        ensures
            r is Some <==> (TimeOfDay { secs, nanos }).wf(),
            r is Some ==> r->0 == (TimeOfDay { secs, nanos }),
    {
        if secs < 86400 && nanos < 2_000_000_000 && (nanos < 1_000_000_000 || secs % 60 == 59) {
            Some(TimeOfDay { secs, nanos })
        } else {
            None
        }
    }

    /// The time as chrono formats it with `%H:%M:%S`.
    ///
    /// Trusted: `chrono::NaiveTime::format` with `%H:%M:%S`. Claimed: two-digit hours,
    /// minutes and seconds, a leap second showing as second 60.
    #[verifier::external_body]
    pub(crate) fn to_text(&self) -> (r: String)
        requires
            self.wf(),
        ensures
            r@ == hms_text(*self),
    {
        let t = chrono::NaiveTime::from_num_seconds_from_midnight_opt(self.secs, self.nanos).unwrap();
        t.format("%H:%M:%S").to_string()
    }

    /// Parses `HH:MM:SS` with chrono.
    ///
    /// Trusted: `chrono::NaiveTime::parse_from_str` with the format `%H:%M:%S`. Its outcome
    /// is named; a parsed time is claimed to be a valid time of day.
    #[verifier::external_body]
    pub(crate) fn parse_hms(text: &str) -> (r: Result<TimeOfDay, String>)
        ensures
            r is Ok ==> chrono_parse_hms(text@) == Ok::<(int, int), Seq<char>>(
                (r->Ok_0.secs as int, r->Ok_0.nanos as int),
            ),
            r is Ok ==> r->Ok_0.wf(),
            r is Err ==> chrono_parse_hms(text@) == Err::<(int, int), Seq<char>>(r->Err_0@),
    {
        match chrono::NaiveTime::parse_from_str(text, "%H:%M:%S") {
            Ok(t) => Ok(TimeOfDay {
                secs: chrono::Timelike::num_seconds_from_midnight(&t),
                nanos: chrono::Timelike::nanosecond(&t),
            }),
            Err(e) => Err(e.to_string()),
        }
    }
}

} // verus!
