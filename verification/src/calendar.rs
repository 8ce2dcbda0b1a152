//! The calendar day at a given instant, and how the roster shows it.

use chrono::Datelike;
use vstd::prelude::*;
use crate::chars::push_chars;
use crate::locator::Today;
use crate::number::{decimal, decimal_chars};

verus! {

/// The offset from UTC, in seconds, of the time zone in which the roster's
/// day is reckoned: nine hours east.
pub const LOCAL_OFFSET_SECONDS: i32 = 32_400;

/// The days of the week, starting with Sunday.
#[derive(Clone, Copy, Debug, PartialEq, Eq, Structural)]
pub enum Weekday {
    Sunday,
    Monday,
    Tuesday,
    Wednesday,
    Thursday,
    Friday,
    Saturday,
}

/// A day of the calendar as the roster needs it: month, day of the month and
/// day of the week.
#[derive(Clone, Copy, Debug, PartialEq, Eq, Structural)]
pub struct CalendarDay {
    pub month: u32,
    pub day: u32,
    pub weekday: Weekday,
}

/// The month, the day of the month and the number of days since Sunday that
/// the calendar gives for the instant `unix_seconds` after the Unix epoch, at
/// `offset_seconds` east of UTC; `None` where it gives none.
pub uninterp spec fn civil_day(unix_seconds: i64, offset_seconds: i32) -> Option<(u32, u32, u32)>;

/// Calls chrono: `FixedOffset::east_opt`, `DateTime::from_timestamp` with no
/// nanoseconds, `DateTime::with_timezone`, and of the local time `month`,
/// `day` and `weekday().num_days_from_sunday()`. The result depends on the
/// two arguments alone. chrono documents that the month lies between 1 and
/// 12, the day between 1 and 31, and that Sunday counts as 0 and Saturday as
/// 6. It returns `None` where chrono refuses the offset or the instant.
#[verifier::external_body]
fn chrono_day(unix_seconds: i64, offset_seconds: i32) -> (r: Option<(u32, u32, u32)>)
    ensures
        r == civil_day(unix_seconds, offset_seconds),
        r matches Some(t) ==> 1 <= t.0 <= 12 && 1 <= t.1 <= 31 && t.2 <= 6,
{
    let offset = chrono::FixedOffset::east_opt(offset_seconds)?;
    let utc = chrono::DateTime::from_timestamp(unix_seconds, 0)?;
    let local = utc.with_timezone(&offset);
    Some((local.month(), local.day(), local.weekday().num_days_from_sunday()))
}

/// The day of the week that lies `index` days after Sunday, for an index
/// below seven.
pub open spec fn weekday_at(index: u32) -> Option<Weekday> {
    if index == 0 {
        Some(Weekday::Sunday)
    } else if index == 1 {
        Some(Weekday::Monday)
    } else if index == 2 {
        Some(Weekday::Tuesday)
    } else if index == 3 {
        Some(Weekday::Wednesday)
    } else if index == 4 {
        Some(Weekday::Thursday)
    } else if index == 5 {
        Some(Weekday::Friday)
    } else if index == 6 {
        Some(Weekday::Saturday)
    } else {
        None
    }
}

/// The calendar day made of a month, a day of the month and a count of days
/// since Sunday; `None` when that count is seven or more.
pub open spec fn day_of_reading(reading: (u32, u32, u32)) -> Option<CalendarDay> {
    match weekday_at(reading.2) {
        Some(weekday) => Some(CalendarDay { month: reading.0, day: reading.1, weekday }),
        None => None,
    }
}

/// The single character by which a day of the week is shown.
pub open spec fn weekday_sign(weekday: Weekday) -> char {
    match weekday {
        Weekday::Sunday => '日',
        Weekday::Monday => '月',
        Weekday::Tuesday => '火',
        Weekday::Wednesday => '水',
        Weekday::Thursday => '木',
        Weekday::Friday => '金',
        Weekday::Saturday => '土',
    }
}

/// The heading for a day: month, month sign, day, day sign, and the sign of
/// the day of the week in parentheses.
pub open spec fn date_heading(day: CalendarDay) -> Seq<char> {
    decimal(day.month as nat) + seq!['月'] + decimal(day.day as nat) + seq!['日', '('] + seq![
        weekday_sign(day.weekday),
    ] + seq![')']
}

impl Weekday {
    /// The day of the week `index` days after Sunday.
    pub fn from_index(index: u32) -> (r: Option<Weekday>)
        ensures
            r == weekday_at(index),
    {
        if index == 0 {
            Some(Weekday::Sunday)
        } else if index == 1 {
            Some(Weekday::Monday)
        } else if index == 2 {
            Some(Weekday::Tuesday)
        } else if index == 3 {
            Some(Weekday::Wednesday)
        } else if index == 4 {
            Some(Weekday::Thursday)
        } else if index == 5 {
            Some(Weekday::Friday)
        } else if index == 6 {
            Some(Weekday::Saturday)
        } else {
            None
        }
    }

    /// The character by which this day of the week is shown.
    pub fn sign(self) -> (c: char)
        ensures
            c == weekday_sign(self),
    {
        match self {
            Weekday::Sunday => '日',
            Weekday::Monday => '月',
            Weekday::Tuesday => '火',
            Weekday::Wednesday => '水',
            Weekday::Thursday => '木',
            Weekday::Friday => '金',
            Weekday::Saturday => '土',
        }
    }
}

impl CalendarDay {
    /// The calendar day made of a calendar reading: month, day of the month
    /// and days since Sunday.
    pub fn from_reading(reading: (u32, u32, u32)) -> (r: Option<CalendarDay>)
        ensures
            r == day_of_reading(reading),
    {
        match Weekday::from_index(reading.2) {
            Some(weekday) => Some(CalendarDay { month: reading.0, day: reading.1, weekday }),
            None => None,
        }
    }

    /// The calendar day at `unix_seconds` after the Unix epoch, in the
    /// roster's time zone. `None` exactly where the calendar gives no day for
    /// that instant.
    pub fn at(unix_seconds: i64) -> (r: Option<CalendarDay>)
        ensures
            match civil_day(unix_seconds, LOCAL_OFFSET_SECONDS) {
                Some(reading) => r is Some && r == day_of_reading(reading),
                None => r is None,
            },
    {
        match chrono_day(unix_seconds, LOCAL_OFFSET_SECONDS) {
            Some(reading) => CalendarDay::from_reading(reading),
            None => None,
        }
    }

    /// The month and day that the locator looks for on this day.
    pub fn today(&self) -> (t: Today)
        ensures
            t == (Today { month: self.month, day: self.day }),
    {
        Today { month: self.month, day: self.day }
    }

    /// The heading under which the roster shows this day.
    pub fn heading(&self) -> (out: String)
        ensures
            out@ == date_heading(*self),
    {
        let mut out = String::new();
        push_chars(&mut out, &decimal_chars(self.month as u64));
        out.push('月');
        push_chars(&mut out, &decimal_chars(self.day as u64));
        out.push('日');
        out.push('(');
        out.push(self.weekday.sign());
        out.push(')');
        assert(out@ =~= date_heading(*self));
        out
    }
}

} // verus!
