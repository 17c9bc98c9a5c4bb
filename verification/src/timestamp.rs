//! Calendar timestamps at second precision.

use chrono::{DateTime, Datelike, Timelike};
use vstd::prelude::*;

verus! {

/// A date and time of day in UTC, in the proleptic Gregorian calendar.
#[derive(Clone, Copy, Debug, PartialEq, Eq)]
pub struct Timestamp {
    pub year: i32,
    pub month: u32,
    pub day: u32,
    pub hour: u32,
    pub minute: u32,
    pub second: u32,
}

/// The first year of the calendar.
pub const MIN_YEAR: i32 = -262_143;

/// The last year of the calendar.
pub const MAX_YEAR: i32 = 262_142;

/// Year, month and day of the day that lies `days` days after 1970-01-01.
///
/// The count is shifted to start on a first of March, so that the leap day
/// is the last day of a year, and split into spans of 400 years, which all
/// have 146,097 days. Within the span the year follows from the day by
/// taking out the leap days, and the month follows from the day of the year
/// because from March on the months alternate evenly: five of them take 153
/// days.
pub open spec fn civil_date(days: int) -> (int, int, int) {
    let shifted = days + 719_468;
    let era = shifted / 146_097;
    let day_of_era = shifted - era * 146_097;
    let year_of_era = (day_of_era - day_of_era / 1_460 + day_of_era / 36_524 - day_of_era
        / 146_096) / 365;
    let day_of_year = day_of_era - (365 * year_of_era + year_of_era / 4 - year_of_era / 100);
    let shifted_month = (5 * day_of_year + 2) / 153;
    let day = day_of_year - (153 * shifted_month + 2) / 5 + 1;
    let month = if shifted_month < 10 {
        shifted_month + 3
    } else {
        shifted_month - 9
    };
    let year = year_of_era + era * 400 + if month <= 2 {
        1int
    } else {
        0int
    };
    (year, month, day)
}

/// The calendar timestamp of `secs` seconds since 1970-01-01T00:00:00Z: the
/// date of the day that the seconds fall on and the time of day that is left
/// over, or `None` where the year lies outside the calendar.
pub open spec fn calendar_time(secs: int) -> Option<Timestamp> {
    let (year, month, day) = civil_date(secs / 86_400);
    if MIN_YEAR <= year <= MAX_YEAR {
        Some(
            Timestamp {
                year: year as i32,
                month: month as u32,
                day: day as u32,
                hour: ((secs % 86_400) / 3_600) as u32,
                minute: ((secs % 3_600) / 60) as u32,
                second: (secs % 60) as u32,
            },
        )
    } else {
        None
    }
}

impl Timestamp {
    /// Every component lies in its calendar range.
    pub open spec fn well_formed(self) -> bool {
        &&& 1 <= self.month <= 12
        &&& 1 <= self.day <= 31
        &&& self.hour < 24
        &&& self.minute < 60
        &&& self.second < 60
    }

    /// The time of day is the one that `secs` seconds since the epoch fall on.
    pub open spec fn time_of_day_matches(self, secs: int) -> bool {
        &&& self.hour == (secs % 86_400) / 3_600
        &&& self.minute == (secs % 3_600) / 60
        &&& self.second == secs % 60
    }

    /// The calendar timestamp of `secs` seconds since 1970-01-01T00:00:00Z,
    /// or `None` where the calendar cannot represent that instant.
    pub fn from_unix(secs: i64) -> (r: Option<Timestamp>)
        ensures
            r == calendar_time(secs as int),
            r matches Some(t) ==> t.well_formed() && t.time_of_day_matches(secs as int),
            0 <= secs <= u32::MAX ==> r is Some,
    {
        proof {
            calendar_time_is_well_formed(secs as int);
        }
        utc_from_unix(secs)
    }
}

/// The components of a calendar timestamp lie in their ranges, and every
/// instant that fits 32 unsigned bits has one.
pub proof fn calendar_time_is_well_formed(secs: int)
    ensures
        calendar_time(secs) matches Some(t) ==> t.well_formed() && t.time_of_day_matches(secs),
        0 <= secs <= u32::MAX ==> calendar_time(secs) is Some,
{
    let shifted = secs / 86_400 + 719_468;
    let era = shifted / 146_097;
    let day_of_era = shifted - era * 146_097;
    assert(0 <= day_of_era < 146_097);
    let year_of_era = (day_of_era - day_of_era / 1_460 + day_of_era / 36_524 - day_of_era
        / 146_096) / 365;
    assert(0 <= year_of_era <= 399);
    let day_of_year = day_of_era - (365 * year_of_era + year_of_era / 4 - year_of_era / 100);
    assert(0 <= day_of_year <= 365);
    let shifted_month = (5 * day_of_year + 2) / 153;
    assert(0 <= shifted_month <= 11);
    let day = day_of_year - (153 * shifted_month + 2) / 5 + 1;
    assert(1 <= day <= 31);
}

/// Calls `chrono::DateTime::from_timestamp` with no sub-second part and reads
/// the six calendar components off the result.
///
/// Taken on trust: the date is that of the proleptic Gregorian calendar for
/// the day that the seconds fall on, the time of day is what is left over,
/// and the call fails exactly outside the years that chrono's dates span.
#[verifier::external_body]
fn utc_from_unix(secs: i64) -> (r: Option<Timestamp>)
    ensures
        r == calendar_time(secs as int),
{
    match DateTime::from_timestamp(secs, 0) {
        Some(t) => Some(Timestamp {
            year: t.year(),
            month: t.month(),
            day: t.day(),
            hour: t.hour(),
            minute: t.minute(),
            second: t.second(),
        }),
        None => None,
    }
}

/// The first second of 2021 is 1,609,459,200 seconds after the epoch.
pub proof fn first_second_of_2021()
    ensures
        calendar_time(1609459200) == Some(
            Timestamp { year: 2021, month: 1, day: 1, hour: 0, minute: 0, second: 0 },
        ),
{
    assert(1609459200int / 86_400 == 18628);
    assert((18628int + 719_468) / 146_097 == 5);
    assert(civil_date(18628) == (2021int, 1int, 1int));
}

} // verus!
