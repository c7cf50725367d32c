//! Dates and times as the foreign runtime takes them: field by field.

use vstd::prelude::*;

verus! {

#[verifier::external_type_specification]
#[verifier::external_body]
pub struct ExNaiveDateTime(chrono::NaiveDateTime);

/// A date and time of the calendar, without a time zone, taken apart into the
/// seven fields that the foreign runtime builds its own date and time from.
#[derive(Clone, Copy, Debug, PartialEq, Eq, Structural)]
pub struct CalendarTime {
    pub year: i32,
    pub month: u8,
    pub day: u8,
    pub hour: u8,
    pub minute: u8,
    pub second: u8,
    pub microsecond: u32,
}

/// The year that chrono reads from a date and time.
pub uninterp spec fn year_in(moment: chrono::NaiveDateTime) -> int;

/// The month that chrono reads from a date and time.
pub uninterp spec fn month_in(moment: chrono::NaiveDateTime) -> int;

/// The day of the month that chrono reads from a date and time.
pub uninterp spec fn day_in(moment: chrono::NaiveDateTime) -> int;

/// The hour that chrono reads from a date and time.
pub uninterp spec fn hour_in(moment: chrono::NaiveDateTime) -> int;

/// The minute that chrono reads from a date and time.
pub uninterp spec fn minute_in(moment: chrono::NaiveDateTime) -> int;

/// The second that chrono reads from a date and time.
pub uninterp spec fn second_in(moment: chrono::NaiveDateTime) -> int;

/// The nanoseconds that chrono reads from a date and time.
pub uninterp spec fn nanosecond_in(moment: chrono::NaiveDateTime) -> int;

/// `chrono::Datelike::year` of a `NaiveDateTime`: the year of its calendar
/// date. The contract names the number and claims nothing more of it.
#[verifier::external_body]
fn year_of(moment: &chrono::NaiveDateTime) -> (year: i32)
    ensures
        year == year_in(*moment),
{
    chrono::Datelike::year(moment)
}

/// `chrono::Datelike::month` of a `NaiveDateTime`: the month of its calendar
/// date, which chrono counts from 1 to 12.
#[verifier::external_body]
fn month_of(moment: &chrono::NaiveDateTime) -> (month: u32)
    ensures
        month == month_in(*moment),
        1 <= month <= 12,
{
    chrono::Datelike::month(moment)
}

/// `chrono::Datelike::day` of a `NaiveDateTime`: the day of the month, which
/// chrono counts from 1 to 31.
#[verifier::external_body]
fn day_of(moment: &chrono::NaiveDateTime) -> (day: u32)
    ensures
        day == day_in(*moment),
        1 <= day <= 31,
{
    chrono::Datelike::day(moment)
}

/// `chrono::Timelike::hour` of a `NaiveDateTime`: the hour of the day, from 0
/// to 23.
#[verifier::external_body]
fn hour_of(moment: &chrono::NaiveDateTime) -> (hour: u32)
    ensures
        hour == hour_in(*moment),
        hour <= 23,
{
    chrono::Timelike::hour(moment)
}

/// `chrono::Timelike::minute` of a `NaiveDateTime`: the minute of the hour,
/// from 0 to 59.
#[verifier::external_body]
fn minute_of(moment: &chrono::NaiveDateTime) -> (minute: u32)
    ensures
        minute == minute_in(*moment),
        minute <= 59,
{
    chrono::Timelike::minute(moment)
}

/// `chrono::Timelike::second` of a `NaiveDateTime`: the second of the minute,
/// from 0 to 59.
#[verifier::external_body]
fn second_of(moment: &chrono::NaiveDateTime) -> (second: u32)
    ensures
        second == second_in(*moment),
        second <= 59,
{
    chrono::Timelike::second(moment)
}

/// `chrono::Timelike::nanosecond` of a `NaiveDateTime`: the nanoseconds since
/// the whole second. chrono keeps a leap second as a count from 1,000,000,000
/// to 1,999,999,999 within the second before it, so the number stays under
/// 2,000,000,000.
#[verifier::external_body]
fn nanosecond_of(moment: &chrono::NaiveDateTime) -> (nanosecond: u32)
    ensures
        nanosecond == nanosecond_in(*moment),
        nanosecond < 2_000_000_000,
{
    chrono::Timelike::nanosecond(moment)
}

impl CalendarTime {
    /// Whether every field is in the range that a calendar and a clock give
    /// it. A leap second shows as a microsecond of 1,000,000 or more.
    pub open spec fn well_formed(self) -> bool {
        &&& 1 <= self.month <= 12
        &&& 1 <= self.day <= 31
        &&& self.hour <= 23
        &&& self.minute <= 59
        &&& self.second <= 59
        &&& self.microsecond < 2_000_000
    }

    /// Takes a date and time apart. The fields are those that chrono reads
    /// from `moment`, each in the width that the foreign runtime takes it in,
    /// which holds it without loss; the microsecond is the whole thousands of
    /// the nanosecond.
    pub fn from_naive(moment: &chrono::NaiveDateTime) -> (time: CalendarTime)
        ensures
            time.year == year_in(*moment),
            time.month == month_in(*moment),
            time.day == day_in(*moment),
            time.hour == hour_in(*moment),
            time.minute == minute_in(*moment),
            time.second == second_in(*moment),
            time.microsecond == nanosecond_in(*moment) / 1000,
            time.well_formed(),
    {
        CalendarTime {
            year: year_of(moment),
            month: month_of(moment) as u8,
            day: day_of(moment) as u8,
            hour: hour_of(moment) as u8,
            minute: minute_of(moment) as u8,
            second: second_of(moment) as u8,
            microsecond: nanosecond_of(moment) / 1000,
        }
    }
}

} // verus!
