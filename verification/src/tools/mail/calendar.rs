//! The date of a message as seconds since the epoch.
use vstd::prelude::*;

verus! {

/// A calendar date and a time of day, as a message's `Date` header gives them.
#[derive(Debug, Clone, Copy)]
pub struct MailDate {
    pub year: u16,
    pub month: u8,
    pub day: u8,
    pub hour: u8,
    pub minute: u8,
    pub second: u8,
}

/// Whether a year of the Gregorian calendar has a 29 February.
pub open spec fn is_leap(year: int) -> bool {
    year % 4 == 0 && (year % 100 != 0 || year % 400 == 0)
}

/// How many days a month has.
pub open spec fn days_in_month(year: int, month: int) -> int {
    if month == 2 {
        if is_leap(year) {
            29
        } else {
            28
        }
    } else if month == 4 || month == 6 || month == 9 || month == 11 {
        30
    } else {
        31
    }
}

/// How many days lie between the start of the year 0 and the start of `year`.
pub open spec fn days_before_year(year: int) -> int {
    365 * year + (year + 3) / 4 - (year + 99) / 100 + (year + 399) / 400
}

/// How many days of `year` lie before `month`.
pub open spec fn days_before_month(year: int, month: int) -> int
    decreases month,
{
    if month <= 1 {
        0
    } else {
        days_before_month(year, month - 1) + days_in_month(year, month - 1)
    }
}

/// Whether there is such a date and such a time of day.
pub open spec fn exists_in_calendar(date: MailDate) -> bool {
    &&& 1 <= date.month <= 12
    &&& 1 <= date.day <= days_in_month(date.year as int, date.month as int)
    &&& date.hour < 24
    &&& date.minute < 60
    &&& date.second < 60
}

/// The seconds from the start of 1970 to the date, negative for an earlier one.
pub open spec fn epoch_seconds(date: MailDate) -> int {
    let days = days_before_year(date.year as int) + days_before_month(
        date.year as int,
        date.month as int,
    ) + (date.day - 1) - days_before_year(1970);
    days * 86400 + date.hour * 3600 + date.minute * 60 + date.second
}

/// The seconds that are kept of a time: none for one before the epoch.
pub open spec fn since_epoch(seconds: int) -> int {
    if seconds < 0 {
        0
    } else {
        seconds
    }
}

/// The time that is kept of a message: zero where its date is missing, does not exist or lies before
/// the epoch. The date and the time of day are taken as they stand in the header; a time zone beside
/// them is not taken into account.
pub open spec fn message_time(date: Option<MailDate>) -> int {
    match date {
        Some(d) if exists_in_calendar(d) => since_epoch(epoch_seconds(d)),
        _ => 0,
    }
}

/// A year's days before a month are at most as many as if each month had 31.
proof fn lemma_days_before_month(year: int, month: int)
    requires
        month >= 0,
    ensures
        0 <= days_before_month(year, month) <= 31 * month,
    decreases month,
{
    if month > 1 {
        lemma_days_before_month(year, month - 1);
    }
}

/// The time that is kept of a message fits in 64 bits.
pub proof fn lemma_message_time_fits(date: Option<MailDate>)
    ensures
        0 <= message_time(date) <= u64::MAX,
{
    if date is Some {
        let d = date->0;
        lemma_days_before_month(d.year as int, d.month as int);
    }
}

/// `chrono::NaiveDate::from_ymd_opt`, `and_hms_opt`, `and_utc` and `timestamp`: the seconds since
/// the epoch of a date and a time of day in UTC, where both exist.
#[verifier::external_body]
fn utc_seconds(date: MailDate) -> (r: Option<i64>)
    ensures
        (match r {
            Some(seconds) => exists_in_calendar(date) && seconds == epoch_seconds(date),
            None => !exists_in_calendar(date),
        }),
{
    let day = chrono::NaiveDate::from_ymd_opt(date.year.into(), date.month.into(), date.day.into())?;
    let moment = day.and_hms_opt(date.hour.into(), date.minute.into(), date.second.into())?;
    Some(moment.and_utc().timestamp())
}

/// The time that is kept of a message.
pub fn timestamp(date: Option<MailDate>) -> (r: u64)
    ensures
        r == message_time(date),
{
    match date {
        Some(d) => match utc_seconds(d) {
            Some(seconds) => if seconds < 0 {
                0
            } else {
                seconds as u64
            },
            None => 0,
        },
        None => 0,
    }
}

} // verus!
