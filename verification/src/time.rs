//! Calendar arithmetic and the trusted boundary to the system clock
//! and time-zone database.
//!
//! Instants are UTC, counted in non-leap seconds since the Unix epoch.
//! Wall-clock readings and local-time conversions depend on the
//! machine's clock and time zone, so their contracts state only what
//! holds of every outcome.

use vstd::prelude::*;

use chrono::Datelike;
use chrono::Timelike;
use chrono::TimeZone;

verus! {

/// Whether a proleptic Gregorian year is a leap year.
pub open spec fn is_leap_year(y: int) -> bool {
    (y % 4 == 0 && y % 100 != 0) || y % 400 == 0
}

/// The number of days in a month of the proleptic Gregorian calendar.
pub open spec fn days_in_month(y: int, m: int) -> int {
    if m == 2 {
        if is_leap_year(y) {
            29
        } else {
            28
        }
    } else if m == 4 || m == 6 || m == 9 || m == 11 {
        30
    } else {
        31
    }
}

/// Whether year, month and day name an existing calendar day.
pub open spec fn valid_date(y: int, m: int, d: int) -> bool {
    &&& 1 <= m <= 12
    &&& 1 <= d <= days_in_month(y, m)
}

/// A wall-clock reading broken into the fields the worklog modal edits.
#[derive(Debug, Clone, Copy, PartialEq, Eq, Structural)]
pub struct LocalStamp {
    pub year: i32,
    pub month: u8,
    pub day: u8,
    pub hour: u8,
    pub minute: u8,
}

impl LocalStamp {
    /// The component ranges every wall-clock reading satisfies.
    pub open spec fn in_range(self) -> bool {
        &&& 1 <= self.month <= 12
        &&& 1 <= self.day <= 31
        &&& self.hour <= 23
        &&& self.minute <= 59
    }
}

/// Relies on chrono's `Local::now` and its `Datelike`/`Timelike`
/// accessors, whose documentation bounds each component: month 1..=12,
/// day 1..=31, hour 0..=23, minute 0..=59. The reading itself depends
/// on the machine's clock and time zone.
#[verifier::external_body]
pub(crate) fn now_local() -> (r: LocalStamp)
    ensures
        r.in_range(),
{
    let now = chrono::Local::now();
    LocalStamp {
        year: now.year(),
        month: now.month() as u8,
        day: now.day() as u8,
        hour: now.hour() as u8,
        minute: now.minute() as u8,
    }
}

/// Relies on chrono's `TimeZone::with_ymd_and_hms` on `Local`: it
/// returns `MappedLocalTime::None` when the calendar day does not
/// exist or an hour or minute is out of range, and a single mapped
/// instant only when the local time is unambiguous; `timestamp` then
/// yields that instant's epoch seconds. Which instant a local time
/// maps to depends on the machine's time zone.
#[verifier::external_body]
pub(crate) fn local_to_utc_epoch(year: u16, month: u8, day: u8, hour: u8, minute: u8) -> (r: Option<
    i64,
>)
    ensures
        !valid_date(year as int, month as int, day as int) ==> r is None,
        hour > 23 || minute > 59 ==> r is None,
{
    match chrono::Local.with_ymd_and_hms(
        year as i32,
        month as u32,
        day as u32,
        hour as u32,
        minute as u32,
        0,
    ) {
        chrono::LocalResult::Single(dt) => Some(dt.with_timezone(&chrono::Utc).timestamp()),
        _ => None,
    }
}

/// Relies on chrono's `DateTime::from_timestamp` (None only on an
/// out-of-range count of seconds) and `with_timezone` to `Local`,
/// whose accessors keep the documented component ranges. The broken
/// down fields depend on the machine's time zone.
#[verifier::external_body]
pub(crate) fn epoch_to_local(epoch: i64) -> (r: Option<LocalStamp>)
    ensures
        r matches Some(s) ==> s.in_range(),
{
    match chrono::DateTime::from_timestamp(epoch, 0) {
        Some(dt) => {
            let local = dt.with_timezone(&chrono::Local);
            Some(LocalStamp {
                year: local.year(),
                month: local.month() as u8,
                day: local.day() as u8,
                hour: local.hour() as u8,
                minute: local.minute() as u8,
            })
        },
        None => None,
    }
}

/// The instant a timestamp text denotes under a format string, by
/// chrono's parsing rules; `None` where the text does not match the
/// format. A function of the two texts alone.
pub uninterp spec fn parsed_epoch(text: Seq<char>, fmt: Seq<char>) -> Option<i64>;

/// Relies on chrono's `DateTime::parse_from_str`, which deterministically
/// either parses the text under the format into an instant or fails.
#[verifier::external_body]
pub(crate) fn parse_utc_epoch(text: &str, fmt: &str) -> (r: Option<i64>)
    ensures
        r == parsed_epoch(text@, fmt@),
{
    match chrono::DateTime::parse_from_str(text, fmt) {
        Ok(dt) => Some(dt.with_timezone(&chrono::Utc).timestamp()),
        Err(_) => None,
    }
}

} // verus!
