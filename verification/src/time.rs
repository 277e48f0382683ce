//! The one wall-clock reading a scrape takes: where the current UTC
//! instant sits inside its calendar month. The calendar fields come
//! from the clock through a trusted reading; the conversion to elapsed
//! seconds is verified arithmetic.

use vstd::prelude::*;

use crate::cost::MAX_MONTH_SECONDS;

verus! {

/// The calendar position of an instant inside its UTC month.
pub struct MonthPosition {
    pub day: u32,
    pub hour: u32,
    pub minute: u32,
    pub second: u32,
}

impl MonthPosition {
    /// The field ranges every calendar instant satisfies.
    pub open spec fn wf(self) -> bool {
        &&& 1 <= self.day <= 31
        &&& self.hour < 24
        &&& self.minute < 60
        &&& self.second < 60
    }
}

/// Relies on chrono: `Utc::now`, and the `Datelike::day`,
/// `Timelike::hour`, `Timelike::minute` and `Timelike::second`
/// accessors of the instant it returns. chrono documents the day of
/// month as starting from 1 (never above 31 in any calendar month),
/// the hour as 0 to 23, and the minute and second as 0 to 59 (a leap
/// second surfaces only in the nanosecond field). The instant itself
/// depends on the wall clock, so nothing beyond these ranges is
/// promised of any one reading.
#[verifier::external_body]
pub fn utc_month_position() -> (r: MonthPosition)
    ensures
        r.wf(),
{
    let now = chrono::Utc::now();
    MonthPosition {
        day: chrono::Datelike::day(&now),
        hour: chrono::Timelike::hour(&now),
        minute: chrono::Timelike::minute(&now),
        second: chrono::Timelike::second(&now),
    }
}

/// Seconds between 00:00:00 on the first day of the month and an
/// instant at the given calendar position.
pub open spec fn month_seconds(pos: MonthPosition) -> int {
    (pos.day - 1) * 86400 + pos.hour * 3600 + pos.minute * 60 + pos.second
}

/// Computes the seconds elapsed since the start of the month for a
/// calendar position; the result always stays below the 31-day bound.
pub fn seconds_since_month_start(pos: &MonthPosition) -> (s: u64)
    requires
        pos.wf(),
    ensures
        s == month_seconds(*pos),
        s < MAX_MONTH_SECONDS,
{
    ((pos.day as u64) - 1) * 86400 + (pos.hour as u64) * 3600 + (pos.minute as u64) * 60 + (
    pos.second as u64)
}

/// Reads the clock once and places the current UTC instant inside its
/// month. Whatever the clock returns, the result stays below the
/// 31-day bound the cost arithmetic needs.
pub fn current_month_seconds() -> (s: u64)
    ensures
        s < MAX_MONTH_SECONDS,
{
    let pos = utc_month_position();
    seconds_since_month_start(&pos)
}

} // verus!
