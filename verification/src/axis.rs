//! Chart axes: the range of the value axis and the labels of the time axis.

use crate::text::digit_char;
use chrono::DateTime;
use vstd::prelude::*;
use vstd::string::StringExecFns;

verus! {

/// Room left above and below the energy-rate series, in thousandths of a
/// watt.
pub const ENERGY_RATE_MARGIN_MILLI: u32 = 5_000;

/// Room left above and below the voltage series, in thousandths of a volt.
pub const VOLTAGE_MARGIN_MILLI: u32 = 1_000;

/// The greatest whole unit that is not above `milli` thousandths.
pub open spec fn whole_units_below(milli: int) -> int {
    milli / 1000
}

/// The least whole unit that is not below `milli` thousandths.
pub open spec fn whole_units_above(milli: int) -> int {
    -((-milli) / 1000)
}

/// The lower end of the value axis, in whole units: the least value less
/// the margin, rounded down, and never below zero.
pub open spec fn axis_floor(low_milli: int, margin_milli: int) -> int {
    let below = whole_units_below(low_milli - margin_milli);
    if below < 0 {
        0
    } else {
        below
    }
}

/// The upper end of the value axis, in whole units: the greatest value plus
/// the margin, rounded up.
pub open spec fn axis_ceiling(high_milli: int, margin_milli: int) -> int {
    whole_units_above(high_milli + margin_milli)
}

/// The value axis, in whole units, for a series whose values span
/// `low_milli ..= high_milli` thousandths.
pub fn value_axis(low_milli: i64, high_milli: i64, margin_milli: u32) -> (axis: (i64, i64))
    ensures
        axis.0 == axis_floor(low_milli as int, margin_milli as int),
        axis.1 == axis_ceiling(high_milli as int, margin_milli as int),
{
    let lowered: i128 = (low_milli as i128) - (margin_milli as i128);
    let floor: i128 = if lowered < 0 {
        0
    } else {
        lowered / 1000
    };
    let raised: i128 = (high_milli as i128) + (margin_milli as i128);
    let ceiling: i128 = if raised > 0 {
        (raised - 1) / 1000 + 1
    } else {
        -((-raised) / 1000)
    };
    (floor as i64, ceiling as i64)
}

/// Whether the time axis of the voltage chart labels the tick at this
/// minute and second: only whole even minutes are labelled.
pub fn labels_tick(minute: u32, second: u32) -> (labelled: bool)
    ensures
        labelled == (minute % 2 == 0 && second == 0),
{
    minute % 2 == 0 && second == 0
}

/// The second of the day, in UTC, of a timestamp in milliseconds since the
/// Unix epoch.
pub open spec fn second_of_day(timestamp_ms: int) -> int {
    (timestamp_ms / 1000) % 86_400
}

/// A number under one hundred as two digits.
pub open spec fn two_digits(n: nat) -> Seq<char>
    recommends
        n < 100,
{
    seq![digit_char(n / 10), digit_char(n % 10)]
}

/// The time of day as `HH:MM:SS`.
pub open spec fn clock_text(second_of_day: nat) -> Seq<char>
    recommends
        second_of_day < 86_400,
{
    two_digits(second_of_day / 3600) + seq![':'] + two_digits((second_of_day % 3600) / 60) + seq![
        ':',
    ] + two_digits(second_of_day % 60)
}

/// The first day that the calendar holds, counted from 1 January 1970:
/// 1 January of the year -262143.
pub const FIRST_CALENDAR_DAY: i64 = -96_465_292;

/// The last day that the calendar holds, counted from 1 January 1970:
/// 31 December of the year 262142.
pub const LAST_CALENDAR_DAY: i64 = 95_026_236;

/// The UTC day of a timestamp in milliseconds, counted from 1 January 1970.
pub open spec fn epoch_day(timestamp_ms: int) -> int {
    timestamp_ms / 86_400_000
}

/// Whether the instant falls on a day that the calendar holds.
pub open spec fn in_calendar(timestamp_ms: int) -> bool {
    FIRST_CALENDAR_DAY <= epoch_day(timestamp_ms) <= LAST_CALENDAR_DAY
}

/// The label of the time axis at `timestamp_ms`: the UTC time of day for an
/// instant that the calendar holds, and no text for any other.
pub open spec fn time_label_text(timestamp_ms: int) -> Seq<char> {
    if in_calendar(timestamp_ms) {
        clock_text(second_of_day(timestamp_ms) as nat)
    } else {
        Seq::<char>::empty()
    }
}

/// `chrono::DateTime::format` with the pattern `%H:%M:%S`, on the UTC
/// instant that `chrono::DateTime::from_timestamp_millis` makes of
/// `timestamp_ms`.
///
/// Two things are claimed of chrono. `from_timestamp_millis` gives an
/// instant exactly for the days from `NaiveDate::MIN` to `NaiveDate::MAX`,
/// which are the years -262143 to 262142. And the pattern renders the UTC
/// time of day of that instant as two-digit hours, minutes and seconds with
/// colons between them.
#[verifier::external_body]
fn utc_clock(timestamp_ms: i64) -> (text: Option<String>)
    ensures
        text is Some <==> in_calendar(timestamp_ms as int),
        text matches Some(t) ==> t@ == clock_text(second_of_day(timestamp_ms as int) as nat),
{
    match DateTime::from_timestamp_millis(timestamp_ms) {
        Some(moment) => Some(moment.format("%H:%M:%S").to_string()),
        None => None,
    }
}

/// The label for a clock text, and no label where there is no text.
pub fn label_or_blank(text: Option<String>) -> (label: String)
    ensures
        label@ == match text {
            Some(t) => t@,
            None => Seq::<char>::empty(),
        },
{
    match text {
        Some(t) => t,
        None => String::new(),
    }
}

/// The label of the time axis of the energy-rate chart at `timestamp_ms`:
/// the UTC time of day as `HH:MM:SS`, or no text for an instant beyond
/// what the calendar covers.
pub fn time_label(timestamp_ms: i64) -> (label: String)
    ensures
        label@ == time_label_text(timestamp_ms as int),
{
    label_or_blank(utc_clock(timestamp_ms))
}

} // verus!
