//! What the panel says about one device: how long it will last, its status
//! line, and the tone in which the line is shown.

use crate::reading::{BatteryInfo, BatteryState};
use crate::text::{duration_secs, duration_text, format_duration};
use std::time::Duration;
use vstd::prelude::*;
use vstd::string::StringExecFns;

verus! {

/// Below this charge, in thousandths of a percent, a discharging device is
/// shown as running low.
pub const LOW_CHARGE_MILLI: u64 = 20_000;

/// The tone of a status line; the presentation picks a colour for each.
#[derive(Clone, Copy, Debug, PartialEq, Eq, Structural)]
pub enum StatusTone {
    Charging,
    Discharging,
    Low,
    Full,
    Neutral,
}

/// A duration as text, or `"Unknown"` where the device reports none.
pub open spec fn duration_or_unknown(duration: Option<Duration>) -> Seq<char> {
    match duration {
        Some(d) => duration_text(duration_secs(d) as nat),
        None => "Unknown"@,
    }
}

/// The time left until empty while discharging, until full while charging,
/// and `"N/A"` in every other state.
pub open spec fn time_remaining_text(info: BatteryInfo) -> Seq<char> {
    match info.state {
        BatteryState::Discharging => duration_or_unknown(info.time_to_empty),
        BatteryState::Charging => duration_or_unknown(info.time_to_full),
        _ => "N/A"@,
    }
}

/// The status line of a device.
pub open spec fn status_line(info: BatteryInfo) -> Seq<char> {
    match info.state {
        BatteryState::Charging => "Charging - "@ + time_remaining_text(info) + " until full"@,
        BatteryState::Discharging => "Discharging - "@ + time_remaining_text(info)
            + " remaining"@,
        BatteryState::Full => "Fully Charged"@,
        BatteryState::Unknown => "Unknown"@,
        BatteryState::Empty => "Empty"@,
    }
}

/// The tone of the status line: a discharging device is `Low` under
/// `LOW_CHARGE_MILLI`, and states other than charging, discharging and full
/// are `Neutral`.
pub open spec fn tone_of(info: BatteryInfo) -> StatusTone {
    match info.state {
        BatteryState::Charging => StatusTone::Charging,
        BatteryState::Discharging => if info.percentage_milli < LOW_CHARGE_MILLI {
            StatusTone::Low
        } else {
            StatusTone::Discharging
        },
        BatteryState::Full => StatusTone::Full,
        _ => StatusTone::Neutral,
    }
}

fn format_or_unknown(duration: Option<Duration>) -> (text: String)
    ensures
        text@ == duration_or_unknown(duration),
{
    match duration {
        Some(d) => format_duration(d),
        None => String::from_str("Unknown"),
    }
}

/// How long the device will last, or take to fill, as text.
pub fn time_remaining(info: &BatteryInfo) -> (text: String)
    ensures
        text@ == time_remaining_text(*info),
{
    match info.state {
        BatteryState::Discharging => format_or_unknown(info.time_to_empty),
        BatteryState::Charging => format_or_unknown(info.time_to_full),
        _ => String::from_str("N/A"),
    }
}

/// The status line of a device.
pub fn status_text(info: &BatteryInfo) -> (text: String)
    ensures
        text@ == status_line(*info),
{
    match info.state {
        BatteryState::Charging => {
            let mut text = String::from_str("Charging - ");
            text.append(time_remaining(info).as_str());
            text.append(" until full");
            text
        },
        BatteryState::Discharging => {
            let mut text = String::from_str("Discharging - ");
            text.append(time_remaining(info).as_str());
            text.append(" remaining");
            text
        },
        BatteryState::Full => String::from_str("Fully Charged"),
        BatteryState::Unknown => String::from_str("Unknown"),
        BatteryState::Empty => String::from_str("Empty"),
    }
}

/// The tone in which the status line is shown.
pub fn status_tone(info: &BatteryInfo) -> (tone: StatusTone)
    ensures
        tone == tone_of(*info),
{
    match info.state {
        BatteryState::Charging => StatusTone::Charging,
        BatteryState::Discharging => {
            if info.percentage_milli < LOW_CHARGE_MILLI {
                StatusTone::Low
            } else {
                StatusTone::Discharging
            }
        },
        BatteryState::Full => StatusTone::Full,
        _ => StatusTone::Neutral,
    }
}

} // verus!
