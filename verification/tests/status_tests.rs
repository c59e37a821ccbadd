use battgui::reading::{BatteryInfo, BatteryState, DeviceReading, Technology};
use battgui::status::{status_text, status_tone, time_remaining, StatusTone, LOW_CHARGE_MILLI};
use std::time::Duration;

fn info(
    state: BatteryState,
    permille: u32,
    to_empty: Option<u64>,
    to_full: Option<u64>,
) -> BatteryInfo {
    BatteryInfo::from_battery(&DeviceReading {
        vendor: None,
        model: None,
        technology: Technology::Unknown,
        state,
        voltage_mv: 0,
        state_of_charge_permille: permille,
        energy_mwh: 0,
        energy_full_mwh: 0,
        energy_full_design_mwh: 0,
        energy_rate_mw: 0,
        time_to_empty: to_empty.map(Duration::from_secs),
        time_to_full: to_full.map(Duration::from_secs),
        cycle_count: None,
        temperature_milli: None,
    })
}

#[test]
fn time_remaining_follows_the_state() {
    let both = (Some(7_260), Some(1_800));
    assert_eq!(time_remaining(&info(BatteryState::Discharging, 500, both.0, both.1)), "2h 1m");
    assert_eq!(time_remaining(&info(BatteryState::Charging, 500, both.0, both.1)), "30m");
    assert_eq!(time_remaining(&info(BatteryState::Full, 500, both.0, both.1)), "N/A");
    assert_eq!(time_remaining(&info(BatteryState::Empty, 500, both.0, both.1)), "N/A");
    assert_eq!(time_remaining(&info(BatteryState::Unknown, 500, both.0, both.1)), "N/A");
}

#[test]
fn time_remaining_is_unknown_where_the_device_reports_none() {
    assert_eq!(time_remaining(&info(BatteryState::Discharging, 500, None, Some(60))), "Unknown");
    assert_eq!(time_remaining(&info(BatteryState::Charging, 500, Some(60), None)), "Unknown");
}

#[test]
fn status_text_for_each_state() {
    assert_eq!(
        status_text(&info(BatteryState::Charging, 500, None, Some(4_500))),
        "Charging - 1h 15m until full"
    );
    assert_eq!(
        status_text(&info(BatteryState::Charging, 500, None, None)),
        "Charging - Unknown until full"
    );
    assert_eq!(
        status_text(&info(BatteryState::Discharging, 500, Some(600), None)),
        "Discharging - 10m remaining"
    );
    assert_eq!(status_text(&info(BatteryState::Full, 1000, None, None)), "Fully Charged");
    assert_eq!(status_text(&info(BatteryState::Unknown, 0, None, None)), "Unknown");
    assert_eq!(status_text(&info(BatteryState::Empty, 0, None, None)), "Empty");
}

#[test]
fn status_tone_for_each_state() {
    assert_eq!(LOW_CHARGE_MILLI, 20_000);
    assert_eq!(status_tone(&info(BatteryState::Charging, 10, None, None)), StatusTone::Charging);
    assert_eq!(status_tone(&info(BatteryState::Discharging, 199, None, None)), StatusTone::Low);
    assert_eq!(
        status_tone(&info(BatteryState::Discharging, 200, None, None)),
        StatusTone::Discharging
    );
    assert_eq!(status_tone(&info(BatteryState::Full, 1000, None, None)), StatusTone::Full);
    assert_eq!(status_tone(&info(BatteryState::Unknown, 10, None, None)), StatusTone::Neutral);
    assert_eq!(status_tone(&info(BatteryState::Empty, 0, None, None)), StatusTone::Neutral);
}
