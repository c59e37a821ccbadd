//! Device telemetry: what a power-supply device reports, and the normalized
//! reading that the rest of the system works with.
//!
//! Physical quantities are integers counting thousandths of their unit.

use std::time::Duration;
use vstd::prelude::*;
use vstd::string::StringExecFns;

verus! {

/// What a device is doing with its charge.
#[derive(Clone, Copy, Debug, PartialEq, Eq, Structural)]
pub enum BatteryState {
    Unknown,
    Charging,
    Discharging,
    Empty,
    Full,
}

/// The cell chemistry of a device.
#[derive(Clone, Copy, Debug, PartialEq, Eq, Structural)]
pub enum Technology {
    Unknown,
    LithiumIon,
    LeadAcid,
    LithiumPolymer,
    NickelMetalHydride,
    NickelCadmium,
    NickelZinc,
    LithiumIronPhosphate,
    RechargeableAlkalineManganese,
}

/// The name under which a chemistry is shown.
pub open spec fn technology_text(technology: Technology) -> Seq<char> {
    match technology {
        Technology::Unknown => "Unknown"@,
        Technology::LithiumIon => "LithiumIon"@,
        Technology::LeadAcid => "LeadAcid"@,
        Technology::LithiumPolymer => "LithiumPolymer"@,
        Technology::NickelMetalHydride => "NickelMetalHydride"@,
        Technology::NickelCadmium => "NickelCadmium"@,
        Technology::NickelZinc => "NickelZinc"@,
        Technology::LithiumIronPhosphate => "LithiumIronPhosphate"@,
        Technology::RechargeableAlkalineManganese => "RechargeableAlkalineManganese"@,
    }
}

/// The name under which a chemistry is shown.
pub fn technology_name(technology: Technology) -> (name: String)
    ensures
        name@ == technology_text(technology),
{
    let text = match technology {
        Technology::Unknown => "Unknown",
        Technology::LithiumIon => "LithiumIon",
        Technology::LeadAcid => "LeadAcid",
        Technology::LithiumPolymer => "LithiumPolymer",
        Technology::NickelMetalHydride => "NickelMetalHydride",
        Technology::NickelCadmium => "NickelCadmium",
        Technology::NickelZinc => "NickelZinc",
        Technology::LithiumIronPhosphate => "LithiumIronPhosphate",
        Technology::RechargeableAlkalineManganese => "RechargeableAlkalineManganese",
    };
    String::from_str(text)
}

/// The instantaneous values of one device, as its handle exposes them.
/// A field is `None` exactly when the device does not report it.
#[derive(Clone, Debug)]
pub struct DeviceReading {
    pub vendor: Option<String>,
    pub model: Option<String>,
    pub technology: Technology,
    pub state: BatteryState,
    /// Thousandths of a volt.
    pub voltage_mv: i64,
    /// Charge as thousandths of the full charge, 1000 when full.
    pub state_of_charge_permille: u32,
    /// Thousandths of a watt-hour.
    pub energy_mwh: i64,
    pub energy_full_mwh: i64,
    pub energy_full_design_mwh: i64,
    /// Thousandths of a watt; the sign is the device's own.
    pub energy_rate_mw: i64,
    pub time_to_empty: Option<Duration>,
    pub time_to_full: Option<Duration>,
    pub cycle_count: Option<u32>,
    /// Thousandths of a degree.
    pub temperature_milli: Option<i64>,
}

/// One device's telemetry at a sampling instant, ready for display.
#[derive(Clone, Debug)]
pub struct BatteryInfo {
    pub name: String,
    pub state: BatteryState,
    pub technology: String,
    /// Thousandths of a volt.
    pub voltage_mv: i64,
    /// Thousandths of a percent: 100 000 when full.
    pub percentage_milli: u64,
    /// Thousandths of a watt-hour.
    pub energy_mwh: i64,
    pub energy_full_mwh: i64,
    pub energy_full_design_mwh: i64,
    /// Thousandths of a watt.
    pub energy_rate_mw: i64,
    pub time_to_empty: Option<Duration>,
    pub time_to_full: Option<Duration>,
    pub cycle_count: Option<u32>,
    /// Thousandths of a degree.
    pub temperature_milli: Option<i64>,
    pub model: String,
}

/// The text shown for a vendor or model that the device does not report.
pub open spec fn text_or_unknown(text: Option<String>) -> Seq<char> {
    match text {
        Some(t) => t@,
        None => "Unknown"@,
    }
}

/// `info` is the normalized form of `reading`: the name is built from the
/// vendor, the charge becomes a percentage, and every other field is handed
/// on as it is, an absent one staying absent.
pub open spec fn normalizes(reading: DeviceReading, info: BatteryInfo) -> bool {
    &&& info.name@ == "Battery "@ + text_or_unknown(reading.vendor)
    &&& info.model@ == text_or_unknown(reading.model)
    &&& info.technology@ == technology_text(reading.technology)
    &&& info.state == reading.state
    &&& info.voltage_mv == reading.voltage_mv
    &&& info.percentage_milli == reading.state_of_charge_permille * 100
    &&& info.energy_mwh == reading.energy_mwh
    &&& info.energy_full_mwh == reading.energy_full_mwh
    &&& info.energy_full_design_mwh == reading.energy_full_design_mwh
    &&& info.energy_rate_mw == reading.energy_rate_mw
    &&& info.time_to_empty == reading.time_to_empty
    &&& info.time_to_full == reading.time_to_full
    &&& info.cycle_count == reading.cycle_count
    &&& info.temperature_milli == reading.temperature_milli
}

fn owned_or_unknown(text: &Option<String>) -> (owned: String)
    ensures
        owned@ == text_or_unknown(*text),
{
    match text {
        Some(t) => t.clone(),
        None => String::from_str("Unknown"),
    }
}

impl BatteryInfo {
    /// Normalizes one device reading.
    pub fn from_battery(battery: &DeviceReading) -> (info: BatteryInfo)
        ensures
            normalizes(*battery, info),
            battery.state_of_charge_permille <= 1000 ==> info.percentage_milli <= 100_000,
    {
        let vendor = owned_or_unknown(&battery.vendor);
        let mut name = String::from_str("Battery ");
        name.append(vendor.as_str());
        BatteryInfo {
            name,
            state: battery.state,
            technology: technology_name(battery.technology),
            voltage_mv: battery.voltage_mv,
            percentage_milli: (battery.state_of_charge_permille as u64) * 100,
            energy_mwh: battery.energy_mwh,
            energy_full_mwh: battery.energy_full_mwh,
            energy_full_design_mwh: battery.energy_full_design_mwh,
            energy_rate_mw: battery.energy_rate_mw,
            time_to_empty: battery.time_to_empty,
            time_to_full: battery.time_to_full,
            cycle_count: battery.cycle_count,
            temperature_milli: battery.temperature_milli,
            model: owned_or_unknown(&battery.model),
        }
    }
}

} // verus!
