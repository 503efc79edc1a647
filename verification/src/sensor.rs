//! Integer sensor value types and battery status parsing.

use vstd::prelude::*;
use crate::text::{chars_eq_str, chars_of, trim, trim_chars};

verus! {

/// A fan speed in revolutions per minute.
#[derive(Debug, Clone, Copy, PartialEq, Eq, Structural)]
pub struct Rpm(pub u32);

/// Memory totals in bytes.
#[derive(Debug, Clone, Copy, PartialEq, Eq, Structural)]
pub struct MemoryUsage {
    pub total_bytes: u64,
    pub used_bytes: u64,
}

/// Which GPU a query targets: the machine has both an integrated and a
/// discrete one.
#[derive(Debug, Clone, Copy, PartialEq, Eq, Structural)]
pub enum GpuKind {
    Integrated,
    Discrete,
}

#[derive(Debug, Clone, Copy, PartialEq, Eq, Structural)]
pub enum BatteryStatus {
    Charging,
    Discharging,
    Full,
    NotCharging,
    Unknown,
}

/// The status a `POWER_SUPPLY_STATUS` value names, compared after trimming;
/// anything unrecognized is `Unknown`.
pub open spec fn battery_status_of(s: Seq<char>) -> BatteryStatus {
    let t = trim(s);
    if t == "Charging"@ {
        BatteryStatus::Charging
    } else if t == "Discharging"@ {
        BatteryStatus::Discharging
    } else if t == "Full"@ {
        BatteryStatus::Full
    } else if t == "Not charging"@ {
        BatteryStatus::NotCharging
    } else {
        BatteryStatus::Unknown
    }
}

impl BatteryStatus {
    /// Parses the `POWER_SUPPLY_STATUS` value from a battery `uevent` file.
    /// An unrecognized value is `Unknown` rather than an error, since a
    /// battery reporting some status is still evidence the battery is present.
    pub fn parse(status: &str) -> (r: BatteryStatus)
        ensures
            r == battery_status_of(status@),
    {
        let chars = chars_of(status);
        let t = trim_chars(chars.as_slice());
        if chars_eq_str(t.as_slice(), "Charging") {
            BatteryStatus::Charging
        } else if chars_eq_str(t.as_slice(), "Discharging") {
            BatteryStatus::Discharging
        } else if chars_eq_str(t.as_slice(), "Full") {
            BatteryStatus::Full
        } else if chars_eq_str(t.as_slice(), "Not charging") {
            BatteryStatus::NotCharging
        } else {
            BatteryStatus::Unknown
        }
    }
}

} // verus!
