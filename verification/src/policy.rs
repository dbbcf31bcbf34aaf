//! The brightness policy: a total function from the current power snapshot
//! and the configured thresholds to a backlight level.

use vstd::prelude::*;

use crate::power::BatteryInfo;
use crate::power::BatteryState;

verus! {

/// Brightness applied whenever the battery reports itself empty,
/// independent of the configuration, to guarantee a visible screen at
/// critical charge.
pub const EMPTY_GAMMA: u32 = 10;

/// `BatteryInfo::soc` counts in hundredths of a percent, so a threshold
/// given as a whole percentage is scaled by this factor before comparison.
pub const SOC_UNITS_PER_PERCENT: u32 = 100;

/// The low/discharging sub-rule: the configured `low` value when the
/// charge is at or below the configured threshold percentage, the
/// `discharging` value otherwise. A charge exactly at the threshold
/// counts as low.
pub open spec fn spec_low_gamma_or_charging(info: BatteryInfo) -> u32 {
    if info.soc <= info.gamma_values.low_perc * SOC_UNITS_PER_PERCENT {
        info.gamma_values.low
    } else {
        info.gamma_values.discharging
    }
}

/// The policy table: what brightness the current snapshot of `info` calls
/// for. Full and Charging map straight to their configured values; Empty
/// maps to the fixed floor; Unknown while plugged in is treated like
/// charging; Unknown while unplugged and Discharging in any case fall to
/// the low/discharging sub-rule.
pub open spec fn spec_calc_new_brightness(info: BatteryInfo) -> u32 {
    match info.new_status {
        BatteryState::Full => info.gamma_values.full,
        BatteryState::Charging => info.gamma_values.charging,
        BatteryState::Discharging => spec_low_gamma_or_charging(info),
        BatteryState::Empty => EMPTY_GAMMA,
        BatteryState::Unknown => if info.new_ac_status == '1' {
            info.gamma_values.ac_in
        } else {
            spec_low_gamma_or_charging(info)
        },
    }
}

/// Picks between the `low` and `discharging` values by comparing the
/// charge level against the configured percentage threshold (inclusive).
pub fn low_gamma_or_charging(info: &BatteryInfo) -> (gamma: u32)
    ensures
        gamma == spec_low_gamma_or_charging(*info),
{
    let config = &info.gamma_values;
    if (info.soc as u64) <= (config.low_perc as u64) * 100u64 {
        return config.low;
    }
    config.discharging
}

/// Computes the brightness the current snapshot calls for, following the
/// policy table. Total over every status and AC flag; never fails.
pub fn calc_new_brightness(info: &BatteryInfo) -> (gamma: u32)
    ensures
        gamma == spec_calc_new_brightness(*info),
{
    let config = &info.gamma_values;
    let state = info.new_status;
    let plugged = info.new_ac_status == '1';

    match (state, plugged) {
        (BatteryState::Full, false) => config.full,
        (BatteryState::Full, true) => config.full,
        (BatteryState::Charging, _) => config.charging,
        (BatteryState::Discharging, _) => low_gamma_or_charging(info),
        (BatteryState::Empty, _) => EMPTY_GAMMA,
        (BatteryState::Unknown, true) => config.ac_in,
        (BatteryState::Unknown, false) => low_gamma_or_charging(info),
    }
}

/// A full battery always maps to the configured `full` value, whatever the
/// AC flag or charge level.
pub proof fn lemma_policy_full(info: BatteryInfo)
    requires
        info.new_status == BatteryState::Full,
    ensures
        spec_calc_new_brightness(info) == info.gamma_values.full,
{
}

/// A discharging battery maps to `low` when the charge is at or below the
/// threshold (inclusive at the boundary) and to `discharging` above it,
/// whatever the AC flag.
pub proof fn lemma_policy_discharging(info: BatteryInfo)
    requires
        info.new_status == BatteryState::Discharging,
    ensures
        info.soc <= info.gamma_values.low_perc * SOC_UNITS_PER_PERCENT
            ==> spec_calc_new_brightness(info) == info.gamma_values.low,
        info.soc > info.gamma_values.low_perc * SOC_UNITS_PER_PERCENT
            ==> spec_calc_new_brightness(info) == info.gamma_values.discharging,
{
}

/// An unknown status while plugged in maps to `ac_in`; unplugged, it falls
/// through to the same low/discharging sub-rule a discharging battery uses.
pub proof fn lemma_policy_unknown(info: BatteryInfo)
    requires
        info.new_status == BatteryState::Unknown,
    ensures
        info.new_ac_status == '1' ==> spec_calc_new_brightness(info) == info.gamma_values.ac_in,
        info.new_ac_status != '1' ==> spec_calc_new_brightness(info) == spec_low_gamma_or_charging(
            info,
        ),
{
}

/// An empty battery always maps to the fixed floor value, whatever the
/// configuration holds.
pub proof fn lemma_policy_empty(info: BatteryInfo)
    requires
        info.new_status == BatteryState::Empty,
    ensures
        spec_calc_new_brightness(info) == EMPTY_GAMMA,
{
}

} // verus!
