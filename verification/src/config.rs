//! User-configured brightness thresholds.

use vstd::prelude::*;

verus! {

/// Brightness values for each power scenario, loaded once at daemon start
/// and read-only afterwards. The values are raw backlight levels; whether a
/// level is accepted is a property of the backlight device, not enforced
/// here.
#[derive(Clone, Copy, PartialEq, Eq, Structural, Debug)]
pub struct Config {
    pub full: u32,
    pub low: u32,
    pub low_perc: u32,
    pub charging: u32,
    pub discharging: u32,
    pub unknown: u32,
    pub ac_in: u32,
}

impl Default for Config {
    /// The built-in configuration used whenever no valid configuration
    /// file is available, so the daemon can always start.
    fn default() -> (c: Config)
        ensures
            c == (Config {
                full: 225,
                low: 100,
                low_perc: 25,
                charging: 255,
                discharging: 155,
                unknown: 155,
                ac_in: 225,
            }),
    {
        Config {
            full: 225,
            low: 100,
            low_perc: 25,
            charging: 255,
            discharging: 155,
            unknown: 155,
            ac_in: 225,
        }
    }
}

} // verus!
