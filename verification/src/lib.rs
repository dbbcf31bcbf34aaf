//! Core logic of a display-brightness daemon for notebooks.
//!
//! The library holds the decision logic: a snapshot of the battery and
//! AC-adapter state, detection of transitions between consecutive
//! snapshots, and the policy that maps a snapshot to a brightness value
//! through user-configured thresholds. Reading the battery, reading the
//! AC indicator file, loading the configuration file and driving the
//! backlight are left to the caller, which hands the library plain
//! values and applies the values it returns.

pub mod config;
pub mod control;
pub mod policy;
pub mod power;

pub use config::Config;
pub use control::perform_screen_change;
pub use control::run_tick;
pub use control::try_change;
pub use control::ApplyError;
pub use control::Backlight;
pub use policy::calc_new_brightness;
pub use policy::low_gamma_or_charging;
pub use policy::EMPTY_GAMMA;
pub use power::advance;
pub use power::new_battery_info;
pub use power::status_changed;
pub use power::update;
pub use power::BatteryInfo;
pub use power::BatteryState;
