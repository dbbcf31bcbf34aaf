//! The per-tick control step: decide whether a transition happened, ask the
//! backlight to apply the policy's value, and commit the snapshot.

use vstd::prelude::*;

use crate::policy::calc_new_brightness;
use crate::policy::spec_calc_new_brightness;
use crate::power::advance;
use crate::power::status_changed;
use crate::power::update;
use crate::power::BatteryInfo;
use crate::power::BatteryState;

verus! {

/// Why applying a brightness value to a display failed. Such a failure is
/// transient: it is reported and discarded, never retried within the same
/// tick, and never touches the transition-tracking state.
#[derive(Clone, Debug, PartialEq, Eq)]
pub enum ApplyError {
    /// The value lies outside what the device accepts.
    InvalidBrightnessLevel { given: u32, max: u32 },
    /// The device could not be driven; the message says why.
    Backend { message: String },
}

/// One display whose brightness the daemon drives. The daemon owns the
/// decision logic; implementors own the hardware call, which may fail.
pub trait Backlight {
    fn change_gamma(&self, gamma: u32) -> Result<(), ApplyError>;
}

/// Evaluates the policy on the current snapshot and asks the device to
/// apply it. On success the applied value is returned; what the device
/// reports is out of the daemon's hands, so nothing is promised of the
/// error case.
pub fn perform_screen_change<T: Backlight>(device: &T, info: &BatteryInfo) -> (r: Result<
    u32,
    ApplyError,
>)
    ensures
        r matches Ok(gamma) ==> gamma == spec_calc_new_brightness(*info),
{
    let gamma: u32 = calc_new_brightness(info);

    match device.change_gamma(gamma) {
        Ok(_) => Ok(gamma),
        Err(e) => Err(e),
    }
}

/// Attempts a brightness change and reduces the outcome to an exit code:
/// 0 when the device accepted the value, 1 when it refused.
pub fn try_change<T: Backlight>(device: &T, info: &BatteryInfo) -> (code: u8)
    ensures
        code == 0 || code == 1,
{
    match perform_screen_change(device, info) {
        Ok(_) => 0,
        Err(_) => 1,
    }
}

/// One iteration of the steady-state loop, given a freshly polled sample
/// (status, AC flag and charge level): record the sample, attempt a
/// brightness change exactly when the sample differs from the previous one
/// in status or AC flag, and commit the sample unconditionally, so a
/// failing device can neither suppress future transitions nor re-trigger
/// on identical samples.
///
/// Returns `None` when no transition was detected, and `Some` of the apply
/// outcome when one was; an applied value is the policy's value for the
/// tick's own sample, the fresh charge level included.
pub fn run_tick<T: Backlight>(
    device: &T,
    info: &mut BatteryInfo,
    new_status: BatteryState,
    new_ac_status: char,
    soc: u32,
) -> (applied: Option<Result<u32, ApplyError>>)
    ensures
        final(info).old_status == new_status,
        final(info).old_ac_status == new_ac_status,
        final(info).new_status == new_status,
        final(info).new_ac_status == new_ac_status,
        final(info).soc == soc,
        final(info).gamma_values == old(info).gamma_values,
        applied is Some <==> (old(info).old_status != new_status || old(
            info,
        ).old_ac_status != new_ac_status),
        applied matches Some(Ok(gamma)) ==> gamma == spec_calc_new_brightness(*final(info)),
{
    advance(info, new_status, new_ac_status, soc);

    let applied = if status_changed(info) {
        Some(perform_screen_change(device, info))
    } else {
        None
    };

    update(info);
    applied
}

} // verus!
