//! Battery and AC-adapter snapshots, and the transition detection between
//! two consecutive snapshots.

use vstd::prelude::*;

use crate::config::Config;

verus! {

/// The discrete charging status a battery can report.
#[derive(Clone, Copy, PartialEq, Eq, Structural, Debug)]
pub enum BatteryState {
    Unknown,
    Charging,
    Discharging,
    Empty,
    Full,
}

/// A bundle of the last two observed power states and the configuration
/// the policy reads.
///
/// `soc` is the battery's state of charge in hundredths of a percent of a
/// full charge (10000 stands for a full battery). The AC-adapter flag is
/// kept as the raw character read from the platform's indicator file,
/// `'1'` meaning plugged in; transition detection compares the characters
/// as read.
#[derive(Debug)]
pub struct BatteryInfo {
    pub soc: u32,
    pub old_status: BatteryState,
    pub new_status: BatteryState,
    pub old_ac_status: char,
    pub new_ac_status: char,
    pub gamma_values: Box<Config>,
}

/// True when the two snapshots held by `info` differ in status or in the
/// AC-adapter flag. The charge level is deliberately not consulted, so a
/// battery that merely drains does not count as a transition.
pub open spec fn spec_transitioned(info: BatteryInfo) -> bool {
    info.old_status != info.new_status || info.old_ac_status != info.new_ac_status
}

/// Makes the initial bundle: both snapshots are the sentinel
/// "unknown status, unplugged" state, to be overwritten on the first poll.
pub fn new_battery_info(gamma_values: Config, soc: u32) -> (info: BatteryInfo)
    ensures
        info.soc == soc,
        info.old_status == BatteryState::Unknown,
        info.new_status == BatteryState::Unknown,
        info.old_ac_status == '0',
        info.new_ac_status == '0',
        *info.gamma_values == gamma_values,
{
    BatteryInfo {
        soc,
        old_status: BatteryState::Unknown,
        new_status: BatteryState::Unknown,
        old_ac_status: '0',
        new_ac_status: '0',
        gamma_values: Box::new(gamma_values),
    }
}

/// Records a freshly polled sample — status, AC flag and charge level —
/// as the current snapshot, leaving the previous snapshot untouched.
pub fn advance(info: &mut BatteryInfo, new_status: BatteryState, new_ac_status: char, soc: u32)
    ensures
        final(info).new_status == new_status,
        final(info).new_ac_status == new_ac_status,
        final(info).soc == soc,
        final(info).old_status == old(info).old_status,
        final(info).old_ac_status == old(info).old_ac_status,
        final(info).gamma_values == old(info).gamma_values,
{
    info.new_status = new_status;
    info.new_ac_status = new_ac_status;
    info.soc = soc;
}

/// Commits the current snapshot as the previous one, once a decision cycle
/// has completed. Called exactly once per loop iteration, whether or not a
/// brightness change was attempted, so consecutive identical samples never
/// re-trigger a change.
pub fn update(info: &mut BatteryInfo)
    ensures
        final(info).old_status == old(info).new_status,
        final(info).old_ac_status == old(info).new_ac_status,
        final(info).new_status == old(info).new_status,
        final(info).new_ac_status == old(info).new_ac_status,
        final(info).soc == old(info).soc,
        final(info).gamma_values == old(info).gamma_values,
{
    info.old_status = info.new_status;
    info.old_ac_status = info.new_ac_status;
}

/// Reports whether the battery status or the AC flag changed between the
/// previous and the current snapshot.
pub fn status_changed(status: &BatteryInfo) -> (r: bool)
    ensures
        r == spec_transitioned(*status),
{
    let old_status = status.old_status;
    let new_status = status.new_status;

    let old_ac_status = status.old_ac_status;
    let new_ac_status = status.new_ac_status;

    old_status != new_status || old_ac_status != new_ac_status
}

/// Two consecutive snapshots that agree on status and AC flag are never a
/// transition, whatever the charge level holds.
pub proof fn lemma_no_transition_when_same(info: BatteryInfo)
    requires
        info.old_status == info.new_status,
        info.old_ac_status == info.new_ac_status,
    ensures
        !spec_transitioned(info),
{
}

/// Transition detection ignores the charge level: two bundles that agree
/// on both snapshots' status and AC flag detect the same, whatever their
/// charge levels or configurations.
pub proof fn lemma_transition_ignores_charge(a: BatteryInfo, b: BatteryInfo)
    requires
        a.old_status == b.old_status,
        a.new_status == b.new_status,
        a.old_ac_status == b.old_ac_status,
        a.new_ac_status == b.new_ac_status,
    ensures
        spec_transitioned(a) == spec_transitioned(b),
{
}

/// A change in the AC flag alone, status held constant, is a transition.
pub proof fn lemma_transition_on_ac_change(info: BatteryInfo)
    requires
        info.old_status == info.new_status,
        info.old_ac_status != info.new_ac_status,
    ensures
        spec_transitioned(info),
{
}

} // verus!
