//! The per-channel comparison, the tally of available upgrades and the final
//! action with its exit code.
//!
//! Images in a preinstalled directory do not stop the check: the run reports
//! the tally as its exit code and leaves the upgrade to the user, as it does
//! when the user opted out. Only otherwise is the upgrade command run.
use vstd::prelude::*;

use crate::datetime::UpdateDatetime;

verus! {

/// How one image channel (system or vendor) stands against its feed.
#[derive(Debug, Clone, Copy, PartialEq, Eq, Structural)]
pub enum ChannelStatus {
    /// The feed announces a strictly newer image.
    UpgradeAvailable { remote: UpdateDatetime, local: UpdateDatetime },
    /// The installed image is as new as the feed's, or newer.
    UpToDate { local: UpdateDatetime },
}

/// The status of a channel whose installed image dates from `local` and
/// whose feed announces `remote`.
pub open spec fn channel_status(remote: UpdateDatetime, local: UpdateDatetime) -> ChannelStatus {
    if remote.epoch_spec() > local.epoch_spec() {
        ChannelStatus::UpgradeAvailable { remote, local }
    } else {
        ChannelStatus::UpToDate { local }
    }
}

/// Compares a channel's installed timestamp with the one its feed announces.
pub fn check_channel(remote: UpdateDatetime, local: UpdateDatetime) -> (r: ChannelStatus)
    ensures
        r == channel_status(remote, local),
        r is UpgradeAvailable <==> remote.epoch_spec() > local.epoch_spec(),
{
    if remote.is_newer_than(&local) {
        ChannelStatus::UpgradeAvailable { remote, local }
    } else {
        ChannelStatus::UpToDate { local }
    }
}

/// One for a channel with an upgrade, zero otherwise.
pub open spec fn upgrade_count(s: ChannelStatus) -> int {
    if s is UpgradeAvailable {
        1
    } else {
        0
    }
}

/// The number of channels, of the two, with an upgrade available.
pub fn count_upgrades(system: &ChannelStatus, vendor: &ChannelStatus) -> (r: u8)
    ensures
        r == upgrade_count(*system) + upgrade_count(*vendor),
{
    let mut upgrades: u8 = 0;
    if let ChannelStatus::UpgradeAvailable { .. } = system {
        upgrades = upgrades + 1;
    }
    if let ChannelStatus::UpgradeAvailable { .. } = vendor {
        upgrades = upgrades + 1;
    }
    upgrades
}

/// What the run ends with.
#[derive(Debug, Clone, Copy, PartialEq, Eq, Structural)]
pub enum Action {
    /// Nothing to upgrade.
    NoUpgrades,
    /// Upgrades exist, but the images are preinstalled and must be upgraded
    /// by hand.
    ManualUpgrade { upgrades: u8 },
    /// Upgrades exist, but the user asked not to run the upgrade.
    UpgradeSuppressed { upgrades: u8 },
    /// Run `sudo waydroid upgrade` and exit with its status.
    RunUpgrade,
}

/// The action for `upgrades` channels with an upgrade, given whether the
/// images are preinstalled and whether the user opted out of upgrading.
pub open spec fn action_for(upgrades: u8, preinstalled: bool, opt_out: bool) -> Action {
    if upgrades == 0 {
        Action::NoUpgrades
    } else if preinstalled {
        Action::ManualUpgrade { upgrades }
    } else if opt_out {
        Action::UpgradeSuppressed { upgrades }
    } else {
        Action::RunUpgrade
    }
}

/// Chooses the action that ends the run.
pub fn decide_action(upgrades: u8, preinstalled: bool, opt_out: bool) -> (r: Action)
    ensures
        r == action_for(upgrades, preinstalled, opt_out),
{
    if upgrades == 0 {
        Action::NoUpgrades
    } else if preinstalled {
        Action::ManualUpgrade { upgrades }
    } else if opt_out {
        Action::UpgradeSuppressed { upgrades }
    } else {
        Action::RunUpgrade
    }
}

/// The exit code that an action gives by itself; `None` for an upgrade run,
/// whose code comes from the upgrade command.
pub open spec fn action_exit_code(a: Action) -> Option<u8> {
    match a {
        Action::NoUpgrades => Some(0u8),
        Action::ManualUpgrade { upgrades } => Some(upgrades),
        Action::UpgradeSuppressed { upgrades } => Some(upgrades),
        Action::RunUpgrade => None,
    }
}

impl Action {
    /// The exit code of the run, unless it comes from the upgrade command.
    pub fn exit_code(&self) -> (r: Option<u8>)
        ensures
            r == action_exit_code(*self),
    {
        match self {
            Action::NoUpgrades => Some(0),
            Action::ManualUpgrade { upgrades } => Some(*upgrades),
            Action::UpgradeSuppressed { upgrades } => Some(*upgrades),
            Action::RunUpgrade => None,
        }
    }
}

/// The exit code forwarded from the upgrade command: its own code, cut to
/// its low byte, or 1 where it gave none (when a signal ended it).
pub open spec fn forwarded_exit_code(code: Option<i32>) -> u8 {
    match code {
        Some(c) => c as u8,
        None => 1u8,
    }
}

/// The exit code of the run after the upgrade command ended with `code`.
pub fn upgrade_exit_code(code: Option<i32>) -> (r: u8)
    ensures
        r == forwarded_exit_code(code),
{
    match code {
        Some(c) => {
            #[verifier::truncate]
            let r = c as u8;
            r
        },
        None => 1,
    }
}

/// The outcome of comparing both channels.
#[derive(Debug, Clone, Copy, PartialEq, Eq, Structural)]
pub struct Plan {
    pub system: ChannelStatus,
    pub vendor: ChannelStatus,
    pub upgrades: u8,
    pub action: Action,
}

/// The outcome for the given timestamps and guards.
pub open spec fn plan_for(
    system_remote: UpdateDatetime,
    system_local: UpdateDatetime,
    vendor_remote: UpdateDatetime,
    vendor_local: UpdateDatetime,
    preinstalled: bool,
    opt_out: bool,
) -> Plan {
    let system = channel_status(system_remote, system_local);
    let vendor = channel_status(vendor_remote, vendor_local);
    let upgrades = (upgrade_count(system) + upgrade_count(vendor)) as u8;
    Plan { system, vendor, upgrades, action: action_for(upgrades, preinstalled, opt_out) }
}

/// Compares both channels and chooses the action.
pub fn plan(
    system_remote: UpdateDatetime,
    system_local: UpdateDatetime,
    vendor_remote: UpdateDatetime,
    vendor_local: UpdateDatetime,
    preinstalled: bool,
    opt_out: bool,
) -> (r: Plan)
    ensures
        r == plan_for(
            system_remote,
            system_local,
            vendor_remote,
            vendor_local,
            preinstalled,
            opt_out,
        ),
        r.upgrades as int == (if system_remote.epoch_spec() > system_local.epoch_spec() {
            1int
        } else {
            0int
        }) + (if vendor_remote.epoch_spec() > vendor_local.epoch_spec() {
            1int
        } else {
            0int
        }),
{
    let system = check_channel(system_remote, system_local);
    let vendor = check_channel(vendor_remote, vendor_local);
    let upgrades = count_upgrades(&system, &vendor);
    let action = decide_action(upgrades, preinstalled, opt_out);
    Plan { system, vendor, upgrades, action }
}

/// A channel adds to the tally exactly when its feed's timestamp is strictly
/// later than the installed one; never when it is equal or earlier.
pub proof fn tally_counts_strictly_newer(remote: UpdateDatetime, local: UpdateDatetime)
    ensures
        upgrade_count(channel_status(remote, local)) == 1 <==> remote.epoch_spec()
            > local.epoch_spec(),
        upgrade_count(channel_status(remote, local)) == 0 <==> remote.epoch_spec()
            <= local.epoch_spec(),
{
}

/// Two runs on unchanged local and remote timestamps, with unchanged guards,
/// reach the same tally, the same action and the same exit code.
pub proof fn plan_is_repeatable(
    system_remote: UpdateDatetime,
    system_local: UpdateDatetime,
    vendor_remote: UpdateDatetime,
    vendor_local: UpdateDatetime,
    preinstalled: bool,
    opt_out: bool,
    first: Plan,
    second: Plan,
)
    requires
        first == plan_for(
            system_remote,
            system_local,
            vendor_remote,
            vendor_local,
            preinstalled,
            opt_out,
        ),
        second == plan_for(
            system_remote,
            system_local,
            vendor_remote,
            vendor_local,
            preinstalled,
            opt_out,
        ),
    ensures
        first.upgrades == second.upgrades,
        first.action == second.action,
        action_exit_code(first.action) == action_exit_code(second.action),
{
}

/// With preinstalled images the upgrade command is never run, whatever the
/// tally.
pub proof fn preinstalled_never_runs_upgrade(upgrades: u8, opt_out: bool)
    ensures
        !(action_for(upgrades, true, opt_out) is RunUpgrade),
        action_exit_code(action_for(upgrades, true, opt_out)) == Some(upgrades),
{
}

/// With the opt-out flag set and some upgrade available, the exit code is the
/// tally and the upgrade command is not run.
pub proof fn opt_out_exits_with_tally(upgrades: u8, preinstalled: bool)
    requires
        upgrades > 0,
    ensures
        !(action_for(upgrades, preinstalled, true) is RunUpgrade),
        action_exit_code(action_for(upgrades, preinstalled, true)) == Some(upgrades),
{
}

} // verus!
