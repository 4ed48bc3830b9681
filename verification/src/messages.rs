//! The one-line message of each failure.

use vstd::prelude::*;
use vstd::string::StringExecFns;
use crate::effector::EffectorStep;
use crate::engine::ToggleError;
use crate::feature::Direction;
use crate::feature::MarkerKey;
use crate::feature::MarkerState;

verus! {

/// The name by which a kernel with a single marker is spoken of.
pub open spec fn spec_kernel_title(key: MarkerKey) -> Seq<char> {
    match key {
        MarkerKey::Liquorix => "Liquorix"@,
        MarkerKey::Libre => "Libre"@,
        _ => "mainline"@,
    }
}

/// The name by which a kernel with a single marker is spoken of.
fn kernel_title(key: MarkerKey) -> (title: &'static str)
    ensures
        title@ == spec_kernel_title(key),
{
    match key {
        MarkerKey::Liquorix => "Liquorix",
        MarkerKey::Libre => "Libre",
        _ => "mainline",
    }
}

/// What is said of a key that was already in the state asked for.
pub open spec fn spec_already_message(key: MarkerKey, state: MarkerState) -> Seq<char> {
    match (key, state) {
        (MarkerKey::Pacstall, MarkerState::Enabled) => "Pacstall is already enabled!"@,
        (MarkerKey::Pacstall, MarkerState::Disabled) => "Pacstall is already disabled!"@,
        (MarkerKey::Snapdpurge, MarkerState::Enabled) => "Snapdpurge is already enabled!"@,
        (MarkerKey::Snapdpurge, MarkerState::Disabled) => "Snapdpurge is already disabled!"@,
        (MarkerKey::Xanmod(variant), MarkerState::Enabled) => "The XanMod kernel variant: `"@
            + variant.spec_name()
            + "` is already enabled! Run \"rhino-update\" to install it."@,
        (MarkerKey::Xanmod(variant), MarkerState::Disabled) => "The XanMod kernel variant: `"@
            + variant.spec_name() + "` is already disabled!"@,
        (_, MarkerState::Enabled) => "The "@ + spec_kernel_title(key)
            + " kernel is already enabled! Run \"rhino-update\" to install it."@,
        (_, MarkerState::Disabled) => "The "@ + spec_kernel_title(key)
            + " kernel is already disabled!"@,
    }
}

/// What is said of a marker that could not be created or removed.
pub open spec fn spec_persistence_message(key: MarkerKey, direction: Direction) -> Seq<char> {
    match (key, direction) {
        (MarkerKey::Pacstall, Direction::Enable) => "Unable to create pacstall config!"@,
        (MarkerKey::Pacstall, Direction::Disable) => "Unable to remove pacstall config file!"@,
        (MarkerKey::Snapdpurge, Direction::Enable) => "Failed to create the snapdpurge config!"@,
        (MarkerKey::Snapdpurge, Direction::Disable) => "Unable to remove snapdpurge config file!"@,
        (_, Direction::Enable) => "Failed to create the "@ + key.spec_name() + " config file!"@,
        (_, Direction::Disable) => "Failed to remove the "@ + key.spec_name() + " config file!"@,
    }
}

/// What is said of an effector step that failed.
pub open spec fn spec_step_message(step: EffectorStep) -> Seq<char> {
    match step {
        EffectorStep::FetchInstallScript => "Failed to install Pacstall!"@,
        EffectorStep::FetchUninstallScript => "Failed to uninstall Pacstall!"@,
        EffectorStep::PurgeSnapd => "Failed to purge snapd!"@,
        EffectorStep::RemoveSnapCache => "Failed to remove snapd cache!"@,
        EffectorStep::RemoveSnapData => "Failed to remove snap directory!"@,
        EffectorStep::InstallFlatpak => "Failed to install flatpak!"@,
        EffectorStep::AddFlathub => "Failed to add flathub repository!"@,
        EffectorStep::InstallSnapd => "Unable to reinstall snapd!"@,
        EffectorStep::UnholdSnapd => "Unable to unhold snapd!"@,
    }
}

impl ToggleError {
    /// The message of the error: one line that names the feature or variant
    /// and the problem.
    pub open spec fn spec_message(self) -> Seq<char> {
        match self {
            ToggleError::AlreadyInState { key, state } => spec_already_message(key, state),
            ToggleError::Persistence { key, direction, fault } => spec_persistence_message(
                key,
                direction,
            ),
            ToggleError::Effector { key, step } => spec_step_message(step),
        }
    }

    /// The message of the error: one line that names the feature or variant
    /// and the problem.
    pub fn message(&self) -> (message: String)
        ensures
            message@ == self.spec_message(),
    {
        match *self {
            ToggleError::AlreadyInState { key, state } => already_message(key, state),
            ToggleError::Persistence { key, direction, fault } => persistence_message(
                key,
                direction,
            ),
            ToggleError::Effector { key, step } => String::from_str(step_message(step)),
        }
    }
}

/// The text `head`, `name`, `tail`, joined.
fn joined(head: &str, name: &str, tail: &str) -> (text: String)
    ensures
        text@ == head@ + name@ + tail@,
{
    let mut text = String::from_str(head);
    text.append(name);
    text.append(tail);
    text
}

/// What is said of a key that was already in the state asked for.
pub fn already_message(key: MarkerKey, state: MarkerState) -> (message: String)
    ensures
        message@ == spec_already_message(key, state),
{
    match (key, state) {
        (MarkerKey::Pacstall, MarkerState::Enabled) => String::from_str(
            "Pacstall is already enabled!",
        ),
        (MarkerKey::Pacstall, MarkerState::Disabled) => String::from_str(
            "Pacstall is already disabled!",
        ),
        (MarkerKey::Snapdpurge, MarkerState::Enabled) => String::from_str(
            "Snapdpurge is already enabled!",
        ),
        (MarkerKey::Snapdpurge, MarkerState::Disabled) => String::from_str(
            "Snapdpurge is already disabled!",
        ),
        (MarkerKey::Xanmod(variant), MarkerState::Enabled) => joined(
            "The XanMod kernel variant: `",
            variant.name(),
            "` is already enabled! Run \"rhino-update\" to install it.",
        ),
        (MarkerKey::Xanmod(variant), MarkerState::Disabled) => joined(
            "The XanMod kernel variant: `",
            variant.name(),
            "` is already disabled!",
        ),
        (_, MarkerState::Enabled) => joined(
            "The ",
            kernel_title(key),
            " kernel is already enabled! Run \"rhino-update\" to install it.",
        ),
        (_, MarkerState::Disabled) => joined(
            "The ",
            kernel_title(key),
            " kernel is already disabled!",
        ),
    }
}

/// What is said of a marker that could not be created or removed.
pub fn persistence_message(key: MarkerKey, direction: Direction) -> (message: String)
    ensures
        message@ == spec_persistence_message(key, direction),
{
    match (key, direction) {
        (MarkerKey::Pacstall, Direction::Enable) => String::from_str(
            "Unable to create pacstall config!",
        ),
        (MarkerKey::Pacstall, Direction::Disable) => String::from_str(
            "Unable to remove pacstall config file!",
        ),
        (MarkerKey::Snapdpurge, Direction::Enable) => String::from_str(
            "Failed to create the snapdpurge config!",
        ),
        (MarkerKey::Snapdpurge, Direction::Disable) => String::from_str(
            "Unable to remove snapdpurge config file!",
        ),
        (_, Direction::Enable) => joined("Failed to create the ", key.name(), " config file!"),
        (_, Direction::Disable) => joined("Failed to remove the ", key.name(), " config file!"),
    }
}

/// What is said of an effector step that failed.
pub fn step_message(step: EffectorStep) -> (message: &'static str)
    ensures
        message@ == spec_step_message(step),
{
    match step {
        EffectorStep::FetchInstallScript => "Failed to install Pacstall!",
        EffectorStep::FetchUninstallScript => "Failed to uninstall Pacstall!",
        EffectorStep::PurgeSnapd => "Failed to purge snapd!",
        EffectorStep::RemoveSnapCache => "Failed to remove snapd cache!",
        EffectorStep::RemoveSnapData => "Failed to remove snap directory!",
        EffectorStep::InstallFlatpak => "Failed to install flatpak!",
        EffectorStep::AddFlathub => "Failed to add flathub repository!",
        EffectorStep::InstallSnapd => "Unable to reinstall snapd!",
        EffectorStep::UnholdSnapd => "Unable to unhold snapd!",
    }
}

} // verus!
