//! The system effector: the ordered steps that realise a feature's
//! transition on the running system.
//!
//! The steps are data. Whoever drives the engine runs each step when asked
//! to and reports whether it succeeded.

use vstd::prelude::*;
use crate::feature::Direction;
use crate::feature::Feature;

verus! {

/// One step of a feature's side effects.
#[derive(Clone, Copy, Debug, PartialEq, Eq, Structural)]
pub enum EffectorStep {
    /// Fetch the Pacstall install script over HTTPS and run it.
    FetchInstallScript,
    /// Fetch the Pacstall uninstall script over HTTPS and run it.
    FetchUninstallScript,
    /// Purge snapd and its software-centre plugin.
    PurgeSnapd,
    /// Delete the snapd cache directory.
    RemoveSnapCache,
    /// Delete the user's snap data directory.
    RemoveSnapData,
    /// Install Flatpak and its software-centre plugin.
    InstallFlatpak,
    /// Register the Flathub remote.
    AddFlathub,
    /// Reinstall snapd and its software-centre plugin.
    InstallSnapd,
    /// Release the hold on the snapd package.
    UnholdSnapd,
}

/// The most steps that any transition has.
pub const MAX_STEPS: usize = 5;

/// The steps of a feature's transition, in the order in which they run. The
/// kernels have none: their installation is left to the updater, which reads
/// the markers.
pub open spec fn spec_steps(feature: Feature, direction: Direction) -> Seq<EffectorStep> {
    match (feature, direction) {
        (Feature::Pacstall, Direction::Enable) => seq![EffectorStep::FetchInstallScript],
        (Feature::Pacstall, Direction::Disable) => seq![EffectorStep::FetchUninstallScript],
        (Feature::Snapdpurge, Direction::Enable) => seq![
            EffectorStep::PurgeSnapd,
            EffectorStep::RemoveSnapCache,
            EffectorStep::RemoveSnapData,
            EffectorStep::InstallFlatpak,
            EffectorStep::AddFlathub,
        ],
        (Feature::Snapdpurge, Direction::Disable) => seq![
            EffectorStep::InstallSnapd,
            EffectorStep::UnholdSnapd,
        ],
        _ => Seq::empty(),
    }
}

/// The steps of a feature's transition, in the order in which they run.
pub fn steps(feature: Feature, direction: Direction) -> (steps: Vec<EffectorStep>)
    ensures
        steps@ == spec_steps(feature, direction),
        steps@.len() <= MAX_STEPS,
{
    let mut steps: Vec<EffectorStep> = Vec::new();
    match (feature, direction) {
        (Feature::Pacstall, Direction::Enable) => {
            steps.push(EffectorStep::FetchInstallScript);
        },
        (Feature::Pacstall, Direction::Disable) => {
            steps.push(EffectorStep::FetchUninstallScript);
        },
        (Feature::Snapdpurge, Direction::Enable) => {
            steps.push(EffectorStep::PurgeSnapd);
            steps.push(EffectorStep::RemoveSnapCache);
            steps.push(EffectorStep::RemoveSnapData);
            steps.push(EffectorStep::InstallFlatpak);
            steps.push(EffectorStep::AddFlathub);
        },
        (Feature::Snapdpurge, Direction::Disable) => {
            steps.push(EffectorStep::InstallSnapd);
            steps.push(EffectorStep::UnholdSnapd);
        },
        _ => {},
    }
    assert(steps@ =~= spec_steps(feature, direction));
    steps
}

/// No transition has more than `MAX_STEPS` steps.
pub proof fn lemma_steps_bounded(feature: Feature, direction: Direction)
    ensures
        spec_steps(feature, direction).len() <= MAX_STEPS,
{
}

impl EffectorStep {
    /// The command line of the step, program first. Empty for the one step
    /// that is no command: deleting the user's snap data directory.
    pub open spec fn spec_command(self) -> Seq<Seq<char>> {
        match self {
            EffectorStep::FetchInstallScript => seq![
                "bash"@,
                "-c"@,
                "set -o pipefail; curl -fsSL https://pacstall.dev/q/install | bash"@,
            ],
            EffectorStep::FetchUninstallScript => seq![
                "bash"@,
                "-c"@,
                "set -o pipefail; curl -fsSL https://pacstall.dev/q/uninstall | bash"@,
            ],
            EffectorStep::RemoveSnapCache => seq!["sudo"@, "rm"@, "-rf"@, "/var/cache/snapd/"@],
            EffectorStep::PurgeSnapd => seq![
                "sudo"@,
                "apt"@,
                "autopurge"@,
                "snapd"@,
                "gnome-software-plugin-snap"@,
                "-y"@,
            ],
            EffectorStep::RemoveSnapData => Seq::empty(),
            EffectorStep::InstallFlatpak => seq![
                "sudo"@,
                "apt"@,
                "install"@,
                "flatpak"@,
                "gnome-software-plugin-flatpak"@,
                "-y"@,
            ],
            EffectorStep::AddFlathub => seq![
                "sudo"@,
                "flatpak"@,
                "remote-add"@,
                "--if-not-exists"@,
                "flathub"@,
                "https://flathub.org/repo/flathub.flatpakrepo"@,
            ],
            EffectorStep::InstallSnapd => seq![
                "sudo"@,
                "apt"@,
                "install"@,
                "snapd"@,
                "gnome-software-plugin-snap"@,
                "-y"@,
            ],
            EffectorStep::UnholdSnapd => seq!["sudo"@, "apt-mark"@, "unhold"@, "snapd"@],
        }
    }

    /// The command line of the step, program first. Empty for the one step
    /// that is no command: deleting the user's snap data directory.
    pub fn command(self) -> (words: Vec<&'static str>)
        ensures
            words@.len() == self.spec_command().len(),
            forall|i: int| 0 <= i < words@.len() ==> words@[i]@ == self.spec_command()[i],
    {
        let mut words: Vec<&'static str> = Vec::new();
        match self {
            EffectorStep::FetchInstallScript => {
                words.push("bash");
                words.push("-c");
                words.push("set -o pipefail; curl -fsSL https://pacstall.dev/q/install | bash");
            },
            EffectorStep::FetchUninstallScript => {
                words.push("bash");
                words.push("-c");
                words.push("set -o pipefail; curl -fsSL https://pacstall.dev/q/uninstall | bash");
            },
            EffectorStep::RemoveSnapCache => {
                words.push("sudo");
                words.push("rm");
                words.push("-rf");
                words.push("/var/cache/snapd/");
            },
            EffectorStep::PurgeSnapd => {
                words.push("sudo");
                words.push("apt");
                words.push("autopurge");
                words.push("snapd");
                words.push("gnome-software-plugin-snap");
                words.push("-y");
            },
            EffectorStep::RemoveSnapData => {},
            EffectorStep::InstallFlatpak => {
                words.push("sudo");
                words.push("apt");
                words.push("install");
                words.push("flatpak");
                words.push("gnome-software-plugin-flatpak");
                words.push("-y");
            },
            EffectorStep::AddFlathub => {
                words.push("sudo");
                words.push("flatpak");
                words.push("remote-add");
                words.push("--if-not-exists");
                words.push("flathub");
                words.push("https://flathub.org/repo/flathub.flatpakrepo");
            },
            EffectorStep::InstallSnapd => {
                words.push("sudo");
                words.push("apt");
                words.push("install");
                words.push("snapd");
                words.push("gnome-software-plugin-snap");
                words.push("-y");
            },
            EffectorStep::UnholdSnapd => {
                words.push("sudo");
                words.push("apt-mark");
                words.push("unhold");
                words.push("snapd");
            },
        }
        words
    }
}

} // verus!
