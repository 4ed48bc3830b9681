use rhino_config::commands::{disable, enable, switch_kernel};
use rhino_config::effector::{steps, EffectorStep, MAX_STEPS};
use rhino_config::engine::{Action, Engine, Event, ToggleError};
use rhino_config::feature::{Direction, Feature, MarkerKey, MarkerState, Variant};
use rhino_config::store::MarkerStore;
use rhino_config::variants::XanmodVariants;

fn run(mut engine: Engine, store: &mut MarkerStore) -> Result<(), ToggleError> {
    loop {
        let event = match engine.action() {
            Action::Finish => break,
            Action::Query(key) => {
                if store.is_present(key) {
                    Event::Present
                } else {
                    Event::Absent
                }
            }
            Action::Create(key) => match store.create(key) {
                Ok(()) => Event::Stored,
                Err(fault) => Event::StoreFailed(fault),
            },
            Action::Remove(key) => match store.remove(key) {
                Ok(()) => Event::Stored,
                Err(fault) => Event::StoreFailed(fault),
            },
            Action::Run(_, _) => Event::StepOk,
        };
        assert!(engine.advance(event));
    }
    engine.result()
}

fn all_variants() -> XanmodVariants {
    XanmodVariants {
        stable: true,
        edge: true,
        lts: true,
        realtime: true,
        realtime_edge: true,
        tasktype: true,
    }
}

#[test]
fn test_enable_xanmod() {
    let mut store = MarkerStore::new();
    let variants = all_variants();
    assert_eq!(run(switch_kernel::enable_xanmod(&variants), &mut store), Ok(()));
    for rank in 0..6 {
        assert!(store.is_present(MarkerKey::Xanmod(Variant::of_rank(rank))));
    }
    assert_eq!(
        run(switch_kernel::enable_xanmod(&variants), &mut store),
        Err(ToggleError::AlreadyInState {
            key: MarkerKey::Xanmod(Variant::Stable),
            state: MarkerState::Enabled,
        })
    );
}

#[test]
fn test_disable_xanmod() {
    let mut store = MarkerStore::new();
    for rank in 0..6 {
        store.create(MarkerKey::Xanmod(Variant::of_rank(rank))).unwrap();
    }
    let variants = all_variants();
    assert_eq!(run(switch_kernel::disable_xanmod(&variants), &mut store), Ok(()));
    for rank in 0..6 {
        assert!(!store.is_present(MarkerKey::Xanmod(Variant::of_rank(rank))));
    }
    assert_eq!(
        run(switch_kernel::disable_xanmod(&variants), &mut store),
        Err(ToggleError::AlreadyInState {
            key: MarkerKey::Xanmod(Variant::Stable),
            state: MarkerState::Disabled,
        })
    );
}

#[test]
fn test_enable_liquorix() {
    let mut store = MarkerStore::new();
    assert_eq!(run(switch_kernel::enable_liquorix(), &mut store), Ok(()));
    assert!(store.is_present(MarkerKey::Liquorix));
    assert_eq!(
        run(switch_kernel::enable_liquorix(), &mut store),
        Err(ToggleError::AlreadyInState { key: MarkerKey::Liquorix, state: MarkerState::Enabled })
    );
}

#[test]
fn test_enable_libre() {
    let mut store = MarkerStore::new();
    assert_eq!(run(switch_kernel::enable_libre(), &mut store), Ok(()));
    assert!(store.is_present(MarkerKey::Libre));
    assert_eq!(
        run(switch_kernel::enable_libre(), &mut store),
        Err(ToggleError::AlreadyInState { key: MarkerKey::Libre, state: MarkerState::Enabled })
    );
}

#[test]
fn test_disable_liquorix() {
    let mut store = MarkerStore::new();
    store.create(MarkerKey::Liquorix).unwrap();
    assert_eq!(run(switch_kernel::disable_liquorix(), &mut store), Ok(()));
    assert!(!store.is_present(MarkerKey::Liquorix));
    assert_eq!(
        run(switch_kernel::disable_liquorix(), &mut store),
        Err(ToggleError::AlreadyInState { key: MarkerKey::Liquorix, state: MarkerState::Disabled })
    );
}

#[test]
fn test_disable_libre() {
    let mut store = MarkerStore::new();
    store.create(MarkerKey::Libre).unwrap();
    assert_eq!(run(switch_kernel::disable_libre(), &mut store), Ok(()));
    assert!(!store.is_present(MarkerKey::Libre));
    assert_eq!(
        run(switch_kernel::disable_libre(), &mut store),
        Err(ToggleError::AlreadyInState { key: MarkerKey::Libre, state: MarkerState::Disabled })
    );
}

#[test]
fn test_pacstall() {
    let mut store = MarkerStore::new();
    assert_eq!(run(enable::pacstall(), &mut store), Ok(()));
    assert!(store.is_present(MarkerKey::Pacstall));
    assert_eq!(run(disable::pacstall(), &mut store), Ok(()));
    assert!(!store.is_present(MarkerKey::Pacstall));
}

#[test]
fn test_snapdpurge() {
    let mut store = MarkerStore::new();
    assert_eq!(run(enable::snapdpurge(), &mut store), Ok(()));
    assert!(store.is_present(MarkerKey::Snapdpurge));
    assert_eq!(run(disable::snapdpurge(), &mut store), Ok(()));
    assert!(!store.is_present(MarkerKey::Snapdpurge));
}

#[test]
fn enable_xanmod_without_flags_enables_stable_alone() {
    let mut store = MarkerStore::new();
    let none = XanmodVariants::default();
    assert_eq!(run(switch_kernel::enable_xanmod(&none), &mut store), Ok(()));
    assert!(store.is_present(MarkerKey::Xanmod(Variant::Stable)));
    for rank in 1..6 {
        assert!(!store.is_present(MarkerKey::Xanmod(Variant::of_rank(rank))));
    }
    assert_eq!(run(switch_kernel::disable_xanmod(&none), &mut store), Ok(()));
    assert!(!store.is_present(MarkerKey::Xanmod(Variant::Stable)));
}

#[test]
fn steps_of_each_transition() {
    assert_eq!(
        steps(Feature::Pacstall, Direction::Enable),
        vec![EffectorStep::FetchInstallScript]
    );
    assert_eq!(
        steps(Feature::Pacstall, Direction::Disable),
        vec![EffectorStep::FetchUninstallScript]
    );
    assert_eq!(
        steps(Feature::Snapdpurge, Direction::Enable),
        vec![
            EffectorStep::PurgeSnapd,
            EffectorStep::RemoveSnapCache,
            EffectorStep::RemoveSnapData,
            EffectorStep::InstallFlatpak,
            EffectorStep::AddFlathub,
        ]
    );
    assert_eq!(
        steps(Feature::Snapdpurge, Direction::Disable),
        vec![EffectorStep::InstallSnapd, EffectorStep::UnholdSnapd]
    );
    for feature in [Feature::Mainline, Feature::Xanmod, Feature::Liquorix, Feature::Libre] {
        assert!(steps(feature, Direction::Enable).is_empty());
        assert!(steps(feature, Direction::Disable).is_empty());
    }
    assert_eq!(steps(Feature::Snapdpurge, Direction::Enable).len(), MAX_STEPS);
}

#[test]
fn command_lines_of_the_steps() {
    assert_eq!(
        EffectorStep::RemoveSnapCache.command(),
        vec!["sudo", "rm", "-rf", "/var/cache/snapd/"]
    );
    assert_eq!(
        EffectorStep::PurgeSnapd.command(),
        vec!["sudo", "apt", "autopurge", "snapd", "gnome-software-plugin-snap", "-y"]
    );
    assert!(EffectorStep::RemoveSnapData.command().is_empty());
    assert_eq!(
        EffectorStep::InstallFlatpak.command(),
        vec!["sudo", "apt", "install", "flatpak", "gnome-software-plugin-flatpak", "-y"]
    );
    assert_eq!(
        EffectorStep::AddFlathub.command(),
        vec![
            "sudo",
            "flatpak",
            "remote-add",
            "--if-not-exists",
            "flathub",
            "https://flathub.org/repo/flathub.flatpakrepo",
        ]
    );
    assert_eq!(
        EffectorStep::InstallSnapd.command(),
        vec!["sudo", "apt", "install", "snapd", "gnome-software-plugin-snap", "-y"]
    );
    assert_eq!(
        EffectorStep::UnholdSnapd.command(),
        vec!["sudo", "apt-mark", "unhold", "snapd"]
    );
    assert_eq!(
        EffectorStep::FetchInstallScript.command(),
        vec!["bash", "-c", "set -o pipefail; curl -fsSL https://pacstall.dev/q/install | bash"]
    );
    assert_eq!(
        EffectorStep::FetchUninstallScript.command(),
        vec!["bash", "-c", "set -o pipefail; curl -fsSL https://pacstall.dev/q/uninstall | bash"]
    );
}
