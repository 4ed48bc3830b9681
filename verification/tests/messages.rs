use rhino_config::effector::EffectorStep;
use rhino_config::engine::ToggleError;
use rhino_config::feature::{Direction, MarkerKey, MarkerState, Variant};
use rhino_config::messages::{already_message, persistence_message, step_message};
use rhino_config::store::StoreFault;

#[test]
fn xanmod_variant_already_enabled() {
    let error = ToggleError::AlreadyInState {
        key: MarkerKey::Xanmod(Variant::Stable),
        state: MarkerState::Enabled,
    };
    assert_eq!(
        error.message(),
        r#"The XanMod kernel variant: `stable` is already enabled! Run "rhino-update" to install it."#
    );
}

#[test]
fn xanmod_variant_already_disabled() {
    let error = ToggleError::AlreadyInState {
        key: MarkerKey::Xanmod(Variant::RealtimeEdge),
        state: MarkerState::Disabled,
    };
    assert_eq!(
        error.message(),
        r#"The XanMod kernel variant: `realtime-edge` is already disabled!"#
    );
}

#[test]
fn kernels_already_in_state() {
    assert_eq!(
        already_message(MarkerKey::Liquorix, MarkerState::Enabled),
        r#"The Liquorix kernel is already enabled! Run "rhino-update" to install it."#
    );
    assert_eq!(
        already_message(MarkerKey::Liquorix, MarkerState::Disabled),
        r#"The Liquorix kernel is already disabled!"#
    );
    assert_eq!(
        already_message(MarkerKey::Libre, MarkerState::Enabled),
        r#"The Libre kernel is already enabled! Run "rhino-update" to install it."#
    );
    assert_eq!(
        already_message(MarkerKey::Libre, MarkerState::Disabled),
        r#"The Libre kernel is already disabled!"#
    );
    assert_eq!(
        already_message(MarkerKey::Mainline, MarkerState::Disabled),
        r#"The mainline kernel is already disabled!"#
    );
}

#[test]
fn package_features_already_in_state() {
    assert_eq!(
        already_message(MarkerKey::Pacstall, MarkerState::Enabled),
        "Pacstall is already enabled!"
    );
    assert_eq!(
        already_message(MarkerKey::Pacstall, MarkerState::Disabled),
        "Pacstall is already disabled!"
    );
    assert_eq!(
        already_message(MarkerKey::Snapdpurge, MarkerState::Enabled),
        "Snapdpurge is already enabled!"
    );
    assert_eq!(
        already_message(MarkerKey::Snapdpurge, MarkerState::Disabled),
        "Snapdpurge is already disabled!"
    );
}

#[test]
fn persistence_failures_name_the_marker() {
    assert_eq!(
        persistence_message(MarkerKey::Xanmod(Variant::Lts), Direction::Enable),
        "Failed to create the xanmod-lts config file!"
    );
    assert_eq!(
        persistence_message(MarkerKey::Xanmod(Variant::Tasktype), Direction::Disable),
        "Failed to remove the xanmod-tasktype config file!"
    );
    assert_eq!(
        persistence_message(MarkerKey::Liquorix, Direction::Enable),
        "Failed to create the liquorix config file!"
    );
    assert_eq!(
        persistence_message(MarkerKey::Libre, Direction::Disable),
        "Failed to remove the libre config file!"
    );
    assert_eq!(
        persistence_message(MarkerKey::Pacstall, Direction::Enable),
        "Unable to create pacstall config!"
    );
    assert_eq!(
        persistence_message(MarkerKey::Snapdpurge, Direction::Enable),
        "Failed to create the snapdpurge config!"
    );
    assert_eq!(
        persistence_message(MarkerKey::Snapdpurge, Direction::Disable),
        "Unable to remove snapdpurge config file!"
    );
    let error = ToggleError::Persistence {
        key: MarkerKey::Libre,
        direction: Direction::Enable,
        fault: StoreFault::Other,
    };
    assert_eq!(error.message(), "Failed to create the libre config file!");
}

#[test]
fn effector_failures_name_the_step() {
    assert_eq!(step_message(EffectorStep::RemoveSnapCache), "Failed to remove snapd cache!");
    assert_eq!(step_message(EffectorStep::PurgeSnapd), "Failed to purge snapd!");
    assert_eq!(step_message(EffectorStep::RemoveSnapData), "Failed to remove snap directory!");
    assert_eq!(step_message(EffectorStep::InstallFlatpak), "Failed to install flatpak!");
    assert_eq!(step_message(EffectorStep::AddFlathub), "Failed to add flathub repository!");
    assert_eq!(step_message(EffectorStep::InstallSnapd), "Unable to reinstall snapd!");
    assert_eq!(step_message(EffectorStep::UnholdSnapd), "Unable to unhold snapd!");
    assert_eq!(step_message(EffectorStep::FetchInstallScript), "Failed to install Pacstall!");
    assert_eq!(step_message(EffectorStep::FetchUninstallScript), "Failed to uninstall Pacstall!");
    let error = ToggleError::Effector {
        key: MarkerKey::Snapdpurge,
        step: EffectorStep::AddFlathub,
    };
    assert_eq!(error.message(), "Failed to add flathub repository!");
}
