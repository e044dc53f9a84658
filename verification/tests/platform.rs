use service_tray::platform::{OpenStrategy, Platform};

#[test]
fn only_windows_feeds_the_session_count() {
    assert!(Platform::Windows.has_session_feed());
    assert!(!Platform::MacOs.has_session_feed());
    assert!(!Platform::Linux.has_session_feed());
}

#[test]
fn only_windows_opens_on_click() {
    assert!(Platform::Windows.handles_click());
    assert!(!Platform::MacOs.handles_click());
    assert!(!Platform::Linux.handles_click());
}

#[test]
fn installed_icon_paths() {
    assert_eq!(Platform::Windows.installed_icon_path(), "data\\flutter_assets\\assets\\icon.png");
    assert_eq!(
        Platform::MacOs.installed_icon_path(),
        "../Frameworks/App.framework/Resources/flutter_assets/assets/icon.png"
    );
    assert_eq!(Platform::Linux.installed_icon_path(), "data/flutter_assets/assets/icon.png");
}

#[test]
fn without_embedded_ui_open_always_relaunches() {
    assert_eq!(Platform::Windows.open_strategy(false), OpenStrategy::Relaunch);
    assert_eq!(Platform::MacOs.open_strategy(false), OpenStrategy::Relaunch);
    assert_eq!(Platform::Linux.open_strategy(false), OpenStrategy::Relaunch);
}

#[test]
fn with_embedded_ui_open_depends_on_the_platform() {
    assert_eq!(Platform::Windows.open_strategy(true), OpenStrategy::Relaunch);
    assert_eq!(Platform::MacOs.open_strategy(true), OpenStrategy::Activate);
    assert_eq!(Platform::Linux.open_strategy(true), OpenStrategy::ActivateOrRelaunch);
}

#[test]
fn relaunch_asks_nobody_and_starts_the_program() {
    assert!(!OpenStrategy::Relaunch.activates_first());
    assert!(OpenStrategy::Relaunch.needs_relaunch(true));
    assert!(OpenStrategy::Relaunch.needs_relaunch(false));
}

#[test]
fn activate_never_starts_the_program() {
    assert!(OpenStrategy::Activate.activates_first());
    assert!(!OpenStrategy::Activate.needs_relaunch(true));
    assert!(!OpenStrategy::Activate.needs_relaunch(false));
}

#[test]
fn activate_or_relaunch_falls_back_on_failure() {
    assert!(OpenStrategy::ActivateOrRelaunch.activates_first());
    assert!(!OpenStrategy::ActivateOrRelaunch.needs_relaunch(true));
    assert!(OpenStrategy::ActivateOrRelaunch.needs_relaunch(false));
}
