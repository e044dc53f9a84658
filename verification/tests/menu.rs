use service_tray::menu::{MenuAction, MenuIds, OPEN_PHRASE, STOP_SERVICE_PHRASE};

fn ids() -> MenuIds {
    MenuIds { open: "1001".to_string(), quit: "1002".to_string() }
}

#[test]
fn open_entry_maps_to_open() {
    assert_eq!(ids().dispatch(&"1001".to_string()), Some(MenuAction::Open));
}

#[test]
fn stop_entry_maps_to_quit() {
    assert_eq!(ids().dispatch(&"1002".to_string()), Some(MenuAction::Quit));
}

#[test]
fn unknown_entry_maps_to_nothing() {
    assert_eq!(ids().dispatch(&"1003".to_string()), None);
    assert_eq!(ids().dispatch(&String::new()), None);
    assert_eq!(ids().dispatch(&"100".to_string()), None);
}

#[test]
fn stop_entry_is_looked_at_first() {
    let same = MenuIds { open: "7".to_string(), quit: "7".to_string() };
    assert_eq!(same.dispatch(&"7".to_string()), Some(MenuAction::Quit));
}

#[test]
fn entries_have_their_phrases() {
    assert_eq!(MenuAction::Open.phrase(), "Open");
    assert_eq!(MenuAction::Quit.phrase(), "Stop service");
    assert_eq!(OPEN_PHRASE, "Open");
    assert_eq!(STOP_SERVICE_PHRASE, "Stop service");
}
