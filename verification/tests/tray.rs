use shell_runner::tray::{on_tray_event, quit_item_id, TrayAction, TrayEvent};

fn chosen(id: &str) -> TrayEvent {
    TrayEvent::MenuItemClick { id: id.to_string() }
}

#[test]
fn the_quit_entry_ends_the_application_with_code_zero() {
    assert_eq!(on_tray_event(&chosen("quit")), TrayAction::Exit { code: 0 });
}

#[test]
fn the_quit_entry_is_named_quit() {
    assert_eq!(quit_item_id(), "quit");
    assert_eq!(on_tray_event(&chosen(quit_item_id())), TrayAction::Exit { code: 0 });
}

#[test]
fn other_menu_entries_do_nothing() {
    assert_eq!(on_tray_event(&chosen("open")), TrayAction::Ignore);
    assert_eq!(on_tray_event(&chosen("")), TrayAction::Ignore);
    assert_eq!(on_tray_event(&chosen("quit ")), TrayAction::Ignore);
    assert_eq!(on_tray_event(&chosen(" quit")), TrayAction::Ignore);
    assert_eq!(on_tray_event(&chosen("qui")), TrayAction::Ignore);
    assert_eq!(on_tray_event(&chosen("quitquit")), TrayAction::Ignore);
}

#[test]
fn the_quit_entry_is_matched_by_exact_case() {
    assert_eq!(on_tray_event(&chosen("Quit")), TrayAction::Ignore);
    assert_eq!(on_tray_event(&chosen("QUIT")), TrayAction::Ignore);
}

#[test]
fn clicks_on_the_icon_do_nothing() {
    assert_eq!(on_tray_event(&TrayEvent::LeftClick), TrayAction::Ignore);
    assert_eq!(on_tray_event(&TrayEvent::Other), TrayAction::Ignore);
}

#[test]
fn the_same_event_always_gets_the_same_answer() {
    let event = chosen("quit");
    assert_eq!(on_tray_event(&event), on_tray_event(&event));
    assert_ne!(on_tray_event(&event), on_tray_event(&TrayEvent::LeftClick));
}
