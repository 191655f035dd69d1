use pausetime::tray::{
    same_text, tray_menu, MenuEntry, MenuItemId, MouseButton, MouseButtonState, ToggleLabel,
    TrayIconEvent, TOGGLE_EVENT, TRAY_ID, TRAY_TOOLTIP,
};

#[test]
fn tray_constants() {
    assert_eq!(TRAY_ID, "main-tray");
    assert_eq!(TRAY_TOOLTIP, "PauseTime");
    assert_eq!(TOGGLE_EVENT, "tray-toggle");
}

#[test]
fn same_text_compares_characters() {
    assert!(same_text("", ""));
    assert!(same_text("quit", "quit"));
    assert!(same_text("Çıkış", "Çıkış"));
    assert!(!same_text("quit", "quiz"));
    assert!(!same_text("quit", "qui"));
    assert!(!same_text("qui", "quit"));
    assert!(!same_text("Show", "show"));
    assert!(!same_text("Çıkış", "Cikis"));
}

#[test]
fn disabled_frontend_gets_the_activate_label() {
    assert_eq!(ToggleLabel::for_state(true), ToggleLabel::Activate);
    assert_eq!(ToggleLabel::for_state(true).text(), "Aktif Et");
}

#[test]
fn enabled_frontend_gets_the_disable_label() {
    assert_eq!(ToggleLabel::for_state(false), ToggleLabel::Disable);
    assert_eq!(ToggleLabel::for_state(false).text(), "Devre Dışı Bırak");
}

#[test]
fn toggle_texts_differ() {
    assert_ne!(ToggleLabel::Disable.text(), ToggleLabel::Activate.text());
}

#[test]
fn menu_identifiers_are_stable() {
    assert_eq!(MenuItemId::Show.id(), "show");
    assert_eq!(MenuItemId::Toggle.id(), "toggle");
    assert_eq!(MenuItemId::Quit.id(), "quit");
}

#[test]
fn parse_finds_each_item_by_its_identifier() {
    for item in [MenuItemId::Show, MenuItemId::Toggle, MenuItemId::Quit] {
        assert_eq!(MenuItemId::parse(item.id()), Some(item));
    }
}

#[test]
fn parse_rejects_other_identifiers() {
    assert_eq!(MenuItemId::parse(""), None);
    assert_eq!(MenuItemId::parse("Show"), None);
    assert_eq!(MenuItemId::parse("show "), None);
    assert_eq!(MenuItemId::parse("quitx"), None);
    assert_eq!(MenuItemId::parse("togg"), None);
    assert_eq!(MenuItemId::parse("main-tray"), None);
}

#[test]
fn initial_texts() {
    assert_eq!(MenuItemId::Show.initial_text(), "Aç");
    assert_eq!(MenuItemId::Toggle.initial_text(), "Devre Dışı Bırak");
    assert_eq!(MenuItemId::Quit.initial_text(), "Çıkış");
}

#[test]
fn menu_has_three_enabled_items_in_order() {
    let menu = tray_menu();
    assert_eq!(
        menu,
        vec![
            MenuEntry { item: MenuItemId::Show, id: "show", text: "Aç", enabled: true },
            MenuEntry {
                item: MenuItemId::Toggle,
                id: "toggle",
                text: "Devre Dışı Bırak",
                enabled: true,
            },
            MenuEntry { item: MenuItemId::Quit, id: "quit", text: "Çıkış", enabled: true },
        ]
    );
}

#[test]
fn menu_entry_of_an_item() {
    assert_eq!(
        MenuEntry::of(MenuItemId::Quit),
        MenuEntry { item: MenuItemId::Quit, id: "quit", text: "Çıkış", enabled: true }
    );
}

#[test]
fn only_left_button_release_opens_the_window() {
    for button in [MouseButton::Left, MouseButton::Right, MouseButton::Middle] {
        for button_state in [MouseButtonState::Up, MouseButtonState::Down] {
            let expected = button == MouseButton::Left && button_state == MouseButtonState::Up;
            assert_eq!(TrayIconEvent::Click { button, button_state }.opens_window(), expected);
        }
    }
    assert!(!TrayIconEvent::Other.opens_window());
}
