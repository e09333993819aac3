use desktop_shell::identifier::MenuIdentifier;
use desktop_shell::menu::{
    initial_checkmarks, menu_bar, tray_menu, wired_identifiers, MenuEntry, PredefinedItem,
};
use desktop_shell::router::{on_tray_menu_event, ShellState};
use desktop_shell::surface::Surface;

fn group<'a>(entry: &'a MenuEntry, expected_label: &str) -> &'a Vec<MenuEntry> {
    match entry {
        MenuEntry::Submenu { label, enabled, entries } => {
            assert_eq!(*label, expected_label);
            assert!(*enabled);
            entries
        }
        other => panic!("expected the group {expected_label}, found {other:?}"),
    }
}

fn expect_predefined(entry: &MenuEntry, expected: PredefinedItem, expected_label: Option<&str>) {
    match entry {
        MenuEntry::Predefined { item, label } => {
            assert_eq!(*item, expected);
            assert_eq!(*label, expected_label);
        }
        other => panic!("expected a platform entry, found {other:?}"),
    }
}

fn expect_item(entry: &MenuEntry, expected: MenuIdentifier, text: &str, keys: Option<&str>) {
    match entry {
        MenuEntry::Item { id, label, enabled, accelerator } => {
            assert_eq!(*id, expected);
            assert_eq!(*label, text);
            assert!(*enabled);
            assert_eq!(*accelerator, keys);
        }
        other => panic!("expected a plain entry, found {other:?}"),
    }
}

fn expect_check(entry: &MenuEntry, expected: MenuIdentifier, text: &str, mark: bool) {
    match entry {
        MenuEntry::Check { id, label, enabled, checked } => {
            assert_eq!(*id, expected);
            assert_eq!(*label, text);
            assert!(*enabled);
            assert_eq!(*checked, mark);
        }
        other => panic!("expected a checkable entry, found {other:?}"),
    }
}

#[test]
fn menu_bar_has_three_groups() {
    let bar = menu_bar();
    assert_eq!(bar.len(), 3);
    assert_eq!(group(&bar[0], "Voice Intelligence").len(), 6);
    assert_eq!(group(&bar[1], "Bearbeiten").len(), 7);
    assert_eq!(group(&bar[2], "Fenster").len(), 2);
}

#[test]
fn application_group_entries() {
    let bar = menu_bar();
    let entries = group(&bar[0], "Voice Intelligence");
    expect_item(&entries[0], MenuIdentifier::About, "Über Voice Intelligence", None);
    expect_predefined(&entries[1], PredefinedItem::Separator, None);
    let themes = group(&entries[2], "Erscheinungsbild");
    assert_eq!(themes.len(), 3);
    expect_check(&themes[0], MenuIdentifier::ThemeSystem, "System", true);
    expect_check(&themes[1], MenuIdentifier::ThemeLight, "Hell", false);
    expect_check(&themes[2], MenuIdentifier::ThemeDark, "Dunkel", false);
    expect_check(&entries[3], MenuIdentifier::AlwaysOnTop, "Immer im Vordergrund", true);
    expect_predefined(&entries[4], PredefinedItem::Separator, None);
    expect_item(&entries[5], MenuIdentifier::QuitApp, "Beenden", Some("CmdOrCtrl+Q"));
}

#[test]
fn edit_group_entries() {
    let bar = menu_bar();
    let entries = group(&bar[1], "Bearbeiten");
    expect_predefined(&entries[0], PredefinedItem::Undo, Some("Widerrufen"));
    expect_predefined(&entries[1], PredefinedItem::Redo, Some("Wiederholen"));
    expect_predefined(&entries[2], PredefinedItem::Separator, None);
    expect_predefined(&entries[3], PredefinedItem::Cut, Some("Ausschneiden"));
    expect_predefined(&entries[4], PredefinedItem::Copy, Some("Kopieren"));
    expect_predefined(&entries[5], PredefinedItem::Paste, Some("Einfügen"));
    expect_predefined(&entries[6], PredefinedItem::SelectAll, Some("Alles auswählen"));
}

#[test]
fn window_group_entries() {
    let bar = menu_bar();
    let entries = group(&bar[2], "Fenster");
    expect_predefined(&entries[0], PredefinedItem::Minimize, Some("Minimieren"));
    expect_predefined(&entries[1], PredefinedItem::CloseWindow, Some("Schließen"));
}

#[test]
fn tray_menu_entries() {
    let menu = tray_menu();
    assert_eq!(menu.len(), 2);
    expect_item(&menu[0], MenuIdentifier::Show, "Anzeigen", None);
    expect_item(&menu[1], MenuIdentifier::Quit, "Beenden", None);
}

#[test]
fn menu_bar_wires_six_entries_in_order() {
    assert_eq!(
        wired_identifiers(&menu_bar()),
        vec![
            MenuIdentifier::About,
            MenuIdentifier::ThemeSystem,
            MenuIdentifier::ThemeLight,
            MenuIdentifier::ThemeDark,
            MenuIdentifier::AlwaysOnTop,
            MenuIdentifier::QuitApp,
        ]
    );
}

#[test]
fn tray_menu_wires_show_and_quit() {
    assert_eq!(wired_identifiers(&tray_menu()), vec![MenuIdentifier::Show, MenuIdentifier::Quit]);
}

#[test]
fn wired_identifiers_of_other_trees() {
    assert_eq!(wired_identifiers(&vec![]), vec![]);
    let nested = vec![
        MenuEntry::Submenu {
            label: "outer",
            enabled: true,
            entries: vec![
                MenuEntry::Submenu {
                    label: "inner",
                    enabled: false,
                    entries: vec![MenuEntry::Check {
                        id: MenuIdentifier::ThemeDark,
                        label: "d",
                        enabled: true,
                        checked: true,
                    }],
                },
                MenuEntry::Item {
                    id: MenuIdentifier::Quit,
                    label: "q",
                    enabled: true,
                    accelerator: None,
                },
            ],
        },
        MenuEntry::Predefined { item: PredefinedItem::Cut, label: None },
        MenuEntry::Item { id: MenuIdentifier::About, label: "a", enabled: true, accelerator: None },
    ];
    assert_eq!(
        wired_identifiers(&nested),
        vec![MenuIdentifier::ThemeDark, MenuIdentifier::Quit, MenuIdentifier::About]
    );
    assert_eq!(initial_checkmarks(&nested), vec![(MenuIdentifier::ThemeDark, true)]);
}

#[test]
fn first_checkmarks_of_the_menus() {
    assert_eq!(
        initial_checkmarks(&menu_bar()),
        vec![
            (MenuIdentifier::ThemeSystem, true),
            (MenuIdentifier::ThemeLight, false),
            (MenuIdentifier::ThemeDark, false),
            (MenuIdentifier::AlwaysOnTop, true),
        ]
    );
    assert_eq!(initial_checkmarks(&tray_menu()), vec![]);
}

#[test]
fn menus_start_in_step_with_the_state() {
    let surface = Surface::new(ShellState::new().always_on_top);
    for (id, checked) in initial_checkmarks(&menu_bar()) {
        assert!(id.checkable());
        assert_eq!(surface.is_checked(id), Some(checked));
    }
}

#[test]
fn every_wired_entry_is_answered_by_its_own_handler() {
    for id in wired_identifiers(&menu_bar()) {
        let mut state = ShellState::new();
        let commands = state.on_menu_event(id.as_str());
        assert_eq!(commands.is_empty(), id == MenuIdentifier::About);
        assert!(on_tray_menu_event(id.as_str()).is_empty());
    }
    for id in wired_identifiers(&tray_menu()) {
        assert!(!on_tray_menu_event(id.as_str()).is_empty());
        let mut state = ShellState::new();
        assert!(state.on_menu_event(id.as_str()).is_empty());
    }
}
