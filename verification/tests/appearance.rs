use desktop_shell::appearance::{AppearanceMode, ThemeChecks};
use desktop_shell::command::Notification;
use desktop_shell::identifier::MenuIdentifier;

#[test]
fn theme_tokens() {
    assert_eq!(AppearanceMode::System.as_str(), "system");
    assert_eq!(AppearanceMode::Light.as_str(), "light");
    assert_eq!(AppearanceMode::Dark.as_str(), "dark");
}

#[test]
fn theme_entries() {
    assert_eq!(AppearanceMode::System.menu_entry(), MenuIdentifier::ThemeSystem);
    assert_eq!(AppearanceMode::Light.menu_entry(), MenuIdentifier::ThemeLight);
    assert_eq!(AppearanceMode::Dark.menu_entry(), MenuIdentifier::ThemeDark);
}

#[test]
fn identifier_resolves_to_its_theme() {
    assert_eq!(AppearanceMode::from_identifier("theme_system"), AppearanceMode::System);
    assert_eq!(AppearanceMode::from_identifier("theme_light"), AppearanceMode::Light);
    assert_eq!(AppearanceMode::from_identifier("theme_dark"), AppearanceMode::Dark);
}

#[test]
fn resolving_an_entry_token_gives_the_theme_back() {
    for mode in [AppearanceMode::System, AppearanceMode::Light, AppearanceMode::Dark] {
        assert_eq!(AppearanceMode::from_identifier(mode.menu_entry().as_str()), mode);
    }
}

#[test]
fn other_identifiers_fall_back_to_system() {
    for id in ["", "about", "always_on_top", "quit_app", "show", "quit", "theme_blue", "dark", "THEME_DARK"] {
        assert_eq!(AppearanceMode::from_identifier(id), AppearanceMode::System);
    }
}

#[test]
fn checks_for_each_theme_identifier() {
    assert_eq!(
        ThemeChecks::for_identifier("theme_system"),
        ThemeChecks { system: true, light: false, dark: false }
    );
    assert_eq!(
        ThemeChecks::for_identifier("theme_light"),
        ThemeChecks { system: false, light: true, dark: false }
    );
    assert_eq!(
        ThemeChecks::for_identifier("theme_dark"),
        ThemeChecks { system: false, light: false, dark: true }
    );
}

#[test]
fn checks_for_a_foreign_identifier_are_all_clear() {
    assert_eq!(
        ThemeChecks::for_identifier("about"),
        ThemeChecks { system: false, light: false, dark: false }
    );
    assert_eq!(ThemeChecks::for_identifier("about").selected(), None);
}

#[test]
fn checks_for_mode_agree_with_checks_for_its_entry() {
    for mode in [AppearanceMode::System, AppearanceMode::Light, AppearanceMode::Dark] {
        let checks = ThemeChecks::for_mode(mode);
        assert_eq!(checks, ThemeChecks::for_identifier(mode.menu_entry().as_str()));
        assert_eq!(checks.selected(), Some(mode));
    }
}

#[test]
fn selected_needs_exactly_one_checkmark() {
    for system in [false, true] {
        for light in [false, true] {
            for dark in [false, true] {
                let checks = ThemeChecks { system, light, dark };
                let count = system as u8 + light as u8 + dark as u8;
                assert_eq!(checks.selected().is_some(), count == 1);
            }
        }
    }
    assert_eq!(
        ThemeChecks { system: false, light: true, dark: false }.selected(),
        Some(AppearanceMode::Light)
    );
    assert_eq!(ThemeChecks { system: true, light: true, dark: false }.selected(), None);
}

#[test]
fn notification_event_names() {
    assert_eq!(Notification::ThemeChange(AppearanceMode::Dark).event_name(), "menu-theme-change");
    assert_eq!(Notification::ThemeChange(AppearanceMode::System).event_name(), "menu-theme-change");
    assert_eq!(
        Notification::AlwaysOnTopChanged(true).event_name(),
        "menu-always-on-top-changed"
    );
    assert_eq!(
        Notification::AlwaysOnTopChanged(false).event_name(),
        "menu-always-on-top-changed"
    );
}
