use desktop_shell::appearance::AppearanceMode;
use desktop_shell::command::{notifications, refuses_close, Command, Notification};
use desktop_shell::event::{MouseButton, MouseButtonState, TrayIconEvent, WindowEvent};
use desktop_shell::identifier::MenuIdentifier;
use desktop_shell::router::{
    hide_window, on_tray_icon_event, on_tray_menu_event, on_window_event, quit, select_theme,
    show_window,
    ShellState, EXIT_CODE,
};

#[test]
fn state_starts_with_the_flag_set() {
    assert_eq!(ShellState::new(), ShellState { always_on_top: true });
    assert_eq!(ShellState::default(), ShellState::new());
}

#[test]
fn exit_code_is_zero() {
    assert_eq!(EXIT_CODE, 0);
}

#[test]
fn about_is_a_no_op() {
    for flag in [false, true] {
        let mut state = ShellState { always_on_top: flag };
        assert_eq!(state.on_menu_event("about"), vec![]);
        assert_eq!(state.always_on_top, flag);
    }
}

#[test]
fn unknown_menu_identifiers_are_ignored() {
    for id in ["", "help", "Quit_App", "quit_app ", "theme", "toggle", "always_on_top2"] {
        let mut state = ShellState::new();
        assert_eq!(state.on_menu_event(id), vec![]);
        assert_eq!(state, ShellState::new());
    }
}

#[test]
fn tray_entries_are_ignored_by_the_menu_bar() {
    let mut state = ShellState::new();
    assert_eq!(state.on_menu_event("show"), vec![]);
    assert_eq!(state.on_menu_event("quit"), vec![]);
    assert_eq!(state, ShellState::new());
}

#[test]
fn theme_selection_sets_all_three_checkmarks_then_notifies() {
    let mut state = ShellState::new();
    assert_eq!(
        state.on_menu_event("theme_light"),
        vec![
            Command::SetChecked { item: MenuIdentifier::ThemeSystem, checked: false },
            Command::SetChecked { item: MenuIdentifier::ThemeLight, checked: true },
            Command::SetChecked { item: MenuIdentifier::ThemeDark, checked: false },
            Command::Notify(Notification::ThemeChange(AppearanceMode::Light)),
        ]
    );
    assert_eq!(state, ShellState::new());
}

#[test]
fn theme_selection_leaves_the_flag_alone() {
    for flag in [false, true] {
        for id in ["theme_system", "theme_light", "theme_dark"] {
            let mut state = ShellState { always_on_top: flag };
            let commands = state.on_menu_event(id);
            assert_eq!(commands.len(), 4);
            assert_eq!(state.always_on_top, flag);
        }
    }
}

#[test]
fn menu_bar_routes_theme_entries_to_select_theme() {
    for id in ["theme_system", "theme_light", "theme_dark"] {
        let mut state = ShellState::new();
        assert_eq!(state.on_menu_event(id), select_theme(id));
    }
}

#[test]
fn select_theme_with_a_foreign_identifier_clears_and_reports_system() {
    assert_eq!(
        select_theme("about"),
        vec![
            Command::SetChecked { item: MenuIdentifier::ThemeSystem, checked: false },
            Command::SetChecked { item: MenuIdentifier::ThemeLight, checked: false },
            Command::SetChecked { item: MenuIdentifier::ThemeDark, checked: false },
            Command::Notify(Notification::ThemeChange(AppearanceMode::System)),
        ]
    );
}

#[test]
fn theme_notification_carries_the_matching_token() {
    for (id, token) in [("theme_system", "system"), ("theme_light", "light"), ("theme_dark", "dark")] {
        let mut state = ShellState::new();
        let sent = notifications(&state.on_menu_event(id));
        assert_eq!(sent.len(), 1);
        match sent[0] {
            Notification::ThemeChange(mode) => {
                assert_eq!(mode.as_str(), token);
                assert_eq!(sent[0].event_name(), "menu-theme-change");
            }
            Notification::AlwaysOnTopChanged(_) => panic!("a theme selection reports a theme"),
        }
    }
}

#[test]
fn toggle_negates_the_flag_and_mirrors_it() {
    let mut state = ShellState { always_on_top: false };
    assert_eq!(
        state.on_menu_event("always_on_top"),
        vec![
            Command::SetChecked { item: MenuIdentifier::AlwaysOnTop, checked: true },
            Command::SetWindowAlwaysOnTop(true),
            Command::Notify(Notification::AlwaysOnTopChanged(true)),
        ]
    );
    assert_eq!(state, ShellState { always_on_top: true });
}

#[test]
fn toggle_method_is_what_the_menu_bar_routes_to() {
    for flag in [false, true] {
        let mut routed = ShellState { always_on_top: flag };
        let mut direct = ShellState { always_on_top: flag };
        assert_eq!(routed.on_menu_event("always_on_top"), direct.toggle_always_on_top());
        assert_eq!(routed, direct);
        assert_eq!(routed.always_on_top, !flag);
    }
}

#[test]
fn double_toggle_restores_the_flag() {
    for flag in [false, true] {
        let mut state = ShellState { always_on_top: flag };
        state.on_menu_event("always_on_top");
        state.on_menu_event("always_on_top");
        assert_eq!(state.always_on_top, flag);
    }
}

#[test]
fn quit_app_exits_with_zero() {
    let mut state = ShellState::new();
    assert_eq!(state.on_menu_event("quit_app"), vec![Command::Exit(0)]);
    assert_eq!(state, ShellState::new());
    assert_eq!(quit(), vec![Command::Exit(0)]);
}

#[test]
fn tray_quit_exits_with_zero() {
    assert_eq!(on_tray_menu_event("quit"), vec![Command::Exit(0)]);
}

#[test]
fn tray_show_shows_then_focuses() {
    assert_eq!(on_tray_menu_event("show"), vec![Command::ShowWindow, Command::FocusWindow]);
    assert_eq!(show_window(), vec![Command::ShowWindow, Command::FocusWindow]);
}

#[test]
fn menu_bar_entries_are_ignored_by_the_tray() {
    for id in ["about", "theme_system", "theme_light", "theme_dark", "always_on_top", "quit_app", "", "exit"] {
        assert_eq!(on_tray_menu_event(id), vec![]);
    }
}

#[test]
fn no_identifier_but_the_quit_entries_asks_for_an_exit() {
    let ids = [
        "about", "theme_system", "theme_light", "theme_dark", "always_on_top", "quit_app", "show",
        "quit", "", "exit", "QUIT",
    ];
    for id in ids {
        let mut state = ShellState::new();
        let from_bar = state.on_menu_event(id);
        let exits_bar = from_bar.iter().any(|c| matches!(c, Command::Exit(_)));
        assert_eq!(exits_bar, id == "quit_app");
        let from_tray = on_tray_menu_event(id);
        let exits_tray = from_tray.iter().any(|c| matches!(c, Command::Exit(_)));
        assert_eq!(exits_tray, id == "quit");
    }
}

#[test]
fn left_button_up_on_the_tray_icon_shows_the_window() {
    let event = TrayIconEvent::Click { button: MouseButton::Left, button_state: MouseButtonState::Up };
    assert_eq!(on_tray_icon_event(event), vec![Command::ShowWindow, Command::FocusWindow]);
}

#[test]
fn other_tray_icon_events_do_nothing() {
    let events = [
        TrayIconEvent::Click { button: MouseButton::Left, button_state: MouseButtonState::Down },
        TrayIconEvent::Click { button: MouseButton::Right, button_state: MouseButtonState::Up },
        TrayIconEvent::Click { button: MouseButton::Right, button_state: MouseButtonState::Down },
        TrayIconEvent::Click { button: MouseButton::Middle, button_state: MouseButtonState::Up },
        TrayIconEvent::Click { button: MouseButton::Middle, button_state: MouseButtonState::Down },
        TrayIconEvent::Other,
    ];
    for event in events {
        assert_eq!(on_tray_icon_event(event), vec![]);
    }
}

#[test]
fn close_request_is_refused_and_becomes_a_hide() {
    assert_eq!(
        on_window_event(WindowEvent::CloseRequested),
        vec![Command::PreventClose, Command::HideWindow]
    );
    assert_eq!(hide_window(), vec![Command::PreventClose, Command::HideWindow]);
}

#[test]
fn other_window_events_are_not_answered() {
    assert_eq!(on_window_event(WindowEvent::Other), vec![]);
}

#[test]
fn notifications_are_collected_in_order() {
    let commands = vec![
        Command::ShowWindow,
        Command::Notify(Notification::AlwaysOnTopChanged(false)),
        Command::SetWindowAlwaysOnTop(true),
        Command::Notify(Notification::ThemeChange(AppearanceMode::Dark)),
        Command::Exit(3),
    ];
    assert_eq!(
        notifications(&commands),
        vec![
            Notification::AlwaysOnTopChanged(false),
            Notification::ThemeChange(AppearanceMode::Dark),
        ]
    );
    assert_eq!(notifications(&vec![]), vec![]);
    assert_eq!(notifications(&show_window()), vec![]);
}

#[test]
fn refusal_is_found_anywhere_in_a_reply() {
    assert!(refuses_close(&on_window_event(WindowEvent::CloseRequested)));
    assert!(!refuses_close(&on_window_event(WindowEvent::Other)));
    assert!(!refuses_close(&vec![]));
    assert!(!refuses_close(&vec![Command::ShowWindow, Command::Exit(0)]));
    assert!(refuses_close(&vec![Command::ShowWindow, Command::PreventClose]));
    assert!(refuses_close(&vec![Command::PreventClose, Command::ShowWindow]));
}

#[test]
fn only_selection_and_toggle_notify() {
    for id in ["about", "quit_app", "show", "quit", "", "other"] {
        let mut state = ShellState::new();
        assert_eq!(notifications(&state.on_menu_event(id)), vec![]);
    }
    for id in ["about", "theme_dark", "always_on_top", "quit_app", "show", "quit", ""] {
        assert_eq!(notifications(&on_tray_menu_event(id)), vec![]);
    }
    let click = TrayIconEvent::Click { button: MouseButton::Left, button_state: MouseButtonState::Up };
    assert_eq!(notifications(&on_tray_icon_event(click)), vec![]);
    assert_eq!(notifications(&on_window_event(WindowEvent::CloseRequested)), vec![]);
    let mut state = ShellState { always_on_top: false };
    assert_eq!(
        notifications(&state.on_menu_event("always_on_top")),
        vec![Notification::AlwaysOnTopChanged(true)]
    );
}
