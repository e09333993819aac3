//! What holds of the shell, whichever events arrive: the guarantees of the
//! handlers, stated against the model of the surface.

use crate::appearance::{lemma_selection_is_radio, AppearanceMode, ThemeChecks};
use crate::command::{lemma_notified_push, notified, Command, Notification};
use crate::event::{MouseButton, MouseButtonState, TrayIconEvent, WindowEvent};
use crate::identifier::{lemma_named_inverts_token, MenuIdentifier};
use crate::menu::{
    appearance_group, application_group, checkmarks, edit_group, lemma_checkmarks_push,
    lemma_wired_push, menu_bar_shape, tray_menu_shape, window_group, wired, MenuShape,
};
use crate::router::{
    always_on_top_commands, close_commands, quit_commands, show_commands, theme_commands, tray_icon_commands,
    tray_menu_commands, window_commands, ShellState, EXIT_CODE,
};
use crate::surface::{lemma_after_all_push, lemma_after_outcomes_push, step_carried, Surface};
use vstd::prelude::*;

verus! {

/// What the commands of a theme selection do to a surface and which
/// notification they send.
proof fn lemma_theme_commands_unfolded(surface: Surface, id: Seq<char>)
    ensures
        surface.after_all(theme_commands(id)) == (Surface {
            theme: ThemeChecks::selecting(id),
            ..surface
        }),
        notified(theme_commands(id)) == seq![
            Notification::ThemeChange(AppearanceMode::resolved(id)),
        ],
{
    let c = theme_commands(id);
    let e = Seq::<Command>::empty();
    lemma_after_all_push(surface, e, c[0]);
    lemma_after_all_push(surface, e.push(c[0]), c[1]);
    lemma_after_all_push(surface, e.push(c[0]).push(c[1]), c[2]);
    lemma_after_all_push(surface, e.push(c[0]).push(c[1]).push(c[2]), c[3]);
    lemma_notified_push(e, c[0]);
    lemma_notified_push(e.push(c[0]), c[1]);
    lemma_notified_push(e.push(c[0]).push(c[1]), c[2]);
    lemma_notified_push(e.push(c[0]).push(c[1]).push(c[2]), c[3]);
    assert(c =~= e.push(c[0]).push(c[1]).push(c[2]).push(c[3]));
    assert(notified(c) =~= seq![Notification::ThemeChange(AppearanceMode::resolved(id))]);
}

/// What the commands of an always-on-top toggle do to a surface and which
/// notification they send.
proof fn lemma_always_on_top_commands_unfolded(surface: Surface, value: bool)
    ensures
        surface.after_all(always_on_top_commands(value)) == (Surface {
            always_on_top_checked: value,
            window_always_on_top: if surface.window_open {
                value
            } else {
                surface.window_always_on_top
            },
            ..surface
        }),
        notified(always_on_top_commands(value)) == seq![Notification::AlwaysOnTopChanged(value)],
{
    let c = always_on_top_commands(value);
    let e = Seq::<Command>::empty();
    lemma_after_all_push(surface, e, c[0]);
    lemma_after_all_push(surface, e.push(c[0]), c[1]);
    lemma_after_all_push(surface, e.push(c[0]).push(c[1]), c[2]);
    lemma_notified_push(e, c[0]);
    lemma_notified_push(e.push(c[0]), c[1]);
    lemma_notified_push(e.push(c[0]).push(c[1]), c[2]);
    assert(c =~= e.push(c[0]).push(c[1]).push(c[2]));
    assert(notified(c) =~= seq![Notification::AlwaysOnTopChanged(value)]);
}

/// What the commands of a show request do to a surface.
proof fn lemma_show_commands_unfolded(surface: Surface)
    ensures
        surface.after_all(show_commands()) == if surface.window_open {
            Surface { window_visible: true, window_focused: true, ..surface }
        } else {
            surface
        },
        notified(show_commands()) == Seq::<Notification>::empty(),
{
    let c = show_commands();
    let e = Seq::<Command>::empty();
    lemma_after_all_push(surface, e, c[0]);
    lemma_after_all_push(surface, e.push(c[0]), c[1]);
    lemma_notified_push(e, c[0]);
    lemma_notified_push(e.push(c[0]), c[1]);
    assert(c =~= e.push(c[0]).push(c[1]));
}

/// What the command of a quit request does to a surface.
proof fn lemma_quit_commands_unfolded(surface: Surface)
    ensures
        surface.after_all(quit_commands()) == if surface.exit_code is None {
            Surface { exit_code: Some(EXIT_CODE), ..surface }
        } else {
            surface
        },
        notified(quit_commands()) == Seq::<Notification>::empty(),
{
    let c = quit_commands();
    let e = Seq::<Command>::empty();
    lemma_after_all_push(surface, e, c[0]);
    lemma_notified_push(e, c[0]);
    assert(c =~= e.push(c[0]));
}

/// The radio invariant. After the entry of a theme has been activated and
/// the commands carried out, exactly one of the three checkmarks is set, and
/// it is the one of that theme, whatever the checkmarks showed before. The
/// rest of the surface and the shell's own state stay as they were.
pub proof fn lemma_theme_selection_is_exclusive(
    state: ShellState,
    surface: Surface,
    mode: AppearanceMode,
)
    ensures
        ({
            let id = mode.entry().token();
            let next = surface.after_all(state.menu_commands(id));
            &&& next.theme.is_radio()
            &&& next.theme.shown() == Some(mode)
            &&& next == Surface { theme: ThemeChecks::showing(mode), ..surface }
            &&& state.after_menu(id) == state
        }),
{
    let id = mode.entry().token();
    lemma_named_inverts_token(id, mode.entry());
    lemma_selection_is_radio(id);
    lemma_theme_commands_unfolded(surface, id);
    lemma_named_inverts_token(id, AppearanceMode::resolved(id).entry());
}

/// The theme notification. A theme selection sends one notification, a theme
/// change, and the theme it carries is the one of the entry activated; an
/// identifier that is neither the light nor the dark entry's token resolves to
/// the system theme. The token sent is `system`, `light` or `dark`.
pub proof fn lemma_theme_notification_matches_entry(id: Seq<char>, mode: AppearanceMode)
    ensures
        notified(theme_commands(id)) == seq![
            Notification::ThemeChange(AppearanceMode::resolved(id)),
        ],
        AppearanceMode::resolved(mode.entry().token()) == mode,
        id != MenuIdentifier::ThemeLight.token() && id != MenuIdentifier::ThemeDark.token()
            ==> AppearanceMode::resolved(id) == AppearanceMode::System,
        mode.token() == "system"@ || mode.token() == "light"@ || mode.token() == "dark"@,
{
    lemma_theme_commands_unfolded(Surface::fresh(true), id);
    let own = mode.entry().token();
    lemma_named_inverts_token(own, mode.entry());
    lemma_selection_is_radio(own);
    lemma_named_inverts_token(own, AppearanceMode::resolved(own).entry());
}

/// After a toggle has been carried out on an open window, the flag, the
/// checkmark, the window attribute and the notification's payload all hold
/// the negated flag.
pub proof fn lemma_toggle_mirrors_flag(state: ShellState, surface: Surface)
    requires
        surface.window_open,
    ensures
        ({
            let id = MenuIdentifier::AlwaysOnTop.token();
            let after = state.after_menu(id);
            let next = surface.after_all(state.menu_commands(id));
            &&& after.always_on_top == !state.always_on_top
            &&& next.always_on_top_checked == after.always_on_top
            &&& next.window_always_on_top == after.always_on_top
            &&& notified(state.menu_commands(id)) == seq![
                Notification::AlwaysOnTopChanged(after.always_on_top),
            ]
        }),
{
    let id = MenuIdentifier::AlwaysOnTop.token();
    lemma_named_inverts_token(id, MenuIdentifier::AlwaysOnTop);
    lemma_always_on_top_commands_unfolded(surface, !state.always_on_top);
}

/// Two toggles in a row leave the flag where it was.
pub proof fn lemma_double_toggle_restores_flag(state: ShellState)
    ensures
        ({
            let id = MenuIdentifier::AlwaysOnTop.token();
            state.after_menu(id).after_menu(id) == state
        }),
{
    lemma_named_inverts_token(MenuIdentifier::AlwaysOnTop.token(), MenuIdentifier::AlwaysOnTop);
}

/// Two toggles in a row, each carried out, leave the whole surface where it
/// was, provided that the checkmark and the window attribute started out at
/// the flag's value.
pub proof fn lemma_double_toggle_restores_surface(state: ShellState, surface: Surface)
    requires
        surface.always_on_top_checked == state.always_on_top,
        surface.window_always_on_top == state.always_on_top,
    ensures
        ({
            let id = MenuIdentifier::AlwaysOnTop.token();
            let once = state.after_menu(id);
            let between = surface.after_all(state.menu_commands(id));
            &&& once.after_menu(id) == state
            &&& between.after_all(once.menu_commands(id)) == surface
        }),
{
    let id = MenuIdentifier::AlwaysOnTop.token();
    lemma_named_inverts_token(id, MenuIdentifier::AlwaysOnTop);
    lemma_always_on_top_commands_unfolded(surface, !state.always_on_top);
    let between = surface.after_all(state.menu_commands(id));
    lemma_always_on_top_commands_unfolded(between, state.always_on_top);
}

/// A toggle under failure. Whichever steps fail, the flag is negated; the
/// checkmark and the window attribute each take the new value where their own
/// step was carried out, and stay as they were where it failed. Nothing else
/// on the surface changes.
pub proof fn lemma_toggle_absorbs_failures(
    state: ShellState,
    surface: Surface,
    carried: Seq<bool>,
)
    ensures
        ({
            let id = MenuIdentifier::AlwaysOnTop.token();
            let value = !state.always_on_top;
            &&& state.after_menu(id).always_on_top == value
            &&& surface.after_outcomes(state.menu_commands(id), carried) == Surface {
                always_on_top_checked: if step_carried(carried, 0) {
                    value
                } else {
                    surface.always_on_top_checked
                },
                window_always_on_top: if step_carried(carried, 1) && surface.window_open {
                    value
                } else {
                    surface.window_always_on_top
                },
                ..surface
            }
        }),
{
    let id = MenuIdentifier::AlwaysOnTop.token();
    lemma_named_inverts_token(id, MenuIdentifier::AlwaysOnTop);
    let c = always_on_top_commands(!state.always_on_top);
    let e = Seq::<Command>::empty();
    lemma_after_outcomes_push(surface, e, c[0], carried);
    lemma_after_outcomes_push(surface, e.push(c[0]), c[1], carried);
    lemma_after_outcomes_push(surface, e.push(c[0]).push(c[1]), c[2], carried);
    assert(c =~= e.push(c[0]).push(c[1]).push(c[2]));
}

/// A theme selection under failure. Each of the three checkmarks takes the
/// value that the selection asks for where its own step was carried out, and
/// stays as it was where the step failed, so a partial failure can leave the
/// group with no checkmark or with more than one.
pub proof fn lemma_theme_selection_absorbs_failures(
    surface: Surface,
    id: Seq<char>,
    carried: Seq<bool>,
)
    ensures
        ({
            let asked = ThemeChecks::selecting(id);
            surface.after_outcomes(theme_commands(id), carried) == Surface {
                theme: ThemeChecks {
                    system: if step_carried(carried, 0) {
                        asked.system
                    } else {
                        surface.theme.system
                    },
                    light: if step_carried(carried, 1) {
                        asked.light
                    } else {
                        surface.theme.light
                    },
                    dark: if step_carried(carried, 2) {
                        asked.dark
                    } else {
                        surface.theme.dark
                    },
                },
                ..surface
            }
        }),
{
    let c = theme_commands(id);
    let e = Seq::<Command>::empty();
    lemma_after_outcomes_push(surface, e, c[0], carried);
    lemma_after_outcomes_push(surface, e.push(c[0]), c[1], carried);
    lemma_after_outcomes_push(surface, e.push(c[0]).push(c[1]), c[2], carried);
    lemma_after_outcomes_push(surface, e.push(c[0]).push(c[1]).push(c[2]), c[3], carried);
    assert(c =~= e.push(c[0]).push(c[1]).push(c[2]).push(c[3]));
}

/// Two toggles in a row under failure. The flag is back where it was,
/// whatever failed. The checkmark is back at the flag where the second
/// toggle's checkmark step was carried out, and the attribute of an open
/// window is back at the flag where the second toggle's window step was.
pub proof fn lemma_double_toggle_absorbs_failures(
    state: ShellState,
    surface: Surface,
    first: Seq<bool>,
    second: Seq<bool>,
)
    ensures
        ({
            let id = MenuIdentifier::AlwaysOnTop.token();
            let once = state.after_menu(id);
            let between = surface.after_outcomes(state.menu_commands(id), first);
            let end = between.after_outcomes(once.menu_commands(id), second);
            &&& once.after_menu(id) == state
            &&& step_carried(second, 0) ==> end.always_on_top_checked == state.always_on_top
            &&& step_carried(second, 1) && surface.window_open ==> end.window_always_on_top
                == state.always_on_top
        }),
{
    let id = MenuIdentifier::AlwaysOnTop.token();
    lemma_named_inverts_token(id, MenuIdentifier::AlwaysOnTop);
    lemma_toggle_absorbs_failures(state, surface, first);
    let between = surface.after_outcomes(state.menu_commands(id), first);
    lemma_toggle_absorbs_failures(state.after_menu(id), between, second);
}

/// What the commands of a close request do to a surface.
proof fn lemma_close_commands_unfolded(surface: Surface)
    ensures
        surface.after_all(close_commands()) == if surface.window_open {
            Surface { window_visible: false, ..surface }
        } else {
            surface
        },
        notified(close_commands()) == Seq::<Notification>::empty(),
        close_commands().contains(Command::PreventClose),
{
    let c = close_commands();
    let e = Seq::<Command>::empty();
    lemma_after_all_push(surface, e, c[0]);
    lemma_after_all_push(surface, e.push(c[0]), c[1]);
    lemma_notified_push(e, c[0]);
    lemma_notified_push(e.push(c[0]), c[1]);
    assert(c =~= e.push(c[0]).push(c[1]));
    assert(c[0] == Command::PreventClose);
}

/// A close request becomes a hide. The shell refuses the close, so the
/// window is never destroyed by it, and takes the window off the screen: an
/// open window is open and hidden afterwards, whether it was shown or not,
/// and nothing else on the surface changes.
pub proof fn lemma_close_request_becomes_hide(surface: Surface)
    ensures
        window_commands(WindowEvent::CloseRequested).contains(Command::PreventClose),
        surface.after_close_request(window_commands(WindowEvent::CloseRequested))
            == if surface.window_open {
            Surface { window_visible: false, ..surface }
        } else {
            surface
        },
        surface.after_close_request(window_commands(WindowEvent::CloseRequested)).window_open
            == surface.window_open,
{
    lemma_close_commands_unfolded(surface);
}

/// A show request, from the tray menu or by letting go of the left button
/// over the tray icon, leaves an open window visible and focused, whether it
/// was hidden or not, and changes nothing else.
pub proof fn lemma_show_request_restores_window(surface: Surface)
    requires
        surface.window_open,
    ensures
        tray_menu_commands(MenuIdentifier::Show.token()) == show_commands(),
        tray_icon_commands(
            TrayIconEvent::Click { button: MouseButton::Left, button_state: MouseButtonState::Up },
        ) == show_commands(),
        surface.after_all(show_commands()) == (Surface {
            window_visible: true,
            window_focused: true,
            ..surface
        }),
{
    lemma_named_inverts_token(MenuIdentifier::Show.token(), MenuIdentifier::Show);
    lemma_show_commands_unfolded(surface);
}

/// A window that is open stays open through a close request and is hidden
/// by it, and a show request after it leaves the window visible and focused.
pub proof fn lemma_window_returns_after_close_request(surface: Surface)
    requires
        surface.window_open,
    ensures
        ({
            let kept = surface.after_close_request(window_commands(WindowEvent::CloseRequested));
            let shown = kept.after_all(tray_menu_commands(MenuIdentifier::Show.token()));
            &&& kept.window_open
            &&& !kept.window_visible
            &&& shown.window_open
            &&& shown.window_visible
            &&& shown.window_focused
            &&& shown == Surface { window_visible: true, window_focused: true, ..surface }
        }),
{
    lemma_close_request_becomes_hide(surface);
    let kept = surface.after_close_request(window_commands(WindowEvent::CloseRequested));
    lemma_show_request_restores_window(kept);
}

/// Only the two quit entries end the process, each from its own menu and with
/// exit code 0: the menu bar's commands hold an exit exactly for its quit
/// entry, the tray menu's exactly for its own, and no event on the tray icon
/// or on the window ever asks for one.
pub proof fn lemma_only_quit_ends_process(
    state: ShellState,
    id: Seq<char>,
    code: i32,
    tray: TrayIconEvent,
    window: WindowEvent,
)
    ensures
        state.menu_commands(id).contains(Command::Exit(code)) <==> id
            == MenuIdentifier::QuitApp.token() && code == 0,
        tray_menu_commands(id).contains(Command::Exit(code)) <==> id
            == MenuIdentifier::Quit.token() && code == 0,
        !tray_icon_commands(tray).contains(Command::Exit(code)),
        !window_commands(window).contains(Command::Exit(code)),
{
    lemma_named_inverts_token(id, MenuIdentifier::QuitApp);
    lemma_named_inverts_token(id, MenuIdentifier::Quit);
    let exit = Command::Exit(code);
    assert(quit_commands()[0] == Command::Exit(EXIT_CODE));
    assert(quit_commands().contains(exit) <==> code == 0);
    assert(!theme_commands(id).contains(exit));
    assert(!always_on_top_commands(!state.always_on_top).contains(exit));
    assert(!show_commands().contains(exit));
    assert(!Seq::<Command>::empty().contains(exit));
}

/// Only a theme selection and a toggle reach the content view. A theme entry
/// sends one theme change, the always-on-top entry sends the flag's new value
/// once, and nothing else that the menu bar, the tray or the window reports
/// sends anything.
pub proof fn lemma_only_selection_and_toggle_notify(
    state: ShellState,
    id: Seq<char>,
    tray: TrayIconEvent,
    window: WindowEvent,
)
    ensures
        notified(state.menu_commands(id)) == match MenuIdentifier::named(id) {
            Some(MenuIdentifier::ThemeSystem)
            | Some(MenuIdentifier::ThemeLight)
            | Some(MenuIdentifier::ThemeDark) => seq![
                Notification::ThemeChange(AppearanceMode::resolved(id)),
            ],
            Some(MenuIdentifier::AlwaysOnTop) => seq![
                Notification::AlwaysOnTopChanged(!state.always_on_top),
            ],
            _ => Seq::empty(),
        },
        notified(tray_menu_commands(id)) == Seq::<Notification>::empty(),
        notified(tray_icon_commands(tray)) == Seq::<Notification>::empty(),
        notified(window_commands(window)) == Seq::<Notification>::empty(),
{
    let surface = Surface::fresh(true);
    lemma_theme_commands_unfolded(surface, id);
    lemma_always_on_top_commands_unfolded(surface, !state.always_on_top);
    lemma_show_commands_unfolded(surface);
    lemma_quit_commands_unfolded(surface);
    lemma_close_commands_unfolded(surface);
}

/// Carrying out a quit request ends a running process with exit code 0.
pub proof fn lemma_quit_exits_with_zero(state: ShellState, surface: Surface)
    requires
        surface.exit_code is None,
    ensures
        surface.after_all(state.menu_commands(MenuIdentifier::QuitApp.token())).exit_code
            == Some(0i32),
        surface.after_all(tray_menu_commands(MenuIdentifier::Quit.token())).exit_code
            == Some(0i32),
{
    lemma_named_inverts_token(MenuIdentifier::QuitApp.token(), MenuIdentifier::QuitApp);
    lemma_named_inverts_token(MenuIdentifier::Quit.token(), MenuIdentifier::Quit);
    lemma_quit_commands_unfolded(surface);
}

/// What the theme group wires and which checkmarks it starts with.
proof fn lemma_appearance_group_unfolded()
    ensures
        appearance_group().wired() == seq![
            MenuIdentifier::ThemeSystem,
            MenuIdentifier::ThemeLight,
            MenuIdentifier::ThemeDark,
        ],
        appearance_group().checkmarks() == seq![
            (MenuIdentifier::ThemeSystem, true),
            (MenuIdentifier::ThemeLight, false),
            (MenuIdentifier::ThemeDark, false),
        ],
{
    let c = appearance_group()->entries;
    let e = Seq::<MenuShape>::empty();
    assert(c =~= e.push(c[0]).push(c[1]).push(c[2]));
    lemma_wired_push(e, c[0]);
    lemma_wired_push(e.push(c[0]), c[1]);
    lemma_wired_push(e.push(c[0]).push(c[1]), c[2]);
    assert(appearance_group().wired() =~= seq![
        MenuIdentifier::ThemeSystem,
        MenuIdentifier::ThemeLight,
        MenuIdentifier::ThemeDark,
    ]);
    lemma_checkmarks_push(e, c[0]);
    lemma_checkmarks_push(e.push(c[0]), c[1]);
    lemma_checkmarks_push(e.push(c[0]).push(c[1]), c[2]);
    assert(appearance_group().checkmarks() =~= seq![
        (MenuIdentifier::ThemeSystem, true),
        (MenuIdentifier::ThemeLight, false),
        (MenuIdentifier::ThemeDark, false),
    ]);
}

/// What the application group wires and which checkmarks it starts with.
proof fn lemma_application_group_unfolded()
    ensures
        application_group().wired() == seq![
            MenuIdentifier::About,
            MenuIdentifier::ThemeSystem,
            MenuIdentifier::ThemeLight,
            MenuIdentifier::ThemeDark,
            MenuIdentifier::AlwaysOnTop,
            MenuIdentifier::QuitApp,
        ],
        application_group().checkmarks() == seq![
            (MenuIdentifier::ThemeSystem, true),
            (MenuIdentifier::ThemeLight, false),
            (MenuIdentifier::ThemeDark, false),
            (MenuIdentifier::AlwaysOnTop, true),
        ],
{
    lemma_appearance_group_unfolded();
    let c = application_group()->entries;
    let e = Seq::<MenuShape>::empty();
    let c1 = e.push(c[0]);
    let c2 = c1.push(c[1]);
    let c3 = c2.push(c[2]);
    let c4 = c3.push(c[3]);
    let c5 = c4.push(c[4]);
    assert(c =~= c5.push(c[5]));
    assert(c[2] == appearance_group());
    lemma_wired_push(e, c[0]);
    lemma_wired_push(c1, c[1]);
    lemma_wired_push(c2, c[2]);
    lemma_wired_push(c3, c[3]);
    lemma_wired_push(c4, c[4]);
    lemma_wired_push(c5, c[5]);
    assert(application_group().wired() =~= seq![
        MenuIdentifier::About,
        MenuIdentifier::ThemeSystem,
        MenuIdentifier::ThemeLight,
        MenuIdentifier::ThemeDark,
        MenuIdentifier::AlwaysOnTop,
        MenuIdentifier::QuitApp,
    ]);
    lemma_checkmarks_push(e, c[0]);
    lemma_checkmarks_push(c1, c[1]);
    lemma_checkmarks_push(c2, c[2]);
    lemma_checkmarks_push(c3, c[3]);
    lemma_checkmarks_push(c4, c[4]);
    lemma_checkmarks_push(c5, c[5]);
    assert(application_group().checkmarks() =~= seq![
        (MenuIdentifier::ThemeSystem, true),
        (MenuIdentifier::ThemeLight, false),
        (MenuIdentifier::ThemeDark, false),
        (MenuIdentifier::AlwaysOnTop, true),
    ]);
}

/// The edit group and the window group hold platform entries only.
proof fn lemma_platform_groups_unfolded()
    ensures
        edit_group().wired() == Seq::<MenuIdentifier>::empty(),
        edit_group().checkmarks() == Seq::<(MenuIdentifier, bool)>::empty(),
        window_group().wired() == Seq::<MenuIdentifier>::empty(),
        window_group().checkmarks() == Seq::<(MenuIdentifier, bool)>::empty(),
{
    let c = edit_group()->entries;
    let e = Seq::<MenuShape>::empty();
    let c1 = e.push(c[0]);
    let c2 = c1.push(c[1]);
    let c3 = c2.push(c[2]);
    let c4 = c3.push(c[3]);
    let c5 = c4.push(c[4]);
    let c6 = c5.push(c[5]);
    assert(c =~= c6.push(c[6]));
    lemma_wired_push(e, c[0]);
    lemma_wired_push(c1, c[1]);
    lemma_wired_push(c2, c[2]);
    lemma_wired_push(c3, c[3]);
    lemma_wired_push(c4, c[4]);
    lemma_wired_push(c5, c[5]);
    lemma_wired_push(c6, c[6]);
    assert(edit_group().wired() =~= Seq::<MenuIdentifier>::empty());
    lemma_checkmarks_push(e, c[0]);
    lemma_checkmarks_push(c1, c[1]);
    lemma_checkmarks_push(c2, c[2]);
    lemma_checkmarks_push(c3, c[3]);
    lemma_checkmarks_push(c4, c[4]);
    lemma_checkmarks_push(c5, c[5]);
    lemma_checkmarks_push(c6, c[6]);
    assert(edit_group().checkmarks() =~= Seq::<(MenuIdentifier, bool)>::empty());
    let w = window_group()->entries;
    assert(w =~= e.push(w[0]).push(w[1]));
    lemma_wired_push(e, w[0]);
    lemma_wired_push(e.push(w[0]), w[1]);
    assert(window_group().wired() =~= Seq::<MenuIdentifier>::empty());
    lemma_checkmarks_push(e, w[0]);
    lemma_checkmarks_push(e.push(w[0]), w[1]);
    assert(window_group().checkmarks() =~= Seq::<(MenuIdentifier, bool)>::empty());
}

/// The menu bar wires the six entries of the application group, in their
/// order, and nothing else; the tray menu wires show and quit.
pub proof fn lemma_menus_wire_their_entries()
    ensures
        wired(menu_bar_shape()) == seq![
            MenuIdentifier::About,
            MenuIdentifier::ThemeSystem,
            MenuIdentifier::ThemeLight,
            MenuIdentifier::ThemeDark,
            MenuIdentifier::AlwaysOnTop,
            MenuIdentifier::QuitApp,
        ],
        wired(tray_menu_shape()) == seq![MenuIdentifier::Show, MenuIdentifier::Quit],
{
    lemma_application_group_unfolded();
    lemma_platform_groups_unfolded();
    let e = Seq::<MenuShape>::empty();
    let b = menu_bar_shape();
    assert(b =~= e.push(b[0]).push(b[1]).push(b[2]));
    lemma_wired_push(e, b[0]);
    lemma_wired_push(e.push(b[0]), b[1]);
    lemma_wired_push(e.push(b[0]).push(b[1]), b[2]);
    assert(wired(b) =~= application_group().wired());
    let t = tray_menu_shape();
    assert(t =~= e.push(t[0]).push(t[1]));
    lemma_wired_push(e, t[0]);
    lemma_wired_push(e.push(t[0]), t[1]);
    assert(wired(t) =~= seq![MenuIdentifier::Show, MenuIdentifier::Quit]);
}

/// The menus start in step with the shell. The menu bar holds the four
/// checkable entries and the tray menu none; each starts with the checkmark
/// that a fresh surface shows for the shell's first state, so the theme group
/// starts as a radio group on the system theme and the always-on-top entry
/// starts at the flag.
pub proof fn lemma_menus_start_in_step()
    ensures
        checkmarks(menu_bar_shape()) == seq![
            (MenuIdentifier::ThemeSystem, true),
            (MenuIdentifier::ThemeLight, false),
            (MenuIdentifier::ThemeDark, false),
            (MenuIdentifier::AlwaysOnTop, true),
        ],
        checkmarks(tray_menu_shape()) == Seq::<(MenuIdentifier, bool)>::empty(),
        forall|k: int|
            0 <= k < checkmarks(menu_bar_shape()).len() ==> Surface::fresh(
                ShellState::initial().always_on_top,
            ).checkmark((#[trigger] checkmarks(menu_bar_shape())[k]).0) == Some(
                checkmarks(menu_bar_shape())[k].1,
            ),
        Surface::fresh(ShellState::initial().always_on_top).theme.is_radio(),
        Surface::fresh(ShellState::initial().always_on_top).theme.shown() == Some(
            AppearanceMode::System,
        ),
{
    lemma_application_group_unfolded();
    lemma_platform_groups_unfolded();
    let e = Seq::<MenuShape>::empty();
    let b = menu_bar_shape();
    assert(b =~= e.push(b[0]).push(b[1]).push(b[2]));
    lemma_checkmarks_push(e, b[0]);
    lemma_checkmarks_push(e.push(b[0]), b[1]);
    lemma_checkmarks_push(e.push(b[0]).push(b[1]), b[2]);
    assert(checkmarks(b) =~= application_group().checkmarks());
    let t = tray_menu_shape();
    assert(t =~= e.push(t[0]).push(t[1]));
    lemma_checkmarks_push(e, t[0]);
    lemma_checkmarks_push(e.push(t[0]), t[1]);
    assert(checkmarks(t) =~= Seq::<(MenuIdentifier, bool)>::empty());
}

/// Each menu is answered by its own handler. Every entry that the menu bar
/// wires, but the reserved about entry, has the menu bar's handler ask for
/// something, and every entry of the tray menu has the tray's; an entry of one
/// menu is ignored by the handler of the other.
pub proof fn lemma_handlers_answer_their_menus(state: ShellState, k: int)
    ensures
        0 <= k < wired(menu_bar_shape()).len() ==> {
            let id = wired(menu_bar_shape())[k].token();
            &&& (state.menu_commands(id).len() > 0 <==> wired(menu_bar_shape())[k]
                != MenuIdentifier::About)
            &&& tray_menu_commands(id).len() == 0
        },
        0 <= k < wired(tray_menu_shape()).len() ==> {
            let id = wired(tray_menu_shape())[k].token();
            &&& tray_menu_commands(id).len() > 0
            &&& state.menu_commands(id).len() == 0
            &&& state.after_menu(id) == state
        },
{
    lemma_menus_wire_their_entries();
    if 0 <= k < wired(menu_bar_shape()).len() {
        let entry = wired(menu_bar_shape())[k];
        lemma_named_inverts_token(entry.token(), entry);
    }
    if 0 <= k < wired(tray_menu_shape()).len() {
        let entry = wired(tray_menu_shape())[k];
        lemma_named_inverts_token(entry.token(), entry);
    }
}

} // verus!
