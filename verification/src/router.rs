//! The handlers: from what the host delivered to the state that follows and
//! the commands that the host has to carry out.

use crate::appearance::{AppearanceMode, ThemeChecks};
use crate::command::{Command, Notification};
use crate::event::{MouseButton, MouseButtonState, TrayIconEvent, WindowEvent};
use crate::identifier::MenuIdentifier;
use vstd::prelude::*;

verus! {

/// The exit code with which the shell ends the process.
pub const EXIT_CODE: i32 = 0;

/// The state that the shell itself owns: the always-on-top flag.
///
/// There is one such value per process. It starts out set, is never stored,
/// and only the always-on-top menu entry changes it.
#[derive(Clone, Copy, Debug, PartialEq, Eq, Structural)]
pub struct ShellState {
    pub always_on_top: bool,
}

/// The commands that put the three theme checkmarks where an activation of
/// `id` asks for them, and then tell the content view which theme `id`
/// resolves to.
pub open spec fn theme_commands(id: Seq<char>) -> Seq<Command> {
    let checks = ThemeChecks::selecting(id);
    seq![
        Command::SetChecked { item: MenuIdentifier::ThemeSystem, checked: checks.system },
        Command::SetChecked { item: MenuIdentifier::ThemeLight, checked: checks.light },
        Command::SetChecked { item: MenuIdentifier::ThemeDark, checked: checks.dark },
        Command::Notify(Notification::ThemeChange(AppearanceMode::resolved(id))),
    ]
}

/// The commands that mirror a new value of the always-on-top flag into its
/// checkmark and into the window, and then tell the content view.
pub open spec fn always_on_top_commands(value: bool) -> Seq<Command> {
    seq![
        Command::SetChecked { item: MenuIdentifier::AlwaysOnTop, checked: value },
        Command::SetWindowAlwaysOnTop(value),
        Command::Notify(Notification::AlwaysOnTopChanged(value)),
    ]
}

/// The commands that bring the main window back: show it, then focus it.
pub open spec fn show_commands() -> Seq<Command> {
    seq![Command::ShowWindow, Command::FocusWindow]
}

/// The commands that end the process.
pub open spec fn quit_commands() -> Seq<Command> {
    seq![Command::Exit(EXIT_CODE)]
}

/// What an activation of `id` in the tray menu asks for. The tray menu knows
/// two entries; any other identifier asks for nothing.
pub open spec fn tray_menu_commands(id: Seq<char>) -> Seq<Command> {
    match MenuIdentifier::named(id) {
        Some(MenuIdentifier::Show) => show_commands(),
        Some(MenuIdentifier::Quit) => quit_commands(),
        _ => Seq::empty(),
    }
}

/// What an event on the tray icon asks for: letting go of the left button
/// brings the window back, and nothing else does anything.
pub open spec fn tray_icon_commands(event: TrayIconEvent) -> Seq<Command> {
    match event {
        TrayIconEvent::Click { button: MouseButton::Left, button_state: MouseButtonState::Up } =>
            show_commands(),
        _ => Seq::empty(),
    }
}

/// The commands that turn a close request into a hide: refuse the close, then
/// take the window off the screen.
pub open spec fn close_commands() -> Seq<Command> {
    seq![Command::PreventClose, Command::HideWindow]
}

/// What an event on the main window asks for: a close request is refused and
/// the window hidden in place of being destroyed, and nothing else is
/// answered.
pub open spec fn window_commands(event: WindowEvent) -> Seq<Command> {
    match event {
        WindowEvent::CloseRequested => close_commands(),
        WindowEvent::Other => Seq::empty(),
    }
}

impl ShellState {
    /// The state at process start: the flag is set.
    pub open spec fn initial() -> ShellState {
        ShellState { always_on_top: true }
    }

    /// The state with the flag negated.
    pub open spec fn toggled(self) -> ShellState {
        ShellState { always_on_top: !self.always_on_top }
    }

    /// The state after an activation of `id` in the menu bar: the
    /// always-on-top entry negates the flag, and nothing else changes it.
    pub open spec fn after_menu(self, id: Seq<char>) -> ShellState {
        match MenuIdentifier::named(id) {
            Some(MenuIdentifier::AlwaysOnTop) => self.toggled(),
            _ => self,
        }
    }

    /// What an activation of `id` in the menu bar asks for, in this state.
    /// The entries of the tray menu are not entries of the menu bar, and an
    /// identifier that the menu bar does not know asks for nothing.
    pub open spec fn menu_commands(self, id: Seq<char>) -> Seq<Command> {
        match MenuIdentifier::named(id) {
            Some(MenuIdentifier::About) => Seq::empty(),
            Some(MenuIdentifier::ThemeSystem)
            | Some(MenuIdentifier::ThemeLight)
            | Some(MenuIdentifier::ThemeDark) => theme_commands(id),
            Some(MenuIdentifier::AlwaysOnTop) => always_on_top_commands(!self.always_on_top),
            Some(MenuIdentifier::QuitApp) => quit_commands(),
            Some(MenuIdentifier::Show) | Some(MenuIdentifier::Quit) | None => Seq::empty(),
        }
    }

    /// The state at process start.
    pub fn new() -> (state: ShellState)
        ensures
            state == Self::initial(),
    {
        ShellState { always_on_top: true }
    }

    /// Handles an activation in the menu bar.
    pub fn on_menu_event(&mut self, id: &str) -> (commands: Vec<Command>)
        ensures
            *final(self) == old(self).after_menu(id@),
            commands@ == old(self).menu_commands(id@),
    {
        match MenuIdentifier::parse(id) {
            // Reserved for a dialog that does not exist yet.
            Some(MenuIdentifier::About) => Vec::new(),
            Some(MenuIdentifier::ThemeSystem)
            | Some(MenuIdentifier::ThemeLight)
            | Some(MenuIdentifier::ThemeDark) => select_theme(id),
            Some(MenuIdentifier::AlwaysOnTop) => self.toggle_always_on_top(),
            Some(MenuIdentifier::QuitApp) => quit(),
            _ => Vec::new(),
        }
    }

    /// Negates the flag and mirrors the new value into the checkmark and the
    /// window.
    pub fn toggle_always_on_top(&mut self) -> (commands: Vec<Command>)
        ensures
            *final(self) == old(self).toggled(),
            commands@ == always_on_top_commands(!old(self).always_on_top),
    {
        let value = !self.always_on_top;
        self.always_on_top = value;
        let commands = vec![
            Command::SetChecked { item: MenuIdentifier::AlwaysOnTop, checked: value },
            Command::SetWindowAlwaysOnTop(value),
            Command::Notify(Notification::AlwaysOnTopChanged(value)),
        ];
        assert(commands@ =~= always_on_top_commands(value));
        commands
    }
}

impl Default for ShellState {
    fn default() -> (state: ShellState)
        ensures
            state == ShellState::initial(),
    {
        ShellState::new()
    }
}

/// Handles a theme selection: sets each of the three checkmarks by whether
/// `id` is its entry's token, and notifies the content view of the theme that
/// `id` resolves to.
pub fn select_theme(id: &str) -> (commands: Vec<Command>)
    ensures
        commands@ == theme_commands(id@),
{
    let checks = ThemeChecks::for_identifier(id);
    let mode = AppearanceMode::from_identifier(id);
    let commands = vec![
        Command::SetChecked { item: MenuIdentifier::ThemeSystem, checked: checks.system },
        Command::SetChecked { item: MenuIdentifier::ThemeLight, checked: checks.light },
        Command::SetChecked { item: MenuIdentifier::ThemeDark, checked: checks.dark },
        Command::Notify(Notification::ThemeChange(mode)),
    ];
    assert(commands@ =~= theme_commands(id@));
    commands
}

/// Brings the main window back: show it, then focus it.
pub fn show_window() -> (commands: Vec<Command>)
    ensures
        commands@ == show_commands(),
{
    let commands = vec![Command::ShowWindow, Command::FocusWindow];
    assert(commands@ =~= show_commands());
    commands
}

/// Turns a close request into a hide: refuse the close, then take the window
/// off the screen. The window is never destroyed this way, so a later show
/// request finds it.
pub fn hide_window() -> (commands: Vec<Command>)
    ensures
        commands@ == close_commands(),
{
    let commands = vec![Command::PreventClose, Command::HideWindow];
    assert(commands@ =~= close_commands());
    commands
}

/// Ends the process.
pub fn quit() -> (commands: Vec<Command>)
    ensures
        commands@ == quit_commands(),
{
    let commands = vec![Command::Exit(EXIT_CODE)];
    assert(commands@ =~= quit_commands());
    commands
}

/// Handles an activation in the tray menu.
pub fn on_tray_menu_event(id: &str) -> (commands: Vec<Command>)
    ensures
        commands@ == tray_menu_commands(id@),
{
    match MenuIdentifier::parse(id) {
        Some(MenuIdentifier::Show) => show_window(),
        Some(MenuIdentifier::Quit) => quit(),
        _ => Vec::new(),
    }
}

/// Handles an event on the tray icon.
pub fn on_tray_icon_event(event: TrayIconEvent) -> (commands: Vec<Command>)
    ensures
        commands@ == tray_icon_commands(event),
{
    match event {
        TrayIconEvent::Click { button: MouseButton::Left, button_state: MouseButtonState::Up } =>
            show_window(),
        _ => Vec::new(),
    }
}

/// Handles an event on the main window.
pub fn on_window_event(event: WindowEvent) -> (commands: Vec<Command>)
    ensures
        commands@ == window_commands(event),
{
    match event {
        WindowEvent::CloseRequested => hide_window(),
        WindowEvent::Other => Vec::new(),
    }
}

} // verus!
