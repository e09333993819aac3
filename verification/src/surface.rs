//! A model of the live surface: the checkmarks, the main window and the
//! process, as far as the shell's commands touch them.
//!
//! The model says what each command does where the host carries it out. It is
//! what the shell's guarantees are stated against, and it can stand in for the
//! host wherever no window system is at hand.

use crate::appearance::{AppearanceMode, ThemeChecks};
use crate::command::{refuses_close, Command};
use crate::identifier::MenuIdentifier;
use vstd::prelude::*;

verus! {

/// The facets of the surface that the shell's commands can change.
#[derive(Clone, Copy, Debug, PartialEq, Eq, Structural)]
pub struct Surface {
    /// The checkmarks of the three theme entries.
    pub theme: ThemeChecks,
    /// The checkmark of the always-on-top entry.
    pub always_on_top_checked: bool,
    /// Whether the main window exists; a destroyed window never comes back.
    pub window_open: bool,
    /// Whether the main window is shown.
    pub window_visible: bool,
    /// Whether the main window has the input focus.
    pub window_focused: bool,
    /// The always-on-top attribute of the main window.
    pub window_always_on_top: bool,
    /// The exit code, once the process has been told to end.
    pub exit_code: Option<i32>,
}

impl Surface {
    /// A surface right after start: the system theme is checked, the window is
    /// open, shown and without focus, and the always-on-top checkmark and
    /// window attribute both hold `always_on_top`.
    pub open spec fn fresh(always_on_top: bool) -> Surface {
        Surface {
            theme: ThemeChecks::showing(AppearanceMode::System),
            always_on_top_checked: always_on_top,
            window_open: true,
            window_visible: true,
            window_focused: false,
            window_always_on_top: always_on_top,
            exit_code: None,
        }
    }

    /// The checkmark of a checkable entry; `None` for an entry without one.
    pub open spec fn checkmark(self, entry: MenuIdentifier) -> Option<bool> {
        match entry {
            MenuIdentifier::AlwaysOnTop => Some(self.always_on_top_checked),
            _ => self.theme.of(entry),
        }
    }

    /// The surface after the host has carried out `command`.
    ///
    /// A checkmark can only be set on a checkable entry, and the window can
    /// only be changed while it exists; the first exit code stands.
    pub open spec fn after(self, command: Command) -> Surface {
        match command {
            Command::SetChecked { item, checked } => match item {
                MenuIdentifier::ThemeSystem => Surface {
                    theme: ThemeChecks { system: checked, ..self.theme },
                    ..self
                },
                MenuIdentifier::ThemeLight => Surface {
                    theme: ThemeChecks { light: checked, ..self.theme },
                    ..self
                },
                MenuIdentifier::ThemeDark => Surface {
                    theme: ThemeChecks { dark: checked, ..self.theme },
                    ..self
                },
                MenuIdentifier::AlwaysOnTop => Surface { always_on_top_checked: checked, ..self },
                _ => self,
            },
            Command::SetWindowAlwaysOnTop(value) => if self.window_open {
                Surface { window_always_on_top: value, ..self }
            } else {
                self
            },
            Command::ShowWindow => if self.window_open {
                Surface { window_visible: true, ..self }
            } else {
                self
            },
            Command::HideWindow => if self.window_open {
                Surface { window_visible: false, ..self }
            } else {
                self
            },
            Command::FocusWindow => if self.window_open {
                Surface { window_focused: true, ..self }
            } else {
                self
            },
            Command::Exit(code) => if self.exit_code is None {
                Surface { exit_code: Some(code), ..self }
            } else {
                self
            },
            Command::Notify(_) | Command::PreventClose => self,
        }
    }

    /// The surface after the host has carried out `commands`, first to last.
    pub open spec fn after_all(self, commands: Seq<Command>) -> Surface
        decreases commands.len(),
    {
        if commands.len() == 0 {
            self
        } else {
            self.after_all(commands.drop_last()).after(commands.last())
        }
    }

    /// The surface after the host has gone through `commands`, first to last,
    /// where some steps may have failed: step `k` is carried out unless
    /// `carried[k]` says that it failed, and a failed step changes nothing. A
    /// step without an entry in `carried` counts as carried out.
    pub open spec fn after_outcomes(self, commands: Seq<Command>, carried: Seq<bool>) -> Surface
        decreases commands.len(),
    {
        if commands.len() == 0 {
            self
        } else {
            let before = self.after_outcomes(commands.drop_last(), carried);
            if step_carried(carried, commands.len() - 1) {
                before.after(commands.last())
            } else {
                before
            }
        }
    }

    /// The surface after a close request to which the shell replied with
    /// `reply`: the host destroys the window unless the reply refuses the
    /// close.
    pub open spec fn after_close_request(self, reply: Seq<Command>) -> Surface {
        let next = self.after_all(reply);
        if reply.contains(Command::PreventClose) {
            next
        } else {
            Surface { window_open: false, window_visible: false, window_focused: false, ..next }
        }
    }

    /// A surface right after start, with the always-on-top facets at
    /// `always_on_top`.
    pub fn new(always_on_top: bool) -> (surface: Surface)
        ensures
            surface == Self::fresh(always_on_top),
    {
        Surface {
            theme: ThemeChecks::for_mode(AppearanceMode::System),
            always_on_top_checked: always_on_top,
            window_open: true,
            window_visible: true,
            window_focused: false,
            window_always_on_top: always_on_top,
            exit_code: None,
        }
    }

    /// The checkmark of a checkable entry; `None` for an entry without one.
    pub fn is_checked(&self, entry: MenuIdentifier) -> (mark: Option<bool>)
        ensures
            mark == self.checkmark(entry),
            mark is Some <==> entry.is_checkable(),
    {
        match entry {
            MenuIdentifier::ThemeSystem => Some(self.theme.system),
            MenuIdentifier::ThemeLight => Some(self.theme.light),
            MenuIdentifier::ThemeDark => Some(self.theme.dark),
            MenuIdentifier::AlwaysOnTop => Some(self.always_on_top_checked),
            _ => None,
        }
    }

    /// Carries out one command.
    pub fn apply(&mut self, command: Command)
        ensures
            *final(self) == old(self).after(command),
    {
        match command {
            Command::SetChecked { item, checked } => match item {
                MenuIdentifier::ThemeSystem => {
                    self.theme.system = checked;
                },
                MenuIdentifier::ThemeLight => {
                    self.theme.light = checked;
                },
                MenuIdentifier::ThemeDark => {
                    self.theme.dark = checked;
                },
                MenuIdentifier::AlwaysOnTop => {
                    self.always_on_top_checked = checked;
                },
                _ => {},
            },
            Command::SetWindowAlwaysOnTop(value) => {
                if self.window_open {
                    self.window_always_on_top = value;
                }
            },
            Command::ShowWindow => {
                if self.window_open {
                    self.window_visible = true;
                }
            },
            Command::HideWindow => {
                if self.window_open {
                    self.window_visible = false;
                }
            },
            Command::FocusWindow => {
                if self.window_open {
                    self.window_focused = true;
                }
            },
            Command::Exit(code) => {
                if self.exit_code.is_none() {
                    self.exit_code = Some(code);
                }
            },
            Command::Notify(_) | Command::PreventClose => {},
        }
    }

    /// Carries out a list of commands, first to last.
    pub fn apply_all(&mut self, commands: &Vec<Command>)
        ensures
            *final(self) == old(self).after_all(commands@),
    {
        let mut i: usize = 0;
        while i < commands.len()
            invariant
                i <= commands.len(),
                *self == old(self).after_all(commands@.take(i as int)),
            decreases commands.len() - i,
        {
            proof {
                assert(commands@.take(i + 1).drop_last() =~= commands@.take(i as int));
            }
            self.apply(commands[i]);
            i += 1;
        }
        proof {
            assert(commands@.take(i as int) =~= commands@);
        }
    }

    /// Goes through a list of commands, first to last, of which some steps
    /// fail: step `k` is skipped where `carried[k]` is `false`.
    pub fn apply_outcomes(&mut self, commands: &Vec<Command>, carried: &Vec<bool>)
        ensures
            *final(self) == old(self).after_outcomes(commands@, carried@),
    {
        let mut i: usize = 0;
        while i < commands.len()
            invariant
                i <= commands.len(),
                *self == old(self).after_outcomes(commands@.take(i as int), carried@),
            decreases commands.len() - i,
        {
            proof {
                assert(commands@.take(i + 1).drop_last() =~= commands@.take(i as int));
            }
            if i >= carried.len() || carried[i] {
                self.apply(commands[i]);
            }
            i += 1;
        }
        proof {
            assert(commands@.take(i as int) =~= commands@);
        }
    }

    /// Delivers a close request to which the shell replied with `reply`: the
    /// reply is carried out, and the window is destroyed unless the reply
    /// refuses the close.
    pub fn close_requested(&mut self, reply: &Vec<Command>)
        ensures
            *final(self) == old(self).after_close_request(reply@),
    {
        self.apply_all(reply);
        let refused = refuses_close(reply);
        if !refused {
            self.window_open = false;
            self.window_visible = false;
            self.window_focused = false;
        }
    }
}

/// Whether step `k` was carried out: it was, unless `carried[k]` says that it
/// failed.
pub open spec fn step_carried(carried: Seq<bool>, k: int) -> bool {
    0 <= k < carried.len() ==> carried[k]
}

/// Going through a list and then one more command is going through the longer
/// list.
pub proof fn lemma_after_outcomes_push(
    surface: Surface,
    commands: Seq<Command>,
    last: Command,
    carried: Seq<bool>,
)
    ensures
        surface.after_outcomes(commands.push(last), carried) == if step_carried(
            carried,
            commands.len() as int,
        ) {
            surface.after_outcomes(commands, carried).after(last)
        } else {
            surface.after_outcomes(commands, carried)
        },
{
    assert(commands.push(last).drop_last() =~= commands);
}

/// Where no step fails, going through a list is carrying it out.
pub proof fn lemma_no_failure_carries_all_out(
    surface: Surface,
    commands: Seq<Command>,
    carried: Seq<bool>,
)
    requires
        forall|k: int| 0 <= k < commands.len() ==> step_carried(carried, k),
    ensures
        surface.after_outcomes(commands, carried) == surface.after_all(commands),
    decreases commands.len(),
{
    if commands.len() > 0 {
        lemma_no_failure_carries_all_out(surface, commands.drop_last(), carried);
    }
}

/// Carrying out a list and then one more command is carrying out the longer
/// list.
pub proof fn lemma_after_all_push(surface: Surface, commands: Seq<Command>, last: Command)
    ensures
        surface.after_all(commands.push(last)) == surface.after_all(commands).after(last),
{
    assert(commands.push(last).drop_last() =~= commands);
}

} // verus!
