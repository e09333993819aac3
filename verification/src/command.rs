//! What a handler asks the host to do.

use crate::appearance::AppearanceMode;
use crate::identifier::MenuIdentifier;
use vstd::prelude::*;

verus! {

/// A signal to the content view: an event name and a payload, sent once for
/// the user action that caused it and never acknowledged.
#[derive(Clone, Copy, Debug, PartialEq, Eq, Structural)]
pub enum Notification {
    /// The user picked a theme; the payload is the theme's token.
    ThemeChange(AppearanceMode),
    /// The always-on-top flag was toggled; the payload is its new value.
    AlwaysOnTopChanged(bool),
}

impl Notification {
    /// The event name under which the content view listens.
    pub open spec fn name(self) -> Seq<char> {
        match self {
            Notification::ThemeChange(_) => "menu-theme-change"@,
            Notification::AlwaysOnTopChanged(_) => "menu-always-on-top-changed"@,
        }
    }

    /// The event name as a string slice.
    pub fn event_name(self) -> (name: &'static str)
        ensures
            name@ == self.name(),
    {
        match self {
            Notification::ThemeChange(_) => "menu-theme-change",
            Notification::AlwaysOnTopChanged(_) => "menu-always-on-top-changed",
        }
    }
}

/// One step that the host carries out on the live surface.
///
/// Every step is best effort: where the host cannot carry one out, it goes on
/// with the next, and nothing is retried.
#[derive(Clone, Copy, Debug, PartialEq, Eq, Structural)]
pub enum Command {
    /// Set the checkmark of a checkable menu entry.
    SetChecked { item: MenuIdentifier, checked: bool },
    /// Set the always-on-top attribute of the main window.
    SetWindowAlwaysOnTop(bool),
    /// Send a notification to the content view.
    Notify(Notification),
    /// Make the main window visible.
    ShowWindow,
    /// Take the main window off the screen without destroying it.
    HideWindow,
    /// Give the main window the input focus.
    FocusWindow,
    /// Refuse the close request that is being handled.
    PreventClose,
    /// End the process with this exit code.
    Exit(i32),
}

/// Whether a reply to a close request refuses the close.
pub fn refuses_close(reply: &Vec<Command>) -> (refused: bool)
    ensures
        refused == reply@.contains(Command::PreventClose),
{
    let mut i: usize = 0;
    while i < reply.len()
        invariant
            i <= reply.len(),
            forall|k: int| 0 <= k < i ==> reply@[k] != Command::PreventClose,
        decreases reply.len() - i,
    {
        if matches!(reply[i], Command::PreventClose) {
            return true;
        }
        i += 1;
    }
    false
}

/// The notifications among `commands`, in the order in which they are sent.
pub open spec fn notified(commands: Seq<Command>) -> Seq<Notification>
    decreases commands.len(),
{
    if commands.len() == 0 {
        Seq::empty()
    } else {
        let earlier = notified(commands.drop_last());
        match commands.last() {
            Command::Notify(notification) => earlier.push(notification),
            _ => earlier,
        }
    }
}

/// Collects the notifications among `commands`, in the order in which they
/// are sent.
pub fn notifications(commands: &Vec<Command>) -> (sent: Vec<Notification>)
    ensures
        sent@ == notified(commands@),
{
    let mut sent: Vec<Notification> = Vec::new();
    let mut i: usize = 0;
    while i < commands.len()
        invariant
            i <= commands.len(),
            sent@ == notified(commands@.take(i as int)),
        decreases commands.len() - i,
    {
        proof {
            assert(commands@.take(i + 1).drop_last() =~= commands@.take(i as int));
        }
        match commands[i] {
            Command::Notify(notification) => {
                sent.push(notification);
            },
            _ => {},
        }
        i += 1;
    }
    proof {
        assert(commands@.take(i as int) =~= commands@);
    }
    sent
}

/// The notifications of a list with one more command at its end.
pub proof fn lemma_notified_push(commands: Seq<Command>, last: Command)
    ensures
        notified(commands.push(last)) == match last {
            Command::Notify(notification) => notified(commands).push(notification),
            _ => notified(commands),
        },
{
    assert(commands.push(last).drop_last() =~= commands);
}

} // verus!
