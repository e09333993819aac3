//! The fixed tokens by which menu entries are told apart.

use crate::text::same_text;
use vstd::prelude::*;

verus! {

/// An entry of the menu bar or of the tray menu that carries an identifier.
///
/// The identifier is the only coupling between a menu tree and the handlers:
/// the host reports an activation by the entry's token, wherever the entry
/// stands in the tree.
#[derive(Clone, Copy, Debug, PartialEq, Eq, Structural)]
pub enum MenuIdentifier {
    About,
    ThemeSystem,
    ThemeLight,
    ThemeDark,
    AlwaysOnTop,
    QuitApp,
    Show,
    Quit,
}

impl MenuIdentifier {
    /// The token under which the host knows this entry.
    pub open spec fn token(self) -> Seq<char> {
        match self {
            MenuIdentifier::About => "about"@,
            MenuIdentifier::ThemeSystem => "theme_system"@,
            MenuIdentifier::ThemeLight => "theme_light"@,
            MenuIdentifier::ThemeDark => "theme_dark"@,
            MenuIdentifier::AlwaysOnTop => "always_on_top"@,
            MenuIdentifier::QuitApp => "quit_app"@,
            MenuIdentifier::Show => "show"@,
            MenuIdentifier::Quit => "quit"@,
        }
    }

    /// The entry that the host means by `id`, if it means one.
    pub open spec fn named(id: Seq<char>) -> Option<MenuIdentifier> {
        if id == "about"@ {
            Some(MenuIdentifier::About)
        } else if id == "theme_system"@ {
            Some(MenuIdentifier::ThemeSystem)
        } else if id == "theme_light"@ {
            Some(MenuIdentifier::ThemeLight)
        } else if id == "theme_dark"@ {
            Some(MenuIdentifier::ThemeDark)
        } else if id == "always_on_top"@ {
            Some(MenuIdentifier::AlwaysOnTop)
        } else if id == "quit_app"@ {
            Some(MenuIdentifier::QuitApp)
        } else if id == "show"@ {
            Some(MenuIdentifier::Show)
        } else if id == "quit"@ {
            Some(MenuIdentifier::Quit)
        } else {
            None
        }
    }

    /// Whether this entry carries a checkmark.
    pub open spec fn is_checkable(self) -> bool {
        self is ThemeSystem || self is ThemeLight || self is ThemeDark || self is AlwaysOnTop
    }

    /// The token as a string slice.
    pub fn as_str(self) -> (token: &'static str)
        ensures
            token@ == self.token(),
    {
        match self {
            MenuIdentifier::About => "about",
            MenuIdentifier::ThemeSystem => "theme_system",
            MenuIdentifier::ThemeLight => "theme_light",
            MenuIdentifier::ThemeDark => "theme_dark",
            MenuIdentifier::AlwaysOnTop => "always_on_top",
            MenuIdentifier::QuitApp => "quit_app",
            MenuIdentifier::Show => "show",
            MenuIdentifier::Quit => "quit",
        }
    }

    /// The entry whose token is `id`; `None` where `id` is no entry's token.
    pub fn parse(id: &str) -> (found: Option<MenuIdentifier>)
        ensures
            found == Self::named(id@),
            match found {
                Some(entry) => entry.token() == id@,
                None => forall|entry: MenuIdentifier| entry.token() != id@,
            },
    {
        proof {
            assert forall|entry: MenuIdentifier| Self::named(id@) is None implies entry.token()
                != id@ by {
                lemma_named_inverts_token(id@, entry);
            }
        }
        if same_text(id, "about") {
            Some(MenuIdentifier::About)
        } else if same_text(id, "theme_system") {
            Some(MenuIdentifier::ThemeSystem)
        } else if same_text(id, "theme_light") {
            Some(MenuIdentifier::ThemeLight)
        } else if same_text(id, "theme_dark") {
            Some(MenuIdentifier::ThemeDark)
        } else if same_text(id, "always_on_top") {
            Some(MenuIdentifier::AlwaysOnTop)
        } else if same_text(id, "quit_app") {
            Some(MenuIdentifier::QuitApp)
        } else if same_text(id, "show") {
            Some(MenuIdentifier::Show)
        } else if same_text(id, "quit") {
            Some(MenuIdentifier::Quit)
        } else {
            None
        }
    }

    /// Whether this entry carries a checkmark.
    pub fn checkable(self) -> (yes: bool)
        ensures
            yes == self.is_checkable(),
    {
        match self {
            MenuIdentifier::ThemeSystem
            | MenuIdentifier::ThemeLight
            | MenuIdentifier::ThemeDark
            | MenuIdentifier::AlwaysOnTop => true,
            _ => false,
        }
    }
}

/// No two entries share a token.
pub proof fn lemma_tokens_are_distinct(a: MenuIdentifier, b: MenuIdentifier)
    requires
        a.token() == b.token(),
    ensures
        a == b,
{
    reveal_strlit("about");
    reveal_strlit("theme_system");
    reveal_strlit("theme_light");
    reveal_strlit("theme_dark");
    reveal_strlit("always_on_top");
    reveal_strlit("quit_app");
    reveal_strlit("show");
    reveal_strlit("quit");
    if a != b {
        let s = a.token();
        let t = b.token();
        assert(s.len() == t.len());
        assert(s[0] == t[0]);
        assert(s.len() > 6 ==> s[6] == t[6]);
    }
}

/// An identifier names an entry exactly when it is that entry's token.
pub proof fn lemma_named_inverts_token(id: Seq<char>, entry: MenuIdentifier)
    ensures
        MenuIdentifier::named(id) == Some(entry) <==> entry.token() == id,
{
    if entry.token() == id {
        match MenuIdentifier::named(id) {
            Some(other) => {
                lemma_tokens_are_distinct(other, entry);
            },
            None => {},
        }
    }
}

} // verus!
