//! The three-way theme selection and its radio group of checkmarks.

use crate::identifier::{lemma_named_inverts_token, MenuIdentifier};
use crate::text::same_text;
use vstd::prelude::*;

verus! {

/// The theme that the content view is asked to use.
#[derive(Clone, Copy, Debug, PartialEq, Eq, Structural)]
pub enum AppearanceMode {
    System,
    Light,
    Dark,
}

impl AppearanceMode {
    /// The token that stands for this theme in a notification.
    pub open spec fn token(self) -> Seq<char> {
        match self {
            AppearanceMode::System => "system"@,
            AppearanceMode::Light => "light"@,
            AppearanceMode::Dark => "dark"@,
        }
    }

    /// The menu entry that selects this theme.
    pub open spec fn entry(self) -> MenuIdentifier {
        match self {
            AppearanceMode::System => MenuIdentifier::ThemeSystem,
            AppearanceMode::Light => MenuIdentifier::ThemeLight,
            AppearanceMode::Dark => MenuIdentifier::ThemeDark,
        }
    }

    /// The theme that an identifier resolves to: the light and the dark entry
    /// name their theme, and every other identifier falls back to the system
    /// theme.
    pub open spec fn resolved(id: Seq<char>) -> AppearanceMode {
        if id == MenuIdentifier::ThemeLight.token() {
            AppearanceMode::Light
        } else if id == MenuIdentifier::ThemeDark.token() {
            AppearanceMode::Dark
        } else {
            AppearanceMode::System
        }
    }

    /// The token as a string slice.
    pub fn as_str(self) -> (token: &'static str)
        ensures
            token@ == self.token(),
    {
        match self {
            AppearanceMode::System => "system",
            AppearanceMode::Light => "light",
            AppearanceMode::Dark => "dark",
        }
    }

    /// The menu entry that selects this theme.
    pub fn menu_entry(self) -> (entry: MenuIdentifier)
        ensures
            entry == self.entry(),
    {
        match self {
            AppearanceMode::System => MenuIdentifier::ThemeSystem,
            AppearanceMode::Light => MenuIdentifier::ThemeLight,
            AppearanceMode::Dark => MenuIdentifier::ThemeDark,
        }
    }

    /// Resolves an identifier to a theme, falling back to the system theme.
    pub fn from_identifier(id: &str) -> (mode: AppearanceMode)
        ensures
            mode == Self::resolved(id@),
    {
        if same_text(id, "theme_light") {
            AppearanceMode::Light
        } else if same_text(id, "theme_dark") {
            AppearanceMode::Dark
        } else {
            AppearanceMode::System
        }
    }
}

/// The checkmarks of the three theme entries.
///
/// The toolkit does not know that the entries form a radio group, so each
/// checkmark is a free boolean and the group is kept exclusive by hand.
#[derive(Clone, Copy, Debug, PartialEq, Eq, Structural)]
pub struct ThemeChecks {
    pub system: bool,
    pub light: bool,
    pub dark: bool,
}

impl ThemeChecks {
    /// The checkmarks that show `mode` and nothing else.
    pub open spec fn showing(mode: AppearanceMode) -> ThemeChecks {
        ThemeChecks {
            system: mode is System,
            light: mode is Light,
            dark: mode is Dark,
        }
    }

    /// The checkmarks that an activation of `id` asks for: each entry is
    /// checked exactly when `id` is its own token.
    pub open spec fn selecting(id: Seq<char>) -> ThemeChecks {
        ThemeChecks {
            system: id == MenuIdentifier::ThemeSystem.token(),
            light: id == MenuIdentifier::ThemeLight.token(),
            dark: id == MenuIdentifier::ThemeDark.token(),
        }
    }

    /// Exactly one of the three checkmarks is set.
    pub open spec fn is_radio(self) -> bool {
        (if self.system { 1int } else { 0int }) + (if self.light { 1int } else { 0int })
            + (if self.dark { 1int } else { 0int }) == 1
    }

    /// The theme that the group shows, where it shows exactly one.
    pub open spec fn shown(self) -> Option<AppearanceMode> {
        if self == Self::showing(AppearanceMode::System) {
            Some(AppearanceMode::System)
        } else if self == Self::showing(AppearanceMode::Light) {
            Some(AppearanceMode::Light)
        } else if self == Self::showing(AppearanceMode::Dark) {
            Some(AppearanceMode::Dark)
        } else {
            None
        }
    }

    /// The checkmark of one entry; `None` for an entry outside the group.
    pub open spec fn of(self, entry: MenuIdentifier) -> Option<bool> {
        match entry {
            MenuIdentifier::ThemeSystem => Some(self.system),
            MenuIdentifier::ThemeLight => Some(self.light),
            MenuIdentifier::ThemeDark => Some(self.dark),
            _ => None,
        }
    }

    /// The checkmarks that show `mode` and nothing else.
    pub fn for_mode(mode: AppearanceMode) -> (checks: ThemeChecks)
        ensures
            checks == Self::showing(mode),
    {
        ThemeChecks {
            system: matches!(mode, AppearanceMode::System),
            light: matches!(mode, AppearanceMode::Light),
            dark: matches!(mode, AppearanceMode::Dark),
        }
    }

    /// The checkmarks that an activation of `id` asks for.
    pub fn for_identifier(id: &str) -> (checks: ThemeChecks)
        ensures
            checks == Self::selecting(id@),
    {
        ThemeChecks {
            system: same_text(id, "theme_system"),
            light: same_text(id, "theme_light"),
            dark: same_text(id, "theme_dark"),
        }
    }

    /// The theme that the group shows; `None` unless exactly one checkmark is
    /// set.
    pub fn selected(&self) -> (mode: Option<AppearanceMode>)
        ensures
            mode == self.shown(),
            mode is Some <==> self.is_radio(),
    {
        if self.system && !self.light && !self.dark {
            Some(AppearanceMode::System)
        } else if !self.system && self.light && !self.dark {
            Some(AppearanceMode::Light)
        } else if !self.system && !self.light && self.dark {
            Some(AppearanceMode::Dark)
        } else {
            None
        }
    }
}

/// Activating a theme entry asks for the radio group that shows the theme the
/// entry resolves to; any other identifier asks for an empty group.
pub proof fn lemma_selection_is_radio(id: Seq<char>)
    ensures
        match MenuIdentifier::named(id) {
            Some(MenuIdentifier::ThemeSystem)
            | Some(MenuIdentifier::ThemeLight)
            | Some(MenuIdentifier::ThemeDark) => {
                &&& ThemeChecks::selecting(id).is_radio()
                &&& ThemeChecks::selecting(id) == ThemeChecks::showing(AppearanceMode::resolved(id))
                &&& AppearanceMode::resolved(id).entry().token() == id
            },
            _ => {
                &&& !ThemeChecks::selecting(id).system
                &&& !ThemeChecks::selecting(id).light
                &&& !ThemeChecks::selecting(id).dark
                &&& AppearanceMode::resolved(id) == AppearanceMode::System
            },
        },
{
    lemma_named_inverts_token(id, MenuIdentifier::ThemeSystem);
    lemma_named_inverts_token(id, MenuIdentifier::ThemeLight);
    lemma_named_inverts_token(id, MenuIdentifier::ThemeDark);
}

} // verus!
