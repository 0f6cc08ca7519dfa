use vstd::prelude::*;
use crate::text::{is_white_space, text_eq, trim_end, trim_start, trim_text, trimmed};

verus! {

/// The colour scheme of the user interface.
#[derive(Clone, Copy, Debug, PartialEq, Eq, Structural)]
pub enum Theme {
    Dark,
    Light,
}

/// The name under which a theme is stored.
pub open spec fn theme_name(t: Theme) -> Seq<char> {
    match t {
        Theme::Dark => "dark"@,
        Theme::Light => "light"@,
    }
}

/// The theme that a toggle switches to.
pub open spec fn toggled(t: Theme) -> Theme {
    match t {
        Theme::Dark => Theme::Light,
        Theme::Light => Theme::Dark,
    }
}

/// The theme a stored name selects: only the exact name of the light theme
/// selects it; any other stored text selects the dark theme.  Without a stored
/// name the platform preference decides.
pub open spec fn theme_selected(stored: Option<Seq<char>>, prefers_light: bool) -> Theme {
    match stored {
        Some(s) => if s == "light"@ { Theme::Light } else { Theme::Dark },
        None => if prefers_light { Theme::Light } else { Theme::Dark },
    }
}

impl Theme {
    /// The other theme.
    pub fn toggle(self) -> (r: Self)
        ensures
            r == toggled(self),
    {
        match self {
            Theme::Dark => Theme::Light,
            Theme::Light => Theme::Dark,
        }
    }

    /// The stored name of the theme.
    pub fn as_str(self) -> (r: &'static str)
        ensures
            r@ == theme_name(self),
    {
        match self {
            Theme::Dark => "dark",
            Theme::Light => "light",
        }
    }

    /// The icon of the button that switches away from this theme.
    pub fn label(self) -> (r: &'static str)
        ensures
            r@ == (match self {
                Theme::Dark => "☀️"@,
                Theme::Light => "🌙"@,
            }),
    {
        match self {
            Theme::Dark => "☀️",
            Theme::Light => "🌙",
        }
    }

    /// The theme selected by what the platform stored (`stored`) and by the
    /// platform's colour preference, used when nothing was stored.
    pub fn from_stored(stored: Option<&str>, prefers_light: bool) -> (r: Self)
        ensures
            r == theme_selected(
                match stored {
                    Some(s) => Some(s@),
                    None => None,
                },
                prefers_light,
            ),
    {
        match stored {
            Some(s) => {
                if text_eq(s, "light") {
                    Theme::Light
                } else {
                    Theme::Dark
                }
            },
            None => {
                if prefers_light {
                    Theme::Light
                } else {
                    Theme::Dark
                }
            },
        }
    }
}

/// The theme selected by the contents of the theme file, when it could be
/// read: light exactly when the contents, trimmed of white space, are the
/// name of the light theme.
pub fn from_file_text(text: Option<&str>) -> (r: Theme)
    ensures
        r == theme_selected(
            match text {
                Some(t) => Some(trimmed(t@)),
                None => None,
            },
            false,
        ),
{
    match text {
        Some(t) => {
            let s = trim_text(t);
            Theme::from_stored(Some(s.as_str()), false)
        },
        None => Theme::Dark,
    }
}

/// Toggling always changes the theme, and toggling twice gives back the
/// theme one started from.
pub proof fn lemma_toggle_involutive(t: Theme)
    ensures
        toggled(toggled(t)) == t,
        toggled(t) != t,
{
}

/// A persisted theme is detected again: the name under which a theme is
/// stored selects that same theme, whatever the platform preference.
pub proof fn lemma_stored_name_round_trip(t: Theme, prefers_light: bool)
    ensures
        theme_selected(Some(theme_name(t)), prefers_light) == t,
{
    reveal_strlit("dark");
    reveal_strlit("light");
    if t == Theme::Dark {
        assert(theme_name(t) != "light"@) by {
            assert(theme_name(t).len() != "light"@.len());
        }
    }
}

/// A theme written to the theme file is read back as the same theme: its
/// name has no surrounding white space to trim.
pub proof fn lemma_file_round_trip(t: Theme)
    ensures
        trimmed(theme_name(t)) == theme_name(t),
        theme_selected(Some(trimmed(theme_name(t))), false) == t,
{
    reveal_strlit("dark");
    reveal_strlit("light");
    let n = theme_name(t);
    assert(!is_white_space(n[0]));
    assert(trim_start(n) == n);
    assert(!is_white_space(n.last()));
    assert(trim_end(n) == n);
    lemma_stored_name_round_trip(t, false);
}

/// The two themes are stored under different names.
pub proof fn lemma_theme_names_distinct()
    ensures
        theme_name(Theme::Dark) != theme_name(Theme::Light),
{
    reveal_strlit("dark");
    reveal_strlit("light");
    assert(theme_name(Theme::Dark).len() != theme_name(Theme::Light).len());
}

} // verus!
