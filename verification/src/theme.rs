use vstd::prelude::*;

verus! {

/// Visual theme of the application's interface.
///
/// The theme is the only setting that survives a restart: it is restored by
/// name from the loaded configuration at start-up and written back whenever
/// a new theme is applied.
#[derive(Clone, Copy, Debug, PartialEq, Eq, Structural)]
pub enum Theme {
    /// The built-in default theme.
    Lupin,
    Dark,
    Light,
}

impl Theme {
    /// The theme used whenever no stored choice is available or recognized.
    pub open spec fn spec_default() -> Theme {
        Theme::Lupin
    }

    /// The name under which this theme is stored in the configuration.
    pub open spec fn spec_name(self) -> Seq<char> {
        match self {
            Theme::Lupin => "Lupin"@,
            Theme::Dark => "Dark"@,
            Theme::Light => "Light"@,
        }
    }

    /// Total mapping from a stored name to a theme: unrecognized names fall
    /// back to the default theme instead of failing.
    pub open spec fn spec_from_name(name: Seq<char>) -> Theme {
        if name == "Lupin"@ {
            Theme::Lupin
        } else if name == "Dark"@ {
            Theme::Dark
        } else if name == "Light"@ {
            Theme::Light
        } else {
            Theme::spec_default()
        }
    }

    /// The name under which this theme is stored in the configuration.
    pub fn name(&self) -> (n: &'static str)
        ensures
            n@ == self.spec_name(),
    {
        match self {
            Theme::Lupin => "Lupin",
            Theme::Dark => "Dark",
            Theme::Light => "Light",
        }
    }

    /// Parses a stored theme name. Parsing is total: an unrecognized name
    /// yields the default theme, and no error reaches the caller.
    pub fn from_name(name: &str) -> (t: Theme)
        ensures
            t == Theme::spec_from_name(name@),
    {
        if str_eq(name, "Lupin") {
            Theme::Lupin
        } else if str_eq(name, "Dark") {
            Theme::Dark
        } else if str_eq(name, "Light") {
            Theme::Light
        } else {
            Theme::Lupin
        }
    }

    /// Every theme in the order it is offered for selection.
    pub fn all() -> (themes: Vec<Theme>)
        ensures
            themes@ == seq![Theme::Lupin, Theme::Dark, Theme::Light],
    {
        let mut themes: Vec<Theme> = Vec::new();
        themes.push(Theme::Lupin);
        themes.push(Theme::Dark);
        themes.push(Theme::Light);
        proof {
            assert(themes@ =~= seq![Theme::Lupin, Theme::Dark, Theme::Light]);
        }
        themes
    }
}

impl Default for Theme {
    fn default() -> (t: Theme)
        ensures
            t == Theme::spec_default(),
    {
        Theme::Lupin
    }
}

/// Character-for-character equality of two string slices.
fn str_eq(a: &str, b: &str) -> (r: bool)
    ensures
        r == (a@ == b@),
{
    a.to_owned() == b.to_owned()
}

/// Law: every stored name other than the recognized ones parses to the
/// default theme.
pub proof fn lemma_unrecognized_name_gives_default(name: Seq<char>)
    requires
        name != "Lupin"@,
        name != "Dark"@,
        name != "Light"@,
    ensures
        Theme::spec_from_name(name) == Theme::spec_default(),
{
}

/// Law: a theme's stored name parses back to that theme, so the selected
/// theme survives a save and a reload.
pub proof fn lemma_name_round_trip(t: Theme)
    ensures
        Theme::spec_from_name(t.spec_name()) == t,
{
    reveal_strlit("Lupin");
    reveal_strlit("Dark");
    reveal_strlit("Light");
    assert("Dark"@.len() == 4);
    assert("Lupin"@.len() == 5);
    assert("Light"@.len() == 5);
    assert("Lupin"@[1] == 'u');
    assert("Light"@[1] == 'i');
}

} // verus!
