use vstd::prelude::*;

use crate::theme::Theme;

verus! {

/// Per-session toggles controlling how the connected device is treated.
///
/// None of these survives a restart: they are re-derived from the device's
/// platform API level each time the application starts.
#[derive(Clone, Copy, Debug, PartialEq, Eq, Structural)]
pub struct Phone {
    /// Permits operations on items flagged as unsafe. Always starts off.
    pub expert_mode: bool,
    /// Clears and disables affected items instead of removing them outright.
    /// Starts on for devices below API level 26, where removal cannot be
    /// undone.
    pub disable_mode: bool,
    /// Scopes an operation to every user profile of the device rather than
    /// only the active one. Starts on for devices above API level 21, which
    /// support several profiles.
    pub multi_user_mode: bool,
}

impl Phone {
    /// The default toggles derived from the device API level alone.
    pub open spec fn spec_defaults(api_level: u32) -> Phone {
        Phone {
            expert_mode: false,
            disable_mode: api_level < 26,
            multi_user_mode: api_level > 21,
        }
    }

    /// Derives the default toggles for a device. The API level is the only
    /// input: expert mode is always off, disable mode is on exactly below
    /// API level 26, and multi-user mode is on exactly above API level 21.
    pub fn defaults_for(api_level: u32) -> (p: Phone)
        ensures
            p == Phone::spec_defaults(api_level),
            !p.expert_mode,
            p.disable_mode == (api_level < 26),
            p.multi_user_mode == (api_level > 21),
    {
        Phone {
            expert_mode: false,
            disable_mode: api_level < 26,
            multi_user_mode: api_level > 21,
        }
    }
}

/// The settings of one session: the device toggles and the selected theme.
#[derive(Clone, Copy, Debug, PartialEq, Eq, Structural)]
pub struct Settings {
    pub phone: Phone,
    pub theme: Theme,
}

/// One discrete user intent, applied to the settings by [`Settings::update`].
#[derive(Clone, Copy, Debug, PartialEq, Eq, Structural)]
pub enum Message {
    /// Turn expert mode on or off.
    ExpertMode(bool),
    /// Turn disable mode on or off.
    DisableMode(bool),
    /// Turn multi-user mode on or off.
    MultiUserMode(bool),
    /// Select a new theme; the only message that is persisted.
    ApplyTheme(Theme),
}

impl Settings {
    /// The state constructed from the device API level and the stored theme
    /// name.
    pub open spec fn spec_new(api_level: u32, stored_theme_name: Seq<char>) -> Settings {
        Settings {
            phone: Phone::spec_defaults(api_level),
            theme: Theme::spec_from_name(stored_theme_name),
        }
    }

    /// Constructs the settings of a fresh session: the toggles take their
    /// defaults for the given device API level, and the theme is restored
    /// from its stored name, falling back to the default theme when the name
    /// is unrecognized.
    pub fn new(api_level: u32, stored_theme_name: &str) -> (s: Settings)
        ensures
            s == Settings::spec_new(api_level, stored_theme_name@),
            s.phone == Phone::spec_defaults(api_level),
            s.theme == Theme::spec_from_name(stored_theme_name@),
    {
        Settings {
            phone: Phone::defaults_for(api_level),
            theme: Theme::from_name(stored_theme_name),
        }
    }

    /// The state after one message: each message sets exactly one field and
    /// leaves the rest unchanged.
    pub open spec fn spec_update(self, msg: Message) -> Settings {
        match msg {
            Message::ExpertMode(on) => Settings {
                phone: Phone { expert_mode: on, ..self.phone },
                ..self
            },
            Message::DisableMode(on) => Settings {
                phone: Phone { disable_mode: on, ..self.phone },
                ..self
            },
            Message::MultiUserMode(on) => Settings {
                phone: Phone { multi_user_mode: on, ..self.phone },
                ..self
            },
            Message::ApplyTheme(t) => Settings { theme: t, ..self },
        }
    }

    /// Whether a message must be followed by a write-through to the
    /// configuration store.
    pub open spec fn spec_persists(msg: Message) -> bool {
        msg is ApplyTheme
    }

    /// Applies one message to the settings and returns whether the new state
    /// must be written through to the configuration store. Applying a theme
    /// is the only message that persists; the three toggles are session
    /// scoped and purely in-memory.
    pub fn update(&mut self, msg: Message) -> (persist: bool)
        ensures
            *final(self) == old(self).spec_update(msg),
            persist == Settings::spec_persists(msg),
    {
        match msg {
            Message::ExpertMode(on) => {
                self.phone.expert_mode = on;
                false
            },
            Message::DisableMode(on) => {
                self.phone.disable_mode = on;
                false
            },
            Message::MultiUserMode(on) => {
                self.phone.multi_user_mode = on;
                false
            },
            Message::ApplyTheme(t) => {
                self.theme = t;
                true
            },
        }
    }
}

/// Law: every message is idempotent — applying the same message twice leaves
/// the same state as applying it once.
pub proof fn lemma_update_idempotent(s: Settings, msg: Message)
    ensures
        s.spec_update(msg).spec_update(msg) == s.spec_update(msg),
{
}

/// Law: messages that set different fields act independently — after setting
/// expert mode and then multi-user mode, both hold their new values and the
/// other fields are untouched.
pub proof fn lemma_toggles_independent(s: Settings, a: bool, b: bool)
    ensures
        ({
            let s2 = s.spec_update(Message::ExpertMode(a)).spec_update(Message::MultiUserMode(b));
            &&& s2.phone.expert_mode == a
            &&& s2.phone.multi_user_mode == b
            &&& s2.phone.disable_mode == s.phone.disable_mode
            &&& s2.theme == s.theme
        }),
{
}

} // verus!
