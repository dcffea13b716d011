//! The settings store: one record of configuration, read and replaced field
//! by field.
use vstd::prelude::*;
use vstd::string::*;
use crate::locale::{Locale, locale_code, locale_named};
use crate::shortcut::{
    accelerator, accelerator_of, Platform, RegistrationOutcome, ShortcutError, ShortcutPlan,
};

verus! {

/// The settings as values.
pub struct SettingsView {
    pub sound_enabled: bool,
    pub shortcut_key: Seq<char>,
    pub shortcut_modifier: Seq<char>,
    pub auto_paste_enabled: bool,
    pub current_model: Seq<char>,
    pub current_style: Seq<char>,
    pub locale: Locale,
}

/// The settings at start-up.
pub open spec fn default_settings() -> SettingsView {
    SettingsView {
        sound_enabled: true,
        shortcut_key: "]"@,
        shortcut_modifier: "CmdOrCtrl+Shift"@,
        auto_paste_enabled: false,
        current_model: "gpt-4o-mini"@,
        current_style: "grammar"@,
        locale: Locale::En,
    }
}

/// Why a setting was refused.
#[derive(Debug)]
pub enum SettingsError {
    /// The locale code is not one of the supported ones.
    InvalidLocale(String),
}

impl SettingsError {
    /// The message reported to the caller.
    pub fn message(&self) -> (r: String)
        ensures
            r@ == match self {
                SettingsError::InvalidLocale(l) => "Invalid locale: "@ + l@,
            },
    {
        match self {
            SettingsError::InvalidLocale(l) => {
                let mut r = String::from_str("Invalid locale: ");
                r.append(l.as_str());
                r
            },
        }
    }
}

/// The application's settings. Getters hand out copies.
pub struct Settings {
    sound_enabled: bool,
    shortcut_key: String,
    shortcut_modifier: String,
    auto_paste_enabled: bool,
    current_model: String,
    current_style: String,
    locale: Locale,
}

impl View for Settings {
    type V = SettingsView;

    closed spec fn view(&self) -> SettingsView {
        SettingsView {
            sound_enabled: self.sound_enabled,
            shortcut_key: self.shortcut_key@,
            shortcut_modifier: self.shortcut_modifier@,
            auto_paste_enabled: self.auto_paste_enabled,
            current_model: self.current_model@,
            current_style: self.current_style@,
            locale: self.locale,
        }
    }
}

impl Settings {
    /// The hotkey always has a key.
    pub open spec fn wf(&self) -> bool {
        self@.shortcut_key.len() > 0
    }

    /// The settings at start-up: sound on, hotkey primary+Shift+"]",
    /// auto-paste off, model "gpt-4o-mini", style "grammar", English.
    pub fn new() -> (r: Settings)
        ensures
            r@ == default_settings(),
            r.wf(),
    {
        proof {
            reveal_strlit("]");
        }
        Settings {
            sound_enabled: true,
            shortcut_key: String::from_str("]"),
            shortcut_modifier: String::from_str("CmdOrCtrl+Shift"),
            auto_paste_enabled: false,
            current_model: String::from_str("gpt-4o-mini"),
            current_style: String::from_str("grammar"),
            locale: Locale::En,
        }
    }

    pub fn set_sound_enabled(&mut self, enabled: bool)
        ensures
            final(self)@ == (SettingsView { sound_enabled: enabled, ..old(self)@ }),
            final(self).wf() == old(self).wf(),
    {
        self.sound_enabled = enabled;
    }

    pub fn get_sound_enabled(&self) -> (r: bool)
        ensures
            r == self@.sound_enabled,
    {
        self.sound_enabled
    }

    pub fn set_auto_paste_enabled(&mut self, enabled: bool)
        ensures
            final(self)@ == (SettingsView { auto_paste_enabled: enabled, ..old(self)@ }),
            final(self).wf() == old(self).wf(),
    {
        self.auto_paste_enabled = enabled;
    }

    pub fn get_auto_paste_enabled(&self) -> (r: bool)
        ensures
            r == self@.auto_paste_enabled,
    {
        self.auto_paste_enabled
    }

    /// Replaces the model and the style, each only where one is given.
    pub fn set_correction_settings(&mut self, model: Option<String>, style: Option<String>)
        ensures
            final(self)@ == (SettingsView {
                current_model: match model {
                    Some(m) => m@,
                    None => old(self)@.current_model,
                },
                current_style: match style {
                    Some(s) => s@,
                    None => old(self)@.current_style,
                },
                ..old(self)@
            }),
            final(self).wf() == old(self).wf(),
    {
        if let Some(m) = model {
            self.current_model = m;
        }
        if let Some(s) = style {
            self.current_style = s;
        }
    }

    pub fn get_current_model(&self) -> (r: String)
        ensures
            r@ == self@.current_model,
    {
        self.current_model.clone()
    }

    pub fn get_current_style(&self) -> (r: String)
        ensures
            r@ == self@.current_style,
    {
        self.current_style.clone()
    }

    /// Sets the locale by its code; an unsupported code is refused and the
    /// locale stays as it was.
    pub fn set_locale(&mut self, locale: &str) -> (r: Result<(), SettingsError>)
        ensures
            match locale_named(locale@) {
                Some(l) => r is Ok && final(self)@ == (SettingsView { locale: l, ..old(self)@ }),
                None => final(self)@ == old(self)@ && match r {
                    Err(SettingsError::InvalidLocale(s)) => s@ == locale@,
                    Ok(_) => false,
                },
            },
            final(self).wf() == old(self).wf(),
    {
        match Locale::from_code(locale) {
            Some(l) => {
                self.locale = l;
                Ok(())
            },
            None => Err(SettingsError::InvalidLocale(String::from_str(locale))),
        }
    }

    pub fn locale(&self) -> (r: Locale)
        ensures
            r == self@.locale,
    {
        self.locale
    }

    /// The code of the current locale.
    pub fn get_locale(&self) -> (r: String)
        ensures
            r@ == locale_code(self@.locale),
    {
        self.locale.code()
    }

    pub fn get_shortcut_key(&self) -> (r: String)
        ensures
            r@ == self@.shortcut_key,
    {
        self.shortcut_key.clone()
    }

    pub fn get_shortcut_modifier(&self) -> (r: String)
        ensures
            r@ == self@.shortcut_modifier,
    {
        self.shortcut_modifier.clone()
    }

    /// The accelerator bound now on `platform`.
    pub fn current_accelerator(&self, platform: Platform) -> (r: String)
        ensures
            r@ == accelerator_of(self@.shortcut_modifier, self@.shortcut_key, platform),
    {
        accelerator(self.shortcut_modifier.as_str(), self.shortcut_key.as_str(), platform)
    }

    /// The accelerators of a change of hotkey to `new_modifier` + `new_key`:
    /// unregister `current`, register `requested`, and if that fails
    /// register `current` again.
    pub fn shortcut_plan(&self, new_key: &str, new_modifier: &str, platform: Platform) -> (r: ShortcutPlan)
        ensures
            r.current@ == accelerator_of(self@.shortcut_modifier, self@.shortcut_key, platform),
            r.requested@ == accelerator_of(new_modifier@, new_key@, platform),
    {
        ShortcutPlan {
            current: self.current_accelerator(platform),
            requested: accelerator(new_modifier, new_key, platform),
        }
    }

    /// Completes a change of hotkey once the requested accelerator's
    /// registration has been tried. Key and modifier change together, and
    /// only when it was registered and the key is not empty; on any error
    /// both stay as they were (and the caller registers the current
    /// accelerator again).
    pub fn update_shortcut(&mut self, new_key: String, new_modifier: String, outcome: RegistrationOutcome) -> (r: Result<(), ShortcutError>)
        requires
            old(self).wf(),
        ensures
            final(self).wf(),
            r is Ok <==> (outcome is Registered && new_key@.len() > 0),
            r is Ok ==> final(self)@ == (SettingsView {
                shortcut_key: new_key@,
                shortcut_modifier: new_modifier@,
                ..old(self)@
            }),
            r is Err ==> final(self)@ == old(self)@,
            match outcome {
                RegistrationOutcome::Registered => new_key@.len() == 0 ==> r == Err::<(), ShortcutError>(ShortcutError::EmptyKey),
                RegistrationOutcome::InvalidFormat(e) => r == Err::<(), ShortcutError>(ShortcutError::InvalidFormat(e)),
                RegistrationOutcome::Rejected(e) => r == Err::<(), ShortcutError>(ShortcutError::RegistrationFailed(e)),
            },
    {
        match outcome {
            RegistrationOutcome::Registered => {
                if new_key.as_str().unicode_len() == 0 {
                    Err(ShortcutError::EmptyKey)
                } else {
                    self.shortcut_key = new_key;
                    self.shortcut_modifier = new_modifier;
                    Ok(())
                }
            },
            RegistrationOutcome::InvalidFormat(e) => Err(ShortcutError::InvalidFormat(e)),
            RegistrationOutcome::Rejected(e) => Err(ShortcutError::RegistrationFailed(e)),
        }
    }
}

} // verus!
