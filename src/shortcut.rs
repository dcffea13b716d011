//! Accelerator strings for the global hotkey, and the outcomes of
//! registering one.
use vstd::prelude::*;
use vstd::string::*;
use crate::text::{replace_text, replaced};

verus! {

/// The platform family, as far as accelerators and input injection differ.
#[derive(Clone, Copy, Debug, PartialEq, Eq, Structural)]
pub enum Platform {
    /// The platform with restrictive input-injection controls.
    MacOs,
    Other,
}

/// The accelerator name of the primary modifier on `p`.
pub open spec fn primary_modifier(p: Platform) -> Seq<char> {
    match p {
        Platform::MacOs => "Cmd"@,
        Platform::Other => "Ctrl"@,
    }
}

/// A modifier combination with its generic tokens translated for `p`.
pub open spec fn platform_modifier(modifier: Seq<char>, p: Platform) -> Seq<char> {
    replaced(replaced(modifier, "CmdOrCtrl"@, primary_modifier(p)), "AltOrOption"@, "Alt"@)
}

/// The accelerator string binding `key` with `modifier` on `p`.
pub open spec fn accelerator_of(modifier: Seq<char>, key: Seq<char>, p: Platform) -> Seq<char> {
    platform_modifier(modifier, p) + "+"@ + key
}

/// Translates the generic modifier tokens of `modifier` for `platform`:
/// "CmdOrCtrl" becomes the primary modifier, "AltOrOption" becomes "Alt".
pub fn convert_modifier_to_platform(modifier: &str, platform: Platform) -> (r: String)
    ensures
        r@ == platform_modifier(modifier@, platform),
{
    proof {
        reveal_strlit("CmdOrCtrl");
        reveal_strlit("AltOrOption");
    }
    let primary = match platform {
        Platform::MacOs => "Cmd",
        Platform::Other => "Ctrl",
    };
    let first = replace_text(modifier, "CmdOrCtrl", primary);
    replace_text(first.as_str(), "AltOrOption", "Alt")
}

/// The accelerator string binding `key` with `modifier` on `platform`.
pub fn accelerator(modifier: &str, key: &str, platform: Platform) -> (r: String)
    ensures
        r@ == accelerator_of(modifier@, key@, platform),
{
    let mut r = convert_modifier_to_platform(modifier, platform);
    r.append("+");
    r.append(key);
    r
}

/// The accelerators involved in rebinding the hotkey: the one bound now,
/// which is unregistered first and registered again if the change fails,
/// and the one requested.
pub struct ShortcutPlan {
    pub current: String,
    pub requested: String,
}

/// The registrations that follow a decided change of hotkey.
pub struct Rollback {
    /// The accelerator to unregister, if any.
    pub unregister: Option<String>,
    /// The accelerator to register again, if any (after `unregister`).
    pub register: Option<String>,
}

impl ShortcutPlan {
    /// What to undo once the change has been decided. After any refusal the
    /// current accelerator is registered again, so the old binding stays
    /// live. Only an empty key is refused after the requested accelerator
    /// was registered, so only then is that one unregistered first. After a
    /// success nothing is undone.
    pub fn rollback(&self, result: &Result<(), ShortcutError>) -> (r: Rollback)
        ensures
            result is Ok ==> r.unregister is None && r.register is None,
            result matches Err(ShortcutError::EmptyKey) ==> (r.unregister matches Some(u) && u@ == self.requested@),
            (result matches Err(e) && !(e is EmptyKey)) ==> r.unregister is None,
            result is Err ==> (r.register matches Some(g) && g@ == self.current@),
    {
        match result {
            Ok(_) => Rollback { unregister: None, register: None },
            Err(ShortcutError::EmptyKey) => Rollback {
                unregister: Some(self.requested.clone()),
                register: Some(self.current.clone()),
            },
            Err(_) => Rollback { unregister: None, register: Some(self.current.clone()) },
        }
    }
}

/// What became of registering the requested accelerator.
pub enum RegistrationOutcome {
    Registered,
    /// The accelerator string could not be parsed; the parser's message.
    InvalidFormat(String),
    /// The system refused the binding; its message.
    Rejected(String),
}

/// Why a hotkey change was refused.
#[derive(Debug)]
pub enum ShortcutError {
    InvalidFormat(String),
    RegistrationFailed(String),
    EmptyKey,
}

impl ShortcutError {
    /// The message reported to the caller.
    pub fn message(&self) -> (r: String)
        ensures
            r@ == match self {
                ShortcutError::InvalidFormat(e) => "Invalid shortcut format: "@ + e@,
                ShortcutError::RegistrationFailed(e) => "Failed to register shortcut: "@ + e@,
                ShortcutError::EmptyKey => "Shortcut key must not be empty"@,
            },
    {
        match self {
            ShortcutError::InvalidFormat(e) => {
                let mut r = String::from_str("Invalid shortcut format: ");
                r.append(e.as_str());
                r
            },
            ShortcutError::RegistrationFailed(e) => {
                let mut r = String::from_str("Failed to register shortcut: ");
                r.append(e.as_str());
                r
            },
            ShortcutError::EmptyKey => String::from_str("Shortcut key must not be empty"),
        }
    }
}

} // verus!
