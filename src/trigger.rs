//! The decisions taken when the global hotkey is pressed: whether to copy
//! the selection first, and what to do with the clipboard's text.
use vstd::prelude::*;
use vstd::string::*;
use crate::locale::{resolve, resolve_or, style_key, style_label_key, translate, translate_or, Catalog};
use crate::notify::{audible, detail_line, gate_sound, push_detail, Notice, NoticeKind, SoundCue};
use crate::settings::{Settings, SettingsView};
use crate::shortcut::{accelerator_of, primary_modifier, Platform};
use crate::text::{replace_text, replaced};

verus! {

/// The next thing to do for a hotkey press.
#[derive(Clone, Copy, Debug, PartialEq, Eq, Structural)]
pub enum TriggerStep {
    /// Ask the system whether input may be injected.
    CheckPermission,
    /// Simulate the copy keystroke, wait briefly, then read the clipboard.
    SimulateCopy,
    /// Read the clipboard's text.
    ReadClipboard,
    /// Show the notification of this kind and stop.
    Warn(NoticeKind),
    /// Stop without a word.
    Stop,
}

/// The first step of a hotkey press: with auto-paste on, the selection is
/// copied first, after a permission check where the platform needs one.
pub open spec fn first_step(auto_paste: bool, p: Platform) -> TriggerStep {
    if !auto_paste {
        TriggerStep::ReadClipboard
    } else if p == Platform::MacOs {
        TriggerStep::CheckPermission
    } else {
        TriggerStep::SimulateCopy
    }
}

/// The first step of a hotkey press.
pub fn on_hotkey(settings: &Settings, platform: Platform) -> (r: TriggerStep)
    ensures
        r == first_step(settings@.auto_paste_enabled, platform),
{
    if !settings.get_auto_paste_enabled() {
        TriggerStep::ReadClipboard
    } else {
        match platform {
            Platform::MacOs => TriggerStep::CheckPermission,
            Platform::Other => TriggerStep::SimulateCopy,
        }
    }
}

/// The step after the permission check: without permission the user is
/// told and the clipboard is not read.
pub fn on_permission_checked(granted: bool) -> (r: TriggerStep)
    ensures
        r == (if granted {
            TriggerStep::SimulateCopy
        } else {
            TriggerStep::Warn(NoticeKind::CopyPermissionRequired)
        }),
{
    if granted {
        TriggerStep::SimulateCopy
    } else {
        TriggerStep::Warn(NoticeKind::CopyPermissionRequired)
    }
}

/// The step after the copy keystroke: if it could not be sent, the press
/// ends there.
pub fn on_copy_simulated(sent: bool) -> (r: TriggerStep)
    ensures
        r == (if sent {
            TriggerStep::ReadClipboard
        } else {
            TriggerStep::Stop
        }),
{
    if sent {
        TriggerStep::ReadClipboard
    } else {
        TriggerStep::Stop
    }
}

/// What a hotkey press does with the clipboard's text.
pub struct Reaction {
    /// The text handed to the collaborator for correction, if any.
    pub request: Option<String>,
    pub notice: Notice,
    pub sound: Option<SoundCue>,
}

/// The key of the notice about an empty clipboard. Its text names the copy
/// keystroke as "{copy}" and the configured hotkey as "{shortcut}".
pub open spec fn empty_key() -> Seq<char> {
    "notifications.copyTextFirst"@
}

/// The text of the notice about an empty clipboard where no table has one.
pub open spec fn empty_fallback() -> Seq<char> {
    "Please copy text first ({copy}), then use {shortcut}"@
}

/// The notice about an empty clipboard in the current locale: copy first,
/// then press the hotkey as it is configured now.
pub open spec fn empty_body(cat: Catalog, s: SettingsView, p: Platform) -> Seq<char> {
    replaced(
        replaced(resolve_or(cat, s.locale, empty_key(), empty_fallback()), "{copy}"@, primary_modifier(p) + "+C"@),
        "{shortcut}"@,
        accelerator_of(s.shortcut_modifier, s.shortcut_key, p),
    )
}

/// The notice that a correction is under way, naming model and style.
pub open spec fn processing_body(cat: Catalog, s: SettingsView) -> Seq<char> {
    resolve(cat, s.locale, "notifications.processing"@) + detail_line(
        resolve(cat, s.locale, "notifications.model"@),
        s.current_model,
    ) + detail_line(
        resolve(cat, s.locale, "notifications.style"@),
        resolve(cat, s.locale, style_key(s.current_style)),
    )
}

/// Reacts to the clipboard's text. An empty clipboard brings a notice and
/// the "empty" cue and no request; any other text is requested for
/// correction exactly once, with a "processing" notice and cue.
pub fn on_clipboard_text(settings: &Settings, catalog: &Catalog, platform: Platform, text: String) -> (r: Reaction)
    ensures
        text@.len() == 0 ==> {
            &&& r.request is None
            &&& r.notice.title@ == resolve(*catalog, settings@.locale, "notifications.title"@)
            &&& r.notice.body@ == empty_body(*catalog, settings@, platform)
            &&& r.sound == audible(SoundCue::Empty, settings@.sound_enabled)
        },
        text@.len() > 0 ==> {
            &&& r.request == Some(text)
            &&& r.notice.title@ == resolve(*catalog, settings@.locale, "notifications.title"@)
            &&& r.notice.body@ == processing_body(*catalog, settings@)
            &&& r.sound == audible(SoundCue::Processing, settings@.sound_enabled)
        },
{
    let sound_enabled = settings.get_sound_enabled();
    let l = settings.locale();
    if text.as_str().unicode_len() == 0 {
        proof {
            reveal_strlit("{copy}");
            reveal_strlit("{shortcut}");
        }
        let template = translate_or(
            catalog,
            l,
            "notifications.copyTextFirst",
            "Please copy text first ({copy}), then use {shortcut}",
        );
        let mut copy = match platform {
            Platform::MacOs => String::from_str("Cmd"),
            Platform::Other => String::from_str("Ctrl"),
        };
        copy.append("+C");
        let with_copy = replace_text(template.as_str(), "{copy}", copy.as_str());
        let accel = settings.current_accelerator(platform);
        let body = replace_text(with_copy.as_str(), "{shortcut}", accel.as_str());
        return Reaction {
            request: None,
            notice: Notice { title: translate(catalog, l, "notifications.title"), body },
            sound: gate_sound(SoundCue::Empty, sound_enabled),
        };
    }
    let model = settings.get_current_model();
    let style = settings.get_current_style();
    let style_label = translate(catalog, l, style_label_key(style.as_str()));
    let mut body = translate(catalog, l, "notifications.processing");
    let model_label = translate(catalog, l, "notifications.model");
    let style_heading = translate(catalog, l, "notifications.style");
    push_detail(&mut body, model_label.as_str(), model.as_str());
    push_detail(&mut body, style_heading.as_str(), style_label.as_str());
    let title = translate(catalog, l, "notifications.title");
    Reaction {
        request: Some(text),
        notice: Notice { title, body },
        sound: gate_sound(SoundCue::Processing, sound_enabled),
    }
}

} // verus!
