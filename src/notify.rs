//! What the user sees and hears: notifications and sound cues.
use vstd::prelude::*;
use vstd::string::*;
use crate::locale::{resolve, translate, Catalog, Locale};
use crate::text::same_text;

verus! {

/// A system notification.
pub struct Notice {
    pub title: String,
    pub body: String,
}

/// One of the three short audio cues.
#[derive(Clone, Copy, Debug, PartialEq, Eq, Structural)]
pub enum SoundCue {
    /// The clipboard was empty.
    Empty,
    /// A correction was requested.
    Processing,
    /// A correction arrived.
    Completed,
}

/// The cue named `name`, if any.
pub open spec fn cue_named(name: Seq<char>) -> Option<SoundCue> {
    if name == "empty"@ {
        Some(SoundCue::Empty)
    } else if name == "processing"@ {
        Some(SoundCue::Processing)
    } else if name == "completed"@ {
        Some(SoundCue::Completed)
    } else {
        None
    }
}

/// The cue to play for `cue` when sound is `enabled`: nothing when sound is
/// off.
pub open spec fn audible(cue: SoundCue, enabled: bool) -> Option<SoundCue> {
    if enabled {
        Some(cue)
    } else {
        None
    }
}

/// Gates a cue on the sound setting.
pub fn gate_sound(cue: SoundCue, enabled: bool) -> (r: Option<SoundCue>)
    ensures
        r == audible(cue, enabled),
{
    if enabled {
        Some(cue)
    } else {
        None
    }
}

/// The cue to play for a request by name: nothing when sound is off or the
/// name is none of "empty", "processing", "completed".
pub fn play_sound(sound_type: &str, sound_enabled: bool) -> (r: Option<SoundCue>)
    ensures
        r == match cue_named(sound_type@) {
            Some(c) => audible(c, sound_enabled),
            None => None,
        },
        !sound_enabled ==> r is None,
{
    if !sound_enabled {
        return None;
    }
    if same_text(sound_type, "empty") {
        Some(SoundCue::Empty)
    } else if same_text(sound_type, "processing") {
        Some(SoundCue::Processing)
    } else if same_text(sound_type, "completed") {
        Some(SoundCue::Completed)
    } else {
        None
    }
}

/// A notification whose title and body are both looked up by key.
#[derive(Clone, Copy, Debug, PartialEq, Eq, Structural)]
pub enum NoticeKind {
    /// Copying the selection needs the input-injection permission.
    CopyPermissionRequired,
    /// Pasting needs the input-injection permission.
    PastePermissionRequired,
    /// The corrected text was pasted.
    Pasted,
    /// The paste keystroke failed.
    PasteFailed,
    /// The input driver could not be started.
    PasteDriverFailed,
    /// Input simulation failed abnormally and was contained.
    PasteCrashed,
}

/// The title key of a notification kind.
pub open spec fn title_key(kind: NoticeKind) -> Seq<char> {
    match kind {
        NoticeKind::CopyPermissionRequired => "notifications.permissionRequired"@,
        NoticeKind::PastePermissionRequired => "notifications.permissionRequired"@,
        NoticeKind::Pasted => "notifications.title"@,
        _ => "notifications.autoPasteFailed"@,
    }
}

/// The body key of a notification kind.
pub open spec fn body_key(kind: NoticeKind) -> Seq<char> {
    match kind {
        NoticeKind::CopyPermissionRequired => "notifications.autoPastePermissionRequired"@,
        NoticeKind::PastePermissionRequired => "notifications.permissionRequiredBody"@,
        NoticeKind::Pasted => "notifications.pastedSuccessfully"@,
        NoticeKind::PasteFailed => "notifications.autoPasteFailedBody"@,
        NoticeKind::PasteDriverFailed => "notifications.autoPasteFailedInit"@,
        NoticeKind::PasteCrashed => "notifications.autoPasteError"@,
    }
}

/// The notification of kind `kind` in locale `locale`.
pub fn notice_for(catalog: &Catalog, locale: Locale, kind: NoticeKind) -> (r: Notice)
    ensures
        r.title@ == resolve(*catalog, locale, title_key(kind)),
        r.body@ == resolve(*catalog, locale, body_key(kind)),
{
    let title_key = match kind {
        NoticeKind::CopyPermissionRequired => "notifications.permissionRequired",
        NoticeKind::PastePermissionRequired => "notifications.permissionRequired",
        NoticeKind::Pasted => "notifications.title",
        _ => "notifications.autoPasteFailed",
    };
    let body_key = match kind {
        NoticeKind::CopyPermissionRequired => "notifications.autoPastePermissionRequired",
        NoticeKind::PastePermissionRequired => "notifications.permissionRequiredBody",
        NoticeKind::Pasted => "notifications.pastedSuccessfully",
        NoticeKind::PasteFailed => "notifications.autoPasteFailedBody",
        NoticeKind::PasteDriverFailed => "notifications.autoPasteFailedInit",
        NoticeKind::PasteCrashed => "notifications.autoPasteError",
    };
    Notice { title: translate(catalog, locale, title_key), body: translate(catalog, locale, body_key) }
}

/// A line "\n<label>: <value>" of a notification body.
pub open spec fn detail_line(label: Seq<char>, value: Seq<char>) -> Seq<char> {
    "\n"@ + label + ": "@ + value
}

/// Appends a detail line to `body`.
pub fn push_detail(body: &mut String, label: &str, value: &str)
    ensures
        final(body)@ == old(body)@ + detail_line(label@, value@),
{
    body.append("\n");
    body.append(label);
    body.append(": ");
    body.append(value);
}

} // verus!
