//! The completion of a correction: what follows once the corrected text is
//! on the clipboard.
use vstd::prelude::*;
use vstd::string::*;
use crate::locale::{resolve, translate, Catalog, Locale};
use crate::notify::{audible, detail_line, gate_sound, push_detail, Notice, SoundCue};
use crate::settings::Settings;
use crate::text::{decimal, decimal_text, padded_decimal, padded_decimal_text};

verus! {

/// A duration of `ms` milliseconds in seconds with two decimals, rounded
/// half up: 1234 reads "1.23", 1235 reads "1.24".
pub open spec fn seconds_text(ms: nat) -> Seq<char> {
    let hundredths = ms / 10 + (if ms % 10 >= 5 { 1nat } else { 0nat });
    decimal(hundredths / 100) + "."@ + padded_decimal(hundredths % 100, 2)
}

/// Renders a duration of `ms` milliseconds in seconds with two decimals.
pub fn format_seconds(ms: u64) -> (r: String)
    ensures
        r@ == seconds_text(ms as nat),
{
    let hundredths: u64 = ms / 10 + if ms % 10 >= 5 { 1 } else { 0 };
    let mut r = decimal_text(hundredths / 100);
    r.append(".");
    let frac = padded_decimal_text(hundredths % 100, 2);
    r.append(frac.as_str());
    r
}

/// The body of the notice that a correction arrived, with the model and the
/// duration where they are known.
pub open spec fn completed_body(cat: Catalog, l: Locale, model: Option<Seq<char>>, duration_ms: Option<nat>) -> Seq<char> {
    resolve(cat, l, "notifications.corrected"@) + match model {
        Some(m) => detail_line(resolve(cat, l, "notifications.model"@), m),
        None => Seq::<char>::empty(),
    } + match duration_ms {
        Some(ms) => detail_line(resolve(cat, l, "notifications.duration"@), seconds_text(ms) + "s"@),
        None => Seq::<char>::empty(),
    }
}

/// What follows a correction once its text is on the clipboard, in this
/// order: the notice, the cue, and the hand-off to auto-paste.
pub struct CompletionPlan {
    pub notice: Notice,
    pub sound: Option<SoundCue>,
    /// Whether the auto-paste machine is started.
    pub auto_paste: bool,
}

/// The plan for a correction that arrived with an optional model name,
/// duration in milliseconds and auto-paste flag (absent means off).
pub fn completion_plan(
    settings: &Settings,
    catalog: &Catalog,
    model: Option<String>,
    duration_ms: Option<u64>,
    auto_paste: Option<bool>,
) -> (r: CompletionPlan)
    ensures
        r.notice.title@ == resolve(*catalog, settings@.locale, "notifications.title"@),
        r.notice.body@ == completed_body(
            *catalog,
            settings@.locale,
            match model {
                Some(m) => Some(m@),
                None => None,
            },
            match duration_ms {
                Some(d) => Some(d as nat),
                None => None,
            },
        ),
        r.sound == audible(SoundCue::Completed, settings@.sound_enabled),
        r.auto_paste == (auto_paste == Some(true)),
{
    let l = settings.locale();
    let mut body = translate(catalog, l, "notifications.corrected");
    let ghost base = body@;
    let ghost model_part = match &model {
        Some(m) => detail_line(resolve(*catalog, l, "notifications.model"@), m@),
        None => Seq::<char>::empty(),
    };
    if let Some(m) = &model {
        let label = translate(catalog, l, "notifications.model");
        push_detail(&mut body, label.as_str(), m.as_str());
    }
    assert(body@ =~= base + model_part);
    let ghost with_model = body@;
    if let Some(d) = duration_ms {
        let label = translate(catalog, l, "notifications.duration");
        let mut secs = format_seconds(d);
        secs.append("s");
        push_detail(&mut body, label.as_str(), secs.as_str());
    } else {
        assert(body@ =~= with_model + Seq::<char>::empty());
    }
    let title = translate(catalog, l, "notifications.title");
    let should_paste = match auto_paste {
        Some(b) => b,
        None => false,
    };
    CompletionPlan {
        notice: Notice { title, body },
        sound: gate_sound(SoundCue::Completed, settings.get_sound_enabled()),
        auto_paste: should_paste,
    }
}

/// The error reported when the corrected text cannot be put on the
/// clipboard; the request ends there.
pub fn clipboard_write_error(cause: &str) -> (r: String)
    ensures
        r@ == "Failed to write to clipboard: "@ + cause@,
{
    let mut r = String::from_str("Failed to write to clipboard: ");
    r.append(cause);
    r
}

} // verus!
