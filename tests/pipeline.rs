use correctify::completion::{clipboard_write_error, completion_plan, format_seconds};
use correctify::locale::Catalog;
use correctify::notify::{notice_for, play_sound, NoticeKind, SoundCue};
use correctify::paste::{log_line, paste_step, PasteAction, PasteEvent, PasteStage, SETTLE_DELAY_MS};
use correctify::settings::Settings;
use correctify::shortcut::Platform;
use correctify::trigger::{
    on_clipboard_text, on_copy_simulated, on_hotkey, on_permission_checked, TriggerStep,
};

const EN: &str = r#"{
  "notifications": {"title": "Correctify", "processing": "Correcting...", "model": "Model",
                    "style": "Style", "corrected": "Text corrected", "duration": "Duration",
                    "permissionRequired": "Permission required",
                    "autoPastePermissionRequired": "Allow accessibility to copy",
                    "permissionRequiredBody": "Allow accessibility to paste",
                    "pastedSuccessfully": "Pasted", "autoPasteFailed": "Auto-paste failed",
                    "autoPasteFailedBody": "Paste keystroke failed",
                    "autoPasteFailedInit": "Input driver failed", "autoPasteError": "Paste crashed"},
  "home": {"styleOptions": {"grammar": {"label": "Grammar"}, "concise": {"label": "Concise"}}}
}"#;

const FR: &str = r#"{
  "notifications": {"title": "Correctify", "processing": "Correction...", "model": "Modèle",
                    "copyTextFirst": "Copiez d'abord le texte ({copy}), puis utilisez {shortcut}",
                    "style": "Style", "corrected": "Texte corrigé", "duration": "Durée"},
  "home": {"styleOptions": {"grammar": {"label": "Grammaire"}, "concise": {"label": "Concis"}}}
}"#;

fn catalog() -> Catalog {
    Catalog::from_sources(EN, "{}", FR, "{}")
}

#[test]
fn first_step_depends_on_auto_paste_and_platform() {
    let mut s = Settings::new();
    assert_eq!(on_hotkey(&s, Platform::MacOs), TriggerStep::ReadClipboard);
    s.set_auto_paste_enabled(true);
    assert_eq!(on_hotkey(&s, Platform::MacOs), TriggerStep::CheckPermission);
    assert_eq!(on_hotkey(&s, Platform::Other), TriggerStep::SimulateCopy);
    assert_eq!(on_permission_checked(true), TriggerStep::SimulateCopy);
    assert_eq!(
        on_permission_checked(false),
        TriggerStep::Warn(NoticeKind::CopyPermissionRequired)
    );
    assert_eq!(on_copy_simulated(true), TriggerStep::ReadClipboard);
    assert_eq!(on_copy_simulated(false), TriggerStep::Stop);
}

#[test]
fn empty_clipboard_sends_no_request() {
    let s = Settings::new();
    let c = catalog();
    let r = on_clipboard_text(&s, &c, Platform::MacOs, String::new());
    assert!(r.request.is_none());
    assert_eq!(r.notice.title, "Correctify");
    assert_eq!(r.notice.body, "Please copy text first (Cmd+C), then use Cmd+Shift+]");
    assert_eq!(r.sound, Some(SoundCue::Empty));
    let r = on_clipboard_text(&s, &c, Platform::Other, String::new());
    assert_eq!(r.notice.body, "Please copy text first (Ctrl+C), then use Ctrl+Shift+]");
}

#[test]
fn empty_clipboard_notice_is_localized_and_names_configured_hotkey() {
    let mut s = Settings::new();
    s.set_locale("fr").unwrap();
    s.update_shortcut(
        "K".to_string(),
        "AltOrOption".to_string(),
        correctify::shortcut::RegistrationOutcome::Registered,
    )
    .unwrap();
    let c = catalog();
    let r = on_clipboard_text(&s, &c, Platform::MacOs, String::new());
    assert!(r.request.is_none());
    assert_eq!(r.notice.body, "Copiez d'abord le texte (Cmd+C), puis utilisez Alt+K");
}

#[test]
fn non_empty_clipboard_sends_exactly_one_request() {
    let mut s = Settings::new();
    s.set_locale("fr").unwrap();
    s.set_correction_settings(None, Some("concise".to_string()));
    let c = catalog();
    let r = on_clipboard_text(&s, &c, Platform::Other, "teh text".to_string());
    assert_eq!(r.request, Some("teh text".to_string()));
    assert_eq!(r.notice.title, "Correctify");
    assert_eq!(r.notice.body, "Correction...\nModèle: gpt-4o-mini\nStyle: Concis");
    assert_eq!(r.sound, Some(SoundCue::Processing));
}

#[test]
fn unknown_style_shows_grammar_label() {
    let mut s = Settings::new();
    s.set_correction_settings(None, Some("xyz".to_string()));
    let c = catalog();
    let r = on_clipboard_text(&s, &c, Platform::Other, "x".to_string());
    assert_eq!(r.notice.body, "Correcting...\nModel: gpt-4o-mini\nStyle: Grammar");
}

#[test]
fn sound_off_plays_no_cue() {
    let mut s = Settings::new();
    s.set_sound_enabled(false);
    let c = catalog();
    for name in ["empty", "processing", "completed"] {
        assert_eq!(play_sound(name, false), None);
    }
    assert_eq!(on_clipboard_text(&s, &c, Platform::MacOs, String::new()).sound, None);
    assert_eq!(on_clipboard_text(&s, &c, Platform::MacOs, "a".to_string()).sound, None);
    assert_eq!(completion_plan(&s, &c, None, None, None).sound, None);
}

#[test]
fn sound_on_plays_named_cue() {
    assert_eq!(play_sound("empty", true), Some(SoundCue::Empty));
    assert_eq!(play_sound("processing", true), Some(SoundCue::Processing));
    assert_eq!(play_sound("completed", true), Some(SoundCue::Completed));
    assert_eq!(play_sound("beep", true), None);
}

#[test]
fn two_quick_triggers_make_independent_requests() {
    let s = Settings::new();
    let c = catalog();
    let first = on_clipboard_text(&s, &c, Platform::Other, "first".to_string());
    let second = on_clipboard_text(&s, &c, Platform::Other, "second".to_string());
    assert_eq!(first.request, Some("first".to_string()));
    assert_eq!(second.request, Some("second".to_string()));
    // Completions arrive in either order; each is planned on its own.
    let late = completion_plan(&s, &c, None, None, Some(false));
    let early = completion_plan(&s, &c, None, None, Some(false));
    assert!(!late.auto_paste && !early.auto_paste);
    assert_eq!(late.notice.body, early.notice.body);
}

#[test]
fn completion_notice_with_model_and_duration() {
    let s = Settings::new();
    let c = catalog();
    let p = completion_plan(&s, &c, Some("gpt-x".to_string()), Some(1234), Some(true));
    assert_eq!(p.notice.title, "Correctify");
    assert_eq!(p.notice.body, "Text corrected\nModel: gpt-x\nDuration: 1.23s");
    assert_eq!(p.sound, Some(SoundCue::Completed));
    assert!(p.auto_paste);
    let p = completion_plan(&s, &c, None, None, None);
    assert_eq!(p.notice.body, "Text corrected");
    assert!(!p.auto_paste);
}

#[test]
fn completion_in_french() {
    let mut s = Settings::new();
    s.set_locale("fr").unwrap();
    let c = catalog();
    let p = completion_plan(&s, &c, None, Some(20500), None);
    assert_eq!(p.notice.body, "Texte corrigé\nDurée: 20.50s");
}

#[test]
fn seconds_formatting() {
    assert_eq!(format_seconds(0), "0.00");
    assert_eq!(format_seconds(4), "0.00");
    assert_eq!(format_seconds(5), "0.01");
    assert_eq!(format_seconds(1234), "1.23");
    assert_eq!(format_seconds(1235), "1.24");
    assert_eq!(format_seconds(999), "1.00");
    assert_eq!(format_seconds(61000), "61.00");
    assert_eq!(format_seconds(u64::MAX), "18446744073709551.62");
}

#[test]
fn log_line_format() {
    assert_eq!(log_line(1700000000123, "Thread spawned"), "[1700000000.123] Thread spawned\n");
    assert_eq!(log_line(5, "x"), "[0.005] x\n");
    assert_eq!(log_line(0, ""), "[0.000] \n");
}

#[test]
fn clipboard_error_message() {
    assert_eq!(clipboard_write_error("busy"), "Failed to write to clipboard: busy");
}

#[test]
fn notices_by_kind() {
    let c = catalog();
    let n = notice_for(&c, correctify::locale::Locale::Fr, NoticeKind::PasteDriverFailed);
    assert_eq!(n.title, "Auto-paste failed");
    assert_eq!(n.body, "Input driver failed");
    let n = notice_for(&c, correctify::locale::Locale::En, NoticeKind::CopyPermissionRequired);
    assert_eq!(n.title, "Permission required");
    assert_eq!(n.body, "Allow accessibility to copy");
}

fn run(platform: Platform, outcomes: &[PasteEvent]) -> Vec<PasteAction> {
    let mut stage = PasteStage::Idle;
    let mut actions = Vec::new();
    let (next, a) = paste_step(stage, PasteEvent::Begin, platform);
    stage = next;
    actions.push(a);
    for e in outcomes {
        let (next, a) = paste_step(stage, *e, platform);
        stage = next;
        actions.push(a);
    }
    assert_eq!(stage, PasteStage::Finished);
    actions
}

#[test]
fn paste_by_script_where_input_is_restricted() {
    let a = run(Platform::MacOs, &[PasteEvent::Settled, PasteEvent::Succeeded, PasteEvent::Succeeded]);
    assert_eq!(
        a,
        vec![
            PasteAction::Wait(SETTLE_DELAY_MS),
            PasteAction::ProbePermission,
            PasteAction::RunPasteScript,
            PasteAction::Notify(NoticeKind::Pasted),
        ]
    );
}

#[test]
fn paste_without_permission_stops_with_notice() {
    let a = run(Platform::MacOs, &[PasteEvent::Settled, PasteEvent::Failed]);
    assert_eq!(a[2], PasteAction::Notify(NoticeKind::PastePermissionRequired));
}

#[test]
fn paste_by_simulated_keys() {
    let ok = PasteEvent::Succeeded;
    let a = run(Platform::Other, &[PasteEvent::Settled, ok, ok, ok, ok]);
    assert_eq!(
        a,
        vec![
            PasteAction::Wait(1200),
            PasteAction::CreateDriver,
            PasteAction::PressModifier,
            PasteAction::ClickV,
            PasteAction::ReleaseModifier,
            PasteAction::Notify(NoticeKind::Pasted),
        ]
    );
}

#[test]
fn paste_falls_back_once_then_gives_up() {
    let a = run(
        Platform::Other,
        &[PasteEvent::Settled, PasteEvent::Succeeded, PasteEvent::Failed, PasteEvent::Failed],
    );
    assert_eq!(a[3], PasteAction::SendCombination);
    assert_eq!(a[4], PasteAction::Notify(NoticeKind::PasteFailed));
}

#[test]
fn paste_driver_failure_and_crash() {
    let a = run(Platform::Other, &[PasteEvent::Settled, PasteEvent::Failed]);
    assert_eq!(a[2], PasteAction::Notify(NoticeKind::PasteDriverFailed));
    let a = run(Platform::Other, &[PasteEvent::Settled, PasteEvent::Succeeded, PasteEvent::Crashed]);
    assert_eq!(a[3], PasteAction::Notify(NoticeKind::PasteCrashed));
    assert_eq!(
        paste_step(PasteStage::Finished, PasteEvent::Crashed, Platform::Other),
        (PasteStage::Finished, PasteAction::Nothing)
    );
}
