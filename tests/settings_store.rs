use correctify::settings::{Settings, SettingsError};
use correctify::shortcut::{
    accelerator, convert_modifier_to_platform, Platform, RegistrationOutcome, ShortcutError,
};

#[test]
fn defaults() {
    let s = Settings::new();
    assert!(s.get_sound_enabled());
    assert!(!s.get_auto_paste_enabled());
    assert_eq!(s.get_shortcut_key(), "]");
    assert_eq!(s.get_shortcut_modifier(), "CmdOrCtrl+Shift");
    assert_eq!(s.get_current_model(), "gpt-4o-mini");
    assert_eq!(s.get_current_style(), "grammar");
    assert_eq!(s.get_locale(), "en");
}

#[test]
fn toggles_and_correction_settings() {
    let mut s = Settings::new();
    s.set_sound_enabled(false);
    s.set_auto_paste_enabled(true);
    assert!(!s.get_sound_enabled());
    assert!(s.get_auto_paste_enabled());
    s.set_correction_settings(Some("model-b".to_string()), None);
    assert_eq!(s.get_current_model(), "model-b");
    assert_eq!(s.get_current_style(), "grammar");
    s.set_correction_settings(None, Some("formal".to_string()));
    assert_eq!(s.get_current_model(), "model-b");
    assert_eq!(s.get_current_style(), "formal");
}

#[test]
fn unsupported_locale_is_refused_and_kept() {
    let mut s = Settings::new();
    assert!(s.set_locale("fr").is_ok());
    for bad in ["es", "", "FR", "fr ", "english"] {
        let r = s.set_locale(bad);
        match r {
            Err(SettingsError::InvalidLocale(l)) => assert_eq!(l, bad),
            Ok(()) => panic!("accepted {bad}"),
        }
        assert_eq!(s.get_locale(), "fr");
    }
    assert_eq!(
        SettingsError::InvalidLocale("es".to_string()).message(),
        "Invalid locale: es"
    );
}

#[test]
fn modifier_conversion() {
    assert_eq!(convert_modifier_to_platform("CmdOrCtrl+Shift", Platform::MacOs), "Cmd+Shift");
    assert_eq!(convert_modifier_to_platform("CmdOrCtrl+Shift", Platform::Other), "Ctrl+Shift");
    assert_eq!(convert_modifier_to_platform("AltOrOption+CmdOrCtrl", Platform::Other), "Alt+Ctrl");
    assert_eq!(convert_modifier_to_platform("Shift", Platform::MacOs), "Shift");
    assert_eq!(convert_modifier_to_platform("", Platform::MacOs), "");
    assert_eq!(accelerator("CmdOrCtrl+Shift", "]", Platform::MacOs), "Cmd+Shift+]");
}

#[test]
fn rebinding_success_changes_key_and_modifier_together() {
    let mut s = Settings::new();
    let plan = s.shortcut_plan("K", "AltOrOption", Platform::Other);
    assert_eq!(plan.current, "Ctrl+Shift+]");
    assert_eq!(plan.requested, "Alt+K");
    let r = s.update_shortcut("K".to_string(), "AltOrOption".to_string(), RegistrationOutcome::Registered);
    assert!(r.is_ok());
    let undo = plan.rollback(&r);
    assert!(undo.unregister.is_none() && undo.register.is_none());
    assert_eq!(s.get_shortcut_key(), "K");
    assert_eq!(s.get_shortcut_modifier(), "AltOrOption");
    assert_eq!(s.current_accelerator(Platform::Other), "Alt+K");
}

#[test]
fn failed_rebinding_keeps_old_binding() {
    let mut s = Settings::new();
    let before = s.current_accelerator(Platform::MacOs);
    let r = s.update_shortcut(
        "K".to_string(),
        "Ctrl".to_string(),
        RegistrationOutcome::Rejected("already taken".to_string()),
    );
    match &r {
        Err(e) => assert_eq!(e.message(), "Failed to register shortcut: already taken"),
        Ok(()) => panic!("should fail"),
    }
    assert_eq!(s.get_shortcut_key(), "]");
    assert_eq!(s.get_shortcut_modifier(), "CmdOrCtrl+Shift");
    assert_eq!(s.current_accelerator(Platform::MacOs), before);
    let plan = s.shortcut_plan("K", "Ctrl", Platform::MacOs);
    let undo = plan.rollback(&r);
    assert_eq!(undo.unregister, None);
    assert_eq!(undo.register.as_deref(), Some("Cmd+Shift+]"));

    let r = s.update_shortcut(
        "K".to_string(),
        "Hyper".to_string(),
        RegistrationOutcome::InvalidFormat("bad modifier".to_string()),
    );
    match r {
        Err(ShortcutError::InvalidFormat(m)) => assert_eq!(m, "bad modifier"),
        _ => panic!("should fail with format error"),
    }
    assert_eq!(s.get_shortcut_key(), "]");
    assert_eq!(s.get_shortcut_modifier(), "CmdOrCtrl+Shift");
}

#[test]
fn empty_key_is_refused() {
    let mut s = Settings::new();
    let plan = s.shortcut_plan("", "Ctrl", Platform::Other);
    let r = s.update_shortcut(String::new(), "Ctrl".to_string(), RegistrationOutcome::Registered);
    assert!(matches!(r, Err(ShortcutError::EmptyKey)));
    assert_eq!(s.get_shortcut_key(), "]");
    let undo = plan.rollback(&r);
    assert_eq!(undo.unregister.as_deref(), Some("Ctrl+"));
    assert_eq!(undo.register.as_deref(), Some("Ctrl+Shift+]"));
}
