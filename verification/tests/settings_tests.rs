use raflow::permissions::{check_permissions, PermissionState};
use raflow::settings::{
    default_hotkey, default_language_code, normalize_language_code, normalize_loaded_settings,
    status_snapshot, validate_settings, AppError, AppSettings,
};
use raflow::storage::is_not_found_error;

#[test]
fn language_codes_collapse_to_canonical_forms() {
    assert_eq!(normalize_language_code("EN"), "eng");
    assert_eq!(normalize_language_code("  English "), "eng");
    assert_eq!(normalize_language_code("zh-CN"), "zho");
    assert_eq!(normalize_language_code("Chinese"), "zho");
    assert_eq!(normalize_language_code(""), "eng");
    assert_eq!(normalize_language_code("auto"), "eng");
    assert_eq!(normalize_language_code("FRA"), "fra");
}

#[test]
fn defaults_match_the_configuration_surface() {
    assert_eq!(default_language_code(), "eng");
    assert_eq!(default_hotkey(), "Ctrl+N");
    let settings = AppSettings::default();
    assert_eq!(settings.language_code, "eng");
    assert_eq!(settings.hotkey, "Ctrl+N");
    assert!(settings.partial_rewrite_enabled);
    assert_eq!(settings.partial_rewrite_max_backspace, 12);
    assert_eq!(settings.partial_rewrite_window_ms, 140);
}

#[test]
fn validate_settings_accepts_and_canonicalizes() {
    let mut settings = AppSettings::default();
    settings.api_key = "  key  ".to_string();
    settings.language_code = "ZH".to_string();
    settings.hotkey = " Alt+Space ".to_string();
    let validated = validate_settings(settings).expect("should validate");
    assert_eq!(validated.api_key, "key");
    assert_eq!(validated.language_code, "zho");
    assert_eq!(validated.hotkey, "Alt+Space");
}

#[test]
fn validate_settings_rejects_each_bad_field() {
    let mut bad_lang = AppSettings::default();
    bad_lang.language_code = "fra".to_string();
    assert!(validate_settings(bad_lang).is_err());

    let mut bad_hotkey = AppSettings::default();
    bad_hotkey.hotkey = "   ".to_string();
    assert!(validate_settings(bad_hotkey).is_err());

    let mut bad_backspace = AppSettings::default();
    bad_backspace.partial_rewrite_max_backspace = 65;
    assert_eq!(
        validate_settings(bad_backspace).unwrap_err(),
        "partialRewriteMaxBackspace must be between 0 and 64"
    );

    let mut bad_window = AppSettings::default();
    bad_window.partial_rewrite_window_ms = 2_001;
    assert_eq!(
        validate_settings(bad_window).unwrap_err(),
        "partialRewriteWindowMs must be between 0 and 2000"
    );
}

#[test]
fn loaded_settings_are_brought_into_range() {
    let mut settings = AppSettings::default();
    settings.api_key = " secret ".to_string();
    settings.hotkey = "  ".to_string();
    settings.partial_rewrite_max_backspace = 1_000;
    settings.partial_rewrite_window_ms = 9_999;
    let normalized = normalize_loaded_settings(settings);
    assert_eq!(normalized.api_key, "secret");
    assert_eq!(normalized.hotkey, "Ctrl+N");
    assert_eq!(normalized.partial_rewrite_max_backspace, 12);
    assert_eq!(normalized.partial_rewrite_window_ms, 140);
}

#[test]
fn status_snapshot_reports_ready() {
    let status = status_snapshot().expect("status should be available");
    assert_eq!(status.service, "raflow-core");
    assert!(status.ready);
}

#[test]
fn app_error_messages_match_their_variant() {
    assert_eq!(
        AppError::Runtime("boom".to_string()).message(),
        "runtime error: boom"
    );
    assert_eq!(
        AppError::LoggingInit("twice".to_string()).message(),
        "failed to initialize logging: twice"
    );
}

#[test]
fn permission_guidance_covers_each_denial() {
    let healthy = check_permissions(PermissionState::Granted, PermissionState::Granted);
    assert_eq!(healthy.guidance, vec!["Permissions look healthy.".to_string()]);

    let broken = check_permissions(PermissionState::Denied, PermissionState::Denied);
    assert_eq!(broken.guidance.len(), 2);
    assert!(broken.guidance[0].contains("Microphone"));
    assert!(broken.guidance[1].contains("Accessibility"));
}

#[test]
fn missing_keychain_entries_are_not_failures() {
    assert!(is_not_found_error("No Entry found in keyring"));
    assert!(is_not_found_error("item NOT FOUND"));
    assert!(!is_not_found_error("permission denied"));
}
