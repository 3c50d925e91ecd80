use resend_desk::error::{Error, StoreOp, StoreStep};
use resend_desk::store::{
    delete_api_key, flushed, get_api_key, has_api_key, loaded, require_api_key, save_api_key,
    Settings, StoredValue, API_KEY_RECORD, STORE_FILE,
};

#[test]
fn store_file_and_record_key_are_fixed() {
    assert_eq!(STORE_FILE, "settings.json");
    assert_eq!(API_KEY_RECORD, "resend_api_key");
}

#[test]
fn new_settings_hold_no_credential() {
    let settings = Settings::new();
    assert_eq!(settings.api_key, None);
    assert!(!has_api_key(&settings));
    assert_eq!(get_api_key(&settings), Ok(None));
}

#[test]
fn has_is_false_before_any_save_and_true_after() {
    let mut settings = Settings::new();
    assert!(!has_api_key(&settings));
    save_api_key(&mut settings, String::from("re_123"));
    assert!(has_api_key(&settings));
}

#[test]
fn get_after_save_returns_the_saved_key() {
    let mut settings = Settings::new();
    save_api_key(&mut settings, String::from("re_123"));
    assert_eq!(get_api_key(&settings), Ok(Some(String::from("re_123"))));
    assert_eq!(
        settings.api_key,
        Some(StoredValue::Text(String::from("re_123")))
    );
}

#[test]
fn get_does_not_change_the_settings() {
    let mut settings = Settings::new();
    save_api_key(&mut settings, String::from("re_123"));
    let before = settings.clone();
    let _ = get_api_key(&settings);
    let _ = has_api_key(&settings);
    assert_eq!(settings, before);
}

#[test]
fn saved_key_is_kept_as_it_is() {
    let mut settings = Settings::new();
    save_api_key(&mut settings, String::from(""));
    assert!(has_api_key(&settings));
    assert_eq!(get_api_key(&settings), Ok(Some(String::new())));
    save_api_key(&mut settings, String::from("  clé \u{1F511} "));
    assert_eq!(
        get_api_key(&settings),
        Ok(Some(String::from("  clé \u{1F511} ")))
    );
}

#[test]
fn delete_then_has_is_false() {
    let mut settings = Settings::new();
    save_api_key(&mut settings, String::from("re_123"));
    let removed = delete_api_key(&mut settings);
    assert!(removed);
    assert!(!has_api_key(&settings));
    assert_eq!(get_api_key(&settings), Ok(None));
    assert_eq!(settings, Settings::new());
}

#[test]
fn delete_without_a_record_does_not_fail() {
    let mut settings = Settings::new();
    let removed = delete_api_key(&mut settings);
    assert!(!removed);
    assert!(!has_api_key(&settings));
    assert_eq!(settings, Settings::new());
}

#[test]
fn delete_twice_removes_once() {
    let mut settings = Settings::new();
    save_api_key(&mut settings, String::from("re_123"));
    assert!(delete_api_key(&mut settings));
    assert!(!delete_api_key(&mut settings));
    assert!(!has_api_key(&settings));
}

#[test]
fn second_save_overwrites_the_first() {
    let mut settings = Settings::new();
    save_api_key(&mut settings, String::from("re_first"));
    save_api_key(&mut settings, String::from("re_second"));
    assert_eq!(get_api_key(&settings), Ok(Some(String::from("re_second"))));
    assert_eq!(
        settings.api_key,
        Some(StoredValue::Text(String::from("re_second")))
    );
}

#[test]
fn save_after_delete_stores_again() {
    let mut settings = Settings::new();
    save_api_key(&mut settings, String::from("re_first"));
    delete_api_key(&mut settings);
    save_api_key(&mut settings, String::from("re_second"));
    assert!(has_api_key(&settings));
    assert_eq!(get_api_key(&settings), Ok(Some(String::from("re_second"))));
}

#[test]
fn record_that_is_no_text_counts_as_present() {
    let settings = Settings {
        api_key: Some(StoredValue::Other),
    };
    assert!(has_api_key(&settings));
}

#[test]
fn record_that_is_no_text_is_reported_as_corrupt() {
    let settings = Settings {
        api_key: Some(StoredValue::Other),
    };
    assert_eq!(get_api_key(&settings), Err(Error::CredentialCorrupt));
}

#[test]
fn save_replaces_a_record_that_is_no_text() {
    let mut settings = Settings {
        api_key: Some(StoredValue::Other),
    };
    save_api_key(&mut settings, String::from("re_123"));
    assert_eq!(get_api_key(&settings), Ok(Some(String::from("re_123"))));
}

#[test]
fn delete_removes_a_record_that_is_no_text() {
    let mut settings = Settings {
        api_key: Some(StoredValue::Other),
    };
    assert!(delete_api_key(&mut settings));
    assert!(!has_api_key(&settings));
}

#[test]
fn no_credential_means_no_call() {
    let settings = Settings::new();
    assert_eq!(require_api_key(&settings), Err(Error::CredentialMissing));
    assert_eq!(
        require_api_key(&settings).unwrap_err().message(),
        "[ERROR] API key not configured"
    );
}

#[test]
fn no_credential_after_delete_means_no_call() {
    let mut settings = Settings::new();
    save_api_key(&mut settings, String::from("re_123"));
    delete_api_key(&mut settings);
    assert_eq!(require_api_key(&settings), Err(Error::CredentialMissing));
}

#[test]
fn stored_credential_is_handed_to_the_call() {
    let mut settings = Settings::new();
    save_api_key(&mut settings, String::from("re_123"));
    assert_eq!(require_api_key(&settings), Ok(String::from("re_123")));
}

#[test]
fn corrupt_credential_is_not_handed_to_the_call() {
    let settings = Settings {
        api_key: Some(StoredValue::Other),
    };
    assert_eq!(require_api_key(&settings), Err(Error::CredentialCorrupt));
}

#[test]
fn opened_settings_are_worked_on_as_they_are() {
    let image = Settings {
        api_key: Some(StoredValue::Text(String::from("re_123"))),
    };
    assert_eq!(loaded(StoreOp::Get, Ok(image.clone())), Ok(image));
    assert_eq!(loaded(StoreOp::Has, Ok(Settings::new())), Ok(Settings::new()));
}

#[test]
fn unreadable_store_fails_the_operation() {
    for during in [StoreOp::Has, StoreOp::Save, StoreOp::Get, StoreOp::Delete] {
        assert_eq!(
            loaded(during, Err(String::from("permission denied"))),
            Err(Error::StoreUnavailable {
                during,
                step: StoreStep::Load,
                detail: String::from("permission denied"),
            })
        );
    }
    assert_eq!(
        loaded(StoreOp::Has, Err(String::from("permission denied")))
            .unwrap_err()
            .message(),
        "[ERROR] Failed to load store: permission denied"
    );
    assert_eq!(
        loaded(StoreOp::Delete, Err(String::from("permission denied")))
            .unwrap_err()
            .message(),
        "ERROR Failed to load store: permission denied"
    );
}

#[test]
fn flush_that_went_well_ends_the_operation() {
    assert_eq!(flushed(StoreOp::Save, Ok(())), Ok(()));
    assert_eq!(flushed(StoreOp::Delete, Ok(())), Ok(()));
}

#[test]
fn failed_flush_fails_the_operation() {
    for during in [StoreOp::Save, StoreOp::Delete] {
        assert_eq!(
            flushed(during, Err(String::from("disk full"))),
            Err(Error::StoreUnavailable {
                during,
                step: StoreStep::Save,
                detail: String::from("disk full"),
            })
        );
    }
    assert_eq!(
        flushed(StoreOp::Save, Err(String::from("disk full")))
            .unwrap_err()
            .message(),
        "[ERROR] Failed to save store: disk full"
    );
}

#[test]
fn failed_flush_after_delete_is_still_a_failure() {
    let mut settings = Settings::new();
    let removed = delete_api_key(&mut settings);
    assert!(!removed);
    let result = flushed(StoreOp::Delete, Err(String::from("disk full")));
    assert_eq!(
        result.unwrap_err().message(),
        "ERROR Failed to save store: disk full"
    );
}
