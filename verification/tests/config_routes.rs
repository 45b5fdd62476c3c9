use saf_app::config_routes::{
    always_redact_keys, check_patch_keys, forbidden_patch_keys, is_redacted_key,
    is_safe_top_level_key, merge_entries, redact, safe_top_level_keys,
};

#[test]
fn every_redact_key_is_forbidden_on_patch() {
    let safe = safe_top_level_keys();
    for key in always_redact_keys() {
        assert!(
            !safe.contains(&key),
            "secret key `{key}` must never be in the SAFE allowlist"
        );
    }
    for key in ["discordBot", "session", "webhook", "apiKey"] {
        assert!(
            !safe.contains(&key),
            "secret `{key}` leaked into SAFE allowlist"
        );
    }
}

#[test]
fn unknown_key_is_rejected() {
    assert!(!safe_top_level_keys().contains(&"totallyMadeUpField"));
    assert!(!is_safe_top_level_key("totallyMadeUpField"));
}

fn entry(key: &str, value: i64) -> (String, i64) {
    (key.to_string(), value)
}

#[test]
fn get_output_omits_every_redacted_key() {
    let mut value = vec![
        entry("discordBot", 1),
        entry("session", 2),
        entry("webhook", 3),
        entry("webhookFormat", 4),
        entry("delay", 5),
    ];
    redact(&mut value);
    for key in always_redact_keys() {
        assert!(
            !value.iter().any(|(k, _)| k == key),
            "redacted key `{key}` leaked into GET output"
        );
    }
    assert_eq!(value, vec![entry("webhookFormat", 4), entry("delay", 5)]);
}

#[test]
fn safe_field_passes_the_allowlist() {
    let keys = vec!["useCookie".to_string(), "delay".to_string()];
    assert!(forbidden_patch_keys(&keys).is_empty());
    assert!(check_patch_keys(&keys).is_ok());

    let mut merged = vec![entry("useCookie", 1), entry("delay", 100), entry("relist", 1)];
    let updated = merge_entries(&mut merged, vec![entry("useCookie", 0), entry("delay", 300)]);
    assert_eq!(updated, vec!["useCookie".to_string(), "delay".to_string()]);
    assert!(merged.contains(&entry("useCookie", 0)));
    assert!(merged.contains(&entry("delay", 300)));
    assert!(merged.contains(&entry("relist", 1)));
    assert_eq!(merged.len(), 3);
}

#[test]
fn forbidden_patch_reports_each_refused_key_in_order() {
    let keys = vec![
        "delay".to_string(),
        "session".to_string(),
        "totallyMadeUpField".to_string(),
    ];
    let error = check_patch_keys(&keys).unwrap_err();
    assert_eq!(
        error.forbidden,
        vec!["session".to_string(), "totallyMadeUpField".to_string()]
    );
    assert_eq!(
        error.message,
        "Cannot update forbidden fields: session, totallyMadeUpField"
    );
}

#[test]
fn redacted_and_safe_key_checks_agree_with_lists() {
    assert!(is_redacted_key("apiKey"));
    assert!(is_redacted_key("send_all_flips"));
    assert!(!is_redacted_key("webhookFormat"));
    assert!(is_safe_top_level_key("webhookFormat"));
    assert!(is_safe_top_level_key("humanizer"));
    assert_eq!(safe_top_level_keys().len(), 25);
    assert_eq!(always_redact_keys().len(), 22);
}

#[test]
fn merge_adds_new_keys_and_replaces_existing_ones() {
    let mut target = vec![entry("a", 1), entry("b", 2)];
    let updated = merge_entries(&mut target, vec![entry("c", 3), entry("a", 9)]);
    assert_eq!(updated, vec!["c".to_string(), "a".to_string()]);
    assert_eq!(target.len(), 3);
    assert!(target.contains(&entry("a", 9)));
    assert!(target.contains(&entry("b", 2)));
    assert!(target.contains(&entry("c", 3)));
}
