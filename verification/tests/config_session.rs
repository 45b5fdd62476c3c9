use saf_app::cofl_watchdog;
use saf_app::cofl_watchdog::link_has_session_id;
use saf_app::config_session::{
    ensure_cofl_session, generate_cofl_session, patch_config_session, prepare_cofl_session,
    ConfigSessionError,
};
use saf_app::env_vars::{account_env_key, should_generate_cofl_session, EnvVars};

fn env(pairs: &[(&str, &str)]) -> EnvVars {
    EnvVars {
        vars: pairs
            .iter()
            .map(|(k, v)| (k.to_string(), v.to_string()))
            .collect(),
    }
}

fn accounts(names: &[&str]) -> Vec<String> {
    names.iter().map(|n| n.to_string()).collect()
}

const SOCKET_WITH_SESSION: &str = "wss://sky-us.coflnet.com/modsocket?SId=fake";

fn links_with_session() -> Vec<String> {
    vec![SOCKET_WITH_SESSION.to_string()]
}

#[test]
fn generated_cofl_session_is_persisted_without_losing_json5_context() {
    let raw = r#"{
  // keep this operator note
  igns: ["Main"],
  session:
    "",
}"#;
    let generated = ensure_cofl_session("", &accounts(&["Main"]), &env(&[]), &Vec::new(), raw)
        .unwrap()
        .unwrap();

    assert!(uuid::Uuid::parse_str(&generated.session).is_ok());
    assert!(generated.config.contains("// keep this operator note"));
    assert!(generated.config.contains(&format!("\"{}\"", generated.session)));
}

#[test]
fn generated_cofl_session_ignores_comments_and_string_values() {
    let raw = r#"{
  // session: "comment-only"
  note: "session: not the config field",
  session: "",
}"#;
    let generated = ensure_cofl_session("", &accounts(&["Main"]), &env(&[]), &Vec::new(), raw)
        .unwrap()
        .unwrap();

    assert!(generated.config.contains(r#"// session: "comment-only""#));
    assert!(generated.config.contains(r#"note: "session: not the config field""#));
    assert!(generated
        .config
        .contains(&format!("session: \"{}\"", generated.session)));
}

#[test]
fn cofl_session_is_not_generated_when_env_session_exists() {
    let raw = r#"{ igns: ["Main"], session: "" }"#;
    let generated = ensure_cofl_session(
        "",
        &accounts(&["Main"]),
        &env(&[("SAF_COFL_SESSION", "configured")]),
        &Vec::new(),
        raw,
    )
    .unwrap();

    assert!(generated.is_none());
}

#[test]
fn cofl_session_is_not_generated_when_every_account_socket_has_embedded_session() {
    let raw = r#"{ igns: ["Main"], session: "" }"#;
    let generated = ensure_cofl_session(
        "",
        &accounts(&["Main"]),
        &env(&[("SAF_COFL_SOCKET_MAIN", SOCKET_WITH_SESSION)]),
        &links_with_session(),
        raw,
    )
    .unwrap();

    assert!(generated.is_none());
}

#[test]
fn cofl_session_is_generated_for_accounts_without_embedded_socket_session() {
    let raw = r#"{ igns: ["Main", "Alt"], session: "" }"#;
    let generated = ensure_cofl_session(
        "",
        &accounts(&["Main", "Alt"]),
        &env(&[("SAF_COFL_SOCKET_MAIN", SOCKET_WITH_SESSION)]),
        &links_with_session(),
        raw,
    )
    .unwrap()
    .unwrap();

    assert!(uuid::Uuid::parse_str(&generated.session).is_ok());
    assert!(generated.config.contains(&generated.session));
}

#[test]
fn cofl_session_is_generated_when_account_socket_lacks_embedded_session() {
    let raw = r#"{ igns: ["Main"], session: "" }"#;
    let generated = ensure_cofl_session(
        "",
        &accounts(&["Main"]),
        &env(&[(
            "SAF_COFL_SOCKET_MAIN",
            "wss://sky-us.coflnet.com/modsocket?region=us",
        )]),
        &Vec::new(),
        raw,
    )
    .unwrap()
    .unwrap();

    assert!(uuid::Uuid::parse_str(&generated.session).is_ok());
}

#[test]
fn account_env_keys_match_runtime_convention() {
    assert_eq!(
        account_env_key("SAF_COFL_SOCKET", "Main-Alt"),
        "SAF_COFL_SOCKET_MAIN_ALT"
    );
}

#[test]
fn configured_session_or_no_accounts_need_no_generated_session() {
    assert!(!should_generate_cofl_session(
        " configured ",
        &accounts(&["Main"]),
        &env(&[]),
        &Vec::new()
    ));
    assert!(!should_generate_cofl_session("", &Vec::new(), &env(&[]), &Vec::new()));
    assert!(should_generate_cofl_session(
        "  ",
        &accounts(&["Main"]),
        &env(&[("SAF_COFL_SESSION", "   ")]),
        &Vec::new()
    ));
}

#[test]
fn missing_session_field_is_an_error_when_a_session_is_needed() {
    let result = ensure_cofl_session("", &accounts(&["Main"]), &env(&[]), &Vec::new(), "{ igns: [\"Main\"] }");
    assert_eq!(result.unwrap_err(), ConfigSessionError::SessionFieldMissing);
    assert!(generate_cofl_session("{ session: 5 }").is_none());
}

#[test]
fn each_generated_session_is_fresh() {
    let raw = r#"{ session: "" }"#;
    let first = generate_cofl_session(raw).unwrap();
    let second = generate_cofl_session(raw).unwrap();
    assert_eq!(first.session.len(), 36);
    assert_ne!(first.session, second.session);
    assert_eq!(first.config, format!("{{ session: \"{}\" }}", first.session));
}

#[test]
fn patch_config_session_replaces_only_the_session_string() {
    let raw = "{ note: \"session\", session: \"old\" }";
    assert_eq!(
        patch_config_session(raw, "new-id").unwrap(),
        "{ note: \"session\", session: \"new-id\" }"
    );
}

#[test]
fn prepare_cofl_session_skips_disabled_cofl() {
    let raw = r#"{ igns: ["Main"], session: "" }"#;
    let prepared =
        prepare_cofl_session(true, false, "", &accounts(&["Main"]), &env(&[]), &Vec::new(), raw).unwrap();
    assert!(prepared.is_none());
    let prepared =
        prepare_cofl_session(false, true, "", &accounts(&["Main"]), &env(&[]), &Vec::new(), raw).unwrap();
    assert!(prepared.is_none());
}

#[test]
fn prepare_cofl_session_generates_when_cofl_is_enabled() {
    let raw = r#"{ igns: ["Main"], session: "" }"#;
    let generated =
        prepare_cofl_session(true, true, "", &accounts(&["Main"]), &env(&[]), &Vec::new(), raw)
            .unwrap()
            .unwrap();
    assert!(uuid::Uuid::parse_str(&generated.session).is_ok());
    assert!(generated.config.contains(&generated.session));
}

#[test]
fn patched_session_value_is_json_escaped() {
    let raw = "{ session: \"old\" }";
    let patched = patch_config_session(raw, "a\"b\\c\nd\u{1}").unwrap();
    assert_eq!(patched, "{ session: \"a\\\"b\\\\c\\nd\\u0001\" }");
}

#[test]
fn generated_session_is_a_lowercase_v4_uuid() {
    let generated = generate_cofl_session("{ session: \"\" }").unwrap();
    let id: Vec<char> = generated.session.chars().collect();
    assert_eq!(id.len(), 36);
    assert_eq!(id[14], '4');
    assert!(matches!(id[19], '8' | '9' | 'a' | 'b'));
    for (i, c) in id.iter().enumerate() {
        if [8, 13, 18, 23].contains(&i) {
            assert_eq!(*c, '-');
        } else {
            assert!(c.is_ascii_digit() || ('a'..='f').contains(c));
        }
    }
    assert_eq!(generated.config, format!("{{ session: \"{}\" }}", generated.session));
}

#[test]
fn socket_links_with_session_ids_are_found() {
    assert!(link_has_session_id(" wss://sky.coflnet.com/modsocket?player=Main&SId=abc "));
    assert!(!link_has_session_id("wss://sky.coflnet.com/modsocket?SId=%20"));
    assert!(!link_has_session_id("wss://sky.coflnet.com/modsocket?sid=abc"));
    assert!(!link_has_session_id("not a url"));
    let e = env(&[
        ("SAF_COFL_SOCKET_MAIN", " wss://sky.coflnet.com/modsocket?SId=abc"),
        ("SAF_COFL_SOCKET_ALT", "wss://sky.coflnet.com/modsocket"),
    ]);
    assert_eq!(
        cofl_watchdog::links_with_session(&e, &accounts(&["Main", "Alt", "None"])),
        vec![
            " wss://sky.coflnet.com/modsocket?SId=abc".to_string(),
            "wss://sky.coflnet.com/modsocket?SId=abc".to_string(),
        ]
    );
}
