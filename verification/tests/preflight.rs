use saf_app::env_vars::EnvVars;
use saf_app::preflight::{
    build_required_actions, run_live_safety_options, LivePreflightCheck, validate_run_live_safety, LivePreflightFeatureFlags,
    LivePreflightOptions, LivePreflightReport, LivePreflightStatus,
};
use saf_app::preflight_checks::{
    microsoft_auth_cache_contains_key, run_live_preflight_with_env, smoke_and_session_links,
    MicrosoftCacheEntry,
    PreflightConfig, PreflightFacts,
};
use std::collections::BTreeSet;

fn env(pairs: &[(&str, &str)]) -> EnvVars {
    EnvVars {
        vars: pairs
            .iter()
            .map(|(k, v)| (k.to_string(), v.to_string()))
            .collect(),
    }
}

fn strings(values: &[&str]) -> Vec<String> {
    values.iter().map(|v| v.to_string()).collect()
}

fn config_with(accounts: &[&str]) -> PreflightConfig {
    PreflightConfig {
        session: String::new(),
        discord_token: String::new(),
        discord_enabled: false,
        allowed_ids: Vec::new(),
        discord_bot_allowed_ids: Vec::new(),
        discord_id: String::new(),
        configured_accounts: strings(accounts),
        startup_accounts: strings(accounts),
        startup_account_ids: strings(accounts),
        default_account: accounts.first().map(|a| a.to_string()),
    }
}

fn config() -> PreflightConfig {
    config_with(&["Main"])
}

fn facts() -> PreflightFacts {
    PreflightFacts {
        state_display: ".".to_string(),
        state_exists: true,
        state_is_dir: true,
        state_parent_exists: true,
        inbox_parent_display: ".".to_string(),
        inbox_parent_ready: true,
        links_with_session: Vec::new(),
        smoke_account: None,
        microsoft_cache: Vec::new(),
        now_seconds: 1_700_000_000,
    }
}

fn no_features() -> LivePreflightFeatureFlags {
    LivePreflightFeatureFlags {
        live_cofl: false,
        live_discord: false,
        live_minecraft: false,
        production_runtime: false,
    }
}

fn full_options() -> LivePreflightOptions {
    let mut options = LivePreflightOptions::new();
    options.full = true;
    options
}

fn run(
    config: &PreflightConfig,
    options: &LivePreflightOptions,
    env: &EnvVars,
    facts: &PreflightFacts,
) -> LivePreflightReport {
    run_live_preflight_with_env(config, options, env, facts, no_features())
}

fn has_check(report: &LivePreflightReport, name: &str, status: LivePreflightStatus) -> bool {
    report
        .checks
        .iter()
        .any(|check| check.name == name && check.status == status)
}

fn has_check_with(
    report: &LivePreflightReport,
    name: &str,
    status: LivePreflightStatus,
    fragment: &str,
) -> bool {
    report.checks.iter().any(|check| {
        check.name == name && check.status == status && check.message.contains(fragment)
    })
}

fn rendered(report: &LivePreflightReport) -> String {
    format!("{report:?}")
}

fn smoke_config() -> PreflightConfig {
    let mut config = config();
    config.session = "config-cofl-session".to_string();
    config.discord_enabled = true;
    config.discord_token = "config-discord-token".to_string();
    config.discord_bot_allowed_ids = strings(&["123"]);
    config
}

#[test]
fn default_preflight_passes_with_configured_account() {
    let report = run(&config(), &LivePreflightOptions::new(), &env(&[]), &facts());

    assert!(report.ok);
    assert_eq!(report.configured_accounts, vec!["Main".to_string()]);
    assert!(has_check(&report, "discord.token", LivePreflightStatus::Warn));
    assert!(report.required_actions.is_empty());
}

#[test]
fn full_preflight_reports_missing_live_requirements() {
    let report = run(&config(), &full_options(), &env(&[]), &facts());

    assert!(!report.ok);
    assert!(has_check(&report, "discord.token", LivePreflightStatus::Fail));
    assert!(has_check_with(
        &report,
        "cofl.session",
        LivePreflightStatus::Pass,
        "generate"
    ));
    assert!(has_check(&report, "minecraft.azalea", LivePreflightStatus::Fail));
    assert!(has_check(&report, "liveSmoke.discordToken", LivePreflightStatus::Fail));
    assert!(has_check(&report, "liveSmoke.coflSession", LivePreflightStatus::Fail));
    assert!(has_check(&report, "liveSmoke.ign", LivePreflightStatus::Fail));

    let action_ids = report
        .required_actions
        .iter()
        .map(|action| action.id.as_str())
        .collect::<BTreeSet<_>>();
    assert!(action_ids.contains("configure-discord-gateway"));
    assert!(action_ids.contains("enable-native-minecraft"));
    assert!(action_ids.contains("configure-cofl-auth"));
    assert!(action_ids.contains("set-live-smoke-account"));
    assert!(action_ids.contains("warm-microsoft-auth"));
    assert!(action_ids.contains("build-production-runtime"));
    assert!(report.required_actions.iter().any(|action| {
        action
            .commands
            .iter()
            .any(|command| command.contains("rust-minecraft-auth Main"))
    }));
    assert!(report.required_actions.iter().any(|action| {
        action.id == "configure-cofl-auth"
            && action
                .commands
                .iter()
                .any(|command| command == "./saf.sh rust-cofl-auth-link Main")
    }));
}

#[test]
fn microsoft_auth_required_action_lists_each_startup_account() {
    let report = run(&config_with(&["Main", "Alt"]), &full_options(), &env(&[]), &facts());

    let action = report
        .required_actions
        .iter()
        .find(|action| action.id == "warm-microsoft-auth")
        .expect("warm auth action should be present");
    assert!(action.commands.iter().any(|command| {
        command == "SAF_RUST_MINECRAFT=azalea ./saf.sh rust-minecraft-auth Main"
    }));
    assert!(action.commands.iter().any(|command| {
        command == "SAF_RUST_MINECRAFT=azalea ./saf.sh rust-minecraft-auth Alt"
    }));
    assert_eq!(
        action
            .commands
            .iter()
            .filter(|command| command.contains("rust-minecraft-auth"))
            .count(),
        2
    );
}

#[test]
fn cofl_auth_required_action_lists_each_startup_account() {
    let report = run(&config_with(&["Main", "Alt"]), &full_options(), &env(&[]), &facts());

    let action = report
        .required_actions
        .iter()
        .find(|action| action.id == "configure-cofl-auth")
        .expect("Cofl auth action should be present");
    assert!(action
        .commands
        .iter()
        .any(|command| command == "./saf.sh rust-cofl-auth-link Main"));
    assert!(action
        .commands
        .iter()
        .any(|command| command == "./saf.sh rust-cofl-auth-link Alt"));
    assert_eq!(
        action
            .commands
            .iter()
            .filter(|command| command.contains("rust-cofl-auth-link"))
            .count(),
        2
    );
    assert!(action.detail.contains("auth-link helper"));
}

#[test]
fn full_preflight_requires_env_gated_smoke_values() {
    let report = run(
        &smoke_config(),
        &full_options(),
        &env(&[("SAF_RUST_MINECRAFT", " Azalea ")]),
        &facts(),
    );

    assert!(!report.ok);
    for name in [
        "liveSmoke.discordEnabled",
        "liveSmoke.discordToken",
        "liveSmoke.discordAllowedUsers",
        "liveSmoke.coflSession",
        "liveSmoke.ign",
    ] {
        assert!(
            has_check(&report, name, LivePreflightStatus::Fail),
            "{name} should fail when the full-smoke env value is missing"
        );
    }
}

#[test]
fn full_preflight_requires_numeric_env_discord_allowed_ids() {
    let mut smoke_facts = facts();
    smoke_facts.smoke_account = Some("Main".to_string());
    let report = run(
        &smoke_config(),
        &full_options(),
        &env(&[
            ("SAF_RUST_MINECRAFT", "azalea"),
            ("SAF_DISCORD_BOT_ENABLED", "1"),
            ("SAF_DISCORD_TOKEN", "redacted-discord-token"),
            ("SAF_DISCORD_ALLOWED_IDS", "not-a-user"),
            ("SAF_LIVE_SMOKE_COFL_SESSION", "redacted-cofl-session"),
            ("SAF_LIVE_SMOKE_IGN", "Main"),
        ]),
        &smoke_facts,
    );

    assert!(!report.ok);
    assert!(has_check(&report, "discord.allowedUsers", LivePreflightStatus::Pass));
    assert!(has_check_with(
        &report,
        "liveSmoke.discordAllowedUsers",
        LivePreflightStatus::Fail,
        "numeric Discord user ID"
    ));

    let report = run(
        &smoke_config(),
        &full_options(),
        &env(&[
            ("SAF_RUST_MINECRAFT", "azalea"),
            ("SAF_DISCORD_BOT_ENABLED", "1"),
            ("SAF_DISCORD_TOKEN", "redacted-discord-token"),
            ("SAF_DISCORD_ALLOWED_IDS", "bad, 00123, 123"),
            ("SAF_LIVE_SMOKE_COFL_SESSION", "redacted-cofl-session"),
            ("SAF_LIVE_SMOKE_IGN", "Main"),
        ]),
        &smoke_facts,
    );

    assert!(has_check_with(
        &report,
        "liveSmoke.discordAllowedUsers",
        LivePreflightStatus::Pass,
        "1 numeric"
    ));
}

#[test]
fn full_preflight_accepts_configured_smoke_ign() {
    let mut smoke_facts = facts();
    smoke_facts.smoke_account = Some("Main".to_string());
    let report = run(
        &smoke_config(),
        &full_options(),
        &env(&[
            ("SAF_RUST_MINECRAFT", "azalea"),
            ("SAF_DISCORD_BOT_ENABLED", " true "),
            ("SAF_DISCORD_TOKEN", "redacted-discord-token"),
            ("SAF_DISCORD_ALLOWED_IDS", "123"),
            ("SAF_LIVE_SMOKE_COFL_SESSION", "redacted-cofl-session"),
            ("SAF_LIVE_SMOKE_IGN", "Main"),
        ]),
        &smoke_facts,
    );

    assert!(has_check(&report, "liveSmoke.ign", LivePreflightStatus::Pass));
    assert!(!rendered(&report).contains("redacted-discord-token"));
    assert!(!rendered(&report).contains("redacted-cofl-session"));
}

fn future_cache_entry(object_key: Option<&str>, cache_key: Option<&str>, expires_at: u64) -> MicrosoftCacheEntry {
    MicrosoftCacheEntry {
        object_key: object_key.map(str::to_string),
        cache_key: cache_key.map(str::to_string),
        expires_at: Some(expires_at),
    }
}

#[test]
fn full_preflight_passes_microsoft_auth_when_cache_contains_startup_account() {
    let mut cache_facts = facts();
    cache_facts.microsoft_cache = vec![future_cache_entry(None, Some("Main"), cache_facts.now_seconds + 3600)];
    let report = run(
        &config(),
        &full_options(),
        &env(&[("SAF_RUST_MINECRAFT", "azalea")]),
        &cache_facts,
    );

    assert!(has_check_with(
        &report,
        "minecraft.microsoftAuth",
        LivePreflightStatus::Pass,
        "Main"
    ));
    assert!(!rendered(&report).contains("azalea-auth"));
}

#[test]
fn full_preflight_accepts_object_keyed_microsoft_auth_cache_entry() {
    let mut cache_facts = facts();
    cache_facts.microsoft_cache = vec![future_cache_entry(Some("Main"), None, cache_facts.now_seconds + 3600)];
    let report = run(
        &config(),
        &full_options(),
        &env(&[("SAF_RUST_MINECRAFT", "azalea")]),
        &cache_facts,
    );

    assert!(has_check_with(
        &report,
        "minecraft.microsoftAuth",
        LivePreflightStatus::Pass,
        "Main"
    ));
}

#[test]
fn full_preflight_warns_when_microsoft_auth_cache_entry_is_expired() {
    let mut cache_facts = facts();
    cache_facts.microsoft_cache = vec![future_cache_entry(None, Some("Main"), 1)];
    let report = run(
        &config(),
        &full_options(),
        &env(&[("SAF_RUST_MINECRAFT", "azalea")]),
        &cache_facts,
    );

    assert!(has_check_with(
        &report,
        "minecraft.microsoftAuth",
        LivePreflightStatus::Warn,
        "Main"
    ));
}

#[test]
fn microsoft_cache_lookup_honours_key_override() {
    let mut cache_facts = facts();
    cache_facts.microsoft_cache = vec![future_cache_entry(None, Some("main@example.com"), cache_facts.now_seconds + 60)];
    let report = run(
        &config(),
        &full_options(),
        &env(&[
            ("SAF_RUST_MINECRAFT", "azalea"),
            ("SAF_MICROSOFT_CACHE_MAIN", " main@example.com "),
        ]),
        &cache_facts,
    );
    assert!(has_check(&report, "minecraft.microsoftAuth", LivePreflightStatus::Pass));

    let report = run(
        &config(),
        &full_options(),
        &env(&[
            ("SAF_RUST_MINECRAFT", "azalea"),
            ("SAF_MICROSOFT_CACHE_MAIN", "other@example.com"),
        ]),
        &cache_facts,
    );
    assert!(has_check_with(
        &report,
        "minecraft.microsoftAuth",
        LivePreflightStatus::Warn,
        "Main: SAF_MICROSOFT_CACHE_MAIN"
    ));
}

#[test]
fn microsoft_cache_entry_needs_an_unexpired_token() {
    let key: Vec<char> = "Main".chars().collect();
    let entries = vec![
        MicrosoftCacheEntry {
            object_key: None,
            cache_key: Some("Main".to_string()),
            expires_at: None,
        },
        future_cache_entry(None, Some("Main"), 100),
    ];
    assert!(!microsoft_auth_cache_contains_key(&entries, &key, 100));
    assert!(microsoft_auth_cache_contains_key(&entries, &key, 99));
}

#[test]
fn preflight_redacts_secret_values() {
    let mut options = LivePreflightOptions::new();
    options.require_discord = true;
    options.require_cofl = true;
    let report = run(
        &config(),
        &options,
        &env(&[
            ("SAF_DISCORD_BOT_ENABLED", "1"),
            ("SAF_DISCORD_TOKEN", "redacted-discord-token"),
            ("SAF_DISCORD_ALLOWED_IDS", "123"),
            ("SAF_COFL_SESSION", "redacted-cofl-session"),
        ]),
        &facts(),
    );

    let rendered = rendered(&report);
    assert!(!rendered.contains("redacted-discord-token"));
    assert!(!rendered.contains("redacted-cofl-session"));
    assert!(rendered.contains("without exposing its value"));
    assert!(!rendered.contains("SAF_DISCORD_TOKEN=redacted-discord-token"));
    assert!(!rendered.contains("SAF_COFL_SESSION=redacted-cofl-session"));
}

#[test]
fn required_actions_use_placeholders_not_secret_values() {
    let mut smoke_facts = facts();
    smoke_facts.smoke_account = Some("Main".to_string());
    let report = run(
        &config(),
        &full_options(),
        &env(&[
            ("SAF_RUST_MINECRAFT", "azalea"),
            ("SAF_DISCORD_BOT_ENABLED", "1"),
            ("SAF_DISCORD_TOKEN", "redacted-discord-token"),
            ("SAF_DISCORD_ALLOWED_IDS", "bad"),
            ("SAF_LIVE_SMOKE_IGN", "Main"),
        ]),
        &smoke_facts,
    );

    let rendered = rendered(&report);
    assert!(!rendered.contains("redacted-discord-token"));
    assert!(rendered.contains("SAF_DISCORD_TOKEN=<bot-token>"));
    assert!(rendered.contains("SAF_LIVE_SMOKE_COFL_SESSION=<cofl-session>"));
}

#[test]
fn discord_preflight_counts_only_numeric_allowed_user_ids() {
    let options = LivePreflightOptions::new();
    let mut config = config();
    config.discord_enabled = true;
    config.discord_token = "config-discord-token".to_string();
    config.allowed_ids = strings(&["not-a-user", " 00123 "]);
    config.discord_bot_allowed_ids = strings(&["also-bad", "123"]);

    let report = run(
        &config,
        &options,
        &env(&[("SAF_DISCORD_ALLOWED_IDS", "bad-env, 456, 00123")]),
        &facts(),
    );

    assert!(report.ok);
    assert!(has_check_with(
        &report,
        "discord.allowedUsers",
        LivePreflightStatus::Pass,
        "2 allowed"
    ));

    config.allowed_ids = strings(&["not-a-user"]);
    config.discord_bot_allowed_ids = strings(&["also-bad"]);
    let report = run(&config, &options, &env(&[]), &facts());

    assert!(report.ok);
    assert!(has_check(&report, "discord.allowedUsers", LivePreflightStatus::Warn));
}

#[test]
fn preflight_accepts_account_socket_with_embedded_cofl_session() {
    let mut options = LivePreflightOptions::new();
    options.require_cofl = true;
    let link = "wss://sky-us.coflnet.com/modsocket?SId=fake";
    let mut socket_facts = facts();
    socket_facts.links_with_session = strings(&[link]);
    let report = run(
        &config(),
        &options,
        &env(&[("SAF_COFL_SOCKET_MAIN", link)]),
        &socket_facts,
    );

    assert!(has_check(&report, "cofl.session", LivePreflightStatus::Pass));
    assert!(!rendered(&report).contains("fake"));

    let report = run(
        &config(),
        &options,
        &env(&[(
            "SAF_COFL_SOCKET_MAIN",
            "wss://sky-us.coflnet.com/modsocket?region=us",
        )]),
        &facts(),
    );

    assert!(has_check_with(
        &report,
        "cofl.session",
        LivePreflightStatus::Pass,
        "generate"
    ));
}

#[test]
fn preflight_accepts_generated_session_for_mixed_socket_coverage() {
    let mut options = LivePreflightOptions::new();
    options.require_cofl = true;
    let link = "wss://sky-us.coflnet.com/modsocket?SId=fake";
    let mut socket_facts = facts();
    socket_facts.links_with_session = strings(&[link]);

    let report = run(
        &config_with(&["Main", "Alt"]),
        &options,
        &env(&[("SAF_COFL_SOCKET_MAIN", link)]),
        &socket_facts,
    );

    assert!(has_check_with(
        &report,
        "cofl.session",
        LivePreflightStatus::Pass,
        "generate"
    ));
}

fn socket_smoke_env(smoke_ign: &'static str) -> EnvVars {
    env(&[
        ("SAF_RUST_MINECRAFT", "azalea"),
        ("SAF_DISCORD_BOT_ENABLED", "1"),
        ("SAF_DISCORD_TOKEN", "redacted-discord-token"),
        ("SAF_DISCORD_ALLOWED_IDS", "123"),
        ("SAF_LIVE_SMOKE_IGN", smoke_ign),
        (
            "SAF_COFL_SOCKET_MAIN",
            "wss://sky-us.coflnet.com/modsocket?SId=fake",
        ),
    ])
}

fn socket_smoke_config() -> PreflightConfig {
    let mut config = config();
    config.discord_enabled = true;
    config.discord_token = "config-discord-token".to_string();
    config.discord_bot_allowed_ids = strings(&["123"]);
    config
}

fn socket_smoke_facts() -> PreflightFacts {
    let mut socket_facts = facts();
    socket_facts.links_with_session = strings(&["wss://sky-us.coflnet.com/modsocket?SId=fake"]);
    socket_facts.smoke_account = Some("Main".to_string());
    socket_facts
}

#[test]
fn full_preflight_accepts_socket_auth_for_cofl_smoke() {
    let report = run(
        &socket_smoke_config(),
        &full_options(),
        &socket_smoke_env("Main"),
        &socket_smoke_facts(),
    );

    assert!(has_check(&report, "cofl.session", LivePreflightStatus::Pass));
    assert!(has_check(&report, "liveSmoke.coflSession", LivePreflightStatus::Pass));
    assert!(!rendered(&report).contains("fake"));
}

#[test]
fn full_preflight_trims_smoke_ign_before_socket_auth_lookup() {
    let config = socket_smoke_config();
    let env = socket_smoke_env(" Main ");
    let (smoke_account, links) = smoke_and_session_links(&config.startup_account_ids, &env);
    let mut trimmed_facts = facts();
    trimmed_facts.smoke_account = smoke_account;
    trimmed_facts.links_with_session = links;
    assert_eq!(trimmed_facts.smoke_account.as_deref(), Some("Main"));
    let report = run(&config, &full_options(), &env, &trimmed_facts);

    assert!(has_check(&report, "liveSmoke.ign", LivePreflightStatus::Pass));
    assert!(has_check(&report, "liveSmoke.coflSession", LivePreflightStatus::Pass));
}

#[test]
fn missing_state_directory_parent_fails_the_path_check() {
    let mut path_facts = facts();
    path_facts.state_display = "/missing/state".to_string();
    path_facts.state_exists = false;
    path_facts.state_parent_exists = false;
    path_facts.inbox_parent_ready = false;
    let report = run(&config(), &LivePreflightOptions::new(), &env(&[]), &path_facts);
    assert!(!report.ok);
    assert!(report.checks.iter().any(|check| check.name == "paths.stateBaseDir"
        && check.status == LivePreflightStatus::Fail
        && check.message == "parent directory for /missing/state does not exist."));
    assert!(has_check(&report, "paths.commandInbox", LivePreflightStatus::Fail));
}

#[test]
fn dry_run_market_mode_skips_live_action_preflight() {
    assert!(run_live_safety_options(false, ".saf-commands.jsonl", ".", true).is_none());
}

#[test]
fn live_market_mode_requires_live_action_preflight() {
    let options = run_live_safety_options(true, ".saf-commands.jsonl", ".", true)
        .expect("live market actions need a preflight");
    assert!(options.require_minecraft);
    assert!(options.require_cofl);
    assert!(!options.require_discord);
    assert!(!options.full);
    let empty = PreflightConfig {
        default_account: None,
        ..config_with(&[])
    };
    let report = run(&empty, &options, &env(&[]), &facts());

    let error = validate_run_live_safety(&report).unwrap_err();

    assert!(error.contains("config.accounts"));
    assert!(error.contains("minecraft.azalea"));
    assert!(error.starts_with("--market-actions live failed live preflight checks: "));
}

#[test]
fn passing_report_allows_live_market_actions() {
    let report = run(&config(), &LivePreflightOptions::new(), &env(&[]), &facts());
    assert!(report.ok);
    assert_eq!(validate_run_live_safety(&report), Ok(()));
}

#[test]
fn env_secret_values_do_not_change_the_report() {
    let mut smoke_facts = facts();
    smoke_facts.smoke_account = Some("Main".to_string());
    smoke_facts.links_with_session = strings(&[
        "wss://sky.coflnet.com/modsocket?SId=first-secret",
        "wss://sky.coflnet.com/modsocket?SId=second-secret",
    ]);
    let first = run(
        &config(),
        &full_options(),
        &env(&[
            ("SAF_DISCORD_BOT_ENABLED", "1"),
            ("SAF_DISCORD_TOKEN", "token-one"),
            ("SAF_COFL_SESSION", "session-one"),
            ("SAF_LIVE_SMOKE_COFL_SESSION", "smoke-one"),
            ("SAF_COFL_SOCKET_MAIN", "wss://sky.coflnet.com/modsocket?SId=first-secret"),
            ("SAF_LIVE_SMOKE_IGN", "Main"),
        ]),
        &smoke_facts,
    );
    let second = run(
        &config(),
        &full_options(),
        &env(&[
            ("SAF_DISCORD_BOT_ENABLED", "1"),
            ("SAF_DISCORD_TOKEN", "token-two-longer"),
            ("SAF_COFL_SESSION", "session-two"),
            ("SAF_LIVE_SMOKE_COFL_SESSION", "smoke-two"),
            ("SAF_COFL_SOCKET_MAIN", "wss://sky.coflnet.com/modsocket?SId=second-secret"),
            ("SAF_LIVE_SMOKE_IGN", "Main"),
        ]),
        &smoke_facts,
    );
    assert_eq!(rendered(&first), rendered(&second));
    for secret in ["token-one", "session-one", "smoke-one", "first-secret"] {
        assert!(!rendered(&first).contains(secret));
    }
}

#[test]
fn preflight_reports_effective_account_environment_overrides() {
    // igns ["Main", "Alt"], defaultIgn "Main", narrowed by SAF_ONLY_IGNS=Alt,
    // SAF_DEFAULT_IGN=Main and SAF_START_DEFAULT_ONLY=1: the runtime's
    // configuration resolves this to the effective configuration below.
    let effective = PreflightConfig {
        default_account: Some("Alt".to_string()),
        ..config_with(&["Alt"])
    };
    let report = run(
        &effective,
        &LivePreflightOptions::new(),
        &env(&[
            ("SAF_ONLY_IGNS", "Alt"),
            ("SAF_DEFAULT_IGN", "Main"),
            ("SAF_START_DEFAULT_ONLY", "1"),
        ]),
        &facts(),
    );

    assert!(report.ok);
    assert_eq!(report.configured_accounts, vec!["Alt".to_string()]);
    assert_eq!(report.startup_accounts, vec!["Alt".to_string()]);
    assert!(report.checks.iter().any(|check| {
        check.name == "config.defaultAccount"
            && check.status == LivePreflightStatus::Pass
            && check.message.contains("Alt")
    }));
}

#[test]
fn required_actions_ignore_check_messages() {
    let checks = |message: &str| {
        vec![
            LivePreflightCheck {
                name: "discord.token".to_string(),
                status: LivePreflightStatus::Fail,
                message: message.to_string(),
            },
            LivePreflightCheck {
                name: "cofl.session".to_string(),
                status: LivePreflightStatus::Fail,
                message: message.to_string(),
            },
        ]
    };
    let startup = vec!["Main".to_string()];
    let options = LivePreflightOptions::new();
    let first = build_required_actions(&checks("secret-one"), &options, &startup);
    let second = build_required_actions(&checks("other text"), &options, &startup);
    assert_eq!(format!("{first:?}"), format!("{second:?}"));
    assert!(!format!("{first:?}").contains("secret-one"));
    assert!(first.iter().any(|a| a.env.contains(&"SAF_DISCORD_TOKEN=<bot-token>".to_string())));
    assert!(first
        .iter()
        .any(|a| a.env.contains(&"SAF_LIVE_SMOKE_COFL_SESSION=<cofl-session>".to_string())));
}
