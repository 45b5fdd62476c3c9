//! The individual preflight checks and the report that gathers them.
use vstd::prelude::*;
use crate::env_vars::{
    EnvVars, account_env_key, account_needs_session, allowed_discord_ids, allowed_id_set,
    env_discord_allowed_ids, env_id_set, env_key, has_session, link_has_session,
    needs_generated_session, should_generate_cofl_session, str_views_of,
};
use crate::cofl_watchdog::{links_with_session, session_links};
use crate::preflight::{
    LivePreflightCheck, LivePreflightFeatureFlags, LivePreflightOptions, LivePreflightReport,
    LivePreflightStatus, account_check_names, action_models, build_required_actions,
    cofl_check_names, discord_check_names, fail, feature_check, feature_check_names,
    feature_status, names_with_status, pass, path_check_names, required_actions_spec, str_views,
    views, warn,
};
use crate::text::{
    chars_of, concat_str, decimal, decimal_string, eq_ignore_ascii_case, eq_ignore_case, join,
    join_words, string_of, trim, trim_chars,
};

verus! {

/// What the checks read from the operator configuration, once the account
/// environment overrides are applied.
#[derive(Clone, Debug)]
pub struct PreflightConfig {
    /// `session`: the configured Cofl session.
    pub session: String,
    /// `discordBot.token`.
    pub discord_token: String,
    /// `discordBot.enabled`.
    pub discord_enabled: bool,
    /// `allowedIDs`.
    pub allowed_ids: Vec<String>,
    /// `discordBot.allowedIDs`.
    pub discord_bot_allowed_ids: Vec<String>,
    /// `discordId`.
    pub discord_id: String,
    /// The configured accounts.
    pub configured_accounts: Vec<String>,
    /// The accounts started at launch.
    pub startup_accounts: Vec<String>,
    /// Those startup accounts that are valid account ids.
    pub startup_account_ids: Vec<String>,
    /// The account that commands without an explicit account go to.
    pub default_account: Option<String>,
}

/// One entry of the Azalea Microsoft auth cache.
#[derive(Clone, Debug)]
pub struct MicrosoftCacheEntry {
    /// The key the entry is stored under, when the cache is an object.
    pub object_key: Option<String>,
    /// The entry's `cache_key` (or, without one, its `email`).
    pub cache_key: Option<String>,
    /// `mca.expires_at`, in seconds since the epoch.
    pub expires_at: Option<u64>,
}

/// Facts about the machine that the checks depend on.
#[derive(Clone, Debug)]
pub struct PreflightFacts {
    /// The state base directory, as displayed.
    pub state_display: String,
    pub state_exists: bool,
    pub state_is_dir: bool,
    /// The parent of the state base directory exists.
    pub state_parent_exists: bool,
    /// The command inbox's parent directory, as displayed.
    pub inbox_parent_display: String,
    /// That parent exists and is a directory.
    pub inbox_parent_ready: bool,
    /// Cofl socket links, as written, that carry their own session id.
    pub links_with_session: Vec<String>,
    /// `SAF_LIVE_SMOKE_IGN`, trimmed, when it holds more than whitespace.
    pub smoke_account: Option<String>,
    /// Every entry of every Microsoft auth cache file that could be read.
    pub microsoft_cache: Vec<MicrosoftCacheEntry>,
    /// The current time, in seconds since the epoch.
    pub now_seconds: u64,
}

/// The accounts whose Cofl socket links the preflight reads: the startup
/// accounts, then the smoke account when one is named.
pub open spec fn socket_accounts(startup_ids: Seq<Seq<char>>, smoke: Option<Seq<char>>) -> Seq<Seq<char>> {
    match smoke {
        Some(s) => startup_ids.push(s),
        None => startup_ids,
    }
}

/// What the preflight reads of the accounts' Cofl sockets: the smoke account
/// (`SAF_LIVE_SMOKE_IGN`, trimmed, when it holds more than whitespace) and
/// the socket links of the startup accounts and the smoke account that
/// carry a session id (see `session_links`).
pub fn smoke_and_session_links(startup_ids: &Vec<String>, env: &EnvVars) -> (r: (Option<String>, Vec<String>))
    ensures
        match env.trimmed("SAF_LIVE_SMOKE_IGN"@) {
            Some(t) => r.0 matches Some(s) && s@ == t,
            None => r.0 is None,
        },
        views(r.1@) == session_links(*env, socket_accounts(views(startup_ids@), env.trimmed("SAF_LIVE_SMOKE_IGN"@))),
{
    let smoke = match env.trimmed_env("SAF_LIVE_SMOKE_IGN") {
        Some(v) => Some(string_of(&v)),
        None => None,
    };
    let mut accounts = startup_ids.clone();
    let ghost ids = views(startup_ids@);
    assert(views(accounts@) == ids);
    match &smoke {
        Some(s) => {
            accounts.push(s.clone());
            assert(views(accounts@) =~= ids.push(s@));
        },
        None => {},
    }
    let links = links_with_session(env, &accounts);
    (smoke, links)
}

/// A check as plain values.
pub struct CheckModel {
    pub name: Seq<char>,
    pub status: LivePreflightStatus,
    pub message: Seq<char>,
}

pub open spec fn check_model(c: LivePreflightCheck) -> CheckModel {
    CheckModel { name: c.name@, status: c.status, message: c.message@ }
}

pub open spec fn check_models(v: Seq<LivePreflightCheck>) -> Seq<CheckModel> {
    v.map_values(|c: LivePreflightCheck| check_model(c))
}

pub open spec fn cm(name: Seq<char>, status: LivePreflightStatus, message: Seq<char>) -> CheckModel {
    CheckModel { name, status, message }
}

fn push_check(checks: &mut Vec<LivePreflightCheck>, c: LivePreflightCheck)
    ensures
        check_models(final(checks)@) == check_models(old(checks)@).push(check_model(c)),
{
    checks.push(c);
    assert(check_models(checks@) =~= check_models(old(checks)@).push(check_model(c)));
}

fn cat3(a: &str, b: &str, c: &str) -> (r: String)
    ensures
        r@ == a@ + b@ + c@,
{
    let ab = concat_str(a, b);
    concat_str(ab.as_str(), c)
}

/// Account checks: accounts configured, startup accounts resolved, a default
/// account resolved.
pub open spec fn account_checks_spec(
    configured: Seq<Seq<char>>,
    startup: Seq<Seq<char>>,
    default_account: Option<Seq<char>>,
) -> Seq<CheckModel> {
    seq![
        if configured.len() == 0 {
            cm("config.accounts"@, LivePreflightStatus::Fail, "config.json5 does not define any non-empty Minecraft accounts."@)
        } else {
            cm("config.accounts"@, LivePreflightStatus::Pass, decimal(configured.len()) + " configured account(s)."@)
        },
        if startup.len() == 0 {
            cm("config.startupAccounts"@, LivePreflightStatus::Fail, "No startup account resolved from igns/defaultIgn/startDefaultOnly."@)
        } else {
            cm("config.startupAccounts"@, LivePreflightStatus::Pass, "startup target(s): "@ + join(startup, ", "@) + "."@)
        },
        match default_account {
            Some(d) => cm("config.defaultAccount"@, LivePreflightStatus::Pass, "default account resolves to `"@ + d + "`."@),
            None => cm("config.defaultAccount"@, LivePreflightStatus::Warn, "No default account resolved; commands without an explicit account may fail."@),
        },
    ]
}

fn join_strings(v: &Vec<String>, sep: &str) -> (r: String)
    ensures
        r@ == join(views(v@), sep@),
{
    let mut ws: Vec<Vec<char>> = Vec::new();
    let mut i: usize = 0;
    while i < v.len()
        invariant
            i <= v.len(),
            ws@.map_values(|w: Vec<char>| w@) == views(v@).take(i as int),
        decreases v.len() - i,
    {
        let ghost before = ws@.map_values(|w: Vec<char>| w@);
        ws.push(chars_of(v[i].as_str()));
        assert(ws@.map_values(|w: Vec<char>| w@) =~= before.push(v@[i as int]@));
        assert(views(v@).take(i + 1) =~= views(v@).take(i as int).push(v@[i as int]@));
        i = i + 1;
    }
    assert(views(v@).take(v.len() as int) =~= views(v@));
    let s = chars_of(sep);
    let j = join_words(&ws, &s);
    string_of(&j)
}

pub fn push_account_checks(config: &PreflightConfig, checks: &mut Vec<LivePreflightCheck>)
    ensures
        check_models(final(checks)@) == check_models(old(checks)@) + account_checks_spec(
            views(config.configured_accounts@),
            views(config.startup_accounts@),
            match config.default_account {
                Some(d) => Some(d@),
                None => None,
            },
        ),
{
    let ghost start = check_models(checks@);
    if config.configured_accounts.len() == 0 {
        push_check(checks, fail("config.accounts", "config.json5 does not define any non-empty Minecraft accounts."));
    } else {
        let n = decimal_string(config.configured_accounts.len() as u64);
        let msg = concat_str(n.as_str(), " configured account(s).");
        push_check(checks, pass("config.accounts", msg.as_str()));
    }
    if config.startup_accounts.len() == 0 {
        push_check(checks, fail("config.startupAccounts", "No startup account resolved from igns/defaultIgn/startDefaultOnly."));
    } else {
        let joined = join_strings(&config.startup_accounts, ", ");
        let msg = cat3("startup target(s): ", joined.as_str(), ".");
        push_check(checks, pass("config.startupAccounts", msg.as_str()));
    }
    match &config.default_account {
        Some(d) => {
            let msg = cat3("default account resolves to `", d.as_str(), "`.");
            push_check(checks, pass("config.defaultAccount", msg.as_str()));
        },
        None => {
            push_check(checks, warn("config.defaultAccount", "No default account resolved; commands without an explicit account may fail."));
        },
    }
    assert(check_models(checks@) =~= start + account_checks_spec(
        views(config.configured_accounts@),
        views(config.startup_accounts@),
        match config.default_account {
            Some(d) => Some(d@),
            None => None,
        },
    ));
}

/// Path checks: the state base directory, and the command inbox's parent.
pub open spec fn path_checks_spec(f: PreflightFacts) -> Seq<CheckModel> {
    let d = f.state_display@;
    let p = f.inbox_parent_display@;
    seq![
        if f.state_exists && !f.state_is_dir {
            cm("paths.stateBaseDir"@, LivePreflightStatus::Fail, d + " exists but is not a directory."@)
        } else if f.state_exists {
            cm("paths.stateBaseDir"@, LivePreflightStatus::Pass, d + " exists."@)
        } else if f.state_parent_exists {
            cm("paths.stateBaseDir"@, LivePreflightStatus::Warn, d + " does not exist yet; Rust will create state files under it when needed."@)
        } else {
            cm("paths.stateBaseDir"@, LivePreflightStatus::Fail, "parent directory for "@ + d + " does not exist."@)
        },
        if f.inbox_parent_ready {
            cm("paths.commandInbox"@, LivePreflightStatus::Pass, "command inbox parent "@ + p + " exists."@)
        } else {
            cm("paths.commandInbox"@, LivePreflightStatus::Fail, "command inbox parent "@ + p + " does not exist."@)
        },
    ]
}

pub fn push_path_checks(facts: &PreflightFacts, checks: &mut Vec<LivePreflightCheck>)
    ensures
        check_models(final(checks)@) == check_models(old(checks)@) + path_checks_spec(*facts),
{
    let ghost start = check_models(checks@);
    let d = facts.state_display.as_str();
    if facts.state_exists && !facts.state_is_dir {
        let msg = concat_str(d, " exists but is not a directory.");
        push_check(checks, fail("paths.stateBaseDir", msg.as_str()));
    } else if facts.state_exists {
        let msg = concat_str(d, " exists.");
        push_check(checks, pass("paths.stateBaseDir", msg.as_str()));
    } else if facts.state_parent_exists {
        let msg = concat_str(d, " does not exist yet; Rust will create state files under it when needed.");
        push_check(checks, warn("paths.stateBaseDir", msg.as_str()));
    } else {
        let msg = cat3("parent directory for ", d, " does not exist.");
        push_check(checks, fail("paths.stateBaseDir", msg.as_str()));
    }
    let p = facts.inbox_parent_display.as_str();
    if facts.inbox_parent_ready {
        let msg = cat3("command inbox parent ", p, " exists.");
        push_check(checks, pass("paths.commandInbox", msg.as_str()));
    } else {
        let msg = cat3("command inbox parent ", p, " does not exist.");
        push_check(checks, fail("paths.commandInbox", msg.as_str()));
    }
    assert(check_models(checks@) =~= start + path_checks_spec(*facts));
}

/// Feature checks: the production bundle (only for a full run), then the
/// Discord, Cofl and Minecraft features.
pub open spec fn feature_checks_spec(
    f: LivePreflightFeatureFlags,
    require_discord: bool,
    require_cofl: bool,
    require_minecraft: bool,
    require_full: bool,
) -> Seq<CheckModel> {
    let production = if require_full && !f.production_runtime {
        seq![cm("features.productionRuntime"@, LivePreflightStatus::Fail, "full live parity requires building saf-app with --features production-runtime."@)]
    } else if require_full {
        seq![cm("features.productionRuntime"@, LivePreflightStatus::Pass, "production-runtime feature bundle is enabled."@)]
    } else {
        seq![]
    };
    production + seq![
        cm("features.liveDiscord"@, feature_status(f.live_discord, require_discord), if f.live_discord {
            "live-discord feature is enabled."@
        } else {
            "Discord gateway requires --features live-discord or production-runtime."@
        }),
        cm("features.liveCofl"@, feature_status(f.live_cofl, require_cofl), if f.live_cofl {
            "live-cofl feature is enabled."@
        } else {
            "Cofl websocket runtime requires --features live-cofl or production-runtime."@
        }),
        cm("features.liveMinecraft"@, feature_status(f.live_minecraft, require_minecraft), if f.live_minecraft {
            "live-minecraft feature is enabled."@
        } else {
            "native Minecraft login requires --features live-minecraft or production-runtime."@
        }),
    ]
}

fn push_feature(
    checks: &mut Vec<LivePreflightCheck>,
    name: &str,
    enabled: bool,
    required: bool,
    pass_message: &str,
    fail_message: &str,
)
    ensures
        check_models(final(checks)@) == check_models(old(checks)@).push(
            cm(name@, feature_status(enabled, required), if enabled {
                pass_message@
            } else {
                fail_message@
            }),
        ),
{
    feature_check(checks, name, enabled, required, pass_message, fail_message);
    assert(check_models(checks@) =~= check_models(old(checks)@).push(
        cm(name@, feature_status(enabled, required), if enabled {
            pass_message@
        } else {
            fail_message@
        }),
    )) by {
        assert(checks@.take(old(checks)@.len() as int) == old(checks)@);
        assert forall|i: int| 0 <= i < old(checks)@.len() implies checks@[i] == old(checks)@[i] by {
            assert(checks@.take(old(checks)@.len() as int)[i] == checks@[i]);
        }
    }
}

pub fn push_feature_checks(
    features: &LivePreflightFeatureFlags,
    require_discord: bool,
    require_cofl: bool,
    require_minecraft: bool,
    require_full: bool,
    checks: &mut Vec<LivePreflightCheck>,
)
    ensures
        check_models(final(checks)@) == check_models(old(checks)@) + feature_checks_spec(
            *features,
            require_discord,
            require_cofl,
            require_minecraft,
            require_full,
        ),
{
    let ghost start = check_models(checks@);
    if require_full && !features.production_runtime {
        push_check(checks, fail("features.productionRuntime", "full live parity requires building saf-app with --features production-runtime."));
    } else if require_full {
        push_check(checks, pass("features.productionRuntime", "production-runtime feature bundle is enabled."));
    }
    push_feature(
        checks,
        "features.liveDiscord",
        features.live_discord,
        require_discord,
        "live-discord feature is enabled.",
        "Discord gateway requires --features live-discord or production-runtime.",
    );
    push_feature(
        checks,
        "features.liveCofl",
        features.live_cofl,
        require_cofl,
        "live-cofl feature is enabled.",
        "Cofl websocket runtime requires --features live-cofl or production-runtime.",
    );
    push_feature(
        checks,
        "features.liveMinecraft",
        features.live_minecraft,
        require_minecraft,
        "live-minecraft feature is enabled.",
        "native Minecraft login requires --features live-minecraft or production-runtime.",
    );
    assert(check_models(checks@) =~= start + feature_checks_spec(
        *features,
        require_discord,
        require_cofl,
        require_minecraft,
        require_full,
    ));
}

/// The raw Discord ids of the configuration: `allowedIDs`,
/// `discordBot.allowedIDs`, then `discordId`.
pub open spec fn config_id_raws(c: PreflightConfig) -> Seq<Seq<char>> {
    views(c.allowed_ids@) + views(c.discord_bot_allowed_ids@) + seq![c.discord_id@]
}

/// Discord checks: token, gateway enabled, allowed users, and for a full
/// smoke run the environment values the smoke harness reads.
pub open spec fn discord_checks_spec(c: PreflightConfig, required: bool, full_smoke: bool, env: EnvVars) -> Seq<CheckModel> {
    let token = env.non_empty("SAF_DISCORD_TOKEN"@) || trim(c.discord_token@).len() > 0;
    let enabled = env.truthy("SAF_DISCORD_BOT_ENABLED"@) || c.discord_enabled || token;
    let allowed = allowed_id_set(config_id_raws(c), env).len();
    let smoke_allowed = env_id_set(env).len();
    let base = seq![
        if token {
            cm("discord.token"@, LivePreflightStatus::Pass, "Discord token is configured without exposing its value."@)
        } else if required {
            cm("discord.token"@, LivePreflightStatus::Fail, "Discord gateway requires SAF_DISCORD_TOKEN or discordBot.token."@)
        } else {
            cm("discord.token"@, LivePreflightStatus::Warn, "Discord token is not configured; gateway stays disabled."@)
        },
        if enabled {
            cm("discord.enabled"@, LivePreflightStatus::Pass, "Discord gateway is enabled."@)
        } else if required {
            cm("discord.enabled"@, LivePreflightStatus::Fail, "Discord gateway is required but not enabled; set SAF_DISCORD_BOT_ENABLED=1."@)
        } else {
            cm("discord.enabled"@, LivePreflightStatus::Warn, "Discord gateway is disabled for this run."@)
        },
        if allowed == 0 {
            cm("discord.allowedUsers"@, if required {
                LivePreflightStatus::Fail
            } else {
                LivePreflightStatus::Warn
            }, "No Discord allowed-user IDs configured; the gateway will deny every Discord user who can invoke it."@)
        } else {
            cm("discord.allowedUsers"@, LivePreflightStatus::Pass, decimal(allowed) + " allowed Discord user ID(s) configured."@)
        },
    ];
    if full_smoke {
        base + seq![
            if env.truthy("SAF_DISCORD_BOT_ENABLED"@) {
                cm("liveSmoke.discordEnabled"@, LivePreflightStatus::Pass, "SAF_DISCORD_BOT_ENABLED=1 is set for env-gated smoke tests."@)
            } else {
                cm("liveSmoke.discordEnabled"@, LivePreflightStatus::Fail, "full live smoke requires SAF_DISCORD_BOT_ENABLED=1."@)
            },
            if env.non_empty("SAF_DISCORD_TOKEN"@) {
                cm("liveSmoke.discordToken"@, LivePreflightStatus::Pass, "SAF_DISCORD_TOKEN is set for env-gated smoke tests."@)
            } else {
                cm("liveSmoke.discordToken"@, LivePreflightStatus::Fail, "full live smoke reads SAF_DISCORD_TOKEN from the environment."@)
            },
            if smoke_allowed == 0 {
                cm("liveSmoke.discordAllowedUsers"@, LivePreflightStatus::Fail, "full live smoke requires SAF_DISCORD_ALLOWED_IDS with at least one numeric Discord user ID."@)
            } else {
                cm("liveSmoke.discordAllowedUsers"@, LivePreflightStatus::Pass, decimal(smoke_allowed) + " numeric Discord user ID(s) configured for env-gated smoke tests."@)
            },
        ]
    } else {
        base
    }
}

fn config_raws(config: &PreflightConfig) -> (r: Vec<String>)
    ensures
        str_views_of(r@) == config_id_raws(*config),
{
    let mut r: Vec<String> = Vec::new();
    let mut i: usize = 0;
    while i < config.allowed_ids.len()
        invariant
            i <= config.allowed_ids.len(),
            str_views_of(r@) == views(config.allowed_ids@).take(i as int),
        decreases config.allowed_ids.len() - i,
    {
        let ghost before = str_views_of(r@);
        r.push(config.allowed_ids[i].clone());
        assert(str_views_of(r@) =~= before.push(config.allowed_ids@[i as int]@));
        assert(views(config.allowed_ids@).take(i + 1) =~= views(config.allowed_ids@).take(i as int).push(config.allowed_ids@[i as int]@));
        assert(str_views_of(r@) =~= views(config.allowed_ids@).take(i + 1));
        i = i + 1;
    }
    assert(views(config.allowed_ids@).take(config.allowed_ids.len() as int) =~= views(config.allowed_ids@));
    let mut j: usize = 0;
    while j < config.discord_bot_allowed_ids.len()
        invariant
            j <= config.discord_bot_allowed_ids.len(),
            str_views_of(r@) == views(config.allowed_ids@) + views(config.discord_bot_allowed_ids@).take(j as int),
        decreases config.discord_bot_allowed_ids.len() - j,
    {
        let ghost before = str_views_of(r@);
        r.push(config.discord_bot_allowed_ids[j].clone());
        assert(str_views_of(r@) =~= before.push(config.discord_bot_allowed_ids@[j as int]@));
        assert(views(config.discord_bot_allowed_ids@).take(j + 1) =~= views(config.discord_bot_allowed_ids@).take(j as int).push(config.discord_bot_allowed_ids@[j as int]@));
        assert(str_views_of(r@) =~= views(config.allowed_ids@) + views(config.discord_bot_allowed_ids@).take(j + 1));
        j = j + 1;
    }
    assert(views(config.discord_bot_allowed_ids@).take(config.discord_bot_allowed_ids.len() as int) =~= views(config.discord_bot_allowed_ids@));
    r.push(config.discord_id.clone());
    assert(str_views_of(r@) =~= config_id_raws(*config));
    r
}

pub fn push_discord_checks(
    config: &PreflightConfig,
    required: bool,
    full_smoke: bool,
    env: &EnvVars,
    checks: &mut Vec<LivePreflightCheck>,
)
    ensures
        check_models(final(checks)@) == check_models(old(checks)@) + discord_checks_spec(
            *config,
            required,
            full_smoke,
            *env,
        ),
{
    let ghost start = check_models(checks@);
    let token_chars = chars_of(config.discord_token.as_str());
    let token_trimmed = trim_chars(&token_chars);
    let token_configured = env.non_empty_env("SAF_DISCORD_TOKEN") || token_trimmed.len() > 0;
    let enabled = env.truthy_env("SAF_DISCORD_BOT_ENABLED") || config.discord_enabled || token_configured;
    let raws = config_raws(config);
    let allowed_ids = allowed_discord_ids(&raws, env);

    if token_configured {
        push_check(checks, pass("discord.token", "Discord token is configured without exposing its value."));
    } else if required {
        push_check(checks, fail("discord.token", "Discord gateway requires SAF_DISCORD_TOKEN or discordBot.token."));
    } else {
        push_check(checks, warn("discord.token", "Discord token is not configured; gateway stays disabled."));
    }
    if enabled {
        push_check(checks, pass("discord.enabled", "Discord gateway is enabled."));
    } else if required {
        push_check(checks, fail("discord.enabled", "Discord gateway is required but not enabled; set SAF_DISCORD_BOT_ENABLED=1."));
    } else {
        push_check(checks, warn("discord.enabled", "Discord gateway is disabled for this run."));
    }
    if allowed_ids.len() == 0 {
        let message = "No Discord allowed-user IDs configured; the gateway will deny every Discord user who can invoke it.";
        if required {
            push_check(checks, fail("discord.allowedUsers", message));
        } else {
            push_check(checks, warn("discord.allowedUsers", message));
        }
    } else {
        let n = decimal_string(allowed_ids.len() as u64);
        let msg = concat_str(n.as_str(), " allowed Discord user ID(s) configured.");
        push_check(checks, pass("discord.allowedUsers", msg.as_str()));
    }
    let ghost mid = check_models(checks@);
    if full_smoke {
        if env.truthy_env("SAF_DISCORD_BOT_ENABLED") {
            push_check(checks, pass("liveSmoke.discordEnabled", "SAF_DISCORD_BOT_ENABLED=1 is set for env-gated smoke tests."));
        } else {
            push_check(checks, fail("liveSmoke.discordEnabled", "full live smoke requires SAF_DISCORD_BOT_ENABLED=1."));
        }
        if env.non_empty_env("SAF_DISCORD_TOKEN") {
            push_check(checks, pass("liveSmoke.discordToken", "SAF_DISCORD_TOKEN is set for env-gated smoke tests."));
        } else {
            push_check(checks, fail("liveSmoke.discordToken", "full live smoke reads SAF_DISCORD_TOKEN from the environment."));
        }
        let smoke_ids = env_discord_allowed_ids(env);
        proof {
            crate::env_vars::lemma_sorted_no_duplicates(str_views_of(smoke_ids@));
            str_views_of(smoke_ids@).unique_seq_to_set();
        }
        if smoke_ids.len() == 0 {
            push_check(checks, fail("liveSmoke.discordAllowedUsers", "full live smoke requires SAF_DISCORD_ALLOWED_IDS with at least one numeric Discord user ID."));
        } else {
            let n = decimal_string(smoke_ids.len() as u64);
            let msg = concat_str(n.as_str(), " numeric Discord user ID(s) configured for env-gated smoke tests.");
            push_check(checks, pass("liveSmoke.discordAllowedUsers", msg.as_str()));
        }
    }
    assert(check_models(checks@) =~= start + discord_checks_spec(*config, required, full_smoke, *env));
}

/// How many startup accounts have a socket link that can authenticate
/// (`.0`: with a session of its own, or any link when a shared session
/// exists), and how many have a link without one (`.1`).
pub open spec fn socket_counts(env: EnvVars, links: Seq<String>, shared: bool, ids: Seq<Seq<char>>) -> (nat, nat)
    decreases ids.len(),
{
    if ids.len() == 0 {
        (0, 0)
    } else {
        let (with, without) = socket_counts(env, links, shared, ids.drop_last());
        match env.trimmed(env_key("SAF_COFL_SOCKET"@, ids.last())) {
            None => (with, without),
            Some(link) => if shared || has_session(links, link) {
                (with + 1, without)
            } else {
                (with, without + 1)
            },
        }
    }
}

/// The env-gated Cofl smoke run can authenticate: a smoke or shared session
/// is set, or the smoke account's socket link carries a session.
pub open spec fn smoke_cofl_auth(env: EnvVars, facts: PreflightFacts) -> bool {
    ||| env.non_empty("SAF_LIVE_SMOKE_COFL_SESSION"@)
    ||| env.non_empty("SAF_COFL_SESSION"@)
    ||| (facts.smoke_account matches Some(a) && env.lookup(env_key("SAF_COFL_SOCKET"@, a@)) matches Some(
        link,
    ) && has_session(facts.links_with_session@, link))
}

pub open spec fn missing_socket_message(without: nat, uncovered: nat) -> Seq<char> {
    let first = decimal(without) + " account-specific Cofl socket link(s) are set without an SId query parameter"@;
    let second = decimal(uncovered) + " startup account(s) have no Cofl session/socket auth"@;
    let parts = if without > 0 && uncovered > 0 {
        first + "; "@ + second
    } else if without > 0 {
        first
    } else {
        second
    };
    parts + "; configure config.session, SAF_COFL_SESSION, or SAF_COFL_SOCKET_<IGN> with SId."@
}

/// Cofl checks: whether the startup accounts can authenticate, and for a
/// full smoke run whether the smoke account can.
pub open spec fn cofl_checks_spec(c: PreflightConfig, facts: PreflightFacts, required: bool, full_smoke: bool, env: EnvVars) -> Seq<CheckModel> {
    let shared = trim(c.session@).len() > 0 || env.non_empty("SAF_COFL_SESSION"@);
    let can_generate = needs_generated_session(c.session@, c.startup_account_ids@, env, facts.links_with_session@);
    let (with, without) = socket_counts(env, facts.links_with_session@, shared, views(c.startup_account_ids@));
    let n = c.startup_accounts.len();
    let uncovered: nat = if !shared && n > with + without {
        (n - (with + without)) as nat
    } else {
        0
    };
    let first = if shared {
        cm("cofl.session"@, LivePreflightStatus::Pass, "Cofl session is configured without exposing its value."@)
    } else if can_generate {
        cm("cofl.session"@, LivePreflightStatus::Pass, "Cofl session is not configured yet; run-live will generate and persist one before connecting Cofl."@)
    } else if with == n && n > 0 {
        cm("cofl.session"@, LivePreflightStatus::Pass, decimal(with) + " account-specific Cofl socket link(s) configured."@)
    } else if without > 0 || uncovered > 0 {
        cm("cofl.session"@, if required {
            LivePreflightStatus::Fail
        } else {
            LivePreflightStatus::Warn
        }, missing_socket_message(without, uncovered))
    } else if required {
        cm("cofl.session"@, LivePreflightStatus::Fail, "Cofl live runtime requires config.session, SAF_COFL_SESSION, or SAF_COFL_SOCKET_<IGN>."@)
    } else {
        cm("cofl.session"@, LivePreflightStatus::Warn, "No Cofl session/socket configured; run-live can still start with --disable-cofl."@)
    };
    let smoke = if full_smoke {
        seq![
            if smoke_cofl_auth(env, facts) {
                cm("liveSmoke.coflSession"@, LivePreflightStatus::Pass, "Cofl session/socket auth is set for env-gated smoke tests."@)
            } else {
                cm("liveSmoke.coflSession"@, LivePreflightStatus::Fail, "full live smoke requires SAF_LIVE_SMOKE_COFL_SESSION, SAF_COFL_SESSION, or SAF_COFL_SOCKET_<SAF_LIVE_SMOKE_IGN> with SId."@)
            },
        ]
    } else {
        seq![]
    };
    seq![first] + smoke
}

fn live_smoke_cofl_auth_configured(env: &EnvVars, facts: &PreflightFacts) -> (r: bool)
    ensures
        r == smoke_cofl_auth(*env, *facts),
{
    if env.non_empty_env("SAF_LIVE_SMOKE_COFL_SESSION") || env.non_empty_env("SAF_COFL_SESSION") {
        return true;
    }
    match &facts.smoke_account {
        None => false,
        Some(account) => {
            let key = account_env_key("SAF_COFL_SOCKET", account.as_str());
            match env.get(key.as_str()) {
                Some(link) => {
                    let l = chars_of(link.as_str());
                    link_has_session(&facts.links_with_session, &l)
                },
                None => false,
            }
        },
    }
}

pub fn push_cofl_checks(
    config: &PreflightConfig,
    facts: &PreflightFacts,
    required: bool,
    full_smoke: bool,
    env: &EnvVars,
    checks: &mut Vec<LivePreflightCheck>,
)
    ensures
        check_models(final(checks)@) == check_models(old(checks)@) + cofl_checks_spec(
            *config,
            *facts,
            required,
            full_smoke,
            *env,
        ),
{
    let ghost start = check_models(checks@);
    let session_chars = chars_of(config.session.as_str());
    let session_trimmed = trim_chars(&session_chars);
    let has_session = session_trimmed.len() > 0 || env.non_empty_env("SAF_COFL_SESSION");
    let can_generate = should_generate_cofl_session(
        config.session.as_str(),
        &config.startup_account_ids,
        env,
        &facts.links_with_session,
    );
    let ids = &config.startup_account_ids;
    let mut socket_accounts: usize = 0;
    let mut socket_without_session: usize = 0;
    let mut i: usize = 0;
    while i < ids.len()
        invariant
            i <= ids.len(),
            socket_accounts + socket_without_session <= i,
            (socket_accounts as nat, socket_without_session as nat) == socket_counts(
                *env,
                facts.links_with_session@,
                has_session,
                views(ids@).take(i as int),
            ),
        decreases ids.len() - i,
    {
        assert(views(ids@).take(i + 1).drop_last() =~= views(ids@).take(i as int));
        assert(views(ids@).take(i + 1).last() == ids@[i as int]@);
        let key = account_env_key("SAF_COFL_SOCKET", ids[i].as_str());
        match env.trimmed_env(key.as_str()) {
            None => {},
            Some(link) => {
                if has_session || link_has_session(&facts.links_with_session, &link) {
                    socket_accounts = socket_accounts + 1;
                } else {
                    socket_without_session = socket_without_session + 1;
                }
            },
        }
        i = i + 1;
    }
    assert(views(ids@).take(ids.len() as int) =~= views(ids@));
    let n = config.startup_accounts.len();
    let covered = socket_accounts + socket_without_session;
    let accounts_without_session: usize = if !has_session && n > covered {
        n - covered
    } else {
        0
    };
    if has_session {
        push_check(checks, pass("cofl.session", "Cofl session is configured without exposing its value."));
    } else if can_generate {
        push_check(checks, pass("cofl.session", "Cofl session is not configured yet; run-live will generate and persist one before connecting Cofl."));
    } else if socket_accounts == n && n > 0 {
        let count = decimal_string(socket_accounts as u64);
        let msg = concat_str(count.as_str(), " account-specific Cofl socket link(s) configured.");
        push_check(checks, pass("cofl.session", msg.as_str()));
    } else if socket_without_session > 0 || accounts_without_session > 0 {
        let first_count = decimal_string(socket_without_session as u64);
        let first = concat_str(first_count.as_str(), " account-specific Cofl socket link(s) are set without an SId query parameter");
        let second_count = decimal_string(accounts_without_session as u64);
        let second = concat_str(second_count.as_str(), " startup account(s) have no Cofl session/socket auth");
        let parts = if socket_without_session > 0 && accounts_without_session > 0 {
            cat3(first.as_str(), "; ", second.as_str())
        } else if socket_without_session > 0 {
            first
        } else {
            second
        };
        let message = concat_str(parts.as_str(), "; configure config.session, SAF_COFL_SESSION, or SAF_COFL_SOCKET_<IGN> with SId.");
        if required {
            push_check(checks, fail("cofl.session", message.as_str()));
        } else {
            push_check(checks, warn("cofl.session", message.as_str()));
        }
    } else if required {
        push_check(checks, fail("cofl.session", "Cofl live runtime requires config.session, SAF_COFL_SESSION, or SAF_COFL_SOCKET_<IGN>."));
    } else {
        push_check(checks, warn("cofl.session", "No Cofl session/socket configured; run-live can still start with --disable-cofl."));
    }
    if full_smoke {
        if live_smoke_cofl_auth_configured(env, facts) {
            push_check(checks, pass("liveSmoke.coflSession", "Cofl session/socket auth is set for env-gated smoke tests."));
        } else {
            push_check(checks, fail("liveSmoke.coflSession", "full live smoke requires SAF_LIVE_SMOKE_COFL_SESSION, SAF_COFL_SESSION, or SAF_COFL_SOCKET_<SAF_LIVE_SMOKE_IGN> with SId."));
        }
    }
    assert(check_models(checks@) =~= start + cofl_checks_spec(*config, *facts, required, full_smoke, *env));
}

/// A cache entry holds a Minecraft token that has not expired.
pub open spec fn cache_entry_valid(e: MicrosoftCacheEntry, now: u64) -> bool {
    e.expires_at matches Some(t) && t > now
}

/// The Microsoft auth cache holds a valid entry for `key`: one whose
/// `cache_key`/`email`, or whose key in an object-shaped cache, is `key`.
pub open spec fn cache_has_key(entries: Seq<MicrosoftCacheEntry>, key: Seq<char>, now: u64) -> bool {
    exists|i: int|
        0 <= i < entries.len() && cache_entry_valid(#[trigger] entries[i], now) && ((entries[i].cache_key matches Some(k) && k@ == key) || (entries[i].object_key matches Some(k) && k@ == key))
}

fn opt_equals(o: &Option<String>, key: &Vec<char>) -> (r: bool)
    ensures
        r == (o matches Some(k) && k@ == key@),
{
    match o {
        Some(k) => {
            let c = chars_of(k.as_str());
            crate::text::chars_equal(&c, key)
        },
        None => false,
    }
}

pub fn microsoft_auth_cache_contains_key(entries: &Vec<MicrosoftCacheEntry>, key: &Vec<char>, now: u64) -> (r: bool)
    ensures
        r == cache_has_key(entries@, key@, now),
{
    let mut i: usize = 0;
    while i < entries.len()
        invariant
            i <= entries.len(),
            forall|k: int| 0 <= k < i ==> !(cache_entry_valid(#[trigger] entries@[k], now) && ((entries@[k].cache_key matches Some(c) && c@ == key@) || (entries@[k].object_key matches Some(c) && c@ == key@))),
        decreases entries.len() - i,
    {
        let e = &entries[i];
        let valid = match e.expires_at {
            Some(t) => t > now,
            None => false,
        };
        if valid && (opt_equals(&e.cache_key, key) || opt_equals(&e.object_key, key)) {
            assert(cache_entry_valid(entries@[i as int], now));
            return true;
        }
        i = i + 1;
    }
    false
}

/// The cache key of an account: `SAF_MICROSOFT_CACHE_<IGN>` when set, else the account.
pub open spec fn cache_key_for(env: EnvVars, account: Seq<char>) -> Seq<char> {
    match env.trimmed(env_key("SAF_MICROSOFT_CACHE"@, account)) {
        Some(k) => k,
        None => account,
    }
}

/// The startup accounts without a valid cache entry, each as `account: key`
/// (naming the variable when one is set) or `account: default cache key`.
pub open spec fn missing_auth(env: EnvVars, facts: PreflightFacts, ids: Seq<Seq<char>>) -> Seq<Seq<char>>
    decreases ids.len(),
{
    if ids.len() == 0 {
        seq![]
    } else {
        let rest = missing_auth(env, facts, ids.drop_last());
        let a = ids.last();
        if cache_has_key(facts.microsoft_cache@, cache_key_for(env, a), facts.now_seconds) {
            rest
        } else {
            let key = env_key("SAF_MICROSOFT_CACHE"@, a);
            rest.push(if env.non_empty(key) {
                a + ": "@ + key
            } else {
                a + ": default cache key"@
            })
        }
    }
}

/// Minecraft checks: the native runtime flag and, when Minecraft is
/// required, the Microsoft auth cache of every startup account.
pub open spec fn minecraft_checks_spec(ids: Seq<Seq<char>>, required: bool, env: EnvVars, facts: PreflightFacts) -> Seq<CheckModel> {
    let azalea = env.lookup("SAF_RUST_MINECRAFT"@) matches Some(v) && eq_ignore_case(trim(v), "azalea"@);
    let first = if azalea {
        cm("minecraft.azalea"@, LivePreflightStatus::Pass, "SAF_RUST_MINECRAFT=azalea is set."@)
    } else if required {
        cm("minecraft.azalea"@, LivePreflightStatus::Fail, "native Minecraft live smoke requires SAF_RUST_MINECRAFT=azalea."@)
    } else {
        cm("minecraft.azalea"@, LivePreflightStatus::Warn, "SAF_RUST_MINECRAFT=azalea is not set; Rust will use recorded Minecraft clients."@)
    };
    let missing = missing_auth(env, facts, ids);
    if !required {
        seq![first]
    } else if ids.len() == 0 {
        seq![first, cm("minecraft.microsoftAuth"@, LivePreflightStatus::Fail, "No startup accounts are available for Microsoft auth."@)]
    } else if missing.len() == 0 {
        seq![first, cm("minecraft.microsoftAuth"@, LivePreflightStatus::Pass, "Azalea Microsoft auth cache contains startup account entries: "@ + join(ids, ", "@) + "."@)]
    } else {
        seq![first, cm("minecraft.microsoftAuth"@, LivePreflightStatus::Warn, "Microsoft auth may require an interactive/device login before live smoke: "@ + join(missing, ", "@) + "."@)]
    }
}

pub fn push_minecraft_checks(
    startup_account_ids: &Vec<String>,
    required: bool,
    env: &EnvVars,
    facts: &PreflightFacts,
    checks: &mut Vec<LivePreflightCheck>,
)
    ensures
        check_models(final(checks)@) == check_models(old(checks)@) + minecraft_checks_spec(
            views(startup_account_ids@),
            required,
            *env,
            *facts,
        ),
{
    let ghost start = check_models(checks@);
    let ghost ids = views(startup_account_ids@);
    let azalea_enabled = match env.get("SAF_RUST_MINECRAFT") {
        Some(v) => {
            let c = chars_of(v.as_str());
            let t = trim_chars(&c);
            let az = chars_of("azalea");
            eq_ignore_ascii_case(&t, &az)
        },
        None => false,
    };
    if azalea_enabled {
        push_check(checks, pass("minecraft.azalea", "SAF_RUST_MINECRAFT=azalea is set."));
    } else if required {
        push_check(checks, fail("minecraft.azalea", "native Minecraft live smoke requires SAF_RUST_MINECRAFT=azalea."));
    } else {
        push_check(checks, warn("minecraft.azalea", "SAF_RUST_MINECRAFT=azalea is not set; Rust will use recorded Minecraft clients."));
    }
    if required {
        if startup_account_ids.len() == 0 {
            push_check(checks, fail("minecraft.microsoftAuth", "No startup accounts are available for Microsoft auth."));
            assert(check_models(checks@) =~= start + minecraft_checks_spec(ids, required, *env, *facts));
            return;
        }
        let mut missing: Vec<String> = Vec::new();
        let mut i: usize = 0;
        while i < startup_account_ids.len()
            invariant
                i <= startup_account_ids.len(),
                ids == views(startup_account_ids@),
                views(missing@) == missing_auth(*env, *facts, ids.take(i as int)),
            decreases startup_account_ids.len() - i,
        {
            assert(ids.take(i + 1).drop_last() =~= ids.take(i as int));
            assert(ids.take(i + 1).last() == startup_account_ids@[i as int]@);
            let account = startup_account_ids[i].as_str();
            let key = account_env_key("SAF_MICROSOFT_CACHE", account);
            let cache_key = match env.trimmed_env(key.as_str()) {
                Some(k) => k,
                None => chars_of(account),
            };
            if !microsoft_auth_cache_contains_key(&facts.microsoft_cache, &cache_key, facts.now_seconds) {
                let line = if env.non_empty_env(key.as_str()) {
                    cat3(account, ": ", key.as_str())
                } else {
                    concat_str(account, ": default cache key")
                };
                let ghost before = views(missing@);
                missing.push(line);
                assert(views(missing@) =~= before.push(line@));
            }
            i = i + 1;
        }
        assert(ids.take(startup_account_ids.len() as int) =~= ids);
        if missing.len() == 0 {
            let joined = join_strings(startup_account_ids, ", ");
            let msg = cat3("Azalea Microsoft auth cache contains startup account entries: ", joined.as_str(), ".");
            push_check(checks, pass("minecraft.microsoftAuth", msg.as_str()));
        } else {
            let joined = join_strings(&missing, ", ");
            let msg = cat3("Microsoft auth may require an interactive/device login before live smoke: ", joined.as_str(), ".");
            push_check(checks, warn("minecraft.microsoftAuth", msg.as_str()));
        }
    }
    assert(check_models(checks@) =~= start + minecraft_checks_spec(ids, required, *env, *facts));
}

/// The smoke account check of a full run: `SAF_LIVE_SMOKE_IGN` is set and
/// names a configured account (any case).
pub open spec fn smoke_account_checks_spec(configured: Seq<Seq<char>>, full_smoke: bool, env: EnvVars) -> Seq<CheckModel> {
    if !full_smoke {
        seq![]
    } else {
        match env.trimmed("SAF_LIVE_SMOKE_IGN"@) {
            None => seq![cm("liveSmoke.ign"@, LivePreflightStatus::Fail, "full live smoke requires SAF_LIVE_SMOKE_IGN so the harness does not use the placeholder SmokeAccount."@)],
            Some(s) => if exists|i: int| 0 <= i < configured.len() && eq_ignore_case(#[trigger] configured[i], s) {
                seq![cm("liveSmoke.ign"@, LivePreflightStatus::Pass, "SAF_LIVE_SMOKE_IGN is configured for `"@ + s + "`."@)]
            } else {
                seq![cm("liveSmoke.ign"@, LivePreflightStatus::Fail, "SAF_LIVE_SMOKE_IGN `"@ + s + "` is not present in configured igns."@)]
            },
        }
    }
}

pub fn push_live_smoke_account_checks(
    config: &PreflightConfig,
    full_smoke: bool,
    env: &EnvVars,
    checks: &mut Vec<LivePreflightCheck>,
)
    ensures
        check_models(final(checks)@) == check_models(old(checks)@) + smoke_account_checks_spec(
            views(config.configured_accounts@),
            full_smoke,
            *env,
        ),
{
    let ghost start = check_models(checks@);
    let ghost configured = views(config.configured_accounts@);
    if !full_smoke {
        assert(check_models(checks@) =~= start + smoke_account_checks_spec(configured, full_smoke, *env));
        return;
    }
    let smoke = match env.trimmed_env("SAF_LIVE_SMOKE_IGN") {
        Some(s) => s,
        None => {
            push_check(checks, fail("liveSmoke.ign", "full live smoke requires SAF_LIVE_SMOKE_IGN so the harness does not use the placeholder SmokeAccount."));
            assert(check_models(checks@) =~= start + smoke_account_checks_spec(configured, full_smoke, *env));
            return;
        },
    };
    let smoke_name = string_of(&smoke);
    let mut found = false;
    let mut i: usize = 0;
    while i < config.configured_accounts.len()
        invariant
            i <= config.configured_accounts.len(),
            configured == views(config.configured_accounts@),
            found == (exists|k: int| 0 <= k < i && eq_ignore_case(#[trigger] configured[k], smoke@)),
        decreases config.configured_accounts.len() - i,
    {
        let c = chars_of(config.configured_accounts[i].as_str());
        if eq_ignore_ascii_case(&c, &smoke) {
            found = true;
            assert(eq_ignore_case(configured[i as int], smoke@));
        }
        i = i + 1;
    }
    if found {
        let msg = cat3("SAF_LIVE_SMOKE_IGN is configured for `", smoke_name.as_str(), "`.");
        push_check(checks, pass("liveSmoke.ign", msg.as_str()));
    } else {
        let msg = cat3("SAF_LIVE_SMOKE_IGN `", smoke_name.as_str(), "` is not present in configured igns.");
        push_check(checks, fail("liveSmoke.ign", msg.as_str()));
    }
    assert(check_models(checks@) =~= start + smoke_account_checks_spec(configured, full_smoke, *env));
}

/// All checks of a preflight run, in order.
pub open spec fn all_checks_spec(
    c: PreflightConfig,
    o: LivePreflightOptions,
    env: EnvVars,
    facts: PreflightFacts,
    features: LivePreflightFeatureFlags,
) -> Seq<CheckModel> {
    let require_discord = o.full || o.require_discord;
    let require_cofl = o.full || o.require_cofl;
    let require_minecraft = o.full || o.require_minecraft;
    account_checks_spec(views(c.configured_accounts@), views(c.startup_accounts@), match c.default_account {
        Some(d) => Some(d@),
        None => None,
    }) + path_checks_spec(facts) + feature_checks_spec(
        features,
        require_discord,
        require_cofl,
        require_minecraft,
        o.full,
    ) + discord_checks_spec(c, require_discord, o.full, env) + cofl_checks_spec(
        c,
        facts,
        require_cofl,
        o.full,
        env,
    ) + minecraft_checks_spec(views(c.startup_account_ids@), require_minecraft, env, facts)
        + smoke_account_checks_spec(views(c.configured_accounts@), o.full, env)
}

/// Runs every preflight check and derives the operator actions.  The report
/// is `ok` exactly when no check failed.
pub fn run_live_preflight_with_env(
    config: &PreflightConfig,
    options: &LivePreflightOptions,
    env: &EnvVars,
    facts: &PreflightFacts,
    feature_flags: LivePreflightFeatureFlags,
) -> (r: LivePreflightReport)
    ensures
        check_models(r.checks@) == all_checks_spec(*config, *options, *env, *facts, feature_flags),
        r.ok == (forall|i: int| 0 <= i < r.checks@.len() ==> #[trigger] r.checks@[i].status != LivePreflightStatus::Fail),
        action_models(r.required_actions@) == required_actions_spec(
            r.checks@,
            options.full,
            options.require_minecraft,
            views(config.startup_accounts@),
        ),
        r.configured_accounts@ == config.configured_accounts@,
        r.startup_accounts@ == config.startup_accounts@,
        r.feature_flags == feature_flags,
{
    let require_discord = options.full || options.require_discord;
    let require_cofl = options.full || options.require_cofl;
    let require_minecraft = options.full || options.require_minecraft;
    let mut checks: Vec<LivePreflightCheck> = Vec::new();
    assert(check_models(checks@) =~= Seq::<CheckModel>::empty());
    push_account_checks(config, &mut checks);
    push_path_checks(facts, &mut checks);
    push_feature_checks(&feature_flags, require_discord, require_cofl, require_minecraft, options.full, &mut checks);
    push_discord_checks(config, require_discord, options.full, env, &mut checks);
    push_cofl_checks(config, facts, require_cofl, options.full, env, &mut checks);
    push_minecraft_checks(&config.startup_account_ids, require_minecraft, env, facts, &mut checks);
    push_live_smoke_account_checks(config, options.full, env, &mut checks);
    assert(check_models(checks@) =~= all_checks_spec(*config, *options, *env, *facts, feature_flags));
    let mut ok = true;
    let mut i: usize = 0;
    while i < checks.len()
        invariant
            i <= checks.len(),
            ok == (forall|k: int| 0 <= k < i ==> #[trigger] checks@[k].status != LivePreflightStatus::Fail),
        decreases checks.len() - i,
    {
        if checks[i].status == LivePreflightStatus::Fail {
            ok = false;
        }
        i = i + 1;
    }
    let required_actions = build_required_actions(&checks, options, &config.startup_accounts);
    LivePreflightReport {
        ok,
        configured_accounts: crate::preflight::clone_strings(&config.configured_accounts),
        startup_accounts: crate::preflight::clone_strings(&config.startup_accounts),
        feature_flags,
        checks,
        required_actions,
    }
}


/// The report never shows the configured secrets: two configurations that
/// differ only in the Discord token and the Cofl session (each set in both
/// or blank in both) give the same checks.
pub proof fn lemma_checks_hide_secrets(
    c: PreflightConfig,
    token: String,
    session: String,
    o: LivePreflightOptions,
    env: EnvVars,
    facts: PreflightFacts,
    features: LivePreflightFeatureFlags,
)
    requires
        (trim(token@).len() > 0) == (trim(c.discord_token@).len() > 0),
        (trim(session@).len() > 0) == (trim(c.session@).len() > 0),
    ensures
        all_checks_spec(PreflightConfig { discord_token: token, session, ..c }, o, env, facts, features)
            == all_checks_spec(c, o, env, facts, features),
{
    let d = PreflightConfig { discord_token: token, session, ..c };
    let require_discord = o.full || o.require_discord;
    let require_cofl = o.full || o.require_cofl;
    assert(config_id_raws(d) == config_id_raws(c));
    assert(discord_checks_spec(d, require_discord, o.full, env) == discord_checks_spec(c, require_discord, o.full, env));
    assert(cofl_checks_spec(d, facts, require_cofl, o.full, env) == cofl_checks_spec(c, facts, require_cofl, o.full, env));
}

/// The environment variables that hold secrets: the Discord token, the
/// shared and smoke Cofl sessions, and each account's Cofl socket link
/// (which carries the account's session id).
pub open spec fn secret_env_name(n: Seq<char>) -> bool {
    ||| n == "SAF_DISCORD_TOKEN"@
    ||| n == "SAF_COFL_SESSION"@
    ||| n == "SAF_LIVE_SMOKE_COFL_SESSION"@
    ||| exists|a: Seq<char>| n == #[trigger] env_key("SAF_COFL_SOCKET"@, a)
}

/// Two values of a secret variable look alike from outside: both unset, or
/// both set, both blank or both not, and each a link with a session id
/// exactly when the other is (as written and trimmed).
pub open spec fn same_secret_shape(a: Option<Seq<char>>, b: Option<Seq<char>>, links: Seq<String>) -> bool {
    match (a, b) {
        (None, None) => true,
        (Some(x), Some(y)) => {
            &&& (trim(x).len() > 0) == (trim(y).len() > 0)
            &&& has_session(links, x) == has_session(links, y)
            &&& has_session(links, trim(x)) == has_session(links, trim(y))
        },
        _ => false,
    }
}

/// `e2` is `e1` with the values of its secret variables changed, each for
/// one of the same shape.
pub open spec fn differ_only_in_secrets(e1: EnvVars, e2: EnvVars, links: Seq<String>) -> bool {
    forall|n: Seq<char>|
        #![trigger e1.lookup(n)]
        #![trigger e2.lookup(n)]
        if secret_env_name(n) {
            same_secret_shape(e1.lookup(n), e2.lookup(n), links)
        } else {
            e1.lookup(n) == e2.lookup(n)
        }
}

proof fn lemma_socket_key_shape(a: Seq<char>)
    ensures
        env_key("SAF_COFL_SOCKET"@, a).len() > 4,
        env_key("SAF_COFL_SOCKET"@, a)[4] == 'C',
{
    reveal_strlit("SAF_COFL_SOCKET");
}

/// A name that is none of the secret ones.
proof fn lemma_not_secret(n: Seq<char>)
    requires
        n.len() > 4,
        n[4] != 'C',
        n != "SAF_DISCORD_TOKEN"@,
        n != "SAF_LIVE_SMOKE_COFL_SESSION"@,
    ensures
        !secret_env_name(n),
{
    reveal_strlit("SAF_COFL_SESSION");
    assert forall|a: Seq<char>| n != #[trigger] env_key("SAF_COFL_SOCKET"@, a) by {
        lemma_socket_key_shape(a);
    }
}

proof fn lemma_socket_key_secret(a: Seq<char>)
    ensures
        secret_env_name(env_key("SAF_COFL_SOCKET"@, a)),
{
    assert(env_key("SAF_COFL_SOCKET"@, a) == env_key("SAF_COFL_SOCKET"@, a));
}

proof fn lemma_cache_key_not_secret(a: Seq<char>)
    ensures
        !secret_env_name(env_key("SAF_MICROSOFT_CACHE"@, a)),
{
    reveal_strlit("SAF_MICROSOFT_CACHE");
    reveal_strlit("SAF_DISCORD_TOKEN");
    reveal_strlit("SAF_LIVE_SMOKE_COFL_SESSION");
    let n = env_key("SAF_MICROSOFT_CACHE"@, a);
    assert(n[4] == 'M');
    assert(n != "SAF_DISCORD_TOKEN"@) by {
        assert("SAF_DISCORD_TOKEN"@[4] == 'D');
    }
    assert(n != "SAF_LIVE_SMOKE_COFL_SESSION"@) by {
        assert("SAF_LIVE_SMOKE_COFL_SESSION"@[4] == 'L');
    }
    lemma_not_secret(n);
}

proof fn lemma_socket_counts_hide(e1: EnvVars, e2: EnvVars, links: Seq<String>, shared: bool, ids: Seq<Seq<char>>)
    requires
        differ_only_in_secrets(e1, e2, links),
    ensures
        socket_counts(e1, links, shared, ids) == socket_counts(e2, links, shared, ids),
    decreases ids.len(),
{
    if ids.len() > 0 {
        lemma_socket_counts_hide(e1, e2, links, shared, ids.drop_last());
        let k = env_key("SAF_COFL_SOCKET"@, ids.last());
        lemma_socket_key_secret(ids.last());
        assert(same_secret_shape(e1.lookup(k), e2.lookup(k), links));
    }
}

proof fn lemma_missing_auth_hide(e1: EnvVars, e2: EnvVars, links: Seq<String>, facts: PreflightFacts, ids: Seq<Seq<char>>)
    requires
        differ_only_in_secrets(e1, e2, links),
    ensures
        missing_auth(e1, facts, ids) == missing_auth(e2, facts, ids),
    decreases ids.len(),
{
    if ids.len() > 0 {
        lemma_missing_auth_hide(e1, e2, links, facts, ids.drop_last());
        let k = env_key("SAF_MICROSOFT_CACHE"@, ids.last());
        lemma_cache_key_not_secret(ids.last());
        assert(e1.lookup(k) == e2.lookup(k));
    }
}

/// The report never shows the secrets of the environment: two
/// environments that differ only in the values of the Discord token, the
/// Cofl sessions and the accounts' Cofl socket links (each value replaced
/// by one that is set, blank, and a link with a session id exactly when
/// the first is) give the same checks, hence the same `ok` and the same
/// required actions.
pub proof fn lemma_checks_hide_env_secrets(
    c: PreflightConfig,
    o: LivePreflightOptions,
    e1: EnvVars,
    e2: EnvVars,
    facts: PreflightFacts,
    features: LivePreflightFeatureFlags,
)
    requires
        differ_only_in_secrets(e1, e2, facts.links_with_session@),
    ensures
        all_checks_spec(c, o, e2, facts, features) == all_checks_spec(c, o, e1, facts, features),
{
    let links = facts.links_with_session@;
    reveal_strlit("SAF_DISCORD_TOKEN");
    reveal_strlit("SAF_COFL_SESSION");
    reveal_strlit("SAF_LIVE_SMOKE_COFL_SESSION");
    reveal_strlit("SAF_DISCORD_BOT_ENABLED");
    reveal_strlit("SAF_DISCORD_ALLOWED_IDS");
    reveal_strlit("SAF_RUST_MINECRAFT");
    reveal_strlit("SAF_LIVE_SMOKE_IGN");
    // The secrets: only their shape is read.
    assert(secret_env_name("SAF_DISCORD_TOKEN"@));
    assert(secret_env_name("SAF_COFL_SESSION"@));
    assert(secret_env_name("SAF_LIVE_SMOKE_COFL_SESSION"@));
    assert(same_secret_shape(e1.lookup("SAF_DISCORD_TOKEN"@), e2.lookup("SAF_DISCORD_TOKEN"@), links));
    assert(same_secret_shape(e1.lookup("SAF_COFL_SESSION"@), e2.lookup("SAF_COFL_SESSION"@), links));
    assert(same_secret_shape(
        e1.lookup("SAF_LIVE_SMOKE_COFL_SESSION"@),
        e2.lookup("SAF_LIVE_SMOKE_COFL_SESSION"@),
        links,
    ));
    // The other variables read are the same.
    assert("SAF_DISCORD_BOT_ENABLED"@.len() != "SAF_DISCORD_TOKEN"@.len());
    assert("SAF_DISCORD_ALLOWED_IDS"@.len() != "SAF_DISCORD_TOKEN"@.len());
    assert("SAF_RUST_MINECRAFT"@.len() != "SAF_DISCORD_TOKEN"@.len());
    assert("SAF_LIVE_SMOKE_IGN"@.len() != "SAF_DISCORD_TOKEN"@.len());
    assert("SAF_DISCORD_BOT_ENABLED"@.len() != "SAF_LIVE_SMOKE_COFL_SESSION"@.len());
    assert("SAF_DISCORD_ALLOWED_IDS"@.len() != "SAF_LIVE_SMOKE_COFL_SESSION"@.len());
    assert("SAF_RUST_MINECRAFT"@.len() != "SAF_LIVE_SMOKE_COFL_SESSION"@.len());
    assert("SAF_LIVE_SMOKE_IGN"@.len() != "SAF_LIVE_SMOKE_COFL_SESSION"@.len());
    lemma_not_secret("SAF_DISCORD_BOT_ENABLED"@);
    lemma_not_secret("SAF_DISCORD_ALLOWED_IDS"@);
    lemma_not_secret("SAF_RUST_MINECRAFT"@);
    lemma_not_secret("SAF_LIVE_SMOKE_IGN"@);
    assert(e1.lookup("SAF_DISCORD_BOT_ENABLED"@) == e2.lookup("SAF_DISCORD_BOT_ENABLED"@));
    assert(e1.lookup("SAF_DISCORD_ALLOWED_IDS"@) == e2.lookup("SAF_DISCORD_ALLOWED_IDS"@));
    assert(e1.lookup("SAF_RUST_MINECRAFT"@) == e2.lookup("SAF_RUST_MINECRAFT"@));
    assert(e1.lookup("SAF_LIVE_SMOKE_IGN"@) == e2.lookup("SAF_LIVE_SMOKE_IGN"@));
    let require_discord = o.full || o.require_discord;
    let require_cofl = o.full || o.require_cofl;
    let require_minecraft = o.full || o.require_minecraft;
    assert(env_id_set(e1) == env_id_set(e2));
    assert(allowed_id_set(config_id_raws(c), e1) == allowed_id_set(config_id_raws(c), e2));
    assert(discord_checks_spec(c, require_discord, o.full, e1) == discord_checks_spec(c, require_discord, o.full, e2));
    let ids = views(c.startup_account_ids@);
    lemma_socket_counts_hide(e1, e2, links, true, ids);
    lemma_socket_counts_hide(e1, e2, links, false, ids);
    assert forall|i: int| 0 <= i < c.startup_account_ids@.len() implies account_needs_session(
        e1,
        links,
        #[trigger] c.startup_account_ids@[i]@,
    ) == account_needs_session(e2, links, c.startup_account_ids@[i]@) by {
        let k = env_key("SAF_COFL_SOCKET"@, c.startup_account_ids@[i]@);
        lemma_socket_key_secret(c.startup_account_ids@[i]@);
        assert(same_secret_shape(e1.lookup(k), e2.lookup(k), links));
    }
    assert(needs_generated_session(c.session@, c.startup_account_ids@, e1, links) == needs_generated_session(
        c.session@,
        c.startup_account_ids@,
        e2,
        links,
    ));
    match facts.smoke_account {
        Some(a) => {
            let k = env_key("SAF_COFL_SOCKET"@, a@);
            lemma_socket_key_secret(a@);
            assert(same_secret_shape(e1.lookup(k), e2.lookup(k), links));
        },
        None => {},
    }
    assert(smoke_cofl_auth(e1, facts) == smoke_cofl_auth(e2, facts));
    assert(cofl_checks_spec(c, facts, require_cofl, o.full, e1) == cofl_checks_spec(c, facts, require_cofl, o.full, e2));
    lemma_missing_auth_hide(e1, e2, links, facts, views(c.startup_account_ids@));
    assert(minecraft_checks_spec(views(c.startup_account_ids@), require_minecraft, e1, facts) == minecraft_checks_spec(
        views(c.startup_account_ids@),
        require_minecraft,
        e2,
        facts,
    ));
    assert(smoke_account_checks_spec(views(c.configured_accounts@), o.full, e1) == smoke_account_checks_spec(
        views(c.configured_accounts@),
        o.full,
        e2,
    ));
}

/// Two check lists with the same names and statuses, check by check.
pub open spec fn same_names_and_statuses(a: Seq<LivePreflightCheck>, b: Seq<LivePreflightCheck>) -> bool {
    a.len() == b.len() && forall|i: int|
        0 <= i < a.len() ==> (#[trigger] a[i]).name@ == b[i].name@ && a[i].status == b[i].status
}

proof fn lemma_names_follow(
    a: Seq<LivePreflightCheck>,
    b: Seq<LivePreflightCheck>,
    names: Seq<Seq<char>>,
    status: LivePreflightStatus,
)
    requires
        same_names_and_statuses(a, b),
    ensures
        names_with_status(a, names, status) == names_with_status(b, names, status),
    decreases a.len(),
{
    if a.len() > 0 {
        assert(same_names_and_statuses(a.drop_last(), b.drop_last())) by {
            assert forall|i: int| 0 <= i < a.drop_last().len() implies (#[trigger] a.drop_last()[i]).name@
                == b.drop_last()[i].name@ && a.drop_last()[i].status == b.drop_last()[i].status by {
                assert(a.drop_last()[i] == a[i]);
                assert(b.drop_last()[i] == b[i]);
            }
        }
        lemma_names_follow(a.drop_last(), b.drop_last(), names, status);
        assert(a.last() == a[a.len() - 1]);
        assert(b.last() == b[b.len() - 1]);
    }
}

/// The required actions depend on the checks only through their names and
/// statuses: check lists that agree on those, whatever their messages, give
/// the same actions and the same `ok`.
pub proof fn lemma_actions_follow_names_and_statuses(
    a: Seq<LivePreflightCheck>,
    b: Seq<LivePreflightCheck>,
    full: bool,
    require_minecraft: bool,
    startup: Seq<Seq<char>>,
)
    requires
        same_names_and_statuses(a, b),
    ensures
        required_actions_spec(a, full, require_minecraft, startup) == required_actions_spec(
            b,
            full,
            require_minecraft,
            startup,
        ),
        (forall|i: int| 0 <= i < a.len() ==> #[trigger] a[i].status != LivePreflightStatus::Fail) == (forall|
            i: int,
        | 0 <= i < b.len() ==> #[trigger] b[i].status != LivePreflightStatus::Fail),
{
    let fail = LivePreflightStatus::Fail;
    lemma_names_follow(a, b, str_views(account_check_names()), fail);
    lemma_names_follow(a, b, str_views(path_check_names()), fail);
    lemma_names_follow(a, b, str_views(feature_check_names()), fail);
    lemma_names_follow(a, b, str_views(discord_check_names()), fail);
    lemma_names_follow(a, b, str_views(cofl_check_names()), fail);
    lemma_names_follow(a, b, seq!["minecraft.azalea"@], fail);
    lemma_names_follow(a, b, seq!["liveSmoke.ign"@], fail);
    lemma_names_follow(a, b, seq!["minecraft.microsoftAuth"@], LivePreflightStatus::Warn);
    assert forall|i: int| 0 <= i < a.len() implies a[i].status == #[trigger] b[i].status by {
        assert(a[i].name@ == b[i].name@ && a[i].status == b[i].status);
    }
}

/// Checks that read alike give the same actions and the same `ok`.
pub proof fn lemma_actions_follow_checks(
    a: Seq<LivePreflightCheck>,
    b: Seq<LivePreflightCheck>,
    full: bool,
    require_minecraft: bool,
    startup: Seq<Seq<char>>,
)
    requires
        check_models(a) == check_models(b),
    ensures
        required_actions_spec(a, full, require_minecraft, startup) == required_actions_spec(
            b,
            full,
            require_minecraft,
            startup,
        ),
        (forall|i: int| 0 <= i < a.len() ==> #[trigger] a[i].status != LivePreflightStatus::Fail) == (forall|
            i: int,
        | 0 <= i < b.len() ==> #[trigger] b[i].status != LivePreflightStatus::Fail),
{
    assert(a.len() == check_models(a).len());
    assert(b.len() == check_models(b).len());
    assert forall|i: int| 0 <= i < a.len() implies (#[trigger] a[i]).name@ == b[i].name@ && a[i].status == b[i].status by {
        assert(check_models(a)[i] == check_model(a[i]));
        assert(check_models(b)[i] == check_model(b[i]));
    }
    lemma_actions_follow_names_and_statuses(a, b, full, require_minecraft, startup);
}

/// The whole report hides the environment's secrets: for two environments
/// that differ only in the values of their secret variables (see
/// `differ_only_in_secrets`), the reports that `run_live_preflight_with_env`
/// gives for one configuration, options, facts and build have the same
/// checks, the same `ok` and the same required actions; their other fields
/// do not read the environment at all.  So no secret value can show in a
/// report, however it is printed.
pub proof fn lemma_report_hides_env_secrets(
    c: PreflightConfig,
    o: LivePreflightOptions,
    e1: EnvVars,
    e2: EnvVars,
    facts: PreflightFacts,
    features: LivePreflightFeatureFlags,
    checks1: Seq<LivePreflightCheck>,
    checks2: Seq<LivePreflightCheck>,
)
    requires
        differ_only_in_secrets(e1, e2, facts.links_with_session@),
        check_models(checks1) == all_checks_spec(c, o, e1, facts, features),
        check_models(checks2) == all_checks_spec(c, o, e2, facts, features),
    ensures
        check_models(checks1) == check_models(checks2),
        required_actions_spec(checks1, o.full, o.require_minecraft, views(c.startup_accounts@))
            == required_actions_spec(checks2, o.full, o.require_minecraft, views(c.startup_accounts@)),
        (forall|i: int| 0 <= i < checks1.len() ==> #[trigger] checks1[i].status != LivePreflightStatus::Fail) == (
        forall|i: int| 0 <= i < checks2.len() ==> #[trigger] checks2[i].status != LivePreflightStatus::Fail),
{
    lemma_checks_hide_env_secrets(c, o, e1, e2, facts, features);
    lemma_actions_follow_checks(checks1, checks2, o.full, o.require_minecraft, views(c.startup_accounts@));
}

} // verus!
