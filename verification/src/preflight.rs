//! The live preflight report: named checks with a pass/warn/fail status, and
//! the operator actions that the failing checks call for.
use vstd::prelude::*;
use crate::text::{chars_of, concat_str, str_equal};

verus! {

/// Outcome of one preflight check.
#[derive(Clone, Copy, Debug, PartialEq, Eq, Structural)]
pub enum LivePreflightStatus {
    Pass,
    Warn,
    Fail,
}

/// One preflight check: a dotted name, its status and an operator message.
#[derive(Clone, Debug, PartialEq, Eq)]
pub struct LivePreflightCheck {
    pub name: String,
    pub status: LivePreflightStatus,
    pub message: String,
}

/// What an operator can do about a group of failing checks.
#[derive(Clone, Debug, PartialEq, Eq)]
pub struct LivePreflightRequiredAction {
    pub id: String,
    pub category: String,
    pub title: String,
    pub detail: String,
    pub checks: Vec<String>,
    pub env: Vec<String>,
    pub commands: Vec<String>,
}

/// Which live features the running build was compiled with.
#[derive(Clone, Copy, Debug, PartialEq, Eq, Structural)]
pub struct LivePreflightFeatureFlags {
    pub live_cofl: bool,
    pub live_discord: bool,
    pub live_minecraft: bool,
    pub production_runtime: bool,
}

/// What a preflight run should insist on, and where the runtime keeps its files.
#[derive(Clone, Debug, PartialEq, Eq)]
pub struct LivePreflightOptions {
    pub command_inbox: String,
    pub state_base_dir: String,
    pub require_discord: bool,
    pub require_cofl: bool,
    pub require_minecraft: bool,
    pub full: bool,
}

/// The whole preflight report.
#[derive(Clone, Debug, PartialEq, Eq)]
pub struct LivePreflightReport {
    pub ok: bool,
    pub configured_accounts: Vec<String>,
    pub startup_accounts: Vec<String>,
    pub feature_flags: LivePreflightFeatureFlags,
    pub checks: Vec<LivePreflightCheck>,
    pub required_actions: Vec<LivePreflightRequiredAction>,
}

impl LivePreflightOptions {
    /// The defaults: inbox `.saf-commands.jsonl`, state in `.`, nothing required.
    pub fn new() -> (r: Self)
        ensures
            r.command_inbox@ == ".saf-commands.jsonl"@,
            r.state_base_dir@ == "."@,
            !r.require_discord && !r.require_cofl && !r.require_minecraft && !r.full,
    {
        LivePreflightOptions {
            command_inbox: ".saf-commands.jsonl".to_owned(),
            state_base_dir: ".".to_owned(),
            require_discord: false,
            require_cofl: false,
            require_minecraft: false,
            full: false,
        }
    }
}

/// Contents of a list of strings.
pub open spec fn views(v: Seq<String>) -> Seq<Seq<char>> {
    v.map_values(|s: String| s@)
}

/// A required action as plain sequences.
pub struct ActionModel {
    pub id: Seq<char>,
    pub category: Seq<char>,
    pub title: Seq<char>,
    pub detail: Seq<char>,
    pub checks: Seq<Seq<char>>,
    pub env: Seq<Seq<char>>,
    pub commands: Seq<Seq<char>>,
}

pub open spec fn action_model(a: LivePreflightRequiredAction) -> ActionModel {
    ActionModel {
        id: a.id@,
        category: a.category@,
        title: a.title@,
        detail: a.detail@,
        checks: views(a.checks@),
        env: views(a.env@),
        commands: views(a.commands@),
    }
}

pub open spec fn action_models(v: Seq<LivePreflightRequiredAction>) -> Seq<ActionModel> {
    v.map_values(|a: LivePreflightRequiredAction| action_model(a))
}

pub fn pass(name: &str, message: &str) -> (c: LivePreflightCheck)
    ensures
        c.name@ == name@,
        c.status == LivePreflightStatus::Pass,
        c.message@ == message@,
{
    LivePreflightCheck { name: name.to_owned(), status: LivePreflightStatus::Pass, message: message.to_owned() }
}

pub fn warn(name: &str, message: &str) -> (c: LivePreflightCheck)
    ensures
        c.name@ == name@,
        c.status == LivePreflightStatus::Warn,
        c.message@ == message@,
{
    LivePreflightCheck { name: name.to_owned(), status: LivePreflightStatus::Warn, message: message.to_owned() }
}

pub fn fail(name: &str, message: &str) -> (c: LivePreflightCheck)
    ensures
        c.name@ == name@,
        c.status == LivePreflightStatus::Fail,
        c.message@ == message@,
{
    LivePreflightCheck { name: name.to_owned(), status: LivePreflightStatus::Fail, message: message.to_owned() }
}

/// Status of a feature check: pass when enabled, else fail when required,
/// else warn.
pub open spec fn feature_status(enabled: bool, required: bool) -> LivePreflightStatus {
    if enabled {
        LivePreflightStatus::Pass
    } else if required {
        LivePreflightStatus::Fail
    } else {
        LivePreflightStatus::Warn
    }
}

/// Appends a feature check named `name`: passing with `pass_message` when the
/// feature is enabled, otherwise failing (when required) or warning with
/// `fail_message`.
pub fn feature_check(
    checks: &mut Vec<LivePreflightCheck>,
    name: &str,
    enabled: bool,
    required: bool,
    pass_message: &str,
    fail_message: &str,
)
    ensures
        final(checks)@.len() == old(checks)@.len() + 1,
        final(checks)@.take(old(checks)@.len() as int) == old(checks)@,
        final(checks)@.last().name@ == name@,
        final(checks)@.last().status == feature_status(enabled, required),
        final(checks)@.last().message@ == (if enabled {
            pass_message@
        } else {
            fail_message@
        }),
{
    if enabled {
        checks.push(pass(name, pass_message));
    } else if required {
        checks.push(fail(name, fail_message));
    } else {
        checks.push(warn(name, fail_message));
    }
    assert(checks@.take(old(checks)@.len() as int) =~= old(checks)@);
}

/// Names, in check order, of the checks with `status` whose name is one of `names`.
pub open spec fn names_with_status(
    checks: Seq<LivePreflightCheck>,
    names: Seq<Seq<char>>,
    status: LivePreflightStatus,
) -> Seq<Seq<char>>
    decreases checks.len(),
{
    if checks.len() == 0 {
        seq![]
    } else {
        let rest = names_with_status(checks.drop_last(), names, status);
        let c = checks.last();
        if c.status == status && names.contains(c.name@) {
            rest.push(c.name@)
        } else {
            rest
        }
    }
}

fn name_listed(name: &String, list: &Vec<&str>) -> (r: bool)
    ensures
        r == str_views(list@).contains(name@),
{
    let mut i: usize = 0;
    while i < list.len()
        invariant
            i <= list.len(),
            forall|k: int| 0 <= k < i ==> list@[k]@ != name@,
        decreases list.len() - i,
    {
        if str_equal(name.as_str(), list[i]) {
            assert(str_views(list@)[i as int] == name@);
            return true;
        }
        i = i + 1;
    }
    assert(!str_views(list@).contains(name@)) by {
        if str_views(list@).contains(name@) {
            let k = choose|k: int| 0 <= k < list@.len() && #[trigger] str_views(list@)[k] == name@;
            assert(list@[k]@ == name@);
        }
    }
    false
}

/// Names, in check order, of the checks with `status` whose name is one of `names`.
pub fn check_names_with_status(
    checks: &Vec<LivePreflightCheck>,
    names: &Vec<&str>,
    status: LivePreflightStatus,
) -> (r: Vec<String>)
    ensures
        views(r@) == names_with_status(checks@, str_views(names@), status),
{
    let ghost nm = str_views(names@);
    let mut r: Vec<String> = Vec::new();
    let mut i: usize = 0;
    while i < checks.len()
        invariant
            i <= checks.len(),
            nm == str_views(names@),
            views(r@) == names_with_status(checks@.take(i as int), nm, status),
        decreases checks.len() - i,
    {
        let c = &checks[i];
        assert(checks@.take(i + 1).drop_last() =~= checks@.take(i as int));
        assert(checks@.take(i + 1).last() == checks@[i as int]);
        if c.status == status && name_listed(&c.name, names) {
            r.push(c.name.clone());
            assert(views(r@) =~= names_with_status(checks@.take(i as int), nm, status).push(
                c.name@,
            ));
        }
        i = i + 1;
    }
    assert(checks@.take(checks.len() as int) =~= checks@);
    r
}

/// A copy of a list of strings.
pub fn clone_strings(v: &Vec<String>) -> (r: Vec<String>)
    ensures
        r@ == v@,
{
    let r = v.clone();
    assert forall|i: int| 0 <= i < v.len() implies r@[i] == v@[i] by {
        assert(cloned::<String>(v[i], r[i]));
    }
    assert(r@ =~= v@);
    r
}

/// A list of one string.
pub fn list1(a: &str) -> (r: Vec<String>)
    ensures
        views(r@) == seq![a@],
{
    let mut r: Vec<String> = Vec::new();
    r.push(a.to_owned());
    assert(views(r@) =~= seq![a@]);
    r
}

/// A list of two strings.
pub fn list2(a: &str, b: &str) -> (r: Vec<String>)
    ensures
        views(r@) == seq![a@, b@],
{
    let mut r: Vec<String> = Vec::new();
    r.push(a.to_owned());
    r.push(b.to_owned());
    assert(views(r@) =~= seq![a@, b@]);
    r
}

/// A list of three strings.
pub fn list3(a: &str, b: &str, c: &str) -> (r: Vec<String>)
    ensures
        views(r@) == seq![a@, b@, c@],
{
    let mut r: Vec<String> = Vec::new();
    r.push(a.to_owned());
    r.push(b.to_owned());
    r.push(c.to_owned());
    assert(views(r@) =~= seq![a@, b@, c@]);
    r
}

pub fn required_action(
    id: &str,
    category: &str,
    title: &str,
    detail: &str,
    checks: Vec<String>,
    env: Vec<String>,
    commands: Vec<String>,
) -> (r: LivePreflightRequiredAction)
    ensures
        r.id@ == id@,
        r.category@ == category@,
        r.title@ == title@,
        r.detail@ == detail@,
        r.checks == checks,
        r.env == env,
        r.commands == commands,
{
    LivePreflightRequiredAction {
        id: id.to_owned(),
        category: category.to_owned(),
        title: title.to_owned(),
        detail: detail.to_owned(),
        checks,
        env,
        commands,
    }
}

pub open spec fn model(
    id: &str,
    category: &str,
    title: &str,
    detail: &str,
    checks: Seq<Seq<char>>,
    env: Seq<Seq<char>>,
    commands: Seq<Seq<char>>,
) -> ActionModel {
    ActionModel { id: id@, category: category@, title: title@, detail: detail@, checks, env, commands }
}

pub open spec fn when(cond: bool, a: ActionModel) -> Seq<ActionModel> {
    if cond {
        seq![a]
    } else {
        seq![]
    }
}

/// One command per startup account (`prefix` + account), or the placeholder
/// `prefix<ign>` when there is none; then the setup command.
pub open spec fn per_account_commands(prefix: Seq<char>, startup: Seq<Seq<char>>) -> Seq<Seq<char>> {
    let first = if startup.len() == 0 {
        seq![prefix + "<ign>"@]
    } else {
        startup.map_values(|a: Seq<char>| prefix + a)
    };
    first.push("./saf.sh rust-live-setup"@)
}

pub open spec fn str_views(v: Seq<&str>) -> Seq<Seq<char>> {
    v.map_values(|s: &str| s@)
}

pub open spec fn account_check_names() -> Seq<&'static str> {
    seq!["config.accounts", "config.startupAccounts", "config.defaultAccount"]
}

pub open spec fn path_check_names() -> Seq<&'static str> {
    seq!["paths.stateBaseDir", "paths.commandInbox"]
}

pub open spec fn feature_check_names() -> Seq<&'static str> {
    seq!["features.productionRuntime", "features.liveDiscord", "features.liveCofl", "features.liveMinecraft"]
}

pub open spec fn discord_check_names() -> Seq<&'static str> {
    seq![
        "discord.token",
        "discord.enabled",
        "discord.allowedUsers",
        "liveSmoke.discordEnabled",
        "liveSmoke.discordToken",
        "liveSmoke.discordAllowedUsers",
    ]
}

pub open spec fn cofl_check_names() -> Seq<&'static str> {
    seq!["cofl.session", "liveSmoke.coflSession"]
}

/// The actions that `build_required_actions` derives from the checks, in
/// order: accounts, paths, features, Discord, Cofl, Minecraft, smoke
/// account, then Microsoft auth warm-up (only when Minecraft is required).
pub open spec fn required_actions_spec(
    checks: Seq<LivePreflightCheck>,
    full: bool,
    require_minecraft: bool,
    startup: Seq<Seq<char>>,
) -> Seq<ActionModel> {
    let fail = LivePreflightStatus::Fail;
    let accounts = names_with_status(checks, str_views(account_check_names()), fail);
    let paths = names_with_status(checks, str_views(path_check_names()), fail);
    let features = names_with_status(checks, str_views(feature_check_names()), fail);
    let discord = names_with_status(checks, str_views(discord_check_names()), fail);
    let cofl = names_with_status(checks, str_views(cofl_check_names()), fail);
    let minecraft = names_with_status(checks, seq!["minecraft.azalea"@], fail);
    let smoke = names_with_status(checks, seq!["liveSmoke.ign"@], fail);
    let microsoft = names_with_status(
        checks,
        seq!["minecraft.microsoftAuth"@],
        LivePreflightStatus::Warn,
    );
    let suggested = if startup.len() == 0 {
        "<configured-ign>"@
    } else {
        startup[0]
    };
    when(accounts.len() > 0, model(
        "configure-accounts",
        "config",
        "Configure Minecraft accounts",
        "Set at least one non-empty account and a resolvable startup/default account in config.json5, or narrow the process with the supported account environment overrides.",
        accounts,
        seq!["SAF_ONLY_IGNS=<ign>[,<ign>]"@, "SAF_DEFAULT_IGN=<ign>"@, "SAF_START_DEFAULT_ONLY=1"@],
        seq!["./saf.sh rust-live-setup"@],
    )) + when(paths.len() > 0, model(
        "fix-runtime-paths",
        "paths",
        "Create runtime paths",
        "Create the state base directory and command inbox parent directory before starting the Rust live runtime.",
        paths,
        seq![],
        seq!["mkdir -p <state-base-dir>"@, "mkdir -p <command-inbox-parent>"@, "./saf.sh rust-live-setup"@],
    )) + when(features.len() > 0, model(
        "build-production-runtime",
        "features",
        "Build the production runtime feature bundle",
        "Run the full Rust live runtime through the production-runtime feature bundle so Discord, Cofl, and native Minecraft are compiled together.",
        features,
        seq![],
        seq!["./saf.sh rust-production-check"@, "./saf.sh rust-live-setup"@],
    )) + when(discord.len() > 0, model(
        "configure-discord-gateway",
        "discord",
        "Configure Discord gateway access",
        "Provide the Discord bot token, enable the gateway, and configure at least one numeric allowed Discord user ID for live smoke and production control.",
        discord,
        seq![
            "SAF_DISCORD_BOT_ENABLED=1"@,
            "SAF_DISCORD_TOKEN=<bot-token>"@,
            "SAF_DISCORD_ALLOWED_IDS=<discord-user-id>[,<discord-user-id>]"@,
        ],
        seq!["./saf.sh rust-live-setup"@],
    )) + when(cofl.len() > 0, model(
        "configure-cofl-auth",
        "cofl",
        "Configure Cofl session or socket auth",
        "Run the Cofl auth-link helper for a configured account, complete the SkyCofl browser login, then provide a global Cofl session, a smoke-test Cofl session, or an account-specific socket URL with an SId query value for the live smoke account.",
        cofl,
        seq![
            "SAF_COFL_SESSION=<cofl-session>"@,
            "SAF_LIVE_SMOKE_COFL_SESSION=<cofl-session>"@,
            "SAF_COFL_SOCKET_<IGN>=wss://.../modsocket?SId=<session>"@,
        ],
        per_account_commands("./saf.sh rust-cofl-auth-link "@, startup),
    )) + when(minecraft.len() > 0, model(
        "enable-native-minecraft",
        "minecraft",
        "Enable native Minecraft runtime",
        "Set the native Minecraft runtime flag so live smoke and Rust production mode use Azalea instead of recorded clients.",
        minecraft,
        seq!["SAF_RUST_MINECRAFT=azalea"@],
        seq![
            "SAF_RUST_MINECRAFT=azalea ./saf.sh rust-live-setup"@,
            "SAF_RUST_MINECRAFT=azalea ./saf.sh rust-minecraft-auth <ign>"@,
        ],
    )) + when(smoke.len() > 0, model(
        "set-live-smoke-account",
        "smoke",
        "Choose the live smoke account",
        "Set the configured Minecraft account that the env-gated live smoke harness is allowed to use.",
        smoke,
        seq!["SAF_LIVE_SMOKE_IGN="@ + suggested],
        seq!["./saf.sh rust-live-setup"@],
    )) + when((full || require_minecraft) && microsoft.len() > 0, model(
        "warm-microsoft-auth",
        "minecraft",
        "Complete Microsoft auth cache warmup",
        "Run the Azalea Microsoft auth helper for each startup account before live smoke. The helper may print a Microsoft device-login URL and code when the cache is cold.",
        microsoft,
        seq!["SAF_MICROSOFT_CACHE_<IGN>=<cache-key>"@],
        per_account_commands("SAF_RUST_MINECRAFT=azalea ./saf.sh rust-minecraft-auth "@, startup),
    ))
}

/// An environment line that a required action suggests: one of the fixed
/// placeholder lines, or the smoke account line naming the first startup
/// account (a placeholder where there is none).  No line carries a value
/// read from the environment or from a check.
pub open spec fn suggested_env_line(l: Seq<char>, startup: Seq<Seq<char>>) -> bool {
    ||| l == "SAF_ONLY_IGNS=<ign>[,<ign>]"@
    ||| l == "SAF_DEFAULT_IGN=<ign>"@
    ||| l == "SAF_START_DEFAULT_ONLY=1"@
    ||| l == "SAF_DISCORD_BOT_ENABLED=1"@
    ||| l == "SAF_DISCORD_TOKEN=<bot-token>"@
    ||| l == "SAF_DISCORD_ALLOWED_IDS=<discord-user-id>[,<discord-user-id>]"@
    ||| l == "SAF_COFL_SESSION=<cofl-session>"@
    ||| l == "SAF_LIVE_SMOKE_COFL_SESSION=<cofl-session>"@
    ||| l == "SAF_COFL_SOCKET_<IGN>=wss://.../modsocket?SId=<session>"@
    ||| l == "SAF_RUST_MINECRAFT=azalea"@
    ||| l == "SAF_MICROSOFT_CACHE_<IGN>=<cache-key>"@
    ||| l == "SAF_LIVE_SMOKE_IGN="@ + (if startup.len() == 0 {
        "<configured-ign>"@
    } else {
        startup[0]
    })
}

/// Every environment line of every action is a suggested one.
pub open spec fn envs_suggested(actions: Seq<ActionModel>, startup: Seq<Seq<char>>) -> bool {
    forall|i: int, j: int|
        0 <= i < actions.len() && 0 <= j < actions[i].env.len() ==> suggested_env_line(
            #[trigger] actions[i].env[j],
            startup,
        )
}

proof fn lemma_envs_concat(x: Seq<ActionModel>, y: Seq<ActionModel>, startup: Seq<Seq<char>>)
    requires
        envs_suggested(x, startup),
        envs_suggested(y, startup),
    ensures
        envs_suggested(x + y, startup),
{
    assert forall|i: int, j: int|
        0 <= i < (x + y).len() && 0 <= j < (x + y)[i].env.len() implies suggested_env_line(
        #[trigger] (x + y)[i].env[j],
        startup,
    ) by {
        if i < x.len() {
            assert((x + y)[i] == x[i]);
        } else {
            assert((x + y)[i] == y[i - x.len()]);
        }
    }
}

proof fn lemma_envs_when(c: bool, m: ActionModel, startup: Seq<Seq<char>>)
    requires
        forall|j: int| 0 <= j < m.env.len() ==> suggested_env_line(#[trigger] m.env[j], startup),
    ensures
        envs_suggested(when(c, m), startup),
{
    if c {
        assert(when(c, m)[0] == m);
    }
}

/// The environment lines of the required actions are fixed placeholders
/// and the smoke account suggestion: nothing read from the environment, or
/// from a check's message, reaches them.
pub proof fn lemma_action_env_is_placeholders(
    checks: Seq<LivePreflightCheck>,
    full: bool,
    require_minecraft: bool,
    startup: Seq<Seq<char>>,
)
    ensures
        envs_suggested(required_actions_spec(checks, full, require_minecraft, startup), startup),
{

    let fail = LivePreflightStatus::Fail;
    let accounts = names_with_status(checks, str_views(account_check_names()), fail);
    let paths = names_with_status(checks, str_views(path_check_names()), fail);
    let features = names_with_status(checks, str_views(feature_check_names()), fail);
    let discord = names_with_status(checks, str_views(discord_check_names()), fail);
    let cofl = names_with_status(checks, str_views(cofl_check_names()), fail);
    let minecraft = names_with_status(checks, seq!["minecraft.azalea"@], fail);
    let smoke = names_with_status(checks, seq!["liveSmoke.ign"@], fail);
    let microsoft = names_with_status(
        checks,
        seq!["minecraft.microsoftAuth"@],
        LivePreflightStatus::Warn,
    );
    let suggested = if startup.len() == 0 {
        "<configured-ign>"@
    } else {
        startup[0]
    };
        let m0 = model(
        "configure-accounts",
        "config",
        "Configure Minecraft accounts",
        "Set at least one non-empty account and a resolvable startup/default account in config.json5, or narrow the process with the supported account environment overrides.",
        accounts,
        seq!["SAF_ONLY_IGNS=<ign>[,<ign>]"@, "SAF_DEFAULT_IGN=<ign>"@, "SAF_START_DEFAULT_ONLY=1"@],
        seq!["./saf.sh rust-live-setup"@],
    );
    lemma_envs_when(accounts.len() > 0, m0, startup);
    let m1 = model(
        "fix-runtime-paths",
        "paths",
        "Create runtime paths",
        "Create the state base directory and command inbox parent directory before starting the Rust live runtime.",
        paths,
        seq![],
        seq!["mkdir -p <state-base-dir>"@, "mkdir -p <command-inbox-parent>"@, "./saf.sh rust-live-setup"@],
    );
    lemma_envs_when(paths.len() > 0, m1, startup);
    let m2 = model(
        "build-production-runtime",
        "features",
        "Build the production runtime feature bundle",
        "Run the full Rust live runtime through the production-runtime feature bundle so Discord, Cofl, and native Minecraft are compiled together.",
        features,
        seq![],
        seq!["./saf.sh rust-production-check"@, "./saf.sh rust-live-setup"@],
    );
    lemma_envs_when(features.len() > 0, m2, startup);
    let m3 = model(
        "configure-discord-gateway",
        "discord",
        "Configure Discord gateway access",
        "Provide the Discord bot token, enable the gateway, and configure at least one numeric allowed Discord user ID for live smoke and production control.",
        discord,
        seq![
            "SAF_DISCORD_BOT_ENABLED=1"@,
            "SAF_DISCORD_TOKEN=<bot-token>"@,
            "SAF_DISCORD_ALLOWED_IDS=<discord-user-id>[,<discord-user-id>]"@,
        ],
        seq!["./saf.sh rust-live-setup"@],
    );
    lemma_envs_when(discord.len() > 0, m3, startup);
    let m4 = model(
        "configure-cofl-auth",
        "cofl",
        "Configure Cofl session or socket auth",
        "Run the Cofl auth-link helper for a configured account, complete the SkyCofl browser login, then provide a global Cofl session, a smoke-test Cofl session, or an account-specific socket URL with an SId query value for the live smoke account.",
        cofl,
        seq![
            "SAF_COFL_SESSION=<cofl-session>"@,
            "SAF_LIVE_SMOKE_COFL_SESSION=<cofl-session>"@,
            "SAF_COFL_SOCKET_<IGN>=wss://.../modsocket?SId=<session>"@,
        ],
        per_account_commands("./saf.sh rust-cofl-auth-link "@, startup),
    );
    lemma_envs_when(cofl.len() > 0, m4, startup);
    let m5 = model(
        "enable-native-minecraft",
        "minecraft",
        "Enable native Minecraft runtime",
        "Set the native Minecraft runtime flag so live smoke and Rust production mode use Azalea instead of recorded clients.",
        minecraft,
        seq!["SAF_RUST_MINECRAFT=azalea"@],
        seq![
            "SAF_RUST_MINECRAFT=azalea ./saf.sh rust-live-setup"@,
            "SAF_RUST_MINECRAFT=azalea ./saf.sh rust-minecraft-auth <ign>"@,
        ],
    );
    lemma_envs_when(minecraft.len() > 0, m5, startup);
    let m6 = model(
        "set-live-smoke-account",
        "smoke",
        "Choose the live smoke account",
        "Set the configured Minecraft account that the env-gated live smoke harness is allowed to use.",
        smoke,
        seq!["SAF_LIVE_SMOKE_IGN="@ + suggested],
        seq!["./saf.sh rust-live-setup"@],
    );
    lemma_envs_when(smoke.len() > 0, m6, startup);
    let m7 = model(
        "warm-microsoft-auth",
        "minecraft",
        "Complete Microsoft auth cache warmup",
        "Run the Azalea Microsoft auth helper for each startup account before live smoke. The helper may print a Microsoft device-login URL and code when the cache is cold.",
        microsoft,
        seq!["SAF_MICROSOFT_CACHE_<IGN>=<cache-key>"@],
        per_account_commands("SAF_RUST_MINECRAFT=azalea ./saf.sh rust-minecraft-auth "@, startup),
    );
    lemma_envs_when((full || require_minecraft) && microsoft.len() > 0, m7, startup);
    let a0 = when(accounts.len() > 0, m0);
    lemma_envs_concat(a0, when(paths.len() > 0, m1), startup);
    let a1 = a0 + when(paths.len() > 0, m1);
    lemma_envs_concat(a1, when(features.len() > 0, m2), startup);
    let a2 = a1 + when(features.len() > 0, m2);
    lemma_envs_concat(a2, when(discord.len() > 0, m3), startup);
    let a3 = a2 + when(discord.len() > 0, m3);
    lemma_envs_concat(a3, when(cofl.len() > 0, m4), startup);
    let a4 = a3 + when(cofl.len() > 0, m4);
    lemma_envs_concat(a4, when(minecraft.len() > 0, m5), startup);
    let a5 = a4 + when(minecraft.len() > 0, m5);
    lemma_envs_concat(a5, when(smoke.len() > 0, m6), startup);
    let a6 = a5 + when(smoke.len() > 0, m6);
    lemma_envs_concat(a6, when((full || require_minecraft) && microsoft.len() > 0, m7), startup);
    let a7 = a6 + when((full || require_minecraft) && microsoft.len() > 0, m7);
    assert(a7 == required_actions_spec(checks, full, require_minecraft, startup));
}

fn static_list(v: &Vec<&'static str>) -> (r: Vec<&'static str>)
    ensures
        r@ == v@,
{
    v.clone()
}

/// One command per startup account, or the placeholder; then the setup command.
fn account_commands(prefix: &str, startup: &Vec<String>) -> (r: Vec<String>)
    ensures
        views(r@) == per_account_commands(prefix@, views(startup@)),
{
    let mut r: Vec<String> = Vec::new();
    if startup.len() == 0 {
        r.push(concat_str(prefix, "<ign>"));
        assert(views(r@) =~= seq![prefix@ + "<ign>"@]);
    } else {
        let mut i: usize = 0;
        while i < startup.len()
            invariant
                i <= startup.len(),
                views(r@) == views(startup@).take(i as int).map_values(|a: Seq<char>| prefix@ + a),
            decreases startup.len() - i,
        {
            let ghost before = views(r@);
            r.push(concat_str(prefix, startup[i].as_str()));
            assert(views(r@) =~= before.push(prefix@ + startup@[i as int]@));
            assert(views(startup@).take(i + 1) =~= views(startup@).take(i as int).push(
                startup@[i as int]@,
            ));
            assert(views(r@) =~= views(startup@).take(i + 1).map_values(
                |a: Seq<char>| prefix@ + a,
            ));
            i = i + 1;
        }
        assert(views(startup@).take(startup.len() as int) =~= views(startup@));
    }
    let ghost before = views(r@);
    r.push("./saf.sh rust-live-setup".to_owned());
    assert(views(r@) =~= before.push("./saf.sh rust-live-setup"@));
    r
}

fn push_action(actions: &mut Vec<LivePreflightRequiredAction>, a: LivePreflightRequiredAction)
    ensures
        action_models(final(actions)@) == action_models(old(actions)@) + seq![action_model(a)],
{
    actions.push(a);
    assert(action_models(actions@) =~= action_models(old(actions)@) + seq![action_model(a)]);
}

/// The operator actions called for by the failing checks (see
/// `required_actions_spec`).
#[verifier::rlimit(60)]
#[verifier::spinoff_prover]
pub fn build_required_actions(
    checks: &Vec<LivePreflightCheck>,
    options: &LivePreflightOptions,
    startup_accounts: &Vec<String>,
) -> (r: Vec<LivePreflightRequiredAction>)
    ensures
        action_models(r@) == required_actions_spec(
            checks@,
            options.full,
            options.require_minecraft,
            views(startup_accounts@),
        ),
{
    let ghost startup = views(startup_accounts@);
    let mut actions: Vec<LivePreflightRequiredAction> = Vec::new();
    let fail_status = LivePreflightStatus::Fail;

    let account_names: Vec<&str> = vec!["config.accounts", "config.startupAccounts", "config.defaultAccount"];
    assert(account_names@ == account_check_names());
    let account_failures = check_names_with_status(checks, &account_names, fail_status);
    let ghost step0 = action_models(actions@);
    if account_failures.len() != 0 {
        let env = list3("SAF_ONLY_IGNS=<ign>[,<ign>]", "SAF_DEFAULT_IGN=<ign>", "SAF_START_DEFAULT_ONLY=1");
        let commands = list1("./saf.sh rust-live-setup");
        push_action(&mut actions, required_action(
            "configure-accounts",
            "config",
            "Configure Minecraft accounts",
            "Set at least one non-empty account and a resolvable startup/default account in config.json5, or narrow the process with the supported account environment overrides.",
            account_failures,
            env,
            commands,
        ));
    }
    assert(action_models(actions@) =~= step0 + when(account_failures@.len() > 0, model(
        "configure-accounts",
        "config",
        "Configure Minecraft accounts",
        "Set at least one non-empty account and a resolvable startup/default account in config.json5, or narrow the process with the supported account environment overrides.",
        names_with_status(checks@, str_views(account_check_names()), fail_status),
        seq!["SAF_ONLY_IGNS=<ign>[,<ign>]"@, "SAF_DEFAULT_IGN=<ign>"@, "SAF_START_DEFAULT_ONLY=1"@],
        seq!["./saf.sh rust-live-setup"@],
    )));

    let path_names: Vec<&str> = vec!["paths.stateBaseDir", "paths.commandInbox"];
    assert(path_names@ == path_check_names());
    let path_failures = check_names_with_status(checks, &path_names, fail_status);
    let ghost step1 = action_models(actions@);
    if path_failures.len() != 0 {
        let commands = list3(
            "mkdir -p <state-base-dir>",
            "mkdir -p <command-inbox-parent>",
            "./saf.sh rust-live-setup",
        );
        let env: Vec<String> = Vec::new();
        assert(views(env@) =~= Seq::<Seq<char>>::empty());
        push_action(&mut actions, required_action(
            "fix-runtime-paths",
            "paths",
            "Create runtime paths",
            "Create the state base directory and command inbox parent directory before starting the Rust live runtime.",
            path_failures,
            env,
            commands,
        ));
    }
    assert(action_models(actions@) =~= step1 + when(path_failures@.len() > 0, model(
        "fix-runtime-paths",
        "paths",
        "Create runtime paths",
        "Create the state base directory and command inbox parent directory before starting the Rust live runtime.",
        names_with_status(checks@, str_views(path_check_names()), fail_status),
        seq![],
        seq!["mkdir -p <state-base-dir>"@, "mkdir -p <command-inbox-parent>"@, "./saf.sh rust-live-setup"@],
    )));

    let feature_names: Vec<&str> = vec![
        "features.productionRuntime",
        "features.liveDiscord",
        "features.liveCofl",
        "features.liveMinecraft",
    ];
    assert(feature_names@ == feature_check_names());
    let feature_failures = check_names_with_status(checks, &feature_names, fail_status);
    let ghost step2 = action_models(actions@);
    if feature_failures.len() != 0 {
        let commands = list2("./saf.sh rust-production-check", "./saf.sh rust-live-setup");
        let env: Vec<String> = Vec::new();
        assert(views(env@) =~= Seq::<Seq<char>>::empty());
        push_action(&mut actions, required_action(
            "build-production-runtime",
            "features",
            "Build the production runtime feature bundle",
            "Run the full Rust live runtime through the production-runtime feature bundle so Discord, Cofl, and native Minecraft are compiled together.",
            feature_failures,
            env,
            commands,
        ));
    }
    assert(action_models(actions@) =~= step2 + when(feature_failures@.len() > 0, model(
        "build-production-runtime",
        "features",
        "Build the production runtime feature bundle",
        "Run the full Rust live runtime through the production-runtime feature bundle so Discord, Cofl, and native Minecraft are compiled together.",
        names_with_status(checks@, str_views(feature_check_names()), fail_status),
        seq![],
        seq!["./saf.sh rust-production-check"@, "./saf.sh rust-live-setup"@],
    )));

    let discord_names: Vec<&str> = vec![
        "discord.token",
        "discord.enabled",
        "discord.allowedUsers",
        "liveSmoke.discordEnabled",
        "liveSmoke.discordToken",
        "liveSmoke.discordAllowedUsers",
    ];
    assert(discord_names@ == discord_check_names());
    let discord_failures = check_names_with_status(checks, &discord_names, fail_status);
    let ghost step3 = action_models(actions@);
    if discord_failures.len() != 0 {
        let env = list3(
            "SAF_DISCORD_BOT_ENABLED=1",
            "SAF_DISCORD_TOKEN=<bot-token>",
            "SAF_DISCORD_ALLOWED_IDS=<discord-user-id>[,<discord-user-id>]",
        );
        let commands = list1("./saf.sh rust-live-setup");
        push_action(&mut actions, required_action(
            "configure-discord-gateway",
            "discord",
            "Configure Discord gateway access",
            "Provide the Discord bot token, enable the gateway, and configure at least one numeric allowed Discord user ID for live smoke and production control.",
            discord_failures,
            env,
            commands,
        ));
    }
    assert(action_models(actions@) =~= step3 + when(discord_failures@.len() > 0, model(
        "configure-discord-gateway",
        "discord",
        "Configure Discord gateway access",
        "Provide the Discord bot token, enable the gateway, and configure at least one numeric allowed Discord user ID for live smoke and production control.",
        names_with_status(checks@, str_views(discord_check_names()), fail_status),
        seq![
            "SAF_DISCORD_BOT_ENABLED=1"@,
            "SAF_DISCORD_TOKEN=<bot-token>"@,
            "SAF_DISCORD_ALLOWED_IDS=<discord-user-id>[,<discord-user-id>]"@,
        ],
        seq!["./saf.sh rust-live-setup"@],
    )));

    let cofl_names: Vec<&str> = vec!["cofl.session", "liveSmoke.coflSession"];
    assert(cofl_names@ == cofl_check_names());
    let cofl_failures = check_names_with_status(checks, &cofl_names, fail_status);
    let ghost step4 = action_models(actions@);
    if cofl_failures.len() != 0 {
        let commands = account_commands("./saf.sh rust-cofl-auth-link ", startup_accounts);
        let env = list3(
            "SAF_COFL_SESSION=<cofl-session>",
            "SAF_LIVE_SMOKE_COFL_SESSION=<cofl-session>",
            "SAF_COFL_SOCKET_<IGN>=wss://.../modsocket?SId=<session>",
        );
        push_action(&mut actions, required_action(
            "configure-cofl-auth",
            "cofl",
            "Configure Cofl session or socket auth",
            "Run the Cofl auth-link helper for a configured account, complete the SkyCofl browser login, then provide a global Cofl session, a smoke-test Cofl session, or an account-specific socket URL with an SId query value for the live smoke account.",
            cofl_failures,
            env,
            commands,
        ));
    }
    assert(action_models(actions@) =~= step4 + when(cofl_failures@.len() > 0, model(
        "configure-cofl-auth",
        "cofl",
        "Configure Cofl session or socket auth",
        "Run the Cofl auth-link helper for a configured account, complete the SkyCofl browser login, then provide a global Cofl session, a smoke-test Cofl session, or an account-specific socket URL with an SId query value for the live smoke account.",
        names_with_status(checks@, str_views(cofl_check_names()), fail_status),
        seq![
            "SAF_COFL_SESSION=<cofl-session>"@,
            "SAF_LIVE_SMOKE_COFL_SESSION=<cofl-session>"@,
            "SAF_COFL_SOCKET_<IGN>=wss://.../modsocket?SId=<session>"@,
        ],
        per_account_commands("./saf.sh rust-cofl-auth-link "@, startup),
    )));

    let minecraft_names: Vec<&str> = vec!["minecraft.azalea"];
    assert(str_views(minecraft_names@) =~= seq!["minecraft.azalea"@]);
    let minecraft_failures = check_names_with_status(checks, &minecraft_names, fail_status);
    let ghost step5 = action_models(actions@);
    if minecraft_failures.len() != 0 {
        let env = list1("SAF_RUST_MINECRAFT=azalea");
        let commands = list2(
            "SAF_RUST_MINECRAFT=azalea ./saf.sh rust-live-setup",
            "SAF_RUST_MINECRAFT=azalea ./saf.sh rust-minecraft-auth <ign>",
        );
        push_action(&mut actions, required_action(
            "enable-native-minecraft",
            "minecraft",
            "Enable native Minecraft runtime",
            "Set the native Minecraft runtime flag so live smoke and Rust production mode use Azalea instead of recorded clients.",
            minecraft_failures,
            env,
            commands,
        ));
    }
    assert(action_models(actions@) =~= step5 + when(minecraft_failures@.len() > 0, model(
        "enable-native-minecraft",
        "minecraft",
        "Enable native Minecraft runtime",
        "Set the native Minecraft runtime flag so live smoke and Rust production mode use Azalea instead of recorded clients.",
        names_with_status(checks@, seq!["minecraft.azalea"@], fail_status),
        seq!["SAF_RUST_MINECRAFT=azalea"@],
        seq![
            "SAF_RUST_MINECRAFT=azalea ./saf.sh rust-live-setup"@,
            "SAF_RUST_MINECRAFT=azalea ./saf.sh rust-minecraft-auth <ign>"@,
        ],
    )));

    let smoke_names: Vec<&str> = vec!["liveSmoke.ign"];
    assert(str_views(smoke_names@) =~= seq!["liveSmoke.ign"@]);
    let smoke_failures = check_names_with_status(checks, &smoke_names, fail_status);
    let ghost step6 = action_models(actions@);
    let ghost suggested = if startup.len() == 0 {
        "<configured-ign>"@
    } else {
        startup[0]
    };
    if smoke_failures.len() != 0 {
        let env_line = if startup_accounts.len() == 0 {
            concat_str("SAF_LIVE_SMOKE_IGN=", "<configured-ign>")
        } else {
            concat_str("SAF_LIVE_SMOKE_IGN=", startup_accounts[0].as_str())
        };
        let env = list1(env_line.as_str());
        let commands = list1("./saf.sh rust-live-setup");
        push_action(&mut actions, required_action(
            "set-live-smoke-account",
            "smoke",
            "Choose the live smoke account",
            "Set the configured Minecraft account that the env-gated live smoke harness is allowed to use.",
            smoke_failures,
            env,
            commands,
        ));
    }
    assert(action_models(actions@) =~= step6 + when(smoke_failures@.len() > 0, model(
        "set-live-smoke-account",
        "smoke",
        "Choose the live smoke account",
        "Set the configured Minecraft account that the env-gated live smoke harness is allowed to use.",
        names_with_status(checks@, seq!["liveSmoke.ign"@], fail_status),
        seq!["SAF_LIVE_SMOKE_IGN="@ + suggested],
        seq!["./saf.sh rust-live-setup"@],
    )));

    let microsoft_names: Vec<&str> = vec!["minecraft.microsoftAuth"];
    assert(str_views(microsoft_names@) =~= seq!["minecraft.microsoftAuth"@]);
    let microsoft_warnings = check_names_with_status(checks, &microsoft_names, LivePreflightStatus::Warn);
    let ghost step7 = action_models(actions@);
    if (options.full || options.require_minecraft) && microsoft_warnings.len() != 0 {
        let commands = account_commands("SAF_RUST_MINECRAFT=azalea ./saf.sh rust-minecraft-auth ", startup_accounts);
        let env = list1("SAF_MICROSOFT_CACHE_<IGN>=<cache-key>");
        push_action(&mut actions, required_action(
            "warm-microsoft-auth",
            "minecraft",
            "Complete Microsoft auth cache warmup",
            "Run the Azalea Microsoft auth helper for each startup account before live smoke. The helper may print a Microsoft device-login URL and code when the cache is cold.",
            microsoft_warnings,
            env,
            commands,
        ));
    }
    assert(action_models(actions@) =~= step7 + when((options.full || options.require_minecraft) && microsoft_warnings@.len() > 0, model(
        "warm-microsoft-auth",
        "minecraft",
        "Complete Microsoft auth cache warmup",
        "Run the Azalea Microsoft auth helper for each startup account before live smoke. The helper may print a Microsoft device-login URL and code when the cache is cold.",
        names_with_status(checks@, seq!["minecraft.microsoftAuth"@], LivePreflightStatus::Warn),
        seq!["SAF_MICROSOFT_CACHE_<IGN>=<cache-key>"@],
        per_account_commands("SAF_RUST_MINECRAFT=azalea ./saf.sh rust-minecraft-auth "@, startup),
    )));
    actions
}

/// The names of the failing checks, in order.
pub open spec fn failed_names(checks: Seq<LivePreflightCheck>) -> Seq<Seq<char>>
    decreases checks.len(),
{
    if checks.len() == 0 {
        seq![]
    } else {
        let rest = failed_names(checks.drop_last());
        if checks.last().status == LivePreflightStatus::Fail {
            rest.push(checks.last().name@)
        } else {
            rest
        }
    }
}

/// The preflight that `run-live` insists on before it may take live market
/// actions: none in dry-run mode; otherwise one that requires Minecraft, and
/// Cofl when the run connects to it, never Discord, and no full smoke run.
pub fn run_live_safety_options(
    live_market_actions: bool,
    command_inbox: &str,
    state_base_dir: &str,
    connect_cofl: bool,
) -> (r: Option<LivePreflightOptions>)
    ensures
        !live_market_actions ==> r is None,
        live_market_actions ==> (r matches Some(o) && o.command_inbox@ == command_inbox@
            && o.state_base_dir@ == state_base_dir@ && !o.require_discord && o.require_cofl
            == connect_cofl && o.require_minecraft && !o.full),
{
    if !live_market_actions {
        return None;
    }
    Some(
        LivePreflightOptions {
            command_inbox: command_inbox.to_owned(),
            state_base_dir: state_base_dir.to_owned(),
            require_discord: false,
            require_cofl: connect_cofl,
            require_minecraft: true,
            full: false,
        },
    )
}

/// The refusal when live market actions are asked for and the preflight
/// did not pass.
pub open spec fn live_safety_refusal(report: LivePreflightReport) -> Seq<char> {
    "--market-actions live failed live preflight checks: "@ + crate::text::join(
        failed_names(report.checks@),
        ", "@,
    )
}

/// Whether live market actions may start after the preflight `report`:
/// `Ok` when it passed, else the message naming the failing checks.
pub fn validate_run_live_safety(report: &LivePreflightReport) -> (r: Result<(), String>)
    ensures
        report.ok ==> r is Ok,
        !report.ok ==> (r matches Err(m) && m@ == live_safety_refusal(*report)),
{
    if report.ok {
        return Ok(());
    }
    let mut names: Vec<Vec<char>> = Vec::new();
    let mut i: usize = 0;
    while i < report.checks.len()
        invariant
            i <= report.checks.len(),
            names@.map_values(|w: Vec<char>| w@) == failed_names(report.checks@.take(i as int)),
        decreases report.checks.len() - i,
    {
        let c = &report.checks[i];
        assert(report.checks@.take(i + 1).drop_last() =~= report.checks@.take(i as int));
        assert(report.checks@.take(i + 1).last() == report.checks@[i as int]);
        if c.status == LivePreflightStatus::Fail {
            let ghost before = names@.map_values(|w: Vec<char>| w@);
            names.push(chars_of(c.name.as_str()));
            assert(names@.map_values(|w: Vec<char>| w@) =~= before.push(c.name@));
        }
        i = i + 1;
    }
    assert(report.checks@.take(report.checks.len() as int) =~= report.checks@);
    let joined = crate::text::join_words(&names, &chars_of(", "));
    let head = chars_of("--market-actions live failed live preflight checks: ");
    let all = crate::text::concat_chars(&head, &joined);
    Err(crate::text::string_of(&all))
}

} // verus!
