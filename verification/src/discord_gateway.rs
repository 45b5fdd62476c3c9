//! Whether and how the Discord gateway starts, and whom it obeys.
use vstd::prelude::*;
use crate::env_vars::{
    allowed_discord_ids, allowed_id_set, str_lt, str_views_of, strictly_sorted, EnvVars,
};
use crate::blacklist_rules::parse_u64_chars;
use crate::text::{chars_of, decimal, decimal_string, parse_u64, str_equal, string_of, trim, trim_chars};

verus! {

/// The bot settings of the configuration file.
#[derive(Clone, Debug)]
pub struct DiscordBotSettings {
    pub token: String,
    pub enabled: bool,
    pub guild_id: String,
    pub ephemeral: bool,
}

/// How the gateway runs once it starts.
#[derive(Clone, Debug)]
pub struct DiscordGatewayConfig {
    pub token: String,
    pub guild_id: Option<u64>,
    pub ephemeral: bool,
    /// The Discord user ids allowed to control the runtime, sorted, without
    /// repeats.
    pub allowed_ids: Vec<String>,
}

/// The bot token: `SAF_DISCORD_TOKEN` when it is set to something, else the
/// configured one; trimmed.
pub open spec fn gateway_token(configured: Seq<char>, env: EnvVars) -> Seq<char> {
    if env.non_empty("SAF_DISCORD_TOKEN"@) {
        trim(env.lookup("SAF_DISCORD_TOKEN"@)->0)
    } else {
        trim(configured)
    }
}

/// Whether the gateway is switched on: by `SAF_DISCORD_BOT_ENABLED`, by the
/// configuration, or by a token being present.
pub open spec fn gateway_enabled(bot: DiscordBotSettings, env: EnvVars) -> bool {
    env.truthy("SAF_DISCORD_BOT_ENABLED"@) || bot.enabled || trim(
        gateway_token(bot.token@, env),
    ).len() > 0
}

/// The guild to register commands in: `SAF_DISCORD_GUILD_ID` when it is set
/// to something, else the configured id when there is one; parsed as a
/// number after trimming.
pub open spec fn gateway_guild(configured: Seq<char>, env: EnvVars) -> Option<u64> {
    if env.non_empty("SAF_DISCORD_GUILD_ID"@) {
        parse_u64(trim(env.lookup("SAF_DISCORD_GUILD_ID"@)->0))
    } else if trim(configured).len() > 0 {
        parse_u64(trim(configured))
    } else {
        None
    }
}

impl DiscordGatewayConfig {
    /// The gateway's settings from the bot settings `bot`, the configured
    /// allowed ids and owner id `config_id_raws` (unnormalised) and the
    /// environment; `None` when the gateway stays off.
    pub fn from_config(bot: &DiscordBotSettings, config_id_raws: &Vec<String>, env: &EnvVars) -> (r: Option<Self>)
        ensures
            r is None <==> (!gateway_enabled(*bot, *env) || trim(gateway_token(bot.token@, *env)).len()
                == 0),
            r matches Some(g) ==> {
                &&& g.token@ == gateway_token(bot.token@, *env)
                &&& g.guild_id == gateway_guild(bot.guild_id@, *env)
                &&& g.ephemeral == bot.ephemeral
                &&& strictly_sorted(str_views_of(g.allowed_ids@))
                &&& str_views_of(g.allowed_ids@).to_set() == allowed_id_set(
                    str_views_of(config_id_raws@),
                    *env,
                )
            },
    {
        let token_raw = if env.non_empty_env("SAF_DISCORD_TOKEN") {
            match env.get("SAF_DISCORD_TOKEN") {
                Some(v) => v,
                None => String::new(),
            }
        } else {
            string_of(&chars_of(bot.token.as_str()))
        };
        let token_chars = trim_chars(&chars_of(token_raw.as_str()));
        let token = string_of(&token_chars);
        let again = trim_chars(&token_chars);
        let enabled = env.truthy_env("SAF_DISCORD_BOT_ENABLED") || bot.enabled || again.len() > 0;
        if !enabled || again.len() == 0 {
            return None;
        }
        let guild_raw: Option<String> = if env.non_empty_env("SAF_DISCORD_GUILD_ID") {
            env.get("SAF_DISCORD_GUILD_ID")
        } else if trim_chars(&chars_of(bot.guild_id.as_str())).len() > 0 {
            Some(string_of(&chars_of(bot.guild_id.as_str())))
        } else {
            None
        };
        let guild_id = match guild_raw {
            Some(g) => parse_u64_chars(&trim_chars(&chars_of(g.as_str()))),
            None => None,
        };
        let allowed_ids = allowed_discord_ids(config_id_raws, env);
        Some(DiscordGatewayConfig { token, guild_id, ephemeral: bot.ephemeral, allowed_ids })
    }

    /// Whether the Discord user `user_id` may control the runtime.
    pub fn is_allowed(&self, user_id: u64) -> (r: bool)
        ensures
            r == str_views_of(self.allowed_ids@).contains(decimal(user_id as nat)),
    {
        let id = decimal_string(user_id);
        let mut i: usize = 0;
        while i < self.allowed_ids.len()
            invariant
                i <= self.allowed_ids.len(),
                id@ == decimal(user_id as nat),
                forall|j: int| 0 <= j < i ==> str_views_of(self.allowed_ids@)[j] != id@,
            decreases self.allowed_ids.len() - i,
        {
            if str_equal(self.allowed_ids[i].as_str(), id.as_str()) {
                assert(str_views_of(self.allowed_ids@)[i as int] == id@);
                return true;
            }
            i = i + 1;
        }
        false
    }
}

} // verus!
