//! The cooldown between two uses of the bank by one account, kept per
//! account in a small file (here: a map from account key to the last use,
//! in milliseconds of the Unix clock).
use vstd::prelude::*;
use crate::string_map::StringMap;
use crate::text::{chars_of, lower_chars, lower_seq, string_of, trim, trim_chars};
use crate::runtime_rules::{env_u64, env_u64_value};

verus! {

/// The default pause between two bank uses: one hour.
pub const DEFAULT_BANK_COOLDOWN_MS: u64 = 3_600_000;

/// Whether the bank may be used now.
#[derive(Clone, Copy, Debug, PartialEq, Eq, Structural)]
pub enum BankCooldownDecision {
    Ready,
    Wait { remaining_ms: u64 },
}

/// Where the cooldowns are kept and how long one lasts.
#[derive(Clone, Debug)]
pub struct BankCooldownStore {
    pub path: String,
    pub cooldown_ms: u64,
}

/// The key of an account: its name trimmed and lower-cased.
pub open spec fn cooldown_key(account: Seq<char>) -> Seq<char> {
    lower_seq(trim(account))
}

pub fn bank_cooldown_key(account: &str) -> (r: String)
    ensures
        r@ == cooldown_key(account@),
{
    string_of(&lower_chars(&trim_chars(&chars_of(account))))
}

/// The decision for an account last seen at `last_use` (zero for never):
/// wait until the cooldown after the last use has passed.
pub open spec fn cooldown_decision(last_use: u64, cooldown_ms: u64, now: u64) -> BankCooldownDecision {
    let next: int = if last_use + cooldown_ms > u64::MAX { u64::MAX as int } else { last_use + cooldown_ms };
    if last_use > 0 && next > now {
        BankCooldownDecision::Wait { remaining_ms: (next - now) as u64 }
    } else {
        BankCooldownDecision::Ready
    }
}

/// The file that keeps the cooldowns: the one named by the variable
/// `SAF_BANK_COOLDOWN_FILE` (whose value is `env_file`) when it names one,
/// else `default_path`.
pub fn cooldown_path(env_file: Option<&str>, default_path: &str) -> (r: String)
    ensures
        env_file matches Some(f) && trim(f@).len() > 0 ==> r@ == trim(env_file->0@),
        !(env_file matches Some(f) && trim(f@).len() > 0) ==> r@ == default_path@,
{
    if let Some(f) = env_file {
        let t = trim_chars(&chars_of(f));
        if t.len() > 0 {
            return string_of(&t);
        }
    }
    string_of(&chars_of(default_path))
}

/// `base` followed by the relative path `name`, with one `/` between them.
pub open spec fn path_join(base: Seq<char>, name: Seq<char>) -> Seq<char> {
    if base.len() == 0 {
        name
    } else if base.last() == '/' {
        base + name
    } else {
        base + "/"@ + name
    }
}

fn join_path(base: &str, name: &str) -> (r: String)
    ensures
        r@ == path_join(base@, name@),
{
    let b = chars_of(base);
    let n = chars_of(name);
    if b.len() == 0 {
        return string_of(&n);
    }
    if b[b.len() - 1] == '/' {
        return string_of(&crate::text::concat_chars(&b, &n));
    }
    let with_slash = crate::text::concat_chars(&b, &chars_of("/"));
    string_of(&crate::text::concat_chars(&with_slash, &n))
}

/// The default cooldown file: under `SAF-bot/SavedData` when the base
/// directory holds a `SAF-bot` installation (`saf_bot_present`), else
/// under `SavedData`.
pub fn default_bank_cooldown_path(base_dir: &str, saf_bot_present: bool) -> (r: String)
    ensures
        saf_bot_present ==> r@ == path_join(path_join(path_join(base_dir@, "SAF-bot"@), "SavedData"@), "bank-cooldowns.json"@),
        !saf_bot_present ==> r@ == path_join(path_join(base_dir@, "SavedData"@), "bank-cooldowns.json"@),
{
    if saf_bot_present {
        let a = join_path(base_dir, "SAF-bot");
        let b = join_path(a.as_str(), "SavedData");
        join_path(b.as_str(), "bank-cooldowns.json")
    } else {
        let a = join_path(base_dir, "SavedData");
        join_path(a.as_str(), "bank-cooldowns.json")
    }
}

impl BankCooldownStore {
    /// A store at `path`; a cooldown is at least one millisecond.
    pub fn new(path: String, cooldown_ms: u64) -> (r: Self)
        ensures
            r.path == path,
            r.cooldown_ms == if cooldown_ms > 1 { cooldown_ms } else { 1 },
    {
        BankCooldownStore { path, cooldown_ms: if cooldown_ms > 1 { cooldown_ms } else { 1 } }
    }

    /// The store set up from the environment: the file of
    /// `SAF_BANK_COOLDOWN_FILE` or `default_path`, and the cooldown of
    /// `SAF_BANK_COOLDOWN_MS` or the default.
    pub fn for_base_dir(env_file: Option<&str>, env_cooldown: Option<&str>, default_path: &str) -> (r: Self)
        ensures
            r.cooldown_ms == if env_u64_value(
                match env_cooldown {
                    Some(v) => Some(v@),
                    None => None,
                },
                DEFAULT_BANK_COOLDOWN_MS,
            ) > 1 {
                env_u64_value(
                    match env_cooldown {
                        Some(v) => Some(v@),
                        None => None,
                    },
                    DEFAULT_BANK_COOLDOWN_MS,
                )
            } else {
                1
            },
            env_file matches Some(f) && trim(f@).len() > 0 ==> r.path@ == trim(env_file->0@),
            !(env_file matches Some(f) && trim(f@).len() > 0) ==> r.path@ == default_path@,
    {
        let path = cooldown_path(env_file, default_path);
        let cooldown = env_u64(env_cooldown, DEFAULT_BANK_COOLDOWN_MS);
        BankCooldownStore::new(path, cooldown)
    }

    /// Asks to use the bank for `account` at `now` against the stored last
    /// uses `data`; a use that may go ahead is recorded in `data`.  An
    /// account whose key is empty is always ready and never recorded.
    pub fn try_mark_use_at(&self, account: &str, now: u64, data: &mut StringMap<u64>) -> (r: BankCooldownDecision)
        requires
            old(data).wf(),
        ensures
            final(data).wf(),
            cooldown_key(account@).len() == 0 ==> r == BankCooldownDecision::Ready && *final(data) == *old(data),
            cooldown_key(account@).len() > 0 ==> r == cooldown_decision(
                match old(data).get(cooldown_key(account@)) {
                    Some(t) => t,
                    None => 0,
                },
                self.cooldown_ms,
                now,
            ),
            cooldown_key(account@).len() > 0 && r == BankCooldownDecision::Ready ==> final(data).get(
                cooldown_key(account@),
            ) == Some(now),
            cooldown_key(account@).len() > 0 && r == BankCooldownDecision::Ready ==> forall|k: Seq<char>|
                k != cooldown_key(account@) ==> #[trigger] final(data).get(k) == old(data).get(k),
            r != BankCooldownDecision::Ready ==> *final(data) == *old(data),
    {
        let key = bank_cooldown_key(account);
        if chars_of(key.as_str()).len() == 0 {
            return BankCooldownDecision::Ready;
        }
        let last_use: u64 = match data.lookup(key.as_str()) {
            Some(t) => *t,
            None => 0,
        };
        let next_use = last_use.saturating_add(self.cooldown_ms);
        if last_use > 0 && next_use > now {
            return BankCooldownDecision::Wait { remaining_ms: next_use - now };
        }
        data.set(key.as_str(), now);
        BankCooldownDecision::Ready
    }
}

/// Once a bank use is allowed at `first` (a time after the epoch), another
/// use before the cooldown has passed must wait for the rest of it.
pub proof fn lemma_cooldown_blocks_second_use(first: u64, cooldown_ms: u64, second: u64)
    requires
        first > 0,
        first <= second,
        first + cooldown_ms <= u64::MAX,
        second < first + cooldown_ms,
    ensures
        cooldown_decision(first, cooldown_ms, second) == (BankCooldownDecision::Wait {
            remaining_ms: (first + cooldown_ms - second) as u64,
        }),
{
}

/// After the cooldown has passed, the bank may be used again.
pub proof fn lemma_cooldown_expires(last_use: u64, cooldown_ms: u64, now: u64)
    requires
        last_use + cooldown_ms <= now,
    ensures
        cooldown_decision(last_use, cooldown_ms, now) == BankCooldownDecision::Ready,
{
}
} // verus!
