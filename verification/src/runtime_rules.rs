//! Small decisions the live runtime takes on chat text, environment values,
//! clock readings and coin amounts.
use vstd::prelude::*;
use crate::text::{
    chars_equal, chars_of, contains, contains_chars, eq_ignore_ascii_case, eq_ignore_case,
    is_ws, lower_chars, lower_seq, parse_u64, starts_with, string_of, trim, trim_chars,
    trim_start,
};
use crate::blacklist_rules::parse_u64_chars;
use crate::scan::matches_at;

verus! {

/// Whether some scoreboard line shows the purse or the piggy bank, so the
/// scoreboard is worth uploading.
pub fn should_upload_scoreboard(lines: &Vec<String>) -> (r: bool)
    ensures
        r == exists|i: int|
            0 <= i < lines@.len() && (contains(#[trigger] lines@[i]@, "Purse:"@) || contains(
                lines@[i]@,
                "Piggy:"@,
            )),
{
    let purse = chars_of("Purse:");
    let piggy = chars_of("Piggy:");
    let mut i: usize = 0;
    while i < lines.len()
        invariant
            i <= lines.len(),
            purse@ == "Purse:"@,
            piggy@ == "Piggy:"@,
            forall|j: int|
                0 <= j < i ==> !contains(#[trigger] lines@[j]@, "Purse:"@) && !contains(
                    lines@[j]@,
                    "Piggy:"@,
                ),
        decreases lines.len() - i,
    {
        let line = chars_of(lines[i].as_str());
        if contains_chars(&line, &purse) || contains_chars(&line, &piggy) {
            return true;
        }
        i = i + 1;
    }
    false
}

/// An environment value that switches a feature on: `1` or `true` (any
/// case), ignoring surrounding whitespace.
pub open spec fn truthy_value(v: Seq<char>) -> bool {
    trim(v) == "1"@ || eq_ignore_case(trim(v), "true"@)
}

pub fn env_truthy(value: &str) -> (r: bool)
    ensures
        r == truthy_value(value@),
{
    let c = chars_of(value);
    let t = trim_chars(&c);
    let one = chars_of("1");
    let tru = chars_of("true");
    chars_equal(&t, &one) || eq_ignore_ascii_case(&t, &tru)
}

/// A positive whole number of an environment value, else `default_value`.
pub open spec fn env_u64_value(value: Option<Seq<char>>, default_value: u64) -> u64 {
    match value {
        Some(v) => match parse_u64(v) {
            Some(n) => if n > 0 {
                n
            } else {
                default_value
            },
            None => default_value,
        },
        None => default_value,
    }
}

/// The positive number that the variable's value `value` gives, or
/// `default_value` when it is unset, unparsable or zero.
pub fn env_u64(value: Option<&str>, default_value: u64) -> (r: u64)
    ensures
        r == env_u64_value(
            match value {
                Some(v) => Some(v@),
                None => None,
            },
            default_value,
        ),
{
    match value {
        Some(v) => {
            let c = chars_of(v);
            match parse_u64_chars(&c) {
                Some(n) => if n > 0 {
                    n
                } else {
                    default_value
                },
                None => default_value,
            }
        },
        None => default_value,
    }
}

/// A duration in milliseconds read from the variable's value `value`:
/// `default_ms` when it is unset, `None` when it is set but not a positive
/// number (which switches the timer off).
pub fn env_optional_duration_ms(value: Option<&str>, default_ms: u64) -> (r: Option<u64>)
    ensures
        value is None ==> r == Some(default_ms),
        value matches Some(v) ==> r == (match parse_u64(v@) {
            Some(n) => if n > 0 {
                Some(n)
            } else {
                None
            },
            None => None,
        }),
{
    match value {
        Some(v) => {
            let c = chars_of(v);
            match parse_u64_chars(&c) {
                Some(n) => if n > 0 {
                    Some(n)
                } else {
                    None
                },
                None => None,
            }
        },
        None => Some(default_ms),
    }
}

/// `contains` after lower-casing ASCII letters of `text`.
fn lower_contains(text: &Vec<char>, pat: &str) -> (r: bool)
    ensures
        r == contains(lower_seq(text@), pat@),
{
    let low = lower_chars(text);
    let p = chars_of(pat);
    contains_chars(&low, &p)
}

/// Whether the server kicked the account for "badly behaving modifications".
pub fn is_bad_modification_message(text: &str) -> (r: bool)
    ensures
        r == contains(lower_seq(text@), "badly behaving modifications"@),
{
    let c = chars_of(text);
    lower_contains(&c, "badly behaving modifications")
}

/// Whether the native Minecraft client is selected: the variable
/// `SAF_RUST_MINECRAFT`, whose value is `value`, reads `azalea` (any case,
/// surrounding whitespace ignored).
pub fn native_minecraft_enabled(value: Option<&str>) -> (r: bool)
    ensures
        r == (value matches Some(v) && eq_ignore_case(trim(v@), "azalea"@)),
{
    match value {
        Some(v) => {
            let c = chars_of(v);
            let t = trim_chars(&c);
            let a = chars_of("azalea");
            eq_ignore_ascii_case(&t, &a)
        },
        None => false,
    }
}

/// Whether a window wait failed because the account disconnected meanwhile.
pub fn is_window_wait_disconnect(message: &str) -> (r: bool)
    ensures
        r == contains(message@, " disconnected while "@),
{
    let c = chars_of(message);
    let p = chars_of(" disconnected while ");
    contains_chars(&c, &p)
}

/// The plural ending for `count` things.
pub fn plural_suffix(count: usize) -> (r: &'static str)
    ensures
        count == 1 ==> r@ == ""@,
        count != 1 ==> r@ == "s"@,
{
    if count == 1 {
        ""
    } else {
        "s"
    }
}

/// Whether the chat line says that a bought cookie went to the item stash
/// because the inventory was full.
pub fn full_inventory_cookie_message(text: &str) -> (r: bool)
    ensures
        r == (contains(lower_seq(text@), "didn't fit in your inventory"@) && contains(
            lower_seq(text@),
            "item stash"@,
        ) && contains(lower_seq(text@), "click here"@)),
{
    let c = chars_of(text);
    lower_contains(&c, "didn't fit in your inventory") && lower_contains(&c, "item stash")
        && lower_contains(&c, "click here")
}

/// Whether a sold claim's chat amount is implausibly low next to what the
/// tracked listing expected to collect, so the tracked amount is reported.
pub open spec fn replace_claim(raw_coins: u64, expected: u64) -> bool {
    let tolerance: int = if expected / 50 > 1000 {
        (expected / 50) as int
    } else {
        1000
    };
    &&& raw_coins != 0
    &&& expected != 0
    &&& raw_coins < expected
    &&& expected - raw_coins > tolerance
    &&& raw_coins < expected / 10
}

pub fn tracked_collection_amount_should_replace_claim(raw_coins: u64, expected_collected: u64) -> (r: bool)
    ensures
        r == replace_claim(raw_coins, expected_collected),
{
    if raw_coins == 0 || expected_collected == 0 {
        return false;
    }
    if raw_coins >= expected_collected {
        return false;
    }
    let fiftieth = expected_collected / 50;
    let tolerance = if fiftieth > 1000 {
        fiftieth
    } else {
        1000
    };
    expected_collected - raw_coins > tolerance && raw_coins < expected_collected / 10
}

/// The coins a sold notification reports: the tracked listing's expected
/// amount where the chat amount is implausible, else the chat amount.
pub fn claim_notification_collected_coins(raw_coins: u64, expected_collected: Option<u64>) -> (r: u64)
    ensures
        r == (match expected_collected {
            Some(e) => if replace_claim(raw_coins, e) {
                e
            } else {
                raw_coins
            },
            None => raw_coins,
        }),
{
    match expected_collected {
        Some(e) => if tracked_collection_amount_should_replace_claim(raw_coins, e) {
            e
        } else {
            raw_coins
        },
        None => raw_coins,
    }
}

/// A Cofl session id as given: trimmed, `None` when blank.
pub open spec fn session_id(value: Seq<char>) -> Option<Seq<char>> {
    if trim(value).len() > 0 {
        Some(trim(value))
    } else {
        None
    }
}

pub fn normalize_cofl_session_id(value: &str) -> (r: Option<String>)
    ensures
        r matches Some(s) ==> session_id(value@) == Some(s@),
        r is None ==> session_id(value@) is None,
{
    let c = chars_of(value);
    let t = trim_chars(&c);
    if t.len() > 0 {
        Some(string_of(&t))
    } else {
        None
    }
}

/// The shared Cofl session: `SAF_COFL_SESSION` (whose value is `env_session`)
/// when it holds one, else the configured one, else empty.
pub open spec fn shared_session(env_session: Option<Seq<char>>, configured: Seq<char>) -> Seq<char> {
    match env_session {
        Some(v) if session_id(v) is Some => session_id(v)->0,
        _ => match session_id(configured) {
            Some(s) => s,
            None => seq![],
        },
    }
}

pub fn cofl_session_with_env(env_session: Option<&str>, configured: &str) -> (r: String)
    ensures
        r@ == shared_session(
            match env_session {
                Some(v) => Some(v@),
                None => None,
            },
            configured@,
        ),
{
    match env_session {
        Some(v) => match normalize_cofl_session_id(v) {
            Some(s) => {
                return s;
            },
            None => {},
        },
        None => {},
    }
    match normalize_cofl_session_id(configured) {
        Some(s) => s,
        None => String::new(),
    }
}

/// The session used with a socket link: the one embedded in the link
/// (`embedded`, as read from it), else the configured one, else empty.
pub fn cofl_session_for_link(configured: &str, embedded: Option<&str>) -> (r: String)
    ensures
        embedded matches Some(e) ==> r@ == e@,
        embedded is None ==> r@ == (match session_id(configured@) {
            Some(s) => s,
            None => seq![],
        }),
{
    match embedded {
        Some(e) => string_of(&chars_of(e)),
        None => match normalize_cofl_session_id(configured) {
            Some(s) => s,
            None => String::new(),
        },
    }
}

/// Whether a chat command is one the server is expected to refuse: a
/// `/tip ` command, ignoring leading whitespace and case.
pub fn is_expected_blocked_chat_command(command: &str) -> (r: bool)
    ensures
        r == starts_with(lower_seq(trim_start(command@)), "/tip "@),
{
    let c = chars_of(command);
    let mut i: usize = 0;
    assert(c@.skip(0) =~= c@);
    while i < c.len() && crate::text::is_whitespace(c[i])
        invariant
            i <= c.len(),
            trim_start(c@) == trim_start(c@.skip(i as int)),
        decreases c.len() - i,
    {
        assert(c@.skip(i as int).drop_first() =~= c@.skip(i + 1));
        i = i + 1;
    }
    let mut rest: Vec<char> = Vec::new();
    let mut k = i;
    while k < c.len()
        invariant
            i <= k <= c.len(),
            rest@ == c@.subrange(i as int, k as int),
        decreases c.len() - k,
    {
        rest.push(c[k]);
        assert(c@.subrange(i as int, k + 1) =~= c@.subrange(i as int, k as int).push(c@[k as int]));
        k = k + 1;
    }
    assert(rest@ =~= c@.skip(i as int));
    assert(trim_start(rest@) == rest@);
    let low = lower_chars(&rest);
    let p = chars_of("/tip ");
    matches_at(&low, &p, 0)
}

/// `now_ms - reference_ms` as a signed number of milliseconds, clamped to
/// the range of `i64` on both sides.
pub open spec fn signed_delta(now_ms: u64, reference_ms: u64) -> int {
    if now_ms >= reference_ms {
        if now_ms - reference_ms > i64::MAX {
            i64::MAX as int
        } else {
            now_ms - reference_ms
        }
    } else {
        if reference_ms - now_ms > i64::MAX {
            -(i64::MAX as int)
        } else {
            now_ms - reference_ms
        }
    }
}

pub fn signed_millis_delta(now_ms: u64, reference_ms: u64) -> (r: i64)
    ensures
        r as int == signed_delta(now_ms, reference_ms),
{
    if now_ms >= reference_ms {
        let d = now_ms - reference_ms;
        if d > 9223372036854775807 {
            9223372036854775807
        } else {
            d as i64
        }
    } else {
        let d = reference_ms - now_ms;
        if d > 9223372036854775807 {
            -9223372036854775807
        } else {
            -(d as i64)
        }
    }
}

/// A `u128` count of milliseconds, saturated to `u64`.
pub open spec fn clamp_millis(ms: u128) -> u64 {
    if ms > u64::MAX {
        u64::MAX
    } else {
        ms as u64
    }
}

/// When to click the bed before a timed purchase: given the purchase time
/// `purchase_at_ms`, how long before it to click and the current time, the
/// number of milliseconds from now to the click, or `None` when there is no
/// purchase time or the click time is not in the future.
pub fn timed_bed_click_at(purchase_at_ms: Option<u64>, click_offset_ms: u128, now_ms: u64) -> (r: Option<u64>)
    ensures
        r == (match purchase_at_ms {
            Some(p) => {
                let at = if p >= clamp_millis(click_offset_ms) {
                    p - clamp_millis(click_offset_ms)
                } else {
                    0
                };
                if at > now_ms {
                    Some((at - now_ms) as u64)
                } else {
                    None
                }
            },
            None => None,
        }),
{
    let p = match purchase_at_ms {
        Some(p) => p,
        None => {
            return None;
        },
    };
    let offset: u64 = if click_offset_ms > 18446744073709551615 {
        18446744073709551615
    } else {
        click_offset_ms as u64
    };
    let at = p.saturating_sub(offset);
    if at > now_ms {
        Some(at - now_ms)
    } else {
        None
    }
}

/// The Unix time in whole seconds once `delay_ms` has passed after the
/// Unix time `now_ms` in milliseconds (saturating).
pub fn unix_timestamp_after(now_ms: u64, delay_ms: u128) -> (r: u64)
    ensures
        r == (if now_ms + clamp_millis(delay_ms) > u64::MAX {
            u64::MAX as int
        } else {
            now_ms + clamp_millis(delay_ms)
        }) / 1000,
{
    let delay: u64 = if delay_ms > 18446744073709551615 {
        18446744073709551615
    } else {
        delay_ms as u64
    };
    now_ms.saturating_add(delay) / 1000
}

/// The amount a transfer request moves when it names none.
pub fn default_amount() -> (r: String)
    ensures
        r@ == "all"@,
{
    "all".to_owned()
}


/// Whether Cofl may make the account say things in chat: only when
/// `SAF_ALLOW_COFL_EXECUTE_CHAT` (whose value is `value`) is `1`, ignoring
/// surrounding whitespace.
pub fn cofl_execute_chat_allowed(value: Option<&str>) -> (r: bool)
    ensures
        r == (value matches Some(v) && trim(v@) == "1"@),
{
    match value {
        Some(v) => chars_equal(&trim_chars(&chars_of(v)), &chars_of("1")),
        None => false,
    }
}

/// Whether `SAF_COFL_SETTINGS_GUARD` (whose value is `value`) switches the
/// local flip safety floor off: `0`, `false`, `off` or `disabled`, in any
/// case, ignoring surrounding whitespace.
pub fn cofl_settings_guard_disabled(value: Option<&str>) -> (r: bool)
    ensures
        r == (value matches Some(v) && (lower_seq(trim(v@)) == "0"@ || lower_seq(trim(v@)) == "false"@
            || lower_seq(trim(v@)) == "off"@ || lower_seq(trim(v@)) == "disabled"@)),
{
    match value {
        Some(v) => {
            let t = lower_chars(&trim_chars(&chars_of(v)));
            chars_equal(&t, &chars_of("0")) || chars_equal(&t, &chars_of("false")) || chars_equal(
                &t,
                &chars_of("off"),
            ) || chars_equal(&t, &chars_of("disabled"))
        },
        None => false,
    }
}

/// The pause between bed clicks: the configured `clickDelay`, at least 1 ms.
pub fn bed_click_delay_ms(click_delay: u64) -> (r: u64)
    ensures
        r == (if click_delay > 1 { click_delay } else { 1 }),
{
    if click_delay > 1 {
        click_delay
    } else {
        1
    }
}

} // verus!
