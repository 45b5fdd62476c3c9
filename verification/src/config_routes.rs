//! The dashboard's view of `config.json5`: which top-level keys it may read
//! and edit, which secret keys are stripped from what it shows, and how an
//! accepted edit is merged into the configuration object.
//!
//! A configuration object is held as its top-level entries, a key and a
//! value each; the values are carried through untouched.
use vstd::prelude::*;
use crate::text::{chars_of, join, join_words, str_equal, string_of};

verus! {

/// The top-level keys that the dashboard may read and edit.
pub open spec fn safe_keys() -> Seq<Seq<char>> {
    seq![
        "igns"@, "defaultIgn"@, "startDefaultOnly"@, "useCookie"@, "autoCookie"@,
        "angryCoopPrevention"@, "relist"@, "pingOnUpdate"@, "delay"@, "buyingReadyDelay"@,
        "waittime"@, "percentOfTarget"@, "listHours"@, "clickDelay"@, "bedSpam"@,
        "blockUselessMessages"@, "roundTo"@, "visitFriend"@, "webhookFormat"@, "branding"@,
        "skip"@, "doNotBuy"@, "doNotRelist"@, "autoRotate"@, "humanizer"@,
    ]
}

/// The secret-bearing keys, in both spellings that a serializer may emit.
pub open spec fn redact_keys() -> Seq<Seq<char>> {
    seq![
        "discordBot"@, "discord_bot"@, "session"@, "apiKey"@, "api_key"@, "webhook"@,
        "webhookUrl"@, "webhook_url"@, "sendAllFlips"@, "send_all_flips"@, "externalBackend"@,
        "external_backend"@, "discordId"@, "discord_id"@, "allowedIDs"@, "allowed_i_ds"@,
        "premiumToken"@, "premium_token"@, "sessionCookie"@, "session_cookie"@, "password"@,
        "secret"@,
    ]
}

pub open spec fn str_views(v: Seq<&str>) -> Seq<Seq<char>> {
    v.map_values(|s: &str| s@)
}

pub open spec fn string_views(v: Seq<String>) -> Seq<Seq<char>> {
    v.map_values(|s: String| s@)
}

/// The keys that the dashboard may read and edit.
pub fn safe_top_level_keys() -> (r: Vec<&'static str>)
    ensures
        str_views(r@) == safe_keys(),
{
    let mut r: Vec<&'static str> = Vec::new();
    r.push("igns");
    r.push("defaultIgn");
    r.push("startDefaultOnly");
    r.push("useCookie");
    r.push("autoCookie");
    r.push("angryCoopPrevention");
    r.push("relist");
    r.push("pingOnUpdate");
    r.push("delay");
    r.push("buyingReadyDelay");
    r.push("waittime");
    r.push("percentOfTarget");
    r.push("listHours");
    r.push("clickDelay");
    r.push("bedSpam");
    r.push("blockUselessMessages");
    r.push("roundTo");
    r.push("visitFriend");
    r.push("webhookFormat");
    r.push("branding");
    r.push("skip");
    r.push("doNotBuy");
    r.push("doNotRelist");
    r.push("autoRotate");
    r.push("humanizer");
    assert(str_views(r@) =~= safe_keys());
    r
}

/// The secret keys that are never shown and never edited.
pub fn always_redact_keys() -> (r: Vec<&'static str>)
    ensures
        str_views(r@) == redact_keys(),
{
    let mut r: Vec<&'static str> = Vec::new();
    r.push("discordBot");
    r.push("discord_bot");
    r.push("session");
    r.push("apiKey");
    r.push("api_key");
    r.push("webhook");
    r.push("webhookUrl");
    r.push("webhook_url");
    r.push("sendAllFlips");
    r.push("send_all_flips");
    r.push("externalBackend");
    r.push("external_backend");
    r.push("discordId");
    r.push("discord_id");
    r.push("allowedIDs");
    r.push("allowed_i_ds");
    r.push("premiumToken");
    r.push("premium_token");
    r.push("sessionCookie");
    r.push("session_cookie");
    r.push("password");
    r.push("secret");
    assert(str_views(r@) =~= redact_keys());
    r
}

/// Whether `key` is one of `list`.
fn listed(list: &Vec<&'static str>, key: &str) -> (r: bool)
    ensures
        r == str_views(list@).contains(key@),
{
    let ghost views = str_views(list@);
    let mut i: usize = 0;
    while i < list.len()
        invariant
            i <= list.len(),
            views == str_views(list@),
            forall|j: int| 0 <= j < i ==> views[j] != key@,
        decreases list.len() - i,
    {
        if str_equal(list[i], key) {
            assert(views[i as int] == key@);
            return true;
        }
        i = i + 1;
    }
    false
}

/// Whether the dashboard may read and edit the top-level key `key`.
pub fn is_safe_top_level_key(key: &str) -> (r: bool)
    ensures
        r == safe_keys().contains(key@),
{
    let keys = safe_top_level_keys();
    listed(&keys, key)
}

/// Whether `key` is a secret that is stripped from every view of the config.
pub fn is_redacted_key(key: &str) -> (r: bool)
    ensures
        r == redact_keys().contains(key@),
{
    let keys = always_redact_keys();
    listed(&keys, key)
}

/// The keys of an edit that are not on the allowlist, in order.
pub open spec fn forbidden_keys(keys: Seq<Seq<char>>) -> Seq<Seq<char>>
    decreases keys.len(),
{
    if keys.len() == 0 {
        seq![]
    } else {
        let rest = forbidden_keys(keys.drop_last());
        if safe_keys().contains(keys.last()) {
            rest
        } else {
            rest.push(keys.last())
        }
    }
}

/// The keys of an edit that the allowlist refuses, in the order given.
pub fn forbidden_patch_keys(keys: &Vec<String>) -> (r: Vec<String>)
    ensures
        string_views(r@) == forbidden_keys(string_views(keys@)),
{
    let ghost kv = string_views(keys@);
    let mut r: Vec<String> = Vec::new();
    let mut i: usize = 0;
    while i < keys.len()
        invariant
            i <= keys.len(),
            kv == string_views(keys@),
            string_views(r@) == forbidden_keys(kv.take(i as int)),
        decreases keys.len() - i,
    {
        assert(kv.take(i + 1).drop_last() =~= kv.take(i as int));
        assert(kv.take(i + 1).last() == keys@[i as int]@);
        if !is_safe_top_level_key(keys[i].as_str()) {
            let ghost before = string_views(r@);
            let k = string_of(&chars_of(keys[i].as_str()));
            r.push(k);
            assert(string_views(r@) =~= before.push(keys@[i as int]@));
        }
        i = i + 1;
    }
    assert(kv.take(keys.len() as int) =~= kv);
    r
}

/// A key is refused by the allowlist check exactly when the edit names it
/// and it is not on the allowlist.
pub proof fn lemma_forbidden_keys_members(keys: Seq<Seq<char>>, k: Seq<char>)
    ensures
        forbidden_keys(keys).contains(k) <==> (keys.contains(k) && !safe_keys().contains(k)),
    decreases keys.len(),
{
    if keys.len() > 0 {
        let init = keys.drop_last();
        lemma_forbidden_keys_members(init, k);
        assert(keys =~= init.push(keys.last()));
        if keys.contains(k) && k != keys.last() {
            let i = choose|i: int| 0 <= i < keys.len() && keys[i] == k;
            assert(init[i] == k);
        }
        if init.contains(k) {
            let i = choose|i: int| 0 <= i < init.len() && init[i] == k;
            assert(keys[i] == k);
        }
        let rest = forbidden_keys(init);
        if !safe_keys().contains(keys.last()) {
            if rest.contains(k) {
                let i = choose|i: int| 0 <= i < rest.len() && rest[i] == k;
                assert(rest.push(keys.last())[i] == k);
            }
            if k == keys.last() {
                assert(rest.push(keys.last())[rest.len() as int] == k);
            }
        }
    } else {
        assert(forbidden_keys(keys) =~= Seq::<Seq<char>>::empty());
    }
}

/// No secret key is on the allowlist: a key that is stripped from what the
/// dashboard shows can never be written through it either.
pub proof fn lemma_redacted_keys_are_never_safe(k: Seq<char>)
    requires
        redact_keys().contains(k),
    ensures
        !safe_keys().contains(k),
{
    reveal_strlit("igns");
    reveal_strlit("defaultIgn");
    reveal_strlit("startDefaultOnly");
    reveal_strlit("useCookie");
    reveal_strlit("autoCookie");
    reveal_strlit("angryCoopPrevention");
    reveal_strlit("relist");
    reveal_strlit("pingOnUpdate");
    reveal_strlit("delay");
    reveal_strlit("buyingReadyDelay");
    reveal_strlit("waittime");
    reveal_strlit("percentOfTarget");
    reveal_strlit("listHours");
    reveal_strlit("clickDelay");
    reveal_strlit("bedSpam");
    reveal_strlit("blockUselessMessages");
    reveal_strlit("roundTo");
    reveal_strlit("visitFriend");
    reveal_strlit("webhookFormat");
    reveal_strlit("branding");
    reveal_strlit("skip");
    reveal_strlit("doNotBuy");
    reveal_strlit("doNotRelist");
    reveal_strlit("autoRotate");
    reveal_strlit("humanizer");
    reveal_strlit("discordBot");
    reveal_strlit("discord_bot");
    reveal_strlit("session");
    reveal_strlit("apiKey");
    reveal_strlit("api_key");
    reveal_strlit("webhook");
    reveal_strlit("webhookUrl");
    reveal_strlit("webhook_url");
    reveal_strlit("sendAllFlips");
    reveal_strlit("send_all_flips");
    reveal_strlit("externalBackend");
    reveal_strlit("external_backend");
    reveal_strlit("discordId");
    reveal_strlit("discord_id");
    reveal_strlit("allowedIDs");
    reveal_strlit("allowed_i_ds");
    reveal_strlit("premiumToken");
    reveal_strlit("premium_token");
    reveal_strlit("sessionCookie");
    reveal_strlit("session_cookie");
    reveal_strlit("password");
    reveal_strlit("secret");
    let i = choose|i: int| 0 <= i < redact_keys().len() && redact_keys()[i] == k;
    assert forall|j: int| 0 <= j < safe_keys().len() implies safe_keys()[j] != k by {
        assert(safe_keys()[j].len() != k.len() || safe_keys()[j][0] != k[0] || safe_keys()[j][1] != k[1]
            || safe_keys()[j][2] != k[2] || safe_keys()[j][3] != k[3] || safe_keys()[j][4] != k[4]
            || safe_keys()[j][5] != k[5] || safe_keys()[j][6] != k[6]);
    }
}

/// An edit that names a secret key is always refused, and the refusal names
/// that key.
pub proof fn lemma_secret_edit_refused(keys: Seq<Seq<char>>, i: int)
    requires
        0 <= i < keys.len(),
        redact_keys().contains(keys[i]),
    ensures
        forbidden_keys(keys).contains(keys[i]),
        forbidden_keys(keys).len() > 0,
{
    lemma_redacted_keys_are_never_safe(keys[i]);
    lemma_forbidden_keys_members(keys, keys[i]);
}

/// An edit refused because it names keys outside the allowlist.
#[derive(Clone, Debug)]
pub struct ForbiddenFields {
    /// The refused keys, in the order the edit gave them.
    pub forbidden: Vec<String>,
    /// The message reported back to the dashboard.
    pub message: String,
}

/// The message for an edit that names the refused keys `forbidden`.
pub open spec fn forbidden_message(forbidden: Seq<Seq<char>>) -> Seq<char> {
    "Cannot update forbidden fields: "@ + join(forbidden, ", "@)
}

/// Checks the keys of an edit against the allowlist: `Ok` when every key is
/// on it, else the refused keys and the message that names them.
pub fn check_patch_keys(keys: &Vec<String>) -> (r: Result<(), ForbiddenFields>)
    ensures
        r is Ok <==> forbidden_keys(string_views(keys@)).len() == 0,
        r matches Err(e) ==> string_views(e.forbidden@) == forbidden_keys(string_views(keys@))
            && e.message@ == forbidden_message(forbidden_keys(string_views(keys@))),
{
    let forbidden = forbidden_patch_keys(keys);
    if forbidden.len() == 0 {
        return Ok(());
    }
    let mut parts: Vec<Vec<char>> = Vec::new();
    let mut i: usize = 0;
    while i < forbidden.len()
        invariant
            i <= forbidden.len(),
            parts@.map_values(|w: Vec<char>| w@) == string_views(forbidden@).take(i as int),
        decreases forbidden.len() - i,
    {
        let ghost before = parts@.map_values(|w: Vec<char>| w@);
        parts.push(chars_of(forbidden[i].as_str()));
        assert(parts@.map_values(|w: Vec<char>| w@) =~= before.push(forbidden@[i as int]@));
        assert(string_views(forbidden@).take(i + 1) =~= string_views(forbidden@).take(
            i as int,
        ).push(forbidden@[i as int]@));
        i = i + 1;
    }
    assert(string_views(forbidden@).take(forbidden.len() as int) =~= string_views(forbidden@));
    let sep = chars_of(", ");
    let joined = join_words(&parts, &sep);
    let mut text = chars_of("Cannot update forbidden fields: ");
    let ghost head = text@;
    let mut j: usize = 0;
    while j < joined.len()
        invariant
            j <= joined.len(),
            text@ == head + joined@.take(j as int),
        decreases joined.len() - j,
    {
        text.push(joined[j]);
        assert(joined@.take(j + 1) =~= joined@.take(j as int).push(joined@[j as int]));
        j = j + 1;
    }
    assert(joined@.take(joined.len() as int) =~= joined@);
    Err(ForbiddenFields { forbidden, message: string_of(&text) })
}

/// The entries of `s` whose keys are not secret, in order.
pub open spec fn unredacted<V>(s: Seq<(String, V)>) -> Seq<(String, V)>
    decreases s.len(),
{
    if s.len() == 0 {
        seq![]
    } else {
        let rest = unredacted(s.drop_last());
        if redact_keys().contains(s.last().0@) {
            rest
        } else {
            rest.push(s.last())
        }
    }
}

/// Removes every entry whose key is a secret, keeping the others in order.
pub fn redact<V>(entries: &mut Vec<(String, V)>)
    ensures
        final(entries)@ == unredacted(old(entries)@),
{
    let ghost orig = entries@;
    let ghost mut j: int = 0;
    let mut i: usize = 0;
    assert(orig.skip(0) =~= orig);
    while i < entries.len()
        invariant
            0 <= j <= orig.len(),
            i == unredacted(orig.take(j)).len(),
            entries@ == unredacted(orig.take(j)) + orig.skip(j),
        decreases entries.len() - i,
    {
        assert(entries@[i as int] == orig[j]);
        assert(orig.take(j + 1).drop_last() =~= orig.take(j));
        assert(orig.take(j + 1).last() == orig[j]);
        if is_redacted_key(entries[i].0.as_str()) {
            let ghost before = entries@;
            entries.remove(i);
            assert(entries@ =~= unredacted(orig.take(j + 1)) + orig.skip(j + 1));
        } else {
            assert(entries@ =~= unredacted(orig.take(j + 1)) + orig.skip(j + 1));
            i = i + 1;
        }
        proof {
            j = j + 1;
        }
    }
    assert(orig.skip(j).len() == 0);
    assert(orig.take(j) =~= orig);
    assert(entries@ =~= unredacted(orig));
}

/// The value that the last entry of `s` with key `k` holds, if any.
pub open spec fn lookup<V>(s: Seq<(String, V)>, k: Seq<char>) -> Option<V>
    decreases s.len(),
{
    if s.len() == 0 {
        None
    } else if s.last().0@ == k {
        Some(s.last().1)
    } else {
        lookup(s.drop_last(), k)
    }
}

/// The entries of `s` whose key is not `k`, in order.
pub open spec fn without_key<V>(s: Seq<(String, V)>, k: Seq<char>) -> Seq<(String, V)>
    decreases s.len(),
{
    if s.len() == 0 {
        seq![]
    } else {
        let rest = without_key(s.drop_last(), k);
        if s.last().0@ == k {
            rest
        } else {
            rest.push(s.last())
        }
    }
}

proof fn lemma_lookup_without_key<V>(s: Seq<(String, V)>, k: Seq<char>, q: Seq<char>)
    ensures
        lookup(without_key(s, k), q) == (if q == k {
            None
        } else {
            lookup(s, q)
        }),
    decreases s.len(),
{
    if s.len() > 0 {
        lemma_lookup_without_key(s.drop_last(), k, q);
        let rest = without_key(s.drop_last(), k);
        if s.last().0@ != k {
            assert(rest.push(s.last()).drop_last() =~= rest);
        }
    }
}

/// Removes every entry with key `key`, keeping the others in order.
fn remove_key<V>(entries: &mut Vec<(String, V)>, key: &str)
    ensures
        final(entries)@ == without_key(old(entries)@, key@),
{
    let ghost orig = entries@;
    let ghost mut j: int = 0;
    let mut i: usize = 0;
    assert(orig.skip(0) =~= orig);
    while i < entries.len()
        invariant
            0 <= j <= orig.len(),
            i == without_key(orig.take(j), key@).len(),
            entries@ == without_key(orig.take(j), key@) + orig.skip(j),
        decreases entries.len() - i,
    {
        assert(entries@[i as int] == orig[j]);
        assert(orig.take(j + 1).drop_last() =~= orig.take(j));
        assert(orig.take(j + 1).last() == orig[j]);
        if str_equal(entries[i].0.as_str(), key) {
            entries.remove(i);
            assert(entries@ =~= without_key(orig.take(j + 1), key@) + orig.skip(j + 1));
        } else {
            assert(entries@ =~= without_key(orig.take(j + 1), key@) + orig.skip(j + 1));
            i = i + 1;
        }
        proof {
            j = j + 1;
        }
    }
    assert(orig.skip(j).len() == 0);
    assert(orig.take(j) =~= orig);
    assert(entries@ =~= without_key(orig, key@));
}

/// What key `k` holds once the edit `patch` is merged into `target`: the
/// edit's value where the edit names `k`, else the value it had.
pub open spec fn merged_value<V>(target: Seq<(String, V)>, patch: Seq<(String, V)>, k: Seq<char>) -> Option<V> {
    match lookup(patch, k) {
        Some(v) => Some(v),
        None => lookup(target, k),
    }
}

/// Merges the top-level entries of `patch` into `target`, each replacing the
/// entry of the same key wholesale, and returns the keys it wrote, in order.
pub fn merge_entries<V>(target: &mut Vec<(String, V)>, patch: Vec<(String, V)>) -> (updated: Vec<String>)
    ensures
        forall|k: Seq<char>| #[trigger] lookup(final(target)@, k) == merged_value(old(target)@, patch@, k),
        updated@.len() == patch@.len(),
        forall|i: int| 0 <= i < patch@.len() ==> #[trigger] updated@[i]@ == patch@[i].0@,
{
    let ghost start = target@;
    let ghost all = patch@;
    let mut rest = patch;
    let mut updated: Vec<String> = Vec::new();
    let mut j: usize = 0;
    assert(all.skip(0) =~= all);
    let n = rest.len();
    assert(all.len() == n);
    while rest.len() > 0
        invariant
            j <= all.len(),
            all.len() <= usize::MAX,
            rest@ == all.skip(j as int),
            updated@.len() == j,
            forall|i: int| 0 <= i < j ==> #[trigger] updated@[i]@ == all[i].0@,
            forall|k: Seq<char>| #[trigger] lookup(target@, k) == merged_value(start, all.take(j as int), k),
        decreases rest.len(),
    {
        let (key, value) = rest.remove(0);
        assert(all[j as int] == (key, value));
        let ghost before = target@;
        remove_key(target, key.as_str());
        let copy = string_of(&chars_of(key.as_str()));
        target.push((key, value));
        updated.push(copy);
        proof {
            let pre = all.take(j as int);
            let post = all.take(j + 1);
            assert(post.drop_last() =~= pre);
            assert(post.last() == all[j as int]);
            assert forall|k: Seq<char>| #[trigger] lookup(target@, k) == merged_value(start, post, k) by {
                assert(target@.drop_last() =~= without_key(before, all[j as int].0@));
                lemma_lookup_without_key(before, all[j as int].0@, k);
            }
            assert(rest@ =~= all.skip(j + 1));
        }
        j = j + 1;
    }
    assert(all.take(j as int) =~= all);
    updated
}

/// What the dashboard shows of the configuration holds no secret key, and
/// keeps every entry whose key is not a secret.
pub proof fn lemma_redact_strips_secrets<V>(s: Seq<(String, V)>)
    ensures
        forall|i: int| 0 <= i < unredacted(s).len() ==> !redact_keys().contains(#[trigger] unredacted(s)[i].0@),
        forall|i: int| 0 <= i < s.len() && !redact_keys().contains(#[trigger] s[i].0@) ==> unredacted(s).contains(s[i]),
    decreases s.len(),
{
    if s.len() > 0 {
        let init = s.drop_last();
        lemma_redact_strips_secrets(init);
        let rest = unredacted(init);
        if redact_keys().contains(s.last().0@) {
            assert(unredacted(s) == rest);
            assert forall|i: int| 0 <= i < unredacted(s).len() implies !redact_keys().contains(
                #[trigger] unredacted(s)[i].0@,
            ) by {
                assert(unredacted(s)[i] == rest[i]);
            }
        } else {
            assert(unredacted(s) == rest.push(s.last()));
            assert forall|i: int| 0 <= i < rest.push(s.last()).len() implies !redact_keys().contains(
                #[trigger] rest.push(s.last())[i].0@,
            ) by {
                if i < rest.len() {
                    assert(rest.push(s.last())[i] == rest[i]);
                }
            }
            assert(rest.push(s.last())[rest.len() as int] == s.last());
            assert forall|i: int| 0 <= i < unredacted(s).len() implies !redact_keys().contains(
                #[trigger] unredacted(s)[i].0@,
            ) by {
                assert(unredacted(s)[i] == rest.push(s.last())[i]);
            }
        }
        assert forall|i: int| 0 <= i < s.len() && !redact_keys().contains(#[trigger] s[i].0@) implies unredacted(
            s,
        ).contains(s[i]) by {
            if i < s.len() - 1 {
                assert(init[i] == s[i]);
                assert(rest.contains(s[i]));
                let k = choose|k: int| 0 <= k < rest.len() && rest[k] == s[i];
                if !redact_keys().contains(s.last().0@) {
                    assert(rest.push(s.last())[k] == s[i]);
                }
            } else {
                assert(s[i] == s.last());
                assert(rest.push(s.last())[rest.len() as int] == s.last());
            }
        }
    }
}
} // verus!
