//! Reading and replacing one rule list (`section.field`) of the parsed
//! configuration object.
use vstd::prelude::*;
use crate::json_value::{obj_get, JsonNumber, JsonValue};
use crate::string_map::{
    entry_value, first_position, lemma_push_new, lemma_push_other, lemma_update_first,
    lemma_update_other,
};
use crate::text::{chars_of, string_of};

verus! {

/// The section `section` of the configuration object, if it has one.
pub open spec fn section_of(root: JsonValue, section: Seq<char>) -> Option<JsonValue> {
    match root {
        JsonValue::Object(es) => obj_get(es@, section),
        _ => None,
    }
}

/// The configuration names the list `section.field` explicitly.
pub open spec fn field_present(root: JsonValue, section: Seq<char>, field: Seq<char>) -> bool {
    match section_of(root, section) {
        Some(JsonValue::Object(ses)) => obj_get(ses@, field) is Some,
        _ => false,
    }
}

/// The entries of the list `section.field`; none when it is absent or not
/// a list.
pub open spec fn config_array(root: JsonValue, section: Seq<char>, field: Seq<char>) -> Seq<JsonValue> {
    match section_of(root, section) {
        Some(JsonValue::Object(ses)) => match obj_get(ses@, field) {
            Some(JsonValue::Array(v)) => v@,
            _ => seq![],
        },
        _ => seq![],
    }
}

pub fn config_field_present(root: &JsonValue, section: &str, field: &str) -> (r: bool)
    ensures
        r == field_present(*root, section@, field@),
{
    match root {
        JsonValue::Object(es) => match crate::json_value::object_get(es, section) {
            Some(JsonValue::Object(ses)) => crate::json_value::object_get(ses, field).is_some(),
            _ => false,
        },
        _ => false,
    }
}

/// `root`'s list `section.field` now holds `entries`, every other key of the
/// section and of the root unchanged.
pub open spec fn list_replaced(before: JsonValue, after: JsonValue, section: Seq<char>, field: Seq<char>, entries: Vec<JsonValue>) -> bool {
    &&& after matches JsonValue::Object(es2)
    &&& before matches JsonValue::Object(es)
    &&& forall|k: Seq<char>| k != section ==> #[trigger] obj_get(es2@, k) == obj_get(es@, k)
    &&& section_of(after, section) matches Some(JsonValue::Object(ses2))
    &&& obj_get(ses2@, field) == Some(JsonValue::Array(entries))
    &&& forall|k: Seq<char>| k != field ==> #[trigger] obj_get(ses2@, k) == match section_of(before, section) {
        Some(JsonValue::Object(ses)) => obj_get(ses@, k),
        _ => None,
    }
}

/// Two objects with the same entries.
pub open spec fn same_entries(a: JsonValue, b: JsonValue) -> bool {
    a matches JsonValue::Object(x) && b matches JsonValue::Object(y) && x@ == y@
}

/// Why a list could not be stored.
#[derive(Clone, Copy, Debug, PartialEq, Eq, Structural)]
pub enum ConfigDocError {
    RootNotObject,
    SectionNotObject,
}

impl ConfigDocError {
    /// The message of the error; `section` is the section's name.
    pub fn message(&self, section: &str) -> (r: String)
        ensures
            *self == ConfigDocError::RootNotObject ==> r@ == "config root is not an object"@,
            *self == ConfigDocError::SectionNotObject ==> r@ == section@ + " is not an object"@,
    {
        match self {
            ConfigDocError::RootNotObject => "config root is not an object".to_owned(),
            ConfigDocError::SectionNotObject => string_of(
                &crate::text::concat_chars(&chars_of(section), &chars_of(" is not an object")),
            ),
        }
    }
}

/// Stores `entries` as the list `section.field`, creating the section when
/// it is missing.
pub fn set_config_array(root: &mut JsonValue, section: &str, field: &str, entries: Vec<JsonValue>) -> (r: Result<(), ConfigDocError>)
    ensures
        !(*old(root) is Object) ==> r == Err::<(), ConfigDocError>(ConfigDocError::RootNotObject) && *final(root) == *old(root),
        *old(root) is Object && section_of(*old(root), section@) is Some && !(section_of(*old(root), section@)->0 is Object)
            ==> r == Err::<(), ConfigDocError>(ConfigDocError::SectionNotObject) && same_entries(*old(root), *final(root)),
        *old(root) is Object && !(section_of(*old(root), section@) is Some && !(section_of(*old(root), section@)->0 is Object))
            ==> r is Ok && list_replaced(*old(root), *final(root), section@, field@, entries),
{
    let mut owned = JsonValue::Null;
    std::mem::swap(&mut owned, root);
    let ghost before = owned;
    let mut es = match owned {
        JsonValue::Object(es) => es,
        other => {
            *root = other;
            return Err(ConfigDocError::RootNotObject);
        },
    };
    let ghost es0 = es@;
    let (pos, sec_entries): (Option<usize>, Vec<(String, JsonValue)>) = match first_position(&es, section) {
        Some(i) => {
            let (name, value) = es.remove(i);
            match value {
                JsonValue::Object(ses) => {
                    es.insert(i, (name, JsonValue::Null));
                    (Some(i), ses)
                },
                other => {
                    es.insert(i, (name, other));
                    proof {
                        assert(es@ =~= es0);
                        assert(entry_value(es0, section@) == Some(es0[i as int].1)) by {
                            crate::string_map::lemma_update_first(es0, i as int, es0[i as int].1);
                            assert(es0.update(i as int, (es0[i as int].0, es0[i as int].1)) =~= es0);
                        }
                    }
                    *root = JsonValue::Object(es);
                    return Err(ConfigDocError::SectionNotObject);
                },
            }
        },
        None => (None, Vec::new()),
    };
    let mut ses = sec_entries;
    let ghost ses0 = ses@;
    let new_list = JsonValue::Array(entries);
    match first_position(&ses, field) {
        Some(j) => {
            let (fname, _) = ses.remove(j);
            ses.insert(j, (fname, new_list));
            proof {
                assert(ses@ =~= ses0.update(j as int, (ses0[j as int].0, new_list)));
                lemma_update_first(ses0, j as int, new_list);
                assert forall|k: Seq<char>| k != field@ implies #[trigger] entry_value(ses@, k) == entry_value(ses0, k) by {
                    lemma_update_other(ses0, j as int, new_list, k);
                }
            }
        },
        None => {
            let fname = string_of(&chars_of(field));
            ses.push((fname, new_list));
            proof {
                assert(ses@ =~= ses0.push((fname, new_list)));
                lemma_push_new(ses0, (fname, new_list));
                assert forall|k: Seq<char>| k != field@ implies #[trigger] entry_value(ses@, k) == entry_value(ses0, k) by {
                    lemma_push_other(ses0, (fname, new_list), k);
                }
            }
        },
    }
    let ghost ses_final = ses@;
    let section_value = JsonValue::Object(ses);
    match pos {
        Some(i) => {
            let (name, _) = es.remove(i);
            es.insert(i, (name, section_value));
            proof {
                assert(es@ =~= es0.update(i as int, (es0[i as int].0, section_value)));
                lemma_update_first(es0, i as int, section_value);
                assert forall|k: Seq<char>| k != section@ implies #[trigger] entry_value(es@, k) == entry_value(es0, k) by {
                    lemma_update_other(es0, i as int, section_value, k);
                }
                lemma_update_first(es0, i as int, es0[i as int].1);
                assert(es0.update(i as int, (es0[i as int].0, es0[i as int].1)) =~= es0);
            }
        },
        None => {
            let name = string_of(&chars_of(section));
            es.push((name, section_value));
            proof {
                assert(es@ =~= es0.push((name, section_value)));
                lemma_push_new(es0, (name, section_value));
                assert forall|k: Seq<char>| k != section@ implies #[trigger] entry_value(es@, k) == entry_value(es0, k) by {
                    lemma_push_other(es0, (name, section_value), k);
                }
                crate::string_map::lemma_value_absent(es0, section@);
            }
        },
    }
    *root = JsonValue::Object(es);
    Ok(())
}

/// `after` is `before` with the list `section.field` emptied: every other
/// key of the root and of the section is unchanged.
pub open spec fn list_emptied(before: JsonValue, after: JsonValue, section: Seq<char>, field: Seq<char>) -> bool {
    &&& before matches JsonValue::Object(es)
    &&& after matches JsonValue::Object(es2)
    &&& forall|k: Seq<char>| k != section ==> #[trigger] obj_get(es2@, k) == obj_get(es@, k)
    &&& section_of(before, section) matches Some(JsonValue::Object(ses))
    &&& section_of(after, section) matches Some(JsonValue::Object(ses2))
    &&& (obj_get(ses2@, field) matches Some(JsonValue::Array(v)) && v@.len() == 0)
    &&& forall|k: Seq<char>| k != field ==> #[trigger] obj_get(ses2@, k) == obj_get(ses@, k)
}

/// The number of entries of the list `section.field`, when it is a list.
fn config_array_len(root: &JsonValue, section: &str, field: &str) -> (r: Option<usize>)
    ensures
        r matches Some(n) ==> section_of(*root, section@) matches Some(JsonValue::Object(ses))
            && obj_get(ses@, field@) matches Some(JsonValue::Array(v)) && v@.len() == n,
        r is None ==> !(section_of(*root, section@) matches Some(JsonValue::Object(ses))
            && obj_get(ses@, field@) matches Some(JsonValue::Array(v))),
{
    match root {
        JsonValue::Object(es) => match crate::json_value::object_get(es, section) {
            Some(JsonValue::Object(ses)) => match crate::json_value::object_get(ses, field) {
                Some(JsonValue::Array(v)) => Some(v.len()),
                _ => None,
            },
            _ => None,
        },
        _ => None,
    }
}

/// The current entries of the list `section.field`, for an update that
/// will store the list again: taken out of `root` (which keeps an empty list
/// in their place) when the configuration names the list, else the
/// `effective` entries that apply by default.
pub fn config_array_or_effective(root: &mut JsonValue, section: &str, field: &str, effective: Vec<JsonValue>) -> (r: Vec<JsonValue>)
    ensures
        field_present(*old(root), section@, field@) ==> r@ == config_array(*old(root), section@, field@),
        !field_present(*old(root), section@, field@) ==> r@ == effective@ && *final(root) == *old(root),
        field_present(*old(root), section@, field@) && config_array(*old(root), section@, field@).len() > 0
            ==> list_emptied(*old(root), *final(root), section@, field@),
        field_present(*old(root), section@, field@) && config_array(*old(root), section@, field@).len() == 0
            ==> *final(root) == *old(root),
{
    if !config_field_present(root, section, field) {
        return effective;
    }
    match config_array_len(root, section, field) {
        Some(n) => if n == 0 {
            return Vec::new();
        },
        None => {
            return Vec::new();
        },
    }
    let mut owned = JsonValue::Null;
    std::mem::swap(&mut owned, root);
    let ghost before = owned;
    let mut es = match owned {
        JsonValue::Object(es) => es,
        other => {
            *root = other;
            return Vec::new();
        },
    };
    let ghost es0 = es@;
    let i = match first_position(&es, section) {
        Some(i) => i,
        None => {
            proof {
                crate::string_map::lemma_value_absent(es0, section@);
            }
            *root = JsonValue::Object(es);
            return Vec::new();
        },
    };
    proof {
        lemma_update_first(es0, i as int, es0[i as int].1);
        assert(es0.update(i as int, (es0[i as int].0, es0[i as int].1)) =~= es0);
    }
    let (name, value) = es.remove(i);
    let mut ses = match value {
        JsonValue::Object(ses) => ses,
        other => {
            es.insert(i, (name, other));
            *root = JsonValue::Object(es);
            return Vec::new();
        },
    };
    let ghost ses0 = ses@;
    let j = match first_position(&ses, field) {
        Some(j) => j,
        None => {
            proof {
                crate::string_map::lemma_value_absent(ses0, field@);
            }
            es.insert(i, (name, JsonValue::Object(ses)));
            *root = JsonValue::Object(es);
            return Vec::new();
        },
    };
    proof {
        lemma_update_first(ses0, j as int, ses0[j as int].1);
        assert(ses0.update(j as int, (ses0[j as int].0, ses0[j as int].1)) =~= ses0);
    }
    let (fname, fvalue) = ses.remove(j);
    let items = match fvalue {
        JsonValue::Array(items) => items,
        other => {
            ses.insert(j, (fname, other));
            es.insert(i, (name, JsonValue::Object(ses)));
            *root = JsonValue::Object(es);
            return Vec::new();
        },
    };
    let empty = JsonValue::Array(Vec::new());
    ses.insert(j, (fname, empty));
    proof {
        assert(ses@ =~= ses0.update(j as int, (ses0[j as int].0, empty)));
        lemma_update_first(ses0, j as int, empty);
        assert forall|k: Seq<char>| k != field@ implies #[trigger] entry_value(ses@, k) == entry_value(ses0, k) by {
            lemma_update_other(ses0, j as int, empty, k);
        }
    }
    let section_value = JsonValue::Object(ses);
    es.insert(i, (name, section_value));
    proof {
        assert(es@ =~= es0.update(i as int, (es0[i as int].0, section_value)));
        lemma_update_first(es0, i as int, section_value);
        assert forall|k: Seq<char>| k != section@ implies #[trigger] entry_value(es@, k) == entry_value(es0, k) by {
            lemma_update_other(es0, i as int, section_value, k);
        }
    }
    *root = JsonValue::Object(es);
    items
}

/// A configuration text with nothing but whitespace counts as an empty
/// object instead of being parsed.
pub fn config_text_is_blank(raw: &str) -> (r: bool)
    ensures
        r == (crate::text::trim(raw@).len() == 0),
{
    crate::text::trim_chars(&chars_of(raw)).len() == 0
}

/// The empty configuration object.
pub fn empty_config() -> (r: JsonValue)
    ensures
        r matches JsonValue::Object(es) && es@.len() == 0,
{
    JsonValue::Object(Vec::new())
}

/// Stores `value` under `key` in an object's entries, replacing what was
/// there.
pub fn object_insert(es: &mut Vec<(String, JsonValue)>, key: &str, value: JsonValue)
    ensures
        obj_get(final(es)@, key@) == Some(value),
        forall|k: Seq<char>| k != key@ ==> #[trigger] obj_get(final(es)@, k) == obj_get(old(es)@, k),
{
    let ghost es0 = es@;
    match first_position(es, key) {
        Some(i) => {
            let (name, _) = es.remove(i);
            es.insert(i, (name, value));
            proof {
                assert(es@ =~= es0.update(i as int, (es0[i as int].0, value)));
                lemma_update_first(es0, i as int, value);
                assert forall|k: Seq<char>| k != key@ implies #[trigger] entry_value(es@, k) == entry_value(es0, k) by {
                    lemma_update_other(es0, i as int, value, k);
                }
            }
        },
        None => {
            let name = string_of(&chars_of(key));
            es.push((name, value));
            proof {
                assert(es@ =~= es0.push((name, value)));
                lemma_push_new(es0, (name, value));
                assert forall|k: Seq<char>| k != key@ implies #[trigger] entry_value(es@, k) == entry_value(es0, k) by {
                    lemma_push_other(es0, (name, value), k);
                }
            }
        },
    }
}

/// The entries of an object without its bookkeeping keys, in order.
fn drop_meta(es: Vec<(String, JsonValue)>) -> (r: Vec<(String, JsonValue)>)
    ensures
        r@ == crate::blacklist_update::strip_meta(es@),
{
    let ghost all = es@;
    let mut rest = es;
    let mut kept: Vec<(String, JsonValue)> = Vec::new();
    let mut j: usize = 0;
    let n = rest.len();
    assert(all.skip(0) =~= all);
    while rest.len() > 0
        invariant
            j <= all.len(),
            all.len() == n,
            rest@ == all.skip(j as int),
            crate::blacklist_update::strip_meta(all) == kept@ + crate::blacklist_update::strip_meta(all.skip(j as int)),
        decreases rest.len(),
    {
        let e = rest.remove(0);
        proof {
            assert(all.skip(j as int)[0] == e);
            assert(all.skip(j as int).drop_first() =~= all.skip(j + 1));
            assert(rest@ =~= all.skip(j + 1));
        }
        let k = chars_of(e.0.as_str());
        let meta = crate::text::chars_equal(&k, &chars_of("expiresAt")) || crate::text::chars_equal(&k, &chars_of("expires"))
            || crate::text::chars_equal(&k, &chars_of("until")) || crate::text::chars_equal(&k, &chars_of("createdAt"));
        if !meta {
            let ghost before = kept@;
            kept.push(e);
            assert(before + (seq![e] + crate::blacklist_update::strip_meta(all.skip(j + 1))) =~= kept@
                + crate::blacklist_update::strip_meta(all.skip(j + 1)));
        }
        j = j + 1;
    }
    assert(all.skip(j as int) =~= Seq::<(String, JsonValue)>::empty());
    assert(kept@ + Seq::<(String, JsonValue)>::empty() =~= kept@);
    kept
}

/// `r` is the object with entries `base`, plus `expiresAt` holding the
/// expiry text when there is one.
pub open spec fn object_with_expiry(base: Seq<(String, JsonValue)>, expires: Option<Seq<char>>, r: JsonValue) -> bool {
    r matches JsonValue::Object(x) && match expires {
        None => x@ == base,
        Some(t) => (obj_get(x@, "expiresAt"@) matches Some(JsonValue::String(s)) && s@ == t) && forall|k: Seq<char>|
            k != "expiresAt"@ ==> #[trigger] obj_get(x@, k) == obj_get(base, k),
    }
}

/// `r` shows the value `v` with the expiry: an object gets an `expiresAt`
/// key, any other value is wrapped as `value` beside `expiresAt`.
pub open spec fn shown_with_expiry(v: JsonValue, expires: Option<Seq<char>>, r: JsonValue) -> bool {
    match v {
        JsonValue::Object(es) => object_with_expiry(es@, expires, r),
        _ => match expires {
            None => r == v,
            Some(t) => r matches JsonValue::Object(x) && x@.len() == 2 && x@[0].0@ == "value"@ && x@[0].1 == v
                && crate::blacklist_update::string_entry(x@[1], "expiresAt"@, t),
        },
    }
}

/// `r` is how the blacklist listing shows the stored `entry`: the value it
/// wraps (or the entry without its bookkeeping keys) with the expiry.
pub open spec fn snapshot_shows(entry: JsonValue, expires: Option<Seq<char>>, r: JsonValue) -> bool {
    match entry {
        JsonValue::Object(es) => match obj_get(es@, "value"@) {
            Some(v) => shown_with_expiry(v, expires, r),
            None => object_with_expiry(crate::blacklist_update::strip_meta(es@), expires, r),
        },
        _ => shown_with_expiry(entry, expires, r),
    }
}

fn with_expiry(x: Vec<(String, JsonValue)>, expires_at: Option<String>) -> (r: JsonValue)
    ensures
        object_with_expiry(x@, crate::blacklist_update::opt_str(expires_at), r),
{
    match expires_at {
        None => JsonValue::Object(x),
        Some(t) => {
            let mut y = x;
            object_insert(&mut y, "expiresAt", JsonValue::String(t));
            JsonValue::Object(y)
        },
    }
}

fn show_with_expiry(v: JsonValue, expires_at: Option<String>) -> (r: JsonValue)
    ensures
        shown_with_expiry(v, crate::blacklist_update::opt_str(expires_at), r),
{
    match v {
        JsonValue::Object(x) => with_expiry(x, expires_at),
        other => match expires_at {
            None => other,
            Some(t) => {
                let ghost o = other;
                let mut x: Vec<(String, JsonValue)> = Vec::new();
                x.push(("value".to_owned(), other));
                x.push(("expiresAt".to_owned(), JsonValue::String(t)));
                assert(x@[0].1 == o);
                JsonValue::Object(x)
            },
        },
    }
}

/// The stored `entry` as the blacklist listing shows it; `expires_at` is
/// its expiry, already formatted, when it has one.
pub fn snapshot_entry(entry: JsonValue, expires_at: Option<String>) -> (r: JsonValue)
    ensures
        snapshot_shows(entry, crate::blacklist_update::opt_str(expires_at), r),
{
    match entry {
        JsonValue::Object(es) => {
            let ghost es0 = es@;
            match first_position(&es, "value") {
                Some(i) => {
                    proof {
                        lemma_update_first(es0, i as int, es0[i as int].1);
                        assert(es0.update(i as int, (es0[i as int].0, es0[i as int].1)) =~= es0);
                    }
                    let mut es = es;
                    let (_, v) = es.remove(i);
                    show_with_expiry(v, expires_at)
                },
                None => {
                    proof {
                        crate::string_map::lemma_value_absent(es0, "value"@);
                    }
                    with_expiry(drop_meta(es), expires_at)
                },
            }
        },
        other => show_with_expiry(other, expires_at),
    }
}

/// `r` lists the unexpired entries of `vs` (expiring at `ex`, entry by
/// entry, with formatted expiries `tx`) as the listing shows them, in order.
pub open spec fn snapshots_ok(
    vs: Seq<JsonValue>,
    ex: Seq<Option<u64>>,
    tx: Seq<Option<Seq<char>>>,
    now: u64,
    r: Seq<JsonValue>,
) -> bool
    decreases vs.len(),
{
    if vs.len() == 0 {
        r.len() == 0
    } else if ex.last() matches Some(at) && at <= now {
        snapshots_ok(vs.drop_last(), ex.drop_last(), tx.drop_last(), now, r)
    } else {
        r.len() > 0 && snapshot_shows(vs.last(), tx.last(), r.last()) && snapshots_ok(
            vs.drop_last(),
            ex.drop_last(),
            tx.drop_last(),
            now,
            r.drop_last(),
        )
    }
}

/// The unexpired entries of a rule list as the listing shows them.
pub fn snapshot_config_values(
    values: Vec<JsonValue>,
    expires: &Vec<Option<u64>>,
    expiry_texts: Vec<Option<String>>,
    now: u64,
) -> (r: Vec<JsonValue>)
    requires
        expires@.len() == values@.len(),
        expiry_texts@.len() == values@.len(),
    ensures
        snapshots_ok(
            values@,
            expires@,
            expiry_texts@.map_values(|t: Option<String>| crate::blacklist_update::opt_str(t)),
            now,
            r@,
        ),
{
    let ghost vs = values@;
    let ghost tx = expiry_texts@.map_values(|t: Option<String>| crate::blacklist_update::opt_str(t));
    let mut rest = values;
    let mut texts = expiry_texts;
    let mut out: Vec<JsonValue> = Vec::new();
    let mut j: usize = 0;
    let n = rest.len();
    assert(vs.skip(0) =~= vs);
    assert(expiry_texts@.skip(0) =~= expiry_texts@);
    while rest.len() > 0
        invariant
            j <= vs.len(),
            vs.len() == n,
            expires@.len() == n,
            tx.len() == n,
            rest@ == vs.skip(j as int),
            texts@.len() == rest@.len(),
            forall|k: int| 0 <= k < texts@.len() ==> crate::blacklist_update::opt_str(#[trigger] texts@[k]) == tx[j + k],
            snapshots_ok(vs.take(j as int), expires@.take(j as int), tx.take(j as int), now, out@),
        decreases rest.len(),
    {
        let e = rest.remove(0);
        let t = texts.remove(0);
        proof {
            assert(vs[j as int] == e);
            assert(rest@ =~= vs.skip(j + 1));
            assert(crate::blacklist_update::opt_str(t) == tx[j as int]);
            assert(vs.take(j + 1).drop_last() =~= vs.take(j as int));
            assert(expires@.take(j + 1).drop_last() =~= expires@.take(j as int));
            assert(tx.take(j + 1).drop_last() =~= tx.take(j as int));
            assert(vs.take(j + 1).last() == e);
            assert(expires@.take(j + 1).last() == expires@[j as int]);
            assert(tx.take(j + 1).last() == tx[j as int]);
        }
        let expired = match expires[j] {
            Some(at) => at <= now,
            None => false,
        };
        if !expired {
            let ghost before = out@;
            let shown = snapshot_entry(e, t);
            out.push(shown);
            assert(out@.drop_last() =~= before);
        }
        j = j + 1;
    }
    assert(vs.take(j as int) =~= vs);
    assert(expires@.take(j as int) =~= expires@);
    assert(tx.take(j as int) =~= tx);
    out
}


/// An item-enchantment rule as the loaded configuration holds it.
#[derive(Clone, Debug)]
pub struct ItemEnchantmentEntry {
    pub tag: Option<String>,
    pub name: Option<String>,
    pub enchantment: String,
    pub level: Option<u32>,
    /// When the rule expires, in Unix milliseconds.
    pub expires_at: Option<u64>,
}

pub open spec fn opt_string_json(o: Option<String>) -> Option<JsonValue> {
    match o {
        Some(t) => Some(JsonValue::String(t)),
        None => None,
    }
}

/// `r` is the listing of the rule `e` with the expiry text `expiry`: an
/// object with its tag and name (when set), its enchantment, its level
/// (when set) and `expiresAt` (when there is an expiry), and nothing else.
pub open spec fn item_enchantment_shown(e: ItemEnchantmentEntry, expiry: Option<String>, r: JsonValue) -> bool {
    r matches JsonValue::Object(x) && {
        &&& obj_get(x@, "tag"@) == opt_string_json(e.tag)
        &&& obj_get(x@, "name"@) == opt_string_json(e.name)
        &&& obj_get(x@, "enchantment"@) == Some(JsonValue::String(e.enchantment))
        &&& obj_get(x@, "level"@) == (match e.level {
            Some(l) => Some(JsonValue::Number(JsonNumber::PosInt(l as u64))),
            None => None,
        })
        &&& obj_get(x@, "expiresAt"@) == opt_string_json(expiry)
        &&& forall|k: Seq<char>| k != "tag"@ && k != "name"@ && k != "enchantment"@ && k != "level"@ && k
            != "expiresAt"@ ==> #[trigger] obj_get(x@, k) is None
    }
}

/// The listing of one item-enchantment rule; `expiry_text` is its expiry
/// as the listing writes it, when it has one.
pub fn snapshot_item_enchantment(entry: ItemEnchantmentEntry, expiry_text: Option<String>) -> (r: JsonValue)
    ensures
        item_enchantment_shown(entry, expiry_text, r),
{
    proof {
        reveal_strlit("tag");
        reveal_strlit("name");
        reveal_strlit("enchantment");
        reveal_strlit("level");
        reveal_strlit("expiresAt");
    }
    let mut x: Vec<(String, JsonValue)> = Vec::new();
    assert forall|k: Seq<char>| #[trigger] obj_get(x@, k) is None by {}
    let ghost e = entry;
    let ItemEnchantmentEntry { tag, name, enchantment, level, expires_at: _ } = entry;
    assert(tag == e.tag && name == e.name && enchantment == e.enchantment && level == e.level);
    assert("tag"@.len() == 3);
    assert("name"@.len() == 4);
    assert("enchantment"@.len() == 11);
    assert("level"@.len() == 5);
    assert("expiresAt"@.len() == 9);
    match tag {
        Some(t) => {
            object_insert(&mut x, "tag", JsonValue::String(t));
        },
        None => {},
    }
    match name {
        Some(n) => {
            object_insert(&mut x, "name", JsonValue::String(n));
        },
        None => {},
    }
    object_insert(&mut x, "enchantment", JsonValue::String(enchantment));
    match level {
        Some(l) => {
            object_insert(&mut x, "level", JsonValue::Number(JsonNumber::PosInt(l as u64)));
        },
        None => {},
    }
    match expiry_text {
        Some(t) => {
            object_insert(&mut x, "expiresAt", JsonValue::String(t));
        },
        None => {},
    }
    JsonValue::Object(x)
}

/// `r` lists, in order, the rules of `vs` that have not expired at `now`,
/// each with its expiry text from `tx`.
pub open spec fn item_snapshots_ok(vs: Seq<ItemEnchantmentEntry>, tx: Seq<Option<String>>, now: u64, r: Seq<JsonValue>) -> bool
    decreases vs.len(),
{
    if vs.len() == 0 {
        r.len() == 0
    } else if vs.last().expires_at matches Some(at) && at <= now {
        item_snapshots_ok(vs.drop_last(), tx.drop_last(), now, r)
    } else {
        r.len() > 0 && item_enchantment_shown(vs.last(), tx.last(), r.last()) && item_snapshots_ok(
            vs.drop_last(),
            tx.drop_last(),
            now,
            r.drop_last(),
        )
    }
}

/// The listing of the item-enchantment rules that have not expired at `now`.
pub fn snapshot_item_enchantments(values: Vec<ItemEnchantmentEntry>, expiry_texts: Vec<Option<String>>, now: u64) -> (r: Vec<JsonValue>)
    requires
        expiry_texts@.len() == values@.len(),
    ensures
        item_snapshots_ok(values@, expiry_texts@, now, r@),
{
    let ghost vs = values@;
    let ghost tx = expiry_texts@;
    let mut rest = values;
    let mut texts = expiry_texts;
    let mut out: Vec<JsonValue> = Vec::new();
    let mut j: usize = 0;
    let n = rest.len();
    assert(vs.skip(0) =~= vs);
    assert(tx.skip(0) =~= tx);
    while rest.len() > 0
        invariant
            j <= vs.len(),
            vs.len() == n,
            tx.len() == n,
            rest@ == vs.skip(j as int),
            texts@ == tx.skip(j as int),
            item_snapshots_ok(vs.take(j as int), tx.take(j as int), now, out@),
        decreases rest.len(),
    {
        let e = rest.remove(0);
        let t = texts.remove(0);
        proof {
            assert(vs[j as int] == e);
            assert(tx[j as int] == t);
            assert(rest@ =~= vs.skip(j + 1));
            assert(texts@ =~= tx.skip(j + 1));
            assert(vs.take(j + 1).drop_last() =~= vs.take(j as int));
            assert(tx.take(j + 1).drop_last() =~= tx.take(j as int));
            assert(vs.take(j + 1).last() == e);
            assert(tx.take(j + 1).last() == t);
        }
        let expired = match e.expires_at {
            Some(at) => at <= now,
            None => false,
        };
        if !expired {
            let ghost before = out@;
            let shown = snapshot_item_enchantment(e, t);
            out.push(shown);
            assert(out@.drop_last() =~= before);
        }
        j = j + 1;
    }
    assert(vs.take(j as int) =~= vs);
    assert(tx.take(j as int) =~= tx);
    out
}

} // verus!
