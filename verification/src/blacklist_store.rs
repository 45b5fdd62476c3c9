//! A blacklist update applied to the configuration document: the value is
//! normalised, the list is updated, the document keeps the new list, and
//! the configuration text is patched in place (or rendered anew where the
//! list cannot be found in it).  Reading and writing the file, and
//! reloading the runtime's policy from the new text, are left to the caller.
use vstd::prelude::*;
use crate::blacklist_rules::{field_key, field_name, section_key, section_name, BlacklistField, BlacklistScope};
use crate::blacklist_update::{
    entry_key_spec, has_rule, lemma_add_keeps_rule, lemma_remove_absent_is_unchanged,
    lemma_remove_drops_rule, lemma_unexpired_keeps_all, none_expired, unexpired,
    normalize_update_value, normalized_value, opt_str, plan_blacklist_update, rule_from_text,
    rule_value_display, rule_value_key, stored_entry, summary_text, update_summary, updated_list,
    BlacklistAction, BlacklistValueError, RuleValue,
};
use crate::config_document::{
    config_array, config_array_or_effective, field_present, list_replaced, section_of,
    set_config_array, ConfigDocError,
};
use crate::config_patch::{patch_config_array, patched_config_array};
use crate::json_value::{obj_get, JsonNumber, JsonValue};
use crate::text::{chars_of, string_of, trim};
use serde_json::{Number, Value};

verus! {

#[verifier::external_type_specification]
#[verifier::external_body]
pub struct ExJsonDocumentValue(Value);

/// The text that `serde_json::to_string_pretty` produces for the JSON
/// value `v` stands for.
pub uninterp spec fn pretty_json_of(v: JsonValue) -> Seq<char>;

/// The `serde_json::Value` that `v` stands for, one node for one node (a
/// number kept as text is read back as the number it writes).  This is the
/// argument conversion of `render_json_pretty`.
#[verifier::external_body]
fn serde_value_of(v: &JsonValue) -> Value {
    match v {
        JsonValue::Null => Value::Null,
        JsonValue::Bool(b) => Value::Bool(*b),
        JsonValue::Number(JsonNumber::PosInt(n)) => Value::from(*n),
        JsonValue::Number(JsonNumber::NegInt(n)) => Value::from(*n),
        JsonValue::Number(JsonNumber::Float(t)) => t.parse::<Number>().map(Value::Number).unwrap_or(Value::Null),
        JsonValue::String(s) => Value::String(s.clone()),
        JsonValue::Array(a) => Value::Array(a.iter().map(serde_value_of).collect()),
        JsonValue::Object(es) => Value::Object(es.iter().map(|(k, x)| (k.clone(), serde_value_of(x))).collect()),
    }
}

/// Calls `serde_json::to_string_pretty` on the value `v` stands for.
/// Rendering a `serde_json::Value` cannot fail (its object keys are
/// strings); the text is named `pretty_json_of` and nothing more is
/// claimed of it.
#[verifier::external_body]
pub fn render_json_pretty(v: &JsonValue) -> (r: String)
    ensures
        r@ == pretty_json_of(*v),
{
    serde_json::to_string_pretty(&serde_value_of(v)).unwrap_or_default()
}

/// The configuration text with the array `section.field` replaced by the
/// pretty JSON of `list` (see `patched_config_array`); `None` when the text
/// has no such array.
pub fn patch_config_entries(raw: &str, section: &str, field: &str, list: &JsonValue) -> (r: Option<String>)
    ensures
        r matches Some(t) ==> patched_config_array(raw@, section@, field@, pretty_json_of(*list)) == Some(t@),
        r is None ==> patched_config_array(raw@, section@, field@, pretty_json_of(*list)) is None,
{
    let rendered = render_json_pretty(list);
    patch_config_array(raw, section, field, rendered.as_str())
}

/// A blacklist update as the operator asked for it.
#[derive(Clone, Debug)]
pub struct BlacklistUpdateInput {
    pub action: BlacklistAction,
    pub scope: BlacklistScope,
    pub field: BlacklistField,
    pub value: String,
}

/// What an update did: the document with the new list, whether the list
/// changed, the operator summary, and the configuration text to store.
#[derive(Debug)]
pub struct BlacklistUpdateOutcome {
    pub root: JsonValue,
    pub changed: bool,
    pub summary: String,
    pub config_text: String,
}

/// Why an update was refused.
#[derive(Clone, Copy, Debug, PartialEq, Eq, Structural)]
pub enum BlacklistUpdateError {
    /// The value does not name a rule of its list.
    Value(BlacklistValueError),
    /// The document cannot hold the list.
    Document(ConfigDocError),
}

/// The error that normalising `value` for the list of `field` gives, if any
/// (see `normalize_update_value`).
pub open spec fn value_error(field: BlacklistField, value: Seq<char>) -> Option<BlacklistValueError> {
    if field == BlacklistField::ItemEnchant {
        if rule_from_text(trim(value)) is None {
            Some(BlacklistValueError::MissingItemEnchantRule)
        } else {
            None
        }
    } else {
        match normalized_value(field, value) {
            Err(e) => Some(e),
            Ok(_) => None,
        }
    }
}

/// `v` is what normalising `value` for the list of `field` gives.
pub open spec fn value_normalizes(field: BlacklistField, value: Seq<char>, v: RuleValue) -> bool {
    if field == BlacklistField::ItemEnchant {
        rule_from_text(trim(value)) matches Some(m) && v matches RuleValue::ItemEnchant(rule) && rule.model() == m
    } else {
        normalized_value(field, value) matches Ok(t) && v matches RuleValue::Scalar(s) && s@ == t
    }
}

/// The entries an update starts from: the list the document names, else
/// the entries that apply by default.
pub open spec fn current_entries(root: JsonValue, section: Seq<char>, field: Seq<char>, effective: Seq<JsonValue>) -> Seq<JsonValue> {
    if field_present(root, section, field) {
        config_array(root, section, field)
    } else {
        effective
    }
}

/// The document cannot hold the list `section.field`: it is no object, or
/// its `section` is no object.
pub open spec fn document_error(root: JsonValue, section: Seq<char>) -> Option<ConfigDocError> {
    if !(root is Object) {
        Some(ConfigDocError::RootNotObject)
    } else if section_of(root, section) matches Some(s) && !(s is Object) {
        Some(ConfigDocError::SectionNotObject)
    } else {
        None
    }
}

/// The list `section.field` of `root`, when it is a list.
pub open spec fn stored_list(root: JsonValue, section: Seq<char>, field: Seq<char>) -> Option<Vec<JsonValue>> {
    match section_of(root, section) {
        Some(JsonValue::Object(ses)) => match obj_get(ses@, field) {
            Some(JsonValue::Array(v)) => Some(v),
            _ => None,
        },
        _ => None,
    }
}

/// `o` is the outcome of applying `u` to the configuration text `raw`,
/// parsed as `root`, when normalising gives `v` and `v` is stored as
/// `entry`: the list is updated (see `updated_list`) and kept in the
/// document, the summary says what happened, and the text to store is
/// `raw` when nothing changed, else `raw` with the list patched in, else
/// the whole document rendered.
pub open spec fn update_applied(
    raw: Seq<char>,
    root: JsonValue,
    u: BlacklistUpdateInput,
    effective: Seq<JsonValue>,
    expires: Seq<Option<u64>>,
    expires_at: Option<Seq<char>>,
    now: u64,
    v: RuleValue,
    entry: JsonValue,
    o: BlacklistUpdateOutcome,
) -> bool {
    let section = section_key(u.scope);
    let field = field_key(u.field);
    let cur = current_entries(root, section, field, effective);
    let (list, changed) = updated_list(u.action, u.field, rule_value_key(v, u.field), entry, cur, expires, now);
    &&& stored_list(o.root, section, field) matches Some(w) && w@ == list && list_replaced(root, o.root, section, field, w)
    &&& o.changed == changed
    &&& o.summary@ == summary_text(u.action, u.scope, u.field, rule_value_display(v), expires_at, changed)
    &&& o.config_text@ == if !changed {
        raw
    } else {
        match patched_config_array(raw, section, field, pretty_json_of(JsonValue::Array(stored_list(o.root, section, field)->0))) {
            Some(t) => t,
            None => pretty_json_of(o.root),
        }
    }
}

/// Applies a blacklist update to the configuration text `raw`, parsed as
/// `root`.  `effective` are the entries that apply when the document names
/// no list for the update; `expires` gives, entry by entry, when each of
/// the entries the update starts from expires; `expires_at` is the new
/// value's expiry, already written as a timestamp.
pub fn apply_blacklist_update(
    raw: &str,
    root: JsonValue,
    update: &BlacklistUpdateInput,
    effective: Vec<JsonValue>,
    expires: &Vec<Option<u64>>,
    expires_at: Option<String>,
    now: u64,
) -> (r: Result<BlacklistUpdateOutcome, BlacklistUpdateError>)
    requires
        expires@.len() == current_entries(root, section_key(update.scope), field_key(update.field), effective@).len(),
    ensures
        value_error(update.field, update.value@) matches Some(e) ==> r == Err::<BlacklistUpdateOutcome, BlacklistUpdateError>(
            BlacklistUpdateError::Value(e),
        ),
        value_error(update.field, update.value@) is None ==> match document_error(root, section_key(update.scope)) {
            Some(e) => r == Err::<BlacklistUpdateOutcome, BlacklistUpdateError>(BlacklistUpdateError::Document(e)),
            None => r matches Ok(o) && exists|v: RuleValue, entry: JsonValue|
                value_normalizes(update.field, update.value@, v) && stored_entry(entry, v, opt_str(expires_at))
                    && update_applied(raw@, root, *update, effective@, expires@, opt_str(expires_at), now, v, entry, o),
        },
{
    let ghost root0 = root;
    let section = section_name(update.scope);
    let field = field_name(update.field);
    let v = match normalize_update_value(update.field, update.value.as_str()) {
        Ok(v) => v,
        Err(e) => return Err(BlacklistUpdateError::Value(e)),
    };
    let key = v.key(update.field);
    let expiry_text: Option<String> = match &expires_at {
        Some(t) => Some(string_of(&chars_of(t.as_str()))),
        None => None,
    };
    let entry = v.to_entry(expires_at);
    let ghost entry0 = entry;
    let mut doc = root;
    let current = config_array_or_effective(&mut doc, section, field, effective);
    let (next, changed) = plan_blacklist_update(update.action, update.field, key.as_str(), entry, current, expires, now);
    let list = JsonValue::Array(next);
    let patched = if changed {
        patch_config_entries(raw, section, field, &list)
    } else {
        None
    };
    let next = match list {
        JsonValue::Array(n) => n,
        _ => Vec::new(),
    };
    match set_config_array(&mut doc, section, field, next) {
        Ok(()) => {},
        Err(e) => return Err(BlacklistUpdateError::Document(e)),
    }
    let expiry_ref: Option<&str> = match &expiry_text {
        Some(t) => Some(t.as_str()),
        None => None,
    };
    let summary = update_summary(update.action, update.scope, update.field, &v, expiry_ref, changed);
    let config_text = if !changed {
        string_of(&chars_of(raw))
    } else {
        match patched {
            Some(t) => t,
            None => render_json_pretty(&doc),
        }
    };
    Ok(BlacklistUpdateOutcome { root: doc, changed, summary, config_text })
}

/// Applying the same Add or Remove twice, with no entry expiring in
/// between, leaves the second call with nothing to do: it reports no
/// change, says `Already up to date`, and hands back the configuration text
/// it was given, so nothing needs writing.  (For an Add, the entry stored
/// for the value carries the value's key.)
pub proof fn lemma_repeated_blacklist_update_keeps_text(
    raw: Seq<char>,
    root: JsonValue,
    u: BlacklistUpdateInput,
    effective: Seq<JsonValue>,
    expires: Seq<Option<u64>>,
    expires_at: Option<Seq<char>>,
    now: u64,
    v: RuleValue,
    entry: JsonValue,
    o1: BlacklistUpdateOutcome,
    effective2: Seq<JsonValue>,
    later_expires: Seq<Option<u64>>,
    later: u64,
    v2: RuleValue,
    entry2: JsonValue,
    o2: BlacklistUpdateOutcome,
)
    requires
        u.action == BlacklistAction::Add || u.action == BlacklistAction::Remove,
        value_normalizes(u.field, u.value@, v),
        value_normalizes(u.field, u.value@, v2),
        entry_key_spec(u.field, entry) == Some(rule_value_key(v, u.field)),
        update_applied(raw, root, u, effective, expires, expires_at, now, v, entry, o1),
        update_applied(o1.config_text@, o1.root, u, effective2, later_expires, expires_at, later, v2, entry2, o2),
        later_expires.len() == current_entries(o1.root, section_key(u.scope), field_key(u.field), effective2).len(),
        none_expired(later_expires, later),
    ensures
        !o2.changed,
        o2.config_text@ == o1.config_text@,
        o2.summary@ == summary_text(u.action, u.scope, u.field, rule_value_display(v), expires_at, false),
{
    let section = section_key(u.scope);
    let field = field_key(u.field);
    let key = rule_value_key(v, u.field);
    assert(rule_value_key(v2, u.field) == key);
    assert(rule_value_display(v2) == rule_value_display(v));
    let cur1 = current_entries(root, section, field, effective);
    let list1 = updated_list(u.action, u.field, key, entry, cur1, expires, now).0;
    let w = stored_list(o1.root, section, field)->0;
    assert(field_present(o1.root, section, field));
    assert(current_entries(o1.root, section, field, effective2) == list1);
    if u.action == BlacklistAction::Add {
        lemma_add_keeps_rule(u.field, key, entry, cur1, expires, now);
        lemma_unexpired_keeps_all(list1, later_expires, later);
        assert(unexpired(list1, later_expires, later) == list1);
        assert(has_rule(list1, u.field, key));
    } else {
        lemma_remove_drops_rule(u.field, key, entry, cur1, expires, now);
        lemma_remove_absent_is_unchanged(u.field, key, entry2, list1, later_expires, later);
    }
}

} // verus!
