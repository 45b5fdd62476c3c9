//! Blacklist rules as stored in `config.json5` and what an update does to
//! a rule list: item/enchantment rules, the key under which two entries
//! count as the same rule, and the add/remove plan.
use vstd::prelude::*;
use crate::blacklist_rules::{
    enchant_key, enchant_key_of, enchant_spec, enchant_id, field_key, name_key, normalize_enchant_id,
    normalize_name, normalize_tag, parse_enchant_level, parse_enchant_spec, section_key, tag_key,
    enchant_level, BlacklistField, BlacklistScope, Enchantment,
};
use crate::json_value::{
    obj_get, obj_get_any, object_get, object_get_any, text_of, value_text, JsonNumber, JsonValue,
};
use crate::text::{
    ascii_lower, chars_of, concat_chars, concat_str, is_ascii_alnum, is_ws, join, join_words,
    lower_seq, split_words, str_equal, string_of, trim, trim_chars, trim_start, word_len, words,
};
use crate::blacklist_rules::{name_char, remove_all, strip_colors};

verus! {

/// What an update asks for.
#[derive(Clone, Copy, Debug, PartialEq, Eq, Structural)]
pub enum BlacklistAction {
    List,
    Add,
    Remove,
}

/// A rule that blocks an enchantment on an item, or on every item.
#[derive(Clone, Debug)]
pub struct ItemEnchantRule {
    pub tag: Option<String>,
    pub name: Option<String>,
    pub enchantment: Enchantment,
}

/// A rule as `(tag, name, enchantment id, level)`.
pub type RuleModel = (Option<Seq<char>>, Option<Seq<char>>, Seq<char>, Option<u32>);

pub open spec fn opt_str(o: Option<String>) -> Option<Seq<char>> {
    match o {
        Some(s) => Some(s@),
        None => None,
    }
}

impl ItemEnchantRule {
    pub open spec fn model(&self) -> RuleModel {
        (opt_str(self.tag), opt_str(self.name), self.enchantment.id@, self.enchantment.level)
    }
}

/// The keys that may hold a rule's enchantment, item tag and item name.
pub open spec fn enchant_keys() -> Seq<Seq<char>> {
    seq!["enchantment"@, "enchant"@, "id"@]
}

pub open spec fn tag_keys() -> Seq<Seq<char>> {
    seq!["tag"@, "itemTag"@, "itemId"@]
}

pub open spec fn name_keys() -> Seq<Seq<char>> {
    seq!["name"@, "itemName"@, "displayName"@, "item"@]
}

/// The text of the value under the first of `keys` the object has.
pub open spec fn text_under(es: Seq<(String, JsonValue)>, keys: Seq<Seq<char>>) -> Option<Seq<char>> {
    match obj_get_any(es, keys) {
        Some(v) => text_of(v),
        None => None,
    }
}

/// A rule written as an object: the enchantment (with an optional level of
/// its own, overridden by a `level` entry that parses), an optional item
/// tag (normalised, dropped when empty) and an optional item name.
pub open spec fn rule_from_object(es: Seq<(String, JsonValue)>) -> Option<RuleModel> {
    match text_under(es, enchant_keys()) {
        None => None,
        Some(t) => match enchant_spec(t) {
            None => None,
            Some((id, own_level)) => {
                let level = match text_under(es, seq!["level"@]) {
                    Some(x) => match enchant_level(x) {
                        Some(n) => Some(n),
                        None => own_level,
                    },
                    None => own_level,
                };
                let tag = match text_under(es, tag_keys()) {
                    Some(x) => if tag_key(x).len() > 0 {
                        Some(tag_key(x))
                    } else {
                        None
                    },
                    None => None,
                };
                let name = match text_under(es, name_keys()) {
                    Some(x) => if trim(x).len() > 0 {
                        Some(x)
                    } else {
                        None
                    },
                    None => None,
                };
                Some((tag, name, id, level))
            },
        },
    }
}

/// A rule written as text: an item tag, then an enchantment.
pub open spec fn rule_from_text(t: Seq<char>) -> Option<RuleModel> {
    let parts = words(t);
    if parts.len() < 2 {
        None
    } else {
        match enchant_spec(join(parts.drop_first(), " "@)) {
            Some((id, level)) => Some((Some(tag_key(parts[0])), None, id, level)),
            None => None,
        }
    }
}

/// The rule that a stored value describes, if any.
pub open spec fn item_rule(v: JsonValue) -> Option<RuleModel> {
    match v {
        JsonValue::Object(es) => rule_from_object(es@),
        _ => match text_of(v) {
            Some(t) => rule_from_text(t),
            None => None,
        },
    }
}

fn key_list3(a: &'static str, b: &'static str, c: &'static str) -> (r: Vec<&'static str>)
    ensures
        r@.map_values(|k: &str| k@) == seq![a@, b@, c@],
{
    let mut r: Vec<&'static str> = Vec::new();
    r.push(a);
    r.push(b);
    r.push(c);
    assert(r@.map_values(|k: &str| k@) =~= seq![a@, b@, c@]);
    r
}

/// The trimmed text under the first of `keys` that the object has.
fn text_under_keys(es: &Vec<(String, JsonValue)>, keys: &Vec<&str>) -> (r: Option<String>)
    ensures
        r matches Some(t) ==> text_under(es@, keys@.map_values(|k: &str| k@)) == Some(t@),
        r is None ==> text_under(es@, keys@.map_values(|k: &str| k@)) is None,
{
    match object_get_any(es, keys) {
        Some(v) => value_text(v),
        None => None,
    }
}

fn rule_of_object(es: &Vec<(String, JsonValue)>) -> (r: Option<ItemEnchantRule>)
    ensures
        r matches Some(rule) ==> rule_from_object(es@) == Some(rule.model()),
        r is None ==> rule_from_object(es@) is None,
{
    let ek = key_list3("enchantment", "enchant", "id");
    let text = match text_under_keys(es, &ek) {
        Some(t) => t,
        None => {
            return None;
        },
    };
    let enchantment = match parse_enchant_spec(&chars_of(text.as_str())) {
        Some(e) => e,
        None => {
            return None;
        },
    };
    let mut lk: Vec<&str> = Vec::new();
    lk.push("level");
    assert(lk@.map_values(|k: &str| k@) =~= seq!["level"@]);
    let level = match text_under_keys(es, &lk) {
        Some(x) => match parse_enchant_level(&chars_of(x.as_str())) {
            Some(n) => Some(n),
            None => enchantment.level,
        },
        None => enchantment.level,
    };
    let tk = key_list3("tag", "itemTag", "itemId");
    let tag = match text_under_keys(es, &tk) {
        Some(x) => {
            let t = normalize_tag(x.as_str());
            if chars_of(t.as_str()).len() > 0 {
                Some(t)
            } else {
                None
            }
        },
        None => None,
    };
    let mut nk: Vec<&str> = Vec::new();
    nk.push("name");
    nk.push("itemName");
    nk.push("displayName");
    nk.push("item");
    assert(nk@.map_values(|k: &str| k@) =~= name_keys());
    let name = match text_under_keys(es, &nk) {
        Some(x) => if trim_chars(&chars_of(x.as_str())).len() > 0 {
            Some(x)
        } else {
            None
        },
        None => None,
    };
    Some(ItemEnchantRule { tag, name, enchantment: Enchantment { id: enchantment.id, level } })
}

fn rule_of_text(t: &str) -> (r: Option<ItemEnchantRule>)
    ensures
        r matches Some(rule) ==> rule_from_text(t@) == Some(rule.model()),
        r is None ==> rule_from_text(t@) is None,
{
    let parts = split_words(&chars_of(t));
    let ghost pv = parts@.map_values(|w: Vec<char>| w@);
    if parts.len() < 2 {
        return None;
    }
    let mut rest: Vec<Vec<char>> = Vec::new();
    let mut i: usize = 1;
    while i < parts.len()
        invariant
            1 <= i <= parts.len(),
            pv == parts@.map_values(|w: Vec<char>| w@),
            rest@.map_values(|w: Vec<char>| w@) == pv.subrange(1, i as int),
        decreases parts.len() - i,
    {
        let ghost before = rest@.map_values(|w: Vec<char>| w@);
        rest.push(parts[i].clone());
        assert(rest@.map_values(|w: Vec<char>| w@) =~= before.push(pv[i as int]));
        assert(pv.subrange(1, i + 1) =~= pv.subrange(1, i as int).push(pv[i as int]));
        i = i + 1;
    }
    assert(pv.subrange(1, parts.len() as int) =~= pv.drop_first());
    let sep = chars_of(" ");
    let joined = join_words(&rest, &sep);
    match parse_enchant_spec(&joined) {
        Some(enchantment) => {
            let tag = normalize_tag(string_of(&parts[0]).as_str());
            Some(ItemEnchantRule { tag: Some(tag), name: None, enchantment })
        },
        None => None,
    }
}

/// The rule that a stored value describes, if any.
pub fn parse_item_enchant_rule(v: &JsonValue) -> (r: Option<ItemEnchantRule>)
    ensures
        r matches Some(rule) ==> item_rule(*v) == Some(rule.model()),
        r is None ==> item_rule(*v) is None,
{
    match v {
        JsonValue::Object(es) => rule_of_object(es),
        _ => match value_text(v) {
            Some(t) => rule_of_text(t.as_str()),
            None => None,
        },
    }
}

/// The key under which a rule is compared: the item (`tag:`, `name:` with
/// the name normalised, or `item:*`), `|`, and the enchantment's key.
pub open spec fn rule_key(m: RuleModel) -> Seq<char> {
    let item = match m.0 {
        Some(t) => "tag:"@ + t,
        None => match m.1 {
            Some(n) => "name:"@ + name_key(n),
            None => "item:*"@,
        },
    };
    item + "|"@ + enchant_key_of(m.2, m.3)
}

/// How a rule is shown to the operator.
pub open spec fn rule_display(m: RuleModel) -> Seq<char> {
    let item = match m.0 {
        Some(t) => t,
        None => match m.1 {
            Some(n) => n,
            None => "item"@,
        },
    };
    item + " "@ + enchant_key_of(m.2, m.3)
}

fn concat3(a: &Vec<char>, b: &Vec<char>, c: &Vec<char>) -> (r: Vec<char>)
    ensures
        r@ == a@ + b@ + c@,
{
    let ab = concat_chars(a, b);
    concat_chars(&ab, c)
}

impl ItemEnchantRule {
    pub fn key(&self) -> (r: String)
        ensures
            r@ == rule_key(self.model()),
    {
        let item: Vec<char> = match &self.tag {
            Some(t) => concat_chars(&chars_of("tag:"), &chars_of(t.as_str())),
            None => match &self.name {
                Some(n) => concat_chars(&chars_of("name:"), &normalize_name(&chars_of(n.as_str()))),
                None => chars_of("item:*"),
            },
        };
        let e = enchant_key(&self.enchantment);
        string_of(&concat3(&item, &chars_of("|"), &e))
    }

    pub fn display(&self) -> (r: String)
        ensures
            r@ == rule_display(self.model()),
    {
        let item: Vec<char> = match &self.tag {
            Some(t) => chars_of(t.as_str()),
            None => match &self.name {
                Some(n) => chars_of(n.as_str()),
                None => chars_of("item"),
            },
        };
        let e = enchant_key(&self.enchantment);
        string_of(&concat3(&item, &chars_of(" "), &e))
    }
}

/// The key under which a plain value of `field` is compared.
pub open spec fn scalar_key(field: BlacklistField, v: Seq<char>) -> Seq<char> {
    match field {
        BlacklistField::Tag => tag_key(v),
        BlacklistField::Name => name_key(v),
        BlacklistField::Enchant => match enchant_spec(v) {
            Some((id, level)) => enchant_key_of(id, level),
            None => enchant_id(v),
        },
        BlacklistField::ItemEnchant => v,
    }
}

pub fn scalar_key_of(field: BlacklistField, value: &str) -> (r: String)
    ensures
        r@ == scalar_key(field, value@),
{
    match field {
        BlacklistField::Tag => normalize_tag(value),
        BlacklistField::Name => string_of(&normalize_name(&chars_of(value))),
        BlacklistField::Enchant => match parse_enchant_spec(&chars_of(value)) {
            Some(e) => string_of(&enchant_key(&e)),
            None => string_of(&normalize_enchant_id(&chars_of(value))),
        },
        BlacklistField::ItemEnchant => string_of(&chars_of(value)),
    }
}

/// `e` is the entry `k` holding the string `v`.
pub open spec fn string_entry(e: (String, JsonValue), k: Seq<char>, v: Seq<char>) -> bool {
    e.0@ == k && (e.1 matches JsonValue::String(s) && s@ == v)
}

/// `es` are the entries of a stored rule `m`: `tag`, `name` (each when
/// present), `enchantment`, `level` (when present) and `expiresAt` (when
/// the rule expires), in this order.
pub open spec fn rule_object(es: Seq<(String, JsonValue)>, m: RuleModel, expires: Option<Seq<char>>) -> bool {
    let t: int = if m.0 is Some { 1int } else { 0int };
    let n: int = t + if m.1 is Some { 1int } else { 0int };
    let l: int = n + 1 + if m.3 is Some { 1int } else { 0int };
    &&& es.len() == l + if expires is Some { 1int } else { 0int }
    &&& m.0 is Some ==> string_entry(es[0], "tag"@, m.0->0)
    &&& m.1 is Some ==> string_entry(es[t], "name"@, m.1->0)
    &&& string_entry(es[n], "enchantment"@, m.2)
    &&& m.3 is Some ==> es[n + 1].0@ == "level"@ && es[n + 1].1 == JsonValue::Number(
        JsonNumber::PosInt(m.3->0 as u64),
    )
    &&& expires is Some ==> string_entry(es[l], "expiresAt"@, expires->0)
}

/// `r` is the entry stored for `v` (see `RuleValue::to_entry`).
pub open spec fn stored_entry(r: JsonValue, v: RuleValue, expires: Option<Seq<char>>) -> bool {
    match v {
        RuleValue::Scalar(s) => match expires {
            None => r matches JsonValue::String(t) && t@ == s@,
            Some(x) => r matches JsonValue::Object(es) && es@.len() == 2 && string_entry(es@[0], "value"@, s@)
                && string_entry(es@[1], "expiresAt"@, x),
        },
        RuleValue::ItemEnchant(rule) => r matches JsonValue::Object(es) && rule_object(es@, rule.model(), expires),
    }
}

/// A value to add to or remove from a list.
#[derive(Clone, Debug)]
pub enum RuleValue {
    Scalar(String),
    ItemEnchant(ItemEnchantRule),
}

/// The key under which `v` is compared in the list of `field`.
pub open spec fn rule_value_key(v: RuleValue, field: BlacklistField) -> Seq<char> {
    match v {
        RuleValue::Scalar(s) => scalar_key(field, s@),
        RuleValue::ItemEnchant(r) => rule_key(r.model()),
    }
}

/// How `v` is shown to the operator.
pub open spec fn rule_value_display(v: RuleValue) -> Seq<char> {
    match v {
        RuleValue::Scalar(s) => s@,
        RuleValue::ItemEnchant(r) => rule_display(r.model()),
    }
}

impl RuleValue {
    pub fn key(&self, field: BlacklistField) -> (r: String)
        ensures
            r@ == rule_value_key(*self, field),
    {
        match self {
            RuleValue::Scalar(s) => scalar_key_of(field, s.as_str()),
            RuleValue::ItemEnchant(rule) => rule.key(),
        }
    }

    pub fn display(&self) -> (r: String)
        ensures
            r@ == rule_value_display(*self),
    {
        match self {
            RuleValue::Scalar(s) => string_of(&chars_of(s.as_str())),
            RuleValue::ItemEnchant(rule) => rule.display(),
        }
    }

    /// The entry stored for this value: a plain string, or an object for a
    /// rule; with an `expiresAt` entry holding `expires_at` (the expiry,
    /// already formatted as a timestamp) when the value expires.
    pub fn to_entry(&self, expires_at: Option<String>) -> (r: JsonValue)
        ensures
            stored_entry(r, *self, opt_str(expires_at)),
    {
        match self {
            RuleValue::Scalar(s) => match expires_at {
                Some(x) => {
                    let mut es: Vec<(String, JsonValue)> = Vec::new();
                    es.push(("value".to_owned(), JsonValue::String(string_of(&chars_of(s.as_str())))));
                    es.push(("expiresAt".to_owned(), JsonValue::String(x)));
                    JsonValue::Object(es)
                },
                None => JsonValue::String(string_of(&chars_of(s.as_str()))),
            },
            RuleValue::ItemEnchant(rule) => {
                let mut es: Vec<(String, JsonValue)> = Vec::new();
                let ghost model = rule.model();
                match &rule.tag {
                    Some(t) => es.push(("tag".to_owned(), JsonValue::String(string_of(&chars_of(t.as_str()))))),
                    None => {},
                }
                match &rule.name {
                    Some(n) => es.push(("name".to_owned(), JsonValue::String(string_of(&chars_of(n.as_str()))))),
                    None => {},
                }
                es.push((
                    "enchantment".to_owned(),
                    JsonValue::String(string_of(&chars_of(rule.enchantment.id.as_str()))),
                ));
                match rule.enchantment.level {
                    Some(l) => es.push(("level".to_owned(), JsonValue::Number(JsonNumber::PosInt(l as u64)))),
                    None => {},
                }
                match expires_at {
                    Some(x) => es.push(("expiresAt".to_owned(), JsonValue::String(x))),
                    None => {},
                }
                JsonValue::Object(es)
            },
        }
    }
}

/// Why an update's value was refused.
#[derive(Clone, Copy, Debug, PartialEq, Eq, Structural)]
pub enum BlacklistValueError {
    MissingEnchantment,
    MissingItemEnchantRule,
}

impl BlacklistValueError {
    pub fn message(&self) -> (r: &'static str)
        ensures
            *self == BlacklistValueError::MissingEnchantment ==> r@ == "missing blacklist enchantment"@,
            *self == BlacklistValueError::MissingItemEnchantRule ==> r@ == "missing item/enchantment rule"@,
    {
        match self {
            BlacklistValueError::MissingEnchantment => "missing blacklist enchantment",
            BlacklistValueError::MissingItemEnchantRule => "missing item/enchantment rule",
        }
    }
}

/// What an update's value `value` becomes in the list of `field`: a tag
/// normalised, a name trimmed, an enchantment by its key, or an
/// item/enchantment rule written as text.
pub open spec fn normalized_value(field: BlacklistField, value: Seq<char>) -> Result<Seq<char>, BlacklistValueError> {
    match field {
        BlacklistField::Tag => Ok(tag_key(value)),
        BlacklistField::Name => Ok(trim(value)),
        BlacklistField::Enchant => match enchant_spec(value) {
            Some((id, level)) => Ok(enchant_key_of(id, level)),
            None => Err(BlacklistValueError::MissingEnchantment),
        },
        BlacklistField::ItemEnchant => Err(BlacklistValueError::MissingItemEnchantRule),
    }
}

pub fn normalize_update_value(field: BlacklistField, value: &str) -> (r: Result<RuleValue, BlacklistValueError>)
    ensures
        field != BlacklistField::ItemEnchant ==> match normalized_value(field, value@) {
            Ok(v) => r matches Ok(RuleValue::Scalar(s)) && s@ == v,
            Err(e) => r == Err::<RuleValue, BlacklistValueError>(e),
        },
        field == BlacklistField::ItemEnchant ==> match rule_from_text(trim(value@)) {
            Some(m) => r matches Ok(RuleValue::ItemEnchant(rule)) && rule.model() == m,
            None => r == Err::<RuleValue, BlacklistValueError>(BlacklistValueError::MissingItemEnchantRule),
        },
{
    match field {
        BlacklistField::Tag => Ok(RuleValue::Scalar(normalize_tag(value))),
        BlacklistField::Name => Ok(RuleValue::Scalar(string_of(&trim_chars(&chars_of(value))))),
        BlacklistField::Enchant => match parse_enchant_spec(&chars_of(value)) {
            Some(e) => Ok(RuleValue::Scalar(string_of(&enchant_key(&e)))),
            None => Err(BlacklistValueError::MissingEnchantment),
        },
        BlacklistField::ItemEnchant => {
            let t = string_of(&trim_chars(&chars_of(value)));
            match rule_of_text(t.as_str()) {
                Some(rule) => Ok(RuleValue::ItemEnchant(rule)),
                None => Err(BlacklistValueError::MissingItemEnchantRule),
            }
        },
    }
}

/// Bookkeeping keys of a stored entry, not part of the rule.
pub open spec fn is_meta_key(k: Seq<char>) -> bool {
    k == "expiresAt"@ || k == "expires"@ || k == "until"@ || k == "createdAt"@
}

/// The entries of an object without its bookkeeping keys.
pub open spec fn strip_meta(es: Seq<(String, JsonValue)>) -> Seq<(String, JsonValue)>
    decreases es.len(),
{
    if es.len() == 0 {
        seq![]
    } else if is_meta_key(es[0].0@) {
        strip_meta(es.drop_first())
    } else {
        seq![es[0]] + strip_meta(es.drop_first())
    }
}

proof fn lemma_strip_meta_get(es: Seq<(String, JsonValue)>, k: Seq<char>)
    requires
        !is_meta_key(k),
    ensures
        obj_get(strip_meta(es), k) == obj_get(es, k),
    decreases es.len(),
{
    if es.len() > 0 {
        lemma_strip_meta_get(es.drop_first(), k);
        if !is_meta_key(es[0].0@) {
            let rest = strip_meta(es.drop_first());
            assert((seq![es[0]] + rest).drop_first() =~= rest);
        }
    }
}

proof fn lemma_strip_meta_get_any(es: Seq<(String, JsonValue)>, keys: Seq<Seq<char>>)
    requires
        forall|i: int| 0 <= i < keys.len() ==> !is_meta_key(#[trigger] keys[i]),
    ensures
        obj_get_any(strip_meta(es), keys) == obj_get_any(es, keys),
    decreases keys.len(),
{
    if keys.len() > 0 {
        lemma_strip_meta_get(es, keys[0]);
        lemma_strip_meta_get_any(es, keys.drop_first());
    }
}

proof fn lemma_rule_ignores_meta(es: Seq<(String, JsonValue)>)
    ensures
        rule_from_object(strip_meta(es)) == rule_from_object(es),
{
    reveal_strlit("expiresAt");
    reveal_strlit("expires");
    reveal_strlit("until");
    reveal_strlit("createdAt");
    reveal_strlit("enchantment");
    reveal_strlit("enchant");
    reveal_strlit("id");
    reveal_strlit("level");
    reveal_strlit("tag");
    reveal_strlit("itemTag");
    reveal_strlit("itemId");
    reveal_strlit("name");
    reveal_strlit("itemName");
    reveal_strlit("displayName");
    reveal_strlit("item");
    assert forall|i: int| 0 <= i < enchant_keys().len() implies !is_meta_key(#[trigger] enchant_keys()[i]) by {
        assert(enchant_keys()[i].len() != 9 && enchant_keys()[i].len() != 5 && (enchant_keys()[i].len()
            != 7 || enchant_keys()[i][1] != 'x'));
    }
    assert forall|i: int| 0 <= i < tag_keys().len() implies !is_meta_key(#[trigger] tag_keys()[i]) by {
        assert(tag_keys()[i][0] != 'e' && tag_keys()[i][0] != 'u' && tag_keys()[i][0] != 'c');
    }
    assert forall|i: int| 0 <= i < name_keys().len() implies !is_meta_key(#[trigger] name_keys()[i]) by {
        assert(name_keys()[i][0] != 'e' && name_keys()[i][0] != 'u' && name_keys()[i][0] != 'c');
    }
    let lk = seq!["level"@];
    assert forall|i: int| 0 <= i < lk.len() implies !is_meta_key(#[trigger] lk[i]) by {
        assert(lk[i][0] != 'e' && lk[i][0] != 'u' && lk[i][0] != 'c');
    }
    lemma_strip_meta_get_any(es, enchant_keys());
    lemma_strip_meta_get_any(es, tag_keys());
    lemma_strip_meta_get_any(es, name_keys());
    lemma_strip_meta_get_any(es, lk);
}

/// The key a stored value has in the list of `field`.
pub open spec fn value_key(field: BlacklistField, v: JsonValue) -> Option<Seq<char>> {
    match field {
        BlacklistField::ItemEnchant => match item_rule(v) {
            Some(m) => Some(rule_key(m)),
            None => None,
        },
        _ => match text_of(v) {
            Some(t) => Some(scalar_key(field, t)),
            None => None,
        },
    }
}

/// The key a stored entry has in the list of `field`: that of its `value`
/// when it wraps one, else that of the entry without its bookkeeping keys.
pub open spec fn entry_key_spec(field: BlacklistField, e: JsonValue) -> Option<Seq<char>> {
    match e {
        JsonValue::Object(es) => match obj_get(es@, "value"@) {
            Some(v) => value_key(field, v),
            None => match field {
                BlacklistField::ItemEnchant => match rule_from_object(strip_meta(es@)) {
                    Some(m) => Some(rule_key(m)),
                    None => None,
                },
                _ => None,
            },
        },
        _ => value_key(field, e),
    }
}

fn key_of_value(field: BlacklistField, v: &JsonValue) -> (r: Option<String>)
    ensures
        r matches Some(k) ==> value_key(field, *v) == Some(k@),
        r is None ==> value_key(field, *v) is None,
{
    match field {
        BlacklistField::ItemEnchant => match parse_item_enchant_rule(v) {
            Some(rule) => Some(rule.key()),
            None => None,
        },
        _ => match value_text(v) {
            Some(t) => Some(scalar_key_of(field, t.as_str())),
            None => None,
        },
    }
}

/// The key of a stored entry (see `entry_key_spec`).
pub fn entry_key(field: BlacklistField, e: &JsonValue) -> (r: Option<String>)
    ensures
        r matches Some(k) ==> entry_key_spec(field, *e) == Some(k@),
        r is None ==> entry_key_spec(field, *e) is None,
{
    match e {
        JsonValue::Object(es) => match object_get(es, "value") {
            Some(v) => key_of_value(field, v),
            None => match field {
                BlacklistField::ItemEnchant => {
                    proof {
                        lemma_rule_ignores_meta(es@);
                    }
                    match rule_of_object(es) {
                        Some(rule) => Some(rule.key()),
                        None => None,
                    }
                },
                _ => None,
            },
        },
        _ => key_of_value(field, e),
    }
}

/// Where a stored entry keeps its expiry.
#[derive(Clone, Debug)]
pub enum EntryExpiry {
    /// No usable expiry.
    Missing,
    /// A Unix time in milliseconds.
    At(u64),
    /// A timestamp written as text, still to be parsed.
    Text(String),
}

/// The expiry of an entry, read from the first of `expiresAt`, `expires`
/// and `until` that it has: `Ok` with a whole number of milliseconds, `Err`
/// with text still to be parsed as a timestamp, `None` when there is none
/// or it holds anything else.
pub open spec fn expiry_of(e: JsonValue) -> Option<Result<u64, Seq<char>>> {
    match e {
        JsonValue::Object(es) => match obj_get_any(es@, seq!["expiresAt"@, "expires"@, "until"@]) {
            Some(JsonValue::Number(JsonNumber::PosInt(n))) => Some(Ok(n)),
            Some(JsonValue::String(s)) => Some(Err(s@)),
            _ => None,
        },
        _ => None,
    }
}

pub fn entry_expiry(e: &JsonValue) -> (r: EntryExpiry)
    ensures
        expiry_of(*e) matches Some(Ok(n)) ==> r == EntryExpiry::At(n),
        expiry_of(*e) matches Some(Err(t)) ==> (r matches EntryExpiry::Text(s) && s@ == t),
        expiry_of(*e) is None ==> r is Missing,
{
    match e {
        JsonValue::Object(es) => {
            let keys = key_list3("expiresAt", "expires", "until");
            match object_get_any(es, &keys) {
                Some(JsonValue::Number(JsonNumber::PosInt(n))) => EntryExpiry::At(*n),
                Some(JsonValue::String(s)) => EntryExpiry::Text(s.clone()),
                _ => EntryExpiry::Missing,
            }
        },
        _ => EntryExpiry::Missing,
    }
}

/// The entries whose expiry (`expires`, entry by entry) has not been
/// reached at `now`.
pub open spec fn unexpired(es: Seq<JsonValue>, expires: Seq<Option<u64>>, now: u64) -> Seq<JsonValue>
    decreases es.len(),
{
    if es.len() == 0 {
        seq![]
    } else {
        let rest = unexpired(es.drop_last(), expires.drop_last(), now);
        if expires.last() matches Some(at) && at <= now {
            rest
        } else {
            rest.push(es.last())
        }
    }
}

/// The entries whose key in the list of `field` is not `key`.
pub open spec fn without_rule(es: Seq<JsonValue>, field: BlacklistField, key: Seq<char>) -> Seq<JsonValue>
    decreases es.len(),
{
    if es.len() == 0 {
        seq![]
    } else {
        let rest = without_rule(es.drop_last(), field, key);
        if entry_key_spec(field, es.last()) == Some(key) {
            rest
        } else {
            rest.push(es.last())
        }
    }
}

/// Some entry has the key `key` in the list of `field`.
pub open spec fn has_rule(es: Seq<JsonValue>, field: BlacklistField, key: Seq<char>) -> bool {
    exists|i: int| 0 <= i < es.len() && entry_key_spec(field, #[trigger] es[i]) == Some(key)
}

/// The list after an update, and whether it changed.  Listing changes
/// nothing.  Adding drops the expired entries and appends `new_entry`
/// unless an entry with the same key remains, reporting a change only when
/// it appends.  Removing drops every entry with the key and reports a
/// change when there was one.
pub open spec fn updated_list(
    action: BlacklistAction,
    field: BlacklistField,
    key: Seq<char>,
    new_entry: JsonValue,
    current: Seq<JsonValue>,
    expires: Seq<Option<u64>>,
    now: u64,
) -> (Seq<JsonValue>, bool) {
    match action {
        BlacklistAction::List => (current, false),
        BlacklistAction::Add => {
            let active = unexpired(current, expires, now);
            if has_rule(active, field, key) {
                (active, false)
            } else {
                (active.push(new_entry), true)
            }
        },
        BlacklistAction::Remove => {
            let kept = without_rule(current, field, key);
            (kept, kept.len() != current.len())
        },
    }
}

/// Applies an update to the rule list `current`, whose entries expire at
/// `expires` (entry by entry); `key` is the updated value's key and
/// `new_entry` what is stored when it is added.
pub fn plan_blacklist_update(
    action: BlacklistAction,
    field: BlacklistField,
    key: &str,
    new_entry: JsonValue,
    current: Vec<JsonValue>,
    expires: &Vec<Option<u64>>,
    now: u64,
) -> (r: (Vec<JsonValue>, bool))
    requires
        expires@.len() == current@.len(),
    ensures
        (r.0@, r.1) == updated_list(action, field, key@, new_entry, current@, expires@, now),
{
    let ghost all = current@;
    match action {
        BlacklistAction::List => (current, false),
        BlacklistAction::Add => {
            let mut rest = current;
            let mut active: Vec<JsonValue> = Vec::new();
            let mut present = false;
            let mut j: usize = 0;
            assert(all.skip(0) =~= all);
            let n = rest.len();
            while rest.len() > 0
                invariant
                    j <= all.len(),
                    all.len() == n,
                    expires@.len() == all.len(),
                    rest@ == all.skip(j as int),
                    active@ == unexpired(all.take(j as int), expires@.take(j as int), now),
                    present == has_rule(active@, field, key@),
                decreases rest.len(),
            {
                let e = rest.remove(0);
                assert(all[j as int] == e);
                proof {
                    assert(all.take(j + 1).drop_last() =~= all.take(j as int));
                    assert(expires@.take(j + 1).drop_last() =~= expires@.take(j as int));
                    assert(all.take(j + 1).last() == e);
                    assert(expires@.take(j + 1).last() == expires@[j as int]);
                    assert(rest@ =~= all.skip(j + 1));
                }
                let expired = match expires[j] {
                    Some(at) => at <= now,
                    None => false,
                };
                if !expired {
                    let k = entry_key(field, &e);
                    let same = match &k {
                        Some(k) => str_equal(k.as_str(), key),
                        None => false,
                    };
                    let ghost before = active@;
                    active.push(e);
                    proof {
                        if same {
                            assert(active@[before.len() as int] == e);
                        }
                        if has_rule(before, field, key@) {
                            let i = choose|i: int| 0 <= i < before.len() && entry_key_spec(field, #[trigger] before[i]) == Some(key@);
                            assert(active@[i] == before[i]);
                        }
                        if has_rule(active@, field, key@) && !same {
                            let i = choose|i: int| 0 <= i < active@.len() && entry_key_spec(field, #[trigger] active@[i]) == Some(key@);
                            assert(i < before.len());
                            assert(before[i] == active@[i]);
                        }
                    }
                    present = present || same;
                }
                j = j + 1;
            }
            assert(all.take(j as int) =~= all);
            assert(expires@.take(j as int) =~= expires@);
            if present {
                (active, false)
            } else {
                active.push(new_entry);
                (active, true)
            }
        },
        BlacklistAction::Remove => {
            let mut rest = current;
            let mut kept: Vec<JsonValue> = Vec::new();
            let mut j: usize = 0;
            assert(all.skip(0) =~= all);
            let n = rest.len();
            while rest.len() > 0
                invariant
                    j <= all.len(),
                    all.len() == n,
                    rest@ == all.skip(j as int),
                    kept@ == without_rule(all.take(j as int), field, key@),
                decreases rest.len(),
            {
                let e = rest.remove(0);
                assert(all[j as int] == e);
                proof {
                    assert(all.take(j + 1).drop_last() =~= all.take(j as int));
                    assert(all.take(j + 1).last() == e);
                    assert(rest@ =~= all.skip(j + 1));
                }
                let k = entry_key(field, &e);
                let same = match &k {
                    Some(k) => str_equal(k.as_str(), key),
                    None => false,
                };
                if !same {
                    kept.push(e);
                }
                j = j + 1;
            }
            assert(all.take(j as int) =~= all);
            let changed = kept.len() != n;
            (kept, changed)
        },
    }
}

/// The summary reported for an update.
pub open spec fn summary_text(
    action: BlacklistAction,
    scope: BlacklistScope,
    field: BlacklistField,
    display: Seq<char>,
    expiry: Option<Seq<char>>,
    changed: bool,
) -> Seq<char> {
    let status = if changed {
        match action {
            BlacklistAction::Add => "Added"@,
            BlacklistAction::Remove => "Removed"@,
            BlacklistAction::List => "Listed"@,
        }
    } else {
        "Already up to date"@
    };
    let until = match expiry {
        Some(t) => " until "@ + t,
        None => Seq::<char>::empty(),
    };
    status + ": "@ + section_key(scope) + "."@ + field_key(field) + " "@ + display + until
}

/// The summary of an update: what happened, the list, the value shown to
/// the operator and, for an expiring value, `expiry` (the expiry already
/// formatted as a timestamp).
pub fn update_summary(
    action: BlacklistAction,
    scope: BlacklistScope,
    field: BlacklistField,
    value: &RuleValue,
    expiry: Option<&str>,
    changed: bool,
) -> (r: String)
    ensures
        r@ == summary_text(
            action,
            scope,
            field,
            rule_value_display(*value),
            match expiry {
                Some(t) => Some(t@),
                None => None,
            },
            changed,
        ),
{
    let status: &str = if changed {
        match action {
            BlacklistAction::Add => "Added",
            BlacklistAction::Remove => "Removed",
            BlacklistAction::List => "Listed",
        }
    } else {
        "Already up to date"
    };
    let mut out = chars_of(status);
    out = concat_chars(&out, &chars_of(": "));
    out = concat_chars(&out, &chars_of(crate::blacklist_rules::section_name(scope)));
    out = concat_chars(&out, &chars_of("."));
    out = concat_chars(&out, &chars_of(crate::blacklist_rules::field_name(field)));
    out = concat_chars(&out, &chars_of(" "));
    let shown = value.display();
    out = concat_chars(&out, &chars_of(shown.as_str()));
    match expiry {
        Some(t) => {
            let until = concat_chars(&chars_of(" until "), &chars_of(t));
            out = concat_chars(&out, &until);
        },
        None => {
            assert(out@ + Seq::<char>::empty() =~= out@);
        },
    }
    string_of(&out)
}

/// After adding a value, the list holds an entry with its key, provided
/// the stored entry has that key.
pub proof fn lemma_add_keeps_rule(
    field: BlacklistField,
    key: Seq<char>,
    new_entry: JsonValue,
    current: Seq<JsonValue>,
    expires: Seq<Option<u64>>,
    now: u64,
)
    requires
        entry_key_spec(field, new_entry) == Some(key),
    ensures
        has_rule(updated_list(BlacklistAction::Add, field, key, new_entry, current, expires, now).0, field, key),
{
    let active = unexpired(current, expires, now);
    if !has_rule(active, field, key) {
        assert(active.push(new_entry)[active.len() as int] == new_entry);
    }
}

/// After removing a value, no entry with its key is left.
pub proof fn lemma_remove_drops_rule(
    field: BlacklistField,
    key: Seq<char>,
    new_entry: JsonValue,
    current: Seq<JsonValue>,
    expires: Seq<Option<u64>>,
    now: u64,
)
    ensures
        !has_rule(updated_list(BlacklistAction::Remove, field, key, new_entry, current, expires, now).0, field, key),
{
    lemma_without_rule_has_none(current, field, key);
}

proof fn lemma_without_rule_has_none(es: Seq<JsonValue>, field: BlacklistField, key: Seq<char>)
    ensures
        !has_rule(without_rule(es, field, key), field, key),
    decreases es.len(),
{
    if es.len() > 0 {
        lemma_without_rule_has_none(es.drop_last(), field, key);
        let rest = without_rule(es.drop_last(), field, key);
        if entry_key_spec(field, es.last()) != Some(key) {
            assert forall|i: int| 0 <= i < rest.push(es.last()).len() implies entry_key_spec(
                field,
                #[trigger] rest.push(es.last())[i],
            ) != Some(key) by {
                if i < rest.len() {
                    assert(rest.push(es.last())[i] == rest[i]);
                }
            }
        }
    }
}

/// Adding a value that an unexpired entry already has changes nothing but
/// the dropping of expired entries, and reports no change.
pub proof fn lemma_add_present_is_unchanged(
    field: BlacklistField,
    key: Seq<char>,
    new_entry: JsonValue,
    current: Seq<JsonValue>,
    expires: Seq<Option<u64>>,
    now: u64,
)
    requires
        has_rule(unexpired(current, expires, now), field, key),
    ensures
        updated_list(BlacklistAction::Add, field, key, new_entry, current, expires, now) == (
            unexpired(current, expires, now),
            false,
        ),
{
}

/// No entry of `es` expires at `now`.
pub open spec fn none_expired(expires: Seq<Option<u64>>, now: u64) -> bool {
    forall|i: int| 0 <= i < expires.len() ==> !(#[trigger] expires[i] matches Some(at) && at <= now)
}

pub proof fn lemma_unexpired_keeps_all(es: Seq<JsonValue>, expires: Seq<Option<u64>>, now: u64)
    requires
        expires.len() == es.len(),
        none_expired(expires, now),
    ensures
        unexpired(es, expires, now) == es,
    decreases es.len(),
{
    if es.len() > 0 {
        assert forall|i: int| 0 <= i < expires.drop_last().len() implies !(#[trigger] expires.drop_last()[i] matches Some(
            at,
        ) && at <= now) by {
            assert(expires.drop_last()[i] == expires[i]);
        }
        lemma_unexpired_keeps_all(es.drop_last(), expires.drop_last(), now);
        assert(!(expires[expires.len() - 1] matches Some(at) && at <= now));
        assert(es.drop_last().push(es.last()) =~= es);
    }
}

proof fn lemma_without_absent_rule(es: Seq<JsonValue>, field: BlacklistField, key: Seq<char>)
    requires
        !has_rule(es, field, key),
    ensures
        without_rule(es, field, key) == es,
    decreases es.len(),
{
    if es.len() > 0 {
        assert(!has_rule(es.drop_last(), field, key)) by {
            if has_rule(es.drop_last(), field, key) {
                let i = choose|i: int| 0 <= i < es.drop_last().len() && entry_key_spec(field, #[trigger] es.drop_last()[i]) == Some(key);
                assert(es[i] == es.drop_last()[i]);
            }
        }
        lemma_without_absent_rule(es.drop_last(), field, key);
        assert(entry_key_spec(field, es[es.len() - 1]) != Some(key));
        assert(es.drop_last().push(es.last()) =~= es);
    }
}

/// Removing a value that no entry has changes nothing and reports no
/// change.
pub proof fn lemma_remove_absent_is_unchanged(
    field: BlacklistField,
    key: Seq<char>,
    new_entry: JsonValue,
    current: Seq<JsonValue>,
    expires: Seq<Option<u64>>,
    now: u64,
)
    requires
        !has_rule(current, field, key),
    ensures
        updated_list(BlacklistAction::Remove, field, key, new_entry, current, expires, now) == (current, false),
{
    lemma_without_absent_rule(current, field, key);
}

/// Repeating an update is a no-op.  After an Add of a value whose stored
/// entry has its key, the same Add again, with no entry expired in
/// between, leaves the list as it is and reports no change, so the
/// summary says `Already up to date`.  After a Remove, the same Remove
/// again leaves the list as it is and reports no change.
pub proof fn lemma_repeated_update_is_unchanged(
    action: BlacklistAction,
    scope: BlacklistScope,
    field: BlacklistField,
    key: Seq<char>,
    new_entry: JsonValue,
    current: Seq<JsonValue>,
    expires: Seq<Option<u64>>,
    now: u64,
    later_expires: Seq<Option<u64>>,
    later: u64,
    display: Seq<char>,
    expiry: Option<Seq<char>>,
)
    requires
        action == BlacklistAction::Add || action == BlacklistAction::Remove,
        entry_key_spec(field, new_entry) == Some(key),
        later_expires.len() == updated_list(action, field, key, new_entry, current, expires, now).0.len(),
        none_expired(later_expires, later),
    ensures
        ({
            let first = updated_list(action, field, key, new_entry, current, expires, now).0;
            let second = updated_list(action, field, key, new_entry, first, later_expires, later);
            &&& second == (first, false)
            &&& summary_text(action, scope, field, display, expiry, second.1) == "Already up to date"@ + ": "@
                + section_key(scope) + "."@ + field_key(field) + " "@ + display + match expiry {
                Some(t) => " until "@ + t,
                None => Seq::<char>::empty(),
            }
        }),
{
    let first = updated_list(action, field, key, new_entry, current, expires, now).0;
    if action == BlacklistAction::Add {
        lemma_add_keeps_rule(field, key, new_entry, current, expires, now);
        lemma_unexpired_keeps_all(first, later_expires, later);
        lemma_add_present_is_unchanged(field, key, new_entry, first, later_expires, later);
    } else {
        lemma_remove_drops_rule(field, key, new_entry, current, expires, now);
        lemma_remove_absent_is_unchanged(field, key, new_entry, first, later_expires, later);
    }
}

/// A character a name key is made of: a lower-case ASCII letter, a digit or
/// a space.
pub open spec fn name_key_char(c: char) -> bool {
    ('a' <= c <= 'z') || ('0' <= c <= '9') || c == ' '
}

pub open spec fn all_name_key_chars(s: Seq<char>) -> bool {
    forall|i: int| 0 <= i < s.len() ==> name_key_char(#[trigger] s[i])
}

proof fn lemma_words_keep_chars(s: Seq<char>)
    requires
        all_name_key_chars(s),
    ensures
        forall|k: int| 0 <= k < words(s).len() ==> all_name_key_chars(#[trigger] words(s)[k]),
    decreases s.len(),
{
    let t = trim_start(s);
    crate::text::lemma_trim_start_len(s);
    if t.len() > 0 {
        crate::text::lemma_word_len(t);
        assert forall|i: int| 0 <= i < t.len() implies name_key_char(#[trigger] t[i]) by {
            assert(t[i] == s[s.len() - t.len() + i]);
        }
        let w = t.take(word_len(t) as int);
        let rest = t.skip(word_len(t) as int);
        assert forall|i: int| 0 <= i < rest.len() implies name_key_char(#[trigger] rest[i]) by {
            assert(rest[i] == t[word_len(t) + i]);
        }
        lemma_words_keep_chars(rest);
        assert(words(s) == seq![w] + words(rest));
        assert forall|k: int| 0 <= k < words(s).len() implies all_name_key_chars(#[trigger] words(s)[k]) by {
            if k == 0 {
                assert(words(s)[0] == w);
                assert forall|i: int| 0 <= i < w.len() implies name_key_char(#[trigger] w[i]) by {
                    assert(w[i] == t[i]);
                }
            } else {
                assert(words(s)[k] == words(rest)[k - 1]);
            }
        }
    }
}

proof fn lemma_join_keeps_chars(ws: Seq<Seq<char>>)
    requires
        forall|k: int| 0 <= k < ws.len() ==> all_name_key_chars(#[trigger] ws[k]),
    ensures
        all_name_key_chars(join(ws, seq![' '])),
    decreases ws.len(),
{
    if ws.len() == 1 {
        assert(all_name_key_chars(ws[0]));
    } else if ws.len() > 1 {
        assert forall|k: int| 0 <= k < ws.drop_last().len() implies all_name_key_chars(#[trigger] ws.drop_last()[k]) by {
            assert(ws.drop_last()[k] == ws[k]);
        }
        lemma_join_keeps_chars(ws.drop_last());
        let a = join(ws.drop_last(), seq![' ']);
        let l = ws.last();
        assert(all_name_key_chars(ws[ws.len() - 1]));
        assert forall|i: int| 0 <= i < (a + seq![' '] + l).len() implies name_key_char(#[trigger] (a + seq![' '] + l)[i]) by {
            if i < a.len() {
                assert((a + seq![' '] + l)[i] == a[i]);
            } else if i == a.len() {
            } else {
                assert((a + seq![' '] + l)[i] == l[i - a.len() - 1]);
            }
        }
    }
}

proof fn lemma_name_char_kind(c: char)
    ensures
        name_key_char(name_char(c)),
{
    if is_ascii_alnum(c) && 'A' <= c <= 'Z' {
        assert(((c as u32) + 32) as char == ascii_lower(c));
        assert((c as u32) + 32 >= 97 && (c as u32) + 32 <= 122);
    }
}

/// Every item name key is made of lower-case letters, digits and single
/// spaces between words: case, colour codes and punctuation never reach the
/// key.
pub proof fn lemma_name_key_is_lowercase_words(value: Seq<char>)
    ensures
        all_name_key_chars(scalar_key(BlacklistField::Name, value)),
        !scalar_key(BlacklistField::Name, value).contains('\u{a7}'),
{
    let m = remove_all(strip_colors(value), "-us"@).filter(|c: char| c != '!' && c != '.').map_values(
        |c: char| name_char(c),
    );
    assert forall|i: int| 0 <= i < m.len() implies name_key_char(#[trigger] m[i]) by {
        lemma_name_char_kind(remove_all(strip_colors(value), "-us"@).filter(|c: char| c != '!' && c != '.')[i]);
    }
    lemma_words_keep_chars(m);
    lemma_join_keeps_chars(words(m));
    let k = scalar_key(BlacklistField::Name, value);
    if k.contains('\u{a7}') {
        let i = choose|i: int| 0 <= i < k.len() && k[i] == '\u{a7}';
        assert(name_key_char(k[i]));
    }
}

proof fn lemma_lower_char(c: char)
    ensures
        ascii_lower(c) == '\u{a7}' <==> c == '\u{a7}',
        ascii_lower(c) == '-' <==> c == '-',
        ascii_lower(c) == '!' <==> c == '!',
        ascii_lower(c) == '.' <==> c == '.',
        name_char(ascii_lower(c)) == name_char(c),
{
    if 'A' <= c <= 'Z' {
        assert((c as u32) + 32 >= 97 && (c as u32) + 32 <= 122);
        assert(ascii_lower(c) == ((c as u32) + 32) as char);
        assert('a' <= ascii_lower(c) <= 'z');
        assert(ascii_lower(ascii_lower(c)) == ascii_lower(c));
    }
}

proof fn lemma_strip_lower(v: Seq<char>)
    ensures
        strip_colors(lower_seq(v)) == lower_seq(strip_colors(v)),
    decreases v.len(),
{
    if v.len() > 0 {
        lemma_lower_char(v[0]);
        assert(lower_seq(v)[0] == ascii_lower(v[0]));
        if v[0] == '\u{a7}' {
            if v.len() >= 2 {
                assert(lower_seq(v).skip(2) =~= lower_seq(v.skip(2)));
                lemma_strip_lower(v.skip(2));
            } else {
                assert(lower_seq(Seq::<char>::empty()) =~= Seq::<char>::empty());
            }
        } else {
            assert(lower_seq(v).drop_first() =~= lower_seq(v.drop_first()));
            lemma_strip_lower(v.drop_first());
            assert(lower_seq(seq![v[0]] + strip_colors(v.drop_first())) =~= seq![ascii_lower(v[0])] + lower_seq(
                strip_colors(v.drop_first()),
            ));
        }
    } else {
        assert(lower_seq(v) =~= v);
    }
}

proof fn lemma_strip_keeps_no_dash(v: Seq<char>)
    requires
        !v.contains('-'),
    ensures
        !strip_colors(v).contains('-'),
    decreases v.len(),
{
    if v.len() > 0 {
        if v[0] == '\u{a7}' {
            if v.len() >= 2 {
                assert forall|i: int| 0 <= i < v.skip(2).len() implies v.skip(2)[i] != '-' by {
                    assert(v.skip(2)[i] == v[i + 2]);
                }
                lemma_strip_keeps_no_dash(v.skip(2));
            }
        } else {
            assert forall|i: int| 0 <= i < v.drop_first().len() implies v.drop_first()[i] != '-' by {
                assert(v.drop_first()[i] == v[i + 1]);
            }
            lemma_strip_keeps_no_dash(v.drop_first());
            let r = seq![v[0]] + strip_colors(v.drop_first());
            if r.contains('-') {
                let i = choose|i: int| 0 <= i < r.len() && r[i] == '-';
                if i > 0 {
                    assert(r[i] == strip_colors(v.drop_first())[i - 1]);
                } else {
                    assert(v[0] == '-');
                }
            }
        }
    }
}

proof fn lemma_remove_us_without_dash(x: Seq<char>)
    requires
        !x.contains('-'),
    ensures
        remove_all(x, "-us"@) == x,
    decreases x.len(),
{
    reveal_strlit("-us");
    if x.len() > 0 {
        assert(x[0] != '-');
        assert(!crate::text::starts_with(x, "-us"@)) by {
            if x.len() >= 3 {
                assert(x.subrange(0, 3)[0] == x[0]);
            }
        }
        assert forall|i: int| 0 <= i < x.drop_first().len() implies x.drop_first()[i] != '-' by {
            assert(x.drop_first()[i] == x[i + 1]);
        }
        lemma_remove_us_without_dash(x.drop_first());
        assert(seq![x[0]] + x.drop_first() =~= x);
    }
}

proof fn lemma_name_body_ignores_case(y: Seq<char>)
    ensures
        lower_seq(y).filter(|c: char| c != '!' && c != '.').map_values(|c: char| name_char(c))
            == y.filter(|c: char| c != '!' && c != '.').map_values(|c: char| name_char(c)),
    decreases y.len(),
{
    reveal_with_fuel(Seq::<_>::filter, 1);
    if y.len() > 0 {
        let c = y.last();
        lemma_lower_char(c);
        assert(lower_seq(y).drop_last() =~= lower_seq(y.drop_last()));
        assert(lower_seq(y).last() == ascii_lower(c));
        lemma_name_body_ignores_case(y.drop_last());
        let pa = lower_seq(y.drop_last()).filter(|c: char| c != '!' && c != '.');
        let pb = y.drop_last().filter(|c: char| c != '!' && c != '.');
        if c != '!' && c != '.' {
            assert(pa.push(ascii_lower(c)).map_values(|c: char| name_char(c)) =~= pa.map_values(
                |c: char| name_char(c),
            ).push(name_char(c)));
            assert(pb.push(c).map_values(|c: char| name_char(c)) =~= pb.map_values(|c: char| name_char(c)).push(
                name_char(c),
            ));
        }
    } else {
        assert(lower_seq(y) =~= y);
    }
}

/// Item names are compared without regard to letter case: for a name
/// without hyphens (so that no `-us` suffix is at stake), the key is the
/// same whatever the case of its letters, so `Heroic Hyperion` and
/// `heroic hyperion` name the same rule.
pub proof fn lemma_name_key_ignores_case(value: Seq<char>)
    requires
        !value.contains('-'),
    ensures
        scalar_key(BlacklistField::Name, lower_seq(value)) == scalar_key(BlacklistField::Name, value),
{
    lemma_strip_lower(value);
    lemma_strip_keeps_no_dash(value);
    let st = strip_colors(value);
    assert(!lower_seq(st).contains('-')) by {
        if lower_seq(st).contains('-') {
            let i = choose|i: int| 0 <= i < lower_seq(st).len() && lower_seq(st)[i] == '-';
            lemma_lower_char(st[i]);
        }
    }
    lemma_remove_us_without_dash(st);
    lemma_remove_us_without_dash(lower_seq(st));
    lemma_name_body_ignores_case(st);
}

} // verus!
