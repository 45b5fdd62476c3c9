use saf_app::blacklist_rules::{
    enchant_key, field_name, normalize_enchant_id, normalize_name, normalize_tag,
    parse_enchant_level, parse_enchant_spec, roman_to_number, section_name, strip_color_codes,
    BlacklistField, BlacklistScope, Enchantment,
};
use saf_app::blacklist_store::{
    apply_blacklist_update, patch_config_entries, render_json_pretty, BlacklistUpdateError,
    BlacklistUpdateInput,
};
use saf_app::blacklist_update::{
    entry_expiry, entry_key, normalize_update_value, parse_item_enchant_rule,
    plan_blacklist_update, update_summary, BlacklistAction, BlacklistValueError, EntryExpiry,
    RuleValue,
};
use saf_app::config_document::{
    config_array_or_effective, config_field_present, config_text_is_blank, set_config_array,
    snapshot_config_values, snapshot_entry, snapshot_item_enchantment, snapshot_item_enchantments,
    ConfigDocError, ItemEnchantmentEntry,
};
use saf_app::config_patch::{find_json5_array_range, find_json5_object_range, patch_config_array};
use saf_app::json_value::{JsonNumber, JsonValue};
use serde_json::Value;

fn chars(s: &str) -> Vec<char> {
    s.chars().collect()
}

fn text(v: Vec<char>) -> String {
    v.into_iter().collect()
}

fn jstr(s: &str) -> JsonValue {
    JsonValue::String(s.to_string())
}

fn obj(entries: Vec<(&str, JsonValue)>) -> JsonValue {
    JsonValue::Object(entries.into_iter().map(|(k, v)| (k.to_string(), v)).collect())
}

fn as_str(v: &JsonValue) -> Option<&str> {
    match v {
        JsonValue::String(s) => Some(s.as_str()),
        _ => None,
    }
}

fn get<'a>(v: &'a JsonValue, key: &str) -> Option<&'a JsonValue> {
    match v {
        JsonValue::Object(es) => es.iter().find(|(k, _)| k == key).map(|(_, v)| v),
        _ => None,
    }
}

#[test]
fn patch_config_array_preserves_surrounding_json5() {
    let raw = r#"{
      doNotBuy: {
        // Tags stay documented
        tags: ["OLD"],
        names: []
      }
    }"#;
    let rendered =
        serde_json::to_string_pretty(&Value::Array(vec![Value::String("NEW".to_string())]))
            .unwrap();

    let patched = patch_config_array(raw, "doNotBuy", "tags", &rendered).unwrap();

    assert!(patched.contains("// Tags stay documented"));
    assert!(patched.contains("\"NEW\""));
    assert!(!patched.contains("\"OLD\""));
}

#[test]
fn patch_config_array_needs_the_named_list() {
    let raw = r#"{ doNotBuy: { names: [] } }"#;
    assert!(patch_config_array(raw, "doNotBuy", "tags", "[]").is_none());
    assert!(patch_config_array(raw, "doNotRelist", "names", "[]").is_none());
}

#[test]
fn section_and_field_names_follow_the_config_keys() {
    assert_eq!(section_name(BlacklistScope::Buy), "doNotBuy");
    assert_eq!(section_name(BlacklistScope::Relist), "doNotRelist");
    assert_eq!(field_name(BlacklistField::Tag), "tags");
    assert_eq!(field_name(BlacklistField::ItemEnchant), "itemEnchantments");
}

#[test]
fn values_are_normalised_like_the_policy_compares_them() {
    assert_eq!(normalize_tag("  speed_relic "), "SPEED_RELIC");
    assert_eq!(text(strip_color_codes(&chars("§6Hyperion§r"))), "Hyperion");
    assert_eq!(
        text(normalize_name(&chars("§dHeroic  Hyperion! -us"))),
        "heroic hyperion"
    );
    assert_eq!(text(normalize_enchant_id(&chars(" ultimate wise "))), "WISE");
    assert_eq!(text(normalize_enchant_id(&chars("The One"))), "THE_ONE");
}

#[test]
fn enchantment_levels_accept_numbers_and_roman_numerals() {
    assert_eq!(parse_enchant_level(&chars(" 5 ")), Some(5));
    assert_eq!(parse_enchant_level(&chars("iv")), Some(4));
    assert_eq!(roman_to_number(&chars("XIV")), Some(14));
    assert_eq!(roman_to_number(&chars("MCMXCIV")), Some(1994));
    assert_eq!(roman_to_number(&chars("ABC")), None);
    assert_eq!(roman_to_number(&chars("")), None);
    assert_eq!(parse_enchant_level(&chars("five")), None);
}

#[test]
fn enchantment_specs_split_off_a_trailing_level() {
    let e = parse_enchant_spec(&chars("The One:5")).unwrap();
    assert_eq!(e, Enchantment { id: "THE_ONE".to_string(), level: Some(5) });
    assert_eq!(text(enchant_key(&e)), "THE_ONE:5");
    let e = parse_enchant_spec(&chars("Ultimate Wise V")).unwrap();
    assert_eq!(text(enchant_key(&e)), "WISE:5");
    let e = parse_enchant_spec(&chars("sharpness")).unwrap();
    assert_eq!(e.level, None);
    assert!(parse_enchant_spec(&chars("   ")).is_none());
}

#[test]
fn item_enchant_rules_parse_from_text_and_objects() {
    let rule = parse_item_enchant_rule(&jstr("speed_relic the_one:5")).unwrap();
    assert_eq!(rule.key(), "tag:SPEED_RELIC|THE_ONE:5");
    assert_eq!(rule.display(), "SPEED_RELIC THE_ONE:5");

    let rule = parse_item_enchant_rule(&obj(vec![
        ("itemName", jstr("Lava Shell Necklace")),
        ("enchant", jstr("the one")),
        ("level", JsonValue::Number(JsonNumber::PosInt(4))),
    ]))
    .unwrap();
    assert_eq!(rule.key(), "name:lava shell necklace|THE_ONE:4");
    assert_eq!(rule.display(), "Lava Shell Necklace THE_ONE:4");

    let rule = parse_item_enchant_rule(&obj(vec![("enchantment", jstr("THE_ONE"))])).unwrap();
    assert_eq!(rule.key(), "item:*|THE_ONE");

    assert!(parse_item_enchant_rule(&jstr("SPEED_RELIC")).is_none());
    assert!(parse_item_enchant_rule(&obj(vec![("tag", jstr("X"))])).is_none());
}

#[test]
fn update_values_are_normalised_or_refused() {
    match normalize_update_value(BlacklistField::Tag, " speed_relic ").unwrap() {
        RuleValue::Scalar(s) => assert_eq!(s, "SPEED_RELIC"),
        _ => panic!("expected a scalar"),
    }
    match normalize_update_value(BlacklistField::Name, "  Hyperion ").unwrap() {
        RuleValue::Scalar(s) => assert_eq!(s, "Hyperion"),
        _ => panic!("expected a scalar"),
    }
    match normalize_update_value(BlacklistField::Enchant, "the one 5").unwrap() {
        RuleValue::Scalar(s) => assert_eq!(s, "THE_ONE:5"),
        _ => panic!("expected a scalar"),
    }
    let err = normalize_update_value(BlacklistField::Enchant, " ").unwrap_err();
    assert_eq!(err, BlacklistValueError::MissingEnchantment);
    assert_eq!(err.message(), "missing blacklist enchantment");
    let err = normalize_update_value(BlacklistField::ItemEnchant, "ONLY_A_TAG").unwrap_err();
    assert_eq!(err, BlacklistValueError::MissingItemEnchantRule);
    assert_eq!(err.message(), "missing item/enchantment rule");
}

#[test]
fn stored_entries_carry_their_expiry() {
    let value = normalize_update_value(BlacklistField::Tag, "speed_relic").unwrap();
    let plain = value.to_entry(None);
    assert_eq!(as_str(&plain), Some("SPEED_RELIC"));
    let timed = value.to_entry(Some("2030-01-01T00:00:00Z".to_string()));
    assert_eq!(get(&timed, "value").and_then(as_str), Some("SPEED_RELIC"));
    assert_eq!(get(&timed, "expiresAt").and_then(as_str), Some("2030-01-01T00:00:00Z"));

    let rule = normalize_update_value(BlacklistField::ItemEnchant, "SPEED_RELIC THE_ONE:5").unwrap();
    let stored = rule.to_entry(None);
    assert_eq!(get(&stored, "tag").and_then(as_str), Some("SPEED_RELIC"));
    assert_eq!(get(&stored, "enchantment").and_then(as_str), Some("THE_ONE"));
    assert!(matches!(get(&stored, "level"), Some(JsonValue::Number(JsonNumber::PosInt(5)))));
}

#[test]
fn entry_keys_look_through_wrappers_and_bookkeeping() {
    assert_eq!(entry_key(BlacklistField::Tag, &jstr(" speed_relic ")), Some("SPEED_RELIC".to_string()));
    let wrapped = obj(vec![("value", jstr("speed_relic")), ("expiresAt", jstr("soon"))]);
    assert_eq!(entry_key(BlacklistField::Tag, &wrapped), Some("SPEED_RELIC".to_string()));
    let rule = obj(vec![("tag", jstr("speed_relic")), ("enchantment", jstr("the_one")), ("createdAt", jstr("x"))]);
    assert_eq!(entry_key(BlacklistField::ItemEnchant, &rule), Some("tag:SPEED_RELIC|THE_ONE".to_string()));
    assert_eq!(entry_key(BlacklistField::Tag, &JsonValue::Bool(true)), None);
    assert_eq!(
        entry_key(BlacklistField::Enchant, &JsonValue::Number(JsonNumber::PosInt(7))),
        Some("7".to_string())
    );
}

#[test]
fn entry_expiry_reads_the_first_expiry_key() {
    assert!(matches!(
        entry_expiry(&obj(vec![("value", jstr("A")), ("expiresAt", JsonValue::Number(JsonNumber::PosInt(42)))])),
        EntryExpiry::At(42)
    ));
    match entry_expiry(&obj(vec![("until", jstr("2030-01-01"))])) {
        EntryExpiry::Text(t) => assert_eq!(t, "2030-01-01"),
        _ => panic!("expected text"),
    }
    assert!(matches!(entry_expiry(&jstr("A")), EntryExpiry::Missing));
    assert!(matches!(
        entry_expiry(&obj(vec![("expires", JsonValue::Bool(true)), ("until", JsonValue::Number(JsonNumber::PosInt(1)))])),
        EntryExpiry::Missing
    ));
}

#[test]
fn adding_a_value_appends_it_once_and_drops_expired_entries() {
    let current = vec![jstr("GIANTS_SWORD"), obj(vec![("value", jstr("OLD")), ("expiresAt", JsonValue::Number(JsonNumber::PosInt(10)))])];
    let expires = vec![None, Some(10)];
    let (next, changed) = plan_blacklist_update(
        BlacklistAction::Add,
        BlacklistField::Tag,
        "SPEED_RELIC",
        jstr("SPEED_RELIC"),
        current,
        &expires,
        20,
    );
    assert!(changed);
    assert_eq!(next.len(), 2);
    assert_eq!(as_str(&next[0]), Some("GIANTS_SWORD"));
    assert_eq!(as_str(&next[1]), Some("SPEED_RELIC"));

    let expires = vec![None, None];
    let (again, changed) = plan_blacklist_update(
        BlacklistAction::Add,
        BlacklistField::Tag,
        "SPEED_RELIC",
        jstr("SPEED_RELIC"),
        next,
        &expires,
        20,
    );
    assert!(!changed);
    assert_eq!(again.len(), 2);
}

#[test]
fn removing_a_value_drops_every_entry_with_its_key() {
    let current = vec![jstr("speed_relic"), jstr("GIANTS_SWORD"), obj(vec![("value", jstr("SPEED_RELIC"))])];
    let expires = vec![None, None, None];
    let (next, changed) = plan_blacklist_update(
        BlacklistAction::Remove,
        BlacklistField::Tag,
        "SPEED_RELIC",
        jstr("unused"),
        current,
        &expires,
        0,
    );
    assert!(changed);
    assert_eq!(next.len(), 1);
    assert_eq!(as_str(&next[0]), Some("GIANTS_SWORD"));

    let expires = vec![None];
    let (same, changed) = plan_blacklist_update(
        BlacklistAction::Remove,
        BlacklistField::Tag,
        "SPEED_RELIC",
        jstr("unused"),
        next,
        &expires,
        0,
    );
    assert!(!changed);
    assert_eq!(same.len(), 1);
}

#[test]
fn listing_changes_nothing() {
    let (next, changed) = plan_blacklist_update(
        BlacklistAction::List,
        BlacklistField::Name,
        "x",
        jstr("x"),
        vec![jstr("a")],
        &vec![Some(0)],
        100,
    );
    assert!(!changed);
    assert_eq!(next.len(), 1);
}

#[test]
fn update_summaries_name_the_list_and_the_value() {
    let value = normalize_update_value(BlacklistField::Tag, "speed_relic").unwrap();
    assert_eq!(
        update_summary(BlacklistAction::Add, BlacklistScope::Buy, BlacklistField::Tag, &value, None, true),
        "Added: doNotBuy.tags SPEED_RELIC"
    );
    assert_eq!(
        update_summary(BlacklistAction::Remove, BlacklistScope::Relist, BlacklistField::Tag, &value, Some("2030"), false),
        "Already up to date: doNotRelist.tags SPEED_RELIC until 2030"
    );
}

#[test]
fn rule_lists_are_read_from_the_config_or_the_defaults() {
    let mut root = obj(vec![("doNotBuy", obj(vec![("tags", JsonValue::Array(vec![jstr("A"), jstr("B")]))]))]);
    assert!(config_field_present(&root, "doNotBuy", "tags"));
    assert!(!config_field_present(&root, "doNotBuy", "names"));
    let taken = config_array_or_effective(&mut root, "doNotBuy", "tags", vec![jstr("DEFAULT")]);
    assert_eq!(taken.len(), 2);
    let defaults = config_array_or_effective(&mut root, "doNotRelist", "tags", vec![jstr("DEFAULT")]);
    assert_eq!(defaults.len(), 1);
    assert_eq!(as_str(&defaults[0]), Some("DEFAULT"));
}

#[test]
fn rule_lists_are_stored_back_into_the_config() {
    let mut root = obj(vec![("igns", JsonValue::Array(vec![jstr("Main")]))]);
    set_config_array(&mut root, "doNotBuy", "tags", vec![jstr("NEW")]).unwrap();
    let tags = get(&root, "doNotBuy").and_then(|s| get(s, "tags")).unwrap();
    match tags {
        JsonValue::Array(v) => assert_eq!(v.len(), 1),
        _ => panic!("expected a list"),
    }
    assert!(get(&root, "igns").is_some());

    let mut bad = obj(vec![("doNotBuy", JsonValue::Bool(false))]);
    let err = set_config_array(&mut bad, "doNotBuy", "tags", vec![]).unwrap_err();
    assert_eq!(err, ConfigDocError::SectionNotObject);
    assert_eq!(err.message("doNotBuy"), "doNotBuy is not an object");
    let mut not_object = JsonValue::Null;
    assert_eq!(
        set_config_array(&mut not_object, "doNotBuy", "tags", vec![]).unwrap_err(),
        ConfigDocError::RootNotObject
    );
    assert!(config_text_is_blank("  \n "));
    assert!(!config_text_is_blank("{}"));
}

#[test]
fn listings_show_values_with_their_expiry() {
    let shown = snapshot_entry(obj(vec![("value", jstr("A")), ("expiresAt", JsonValue::Number(JsonNumber::PosInt(5)))]), Some("T".to_string()));
    assert_eq!(get(&shown, "value").and_then(as_str), Some("A"));
    assert_eq!(get(&shown, "expiresAt").and_then(as_str), Some("T"));
    let plain = snapshot_entry(jstr("B"), None);
    assert_eq!(as_str(&plain), Some("B"));
    let rule = snapshot_entry(obj(vec![("tag", jstr("X")), ("createdAt", jstr("c"))]), None);
    assert!(get(&rule, "createdAt").is_none());
    assert_eq!(get(&rule, "tag").and_then(as_str), Some("X"));

    let values = vec![jstr("KEEP"), jstr("GONE")];
    let shown = snapshot_config_values(values, &vec![None, Some(1)], vec![None, None], 5);
    assert_eq!(shown.len(), 1);
    assert_eq!(as_str(&shown[0]), Some("KEEP"));
}

#[test]
fn item_enchantment_listing_shows_set_fields_and_drops_expired_rules() {
    let entry = ItemEnchantmentEntry {
        tag: Some("HYPERION".to_string()),
        name: None,
        enchantment: "ultimate_wise".to_string(),
        level: Some(5),
        expires_at: Some(2_000),
    };
    let shown = snapshot_item_enchantment(entry.clone(), Some("1970-01-01 00:00:02".to_string()));
    let JsonValue::Object(fields) = shown else {
        panic!("expected an object");
    };
    let keys: Vec<&str> = fields.iter().map(|(k, _)| k.as_str()).collect();
    assert_eq!(keys, vec!["tag", "enchantment", "level", "expiresAt"]);
    assert!(matches!(&fields[2].1, JsonValue::Number(JsonNumber::PosInt(5))));
    let listed = snapshot_item_enchantments(
        vec![entry.clone(), ItemEnchantmentEntry { expires_at: None, ..entry }],
        vec![Some("t".to_string()), None],
        2_000,
    );
    assert_eq!(listed.len(), 1);
}

#[test]
fn object_range_spans_the_braces_of_the_keyed_object() {
    let raw = chars("{\"doNotBuy\": { \"tags\": [] }}");
    assert_eq!(find_json5_object_range(&raw, &chars("doNotBuy")), Some((13, 27)));
    assert_eq!(find_json5_array_range(&raw, &chars("doNotBuy"), &chars("tags")), Some((23, 25)));
    assert_eq!(find_json5_object_range(&raw, &chars("doNotRelist")), None);
    let not_object = chars("{\"doNotBuy\": [1]}");
    assert_eq!(find_json5_object_range(&not_object, &chars("doNotBuy")), None);
}

#[test]
fn removing_an_absent_value_again_changes_nothing() {
    let current = vec![jstr("speed_relic"), jstr("GIANTS_SWORD")];
    let expires = vec![None, None];
    let (next, changed) = plan_blacklist_update(
        BlacklistAction::Remove,
        BlacklistField::Tag,
        "SPEED_RELIC",
        jstr("SPEED_RELIC"),
        current,
        &expires,
        20,
    );
    assert!(changed);
    assert_eq!(next.len(), 1);
    let expires = vec![None];
    let (again, changed) = plan_blacklist_update(
        BlacklistAction::Remove,
        BlacklistField::Tag,
        "SPEED_RELIC",
        jstr("SPEED_RELIC"),
        next,
        &expires,
        20,
    );
    assert!(!changed);
    assert_eq!(again.len(), 1);
    assert_eq!(as_str(&again[0]), Some("GIANTS_SWORD"));
}

fn tag_update(action: BlacklistAction, value: &str) -> BlacklistUpdateInput {
    BlacklistUpdateInput {
        action,
        scope: BlacklistScope::Buy,
        field: BlacklistField::Tag,
        value: value.to_string(),
    }
}

fn tags_root(tags: &[&str]) -> JsonValue {
    obj(vec![("doNotBuy", obj(vec![("tags", JsonValue::Array(tags.iter().map(|t| jstr(t)).collect()))]))])
}

#[test]
fn blacklist_update_patches_the_list_in_place_and_repeats_as_a_no_op() {
    let raw = "{ // rules\n  \"doNotBuy\": { \"tags\": [\"GIANTS_SWORD\"] } }";
    let update = tag_update(BlacklistAction::Add, "SPEED_RELIC");
    let first = apply_blacklist_update(raw, tags_root(&["GIANTS_SWORD"]), &update, Vec::new(), &vec![None], None, 20)
        .unwrap();
    assert!(first.changed);
    assert_eq!(
        first.config_text,
        "{ // rules\n  \"doNotBuy\": { \"tags\": [\n  \"GIANTS_SWORD\",\n  \"SPEED_RELIC\"\n] } }"
    );
    assert_eq!(first.summary, "Added: doNotBuy.tags SPEED_RELIC");

    let second = apply_blacklist_update(
        &first.config_text,
        tags_root(&["GIANTS_SWORD", "SPEED_RELIC"]),
        &update,
        Vec::new(),
        &vec![None, None],
        None,
        30,
    )
    .unwrap();
    assert!(!second.changed);
    assert_eq!(second.config_text, first.config_text);
    assert!(second.summary.starts_with("Already up to date"));

    let remove = tag_update(BlacklistAction::Remove, "MISSING_TAG");
    let third = apply_blacklist_update(raw, tags_root(&["GIANTS_SWORD"]), &remove, Vec::new(), &vec![None], None, 20)
        .unwrap();
    assert!(!third.changed);
    assert_eq!(third.config_text, raw);
}

#[test]
fn blacklist_update_renders_the_document_when_the_text_has_no_list() {
    let update = tag_update(BlacklistAction::Add, "SPEED_RELIC");
    let outcome = apply_blacklist_update("{}", obj(vec![]), &update, Vec::new(), &Vec::new(), None, 20).unwrap();
    assert!(outcome.changed);
    assert_eq!(
        outcome.config_text,
        "{\n  \"doNotBuy\": {\n    \"tags\": [\n      \"SPEED_RELIC\"\n    ]\n  }\n}"
    );
}

#[test]
fn blacklist_update_reports_value_and_document_errors() {
    let bad_enchant = BlacklistUpdateInput {
        action: BlacklistAction::Add,
        scope: BlacklistScope::Relist,
        field: BlacklistField::Enchant,
        value: "   ".to_string(),
    };
    assert!(matches!(
        apply_blacklist_update("{}", obj(vec![]), &bad_enchant, Vec::new(), &Vec::new(), None, 0),
        Err(BlacklistUpdateError::Value(BlacklistValueError::MissingEnchantment))
    ));
    let update = tag_update(BlacklistAction::Add, "SPEED_RELIC");
    assert!(matches!(
        apply_blacklist_update("[]", JsonValue::Array(Vec::new()), &update, Vec::new(), &Vec::new(), None, 0),
        Err(BlacklistUpdateError::Document(ConfigDocError::RootNotObject))
    ));
    assert!(matches!(
        apply_blacklist_update("{}", obj(vec![("doNotBuy", jstr("x"))]), &update, Vec::new(), &Vec::new(), None, 0),
        Err(BlacklistUpdateError::Document(ConfigDocError::SectionNotObject))
    ));
}

#[test]
fn pretty_rendering_and_entry_patching_use_serde_json_layout() {
    assert_eq!(render_json_pretty(&JsonValue::Array(Vec::new())), "[]");
    assert_eq!(
        render_json_pretty(&obj(vec![("b", JsonValue::Number(JsonNumber::NegInt(-2))), ("a", JsonValue::Null)])),
        "{\n  \"a\": null,\n  \"b\": -2\n}"
    );
    let list = JsonValue::Array(vec![jstr("X")]);
    assert_eq!(
        patch_config_entries("{\"s\": {\"f\": [1, 2]}}", "s", "f", &list).as_deref(),
        Some("{\"s\": {\"f\": [\n  \"X\"\n]}}")
    );
    assert_eq!(patch_config_entries("{}", "s", "f", &list), None);
}
