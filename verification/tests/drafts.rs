use saf_app::draft_window::{
    draft_item_name, expired_auction_from_slot, expired_claim_from_window,
    find_labeled_slot_value, pending_create_auction_draft, pending_draft_price_slot,
    selected_draft_item_slot, slot_plain_text,
};
use saf_app::gui_diagnostics::windows_equal;
use saf_app::gui_window::{WindowSlotView, WindowView};

fn slot(slot: usize, name: &str, display_name: &str, lore: &[&str], uuid: Option<&str>) -> WindowSlotView {
    WindowSlotView {
        slot,
        name: name.to_string(),
        display_name: display_name.to_string(),
        lore: lore.iter().map(|l| l.to_string()).collect(),
        item_uuid: uuid.map(|u| u.to_string()),
    }
}

fn create_window(slots: Vec<WindowSlotView>) -> WindowView {
    WindowView { title: "Create BIN Auction".to_string(), slots }
}

fn hyperion() -> WindowSlotView {
    slot(13, "iron_sword", "§6Hyperion", &["§8Tag: HYPERION"], Some("uuid-1"))
}

fn price_slot() -> WindowSlotView {
    slot(31, "gold_nugget", "§aStarting bid", &["§7Price: §61,500,000 coins"], None)
}

#[test]
fn draft_is_read_off_the_create_auction_window() {
    let window = create_window(vec![hyperion(), price_slot()]);
    let draft = pending_create_auction_draft(&window).expect("draft");
    assert_eq!(draft.item_index, 0);
    assert_eq!(draft.price_index, 1);
    assert_eq!(draft.item_slot, 13);
    assert_eq!(draft.item_name, "Hyperion");
    assert_eq!(draft.item_uuid.as_deref(), Some("uuid-1"));
    assert_eq!(draft.tag.as_deref(), Some("HYPERION"));
    assert_eq!(draft.price_text, " 1,500,000 coins");
}

#[test]
fn draft_needs_the_create_auction_window() {
    let window = WindowView { title: "Manage Auctions".to_string(), slots: vec![hyperion(), price_slot()] };
    assert!(pending_create_auction_draft(&window).is_none());
}

#[test]
fn empty_item_slot_gives_no_draft() {
    let empty = slot(13, "stone_button", "Click an item in your inventory", &[], None);
    assert!(!selected_draft_item_slot(&empty));
    let window = create_window(vec![empty, price_slot()]);
    assert!(pending_create_auction_draft(&window).is_none());
}

#[test]
fn item_without_id_counts_when_no_prompt_shows() {
    let item = slot(13, "book", "Enchanted Book", &["Sharpness VII"], None);
    assert!(selected_draft_item_slot(&item));
}

#[test]
fn draft_without_price_slot_gives_none() {
    let window = create_window(vec![hyperion()]);
    assert_eq!(pending_draft_price_slot(&window), None);
    assert!(pending_create_auction_draft(&window).is_none());
}

#[test]
fn button_slots_are_never_the_price_slot() {
    let button = slot(29, "hopper", "Create BIN Auction", &["Price: 5 coins"], None);
    let other = slot(40, "paper", "Item price", &[], None);
    let window = create_window(vec![button, other]);
    assert_eq!(pending_draft_price_slot(&window), Some(1));
}

#[test]
fn slot_31_is_the_price_slot_when_none_names_a_price() {
    let window = create_window(vec![hyperion(), slot(31, "paper", "Set amount", &[], None)]);
    assert_eq!(pending_draft_price_slot(&window), Some(1));
}

#[test]
fn price_text_is_the_whole_text_when_no_line_names_a_price() {
    let window = create_window(vec![hyperion(), slot(31, "paper", "1,000", &[], None)]);
    let draft = pending_create_auction_draft(&window).expect("draft");
    assert_eq!(draft.price_text, "1,000");
}

#[test]
fn draft_name_falls_back_to_first_lore_line() {
    let item = slot(13, "book", "Auction for Item:", &["  ", "§eEnchanted Book"], None);
    assert_eq!(draft_item_name(&item), "Enchanted Book");
    let blank = slot(13, "book", "Item to auction", &[], None);
    assert_eq!(draft_item_name(&blank), "Item to auction");
}

#[test]
fn labeled_value_skips_labels_without_value() {
    let item = slot(13, "x", "Tag:", &["Item Tag: ", "SkyBlock ID: §aJUJU_SHORTBOW"], None);
    assert_eq!(
        find_labeled_slot_value(&item, &["tag", "item tag", "skyblock id"]).as_deref(),
        Some("JUJU_SHORTBOW")
    );
    assert_eq!(find_labeled_slot_value(&item, &["price"]), None);
}

#[test]
fn plain_text_drops_colour_codes() {
    let s = slot(1, "x", "§aA", &["§bB"], None);
    assert_eq!(slot_plain_text(&s).into_iter().collect::<String>(), "A\nB");
}

#[test]
fn expired_auction_is_read_off_its_slot() {
    let s = slot(
        12,
        "blaze_rod",
        "§5Necron's Handle",
        &["§7Buy it now: §61,000,000 coins", "Tag: NECRON_HANDLE"],
        Some("uuid-9"),
    );
    let e = expired_auction_from_slot(&s).expect("reading");
    assert_eq!(e.item_uuid, "uuid-9");
    assert_eq!(e.name, "Necron's Handle");
    assert_eq!(e.tag.as_deref(), Some("NECRON_HANDLE"));
    assert_eq!(e.price_text, " 1,000,000 coins");
    let blank_name = slot(12, "blaze_rod", " ", &["Starting bid: 5"], Some("u"));
    assert_eq!(expired_auction_from_slot(&blank_name).expect("reading").name, "blaze_rod");
}

#[test]
fn expired_auction_needs_id_and_price_line() {
    let no_id = slot(12, "x", "X", &["Buy it now: 5"], None);
    assert!(expired_auction_from_slot(&no_id).is_none());
    let no_price = slot(12, "x", "X", &["Seller: me"], Some("u"));
    assert!(expired_auction_from_slot(&no_price).is_none());
}

#[test]
fn expired_claim_finds_the_slot_by_item_id() {
    let window = WindowView {
        title: "Manage Auctions".to_string(),
        slots: vec![
            slot(10, "x", "Other", &["Buy it now: 5"], Some("a")),
            slot(11, "y", "Mine", &["Seller: me"], Some("b")),
        ],
    };
    let (n, reading) = expired_claim_from_window("b", &window).expect("slot");
    assert_eq!(n, 11);
    assert!(reading.is_none());
    assert!(expired_claim_from_window("c", &window).is_none());
}

#[test]
fn windows_differing_only_in_item_id_are_not_equal() {
    let a = WindowView { title: "T".to_string(), slots: vec![slot(1, "x", "X", &[], Some("a"))] };
    let b = WindowView { title: "T".to_string(), slots: vec![slot(1, "x", "X", &[], None)] };
    assert!(!windows_equal(&a, &b));
    assert!(windows_equal(&a, &a.clone()));
}
