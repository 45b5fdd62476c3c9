use saf_app::auto_cookie::{is_bazaar_cookie_window, is_cookie_consume_window, window_matches_any};
use saf_app::gui_window::{WindowSlotView, WindowView};

fn window(title: &str, names: &[&str]) -> WindowView {
    WindowView {
        title: title.to_string(),
        slots: names
            .iter()
            .enumerate()
            .map(|(i, n)| WindowSlotView {
                slot: i,
                name: "paper".to_string(),
                display_name: n.to_string(),
                lore: Vec::new(),
                item_uuid: None,
            })
            .collect(),
    }
}

#[test]
fn bazaar_window_is_recognised_by_title_or_slots() {
    assert!(is_bazaar_cookie_window(&window("Bazaar ➜ Oddities", &[])));
    assert!(is_bazaar_cookie_window(&window("Chest", &["Booster Cookie"])));
    assert!(!is_bazaar_cookie_window(&window("Auction House", &["Sword"])));
}

#[test]
fn matches_any_ignores_case_of_patterns() {
    let w = window("Confirm", &["Buy Instantly"]);
    assert!(window_matches_any(&w, &["BUY INSTANTLY"]));
    assert!(!window_matches_any(&w, &["sell"]));
    assert!(!window_matches_any(&w, &[]));
}

#[test]
fn consume_window_needs_cookie_and_consume_or_confirm() {
    assert!(is_cookie_consume_window(&window("Consume Booster Cookie?", &["Booster Cookie", "Confirm"])));
    assert!(is_cookie_consume_window(&window("x", &["Consume the Booster Cookie"])));
    assert!(!is_cookie_consume_window(&window("Booster Cookie consume", &["Cancel"])));
    assert!(!is_cookie_consume_window(&window("x", &["Confirm"])));
}
