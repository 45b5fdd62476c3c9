use saf_app::gui_window::{
    ends_with_str, is_bed_action_slot, is_confirm_purchase_window, is_live_buy_window,
    title_contains, window_text_of, WindowSlotView, WindowView,
};
use saf_app::live_buy::{
    decide_live_buy, is_standalone_price_line, visible_price_line_value, price_refusal_message, step_is_bed_action, update_after_step, BuyStep,
    CloseReason, LiveBuyDecision, LiveBuyTick, PendingLiveBuy, PendingUpdate, PriceCheck,
    StepKind,
};

fn slot(slot: usize, name: &str, display_name: &str, lore: &[&str]) -> WindowSlotView {
    WindowSlotView {
        slot,
        name: name.to_string(),
        display_name: display_name.to_string(),
        lore: lore.iter().map(|l| l.to_string()).collect(),
        item_uuid: None,
    }
}

fn auction_view() -> WindowView {
    WindowView {
        title: "BIN Auction View".to_string(),
        slots: vec![
            slot(13, "diamond_sword", "Aspect of the End", &["Buy it now: 1,000 coins"]),
            slot(31, "red_bed", "Bed", &[]),
            slot(33, "gold_nugget", "Buy Item Right Now", &[]),
        ],
    }
}

fn confirm_window() -> WindowView {
    WindowView {
        title: "Confirm Purchase".to_string(),
        slots: vec![slot(11, "green_terracotta", "Confirm", &[])],
    }
}

fn unrelated_window() -> WindowView {
    WindowView {
        title: "Bazaar".to_string(),
        slots: vec![slot(0, "cookie", "Booster Cookie", &[])],
    }
}

fn pending(created_at: u64) -> PendingLiveBuy {
    PendingLiveBuy {
        auction_id: "auction-1".to_string(),
        created_at,
        click_at: None,
        bed_spam: false,
        bed_click_delay_ms: 100,
        bed_spam_until: None,
        timed_bed_clicks: 0,
        timed_bed_cleanup_at: None,
        action_clicks: 0,
        action_clicked_at: None,
        last_click: None,
        last_attempt: None,
    }
}

fn click(slot: usize) -> BuyStep {
    BuyStep {
        kind: StepKind::ClickSlot(slot),
        done: false,
    }
}

fn tick(pending: PendingLiveBuy, window: Option<WindowView>, now: u64, step: BuyStep) -> LiveBuyTick {
    LiveBuyTick {
        running: true,
        market_ready: true,
        pending,
        window,
        window_received_at: Some(1_001),
        now,
        step,
        price_check: Some(PriceCheck::Safe),
    }
}

#[test]
fn window_classification_reads_title_and_slot_text() {
    assert!(is_live_buy_window(&auction_view()));
    assert!(is_live_buy_window(&confirm_window()));
    assert!(!is_live_buy_window(&unrelated_window()));
    assert!(is_confirm_purchase_window(&confirm_window()));
    assert!(!is_confirm_purchase_window(&auction_view()));
    assert!(title_contains(&auction_view(), "auction view"));
    assert!(is_bed_action_slot(&auction_view(), 31));
    assert!(!is_bed_action_slot(&auction_view(), 33));
    assert!(!is_bed_action_slot(&auction_view(), 40));
    assert!(ends_with_str("red_bed", "_bed"));
    assert!(!ends_with_str("bed", "_bed"));
    let text: String = window_text_of(&confirm_window()).into_iter().collect();
    assert_eq!(text, "Confirm Purchase\nConfirm");
}

#[test]
fn stopped_account_forgets_its_pending_buy() {
    let mut t = tick(pending(1_000), Some(auction_view()), 2_000, click(33));
    t.running = false;
    assert_eq!(decide_live_buy(&t), LiveBuyDecision::RemovePending);
    t.running = true;
    t.market_ready = false;
    assert_eq!(decide_live_buy(&t), LiveBuyDecision::Wait);
}

#[test]
fn unrelated_fresh_window_is_closed() {
    let t = tick(pending(1_000), Some(unrelated_window()), 2_000, click(0));
    assert_eq!(decide_live_buy(&t), LiveBuyDecision::CloseUnrelatedWindow);
}

#[test]
fn stale_window_is_ignored_and_recent_attempt_waits() {
    let mut p = pending(1_000);
    p.last_attempt = Some(1_500);
    let mut t = tick(p, Some(unrelated_window()), 2_000, click(0));
    t.window_received_at = Some(900);
    assert_eq!(decide_live_buy(&t), LiveBuyDecision::Wait);
}

#[test]
fn buy_waits_for_its_planned_click_time() {
    let mut p = pending(1_000);
    p.click_at = Some(3_000);
    let t = tick(p.clone(), Some(auction_view()), 2_999, click(33));
    assert_eq!(decide_live_buy(&t), LiveBuyDecision::Wait);
    let t = tick(p, Some(auction_view()), 3_000, click(33));
    assert_eq!(decide_live_buy(&t), LiveBuyDecision::Execute);
}

#[test]
fn unsafe_price_blocks_the_first_click() {
    let mut t = tick(pending(1_000), Some(auction_view()), 2_000, click(33));
    t.price_check = Some(PriceCheck::Unsafe("price 10,000,000 is above the limit".to_string()));
    assert_eq!(decide_live_buy(&t), LiveBuyDecision::BlockUnsafePrice);
    assert_eq!(
        price_refusal_message(t.price_check.as_ref().unwrap()),
        "price 10,000,000 is above the limit"
    );
}

#[test]
fn missing_price_waits_briefly_then_blocks() {
    let mut t = tick(pending(1_000), Some(auction_view()), 1_649, click(33));
    t.price_check = Some(PriceCheck::MissingVisiblePrice);
    assert_eq!(decide_live_buy(&t), LiveBuyDecision::Wait);
    t.now = 1_650;
    assert_eq!(decide_live_buy(&t), LiveBuyDecision::BlockUnsafePrice);
    assert_eq!(
        price_refusal_message(&PriceCheck::MissingVisiblePrice),
        "no visible buy price was found in the auction window"
    );
}

#[test]
fn bed_spam_paces_and_cleans_up_bed_clicks() {
    let mut p = pending(1_000);
    p.bed_spam = true;
    p.last_click = Some(1_950);
    let t = tick(p.clone(), Some(auction_view()), 2_000, click(31));
    assert_eq!(decide_live_buy(&t), LiveBuyDecision::Wait);
    p.bed_spam_until = Some(2_000);
    let t = tick(p, Some(auction_view()), 2_000, click(31));
    assert_eq!(
        decide_live_buy(&t),
        LiveBuyDecision::CloseWindow(CloseReason::BedSpamCleanup)
    );
}

#[test]
fn timed_bed_clicks_stop_at_cleanup_time() {
    let mut p = pending(1_000);
    p.timed_bed_cleanup_at = Some(5_000);
    let t = tick(p.clone(), Some(auction_view()), 4_999, click(31));
    assert_eq!(decide_live_buy(&t), LiveBuyDecision::Wait);
    let t = tick(p, Some(auction_view()), 5_000, click(31));
    assert_eq!(
        decide_live_buy(&t),
        LiveBuyDecision::CloseWindow(CloseReason::TimedBedCleanup)
    );
}

#[test]
fn buy_button_retries_only_in_the_confirm_window() {
    let mut p = pending(1_000);
    p.action_clicks = 1;
    p.action_clicked_at = Some(1_100);
    p.last_click = Some(1_100);
    let t = tick(p.clone(), Some(auction_view()), 1_200, click(33));
    assert_eq!(decide_live_buy(&t), LiveBuyDecision::Wait);
    let t = tick(p.clone(), Some(confirm_window()), 1_154, click(11));
    assert_eq!(decide_live_buy(&t), LiveBuyDecision::Wait);
    let t = tick(p.clone(), Some(confirm_window()), 1_155, click(11));
    assert_eq!(decide_live_buy(&t), LiveBuyDecision::Execute);
    let t = tick(p, Some(confirm_window()), 6_100, click(11));
    assert_eq!(
        decide_live_buy(&t),
        LiveBuyDecision::CloseWindow(CloseReason::ActionCleanup)
    );
}

#[test]
fn finished_workflow_forgets_the_buy() {
    let t = tick(
        pending(1_000),
        Some(auction_view()),
        2_000,
        BuyStep {
            kind: StepKind::Noop,
            done: true,
        },
    );
    assert_eq!(decide_live_buy(&t), LiveBuyDecision::RemovePending);
}

#[test]
fn outcome_of_a_step_updates_the_pending_buy() {
    let step = BuyStep {
        kind: StepKind::ClickSlot(31),
        done: true,
    };
    assert!(step_is_bed_action(Some(&auction_view()), step));
    assert!(!step_is_bed_action(None, step));
    assert_eq!(update_after_step(step, true, true), PendingUpdate::MarkBedClick);
    assert_eq!(update_after_step(step, false, true), PendingUpdate::MarkActionClick);
    assert_eq!(update_after_step(step, true, false), PendingUpdate::MarkAttempt);
    let close = BuyStep {
        kind: StepKind::CloseWindow,
        done: true,
    };
    assert_eq!(update_after_step(close, false, true), PendingUpdate::Remove);
    let unfinished = BuyStep {
        kind: StepKind::Other,
        done: false,
    };
    assert_eq!(update_after_step(unfinished, false, true), PendingUpdate::MarkAttempt);
}

#[test]
fn bed_and_action_clicks_are_recorded() {
    let mut p = pending(1_000);
    p.mark_bed_click(2_000);
    assert_eq!(p.timed_bed_clicks, 1);
    assert_eq!(p.last_click, Some(2_000));
    assert_eq!(p.last_attempt, Some(2_000));
    assert_eq!(p.timed_bed_cleanup_at, None);
    for now in 2_001..2_005 {
        p.mark_bed_click(now);
    }
    assert_eq!(p.timed_bed_clicks, 5);
    assert_eq!(p.timed_bed_cleanup_at, Some(2_004 + 5_000));

    let mut spam = pending(1_000);
    spam.bed_spam = true;
    spam.mark_bed_click(3_000);
    assert_eq!(spam.bed_spam_until, Some(8_000));
    assert_eq!(spam.timed_bed_clicks, 0);

    let mut action = pending(1_000);
    action.mark_action_click(4_000);
    action.mark_action_click(4_100);
    assert_eq!(action.action_clicks, 2);
    assert_eq!(action.action_clicked_at, Some(4_000));
    assert_eq!(action.last_click, Some(4_100));

    let mut attempt = pending(1_000);
    attempt.mark_attempt(4_200);
    assert_eq!(attempt.last_attempt, Some(4_200));
    assert_eq!(attempt.last_click, None);
}

#[test]
fn price_lines_give_their_number_text() {
    assert_eq!(
        visible_price_line_value("Buy it now: 1,250,000 coins"),
        Some(" 1,250,000 coins".to_string())
    );
    assert_eq!(
        visible_price_line_value("Price 3,000 Coins"),
        Some("Price 3,000 Coins".to_string())
    );
    assert_eq!(visible_price_line_value("Seller: Someone"), None);
    assert!(is_standalone_price_line("5,000 coins"));
    assert!(!is_standalone_price_line("many coins"));
    assert!(!is_standalone_price_line("Bid 5,000"));
}
