use saf_app::account_rotation::{scheduled_directive, ScheduledAccountAction, ScheduledDirective};
use saf_app::auto_cookie::{
    activation_actions_for_cookie, first_empty_hotbar_slot, is_booster_cookie,
    CookieActivationAction, InventoryItemView,
};
use saf_app::gui_diagnostics::{
    active_auction_scan_start, diagnostic_failure_skipped, diagnostic_target_label,
    dry_run_scan_message, gui_diagnostic_targets, no_client_message, no_window_message,
    push_unique_window, wait_disconnect_message, wait_timeout_message, window_has_required_slots,
    window_wait_step, windows_equal, AuctionScanStart, GuiDiagnosticTarget, WaitEvent, WaitStep,
};
use saf_app::gui_window::{WindowSlotView, WindowView};
use saf_app::reconcile_window::{
    is_claim_all_slot, is_sold_auction_slot, is_sold_by_coop, plan_reason,
    reconcile_auction_window, reconcile_slot_facts, sold_claim_action_slot, ReconcileSlotFacts,
};
use saf_app::runtime_rules::is_window_wait_disconnect;

fn slot(slot: usize, name: &str, display_name: &str, lore: &[&str]) -> WindowSlotView {
    WindowSlotView {
        slot,
        name: name.to_string(),
        display_name: display_name.to_string(),
        lore: lore.iter().map(|l| l.to_string()).collect(),
        item_uuid: None,
    }
}

#[test]
fn diagnostic_targets_follow_the_request() {
    assert_eq!(
        gui_diagnostic_targets(Some(" ALL ")),
        vec![
            GuiDiagnosticTarget::AuctionHouse,
            GuiDiagnosticTarget::Bank,
            GuiDiagnosticTarget::Profiles,
            GuiDiagnosticTarget::SkyblockMenu
        ]
    );
    assert_eq!(gui_diagnostic_targets(Some("bids")), vec![GuiDiagnosticTarget::AuctionHouse]);
    assert_eq!(gui_diagnostic_targets(Some("Manage")), vec![GuiDiagnosticTarget::ManageAuctions]);
    assert_eq!(gui_diagnostic_targets(Some("coins")), vec![GuiDiagnosticTarget::Bank]);
    assert_eq!(gui_diagnostic_targets(Some("profile")), vec![GuiDiagnosticTarget::Profiles]);
    assert_eq!(gui_diagnostic_targets(Some("menu")), vec![GuiDiagnosticTarget::SkyblockMenu]);
    assert!(gui_diagnostic_targets(None).is_empty());
    assert!(gui_diagnostic_targets(Some("cached")).is_empty());
    assert!(gui_diagnostic_targets(Some("nonsense")).is_empty());
    assert_eq!(diagnostic_target_label(Some("  bank ")), Some("bank".to_string()));
    assert_eq!(diagnostic_target_label(Some("   ")), None);
}

#[test]
fn diagnostic_target_windows() {
    let manage = GuiDiagnosticTarget::ManageAuctions;
    assert_eq!(manage.command(), "/ah");
    assert_eq!(manage.title_patterns(), vec!["auction house"]);
    assert_eq!(manage.required_slot_patterns(), vec!["manage auctions", "your auctions"]);
    let follow = manage.follow_up().unwrap();
    assert_eq!(follow.fallback_slot, 15);
    assert_eq!(follow.title_patterns, vec!["manage auctions"]);
    assert_eq!(follow.required_slot_patterns.len(), 6);
    assert!(GuiDiagnosticTarget::Bank.follow_up().is_none());
    assert!(GuiDiagnosticTarget::Bank.required_slot_patterns().is_empty());
    assert_eq!(GuiDiagnosticTarget::SkyblockMenu.title_patterns(), vec!["skyblock menu", "skyblock"]);
}

#[test]
fn required_slots_are_found_in_slot_text() {
    let window = WindowView {
        title: "Auction House".to_string(),
        slots: vec![slot(15, "golden_horse_armor", "Manage Auctions", &["You own 3 auctions"])],
    };
    assert!(window_has_required_slots(&window, &vec![]));
    assert!(window_has_required_slots(&window, &vec!["create auction", "MANAGE auctions"]));
    assert!(!window_has_required_slots(&window, &vec!["auction browser"]));
    assert!(window_has_required_slots(&window, &vec!["3 auctions"]));
}

#[test]
fn diagnostics_keep_each_window_once() {
    let a = WindowView {
        title: "Bank".to_string(),
        slots: vec![slot(11, "chest", "Deposit", &["Coins"])],
    };
    let mut b = a.clone();
    b.slots[0].lore.push("More".to_string());
    assert!(windows_equal(&a, &a.clone()));
    assert!(!windows_equal(&a, &b));
    let mut windows = Vec::new();
    push_unique_window(&mut windows, a.clone());
    push_unique_window(&mut windows, a.clone());
    push_unique_window(&mut windows, b);
    assert_eq!(windows.len(), 2);
}

#[test]
fn window_waits_handle_each_event() {
    assert_eq!(window_wait_step(WaitEvent::Nothing), WaitStep::KeepWaiting);
    assert_eq!(
        window_wait_step(WaitEvent::WindowOpen { title_matches: true, has_required_slots: true }),
        WaitStep::RememberAndReturn
    );
    assert_eq!(
        window_wait_step(WaitEvent::WindowOpen { title_matches: true, has_required_slots: false }),
        WaitStep::Remember
    );
    assert_eq!(window_wait_step(WaitEvent::WindowClosed), WaitStep::ForgetAndDefer);
    assert_eq!(window_wait_step(WaitEvent::Disconnected), WaitStep::ForgetDeferAndFail);
    assert_eq!(window_wait_step(WaitEvent::Passing), WaitStep::Defer);
    assert_eq!(window_wait_step(WaitEvent::Scoreboard), WaitStep::RecordScoreboardAndDefer);
}

#[test]
fn wait_failures_are_told_apart() {
    let disconnect = wait_disconnect_message("Main", "scanning active auctions", "kicked");
    assert_eq!(disconnect, "Main disconnected while scanning active auctions: kicked");
    assert!(is_window_wait_disconnect(&disconnect));
    assert!(!diagnostic_failure_skipped(true, &disconnect));
    let timeout = wait_timeout_message(&vec!["skyblock menu", "skyblock"], "diagnosing GUI slots");
    assert_eq!(
        timeout,
        "timed out waiting for skyblock menu/skyblock window while diagnosing GUI slots"
    );
    assert!(diagnostic_failure_skipped(true, &timeout));
    assert!(!diagnostic_failure_skipped(false, &timeout));
    assert_eq!(no_window_message("Main"), "no GUI window snapshot is available for Main");
}

#[test]
fn active_auction_scan_starts() {
    assert_eq!(active_auction_scan_start(true, false, false), AuctionScanStart::UseCachedWindow);
    assert_eq!(active_auction_scan_start(false, false, true), AuctionScanStart::RefuseDryRun);
    assert_eq!(active_auction_scan_start(false, true, false), AuctionScanStart::NoClient);
    assert_eq!(active_auction_scan_start(false, true, true), AuctionScanStart::OpenAuctionHouse);
    assert_eq!(
        dry_run_scan_message("Main"),
        "dry-run active auction scan for Main requires a cached Manage Auctions window"
    );
    assert_eq!(no_client_message("Alt"), "no Minecraft client registered for Alt");
}

fn facts(slot: usize) -> ReconcileSlotFacts {
    ReconcileSlotFacts {
        slot,
        claim_all: false,
        sold: false,
        expired: false,
        sold_by_coop: false,
        expired_auction_known: false,
    }
}

#[test]
fn reconcile_claims_the_first_sold_auction_without_claim_all() {
    let mut slots = vec![facts(10), facts(11), facts(12)];
    slots[1].sold = true;
    slots[2].sold = true;
    slots[0].expired = true;
    slots[0].expired_auction_known = true;
    let plan = reconcile_auction_window(true, &slots, false).unwrap();
    assert_eq!(plan.claim_slot, 11);
    assert!(!plan.claim_all);
    assert_eq!(plan.sold_count, 2);
    assert_eq!(plan.expired_count, 1);
    assert!(plan.claimed_expired.is_empty());
    assert_eq!(plan_reason(&plan), "claim 2 sold and 1 expired auction");
    assert!(reconcile_auction_window(false, &slots, false).is_none());
}

#[test]
fn reconcile_claim_all_takes_every_expired_auction() {
    let mut slots = vec![facts(10), facts(11), facts(40)];
    slots[0].expired = true;
    slots[0].expired_auction_known = true;
    slots[1].expired = true;
    slots[1].expired_auction_known = true;
    slots[2].claim_all = true;
    let plan = reconcile_auction_window(true, &slots, false).unwrap();
    assert_eq!(plan.claim_slot, 40);
    assert!(plan.claim_all);
    assert_eq!(plan.claimed_expired, vec![0, 1]);
    let only_claim_all = vec![facts(40)];
    let mut with_claim_all = only_claim_all.clone();
    with_claim_all[0].claim_all = true;
    assert!(reconcile_auction_window(true, &with_claim_all, false).is_none());
}

#[test]
fn reconcile_skips_coop_sales_when_guarded() {
    let mut slots = vec![facts(10), facts(11)];
    slots[0].sold = true;
    slots[0].sold_by_coop = true;
    slots[1].expired = true;
    slots[1].expired_auction_known = true;
    let plan = reconcile_auction_window(true, &slots, true).unwrap();
    assert_eq!(plan.claim_slot, 11);
    assert_eq!(plan.sold_count, 0);
    assert_eq!(plan.claimed_expired, vec![1]);
    let plan = reconcile_auction_window(true, &slots, false).unwrap();
    assert_eq!(plan.claim_slot, 10);
}

#[test]
fn manage_auction_slots_are_classified() {
    let sold = slot(10, "diamond_sword", "Sword", &["Seller: Main", "Buyer: Someone", "Status: Sold!"]);
    let coop = slot(11, "bow", "Bow", &["§7Seller: §bFriend", "Buyer: X", "Click to claim"]);
    let claim_all = slot(40, "cauldron", "Claim All", &[]);
    assert!(is_sold_auction_slot(&sold));
    assert!(!is_sold_by_coop(&sold, "main"));
    assert!(is_sold_by_coop(&coop, "Main"));
    assert!(is_claim_all_slot(&claim_all));
    assert!(!is_claim_all_slot(&sold));
    let f = reconcile_slot_facts(&coop, "Main", false);
    assert!(f.sold && f.sold_by_coop && !f.claim_all && !f.expired);
}

#[test]
fn sold_auction_view_offers_its_claim_slot() {
    let view = WindowView {
        title: "BIN Auction View".to_string(),
        slots: vec![slot(31, "gold_block", "Collect Auction", &[])],
    };
    assert_eq!(sold_claim_action_slot(&view, 31), Some(31));
    assert_eq!(sold_claim_action_slot(&view, 33), None);
    let other = WindowView {
        title: "Auction House".to_string(),
        slots: view.slots.clone(),
    };
    assert_eq!(sold_claim_action_slot(&other, 31), None);
    let text_claim = WindowView {
        title: "Auction View".to_string(),
        slots: vec![slot(31, "paper", "Claim your coins", &[])],
    };
    assert_eq!(sold_claim_action_slot(&text_claim, 31), Some(31));
}

fn item(slot: Option<u8>, in_hotbar: bool, tag: Option<&str>, name: &str) -> InventoryItemView {
    InventoryItemView {
        slot,
        in_hotbar,
        tag: tag.map(str::to_string),
        item_name: name.to_string(),
        lore: Vec::new(),
    }
}

#[test]
fn cookie_in_the_hotbar_is_held_and_used() {
    let items = vec![item(Some(38), true, Some("booster_cookie"), "Cookie")];
    assert!(is_booster_cookie(&items[0]));
    assert_eq!(
        activation_actions_for_cookie(&items),
        Some(vec![
            CookieActivationAction::SetHeldHotbarSlot(2),
            CookieActivationAction::ActivateHeldItem
        ])
    );
}

#[test]
fn cookie_elsewhere_is_moved_to_the_first_free_hotbar_slot() {
    let items = vec![
        item(Some(36), true, None, "Sword"),
        item(Some(37), true, None, "Bow"),
        item(Some(12), false, None, "Booster Cookie"),
    ];
    assert_eq!(first_empty_hotbar_slot(&items), Some(2));
    assert_eq!(
        activation_actions_for_cookie(&items),
        Some(vec![
            CookieActivationAction::SwapSlotToHotbar { slot: 12, hotbar_slot: 2 },
            CookieActivationAction::SetHeldHotbarSlot(2),
            CookieActivationAction::ActivateHeldItem
        ])
    );
    let full: Vec<InventoryItemView> = (36..=44)
        .map(|s| item(Some(s), true, None, "Stone"))
        .chain(std::iter::once(item(Some(12), false, Some("BOOSTER_COOKIE"), "x")))
        .collect();
    assert_eq!(first_empty_hotbar_slot(&full), None);
    assert_eq!(activation_actions_for_cookie(&full), None);
    assert_eq!(activation_actions_for_cookie(&vec![item(Some(1), false, None, "Stone")]), None);
}

#[test]
fn scheduled_actions_are_skipped_after_shutdown_or_halt() {
    assert!(scheduled_directive("Main", ScheduledAccountAction::Start, true, false).is_none());
    assert!(scheduled_directive("Main", ScheduledAccountAction::Stop, false, true).is_none());
    assert!(matches!(
        scheduled_directive("Main", ScheduledAccountAction::Start, false, false),
        Some(ScheduledDirective::StartAccount(a)) if a == "Main"
    ));
    assert!(matches!(
        scheduled_directive("Alt", ScheduledAccountAction::Stop, false, false),
        Some(ScheduledDirective::StopAccount(a)) if a == "Alt"
    ));
}

use saf_app::auth_links::AuthLinkNotifier;
use saf_app::auto_cookie::{AfterCookieClick, AutoCookiePhase, AutoCookieWindowAction, PendingAutoCookie, COOKIE_DURATION_NS};
use saf_app::bids_flow::is_purchased_bid_slot;

#[test]
fn login_links_wait_and_are_sent_once() {
    let mut notifier = AuthLinkNotifier::new();
    let links = vec!["https://b.example/auth".to_string(), "https://a.example/auth".to_string()];
    notifier.queue_links(&links, 1_000, false);
    assert!(notifier.take_due(8_999, false).is_empty());
    notifier.queue_links(&vec!["https://a.example/auth".to_string()], 5_000, false);
    assert_eq!(
        notifier.take_due(9_000, false),
        vec!["https://a.example/auth".to_string(), "https://b.example/auth".to_string()]
    );
    notifier.queue_links(&vec!["https://a.example/auth".to_string()], 10_000, false);
    assert!(notifier.take_due(20_000, false).is_empty());
    notifier.queue_links(&vec!["https://c.example/auth".to_string()], 30_000, true);
    assert!(notifier.take_due(50_000, false).is_empty());
    notifier.queue_links(&vec!["https://d.example/auth".to_string()], 30_000, false);
    assert!(notifier.take_due(50_000, true).is_empty());
    assert!(notifier.take_due(60_000, false).is_empty());
}

#[test]
fn auto_cookie_purchase_advances_after_each_click() {
    let mut pending = PendingAutoCookie::new(Some(10), 0);
    assert_eq!(
        pending.after_window_click(AutoCookieWindowAction::Click { slot: 11, next: AutoCookiePhase::AwaitingAmount }),
        AfterCookieClick::Continue
    );
    assert_eq!(pending.phase, AutoCookiePhase::AwaitingAmount);
    assert_eq!(
        pending.after_window_click(AutoCookieWindowAction::ClickAndPrepareActivation { slot: 13, due_at: 500 }),
        AfterCookieClick::Continue
    );
    assert!(!pending.activation_due(499));
    assert!(pending.activation_due(500));
    pending.mark_activation_started();
    assert_eq!(pending.phase, AutoCookiePhase::AwaitingConsumeConfirm);
    assert_eq!(
        pending.after_window_click(AutoCookieWindowAction::ClickConsume { slot: 11 }),
        AfterCookieClick::Finished { activated_duration: 10 + COOKIE_DURATION_NS }
    );
}

#[test]
fn purchased_bids_are_recognised() {
    assert!(is_purchased_bid_slot(&slot(3, "diamond", "Diamond", &["Status: Won!"])));
    assert!(is_purchased_bid_slot(&slot(3, "diamond", "Diamond", &["Click to claim!"])));
    assert!(!is_purchased_bid_slot(&slot(3, "diamond", "Diamond", &["Top bid: 5 coins"])));
}
