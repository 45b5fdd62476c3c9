use saf_app::bids_flow::{
    bid_claim_candidates, bids_window_plan, defer_claimed_bid_relist, partition_ready,
    BidSlotFacts, BidsPlan, PendingClaimedBidRelist,
};
use saf_app::cofl_auth::{
    account_socket_session_source, link_report, outcome_report, socket_link_source, AuthEnvelope,
    AuthOutcome, AuthStep, CoflAuthWatch, LinkSource,
};
use saf_app::dashboard_rules::{
    alert_lines_wanted, capitalize, constant_time_eq, flips_kind, flips_limit, log_lines_wanted,
    recent_log_alerts, request_authorized, runtime_log_tail, series_account_filter,
    series_bucket_ms, strip_ansi,
};
use saf_app::discord_gateway::{DiscordBotSettings, DiscordGatewayConfig};
use saf_app::env_vars::{
    allowed_discord_ids, env_discord_allowed_ids, normalize_discord_user_id, EnvVars,
};
use saf_app::gui_window::{WindowSlotView, WindowView};
use saf_app::reconcile_flow::{
    claim_opens_sold_action, claim_reason, draft_submit_is_expected, is_auction_view_window,
    is_bids_state, is_bids_window, is_confirm_auction_window, is_create_auction_window,
    is_reconcile_state, may_recover_untracked_draft, plan_draft_confirm, plan_draft_create,
    plan_without_claim, route_reconcile_window, should_recover_pending_draft,
    should_recover_untracked_pending_draft, should_skip_claim, sold_claim_action_is_expected,
    sold_claim_wait, DraftCloseReason, DraftConfirmPlan, DraftCreatePlan, ExpectedListing,
    NoClaimPlan, PendingDraft, PendingStepFacts, ReconcileRoute, ReconcileWindowFacts,
    SoldClaimWait,
};

fn env(pairs: &[(&str, &str)]) -> EnvVars {
    EnvVars {
        vars: pairs
            .iter()
            .map(|(k, v)| (k.to_string(), v.to_string()))
            .collect(),
    }
}

fn window(title: &str, lines: &[&str]) -> WindowView {
    WindowView {
        title: title.to_string(),
        slots: lines
            .iter()
            .enumerate()
            .map(|(i, line)| WindowSlotView {
                slot: i,
                name: "paper".to_string(),
                display_name: line.to_string(),
                lore: Vec::new(),
                item_uuid: None,
            })
            .collect(),
    }
}

fn facts() -> ReconcileWindowFacts {
    ReconcileWindowFacts {
        reconcile_entry: true,
        create_auction_window: false,
        confirm_auction_window: false,
        sold_claim_slot: None,
        sold_claim_expected: false,
        auction_view_window: false,
        manage_auctions_window: true,
    }
}

#[test]
fn reconcile_windows_are_routed_in_order() {
    assert_eq!(route_reconcile_window(facts()), ReconcileRoute::ManageAuctions);
    let mut f = facts();
    f.reconcile_entry = false;
    assert_eq!(route_reconcile_window(f), ReconcileRoute::NotHandled);
    let mut f = facts();
    f.create_auction_window = true;
    f.confirm_auction_window = true;
    assert_eq!(route_reconcile_window(f), ReconcileRoute::DraftCreate);
    let mut f = facts();
    f.confirm_auction_window = true;
    assert_eq!(route_reconcile_window(f), ReconcileRoute::DraftConfirm);
    let mut f = facts();
    f.sold_claim_slot = Some(31);
    assert_eq!(route_reconcile_window(f), ReconcileRoute::ManageAuctions);
    f.sold_claim_expected = true;
    assert_eq!(route_reconcile_window(f), ReconcileRoute::SoldClaimAction(31));
    f.sold_claim_slot = None;
    assert_eq!(route_reconcile_window(f), ReconcileRoute::WaitForSoldClaimAction);
    let mut f = facts();
    f.auction_view_window = true;
    assert_eq!(route_reconcile_window(f), ReconcileRoute::CloseUnrelated);
    let mut f = facts();
    f.manage_auctions_window = false;
    assert_eq!(route_reconcile_window(f), ReconcileRoute::NotHandled);
}

#[test]
fn reconcile_claim_planning() {
    assert_eq!(
        plan_without_claim(true, false, Some(24), true, true),
        NoClaimPlan::OpenDraft(24)
    );
    assert_eq!(
        plan_without_claim(true, true, Some(24), true, true),
        NoClaimPlan::CloseAndQueueBids
    );
    assert_eq!(plan_without_claim(false, false, None, false, true), NoClaimPlan::Nothing);
    assert!(should_skip_claim(0, 2, true));
    assert!(!should_skip_claim(1, 2, true));
    assert!(!should_skip_claim(0, 0, true));
    assert!(claim_opens_sold_action(1, false));
    assert!(!claim_opens_sold_action(1, true));
    assert_eq!(sold_claim_wait(None, 10), SoldClaimWait::NotHandled);
    assert_eq!(sold_claim_wait(Some(1_000), 5_999), SoldClaimWait::Wait);
    assert_eq!(sold_claim_wait(Some(1_000), 6_000), SoldClaimWait::CloseStale);
    assert_eq!(claim_reason(0, 0), "auction reconciliation claim");
    assert_eq!(claim_reason(1, 0), "claim 1 sold auction");
    assert_eq!(claim_reason(0, 3), "claim 3 expired auctions");
    assert_eq!(claim_reason(2, 1), "claim 2 sold and 1 expired auction");
}

#[test]
fn draft_windows_are_checked_against_the_expected_listing() {
    let draft = Some(PendingDraft {
        item_uuid: "ABC".to_string(),
        list_price: 1_000,
    });
    let expected = |uuid: Option<&str>, price: u64| {
        Some(ExpectedListing {
            inventory_uuid: uuid.map(str::to_string),
            list_price: price,
        })
    };
    assert_eq!(
        plan_draft_create(&None, &expected(None, 1_000)),
        DraftCreatePlan::Close(DraftCloseReason::NoDraft)
    );
    assert_eq!(plan_draft_create(&draft, &None), DraftCreatePlan::RecoverOrClose);
    assert_eq!(
        plan_draft_create(&draft, &expected(Some("abc"), 1_000)),
        DraftCreatePlan::Submit
    );
    assert_eq!(
        plan_draft_create(&draft, &expected(Some("def"), 1_000)),
        DraftCreatePlan::Close(DraftCloseReason::UnexpectedItem)
    );
    assert_eq!(
        plan_draft_create(&draft, &expected(None, 999)),
        DraftCreatePlan::Close(DraftCloseReason::UnexpectedPrice)
    );
    assert_eq!(
        plan_draft_confirm(false, Some(1), true),
        DraftConfirmPlan::Close(DraftCloseReason::UntrackedConfirmation)
    );
    assert_eq!(
        plan_draft_confirm(true, Some(1), false),
        DraftConfirmPlan::Close(DraftCloseReason::UnexpectedConfirmationPrice)
    );
    assert_eq!(plan_draft_confirm(true, None, false), DraftConfirmPlan::Confirm);
    assert_eq!(
        DraftCloseReason::UnexpectedPrice.text(),
        "close pending auction draft with unexpected price"
    );
    assert!(may_recover_untracked_draft(true, true, true));
    assert!(!may_recover_untracked_draft(true, false, true));
}

#[test]
fn pending_step_expectations() {
    let step = PendingStepFacts {
        same_entry: true,
        both_reconcile: false,
        click_slot: Some(29),
        opens_sold_claim_action: true,
    };
    assert!(sold_claim_action_is_expected(Some(step)));
    assert!(draft_submit_is_expected(Some(step)));
    let other = PendingStepFacts {
        same_entry: false,
        both_reconcile: true,
        click_slot: Some(30),
        opens_sold_claim_action: true,
    };
    assert!(sold_claim_action_is_expected(Some(other)));
    assert!(!draft_submit_is_expected(Some(other)));
    assert!(!sold_claim_action_is_expected(None));
}

#[test]
fn queue_states_and_reasons() {
    assert!(is_reconcile_state("reconcileAuctions"));
    assert!(is_reconcile_state("claimSold"));
    assert!(!is_reconcile_state("bids"));
    assert!(is_bids_state("bids"));
    assert!(should_recover_pending_draft(None));
    assert!(should_recover_pending_draft(Some("slot-pressure")));
    assert!(!should_recover_pending_draft(Some("startup")));
    assert!(should_recover_untracked_pending_draft(Some("startup")));
    assert!(should_recover_untracked_pending_draft(Some("regular-poll")));
    assert!(!should_recover_untracked_pending_draft(Some("sold-message")));
}

#[test]
fn auction_windows_are_recognised() {
    assert!(is_bids_window(&window("Your Bids", &[])));
    assert!(is_create_auction_window(&window("Create BIN Auction", &[])));
    assert!(!is_create_auction_window(&window("Auction House", &[])));
    assert!(is_auction_view_window(&window("BIN Auction View", &[])));
    assert!(is_confirm_auction_window(&window("Confirm BIN Auction", &[])));
    assert!(is_confirm_auction_window(&window("Menu", &["Confirm BIN"])));
    assert!(!is_confirm_auction_window(&window("Menu", &["Cancel"])));
}

fn bid_slot(slot: usize, uuid: Option<&str>, purchased: bool) -> BidSlotFacts {
    BidSlotFacts {
        slot,
        item_uuid: uuid.map(str::to_string),
        purchased,
    }
}

#[test]
fn bids_window_claims_purchased_items_outside_the_inventory() {
    assert_eq!(bids_window_plan(true, true, Some(3)), BidsPlan::Claim(3));
    assert_eq!(bids_window_plan(true, true, None), BidsPlan::CloseNoClaim);
    assert_eq!(bids_window_plan(false, true, Some(3)), BidsPlan::NotHandled);
    let mut slots: Vec<BidSlotFacts> = (0..45).map(|i| bid_slot(i, None, false)).collect();
    slots[2] = bid_slot(2, Some("u1"), true);
    slots[4] = bid_slot(4, Some("u2"), false);
    slots[7] = bid_slot(7, None, true);
    slots[20] = bid_slot(20, Some("u3"), true);
    assert_eq!(bid_claim_candidates(&slots), vec![2]);
}

fn relist(account: &str, uuid: &str, ready_at: u64) -> PendingClaimedBidRelist<u32> {
    PendingClaimedBidRelist {
        account: account.to_string(),
        item_uuid: uuid.to_string(),
        listing_action: 0,
        ready_at,
    }
}

#[test]
fn claimed_bid_relists_wait_for_their_time() {
    let mut pending = Vec::new();
    defer_claimed_bid_relist(&mut pending, relist("Main", "a", 10));
    defer_claimed_bid_relist(&mut pending, relist("Main", "a", 99));
    defer_claimed_bid_relist(&mut pending, relist("Main", "b", 30));
    defer_claimed_bid_relist(&mut pending, relist("Alt", "a", 20));
    assert_eq!(pending.len(), 3);
    assert_eq!(pending[0].ready_at, 10);
    let (ready, waiting) = partition_ready(pending, 20);
    assert_eq!(
        ready.iter().map(|r| r.ready_at).collect::<Vec<_>>(),
        vec![10, 20]
    );
    assert_eq!(
        waiting.iter().map(|r| r.item_uuid.as_str()).collect::<Vec<_>>(),
        vec!["b"]
    );
}

#[test]
fn cofl_socket_link_is_chosen_in_order() {
    assert!(matches!(
        socket_link_source(Some(" wss://explicit "), Some("wss://env"), "s"),
        LinkSource::Explicit(l) if l == "wss://explicit"
    ));
    assert!(matches!(
        socket_link_source(Some("  "), Some("wss://env"), "s"),
        LinkSource::AccountEnv(l) if l == "wss://env"
    ));
    assert!(matches!(
        socket_link_source(None, None, " shared "),
        LinkSource::Default(s) if s == "shared"
    ));
    assert!(matches!(
        socket_link_source(None, Some(" "), " "),
        LinkSource::MissingSession
    ));
    assert_eq!(account_socket_session_source(true, "configured"), "");
    assert_eq!(account_socket_session_source(false, "configured"), "configured");
}

fn envelope(links: &[&str], logged_out: bool, tier: bool) -> AuthEnvelope {
    AuthEnvelope {
        auth_links: links.iter().map(|l| l.to_string()).collect(),
        logged_out_recovery: logged_out,
        tier_update: tier,
    }
}

#[test]
fn cofl_auth_watch_reports_the_first_login_link() {
    let mut watch = CoflAuthWatch::new();
    assert!(matches!(
        watch.step(envelope(&[], false, false)),
        AuthStep::Continue { request_settings: true }
    ));
    assert!(matches!(
        watch.step(envelope(&[], true, false)),
        AuthStep::Continue { request_settings: false }
    ));
    assert!(watch.auth_required);
    match watch.step(envelope(&["https://sky.coflnet.com/authmod?x"], false, false)) {
        AuthStep::ReportLinks(links) => assert_eq!(links, vec!["https://sky.coflnet.com/authmod?x".to_string()]),
        AuthStep::Continue { .. } => panic!("expected the login link"),
    }
    assert_eq!(watch.finish(), AuthOutcome::LinkMissing { auth_required: true });

    let mut ready = CoflAuthWatch::new();
    ready.step(envelope(&[], false, true));
    assert_eq!(ready.finish(), AuthOutcome::AlreadyReady);

    let report = link_report("Main", vec!["https://a".to_string(), "https://b".to_string()], true, "wss://s");
    assert_eq!(report.kind, "skyCoflAuthLink");
    assert_eq!(report.link.as_deref(), Some("https://a"));
    assert!(report.auth_required);
    let report = outcome_report("Main", AuthOutcome::AlreadyReady, false, "wss://s");
    assert_eq!(report.kind, "skyCoflAuthAlreadyReady");
    assert!(!report.auth_required);
    let report = outcome_report("Main", AuthOutcome::LinkMissing { auth_required: true }, false, "wss://s");
    assert_eq!(report.kind, "skyCoflAuthLinkMissing");
    assert!(report.auth_required);
}

fn bot(token: &str, enabled: bool, guild: &str) -> DiscordBotSettings {
    DiscordBotSettings {
        token: token.to_string(),
        enabled,
        guild_id: guild.to_string(),
        ephemeral: true,
    }
}

#[test]
fn discord_gateway_settings_follow_environment_overrides() {
    assert!(DiscordGatewayConfig::from_config(&bot("", false, ""), &Vec::new(), &env(&[])).is_none());
    assert!(DiscordGatewayConfig::from_config(
        &bot("  ", true, ""),
        &Vec::new(),
        &env(&[("SAF_DISCORD_BOT_ENABLED", "1")])
    )
    .is_none());
    let config = DiscordGatewayConfig::from_config(
        &bot(" config-token ", false, "42"),
        &vec!["not-a-user".to_string(), " 00123 ".to_string()],
        &env(&[("SAF_DISCORD_ALLOWED_IDS", "456, bad"), ("SAF_DISCORD_GUILD_ID", " 7 ")]),
    )
    .unwrap();
    assert_eq!(config.token, "config-token");
    assert_eq!(config.guild_id, Some(7));
    assert!(config.ephemeral);
    assert_eq!(config.allowed_ids, vec!["123".to_string(), "456".to_string()]);
    assert!(config.is_allowed(123));
    assert!(config.is_allowed(456));
    assert!(!config.is_allowed(789));
}

#[test]
fn discord_ids_are_normalised_and_deduplicated() {
    assert_eq!(normalize_discord_user_id(" 00123 "), Some("123".to_string()));
    assert_eq!(normalize_discord_user_id("abc"), None);
    assert_eq!(
        env_discord_allowed_ids(&env(&[("SAF_DISCORD_ALLOWED_IDS", "9, 10,bad, 09")])),
        vec!["10".to_string(), "9".to_string()]
    );
    assert_eq!(
        allowed_discord_ids(&vec!["5".to_string(), "x".to_string()], &env(&[])),
        vec!["5".to_string()]
    );
}

#[test]
fn dashboard_text_helpers() {
    assert_eq!(strip_ansi("\u{1b}[31mred\u{1b}[0m text"), "red text");
    assert_eq!(capitalize("main"), "Main");
    assert_eq!(capitalize(""), "");
    assert!(constant_time_eq(b"secret", b"secret"));
    assert!(!constant_time_eq(b"secret", b"secreT"));
    assert!(!constant_time_eq(b"", b""));
    assert_eq!(log_lines_wanted(None), 200);
    assert_eq!(log_lines_wanted(Some(5_000)), 2_000);
    assert_eq!(alert_lines_wanted(None), 120);
    assert_eq!(alert_lines_wanted(Some(7)), 7);
    assert_eq!(flips_limit(None), 100);
    assert_eq!(flips_kind(None), "bought");
    assert_eq!(flips_kind(Some("sold".to_string())), "sold");
    assert_eq!(series_bucket_ms(None), 3_600_000);
    assert_eq!(series_bucket_ms(Some(0)), 1_000);
    assert_eq!(series_account_filter("all", Some("Alt".to_string())), Some("Alt".to_string()));
    assert_eq!(series_account_filter("Main", None), Some("Main".to_string()));
}

#[test]
fn dashboard_requests_need_the_token() {
    assert!(request_authorized(Some("Bearer abc"), None, "abc"));
    assert!(request_authorized(None, Some("abc"), "abc"));
    assert!(!request_authorized(None, None, "abc"));
    assert!(!request_authorized(Some("Bearer "), None, ""));
}

#[test]
fn runtime_log_tail_keeps_the_last_lines() {
    let tail = runtime_log_tail("a\nb\nc\n", 2);
    assert_eq!(tail, vec!["b".to_string(), "c".to_string()]);
    assert!(recent_log_alerts("", 10).is_empty());
}
