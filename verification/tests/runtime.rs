use saf_app::blacklist_rules::{BlacklistField, BlacklistScope};
use saf_app::blacklist_store::BlacklistUpdateInput;
use saf_app::blacklist_update::BlacklistAction;
use saf_app::recorders::{BlacklistRequest, RecordedBlacklistStore};
use saf_app::account_rotation::{
    auto_rotate_leg_parts, auto_rotate_legs, auto_rotate_schedule_parts, rest_first_waiting_message, rotation_action_message,
    startup_runtime_accounts_with_rotation, AutoRotateLeg, AutoRotatePhase, AutoRotateSchedule,
    ScheduledAccountAction,
};
use saf_app::auto_cookie::{
    auto_cookie_gate, cookie_buy_route, AutoCookiePhase, AutoCookieWindowAction, CookieBuyRoute,
    CookieGate, ForceCookieError, LiveCookieForcer, PendingAutoCookie,
    COOKIE_ACTIVATION_DELAY_NS, COOKIE_DURATION_NS,
};
use saf_app::bank::{
    bank_cooldown_key, default_bank_cooldown_path, BankCooldownDecision, BankCooldownStore,
    DEFAULT_BANK_COOLDOWN_MS,
};
use saf_app::chat_categories::PassiveChatCategories;
use saf_app::cofl_watchdog::{cofl_socket_host, CoflSilentOpenWatchdog};
use saf_app::config_write::{state_temp_file_name, temp_extension};
use saf_app::inbox::{recent_log_lines, FileLogReader, LifecycleAction, StatsRequestKind};
use saf_app::queue_store::RecordedQueueStore;
use saf_app::runtime_rules::{
    claim_notification_collected_coins, cofl_session_for_link, cofl_session_with_env,
    default_amount, env_optional_duration_ms, env_truthy, env_u64, full_inventory_cookie_message,
    is_bad_modification_message, is_expected_blocked_chat_command, is_window_wait_disconnect,
    native_minecraft_enabled, normalize_cofl_session_id, plural_suffix, should_upload_scoreboard,
    signed_millis_delta, timed_bed_click_at, tracked_collection_amount_should_replace_claim,
    unix_timestamp_after,
};
use saf_app::cofl_privacy::{CoflPrivacyFilter, PrivacyRegexError};
use saf_app::string_map::StringMap;

#[test]
fn recorded_store_orders_and_removes_by_priority_like_the_file_store() {
    let mut store: RecordedQueueStore<&str, &str> = RecordedQueueStore::new();
    for (tag, prio) in [("p5", 5u8), ("p3", 3), ("p4", 4)] {
        assert!(store.add("MainAccount".to_string(), tag, "buying", prio));
    }
    let snap = store.snapshot("MainAccount");
    assert_eq!(
        snap.iter().map(|e| e.priority).collect::<Vec<_>>(),
        vec![3, 4, 5]
    );
    let removed = store.remove_at("MainAccount", 1).unwrap();
    assert_eq!(removed.priority, 4);
    assert_eq!(removed.action, "p4");
    let after = store.snapshot("MainAccount");
    assert_eq!(
        after.iter().map(|e| e.priority).collect::<Vec<_>>(),
        vec![3, 5]
    );
}

#[test]
fn recorded_store_keeps_accounts_apart_and_equal_priorities_in_arrival_order() {
    let mut store: RecordedQueueStore<u32, &str> = RecordedQueueStore::new();
    store.add("Main".to_string(), 1, "buying", 2);
    store.add("Alt".to_string(), 2, "buying", 1);
    store.add("Main".to_string(), 3, "buying", 2);
    let main = store.snapshot("Main");
    assert_eq!(main.iter().map(|e| e.action).collect::<Vec<_>>(), vec![1, 3]);
    assert!(store.remove_at("Main", 2).is_none());
    assert_eq!(store.entries().len(), 3);
    assert_eq!(store.clear("Main"), 2);
    assert_eq!(store.entries().len(), 1);
    assert_eq!(store.snapshot("Alt")[0].action, 2);
}

#[test]
fn file_log_reader_returns_recent_lines() {
    let reader = FileLogReader::new("logs/latest.log");
    assert_eq!(reader.path(), "logs/latest.log");
    let lines = recent_log_lines("one\n\n two \nthree\n", 2);
    assert_eq!(lines, vec!["two".to_string(), "three".to_string()]);
    assert_eq!(
        recent_log_lines("one\r\ntwo", 10),
        vec!["one".to_string(), "two".to_string()]
    );
    assert!(recent_log_lines("a\nb", 0).is_empty());
}

#[test]
fn inbox_record_names() {
    assert_eq!(StatsRequestKind::Stats.name(), "stats");
    assert_eq!(StatsRequestKind::Ping.name(), "ping");
    assert_eq!(LifecycleAction::Start.name(), "start");
    assert_eq!(LifecycleAction::Stop.name(), "stop");
}

#[test]
fn unique_temp_paths_do_not_collide_and_keep_directory() {
    let first = temp_extension(Some("json5"), 4242, 0);
    let second = temp_extension(Some("json5"), 4242, 1);
    assert_ne!(first, second);
    assert_eq!(first, "json5.4242.0.tmp");
    assert_eq!(temp_extension(None, 7, 12), "7.12.tmp");
    assert!(!first.contains('/') && !first.contains('\\'));
    assert_eq!(state_temp_file_name(Some("bank.json")), "bank.json.tmp");
    assert_eq!(state_temp_file_name(None), "bank-cooldowns.json.tmp");
}

#[test]
fn bank_cooldown_blocks_a_second_use_until_it_expires() {
    let store = BankCooldownStore::new("bank.json".to_string(), 1_000);
    let mut data = StringMap::new();
    assert_eq!(
        store.try_mark_use_at(" Main ", 10_000, &mut data),
        BankCooldownDecision::Ready
    );
    assert_eq!(data.lookup("main"), Some(&10_000));
    assert_eq!(
        store.try_mark_use_at("MAIN", 10_400, &mut data),
        BankCooldownDecision::Wait { remaining_ms: 600 }
    );
    assert_eq!(data.lookup("main"), Some(&10_000));
    assert_eq!(
        store.try_mark_use_at("main", 11_000, &mut data),
        BankCooldownDecision::Ready
    );
    assert_eq!(data.lookup("main"), Some(&11_000));
    assert_eq!(
        store.try_mark_use_at("   ", 11_000, &mut data),
        BankCooldownDecision::Ready
    );
}

#[test]
fn bank_cooldown_configuration() {
    assert_eq!(bank_cooldown_key("  MixedCase "), "mixedcase");
    assert_eq!(BankCooldownStore::new("p".to_string(), 0).cooldown_ms, 1);
    let store = BankCooldownStore::for_base_dir(Some("  /tmp/bank.json "), Some("5000"), "default.json");
    assert_eq!(store.path, "/tmp/bank.json");
    assert_eq!(store.cooldown_ms, 5000);
    let store = BankCooldownStore::for_base_dir(Some("  "), Some("zero"), "default.json");
    assert_eq!(store.path, "default.json");
    assert_eq!(store.cooldown_ms, DEFAULT_BANK_COOLDOWN_MS);
    assert_eq!(
        default_bank_cooldown_path("/srv", true),
        "/srv/SAF-bot/SavedData/bank-cooldowns.json"
    );
    assert_eq!(
        default_bank_cooldown_path("/srv/", false),
        "/srv/SavedData/bank-cooldowns.json"
    );
}

#[test]
fn socket_host_comes_from_the_url_parser() {
    assert_eq!(
        cofl_socket_host("wss://sky-us.coflnet.com/modsocket?SId=x"),
        Some("sky-us.coflnet.com".to_string())
    );
    assert_eq!(
        cofl_socket_host("ws://localhost:8080/modsocket"),
        Some("localhost:8080".to_string())
    );
    assert_eq!(
        cofl_socket_host("ws://[::1]:9000/x"),
        Some("[::1]:9000".to_string())
    );
    assert_eq!(cofl_socket_host("not a url"), None);
}

#[test]
fn second_silent_open_falls_back_and_backs_off_the_region() {
    let link = "wss://sky-us.coflnet.com/modsocket";
    let default_link = "wss://sky.coflnet.com/modsocket";
    let mut watchdog = CoflSilentOpenWatchdog::new();
    assert_eq!(
        watchdog.retry_link_after_silent_open(link, default_link, 1_000, 60_000),
        link
    );
    assert!(!watchdog.is_region_backed_off(link, 1_000));
    assert_eq!(
        watchdog.retry_link_after_silent_open(link, default_link, 2_000, 60_000),
        default_link
    );
    assert!(watchdog.is_region_backed_off(link, 61_999));
    assert!(!watchdog.is_region_backed_off(link, 62_000));
    watchdog.clear_count(link);
    assert_eq!(
        watchdog.retry_link_after_silent_open(link, default_link, 3_000, 60_000),
        link
    );
}

#[test]
fn default_region_is_never_backed_off() {
    let link = "wss://sky.coflnet.com/modsocket";
    let mut watchdog = CoflSilentOpenWatchdog::new();
    watchdog.backoff_region(link, u64::MAX);
    assert!(!watchdog.is_region_backed_off(link, 0));
}

#[test]
fn passive_chat_categories_count_per_category() {
    let mut counts = PassiveChatCategories::new();
    assert_eq!(counts.next_passive_chat_category_count("sold"), 1);
    assert_eq!(counts.next_passive_chat_category_count("sold"), 2);
    assert_eq!(counts.next_passive_chat_category_count("bought"), 1);
    assert_eq!(counts.next_passive_chat_category_count("sold"), 3);
}

#[test]
fn all_gates_open_stages_the_account() {
    let mut forcer = LiveCookieForcer::new(true, true);
    assert_eq!(forcer.force_cookie("MainAccount"), Ok(()));
    assert_eq!(forcer.force_cookie("MainAccount"), Ok(()));
    assert_eq!(forcer.take_requests(), vec!["MainAccount".to_string()]);
    assert!(forcer.take_requests().is_empty());
}

#[test]
fn auto_cookie_disabled_errors_and_stages_nothing() {
    let mut forcer = LiveCookieForcer::new(true, false);
    let error = forcer.force_cookie("MainAccount").unwrap_err();
    assert_eq!(error, ForceCookieError::AutoCookieDisabled);
    assert_eq!(
        error.message(),
        "Auto-cookie threshold is disabled in config (autoCookie); set a non-zero value to buy cookies."
    );
    assert!(forcer.take_requests().is_empty());
}

#[test]
fn cookies_disabled_errors_and_stages_nothing() {
    let mut forcer = LiveCookieForcer::new(false, true);
    let error = forcer.force_cookie("MainAccount").unwrap_err();
    assert_eq!(error, ForceCookieError::CookiesDisabled);
    assert_eq!(
        error.message(),
        "Cookie buying is disabled in config (useCookie/relist)."
    );
    assert!(forcer.take_requests().is_empty());
}

#[test]
fn auto_cookie_gate_and_route() {
    assert_eq!(auto_cookie_gate(true, true, true, Some(1), None), CookieGate::NotApplicable);
    assert_eq!(auto_cookie_gate(false, false, true, Some(1), None), CookieGate::NotApplicable);
    assert_eq!(auto_cookie_gate(false, true, true, None, None), CookieGate::Disabled);
    assert_eq!(auto_cookie_gate(false, true, true, Some(10), Some(11)), CookieGate::EnoughTime);
    assert_eq!(
        auto_cookie_gate(false, true, true, Some(10), Some(10)),
        CookieGate::CheckPurseAndPrice
    );
    assert_eq!(
        auto_cookie_gate(false, true, true, Some(10), None),
        CookieGate::CheckPurseAndPrice
    );
    assert_eq!(cookie_buy_route(false, true), CookieBuyRoute::RecordDryRun);
    assert_eq!(cookie_buy_route(true, false), CookieBuyRoute::NoClient);
    assert_eq!(cookie_buy_route(true, true), CookieBuyRoute::StartPurchase);
}

#[test]
fn auto_cookie_purchase_walks_its_windows() {
    let mut pending = PendingAutoCookie::new(Some(5), 100);
    assert_eq!(pending.phase, AutoCookiePhase::AwaitingBazaar);
    assert_eq!(pending.plan_window(None, 200), None);
    assert_eq!(
        pending.plan_window(Some(11), 200),
        Some(AutoCookieWindowAction::Click {
            slot: 11,
            next: AutoCookiePhase::AwaitingAmount
        })
    );
    pending.phase = AutoCookiePhase::AwaitingConfirm;
    assert_eq!(
        pending.plan_window(Some(13), 1_000),
        Some(AutoCookieWindowAction::ClickAndPrepareActivation {
            slot: 13,
            due_at: 1_000 + COOKIE_ACTIVATION_DELAY_NS
        })
    );
    pending.phase = AutoCookiePhase::PreparingActivation { due_at: 5 };
    assert_eq!(pending.plan_window(Some(13), 1_000), None);
    pending.phase = AutoCookiePhase::AwaitingConsumeConfirm;
    assert_eq!(
        pending.plan_window(Some(7), 1_000),
        Some(AutoCookieWindowAction::ClickConsume { slot: 7 })
    );
    assert_eq!(pending.activated_cookie_duration(), 5 + COOKIE_DURATION_NS);
    assert_eq!(
        PendingAutoCookie::new(None, 0).activated_cookie_duration(),
        COOKIE_DURATION_NS
    );
    assert!(!pending.timed_out(100 + 59_999_999_999));
    assert!(pending.timed_out(100 + 60_000_000_000));
}

#[test]
fn rotation_schedule_steps_alternate_start_and_stop() {
    let schedule = AutoRotateSchedule {
        account: "Main".to_string(),
        first: AutoRotateLeg {
            phase: AutoRotatePhase::Rest,
            duration_ms: 1_000,
        },
        second: AutoRotateLeg {
            phase: AutoRotatePhase::Flip,
            duration_ms: 2_000,
        },
    };
    assert!(schedule.rest_first());
    let steps = schedule.action_steps();
    assert_eq!(steps[0].delay_ms, 2_000);
    assert_eq!(steps[0].action, ScheduledAccountAction::Start);
    assert_eq!(steps[0].next_delay_ms, 1_000);
    assert_eq!(steps[1].delay_ms, 1_000);
    assert_eq!(steps[1].action, ScheduledAccountAction::Stop);
    assert_eq!(steps[1].next_delay_ms, 2_000);

    let startup = vec!["Main".to_string(), "Alt".to_string()];
    assert_eq!(
        startup_runtime_accounts_with_rotation(&startup, &vec![schedule]),
        vec!["Alt".to_string()]
    );
}

#[test]
fn rotation_values_and_messages() {
    assert_eq!(
        auto_rotate_legs("r2:f3"),
        Some(("r2".to_string(), "f3".to_string()))
    );
    assert_eq!(
        auto_rotate_legs("a:b:c"),
        Some(("a".to_string(), "b:c".to_string()))
    );
    assert_eq!(auto_rotate_legs("r2"), None);
    assert_eq!(
        rest_first_waiting_message("Main", 1_700_000_000),
        "`Main` rests first and will log on in <t:1700000000:R>."
    );
    assert_eq!(
        rotation_action_message("Main", ScheduledAccountAction::Start, 5),
        (
            "Started flipping".to_string(),
            "Logged in as `Main`.\nWill log off in <t:5:R>.".to_string()
        )
    );
    assert_eq!(
        rotation_action_message("Main", ScheduledAccountAction::Stop, 6),
        (
            "Killed bot".to_string(),
            "Stopped `Main`.\nWill log on in <t:6:R>.".to_string()
        )
    );
}

#[test]
fn environment_values() {
    assert!(env_truthy(" TRUE "));
    assert!(env_truthy("1"));
    assert!(!env_truthy("yes"));
    assert_eq!(env_u64(Some("250"), 9), 250);
    assert_eq!(env_u64(Some("0"), 9), 9);
    assert_eq!(env_u64(Some("abc"), 9), 9);
    assert_eq!(env_u64(None, 9), 9);
    assert_eq!(env_optional_duration_ms(None, 30), Some(30));
    assert!(native_minecraft_enabled(Some(" Azalea ")));
    assert!(!native_minecraft_enabled(Some("recorded")));
    assert!(!native_minecraft_enabled(None));
}

#[test]
fn chat_and_message_rules() {
    assert!(should_upload_scoreboard(&vec!["Purse: 1,000".to_string()]));
    assert!(!should_upload_scoreboard(&vec!["Bits: 10".to_string()]));
    assert!(is_bad_modification_message(
        "You were kicked for using Badly Behaving Modifications"
    ));
    assert!(is_window_wait_disconnect("client disconnected while waiting for window"));
    assert!(!is_window_wait_disconnect("disconnected"));
    assert_eq!(plural_suffix(1), "");
    assert_eq!(plural_suffix(0), "s");
    assert_eq!(plural_suffix(2), "s");
    assert!(is_expected_blocked_chat_command("  /TIP all"));
    assert!(!is_expected_blocked_chat_command("/tipall"));
    assert_eq!(default_amount(), "all");
}

#[test]
fn claim_amount_rules() {
    assert!(tracked_collection_amount_should_replace_claim(100, 100_000));
    assert!(!tracked_collection_amount_should_replace_claim(0, 100_000));
    assert!(!tracked_collection_amount_should_replace_claim(99_500, 100_000));
    assert_eq!(claim_notification_collected_coins(100, Some(100_000)), 100_000);
    assert_eq!(claim_notification_collected_coins(99_500, Some(100_000)), 99_500);
    assert_eq!(claim_notification_collected_coins(42, None), 42);
}

#[test]
fn cofl_session_rules() {
    assert_eq!(normalize_cofl_session_id("  abc "), Some("abc".to_string()));
    assert_eq!(normalize_cofl_session_id("   "), None);
    assert_eq!(cofl_session_with_env(Some(" env "), "configured"), "env");
    assert_eq!(cofl_session_with_env(Some("  "), " configured "), "configured");
    assert_eq!(cofl_session_with_env(None, ""), "");
    assert_eq!(cofl_session_for_link("configured", Some("embedded")), "embedded");
    assert_eq!(cofl_session_for_link(" configured ", None), "configured");
}

#[test]
fn time_arithmetic_saturates() {
    assert_eq!(signed_millis_delta(1_500, 1_000), 500);
    assert_eq!(signed_millis_delta(1_000, 1_500), -500);
    assert_eq!(signed_millis_delta(u64::MAX, 0), i64::MAX);
    assert_eq!(timed_bed_click_at(Some(10_000), 3_000, 5_000), Some(2_000));
    assert_eq!(timed_bed_click_at(Some(10_000), 3_000, 7_000), None);
    assert_eq!(timed_bed_click_at(Some(1_000), 3_000, 0), None);
    assert_eq!(timed_bed_click_at(None, 3_000, 0), None);
    assert_eq!(unix_timestamp_after(1_000, 2_500), 3);
    assert_eq!(unix_timestamp_after(u64::MAX, 5), u64::MAX / 1000);
}

#[test]
fn full_inventory_message_needs_both_phrases() {
    assert!(!full_inventory_cookie_message("hello"));
}

use saf_app::cofl_connection::{
    command_account_mismatch, initial_scoreboard_upload_due, CoflConnectionState, LinkSwitch,
    ReconnectBackoff, StartupAccountInfoState,
};
use saf_app::recorders::{
    AccountScheduleRequest, RecordedAccountScheduler, tee_queue_added, tee_queue_cleared, tee_saved_data_clear, RecordedAccountSupervisor,
    RecordedSavedDataStore, RecordedStatsProvider, SavedDataClear,
};
use saf_app::runtime_rules::{bed_click_delay_ms, cofl_execute_chat_allowed, cofl_settings_guard_disabled};

#[test]
fn reconnect_backoff_doubles_up_to_its_cap() {
    let mut backoff = ReconnectBackoff::new(5_000, 60_000);
    assert!(backoff.should_attempt(0));
    backoff.record_failure(1_000, 0);
    assert_eq!(backoff.next_attempt, Some(6_000));
    assert_eq!(backoff.next_delay, 10_000);
    assert!(!backoff.should_attempt(5_999));
    assert!(backoff.should_attempt(6_000));
    for _ in 0..5 {
        backoff.record_failure(1_000, 0);
    }
    assert_eq!(backoff.next_delay, 60_000);
    backoff.record_success();
    assert_eq!(backoff.next_delay, 5_000);
    assert_eq!(backoff.next_attempt, None);
    backoff.record_deferred_attempt(100, 1_000);
    assert_eq!(backoff.next_attempt, Some(1_100));

    let mut humanized = ReconnectBackoff::with_humanizer(0, 0);
    assert_eq!(humanized.min_delay, 1);
    assert_eq!(humanized.max_delay, 0);
    humanized.record_failure(10, 7);
    assert_eq!(humanized.next_attempt, Some(11));
    assert_eq!(humanized.next_delay, 0);
    let mut humanized = ReconnectBackoff::with_humanizer(2_000, 30_000);
    humanized.record_failure(0, 9_000);
    assert_eq!(humanized.next_delay, 9_000);
}

#[test]
fn silent_socket_falls_back_to_the_default_link() {
    let link = "wss://sky-us.coflnet.com/modsocket";
    let default_link = "wss://sky.coflnet.com/modsocket";
    let mut state = CoflConnectionState::new(
        link.to_string(),
        default_link.to_string(),
        ReconnectBackoff::new(5_000, 60_000),
    );
    assert_eq!(state.reconnect_silent_open(100_000, 30_000, 600_000), None);
    state.record_connected(1_000);
    assert_eq!(state.reconnect_silent_open(30_999, 30_000, 600_000), None);
    assert_eq!(
        state.reconnect_silent_open(31_000, 30_000, 600_000),
        Some(link.to_string())
    );
    assert!(!state.connected);
    assert_eq!(state.backoff.next_attempt, Some(32_000));
    state.record_connected(40_000);
    assert_eq!(
        state.reconnect_silent_open(70_000, 30_000, 600_000),
        Some(default_link.to_string())
    );
    assert_eq!(state.link, default_link);
    assert_eq!(state.switch_link(link, 70_001, true), LinkSwitch::IgnoredBackedOffRegion);
    assert_eq!(state.link, default_link);
}

#[test]
fn a_message_clears_the_silent_count() {
    let link = "wss://sky-us.coflnet.com/modsocket";
    let mut state = CoflConnectionState::new(
        link.to_string(),
        "wss://sky.coflnet.com/modsocket".to_string(),
        ReconnectBackoff::new(5_000, 60_000),
    );
    state.record_connected(0);
    assert!(state.reconnect_silent_open(30_000, 30_000, 1).is_some());
    state.record_connected(40_000);
    state.record_message(40_500);
    assert_eq!(state.reconnect_silent_open(90_000, 30_000, 1), None);
    state.disconnect(90_000, 0);
    assert!(!state.connected);
    assert_eq!(state.backoff.next_attempt, Some(95_000));
}

#[test]
fn link_switches_respect_the_humanizer() {
    let mut state = CoflConnectionState::new(
        "wss://sky.coflnet.com/modsocket".to_string(),
        "wss://sky.coflnet.com/modsocket".to_string(),
        ReconnectBackoff::new(5_000, 60_000),
    );
    assert_eq!(
        state.switch_link("wss://sky-eu.coflnet.com/modsocket", 1_000, false),
        LinkSwitch::DeferredByHumanizer
    );
    assert_eq!(state.link, "wss://sky.coflnet.com/modsocket");
    assert_eq!(
        state.switch_link("wss://sky-eu.coflnet.com/modsocket", 2_000, true),
        LinkSwitch::Switched
    );
    assert_eq!(state.link, "wss://sky-eu.coflnet.com/modsocket");
    assert_eq!(state.backoff.next_attempt, Some(7_000));
    assert_eq!(
        state.switch_link("wss://sky-eu.coflnet.com/modsocket", 3_000, false),
        LinkSwitch::Switched
    );
}

#[test]
fn startup_account_info_is_asked_for_every_ten_seconds() {
    let mut info = StartupAccountInfoState::new();
    assert!(info.request_due_at(100, 100));
    info.mark_requested_at(100, 200);
    assert!(!info.request_due_at(100, 10_199));
    assert!(info.request_due_at(100, 10_200));
    assert!(info.request_due_at(5_000, 300));
    info.mark_accepted();
    assert!(!info.request_due_at(5_000, 300));
    info.reset();
    assert!(info.request_due_at(5_000, 300));
}

#[test]
fn initial_scoreboard_upload_waits_and_happens_once_per_connection() {
    assert!(!initial_scoreboard_upload_due(true, 1_000, 6_499, None));
    assert!(initial_scoreboard_upload_due(true, 1_000, 6_500, None));
    assert!(!initial_scoreboard_upload_due(false, 1_000, 6_500, None));
    assert!(!initial_scoreboard_upload_due(true, 1_000, 9_000, Some(1_000)));
    assert!(initial_scoreboard_upload_due(true, 1_000, 9_000, Some(500)));
    assert_eq!(command_account_mismatch("Main", "Main"), None);
    assert_eq!(
        command_account_mismatch("Main", "Alt"),
        Some("cofl websocket is configured for Main, not Alt".to_string())
    );
}

#[test]
fn recorded_saved_data_clear_empties_the_queue() {
    let mut queue: RecordedQueueStore<u32, &str> = RecordedQueueStore::new();
    queue.add("Main".to_string(), 1, "buying", 1);
    queue.add("Main".to_string(), 2, "buying", 1);
    queue.add("Alt".to_string(), 3, "buying", 1);
    let mut store = RecordedSavedDataStore::new(queue);
    let result = store.clear_saved_data("Main");
    assert_eq!(result, SavedDataClear { queue_removed: 2, bid_data_cleared: false });
    assert_eq!(store.queue.entries().len(), 1);
    assert_eq!(store.records.len(), 1);
    assert_eq!(store.records[0].account, "Main");
    let merged = tee_saved_data_clear(1, SavedDataClear { queue_removed: 3, bid_data_cleared: true });
    assert_eq!(merged, SavedDataClear { queue_removed: 3, bid_data_cleared: true });
    assert!(tee_queue_added(false, true));
    assert_eq!(tee_queue_cleared(4, 2), 4);
}

#[test]
fn recorders_keep_requests_in_order() {
    let mut stats = RecordedStatsProvider::new();
    stats.record("Main", StatsRequestKind::Stats);
    stats.record("Alt", StatsRequestKind::Ping);
    assert_eq!(stats.records.len(), 2);
    assert_eq!(stats.records[1].kind, StatsRequestKind::Ping);
    let mut supervisor = RecordedAccountSupervisor::new();
    supervisor.start("Main");
    supervisor.stop(None);
    assert_eq!(supervisor.actions[0].action, LifecycleAction::Start);
    assert_eq!(supervisor.actions[0].account.as_deref(), Some("Main"));
    assert_eq!(supervisor.actions[1].action, LifecycleAction::Stop);
    assert_eq!(supervisor.actions[1].account, None);
}

#[test]
fn cofl_environment_switches() {
    assert!(cofl_execute_chat_allowed(Some(" 1 ")));
    assert!(!cofl_execute_chat_allowed(Some("true")));
    assert!(!cofl_execute_chat_allowed(None));
    assert!(cofl_settings_guard_disabled(Some(" OFF ")));
    assert!(cofl_settings_guard_disabled(Some("Disabled")));
    assert!(!cofl_settings_guard_disabled(Some("on")));
    assert!(!cofl_settings_guard_disabled(None));
    assert_eq!(bed_click_delay_ms(0), 1);
    assert_eq!(bed_click_delay_ms(25), 25);
}

#[test]
fn auto_rotate_legs_split_into_phase_and_hours() {
    assert_eq!(auto_rotate_leg_parts(" R2.5 "), Some((AutoRotatePhase::Rest, "2.5".to_string())));
    assert_eq!(auto_rotate_leg_parts("1.5f"), Some((AutoRotatePhase::Flip, "1.5".to_string())));
    assert_eq!(auto_rotate_leg_parts("fr 3 rf"), Some((AutoRotatePhase::Rest, "3".to_string())));
    assert_eq!(auto_rotate_leg_parts("2"), None);
}

#[test]
fn auto_rotate_value_splits_at_its_first_colon() {
    assert_eq!(
        auto_rotate_schedule_parts("2r:4f"),
        Some(((AutoRotatePhase::Rest, "2".to_string()), (AutoRotatePhase::Flip, "4".to_string())))
    );
    assert_eq!(
        auto_rotate_schedule_parts(" 1.5F : R3 "),
        Some(((AutoRotatePhase::Flip, "1.5".to_string()), (AutoRotatePhase::Rest, "3".to_string())))
    );
    assert_eq!(auto_rotate_schedule_parts("2r"), None);
    assert_eq!(auto_rotate_schedule_parts("2x:4f"), None);
    assert_eq!(
        auto_rotate_schedule_parts("2r:4f:1r"),
        Some(((AutoRotatePhase::Rest, "2".to_string()), (AutoRotatePhase::Rest, "4f:1".to_string())))
    );
}

#[test]
fn privacy_filter_uploads_only_lines_its_pattern_finds() {
    let mut filter = CoflPrivacyFilter::new();
    assert!(!filter.matches("anything"));
    assert_eq!(filter.update("(?i)sold for"), Ok(()));
    assert!(filter.matches("[Auction] Someone SOLD FOR 5 coins"));
    assert!(!filter.matches("You purchased a sword"));
    assert_eq!(filter.update("foo(bar"), Err(PrivacyRegexError::InvalidPattern));
    assert!(filter.matches("sold for 1 coin"));
    assert_eq!(PrivacyRegexError::InvalidPattern.message(), "invalid Cofl privacy chat regex");
}

#[test]
fn recorded_scheduler_accepts_requests_as_asked() {
    let mut scheduler = RecordedAccountScheduler::new();
    let result = scheduler.schedule(AccountScheduleRequest {
        account: "Main".to_string(),
        action: ScheduledAccountAction::Stop,
        delay_ms: 60_000,
    });
    assert_eq!(result.account, "Main");
    assert_eq!(result.action, ScheduledAccountAction::Stop);
    assert_eq!(result.delay_ms, 60_000);
    assert_eq!(scheduler.records.len(), 1);
    assert_eq!(scheduler.records[0].delay_ms, 60_000);
}

#[test]
fn recorded_blacklist_store_records_each_request() {
    let mut store = RecordedBlacklistStore::new();
    let listed = store.apply("Main", BlacklistRequest::List);
    assert!(listed.changed);
    assert_eq!(listed.summary, "listed blacklist rules");
    let update = BlacklistUpdateInput {
        action: BlacklistAction::Add,
        scope: BlacklistScope::Buy,
        field: BlacklistField::Tag,
        value: "SPEED_RELIC".to_string(),
    };
    let updated = store.apply("Alt", BlacklistRequest::Update(update));
    assert_eq!(updated.summary, "Add Buy.Tag SPEED_RELIC");
    assert_eq!(store.records.len(), 2);
    assert_eq!(store.records[1].account, "Alt");
    assert_eq!(store.records[1].summary, "Add Buy.Tag SPEED_RELIC");
    assert!(matches!(store.records[0].request, BlacklistRequest::List));
}
