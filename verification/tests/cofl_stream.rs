use saf_app::cofl_stream::{envelope_step, EnvelopeFacts, FlipHandling, StreamFlags};

fn quiet() -> EnvelopeFacts {
    EnvelopeFacts {
        settings_unavailable: false,
        has_flip: false,
        flip_below_floor: false,
        has_telemetry: false,
        has_settings_summary: false,
        settings_json: false,
        has_settings_mutation: false,
        account_info_ack: false,
        has_auth_links: false,
        has_recovery_command: false,
        has_privacy_regex: false,
        inventory_request: false,
        max_flip_items_notice: false,
        has_execute_instruction: false,
    }
}

fn loaded() -> StreamFlags {
    StreamFlags { settings_loaded: true, account_info_accepted: false, summary_requested: true }
}

#[test]
fn flips_open_auctions_only_when_allowed_ready_and_loaded() {
    let flip = EnvelopeFacts { has_flip: true, ..quiet() };
    assert_eq!(envelope_step(loaded(), flip, true, true).1.flip, FlipHandling::Process);
    assert_eq!(envelope_step(loaded(), flip, false, true).1.flip, FlipHandling::TrackOnly);
    assert_eq!(envelope_step(loaded(), flip, true, false).1.flip, FlipHandling::TrackOnly);
    let below = EnvelopeFacts { flip_below_floor: true, ..flip };
    assert_eq!(envelope_step(loaded(), below, true, true).1.flip, FlipHandling::Blocked);
    let unavailable = EnvelopeFacts { settings_unavailable: true, ..flip };
    let (flags, actions) = envelope_step(loaded(), unavailable, true, true);
    assert_eq!(actions.flip, FlipHandling::TrackOnly);
    assert!(!flags.settings_loaded);
    assert!(!flags.summary_requested);
}

#[test]
fn settings_messages_load_settings_and_accept_account_info() {
    let unloaded = StreamFlags { settings_loaded: false, account_info_accepted: false, summary_requested: false };
    let (flags, actions) = envelope_step(unloaded, EnvelopeFacts { settings_json: true, ..quiet() }, true, true);
    assert!(flags.settings_loaded && flags.account_info_accepted);
    assert!(actions.replace_settings && actions.clear_auth_links && actions.consider_summary_request);
    let (flags, _) = envelope_step(unloaded, EnvelopeFacts { account_info_ack: true, ..quiet() }, true, true);
    assert!(!flags.settings_loaded && flags.account_info_accepted);
}

#[test]
fn passive_messages_and_inventory_answers() {
    let (_, actions) = envelope_step(loaded(), quiet(), true, true);
    assert!(actions.log_passive);
    assert_eq!(actions.flip, FlipHandling::NoFlip);
    let notice = EnvelopeFacts { max_flip_items_notice: true, inventory_request: true, ..quiet() };
    let (_, actions) = envelope_step(loaded(), notice, true, true);
    assert!(actions.log_passive);
    assert_eq!(actions.inventory_answers, 2);
    let (_, actions) = envelope_step(loaded(), EnvelopeFacts { has_telemetry: true, ..quiet() }, true, true);
    assert!(!actions.log_passive && actions.record_telemetry);
}
