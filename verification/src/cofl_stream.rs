//! What the runtime does with one message of the Cofl socket: which of its
//! parts to act on, whether a flip may open an auction, and how the
//! settings and account-info flags move.  Reading the message and judging a
//! flip against the profit floors (floating point) happen before this step;
//! performing the actions happens after it.
use vstd::prelude::*;

verus! {

/// What a Cofl message carries, as read by the socket client.
#[derive(Clone, Copy, Debug)]
pub struct EnvelopeFacts {
    /// Cofl says the account's settings are unavailable.
    pub settings_unavailable: bool,
    /// The message is a flip.
    pub has_flip: bool,
    /// The flip falls below the configured profit floors.
    pub flip_below_floor: bool,
    /// The message carries flip telemetry.
    pub has_telemetry: bool,
    /// The message carries a text settings summary.
    pub has_settings_summary: bool,
    /// The message carries the settings as JSON.
    pub settings_json: bool,
    /// The message changes a setting.
    pub has_settings_mutation: bool,
    /// Cofl accepted the account info.
    pub account_info_ack: bool,
    /// The message holds login links.
    pub has_auth_links: bool,
    /// The message asks for a command that recovers logged-out settings.
    pub has_recovery_command: bool,
    /// The message sets the privacy chat pattern.
    pub has_privacy_regex: bool,
    /// The message asks for the inventory.
    pub inventory_request: bool,
    /// The message is the passive chat line about too many flip items in
    /// the inventory.
    pub max_flip_items_notice: bool,
    /// The message holds a command for this account and session.
    pub has_execute_instruction: bool,
}

/// The client's flags that messages move.
#[derive(Clone, Copy, Debug, PartialEq, Eq, Structural)]
pub struct StreamFlags {
    pub settings_loaded: bool,
    pub account_info_accepted: bool,
    /// A text settings summary was already asked for since the settings
    /// were last unloaded.
    pub summary_requested: bool,
}

/// What becomes of a flip.
#[derive(Clone, Copy, Debug, PartialEq, Eq, Structural)]
pub enum FlipHandling {
    /// The message holds no flip.
    NoFlip,
    /// Blocked by the profit floors.
    Blocked,
    /// Handed to the session, which may open the auction.
    Process,
    /// Recorded only: market actions are off or not ready, or the settings
    /// are not loaded.
    TrackOnly,
}

/// The actions one message asks for, in the order the runtime takes them.
#[derive(Clone, Copy, Debug, PartialEq, Eq, Structural)]
pub struct EnvelopeActions {
    pub flip: FlipHandling,
    pub record_telemetry: bool,
    /// Replace the loaded settings summary (text or JSON form).
    pub replace_settings: bool,
    /// Drop the login links waiting to be sent.
    pub clear_auth_links: bool,
    /// See whether a text settings summary must be asked for.
    pub consider_summary_request: bool,
    pub apply_settings_mutation: bool,
    pub queue_auth_links: bool,
    pub send_recovery_command: bool,
    pub set_privacy_regex: bool,
    /// How many times to answer with the inventory (0 to 2).
    pub inventory_answers: u8,
    pub execute_instruction: bool,
    /// Log the message as a passive one.
    pub log_passive: bool,
}

/// Some part of the message is acted on.
pub open spec fn observed(f: EnvelopeFacts) -> bool {
    f.has_flip || f.has_telemetry || f.has_settings_summary || f.settings_json || f.has_settings_mutation
        || f.account_info_ack || f.has_auth_links || f.has_recovery_command || f.has_privacy_regex
        || f.inventory_request || f.max_flip_items_notice || f.has_execute_instruction
}

/// The step for one message: settings reported unavailable are unloaded
/// before a flip is judged (which also forgets an earlier request for a
/// text summary); a flip below the floors is blocked, else it is
/// processed when market actions are allowed and ready and the settings are
/// loaded, else only tracked; a settings summary or JSON settings load the
/// settings and accept the account info, as does an acknowledgement of the
/// account info; the inventory is answered once for a request and once for
/// the too-many-items notice; the message is logged as passive when nothing
/// in it is acted on, or when it is that notice.
pub open spec fn envelope_step_spec(
    flags: StreamFlags,
    f: EnvelopeFacts,
    market_actions_allowed: bool,
    market_ready: bool,
) -> (StreamFlags, EnvelopeActions) {
    let loaded_at_flip = flags.settings_loaded && !f.settings_unavailable;
    let loads = f.has_settings_summary || f.settings_json;
    let flip = if !f.has_flip {
        FlipHandling::NoFlip
    } else if f.flip_below_floor {
        FlipHandling::Blocked
    } else if market_actions_allowed && market_ready && loaded_at_flip {
        FlipHandling::Process
    } else {
        FlipHandling::TrackOnly
    };
    let next = StreamFlags {
        settings_loaded: loaded_at_flip || loads,
        account_info_accepted: flags.account_info_accepted || loads || f.account_info_ack,
        summary_requested: flags.summary_requested && !f.settings_unavailable,
    };
    let actions = EnvelopeActions {
        flip,
        record_telemetry: f.has_telemetry,
        replace_settings: loads,
        clear_auth_links: loads,
        consider_summary_request: f.settings_json,
        apply_settings_mutation: f.has_settings_mutation,
        queue_auth_links: f.has_auth_links,
        send_recovery_command: f.has_recovery_command,
        set_privacy_regex: f.has_privacy_regex,
        inventory_answers: ((if f.inventory_request { 1int } else { 0int }) + (if f.max_flip_items_notice {
            1int
        } else {
            0int
        })) as u8,
        execute_instruction: f.has_execute_instruction,
        log_passive: f.max_flip_items_notice || !observed(f),
    };
    (next, actions)
}

/// Decides what one Cofl message leads to (see `envelope_step_spec`).
pub fn envelope_step(flags: StreamFlags, f: EnvelopeFacts, market_actions_allowed: bool, market_ready: bool) -> (r: (
    StreamFlags,
    EnvelopeActions,
))
    ensures
        r == envelope_step_spec(flags, f, market_actions_allowed, market_ready),
{
    let loaded_at_flip = flags.settings_loaded && !f.settings_unavailable;
    let loads = f.has_settings_summary || f.settings_json;
    let flip = if !f.has_flip {
        FlipHandling::NoFlip
    } else if f.flip_below_floor {
        FlipHandling::Blocked
    } else if market_actions_allowed && market_ready && loaded_at_flip {
        FlipHandling::Process
    } else {
        FlipHandling::TrackOnly
    };
    let observed = f.has_flip || f.has_telemetry || f.has_settings_summary || f.settings_json
        || f.has_settings_mutation || f.account_info_ack || f.has_auth_links || f.has_recovery_command
        || f.has_privacy_regex || f.inventory_request || f.max_flip_items_notice || f.has_execute_instruction;
    let mut answers: u8 = 0;
    if f.inventory_request {
        answers = answers + 1;
    }
    if f.max_flip_items_notice {
        answers = answers + 1;
    }
    let next = StreamFlags {
        settings_loaded: loaded_at_flip || loads,
        account_info_accepted: flags.account_info_accepted || loads || f.account_info_ack,
        summary_requested: flags.summary_requested && !f.settings_unavailable,
    };
    let actions = EnvelopeActions {
        flip,
        record_telemetry: f.has_telemetry,
        replace_settings: loads,
        clear_auth_links: loads,
        consider_summary_request: f.settings_json,
        apply_settings_mutation: f.has_settings_mutation,
        queue_auth_links: f.has_auth_links,
        send_recovery_command: f.has_recovery_command,
        set_privacy_regex: f.has_privacy_regex,
        inventory_answers: answers,
        execute_instruction: f.has_execute_instruction,
        log_passive: f.max_flip_items_notice || !observed,
    };
    (next, actions)
}

/// A flip opens an auction only when it is not below the profit floors,
/// market actions are allowed and ready, the settings were loaded before
/// the message, and the message does not report them unavailable; without
/// any of these it is blocked or only tracked.
pub proof fn lemma_flip_processed_only_with_loaded_settings(
    flags: StreamFlags,
    f: EnvelopeFacts,
    market_actions_allowed: bool,
    market_ready: bool,
)
    ensures
        envelope_step_spec(flags, f, market_actions_allowed, market_ready).1.flip == FlipHandling::Process <==> {
            &&& f.has_flip
            &&& !f.flip_below_floor
            &&& market_actions_allowed
            &&& market_ready
            &&& flags.settings_loaded
            &&& !f.settings_unavailable
        },
        f.has_flip && !flags.settings_loaded && !f.flip_below_floor ==> envelope_step_spec(
            flags,
            f,
            market_actions_allowed,
            market_ready,
        ).1.flip == FlipHandling::TrackOnly,
        (envelope_step_spec(flags, f, market_actions_allowed, market_ready).1.flip == FlipHandling::NoFlip) == !f.has_flip,
        (envelope_step_spec(flags, f, market_actions_allowed, market_ready).1.flip == FlipHandling::Blocked) == (f.has_flip
            && f.flip_below_floor),
{
}

} // verus!
