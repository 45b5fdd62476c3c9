//! Reconciling an account's auctions through the game's windows: which
//! handler a window goes to, and the decisions each handler takes.  The
//! window readings and queue lookups arrive as facts; times are
//! milliseconds of a monotonic clock.
use vstd::prelude::*;
use crate::text::{chars_of, concat_chars, decimal, decimal_chars, eq_ignore_ascii_case, eq_ignore_case, str_equal, string_of};
use crate::gui_window::{
    lower_text_contains, title_contains, title_mentions, window_text, window_text_of, WindowView,
};
use crate::text::{contains, lower_seq};
use crate::runtime_rules::plural_suffix;

verus! {

/// How long a step is left to work before it is retried.
pub const MARKET_STEP_RETRY_INTERVAL_MS: u64 = 5000;

/// What the open window is, as far as reconciliation cares.
#[derive(Clone, Copy, Debug, PartialEq, Eq, Structural)]
pub struct ReconcileWindowFacts {
    /// The queue entry being worked on is a reconciliation entry.
    pub reconcile_entry: bool,
    pub create_auction_window: bool,
    pub confirm_auction_window: bool,
    /// The slot of a sold auction's claim action, if the window has one.
    pub sold_claim_slot: Option<usize>,
    /// A click that opens a sold auction's claim action is pending.
    pub sold_claim_expected: bool,
    pub auction_view_window: bool,
    pub manage_auctions_window: bool,
}

/// Which handler takes the window.
#[derive(Clone, Copy, Debug, PartialEq, Eq, Structural)]
pub enum ReconcileRoute {
    /// Not a reconciliation window: leave it.
    NotHandled,
    DraftCreate,
    DraftConfirm,
    SoldClaimAction(usize),
    WaitForSoldClaimAction,
    CloseUnrelated,
    ManageAuctions,
}

/// The handler, tried in order: drafts first, then a sold auction's claim
/// action (only when one is expected), then a stray auction view, then the
/// auction management window.
pub open spec fn reconcile_route(f: ReconcileWindowFacts) -> ReconcileRoute {
    if !f.reconcile_entry {
        ReconcileRoute::NotHandled
    } else if f.create_auction_window {
        ReconcileRoute::DraftCreate
    } else if f.confirm_auction_window {
        ReconcileRoute::DraftConfirm
    } else if f.sold_claim_slot is Some && f.sold_claim_expected {
        ReconcileRoute::SoldClaimAction(f.sold_claim_slot->0)
    } else if f.sold_claim_expected {
        ReconcileRoute::WaitForSoldClaimAction
    } else if f.auction_view_window {
        ReconcileRoute::CloseUnrelated
    } else if !f.manage_auctions_window {
        ReconcileRoute::NotHandled
    } else {
        ReconcileRoute::ManageAuctions
    }
}

pub fn route_reconcile_window(f: ReconcileWindowFacts) -> (r: ReconcileRoute)
    ensures
        r == reconcile_route(f),
{
    if !f.reconcile_entry {
        return ReconcileRoute::NotHandled;
    }
    if f.create_auction_window {
        return ReconcileRoute::DraftCreate;
    }
    if f.confirm_auction_window {
        return ReconcileRoute::DraftConfirm;
    }
    if let Some(slot) = f.sold_claim_slot {
        if f.sold_claim_expected {
            return ReconcileRoute::SoldClaimAction(slot);
        }
    }
    if f.sold_claim_expected {
        return ReconcileRoute::WaitForSoldClaimAction;
    }
    if f.auction_view_window {
        return ReconcileRoute::CloseUnrelated;
    }
    if !f.manage_auctions_window {
        return ReconcileRoute::NotHandled;
    }
    ReconcileRoute::ManageAuctions
}

/// What to do in the management window when nothing can be claimed.
#[derive(Clone, Copy, Debug, PartialEq, Eq, Structural)]
pub enum NoClaimPlan {
    /// Open the pending auction draft through the create-auction slot.
    OpenDraft(usize),
    /// Close the window, finish the entry and queue the purchased-bids work.
    CloseAndQueueBids,
    /// Nothing to claim or recover.
    Nothing,
}

/// A draft is reopened when the entry allows it, an auction slot is free
/// and the window offers the create-auction slot; otherwise, with market
/// actions on and bid data saved, the bids follow-up is queued.
pub open spec fn no_claim_plan(
    recover_draft: bool,
    slots_full: bool,
    create_slot: Option<usize>,
    market_actions: bool,
    has_bid_data: bool,
) -> NoClaimPlan {
    if recover_draft && !slots_full && create_slot is Some {
        NoClaimPlan::OpenDraft(create_slot->0)
    } else if market_actions && has_bid_data {
        NoClaimPlan::CloseAndQueueBids
    } else {
        NoClaimPlan::Nothing
    }
}

pub fn plan_without_claim(
    recover_draft: bool,
    slots_full: bool,
    create_slot: Option<usize>,
    market_actions: bool,
    has_bid_data: bool,
) -> (r: NoClaimPlan)
    ensures
        r == no_claim_plan(recover_draft, slots_full, create_slot, market_actions, has_bid_data),
{
    if recover_draft && !slots_full {
        if let Some(slot) = create_slot {
            return NoClaimPlan::OpenDraft(slot);
        }
    }
    if market_actions && has_bid_data {
        NoClaimPlan::CloseAndQueueBids
    } else {
        NoClaimPlan::Nothing
    }
}

/// Whether to claim: an expired-only claim whose relists are all queued
/// already is skipped, and the entry finished.
pub open spec fn skip_claim(sold_count: usize, claimed_expired: usize, relists_all_queued: bool) -> bool {
    sold_count == 0 && claimed_expired > 0 && relists_all_queued
}

pub fn should_skip_claim(sold_count: usize, claimed_expired: usize, relists_all_queued: bool) -> (r: bool)
    ensures
        r == skip_claim(sold_count, claimed_expired, relists_all_queued),
{
    sold_count == 0 && claimed_expired > 0 && relists_all_queued
}

/// After a claim click: a sold auction claimed one by one opens its claim
/// action next, which is then awaited; otherwise the claim is finished.
pub fn claim_opens_sold_action(sold_count: usize, claim_all: bool) -> (r: bool)
    ensures
        r == (sold_count > 0 && !claim_all),
{
    sold_count > 0 && !claim_all
}

/// Waiting for a sold auction's claim action window.
#[derive(Clone, Copy, Debug, PartialEq, Eq, Structural)]
pub enum SoldClaimWait {
    /// No matching pending step: leave the window.
    NotHandled,
    /// The click is recent: keep waiting.
    Wait,
    /// The click got no answer: close the window and retry the entry.
    CloseStale,
}

/// `last_attempt` is when the matching pending step was tried, if there
/// is one.
pub fn sold_claim_wait(last_attempt: Option<u64>, now: u64) -> (r: SoldClaimWait)
    ensures
        last_attempt is None ==> r == SoldClaimWait::NotHandled,
        last_attempt matches Some(t) ==> r == (if now >= t && now - t >= MARKET_STEP_RETRY_INTERVAL_MS {
            SoldClaimWait::CloseStale
        } else {
            SoldClaimWait::Wait
        }),
{
    match last_attempt {
        None => SoldClaimWait::NotHandled,
        Some(t) => if now >= t && now - t >= MARKET_STEP_RETRY_INTERVAL_MS {
            SoldClaimWait::CloseStale
        } else {
            SoldClaimWait::Wait
        },
    }
}

/// Why a draft window is closed instead of submitted or confirmed.
#[derive(Clone, Copy, Debug, PartialEq, Eq, Structural)]
pub enum DraftCloseReason {
    NoDraft,
    NoExpectedListing,
    UnexpectedItem,
    UnexpectedPrice,
    UntrackedConfirmation,
    UnexpectedConfirmationPrice,
}

impl DraftCloseReason {
    /// The reason recorded with the close.
    pub fn text(&self) -> (r: &'static str)
        ensures
            *self == DraftCloseReason::NoDraft ==> r@ == "no pending auction draft"@,
            *self == DraftCloseReason::NoExpectedListing ==> r@
                == "close pending auction draft without expected listing price"@,
            *self == DraftCloseReason::UnexpectedItem ==> r@ == "close pending auction draft with unexpected item"@,
            *self == DraftCloseReason::UnexpectedPrice ==> r@ == "close pending auction draft with unexpected price"@,
            *self == DraftCloseReason::UntrackedConfirmation ==> r@ == "close untracked pending auction confirmation"@,
            *self == DraftCloseReason::UnexpectedConfirmationPrice ==> r@
                == "close pending auction confirmation with unexpected price"@,
    {
        match self {
            DraftCloseReason::NoDraft => "no pending auction draft",
            DraftCloseReason::NoExpectedListing => "close pending auction draft without expected listing price",
            DraftCloseReason::UnexpectedItem => "close pending auction draft with unexpected item",
            DraftCloseReason::UnexpectedPrice => "close pending auction draft with unexpected price",
            DraftCloseReason::UntrackedConfirmation => "close untracked pending auction confirmation",
            DraftCloseReason::UnexpectedConfirmationPrice => "close pending auction confirmation with unexpected price",
        }
    }
}

/// A draft found in the create-auction window.
#[derive(Clone, Debug)]
pub struct PendingDraft {
    pub item_uuid: String,
    pub list_price: u64,
}

/// The listing the queue entry expects.
#[derive(Clone, Debug)]
pub struct ExpectedListing {
    pub inventory_uuid: Option<String>,
    pub list_price: u64,
}

/// What to do with a create-auction window.
#[derive(Clone, Copy, Debug, PartialEq, Eq, Structural)]
pub enum DraftCreatePlan {
    Close(DraftCloseReason),
    /// The entry expects no listing: try to recover the draft as a listing
    /// of its own, closing the window if that is not done.
    RecoverOrClose,
    Submit,
}

/// A draft is submitted only when it is the listing the entry expects: the
/// same item (case aside) when the entry names one, and the same price.
pub open spec fn draft_create_plan(draft: Option<PendingDraft>, expected: Option<ExpectedListing>) -> DraftCreatePlan {
    match draft {
        None => DraftCreatePlan::Close(DraftCloseReason::NoDraft),
        Some(d) => match expected {
            None => DraftCreatePlan::RecoverOrClose,
            Some(e) => if e.inventory_uuid matches Some(u) && !eq_ignore_case(u@, d.item_uuid@) {
                DraftCreatePlan::Close(DraftCloseReason::UnexpectedItem)
            } else if e.list_price != d.list_price {
                DraftCreatePlan::Close(DraftCloseReason::UnexpectedPrice)
            } else {
                DraftCreatePlan::Submit
            },
        },
    }
}

pub fn plan_draft_create(draft: &Option<PendingDraft>, expected: &Option<ExpectedListing>) -> (r: DraftCreatePlan)
    ensures
        r == draft_create_plan(*draft, *expected),
{
    let d = match draft {
        None => {
            return DraftCreatePlan::Close(DraftCloseReason::NoDraft);
        },
        Some(d) => d,
    };
    let e = match expected {
        None => {
            return DraftCreatePlan::RecoverOrClose;
        },
        Some(e) => e,
    };
    if let Some(u) = &e.inventory_uuid {
        if !eq_ignore_ascii_case(&chars_of(u.as_str()), &chars_of(d.item_uuid.as_str())) {
            return DraftCreatePlan::Close(DraftCloseReason::UnexpectedItem);
        }
    }
    if e.list_price != d.list_price {
        return DraftCreatePlan::Close(DraftCloseReason::UnexpectedPrice);
    }
    DraftCreatePlan::Submit
}

/// Whether an untracked draft may be recovered as a listing of its own:
/// only with market actions and relisting on, for an entry that allows it.
pub fn may_recover_untracked_draft(market_actions: bool, relist: bool, entry_allows: bool) -> (r: bool)
    ensures
        r == (market_actions && relist && entry_allows),
{
    market_actions && relist && entry_allows
}

/// What to do with an auction confirmation window.
#[derive(Clone, Copy, Debug, PartialEq, Eq, Structural)]
pub enum DraftConfirmPlan {
    Close(DraftCloseReason),
    Confirm,
}

/// A confirmation is accepted only right after a tracked draft submit and,
/// when the entry expects a price, only if the window shows that price.
pub open spec fn draft_confirm_plan(submit_expected: bool, expected_price: Option<u64>, window_shows_price: bool) -> DraftConfirmPlan {
    if !submit_expected {
        DraftConfirmPlan::Close(DraftCloseReason::UntrackedConfirmation)
    } else if expected_price is Some && !window_shows_price {
        DraftConfirmPlan::Close(DraftCloseReason::UnexpectedConfirmationPrice)
    } else {
        DraftConfirmPlan::Confirm
    }
}

/// `window_shows_price` is whether the window shows the expected price
/// (looked up only when there is one).
pub fn plan_draft_confirm(submit_expected: bool, expected_price: Option<u64>, window_shows_price: bool) -> (r: DraftConfirmPlan)
    ensures
        r == draft_confirm_plan(submit_expected, expected_price, window_shows_price),
{
    if !submit_expected {
        return DraftConfirmPlan::Close(DraftCloseReason::UntrackedConfirmation);
    }
    if expected_price.is_some() && !window_shows_price {
        return DraftConfirmPlan::Close(DraftCloseReason::UnexpectedConfirmationPrice);
    }
    DraftConfirmPlan::Confirm
}

/// The step pending for an account, as far as the checks below read it.
#[derive(Clone, Copy, Debug, PartialEq, Eq, Structural)]
pub struct PendingStepFacts {
    /// The pending step's entry is the current entry.
    pub same_entry: bool,
    /// Both entries are reconciliation entries.
    pub both_reconcile: bool,
    /// The pending step clicks a slot; which one.
    pub click_slot: Option<usize>,
    pub opens_sold_claim_action: bool,
}

/// A sold auction's claim action is expected: the pending step belongs to
/// this entry (or both are reconciliations), opens the claim action and is
/// a click.
pub fn sold_claim_action_is_expected(pending: Option<PendingStepFacts>) -> (r: bool)
    ensures
        r == (pending matches Some(p) && (p.same_entry || p.both_reconcile) && p.opens_sold_claim_action
            && p.click_slot is Some),
{
    match pending {
        Some(p) => (p.same_entry || p.both_reconcile) && p.opens_sold_claim_action && p.click_slot.is_some(),
        None => false,
    }
}

/// The slot that submits an auction draft.
pub const SUBMIT_DRAFT_SLOT: usize = 29;

/// A draft submit is expected: the pending step belongs to this entry and
/// clicked the submit slot.
pub fn draft_submit_is_expected(pending: Option<PendingStepFacts>) -> (r: bool)
    ensures
        r == (pending matches Some(p) && p.same_entry && p.click_slot == Some(SUBMIT_DRAFT_SLOT)),
{
    match pending {
        Some(p) => p.same_entry && match p.click_slot {
            Some(s) => s == SUBMIT_DRAFT_SLOT,
            None => false,
        },
        None => false,
    }
}

/// A reconciliation queue state: `reconcileAuctions` or `claimSold`.
pub fn is_reconcile_state(name: &str) -> (r: bool)
    ensures
        r == (name@ == "reconcileAuctions"@ || name@ == "claimSold"@),
{
    str_equal(name, "reconcileAuctions") || str_equal(name, "claimSold")
}

/// The purchased-bids queue state.
pub fn is_bids_state(name: &str) -> (r: bool)
    ensures
        r == (name@ == "bids"@),
{
    str_equal(name, "bids")
}

/// Whether a reconciliation entry with the given `reason` may reopen a
/// pending draft: entries without a reason, manual ones, and those queued
/// because a listing's status was unclear or slots ran short.
pub fn should_recover_pending_draft(reason: Option<&str>) -> (r: bool)
    ensures
        r == (match reason {
            None => true,
            Some(x) => x@ == ""@ || x@ == "manual"@ || x@ == "manual-discord"@ || x@ == "listing-status-unclear"@
                || x@ == "slot-pressure"@,
        }),
{
    match reason {
        None => true,
        Some(x) => str_equal(x, "") || str_equal(x, "manual") || str_equal(x, "manual-discord") || str_equal(
            x,
            "listing-status-unclear",
        ) || str_equal(x, "slot-pressure"),
    }
}

/// The bids window: its title mentions bids.
pub fn is_bids_window(w: &WindowView) -> (r: bool)
    ensures
        r == title_mentions(*w, "bids"@),
{
    title_contains(w, "bids")
}

/// The create-auction window: its title mentions both words.
pub fn is_create_auction_window(w: &WindowView) -> (r: bool)
    ensures
        r == (title_mentions(*w, "create"@) && title_mentions(*w, "auction"@)),
{
    title_contains(w, "create") && title_contains(w, "auction")
}

/// The text recorded with a claim: how many sold and expired auctions it
/// collects.
pub open spec fn claim_reason_text(sold: usize, expired: usize) -> Seq<char> {
    if sold == 0 && expired == 0 {
        "auction reconciliation claim"@
    } else if expired == 0 {
        "claim "@ + decimal(sold as nat) + " sold auction"@ + (if sold == 1 { ""@ } else { "s"@ })
    } else if sold == 0 {
        "claim "@ + decimal(expired as nat) + " expired auction"@ + (if expired == 1 { ""@ } else { "s"@ })
    } else {
        "claim "@ + decimal(sold as nat) + " sold and "@ + decimal(expired as nat) + " expired auction"@ + (
        if expired == 1 { ""@ } else { "s"@ })
    }
}

pub fn claim_reason(sold: usize, expired: usize) -> (r: String)
    ensures
        r@ == claim_reason_text(sold, expired),
{
    if sold == 0 && expired == 0 {
        return "auction reconciliation claim".to_owned();
    }
    let mut out = chars_of("claim ");
    if expired == 0 {
        out = concat_chars(&out, &decimal_chars(sold as u64));
        out = concat_chars(&out, &chars_of(" sold auction"));
        out = concat_chars(&out, &chars_of(plural_suffix(sold)));
    } else if sold == 0 {
        out = concat_chars(&out, &decimal_chars(expired as u64));
        out = concat_chars(&out, &chars_of(" expired auction"));
        out = concat_chars(&out, &chars_of(plural_suffix(expired)));
    } else {
        out = concat_chars(&out, &decimal_chars(sold as u64));
        out = concat_chars(&out, &chars_of(" sold and "));
        out = concat_chars(&out, &decimal_chars(expired as u64));
        out = concat_chars(&out, &chars_of(" expired auction"));
        out = concat_chars(&out, &chars_of(plural_suffix(expired)));
    }
    string_of(&out)
}


/// Whether a pending draft whose entry gives `reason` may be recovered when
/// the runtime did not track it: the manual reasons, a poll or slot
/// pressure, or startup.
pub fn should_recover_untracked_pending_draft(reason: Option<&str>) -> (r: bool)
    ensures
        r == (match reason {
            None => true,
            Some(x) => x@ == ""@ || x@ == "manual"@ || x@ == "manual-discord"@ || x@ == "listing-status-unclear"@
                || x@ == "regular-poll"@ || x@ == "slot-pressure"@ || x@ == "startup"@,
        }),
{
    match reason {
        None => true,
        Some(x) => str_equal(x, "") || str_equal(x, "manual") || str_equal(x, "manual-discord") || str_equal(
            x,
            "listing-status-unclear",
        ) || str_equal(x, "regular-poll") || str_equal(x, "slot-pressure") || str_equal(x, "startup"),
    }
}

/// An auction's own view: its title mentions `auction view` or `view auction`.
pub fn is_auction_view_window(w: &WindowView) -> (r: bool)
    ensures
        r == (title_mentions(*w, "auction view"@) || title_mentions(*w, "view auction"@)),
{
    title_contains(w, "auction view") || title_contains(w, "view auction")
}

/// The confirmation of a new auction: the title mentions `confirm` and
/// `auction`, or the window's text mentions `confirm auction` or `confirm bin`.
pub fn is_confirm_auction_window(w: &WindowView) -> (r: bool)
    ensures
        r == ((title_mentions(*w, "confirm"@) && title_mentions(*w, "auction"@)) || contains(
            lower_seq(window_text(*w)),
            "confirm auction"@,
        ) || contains(lower_seq(window_text(*w)), "confirm bin"@)),
{
    if title_contains(w, "confirm") && title_contains(w, "auction") {
        return true;
    }
    let text = window_text_of(w);
    lower_text_contains(&text, "confirm auction") || lower_text_contains(&text, "confirm bin")
}

} // verus!
