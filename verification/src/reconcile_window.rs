//! Reading the Manage Auctions window: which auctions sold, which expired,
//! and which slot to click to claim them.
use vstd::prelude::*;
use crate::blacklist_rules::{strip_color_codes, strip_colors};
use crate::gui_diagnostics::{slot_text, slot_text_of};
use crate::gui_window::{title_mentions, title_contains, WindowSlotView, WindowView};
use crate::text::{chars_of, contains, contains_chars, lower_chars, lower_seq, str_equal};

verus! {

/// What the reconciliation reads from one slot of the Manage Auctions window.
#[derive(Clone, Copy, Debug, PartialEq, Eq, Structural)]
pub struct ReconcileSlotFacts {
    pub slot: usize,
    /// The slot claims everything at once.
    pub claim_all: bool,
    /// The slot shows a sold auction.
    pub sold: bool,
    /// The slot mentions `expired`.
    pub expired: bool,
    /// The slot's seller line names someone other than the account.
    pub sold_by_coop: bool,
    /// The expired auction's item and price could be read off the slot.
    pub expired_auction_known: bool,
}

/// A sold auction that the reconciliation claims: with the co-op guard on,
/// not one a co-op member sold.
pub open spec fn counted_sold(f: ReconcileSlotFacts, angry_coop_prevention: bool) -> bool {
    f.sold && !(angry_coop_prevention && f.sold_by_coop)
}

/// An expired auction that the reconciliation claims and relists.
pub open spec fn counted_expired(f: ReconcileSlotFacts) -> bool {
    !f.sold && f.expired && f.expired_auction_known
}

/// The slot numbers of the counted sold auctions, in window order.
pub open spec fn sold_slots(s: Seq<ReconcileSlotFacts>, angry: bool) -> Seq<usize>
    decreases s.len(),
{
    if s.len() == 0 {
        seq![]
    } else {
        let rest = sold_slots(s.drop_last(), angry);
        if counted_sold(s.last(), angry) {
            rest.push(s.last().slot)
        } else {
            rest
        }
    }
}

/// The positions (in `s`) of the counted expired auctions, in window order.
pub open spec fn expired_positions(s: Seq<ReconcileSlotFacts>) -> Seq<usize>
    decreases s.len(),
{
    if s.len() == 0 {
        seq![]
    } else {
        let rest = expired_positions(s.drop_last());
        if counted_expired(s.last()) {
            rest.push((s.len() - 1) as usize)
        } else {
            rest
        }
    }
}

/// The last slot that claims everything, if any.
pub open spec fn claim_all_slot(s: Seq<ReconcileSlotFacts>) -> Option<usize>
    decreases s.len(),
{
    if s.len() == 0 {
        None
    } else if s.last().claim_all {
        Some(s.last().slot)
    } else {
        claim_all_slot(s.drop_last())
    }
}

/// The claim the reconciliation makes.
pub struct AuctionReconcilePlan {
    /// The slot to click.
    pub claim_slot: usize,
    /// The click claims everything.
    pub claim_all: bool,
    pub sold_count: usize,
    pub expired_count: usize,
    /// Positions (among the slot facts) of the expired auctions the click claims.
    pub claimed_expired: Vec<usize>,
}

pub struct PlanModel {
    pub claim_slot: usize,
    pub claim_all: bool,
    pub sold_count: nat,
    pub expired_count: nat,
    pub claimed_expired: Seq<usize>,
}

pub open spec fn plan_model(p: AuctionReconcilePlan) -> PlanModel {
    PlanModel {
        claim_slot: p.claim_slot,
        claim_all: p.claim_all,
        sold_count: p.sold_count as nat,
        expired_count: p.expired_count as nat,
        claimed_expired: p.claimed_expired@,
    }
}

/// The claim for a Manage Auctions window: with a claim-all slot, that slot
/// claims every sold and expired auction (nothing when there is none);
/// otherwise the first sold auction, else the first expired one, alone.
pub open spec fn reconcile_plan(s: Seq<ReconcileSlotFacts>, angry: bool) -> Option<PlanModel> {
    let sold = sold_slots(s, angry);
    let expired = expired_positions(s);
    match claim_all_slot(s) {
        Some(c) => if sold.len() == 0 && expired.len() == 0 {
            None
        } else {
            Some(PlanModel { claim_slot: c, claim_all: true, sold_count: sold.len(), expired_count: expired.len(), claimed_expired: expired })
        },
        None => if sold.len() > 0 {
            Some(PlanModel { claim_slot: sold[0], claim_all: false, sold_count: sold.len(), expired_count: expired.len(), claimed_expired: seq![] })
        } else if expired.len() > 0 {
            Some(PlanModel { claim_slot: s[expired[0] as int].slot, claim_all: false, sold_count: sold.len(), expired_count: expired.len(), claimed_expired: seq![expired[0]] })
        } else {
            None
        },
    }
}

proof fn lemma_counts_bounded(s: Seq<ReconcileSlotFacts>, angry: bool)
    ensures
        sold_slots(s, angry).len() <= s.len(),
        expired_positions(s).len() <= s.len(),
        forall|k: int| 0 <= k < expired_positions(s).len() ==> #[trigger] expired_positions(s)[k] < s.len(),
    decreases s.len(),
{
    if s.len() > 0 {
        lemma_counts_bounded(s.drop_last(), angry);
    }
}

/// Plans the claim for the window whose slots are `slots`; `None` when the
/// window is not Manage Auctions (`manage_window` false) or nothing is to
/// be claimed (see `reconcile_plan`).
pub fn reconcile_auction_window(manage_window: bool, slots: &Vec<ReconcileSlotFacts>, angry_coop_prevention: bool) -> (r: Option<AuctionReconcilePlan>)
    ensures
        !manage_window ==> r is None,
        manage_window ==> match r {
            Some(p) => reconcile_plan(slots@, angry_coop_prevention) == Some(plan_model(p)),
            None => reconcile_plan(slots@, angry_coop_prevention) is None,
        },
{
    if !manage_window {
        return None;
    }
    let mut claim_all: Option<usize> = None;
    let mut sold: Vec<usize> = Vec::new();
    let mut expired: Vec<usize> = Vec::new();
    let mut i: usize = 0;
    while i < slots.len()
        invariant
            i <= slots.len(),
            claim_all == claim_all_slot(slots@.take(i as int)),
            sold@ == sold_slots(slots@.take(i as int), angry_coop_prevention),
            expired@ == expired_positions(slots@.take(i as int)),
        decreases slots.len() - i,
    {
        let f = slots[i];
        proof {
            assert(slots@.take(i + 1).drop_last() =~= slots@.take(i as int));
            assert(slots@.take(i + 1).last() == f);
            assert(slots@.take(i + 1).len() - 1 == i);
        }
        if f.claim_all {
            claim_all = Some(f.slot);
        }
        if f.sold && !(angry_coop_prevention && f.sold_by_coop) {
            sold.push(f.slot);
        } else if !f.sold && f.expired && f.expired_auction_known {
            expired.push(i);
        }
        i = i + 1;
    }
    proof {
        assert(slots@.take(slots.len() as int) =~= slots@);
        lemma_counts_bounded(slots@, angry_coop_prevention);
    }
    let sold_count = sold.len();
    let expired_count = expired.len();
    match claim_all {
        Some(c) => {
            if sold_count == 0 && expired_count == 0 {
                return None;
            }
            Some(AuctionReconcilePlan { claim_slot: c, claim_all: true, sold_count, expired_count, claimed_expired: expired })
        },
        None => {
            if sold_count > 0 {
                Some(AuctionReconcilePlan { claim_slot: sold[0], claim_all: false, sold_count, expired_count, claimed_expired: Vec::new() })
            } else if expired_count > 0 {
                let first = expired[0];
                let mut claimed: Vec<usize> = Vec::new();
                claimed.push(first);
                assert(claimed@ =~= seq![first]);
                Some(AuctionReconcilePlan { claim_slot: slots[first].slot, claim_all: false, sold_count, expired_count, claimed_expired: claimed })
            } else {
                None
            }
        },
    }
}

/// The slot claims everything: a cauldron, or a slot that mentions `claim all`.
pub open spec fn claim_all_slot_view(s: WindowSlotView) -> bool {
    s.name@ == "cauldron"@ || contains(slot_text(s), "claim all"@)
}

pub fn is_claim_all_slot(s: &WindowSlotView) -> (r: bool)
    ensures
        r == claim_all_slot_view(*s),
{
    if str_equal(s.name.as_str(), "cauldron") {
        return true;
    }
    let text = slot_text_of(s);
    contains_chars(&text, &chars_of("claim all"))
}

/// The slot shows a sold auction: it names a buyer and says the auction
/// sold, ended or completed, or offers to claim or collect it.
pub open spec fn sold_slot_view(s: WindowSlotView) -> bool {
    let t = slot_text(s);
    &&& contains(t, "buyer:"@)
    &&& (contains(t, "sold"@) || contains(t, "claim"@) || contains(t, "collect"@) || contains(t, "auction ended"@)
        || contains(t, "ended!"@) || contains(t, "completed"@))
}

pub fn is_sold_auction_slot(s: &WindowSlotView) -> (r: bool)
    ensures
        r == sold_slot_view(*s),
{
    let t = slot_text_of(s);
    contains_chars(&t, &chars_of("buyer:")) && (contains_chars(&t, &chars_of("sold")) || contains_chars(
        &t,
        &chars_of("claim"),
    ) || contains_chars(&t, &chars_of("collect")) || contains_chars(&t, &chars_of("auction ended"))
        || contains_chars(&t, &chars_of("ended!")) || contains_chars(&t, &chars_of("completed")))
}

/// The first lore line that, with colour codes removed and lower-cased,
/// mentions `seller:`; colour codes removed.
pub open spec fn seller_line_of(lore: Seq<String>) -> Option<Seq<char>>
    decreases lore.len(),
{
    if lore.len() == 0 {
        None
    } else if contains(lower_seq(strip_colors(lore[0]@)), "seller:"@) {
        Some(strip_colors(lore[0]@))
    } else {
        seller_line_of(lore.drop_first())
    }
}

/// The slot's seller line names someone other than `account` (compared
/// without case).
pub open spec fn sold_by_coop(s: WindowSlotView, account: Seq<char>) -> bool {
    seller_line_of(s.lore@) matches Some(line) && !contains(lower_seq(line), lower_seq(account))
}

pub fn is_sold_by_coop(s: &WindowSlotView, account: &str) -> (r: bool)
    ensures
        r == sold_by_coop(*s, account@),
{
    let mut i: usize = 0;
    assert(s.lore@.skip(0) =~= s.lore@);
    while i < s.lore.len()
        invariant
            i <= s.lore.len(),
            seller_line_of(s.lore@) == seller_line_of(s.lore@.skip(i as int)),
        decreases s.lore.len() - i,
    {
        let line = strip_color_codes(&chars_of(s.lore[i].as_str()));
        let lower = lower_chars(&line);
        proof {
            assert(s.lore@.skip(i as int)[0] == s.lore@[i as int]);
            assert(s.lore@.skip(i as int).drop_first() =~= s.lore@.skip(i + 1));
        }
        if contains_chars(&lower, &chars_of("seller:")) {
            let me = lower_chars(&chars_of(account));
            return !contains_chars(&lower, &me);
        }
        i = i + 1;
    }
    assert(s.lore@.skip(s.lore.len() as int).len() == 0);
    false
}

/// The facts of one Manage Auctions slot for `account`; whether its
/// expired auction could be read is given by the caller.
pub fn reconcile_slot_facts(s: &WindowSlotView, account: &str, expired_auction_known: bool) -> (r: ReconcileSlotFacts)
    ensures
        r.slot == s.slot,
        r.claim_all == claim_all_slot_view(*s),
        r.sold == sold_slot_view(*s),
        r.expired == contains(slot_text(*s), "expired"@),
        r.sold_by_coop == sold_by_coop(*s, account@),
        r.expired_auction_known == expired_auction_known,
{
    let text = slot_text_of(s);
    ReconcileSlotFacts {
        slot: s.slot,
        claim_all: is_claim_all_slot(s),
        sold: is_sold_auction_slot(s),
        expired: contains_chars(&text, &chars_of("expired")),
        sold_by_coop: is_sold_by_coop(s, account),
        expired_auction_known,
    }
}

/// The slot of an auction's own view that claims its coins: the action
/// slot, when it holds a gold block or mentions claiming or collecting
/// coins or the auction.
pub open spec fn claim_candidate(s: WindowSlotView) -> bool {
    let t = slot_text(s);
    s.name@ == "gold_block"@ || ((contains(t, "claim"@) || contains(t, "collect"@)) && (contains(t, "coin"@)
        || contains(t, "auction"@)))
}

pub open spec fn first_with_slot(slots: Seq<WindowSlotView>, slot: usize) -> Option<WindowSlotView>
    decreases slots.len(),
{
    if slots.len() == 0 {
        None
    } else if slots[0].slot == slot {
        Some(slots[0])
    } else {
        first_with_slot(slots.drop_first(), slot)
    }
}

/// In an auction's own view, the action slot `action_slot` when it claims
/// the sold auction's coins.
pub fn sold_claim_action_slot(w: &WindowView, action_slot: usize) -> (r: Option<usize>)
    ensures
        !(title_mentions(*w, "auction view"@) || title_mentions(*w, "view auction"@)) ==> r is None,
        (title_mentions(*w, "auction view"@) || title_mentions(*w, "view auction"@)) ==> r == (match first_with_slot(w.slots@, action_slot) {
            Some(s) => if claim_candidate(s) {
                Some(action_slot)
            } else {
                None
            },
            None => None,
        }),
{
    if !(title_contains(w, "auction view") || title_contains(w, "view auction")) {
        return None;
    }
    let mut i: usize = 0;
    assert(w.slots@.skip(0) =~= w.slots@);
    while i < w.slots.len()
        invariant
            i <= w.slots.len(),
            title_mentions(*w, "auction view"@) || title_mentions(*w, "view auction"@),
            first_with_slot(w.slots@, action_slot) == first_with_slot(w.slots@.skip(i as int), action_slot),
        decreases w.slots.len() - i,
    {
        proof {
            assert(w.slots@.skip(i as int)[0] == w.slots@[i as int]);
            assert(w.slots@.skip(i as int).drop_first() =~= w.slots@.skip(i + 1));
        }
        if w.slots[i].slot == action_slot {
            let s = &w.slots[i];
            let t = slot_text_of(s);
            let candidate = str_equal(s.name.as_str(), "gold_block") || ((contains_chars(&t, &chars_of("claim"))
                || contains_chars(&t, &chars_of("collect"))) && (contains_chars(&t, &chars_of("coin"))
                || contains_chars(&t, &chars_of("auction"))));
            if candidate {
                return Some(action_slot);
            }
            return None;
        }
        i = i + 1;
    }
    assert(w.slots@.skip(w.slots.len() as int).len() == 0);
    None
}

/// The claim's reason as recorded with the step (see `claim_reason`).
pub fn plan_reason(p: &AuctionReconcilePlan) -> (r: String)
    ensures
        r@ == crate::reconcile_flow::claim_reason_text(p.sold_count, p.expired_count),
{
    crate::reconcile_flow::claim_reason(p.sold_count, p.expired_count)
}

proof fn lemma_sold_slots_nonempty(s: Seq<ReconcileSlotFacts>, angry: bool, j: int)
    requires
        0 <= j < s.len(),
        counted_sold(s[j], angry),
    ensures
        sold_slots(s, angry).len() > 0,
    decreases s.len(),
{
    if j < s.len() - 1 {
        lemma_sold_slots_nonempty(s.drop_last(), angry, j);
    }
}

proof fn lemma_expired_positions_nonempty(s: Seq<ReconcileSlotFacts>, j: int)
    requires
        0 <= j < s.len(),
        counted_expired(s[j]),
    ensures
        expired_positions(s).len() > 0,
    decreases s.len(),
{
    if j < s.len() - 1 {
        lemma_expired_positions_nonempty(s.drop_last(), j);
    }
}

proof fn lemma_claim_all_slot_found(s: Seq<ReconcileSlotFacts>, i: int)
    requires
        0 <= i < s.len(),
        s[i].claim_all,
    ensures
        claim_all_slot(s) matches Some(c) && exists|k: int| 0 <= k < s.len() && (#[trigger] s[k]).claim_all && s[k].slot == c,
    decreases s.len(),
{
    if !s.last().claim_all {
        lemma_claim_all_slot_found(s.drop_last(), i);
        let c = claim_all_slot(s.drop_last())->0;
        let k = choose|k: int| 0 <= k < s.drop_last().len() && (#[trigger] s.drop_last()[k]).claim_all && s.drop_last()[k].slot == c;
        assert(s[k] == s.drop_last()[k]);
    } else {
        assert(s[s.len() - 1] == s.last());
    }
}

proof fn lemma_no_claim_all_slot(s: Seq<ReconcileSlotFacts>)
    requires
        claim_all_slot(s) is None,
    ensures
        forall|k: int| 0 <= k < s.len() ==> !(#[trigger] s[k]).claim_all,
    decreases s.len(),
{
    if s.len() > 0 {
        lemma_no_claim_all_slot(s.drop_last());
        assert forall|k: int| 0 <= k < s.len() implies !(#[trigger] s[k]).claim_all by {
            if k < s.len() - 1 {
                assert(s[k] == s.drop_last()[k]);
            }
        }
    }
}

/// With a claim-all slot in the window, every sold or expired auction is
/// claimed through it: as soon as one counted sold auction or one counted
/// expired auction is shown, the plan clicks a claim-all slot, claims
/// everything, and counts at least that auction.  Without a claim-all slot
/// the plan never claims all.
pub proof fn lemma_claim_all_claims_everything(s: Seq<ReconcileSlotFacts>, angry: bool, i: int, j: int)
    requires
        0 <= i < s.len(),
        s[i].claim_all,
        0 <= j < s.len(),
        counted_sold(s[j], angry) || counted_expired(s[j]),
    ensures
        reconcile_plan(s, angry) matches Some(p) && {
            &&& p.claim_all
            &&& exists|k: int| 0 <= k < s.len() && (#[trigger] s[k]).claim_all && s[k].slot == p.claim_slot
            &&& counted_sold(s[j], angry) ==> p.sold_count >= 1
            &&& counted_expired(s[j]) ==> p.expired_count >= 1
        },
{
    lemma_claim_all_slot_found(s, i);
    if counted_sold(s[j], angry) {
        lemma_sold_slots_nonempty(s, angry, j);
    }
    if counted_expired(s[j]) {
        lemma_expired_positions_nonempty(s, j);
    }
}

/// A window with nothing counted to claim gives no plan; a plan that does
/// not claim all clicks one counted auction's own slot, and only when no
/// slot claims everything.
pub proof fn lemma_plan_needs_something_to_claim(s: Seq<ReconcileSlotFacts>, angry: bool)
    requires
        s.len() <= usize::MAX,
    ensures
        (forall|k: int| 0 <= k < s.len() ==> !counted_sold(#[trigger] s[k], angry) && !counted_expired(s[k]))
            ==> reconcile_plan(s, angry) is None,
        match reconcile_plan(s, angry) {
            Some(p) => !p.claim_all ==> {
                &&& forall|k: int| 0 <= k < s.len() ==> !(#[trigger] s[k]).claim_all
                &&& exists|k: int| 0 <= k < s.len() && (counted_sold(#[trigger] s[k], angry) || counted_expired(s[k]))
                    && s[k].slot == p.claim_slot
            },
            None => true,
        },
{
    lemma_counts_bounded(s, angry);
    lemma_sold_members(s, angry);
    lemma_expired_members(s);
    if claim_all_slot(s) is None {
        lemma_no_claim_all_slot(s);
    }
    if sold_slots(s, angry).len() > 0 {
        assert(counted_sold_slot(s, angry, sold_slots(s, angry)[0]));
    }
    if expired_positions(s).len() > 0 {
        let e = expired_positions(s)[0];
        assert(e < s.len() && counted_expired(s[e as int]));
    }
}

/// `x` is the slot number of a counted sold auction of `s`.
pub open spec fn counted_sold_slot(s: Seq<ReconcileSlotFacts>, angry: bool, x: usize) -> bool {
    exists|k: int| 0 <= k < s.len() && counted_sold(#[trigger] s[k], angry) && s[k].slot == x
}

proof fn lemma_sold_members(s: Seq<ReconcileSlotFacts>, angry: bool)
    ensures
        forall|m: int| 0 <= m < sold_slots(s, angry).len() ==> counted_sold_slot(s, angry, #[trigger] sold_slots(s, angry)[m]),
    decreases s.len(),
{
    if s.len() > 0 {
        lemma_sold_members(s.drop_last(), angry);
        let rest = sold_slots(s.drop_last(), angry);
        assert forall|m: int| 0 <= m < sold_slots(s, angry).len() implies counted_sold_slot(
            s,
            angry,
            #[trigger] sold_slots(s, angry)[m],
        ) by {
            if m < rest.len() {
                assert(sold_slots(s, angry)[m] == rest[m]);
                assert(counted_sold_slot(s.drop_last(), angry, rest[m]));
                let k = choose|k: int| 0 <= k < s.drop_last().len() && counted_sold(#[trigger] s.drop_last()[k], angry)
                    && s.drop_last()[k].slot == rest[m];
                assert(s[k] == s.drop_last()[k]);
            } else {
                assert(s[s.len() - 1] == s.last());
                assert(counted_sold(s[s.len() - 1], angry));
            }
        }
    }
}

proof fn lemma_expired_members(s: Seq<ReconcileSlotFacts>)
    requires
        s.len() <= usize::MAX,
    ensures
        forall|m: int| 0 <= m < expired_positions(s).len() ==> (#[trigger] expired_positions(s)[m]) < s.len()
            && counted_expired(s[expired_positions(s)[m] as int]),
    decreases s.len(),
{
    if s.len() > 0 {
        lemma_expired_members(s.drop_last());
        let rest = expired_positions(s.drop_last());
        assert forall|m: int| 0 <= m < expired_positions(s).len() implies (#[trigger] expired_positions(s)[m]) < s.len()
            && counted_expired(s[expired_positions(s)[m] as int]) by {
            if m < rest.len() {
                assert(expired_positions(s)[m] == rest[m]);
                assert(s[rest[m] as int] == s.drop_last()[rest[m] as int]);
            } else {
                assert(counted_expired(s.last()));
                assert(expired_positions(s)[m] == s.len() - 1);
                assert(s[s.len() - 1] == s.last());
            }
        }
    }
}

} // verus!
