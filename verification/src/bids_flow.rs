//! Claiming auctions won by bidding: which slots of the bids window may be
//! claimed, what the window handler does, and the relists of claimed bids
//! that wait to be written to the queue.  Times are milliseconds of a
//! monotonic clock.
use vstd::prelude::*;
use crate::gui_diagnostics::{slot_text, slot_text_of};
use crate::gui_window::WindowSlotView;
use crate::text::{chars_of, contains, contains_chars, str_equal};

verus! {

/// What the handler does with the bids window.
#[derive(Clone, Copy, Debug, PartialEq, Eq, Structural)]
pub enum BidsPlan {
    /// Not the bids work or not the bids window: leave it.
    NotHandled,
    /// Nothing to claim: close the window and finish the entry.
    CloseNoClaim,
    /// Claim the bid in this slot.
    Claim(usize),
}

/// `first_claim` is the slot of the first claimable bid, if any.
pub fn bids_window_plan(bids_entry: bool, bids_window: bool, first_claim: Option<usize>) -> (r: BidsPlan)
    ensures
        !(bids_entry && bids_window) ==> r == BidsPlan::NotHandled,
        bids_entry && bids_window ==> r == (match first_claim {
            Some(s) => BidsPlan::Claim(s),
            None => BidsPlan::CloseNoClaim,
        }),
{
    if !bids_entry || !bids_window {
        return BidsPlan::NotHandled;
    }
    match first_claim {
        Some(s) => BidsPlan::Claim(s),
        None => BidsPlan::CloseNoClaim,
    }
}

/// A slot of the bids window, as far as claiming reads it.
#[derive(Clone, Debug)]
pub struct BidSlotFacts {
    pub slot: usize,
    pub item_uuid: Option<String>,
    /// The slot shows a won bid.
    pub purchased: bool,
}

/// The slot belongs to the player's own inventory, shown in the last 36
/// slots of a window that has more than 36.
pub open spec fn player_inventory_slot(total: nat, slot: usize) -> bool {
    total > 36 && slot >= total - 36
}

/// A slot worth looking up: outside the player's inventory, holding an
/// item with an id, showing a won bid.
pub open spec fn bid_candidate(total: nat, s: BidSlotFacts) -> bool {
    !player_inventory_slot(total, s.slot) && s.item_uuid is Some && s.purchased
}

/// The candidate slots among `slots`, in order.
pub open spec fn candidates(slots: Seq<BidSlotFacts>, total: nat) -> Seq<BidSlotFacts>
    decreases slots.len(),
{
    if slots.len() == 0 {
        seq![]
    } else {
        let rest = candidates(slots.drop_last(), total);
        if bid_candidate(total, slots.last()) {
            rest.push(slots.last())
        } else {
            rest
        }
    }
}

/// The positions in `slots` of the slots worth looking up for a
/// claimable bid (their bid data is looked up next), in order.
pub fn bid_claim_candidates(slots: &Vec<BidSlotFacts>) -> (r: Vec<usize>)
    ensures
        r@.len() == candidates(slots@, slots@.len()).len(),
        forall|k: int| 0 <= k < r@.len() ==> #[trigger] r@[k] < slots@.len() && slots@[r@[k] as int] == candidates(slots@, slots@.len())[k],
{
    let total = slots.len();
    let mut r: Vec<usize> = Vec::new();
    let mut i: usize = 0;
    while i < total
        invariant
            i <= total,
            total == slots@.len(),
            r@.len() == candidates(slots@.take(i as int), total as nat).len(),
            forall|k: int| 0 <= k < r@.len() ==> #[trigger] r@[k] < i && slots@[r@[k] as int] == candidates(slots@.take(i as int), total as nat)[k],
        decreases total - i,
    {
        assert(slots@.take(i + 1).drop_last() =~= slots@.take(i as int));
        assert(slots@.take(i + 1).last() == slots@[i as int]);
        let s = &slots[i];
        let in_inventory = total > 36 && s.slot >= total - 36;
        if !in_inventory && s.item_uuid.is_some() && s.purchased {
            r.push(i);
        }
        i = i + 1;
    }
    assert(slots@.take(total as int) =~= slots@);
    r
}

/// A claimed bid whose relist still has to be written to the queue.
#[derive(Clone, Debug)]
pub struct PendingClaimedBidRelist<A> {
    pub account: String,
    pub item_uuid: String,
    pub listing_action: A,
    pub ready_at: u64,
}

/// The relists of `s` whose time has come (`ready`) or not.
pub open spec fn with_readiness<A>(s: Seq<PendingClaimedBidRelist<A>>, now: u64, ready: bool) -> Seq<PendingClaimedBidRelist<A>>
    decreases s.len(),
{
    if s.len() == 0 {
        seq![]
    } else {
        let rest = with_readiness(s.drop_last(), now, ready);
        if (s.last().ready_at <= now) == ready {
            rest.push(s.last())
        } else {
            rest
        }
    }
}

/// Splits the waiting relists into those due at `now` and the others,
/// keeping their order.
pub fn partition_ready<A>(relists: Vec<PendingClaimedBidRelist<A>>, now: u64) -> (r: (Vec<PendingClaimedBidRelist<A>>, Vec<PendingClaimedBidRelist<A>>))
    ensures
        r.0@ == with_readiness(relists@, now, true),
        r.1@ == with_readiness(relists@, now, false),
{
    let ghost all = relists@;
    let mut rest = relists;
    let mut ready: Vec<PendingClaimedBidRelist<A>> = Vec::new();
    let mut waiting: Vec<PendingClaimedBidRelist<A>> = Vec::new();
    let mut j: usize = 0;
    let n = rest.len();
    assert(all.skip(0) =~= all);
    while rest.len() > 0
        invariant
            j <= all.len(),
            all.len() == n,
            rest@ == all.skip(j as int),
            ready@ == with_readiness(all.take(j as int), now, true),
            waiting@ == with_readiness(all.take(j as int), now, false),
        decreases rest.len(),
    {
        let x = rest.remove(0);
        assert(all[j as int] == x);
        proof {
            assert(all.take(j + 1).drop_last() =~= all.take(j as int));
            assert(all.take(j + 1).last() == x);
            assert(rest@ =~= all.skip(j + 1));
        }
        if x.ready_at <= now {
            ready.push(x);
        } else {
            waiting.push(x);
        }
        j = j + 1;
    }
    assert(all.take(j as int) =~= all);
    (ready, waiting)
}

/// Some waiting relist is for this account and item.
pub open spec fn relist_waiting<A>(s: Seq<PendingClaimedBidRelist<A>>, account: Seq<char>, item_uuid: Seq<char>) -> bool {
    exists|i: int| 0 <= i < s.len() && #[trigger] s[i].account@ == account && s[i].item_uuid@ == item_uuid
}

/// Puts a claimed bid's relist aside to retry at `ready_at`, unless one
/// for the same account and item is already waiting.
pub fn defer_claimed_bid_relist<A>(pending: &mut Vec<PendingClaimedBidRelist<A>>, relist: PendingClaimedBidRelist<A>)
    ensures
        relist_waiting(old(pending)@, relist.account@, relist.item_uuid@) ==> final(pending)@ == old(pending)@,
        !relist_waiting(old(pending)@, relist.account@, relist.item_uuid@) ==> final(pending)@ == old(pending)@.push(relist),
{
    let mut i: usize = 0;
    while i < pending.len()
        invariant
            i <= pending.len(),
            pending@ == old(pending)@,
            forall|k: int| 0 <= k < i ==> !(#[trigger] pending@[k].account@ == relist.account@ && pending@[k].item_uuid@ == relist.item_uuid@),
        decreases pending.len() - i,
    {
        if str_equal(pending[i].account.as_str(), relist.account.as_str()) && str_equal(
            pending[i].item_uuid.as_str(),
            relist.item_uuid.as_str(),
        ) {
            return;
        }
        i = i + 1;
    }
    pending.push(relist);
}

/// Splitting the waiting relists loses none and duplicates none: each one
/// lands in exactly one of the two parts.
pub proof fn lemma_partition_complete<A>(s: Seq<PendingClaimedBidRelist<A>>, now: u64)
    ensures
        with_readiness(s, now, true).len() + with_readiness(s, now, false).len() == s.len(),
        forall|i: int| 0 <= i < with_readiness(s, now, true).len() ==> #[trigger] with_readiness(s, now, true)[i].ready_at <= now,
        forall|i: int| 0 <= i < with_readiness(s, now, false).len() ==> #[trigger] with_readiness(s, now, false)[i].ready_at > now,
    decreases s.len(),
{
    if s.len() > 0 {
        lemma_partition_complete(s.drop_last(), now);
        let t = with_readiness(s.drop_last(), now, true);
        let f = with_readiness(s.drop_last(), now, false);
        if s.last().ready_at <= now {
            assert forall|i: int| 0 <= i < t.push(s.last()).len() implies #[trigger] t.push(s.last())[i].ready_at <= now by {
                if i < t.len() {
                    assert(t.push(s.last())[i] == t[i]);
                }
            }
        } else {
            assert forall|i: int| 0 <= i < f.push(s.last()).len() implies #[trigger] f.push(s.last())[i].ready_at > now by {
                if i < f.len() {
                    assert(f.push(s.last())[i] == f[i]);
                }
            }
        }
    }
}

/// The slot shows a bid that was won and can be claimed.
pub open spec fn purchased_bid_slot(s: WindowSlotView) -> bool {
    let t = slot_text(s);
    ||| contains(t, "click to claim"@)
    ||| contains(t, "claim item"@)
    ||| contains(t, "you won"@)
    ||| contains(t, "you bought"@)
    ||| contains(t, "you purchased"@)
    ||| contains(t, "status: won"@)
    ||| contains(t, "status: purchased"@)
    ||| contains(t, "status: ended"@)
}

pub fn is_purchased_bid_slot(s: &WindowSlotView) -> (r: bool)
    ensures
        r == purchased_bid_slot(*s),
{
    let t = slot_text_of(s);
    contains_chars(&t, &chars_of("click to claim")) || contains_chars(&t, &chars_of("claim item"))
        || contains_chars(&t, &chars_of("you won")) || contains_chars(&t, &chars_of("you bought"))
        || contains_chars(&t, &chars_of("you purchased")) || contains_chars(&t, &chars_of("status: won"))
        || contains_chars(&t, &chars_of("status: purchased")) || contains_chars(&t, &chars_of("status: ended"))
}

} // verus!
