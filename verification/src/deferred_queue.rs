//! Queue entries that could not be written when they were made wait in a
//! deferred list and are retried.  Each drain takes the entries whose time
//! has come and decides, from what the queue store reports, whether to
//! drop, write or retry each one.  Times are milliseconds of a monotonic
//! clock.
use vstd::prelude::*;
use crate::reconcile_flow::{is_bids_state, is_reconcile_state};
use crate::text::str_equal;

verus! {

/// How long a deferred entry waits before it is tried again.
pub const DEFERRED_QUEUE_RETRY_DELAY_MS: u64 = 5_000;

/// A queue entry waiting to be written: its account, action, queue state
/// and priority, and when it is next due.
#[derive(Clone, Debug)]
pub struct DeferredQueueEntry<A> {
    pub account: String,
    pub action: A,
    pub state: String,
    pub priority: u32,
    pub ready_at: u64,
}

/// The entries of `s` that are due at `now` (`ready`) or not, in order.
pub open spec fn deferred_with_readiness<A>(s: Seq<DeferredQueueEntry<A>>, now: u64, ready: bool) -> Seq<DeferredQueueEntry<A>>
    decreases s.len(),
{
    if s.len() == 0 {
        seq![]
    } else {
        let rest = deferred_with_readiness(s.drop_last(), now, ready);
        if (s.last().ready_at <= now) == ready {
            rest.push(s.last())
        } else {
            rest
        }
    }
}

/// Splits the deferred entries into those due at `now` and those still
/// waiting, keeping their order.
pub fn split_due_entries<A>(entries: Vec<DeferredQueueEntry<A>>, now: u64) -> (r: (Vec<DeferredQueueEntry<A>>, Vec<DeferredQueueEntry<A>>))
    ensures
        r.0@ == deferred_with_readiness(entries@, now, true),
        r.1@ == deferred_with_readiness(entries@, now, false),
{
    let ghost all = entries@;
    let mut rest = entries;
    let mut ready: Vec<DeferredQueueEntry<A>> = Vec::new();
    let mut waiting: Vec<DeferredQueueEntry<A>> = Vec::new();
    let mut j: usize = 0;
    let n = rest.len();
    assert(all.skip(0) =~= all);
    while rest.len() > 0
        invariant
            j <= all.len(),
            all.len() == n,
            rest@ == all.skip(j as int),
            ready@ == deferred_with_readiness(all.take(j as int), now, true),
            waiting@ == deferred_with_readiness(all.take(j as int), now, false),
        decreases rest.len(),
    {
        let x = rest.remove(0);
        assert(all[j as int] == x);
        proof {
            assert(all.take(j + 1).drop_last() =~= all.take(j as int));
            assert(all.take(j + 1).last() == x);
            assert(rest@ =~= all.skip(j + 1));
        }
        if x.ready_at <= now {
            ready.push(x);
        } else {
            waiting.push(x);
        }
        j = j + 1;
    }
    assert(all.take(j as int) =~= all);
    (ready, waiting)
}

/// What the queue already holds, entry by entry, as a deferred entry sees
/// it: a reconciliation entry, a purchased-bids entry, and the same state
/// and action as the deferred entry.
#[derive(Clone, Copy, Debug)]
pub struct QueuedEntryFacts {
    pub is_reconcile: bool,
    pub is_bids: bool,
    pub same_as_deferred: bool,
}

/// Some queued entry is one that `which` reads (see `queued_hit`).
pub open spec fn queue_has(q: Seq<QueuedEntryFacts>, which: u8) -> bool {
    exists|i: int| 0 <= i < q.len() && queued_hit(#[trigger] q[i], which)
}

/// What to do with a due deferred entry.
#[derive(Clone, Copy, Debug, PartialEq, Eq, Structural)]
pub enum DeferredStep {
    /// Nothing left to do: drop it.
    Drop,
    /// Write it to the queue (and defer it again when that fails).
    Write,
    /// The store could not be read: try again later.
    Retry,
}

/// The decision for a due entry in queue state `state`.  `bid_data` is
/// whether the account has bid data (`None` when the store could not say),
/// `queue` the account's queue (`None` when it could not be read).  A
/// purchased-bids entry is dropped without bid data; a reconciliation
/// entry when a reconciliation is queued; a purchased-bids entry when one
/// is queued; and any entry when the same state and action are queued.
pub open spec fn deferred_step_spec(state: Seq<char>, bid_data: Option<bool>, queue: Option<Seq<QueuedEntryFacts>>) -> DeferredStep {
    let bids = state == "bids"@;
    let reconcile = state == "reconcileAuctions"@ || state == "claimSold"@;
    if bids && bid_data is None {
        DeferredStep::Retry
    } else if bids && bid_data == Some(false) {
        DeferredStep::Drop
    } else {
        match queue {
            None => DeferredStep::Retry,
            Some(q) => if reconcile && queue_has(q, 0) {
                DeferredStep::Drop
            } else if bids && queue_has(q, 1) {
                DeferredStep::Drop
            } else if queue_has(q, 2) {
                DeferredStep::Drop
            } else {
                DeferredStep::Write
            },
        }
    }
}

/// The facts `which` reads: a reconciliation entry (0), a purchased-bids
/// entry (1), or the deferred entry itself (2 and up).
pub open spec fn queued_hit(f: QueuedEntryFacts, which: u8) -> bool {
    if which == 0 {
        f.is_reconcile
    } else if which == 1 {
        f.is_bids
    } else {
        f.same_as_deferred
    }
}

fn any_queued(q: &Vec<QueuedEntryFacts>, which: u8) -> (r: Option<usize>)
    ensures
        r matches Some(i) ==> i < q@.len() && queued_hit(q@[i as int], which),
        r is None ==> forall|k: int| 0 <= k < q@.len() ==> !queued_hit(#[trigger] q@[k], which),
{
    let mut i: usize = 0;
    while i < q.len()
        invariant
            i <= q.len(),
            forall|k: int| 0 <= k < i ==> !queued_hit(#[trigger] q@[k], which),
        decreases q.len() - i,
    {
        let f = q[i];
        let hit = if which == 0 {
            f.is_reconcile
        } else if which == 1 {
            f.is_bids
        } else {
            f.same_as_deferred
        };
        if hit {
            return Some(i);
        }
        i = i + 1;
    }
    None
}

/// Decides what to do with a due deferred entry (see `deferred_step_spec`).
pub fn deferred_entry_step(state: &str, bid_data: Option<bool>, queue: Option<&Vec<QueuedEntryFacts>>) -> (r: DeferredStep)
    ensures
        r == deferred_step_spec(
            state@,
            bid_data,
            match queue {
                Some(q) => Some(q@),
                None => None,
            },
        ),
{
    let bids = is_bids_state(state);
    let reconcile = is_reconcile_state(state);
    if bids {
        match bid_data {
            None => return DeferredStep::Retry,
            Some(false) => return DeferredStep::Drop,
            Some(true) => {},
        }
    }
    let q = match queue {
        None => return DeferredStep::Retry,
        Some(q) => q,
    };
    let ghost qs = Some(q@);
    assert(match queue {
        Some(x) => Some(x@),
        None => None::<Seq<QueuedEntryFacts>>,
    } == qs);
    if reconcile {
        match any_queued(q, 0) {
            Some(i) => {
                assert(queued_hit(q@[i as int], 0));
                assert(queue_has(q@, 0));
                return DeferredStep::Drop;
            },
            None => {},
        }
    }
    if bids {
        match any_queued(q, 1) {
            Some(i) => {
                assert(queued_hit(q@[i as int], 1));
                assert(queue_has(q@, 1));
                return DeferredStep::Drop;
            },
            None => {},
        }
    }
    match any_queued(q, 2) {
        Some(i) => {
            assert(queued_hit(q@[i as int], 2));
            assert(queue_has(q@, 2));
            return DeferredStep::Drop;
        },
        None => {},
    }
    DeferredStep::Write
}

/// Puts an entry back to wait, due again a retry delay after `now`.
pub fn retry_later<A>(entry: DeferredQueueEntry<A>, now: u64) -> (r: DeferredQueueEntry<A>)
    ensures
        r.account == entry.account,
        r.action == entry.action,
        r.state == entry.state,
        r.priority == entry.priority,
        r.ready_at == if now <= u64::MAX - DEFERRED_QUEUE_RETRY_DELAY_MS {
            (now + DEFERRED_QUEUE_RETRY_DELAY_MS) as u64
        } else {
            u64::MAX
        },
{
    let ready_at = now.saturating_add(DEFERRED_QUEUE_RETRY_DELAY_MS);
    DeferredQueueEntry { ready_at, ..entry }
}

/// A purchased-bids entry for `account` already waits.
pub open spec fn bids_followup_waiting<A>(s: Seq<DeferredQueueEntry<A>>, account: Seq<char>) -> bool {
    exists|i: int| 0 <= i < s.len() && (#[trigger] s[i]).account@ == account && s[i].state@ == "bids"@
}

/// Defers a purchased-bids follow-up for the entry's account, unless one
/// already waits.
pub fn defer_bids_followup<A>(pending: &mut Vec<DeferredQueueEntry<A>>, entry: DeferredQueueEntry<A>)
    requires
        entry.state@ == "bids"@,
    ensures
        bids_followup_waiting(old(pending)@, entry.account@) ==> final(pending)@ == old(pending)@,
        !bids_followup_waiting(old(pending)@, entry.account@) ==> final(pending)@ == old(pending)@.push(entry),
{
    let mut i: usize = 0;
    while i < pending.len()
        invariant
            i <= pending.len(),
            pending@ == old(pending)@,
            forall|k: int| 0 <= k < i ==> !((#[trigger] pending@[k]).account@ == entry.account@ && pending@[k].state@ == "bids"@),
        decreases pending.len() - i,
    {
        if str_equal(pending[i].account.as_str(), entry.account.as_str()) && is_bids_state(pending[i].state.as_str()) {
            return;
        }
        i = i + 1;
    }
    pending.push(entry);
}

} // verus!
