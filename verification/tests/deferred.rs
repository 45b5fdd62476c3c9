use saf_app::deferred_queue::{
    defer_bids_followup, deferred_entry_step, retry_later, split_due_entries, DeferredQueueEntry,
    DeferredStep, QueuedEntryFacts, DEFERRED_QUEUE_RETRY_DELAY_MS,
};

fn entry(account: &str, state: &str, ready_at: u64) -> DeferredQueueEntry<u32> {
    DeferredQueueEntry {
        account: account.to_string(),
        action: 7,
        state: state.to_string(),
        priority: 2,
        ready_at,
    }
}

fn facts(is_reconcile: bool, is_bids: bool, same_as_deferred: bool) -> QueuedEntryFacts {
    QueuedEntryFacts { is_reconcile, is_bids, same_as_deferred }
}

#[test]
fn due_entries_are_split_in_order() {
    let (due, waiting) = split_due_entries(
        vec![entry("a", "bids", 5), entry("b", "bids", 50), entry("c", "claimSold", 10)],
        10,
    );
    assert_eq!(due.iter().map(|e| e.account.as_str()).collect::<Vec<_>>(), vec!["a", "c"]);
    assert_eq!(waiting.iter().map(|e| e.account.as_str()).collect::<Vec<_>>(), vec!["b"]);
}

#[test]
fn deferred_entry_step_follows_the_store() {
    let empty: Vec<QueuedEntryFacts> = Vec::new();
    assert_eq!(deferred_entry_step("bids", None, Some(&empty)), DeferredStep::Retry);
    assert_eq!(deferred_entry_step("bids", Some(false), None), DeferredStep::Drop);
    assert_eq!(deferred_entry_step("bids", Some(true), None), DeferredStep::Retry);
    assert_eq!(deferred_entry_step("bids", Some(true), Some(&empty)), DeferredStep::Write);
    assert_eq!(
        deferred_entry_step("bids", Some(true), Some(&vec![facts(false, true, false)])),
        DeferredStep::Drop
    );
    assert_eq!(
        deferred_entry_step("reconcileAuctions", None, Some(&vec![facts(true, false, false)])),
        DeferredStep::Drop
    );
    assert_eq!(
        deferred_entry_step("listingNoName", None, Some(&vec![facts(true, true, false)])),
        DeferredStep::Write
    );
    assert_eq!(
        deferred_entry_step("listingNoName", None, Some(&vec![facts(false, false, true)])),
        DeferredStep::Drop
    );
}

#[test]
fn retried_entries_wait_the_retry_delay() {
    let e = retry_later(entry("a", "bids", 1), 100);
    assert_eq!(e.ready_at, 100 + DEFERRED_QUEUE_RETRY_DELAY_MS);
    assert_eq!(retry_later(entry("a", "bids", 1), u64::MAX).ready_at, u64::MAX);
}

#[test]
fn bids_followup_is_deferred_once_per_account() {
    let mut pending = vec![entry("a", "bids", 1)];
    defer_bids_followup(&mut pending, entry("a", "bids", 2));
    assert_eq!(pending.len(), 1);
    defer_bids_followup(&mut pending, entry("b", "bids", 2));
    assert_eq!(pending.len(), 2);
}
