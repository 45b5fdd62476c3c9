//! The recorded command queue: entries of every account kept in one list,
//! ordered by priority the way the file-backed queue orders them, so that
//! an index taken from an account's snapshot names the same entry in both.
use vstd::prelude::*;
use crate::text::str_equal;

verus! {

/// One queued action of an account.  `action` and `state` are carried
/// through untouched.
#[derive(Clone, Debug)]
pub struct QueueRecord<A, S> {
    pub account: String,
    pub action: A,
    pub state: S,
    pub priority: u8,
}

/// The entries of `s` that belong to `account`, in order.
pub open spec fn of_account<A, S>(s: Seq<QueueRecord<A, S>>, account: Seq<char>) -> Seq<QueueRecord<A, S>>
    decreases s.len(),
{
    if s.len() == 0 {
        seq![]
    } else {
        let rest = of_account(s.drop_last(), account);
        if s.last().account@ == account {
            rest.push(s.last())
        } else {
            rest
        }
    }
}

/// The entries of `s` that do not belong to `account`, in order.
pub open spec fn not_of_account<A, S>(s: Seq<QueueRecord<A, S>>, account: Seq<char>) -> Seq<QueueRecord<A, S>>
    decreases s.len(),
{
    if s.len() == 0 {
        seq![]
    } else {
        let rest = not_of_account(s.drop_last(), account);
        if s.last().account@ == account {
            rest
        } else {
            rest.push(s.last())
        }
    }
}

/// Entries in nondecreasing order of priority.
pub open spec fn priority_sorted<A, S>(s: Seq<QueueRecord<A, S>>) -> bool {
    forall|i: int, j: int| 0 <= i <= j < s.len() ==> s[i].priority <= s[j].priority
}

pub proof fn lemma_of_account_append<A, S>(a: Seq<QueueRecord<A, S>>, b: Seq<QueueRecord<A, S>>, account: Seq<char>)
    ensures
        of_account(a + b, account) == of_account(a, account) + of_account(b, account),
        not_of_account(a + b, account) == not_of_account(a, account) + not_of_account(b, account),
    decreases b.len(),
{
    if b.len() == 0 {
        assert(a + b =~= a);
        assert(of_account(b, account) =~= Seq::<QueueRecord<A, S>>::empty());
        assert(not_of_account(b, account) =~= Seq::<QueueRecord<A, S>>::empty());
        assert(of_account(a, account) + of_account(b, account) =~= of_account(a, account));
        assert(not_of_account(a, account) + not_of_account(b, account) =~= not_of_account(a, account));
    } else {
        lemma_of_account_append(a, b.drop_last(), account);
        assert((a + b).drop_last() =~= a + b.drop_last());
        assert((a + b).last() == b.last());
        assert(of_account(a, account) + of_account(b.drop_last(), account).push(b.last()) =~= (
        of_account(a, account) + of_account(b.drop_last(), account)).push(b.last()));
        assert(not_of_account(a, account) + not_of_account(b.drop_last(), account).push(b.last()) =~= (
        not_of_account(a, account) + not_of_account(b.drop_last(), account)).push(b.last()));
    }
}

proof fn lemma_of_account_single<A, S>(x: QueueRecord<A, S>, account: Seq<char>)
    ensures
        of_account(seq![x], account) == (if x.account@ == account {
            seq![x]
        } else {
            Seq::<QueueRecord<A, S>>::empty()
        }),
        not_of_account(seq![x], account) == (if x.account@ == account {
            Seq::<QueueRecord<A, S>>::empty()
        } else {
            seq![x]
        }),
{
    let e = Seq::<QueueRecord<A, S>>::empty();
    assert(seq![x].drop_last() =~= e);
    assert(of_account(e, account) == e);
    assert(not_of_account(e, account) == e);
    assert(seq![x].last() == x);
    assert(e.push(x) =~= seq![x]);
}

/// The recorded queue of every account.
#[derive(Debug)]
pub struct RecordedQueueStore<A, S> {
    entries: Vec<QueueRecord<A, S>>,
}

impl<A, S> View for RecordedQueueStore<A, S> {
    type V = Seq<QueueRecord<A, S>>;

    closed spec fn view(&self) -> Seq<QueueRecord<A, S>> {
        self.entries@
    }
}

impl<A, S> RecordedQueueStore<A, S> {
    /// The store's invariant: entries ordered by priority.
    pub open spec fn wf(&self) -> bool {
        priority_sorted(self@)
    }

    pub fn new() -> (r: Self)
        ensures
            r.wf(),
            r@ == Seq::<QueueRecord<A, S>>::empty(),
    {
        RecordedQueueStore { entries: Vec::new() }
    }

    /// Every entry, in queue order.
    pub fn entries(&self) -> (r: &Vec<QueueRecord<A, S>>)
        ensures
            r@ == self@,
    {
        &self.entries
    }

    /// Queues an action for `account`: it goes after every entry of the same
    /// or a higher priority (a lower number) and before the others, which is
    /// where a stable sort by priority puts it.  Always reports a change.
    pub fn add(&mut self, account: String, action: A, state: S, priority: u8) -> (r: bool)
        requires
            old(self).wf(),
        ensures
            r,
            final(self).wf(),
            exists|pos: int|
                0 <= pos <= old(self)@.len() && final(self)@ == old(self)@.insert(
                    pos,
                    QueueRecord { account, action, state, priority },
                ) && (forall|j: int| 0 <= j < pos ==> #[trigger] old(self)@[j].priority <= priority)
                    && (forall|j: int| pos <= j < old(self)@.len() ==> #[trigger] old(self)@[j].priority > priority),
    {
        let ghost before = self.entries@;
        let mut i: usize = 0;
        while i < self.entries.len() && self.entries[i].priority <= priority
            invariant
                i <= self.entries.len(),
                self.entries@ == before,
                forall|j: int| 0 <= j < i ==> #[trigger] before[j].priority <= priority,
            decreases self.entries.len() - i,
        {
            i = i + 1;
        }
        assert(forall|j: int| i <= j < before.len() ==> #[trigger] before[j].priority > priority) by {
            if i < before.len() {
                assert(before[i as int].priority > priority);
            }
        }
        let rec = QueueRecord { account, action, state, priority };
        self.entries.insert(i, rec);
        let ghost after = self.entries@;
        assert(after =~= before.insert(i as int, rec));
        assert forall|a: int, b: int| 0 <= a <= b < after.len() implies after[a].priority <= after[b].priority by {
            if a < i && b < i {
                assert(after[a] == before[a] && after[b] == before[b]);
            } else if a < i && b == i {
                assert(after[a] == before[a]);
            } else if a < i {
                assert(after[a] == before[a] && after[b] == before[b - 1]);
            } else if a == i && b > i {
                assert(after[b] == before[b - 1]);
            } else if a > i {
                assert(after[a] == before[a - 1] && after[b] == before[b - 1]);
            }
        }
        true
    }

    /// The queue of `account`, in queue order.
    pub fn snapshot(&self, account: &str) -> (r: Vec<&QueueRecord<A, S>>)
        ensures
            r@.len() == of_account(self@, account@).len(),
            forall|i: int| 0 <= i < r@.len() ==> *#[trigger] r@[i] == of_account(self@, account@)[i],
    {
        let ghost all = self.entries@;
        let mut r: Vec<&QueueRecord<A, S>> = Vec::new();
        let mut i: usize = 0;
        while i < self.entries.len()
            invariant
                i <= self.entries.len(),
                all == self.entries@,
                r@.len() == of_account(all.take(i as int), account@).len(),
                forall|k: int| 0 <= k < r@.len() ==> *#[trigger] r@[k] == of_account(all.take(i as int), account@)[k],
            decreases self.entries.len() - i,
        {
            assert(all.take(i + 1).drop_last() =~= all.take(i as int));
            assert(all.take(i + 1).last() == all[i as int]);
            if str_equal(self.entries[i].account.as_str(), account) {
                r.push(&self.entries[i]);
            }
            i = i + 1;
        }
        assert(all.take(all.len() as int) =~= all);
        r
    }

    /// Removes every entry of `account` and reports how many there were; the
    /// other accounts' entries keep their order.
    pub fn clear(&mut self, account: &str) -> (r: usize)
        requires
            old(self).wf(),
        ensures
            final(self).wf(),
            final(self)@ == not_of_account(old(self)@, account@),
            r == of_account(old(self)@, account@).len(),
            r == old(self)@.len() - final(self)@.len(),
    {
        let ghost orig = self.entries@;
        let ghost mut j: int = 0;
        let mut i: usize = 0;
        let mut removed: usize = 0;
        assert(orig.skip(0) =~= orig);
        assert(orig.take(0) =~= Seq::<QueueRecord<A, S>>::empty());
        let n = self.entries.len();
        assert(orig.len() == n);
        while i < self.entries.len()
            invariant
                0 <= j <= orig.len(),
                orig.len() <= usize::MAX,
                i == not_of_account(orig.take(j), account@).len(),
                removed == of_account(orig.take(j), account@).len(),
                removed + i == j,
                self.entries@ == not_of_account(orig.take(j), account@) + orig.skip(j),
                priority_sorted(orig),
                forall|k: int| 0 <= k < self.entries@.len() ==> #[trigger] orig.contains(self.entries@[k]),
                priority_sorted(self.entries@),
            decreases self.entries.len() - i,
        {
            assert(self.entries@[i as int] == orig[j]);
            assert(orig.take(j + 1).drop_last() =~= orig.take(j));
            assert(orig.take(j + 1).last() == orig[j]);
            if str_equal(self.entries[i].account.as_str(), account) {
                let ghost pre = self.entries@;
                self.entries.remove(i);
                assert(self.entries@ =~= not_of_account(orig.take(j + 1), account@) + orig.skip(j + 1));
                assert forall|k: int| 0 <= k < self.entries@.len() implies #[trigger] orig.contains(self.entries@[k]) by {
                    if k < i {
                        assert(self.entries@[k] == pre[k]);
                    } else {
                        assert(self.entries@[k] == pre[k + 1]);
                    }
                }
                assert forall|a: int, b: int| 0 <= a <= b < self.entries@.len() implies self.entries@[a].priority <= self.entries@[b].priority by {
                    let a2 = if a < i { a } else { a + 1 };
                    let b2 = if b < i { b } else { b + 1 };
                    assert(self.entries@[a] == pre[a2]);
                    assert(self.entries@[b] == pre[b2]);
                }
                removed = removed + 1;
            } else {
                assert(self.entries@ =~= not_of_account(orig.take(j + 1), account@) + orig.skip(j + 1));
                i = i + 1;
            }
            proof {
                j = j + 1;
            }
        }
        assert(orig.skip(j).len() == 0);
        assert(orig.take(j) =~= orig);
        assert(self.entries@ =~= not_of_account(orig, account@));
        proof {
            lemma_of_account_append(orig, Seq::<QueueRecord<A, S>>::empty(), account@);
            lemma_split_counts(orig, account@);
        }
        removed
    }

    /// Removes the entry at `index` of `account`'s snapshot and returns it;
    /// `None`, with nothing removed, when the snapshot is shorter.
    pub fn remove_at(&mut self, account: &str, index: usize) -> (r: Option<QueueRecord<A, S>>)
        requires
            old(self).wf(),
        ensures
            final(self).wf(),
            index < of_account(old(self)@, account@).len() ==> {
                &&& r == Some(of_account(old(self)@, account@)[index as int])
                &&& of_account(final(self)@, account@) == of_account(old(self)@, account@).remove(index as int)
                &&& not_of_account(final(self)@, account@) == not_of_account(old(self)@, account@)
            },
            index >= of_account(old(self)@, account@).len() ==> r is None && final(self)@ == old(self)@,
    {
        let ghost all = self.entries@;
        let mut seen: usize = 0;
        let mut i: usize = 0;
        while i < self.entries.len()
            invariant
                i <= self.entries.len(),
                all == self.entries@,
                all == old(self)@,
                priority_sorted(all),
                seen == of_account(all.take(i as int), account@).len(),
                seen <= index,
            decreases self.entries.len() - i,
        {
            assert(all.take(i + 1).drop_last() =~= all.take(i as int));
            assert(all.take(i + 1).last() == all[i as int]);
            if str_equal(self.entries[i].account.as_str(), account) {
                if seen == index {
                    proof {
                        let pre = all.take(i as int);
                        let post = all.skip(i + 1);
                        assert(all =~= pre + seq![all[i as int]] + post);
                        lemma_of_account_append(pre + seq![all[i as int]], post, account@);
                        lemma_of_account_append(pre, seq![all[i as int]], account@);
                        lemma_of_account_single(all[i as int], account@);
                        lemma_of_account_append(pre, post, account@);
                        assert(all.remove(i as int) =~= pre + post);
                        assert((of_account(pre, account@) + seq![all[i as int]] + of_account(post, account@)).remove(
                            index as int,
                        ) =~= of_account(pre, account@) + of_account(post, account@));
                        assert((of_account(pre, account@) + seq![all[i as int]] + of_account(post, account@))[index as int]
                            == all[i as int]);
                        assert(not_of_account(pre, account@) + Seq::<QueueRecord<A, S>>::empty() =~= not_of_account(pre, account@));
                    }
                    let removed = self.entries.remove(i);
                    proof {
                        assert(self.entries@ =~= all.remove(i as int));
                        assert forall|a: int, b: int| 0 <= a <= b < self.entries@.len() implies self.entries@[a].priority <= self.entries@[b].priority by {
                            let a2 = if a < i { a } else { a + 1 };
                            let b2 = if b < i { b } else { b + 1 };
                            assert(self.entries@[a] == all[a2]);
                            assert(self.entries@[b] == all[b2]);
                        }
                    }
                    return Some(removed);
                }
                seen = seen + 1;
            }
            i = i + 1;
        }
        assert(all.take(all.len() as int) =~= all);
        None
    }
}

proof fn lemma_split_counts<A, S>(s: Seq<QueueRecord<A, S>>, account: Seq<char>)
    ensures
        of_account(s, account).len() + not_of_account(s, account).len() == s.len(),
    decreases s.len(),
{
    if s.len() > 0 {
        lemma_split_counts(s.drop_last(), account);
    }
}

/// An account's snapshot is ordered by priority, as the whole queue is.
pub proof fn lemma_snapshot_sorted<A, S>(s: Seq<QueueRecord<A, S>>, account: Seq<char>)
    requires
        priority_sorted(s),
    ensures
        priority_sorted(of_account(s, account)),
        forall|i: int| 0 <= i < of_account(s, account).len() ==> s.contains(#[trigger] of_account(s, account)[i]),
    decreases s.len(),
{
    if s.len() > 0 {
        let init = s.drop_last();
        assert(priority_sorted(init)) by {
            assert forall|i: int, j: int| 0 <= i <= j < init.len() implies init[i].priority <= init[j].priority by {
                assert(init[i] == s[i] && init[j] == s[j]);
            }
        }
        lemma_snapshot_sorted(init, account);
        let rest = of_account(init, account);
        assert forall|i: int| 0 <= i < rest.len() implies s.contains(#[trigger] rest[i]) by {
            let k = choose|k: int| 0 <= k < init.len() && init[k] == rest[i];
            assert(s[k] == init[k]);
        }
        if s.last().account@ == account {
            let r = rest.push(s.last());
            assert forall|i: int| 0 <= i < r.len() implies s.contains(#[trigger] r[i]) by {
                if i < rest.len() {
                    assert(r[i] == rest[i]);
                } else {
                    assert(s[s.len() - 1] == s.last());
                }
            }
            assert forall|i: int, j: int| 0 <= i <= j < r.len() implies r[i].priority <= r[j].priority by {
                if j == rest.len() && i < rest.len() {
                    let k = choose|k: int| 0 <= k < s.len() && s[k] == r[i];
                    assert(s[k].priority <= s[s.len() - 1].priority);
                } else if j < rest.len() {
                    assert(r[i] == rest[i] && r[j] == rest[j]);
                }
            }
        }
    }
}
} // verus!
