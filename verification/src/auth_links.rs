//! Cofl login links that reach the operator: a link waits a few seconds
//! (the session may turn out to be authorised already), is dropped once
//! the account's settings load, and is sent at most once.  Times are
//! milliseconds of a monotonic clock.
use vstd::prelude::*;
use crate::env_vars::{insert_sorted, lex_lt, str_views_of, strictly_sorted};
use crate::string_map::StringMap;
use crate::text::{chars_of, str_equal, string_of};

verus! {

/// How long a login link waits before the operator is told of it.
pub const COFL_AUTH_LINK_NOTIFY_DELAY_MS: u64 = 8_000;

/// A link first seen at `first_seen` is due at `now`.
pub open spec fn link_due(first_seen: u64, now: u64) -> bool {
    now >= first_seen && now - first_seen >= COFL_AUTH_LINK_NOTIFY_DELAY_MS
}

/// The login links waiting to be sent, and those already sent.
pub struct AuthLinkNotifier {
    pending: StringMap<u64>,
    notified: Vec<String>,
}

impl AuthLinkNotifier {
    /// When the waiting link `k` was first seen.
    pub closed spec fn pending_at(&self, k: Seq<char>) -> Option<u64> {
        self.pending.get(k)
    }

    /// The links already sent.
    pub closed spec fn notified_set(&self) -> Set<Seq<char>> {
        str_views_of(self.notified@).to_set()
    }

    pub closed spec fn wf(&self) -> bool {
        self.pending.wf() && strictly_sorted(str_views_of(self.notified@))
    }

    /// The waiting links that are due at `now`.
    pub open spec fn due_set(&self, now: u64) -> Set<Seq<char>> {
        Set::new(|k: Seq<char>| self.pending_at(k) matches Some(t) && link_due(t, now))
    }

    pub fn new() -> (r: Self)
        ensures
            r.wf(),
            forall|k: Seq<char>| #[trigger] r.pending_at(k) is None,
            r.notified_set() == Set::<Seq<char>>::empty(),
    {
        let r = AuthLinkNotifier { pending: StringMap::new(), notified: Vec::new() };
        assert(str_views_of(r.notified@).to_set() =~= Set::<Seq<char>>::empty());
        r
    }

    /// The links of a message arrived at `now`; each one keeps the time it
    /// was first seen.  Ignored once the settings have loaded.
    pub fn queue_links(&mut self, links: &Vec<String>, now: u64, settings_loaded: bool)
        requires
            old(self).wf(),
        ensures
            final(self).wf(),
            final(self).notified_set() == old(self).notified_set(),
            settings_loaded ==> forall|k: Seq<char>| #[trigger] final(self).pending_at(k) == old(self).pending_at(k),
            !settings_loaded ==> forall|k: Seq<char>| #[trigger] final(self).pending_at(k) == (if old(self).pending_at(k) is Some {
                old(self).pending_at(k)
            } else if str_views_of(links@).contains(k) {
                Some(now)
            } else {
                None
            }),
    {
        if settings_loaded {
            return;
        }
        let ghost p0 = self.pending;
        let mut i: usize = 0;
        while i < links.len()
            invariant
                i <= links.len(),
                self.pending.wf(),
                strictly_sorted(str_views_of(self.notified@)),
                self.notified@ == old(self).notified@,
                p0 == old(self).pending,
                forall|k: Seq<char>| #[trigger] self.pending.get(k) == (if p0.get(k) is Some {
                    p0.get(k)
                } else if str_views_of(links@).take(i as int).contains(k) {
                    Some(now)
                } else {
                    None
                }),
            decreases links.len() - i,
        {
            let link = links[i].as_str();
            let present = match self.pending.lookup(link) {
                Some(_) => true,
                None => false,
            };
            if !present {
                self.pending.set(link, now);
            }
            proof {
                let before = str_views_of(links@).take(i as int);
                let after = str_views_of(links@).take(i + 1);
                assert(after =~= before.push(links@[i as int]@));
                assert forall|k: Seq<char>| after.contains(k) <==> (before.contains(k) || k == links@[i as int]@) by {
                    if after.contains(k) {
                        let j = choose|j: int| 0 <= j < after.len() && after[j] == k;
                        if j < before.len() {
                            assert(before[j] == k);
                        }
                    }
                    if before.contains(k) {
                        let j = choose|j: int| 0 <= j < before.len() && before[j] == k;
                        assert(after[j] == k);
                    }
                    if k == links@[i as int]@ {
                        assert(after[i as int] == k);
                    }
                }
            }
            i = i + 1;
        }
        assert(str_views_of(links@).take(links.len() as int) =~= str_views_of(links@));
    }

    /// Takes the links due at `now` that were never sent (in ascending
    /// order) and counts every due link as sent; due links stop waiting.
    /// Once the settings have loaded, every waiting link is dropped and
    /// none is sent.
    pub fn take_due(&mut self, now: u64, settings_loaded: bool) -> (r: Vec<String>)
        requires
            old(self).wf(),
        ensures
            final(self).wf(),
            settings_loaded ==> r@.len() == 0 && final(self).notified_set() == old(self).notified_set() && forall|
                k: Seq<char>,
            | #[trigger] final(self).pending_at(k) is None,
            !settings_loaded ==> {
                &&& strictly_sorted(str_views_of(r@))
                &&& str_views_of(r@).to_set() == old(self).due_set(now).difference(old(self).notified_set())
                &&& final(self).notified_set() == old(self).notified_set().union(old(self).due_set(now))
                &&& forall|k: Seq<char>| #[trigger] final(self).pending_at(k) == (if old(self).due_set(now).contains(k) {
                    None
                } else {
                    old(self).pending_at(k)
                })
            },
    {
        if settings_loaded {
            self.pending = StringMap::new();
            return Vec::new();
        }
        let ghost p0 = self.pending;
        let ghost n0 = str_views_of(self.notified@).to_set();
        let ghost dset = Set::new(|k: Seq<char>| p0.get(k) matches Some(t) && link_due(t, now));
        let keys = self.pending.keys();
        let ghost kv = keys@.map_values(|s: String| s@);
        let mut due: Vec<String> = Vec::new();
        let mut i: usize = 0;
        assert(str_views_of(due@).to_set() =~= Set::<Seq<char>>::empty());
        while i < keys.len()
            invariant
                i <= keys.len(),
                kv == keys@.map_values(|s: String| s@),
                forall|a: int, b: int| 0 <= a < b < keys@.len() ==> (#[trigger] keys@[a])@ != (#[trigger] keys@[b])@,
                forall|k: Seq<char>| #[trigger] p0.get(k) is Some <==> kv.contains(k),
                dset == Set::new(|k: Seq<char>| p0.get(k) matches Some(t) && link_due(t, now)),
                self.pending.wf(),
                strictly_sorted(str_views_of(self.notified@)),
                str_views_of(self.notified@).to_set() == n0,
                forall|k: Seq<char>| #[trigger] self.pending.get(k) == (if kv.take(i as int).contains(k) && dset.contains(k) {
                    None
                } else {
                    p0.get(k)
                }),
                strictly_sorted(str_views_of(due@)),
                str_views_of(due@).to_set() == Set::new(|k: Seq<char>| kv.take(i as int).contains(k) && dset.contains(k)),
            decreases keys.len() - i,
        {
            let key = keys[i].as_str();
            proof {
                assert(kv[i as int] == key@);
                assert(!kv.take(i as int).contains(key@)) by {
                    if kv.take(i as int).contains(key@) {
                        let j = choose|j: int| 0 <= j < i && kv.take(i as int)[j] == key@;
                        assert(keys@[j]@ == keys@[i as int]@);
                    }
                }
                assert(kv.contains(key@)) by {
                    assert(kv[i as int] == key@);
                }
            }
            let ghost before_due = str_views_of(due@).to_set();
            assert(self.pending.get(key@) == p0.get(key@));
            assert(dset.contains(key@) == (p0.get(key@) matches Some(t) && link_due(t, now)));
            let is_due = match self.pending.lookup(key) {
                Some(t) => now >= *t && now - *t >= COFL_AUTH_LINK_NOTIFY_DELAY_MS,
                None => false,
            };
            assert(is_due == dset.contains(key@));
            if is_due {
                self.pending.remove(key);
                insert_sorted(&mut due, string_of(&chars_of(key)));
            }
            proof {
                let before = kv.take(i as int);
                let after = kv.take(i + 1);
                assert(after =~= before.push(key@));
                assert forall|k: Seq<char>| after.contains(k) <==> (before.contains(k) || k == key@) by {
                    if after.contains(k) {
                        let j = choose|j: int| 0 <= j < after.len() && after[j] == k;
                        if j < before.len() {
                            assert(before[j] == k);
                        }
                    }
                    if before.contains(k) {
                        let j = choose|j: int| 0 <= j < before.len() && before[j] == k;
                        assert(after[j] == k);
                    }
                    if k == key@ {
                        assert(after[i as int] == k);
                    }
                }
                assert(str_views_of(due@).to_set() =~= Set::new(|k: Seq<char>| after.contains(k) && dset.contains(k)));
            }
            i = i + 1;
        }
        proof {
            assert(kv.take(keys.len() as int) =~= kv);
            assert(str_views_of(due@).to_set() =~= dset);
        }
        let ghost dv = str_views_of(due@);
        let ghost pending_after = self.pending;
        let mut fresh: Vec<String> = Vec::new();
        let mut j: usize = 0;
        assert(str_views_of(self.notified@).to_set() =~= n0.union(dv.take(0).to_set()));
        assert(str_views_of(fresh@).to_set() =~= dv.take(0).to_set().difference(n0));
        while j < due.len()
            invariant
                j <= due.len(),
                dv == str_views_of(due@),
                strictly_sorted(dv),
                dv.to_set() == dset,
                self.pending == pending_after,
                self.pending.wf(),
                strictly_sorted(str_views_of(self.notified@)),
                str_views_of(self.notified@).to_set() == n0.union(dv.take(j as int).to_set()),
                strictly_sorted(str_views_of(fresh@)),
                str_views_of(fresh@).to_set() == dv.take(j as int).to_set().difference(n0),
                forall|a: int| 0 <= a < fresh@.len() ==> exists|p: int| 0 <= p < j && (#[trigger] fresh@[a])@ == dv[p],
            decreases due.len() - j,
        {
            let d = due[j].as_str();
            proof {
                assert(dv[j as int] == d@);
                assert(!dv.take(j as int).to_set().contains(d@)) by {
                    if dv.take(j as int).to_set().contains(d@) {
                        let p = choose|p: int| 0 <= p < j && dv.take(j as int)[p] == d@;
                        assert(lex_lt(dv[p], dv[j as int]));
                        crate::env_vars::lemma_lex_irreflexive(d@);
                    }
                }
            }
            let seen = contains_string(&self.notified, d);
            let ghost fresh_before = str_views_of(fresh@);
            if !seen {
                fresh.push(string_of(&chars_of(d)));
                proof {
                    assert(str_views_of(fresh@) =~= fresh_before.push(d@));
                    assert forall|a: int, b: int| 0 <= a < b < str_views_of(fresh@).len() implies lex_lt(
                        #[trigger] str_views_of(fresh@)[a],
                        #[trigger] str_views_of(fresh@)[b],
                    ) by {
                        if b == fresh_before.len() {
                            let p = choose|p: int| 0 <= p < j && (#[trigger] fresh@[a])@ == dv[p];
                            assert(lex_lt(dv[p], dv[j as int]));
                        } else {
                            assert(str_views_of(fresh@)[a] == fresh_before[a]);
                            assert(str_views_of(fresh@)[b] == fresh_before[b]);
                        }
                    }
                    assert forall|a: int| 0 <= a < fresh@.len() implies exists|p: int| 0 <= p < j + 1 && (#[trigger] fresh@[a])@ == dv[p] by {
                        if a == fresh_before.len() {
                            assert(fresh@[a]@ == dv[j as int]);
                        } else {
                            let p = choose|p: int| 0 <= p < j && (#[trigger] fresh@[a])@ == dv[p];
                        }
                    }
                }
            } else {
                proof {
                    assert forall|a: int| 0 <= a < fresh@.len() implies exists|p: int| 0 <= p < j + 1 && (#[trigger] fresh@[a])@ == dv[p] by {
                        let p = choose|p: int| 0 <= p < j && (#[trigger] fresh@[a])@ == dv[p];
                    }
                }
            }
            insert_sorted(&mut self.notified, string_of(&chars_of(d)));
            proof {
                assert(dv.take(j + 1) =~= dv.take(j as int).push(d@));
                dv.take(j as int).lemma_push_to_set_commute(d@);
                assert(dv.take(j + 1).to_set() =~= dv.take(j as int).to_set().insert(d@));
                assert(str_views_of(self.notified@).to_set() =~= n0.union(dv.take(j + 1).to_set()));
                assert(seen == (n0.contains(d@))) by {
                    assert(seen == n0.union(dv.take(j as int).to_set()).contains(d@));
                }
                if !seen {
                    fresh_before.lemma_push_to_set_commute(d@);
                }
                assert(str_views_of(fresh@).to_set() =~= dv.take(j + 1).to_set().difference(n0));
            }
            j = j + 1;
        }
        proof {
            assert(dv.take(due.len() as int) =~= dv);
            assert(dset =~= old(self).due_set(now));
            assert forall|k: Seq<char>| #[trigger] self.pending.get(k) == (if old(self).due_set(now).contains(k) {
                None
            } else {
                old(self).pending_at(k)
            }) by {
                assert(old(self).due_set(now).contains(k) == dset.contains(k));
                assert(old(self).pending_at(k) == p0.get(k));
                if dset.contains(k) {
                    assert(p0.get(k) is Some);
                    assert(kv.contains(k));
                }
            }
        }
        fresh
    }
}

fn contains_string(v: &Vec<String>, x: &str) -> (r: bool)
    ensures
        r == str_views_of(v@).to_set().contains(x@),
{
    let mut i: usize = 0;
    while i < v.len()
        invariant
            i <= v.len(),
            forall|j: int| 0 <= j < i ==> (#[trigger] v@[j])@ != x@,
        decreases v.len() - i,
    {
        if str_equal(v[i].as_str(), x) {
            assert(str_views_of(v@)[i as int] == x@);
            return true;
        }
        i = i + 1;
    }
    assert(!str_views_of(v@).contains(x@)) by {
        if str_views_of(v@).contains(x@) {
            let j = choose|j: int| 0 <= j < v@.len() && str_views_of(v@)[j] == x@;
            assert(v@[j]@ == x@);
        }
    }
    false
}

/// A login link reaches the operator at most once: what one call hands
/// out was not handed out before, and counts as sent from then on.
pub proof fn lemma_link_sent_once(
    before: Set<Seq<char>>,
    due: Set<Seq<char>>,
    sent: Set<Seq<char>>,
    after: Set<Seq<char>>,
    later_due: Set<Seq<char>>,
    later_sent: Set<Seq<char>>,
)
    requires
        sent == due.difference(before),
        after == before.union(due),
        later_sent == later_due.difference(after),
    ensures
        sent.disjoint(later_sent),
        sent.subset_of(after),
{
    assert forall|k: Seq<char>| sent.contains(k) implies !later_sent.contains(k) by {
        assert(after.contains(k));
    }
}

} // verus!
