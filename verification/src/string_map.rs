//! A small map keyed by strings, kept as a list of entries with distinct
//! keys.
use vstd::prelude::*;
use crate::text::{chars_of, str_equal, string_of};

verus! {

/// The value of the first entry of `s` with key `k`, if any.
pub open spec fn entry_value<V>(s: Seq<(String, V)>, k: Seq<char>) -> Option<V>
    decreases s.len(),
{
    if s.len() == 0 {
        None
    } else if s[0].0@ == k {
        Some(s[0].1)
    } else {
        entry_value(s.drop_first(), k)
    }
}

/// No two entries share a key.
pub open spec fn distinct_keys<V>(s: Seq<(String, V)>) -> bool {
    forall|i: int, j: int| 0 <= i < j < s.len() ==> (#[trigger] s[i]).0@ != (#[trigger] s[j]).0@
}

proof fn lemma_value_at<V>(s: Seq<(String, V)>, i: int)
    requires
        0 <= i < s.len(),
        distinct_keys(s),
    ensures
        entry_value(s, s[i].0@) == Some(s[i].1),
    decreases i,
{
    if i > 0 {
        assert(s[0].0@ != s[i].0@);
        assert(s.drop_first()[i - 1] == s[i]);
        lemma_value_at(s.drop_first(), i - 1);
    }
}

pub proof fn lemma_value_absent<V>(s: Seq<(String, V)>, k: Seq<char>)
    requires
        forall|j: int| 0 <= j < s.len() ==> (#[trigger] s[j]).0@ != k,
    ensures
        entry_value(s, k) is None,
    decreases s.len(),
{
    if s.len() > 0 {
        assert forall|j: int| 0 <= j < s.drop_first().len() implies (#[trigger] s.drop_first()[j]).0@ != k by {
            assert(s.drop_first()[j] == s[j + 1]);
        }
        lemma_value_absent(s.drop_first(), k);
    }
}

proof fn lemma_value_present<V>(s: Seq<(String, V)>, k: Seq<char>)
    requires
        entry_value(s, k) is Some,
        distinct_keys(s),
    ensures
        exists|i: int| 0 <= i < s.len() && (#[trigger] s[i]).0@ == k && entry_value(s, k) == Some(s[i].1),
    decreases s.len(),
{
    if s[0].0@ != k {
        assert forall|a: int, b: int| 0 <= a < b < s.drop_first().len() implies (#[trigger] s.drop_first()[a]).0@
            != (#[trigger] s.drop_first()[b]).0@ by {
            assert(s.drop_first()[a] == s[a + 1] && s.drop_first()[b] == s[b + 1]);
        }
        lemma_value_present(s.drop_first(), k);
        let i = choose|i: int| 0 <= i < s.drop_first().len() && (#[trigger] s.drop_first()[i]).0@ == k
            && entry_value(s.drop_first(), k) == Some(s.drop_first()[i].1);
        assert(s[i + 1] == s.drop_first()[i]);
    } else {
        assert(s[0].0@ == k);
    }
}

/// Entries with distinct string keys.
#[derive(Debug)]
pub struct StringMap<V> {
    entries: Vec<(String, V)>,
}

impl<V> StringMap<V> {
    /// The value stored under `k`.
    pub closed spec fn get(&self, k: Seq<char>) -> Option<V> {
        entry_value(self.entries@, k)
    }

    /// The map's invariant: keys are distinct.
    pub closed spec fn wf(&self) -> bool {
        distinct_keys(self.entries@)
    }

    pub fn new() -> (r: Self)
        ensures
            r.wf(),
            forall|k: Seq<char>| #[trigger] r.get(k) is None,
    {
        StringMap { entries: Vec::new() }
    }

    fn position(&self, key: &str) -> (r: Option<usize>)
        requires
            self.wf(),
        ensures
            r matches Some(i) ==> i < self.entries@.len() && self.entries@[i as int].0@ == key@,
            r is None ==> forall|j: int| 0 <= j < self.entries@.len() ==> (#[trigger] self.entries@[j]).0@ != key@,
    {
        let mut i: usize = 0;
        while i < self.entries.len()
            invariant
                i <= self.entries.len(),
                forall|j: int| 0 <= j < i ==> (#[trigger] self.entries@[j]).0@ != key@,
            decreases self.entries.len() - i,
        {
            if str_equal(self.entries[i].0.as_str(), key) {
                return Some(i);
            }
            i = i + 1;
        }
        None
    }

    /// The value stored under `key`.
    pub fn lookup(&self, key: &str) -> (r: Option<&V>)
        requires
            self.wf(),
        ensures
            r matches Some(v) ==> self.get(key@) == Some(*v),
            r is None ==> self.get(key@) is None,
    {
        match self.position(key) {
            Some(i) => {
                proof {
                    lemma_value_at(self.entries@, i as int);
                }
                Some(&self.entries[i].1)
            },
            None => {
                proof {
                    lemma_value_absent(self.entries@, key@);
                }
                None
            },
        }
    }

    /// Stores `value` under `key`, replacing what was there.
    pub fn set(&mut self, key: &str, value: V)
        requires
            old(self).wf(),
        ensures
            final(self).wf(),
            final(self).get(key@) == Some(value),
            forall|k: Seq<char>| k != key@ ==> #[trigger] final(self).get(k) == old(self).get(k),
    {
        let ghost before = self.entries@;
        match self.position(key) {
            Some(i) => {
                let (name, _) = self.entries.remove(i);
                self.entries.insert(i, (name, value));
                proof {
                    let after = self.entries@;
                    assert(after =~= before.update(i as int, (before[i as int].0, value)));
                    assert(distinct_keys(after)) by {
                        assert forall|a: int, b: int| 0 <= a < b < after.len() implies (#[trigger] after[a]).0@
                            != (#[trigger] after[b]).0@ by {
                            assert(after[a].0@ == before[a].0@ && after[b].0@ == before[b].0@);
                        }
                    }
                    lemma_value_at(after, i as int);
                    assert forall|k: Seq<char>| k != key@ implies #[trigger] entry_value(after, k)
                        == entry_value(before, k) by {
                        lemma_update_other(before, i as int, value, k);
                    }
                }
            },
            None => {
                let name = string_of(&chars_of(key));
                self.entries.push((name, value));
                proof {
                    let after = self.entries@;
                    assert(after =~= before.push((name, value)));
                    assert(distinct_keys(after)) by {
                        assert forall|a: int, b: int| 0 <= a < b < after.len() implies (#[trigger] after[a]).0@
                            != (#[trigger] after[b]).0@ by {
                            if b == before.len() {
                                assert(after[a] == before[a]);
                            } else {
                                assert(after[a] == before[a] && after[b] == before[b]);
                            }
                        }
                    }
                    lemma_value_at(after, before.len() as int);
                    assert forall|k: Seq<char>| k != key@ implies #[trigger] entry_value(after, k)
                        == entry_value(before, k) by {
                        lemma_push_other(before, (name, value), k);
                    }
                }
            },
        }
    }

    /// The keys that hold a value, each once.
    pub fn keys(&self) -> (r: Vec<String>)
        requires
            self.wf(),
        ensures
            forall|k: Seq<char>| #[trigger] self.get(k) is Some <==> r@.map_values(|s: String| s@).contains(k),
            forall|i: int, j: int| 0 <= i < j < r@.len() ==> (#[trigger] r@[i])@ != (#[trigger] r@[j])@,
    {
        let mut r: Vec<String> = Vec::new();
        let mut i: usize = 0;
        while i < self.entries.len()
            invariant
                i <= self.entries.len(),
                distinct_keys(self.entries@),
                r@.len() == i,
                forall|j: int| 0 <= j < i ==> (#[trigger] r@[j])@ == self.entries@[j].0@,
            decreases self.entries.len() - i,
        {
            r.push(string_of(&chars_of(self.entries[i].0.as_str())));
            i = i + 1;
        }
        proof {
            let ks = r@.map_values(|s: String| s@);
            assert forall|k: Seq<char>| #[trigger] self.get(k) is Some <==> ks.contains(k) by {
                if self.get(k) is Some {
                    lemma_value_present(self.entries@, k);
                    let j = choose|j: int| 0 <= j < self.entries@.len() && (#[trigger] self.entries@[j]).0@ == k
                        && entry_value(self.entries@, k) == Some(self.entries@[j].1);
                    assert(ks[j] == k);
                }
                if ks.contains(k) {
                    let j = choose|j: int| 0 <= j < ks.len() && ks[j] == k;
                    assert(self.entries@[j].0@ == k);
                    lemma_value_at(self.entries@, j);
                }
            }
            assert forall|a: int, b: int| 0 <= a < b < r@.len() implies (#[trigger] r@[a])@ != (#[trigger] r@[b])@ by {
                assert(self.entries@[a].0@ != self.entries@[b].0@);
            }
        }
        r
    }

    /// Removes what is stored under `key`.
    pub fn remove(&mut self, key: &str)
        requires
            old(self).wf(),
        ensures
            final(self).wf(),
            final(self).get(key@) is None,
            forall|k: Seq<char>| k != key@ ==> #[trigger] final(self).get(k) == old(self).get(k),
    {
        let ghost before = self.entries@;
        match self.position(key) {
            Some(i) => {
                self.entries.remove(i);
                proof {
                    let after = self.entries@;
                    assert(after =~= before.remove(i as int));
                    assert(distinct_keys(after)) by {
                        assert forall|a: int, b: int| 0 <= a < b < after.len() implies (#[trigger] after[a]).0@
                            != (#[trigger] after[b]).0@ by {
                            let a2 = if a < i { a } else { a + 1 };
                            let b2 = if b < i { b } else { b + 1 };
                            assert(after[a] == before[a2] && after[b] == before[b2]);
                        }
                    }
                    assert forall|j: int| 0 <= j < after.len() implies (#[trigger] after[j]).0@ != key@ by {
                        let j2 = if j < i { j } else { j + 1 };
                        assert(after[j] == before[j2]);
                    }
                    lemma_value_absent(after, key@);
                    assert forall|k: Seq<char>| k != key@ implies #[trigger] entry_value(after, k)
                        == entry_value(before, k) by {
                        lemma_remove_other(before, i as int, k);
                    }
                }
            },
            None => {
                proof {
                    lemma_value_absent(before, key@);
                }
            },
        }
    }
}

pub proof fn lemma_update_other<V>(s: Seq<(String, V)>, i: int, v: V, k: Seq<char>)
    requires
        0 <= i < s.len(),
        k != s[i].0@,
    ensures
        entry_value(s.update(i, (s[i].0, v)), k) == entry_value(s, k),
    decreases i,
{
    let t = s.update(i, (s[i].0, v));
    if i > 0 {
        assert(t[0] == s[0]);
        assert(t.drop_first() =~= s.drop_first().update(i - 1, (s[i].0, v)));
        assert(s.drop_first()[i - 1] == s[i]);
        lemma_update_other(s.drop_first(), i - 1, v, k);
    } else {
        assert(t.drop_first() =~= s.drop_first());
    }
}

pub proof fn lemma_push_other<V>(s: Seq<(String, V)>, e: (String, V), k: Seq<char>)
    requires
        k != e.0@,
    ensures
        entry_value(s.push(e), k) == entry_value(s, k),
    decreases s.len(),
{
    if s.len() > 0 {
        assert(s.push(e)[0] == s[0]);
        assert(s.push(e).drop_first() =~= s.drop_first().push(e));
        lemma_push_other(s.drop_first(), e, k);
    } else {
        assert(s.push(e)[0] == e);
        assert(s.push(e).drop_first() =~= Seq::<(String, V)>::empty());
        assert(entry_value(Seq::<(String, V)>::empty(), k) is None);
        assert(s =~= Seq::<(String, V)>::empty());
    }
}

pub proof fn lemma_remove_other<V>(s: Seq<(String, V)>, i: int, k: Seq<char>)
    requires
        0 <= i < s.len(),
        k != s[i].0@,
    ensures
        entry_value(s.remove(i), k) == entry_value(s, k),
    decreases i,
{
    if i > 0 {
        assert(s.remove(i)[0] == s[0]);
        assert(s.remove(i).drop_first() =~= s.drop_first().remove(i - 1));
        assert(s.drop_first()[i - 1] == s[i]);
        lemma_remove_other(s.drop_first(), i - 1, k);
    } else {
        assert(s.remove(0) =~= s.drop_first());
    }
}

/// The first entry with key `key` gets value `v`: looking `key` up gives `v`.
pub proof fn lemma_update_first<V>(s: Seq<(String, V)>, i: int, v: V)
    requires
        0 <= i < s.len(),
        forall|j: int| 0 <= j < i ==> (#[trigger] s[j]).0@ != s[i].0@,
    ensures
        entry_value(s.update(i, (s[i].0, v)), s[i].0@) == Some(v),
    decreases i,
{
    let t = s.update(i, (s[i].0, v));
    if i > 0 {
        assert(t[0] == s[0]);
        assert(t.drop_first() =~= s.drop_first().update(i - 1, (s[i].0, v)));
        assert(s.drop_first()[i - 1] == s[i]);
        assert forall|j: int| 0 <= j < i - 1 implies (#[trigger] s.drop_first()[j]).0@ != s.drop_first()[i - 1].0@ by {
            assert(s.drop_first()[j] == s[j + 1]);
        }
        lemma_update_first(s.drop_first(), i - 1, v);
    }
}

/// A pushed entry whose key no earlier entry has is what its key looks up.
pub proof fn lemma_push_new<V>(s: Seq<(String, V)>, e: (String, V))
    requires
        forall|j: int| 0 <= j < s.len() ==> (#[trigger] s[j]).0@ != e.0@,
    ensures
        entry_value(s.push(e), e.0@) == Some(e.1),
    decreases s.len(),
{
    if s.len() > 0 {
        assert(s.push(e)[0] == s[0]);
        assert(s.push(e).drop_first() =~= s.drop_first().push(e));
        assert forall|j: int| 0 <= j < s.drop_first().len() implies (#[trigger] s.drop_first()[j]).0@ != e.0@ by {
            assert(s.drop_first()[j] == s[j + 1]);
        }
        lemma_push_new(s.drop_first(), e);
    } else {
        assert(s.push(e)[0] == e);
    }
}

/// The position of the first entry with key `key`.
pub fn first_position<V>(entries: &Vec<(String, V)>, key: &str) -> (r: Option<usize>)
    ensures
        r matches Some(i) ==> i < entries@.len() && entries@[i as int].0@ == key@ && forall|j: int| 0 <= j < i ==> (#[trigger] entries@[j]).0@ != key@,
        r is None ==> forall|j: int| 0 <= j < entries@.len() ==> (#[trigger] entries@[j]).0@ != key@,
{
    let mut i: usize = 0;
    while i < entries.len()
        invariant
            i <= entries.len(),
            forall|j: int| 0 <= j < i ==> (#[trigger] entries@[j]).0@ != key@,
        decreases entries.len() - i,
    {
        if str_equal(entries[i].0.as_str(), key) {
            return Some(i);
        }
        i = i + 1;
    }
    None
}

} // verus!
