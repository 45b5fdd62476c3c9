//! Counting the passive Cofl chat messages the runtime sees, category by
//! category, so that only the first few of each are logged.
use vstd::prelude::*;
use crate::text::{chars_of, str_equal, string_of};

verus! {

/// The count stored for `category`: that of the first entry with that
/// name, zero when there is none.
pub open spec fn count_in(s: Seq<(String, u64)>, category: Seq<char>) -> nat
    decreases s.len(),
{
    if s.len() == 0 {
        0
    } else if s[0].0@ == category {
        s[0].1 as nat
    } else {
        count_in(s.drop_first(), category)
    }
}

proof fn lemma_count_update(s: Seq<(String, u64)>, i: int, v: u64, q: Seq<char>)
    requires
        0 <= i < s.len(),
        forall|j: int| 0 <= j < i ==> s[j].0@ != s[i].0@,
    ensures
        count_in(s.update(i, (s[i].0, v)), q) == if q == s[i].0@ {
            v as nat
        } else {
            count_in(s, q)
        },
    decreases i,
{
    let t = s.update(i, (s[i].0, v));
    if i > 0 {
        assert(t[0] == s[0]);
        assert(s[0].0@ != s[i].0@);
        assert(t.drop_first() =~= s.drop_first().update(i - 1, (s[i].0, v)));
        assert(s.drop_first()[i - 1] == s[i]);
        assert forall|j: int| 0 <= j < i - 1 implies (#[trigger] s.drop_first()[j]).0@ != s.drop_first()[i - 1].0@ by {
            assert(s.drop_first()[j] == s[j + 1]);
        }
        lemma_count_update(s.drop_first(), i - 1, v, q);
    } else {
        assert(t.drop_first() =~= s.drop_first());
        assert(t[0].0@ == s[0].0@);
    }
}

proof fn lemma_count_push(s: Seq<(String, u64)>, e: (String, u64), q: Seq<char>)
    requires
        forall|j: int| 0 <= j < s.len() ==> s[j].0@ != e.0@,
    ensures
        count_in(s.push(e), q) == if q == e.0@ {
            e.1 as nat
        } else {
            count_in(s, q)
        },
    decreases s.len(),
{
    if s.len() > 0 {
        assert(s.push(e)[0] == s[0]);
        assert(s[0].0@ != e.0@);
        assert(s.push(e).drop_first() =~= s.drop_first().push(e));
        assert forall|j: int| 0 <= j < s.drop_first().len() implies (#[trigger] s.drop_first()[j]).0@ != e.0@ by {
            assert(s.drop_first()[j] == s[j + 1]);
        }
        lemma_count_push(s.drop_first(), e, q);
    } else {
        assert(s.push(e)[0] == e);
        assert(s.push(e).drop_first() =~= Seq::<(String, u64)>::empty());
        assert(count_in(Seq::<(String, u64)>::empty(), q) == 0);
    }
}

proof fn lemma_count_absent(s: Seq<(String, u64)>, q: Seq<char>)
    requires
        forall|j: int| 0 <= j < s.len() ==> s[j].0@ != q,
    ensures
        count_in(s, q) == 0,
    decreases s.len(),
{
    if s.len() > 0 {
        assert forall|j: int| 0 <= j < s.drop_first().len() implies (#[trigger] s.drop_first()[j]).0@ != q by {
            assert(s.drop_first()[j] == s[j + 1]);
        }
        lemma_count_absent(s.drop_first(), q);
    }
}

/// How many passive chat messages of each category have been seen.
#[derive(Debug)]
pub struct PassiveChatCategories {
    counts: Vec<(String, u64)>,
}

impl PassiveChatCategories {
    /// How many messages of `category` have been seen.
    pub closed spec fn count(&self, category: Seq<char>) -> nat {
        count_in(self.counts@, category)
    }

    pub fn new() -> (r: Self)
        ensures
            forall|c: Seq<char>| #[trigger] r.count(c) == 0,
    {
        PassiveChatCategories { counts: Vec::new() }
    }

    /// Counts one more message of `category` and returns the new count.
    pub fn next_passive_chat_category_count(&mut self, category: &str) -> (r: u64)
        requires
            old(self).count(category@) < u64::MAX,
        ensures
            r == old(self).count(category@) + 1,
            final(self).count(category@) == r,
            forall|c: Seq<char>| c != category@ ==> #[trigger] final(self).count(c) == old(self).count(c),
    {
        let ghost before = self.counts@;
        let mut i: usize = 0;
        assert(before.skip(0) =~= before);
        while i < self.counts.len()
            invariant
                i <= self.counts.len(),
                self.counts@ == before,
                old(self).counts@ == before,
                count_in(before, category@) == count_in(before.skip(i as int), category@),
                forall|j: int| 0 <= j < i ==> before[j].0@ != category@,
                count_in(before, category@) < u64::MAX,
            decreases self.counts.len() - i,
        {
            assert(before.skip(i as int).drop_first() =~= before.skip(i + 1));
            if str_equal(self.counts[i].0.as_str(), category) {
                assert(before.skip(i as int)[0] == before[i as int]);
                let (name, n) = self.counts.remove(i);
                assert(n as nat == count_in(before, category@));
                let next = n + 1;
                self.counts.insert(i, (name, next));
                proof {
                    assert(self.counts@ =~= before.update(i as int, (before[i as int].0, next)));
                    assert forall|c: Seq<char>| c != category@ implies #[trigger] self.count(c) == count_in(before, c) by {
                        lemma_count_update(before, i as int, next, c);
                    }
                    lemma_count_update(before, i as int, next, category@);
                }
                return next;
            }
            i = i + 1;
        }
        let name = string_of(&chars_of(category));
        let ghost e = (name, 1u64);
        self.counts.push((name, 1));
        proof {
            assert forall|c: Seq<char>| c != category@ implies #[trigger] self.count(c) == count_in(before, c) by {
                lemma_count_push(before, e, c);
            }
            lemma_count_push(before, e, category@);
            assert(count_in(before, category@) == 0) by {
                lemma_count_absent(before, category@);
            }
        }
        1
    }
}

} // verus!
