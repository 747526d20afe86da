use vstd::prelude::*;

use crate::clock::{clock, clock_string};
use crate::model::Event;

verus! {

broadcast use vstd::seq_lib::group_to_multiset_ensures;

/// Events in order of effective time, earliest first.
pub open spec fn sorted_by_time(s: Seq<Event>) -> bool {
    forall|i: int, j: int| 0 <= i < j < s.len() ==> s[i]@.effective_time() <= s[j]@.effective_time()
}

/// Effective times that strictly increase along `s`.
pub open spec fn strictly_increasing(s: Seq<Event>) -> bool {
    forall|i: int, j: int| 0 <= i < j < s.len() ==> s[i]@.effective_time() < s[j]@.effective_time()
}

impl Event {
    /// The actual time where it is known, else the planned time.
    pub fn effective_time(&self) -> (r: i64)
        ensures
            r == self@.effective_time(),
    {
        match self.time {
            Some(t) => t,
            None => self.planned_time,
        }
    }

    /// `HH:MM` (UTC) of the effective time, as the feed shows it.
    pub fn get_time(&self) -> (r: String)
        ensures
            r@ == clock(self@.effective_time()),
    {
        clock_string(self.effective_time())
    }

    /// Orders two events by effective time; equal times compare equal.
    pub fn compare_time(&self, other: &Event) -> (r: core::cmp::Ordering)
        ensures
            r == core::cmp::Ordering::Less <==> self@.effective_time() < other@.effective_time(),
            r == core::cmp::Ordering::Greater <==> self@.effective_time() > other@.effective_time(),
            r == core::cmp::Ordering::Equal <==> self@.effective_time() == other@.effective_time(),
    {
        let a = self.effective_time();
        let b = other.effective_time();
        if a < b {
            core::cmp::Ordering::Less
        } else if a > b {
            core::cmp::Ordering::Greater
        } else {
            core::cmp::Ordering::Equal
        }
    }
}

/// `after` holds the events of `before`, moved by the permutation `p`
/// (`after[k]` is `before[p[k]]`), and `p` keeps the order of any two events
/// with equal effective times.
pub open spec fn stable_with(before: Seq<Event>, after: Seq<Event>, p: Seq<int>) -> bool {
    &&& p.len() == before.len()
    &&& after.len() == before.len()
    &&& forall|k: int| 0 <= k < p.len() ==> 0 <= #[trigger] p[k] < before.len()
    &&& forall|a: int, b: int| 0 <= a < b < p.len() ==> p[a] != p[b]
    &&& forall|k: int| 0 <= k < p.len() ==> after[k] == before[#[trigger] p[k]]
    &&& forall|a: int, b: int|
        0 <= a < b < p.len() && after[a]@.effective_time() == after[b]@.effective_time()
            ==> p[a] < p[b]
}

/// `after` is a stable reordering of `before`.
pub open spec fn stable_reordering(before: Seq<Event>, after: Seq<Event>) -> bool {
    exists|p: Seq<int>| stable_with(before, after, p)
}

/// Sorts events by effective time, earliest first. The sort is stable:
/// events with equal times keep their relative order, and a list that is
/// already in order stays as it is.
pub fn sort_events(v: &mut Vec<Event>)
    ensures
        sorted_by_time(final(v)@),
        stable_reordering(old(v)@, final(v)@),
        final(v)@.to_multiset() == old(v)@.to_multiset(),
        sorted_by_time(old(v)@) ==> final(v)@ == old(v)@,
{
    let n = v.len();
    let ghost mut p: Seq<int> = Seq::new(n as nat, |k: int| k);
    if n == 0 {
        assert(stable_with(old(v)@, v@, p));
        return;
    }
    let mut i: usize = 1;
    while i < n
        invariant
            n == v@.len(),
            n == old(v)@.len(),
            1 <= i <= n,
            forall|a: int, b: int| 0 <= a < b < i ==> v@[a]@.effective_time() <= v@[b]@.effective_time(),
            v@.to_multiset() == old(v)@.to_multiset(),
            sorted_by_time(old(v)@) ==> v@ == old(v)@,
            stable_with(old(v)@, v@, p),
            forall|m: int| i <= m < n ==> #[trigger] p[m] == m,
            forall|m: int| 0 <= m < i ==> #[trigger] p[m] < i,
        decreases n - i,
    {
        let key = v[i].effective_time();
        let mut j: usize = i;
        while j > 0 && v[j - 1].effective_time() > key
            invariant
                n == v@.len(),
                0 <= j <= i < n,
                key == v@[i as int]@.effective_time(),
                forall|m: int| j <= m < i ==> v@[m]@.effective_time() > key,
                sorted_by_time(old(v)@) ==> v@ == old(v)@,
            decreases j,
        {
            j = j - 1;
        }
        proof {
            if sorted_by_time(old(v)@) {
                assert(old(v)@[i - 1]@.effective_time() <= old(v)@[i as int]@.effective_time());
                assert(j == i);
            }
        }
        if j < i {
            let ghost w = v@;
            let ghost q = p;
            let e = v.remove(i);
            v.insert(j, e);
            proof {
                let r = w.remove(i as int);
                assert(v@ == r.insert(j as int, e));
                assert forall|m: int| 0 <= m < j implies v@[m] == w[m] by {}
                assert forall|m: int| j < m <= i implies v@[m] == w[m - 1] by {}
                assert forall|m: int| i < m < n implies v@[m] == w[m] by {}
                assert forall|a: int, b: int| 0 <= a < b < i + 1 implies v@[a]@.effective_time()
                    <= v@[b]@.effective_time() by {
                    if j > 0 && a < j {
                        assert(w[a]@.effective_time() <= w[j - 1]@.effective_time()
                            || a == j - 1);
                    }
                }
                p = q.remove(i as int).insert(j as int, q[i as int]);
                assert forall|m: int| 0 <= m < j implies p[m] == q[m] by {}
                assert forall|m: int| j < m <= i implies p[m] == q[m - 1] by {}
                assert forall|m: int| i < m < n implies p[m] == q[m] by {}
                assert(p[j as int] == i);
                assert forall|a: int, b: int| 0 <= a < b < p.len() implies p[a] != p[b] by {
                    let qa = if a < j { a } else if a == j { i as int } else if a <= i { a - 1 } else { a };
                    let qb = if b < j { b } else if b == j { i as int } else if b <= i { b - 1 } else { b };
                    assert(p[a] == q[qa] && p[b] == q[qb]);
                    assert(qa != qb);
                }
                assert forall|a: int, b: int|
                    0 <= a < b < p.len() && v@[a]@.effective_time() == v@[b]@.effective_time()
                    implies p[a] < p[b] by {
                    if b <= i {
                        if a < j && b == j {
                            assert(q[a] < i);
                        } else if a < j && b > j {
                            assert(w[a]@.effective_time() <= w[j - 1]@.effective_time() || a == j - 1);
                            assert(false);
                        } else if a == j {
                            assert(false);
                        } else if b < j {
                            assert(p[a] == q[a] && p[b] == q[b]);
                            assert(v@[a] == w[a] && v@[b] == w[b]);
                        } else {
                            assert(p[a] == q[a - 1] && p[b] == q[b - 1]);
                            assert(v@[a] == w[a - 1] && v@[b] == w[b - 1]);
                        }
                    } else {
                        assert(p[b] == b);
                        if a == j {
                        } else {
                            let qa = if a < j { a } else if a <= i { a - 1 } else { a };
                            assert(p[a] == q[qa]);
                            assert(q[qa] < i || qa > i);
                        }
                    }
                }
                assert(stable_with(old(v)@, v@, p));
            }
        }
        i = i + 1;
    }
}

/// Strictly increasing effective times are in order, so sorting such a
/// list leaves every event where it was.
pub proof fn lemma_increasing_is_sorted(s: Seq<Event>)
    requires
        strictly_increasing(s),
    ensures
        sorted_by_time(s),
{
}

} // verus!
