use vstd::prelude::*;

verus! {

/// True when `i` is the first position of a least key in `keys`.
pub open spec fn is_first_least(keys: Seq<u64>, i: int) -> bool {
    &&& 0 <= i < keys.len()
    &&& forall|j: int| 0 <= j < keys.len() ==> keys[i] <= #[trigger] keys[j]
    &&& forall|j: int| 0 <= j < i ==> keys[i] < #[trigger] keys[j]
}

/// Picks the candidate with the least distance key; on a tie the earlier
/// candidate is kept. `None` when there is no candidate.
pub fn nearest_index(keys: &Vec<u64>) -> (r: Option<usize>)
    ensures
        keys@.len() == 0 <==> r is None,
        r matches Some(i) ==> is_first_least(keys@, i as int),
{
    if keys.len() == 0 {
        return None;
    }
    let mut best: usize = 0;
    let mut i: usize = 1;
    while i < keys.len()
        invariant
            1 <= i <= keys@.len(),
            best < i,
            forall|j: int| 0 <= j < i ==> keys@[best as int] <= #[trigger] keys@[j],
            forall|j: int| 0 <= j < best ==> keys@[best as int] < #[trigger] keys@[j],
        decreases keys@.len() - i,
    {
        if keys[i] < keys[best] {
            best = i;
        }
        i = i + 1;
    }
    Some(best)
}

/// With a single candidate, that candidate is the nearest.
pub proof fn lemma_single_candidate(keys: Seq<u64>, i: int)
    requires
        keys.len() == 1,
    ensures
        is_first_least(keys, 0),
        is_first_least(keys, i) ==> i == 0,
{
}

/// Of two candidates at the same least distance, the one listed first is
/// picked: the later one never is.
pub proof fn lemma_tie_goes_to_first(keys: Seq<u64>, a: int, b: int, i: int)
    requires
        0 <= a < b < keys.len(),
        keys[a] == keys[b],
        is_first_least(keys, i),
    ensures
        i != b,
        keys[a] == keys[i] ==> i <= a,
{
    if i == b {
        assert(keys[i] < keys[a]);
    }
}

/// At most one position is the first least key.
pub proof fn lemma_first_least_unique(keys: Seq<u64>, i: int, j: int)
    requires
        is_first_least(keys, i),
        is_first_least(keys, j),
    ensures
        i == j,
{
    if i < j {
        assert(keys[j] < keys[i]);
    } else if j < i {
        assert(keys[i] < keys[j]);
    }
}

} // verus!
