use vstd::prelude::*;

verus! {

/// `i` is the index of the first sample, from `startid` on, whose time is at
/// or after `us`.
pub open spec fn is_first_at_or_after(times: Seq<u64>, startid: int, us: u64, i: int) -> bool {
    &&& startid <= i < times.len()
    &&& times[i] >= us
    &&& forall|j: int| startid <= j < i ==> times[j] < us
}

/// return dataset array index at or after the given time
///
/// `times` holds the sample times of the dataset. The search starts at
/// index `startid`; the result is the index (into `times`) of the first
/// sample from there on whose time is at or after `us`, or `None` when there
/// is no such sample (in particular when `startid` is past the end).
pub fn id_for_time(times: &[u64], startid: usize, us: u64) -> (r: Option<usize>)
    ensures
        match r {
            None => forall|j: int| startid <= j < times@.len() ==> times@[j] < us,
            Some(i) => is_first_at_or_after(times@, startid as int, us, i as int),
        },
{
    if startid >= times.len() {
        return None;
    }

    let mut i: usize = startid;
    while i < times.len()
        invariant
            startid <= i <= times@.len(),
            forall|j: int| startid <= j < i ==> times@[j] < us,
        decreases times@.len() - i,
    {
        if times[i] >= us {
            return Some(i);
        }
        i = i + 1;
    }

    None
}

/// There is at most one first sample at or after a given time: the result of
/// `id_for_time` is determined by its inputs.
pub proof fn lemma_first_at_or_after_unique(times: Seq<u64>, startid: int, us: u64, i1: int, i2: int)
    requires
        is_first_at_or_after(times, startid, us, i1),
        is_first_at_or_after(times, startid, us, i2),
    ensures
        i1 == i2,
{
    if i1 < i2 {
        assert(times[i1] < us);
    } else if i2 < i1 {
        assert(times[i2] < us);
    }
}

/// Whether the sample times from `startid` on never decrease.
pub open spec fn sorted_from(times: Seq<u64>, startid: int) -> bool {
    forall|a: int, b: int| startid <= a <= b < times.len() ==> times[a] <= times[b]
}

/// On a recording whose times never decrease, the index found splits the
/// searched samples in two: every one before it lies before `us`, and every
/// one from it on lies at or after `us`.
pub proof fn lemma_id_for_time_sorted(times: Seq<u64>, startid: int, us: u64, i: int)
    requires
        sorted_from(times, startid),
        is_first_at_or_after(times, startid, us, i),
    ensures
        forall|j: int| startid <= j < i ==> times[j] < us,
        forall|j: int| i <= j < times.len() ==> times[j] >= us,
{
    assert forall|j: int| i <= j < times.len() implies times[j] >= us by {
        assert(times[i] <= times[j]);
    }
}

/// A later time is found at the same index or a later one: on a recording
/// whose times never decrease, the index found grows with the time asked for.
pub proof fn lemma_id_for_time_monotonic(times: Seq<u64>, startid: int, us1: u64, us2: u64, i1: int, i2: int)
    requires
        sorted_from(times, startid),
        us1 <= us2,
        is_first_at_or_after(times, startid, us1, i1),
        is_first_at_or_after(times, startid, us2, i2),
    ensures
        i1 <= i2,
{
    if i2 < i1 {
        assert(times[i2] < us1);
    }
}

} // verus!
