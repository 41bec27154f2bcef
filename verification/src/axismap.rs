use vstd::prelude::*;
use vstd::std_specs::ops::NegSpec;

verus! {

/// map sensor axes. index: destination, value: source + 1, can be negative
#[derive(Debug)]
pub struct AxisMap(pub Vec<isize>);

/// The source index that a map entry reads from.
pub open spec fn axis_source(m: isize) -> int {
    if m < 0 {
        -(m as int) - 1
    } else {
        m as int - 1
    }
}

/// Whether a map entry can be applied to a source of `src_len` values: it is
/// neither zero nor `isize::MIN`, and names an existing source axis.
pub open spec fn entry_valid(m: isize, src_len: int) -> bool {
    &&& m != 0
    &&& m != isize::MIN
    &&& axis_source(m) < src_len
}

/// The value that a map entry produces from `src`: the source axis, negated
/// when the entry is negative.
pub open spec fn axis_value<T: core::ops::Neg<Output = T>>(m: isize, src: Seq<T>) -> T {
    if m < 0 {
        src[axis_source(m)].neg_spec()
    } else {
        src[axis_source(m)]
    }
}

/// A map entry names its source axis by its absolute value, counted from
/// one; the sign only says whether the value is negated. So `m` and `-m`
/// read the same source axis, `m - 1`, and the negative entry yields the
/// negation of what the positive one copies.
pub proof fn lemma_entry_sign_keeps_axis<T: core::ops::Neg<Output = T>>(m: isize, src: Seq<T>)
    requires
        0 < m,
    ensures
        axis_source(m) == m - 1,
        axis_source((-m) as isize) == m - 1,
        axis_value(m, src) == src[m - 1],
        axis_value((-m) as isize, src) == src[m - 1].neg_spec(),
{
}

impl AxisMap {
    /// Whether every entry of the map can be applied to a source of
    /// `src_len` values and a destination of `dst_len` values.
    pub open spec fn valid_for(&self, src_len: int, dst_len: int) -> bool {
        &&& self.0@.len() <= dst_len
        &&& forall|i: int| 0 <= i < self.0@.len() ==> entry_valid(#[trigger] self.0@[i], src_len)
    }

    /// copy one axis
    pub fn copy_single<T: Copy + core::ops::Neg<Output = T>>(&self, dst: &mut [T], src: &[T], dstidx: usize)
        requires
            dstidx < self.0@.len(),
            dstidx < old(dst)@.len(),
            entry_valid(self.0@[dstidx as int], src@.len() as int),
            self.0@[dstidx as int] < 0 ==> src@[axis_source(self.0@[dstidx as int])].neg_req(),
        ensures
            final(dst)@.len() == old(dst)@.len(),
            forall|j: int| 0 <= j < old(dst)@.len() && j != dstidx ==> final(dst)@[j] == old(dst)@[j],
            self.0@[dstidx as int] > 0 ==> final(dst)@[dstidx as int] == src@[axis_source(self.0@[dstidx as int])],
            T::obeys_neg_spec() ==> final(dst)@[dstidx as int] == axis_value(self.0@[dstidx as int], src@),
    {
        let m = self.0[dstidx];
        let mut srcidx: usize = if m < 0 {
            (-m) as usize
        } else {
            m as usize
        };
        srcidx = srcidx - 1;

        let mut tmp = src[srcidx];
        if m < 0 {
            tmp = tmp.neg();
        }
        dst[dstidx] = tmp;
    }

    /// copy all axes
    pub fn copy<T: Copy + core::ops::Neg<Output = T>>(&self, dst: &mut [T], src: &[T])
        requires
            self.valid_for(src@.len() as int, old(dst)@.len() as int),
            forall|i: int| 0 <= i < self.0@.len() && #[trigger] self.0@[i] < 0 ==> src@[axis_source(self.0@[i])].neg_req(),
        ensures
            final(dst)@.len() == old(dst)@.len(),
            forall|j: int| self.0@.len() <= j < old(dst)@.len() ==> final(dst)@[j] == old(dst)@[j],
            forall|i: int| 0 <= i < self.0@.len() && #[trigger] self.0@[i] > 0 ==> final(dst)@[i] == src@[axis_source(self.0@[i])],
            T::obeys_neg_spec() ==> forall|i: int| 0 <= i < self.0@.len() ==> final(dst)@[i] == axis_value(#[trigger] self.0@[i], src@),
    {
        let n = self.0.len();
        let mut i: usize = 0;
        while i < n
            invariant
                n == self.0@.len(),
                0 <= i <= n,
                self.valid_for(src@.len() as int, old(dst)@.len() as int),
                forall|k: int| 0 <= k < self.0@.len() && #[trigger] self.0@[k] < 0 ==> src@[axis_source(self.0@[k])].neg_req(),
                dst@.len() == old(dst)@.len(),
                forall|j: int| i <= j < old(dst)@.len() ==> dst@[j] == old(dst)@[j],
                forall|k: int| 0 <= k < i && #[trigger] self.0@[k] > 0 ==> dst@[k] == src@[axis_source(self.0@[k])],
                T::obeys_neg_spec() ==> forall|k: int| 0 <= k < i ==> dst@[k] == axis_value(#[trigger] self.0@[k], src@),
            decreases n - i,
        {
            proof {
                assert(entry_valid(self.0@[i as int], src@.len() as int));
            }
            self.copy_single(dst, src, i);
            i = i + 1;
        }
    }
}

impl Default for AxisMap {
    fn default() -> (r: Self)
        ensures
            r.0@ == seq![1isize, 2isize, 3isize],
    {
        AxisMap(vec![1, 2, 3])
    }
}

/// Copying with the default map leaves the first three axes as they are.
pub proof fn lemma_default_map_is_identity<T: core::ops::Neg<Output = T>>(map: AxisMap, src: Seq<T>)
    requires
        map.0@ == seq![1isize, 2isize, 3isize],
        src.len() >= 3,
    ensures
        map.valid_for(src.len() as int, 3),
        forall|i: int| 0 <= i < 3 ==> axis_value(#[trigger] map.0@[i], src) == src[i],
{
}

} // verus!
