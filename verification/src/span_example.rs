//! Borrowed windows over contiguous data.
//!
//! A `DataContainer` owns a vector of elements and hands out read-only
//! or exclusive read-write windows into it. Every window is a borrow,
//! so it can neither outlive the container nor coexist with a
//! conflicting window; the contracts here state exactly which elements
//! each window covers. The free functions show bounds-respecting
//! computation over such windows.

use vstd::prelude::*;
use vstd::slice::slice_subrange;

verus! {

/// The sum of the first `n` elements, as an unbounded integer.
pub open spec fn sum_prefix(s: Seq<i32>, n: int) -> int
    decreases n,
{
    if n <= 0 {
        0
    } else {
        sum_prefix(s, n - 1) + s[n - 1]
    }
}

/// The sum of all elements, as an unbounded integer.
pub open spec fn sum_spec(s: Seq<i32>) -> int {
    sum_prefix(s, s.len() as int)
}

/// Adds up the elements of a window. Inputs on which some running
/// total would leave the `i32` range are excluded: on those the
/// addition itself has no defined result to state.
pub fn sum(window: &[i32]) -> (total: i32)
    requires
        forall|n: int| 0 <= n <= window@.len() ==> i32::MIN <= #[trigger] sum_prefix(
            window@,
            n,
        ) <= i32::MAX,
    ensures
        total == sum_spec(window@),
{
    let n = window.len();
    let mut total: i32 = 0;
    let mut i: usize = 0;
    while i < n
        invariant
            i <= n,
            n == window@.len(),
            total == sum_prefix(window@, i as int),
            forall|k: int| 0 <= k <= window@.len() ==> i32::MIN <= #[trigger] sum_prefix(
                window@,
                k,
            ) <= i32::MAX,
        decreases n - i,
    {
        let v = *vstd::slice::slice_index_get(window, i);
        assert(sum_prefix(window@, i + 1) == sum_prefix(window@, i as int) + window@[i as int]);
        total = total + v;
        i = i + 1;
    }
    total
}

/// The two halves partition the whole: their lengths add up to the
/// full length, and joining them end to end restores the contents.
/// `first_half` and `last_half` — on a container or on a buffer —
/// return exactly these two subranges.
pub proof fn lemma_halves_partition(contents: Seq<i32>)
    ensures
        contents.subrange(0, contents.len() as int / 2).len() + contents.subrange(
            contents.len() as int / 2,
            contents.len() as int,
        ).len() == contents.len(),
        contents.subrange(0, contents.len() as int / 2) + contents.subrange(
            contents.len() as int / 2,
            contents.len() as int,
        ) == contents,
{
    assert(contents.subrange(0, contents.len() as int / 2) + contents.subrange(
        contents.len() as int / 2,
        contents.len() as int,
    ) =~= contents);
}

/// Every pair of elements appears in non-decreasing order.
pub open spec fn sorted(s: Seq<i32>) -> bool {
    forall|i: int, j: int| 0 <= i <= j < s.len() ==> s[i] <= s[j]
}

/// Exchanging two elements of a sequence leaves its multiset of
/// elements unchanged.
pub proof fn lemma_swap_multiset(s: Seq<i32>, i: int, j: int)
    requires
        0 <= i < s.len(),
        0 <= j < s.len(),
    ensures
        s.update(i, s[j]).update(j, s[i]).to_multiset() == s.to_multiset(),
{
    broadcast use vstd::seq_lib::to_multiset_update;
    broadcast use vstd::seq_lib::group_to_multiset_ensures;

    if i == j {
        assert(s.update(i, s[j]).update(j, s[i]) =~= s);
    } else {
        let t = s.update(i, s[j]);
        assert(t[j] == s[j]);
        assert(t.to_multiset() == s.to_multiset().insert(s[j]).remove(s[i]));
        assert(t.update(j, s[i]).to_multiset() == t.to_multiset().insert(s[i]).remove(s[j]));
        assert(s.to_multiset().contains(s[i]));
        assert(s.to_multiset().insert(s[j]).remove(s[i]).insert(s[i]).remove(s[j])
            =~= s.to_multiset());
    }
}

/// Sorts a window in place, in non-decreasing order. The elements
/// afterwards are exactly the elements before, rearranged.
pub fn sort_slice(window: &mut [i32])
    ensures
        sorted(final(window)@),
        final(window)@.to_multiset() == old(window)@.to_multiset(),
{
    let n = window.len();
    let mut i: usize = 0;
    while i < n
        invariant
            i <= n,
            window@.len() == n,
            window@.to_multiset() == old(window)@.to_multiset(),
            forall|a: int, b: int| 0 <= a <= b < i ==> window@[a] <= window@[b],
            forall|a: int, b: int| 0 <= a < i <= b < n ==> window@[a] <= window@[b],
        decreases n - i,
    {
        let mut m: usize = i;
        let mut j: usize = i + 1;
        while j < n
            invariant
                i <= m < j <= n,
                n == window@.len(),
                forall|k: int| i <= k < j ==> window@[m as int] <= window@[k],
            decreases n - j,
        {
            if window[j] < window[m] {
                m = j;
            }
            j = j + 1;
        }
        let ghost s0 = window@;
        let vi = window[i];
        let vm = window[m];
        window[i] = vm;
        window[m] = vi;
        proof {
            lemma_swap_multiset(s0, i as int, m as int);
            assert(window@ == s0.update(i as int, s0[m as int]).update(m as int, s0[i as int]));
        }
        i = i + 1;
    }
}

/// Applies `f` to every element of a window, collecting the results
/// in order. `f` must accept every element the window holds; each
/// element of the result is then related to its source by `f`'s own
/// contract.
pub fn map_slice<F>(window: &[i32], f: F) -> (mapped: Vec<i32>) where F: Fn(i32) -> i32
    requires
        forall|x: i32| window@.contains(x) ==> #[trigger] f.requires((x,)),
    ensures
        mapped@.len() == window@.len(),
        forall|i: int| 0 <= i < window@.len() ==> #[trigger] f.ensures(
            (window@[i],),
            mapped@[i],
        ),
{
    let n = window.len();
    let mut mapped: Vec<i32> = Vec::new();
    let mut i: usize = 0;
    while i < n
        invariant
            i <= n,
            n == window@.len(),
            mapped@.len() == i,
            forall|x: i32| window@.contains(x) ==> #[trigger] f.requires((x,)),
            forall|j: int| 0 <= j < i ==> #[trigger] f.ensures((window@[j],), mapped@[j]),
        decreases n - i,
    {
        let v = *vstd::slice::slice_index_get(window, i);
        assert(window@.contains(window@[i as int]));
        let w = f(v);
        mapped.push(w);
        i = i + 1;
    }
    mapped
}

/// A container that exposes windows into its own storage.
pub struct DataContainer {
    data: Vec<i32>,
}

impl View for DataContainer {
    type V = Seq<i32>;

    closed spec fn view(&self) -> Seq<i32> {
        self.data@
    }
}

impl DataContainer {
    /// Wraps the given elements.
    pub fn new(data: Vec<i32>) -> (c: DataContainer)
        ensures
            c@ == data@,
    {
        DataContainer { data }
    }

    /// Returns the number of elements held.
    pub fn len(&self) -> (n: usize)
        ensures
            n == self@.len(),
    {
        self.data.len()
    }

    /// Returns whether the container holds no elements.
    pub fn is_empty(&self) -> (empty: bool)
        ensures
            empty == (self@.len() == 0),
    {
        self.data.len() == 0
    }

    /// Borrows a read-only window over all elements.
    pub fn as_slice(&self) -> (window: &[i32])
        ensures
            window@ == self@,
    {
        self.data.as_slice()
    }

    /// Borrows the first half: the smaller half when the length is
    /// odd, split at `len / 2`.
    pub fn first_half(&self) -> (window: &[i32])
        ensures
            window@ == self@.subrange(0, self@.len() as int / 2),
    {
        let mid = self.data.len() / 2;
        slice_subrange(self.data.as_slice(), 0, mid)
    }

    /// Borrows the last half, from `len / 2` to the end.
    pub fn last_half(&self) -> (window: &[i32])
        ensures
            window@ == self@.subrange(self@.len() as int / 2, self@.len() as int),
    {
        let mid = self.data.len() / 2;
        slice_subrange(self.data.as_slice(), mid, self.data.len())
    }

    /// Borrows the first half as an exclusive read-write window; the
    /// last half keeps its elements, whatever is written through the
    /// window.
    pub fn first_half_mut(&mut self) -> (window: &mut [i32])
        ensures
            window@ == old(self)@.subrange(0, old(self)@.len() as int / 2),
            final(self)@ == final(window)@ + old(self)@.subrange(
                old(self)@.len() as int / 2,
                old(self)@.len() as int,
            ),
    {
        let mid = self.data.len() / 2;
        let (left, _right) = self.data.as_mut_slice().split_at_mut(mid);
        left
    }

    /// Borrows the window over `[start, end)`, or returns `None` when
    /// the range is inverted or reaches past the end.
    pub fn get_range(&self, start: usize, end: usize) -> (window: Option<&[i32]>)
        ensures
            start <= end <= self@.len() ==> (window matches Some(w) && w@ == self@.subrange(
                start as int,
                end as int,
            )),
            !(start <= end <= self@.len()) ==> window is None,
    {
        if start <= end && end <= self.data.len() {
            Some(slice_subrange(self.data.as_slice(), start, end))
        } else {
            None
        }
    }
}

} // verus!
