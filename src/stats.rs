//! Order statistics on integer samples.
use vstd::prelude::*;

verus! {

/// Every element is at most every later element.
pub open spec fn is_sorted(s: Seq<i32>) -> bool {
    forall|a: int, b: int| 0 <= a < b < s.len() ==> s[a] <= s[b]
}

/// Sorts `v` into ascending order, in place (insertion sort by swaps).
pub fn sort_ascending(v: &mut [i32])
    ensures
        final(v)@.len() == old(v)@.len(),
        is_sorted(final(v)@),
        final(v)@.to_multiset() == old(v)@.to_multiset(),
{
    broadcast use vstd::seq_lib::group_to_multiset_ensures;
    let n = v.len();
    let mut i: usize = 1;
    while i < n
        invariant
            n == v@.len(),
            1 <= i || n == 0,
            forall|a: int, b: int| 0 <= a < b < i && b < n ==> v@[a] <= v@[b],
            v@.to_multiset() == old(v)@.to_multiset(),
        decreases n - i,
    {
        let mut j: usize = i;
        while j > 0 && v[j - 1] > v[j]
            invariant
                n == v@.len(),
                0 <= j <= i < n,
                forall|a: int, b: int|
                    0 <= a < b <= i && a != j && b != j ==> v@[a] <= v@[b],
                forall|b: int| j < b <= i ==> v@[j as int] <= v@[b],
                v@.to_multiset() == old(v)@.to_multiset(),
            decreases j,
        {
            let x = v[j - 1];
            let y = v[j];
            let ghost before = v@;
            v[j - 1] = y;
            v[j] = x;
            proof {
                assert(v@ == before.update(j - 1, y).update(j as int, x));
                let mid = before.update(j - 1, y);
                vstd::seq_lib::to_multiset_update(before, j - 1, y);
                vstd::seq_lib::to_multiset_update(mid, j as int, x);
                assert(before.contains(x)) by {
                    assert(before[j - 1] == x);
                }
                vstd::seq_lib::to_multiset_contains(before, x);
                assert(v@.to_multiset() =~= before.to_multiset());
            }
            j = j - 1;
        }
        i = i + 1;
    }
}

/// The ascending order on samples, as a relation.
pub open spec fn ascending() -> spec_fn(i32, i32) -> bool {
    |a: i32, b: i32| a <= b
}

/// `s` rearranged into ascending order.
pub open spec fn sorted_of(s: Seq<i32>) -> Seq<i32> {
    s.sort_by(ascending())
}

/// The element at index `len / 2` of `s` in ascending order: the middle
/// element, or the upper of the two middle elements when the length is even.
pub open spec fn median_of(s: Seq<i32>) -> i32
    recommends
        s.len() > 0,
{
    sorted_of(s)[(s.len() / 2) as int]
}

proof fn lemma_ascending_total()
    ensures
        vstd::relations::total_ordering(ascending()),
{
    reveal(vstd::relations::total_ordering);
}

/// A sorted rearrangement of `s` is `sorted_of(s)`.
proof fn lemma_sorted_is_sorted_of(t: Seq<i32>, s: Seq<i32>)
    requires
        is_sorted(t),
        t.to_multiset() == s.to_multiset(),
    ensures
        t == sorted_of(s),
{
    lemma_ascending_total();
    s.lemma_sort_by_ensures(ascending());
    assert(vstd::relations::sorted_by(t, ascending()));
    vstd::seq_lib::lemma_sorted_unique(t, sorted_of(s), ascending());
}

/// The median depends only on which values were sampled, and how often,
/// not on the order in which they came.
pub proof fn lemma_median_ignores_order(s: Seq<i32>, t: Seq<i32>)
    requires
        s.to_multiset() == t.to_multiset(),
    ensures
        sorted_of(s) == sorted_of(t),
        s.len() == t.len(),
        median_of(s) == median_of(t),
{
    lemma_ascending_total();
    s.lemma_sort_by_ensures(ascending());
    t.lemma_sort_by_ensures(ascending());
    vstd::seq_lib::lemma_sorted_unique(sorted_of(s), sorted_of(t), ascending());
    vstd::seq_lib::to_multiset_len(s);
    vstd::seq_lib::to_multiset_len(t);
}

/// Sorts `numbers` ascending and returns the element at index `len / 2`.
pub fn median(numbers: &mut [i32]) -> (r: i32)
    requires
        old(numbers)@.len() > 0,
    ensures
        final(numbers)@ == sorted_of(old(numbers)@),
        r == median_of(old(numbers)@),
{
    sort_ascending(numbers);
    proof {
        lemma_sorted_is_sorted_of(numbers@, old(numbers)@);
    }
    let mid = numbers.len() / 2;
    numbers[mid]
}

} // verus!
