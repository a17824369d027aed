use vstd::prelude::*;

verus! {

broadcast use vstd::seq_lib::group_to_multiset_ensures;

/// A message's place in the order: its timestamp, then its retrieval position.
pub open spec fn stamp_lt(a: (i64, usize), b: (i64, usize)) -> bool {
    a.0 < b.0 || (a.0 == b.0 && a.1 < b.1)
}

pub open spec fn stamp_le(a: (i64, usize), b: (i64, usize)) -> bool {
    stamp_lt(a, b) || a == b
}

/// `order` lists every position of `dates` once, oldest message first, and
/// messages with equal timestamps in the order in which they were retrieved.
pub open spec fn is_chronological(dates: Seq<i64>, order: Seq<usize>) -> bool {
    &&& order.len() == dates.len()
    &&& forall|i: int| 0 <= i < order.len() ==> order[i] < dates.len()
    &&& forall|k: usize| k < dates.len() ==> order.contains(k)
    &&& forall|i: int, j: int|
        0 <= i < j < order.len() ==> stamp_lt(
            (dates[order[i] as int], order[i]),
            (dates[order[j] as int], order[j]),
        )
}

/// Relies on `slice::sort`: it sorts in ascending order, keeps the elements, and
/// tuples of integers compare lexicographically.
#[verifier::external_body]
fn sort_stamps(v: &mut Vec<(i64, usize)>)
    ensures
        final(v)@.to_multiset() == old(v)@.to_multiset(),
        forall|i: int, j: int|
            0 <= i < j < final(v)@.len() ==> stamp_le(#[trigger] final(v)@[i], #[trigger] final(v)@[j]),
{
    v.sort();
}

/// Positions of the messages whose timestamps are `dates`, in chronological
/// order; a stable sort by timestamp.
pub fn chronological_order(dates: &Vec<i64>) -> (order: Vec<usize>)
    ensures
        is_chronological(dates@, order@),
        forall|i: int, j: int|
            0 <= i < j < order@.len() ==> dates@[order@[i] as int] <= dates@[order@[j] as int],
        forall|i: int, j: int|
            0 <= i < j < order@.len() && dates@[order@[i] as int] == dates@[order@[j] as int]
                ==> order@[i] < order@[j],
{
    let n = dates.len();
    let mut stamps: Vec<(i64, usize)> = Vec::with_capacity(n);
    let mut k: usize = 0;
    while k < n
        invariant
            k <= n,
            n == dates@.len(),
            stamps@.len() == k,
            forall|i: int| 0 <= i < k ==> #[trigger] stamps@[i] == (dates@[i], i as usize),
        decreases n - k,
    {
        stamps.push((dates[k], k));
        k += 1;
    }
    let ghost before = stamps@;
    sort_stamps(&mut stamps);
    proof {
        assert(stamps@.len() == before.len()) by {
            assert(stamps@.to_multiset().len() == before.to_multiset().len());
        }
        assert forall|i: int| 0 <= i < stamps@.len() implies
            (#[trigger] stamps@[i]).1 < n && stamps@[i].0 == dates@[stamps@[i].1 as int] by {
            assert(stamps@.contains(stamps@[i]));
            assert(stamps@.to_multiset().count(stamps@[i]) > 0);
            assert(before.contains(stamps@[i]));
        }
        assert forall|i: int, j: int| 0 <= i < j < stamps@.len() implies
            stamp_lt(#[trigger] stamps@[i], #[trigger] stamps@[j]) by {
            assert(stamp_le(stamps@[i], stamps@[j]));
            if stamps@[i] == stamps@[j] {
                lemma_no_repeat(before, stamps@, i, j);
            }
        }
    }
    let mut order: Vec<usize> = Vec::with_capacity(n);
    let mut m: usize = 0;
    while m < n
        invariant
            m <= n,
            n == dates@.len(),
            stamps@.len() == n,
            order@.len() == m,
            forall|i: int| 0 <= i < m ==> #[trigger] order@[i] == stamps@[i].1,
        decreases n - m,
    {
        order.push(stamps[m].1);
        m += 1;
    }
    proof {
        assert forall|c: usize| c < dates@.len() implies order@.contains(c) by {
            assert(before[c as int] == (dates@[c as int], c));
            assert(before.contains(before[c as int]));
            assert(stamps@.to_multiset().count(before[c as int]) > 0);
            let i = choose|i: int| 0 <= i < stamps@.len() && stamps@[i] == before[c as int];
            assert(order@[i] == c);
        }
    }
    order
}

/// A sequence of distinct stamps, rearranged, holds no stamp twice.
proof fn lemma_no_repeat(before: Seq<(i64, usize)>, after: Seq<(i64, usize)>, i: int, j: int)
    requires
        after.to_multiset() == before.to_multiset(),
        forall|p: int| 0 <= p < before.len() ==> #[trigger] before[p].1 as int == p,
        before.len() <= usize::MAX,
        0 <= i < j < after.len(),
    ensures
        after[i] != after[j],
{
    if after[i] == after[j] {
        let x = after[i];
        assert(before.no_duplicates()) by {
            assert forall|p: int, q: int| 0 <= p < before.len() && 0 <= q < before.len() && p != q
                implies before[p] != before[q] by {
                assert(before[p].1 as int == p);
                assert(before[q].1 as int == q);
            }
        }
        before.lemma_multiset_has_no_duplicates();
        assert(after.remove(j).contains(x)) by {
            if i < j {
                assert(after.remove(j)[i] == x);
            }
        }
        assert(after.to_multiset() == after.remove(j).to_multiset().insert(after[j])) by {
            after.to_multiset_ensures();
            after.remove(j).to_multiset_ensures();
        }
        assert(after.remove(j).to_multiset().count(x) > 0);
        assert(before.to_multiset().count(x) > 1);
    }
}

} // verus!
