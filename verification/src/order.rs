//! Searching and ordering of sequences.

use vstd::prelude::*;

verus! {

/// Whether `i` is the first position of `s` that holds `x`.
pub open spec fn is_first_at<A>(s: Seq<A>, x: A, i: int) -> bool {
    &&& 0 <= i < s.len()
    &&& s[i] == x
    &&& forall|j: int| 0 <= j < i ==> s[j] != x
}

/// The first position of `s` that holds `x`, if there is one.
pub open spec fn first_index<A>(s: Seq<A>, x: A) -> Option<int>
    decreases s.len(),
{
    if s.len() == 0 {
        None
    } else {
        match first_index(s.drop_last(), x) {
            Some(i) => Some(i),
            None => if s.last() == x {
                Some(s.len() - 1)
            } else {
                None
            },
        }
    }
}

/// `first_index` finds the first position that holds `x`, and finds nothing
/// exactly when no position holds it.
pub proof fn lemma_first_index<A>(s: Seq<A>, x: A)
    ensures
        match first_index(s, x) {
            Some(i) => is_first_at(s, x, i),
            None => forall|j: int| 0 <= j < s.len() ==> s[j] != x,
        },
    decreases s.len(),
{
    if s.len() > 0 {
        lemma_first_index(s.drop_last(), x);
        match first_index(s.drop_last(), x) {
            Some(i) => {
                assert(s.drop_last()[i] == s[i]);
                assert forall|j: int| 0 <= j < i implies s[j] != x by {
                    assert(s.drop_last()[j] == s[j]);
                }
            },
            None => {
                assert forall|j: int| 0 <= j < s.len() - 1 implies s[j] != x by {
                    assert(s.drop_last()[j] == s[j]);
                }
            },
        }
    }
}

/// Whether position `a` comes before position `b` in recency order: the
/// later time first, and of two equal times the earlier position.
pub open spec fn precedes(times: Seq<i64>, a: int, b: int) -> bool {
    times[a] > times[b] || (times[a] == times[b] && a < b)
}

/// Whether `order` lists every position of `times` once, most recent first,
/// equal times in the order of their positions.
pub open spec fn is_recency_order(times: Seq<i64>, order: Seq<int>) -> bool {
    &&& order.len() == times.len()
    &&& forall|i: int| 0 <= i < order.len() ==> 0 <= #[trigger] order[i] < times.len()
    &&& forall|k: int| 0 <= k < times.len() ==> #[trigger] order.contains(k)
    &&& forall|i: int, j: int|
        0 <= i < j < order.len() ==> precedes(times, #[trigger] order[i], #[trigger] order[j])
}

/// Where a position with time `t` goes into `order`: behind every position
/// whose time is at least `t`.
pub open spec fn slot(order: Seq<int>, times: Seq<i64>, t: i64) -> int
    decreases order.len(),
{
    if order.len() == 0 {
        0
    } else if times[order.last()] >= t {
        order.len() as int
    } else {
        slot(order.drop_last(), times, t)
    }
}

/// The first `k` positions of `times` in recency order.
pub open spec fn recency_prefix(times: Seq<i64>, k: nat) -> Seq<int>
    decreases k,
{
    if k == 0 {
        Seq::empty()
    } else {
        let rest = recency_prefix(times, (k - 1) as nat);
        rest.insert(slot(rest, times, times[k - 1]), k - 1)
    }
}

/// The positions of `times`, most recent first, equal times in the order of
/// their positions.
pub open spec fn recency_order(times: Seq<i64>) -> Seq<int> {
    recency_prefix(times, times.len())
}

/// The items of `items` at the positions that `order` lists.
pub open spec fn pick<A>(items: Seq<A>, order: Seq<int>) -> Seq<A> {
    Seq::new(order.len(), |i: int| items[order[i]])
}

proof fn lemma_slot(order: Seq<int>, times: Seq<i64>, t: i64)
    requires
        forall|i: int| 0 <= i < order.len() ==> 0 <= #[trigger] order[i] < times.len(),
        forall|i: int, j: int|
            0 <= i < j < order.len() ==> precedes(times, #[trigger] order[i], #[trigger] order[j]),
    ensures
        0 <= slot(order, times, t) <= order.len(),
        forall|i: int| 0 <= i < slot(order, times, t) ==> times[#[trigger] order[i]] >= t,
        forall|i: int| slot(order, times, t) <= i < order.len() ==> times[#[trigger] order[i]] < t,
    decreases order.len(),
{
    if order.len() > 0 {
        let last = order.len() - 1;
        if times[order.last()] >= t {
            assert forall|i: int| 0 <= i < order.len() implies times[#[trigger] order[i]] >= t by {
                if i < last {
                    assert(precedes(times, order[i], order[last]));
                }
            }
        } else {
            let front = order.drop_last();
            assert forall|i: int, j: int| 0 <= i < j < front.len() implies precedes(
                times,
                #[trigger] front[i],
                #[trigger] front[j],
            ) by {
                assert(front[i] == order[i] && front[j] == order[j]);
            }
            assert forall|i: int| 0 <= i < front.len() implies 0 <= #[trigger] front[i]
                < times.len() by {
                assert(front[i] == order[i]);
            }
            lemma_slot(front, times, t);
            let p = slot(front, times, t);
            assert forall|i: int| 0 <= i < p implies times[#[trigger] order[i]] >= t by {
                assert(front[i] == order[i]);
            }
            assert forall|i: int| p <= i < order.len() implies times[#[trigger] order[i]] < t by {
                if i < last {
                    assert(front[i] == order[i]);
                }
            }
        }
    }
}

/// The first `k` positions, put in recency order, are exactly the positions
/// below `k`, each once, most recent first and equal times in position order.
pub proof fn lemma_recency_prefix(times: Seq<i64>, k: nat)
    requires
        k <= times.len(),
    ensures
        is_recency_order(times.take(k as int), recency_prefix(times, k)),
    decreases k,
{
    let order = recency_prefix(times, k);
    let cut = times.take(k as int);
    if k > 0 {
        let rest = recency_prefix(times, (k - 1) as nat);
        let before = times.take(k - 1);
        lemma_recency_prefix(times, (k - 1) as nat);
        assert forall|i: int, j: int| 0 <= i < j < rest.len() implies precedes(
            times,
            #[trigger] rest[i],
            #[trigger] rest[j],
        ) by {
            assert(precedes(before, rest[i], rest[j]));
        }
        let t = times[k - 1];
        lemma_slot(rest, times, t);
        let p = slot(rest, times, t);
        assert(order == rest.insert(p, k - 1));
        assert forall|i: int| 0 <= i < order.len() implies 0 <= #[trigger] order[i] < cut.len() by {
            if i < p {
                assert(order[i] == rest[i]);
            } else if i > p {
                assert(order[i] == rest[i - 1]);
            }
        }
        assert forall|j: int| 0 <= j < cut.len() implies #[trigger] order.contains(j) by {
            if j == k - 1 {
                assert(order[p] == j);
            } else {
                assert(rest.contains(j));
                let i = choose|i: int| 0 <= i < rest.len() && rest[i] == j;
                if i < p {
                    assert(order[i] == j);
                } else {
                    assert(order[i + 1] == j);
                }
            }
        }
        assert forall|i: int, j: int| 0 <= i < j < order.len() implies precedes(
            cut,
            #[trigger] order[i],
            #[trigger] order[j],
        ) by {
            let a = if i < p { rest[i] } else if i == p { k - 1 } else { rest[i - 1] };
            let b = if j < p { rest[j] } else if j == p { k - 1 } else { rest[j - 1] };
            assert(order[i] == a && order[j] == b);
            if i < p && j < p {
                assert(precedes(times, rest[i], rest[j]));
            } else if i < p && j == p {
                assert(times[rest[i]] >= t);
            } else if i < p && j > p {
                assert(precedes(times, rest[i], rest[j - 1]));
            } else if i == p {
                assert(times[rest[j - 1]] < t);
            } else {
                assert(precedes(times, rest[i - 1], rest[j - 1]));
            }
        }
    }
}

/// The recency order lists every position once, most recent first, and
/// keeps positions with equal times in the order of the positions.
pub proof fn lemma_recency_order(times: Seq<i64>)
    ensures
        is_recency_order(times, recency_order(times)),
{
    lemma_recency_prefix(times, times.len());
    assert(times.take(times.len() as int) =~= times);
}

proof fn lemma_orders_agree_upto(times: Seq<i64>, a: Seq<int>, b: Seq<int>, i: int)
    requires
        is_recency_order(times, a),
        is_recency_order(times, b),
        0 <= i <= times.len(),
    ensures
        forall|j: int| 0 <= j < i ==> a[j] == b[j],
    decreases i,
{
    if i > 0 {
        lemma_orders_agree_upto(times, a, b, i - 1);
        let k = i - 1;
        let x = a[k];
        let y = b[k];
        if x != y {
            assert(0 <= x < times.len() && 0 <= y < times.len());
            assert(b.contains(x));
            let p = choose|p: int| 0 <= p < b.len() && b[p] == x;
            assert(a.contains(y));
            let q = choose|q: int| 0 <= q < a.len() && a[q] == y;
            if p < k {
                assert(a[p] == b[p]);
                assert(precedes(times, a[p], a[k]));
            } else if p > k {
                assert(precedes(times, b[k], b[p]));
                if q < k {
                    assert(a[q] == b[q]);
                    assert(precedes(times, b[q], b[k]));
                } else if q > k {
                    assert(precedes(times, a[k], a[q]));
                }
            }
        }
    }
}

/// There is only one recency order: two lists that both hold every position
/// once, most recent first and equal times in position order, are the same
/// list.
pub proof fn lemma_recency_order_unique(times: Seq<i64>, a: Seq<int>, b: Seq<int>)
    requires
        is_recency_order(times, a),
        is_recency_order(times, b),
    ensures
        a == b,
        a == recency_order(times),
{
    lemma_orders_agree_upto(times, a, b, times.len() as int);
    assert(a =~= b);
    lemma_recency_order(times);
    lemma_orders_agree_upto(times, a, recency_order(times), times.len() as int);
    assert(a =~= recency_order(times));
}

/// The positions of `times` in recency order.
pub fn recency_positions(times: &Vec<i64>) -> (order: Vec<usize>)
    ensures
        order@.map_values(|p: usize| p as int) == recency_order(times@),
        is_recency_order(times@, order@.map_values(|p: usize| p as int)),
{
    let mut order: Vec<usize> = Vec::new();
    let mut k: usize = 0;
    while k < times.len()
        invariant
            k <= times.len(),
            order@.map_values(|p: usize| p as int) =~= recency_prefix(times@, k as nat),
        decreases times.len() - k,
    {
        let ghost rest = recency_prefix(times@, k as nat);
        proof {
            lemma_recency_prefix(times@, k as nat);
            assert forall|i: int| 0 <= i < rest.len() implies 0 <= #[trigger] rest[i] < k by {}
            assert(rest.take(order.len() as int) =~= rest);
        }
        let t = times[k];
        let mut p: usize = order.len();
        while p > 0 && times[order[p - 1]] < t
            invariant
                p <= order.len(),
                order.len() == rest.len(),
                k < times.len(),
                t == times@[k as int],
                order@.map_values(|q: usize| q as int) =~= rest,
                forall|i: int| 0 <= i < rest.len() ==> 0 <= #[trigger] rest[i] < k,
                slot(rest, times@, t) == slot(rest.take(p as int), times@, t),
            decreases p,
        {
            proof {
                assert(rest.take(p as int).drop_last() =~= rest.take(p - 1));
                assert(rest.take(p as int).last() == order@[p - 1] as int);
            }
            p = p - 1;
        }
        proof {
            if p > 0 {
                assert(rest.take(p as int).last() == order@[p - 1] as int);
            }
            assert(slot(rest, times@, t) == p);
        }
        order.insert(p, k);
        proof {
            assert(order@.map_values(|q: usize| q as int) =~= rest.insert(p as int, k as int));
        }
        k = k + 1;
    }
    proof {
        lemma_recency_order(times@);
    }
    order
}

} // verus!
