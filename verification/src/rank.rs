//! Ranking: the order that lists values from the greatest to the least and
//! keeps equal values in the order in which they were given.

use vstd::prelude::*;

verus! {

/// The value at place `a` is listed before the value at place `b`: it is the
/// greater one, or the two are equal and `a` is the earlier place.
pub open spec fn precedes(keys: Seq<i64>, a: int, b: int) -> bool {
    keys[a] > keys[b] || (keys[a] == keys[b] && a < b)
}

/// `order` lists the first `n` places of `keys`, each once, so that every
/// place precedes all that follow it.
pub open spec fn is_descending_order_of_first(keys: Seq<i64>, n: int, order: Seq<usize>) -> bool {
    &&& order.len() == n
    &&& forall|p: int| 0 <= p < n ==> (#[trigger] order[p]) < n
    &&& forall|k: usize| k < n ==> #[trigger] order.contains(k)
    &&& forall|p: int, q: int|
        0 <= p < q < n ==> precedes(keys, #[trigger] order[p] as int, #[trigger] order[q] as int)
}

/// `order` lists the places of `keys`, each once, from the greatest value to
/// the least, equal values in the order of their places.
pub open spec fn is_descending_order(keys: Seq<i64>, order: Seq<usize>) -> bool {
    is_descending_order_of_first(keys, keys.len() as int, order)
}

/// The descending order of `keys`. There is one for every sequence that an
/// index of type `usize` can walk, and only one.
pub open spec fn spec_descending_order(keys: Seq<i64>) -> Seq<usize> {
    choose|order: Seq<usize>| is_descending_order(keys, order)
}

/// The places of `keys` from the greatest value to the least, equal values in
/// the order of their places.
pub fn descending_order(keys: &Vec<i64>) -> (order: Vec<usize>)
    ensures
        is_descending_order(keys@, order@),
        order@ == spec_descending_order(keys@),
{
    let mut order: Vec<usize> = Vec::new();
    let mut k: usize = 0;
    while k < keys.len()
        invariant
            k <= keys.len(),
            is_descending_order_of_first(keys@, k as int, order@),
        decreases keys.len() - k,
    {
        let mut at: usize = 0;
        while at < order.len() && keys[order[at]] >= keys[k]
            invariant
                at <= order.len(),
                k < keys.len(),
                is_descending_order_of_first(keys@, k as int, order@),
                forall|p: int|
                    0 <= p < at ==> keys@[#[trigger] order@[p] as int] >= keys@[k as int],
            decreases order.len() - at,
        {
            at += 1;
        }
        let ghost before = order@;
        order.insert(at, k);
        proof {
            lemma_insert_next(keys@, k as int, before, at as int);
        }
        k += 1;
    }
    proof {
        assert(is_descending_order(keys@, order@));
        lemma_descending_order_unique(keys@, order@, spec_descending_order(keys@));
    }
    order
}

/// Entering place `k` into an order of the places before it, behind the values
/// that are no less and ahead of the first that is less, gives an order of the
/// places up to `k`.
proof fn lemma_insert_next(keys: Seq<i64>, k: int, before: Seq<usize>, at: int)
    requires
        0 <= k < keys.len(),
        k <= usize::MAX,
        is_descending_order_of_first(keys, k, before),
        0 <= at <= k,
        forall|p: int| 0 <= p < at ==> keys[#[trigger] before[p] as int] >= keys[k],
        at < k ==> keys[before[at] as int] < keys[k],
    ensures
        is_descending_order_of_first(keys, k + 1, before.insert(at, k as usize)),
{
    let after = before.insert(at, k as usize);
    assert(after.len() == k + 1);
    assert forall|p: int| 0 <= p < k + 1 implies (#[trigger] after[p]) < k + 1 by {
        if p < at {
            assert(after[p] == before[p]);
        } else if p > at {
            assert(after[p] == before[p - 1]);
        }
    }
    assert forall|j: usize| j < k + 1 implies #[trigger] after.contains(j) by {
        if j == k {
            assert(after[at] == j);
        } else {
            assert(before.contains(j));
            let p = choose|p: int| 0 <= p < before.len() && before[p] == j;
            if p < at {
                assert(after[p] == j);
            } else {
                assert(after[p + 1] == before[p]);
            }
        }
    }
    assert forall|p: int, q: int| 0 <= p < q < k + 1 implies precedes(
        keys,
        #[trigger] after[p] as int,
        #[trigger] after[q] as int,
    ) by {
        let old_p = if p < at { p } else { p - 1 };
        let old_q = if q < at { q } else { q - 1 };
        if p != at {
            assert(after[p] == before[old_p]);
        }
        if q != at {
            assert(after[q] == before[old_q]);
        }
        if q == at {
            assert(keys[before[old_p] as int] >= keys[k]);
        } else if p == at {
            if old_q > at {
                assert(precedes(keys, before[at] as int, before[old_q] as int));
            }
        } else {
            assert(precedes(keys, before[old_p] as int, before[old_q] as int));
        }
    }
}

/// The place at or after `from` at which place `k` enters the order `before`:
/// behind every value that is no less than its own.
proof fn find_entry(keys: Seq<i64>, k: int, before: Seq<usize>, from: int) -> (at: int)
    requires
        0 <= k < keys.len(),
        is_descending_order_of_first(keys, k, before),
        0 <= from <= k,
        forall|p: int| 0 <= p < from ==> keys[#[trigger] before[p] as int] >= keys[k],
    ensures
        from <= at <= k,
        forall|p: int| 0 <= p < at ==> keys[#[trigger] before[p] as int] >= keys[k],
        at < k ==> keys[before[at] as int] < keys[k],
    decreases k - from,
{
    if from < k && keys[before[from] as int] >= keys[k] {
        find_entry(keys, k, before, from + 1)
    } else {
        from
    }
}

/// An order of the first `n` places of `keys`.
proof fn build_order(keys: Seq<i64>, n: int) -> (order: Seq<usize>)
    requires
        0 <= n <= keys.len() <= usize::MAX,
    ensures
        is_descending_order_of_first(keys, n, order),
    decreases n,
{
    if n == 0 {
        Seq::empty()
    } else {
        let before = build_order(keys, n - 1);
        let at = find_entry(keys, n - 1, before, 0);
        lemma_insert_next(keys, n - 1, before, at);
        before.insert(at, (n - 1) as usize)
    }
}

/// Every sequence of values that an index of type `usize` can walk has a
/// descending order.
pub proof fn lemma_descending_order_exists(keys: Seq<i64>)
    requires
        keys.len() <= usize::MAX,
    ensures
        is_descending_order(keys, spec_descending_order(keys)),
{
    let order = build_order(keys, keys.len() as int);
    assert(is_descending_order(keys, order));
}

/// Two orders of the same values agree on every place below `n`.
proof fn lemma_same_up_to(keys: Seq<i64>, a: Seq<usize>, b: Seq<usize>, n: int)
    requires
        is_descending_order(keys, a),
        is_descending_order(keys, b),
        0 <= n <= keys.len(),
    ensures
        forall|p: int| 0 <= p < n ==> a[p] == b[p],
    decreases n,
{
    if n > 0 {
        lemma_same_up_to(keys, a, b, n - 1);
        let i = n - 1;
        let x = a[i] as int;
        let y = b[i] as int;
        assert(b.contains(a[i]));
        assert(a.contains(b[i]));
        let p = choose|p: int| 0 <= p < b.len() && b[p] == a[i];
        let q = choose|q: int| 0 <= q < a.len() && a[q] == b[i];
        if p < i {
            assert(precedes(keys, a[p] as int, a[i] as int));
        } else if p > i {
            assert(precedes(keys, b[i] as int, b[p] as int));
            if q < i {
                assert(precedes(keys, b[q] as int, b[i] as int));
            } else if q > i {
                assert(precedes(keys, a[i] as int, a[q] as int));
            }
        }
    }
}

/// A sequence of values has one descending order and no other.
pub proof fn lemma_descending_order_unique(keys: Seq<i64>, a: Seq<usize>, b: Seq<usize>)
    requires
        is_descending_order(keys, a),
        is_descending_order(keys, b),
    ensures
        a == b,
{
    lemma_same_up_to(keys, a, b, keys.len() as int);
    assert(a =~= b);
}

/// Along a descending order the values never rise, and where no two values
/// are equal they fall from each place to the next.
pub proof fn lemma_descending_values(keys: Seq<i64>, order: Seq<usize>, p: int, q: int)
    requires
        is_descending_order(keys, order),
        0 <= p < q < order.len(),
    ensures
        keys[order[p] as int] >= keys[order[q] as int],
        order[p] != order[q],
        (forall|i: int, j: int| 0 <= i < j < keys.len() ==> keys[i] != keys[j])
            ==> keys[order[p] as int] > keys[order[q] as int],
{
    assert(precedes(keys, order[p] as int, order[q] as int));
}

} // verus!
