//! Sums over finite sets, and how they change when the set or the summand
//! changes.

use vstd::prelude::*;

verus! {

/// The sum of `weight(k)` over every `k` in the finite set `keys`.
pub open spec fn sum_over<K>(keys: Set<K>, weight: spec_fn(K) -> int) -> int {
    keys.fold(0int, |total: int, k: K| total + weight(k))
}

/// The sum over no key is zero.
pub proof fn lemma_sum_over_empty<K>(weight: spec_fn(K) -> int)
    ensures
        sum_over(Set::<K>::empty(), weight) == 0,
{
    vstd::set::fold::lemma_fold_empty(0int, |total: int, k: K| total + weight(k));
}

/// One more key adds its own weight to the sum.
pub proof fn lemma_sum_over_insert<K>(keys: Set<K>, weight: spec_fn(K) -> int, key: K)
    requires
        keys.finite(),
        !keys.contains(key),
    ensures
        sum_over(keys.insert(key), weight) == sum_over(keys, weight) + weight(key),
{
    let step = |total: int, k: K| total + weight(k);
    assert(vstd::set::fold::is_fun_commutative(step));
    vstd::set::fold::lemma_fold_insert(keys, 0int, step, key);
}

/// Two summands that agree on every key of the set have the same sum.
pub proof fn lemma_sum_over_agree<K>(keys: Set<K>, first: spec_fn(K) -> int, second: spec_fn(K) -> int)
    requires
        keys.finite(),
        forall|k: K| keys.contains(k) ==> #[trigger] first(k) == second(k),
    ensures
        sum_over(keys, first) == sum_over(keys, second),
    decreases keys.len(),
{
    if keys.len() == 0 {
        assert(keys =~= Set::<K>::empty());
        lemma_sum_over_empty(first);
        lemma_sum_over_empty(second);
    } else {
        let key = keys.choose();
        let rest = keys.remove(key);
        assert(keys =~= rest.insert(key));
        lemma_sum_over_agree(rest, first, second);
        lemma_sum_over_insert(rest, first, key);
        lemma_sum_over_insert(rest, second, key);
    }
}

} // verus!
