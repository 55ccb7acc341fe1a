//! The balance of an account in a balance map, and the sum of all balances.
use vstd::prelude::*;

verus! {

/// The balance that `m` gives `who`: the stored value, or zero where nothing is stored.
pub open spec fn balance_in(m: Map<u64, u64>, who: u64) -> nat {
    if m.contains_key(who) {
        m[who] as nat
    } else {
        0
    }
}

/// The sum of the balances that `m` gives the accounts of `keys`.
pub closed spec fn sum_over(m: Map<u64, u64>, keys: Set<u64>) -> nat
    decreases keys.len(),
{
    if keys.finite() && keys.len() > 0 {
        let k = keys.choose();
        balance_in(m, k) + sum_over(m, keys.remove(k))
    } else {
        0
    }
}

/// The sum of all balances stored in `m`.
pub open spec fn total_of(m: Map<u64, u64>) -> nat {
    sum_over(m, m.dom())
}

/// An empty map sums to zero.
pub proof fn lemma_total_empty()
    ensures
        total_of(Map::<u64, u64>::empty()) == 0,
{
    assert(Map::<u64, u64>::empty().dom() =~= Set::<u64>::empty());
}

/// Taking one account out of a finite set takes its balance out of the sum.
pub proof fn lemma_sum_remove(m: Map<u64, u64>, keys: Set<u64>, k: u64)
    requires
        keys.finite(),
        keys.contains(k),
    ensures
        sum_over(m, keys) == balance_in(m, k) + sum_over(m, keys.remove(k)),
    decreases keys.len(),
{
    let c = keys.choose();
    if c != k {
        lemma_sum_remove(m, keys.remove(c), k);
        lemma_sum_remove(m, keys.remove(k), c);
        assert(keys.remove(c).remove(k) =~= keys.remove(k).remove(c));
    }
}

/// Two maps that give every account of a finite set the same balance have the same sum over it.
pub proof fn lemma_sum_agree(m1: Map<u64, u64>, m2: Map<u64, u64>, keys: Set<u64>)
    requires
        keys.finite(),
        forall|k: u64| keys.contains(k) ==> balance_in(m1, k) == balance_in(m2, k),
    ensures
        sum_over(m1, keys) == sum_over(m2, keys),
    decreases keys.len(),
{
    if keys.len() > 0 {
        let c = keys.choose();
        lemma_sum_agree(m1, m2, keys.remove(c));
    }
}

/// Storing `v` for `k` replaces the balance of `k` in the total.
pub proof fn lemma_total_insert(m: Map<u64, u64>, k: u64, v: u64)
    requires
        m.dom().finite(),
    ensures
        total_of(m.insert(k, v)) + balance_in(m, k) == total_of(m) + v,
{
    let m2 = m.insert(k, v);
    lemma_sum_remove(m2, m2.dom(), k);
    assert(m2.dom().remove(k) =~= m.dom().remove(k));
    lemma_sum_agree(m2, m, m.dom().remove(k));
    if m.dom().contains(k) {
        lemma_sum_remove(m, m.dom(), k);
    } else {
        assert(m.dom().remove(k) =~= m.dom());
    }
}

/// No single balance exceeds the total.
pub proof fn lemma_one_le_total(m: Map<u64, u64>, a: u64)
    requires
        m.dom().finite(),
    ensures
        balance_in(m, a) <= total_of(m),
{
    if m.dom().contains(a) {
        lemma_sum_remove(m, m.dom(), a);
    }
}

/// The balances of two distinct accounts together do not exceed the total.
pub proof fn lemma_two_le_total(m: Map<u64, u64>, a: u64, b: u64)
    requires
        m.dom().finite(),
        a != b,
    ensures
        balance_in(m, a) + balance_in(m, b) <= total_of(m),
{
    if m.dom().contains(a) {
        lemma_sum_remove(m, m.dom(), a);
        if m.dom().contains(b) {
            lemma_sum_remove(m, m.dom().remove(a), b);
        }
    } else {
        lemma_one_le_total(m, b);
    }
}

} // verus!
