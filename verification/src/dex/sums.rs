//! The sum of all share counts of a ledger.

use vstd::prelude::*;
use crate::address::AccountId;

verus! {

/// The shares of all accounts in `m` together.
pub open spec fn map_sum(m: Map<AccountId, nat>) -> nat
    decreases m.dom().len(),
    when m.dom().finite()
{
    if m.dom().len() == 0 {
        0
    } else {
        let k = m.dom().choose();
        m[k] + map_sum(m.remove(k))
    }
}

/// The sum does not depend on where it starts: any account can be taken out
/// first.
pub proof fn lemma_sum_takes_out(m: Map<AccountId, nat>, k: AccountId)
    requires
        m.dom().finite(),
        m.dom().contains(k),
    ensures
        map_sum(m) == m[k] + map_sum(m.remove(k)),
    decreases m.dom().len(),
{
    let c = m.dom().choose();
    if c != k {
        assert(m.dom().len() != 0);
        assert(m.dom().contains(c));
        assert(m.remove(c).dom() =~= m.dom().remove(c));
        assert(m.remove(k).dom() =~= m.dom().remove(k));
        lemma_sum_takes_out(m.remove(c), k);
        lemma_sum_takes_out(m.remove(k), c);
        assert(m.remove(c).remove(k) =~= m.remove(k).remove(c));
    }
}

/// The sum of no accounts is zero.
pub proof fn lemma_sum_of_none()
    ensures
        Map::<AccountId, nat>::empty().dom().finite(),
        map_sum(Map::<AccountId, nat>::empty()) == 0,
{
}

/// Setting the count of one account changes the sum by the difference.
pub proof fn lemma_sum_after_insert(m: Map<AccountId, nat>, k: AccountId, v: nat)
    requires
        m.dom().finite(),
    ensures
        m.insert(k, v).dom().finite(),
        map_sum(m.insert(k, v)) + (if m.dom().contains(k) {
            m[k]
        } else {
            0
        }) == map_sum(m) + v,
{
    let n = m.insert(k, v);
    assert(n.dom() =~= m.dom().insert(k));
    lemma_sum_takes_out(n, k);
    assert(n.remove(k) =~= m.remove(k));
    if m.dom().contains(k) {
        lemma_sum_takes_out(m, k);
    } else {
        assert(m.remove(k) =~= m);
    }
}

/// Taking an account out lowers the sum by its count.
pub proof fn lemma_sum_after_remove(m: Map<AccountId, nat>, k: AccountId)
    requires
        m.dom().finite(),
    ensures
        m.remove(k).dom().finite(),
        map_sum(m.remove(k)) + (if m.dom().contains(k) {
            m[k]
        } else {
            0
        }) == map_sum(m),
{
    assert(m.remove(k).dom() =~= m.dom().remove(k));
    if m.dom().contains(k) {
        lemma_sum_takes_out(m, k);
    } else {
        assert(m.remove(k) =~= m);
    }
}

/// No account holds more than all accounts together.
pub proof fn lemma_sum_bounds_each_account(m: Map<AccountId, nat>, k: AccountId)
    requires
        m.dom().finite(),
        m.dom().contains(k),
    ensures
        m[k] <= map_sum(m),
{
    lemma_sum_takes_out(m, k);
}

} // verus!
