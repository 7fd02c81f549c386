use vstd::prelude::*;

use crate::ledger::{balance_sum, lemma_balance_le_sum, Ledger};

verus! {

/// Conservation: in every well-formed ledger state the recorded total
/// supply equals the sum of all account balances. Each transition
/// requires a well-formed ledger and ensures one again, so the equation
/// holds in every reachable state.
pub proof fn lemma_conservation(l: Ledger)
    requires
        l.wf(),
    ensures
        l.total_supply == balance_sum(l.balances@),
{
}

/// Non-negativity: whatever address or (owner, spender) pair is asked,
/// the stored amount reads as a non-negative number. Amounts are
/// unsigned throughout, so no operation can produce a negative entry.
pub proof fn lemma_non_negative(l: Ledger, a: Seq<u8>, o: Seq<u8>, sp: Seq<u8>)
    ensures
        l.bal_of(a) >= 0,
        l.allowance_of(o, sp) >= 0,
{
}

/// A corollary of conservation: no single balance can exceed the total
/// supply in a well-formed ledger.
pub proof fn lemma_balance_bounded(l: Ledger, a: Seq<u8>)
    requires
        l.wf(),
    ensures
        l.bal_of(a) <= l.total_supply,
{
    lemma_balance_le_sum(l.balances@, a);
}

} // verus!
