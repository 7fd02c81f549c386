use vstd::prelude::*;

use crate::bytes::{bytes_eq, copy_bytes};
use crate::error::ContractError;
use crate::validate::{valid_decimals, valid_name, valid_symbol};

verus! {

/// The immutable token metadata, fixed once at creation.
#[derive(Debug, PartialEq, Eq)]
pub struct Constants {
    /// UTF-8 token name, 3 to 30 bytes.
    pub name: Vec<u8>,
    /// Ticker symbol, 3 to 6 uppercase ASCII letters.
    pub symbol: Vec<u8>,
    /// Decimal precision, at most 18.
    pub decimals: u8,
    /// The paired contract on the external chain, in its textual
    /// `0x`-prefixed form. Only this principal may mint.
    pub contract: Vec<u8>,
}

/// One row of the balance table: an address and what it holds.
pub struct BalanceEntry {
    pub addr: Vec<u8>,
    pub amount: u128,
}

/// One row of the allowance table: what `spender` may move out of
/// `owner`'s balance.
pub struct AllowanceEntry {
    pub owner: Vec<u8>,
    pub spender: Vec<u8>,
    pub amount: u128,
}

/// The balance held by `k`; absent addresses hold zero.
pub open spec fn balance_in(s: Seq<BalanceEntry>, k: Seq<u8>) -> u128
    decreases s.len(),
{
    if s.len() == 0 {
        0
    } else if s.last().addr@ == k {
        s.last().amount
    } else {
        balance_in(s.drop_last(), k)
    }
}

/// The sum of every balance in the table.
pub open spec fn balance_sum(s: Seq<BalanceEntry>) -> int
    decreases s.len(),
{
    if s.len() == 0 {
        0
    } else {
        balance_sum(s.drop_last()) + s.last().amount
    }
}

/// No address appears twice in the balance table.
pub open spec fn distinct_addrs(s: Seq<BalanceEntry>) -> bool {
    forall|i: int, j: int| 0 <= i < j < s.len() ==> s[i].addr@ != s[j].addr@
}

/// The allowance granted by `o` to `sp`; absent pairs hold zero.
pub open spec fn allowance_in(s: Seq<AllowanceEntry>, o: Seq<u8>, sp: Seq<u8>) -> u128
    decreases s.len(),
{
    if s.len() == 0 {
        0
    } else if s.last().owner@ == o && s.last().spender@ == sp {
        s.last().amount
    } else {
        allowance_in(s.drop_last(), o, sp)
    }
}

/// No (owner, spender) pair appears twice in the allowance table.
pub open spec fn distinct_pairs(s: Seq<AllowanceEntry>) -> bool {
    forall|i: int, j: int| 0 <= i < j < s.len()
        ==> !(s[i].owner@ == s[j].owner@ && s[i].spender@ == s[j].spender@)
}

proof fn lemma_balance_sum_nonneg(s: Seq<BalanceEntry>)
    ensures
        balance_sum(s) >= 0,
    decreases s.len(),
{
    if s.len() > 0 {
        lemma_balance_sum_nonneg(s.drop_last());
    }
}

proof fn lemma_balance_found(s: Seq<BalanceEntry>, i: int)
    requires
        distinct_addrs(s),
        0 <= i < s.len(),
    ensures
        balance_in(s, s[i].addr@) == s[i].amount,
    decreases s.len(),
{
    if i < s.len() - 1 {
        assert(s.last().addr@ != s[i].addr@);
        assert(forall|x: int| 0 <= x < s.len() - 1 ==> s.drop_last()[x] == s[x]);
        assert(distinct_addrs(s.drop_last()));
        lemma_balance_found(s.drop_last(), i);
    }
}

proof fn lemma_balance_absent(s: Seq<BalanceEntry>, k: Seq<u8>)
    requires
        forall|x: int| 0 <= x < s.len() ==> (#[trigger] s[x]).addr@ != k,
    ensures
        balance_in(s, k) == 0,
    decreases s.len(),
{
    if s.len() > 0 {
        assert(s.last().addr@ != k);
        assert(forall|x: int| 0 <= x < s.len() - 1 ==> s.drop_last()[x] == s[x]);
        lemma_balance_absent(s.drop_last(), k);
    }
}

pub(crate) proof fn lemma_balance_le_sum(s: Seq<BalanceEntry>, k: Seq<u8>)
    requires
        distinct_addrs(s),
    ensures
        balance_in(s, k) <= balance_sum(s),
    decreases s.len(),
{
    if s.len() > 0 {
        assert(forall|x: int| 0 <= x < s.len() - 1 ==> s.drop_last()[x] == s[x]);
        assert(distinct_addrs(s.drop_last()));
        lemma_balance_le_sum(s.drop_last(), k);
        lemma_balance_sum_nonneg(s.drop_last());
    }
}

proof fn lemma_balance_update(s: Seq<BalanceEntry>, i: int, e: BalanceEntry)
    requires
        distinct_addrs(s),
        0 <= i < s.len(),
        e.addr@ == s[i].addr@,
    ensures
        distinct_addrs(s.update(i, e)),
        forall|k: Seq<u8>| #[trigger] balance_in(s.update(i, e), k)
            == if k == e.addr@ { e.amount } else { balance_in(s, k) },
        balance_sum(s.update(i, e)) == balance_sum(s) - s[i].amount + e.amount,
    decreases s.len(),
{
    let t = s.update(i, e);
    assert forall|x: int| 0 <= x < s.len() implies (#[trigger] t[x]).addr@ == s[x].addr@ by {}
    assert forall|x: int, y: int| 0 <= x < y < t.len() implies t[x].addr@ != t[y].addr@ by {
        assert(s[x].addr@ != s[y].addr@);
    }
    if i == s.len() - 1 {
        assert(t.drop_last() =~= s.drop_last());
        assert(t.last() == e);
        assert forall|k: Seq<u8>| #[trigger] balance_in(t, k)
            == (if k == e.addr@ { e.amount } else { balance_in(s, k) }) by {
            if k != e.addr@ {
                assert(balance_in(t, k) == balance_in(s.drop_last(), k));
                assert(balance_in(s, k) == balance_in(s.drop_last(), k));
            }
        }
        assert(balance_sum(t) == balance_sum(s.drop_last()) + e.amount);
        assert(balance_sum(s) == balance_sum(s.drop_last()) + s[i].amount);
    } else {
        assert(t.last() == s.last());
        assert(t.drop_last() =~= s.drop_last().update(i, e));
        assert(forall|x: int| 0 <= x < s.len() - 1 ==> s.drop_last()[x] == s[x]);
        assert(distinct_addrs(s.drop_last()));
        lemma_balance_update(s.drop_last(), i, e);
        assert(s.last().addr@ != s[i].addr@);
        assert forall|k: Seq<u8>| #[trigger] balance_in(t, k)
            == (if k == e.addr@ { e.amount } else { balance_in(s, k) }) by {
            if k == s.last().addr@ {
                assert(balance_in(t, k) == s.last().amount);
                assert(balance_in(s, k) == s.last().amount);
            } else {
                assert(balance_in(t, k) == balance_in(s.drop_last().update(i, e), k));
                assert(balance_in(s, k) == balance_in(s.drop_last(), k));
            }
        }
        assert(balance_sum(t) == balance_sum(t.drop_last()) + s.last().amount);
        assert(balance_sum(s) == balance_sum(s.drop_last()) + s.last().amount);
    }
}

proof fn lemma_balance_push(s: Seq<BalanceEntry>, e: BalanceEntry)
    requires
        distinct_addrs(s),
        forall|x: int| 0 <= x < s.len() ==> (#[trigger] s[x]).addr@ != e.addr@,
    ensures
        distinct_addrs(s.push(e)),
        forall|k: Seq<u8>| #[trigger] balance_in(s.push(e), k)
            == if k == e.addr@ { e.amount } else { balance_in(s, k) },
        balance_sum(s.push(e)) == balance_sum(s) + e.amount,
{
    let t = s.push(e);
    assert(t.drop_last() =~= s);
    assert(t.last() == e);
    assert forall|x: int, y: int| 0 <= x < y < t.len() implies t[x].addr@ != t[y].addr@ by {
        if y < t.len() - 1 {
            assert(s[x].addr@ != s[y].addr@);
        } else {
            assert(t[x] == s[x]);
            assert(t[y] == e);
        }
    }
}

proof fn lemma_allowance_found(s: Seq<AllowanceEntry>, i: int)
    requires
        distinct_pairs(s),
        0 <= i < s.len(),
    ensures
        allowance_in(s, s[i].owner@, s[i].spender@) == s[i].amount,
    decreases s.len(),
{
    if i < s.len() - 1 {
        assert(!(s.last().owner@ == s[i].owner@ && s.last().spender@ == s[i].spender@));
        assert(forall|x: int| 0 <= x < s.len() - 1 ==> s.drop_last()[x] == s[x]);
        assert(distinct_pairs(s.drop_last()));
        lemma_allowance_found(s.drop_last(), i);
    }
}

proof fn lemma_allowance_absent(s: Seq<AllowanceEntry>, o: Seq<u8>, sp: Seq<u8>)
    requires
        forall|x: int| 0 <= x < s.len()
            ==> !((#[trigger] s[x]).owner@ == o && s[x].spender@ == sp),
    ensures
        allowance_in(s, o, sp) == 0,
    decreases s.len(),
{
    if s.len() > 0 {
        assert(!(s.last().owner@ == o && s.last().spender@ == sp));
        assert(forall|x: int| 0 <= x < s.len() - 1 ==> s.drop_last()[x] == s[x]);
        lemma_allowance_absent(s.drop_last(), o, sp);
    }
}

proof fn lemma_allowance_update(s: Seq<AllowanceEntry>, i: int, e: AllowanceEntry)
    requires
        distinct_pairs(s),
        0 <= i < s.len(),
        e.owner@ == s[i].owner@,
        e.spender@ == s[i].spender@,
    ensures
        distinct_pairs(s.update(i, e)),
        forall|o: Seq<u8>, sp: Seq<u8>| #[trigger] allowance_in(s.update(i, e), o, sp)
            == if o == e.owner@ && sp == e.spender@ { e.amount } else { allowance_in(s, o, sp) },
    decreases s.len(),
{
    let t = s.update(i, e);
    assert forall|x: int| 0 <= x < s.len() implies (#[trigger] t[x]).owner@ == s[x].owner@
        && t[x].spender@ == s[x].spender@ by {}
    assert forall|x: int, y: int| 0 <= x < y < t.len()
        implies !(t[x].owner@ == t[y].owner@ && t[x].spender@ == t[y].spender@) by {
        assert(!(s[x].owner@ == s[y].owner@ && s[x].spender@ == s[y].spender@));
    }
    if i == s.len() - 1 {
        assert(t.drop_last() =~= s.drop_last());
        assert(t.last() == e);
        assert forall|o: Seq<u8>, sp: Seq<u8>| #[trigger] allowance_in(t, o, sp)
            == (if o == e.owner@ && sp == e.spender@ { e.amount } else { allowance_in(s, o, sp) }) by {
            if !(o == e.owner@ && sp == e.spender@) {
                assert(allowance_in(t, o, sp) == allowance_in(s.drop_last(), o, sp));
                assert(allowance_in(s, o, sp) == allowance_in(s.drop_last(), o, sp));
            }
        }
    } else {
        assert(t.last() == s.last());
        assert(t.drop_last() =~= s.drop_last().update(i, e));
        assert(forall|x: int| 0 <= x < s.len() - 1 ==> s.drop_last()[x] == s[x]);
        assert(distinct_pairs(s.drop_last()));
        lemma_allowance_update(s.drop_last(), i, e);
        assert(!(s.last().owner@ == s[i].owner@ && s.last().spender@ == s[i].spender@));
        assert forall|o: Seq<u8>, sp: Seq<u8>| #[trigger] allowance_in(t, o, sp)
            == (if o == e.owner@ && sp == e.spender@ { e.amount } else { allowance_in(s, o, sp) }) by {
            if o == s.last().owner@ && sp == s.last().spender@ {
                assert(allowance_in(t, o, sp) == s.last().amount);
                assert(allowance_in(s, o, sp) == s.last().amount);
            } else {
                assert(allowance_in(t, o, sp) == allowance_in(s.drop_last().update(i, e), o, sp));
                assert(allowance_in(s, o, sp) == allowance_in(s.drop_last(), o, sp));
            }
        }
    }
}

proof fn lemma_allowance_push(s: Seq<AllowanceEntry>, e: AllowanceEntry)
    requires
        distinct_pairs(s),
        forall|x: int| 0 <= x < s.len()
            ==> !((#[trigger] s[x]).owner@ == e.owner@ && s[x].spender@ == e.spender@),
    ensures
        distinct_pairs(s.push(e)),
        forall|o: Seq<u8>, sp: Seq<u8>| #[trigger] allowance_in(s.push(e), o, sp)
            == if o == e.owner@ && sp == e.spender@ { e.amount } else { allowance_in(s, o, sp) },
{
    let t = s.push(e);
    assert(t.drop_last() =~= s);
    assert(t.last() == e);
    assert forall|x: int, y: int| 0 <= x < y < t.len()
        implies !(t[x].owner@ == t[y].owner@ && t[x].spender@ == t[y].spender@) by {
        if y < t.len() - 1 {
            assert(!(s[x].owner@ == s[y].owner@ && s[x].spender@ == s[y].spender@));
        } else {
            assert(t[x] == s[x]);
            assert(t[y] == e);
        }
    }
}

/// Balances after a successful transfer of `amount` from `from` to `to`:
/// `from` loses it, `to` gains it, nobody else moves. A self-transfer
/// leaves every balance as it was.
pub open spec fn moved(pre: Ledger, post: Ledger, from: Seq<u8>, to: Seq<u8>, amount: u128) -> bool {
    forall|k: Seq<u8>| #[trigger] post.bal_of(k) == if from == to {
        pre.bal_of(k)
    } else if k == from {
        (pre.bal_of(from) - amount) as u128
    } else if k == to {
        (pre.bal_of(to) + amount) as u128
    } else {
        pre.bal_of(k)
    }
}

/// Balances after crediting `amount` to `account`, everyone else untouched.
pub open spec fn credited(pre: Ledger, post: Ledger, account: Seq<u8>, amount: u128) -> bool {
    forall|k: Seq<u8>| #[trigger] post.bal_of(k) == if k == account {
        (pre.bal_of(account) + amount) as u128
    } else {
        pre.bal_of(k)
    }
}

/// Balances after debiting `amount` from `account`, everyone else untouched.
pub open spec fn debited(pre: Ledger, post: Ledger, account: Seq<u8>, amount: u128) -> bool {
    forall|k: Seq<u8>| #[trigger] post.bal_of(k) == if k == account {
        (pre.bal_of(account) - amount) as u128
    } else {
        pre.bal_of(k)
    }
}

/// Every balance reads the same in `post` as in `pre`.
pub open spec fn balances_unchanged(pre: Ledger, post: Ledger) -> bool {
    forall|k: Seq<u8>| #[trigger] post.bal_of(k) == pre.bal_of(k)
}

/// Every allowance reads the same in `post` as in `pre`.
pub open spec fn allowances_unchanged(pre: Ledger, post: Ledger) -> bool {
    forall|o: Seq<u8>, sp: Seq<u8>| #[trigger] post.allowance_of(o, sp) == pre.allowance_of(o, sp)
}

/// Allowances after setting the (`owner`, `spender`) entry to `amount`,
/// every other pair untouched.
pub open spec fn allowance_set(
    pre: Ledger,
    post: Ledger,
    owner: Seq<u8>,
    spender: Seq<u8>,
    amount: u128,
) -> bool {
    forall|o: Seq<u8>, sp: Seq<u8>| #[trigger] post.allowance_of(o, sp)
        == if o == owner && sp == spender { amount } else { pre.allowance_of(o, sp) }
}

/// The whole ledger: fixed token metadata, the total supply, and the
/// balance and allowance tables.
pub struct Ledger {
    pub constants: Constants,
    pub total_supply: u128,
    pub balances: Vec<BalanceEntry>,
    pub allowances: Vec<AllowanceEntry>,
}

impl Ledger {
    /// The balance of address `a` (zero when `a` was never credited).
    pub open spec fn bal_of(self, a: Seq<u8>) -> u128 {
        balance_in(self.balances@, a)
    }

    /// The allowance `o` has granted to `sp` (zero by default).
    pub open spec fn allowance_of(self, o: Seq<u8>, sp: Seq<u8>) -> u128 {
        allowance_in(self.allowances@, o, sp)
    }

    /// The conservation invariant: the recorded total supply equals the
    /// sum of every balance.
    pub open spec fn conservation(self) -> bool {
        self.total_supply == balance_sum(self.balances@)
    }

    /// A well-formed ledger: tables keyed uniquely, supply conserved,
    /// metadata within its creation-time format.
    pub open spec fn wf(self) -> bool {
        &&& distinct_addrs(self.balances@)
        &&& distinct_pairs(self.allowances@)
        &&& self.conservation()
        &&& valid_name(self.constants.name@)
        &&& valid_symbol(self.constants.symbol@)
        &&& valid_decimals(self.constants.decimals)
    }

    fn find_balance(&self, addr: &[u8]) -> (r: Option<usize>)
        ensures
            match r {
                Some(i) => i < self.balances@.len() && self.balances@[i as int].addr@ == addr@,
                None => forall|x: int|
                    0 <= x < self.balances@.len() ==> (#[trigger] self.balances@[x]).addr@ != addr@,
            },
    {
        let mut i: usize = 0;
        while i < self.balances.len()
            invariant
                0 <= i <= self.balances@.len(),
                forall|x: int| 0 <= x < i ==> (#[trigger] self.balances@[x]).addr@ != addr@,
            decreases self.balances@.len() - i,
        {
            if bytes_eq(self.balances[i].addr.as_slice(), addr) {
                return Some(i);
            }
            i = i + 1;
        }
        None
    }

    /// Reads the balance of `addr`; an address never written reads as 0.
    pub fn read_balance(&self, addr: &[u8]) -> (r: u128)
        requires
            distinct_addrs(self.balances@),
        ensures
            r == self.bal_of(addr@),
    {
        match self.find_balance(addr) {
            Some(i) => {
                proof {
                    lemma_balance_found(self.balances@, i as int);
                }
                self.balances[i].amount
            }
            None => {
                proof {
                    lemma_balance_absent(self.balances@, addr@);
                }
                0
            }
        }
    }

    fn set_balance(&mut self, addr: &[u8], amount: u128)
        requires
            distinct_addrs(old(self).balances@),
        ensures
            distinct_addrs(final(self).balances@),
            forall|k: Seq<u8>| #[trigger] final(self).bal_of(k)
                == if k == addr@ { amount } else { old(self).bal_of(k) },
            balance_sum(final(self).balances@)
                == balance_sum(old(self).balances@) - old(self).bal_of(addr@) + amount,
            final(self).allowances == old(self).allowances,
            final(self).constants == old(self).constants,
            final(self).total_supply == old(self).total_supply,
    {
        let entry = BalanceEntry { addr: copy_bytes(addr), amount };
        match self.find_balance(addr) {
            Some(i) => {
                proof {
                    lemma_balance_found(self.balances@, i as int);
                    lemma_balance_update(self.balances@, i as int, entry);
                }
                self.balances.set(i, entry);
            }
            None => {
                proof {
                    lemma_balance_absent(self.balances@, addr@);
                    lemma_balance_push(self.balances@, entry);
                }
                self.balances.push(entry);
            }
        }
    }

    fn find_allowance(&self, owner: &[u8], spender: &[u8]) -> (r: Option<usize>)
        ensures
            match r {
                Some(i) => i < self.allowances@.len()
                    && self.allowances@[i as int].owner@ == owner@
                    && self.allowances@[i as int].spender@ == spender@,
                None => forall|x: int|
                    0 <= x < self.allowances@.len()
                        ==> !((#[trigger] self.allowances@[x]).owner@ == owner@
                            && self.allowances@[x].spender@ == spender@),
            },
    {
        let mut i: usize = 0;
        while i < self.allowances.len()
            invariant
                0 <= i <= self.allowances@.len(),
                forall|x: int| 0 <= x < i
                    ==> !((#[trigger] self.allowances@[x]).owner@ == owner@
                        && self.allowances@[x].spender@ == spender@),
            decreases self.allowances@.len() - i,
        {
            if bytes_eq(self.allowances[i].owner.as_slice(), owner)
                && bytes_eq(self.allowances[i].spender.as_slice(), spender) {
                return Some(i);
            }
            i = i + 1;
        }
        None
    }

    /// Reads the allowance granted by `owner` to `spender`; a pair never
    /// written reads as 0.
    pub fn read_allowance(&self, owner: &[u8], spender: &[u8]) -> (r: u128)
        requires
            distinct_pairs(self.allowances@),
        ensures
            r == self.allowance_of(owner@, spender@),
    {
        match self.find_allowance(owner, spender) {
            Some(i) => {
                proof {
                    lemma_allowance_found(self.allowances@, i as int);
                }
                self.allowances[i].amount
            }
            None => {
                proof {
                    lemma_allowance_absent(self.allowances@, owner@, spender@);
                }
                0
            }
        }
    }

    fn set_allowance(&mut self, owner: &[u8], spender: &[u8], amount: u128)
        requires
            distinct_pairs(old(self).allowances@),
        ensures
            distinct_pairs(final(self).allowances@),
            forall|o: Seq<u8>, sp: Seq<u8>| #[trigger] final(self).allowance_of(o, sp)
                == if o == owner@ && sp == spender@ { amount } else { old(self).allowance_of(o, sp) },
            final(self).balances == old(self).balances,
            final(self).constants == old(self).constants,
            final(self).total_supply == old(self).total_supply,
    {
        let entry = AllowanceEntry {
            owner: copy_bytes(owner),
            spender: copy_bytes(spender),
            amount,
        };
        match self.find_allowance(owner, spender) {
            Some(i) => {
                proof {
                    lemma_allowance_update(self.allowances@, i as int, entry);
                }
                self.allowances.set(i, entry);
            }
            None => {
                proof {
                    lemma_allowance_push(self.allowances@, entry);
                }
                self.allowances.push(entry);
            }
        }
    }

    /// Creates `amount` of new supply and credits it to `account`.
    ///
    /// The supply is architecturally bounded by 128 bits; a credit that
    /// would overflow it signals a defect upstream, so the caller must
    /// rule it out before calling.
    pub fn credit(&mut self, account: &[u8], amount: u128)
        requires
            old(self).wf(),
            old(self).total_supply + amount <= u128::MAX,
        ensures
            final(self).wf(),
            final(self).total_supply == old(self).total_supply + amount,
            credited(*old(self), *final(self), account@, amount),
            allowances_unchanged(*old(self), *final(self)),
            final(self).constants == old(self).constants,
    {
        proof {
            lemma_balance_le_sum(self.balances@, account@);
        }
        let b = self.read_balance(account);
        self.total_supply = self.total_supply + amount;
        self.set_balance(account, b + amount);
    }

    /// Destroys `amount` of `account`'s balance together with the same
    /// amount of supply. Fails, mutating nothing, when the balance does
    /// not cover it.
    pub fn debit(&mut self, account: &[u8], amount: u128) -> (r: Result<(), ContractError>)
        requires
            old(self).wf(),
        ensures
            final(self).wf(),
            r is Ok <==> old(self).bal_of(account@) >= amount,
            r is Ok ==> final(self).total_supply == old(self).total_supply - amount,
            r is Ok ==> debited(*old(self), *final(self), account@, amount),
            r is Ok ==> allowances_unchanged(*old(self), *final(self)),
            final(self).constants == old(self).constants,
            r is Err ==> *final(self) == *old(self),
            r is Err ==> r == Err::<(), ContractError>(ContractError::InsufficientFunds {
                balance: old(self).bal_of(account@),
                required: amount,
            }),
    {
        let b = self.read_balance(account);
        if b < amount {
            return Err(ContractError::InsufficientFunds { balance: b, required: amount });
        }
        proof {
            lemma_balance_le_sum(self.balances@, account@);
        }
        self.total_supply = self.total_supply - amount;
        self.set_balance(account, b - amount);
        Ok(())
    }

    /// Sets the allowance granted by `owner` to `spender` to exactly
    /// `amount` (an absolute set, not an addition).
    pub fn write_allowance(&mut self, owner: &[u8], spender: &[u8], amount: u128)
        requires
            old(self).wf(),
        ensures
            final(self).wf(),
            allowance_set(*old(self), *final(self), owner@, spender@, amount),
            final(self).balances == old(self).balances,
            balances_unchanged(*old(self), *final(self)),
            final(self).total_supply == old(self).total_supply,
            final(self).constants == old(self).constants,
    {
        self.set_allowance(owner, spender, amount);
    }

    /// Consumes `amount` of the allowance `owner` granted `spender` and
    /// returns what remains of it. Fails, mutating nothing, when the
    /// allowance does not cover it. Balances are not touched.
    pub fn spend_allowance(&mut self, owner: &[u8], spender: &[u8], amount: u128) -> (r: Result<
        u128,
        ContractError,
    >)
        requires
            old(self).wf(),
        ensures
            final(self).wf(),
            r is Ok <==> old(self).allowance_of(owner@, spender@) >= amount,
            (r matches Ok(rest) ==> rest == old(self).allowance_of(owner@, spender@) - amount),
            r is Ok ==> allowance_set(
                *old(self),
                *final(self),
                owner@,
                spender@,
                (old(self).allowance_of(owner@, spender@) - amount) as u128,
            ),
            r is Ok ==> final(self).balances == old(self).balances,
            r is Ok ==> final(self).total_supply == old(self).total_supply,
            final(self).constants == old(self).constants,
            r is Err ==> *final(self) == *old(self),
            r is Err ==> r == Err::<u128, ContractError>(ContractError::InsufficientAllowance {
                allowance: old(self).allowance_of(owner@, spender@),
                required: amount,
            }),
    {
        let a = self.read_allowance(owner, spender);
        if a < amount {
            return Err(ContractError::InsufficientAllowance { allowance: a, required: amount });
        }
        self.set_allowance(owner, spender, a - amount);
        Ok(a - amount)
    }
}

/// Moves `amount` from `from` to `to`, leaving the total supply alone.
///
/// A transfer to oneself must still be covered by the balance, but
/// changes nothing. A zero amount always succeeds and changes nothing.
/// A failure leaves the ledger exactly as it was.
pub fn perform_transfer(l: &mut Ledger, from: &[u8], to: &[u8], amount: u128) -> (r: Result<
    (),
    ContractError,
>)
    requires
        old(l).wf(),
    ensures
        final(l).wf(),
        r is Ok <==> old(l).bal_of(from@) >= amount,
        r is Ok ==> moved(*old(l), *final(l), from@, to@, amount),
        r is Ok ==> allowances_unchanged(*old(l), *final(l)),
        final(l).total_supply == old(l).total_supply,
        final(l).constants == old(l).constants,
        r is Err ==> *final(l) == *old(l),
        r is Err ==> r == Err::<(), ContractError>(ContractError::InsufficientFunds {
            balance: old(l).bal_of(from@),
            required: amount,
        }),
{
    let fb = l.read_balance(from);
    if fb < amount {
        return Err(ContractError::InsufficientFunds { balance: fb, required: amount });
    }
    l.set_balance(from, fb - amount);
    proof {
        lemma_balance_le_sum(l.balances@, to@);
    }
    let tb = l.read_balance(to);
    l.set_balance(to, tb + amount);
    Ok(())
}

} // verus!
