//! The balance ledger: per-account cycle balances and per-(owner, spender)
//! allowances, with transactional mutations.
//!
//! Both maps are kept as association vectors with unique keys and no zero
//! values: an absent key reads as zero, and a value that reaches zero is
//! removed. An allowance is stored inclusive of the prospective transfer
//! fee, is replaced by a later approve, and is destroyed by an approve of
//! zero or by exhaustion.

use vstd::prelude::*;

use crate::types::Account;

verus! {

/// The value stored under `key`, or 0 when the key is absent.
pub open spec fn assoc_lookup<K>(s: Seq<(K, u64)>, key: K) -> u64
    decreases s.len(),
{
    if s.len() == 0 {
        0
    } else if s[0].0 == key {
        s[0].1
    } else {
        assoc_lookup(s.drop_first(), key)
    }
}

/// The sum of all stored values.
pub open spec fn assoc_total<K>(s: Seq<(K, u64)>) -> int
    decreases s.len(),
{
    if s.len() == 0 {
        0
    } else {
        s[0].1 + assoc_total(s.drop_first())
    }
}

/// No key occurs twice.
pub open spec fn keys_unique<K>(s: Seq<(K, u64)>) -> bool {
    forall|i: int, j: int| 0 <= i < j < s.len() ==> s[i].0 != s[j].0
}

/// No key maps to zero.
pub open spec fn values_positive<K>(s: Seq<(K, u64)>) -> bool {
    forall|i: int| 0 <= i < s.len() ==> s[i].1 > 0
}

/// A present entry is what the lookup reads.
proof fn lemma_lookup_at<K>(s: Seq<(K, u64)>, i: int)
    requires
        keys_unique(s),
        0 <= i < s.len(),
    ensures
        assoc_lookup(s, s[i].0) == s[i].1,
    decreases s.len(),
{
    if i > 0 {
        lemma_lookup_at(s.drop_first(), i - 1);
    }
}

/// A key that no entry holds reads as zero.
proof fn lemma_lookup_absent<K>(s: Seq<(K, u64)>, key: K)
    requires
        forall|i: int| 0 <= i < s.len() ==> s[i].0 != key,
    ensures
        assoc_lookup(s, key) == 0,
    decreases s.len(),
{
    if s.len() > 0 {
        lemma_lookup_absent(s.drop_first(), key);
    }
}

/// A key that reads non-zero is held by some entry.
proof fn lemma_lookup_nonzero_exists<K>(s: Seq<(K, u64)>, key: K)
    requires
        assoc_lookup(s, key) != 0,
    ensures
        exists|i: int| 0 <= i < s.len() && s[i].0 == key,
    decreases s.len(),
{
    if s.len() > 0 && s[0].0 != key {
        lemma_lookup_nonzero_exists(s.drop_first(), key);
        let w = choose|i: int| 0 <= i < s.drop_first().len() && s.drop_first()[i].0 == key;
        assert(s[w + 1].0 == key);
    }
}

/// Overwriting the value of the entry at `i`: that key now reads the new
/// value, every other key is untouched, and the sum moves by the difference.
proof fn lemma_update<K>(s: Seq<(K, u64)>, i: int, v: u64)
    requires
        keys_unique(s),
        0 <= i < s.len(),
    ensures
        keys_unique(s.update(i, (s[i].0, v))),
        values_positive(s) && v > 0 ==> values_positive(s.update(i, (s[i].0, v))),
        assoc_lookup(s.update(i, (s[i].0, v)), s[i].0) == v,
        forall|k: K|
            k != s[i].0 ==> assoc_lookup(s.update(i, (s[i].0, v)), k) == assoc_lookup(s, k),
        assoc_total(s.update(i, (s[i].0, v))) == assoc_total(s) - s[i].1 + v,
    decreases s.len(),
{
    let t = s.update(i, (s[i].0, v));
    if i == 0 {
        assert(t.drop_first() =~= s.drop_first());
    } else {
        lemma_update(s.drop_first(), i - 1, v);
        assert(t.drop_first() =~= s.drop_first().update(i - 1, (s[i].0, v)));
        assert forall|k: K| k != s[i].0 implies assoc_lookup(t, k) == assoc_lookup(s, k) by {
            if s[0].0 != k {
                assert(assoc_lookup(t, k) == assoc_lookup(t.drop_first(), k));
                assert(assoc_lookup(s, k) == assoc_lookup(s.drop_first(), k));
            }
        }
    }
}

/// Appending an entry under a fresh key: that key now reads the new value,
/// every other key is untouched, and the sum grows by it.
proof fn lemma_push<K>(s: Seq<(K, u64)>, key: K, v: u64)
    requires
        keys_unique(s),
        forall|i: int| 0 <= i < s.len() ==> s[i].0 != key,
    ensures
        keys_unique(s.push((key, v))),
        values_positive(s) && v > 0 ==> values_positive(s.push((key, v))),
        assoc_lookup(s.push((key, v)), key) == v,
        forall|k: K| k != key ==> assoc_lookup(s.push((key, v)), k) == assoc_lookup(s, k),
        assoc_total(s.push((key, v))) == assoc_total(s) + v,
    decreases s.len(),
{
    let t = s.push((key, v));
    if s.len() == 0 {
        assert(t.drop_first() =~= s);
    } else {
        lemma_push(s.drop_first(), key, v);
        assert(t.drop_first() =~= s.drop_first().push((key, v)));
        assert forall|k: K| k != key implies assoc_lookup(t, k) == assoc_lookup(s, k) by {
            if s[0].0 != k {
                assert(assoc_lookup(t, k) == assoc_lookup(t.drop_first(), k));
                assert(assoc_lookup(s, k) == assoc_lookup(s.drop_first(), k));
            }
        }
    }
}

/// Removing the entry at `i`: its key now reads zero, every other key is
/// untouched, and the sum shrinks by the removed value.
proof fn lemma_remove<K>(s: Seq<(K, u64)>, i: int)
    requires
        keys_unique(s),
        0 <= i < s.len(),
    ensures
        keys_unique(s.remove(i)),
        values_positive(s) ==> values_positive(s.remove(i)),
        assoc_lookup(s.remove(i), s[i].0) == 0,
        forall|k: K| k != s[i].0 ==> assoc_lookup(s.remove(i), k) == assoc_lookup(s, k),
        assoc_total(s.remove(i)) == assoc_total(s) - s[i].1,
    decreases s.len(),
{
    let t = s.remove(i);
    if i == 0 {
        assert(t =~= s.drop_first());
        assert forall|j: int| 0 <= j < t.len() implies t[j].0 != s[0].0 by {
            assert(t[j] == s[j + 1]);
        }
        lemma_lookup_absent(t, s[0].0);
    } else {
        lemma_remove(s.drop_first(), i - 1);
        assert(t.drop_first() =~= s.drop_first().remove(i - 1));
        assert forall|k: K| k != s[i].0 implies assoc_lookup(t, k) == assoc_lookup(s, k) by {
            if s[0].0 != k {
                assert(assoc_lookup(t, k) == assoc_lookup(t.drop_first(), k));
                assert(assoc_lookup(s, k) == assoc_lookup(s.drop_first(), k));
            }
        }
    }
}

/// The errors surfaced to callers of the engine's operations. The ledger
/// itself produces only the first two; the others come from the operations
/// built on it.
#[derive(Clone, Copy, PartialEq, Eq, Structural, Debug)]
pub enum TxError {
    /// The debited account does not cover the amount plus the fee.
    InsufficientBalance,
    /// The allowance does not cover the amount plus the fee.
    InsufficientAllowance,
    /// A mint delivered no more cycles than its own fee.
    AmountTooSmall,
    /// An outbound call was rejected or failed.
    CallFailed,
    /// A maintenance operation from an account other than the controller.
    NotController,
}

/// Per-account balances and per-(owner, spender) allowances.
pub struct Ledger {
    /// The cycle balance held by each account; no entry is zero.
    balances: Vec<(Account, u64)>,
    /// What each owner allows each spender to draw, fee included; no entry
    /// is zero, and no owner allows itself.
    allowances: Vec<((Account, Account), u64)>,
}

impl Ledger {
    /// The balance entries.
    pub closed spec fn balances_spec(&self) -> Seq<(Account, u64)> {
        self.balances@
    }

    /// The allowance entries.
    pub closed spec fn allowances_spec(&self) -> Seq<((Account, Account), u64)> {
        self.allowances@
    }

    /// The balance of an account; an absent key reads as zero.
    pub open spec fn balance_spec(&self, account: Account) -> u64 {
        assoc_lookup(self.balances_spec(), account)
    }

    /// The allowance an owner has granted a spender, fee included.
    pub open spec fn allowance_spec(&self, owner: Account, spender: Account) -> u64 {
        assoc_lookup(self.allowances_spec(), (owner, spender))
    }

    /// The sum of all balances: what the ledger holds in cycles.
    pub open spec fn total_supply_spec(&self) -> int {
        assoc_total(self.balances_spec())
    }

    /// No balance or allowance key maps to zero: zero entries are removed
    /// as they arise, so an absent key and a zero value are the same thing.
    pub open spec fn no_zero_entries(&self) -> bool {
        values_positive(self.balances_spec()) && values_positive(self.allowances_spec())
    }

    /// Well-formedness: keys are unique, no entry is zero, and no owner
    /// has an allowance for itself.
    pub open spec fn wf(&self) -> bool {
        &&& keys_unique(self.balances_spec())
        &&& keys_unique(self.allowances_spec())
        &&& self.no_zero_entries()
        &&& forall|i: int|
            0 <= i < self.allowances_spec().len() ==> self.allowances_spec()[i].0.0
                != self.allowances_spec()[i].0.1
    }

    /// An empty ledger.
    pub fn default() -> (r: Self)
        ensures
            r.wf(),
            r.balances_spec() == Seq::<(Account, u64)>::empty(),
            r.allowances_spec() == Seq::<((Account, Account), u64)>::empty(),
    {
        Ledger { balances: Vec::new(), allowances: Vec::new() }
    }

    /// The index of the balance entry of `account`, when one exists.
    fn find_balance(&self, account: Account) -> (r: Option<usize>)
        ensures
            match r {
                Some(i) => i < self.balances_spec().len() && self.balances_spec()[i as int].0
                    == account,
                None => forall|j: int|
                    0 <= j < self.balances_spec().len() ==> self.balances_spec()[j].0 != account,
            },
    {
        let mut i: usize = 0;
        while i < self.balances.len()
            invariant
                0 <= i <= self.balances@.len(),
                forall|j: int| 0 <= j < i ==> self.balances@[j].0 != account,
            decreases self.balances@.len() - i,
        {
            if self.balances[i].0 == account {
                return Some(i);
            }
            i = i + 1;
        }
        None
    }

    /// The index of the allowance entry of `(owner, spender)`, when one
    /// exists.
    fn find_allowance(&self, owner: Account, spender: Account) -> (r: Option<usize>)
        ensures
            match r {
                Some(i) => i < self.allowances_spec().len() && self.allowances_spec()[i as int].0
                    == (owner, spender),
                None => forall|j: int|
                    0 <= j < self.allowances_spec().len() ==> self.allowances_spec()[j].0 != (
                    owner,
                    spender,
                ),
            },
    {
        let mut i: usize = 0;
        while i < self.allowances.len()
            invariant
                0 <= i <= self.allowances@.len(),
                forall|j: int| 0 <= j < i ==> self.allowances@[j].0 != (owner, spender),
            decreases self.allowances@.len() - i,
        {
            if self.allowances[i].0.0 == owner && self.allowances[i].0.1 == spender {
                return Some(i);
            }
            i = i + 1;
        }
        None
    }

    /// The number of accounts holding a (non-zero) balance.
    pub fn balances_count(&self) -> (r: usize)
        ensures
            r == self.balances_spec().len(),
    {
        self.balances.len()
    }

    /// The number of (non-zero) allowances standing.
    pub fn allowances_count(&self) -> (r: usize)
        ensures
            r == self.allowances_spec().len(),
    {
        self.allowances.len()
    }

    /// The balance of the given account; zero when it holds nothing.
    pub fn balance(&self, account: Account) -> (r: u64)
        requires
            self.wf(),
        ensures
            r == self.balance_spec(account),
    {
        match self.find_balance(account) {
            Some(i) => {
                proof {
                    lemma_lookup_at(self.balances_spec(), i as int);
                }
                self.balances[i].1
            },
            None => {
                proof {
                    lemma_lookup_absent(self.balances_spec(), account);
                }
                0
            },
        }
    }

    /// The allowance `owner` has granted `spender`, fee included; zero when
    /// none stands.
    pub fn allowance(&self, owner: Account, spender: Account) -> (r: u64)
        requires
            self.wf(),
        ensures
            r == self.allowance_spec(owner, spender),
    {
        match self.find_allowance(owner, spender) {
            Some(i) => {
                proof {
                    lemma_lookup_at(self.allowances_spec(), i as int);
                }
                self.allowances[i].1
            },
            None => {
                proof {
                    lemma_lookup_absent(self.allowances_spec(), (owner, spender));
                }
                0
            },
        }
    }

    /// Credit `amount` to the account, creating it on first deposit. The
    /// total supply grows by exactly the amount; nothing else changes.
    pub fn deposit(&mut self, account: Account, amount: u64)
        requires
            old(self).wf(),
            old(self).balance_spec(account) + amount <= u64::MAX,
        ensures
            final(self).wf(),
            final(self).balance_spec(account) == old(self).balance_spec(account) + amount,
            forall|b: Account|
                b != account ==> final(self).balance_spec(b) == old(self).balance_spec(b),
            final(self).allowances_spec() == old(self).allowances_spec(),
            final(self).total_supply_spec() == old(self).total_supply_spec() + amount,
    {
        if amount == 0 {
            return ;
        }
        match self.find_balance(account) {
            Some(i) => {
                proof {
                    lemma_lookup_at(self.balances_spec(), i as int);
                    lemma_update(self.balances_spec(), i as int, (self.balances@[i as int].1
                        + amount) as u64);
                }
                let held = self.balances[i].1;
                self.balances.set(i, (account, held + amount));
            },
            None => {
                proof {
                    lemma_lookup_absent(self.balances_spec(), account);
                    lemma_push(self.balances_spec(), account, amount);
                }
                self.balances.push((account, amount));
            },
        }
    }

    /// Debit `amount` from the account; the entry is removed when it
    /// reaches zero. Fails, changing nothing, when the account does not
    /// hold the amount (an absent account holds nothing).
    pub fn withdraw(&mut self, account: Account, amount: u64) -> (r: Result<(), ()>)
        requires
            old(self).wf(),
        ensures
            final(self).wf(),
            r is Ok <==> (old(self).balance_spec(account) >= amount && old(self).balance_spec(
                account,
            ) > 0),
            r is Ok ==> final(self).balance_spec(account) == old(self).balance_spec(account)
                - amount && final(self).total_supply_spec() == old(self).total_supply_spec()
                - amount,
            r is Err ==> *final(self) == *old(self),
            forall|b: Account|
                b != account ==> final(self).balance_spec(b) == old(self).balance_spec(b),
            final(self).allowances_spec() == old(self).allowances_spec(),
    {
        match self.find_balance(account) {
            Some(i) => {
                proof {
                    lemma_lookup_at(self.balances_spec(), i as int);
                }
                let held = self.balances[i].1;
                if held < amount {
                    return Err(());
                }
                if held == amount {
                    proof {
                        lemma_remove(self.balances_spec(), i as int);
                    }
                    self.balances.remove(i);
                } else {
                    proof {
                        lemma_update(self.balances_spec(), i as int, (held - amount) as u64);
                    }
                    self.balances.set(i, (account, held - amount));
                }
                Ok(())
            },
            None => {
                proof {
                    lemma_lookup_absent(self.balances_spec(), account);
                }
                Err(())
            },
        }
    }

    /// Debit `amount + fee` from the account, removing the entry when it
    /// reaches zero. A total of zero always succeeds; otherwise the account
    /// must hold the total, or nothing changes.
    pub fn withdraw_erc20(&mut self, account: Account, amount: u64, fee: u64) -> (r: Result<
        (),
        TxError,
    >)
        requires
            old(self).wf(),
            amount + fee <= u64::MAX,
        ensures
            final(self).wf(),
            r is Ok <==> old(self).balance_spec(account) >= amount + fee,
            r matches Err(e) ==> e == TxError::InsufficientBalance,
            r is Ok ==> final(self).balance_spec(account) == old(self).balance_spec(account)
                - amount - fee && final(self).total_supply_spec() == old(self).total_supply_spec()
                - amount - fee,
            r is Err ==> *final(self) == *old(self),
            forall|b: Account|
                b != account ==> final(self).balance_spec(b) == old(self).balance_spec(b),
            final(self).allowances_spec() == old(self).allowances_spec(),
    {
        let total = amount + fee;
        match self.find_balance(account) {
            Some(i) => {
                proof {
                    lemma_lookup_at(self.balances_spec(), i as int);
                }
                let held = self.balances[i].1;
                if held < total {
                    return Err(TxError::InsufficientBalance);
                }
                if held == total {
                    proof {
                        lemma_remove(self.balances_spec(), i as int);
                    }
                    self.balances.remove(i);
                } else {
                    proof {
                        lemma_update(self.balances_spec(), i as int, (held - total) as u64);
                    }
                    self.balances.set(i, (account, held - total));
                }
                Ok(())
            },
            None => {
                proof {
                    lemma_lookup_absent(self.balances_spec(), account);
                }
                if total == 0 {
                    Ok(())
                } else {
                    Err(TxError::InsufficientBalance)
                }
            },
        }
    }

    /// Remove the allowance of `(owner, spender)`, if any stands.
    fn remove_allowance(&mut self, owner: Account, spender: Account)
        requires
            old(self).wf(),
        ensures
            final(self).wf(),
            final(self).allowance_spec(owner, spender) == 0,
            forall|o: Account, s: Account|
                (o, s) != (owner, spender) ==> final(self).allowance_spec(o, s) == old(
                    self,
                ).allowance_spec(o, s),
            final(self).balances_spec() == old(self).balances_spec(),
    {
        match self.find_allowance(owner, spender) {
            Some(i) => {
                proof {
                    lemma_remove(self.allowances_spec(), i as int);
                }
                self.allowances.remove(i);
            },
            None => {
                proof {
                    lemma_lookup_absent(self.allowances_spec(), (owner, spender));
                }
            },
        }
    }

    /// Store `value` as the allowance of `(owner, spender)`, replacing any
    /// previous one.
    fn set_allowance(&mut self, owner: Account, spender: Account, value: u64)
        requires
            old(self).wf(),
            owner != spender,
            value > 0,
        ensures
            final(self).wf(),
            final(self).allowance_spec(owner, spender) == value,
            forall|o: Account, s: Account|
                (o, s) != (owner, spender) ==> final(self).allowance_spec(o, s) == old(
                    self,
                ).allowance_spec(o, s),
            final(self).balances_spec() == old(self).balances_spec(),
    {
        match self.find_allowance(owner, spender) {
            Some(i) => {
                proof {
                    lemma_update(self.allowances_spec(), i as int, value);
                }
                self.allowances.set(i, ((owner, spender), value));
            },
            None => {
                proof {
                    lemma_push(self.allowances_spec(), (owner, spender), value);
                }
                self.allowances.push(((owner, spender), value));
            },
        }
    }

    /// Let `spender` draw up to `amount` from `allower`, charging only the
    /// fee. The stored allowance is `amount + fee`, covering the future
    /// transfer fee; an amount of zero clears the allowance. An owner may
    /// allow more than it holds. Fails, changing nothing, when the owner
    /// cannot pay the fee.
    pub fn approve(&mut self, allower: Account, spender: Account, amount: u64, fee: u64) -> (r:
        Result<(), TxError>)
        requires
            old(self).wf(),
            allower != spender,
            amount + fee <= u64::MAX,
        ensures
            final(self).wf(),
            r is Ok <==> old(self).balance_spec(allower) >= fee,
            r matches Err(e) ==> e == TxError::InsufficientBalance,
            r is Err ==> *final(self) == *old(self),
            r is Ok ==> {
                &&& final(self).balance_spec(allower) == old(self).balance_spec(allower) - fee
                &&& forall|b: Account|
                    b != allower ==> final(self).balance_spec(b) == old(self).balance_spec(b)
                &&& final(self).allowance_spec(allower, spender) == if amount == 0 {
                    0
                } else {
                    amount + fee
                }
                &&& forall|o: Account, s: Account|
                    (o, s) != (allower, spender) ==> final(self).allowance_spec(o, s) == old(
                        self,
                    ).allowance_spec(o, s)
                &&& final(self).total_supply_spec() == old(self).total_supply_spec() - fee
            },
    {
        if self.balance(allower) < fee {
            return Err(TxError::InsufficientBalance);
        }

        let withdrawn = self.withdraw_erc20(allower, 0, fee);
        proof {
            assert(withdrawn is Ok);
        }

        if amount == 0 {
            self.remove_allowance(allower, spender);
        } else {
            // The allower pays the future transfer fee up front, so the
            // stored allowance is the amount plus the fee.
            self.set_allowance(allower, spender, amount + fee);
        }

        Ok(())
    }

    /// Move `amount` from `from` to `to`, charging `from` the fee as well.
    /// Fails, changing nothing, when `from` does not hold `amount + fee`.
    pub fn transfer(&mut self, from: Account, to: Account, amount: u64, fee: u64) -> (r: Result<
        (),
        TxError,
    >)
        requires
            old(self).wf(),
            from != to,
            amount != 0,
            amount + fee <= u64::MAX,
            old(self).balance_spec(to) + amount <= u64::MAX,
        ensures
            final(self).wf(),
            r is Ok <==> old(self).balance_spec(from) >= amount + fee,
            r matches Err(e) ==> e == TxError::InsufficientBalance,
            r is Err ==> *final(self) == *old(self),
            r is Ok ==> {
                &&& final(self).balance_spec(from) == old(self).balance_spec(from) - amount - fee
                &&& final(self).balance_spec(to) == old(self).balance_spec(to) + amount
                &&& forall|b: Account|
                    b != from && b != to ==> final(self).balance_spec(b) == old(self).balance_spec(
                        b,
                    )
                &&& final(self).allowances_spec() == old(self).allowances_spec()
                &&& final(self).total_supply_spec() == old(self).total_supply_spec() - fee
            },
    {
        match self.withdraw_erc20(from, amount, fee) {
            Ok(()) => {
                self.deposit(to, amount);
                Ok(())
            },
            Err(e) => Err(e),
        }
    }

    /// Draw `amount` from `allower` to `spender` on `caller`'s behalf,
    /// consuming `amount + fee` of the allowance `(allower, caller)` and
    /// charging the fee to the allower (never to the caller's own balance,
    /// but through the allowance, so a spender cannot drain an owner by
    /// fee payments alone). The allowance entry is removed when exhausted.
    /// The checks precede every mutation: a failure changes nothing.
    pub fn transfer_from(
        &mut self,
        caller: Account,
        allower: Account,
        spender: Account,
        amount: u64,
        fee: u64,
    ) -> (r: Result<(), TxError>)
        requires
            old(self).wf(),
            amount != 0,
            allower != spender,
            amount + fee <= u64::MAX,
            old(self).balance_spec(spender) + amount <= u64::MAX,
        ensures
            final(self).wf(),
            r is Ok <==> (old(self).allowance_spec(allower, caller) >= amount + fee && old(
                self,
            ).balance_spec(allower) >= amount + fee),
            r matches Err(e) ==> *final(self) == *old(self) && if old(self).allowance_spec(
                allower,
                caller,
            ) < amount + fee {
                e == TxError::InsufficientAllowance
            } else {
                e == TxError::InsufficientBalance
            },
            r is Ok ==> {
                &&& final(self).allowance_spec(allower, caller) == old(self).allowance_spec(
                    allower,
                    caller,
                ) - amount - fee
                &&& forall|o: Account, s: Account|
                    (o, s) != (allower, caller) ==> final(self).allowance_spec(o, s) == old(
                        self,
                    ).allowance_spec(o, s)
                &&& final(self).balance_spec(allower) == old(self).balance_spec(allower) - amount
                    - fee
                &&& final(self).balance_spec(spender) == old(self).balance_spec(spender) + amount
                &&& forall|b: Account|
                    b != allower && b != spender ==> final(self).balance_spec(b) == old(
                        self,
                    ).balance_spec(b)
                &&& final(self).total_supply_spec() == old(self).total_supply_spec() - fee
            },
    {
        let total_amount = amount + fee;
        let allowed = self.allowance(allower, caller);
        if allowed < total_amount {
            return Err(TxError::InsufficientAllowance);
        }

        if self.balance(allower) < total_amount {
            return Err(TxError::InsufficientBalance);
        }

        proof {
            // A positive allowance stands in the map, and no owner allows
            // itself, so the caller is not the allower.
            lemma_lookup_nonzero_exists(self.allowances_spec(), (allower, caller));
        }

        if allowed == total_amount {
            self.remove_allowance(allower, caller);
        } else {
            self.set_allowance(allower, caller, allowed - total_amount);
        }

        let fee_taken = self.withdraw_erc20(allower, 0, fee);
        proof {
            assert(fee_taken is Ok);
        }
        let moved = self.transfer(allower, spender, amount, 0);
        proof {
            assert(moved is Ok);
        }

        Ok(())
    }

    /// Take the balance table out of the ledger, for a snapshot. The
    /// allowances are not part of the image.
    pub fn archive(&mut self) -> (r: Vec<(Account, u64)>)
        requires
            old(self).wf(),
        ensures
            final(self).wf(),
            r@ == old(self).balances_spec(),
            final(self).balances_spec() == Seq::<(Account, u64)>::empty(),
            final(self).allowances_spec() == old(self).allowances_spec(),
            keys_unique(r@),
            values_positive(r@),
    {
        let mut taken: Vec<(Account, u64)> = Vec::new();
        core::mem::swap(&mut self.balances, &mut taken);
        taken
    }

    /// Replace the balance table from a snapshot; the allowances are left
    /// as they are.
    pub fn load(&mut self, archive: Vec<(Account, u64)>)
        requires
            old(self).wf(),
            keys_unique(archive@),
            values_positive(archive@),
        ensures
            final(self).wf(),
            final(self).balances_spec() == archive@,
            final(self).allowances_spec() == old(self).allowances_spec(),
    {
        self.balances = archive;
    }
}

} // verus!
