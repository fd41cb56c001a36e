//! The balance ledger: for every account an amount that is never negative and
//! a flag that freezes it. An account that was never credited nor frozen holds
//! nothing and is not frozen.

use vstd::prelude::*;
use crate::error::{outcome, settled, TokenError};
use crate::identity::Identity;
use crate::table::{distinct_keys, has_key, lemma_found, lemma_stored, lookup, slot_of, stored};

verus! {

/// What the ledger keeps for one account.
#[derive(Debug, Clone, Copy, PartialEq, Eq, Structural)]
pub struct AccountState {
    /// The balance of the account.
    pub amount: i128,
    /// Whether the account is frozen: it may still be credited, but not debited.
    pub frozen: bool,
}

/// The model of a balance ledger: a table from the key of an account to its
/// state.
pub type Balances = Seq<(Seq<char>, AccountState)>;

/// The state of the account `id`; an account without an entry holds nothing
/// and is not frozen.
pub open spec fn state_of(t: Balances, id: Seq<char>) -> AccountState {
    match lookup(t, id) {
        Some(state) => state,
        None => AccountState { amount: 0, frozen: false },
    }
}

/// The balance of the account `id`.
pub open spec fn balance_of(t: Balances, id: Seq<char>) -> int {
    state_of(t, id).amount as int
}

/// Whether the account `id` is frozen.
pub open spec fn is_frozen(t: Balances, id: Seq<char>) -> bool {
    state_of(t, id).frozen
}

/// The sum of all balances.
pub open spec fn total_supply(t: Balances) -> int
    decreases t.len(),
{
    if t.len() == 0 {
        0
    } else {
        total_supply(t.drop_last()) + t.last().1.amount
    }
}

/// No account has two entries and no balance is negative.
pub open spec fn valid_balances(t: Balances) -> bool {
    &&& distinct_keys(t)
    &&& forall|i: int| 0 <= i < t.len() ==> (#[trigger] t[i]).1.amount >= 0
}

/// A credit of `amount` to `id`. A negative amount is refused, and so is a
/// credit that would take the balance past the largest amount.
pub open spec fn credit(t: Balances, id: Seq<char>, amount: i128) -> Result<Balances, TokenError> {
    if amount < 0 {
        Err(TokenError::InvalidAmount)
    } else if balance_of(t, id) + amount > i128::MAX {
        Err(TokenError::Overflow)
    } else {
        Ok(
            stored(
                t,
                id,
                AccountState {
                    amount: (balance_of(t, id) + amount) as i128,
                    frozen: is_frozen(t, id),
                },
            ),
        )
    }
}

/// A debit of `amount` from `id`. A frozen account is refused whatever the
/// amount; then a negative amount; then an amount that the account does not
/// hold.
pub open spec fn debit(t: Balances, id: Seq<char>, amount: i128) -> Result<Balances, TokenError> {
    if is_frozen(t, id) {
        Err(TokenError::AccountFrozen)
    } else if amount < 0 {
        Err(TokenError::InvalidAmount)
    } else if balance_of(t, id) < amount {
        Err(TokenError::InsufficientBalance)
    } else {
        Ok(
            stored(
                t,
                id,
                AccountState { amount: (balance_of(t, id) - amount) as i128, frozen: false },
            ),
        )
    }
}

/// The ledger with the flag of `id` set to `frozen` and its balance kept.
pub open spec fn with_frozen(t: Balances, id: Seq<char>, frozen: bool) -> Balances {
    stored(t, id, AccountState { amount: state_of(t, id).amount, frozen })
}

/// The guard against a frozen account.
pub open spec fn not_frozen(t: Balances, id: Seq<char>) -> Result<(), TokenError> {
    if is_frozen(t, id) {
        Err(TokenError::AccountFrozen)
    } else {
        Ok(())
    }
}

proof fn lemma_total_push(t: Balances, entry: (Seq<char>, AccountState))
    ensures
        total_supply(t.push(entry)) == total_supply(t) + entry.1.amount,
{
    assert(t.push(entry).drop_last() =~= t);
}

proof fn lemma_total_update(t: Balances, i: int, entry: (Seq<char>, AccountState))
    requires
        0 <= i < t.len(),
    ensures
        total_supply(t.update(i, entry)) == total_supply(t) - t[i].1.amount + entry.1.amount,
    decreases t.len(),
{
    if i == t.len() - 1 {
        assert(t.update(i, entry).drop_last() =~= t.drop_last());
    } else {
        assert(t.update(i, entry).drop_last() =~= t.drop_last().update(i, entry));
        lemma_total_update(t.drop_last(), i, entry);
    }
}

/// In a valid ledger no account has a negative balance.
pub proof fn lemma_balance_not_negative(t: Balances, id: Seq<char>)
    requires
        valid_balances(t),
    ensures
        0 <= balance_of(t, id) <= i128::MAX,
{
}

/// What storing a state for one account does to a valid ledger: the account
/// has that state, every other account keeps its own, and the sum of all
/// balances moves by as much as the balance of that account.
pub proof fn lemma_state_stored(t: Balances, id: Seq<char>, state: AccountState)
    requires
        valid_balances(t),
        state.amount >= 0,
    ensures
        valid_balances(stored(t, id, state)),
        state_of(stored(t, id, state), id) == state,
        forall|o: Seq<char>| o != id ==> state_of(#[trigger] stored(t, id, state), o) == state_of(t, o),
        total_supply(stored(t, id, state)) == total_supply(t) - balance_of(t, id) + state.amount,
{
    lemma_stored(t, id, state);
    let u = stored(t, id, state);
    if has_key(t, id) {
        lemma_total_update(t, slot_of(t, id), (id, state));
    } else {
        lemma_total_push(t, (id, state));
    }
    assert forall|i: int| 0 <= i < u.len() implies (#[trigger] u[i]).1.amount >= 0 by {
        if has_key(t, id) {
            if i != slot_of(t, id) {
                assert(u[i] == t[i]);
            }
        } else {
            if i < t.len() {
                assert(u[i] == t[i]);
            }
        }
    }
    assert forall|o: Seq<char>| o != id implies state_of(#[trigger] stored(t, id, state), o)
        == state_of(t, o) by {
        assert(lookup(stored(t, id, state), o) == lookup(t, o));
    }
}

/// A credit that is taken adds the amount to the account and to the sum of all
/// balances, and touches nothing else.
pub proof fn lemma_credit(t: Balances, id: Seq<char>, amount: i128)
    requires
        valid_balances(t),
    ensures
        credit(t, id, amount) is Ok <==> 0 <= amount && balance_of(t, id) + amount <= i128::MAX,
        credit(t, id, amount) matches Ok(u) ==> {
            &&& valid_balances(u)
            &&& balance_of(u, id) == balance_of(t, id) + amount
            &&& is_frozen(u, id) == is_frozen(t, id)
            &&& forall|o: Seq<char>| o != id ==> #[trigger] state_of(u, o) == state_of(t, o)
            &&& total_supply(u) == total_supply(t) + amount
        },
{
    if credit(t, id, amount) is Ok {
        lemma_state_stored(
            t,
            id,
            AccountState {
                amount: (balance_of(t, id) + amount) as i128,
                frozen: is_frozen(t, id),
            },
        );
    }
}

/// A debit that is taken removes the amount from the account and from the sum
/// of all balances, and touches nothing else.
pub proof fn lemma_debit(t: Balances, id: Seq<char>, amount: i128)
    requires
        valid_balances(t),
    ensures
        debit(t, id, amount) is Ok <==> !is_frozen(t, id) && 0 <= amount <= balance_of(t, id),
        debit(t, id, amount) matches Ok(u) ==> {
            &&& valid_balances(u)
            &&& balance_of(u, id) == balance_of(t, id) - amount
            &&& !is_frozen(u, id)
            &&& forall|o: Seq<char>| o != id ==> #[trigger] state_of(u, o) == state_of(t, o)
            &&& total_supply(u) == total_supply(t) - amount
        },
{
    if debit(t, id, amount) is Ok {
        lemma_state_stored(
            t,
            id,
            AccountState { amount: (balance_of(t, id) - amount) as i128, frozen: false },
        );
    }
}

/// Freezing or unfreezing an account changes its flag and nothing else.
pub proof fn lemma_with_frozen(t: Balances, id: Seq<char>, frozen: bool)
    requires
        valid_balances(t),
    ensures
        valid_balances(with_frozen(t, id, frozen)),
        is_frozen(with_frozen(t, id, frozen), id) == frozen,
        balance_of(with_frozen(t, id, frozen), id) == balance_of(t, id),
        forall|o: Seq<char>| o != id ==> #[trigger] state_of(with_frozen(t, id, frozen), o)
            == state_of(t, o),
        total_supply(with_frozen(t, id, frozen)) == total_supply(t),
{
    lemma_state_stored(t, id, AccountState { amount: state_of(t, id).amount, frozen });
}

struct BalanceEntry {
    account: Identity,
    state: AccountState,
}

/// The balance ledger.
pub struct BalanceLedger {
    entries: Vec<BalanceEntry>,
}

impl View for BalanceLedger {
    type V = Balances;

    closed spec fn view(&self) -> Balances {
        Seq::new(
            self.entries@.len(),
            |i: int| (self.entries@[i].account@, self.entries@[i].state),
        )
    }
}

impl BalanceLedger {
    /// The ledger is valid: see `valid_balances`.
    pub open spec fn wf(&self) -> bool {
        valid_balances(self@)
    }

    /// A ledger without entries.
    pub fn new() -> (ledger: BalanceLedger)
        ensures
            ledger@ == Seq::<(Seq<char>, AccountState)>::empty(),
            ledger.wf(),
    {
        let ledger = BalanceLedger { entries: Vec::new() };
        assert(ledger@ =~= Seq::<(Seq<char>, AccountState)>::empty());
        ledger
    }

    fn find(&self, id: &Identity) -> (at: Option<usize>)
        ensures
            match at {
                Some(i) => i < self@.len() && self@[i as int].0 == id@,
                None => !has_key(self@, id@),
            },
    {
        let mut i: usize = 0;
        while i < self.entries.len()
            invariant
                i <= self.entries.len(),
                forall|j: int| 0 <= j < i ==> (#[trigger] self@[j]).0 != id@,
            decreases self.entries.len() - i,
        {
            if self.entries[i].account.same(id) {
                return Some(i);
            }
            i += 1;
        }
        None
    }

    fn state(&self, id: &Identity) -> (state: AccountState)
        requires
            self.wf(),
        ensures
            state == state_of(self@, id@),
    {
        match self.find(id) {
            Some(i) => {
                proof {
                    lemma_found(self@, i as int, id@);
                }
                self.entries[i].state
            },
            None => AccountState { amount: 0, frozen: false },
        }
    }

    fn store(&mut self, id: &Identity, state: AccountState)
        requires
            old(self).wf(),
        ensures
            final(self)@ == stored(old(self)@, id@, state),
    {
        match self.find(id) {
            Some(i) => {
                proof {
                    lemma_found(self@, i as int, id@);
                }
                self.entries.set(i, BalanceEntry { account: id.clone(), state });
                assert(self@ =~= old(self)@.update(i as int, (id@, state)));
            },
            None => {
                self.entries.push(BalanceEntry { account: id.clone(), state });
                assert(self@ =~= old(self)@.push((id@, state)));
            },
        }
    }

    /// The balance of `id`: nothing for an account without an entry.
    pub fn read_balance(&self, id: &Identity) -> (amount: i128)
        requires
            self.wf(),
        ensures
            amount == balance_of(self@, id@),
            amount >= 0,
    {
        self.state(id).amount
    }

    /// Whether `id` is frozen: an account without an entry is not.
    pub fn read_state(&self, id: &Identity) -> (frozen: bool)
        requires
            self.wf(),
        ensures
            frozen == is_frozen(self@, id@),
    {
        self.state(id).frozen
    }

    /// Sets the flag of `id`, and makes its entry where it had none. The
    /// balance of `id`, every other account and the sum of all balances stay.
    pub fn write_state(&mut self, id: &Identity, frozen: bool)
        requires
            old(self).wf(),
        ensures
            final(self).wf(),
            final(self)@ == with_frozen(old(self)@, id@, frozen),
            is_frozen(final(self)@, id@) == frozen,
            balance_of(final(self)@, id@) == balance_of(old(self)@, id@),
            forall|o: Seq<char>| o != id@ ==> #[trigger] state_of(final(self)@, o) == state_of(old(self)@, o),
            total_supply(final(self)@) == total_supply(old(self)@),
    {
        let amount = self.state(id).amount;
        proof {
            lemma_with_frozen(self@, id@, frozen);
        }
        self.store(id, AccountState { amount, frozen });
    }

    /// Whether a credit of `amount` to `id` would be taken, and if not, why.
    pub fn check_receive(&self, id: &Identity, amount: i128) -> (res: Result<(), TokenError>)
        requires
            self.wf(),
        ensures
            res == outcome(credit(self@, id@, amount)),
    {
        if amount < 0 {
            return Err(TokenError::InvalidAmount);
        }
        let held = self.state(id).amount;
        if held > i128::MAX - amount {
            return Err(TokenError::Overflow);
        }
        Ok(())
    }

    /// Credits `amount` to `id`, frozen or not, and makes its entry where it
    /// had none. A negative amount is refused with `InvalidAmount`, a credit
    /// that would pass the largest amount with `Overflow`.
    pub fn receive_balance(&mut self, id: &Identity, amount: i128) -> (res: Result<(), TokenError>)
        requires
            old(self).wf(),
        ensures
            final(self).wf(),
            res == outcome(credit(old(self)@, id@, amount)),
            final(self)@ == settled(old(self)@, credit(old(self)@, id@, amount)),
            res is Ok <==> 0 <= amount && balance_of(old(self)@, id@) + amount <= i128::MAX,
            res is Ok ==> balance_of(final(self)@, id@) == balance_of(old(self)@, id@) + amount,
            res is Ok ==> total_supply(final(self)@) == total_supply(old(self)@) + amount,
    {
        if amount < 0 {
            return Err(TokenError::InvalidAmount);
        }
        let held = self.state(id);
        if held.amount > i128::MAX - amount {
            return Err(TokenError::Overflow);
        }
        proof {
            lemma_credit(self@, id@, amount);
        }
        self.store(id, AccountState { amount: held.amount + amount, frozen: held.frozen });
        Ok(())
    }

    /// Whether a debit of `amount` from `id` would be taken, and if not, why.
    pub fn check_spend(&self, id: &Identity, amount: i128) -> (res: Result<(), TokenError>)
        requires
            self.wf(),
        ensures
            res == outcome(debit(self@, id@, amount)),
    {
        let held = self.state(id);
        if held.frozen {
            return Err(TokenError::AccountFrozen);
        }
        if amount < 0 {
            return Err(TokenError::InvalidAmount);
        }
        if held.amount < amount {
            return Err(TokenError::InsufficientBalance);
        }
        Ok(())
    }

    /// Debits `amount` from `id`. A frozen account is refused with
    /// `AccountFrozen`, whatever the amount; then a negative amount with
    /// `InvalidAmount`; then an amount that the account does not hold with
    /// `InsufficientBalance`.
    pub fn spend_balance(&mut self, id: &Identity, amount: i128) -> (res: Result<(), TokenError>)
        requires
            old(self).wf(),
        ensures
            final(self).wf(),
            res == outcome(debit(old(self)@, id@, amount)),
            final(self)@ == settled(old(self)@, debit(old(self)@, id@, amount)),
            res is Ok <==> !is_frozen(old(self)@, id@) && 0 <= amount <= balance_of(old(self)@, id@),
            res is Ok ==> balance_of(final(self)@, id@) == balance_of(old(self)@, id@) - amount,
            res is Ok ==> total_supply(final(self)@) == total_supply(old(self)@) - amount,
    {
        let held = self.state(id);
        if held.frozen {
            return Err(TokenError::AccountFrozen);
        }
        if amount < 0 {
            return Err(TokenError::InvalidAmount);
        }
        if held.amount < amount {
            return Err(TokenError::InsufficientBalance);
        }
        proof {
            lemma_debit(self@, id@, amount);
        }
        self.store(id, AccountState { amount: held.amount - amount, frozen: false });
        Ok(())
    }

    /// Refuses a frozen account with `AccountFrozen`.
    pub fn check_not_frozen(&self, id: &Identity) -> (res: Result<(), TokenError>)
        requires
            self.wf(),
        ensures
            res == not_frozen(self@, id@),
    {
        if self.state(id).frozen {
            Err(TokenError::AccountFrozen)
        } else {
            Ok(())
        }
    }
}

} // verus!
