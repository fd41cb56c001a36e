//! The allowance registry: what an owner lets a spender take from its balance,
//! and until which ledger sequence. An allowance is never swept: once the
//! ledger sequence has passed its expiration it counts as nothing, whatever
//! amount is still written down.

use vstd::prelude::*;
use crate::error::{outcome, settled, TokenError};
use crate::identity::Identity;
use crate::table::{distinct_keys, has_key, lemma_found, lemma_stored, lookup, slot_of, stored};

verus! {

/// An allowance: what is left to spend, and the last ledger sequence at which
/// it can be spent.
#[derive(Debug, Clone, Copy, PartialEq, Eq, Structural)]
pub struct AllowanceValue {
    /// The amount that is left.
    pub amount: i128,
    /// The last ledger sequence at which the allowance counts.
    pub expiration_ledger: u32,
}

/// The model of an allowance registry: a table from the keys of an owner and a
/// spender to the allowance between them.
pub type Allowances = Seq<((Seq<char>, Seq<char>), AllowanceValue)>;

/// The allowance that is written down for `owner` and `spender`, expired or
/// not; nothing, with expiration 0, where none was ever written.
pub open spec fn stored_allowance(t: Allowances, owner: Seq<char>, spender: Seq<char>) -> AllowanceValue {
    match lookup(t, (owner, spender)) {
        Some(value) => value,
        None => AllowanceValue { amount: 0, expiration_ledger: 0 },
    }
}

/// Whether an allowance that expires at `expiration_ledger` has expired at the
/// ledger sequence `now`: the expiration itself is the last sequence at which
/// it still counts.
pub open spec fn expired(expiration_ledger: u32, now: u32) -> bool {
    expiration_ledger < now
}

/// The allowance that counts at the ledger sequence `now`: the one written
/// down, with nothing for its amount once it has expired.
pub open spec fn effective_allowance(
    t: Allowances,
    owner: Seq<char>,
    spender: Seq<char>,
    now: u32,
) -> AllowanceValue {
    let value = stored_allowance(t, owner, spender);
    if expired(value.expiration_ledger, now) {
        AllowanceValue { amount: 0, expiration_ledger: value.expiration_ledger }
    } else {
        value
    }
}

/// No pair of owner and spender has two entries and no amount is negative.
pub open spec fn valid_allowances(t: Allowances) -> bool {
    &&& distinct_keys(t)
    &&& forall|i: int| 0 <= i < t.len() ==> (#[trigger] t[i]).1.amount >= 0
}

/// Writing an allowance: it takes the place of the former one and adds
/// nothing to it. A negative amount is refused; an expiration in the past is
/// not.
pub open spec fn grant(
    t: Allowances,
    owner: Seq<char>,
    spender: Seq<char>,
    amount: i128,
    expiration_ledger: u32,
) -> Result<Allowances, TokenError> {
    if amount < 0 {
        Err(TokenError::InvalidAmount)
    } else {
        Ok(stored(t, (owner, spender), AllowanceValue { amount, expiration_ledger }))
    }
}

/// Spending `amount` of an allowance at the ledger sequence `now`. A negative
/// amount is refused, and so is more than the allowance that counts at `now`.
/// What is left of the allowance that counts is written down, under the
/// expiration that it had.
pub open spec fn spend(
    t: Allowances,
    owner: Seq<char>,
    spender: Seq<char>,
    amount: i128,
    now: u32,
) -> Result<Allowances, TokenError> {
    let counts = effective_allowance(t, owner, spender, now);
    if amount < 0 {
        Err(TokenError::InvalidAmount)
    } else if counts.amount < amount {
        Err(TokenError::InsufficientAllowance)
    } else {
        Ok(
            stored(
                t,
                (owner, spender),
                AllowanceValue {
                    amount: (counts.amount - amount) as i128,
                    expiration_ledger: counts.expiration_ledger,
                },
            ),
        )
    }
}

/// What writing an allowance does to a valid registry: the pair has that
/// allowance and every other pair keeps its own.
pub proof fn lemma_allowance_stored(
    t: Allowances,
    owner: Seq<char>,
    spender: Seq<char>,
    value: AllowanceValue,
)
    requires
        valid_allowances(t),
        value.amount >= 0,
    ensures
        valid_allowances(stored(t, (owner, spender), value)),
        stored_allowance(stored(t, (owner, spender), value), owner, spender) == value,
        forall|o: Seq<char>, s: Seq<char>|
            (o, s) != (owner, spender) ==> #[trigger] stored_allowance(
                stored(t, (owner, spender), value),
                o,
                s,
            ) == stored_allowance(t, o, s),
{
    let key = (owner, spender);
    let u = stored(t, key, value);
    lemma_stored(t, key, value);
    assert forall|i: int| 0 <= i < u.len() implies (#[trigger] u[i]).1.amount >= 0 by {
        if has_key(t, key) {
            if i != slot_of(t, key) {
                assert(u[i] == t[i]);
            }
        } else {
            if i < t.len() {
                assert(u[i] == t[i]);
            }
        }
    }
    assert forall|o: Seq<char>, s: Seq<char>| (o, s) != key implies #[trigger] stored_allowance(
        u,
        o,
        s,
    ) == stored_allowance(t, o, s) by {
        assert(lookup(stored(t, key, value), (o, s)) == lookup(t, (o, s)));
    }
}

/// An allowance that is written is the allowance of its pair, whatever was
/// there before, and no other pair changes.
pub proof fn lemma_grant(
    t: Allowances,
    owner: Seq<char>,
    spender: Seq<char>,
    amount: i128,
    expiration_ledger: u32,
)
    requires
        valid_allowances(t),
    ensures
        grant(t, owner, spender, amount, expiration_ledger) is Ok <==> amount >= 0,
        grant(t, owner, spender, amount, expiration_ledger) matches Ok(u) ==> {
            &&& valid_allowances(u)
            &&& stored_allowance(u, owner, spender) == AllowanceValue { amount, expiration_ledger }
            &&& forall|o: Seq<char>, s: Seq<char>|
                (o, s) != (owner, spender) ==> #[trigger] stored_allowance(u, o, s)
                    == stored_allowance(t, o, s)
        },
{
    if amount >= 0 {
        lemma_allowance_stored(t, owner, spender, AllowanceValue { amount, expiration_ledger });
    }
}

/// An allowance that is spent loses the amount, counted from what it was worth
/// at that ledger sequence, and keeps its expiration; no other pair changes.
pub proof fn lemma_spend(t: Allowances, owner: Seq<char>, spender: Seq<char>, amount: i128, now: u32)
    requires
        valid_allowances(t),
    ensures
        spend(t, owner, spender, amount, now) is Ok <==> 0 <= amount <= effective_allowance(
            t,
            owner,
            spender,
            now,
        ).amount,
        spend(t, owner, spender, amount, now) matches Ok(u) ==> {
            &&& valid_allowances(u)
            &&& stored_allowance(u, owner, spender).amount == effective_allowance(
                t,
                owner,
                spender,
                now,
            ).amount - amount
            &&& stored_allowance(u, owner, spender).expiration_ledger == stored_allowance(
                t,
                owner,
                spender,
            ).expiration_ledger
            &&& forall|o: Seq<char>, s: Seq<char>|
                (o, s) != (owner, spender) ==> #[trigger] stored_allowance(u, o, s)
                    == stored_allowance(t, o, s)
        },
{
    let counts = effective_allowance(t, owner, spender, now);
    if spend(t, owner, spender, amount, now) is Ok {
        lemma_allowance_stored(
            t,
            owner,
            spender,
            AllowanceValue {
                amount: (counts.amount - amount) as i128,
                expiration_ledger: counts.expiration_ledger,
            },
        );
    }
}

struct AllowanceEntry {
    owner: Identity,
    spender: Identity,
    value: AllowanceValue,
}

/// The allowance registry.
pub struct AllowanceRegistry {
    entries: Vec<AllowanceEntry>,
}

impl View for AllowanceRegistry {
    type V = Allowances;

    closed spec fn view(&self) -> Allowances {
        Seq::new(
            self.entries@.len(),
            |i: int|
                ((self.entries@[i].owner@, self.entries@[i].spender@), self.entries@[i].value),
        )
    }
}

impl AllowanceRegistry {
    /// The registry is valid: see `valid_allowances`.
    pub open spec fn wf(&self) -> bool {
        valid_allowances(self@)
    }

    /// A registry without entries.
    pub fn new() -> (registry: AllowanceRegistry)
        ensures
            registry@ == Seq::<((Seq<char>, Seq<char>), AllowanceValue)>::empty(),
            registry.wf(),
    {
        let registry = AllowanceRegistry { entries: Vec::new() };
        assert(registry@ =~= Seq::<((Seq<char>, Seq<char>), AllowanceValue)>::empty());
        registry
    }

    fn find(&self, owner: &Identity, spender: &Identity) -> (at: Option<usize>)
        ensures
            match at {
                Some(i) => i < self@.len() && self@[i as int].0 == (owner@, spender@),
                None => !has_key(self@, (owner@, spender@)),
            },
    {
        let mut i: usize = 0;
        while i < self.entries.len()
            invariant
                i <= self.entries.len(),
                forall|j: int| 0 <= j < i ==> (#[trigger] self@[j]).0 != (owner@, spender@),
            decreases self.entries.len() - i,
        {
            if self.entries[i].owner.same(owner) && self.entries[i].spender.same(spender) {
                return Some(i);
            }
            i += 1;
        }
        None
    }

    fn stored_value(&self, owner: &Identity, spender: &Identity) -> (value: AllowanceValue)
        requires
            self.wf(),
        ensures
            value == stored_allowance(self@, owner@, spender@),
    {
        match self.find(owner, spender) {
            Some(i) => {
                proof {
                    lemma_found(self@, i as int, (owner@, spender@));
                }
                self.entries[i].value
            },
            None => AllowanceValue { amount: 0, expiration_ledger: 0 },
        }
    }

    fn store(&mut self, owner: &Identity, spender: &Identity, value: AllowanceValue)
        requires
            old(self).wf(),
        ensures
            final(self)@ == stored(old(self)@, (owner@, spender@), value),
    {
        let entry = AllowanceEntry { owner: owner.clone(), spender: spender.clone(), value };
        match self.find(owner, spender) {
            Some(i) => {
                proof {
                    lemma_found(self@, i as int, (owner@, spender@));
                }
                self.entries.set(i, entry);
                assert(self@ =~= old(self)@.update(i as int, ((owner@, spender@), value)));
            },
            None => {
                self.entries.push(entry);
                assert(self@ =~= old(self)@.push(((owner@, spender@), value)));
            },
        }
    }

    /// The allowance of `spender` on the balance of `owner` that counts at the
    /// ledger sequence `current_ledger`: the one written down, with nothing for
    /// its amount if it has expired; nothing, with expiration 0, where none was
    /// ever written.
    pub fn read_allowance(&self, owner: &Identity, spender: &Identity, current_ledger: u32) -> (value:
        AllowanceValue)
        requires
            self.wf(),
        ensures
            value == effective_allowance(self@, owner@, spender@, current_ledger),
            value.amount >= 0,
    {
        let written = self.stored_value(owner, spender);
        if written.expiration_ledger < current_ledger {
            AllowanceValue { amount: 0, expiration_ledger: written.expiration_ledger }
        } else {
            written
        }
    }

    /// Writes the allowance of `spender` on the balance of `owner` in the place
    /// of the former one. A negative amount is refused with `InvalidAmount`; an
    /// expiration in the past is taken, and gives an allowance that counts as
    /// nothing.
    pub fn write_allowance(
        &mut self,
        owner: &Identity,
        spender: &Identity,
        amount: i128,
        expiration_ledger: u32,
    ) -> (res: Result<(), TokenError>)
        requires
            old(self).wf(),
        ensures
            final(self).wf(),
            res == outcome(grant(old(self)@, owner@, spender@, amount, expiration_ledger)),
            final(self)@ == settled(
                old(self)@,
                grant(old(self)@, owner@, spender@, amount, expiration_ledger),
            ),
            res is Ok <==> amount >= 0,
            res is Ok ==> stored_allowance(final(self)@, owner@, spender@) == (AllowanceValue {
                amount,
                expiration_ledger,
            }),
    {
        if amount < 0 {
            return Err(TokenError::InvalidAmount);
        }
        proof {
            lemma_grant(self@, owner@, spender@, amount, expiration_ledger);
        }
        self.store(owner, spender, AllowanceValue { amount, expiration_ledger });
        Ok(())
    }

    /// Whether `spender` could spend `amount` of its allowance on the balance
    /// of `owner` at the ledger sequence `current_ledger`, and if not, why.
    pub fn check_spend(
        &self,
        owner: &Identity,
        spender: &Identity,
        amount: i128,
        current_ledger: u32,
    ) -> (res: Result<(), TokenError>)
        requires
            self.wf(),
        ensures
            res == outcome(spend(self@, owner@, spender@, amount, current_ledger)),
    {
        let counts = self.read_allowance(owner, spender, current_ledger);
        if amount < 0 {
            return Err(TokenError::InvalidAmount);
        }
        if counts.amount < amount {
            return Err(TokenError::InsufficientAllowance);
        }
        Ok(())
    }

    /// Spends `amount` of the allowance of `spender` on the balance of `owner`
    /// at the ledger sequence `current_ledger`. A negative amount is refused
    /// with `InvalidAmount`, more than the allowance that counts with
    /// `InsufficientAllowance`: an expired allowance counts as nothing. What is
    /// left is written down under the expiration that the allowance had.
    pub fn spend_allowance(
        &mut self,
        owner: &Identity,
        spender: &Identity,
        amount: i128,
        current_ledger: u32,
    ) -> (res: Result<(), TokenError>)
        requires
            old(self).wf(),
        ensures
            final(self).wf(),
            res == outcome(spend(old(self)@, owner@, spender@, amount, current_ledger)),
            final(self)@ == settled(
                old(self)@,
                spend(old(self)@, owner@, spender@, amount, current_ledger),
            ),
            res is Ok <==> 0 <= amount <= effective_allowance(
                old(self)@,
                owner@,
                spender@,
                current_ledger,
            ).amount,
            res is Ok ==> stored_allowance(final(self)@, owner@, spender@) == (AllowanceValue {
                amount: (effective_allowance(old(self)@, owner@, spender@, current_ledger).amount
                    - amount) as i128,
                expiration_ledger: stored_allowance(old(self)@, owner@, spender@).expiration_ledger,
            }),
    {
        let counts = self.read_allowance(owner, spender, current_ledger);
        if amount < 0 {
            return Err(TokenError::InvalidAmount);
        }
        if counts.amount < amount {
            return Err(TokenError::InsufficientAllowance);
        }
        proof {
            lemma_spend(self@, owner@, spender@, amount, current_ledger);
        }
        self.store(
            owner,
            spender,
            AllowanceValue {
                amount: counts.amount - amount,
                expiration_ledger: counts.expiration_ledger,
            },
        );
        Ok(())
    }
}

} // verus!
