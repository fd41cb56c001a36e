//! The token ledger: the admin registry, the metadata, the balances and the
//! allowances behind one set of entry points. Every entry point is one step:
//! it asks for the proof of control that it needs, tests what it must, and
//! only then changes anything. A step that is refused changes nothing.

use vstd::prelude::*;
use crate::admin::AdminRegistry;
use crate::allowance::{
    effective_allowance, grant, lemma_spend, spend, valid_allowances, AllowanceRegistry,
    Allowances,
};
use crate::auth::AuthOracle;
use crate::balance::{
    balance_of, credit, debit, is_frozen, lemma_credit, lemma_debit, lemma_with_frozen, state_of,
    total_supply, valid_balances, with_frozen, BalanceLedger, Balances,
};
use crate::error::{outcome, settled, TokenError};
use crate::events::{AdminChangedEvent, UpgradedEvent};
use crate::identity::Identity;
use crate::metadata::{Metadata, MetadataStore};

verus! {

/// The model of a token ledger: what it knows between two calls.
pub struct TokenState {
    /// The key of the administrator, once the ledger is initialized.
    pub admin: Option<Seq<char>>,
    /// The metadata, once the ledger is initialized.
    pub metadata: Option<Metadata>,
    /// The balance ledger.
    pub balances: Balances,
    /// The allowance registry.
    pub allowances: Allowances,
}

impl TokenState {
    /// The balances and the allowances are valid.
    pub open spec fn valid(self) -> bool {
        valid_balances(self.balances) && valid_allowances(self.allowances)
    }

    /// The ledger before it is initialized.
    pub open spec fn empty() -> TokenState {
        TokenState { admin: None, metadata: None, balances: Seq::empty(), allowances: Seq::empty() }
    }

    /// The state with other balances.
    pub open spec fn with_balances(self, balances: Balances) -> TokenState {
        TokenState { balances, ..self }
    }

    /// The state with other allowances.
    pub open spec fn with_allowances(self, allowances: Allowances) -> TokenState {
        TokenState { allowances, ..self }
    }

    /// What every call of the administrator's asks first: refused with
    /// `NotInitialized` while there is no administrator, and with
    /// `Unauthorized` unless the administrator has proved control.
    pub open spec fn admin_consent(self, auth: Set<Seq<char>>) -> Result<Seq<char>, TokenError> {
        match self.admin {
            None => Err(TokenError::NotInitialized),
            Some(admin) => if auth.contains(admin) {
                Ok(admin)
            } else {
                Err(TokenError::Unauthorized)
            },
        }
    }

    /// Sets the administrator and the metadata, once.
    pub open spec fn initialize(
        self,
        admin: Seq<char>,
        decimal: u32,
        name: Seq<char>,
        symbol: Seq<char>,
    ) -> Result<TokenState, TokenError> {
        if self.admin is Some {
            Err(TokenError::AlreadyInitialized)
        } else {
            Ok(
                TokenState {
                    admin: Some(admin),
                    metadata: Some(Metadata { decimal, name, symbol }),
                    ..self
                },
            )
        }
    }

    /// The administrator credits `amount` to `to`.
    pub open spec fn mint(self, auth: Set<Seq<char>>, to: Seq<char>, amount: i128) -> Result<
        TokenState,
        TokenError,
    > {
        match self.admin_consent(auth) {
            Err(e) => Err(e),
            Ok(_) => match credit(self.balances, to, amount) {
                Err(e) => Err(e),
                Ok(balances) => Ok(self.with_balances(balances)),
            },
        }
    }

    /// The administrator hands the role to `new_admin`.
    pub open spec fn set_admin(self, auth: Set<Seq<char>>, new_admin: Seq<char>) -> Result<
        TokenState,
        TokenError,
    > {
        match self.admin_consent(auth) {
            Err(e) => Err(e),
            Ok(_) => Ok(TokenState { admin: Some(new_admin), ..self }),
        }
    }

    /// The administrator sets the flag of `id`.
    pub open spec fn set_frozen(self, auth: Set<Seq<char>>, id: Seq<char>, frozen: bool) -> Result<
        TokenState,
        TokenError,
    > {
        match self.admin_consent(auth) {
            Err(e) => Err(e),
            Ok(_) => Ok(self.with_balances(with_frozen(self.balances, id, frozen))),
        }
    }

    /// `from` writes the allowance of `spender` on its balance.
    pub open spec fn approve(
        self,
        auth: Set<Seq<char>>,
        from: Seq<char>,
        spender: Seq<char>,
        amount: i128,
        expiration_ledger: u32,
    ) -> Result<TokenState, TokenError> {
        if !auth.contains(from) {
            Err(TokenError::Unauthorized)
        } else if is_frozen(self.balances, from) {
            Err(TokenError::AccountFrozen)
        } else {
            match grant(self.allowances, from, spender, amount, expiration_ledger) {
                Err(e) => Err(e),
                Ok(allowances) => Ok(self.with_allowances(allowances)),
            }
        }
    }

    /// The balances after `amount` has gone from `from` to `to`: the debit
    /// first, then the credit.
    pub open spec fn moved(balances: Balances, from: Seq<char>, to: Seq<char>, amount: i128) -> Result<
        Balances,
        TokenError,
    > {
        match debit(balances, from, amount) {
            Err(e) => Err(e),
            Ok(debited) => credit(debited, to, amount),
        }
    }

    /// `from` sends `amount` to `to`.
    pub open spec fn transfer(
        self,
        auth: Set<Seq<char>>,
        from: Seq<char>,
        to: Seq<char>,
        amount: i128,
    ) -> Result<TokenState, TokenError> {
        if !auth.contains(from) {
            Err(TokenError::Unauthorized)
        } else {
            match Self::moved(self.balances, from, to, amount) {
                Err(e) => Err(e),
                Ok(balances) => Ok(self.with_balances(balances)),
            }
        }
    }

    /// `spender` sends `amount` from the balance of `from` to `to`, out of its
    /// allowance at the ledger sequence `now`.
    pub open spec fn transfer_from(
        self,
        auth: Set<Seq<char>>,
        now: u32,
        spender: Seq<char>,
        from: Seq<char>,
        to: Seq<char>,
        amount: i128,
    ) -> Result<TokenState, TokenError> {
        if !auth.contains(spender) {
            Err(TokenError::Unauthorized)
        } else if is_frozen(self.balances, spender) {
            Err(TokenError::AccountFrozen)
        } else {
            match spend(self.allowances, from, spender, amount, now) {
                Err(e) => Err(e),
                Ok(allowances) => match Self::moved(self.balances, from, to, amount) {
                    Err(e) => Err(e),
                    Ok(balances) => Ok(TokenState { balances, allowances, ..self }),
                },
            }
        }
    }

    /// `from` destroys `amount` of its balance.
    pub open spec fn burn(self, auth: Set<Seq<char>>, from: Seq<char>, amount: i128) -> Result<
        TokenState,
        TokenError,
    > {
        if !auth.contains(from) {
            Err(TokenError::Unauthorized)
        } else {
            match debit(self.balances, from, amount) {
                Err(e) => Err(e),
                Ok(balances) => Ok(self.with_balances(balances)),
            }
        }
    }

    /// `spender` destroys `amount` of the balance of `from`, out of its
    /// allowance at the ledger sequence `now`.
    pub open spec fn burn_from(
        self,
        auth: Set<Seq<char>>,
        now: u32,
        spender: Seq<char>,
        from: Seq<char>,
        amount: i128,
    ) -> Result<TokenState, TokenError> {
        if !auth.contains(spender) {
            Err(TokenError::Unauthorized)
        } else if is_frozen(self.balances, spender) {
            Err(TokenError::AccountFrozen)
        } else {
            match spend(self.allowances, from, spender, amount, now) {
                Err(e) => Err(e),
                Ok(allowances) => match debit(self.balances, from, amount) {
                    Err(e) => Err(e),
                    Ok(balances) => Ok(TokenState { balances, allowances, ..self }),
                },
            }
        }
    }

    /// `caller` orders an upgrade. Who the caller is comes first: one who is
    /// not the administrator is refused, proof of control or none. The state
    /// stays as it is.
    pub open spec fn upgrade(self, auth: Set<Seq<char>>, caller: Seq<char>) -> Result<
        TokenState,
        TokenError,
    > {
        match self.admin {
            None => Err(TokenError::NotInitialized),
            Some(admin) => if caller != admin {
                Err(TokenError::Unauthorized)
            } else if !auth.contains(caller) {
                Err(TokenError::Unauthorized)
            } else {
                Ok(self)
            },
        }
    }
}

/// Moving an amount between two accounts of a valid ledger: when it is taken,
/// and what it leaves. The sum of all balances stays.
pub proof fn lemma_moved(balances: Balances, from: Seq<char>, to: Seq<char>, amount: i128)
    requires
        valid_balances(balances),
    ensures
        TokenState::moved(balances, from, to, amount) is Ok <==> {
            &&& debit(balances, from, amount) is Ok
            &&& (from == to || balance_of(balances, to) + amount <= i128::MAX)
        },
        debit(balances, from, amount) is Ok && from != to ==> outcome(
            TokenState::moved(balances, from, to, amount),
        ) == outcome(credit(balances, to, amount)),
        TokenState::moved(balances, from, to, amount) matches Ok(after) ==> {
            &&& valid_balances(after)
            &&& total_supply(after) == total_supply(balances)
            &&& from != to ==> balance_of(after, from) == balance_of(balances, from) - amount
            &&& from != to ==> balance_of(after, to) == balance_of(balances, to) + amount
            &&& from == to ==> balance_of(after, from) == balance_of(balances, from)
            &&& forall|o: Seq<char>|
                o != from && o != to ==> #[trigger] balance_of(after, o) == balance_of(balances, o)
            &&& forall|o: Seq<char>| o != from ==> #[trigger] is_frozen(after, o) == is_frozen(balances, o)
            &&& !is_frozen(after, from)
        },
{
    lemma_debit(balances, from, amount);
    if let Ok(debited) = debit(balances, from, amount) {
        lemma_credit(debited, to, amount);
        if from != to {
            assert(state_of(debited, to) == state_of(balances, to));
        }
        if let Ok(after) = credit(debited, to, amount) {
            assert forall|o: Seq<char>| o != from && o != to implies #[trigger] balance_of(after, o)
                == balance_of(balances, o) by {
                assert(state_of(after, o) == state_of(debited, o));
                assert(state_of(debited, o) == state_of(balances, o));
            }
            assert forall|o: Seq<char>| o != from implies #[trigger] is_frozen(after, o) == is_frozen(
                balances,
                o,
            ) by {
                assert(state_of(debited, o) == state_of(balances, o));
                if o != to {
                    assert(state_of(after, o) == state_of(debited, o));
                }
            }
            if from != to {
                assert(state_of(after, from) == state_of(debited, from));
            }
        }
    }
}

/// The token ledger.
pub struct LumenToken {
    admin: AdminRegistry,
    metadata: MetadataStore,
    balances: BalanceLedger,
    allowances: AllowanceRegistry,
}

impl View for LumenToken {
    type V = TokenState;

    closed spec fn view(&self) -> TokenState {
        TokenState {
            admin: self.admin@,
            metadata: self.metadata@,
            balances: self.balances@,
            allowances: self.allowances@,
        }
    }
}

impl LumenToken {
    /// The ledger is valid: its balances are, and its allowances.
    pub open spec fn wf(&self) -> bool {
        self@.valid()
    }

    /// A ledger that is not initialized and holds nothing.
    pub fn new() -> (token: LumenToken)
        ensures
            token@ == TokenState::empty(),
            token.wf(),
    {
        LumenToken {
            admin: AdminRegistry::new(),
            metadata: MetadataStore::new(),
            balances: BalanceLedger::new(),
            allowances: AllowanceRegistry::new(),
        }
    }

    /// The ledger made of these four stores.
    pub fn from_parts(
        admin: AdminRegistry,
        metadata: MetadataStore,
        balances: BalanceLedger,
        allowances: AllowanceRegistry,
    ) -> (token: LumenToken)
        requires
            balances.wf(),
            allowances.wf(),
        ensures
            token.wf(),
            token@ == (TokenState {
                admin: admin@,
                metadata: metadata@,
                balances: balances@,
                allowances: allowances@,
            }),
    {
        LumenToken { admin, metadata, balances, allowances }
    }

    /// The admin registry of this ledger.
    pub fn admin(&self) -> (admin: &AdminRegistry)
        ensures
            admin@ == self@.admin,
    {
        &self.admin
    }

    /// The metadata store of this ledger.
    pub fn metadata(&self) -> (metadata: &MetadataStore)
        ensures
            metadata@ == self@.metadata,
    {
        &self.metadata
    }

    /// The balance ledger of this ledger.
    pub fn balances(&self) -> (balances: &BalanceLedger)
        ensures
            balances@ == self@.balances,
            self.wf() ==> balances.wf(),
    {
        &self.balances
    }

    /// The allowance registry of this ledger.
    pub fn allowances(&self) -> (allowances: &AllowanceRegistry)
        ensures
            allowances@ == self@.allowances,
            self.wf() ==> allowances.wf(),
    {
        &self.allowances
    }

    fn admin_consent(&self, auth: &AuthOracle) -> (res: Result<Identity, TokenError>)
        ensures
            match self@.admin_consent(auth@) {
                Ok(admin) => res is Ok && res->Ok_0@ == admin,
                Err(e) => res == Err::<Identity, TokenError>(e),
            },
    {
        match self.admin.read_administrator() {
            Err(e) => Err(e),
            Ok(admin) => if auth.proves(&admin) {
                Ok(admin)
            } else {
                Err(TokenError::Unauthorized)
            },
        }
    }

    /// Sets the administrator and the metadata. It asks for no proof of
    /// control. A ledger that has an administrator is refused with
    /// `AlreadyInitialized`.
    pub fn initialize(&mut self, admin: Identity, decimal: u32, name: String, symbol: String) -> (res:
        Result<(), TokenError>)
        requires
            old(self).wf(),
        ensures
            final(self).wf(),
            res == outcome(old(self)@.initialize(admin@, decimal, name@, symbol@)),
            final(self)@ == settled(
                old(self)@,
                old(self)@.initialize(admin@, decimal, name@, symbol@),
            ),
            res is Ok <==> old(self)@.admin is None,
    {
        if self.admin.has_administrator() {
            return Err(TokenError::AlreadyInitialized);
        }
        self.admin.write_administrator(admin);
        self.metadata.write_metadata(decimal, name, symbol);
        Ok(())
    }

    /// Credits `amount` to `to`, frozen or not. The administrator must have
    /// proved control. Refused with `NotInitialized`, `Unauthorized`,
    /// `InvalidAmount` for a negative amount, or `Overflow`, in this order.
    pub fn mint(&mut self, auth: &AuthOracle, to: &Identity, amount: i128) -> (res: Result<
        (),
        TokenError,
    >)
        requires
            old(self).wf(),
        ensures
            final(self).wf(),
            res == outcome(old(self)@.mint(auth@, to@, amount)),
            final(self)@ == settled(old(self)@, old(self)@.mint(auth@, to@, amount)),
            res is Ok <==> old(self)@.admin_consent(auth@) is Ok && 0 <= amount && balance_of(
                old(self)@.balances,
                to@,
            ) + amount <= i128::MAX,
            res is Ok ==> balance_of(final(self)@.balances, to@) == balance_of(
                old(self)@.balances,
                to@,
            ) + amount,
            res is Ok ==> total_supply(final(self)@.balances) == total_supply(old(self)@.balances)
                + amount,
    {
        match self.admin_consent(auth) {
            Err(e) => Err(e),
            Ok(_) => self.balances.receive_balance(to, amount),
        }
    }

    /// Hands the role of administrator to `new_admin` and reports the change.
    /// The administrator until now must have proved control. Refused with
    /// `NotInitialized` or `Unauthorized`.
    pub fn set_admin(&mut self, auth: &AuthOracle, new_admin: Identity) -> (res: Result<
        AdminChangedEvent,
        TokenError,
    >)
        requires
            old(self).wf(),
        ensures
            final(self).wf(),
            outcome(res) == outcome(old(self)@.set_admin(auth@, new_admin@)),
            final(self)@ == settled(old(self)@, old(self)@.set_admin(auth@, new_admin@)),
            res matches Ok(event) ==> Some(event.old_admin@) == old(self)@.admin
                && event.new_admin@ == new_admin@ && final(self)@.admin == Some(new_admin@),
    {
        match self.admin_consent(auth) {
            Err(e) => Err(e),
            Ok(old_admin) => {
                self.admin.write_administrator(new_admin.clone());
                Ok(AdminChangedEvent { old_admin, new_admin })
            },
        }
    }

    fn set_frozen(&mut self, auth: &AuthOracle, id: &Identity, frozen: bool) -> (res: Result<
        (),
        TokenError,
    >)
        requires
            old(self).wf(),
        ensures
            final(self).wf(),
            res == outcome(old(self)@.set_frozen(auth@, id@, frozen)),
            final(self)@ == settled(old(self)@, old(self)@.set_frozen(auth@, id@, frozen)),
    {
        match self.admin_consent(auth) {
            Err(e) => Err(e),
            Ok(_) => {
                self.balances.write_state(id, frozen);
                Ok(())
            },
        }
    }

    /// Freezes `id`: it can still be credited, but no longer debited, and it
    /// can no longer approve or spend an allowance. The administrator must
    /// have proved control. Refused with `NotInitialized` or `Unauthorized`.
    pub fn freeze(&mut self, auth: &AuthOracle, id: &Identity) -> (res: Result<(), TokenError>)
        requires
            old(self).wf(),
        ensures
            final(self).wf(),
            res == outcome(old(self)@.set_frozen(auth@, id@, true)),
            final(self)@ == settled(old(self)@, old(self)@.set_frozen(auth@, id@, true)),
            res is Ok ==> is_frozen(final(self)@.balances, id@),
    {
        proof {
            lemma_with_frozen(self@.balances, id@, true);
        }
        self.set_frozen(auth, id, true)
    }

    /// Lifts the freeze of `id`. The administrator must have proved control.
    /// Refused with `NotInitialized` or `Unauthorized`.
    pub fn unfreeze(&mut self, auth: &AuthOracle, id: &Identity) -> (res: Result<(), TokenError>)
        requires
            old(self).wf(),
        ensures
            final(self).wf(),
            res == outcome(old(self)@.set_frozen(auth@, id@, false)),
            final(self)@ == settled(old(self)@, old(self)@.set_frozen(auth@, id@, false)),
            res is Ok ==> !is_frozen(final(self)@.balances, id@),
    {
        proof {
            lemma_with_frozen(self@.balances, id@, false);
        }
        self.set_frozen(auth, id, false)
    }

    /// What `spender` may take from the balance of `from` at the ledger
    /// sequence `current_ledger`: nothing once the allowance has expired.
    pub fn allowance(&self, current_ledger: u32, from: &Identity, spender: &Identity) -> (amount: i128)
        requires
            self.wf(),
        ensures
            amount == effective_allowance(self@.allowances, from@, spender@, current_ledger).amount,
            amount >= 0,
    {
        self.allowances.read_allowance(from, spender, current_ledger).amount
    }

    /// Writes the allowance of `spender` on the balance of `from`, in the
    /// place of the former one. `from` must have proved control. Refused with
    /// `Unauthorized`, `AccountFrozen` if `from` is frozen, or `InvalidAmount`
    /// for a negative amount, in this order.
    pub fn approve(
        &mut self,
        auth: &AuthOracle,
        from: &Identity,
        spender: &Identity,
        amount: i128,
        expiration_ledger: u32,
    ) -> (res: Result<(), TokenError>)
        requires
            old(self).wf(),
        ensures
            final(self).wf(),
            res == outcome(old(self)@.approve(auth@, from@, spender@, amount, expiration_ledger)),
            final(self)@ == settled(
                old(self)@,
                old(self)@.approve(auth@, from@, spender@, amount, expiration_ledger),
            ),
    {
        if !auth.proves(from) {
            return Err(TokenError::Unauthorized);
        }
        match self.balances.check_not_frozen(from) {
            Err(e) => Err(e),
            Ok(()) => self.allowances.write_allowance(from, spender, amount, expiration_ledger),
        }
    }

    /// The balance of `id`.
    pub fn balance(&self, id: &Identity) -> (amount: i128)
        requires
            self.wf(),
        ensures
            amount == balance_of(self@.balances, id@),
            amount >= 0,
    {
        self.balances.read_balance(id)
    }

    fn check_move(&self, from: &Identity, to: &Identity, amount: i128) -> (res: Result<(), TokenError>)
        requires
            self.wf(),
        ensures
            res == outcome(TokenState::moved(self@.balances, from@, to@, amount)),
    {
        proof {
            lemma_moved(self@.balances, from@, to@, amount);
        }
        match self.balances.check_spend(from, amount) {
            Err(e) => Err(e),
            Ok(()) => if from.same(to) {
                Ok(())
            } else {
                self.balances.check_receive(to, amount)
            },
        }
    }

    fn apply_move(&mut self, from: &Identity, to: &Identity, amount: i128)
        requires
            old(self).wf(),
            TokenState::moved(old(self)@.balances, from@, to@, amount) is Ok,
        ensures
            final(self).wf(),
            final(self)@ == old(self)@.with_balances(
                TokenState::moved(old(self)@.balances, from@, to@, amount)->Ok_0,
            ),
    {
        proof {
            lemma_moved(self@.balances, from@, to@, amount);
        }
        let _ = self.balances.spend_balance(from, amount);
        let _ = self.balances.receive_balance(to, amount);
    }

    /// Sends `amount` from `from` to `to`. `from` must have proved control.
    /// Refused with `Unauthorized`; then as the debit of `from` is refused,
    /// with `AccountFrozen`, `InvalidAmount` or `InsufficientBalance`; then
    /// with `Overflow` if `to` cannot hold the amount. The sum of all balances
    /// stays.
    pub fn transfer(&mut self, auth: &AuthOracle, from: &Identity, to: &Identity, amount: i128) -> (res:
        Result<(), TokenError>)
        requires
            old(self).wf(),
        ensures
            final(self).wf(),
            res == outcome(old(self)@.transfer(auth@, from@, to@, amount)),
            final(self)@ == settled(old(self)@, old(self)@.transfer(auth@, from@, to@, amount)),
            total_supply(final(self)@.balances) == total_supply(old(self)@.balances),
            res is Ok <==> {
                &&& auth@.contains(from@)
                &&& !is_frozen(old(self)@.balances, from@)
                &&& 0 <= amount <= balance_of(old(self)@.balances, from@)
                &&& (from@ == to@ || balance_of(old(self)@.balances, to@) + amount <= i128::MAX)
            },
            res is Ok && from@ != to@ ==> {
                &&& balance_of(final(self)@.balances, from@) == balance_of(
                    old(self)@.balances,
                    from@,
                ) - amount
                &&& balance_of(final(self)@.balances, to@) == balance_of(old(self)@.balances, to@)
                    + amount
            },
            res is Ok && from@ == to@ ==> balance_of(final(self)@.balances, from@) == balance_of(
                old(self)@.balances,
                from@,
            ),
    {
        proof {
            lemma_moved(self@.balances, from@, to@, amount);
        }
        if !auth.proves(from) {
            return Err(TokenError::Unauthorized);
        }
        match self.check_move(from, to, amount) {
            Err(e) => Err(e),
            Ok(()) => {
                self.apply_move(from, to, amount);
                Ok(())
            },
        }
    }

    /// Sends `amount` from `from` to `to` on behalf of `spender`, out of the
    /// allowance that counts at the ledger sequence `current_ledger`. `spender`
    /// must have proved control. Refused with `Unauthorized`; with
    /// `AccountFrozen` if `spender` is frozen; with `InvalidAmount` or
    /// `InsufficientAllowance`; then as the debit of `from` is refused; then
    /// with `Overflow` if `to` cannot hold the amount. The sum of all balances
    /// stays.
    pub fn transfer_from(
        &mut self,
        auth: &AuthOracle,
        current_ledger: u32,
        spender: &Identity,
        from: &Identity,
        to: &Identity,
        amount: i128,
    ) -> (res: Result<(), TokenError>)
        requires
            old(self).wf(),
        ensures
            final(self).wf(),
            res == outcome(
                old(self)@.transfer_from(auth@, current_ledger, spender@, from@, to@, amount),
            ),
            final(self)@ == settled(
                old(self)@,
                old(self)@.transfer_from(auth@, current_ledger, spender@, from@, to@, amount),
            ),
            total_supply(final(self)@.balances) == total_supply(old(self)@.balances),
    {
        proof {
            lemma_moved(self@.balances, from@, to@, amount);
            lemma_spend(self@.allowances, from@, spender@, amount, current_ledger);
        }
        if !auth.proves(spender) {
            return Err(TokenError::Unauthorized);
        }
        if let Err(e) = self.balances.check_not_frozen(spender) {
            return Err(e);
        }
        if let Err(e) = self.allowances.check_spend(from, spender, amount, current_ledger) {
            return Err(e);
        }
        if let Err(e) = self.check_move(from, to, amount) {
            return Err(e);
        }
        let _ = self.allowances.spend_allowance(from, spender, amount, current_ledger);
        self.apply_move(from, to, amount);
        Ok(())
    }

    /// Destroys `amount` of the balance of `from`. `from` must have proved
    /// control. Refused with `Unauthorized`, or as the debit of `from` is
    /// refused.
    pub fn burn(&mut self, auth: &AuthOracle, from: &Identity, amount: i128) -> (res: Result<
        (),
        TokenError,
    >)
        requires
            old(self).wf(),
        ensures
            final(self).wf(),
            res == outcome(old(self)@.burn(auth@, from@, amount)),
            final(self)@ == settled(old(self)@, old(self)@.burn(auth@, from@, amount)),
            res is Ok <==> {
                &&& auth@.contains(from@)
                &&& !is_frozen(old(self)@.balances, from@)
                &&& 0 <= amount <= balance_of(old(self)@.balances, from@)
            },
            res is Ok ==> balance_of(final(self)@.balances, from@) == balance_of(
                old(self)@.balances,
                from@,
            ) - amount,
            res is Ok ==> total_supply(final(self)@.balances) == total_supply(old(self)@.balances)
                - amount,
    {
        if !auth.proves(from) {
            return Err(TokenError::Unauthorized);
        }
        self.balances.spend_balance(from, amount)
    }

    /// Destroys `amount` of the balance of `from` on behalf of `spender`, out
    /// of the allowance that counts at the ledger sequence `current_ledger`.
    /// `spender` must have proved control. Refused with `Unauthorized`; with
    /// `AccountFrozen` if `spender` is frozen; with `InvalidAmount` or
    /// `InsufficientAllowance`; then as the debit of `from` is refused.
    pub fn burn_from(
        &mut self,
        auth: &AuthOracle,
        current_ledger: u32,
        spender: &Identity,
        from: &Identity,
        amount: i128,
    ) -> (res: Result<(), TokenError>)
        requires
            old(self).wf(),
        ensures
            final(self).wf(),
            res == outcome(old(self)@.burn_from(auth@, current_ledger, spender@, from@, amount)),
            final(self)@ == settled(
                old(self)@,
                old(self)@.burn_from(auth@, current_ledger, spender@, from@, amount),
            ),
            res is Ok ==> total_supply(final(self)@.balances) == total_supply(old(self)@.balances)
                - amount,
    {
        proof {
            lemma_spend(self@.allowances, from@, spender@, amount, current_ledger);
        }
        if !auth.proves(spender) {
            return Err(TokenError::Unauthorized);
        }
        if let Err(e) = self.balances.check_not_frozen(spender) {
            return Err(e);
        }
        if let Err(e) = self.allowances.check_spend(from, spender, amount, current_ledger) {
            return Err(e);
        }
        if let Err(e) = self.balances.check_spend(from, amount) {
            return Err(e);
        }
        let _ = self.allowances.spend_allowance(from, spender, amount, current_ledger);
        self.balances.spend_balance(from, amount)
    }

    /// How many decimals an amount has; `NotInitialized` before the ledger is
    /// initialized.
    pub fn decimals(&self) -> (res: Result<u32, TokenError>)
        ensures
            match self@.metadata {
                Some(m) => res == Ok::<u32, TokenError>(m.decimal),
                None => res == Err::<u32, TokenError>(TokenError::NotInitialized),
            },
    {
        self.metadata.read_decimal()
    }

    /// The name of the token; `NotInitialized` before the ledger is
    /// initialized.
    pub fn name(&self) -> (res: Result<String, TokenError>)
        ensures
            match self@.metadata {
                Some(m) => res is Ok && res->Ok_0@ == m.name,
                None => res == Err::<String, TokenError>(TokenError::NotInitialized),
            },
    {
        self.metadata.read_name()
    }

    /// The symbol of the token; `NotInitialized` before the ledger is
    /// initialized.
    pub fn symbol(&self) -> (res: Result<String, TokenError>)
        ensures
            match self@.metadata {
                Some(m) => res is Ok && res->Ok_0@ == m.symbol,
                None => res == Err::<String, TokenError>(TokenError::NotInitialized),
            },
    {
        self.metadata.read_symbol()
    }

    /// Decides whether the code of the ledger is to be replaced by the code
    /// with the hash `new_wasm_hash`, on the order of `caller`. Who the caller
    /// is comes before any proof of control: a caller who is not the
    /// administrator is refused with `Unauthorized` whatever `auth` holds.
    /// Refused with `NotInitialized` while there is no administrator, and with
    /// `Unauthorized` where the administrator has not proved control. The
    /// ledger itself does not change; the event is the order to replace the
    /// code, and there is none where the call is refused.
    pub fn upgrade(&self, auth: &AuthOracle, caller: &Identity, new_wasm_hash: [u8; 32]) -> (res:
        Result<UpgradedEvent, TokenError>)
        ensures
            outcome(res) == outcome(self@.upgrade(auth@, caller@)),
            self@.admin != Some(caller@) ==> res is Err,
            res matches Ok(event) ==> event.admin@ == caller@ && event.new_wasm_hash
                == new_wasm_hash,
    {
        if !self.admin.has_administrator() {
            return Err(TokenError::NotInitialized);
        }
        if !self.admin.is_administrator(caller) {
            return Err(TokenError::Unauthorized);
        }
        if !auth.proves(caller) {
            return Err(TokenError::Unauthorized);
        }
        Ok(UpgradedEvent { admin: caller.clone(), new_wasm_hash })
    }
}

} // verus!
