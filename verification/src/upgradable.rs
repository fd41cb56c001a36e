//! A small contract that can be upgraded: one administrator, who alone may
//! order an upgrade or hand the role on, and a counter that shows that state
//! outlives an upgrade.

use vstd::prelude::*;
use crate::auth::AuthOracle;
use crate::error::{outcome, settled, TokenError};
use crate::events::{AdminChangedEvent, UpgradedEvent};
use crate::identity::Identity;

verus! {

/// The entries of the contract's state.
#[derive(Debug, Clone, Copy, PartialEq, Eq, Structural)]
pub enum DataKey {
    /// The administrator, who alone may order an upgrade.
    Admin,
    /// The counter.
    Counter,
}

/// The model of the contract: its two entries, each unset until first written.
pub struct UpgradableState {
    /// The key of the administrator.
    pub admin: Option<Seq<char>>,
    /// The counter.
    pub counter: Option<u32>,
}

impl UpgradableState {
    /// Whether the entry `key` is set.
    pub open spec fn has(self, key: DataKey) -> bool {
        match key {
            DataKey::Admin => self.admin is Some,
            DataKey::Counter => self.counter is Some,
        }
    }

    /// The counter, which stands at 0 until it is first incremented.
    pub open spec fn count(self) -> u32 {
        match self.counter {
            Some(count) => count,
            None => 0,
        }
    }

    /// Sets the first administrator, who must have proved control.
    pub open spec fn init(self, auth: Set<Seq<char>>, admin: Seq<char>) -> Result<
        UpgradableState,
        TokenError,
    > {
        if self.admin is Some {
            Err(TokenError::AlreadyInitialized)
        } else if !auth.contains(admin) {
            Err(TokenError::Unauthorized)
        } else {
            Ok(UpgradableState { admin: Some(admin), ..self })
        }
    }

    /// What every call of the administrator's asks first. Who the caller is
    /// comes before all else: one who is not the administrator is refused,
    /// proof of control or none.
    pub open spec fn admin_consent(self, auth: Set<Seq<char>>, caller: Seq<char>) -> Result<
        UpgradableState,
        TokenError,
    > {
        match self.admin {
            None => Err(TokenError::NotInitialized),
            Some(admin) => if caller != admin {
                Err(TokenError::Unauthorized)
            } else if !auth.contains(caller) {
                Err(TokenError::Unauthorized)
            } else {
                Ok(self)
            },
        }
    }

    /// The administrator `current_admin` hands the role to `new_admin`.
    pub open spec fn set_admin(
        self,
        auth: Set<Seq<char>>,
        current_admin: Seq<char>,
        new_admin: Seq<char>,
    ) -> Result<UpgradableState, TokenError> {
        match self.admin_consent(auth, current_admin) {
            Err(e) => Err(e),
            Ok(_) => Ok(UpgradableState { admin: Some(new_admin), ..self }),
        }
    }

    /// Adds one to the counter; refused at the largest count.
    pub open spec fn increment(self) -> Result<UpgradableState, TokenError> {
        if self.count() == u32::MAX {
            Err(TokenError::Overflow)
        } else {
            Ok(UpgradableState { counter: Some((self.count() + 1) as u32), ..self })
        }
    }
}

/// The contract.
pub struct UpgradableContract {
    admin: Option<Identity>,
    counter: Option<u32>,
}

impl View for UpgradableContract {
    type V = UpgradableState;

    closed spec fn view(&self) -> UpgradableState {
        UpgradableState {
            admin: match self.admin {
                Some(id) => Some(id@),
                None => None,
            },
            counter: self.counter,
        }
    }
}

impl UpgradableContract {
    /// A contract with neither entry set.
    pub fn new() -> (contract: UpgradableContract)
        ensures
            contract@ == (UpgradableState { admin: None, counter: None }),
    {
        UpgradableContract { admin: None, counter: None }
    }

    /// The contract with these two entries.
    pub fn from_parts(admin: Option<Identity>, counter: Option<u32>) -> (contract:
        UpgradableContract)
        ensures
            contract@.counter == counter,
            match admin {
                Some(id) => contract@.admin == Some(id@),
                None => contract@.admin is None,
            },
    {
        UpgradableContract { admin, counter }
    }

    /// Whether the entry `key` is set.
    pub fn has(&self, key: DataKey) -> (has: bool)
        ensures
            has == self@.has(key),
    {
        match key {
            DataKey::Admin => self.admin.is_some(),
            DataKey::Counter => self.counter.is_some(),
        }
    }

    fn admin_consent(&self, auth: &AuthOracle, caller: &Identity) -> (res: Result<(), TokenError>)
        ensures
            res == outcome(self@.admin_consent(auth@, caller@)),
    {
        match &self.admin {
            None => Err(TokenError::NotInitialized),
            Some(admin) => if !admin.same(caller) {
                Err(TokenError::Unauthorized)
            } else if !auth.proves(caller) {
                Err(TokenError::Unauthorized)
            } else {
                Ok(())
            },
        }
    }

    /// Sets the first administrator. A contract that has one is refused with
    /// `AlreadyInitialized`; then `admin` must have proved control, or the
    /// call is refused with `Unauthorized`.
    pub fn init(&mut self, auth: &AuthOracle, admin: Identity) -> (res: Result<(), TokenError>)
        ensures
            res == outcome(old(self)@.init(auth@, admin@)),
            final(self)@ == settled(old(self)@, old(self)@.init(auth@, admin@)),
    {
        if self.admin.is_some() {
            return Err(TokenError::AlreadyInitialized);
        }
        if !auth.proves(&admin) {
            return Err(TokenError::Unauthorized);
        }
        self.admin = Some(admin);
        Ok(())
    }

    /// Decides whether the code of the contract is to be replaced by the code
    /// with the hash `new_wasm_hash`, on the order of `caller`. Refused with
    /// `NotInitialized` while there is no administrator; with `Unauthorized`
    /// for a caller who is not the administrator, whatever `auth` holds; and
    /// with `Unauthorized` where the administrator has not proved control.
    /// The contract itself does not change; the event is the order to replace
    /// the code.
    pub fn upgrade(&self, auth: &AuthOracle, caller: &Identity, new_wasm_hash: [u8; 32]) -> (res:
        Result<UpgradedEvent, TokenError>)
        ensures
            outcome(res) == outcome(self@.admin_consent(auth@, caller@)),
            self@.admin != Some(caller@) ==> res is Err,
            res matches Ok(event) ==> event.admin@ == caller@ && event.new_wasm_hash
                == new_wasm_hash,
    {
        match self.admin_consent(auth, caller) {
            Err(e) => Err(e),
            Ok(()) => Ok(UpgradedEvent { admin: caller.clone(), new_wasm_hash }),
        }
    }

    /// Hands the role of administrator from `current_admin` to `new_admin`
    /// and reports the change. Refused as an upgrade ordered by
    /// `current_admin` would be.
    pub fn set_admin(&mut self, auth: &AuthOracle, current_admin: Identity, new_admin: Identity) -> (res:
        Result<AdminChangedEvent, TokenError>)
        ensures
            outcome(res) == outcome(old(self)@.set_admin(auth@, current_admin@, new_admin@)),
            final(self)@ == settled(
                old(self)@,
                old(self)@.set_admin(auth@, current_admin@, new_admin@),
            ),
            res matches Ok(event) ==> event.old_admin@ == current_admin@ && event.new_admin@
                == new_admin@,
    {
        match self.admin_consent(auth, &current_admin) {
            Err(e) => Err(e),
            Ok(()) => {
                self.admin = Some(new_admin.clone());
                Ok(AdminChangedEvent { old_admin: current_admin, new_admin })
            },
        }
    }

    /// The administrator; `NotInitialized` while there is none.
    pub fn get_admin(&self) -> (res: Result<Identity, TokenError>)
        ensures
            match self@.admin {
                Some(admin) => res is Ok && res->Ok_0@ == admin,
                None => res == Err::<Identity, TokenError>(TokenError::NotInitialized),
            },
    {
        match &self.admin {
            Some(admin) => Ok(admin.clone()),
            None => Err(TokenError::NotInitialized),
        }
    }

    /// Adds one to the counter and returns the new count. At the largest
    /// count it is refused with `Overflow`, and the counter stays.
    pub fn increment(&mut self) -> (res: Result<u32, TokenError>)
        ensures
            outcome(res) == outcome(old(self)@.increment()),
            final(self)@ == settled(old(self)@, old(self)@.increment()),
            res matches Ok(count) ==> count == old(self)@.count() + 1 && final(self)@.count()
                == count,
    {
        let count: u32 = match self.counter {
            Some(count) => count,
            None => 0,
        };
        if count == u32::MAX {
            return Err(TokenError::Overflow);
        }
        self.counter = Some(count + 1);
        Ok(count + 1)
    }

    /// The counter: 0 until it is first incremented.
    pub fn get_count(&self) -> (count: u32)
        ensures
            count == self@.count(),
    {
        match self.counter {
            Some(count) => count,
            None => 0,
        }
    }

    /// The version of this contract: 1.
    pub fn version() -> (version: u32)
        ensures
            version == 1,
    {
        1
    }
}

} // verus!
