//! The admin registry: the one identity that may mint, freeze, hand the role
//! on and order an upgrade. It is unset until the ledger is initialized, and
//! never unset again.

use vstd::prelude::*;
use crate::error::TokenError;
use crate::identity::Identity;

verus! {

/// The admin registry.
pub struct AdminRegistry {
    admin: Option<Identity>,
}

impl View for AdminRegistry {
    type V = Option<Seq<char>>;

    /// The key of the administrator, once there is one.
    closed spec fn view(&self) -> Option<Seq<char>> {
        match self.admin {
            Some(id) => Some(id@),
            None => None,
        }
    }
}

/// Reading the administrator of a registry: refused while there is none.
pub open spec fn administrator(admin: Option<Seq<char>>) -> Result<Seq<char>, TokenError> {
    match admin {
        Some(id) => Ok(id),
        None => Err(TokenError::NotInitialized),
    }
}

/// Setting the first administrator of a registry: refused where there is one.
pub open spec fn first_administrator(admin: Option<Seq<char>>, id: Seq<char>) -> Result<
    Option<Seq<char>>,
    TokenError,
> {
    match admin {
        Some(_) => Err(TokenError::AlreadyInitialized),
        None => Ok(Some(id)),
    }
}

impl AdminRegistry {
    /// A registry without an administrator.
    pub fn new() -> (registry: AdminRegistry)
        ensures
            registry@ is None,
    {
        AdminRegistry { admin: None }
    }

    /// Whether there is an administrator.
    pub fn has_administrator(&self) -> (has: bool)
        ensures
            has == self@ is Some,
    {
        self.admin.is_some()
    }

    /// The administrator; `NotInitialized` while there is none.
    pub fn read_administrator(&self) -> (res: Result<Identity, TokenError>)
        ensures
            match administrator(self@) {
                Ok(id) => res is Ok && res->Ok_0@ == id,
                Err(e) => res == Err::<Identity, TokenError>(e),
            },
    {
        match &self.admin {
            Some(id) => Ok(id.clone()),
            None => Err(TokenError::NotInitialized),
        }
    }

    /// Whether `id` is the administrator. While there is none, nobody is.
    pub fn is_administrator(&self, id: &Identity) -> (is: bool)
        ensures
            is == (self@ == Some(id@)),
    {
        match &self.admin {
            Some(admin) => admin.same(id),
            None => false,
        }
    }

    /// Makes `id` the administrator, whoever was before. The registry asks
    /// nobody: whoever calls this answers for the right to do so.
    pub fn write_administrator(&mut self, id: Identity)
        ensures
            final(self)@ == Some(id@),
    {
        self.admin = Some(id);
    }

    /// Makes `id` the first administrator; `AlreadyInitialized` where there is
    /// one, who then stays.
    pub fn initialize(&mut self, id: Identity) -> (res: Result<(), TokenError>)
        ensures
            res == crate::error::outcome(first_administrator(old(self)@, id@)),
            final(self)@ == crate::error::settled(old(self)@, first_administrator(old(self)@, id@)),
    {
        if self.admin.is_some() {
            return Err(TokenError::AlreadyInitialized);
        }
        self.admin = Some(id);
        Ok(())
    }
}

} // verus!
