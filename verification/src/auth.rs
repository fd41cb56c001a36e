//! Who has proved control. The ledger does not verify signatures: with every
//! call it is told which identities have proved control of themselves, and it
//! asks for the one that the call needs.

use vstd::prelude::*;
use crate::identity::Identity;

verus! {

/// The identities that have proved control for one call.
#[derive(Debug)]
pub enum AuthOracle {
    /// No identity has proved control.
    Nobody,
    /// This identity has proved control, and no other.
    Only(Identity),
    /// Every identity has proved control.
    Everyone,
}

impl View for AuthOracle {
    type V = Set<Seq<char>>;

    /// The keys of the identities that have proved control.
    open spec fn view(&self) -> Set<Seq<char>> {
        match self {
            AuthOracle::Nobody => Set::empty(),
            AuthOracle::Only(id) => Set::empty().insert(id@),
            AuthOracle::Everyone => Set::full(),
        }
    }
}

impl AuthOracle {
    /// Whether `id` has proved control.
    pub fn proves(&self, id: &Identity) -> (proved: bool)
        ensures
            proved == self@.contains(id@),
    {
        match self {
            AuthOracle::Nobody => false,
            AuthOracle::Only(signer) => signer.same(id),
            AuthOracle::Everyone => true,
        }
    }
}

} // verus!
