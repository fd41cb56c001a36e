//! What the ledger reports of a privileged change, for whoever keeps a record
//! of them.

use vstd::prelude::*;
use crate::identity::Identity;

verus! {

/// The code of the ledger is to be replaced by the code with this hash.
#[derive(Debug)]
pub struct UpgradedEvent {
    /// The administrator who ordered the upgrade.
    pub admin: Identity,
    /// The hash of the new code.
    pub new_wasm_hash: [u8; 32],
}

/// The role of administrator went from one identity to another.
#[derive(Debug)]
pub struct AdminChangedEvent {
    /// The administrator until now.
    pub old_admin: Identity,
    /// The administrator from now on.
    pub new_admin: Identity,
}

} // verus!
