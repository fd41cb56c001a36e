//! A fungible-token ledger with a single administrator: balances that never go
//! negative, accounts that can be frozen, allowances that expire with the
//! ledger sequence, and an upgrade that only the administrator may order.
//!
//! The ledger is an explicit value. Whoever drives it says, with every call,
//! which identities have proved control and what the ledger sequence is; the
//! ledger answers with its next state, or with the error that stopped the call
//! and its state untouched.

pub mod identity;
pub mod error;
pub mod table;
pub mod balance;
pub mod allowance;
pub mod auth;
pub mod admin;
pub mod metadata;
pub mod events;
pub mod token;
pub mod upgradable;
pub mod laws;
