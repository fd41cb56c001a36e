//! The ways in which a call on the ledger can fail.

use vstd::prelude::*;

verus! {

/// Why a call was refused. A refused call leaves the ledger as it was.
#[derive(Debug, Clone, Copy, PartialEq, Eq, Structural)]
pub enum TokenError {
    /// The administrator has already been set.
    AlreadyInitialized,
    /// The administrator or the metadata was read before it was set.
    NotInitialized,
    /// The identity that had to approve the call did not prove control, or the
    /// caller of an upgrade is not the administrator.
    Unauthorized,
    /// A frozen account was debited or tried to act for another.
    AccountFrozen,
    /// The amount is negative.
    InvalidAmount,
    /// The account holds less than the amount to debit.
    InsufficientBalance,
    /// The allowance, as far as it has not expired, is less than the amount to
    /// spend.
    InsufficientAllowance,
    /// The credit would take a balance or a counter out of its range.
    Overflow,
}

impl TokenError {
    /// The text that `message` gives for this error.
    pub open spec fn text(self) -> Seq<char> {
        match self {
            TokenError::AlreadyInitialized => "already initialized"@,
            TokenError::NotInitialized => "not initialized"@,
            TokenError::Unauthorized => "unauthorized"@,
            TokenError::AccountFrozen => "account is frozen"@,
            TokenError::InvalidAmount => "negative amount is not allowed"@,
            TokenError::InsufficientBalance => "insufficient balance"@,
            TokenError::InsufficientAllowance => "insufficient allowance"@,
            TokenError::Overflow => "overflow"@,
        }
    }

    /// A short description of the error, in lower case and without a full stop.
    pub fn message(&self) -> (msg: &'static str)
        ensures
            msg@ == self.text(),
    {
        match self {
            TokenError::AlreadyInitialized => "already initialized",
            TokenError::NotInitialized => "not initialized",
            TokenError::Unauthorized => "unauthorized",
            TokenError::AccountFrozen => "account is frozen",
            TokenError::InvalidAmount => "negative amount is not allowed",
            TokenError::InsufficientBalance => "insufficient balance",
            TokenError::InsufficientAllowance => "insufficient allowance",
            TokenError::Overflow => "overflow",
        }
    }
}

/// What a caller is told of a step: that it was taken, or why it was not.
pub open spec fn outcome<S>(step: Result<S, TokenError>) -> Result<(), TokenError> {
    match step {
        Ok(_) => Ok(()),
        Err(e) => Err(e),
    }
}

/// The state after a step from `before`: the state that the step leads to, or
/// `before` itself where the step was refused.
pub open spec fn settled<S>(before: S, step: Result<S, TokenError>) -> S {
    match step {
        Ok(after) => after,
        Err(_) => before,
    }
}

} // verus!
