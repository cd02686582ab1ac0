//! The typed failures of the instructions.

use vstd::prelude::*;

verus! {

/// Why an instruction was rejected.
#[derive(Clone, Copy, Debug, PartialEq, Eq, Structural)]
pub enum ErrorCode {
    /// A debit exceeds the balance it is taken from.
    InsufficientFunds,
    /// A checked addition would exceed `u64::MAX`.
    Overflow,
    /// A checked subtraction would go below zero.
    Underflow,
    /// The signer is not the owner of the ledger account.
    NotAuthorized,
    /// The signer is not the admin of the trader registry.
    NotAdmin,
    /// The trader registry already holds its maximum number of entries.
    TraderListFull,
    /// The trader to remove is not in the registry.
    TraderNotFound,
    /// The record to create already exists.
    AlreadyInitialized,
    /// The follower record for this user and trader already exists.
    AlreadyFollowing,
}

} // verus!
