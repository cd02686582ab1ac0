//! The accounts that an instruction is handed, as plain values.

use vstd::prelude::*;
use crate::address::Address;

verus! {

/// An identity whose signature on the instruction has been verified before
/// the instruction runs, with the balance it can spend.
#[derive(Clone, Copy, Debug, PartialEq, Eq)]
pub struct Signer {
    pub key: Address,
    pub lamports: u64,
}

/// A stored record: the address it lives at, the value the account itself
/// holds, and the record.
#[derive(Clone, Debug, PartialEq, Eq)]
pub struct Account<T> {
    pub key: Address,
    pub lamports: u64,
    pub data: T,
}

/// A holding of fungible tokens.
#[derive(Clone, Copy, Debug, PartialEq, Eq)]
pub struct TokenAccount {
    pub amount: u64,
}

} // verus!
