//! What an operation asks the token ledger to do.

use vstd::prelude::*;
use crate::identity::Identity;

verus! {

/// One side of a transfer.
#[derive(Clone, Copy, Debug, PartialEq, Eq)]
pub enum Account {
    /// The pool's own escrow account.
    Escrow,
    /// The token balance of a party.
    Wallet(Identity),
}

/// A movement of tokens that the host has to make, whole or not at all, for
/// the operation that returned it to take effect.
#[derive(Clone, Copy, Debug, PartialEq, Eq)]
pub struct Transfer {
    pub source: Account,
    pub destination: Account,
    pub amount: u64,
}

} // verus!
