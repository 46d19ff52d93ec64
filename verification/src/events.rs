//! Events that successful operations emit.

use vstd::prelude::*;
use crate::identity::Identity;

verus! {

/// Funds were deposited into a vault.
#[derive(Clone, Copy, Debug, PartialEq, Eq)]
pub struct DepositEvent {
    pub depositor: Identity,
    pub amount: u64,
    pub timestamp: i64,
}

/// Funds were withdrawn from a vault.
#[derive(Clone, Copy, Debug, PartialEq, Eq)]
pub struct WithdrawEvent {
    pub recipient: Identity,
    pub amount: u64,
    pub timestamp: i64,
}

/// A submission was paid. `amount` is what the hunter received, after the
/// platform's fee.
#[derive(Debug, PartialEq, Eq)]
pub struct PaymentProcessed {
    pub bounty_id: String,
    pub submission_id: String,
    pub hunter_wallet: Identity,
    pub amount: u64,
    pub platform_fee: u64,
}

/// A bounty was closed and what remained went back to its owner.
#[derive(Debug, PartialEq, Eq)]
pub struct BountyClosed {
    pub bounty_id: String,
    pub remaining_amount: u64,
}

} // verus!
