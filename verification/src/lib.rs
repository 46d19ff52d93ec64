//! Custodial fund accounting: a time-locked company vault and a bounty escrow
//! that pays hunters with a platform fee taken from each payout.

pub mod arith;
pub mod errors;
pub mod escrow;
pub mod events;
pub mod identity;
pub mod transfer;
pub mod vault;
