//! Overflow-checked arithmetic on balances, and the split of a payout into
//! the platform's fee and the hunter's share.

use vstd::prelude::*;
use crate::errors::VaultError;

verus! {

/// Platform fee in basis points: 200 is 2%.
pub const DEFAULT_PLATFORM_FEE: u16 = 200;

/// Basis points in a whole.
pub const BASIS_POINTS: u64 = 10_000;

/// `a + b`, or `Overflow` where the sum does not fit in 64 bits.
pub open spec fn added(a: u64, b: u64) -> Result<u64, VaultError> {
    if a + b <= u64::MAX {
        Ok((a + b) as u64)
    } else {
        Err(VaultError::Overflow)
    }
}

/// `a - b`, or `Underflow` where `b` is the larger.
pub open spec fn subtracted(a: u64, b: u64) -> Result<u64, VaultError> {
    if b <= a {
        Ok((a - b) as u64)
    } else {
        Err(VaultError::Underflow)
    }
}

/// `a * b`, or `Overflow` where the product does not fit in 64 bits.
pub open spec fn multiplied(a: u64, b: u64) -> Result<u64, VaultError> {
    if a * b <= u64::MAX {
        Ok((a * b) as u64)
    } else {
        Err(VaultError::Overflow)
    }
}

/// `a / b` rounded down, or `Overflow` where `b` is zero.
pub open spec fn divided(a: u64, b: u64) -> Result<u64, VaultError> {
    if b != 0 {
        Ok((a / b) as u64)
    } else {
        Err(VaultError::Overflow)
    }
}

/// Adds two balances, refusing a sum that would wrap.
pub fn checked_add(a: u64, b: u64) -> (r: Result<u64, VaultError>)
    ensures
        r == added(a, b),
{
    match a.checked_add(b) {
        Some(v) => Ok(v),
        None => Err(VaultError::Overflow),
    }
}

/// Takes `b` from `a`, refusing a difference below zero.
pub fn checked_sub(a: u64, b: u64) -> (r: Result<u64, VaultError>)
    ensures
        r == subtracted(a, b),
{
    match a.checked_sub(b) {
        Some(v) => Ok(v),
        None => Err(VaultError::Underflow),
    }
}

/// Multiplies two amounts, refusing a product that would wrap.
pub fn checked_mul(a: u64, b: u64) -> (r: Result<u64, VaultError>)
    ensures
        r == multiplied(a, b),
{
    match a.checked_mul(b) {
        Some(v) => Ok(v),
        None => Err(VaultError::Overflow),
    }
}

/// Divides `a` by `b`, rounding down and refusing a zero divisor.
pub fn checked_div(a: u64, b: u64) -> (r: Result<u64, VaultError>)
    ensures
        r == divided(a, b),
{
    match a.checked_div(b) {
        Some(v) => Ok(v),
        None => Err(VaultError::Overflow),
    }
}

/// The platform's fee on a payout of `amount`: 2%, rounded down.
pub open spec fn fee_of(amount: int) -> int {
    amount * (DEFAULT_PLATFORM_FEE as int) / (BASIS_POINTS as int)
}

/// What is left of a payout of `amount` for the hunter.
pub open spec fn share_of(amount: int) -> int {
    amount - fee_of(amount)
}

/// A payout divided between the platform and the hunter.
#[derive(Clone, Copy, Debug, PartialEq, Eq)]
pub struct FeeSplit {
    pub platform_fee: u64,
    pub hunter_amount: u64,
}

/// The split of `amount`, or `Overflow` where `amount` times the fee rate
/// does not fit in 64 bits.
pub open spec fn fee_split(amount: u64) -> Result<FeeSplit, VaultError> {
    if amount * DEFAULT_PLATFORM_FEE <= u64::MAX {
        Ok(
            FeeSplit {
                platform_fee: fee_of(amount as int) as u64,
                hunter_amount: share_of(amount as int) as u64,
            },
        )
    } else {
        Err(VaultError::Overflow)
    }
}

/// Divides a payout between the platform and the hunter.
pub fn split_fee(amount: u64) -> (r: Result<FeeSplit, VaultError>)
    ensures
        r == fee_split(amount),
{
    let scaled = checked_mul(amount, DEFAULT_PLATFORM_FEE as u64)?;
    let platform_fee = checked_div(scaled, BASIS_POINTS)?;
    let hunter_amount = checked_sub(amount, platform_fee)?;
    Ok(FeeSplit { platform_fee, hunter_amount })
}

/// The fee and the hunter's share add up to the payout, for every amount:
/// the split neither creates nor destroys value. The fee is never more than
/// the payout.
pub proof fn lemma_fee_split_exact(amount: u64)
    ensures
        fee_of(amount as int) + share_of(amount as int) == amount,
        0 <= fee_of(amount as int) <= amount,
        0 <= share_of(amount as int) <= amount,
        fee_split(amount) matches Ok(s) ==> s.platform_fee + s.hunter_amount == amount,
{
}

} // verus!
