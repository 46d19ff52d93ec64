//! The company vault: one owner, one balance, and a lock-up that every
//! deposit starts anew.

use vstd::prelude::*;
use crate::arith::{checked_add, checked_sub};
use crate::errors::{refused, VaultError};
use crate::events::{DepositEvent, WithdrawEvent};
use crate::identity::{authorize, Identity};
use crate::transfer::Transfer;

verus! {

/// Seconds that must pass after the latest deposit before anything can be
/// withdrawn: 15 days.
pub const LOCKUP_DURATION: i64 = 1_296_000;

/// The record of a vault.
#[derive(Clone, Copy, Debug, PartialEq, Eq)]
pub struct Vault {
    pub owner: Identity,
    pub balance: u64,
    /// When the latest deposit was made, in seconds since the epoch.
    pub deposit_timestamp: i64,
}

/// The account at an owner's vault address.
#[derive(Clone, Copy, Debug, PartialEq, Eq)]
pub enum VaultAccount {
    Uninitialized,
    Active(Vault),
}

impl VaultAccount {
    /// The funds recorded in the account: none before it is created.
    pub open spec fn held(self) -> int {
        match self {
            VaultAccount::Uninitialized => 0,
            VaultAccount::Active(v) => v.balance as int,
        }
    }
}

/// The vault that a call signed by `signer` acts on: the account must exist
/// and `signer` must be its owner.
pub open spec fn opened(account: VaultAccount, signer: Identity) -> Result<Vault, VaultError> {
    match account {
        VaultAccount::Uninitialized => Err(VaultError::AccountNotInitialized),
        VaultAccount::Active(v) => if v.owner == signer {
            Ok(v)
        } else {
            Err(VaultError::Unauthorized)
        },
    }
}

/// Checks that the account exists and that `signer` owns it.
pub fn open(account: &VaultAccount, signer: &Identity) -> (r: Result<Vault, VaultError>)
    ensures
        r == opened(*account, *signer),
{
    match account {
        VaultAccount::Uninitialized => Err(VaultError::AccountNotInitialized),
        VaultAccount::Active(v) => {
            authorize(&v.owner, signer)?;
            Ok(*v)
        },
    }
}

/// Whether the lock-up of `vault` has passed at time `now`.
pub open spec fn unlocked(vault: Vault, now: i64) -> bool {
    now >= vault.deposit_timestamp + LOCKUP_DURATION
}

/// The accounts of an `initialize` call: the account to create and the
/// signer, who becomes its owner.
#[derive(Clone, Copy, Debug, PartialEq, Eq)]
pub struct Initialize {
    pub vault: VaultAccount,
    pub owner: Identity,
}

/// The accounts of a `deposit` call.
#[derive(Clone, Copy, Debug, PartialEq, Eq)]
pub struct Deposit {
    pub vault: VaultAccount,
    pub owner: Identity,
}

/// The accounts of a `withdraw` call.
#[derive(Clone, Copy, Debug, PartialEq, Eq)]
pub struct Withdraw {
    pub vault: VaultAccount,
    pub owner: Identity,
}

/// What a deposit asks of the host.
#[derive(Clone, Copy, Debug, PartialEq, Eq)]
pub struct DepositReceipt {
    pub transfer: Transfer,
    pub event: DepositEvent,
}

/// What a withdrawal asks of the host.
#[derive(Clone, Copy, Debug, PartialEq, Eq)]
pub struct WithdrawReceipt {
    pub transfer: Transfer,
    pub event: WithdrawEvent,
}

/// What `initialize` does: an account that does not exist yet becomes an
/// empty vault of the signer; an existing one is left alone.
pub open spec fn initialize_outcome(ctx: Initialize) -> Result<Initialize, VaultError> {
    match ctx.vault {
        VaultAccount::Uninitialized => Ok(
            Initialize {
                vault: VaultAccount::Active(
                    Vault { owner: ctx.owner, balance: 0, deposit_timestamp: 0 },
                ),
                owner: ctx.owner,
            },
        ),
        VaultAccount::Active(_) => Err(VaultError::AccountAlreadyInitialized),
    }
}

/// Creates the signer's vault, empty and with its clock at zero.
pub fn initialize(ctx: &mut Initialize) -> (r: Result<(), VaultError>)
    ensures
        initialize_outcome(*old(ctx)) == (match r {
            Ok(_) => Ok(*final(ctx)),
            Err(e) => Err(e),
        }),
        r is Err ==> *final(ctx) == *old(ctx),
{
    match ctx.vault {
        VaultAccount::Uninitialized => {
            ctx.vault = VaultAccount::Active(
                Vault { owner: ctx.owner, balance: 0, deposit_timestamp: 0 },
            );
            Ok(())
        },
        VaultAccount::Active(_) => Err(VaultError::AccountAlreadyInitialized),
    }
}

/// What `deposit` does. The balance grows by `amount`, and the lock-up starts
/// anew for the whole balance. The owner's wallet pays.
pub open spec fn deposit_outcome(ctx: Deposit, amount: u64, now: i64) -> Result<
    (Deposit, DepositReceipt),
    VaultError,
> {
    match opened(ctx.vault, ctx.owner) {
        Err(e) => Err(e),
        Ok(v) => if amount == 0 {
            Err(VaultError::ZeroDeposit)
        } else if v.balance + amount > u64::MAX {
            Err(VaultError::Overflow)
        } else {
            Ok(
                (
                    Deposit {
                        vault: VaultAccount::Active(
                            Vault {
                                owner: v.owner,
                                balance: (v.balance + amount) as u64,
                                deposit_timestamp: now,
                            },
                        ),
                        owner: ctx.owner,
                    },
                    DepositReceipt {
                        transfer: Transfer::inbound(ctx.owner, amount),
                        event: DepositEvent { depositor: ctx.owner, amount, timestamp: now },
                    },
                ),
            )
        },
    }
}

/// Deposits `amount` into the signer's vault at time `now`.
pub fn deposit(ctx: &mut Deposit, amount: u64, now: i64) -> (r: Result<DepositReceipt, VaultError>)
    ensures
        deposit_outcome(*old(ctx), amount, now) == (match r {
            Ok(receipt) => Ok((*final(ctx), receipt)),
            Err(e) => Err(e),
        }),
        r is Err ==> *final(ctx) == *old(ctx),
{
    let vault = open(&ctx.vault, &ctx.owner)?;
    if amount == 0 {
        return Err(VaultError::ZeroDeposit);
    }
    let balance = checked_add(vault.balance, amount)?;
    ctx.vault = VaultAccount::Active(
        Vault { owner: vault.owner, balance, deposit_timestamp: now },
    );
    Ok(
        DepositReceipt {
            transfer: Transfer::into_custody(ctx.owner, amount),
            event: DepositEvent { depositor: ctx.owner, amount, timestamp: now },
        },
    )
}

/// What `withdraw` does. Once the lock-up has passed, the balance shrinks by
/// `amount`, which goes to `recipient`, whoever that is.
pub open spec fn withdraw_outcome(
    ctx: Withdraw,
    amount: u64,
    recipient: Identity,
    now: i64,
) -> Result<(Withdraw, WithdrawReceipt), VaultError> {
    match opened(ctx.vault, ctx.owner) {
        Err(e) => Err(e),
        Ok(v) => if !unlocked(v, now) {
            Err(VaultError::LockupPeriodNotExpired)
        } else if amount == 0 {
            Err(VaultError::ZeroWithdrawal)
        } else if amount > v.balance {
            Err(VaultError::InsufficientFunds)
        } else {
            Ok(
                (
                    Withdraw {
                        vault: VaultAccount::Active(
                            Vault {
                                owner: v.owner,
                                balance: (v.balance - amount) as u64,
                                deposit_timestamp: v.deposit_timestamp,
                            },
                        ),
                        owner: ctx.owner,
                    },
                    WithdrawReceipt {
                        transfer: Transfer::outbound(recipient, amount),
                        event: WithdrawEvent { recipient, amount, timestamp: now },
                    },
                ),
            )
        },
    }
}

/// Withdraws `amount` from the signer's vault to `recipient` at time `now`.
pub fn withdraw(ctx: &mut Withdraw, amount: u64, recipient: Identity, now: i64) -> (r: Result<
    WithdrawReceipt,
    VaultError,
>)
    ensures
        withdraw_outcome(*old(ctx), amount, recipient, now) == (match r {
            Ok(receipt) => Ok((*final(ctx), receipt)),
            Err(e) => Err(e),
        }),
        r is Err ==> *final(ctx) == *old(ctx),
{
    let vault = open(&ctx.vault, &ctx.owner)?;
    let expired = match vault.deposit_timestamp.checked_add(LOCKUP_DURATION) {
        Some(unlock_time) => now >= unlock_time,
        None => false,
    };
    if !expired {
        return Err(VaultError::LockupPeriodNotExpired);
    }
    if amount == 0 {
        return Err(VaultError::ZeroWithdrawal);
    }
    if amount > vault.balance {
        return Err(VaultError::InsufficientFunds);
    }
    let balance = checked_sub(vault.balance, amount)?;
    ctx.vault = VaultAccount::Active(
        Vault { owner: vault.owner, balance, deposit_timestamp: vault.deposit_timestamp },
    );
    Ok(
        WithdrawReceipt {
            transfer: Transfer::out_of_custody(recipient, amount),
            event: WithdrawEvent { recipient, amount, timestamp: now },
        },
    )
}

/// The sum of a run of amounts.
pub open spec fn total(amounts: Seq<u64>) -> int
    decreases amounts.len(),
{
    if amounts.len() == 0 {
        0
    } else {
        total(amounts.drop_last()) + amounts.last()
    }
}

/// What a run of deposits does, the `i`-th of `amounts[i]` at time
/// `times[i]`: the accounts after the last of them, or the error of the first
/// that is refused.
pub open spec fn deposits_outcome(ctx: Deposit, amounts: Seq<u64>, times: Seq<i64>) -> Result<
    Deposit,
    VaultError,
>
    decreases amounts.len(),
{
    if amounts.len() == 0 {
        Ok(ctx)
    } else {
        match deposits_outcome(ctx, amounts.drop_last(), times.drop_last()) {
            Err(e) => Err(e),
            Ok(before) => match deposit_outcome(before, amounts.last(), times.last()) {
                Err(e) => Err(e),
                Ok((after, _)) => Ok(after),
            },
        }
    }
}

/// A run of deposits, none of them zero, into a vault that its owner signs
/// for adds up exactly: while the sum fits in 64 bits every deposit is
/// accepted and the balance has grown by the sum, so a new vault ends with
/// the sum as its balance. Where the sum does not fit, the run is refused
/// with `Overflow` and nothing wraps.
pub proof fn lemma_deposits_add_up(ctx: Deposit, amounts: Seq<u64>, times: Seq<i64>)
    requires
        opened(ctx.vault, ctx.owner) is Ok,
        amounts.len() == times.len(),
        forall|i: int| 0 <= i < amounts.len() ==> amounts[i] > 0,
    ensures
        0 <= total(amounts),
        ctx.vault.held() + total(amounts) <= u64::MAX ==> {
            &&& deposits_outcome(ctx, amounts, times) matches Ok(after)
            &&& after.vault.held() == ctx.vault.held() + total(amounts)
            &&& after.owner == ctx.owner
            &&& opened(after.vault, after.owner) is Ok
        },
        ctx.vault.held() + total(amounts) > u64::MAX ==> refused(
            deposits_outcome(ctx, amounts, times),
            VaultError::Overflow,
        ),
    decreases amounts.len(),
{
    if amounts.len() > 0 {
        lemma_deposits_add_up(ctx, amounts.drop_last(), times.drop_last());
    }
}

/// Before the lock-up has passed, 1 296 000 seconds after the latest
/// deposit, the owner's withdrawal is refused with `LockupPeriodNotExpired`
/// whatever the amount. From that instant on the lock-up refuses nothing:
/// an amount that is not zero and within the balance is paid out.
pub proof fn lemma_lockup_gates_withdrawal(
    ctx: Withdraw,
    amount: u64,
    recipient: Identity,
    now: i64,
)
    requires
        opened(ctx.vault, ctx.owner) is Ok,
    ensures
        ({
            let vault = opened(ctx.vault, ctx.owner)->Ok_0;
            let outcome = withdraw_outcome(ctx, amount, recipient, now);
            &&& now < vault.deposit_timestamp + 1_296_000 ==> refused(
                outcome,
                VaultError::LockupPeriodNotExpired,
            )
            &&& now >= vault.deposit_timestamp + 1_296_000 ==> !refused(
                outcome,
                VaultError::LockupPeriodNotExpired,
            )
            &&& now >= vault.deposit_timestamp + 1_296_000 && 0 < amount <= vault.balance
                ==> outcome is Ok
        }),
{
}

/// Once the lock-up has passed, the owner's withdrawal of more than the
/// balance is refused with `InsufficientFunds`; one of an amount that is not
/// zero and within the balance takes exactly that amount from the balance
/// and sends it to the recipient.
pub proof fn lemma_withdraw_takes_exactly(
    ctx: Withdraw,
    amount: u64,
    recipient: Identity,
    now: i64,
)
    requires
        opened(ctx.vault, ctx.owner) matches Ok(vault) && unlocked(vault, now),
    ensures
        amount > ctx.vault.held() ==> refused(
            withdraw_outcome(ctx, amount, recipient, now),
            VaultError::InsufficientFunds,
        ),
        0 < amount <= ctx.vault.held() ==> {
            &&& withdraw_outcome(ctx, amount, recipient, now) matches Ok((after, receipt))
            &&& after.vault.held() == ctx.vault.held() - amount
            &&& receipt.transfer == Transfer::outbound(recipient, amount)
        },
{
}

/// Only its owner moves a vault's funds, and the owner never changes: a
/// deposit or a withdrawal that succeeds was signed by the owner on record
/// and leaves that owner on record.
pub proof fn lemma_vault_answers_to_its_owner(
    account: VaultAccount,
    signer: Identity,
    amount: u64,
    recipient: Identity,
    now: i64,
)
    ensures
        deposit_outcome(Deposit { vault: account, owner: signer }, amount, now) matches Ok(
            (after, _),
        ) ==> {
            &&& account matches VaultAccount::Active(vault)
            &&& vault.owner == signer
            &&& opened(after.vault, signer) is Ok
        },
        withdraw_outcome(Withdraw { vault: account, owner: signer }, amount, recipient, now)
            matches Ok((after, _)) ==> {
            &&& account matches VaultAccount::Active(vault)
            &&& vault.owner == signer
            &&& opened(after.vault, signer) is Ok
        },
{
}

} // verus!
