//! The bounty escrow: an owner's funds, paid out to hunters one submission
//! at a time with the platform's fee taken from each payout, and returned to
//! the owner when the bounty is closed.

use vstd::prelude::*;
use crate::arith::{checked_add, checked_sub, fee_of, fee_split, lemma_fee_split_exact, split_fee};
use crate::errors::{refused, VaultError};
use crate::events::{BountyClosed, PaymentProcessed};
use crate::identity::{authorize, Identity};
use crate::transfer::{Party, Transfer};

verus! {

/// The least amount an escrow can be opened with.
pub const MIN_ESCROW_AMOUNT: u64 = 100_000_000;

/// The record of an escrow.
#[derive(Clone, Copy, Debug, PartialEq, Eq)]
pub struct BountyEscrow {
    pub owner: Identity,
    pub escrow_amount: u64,
}

/// The account at an owner's escrow address. Once closed it stays closed.
#[derive(Clone, Copy, Debug, PartialEq, Eq)]
pub enum EscrowAccount {
    Uninitialized,
    Active(BountyEscrow),
    Closed,
}

impl EscrowAccount {
    /// The funds recorded in the account: none before it is created and none
    /// after it is closed.
    pub open spec fn held(self) -> int {
        match self {
            EscrowAccount::Active(e) => e.escrow_amount as int,
            _ => 0,
        }
    }
}

/// The escrow that a call signed by `signer` acts on: the account must be
/// active and `signer` must be its owner.
pub open spec fn opened(account: EscrowAccount, signer: Identity) -> Result<
    BountyEscrow,
    VaultError,
> {
    match account {
        EscrowAccount::Uninitialized => Err(VaultError::AccountNotInitialized),
        EscrowAccount::Closed => Err(VaultError::AccountClosed),
        EscrowAccount::Active(e) => if e.owner == signer {
            Ok(e)
        } else {
            Err(VaultError::Unauthorized)
        },
    }
}

/// Checks that the account is active and that `signer` owns it.
pub fn open(account: &EscrowAccount, signer: &Identity) -> (r: Result<BountyEscrow, VaultError>)
    ensures
        r == opened(*account, *signer),
{
    match account {
        EscrowAccount::Uninitialized => Err(VaultError::AccountNotInitialized),
        EscrowAccount::Closed => Err(VaultError::AccountClosed),
        EscrowAccount::Active(e) => {
            authorize(&e.owner, signer)?;
            Ok(*e)
        },
    }
}

/// The accounts of an `initialize` call: the account to create and the
/// signer, who funds it and becomes its owner.
#[derive(Clone, Copy, Debug, PartialEq, Eq)]
pub struct Initialize {
    pub vault: EscrowAccount,
    pub owner: Identity,
}

/// The accounts of a `deposit` call.
#[derive(Clone, Copy, Debug, PartialEq, Eq)]
pub struct Deposit {
    pub vault: EscrowAccount,
    pub owner: Identity,
}

/// The accounts of a `process_payment` call.
#[derive(Clone, Copy, Debug, PartialEq, Eq)]
pub struct ProcessPayment {
    pub vault: EscrowAccount,
    pub owner: Identity,
    pub hunter_wallet: Identity,
    pub platform_wallet: Identity,
}

/// The accounts of a `close_bounty` call.
#[derive(Clone, Copy, Debug, PartialEq, Eq)]
pub struct CloseBounty {
    pub vault: EscrowAccount,
    pub owner: Identity,
}

/// What a payment asks of the host: two transfers, both of which must go
/// through, and an event.
#[derive(Debug, PartialEq, Eq)]
pub struct PaymentReceipt {
    pub payout: Transfer,
    pub fee: Transfer,
    pub event: PaymentProcessed,
}

/// What closing a bounty asks of the host.
#[derive(Debug, PartialEq, Eq)]
pub struct ClosureReceipt {
    pub refund: Transfer,
    pub event: BountyClosed,
}

/// What `initialize` does: an account that does not exist yet becomes the
/// signer's escrow, holding `escrow_amount` paid from the signer's wallet.
pub open spec fn initialize_outcome(ctx: Initialize, escrow_amount: u64) -> Result<
    (Initialize, Transfer),
    VaultError,
> {
    match ctx.vault {
        EscrowAccount::Active(_) => Err(VaultError::AccountAlreadyInitialized),
        EscrowAccount::Closed => Err(VaultError::AccountClosed),
        EscrowAccount::Uninitialized => if escrow_amount < MIN_ESCROW_AMOUNT {
            Err(VaultError::InvalidEscrowAmount)
        } else {
            Ok(
                (
                    Initialize {
                        vault: EscrowAccount::Active(
                            BountyEscrow { owner: ctx.owner, escrow_amount },
                        ),
                        owner: ctx.owner,
                    },
                    Transfer::inbound(ctx.owner, escrow_amount),
                ),
            )
        },
    }
}

/// Opens the signer's escrow with `escrow_amount`.
pub fn initialize(ctx: &mut Initialize, escrow_amount: u64) -> (r: Result<Transfer, VaultError>)
    ensures
        initialize_outcome(*old(ctx), escrow_amount) == (match r {
            Ok(transfer) => Ok((*final(ctx), transfer)),
            Err(e) => Err(e),
        }),
        r is Err ==> *final(ctx) == *old(ctx),
{
    match ctx.vault {
        EscrowAccount::Active(_) => {
            return Err(VaultError::AccountAlreadyInitialized);
        },
        EscrowAccount::Closed => {
            return Err(VaultError::AccountClosed);
        },
        EscrowAccount::Uninitialized => {},
    }
    if escrow_amount < MIN_ESCROW_AMOUNT {
        return Err(VaultError::InvalidEscrowAmount);
    }
    ctx.vault = EscrowAccount::Active(BountyEscrow { owner: ctx.owner, escrow_amount });
    Ok(Transfer::into_custody(ctx.owner, escrow_amount))
}

/// What `deposit` does: the escrow grows by `amount`, paid from the owner's
/// wallet.
pub open spec fn deposit_outcome(ctx: Deposit, amount: u64) -> Result<
    (Deposit, Transfer),
    VaultError,
> {
    match opened(ctx.vault, ctx.owner) {
        Err(e) => Err(e),
        Ok(escrow) => if escrow.escrow_amount + amount > u64::MAX {
            Err(VaultError::Overflow)
        } else {
            Ok(
                (
                    Deposit {
                        vault: EscrowAccount::Active(
                            BountyEscrow {
                                owner: escrow.owner,
                                escrow_amount: (escrow.escrow_amount + amount) as u64,
                            },
                        ),
                        owner: ctx.owner,
                    },
                    Transfer::inbound(ctx.owner, amount),
                ),
            )
        },
    }
}

/// Adds `amount` to the signer's escrow.
pub fn deposit(ctx: &mut Deposit, amount: u64) -> (r: Result<Transfer, VaultError>)
    ensures
        deposit_outcome(*old(ctx), amount) == (match r {
            Ok(transfer) => Ok((*final(ctx), transfer)),
            Err(e) => Err(e),
        }),
        r is Err ==> *final(ctx) == *old(ctx),
{
    let escrow = open(&ctx.vault, &ctx.owner)?;
    let escrow_amount = checked_add(escrow.escrow_amount, amount)?;
    ctx.vault = EscrowAccount::Active(BountyEscrow { owner: escrow.owner, escrow_amount });
    Ok(Transfer::into_custody(ctx.owner, amount))
}

/// The amount of a payment: the custom amount where one is given, else the
/// bounty's reward per submission.
pub open spec fn payment_amount(custom_amount: Option<u64>, reward_per_submission: u64) -> u64 {
    match custom_amount {
        Some(amount) => amount,
        None => reward_per_submission,
    }
}

/// What `process_payment` does. The escrow shrinks by the payment's amount,
/// of which the platform's wallet gets the fee and the hunter's wallet the
/// rest.
///
/// The two counters are the caller's word: the escrow keeps no record of
/// which submissions were paid.
pub open spec fn process_payment_outcome(
    ctx: ProcessPayment,
    bounty_id: String,
    submission_id: String,
    custom_amount: Option<u64>,
    reward_per_submission: u64,
    max_submissions: u32,
    current_paid_submissions: u32,
) -> Result<(ProcessPayment, PaymentReceipt), VaultError> {
    let amount = payment_amount(custom_amount, reward_per_submission);
    match opened(ctx.vault, ctx.owner) {
        Err(e) => Err(e),
        Ok(escrow) => if current_paid_submissions >= max_submissions {
            Err(VaultError::MaxSubmissionsReached)
        } else if amount > escrow.escrow_amount {
            Err(VaultError::InsufficientFunds)
        } else {
            match fee_split(amount) {
                Err(e) => Err(e),
                Ok(split) => Ok(
                    (
                        ProcessPayment {
                            vault: EscrowAccount::Active(
                                BountyEscrow {
                                    owner: escrow.owner,
                                    escrow_amount: (escrow.escrow_amount - amount) as u64,
                                },
                            ),
                            owner: ctx.owner,
                            hunter_wallet: ctx.hunter_wallet,
                            platform_wallet: ctx.platform_wallet,
                        },
                        PaymentReceipt {
                            payout: Transfer::outbound(ctx.hunter_wallet, split.hunter_amount),
                            fee: Transfer::outbound(ctx.platform_wallet, split.platform_fee),
                            event: PaymentProcessed {
                                bounty_id,
                                submission_id,
                                hunter_wallet: ctx.hunter_wallet,
                                amount: split.hunter_amount,
                                platform_fee: split.platform_fee,
                            },
                        },
                    ),
                ),
            }
        },
    }
}

/// Pays an approved submission out of the signer's escrow.
pub fn process_payment(
    ctx: &mut ProcessPayment,
    bounty_id: String,
    submission_id: String,
    custom_amount: Option<u64>,
    reward_per_submission: u64,
    max_submissions: u32,
    current_paid_submissions: u32,
) -> (r: Result<PaymentReceipt, VaultError>)
    ensures
        process_payment_outcome(
            *old(ctx),
            bounty_id,
            submission_id,
            custom_amount,
            reward_per_submission,
            max_submissions,
            current_paid_submissions,
        ) == (match r {
            Ok(receipt) => Ok((*final(ctx), receipt)),
            Err(e) => Err(e),
        }),
        r is Err ==> *final(ctx) == *old(ctx),
{
    let escrow = open(&ctx.vault, &ctx.owner)?;
    if current_paid_submissions >= max_submissions {
        return Err(VaultError::MaxSubmissionsReached);
    }
    let amount = match custom_amount {
        Some(amount) => amount,
        None => reward_per_submission,
    };
    if amount > escrow.escrow_amount {
        return Err(VaultError::InsufficientFunds);
    }
    let split = split_fee(amount)?;
    let escrow_amount = checked_sub(escrow.escrow_amount, amount)?;
    ctx.vault = EscrowAccount::Active(BountyEscrow { owner: escrow.owner, escrow_amount });
    Ok(
        PaymentReceipt {
            payout: Transfer::out_of_custody(ctx.hunter_wallet, split.hunter_amount),
            fee: Transfer::out_of_custody(ctx.platform_wallet, split.platform_fee),
            event: PaymentProcessed {
                bounty_id,
                submission_id,
                hunter_wallet: ctx.hunter_wallet,
                amount: split.hunter_amount,
                platform_fee: split.platform_fee,
            },
        },
    )
}

/// What `close_bounty` does: all that the escrow holds goes back to its
/// owner, and the account is closed for good.
pub open spec fn close_bounty_outcome(ctx: CloseBounty, bounty_id: String) -> Result<
    (CloseBounty, ClosureReceipt),
    VaultError,
> {
    match opened(ctx.vault, ctx.owner) {
        Err(e) => Err(e),
        Ok(escrow) => Ok(
            (
                CloseBounty { vault: EscrowAccount::Closed, owner: ctx.owner },
                ClosureReceipt {
                    refund: Transfer::outbound(escrow.owner, escrow.escrow_amount),
                    event: BountyClosed { bounty_id, remaining_amount: escrow.escrow_amount },
                },
            ),
        ),
    }
}

/// Closes the signer's bounty and returns what is left to the owner.
pub fn close_bounty(ctx: &mut CloseBounty, bounty_id: String) -> (r: Result<
    ClosureReceipt,
    VaultError,
>)
    ensures
        close_bounty_outcome(*old(ctx), bounty_id) == (match r {
            Ok(receipt) => Ok((*final(ctx), receipt)),
            Err(e) => Err(e),
        }),
        r is Err ==> *final(ctx) == *old(ctx),
{
    let escrow = open(&ctx.vault, &ctx.owner)?;
    ctx.vault = EscrowAccount::Closed;
    Ok(
        ClosureReceipt {
            refund: Transfer::out_of_custody(escrow.owner, escrow.escrow_amount),
            event: BountyClosed { bounty_id, remaining_amount: escrow.escrow_amount },
        },
    )
}

/// Opening an escrow at an account that does not exist yet is refused with
/// `InvalidEscrowAmount` for every amount under 100 000 000, and for every
/// other amount it succeeds and records that amount as it was given.
pub proof fn lemma_initialize_minimum(ctx: Initialize, escrow_amount: u64)
    requires
        ctx.vault is Uninitialized,
    ensures
        escrow_amount < 100_000_000 ==> refused(
            initialize_outcome(ctx, escrow_amount),
            VaultError::InvalidEscrowAmount,
        ),
        escrow_amount >= 100_000_000 ==> {
            &&& initialize_outcome(ctx, escrow_amount) matches Ok((after, transfer))
            &&& after.vault == EscrowAccount::Active(
                BountyEscrow { owner: ctx.owner, escrow_amount },
            )
            &&& transfer == Transfer::inbound(ctx.owner, escrow_amount)
        },
{
}

/// A payment moves what it deducts: the hunter's payout and the platform's
/// fee add up to the payment's amount, which is what the escrow loses. The
/// fee is 2% of the amount, rounded down.
pub proof fn lemma_payment_moves_what_it_deducts(
    ctx: ProcessPayment,
    bounty_id: String,
    submission_id: String,
    custom_amount: Option<u64>,
    reward_per_submission: u64,
    max_submissions: u32,
    current_paid_submissions: u32,
)
    ensures
        process_payment_outcome(
            ctx,
            bounty_id,
            submission_id,
            custom_amount,
            reward_per_submission,
            max_submissions,
            current_paid_submissions,
        ) matches Ok((after, receipt)) ==> {
            let amount = payment_amount(custom_amount, reward_per_submission);
            &&& receipt.payout.amount + receipt.fee.amount == amount
            &&& receipt.fee.amount == fee_of(amount as int)
            &&& after.vault.held() == ctx.vault.held() - amount
            &&& receipt.event.amount == receipt.payout.amount
            &&& receipt.event.platform_fee == receipt.fee.amount
        },
{
    lemma_fee_split_exact(payment_amount(custom_amount, reward_per_submission));
}

/// When the caller reports as many paid submissions as the bounty allows, or
/// more, the owner's payment is refused with `MaxSubmissionsReached`,
/// whatever the escrow holds and whatever the amount.
pub proof fn lemma_max_submissions_reached(
    ctx: ProcessPayment,
    bounty_id: String,
    submission_id: String,
    custom_amount: Option<u64>,
    reward_per_submission: u64,
    max_submissions: u32,
    current_paid_submissions: u32,
)
    requires
        opened(ctx.vault, ctx.owner) is Ok,
        current_paid_submissions >= max_submissions,
    ensures
        refused(
            process_payment_outcome(
                ctx,
                bounty_id,
                submission_id,
                custom_amount,
                reward_per_submission,
                max_submissions,
                current_paid_submissions,
            ),
            VaultError::MaxSubmissionsReached,
        ),
{
}

/// Closing a bounty sends its owner exactly what the escrow held and leaves
/// the account closed, holding nothing.
pub proof fn lemma_close_returns_everything(ctx: CloseBounty, bounty_id: String)
    requires
        opened(ctx.vault, ctx.owner) is Ok,
    ensures
        ({
            &&& close_bounty_outcome(ctx, bounty_id) matches Ok((after, receipt))
            &&& receipt.refund.from == Party::Custody
            &&& receipt.refund.to == Party::Wallet(ctx.owner)
            &&& receipt.refund.amount == ctx.vault.held()
            &&& receipt.event.remaining_amount == ctx.vault.held()
            &&& after.vault == EscrowAccount::Closed
            &&& after.vault.held() == 0
        }),
{
}

/// A closed account refuses every operation, whoever signs and whatever the
/// arguments. As a refused operation changes nothing, the account stays
/// closed.
pub proof fn lemma_closed_is_final(
    signer: Identity,
    hunter_wallet: Identity,
    platform_wallet: Identity,
    amount: u64,
    bounty_id: String,
    submission_id: String,
    custom_amount: Option<u64>,
    reward_per_submission: u64,
    max_submissions: u32,
    current_paid_submissions: u32,
)
    ensures
        refused(
            initialize_outcome(Initialize { vault: EscrowAccount::Closed, owner: signer }, amount),
            VaultError::AccountClosed,
        ),
        refused(
            deposit_outcome(Deposit { vault: EscrowAccount::Closed, owner: signer }, amount),
            VaultError::AccountClosed,
        ),
        refused(
            process_payment_outcome(
                ProcessPayment {
                    vault: EscrowAccount::Closed,
                    owner: signer,
                    hunter_wallet,
                    platform_wallet,
                },
                bounty_id,
                submission_id,
                custom_amount,
                reward_per_submission,
                max_submissions,
                current_paid_submissions,
            ),
            VaultError::AccountClosed,
        ),
        refused(
            close_bounty_outcome(
                CloseBounty { vault: EscrowAccount::Closed, owner: signer },
                bounty_id,
            ),
            VaultError::AccountClosed,
        ),
{
}

/// Only its owner moves an escrow's funds, and the owner never changes: a
/// deposit or a payment that succeeds was signed by the owner on record and
/// leaves the account active under that owner; so was a closure, which
/// leaves it closed.
pub proof fn lemma_escrow_answers_to_its_owner(
    account: EscrowAccount,
    signer: Identity,
    hunter_wallet: Identity,
    platform_wallet: Identity,
    amount: u64,
    bounty_id: String,
    submission_id: String,
    custom_amount: Option<u64>,
    reward_per_submission: u64,
    max_submissions: u32,
    current_paid_submissions: u32,
)
    ensures
        deposit_outcome(Deposit { vault: account, owner: signer }, amount) matches Ok((after, _))
            ==> {
            &&& account matches EscrowAccount::Active(escrow)
            &&& escrow.owner == signer
            &&& opened(after.vault, signer) is Ok
        },
        process_payment_outcome(
            ProcessPayment { vault: account, owner: signer, hunter_wallet, platform_wallet },
            bounty_id,
            submission_id,
            custom_amount,
            reward_per_submission,
            max_submissions,
            current_paid_submissions,
        ) matches Ok((after, _)) ==> {
            &&& account matches EscrowAccount::Active(escrow)
            &&& escrow.owner == signer
            &&& opened(after.vault, signer) is Ok
        },
        close_bounty_outcome(CloseBounty { vault: account, owner: signer }, bounty_id) matches Ok(
            (after, _),
        ) ==> {
            &&& account matches EscrowAccount::Active(escrow)
            &&& escrow.owner == signer
            &&& after.vault == EscrowAccount::Closed
        },
{
}

} // verus!
