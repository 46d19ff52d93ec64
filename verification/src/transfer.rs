//! Movements of funds that an operation asks its host to carry out.

use vstd::prelude::*;
use crate::identity::Identity;

verus! {

/// One end of a transfer.
#[derive(Clone, Copy, Debug, PartialEq, Eq)]
pub enum Party {
    /// The account that the operation acts on, holding funds in custody.
    Custody,
    /// The wallet of an identity.
    Wallet(Identity),
}

/// An instruction to move `amount` units from one party to another.
///
/// The operations of this library decide which transfers are due and leave
/// moving the funds to the host. An operation has taken effect only when
/// every transfer it returned has been carried out; if one fails, the host
/// must discard the account as the operation left it.
#[derive(Clone, Copy, Debug, PartialEq, Eq)]
pub struct Transfer {
    pub from: Party,
    pub to: Party,
    pub amount: u64,
}

impl Transfer {
    /// A transfer from a wallet into custody.
    pub open spec fn inbound(payer: Identity, amount: u64) -> Transfer {
        Transfer { from: Party::Wallet(payer), to: Party::Custody, amount }
    }

    /// A transfer out of custody to a wallet.
    pub open spec fn outbound(payee: Identity, amount: u64) -> Transfer {
        Transfer { from: Party::Custody, to: Party::Wallet(payee), amount }
    }

    /// Builds a transfer from `payer`'s wallet into custody.
    pub fn into_custody(payer: Identity, amount: u64) -> (t: Transfer)
        ensures
            t == Transfer::inbound(payer, amount),
    {
        Transfer { from: Party::Wallet(payer), to: Party::Custody, amount }
    }

    /// Builds a transfer out of custody to `payee`'s wallet.
    pub fn out_of_custody(payee: Identity, amount: u64) -> (t: Transfer)
        ensures
            t == Transfer::outbound(payee, amount),
    {
        Transfer { from: Party::Custody, to: Party::Wallet(payee), amount }
    }
}

} // verus!
