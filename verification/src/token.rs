//! Custody records and the movement of units between them.

use vstd::prelude::*;
use crate::address::Address;
use crate::error::SwapError;
use crate::state::seeds_view;

verus! {

/// An asset type, with the decimal precision in which its units are written.
#[derive(Clone, Copy, Debug, PartialEq, Eq)]
pub struct Mint {
    pub address: Address,
    pub decimals: u8,
}

/// A custody record: a balance of one asset type, and who may debit it.
#[derive(Clone, Copy, Debug, PartialEq, Eq)]
pub struct TokenAccount {
    pub address: Address,
    pub mint: Address,
    pub owner: Address,
    pub amount: u64,
}

/// A transfer for the ledger to perform: which record to debit, which to
/// credit, how much, with which precision declared, and who signs for it.
#[derive(Clone, Debug, PartialEq, Eq)]
pub struct TransferRequest {
    pub from: Address,
    pub to: Address,
    pub amount: u64,
    /// The precision to declare for a move that enforces it; `None` asks for the
    /// plain move.
    pub decimals: Option<u8>,
    /// The seeds with which the configuration record signs for itself; `None`
    /// where the caller's own signature authorizes the move.
    pub signer_seeds: Option<Vec<Vec<u8>>>,
}

/// What a transfer request asks for, with the seeds as sequences of bytes.
pub struct TransferRequestView {
    pub from: Address,
    pub to: Address,
    pub amount: u64,
    pub decimals: Option<u8>,
    pub signer_seeds: Option<Seq<Seq<u8>>>,
}

impl View for TransferRequest {
    type V = TransferRequestView;

    open spec fn view(&self) -> TransferRequestView {
        TransferRequestView {
            from: self.from,
            to: self.to,
            amount: self.amount,
            decimals: self.decimals,
            signer_seeds: match self.signer_seeds {
                Some(seeds) => Some(seeds_view(seeds)),
                None => None,
            },
        }
    }
}

impl TokenAccount {
    /// This record with `amount` units taken out.
    pub open spec fn debited(self, amount: u64) -> TokenAccount
        recommends
            amount <= self.amount,
    {
        TokenAccount { amount: (self.amount - amount) as u64, ..self }
    }

    /// This record with `amount` units put in.
    pub open spec fn credited(self, amount: u64) -> TokenAccount
        recommends
            self.amount + amount <= u64::MAX,
    {
        TokenAccount { amount: (self.amount + amount) as u64, ..self }
    }
}

/// What moving `amount` units from `from` to `to` gives: both records after the
/// move, or the reason why nothing moves.
pub open spec fn transfer_outcome(from: TokenAccount, to: TokenAccount, amount: u64) -> Result<
    (TokenAccount, TokenAccount),
    SwapError,
> {
    if from.amount < amount {
        Err(SwapError::InsufficientBalance)
    } else if to.amount + amount > u64::MAX {
        Err(SwapError::Overflow)
    } else {
        Ok((from.debited(amount), to.credited(amount)))
    }
}

/// What a move with a declared precision gives: that of a plain move where the
/// declared precision is the asset's own, and a rejection where it is not.
pub open spec fn transfer_checked_outcome(
    from: TokenAccount,
    mint: Mint,
    to: TokenAccount,
    amount: u64,
    decimals: u8,
) -> Result<(TokenAccount, TokenAccount), SwapError> {
    if decimals != mint.decimals {
        Err(SwapError::AccountMismatch)
    } else {
        transfer_outcome(from, to, amount)
    }
}

/// Moves `amount` units from one custody record to another. Both records change
/// or neither does.
pub fn transfer(from: &mut TokenAccount, to: &mut TokenAccount, amount: u64) -> (r: Result<
    (),
    SwapError,
>)
    ensures
        match transfer_outcome(*old(from), *old(to), amount) {
            Ok((debited, credited)) => r == Ok::<(), SwapError>(()) && *final(from) == debited
                && *final(to) == credited,
            Err(e) => r == Err::<(), SwapError>(e) && *final(from) == *old(from) && *final(to)
                == *old(to),
        },
{
    if from.amount < amount {
        return Err(SwapError::InsufficientBalance);
    }
    match to.amount.checked_add(amount) {
        None => Err(SwapError::Overflow),
        Some(credited) => {
            from.amount = from.amount - amount;
            to.amount = credited;
            Ok(())
        },
    }
}

/// Moves `amount` units of the asset `mint` from one custody record to another,
/// after holding the declared precision `decimals` against the asset's own.
pub fn transfer_checked(
    from: &mut TokenAccount,
    mint: &Mint,
    to: &mut TokenAccount,
    amount: u64,
    decimals: u8,
) -> (r: Result<(), SwapError>)
    ensures
        match transfer_checked_outcome(*old(from), *mint, *old(to), amount, decimals) {
            Ok((debited, credited)) => r == Ok::<(), SwapError>(()) && *final(from) == debited
                && *final(to) == credited,
            Err(e) => r == Err::<(), SwapError>(e) && *final(from) == *old(from) && *final(to)
                == *old(to),
        },
{
    if decimals != mint.decimals {
        return Err(SwapError::AccountMismatch);
    }
    transfer(from, to, amount)
}

} // verus!
