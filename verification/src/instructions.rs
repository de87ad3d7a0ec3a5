//! The four operations of the exchange authority. Each one either takes full
//! effect or leaves everything it was handed as it was.

use vstd::prelude::*;
use crate::accounts::{Initialize, SwapTokens, UpdateSwapRatio, WithdrawTokens};
use crate::error::SwapError;
use crate::state::{quote_outcome, SwapEvent, SwapState};
use crate::token::{
    transfer,
    transfer_checked,
    transfer_checked_outcome,
    transfer_outcome,
    TransferRequest,
    TransferRequestView,
};

verus! {

/// What a successful swap hands back: its record, and the two transfers for the
/// ledger to perform, the deposit first.
#[derive(Clone, Debug, PartialEq, Eq)]
pub struct SwapReceipt {
    pub event: SwapEvent,
    pub deposit: TransferRequest,
    pub payout: TransferRequest,
}

impl Initialize {
    /// The record that initialization writes: the supplied identities, the
    /// derivation salt, the rate one to one, and nothing swapped yet.
    pub open spec fn fresh_state(&self, bump: u8) -> SwapState {
        SwapState {
            authority: self.authority,
            old_token_mint: self.old_token_mint.address,
            new_token_mint: self.new_token_mint.address,
            old_token_vault: self.old_token_vault.address,
            new_token_vault: self.new_token_vault.address,
            bump,
            swap_ratio_numerator: 1,
            swap_ratio_denominator: 1,
            total_swapped: 0,
        }
    }

    /// What initialization gives: the accounts with the record filled in, or
    /// the rule that the accounts break.
    pub open spec fn outcome(self, bump: u8) -> Result<Initialize, SwapError> {
        match self.validation() {
            Err(e) => Err(e),
            Ok(_) => Ok(Initialize { swap_state: self.fresh_state(bump), ..self }),
        }
    }
}

impl SwapTokens {
    /// The deposit of a swap: `amount` from the caller's old-asset account to the
    /// old-asset vault, moved plainly under the caller's own signature.
    pub open spec fn deposit(self, amount: u64) -> TransferRequestView {
        TransferRequestView {
            from: self.user_old_token_account.address,
            to: self.old_token_vault.address,
            amount,
            decimals: None,
            signer_seeds: None,
        }
    }

    /// The payout of a swap: `new_token_amount` from the new-asset vault to the
    /// caller's new-asset account, with the new asset's precision declared,
    /// signed by the configuration record for itself.
    pub open spec fn payout(self, new_token_amount: u64) -> TransferRequestView {
        TransferRequestView {
            from: self.new_token_vault.address,
            to: self.user_new_token_account.address,
            amount: new_token_amount,
            decimals: Some(self.new_token_mint.decimals),
            signer_seeds: Some(self.swap_state.signer_seeds_spec()),
        }
    }

    /// What a swap of `amount` gives: the accounts after it together with the
    /// new-asset amount paid out, or the first reason why it is rejected. The
    /// accounts are checked first, then the amount is converted, then the
    /// deposit moves, then the payout, and last the running total grows.
    pub open spec fn outcome(self, amount: u64) -> Result<(SwapTokens, u64), SwapError> {
        let state = self.swap_state;
        match self.validation() {
            Err(e) => Err(e),
            Ok(_) => match quote_outcome(
                amount,
                state.swap_ratio_numerator,
                state.swap_ratio_denominator,
            ) {
                Err(e) => Err(e),
                Ok(new_token_amount) => match transfer_outcome(
                    self.user_old_token_account,
                    self.old_token_vault,
                    amount,
                ) {
                    Err(e) => Err(e),
                    Ok((user_old, old_vault)) => match transfer_checked_outcome(
                        self.new_token_vault,
                        self.new_token_mint,
                        self.user_new_token_account,
                        new_token_amount,
                        self.new_token_mint.decimals,
                    ) {
                        Err(e) => Err(e),
                        Ok((new_vault, user_new)) => if state.total_swapped + amount > u64::MAX {
                            Err(SwapError::Overflow)
                        } else {
                            Ok(
                                (
                                    SwapTokens {
                                        swap_state: state.with_swapped(amount),
                                        user_old_token_account: user_old,
                                        user_new_token_account: user_new,
                                        old_token_vault: old_vault,
                                        new_token_vault: new_vault,
                                        ..self
                                    },
                                    new_token_amount,
                                ),
                            )
                        },
                    },
                },
            },
        }
    }
}

impl UpdateSwapRatio {
    /// What a rate update gives: the accounts with the new rate in the record,
    /// or the reason why it is rejected.
    pub open spec fn outcome(self, numerator: u64, denominator: u64) -> Result<
        UpdateSwapRatio,
        SwapError,
    > {
        match self.validation() {
            Err(e) => Err(e),
            Ok(_) => if denominator == 0 || numerator == 0 {
                Err(SwapError::InvalidRatio)
            } else {
                Ok(
                    UpdateSwapRatio {
                        swap_state: self.swap_state.with_ratio(numerator, denominator),
                        ..self
                    },
                )
            },
        }
    }
}

impl WithdrawTokens {
    /// The transfer of a withdrawal: `amount` from the vault to the controller's
    /// account, signed by the configuration record for itself; plain for the
    /// old asset, with the asset's precision declared for the new one.
    pub open spec fn request(self, amount: u64, withdraw_old: bool) -> TransferRequestView {
        TransferRequestView {
            from: self.vault.address,
            to: self.authority_token_account.address,
            amount,
            decimals: if withdraw_old {
                None
            } else {
                Some(self.mint.decimals)
            },
            signer_seeds: Some(self.swap_state.signer_seeds_spec()),
        }
    }

    /// What a withdrawal gives: the accounts after `amount` has left the vault
    /// for the controller's account, or the reason why it is rejected. The old
    /// asset moves plainly, the new asset with its declared precision.
    pub open spec fn outcome(self, amount: u64, withdraw_old: bool) -> Result<
        WithdrawTokens,
        SwapError,
    > {
        match self.validation(withdraw_old) {
            Err(e) => Err(e),
            Ok(_) => {
                let moved = if withdraw_old {
                    transfer_outcome(self.vault, self.authority_token_account, amount)
                } else {
                    transfer_checked_outcome(
                        self.vault,
                        self.mint,
                        self.authority_token_account,
                        amount,
                        self.mint.decimals,
                    )
                };
                match moved {
                    Err(e) => Err(e),
                    Ok((vault, destination)) => Ok(
                        WithdrawTokens { vault, authority_token_account: destination, ..self },
                    ),
                }
            },
        }
    }
}

/// Fills in the configuration record for the supplied controller, asset types
/// and vaults, with `bump` as its derivation salt.
pub fn initialize(ctx: &mut Initialize, bump: u8) -> (r: Result<(), SwapError>)
    ensures
        match old(ctx).outcome(bump) {
            Ok(after) => r == Ok::<(), SwapError>(()) && *final(ctx) == after,
            Err(e) => r == Err::<(), SwapError>(e) && *final(ctx) == *old(ctx),
        },
        r is Ok ==> final(ctx).swap_state.wf(),
{
    match ctx.validate() {
        Err(e) => {
            return Err(e);
        },
        Ok(_) => {},
    }
    ctx.swap_state.authority = ctx.authority;
    ctx.swap_state.old_token_mint = ctx.old_token_mint.address;
    ctx.swap_state.new_token_mint = ctx.new_token_mint.address;
    ctx.swap_state.old_token_vault = ctx.old_token_vault.address;
    ctx.swap_state.new_token_vault = ctx.new_token_vault.address;
    ctx.swap_state.bump = bump;
    ctx.swap_state.swap_ratio_numerator = 1;
    ctx.swap_state.swap_ratio_denominator = 1;
    ctx.swap_state.total_swapped = 0;
    Ok(())
}

/// Swaps `amount` old-asset units of the caller for new-asset units at the
/// current rate: the deposit goes to the old-asset vault, the payout leaves the
/// new-asset vault, and the running total grows by `amount`. Returns the record
/// of the swap, stamped with `timestamp`, and the two transfers to perform.
pub fn swap_tokens(ctx: &mut SwapTokens, amount: u64, timestamp: i64) -> (r: Result<
    SwapReceipt,
    SwapError,
>)
    ensures
        match old(ctx).outcome(amount) {
            Ok((after, new_token_amount)) => {
                &&& *final(ctx) == after
                &&& r is Ok
                &&& r->Ok_0.event == (SwapEvent {
                    user: old(ctx).user,
                    old_token_amount: amount,
                    new_token_amount,
                    timestamp,
                })
                &&& r->Ok_0.deposit@ == old(ctx).deposit(amount)
                &&& r->Ok_0.payout@ == old(ctx).payout(new_token_amount)
            },
            Err(e) => *final(ctx) == *old(ctx) && r is Err && r->Err_0 == e,
        },
        r is Err ==> *final(ctx) == *old(ctx),
        old(ctx).swap_state.wf() ==> final(ctx).swap_state.wf(),
        final(ctx).swap_state.total_swapped >= old(ctx).swap_state.total_swapped,
{
    match ctx.validate() {
        Err(e) => {
            return Err(e);
        },
        Ok(_) => {},
    }
    let new_token_amount: u64 = match ctx.swap_state.quote(amount) {
        Err(e) => {
            return Err(e);
        },
        Ok(q) => q,
    };
    let mut pending: SwapTokens = *ctx;
    match transfer(&mut pending.user_old_token_account, &mut pending.old_token_vault, amount) {
        Err(e) => {
            return Err(e);
        },
        Ok(_) => {},
    }
    let decimals: u8 = pending.new_token_mint.decimals;
    match transfer_checked(
        &mut pending.new_token_vault,
        &ctx.new_token_mint,
        &mut pending.user_new_token_account,
        new_token_amount,
        decimals,
    ) {
        Err(e) => {
            return Err(e);
        },
        Ok(_) => {},
    }
    pending.swap_state.total_swapped = match pending.swap_state.total_swapped.checked_add(amount) {
        None => {
            return Err(SwapError::Overflow);
        },
        Some(total) => total,
    };
    let deposit = TransferRequest {
        from: ctx.user_old_token_account.address,
        to: ctx.old_token_vault.address,
        amount,
        decimals: None,
        signer_seeds: None,
    };
    let payout = TransferRequest {
        from: ctx.new_token_vault.address,
        to: ctx.user_new_token_account.address,
        amount: new_token_amount,
        decimals: Some(decimals),
        signer_seeds: Some(ctx.swap_state.signer_seeds()),
    };
    let event = SwapEvent { user: ctx.user, old_token_amount: amount, new_token_amount, timestamp };
    *ctx = pending;
    Ok(SwapReceipt { event, deposit, payout })
}

/// Replaces the rate by `numerator / denominator`. Only the controller may do
/// so, and both components must be positive. The running total is not touched.
pub fn update_swap_ratio(ctx: &mut UpdateSwapRatio, numerator: u64, denominator: u64) -> (r:
    Result<(), SwapError>)
    ensures
        match old(ctx).outcome(numerator, denominator) {
            Ok(after) => r == Ok::<(), SwapError>(()) && *final(ctx) == after,
            Err(e) => r == Err::<(), SwapError>(e) && *final(ctx) == *old(ctx),
        },
        r is Err ==> *final(ctx) == *old(ctx),
        old(ctx).authority != old(ctx).swap_state.authority ==> r == Err::<(), SwapError>(
            SwapError::AuthorizationFailure,
        ),
        r is Ok ==> final(ctx).swap_state.wf(),
        final(ctx).swap_state.total_swapped == old(ctx).swap_state.total_swapped,
{
    match ctx.validate() {
        Err(e) => {
            return Err(e);
        },
        Ok(_) => {},
    }
    if denominator == 0 || numerator == 0 {
        return Err(SwapError::InvalidRatio);
    }
    ctx.swap_state.swap_ratio_numerator = numerator;
    ctx.swap_state.swap_ratio_denominator = denominator;
    Ok(())
}

/// Moves `amount` units out of the selected vault into the controller's
/// account: the old-asset vault where `withdraw_old` is set, the new-asset vault
/// where it is not. Only the controller may do so. The amount is held against
/// nothing but the vault's balance. Returns the transfer to perform.
pub fn withdraw_tokens(ctx: &mut WithdrawTokens, amount: u64, withdraw_old: bool) -> (r: Result<
    TransferRequest,
    SwapError,
>)
    ensures
        match old(ctx).outcome(amount, withdraw_old) {
            Ok(after) => {
                &&& *final(ctx) == after
                &&& r is Ok
                &&& r->Ok_0@ == old(ctx).request(amount, withdraw_old)
            },
            Err(e) => *final(ctx) == *old(ctx) && r is Err && r->Err_0 == e,
        },
        r is Err ==> *final(ctx) == *old(ctx),
        old(ctx).authority != old(ctx).swap_state.authority ==> r is Err && r->Err_0
            == SwapError::AuthorizationFailure,
        final(ctx).swap_state == old(ctx).swap_state,
{
    match ctx.validate(withdraw_old) {
        Err(e) => {
            return Err(e);
        },
        Ok(_) => {},
    }
    let mint = ctx.mint;
    let moved = if withdraw_old {
        transfer(&mut ctx.vault, &mut ctx.authority_token_account, amount)
    } else {
        transfer_checked(
            &mut ctx.vault,
            &mint,
            &mut ctx.authority_token_account,
            amount,
            mint.decimals,
        )
    };
    match moved {
        Err(e) => Err(e),
        Ok(_) => Ok(
            TransferRequest {
                from: ctx.vault.address,
                to: ctx.authority_token_account.address,
                amount,
                decimals: if withdraw_old {
                    None
                } else {
                    Some(mint.decimals)
                },
                signer_seeds: Some(ctx.swap_state.signer_seeds()),
            },
        ),
    }
}

} // verus!
