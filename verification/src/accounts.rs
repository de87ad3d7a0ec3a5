//! The accounts that each operation is handed, and the rules that bind them to
//! the configuration record.

use vstd::prelude::*;
use crate::address::Address;
use crate::error::SwapError;
use crate::state::SwapState;
use crate::token::{Mint, TokenAccount};

verus! {

/// The accounts of initialization: the record to fill in with the identity
/// under which it signs for itself, the controller, both asset types and both
/// vaults.
#[derive(Clone, Copy, Debug, PartialEq, Eq)]
pub struct Initialize {
    pub swap_state: SwapState,
    pub swap_state_address: Address,
    pub authority: Address,
    pub old_token_mint: Mint,
    pub new_token_mint: Mint,
    pub old_token_vault: TokenAccount,
    pub new_token_vault: TokenAccount,
}

/// The accounts of a swap: the configuration record, the caller with an account
/// of each asset, both vaults and both asset types.
#[derive(Clone, Copy, Debug, PartialEq, Eq)]
pub struct SwapTokens {
    pub swap_state: SwapState,
    pub user: Address,
    pub user_old_token_account: TokenAccount,
    pub user_new_token_account: TokenAccount,
    pub old_token_vault: TokenAccount,
    pub new_token_vault: TokenAccount,
    pub old_token_mint: Mint,
    pub new_token_mint: Mint,
}

/// The accounts of a rate update: the configuration record and the caller.
#[derive(Clone, Copy, Debug, PartialEq, Eq)]
pub struct UpdateSwapRatio {
    pub swap_state: SwapState,
    pub authority: Address,
}

/// The accounts of a withdrawal: the configuration record, the caller, the
/// vault to empty, the account to fill and the asset type.
#[derive(Clone, Copy, Debug, PartialEq, Eq)]
pub struct WithdrawTokens {
    pub swap_state: SwapState,
    pub authority: Address,
    pub vault: TokenAccount,
    pub authority_token_account: TokenAccount,
    pub mint: Mint,
}

impl Initialize {
    /// The first rule that the accounts break, if any: the old-asset vault is
    /// the controller's and holds the old asset; the new-asset vault is under
    /// the record's own signing identity and holds the new asset.
    pub open spec fn validation(&self) -> Result<(), SwapError> {
        if self.old_token_vault.owner != self.authority {
            Err(SwapError::AuthorizationFailure)
        } else if self.old_token_vault.mint != self.old_token_mint.address {
            Err(SwapError::AccountMismatch)
        } else if self.new_token_vault.owner != self.swap_state_address {
            Err(SwapError::AuthorizationFailure)
        } else if self.new_token_vault.mint != self.new_token_mint.address {
            Err(SwapError::AccountMismatch)
        } else {
            Ok(())
        }
    }

    /// Holds the accounts against the rules of initialization.
    pub fn validate(&self) -> (r: Result<(), SwapError>)
        ensures
            r == self.validation(),
    {
        if self.old_token_vault.owner != self.authority {
            return Err(SwapError::AuthorizationFailure);
        }
        if self.old_token_vault.mint != self.old_token_mint.address {
            return Err(SwapError::AccountMismatch);
        }
        if self.new_token_vault.owner != self.swap_state_address {
            return Err(SwapError::AuthorizationFailure);
        }
        if self.new_token_vault.mint != self.new_token_mint.address {
            return Err(SwapError::AccountMismatch);
        }
        Ok(())
    }
}

impl SwapTokens {
    /// The first rule that the accounts break, if any: the caller's old-asset
    /// account is the caller's own and holds the old asset, the caller's
    /// new-asset account holds the new asset, and both vaults and both asset
    /// types are the ones that the configuration record names.
    pub open spec fn validation(&self) -> Result<(), SwapError> {
        if self.user_old_token_account.owner != self.user {
            Err(SwapError::AuthorizationFailure)
        } else if self.user_old_token_account.mint != self.swap_state.old_token_mint {
            Err(SwapError::AccountMismatch)
        } else if self.user_new_token_account.mint != self.swap_state.new_token_mint {
            Err(SwapError::AccountMismatch)
        } else if self.old_token_vault.address != self.swap_state.old_token_vault {
            Err(SwapError::AccountMismatch)
        } else if self.new_token_vault.address != self.swap_state.new_token_vault {
            Err(SwapError::AccountMismatch)
        } else if self.old_token_mint.address != self.swap_state.old_token_mint {
            Err(SwapError::AccountMismatch)
        } else if self.new_token_mint.address != self.swap_state.new_token_mint {
            Err(SwapError::AccountMismatch)
        } else {
            Ok(())
        }
    }

    /// Holds the accounts against the configuration record.
    pub fn validate(&self) -> (r: Result<(), SwapError>)
        ensures
            r == self.validation(),
    {
        if self.user_old_token_account.owner != self.user {
            return Err(SwapError::AuthorizationFailure);
        }
        if self.user_old_token_account.mint != self.swap_state.old_token_mint
            || self.user_new_token_account.mint != self.swap_state.new_token_mint
            || self.old_token_vault.address != self.swap_state.old_token_vault
            || self.new_token_vault.address != self.swap_state.new_token_vault
            || self.old_token_mint.address != self.swap_state.old_token_mint
            || self.new_token_mint.address != self.swap_state.new_token_mint {
            return Err(SwapError::AccountMismatch);
        }
        Ok(())
    }
}

impl UpdateSwapRatio {
    /// The caller must be the controller.
    pub open spec fn validation(&self) -> Result<(), SwapError> {
        if self.authority != self.swap_state.authority {
            Err(SwapError::AuthorizationFailure)
        } else {
            Ok(())
        }
    }

    /// Holds the caller against the configuration record.
    pub fn validate(&self) -> (r: Result<(), SwapError>)
        ensures
            r == self.validation(),
    {
        if self.authority != self.swap_state.authority {
            return Err(SwapError::AuthorizationFailure);
        }
        Ok(())
    }
}

impl WithdrawTokens {
    /// The first rule that the accounts break, if any: the caller is the
    /// controller, and the vault is the one that the selector picks; for the
    /// new asset, the asset type is the recorded one too.
    pub open spec fn validation(&self, withdraw_old: bool) -> Result<(), SwapError> {
        if self.authority != self.swap_state.authority {
            Err(SwapError::AuthorizationFailure)
        } else if withdraw_old {
            if self.vault.address != self.swap_state.old_token_vault {
                Err(SwapError::AccountMismatch)
            } else {
                Ok(())
            }
        } else if self.vault.address != self.swap_state.new_token_vault {
            Err(SwapError::AccountMismatch)
        } else if self.mint.address != self.swap_state.new_token_mint {
            Err(SwapError::AccountMismatch)
        } else {
            Ok(())
        }
    }

    /// Holds the caller and the selected vault against the configuration
    /// record.
    pub fn validate(&self, withdraw_old: bool) -> (r: Result<(), SwapError>)
        ensures
            r == self.validation(withdraw_old),
    {
        if self.authority != self.swap_state.authority {
            return Err(SwapError::AuthorizationFailure);
        }
        if withdraw_old {
            if self.vault.address != self.swap_state.old_token_vault {
                return Err(SwapError::AccountMismatch);
            }
        } else {
            if self.vault.address != self.swap_state.new_token_vault
                || self.mint.address != self.swap_state.new_token_mint {
                return Err(SwapError::AccountMismatch);
            }
        }
        Ok(())
    }
}

} // verus!
