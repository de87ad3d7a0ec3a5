//! The configuration record, the rate arithmetic, and the record of a swap.

use vstd::prelude::*;
use crate::address::Address;
use crate::error::SwapError;

verus! {

/// The configuration record: who administers the swap, which assets and vaults
/// take part, the rate, and how much has been swapped so far.
#[derive(Clone, Copy, Debug, PartialEq, Eq)]
pub struct SwapState {
    pub authority: Address,
    pub old_token_mint: Address,
    pub new_token_mint: Address,
    pub old_token_vault: Address,
    pub new_token_vault: Address,
    pub bump: u8,
    pub swap_ratio_numerator: u64,
    pub swap_ratio_denominator: u64,
    pub total_swapped: u64,
}

/// What a successful swap leaves behind for observers.
#[derive(Clone, Copy, Debug, PartialEq, Eq)]
pub struct SwapEvent {
    pub user: Address,
    pub old_token_amount: u64,
    pub new_token_amount: u64,
    pub timestamp: i64,
}

/// The label from which the configuration record derives its own signing
/// identity: the ASCII bytes of `swap_state`.
pub open spec fn seed_label() -> Seq<u8> {
    seq![115u8, 119u8, 97u8, 112u8, 95u8, 115u8, 116u8, 97u8, 116u8, 101u8]
}

/// The bytes of each seed of a list, in order.
pub open spec fn seeds_view(seeds: Vec<Vec<u8>>) -> Seq<Seq<u8>> {
    seeds@.map_values(|seed: Vec<u8>| seed@)
}

/// The new-asset units that `amount` old-asset units convert to at the rate
/// `numerator / denominator`, rounded down.
pub open spec fn converted(amount: u64, numerator: u64, denominator: u64) -> int
    recommends
        denominator > 0,
{
    (amount * numerator) / (denominator as int)
}

/// What converting `amount` at the given rate gives: the new-asset amount, or
/// the reason why there is none.
pub open spec fn quote_outcome(amount: u64, numerator: u64, denominator: u64) -> Result<
    u64,
    SwapError,
> {
    if amount == 0 {
        Err(SwapError::InvalidAmount)
    } else if amount * numerator > u64::MAX || denominator == 0 {
        Err(SwapError::Overflow)
    } else if converted(amount, numerator, denominator) == 0 {
        Err(SwapError::InvalidAmount)
    } else {
        Ok(converted(amount, numerator, denominator) as u64)
    }
}

impl SwapState {
    /// The bytes that the persisted record takes: five identities, one byte of
    /// derivation salt, and three 64-bit numbers.
    pub const INIT_SPACE: usize = 185;

    /// Both rate components are positive.
    pub open spec fn wf(&self) -> bool {
        self.swap_ratio_numerator > 0 && self.swap_ratio_denominator > 0
    }

    /// This record with another rate, and nothing else changed.
    pub open spec fn with_ratio(self, numerator: u64, denominator: u64) -> SwapState {
        SwapState { swap_ratio_numerator: numerator, swap_ratio_denominator: denominator, ..self }
    }

    /// This record after `amount` more old-asset units were swapped.
    pub open spec fn with_swapped(self, amount: u64) -> SwapState
        recommends
            self.total_swapped + amount <= u64::MAX,
    {
        SwapState { total_swapped: (self.total_swapped + amount) as u64, ..self }
    }

    /// The seeds that re-derive the record's own signing identity: the label,
    /// then the stored salt as a single byte.
    pub open spec fn signer_seeds_spec(&self) -> Seq<Seq<u8>> {
        seq![seed_label(), seq![self.bump]]
    }

    /// Converts `amount` old-asset units at the current rate, with checked
    /// multiplication and division.
    pub fn quote(&self, amount: u64) -> (r: Result<u64, SwapError>)
        ensures
            r == quote_outcome(amount, self.swap_ratio_numerator, self.swap_ratio_denominator),
    {
        if amount == 0 {
            return Err(SwapError::InvalidAmount);
        }
        let product: u64 = match amount.checked_mul(self.swap_ratio_numerator) {
            Some(p) => p,
            None => {
                return Err(SwapError::Overflow);
            },
        };
        let new_token_amount: u64 = match product.checked_div(self.swap_ratio_denominator) {
            Some(q) => q,
            None => {
                return Err(SwapError::Overflow);
            },
        };
        if new_token_amount == 0 {
            return Err(SwapError::InvalidAmount);
        }
        Ok(new_token_amount)
    }

    /// The seeds with which the record signs for itself when units leave a
    /// vault.
    pub fn signer_seeds(&self) -> (seeds: Vec<Vec<u8>>)
        ensures
            seeds_view(seeds) == self.signer_seeds_spec(),
    {
        let mut label: Vec<u8> = Vec::new();
        label.push(115u8);
        label.push(119u8);
        label.push(97u8);
        label.push(112u8);
        label.push(95u8);
        label.push(115u8);
        label.push(116u8);
        label.push(97u8);
        label.push(116u8);
        label.push(101u8);
        let mut salt: Vec<u8> = Vec::new();
        salt.push(self.bump);
        let mut seeds: Vec<Vec<u8>> = Vec::new();
        seeds.push(label);
        seeds.push(salt);
        proof {
            assert(seeds@[0]@ =~= seed_label());
            assert(seeds@[1]@ =~= seq![self.bump]);
            assert(seeds_view(seeds) =~= self.signer_seeds_spec());
        }
        seeds
    }
}

} // verus!
