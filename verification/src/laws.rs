//! Laws that relate the operations to each other, proved from their outcomes.

use vstd::prelude::*;
use crate::accounts::{SwapTokens, UpdateSwapRatio};
use crate::state::{converted, quote_outcome};

verus! {

/// The sum of the amounts of a sequence of swaps.
pub open spec fn total_of(steps: Seq<(SwapTokens, u64)>) -> int
    decreases steps.len(),
{
    if steps.len() == 0 {
        0
    } else {
        total_of(steps.drop_last()) + steps.last().1
    }
}

/// The running total after the last swap of a sequence that started at `start`.
pub open spec fn total_after(start: u64, steps: Seq<(SwapTokens, u64)>) -> u64 {
    if steps.len() == 0 {
        start
    } else {
        steps.last().0.outcome(steps.last().1)->Ok_0.0.swap_state.total_swapped
    }
}

/// Every swap of the sequence succeeds, and each one finds the running total
/// that the one before it left; the first finds `start`. The rate may differ
/// from one swap to the next.
pub open spec fn swaps_follow(start: u64, steps: Seq<(SwapTokens, u64)>) -> bool
    decreases steps.len(),
{
    steps.len() == 0 || {
        &&& swaps_follow(start, steps.drop_last())
        &&& steps.last().0.swap_state.total_swapped == total_after(start, steps.drop_last())
        &&& steps.last().0.outcome(steps.last().1) is Ok
    }
}

/// At a positive rate, a positive amount converts exactly when the product of
/// amount and numerator fits in 64 bits and the quotient, rounded down, is
/// positive; what it converts to is that quotient.
pub proof fn lemma_quote_succeeds_iff(amount: u64, numerator: u64, denominator: u64)
    requires
        amount > 0,
        numerator > 0,
        denominator > 0,
    ensures
        quote_outcome(amount, numerator, denominator) is Ok <==> amount * numerator <= u64::MAX
            && converted(amount, numerator, denominator) > 0,
        quote_outcome(amount, numerator, denominator) is Ok ==> quote_outcome(
            amount,
            numerator,
            denominator,
        )->Ok_0 == converted(amount, numerator, denominator),
{
    if amount * numerator <= u64::MAX {
        lemma_converted_bounds(amount, numerator, denominator);
    }
}

/// A quotient by a positive denominator lies between zero and the dividend.
pub proof fn lemma_converted_bounds(amount: u64, numerator: u64, denominator: u64)
    requires
        denominator > 0,
    ensures
        0 <= converted(amount, numerator, denominator) <= amount * numerator,
{
    let product: int = amount * numerator;
    let divisor: int = denominator as int;
    assert(0 <= product) by (nonlinear_arith)
        requires
            product == amount * numerator,
    ;
    assert(0 <= product / divisor <= product) by (nonlinear_arith)
        requires
            0 <= product,
            divisor > 0,
    ;
}

/// A swap of a positive amount at a positive rate, with accounts that pass
/// validation and balances that allow both moves, succeeds exactly when the
/// converted amount is positive and neither the product of amount and numerator
/// nor the new running total leaves the 64-bit range.
pub proof fn lemma_swap_succeeds_iff(ctx: SwapTokens, amount: u64)
    requires
        amount > 0,
        ctx.swap_state.wf(),
        ctx.validation() is Ok,
        ctx.user_old_token_account.amount >= amount,
        ctx.old_token_vault.amount + amount <= u64::MAX,
        amount * ctx.swap_state.swap_ratio_numerator <= u64::MAX ==> {
            let out = converted(
                amount,
                ctx.swap_state.swap_ratio_numerator,
                ctx.swap_state.swap_ratio_denominator,
            );
            ctx.new_token_vault.amount >= out && ctx.user_new_token_account.amount + out
                <= u64::MAX
        },
    ensures
        ctx.outcome(amount) is Ok <==> {
            &&& converted(
                amount,
                ctx.swap_state.swap_ratio_numerator,
                ctx.swap_state.swap_ratio_denominator,
            ) > 0
            &&& amount * ctx.swap_state.swap_ratio_numerator <= u64::MAX
            &&& ctx.swap_state.total_swapped + amount <= u64::MAX
        },
{
    lemma_quote_succeeds_iff(
        amount,
        ctx.swap_state.swap_ratio_numerator,
        ctx.swap_state.swap_ratio_denominator,
    );
}

/// A successful swap pays out the amount converted at the rate it found, moves
/// exactly the two amounts between the four accounts, and adds the amount to
/// the running total.
pub proof fn lemma_swap_effect(ctx: SwapTokens, amount: u64)
    requires
        ctx.swap_state.wf(),
        ctx.outcome(amount) is Ok,
    ensures
        ({
            let (after, out) = ctx.outcome(amount)->Ok_0;
            &&& out == converted(
                amount,
                ctx.swap_state.swap_ratio_numerator,
                ctx.swap_state.swap_ratio_denominator,
            )
            &&& after.user_old_token_account.amount == ctx.user_old_token_account.amount - amount
            &&& after.old_token_vault.amount == ctx.old_token_vault.amount + amount
            &&& after.new_token_vault.amount == ctx.new_token_vault.amount - out
            &&& after.user_new_token_account.amount == ctx.user_new_token_account.amount + out
            &&& after.swap_state.total_swapped == ctx.swap_state.total_swapped + amount
            &&& after.swap_state == ctx.swap_state.with_swapped(amount)
        }),
{
    lemma_quote_succeeds_iff(
        amount,
        ctx.swap_state.swap_ratio_numerator,
        ctx.swap_state.swap_ratio_denominator,
    );
}

/// After a sequence of successful swaps the running total is what it was at the
/// start plus the sum of the amounts swapped.
pub proof fn lemma_total_is_sum(start: u64, steps: Seq<(SwapTokens, u64)>)
    requires
        swaps_follow(start, steps),
    ensures
        total_after(start, steps) == start + total_of(steps),
    decreases steps.len(),
{
    if steps.len() > 0 {
        lemma_total_is_sum(start, steps.drop_last());
    }
}

/// A rate update works forward only: the swap before it pays at the rate it
/// found, the update leaves the running total as it was, and the swap after it
/// pays at the new rate.
pub proof fn lemma_rate_update_is_prospective(
    before: SwapTokens,
    first_amount: u64,
    update: UpdateSwapRatio,
    numerator: u64,
    denominator: u64,
    later: SwapTokens,
    second_amount: u64,
)
    requires
        before.swap_state.wf(),
        before.outcome(first_amount) is Ok,
        update.swap_state == before.outcome(first_amount)->Ok_0.0.swap_state,
        update.outcome(numerator, denominator) is Ok,
        later.swap_state == update.outcome(numerator, denominator)->Ok_0.swap_state,
        later.outcome(second_amount) is Ok,
    ensures
        before.outcome(first_amount)->Ok_0.1 == converted(
            first_amount,
            before.swap_state.swap_ratio_numerator,
            before.swap_state.swap_ratio_denominator,
        ),
        update.outcome(numerator, denominator)->Ok_0.swap_state.total_swapped
            == before.swap_state.total_swapped + first_amount,
        later.outcome(second_amount)->Ok_0.1 == converted(second_amount, numerator, denominator),
        later.outcome(second_amount)->Ok_0.0.swap_state.total_swapped
            == before.swap_state.total_swapped + first_amount + second_amount,
{
    lemma_swap_effect(before, first_amount);
    lemma_swap_effect(later, second_amount);
}

} // verus!
