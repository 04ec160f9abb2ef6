//! The constant-product curve engine.
//!
//! Pure integer mathematics of one swap: the fee is deducted from the input
//! first, then the output follows from holding `reserve_in * reserve_out`
//! against the grown sold-side reserve. Every division truncates, and every
//! intermediate product is carried in a 128-bit accumulator so that the full
//! `u64` reserve range can never overflow it.

use vstd::arithmetic::div_mod::{
    lemma_div_by_self, lemma_div_is_ordered, lemma_div_is_ordered_by_denominator,
    lemma_div_multiples_vanish, lemma_div_pos_is_pos, lemma_fundamental_div_mod,
    lemma_mod_division_less_than_divisor,
};
use vstd::arithmetic::mul::{lemma_mul_inequality, lemma_mul_nonnegative, lemma_mul_upper_bound};
use vstd::prelude::*;

use crate::errors::AmmError;

verus! {

/// Outcome of one curve evaluation: what the trader receives and what the
/// pool withheld from the input as its fee.
#[derive(Clone, Copy, Debug, PartialEq, Eq, Structural)]
pub struct SwapResult {
    /// Amount of the bought asset paid out to the trader.
    pub amount_out: u64,
    /// Part of the input amount kept by the pool as the fee.
    pub fee_charged: u64,
}

/// The part of the input that reaches the curve once the fee is deducted:
/// `amount_in * (10000 - fee_bps) / 10000`, truncating.
pub open spec fn effective_in(amount_in: u64, fee_bps: u16) -> int {
    (amount_in as int * (10000 - fee_bps as int)) / 10000
}

/// The fee withheld from the input amount.
pub open spec fn swap_fee(amount_in: u64, fee_bps: u16) -> int {
    amount_in as int - effective_in(amount_in, fee_bps)
}

/// The truncated quotient `reserve_in * reserve_out / (reserve_in + eff_in)`:
/// what is left of the bought-side reserve once the sold-side reserve has
/// grown by the post-fee input.
pub open spec fn swap_quotient(reserve_in: u64, reserve_out: u64, eff_in: int) -> int {
    (reserve_in as int * reserve_out as int) / (reserve_in as int + eff_in)
}

/// The output amount of the constant-product formula:
/// `reserve_out - reserve_in * reserve_out / (reserve_in + effective_in)`.
pub open spec fn swap_output(reserve_in: u64, reserve_out: u64, amount_in: u64, fee_bps: u16) -> int {
    reserve_out as int - swap_quotient(reserve_in, reserve_out, effective_in(amount_in, fee_bps))
}

/// The post-fee input is never negative and never exceeds the raw input.
pub proof fn lemma_effective_in_bounds(amount_in: u64, fee_bps: u16)
    requires
        fee_bps <= 10000,
    ensures
        0 <= effective_in(amount_in, fee_bps) <= amount_in,
{
    let a = amount_in as int;
    let keep = 10000 - fee_bps as int;
    lemma_mul_nonnegative(a, keep);
    lemma_div_pos_is_pos(a * keep, 10000);
    lemma_mul_inequality(keep, 10000, a);
    lemma_div_is_ordered(a * keep, a * 10000, 10000);
    lemma_div_multiples_vanish(a, 10000);
}

/// The curve quotient is never negative and never exceeds the bought-side
/// reserve: growing the denominator beyond `reserve_in` can only shrink it.
proof fn lemma_quotient_le_reserve(reserve_in: u64, reserve_out: u64, eff_in: int)
    requires
        reserve_in > 0,
        eff_in >= 0,
    ensures
        0 <= swap_quotient(reserve_in, reserve_out, eff_in) <= reserve_out,
{
    let rin = reserve_in as int;
    let rout = reserve_out as int;
    lemma_mul_nonnegative(rin, rout);
    lemma_div_pos_is_pos(rin * rout, rin + eff_in);
    lemma_div_is_ordered_by_denominator(rin * rout, rin, rin + eff_in);
    lemma_div_multiples_vanish(rout, rin);
}

/// Law: holding the reserves and the fee fixed, a larger input never buys a
/// smaller output — the output is monotone in the input and bounded by the
/// bought-side reserve.
pub proof fn lemma_output_monotonic(
    reserve_in: u64,
    reserve_out: u64,
    amount_lo: u64,
    amount_hi: u64,
    fee_bps: u16,
)
    requires
        reserve_in > 0,
        reserve_out > 0,
        0 < amount_lo <= amount_hi,
        fee_bps <= 10000,
    ensures
        swap_output(reserve_in, reserve_out, amount_lo, fee_bps)
            <= swap_output(reserve_in, reserve_out, amount_hi, fee_bps),
        swap_output(reserve_in, reserve_out, amount_hi, fee_bps) <= reserve_out,
{
    let rin = reserve_in as int;
    let rout = reserve_out as int;
    let keep = 10000 - fee_bps as int;
    let eff_lo = effective_in(amount_lo, fee_bps);
    let eff_hi = effective_in(amount_hi, fee_bps);
    lemma_mul_inequality(amount_lo as int, amount_hi as int, keep);
    lemma_div_is_ordered(amount_lo as int * keep, amount_hi as int * keep, 10000);
    lemma_effective_in_bounds(amount_lo, fee_bps);
    lemma_effective_in_bounds(amount_hi, fee_bps);
    lemma_mul_nonnegative(rin, rout);
    lemma_div_is_ordered_by_denominator(rin * rout, rin + eff_lo, rin + eff_hi);
    lemma_quotient_le_reserve(reserve_in, reserve_out, eff_hi);
}

/// Law: the output never drains the whole bought-side reserve, provided the
/// pool is deep enough that the reserve product covers one grown denominator
/// (`reserve_in * reserve_out >= reserve_in + effective_in`). Below that
/// depth the truncated quotient can reach zero and the formula pays out the
/// entire reserve.
pub proof fn lemma_output_never_drains(
    reserve_in: u64,
    reserve_out: u64,
    amount_in: u64,
    fee_bps: u16,
)
    requires
        reserve_in > 0,
        reserve_out > 0,
        amount_in > 0,
        fee_bps <= 10000,
        reserve_in as int * reserve_out as int
            >= reserve_in as int + effective_in(amount_in, fee_bps),
    ensures
        swap_output(reserve_in, reserve_out, amount_in, fee_bps) < reserve_out,
{
    let rin = reserve_in as int;
    let rout = reserve_out as int;
    let den = rin + effective_in(amount_in, fee_bps);
    lemma_effective_in_bounds(amount_in, fee_bps);
    lemma_div_by_self(den);
    lemma_div_is_ordered(den, rin * rout, den);
}

/// Law: the constant product is preserved whenever the curve division is
/// exact — if `reserve_in + effective_in` divides `reserve_in * reserve_out`,
/// then `(reserve_in + effective_in) * (reserve_out - amount_out)` is at
/// least the old product `reserve_in * reserve_out`. When the division
/// leaves a remainder, truncation hands that remainder to the trader and the
/// post-swap product falls short of the old one (see
/// [`lemma_product_loss_bounded`] for the bound that always holds).
pub proof fn lemma_constant_product_preserved(
    reserve_in: u64,
    reserve_out: u64,
    amount_in: u64,
    fee_bps: u16,
)
    requires
        reserve_in > 0,
        reserve_out > 0,
        amount_in > 0,
        fee_bps <= 10000,
        (reserve_in as int * reserve_out as int)
            % (reserve_in as int + effective_in(amount_in, fee_bps)) == 0,
    ensures
        (reserve_in as int + effective_in(amount_in, fee_bps))
            * (reserve_out as int - swap_output(reserve_in, reserve_out, amount_in, fee_bps))
            >= reserve_in as int * reserve_out as int,
{
    let rin = reserve_in as int;
    let rout = reserve_out as int;
    let den = rin + effective_in(amount_in, fee_bps);
    lemma_effective_in_bounds(amount_in, fee_bps);
    lemma_fundamental_div_mod(rin * rout, den);
}

/// Law: however the truncation falls, the post-swap product misses the old
/// product by less than one denominator — the value lost to rounding is
/// bounded by `reserve_in + effective_in`.
pub proof fn lemma_product_loss_bounded(
    reserve_in: u64,
    reserve_out: u64,
    amount_in: u64,
    fee_bps: u16,
)
    requires
        reserve_in > 0,
        reserve_out > 0,
        amount_in > 0,
        fee_bps <= 10000,
    ensures
        (reserve_in as int + effective_in(amount_in, fee_bps))
            * (reserve_out as int - swap_output(reserve_in, reserve_out, amount_in, fee_bps))
            > reserve_in as int * reserve_out as int
                - (reserve_in as int + effective_in(amount_in, fee_bps)),
{
    let rin = reserve_in as int;
    let rout = reserve_out as int;
    let den = rin + effective_in(amount_in, fee_bps);
    lemma_effective_in_bounds(amount_in, fee_bps);
    lemma_mul_nonnegative(rin, rout);
    lemma_fundamental_div_mod(rin * rout, den);
    lemma_mod_division_less_than_divisor(rin * rout, den);
}

/// Evaluate the curve for one swap.
///
/// Deducts the fee from `amount_in`, then prices the remainder against the
/// constant-product formula over the two reserves. The `decimals_hint` is a
/// display-precision hint carried by callers; it plays no part in the
/// settlement integers and does not affect the result.
///
/// Fails with `InvalidAmount` on a zero input and with `EmptyPool` when
/// either reserve is zero; on every other input allowed by the contract it
/// succeeds, since the 128-bit accumulator has room for any product of two
/// `u64` reserves.
pub fn compute_swap(
    reserve_in: u64,
    reserve_out: u64,
    amount_in: u64,
    fee_bps: u16,
    _decimals_hint: Option<u8>,
) -> (r: Result<SwapResult, AmmError>)
    requires
        fee_bps <= 10000,
    ensures
        r is Ok <==> amount_in != 0 && reserve_in != 0 && reserve_out != 0,
        r == Err::<SwapResult, AmmError>(AmmError::InvalidAmount) <==> amount_in == 0,
        r == Err::<SwapResult, AmmError>(AmmError::EmptyPool)
            <==> amount_in != 0 && (reserve_in == 0 || reserve_out == 0),
        r matches Ok(res) ==> res.amount_out as int
            == swap_output(reserve_in, reserve_out, amount_in, fee_bps),
        r matches Ok(res) ==> res.fee_charged as int == swap_fee(amount_in, fee_bps),
        r matches Ok(res) ==> res.amount_out <= reserve_out && res.fee_charged <= amount_in,
{
    if amount_in == 0 {
        return Err(AmmError::InvalidAmount);
    }
    if reserve_in == 0 || reserve_out == 0 {
        return Err(AmmError::EmptyPool);
    }

    let keep: u64 = 10000 - (fee_bps as u64);
    proof {
        lemma_mul_upper_bound(amount_in as int, u64::MAX as int, keep as int, 10000);
        lemma_effective_in_bounds(amount_in, fee_bps);
    }
    let eff_wide: u128 = (amount_in as u128) * (keep as u128) / 10000;
    let eff: u64 = eff_wide as u64;
    let fee_amount: u64 = amount_in - eff;

    proof {
        lemma_mul_upper_bound(reserve_in as int, u64::MAX as int, reserve_out as int, u64::MAX as int);
        lemma_quotient_le_reserve(reserve_in, reserve_out, eff_wide as int);
    }
    let numerator: u128 = (reserve_in as u128) * (reserve_out as u128);
    let denominator: u128 = (reserve_in as u128) + eff_wide;
    let quotient: u128 = numerator / denominator;
    let out: u64 = reserve_out - (quotient as u64);

    Ok(SwapResult { amount_out: out, fee_charged: fee_amount })
}

} // verus!
