use vstd::prelude::*;
use vstd::arithmetic::div_mod::{lemma_div_is_ordered, lemma_div_multiples_vanish};
use vstd::arithmetic::mul::{lemma_mul_inequality, lemma_mul_is_commutative, lemma_mul_upper_bound};

use crate::error::ErrorCode;

verus! {

/// Slippage tolerances are fractions of this scale: a tolerance of
/// `SLIPPAGE_SCALE` points is 100 percent.
pub const SLIPPAGE_SCALE: u64 = 10_000;

/// The buy-side guard: the most the initiator will pay for the requested
/// amount, `cost * (1 + slippage)` truncated toward zero.
pub open spec fn spec_buy_bound(cost: u64, slippage_points: u64) -> int {
    cost * (SLIPPAGE_SCALE + slippage_points) / (SLIPPAGE_SCALE as int)
}

/// The sell-side guard: the least the initiator will accept for the
/// expected receipt, `receipt * (1 - slippage)` truncated toward zero.
/// A tolerance of 100 percent or more floors the guard at zero; that
/// degenerate case opts into unconditional execution and is kept, not
/// rejected.
pub open spec fn spec_sell_bound(receipt: u64, slippage_points: u64) -> int {
    if slippage_points >= SLIPPAGE_SCALE {
        0
    } else {
        receipt * (SLIPPAGE_SCALE - slippage_points) / (SLIPPAGE_SCALE as int)
    }
}

/// Computes the buy-side guard value, or `ArithmeticOverflow` when it
/// does not fit in 64 bits.
pub fn buy_max_cost(cost: u64, slippage_points: u64) -> (r: Result<u64, ErrorCode>)
    requires
        slippage_points <= SLIPPAGE_SCALE,
    ensures
        r is Ok <==> spec_buy_bound(cost, slippage_points) <= u64::MAX,
        r is Ok ==> r->Ok_0 == spec_buy_bound(cost, slippage_points),
        r is Err ==> r->Err_0 == ErrorCode::ArithmeticOverflow,
{
    proof {
        lemma_mul_upper_bound(
            cost as int,
            u64::MAX as int,
            SLIPPAGE_SCALE + slippage_points,
            2 * SLIPPAGE_SCALE as int,
        );
    }
    let wide: u128 = (cost as u128) * ((SLIPPAGE_SCALE + slippage_points) as u128) / (
    SLIPPAGE_SCALE as u128);
    if wide > u64::MAX as u128 {
        Err(ErrorCode::ArithmeticOverflow)
    } else {
        Ok(wide as u64)
    }
}

/// Computes the sell-side guard value; never overflows, since the guard
/// never exceeds the expected receipt.
pub fn sell_min_receipt(receipt: u64, slippage_points: u64) -> (r: u64)
    ensures
        r == spec_sell_bound(receipt, slippage_points),
{
    if slippage_points >= SLIPPAGE_SCALE {
        return 0;
    }
    proof {
        lemma_mul_upper_bound(
            receipt as int,
            u64::MAX as int,
            (SLIPPAGE_SCALE - slippage_points) as int,
            SLIPPAGE_SCALE as int,
        );
        lemma_sell_bound_within_receipt(receipt, slippage_points);
    }
    let wide: u128 = (receipt as u128) * ((SLIPPAGE_SCALE - slippage_points) as u128) / (
    SLIPPAGE_SCALE as u128);
    wide as u64
}

/// Law: for any slippage tolerance the buy-side guard is at least the
/// requested cost, and equals it exactly when the tolerance is zero —
/// the direction that keeps a buy from executing at unbounded cost.
pub proof fn lemma_buy_bound_covers_cost(cost: u64, slippage_points: u64)
    ensures
        spec_buy_bound(cost, slippage_points) >= cost,
        slippage_points == 0 ==> spec_buy_bound(cost, slippage_points) == cost,
{
    let scale = SLIPPAGE_SCALE as int;
    lemma_mul_inequality(scale, scale + slippage_points, cost as int);
    lemma_mul_is_commutative(cost as int, scale);
    lemma_mul_is_commutative(cost as int, scale + slippage_points);
    lemma_div_is_ordered(cost * scale, cost * (scale + slippage_points), scale);
    lemma_mul_is_commutative(cost as int, scale);
    lemma_div_multiples_vanish(cost as int, scale);
}

/// Law: for any slippage tolerance the sell-side guard is between zero
/// and the expected receipt, and equals the receipt exactly when the
/// tolerance is zero — the direction that keeps a sell from executing at
/// unbounded loss.
pub proof fn lemma_sell_bound_within_receipt(receipt: u64, slippage_points: u64)
    ensures
        0 <= spec_sell_bound(receipt, slippage_points) <= receipt,
        slippage_points == 0 ==> spec_sell_bound(receipt, slippage_points) == receipt,
{
    let scale = SLIPPAGE_SCALE as int;
    if slippage_points < SLIPPAGE_SCALE {
        vstd::arithmetic::div_mod::lemma_div_pos_is_pos(
            receipt * (scale - slippage_points),
            scale,
        );
        lemma_mul_inequality(scale - slippage_points, scale, receipt as int);
        lemma_mul_is_commutative(receipt as int, scale - slippage_points);
        lemma_mul_is_commutative(receipt as int, scale);
        lemma_div_is_ordered(receipt * (scale - slippage_points), receipt * scale, scale);
        lemma_div_multiples_vanish(receipt as int, scale);
    }
}

} // verus!
