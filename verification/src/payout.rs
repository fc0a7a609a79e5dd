//! Pro-rata payout arithmetic: floor division throughout, overflow reported.
use crate::errors::{EscrowError, Refusal};
use crate::types::{BPS_DENOMINATOR, MAX_INVOICE_AMOUNT, MAX_YIELD_BPS};
use crate::wide::mul_div_signed;
use vstd::prelude::*;

verus! {

/// Whether `x` is an `i128`.
pub open spec fn fits(x: int) -> bool {
    i128::MIN <= x <= i128::MAX
}

/// `x / d` rounded towards zero, for a positive `d`.
pub open spec fn truncated(x: int, d: int) -> int {
    if x >= 0 {
        x / d
    } else {
        -((-x) / d)
    }
}

/// The coupon on `total` at `yield_bps`.
pub open spec fn coupon(total: int, yield_bps: int) -> int {
    truncated(total * yield_bps, BPS_DENOMINATOR as int)
}

/// Principal and coupon together.
pub open spec fn settle_pool(total: int, yield_bps: int) -> int {
    total + coupon(total, yield_bps)
}

/// An investor's share of the pool.
pub open spec fn gross_payout(contribution: int, total: int, yield_bps: int) -> int {
    truncated(contribution * settle_pool(total, yield_bps), total)
}

/// Whether the coupon product, the pool and the payout are `i128`s. The product of contribution and
/// pool need not be one.
pub open spec fn payout_fits(contribution: int, total: int, yield_bps: int) -> bool {
    &&& fits(total * yield_bps)
    &&& fits(settle_pool(total, yield_bps))
    &&& fits(gross_payout(contribution, total, yield_bps))
}

/// The pro-rata payout, or [`EscrowError::ComputePayoutArithmeticOverflow`] where the coupon
/// product, the pool or the payout overflows.
pub open spec fn payout_result(contribution: int, total: int, yield_bps: int) -> Result<
    i128,
    Refusal,
> {
    if payout_fits(contribution, total, yield_bps) {
        Ok(gross_payout(contribution, total, yield_bps) as i128)
    } else {
        Err(Refusal::Error(EscrowError::ComputePayoutArithmeticOverflow))
    }
}

proof fn lemma_truncated_shrinks(x: int, d: int)
    requires
        d >= 1,
    ensures
        x >= 0 ==> 0 <= truncated(x, d) <= x,
        x < 0 ==> x <= truncated(x, d) <= 0,
{
    let a = if x >= 0 {
        x
    } else {
        -x
    };
    assert(0 <= a / d <= a) by (nonlinear_arith)
        requires
            a >= 0,
            d >= 1,
    ;
}

/// The pro-rata payout of a contribution to `total` at `yield_bps`.
pub fn pro_rata_payout(contribution: i128, total: i128, yield_bps: i64) -> (r: Result<
    i128,
    Refusal,
>)
    requires
        total > 0,
    ensures
        r == payout_result(contribution as int, total as int, yield_bps as int),
        r matches Ok(payout) ==> payout == gross_payout(
            contribution as int,
            total as int,
            yield_bps as int,
        ),
{
    let overflow: Refusal = Refusal::Error(EscrowError::ComputePayoutArithmeticOverflow);
    let product: i128 = match total.checked_mul(yield_bps as i128) {
        Some(product) => product,
        None => {
            return Err(overflow);
        },
    };
    proof {
        lemma_truncated_shrinks(total * yield_bps, BPS_DENOMINATOR as int);
    }
    let coupon: i128 = match product.checked_div(BPS_DENOMINATOR) {
        Some(coupon) => coupon,
        None => {
            return Err(overflow);
        },
    };
    assert(coupon == self::coupon(total as int, yield_bps as int));
    let settle_pool: i128 = match total.checked_add(coupon) {
        Some(settle_pool) => settle_pool,
        None => {
            return Err(overflow);
        },
    };
    match mul_div_signed(contribution, settle_pool, total) {
        Some(payout) => Ok(payout),
        None => Err(overflow),
    }
}

proof fn lemma_truncated_times(x: int, d: int)
    requires
        x >= 0,
        d >= 1,
    ensures
        d * truncated(x, d) <= x,
        x < d * truncated(x, d) + d,
{
    assert(d * (x / d) <= x < d * (x / d) + d) by (nonlinear_arith)
        requires
            x >= 0,
            d >= 1,
    ;
}

proof fn lemma_truncated_ordered(x: int, y: int, d: int)
    requires
        0 <= x <= y,
        d >= 1,
    ensures
        truncated(x, d) <= truncated(y, d),
{
    lemma_truncated_times(x, d);
    lemma_truncated_times(y, d);
    let a = truncated(x, d);
    let b = truncated(y, d);
    assert(a <= b) by (nonlinear_arith)
        requires
            d * a <= x,
            x <= y,
            y < d * b + d,
            d >= 1,
    ;
}

/// A higher yield makes no smaller pool, and no pool is smaller than the principal.
pub proof fn lemma_pool_grows_with_yield(total: int, yield_bps: int, higher_bps: int)
    requires
        total >= 0,
        0 <= yield_bps <= higher_bps,
    ensures
        total <= settle_pool(total, yield_bps) <= settle_pool(total, higher_bps),
{
    assert(0 <= total * yield_bps <= total * higher_bps) by (nonlinear_arith)
        requires
            total >= 0,
            0 <= yield_bps <= higher_bps,
    ;
    lemma_truncated_ordered(total * yield_bps, total * higher_bps, BPS_DENOMINATOR as int);
    lemma_truncated_shrinks(total * yield_bps, BPS_DENOMINATOR as int);
}

/// Nobody is paid less than the principal contributed.
pub proof fn lemma_payout_returns_principal(contribution: int, total: int, yield_bps: int)
    requires
        contribution >= 0,
        total > 0,
        yield_bps >= 0,
    ensures
        gross_payout(contribution, total, yield_bps) >= contribution,
{
    let pool = settle_pool(total, yield_bps);
    lemma_pool_grows_with_yield(total, yield_bps, yield_bps);
    assert(contribution * pool >= contribution * total && contribution * pool >= 0)
        by (nonlinear_arith)
        requires
            contribution >= 0,
            pool >= total,
            total > 0,
    ;
    lemma_truncated_times(contribution * pool, total);
    let payout = gross_payout(contribution, total, yield_bps);
    assert(payout >= contribution) by (nonlinear_arith)
        requires
            contribution * pool >= contribution * total,
            contribution * pool < total * payout + total,
            total > 0,
    ;
}

/// A higher yield pays no less.
pub proof fn lemma_higher_yield_pays_no_less(
    contribution: int,
    total: int,
    yield_bps: int,
    higher_bps: int,
)
    requires
        contribution >= 0,
        total > 0,
        0 <= yield_bps <= higher_bps,
    ensures
        gross_payout(contribution, total, yield_bps) <= gross_payout(
            contribution,
            total,
            higher_bps,
        ),
{
    let pool = settle_pool(total, yield_bps);
    let larger = settle_pool(total, higher_bps);
    lemma_pool_grows_with_yield(total, yield_bps, higher_bps);
    assert(0 <= contribution * pool <= contribution * larger) by (nonlinear_arith)
        requires
            contribution >= 0,
            0 <= pool <= larger,
    ;
    lemma_truncated_ordered(contribution * pool, contribution * larger, total);
}

/// No share times the principal exceeds the contribution's part of the pool at a yield that is not
/// lower.
pub proof fn lemma_payout_within_share(
    contribution: int,
    total: int,
    yield_bps: int,
    highest_bps: int,
)
    requires
        contribution >= 0,
        total > 0,
        0 <= yield_bps <= highest_bps,
    ensures
        total * gross_payout(contribution, total, yield_bps) <= contribution * settle_pool(
            total,
            highest_bps,
        ),
        gross_payout(contribution, total, yield_bps) >= 0,
{
    let pool = settle_pool(total, yield_bps);
    let larger = settle_pool(total, highest_bps);
    lemma_pool_grows_with_yield(total, yield_bps, highest_bps);
    assert(0 <= contribution * pool <= contribution * larger) by (nonlinear_arith)
        requires
            contribution >= 0,
            0 <= pool <= larger,
    ;
    lemma_truncated_times(contribution * pool, total);
    lemma_truncated_shrinks(contribution * pool, total);
}

/// For a principal and a contribution of at most [`MAX_INVOICE_AMOUNT`] and a yield in its bounds,
/// neither the coupon nor the pool nor the payout overflows: the payout is at most twice the
/// contribution.
pub proof fn lemma_payout_does_not_overflow(contribution: int, total: int, yield_bps: int)
    requires
        0 <= contribution <= MAX_INVOICE_AMOUNT,
        0 < total <= MAX_INVOICE_AMOUNT,
        0 <= yield_bps <= MAX_YIELD_BPS,
    ensures
        payout_result(contribution, total, yield_bps) == Ok::<i128, Refusal>(
            gross_payout(contribution, total, yield_bps) as i128,
        ),
        fits(gross_payout(contribution, total, yield_bps)),
        gross_payout(contribution, total, yield_bps) <= 2 * contribution,
        settle_pool(total, yield_bps) <= 2 * total,
{
    assert(0 <= total * yield_bps <= total * 10_000) by (nonlinear_arith)
        requires
            0 <= total,
            0 <= yield_bps <= 10_000,
    ;
    lemma_truncated_shrinks(total * yield_bps, BPS_DENOMINATOR as int);
    lemma_truncated_times(total * yield_bps, BPS_DENOMINATOR as int);
    let part = coupon(total, yield_bps);
    assert(BPS_DENOMINATOR as int * part <= total * 10_000);
    let pool = settle_pool(total, yield_bps);
    assert(0 <= contribution * pool <= contribution * (2 * total)) by (nonlinear_arith)
        requires
            0 <= contribution,
            0 <= pool <= 2 * total,
    ;
    lemma_truncated_times(contribution * pool, total);
    lemma_truncated_shrinks(contribution * pool, total);
    let payout = gross_payout(contribution, total, yield_bps);
    assert(payout <= 2 * contribution) by (nonlinear_arith)
        requires
            total * payout <= contribution * (2 * total),
            0 < total,
    ;
}

/// Payouts that together stay within the part that `funded` has of the pool of `total` stay within
/// the pool of `funded`.
pub proof fn lemma_share_within_pool(total: int, funded: int, yield_bps: int, sum: int)
    requires
        total > 0,
        funded >= 0,
        yield_bps >= 0,
        total * sum <= funded * settle_pool(total, yield_bps),
    ensures
        sum <= settle_pool(funded, yield_bps),
{
    let part = coupon(total, yield_bps);
    assert(0 <= total * yield_bps && 0 <= funded * yield_bps) by (nonlinear_arith)
        requires
            total > 0,
            funded >= 0,
            yield_bps >= 0,
    ;
    lemma_truncated_times(total * yield_bps, BPS_DENOMINATOR as int);
    lemma_truncated_times(funded * yield_bps, BPS_DENOMINATOR as int);
    assert(10_000 * (sum - funded) <= funded * yield_bps) by (nonlinear_arith)
        requires
            total > 0,
            funded >= 0,
            total * sum <= funded * (total + part),
            10_000 * part <= total * yield_bps,
    {
        assert(total * (10_000 * (sum - funded)) <= funded * (10_000 * part)) by (nonlinear_arith)
            requires
                total * sum <= funded * (total + part),
        ;
        assert(funded * (10_000 * part) <= funded * (total * yield_bps)) by (nonlinear_arith)
            requires
                funded >= 0,
                10_000 * part <= total * yield_bps,
        ;
        assert(funded * (total * yield_bps) == total * (funded * yield_bps)) by (nonlinear_arith);
        assert(10_000 * (sum - funded) <= funded * yield_bps) by (nonlinear_arith)
            requires
                total > 0,
                total * (10_000 * (sum - funded)) <= total * (funded * yield_bps),
        ;
    }
}

} // verus!
