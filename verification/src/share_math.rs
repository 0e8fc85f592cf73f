//! Fixed-point share and fee arithmetic. All amounts are integers in minor
//! units (scale 1e6); every multiply widens to 128 bits before dividing and
//! the result is narrowed back only when it fits, so nothing wraps or
//! saturates silently.

use vstd::prelude::*;
use vstd::arithmetic::div_mod::{lemma_div_is_ordered, lemma_div_multiples_vanish,
    lemma_fundamental_div_mod, lemma_mod_division_less_than_divisor};
use vstd::arithmetic::mul::lemma_mul_inequality;
use crate::errors::ExodusError;

verus! {

/// Fixed-point scale: NAV 1_000_000 means one share is worth exactly one
/// unit of the reference asset.
pub const NAV_SCALE: u64 = 1_000_000;

/// Basis-point denominator.
pub const BPS_DENOMINATOR: u64 = 10_000;

/// `amount * 1e6 / divisor`, truncating. Shares issued for a deposit at a
/// given NAV, and the gross output of a fiat conversion at a given rate.
pub open spec fn spec_scaled_div(amount: int, divisor: int) -> int
    recommends
        divisor >= 1,
{
    amount * (NAV_SCALE as int) / divisor
}

/// `a * b / 1e6`, truncating. The redemption value of shares at a NAV.
pub open spec fn spec_scaled_mul(a: int, b: int) -> int {
    a * b / (NAV_SCALE as int)
}

/// `amount * bps / 10_000`, truncating: a basis-point fee.
pub open spec fn spec_bps_fee(amount: int, bps: int) -> int {
    amount * bps / (BPS_DENOMINATOR as int)
}

/// Widening multiply by the scale, divide, narrow back checked.
pub fn scaled_div(amount: u64, divisor: u64) -> (r: Result<u64, ExodusError>)
    requires
        divisor >= 1,
    ensures
        match r {
            Ok(v) => v == spec_scaled_div(amount as int, divisor as int),
            Err(e) => e == ExodusError::ArithmeticOverflow && spec_scaled_div(
                amount as int,
                divisor as int,
            ) > u64::MAX,
        },
{
    let wide: u128 = (amount as u128) * (NAV_SCALE as u128);
    let q: u128 = wide / (divisor as u128);
    if q > u64::MAX as u128 {
        Err(ExodusError::ArithmeticOverflow)
    } else {
        Ok(q as u64)
    }
}

/// Widening multiply, divide by the scale, narrow back checked.
pub fn scaled_mul(a: u64, b: u64) -> (r: Result<u64, ExodusError>)
    ensures
        match r {
            Ok(v) => v == spec_scaled_mul(a as int, b as int),
            Err(e) => e == ExodusError::ArithmeticOverflow && spec_scaled_mul(a as int, b as int)
                > u64::MAX,
        },
{
    proof {
        vstd::arithmetic::mul::lemma_mul_upper_bound(
            a as int,
            u64::MAX as int,
            b as int,
            u64::MAX as int,
        );
    }
    let wide: u128 = (a as u128) * (b as u128);
    let q: u128 = wide / (NAV_SCALE as u128);
    if q > u64::MAX as u128 {
        Err(ExodusError::ArithmeticOverflow)
    } else {
        Ok(q as u64)
    }
}

/// A basis-point fee never exceeds the amount it is taken from, so the
/// narrowing cast and the later subtraction are safe.
pub proof fn lemma_bps_fee_bounded(amount: int, bps: int)
    requires
        amount >= 0,
        0 <= bps <= BPS_DENOMINATOR,
    ensures
        0 <= spec_bps_fee(amount, bps) <= amount,
{
    let d = BPS_DENOMINATOR as int;
    lemma_mul_inequality(bps, d, amount);
    assert(amount * bps == bps * amount) by (nonlinear_arith);
    assert(d * amount == amount * d) by (nonlinear_arith);
    lemma_div_is_ordered(amount * bps, d * amount, d);
    lemma_div_multiples_vanish(amount, d);
    assert(amount * bps >= 0) by (nonlinear_arith)
        requires
            amount >= 0,
            bps >= 0,
    ;
    lemma_div_is_ordered(0, amount * bps, d);
}

/// `amount * bps / 10_000`: the conversion or performance fee.
pub fn bps_fee(amount: u64, bps: u16) -> (r: u64)
    requires
        bps <= BPS_DENOMINATOR,
    ensures
        r == spec_bps_fee(amount as int, bps as int),
        r <= amount,
{
    proof {
        lemma_bps_fee_bounded(amount as int, bps as int);
    }
    let wide: u128 = (amount as u128) * (bps as u128);
    let q: u128 = wide / (BPS_DENOMINATOR as u128);
    q as u64
}

/// Round-trip share math: shares bought with `amount` at a NAV, redeemed
/// at the same NAV, never return more than `amount` (the floor is taken in
/// both directions).
pub proof fn lemma_share_round_trip(amount: int, nav: int)
    requires
        amount >= 0,
        nav >= 1,
    ensures
        0 <= spec_scaled_mul(spec_scaled_div(amount, nav), nav) <= amount,
{
    let scale = NAV_SCALE as int;
    let s = amount * scale / nav;
    // s * nav <= amount * scale, because s is the floor of the quotient.
    lemma_fundamental_div_mod(amount * scale, nav);
    lemma_mod_division_less_than_divisor(amount * scale, nav);
    assert(amount * scale >= 0) by (nonlinear_arith)
        requires
            amount >= 0,
            scale > 0,
    ;
    assert(nav * s <= amount * scale);
    assert(s * nav == nav * s) by (nonlinear_arith);
    lemma_div_is_ordered(s * nav, amount * scale, scale);
    assert(amount * scale == scale * amount) by (nonlinear_arith);
    lemma_div_multiples_vanish(amount, scale);
    assert(s >= 0) by {
        lemma_div_is_ordered(0, amount * scale, nav);
    }
    assert(s * nav >= 0) by (nonlinear_arith)
        requires
            s >= 0,
            nav >= 1,
    ;
    lemma_div_is_ordered(0, s * nav, scale);
}

/// Claimable yield at a position value: the gain over cost basis, floored
/// at zero, less what was already realized, floored at zero.
pub open spec fn spec_claimable(value: int, cost_basis: int, realized: int) -> int {
    let gain = if value > cost_basis {
        value - cost_basis
    } else {
        0
    };
    if gain > realized {
        gain - realized
    } else {
        0
    }
}

/// Claiming absorbs the whole gain: once the claimable amount is added to
/// the realized-yield counter, a second claim at the same value and cost
/// basis has nothing left to pay out.
pub proof fn lemma_claim_absorbs_gain(value: int, cost_basis: int, realized: int)
    requires
        realized >= 0,
    ensures
        spec_claimable(value, cost_basis, realized + spec_claimable(value, cost_basis, realized))
            == 0,
{
}

} // verus!
