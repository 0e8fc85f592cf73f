//! Yield claim: pay out the gain of the user's position over its cost
//! basis, less what was already realized. The realized-yield counter
//! absorbs the gross (pre-fee) claim, so repeated claims converge instead
//! of double-counting.

use vstd::prelude::*;
use crate::errors::ExodusError;
use crate::events::YieldClaimed;
use crate::keys::Pubkey;
use crate::protocol_config::ProtocolConfig;
use crate::share_math::{bps_fee, scaled_mul, spec_bps_fee, spec_claimable, spec_scaled_mul,
    lemma_claim_absorbs_gain};
use crate::user_position::UserPosition;
use crate::yield_source::YieldSource;

verus! {

/// Current value of the user's shares at the pool's NAV.
pub open spec fn spec_position_value(pos: UserPosition, ys: YieldSource) -> int {
    spec_scaled_mul(pos.current_shares as int, ys.nav_per_share as int)
}

/// What the user can claim right now: gain over cost basis, less realized
/// yield, both floored at zero.
pub open spec fn spec_claimable_of(pos: UserPosition, ys: YieldSource) -> int {
    spec_claimable(
        spec_position_value(pos, ys),
        pos.total_deposited_usdc as int,
        pos.realized_yield_usdc as int,
    )
}

/// The first failure a claim hits, in check order; `None` means the claim
/// pays out.
pub open spec fn spec_claim_error(
    config: ProtocolConfig,
    ys: YieldSource,
    pos: UserPosition,
) -> Option<ExodusError> {
    if !config.is_active {
        Some(ExodusError::ProtocolInactive)
    } else if spec_position_value(pos, ys) > u64::MAX {
        Some(ExodusError::ArithmeticOverflow)
    } else if spec_claimable_of(pos, ys) == 0 {
        Some(ExodusError::NoYieldToClaim)
    } else if config.total_yield_earned + spec_claimable_of(pos, ys) > u64::MAX {
        Some(ExodusError::ArithmeticOverflow)
    } else {
        None
    }
}

/// Claim idempotence: once the claimable amount has been absorbed into the
/// realized-yield counter, a position with unchanged shares, NAV and cost
/// basis has nothing left to claim.
pub proof fn lemma_claim_idempotent(pos: UserPosition, ys: YieldSource)
    requires
        spec_position_value(pos, ys) <= u64::MAX,
    ensures
        spec_claimable_of(
            UserPosition {
                realized_yield_usdc: (pos.realized_yield_usdc + spec_claimable_of(pos, ys)) as u64,
                ..pos
            },
            ys,
        ) == 0,
{
    lemma_claim_absorbs_gain(
        spec_position_value(pos, ys),
        pos.total_deposited_usdc as int,
        pos.realized_yield_usdc as int,
    );
}

/// Two claims in a row with no change between them: the position a
/// successful claim leaves behind is refused with `NoYieldToClaim` by the
/// next claim, as long as the shares, the NAV and the cost basis are
/// unchanged.
pub proof fn lemma_second_claim_fails(config: ProtocolConfig, ys: YieldSource, pos: UserPosition)
    requires
        config.is_active,
        spec_position_value(pos, ys) <= u64::MAX,
    ensures
        ({
            let after = UserPosition {
                realized_yield_usdc: (pos.realized_yield_usdc + spec_claimable_of(pos, ys)) as u64,
                ..pos
            };
            spec_claim_error(config, ys, after) == Some(ExodusError::NoYieldToClaim)
        }),
{
    lemma_claim_idempotent(pos, ys);
}

/// Claim the accrued yield of the caller's position.
///
/// On `Ok` the gross claimable amount is added to the user's realized
/// yield and the protocol's yield-earned counter; the event carries the
/// gross amount, the performance fee and the net payout the host transfers
/// to the user. On `Err` nothing changed.
pub fn claim_yield(
    config: &mut ProtocolConfig,
    ys: &YieldSource,
    user_pos: &mut UserPosition,
    user: &Pubkey,
    now: i64,
) -> (r: Result<YieldClaimed, ExodusError>)
    requires
        old(config).wf(),
    ensures
        ({
            let err = spec_claim_error(*old(config), *ys, *old(user_pos));
            match r {
                Err(e) => err == Some(e) && *final(config) == *old(config) && *final(user_pos)
                    == *old(user_pos),
                Ok(ev) => {
                    let claimable = spec_claimable_of(*old(user_pos), *ys);
                    let fee = spec_bps_fee(claimable, old(config).performance_fee_bps as int);
                    &&& err is None
                    &&& *final(user_pos) == (UserPosition {
                        realized_yield_usdc: (old(user_pos).realized_yield_usdc
                            + claimable) as u64,
                        ..*old(user_pos)
                    })
                    &&& *final(config) == (ProtocolConfig {
                        total_yield_earned: (old(config).total_yield_earned + claimable) as u64,
                        updated_at: now,
                        ..*old(config)
                    })
                    &&& ev == (YieldClaimed {
                        user: *user,
                        yield_amount: claimable as u64,
                        performance_fee: fee as u64,
                        net_yield: (claimable - fee) as u64,
                        timestamp: now,
                    })
                },
            }
        }),
{
    if !config.is_active {
        return Err(ExodusError::ProtocolInactive);
    }
    let current_value = match scaled_mul(user_pos.current_shares, ys.nav_per_share) {
        Err(e) => {
            return Err(e);
        },
        Ok(v) => v,
    };
    let total_gain = current_value.saturating_sub(user_pos.total_deposited_usdc);
    let yield_amount = total_gain.saturating_sub(user_pos.realized_yield_usdc);
    if yield_amount == 0 {
        return Err(ExodusError::NoYieldToClaim);
    }
    let performance_fee = bps_fee(yield_amount, config.performance_fee_bps);
    let net_yield = yield_amount - performance_fee;

    let new_realized = match user_pos.realized_yield_usdc.checked_add(yield_amount) {
        None => {
            // yield_amount never exceeds the gain still unrealized, so the
            // sum stays within the position value, which fits.
            return Err(ExodusError::ArithmeticOverflow);
        },
        Some(v) => v,
    };
    let new_total_yield = match config.total_yield_earned.checked_add(yield_amount) {
        None => {
            return Err(ExodusError::ArithmeticOverflow);
        },
        Some(v) => v,
    };

    user_pos.realized_yield_usdc = new_realized;
    config.total_yield_earned = new_total_yield;
    config.updated_at = now;

    Ok(
        YieldClaimed {
            user: *user,
            yield_amount,
            performance_fee,
            net_yield,
            timestamp: now,
        },
    )
}

} // verus!
