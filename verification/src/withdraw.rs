//! Withdrawal: burn shares at the current NAV and pay out the redemption
//! value. Pool deposit-value totals absorb NAV-drift rounding by
//! saturating; the user's share balance is checked and never goes
//! negative.

use vstd::prelude::*;
use crate::errors::ExodusError;
use crate::events::WithdrawalExecuted;
use crate::keys::Pubkey;
use crate::protocol_config::ProtocolConfig;
use crate::share_math::{scaled_mul, spec_scaled_mul};
use crate::user_position::UserPosition;
use crate::yield_source::YieldSource;

verus! {

/// USDC paid out for `shares` at the pool's NAV.
pub open spec fn spec_withdraw_value(shares: u64, nav: u64) -> int {
    spec_scaled_mul(shares as int, nav as int)
}

/// The first failure a withdrawal hits, in check order; `None` means the
/// withdrawal goes through.
pub open spec fn spec_withdraw_error(
    config: ProtocolConfig,
    ys: YieldSource,
    pos: UserPosition,
    shares: u64,
) -> Option<ExodusError> {
    if !config.is_active {
        Some(ExodusError::ProtocolInactive)
    } else if shares == 0 {
        Some(ExodusError::ZeroAmount)
    } else if pos.current_shares < shares {
        Some(ExodusError::InsufficientShares)
    } else if spec_withdraw_value(shares, ys.nav_per_share) > u64::MAX {
        Some(ExodusError::ArithmeticOverflow)
    } else if ys.total_shares < shares {
        Some(ExodusError::ArithmeticOverflow)
    } else if pos.withdrawal_count == u32::MAX {
        Some(ExodusError::ArithmeticOverflow)
    } else {
        None
    }
}

/// Redeem `shares` for `floor(shares * nav / 1e6)` USDC.
///
/// The `_withdraw_as_jpy` flag is accepted for interface compatibility but
/// the payout is always USDC; a reverse conversion is not part of this
/// core. The host transfers the USDC to the user only when this returns
/// `Ok`; on `Err` nothing changed.
pub fn withdraw(
    config: &mut ProtocolConfig,
    ys: &mut YieldSource,
    user_pos: &mut UserPosition,
    user: &Pubkey,
    shares: u64,
    _withdraw_as_jpy: bool,
    now: i64,
) -> (r: Result<WithdrawalExecuted, ExodusError>)
    ensures
        ({
            let err = spec_withdraw_error(*old(config), *old(ys), *old(user_pos), shares);
            match r {
                Err(e) => err == Some(e) && *final(config) == *old(config) && *final(ys) == *old(
                    ys,
                ) && *final(user_pos) == *old(user_pos),
                Ok(ev) => {
                    let usdc_out = spec_withdraw_value(shares, old(ys).nav_per_share);
                    &&& err is None
                    &&& *final(ys) == (YieldSource {
                        total_shares: (old(ys).total_shares - shares) as u64,
                        total_deposited: if old(ys).total_deposited >= usdc_out {
                            (old(ys).total_deposited - usdc_out) as u64
                        } else {
                            0u64
                        },
                        ..*old(ys)
                    })
                    &&& *final(user_pos) == (UserPosition {
                        current_shares: (old(user_pos).current_shares - shares) as u64,
                        withdrawal_count: (old(user_pos).withdrawal_count + 1) as u32,
                        last_withdrawal_at: now,
                        ..*old(user_pos)
                    })
                    &&& *final(config) == (ProtocolConfig {
                        total_deposits_usdc: if old(config).total_deposits_usdc >= usdc_out {
                            (old(config).total_deposits_usdc - usdc_out) as u64
                        } else {
                            0u64
                        },
                        updated_at: now,
                        ..*old(config)
                    })
                    &&& ev == (WithdrawalExecuted {
                        user: *user,
                        shares_burned: shares,
                        usdc_received: usdc_out as u64,
                        timestamp: now,
                    })
                },
            }
        }),
{
    if !config.is_active {
        return Err(ExodusError::ProtocolInactive);
    }
    if shares == 0 {
        return Err(ExodusError::ZeroAmount);
    }
    if user_pos.current_shares < shares {
        return Err(ExodusError::InsufficientShares);
    }
    let usdc_out = match scaled_mul(shares, ys.nav_per_share) {
        Err(e) => {
            return Err(e);
        },
        Ok(v) => v,
    };
    let new_ys_shares = match ys.total_shares.checked_sub(shares) {
        None => {
            return Err(ExodusError::ArithmeticOverflow);
        },
        Some(v) => v,
    };
    let new_count = match user_pos.withdrawal_count.checked_add(1) {
        None => {
            return Err(ExodusError::ArithmeticOverflow);
        },
        Some(v) => v,
    };

    ys.total_shares = new_ys_shares;
    ys.total_deposited = ys.total_deposited.saturating_sub(usdc_out);

    user_pos.current_shares = user_pos.current_shares - shares;
    user_pos.withdrawal_count = new_count;
    user_pos.last_withdrawal_at = now;

    config.total_deposits_usdc = config.total_deposits_usdc.saturating_sub(usdc_out);
    config.updated_at = now;

    Ok(WithdrawalExecuted { user: *user, shares_burned: shares, usdc_received: usdc_out, timestamp: now })
}

} // verus!
