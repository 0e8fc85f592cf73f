//! Intake operations: a fiat (JPY) deposit that queues a pending
//! conversion, and a direct stable-asset (USDC) deposit that buys pool
//! shares immediately. Either operation commits all of its state changes or
//! none: every check runs before the first write.

use vstd::prelude::*;
use crate::deposit::DepositStatus;
use crate::errors::ExodusError;
use crate::events::{DepositInitiated, DirectUsdcDeposit};
use crate::keys::Pubkey;
use crate::pending_deposit::{EXPIRY_SECONDS, PendingDeposit};
use crate::protocol_config::ProtocolConfig;
use crate::records::{read_sovereign_tier, spec_read_sovereign_tier, spec_validate_kyc,
    validate_kyc};
use crate::share_math::{scaled_div, spec_scaled_div};
use crate::tier::{monthly_jpy_limit, monthly_usdc_limit, source_allowed, spec_monthly_jpy_limit,
    spec_monthly_usdc_limit, spec_source_allowed};
use crate::user_position::UserPosition;
use crate::yield_source::YieldSource;

verus! {

/// Authorization and tier gate shared by both intake paths: the KYC entry
/// must pass, the tier record must resolve, and the tier must not be the
/// unverified zero tier.
pub open spec fn spec_intake_tier(wl: Seq<u8>, sov: Seq<u8>, user: Seq<u8>, now: i64) -> Result<
    u8,
    ExodusError,
> {
    match spec_validate_kyc(wl, user, now) {
        Err(e) => Err(e),
        Ok(u) => match spec_read_sovereign_tier(sov, user) {
            Err(e) => Err(e),
            Ok(tier) => if tier == 0 {
                Err(ExodusError::TierTooLow)
            } else {
                Ok(tier)
            },
        },
    }
}

/// A lazily created position: the first intake stamps owner, ledger
/// reference and window start.
pub open spec fn spec_position_initialized(
    pos: UserPosition,
    user: Pubkey,
    config_key: Pubkey,
    now: i64,
) -> UserPosition {
    if pos.created_at == 0 {
        UserPosition { owner: user, protocol_config: config_key, created_at: now, month_start: now, ..pos }
    } else {
        pos
    }
}

/// The position every intake path reasons over: lazily created, then the
/// rolling window lazily reset.
pub open spec fn spec_pos_for_intake(
    pos: UserPosition,
    user: Pubkey,
    config_key: Pubkey,
    now: i64,
) -> UserPosition {
    spec_position_initialized(pos, user, config_key, now).spec_after_monthly_reset(now)
}

/// The first failure a JPY intake hits, in check order; `None` means the
/// deposit goes through.
pub open spec fn spec_deposit_jpy_error(
    config: ProtocolConfig,
    pos: UserPosition,
    user: Pubkey,
    config_key: Pubkey,
    wl: Seq<u8>,
    sov: Seq<u8>,
    jpy_amount: u64,
    now: i64,
) -> Option<ExodusError> {
    if !config.is_active {
        Some(ExodusError::ProtocolInactive)
    } else if jpy_amount == 0 {
        Some(ExodusError::ZeroAmount)
    } else {
        match spec_intake_tier(wl, sov, user@, now) {
            Err(e) => Some(e),
            Ok(tier) => {
                let q = spec_pos_for_intake(pos, user, config_key, now);
                if q.monthly_deposited_jpy + jpy_amount > u64::MAX {
                    Some(ExodusError::ArithmeticOverflow)
                } else if q.monthly_deposited_jpy + jpy_amount > spec_monthly_jpy_limit(tier) {
                    Some(ExodusError::MonthlyLimitExceeded)
                } else if config.deposit_nonce == u64::MAX {
                    Some(ExodusError::ArithmeticOverflow)
                } else if q.total_deposited_jpy + jpy_amount > u64::MAX {
                    Some(ExodusError::ArithmeticOverflow)
                } else if q.deposit_count == u32::MAX {
                    Some(ExodusError::ArithmeticOverflow)
                } else if config.pending_jpy_conversion + jpy_amount > u64::MAX {
                    Some(ExodusError::ArithmeticOverflow)
                } else {
                    None
                }
            },
        }
    }
}

/// The user position after a successful JPY intake.
pub open spec fn spec_pos_after_deposit_jpy(
    pos: UserPosition,
    user: Pubkey,
    config_key: Pubkey,
    tier: u8,
    jpy_amount: u64,
    nonce: u64,
    now: i64,
) -> UserPosition {
    let q = spec_pos_for_intake(pos, user, config_key, now);
    UserPosition {
        sovereign_tier: tier,
        monthly_deposited_jpy: (q.monthly_deposited_jpy + jpy_amount) as u64,
        total_deposited_jpy: (q.total_deposited_jpy + jpy_amount) as u64,
        deposit_count: (q.deposit_count + 1) as u32,
        last_deposit_at: now,
        deposit_nonce: nonce,
        ..q
    }
}

/// Fiat intake: validate authorization, tier and the rolling monthly limit,
/// then queue a `Pending` conversion carrying the caller's slippage floor
/// and a 24-hour expiry. No shares are issued yet. The host moves the JPY
/// into custody only when this returns `Ok`; on `Err` nothing changed.
pub fn deposit_jpy(
    config: &mut ProtocolConfig,
    user_pos: &mut UserPosition,
    user: &Pubkey,
    config_key: &Pubkey,
    whitelist_data: &[u8],
    sovereign_data: &[u8],
    jpy_amount: u64,
    min_usdc_out: u64,
    now: i64,
) -> (r: Result<(PendingDeposit, DepositInitiated), ExodusError>)
    requires
        0 <= old(user_pos).month_start <= now,
        old(user_pos).created_at == 0 ==> old(user_pos).monthly_deposited_jpy == 0
            && old(user_pos).monthly_deposited_usdc == 0,
        now <= i64::MAX - EXPIRY_SECONDS,
    ensures
        ({
            let err = spec_deposit_jpy_error(
                *old(config),
                *old(user_pos),
                *user,
                *config_key,
                whitelist_data@,
                sovereign_data@,
                jpy_amount,
                now,
            );
            match r {
                Err(e) => err == Some(e) && *final(config) == *old(config) && *final(user_pos)
                    == *old(user_pos),
                Ok((pending, ev)) => {
                    let tier = spec_intake_tier(
                        whitelist_data@,
                        sovereign_data@,
                        user@,
                        now,
                    )->Ok_0;
                    let nonce = (old(config).deposit_nonce + 1) as u64;
                    &&& err is None
                    &&& final(user_pos).monthly_deposited_jpy <= spec_monthly_jpy_limit(tier)
                    &&& *final(user_pos) == spec_pos_after_deposit_jpy(
                        *old(user_pos),
                        *user,
                        *config_key,
                        tier,
                        jpy_amount,
                        nonce,
                        now,
                    )
                    &&& *final(config) == (ProtocolConfig {
                        deposit_nonce: nonce,
                        pending_jpy_conversion: (old(config).pending_jpy_conversion
                            + jpy_amount) as u64,
                        updated_at: now,
                        ..*old(config)
                    })
                    &&& pending == (PendingDeposit {
                        user: *user,
                        protocol_config: *config_key,
                        jpy_amount,
                        min_usdc_out,
                        deposited_at: now,
                        expires_at: (now + EXPIRY_SECONDS) as i64,
                        status: DepositStatus::Pending,
                        conversion_rate: 0,
                        usdc_received: 0,
                        fee_paid: 0,
                        nonce,
                    })
                    &&& ev == (DepositInitiated {
                        user: *user,
                        jpy_amount,
                        min_usdc_out,
                        nonce,
                        timestamp: now,
                    })
                },
            }
        }),
{
    if !config.is_active {
        return Err(ExodusError::ProtocolInactive);
    }
    if jpy_amount == 0 {
        return Err(ExodusError::ZeroAmount);
    }
    match validate_kyc(whitelist_data, user, now) {
        Err(e) => {
            return Err(e);
        },
        Ok(_) => {},
    }
    let tier = match read_sovereign_tier(sovereign_data, user) {
        Err(e) => {
            return Err(e);
        },
        Ok(t) => t,
    };
    if tier == 0 {
        return Err(ExodusError::TierTooLow);
    }

    let mut pos = *user_pos;
    if pos.created_at == 0 {
        pos.owner = *user;
        pos.protocol_config = *config_key;
        pos.created_at = now;
        pos.month_start = now;
    }
    pos.maybe_reset_monthly(now);
    pos.sovereign_tier = tier;

    let limit = monthly_jpy_limit(tier);
    let new_monthly = match pos.monthly_deposited_jpy.checked_add(jpy_amount) {
        None => {
            return Err(ExodusError::ArithmeticOverflow);
        },
        Some(v) => v,
    };
    if new_monthly > limit {
        return Err(ExodusError::MonthlyLimitExceeded);
    }
    let nonce = match config.deposit_nonce.checked_add(1) {
        None => {
            return Err(ExodusError::ArithmeticOverflow);
        },
        Some(v) => v,
    };
    let new_total = match pos.total_deposited_jpy.checked_add(jpy_amount) {
        None => {
            return Err(ExodusError::ArithmeticOverflow);
        },
        Some(v) => v,
    };
    let new_count = match pos.deposit_count.checked_add(1) {
        None => {
            return Err(ExodusError::ArithmeticOverflow);
        },
        Some(v) => v,
    };
    let new_pending_total = match config.pending_jpy_conversion.checked_add(jpy_amount) {
        None => {
            return Err(ExodusError::ArithmeticOverflow);
        },
        Some(v) => v,
    };

    pos.monthly_deposited_jpy = new_monthly;
    pos.total_deposited_jpy = new_total;
    pos.deposit_count = new_count;
    pos.last_deposit_at = now;
    pos.deposit_nonce = nonce;
    *user_pos = pos;

    config.deposit_nonce = nonce;
    config.pending_jpy_conversion = new_pending_total;
    config.updated_at = now;

    let pending = PendingDeposit {
        user: *user,
        protocol_config: *config_key,
        jpy_amount,
        min_usdc_out,
        deposited_at: now,
        expires_at: now + EXPIRY_SECONDS,
        status: DepositStatus::Pending,
        conversion_rate: 0,
        usdc_received: 0,
        fee_paid: 0,
        nonce,
    };
    let ev = DepositInitiated { user: *user, jpy_amount, min_usdc_out, nonce, timestamp: now };
    Ok((pending, ev))
}

/// The first failure a USDC intake hits, in check order; `None` means the
/// deposit goes through.
pub open spec fn spec_deposit_usdc_error(
    config: ProtocolConfig,
    ys: YieldSource,
    pos: UserPosition,
    user: Pubkey,
    config_key: Pubkey,
    wl: Seq<u8>,
    sov: Seq<u8>,
    usdc_amount: u64,
    now: i64,
) -> Option<ExodusError> {
    if !config.is_active {
        Some(ExodusError::ProtocolInactive)
    } else if usdc_amount == 0 {
        Some(ExodusError::ZeroAmount)
    } else if !ys.is_active {
        Some(ExodusError::PoolNotActive)
    } else if usdc_amount < ys.min_deposit {
        Some(ExodusError::BelowMinimum)
    } else {
        match spec_intake_tier(wl, sov, user@, now) {
            Err(e) => Some(e),
            Ok(tier) => {
                let q = spec_pos_for_intake(pos, user, config_key, now);
                let shares = spec_scaled_div(usdc_amount as int, ys.nav_per_share as int);
                if !spec_source_allowed(tier, ys.source_type) {
                    Some(ExodusError::PoolTypeNotAllowed)
                } else if q.monthly_deposited_usdc + usdc_amount > u64::MAX {
                    Some(ExodusError::ArithmeticOverflow)
                } else if q.monthly_deposited_usdc + usdc_amount > spec_monthly_usdc_limit(tier) {
                    Some(ExodusError::MonthlyLimitExceeded)
                } else if shares > u64::MAX {
                    Some(ExodusError::ArithmeticOverflow)
                } else if ys.total_deposited + usdc_amount > u64::MAX {
                    Some(ExodusError::ArithmeticOverflow)
                } else if ys.total_shares + shares > u64::MAX {
                    Some(ExodusError::ArithmeticOverflow)
                } else if q.total_deposited_usdc + usdc_amount > u64::MAX {
                    Some(ExodusError::ArithmeticOverflow)
                } else if q.current_shares + shares > u64::MAX {
                    Some(ExodusError::ArithmeticOverflow)
                } else if q.deposit_count == u32::MAX {
                    Some(ExodusError::ArithmeticOverflow)
                } else if config.total_deposits_usdc + usdc_amount > u64::MAX {
                    Some(ExodusError::ArithmeticOverflow)
                } else {
                    None
                }
            },
        }
    }
}

/// The user position after a successful USDC intake.
pub open spec fn spec_pos_after_deposit_usdc(
    pos: UserPosition,
    user: Pubkey,
    config_key: Pubkey,
    tier: u8,
    usdc_amount: u64,
    shares: u64,
    now: i64,
) -> UserPosition {
    let q = spec_pos_for_intake(pos, user, config_key, now);
    UserPosition {
        sovereign_tier: tier,
        monthly_deposited_usdc: (q.monthly_deposited_usdc + usdc_amount) as u64,
        total_deposited_usdc: (q.total_deposited_usdc + usdc_amount) as u64,
        current_shares: (q.current_shares + shares) as u64,
        deposit_count: (q.deposit_count + 1) as u32,
        last_deposit_at: now,
        ..q
    }
}

/// Stable-asset intake: validate authorization, tier, pool activity, pool
/// minimum, the tier's pool-kind access and the rolling monthly limit, then
/// issue `floor(amount * 1e6 / nav)` shares to the user and the pool
/// immediately. The host moves the USDC into the pool's custody only when
/// this returns `Ok`; on `Err` nothing changed.
pub fn deposit_usdc(
    config: &mut ProtocolConfig,
    ys: &mut YieldSource,
    user_pos: &mut UserPosition,
    user: &Pubkey,
    config_key: &Pubkey,
    whitelist_data: &[u8],
    sovereign_data: &[u8],
    usdc_amount: u64,
    now: i64,
) -> (r: Result<DirectUsdcDeposit, ExodusError>)
    requires
        old(ys).wf(),
        0 <= old(user_pos).month_start <= now,
        old(user_pos).created_at == 0 ==> old(user_pos).monthly_deposited_jpy == 0
            && old(user_pos).monthly_deposited_usdc == 0,
    ensures
        ({
            let err = spec_deposit_usdc_error(
                *old(config),
                *old(ys),
                *old(user_pos),
                *user,
                *config_key,
                whitelist_data@,
                sovereign_data@,
                usdc_amount,
                now,
            );
            match r {
                Err(e) => err == Some(e) && *final(config) == *old(config) && *final(ys) == *old(
                    ys,
                ) && *final(user_pos) == *old(user_pos),
                Ok(ev) => {
                    let tier = spec_intake_tier(
                        whitelist_data@,
                        sovereign_data@,
                        user@,
                        now,
                    )->Ok_0;
                    let shares = spec_scaled_div(
                        usdc_amount as int,
                        old(ys).nav_per_share as int,
                    );
                    &&& err is None
                    &&& final(user_pos).monthly_deposited_usdc <= spec_monthly_usdc_limit(tier)
                    &&& *final(user_pos) == spec_pos_after_deposit_usdc(
                        *old(user_pos),
                        *user,
                        *config_key,
                        tier,
                        usdc_amount,
                        shares as u64,
                        now,
                    )
                    &&& *final(ys) == (YieldSource {
                        total_deposited: (old(ys).total_deposited + usdc_amount) as u64,
                        total_shares: (old(ys).total_shares + shares) as u64,
                        ..*old(ys)
                    })
                    &&& *final(config) == (ProtocolConfig {
                        total_deposits_usdc: (old(config).total_deposits_usdc
                            + usdc_amount) as u64,
                        updated_at: now,
                        ..*old(config)
                    })
                    &&& ev == (DirectUsdcDeposit {
                        user: *user,
                        usdc_amount,
                        shares_received: shares as u64,
                        timestamp: now,
                    })
                },
            }
        }),
{
    if !config.is_active {
        return Err(ExodusError::ProtocolInactive);
    }
    if usdc_amount == 0 {
        return Err(ExodusError::ZeroAmount);
    }
    if !ys.is_active {
        return Err(ExodusError::PoolNotActive);
    }
    if usdc_amount < ys.min_deposit {
        return Err(ExodusError::BelowMinimum);
    }
    match validate_kyc(whitelist_data, user, now) {
        Err(e) => {
            return Err(e);
        },
        Ok(_) => {},
    }
    let tier = match read_sovereign_tier(sovereign_data, user) {
        Err(e) => {
            return Err(e);
        },
        Ok(t) => t,
    };
    if tier == 0 {
        return Err(ExodusError::TierTooLow);
    }
    if !source_allowed(tier, ys.source_type) {
        return Err(ExodusError::PoolTypeNotAllowed);
    }

    let mut pos = *user_pos;
    if pos.created_at == 0 {
        pos.owner = *user;
        pos.protocol_config = *config_key;
        pos.created_at = now;
        pos.month_start = now;
    }
    pos.maybe_reset_monthly(now);
    pos.sovereign_tier = tier;

    let limit = monthly_usdc_limit(tier);
    let new_monthly = match pos.monthly_deposited_usdc.checked_add(usdc_amount) {
        None => {
            return Err(ExodusError::ArithmeticOverflow);
        },
        Some(v) => v,
    };
    if new_monthly > limit {
        return Err(ExodusError::MonthlyLimitExceeded);
    }
    let shares = match scaled_div(usdc_amount, ys.nav_per_share) {
        Err(e) => {
            return Err(e);
        },
        Ok(v) => v,
    };
    let new_ys_deposited = match ys.total_deposited.checked_add(usdc_amount) {
        None => {
            return Err(ExodusError::ArithmeticOverflow);
        },
        Some(v) => v,
    };
    let new_ys_shares = match ys.total_shares.checked_add(shares) {
        None => {
            return Err(ExodusError::ArithmeticOverflow);
        },
        Some(v) => v,
    };
    let new_total = match pos.total_deposited_usdc.checked_add(usdc_amount) {
        None => {
            return Err(ExodusError::ArithmeticOverflow);
        },
        Some(v) => v,
    };
    let new_shares = match pos.current_shares.checked_add(shares) {
        None => {
            return Err(ExodusError::ArithmeticOverflow);
        },
        Some(v) => v,
    };
    let new_count = match pos.deposit_count.checked_add(1) {
        None => {
            return Err(ExodusError::ArithmeticOverflow);
        },
        Some(v) => v,
    };
    let new_protocol_total = match config.total_deposits_usdc.checked_add(usdc_amount) {
        None => {
            return Err(ExodusError::ArithmeticOverflow);
        },
        Some(v) => v,
    };

    ys.total_deposited = new_ys_deposited;
    ys.total_shares = new_ys_shares;

    pos.monthly_deposited_usdc = new_monthly;
    pos.total_deposited_usdc = new_total;
    pos.current_shares = new_shares;
    pos.deposit_count = new_count;
    pos.last_deposit_at = now;
    *user_pos = pos;

    config.total_deposits_usdc = new_protocol_total;
    config.updated_at = now;

    Ok(DirectUsdcDeposit { user: *user, usdc_amount, shares_received: shares, timestamp: now })
}

} // verus!
