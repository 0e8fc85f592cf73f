//! Administrative operations: protocol bootstrap, pool registration, fee
//! and pool parameter updates, and the pause/resume toggle that gates
//! every user-facing operation.

use vstd::prelude::*;
use crate::errors::ExodusError;
use crate::events::{ProtocolInitialized, ProtocolPaused, ProtocolResumed, YieldSourceRegistered};
use crate::keys::{key_eq, Pubkey};
use crate::protocol_config::{MAX_CONVERSION_FEE_BPS, MAX_MANAGEMENT_FEE_BPS,
    MAX_PERFORMANCE_FEE_BPS, ProtocolConfig};
use crate::share_math::NAV_SCALE;
use crate::yield_source::{YieldSource, YieldSourceType};

verus! {

#[derive(Clone, Copy, Debug)]
pub struct InitializeProtocolParams {
    pub oracle: Pubkey,
    pub kyc_registry: Pubkey,
    pub sovereign_program: Pubkey,
    pub conversion_fee_bps: u16,
    pub management_fee_bps: u16,
    pub performance_fee_bps: u16,
}

/// Whether the requested fee parameters respect their caps.
pub open spec fn spec_fees_valid(conversion: u16, management: u16, performance: u16) -> bool {
    conversion <= MAX_CONVERSION_FEE_BPS && management <= MAX_MANAGEMENT_FEE_BPS && performance
        <= MAX_PERFORMANCE_FEE_BPS
}

/// Bootstrap the protocol ledger: fee parameters within caps, aggregate
/// totals zeroed, the deposit nonce at zero, and the active flag on.
pub fn initialize_protocol(
    params: InitializeProtocolParams,
    authority: &Pubkey,
    jpy_mint: &Pubkey,
    usdc_mint: &Pubkey,
    jpy_vault: &Pubkey,
    usdc_vault: &Pubkey,
    now: i64,
) -> (r: Result<(ProtocolConfig, ProtocolInitialized), ExodusError>)
    ensures
        match r {
            Err(e) => e == ExodusError::InvalidFee && !spec_fees_valid(
                params.conversion_fee_bps,
                params.management_fee_bps,
                params.performance_fee_bps,
            ),
            Ok((config, ev)) => {
                &&& spec_fees_valid(
                    params.conversion_fee_bps,
                    params.management_fee_bps,
                    params.performance_fee_bps,
                )
                &&& config == (ProtocolConfig {
                    authority: *authority,
                    jpy_mint: *jpy_mint,
                    usdc_mint: *usdc_mint,
                    jpy_vault: *jpy_vault,
                    usdc_vault: *usdc_vault,
                    oracle: params.oracle,
                    kyc_registry: params.kyc_registry,
                    sovereign_program: params.sovereign_program,
                    conversion_fee_bps: params.conversion_fee_bps,
                    management_fee_bps: params.management_fee_bps,
                    performance_fee_bps: params.performance_fee_bps,
                    total_deposits_usdc: 0u64,
                    total_yield_earned: 0u64,
                    pending_jpy_conversion: 0u64,
                    deposit_nonce: 0u64,
                    is_active: true,
                    created_at: now,
                    updated_at: now,
                })
                &&& config.wf()
                &&& ev == (ProtocolInitialized {
                    authority: *authority,
                    jpy_mint: *jpy_mint,
                    usdc_mint: *usdc_mint,
                    timestamp: now,
                })
            },
        },
{
    if params.conversion_fee_bps > MAX_CONVERSION_FEE_BPS {
        return Err(ExodusError::InvalidFee);
    }
    if params.management_fee_bps > MAX_MANAGEMENT_FEE_BPS {
        return Err(ExodusError::InvalidFee);
    }
    if params.performance_fee_bps > MAX_PERFORMANCE_FEE_BPS {
        return Err(ExodusError::InvalidFee);
    }
    let config = ProtocolConfig {
        authority: *authority,
        jpy_mint: *jpy_mint,
        usdc_mint: *usdc_mint,
        jpy_vault: *jpy_vault,
        usdc_vault: *usdc_vault,
        oracle: params.oracle,
        kyc_registry: params.kyc_registry,
        sovereign_program: params.sovereign_program,
        conversion_fee_bps: params.conversion_fee_bps,
        management_fee_bps: params.management_fee_bps,
        performance_fee_bps: params.performance_fee_bps,
        total_deposits_usdc: 0,
        total_yield_earned: 0,
        pending_jpy_conversion: 0,
        deposit_nonce: 0,
        is_active: true,
        created_at: now,
        updated_at: now,
    };
    let ev = ProtocolInitialized {
        authority: *authority,
        jpy_mint: *jpy_mint,
        usdc_mint: *usdc_mint,
        timestamp: now,
    };
    Ok((config, ev))
}

#[derive(Clone, Copy, Debug)]
pub struct RegisterYieldSourceParams {
    pub name: [u8; 32],
    pub source_type: YieldSourceType,
    pub deposit_vault: Pubkey,
    pub yield_token_vault: Pubkey,
    pub allocation_weight_bps: u16,
    pub min_deposit: u64,
    pub max_allocation: u64,
}

/// Register a yield source under the protocol: genesis NAV of exactly
/// 1.000000, zero totals, active. Only the protocol authority may
/// register.
pub fn register_yield_source(
    config: &ProtocolConfig,
    config_key: &Pubkey,
    authority: &Pubkey,
    params: RegisterYieldSourceParams,
    token_mint: &Pubkey,
    now: i64,
) -> (r: Result<(YieldSource, YieldSourceRegistered), ExodusError>)
    ensures
        match r {
            Err(e) => e == ExodusError::Unauthorized && authority@ != config.authority@,
            Ok((ys, ev)) => {
                &&& authority@ == config.authority@
                &&& ys == (YieldSource {
                    protocol_config: *config_key,
                    name: params.name,
                    source_type: params.source_type,
                    token_mint: *token_mint,
                    deposit_vault: params.deposit_vault,
                    yield_token_vault: params.yield_token_vault,
                    current_apy_bps: 0u16,
                    total_deposited: 0u64,
                    total_shares: 0u64,
                    allocation_weight_bps: params.allocation_weight_bps,
                    min_deposit: params.min_deposit,
                    max_allocation: params.max_allocation,
                    is_active: true,
                    last_nav_update: now,
                    nav_per_share: NAV_SCALE,
                })
                &&& ys.wf()
                &&& ev == (YieldSourceRegistered {
                    name: params.name,
                    source_type: params.source_type.spec_code(),
                    token_mint: *token_mint,
                    timestamp: now,
                })
            },
        },
{
    if !key_eq(authority, &config.authority) {
        return Err(ExodusError::Unauthorized);
    }
    let ys = YieldSource {
        protocol_config: *config_key,
        name: params.name,
        source_type: params.source_type,
        token_mint: *token_mint,
        deposit_vault: params.deposit_vault,
        yield_token_vault: params.yield_token_vault,
        current_apy_bps: 0,
        total_deposited: 0,
        total_shares: 0,
        allocation_weight_bps: params.allocation_weight_bps,
        min_deposit: params.min_deposit,
        max_allocation: params.max_allocation,
        is_active: true,
        last_nav_update: now,
        nav_per_share: NAV_SCALE,
    };
    let ev = YieldSourceRegistered {
        name: params.name,
        source_type: params.source_type.code(),
        token_mint: *token_mint,
        timestamp: now,
    };
    Ok((ys, ev))
}

/// A partial fee update: absent fields keep their current value.
#[derive(Clone, Copy, Debug)]
pub struct UpdateProtocolConfigParams {
    pub conversion_fee_bps: Option<u16>,
    pub management_fee_bps: Option<u16>,
    pub performance_fee_bps: Option<u16>,
}

/// The fee value an update leaves in place.
pub open spec fn spec_updated_fee(requested: Option<u16>, current: u16) -> u16 {
    match requested {
        Some(v) => v,
        None => current,
    }
}

/// Update fee parameters, each within its cap. Only the protocol authority
/// may update; fee fields change through no other path.
pub fn update_protocol_config(
    config: &mut ProtocolConfig,
    authority: &Pubkey,
    params: UpdateProtocolConfigParams,
    now: i64,
) -> (r: Result<(), ExodusError>)
    ensures
        ({
            let conversion = spec_updated_fee(
                params.conversion_fee_bps,
                old(config).conversion_fee_bps,
            );
            let management = spec_updated_fee(
                params.management_fee_bps,
                old(config).management_fee_bps,
            );
            let performance = spec_updated_fee(
                params.performance_fee_bps,
                old(config).performance_fee_bps,
            );
            match r {
                Err(e) => {
                    &&& *final(config) == *old(config)
                    &&& if authority@ != old(config).authority@ {
                        e == ExodusError::Unauthorized
                    } else {
                        e == ExodusError::InvalidFee && !spec_fees_valid(
                            conversion,
                            management,
                            performance,
                        )
                    }
                },
                Ok(u) => {
                    &&& authority@ == old(config).authority@
                    &&& spec_fees_valid(conversion, management, performance)
                    &&& *final(config) == (ProtocolConfig {
                        conversion_fee_bps: conversion,
                        management_fee_bps: management,
                        performance_fee_bps: performance,
                        updated_at: now,
                        ..*old(config)
                    })
                    &&& final(config).wf()
                },
            }
        }),
{
    if !key_eq(authority, &config.authority) {
        return Err(ExodusError::Unauthorized);
    }
    let conversion = match params.conversion_fee_bps {
        Some(v) => v,
        None => config.conversion_fee_bps,
    };
    let management = match params.management_fee_bps {
        Some(v) => v,
        None => config.management_fee_bps,
    };
    let performance = match params.performance_fee_bps {
        Some(v) => v,
        None => config.performance_fee_bps,
    };
    if conversion > MAX_CONVERSION_FEE_BPS {
        return Err(ExodusError::InvalidFee);
    }
    if management > MAX_MANAGEMENT_FEE_BPS {
        return Err(ExodusError::InvalidFee);
    }
    if performance > MAX_PERFORMANCE_FEE_BPS {
        return Err(ExodusError::InvalidFee);
    }
    config.conversion_fee_bps = conversion;
    config.management_fee_bps = management;
    config.performance_fee_bps = performance;
    config.updated_at = now;
    Ok(())
}

/// A partial pool update: absent fields keep their current value.
#[derive(Clone, Copy, Debug)]
pub struct UpdateYieldSourceParams {
    pub is_active: Option<bool>,
    pub allocation_weight_bps: Option<u16>,
    pub min_deposit: Option<u64>,
    pub max_allocation: Option<u64>,
}

/// Update a pool's administrative parameters. Only the protocol authority
/// may update; the NAV and the totals are untouched.
pub fn update_yield_source(
    ys: &mut YieldSource,
    config: &ProtocolConfig,
    authority: &Pubkey,
    params: UpdateYieldSourceParams,
) -> (r: Result<(), ExodusError>)
    ensures
        match r {
            Err(e) => e == ExodusError::Unauthorized && authority@ != config.authority@
                && *final(ys) == *old(ys),
            Ok(u) => {
                &&& authority@ == config.authority@
                &&& *final(ys) == (YieldSource {
                    is_active: match params.is_active {
                        Some(v) => v,
                        None => old(ys).is_active,
                    },
                    allocation_weight_bps: match params.allocation_weight_bps {
                        Some(v) => v,
                        None => old(ys).allocation_weight_bps,
                    },
                    min_deposit: match params.min_deposit {
                        Some(v) => v,
                        None => old(ys).min_deposit,
                    },
                    max_allocation: match params.max_allocation {
                        Some(v) => v,
                        None => old(ys).max_allocation,
                    },
                    ..*old(ys)
                })
            },
        },
{
    if !key_eq(authority, &config.authority) {
        return Err(ExodusError::Unauthorized);
    }
    if let Some(v) = params.is_active {
        ys.is_active = v;
    }
    if let Some(v) = params.allocation_weight_bps {
        ys.allocation_weight_bps = v;
    }
    if let Some(v) = params.min_deposit {
        ys.min_deposit = v;
    }
    if let Some(v) = params.max_allocation {
        ys.max_allocation = v;
    }
    Ok(())
}

/// Turn the protocol's active flag off. Every user-facing operation is
/// gated on the flag and fails `ProtocolInactive` while paused.
pub fn pause_protocol(config: &mut ProtocolConfig, authority: &Pubkey, now: i64) -> (r: Result<
    ProtocolPaused,
    ExodusError,
>)
    ensures
        match r {
            Err(e) => e == ExodusError::Unauthorized && authority@ != old(config).authority@
                && *final(config) == *old(config),
            Ok(ev) => {
                &&& authority@ == old(config).authority@
                &&& *final(config) == (ProtocolConfig {
                    is_active: false,
                    updated_at: now,
                    ..*old(config)
                })
                &&& ev == (ProtocolPaused { authority: *authority, timestamp: now })
            },
        },
{
    if !key_eq(authority, &config.authority) {
        return Err(ExodusError::Unauthorized);
    }
    config.is_active = false;
    config.updated_at = now;
    Ok(ProtocolPaused { authority: *authority, timestamp: now })
}

/// Turn the protocol's active flag back on.
pub fn resume_protocol(config: &mut ProtocolConfig, authority: &Pubkey, now: i64) -> (r: Result<
    ProtocolResumed,
    ExodusError,
>)
    ensures
        match r {
            Err(e) => e == ExodusError::Unauthorized && authority@ != old(config).authority@
                && *final(config) == *old(config),
            Ok(ev) => {
                &&& authority@ == old(config).authority@
                &&& *final(config) == (ProtocolConfig {
                    is_active: true,
                    updated_at: now,
                    ..*old(config)
                })
                &&& ev == (ProtocolResumed { authority: *authority, timestamp: now })
            },
        },
{
    if !key_eq(authority, &config.authority) {
        return Err(ExodusError::Unauthorized);
    }
    config.is_active = true;
    config.updated_at = now;
    Ok(ProtocolResumed { authority: *authority, timestamp: now })
}

} // verus!
