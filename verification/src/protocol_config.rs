//! The global protocol ledger: fee parameters, aggregate totals, the deposit
//! nonce and the active flag.

use vstd::prelude::*;
use crate::keys::Pubkey;

verus! {

pub const MAX_CONVERSION_FEE_BPS: u16 = 1000;

pub const MAX_MANAGEMENT_FEE_BPS: u16 = 500;

pub const MAX_PERFORMANCE_FEE_BPS: u16 = 5000;

/// Global protocol configuration and aggregate ledger (one per deployment).
#[derive(Clone, Copy, Debug)]
pub struct ProtocolConfig {
    /// Admin authority.
    pub authority: Pubkey,
    /// JPY stablecoin mint.
    pub jpy_mint: Pubkey,
    /// USDC mint.
    pub usdc_mint: Pubkey,
    /// Protocol JPY vault.
    pub jpy_vault: Pubkey,
    /// Protocol USDC vault.
    pub usdc_vault: Pubkey,
    /// Price oracle record.
    pub oracle: Pubkey,
    /// KYC registry reference.
    pub kyc_registry: Pubkey,
    /// Identity (tier) registry reference.
    pub sovereign_program: Pubkey,
    /// Fee for JPY/USDC conversion (basis points, at most 1000).
    pub conversion_fee_bps: u16,
    /// Management fee on assets under management (basis points, at most 500).
    pub management_fee_bps: u16,
    /// Performance fee on yield (basis points, at most 5000).
    pub performance_fee_bps: u16,
    /// Total USDC deposits across all yield sources.
    pub total_deposits_usdc: u64,
    /// Total yield earned across all users (gross, pre-fee).
    pub total_yield_earned: u64,
    /// Total JPY awaiting conversion.
    pub pending_jpy_conversion: u64,
    /// Monotonically increasing deposit nonce.
    pub deposit_nonce: u64,
    /// Protocol active flag.
    pub is_active: bool,
    /// Creation timestamp.
    pub created_at: i64,
    /// Last update timestamp.
    pub updated_at: i64,
}

impl ProtocolConfig {
    /// Fee parameters never leave their caps: established at initialization
    /// and preserved by every operation, administrative updates included.
    pub open spec fn wf(self) -> bool {
        &&& self.conversion_fee_bps <= MAX_CONVERSION_FEE_BPS
        &&& self.management_fee_bps <= MAX_MANAGEMENT_FEE_BPS
        &&& self.performance_fee_bps <= MAX_PERFORMANCE_FEE_BPS
    }
}

} // verus!
