//! Yield pool registry: the pool-type tag and the per-pool record holding
//! NAV, share totals, capacity bounds and the activity flag.

use vstd::prelude::*;
use crate::keys::Pubkey;

verus! {

/// Closed set of pool kinds a deposit can be allocated to.
#[derive(Clone, Copy, Debug, PartialEq, Eq, Structural)]
pub enum YieldSourceType {
    TBill,
    Lending,
    Staking,
    Synthetic,
}

impl YieldSourceType {
    /// Stable numeric code of the kind, as carried by registration events.
    pub open spec fn spec_code(self) -> u8 {
        match self {
            YieldSourceType::TBill => 0u8,
            YieldSourceType::Lending => 1u8,
            YieldSourceType::Staking => 2u8,
            YieldSourceType::Synthetic => 3u8,
        }
    }

    pub fn code(&self) -> (r: u8)
        ensures
            r == self.spec_code(),
    {
        match self {
            YieldSourceType::TBill => 0,
            YieldSourceType::Lending => 1,
            YieldSourceType::Staking => 2,
            YieldSourceType::Synthetic => 3,
        }
    }

    pub fn as_str(&self) -> (r: &'static str)
        ensures
            self is TBill ==> r@ == "T-Bill"@,
            self is Lending ==> r@ == "Lending"@,
            self is Staking ==> r@ == "Staking"@,
            self is Synthetic ==> r@ == "Synthetic"@,
    {
        match self {
            YieldSourceType::TBill => "T-Bill",
            YieldSourceType::Lending => "Lending",
            YieldSourceType::Staking => "Staking",
            YieldSourceType::Synthetic => "Synthetic",
        }
    }
}

/// A registered yield source (e.g. a T-Bill vault).
#[derive(Clone, Copy, Debug)]
pub struct YieldSource {
    /// Owning protocol ledger reference.
    pub protocol_config: Pubkey,
    /// Human-readable name.
    pub name: [u8; 32],
    /// Kind of yield source.
    pub source_type: YieldSourceType,
    /// The underlying token mint.
    pub token_mint: Pubkey,
    /// Vault where deposits are held in the yield source.
    pub deposit_vault: Pubkey,
    /// Vault holding yield tokens.
    pub yield_token_vault: Pubkey,
    /// Current APY in basis points.
    pub current_apy_bps: u16,
    /// Total USDC deposited into this source.
    pub total_deposited: u64,
    /// Total shares held in this source.
    pub total_shares: u64,
    /// Allocation weight (basis points of total protocol deposits).
    pub allocation_weight_bps: u16,
    /// Minimum deposit in USDC minor units.
    pub min_deposit: u64,
    /// Maximum allocation in USDC minor units.
    pub max_allocation: u64,
    /// Whether this source accepts deposits.
    pub is_active: bool,
    /// Last NAV update timestamp.
    pub last_nav_update: i64,
    /// NAV per share (scale 1e6).
    pub nav_per_share: u64,
}

impl YieldSource {
    /// Share math divides by the NAV, so a registered pool always carries a
    /// positive NAV per share.
    pub open spec fn wf(self) -> bool {
        self.nav_per_share >= 1
    }
}

} // verus!
