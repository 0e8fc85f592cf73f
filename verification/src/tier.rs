//! Tier limit policy: a pure lookup from the coarse authorization tier
//! (0 unverified .. 4 institutional) to monthly deposit ceilings and to the
//! set of pool kinds the tier may enter.
//!
//! Tier 0 = Unverified (no access)
//! Tier 1 = Bronze (basic KYC)
//! Tier 2 = Silver (enhanced KYC)
//! Tier 3 = Gold (accredited investor)
//! Tier 4 = Diamond (institutional)

use vstd::prelude::*;
use crate::yield_source::YieldSourceType;

verus! {

pub open spec fn spec_monthly_jpy_limit(tier: u8) -> u64 {
    if tier == 0 {
        0u64
    } else if tier == 1 {
        500_000_000_000u64
    } else if tier == 2 {
        5_000_000_000_000u64
    } else if tier == 3 {
        50_000_000_000_000u64
    } else if tier == 4 {
        u64::MAX
    } else {
        0u64
    }
}

pub open spec fn spec_monthly_usdc_limit(tier: u8) -> u64 {
    if tier == 0 {
        0u64
    } else if tier == 1 {
        3_500_000_000u64
    } else if tier == 2 {
        35_000_000_000u64
    } else if tier == 3 {
        350_000_000_000u64
    } else if tier == 4 {
        u64::MAX
    } else {
        0u64
    }
}

/// Monthly JPY deposit limit by tier, in JPY minor units (scale 1e6).
pub fn monthly_jpy_limit(tier: u8) -> (r: u64)
    ensures
        r == spec_monthly_jpy_limit(tier),
{
    match tier {
        0 => 0,
        1 => 500_000_000_000,
        2 => 5_000_000_000_000,
        3 => 50_000_000_000_000,
        4 => u64::MAX,
        _ => 0,
    }
}

/// Monthly USDC deposit limit by tier, in USDC minor units (scale 1e6).
pub fn monthly_usdc_limit(tier: u8) -> (r: u64)
    ensures
        r == spec_monthly_usdc_limit(tier),
{
    match tier {
        0 => 0,
        1 => 3_500_000_000,
        2 => 35_000_000_000,
        3 => 350_000_000_000,
        4 => u64::MAX,
        _ => 0,
    }
}

/// Both monthly limits are non-decreasing across the recognised tiers, and
/// the unverified tier is fully blocked (zero ceiling for both assets).
pub proof fn lemma_monthly_limits_monotone(t1: u8, t2: u8)
    requires
        t1 <= t2,
        t2 <= 4,
    ensures
        spec_monthly_jpy_limit(t1) <= spec_monthly_jpy_limit(t2),
        spec_monthly_usdc_limit(t1) <= spec_monthly_usdc_limit(t2),
        spec_monthly_jpy_limit(0) == 0,
        spec_monthly_usdc_limit(0) == 0,
{
}

/// Lowest tier admitted to each pool kind.
pub open spec fn spec_min_tier_for(source_type: YieldSourceType) -> u8 {
    match source_type {
        YieldSourceType::TBill => 1u8,
        YieldSourceType::Lending => 2u8,
        YieldSourceType::Staking => 3u8,
        YieldSourceType::Synthetic => 4u8,
    }
}

pub open spec fn spec_source_allowed(tier: u8, source_type: YieldSourceType) -> bool {
    tier <= 4 && tier >= spec_min_tier_for(source_type)
}

/// Whether a tier may deposit into a pool of the given kind.
pub fn source_allowed(tier: u8, source_type: YieldSourceType) -> (r: bool)
    ensures
        r == spec_source_allowed(tier, source_type),
{
    let min = match source_type {
        YieldSourceType::TBill => 1,
        YieldSourceType::Lending => 2,
        YieldSourceType::Staking => 3,
        YieldSourceType::Synthetic => 4,
    };
    tier <= 4 && tier >= min
}

/// The pool kinds each tier can access, lowest-entry kind first.
pub open spec fn spec_allowed_yield_sources(tier: u8) -> Seq<YieldSourceType> {
    if tier == 1 {
        seq![YieldSourceType::TBill]
    } else if tier == 2 {
        seq![YieldSourceType::TBill, YieldSourceType::Lending]
    } else if tier == 3 {
        seq![YieldSourceType::TBill, YieldSourceType::Lending, YieldSourceType::Staking]
    } else if tier == 4 {
        seq![
            YieldSourceType::TBill,
            YieldSourceType::Lending,
            YieldSourceType::Staking,
            YieldSourceType::Synthetic,
        ]
    } else {
        Seq::empty()
    }
}

/// The pool kinds a given tier can access, lowest-entry kind first.
pub fn allowed_yield_sources(tier: u8) -> (r: Vec<YieldSourceType>)
    ensures
        r@ == spec_allowed_yield_sources(tier),
{
    let mut r: Vec<YieldSourceType> = Vec::new();
    if tier >= 1 && tier <= 4 {
        r.push(YieldSourceType::TBill);
    }
    if tier >= 2 && tier <= 4 {
        r.push(YieldSourceType::Lending);
    }
    if tier >= 3 && tier <= 4 {
        r.push(YieldSourceType::Staking);
    }
    if tier == 4 {
        r.push(YieldSourceType::Synthetic);
    }
    proof {
        assert(r@ =~= spec_allowed_yield_sources(tier));
    }
    r
}

/// A pool kind is listed for a tier exactly when the tier clears the kind's
/// entry bar, so the membership test and the listing agree.
pub proof fn lemma_allowed_sources_iff(tier: u8, st: YieldSourceType)
    ensures
        spec_allowed_yield_sources(tier).contains(st) <==> spec_source_allowed(tier, st),
{
    let s = spec_allowed_yield_sources(tier);
    if spec_source_allowed(tier, st) {
        match st {
            YieldSourceType::TBill => assert(s[0] == st),
            YieldSourceType::Lending => assert(s[1] == st),
            YieldSourceType::Staking => assert(s[2] == st),
            YieldSourceType::Synthetic => assert(s[3] == st),
        }
        assert(s.contains(st));
    } else {
        assert forall|i: int| 0 <= i < s.len() implies s[i] != st by {}
    }
}

/// Tier display name in English.
pub fn tier_name_en(tier: u8) -> (r: &'static str)
    ensures
        tier == 0 ==> r@ == "Unverified"@,
        tier == 1 ==> r@ == "Bronze"@,
        tier == 2 ==> r@ == "Silver"@,
        tier == 3 ==> r@ == "Gold"@,
        tier == 4 ==> r@ == "Diamond"@,
        tier > 4 ==> r@ == "Unknown"@,
{
    match tier {
        0 => "Unverified",
        1 => "Bronze",
        2 => "Silver",
        3 => "Gold",
        4 => "Diamond",
        _ => "Unknown",
    }
}

/// Tier display name in Japanese.
pub fn tier_name_ja(tier: u8) -> (r: &'static str)
    ensures
        tier == 0 ==> r@ == "未認証"@,
        tier == 1 ==> r@ == "ブロンズ"@,
        tier == 2 ==> r@ == "シルバー"@,
        tier == 3 ==> r@ == "ゴールド"@,
        tier == 4 ==> r@ == "ダイヤモンド"@,
        tier > 4 ==> r@ == "不明"@,
{
    match tier {
        0 => "未認証",
        1 => "ブロンズ",
        2 => "シルバー",
        3 => "ゴールド",
        4 => "ダイヤモンド",
        _ => "不明",
    }
}

} // verus!
