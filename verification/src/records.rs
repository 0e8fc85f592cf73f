//! Typed decoders for the external records the core consumes, one per
//! schema: the authorization (KYC) entry, the identity (tier) record, the
//! oracle price feed, and the external pool's state. Each decoder checks the
//! record's minimum length before touching an offset and returns a typed
//! failure on malformed input.

use vstd::prelude::*;
use crate::codec::{key_at, le_i64_at, le_u16_at, le_u64_at, read_i64_le, read_key_matches,
    read_u16_le, read_u64_le};
use crate::errors::ExodusError;
use crate::keys::Pubkey;

verus! {

/// Authorization entry layout, after the 8-byte discriminator:
/// owner (32) at 8, registry (32) at 40, is_active (1) at 72,
/// kyc_level (1) at 73, jurisdiction (1) at 74, expires_at (8) at 75.
pub const KYC_RECORD_MIN_LEN: usize = 83;

/// Jurisdiction code that is always rejected.
pub const BLOCKED_JURISDICTION: u8 = 1;

pub open spec fn spec_validate_kyc(data: Seq<u8>, user: Seq<u8>, now: i64) -> Result<
    (),
    ExodusError,
> {
    if data.len() < KYC_RECORD_MIN_LEN {
        Err(ExodusError::AuthorizationRequired)
    } else if !key_at(data, 8, user) {
        Err(ExodusError::AuthorizationRequired)
    } else if data[72] == 0 {
        Err(ExodusError::AuthorizationRequired)
    } else if data[74] == BLOCKED_JURISDICTION {
        Err(ExodusError::JurisdictionRestricted)
    } else if le_i64_at(data, 75) <= now {
        Err(ExodusError::AuthorizationExpired)
    } else {
        Ok(())
    }
}

/// Check the user's authorization entry: present and long enough, owned by
/// the user, active, not in the blocked jurisdiction, not expired at `now`.
pub fn validate_kyc(data: &[u8], user: &Pubkey, now: i64) -> (r: Result<(), ExodusError>)
    ensures
        r == spec_validate_kyc(data@, user@, now),
{
    if data.len() < KYC_RECORD_MIN_LEN {
        return Err(ExodusError::AuthorizationRequired);
    }
    if !read_key_matches(data, 8, user) {
        return Err(ExodusError::AuthorizationRequired);
    }
    if data[72] == 0 {
        return Err(ExodusError::AuthorizationRequired);
    }
    if data[74] == BLOCKED_JURISDICTION {
        return Err(ExodusError::JurisdictionRestricted);
    }
    let expires_at = read_i64_le(data, 75);
    if expires_at <= now {
        return Err(ExodusError::AuthorizationExpired);
    }
    Ok(())
}

/// Identity record layout, after the 8-byte discriminator:
/// owner (32) at 8, tier (1) at 40.
pub const TIER_RECORD_MIN_LEN: usize = 41;

pub open spec fn spec_read_sovereign_tier(data: Seq<u8>, user: Seq<u8>) -> Result<
    u8,
    ExodusError,
> {
    if data.len() < TIER_RECORD_MIN_LEN {
        Err(ExodusError::TierUnavailable)
    } else if !key_at(data, 8, user) {
        Err(ExodusError::TierUnavailable)
    } else {
        Ok(data[40])
    }
}

/// Read the user's tier code from the identity record.
pub fn read_sovereign_tier(data: &[u8], user: &Pubkey) -> (r: Result<u8, ExodusError>)
    ensures
        r == spec_read_sovereign_tier(data@, user@),
{
    if data.len() < TIER_RECORD_MIN_LEN {
        return Err(ExodusError::TierUnavailable);
    }
    if !read_key_matches(data, 8, user) {
        return Err(ExodusError::TierUnavailable);
    }
    Ok(data[40])
}

/// Price feed layout, after the 8-byte discriminator:
/// authority (32) at 8, current_price (8) at 40, last_update_time (8) at 48.
/// The price is JPY per USD at scale 1e6.
pub const PRICE_RECORD_MIN_LEN: usize = 56;

/// A decoded oracle price record.
#[derive(Clone, Copy, Debug)]
pub struct PriceFeed {
    /// JPY per USD, scale 1e6.
    pub price: u64,
    /// When the price was last written.
    pub last_update: i64,
}

pub open spec fn spec_read_price_feed(data: Seq<u8>) -> Result<PriceFeed, ExodusError> {
    if data.len() < PRICE_RECORD_MIN_LEN {
        Err(ExodusError::InvalidPrice)
    } else {
        Ok(PriceFeed { price: le_u64_at(data, 40) as u64, last_update: le_i64_at(data, 48) as i64 })
    }
}

/// Decode the oracle price record. Freshness and positivity are judged by
/// the settlement operation, not here.
pub fn read_price_feed(data: &[u8]) -> (r: Result<PriceFeed, ExodusError>)
    ensures
        r == spec_read_price_feed(data@),
        r matches Ok(f) ==> f.price == le_u64_at(data@, 40) && f.last_update == le_i64_at(
            data@,
            48,
        ),
{
    if data.len() < PRICE_RECORD_MIN_LEN {
        return Err(ExodusError::InvalidPrice);
    }
    let price = read_u64_le(data, 40);
    let last_update = read_i64_le(data, 48);
    Ok(PriceFeed { price, last_update })
}

/// External pool state layout, after the 8-byte discriminator:
/// authority (32) at 8, asset mint (32) at 40, share mint (32) at 72,
/// asset vault (32) at 104, target_apy_bps (2) at 136, total_deposits (8)
/// at 138, total_shares (8) at 146, nav_per_share (8) at 154.
pub const POOL_RECORD_MIN_LEN: usize = 162;

/// The fields of the external pool's record that the NAV refresh reads.
#[derive(Clone, Copy, Debug)]
pub struct PoolNavRecord {
    /// NAV per share, scale 1e6.
    pub nav_per_share: u64,
    /// Target APY in basis points.
    pub target_apy_bps: u16,
}

pub open spec fn spec_read_pool_nav(data: Seq<u8>) -> Result<PoolNavRecord, ExodusError> {
    if data.len() < POOL_RECORD_MIN_LEN {
        Err(ExodusError::InvalidNav)
    } else {
        Ok(
            PoolNavRecord {
                nav_per_share: le_u64_at(data, 154) as u64,
                target_apy_bps: le_u16_at(data, 136) as u16,
            },
        )
    }
}

/// Decode NAV per share and target APY from the external pool's record.
pub fn read_pool_nav(data: &[u8]) -> (r: Result<PoolNavRecord, ExodusError>)
    ensures
        r == spec_read_pool_nav(data@),
{
    if data.len() < POOL_RECORD_MIN_LEN {
        return Err(ExodusError::InvalidNav);
    }
    let nav_per_share = read_u64_le(data, 154);
    let target_apy_bps = read_u16_le(data, 136);
    Ok(PoolNavRecord { nav_per_share, target_apy_bps })
}

} // verus!
