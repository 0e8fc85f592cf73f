//! Per-user ledger: cumulative deposits, share balance, realized yield and
//! the rolling 30-day deposit window.

use vstd::prelude::*;
use crate::keys::Pubkey;

verus! {

/// Length of the rolling deposit window, in seconds.
pub const MONTH_SECONDS: i64 = 30 * 24 * 60 * 60;

/// Per-user position, lazily created on first deposit.
#[derive(Clone, Copy, Debug)]
pub struct UserPosition {
    /// Position owner.
    pub owner: Pubkey,
    /// Owning protocol ledger reference.
    pub protocol_config: Pubkey,
    /// Total JPY deposited (lifetime, minor units).
    pub total_deposited_jpy: u64,
    /// Total USDC deposited (lifetime, minor units); the cost basis.
    pub total_deposited_usdc: u64,
    /// Current shares held across all yield sources.
    pub current_shares: u64,
    /// Unrealized yield in USDC minor units.
    pub unrealized_yield_usdc: u64,
    /// Realized (already claimed) yield in USDC minor units, gross of fees.
    pub realized_yield_usdc: u64,
    /// JPY/USD conversion rate of the latest settlement (scale 1e6).
    pub avg_conversion_rate: u64,
    /// User's tier at last check.
    pub sovereign_tier: u8,
    /// JPY deposited in the current window (minor units).
    pub monthly_deposited_jpy: u64,
    /// USDC deposited in the current window (minor units).
    pub monthly_deposited_usdc: u64,
    /// Start of the current window.
    pub month_start: i64,
    /// Total number of deposits.
    pub deposit_count: u32,
    /// Total number of withdrawals.
    pub withdrawal_count: u32,
    /// Last deposit timestamp.
    pub last_deposit_at: i64,
    /// Last withdrawal timestamp.
    pub last_withdrawal_at: i64,
    /// User's deposit nonce (addresses the user's pending conversions).
    pub deposit_nonce: u64,
    /// Record creation timestamp (zero marks a blank, not-yet-used record).
    pub created_at: i64,
}

impl UserPosition {
    /// A blank position: what the host hands an intake operation the first
    /// time a user deposits (`created_at` zero). The key fields are
    /// placeholders; the first intake overwrites them.
    pub fn blank() -> (r: UserPosition)
        ensures
            r.total_deposited_jpy == 0,
            r.total_deposited_usdc == 0,
            r.current_shares == 0,
            r.unrealized_yield_usdc == 0,
            r.realized_yield_usdc == 0,
            r.avg_conversion_rate == 0,
            r.sovereign_tier == 0,
            r.monthly_deposited_jpy == 0,
            r.monthly_deposited_usdc == 0,
            r.month_start == 0,
            r.deposit_count == 0,
            r.withdrawal_count == 0,
            r.last_deposit_at == 0,
            r.last_withdrawal_at == 0,
            r.deposit_nonce == 0,
            r.created_at == 0,
    {
        UserPosition {
            owner: [0u8; 32],
            protocol_config: [0u8; 32],
            total_deposited_jpy: 0,
            total_deposited_usdc: 0,
            current_shares: 0,
            unrealized_yield_usdc: 0,
            realized_yield_usdc: 0,
            avg_conversion_rate: 0,
            sovereign_tier: 0,
            monthly_deposited_jpy: 0,
            monthly_deposited_usdc: 0,
            month_start: 0,
            deposit_count: 0,
            withdrawal_count: 0,
            last_deposit_at: 0,
            last_withdrawal_at: 0,
            deposit_nonce: 0,
            created_at: 0,
        }
    }

    /// Whether the rolling window has elapsed at `now`.
    pub open spec fn spec_window_elapsed(self, now: i64) -> bool {
        now - self.month_start >= MONTH_SECONDS
    }

    /// The position with the rolling window lazily reset at `now`. Resetting
    /// is idempotent: once `month_start == now`, a second reset at the same
    /// `now` changes nothing.
    pub open spec fn spec_after_monthly_reset(self, now: i64) -> UserPosition {
        if self.spec_window_elapsed(now) {
            UserPosition {
                monthly_deposited_jpy: 0,
                monthly_deposited_usdc: 0,
                month_start: now,
                ..self
            }
        } else {
            self
        }
    }

    /// The lazy window reset converges: a second reset at the same `now`
    /// changes nothing, so near-simultaneous resets cannot double-reset.
    pub proof fn lemma_monthly_reset_idempotent(self, now: i64)
        ensures
            self.spec_after_monthly_reset(now).spec_after_monthly_reset(now)
                == self.spec_after_monthly_reset(now),
    {
    }

    /// Reset monthly counters if the 30-day window has elapsed.
    pub fn maybe_reset_monthly(&mut self, now: i64)
        requires
            0 <= old(self).month_start <= now,
        ensures
            *final(self) == old(self).spec_after_monthly_reset(now),
    {
        if now - self.month_start >= MONTH_SECONDS {
            self.monthly_deposited_jpy = 0;
            self.monthly_deposited_usdc = 0;
            self.month_start = now;
        }
    }
}

} // verus!
