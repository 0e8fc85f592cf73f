//! The pending-conversion queue: one record per initiated fiat deposit,
//! awaiting price-based settlement.

use vstd::prelude::*;
use crate::deposit::DepositStatus;
use crate::keys::Pubkey;

verus! {

/// How long a pending deposit stays settleable, in seconds.
pub const EXPIRY_SECONDS: i64 = 24 * 60 * 60;

/// A fiat deposit awaiting conversion. Created `Pending`; transitions
/// exactly once to a terminal state and is never reused.
#[derive(Clone, Copy, Debug)]
pub struct PendingDeposit {
    /// Depositor.
    pub user: Pubkey,
    /// Owning protocol ledger reference.
    pub protocol_config: Pubkey,
    /// JPY amount deposited (minor units).
    pub jpy_amount: u64,
    /// Minimum acceptable USDC output (slippage floor).
    pub min_usdc_out: u64,
    /// Deposit timestamp.
    pub deposited_at: i64,
    /// Expiry timestamp (deposit time plus 24 hours).
    pub expires_at: i64,
    /// Current status.
    pub status: DepositStatus,
    /// Conversion rate used (JPY per USD, scale 1e6); written on settlement.
    pub conversion_rate: u64,
    /// USDC received after conversion; written on settlement.
    pub usdc_received: u64,
    /// Fee paid in USDC; written on settlement.
    pub fee_paid: u64,
    /// Deposit nonce (unique per user).
    pub nonce: u64,
}

} // verus!
