//! The append-only audit trail: one immutable record per settled conversion.

use vstd::prelude::*;
use crate::deposit::ConversionDirection;
use crate::events::ConversionRecordCreated;
use crate::keys::Pubkey;

verus! {

/// Immutable record of a settled conversion.
#[derive(Clone, Copy, Debug)]
pub struct ConversionRecord {
    /// User who initiated the conversion.
    pub user: Pubkey,
    /// Owning protocol ledger reference.
    pub protocol_config: Pubkey,
    /// JPY amount (minor units).
    pub jpy_amount: u64,
    /// USDC amount (minor units).
    pub usdc_amount: u64,
    /// Exchange rate used (JPY per USD, scale 1e6).
    pub exchange_rate: u64,
    /// Fee amount in USDC (minor units).
    pub fee_amount: u64,
    /// Direction of the conversion.
    pub direction: ConversionDirection,
    /// Settlement timestamp.
    pub timestamp: i64,
    /// Conversion nonce (the pending record's nonce).
    pub nonce: u64,
}

impl ConversionRecord {
    /// The event announcing this record, emitted by the host when the
    /// record is appended to the audit trail.
    pub fn created_event(&self) -> (ev: ConversionRecordCreated)
        ensures
            ev == (ConversionRecordCreated {
                user: self.user,
                jpy_amount: self.jpy_amount,
                usdc_amount: self.usdc_amount,
                exchange_rate: self.exchange_rate,
                direction: self.direction,
                nonce: self.nonce,
                timestamp: self.timestamp,
            }),
    {
        ConversionRecordCreated {
            user: self.user,
            jpy_amount: self.jpy_amount,
            usdc_amount: self.usdc_amount,
            exchange_rate: self.exchange_rate,
            direction: self.direction,
            nonce: self.nonce,
            timestamp: self.timestamp,
        }
    }
}

} // verus!
