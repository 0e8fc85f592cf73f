//! Event payloads: the values each operation reports to the host for
//! emission. The host environment attaches its own record addresses; the
//! payloads here carry only what the core computes.

use vstd::prelude::*;
use crate::deposit::ConversionDirection;
use crate::keys::Pubkey;

verus! {

#[derive(Clone, Copy, Debug)]
pub struct ProtocolInitialized {
    pub authority: Pubkey,
    pub jpy_mint: Pubkey,
    pub usdc_mint: Pubkey,
    pub timestamp: i64,
}

#[derive(Clone, Copy, Debug)]
pub struct YieldSourceRegistered {
    pub name: [u8; 32],
    pub source_type: u8,
    pub token_mint: Pubkey,
    pub timestamp: i64,
}

#[derive(Clone, Copy, Debug)]
pub struct DepositInitiated {
    pub user: Pubkey,
    pub jpy_amount: u64,
    pub min_usdc_out: u64,
    pub nonce: u64,
    pub timestamp: i64,
}

#[derive(Clone, Copy, Debug)]
pub struct DirectUsdcDeposit {
    pub user: Pubkey,
    pub usdc_amount: u64,
    pub shares_received: u64,
    pub timestamp: i64,
}

#[derive(Clone, Copy, Debug)]
pub struct ConversionExecuted {
    pub user: Pubkey,
    pub jpy_amount: u64,
    pub usdc_received: u64,
    pub exchange_rate: u64,
    pub fee_paid: u64,
    pub shares_issued: u64,
    pub nonce: u64,
    pub timestamp: i64,
}

#[derive(Clone, Copy, Debug)]
pub struct WithdrawalExecuted {
    pub user: Pubkey,
    pub shares_burned: u64,
    pub usdc_received: u64,
    pub timestamp: i64,
}

#[derive(Clone, Copy, Debug)]
pub struct YieldClaimed {
    pub user: Pubkey,
    pub yield_amount: u64,
    pub performance_fee: u64,
    pub net_yield: u64,
    pub timestamp: i64,
}

#[derive(Clone, Copy, Debug)]
pub struct NavUpdated {
    pub old_nav: u64,
    pub new_nav: u64,
    pub timestamp: i64,
}

#[derive(Clone, Copy, Debug)]
pub struct ProtocolPaused {
    pub authority: Pubkey,
    pub timestamp: i64,
}

#[derive(Clone, Copy, Debug)]
pub struct ProtocolResumed {
    pub authority: Pubkey,
    pub timestamp: i64,
}

#[derive(Clone, Copy, Debug)]
pub struct ConversionRecordCreated {
    pub user: Pubkey,
    pub jpy_amount: u64,
    pub usdc_amount: u64,
    pub exchange_rate: u64,
    pub direction: ConversionDirection,
    pub nonce: u64,
    pub timestamp: i64,
}

} // verus!
