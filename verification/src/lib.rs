//! Settlement and accounting core of a custodial conversion-and-yield
//! protocol: users deposit a fiat-pegged token (JPY) or the reference stable
//! asset (USDC); fiat deposits are later converted at an oracle price and
//! allocated as redeemable shares of yield-bearing pools.

pub mod admin;
pub mod claim;
pub mod codec;
pub mod conversion_record;
pub mod deposit;
pub mod errors;
pub mod events;
pub mod intake;
pub mod keys;
pub mod nav;
pub mod pending_deposit;
pub mod protocol_config;
pub mod records;
pub mod settlement;
pub mod share_math;
pub mod tier;
pub mod user_position;
pub mod vault;
pub mod withdraw;
pub mod yield_source;
