//! Conversion settlement: a permissioned keeper resolves a `Pending` fiat
//! deposit against the current oracle price, issues pool shares for the net
//! output and appends an immutable conversion record. Each pending record
//! settles exactly once: a second attempt fails with `InvalidState` and
//! changes nothing.

use vstd::prelude::*;
use crate::codec::{le_i64_at, le_u64_at};
use crate::conversion_record::ConversionRecord;
use crate::deposit::{ConversionDirection, DepositStatus};
use crate::errors::ExodusError;
use crate::events::ConversionExecuted;
use crate::keys::Pubkey;
use crate::pending_deposit::PendingDeposit;
use crate::protocol_config::ProtocolConfig;
use crate::records::read_price_feed;
use crate::share_math::{bps_fee, scaled_div, spec_bps_fee, spec_scaled_div};
use crate::user_position::UserPosition;
use crate::yield_source::YieldSource;

verus! {

/// Oldest a price record may be at settlement, in seconds. The bound is
/// inclusive: a record exactly this old still settles.
pub const MAX_ORACLE_STALENESS: i64 = 300;

/// The JPY-per-USD rate (scale 1e6) carried by a price record.
pub open spec fn spec_oracle_rate(oracle: Seq<u8>) -> int {
    le_u64_at(oracle, 40)
}

/// Age of the price record at `now`.
pub open spec fn spec_oracle_age(oracle: Seq<u8>, now: i64) -> int {
    now - le_i64_at(oracle, 48)
}

/// Gross USDC output of converting `jpy_amount` at `rate`.
pub open spec fn spec_gross_usdc(jpy_amount: u64, rate: int) -> int {
    spec_scaled_div(jpy_amount as int, rate)
}

/// Conversion fee taken from the gross output.
pub open spec fn spec_settle_fee(jpy_amount: u64, rate: int, fee_bps: u16) -> int {
    spec_bps_fee(spec_gross_usdc(jpy_amount, rate), fee_bps as int)
}

/// Net USDC output: gross less the conversion fee.
pub open spec fn spec_net_usdc(jpy_amount: u64, rate: int, fee_bps: u16) -> int {
    spec_gross_usdc(jpy_amount, rate) - spec_settle_fee(jpy_amount, rate, fee_bps)
}

/// Shares issued for the net output at the pool's NAV.
pub open spec fn spec_settle_shares(jpy_amount: u64, rate: int, fee_bps: u16, nav: u64) -> int {
    spec_scaled_div(spec_net_usdc(jpy_amount, rate, fee_bps) as int, nav as int)
}

/// The first failure settlement hits, in check order; `None` means the
/// conversion settles.
pub open spec fn spec_settlement_error(
    config: ProtocolConfig,
    pending: PendingDeposit,
    pos: UserPosition,
    ys: YieldSource,
    oracle: Seq<u8>,
    now: i64,
) -> Option<ExodusError> {
    if pending.status != DepositStatus::Pending {
        Some(ExodusError::InvalidState)
    } else if now > pending.expires_at {
        Some(ExodusError::DepositExpired)
    } else if oracle.len() < 56 {
        Some(ExodusError::InvalidPrice)
    } else if spec_oracle_rate(oracle) == 0 {
        Some(ExodusError::InvalidPrice)
    } else if spec_oracle_age(oracle, now) > MAX_ORACLE_STALENESS {
        Some(ExodusError::StalePrice)
    } else {
        let rate = spec_oracle_rate(oracle);
        let gross = spec_gross_usdc(pending.jpy_amount, rate);
        let net = spec_net_usdc(pending.jpy_amount, rate, config.conversion_fee_bps);
        let shares = spec_settle_shares(
            pending.jpy_amount,
            rate,
            config.conversion_fee_bps,
            ys.nav_per_share,
        );
        if gross > u64::MAX {
            Some(ExodusError::ArithmeticOverflow)
        } else if net < pending.min_usdc_out {
            Some(ExodusError::SlippageExceeded)
        } else if shares > u64::MAX {
            Some(ExodusError::ArithmeticOverflow)
        } else if pos.current_shares + shares > u64::MAX {
            Some(ExodusError::ArithmeticOverflow)
        } else if pos.total_deposited_usdc + net > u64::MAX {
            Some(ExodusError::ArithmeticOverflow)
        } else if ys.total_deposited + net > u64::MAX {
            Some(ExodusError::ArithmeticOverflow)
        } else if ys.total_shares + shares > u64::MAX {
            Some(ExodusError::ArithmeticOverflow)
        } else if config.total_deposits_usdc + net > u64::MAX {
            Some(ExodusError::ArithmeticOverflow)
        } else {
            None
        }
    }
}

/// Any record in a terminal state is refused with `InvalidState`, whatever
/// the other inputs: settlement is exactly-once by construction.
pub proof fn lemma_settlement_exactly_once(
    config: ProtocolConfig,
    pending: PendingDeposit,
    pos: UserPosition,
    ys: YieldSource,
    oracle: Seq<u8>,
    now: i64,
)
    requires
        pending.status != DepositStatus::Pending,
    ensures
        spec_settlement_error(config, pending, pos, ys, oracle, now) == Some(
            ExodusError::InvalidState,
        ),
{
}

/// Settle one pending conversion at the current oracle price.
///
/// On `Ok` the record is marked `Converted` with the realized rate, net
/// output and fee written once; the user gains shares and cost basis; the
/// pool and the protocol totals grow by the same net output; the pending
/// fiat counter shrinks (saturating); and an immutable conversion record
/// plus the settlement event are returned for the host to append and emit.
/// The host transfers the net USDC into the pool's custody only when this
/// returns `Ok`; on `Err` nothing changed.
pub fn execute_conversion(
    config: &mut ProtocolConfig,
    pending: &mut PendingDeposit,
    user_pos: &mut UserPosition,
    ys: &mut YieldSource,
    oracle_data: &[u8],
    now: i64,
) -> (r: Result<(ConversionRecord, ConversionExecuted), ExodusError>)
    requires
        old(config).wf(),
        old(ys).wf(),
    ensures
        ({
            let err = spec_settlement_error(
                *old(config),
                *old(pending),
                *old(user_pos),
                *old(ys),
                oracle_data@,
                now,
            );
            match r {
                Err(e) => err == Some(e) && *final(config) == *old(config) && *final(pending)
                    == *old(pending) && *final(user_pos) == *old(user_pos) && *final(ys) == *old(
                    ys,
                ),
                Ok((record, ev)) => {
                    let rate = spec_oracle_rate(oracle_data@);
                    let fee = spec_settle_fee(
                        old(pending).jpy_amount,
                        rate,
                        old(config).conversion_fee_bps,
                    );
                    let net = spec_net_usdc(
                        old(pending).jpy_amount,
                        rate,
                        old(config).conversion_fee_bps,
                    );
                    let shares = spec_settle_shares(
                        old(pending).jpy_amount,
                        rate,
                        old(config).conversion_fee_bps,
                        old(ys).nav_per_share,
                    );
                    &&& err is None
                    &&& *final(pending) == (PendingDeposit {
                        status: DepositStatus::Converted,
                        conversion_rate: rate as u64,
                        usdc_received: net as u64,
                        fee_paid: fee as u64,
                        ..*old(pending)
                    })
                    &&& *final(user_pos) == (UserPosition {
                        current_shares: (old(user_pos).current_shares + shares) as u64,
                        total_deposited_usdc: (old(user_pos).total_deposited_usdc + net) as u64,
                        avg_conversion_rate: if old(user_pos).total_deposited_jpy > 0 {
                            rate as u64
                        } else {
                            old(user_pos).avg_conversion_rate
                        },
                        ..*old(user_pos)
                    })
                    &&& *final(ys) == (YieldSource {
                        total_deposited: (old(ys).total_deposited + net) as u64,
                        total_shares: (old(ys).total_shares + shares) as u64,
                        ..*old(ys)
                    })
                    &&& *final(config) == (ProtocolConfig {
                        total_deposits_usdc: (old(config).total_deposits_usdc + net) as u64,
                        pending_jpy_conversion: if old(config).pending_jpy_conversion >= old(
                            pending,
                        ).jpy_amount {
                            (old(config).pending_jpy_conversion - old(pending).jpy_amount) as u64
                        } else {
                            0u64
                        },
                        updated_at: now,
                        ..*old(config)
                    })
                    &&& record == (ConversionRecord {
                        user: old(pending).user,
                        protocol_config: old(pending).protocol_config,
                        jpy_amount: old(pending).jpy_amount,
                        usdc_amount: net as u64,
                        exchange_rate: rate as u64,
                        fee_amount: fee as u64,
                        direction: ConversionDirection::JpyToUsdc,
                        timestamp: now,
                        nonce: old(pending).nonce,
                    })
                    &&& ev == (ConversionExecuted {
                        user: old(pending).user,
                        jpy_amount: old(pending).jpy_amount,
                        usdc_received: net as u64,
                        exchange_rate: rate as u64,
                        fee_paid: fee as u64,
                        shares_issued: shares as u64,
                        nonce: old(pending).nonce,
                        timestamp: now,
                    })
                },
            }
        }),
{
    if !(pending.status == DepositStatus::Pending) {
        return Err(ExodusError::InvalidState);
    }
    if now > pending.expires_at {
        return Err(ExodusError::DepositExpired);
    }
    let feed = match read_price_feed(oracle_data) {
        Err(e) => {
            return Err(e);
        },
        Ok(f) => f,
    };
    if feed.price == 0 {
        return Err(ExodusError::InvalidPrice);
    }
    let age: i128 = (now as i128) - (feed.last_update as i128);
    if age > MAX_ORACLE_STALENESS as i128 {
        return Err(ExodusError::StalePrice);
    }

    let gross = match scaled_div(pending.jpy_amount, feed.price) {
        Err(e) => {
            return Err(e);
        },
        Ok(v) => v,
    };
    let fee = bps_fee(gross, config.conversion_fee_bps);
    let net = gross - fee;
    if net < pending.min_usdc_out {
        return Err(ExodusError::SlippageExceeded);
    }
    let shares = match scaled_div(net, ys.nav_per_share) {
        Err(e) => {
            return Err(e);
        },
        Ok(v) => v,
    };
    let new_user_shares = match user_pos.current_shares.checked_add(shares) {
        None => {
            return Err(ExodusError::ArithmeticOverflow);
        },
        Some(v) => v,
    };
    let new_cost_basis = match user_pos.total_deposited_usdc.checked_add(net) {
        None => {
            return Err(ExodusError::ArithmeticOverflow);
        },
        Some(v) => v,
    };
    let new_ys_deposited = match ys.total_deposited.checked_add(net) {
        None => {
            return Err(ExodusError::ArithmeticOverflow);
        },
        Some(v) => v,
    };
    let new_ys_shares = match ys.total_shares.checked_add(shares) {
        None => {
            return Err(ExodusError::ArithmeticOverflow);
        },
        Some(v) => v,
    };
    let new_protocol_total = match config.total_deposits_usdc.checked_add(net) {
        None => {
            return Err(ExodusError::ArithmeticOverflow);
        },
        Some(v) => v,
    };

    pending.status = DepositStatus::Converted;
    pending.conversion_rate = feed.price;
    pending.usdc_received = net;
    pending.fee_paid = fee;

    user_pos.current_shares = new_user_shares;
    user_pos.total_deposited_usdc = new_cost_basis;
    if user_pos.total_deposited_jpy > 0 {
        user_pos.avg_conversion_rate = feed.price;
    }

    ys.total_deposited = new_ys_deposited;
    ys.total_shares = new_ys_shares;

    config.total_deposits_usdc = new_protocol_total;
    config.pending_jpy_conversion = config.pending_jpy_conversion.saturating_sub(
        pending.jpy_amount,
    );
    config.updated_at = now;

    let record = ConversionRecord {
        user: pending.user,
        protocol_config: pending.protocol_config,
        jpy_amount: pending.jpy_amount,
        usdc_amount: net,
        exchange_rate: feed.price,
        fee_amount: fee,
        direction: ConversionDirection::JpyToUsdc,
        timestamp: now,
        nonce: pending.nonce,
    };
    let ev = ConversionExecuted {
        user: pending.user,
        jpy_amount: pending.jpy_amount,
        usdc_received: net,
        exchange_rate: feed.price,
        fee_paid: fee,
        shares_issued: shares,
        nonce: pending.nonce,
        timestamp: now,
    };
    Ok((record, ev))
}

} // verus!
