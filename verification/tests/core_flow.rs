//! End-to-end tests of the deposit -> conversion -> share-accounting
//! pipeline: fiat and stable-asset intake, settlement, withdrawal and
//! yield claim.

use exodus_core::admin::{initialize_protocol, register_yield_source, InitializeProtocolParams,
    RegisterYieldSourceParams};
use exodus_core::claim::claim_yield;
use exodus_core::deposit::DepositStatus;
use exodus_core::errors::ExodusError;
use exodus_core::intake::{deposit_jpy, deposit_usdc};
use exodus_core::nav::update_nav;
use exodus_core::protocol_config::ProtocolConfig;
use exodus_core::settlement::execute_conversion;
use exodus_core::user_position::UserPosition;
use exodus_core::withdraw::withdraw;
use exodus_core::yield_source::{YieldSource, YieldSourceType};

const USER: [u8; 32] = [7u8; 32];
const AUTHORITY: [u8; 32] = [1u8; 32];
const CONFIG_KEY: [u8; 32] = [2u8; 32];
const DAY: i64 = 24 * 60 * 60;
const NOW: i64 = 1_700_000_000;

fn kyc_record(owner: &[u8; 32], active: bool, jurisdiction: u8, expires_at: i64) -> Vec<u8> {
    let mut data = vec![0u8; 83];
    data[8..40].copy_from_slice(owner);
    data[72] = if active { 1 } else { 0 };
    data[74] = jurisdiction;
    data[75..83].copy_from_slice(&expires_at.to_le_bytes());
    data
}

fn sovereign_record(owner: &[u8; 32], tier: u8) -> Vec<u8> {
    let mut data = vec![0u8; 41];
    data[8..40].copy_from_slice(owner);
    data[40] = tier;
    data
}

fn oracle_record(price: u64, last_update: i64) -> Vec<u8> {
    let mut data = vec![0u8; 56];
    data[40..48].copy_from_slice(&price.to_le_bytes());
    data[48..56].copy_from_slice(&last_update.to_le_bytes());
    data
}

fn pool_record(nav: u64, apy_bps: u16) -> Vec<u8> {
    let mut data = vec![0u8; 162];
    data[136..138].copy_from_slice(&apy_bps.to_le_bytes());
    data[154..162].copy_from_slice(&nav.to_le_bytes());
    data
}

fn test_config(conversion_fee_bps: u16, performance_fee_bps: u16) -> ProtocolConfig {
    let params = InitializeProtocolParams {
        oracle: [3u8; 32],
        kyc_registry: [4u8; 32],
        sovereign_program: [5u8; 32],
        conversion_fee_bps,
        management_fee_bps: 100,
        performance_fee_bps,
    };
    let (config, _ev) = initialize_protocol(
        params,
        &AUTHORITY,
        &[10u8; 32],
        &[11u8; 32],
        &[12u8; 32],
        &[13u8; 32],
        NOW,
    )
    .unwrap();
    config
}

fn test_pool(config: &ProtocolConfig, source_type: YieldSourceType, min_deposit: u64) -> YieldSource {
    let params = RegisterYieldSourceParams {
        name: [0u8; 32],
        source_type,
        deposit_vault: [20u8; 32],
        yield_token_vault: [21u8; 32],
        allocation_weight_bps: 10_000,
        min_deposit,
        max_allocation: u64::MAX,
    };
    let (ys, _ev) = register_yield_source(config, &CONFIG_KEY, &AUTHORITY, params, &[22u8; 32], NOW)
        .unwrap();
    ys
}

fn valid_kyc() -> Vec<u8> {
    kyc_record(&USER, true, 0, NOW + 365 * DAY)
}

#[test]
fn deposit_jpy_creates_pending_record() {
    let mut config = test_config(50, 1000);
    let mut pos = UserPosition::blank();
    let wl = valid_kyc();
    let sov = sovereign_record(&USER, 2);

    let (pending, ev) =
        deposit_jpy(&mut config, &mut pos, &USER, &CONFIG_KEY, &wl, &sov, 1_000_000, 6_000, NOW)
            .unwrap();

    assert_eq!(pending.jpy_amount, 1_000_000);
    assert_eq!(pending.min_usdc_out, 6_000);
    assert_eq!(pending.status, DepositStatus::Pending);
    assert_eq!(pending.deposited_at, NOW);
    assert_eq!(pending.expires_at, NOW + DAY);
    assert_eq!(pending.nonce, 1);
    assert_eq!(pending.user, USER);
    assert_eq!(pending.conversion_rate, 0);
    assert_eq!(pending.usdc_received, 0);
    assert_eq!(pending.fee_paid, 0);

    assert_eq!(ev.jpy_amount, 1_000_000);
    assert_eq!(ev.min_usdc_out, 6_000);
    assert_eq!(ev.nonce, 1);
    assert_eq!(ev.timestamp, NOW);

    assert_eq!(config.deposit_nonce, 1);
    assert_eq!(config.pending_jpy_conversion, 1_000_000);
    assert_eq!(config.updated_at, NOW);

    assert_eq!(pos.owner, USER);
    assert_eq!(pos.created_at, NOW);
    assert_eq!(pos.sovereign_tier, 2);
    assert_eq!(pos.monthly_deposited_jpy, 1_000_000);
    assert_eq!(pos.total_deposited_jpy, 1_000_000);
    assert_eq!(pos.deposit_count, 1);
    assert_eq!(pos.deposit_nonce, 1);
    assert_eq!(pos.current_shares, 0);
}

#[test]
fn deposit_jpy_over_monthly_limit_changes_nothing() {
    let mut config = test_config(50, 1000);
    let mut pos = UserPosition::blank();
    let wl = valid_kyc();
    let sov = sovereign_record(&USER, 1);

    // Tier 1 allows 500,000 JPY per month (500e9 minor units).
    deposit_jpy(&mut config, &mut pos, &USER, &CONFIG_KEY, &wl, &sov, 400_000_000_000, 0, NOW)
        .unwrap();
    let config_before = config;
    let pos_before = pos;

    let r = deposit_jpy(
        &mut config,
        &mut pos,
        &USER,
        &CONFIG_KEY,
        &wl,
        &sov,
        200_000_000_000,
        0,
        NOW + 1,
    );
    assert_eq!(r.unwrap_err(), ExodusError::MonthlyLimitExceeded);

    // The user ledger and the pending queue are untouched by the failure.
    assert_eq!(pos.monthly_deposited_jpy, pos_before.monthly_deposited_jpy);
    assert_eq!(pos.total_deposited_jpy, pos_before.total_deposited_jpy);
    assert_eq!(pos.deposit_count, pos_before.deposit_count);
    assert_eq!(pos.deposit_nonce, pos_before.deposit_nonce);
    assert_eq!(config.deposit_nonce, config_before.deposit_nonce);
    assert_eq!(config.pending_jpy_conversion, config_before.pending_jpy_conversion);
    assert_eq!(config.updated_at, config_before.updated_at);
}

#[test]
fn deposit_jpy_exactly_at_limit_passes() {
    let mut config = test_config(50, 1000);
    let mut pos = UserPosition::blank();
    let wl = valid_kyc();
    let sov = sovereign_record(&USER, 1);

    let r = deposit_jpy(
        &mut config,
        &mut pos,
        &USER,
        &CONFIG_KEY,
        &wl,
        &sov,
        500_000_000_000,
        0,
        NOW,
    );
    assert!(r.is_ok());
    assert_eq!(pos.monthly_deposited_jpy, 500_000_000_000);
}

#[test]
fn deposit_jpy_monthly_window_resets_after_thirty_days() {
    let mut config = test_config(50, 1000);
    let mut pos = UserPosition::blank();
    let wl = kyc_record(&USER, true, 0, NOW + 365 * DAY);
    let sov = sovereign_record(&USER, 1);

    deposit_jpy(&mut config, &mut pos, &USER, &CONFIG_KEY, &wl, &sov, 400_000_000_000, 0, NOW)
        .unwrap();
    // Within the window the remaining allowance is too small.
    let r = deposit_jpy(
        &mut config,
        &mut pos,
        &USER,
        &CONFIG_KEY,
        &wl,
        &sov,
        400_000_000_000,
        0,
        NOW + 29 * DAY,
    );
    assert_eq!(r.unwrap_err(), ExodusError::MonthlyLimitExceeded);

    // Once 30 days have elapsed the window resets lazily.
    let later = NOW + 30 * DAY;
    deposit_jpy(&mut config, &mut pos, &USER, &CONFIG_KEY, &wl, &sov, 400_000_000_000, 0, later)
        .unwrap();
    assert_eq!(pos.monthly_deposited_jpy, 400_000_000_000);
    assert_eq!(pos.month_start, later);
    assert_eq!(pos.total_deposited_jpy, 800_000_000_000);
}

#[test]
fn deposit_jpy_gate_errors() {
    let mut config = test_config(50, 1000);
    let mut pos = UserPosition::blank();
    let wl = valid_kyc();
    let sov = sovereign_record(&USER, 2);

    let mut paused = config;
    paused.is_active = false;
    let r = deposit_jpy(&mut paused, &mut pos, &USER, &CONFIG_KEY, &wl, &sov, 1, 0, NOW);
    assert_eq!(r.unwrap_err(), ExodusError::ProtocolInactive);

    let r = deposit_jpy(&mut config, &mut pos, &USER, &CONFIG_KEY, &wl, &sov, 0, 0, NOW);
    assert_eq!(r.unwrap_err(), ExodusError::ZeroAmount);

    let short = vec![0u8; 82];
    let r = deposit_jpy(&mut config, &mut pos, &USER, &CONFIG_KEY, &short, &sov, 1, 0, NOW);
    assert_eq!(r.unwrap_err(), ExodusError::AuthorizationRequired);

    let other_owner = kyc_record(&[9u8; 32], true, 0, NOW + DAY);
    let r = deposit_jpy(&mut config, &mut pos, &USER, &CONFIG_KEY, &other_owner, &sov, 1, 0, NOW);
    assert_eq!(r.unwrap_err(), ExodusError::AuthorizationRequired);

    let inactive = kyc_record(&USER, false, 0, NOW + DAY);
    let r = deposit_jpy(&mut config, &mut pos, &USER, &CONFIG_KEY, &inactive, &sov, 1, 0, NOW);
    assert_eq!(r.unwrap_err(), ExodusError::AuthorizationRequired);

    let blocked = kyc_record(&USER, true, 1, NOW + DAY);
    let r = deposit_jpy(&mut config, &mut pos, &USER, &CONFIG_KEY, &blocked, &sov, 1, 0, NOW);
    assert_eq!(r.unwrap_err(), ExodusError::JurisdictionRestricted);

    let expired = kyc_record(&USER, true, 0, NOW);
    let r = deposit_jpy(&mut config, &mut pos, &USER, &CONFIG_KEY, &expired, &sov, 1, 0, NOW);
    assert_eq!(r.unwrap_err(), ExodusError::AuthorizationExpired);

    let short_sov = vec![0u8; 40];
    let r = deposit_jpy(&mut config, &mut pos, &USER, &CONFIG_KEY, &wl, &short_sov, 1, 0, NOW);
    assert_eq!(r.unwrap_err(), ExodusError::TierUnavailable);

    let tier_zero = sovereign_record(&USER, 0);
    let r = deposit_jpy(&mut config, &mut pos, &USER, &CONFIG_KEY, &wl, &tier_zero, 1, 0, NOW);
    assert_eq!(r.unwrap_err(), ExodusError::TierTooLow);
}

#[test]
fn deposit_usdc_at_genesis_nav_is_one_to_one() {
    let mut config = test_config(50, 1000);
    let mut ys = test_pool(&config, YieldSourceType::TBill, 1);
    let mut pos = UserPosition::blank();
    let wl = valid_kyc();
    let sov = sovereign_record(&USER, 1);

    // A pool at genesis NAV 1.000000 issues exactly one share per unit.
    let ev = deposit_usdc(
        &mut config,
        &mut ys,
        &mut pos,
        &USER,
        &CONFIG_KEY,
        &wl,
        &sov,
        10_000,
        NOW,
    )
    .unwrap();
    assert_eq!(ev.shares_received, 10_000);
    assert_eq!(ev.usdc_amount, 10_000);
    assert_eq!(pos.current_shares, 10_000);
    assert_eq!(pos.total_deposited_usdc, 10_000);
    assert_eq!(pos.monthly_deposited_usdc, 10_000);
    assert_eq!(ys.total_shares, 10_000);
    assert_eq!(ys.total_deposited, 10_000);
    assert_eq!(config.total_deposits_usdc, 10_000);
}

#[test]
fn deposit_usdc_gate_errors() {
    let mut config = test_config(50, 1000);
    let mut ys = test_pool(&config, YieldSourceType::Lending, 100);
    let mut pos = UserPosition::blank();
    let wl = valid_kyc();
    let sov = sovereign_record(&USER, 2);

    let mut inactive_pool = ys;
    inactive_pool.is_active = false;
    let r = deposit_usdc(
        &mut config,
        &mut inactive_pool,
        &mut pos,
        &USER,
        &CONFIG_KEY,
        &wl,
        &sov,
        1_000,
        NOW,
    );
    assert_eq!(r.unwrap_err(), ExodusError::PoolNotActive);

    let r = deposit_usdc(&mut config, &mut ys, &mut pos, &USER, &CONFIG_KEY, &wl, &sov, 99, NOW);
    assert_eq!(r.unwrap_err(), ExodusError::BelowMinimum);

    // A Bronze user may not enter a lending pool.
    let bronze = sovereign_record(&USER, 1);
    let r = deposit_usdc(
        &mut config,
        &mut ys,
        &mut pos,
        &USER,
        &CONFIG_KEY,
        &wl,
        &bronze,
        1_000,
        NOW,
    );
    assert_eq!(r.unwrap_err(), ExodusError::PoolTypeNotAllowed);

    // Tier 1 monthly USDC cap is 3,500 USDC (3.5e9 minor units).
    let mut tbill = test_pool(&config, YieldSourceType::TBill, 1);
    let r = deposit_usdc(
        &mut config,
        &mut tbill,
        &mut pos,
        &USER,
        &CONFIG_KEY,
        &wl,
        &bronze,
        3_500_000_001,
        NOW,
    );
    assert_eq!(r.unwrap_err(), ExodusError::MonthlyLimitExceeded);
}

#[test]
fn deposit_usdc_share_overflow_fails() {
    let mut config = test_config(50, 1000);
    let mut ys = test_pool(&config, YieldSourceType::TBill, 1);
    let mut pos = UserPosition::blank();
    let wl = valid_kyc();
    let sov = sovereign_record(&USER, 4);

    // Push the NAV down to 1: the scaled share count no longer fits u64.
    let record = pool_record(1, 450);
    update_nav(&mut config, &mut ys, &record, NOW).unwrap();

    let r = deposit_usdc(
        &mut config,
        &mut ys,
        &mut pos,
        &USER,
        &CONFIG_KEY,
        &wl,
        &sov,
        u64::MAX,
        NOW,
    );
    assert_eq!(r.unwrap_err(), ExodusError::ArithmeticOverflow);
    assert_eq!(pos.current_shares, 0);
    assert_eq!(ys.total_shares, 0);
}

#[test]
fn settlement_converts_at_oracle_price() {
    let mut config = test_config(50, 1000);
    let mut ys = test_pool(&config, YieldSourceType::TBill, 1);
    let mut pos = UserPosition::blank();
    let wl = valid_kyc();
    let sov = sovereign_record(&USER, 2);

    let (mut pending, _ev) =
        deposit_jpy(&mut config, &mut pos, &USER, &CONFIG_KEY, &wl, &sov, 1_000_000, 6_000, NOW)
            .unwrap();

    // 1,000,000 JPY minor units at 155.000000 JPY/USD with a 50 bps fee:
    // gross 6,451, fee 32, net 6,419.
    let oracle = oracle_record(155_000_000, NOW);
    let (record, ev) =
        execute_conversion(&mut config, &mut pending, &mut pos, &mut ys, &oracle, NOW).unwrap();

    assert_eq!(record.jpy_amount, 1_000_000);
    assert_eq!(record.usdc_amount, 6_419);
    assert_eq!(record.fee_amount, 32);
    assert_eq!(record.exchange_rate, 155_000_000);
    assert_eq!(record.nonce, 1);
    assert_eq!(ev.usdc_received, 6_419);
    assert_eq!(ev.fee_paid, 32);
    assert_eq!(ev.shares_issued, 6_419);

    assert_eq!(pending.status, DepositStatus::Converted);
    assert_eq!(pending.conversion_rate, 155_000_000);
    assert_eq!(pending.usdc_received, 6_419);
    assert_eq!(pending.fee_paid, 32);

    assert_eq!(pos.current_shares, 6_419);
    assert_eq!(pos.total_deposited_usdc, 6_419);
    assert_eq!(pos.avg_conversion_rate, 155_000_000);
    assert_eq!(ys.total_shares, 6_419);
    assert_eq!(ys.total_deposited, 6_419);
    assert_eq!(config.total_deposits_usdc, 6_419);
    assert_eq!(config.pending_jpy_conversion, 0);
}

#[test]
fn settlement_slippage_leaves_record_pending() {
    let mut config = test_config(50, 1000);
    let mut ys = test_pool(&config, YieldSourceType::TBill, 1);
    let mut pos = UserPosition::blank();
    let wl = valid_kyc();
    let sov = sovereign_record(&USER, 2);

    // The caller demands at least 6,500 USDC but the price yields 6,419.
    let (mut pending, _ev) =
        deposit_jpy(&mut config, &mut pos, &USER, &CONFIG_KEY, &wl, &sov, 1_000_000, 6_500, NOW)
            .unwrap();
    let pos_before = pos;
    let config_before = config;

    let oracle = oracle_record(155_000_000, NOW);
    let r = execute_conversion(&mut config, &mut pending, &mut pos, &mut ys, &oracle, NOW);
    assert_eq!(r.unwrap_err(), ExodusError::SlippageExceeded);

    assert_eq!(pending.status, DepositStatus::Pending);
    assert_eq!(pos.current_shares, pos_before.current_shares);
    assert_eq!(config.total_deposits_usdc, config_before.total_deposits_usdc);
    assert_eq!(config.pending_jpy_conversion, config_before.pending_jpy_conversion);
}

#[test]
fn settlement_is_exactly_once() {
    let mut config = test_config(50, 1000);
    let mut ys = test_pool(&config, YieldSourceType::TBill, 1);
    let mut pos = UserPosition::blank();
    let wl = valid_kyc();
    let sov = sovereign_record(&USER, 2);

    let (mut pending, _ev) =
        deposit_jpy(&mut config, &mut pos, &USER, &CONFIG_KEY, &wl, &sov, 1_000_000, 0, NOW)
            .unwrap();
    let oracle = oracle_record(155_000_000, NOW);
    execute_conversion(&mut config, &mut pending, &mut pos, &mut ys, &oracle, NOW).unwrap();

    let shares_after_first = pos.current_shares;
    let pool_shares_after_first = ys.total_shares;
    let config_after_first = config;

    // A second settlement of the same record fails closed and does not
    // credit anything twice.
    let r = execute_conversion(&mut config, &mut pending, &mut pos, &mut ys, &oracle, NOW);
    assert_eq!(r.unwrap_err(), ExodusError::InvalidState);
    assert_eq!(pending.status, DepositStatus::Converted);
    assert_eq!(pos.current_shares, shares_after_first);
    assert_eq!(ys.total_shares, pool_shares_after_first);
    assert_eq!(config.total_deposits_usdc, config_after_first.total_deposits_usdc);
    assert_eq!(config.updated_at, config_after_first.updated_at);
}

#[test]
fn settlement_refuses_any_terminal_state() {
    let mut config = test_config(50, 1000);
    let mut ys = test_pool(&config, YieldSourceType::TBill, 1);
    let mut pos = UserPosition::blank();
    let wl = valid_kyc();
    let sov = sovereign_record(&USER, 2);

    let (mut pending, _ev) =
        deposit_jpy(&mut config, &mut pos, &USER, &CONFIG_KEY, &wl, &sov, 1_000_000, 0, NOW)
            .unwrap();
    pending.status = DepositStatus::Cancelled;

    let oracle = oracle_record(155_000_000, NOW);
    let r = execute_conversion(&mut config, &mut pending, &mut pos, &mut ys, &oracle, NOW);
    assert_eq!(r.unwrap_err(), ExodusError::InvalidState);
    assert_eq!(pending.status, DepositStatus::Cancelled);
}

#[test]
fn conversion_record_event_mirrors_the_record() {
    let mut config = test_config(50, 1000);
    let mut ys = test_pool(&config, YieldSourceType::TBill, 1);
    let mut pos = UserPosition::blank();
    let wl = valid_kyc();
    let sov = sovereign_record(&USER, 2);

    let (mut pending, _ev) =
        deposit_jpy(&mut config, &mut pos, &USER, &CONFIG_KEY, &wl, &sov, 1_000_000, 0, NOW)
            .unwrap();
    let oracle = oracle_record(155_000_000, NOW);
    let (record, _ev) =
        execute_conversion(&mut config, &mut pending, &mut pos, &mut ys, &oracle, NOW).unwrap();

    let ev = record.created_event();
    assert_eq!(ev.user, record.user);
    assert_eq!(ev.jpy_amount, record.jpy_amount);
    assert_eq!(ev.usdc_amount, record.usdc_amount);
    assert_eq!(ev.exchange_rate, record.exchange_rate);
    assert_eq!(ev.nonce, record.nonce);
    assert_eq!(ev.timestamp, record.timestamp);
}

#[test]
fn settlement_price_guards() {
    let mut config = test_config(50, 1000);
    let mut ys = test_pool(&config, YieldSourceType::TBill, 1);
    let mut pos = UserPosition::blank();
    let wl = valid_kyc();
    let sov = sovereign_record(&USER, 2);

    let (mut pending, _ev) =
        deposit_jpy(&mut config, &mut pos, &USER, &CONFIG_KEY, &wl, &sov, 1_000_000, 0, NOW)
            .unwrap();

    let short = vec![0u8; 55];
    let r = execute_conversion(&mut config, &mut pending, &mut pos, &mut ys, &short, NOW);
    assert_eq!(r.unwrap_err(), ExodusError::InvalidPrice);

    let zero_price = oracle_record(0, NOW);
    let r = execute_conversion(&mut config, &mut pending, &mut pos, &mut ys, &zero_price, NOW);
    assert_eq!(r.unwrap_err(), ExodusError::InvalidPrice);

    assert_eq!(pending.status, DepositStatus::Pending);
}

#[test]
fn settlement_staleness_boundary_is_inclusive() {
    let mut config = test_config(50, 1000);
    let mut ys = test_pool(&config, YieldSourceType::TBill, 1);
    let mut pos = UserPosition::blank();
    let wl = valid_kyc();
    let sov = sovereign_record(&USER, 2);

    let (mut pending, _ev) =
        deposit_jpy(&mut config, &mut pos, &USER, &CONFIG_KEY, &wl, &sov, 1_000_000, 0, NOW)
            .unwrap();

    // A record 301 seconds old is stale and leaves everything unchanged.
    let stale = oracle_record(155_000_000, NOW - 301);
    let r = execute_conversion(&mut config, &mut pending, &mut pos, &mut ys, &stale, NOW);
    assert_eq!(r.unwrap_err(), ExodusError::StalePrice);
    assert_eq!(pending.status, DepositStatus::Pending);

    // A record exactly 300 seconds old still settles.
    let fresh_enough = oracle_record(155_000_000, NOW - 300);
    let r = execute_conversion(&mut config, &mut pending, &mut pos, &mut ys, &fresh_enough, NOW);
    assert!(r.is_ok());
    assert_eq!(pending.status, DepositStatus::Converted);
}

#[test]
fn settlement_after_expiry_fails() {
    let mut config = test_config(50, 1000);
    let mut ys = test_pool(&config, YieldSourceType::TBill, 1);
    let mut pos = UserPosition::blank();
    let wl = valid_kyc();
    let sov = sovereign_record(&USER, 2);

    let (mut pending, _ev) =
        deposit_jpy(&mut config, &mut pos, &USER, &CONFIG_KEY, &wl, &sov, 1_000_000, 0, NOW)
            .unwrap();

    let later = NOW + DAY + 1;
    let oracle = oracle_record(155_000_000, later);
    let r = execute_conversion(&mut config, &mut pending, &mut pos, &mut ys, &oracle, later);
    assert_eq!(r.unwrap_err(), ExodusError::DepositExpired);
    assert_eq!(pending.status, DepositStatus::Pending);
}

#[test]
fn withdraw_round_trip_never_returns_more() {
    let mut config = test_config(50, 1000);
    let mut ys = test_pool(&config, YieldSourceType::TBill, 1);
    let mut pos = UserPosition::blank();
    let wl = valid_kyc();
    let sov = sovereign_record(&USER, 2);

    // NAV 1.500000: a 1,000-unit deposit buys floor(1000e6/1.5e6) = 666
    // shares; redeeming them immediately returns floor(666*1.5) = 999.
    let record = pool_record(1_500_000, 450);
    update_nav(&mut config, &mut ys, &record, NOW).unwrap();

    deposit_usdc(&mut config, &mut ys, &mut pos, &USER, &CONFIG_KEY, &wl, &sov, 1_000, NOW)
        .unwrap();
    assert_eq!(pos.current_shares, 666);

    let ev = withdraw(&mut config, &mut ys, &mut pos, &USER, 666, false, NOW).unwrap();
    assert_eq!(ev.shares_burned, 666);
    assert_eq!(ev.usdc_received, 999);
    assert!(ev.usdc_received <= 1_000);
    assert_eq!(pos.current_shares, 0);
    assert_eq!(pos.withdrawal_count, 1);
    assert_eq!(ys.total_shares, 0);
}

#[test]
fn withdraw_guards() {
    let mut config = test_config(50, 1000);
    let mut ys = test_pool(&config, YieldSourceType::TBill, 1);
    let mut pos = UserPosition::blank();
    let wl = valid_kyc();
    let sov = sovereign_record(&USER, 2);
    deposit_usdc(&mut config, &mut ys, &mut pos, &USER, &CONFIG_KEY, &wl, &sov, 1_000, NOW)
        .unwrap();

    let r = withdraw(&mut config, &mut ys, &mut pos, &USER, 0, false, NOW);
    assert_eq!(r.unwrap_err(), ExodusError::ZeroAmount);

    let r = withdraw(&mut config, &mut ys, &mut pos, &USER, 1_001, false, NOW);
    assert_eq!(r.unwrap_err(), ExodusError::InsufficientShares);
    assert_eq!(pos.current_shares, 1_000);

    let mut paused = config;
    paused.is_active = false;
    let r = withdraw(&mut paused, &mut ys, &mut pos, &USER, 1, false, NOW);
    assert_eq!(r.unwrap_err(), ExodusError::ProtocolInactive);
}

#[test]
fn claim_yield_pays_once_and_converges() {
    // Performance fee of 1000 bps (10%).
    let mut config = test_config(50, 1000);
    let mut ys = test_pool(&config, YieldSourceType::TBill, 1);
    let mut pos = UserPosition::blank();
    let wl = valid_kyc();
    let sov = sovereign_record(&USER, 2);

    deposit_usdc(&mut config, &mut ys, &mut pos, &USER, &CONFIG_KEY, &wl, &sov, 10_000, NOW)
        .unwrap();

    // With nothing accrued there is nothing to claim.
    let r = claim_yield(&mut config, &ys, &mut pos, &USER, NOW);
    assert_eq!(r.unwrap_err(), ExodusError::NoYieldToClaim);

    // NAV rises 10%: position value 11,000 over a 10,000 cost basis.
    let record = pool_record(1_100_000, 450);
    update_nav(&mut config, &mut ys, &record, NOW).unwrap();

    let ev = claim_yield(&mut config, &ys, &mut pos, &USER, NOW).unwrap();
    assert_eq!(ev.yield_amount, 1_000);
    assert_eq!(ev.performance_fee, 100);
    assert_eq!(ev.net_yield, 900);
    // The gross gain is absorbed, pre-fee, by the realized counter.
    assert_eq!(pos.realized_yield_usdc, 1_000);
    assert_eq!(config.total_yield_earned, 1_000);

    // With no NAV change a second claim finds nothing left.
    let r = claim_yield(&mut config, &ys, &mut pos, &USER, NOW);
    assert_eq!(r.unwrap_err(), ExodusError::NoYieldToClaim);
    assert_eq!(pos.realized_yield_usdc, 1_000);
    assert_eq!(config.total_yield_earned, 1_000);
}

#[test]
fn update_nav_refreshes_pool_and_rejects_bad_records() {
    let mut config = test_config(50, 1000);
    let mut ys = test_pool(&config, YieldSourceType::TBill, 1);

    let record = pool_record(1_234_567, 450);
    let ev = update_nav(&mut config, &mut ys, &record, NOW + 60).unwrap();
    assert_eq!(ev.old_nav, 1_000_000);
    assert_eq!(ev.new_nav, 1_234_567);
    assert_eq!(ys.nav_per_share, 1_234_567);
    assert_eq!(ys.current_apy_bps, 450);
    assert_eq!(ys.last_nav_update, NOW + 60);

    let short = vec![0u8; 161];
    let r = update_nav(&mut config, &mut ys, &short, NOW + 120);
    assert_eq!(r.unwrap_err(), ExodusError::InvalidNav);
    assert_eq!(ys.nav_per_share, 1_234_567);

    let zero = pool_record(0, 450);
    let r = update_nav(&mut config, &mut ys, &zero, NOW + 120);
    assert_eq!(r.unwrap_err(), ExodusError::InvalidNav);
    assert_eq!(ys.nav_per_share, 1_234_567);
    assert_eq!(ys.last_nav_update, NOW + 60);
}

#[test]
fn deposit_usdc_zero_amount_fails() {
    let mut config = test_config(50, 1000);
    let mut ys = test_pool(&config, YieldSourceType::TBill, 0);
    let mut pos = UserPosition::blank();
    let wl = valid_kyc();
    let sov = sovereign_record(&USER, 2);
    let r = deposit_usdc(&mut config, &mut ys, &mut pos, &USER, &CONFIG_KEY, &wl, &sov, 0, NOW);
    assert_eq!(r.unwrap_err(), ExodusError::ZeroAmount);
}

#[test]
fn tier_record_owned_by_someone_else_fails() {
    let mut config = test_config(50, 1000);
    let mut pos = UserPosition::blank();
    let wl = valid_kyc();
    let sov = sovereign_record(&[9u8; 32], 2);
    let r = deposit_jpy(&mut config, &mut pos, &USER, &CONFIG_KEY, &wl, &sov, 1, 0, NOW);
    assert_eq!(r.unwrap_err(), ExodusError::TierUnavailable);
}

#[test]
fn settlement_accepts_future_dated_price() {
    let mut config = test_config(50, 1000);
    let mut ys = test_pool(&config, YieldSourceType::TBill, 1);
    let mut pos = UserPosition::blank();
    let wl = valid_kyc();
    let sov = sovereign_record(&USER, 2);

    let (mut pending, _ev) =
        deposit_jpy(&mut config, &mut pos, &USER, &CONFIG_KEY, &wl, &sov, 1_000_000, 0, NOW)
            .unwrap();
    // A record stamped slightly ahead of the clock has negative age and is
    // not stale.
    let oracle = oracle_record(155_000_000, NOW + 100);
    let r = execute_conversion(&mut config, &mut pending, &mut pos, &mut ys, &oracle, NOW);
    assert!(r.is_ok());
}

#[test]
fn claim_value_overflow_is_reported() {
    let mut config = test_config(50, 1000);
    let mut ys = test_pool(&config, YieldSourceType::TBill, 1);
    let mut pos = UserPosition::blank();
    let wl = valid_kyc();
    let sov = sovereign_record(&USER, 4);

    // A maximal position at genesis NAV, then a doubled NAV: the position
    // value no longer fits 64 bits.
    deposit_usdc(&mut config, &mut ys, &mut pos, &USER, &CONFIG_KEY, &wl, &sov, u64::MAX, NOW)
        .unwrap();
    let record = pool_record(2_000_000, 450);
    update_nav(&mut config, &mut ys, &record, NOW).unwrap();

    let r = claim_yield(&mut config, &ys, &mut pos, &USER, NOW);
    assert_eq!(r.unwrap_err(), ExodusError::ArithmeticOverflow);
    assert_eq!(pos.realized_yield_usdc, 0);
}

#[test]
fn monthly_overflow_is_reported() {
    let mut config = test_config(50, 1000);
    let mut pos = UserPosition::blank();
    let wl = valid_kyc();
    let sov = sovereign_record(&USER, 4);

    // Tier 4 is unlimited, so the first enormous deposit passes ...
    deposit_jpy(&mut config, &mut pos, &USER, &CONFIG_KEY, &wl, &sov, u64::MAX, 0, NOW).unwrap();
    // ... and the second fails in the widened monthly addition.
    let r = deposit_jpy(&mut config, &mut pos, &USER, &CONFIG_KEY, &wl, &sov, 1, 0, NOW);
    assert_eq!(r.unwrap_err(), ExodusError::ArithmeticOverflow);
}
