//! The T-Bill vault: the external yield pool's own accounting. Shares are
//! issued and redeemed at a NAV per share that a keeper crank accrues
//! toward a target APY.

use vstd::prelude::*;
use crate::keys::{key_eq, Pubkey};
use crate::share_math::{NAV_SCALE, spec_scaled_div, spec_scaled_mul};

verus! {

pub const SECONDS_PER_YEAR: u64 = 365 * 24 * 60 * 60;

/// Highest target APY the vault accepts, in basis points.
pub const MAX_APY_BPS: u16 = 5000;

#[derive(Clone, Copy, Debug, PartialEq, Eq, Structural)]
pub enum TBillVaultError {
    /// Target APY above the cap.
    InvalidApy,
    /// The vault's active flag is off.
    VaultNotActive,
    /// Deposit of zero.
    ZeroDeposit,
    /// Withdrawal of zero shares.
    ZeroWithdrawal,
    /// Requested shares exceed the user's balance.
    InsufficientShares,
    /// The vault's custody holds less than the redemption value.
    InsufficientVaultBalance,
    /// A checked multiply, divide, add or subtract failed.
    MathOverflow,
    /// Caller is not the vault authority.
    Unauthorized,
}

/// Global vault configuration and accounting state.
#[derive(Clone, Copy, Debug)]
pub struct VaultConfig {
    /// Authority that administers the vault.
    pub authority: Pubkey,
    /// USDC mint.
    pub usdc_mint: Pubkey,
    /// Share token mint.
    pub share_mint: Pubkey,
    /// Custody account holding the vault's USDC.
    pub usdc_vault: Pubkey,
    /// Target APY in basis points.
    pub target_apy_bps: u16,
    /// Total USDC deposited (accounting value, not custody balance).
    pub total_deposits: u64,
    /// Total shares outstanding.
    pub total_shares: u64,
    /// NAV per share, scale 1e6 (starts at exactly 1.000000).
    pub nav_per_share: u64,
    /// Last time yield was accrued.
    pub last_accrual: i64,
    /// Whether the vault accepts deposits and withdrawals.
    pub is_active: bool,
}

impl VaultConfig {
    /// Share math divides by the NAV, so the vault always carries a
    /// positive NAV per share.
    pub open spec fn wf(self) -> bool {
        self.nav_per_share >= 1
    }
}

/// Per-user share tracking.
#[derive(Clone, Copy, Debug)]
pub struct UserShares {
    /// User who owns these shares.
    pub user: Pubkey,
    /// Reference to the vault.
    pub vault: Pubkey,
    /// Number of share tokens held.
    pub shares: u64,
    /// Total USDC this user deposited.
    pub deposited_usdc: u64,
    /// Timestamp of the last deposit.
    pub last_deposit_at: i64,
}

/// Create the vault: genesis NAV of exactly 1.000000, zero totals, active.
pub fn initialize_vault(
    authority: &Pubkey,
    usdc_mint: &Pubkey,
    share_mint: &Pubkey,
    usdc_vault: &Pubkey,
    target_apy_bps: u16,
    now: i64,
) -> (r: Result<VaultConfig, TBillVaultError>)
    ensures
        match r {
            Err(e) => e == TBillVaultError::InvalidApy && target_apy_bps > MAX_APY_BPS,
            Ok(vault) => {
                &&& target_apy_bps <= MAX_APY_BPS
                &&& vault == (VaultConfig {
                    authority: *authority,
                    usdc_mint: *usdc_mint,
                    share_mint: *share_mint,
                    usdc_vault: *usdc_vault,
                    target_apy_bps,
                    total_deposits: 0u64,
                    total_shares: 0u64,
                    nav_per_share: NAV_SCALE,
                    last_accrual: now,
                    is_active: true,
                })
                &&& vault.wf()
            },
        },
{
    if target_apy_bps > MAX_APY_BPS {
        return Err(TBillVaultError::InvalidApy);
    }
    Ok(
        VaultConfig {
            authority: *authority,
            usdc_mint: *usdc_mint,
            share_mint: *share_mint,
            usdc_vault: *usdc_vault,
            target_apy_bps,
            total_deposits: 0,
            total_shares: 0,
            nav_per_share: NAV_SCALE,
            last_accrual: now,
            is_active: true,
        },
    )
}

/// The first failure a vault deposit hits; `None` means it goes through.
/// The vault multiplies in 64 bits, so a deposit whose scaled value
/// exceeds the width fails even before the division.
pub open spec fn spec_vault_deposit_error(
    vault: VaultConfig,
    us: UserShares,
    usdc_amount: u64,
) -> Option<TBillVaultError> {
    let shares = spec_scaled_div(usdc_amount as int, vault.nav_per_share as int);
    if !vault.is_active {
        Some(TBillVaultError::VaultNotActive)
    } else if usdc_amount == 0 {
        Some(TBillVaultError::ZeroDeposit)
    } else if usdc_amount * NAV_SCALE > u64::MAX {
        Some(TBillVaultError::MathOverflow)
    } else if vault.total_deposits + usdc_amount > u64::MAX {
        Some(TBillVaultError::MathOverflow)
    } else if vault.total_shares + shares > u64::MAX {
        Some(TBillVaultError::MathOverflow)
    } else if us.shares + shares > u64::MAX {
        Some(TBillVaultError::MathOverflow)
    } else if us.deposited_usdc + usdc_amount > u64::MAX {
        Some(TBillVaultError::MathOverflow)
    } else {
        None
    }
}

/// Deposit USDC and receive `floor(amount * 1e6 / nav)` shares. The host
/// moves the USDC into custody and mints the returned share count only
/// when this returns `Ok`; on `Err` nothing changed.
pub fn deposit(
    vault: &mut VaultConfig,
    user_shares: &mut UserShares,
    user: &Pubkey,
    vault_key: &Pubkey,
    usdc_amount: u64,
    now: i64,
) -> (r: Result<u64, TBillVaultError>)
    requires
        old(vault).wf(),
    ensures
        ({
            let err = spec_vault_deposit_error(*old(vault), *old(user_shares), usdc_amount);
            match r {
                Err(e) => err == Some(e) && *final(vault) == *old(vault) && *final(user_shares)
                    == *old(user_shares),
                Ok(shares) => {
                    &&& err is None
                    &&& shares == spec_scaled_div(usdc_amount as int, old(vault).nav_per_share as int)
                    &&& *final(vault) == (VaultConfig {
                        total_deposits: (old(vault).total_deposits + usdc_amount) as u64,
                        total_shares: (old(vault).total_shares + shares) as u64,
                        ..*old(vault)
                    })
                    &&& *final(user_shares) == (UserShares {
                        user: *user,
                        vault: *vault_key,
                        shares: (old(user_shares).shares + shares) as u64,
                        deposited_usdc: (old(user_shares).deposited_usdc + usdc_amount) as u64,
                        last_deposit_at: now,
                    })
                },
            }
        }),
{
    if !vault.is_active {
        return Err(TBillVaultError::VaultNotActive);
    }
    if usdc_amount == 0 {
        return Err(TBillVaultError::ZeroDeposit);
    }
    let scaled = match usdc_amount.checked_mul(NAV_SCALE) {
        None => {
            return Err(TBillVaultError::MathOverflow);
        },
        Some(v) => v,
    };
    let shares = scaled / vault.nav_per_share;
    let new_deposits = match vault.total_deposits.checked_add(usdc_amount) {
        None => {
            return Err(TBillVaultError::MathOverflow);
        },
        Some(v) => v,
    };
    let new_total_shares = match vault.total_shares.checked_add(shares) {
        None => {
            return Err(TBillVaultError::MathOverflow);
        },
        Some(v) => v,
    };
    let new_user_shares = match user_shares.shares.checked_add(shares) {
        None => {
            return Err(TBillVaultError::MathOverflow);
        },
        Some(v) => v,
    };
    let new_user_deposited = match user_shares.deposited_usdc.checked_add(usdc_amount) {
        None => {
            return Err(TBillVaultError::MathOverflow);
        },
        Some(v) => v,
    };

    vault.total_deposits = new_deposits;
    vault.total_shares = new_total_shares;

    user_shares.user = *user;
    user_shares.vault = *vault_key;
    user_shares.shares = new_user_shares;
    user_shares.deposited_usdc = new_user_deposited;
    user_shares.last_deposit_at = now;

    Ok(shares)
}

/// The first failure a vault withdrawal hits; `None` means it goes
/// through. `custody_balance` is what the vault's USDC custody actually
/// holds; redemption never pays out more than that.
pub open spec fn spec_vault_withdraw_error(
    vault: VaultConfig,
    us: UserShares,
    shares: u64,
    custody_balance: u64,
) -> Option<TBillVaultError> {
    let usdc_out = spec_scaled_mul(shares as int, vault.nav_per_share as int);
    if !vault.is_active {
        Some(TBillVaultError::VaultNotActive)
    } else if shares == 0 {
        Some(TBillVaultError::ZeroWithdrawal)
    } else if us.shares < shares {
        Some(TBillVaultError::InsufficientShares)
    } else if shares * vault.nav_per_share > u64::MAX {
        Some(TBillVaultError::MathOverflow)
    } else if custody_balance < usdc_out {
        Some(TBillVaultError::InsufficientVaultBalance)
    } else if vault.total_shares < shares {
        Some(TBillVaultError::MathOverflow)
    } else {
        None
    }
}

/// Burn `shares` and redeem `floor(shares * nav / 1e6)` USDC. The host
/// burns the shares and transfers the returned amount only when this
/// returns `Ok`; on `Err` nothing changed.
pub fn withdraw(
    vault: &mut VaultConfig,
    user_shares: &mut UserShares,
    shares: u64,
    custody_balance: u64,
) -> (r: Result<u64, TBillVaultError>)
    ensures
        ({
            let err = spec_vault_withdraw_error(
                *old(vault),
                *old(user_shares),
                shares,
                custody_balance,
            );
            match r {
                Err(e) => err == Some(e) && *final(vault) == *old(vault) && *final(user_shares)
                    == *old(user_shares),
                Ok(usdc_out) => {
                    &&& err is None
                    &&& usdc_out == spec_scaled_mul(shares as int, old(vault).nav_per_share as int)
                    &&& *final(vault) == (VaultConfig {
                        total_deposits: if old(vault).total_deposits >= usdc_out {
                            (old(vault).total_deposits - usdc_out) as u64
                        } else {
                            0u64
                        },
                        total_shares: (old(vault).total_shares - shares) as u64,
                        ..*old(vault)
                    })
                    &&& *final(user_shares) == (UserShares {
                        shares: (old(user_shares).shares - shares) as u64,
                        ..*old(user_shares)
                    })
                },
            }
        }),
{
    if !vault.is_active {
        return Err(TBillVaultError::VaultNotActive);
    }
    if shares == 0 {
        return Err(TBillVaultError::ZeroWithdrawal);
    }
    if user_shares.shares < shares {
        return Err(TBillVaultError::InsufficientShares);
    }
    let scaled = match shares.checked_mul(vault.nav_per_share) {
        None => {
            return Err(TBillVaultError::MathOverflow);
        },
        Some(v) => v,
    };
    let usdc_out = scaled / NAV_SCALE;
    if custody_balance < usdc_out {
        return Err(TBillVaultError::InsufficientVaultBalance);
    }
    let new_total_shares = match vault.total_shares.checked_sub(shares) {
        None => {
            return Err(TBillVaultError::MathOverflow);
        },
        Some(v) => v,
    };

    vault.total_deposits = vault.total_deposits.saturating_sub(usdc_out);
    vault.total_shares = new_total_shares;
    user_shares.shares = user_shares.shares - shares;

    Ok(usdc_out)
}

/// Linear accrual toward the target APY over the elapsed time:
/// `nav * apy_bps * elapsed / (10_000 * seconds_per_year)`.
pub open spec fn spec_accrual(nav: u64, apy_bps: u16, elapsed: int) -> int {
    nav * apy_bps * elapsed / (10_000 * SECONDS_PER_YEAR as int)
}

/// The first failure the accrual crank hits; `None` means it runs (which
/// includes the do-nothing case of zero elapsed time or zero shares).
pub open spec fn spec_accrue_error(vault: VaultConfig, now: i64) -> Option<TBillVaultError> {
    let elapsed = now - vault.last_accrual;
    let accrual = spec_accrual(vault.nav_per_share, vault.target_apy_bps, elapsed);
    if !vault.is_active {
        Some(TBillVaultError::VaultNotActive)
    } else if elapsed == 0 || vault.total_shares == 0 {
        None
    } else if accrual > u64::MAX {
        Some(TBillVaultError::MathOverflow)
    } else if vault.nav_per_share + accrual > u64::MAX {
        Some(TBillVaultError::MathOverflow)
    } else {
        None
    }
}

/// Keeper crank: raise the NAV by the yield accrued since the last crank.
/// With no elapsed time or no shares outstanding nothing changes and the
/// crank still succeeds.
pub fn accrue_yield(vault: &mut VaultConfig, now: i64) -> (r: Result<(), TBillVaultError>)
    requires
        0 <= old(vault).last_accrual <= now,
    ensures
        ({
            let elapsed = now - old(vault).last_accrual;
            let accrual = spec_accrual(
                old(vault).nav_per_share,
                old(vault).target_apy_bps,
                elapsed,
            );
            let err = spec_accrue_error(*old(vault), now);
            match r {
                Err(e) => err == Some(e) && *final(vault) == *old(vault),
                Ok(u) => {
                    &&& err is None
                    &&& if elapsed == 0 || old(vault).total_shares == 0 {
                        *final(vault) == *old(vault)
                    } else {
                        *final(vault) == (VaultConfig {
                            nav_per_share: (old(vault).nav_per_share + accrual) as u64,
                            last_accrual: now,
                            ..*old(vault)
                        })
                    }
                },
            }
        }),
{
    if !vault.is_active {
        return Err(TBillVaultError::VaultNotActive);
    }
    let elapsed: u64 = (now - vault.last_accrual) as u64;
    if elapsed == 0 || vault.total_shares == 0 {
        return Ok(());
    }
    proof {
        vstd::arithmetic::mul::lemma_mul_upper_bound(
            vault.nav_per_share as int,
            u64::MAX as int,
            vault.target_apy_bps as int,
            u16::MAX as int,
        );
    }
    let step1: u128 = (vault.nav_per_share as u128) * (vault.target_apy_bps as u128);
    let step2 = match step1.checked_mul(elapsed as u128) {
        None => {
            proof {
                // The full product exceeds the 128-bit width, so the
                // accrual is far beyond the 64-bit width as well.
                let big = 0x1_0000_0000_0000_0000_0000_0000_0000_0000int;
                let d = 10_000 * (SECONDS_PER_YEAR as int);
                let bound = u64::MAX as int + 1;
                let product = (step1 as int) * (elapsed as int);
                assert(d * bound == 5_817_365_211_085_044_197_621_760_000_000int)
                    by (nonlinear_arith)
                    requires
                        d == 315_360_000_000,
                        bound == 0x1_0000_0000_0000_0000int,
                ;
                vstd::arithmetic::div_mod::lemma_div_multiples_vanish(bound, d);
                vstd::arithmetic::div_mod::lemma_div_is_ordered(d * bound, big, d);
                vstd::arithmetic::div_mod::lemma_div_is_ordered(big, product, d);
            }
            return Err(TBillVaultError::MathOverflow);
        },
        Some(v) => v,
    };
    let accrual_wide: u128 = step2 / (10_000u128 * (SECONDS_PER_YEAR as u128));
    if accrual_wide > u64::MAX as u128 {
        return Err(TBillVaultError::MathOverflow);
    }
    let accrual = accrual_wide as u64;
    let new_nav = match vault.nav_per_share.checked_add(accrual) {
        None => {
            return Err(TBillVaultError::MathOverflow);
        },
        Some(v) => v,
    };
    vault.nav_per_share = new_nav;
    vault.last_accrual = now;
    Ok(())
}

/// Admin: set a new target APY, within the cap.
pub fn update_apy(vault: &mut VaultConfig, authority: &Pubkey, new_apy_bps: u16) -> (r: Result<
    (),
    TBillVaultError,
>)
    ensures
        match r {
            Err(e) => {
                &&& *final(vault) == *old(vault)
                &&& if new_apy_bps > MAX_APY_BPS {
                    e == TBillVaultError::InvalidApy
                } else {
                    e == TBillVaultError::Unauthorized && authority@ != old(vault).authority@
                }
            },
            Ok(u) => {
                &&& new_apy_bps <= MAX_APY_BPS
                &&& authority@ == old(vault).authority@
                &&& *final(vault) == (VaultConfig { target_apy_bps: new_apy_bps, ..*old(vault) })
            },
        },
{
    if new_apy_bps > MAX_APY_BPS {
        return Err(TBillVaultError::InvalidApy);
    }
    if !key_eq(authority, &vault.authority) {
        return Err(TBillVaultError::Unauthorized);
    }
    vault.target_apy_bps = new_apy_bps;
    Ok(())
}

} // verus!
