//! NAV refresh: a keeper copies the external pool's current NAV per share
//! and target APY into the registry. A malformed or non-positive NAV is
//! rejected and never silently substituted.

use vstd::prelude::*;
use crate::codec::{le_u16_at, le_u64_at};
use crate::errors::ExodusError;
use crate::events::NavUpdated;
use crate::protocol_config::ProtocolConfig;
use crate::records::{read_pool_nav, POOL_RECORD_MIN_LEN};
use crate::yield_source::YieldSource;

verus! {

/// The first failure a NAV refresh hits; `None` means the refresh goes
/// through.
pub open spec fn spec_update_nav_error(vault_data: Seq<u8>) -> Option<ExodusError> {
    if vault_data.len() < POOL_RECORD_MIN_LEN {
        Some(ExodusError::InvalidNav)
    } else if le_u64_at(vault_data, 154) == 0 {
        Some(ExodusError::InvalidNav)
    } else {
        None
    }
}

/// Refresh the pool's NAV per share and target APY from the external
/// pool's record. On `Ok` the pool's NAV is positive again, so the share
/// math the other operations rely on stays well defined.
pub fn update_nav(
    config: &mut ProtocolConfig,
    ys: &mut YieldSource,
    vault_data: &[u8],
    now: i64,
) -> (r: Result<NavUpdated, ExodusError>)
    ensures
        ({
            let err = spec_update_nav_error(vault_data@);
            match r {
                Err(e) => err == Some(e) && *final(config) == *old(config) && *final(ys) == *old(
                    ys,
                ),
                Ok(ev) => {
                    &&& err is None
                    &&& *final(ys) == (YieldSource {
                        nav_per_share: le_u64_at(vault_data@, 154) as u64,
                        current_apy_bps: le_u16_at(vault_data@, 136) as u16,
                        last_nav_update: now,
                        ..*old(ys)
                    })
                    &&& final(ys).wf()
                    &&& *final(config) == (ProtocolConfig { updated_at: now, ..*old(config) })
                    &&& ev == (NavUpdated {
                        old_nav: old(ys).nav_per_share,
                        new_nav: le_u64_at(vault_data@, 154) as u64,
                        timestamp: now,
                    })
                },
            }
        }),
{
    let record = match read_pool_nav(vault_data) {
        Err(e) => {
            return Err(e);
        },
        Ok(v) => v,
    };
    if record.nav_per_share == 0 {
        return Err(ExodusError::InvalidNav);
    }
    let old_nav = ys.nav_per_share;
    ys.nav_per_share = record.nav_per_share;
    ys.current_apy_bps = record.target_apy_bps;
    ys.last_nav_update = now;
    config.updated_at = now;
    Ok(NavUpdated { old_nav, new_nav: record.nav_per_share, timestamp: now })
}

} // verus!
