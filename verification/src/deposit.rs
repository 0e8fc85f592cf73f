//! Lifecycle tags shared by the pending-conversion queue and the audit
//! trail.

use vstd::prelude::*;

verus! {

/// State machine of a pending fiat deposit. `Pending` transitions exactly
/// once into one of the terminal states.
#[derive(Clone, Copy, Debug, PartialEq, Eq, Structural)]
pub enum DepositStatus {
    Pending,
    Converting,
    Converted,
    Cancelled,
    Expired,
}

/// Direction of a settled conversion.
#[derive(Clone, Copy, Debug, PartialEq, Eq, Structural)]
pub enum ConversionDirection {
    JpyToUsdc,
    UsdcToJpy,
}

} // verus!
