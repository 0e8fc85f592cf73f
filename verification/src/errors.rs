//! Error taxonomy of the core. Every failing operation aborts with no state
//! change and surfaces one of these distinguishable kinds.

use vstd::prelude::*;

verus! {

#[derive(Clone, Copy, Debug, PartialEq, Eq, Structural)]
pub enum ExodusError {
    /// The protocol's active flag is off.
    ProtocolInactive,
    /// Deposit or withdrawal amount of zero.
    ZeroAmount,
    /// The authorization record is missing, malformed, owned by someone
    /// else, or marked inactive.
    AuthorizationRequired,
    /// The authorization record carries the blocked jurisdiction code.
    JurisdictionRestricted,
    /// The authorization record has expired.
    AuthorizationExpired,
    /// The tier record is missing, malformed or owned by someone else.
    TierUnavailable,
    /// The user's tier is the zero ("unverified") tier.
    TierTooLow,
    /// Deposit would push the rolling 30-day total over the tier's limit.
    MonthlyLimitExceeded,
    /// The target pool does not accept deposits.
    PoolNotActive,
    /// Deposit amount is below the pool's minimum.
    BelowMinimum,
    /// The pool's kind is not available to the user's tier.
    PoolTypeNotAllowed,
    /// Widening multiply/divide result does not fit the target width.
    ArithmeticOverflow,
    /// The pending conversion passed its expiry timestamp.
    DepositExpired,
    /// The oracle price record is malformed or carries a non-positive price.
    InvalidPrice,
    /// The oracle price record is older than the freshness bound.
    StalePrice,
    /// Net conversion output fell below the stored minimum.
    SlippageExceeded,
    /// The pending conversion is already in a terminal state.
    InvalidState,
    /// The external pool's NAV record is malformed or non-positive.
    InvalidNav,
    /// Requested shares exceed the user's balance.
    InsufficientShares,
    /// No claimable gain at the current NAV.
    NoYieldToClaim,
    /// A fee parameter exceeds its cap.
    InvalidFee,
    /// Caller is not the protocol authority.
    Unauthorized,
}

} // verus!
