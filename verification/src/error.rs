//! The reasons why the treasury refuses a call.

use vstd::prelude::*;

verus! {

/// Why a call was refused.
#[derive(Clone, Copy, Debug, PartialEq, Eq)]
pub enum KoraError {
    /// The treasury has an administrator already.
    AlreadyInitialized,
    /// The treasury has no administrator yet.
    NotInitialized,
    /// The caller is not the administrator.
    NotAdmin,
    /// The contract's own address was given where another one is due.
    InvalidAddress,
    /// The fee rate exceeds the whole.
    InvalidFeeBps,
    /// The amount is out of range.
    InvalidAmount,
    /// A total does not fit its type.
    ArithmeticOverflow,
    /// The token is not whitelisted.
    TokenNotWhitelisted,
    /// The treasury holds less of the token than was asked for.
    InsufficientPoolBalance,
    /// The withdrawal would exceed the cap of the current epoch.
    WithdrawalRateLimitExceeded,
    /// Another withdrawal is under way.
    ReentrantCall,
    /// The token's contract did not do as it was asked.
    TokenCallFailed,
    /// No cap change is pending.
    NoCapChangeProposed,
    /// The pending cap change has not waited long enough.
    WithdrawalCapTimelockNotElapsed,
    /// No upgrade is pending.
    NoUpgradeProposed,
    /// The pending upgrade has not waited long enough.
    UpgradeTimelockNotElapsed,
}

} // verus!
