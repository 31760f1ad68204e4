//! Errors of the locker operations.
use vstd::prelude::*;

verus! {

/// Why an operation was refused. A refused operation changes nothing.
#[derive(Clone, Copy, Debug, PartialEq, Eq, Structural)]
pub enum ErrorCode {
    /// Lockup duration must at least be the min stake duration.
    LockupDurationTooShort,
    /// Lockup duration must at most be the max stake duration.
    LockupDurationTooLong,
    /// A voting escrow refresh cannot shorten the escrow time remaining.
    RefreshCannotShorten,
    /// Escrow has not ended.
    EscrowNotEnded,
    /// Maxlock is set.
    MaxLockIsSet,
    /// Cannot set expiration less than the current time.
    ExpirationIsLessThanCurrentTime,
    /// Locker is expired.
    LockerIsExpired,
    /// Expiration is not zero.
    ExpirationIsNotZero,
    /// Amount is zero.
    AmountIsZero,
    /// Maxlock is not set.
    MaxLockIsNotSet,
    /// Invalid amount for partial unstaking.
    InvalidAmountForPartialUnstaking,
    /// Escrow has been ended.
    EscrowHasBeenEnded,
    /// Invalid unstaking lock duration.
    InvalidUnstakingLockDuration,
    /// Partial unstaking amount is not zero.
    PartialUnstakingAmountIsNotZero,
    /// Partial unstaking has not ended.
    PartialUnstakingIsNotEnded,
    /// Amount is too large.
    AmountIsTooLarge,
    /// A balance or counter computation overflowed or underflowed.
    MathOverflow,
    /// The signer is not the owner or administrator the operation requires.
    Unauthorized,
    /// Referenced records do not belong together (escrow and locker, ticket
    /// and escrow, transfer request and escrows).
    KeyMismatch,
    /// Locker parameters break `min_stake_duration <= max_stake_duration`
    /// or have a zero multiplier.
    InvalidLockerParams,
}

impl ErrorCode {
    /// The human-readable message of the error.
    pub fn message(&self) -> (r: &'static str) {
        match self {
            ErrorCode::LockupDurationTooShort => "Lockup duration must at least be the min stake duration",
            ErrorCode::LockupDurationTooLong => "Lockup duration must at most be the max stake duration",
            ErrorCode::RefreshCannotShorten => "A voting escrow refresh cannot shorten the escrow time remaining",
            ErrorCode::EscrowNotEnded => "Escrow has not ended",
            ErrorCode::MaxLockIsSet => "Maxlock is set",
            ErrorCode::ExpirationIsLessThanCurrentTime => "Cannot set expiration less than the current time",
            ErrorCode::LockerIsExpired => "Locker is expired",
            ErrorCode::ExpirationIsNotZero => "Expiration is not zero",
            ErrorCode::AmountIsZero => "Amount is zero",
            ErrorCode::MaxLockIsNotSet => "Maxlock is not set",
            ErrorCode::InvalidAmountForPartialUnstaking => "Invalid amount for partial unstaking",
            ErrorCode::EscrowHasBeenEnded => "Escrow has been ended",
            ErrorCode::InvalidUnstakingLockDuration => "Invalid unstaking lock duration",
            ErrorCode::PartialUnstakingAmountIsNotZero => "Partial unstaking amount is not zero",
            ErrorCode::PartialUnstakingIsNotEnded => "Partial unstaking has not ended",
            ErrorCode::AmountIsTooLarge => "Amount is too large",
            ErrorCode::MathOverflow => "Arithmetic overflow or underflow",
            ErrorCode::Unauthorized => "Signer is not authorized",
            ErrorCode::KeyMismatch => "Referenced accounts do not match",
            ErrorCode::InvalidLockerParams => "Invalid locker parameters",
        }
    }
}

} // verus!
