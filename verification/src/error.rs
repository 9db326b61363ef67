use vstd::prelude::*;

verus! {

/// The escrow program's own error codes.
#[derive(Clone, Copy, Debug, PartialEq, Eq, Structural)]
pub enum ErrorCode {
    /// The escrow has expired.
    EscrowExpired,
    /// The deposit amount must be greater than zero.
    InvalidDepositAmount,
    /// The requested receive amount must be greater than zero.
    InvalidReceiveAmount,
    /// The minimum receive amount must be greater than zero.
    InvalidMinimumReceiveAmount,
    /// The opening price must not be below the floor price.
    InvalidPriceRange,
    /// The deposit and receive mints must be different.
    IdenticalMints,
    /// The auction schedule is not in order.
    InvalidAuctionSchedule,
    /// The escrow vault is empty.
    EmptyVault,
    /// The auction has not started yet.
    AuctionNotStarted,
    /// Only the preferred taker may take during the exclusive window.
    NotPreferredTaker,
    /// The offer cannot be cancelled while the auction runs.
    AuctionInProgress,
}

/// Why an instruction was refused.
#[derive(Clone, Copy, Debug, PartialEq, Eq, Structural)]
pub enum EscrowError {
    /// One of the program's own checks failed.
    Program(ErrorCode),
    /// An account does not match the one the escrow records (the `has_one` constraint).
    ConstraintHasOne,
    /// The cluster clock could not be read.
    ClockUnavailable,
}

} // verus!
