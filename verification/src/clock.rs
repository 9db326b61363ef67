use anchor_lang::prelude::Clock;
use anchor_lang::prelude::ProgramError;
use anchor_lang::prelude::SolanaSysvar;
use vstd::prelude::*;

use crate::error::EscrowError;

verus! {

/// The runtime's error type, carried through opaquely.
#[verifier::external_type_specification]
#[verifier::external_body]
pub struct ExProgramError(ProgramError);

/// Reads the clock sysvar with `Clock::get` and hands back its `unix_timestamp`,
/// or the runtime's error when the sysvar cannot be read. Nothing is claimed of
/// the time it reports: it is whatever the cluster clock says at the call.
#[verifier::external_body]
fn clock_unix_timestamp() -> Result<i64, ProgramError> {
    match Clock::get() {
        Ok(clock) => Ok(clock.unix_timestamp),
        Err(error) => Err(error),
    }
}

/// Maps the runtime's failure to read the clock to the library's error.
pub fn clock_error(error: ProgramError) -> (e: EscrowError)
    ensures
        e == EscrowError::ClockUnavailable,
{
    EscrowError::ClockUnavailable
}

/// The time a clock read gives: the time it reported, or `ClockUnavailable`
/// when the read failed.
pub open spec fn spec_time_from_clock(read: Result<i64, ProgramError>) -> Result<i64, EscrowError> {
    match read {
        Ok(now) => Ok(now),
        Err(_) => Err(EscrowError::ClockUnavailable),
    }
}

/// Turns a clock read into a time: the time it reported, or
/// `ClockUnavailable` when the read failed.
pub fn time_from_clock(read: Result<i64, ProgramError>) -> (r: Result<i64, EscrowError>)
    ensures
        r == spec_time_from_clock(read),
{
    match read {
        Ok(now) => Ok(now),
        Err(error) => Err(clock_error(error)),
    }
}

/// The current cluster time in seconds, or `ClockUnavailable` when the clock
/// cannot be read.
pub fn current_time() -> (r: Result<i64, EscrowError>)
    ensures
        r is Err ==> r == Err::<i64, EscrowError>(EscrowError::ClockUnavailable),
{
    time_from_clock(clock_unix_timestamp())
}

} // verus!
