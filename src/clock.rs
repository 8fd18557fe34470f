use vstd::prelude::*;

use anchor_lang::prelude::Clock;
use anchor_lang::solana_program::sysvar::Sysvar;

use crate::escrow::EscrowError;

verus! {

/// Relies on `Clock::get`: the ledger's clock, read from the runtime, which
/// may offer none.
#[verifier::external_body]
fn read_clock() -> (r: Option<i64>) {
    Clock::get().ok().map(|c| c.unix_timestamp)
}

/// The ledger's current time in seconds, for the timestamps of a record.
pub fn current_time() -> (r: Result<i64, EscrowError>)
    ensures
        r is Err ==> r == Err::<i64, EscrowError>(EscrowError::ClockUnavailable),
{
    match read_clock() {
        Some(t) => Ok(t),
        None => Err(EscrowError::ClockUnavailable),
    }
}

} // verus!
