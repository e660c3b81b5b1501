//! The boundary to the host ledger runtime: the identity and error types it
//! defines, and its trusted clock.

use anchor_lang::prelude::{Clock, ProgramError, SolanaSysvar};
use vstd::prelude::*;

verus! {

/// `anchor_lang::prelude::Pubkey`, the ledger's 32-byte identity handle.
/// Nothing is claimed of its contents, which are never inspected here:
/// values are only carried from the request into the record.
#[verifier::external_type_specification]
#[verifier::external_body]
pub struct ExPubkey(anchor_lang::prelude::Pubkey);

/// `anchor_lang::prelude::ProgramError`, the error type of the host
/// runtime's system calls. Nothing is claimed of its contents.
#[verifier::external_type_specification]
#[verifier::external_body]
pub struct ExProgramError(anchor_lang::prelude::ProgramError);

/// Calls `Clock::get` (the `Sysvar::get` of the runtime's clock) and picks
/// `unix_timestamp` from the value it returns, or hands on the error with
/// which the runtime refused the read. Nothing is claimed of the outcome:
/// the time differs from call to call, and outside a ledger transaction the
/// runtime supplies no clock at all.
#[verifier::external_body]
pub(crate) fn read_clock() -> (reading: Result<i64, ProgramError>) {
    match Clock::get() {
        Ok(clock) => Ok(clock.unix_timestamp),
        Err(e) => Err(e),
    }
}

} // verus!
