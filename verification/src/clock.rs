//! The clock of the runtime that the program runs in.

use anchor_lang::prelude::{Clock, ProgramError, SolanaSysvar};
use vstd::prelude::*;

verus! {

/// `ProgramError` of Solana, as `anchor_lang` hands it on: why the runtime
/// refused a request. The library carries such a value to the caller and
/// never looks inside.
#[verifier::external_type_specification]
#[verifier::external_body]
pub struct ExProgramError(ProgramError);

/// Reads the time from the runtime's clock, in seconds since the Unix
/// epoch: `Clock::get` of `anchor_lang`, of which the field `unix_timestamp`
/// is kept.
///
/// Nothing is claimed of the answer. Inside the runtime it is the time of
/// the block being produced; outside of it no clock is installed, and the
/// answer is the error `UnsupportedSysvar`.
#[verifier::external_body]
pub(crate) fn unix_timestamp() -> (now: Result<i64, ProgramError>) {
    Clock::get().map(|clock| clock.unix_timestamp)
}

} // verus!
