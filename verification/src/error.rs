//! The ways in which an operation can be refused.

use anchor_lang::prelude::ProgramError;
use vstd::prelude::*;

verus! {

/// Why an operation was refused.
///
/// Every refusal is decided before anything is written: an operation that
/// returns one of these leaves all the records it was given as they were.
/// None of them is worth retrying with the same input.
#[derive(Clone, Copy, Debug, PartialEq, Eq, Hash, Structural)]
pub enum OracleError {
    /// The estimate is above 10000 basis points.
    InvalidEstimate,
    /// The confidence tier is not one of 0, 1, 2.
    InvalidConfidence,
    /// The caller is not the authority of the registry concerned.
    Unauthorized,
    /// The attestation already has its outcome.
    AlreadyResolved,
    /// A record is already stored under the key that the new one would take.
    AlreadyExists,
}

/// Why `attest` did not record a forecast.
#[derive(Debug, PartialEq, Eq)]
pub enum AttestError {
    /// The request was refused, for the reason given.
    Refused(OracleError),
    /// The request was in order, but the runtime gave no time to date the
    /// attestation with. The runtime's own error is handed on as it came.
    Clock(ProgramError),
}

impl OracleError {
    /// The text that `message` returns for this error.
    pub open spec fn message_text(self) -> Seq<char> {
        match self {
            OracleError::InvalidEstimate => "Estimate must be between 0 and 10000 basis points"@,
            OracleError::InvalidConfidence => "Confidence must be 0, 1, or 2 (LOW, MEDIUM, HIGH)"@,
            OracleError::Unauthorized => "Signer is not the authority of this oracle"@,
            OracleError::AlreadyResolved => "Attestation has already been resolved"@,
            OracleError::AlreadyExists => "A record already exists under this key"@,
        }
    }

    /// A sentence for the person who made the request.
    pub fn message(&self) -> (text: &'static str)
        ensures
            text@ == self.message_text(),
    {
        match self {
            OracleError::InvalidEstimate => "Estimate must be between 0 and 10000 basis points",
            OracleError::InvalidConfidence => "Confidence must be 0, 1, or 2 (LOW, MEDIUM, HIGH)",
            OracleError::Unauthorized => "Signer is not the authority of this oracle",
            OracleError::AlreadyResolved => "Attestation has already been resolved",
            OracleError::AlreadyExists => "A record already exists under this key",
        }
    }
}

} // verus!
