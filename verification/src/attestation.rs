//! The attestation: one forecast on one question, open until its outcome is
//! known and resolved exactly once.

use vstd::prelude::*;
use crate::error::OracleError;
use crate::score::{brier_contribution, brier_score, BASIS_POINTS};

verus! {

/// Confidence tier: low.
pub const CONFIDENCE_LOW: u8 = 0;

/// Confidence tier: medium.
pub const CONFIDENCE_MEDIUM: u8 = 1;

/// Confidence tier: high.
pub const CONFIDENCE_HIGH: u8 = 2;

/// The record of one attestation.
///
/// An attestation is open from its creation until it is resolved, and
/// resolved for ever after: `resolved` never goes back to `false`, and
/// `outcome` never changes once `resolved` is `true`.
#[derive(Clone, Copy, Debug, PartialEq, Eq)]
pub struct Attestation {
    /// The storage key of the registry that this attestation belongs to.
    pub oracle: [u8; 32],
    /// The question that the forecast is about.
    pub question_hash: [u8; 32],
    /// The probability given to the outcome `true`, in basis points.
    pub estimate: u16,
    /// How sure the forecaster was: one of the three tiers. It does not
    /// enter the score.
    pub confidence: u8,
    /// When the question is expected to be settled. Kept for the record;
    /// resolution is accepted before and after it.
    pub deadline: i64,
    /// When the attestation was made.
    pub created_at: i64,
    /// Whether the outcome is known.
    pub resolved: bool,
    /// The outcome; `false` until `resolved`.
    pub outcome: bool,
    /// The bump seed of the address that storage keeps this record under.
    pub bump: u8,
}

/// What an attestation record holds.
pub struct AttestationView {
    pub oracle: Seq<u8>,
    pub question_hash: Seq<u8>,
    pub estimate: nat,
    pub confidence: nat,
    pub deadline: int,
    pub created_at: int,
    pub resolved: bool,
    pub outcome: bool,
    pub bump: u8,
}

impl AttestationView {
    /// A new attestation: open, with no outcome yet.
    pub open spec fn opened(
        oracle: Seq<u8>,
        question_hash: Seq<u8>,
        estimate: nat,
        confidence: nat,
        deadline: int,
        created_at: int,
        bump: u8,
    ) -> Self {
        AttestationView {
            oracle,
            question_hash,
            estimate,
            confidence,
            deadline,
            created_at,
            resolved: false,
            outcome: false,
            bump,
        }
    }

    /// The attestation once `outcome` is known.
    pub open spec fn resolved_with(self, outcome: bool) -> Self {
        AttestationView { resolved: true, outcome, ..self }
    }

    /// The forecast is within its ranges, and an open attestation carries
    /// no outcome.
    pub open spec fn wf(self) -> bool {
        &&& self.estimate <= 10000
        &&& self.confidence <= 2
        &&& !self.resolved ==> !self.outcome
    }

    /// What the forecast would add to the registry's sum if the question
    /// came out as `outcome`.
    pub open spec fn contribution(self, outcome: bool) -> nat {
        brier_contribution(self.estimate as int, outcome) as nat
    }
}

impl View for Attestation {
    type V = AttestationView;

    open spec fn view(&self) -> AttestationView {
        AttestationView {
            oracle: self.oracle@,
            question_hash: self.question_hash@,
            estimate: self.estimate as nat,
            confidence: self.confidence as nat,
            deadline: self.deadline as int,
            created_at: self.created_at as int,
            resolved: self.resolved,
            outcome: self.outcome,
            bump: self.bump,
        }
    }
}

/// What the check of a forecast says: the estimate is looked at first, the
/// confidence second.
pub open spec fn forecast_verdict(estimate: int, confidence: int) -> Result<(), OracleError> {
    if estimate > 10000 {
        Err(OracleError::InvalidEstimate)
    } else if confidence > 2 {
        Err(OracleError::InvalidConfidence)
    } else {
        Ok(())
    }
}

/// Checks that `estimate` is at most 10000 basis points and that
/// `confidence` is one of the three tiers.
pub fn validate_forecast(estimate: u16, confidence: u8) -> (verdict: Result<(), OracleError>)
    ensures
        verdict == forecast_verdict(estimate as int, confidence as int),
{
    if estimate > BASIS_POINTS {
        Err(OracleError::InvalidEstimate)
    } else if confidence > CONFIDENCE_HIGH {
        Err(OracleError::InvalidConfidence)
    } else {
        Ok(())
    }
}

impl Attestation {
    /// The forecast is within its ranges, and an open attestation carries
    /// no outcome.
    pub open spec fn wf(self) -> bool {
        self@.wf()
    }

    /// Makes the record of a new attestation under the registry stored at
    /// `oracle`.
    ///
    /// Every forecast within the ranges is accepted, and the record it
    /// gives is open. A forecast outside them is refused: for the estimate
    /// if that is too large, else for the confidence.
    pub fn open(
        oracle: [u8; 32],
        question_hash: [u8; 32],
        estimate: u16,
        confidence: u8,
        deadline: i64,
        created_at: i64,
        bump: u8,
    ) -> (opened: Result<Attestation, OracleError>)
        ensures
            estimate <= 10000 && confidence <= 2 ==> opened is Ok,
            estimate > 10000 ==> opened == Err::<Attestation, OracleError>(
                OracleError::InvalidEstimate,
            ),
            estimate <= 10000 && confidence > 2 ==> opened == Err::<Attestation, OracleError>(
                OracleError::InvalidConfidence,
            ),
            opened matches Ok(entry) ==> {
                &&& entry@ == AttestationView::opened(
                    oracle@,
                    question_hash@,
                    estimate as nat,
                    confidence as nat,
                    deadline as int,
                    created_at as int,
                    bump,
                )
                &&& !entry.resolved
                &&& entry.wf()
            },
    {
        match validate_forecast(estimate, confidence) {
            Err(refusal) => Err(refusal),
            Ok(()) => Ok(
                Attestation {
                    oracle,
                    question_hash,
                    estimate,
                    confidence,
                    deadline,
                    created_at,
                    resolved: false,
                    outcome: false,
                    bump,
                },
            ),
        }
    }

    /// Records the outcome of an open attestation and returns its Brier
    /// contribution.
    ///
    /// An attestation that already has its outcome is refused and left as
    /// it is, whatever `outcome` says.
    pub fn settle(&mut self, outcome: bool) -> (settled: Result<u64, OracleError>)
        ensures
            old(self).resolved ==> {
                &&& settled == Err::<u64, OracleError>(OracleError::AlreadyResolved)
                &&& *final(self) == *old(self)
            },
            !old(self).resolved ==> {
                &&& settled matches Ok(contribution)
                &&& contribution == old(self)@.contribution(outcome)
                &&& final(self)@ == old(self)@.resolved_with(outcome)
                &&& old(self).wf() ==> final(self).wf() && contribution <= 10000
            },
    {
        if self.resolved {
            return Err(OracleError::AlreadyResolved);
        }
        self.resolved = true;
        self.outcome = outcome;
        Ok(brier_score(self.estimate, outcome))
    }
}

} // verus!
