//! The three operations of the registry, each on the records that storage
//! hands it.
//!
//! Storage and the proof of who is calling belong to the host. For one
//! operation the host looks up the records concerned, says who signed the
//! request, and writes back what the operation left: the structures
//! `Initialize`, `Attest` and `Resolve` carry exactly that. Each operation
//! decides everything before it writes anything, so a refused one leaves
//! its records untouched.

use vstd::prelude::*;
use crate::attestation::{forecast_verdict, validate_forecast, Attestation, AttestationView};
use crate::clock::unix_timestamp;
use crate::error::{AttestError, OracleError};
use crate::history::{step, Event};
use crate::identity::same_key;
use crate::score::brier_score;
use crate::state::{OracleState, OracleStateView};

verus! {

/// The records for `initialize`.
#[derive(Clone, Copy, Debug, PartialEq, Eq)]
pub struct Initialize {
    /// The place in storage that belongs to the authority's registry: `None`
    /// while nothing is stored there.
    pub oracle_state: Option<OracleState>,
    /// Who signed the request: the authority of the registry to be.
    pub authority: [u8; 32],
    /// The bump seed of the registry's address.
    pub bump: u8,
}

/// The records for `attest`.
#[derive(Clone, Copy, Debug, PartialEq, Eq)]
pub struct Attest {
    /// The place in storage that belongs to this registry and question:
    /// `None` while nothing is stored there.
    pub attestation: Option<Attestation>,
    /// The registry to attest under.
    pub oracle_state: OracleState,
    /// The key that storage keeps `oracle_state` under.
    pub oracle_state_key: [u8; 32],
    /// Who signed the request.
    pub authority: [u8; 32],
    /// The bump seed of the attestation's address.
    pub bump: u8,
}

/// The records for `resolve`.
#[derive(Clone, Copy, Debug, PartialEq, Eq)]
pub struct Resolve {
    /// The attestation to resolve.
    pub attestation: Attestation,
    /// The registry that is to count the resolution.
    pub oracle_state: OracleState,
    /// The key that storage keeps `oracle_state` under.
    pub oracle_state_key: [u8; 32],
    /// Who signed the request.
    pub authority: [u8; 32],
}

impl Initialize {
    /// What `initialize` answers: a registry is made once.
    pub open spec fn verdict(self) -> Result<(), OracleError> {
        if self.oracle_state is Some {
            Err(OracleError::AlreadyExists)
        } else {
            Ok(())
        }
    }
}

impl Attest {
    /// What `attest` answers as far as the records decide. The forecast is
    /// checked first, then the signer, then the place for the new record.
    pub open spec fn verdict(self, estimate: int, confidence: int) -> Result<(), OracleError> {
        if forecast_verdict(estimate, confidence) is Err {
            forecast_verdict(estimate, confidence)
        } else if !self.oracle_state@.authorizes(self.authority@) {
            Err(OracleError::Unauthorized)
        } else if self.attestation is Some {
            Err(OracleError::AlreadyExists)
        } else {
            Ok(())
        }
    }

    /// The registry's count has room for one more attestation.
    #[verifier::when_used_as_spec(spec_has_room)]
    pub fn has_room(&self) -> (room: bool)
        ensures
            room == self.spec_has_room(),
    {
        self.oracle_state.total_attestations < u64::MAX
    }

    /// The registry's count has room for one more attestation.
    pub open spec fn spec_has_room(&self) -> bool {
        self.oracle_state.total_attestations < u64::MAX
    }

    /// What a successful `attest` at the time `now` leaves in `after`: the
    /// new attestation, open, and the registry with one more counted.
    pub open spec fn attested(
        self,
        after: Attest,
        question_hash: Seq<u8>,
        estimate: nat,
        confidence: nat,
        deadline: int,
        now: int,
    ) -> bool {
        &&& after.attestation matches Some(entry)
        &&& entry@ == AttestationView::opened(
            self.oracle_state_key@,
            question_hash,
            estimate,
            confidence,
            deadline,
            now,
            self.bump,
        )
        &&& after.oracle_state@ == self.oracle_state@.record_attestation()
        &&& after.oracle_state@ == step(self.oracle_state@, Event::Attested)
        &&& after.oracle_state_key == self.oracle_state_key
        &&& after.authority == self.authority
        &&& after.bump == self.bump
    }

    /// Tells whether `attest` would accept this forecast on these records,
    /// and why not. Nothing is written.
    pub fn check(&self, estimate: u16, confidence: u8) -> (verdict: Result<(), OracleError>)
        ensures
            verdict == self.verdict(estimate as int, confidence as int),
    {
        validate_forecast(estimate, confidence)?;
        self.oracle_state.check_authority(&self.authority)?;
        if self.attestation.is_some() {
            return Err(OracleError::AlreadyExists);
        }
        Ok(())
    }
}

impl Resolve {
    /// The signer is the authority of the registry given, and the
    /// attestation is one of that registry.
    pub open spec fn authorized(self) -> bool {
        &&& self.oracle_state@.authorizes(self.authority@)
        &&& self.attestation@.oracle == self.oracle_state_key@
    }

    /// What `resolve` answers. The signer is checked first, then the state
    /// of the attestation.
    pub open spec fn verdict(self) -> Result<(), OracleError> {
        if !self.authorized() {
            Err(OracleError::Unauthorized)
        } else if self.attestation.resolved {
            Err(OracleError::AlreadyResolved)
        } else {
            Ok(())
        }
    }

    /// The event that a successful `resolve` with this outcome is in the
    /// registry's history.
    pub open spec fn event(self, outcome: bool) -> Event {
        Event::Resolved { estimate: self.attestation@.estimate, outcome }
    }

    /// The registry's totals have room for one more resolution with this
    /// outcome.
    #[verifier::when_used_as_spec(spec_has_room)]
    pub fn has_room(&self, outcome: bool) -> (room: bool)
        ensures
            room == self.spec_has_room(outcome),
    {
        let contribution: u64 = brier_score(self.attestation.estimate, outcome);
        self.oracle_state.total_resolved < u64::MAX && self.oracle_state.cumulative_brier
            <= u64::MAX - contribution
    }

    /// The registry's totals have room for one more resolution with this
    /// outcome.
    pub open spec fn spec_has_room(&self, outcome: bool) -> bool {
        &&& self.oracle_state.total_resolved < u64::MAX
        &&& self.oracle_state.cumulative_brier + self.attestation@.contribution(outcome)
            <= u64::MAX
    }

    /// Tells whether `resolve` would accept these records, and why not.
    /// Nothing is written.
    pub fn check(&self) -> (verdict: Result<(), OracleError>)
        ensures
            verdict == self.verdict(),
    {
        self.oracle_state.check_authority(&self.authority)?;
        if !same_key(&self.attestation.oracle, &self.oracle_state_key) {
            return Err(OracleError::Unauthorized);
        }
        if self.attestation.resolved {
            return Err(OracleError::AlreadyResolved);
        }
        Ok(())
    }
}

/// Creates the registry of the signer, with all totals at zero.
///
/// Refused with `AlreadyExists` if the signer has a registry already.
pub fn initialize(ctx: &mut Initialize) -> (result: Result<(), OracleError>)
    ensures
        result == old(ctx).verdict(),
        result is Ok ==> {
            &&& final(ctx).oracle_state matches Some(state)
            &&& state@ == OracleStateView::fresh(old(ctx).authority@, old(ctx).bump)
            &&& state.wf()
            &&& final(ctx).authority == old(ctx).authority
            &&& final(ctx).bump == old(ctx).bump
        },
        result is Err ==> *final(ctx) == *old(ctx),
{
    if ctx.oracle_state.is_some() {
        return Err(OracleError::AlreadyExists);
    }
    ctx.oracle_state = Some(OracleState::new(ctx.authority, ctx.bump));
    Ok(())
}

/// Records the signer's forecast on the question `question_hash`, made at
/// the time `now`, and counts it in the registry.
///
/// The request is refused, in this order: with `InvalidEstimate` if
/// `estimate` is above 10000; with `InvalidConfidence` if `confidence` is
/// above 2; with `Unauthorized` if the signer is not the registry's
/// authority; with `AlreadyExists` if the registry has an attestation on
/// this question already. Every other request succeeds, and the new
/// attestation is open.
///
/// The count of attestations must have room for one more.
pub fn attest_at(
    ctx: &mut Attest,
    question_hash: [u8; 32],
    estimate: u16,
    confidence: u8,
    deadline: i64,
    now: i64,
) -> (result: Result<(), OracleError>)
    requires
        old(ctx).verdict(estimate as int, confidence as int) is Ok ==> old(ctx).has_room(),
    ensures
        result == old(ctx).verdict(estimate as int, confidence as int),
        estimate > 10000 ==> result == Err::<(), OracleError>(OracleError::InvalidEstimate),
        estimate <= 10000 && confidence > 2 ==> result == Err::<(), OracleError>(
            OracleError::InvalidConfidence,
        ),
        result is Ok ==> {
            &&& old(ctx).attested(
                *final(ctx),
                question_hash@,
                estimate as nat,
                confidence as nat,
                deadline as int,
                now as int,
            )
            &&& final(ctx).attestation matches Some(entry)
            &&& !entry.resolved
            &&& entry.wf()
            &&& old(ctx).oracle_state.wf() ==> final(ctx).oracle_state.wf()
        },
        result is Err ==> *final(ctx) == *old(ctx),
{
    ctx.check(estimate, confidence)?;
    let entry: Attestation = Attestation::open(
        ctx.oracle_state_key,
        question_hash,
        estimate,
        confidence,
        deadline,
        now,
        ctx.bump,
    )?;
    ctx.attestation = Some(entry);
    ctx.oracle_state.record_attestation();
    Ok(())
}

/// Records the signer's forecast on the question `question_hash`, dated by
/// the runtime's clock, and counts it in the registry.
///
/// A request that `attest_at` would refuse is refused here in the same
/// way, and the clock is not asked. For every other request the clock is
/// read: if it gives a time, the request succeeds as `attest_at` does at
/// that time; if it gives none, its error is handed on. Whatever is
/// refused or fails leaves the records as they were.
///
/// The count of attestations must have room for one more.
pub fn attest(
    ctx: &mut Attest,
    question_hash: [u8; 32],
    estimate: u16,
    confidence: u8,
    deadline: i64,
) -> (result: Result<(), AttestError>)
    requires
        old(ctx).verdict(estimate as int, confidence as int) is Ok ==> old(ctx).has_room(),
    ensures
        old(ctx).verdict(estimate as int, confidence as int) matches Err(refusal) ==> result
            == Err::<(), AttestError>(AttestError::Refused(refusal)),
        old(ctx).verdict(estimate as int, confidence as int) is Ok ==> {
            ||| result is Ok
            ||| result matches Err(failure) && failure is Clock
        },
        result is Ok ==> {
            &&& final(ctx).attestation matches Some(entry)
            &&& old(ctx).attested(
                *final(ctx),
                question_hash@,
                estimate as nat,
                confidence as nat,
                deadline as int,
                entry@.created_at,
            )
            &&& !entry.resolved
            &&& entry.wf()
            &&& old(ctx).oracle_state.wf() ==> final(ctx).oracle_state.wf()
        },
        result is Err ==> *final(ctx) == *old(ctx),
{
    match ctx.check(estimate, confidence) {
        Err(refusal) => { return Err(AttestError::Refused(refusal)); },
        Ok(()) => {},
    }
    match unix_timestamp() {
        Err(failure) => Err(AttestError::Clock(failure)),
        Ok(now) => match attest_at(ctx, question_hash, estimate, confidence, deadline, now) {
            Ok(()) => Ok(()),
            Err(refusal) => Err(AttestError::Refused(refusal)),
        },
    }
}

/// Records the outcome of an attestation and adds its Brier contribution to
/// the registry's totals.
///
/// The request is refused, in this order: with `Unauthorized` if the signer
/// is not the authority of the registry given, or the attestation belongs
/// to another registry; with `AlreadyResolved` if the attestation has its
/// outcome already. Every other request succeeds. An attestation is thus
/// resolved at most once: a second request never changes it, nor the
/// registry.
///
/// The registry's totals must have room for one more resolution.
pub fn resolve(ctx: &mut Resolve, outcome: bool) -> (result: Result<(), OracleError>)
    requires
        old(ctx).verdict() is Ok ==> old(ctx).has_room(outcome),
    ensures
        result == old(ctx).verdict(),
        old(ctx).attestation.resolved ==> result is Err,
        old(ctx).attestation.resolved && old(ctx).authorized() ==> result == Err::<(), OracleError>(
            OracleError::AlreadyResolved,
        ),
        result is Ok ==> {
            &&& final(ctx).attestation@ == old(ctx).attestation@.resolved_with(outcome)
            &&& old(ctx).attestation.wf() ==> final(ctx).attestation.wf()
            &&& final(ctx).oracle_state@ == old(ctx).oracle_state@.record_resolution(
                old(ctx).attestation@.contribution(outcome),
            )
            &&& final(ctx).oracle_state@ == step(old(ctx).oracle_state@, old(ctx).event(outcome))
            &&& old(ctx).oracle_state.total_resolved < old(ctx).oracle_state.total_attestations
                ==> final(ctx).oracle_state.wf()
            &&& final(ctx).oracle_state_key == old(ctx).oracle_state_key
            &&& final(ctx).authority == old(ctx).authority
        },
        result is Err ==> *final(ctx) == *old(ctx),
{
    ctx.check()?;
    let contribution: u64 = ctx.attestation.settle(outcome)?;
    ctx.oracle_state.record_resolution(contribution);
    Ok(())
}

} // verus!
