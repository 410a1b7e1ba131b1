//! The registry: one record per authority, with the running totals of what
//! was attested and resolved under it.

use vstd::prelude::*;
use crate::error::OracleError;
use crate::identity::same_key;

verus! {

/// The record of one registry.
///
/// It is created once for its authority, and afterwards changed only by
/// counting: one more attestation, or one more resolution together with
/// its Brier contribution. The three totals never go down.
#[derive(Clone, Copy, Debug, PartialEq, Eq)]
pub struct OracleState {
    /// The identity that may attest and resolve under this registry.
    pub authority: [u8; 32],
    /// How many attestations were ever made under this registry.
    pub total_attestations: u64,
    /// How many of them have their outcome.
    pub total_resolved: u64,
    /// The sum of the Brier contributions of the resolved ones, in basis
    /// points. A sum, not a mean.
    pub cumulative_brier: u64,
    /// The bump seed of the address that storage keeps this record under.
    pub bump: u8,
}

/// What a registry record holds, with totals that are not bounded by a
/// machine word.
pub struct OracleStateView {
    pub authority: Seq<u8>,
    pub total_attestations: nat,
    pub total_resolved: nat,
    pub cumulative_brier: nat,
    pub bump: u8,
}

impl OracleStateView {
    /// The registry of `authority` before anything was attested.
    pub open spec fn fresh(authority: Seq<u8>, bump: u8) -> Self {
        OracleStateView {
            authority,
            total_attestations: 0,
            total_resolved: 0,
            cumulative_brier: 0,
            bump,
        }
    }

    /// The registry after one more attestation.
    pub open spec fn record_attestation(self) -> Self {
        OracleStateView { total_attestations: self.total_attestations + 1, ..self }
    }

    /// The registry after one more resolution, whose Brier contribution is
    /// `contribution`.
    pub open spec fn record_resolution(self, contribution: nat) -> Self {
        OracleStateView {
            total_resolved: self.total_resolved + 1,
            cumulative_brier: self.cumulative_brier + contribution,
            ..self
        }
    }

    /// No more was resolved than was attested.
    pub open spec fn wf(self) -> bool {
        self.total_resolved <= self.total_attestations
    }

    /// Whether `caller` may act under this registry.
    pub open spec fn authorizes(self, caller: Seq<u8>) -> bool {
        self.authority == caller
    }

    /// The mean Brier score over the resolved attestations, rounded down;
    /// there is none while nothing is resolved.
    pub open spec fn mean_brier(self) -> Option<nat> {
        if self.total_resolved == 0 {
            None
        } else {
            Some(self.cumulative_brier / self.total_resolved)
        }
    }
}

impl View for OracleState {
    type V = OracleStateView;

    open spec fn view(&self) -> OracleStateView {
        OracleStateView {
            authority: self.authority@,
            total_attestations: self.total_attestations as nat,
            total_resolved: self.total_resolved as nat,
            cumulative_brier: self.cumulative_brier as nat,
            bump: self.bump,
        }
    }
}

impl OracleState {
    /// No more was resolved than was attested.
    pub open spec fn wf(self) -> bool {
        self@.wf()
    }

    /// The registry of `authority`, with all totals at zero.
    pub fn new(authority: [u8; 32], bump: u8) -> (state: Self)
        ensures
            state@ == OracleStateView::fresh(authority@, bump),
            state.wf(),
    {
        OracleState {
            authority,
            total_attestations: 0,
            total_resolved: 0,
            cumulative_brier: 0,
            bump,
        }
    }

    /// Passes the authority of this registry and nobody else.
    pub fn check_authority(&self, caller: &[u8; 32]) -> (verdict: Result<(), OracleError>)
        ensures
            self@.authorizes(caller@) ==> verdict is Ok,
            !self@.authorizes(caller@) ==> verdict == Err::<(), OracleError>(
                OracleError::Unauthorized,
            ),
    {
        if same_key(&self.authority, caller) {
            Ok(())
        } else {
            Err(OracleError::Unauthorized)
        }
    }

    /// Counts one more attestation.
    pub fn record_attestation(&mut self)
        requires
            old(self).total_attestations < u64::MAX,
        ensures
            final(self)@ == old(self)@.record_attestation(),
            old(self).wf() ==> final(self).wf(),
    {
        self.total_attestations = self.total_attestations + 1;
    }

    /// Counts one more resolution and adds its Brier contribution to the
    /// sum. The two totals change together or not at all.
    pub fn record_resolution(&mut self, brier_contribution: u64)
        requires
            old(self).total_resolved < u64::MAX,
            old(self).cumulative_brier + brier_contribution <= u64::MAX,
        ensures
            final(self)@ == old(self)@.record_resolution(brier_contribution as nat),
            old(self).total_resolved < old(self).total_attestations ==> final(self).wf(),
    {
        self.total_resolved = self.total_resolved + 1;
        self.cumulative_brier = self.cumulative_brier + brier_contribution;
    }

    /// The mean Brier score over the resolved attestations, in basis points
    /// and rounded down; `None` while nothing is resolved.
    pub fn mean_brier(&self) -> (mean: Option<u64>)
        ensures
            match mean {
                Some(m) => self@.mean_brier() == Some(m as nat),
                None => self@.mean_brier() is None,
            },
    {
        if self.total_resolved == 0 {
            None
        } else {
            Some(self.cumulative_brier / self.total_resolved)
        }
    }
}

} // verus!
