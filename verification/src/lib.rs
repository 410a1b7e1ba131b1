//! A registry of forecasts.
//!
//! Under a registry, its authority attests to questions that will come out
//! `true` or `false`: each attestation gives the probability of `true`, in
//! basis points. When a question is settled the authority resolves the
//! attestation, once, and the registry adds the Brier score of the forecast
//! to its running sum. The sum and the two counts beside it are all that a
//! reader needs to judge how well the authority forecasts.
//!
//! - [`instructions`] holds the three operations, `initialize`, `attest` and
//!   `resolve`, on the records that the host's storage hands them.
//! - [`state`] and [`attestation`] hold the two kinds of record and what may
//!   happen to each.
//! - [`score`] is the Brier rule in integer arithmetic.
//! - [`history`] states what the totals of a registry say about the
//!   operations that led to them.
//! - [`identity`] compares the 32-byte values that name authorities,
//!   registries and questions; [`clock`] reads the time; [`error`] lists the
//!   refusals.

pub mod attestation;
pub mod clock;
pub mod error;
pub mod history;
pub mod identity;
pub mod instructions;
pub mod score;
pub mod state;

pub use attestation::Attestation;
pub use error::{AttestError, OracleError};
pub use instructions::{attest, attest_at, initialize, resolve, Attest, Initialize, Resolve};
pub use state::OracleState;
