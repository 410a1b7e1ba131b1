//! What a registry's totals say about its past.
//!
//! Every successful operation on a registry is one event: an attestation,
//! or the resolution of one. The totals of the registry are then a function
//! of the events alone, and of how many of each kind there were, not of
//! their order.

use vstd::prelude::*;
use crate::score::{brier_contribution, lemma_brier_contribution_bounds};
use crate::state::OracleStateView;

verus! {

/// One successful operation on a registry.
pub enum Event {
    /// `attest` succeeded.
    Attested,
    /// `resolve` succeeded on an attestation whose estimate was `estimate`,
    /// with outcome `outcome`.
    Resolved { estimate: nat, outcome: bool },
}

impl Event {
    /// What the event adds to the sum of Brier contributions.
    pub open spec fn contribution(self) -> nat {
        match self {
            Event::Attested => 0,
            Event::Resolved { estimate, outcome } => brier_contribution(
                estimate as int,
                outcome,
            ) as nat,
        }
    }

    /// The forecast of a resolution is within the scale.
    pub open spec fn wf(self) -> bool {
        match self {
            Event::Attested => true,
            Event::Resolved { estimate, outcome } => estimate <= 10000,
        }
    }
}

/// The registry after `event`: what `attest` and `resolve` do to it.
pub open spec fn step(state: OracleStateView, event: Event) -> OracleStateView {
    match event {
        Event::Attested => state.record_attestation(),
        Event::Resolved { estimate, outcome } => state.record_resolution(event.contribution()),
    }
}

/// The registry after all of `events`, the first one first.
pub open spec fn replay(start: OracleStateView, events: Seq<Event>) -> OracleStateView
    decreases events.len(),
{
    if events.len() == 0 {
        start
    } else {
        step(replay(start, events.drop_last()), events.last())
    }
}

/// How many of `events` are attestations.
pub open spec fn attested_count(events: Seq<Event>) -> nat
    decreases events.len(),
{
    if events.len() == 0 {
        0
    } else {
        attested_count(events.drop_last()) + if events.last() is Attested {
            1nat
        } else {
            0nat
        }
    }
}

/// How many of `events` are resolutions.
pub open spec fn resolved_count(events: Seq<Event>) -> nat
    decreases events.len(),
{
    if events.len() == 0 {
        0
    } else {
        resolved_count(events.drop_last()) + if events.last() is Resolved {
            1nat
        } else {
            0nat
        }
    }
}

/// The sum of the Brier contributions of the resolutions among `events`,
/// each computed by itself.
pub open spec fn total_contribution(events: Seq<Event>) -> nat
    decreases events.len(),
{
    if events.len() == 0 {
        0
    } else {
        total_contribution(events.drop_last()) + events.last().contribution()
    }
}

/// In `events` and in each of its beginnings, no more was resolved than
/// was attested.
pub open spec fn resolutions_follow_attestations(events: Seq<Event>) -> bool {
    forall|n: int|
        0 <= n <= events.len() ==> resolved_count(#[trigger] events.take(n)) <= attested_count(
            events.take(n),
        )
}

/// After any events, the registry's totals are those it started with plus
/// the number of attestations, the number of resolutions, and the sum of
/// the contributions of the resolutions. So no total ever goes down, and
/// the authority stays.
pub proof fn lemma_replay_totals(start: OracleStateView, events: Seq<Event>)
    ensures
        replay(start, events).authority == start.authority,
        replay(start, events).bump == start.bump,
        replay(start, events).total_attestations == start.total_attestations + attested_count(
            events,
        ),
        replay(start, events).total_resolved == start.total_resolved + resolved_count(events),
        replay(start, events).cumulative_brier == start.cumulative_brier + total_contribution(
            events,
        ),
        start.total_attestations <= replay(start, events).total_attestations,
        start.total_resolved <= replay(start, events).total_resolved,
        start.cumulative_brier <= replay(start, events).cumulative_brier,
    decreases events.len(),
{
    if events.len() > 0 {
        lemma_replay_totals(start, events.drop_last());
    }
}

/// After N successful attestations and M successful resolutions on a new
/// registry, in whatever order they came, the registry counts N
/// attestations and M resolutions, and its sum is that of the M
/// contributions.
pub proof fn lemma_new_registry_totals(authority: Seq<u8>, bump: u8, events: Seq<Event>)
    ensures
        replay(OracleStateView::fresh(authority, bump), events).total_attestations
            == attested_count(events),
        replay(OracleStateView::fresh(authority, bump), events).total_resolved == resolved_count(
            events,
        ),
        replay(OracleStateView::fresh(authority, bump), events).cumulative_brier
            == total_contribution(events),
        resolved_count(events) <= attested_count(events) ==> replay(
            OracleStateView::fresh(authority, bump),
            events,
        ).wf(),
{
    lemma_replay_totals(OracleStateView::fresh(authority, bump), events);
}

/// Taking one event out of a history takes it out of the counts and of the
/// sum, wherever it stood.
pub proof fn lemma_totals_without(events: Seq<Event>, at: int)
    requires
        0 <= at < events.len(),
    ensures
        attested_count(events) == attested_count(events.remove(at)) + if events[at] is Attested {
            1nat
        } else {
            0nat
        },
        resolved_count(events) == resolved_count(events.remove(at)) + if events[at] is Resolved {
            1nat
        } else {
            0nat
        },
        total_contribution(events) == total_contribution(events.remove(at))
            + events[at].contribution(),
    decreases events.len(),
{
    if at == events.len() - 1 {
        assert(events.remove(at) =~= events.drop_last());
    } else {
        lemma_totals_without(events.drop_last(), at);
        assert(events.remove(at).drop_last() =~= events.drop_last().remove(at));
        assert(events.remove(at).last() == events.last());
    }
}

/// Two histories with the same events, in any two orders, have the same
/// counts and the same sum.
pub proof fn lemma_totals_ignore_order(first: Seq<Event>, second: Seq<Event>)
    requires
        first.to_multiset() == second.to_multiset(),
    ensures
        attested_count(first) == attested_count(second),
        resolved_count(first) == resolved_count(second),
        total_contribution(first) == total_contribution(second),
    decreases first.len(),
{
    first.to_multiset_ensures();
    second.to_multiset_ensures();
    if first.len() == 0 {
        assert(second.len() == 0);
    } else {
        let event = first.last();
        assert(first.contains(event));
        assert(second.to_multiset().count(event) > 0);
        assert(second.contains(event));
        let at = choose|at: int| 0 <= at < second.len() && second[at] == event;
        assert(first.drop_last() =~= first.remove(first.len() - 1));
        assert(first.drop_last().to_multiset() == second.remove(at).to_multiset());
        lemma_totals_ignore_order(first.drop_last(), second.remove(at));
        lemma_totals_without(second, at);
    }
}

/// The order of the operations does not matter: two histories with the same
/// events leave a registry with the same totals.
pub proof fn lemma_replay_ignores_order(
    start: OracleStateView,
    first: Seq<Event>,
    second: Seq<Event>,
)
    requires
        first.to_multiset() == second.to_multiset(),
    ensures
        replay(start, first) == replay(start, second),
{
    lemma_replay_totals(start, first);
    lemma_replay_totals(start, second);
    lemma_totals_ignore_order(first, second);
}

/// Where each resolution follows an attestation of its own, the registry
/// never counts more resolutions than attestations: not at the end, and at
/// no moment before.
pub proof fn lemma_replay_keeps_wf(start: OracleStateView, events: Seq<Event>, n: int)
    requires
        start.wf(),
        resolutions_follow_attestations(events),
        0 <= n <= events.len(),
    ensures
        replay(start, events.take(n)).wf(),
{
    lemma_replay_totals(start, events.take(n));
}

/// Each well-formed resolution contributes at most 10000, so their sum is
/// at most 10000 times their number.
pub proof fn lemma_total_contribution_bound(events: Seq<Event>)
    requires
        forall|i: int| 0 <= i < events.len() ==> (#[trigger] events[i]).wf(),
    ensures
        total_contribution(events) <= 10000 * resolved_count(events),
    decreases events.len(),
{
    if events.len() > 0 {
        lemma_total_contribution_bound(events.drop_last());
        match events.last() {
            Event::Attested => {},
            Event::Resolved { estimate, outcome } => {
                assert(events.last().wf());
                lemma_brier_contribution_bounds(estimate as int, outcome);
            },
        }
    }
}

/// The mean Brier score of a registry that started at zero is within the
/// scale, and there is one as soon as something is resolved.
pub proof fn lemma_mean_within_scale(authority: Seq<u8>, bump: u8, events: Seq<Event>)
    requires
        forall|i: int| 0 <= i < events.len() ==> (#[trigger] events[i]).wf(),
    ensures
        match replay(OracleStateView::fresh(authority, bump), events).mean_brier() {
            Some(mean) => mean <= 10000 && resolved_count(events) > 0,
            None => resolved_count(events) == 0,
        },
{
    lemma_replay_totals(OracleStateView::fresh(authority, bump), events);
    lemma_total_contribution_bound(events);
    let sum = total_contribution(events);
    let count = resolved_count(events);
    if count > 0 {
        assert(sum / count <= 10000) by (nonlinear_arith)
            requires
                count > 0,
                sum <= 10000 * count,
        ;
    }
}

} // verus!
