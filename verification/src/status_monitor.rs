//! The status aggregator: the long-lived task's decision core. The task
//! opens one change subscription per status-eligible unit (any failure
//! there is fatal), then, on every wake-up, re-polls every unit and
//! recomputes the activity summary from scratch — a wake-up's own payload
//! is advisory, never trusted. A newly computed summary is published only
//! when it differs from the last published one.

use vstd::prelude::*;
use crate::errors::{OperationError, OperationErrorView};
use crate::text::{views_of, join_with, join_strings, lemma_views_of_push};
use crate::commands::outcome_views;

verus! {

/// The unit names whose poll outcome is exactly `Ok("active")`, in
/// registry order. A failed poll contributes nothing this round.
pub open spec fn active_names(
    units: Seq<Seq<char>>,
    outcomes: Seq<Result<Seq<char>, OperationErrorView>>,
) -> Seq<Seq<char>>
    recommends
        units.len() == outcomes.len(),
    decreases units.len(),
{
    if units.len() == 0 {
        Seq::empty()
    } else {
        let prefix = active_names(units.drop_last(), outcomes.drop_last());
        if outcomes.last() == Ok::<Seq<char>, OperationErrorView>("active"@) {
            prefix.push(units.last())
        } else {
            prefix
        }
    }
}

/// The presence summary a poll round resolves to: the active unit names
/// joined with `", "`, or nothing when no unit is active.
pub open spec fn activity_view(
    units: Seq<Seq<char>>,
    outcomes: Seq<Result<Seq<char>, OperationErrorView>>,
) -> Option<Seq<char>> {
    let active = active_names(units, outcomes);
    if active.len() == 0 {
        None
    } else {
        Some(join_with(active, ", "@))
    }
}

/// Computes the presence summary of one poll round: exactly the units that
/// reported `active`, in registry order.
pub fn compute_activity(units: &Vec<String>, outcomes: &Vec<Result<String, OperationError>>) -> (r:
    Option<String>)
    requires
        units@.len() == outcomes@.len(),
    ensures
        r.deep_view() == activity_view(views_of(units@), outcome_views(outcomes@)),
{
    broadcast use lemma_views_of_push;

    let ghost all_units = views_of(units@);
    let ghost all_outcomes = outcome_views(outcomes@);
    let mut active: Vec<String> = Vec::new();
    let mut i: usize = 0;
    proof {
        assert(views_of(active@) =~= Seq::<Seq<char>>::empty());
        assert(all_units.subrange(0, 0) =~= Seq::<Seq<char>>::empty());
        assert(all_outcomes.subrange(0, 0) =~= Seq::<Result<Seq<char>, OperationErrorView>>::empty());
    }
    while i < units.len()
        invariant
            i <= units@.len(),
            units@.len() == outcomes@.len(),
            all_units == views_of(units@),
            all_outcomes == outcome_views(outcomes@),
            views_of(active@) == active_names(
                all_units.subrange(0, i as int),
                all_outcomes.subrange(0, i as int),
            ),
        decreases units@.len() - i,
    {
        proof {
            let units_upto = all_units.subrange(0, i + 1);
            let outcomes_upto = all_outcomes.subrange(0, i + 1);
            assert(units_upto.drop_last() =~= all_units.subrange(0, i as int));
            assert(outcomes_upto.drop_last() =~= all_outcomes.subrange(0, i as int));
            assert(units_upto.last() == units@[i as int]@);
            assert(outcomes_upto.last() == all_outcomes[i as int]);
        }
        let is_active = match &outcomes[i] {
            Ok(state) => crate::text::str_eq(state.as_str(), "active"),
            Err(_) => false,
        };
        if is_active {
            active.push(units[i].clone());
        }
        i += 1;
    }
    proof {
        assert(all_units.subrange(0, units@.len() as int) =~= all_units);
        assert(all_outcomes.subrange(0, outcomes@.len() as int) =~= all_outcomes);
    }
    if active.len() == 0 {
        None
    } else {
        Some(join_strings(&active, ", "))
    }
}

/// The view of the values collected so far.
pub open spec fn collected<T>(items: Seq<Result<T, OperationError>>) -> Result<
    Seq<T>,
    OperationError,
>
    decreases items.len(),
{
    if items.len() == 0 {
        Ok(Seq::empty())
    } else {
        match items.first() {
            Err(e) => Err(e),
            Ok(v) => match collected(items.drop_first()) {
                Err(e) => Err(e),
                Ok(rest) => Ok(seq![v] + rest),
            },
        }
    }
}

/// Keeps every collected value, in order, or fails with the first error —
/// the all-or-nothing rule the aggregator applies to its per-unit
/// subscriptions.
pub fn collect_all<T>(items: Vec<Result<T, OperationError>>) -> (r: Result<Vec<T>, OperationError>)
    ensures
        r matches Ok(values) ==> collected(items@) == Ok::<Seq<T>, OperationError>(values@),
        r matches Err(e) ==> collected(items@) == Err::<Seq<T>, OperationError>(e),
    decreases items@.len(),
{
    let mut rest = items;
    if rest.len() == 0 {
        proof {
            assert(rest@ =~= Seq::<Result<T, OperationError>>::empty());
        }
        Ok(Vec::new())
    } else {
        let first = rest.remove(0);
        proof {
            assert(first == items@.first());
            assert(rest@ =~= items@.drop_first());
        }
        match first {
            Err(e) => Err(e),
            Ok(v) => match collect_all(rest) {
                Err(e) => Err(e),
                Ok(mut values) => {
                    let ghost before = values@;
                    values.insert(0, v);
                    proof {
                        assert(values@ =~= seq![v] + before);
                    }
                    Ok(values)
                },
            },
        }
    }
}

/// Where the long-lived aggregator task stands: opening subscriptions,
/// streaming wake-ups, or terminated for good.
#[derive(Debug, Clone, Copy, PartialEq, Eq, Structural)]
pub enum MonitorPhase {
    Initializing,
    Streaming,
    Terminated,
}

/// What a wake-up decides: leave the published presence as it is, or
/// publish a new value (`None` meaning "nothing active").
#[derive(Debug)]
pub enum PresenceUpdate {
    Unchanged,
    Publish { value: Option<String> },
}

/// Ghost mirror of `PresenceUpdate`.
pub enum PresenceUpdateView {
    Unchanged,
    Publish { value: Option<Seq<char>> },
}

impl View for PresenceUpdate {
    type V = PresenceUpdateView;

    open spec fn view(&self) -> PresenceUpdateView {
        match self {
            PresenceUpdate::Unchanged => PresenceUpdateView::Unchanged,
            PresenceUpdate::Publish { value } => PresenceUpdateView::Publish {
                value: value.deep_view(),
            },
        }
    }
}

/// Ghost mirror of `StatusAggregator`.
pub struct StatusAggregatorView {
    pub phase: MonitorPhase,
    pub activity: Option<Seq<char>>,
    pub published: bool,
}

/// The aggregator's state: its phase, the last presence value it decided
/// to publish, and whether anything has been published yet.
#[derive(Debug)]
pub struct StatusAggregator {
    phase: MonitorPhase,
    activity: Option<String>,
    published: bool,
}

impl View for StatusAggregator {
    type V = StatusAggregatorView;

    closed spec fn view(&self) -> StatusAggregatorView {
        StatusAggregatorView {
            phase: self.phase,
            activity: self.activity.deep_view(),
            published: self.published,
        }
    }
}

impl StatusAggregator {
    /// A fresh aggregator, about to open its subscriptions.
    pub fn new() -> (a: StatusAggregator)
        ensures
            a@.phase == MonitorPhase::Initializing,
            a@.activity is None,
            !a@.published,
    {
        StatusAggregator { phase: MonitorPhase::Initializing, activity: None, published: false }
    }

    /// Reacts to the attempt to open every per-unit subscription. One
    /// failed subscription fails the whole aggregator: a partially
    /// subscribed aggregator would silently miss activity.
    pub fn start_streaming(&mut self, subscriptions: Result<(), OperationError>) -> (r: Result<
        (),
        OperationError,
    >)
        requires
            old(self)@.phase == MonitorPhase::Initializing,
        ensures
            subscriptions matches Ok(_) ==> final(self)@.phase == MonitorPhase::Streaming && r
                is Ok,
            subscriptions matches Err(e) ==> final(self)@.phase == MonitorPhase::Terminated && r
                == Err::<(), OperationError>(e),
            final(self)@.activity == old(self)@.activity,
            final(self)@.published == old(self)@.published,
    {
        match subscriptions {
            Ok(()) => {
                self.phase = MonitorPhase::Streaming;
                Ok(())
            },
            Err(e) => {
                self.phase = MonitorPhase::Terminated;
                Err(e)
            },
        }
    }

    /// Handles one wake-up (including the eager one right after streaming
    /// begins): recomputes the full summary from the fresh poll outcomes
    /// and decides whether to publish. A value equal to the last published
    /// one is not re-published.
    pub fn on_wakeup(&mut self, units: &Vec<String>, outcomes: &Vec<Result<String, OperationError>>) -> (update:
        PresenceUpdate)
        requires
            old(self)@.phase == MonitorPhase::Streaming,
            units@.len() == outcomes@.len(),
        ensures
            ({
                let computed = activity_view(views_of(units@), outcome_views(outcomes@));
                &&& final(self)@.phase == MonitorPhase::Streaming
                &&& final(self)@.activity == computed
                &&& final(self)@.published
                &&& (old(self)@.published && computed == old(self)@.activity) ==> update@
                    is Unchanged
                &&& !(old(self)@.published && computed == old(self)@.activity) ==> (update@
                    matches PresenceUpdateView::Publish { value } && value == computed)
            }),
    {
        let computed = compute_activity(units, outcomes);
        let same = self.published && option_str_eq(&self.activity, &computed);
        self.activity = computed;
        self.published = true;
        if same {
            PresenceUpdate::Unchanged
        } else {
            PresenceUpdate::Publish { value: self.activity.clone() }
        }
    }

    /// Notes that the merged wake-up stream has ended: the aggregator is
    /// finished for good, presence can no longer be trusted.
    pub fn on_stream_closed(&mut self)
        requires
            old(self)@.phase == MonitorPhase::Streaming,
        ensures
            final(self)@.phase == MonitorPhase::Terminated,
            final(self)@.activity == old(self)@.activity,
            final(self)@.published == old(self)@.published,
    {
        self.phase = MonitorPhase::Terminated;
    }
}

/// Whether two optional presence values hold the same text.
fn option_str_eq(a: &Option<String>, b: &Option<String>) -> (r: bool)
    ensures
        r == (a.deep_view() == b.deep_view()),
{
    match (a, b) {
        (None, None) => true,
        (Some(x), Some(y)) => crate::text::str_eq(x.as_str(), y.as_str()),
        _ => false,
    }
}

} // verus!
