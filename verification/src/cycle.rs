//! One poll cycle: every eligible alert of a batch, each with its action.
//!
//! A cycle is planned from the fetched batch and then walked action by action.
//! The program performs the current action and records how it ended; the walk
//! moves on whatever the outcome was, so one failure never holds back the
//! alerts behind it.

use vstd::prelude::*;
use crate::alert::{Alert, AlertView, texts, alert_views};
use crate::matcher::{matched, borrowed_views, match_alerts, lemma_matched_sound};
use crate::dispatch::{
    Action, ActionView, Level, Outcome, resolve, log_level, dispatch, deletions, posts,
    selected_action, delete_pod_label, webhook_label, rejected_fingerprint, lemma_delete_once,
    lemma_missing_target_rejected, lemma_webhook_once,
};

verus! {

/// The views of a list of actions, in order.
pub open spec fn action_views(actions: Seq<Action>) -> Seq<ActionView> {
    actions.map_values(|a: Action| a@)
}

/// The actions of a cycle: one for each eligible alert of the batch, in the
/// order of the batch.
pub open spec fn cycle_plan(alerts: Seq<AlertView>, allow: Seq<Seq<char>>, active: Seq<char>) -> Seq<
    ActionView,
> {
    matched(alerts, allow, active).map_values(|alert: AlertView| resolve(alert))
}

/// A cycle as plain values: its actions and how many of them are done.
pub struct CycleView {
    pub plan: Seq<ActionView>,
    pub position: nat,
}

/// The action that is to be performed next, if any is left.
pub open spec fn current_action(cycle: CycleView) -> Option<ActionView> {
    if cycle.position < cycle.plan.len() {
        Some(cycle.plan[cycle.position as int])
    } else {
        None
    }
}

/// The cycle after the outcome of its current action has been recorded.
pub open spec fn recorded(cycle: CycleView, outcome: Outcome) -> CycleView {
    if cycle.position < cycle.plan.len() {
        CycleView { plan: cycle.plan, position: cycle.position + 1 }
    } else {
        cycle
    }
}

/// The cycle after a run of outcomes has been recorded.
pub open spec fn recorded_all(cycle: CycleView, outcomes: Seq<Outcome>) -> CycleView
    decreases outcomes.len(),
{
    if outcomes.len() == 0 {
        cycle
    } else {
        recorded_all(recorded(cycle, outcomes[0]), outcomes.drop_first())
    }
}

/// The walk through the actions of one poll cycle.
#[derive(Debug)]
pub struct Cycle {
    plan: Vec<Action>,
    cursor: usize,
}

impl View for Cycle {
    type V = CycleView;

    closed spec fn view(&self) -> CycleView {
        CycleView { plan: action_views(self.plan@), position: self.cursor as nat }
    }
}

impl Cycle {
    /// No more actions are done than the cycle has.
    #[verifier::type_invariant]
    spec fn bounded(&self) -> bool {
        self.cursor <= self.plan.len()
    }

    /// Plans the cycle for a fetched batch: the eligible alerts in their
    /// order, each with the action it selects.
    pub fn begin(alerts: &Vec<Alert>, allow: &Vec<String>, active_state: &String) -> (cycle: Cycle)
        ensures
            cycle@.plan == cycle_plan(alert_views(alerts@), texts(allow@), active_state@),
            cycle@.position == 0,
    {
        let kept = match_alerts(alerts, allow, active_state);
        let mut plan: Vec<Action> = Vec::new();
        let mut i: usize = 0;
        while i < kept.len()
            invariant
                i <= kept.len(),
                plan.len() == i,
                forall|j: int| 0 <= j < i ==> (#[trigger] plan@[j])@ == resolve(kept@[j]@),
            decreases kept.len() - i,
        {
            plan.push(dispatch(kept[i]));
            i += 1;
        }
        assert(action_views(plan@) =~= borrowed_views(kept@).map_values(
            |alert: AlertView| resolve(alert),
        ));
        Cycle { plan, cursor: 0 }
    }

    /// The action to perform next, or `None` when the cycle is through.
    pub fn current(&self) -> (action: Option<&Action>)
        ensures
            match action {
                Some(a) => current_action(self@) == Some(a@),
                None => current_action(self@) is None,
            },
    {
        if self.cursor < self.plan.len() {
            Some(&self.plan[self.cursor])
        } else {
            None
        }
    }

    /// How many actions are still to be performed.
    pub fn remaining(&self) -> (left: usize)
        ensures
            self@.position <= self@.plan.len(),
            left == self@.plan.len() - self@.position,
    {
        proof {
            use_type_invariant(self);
        }
        self.plan.len() - self.cursor
    }

    /// Records how the current action ended and moves to the next one,
    /// whatever the outcome was. Returns the severity of the log line for the
    /// action just done, or `None` when the cycle was through already.
    pub fn record(&mut self, outcome: Outcome) -> (level: Option<Level>)
        ensures
            final(self)@ == recorded(old(self)@, outcome),
            level == match current_action(old(self)@) {
                Some(action) => Some(log_level(action, outcome)),
                None => None,
            },
    {
        if self.cursor < self.plan.len() {
            let level = self.plan[self.cursor].level(outcome);
            self.cursor = self.cursor + 1;
            Some(level)
        } else {
            None
        }
    }
}

/// How an action ended has no influence on what the cycle does next.
pub proof fn lemma_outcome_is_ignored(cycle: CycleView, first: Outcome, second: Outcome)
    ensures
        recorded(cycle, first) == recorded(cycle, second),
{
}

/// After any `done` outcomes, failures or not, the cycle stands at the action
/// that many places further on: no failure holds back a later alert.
pub proof fn lemma_failures_do_not_stop_cycle(cycle: CycleView, outcomes: Seq<Outcome>)
    requires
        cycle.position + outcomes.len() <= cycle.plan.len(),
    ensures
        recorded_all(cycle, outcomes) == (CycleView {
            plan: cycle.plan,
            position: cycle.position + outcomes.len(),
        }),
    decreases outcomes.len(),
{
    if outcomes.len() > 0 {
        lemma_failures_do_not_stop_cycle(recorded(cycle, outcomes[0]), outcomes.drop_first());
    }
}

/// An alert that is not on the allow-list, or not firing, has no action in
/// the cycle: every action of the plan belongs to an eligible alert of the
/// batch.
pub proof fn lemma_plan_only_for_eligible(
    alerts: Seq<AlertView>,
    allow: Seq<Seq<char>>,
    active: Seq<char>,
    i: int,
) -> (source: AlertView)
    requires
        0 <= i < cycle_plan(alerts, allow, active).len(),
    ensures
        cycle_plan(alerts, allow, active)[i] == resolve(source),
        alerts.contains(source),
        allow.contains(source.labels.alertname),
        source.state == active,
{
    lemma_matched_sound(alerts, allow, active, i);
    matched(alerts, allow, active)[i]
}

/// An eligible alert that selects pod deletion, by label or by default, and
/// names both pod and namespace has exactly one deletion in the cycle, of
/// that pod in that namespace, and no POST.
pub proof fn lemma_cycle_deletes_once(
    alerts: Seq<AlertView>,
    allow: Seq<Seq<char>>,
    active: Seq<char>,
    i: int,
)
    requires
        0 <= i < matched(alerts, allow, active).len(),
        selected_action(matched(alerts, allow, active)[i]) == delete_pod_label(),
        matched(alerts, allow, active)[i].labels.pod is Some,
        matched(alerts, allow, active)[i].labels.namespace is Some,
    ensures
        deletions(cycle_plan(alerts, allow, active)[i]) == seq![
            (
                matched(alerts, allow, active)[i].labels.pod->Some_0,
                matched(alerts, allow, active)[i].labels.namespace->Some_0,
            ),
        ],
        posts(cycle_plan(alerts, allow, active)[i]) == Seq::<(Seq<char>, AlertView)>::empty(),
{
    lemma_delete_once(matched(alerts, allow, active)[i]);
}

/// An eligible alert that selects pod deletion but lacks the pod or the
/// namespace has no deletion and no POST in the cycle, and its one log line
/// is an error that carries its fingerprint.
pub proof fn lemma_cycle_skips_missing_target(
    alerts: Seq<AlertView>,
    allow: Seq<Seq<char>>,
    active: Seq<char>,
    i: int,
    outcome: Outcome,
)
    requires
        0 <= i < matched(alerts, allow, active).len(),
        selected_action(matched(alerts, allow, active)[i]) == delete_pod_label(),
        matched(alerts, allow, active)[i].labels.pod is None || matched(
            alerts,
            allow,
            active,
        )[i].labels.namespace is None,
    ensures
        deletions(cycle_plan(alerts, allow, active)[i]) == Seq::<(Seq<char>, Seq<char>)>::empty(),
        posts(cycle_plan(alerts, allow, active)[i]) == Seq::<(Seq<char>, AlertView)>::empty(),
        rejected_fingerprint(cycle_plan(alerts, allow, active)[i]) == Some(
            matched(alerts, allow, active)[i].fingerprint,
        ),
        log_level(cycle_plan(alerts, allow, active)[i], outcome) == Level::Error,
{
    lemma_missing_target_rejected(matched(alerts, allow, active)[i], outcome);
}

/// An eligible alert that selects the webhook and gives a URL has exactly one
/// POST in the cycle, to that URL with the unchanged alert as its body, and
/// no deletion.
pub proof fn lemma_cycle_posts_once(
    alerts: Seq<AlertView>,
    allow: Seq<Seq<char>>,
    active: Seq<char>,
    i: int,
)
    requires
        0 <= i < matched(alerts, allow, active).len(),
        selected_action(matched(alerts, allow, active)[i]) == webhook_label(),
        matched(alerts, allow, active)[i].labels.webhook_url is Some,
    ensures
        posts(cycle_plan(alerts, allow, active)[i]) == seq![
            (
                matched(alerts, allow, active)[i].labels.webhook_url->Some_0,
                matched(alerts, allow, active)[i],
            ),
        ],
        deletions(cycle_plan(alerts, allow, active)[i]) == Seq::<(Seq<char>, Seq<char>)>::empty(),
{
    lemma_webhook_once(matched(alerts, allow, active)[i]);
}

/// The plan has exactly one action for each eligible alert.
pub proof fn lemma_plan_one_per_match(
    alerts: Seq<AlertView>,
    allow: Seq<Seq<char>>,
    active: Seq<char>,
)
    ensures
        cycle_plan(alerts, allow, active).len() == matched(alerts, allow, active).len(),
        forall|i: int|
            0 <= i < matched(alerts, allow, active).len() ==> #[trigger] cycle_plan(
                alerts,
                allow,
                active,
            )[i] == resolve(matched(alerts, allow, active)[i]),
{
}

} // verus!
