//! Selecting the alerts that are eligible for remediation.
//!
//! An alert is kept when its name is on the allow-list and its state is the
//! configured firing state. The selection is a stable filter: kept alerts stay
//! in the order in which the source reported them.

use vstd::prelude::*;
use crate::alert::{Alert, AlertView, texts, alert_views};

verus! {

/// Whether an alert is eligible: its name is on the allow-list and its state
/// is the firing state.
pub open spec fn actionable(alert: AlertView, allow: Seq<Seq<char>>, active: Seq<char>) -> bool {
    allow.contains(alert.labels.alertname) && alert.state == active
}

/// `actionable` as a predicate on alerts, for a fixed allow-list and firing state.
pub open spec fn keeps(allow: Seq<Seq<char>>, active: Seq<char>) -> spec_fn(AlertView) -> bool {
    |alert: AlertView| actionable(alert, allow, active)
}

/// The eligible alerts of a batch, in the order of the batch.
pub open spec fn matched(alerts: Seq<AlertView>, allow: Seq<Seq<char>>, active: Seq<char>) -> Seq<
    AlertView,
> {
    alerts.filter(keeps(allow, active))
}

/// The views of a list of borrowed alerts, in order.
pub open spec fn borrowed_views(alerts: Seq<&Alert>) -> Seq<AlertView> {
    alerts.map_values(|a: &Alert| a@)
}

/// Extending a batch by one alert extends the selection by that alert exactly
/// when it is eligible.
pub proof fn lemma_matched_push(
    alerts: Seq<AlertView>,
    alert: AlertView,
    allow: Seq<Seq<char>>,
    active: Seq<char>,
)
    ensures
        matched(alerts.push(alert), allow, active) == if actionable(alert, allow, active) {
            matched(alerts, allow, active).push(alert)
        } else {
            matched(alerts, allow, active)
        },
{
    reveal(Seq::filter);
    assert(alerts.push(alert).drop_last() =~= alerts);
}

/// Every selected alert is eligible and was part of the batch.
pub proof fn lemma_matched_sound(
    alerts: Seq<AlertView>,
    allow: Seq<Seq<char>>,
    active: Seq<char>,
    i: int,
)
    requires
        0 <= i < matched(alerts, allow, active).len(),
    ensures
        actionable(matched(alerts, allow, active)[i], allow, active),
        alerts.contains(matched(alerts, allow, active)[i]),
    decreases alerts.len(),
{
    reveal(Seq::filter);
    if alerts.len() > 0 {
        let front = alerts.drop_last();
        let last = alerts.last();
        assert(front.push(last) =~= alerts);
        lemma_matched_push(front, last, allow, active);
        if i < matched(front, allow, active).len() {
            lemma_matched_sound(front, allow, active, i);
            let kept = matched(front, allow, active)[i];
            let j = choose|j: int| 0 <= j < front.len() && front[j] == kept;
            assert(alerts[j] == kept);
        } else {
            assert(alerts[alerts.len() - 1] == last);
        }
    }
}

/// An alert that is not on the allow-list, or not firing, is never selected.
pub proof fn lemma_ineligible_excluded(
    alerts: Seq<AlertView>,
    allow: Seq<Seq<char>>,
    active: Seq<char>,
    alert: AlertView,
)
    requires
        !allow.contains(alert.labels.alertname) || alert.state != active,
    ensures
        !matched(alerts, allow, active).contains(alert),
{
    let kept = matched(alerts, allow, active);
    if kept.contains(alert) {
        let i = choose|i: int| 0 <= i < kept.len() && kept[i] == alert;
        lemma_matched_sound(alerts, allow, active, i);
    }
}

/// An eligible alert of the batch is always selected.
pub proof fn lemma_eligible_selected(
    alerts: Seq<AlertView>,
    allow: Seq<Seq<char>>,
    active: Seq<char>,
    i: int,
)
    requires
        0 <= i < alerts.len(),
        actionable(alerts[i], allow, active),
    ensures
        matched(alerts, allow, active).contains(alerts[i]),
{
    alerts.lemma_filter_contains(keeps(allow, active), i);
}

/// The selection keeps the order of the batch: of two selected alerts, the
/// earlier one stands at an earlier place of the batch.
pub proof fn lemma_matched_stable(
    alerts: Seq<AlertView>,
    allow: Seq<Seq<char>>,
    active: Seq<char>,
    i: int,
    j: int,
) -> (places: (int, int))
    requires
        0 <= i < j < matched(alerts, allow, active).len(),
    ensures
        0 <= places.0 < places.1 < alerts.len(),
        alerts[places.0] == matched(alerts, allow, active)[i],
        alerts[places.1] == matched(alerts, allow, active)[j],
    decreases alerts.len(),
{
    reveal(Seq::filter);
    let front = alerts.drop_last();
    let last = alerts.last();
    assert(front.push(last) =~= alerts);
    lemma_matched_push(front, last, allow, active);
    let kept_front = matched(front, allow, active);
    if j < kept_front.len() {
        lemma_matched_stable(front, allow, active, i, j)
    } else {
        lemma_matched_sound(front, allow, active, i);
        let p = choose|p: int| 0 <= p < front.len() && front[p] == kept_front[i];
        (p, alerts.len() - 1)
    }
}

/// Whether `name` is one of the names on the allow-list.
pub fn name_listed(name: &String, allow: &Vec<String>) -> (found: bool)
    ensures
        found == texts(allow@).contains(name@),
{
    let mut i: usize = 0;
    while i < allow.len()
        invariant
            i <= allow.len(),
            forall|j: int| 0 <= j < i ==> (#[trigger] allow@[j])@ != name@,
        decreases allow.len() - i,
    {
        if allow[i] == *name {
            assert(texts(allow@)[i as int] == name@);
            return true;
        }
        i += 1;
    }
    false
}

/// Whether an alert is eligible for remediation.
pub fn is_actionable(alert: &Alert, allow: &Vec<String>, active_state: &String) -> (keep: bool)
    ensures
        keep == actionable(alert@, texts(allow@), active_state@),
{
    name_listed(&alert.labels.alertname, allow) && alert.status.state == *active_state
}

/// Filters a batch down to the eligible alerts, in the order of the batch.
/// The alerts themselves are borrowed, not changed.
pub fn match_alerts<'a>(alerts: &'a Vec<Alert>, allow: &Vec<String>, active_state: &String) -> (kept:
    Vec<&'a Alert>)
    ensures
        borrowed_views(kept@) == matched(alert_views(alerts@), texts(allow@), active_state@),
{
    let mut kept: Vec<&'a Alert> = Vec::new();
    let mut i: usize = 0;
    proof {
        reveal(Seq::filter);
        assert(alert_views(alerts@).take(0) =~= Seq::<AlertView>::empty());
        assert(borrowed_views(kept@) =~= Seq::<AlertView>::empty());
    }
    while i < alerts.len()
        invariant
            i <= alerts.len(),
            borrowed_views(kept@) == matched(
                alert_views(alerts@).take(i as int),
                texts(allow@),
                active_state@,
            ),
        decreases alerts.len() - i,
    {
        let alert = &alerts[i];
        proof {
            let all = alert_views(alerts@);
            assert(all.take(i + 1) =~= all.take(i as int).push(alert@));
            lemma_matched_push(all.take(i as int), alert@, texts(allow@), active_state@);
        }
        if is_actionable(alert, allow, active_state) {
            let ghost before = kept@;
            kept.push(alert);
            assert(borrowed_views(kept@) =~= borrowed_views(before).push(alert@));
        }
        i += 1;
    }
    assert(alert_views(alerts@).take(i as int) =~= alert_views(alerts@));
    kept
}

} // verus!
