//! Turning one eligible alert into one remediation action.
//!
//! The `action` label selects the executor and defaults to pod deletion. An
//! alert that lacks what its action needs, or names an action that is not
//! known, is rejected: no executor runs for it and one line is logged.

use vstd::prelude::*;
use crate::alert::{Alert, AlertView};

verus! {

/// What the dispatcher decided for one alert.
#[derive(Debug, PartialEq, Eq)]
pub enum Action {
    /// Delete the pod `pod` in `namespace`, with default deletion parameters.
    DeletePod { pod: String, namespace: String },
    /// POST the whole alert to `url`.
    Webhook { url: String, payload: Alert },
    /// Pod deletion was selected, but the pod or the namespace is missing.
    MissingTarget { fingerprint: String },
    /// The webhook was selected, but no URL is given.
    MissingWebhookUrl { fingerprint: String },
    /// The alert names an action that is not known.
    UnknownAction { action: String, fingerprint: String },
}

/// An action as sequences of characters.
pub enum ActionView {
    DeletePod { pod: Seq<char>, namespace: Seq<char> },
    Webhook { url: Seq<char>, payload: AlertView },
    MissingTarget { fingerprint: Seq<char> },
    MissingWebhookUrl { fingerprint: Seq<char> },
    UnknownAction { action: Seq<char>, fingerprint: Seq<char> },
}

impl View for Action {
    type V = ActionView;

    open spec fn view(&self) -> ActionView {
        match *self {
            Action::DeletePod { pod, namespace } => ActionView::DeletePod {
                pod: pod@,
                namespace: namespace@,
            },
            Action::Webhook { url, payload } => ActionView::Webhook { url: url@, payload: payload@ },
            Action::MissingTarget { fingerprint } => ActionView::MissingTarget {
                fingerprint: fingerprint@,
            },
            Action::MissingWebhookUrl { fingerprint } => ActionView::MissingWebhookUrl {
                fingerprint: fingerprint@,
            },
            Action::UnknownAction { action, fingerprint } => ActionView::UnknownAction {
                action: action@,
                fingerprint: fingerprint@,
            },
        }
    }
}

/// Severity of a log line.
#[derive(Clone, Copy, Debug, PartialEq, Eq, Structural)]
pub enum Level {
    Info,
    Warn,
    Error,
}

/// How the executor of one action ended. For an action without an executor
/// there is nothing to report, and either value is ignored.
#[derive(Clone, Copy, Debug, PartialEq, Eq, Structural)]
pub enum Outcome {
    Succeeded,
    Failed,
}

/// The label value that selects pod deletion.
pub open spec fn delete_pod_label() -> Seq<char> {
    "delete_pod"@
}

/// The label value that selects the webhook.
pub open spec fn webhook_label() -> Seq<char> {
    "webhook"@
}

/// The action that an alert selects: its `action` label, or pod deletion
/// where it has none.
pub open spec fn selected_action(alert: AlertView) -> Seq<char> {
    match alert.labels.action {
        Some(action) => action,
        None => delete_pod_label(),
    }
}

/// The decision for one alert.
pub open spec fn resolve(alert: AlertView) -> ActionView {
    let action = selected_action(alert);
    if action == delete_pod_label() {
        match (alert.labels.pod, alert.labels.namespace) {
            (Some(pod), Some(namespace)) => ActionView::DeletePod { pod, namespace },
            _ => ActionView::MissingTarget { fingerprint: alert.fingerprint },
        }
    } else if action == webhook_label() {
        match alert.labels.webhook_url {
            Some(url) => ActionView::Webhook { url, payload: alert },
            None => ActionView::MissingWebhookUrl { fingerprint: alert.fingerprint },
        }
    } else {
        ActionView::UnknownAction { action, fingerprint: alert.fingerprint }
    }
}

/// The pod deletions that an action asks for, each as pod name and namespace.
pub open spec fn deletions(action: ActionView) -> Seq<(Seq<char>, Seq<char>)> {
    match action {
        ActionView::DeletePod { pod, namespace } => seq![(pod, namespace)],
        _ => seq![],
    }
}

/// The POST requests that an action asks for, each as URL and body.
pub open spec fn posts(action: ActionView) -> Seq<(Seq<char>, AlertView)> {
    match action {
        ActionView::Webhook { url, payload } => seq![(url, payload)],
        _ => seq![],
    }
}

/// Whether an action runs an executor.
pub open spec fn has_executor(action: ActionView) -> bool {
    action is DeletePod || action is Webhook
}

/// The fingerprint that the log line of a rejected alert refers to.
pub open spec fn rejected_fingerprint(action: ActionView) -> Option<Seq<char>> {
    match action {
        ActionView::MissingTarget { fingerprint } => Some(fingerprint),
        ActionView::MissingWebhookUrl { fingerprint } => Some(fingerprint),
        ActionView::UnknownAction { fingerprint, .. } => Some(fingerprint),
        _ => None,
    }
}

/// The severity of the one log line that an action leaves behind: for an
/// executor, info on success and error on failure; for an alert that lacks a
/// required label, error; for an unknown action, warning.
pub open spec fn log_level(action: ActionView, outcome: Outcome) -> Level {
    match action {
        ActionView::DeletePod { .. } | ActionView::Webhook { .. } => match outcome {
            Outcome::Succeeded => Level::Info,
            Outcome::Failed => Level::Error,
        },
        ActionView::MissingTarget { .. } | ActionView::MissingWebhookUrl { .. } => Level::Error,
        ActionView::UnknownAction { .. } => Level::Warn,
    }
}

/// Decides what to do for one eligible alert.
pub fn dispatch(alert: &Alert) -> (action: Action)
    ensures
        action@ == resolve(alert@),
{
    let delete_pod: String = "delete_pod".to_owned();
    let webhook: String = "webhook".to_owned();
    let selected: String = match &alert.labels.action {
        Some(action) => action.clone(),
        None => delete_pod.clone(),
    };
    if selected == delete_pod {
        match (&alert.labels.pod, &alert.labels.namespace) {
            (Some(pod), Some(namespace)) => Action::DeletePod {
                pod: pod.clone(),
                namespace: namespace.clone(),
            },
            _ => Action::MissingTarget { fingerprint: alert.fingerprint.clone() },
        }
    } else if selected == webhook {
        match &alert.labels.webhook_url {
            Some(url) => Action::Webhook { url: url.clone(), payload: alert.clone() },
            None => Action::MissingWebhookUrl { fingerprint: alert.fingerprint.clone() },
        }
    } else {
        Action::UnknownAction { action: selected, fingerprint: alert.fingerprint.clone() }
    }
}

impl Action {
    /// Whether this action runs an executor.
    pub fn runs_executor(&self) -> (runs: bool)
        ensures
            runs == has_executor(self@),
    {
        match self {
            Action::DeletePod { .. } => true,
            Action::Webhook { .. } => true,
            _ => false,
        }
    }

    /// The severity of the log line for this action, given how its executor
    /// ended.
    pub fn level(&self, outcome: Outcome) -> (level: Level)
        ensures
            level == log_level(self@, outcome),
    {
        match self {
            Action::DeletePod { .. } | Action::Webhook { .. } => match outcome {
                Outcome::Succeeded => Level::Info,
                Outcome::Failed => Level::Error,
            },
            Action::MissingTarget { .. } | Action::MissingWebhookUrl { .. } => Level::Error,
            Action::UnknownAction { .. } => Level::Warn,
        }
    }
}

/// An alert that selects pod deletion, by label or by default, and names both
/// pod and namespace leads to exactly one deletion, of that pod in that
/// namespace, and to no POST.
pub proof fn lemma_delete_once(alert: AlertView)
    requires
        selected_action(alert) == delete_pod_label(),
        alert.labels.pod is Some,
        alert.labels.namespace is Some,
    ensures
        deletions(resolve(alert)) == seq![
            (alert.labels.pod->Some_0, alert.labels.namespace->Some_0),
        ],
        posts(resolve(alert)) == Seq::<(Seq<char>, AlertView)>::empty(),
{
}

/// An alert that selects pod deletion but lacks the pod or the namespace
/// leads to no deletion and no POST: it is rejected with an error line that
/// carries its fingerprint.
pub proof fn lemma_missing_target_rejected(alert: AlertView, outcome: Outcome)
    requires
        selected_action(alert) == delete_pod_label(),
        alert.labels.pod is None || alert.labels.namespace is None,
    ensures
        deletions(resolve(alert)) == Seq::<(Seq<char>, Seq<char>)>::empty(),
        posts(resolve(alert)) == Seq::<(Seq<char>, AlertView)>::empty(),
        rejected_fingerprint(resolve(alert)) == Some(alert.fingerprint),
        log_level(resolve(alert), outcome) == Level::Error,
{
}

/// An alert that selects the webhook and gives a URL leads to exactly one
/// POST, to that URL with the unchanged alert as its body, and to no deletion.
pub proof fn lemma_webhook_once(alert: AlertView)
    requires
        selected_action(alert) == webhook_label(),
        alert.labels.webhook_url is Some,
    ensures
        posts(resolve(alert)) == seq![(alert.labels.webhook_url->Some_0, alert)],
        deletions(resolve(alert)) == Seq::<(Seq<char>, Seq<char>)>::empty(),
{
    lemma_labels_differ();
}

/// An alert that selects the webhook but gives no URL is rejected with an
/// error line that carries its fingerprint.
pub proof fn lemma_missing_url_rejected(alert: AlertView, outcome: Outcome)
    requires
        selected_action(alert) == webhook_label(),
        alert.labels.webhook_url is None,
    ensures
        !has_executor(resolve(alert)),
        rejected_fingerprint(resolve(alert)) == Some(alert.fingerprint),
        log_level(resolve(alert), outcome) == Level::Error,
{
    lemma_labels_differ();
}

/// An alert whose action is neither pod deletion nor the webhook runs no
/// executor: it is rejected with a warning that names the action and the
/// fingerprint.
pub proof fn lemma_unknown_action_ignored(alert: AlertView, outcome: Outcome)
    requires
        selected_action(alert) != delete_pod_label(),
        selected_action(alert) != webhook_label(),
    ensures
        resolve(alert) == (ActionView::UnknownAction {
            action: selected_action(alert),
            fingerprint: alert.fingerprint,
        }),
        deletions(resolve(alert)) == Seq::<(Seq<char>, Seq<char>)>::empty(),
        posts(resolve(alert)) == Seq::<(Seq<char>, AlertView)>::empty(),
        log_level(resolve(alert), outcome) == Level::Warn,
{
}

/// The two known action labels are different texts.
pub proof fn lemma_labels_differ()
    ensures
        delete_pod_label() != webhook_label(),
{
    reveal_strlit("delete_pod");
    reveal_strlit("webhook");
    assert(delete_pod_label().len() == 10);
    assert(webhook_label().len() == 7);
}

} // verus!
