//! The alert record as the alert source reports it, and its mathematical view.

use vstd::prelude::*;

verus! {

/// Firing state of an alert, in the alert source's own vocabulary.
#[derive(Debug, PartialEq, Eq)]
pub struct AlertStatus {
    pub state: String,
}

/// The labels of an alert that the agent interprets.
#[derive(Debug, PartialEq, Eq)]
pub struct Labels {
    pub alertname: String,
    pub pod: Option<String>,
    pub namespace: Option<String>,
    pub action: Option<String>,
    pub webhook_url: Option<String>,
}

/// One reported condition: a point-in-time snapshot that is never changed
/// after it has been received.
#[derive(Debug, PartialEq, Eq)]
pub struct Alert {
    pub fingerprint: String,
    pub status: AlertStatus,
    pub labels: Labels,
}

/// Labels as sequences of characters.
pub struct LabelsView {
    pub alertname: Seq<char>,
    pub pod: Option<Seq<char>>,
    pub namespace: Option<Seq<char>>,
    pub action: Option<Seq<char>>,
    pub webhook_url: Option<Seq<char>>,
}

/// An alert as sequences of characters.
pub struct AlertView {
    pub fingerprint: Seq<char>,
    pub state: Seq<char>,
    pub labels: LabelsView,
}

/// The text of an optional label.
pub open spec fn label_text(label: Option<String>) -> Option<Seq<char>> {
    match label {
        Some(s) => Some(s@),
        None => None,
    }
}

impl View for Labels {
    type V = LabelsView;

    open spec fn view(&self) -> LabelsView {
        LabelsView {
            alertname: self.alertname@,
            pod: label_text(self.pod),
            namespace: label_text(self.namespace),
            action: label_text(self.action),
            webhook_url: label_text(self.webhook_url),
        }
    }
}

impl View for Alert {
    type V = AlertView;

    open spec fn view(&self) -> AlertView {
        AlertView {
            fingerprint: self.fingerprint@,
            state: self.status.state@,
            labels: self.labels@,
        }
    }
}

/// The texts of a list of strings, in order.
pub open spec fn texts(names: Seq<String>) -> Seq<Seq<char>> {
    names.map_values(|s: String| s@)
}

/// The views of a list of alerts, in order.
pub open spec fn alert_views(alerts: Seq<Alert>) -> Seq<AlertView> {
    alerts.map_values(|a: Alert| a@)
}

/// Copies an optional label.
pub fn copy_label(label: &Option<String>) -> (out: Option<String>)
    ensures
        out == *label,
{
    match label {
        Some(s) => Some(s.clone()),
        None => None,
    }
}

impl Clone for AlertStatus {
    fn clone(&self) -> (out: Self)
        ensures
            out == *self,
    {
        AlertStatus { state: self.state.clone() }
    }
}

impl Clone for Labels {
    fn clone(&self) -> (out: Self)
        ensures
            out == *self,
    {
        Labels {
            alertname: self.alertname.clone(),
            pod: copy_label(&self.pod),
            namespace: copy_label(&self.namespace),
            action: copy_label(&self.action),
            webhook_url: copy_label(&self.webhook_url),
        }
    }
}

impl Clone for Alert {
    fn clone(&self) -> (out: Self)
        ensures
            out == *self,
    {
        Alert {
            fingerprint: self.fingerprint.clone(),
            status: self.status.clone(),
            labels: self.labels.clone(),
        }
    }
}

} // verus!
