use alert_deleter::alert::{Alert, AlertStatus, Labels};
use alert_deleter::cycle::Cycle;
use alert_deleter::dispatch::{dispatch, Action, Level, Outcome};
use alert_deleter::matcher::{is_actionable, match_alerts, name_listed};

fn alert(fingerprint: &str, state: &str, name: &str) -> Alert {
    Alert {
        fingerprint: fingerprint.to_string(),
        status: AlertStatus { state: state.to_string() },
        labels: Labels {
            alertname: name.to_string(),
            pod: None,
            namespace: None,
            action: None,
            webhook_url: None,
        },
    }
}

fn pod_alert(fingerprint: &str, state: &str, name: &str, pod: &str, namespace: &str) -> Alert {
    let mut a = alert(fingerprint, state, name);
    a.labels.pod = Some(pod.to_string());
    a.labels.namespace = Some(namespace.to_string());
    a
}

fn allow(names: &[&str]) -> Vec<String> {
    names.iter().map(|n| n.to_string()).collect()
}

fn active() -> String {
    "active".to_string()
}

#[test]
fn firing_alert_on_allow_list_deletes_its_pod_once() {
    let alerts = vec![pod_alert("f1", "active", "HighMemory", "api-0", "prod")];
    let mut cycle = Cycle::begin(&alerts, &allow(&["HighMemory"]), &active());
    assert_eq!(cycle.remaining(), 1);
    assert_eq!(
        cycle.current(),
        Some(&Action::DeletePod { pod: "api-0".to_string(), namespace: "prod".to_string() })
    );
    assert_eq!(cycle.record(Outcome::Succeeded), Some(Level::Info));
    assert_eq!(cycle.current(), None);
    assert_eq!(cycle.remaining(), 0);
    assert_eq!(cycle.record(Outcome::Succeeded), None);
}

#[test]
fn resolved_alert_is_not_remediated() {
    let alerts = vec![pod_alert("f1", "resolved", "HighMemory", "api-0", "prod")];
    let cycle = Cycle::begin(&alerts, &allow(&["HighMemory"]), &active());
    assert_eq!(cycle.remaining(), 0);
    assert_eq!(cycle.current(), None);
    assert!(match_alerts(&alerts, &allow(&["HighMemory"]), &active()).is_empty());
}

#[test]
fn webhook_alert_posts_the_alert_and_deletes_nothing() {
    let mut a = pod_alert("f1", "active", "HighMemory", "api-0", "prod");
    a.labels.action = Some("webhook".to_string());
    a.labels.webhook_url = Some("http://x/y".to_string());
    let alerts = vec![a.clone()];
    let mut cycle = Cycle::begin(&alerts, &allow(&["HighMemory"]), &active());
    assert_eq!(cycle.remaining(), 1);
    match cycle.current() {
        Some(Action::Webhook { url, payload }) => {
            assert_eq!(url, "http://x/y");
            assert_eq!(payload, &a);
            assert_eq!(payload.fingerprint, "f1");
            assert_eq!(payload.status.state, "active");
            assert_eq!(payload.labels.alertname, "HighMemory");
            assert_eq!(payload.labels.pod.as_deref(), Some("api-0"));
            assert_eq!(payload.labels.namespace.as_deref(), Some("prod"));
            assert_eq!(payload.labels.action.as_deref(), Some("webhook"));
            assert_eq!(payload.labels.webhook_url.as_deref(), Some("http://x/y"));
        }
        other => panic!("expected a webhook, got {:?}", other),
    }
    assert_eq!(cycle.record(Outcome::Succeeded), Some(Level::Info));
    assert_eq!(cycle.current(), None);
}

#[test]
fn unrecognized_action_runs_nothing_and_warns() {
    let mut a = pod_alert("f9", "active", "HighMemory", "api-0", "prod");
    a.labels.action = Some("restart".to_string());
    let action = dispatch(&a);
    assert_eq!(
        action,
        Action::UnknownAction { action: "restart".to_string(), fingerprint: "f9".to_string() }
    );
    assert!(!action.runs_executor());
    assert_eq!(action.level(Outcome::Succeeded), Level::Warn);
    assert_eq!(action.level(Outcome::Failed), Level::Warn);
}

#[test]
fn missing_action_label_defaults_to_pod_deletion() {
    let a = pod_alert("f1", "active", "HighMemory", "api-0", "prod");
    let action = dispatch(&a);
    assert_eq!(
        action,
        Action::DeletePod { pod: "api-0".to_string(), namespace: "prod".to_string() }
    );
    assert!(action.runs_executor());
}

#[test]
fn explicit_delete_pod_label_deletes_the_pod() {
    let mut a = pod_alert("f1", "active", "HighMemory", "web-3", "staging");
    a.labels.action = Some("delete_pod".to_string());
    a.labels.webhook_url = Some("http://ignored/".to_string());
    assert_eq!(
        dispatch(&a),
        Action::DeletePod { pod: "web-3".to_string(), namespace: "staging".to_string() }
    );
}

#[test]
fn pod_deletion_without_pod_is_rejected_with_fingerprint() {
    let mut a = alert("f2", "active", "HighMemory");
    a.labels.namespace = Some("prod".to_string());
    let action = dispatch(&a);
    assert_eq!(action, Action::MissingTarget { fingerprint: "f2".to_string() });
    assert!(!action.runs_executor());
    assert_eq!(action.level(Outcome::Succeeded), Level::Error);
}

#[test]
fn pod_deletion_without_namespace_is_rejected_with_fingerprint() {
    let mut a = alert("f3", "active", "HighMemory");
    a.labels.pod = Some("api-0".to_string());
    assert_eq!(dispatch(&a), Action::MissingTarget { fingerprint: "f3".to_string() });
    let bare = alert("f4", "active", "HighMemory");
    assert_eq!(dispatch(&bare), Action::MissingTarget { fingerprint: "f4".to_string() });
}

#[test]
fn webhook_without_url_is_rejected_with_fingerprint() {
    let mut a = pod_alert("f5", "active", "HighMemory", "api-0", "prod");
    a.labels.action = Some("webhook".to_string());
    let action = dispatch(&a);
    assert_eq!(action, Action::MissingWebhookUrl { fingerprint: "f5".to_string() });
    assert!(!action.runs_executor());
    assert_eq!(action.level(Outcome::Failed), Level::Error);
}

#[test]
fn action_labels_are_matched_exactly() {
    let mut a = pod_alert("f6", "active", "HighMemory", "api-0", "prod");
    a.labels.action = Some("Webhook".to_string());
    a.labels.webhook_url = Some("http://x/y".to_string());
    assert_eq!(
        dispatch(&a),
        Action::UnknownAction { action: "Webhook".to_string(), fingerprint: "f6".to_string() }
    );
    a.labels.action = Some("".to_string());
    assert_eq!(
        dispatch(&a),
        Action::UnknownAction { action: "".to_string(), fingerprint: "f6".to_string() }
    );
}

#[test]
fn executor_outcome_sets_the_log_level() {
    let delete = Action::DeletePod { pod: "p".to_string(), namespace: "n".to_string() };
    assert_eq!(delete.level(Outcome::Succeeded), Level::Info);
    assert_eq!(delete.level(Outcome::Failed), Level::Error);
    let hook = Action::Webhook {
        url: "http://x/y".to_string(),
        payload: alert("f", "active", "A"),
    };
    assert_eq!(hook.level(Outcome::Succeeded), Level::Info);
    assert_eq!(hook.level(Outcome::Failed), Level::Error);
}

#[test]
fn matcher_excludes_unlisted_and_inactive_alerts() {
    let alerts = vec![
        pod_alert("a", "active", "HighMemory", "p1", "n"),
        pod_alert("b", "active", "DiskFull", "p2", "n"),
        pod_alert("c", "suppressed", "HighMemory", "p3", "n"),
        pod_alert("d", "active", "HighCpu", "p4", "n"),
        pod_alert("e", "active", "HighMemory", "p5", "n"),
    ];
    let list = allow(&["HighMemory", "HighCpu"]);
    let kept = match_alerts(&alerts, &list, &active());
    let prints: Vec<&str> = kept.iter().map(|a| a.fingerprint.as_str()).collect();
    assert_eq!(prints, vec!["a", "d", "e"]);
    assert!(std::ptr::eq(kept[0], &alerts[0]));
    assert!(!is_actionable(&alerts[1], &list, &active()));
    assert!(!is_actionable(&alerts[2], &list, &active()));
    assert!(is_actionable(&alerts[3], &list, &active()));
}

#[test]
fn matcher_with_empty_allow_list_or_batch_keeps_nothing() {
    let alerts = vec![pod_alert("a", "active", "HighMemory", "p1", "n")];
    assert!(match_alerts(&alerts, &allow(&[]), &active()).is_empty());
    let none: Vec<Alert> = Vec::new();
    assert!(match_alerts(&none, &allow(&["HighMemory"]), &active()).is_empty());
}

#[test]
fn firing_state_literal_is_configurable() {
    let alerts = vec![
        pod_alert("a", "firing", "HighMemory", "p1", "n"),
        pod_alert("b", "active", "HighMemory", "p2", "n"),
    ];
    let list = allow(&["HighMemory"]);
    let kept = match_alerts(&alerts, &list, &"firing".to_string());
    assert_eq!(kept.len(), 1);
    assert_eq!(kept[0].fingerprint, "a");
    assert!(!is_actionable(&alerts[0], &list, &active()));
}

#[test]
fn allow_list_names_are_matched_exactly() {
    let list = allow(&["HighMemory", "DiskFull"]);
    assert!(name_listed(&"DiskFull".to_string(), &list));
    assert!(name_listed(&"HighMemory".to_string(), &list));
    assert!(!name_listed(&"highmemory".to_string(), &list));
    assert!(!name_listed(&"HighMemory ".to_string(), &list));
    assert!(!name_listed(&"".to_string(), &list));
    assert!(!name_listed(&"HighMemory".to_string(), &allow(&[])));
}

#[test]
fn failed_executor_does_not_stop_the_cycle() {
    let mut hook = alert("b", "active", "HighMemory");
    hook.labels.action = Some("webhook".to_string());
    hook.labels.webhook_url = Some("http://x/y".to_string());
    let alerts = vec![
        pod_alert("a", "active", "HighMemory", "p1", "n1"),
        alert("skip", "active", "Other"),
        hook,
        alert("c", "active", "HighMemory"),
        pod_alert("d", "active", "HighMemory", "p4", "n4"),
    ];
    let mut cycle = Cycle::begin(&alerts, &allow(&["HighMemory"]), &active());
    assert_eq!(cycle.remaining(), 4);
    assert_eq!(
        cycle.current(),
        Some(&Action::DeletePod { pod: "p1".to_string(), namespace: "n1".to_string() })
    );
    assert_eq!(cycle.record(Outcome::Failed), Some(Level::Error));
    assert!(matches!(cycle.current(), Some(Action::Webhook { .. })));
    assert_eq!(cycle.record(Outcome::Failed), Some(Level::Error));
    assert_eq!(cycle.current(), Some(&Action::MissingTarget { fingerprint: "c".to_string() }));
    assert_eq!(cycle.record(Outcome::Succeeded), Some(Level::Error));
    assert_eq!(
        cycle.current(),
        Some(&Action::DeletePod { pod: "p4".to_string(), namespace: "n4".to_string() })
    );
    assert_eq!(cycle.record(Outcome::Succeeded), Some(Level::Info));
    assert_eq!(cycle.remaining(), 0);
    assert_eq!(cycle.current(), None);
    assert_eq!(cycle.record(Outcome::Failed), None);
    assert_eq!(cycle.remaining(), 0);
}

#[test]
fn cloned_alert_equals_its_source() {
    let mut a = pod_alert("f1", "active", "HighMemory", "api-0", "prod");
    a.labels.action = Some("webhook".to_string());
    let b = a.clone();
    assert_eq!(a, b);
    assert_eq!(b.labels.action.as_deref(), Some("webhook"));
    assert_eq!(b.labels.webhook_url, None);
    assert_eq!(b.status.clone(), AlertStatus { state: "active".to_string() });
}
