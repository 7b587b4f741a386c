use alert_deleter::config::{Config, DEFAULT_INTERVAL_SECS, DEFAULT_LEASE_SECS};
use alert_deleter::lease::{
    Directive, LeaseState, Phase, Reply, ACQUIRE_BACKOFF_SECS, LOST_LEASE_EXIT_CODE,
    RENEWAL_PERIOD_SECS,
};

fn fresh() -> LeaseState {
    LeaseState::new("replica-0".to_string(), "alert-deleter".to_string(), 10)
}

fn leader() -> LeaseState {
    let mut lease = fresh();
    assert_eq!(lease.observe(Reply::Held), Directive::StartWatchdog { after_secs: 5 });
    lease
}

#[test]
fn new_lease_is_not_held() {
    let lease = fresh();
    assert_eq!(lease.phase(), Phase::NotLeader);
    assert!(!lease.acquired());
    assert_eq!(lease.holder_id(), "replica-0");
    assert_eq!(lease.lease_name(), "alert-deleter");
    assert_eq!(lease.ttl_secs(), 10);
}

#[test]
fn cadences_and_exit_status() {
    assert_eq!(ACQUIRE_BACKOFF_SECS, 1);
    assert_eq!(RENEWAL_PERIOD_SECS, 5);
    assert_eq!(LOST_LEASE_EXIT_CODE, 1);
}

#[test]
fn acquisition_retries_every_second_until_held() {
    let mut lease = fresh();
    for _ in 0..7u32 {
        assert_eq!(lease.observe(Reply::NotHeld), Directive::RetryAcquire { after_secs: 1 });
        assert_eq!(lease.phase(), Phase::NotLeader);
        assert!(!lease.acquired());
    }
    assert_eq!(lease.observe(Reply::Held), Directive::StartWatchdog { after_secs: 5 });
    assert_eq!(lease.phase(), Phase::Leader);
    assert!(lease.acquired());
}

#[test]
fn unreachable_lease_at_startup_fails_the_start() {
    let mut lease = fresh();
    assert_eq!(lease.observe(Reply::NotHeld), Directive::RetryAcquire { after_secs: 1 });
    assert_eq!(lease.observe(Reply::Failed), Directive::FailStartup);
    assert_eq!(lease.phase(), Phase::Terminated);
    assert_eq!(lease.observe(Reply::Held), Directive::Halted);
    assert!(!lease.acquired());
}

#[test]
fn renewal_keeps_leadership() {
    let mut lease = leader();
    for _ in 0..4u32 {
        assert_eq!(lease.observe(Reply::Held), Directive::Renew { after_secs: 5 });
        assert!(lease.acquired());
    }
}

#[test]
fn lost_lease_exits_once_after_transient_errors() {
    let mut lease = leader();
    let mut exits: u32 = 0;
    let replies = [
        Reply::Failed,
        Reply::Held,
        Reply::Failed,
        Reply::Failed,
        Reply::NotHeld,
        Reply::Failed,
        Reply::NotHeld,
        Reply::Held,
    ];
    let mut told = Vec::new();
    for reply in replies {
        let directive = lease.observe(reply);
        if let Directive::Exit { code } = directive {
            assert_eq!(code, 1);
            exits += 1;
        }
        told.push(directive);
    }
    assert_eq!(exits, 1);
    assert_eq!(
        told,
        vec![
            Directive::WarnAndRenew { after_secs: 5 },
            Directive::Renew { after_secs: 5 },
            Directive::WarnAndRenew { after_secs: 5 },
            Directive::WarnAndRenew { after_secs: 5 },
            Directive::Exit { code: 1 },
            Directive::Halted,
            Directive::Halted,
            Directive::Halted,
        ]
    );
    assert_eq!(lease.phase(), Phase::Terminated);
    assert!(!lease.acquired());
}

#[test]
fn transient_errors_alone_never_exit() {
    let mut lease = leader();
    for _ in 0..50u32 {
        assert_eq!(lease.observe(Reply::Failed), Directive::WarnAndRenew { after_secs: 5 });
        assert_eq!(lease.phase(), Phase::Leader);
    }
}

#[test]
fn observing_keeps_the_lease_parameters() {
    let mut lease = LeaseState::new("me".to_string(), "the-lease".to_string(), 42);
    lease.observe(Reply::Held);
    lease.observe(Reply::NotHeld);
    assert_eq!(lease.holder_id(), "me");
    assert_eq!(lease.lease_name(), "the-lease");
    assert_eq!(lease.ttl_secs(), 42);
}

#[test]
fn config_defaults() {
    let config = Config::new(
        "http://alertmanager/api/v2/alerts".to_string(),
        vec!["HighMemory".to_string()],
        "replica-0".to_string(),
    );
    assert_eq!(DEFAULT_INTERVAL_SECS, 60);
    assert_eq!(DEFAULT_LEASE_SECS, 10);
    assert_eq!(config.alertmanager_url, "http://alertmanager/api/v2/alerts");
    assert_eq!(config.alert_names, vec!["HighMemory".to_string()]);
    assert_eq!(config.pod_name, "replica-0");
    assert_eq!(config.interval_secs, 60);
    assert_eq!(config.lease_secs, 10);
    assert_eq!(config.lease_name, "alert-deleter");
    assert_eq!(config.active_state, "active");
}

#[test]
fn config_describes_its_lease() {
    let mut config = Config::new("u".to_string(), Vec::new(), "replica-7".to_string());
    config.lease_name = "other".to_string();
    config.lease_secs = 30;
    let lease = config.lease();
    assert_eq!(lease.holder_id(), "replica-7");
    assert_eq!(lease.lease_name(), "other");
    assert_eq!(lease.ttl_secs(), 30);
    assert_eq!(lease.phase(), Phase::NotLeader);
}
