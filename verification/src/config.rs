//! The settings of the agent, fixed at startup.

use vstd::prelude::*;
use crate::lease::{LeaseState, LeaseView, Phase};

verus! {

/// Seconds between two polls where none is configured.
pub const DEFAULT_INTERVAL_SECS: u64 = 60;

/// Time to live of the lease, in seconds, where none is configured.
pub const DEFAULT_LEASE_SECS: u64 = 10;

/// The name of the lease where none is configured.
pub open spec fn default_lease_name() -> Seq<char> {
    "alert-deleter"@
}

/// The state of a firing alert where none is configured.
pub open spec fn default_active_state() -> Seq<char> {
    "active"@
}

/// The settings. No component changes them.
#[derive(Debug)]
pub struct Config {
    /// Endpoint that is polled for the list of alerts.
    pub alertmanager_url: String,
    /// Names of the alerts to act on.
    pub alert_names: Vec<String>,
    /// Seconds between two polls.
    pub interval_secs: u64,
    /// Identity of this replica as holder of the lease.
    pub pod_name: String,
    /// Name of the shared lease.
    pub lease_name: String,
    /// Time to live of the lease, in seconds.
    pub lease_secs: u64,
    /// The state that the alert source gives a firing alert.
    pub active_state: String,
}

impl Config {
    /// Settings with the required values as given and every other at its
    /// default.
    pub fn new(alertmanager_url: String, alert_names: Vec<String>, pod_name: String) -> (config:
        Config)
        ensures
            config.alertmanager_url == alertmanager_url,
            config.alert_names == alert_names,
            config.pod_name == pod_name,
            config.interval_secs == DEFAULT_INTERVAL_SECS,
            config.lease_secs == DEFAULT_LEASE_SECS,
            config.lease_name@ == default_lease_name(),
            config.active_state@ == default_active_state(),
    {
        Config {
            alertmanager_url,
            alert_names,
            interval_secs: DEFAULT_INTERVAL_SECS,
            pod_name,
            lease_name: "alert-deleter".to_owned(),
            lease_secs: DEFAULT_LEASE_SECS,
            active_state: "active".to_owned(),
        }
    }

    /// The lease that these settings describe, not yet asked for.
    pub fn lease(&self) -> (lease: LeaseState)
        ensures
            lease@ == (LeaseView {
                holder_id: self.pod_name@,
                lease_name: self.lease_name@,
                ttl_secs: self.lease_secs,
                phase: Phase::NotLeader,
            }),
    {
        LeaseState::new(self.pod_name.clone(), self.lease_name.clone(), self.lease_secs)
    }
}

} // verus!
