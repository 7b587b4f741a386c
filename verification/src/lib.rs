//! Decision logic of a single-leader alert remediation agent.
//!
//! The agent polls an alert source, keeps the alerts that are on an allow-list
//! and currently firing, and turns each of them into one remediation action.
//! Everything here is pure: the surrounding program performs the network calls
//! and reports their outcomes back.

pub mod alert;
pub mod matcher;
pub mod dispatch;
pub mod lease;
pub mod cycle;
pub mod config;
