//! Admission control: static allow and block lists, a time-limited dynamic
//! blacklist, per-key quotas, and the event log with its statistics.

pub mod blacklist;
pub mod defense;
pub mod events;
pub mod laws;
pub mod manager;
pub mod model;
pub mod policy;
pub mod quota;
pub mod types;
