//! Extension points for peer-level checks, with defaults that let everything
//! through.

use vstd::prelude::*;

verus! {

/// Decides whether a new peer may join, against Sybil attacks.
pub trait SybilDefense {
    /// Whether the new peer `peer_id` is allowed.
    fn allow_new_peer(&self, peer_id: &str) -> bool;
}

/// Allows every new peer.
pub struct AllowAllSybilDefense;

impl SybilDefense for AllowAllSybilDefense {
    fn allow_new_peer(&self, _peer_id: &str) -> (allowed: bool)
        ensures
            allowed,
    {
        true
    }
}

/// Enforces quotas per peer and overall.
pub trait QuotaEnforcer {
    /// Whether `peer_id` is within its quota.
    fn check_quota(&self, peer_id: &str) -> bool;
}

/// Finds every peer within its quota.
pub struct AllowAllQuotaEnforcer;

impl QuotaEnforcer for AllowAllQuotaEnforcer {
    fn check_quota(&self, _peer_id: &str) -> (within: bool)
        ensures
            within,
    {
        true
    }
}

/// Keeps a local blacklist of peers.
pub trait BlacklistManager {
    /// Whether `peer_id` is blacklisted.
    fn is_blacklisted(&self, peer_id: &str) -> bool;

    /// Puts `peer_id` on the blacklist.
    fn add(&mut self, peer_id: &str);
}

/// Blacklists nobody.
pub struct NoBlacklistManager;

impl BlacklistManager for NoBlacklistManager {
    fn is_blacklisted(&self, _peer_id: &str) -> (listed: bool)
        ensures
            !listed,
    {
        false
    }

    fn add(&mut self, _peer_id: &str) {
    }
}

} // verus!
