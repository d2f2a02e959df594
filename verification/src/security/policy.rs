//! The static part of the policy: quotas, allow list, block list, blacklist
//! time-to-live. Read-only after construction.

use vstd::prelude::*;
use vstd::hash_set::StringHashSet;
use crate::security::types::{DenyReason, PolicyModel, SecurityConfig, StaticVerdict, string_set};

verus! {

impl PolicyModel {
    /// Whether an allow list is in force.
    pub open spec fn has_allow_list(self) -> bool {
        !self.allowed_ips.is_empty()
    }

    /// The reason for which the static lists deny `key`, if they do. A key
    /// that an allow list in force does not hold is denied for that, whatever
    /// the block list says; otherwise a key on the block list is denied.
    pub open spec fn static_denial(self, key: Seq<char>) -> Option<DenyReason> {
        if self.has_allow_list() && !self.allowed_ips.contains(key) {
            Some(DenyReason::NotAllowlisted)
        } else if self.blocked_ips.contains(key) {
            Some(DenyReason::StaticallyBlocked)
        } else {
            None
        }
    }

    /// `Denied` if `key` is on the block list, or an allow list is in force
    /// and `key` is not on it; otherwise `Unspecified`.
    pub open spec fn evaluate_static(self, key: Seq<char>) -> StaticVerdict {
        if self.blocked_ips.contains(key) || (self.has_allow_list() && !self.allowed_ips.contains(
            key,
        )) {
            StaticVerdict::Denied
        } else {
            StaticVerdict::Unspecified
        }
    }
}

/// Gathers the strings of a list into a hash set.
fn collect_keys(list: &Vec<String>) -> (set: StringHashSet)
    ensures
        set@ == string_set(list@),
{
    let mut set = StringHashSet::new();
    let mut i: usize = 0;
    while i < list.len()
        invariant
            i <= list.len(),
            set@ == string_set(list@.take(i as int)),
        decreases list.len() - i,
    {
        let key = list[i].clone();
        set.insert(key);
        proof {
            let before = list@.take(i as int);
            let after = list@.take(i + 1);
            assert forall|k: Seq<char>| #[trigger]
                string_set(after).contains(k) == string_set(before).insert(list@[i as int]@).contains(
                    k,
                ) by {
                if string_set(after).contains(k) {
                    let j = choose|j: int| 0 <= j < after.len() && #[trigger] after[j]@ == k;
                    if j < i {
                        assert(before[j]@ == k);
                    }
                }
                if string_set(before).contains(k) {
                    let j = choose|j: int| 0 <= j < before.len() && #[trigger] before[j]@ == k;
                    assert(after[j]@ == k);
                }
                if k == list@[i as int]@ {
                    assert(after[i as int]@ == k);
                }
            }
            assert(set@ =~= string_set(after));
        }
        i += 1;
    }
    proof {
        assert(list@.take(list.len() as int) =~= list@);
    }
    set
}

/// The policy of an engine, with its lists held as hash sets.
pub struct PolicyStore {
    max_connections_per_ip: usize,
    max_messages_per_minute: usize,
    blacklist_enabled: bool,
    threat_detection_enabled: bool,
    allowed_ips: StringHashSet,
    blocked_ips: StringHashSet,
    blacklist_ttl_secs: u64,
}

impl View for PolicyStore {
    type V = PolicyModel;

    closed spec fn view(&self) -> PolicyModel {
        PolicyModel {
            max_connections_per_ip: self.max_connections_per_ip as nat,
            max_messages_per_minute: self.max_messages_per_minute as nat,
            blacklist_enabled: self.blacklist_enabled,
            threat_detection_enabled: self.threat_detection_enabled,
            allowed_ips: self.allowed_ips@,
            blocked_ips: self.blocked_ips@,
            blacklist_ttl_secs: self.blacklist_ttl_secs as nat,
        }
    }
}

impl PolicyStore {
    /// The store that holds the policy of `config`.
    pub fn new(config: &SecurityConfig) -> (store: Self)
        ensures
            store@ == config@,
    {
        PolicyStore {
            max_connections_per_ip: config.max_connections_per_ip,
            max_messages_per_minute: config.max_messages_per_minute,
            blacklist_enabled: config.blacklist_enabled,
            threat_detection_enabled: config.threat_detection_enabled,
            allowed_ips: collect_keys(&config.allowed_ips),
            blocked_ips: collect_keys(&config.blocked_ips),
            blacklist_ttl_secs: config.blacklist_ttl_secs,
        }
    }

    /// What the static lists alone say about `key`.
    pub fn evaluate_static(&self, key: &str) -> (verdict: StaticVerdict)
        ensures
            verdict == self@.evaluate_static(key@),
    {
        if self.blocked_ips.contains(key) {
            StaticVerdict::Denied
        } else if !self.allowed_ips.is_empty() && !self.allowed_ips.contains(key) {
            StaticVerdict::Denied
        } else {
            StaticVerdict::Unspecified
        }
    }

    /// The reason for which the static lists deny `key`, if they do.
    pub fn static_denial(&self, key: &str) -> (reason: Option<DenyReason>)
        ensures
            reason == self@.static_denial(key@),
    {
        if !self.allowed_ips.is_empty() && !self.allowed_ips.contains(key) {
            Some(DenyReason::NotAllowlisted)
        } else if self.blocked_ips.contains(key) {
            Some(DenyReason::StaticallyBlocked)
        } else {
            None
        }
    }

    /// Connection attempts that one address may make in a window.
    pub fn max_connections_per_ip(&self) -> (limit: usize)
        ensures
            limit as nat == self@.max_connections_per_ip,
    {
        self.max_connections_per_ip
    }

    /// Messages that one peer may send in a window.
    pub fn max_messages_per_minute(&self) -> (limit: usize)
        ensures
            limit as nat == self@.max_messages_per_minute,
    {
        self.max_messages_per_minute
    }

    /// Seconds for which an entry of the dynamic blacklist blocks its key.
    pub fn blacklist_ttl_secs(&self) -> (ttl: u64)
        ensures
            ttl as nat == self@.blacklist_ttl_secs,
    {
        self.blacklist_ttl_secs
    }

    /// Whether the dynamic blacklist is switched on in the configuration.
    pub fn blacklist_enabled(&self) -> (enabled: bool)
        ensures
            enabled == self@.blacklist_enabled,
    {
        self.blacklist_enabled
    }

    /// Whether threat detection is switched on in the configuration.
    pub fn threat_detection_enabled(&self) -> (enabled: bool)
        ensures
            enabled == self@.threat_detection_enabled,
    {
        self.threat_detection_enabled
    }
}

/// The verdict and the reason agree: the lists deny a key exactly when they
/// give a reason for it.
pub proof fn lemma_static_verdict_matches_reason(policy: PolicyModel, key: Seq<char>)
    ensures
        policy.evaluate_static(key) == StaticVerdict::Denied <==> policy.static_denial(key).is_some(),
        policy.evaluate_static(key) != StaticVerdict::Allowed,
{
}

} // verus!
