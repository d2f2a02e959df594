//! What holds of the admission engine whatever the calls and their order,
//! proved over its mathematical value.

use vstd::prelude::*;
use crate::security::blacklist::{BlacklistModel, in_force};
use crate::security::model::EngineModel;
use crate::security::types::{Decision, DenyReason, EventModel, ThreatLevel};

verus! {

/// The engine after connection attempts of `ip`, one at each time of
/// `nows`, in that order. Calls that arrive together are served one after
/// the other, in some order: this is that order.
pub open spec fn after_connections(start: EngineModel, ip: Seq<char>, nows: Seq<nat>) -> EngineModel
    decreases nows.len(),
{
    if nows.len() == 0 {
        start
    } else {
        after_connections(start, ip, nows.drop_last()).admit_connection(ip, nows.last())
    }
}

/// The decision on the attempt at position `i` of such a run.
pub open spec fn connection_outcome(
    start: EngineModel,
    ip: Seq<char>,
    nows: Seq<nat>,
    i: int,
) -> Decision
    recommends
        0 <= i < nows.len(),
{
    after_connections(start, ip, nows.take(i)).decide_connection(ip, nows[i])
}

/// How many attempts of such a run are permitted.
pub open spec fn permits_in(start: EngineModel, ip: Seq<char>, nows: Seq<nat>) -> nat
    decreases nows.len(),
{
    if nows.len() == 0 {
        0
    } else {
        let before = permits_in(start, ip, nows.drop_last());
        if connection_outcome(start, ip, nows, nows.len() - 1).permits() {
            before + 1
        } else {
            before
        }
    }
}

/// The engine holds nothing about `ip`, and the static lists do not deny it.
pub open spec fn fresh_for(start: EngineModel, ip: Seq<char>) -> bool {
    &&& start.connections.count(ip) == 0
    &&& !start.blacklist.entries.contains_key(ip)
    &&& start.policy.static_denial(ip).is_none()
}

/// The engine after `count` messages of `peer`.
pub open spec fn after_messages(start: EngineModel, peer: Seq<char>, count: nat) -> EngineModel
    decreases count,
{
    if count == 0 {
        start
    } else {
        after_messages(start, peer, (count - 1) as nat).admit_message(peer)
    }
}

/// The engine after the events of `events` were added in that order.
pub open spec fn after_events(start: EngineModel, events: Seq<EventModel>) -> EngineModel
    decreases events.len(),
{
    if events.len() == 0 {
        start
    } else {
        after_events(start, events.drop_last()).add_event(events.last())
    }
}

/// The highest threat level among `events`, `Low` if there is none.
pub open spec fn max_threat(events: Seq<EventModel>) -> ThreatLevel
    decreases events.len(),
{
    if events.len() == 0 {
        ThreatLevel::Low
    } else {
        max_threat(events.drop_last()).spec_max(events.last().threat_level)
    }
}

/// Every step keeps a well-formed engine well formed and leaves its policy
/// as it is.
pub proof fn law_steps_preserve_wf(
    state: EngineModel,
    key: Seq<char>,
    now: nat,
    event: EventModel,
)
    requires
        state.wf(),
    ensures
        state.admit_connection(key, now).wf(),
        state.admit_message(key).wf(),
        state.block_ip(key, now).wf(),
        state.add_event(event).wf(),
        state.cleanup(now).wf(),
        state.admit_connection(key, now).policy == state.policy,
        state.admit_message(key).policy == state.policy,
        state.block_ip(key, now).policy == state.policy,
        state.add_event(event).policy == state.policy,
        state.cleanup(now).policy == state.policy,
{
}

/// The state of a run of connection attempts of one address after its last
/// attempt: the count is the number of attempts up to the quota, and the
/// address has a blacklist entry iff there were more attempts than that.
proof fn lemma_connections_run(start: EngineModel, ip: Seq<char>, nows: Seq<nat>)
    requires
        start.wf(),
        fresh_for(start, ip),
    ensures
        ({
            let end = after_connections(start, ip, nows);
            let quota = start.policy.max_connections_per_ip;
            &&& end.wf()
            &&& end.policy == start.policy
            &&& end.connections.count(ip) == if nows.len() <= quota {
                nows.len()
            } else {
                quota
            }
            &&& end.blacklist.entries.contains_key(ip) <==> nows.len() > quota
        }),
    decreases nows.len(),
{
    if nows.len() > 0 {
        lemma_connections_run(start, ip, nows.drop_last());
        let before = after_connections(start, ip, nows.drop_last());
        law_steps_preserve_wf(before, ip, nows.last(), arbitrary());
    }
}

/// Quota enforcement and race freedom. Of any number of connection
/// attempts of one address that the engine holds nothing about, served in
/// whatever order they arrive, exactly the first `max_connections_per_ip`
/// are permitted. The next one is denied for the quota and blacklists the
/// address. Each later one is denied too: as blacklisted while the entry is
/// in force, else again for the quota.
pub proof fn law_connection_quota(start: EngineModel, ip: Seq<char>, nows: Seq<nat>)
    requires
        start.wf(),
        fresh_for(start, ip),
    ensures
        forall|i: int|
            0 <= i < nows.len() ==> (#[trigger] connection_outcome(start, ip, nows, i)).permits() == (
            i < start.policy.max_connections_per_ip),
        forall|i: int|
            0 <= i < nows.len() && i == start.policy.max_connections_per_ip
                ==> #[trigger] connection_outcome(start, ip, nows, i) == Decision::Deny(
                DenyReason::QuotaExceeded,
            ),
        forall|i: int|
            0 <= i < nows.len() && i > start.policy.max_connections_per_ip ==> {
                let outcome = #[trigger] connection_outcome(start, ip, nows, i);
                outcome == Decision::Deny(DenyReason::Blacklisted) || outcome == Decision::Deny(
                    DenyReason::QuotaExceeded,
                )
            },
        permits_in(start, ip, nows) == if nows.len() <= start.policy.max_connections_per_ip {
            nows.len()
        } else {
            start.policy.max_connections_per_ip
        },
        nows.len() > start.policy.max_connections_per_ip ==> after_connections(
            start,
            ip,
            nows,
        ).blacklist.entries.contains_key(ip),
    decreases nows.len(),
{
    lemma_connections_run(start, ip, nows);
    assert forall|i: int| 0 <= i < nows.len() implies {
        let outcome = #[trigger] connection_outcome(start, ip, nows, i);
        let quota = start.policy.max_connections_per_ip;
        &&& outcome.permits() == (i < quota)
        &&& i == quota ==> outcome == Decision::Deny(DenyReason::QuotaExceeded)
        &&& i > quota ==> outcome == Decision::Deny(DenyReason::Blacklisted) || outcome
            == Decision::Deny(DenyReason::QuotaExceeded)
    } by {
        lemma_connections_run(start, ip, nows.take(i));
    }
    if nows.len() > 0 {
        law_connection_quota(start, ip, nows.drop_last());
        let last = nows.len() - 1;
        assert(nows.take(last) =~= nows.drop_last());
        assert(connection_outcome(start, ip, nows, last).permits() == (last
            < start.policy.max_connections_per_ip));
    }
}

/// After the attempt that went over the quota the address is blacklisted
/// from the time of that attempt: a run of exactly one attempt more than
/// the quota leaves the entry at the time of the last attempt, so that the
/// address is blocked at every time at which that entry is in force.
pub proof fn law_over_quota_blacklists(start: EngineModel, ip: Seq<char>, nows: Seq<nat>, later: nat)
    requires
        start.wf(),
        fresh_for(start, ip),
        nows.len() == start.policy.max_connections_per_ip + 1,
    ensures
        after_connections(start, ip, nows).blacklist.entries.contains_key(ip),
        after_connections(start, ip, nows).blacklist.entries[ip] == nows.last(),
        after_connections(start, ip, nows).blacklist.is_blocked(ip, later) == in_force(
            nows.last(),
            later,
            start.policy.blacklist_ttl_secs,
        ),
{
    lemma_connections_run(start, ip, nows.drop_last());
    lemma_connections_run(start, ip, nows);
}

/// The state of a run of attempts in which every attempt after the one
/// that first went over the quota finds the block of the attempt before it
/// expired: nothing is in force, and the entry is that of the last attempt.
proof fn lemma_spaced_run(start: EngineModel, ip: Seq<char>, nows: Seq<nat>)
    requires
        start.wf(),
        fresh_for(start, ip),
        forall|i: int|
            start.policy.max_connections_per_ip < i < nows.len() ==> !in_force(
                #[trigger] nows[i - 1],
                nows[i],
                start.policy.blacklist_ttl_secs,
            ),
    ensures
        nows.len() > start.policy.max_connections_per_ip ==> after_connections(
            start,
            ip,
            nows,
        ).blacklist.entries[ip] == nows.last(),
    decreases nows.len(),
{
    lemma_connections_run(start, ip, nows);
    if nows.len() > 0 {
        let shorter = nows.drop_last();
        lemma_connections_run(start, ip, shorter);
        assert forall|i: int|
            start.policy.max_connections_per_ip < i < shorter.len() implies !in_force(
            #[trigger] shorter[i - 1],
            shorter[i],
            start.policy.blacklist_ttl_secs,
        ) by {
            assert(shorter[i - 1] == nows[i - 1]);
        }
        lemma_spaced_run(start, ip, shorter);
        if nows.len() > start.policy.max_connections_per_ip + 1 {
            let last = nows.len() - 1;
            assert(shorter.last() == nows[last - 1]);
            assert(!in_force(nows[last - 1], nows[last], start.policy.blacklist_ttl_secs));
        }
    }
}

/// Race freedom where no block is found in force: of `nows.len()` attempts
/// of one address, the first `max_connections_per_ip` are permitted and
/// every other one is denied for the quota, provided that each attempt
/// after the first denial comes when the block of the attempt before it has
/// expired.
pub proof fn law_race_freedom(start: EngineModel, ip: Seq<char>, nows: Seq<nat>)
    requires
        start.wf(),
        fresh_for(start, ip),
        forall|i: int|
            start.policy.max_connections_per_ip < i < nows.len() ==> !in_force(
                #[trigger] nows[i - 1],
                nows[i],
                start.policy.blacklist_ttl_secs,
            ),
    ensures
        forall|i: int|
            0 <= i < nows.len() ==> #[trigger] connection_outcome(start, ip, nows, i) == if i
                < start.policy.max_connections_per_ip {
                Decision::Permit
            } else {
                Decision::Deny(DenyReason::QuotaExceeded)
            },
        permits_in(start, ip, nows) == if nows.len() <= start.policy.max_connections_per_ip {
            nows.len()
        } else {
            start.policy.max_connections_per_ip
        },
{
    law_connection_quota(start, ip, nows);
    assert forall|i: int| 0 <= i < nows.len() implies #[trigger] connection_outcome(
        start,
        ip,
        nows,
        i,
    ) == if i < start.policy.max_connections_per_ip {
        Decision::Permit
    } else {
        Decision::Deny(DenyReason::QuotaExceeded)
    } by {
        let prefix = nows.take(i);
        lemma_connections_run(start, ip, prefix);
        assert forall|j: int|
            start.policy.max_connections_per_ip < j < prefix.len() implies !in_force(
            #[trigger] prefix[j - 1],
            prefix[j],
            start.policy.blacklist_ttl_secs,
        ) by {
            assert(prefix[j - 1] == nows[j - 1]);
        }
        lemma_spaced_run(start, ip, prefix);
        if i > start.policy.max_connections_per_ip {
            assert(prefix.last() == nows[i - 1]);
        }
    }
}

/// Independence of keys. A connection attempt or a message of one key
/// changes neither the count nor the blacklist entry of another key, so
/// the decision on the other key stays what it was: attempts of different
/// addresses that arrive together do not get in each other's way.
pub proof fn law_keys_are_independent(
    state: EngineModel,
    key: Seq<char>,
    other: Seq<char>,
    now: nat,
    later: nat,
)
    requires
        key != other,
    ensures
        state.admit_connection(other, now).connections.count(key) == state.connections.count(key),
        state.admit_connection(other, now).blacklist.is_blocked(key, later)
            == state.blacklist.is_blocked(key, later),
        state.admit_connection(other, now).decide_connection(key, later)
            == state.decide_connection(key, later),
        state.admit_message(other).messages.count(key) == state.messages.count(key),
        state.admit_message(other).decide_message(key) == state.decide_message(key),
        state.admit_message(other).decide_connection(key, later) == state.decide_connection(
            key,
            later,
        ),
        state.admit_connection(other, now).decide_message(key) == state.decide_message(key),
{
}

/// The engine after connection attempts of any addresses at any times, in
/// the order in which they are served.
pub open spec fn after_attempts(start: EngineModel, attempts: Seq<(Seq<char>, nat)>) -> EngineModel
    decreases attempts.len(),
{
    if attempts.len() == 0 {
        start
    } else {
        after_attempts(start, attempts.drop_last()).admit_connection(
            attempts.last().0,
            attempts.last().1,
        )
    }
}

/// How many of the attempts are attempts of `ip`.
pub open spec fn attempts_of(attempts: Seq<(Seq<char>, nat)>, ip: Seq<char>) -> nat
    decreases attempts.len(),
{
    if attempts.len() == 0 {
        0
    } else if attempts.last().0 == ip {
        attempts_of(attempts.drop_last(), ip) + 1
    } else {
        attempts_of(attempts.drop_last(), ip)
    }
}

/// How many attempts of `ip` among the attempts are permitted.
pub open spec fn permits_of(start: EngineModel, attempts: Seq<(Seq<char>, nat)>, ip: Seq<char>) -> nat
    decreases attempts.len(),
{
    if attempts.len() == 0 {
        0
    } else {
        let before = permits_of(start, attempts.drop_last(), ip);
        if attempts.last().0 == ip && after_attempts(
            start,
            attempts.drop_last(),
        ).decide_connection(ip, attempts.last().1).permits() {
            before + 1
        } else {
            before
        }
    }
}

/// Race freedom among other traffic. However the attempts of one address
/// that the engine holds nothing about are interleaved with attempts of
/// other addresses, never more of them are permitted than the quota
/// allows: exactly as many as there are, up to `max_connections_per_ip`.
pub proof fn law_quota_holds_among_other_traffic(
    start: EngineModel,
    attempts: Seq<(Seq<char>, nat)>,
    ip: Seq<char>,
)
    requires
        start.wf(),
        fresh_for(start, ip),
    ensures
        permits_of(start, attempts, ip) == if attempts_of(attempts, ip)
            <= start.policy.max_connections_per_ip {
            attempts_of(attempts, ip)
        } else {
            start.policy.max_connections_per_ip
        },
        after_attempts(start, attempts).wf(),
        after_attempts(start, attempts).policy == start.policy,
        after_attempts(start, attempts).connections.count(ip) == permits_of(start, attempts, ip),
        after_attempts(start, attempts).blacklist.entries.contains_key(ip) <==> attempts_of(
            attempts,
            ip,
        ) > start.policy.max_connections_per_ip,
    decreases attempts.len(),
{
    if attempts.len() > 0 {
        law_quota_holds_among_other_traffic(start, attempts.drop_last(), ip);
        let before = after_attempts(start, attempts.drop_last());
        law_steps_preserve_wf(before, attempts.last().0, attempts.last().1, arbitrary());
    }
}

/// Blacklist time-to-live boundary. A key blocked at `blocked_at` is
/// blocked at exactly the times before `blocked_at + ttl`: still one second
/// before that, no longer at it.
pub proof fn law_blacklist_ttl_boundary(table: BlacklistModel, key: Seq<char>, blocked_at: nat)
    ensures
        forall|now: nat| #[trigger]
            table.block(key, blocked_at).is_blocked(key, now) == (now < blocked_at + table.ttl),
        blocked_at + table.ttl >= 1 ==> table.block(key, blocked_at).is_blocked(
            key,
            (blocked_at + table.ttl - 1) as nat,
        ),
        !table.block(key, blocked_at).is_blocked(key, blocked_at + table.ttl),
{
}

/// Lazy expiry. Whether a key is blocked does not depend on when the
/// table was last swept: a sweep at `swept_at` changes the answer for no
/// time from `swept_at` on.
pub proof fn law_sweep_keeps_answers(table: BlacklistModel, key: Seq<char>, swept_at: nat, now: nat)
    requires
        now >= swept_at,
    ensures
        table.sweep(swept_at).is_blocked(key, now) == table.is_blocked(key, now),
{
}

/// Precedence of the static lists. A key that the static lists deny is
/// denied with their reason, whatever the blacklist and the counters hold:
/// under an allow list in force, a key not on it as not allow-listed; else
/// a key on the block list as statically blocked.
pub proof fn law_static_lists_decide_first(state: EngineModel, key: Seq<char>, now: nat)
    ensures
        state.policy.has_allow_list() && !state.policy.allowed_ips.contains(key)
            ==> state.decide_connection(key, now) == Decision::Deny(DenyReason::NotAllowlisted),
        state.policy.blocked_ips.contains(key) ==> state.decide_connection(key, now)
            == Decision::Deny(DenyReason::NotAllowlisted) || state.decide_connection(key, now)
            == Decision::Deny(DenyReason::StaticallyBlocked),
        state.policy.blocked_ips.contains(key) && (!state.policy.has_allow_list()
            || state.policy.allowed_ips.contains(key)) ==> state.decide_connection(key, now)
            == Decision::Deny(DenyReason::StaticallyBlocked),
{
}

/// Whitelist precedence. With `allowed` as the only allowed address, every
/// other address is denied as not allow-listed, whatever the engine holds.
pub proof fn law_whitelist_precedence(
    state: EngineModel,
    allowed: Seq<char>,
    other: Seq<char>,
    now: nat,
)
    requires
        state.policy.allowed_ips == Set::<Seq<char>>::empty().insert(allowed),
        other != allowed,
    ensures
        state.decide_connection(other, now) == Decision::Deny(DenyReason::NotAllowlisted),
{
    assert(state.policy.allowed_ips.contains(allowed));
    assert(!(state.policy.allowed_ips =~= Set::<Seq<char>>::empty()));
}

/// The state of the message counter of a peer after a run of its messages.
proof fn lemma_messages_run(start: EngineModel, peer: Seq<char>, count: nat)
    ensures
        after_messages(start, peer, count).messages.count(peer) == start.messages.count(peer)
            + count,
        after_messages(start, peer, count).messages.limit == start.messages.limit,
        after_messages(start, peer, count).policy == start.policy,
        after_messages(start, peer, count).blacklist == start.blacklist,
        after_messages(start, peer, count).connections == start.connections,
        after_messages(start, peer, count).log == start.log,
        after_messages(start, peer, count).stats == start.stats,
    decreases count,
{
    if count > 0 {
        lemma_messages_run(start, peer, (count - 1) as nat);
    }
}

/// Message quota. Of the messages of a peer with no count in the current
/// window, the one at position `sent` (the first at 0) is admitted iff
/// fewer than `max_messages_per_minute` were sent before it. Going over the
/// quota blacklists nobody, and after a cleanup the count starts anew: the
/// next message is admitted if the quota admits any.
pub proof fn law_message_quota(start: EngineModel, peer: Seq<char>, sent: nat, now: nat)
    requires
        start.wf(),
        start.messages.count(peer) == 0,
    ensures
        after_messages(start, peer, sent).decide_message(peer) == (sent
            < start.policy.max_messages_per_minute),
        after_messages(start, peer, sent).blacklist == start.blacklist,
        after_messages(start, peer, sent).cleanup(now).messages.count(peer) == 0,
        after_messages(start, peer, sent).cleanup(now).decide_message(peer) == (
        start.policy.max_messages_per_minute >= 1),
{
    lemma_messages_run(start, peer, sent);
}

/// The highest level of a run of events is the level of one of them (or
/// `Low` for none) and no event of the run lies above it.
pub proof fn law_max_threat_is_maximum(events: Seq<EventModel>)
    ensures
        forall|i: int|
            0 <= i < events.len() ==> (#[trigger] events[i]).threat_level.rank() <= max_threat(
                events,
            ).rank(),
        events.len() == 0 ==> max_threat(events) == ThreatLevel::Low,
        events.len() > 0 ==> exists|i: int|
            0 <= i < events.len() && (#[trigger] events[i]).threat_level == max_threat(events),
    decreases events.len(),
{
    if events.len() > 0 {
        let shorter = events.drop_last();
        law_max_threat_is_maximum(shorter);
        let last = events.len() - 1;
        assert forall|i: int| 0 <= i < events.len() implies (#[trigger] events[i]).threat_level.rank()
            <= max_threat(events).rank() by {
            if i < last {
                assert(shorter[i] == events[i]);
            }
        }
        if max_threat(events) == events[last].threat_level {
        } else {
            assert(shorter.len() > 0);
            let i = choose|i: int|
                0 <= i < shorter.len() && (#[trigger] shorter[i]).threat_level == max_threat(shorter);
            assert(events[i] == shorter[i]);
        }
    }
}

/// Threat-level monotonicity. After any run of added events the threat
/// level of the statistics is the highest of the level before the run and
/// the levels of all events added, and the total has grown by their number.
/// On an engine that has seen nothing it is the highest level among the
/// events.
pub proof fn law_threat_level_is_running_max(start: EngineModel, events: Seq<EventModel>)
    ensures
        after_events(start, events).stats.threat_level == start.stats.threat_level.spec_max(
            max_threat(events),
        ),
        after_events(start, events).stats.total_events == start.stats.total_events + events.len(),
        start.stats.threat_level == ThreatLevel::Low ==> after_events(
            start,
            events,
        ).stats.threat_level == max_threat(events),
    decreases events.len(),
{
    if events.len() > 0 {
        law_threat_level_is_running_max(start, events.drop_last());
    }
}

/// No step lowers the threat level of the statistics, and no step but the
/// start of a new window lowers a counter.
pub proof fn law_nothing_decreases(state: EngineModel, key: Seq<char>, now: nat, event: EventModel)
    ensures
        state.admit_connection(key, now).stats.threat_level.rank()
            >= state.stats.threat_level.rank(),
        state.admit_message(key).stats.threat_level == state.stats.threat_level,
        state.block_ip(key, now).stats.threat_level == state.stats.threat_level,
        state.add_event(event).stats.threat_level.rank() >= state.stats.threat_level.rank(),
        state.cleanup(now).stats.threat_level == state.stats.threat_level,
        forall|other: Seq<char>| #[trigger]
            state.admit_connection(key, now).connections.count(other) >= state.connections.count(
                other,
            ),
        forall|other: Seq<char>| #[trigger]
            state.admit_message(key).messages.count(other) >= state.messages.count(other),
        forall|other: Seq<char>| #[trigger] state.cleanup(now).connections.count(other) == 0,
        forall|other: Seq<char>| #[trigger] state.cleanup(now).messages.count(other) == 0,
        state.admit_connection(key, now).stats.total_events == state.stats.total_events + 1,
        state.admit_connection(key, now).stats.blocked_connections
            >= state.stats.blocked_connections,
{
}

} // verus!
