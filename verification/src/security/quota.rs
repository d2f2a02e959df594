//! Per-key counters for the current window: connection attempts by address,
//! messages by peer. A window ends when the counters are reset.

use vstd::prelude::*;
use vstd::hash_map::StringHashMap;

verus! {

/// Mathematical value of a quota tracker.
pub struct QuotaModel {
    /// The count of each key that was seen in the current window.
    pub counts: Map<Seq<char>, nat>,
    /// What one key may use in a window.
    pub limit: nat,
}

impl QuotaModel {
    /// A tracker that has counted nothing.
    pub open spec fn empty(limit: nat) -> QuotaModel {
        QuotaModel { counts: Map::empty(), limit }
    }

    /// The count of `key`, zero for a key not seen in this window.
    pub open spec fn count(self, key: Seq<char>) -> nat {
        if self.counts.contains_key(key) {
            self.counts[key]
        } else {
            0
        }
    }

    /// Whether one more for `key` would go over the limit.
    pub open spec fn exhausted(self, key: Seq<char>) -> bool {
        self.count(key) + 1 > self.limit
    }

    /// The tracker with one more counted for `key`.
    pub open spec fn increment(self, key: Seq<char>) -> QuotaModel {
        QuotaModel { counts: self.counts.insert(key, self.count(key) + 1), ..self }
    }

    /// The tracker at the start of a new window.
    pub open spec fn reset(self) -> QuotaModel {
        QuotaModel { counts: Map::empty(), ..self }
    }

    /// Check, then count, as one step: a key that has not used up its quota
    /// is counted once more and accepted; one that has is refused and its
    /// count stays.
    pub open spec fn try_acquire(self, key: Seq<char>) -> (QuotaModel, bool) {
        if self.exhausted(key) {
            (self, false)
        } else {
            (self.increment(key), true)
        }
    }

    /// Count, then check: the key is counted once more in any case, and
    /// accepted iff the new count is within the limit.
    pub open spec fn record(self, key: Seq<char>) -> (QuotaModel, bool) {
        (self.increment(key), !self.exhausted(key))
    }

    /// No count is over the limit.
    pub open spec fn within_limit(self) -> bool {
        forall|key: Seq<char>| self.counts.contains_key(key) ==> #[trigger] self.counts[key] <= self.limit
    }
}

/// The counts of a hash map as natural numbers.
pub open spec fn counts_of(map: Map<Seq<char>, usize>) -> Map<Seq<char>, nat> {
    Map::new(|key: Seq<char>| map.contains_key(key), |key: Seq<char>| map[key] as nat)
}

/// Connection attempts per address in the current window.
pub struct ConnectionQuotaTracker {
    counts: StringHashMap<usize>,
    limit: usize,
}

impl View for ConnectionQuotaTracker {
    type V = QuotaModel;

    closed spec fn view(&self) -> QuotaModel {
        QuotaModel { counts: counts_of(self.counts@), limit: self.limit as nat }
    }
}

impl ConnectionQuotaTracker {
    /// No address is counted beyond the limit.
    pub closed spec fn wf(&self) -> bool {
        self@.within_limit()
    }

    /// A tracker that admits `limit` attempts per address and window.
    pub fn new(limit: usize) -> (tracker: Self)
        ensures
            tracker.wf(),
            tracker@ == QuotaModel::empty(limit as nat),
    {
        let tracker = ConnectionQuotaTracker { counts: StringHashMap::new(), limit };
        proof {
            assert(tracker@.counts =~= Map::<Seq<char>, nat>::empty());
        }
        tracker
    }

    /// Attempts counted for `key` in the current window.
    pub fn count(&self, key: &str) -> (n: usize)
        ensures
            n as nat == self@.count(key@),
    {
        match self.counts.get(key) {
            Some(n) => *n,
            None => 0,
        }
    }

    /// Counts one attempt of `key` unless its quota is used up, in one step.
    /// Returns whether the attempt was counted.
    pub fn try_acquire(&mut self, key: &str) -> (accepted: bool)
        requires
            old(self).wf(),
        ensures
            final(self).wf(),
            (final(self)@, accepted) == old(self)@.try_acquire(key@),
    {
        let current = self.count(key);
        if current >= self.limit {
            false
        } else {
            self.counts.insert(key.to_owned(), current + 1);
            proof {
                assert(self@.counts =~= old(self)@.increment(key@).counts);
            }
            true
        }
    }

    /// Starts a new window: forgets all counts.
    pub fn reset(&mut self)
        ensures
            final(self).wf(),
            final(self)@ == old(self)@.reset(),
    {
        self.counts.clear();
        proof {
            assert(self@.counts =~= Map::<Seq<char>, nat>::empty());
        }
    }
}

/// Messages per peer in the current window.
pub struct MessageQuotaTracker {
    counts: StringHashMap<usize>,
    limit: usize,
}

impl View for MessageQuotaTracker {
    type V = QuotaModel;

    closed spec fn view(&self) -> QuotaModel {
        QuotaModel { counts: counts_of(self.counts@), limit: self.limit as nat }
    }
}

impl MessageQuotaTracker {
    /// A tracker that admits `limit` messages per peer and window.
    pub fn new(limit: usize) -> (tracker: Self)
        ensures
            tracker@ == QuotaModel::empty(limit as nat),
    {
        let tracker = MessageQuotaTracker { counts: StringHashMap::new(), limit };
        proof {
            assert(tracker@.counts =~= Map::<Seq<char>, nat>::empty());
        }
        tracker
    }

    /// Messages counted for `key` in the current window.
    pub fn count(&self, key: &str) -> (n: usize)
        ensures
            n as nat == self@.count(key@),
    {
        match self.counts.get(key) {
            Some(n) => *n,
            None => 0,
        }
    }

    /// Counts one message of `key` and returns whether the new count is
    /// within the limit. The count must fit the machine word.
    pub fn record(&mut self, key: &str) -> (accepted: bool)
        requires
            old(self)@.count(key@) < usize::MAX,
        ensures
            (final(self)@, accepted) == old(self)@.record(key@),
    {
        let counted = self.count(key) + 1;
        self.counts.insert(key.to_owned(), counted);
        proof {
            assert(self@.counts =~= old(self)@.increment(key@).counts);
        }
        counted <= self.limit
    }

    /// Starts a new window: forgets all counts.
    pub fn reset(&mut self)
        ensures
            final(self)@ == old(self)@.reset(),
    {
        self.counts.clear();
        proof {
            assert(self@.counts =~= Map::<Seq<char>, nat>::empty());
        }
    }
}

} // verus!
