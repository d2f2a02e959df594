//! The dynamic blacklist: blocked keys with the time of their block. An entry
//! blocks its key for the time-to-live of the table and is expired lazily, on
//! every read; a sweep removes what has expired.

use vstd::prelude::*;
use crate::keyed::KeyedMap;

verus! {

/// Whether a block recorded at `blocked_at` is still in force at `now`.
pub open spec fn in_force(blocked_at: nat, now: nat, ttl: nat) -> bool {
    now - blocked_at < ttl
}

/// Mathematical value of a [`BlacklistTable`].
pub struct BlacklistModel {
    /// Blocked keys, each with the time of its block.
    pub entries: Map<Seq<char>, nat>,
    /// Seconds for which an entry blocks its key.
    pub ttl: nat,
}

impl BlacklistModel {
    /// A table without entries.
    pub open spec fn empty(ttl: nat) -> BlacklistModel {
        BlacklistModel { entries: Map::empty(), ttl }
    }

    /// A key is blocked iff it has an entry that is still in force.
    pub open spec fn is_blocked(self, key: Seq<char>, now: nat) -> bool {
        self.entries.contains_key(key) && in_force(self.entries[key], now, self.ttl)
    }

    /// The table after `key` was blocked at `now`, whether it had an entry or not.
    pub open spec fn block(self, key: Seq<char>, now: nat) -> BlacklistModel {
        BlacklistModel { entries: self.entries.insert(key, now), ..self }
    }

    /// The table without the entries that have expired at `now`.
    pub open spec fn sweep(self, now: nat) -> BlacklistModel {
        BlacklistModel {
            entries: Map::new(
                |key: Seq<char>| self.is_blocked(key, now),
                |key: Seq<char>| self.entries[key],
            ),
            ..self
        }
    }
}

/// The entries of `model` that are in force at `now` and whose key is among
/// the first `upto` of `keys`.
pub open spec fn swept_prefix(model: BlacklistModel, keys: Seq<Seq<char>>, upto: int, now: nat) -> Map<
    Seq<char>,
    nat,
> {
    Map::new(
        |key: Seq<char>| model.is_blocked(key, now) && keys.take(upto).contains(key),
        |key: Seq<char>| model.entries[key],
    )
}

/// Taking one more key into account adds its entry if it is in force.
proof fn lemma_swept_prefix_step(model: BlacklistModel, keys: Seq<Seq<char>>, upto: int, now: nat)
    requires
        0 <= upto < keys.len(),
    ensures
        swept_prefix(model, keys, upto + 1, now) == if model.is_blocked(keys[upto], now) {
            swept_prefix(model, keys, upto, now).insert(keys[upto], model.entries[keys[upto]])
        } else {
            swept_prefix(model, keys, upto, now)
        },
{
    let shorter = keys.take(upto);
    let longer = keys.take(upto + 1);
    assert(longer =~= shorter.push(keys[upto]));
    assert forall|key: Seq<char>| longer.contains(key) <==> shorter.contains(key) || key
        == keys[upto] by {
        if shorter.contains(key) {
            let i = choose|i: int| 0 <= i < shorter.len() && shorter[i] == key;
            assert(longer[i] == key);
        }
        if key == keys[upto] {
            assert(longer[upto] == key);
        }
    }
    if model.is_blocked(keys[upto], now) {
        assert(swept_prefix(model, keys, upto + 1, now) =~= swept_prefix(
            model,
            keys,
            upto,
            now,
        ).insert(keys[upto], model.entries[keys[upto]]));
    } else {
        assert(swept_prefix(model, keys, upto + 1, now) =~= swept_prefix(model, keys, upto, now));
    }
}

/// The block times of a hash map as natural numbers.
pub open spec fn block_times(map: Map<Seq<char>, u64>) -> Map<Seq<char>, nat> {
    Map::new(|key: Seq<char>| map.contains_key(key), |key: Seq<char>| map[key] as nat)
}

/// The dynamic blacklist.
pub struct BlacklistTable {
    table: KeyedMap<u64>,
    ttl: u64,
}

impl View for BlacklistTable {
    type V = BlacklistModel;

    closed spec fn view(&self) -> BlacklistModel {
        BlacklistModel { entries: block_times(self.table@), ttl: self.ttl as nat }
    }
}

impl BlacklistTable {
    /// The key list of the table names exactly its keys, each once.
    pub closed spec fn wf(&self) -> bool {
        self.table.wf()
    }

    /// An empty table whose entries will block for `ttl` seconds.
    pub fn new(ttl: u64) -> (table: Self)
        ensures
            table.wf(),
            table@ == BlacklistModel::empty(ttl as nat),
    {
        let table = BlacklistTable { table: KeyedMap::new(), ttl };
        proof {
            assert(table@.entries =~= Map::<Seq<char>, nat>::empty());
        }
        table
    }

    /// Seconds for which an entry blocks its key.
    pub fn ttl(&self) -> (ttl: u64)
        ensures
            ttl as nat == self@.ttl,
    {
        self.ttl
    }

    /// Number of entries, expired ones that no sweep has removed included.
    pub fn len(&self) -> (n: usize)
        requires
            self.wf(),
        ensures
            self@.entries.dom().finite(),
            n as nat == self@.entries.dom().len(),
    {
        proof {
            self.table.lemma_finite();
            assert(self.table@.dom() =~= self@.entries.dom());
        }
        self.table.len()
    }

    /// Blocks `key` from `now` on: inserts its entry or replaces it.
    pub fn block(&mut self, key: &str, now: u64)
        requires
            old(self).wf(),
        ensures
            final(self).wf(),
            final(self)@ == old(self)@.block(key@, now as nat),
    {
        self.table.insert(key, now);
        proof {
            assert(self@.entries =~= old(self)@.entries.insert(key@, now as nat));
        }
    }

    /// Whether `key` is blocked at `now`: it has an entry, and fewer than the
    /// time-to-live seconds lie between the block and `now`.
    pub fn is_blocked(&self, key: &str, now: u64) -> (blocked: bool)
        ensures
            blocked == self@.is_blocked(key@, now as nat),
    {
        match self.table.get(key) {
            Some(blocked_at) => now < *blocked_at || now - *blocked_at < self.ttl,
            None => false,
        }
    }

    /// Removes the entries that have expired at `now`.
    pub fn sweep(&mut self, now: u64)
        requires
            old(self).wf(),
        ensures
            final(self).wf(),
            final(self)@ == old(self)@.sweep(now as nat),
    {
        let mut fresh: KeyedMap<u64> = KeyedMap::new();
        let mut i: usize = 0;
        proof {
            assert(self.table.key_list().take(0) =~= Seq::<Seq<char>>::empty());
            assert(block_times(fresh@) =~= swept_prefix(
                self@,
                self.table.key_list(),
                0,
                now as nat,
            ));
        }
        while i < self.table.len()
            invariant
                i <= self.table.key_list().len(),
                self.table.wf(),
                fresh.wf(),
                block_times(fresh@) == swept_prefix(
                    self@,
                    self.table.key_list(),
                    i as int,
                    now as nat,
                ),
            decreases self.table.key_list().len() - i,
        {
            proof {
                lemma_swept_prefix_step(self@, self.table.key_list(), i as int, now as nat);
            }
            let key = self.table.key_at(i);
            let ghost before = fresh@;
            match self.table.get(key) {
                Some(blocked_at) => {
                    if now < *blocked_at || now - *blocked_at < self.ttl {
                        fresh.insert(key, *blocked_at);
                        proof {
                            assert(block_times(fresh@) =~= block_times(before).insert(
                                key@,
                                *blocked_at as nat,
                            ));
                        }
                    }
                },
                None => {},
            }
            i += 1;
        }
        proof {
            let listed = self.table.key_list();
            assert(listed.take(listed.len() as int) =~= listed);
            assert(block_times(fresh@) =~= self@.sweep(now as nat).entries);
        }
        self.table = fresh;
    }
}

} // verus!
