//! A hash map with string keys that also keeps its keys in the order in
//! which they were first inserted, so that they can be walked.

use vstd::prelude::*;
use vstd::hash_map::StringHashMap;
use crate::text::same_text;

verus! {

/// The strings of a key list.
pub open spec fn names(keys: Seq<String>) -> Seq<Seq<char>> {
    keys.map_values(|key: String| key@)
}

/// A key list with one more key that it did not hold names one more key
/// and still names each key once.
pub proof fn lemma_names_push(keys: Seq<String>, key: String)
    requires
        names(keys).no_duplicates(),
        !names(keys).contains(key@),
    ensures
        names(keys.push(key)) == names(keys).push(key@),
        names(keys.push(key)).no_duplicates(),
        forall|k: Seq<char>| #[trigger]
            names(keys.push(key)).contains(k) <==> names(keys).contains(k) || k == key@,
{
    let before = names(keys);
    let after = names(keys.push(key));
    assert(after =~= before.push(key@));
    assert forall|k: Seq<char>| #[trigger] after.contains(k) <==> before.contains(k) || k
        == key@ by {
        if before.contains(k) {
            let i = choose|i: int| 0 <= i < before.len() && before[i] == k;
            assert(after[i] == k);
        }
        if k == key@ {
            assert(after[before.len() as int] == k);
        }
    }
    assert forall|i: int, j: int| 0 <= i < after.len() && 0 <= j < after.len() && i != j implies after[i]
        != after[j] by {
        if i < before.len() && j < before.len() {
            assert(before[i] != before[j]);
        } else if i < before.len() {
            assert(before.contains(before[i]));
        } else {
            assert(before.contains(before[j]));
        }
    }
}

/// The keys of `list` other than `key`, in their order.
pub open spec fn without_key(list: Seq<Seq<char>>, key: Seq<char>) -> Seq<Seq<char>> {
    list.filter(|k: Seq<char>| k != key)
}

/// Filtering a key out of a list that does not hold it leaves the list.
pub proof fn lemma_filter_keeps_all(list: Seq<Seq<char>>, key: Seq<char>)
    requires
        !list.contains(key),
    ensures
        without_key(list, key) == list,
    decreases list.len(),
{
    reveal(Seq::filter);
    if list.len() > 0 {
        assert forall|k: Seq<char>| list.drop_last().contains(k) implies list.contains(k) by {
            let at = choose|at: int| 0 <= at < list.drop_last().len() && list.drop_last()[at] == k;
            assert(list[at] == k);
        }
        lemma_filter_keeps_all(list.drop_last(), key);
        assert(list.contains(list.last()));
        assert(list.drop_last().push(list.last()) =~= list);
    }
}

/// In a list without duplicates, filtering out the key at `index` removes
/// just that position.
pub proof fn lemma_filter_removes_one(list: Seq<Seq<char>>, index: int, key: Seq<char>)
    requires
        list.no_duplicates(),
        0 <= index < list.len(),
        list[index] == key,
    ensures
        without_key(list, key) == list.remove(index),
    decreases list.len(),
{
    reveal(Seq::filter);
    let shorter = list.drop_last();
    if index == list.len() - 1 {
        assert(!shorter.contains(key)) by {
            if shorter.contains(key) {
                let at = choose|at: int| 0 <= at < shorter.len() && shorter[at] == key;
                assert(list[at] == list[index]);
            }
        }
        lemma_filter_keeps_all(shorter, key);
        assert(list.remove(index) =~= shorter);
    } else {
        assert(shorter.no_duplicates());
        assert(shorter[index] == key);
        lemma_filter_removes_one(shorter, index, key);
        assert(list.last() != key);
        assert(list.remove(index) =~= shorter.remove(index).push(list.last()));
    }
}

/// A map from strings to `V` with a list of its keys.
#[verifier::reject_recursive_types(V)]
pub struct KeyedMap<V> {
    entries: StringHashMap<V>,
    /// The keys of `entries`, each once, in the order of their first insertion.
    keys: Vec<String>,
}

impl<V> View for KeyedMap<V> {
    type V = Map<Seq<char>, V>;

    closed spec fn view(&self) -> Map<Seq<char>, V> {
        self.entries@
    }
}

impl<V> KeyedMap<V> {
    /// The keys in the order of their first insertion.
    pub closed spec fn key_list(&self) -> Seq<Seq<char>> {
        names(self.keys@)
    }

    /// The key list names exactly the keys of the map, each once.
    pub open spec fn wf(&self) -> bool {
        &&& self.key_list().no_duplicates()
        &&& forall|key: Seq<char>| #[trigger]
            self@.contains_key(key) <==> self.key_list().contains(key)
    }

    /// In a well-formed map the keys are finitely many: as many as the list holds.
    pub proof fn lemma_finite(&self)
        requires
            self.wf(),
        ensures
            self@.dom().finite(),
            self@.dom().len() == self.key_list().len(),
    {
        self.key_list().unique_seq_to_set();
        assert(self.key_list().to_set() =~= self@.dom());
    }

    /// An empty map.
    pub fn new() -> (map: Self)
        ensures
            map.wf(),
            map@ == Map::<Seq<char>, V>::empty(),
            map.key_list() == Seq::<Seq<char>>::empty(),
    {
        let map = KeyedMap { entries: StringHashMap::new(), keys: Vec::new() };
        proof {
            assert(map.key_list() =~= Seq::<Seq<char>>::empty());
        }
        map
    }

    /// Number of keys.
    pub fn len(&self) -> (n: usize)
        ensures
            n == self.key_list().len(),
    {
        self.keys.len()
    }

    /// The key at position `index` of the key list.
    pub fn key_at(&self, index: usize) -> (key: &str)
        requires
            index < self.key_list().len(),
        ensures
            key@ == self.key_list()[index as int],
    {
        self.keys[index].as_str()
    }

    /// Whether the map holds `key`.
    pub fn contains_key(&self, key: &str) -> (present: bool)
        ensures
            present == self@.contains_key(key@),
    {
        self.entries.contains_key(key)
    }

    /// The value of `key`.
    pub fn get(&self, key: &str) -> (value: Option<&V>)
        ensures
            value.is_some() == self@.contains_key(key@),
            value.is_some() ==> *value.unwrap() == self@[key@],
    {
        self.entries.get(key)
    }

    /// Sets the value of `key`. A new key goes to the end of the key list.
    pub fn insert(&mut self, key: &str, value: V)
        requires
            old(self).wf(),
        ensures
            final(self).wf(),
            final(self)@ == old(self)@.insert(key@, value),
            final(self).key_list() == if old(self)@.contains_key(key@) {
                old(self).key_list()
            } else {
                old(self).key_list().push(key@)
            },
    {
        let known = self.entries.contains_key(key);
        proof {
            assert(known == old(self)@.contains_key(key@));
            assert(known == old(self).key_list().contains(key@));
        }
        self.entries.insert(key.to_owned(), value);
        if !known {
            let name = key.to_owned();
            proof {
                lemma_names_push(self.keys@, name);
            }
            self.keys.push(name);
        }
        proof {
            assert forall|k: Seq<char>| #[trigger]
                self@.contains_key(k) <==> self.key_list().contains(k) by {
                assert(old(self)@.contains_key(k) <==> old(self).key_list().contains(k));
            }
        }
    }

    /// Removes `key` with its value. Returns whether the map held the key.
    pub fn remove(&mut self, key: &str) -> (removed: bool)
        requires
            old(self).wf(),
        ensures
            final(self).wf(),
            removed == old(self)@.contains_key(key@),
            final(self)@ == old(self)@.remove(key@),
            final(self).key_list() == without_key(old(self).key_list(), key@),
    {
        let ghost listed = self.key_list();
        if !self.entries.contains_key(key) {
            proof {
                assert(!self@.contains_key(key@));
                assert(!listed.contains(key@));
                lemma_filter_keeps_all(listed, key@);
                assert(self.entries@.remove(key@) =~= self.entries@);
            }
            return false;
        }
        proof {
            assert(self@.contains_key(key@));
            assert(listed.contains(key@));
        }
        self.entries.remove(key);
        let mut i: usize = 0;
        while i < self.keys.len() && !same_text(self.keys[i].as_str(), key)
            invariant
                i <= self.keys@.len(),
                self.keys == old(self).keys,
                listed == names(self.keys@),
                forall|j: int| 0 <= j < i ==> listed[j] != key@,
            decreases self.keys@.len() - i,
        {
            i += 1;
        }
        proof {
            if i >= listed.len() {
                let at = choose|at: int| 0 <= at < listed.len() && listed[at] == key@;
                assert(listed[at] != key@);
            }
            assert(listed[i as int] == self.keys@[i as int]@);
        }
        let _ = self.keys.remove(i);
        proof {
            assert(names(self.keys@) =~= listed.remove(i as int));
            lemma_filter_removes_one(listed, i as int, key@);
            assert forall|k: Seq<char>| #[trigger]
                self@.contains_key(k) <==> self.key_list().contains(k) by {
                assert(old(self)@.contains_key(k) <==> listed.contains(k));
                if k != key@ && listed.contains(k) {
                    let at = choose|at: int| 0 <= at < listed.len() && listed[at] == k;
                    if at < i {
                        assert(listed.remove(i as int)[at] == k);
                    } else {
                        assert(listed.remove(i as int)[at - 1] == k);
                    }
                }
                if listed.remove(i as int).contains(k) {
                    let at = choose|at: int|
                        0 <= at < listed.remove(i as int).len() && listed.remove(i as int)[at] == k;
                    if at < i {
                        assert(listed[at] == k);
                    } else {
                        assert(listed[at + 1] == k);
                        assert(listed[at + 1] != listed[i as int]);
                    }
                }
            }
            assert(listed.remove(i as int).no_duplicates()) by {
                let shorter = listed.remove(i as int);
                assert forall|a: int, b: int|
                    0 <= a < shorter.len() && 0 <= b < shorter.len() && a != b implies shorter[a]
                    != shorter[b] by {
                    let a0 = if a < i { a } else { a + 1 };
                    let b0 = if b < i { b } else { b + 1 };
                    assert(listed[a0] != listed[b0]);
                }
            }
        }
        true
    }

    /// Removes all keys.
    pub fn clear(&mut self)
        ensures
            final(self).wf(),
            final(self)@ == Map::<Seq<char>, V>::empty(),
            final(self).key_list() == Seq::<Seq<char>>::empty(),
    {
        self.entries.clear();
        self.keys.clear();
        proof {
            assert(self.key_list() =~= Seq::<Seq<char>>::empty());
        }
    }

    /// The keys as a list of their own, in the order of the key list.
    pub fn keys(&self) -> (list: Vec<String>)
        ensures
            names(list@) == self.key_list(),
    {
        let mut list: Vec<String> = Vec::new();
        let mut i: usize = 0;
        while i < self.keys.len()
            invariant
                i <= self.keys@.len(),
                names(list@) == names(self.keys@).take(i as int),
            decreases self.keys@.len() - i,
        {
            let ghost before = list@;
            let key = self.keys[i].clone();
            list.push(key);
            proof {
                assert(names(list@) =~= names(before).push(key@));
                assert(names(self.keys@).take(i + 1) =~= names(self.keys@).take(i as int).push(
                    key@,
                ));
            }
            i += 1;
        }
        proof {
            assert(names(self.keys@).take(self.keys@.len() as int) =~= names(self.keys@));
        }
        list
    }
}

} // verus!
