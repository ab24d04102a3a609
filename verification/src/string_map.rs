//! A map from names to values that keeps its entries in insertion order.
//!
//! No name occurs twice. The view of a map is the mathematical map from each
//! name, as a text, to its value.

use crate::text::{chars_of, same_chars};
use vstd::prelude::*;

verus! {

/// A map keyed by names.
#[derive(Debug)]
pub struct StringMap<V> {
    entries: Vec<(String, V)>,
}

/// Whether some entry of `entries` is named `key`.
pub open spec fn has_key<V>(entries: Seq<(String, V)>, key: Seq<char>) -> bool {
    exists|i: int| 0 <= i < entries.len() && #[trigger] entries[i].0@ == key
}

/// The position of an entry named `key`.
pub open spec fn position_of<V>(entries: Seq<(String, V)>, key: Seq<char>) -> int {
    choose|i: int| 0 <= i < entries.len() && #[trigger] entries[i].0@ == key
}

/// No two entries of `entries` have the same name.
pub open spec fn distinct_keys<V>(entries: Seq<(String, V)>) -> bool {
    forall|i: int, j: int|
        0 <= i < j < entries.len() ==> #[trigger] entries[i].0@ != #[trigger] entries[j].0@
}

/// The map that `entries` stands for.
pub open spec fn map_of<V>(entries: Seq<(String, V)>) -> Map<Seq<char>, V> {
    Map::new(|k: Seq<char>| has_key(entries, k), |k: Seq<char>| entries[position_of(entries, k)].1)
}

/// In a list with distinct names, the entry at `i` is the one that the map
/// holds under its name.
pub proof fn lemma_entry_in_map<V>(entries: Seq<(String, V)>, i: int)
    requires
        distinct_keys(entries),
        0 <= i < entries.len(),
    ensures
        map_of(entries).contains_key(entries[i].0@),
        map_of(entries)[entries[i].0@] == entries[i].1,
{
    let k = entries[i].0@;
    assert(has_key(entries, k));
    let p = position_of(entries, k);
    assert(entries[p].0@ == k);
    if p < i {
        assert(entries[p].0@ != entries[i].0@);
    } else if i < p {
        assert(entries[i].0@ != entries[p].0@);
    }
}

/// A list with distinct names stands for a finite map with as many names as
/// the list has entries.
pub proof fn lemma_map_of_len<V>(entries: Seq<(String, V)>)
    requires
        distinct_keys(entries),
    ensures
        map_of(entries).dom().finite(),
        map_of(entries).dom().len() == entries.len(),
    decreases entries.len(),
{
    if entries.len() == 0 {
        assert(map_of(entries).dom() =~= Set::<Seq<char>>::empty());
    } else {
        let init = entries.drop_last();
        let last = entries.last();
        assert forall|i: int, j: int| 0 <= i < j < init.len() implies #[trigger] init[i].0@
            != #[trigger] init[j].0@ by {
            assert(init[i] == entries[i]);
            assert(init[j] == entries[j]);
        }
        lemma_map_of_len(init);
        assert(!map_of(init).dom().contains(last.0@)) by {
            if has_key(init, last.0@) {
                let p = position_of(init, last.0@);
                assert(entries[p].0@ == init[p].0@);
                assert(entries[p].0@ != entries[entries.len() - 1].0@);
            }
        }
        assert(map_of(entries).dom() =~= map_of(init).dom().insert(last.0@)) by {
            assert forall|k: Seq<char>| has_key(entries, k) == (has_key(init, k) || k
                == last.0@) by {
                if has_key(entries, k) {
                    let p = position_of(entries, k);
                    if p < init.len() {
                        assert(init[p].0@ == k);
                    }
                }
                if has_key(init, k) {
                    let p = position_of(init, k);
                    assert(entries[p].0@ == k);
                }
                if k == last.0@ {
                    assert(entries[entries.len() - 1].0@ == k);
                }
            }
        }
    }
}

/// Two lists with distinct names that name the same things in the same order
/// stand for maps with the same names, and each map holds under the name at
/// a position what its list holds there.
pub proof fn lemma_same_names<V>(a: Seq<(String, V)>, b: Seq<(String, V)>)
    requires
        distinct_keys(a),
        distinct_keys(b),
        a.len() == b.len(),
        forall|i: int| 0 <= i < a.len() ==> (#[trigger] a[i]).0@ == b[i].0@,
    ensures
        map_of(a).dom() == map_of(b).dom(),
        forall|k: Seq<char>| #[trigger]
            map_of(a).contains_key(k) ==> {
                let i = position_of(a, k);
                &&& 0 <= i < a.len()
                &&& a[i].0@ == k
                &&& map_of(a)[k] == a[i].1
                &&& map_of(b)[k] == b[i].1
            },
{
    assert forall|k: Seq<char>| has_key(a, k) == has_key(b, k) by {
        if has_key(a, k) {
            let i = position_of(a, k);
            assert(a[i].0@ == b[i].0@);
            assert(b[i].0@ == k);
        }
        if has_key(b, k) {
            let i = position_of(b, k);
            assert(a[i].0@ == b[i].0@);
            assert(a[i].0@ == k);
        }
    }
    assert(map_of(a).dom() =~= map_of(b).dom());
    assert forall|k: Seq<char>| #[trigger] map_of(a).contains_key(k) implies {
        let i = position_of(a, k);
        &&& 0 <= i < a.len()
        &&& a[i].0@ == k
        &&& map_of(a)[k] == a[i].1
        &&& map_of(b)[k] == b[i].1
    } by {
        let i = position_of(a, k);
        assert(a[i].0@ == b[i].0@);
        lemma_entry_in_map(a, i);
        lemma_entry_in_map(b, i);
    }
}

impl<V> View for StringMap<V> {
    type V = Map<Seq<char>, V>;

    closed spec fn view(&self) -> Map<Seq<char>, V> {
        map_of(self.entries@)
    }
}

impl<V> StringMap<V> {
    #[verifier::type_invariant]
    closed spec fn well_formed(&self) -> bool {
        distinct_keys(self.entries@)
    }

    /// The entries in the order in which their names were first inserted.
    pub closed spec fn entries(&self) -> Seq<(String, V)> {
        self.entries@
    }

    /// An empty map.
    pub fn new() -> (map: StringMap<V>)
        ensures
            map@ == Map::<Seq<char>, V>::empty(),
            map.entries().len() == 0,
    {
        let map = StringMap { entries: Vec::new() };
        assert(map@ =~= Map::<Seq<char>, V>::empty());
        map
    }

    /// The number of names in the map.
    pub fn len(&self) -> (n: usize)
        ensures
            self@.dom().finite(),
            n == self@.dom().len(),
            n == self.entries().len(),
            distinct_keys(self.entries()),
    {
        proof {
            use_type_invariant(self);
            lemma_map_of_len(self.entries@);
        }
        self.entries.len()
    }

    /// The entry at position `i`, in insertion order.
    pub fn entry(&self, i: usize) -> (entry: (&String, &V))
        requires
            i < self.entries().len(),
        ensures
            *entry.0 == self.entries()[i as int].0,
            *entry.1 == self.entries()[i as int].1,
            self@.contains_key(entry.0@),
            self@[entry.0@] == *entry.1,
    {
        proof {
            use_type_invariant(self);
            lemma_entry_in_map(self.entries@, i as int);
        }
        (&self.entries[i].0, &self.entries[i].1)
    }

    /// The position of the entry named `key`, if there is one.
    fn find(&self, key: &[char]) -> (at: Option<usize>)
        ensures
            match at {
                Some(i) => i < self.entries@.len() && self.entries@[i as int].0@ == key@,
                None => !has_key(self.entries@, key@),
            },
    {
        let mut i: usize = 0;
        while i < self.entries.len()
            invariant
                i <= self.entries@.len(),
                forall|j: int| 0 <= j < i ==> self.entries@[j].0@ != key@,
            decreases self.entries@.len() - i,
        {
            let name = chars_of(self.entries[i].0.as_str());
            if same_chars(name.as_slice(), key) {
                return Some(i);
            }
            i += 1;
        }
        None
    }

    /// The value under `key`, if the map has that name.
    pub fn get(&self, key: &str) -> (value: Option<&V>)
        ensures
            match value {
                Some(v) => self@.contains_key(key@) && *v == self@[key@],
                None => !self@.contains_key(key@),
            },
    {
        proof {
            use_type_invariant(self);
        }
        let key_chars = chars_of(key);
        match self.find(key_chars.as_slice()) {
            Some(i) => {
                proof {
                    lemma_entry_in_map(self.entries@, i as int);
                }
                Some(&self.entries[i].1)
            },
            None => None,
        }
    }

    /// Whether the map has the name `key`.
    pub fn contains_key(&self, key: &str) -> (found: bool)
        ensures
            found == self@.contains_key(key@),
    {
        let key_chars = chars_of(key);
        self.find(key_chars.as_slice()).is_some()
    }

    /// This map with `value` under `key`. A value that was there before is
    /// replaced; the order of the other entries is kept.
    pub fn with(self, key: String, value: V) -> (map: StringMap<V>)
        ensures
            map@ == self@.insert(key@, value),
    {
        proof {
            use_type_invariant(&self);
        }
        let ghost before = self.entries@;
        let key_chars = chars_of(key.as_str());
        let found = self.find(key_chars.as_slice());
        let mut entries = self.entries;
        match found {
            Some(i) => {
                entries.set(i, (key, value));
                proof {
                    let after = entries@;
                    assert(distinct_keys(after)) by {
                        assert forall|a: int, b: int| 0 <= a < b < after.len() implies after[a].0@
                            != after[b].0@ by {
                            assert(after[a].0@ == before[a].0@);
                            assert(after[b].0@ == before[b].0@);
                        }
                    }
                    assert forall|k: Seq<char>| has_key(after, k) == has_key(before, k) by {
                        if has_key(after, k) {
                            let p = position_of(after, k);
                            assert(before[p].0@ == k);
                        }
                        if has_key(before, k) {
                            let p = position_of(before, k);
                            assert(after[p].0@ == k);
                        }
                    }
                    assert(has_key(before, key@));
                    assert forall|k: Seq<char>| has_key(after, k) implies #[trigger] map_of(
                        after,
                    )[k] == map_of(before).insert(key@, value)[k] by {
                        let p = position_of(after, k);
                        lemma_entry_in_map(after, p);
                        if k != key@ {
                            assert(before[p].0@ == k);
                            lemma_entry_in_map(before, p);
                        } else {
                            lemma_entry_in_map(after, i as int);
                        }
                    }
                    assert(map_of(after) =~= map_of(before).insert(key@, value));
                }
            },
            None => {
                entries.push((key, value));
                proof {
                    let after = entries@;
                    let last = before.len() as int;
                    assert(distinct_keys(after)) by {
                        assert forall|a: int, b: int| 0 <= a < b < after.len() implies after[a].0@
                            != after[b].0@ by {
                            assert(after[a].0@ == before[a].0@);
                            if b < last {
                                assert(after[b].0@ == before[b].0@);
                            }
                        }
                    }
                    assert forall|k: Seq<char>| has_key(after, k) == (has_key(before, k) || k
                        == key@) by {
                        if has_key(after, k) {
                            let p = position_of(after, k);
                            if p < last {
                                assert(before[p].0@ == k);
                            }
                        }
                        if has_key(before, k) {
                            let p = position_of(before, k);
                            assert(after[p].0@ == k);
                        }
                        if k == key@ {
                            assert(after[last].0@ == k);
                        }
                    }
                    assert forall|k: Seq<char>| has_key(after, k) implies #[trigger] map_of(
                        after,
                    )[k] == map_of(before).insert(key@, value)[k] by {
                        let p = position_of(after, k);
                        lemma_entry_in_map(after, p);
                        if k != key@ {
                            assert(before[p].0@ == k);
                            lemma_entry_in_map(before, p);
                        } else {
                            lemma_entry_in_map(after, last);
                        }
                    }
                    assert(map_of(after) =~= map_of(before).insert(key@, value));
                }
            },
        }
        StringMap { entries }
    }

    /// Puts `value` under `key`. A value that was there before is replaced,
    /// and the result says whether there was one.
    pub fn insert(&mut self, key: String, value: V) -> (replaced: bool)
        ensures
            final(self)@ == old(self)@.insert(key@, value),
            replaced == old(self)@.contains_key(key@),
    {
        let replaced = self.contains_key(key.as_str());
        let mut taken = StringMap::new();
        std::mem::swap(self, &mut taken);
        *self = taken.with(key, value);
        replaced
    }
}

impl<V> Default for StringMap<V> {
    /// An empty map.
    fn default() -> (map: StringMap<V>)
        ensures
            map@ == Map::<Seq<char>, V>::empty(),
            map.entries().len() == 0,
    {
        StringMap::new()
    }
}

impl<V: Clone> Clone for StringMap<V> {
    /// A copy with the same names in the same order, each with a clone of its
    /// value.
    fn clone(&self) -> (copy: Self)
        ensures
            copy.entries().len() == self.entries().len(),
            forall|i: int|
                0 <= i < self.entries().len() ==> (#[trigger] copy.entries()[i]).0@
                    == self.entries()[i].0@ && cloned(self.entries()[i].1, copy.entries()[i].1),
            distinct_keys(self.entries()),
            distinct_keys(copy.entries()),
            copy@ == map_of(copy.entries()),
            self@ == map_of(self.entries()),
    {
        proof {
            use_type_invariant(self);
        }
        let mut entries: Vec<(String, V)> = Vec::new();
        let mut i: usize = 0;
        while i < self.entries.len()
            invariant
                i <= self.entries@.len(),
                entries@.len() == i,
                forall|j: int|
                    0 <= j < i ==> (#[trigger] entries@[j]).0@ == self.entries@[j].0@ && cloned(
                        self.entries@[j].1,
                        entries@[j].1,
                    ),
            decreases self.entries@.len() - i,
        {
            let key = self.entries[i].0.clone();
            let value = self.entries[i].1.clone();
            entries.push((key, value));
            i += 1;
        }
        assert(distinct_keys(entries@)) by {
            assert forall|a: int, b: int| 0 <= a < b < entries@.len() implies entries@[a].0@
                != entries@[b].0@ by {
                assert(entries@[a].0@ == self.entries@[a].0@);
                assert(entries@[b].0@ == self.entries@[b].0@);
            }
        }
        StringMap { entries }
    }
}

} // verus!
