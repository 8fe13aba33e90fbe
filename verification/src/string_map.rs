//! A small map keyed by text, for argument and environment tables.

use vstd::prelude::*;
use vstd::string::StringExecFns;

verus! {

/// A finite map from text keys to values, kept as a list of entries in
/// which no key occurs twice.
pub struct StringMap<V> {
    entries: Vec<(String, V)>,
}

/// The key of the `i`-th entry.
pub open spec fn key_at<V>(entries: Seq<(String, V)>, i: int) -> Seq<char> {
    entries[i].0@
}

/// No key occurs in two entries.
pub open spec fn keys_distinct<V>(entries: Seq<(String, V)>) -> bool {
    forall|i: int, j: int|
        0 <= i < j < entries.len() ==> #[trigger] key_at(entries, i) != #[trigger] key_at(
            entries,
            j,
        )
}

/// `key` is the key of some entry.
pub open spec fn has_key<V>(entries: Seq<(String, V)>, key: Seq<char>) -> bool {
    exists|i: int| 0 <= i < entries.len() && #[trigger] key_at(entries, i) == key
}

/// An index at which `key` stands, where it stands anywhere.
pub open spec fn index_of<V>(entries: Seq<(String, V)>, key: Seq<char>) -> int {
    choose|i: int| 0 <= i < entries.len() && #[trigger] key_at(entries, i) == key
}

/// The map that a list of entries stands for.
pub open spec fn entries_map<V>(entries: Seq<(String, V)>) -> Map<Seq<char>, V> {
    Map::new(
        |key: Seq<char>| has_key(entries, key),
        |key: Seq<char>| entries[index_of(entries, key)].1,
    )
}

/// In a list without repeated keys, the map gives each key the value of its
/// own entry.
pub proof fn lemma_entry_lookup<V>(entries: Seq<(String, V)>, i: int)
    requires
        keys_distinct(entries),
        0 <= i < entries.len(),
    ensures
        entries_map(entries).contains_key(key_at(entries, i)),
        entries_map(entries)[key_at(entries, i)] == entries[i].1,
{
    let j = index_of(entries, key_at(entries, i));
    assert(key_at(entries, j) == key_at(entries, i));
}

impl<V> View for StringMap<V> {
    type V = Map<Seq<char>, V>;

    closed spec fn view(&self) -> Map<Seq<char>, V> {
        entries_map(self.entries@)
    }
}

impl<V> StringMap<V> {
    #[verifier::type_invariant]
    closed spec fn wf(&self) -> bool {
        keys_distinct(self.entries@)
    }

    /// The empty map.
    pub fn new() -> (r: StringMap<V>)
        ensures
            r@ == Map::<Seq<char>, V>::empty(),
    {
        let r = StringMap { entries: Vec::new() };
        r
    }

    /// The position of `key` among the entries, if it is there.
    fn position(&self, key: &str) -> (r: Option<usize>)
        ensures
            match r {
                Some(i) => i < self.entries@.len() && key_at(self.entries@, i as int) == key@,
                None => !has_key(self.entries@, key@),
            },
    {
        let wanted = String::from_str(key);
        let mut i: usize = 0;
        while i < self.entries.len()
            invariant
                i <= self.entries@.len(),
                wanted@ == key@,
                forall|j: int| 0 <= j < i ==> key_at(self.entries@, j) != key@,
            decreases self.entries@.len() - i,
        {
            if self.entries[i].0 == wanted {
                return Some(i);
            }
            i += 1;
        }
        None
    }

    /// The value stored under `key`, if there is one.
    pub fn get(&self, key: &str) -> (r: Option<&V>)
        ensures
            match r {
                Some(value) => self@.contains_key(key@) && self@[key@] == *value,
                None => !self@.contains_key(key@),
            },
    {
        proof {
            use_type_invariant(self);
        }
        match self.position(key) {
            Some(i) => {
                proof {
                    lemma_entry_lookup(self.entries@, i as int);
                }
                Some(&self.entries[i].1)
            },
            None => None,
        }
    }

    /// Whether a value is stored under `key`.
    pub fn contains_key(&self, key: &str) -> (r: bool)
        ensures
            r == self@.contains_key(key@),
    {
        self.position(key).is_some()
    }

    /// Stores `value` under `key`, in place of what was stored there before.
    pub fn insert(&mut self, key: String, value: V)
        ensures
            final(self)@ == old(self)@.insert(key@, value),
    {
        proof {
            use_type_invariant(&*self);
        }
        let ghost before = self.entries@;
        let found = self.position(key.as_str());
        let ghost k = key@;
        let mut taken = StringMap::new();
        core::mem::swap(self, &mut taken);
        let mut entries = taken.entries;
        match found {
            Some(i) => {
                entries.set(i, (key, value));
                proof {
                    let after = entries@;
                    assert forall|a: int| 0 <= a < after.len() implies key_at(after, a) == key_at(
                        before,
                        a,
                    ) by {}
                    assert forall|q: Seq<char>| has_key(after, q) == has_key(before, q) by {
                        if has_key(before, q) {
                            assert(key_at(after, index_of(before, q)) == q);
                        }
                        if has_key(after, q) {
                            assert(key_at(before, index_of(after, q)) == q);
                        }
                    }
                    assert forall|q: Seq<char>| has_key(after, q) implies #[trigger] entries_map(
                        after,
                    )[q] == entries_map(before).insert(k, value)[q] by {
                        lemma_entry_lookup(after, index_of(after, q));
                        lemma_entry_lookup(before, index_of(after, q));
                    }
                }
            },
            None => {
                entries.push((key, value));
                proof {
                    let after = entries@;
                    let n = before.len() as int;
                    assert forall|a: int| 0 <= a < n implies key_at(after, a) == key_at(
                        before,
                        a,
                    ) by {}
                    assert(key_at(after, n) == k);
                    assert forall|q: Seq<char>| has_key(after, q) == (has_key(before, q) || q
                        == k) by {
                        if has_key(before, q) {
                            assert(key_at(after, index_of(before, q)) == q);
                        }
                        if has_key(after, q) && index_of(after, q) < n {
                            assert(key_at(before, index_of(after, q)) == q);
                        }
                    }
                    assert forall|q: Seq<char>| has_key(after, q) implies #[trigger] entries_map(
                        after,
                    )[q] == entries_map(before).insert(k, value)[q] by {
                        lemma_entry_lookup(after, index_of(after, q));
                        if index_of(after, q) < n {
                            lemma_entry_lookup(before, index_of(after, q));
                        }
                    }
                }
            },
        }
        *self = StringMap { entries };
    }
}

} // verus!
