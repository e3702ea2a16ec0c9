//! A small string-to-string map (envelope headers, challenge tokens),
//! kept as a list of entries with pairwise different names.

use vstd::prelude::*;

use crate::assoc::{distinct_firsts, lemma_lookup_at, lemma_push_new, lemma_replace_at, pairs_map};
use crate::text::str_eq;

verus! {

/// The entries of a list as (name, value) texts.
pub open spec fn entry_views(s: Seq<(String, String)>) -> Seq<(Seq<char>, Seq<char>)> {
    s.map_values(|e: (String, String)| (e.0@, e.1@))
}

/// Names of the entries of a list are pairwise different.
pub open spec fn distinct_keys(s: Seq<(String, String)>) -> bool {
    distinct_firsts(entry_views(s))
}

/// The map that a list of entries with distinct names stands for.
pub open spec fn entries_map(s: Seq<(String, String)>) -> Map<Seq<char>, Seq<char>> {
    pairs_map(entry_views(s))
}

/// A string-to-string map kept as a list of entries with distinct names.
#[derive(Debug)]
pub struct StringMap {
    entries: Vec<(String, String)>,
}

impl View for StringMap {
    type V = Map<Seq<char>, Seq<char>>;

    closed spec fn view(&self) -> Map<Seq<char>, Seq<char>> {
        entries_map(self.entries@)
    }
}

impl StringMap {
    #[verifier::type_invariant]
    spec fn well_formed(self) -> bool {
        distinct_keys(self.entries@)
    }

    /// The empty map.
    pub fn new() -> (h: StringMap)
        ensures
            h@ == Map::<Seq<char>, Seq<char>>::empty(),
    {
        let h = StringMap { entries: Vec::new() };
        assert(h@ =~= Map::<Seq<char>, Seq<char>>::empty());
        h
    }

    /// Position of the entry named `key`, if there is one.
    fn position(&self, key: &str) -> (r: Option<usize>)
        ensures
            match r {
                Some(i) => i < self.entries@.len() && self.entries@[i as int].0@ == key@,
                None => forall|i: int| 0 <= i < self.entries@.len() ==> #[trigger] self.entries@[i].0@ != key@,
            },
    {
        let n = self.entries.len();
        for i in 0..n
            invariant
                n == self.entries@.len(),
                forall|j: int| 0 <= j < i ==> #[trigger] self.entries@[j].0@ != key@,
        {
            if str_eq(self.entries[i].0.as_str(), key) {
                return Some(i);
            }
        }
        None
    }

    /// The value stored under `key`.
    pub fn get(&self, key: &str) -> (r: Option<&String>)
        ensures
            match r {
                Some(v) => self@.contains_key(key@) && v@ == self@[key@],
                None => !self@.contains_key(key@),
            },
    {
        proof {
            use_type_invariant(self);
        }
        match self.position(key) {
            Some(i) => {
                proof {
                    lemma_lookup_at(entry_views(self.entries@), i as int);
                }
                Some(&self.entries[i].1)
            },
            None => None,
        }
    }

    /// Sets `key` to `value`, replacing an earlier value.
    pub fn insert(&mut self, key: String, value: String)
        ensures
            final(self)@ == old(self)@.insert(key@, value@),
    {
        proof {
            use_type_invariant(&*self);
        }
        let ghost old_entries = self.entries@;
        let pos = self.position(key.as_str());
        let mut entries: Vec<(String, String)> = Vec::new();
        std::mem::swap(&mut entries, &mut self.entries);
        let ghost k = key@;
        let ghost v = value@;
        match pos {
            Some(i) => {
                proof {
                    lemma_replace_at(entry_views(old_entries), i as int, k, v);
                }
                entries.set(i, (key, value));
                assert(entry_views(entries@) =~= entry_views(old_entries).update(i as int, (k, v)));
            },
            None => {
                proof {
                    lemma_push_new(entry_views(old_entries), k, v);
                }
                entries.push((key, value));
                assert(entry_views(entries@) =~= entry_views(old_entries).push((k, v)));
            },
        }
        self.entries = entries;
    }

    /// The entries, each name once.
    pub fn pairs(&self) -> (r: &Vec<(String, String)>)
        ensures
            distinct_keys(r@),
            entries_map(r@) == self@,
    {
        proof {
            use_type_invariant(self);
        }
        &self.entries
    }
}

impl Clone for StringMap {
    /// An entry-by-entry copy.
    fn clone(&self) -> (c: StringMap)
        ensures
            c@ == self@,
    {
        proof {
            use_type_invariant(self);
        }
        let mut entries: Vec<(String, String)> = Vec::new();
        let n = self.entries.len();
        for i in 0..n
            invariant
                n == self.entries@.len(),
                entries@ == self.entries@.take(i as int),
        {
            let e = &self.entries[i];
            entries.push((e.0.clone(), e.1.clone()));
            assert(self.entries@.take(i + 1) =~= self.entries@.take(i as int).push(self.entries@[i as int]));
        }
        assert(self.entries@.take(n as int) =~= self.entries@);
        StringMap { entries }
    }
}

/// Reading a map after setting a name gives the value just set, and
/// leaves every other name's presence and value as they were.
pub proof fn law_map_read_after_write(m: Map<Seq<char>, Seq<char>>, k: Seq<char>, v: Seq<char>, other: Seq<char>)
    ensures
        m.insert(k, v).contains_key(k) && m.insert(k, v)[k] == v,
        other != k ==> m.insert(k, v).contains_key(other) == m.contains_key(other),
        other != k && m.contains_key(other) ==> m.insert(k, v)[other] == m[other],
{
}

} // verus!
