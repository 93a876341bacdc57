//! The shared key-value store backing `GET`, `SET` and `DEL`.
//!
//! A [`Store`] owns a mapping from text keys to text values. Its abstract
//! state is a `Map<Seq<char>, Seq<char>>`; every operation's contract says
//! exactly how it reads or rewrites that map. The service shares one `Store`
//! between all connections behind a lock owned by the surrounding program;
//! the store itself is purely sequential.

use vstd::prelude::*;
use vstd::hash_map::StringHashMap;

verus! {

/// A mapping from keys to values, both UTF-8 text.
///
/// Keys are compared verbatim (case-sensitive, no normalization).
pub struct Store {
    map: StringHashMap<String>,
}

impl View for Store {
    type V = Map<Seq<char>, Seq<char>>;

    /// The abstract contents: each key's character sequence mapped to its
    /// value's character sequence.
    closed spec fn view(&self) -> Map<Seq<char>, Seq<char>> {
        self.map@.map_values(|v: String| v@)
    }
}

impl Store {
    /// Creates an empty store.
    pub fn new() -> (s: Store)
        ensures
            s@ == Map::<Seq<char>, Seq<char>>::empty(),
    {
        let map = StringHashMap::<String>::new();
        proof {
            assert(map@.map_values(|v: String| v@) =~= Map::<Seq<char>, Seq<char>>::empty());
        }
        Store { map }
    }

    /// Returns the current value bound to `key`, or `None` if the key is
    /// absent. Read-only: the store is unchanged.
    pub fn get(&self, key: &str) -> (value: Option<String>)
        ensures
            match value {
                Some(v) => self@.contains_key(key@) && v@ == self@[key@],
                None => !self@.contains_key(key@),
            },
    {
        match self.map.get(key) {
            Some(v) => Some(v.clone()),
            None => None,
        }
    }

    /// Inserts or overwrites the binding for `key`, returning the prior value
    /// if one existed.
    pub fn set(&mut self, key: String, value: String) -> (prior: Option<String>)
        ensures
            final(self)@ == old(self)@.insert(key@, value@),
            match prior {
                Some(p) => old(self)@.contains_key(key@) && p@ == old(self)@[key@],
                None => !old(self)@.contains_key(key@),
            },
    {
        let prior = self.get(key.as_str());
        let ghost pre = self.map@;
        self.map.insert(key, value);
        proof {
            assert(self.map@.map_values(|v: String| v@) =~= pre.map_values(
                |v: String| v@,
            ).insert(key@, value@));
        }
        prior
    }

    /// Removes the binding for `key` if present, returning the removed value.
    /// Absent keys are left untouched.
    pub fn delete(&mut self, key: &str) -> (removed: Option<String>)
        ensures
            final(self)@ == old(self)@.remove(key@),
            match removed {
                Some(r) => old(self)@.contains_key(key@) && r@ == old(self)@[key@],
                None => !old(self)@.contains_key(key@),
            },
    {
        let removed = self.get(key);
        let ghost pre = self.map@;
        self.map.remove(key);
        proof {
            assert(self.map@.map_values(|v: String| v@) =~= pre.map_values(
                |v: String| v@,
            ).remove(key@));
        }
        removed
    }
}

impl Default for Store {
    /// An empty store.
    fn default() -> (s: Store)
        ensures
            s@ == Map::<Seq<char>, Seq<char>>::empty(),
    {
        Store::new()
    }
}

} // verus!
