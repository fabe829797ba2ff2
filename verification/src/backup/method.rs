//! The two ways of keeping what a backup holds: with its values, or by key only.
use vstd::prelude::*;
use std::collections::{HashMap, HashSet};

verus! {

broadcast use vstd::std_specs::hash::group_hash_axioms;

/// Decides whether accepted records are kept or only their identifiers.
pub trait Method {
    /// True when values are kept.
    spec fn retains() -> bool;

    /// True when values are kept.
    fn keeps_values() -> (b: bool)
        ensures
            b == Self::retains(),
    ;
}

/// Keeps every accepted value, keyed by its identifier.
#[derive(Debug)]
pub struct Store;

/// Keeps identifiers only, for membership tests.
#[derive(Debug)]
pub struct ValidateOnly;

impl Method for Store {
    open spec fn retains() -> bool {
        true
    }

    fn keeps_values() -> (b: bool) {
        true
    }
}

impl Method for ValidateOnly {
    open spec fn retains() -> bool {
        false
    }

    fn keeps_values() -> (b: bool) {
        false
    }
}

/// Membership by key.
pub trait Contains<K> {
    /// Whether `key` is held.
    spec fn spec_contains(&self, key: K) -> bool;

    /// Whether `key` is held.
    fn contains(&self, key: &K) -> (r: bool)
        ensures
            r == self.spec_contains(*key),
    ;
}

/// Signals that a key was already present.
#[derive(Clone, Copy, Debug, PartialEq, Eq, Structural)]
pub struct KeyExists;

/// A collection keyed by integers that keeps values, or keys alone.
pub struct IdMap<V> {
    retain: bool,
    values: HashMap<u64, V>,
    keys: HashSet<u64>,
}

impl<V> IdMap<V> {
    /// The keys that were inserted.
    pub closed spec fn ids(&self) -> Set<u64> {
        if self.retain {
            self.values@.dom()
        } else {
            self.keys@
        }
    }

    /// The values that are kept: one for each key when values are retained,
    /// none otherwise.
    pub closed spec fn stored(&self) -> Map<u64, V> {
        self.values@
    }

    /// True when values are kept.
    pub closed spec fn retaining(&self) -> bool {
        self.retain
    }

    /// Either every key has its value, or no value is held at all.
    pub closed spec fn wf(&self) -> bool {
        if self.retain {
            self.keys@ == Set::<u64>::empty()
        } else {
            self.values@ == Map::<u64, V>::empty()
        }
    }

    /// What is kept matches the keys when values are retained.
    pub proof fn lemma_stored_matches_ids(&self)
        requires
            self.wf(),
        ensures
            self.retaining() ==> self.stored().dom() == self.ids(),
            !self.retaining() ==> self.stored() == Map::<u64, V>::empty(),
    {
    }

    /// An empty collection.
    pub fn new(retain: bool) -> (r: Self)
        ensures
            r.wf(),
            r.retaining() == retain,
            r.ids() == Set::<u64>::empty(),
            r.stored() == Map::<u64, V>::empty(),
    {
        IdMap { retain, values: HashMap::new(), keys: HashSet::new() }
    }

    /// Whether `key` was inserted.
    pub fn contains(&self, key: u64) -> (r: bool)
        ensures
            r == self.ids().contains(key),
    {
        if self.retain {
            self.values.contains_key(&key)
        } else {
            self.keys.contains(&key)
        }
    }

    /// Adds `key`, with `value` where values are kept. A key that is already
    /// present is refused and the collection stays as it was.
    pub fn insert(&mut self, key: u64, value: V) -> (r: Result<(), KeyExists>)
        requires
            old(self).wf(),
        ensures
            final(self).wf(),
            final(self).retaining() == old(self).retaining(),
            old(self).ids().contains(key) ==> r == Err::<(), KeyExists>(KeyExists) && *final(self)
                == *old(self),
            !old(self).ids().contains(key) ==> r == Ok::<(), KeyExists>(()) && final(self).ids()
                == old(self).ids().insert(key),
            !old(self).ids().contains(key) && old(self).retaining() ==> final(self).stored()
                == old(self).stored().insert(key, value),
            !old(self).ids().contains(key) && !old(self).retaining() ==> final(self).stored()
                == old(self).stored(),
    {
        if self.contains(key) {
            return Err(KeyExists);
        }
        if self.retain {
            self.values.insert(key, value);
        } else {
            self.keys.insert(key);
        }
        Ok(())
    }

    /// The map that holds the kept values.
    pub closed spec fn spec_into_values(self) -> HashMap<u64, V> {
        self.values
    }

    /// Gives up the values that were kept.
    pub fn into_values(self) -> (r: HashMap<u64, V>)
        ensures
            r == self.spec_into_values(),
            r@ == self.stored(),
    {
        self.values
    }

    /// The map handed out by [`IdMap::into_values`] holds what was stored.
    pub proof fn lemma_into_values(self)
        ensures
            self.spec_into_values()@ == self.stored(),
    {
    }
}

} // verus!
