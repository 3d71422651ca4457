//! Shared application state.
//!
//! An [`AppState`] holds at most one value for each type of state. A type is
//! named by its [`TypeKey`], a number that the application fixes for it.
//! The model of the state is a map from keys to values.

use std::collections::HashMap;
use vstd::prelude::*;

verus! {

broadcast use vstd::std_specs::hash::group_hash_axioms;

/// The number that names a type of state.
pub type TypeKey = u64;

/// A container of shared values, one for each type of state.
pub struct AppState<V> {
    data: HashMap<TypeKey, V>,
}

impl<V> View for AppState<V> {
    type V = Map<TypeKey, V>;

    closed spec fn view(&self) -> Map<TypeKey, V> {
        self.data@
    }
}

/// Inserting a value under one key stores it there and leaves the values
/// under all other keys as they were: a lookup of the key finds the value
/// inserted last, and a lookup of another key finds what it found before.
pub proof fn lemma_insert_touches_one_key<V>(
    state: Map<TypeKey, V>,
    key: TypeKey,
    value: V,
    other: TypeKey,
)
    requires
        other != key,
    ensures
        state.insert(key, value).dom().contains(key),
        state.insert(key, value)[key] == value,
        state.insert(key, value).dom().contains(other) == state.dom().contains(other),
        state.dom().contains(other) ==> state.insert(key, value)[other] == state[other],
{
}

impl<V> AppState<V> {
    /// Creates an empty state.
    pub fn new() -> (state: AppState<V>)
        ensures
            state@ == (Map::<TypeKey, V>::empty()),
    {
        AppState { data: HashMap::new() }
    }

    /// Stores a value under the key of its type and replaces the value that
    /// was stored under that key before.
    pub fn insert(&mut self, key: TypeKey, value: V)
        ensures
            final(self)@ == old(self)@.insert(key, value),
    {
        self.data.insert(key, value);
    }

    /// The value stored under a key, if there is one.
    pub fn get(&self, key: TypeKey) -> (found: Option<&V>)
        ensures
            match found {
                Some(value) => self@.dom().contains(key) && self@[key] == *value,
                None => !self@.dom().contains(key),
            },
    {
        self.data.get(&key)
    }

    /// Whether a value is stored under a key.
    pub fn contains(&self, key: TypeKey) -> (r: bool)
        ensures
            r == self@.dom().contains(key),
    {
        self.data.contains_key(&key)
    }

    /// Removes the value stored under a key and returns it, if there is
    /// one. The values under all other keys stay.
    pub fn remove(&mut self, key: TypeKey) -> (removed: Option<V>)
        ensures
            final(self)@ == old(self)@.remove(key),
            match removed {
                Some(value) => old(self)@.dom().contains(key) && old(self)@[key] == value,
                None => !old(self)@.dom().contains(key),
            },
    {
        self.data.remove(&key)
    }

    /// The number of stored values.
    pub fn len(&self) -> (n: usize)
        ensures
            n == self@.len(),
    {
        self.data.len()
    }

    /// Whether nothing is stored.
    pub fn is_empty(&self) -> (r: bool)
        ensures
            r == (self@.len() == 0),
            r == (self@ == (Map::<TypeKey, V>::empty())),
    {
        let r = self.data.is_empty();
        proof {
            if self@.len() == 0 {
                assert(self@ =~= (Map::<TypeKey, V>::empty()));
            }
        }
        r
    }

    /// Removes every value.
    pub fn clear(&mut self)
        ensures
            final(self)@ == (Map::<TypeKey, V>::empty()),
    {
        self.data.clear();
    }
}

impl<V> Default for AppState<V> {
    fn default() -> (state: AppState<V>)
        ensures
            state@ == (Map::<TypeKey, V>::empty()),
    {
        AppState::new()
    }
}

} // verus!
