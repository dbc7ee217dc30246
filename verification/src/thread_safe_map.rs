//! The shared telemetry store: a mapping readable and writable from any
//! thread, used to surface diagnostic text into the UI. A verified
//! reader-writer lock guards a hash map; clones share the one store. The
//! verified lock cannot be poisoned — no panic can happen while it is held —
//! so, unlike with a plain std lock, reads and writes always succeed; the
//! `Result` stays in the signatures for the callers that check it.

use vstd::prelude::*;
use vstd::rwlock::{RwLock, RwLockPredicate};

use std::collections::HashMap;
use std::hash::Hash;
use std::sync::Arc;

verus! {

/// The lock predicate for the store: any map contents are fine.
pub struct AnyContents;

impl<K, V> RwLockPredicate<HashMap<K, V>> for AnyContents {
    open spec fn inv(self, v: HashMap<K, V>) -> bool {
        true
    }
}

/// A concurrent last-write-wins mapping. Every clone is another handle on
/// the same store.
pub struct ThreadSafeMap<K, V> {
    data: Arc<RwLock<HashMap<K, V>, AnyContents>>,
}

impl<K, V> ThreadSafeMap<K, V> {
    /// An empty store.
    pub fn new() -> Self {
        ThreadSafeMap { data: Arc::new(RwLock::new(HashMap::new(), Ghost(AnyContents))) }
    }

    /// Store a value under a key, replacing and returning what the key held
    /// before. The verified lock cannot be poisoned, so this always
    /// succeeds.
    pub fn insert(&self, key: K, value: V) -> (r: Result<Option<V>, String>) where K: Eq + Hash
        ensures
            r is Ok,
    {
        let (mut map, handle) = self.data.acquire_write();
        let previous = map.insert(key, value);
        handle.release_write(map);
        Ok(previous)
    }

    /// Read a clone of the value a key currently holds, without keeping the
    /// lock while the caller uses it. The verified lock cannot be poisoned,
    /// so this always succeeds.
    pub fn get(&self, key: &K) -> (r: Result<Option<V>, String>) where K: Eq + Hash, V: Clone
        ensures
            r is Ok,
    {
        let handle = self.data.acquire_read();
        let value = match handle.borrow().get(key) {
            Some(found) => Some(found.clone()),
            None => None,
        };
        handle.release_read();
        Ok(value)
    }
}

impl<K, V> Clone for ThreadSafeMap<K, V> {
    /// Another handle on the same store.
    fn clone(&self) -> Self {
        ThreadSafeMap { data: Arc::clone(&self.data) }
    }
}

} // verus!
