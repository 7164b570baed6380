//! One handler's view of durable storage: a per-actor cache over the store
//! plus the staged storage effects of the running invocation. Writes never
//! reach the store from here; they are staged as effects, and per key the
//! last staged action wins.

use vstd::prelude::*;
use vstd::string::StringExecFns;

use crate::database::{Database, DbError};
use crate::kvmap::KvMap;
use crate::value::{value_downcast, value_erase, AnyValue, AnyValueV, PersistentValue};

verus! {

/// Why a storage access failed.
#[derive(PartialEq, Eq, Structural, Clone, Copy, Debug)]
pub enum StorageError {
    /// The store itself failed.
    Db(DbError),
    /// Cached or stored bytes failed to decode as the expected type.
    Value,
    /// `borrow_mut` targeted a key absent from both cache and store.
    KeyNotFound,
}

/// A staged storage effect; per key, the last one staged wins.
#[derive(PartialEq, Eq, Structural, Clone, Copy, Debug)]
pub enum GlobalEffect {
    Modified,
    Deleted,
}

/// The per-actor cache over the durable store.
pub struct GlobalStorageCache {
    pub map: KvMap<String, AnyValue>,
}

impl View for GlobalStorageCache {
    type V = Map<Seq<char>, AnyValueV>;

    open spec fn view(&self) -> Map<Seq<char>, AnyValueV> {
        Map::new(
            |k: Seq<char>| self.map@.contains_key(k),
            |k: Seq<char>| self.map@[k]@,
        )
    }
}

impl GlobalStorageCache {
    pub open spec fn wf(self) -> bool {
        self.map.wf()
    }

    pub fn new() -> (r: GlobalStorageCache)
        ensures
            r.wf(),
            r@ == Map::<Seq<char>, AnyValueV>::empty(),
    {
        let r = GlobalStorageCache { map: KvMap::new() };
        proof {
            assert(r@ =~= Map::<Seq<char>, AnyValueV>::empty());
        }
        r
    }

    pub fn contains_key(&self, key: &String) -> (r: bool)
        requires
            self.wf(),
        ensures
            r == self@.contains_key(key@),
    {
        self.map.contains_key(key)
    }

    /// Caches a typed value under a key.
    pub fn insert<V: PersistentValue>(&mut self, key: String, value: V)
        requires
            old(self).wf(),
        ensures
            final(self).wf(),
            final(self)@ == old(self)@.insert(key@, value_erase(value)),
            value_downcast::<V>(value_erase(value)) == Some(value),
    {
        self.insert_raw(key, AnyValue::from_value(&value));
    }

    pub fn insert_raw(&mut self, key: String, value: AnyValue)
        requires
            old(self).wf(),
        ensures
            final(self).wf(),
            final(self)@ == old(self)@.insert(key@, value@),
    {
        let ghost k = key@;
        let ghost vv = value@;
        self.map.insert(key, value);
        proof {
            assert(self@ =~= old(self)@.insert(k, vv));
        }
    }

    pub fn get_raw<'a>(&'a self, key: &String) -> (r: Option<&'a AnyValue>)
        requires
            self.wf(),
        ensures
            match r {
                Some(v) => self@.contains_key(key@) && v@ == self@[key@],
                None => !self@.contains_key(key@),
            },
    {
        self.map.get(key)
    }
}

/// Where a key is read from during an invocation: the cache shadows the
/// store.
pub open spec fn storage_lookup(
    db: Map<Seq<char>, AnyValueV>,
    cache: Map<Seq<char>, AnyValueV>,
    k: Seq<char>,
) -> Option<AnyValueV> {
    if cache.contains_key(k) {
        Some(cache[k])
    } else if db.contains_key(k) {
        Some(db[k])
    } else {
        None
    }
}

/// What `borrow_mut` does, as a function of the pre-state: the returned
/// value, the cache afterwards and the staged effects afterwards.
pub open spec fn spec_borrow<V: PersistentValue>(
    db: Map<Seq<char>, AnyValueV>,
    cache: Map<Seq<char>, AnyValueV>,
    effects: Map<Seq<char>, GlobalEffect>,
    k: Seq<char>,
) -> (Map<Seq<char>, AnyValueV>, Map<Seq<char>, GlobalEffect>, Result<V, StorageError>) {
    match storage_lookup(db, cache, k) {
        None => (cache, effects, Err(StorageError::KeyNotFound)),
        Some(av) => {
            let cache1 = if cache.contains_key(k) {
                cache
            } else {
                cache.insert(k, av)
            };
            match value_downcast::<V>(av) {
                None => (cache1, effects, Err(StorageError::Value)),
                Some(v) => (cache1, effects.insert(k, GlobalEffect::Modified), Ok(v)),
            }
        },
    }
}

/// Storage as one invocation sees it: the shared store, the actor's cache,
/// and the effects staged so far.
pub struct GlobalStorage<'a> {
    pub db: &'a Database,
    pub cache: GlobalStorageCache,
    pub effects: KvMap<String, GlobalEffect>,
}

impl<'a> GlobalStorage<'a> {
    pub open spec fn wf(self) -> bool {
        self.db.wf() && self.cache.wf() && self.effects.wf()
    }

    pub open spec fn dbv(self) -> Map<Seq<char>, AnyValueV> {
        self.db@
    }

    pub fn new(db: &'a Database, cache: GlobalStorageCache) -> (r: GlobalStorage<'a>)
        requires
            db.wf(),
            cache.wf(),
        ensures
            r.wf(),
            r.db == db,
            r.cache == cache,
            r.effects@ == Map::<Seq<char>, GlobalEffect>::empty(),
    {
        GlobalStorage { db, cache, effects: KvMap::new() }
    }

    /// Stages a write and updates the cache, so later reads in the same
    /// invocation observe the new value.
    pub fn put<V: PersistentValue>(&mut self, key: &str, value: V)
        requires
            old(self).wf(),
        ensures
            final(self).wf(),
            final(self).db == old(self).db,
            final(self).cache@ == old(self).cache@.insert(key@, value_erase(value)),
            final(self).effects@ == old(self).effects@.insert(key@, GlobalEffect::Modified),
            value_downcast::<V>(value_erase(value)) == Some(value),
    {
        let k_cache = String::from_str(key);
        let k_eff = String::from_str(key);
        self.effects.insert(k_eff, GlobalEffect::Modified);
        self.cache.insert(k_cache, value);
    }

    /// Reads a key for modification: loads it from the store into the cache
    /// if absent, stages a write, and returns the current typed value. Fails
    /// with `KeyNotFound` if the key is in neither cache nor store, and with
    /// `Value` if the stored form is of another type.
    pub fn borrow_mut<V: PersistentValue>(&mut self, key: &str) -> (r: Result<V, StorageError>)
        requires
            old(self).wf(),
        ensures
            final(self).wf(),
            final(self).db == old(self).db,
            final(self).cache@ == spec_borrow::<V>(
                old(self).dbv(),
                old(self).cache@,
                old(self).effects@,
                key@,
            ).0,
            final(self).effects@ == spec_borrow::<V>(
                old(self).dbv(),
                old(self).cache@,
                old(self).effects@,
                key@,
            ).1,
            r == spec_borrow::<V>(old(self).dbv(), old(self).cache@, old(self).effects@, key@).2,
    {
        let k = String::from_str(key);
        let cached = self.cache.contains_key(&k);
        if !cached {
            match self.db.get_raw(&k) {
                Some(av) => {
                    let copy = av.duplicate();
                    let k2 = String::from_str(key);
                    self.cache.insert_raw(k2, copy);
                },
                None => {
                    return Err(StorageError::KeyNotFound);
                },
            }
        }
        match self.cache.get_raw(&k) {
            Some(av) => match av.downcast::<V>() {
                Some(v) => {
                    let k3 = String::from_str(key);
                    self.effects.insert(k3, GlobalEffect::Modified);
                    Ok(v)
                },
                None => Err(StorageError::Value),
            },
            None => Err(StorageError::KeyNotFound),
        }
    }

    /// Stages a delete; the value need not be cached.
    pub fn remove(&mut self, key: &str)
        requires
            old(self).wf(),
        ensures
            final(self).wf(),
            final(self).db == old(self).db,
            final(self).cache@ == old(self).cache@,
            final(self).effects@ == old(self).effects@.insert(key@, GlobalEffect::Deleted),
    {
        let k = String::from_str(key);
        self.effects.insert(k, GlobalEffect::Deleted);
    }
}

} // verus!
