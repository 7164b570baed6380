//! The durable key-value store. The engine needs per-key reads and writes
//! that preserve exactly the structure the value codec produced; this
//! in-memory store provides them in verified form. Store failure is kept as
//! its own error so callers can tell it from a value that fails to decode.

use vstd::prelude::*;

use crate::kvmap::KvMap;
use crate::value::{value_downcast, value_erase, AnyValue, AnyValueV, PersistentValue};

verus! {

/// Failure of the store itself.
#[derive(PartialEq, Eq, Structural, Clone, Copy, Debug)]
pub struct DbError;

pub type DbResult<T> = Result<T, DbError>;

/// The durable store: a map from string keys to erased values.
pub struct Database {
    pub map: KvMap<String, AnyValue>,
}

impl View for Database {
    type V = Map<Seq<char>, AnyValueV>;

    open spec fn view(&self) -> Map<Seq<char>, AnyValueV> {
        Map::new(
            |k: Seq<char>| self.map@.contains_key(k),
            |k: Seq<char>| self.map@[k]@,
        )
    }
}

impl Database {
    pub open spec fn wf(self) -> bool {
        self.map.wf()
    }

    pub fn new() -> (r: Database)
        ensures
            r.wf(),
            r@ == Map::<Seq<char>, AnyValueV>::empty(),
    {
        let r = Database { map: KvMap::new() };
        proof {
            assert(r@ =~= Map::<Seq<char>, AnyValueV>::empty());
        }
        r
    }

    /// The stored erased value under a key, if any.
    pub fn get_raw<'a>(&'a self, key: &String) -> (r: Option<&'a AnyValue>)
        requires
            self.wf(),
        ensures
            match r {
                Some(v) => self@.contains_key(key@) && v@ == self@[key@],
                None => !self@.contains_key(key@),
            },
    {
        self.map.get(key)
    }

    /// Stores an erased value under a key, replacing what was there.
    pub fn put_raw(&mut self, key: String, value: AnyValue)
        requires
            old(self).wf(),
        ensures
            final(self).wf(),
            final(self)@ == old(self)@.insert(key@, value@),
    {
        let ghost k = key@;
        let ghost vv = value@;
        self.map.insert(key, value);
        proof {
            assert(self@ =~= old(self)@.insert(k, vv));
        }
    }

    /// Removes a key, if present.
    pub fn remove_raw(&mut self, key: &String)
        requires
            old(self).wf(),
        ensures
            final(self).wf(),
            final(self)@ == old(self)@.remove(key@),
    {
        self.map.remove(key);
        proof {
            assert(self@ =~= old(self)@.remove(key@));
        }
    }

    /// Typed read: absent keys are a normal answer, a stored value of a
    /// different type or with undecodable bytes is a store failure.
    pub fn get_resource<V: PersistentValue>(&self, key: &String) -> (r: DbResult<Option<V>>)
        requires
            self.wf(),
        ensures
            match r {
                Ok(Some(v)) => self@.contains_key(key@) && value_downcast::<V>(self@[key@])
                    == Some(v),
                Ok(None) => !self@.contains_key(key@),
                Err(e) => self@.contains_key(key@) && value_downcast::<V>(self@[key@]) is None,
            },
    {
        match self.get_raw(key) {
            Some(av) => match av.downcast::<V>() {
                Some(v) => Ok(Some(v)),
                None => Err(DbError),
            },
            None => Ok(None),
        }
    }

    /// Typed write; reports whether the key was already present.
    pub fn update_resource<V: PersistentValue>(&mut self, key: String, value: V) -> (r: DbResult<
        bool,
    >)
        requires
            old(self).wf(),
        ensures
            final(self).wf(),
            final(self)@ == old(self)@.insert(key@, value_erase(value)),
            value_downcast::<V>(value_erase(value)) == Some(value),
            r == Ok::<bool, DbError>(old(self)@.contains_key(key@)),
    {
        let present = self.map.contains_key(&key);
        self.put_raw(key, AnyValue::from_value(&value));
        Ok(present)
    }
}

} // verus!
