//! A small association map kept as a vector of key/value pairs with unique
//! keys. Contracts speak of its mathematical view, a `Map` from key views to
//! values. The engine keys such maps by strings (storage keys) and by the
//! plain tag structs of `kinds`.

use vstd::prelude::*;

use crate::kinds::AnyActorId;

verus! {

/// A key type usable in [`KvMap`]: it has a mathematical view and an
/// executable equality that decides equality of views.
pub trait MapKey: Sized {
    type Vw;

    spec fn keyv(&self) -> Self::Vw;

    fn key_eq(&self, other: &Self) -> (r: bool)
        ensures
            r == (self.keyv() == other.keyv()),
    ;
}

impl MapKey for String {
    type Vw = Seq<char>;

    open spec fn keyv(&self) -> Seq<char> {
        self@
    }

    fn key_eq(&self, other: &Self) -> (r: bool) {
        self.eq(other)
    }
}

impl MapKey for AnyActorId {
    type Vw = AnyActorId;

    open spec fn keyv(&self) -> AnyActorId {
        *self
    }

    fn key_eq(&self, other: &Self) -> (r: bool) {
        self == other
    }
}

/// The map denoted by a sequence of pairs; a later pair wins over an earlier
/// one with the same key view.
pub open spec fn pairs_map<K: MapKey, V>(s: Seq<(K, V)>) -> Map<<K as MapKey>::Vw, V>
    decreases s.len(),
{
    if s.len() == 0 {
        Map::<<K as MapKey>::Vw, V>::empty()
    } else {
        pairs_map(s.drop_last()).insert(s.last().0.keyv(), s.last().1)
    }
}

/// No two pairs share a key view.
pub open spec fn keys_unique<K: MapKey, V>(s: Seq<(K, V)>) -> bool {
    forall|i: int, j: int|
        0 <= i < j < s.len() ==> s[i].0.keyv() != s[j].0.keyv()
}

pub proof fn lemma_pairs_map_index<K: MapKey, V>(s: Seq<(K, V)>, i: int)
    requires
        keys_unique(s),
        0 <= i < s.len(),
    ensures
        pairs_map(s).contains_key(s[i].0.keyv()),
        pairs_map(s)[s[i].0.keyv()] == s[i].1,
    decreases s.len(),
{
    if i < s.len() - 1 {
        assert(keys_unique(s.drop_last()));
        lemma_pairs_map_index(s.drop_last(), i);
        assert(s.drop_last()[i] == s[i]);
        assert(s[i].0.keyv() != s.last().0.keyv());
    }
}

pub proof fn lemma_pairs_map_absent<K: MapKey, V>(s: Seq<(K, V)>, k: <K as MapKey>::Vw)
    requires
        forall|i: int| 0 <= i < s.len() ==> s[i].0.keyv() != k,
    ensures
        !pairs_map(s).contains_key(k),
    decreases s.len(),
{
    if s.len() > 0 {
        lemma_pairs_map_absent(s.drop_last(), k);
    }
}

/// Removing pair `i` removes exactly its key from the denoted map.
pub proof fn lemma_pairs_map_remove<K: MapKey, V>(s: Seq<(K, V)>, i: int)
    requires
        keys_unique(s),
        0 <= i < s.len(),
    ensures
        pairs_map(s.remove(i)) == pairs_map(s).remove(s[i].0.keyv()),
        keys_unique(s.remove(i)),
    decreases s.len(),
{
    let k = s[i].0.keyv();
    assert(keys_unique(s.remove(i)));
    if i == s.len() - 1 {
        assert(s.remove(i) =~= s.drop_last());
        lemma_pairs_map_absent(s.drop_last(), k);
        assert(pairs_map(s).remove(k) =~= pairs_map(s.drop_last()));
    } else {
        assert(keys_unique(s.drop_last()));
        lemma_pairs_map_remove(s.drop_last(), i);
        assert(s.remove(i).drop_last() =~= s.drop_last().remove(i));
        assert(s.remove(i).last() == s.last());
        assert(s[i] == s.drop_last()[i]);
        assert(pairs_map(s).remove(k) =~= pairs_map(s.drop_last()).remove(k).insert(
            s.last().0.keyv(),
            s.last().1,
        ));
    }
}

/// An association map with unique keys.
pub struct KvMap<K: MapKey, V> {
    pub pairs: Vec<(K, V)>,
}

impl<K: MapKey, V> View for KvMap<K, V> {
    type V = Map<<K as MapKey>::Vw, V>;

    open spec fn view(&self) -> Map<<K as MapKey>::Vw, V> {
        pairs_map(self.pairs@)
    }
}

impl<K: MapKey, V> KvMap<K, V> {
    /// The underlying sequence of pairs, for iteration.
    pub open spec fn seq(self) -> Seq<(K, V)> {
        self.pairs@
    }

    pub open spec fn wf(self) -> bool {
        keys_unique(self.pairs@)
    }

    pub fn new() -> (r: KvMap<K, V>)
        ensures
            r.wf(),
            r@ == Map::<<K as MapKey>::Vw, V>::empty(),
            r.seq() == Seq::<(K, V)>::empty(),
    {
        KvMap { pairs: Vec::new() }
    }

    pub fn len(&self) -> (r: usize)
        ensures
            r == self.seq().len(),
    {
        self.pairs.len()
    }

    /// The pair at position `i`; with `lemma_pairs_map_index` this ties
    /// iteration to the map view.
    pub fn pair_at(&self, i: usize) -> (r: &(K, V))
        requires
            i < self.seq().len(),
        ensures
            *r == self.seq()[i as int],
    {
        &self.pairs[i]
    }

    /// Position of the pair with the given key, if any.
    fn position(&self, key: &K) -> (r: Option<usize>)
        ensures
            match r {
                Some(i) => i < self.pairs@.len() && self.pairs@[i as int].0.keyv() == key.keyv(),
                None => forall|j: int|
                    0 <= j < self.pairs@.len() ==> self.pairs@[j].0.keyv() != key.keyv(),
            },
    {
        let mut i: usize = 0;
        while i < self.pairs.len()
            invariant
                i <= self.pairs@.len(),
                forall|j: int| 0 <= j < i ==> self.pairs@[j].0.keyv() != key.keyv(),
            decreases self.pairs@.len() - i,
        {
            if self.pairs[i].0.key_eq(key) {
                return Some(i);
            }
            i += 1;
        }
        None
    }

    pub fn contains_key(&self, key: &K) -> (r: bool)
        requires
            self.wf(),
        ensures
            r == self@.contains_key(key.keyv()),
    {
        match self.position(key) {
            Some(i) => {
                proof {
                    lemma_pairs_map_index(self.pairs@, i as int);
                }
                true
            },
            None => {
                proof {
                    lemma_pairs_map_absent(self.pairs@, key.keyv());
                }
                false
            },
        }
    }

    pub fn get<'a>(&'a self, key: &K) -> (r: Option<&'a V>)
        requires
            self.wf(),
        ensures
            match r {
                Some(v) => self@.contains_key(key.keyv()) && *v == self@[key.keyv()],
                None => !self@.contains_key(key.keyv()),
            },
    {
        match self.position(key) {
            Some(i) => {
                proof {
                    lemma_pairs_map_index(self.pairs@, i as int);
                }
                Some(&self.pairs[i].1)
            },
            None => {
                proof {
                    lemma_pairs_map_absent(self.pairs@, key.keyv());
                }
                None
            },
        }
    }

    pub fn insert(&mut self, key: K, value: V)
        requires
            old(self).wf(),
        ensures
            final(self).wf(),
            final(self)@ == old(self)@.insert(key.keyv(), value),
    {
        let ghost k = key.keyv();
        match self.position(&key) {
            Some(i) => {
                proof {
                    lemma_pairs_map_remove(self.pairs@, i as int);
                }
                self.pairs.remove(i);
            },
            None => {
                proof {
                    lemma_pairs_map_absent(self.pairs@, k);
                }
            },
        }
        assert(!self@.contains_key(k));
        assert(forall|j: int|
            0 <= j < self.pairs@.len() ==> self.pairs@[j].0.keyv() != k) by {
            if exists|j: int| 0 <= j < self.pairs@.len() && self.pairs@[j].0.keyv() == k {
                let j = choose|j: int| 0 <= j < self.pairs@.len() && self.pairs@[j].0.keyv() == k;
                lemma_pairs_map_index(self.pairs@, j);
            }
        }
        let ghost before = self.pairs@;
        self.pairs.push((key, value));
        proof {
            assert(self.pairs@.drop_last() =~= before);
            assert(self@ =~= old(self)@.insert(k, value));
        }
    }

    /// Removes and returns the value under a key, if any.
    pub fn take(&mut self, key: &K) -> (r: Option<V>)
        requires
            old(self).wf(),
        ensures
            final(self).wf(),
            match r {
                Some(v) => old(self)@.contains_key(key.keyv()) && v == old(self)@[key.keyv()]
                    && final(self)@ == old(self)@.remove(key.keyv()),
                None => !old(self)@.contains_key(key.keyv()) && *final(self) == *old(self),
            },
    {
        match self.position(key) {
            Some(i) => {
                proof {
                    lemma_pairs_map_index(self.pairs@, i as int);
                    lemma_pairs_map_remove(self.pairs@, i as int);
                }
                let p = self.pairs.remove(i);
                Some(p.1)
            },
            None => {
                proof {
                    lemma_pairs_map_absent(self.pairs@, key.keyv());
                }
                None
            },
        }
    }

    pub fn remove(&mut self, key: &K)
        requires
            old(self).wf(),
        ensures
            final(self).wf(),
            final(self)@ == old(self)@.remove(key.keyv()),
    {
        match self.position(key) {
            Some(i) => {
                proof {
                    lemma_pairs_map_remove(self.pairs@, i as int);
                }
                self.pairs.remove(i);
            },
            None => {
                proof {
                    lemma_pairs_map_absent(self.pairs@, key.keyv());
                    assert(old(self)@.remove(key.keyv()) =~= old(self)@);
                }
            },
        }
    }
}

} // verus!
