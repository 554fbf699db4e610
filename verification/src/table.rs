//! A small verified association table.
//!
//! This is the backing structure shared by the in-memory stores: a pair of
//! parallel vectors holding distinct keys, abstracted as a `Map` from the
//! key's abstract value to the stored value.

use vstd::prelude::*;

verus! {

use vstd::utf8::encode_utf8;
use vstd::string::StringSliceAdditionalSpecFns;

/// String equality by content: compares the UTF-8 bytes of the two slices.
pub fn str_eq(a: &str, b: &str) -> (r: bool)
    ensures
        r == (a@ == b@),
{
    proof {
        vstd::utf8::encode_utf8_decode_utf8(a@);
        vstd::utf8::encode_utf8_decode_utf8(b@);
    }
    let ab = a.as_bytes();
    let bb = b.as_bytes();
    if ab.len() != bb.len() {
        return false;
    }
    let n = ab.len();
    let mut i: usize = 0;
    while i < n
        invariant
            n == ab@.len() == bb@.len(),
            i <= n,
            ab@ == encode_utf8(a@),
            bb@ == encode_utf8(b@),
            forall|j: int| 0 <= j < i ==> ab@[j] == bb@[j],
        decreases n - i,
    {
        if ab[i] != bb[i] {
            proof {
                if a@ == b@ {
                    assert(ab@ == encode_utf8(a@));
                    assert(bb@ == encode_utf8(b@));
                    assert(ab@[i as int] == bb@[i as int]);
                }
            }
            return false;
        }
        i += 1;
    }
    proof {
        assert(ab@ =~= bb@);
    }
    true
}

/// The map described by parallel sequences of keys and values, later
/// entries taking precedence over earlier ones.
pub open spec fn assoc_map<K, V>(keys: Seq<K>, vals: Seq<V>) -> Map<K, V>
    decreases keys.len(),
{
    if keys.len() == 0 {
        Map::empty()
    } else {
        assoc_map(keys.drop_last(), vals.drop_last()).insert(keys.last(), vals.last())
    }
}

/// A key is in the map exactly when it occurs in the key sequence.
proof fn lemma_assoc_contains<K, V>(keys: Seq<K>, vals: Seq<V>, k: K)
    requires
        keys.len() == vals.len(),
    ensures
        assoc_map(keys, vals).contains_key(k) <==> keys.contains(k),
    decreases keys.len(),
{
    if keys.len() == 0 {
    } else {
        lemma_assoc_contains(keys.drop_last(), vals.drop_last(), k);
        if keys.contains(k) {
            let i = choose|i: int| 0 <= i < keys.len() && keys[i] == k;
            if i < keys.len() - 1 {
                assert(keys.drop_last()[i] == k);
                assert(keys.drop_last().contains(k));
            }
        } else {
            assert(forall|i: int| 0 <= i < keys.len() - 1 ==> keys.drop_last()[i] == keys[i]);
            assert(!keys.drop_last().contains(k)) by {
                if keys.drop_last().contains(k) {
                    let i = choose|i: int|
                        0 <= i < keys.drop_last().len() && keys.drop_last()[i] == k;
                    assert(keys[i] == k);
                }
            }
            assert(k != keys.last());
        }
    }
}

/// With distinct keys, the map sends each key to the value at its index.
proof fn lemma_assoc_index<K, V>(keys: Seq<K>, vals: Seq<V>, i: int)
    requires
        keys.len() == vals.len(),
        forall|p: int, q: int| 0 <= p < q < keys.len() ==> keys[p] != keys[q],
        0 <= i < keys.len(),
    ensures
        assoc_map(keys, vals).contains_key(keys[i]),
        assoc_map(keys, vals)[keys[i]] == vals[i],
    decreases keys.len(),
{
    if i == keys.len() - 1 {
    } else {
        lemma_assoc_index(keys.drop_last(), vals.drop_last(), i);
        assert(keys.drop_last()[i] == keys[i]);
        assert(keys[i] != keys.last());
    }
}

/// Removing the entry at an index removes exactly that key from the map.
proof fn lemma_assoc_remove<K, V>(keys: Seq<K>, vals: Seq<V>, i: int)
    requires
        keys.len() == vals.len(),
        forall|p: int, q: int| 0 <= p < q < keys.len() ==> keys[p] != keys[q],
        0 <= i < keys.len(),
    ensures
        assoc_map(keys.remove(i), vals.remove(i)) == assoc_map(keys, vals).remove(keys[i]),
    decreases keys.len(),
{
    let m = assoc_map(keys, vals);
    let md = assoc_map(keys.drop_last(), vals.drop_last());
    if i == keys.len() - 1 {
        assert(keys.remove(i) =~= keys.drop_last());
        assert(vals.remove(i) =~= vals.drop_last());
        lemma_assoc_contains(keys.drop_last(), vals.drop_last(), keys[i]);
        assert(!keys.drop_last().contains(keys.last())) by {
            if keys.drop_last().contains(keys.last()) {
                let j = choose|j: int|
                    0 <= j < keys.drop_last().len() && keys.drop_last()[j] == keys.last();
                assert(keys[j] == keys[keys.len() - 1]);
            }
        }
        assert(md =~= m.remove(keys[i]));
    } else {
        lemma_assoc_remove(keys.drop_last(), vals.drop_last(), i);
        assert(keys.remove(i).drop_last() =~= keys.drop_last().remove(i));
        assert(vals.remove(i).drop_last() =~= vals.drop_last().remove(i));
        assert(keys.remove(i).last() == keys.last());
        assert(vals.remove(i).last() == vals.last());
        assert(keys[i] != keys.last());
        assert(assoc_map(keys.remove(i), vals.remove(i)) == assoc_map(
            keys.drop_last().remove(i),
            vals.drop_last().remove(i),
        ).insert(keys.last(), vals.last()));
        assert(md.remove(keys[i]).insert(keys.last(), vals.last()) =~= m.remove(keys[i]));
    }
}

/// With distinct keys the map has exactly one entry per key.
proof fn lemma_assoc_len<K, V>(keys: Seq<K>, vals: Seq<V>)
    requires
        keys.len() == vals.len(),
        forall|p: int, q: int| 0 <= p < q < keys.len() ==> keys[p] != keys[q],
    ensures
        assoc_map(keys, vals).dom().finite(),
        assoc_map(keys, vals).dom().len() == keys.len(),
    decreases keys.len(),
{
    if keys.len() == 0 {
        assert(assoc_map(keys, vals).dom() =~= Set::<K>::empty());
    } else {
        lemma_assoc_len(keys.drop_last(), vals.drop_last());
        lemma_assoc_contains(keys.drop_last(), vals.drop_last(), keys.last());
        assert(!keys.drop_last().contains(keys.last())) by {
            if keys.drop_last().contains(keys.last()) {
                let j = choose|j: int|
                    0 <= j < keys.drop_last().len() && keys.drop_last()[j] == keys.last();
                assert(keys[j] == keys[keys.len() - 1]);
            }
        }
        let md = assoc_map(keys.drop_last(), vals.drop_last());
        assert(assoc_map(keys, vals).dom() =~= md.dom().insert(keys.last()));
    }
}

/// The abstraction of a map holding executable values: the same map with
/// every value replaced by its view.
pub open spec fn lift<K, V: View>(m: Map<K, V>) -> Map<K, V::V> {
    Map::new(|k: K| m.contains_key(k), |k: K| m[k]@)
}

pub broadcast proof fn lemma_lift_insert<K, V: View>(m: Map<K, V>, k: K, v: V)
    ensures
        #[trigger] lift(m.insert(k, v)) == lift(m).insert(k, v@),
{
    assert(lift(m.insert(k, v)) =~= lift(m).insert(k, v@));
}

pub broadcast proof fn lemma_lift_remove<K, V: View>(m: Map<K, V>, k: K)
    ensures
        #[trigger] lift(m.remove(k)) == lift(m).remove(k),
{
    assert(lift(m.remove(k)) =~= lift(m).remove(k));
}

/// A key type usable in a `Table`: viewable, with an executable equality
/// that decides equality of the abstract values.
pub trait TableKey: View {
    fn key_eq(&self, other: &Self) -> (r: bool)
        ensures
            r == (self@ == other@),
    ;
}

impl TableKey for String {
    fn key_eq(&self, other: &Self) -> (r: bool)
        ensures
            r == (self@ == other@),
    {
        str_eq(self.as_str(), other.as_str())
    }
}

/// Association table from keys to values, with one entry per key, seen
/// abstractly as a `Map` from the key's abstract value to the value.
pub struct Table<K, V> {
    keys: Vec<K>,
    vals: Vec<V>,
}

impl<K: TableKey, V> View for Table<K, V> {
    type V = Map<K::V, V>;

    closed spec fn view(&self) -> Map<K::V, V> {
        assoc_map(self.key_seq(), self.vals@)
    }
}

impl<K: TableKey, V> Table<K, V> {
    pub closed spec fn key_seq(&self) -> Seq<K::V> {
        self.keys@.map_values(|k: K| k@)
    }

    /// Well-formedness: parallel vectors of equal length, keys distinct.
    pub closed spec fn wf(&self) -> bool {
        &&& self.keys@.len() == self.vals@.len()
        &&& forall|p: int, q: int|
            0 <= p < q < self.keys@.len() ==> self.keys@[p]@ != self.keys@[q]@
    }

    /// The empty table.
    pub fn new() -> (t: Self)
        ensures
            t@ == Map::<K::V, V>::empty(),
            t.wf(),
    {
        let t = Table { keys: Vec::new(), vals: Vec::new() };
        proof {
            assert(t.key_seq() =~= Seq::<K::V>::empty());
        }
        t
    }

    /// Index of the entry holding `key`, if any.
    fn index_of(&self, key: &K) -> (r: Option<usize>)
        requires
            self.wf(),
        ensures
            match r {
                Some(i) => {
                    &&& i < self.keys@.len()
                    &&& self.keys@.len() == self.vals@.len()
                    &&& self.keys@[i as int]@ == key@
                    &&& self@.contains_key(key@)
                    &&& self@[key@] == self.vals@[i as int]
                },
                None => !self@.contains_key(key@),
            },
    {
        let n = self.keys.len();
        let mut i: usize = 0;
        while i < n
            invariant
                self.wf(),
                n == self.keys@.len(),
                i <= n,
                forall|j: int| 0 <= j < i ==> self.keys@[j]@ != key@,
            decreases n - i,
        {
            if self.keys[i].key_eq(key) {
                proof {
                    lemma_assoc_index(self.key_seq(), self.vals@, i as int);
                }
                return Some(i);
            }
            i += 1;
        }
        proof {
            lemma_assoc_contains(self.key_seq(), self.vals@, key@);
            assert(!self.key_seq().contains(key@)) by {
                if self.key_seq().contains(key@) {
                    let j = choose|j: int|
                        0 <= j < self.key_seq().len() && self.key_seq()[j] == key@;
                    assert(self.keys@[j]@ == key@);
                }
            }
        }
        None
    }

    /// The value stored under `key`, if any.
    pub fn get(&self, key: &K) -> (r: Option<&V>)
        requires
            self.wf(),
        ensures
            match r {
                Some(v) => self@.contains_key(key@) && *v == self@[key@],
                None => !self@.contains_key(key@),
            },
    {
        match self.index_of(key) {
            Some(i) => Some(&self.vals[i]),
            None => None,
        }
    }

    /// Whether an entry is stored under `key`.
    pub fn contains_key(&self, key: &K) -> (r: bool)
        requires
            self.wf(),
        ensures
            r == self@.contains_key(key@),
    {
        self.index_of(key).is_some()
    }

    /// Stores `val` under `key`, replacing any previous entry for the key.
    pub fn insert(&mut self, key: K, val: V)
        requires
            old(self).wf(),
        ensures
            final(self).wf(),
            final(self)@ == old(self)@.insert(key@, val),
    {
        let ghost m0 = self@;
        let ghost ks0 = self.key_seq();
        let ghost kv0 = self.keys@;
        match self.index_of(&key) {
            Some(i) => {
                proof {
                    lemma_assoc_remove(ks0, self.vals@, i as int);
                }
                let ghost gi = i as int;
                self.keys.remove(i);
                self.vals.remove(i);
                proof {
                    assert(self.key_seq() =~= ks0.remove(gi));
                    assert(self@ == m0.remove(key@));
                    assert forall|p: int, q: int|
                        0 <= p < q < self.keys@.len() implies self.keys@[p]@
                        != self.keys@[q]@ by {
                        let op: int = if p < gi { p } else { p + 1 };
                        let oq: int = if q < gi { q } else { q + 1 };
                        assert(self.keys@[p] == kv0[op]);
                        assert(self.keys@[q] == kv0[oq]);
                    }
                }
            },
            None => {},
        }
        let ghost m1 = self@;
        let ghost ks1 = self.key_seq();
        let ghost vs1 = self.vals@;
        let ghost kv1 = self.keys@;
        proof {
            assert(!self@.contains_key(key@));
            assert(!ks1.contains(key@)) by {
                lemma_assoc_contains(ks1, vs1, key@);
            }
            assert(forall|j: int| 0 <= j < kv1.len() ==> ks1[j] == kv1[j]@);
        }
        self.keys.push(key);
        self.vals.push(val);
        proof {
            assert(self.key_seq() =~= ks1.push(key@));
            assert(self.key_seq().drop_last() =~= ks1);
            assert(self.vals@.drop_last() =~= vs1);
            assert(self@ == m1.insert(key@, val));
            assert(m0.remove(key@).insert(key@, val) =~= m0.insert(key@, val));
            assert forall|p: int, q: int|
                0 <= p < q < self.keys@.len() implies self.keys@[p]@ != self.keys@[q]@ by {
                if q == self.keys@.len() - 1 {
                    assert(self.keys@[p] == kv1[p]);
                    assert(ks1[p] == kv1[p]@);
                    assert(ks1[p] != key@);
                } else {
                    assert(self.keys@[p] == kv1[p]);
                    assert(self.keys@[q] == kv1[q]);
                }
            }
        }
    }

    /// Removes the entry stored under `key`, if any.
    pub fn remove(&mut self, key: &K)
        requires
            old(self).wf(),
        ensures
            final(self).wf(),
            final(self)@ == old(self)@.remove(key@),
    {
        let ghost m0 = self@;
        match self.index_of(key) {
            Some(i) => {
                proof {
                    lemma_assoc_remove(self.key_seq(), self.vals@, i as int);
                }
                self.keys.remove(i);
                self.vals.remove(i);
                proof {
                    assert(self.key_seq() =~= old(self).key_seq().remove(i as int));
                }
            },
            None => {
                proof {
                    assert(m0.remove(key@) =~= m0);
                }
            },
        }
    }

    /// Number of entries stored.
    pub fn len(&self) -> (r: usize)
        requires
            self.wf(),
        ensures
            r == self@.dom().len(),
            self@.dom().finite(),
    {
        proof {
            lemma_assoc_len(self.key_seq(), self.vals@);
        }
        self.keys.len()
    }
}

} // verus!
