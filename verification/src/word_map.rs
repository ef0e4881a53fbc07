//! An insertion-ordered map from 32-byte keys to values.
//!
//! Keys are compared by content. No key occurs twice, so the map has a plain
//! mathematical reading as a `Map<Seq<u8>, V>`.
//!
//! The standard hash map is specified for the verifier only where its keys
//! are primitive integers; a key of 32 bytes is none, so the entries are kept
//! in a vector and looked up by scanning.

use vstd::prelude::*;

verus! {

/// Whether two byte arrays hold the same bytes.
pub fn bytes_equal<const N: usize>(a: &[u8; N], b: &[u8; N]) -> (same: bool)
    ensures
        same == (a@ == b@),
{
    let mut i: usize = 0;
    while i < N
        invariant
            i <= N,
            forall|j: int| 0 <= j < i ==> a@[j] == b@[j],
        decreases N - i,
    {
        if a[i] != b[i] {
            return false;
        }
        i += 1;
    }
    assert(a@ =~= b@);
    true
}

/// A map from 32-byte keys to `V`, kept in insertion order.
#[derive(Debug)]
pub struct WordMap<V> {
    keys: Vec<[u8; 32]>,
    values: Vec<V>,
}

impl<V> WordMap<V> {
    #[verifier::type_invariant]
    spec fn well_formed(&self) -> bool {
        &&& self.keys.len() == self.values.len()
        &&& forall|i: int, j: int|
            0 <= i < j < self.keys.len() ==> self.keys[i]@ != self.keys[j]@
    }

    /// Position of `key` among the stored keys, if it is stored.
    spec fn holds_at(&self, key: Seq<u8>, i: int) -> bool {
        0 <= i < self.keys.len() && self.keys[i]@ == key
    }

    /// The map this value stands for.
    pub closed spec fn view(&self) -> Map<Seq<u8>, V> {
        Map::new(
            |key: Seq<u8>| exists|i: int| self.holds_at(key, i),
            |key: Seq<u8>| self.values[choose|i: int| self.holds_at(key, i)],
        )
    }

    /// The keys in insertion order.
    pub closed spec fn key_seq(&self) -> Seq<Seq<u8>> {
        Seq::new(self.keys.len() as nat, |i: int| self.keys[i]@)
    }

    /// The map without entries.
    pub open spec fn empty_view() -> Map<Seq<u8>, V> {
        Map::empty()
    }

    /// An empty map.
    pub fn new() -> (map: Self)
        ensures
            map@ == Self::empty_view(),
            map.key_seq().len() == 0,
    {
        let map = WordMap { keys: Vec::new(), values: Vec::new() };
        assert(map@ =~= Self::empty_view());
        map
    }

    /// Number of entries. The keys in insertion order are exactly the keys
    /// of the map, each once.
    pub fn len(&self) -> (n: usize)
        ensures
            n == self.key_seq().len(),
            self.key_seq().no_duplicates(),
            forall|key: Seq<u8>| self@.contains_key(key) <==> self.key_seq().contains(key),
    {
        proof {
            use_type_invariant(self);
            assert forall|key: Seq<u8>| self@.contains_key(key) <==> self.key_seq().contains(
                key,
            ) by {
                if self@.contains_key(key) {
                    let i = choose|i: int| self.holds_at(key, i);
                    assert(self.key_seq()[i] == key);
                }
                if self.key_seq().contains(key) {
                    let i = choose|i: int| 0 <= i < self.key_seq().len() && self.key_seq()[i] == key;
                    assert(self.holds_at(key, i));
                }
            }
        }
        self.keys.len()
    }

    fn find(&self, key: &[u8; 32]) -> (found: Option<usize>)
        ensures
            match found {
                Some(i) => self.holds_at(key@, i as int),
                None => forall|i: int| !self.holds_at(key@, i),
            },
    {
        let mut i: usize = 0;
        while i < self.keys.len()
            invariant
                i <= self.keys.len(),
                forall|j: int| 0 <= j < i ==> self.keys[j]@ != key@,
            decreases self.keys.len() - i,
        {
            if bytes_equal(&self.keys[i], key) {
                return Some(i);
            }
            i += 1;
        }
        None
    }

    /// The value stored under `key`, if any.
    pub fn get(&self, key: &[u8; 32]) -> (found: Option<&V>)
        ensures
            match found {
                Some(value) => self@.contains_key(key@) && *value == self@[key@],
                None => !self@.contains_key(key@),
            },
    {
        proof {
            use_type_invariant(self);
        }
        match self.find(key) {
            Some(i) => {
                assert(self.holds_at(key@, i as int));
                let ghost chosen = choose|j: int| self.holds_at(key@, j);
                assert(chosen == i);
                Some(&self.values[i])
            },
            None => None,
        }
    }

    /// Whether `key` has an entry.
    pub fn contains_key(&self, key: &[u8; 32]) -> (present: bool)
        ensures
            present == self@.contains_key(key@),
    {
        match self.find(key) {
            Some(_) => true,
            None => false,
        }
    }

    /// Stores `value` under `key` and hands back what was stored there before.
    /// A key that was present keeps its place in the order; a new one goes
    /// to the end.
    pub fn insert(&mut self, key: [u8; 32], value: V) -> (previous: Option<V>)
        ensures
            final(self)@ == old(self)@.insert(key@, value),
            match previous {
                Some(earlier) => old(self)@.contains_key(key@) && earlier == old(self)@[key@],
                None => !old(self)@.contains_key(key@),
            },
            old(self)@.contains_key(key@) ==> final(self).key_seq() == old(self).key_seq(),
            !old(self)@.contains_key(key@) ==> final(self).key_seq() == old(self).key_seq().push(
                key@,
            ),
    {
        proof {
            use_type_invariant(&*self);
        }
        let found = self.find(&key);
        let mut taken = WordMap { keys: Vec::new(), values: Vec::new() };
        core::mem::swap(self, &mut taken);
        let WordMap { mut keys, mut values } = taken;
        match found {
            Some(i) => {
                assert(old(self).holds_at(key@, i as int));
                assert((choose|j: int| old(self).holds_at(key@, j)) == i);
                values.push(value);
                let earlier = values.swap_remove(i);
                assert(values@ =~= old(self).values@.update(i as int, value));
                *self = WordMap { keys, values };
                assert forall|k: Seq<u8>, j: int| self.holds_at(k, j) == old(self).holds_at(
                    k,
                    j,
                ) by {}
                assert(self@ =~= old(self)@.insert(key@, value)) by {
                    assert forall|k: Seq<u8>| #[trigger] self@.contains_key(k) implies self@[k]
                        == old(self)@.insert(key@, value)[k] by {
                        let j = choose|j: int| self.holds_at(k, j);
                        assert(old(self).holds_at(k, j));
                        if k == key@ {
                            assert(j == i);
                        }
                    }
                }
                assert(self.key_seq() =~= old(self).key_seq());
                Some(earlier)
            },
            None => {
                keys.push(key);
                values.push(value);
                let ghost last = old(self).keys.len() as int;
                assert forall|i: int, j: int| 0 <= i < j < keys.len() implies keys[i]@
                    != keys[j]@ by {
                    if j == last {
                        assert(!old(self).holds_at(key@, i));
                    }
                }
                *self = WordMap { keys, values };
                assert forall|k: Seq<u8>, j: int| self.holds_at(k, j) == (old(self).holds_at(k, j)
                    || (j == last && k == key@)) by {}
                assert(self.holds_at(key@, last));
                assert(self@ =~= old(self)@.insert(key@, value)) by {
                    assert forall|k: Seq<u8>| #[trigger] self@.contains_key(k) implies self@[k]
                        == old(self)@.insert(key@, value)[k] by {
                        let j = choose|j: int| self.holds_at(k, j);
                        if k == key@ {
                            assert(j == last);
                        } else {
                            assert(old(self).holds_at(k, j));
                            let j0 = choose|j: int| old(self).holds_at(k, j);
                            assert(j0 == j);
                        }
                    }
                }
                assert(self.key_seq() =~= old(self).key_seq().push(key@));
                None
            },
        }
    }

    /// The key of the `i`-th entry in insertion order.
    pub fn key_at(&self, i: usize) -> (key: &[u8; 32])
        requires
            i < self.key_seq().len(),
        ensures
            key@ == self.key_seq()[i as int],
            self@.contains_key(key@),
    {
        assert(self.holds_at(self.keys[i as int]@, i as int));
        &self.keys[i]
    }

    /// The value of the `i`-th entry in insertion order.
    pub fn value_at(&self, i: usize) -> (value: &V)
        requires
            i < self.key_seq().len(),
        ensures
            *value == self@[self.key_seq()[i as int]],
    {
        proof {
            use_type_invariant(self);
            let k = self.keys[i as int]@;
            assert(self.holds_at(k, i as int));
            let j = choose|j: int| self.holds_at(k, j);
            assert(j == i);
        }
        &self.values[i]
    }
}

impl<V: Clone> Clone for WordMap<V> {
    /// A copy with the same keys in the same order, each value cloned.
    fn clone(&self) -> (copy: Self)
        ensures
            copy.key_seq() == self.key_seq(),
            copy@.dom() == self@.dom(),
    {
        proof {
            use_type_invariant(self);
        }
        let mut keys: Vec<[u8; 32]> = Vec::new();
        let mut values: Vec<V> = Vec::new();
        let mut i: usize = 0;
        while i < self.keys.len()
            invariant
                i <= self.keys.len(),
                self.keys.len() == self.values.len(),
                keys.len() == i,
                values.len() == i,
                forall|j: int| 0 <= j < i ==> keys[j] == self.keys[j],
            decreases self.keys.len() - i,
        {
            keys.push(self.keys[i]);
            values.push(self.values[i].clone());
            i += 1;
        }
        let copy = WordMap { keys, values };
        assert(copy.key_seq() =~= self.key_seq());
        assert forall|key: Seq<u8>, j: int| copy.holds_at(key, j) == self.holds_at(key, j) by {}
        assert(copy@.dom() =~= self@.dom());
        copy
    }
}

} // verus!
