//! An insertion-ordered map keyed by strings.

use vstd::prelude::*;

verus! {

/// `str` equality of the standard library: two string slices are equal
/// exactly when they hold the same characters.
pub assume_specification[ <str as PartialEq>::eq ](a: &str, b: &str) -> (r: bool)
    ensures
        r == (a@ == b@),
;

/// A map from strings to values that remembers the order in which its keys
/// were first inserted.
///
/// The model is a pair of sequences of equal length, `keys()` and
/// `values()`, in which no key occurs twice; the view is the finite map they
/// describe.
#[derive(Debug)]
pub struct StringMap<V> {
    names: Vec<String>,
    items: Vec<V>,
}

/// Position of `key` among `keys`, or `keys.len()` when it is absent.
pub open spec fn position(keys: Seq<Seq<char>>, key: Seq<char>) -> int
    decreases keys.len(),
{
    if keys.len() == 0 {
        0
    } else if keys.first() == key {
        0
    } else {
        1 + position(keys.drop_first(), key)
    }
}

/// `position` finds the first occurrence of a key, and only that.
pub proof fn lemma_position(keys: Seq<Seq<char>>, key: Seq<char>)
    ensures
        0 <= position(keys, key) <= keys.len(),
        position(keys, key) < keys.len() ==> keys[position(keys, key)] == key,
        forall|i: int| 0 <= i < position(keys, key) ==> keys[i] != key,
        keys.contains(key) <==> position(keys, key) < keys.len(),
    decreases keys.len(),
{
    if keys.len() == 0 {
    } else if keys.first() == key {
        assert(keys[0] == key);
    } else {
        let rest = keys.drop_first();
        lemma_position(rest, key);
        let p = position(rest, key);
        assert forall|i: int| 0 <= i < 1 + p implies keys[i] != key by {
            if i > 0 {
                assert(keys[i] == rest[i - 1]);
            }
        }
        if p < rest.len() {
            assert(keys[p + 1] == rest[p]);
        }
        if keys.contains(key) {
            let j = choose|j: int| 0 <= j < keys.len() && keys[j] == key;
            assert(rest[j - 1] == key);
        }
    }
}

/// In a sequence without duplicates a key sits at exactly one position.
pub proof fn lemma_position_unique(keys: Seq<Seq<char>>, i: int)
    requires
        keys.no_duplicates(),
        0 <= i < keys.len(),
    ensures
        position(keys, keys[i]) == i,
{
    lemma_position(keys, keys[i]);
}

/// The keys of a map after `key` has been stored: a new key goes to the
/// end, a known key stays where it is.
pub open spec fn keys_with(keys: Seq<Seq<char>>, key: Seq<char>) -> Seq<Seq<char>> {
    if keys.contains(key) {
        keys
    } else {
        keys.push(key)
    }
}

/// The values of a map after `value` has been stored under `key`.
pub open spec fn values_with<V>(keys: Seq<Seq<char>>, values: Seq<V>, key: Seq<char>, value: V) -> Seq<V> {
    if keys.contains(key) {
        values.update(position(keys, key), value)
    } else {
        values.push(value)
    }
}

impl<V> View for StringMap<V> {
    type V = Map<Seq<char>, V>;

    open spec fn view(&self) -> Map<Seq<char>, V> {
        Map::new(
            |k: Seq<char>| self.keys().contains(k),
            |k: Seq<char>| self.values()[position(self.keys(), k)],
        )
    }
}

impl<V: Clone> Clone for StringMap<V> {
    /// A map with the same keys in the same order, each with a clone of its
    /// value.
    fn clone(&self) -> (r: Self)
        ensures
            r.keys() == self.keys(),
            r.values().len() == self.values().len(),
            forall|i: int|
                0 <= i < self.values().len() ==> cloned::<V>(
                    #[trigger] self.values()[i],
                    r.values()[i],
                ),
    {
        proof {
            use_type_invariant(self);
        }
        let mut names: Vec<String> = Vec::new();
        let mut i: usize = 0;
        while i < self.names.len()
            invariant
                i <= self.names.len(),
                names@ == self.names@.take(i as int),
            decreases self.names.len() - i,
        {
            names.push(self.names[i].clone());
            i += 1;
            assert(self.names@.take(i as int) =~= self.names@.take(i - 1).push(
                self.names@[i - 1],
            ));
        }
        assert(self.names@.take(self.names.len() as int) =~= self.names@);
        assert(names.deep_view() =~= self.names.deep_view());
        let items = self.items.clone();
        StringMap { names, items }
    }
}

impl<V> StringMap<V> {
    /// As many values as keys, and no key twice. Every map is in this
    /// shape at all times.
    #[verifier::type_invariant]
    pub closed spec fn shaped(&self) -> bool {
        &&& self.names.len() == self.items.len()
        &&& self.names.deep_view().no_duplicates()
    }

    /// The keys, in the order of their first insertion.
    pub closed spec fn keys(&self) -> Seq<Seq<char>> {
        self.names.deep_view()
    }

    /// The values, each at the position of its key.
    pub closed spec fn values(&self) -> Seq<V> {
        self.items@
    }

    /// What the shape of a map says about its keys, values and view.
    pub proof fn lemma_shape(&self)
        requires
            self.shaped(),
        ensures
            self.keys().len() == self.values().len(),
            self.keys().no_duplicates(),
            self@.dom().finite(),
            self@.dom().len() == self.keys().len(),
            forall|i: int|
                0 <= i < self.keys().len() ==> self@.contains_key(#[trigger] self.keys()[i])
                    && self@[self.keys()[i]] == self.values()[i],
    {
        let keys = self.keys();
        assert(self@.dom() =~= keys.to_set()) by {
            assert forall|k: Seq<char>| self@.dom().contains(k) <==> keys.to_set().contains(
                k,
            ) by {
                assert(keys.to_set().contains(k) <==> keys.contains(k));
            }
        }
        keys.unique_seq_to_set();
        vstd::seq_lib::seq_to_set_is_finite(keys);
        assert forall|i: int| 0 <= i < keys.len() implies self@.contains_key(#[trigger] keys[i])
            && self@[keys[i]] == self.values()[i] by {
            lemma_position_unique(keys, i);
        }
    }

    /// Moves both vectors out and leaves the map empty.
    fn take_parts(&mut self) -> (parts: (Vec<String>, Vec<V>))
        ensures
            parts.0 == old(self).names,
            parts.1 == old(self).items,
            final(self).names@ == Seq::<String>::empty(),
            final(self).items@ == Seq::<V>::empty(),
    {
        let mut taken = StringMap { names: Vec::new(), items: Vec::new() };
        assert(taken.names.deep_view() =~= Seq::<Seq<char>>::empty());
        core::mem::swap(self, &mut taken);
        let StringMap { names, items } = taken;
        (names, items)
    }

    /// An empty map.
    pub fn new() -> (m: Self)
        ensures
            m.keys() == Seq::<Seq<char>>::empty(),
            m.values() == Seq::<V>::empty(),
            m@ == Map::<Seq<char>, V>::empty(),
    {
        let m = StringMap { names: Vec::new(), items: Vec::new() };
        assert(m.names.deep_view() =~= Seq::<Seq<char>>::empty());
        assert(m@ =~= Map::<Seq<char>, V>::empty());
        m
    }

    /// Number of entries.
    pub fn len(&self) -> (n: usize)
        ensures
            self.shaped(),
            n == self.keys().len(),
            n == self@.dom().len(),
    {
        proof {
            use_type_invariant(self);
            self.lemma_shape();
        }
        self.names.len()
    }

    /// Whether the map has no entry.
    pub fn is_empty(&self) -> (b: bool)
        ensures
            b == (self.keys().len() == 0),
            b == (self@ == Map::<Seq<char>, V>::empty()),
    {
        proof {
            use_type_invariant(self);
            self.lemma_shape();
            if self.keys().len() == 0 {
                assert(self@ =~= Map::<Seq<char>, V>::empty());
            } else {
                assert(self@.contains_key(self.keys()[0]));
            }
        }
        self.names.len() == 0
    }

    /// Where `key` sits, if it is present.
    pub fn find(&self, key: &str) -> (r: Option<usize>)
        ensures
            match r {
                Some(i) => i < self.keys().len() && self.keys()[i as int] == key@ && i
                    == position(self.keys(), key@),
                None => !self.keys().contains(key@) && !self@.contains_key(key@),
            },
    {
        proof {
            use_type_invariant(self);
        }
        let n = self.names.len();
        let mut i: usize = 0;
        while i < n
            invariant
                i <= n,
                n == self.names.len(),
                forall|j: int| 0 <= j < i ==> self.keys()[j] != key@,
                self.keys().len() == n,
            decreases n - i,
        {
            assert(self.keys()[i as int] == self.names[i as int]@);
            if *self.names[i].as_str() == *key {
                proof {
                    lemma_position(self.keys(), key@);
                }
                return Some(i);
            }
            i += 1;
        }
        None
    }

    /// Whether `key` is present.
    pub fn contains_key(&self, key: &str) -> (b: bool)
        ensures
            b == self@.contains_key(key@),
    {
        self.find(key).is_some()
    }

    /// The value stored under `key`.
    pub fn get(&self, key: &str) -> (r: Option<&V>)
        ensures
            match r {
                Some(v) => self@.contains_key(key@) && *v == self@[key@],
                None => !self@.contains_key(key@),
            },
    {
        proof {
            use_type_invariant(self);
        }
        match self.find(key) {
            Some(i) => Some(&self.items[i]),
            None => None,
        }
    }

    /// The key at position `i`.
    pub fn key_at(&self, i: usize) -> (k: &String)
        requires
            i < self.keys().len(),
        ensures
            k@ == self.keys()[i as int],
    {
        &self.names[i]
    }

    /// The value at position `i`.
    pub fn value_at(&self, i: usize) -> (v: &V)
        requires
            i < self.keys().len(),
        ensures
            *v == self.values()[i as int],
    {
        proof {
            use_type_invariant(self);
        }
        &self.items[i]
    }

    /// Stores `value` under `key`. A key that is already present keeps its
    /// position and has its value replaced; the replaced value is returned.
    pub fn insert(&mut self, key: String, value: V) -> (previous: Option<V>)
        ensures
            final(self)@ == old(self)@.insert(key@, value),
            previous == if old(self)@.contains_key(key@) {
                Some(old(self)@[key@])
            } else {
                None
            },
            final(self).keys() == keys_with(old(self).keys(), key@),
            final(self).values() == values_with(old(self).keys(), old(self).values(), key@, value),
    {
        proof {
            use_type_invariant(&*self);
            self.lemma_shape();
        }
        let ghost before = *self;
        let found = self.find(key.as_str());
        let (mut names, mut items) = self.take_parts();
        match found {
            Some(i) => {
                items.push(value);
                let previous = items.swap_remove(i);
                *self = StringMap { names, items };
                proof {
                    assert(self.items@ =~= before.items@.update(i as int, value));
                    assert(self.keys() == before.keys());
                    assert(self@ =~= before@.insert(key@, value)) by {
                        assert forall|k: Seq<char>| self@.contains_key(k) implies self@[k]
                            == before@.insert(key@, value)[k] by {
                            lemma_position(before.keys(), k);
                        }
                    }
                }
                Some(previous)
            },
            None => {
                names.push(key);
                items.push(value);
                proof {
                    let keys = before.keys();
                    lemma_position(keys, key@);
                    assert(names.deep_view() =~= keys.push(key@));
                    assert(keys.push(key@).no_duplicates());
                }
                *self = StringMap { names, items };
                proof {
                    let keys = before.keys();
                    assert(self.keys() == keys.push(key@));
                    assert forall|k: Seq<char>|
                        self.keys().contains(k) <==> (k == key@ || keys.contains(k)) by {
                        if keys.contains(k) {
                            let j = choose|j: int| 0 <= j < keys.len() && keys[j] == k;
                            assert(self.keys()[j] == k);
                        }
                        if k == key@ {
                            assert(self.keys()[keys.len() as int] == k);
                        }
                    }
                    assert(self@ =~= before@.insert(key@, value)) by {
                        assert forall|k: Seq<char>| self@.contains_key(k) implies self@[k]
                            == before@.insert(key@, value)[k] by {
                            lemma_position(self.keys(), k);
                            lemma_position(keys, k);
                            let p = position(self.keys(), k);
                            if k == key@ {
                                lemma_position_unique(self.keys(), keys.len() as int);
                            } else {
                                let q = position(keys, k);
                                assert(self.keys()[q] == k);
                                lemma_position_unique(self.keys(), q);
                            }
                        }
                    }
                }
                None
            },
        }
    }

    /// Removes `key` and returns its value. The other entries keep their
    /// order.
    pub fn remove(&mut self, key: &str) -> (removed: Option<V>)
        ensures
            final(self)@ == old(self)@.remove(key@),
            removed == if old(self)@.contains_key(key@) {
                Some(old(self)@[key@])
            } else {
                None
            },
            old(self)@.contains_key(key@) ==> final(self).keys() == old(self).keys().remove(
                position(old(self).keys(), key@),
            ) && final(self).values() == old(self).values().remove(
                position(old(self).keys(), key@),
            ),
            !old(self)@.contains_key(key@) ==> final(self).keys() == old(self).keys()
                && final(self).values() == old(self).values(),
    {
        proof {
            use_type_invariant(&*self);
            self.lemma_shape();
        }
        let ghost before = *self;
        match self.find(key) {
            Some(i) => {
                let (mut names, mut items) = self.take_parts();
                names.remove(i);
                let removed = items.remove(i);
                proof {
                    let keys = before.keys();
                    let now = keys.remove(i as int);
                    assert(names.deep_view() =~= now);
                    assert(now.no_duplicates()) by {
                        assert forall|a: int, b: int|
                            0 <= a < now.len() && 0 <= b < now.len() && a != b implies now[a]
                            != now[b] by {
                            let a2 = if a < i { a } else { a + 1 };
                            let b2 = if b < i { b } else { b + 1 };
                            assert(now[a] == keys[a2]);
                            assert(now[b] == keys[b2]);
                        }
                    }
                }
                *self = StringMap { names, items };
                proof {
                    let keys = before.keys();
                    let now = keys.remove(i as int);
                    assert(self.keys() == now);
                    assert forall|k: Seq<char>| now.contains(k) <==> (k != key@ && keys.contains(
                        k,
                    )) by {
                        if now.contains(k) {
                            let a = choose|a: int| 0 <= a < now.len() && now[a] == k;
                            let a2 = if a < i { a } else { a + 1 };
                            assert(keys[a2] == k);
                        }
                        if k != key@ && keys.contains(k) {
                            let j = choose|j: int| 0 <= j < keys.len() && keys[j] == k;
                            let j2 = if j < i { j } else { j - 1 };
                            assert(now[j2] == k);
                        }
                    }
                    assert(self@ =~= before@.remove(key@)) by {
                        assert forall|k: Seq<char>| self@.contains_key(k) implies self@[k]
                            == before@.remove(key@)[k] by {
                            lemma_position(now, k);
                            lemma_position(keys, k);
                            let q = position(keys, k);
                            let q2 = if q < i { q } else { q - 1 };
                            assert(now[q2] == k);
                            lemma_position_unique(now, q2);
                        }
                    }
                }
                Some(removed)
            },
            None => {
                assert(self@ =~= before@.remove(key@));
                None
            },
        }
    }

    /// Removes every entry.
    pub fn clear(&mut self)
        ensures
            final(self).keys() == Seq::<Seq<char>>::empty(),
            final(self).values() == Seq::<V>::empty(),
            final(self)@ == Map::<Seq<char>, V>::empty(),
    {
        *self = StringMap::new();
        assert(self.names.deep_view() =~= Seq::<Seq<char>>::empty());
        assert(self@ =~= Map::<Seq<char>, V>::empty());
    }
}

} // verus!
