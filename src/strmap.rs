//! A small map from string keys to values.
//!
//! Entries are kept in two parallel vectors in the order in which their keys were first
//! inserted; the keys are unique.  The map's view is a `Map` from the keys'
//! character sequences to the values, and `entries` exposes the stored order
//! for contracts that depend on it.
//!
//! vstd models `HashMap` only for keys such as integers whose hashing it
//! specifies, not for `String`, so string-keyed maps are kept here instead.
use vstd::prelude::*;

verus! {

/// A map from strings to values with unique keys, kept in insertion order.
#[derive(Debug)]
pub struct StrMap<V> {
    keys: Vec<String>,
    vals: Vec<V>,
}

/// The key sequence of a list of entries.
pub open spec fn keys_of<V>(es: Seq<(Seq<char>, V)>) -> Seq<Seq<char>> {
    es.map_values(|e: (Seq<char>, V)| e.0)
}

/// True when no two entries share a key.
pub open spec fn unique_keys<V>(es: Seq<(Seq<char>, V)>) -> bool {
    forall|i: int, j: int|
        0 <= i < es.len() && 0 <= j < es.len() && i != j ==> #[trigger] es[i].0 != #[trigger] es[j].0
}

/// The map that a list of entries with unique keys denotes.
pub open spec fn map_of<V>(es: Seq<(Seq<char>, V)>) -> Map<Seq<char>, V> {
    Map::new(
        |k: Seq<char>| exists|i: int| 0 <= i < es.len() && #[trigger] es[i].0 == k,
        |k: Seq<char>| es[choose|i: int| 0 <= i < es.len() && #[trigger] es[i].0 == k].1,
    )
}

/// Each stored entry is found in the map that the entries denote.
pub proof fn lemma_map_of_entry<V>(es: Seq<(Seq<char>, V)>, i: int)
    requires
        unique_keys(es),
        0 <= i < es.len(),
    ensures
        map_of(es).contains_key(es[i].0),
        map_of(es)[es[i].0] == es[i].1,
{
    let k = es[i].0;
    assert(exists|j: int| 0 <= j < es.len() && #[trigger] es[j].0 == k);
    let j = choose|j: int| 0 <= j < es.len() && #[trigger] es[j].0 == k;
    assert(j == i);
}

/// A key that no entry holds is not in the map.
pub proof fn lemma_map_of_absent<V>(es: Seq<(Seq<char>, V)>, k: Seq<char>)
    requires
        forall|i: int| 0 <= i < es.len() ==> #[trigger] es[i].0 != k,
    ensures
        !map_of(es).contains_key(k),
{
}

/// Each stored key is in the map's domain.
pub proof fn lemma_keys_in_map<V>(es: Seq<(Seq<char>, V)>, i: int)
    requires
        0 <= i < es.len(),
    ensures
        map_of(es).contains_key(es[i].0),
{
    assert(es[i].0 == es[i].0);
}

/// The map of entries with unique keys has as many keys as there are entries.
pub proof fn lemma_map_of_len<V>(es: Seq<(Seq<char>, V)>)
    requires
        unique_keys(es),
    ensures
        map_of(es).len() == es.len(),
{
    let ks = keys_of(es);
    assert(ks.no_duplicates()) by {
        assert forall|i: int, j: int| 0 <= i < ks.len() && 0 <= j < ks.len() && i != j implies ks[i]
            != ks[j] by {
            assert(es[i].0 != es[j].0);
        }
    }
    ks.unique_seq_to_set();
    assert(map_of(es).dom() =~= ks.to_set()) by {
        assert forall|k: Seq<char>| map_of(es).dom().contains(k) implies ks.to_set().contains(k) by {
            let i = choose|i: int| 0 <= i < es.len() && #[trigger] es[i].0 == k;
            assert(ks[i] == k);
        }
        assert forall|k: Seq<char>| ks.to_set().contains(k) implies map_of(es).dom().contains(k) by {
            let i = choose|i: int| 0 <= i < ks.len() && ks[i] == k;
            assert(es[i].0 == k);
        }
    }
}

/// Appending an entry under a new key inserts it into the map.
pub proof fn lemma_map_of_push<V>(es: Seq<(Seq<char>, V)>, k: Seq<char>, v: V)
    requires
        unique_keys(es),
        forall|i: int| 0 <= i < es.len() ==> #[trigger] es[i].0 != k,
    ensures
        unique_keys(es.push((k, v))),
        map_of(es.push((k, v))) == map_of(es).insert(k, v),
{
    let after = es.push((k, v));
    assert forall|a: int, b: int| 0 <= a < after.len() && 0 <= b < after.len() && a != b implies #[trigger] after[a].0
        != #[trigger] after[b].0 by {
        if a < es.len() && b < es.len() {
            assert(es[a].0 != es[b].0);
        } else if a < es.len() {
            assert(es[a].0 != k);
        } else {
            assert(es[b].0 != k);
        }
    }
    assert forall|q: Seq<char>| #[trigger] map_of(after).contains_key(q) == map_of(es).insert(k, v).contains_key(q)
        && (map_of(after).contains_key(q) ==> map_of(after)[q] == map_of(es).insert(k, v)[q]) by {
        if map_of(after).contains_key(q) {
            let j = choose|j: int| 0 <= j < after.len() && #[trigger] after[j].0 == q;
            lemma_map_of_entry(after, j);
            if j < es.len() {
                lemma_map_of_entry(es, j);
            }
        }
        if map_of(es).contains_key(q) {
            let j = choose|j: int| 0 <= j < es.len() && #[trigger] es[j].0 == q;
            assert(after[j].0 == q);
        }
        if q == k {
            assert(after[es.len() as int].0 == q);
        }
    }
    assert(map_of(after) =~= map_of(es).insert(k, v));
}

/// Replacing the value of an entry inserts the new value under its key.
pub proof fn lemma_map_of_update<V>(es: Seq<(Seq<char>, V)>, i: int, v: V)
    requires
        unique_keys(es),
        0 <= i < es.len(),
    ensures
        unique_keys(es.update(i, (es[i].0, v))),
        map_of(es.update(i, (es[i].0, v))) == map_of(es).insert(es[i].0, v),
{
    let k = es[i].0;
    let after = es.update(i, (k, v));
    assert forall|a: int, b: int| 0 <= a < after.len() && 0 <= b < after.len() && a != b implies #[trigger] after[a].0
        != #[trigger] after[b].0 by {
        assert(es[a].0 != es[b].0);
    }
    assert forall|q: Seq<char>| #[trigger] map_of(after).contains_key(q) == map_of(es).insert(k, v).contains_key(q)
        && (map_of(after).contains_key(q) ==> map_of(after)[q] == map_of(es).insert(k, v)[q]) by {
        if map_of(after).contains_key(q) {
            let j = choose|j: int| 0 <= j < after.len() && #[trigger] after[j].0 == q;
            lemma_map_of_entry(after, j);
            if j != i {
                lemma_map_of_entry(es, j);
            }
        }
        if map_of(es).contains_key(q) {
            let j = choose|j: int| 0 <= j < es.len() && #[trigger] es[j].0 == q;
            assert(after[j].0 == q);
        }
        if q == k {
            assert(after[i].0 == q);
        }
    }
    assert(map_of(after) =~= map_of(es).insert(k, v));
}

/// Deleting an entry removes its key from the map.
pub proof fn lemma_map_of_remove<V>(es: Seq<(Seq<char>, V)>, i: int)
    requires
        unique_keys(es),
        0 <= i < es.len(),
    ensures
        unique_keys(es.remove(i)),
        map_of(es.remove(i)) == map_of(es).remove(es[i].0),
{
    let k = es[i].0;
    let after = es.remove(i);
    assert forall|a: int, b: int| 0 <= a < after.len() && 0 <= b < after.len() && a != b implies #[trigger] after[a].0
        != #[trigger] after[b].0 by {
        let a2 = if a < i { a } else { a + 1 };
        let b2 = if b < i { b } else { b + 1 };
        assert(after[a] == es[a2]);
        assert(after[b] == es[b2]);
        assert(es[a2].0 != es[b2].0);
    }
    assert forall|q: Seq<char>| #[trigger] map_of(after).contains_key(q) == map_of(es).remove(k).contains_key(q)
        && (map_of(after).contains_key(q) ==> map_of(after)[q] == map_of(es).remove(k)[q]) by {
        if map_of(after).contains_key(q) {
            let j = choose|j: int| 0 <= j < after.len() && #[trigger] after[j].0 == q;
            lemma_map_of_entry(after, j);
            let j2 = if j < i { j } else { j + 1 };
            assert(after[j] == es[j2]);
            lemma_map_of_entry(es, j2);
            assert(j2 != i);
            assert(es[j2].0 != es[i].0);
        }
        if map_of(es).contains_key(q) && q != k {
            let j = choose|j: int| 0 <= j < es.len() && #[trigger] es[j].0 == q;
            assert(j != i);
            let j2 = if j < i { j } else { j - 1 };
            assert(after[j2] == es[j]);
        }
    }
    assert(map_of(after) =~= map_of(es).remove(k));
}

/// The entries that parallel key and value vectors hold.
spec fn zip_entries<V>(keys: Seq<String>, vals: Seq<V>) -> Seq<(Seq<char>, V)> {
    Seq::new(keys.len(), |i: int| (keys[i]@, vals[i]))
}

/// True when no two strings of `keys` are equal.
spec fn distinct_strings(keys: Seq<String>) -> bool {
    forall|i: int, j: int|
        0 <= i < keys.len() && 0 <= j < keys.len() && i != j ==> #[trigger] keys[i]@ != #[trigger] keys[j]@
}

proof fn lemma_zip_unique<V>(keys: Seq<String>, vals: Seq<V>)
    ensures
        distinct_strings(keys) <==> unique_keys(zip_entries(keys, vals)),
{
    let es = zip_entries(keys, vals);
    if distinct_strings(keys) {
        assert forall|a: int, b: int| 0 <= a < es.len() && 0 <= b < es.len() && a != b implies #[trigger] es[a].0
            != #[trigger] es[b].0 by {
            assert(keys[a]@ != keys[b]@);
        }
    }
    if unique_keys(es) {
        assert forall|a: int, b: int| 0 <= a < keys.len() && 0 <= b < keys.len() && a != b implies #[trigger] keys[a]@
            != #[trigger] keys[b]@ by {
            assert(es[a].0 != es[b].0);
        }
    }
}

impl<V> StrMap<V> {
    #[verifier::type_invariant]
    spec fn well_formed(&self) -> bool {
        &&& self.keys@.len() == self.vals@.len()
        &&& distinct_strings(self.keys@)
    }

    proof fn lemma_unique(&self)
        requires
            self.well_formed(),
        ensures
            unique_keys(self.entries()),
            self.entries().len() == self.keys@.len(),
    {
        lemma_zip_unique(self.keys@, self.vals@);
    }

    /// The entries, as key sequences and values, in stored order.
    pub closed spec fn entries(&self) -> Seq<(Seq<char>, V)> {
        zip_entries(self.keys@, self.vals@)
    }

    /// The map from keys to values.
    pub open spec fn view(&self) -> Map<Seq<char>, V> {
        map_of(self.entries())
    }

    /// An empty map.
    pub fn new() -> (r: Self)
        ensures
            r.entries() == Seq::<(Seq<char>, V)>::empty(),
            r@ == Map::<Seq<char>, V>::empty(),
    {
        let r = StrMap { keys: Vec::new(), vals: Vec::new() };
        assert(r.entries() =~= Seq::<(Seq<char>, V)>::empty());
        assert(r@ =~= Map::<Seq<char>, V>::empty());
        r
    }

    /// The number of entries.
    pub fn len(&self) -> (r: usize)
        ensures
            r == self.entries().len(),
            r == self@.len(),
    {
        proof {
            use_type_invariant(self);
            self.lemma_unique();
            lemma_map_of_len(self.entries());
        }
        self.keys.len()
    }

    /// True when the map holds no entry.
    pub fn is_empty(&self) -> (r: bool)
        ensures
            r == (self@.len() == 0),
            r == (self.entries().len() == 0),
    {
        self.len() == 0
    }

    /// The position of `key`, if it is stored.
    pub fn find(&self, key: &str) -> (r: Option<usize>)
        ensures
            match r {
                Some(i) => i < self.entries().len() && self.entries()[i as int].0 == key@
                    && self@.contains_key(key@) && self@[key@] == self.entries()[i as int].1,
                None => !self@.contains_key(key@) && forall|i: int|
                    0 <= i < self.entries().len() ==> #[trigger] self.entries()[i].0 != key@,
            },
    {
        proof {
            use_type_invariant(self);
            self.lemma_unique();
        }
        let k = key.to_owned();
        let mut i: usize = 0;
        let ghost es = self.entries();
        while i < self.keys.len()
            invariant
                i <= self.keys@.len(),
                self.keys@.len() == self.entries().len(),
                k@ == key@,
                es == self.entries(),
                unique_keys(es),
                forall|j: int| 0 <= j < i ==> #[trigger] self.entries()[j].0 != key@,
            decreases self.keys@.len() - i,
        {
            if self.keys[i] == k {
                proof {
                    lemma_map_of_entry(es, i as int);
                }
                return Some(i);
            }
            i += 1;
        }
        proof {
            lemma_map_of_absent(self.entries(), key@);
        }
        None
    }

    /// True when `key` is stored.
    pub fn contains_key(&self, key: &str) -> (r: bool)
        ensures
            r == self@.contains_key(key@),
    {
        proof {
            use_type_invariant(self);
            self.lemma_unique();
        }
        match self.find(key) {
            Some(i) => {
                proof {
                    lemma_map_of_entry(self.entries(), i as int);
                }
                true
            },
            None => false,
        }
    }

    /// The value stored under `key`.
    pub fn get(&self, key: &str) -> (r: Option<&V>)
        ensures
            r is Some == self@.contains_key(key@),
            r matches Some(v) ==> *v == self@[key@],
    {
        proof {
            use_type_invariant(self);
            self.lemma_unique();
        }
        match self.find(key) {
            Some(i) => {
                proof {
                    lemma_map_of_entry(self.entries(), i as int);
                }
                Some(&self.vals[i])
            },
            None => None,
        }
    }

    /// The key stored at position `i`.
    pub fn key_at(&self, i: usize) -> (r: &String)
        requires
            i < self.entries().len(),
        ensures
            r@ == self.entries()[i as int].0,
    {
        proof {
            use_type_invariant(self);
            self.lemma_unique();
        }
        &self.keys[i]
    }

    /// The value stored at position `i`.
    pub fn value_at(&self, i: usize) -> (r: &V)
        requires
            i < self.entries().len(),
        ensures
            *r == self.entries()[i as int].1,
    {
        proof {
            use_type_invariant(self);
            self.lemma_unique();
        }
        &self.vals[i]
    }

    /// The value stored at position `i`, for changing it in place.
    pub fn value_mut_at(&mut self, i: usize) -> (r: &mut V)
        requires
            i < old(self).entries().len(),
        ensures
            *r == old(self).entries()[i as int].1,
            final(self).entries() == old(self).entries().update(
                i as int,
                (old(self).entries()[i as int].0, *final(r)),
            ),
            final(self)@ == old(self)@.insert(old(self).entries()[i as int].0, *final(r)),
    {
        proof {
            use_type_invariant(&*self);
            self.lemma_unique();
        }
        let ghost before = self.entries();
        let r = &mut self.vals[i];
        proof {
            lemma_map_of_update(before, i as int, *final(r));
        }
        r
    }

    /// Stores `value` under `key`, replacing the value that was there; a new
    /// key goes after the existing ones.  Returns the value that was replaced.
    pub fn insert(&mut self, key: String, value: V) -> (r: Option<V>)
        ensures
            final(self)@ == old(self)@.insert(key@, value),
            old(self)@.contains_key(key@) ==> r == Some(old(self)@[key@]),
            !old(self)@.contains_key(key@) ==> r is None,
            final(self).entries().len() == old(self).entries().len() + if old(self)@.contains_key(key@) {
                0int
            } else {
                1int
            },
    {
        proof {
            use_type_invariant(&*self);
            self.lemma_unique();
        }
        let ghost before = self.entries();
        let found = self.find(key.as_str());
        let mut parts = StrMap::new();
        std::mem::swap(self, &mut parts);
        let StrMap { mut keys, mut vals } = parts;
        match found {
            Some(i) => {
                proof {
                    lemma_map_of_entry(before, i as int);
                    lemma_map_of_update(before, i as int, value);
                }
                let mut replaced = value;
                std::mem::swap(&mut vals[i], &mut replaced);
                proof {
                    assert(zip_entries(keys@, vals@) =~= before.update(i as int, (before[i as int].0, value)));
                    lemma_zip_unique(keys@, vals@);
                }
                *self = StrMap { keys, vals };
                assert(self.entries() =~= before.update(i as int, (before[i as int].0, value)));
                Some(replaced)
            },
            None => {
                proof {
                    lemma_map_of_push(before, key@, value);
                }
                keys.push(key);
                vals.push(value);
                proof {
                    assert(zip_entries(keys@, vals@) =~= before.push((key@, value)));
                    lemma_zip_unique(keys@, vals@);
                }
                *self = StrMap { keys, vals };
                assert(self.entries() =~= before.push((key@, value)));
                None
            },
        }
    }

    /// Removes `key` and returns the value that was stored under it.  The
    /// other entries keep their order.
    pub fn remove(&mut self, key: &str) -> (r: Option<V>)
        ensures
            final(self)@ == old(self)@.remove(key@),
            old(self)@.contains_key(key@) ==> r == Some(old(self)@[key@]),
            !old(self)@.contains_key(key@) ==> r is None,
    {
        proof {
            use_type_invariant(&*self);
            self.lemma_unique();
        }
        let ghost before = self.entries();
        match self.find(key) {
            Some(i) => {
                proof {
                    lemma_map_of_entry(before, i as int);
                    lemma_map_of_remove(before, i as int);
                }
                let mut parts = StrMap::new();
                std::mem::swap(self, &mut parts);
                let StrMap { mut keys, mut vals } = parts;
                keys.remove(i);
                let v = vals.remove(i);
                proof {
                    assert(zip_entries(keys@, vals@) =~= before.remove(i as int));
                    lemma_zip_unique(keys@, vals@);
                }
                *self = StrMap { keys, vals };
                assert(self.entries() =~= before.remove(i as int));
                Some(v)
            },
            None => {
                assert(self@.remove(key@) =~= self@);
                None
            },
        }
    }

    /// Removes every entry.
    pub fn clear(&mut self)
        ensures
            final(self)@ == Map::<Seq<char>, V>::empty(),
            final(self).entries().len() == 0,
    {
        *self = StrMap::new();
    }

    /// The keys, in stored order.
    pub fn keys(&self) -> (r: Vec<String>)
        ensures
            r@.len() == self.entries().len(),
            forall|i: int| 0 <= i < r@.len() ==> (#[trigger] r@[i])@ == self.entries()[i].0,
            r@.map_values(|s: String| s@).to_set() == self@.dom(),
            r@.map_values(|s: String| s@).no_duplicates(),
    {
        proof {
            use_type_invariant(self);
            self.lemma_unique();
        }
        let mut out: Vec<String> = Vec::new();
        let mut i: usize = 0;
        while i < self.keys.len()
            invariant
                i <= self.keys@.len(),
                self.keys@.len() == self.entries().len(),
                out@.len() == i,
                forall|j: int| 0 <= j < i ==> (#[trigger] out@[j])@ == self.entries()[j].0,
            decreases self.keys@.len() - i,
        {
            out.push(self.keys[i].clone());
            i += 1;
        }
        proof {
            let es = self.entries();
            let ks = out@.map_values(|s: String| s@);
            assert forall|a: int, b: int| 0 <= a < ks.len() && 0 <= b < ks.len() && a != b implies ks[a]
                != ks[b] by {
                assert(es[a].0 != es[b].0);
            }
            assert forall|k: Seq<char>| ks.to_set().contains(k) == self@.dom().contains(k) by {
                if ks.to_set().contains(k) {
                    let i = choose|i: int| 0 <= i < ks.len() && ks[i] == k;
                    assert(es[i].0 == k);
                }
                if self@.dom().contains(k) {
                    let i = choose|i: int| 0 <= i < es.len() && #[trigger] es[i].0 == k;
                    assert(ks[i] == k);
                }
            }
            assert(ks.to_set() =~= self@.dom());
        }
        out
    }
}

impl<V: Clone> Clone for StrMap<V> {
    /// Copies the map entry by entry: the keys and their order are kept, and
    /// each value is a clone of the one it copies.
    fn clone(&self) -> (r: Self)
        ensures
            r.entries().len() == self.entries().len(),
            forall|i: int|
                0 <= i < self.entries().len() ==> (#[trigger] r.entries()[i]).0 == self.entries()[i].0
                    && cloned::<V>(self.entries()[i].1, r.entries()[i].1),
    {
        proof {
            use_type_invariant(self);
            self.lemma_unique();
        }
        let mut keys: Vec<String> = Vec::new();
        let mut vals: Vec<V> = Vec::new();
        let mut i: usize = 0;
        while i < self.keys.len()
            invariant
                i <= self.keys@.len(),
                self.keys@.len() == self.vals@.len(),
                keys@.len() == i,
                vals@.len() == i,
                forall|j: int|
                    0 <= j < i ==> (#[trigger] keys@[j])@ == self.keys@[j]@ && cloned::<V>(
                        self.vals@[j],
                        vals@[j],
                    ),
            decreases self.keys@.len() - i,
        {
            let k = self.keys[i].clone();
            let v = self.vals[i].clone();
            proof {
                assert(cloned::<V>(self.vals@[i as int], v));
            }
            keys.push(k);
            vals.push(v);
            i += 1;
        }
        proof {
            let es = self.entries();
            let ns = Seq::new(keys@.len(), |i: int| (keys@[i]@, vals@[i]));
            assert forall|a: int, b: int| 0 <= a < ns.len() && 0 <= b < ns.len() && a != b implies #[trigger] ns[a].0
                != #[trigger] ns[b].0 by {
                assert(es[a].0 != es[b].0);
            }
        }
        StrMap { keys, vals }
    }
}

} // verus!
