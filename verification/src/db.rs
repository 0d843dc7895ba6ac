//! A typed collection of records, each under a unique text key.

use vstd::prelude::*;

verus! {

/// A named collection that maps each key to at most one record.
///
/// The view of a collection is the map from the text of each key to the
/// view of the record stored under it.
pub struct Db<V> {
    name: String,
    keys: Vec<String>,
    values: Vec<V>,
}

impl<V: View> View for Db<V> {
    type V = Map<Seq<char>, V::V>;

    closed spec fn view(&self) -> Map<Seq<char>, V::V> {
        Map::new(
            |k: Seq<char>| self.holds(k),
            |k: Seq<char>| self.values@[self.slot_of(k)]@,
        )
    }
}

impl<V: View> Db<V> {
    /// The collection is well formed: every key has its record and no key
    /// occurs twice.
    pub closed spec fn wf(&self) -> bool {
        &&& self.keys@.len() == self.values@.len()
        &&& forall|i: int, j: int|
            0 <= i < j < self.keys@.len() ==> self.keys@[i]@ != self.keys@[j]@
    }

    /// The name the collection was opened under.
    pub closed spec fn label(&self) -> Seq<char> {
        self.name@
    }

    spec fn holds(&self, k: Seq<char>) -> bool {
        exists|i: int| 0 <= i < self.keys@.len() && #[trigger] self.keys@[i]@ == k
    }

    spec fn slot_of(&self, k: Seq<char>) -> int {
        choose|i: int| 0 <= i < self.keys@.len() && #[trigger] self.keys@[i]@ == k
    }

    proof fn lemma_slot(&self, i: int)
        requires
            self.wf(),
            0 <= i < self.keys@.len(),
        ensures
            self.holds(self.keys@[i]@),
            self.slot_of(self.keys@[i]@) == i,
            self@.contains_key(self.keys@[i]@),
            self@[self.keys@[i]@] == self.values@[i]@,
    {
        let k = self.keys@[i]@;
        assert(self.holds(k));
        let j = self.slot_of(k);
        assert(0 <= j < self.keys@.len() && self.keys@[j]@ == k);
        if j < i {
            assert(self.keys@[j]@ != self.keys@[i]@);
        } else if i < j {
            assert(self.keys@[i]@ != self.keys@[j]@);
        }
    }

    proof fn lemma_absent(&self, k: Seq<char>)
        requires
            forall|i: int| 0 <= i < self.keys@.len() ==> self.keys@[i]@ != k,
        ensures
            !self@.contains_key(k),
    {
    }

    /// Opens an empty collection under `name`.
    pub fn open(name: &str) -> (db: Self)
        ensures
            db.wf(),
            db@ == Map::<Seq<char>, V::V>::empty(),
            db.label() == name@,
    {
        let db = Db { name: name.to_owned(), keys: Vec::new(), values: Vec::new() };
        assert(db@ =~= Map::<Seq<char>, V::V>::empty());
        db
    }

    /// The name the collection was opened under.
    pub fn name(&self) -> (name: &str)
        ensures
            name@ == self.label(),
    {
        self.name.as_str()
    }

    fn find(&self, key: &str) -> (slot: Option<usize>)
        requires
            self.wf(),
        ensures
            match slot {
                Some(i) => i < self.keys@.len() && self.keys@[i as int]@ == key@
                    && self@.contains_key(key@) && self@[key@] == self.values@[i as int]@,
                None => !self@.contains_key(key@)
                    && forall|i: int| 0 <= i < self.keys@.len() ==> self.keys@[i]@ != key@,
            },
    {
        let wanted = key.to_owned();
        let mut i: usize = 0;
        while i < self.keys.len()
            invariant
                self.wf(),
                i <= self.keys@.len(),
                wanted@ == key@,
                forall|j: int| 0 <= j < i ==> self.keys@[j]@ != key@,
            decreases self.keys@.len() - i,
        {
            if self.keys[i] == wanted {
                proof {
                    self.lemma_slot(i as int);
                }
                return Some(i);
            }
            i += 1;
        }
        proof {
            self.lemma_absent(key@);
        }
        None
    }

    /// Tells whether a record is stored under `key`.
    pub fn contains(&self, key: &str) -> (found: bool)
        requires
            self.wf(),
        ensures
            found == self@.contains_key(key@),
    {
        self.find(key).is_some()
    }

    /// Stores `val` under `key`, replacing the record that was there.
    pub fn add(&mut self, key: &str, val: V)
        requires
            old(self).wf(),
        ensures
            final(self).wf(),
            final(self)@ == old(self)@.insert(key@, val@),
            final(self).label() == old(self).label(),
    {
        let ghost before = *self;
        match self.find(key) {
            Some(i) => {
                self.values.set(i, val);
                assert(self.wf());
                assert forall|k: Seq<char>| self.holds(k) == before.holds(k) by {
                    if before.holds(k) {
                        let j = before.slot_of(k);
                        assert(self.keys@[j]@ == k);
                    }
                    if self.holds(k) {
                        let j = self.slot_of(k);
                        assert(before.keys@[j]@ == k);
                    }
                }
                assert forall|k: Seq<char>| before@.insert(key@, val@).contains_key(k) implies
                    self@[k] == before@.insert(key@, val@)[k] by {
                    let j = before.slot_of(k);
                    before.lemma_slot(j);
                    self.lemma_slot(j);
                }
                assert(self@ =~= before@.insert(key@, val@));
            },
            None => {
                self.keys.push(key.to_owned());
                self.values.push(val);
                let ghost n = before.keys@.len() as int;
                assert(self.wf());
                assert forall|k: Seq<char>| self.holds(k) == (before.holds(k) || k == key@) by {
                    if before.holds(k) {
                        let j = before.slot_of(k);
                        assert(self.keys@[j]@ == k);
                    }
                    if k == key@ {
                        assert(self.keys@[n]@ == k);
                    }
                    if self.holds(k) {
                        let j = self.slot_of(k);
                        if j < n {
                            assert(before.keys@[j]@ == k);
                        }
                    }
                }
                assert forall|k: Seq<char>| before@.insert(key@, val@).contains_key(k) implies
                    self@[k] == before@.insert(key@, val@)[k] by {
                    if k == key@ {
                        self.lemma_slot(n);
                    } else {
                        let j = before.slot_of(k);
                        before.lemma_slot(j);
                        self.lemma_slot(j);
                    }
                }
                assert(self@ =~= before@.insert(key@, val@));
            },
        }
    }

    /// The record stored under `key`, if there is one.
    pub fn get(&self, key: &str) -> (found: Option<&V>)
        requires
            self.wf(),
        ensures
            match found {
                Some(v) => self@.contains_key(key@) && v@ == self@[key@],
                None => !self@.contains_key(key@),
            },
    {
        match self.find(key) {
            Some(i) => Some(&self.values[i]),
            None => None,
        }
    }

    /// Removes the record stored under `key` and hands it out.
    pub fn delete(&mut self, key: &str) -> (removed: Option<V>)
        requires
            old(self).wf(),
        ensures
            final(self).wf(),
            final(self)@ == old(self)@.remove(key@),
            final(self).label() == old(self).label(),
            match removed {
                Some(v) => old(self)@.contains_key(key@) && v@ == old(self)@[key@],
                None => !old(self)@.contains_key(key@),
            },
    {
        let ghost before = *self;
        match self.find(key) {
            Some(i) => {
                let _ = self.keys.remove(i);
                let v = self.values.remove(i);
                proof {
                    before.lemma_slot(i as int);
                    self.lemma_removed(before, i as int);
                }
                Some(v)
            },
            None => {
                assert(self@ =~= before@.remove(key@));
                None
            },
        }
    }

    proof fn lemma_removed(&self, before: Self, i: int)
        requires
            before.wf(),
            0 <= i < before.keys@.len(),
            self.keys@ == before.keys@.remove(i),
            self.values@ == before.values@.remove(i),
        ensures
            self.wf(),
            self@ == before@.remove(before.keys@[i]@),
    {
        let gone = before.keys@[i]@;
        assert(self.wf()) by {
            assert forall|a: int, b: int| 0 <= a < b < self.keys@.len() implies self.keys@[a]@
                != self.keys@[b]@ by {
                let a0 = if a < i { a } else { a + 1 };
                let b0 = if b < i { b } else { b + 1 };
                assert(self.keys@[a] == before.keys@[a0]);
                assert(self.keys@[b] == before.keys@[b0]);
            }
        }
        assert forall|k: Seq<char>| self.holds(k) == (before.holds(k) && k != gone) by {
            if before.holds(k) && k != gone {
                let j = before.slot_of(k);
                let j1 = if j < i { j } else { j - 1 };
                assert(self.keys@[j1]@ == k);
            }
            if self.holds(k) {
                let j = self.slot_of(k);
                let j0 = if j < i { j } else { j + 1 };
                assert(before.keys@[j0]@ == k);
                if k == gone {
                    before.lemma_slot(j0);
                    before.lemma_slot(i);
                }
            }
        }
        assert forall|k: Seq<char>| before@.remove(gone).contains_key(k) implies self@[k]
            == before@.remove(gone)[k] by {
            let j = before.slot_of(k);
            before.lemma_slot(j);
            let j1 = if j < i { j } else { j - 1 };
            assert(self.keys@[j1]@ == k);
            self.lemma_slot(j1);
        }
        assert(self@ =~= before@.remove(gone));
    }

    /// The keys of the collection in the order in which a scan visits them.
    pub closed spec fn scan(&self) -> Seq<Seq<char>> {
        Seq::new(self.keys@.len(), |i: int| self.keys@[i]@)
    }

    /// A scan visits every stored key exactly once, and nothing else.
    pub proof fn lemma_scan_covers(&self)
        requires
            self.wf(),
        ensures
            forall|i: int|
                0 <= i < self.scan().len() ==> self@.contains_key(#[trigger] self.scan()[i]),
            forall|i: int, j: int|
                0 <= i < j < self.scan().len() ==> self.scan()[i] != self.scan()[j],
            forall|k: Seq<char>| #[trigger]
                self@.contains_key(k) ==> exists|i: int|
                    0 <= i < self.scan().len() && #[trigger] self.scan()[i] == k,
    {
        assert forall|i: int| 0 <= i < self.scan().len() implies self@.contains_key(
            #[trigger] self.scan()[i],
        ) by {
            self.lemma_slot(i);
        }
        assert forall|k: Seq<char>| #[trigger] self@.contains_key(k) implies exists|i: int|
            0 <= i < self.scan().len() && #[trigger] self.scan()[i] == k by {
            let j = self.slot_of(k);
            assert(self.scan()[j] == k);
        }
    }

    /// Every stored pair, in scan order. The scan is taken of the collection
    /// as it stands; later writes do not reach it.
    pub fn iter(&self) -> (pairs: Vec<(String, &V)>)
        requires
            self.wf(),
        ensures
            pairs@.len() == self.scan().len(),
            forall|i: int|
                0 <= i < pairs@.len() ==> (#[trigger] pairs@[i]).0@ == self.scan()[i]
                    && self@.contains_key(pairs@[i].0@) && pairs@[i].1@ == self@[pairs@[i].0@],
    {
        let mut pairs: Vec<(String, &V)> = Vec::new();
        let mut i: usize = 0;
        while i < self.keys.len()
            invariant
                self.wf(),
                i <= self.keys@.len(),
                pairs@.len() == i,
                forall|j: int|
                    0 <= j < i ==> (#[trigger] pairs@[j]).0@ == self.keys@[j]@
                        && self@.contains_key(pairs@[j].0@) && pairs@[j].1@ == self@[pairs@[j].0@],
            decreases self.keys@.len() - i,
        {
            proof {
                self.lemma_slot(i as int);
            }
            pairs.push((self.keys[i].clone(), &self.values[i]));
            i += 1;
        }
        pairs
    }

    /// Replaces the record under `key` by what `mutator` makes of it. Without
    /// a record under `key` nothing happens.
    pub fn update<F: Fn(V) -> V>(&mut self, key: &str, mutator: F) -> (done: Option<()>)
        requires
            old(self).wf(),
            forall|v: V|
                old(self)@.contains_key(key@) && v@ == old(self)@[key@] ==> mutator.requires((v,)),
        ensures
            final(self).wf(),
            final(self).label() == old(self).label(),
            match done {
                Some(_) => old(self)@.contains_key(key@) && exists|v: V, w: V|
                    v@ == old(self)@[key@] && mutator.ensures((v,), w) && final(self)@ == old(self)@
                        .insert(key@, w@),
                None => !old(self)@.contains_key(key@) && final(self)@ == old(self)@,
            },
    {
        let ghost before = *self;
        match self.delete(key) {
            Some(v) => {
                let w = mutator(v);
                let ghost wv = w@;
                self.add(key, w);
                assert(self@ =~= before@.insert(key@, wv));
                Some(())
            },
            None => {
                assert(self@ =~= before@);
                None
            },
        }
    }
}

} // verus!
