//! The table of live connections, keyed by device identifier.
//!
//! A device identifier is the sequence of UTF-16 code units that the
//! operating system reports for the device.  The table owns one handle per
//! identifier; dropping a handle is what closes the connection behind it.

use vstd::prelude::*;

verus! {

/// Whether two identifiers hold the same code units.
pub fn same_id(a: &[u16], b: &[u16]) -> (r: bool)
    ensures
        r == (a@ == b@),
{
    if a.len() != b.len() {
        return false;
    }
    let mut i: usize = 0;
    while i < a.len()
        invariant
            a@.len() == b@.len(),
            i <= a@.len(),
            forall|k: int| 0 <= k < i ==> a@[k] == b@[k],
        decreases a@.len() - i,
    {
        if a[i] != b[i] {
            return false;
        }
        i = i + 1;
    }
    assert(a@ =~= b@);
    true
}

/// One live connection: the device's identifier and the handle kept for it.
struct Entry<T> {
    id: Vec<u16>,
    handle: T,
}

/// The live connections.  No identifier occurs twice.
pub struct ConnectionTable<T> {
    entries: Vec<Entry<T>>,
}

impl<T> View for ConnectionTable<T> {
    type V = Map<Seq<u16>, T>;

    /// The table as a map from identifier to handle.
    closed spec fn view(&self) -> Map<Seq<u16>, T> {
        Map::new(
            |id: Seq<u16>| self.holds(id),
            |id: Seq<u16>| self.entries[self.position(id)].handle,
        )
    }
}

impl<T> ConnectionTable<T> {
    #[verifier::type_invariant]
    spec fn distinct(&self) -> bool {
        forall|i: int, j: int|
            0 <= i < self.entries.len() && 0 <= j < self.entries.len()
                && #[trigger] self.entries[i].id@ == #[trigger] self.entries[j].id@ ==> i == j
    }

    spec fn holds(&self, id: Seq<u16>) -> bool {
        exists|i: int| 0 <= i < self.entries.len() && #[trigger] self.entries[i].id@ == id
    }

    spec fn position(&self, id: Seq<u16>) -> int {
        choose|i: int| 0 <= i < self.entries.len() && #[trigger] self.entries[i].id@ == id
    }

    /// A table without connections.
    pub fn new() -> (r: Self)
        ensures
            r@ == Map::<Seq<u16>, T>::empty(),
    {
        let r = ConnectionTable { entries: Vec::new() };
        assert(r@ =~= Map::<Seq<u16>, T>::empty());
        r
    }

    /// The number of live connections.
    pub fn len(&self) -> (r: usize)
        ensures
            r == self@.len(),
            self@.dom().finite(),
    {
        proof {
            use_type_invariant(self);
            self.lemma_len(self.entries.len() as int);
            assert(self.ids_below(self.entries.len() as int) =~= self@.dom());
        }
        self.entries.len()
    }

    /// The identifiers held in the first `n` places.
    spec fn ids_below(&self, n: int) -> Set<Seq<u16>> {
        Set::new(|id: Seq<u16>| exists|i: int| 0 <= i < n && #[trigger] self.entries[i].id@ == id)
    }

    proof fn lemma_len(&self, n: int)
        requires
            self.distinct(),
            0 <= n <= self.entries.len(),
        ensures
            self.ids_below(n).finite(),
            self.ids_below(n).len() == n,
        decreases n,
    {
        if n == 0 {
            assert(self.ids_below(0) =~= Set::<Seq<u16>>::empty());
        } else {
            self.lemma_len(n - 1);
            let last = self.entries[n - 1].id@;
            assert(!self.ids_below(n - 1).contains(last));
            assert(self.ids_below(n) =~= self.ids_below(n - 1).insert(last));
        }
    }

    /// Where `id` stands in the table, if it is held.
    fn find(&self, id: &[u16]) -> (r: Option<usize>)
        ensures
            match r {
                Some(i) => i < self.entries.len() && self.entries[i as int].id@ == id@,
                None => !self.holds(id@),
            },
    {
        let mut i: usize = 0;
        while i < self.entries.len()
            invariant
                i <= self.entries.len(),
                forall|k: int| 0 <= k < i ==> self.entries[k].id@ != id@,
            decreases self.entries.len() - i,
        {
            if same_id(self.entries[i].id.as_slice(), id) {
                return Some(i);
            }
            i = i + 1;
        }
        None
    }

    /// Whether a connection is held for `id`.
    pub fn contains(&self, id: &[u16]) -> (r: bool)
        ensures
            r == self@.contains_key(id@),
    {
        self.find(id).is_some()
    }

    /// Takes the connection of `id` out of the table and hands its handle
    /// to the caller; the other connections stay.
    pub fn remove(&mut self, id: &[u16]) -> (r: Option<T>)
        ensures
            final(self)@ == old(self)@.remove(id@),
            r == (if old(self)@.contains_key(id@) {
                Some(old(self)@[id@])
            } else {
                None
            }),
    {
        proof {
            use_type_invariant(&*self);
        }
        match self.find(id) {
            None => {
                assert(self@ =~= old(self)@.remove(id@));
                None
            },
            Some(i) => {
                let ghost before = *self;
                let mut entries: Vec<Entry<T>> = Vec::new();
                std::mem::swap(&mut self.entries, &mut entries);
                let entry = entries.remove(i);
                proof {
                    assert forall|a: int, b: int|
                        0 <= a < entries.len() && 0 <= b < entries.len()
                            && #[trigger] entries[a].id@ == #[trigger] entries[b].id@
                    implies a == b by {
                        let a0 = if a < i { a } else { a + 1 };
                        let b0 = if b < i { b } else { b + 1 };
                        assert(before.entries[a0].id@ == before.entries[b0].id@);
                    }
                }
                self.entries = entries;
                proof {
                    assert(before.position(id@) == i);
                    assert forall|k: Seq<u16>| self.holds(k) == (before.holds(k) && k != id@) by {
                        if self.holds(k) {
                            let a = self.position(k);
                            let a0 = if a < i { a } else { a + 1 };
                            assert(before.entries[a0].id@ == k);
                        }
                        if before.holds(k) && k != id@ {
                            let a0 = before.position(k);
                            let a = if a0 < i { a0 } else { a0 - 1 };
                            assert(self.entries[a].id@ == k);
                        }
                    }
                    assert forall|k: Seq<u16>| self.holds(k) implies self.entries[self.position(
                        k,
                    )].handle == before.entries[before.position(k)].handle by {
                        let a = self.position(k);
                        let a0 = if a < i { a } else { a + 1 };
                        assert(before.entries[a0].id@ == k);
                        assert(before.position(k) == a0);
                    }
                    assert(self@ =~= before@.remove(id@));
                }
                Some(entry.handle)
            },
        }
    }

    /// Keeps `handle` as the connection of `id`.  A connection that was held
    /// for `id` before leaves the table and is handed to the caller.
    pub fn insert(&mut self, id: Vec<u16>, handle: T) -> (r: Option<T>)
        ensures
            final(self)@ == old(self)@.insert(id@, handle),
            r == (if old(self)@.contains_key(id@) {
                Some(old(self)@[id@])
            } else {
                None
            }),
    {
        let previous = self.remove(id.as_slice());
        proof {
            use_type_invariant(&*self);
        }
        let ghost before = *self;
        let ghost key = id@;
        let mut entries: Vec<Entry<T>> = Vec::new();
        std::mem::swap(&mut self.entries, &mut entries);
        entries.push(Entry { id, handle });
        proof {
            assert(!before@.contains_key(key));
            assert(!before.holds(key));
            assert forall|a: int, b: int|
                0 <= a < entries.len() && 0 <= b < entries.len()
                    && #[trigger] entries[a].id@ == #[trigger] entries[b].id@
            implies a == b by {
                if a < before.entries.len() {
                    assert(before.entries[a].id@ == entries[a].id@);
                }
                if b < before.entries.len() {
                    assert(before.entries[b].id@ == entries[b].id@);
                }
            }
        }
        self.entries = entries;
        proof {
            let n = before.entries.len() as int;
            assert(self.entries[n].id@ == key);
            assert forall|k: Seq<u16>| self.holds(k) == (before.holds(k) || k == key) by {
                if self.holds(k) && k != key {
                    let a = self.position(k);
                    assert(before.entries[a].id@ == k);
                }
                if before.holds(k) {
                    let a = before.position(k);
                    assert(self.entries[a].id@ == k);
                }
            }
            assert forall|k: Seq<u16>| self.holds(k) implies self.entries[self.position(k)].handle
                == (if k == key {
                handle
            } else {
                before.entries[before.position(k)].handle
            }) by {
                let a = self.position(k);
                if k == key {
                    assert(a == n);
                } else {
                    assert(before.entries[a].id@ == k);
                    assert(before.position(k) == a);
                }
            }
            assert(self@ =~= before@.insert(key, handle));
            assert(before@.insert(key, handle) =~= old(self)@.insert(key, handle));
        }
        previous
    }
}

} // verus!
