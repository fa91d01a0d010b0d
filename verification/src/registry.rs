//! An in-memory registry from user-supplied string ids to cancellation
//! handles. At most one live entry exists per id; insertion order is
//! irrelevant. The registry is viewed as a map from the id's characters to
//! the handle.

use vstd::prelude::*;

verus! {

/// A registry entry list with unique ids, viewed as a map.
pub struct Registry<T> {
    entries: Vec<(String, T)>,
}

/// The map that a sequence of (id, handle) entries holds.
pub open spec fn map_of_entries<T>(entries: Seq<(String, T)>) -> Map<Seq<char>, T>
    decreases entries.len(),
{
    if entries.len() == 0 {
        Map::empty()
    } else {
        map_of_entries(entries.drop_last()).insert(entries.last().0@, entries.last().1)
    }
}

/// Whether no id occurs twice in the entry list.
pub open spec fn unique_ids<T>(entries: Seq<(String, T)>) -> bool {
    forall|i: int, j: int|
        0 <= i < j < entries.len() ==> #[trigger] entries[i].0@ != #[trigger] entries[j].0@
}

/// A key is in the map of an entry list exactly when some entry carries it.
proof fn lemma_entries_contains<T>(entries: Seq<(String, T)>, k: Seq<char>)
    ensures
        map_of_entries(entries).contains_key(k) <==> exists|i: int|
            0 <= i < entries.len() && #[trigger] entries[i].0@ == k,
    decreases entries.len(),
{
    if entries.len() == 0 {
    } else {
        lemma_entries_contains(entries.drop_last(), k);
        if entries.last().0@ == k {
            assert(entries[entries.len() - 1].0@ == k);
        } else {
            if map_of_entries(entries).contains_key(k) {
                let i = choose|i: int|
                    0 <= i < entries.drop_last().len() && #[trigger] entries.drop_last()[i].0@ == k;
                assert(entries[i].0@ == k);
            }
            if exists|i: int| 0 <= i < entries.len() && #[trigger] entries[i].0@ == k {
                let i = choose|i: int| 0 <= i < entries.len() && #[trigger] entries[i].0@ == k;
                assert(entries.drop_last()[i].0@ == k);
            }
        }
    }
}

/// With unique ids, the map of an entry list sends each entry's id to its
/// handle.
proof fn lemma_entries_get<T>(entries: Seq<(String, T)>, i: int)
    requires
        unique_ids(entries),
        0 <= i < entries.len(),
    ensures
        map_of_entries(entries).contains_key(entries[i].0@),
        map_of_entries(entries)[entries[i].0@] == entries[i].1,
    decreases entries.len(),
{
    if i == entries.len() - 1 {
    } else {
        assert(unique_ids(entries.drop_last())) by {
            assert(forall|a: int, b: int|
                0 <= a < b < entries.drop_last().len() ==> entries.drop_last()[a]
                    == entries[a] && entries.drop_last()[b] == entries[b]);
        }
        lemma_entries_get(entries.drop_last(), i);
        assert(entries.drop_last()[i] == entries[i]);
        assert(entries[i].0@ != entries.last().0@);
    }
}

/// With unique ids, removing the entry at `i` removes exactly its id from
/// the map.
proof fn lemma_entries_remove<T>(entries: Seq<(String, T)>, i: int)
    requires
        unique_ids(entries),
        0 <= i < entries.len(),
    ensures
        map_of_entries(entries.remove(i)) == map_of_entries(entries).remove(entries[i].0@),
    decreases entries.len(),
{
    let k = entries[i].0@;
    assert(unique_ids(entries.drop_last())) by {
        assert(forall|a: int, b: int|
            0 <= a < b < entries.drop_last().len() ==> entries.drop_last()[a] == entries[a]
                && entries.drop_last()[b] == entries[b]);
    }
    if i == entries.len() - 1 {
        assert(entries.remove(i) =~= entries.drop_last());
        lemma_entries_contains(entries.drop_last(), k);
        assert(forall|j: int| 0 <= j < entries.len() - 1 ==> #[trigger] entries[j].0@ != k);
        assert(map_of_entries(entries).remove(k) =~= map_of_entries(entries.drop_last()));
    } else {
        assert(entries.remove(i).drop_last() =~= entries.drop_last().remove(i));
        assert(entries.remove(i).last() == entries.last());
        assert(entries.drop_last()[i] == entries[i]);
        lemma_entries_remove(entries.drop_last(), i);
        assert(k != entries.last().0@);
        assert(map_of_entries(entries.remove(i)) =~= map_of_entries(entries).remove(k));
    }
}

impl<T> View for Registry<T> {
    type V = Map<Seq<char>, T>;

    closed spec fn view(&self) -> Map<Seq<char>, T> {
        map_of_entries(self.entries@)
    }
}

impl<T: Copy> Registry<T> {
    /// The invariant: no id occurs twice.
    pub closed spec fn wf(self) -> bool {
        unique_ids(self.entries@)
    }

    /// An empty registry.
    pub fn new() -> (r: Registry<T>)
        ensures
            r.wf(),
            r@ == Map::<Seq<char>, T>::empty(),
    {
        Registry { entries: Vec::new() }
    }

    /// The index of the entry carrying the id, if any.
    fn position(&self, id: &String) -> (r: Option<usize>)
        ensures
            r matches Some(i) ==> i < self.entries@.len() && self.entries@[i as int].0@ == id@,
            r is None ==> forall|i: int|
                0 <= i < self.entries@.len() ==> #[trigger] self.entries@[i].0@ != id@,
    {
        let mut k: usize = 0;
        while k < self.entries.len()
            invariant
                k <= self.entries@.len(),
                forall|i: int| 0 <= i < k ==> #[trigger] self.entries@[i].0@ != id@,
            decreases self.entries@.len() - k,
        {
            if self.entries[k].0 == *id {
                return Some(k);
            }
            k = k + 1;
        }
        None
    }

    /// Whether an entry with the id is present.
    pub fn contains(&self, id: &String) -> (r: bool)
        ensures
            r == self@.contains_key(id@),
    {
        proof {
            lemma_entries_contains(self.entries@, id@);
        }
        match self.position(id) {
            Some(_) => true,
            None => false,
        }
    }

    /// The handle stored for the id, if any, without removing it.
    pub fn get(&self, id: &String) -> (r: Option<T>)
        requires
            self.wf(),
        ensures
            r is Some <==> self@.contains_key(id@),
            r matches Some(v) ==> v == self@[id@],
    {
        proof {
            lemma_entries_contains(self.entries@, id@);
        }
        match self.position(id) {
            Some(i) => {
                proof {
                    lemma_entries_get(self.entries@, i as int);
                }
                Some(self.entries[i].1)
            },
            None => None,
        }
    }

    /// Inserts a fresh id with its handle; an id already present is refused
    /// and nothing changes.
    pub fn insert_new(&mut self, id: &String, value: T) -> (r: Result<(), ()>)
        requires
            old(self).wf(),
        ensures
            final(self).wf(),
            r is Ok <==> !old(self)@.contains_key(id@),
            r is Ok ==> final(self)@ == old(self)@.insert(id@, value),
            r is Err ==> *final(self) == *old(self),
    {
        proof {
            lemma_entries_contains(self.entries@, id@);
        }
        match self.position(id) {
            Some(_) => Err(()),
            None => {
                let ghost before = self.entries@;
                self.entries.push((id.clone(), value));
                proof {
                    assert(self.entries@.drop_last() =~= before);
                    assert(self.entries@.last().0@ == id@);
                    assert(forall|a: int, b: int|
                        0 <= a < b < self.entries@.len() - 1 ==> self.entries@[a] == before[a]
                            && self.entries@[b] == before[b]);
                }
                Ok(())
            },
        }
    }

    /// Removes the entry with the id and hands back its handle; an absent id
    /// is refused and nothing changes.
    pub fn remove(&mut self, id: &String) -> (r: Option<T>)
        requires
            old(self).wf(),
        ensures
            final(self).wf(),
            r is Some <==> old(self)@.contains_key(id@),
            r matches Some(v) ==> v == old(self)@[id@] && final(self)@ == old(self)@.remove(id@),
            r is None ==> *final(self) == *old(self),
    {
        proof {
            lemma_entries_contains(self.entries@, id@);
        }
        match self.position(id) {
            Some(i) => {
                proof {
                    lemma_entries_get(self.entries@, i as int);
                    lemma_entries_remove(self.entries@, i as int);
                }
                let ghost before = self.entries@;
                let entry = self.entries.remove(i);
                proof {
                    assert(self.entries@ =~= before.remove(i as int));
                    assert(forall|a: int, b: int|
                        0 <= a < b < self.entries@.len() ==> self.entries@[a]
                            == (if a < i as int {
                            before[a]
                        } else {
                            before[a + 1]
                        }) && self.entries@[b] == (if b < i as int {
                            before[b]
                        } else {
                            before[b + 1]
                        }));
                }
                Some(entry.1)
            },
            None => None,
        }
    }
}

} // verus!
