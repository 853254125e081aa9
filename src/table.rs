//! A keyed table of records: the in-memory form of one storage namespace.

use vstd::prelude::*;

verus! {

/// Records keyed by a string. Each key occurs at most once.
pub struct Table<V> {
    entries: Vec<(String, V)>,
}

impl<V> Table<V> {
    #[verifier::type_invariant]
    spec fn keys_distinct(self) -> bool {
        forall|i: int, j: int|
            0 <= i < j < self.entries@.len() ==> self.entries@[i].0@ != self.entries@[j].0@
    }

    /// Index of the entry stored under `k`, if any.
    spec fn holds_at(self, k: Seq<char>, i: int) -> bool {
        0 <= i < self.entries@.len() && self.entries@[i].0@ == k
    }

    pub closed spec fn spec_contains(self, k: Seq<char>) -> bool {
        exists|i: int| self.holds_at(k, i)
    }

    pub closed spec fn spec_view(self) -> Map<Seq<char>, V> {
        Map::new(
            |k: Seq<char>| self.spec_contains(k),
            |k: Seq<char>| self.entries@[choose|i: int| self.holds_at(k, i)].1,
        )
    }

    proof fn lemma_lookup(self, k: Seq<char>, i: int)
        requires
            self.keys_distinct(),
            self.holds_at(k, i),
        ensures
            self.spec_view().contains_key(k),
            self.spec_view()[k] == self.entries@[i].1,
    {
        let j = choose|j: int| self.holds_at(k, j);
        assert(j == i);
    }

    /// An empty table.
    pub fn new() -> (r: Self)
        ensures
            r@ == Map::<Seq<char>, V>::empty(),
    {
        let r = Table { entries: Vec::new() };
        assert(r@ =~= Map::<Seq<char>, V>::empty());
        r
    }

    /// Position of the entry stored under `key`.
    fn find(&self, key: &String) -> (r: Option<usize>)
        ensures
            match r {
                Some(i) => self.holds_at(key@, i as int),
                None => !self.spec_contains(key@),
            },
    {
        let mut i: usize = 0;
        while i < self.entries.len()
            invariant
                0 <= i <= self.entries@.len(),
                forall|j: int| 0 <= j < i ==> self.entries@[j].0@ != key@,
            decreases self.entries@.len() - i,
        {
            if self.entries[i].0 == *key {
                return Some(i);
            }
            i = i + 1;
        }
        None
    }

    /// Whether a record is stored under `key`.
    pub fn contains(&self, key: &String) -> (r: bool)
        ensures
            r == self@.contains_key(key@),
    {
        self.find(key).is_some()
    }

    /// The record stored under `key`.
    pub fn get(&self, key: &String) -> (r: Option<&V>)
        ensures
            match r {
                Some(v) => self@.contains_key(key@) && *v == self@[key@],
                None => !self@.contains_key(key@),
            },
    {
        proof {
            use_type_invariant(self);
        }
        match self.find(key) {
            Some(i) => {
                proof {
                    self.lemma_lookup(key@, i as int);
                }
                Some(&self.entries[i].1)
            },
            None => None,
        }
    }

    /// The keys of the table, each once.
    pub fn keys(&self) -> (r: Vec<String>)
        ensures
            forall|k: Seq<char>|
                #![trigger self@.contains_key(k)]
                self@.contains_key(k) <==> exists|i: int| 0 <= i < r@.len() && r@[i]@ == k,
    {
        let mut r: Vec<String> = Vec::new();
        let mut i: usize = 0;
        while i < self.entries.len()
            invariant
                i <= self.entries@.len(),
                r@.len() == i,
                forall|j: int| 0 <= j < i ==> #[trigger] r@[j] == self.entries@[j].0,
            decreases self.entries@.len() - i,
        {
            r.push(self.entries[i].0.clone());
            i = i + 1;
        }
        proof {
            assert forall|k: Seq<char>| self@.contains_key(k) implies exists|j: int|
                0 <= j < r@.len() && r@[j]@ == k by {
                let j = choose|j: int| self.holds_at(k, j);
                assert(r@[j]@ == k);
            }
            assert forall|k: Seq<char>| (exists|j: int| 0 <= j < r@.len() && r@[j]@ == k)
                implies self@.contains_key(k) by {
                let j = choose|j: int| 0 <= j < r@.len() && r@[j]@ == k;
                assert(self.holds_at(k, j));
            }
        }
        r
    }

    /// Stores `value` under `key`, replacing any record stored there.
    pub fn insert(&mut self, key: String, value: V)
        ensures
            final(self)@ == old(self)@.insert(key@, value),
    {
        proof {
            use_type_invariant(&*self);
        }
        let ghost old_table = *self;
        let ghost oe = self.entries@;
        let ghost k = key@;
        let found = self.find(&key);
        let mut entries: Vec<(String, V)> = Vec::new();
        std::mem::swap(&mut entries, &mut self.entries);
        match found {
            Some(i) => {
                entries.set(i, (key, value));
                proof {
                    assert(entries@ == oe.update(i as int, entries@[i as int]));
                }
            },
            None => {
                entries.push((key, value));
            },
        }
        let ghost ne = entries@;
        proof {
            // every position keeps its key, but for a new one at the end
            assert forall|a: int| 0 <= a < oe.len() implies #[trigger] ne[a].0@ == oe[a].0@ by {}
            assert(ne.len() == oe.len() || (ne.len() == oe.len() + 1 && found is None));
            assert(ne[i_of(found, oe.len() as int)].0@ == k);
            assert forall|a: int, b: int| 0 <= a < b < ne.len() implies ne[a].0@ != ne[b].0@ by {
                if b == oe.len() {
                    assert(old_table.holds_at(ne[a].0@, a));
                }
            }
        }
        self.entries = entries;
        proof {
            let new_table = *self;
            assert forall|k2: Seq<char>| new_table.spec_contains(k2) implies (k2 == k
                || old_table.spec_contains(k2)) by {
                let j = choose|j: int| new_table.holds_at(k2, j);
                if k2 != k {
                    assert(j < oe.len() && j != i_of(found, oe.len() as int));
                    assert(old_table.holds_at(k2, j));
                }
            }
            assert forall|k2: Seq<char>| (k2 == k || old_table.spec_contains(k2))
                implies new_table.spec_contains(k2) by {
                if k2 == k {
                    assert(new_table.holds_at(k2, i_of(found, oe.len() as int)));
                } else {
                    let j = choose|j: int| old_table.holds_at(k2, j);
                    assert(new_table.holds_at(k2, j));
                }
            }
            assert forall|k2: Seq<char>| new_table.spec_contains(k2)
                implies #[trigger] new_table.spec_view()[k2]
                == old_table.spec_view().insert(k, value)[k2] by {
                let j = choose|j: int| new_table.holds_at(k2, j);
                new_table.lemma_lookup(k2, j);
                if k2 != k {
                    assert(j < oe.len() && j != i_of(found, oe.len() as int));
                    old_table.lemma_lookup(k2, j);
                } else {
                    new_table.lemma_lookup(k2, i_of(found, oe.len() as int));
                }
            }
            assert(new_table.spec_view() =~= old_table.spec_view().insert(k, value));
        }
    }
}

spec fn i_of(found: Option<usize>, j: int) -> int {
    match found {
        Some(i) => i as int,
        None => j,
    }
}

impl<V> View for Table<V> {
    type V = Map<Seq<char>, V>;

    open spec fn view(&self) -> Map<Seq<char>, V> {
        self.spec_view()
    }
}

} // verus!
