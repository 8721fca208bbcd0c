//! A table from names to values.

use crate::text::same_text;
use vstd::prelude::*;

verus! {

/// A table from names to values in which every name stands at most once.
pub struct Table<V> {
    entries: Vec<(String, V)>,
}

/// The place of `name` among the entries.
spec fn stands_at<V>(entries: Seq<(String, V)>, name: Seq<char>, at: int) -> bool {
    0 <= at < entries.len() && entries[at].0@ == name
}

impl<V> View for Table<V> {
    type V = Map<Seq<char>, V>;

    closed spec fn view(&self) -> Map<Seq<char>, V> {
        Map::new(
            |name: Seq<char>| exists|at: int| stands_at(self.entries@, name, at),
            |name: Seq<char>|
                self.entries@[choose|at: int| stands_at(self.entries@, name, at)].1,
        )
    }
}

impl<V> Table<V> {
    /// No name stands twice.
    pub closed spec fn wf(&self) -> bool {
        forall|i: int, j: int|
            0 <= i < j < self.entries@.len() ==> self.entries@[i].0@ != self.entries@[j].0@
    }

    /// What the table says of a name that stands at `at`.
    proof fn lemma_entry(&self, name: Seq<char>, at: int)
        requires
            self.wf(),
            stands_at(self.entries@, name, at),
        ensures
            self@.contains_key(name),
            self@[name] == self.entries@[at].1,
    {
        let chosen = choose|k: int| stands_at(self.entries@, name, k);
        assert(stands_at(self.entries@, name, chosen));
        if chosen < at {
            assert(self.entries@[chosen].0@ != self.entries@[at].0@);
        } else if at < chosen {
            assert(self.entries@[at].0@ != self.entries@[chosen].0@);
        }
    }

    /// An empty table.
    pub fn new() -> (table: Table<V>)
        ensures
            table.wf(),
            table@ == Map::<Seq<char>, V>::empty(),
    {
        let table: Table<V> = Table { entries: Vec::new() };
        assert(table@ =~= Map::<Seq<char>, V>::empty());
        table
    }

    /// The place of `name`, if it stands in the table.
    fn find(&self, name: &str) -> (place: Option<usize>)
        requires
            self.wf(),
        ensures
            match place {
                Some(at) => stands_at(self.entries@, name@, at as int),
                None => !self@.contains_key(name@),
            },
    {
        let mut i: usize = 0;
        while i < self.entries.len()
            invariant
                i <= self.entries@.len(),
                forall|k: int| 0 <= k < i ==> !stands_at(self.entries@, name@, k),
            decreases self.entries@.len() - i,
        {
            if same_text(self.entries[i].0.as_str(), name) {
                return Some(i);
            }
            i += 1;
        }
        None
    }

    /// The value of `name`.
    pub fn get(&self, name: &str) -> (value: Option<&V>)
        requires
            self.wf(),
        ensures
            match value {
                Some(v) => self@.contains_key(name@) && *v == self@[name@],
                None => !self@.contains_key(name@),
            },
    {
        match self.find(name) {
            Some(at) => {
                proof {
                    self.lemma_entry(name@, at as int);
                }
                Some(&self.entries[at].1)
            },
            None => None,
        }
    }

    /// Takes `name` and its value out of the table.
    pub fn remove(&mut self, name: &str) -> (value: Option<V>)
        requires
            old(self).wf(),
        ensures
            final(self).wf(),
            final(self)@ == old(self)@.remove(name@),
            match value {
                Some(v) => old(self)@.contains_key(name@) && v == old(self)@[name@],
                None => !old(self)@.contains_key(name@),
            },
    {
        match self.find(name) {
            Some(at) => {
                let ghost before = *self;
                let entry: (String, V) = self.entries.remove(at);
                proof {
                    before.lemma_entry(name@, at as int);
                    assert(self.entries@ == before.entries@.remove(at as int));
                    assert forall|n: Seq<char>|
                        #![trigger self@.contains_key(n)]
                        #![trigger before@.contains_key(n)]
                        {
                            &&& self@.contains_key(n) <==> before@.contains_key(n) && n != name@
                            &&& self@.contains_key(n) ==> self@[n] == before@[n]
                        } by {
                        if self@.contains_key(n) {
                            let k = choose|k: int| stands_at(self.entries@, n, k);
                            let was = if k < at {
                                k
                            } else {
                                k + 1
                            };
                            assert(stands_at(before.entries@, n, was));
                            before.lemma_entry(n, was);
                            self.lemma_entry(n, k);
                            if was < at {
                                assert(before.entries@[was].0@ != before.entries@[at as int].0@);
                            } else {
                                assert(before.entries@[at as int].0@ != before.entries@[was].0@);
                            }
                        } else if before@.contains_key(n) && n != name@ {
                            let was = choose|k: int| stands_at(before.entries@, n, k);
                            let k = if was < at {
                                was
                            } else {
                                was - 1
                            };
                            assert(stands_at(self.entries@, n, k));
                        }
                    }
                    assert(self@ =~= before@.remove(name@));
                }
                Some(entry.1)
            },
            None => {
                assert(self@ =~= self@.remove(name@));
                None
            },
        }
    }

    /// Gives `name` the value `value`, in place of any that it had.
    pub fn insert(&mut self, name: String, value: V)
        requires
            old(self).wf(),
        ensures
            final(self).wf(),
            final(self)@ == old(self)@.insert(name@, value),
    {
        let _ = self.remove(name.as_str());
        let ghost before = *self;
        assert(!before@.contains_key(name@));
        self.entries.push((name, value));
        proof {
            let last = before.entries@.len() as int;
            assert forall|i: int, j: int|
                0 <= i < j < self.entries@.len() implies self.entries@[i].0@
                != self.entries@[j].0@ by {
                if j == last {
                    assert(self.entries@[i] == before.entries@[i]);
                    if before.entries@[i].0@ == name@ {
                        assert(stands_at(before.entries@, name@, i));
                    }
                } else {
                    assert(before.entries@[i].0@ != before.entries@[j].0@);
                }
            }
            assert(stands_at(self.entries@, name@, last));
            self.lemma_entry(name@, last);
            assert forall|n: Seq<char>|
                #![trigger self@.contains_key(n)]
                #![trigger before@.contains_key(n)]
                n != name@ implies {
                &&& self@.contains_key(n) <==> before@.contains_key(n)
                &&& self@.contains_key(n) ==> self@[n] == before@[n]
            } by {
                if self@.contains_key(n) {
                    let k = choose|k: int| stands_at(self.entries@, n, k);
                    assert(stands_at(before.entries@, n, k));
                    before.lemma_entry(n, k);
                    self.lemma_entry(n, k);
                } else if before@.contains_key(n) {
                    let k = choose|k: int| stands_at(before.entries@, n, k);
                    assert(stands_at(self.entries@, n, k));
                }
            }
            assert(self@ =~= before@.insert(name@, value));
            assert(self@ =~= old(self)@.insert(name@, value));
        }
    }

    /// Whether the table holds nothing.
    pub fn is_empty(&self) -> (empty: bool)
        requires
            self.wf(),
        ensures
            empty <==> self@ == Map::<Seq<char>, V>::empty(),
    {
        let empty: bool = self.entries.len() == 0;
        proof {
            if empty {
                assert(self@ =~= Map::<Seq<char>, V>::empty());
            } else {
                assert(stands_at(self.entries@, self.entries@[0].0@, 0));
                self.lemma_entry(self.entries@[0].0@, 0);
            }
        }
        empty
    }

    /// The number of names.
    pub fn len(&self) -> (count: usize)
        ensures
            count == self.size(),
    {
        self.entries.len()
    }

    /// The number of names.
    pub closed spec fn size(&self) -> nat {
        self.entries@.len()
    }

    /// The name in each place from zero on.
    pub closed spec fn name_at(&self, at: int) -> Seq<char> {
        self.entries@[at].0@
    }

    /// The value in a place.
    pub fn value_at(&self, at: usize) -> (value: &V)
        requires
            self.wf(),
            at < self.size(),
        ensures
            self@.contains_key(self.name_at(at as int)),
            *value == self@[self.name_at(at as int)],
    {
        proof {
            assert(stands_at(self.entries@, self.name_at(at as int), at as int));
            self.lemma_entry(self.name_at(at as int), at as int);
        }
        &self.entries[at].1
    }

    /// Every name has a place.
    pub proof fn lemma_place(&self, name: Seq<char>)
        requires
            self@.contains_key(name),
        ensures
            exists|at: int| 0 <= at < self.size() && #[trigger] self.name_at(at) == name,
    {
        let at = choose|at: int| stands_at(self.entries@, name, at);
        assert(self.name_at(at) == name);
    }
}

} // verus!
