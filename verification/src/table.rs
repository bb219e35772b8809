//! A table of values that are found by name.
use vstd::prelude::*;
use vstd::string::*;

use crate::text;
use crate::text::same;

verus! {

/// Values that are found by name; every name stands in the table at most once.
#[derive(Debug)]
pub struct Table<V> {
    entries: Vec<(String, V)>,
}

impl<V> Table<V> {
    #[verifier::type_invariant]
    spec fn names_are_distinct(self) -> bool {
        distinct_names(self.entries@)
    }

    /// The names in the table.
    pub closed spec fn names(self) -> Seq<Seq<char>> {
        names_of(self.entries@)
    }
}

/// Whether no two entries have the same name.
spec fn distinct_names<V>(s: Seq<(String, V)>) -> bool {
    forall|i: int, j: int| 0 <= i < j < s.len() ==> (#[trigger] s[i]).0@ != (#[trigger] s[j]).0@
}

/// Whether an entry has the given name.
spec fn has_name<V>(s: Seq<(String, V)>, k: Seq<char>) -> bool {
    exists|i: int| 0 <= i < s.len() && (#[trigger] s[i]).0@ == k
}

/// The position of the entry with the given name.
spec fn position<V>(s: Seq<(String, V)>, k: Seq<char>) -> int {
    choose|i: int| 0 <= i < s.len() && (#[trigger] s[i]).0@ == k
}

/// The entries as a map from name to value.
spec fn as_map<V>(s: Seq<(String, V)>) -> Map<Seq<char>, V> {
    Map::new(|k: Seq<char>| has_name(s, k), |k: Seq<char>| s[position(s, k)].1)
}

impl<V> View for Table<V> {
    type V = Map<Seq<char>, V>;

    closed spec fn view(&self) -> Map<Seq<char>, V> {
        as_map(self.entries@)
    }
}

proof fn lemma_position<V>(s: Seq<(String, V)>, i: int)
    requires
        distinct_names(s),
        0 <= i < s.len(),
    ensures
        has_name(s, s[i].0@),
        position(s, s[i].0@) == i,
        as_map(s).contains_key(s[i].0@),
        as_map(s)[s[i].0@] == s[i].1,
{
    let j = position(s, s[i].0@);
    assert(s[j].0@ == s[i].0@);
}

spec fn names_of<V>(s: Seq<(String, V)>) -> Seq<Seq<char>> {
    s.map_values(|e: (String, V)| e.0@)
}

proof fn lemma_names<V>(s: Seq<(String, V)>)
    requires
        distinct_names(s),
    ensures
        names_of(s).no_duplicates(),
        forall|k: Seq<char>| names_of(s).contains(k) <==> #[trigger] as_map(s).contains_key(k),
{
    assert forall|k: Seq<char>| names_of(s).contains(k) <==> #[trigger] as_map(s).contains_key(
        k,
    ) by {
        if names_of(s).contains(k) {
            let i = choose|i: int| 0 <= i < names_of(s).len() && names_of(s)[i] == k;
            assert(s[i].0@ == k);
        }
        if has_name(s, k) {
            let i = position(s, k);
            assert(names_of(s)[i] == k);
        }
    }
}

impl<V> Table<V> {
    /// A table without entries.
    pub fn new() -> (r: Table<V>)
        ensures
            r@ == Map::<Seq<char>, V>::empty(),
            r.names() == Seq::<Seq<char>>::empty(),
    {
        let r = Table { entries: Vec::new() };
        assert(r@ =~= Map::<Seq<char>, V>::empty());
        assert(r.names() =~= Seq::<Seq<char>>::empty());
        r
    }

    /// Number of entries.
    pub fn len(&self) -> (r: usize)
        ensures
            r == self.names().len(),
    {
        self.entries.len()
    }

    /// Whether there is no entry.
    pub fn is_empty(&self) -> (r: bool)
        ensures
            r == (self.names().len() == 0),
            r == (self@ == Map::<Seq<char>, V>::empty()),
    {
        proof {
            use_type_invariant(self);
            if self.entries@.len() == 0 {
                assert(self@ =~= Map::<Seq<char>, V>::empty());
            } else {
                lemma_position(self.entries@, 0);
                assert(self@.contains_key(self.entries@[0].0@));
            }
        }
        self.entries.len() == 0
    }

    fn find(&self, name: &str) -> (r: Option<usize>)
        ensures
            match r {
                Some(i) => i < self.entries@.len() && self.entries@[i as int].0@ == name@
                    && self@.contains_key(name@) && self@[name@] == self.entries@[i as int].1,
                None => !self@.contains_key(name@),
            },
    {
        let mut i: usize = 0;
        while i < self.entries.len()
            invariant
                i <= self.entries.len(),
                forall|j: int| 0 <= j < i ==> (#[trigger] self.entries@[j]).0@ != name@,
            decreases self.entries.len() - i,
        {
            if same(self.entries[i].0.as_str(), name) {
                proof {
                    use_type_invariant(self);
                    lemma_position(self.entries@, i as int);
                }
                return Some(i);
            }
            i = i + 1;
        }
        None
    }

    /// Whether there is an entry with the given name.
    pub fn contains_key(&self, name: &str) -> (r: bool)
        ensures
            r == self@.contains_key(name@),
    {
        self.find(name).is_some()
    }

    /// The value with the given name.
    pub fn get(&self, name: &str) -> (r: Option<&V>)
        ensures
            match r {
                Some(v) => self@.contains_key(name@) && *v == self@[name@],
                None => !self@.contains_key(name@),
            },
    {
        match self.find(name) {
            Some(i) => Some(&self.entries[i].1),
            None => None,
        }
    }

    /// Put a value under a name, replacing the one that was there.
    pub fn insert(&mut self, name: String, value: V)
        ensures
            final(self)@ == old(self)@.insert(name@, value),
            final(self).names() == (if old(self)@.contains_key(name@) {
                old(self).names()
            } else {
                old(self).names().push(name@)
            }),
    {
        let found = self.find(name.as_str());
        let mut entries: Vec<(String, V)> = Vec::new();
        proof {
            use_type_invariant(&*self);
        }
        std::mem::swap(&mut entries, &mut self.entries);
        let ghost before = entries@;
        match found {
            Some(i) => {
                entries.set(i, (name, value));
                proof {
                    let after = entries@;
                    assert forall|k: Seq<char>| has_name(after, k) <==> has_name(before, k) by {
                        if has_name(before, k) {
                            let j = position(before, k);
                            assert(after[j].0@ == k);
                        }
                        if has_name(after, k) {
                            let j = position(after, k);
                            assert(before[j].0@ == k);
                        }
                    }
                    lemma_position(after, i as int);
                    lemma_position(before, i as int);
                    assert forall|k: Seq<char>| has_name(after, k) && k != name@ implies as_map(
                        after,
                    )[k] == as_map(before)[k] by {
                        let j = position(after, k);
                        lemma_position(after, j);
                        lemma_position(before, j);
                    }
                    assert(as_map(after) =~= as_map(before).insert(name@, value));
                    assert(names_of(after) =~= names_of(before));
                }
            },
            None => {
                proof {
                    assert forall|j: int| 0 <= j < before.len() implies (#[trigger] before[j]).0@
                        != name@ by {
                        if before[j].0@ == name@ {
                            assert(has_name(before, name@));
                        }
                    }
                }
                entries.push((name, value));
                proof {
                    let after = entries@;
                    let n = before.len() as int;
                    assert forall|k: Seq<char>| has_name(after, k) <==> (has_name(before, k) || k
                        == name@) by {
                        if has_name(before, k) {
                            let j = position(before, k);
                            assert(after[j].0@ == k);
                        }
                        assert(after[n].0@ == name@);
                        if has_name(after, k) && k != name@ {
                            let j = position(after, k);
                            assert(before[j].0@ == k);
                        }
                    }
                    lemma_position(after, n);
                    assert forall|k: Seq<char>| has_name(after, k) && k != name@ implies as_map(
                        after,
                    )[k] == as_map(before)[k] by {
                        let j = position(before, k);
                        lemma_position(after, j);
                        lemma_position(before, j);
                    }
                    assert(as_map(after) =~= as_map(before).insert(name@, value));
                    assert(names_of(after) =~= names_of(before).push(name@));
                }
            },
        }
        self.entries = entries;
    }

    /// Take the value with the given name out of the table.
    pub fn remove(&mut self, name: &str) -> (r: Option<V>)
        ensures
            match r {
                Some(v) => old(self)@.contains_key(name@) && v == old(self)@[name@],
                None => !old(self)@.contains_key(name@),
            },
            final(self)@ == old(self)@.remove(name@),
    {
        let found = self.find(name);
        proof {
            use_type_invariant(&*self);
        }
        match found {
            None => {
                assert(self@ =~= self@.remove(name@));
                None
            },
            Some(i) => {
                let mut entries: Vec<(String, V)> = Vec::new();
                std::mem::swap(&mut entries, &mut self.entries);
                let ghost before = entries@;
                let (_, value) = entries.remove(i);
                proof {
                    let after = entries@;
                    assert(after == before.remove(i as int));
                    assert forall|a: int, b: int| 0 <= a < b < after.len() implies (
                    #[trigger] after[a]).0@ != (#[trigger] after[b]).0@ by {
                        let x = if a < i {
                            a
                        } else {
                            a + 1
                        };
                        let y = if b < i {
                            b
                        } else {
                            b + 1
                        };
                        assert(before[x].0@ != before[y].0@);
                    }
                    assert forall|k: Seq<char>| has_name(after, k) <==> (has_name(before, k) && k
                        != name@) by {
                        if has_name(before, k) && k != name@ {
                            let j = position(before, k);
                            let x = if j < i {
                                j
                            } else {
                                j - 1
                            };
                            assert(after[x].0@ == k);
                        }
                        if has_name(after, k) {
                            let j = position(after, k);
                            let x = if j < i {
                                j
                            } else {
                                j + 1
                            };
                            assert(before[x].0@ == k);
                            assert(x != i);
                        }
                    }
                    assert forall|k: Seq<char>| has_name(after, k) implies as_map(after)[k]
                        == as_map(before)[k] by {
                        let j = position(after, k);
                        let x = if j < i {
                            j
                        } else {
                            j + 1
                        };
                        lemma_position(after, j);
                        lemma_position(before, x);
                    }
                    assert(as_map(after) =~= as_map(before).remove(name@));
                }
                self.entries = entries;
                Some(value)
            },
        }
    }

    /// The names in the table.
    pub fn keys(&self) -> (r: Vec<String>)
        ensures
            text::texts(r@) == self.names(),
            self.names().no_duplicates(),
            forall|k: Seq<char>| self.names().contains(k) <==> #[trigger] self@.contains_key(k),
    {
        let mut out: Vec<String> = Vec::new();
        let mut i: usize = 0;
        while i < self.entries.len()
            invariant
                i <= self.entries.len(),
                out@.len() == i,
                forall|j: int| 0 <= j < i ==> (#[trigger] out@[j])@ == self.entries@[j].0@,
            decreases self.entries.len() - i,
        {
            out.push(self.entries[i].0.clone());
            i = i + 1;
        }
        proof {
            assert(text::texts(out@) =~= self.names());
            use_type_invariant(self);
            lemma_names(self.entries@);
        }
        out
    }

    /// The name at a position.
    pub fn name_at(&self, i: usize) -> (r: &str)
        requires
            i < self.names().len(),
        ensures
            r@ == self.names()[i as int],
    {
        self.entries[i].0.as_str()
    }

    /// The value at a position.
    pub fn value_at(&self, i: usize) -> (r: &V)
        requires
            i < self.names().len(),
        ensures
            self@.contains_key(self.names()[i as int]),
            *r == self@[self.names()[i as int]],
    {
        proof {
            use_type_invariant(self);
            lemma_position(self.entries@, i as int);
        }
        &self.entries[i].1
    }
}

} // verus!
