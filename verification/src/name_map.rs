//! A map from names to values.

use crate::text::same_text;
use vstd::prelude::*;

verus! {

/// A map from names to values, in which no name occurs twice.
#[derive(Debug)]
pub struct NameMap<T> {
    entries: Vec<(String, T)>,
}

/// The map that a list of names and values stands for.
spec fn entries_map<T>(entries: Seq<(String, T)>) -> Map<Seq<char>, T>
    decreases entries.len(),
{
    if entries.len() == 0 {
        Map::empty()
    } else {
        entries_map(entries.drop_last()).insert(entries.last().0@, entries.last().1)
    }
}

/// Whether no name occurs twice in the list.
spec fn names_differ<T>(entries: Seq<(String, T)>) -> bool {
    forall|i: int, j: int|
        0 <= i < j < entries.len() ==> #[trigger] entries[i].0@ != #[trigger] entries[j].0@
}

/// The names in a list, in their order.
pub open spec fn texts(names: Seq<&str>) -> Seq<Seq<char>> {
    names.map_values(|name: &str| name@)
}

/// The list says of each name what the map says, and of no other.
proof fn lemma_entries_map<T>(entries: Seq<(String, T)>)
    requires
        names_differ(entries),
    ensures
        forall|i: int|
            0 <= i < entries.len() ==> {
                &&& entries_map(entries).contains_key((#[trigger] entries[i]).0@)
                &&& entries_map(entries)[entries[i].0@] == entries[i].1
            },
        forall|name: Seq<char>| #[trigger]
            entries_map(entries).contains_key(name) ==> exists|i: int|
                0 <= i < entries.len() && (#[trigger] entries[i]).0@ == name,
    decreases entries.len(),
{
    if entries.len() > 0 {
        let front = entries.drop_last();
        let last = entries.len() - 1;
        lemma_entries_map(front);
        assert forall|i: int| 0 <= i < entries.len() implies {
            &&& entries_map(entries).contains_key((#[trigger] entries[i]).0@)
            &&& entries_map(entries)[entries[i].0@] == entries[i].1
        } by {
            if i < last {
                assert(entries[i] == front[i]);
                assert(entries[i].0@ != entries[last].0@);
            }
        }
        assert forall|name: Seq<char>| #[trigger]
            entries_map(entries).contains_key(name) implies exists|i: int|
            0 <= i < entries.len() && (#[trigger] entries[i]).0@ == name by {
            if name == entries[last].0@ {
            } else {
                assert(entries_map(front).contains_key(name));
                let i = choose|i: int| 0 <= i < front.len() && (#[trigger] front[i]).0@ == name;
                assert(entries[i] == front[i]);
            }
        }
    }
}

impl<T> View for NameMap<T> {
    type V = Map<Seq<char>, T>;

    closed spec fn view(&self) -> Map<Seq<char>, T> {
        entries_map(self.entries@)
    }
}

impl<T> NameMap<T> {
    #[verifier::type_invariant]
    spec fn well_formed(self) -> bool {
        names_differ(self.entries@)
    }

    /// A map without names.
    pub fn new() -> (map: NameMap<T>)
        ensures
            map@ == Map::<Seq<char>, T>::empty(),
    {
        NameMap { entries: Vec::new() }
    }

    /// Where the name stands in the list.
    fn position(&self, name: &str) -> (at: Option<usize>)
        ensures
            at is Some <==> self@.contains_key(name@),
            at matches Some(at) ==> at < self.entries.len() && self.entries@[at as int].0@
                == name@,
    {
        proof {
            use_type_invariant(self);
            lemma_entries_map(self.entries@);
        }
        for i in 0..self.entries.len()
            invariant
                forall|j: int| 0 <= j < i ==> (#[trigger] self.entries@[j]).0@ != name@,
                forall|j: int|
                    0 <= j < self.entries.len() ==> self@.contains_key(
                        (#[trigger] self.entries@[j]).0@,
                    ),
        {
            if same_text(self.entries[i].0.as_str(), name) {
                assert(self@.contains_key(self.entries@[i as int].0@));
                return Some(i);
            }
        }
        None
    }

    /// Gives the name that value, whatever it had before.
    pub fn insert(&mut self, name: String, value: T)
        ensures
            final(self)@ == old(self)@.insert(name@, value),
    {
        let at = self.position(name.as_str());
        proof {
            use_type_invariant(&*self);
            lemma_entries_map(self.entries@);
        }
        let ghost before = self.entries@;
        let ghost (new_name, new_value) = (name@, value);
        let mut entries: Vec<(String, T)> = Vec::new();
        std::mem::swap(&mut entries, &mut self.entries);
        match at {
            Some(i) => {
                entries.set(i, (name, value));
            },
            None => {
                entries.push((name, value));
            },
        }
        proof {
            assert(names_differ(entries@)) by {
                assert forall|i: int, j: int| 0 <= i < j < entries@.len() implies #[trigger] entries@[i].0@
                    != #[trigger] entries@[j].0@ by {
                    if at is None && j == before.len() {
                        assert(entries@[i] == before[i]);
                        assert(entries_map(before).contains_key(before[i].0@));
                    } else {
                        assert(before[i].0@ != before[j].0@);
                    }
                }
            }
            lemma_entries_map(entries@);
            let after = entries_map(entries@);
            let expected = entries_map(before).insert(new_name, new_value);
            assert forall|n: Seq<char>| #[trigger]
                after.dom().contains(n) implies expected.dom().contains(n) && after[n]
                == expected[n] by {
                assert(after.contains_key(n));
                let i = choose|i: int| 0 <= i < entries@.len() && (#[trigger] entries@[i]).0@ == n;
                if n != new_name {
                    assert(entries@[i] == before[i]);
                }
            }
            assert forall|n: Seq<char>| #[trigger]
                expected.dom().contains(n) implies after.dom().contains(n) by {
                if n == new_name {
                    let i = if at is Some {
                        at->0 as int
                    } else {
                        before.len() as int
                    };
                    assert(entries@[i].0@ == n);
                } else {
                    assert(entries_map(before).contains_key(n));
                    let i = choose|i: int|
                        0 <= i < before.len() && (#[trigger] before[i]).0@ == n;
                    assert(entries@[i] == before[i]);
                }
            }
            assert(after.dom() =~= expected.dom());
            assert(after =~= expected);
        }
        self.entries = entries;
    }

    /// Whether the map has that name.
    pub fn contains(&self, name: &str) -> (yes: bool)
        ensures
            yes == self@.contains_key(name@),
    {
        self.position(name).is_some()
    }

    /// The value of that name, where the map has it.
    pub fn get(&self, name: &str) -> (value: Option<&T>)
        ensures
            value is Some <==> self@.contains_key(name@),
            value matches Some(value) ==> self@[name@] == *value,
    {
        proof {
            use_type_invariant(self);
            lemma_entries_map(self.entries@);
        }
        match self.position(name) {
            Some(i) => Some(&self.entries[i].1),
            None => None,
        }
    }

    /// The names that the map has, each of them once.
    pub fn names(&self) -> (names: Vec<&str>)
        ensures
            texts(names@).no_duplicates(),
            texts(names@).to_set() == self@.dom(),
    {
        proof {
            use_type_invariant(self);
            lemma_entries_map(self.entries@);
        }
        let mut names: Vec<&str> = Vec::new();
        for i in 0..self.entries.len()
            invariant
                names@.len() == i,
                forall|j: int| 0 <= j < i ==> (#[trigger] names@[j])@ == self.entries@[j].0@,
        {
            names.push(self.entries[i].0.as_str());
        }
        proof {
            let all = texts(names@);
            assert forall|i: int, j: int| 0 <= i < all.len() && 0 <= j < all.len() && i != j implies all[i]
                != all[j] by {
                if i < j {
                    assert(self.entries@[i].0@ != self.entries@[j].0@);
                } else {
                    assert(self.entries@[j].0@ != self.entries@[i].0@);
                }
            }
            assert forall|name: Seq<char>| all.to_set().contains(name) == self@.dom().contains(name) by {
                if self@.contains_key(name) {
                    let i = choose|i: int|
                        0 <= i < self.entries@.len() && (#[trigger] self.entries@[i]).0@ == name;
                    assert(all[i] == name);
                }
                if all.to_set().contains(name) {
                    let i = choose|i: int| 0 <= i < all.len() && all[i] == name;
                    assert(self.entries@[i].0@ == name);
                }
            }
            assert(all.to_set() =~= self@.dom());
        }
        names
    }
}

} // verus!
