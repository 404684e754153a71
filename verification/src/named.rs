//! A small table of values by name, in which no name occurs twice.

use vstd::prelude::*;

verus! {

/// Values filed under names. A name holds at most one value; filing another
/// under it replaces the first.
#[derive(Debug)]
pub struct Named<V> {
    entries: Vec<(String, V)>,
}

/// Whether no two entries bear the same name.
pub open spec fn distinct_names<V>(entries: Seq<(String, V)>) -> bool {
    forall|i: int, j: int|
        0 <= i < j < entries.len() ==> (#[trigger] entries[i]).0@ != (#[trigger] entries[j]).0@
}

/// Whether some entry bears the name.
pub open spec fn has_name<V>(entries: Seq<(String, V)>, name: Seq<char>) -> bool {
    exists|i: int| 0 <= i < entries.len() && (#[trigger] entries[i]).0@ == name
}

/// The place of an entry that bears the name.
pub open spec fn place_of<V>(entries: Seq<(String, V)>, name: Seq<char>) -> int {
    choose|i: int| 0 <= i < entries.len() && (#[trigger] entries[i]).0@ == name
}

impl<V> Named<V> {
    #[verifier::type_invariant]
    spec fn well_formed(self) -> bool {
        distinct_names(self.entries@)
    }

    /// The table as a map from names to values.
    pub closed spec fn view(&self) -> Map<Seq<char>, V> {
        Map::new(
            |name: Seq<char>| has_name(self.entries@, name),
            |name: Seq<char>| self.entries@[place_of(self.entries@, name)].1,
        )
    }

    /// An empty table.
    pub fn new() -> (table: Self)
        ensures
            table@ == Map::<Seq<char>, V>::empty(),
    {
        let table = Named { entries: Vec::new() };
        assert(table@ =~= Map::<Seq<char>, V>::empty());
        table
    }

    fn find(&self, name: &str) -> (place: Option<usize>)
        ensures
            match place {
                Some(i) => i < self.entries.len() && self.entries[i as int].0@ == name@,
                None => !has_name(self.entries@, name@),
            },
    {
        let mut i: usize = 0;
        while i < self.entries.len()
            invariant
                i <= self.entries.len(),
                forall|j: int| 0 <= j < i ==> (#[trigger] self.entries[j]).0@ != name@,
            decreases self.entries.len() - i,
        {
            if *self.entries[i].0.as_str() == *name {
                return Some(i);
            }
            i = i + 1;
        }
        None
    }

    /// The value filed under `name`, if there is one.
    pub fn get(&self, name: &str) -> (found: Option<&V>)
        ensures
            match found {
                Some(value) => self@.contains_key(name@) && self@[name@] == *value,
                None => !self@.contains_key(name@),
            },
    {
        proof {
            use_type_invariant(self);
        }
        match self.find(name) {
            Some(i) => {
                assert(has_name(self.entries@, name@));
                assert(place_of(self.entries@, name@) == i);
                Some(&self.entries[i].1)
            },
            None => None,
        }
    }

    /// The table with `value` filed under `name`, in place of what was there.
    pub fn insert(self, name: String, value: V) -> (table: Self)
        ensures
            table@ == self@.insert(name@, value),
    {
        proof {
            use_type_invariant(&self);
        }
        let ghost before = self.entries@;
        let ghost key = name@;
        let found = self.find(name.as_str());
        let mut entries = self.entries;
        match found {
            Some(i) => {
                entries.set(i, (name, value));
                assert forall|a: int, b: int| 0 <= a < b < entries@.len() implies (
                #[trigger] entries@[a]).0@ != (#[trigger] entries@[b]).0@ by {
                    assert(before[a].0@ != before[b].0@);
                }
            },
            None => {
                entries.push((name, value));
                assert forall|a: int, b: int| 0 <= a < b < entries@.len() implies (
                #[trigger] entries@[a]).0@ != (#[trigger] entries@[b]).0@ by {
                    if b < before.len() {
                        assert(before[a].0@ != before[b].0@);
                    } else {
                        assert(before[a].0@ != key);
                    }
                }
            },
        }
        let table = Named { entries };
        proof {
            let after = table.entries@;
            assert(has_name(after, key)) by {
                match found {
                    Some(i) => {
                        assert(after[i as int].0@ == key);
                    },
                    None => {
                        assert(after[after.len() - 1].0@ == key);
                    },
                }
            }
            assert forall|other: Seq<char>|
                has_name(after, other) == (other == key || has_name(before, other)) by {
                if has_name(after, other) && other != key {
                    let k = place_of(after, other);
                    assert(before[k].0@ == other);
                }
                if other != key && has_name(before, other) {
                    let k = place_of(before, other);
                    assert(after[k].0@ == other);
                }
            }
            assert forall|other: Seq<char>| has_name(after, other) implies #[trigger] table@[other]
                == self@.insert(key, value)[other] by {
                let k = place_of(after, other);
                if other == key {
                    assert(after[k].1 == value);
                } else {
                    let b = place_of(before, other);
                    assert(before[b].0@ == other);
                    assert(after[b].0@ == other);
                    assert(k == b);
                }
            }
            assert(table@ =~= self@.insert(key, value));
        }
        table
    }
}

/// The text filed under `name`, or `default` where the name holds none.
pub open spec fn text_or(table: Map<Seq<char>, String>, name: Seq<char>, default: Seq<char>) -> Seq<
    char,
> {
    if table.contains_key(name) {
        table[name]@
    } else {
        default
    }
}

impl Named<String> {
    /// A copy of the text filed under `name`, or of `default` where the name
    /// holds none.
    pub fn get_or(&self, name: &str, default: &str) -> (text: String)
        ensures
            text@ == text_or(self@, name@, default@),
    {
        match self.get(name) {
            Some(value) => value.clone(),
            None => default.to_owned(),
        }
    }
}

} // verus!
