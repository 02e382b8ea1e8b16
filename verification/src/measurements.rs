//! The measurements of one sensor report: a finite map from names to
//! values, both text.

use vstd::prelude::*;

verus! {

/// A map from measurement names to measurement values.
///
/// It is kept as a list of pairs in which the first pair with a given name
/// is the one that counts; `insert` overwrites that pair where there is one.
#[derive(Debug)]
pub struct Measurements {
    entries: Vec<(String, String)>,
}

/// `i` is the first place in `entries` that holds `name`.
spec fn first_at(entries: Seq<(String, String)>, name: Seq<char>, i: int) -> bool {
    &&& 0 <= i < entries.len()
    &&& entries[i].0@ == name
    &&& forall|j: int| 0 <= j < i ==> (#[trigger] entries[j]).0@ != name
}

/// The first place in `entries` that holds `name`, if there is one.
spec fn first_place(entries: Seq<(String, String)>, name: Seq<char>) -> int {
    choose|i: int| first_at(entries, name, i)
}

/// The map that a list of pairs stands for.
spec fn map_of(entries: Seq<(String, String)>) -> Map<Seq<char>, Seq<char>> {
    Map::new(
        |name: Seq<char>| exists|i: int| first_at(entries, name, i),
        |name: Seq<char>| entries[first_place(entries, name)].1@,
    )
}

/// No place of `entries` holds `name`.
spec fn holds_nowhere(entries: Seq<(String, String)>, name: Seq<char>) -> bool {
    forall|i: int| 0 <= i < entries.len() ==> (#[trigger] entries[i]).0@ != name
}

/// A name has one first place, and the map gives the value that stands
/// there.
proof fn lemma_first_place(entries: Seq<(String, String)>, name: Seq<char>, i: int)
    requires
        first_at(entries, name, i),
    ensures
        first_place(entries, name) == i,
        map_of(entries).contains_key(name),
        map_of(entries)[name] == entries[i].1@,
{
    let chosen = first_place(entries, name);
    assert(first_at(entries, name, chosen));
    if chosen < i {
        assert(entries[chosen].0@ != name);
    } else if i < chosen {
        assert(entries[i].0@ != name);
    }
}

/// A name that no place holds is not in the map.
proof fn lemma_absent(entries: Seq<(String, String)>, name: Seq<char>)
    requires
        holds_nowhere(entries, name),
    ensures
        !map_of(entries).contains_key(name),
{
    assert forall|i: int| !first_at(entries, name, i) by {
        if 0 <= i < entries.len() {
            assert(entries[i].0@ != name);
        }
    }
}

/// Every name of the map stands first somewhere in the list.
proof fn lemma_present(entries: Seq<(String, String)>, name: Seq<char>) -> (i: int)
    requires
        map_of(entries).contains_key(name),
    ensures
        first_at(entries, name, i),
        map_of(entries)[name] == entries[i].1@,
{
    let i = first_place(entries, name);
    assert(first_at(entries, name, i));
    i
}

/// A first place of `name` in `from` is one in `to`, if the two lists hold
/// the same names up to that place.
proof fn lemma_first_at_carries(
    from: Seq<(String, String)>,
    to: Seq<(String, String)>,
    name: Seq<char>,
    i: int,
)
    requires
        first_at(from, name, i),
        i < to.len(),
        forall|k: int| 0 <= k <= i ==> (#[trigger] to[k]).0@ == from[k].0@,
    ensures
        first_at(to, name, i),
        map_of(to).contains_key(name),
        map_of(to)[name] == to[i].1@,
{
    assert forall|k: int| 0 <= k < i implies (#[trigger] to[k]).0@ != name by {
        assert(from[k].0@ != name);
    }
    lemma_first_place(to, name, i);
}

/// Overwriting the value of the pair at `i` is an insertion under its name.
proof fn lemma_overwrite(entries: Seq<(String, String)>, i: int, name: String, value: String)
    requires
        first_at(entries, name@, i),
    ensures
        map_of(entries.update(i, (name, value))) == map_of(entries).insert(name@, value@),
{
    let after = entries.update(i, (name, value));
    let wanted = map_of(entries).insert(name@, value@);
    lemma_first_at_carries(entries, after, name@, i);
    assert forall|other: Seq<char>| #[trigger] map_of(after).contains_key(other) implies {
        &&& wanted.contains_key(other)
        &&& map_of(after)[other] == wanted[other]
    } by {
        let j = lemma_present(after, other);
        lemma_first_at_carries(after, entries, other, j);
    }
    assert forall|other: Seq<char>| #[trigger] wanted.contains_key(other) implies {
        map_of(after).contains_key(other)
    } by {
        if other != name@ {
            let j = lemma_present(entries, other);
            lemma_first_at_carries(entries, after, other, j);
        }
    }
    assert(map_of(after) =~= wanted);
}

/// Adding a pair under a name that the list does not hold is an insertion.
proof fn lemma_add(entries: Seq<(String, String)>, name: String, value: String)
    requires
        holds_nowhere(entries, name@),
    ensures
        map_of(entries.push((name, value))) == map_of(entries).insert(name@, value@),
{
    let after = entries.push((name, value));
    let wanted = map_of(entries).insert(name@, value@);
    let end = entries.len() as int;
    assert forall|k: int| 0 <= k < end implies (#[trigger] after[k]).0@ != name@ by {
        assert(entries[k].0@ != name@);
    }
    lemma_first_place(after, name@, end);
    lemma_absent(entries, name@);
    assert forall|other: Seq<char>| #[trigger] map_of(after).contains_key(other) implies {
        &&& wanted.contains_key(other)
        &&& map_of(after)[other] == wanted[other]
    } by {
        let j = lemma_present(after, other);
        if other != name@ {
            lemma_first_at_carries(after, entries, other, j);
        }
    }
    assert forall|other: Seq<char>| #[trigger] wanted.contains_key(other) implies {
        map_of(after).contains_key(other)
    } by {
        if other != name@ {
            let j = lemma_present(entries, other);
            lemma_first_at_carries(entries, after, other, j);
        }
    }
    assert(map_of(after) =~= wanted);
}

impl View for Measurements {
    type V = Map<Seq<char>, Seq<char>>;

    closed spec fn view(&self) -> Map<Seq<char>, Seq<char>> {
        map_of(self.entries@)
    }
}

impl Measurements {
    /// The empty map.
    pub fn new() -> (empty: Measurements)
        ensures
            empty@ == Map::<Seq<char>, Seq<char>>::empty(),
    {
        let empty = Measurements { entries: Vec::new() };
        proof {
            assert forall|name: Seq<char>| !map_of(empty.entries@).contains_key(name) by {
                lemma_absent(empty.entries@, name);
            }
            assert(empty@ =~= Map::<Seq<char>, Seq<char>>::empty());
        }
        empty
    }

    /// The first place that holds `name`.
    fn find(&self, name: &String) -> (place: Option<usize>)
        ensures
            match place {
                Some(i) => first_at(self.entries@, name@, i as int),
                None => holds_nowhere(self.entries@, name@),
            },
    {
        let mut i: usize = 0;
        while i < self.entries.len()
            invariant
                i <= self.entries@.len(),
                forall|j: int| 0 <= j < i ==> (#[trigger] self.entries@[j]).0@ != name@,
            decreases self.entries@.len() - i,
        {
            if self.entries[i].0 == *name {
                return Some(i);
            }
            i += 1;
        }
        None
    }

    /// Whether the map has a value under `name`.
    pub fn contains_key(&self, name: &str) -> (found: bool)
        ensures
            found == self@.contains_key(name@),
    {
        self.get(name).is_some()
    }

    /// The value under `name`, if the map has one.
    pub fn get(&self, name: &str) -> (value: Option<&String>)
        ensures
            match value {
                Some(v) => self@.contains_key(name@) && v@ == self@[name@],
                None => !self@.contains_key(name@),
            },
    {
        let owned = name.to_owned();
        match self.find(&owned) {
            Some(i) => {
                proof {
                    lemma_first_place(self.entries@, name@, i as int);
                }
                Some(&self.entries[i].1)
            },
            None => {
                proof {
                    lemma_absent(self.entries@, name@);
                }
                None
            },
        }
    }

    /// Puts `value` under `name`, in place of the value that was there.
    pub fn insert(&mut self, name: String, value: String)
        ensures
            final(self)@ == old(self)@.insert(name@, value@),
    {
        match self.find(&name) {
            Some(i) => {
                proof {
                    lemma_overwrite(self.entries@, i as int, name, value);
                }
                self.entries.set(i, (name, value));
            },
            None => {
                proof {
                    lemma_add(self.entries@, name, value);
                }
                self.entries.push((name, value));
            },
        }
    }
}

impl Clone for Measurements {
    fn clone(&self) -> (copy: Measurements)
        ensures
            copy@ == self@,
    {
        let mut entries: Vec<(String, String)> = Vec::new();
        let mut i: usize = 0;
        while i < self.entries.len()
            invariant
                i <= self.entries@.len(),
                entries@ == self.entries@.take(i as int),
            decreases self.entries@.len() - i,
        {
            let name = self.entries[i].0.clone();
            let value = self.entries[i].1.clone();
            entries.push((name, value));
            assert(self.entries@.take(i + 1) =~= self.entries@.take(i as int).push(
                self.entries@[i as int],
            ));
            i += 1;
        }
        assert(self.entries@.take(i as int) =~= self.entries@);
        Measurements { entries }
    }
}

} // verus!
