//! An ordered mapping from header names to header values.

use vstd::prelude::*;
use crate::text::same_text;

verus! {

/// Whether an entry of the list carries the given name.
pub open spec fn has_name(entries: Seq<(Seq<char>, Seq<char>)>, name: Seq<char>) -> bool {
    exists|i: int| 0 <= i < entries.len() && (#[trigger] entries[i]).0 == name
}

/// The position of an entry that carries the given name, where there is one.
pub open spec fn position(entries: Seq<(Seq<char>, Seq<char>)>, name: Seq<char>) -> int {
    choose|i: int| 0 <= i < entries.len() && (#[trigger] entries[i]).0 == name
}

/// No two entries of the list carry the same name.
pub open spec fn distinct_names(entries: Seq<(Seq<char>, Seq<char>)>) -> bool {
    forall|i: int, j: int|
        0 <= i < j < entries.len() ==> (#[trigger] entries[i]).0 != (#[trigger] entries[j]).0
}

/// The value listed under the given name.
pub open spec fn lookup(entries: Seq<(Seq<char>, Seq<char>)>, name: Seq<char>) -> Option<
    Seq<char>,
> {
    if has_name(entries, name) {
        Some(entries[position(entries, name)].1)
    } else {
        None
    }
}

/// The list after `value` has been written under `name`: an entry of that
/// name keeps its place and takes the new value, a new name goes to the end.
pub open spec fn upsert(
    entries: Seq<(Seq<char>, Seq<char>)>,
    name: Seq<char>,
    value: Seq<char>,
) -> Seq<(Seq<char>, Seq<char>)> {
    if has_name(entries, name) {
        entries.update(position(entries, name), (name, value))
    } else {
        entries.push((name, value))
    }
}

/// The mapping that the list stands for.
pub open spec fn to_map(entries: Seq<(Seq<char>, Seq<char>)>) -> Map<Seq<char>, Seq<char>> {
    Map::new(
        |name: Seq<char>| has_name(entries, name),
        |name: Seq<char>| entries[position(entries, name)].1,
    )
}

/// The texts of a list of owned name and value pairs.
pub open spec fn pairs_view(entries: Seq<(String, String)>) -> Seq<(Seq<char>, Seq<char>)> {
    Seq::new(entries.len(), |i: int| (entries[i].0@, entries[i].1@))
}

/// In a list of distinct names, the entry of a given name is at one place only.
pub proof fn lemma_position_unique(entries: Seq<(Seq<char>, Seq<char>)>, name: Seq<char>, i: int)
    requires
        distinct_names(entries),
        0 <= i < entries.len(),
        entries[i].0 == name,
    ensures
        has_name(entries, name),
        position(entries, name) == i,
        lookup(entries, name) == Some(entries[i].1),
{
    let j = position(entries, name);
    assert(0 <= j < entries.len() && entries[j].0 == name);
    if i < j {
        assert(entries[i].0 != entries[j].0);
    } else if j < i {
        assert(entries[j].0 != entries[i].0);
    }
}

/// Writing a value under a name keeps the names distinct.
pub proof fn lemma_upsert_distinct(
    entries: Seq<(Seq<char>, Seq<char>)>,
    name: Seq<char>,
    value: Seq<char>,
)
    requires
        distinct_names(entries),
    ensures
        distinct_names(upsert(entries, name, value)),
{
    let after = upsert(entries, name, value);
    if has_name(entries, name) {
        let p = position(entries, name);
        assert forall|i: int, j: int| 0 <= i < j < after.len() implies (#[trigger] after[i]).0 != (
        #[trigger] after[j]).0 by {
            assert(entries[i].0 != entries[j].0);
        }
    } else {
        assert forall|i: int, j: int| 0 <= i < j < after.len() implies (#[trigger] after[i]).0 != (
        #[trigger] after[j]).0 by {
            if j < entries.len() {
                assert(entries[i].0 != entries[j].0);
            } else {
                assert(entries[i].0 != name);
            }
        }
    }
}

/// A name is listed after a write exactly if it was written or listed before.
pub proof fn lemma_upsert_names(
    entries: Seq<(Seq<char>, Seq<char>)>,
    name: Seq<char>,
    value: Seq<char>,
    other: Seq<char>,
)
    ensures
        has_name(upsert(entries, name, value), other) <==> (other == name || has_name(
            entries,
            other,
        )),
{
    let after = upsert(entries, name, value);
    if has_name(entries, name) {
        let p = position(entries, name);
        assert(after[p].0 == name);
        if has_name(entries, other) {
            let q = position(entries, other);
            assert(after[q].0 == other);
        }
        if has_name(after, other) {
            let q = position(after, other);
            assert(entries[q].0 == other);
        }
    } else {
        assert(after[entries.len() as int].0 == name);
        if has_name(entries, other) {
            let q = position(entries, other);
            assert(after[q].0 == other);
        }
        if has_name(after, other) && other != name {
            let q = position(after, other);
            assert(entries[q].0 == other);
        }
    }
}

/// The last value written under a name is the one that is found there, and
/// a write under one name leaves the values of all other names alone.
pub proof fn lemma_upsert_lookup(
    entries: Seq<(Seq<char>, Seq<char>)>,
    name: Seq<char>,
    value: Seq<char>,
    other: Seq<char>,
)
    requires
        distinct_names(entries),
    ensures
        lookup(upsert(entries, name, value), name) == Some(value),
        other != name ==> lookup(upsert(entries, name, value), other) == lookup(entries, other),
{
    let after = upsert(entries, name, value);
    lemma_upsert_distinct(entries, name, value);
    lemma_upsert_names(entries, name, value, other);
    if has_name(entries, name) {
        let p = position(entries, name);
        lemma_position_unique(after, name, p);
    } else {
        lemma_position_unique(after, name, entries.len() as int);
    }
    if other != name && has_name(entries, other) {
        let q = position(entries, other);
        assert(after[q] == entries[q]);
        lemma_position_unique(after, other, q);
    }
}

/// On the mapping that a list stands for, a write is the insertion of the
/// value under the name.
pub proof fn lemma_upsert_map(
    entries: Seq<(Seq<char>, Seq<char>)>,
    name: Seq<char>,
    value: Seq<char>,
)
    requires
        distinct_names(entries),
    ensures
        to_map(upsert(entries, name, value)) == to_map(entries).insert(name, value),
{
    let after = upsert(entries, name, value);
    let left = to_map(after);
    let right = to_map(entries).insert(name, value);
    assert forall|k: Seq<char>| left.dom().contains(k) <==> right.dom().contains(k) by {
        lemma_upsert_names(entries, name, value, k);
    }
    assert forall|k: Seq<char>| left.dom().contains(k) implies left[k] == right[k] by {
        lemma_upsert_names(entries, name, value, k);
        lemma_upsert_lookup(entries, name, value, k);
    }
    assert(left =~= right);
}

/// An ordered mapping from header names to header values. A name occurs at
/// most once; writing under a name that is present replaces its value.
#[derive(Debug)]
pub struct Headers {
    entries: Vec<(String, String)>,
}

impl View for Headers {
    type V = Seq<(Seq<char>, Seq<char>)>;

    closed spec fn view(&self) -> Seq<(Seq<char>, Seq<char>)> {
        pairs_view(self.entries@)
    }
}

impl Clone for Headers {
    /// A copy with the same names and values in the same order.
    fn clone(&self) -> (copy: Headers)
        ensures
            copy@ == self@,
    {
        proof {
            use_type_invariant(self);
        }
        let mut entries: Vec<(String, String)> = Vec::new();
        let mut i: usize = 0;
        while i < self.entries.len()
            invariant
                i <= self.entries.len(),
                entries@.len() == i,
                forall|j: int|
                    0 <= j < i ==> (#[trigger] entries@[j]).0@ == self.entries@[j].0@
                        && entries@[j].1@ == self.entries@[j].1@,
            decreases self.entries.len() - i,
        {
            entries.push((self.entries[i].0.clone(), self.entries[i].1.clone()));
            i += 1;
        }
        assert(pairs_view(entries@) =~= self@);
        Headers { entries }
    }
}

impl Headers {
    /// Every value of this type lists each name once.
    #[verifier::type_invariant]
    pub open spec fn well_formed(self) -> bool {
        distinct_names(self@)
    }

    /// The mapping from names to values that the headers stand for.
    pub open spec fn spec_map(&self) -> Map<Seq<char>, Seq<char>> {
        to_map(self@)
    }

    /// An empty mapping.
    pub fn new() -> (headers: Headers)
        ensures
            headers@ == Seq::<(Seq<char>, Seq<char>)>::empty(),
    {
        let headers = Headers { entries: Vec::new() };
        assert(headers@ =~= Seq::<(Seq<char>, Seq<char>)>::empty());
        headers
    }

    /// The number of names.
    pub fn len(&self) -> (count: usize)
        ensures
            count == self@.len(),
    {
        self.entries.len()
    }

    /// Whether there is no name at all.
    pub fn is_empty(&self) -> (empty: bool)
        ensures
            empty == (self@.len() == 0),
    {
        self.entries.len() == 0
    }

    /// The place of `name` in the list.
    fn find(&self, name: &str) -> (place: Option<usize>)
        ensures
            distinct_names(self@),
            match place {
                Some(i) => i < self@.len() && self@[i as int].0 == name@ && position(self@, name@)
                    == i && has_name(self@, name@),
                None => !has_name(self@, name@),
            },
    {
        proof {
            use_type_invariant(self);
        }
        let mut i: usize = 0;
        while i < self.entries.len()
            invariant
                i <= self.entries.len(),
                self@.len() == self.entries@.len(),
                distinct_names(self@),
                forall|j: int| 0 <= j < i ==> (#[trigger] self@[j]).0 != name@,
            decreases self.entries.len() - i,
        {
            if same_text(self.entries[i].0.as_str(), name) {
                proof {
                    lemma_position_unique(self@, name@, i as int);
                }
                return Some(i);
            }
            i += 1;
        }
        None
    }

    /// Whether a value is listed under `name`.
    pub fn contains_key(&self, name: &str) -> (present: bool)
        ensures
            present == has_name(self@, name@),
    {
        self.find(name).is_some()
    }

    /// The value listed under `name`.
    pub fn get(&self, name: &str) -> (value: Option<&String>)
        ensures
            match lookup(self@, name@) {
                Some(text) => value matches Some(s) && s@ == text,
                None => value is None,
            },
    {
        match self.find(name) {
            Some(i) => Some(&self.entries[i].1),
            None => None,
        }
    }

    /// The name and the value at a place in the list, for every place below
    /// `len()`.
    pub fn entry_at(&self, place: usize) -> (entry: Option<(&String, &String)>)
        ensures
            place < self@.len() ==> (entry matches Some(e) && e.0@ == self@[place as int].0 && e.1@
                == self@[place as int].1),
            place >= self@.len() ==> entry is None,
    {
        if place < self.entries.len() {
            Some((&self.entries[place].0, &self.entries[place].1))
        } else {
            None
        }
    }

    /// Writes `value` under `name` and returns the value it replaces. The
    /// last value written under a name is the one that stays.
    pub fn insert(&mut self, name: String, value: String) -> (previous: Option<String>)
        ensures
            final(self)@ == upsert(old(self)@, name@, value@),
            match lookup(old(self)@, name@) {
                Some(text) => previous matches Some(s) && s@ == text,
                None => previous is None,
            },
    {
        let place = self.find(name.as_str());
        let ghost before = self@;
        let mut entries: Vec<(String, String)> = Vec::new();
        core::mem::swap(&mut self.entries, &mut entries);
        assert(pairs_view(entries@) == before);
        proof {
            lemma_upsert_distinct(before, name@, value@);
        }
        let previous = match place {
            Some(i) => {
                let mut entry = (name, value);
                entries.set_and_swap(i, &mut entry);
                assert(pairs_view(entries@) =~= upsert(before, name@, value@));
                Some(entry.1)
            },
            None => {
                entries.push((name, value));
                assert(pairs_view(entries@) =~= upsert(before, name@, value@));
                None
            },
        };
        self.entries = entries;
        previous
    }
}

} // verus!
