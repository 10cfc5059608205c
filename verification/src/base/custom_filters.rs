//! Source-specific search filters: a map from filter name to filter value.
//!
//! The map holds its entries in a vector in which no name occurs twice.
//! All contracts speak of the map; the order of the vector means nothing.

use vstd::prelude::*;
use vstd::set_lib::lemma_subset_equality;
use vstd::std_specs::cmp::PartialEqSpecImpl;

verus! {

/// The map that a sequence of name-value pairs stands for. Where a name
/// occurs twice, the later pair counts.
pub open spec fn pairs_map(pairs: Seq<(String, String)>) -> Map<Seq<char>, Seq<char>>
    decreases pairs.len(),
{
    if pairs.len() == 0 {
        Map::empty()
    } else {
        pairs_map(pairs.drop_last()).insert(pairs.last().0@, pairs.last().1@)
    }
}

/// No name occurs twice in the sequence.
pub open spec fn names_distinct(pairs: Seq<(String, String)>) -> bool {
    forall|i: int, j: int| 0 <= i < j < pairs.len() ==> pairs[i].0@ != pairs[j].0@
}

/// Names that are distinct stay so where the last pair is left out.
proof fn lemma_names_distinct_front(pairs: Seq<(String, String)>)
    requires
        names_distinct(pairs),
        pairs.len() > 0,
    ensures
        names_distinct(pairs.drop_last()),
{
    let front = pairs.drop_last();
    assert forall|a: int, b: int| 0 <= a < b < front.len() implies front[a].0@ != front[b].0@ by {
        assert(pairs[a].0@ != pairs[b].0@);
    }
}

/// A name is in the map exactly if some pair has it.
pub proof fn lemma_pairs_map_domain(pairs: Seq<(String, String)>, name: Seq<char>)
    ensures
        pairs_map(pairs).contains_key(name) <==> exists|i: int|
            0 <= i < pairs.len() && #[trigger] pairs[i].0@ == name,
        pairs_map(pairs).dom().finite(),
    decreases pairs.len(),
{
    if pairs.len() > 0 {
        let front = pairs.drop_last();
        lemma_pairs_map_domain(front, name);
        if pairs_map(pairs).contains_key(name) {
            if pairs.last().0@ == name {
                assert(pairs[pairs.len() - 1].0@ == name);
            } else {
                let i = choose|i: int| 0 <= i < front.len() && #[trigger] front[i].0@ == name;
                assert(pairs[i].0@ == name);
            }
        }
        if exists|i: int| 0 <= i < pairs.len() && #[trigger] pairs[i].0@ == name {
            let i = choose|i: int| 0 <= i < pairs.len() && #[trigger] pairs[i].0@ == name;
            if i < pairs.len() - 1 {
                assert(front[i].0@ == name);
            }
        }
    }
}

/// Where no name occurs twice, each pair's value is the map's value for its
/// name.
pub proof fn lemma_pairs_map_value(pairs: Seq<(String, String)>, i: int)
    requires
        names_distinct(pairs),
        0 <= i < pairs.len(),
    ensures
        pairs_map(pairs).contains_key(pairs[i].0@),
        pairs_map(pairs)[pairs[i].0@] == pairs[i].1@,
    decreases pairs.len(),
{
    let front = pairs.drop_last();
    if i < pairs.len() - 1 {
        lemma_names_distinct_front(pairs);
        lemma_pairs_map_value(front, i);
        assert(front[i] == pairs[i]);
        assert(pairs[i].0@ != pairs[pairs.len() - 1].0@);
    }
}

/// Where no name occurs twice, the map has as many entries as there are
/// pairs.
pub proof fn lemma_pairs_map_len(pairs: Seq<(String, String)>)
    requires
        names_distinct(pairs),
    ensures
        pairs_map(pairs).dom().finite(),
        pairs_map(pairs).len() == pairs.len(),
    decreases pairs.len(),
{
    if pairs.len() > 0 {
        let front = pairs.drop_last();
        let last = pairs.last();
        lemma_names_distinct_front(pairs);
        lemma_pairs_map_len(front);
        lemma_pairs_map_domain(front, last.0@);
        if pairs_map(front).contains_key(last.0@) {
            let i = choose|i: int| 0 <= i < front.len() && #[trigger] front[i].0@ == last.0@;
            assert(pairs[i].0@ != pairs[pairs.len() - 1].0@);
        }
        assert(pairs_map(pairs).dom() =~= pairs_map(front).dom().insert(last.0@));
    } else {
        assert(pairs_map(pairs).dom() =~= Set::<Seq<char>>::empty());
    }
}

/// Taking a pair out of a sequence without repeated names takes its name
/// out of the map.
pub proof fn lemma_pairs_map_remove(pairs: Seq<(String, String)>, i: int)
    requires
        names_distinct(pairs),
        0 <= i < pairs.len(),
    ensures
        names_distinct(pairs.remove(i)),
        pairs_map(pairs.remove(i)) == pairs_map(pairs).remove(pairs[i].0@),
    decreases pairs.len(),
{
    let rest = pairs.remove(i);
    assert(names_distinct(rest)) by {
        assert forall|a: int, b: int| 0 <= a < b < rest.len() implies rest[a].0@ != rest[b].0@ by {
            let a0 = if a < i {
                a
            } else {
                a + 1
            };
            let b0 = if b < i {
                b
            } else {
                b + 1
            };
            assert(pairs[a0].0@ != pairs[b0].0@);
        }
    }
    let front = pairs.drop_last();
    let last = pairs.last();
    if i == pairs.len() - 1 {
        assert(rest =~= front);
        lemma_pairs_map_domain(front, last.0@);
        if pairs_map(front).contains_key(last.0@) {
            let j = choose|j: int| 0 <= j < front.len() && #[trigger] front[j].0@ == last.0@;
            assert(pairs[j].0@ != pairs[i].0@);
        }
        assert(pairs_map(front) =~= pairs_map(pairs).remove(last.0@));
    } else {
        lemma_names_distinct_front(pairs);
        lemma_pairs_map_remove(front, i);
        assert(rest.drop_last() =~= front.remove(i));
        assert(rest.last() == last);
        assert(front[i] == pairs[i]);
        assert(pairs[i].0@ != pairs[pairs.len() - 1].0@);
        assert(pairs_map(rest) =~= pairs_map(pairs).remove(pairs[i].0@));
    }
}

/// Source-specific search filters, by name. A source reads the names it
/// knows and passes over the others.
#[derive(Debug)]
pub struct CustomFilters {
    entries: Vec<(String, String)>,
}

impl View for CustomFilters {
    type V = Map<Seq<char>, Seq<char>>;

    closed spec fn view(&self) -> Map<Seq<char>, Seq<char>> {
        pairs_map(self.entries@)
    }
}

impl Clone for CustomFilters {
    /// A map with the same filters.
    fn clone(&self) -> (copy: Self)
        ensures
            copy@ == self@,
    {
        proof {
            use_type_invariant(self);
        }
        let mut entries: Vec<(String, String)> = Vec::new();
        let mut i: usize = 0;
        while i < self.entries.len()
            invariant
                i <= self.entries@.len(),
                entries@ == self.entries@.subrange(0, i as int),
            decreases self.entries@.len() - i,
        {
            let name = self.entries[i].0.clone();
            let value = self.entries[i].1.clone();
            entries.push((name, value));
            assert(entries@ =~= self.entries@.subrange(0, i + 1));
            i += 1;
        }
        assert(entries@ =~= self.entries@);
        CustomFilters { entries }
    }
}

impl PartialEq for CustomFilters {
    /// Two maps are equal where they hold the same filters, in whatever
    /// order.
    fn eq(&self, other: &Self) -> (equal: bool) {
        proof {
            use_type_invariant(self);
            use_type_invariant(other);
            lemma_pairs_map_len(self.entries@);
            lemma_pairs_map_len(other.entries@);
        }
        if self.entries.len() != other.entries.len() {
            return false;
        }
        let mut i: usize = 0;
        while i < self.entries.len()
            invariant
                i <= self.entries@.len(),
                names_distinct(self.entries@),
                names_distinct(other.entries@),
                forall|j: int|
                    0 <= j < i ==> other@.contains_key(#[trigger] self.entries@[j].0@)
                        && other@[self.entries@[j].0@] == self.entries@[j].1@,
            decreases self.entries@.len() - i,
        {
            proof {
                lemma_pairs_map_value(self.entries@, i as int);
            }
            match other.position(&self.entries[i].0) {
                Some(j) => {
                    proof {
                        lemma_pairs_map_value(other.entries@, j as int);
                    }
                    if !(other.entries[j].1 == self.entries[i].1) {
                        return false;
                    }
                },
                None => {
                    return false;
                },
            }
            i += 1;
        }
        proof {
            assert forall|name: Seq<char>| #[trigger]
                self@.dom().contains(name) implies other@.dom().contains(name) && other@[name]
                == self@[name] by {
                lemma_pairs_map_domain(self.entries@, name);
                let j = choose|j: int|
                    0 <= j < self.entries@.len() && #[trigger] self.entries@[j].0@ == name;
                lemma_pairs_map_value(self.entries@, j);
            }
            assert(self@.dom().subset_of(other@.dom()));
            lemma_subset_equality(self@.dom(), other@.dom());
            assert(self@ =~= other@);
        }
        true
    }
}

impl Eq for CustomFilters {

}

impl PartialEqSpecImpl for CustomFilters {
    open spec fn obeys_eq_spec() -> bool {
        true
    }

    open spec fn eq_spec(&self, other: &Self) -> bool {
        self@ == other@
    }
}

impl CustomFilters {
    /// No name occurs twice among the entries. This holds of every value
    /// that running code can hold.
    #[verifier::type_invariant]
    pub closed spec fn wf(&self) -> bool {
        names_distinct(self.entries@)
    }

    /// The entries in the order they are held in.
    pub closed spec fn spec_entries(&self) -> Seq<(String, String)> {
        self.entries@
    }

    /// No filter.
    pub fn new() -> (filters: Self)
        ensures
            filters@ == Map::<Seq<char>, Seq<char>>::empty(),
    {
        CustomFilters { entries: Vec::new() }
    }

    /// The number of filters.
    pub fn len(&self) -> (len: usize)
        ensures
            len == self@.len(),
            self@.dom().finite(),
    {
        proof {
            use_type_invariant(self);
            lemma_pairs_map_len(self.entries@);
        }
        self.entries.len()
    }

    /// Whether there is no filter.
    pub fn is_empty(&self) -> (empty: bool)
        ensures
            empty == (self@ == Map::<Seq<char>, Seq<char>>::empty()),
    {
        proof {
            use_type_invariant(self);
            lemma_pairs_map_len(self.entries@);
            if self.entries@.len() == 0 {
                assert(self@ =~= Map::<Seq<char>, Seq<char>>::empty());
            } else {
                assert(self@.len() != 0);
                assert(Map::<Seq<char>, Seq<char>>::empty().len() == 0);
            }
        }
        self.entries.len() == 0
    }

    /// The place of the entry with the given name, if there is one.
    fn position(&self, name: &String) -> (place: Option<usize>)
        ensures
            place matches Some(i) ==> i < self.entries@.len() && self.entries@[i as int].0@
                == name@,
            place is None ==> !self@.contains_key(name@),
    {
        let mut i: usize = 0;
        while i < self.entries.len()
            invariant
                i <= self.entries@.len(),
                forall|j: int| 0 <= j < i ==> self.entries@[j].0@ != name@,
            decreases self.entries@.len() - i,
        {
            if self.entries[i].0 == *name {
                return Some(i);
            }
            i += 1;
        }
        proof {
            lemma_pairs_map_domain(self.entries@, name@);
        }
        None
    }

    /// Whether there is a filter with the given name.
    pub fn contains_key(&self, name: &str) -> (found: bool)
        ensures
            found == self@.contains_key(name@),
    {
        let name = String::from_str(name);
        let place = self.position(&name);
        proof {
            lemma_pairs_map_domain(self.entries@, name@);
        }
        place.is_some()
    }

    /// The value of the filter with the given name.
    pub fn get(&self, name: &str) -> (value: Option<&String>)
        ensures
            value is Some <==> self@.contains_key(name@),
            value matches Some(found) ==> found@ == self@[name@],
    {
        let name = String::from_str(name);
        match self.position(&name) {
            Some(i) => {
                proof {
                    use_type_invariant(self);
                    lemma_pairs_map_value(self.entries@, i as int);
                }
                Some(&self.entries[i].1)
            },
            None => None,
        }
    }

    /// The filters with `name` set to `value`: a filter of that name is
    /// replaced, every other filter stays.
    pub fn with(self, name: String, value: String) -> (filters: Self)
        ensures
            filters@ == self@.insert(name@, value@),
    {
        proof {
            use_type_invariant(&self);
        }
        let ghost before = self.entries@;
        let place = self.position(&name);
        let mut entries = self.entries;
        match place {
            Some(i) => {
                proof {
                    lemma_pairs_map_remove(before, i as int);
                }
                entries.remove(i);
            },
            None => {},
        }
        let ghost rest = entries@;
        proof {
            lemma_pairs_map_domain(rest, name@);
        }
        entries.push((name, value));
        proof {
            let after = entries@;
            assert(after.drop_last() =~= rest);
            assert(names_distinct(after)) by {
                assert forall|a: int, b: int| 0 <= a < b < after.len() implies after[a].0@
                    != after[b].0@ by {
                    if b == after.len() - 1 {
                        assert(rest[a].0@ != name@);
                    } else {
                        assert(rest[a].0@ != rest[b].0@);
                    }
                }
            }
            assert(pairs_map(after) =~= pairs_map(before).insert(name@, value@));
        }
        CustomFilters { entries }
    }

    /// The filters as name-value pairs, each name once, in no order that
    /// means anything.
    pub fn entries(&self) -> (pairs: &Vec<(String, String)>)
        ensures
            pairs@ == self.spec_entries(),
            names_distinct(pairs@),
            pairs_map(pairs@) == self@,
    {
        proof {
            use_type_invariant(self);
        }
        &self.entries
    }
}

} // verus!
