//! Ordered collections of records that are found by name.
//!
//! Row order on screen is the order of the underlying vector, so a record
//! is located by scanning for its name and never by hashing.

use vstd::prelude::*;

verus! {

/// A record that carries the name under which it is looked up.
pub trait Named {
    /// The record's name as a sequence of characters.
    spec fn name_view(&self) -> Seq<char>;

    /// The record's name.
    fn name(&self) -> (n: &String)
        ensures
            n@ == self.name_view(),
    ;
}

impl Named for String {
    open spec fn name_view(&self) -> Seq<char> {
        self@
    }

    fn name(&self) -> (n: &String) {
        self
    }
}

/// The names of `items`, in order.
pub open spec fn names_of<T: Named>(items: Seq<T>) -> Seq<Seq<char>> {
    Seq::new(items.len(), |i: int| items[i].name_view())
}

/// No two records of `items` share a name.
pub open spec fn unique_names<T: Named>(items: Seq<T>) -> bool {
    names_of(items).no_duplicates()
}

/// A position that holds `name` and has no `name` before it is the one that
/// `index_of_first` returns.
pub proof fn lemma_first_occurrence(names: Seq<Seq<char>>, name: Seq<char>, i: int)
    requires
        0 <= i < names.len(),
        names[i] == name,
        forall|j: int| 0 <= j < i ==> names[j] != name,
    ensures
        names.index_of_first(name) == Some(i),
{
    names.index_of_first_ensures(name);
    assert(names.contains(name));
}

/// Among distinct names, every position is the first occurrence of its name.
pub proof fn lemma_unique_position(names: Seq<Seq<char>>, i: int)
    requires
        names.no_duplicates(),
        0 <= i < names.len(),
    ensures
        names.index_of_first(names[i]) == Some(i),
{
    lemma_first_occurrence(names, names[i], i);
}

/// Finds the first record called `name`.
pub fn find_by_name<T: Named>(items: &Vec<T>, name: &String) -> (found: Option<usize>)
    ensures
        match found {
            Some(i) => names_of(items@).index_of_first(name@) == Some(i as int),
            None => names_of(items@).index_of_first(name@) is None,
        },
        found matches Some(i) ==> i < items.len() && items[i as int].name_view() == name@,
        found is None ==> !names_of(items@).contains(name@),
{
    let ghost names = names_of(items@);
    let mut i: usize = 0;
    while i < items.len()
        invariant
            i <= items.len(),
            names == names_of(items@),
            forall|j: int| 0 <= j < i ==> names[j] != name@,
        decreases items.len() - i,
    {
        if *items[i].name() == *name {
            proof {
                lemma_first_occurrence(names, name@, i as int);
            }
            return Some(i);
        }
        i += 1;
    }
    proof {
        names.index_of_first_ensures(name@);
        if names.contains(name@) {
            let k = choose|k: int| 0 <= k < names.len() && names[k] == name@;
            assert(names[k] != name@);
        }
    }
    None
}

/// Whether no two records of `items` share a name.
pub fn has_unique_names<T: Named>(items: &Vec<T>) -> (unique: bool)
    ensures
        unique == unique_names(items@),
{
    let ghost names = names_of(items@);
    let mut i: usize = 0;
    while i < items.len()
        invariant
            i <= items.len(),
            names == names_of(items@),
            forall|a: int, b: int| 0 <= a < b < i ==> names[a] != names[b],
        decreases items.len() - i,
    {
        let mut j: usize = 0;
        while j < i
            invariant
                j <= i,
                i < items.len(),
                names == names_of(items@),
                forall|a: int| 0 <= a < j ==> names[a] != names[i as int],
            decreases i - j,
        {
            if *items[j].name() == *items[i].name() {
                proof {
                    assert(names[j as int] == names[i as int]);
                }
                return false;
            }
            j += 1;
        }
        i += 1;
    }
    proof {
        assert forall|a: int, b: int|
            0 <= a < names.len() && 0 <= b < names.len() && a != b implies names[a]
            != names[b] by {
            if a < b {
                assert(names[a] != names[b]);
            } else {
                assert(names[b] != names[a]);
            }
        }
    }
    true
}

} // verus!
