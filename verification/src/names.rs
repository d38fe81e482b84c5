//! Item names and name collections.
//!
//! Items, recipe ingredients and catalog entries are all identified by
//! plain string names.  Recipe matching works on the *set* of names in a
//! list, so the spec-level model of a name list is the set of character
//! sequences it holds.

use vstd::prelude::*;

verus! {

/// The set of names (viewed as character sequences) held by a list of
/// strings, with order and multiplicity forgotten.
pub open spec fn name_set(names: Seq<String>) -> Set<Seq<char>> {
    Set::new(|c: Seq<char>| exists|i: int| 0 <= i < names.len() && names[i]@ == c)
}

/// Whether `name` occurs in `names`.
pub fn contains_name(names: &Vec<String>, name: &String) -> (r: bool)
    ensures
        r == name_set(names@).contains(name@),
{
    let mut i: usize = 0;
    while i < names.len()
        invariant
            i <= names@.len(),
            forall|j: int| 0 <= j < i ==> names@[j]@ != name@,
        decreases names@.len() - i,
    {
        if names[i].eq(name) {
            assert(name_set(names@).contains(name@));
            return true;
        }
        i = i + 1;
    }
    assert(!name_set(names@).contains(name@));
    false
}

/// Whether two name lists hold the same set of names.
pub fn same_name_set(a: &Vec<String>, b: &Vec<String>) -> (r: bool)
    ensures
        r == (name_set(a@) == name_set(b@)),
{
    let mut i: usize = 0;
    while i < a.len()
        invariant
            i <= a@.len(),
            forall|j: int| 0 <= j < i ==> name_set(b@).contains(#[trigger] a@[j]@),
        decreases a@.len() - i,
    {
        if !contains_name(b, &a[i]) {
            assert(name_set(a@).contains(a@[i as int]@));
            assert(name_set(a@) != name_set(b@));
            return false;
        }
        i = i + 1;
    }
    let mut k: usize = 0;
    while k < b.len()
        invariant
            k <= b@.len(),
            forall|j: int| 0 <= j < a@.len() ==> name_set(b@).contains(#[trigger] a@[j]@),
            forall|j: int| 0 <= j < k ==> name_set(a@).contains(#[trigger] b@[j]@),
        decreases b@.len() - k,
    {
        if !contains_name(a, &b[k]) {
            assert(name_set(b@).contains(b@[k as int]@));
            assert(name_set(a@) != name_set(b@));
            return false;
        }
        k = k + 1;
    }
    assert(name_set(a@) =~= name_set(b@));
    true
}

} // verus!
