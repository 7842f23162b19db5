//! Lists of names: the inventories of object stores are kept as such lists.

use vstd::prelude::*;

verus! {

/// Whether two lists hold the same names in the same order.
pub fn same_names(a: &Vec<String>, b: &Vec<String>) -> (same: bool)
    ensures
        same == (a.deep_view() == b.deep_view()),
{
    if a.len() != b.len() {
        assert(a.deep_view().len() != b.deep_view().len());
        return false;
    }
    let mut i: usize = 0;
    while i < a.len()
        invariant
            a.len() == b.len(),
            i <= a.len(),
            forall|j: int| 0 <= j < i ==> a[j]@ == b[j]@,
        decreases a.len() - i,
    {
        if a[i] != b[i] {
            assert(a.deep_view()[i as int] != b.deep_view()[i as int]);
            return false;
        }
        i += 1;
    }
    assert(a.deep_view() =~= b.deep_view());
    true
}

/// A list of the same names in the same order.
pub fn clone_names(names: &Vec<String>) -> (copy: Vec<String>)
    ensures
        copy.deep_view() == names.deep_view(),
        copy.len() == names.len(),
{
    let mut copy: Vec<String> = Vec::new();
    let mut i: usize = 0;
    while i < names.len()
        invariant
            i <= names.len(),
            copy.len() == i,
            forall|j: int| 0 <= j < i ==> copy[j]@ == names[j]@,
        decreases names.len() - i,
    {
        copy.push(names[i].clone());
        i += 1;
    }
    assert(copy.deep_view() =~= names.deep_view());
    copy
}

/// The first place at which a name stands in a list.
pub fn position(names: &Vec<String>, name: &str) -> (at: Option<usize>)
    ensures
        match at {
            Some(i) => {
                &&& i < names.len()
                &&& names.deep_view()[i as int] == name@
                &&& forall|j: int| 0 <= j < i ==> names.deep_view()[j] != name@
            },
            None => !names.deep_view().contains(name@),
        },
{
    let wanted = name.to_owned();
    let mut i: usize = 0;
    while i < names.len()
        invariant
            i <= names.len(),
            wanted@ == name@,
            forall|j: int| 0 <= j < i ==> names.deep_view()[j] != name@,
        decreases names.len() - i,
    {
        if names[i] == wanted {
            return Some(i);
        }
        i += 1;
    }
    None
}

/// Whether no name stands twice in a list.
pub fn all_distinct(names: &Vec<String>) -> (distinct: bool)
    ensures
        distinct == names.deep_view().no_duplicates(),
{
    let mut i: usize = 0;
    while i < names.len()
        invariant
            i <= names.len(),
            forall|a: int, b: int|
                0 <= a < i && 0 <= b < names.len() && a != b ==> names.deep_view()[a]
                    != names.deep_view()[b],
        decreases names.len() - i,
    {
        let mut k: usize = i + 1;
        while k < names.len()
            invariant
                i < names.len(),
                i < k <= names.len(),
                forall|b: int| i < b < k ==> names.deep_view()[i as int] != names.deep_view()[b],
            decreases names.len() - k,
        {
            if names[i] == names[k] {
                assert(names.deep_view()[i as int] == names.deep_view()[k as int]);
                return false;
            }
            k += 1;
        }
        i += 1;
    }
    true
}

} // verus!
