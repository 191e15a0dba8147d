//! Optional allow-lists for facilities and operations, built once from the
//! command line and read by the dispatcher for every delivered event.

use vstd::prelude::*;
use crate::vocab::{Facility, Operation};

verus! {

/// A pair of optional allow-lists. `None` in a dimension means
/// "unconstrained": every value of that dimension matches. `Some` of an
/// empty list matches nothing in that dimension.
pub struct FilterSet {
    pub facilities: Option<Vec<Facility>>,
    pub operations: Option<Vec<Operation>>,
}

impl FilterSet {
    /// What the facility dimension accepts.
    pub open spec fn spec_matches_facility(&self, f: Facility) -> bool {
        match self.facilities {
            None => true,
            Some(list) => list@.contains(f),
        }
    }

    /// What the operation dimension accepts.
    pub open spec fn spec_matches_operation(&self, o: Operation) -> bool {
        match self.operations {
            None => true,
            Some(list) => list@.contains(o),
        }
    }

    /// A filter set that constrains neither dimension.
    pub fn unconstrained() -> (r: FilterSet)
        ensures
            r.facilities is None,
            r.operations is None,
    {
        FilterSet { facilities: None, operations: None }
    }

    /// True iff the facility filter is unconstrained or `f` is listed.
    pub fn matches_facility(&self, f: Facility) -> (r: bool)
        ensures
            r == self.spec_matches_facility(f),
    {
        match &self.facilities {
            None => true,
            Some(list) => contains_facility(list, f),
        }
    }

    /// True iff the operation filter is unconstrained or `o` is listed.
    pub fn matches_operation(&self, o: Operation) -> (r: bool)
        ensures
            r == self.spec_matches_operation(o),
    {
        match &self.operations {
            None => true,
            Some(list) => contains_operation(list, o),
        }
    }
}

/// Linear membership scan over a facility list.
fn contains_facility(list: &Vec<Facility>, f: Facility) -> (r: bool)
    ensures
        r == list@.contains(f),
{
    let mut i: usize = 0;
    while i < list.len()
        invariant
            i <= list@.len(),
            forall|j: int| 0 <= j < i ==> list@[j] != f,
        decreases list@.len() - i,
    {
        if list[i] == f {
            return true;
        }
        i = i + 1;
    }
    false
}

/// Linear membership scan over an operation list.
fn contains_operation(list: &Vec<Operation>, o: Operation) -> (r: bool)
    ensures
        r == list@.contains(o),
{
    let mut i: usize = 0;
    while i < list.len()
        invariant
            i <= list@.len(),
            forall|j: int| 0 <= j < i ==> list@[j] != o,
        decreases list@.len() - i,
    {
        if list[i] == o {
            return true;
        }
        i = i + 1;
    }
    false
}

/// An unconstrained dimension accepts every value; an empty list accepts
/// none; a non-empty list accepts exactly its elements.
pub proof fn lemma_filter_matching(fs: FilterSet, f: Facility, o: Operation)
    ensures
        fs.facilities is None ==> fs.spec_matches_facility(f),
        fs.operations is None ==> fs.spec_matches_operation(o),
        fs.facilities matches Some(list) && list@.len() == 0 ==> !fs.spec_matches_facility(f),
        fs.operations matches Some(list) && list@.len() == 0 ==> !fs.spec_matches_operation(o),
        fs.facilities matches Some(list) ==> (fs.spec_matches_facility(f) <==> list@.contains(f)),
        fs.operations matches Some(list) ==> (fs.spec_matches_operation(o) <==> list@.contains(o)),
{
}

} // verus!
