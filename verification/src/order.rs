//! Picking the largest element of a non-empty slice.

use vstd::prelude::*;

verus! {

/// Return a reference to the largest element of a non-empty slice.
pub fn largest(list: &[i32]) -> (r: &i32)
    requires
        list@.len() > 0,
    ensures
        forall|j: int| 0 <= j < list@.len() ==> list@[j] <= *r,
        exists|j: int| 0 <= j < list@.len() && list@[j] == *r,
{
    let mut best: usize = 0;
    let mut i: usize = 1;
    while i < list.len()
        invariant
            0 < list@.len(),
            best < i <= list@.len(),
            forall|j: int| 0 <= j < i ==> list@[j] <= list@[best as int],
        decreases list@.len() - i,
    {
        if list[i] > list[best] {
            best = i;
        }
        i = i + 1;
    }
    &list[best]
}

} // verus!
