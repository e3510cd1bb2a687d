//! Small verified helpers over vectors of object and input identifiers.

use vstd::prelude::*;

verus! {

/// Read one element of a vector of identifiers.
pub(crate) fn vec_index_u64(v: &Vec<u64>, i: usize) -> (r: &u64)
    requires
        i < v@.len(),
    ensures
        *r == v@[i as int],
{
    &v[i]
}

/// Whether `id` occurs in `v`.
pub(crate) fn contains_id(v: &Vec<u64>, id: u64) -> (r: bool)
    ensures
        r == v@.contains(id),
{
    let n = v.len();
    let mut i: usize = 0;
    while i < n
        invariant
            n == v@.len(),
            0 <= i <= n,
            forall|j: int| 0 <= j < i ==> v@[j] != id,
        decreases n - i,
    {
        if *vec_index_u64(v, i) == id {
            return true;
        }
        i = i + 1;
    }
    false
}

/// The position of the first occurrence of `id` in `v`, if any.
pub(crate) fn find_id(v: &Vec<u64>, id: u64) -> (r: Option<usize>)
    ensures
        match r {
            Some(i) => {
                &&& i < v@.len()
                &&& v@[i as int] == id
                &&& forall|j: int| 0 <= j < i ==> v@[j] != id
            },
            None => !v@.contains(id),
        },
{
    let n = v.len();
    let mut i: usize = 0;
    while i < n
        invariant
            n == v@.len(),
            0 <= i <= n,
            forall|j: int| 0 <= j < i ==> v@[j] != id,
        decreases n - i,
    {
        if *vec_index_u64(v, i) == id {
            return Some(i);
        }
        i = i + 1;
    }
    None
}

} // verus!
