//! Pointer hit-testing: resolving the window region under the pointer on
//! the surface it is currently inside.

use vstd::prelude::*;
use crate::geometry::{region_hit, region_hit_exec, ClientRegion};

verus! {

/// Finds the first region of the list that the pointer at local `(x, y)` on
/// monitor `mid`'s surface hits.  Overlapping regions have no documented
/// tie-break; the incidental first-match-in-list-order is kept.
pub fn find_hovered_region(regions: &Vec<ClientRegion>, x: i32, y: i32, mid: i64) -> (r: Option<
    usize,
>)
    ensures
        match r {
            Some(j) => {
                &&& j < regions@.len()
                &&& region_hit(regions@[j as int], x as int, y as int, mid as int)
                &&& forall|k: int|
                    0 <= k < j ==> !region_hit(regions@[k], x as int, y as int, mid as int)
            },
            None => forall|k: int|
                0 <= k < regions@.len() ==> !region_hit(regions@[k], x as int, y as int, mid as int),
        },
{
    let mut j: usize = 0;
    while j < regions.len()
        invariant
            0 <= j <= regions@.len(),
            forall|k: int| 0 <= k < j ==> !region_hit(regions@[k], x as int, y as int, mid as int),
        decreases regions@.len() - j,
    {
        if region_hit_exec(&regions[j], x, y, mid) {
            return Some(j);
        }
        j += 1;
    }
    None
}

/// The first hit of the list as a spec value, for stating what hover
/// resolution returns.
pub open spec fn first_hit_from(regions: Seq<ClientRegion>, x: int, y: int, mid: int, i: int) -> Option<
    int,
>
    decreases regions.len() - i,
{
    if i < 0 || i >= regions.len() {
        None
    } else if region_hit(regions[i], x, y, mid) {
        Some(i)
    } else {
        first_hit_from(regions, x, y, mid, i + 1)
    }
}

/// The index of the first region hit by the pointer, if any.
pub open spec fn first_hit(regions: Seq<ClientRegion>, x: int, y: int, mid: int) -> Option<int> {
    first_hit_from(regions, x, y, mid, 0)
}

proof fn lemma_first_hit_from_characterizes(regions: Seq<ClientRegion>, x: int, y: int, mid: int, i: int)
    requires
        0 <= i <= regions.len(),
    ensures
        match first_hit_from(regions, x, y, mid, i) {
            Some(j) => {
                &&& i <= j < regions.len()
                &&& region_hit(regions[j], x, y, mid)
                &&& forall|k: int| i <= k < j ==> !region_hit(regions[k], x, y, mid)
            },
            None => forall|k: int| i <= k < regions.len() ==> !region_hit(regions[k], x, y, mid),
        },
    decreases regions.len() - i,
{
    if i < regions.len() {
        if !region_hit(regions[i], x, y, mid) {
            lemma_first_hit_from_characterizes(regions, x, y, mid, i + 1);
        }
    }
}

/// `first_hit` returns exactly the least index whose region is hit, and
/// `None` exactly when no region is hit.
pub proof fn lemma_first_hit_characterizes(regions: Seq<ClientRegion>, x: int, y: int, mid: int)
    ensures
        match first_hit(regions, x, y, mid) {
            Some(j) => {
                &&& 0 <= j < regions.len()
                &&& region_hit(regions[j], x, y, mid)
                &&& forall|k: int| 0 <= k < j ==> !region_hit(regions[k], x, y, mid)
            },
            None => forall|k: int| 0 <= k < regions.len() ==> !region_hit(regions[k], x, y, mid),
        },
{
    lemma_first_hit_from_characterizes(regions, x, y, mid, 0);
}

} // verus!
