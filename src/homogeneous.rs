//! Homogeneous coordinates: a vector given by three or more entries is read
//! as `(x, y, z, w)`, with `w` taken as one when only three entries are given.
use vstd::prelude::*;

verus! {

/// The homogeneous coordinates that `v` stands for, with `one` as the
/// default fourth coordinate.
pub open spec fn homogeneous_of<T>(v: Seq<T>, one: T) -> Seq<T> {
    seq![v[0], v[1], v[2], if v.len() > 3 { v[3] } else { one }]
}

/// Reads `v` as `(x, y, z, w)`: its first three entries, then its fourth
/// if it has one and `one` otherwise. Entries after the fourth are ignored.
pub fn homogeneous<T: Copy>(v: &[T], one: T) -> (h: [T; 4])
    requires
        v@.len() >= 3,
    ensures
        h@ == homogeneous_of(v@, one),
{
    let w = if v.len() > 3 {
        v[3]
    } else {
        one
    };
    let h = [v[0], v[1], v[2], w];
    assert(h@ =~= homogeneous_of(v@, one));
    h
}

} // verus!
