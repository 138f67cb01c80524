use vstd::prelude::*;
use vstd::std_specs::cmp::PartialOrdIs;
use vstd::std_specs::cmp::PartialOrdSpec;

verus! {

/// A point in the plane, both coordinates of one type.
pub struct Point<T> {
    pub x: T,
    pub y: T,
}

impl<T> Point<T> {
    /// The first coordinate.
    pub fn x(&self) -> (r: &T)
        ensures
            *r == self.x,
    {
        &self.x
    }
}

/// Whether `a` is strictly greater than `b`, for every type whose order obeys its specification.
pub fn cmp<T: PartialOrd>(a: T, b: T) -> (r: bool)
    ensures
        T::obeys_partial_cmp_spec() ==> (r <==> a.is_gt(&b)),
{
    a > b
}

} // verus!
