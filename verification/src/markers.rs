//! Choosing the marker points of a body: the point furthest along an axis.
//!
//! Where several points are equally far out, the last of them in the list is
//! the marker. A marker that lies on the center gives the body no axis, so
//! such a choice is told apart from one that is clear of it.
use vstd::prelude::*;
use crate::scalar::Scalar;

verus! {

/// Why no marker could be chosen.
#[derive(Clone, Copy, Debug, PartialEq, Eq, Structural)]
pub enum MarkerError {
    /// There is no point to choose from.
    NoPoints,
    /// Some coordinate is a NaN, so the points cannot be ordered.
    NotANumber,
}

/// `i` is the place of the last greatest of `coords`.
pub open spec fn is_last_max_coord(coords: Seq<Scalar>, i: int) -> bool {
    &&& 0 <= i < coords.len()
    &&& forall|j: int| 0 <= j < coords.len() ==> (#[trigger] coords[j]).at_most(coords[i])
    &&& forall|j: int| i < j < coords.len() ==> (#[trigger] coords[j]).below(coords[i])
}

/// Some coordinate of the list is a NaN.
pub open spec fn has_nan(coords: Seq<Scalar>) -> bool {
    exists|j: int| 0 <= j < coords.len() && (#[trigger] coords[j]).nan()
}

/// The place of the last greatest coordinate. An empty list has none, and
/// neither has a list that holds a NaN.
pub fn last_max_coord(coords: &Vec<Scalar>) -> (r: Result<usize, MarkerError>)
    ensures
        match r {
            Ok(i) => !has_nan(coords@) && is_last_max_coord(coords@, i as int),
            Err(MarkerError::NoPoints) => coords@.len() == 0,
            Err(MarkerError::NotANumber) => coords@.len() > 0 && has_nan(coords@),
        },
{
    if coords.len() == 0 {
        return Err(MarkerError::NoPoints);
    }
    if coords[0].is_nan() {
        return Err(MarkerError::NotANumber);
    }
    let mut best: usize = 0;
    let mut i: usize = 1;
    while i < coords.len()
        invariant
            1 <= i <= coords.len(),
            best < i,
            forall|j: int| 0 <= j < i ==> !(#[trigger] coords@[j]).nan(),
            forall|j: int| 0 <= j < i ==> (#[trigger] coords@[j]).at_most(coords@[best as int]),
            forall|j: int| best < j < i ==> (#[trigger] coords@[j]).below(coords@[best as int]),
        decreases coords.len() - i,
    {
        if coords[i].is_nan() {
            return Err(MarkerError::NotANumber);
        }
        if coords[i].ge(coords[best]) {
            best = i;
        }
        i += 1;
    }
    Ok(best)
}

/// Both markers lie off the center: each is further from it than `epsilon`.
/// A distance that is a NaN is further than nothing.
pub open spec fn markers_clear(head_reach: Scalar, wing_reach: Scalar, epsilon: Scalar) -> bool {
    epsilon.below(head_reach) && epsilon.below(wing_reach)
}

/// Decides whether a body has axes: whether the nose, at distance
/// `head_reach` from the center, and the wing tip, at distance `wing_reach`,
/// both lie further from it than `epsilon`.
pub fn markers_are_clear(head_reach: Scalar, wing_reach: Scalar, epsilon: Scalar) -> (r: bool)
    ensures
        r == markers_clear(head_reach, wing_reach, epsilon),
{
    epsilon.lt(head_reach) && epsilon.lt(wing_reach)
}

} // verus!
