//! The boundary rules of a step: the floor and the ceiling that stop vertical
//! motion, and the bounds at which the world wraps round.
use vstd::prelude::*;
use crate::scalar::Scalar;

verus! {

/// A horizontal bound and the distance by which a body that reaches it is
/// moved to the other side.
#[derive(Clone, Copy, Debug, PartialEq, Eq, Structural)]
pub struct Wrap {
    /// The body wraps at `bound` and at minus `bound`.
    pub bound: Scalar,
    /// How far it is moved: down from `bound`, up from minus `bound`.
    pub span: Scalar,
}

/// The boundary rules, each of which can be set or left out but the floor.
#[derive(Clone, Copy, Debug, PartialEq, Eq, Structural)]
pub struct Limits {
    /// At or below this altitude a body does not sink.
    pub floor: Scalar,
    /// At or above this altitude a body does not rise.
    pub ceiling: Option<Scalar>,
    /// Where the world wraps round, on both horizontal axes.
    pub wrap: Option<Wrap>,
}

/// What the boundary rules make of one step.
#[derive(Clone, Copy, Debug, PartialEq, Eq, Structural)]
pub struct Ruling {
    /// The vertical velocity to go on with.
    pub climb: Scalar,
    /// The translation along the first horizontal axis, if any.
    pub shift_x: Option<Scalar>,
    /// The translation along the second horizontal axis, if any.
    pub shift_z: Option<Scalar>,
}

/// The body is on the floor and sinking.
pub open spec fn grounded(altitude: Scalar, climb: Scalar, floor: Scalar) -> bool {
    altitude.at_most(floor) && climb.below(Scalar { bits: 0 })
}

/// There is a ceiling, and the body is at it and rising.
pub open spec fn capped(altitude: Scalar, climb: Scalar, ceiling: Option<Scalar>) -> bool {
    match ceiling {
        Some(c) => c.at_most(altitude) && (Scalar { bits: 0 }).below(climb),
        None => false,
    }
}

/// The vertical velocity after the floor and the ceiling had their say:
/// zero where the body is grounded or capped, unchanged elsewhere.
pub open spec fn settled_climb(
    altitude: Scalar,
    climb: Scalar,
    floor: Scalar,
    ceiling: Option<Scalar>,
) -> Scalar {
    if grounded(altitude, climb, floor) || capped(altitude, climb, ceiling) {
        Scalar { bits: 0 }
    } else {
        climb
    }
}

/// The translation that wrapping asks for at coordinate `coord`: minus the
/// span at or beyond the bound, the span at or beyond minus the bound, none
/// in between. The upper bound is looked at first.
pub open spec fn wrap_shift(coord: Scalar, wrap: Wrap) -> Option<Scalar> {
    if wrap.bound.at_most(coord) {
        Some(wrap.span.neg_spec())
    } else if coord.at_most(wrap.bound.neg_spec()) {
        Some(wrap.span)
    } else {
        None
    }
}

/// The ruling of `limits` on a body at `(x, altitude, z)` with vertical
/// velocity `climb`.
pub open spec fn ruling(
    x: Scalar,
    altitude: Scalar,
    z: Scalar,
    climb: Scalar,
    limits: Limits,
) -> Ruling {
    Ruling {
        climb: settled_climb(altitude, climb, limits.floor, limits.ceiling),
        shift_x: match limits.wrap {
            Some(w) => wrap_shift(x, w),
            None => None,
        },
        shift_z: match limits.wrap {
            Some(w) => wrap_shift(z, w),
            None => None,
        },
    }
}

/// The time step to go on with: `dt`, or the limit where there is one and
/// `dt` is beyond it.
pub open spec fn limited_dt(dt: Scalar, max_dt: Option<Scalar>) -> Scalar {
    match max_dt {
        Some(m) => if m.below(dt) {
            m
        } else {
            dt
        },
        None => dt,
    }
}

/// Cuts a time step that is longer than the limit down to the limit.
pub fn limit_dt(dt: Scalar, max_dt: Option<Scalar>) -> (r: Scalar)
    ensures
        r == limited_dt(dt, max_dt),
{
    match max_dt {
        Some(m) => if dt.gt(m) {
            m
        } else {
            dt
        },
        None => dt,
    }
}

/// Stops vertical motion into the floor or the ceiling.
pub fn settle_climb(
    altitude: Scalar,
    climb: Scalar,
    floor: Scalar,
    ceiling: Option<Scalar>,
) -> (r: Scalar)
    ensures
        r == settled_climb(altitude, climb, floor, ceiling),
        grounded(altitude, climb, floor) ==> r.rank() == 0,
{
    let zero: Scalar = Scalar::zero();
    if altitude.le(floor) && climb.lt(zero) {
        return zero;
    }
    match ceiling {
        Some(c) => {
            if altitude.ge(c) && climb.gt(zero) {
                zero
            } else {
                climb
            }
        },
        None => climb,
    }
}

/// Decides whether a body at `coord` wraps, and by how much it moves.
pub fn wrap_coordinate(coord: Scalar, wrap: Wrap) -> (r: Option<Scalar>)
    ensures
        r == wrap_shift(coord, wrap),
        wrap.bound.at_most(coord) ==> r == Some(wrap.span.neg_spec()),
{
    if coord.ge(wrap.bound) {
        Some(wrap.span.neg())
    } else if coord.le(wrap.bound.neg()) {
        Some(wrap.span)
    } else {
        None
    }
}

/// Applies all the boundary rules at once.
pub fn rule(x: Scalar, altitude: Scalar, z: Scalar, climb: Scalar, limits: Limits) -> (r: Ruling)
    ensures
        r == ruling(x, altitude, z, climb, limits),
{
    let settled: Scalar = settle_climb(altitude, climb, limits.floor, limits.ceiling);
    match limits.wrap {
        Some(w) => Ruling {
            climb: settled,
            shift_x: wrap_coordinate(x, w),
            shift_z: wrap_coordinate(z, w),
        },
        None => Ruling { climb: settled, shift_x: None, shift_z: None },
    }
}

/// A body at rest inside the bounds is left alone.
///
/// Where the vertical velocity is a zero and, if the world wraps, both
/// horizontal coordinates lie strictly between minus the bound and the
/// bound, the ruling keeps the velocity and asks for no translation.
pub proof fn lemma_rest_is_left_alone(
    x: Scalar,
    altitude: Scalar,
    z: Scalar,
    climb: Scalar,
    limits: Limits,
)
    requires
        !climb.nan(),
        climb.rank() == 0,
        match limits.wrap {
            Some(w) => {
                &&& w.bound.neg_spec().below(x) && x.below(w.bound)
                &&& w.bound.neg_spec().below(z) && z.below(w.bound)
            },
            None => true,
        },
    ensures
        ruling(x, altitude, z, climb, limits) == (Ruling {
            climb: climb,
            shift_x: None,
            shift_z: None,
        }),
{
    assert(0u32 & 0x7fff_ffffu32 == 0) by (bit_vector);
    assert(0u32 & 0x8000_0000u32 == 0) by (bit_vector);
}

} // verus!
