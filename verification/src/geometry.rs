//! 2.5-axis positions with optional per-axis components.
use vstd::prelude::*;

use crate::models::Vec2D;
use crate::GcodeError;

verus! {

/// A machine position: X, Y and a pen-lift style Z axis, each optionally
/// present. Construction never fails; validation is deferred to rendering.
#[derive(Clone, Copy, Debug, PartialEq, Eq)]
pub struct Vec3 {
    pub x: Option<i64>,
    pub y: Option<i64>,
    pub z: Option<i64>,
}

/// Two axis components agree on presence: both given or both absent.
pub open spec fn axes_compatible(a: Option<i64>, b: Option<i64>) -> bool {
    a is Some <==> b is Some
}

/// The per-axis sum of two presence-compatible components.
pub open spec fn axis_sum(a: Option<i64>, b: Option<i64>) -> Option<i64> {
    if a is Some {
        Some((a->0 + b->0) as i64)
    } else {
        None
    }
}

/// The sum of two present components stays within the machine word.
pub open spec fn axis_sum_fits(a: Option<i64>, b: Option<i64>) -> bool {
    (a is Some && b is Some) ==> i64::MIN <= a->0 + b->0 <= i64::MAX
}

/// No axis is given at all.
pub open spec fn all_axes_absent(v: Vec3) -> bool {
    v.x is None && v.y is None && v.z is None
}

impl Vec3 {
    /// Per-axis addition with strict presence rules: each axis pair must be
    /// both present (then it sums) or both absent (then it stays absent);
    /// any axis with exactly one side present makes the whole addition fail
    /// with [`GcodeError::AxisMismatch`], never a silent default.
    pub fn add(self, rhs: Vec3) -> (r: Result<Vec3, GcodeError>)
        requires
            axis_sum_fits(self.x, rhs.x),
            axis_sum_fits(self.y, rhs.y),
            axis_sum_fits(self.z, rhs.z),
        ensures
            r is Ok <==> (axes_compatible(self.x, rhs.x) && axes_compatible(self.y, rhs.y)
                && axes_compatible(self.z, rhs.z)),
            r is Ok ==> r->Ok_0 == (Vec3 {
                x: axis_sum(self.x, rhs.x),
                y: axis_sum(self.y, rhs.y),
                z: axis_sum(self.z, rhs.z),
            }),
            r is Err ==> r->Err_0 == GcodeError::AxisMismatch,
    {
        let x = match (self.x, rhs.x) {
            (None, None) => None,
            (Some(left), Some(right)) => Some(left + right),
            _ => {
                return Err(GcodeError::AxisMismatch);
            },
        };
        let y = match (self.y, rhs.y) {
            (None, None) => None,
            (Some(left), Some(right)) => Some(left + right),
            _ => {
                return Err(GcodeError::AxisMismatch);
            },
        };
        let z = match (self.z, rhs.z) {
            (None, None) => None,
            (Some(left), Some(right)) => Some(left + right),
            _ => {
                return Err(GcodeError::AxisMismatch);
            },
        };
        Ok(Vec3 { x, y, z })
    }
}

impl From<Vec2D> for Vec3 {
    /// Lifts a 2D point into a position with the Z axis absent.
    fn from(value: Vec2D) -> Vec3 {
        Vec3 { x: Some(value.x), y: Some(value.y), z: None }
    }
}

impl vstd::std_specs::convert::FromSpecImpl<Vec2D> for Vec3 {
    open spec fn obeys_from_spec() -> bool {
        true
    }

    open spec fn from_spec(v: Vec2D) -> Vec3 {
        Vec3 { x: Some(v.x), y: Some(v.y), z: None }
    }
}

} // verus!
