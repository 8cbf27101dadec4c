//! Rays: an origin point and a direction vector.

use crate::fx::Fx;
use crate::matrix::mat_tuple_s;
use crate::matrix::Matrix4;
use crate::tuple::tuple_add_s;
use crate::tuple::tuple_scale_s;
use crate::tuple::Tuple;
use vstd::prelude::*;

verus! {

/// A ray: an origin point and a direction vector.
#[derive(Clone, Copy, Debug, PartialEq, Eq, Structural)]
pub struct Ray {
    pub origin: Tuple,
    pub direction: Tuple,
}

/// The point `origin + direction * t`.
pub open spec fn ray_position_s(r: Ray, t: int) -> Tuple {
    tuple_add_s(r.origin, tuple_scale_s(r.direction, t))
}

/// The ray with origin and direction both mapped through `m`.
pub open spec fn ray_transform_s(r: Ray, m: Matrix4) -> Ray {
    Ray { origin: mat_tuple_s(m, r.origin), direction: mat_tuple_s(m, r.direction) }
}

impl Ray {
    /// A ray from its origin and direction.
    pub fn new(origin: Tuple, direction: Tuple) -> (r: Ray)
        ensures
            r == (Ray { origin, direction }),
    {
        Ray { origin, direction }
    }

    /// The point reached after travelling `t` along the ray.
    pub fn position(&self, t: Fx) -> (r: Tuple)
        ensures
            r == ray_position_s(*self, t@),
    {
        self.origin.add(self.direction.scale(t))
    }

    /// The ray with origin and direction both mapped through `m`.
    pub fn transform(&self, m: &Matrix4) -> (r: Ray)
        ensures
            r == ray_transform_s(*self, *m),
    {
        Ray { origin: m.mul_tuple(self.origin), direction: m.mul_tuple(self.direction) }
    }
}

} // verus!
