//! Unit spheres placed in the world by a transform whose inverse is kept
//! in sync, with ray intersection and surface normals.

use crate::fx::fx;
use crate::fx::fx_add;
use crate::fx::fx_div;
use crate::fx::fx_mul;
use crate::fx::fx_neg;
use crate::fx::fx_sqrt;
use crate::fx::fx_sub;
use crate::fx::Fx;
use crate::fx::SCALE;
use crate::intersection::sorted_by_t;
use crate::intersection::Intersection;
use crate::intersection::IntersectionCollection;
use crate::material::default_material_s;
use crate::material::material_fuzzy_eq_s;
use crate::material::Material;
use crate::matrix::det4_s;
use crate::matrix::identity_s;
use crate::matrix::inverse_s;
use crate::matrix::mat4_fuzzy_eq_s;
use crate::matrix::mat_tuple_s;
use crate::matrix::transpose_s;
use crate::matrix::Matrix4;
use crate::ray::ray_transform_s;
use crate::ray::Ray;
use crate::transform::build_s;
use crate::transform::Transform;
use crate::tuple::dot_s;
use crate::tuple::normalize_s;
use crate::tuple::tuple_sub_s;
use crate::tuple::Tuple;
use vstd::prelude::*;

verus! {

/// The bits of the value 2.
pub const TWO_BITS: i64 = 8589934592;

/// The bits of the value 4.
pub const FOUR_BITS: i64 = 17179869184;

/// A unit sphere at the object-space origin, placed in the world by its
/// transform.  The inverse of the transform is computed whenever the
/// transform is replaced, so the two are always in sync.
#[derive(Clone, Copy, Debug)]
pub struct Sphere {
    pub id: u64,
    pub material: Material,
    pub transform: Matrix4,
    pub transform_inverse: Matrix4,
}

/// The incoming ray mapped into the sphere's object space.
pub open spec fn sphere_object_ray_s(s: Sphere, r: Ray) -> Ray {
    ray_transform_s(r, s.transform_inverse)
}

/// The vector from the sphere's object-space center to the object-space
/// ray origin.
pub open spec fn sphere_center_offset_s(s: Sphere, r: Ray) -> Tuple {
    tuple_sub_s(sphere_object_ray_s(s, r).origin, Tuple { x: fx(0), y: fx(0), z: fx(0), w: fx(SCALE as int) })
}

/// The quadratic coefficient `a = dir . dir`.
pub open spec fn sphere_quad_a_s(s: Sphere, r: Ray) -> int {
    dot_s(sphere_object_ray_s(s, r).direction, sphere_object_ray_s(s, r).direction)
}

/// The quadratic coefficient `b = 2 * dir . (origin - center)`.
pub open spec fn sphere_quad_b_s(s: Sphere, r: Ray) -> int {
    fx_mul(TWO_BITS as int, dot_s(sphere_object_ray_s(s, r).direction, sphere_center_offset_s(s, r)))
}

/// The quadratic coefficient `c = (origin - center) . (origin - center) - 1`.
pub open spec fn sphere_quad_c_s(s: Sphere, r: Ray) -> int {
    fx_sub(dot_s(sphere_center_offset_s(s, r), sphere_center_offset_s(s, r)), SCALE as int)
}

/// The discriminant `b * b - 4 * a * c`.
pub open spec fn sphere_discriminant_s(s: Sphere, r: Ray) -> int {
    fx_sub(
        fx_mul(sphere_quad_b_s(s, r), sphere_quad_b_s(s, r)),
        fx_mul(fx_mul(FOUR_BITS as int, sphere_quad_a_s(s, r)), sphere_quad_c_s(s, r)),
    )
}

/// The denominator `2 * a` of the two roots.
pub open spec fn sphere_denom_s(s: Sphere, r: Ray) -> int {
    fx_mul(TWO_BITS as int, sphere_quad_a_s(s, r))
}

/// Whether the ray yields two intersections: the discriminant is
/// non-negative and the direction is not degenerate.
pub open spec fn sphere_has_hits_s(s: Sphere, r: Ray) -> bool {
    sphere_discriminant_s(s, r) >= 0 && sphere_denom_s(s, r) != 0
}

/// The root `(-b - sqrt(disc)) / (2 a)`.
pub open spec fn sphere_t1_s(s: Sphere, r: Ray) -> int {
    fx_div(
        fx_sub(fx_neg(sphere_quad_b_s(s, r)), fx_sqrt(sphere_discriminant_s(s, r))),
        sphere_denom_s(s, r),
    )
}

/// The root `(-b + sqrt(disc)) / (2 a)`.
pub open spec fn sphere_t2_s(s: Sphere, r: Ray) -> int {
    fx_div(
        fx_add(fx_neg(sphere_quad_b_s(s, r)), fx_sqrt(sphere_discriminant_s(s, r))),
        sphere_denom_s(s, r),
    )
}

/// The world-space surface normal at `world_point`: the point is mapped
/// into object space, the object normal points away from the center, and
/// it is mapped back through the transposed inverse, repaired to a
/// vector, and normalized.
pub open spec fn normal_at_s(s: Sphere, world_point: Tuple) -> Tuple {
    let object_point = mat_tuple_s(s.transform_inverse, world_point);
    let object_normal = tuple_sub_s(
        object_point,
        Tuple { x: fx(0), y: fx(0), z: fx(0), w: fx(SCALE as int) },
    );
    let world_normal = mat_tuple_s(transpose_s(s.transform_inverse), object_normal);
    normalize_s(Tuple { x: world_normal.x, y: world_normal.y, z: world_normal.z, w: fx(0) })
}

impl Sphere {
    /// Whether the cached inverse matches the transform, which every
    /// constructor establishes and `set_transform` preserves.
    pub open spec fn wf(self) -> bool {
        det4_s(self.transform) != 0 && self.transform_inverse == inverse_s(self.transform)
    }

    /// A default sphere under the given identity handle: the unit sphere
    /// at the origin with the default material.
    pub fn new(id: u64) -> (r: Sphere)
        ensures
            r.id == id,
            r.material == default_material_s(),
            r.transform == identity_s(),
            r.transform_inverse == identity_s(),
            r.wf(),
    {
        proof {
            crate::matrix::lemma_identity_inverse();
        }
        Sphere {
            id,
            material: Material::default(),
            transform: Matrix4::identity(),
            transform_inverse: Matrix4::identity(),
        }
    }

    /// The sphere's identity handle.
    pub fn id(&self) -> (r: u64)
        ensures
            r == self.id,
    {
        self.id
    }

    /// Whether `other` is the same sphere instance, by identity handle.
    pub fn same_object(&self, other: &Sphere) -> (r: bool)
        ensures
            r == (self.id == other.id),
    {
        self.id == other.id
    }

    /// The sphere's transform.
    pub fn transform(&self) -> (r: Matrix4)
        ensures
            r == self.transform,
    {
        self.transform
    }

    /// The cached inverse of the transform.
    pub fn transform_inverse(&self) -> (r: Matrix4)
        ensures
            r == self.transform_inverse,
    {
        self.transform_inverse
    }

    /// Replaces the transform with the built matrix and recomputes the
    /// cached inverse; fails, leaving the sphere unchanged, exactly when
    /// the new matrix is singular.
    pub fn set_transform(&mut self, transform: Transform) -> (r: Result<(), &'static str>)
        ensures
            det4_s(build_s(transform.ops())) != 0 ==> r is Ok && *final(self) == (Sphere {
                id: old(self).id,
                material: old(self).material,
                transform: build_s(transform.ops()),
                transform_inverse: inverse_s(build_s(transform.ops())),
            }),
            det4_s(build_s(transform.ops())) == 0 ==> r is Err && *final(self) == *old(self),
            old(self).wf() ==> final(self).wf(),
    {
        let matrix = transform.build();
        match matrix.inverse() {
            Some(inv) => {
                self.transform = matrix;
                self.transform_inverse = inv;
                Ok(())
            },
            None => Err("Matrix is not invertible"),
        }
    }

    /// Whether `other` has the same material and transform, within the
    /// fuzzy tolerance.
    pub fn fuzzy_eq(&self, other: &Sphere) -> (r: bool)
        ensures
            r == (material_fuzzy_eq_s(self.material, other.material) && mat4_fuzzy_eq_s(
                self.transform,
                other.transform,
            ) && mat4_fuzzy_eq_s(self.transform_inverse, other.transform_inverse)),
    {
        self.material.fuzzy_eq(&other.material) && self.transform.fuzzy_eq(&other.transform)
            && self.transform_inverse.fuzzy_eq(&other.transform_inverse)
    }

    /// Intersects the ray with the sphere: an empty collection when the
    /// discriminant is negative or the mapped direction is degenerate,
    /// and otherwise the two quadratic roots in ascending order, both on
    /// this sphere.
    pub fn intersect<'a>(&'a self, ray: &Ray) -> (r: IntersectionCollection<'a>)
        ensures
            sorted_by_t(r@),
            !sphere_has_hits_s(*self, *ray) ==> r@.len() == 0,
            sphere_has_hits_s(*self, *ray) ==> {
                let t1 = sphere_t1_s(*self, *ray);
                let t2 = sphere_t2_s(*self, *ray);
                r@.len() == 2 && *r@[0].object == *self && *r@[1].object == *self && r@[0].t@
                    == (if t1 <= t2 {
                    t1
                } else {
                    t2
                }) && r@[1].t@ == (if t1 <= t2 {
                    t2
                } else {
                    t1
                })
            },
    {
        let object_ray = ray.transform(&self.transform_inverse);
        let center = Tuple::point(Fx::zero(), Fx::zero(), Fx::zero());
        let sphere_to_ray = object_ray.origin.sub(center);

        let two = Fx { bits: TWO_BITS };
        let four = Fx { bits: FOUR_BITS };
        let a = object_ray.direction.dot(object_ray.direction);
        let b = two.mul(object_ray.direction.dot(sphere_to_ray));
        let c = sphere_to_ray.dot(sphere_to_ray).sub(Fx::one());
        let discriminant = b.mul(b).sub(four.mul(a).mul(c));
        let denominator = two.mul(a);

        if discriminant.bits < 0 || denominator.bits == 0 {
            IntersectionCollection::empty()
        } else {
            let root = discriminant.sqrt();
            let t1 = b.neg().sub(root).div(denominator);
            let t2 = b.neg().add(root).div(denominator);
            IntersectionCollection::of_pair(
                Intersection::new(t1, self),
                Intersection::new(t2, self),
            )
        }
    }

    /// The world-space surface normal at `world_point`.
    pub fn normal_at(&self, world_point: Tuple) -> (r: Tuple)
        ensures
            r == normal_at_s(*self, world_point),
    {
        let object_point = self.transform_inverse.mul_tuple(world_point);
        let center = Tuple::point(Fx::zero(), Fx::zero(), Fx::zero());
        let object_normal = object_point.sub(center);
        let world_normal = self.transform_inverse.transpose().mul_tuple(object_normal);
        world_normal.repair_vector_after_translation().normalize()
    }
}

} // verus!
