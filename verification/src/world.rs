//! The scene aggregate: spheres and one light, with ray intersection
//! against every object, shadow testing, and the top-level color query.

use crate::fx::Fx;
use crate::fx::HALF_SCALE;
use crate::fx::SCALE;
use crate::intersection::prepare_computations_s;
use crate::intersection::sorted_by_t;
use crate::intersection::Intersection;
use crate::intersection::IntersectionCollection;
use crate::intersection::IntersectionComputations;
use crate::light::Light;
use crate::material::black_s;
use crate::material::default_material_s;
use crate::material::lighting_s;
use crate::material::Material;
use crate::matrix::det4_s;
use crate::matrix::identity_s;
use crate::matrix::inverse_s;
use crate::matrix::scaling_s;
use crate::ray::Ray;
use crate::sphere::sphere_has_hits_s;
use crate::sphere::sphere_t1_s;
use crate::sphere::sphere_t2_s;
use crate::sphere::Sphere;
use crate::fx::fx;
use crate::transform::Transform;
use crate::tuple::magnitude_s;
use crate::tuple::normalize_s;
use crate::tuple::tuple_sub_s;
use crate::tuple::Tuple;
use vstd::prelude::*;

verus! {

broadcast use vstd::seq_lib::group_to_multiset_ensures, vstd::multiset::group_multiset_axioms;

/// The spheres of a scene, in insertion order, and its one light.
#[derive(Clone, Debug)]
pub struct World {
    pub objects: Vec<Sphere>,
    pub light: Option<Light>,
}

/// How many intersections the spheres yield for the ray: two per sphere
/// whose quadratic has roots.
pub open spec fn world_inter_count_s(objects: Seq<Sphere>, r: Ray) -> nat
    decreases objects.len(),
{
    if objects.len() == 0 {
        0
    } else {
        world_inter_count_s(objects.drop_last(), r) + (if sphere_has_hits_s(
            objects.last(),
            r,
        ) {
            2nat
        } else {
            0nat
        })
    }
}

/// Whether `t` on the sphere value `obj` is one of the intersections
/// that the world's objects yield for the ray.
pub open spec fn inter_matches_s(w: World, r: Ray, t: int, obj: Sphere) -> bool {
    exists|k: int|
        0 <= k < w.objects@.len() && w.objects@[k] == obj && sphere_has_hits_s(obj, r) && (t
            == sphere_t1_s(obj, r) || t == sphere_t2_s(obj, r))
}

/// Whether some object yields an intersection at a non-negative `t`.
pub open spec fn world_has_hit_s(w: World, r: Ray) -> bool {
    exists|k: int|
        0 <= k < w.objects@.len() && #[trigger] sphere_has_hits_s(w.objects@[k], r) && (sphere_t1_s(
            w.objects@[k],
            r,
        ) >= 0 || sphere_t2_s(w.objects@[k], r) >= 0)
}

/// Whether `(t, obj)` is a nearest hit: an intersection of the world at
/// a non-negative `t` no larger than any other non-negative one.
pub open spec fn world_hit_at_s(w: World, r: Ray, t: int, obj: Sphere) -> bool {
    &&& inter_matches_s(w, r, t, obj)
    &&& t >= 0
    &&& forall|k: int|
        0 <= k < w.objects@.len() && #[trigger] sphere_has_hits_s(w.objects@[k], r) ==> {
            &&& (sphere_t1_s(w.objects@[k], r) >= 0 ==> t <= sphere_t1_s(w.objects@[k], r))
            &&& (sphere_t2_s(w.objects@[k], r) >= 0 ==> t <= sphere_t2_s(w.objects@[k], r))
        }
}

/// The ray cast from `point` toward the light.
pub open spec fn shadow_ray_s(w: World, point: Tuple) -> Ray {
    Ray {
        origin: point,
        direction: normalize_s(tuple_sub_s(w.light->Some_0.position, point)),
    }
}

/// The distance from `point` to the light.
pub open spec fn light_distance_s(w: World, point: Tuple) -> int {
    magnitude_s(tuple_sub_s(w.light->Some_0.position, point))
}

/// Whether the sphere puts an intersection strictly between the ray
/// origin and the light.
pub open spec fn sphere_blocks_s(s: Sphere, r: Ray, dist: int) -> bool {
    sphere_has_hits_s(s, r) && ((0 <= sphere_t1_s(s, r) < dist) || (0 <= sphere_t2_s(s, r)
        < dist))
}

/// Whether `point` lies in shadow: some object intersects the ray
/// toward the light at a parameter within the distance to the light.
pub open spec fn is_shadowed_s(w: World, point: Tuple) -> bool {
    exists|k: int|
        0 <= k < w.objects@.len() && #[trigger] sphere_blocks_s(
            w.objects@[k],
            shadow_ray_s(w, point),
            light_distance_s(w, point),
        )
}

/// The Phong shading of the precomputed hit state, with the shadow test
/// made at the biased point.
pub open spec fn shade_hit_s(w: World, comps: IntersectionComputations) -> Tuple {
    lighting_s(
        comps.object.material,
        w.light->Some_0,
        comps.point,
        comps.eyev,
        comps.normalv,
        is_shadowed_s(w, comps.over_point),
    )
}

/// What `color_at` returns: black when no object is hit at a
/// non-negative parameter, and otherwise the shading of some nearest
/// hit (which of two equally near hits is shaded is left open).
pub open spec fn color_at_post(w: World, r: Ray, c: Tuple) -> bool {
    if world_has_hit_s(w, r) {
        exists|t: int, obj: Sphere|
            #[trigger] world_hit_at_s(w, r, t, obj) && c == shade_hit_s(
                w,
                prepare_computations_s(fx(t), obj, r),
            )
    } else {
        c == black_s()
    }
}

impl World {
    /// An empty world: no objects and no light.
    pub fn new() -> (r: World)
        ensures
            r.objects@.len() == 0,
            r.light is None,
    {
        World { objects: Vec::new(), light: None }
    }

    /// Intersects the ray with every object and gathers the results
    /// into one sorted collection: it holds exactly the intersections
    /// of the objects, each tagged with the sphere it lies on.
    #[verifier::rlimit(100)]
    pub fn intersect<'a>(&'a self, ray: Ray) -> (r: IntersectionCollection<'a>)
        ensures
            sorted_by_t(r@),
            r@.len() == world_inter_count_s(self.objects@, ray),
            forall|i: int|
                0 <= i < r@.len() ==> inter_matches_s(*self, ray, #[trigger] r@[i].t@, *r@[i].object),
            forall|k: int|
                0 <= k < self.objects@.len() && #[trigger] sphere_has_hits_s(self.objects@[k], ray)
                    ==> (exists|i: int|
                    0 <= i < r@.len() && #[trigger] r@[i].t@ == sphere_t1_s(self.objects@[k], ray)
                        && *r@[i].object == self.objects@[k]) && (exists|i: int|
                    0 <= i < r@.len() && #[trigger] r@[i].t@ == sphere_t2_s(self.objects@[k], ray)
                        && *r@[i].object == self.objects@[k]),
    {
        let mut all: Vec<Intersection<'a>> = Vec::new();
        let mut k: usize = 0;
        while k < self.objects.len()
            invariant
                k <= self.objects@.len(),
                all@.len() == world_inter_count_s(self.objects@.subrange(0, k as int), ray),
                forall|i: int|
                    0 <= i < all@.len() ==> inter_matches_s(
                        *self,
                        ray,
                        #[trigger] all@[i].t@,
                        *all@[i].object,
                    ),
                forall|kk: int|
                    0 <= kk < k && #[trigger] sphere_has_hits_s(self.objects@[kk], ray) ==> (exists|
                        i: int,
                    |
                        0 <= i < all@.len() && #[trigger] all@[i].t@ == sphere_t1_s(
                            self.objects@[kk],
                            ray,
                        ) && *all@[i].object == self.objects@[kk]) && (exists|i: int|
                        0 <= i < all@.len() && #[trigger] all@[i].t@ == sphere_t2_s(
                            self.objects@[kk],
                            ray,
                        ) && *all@[i].object == self.objects@[kk]),
            decreases self.objects@.len() - k,
        {
            let ghost prev = all@;
            let collected = self.objects[k].intersect(&ray);
            if collected.len() > 0 {
                all.push(collected.get(0));
                all.push(collected.get(1));
            }
            proof {
                let kk_new = k + 1;
                assert(self.objects@.subrange(0, k + 1).drop_last() =~= self.objects@.subrange(
                    0,
                    k as int,
                ));
                assert(self.objects@.subrange(0, k + 1).last() == self.objects@[k as int]);
                assert(forall|i: int| 0 <= i < prev.len() ==> all@[i] == prev[i]);
                assert forall|kk: int|
                    0 <= kk < kk_new && #[trigger] sphere_has_hits_s(
                        self.objects@[kk],
                        ray,
                    ) implies (exists|i: int|
                    0 <= i < all@.len() && #[trigger] all@[i].t@ == sphere_t1_s(
                        self.objects@[kk],
                        ray,
                    ) && *all@[i].object == self.objects@[kk]) && (exists|i: int|
                    0 <= i < all@.len() && #[trigger] all@[i].t@ == sphere_t2_s(
                        self.objects@[kk],
                        ray,
                    ) && *all@[i].object == self.objects@[kk]) by {
                    let o = self.objects@[kk];
                    let t1 = sphere_t1_s(o, ray);
                    let t2 = sphere_t2_s(o, ray);
                    if kk < k {
                        let w1 = choose|i: int|
                            0 <= i < prev.len() && #[trigger] prev[i].t@ == t1 && *prev[i].object
                                == o;
                        let w2 = choose|i: int|
                            0 <= i < prev.len() && #[trigger] prev[i].t@ == t2 && *prev[i].object
                                == o;
                        assert(all@[w1].t@ == t1 && *all@[w1].object == o);
                        assert(all@[w2].t@ == t2 && *all@[w2].object == o);
                    } else {
                        let n = all@.len();
                        assert(*all@[n - 2].object == o && *all@[n - 1].object == o);
                        if t1 <= t2 {
                            assert(all@[n - 2].t@ == t1 && all@[n - 1].t@ == t2);
                        } else {
                            assert(all@[n - 2].t@ == t2 && all@[n - 1].t@ == t1);
                        }
                    }
                }
            }
            k = k + 1;
        }
        let sorted = IntersectionCollection::new(all);
        proof {
            assert(self.objects@.subrange(0, self.objects@.len() as int) =~= self.objects@);
            let ghost sorted_seq = sorted@;
            let ghost all_seq = all@;
            assert forall|i: int| 0 <= i < sorted_seq.len() implies inter_matches_s(
                *self,
                ray,
                #[trigger] sorted_seq[i].t@,
                *sorted_seq[i].object,
            ) by {
                assert(sorted_seq.contains(sorted_seq[i]));
                assert(sorted_seq.to_multiset().count(sorted_seq[i]) > 0);
                assert(all_seq.contains(sorted_seq[i]));
                let j = choose|j: int| 0 <= j < all_seq.len() && all_seq[j] == sorted_seq[i];
                assert(inter_matches_s(*self, ray, all_seq[j].t@, *all_seq[j].object));
            }
            assert forall|k2: int|
                0 <= k2 < self.objects@.len() && #[trigger] sphere_has_hits_s(
                    self.objects@[k2],
                    ray,
                ) implies (exists|i: int|
                0 <= i < sorted_seq.len() && #[trigger] sorted_seq[i].t@ == sphere_t1_s(
                    self.objects@[k2],
                    ray,
                ) && *sorted_seq[i].object == self.objects@[k2]) && (exists|i: int|
                0 <= i < sorted_seq.len() && #[trigger] sorted_seq[i].t@ == sphere_t2_s(
                    self.objects@[k2],
                    ray,
                ) && *sorted_seq[i].object == self.objects@[k2]) by {
                let j1 = choose|i: int|
                    0 <= i < all_seq.len() && #[trigger] all_seq[i].t@ == sphere_t1_s(
                        self.objects@[k2],
                        ray,
                    ) && *all_seq[i].object == self.objects@[k2];
                assert(all_seq.contains(all_seq[j1]));
                assert(all_seq.to_multiset().count(all_seq[j1]) > 0);
                assert(sorted_seq.contains(all_seq[j1]));
                let i1 = choose|i: int| 0 <= i < sorted_seq.len() && sorted_seq[i] == all_seq[j1];
                assert(sorted_seq[i1].t@ == sphere_t1_s(self.objects@[k2], ray));
                let j2 = choose|i: int|
                    0 <= i < all_seq.len() && #[trigger] all_seq[i].t@ == sphere_t2_s(
                        self.objects@[k2],
                        ray,
                    ) && *all_seq[i].object == self.objects@[k2];
                assert(all_seq.contains(all_seq[j2]));
                assert(all_seq.to_multiset().count(all_seq[j2]) > 0);
                assert(sorted_seq.contains(all_seq[j2]));
                let i2 = choose|i: int| 0 <= i < sorted_seq.len() && sorted_seq[i] == all_seq[j2];
                assert(sorted_seq[i2].t@ == sphere_t2_s(self.objects@[k2], ray));
            }
        }
        sorted
    }

    /// The Phong shading of the precomputed hit state, testing the
    /// shadow at the biased point.
    pub fn shade_hit(&self, comps: &IntersectionComputations) -> (r: Tuple)
        requires
            self.light is Some,
        ensures
            r == shade_hit_s(*self, *comps),
    {
        let light = self.light.unwrap();
        let in_shadow = self.is_shadowed(comps.over_point);
        comps.object.material.lighting(light, comps.point, comps.eyev, comps.normalv, in_shadow)
    }

    /// The color seen along the ray: black when nothing is hit, and
    /// otherwise the shading of the nearest hit.
    pub fn color_at(&self, r: Ray) -> (c: Tuple)
        requires
            self.light is Some,
        ensures
            color_at_post(*self, r, c),
    {
        let intersections = self.intersect(r);
        let hit = intersections.hit();
        match hit {
            Some(i) => {
                proof {
                    lemma_hit_is_world_hit(*self, r, intersections@, i);
                    assert(fx(i.t@) == i.t);
                }
                let comps = i.prepare_computations(r);
                self.shade_hit(&comps)
            },
            None => {
                proof {
                    if world_has_hit_s(*self, r) {
                        let k = choose|k: int|
                            0 <= k < self.objects@.len() && #[trigger] sphere_has_hits_s(
                                self.objects@[k],
                                r,
                            ) && (sphere_t1_s(self.objects@[k], r) >= 0 || sphere_t2_s(
                                self.objects@[k],
                                r,
                            ) >= 0);
                        assert(false);
                    }
                }
                Tuple::color(Fx::zero(), Fx::zero(), Fx::zero(), Fx::one())
            },
        }
    }

    /// Whether `point` lies in shadow of the light.
    pub fn is_shadowed(&self, point: Tuple) -> (r: bool)
        requires
            self.light is Some,
        ensures
            r == is_shadowed_s(*self, point),
    {
        let light = self.light.unwrap();
        let vector = light.position.sub(point);
        let distance = vector.magnitude();
        let ray = Ray::new(point, vector.normalize());
        let intersections = self.intersect(ray);
        let ghost dist = light_distance_s(*self, point);
        match intersections.hit() {
            None => {
                proof {
                    if is_shadowed_s(*self, point) {
                        let k = choose|k: int|
                            0 <= k < self.objects@.len() && #[trigger] sphere_blocks_s(
                                self.objects@[k],
                                shadow_ray_s(*self, point),
                                dist,
                            );
                        assert(false);
                    }
                }
                false
            },
            Some(hit) => {
                proof {
                    if hit.t@ < dist {
                        let i = choose|i: int|
                            0 <= i < intersections@.len() && intersections@[i] == hit;
                        assert(inter_matches_s(*self, ray, hit.t@, *hit.object));
                        let k = choose|k: int|
                            0 <= k < self.objects@.len() && self.objects@[k] == *hit.object
                                && sphere_has_hits_s(*hit.object, ray) && (hit.t@ == sphere_t1_s(
                                *hit.object,
                                ray,
                            ) || hit.t@ == sphere_t2_s(*hit.object, ray));
                        assert(sphere_blocks_s(self.objects@[k], shadow_ray_s(*self, point), dist));
                    } else {
                        if is_shadowed_s(*self, point) {
                            let k = choose|k: int|
                                0 <= k < self.objects@.len() && #[trigger] sphere_blocks_s(
                                    self.objects@[k],
                                    shadow_ray_s(*self, point),
                                    dist,
                                );
                            assert(false);
                        }
                    }
                }
                hit.t.bits < distance.bits
            },
        }
    }
}

impl Default for World {
    /// The two-sphere test scene: a white light at (-10, 10, -10), an
    /// outer sphere with a green-tinted material, and an inner sphere
    /// scaled to half size.
    fn default() -> (r: World)
        ensures
            r.light == Some(
                Light {
                    position: Tuple {
                        x: Fx { bits: NEG_TEN_BITS },
                        y: Fx { bits: TEN_BITS },
                        z: Fx { bits: NEG_TEN_BITS },
                        w: Fx { bits: SCALE },
                    },
                    intensity: Tuple {
                        x: Fx { bits: SCALE },
                        y: Fx { bits: SCALE },
                        z: Fx { bits: SCALE },
                        w: Fx { bits: SCALE },
                    },
                },
            ),
            r.objects@.len() == 2,
            r.objects@[0] == (Sphere {
                id: 0,
                material: default_world_material_s(),
                transform: identity_s(),
                transform_inverse: identity_s(),
            }),
            r.objects@[1] == (Sphere {
                id: 1,
                material: default_material_s(),
                transform: scaling_s(HALF_SCALE as int, HALF_SCALE as int, HALF_SCALE as int),
                transform_inverse: inverse_s(
                    scaling_s(HALF_SCALE as int, HALF_SCALE as int, HALF_SCALE as int),
                ),
            }),
            r.objects@[0].wf(),
            r.objects@[1].wf(),
    {
        let light = Light::new(
            Tuple::point(Fx { bits: NEG_TEN_BITS }, Fx { bits: TEN_BITS }, Fx { bits: NEG_TEN_BITS }),
            Tuple::color(Fx::one(), Fx::one(), Fx::one(), Fx::one()),
        );
        let mut s1 = Sphere::new(0);
        s1.material = Material {
            color: Tuple::color(
                Fx { bits: COLOR_08_BITS },
                Fx::one(),
                Fx { bits: COLOR_06_BITS },
                Fx::one(),
            ),
            ambient: Fx { bits: crate::material::DEFAULT_AMBIENT_BITS },
            diffuse: Fx { bits: DIFFUSE_07_BITS },
            specular: Fx { bits: SPECULAR_02_BITS },
            shininess: crate::material::DEFAULT_SHININESS,
        };
        let mut s2 = Sphere::new(1);
        let half = Fx { bits: HALF_SCALE };
        proof {
            lemma_half_scaling_invertible();
        }
        let _ = s2.set_transform(Transform::new().scale(half, half, half));
        proof {
            assert(Seq::<crate::matrix::Matrix4>::empty().push(
                scaling_s(HALF_SCALE as int, HALF_SCALE as int, HALF_SCALE as int),
            ) =~= seq![scaling_s(HALF_SCALE as int, HALF_SCALE as int, HALF_SCALE as int)]);
        }
        let mut objects: Vec<Sphere> = Vec::new();
        objects.push(s1);
        objects.push(s2);
        World { objects, light: Some(light) }
    }
}

/// The bits of 10.
pub const TEN_BITS: i64 = 42949672960;

/// The bits of -10.
pub const NEG_TEN_BITS: i64 = -42949672960;

/// The bits of the outer default sphere's color lane 0.8 (rounded).
pub const COLOR_08_BITS: i64 = 3435973837;

/// The bits of the outer default sphere's color lane 0.6 (rounded).
pub const COLOR_06_BITS: i64 = 2576980378;

/// The bits of the outer default sphere's diffuse 0.7 (rounded).
pub const DIFFUSE_07_BITS: i64 = 3006477107;

/// The bits of the outer default sphere's specular 0.2 (rounded).
pub const SPECULAR_02_BITS: i64 = 858993459;

/// The material of the outer sphere of the default world.
pub open spec fn default_world_material_s() -> Material {
    Material {
        color: Tuple {
            x: Fx { bits: COLOR_08_BITS },
            y: Fx { bits: SCALE },
            z: Fx { bits: COLOR_06_BITS },
            w: Fx { bits: SCALE },
        },
        ambient: Fx { bits: crate::material::DEFAULT_AMBIENT_BITS },
        diffuse: Fx { bits: DIFFUSE_07_BITS },
        specular: Fx { bits: SPECULAR_02_BITS },
        shininess: crate::material::DEFAULT_SHININESS,
    }
}

/// The uniform half scaling has a non-zero determinant, so the inner
/// default sphere's transform is invertible.
proof fn lemma_half_scaling_invertible()
    ensures
        det4_s(scaling_s(HALF_SCALE as int, HALF_SCALE as int, HALF_SCALE as int)) != 0,
{
    let h = HALF_SCALE as int;
    let s = SCALE as int;
    crate::matrix::lemma_scaling_det(h, h, h);
    assert(h * h == 1073741824 * s) by (nonlinear_arith)
        requires
            h == 2147483648,
            s == 4294967296,
    ;
    crate::fx::lemma_rdiv_exact(h * h, s, 1073741824);
    assert(h * 1073741824 == 536870912 * s) by (nonlinear_arith)
        requires
            h == 2147483648,
            s == 4294967296,
    ;
    crate::fx::lemma_rdiv_exact(h * 1073741824, s, 536870912);
    assert(det4_s(scaling_s(h, h, h)) == 536870912);
}

/// A hit taken from the collection that `World::intersect` returns is a
/// nearest hit of the world.
proof fn lemma_hit_is_world_hit(w: World, r: Ray, s: Seq<Intersection>, i: Intersection)
    requires
        i.t@ >= 0,
        s.contains(i),
        forall|j: int| 0 <= j < s.len() && s[j].t@ >= 0 ==> i.t@ <= s[j].t@,
        forall|j: int| 0 <= j < s.len() ==> inter_matches_s(w, r, #[trigger] s[j].t@, *s[j].object),
        forall|k: int|
            0 <= k < w.objects@.len() && #[trigger] sphere_has_hits_s(w.objects@[k], r) ==> (exists|
                jj: int,
            |
                0 <= jj < s.len() && #[trigger] s[jj].t@ == sphere_t1_s(w.objects@[k], r)
                    && *s[jj].object == w.objects@[k]) && (exists|jj: int|
                0 <= jj < s.len() && #[trigger] s[jj].t@ == sphere_t2_s(w.objects@[k], r)
                    && *s[jj].object == w.objects@[k]),
    ensures
        world_hit_at_s(w, r, i.t@, *i.object),
        world_has_hit_s(w, r),
{
    let idx = choose|j: int| 0 <= j < s.len() && s[j] == i;
    assert(inter_matches_s(w, r, i.t@, *i.object));
    assert forall|k: int|
        0 <= k < w.objects@.len() && #[trigger] sphere_has_hits_s(w.objects@[k], r) implies {
        &&& (sphere_t1_s(w.objects@[k], r) >= 0 ==> i.t@ <= sphere_t1_s(w.objects@[k], r))
        &&& (sphere_t2_s(w.objects@[k], r) >= 0 ==> i.t@ <= sphere_t2_s(w.objects@[k], r))
    } by {
        let j1 = choose|jj: int|
            0 <= jj < s.len() && #[trigger] s[jj].t@ == sphere_t1_s(w.objects@[k], r)
                && *s[jj].object == w.objects@[k];
        let j2 = choose|jj: int|
            0 <= jj < s.len() && #[trigger] s[jj].t@ == sphere_t2_s(w.objects@[k], r)
                && *s[jj].object == w.objects@[k];
    }
    let kw = choose|k: int|
        0 <= k < w.objects@.len() && w.objects@[k] == *i.object && sphere_has_hits_s(*i.object, r)
            && (i.t@ == sphere_t1_s(*i.object, r) || i.t@ == sphere_t2_s(*i.object, r));
    assert(sphere_has_hits_s(w.objects@[kw], r));
    assert(world_has_hit_s(w, r));
}

} // verus!
