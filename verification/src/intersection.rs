//! Hit records: sorted collections of ray-sphere intersections, nearest-hit
//! selection, and the precomputed shading state.

use crate::fx::Fx;
use crate::ray::ray_position_s;
use crate::ray::Ray;
use crate::sphere::normal_at_s;
use crate::sphere::Sphere;
use crate::tuple::dot_s;
use crate::tuple::tuple_add_s;
use crate::tuple::tuple_neg_s;
use crate::tuple::tuple_scale_s;
use crate::tuple::Tuple;
use vstd::prelude::*;

verus! {

broadcast use vstd::seq_lib::group_to_multiset_ensures, vstd::multiset::group_multiset_axioms;

/// The bits of the shadow bias 0.005 (rounded): how far the shadow-ray
/// origin is pushed off the surface along the normal.
pub const SHADOW_SURFACE_OFFSET_BITS: i64 = 21474836;

/// One intersection: the ray parameter `t` and the sphere that was hit.
#[derive(Clone, Copy, Debug)]
pub struct Intersection<'a> {
    pub t: Fx,
    pub object: &'a Sphere,
}

/// The shading state precomputed from one intersection and the ray that
/// produced it.
#[derive(Clone, Debug)]
pub struct IntersectionComputations {
    pub t: Fx,
    pub object: Sphere,
    pub point: Tuple,
    pub over_point: Tuple,
    pub eyev: Tuple,
    pub normalv: Tuple,
    pub inside: bool,
}

/// A list of intersections sorted ascending by `t`.
#[derive(Debug)]
pub struct IntersectionCollection<'a> {
    xs: Vec<Intersection<'a>>,
}

/// Whether the intersections are sorted ascending by `t`.
pub open spec fn sorted_by_t(s: Seq<Intersection>) -> bool {
    forall|a: int, b: int| 0 <= a < b < s.len() ==> s[a].t@ <= s[b].t@
}

/// The shading state of the intersection at parameter `t` on `object`,
/// for the ray `r`: the hit point, the eye vector, the surface normal
/// (flipped toward the eye when the hit is on the inside), and the hit
/// point pushed off the surface by the shadow bias.
pub open spec fn prepare_computations_s(t: Fx, object: Sphere, r: Ray) -> IntersectionComputations {
    let point = ray_position_s(r, t@);
    let eyev = tuple_neg_s(r.direction);
    let raw_normal = normal_at_s(object, point);
    let inside = dot_s(raw_normal, eyev) < 0;
    let normalv = if inside {
        tuple_neg_s(raw_normal)
    } else {
        raw_normal
    };
    let over_point = tuple_add_s(
        point,
        tuple_scale_s(normalv, SHADOW_SURFACE_OFFSET_BITS as int),
    );
    IntersectionComputations { t, object, point, over_point, eyev, normalv, inside }
}

impl<'a> Intersection<'a> {
    /// An intersection at parameter `t` on `object`.
    pub fn new(t: Fx, object: &'a Sphere) -> (r: Intersection<'a>)
        ensures
            r.t == t,
            r.object == object,
    {
        Intersection { t, object }
    }

    /// Precomputes the shading state for this intersection and the ray
    /// that produced it.
    pub fn prepare_computations(&self, r: Ray) -> (c: IntersectionComputations)
        ensures
            c == prepare_computations_s(self.t, *self.object, r),
    {
        let eyev = r.direction.neg();
        let raw_normal = self.object.normal_at(r.position(self.t));
        let inside = raw_normal.dot(eyev).bits < 0;
        let normalv = if inside {
            raw_normal.neg()
        } else {
            raw_normal
        };
        let point = r.position(self.t);
        let over_point = point.add(normalv.scale(Fx { bits: SHADOW_SURFACE_OFFSET_BITS }));
        IntersectionComputations {
            t: self.t,
            object: *self.object,
            point,
            over_point,
            eyev,
            normalv,
            inside,
        }
    }
}

impl<'a> View for IntersectionCollection<'a> {
    type V = Seq<Intersection<'a>>;

    closed spec fn view(&self) -> Seq<Intersection<'a>> {
        self.xs@
    }
}

impl<'a> IntersectionCollection<'a> {
    /// Sorts the given intersections ascending by `t`.
    pub fn new(xs: Vec<Intersection<'a>>) -> (r: IntersectionCollection<'a>)
        ensures
            r@.to_multiset() == xs@.to_multiset(),
            r@.len() == xs@.len(),
            sorted_by_t(r@),
    {
        let ghost orig = xs@;
        let mut v = xs;
        let n = v.len();
        let mut i: usize = 1;
        while i < n
            invariant
                n == v.len(),
                i >= 1,
                v@.to_multiset() == orig.to_multiset(),
                forall|a: int, b: int| 0 <= a < b < i && b < n ==> v@[a].t@ <= v@[b].t@,
            decreases n - i,
        {
            let mut j: usize = i;
            while j > 0 && v[j - 1].t.bits > v[j].t.bits
                invariant
                    j <= i < n == v.len(),
                    v@.to_multiset() == orig.to_multiset(),
                    forall|a: int, b: int| 0 <= a < b <= i && b != j ==> v@[a].t@ <= v@[b].t@,
                decreases j,
            {
                let ghost prev = v@;
                let lower = v[j - 1];
                let upper = v[j];
                v.set(j - 1, upper);
                v.set(j, lower);
                proof {
                    assert(v@ == prev.update(j - 1, prev[j as int]).update(j as int, prev[j - 1]));
                    assert(v@.to_multiset() =~= prev.to_multiset());
                }
                j = j - 1;
            }
            proof {
                assert forall|a: int, b: int| 0 <= a < b <= i implies v@[a].t@ <= v@[b].t@ by {
                    if b == j {
                        assert(j > 0);
                        assert(v@[j - 1].t@ <= v@[j as int].t@);
                        if a < j - 1 {
                            assert(v@[a].t@ <= v@[j - 1].t@);
                        }
                    }
                }
            }
            i = i + 1;
        }
        IntersectionCollection { xs: v }
    }

    /// A collection of the two given intersections, in ascending order
    /// of `t`.
    pub fn of_pair(first: Intersection<'a>, second: Intersection<'a>) -> (r:
        IntersectionCollection<'a>)
        ensures
            r@.len() == 2,
            sorted_by_t(r@),
            first.t@ <= second.t@ ==> r@ == seq![first, second],
            first.t@ > second.t@ ==> r@ == seq![second, first],
    {
        let mut v: Vec<Intersection<'a>> = Vec::new();
        if first.t.bits <= second.t.bits {
            v.push(first);
            v.push(second);
            proof {
                assert(v@ =~= seq![first, second]);
            }
        } else {
            v.push(second);
            v.push(first);
            proof {
                assert(v@ =~= seq![second, first]);
            }
        }
        IntersectionCollection { xs: v }
    }

    /// An empty collection.
    pub fn empty() -> (r: IntersectionCollection<'a>)
        ensures
            r@.len() == 0,
            sorted_by_t(r@),
    {
        IntersectionCollection { xs: Vec::new() }
    }

    /// How many intersections the collection holds.
    pub fn len(&self) -> (r: usize)
        ensures
            r == self@.len(),
    {
        self.xs.len()
    }

    /// Whether the collection is empty.
    pub fn is_empty(&self) -> (r: bool)
        ensures
            r == (self@.len() == 0),
    {
        self.xs.len() == 0
    }

    /// The intersection at `index`.
    pub fn get(&self, index: usize) -> (r: Intersection<'a>)
        requires
            index < self@.len(),
        ensures
            r == self@[index as int],
    {
        self.xs[index]
    }

    /// The hit: the intersection with the smallest non-negative `t`, or
    /// `None` when every `t` is negative (or the collection is empty).
    pub fn hit(&self) -> (r: Option<Intersection<'a>>)
        ensures
            match r {
                Some(i) => i.t@ >= 0 && self@.contains(i) && forall|j: int|
                    0 <= j < self@.len() && self@[j].t@ >= 0 ==> i.t@ <= self@[j].t@,
                None => forall|j: int| 0 <= j < self@.len() ==> self@[j].t@ < 0,
            },
    {
        let mut best: Option<Intersection<'a>> = None;
        let mut k: usize = 0;
        while k < self.xs.len()
            invariant
                k <= self.xs.len(),
                match best {
                    Some(b) => b.t@ >= 0 && self@.contains(b) && forall|j: int|
                        0 <= j < k && self@[j].t@ >= 0 ==> b.t@ <= self@[j].t@,
                    None => forall|j: int| 0 <= j < k ==> self@[j].t@ < 0,
                },
            decreases self.xs.len() - k,
        {
            let candidate = self.xs[k];
            if candidate.t.bits >= 0 {
                best = match best {
                    None => Some(candidate),
                    Some(b) => if candidate.t.bits < b.t.bits {
                        Some(candidate)
                    } else {
                        Some(b)
                    },
                };
            }
            k = k + 1;
        }
        best
    }
}

} // verus!
