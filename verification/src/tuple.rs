//! The 4-lane value type shared by points (`w` = 1), direction vectors
//! (`w` = 0) and colors (lanes read as red, green, blue, alpha).

use crate::fx::abs_int;
use crate::fx::abs_u128;
use crate::fx::fx;
use crate::fx::fx_add;
use crate::fx::fx_div;
use crate::fx::fx_fuzzy_eq;
use crate::fx::fx_mul;
use crate::fx::fx_neg;
use crate::fx::fx_sqrt;
use crate::fx::fx_sub;
use crate::fx::lemma_rdiv_sign_magnitude;
use crate::fx::rdiv;
use crate::fx::Fx;
use crate::fx::HALF_SCALE;
use crate::fx::SCALE;
use vstd::arithmetic::div_mod::lemma_div_pos_is_pos;
use vstd::prelude::*;

verus! {

/// A 4-lane fixed-point vector.
#[derive(Clone, Copy, Debug, PartialEq, Eq, Structural)]
pub struct Tuple {
    pub x: Fx,
    pub y: Fx,
    pub z: Fx,
    pub w: Fx,
}

/// One color channel of a tuple, in 0..=255.
#[derive(Clone, Copy, Debug, PartialEq, Eq, Structural)]
pub struct Rgba {
    pub red: u8,
    pub green: u8,
    pub blue: u8,
    pub alpha: u8,
}

/// The tuple with the given lane bits (clamped).
pub open spec fn tuple_s(x: int, y: int, z: int, w: int) -> Tuple {
    Tuple { x: fx(x), y: fx(y), z: fx(z), w: fx(w) }
}

/// Lane-wise sum.
pub open spec fn tuple_add_s(a: Tuple, b: Tuple) -> Tuple {
    tuple_s(fx_add(a.x@, b.x@), fx_add(a.y@, b.y@), fx_add(a.z@, b.z@), fx_add(a.w@, b.w@))
}

/// Lane-wise difference.
pub open spec fn tuple_sub_s(a: Tuple, b: Tuple) -> Tuple {
    tuple_s(fx_sub(a.x@, b.x@), fx_sub(a.y@, b.y@), fx_sub(a.z@, b.z@), fx_sub(a.w@, b.w@))
}

/// Lane-wise negation.
pub open spec fn tuple_neg_s(a: Tuple) -> Tuple {
    tuple_s(fx_neg(a.x@), fx_neg(a.y@), fx_neg(a.z@), fx_neg(a.w@))
}

/// Every lane multiplied by the scalar `s`.
pub open spec fn tuple_scale_s(a: Tuple, s: int) -> Tuple {
    tuple_s(fx_mul(a.x@, s), fx_mul(a.y@, s), fx_mul(a.z@, s), fx_mul(a.w@, s))
}

/// Every lane divided by the scalar `s`.
pub open spec fn tuple_div_scalar_s(a: Tuple, s: int) -> Tuple {
    tuple_s(fx_div(a.x@, s), fx_div(a.y@, s), fx_div(a.z@, s), fx_div(a.w@, s))
}

/// Lane-wise product, the color blend.
pub open spec fn tuple_hadamard_s(a: Tuple, b: Tuple) -> Tuple {
    tuple_s(fx_mul(a.x@, b.x@), fx_mul(a.y@, b.y@), fx_mul(a.z@, b.z@), fx_mul(a.w@, b.w@))
}

/// The dot product over all four lanes, summed left to right.
pub open spec fn dot_s(a: Tuple, b: Tuple) -> int {
    fx_add(
        fx_add(fx_add(fx_mul(a.x@, b.x@), fx_mul(a.y@, b.y@)), fx_mul(a.z@, b.z@)),
        fx_mul(a.w@, b.w@),
    )
}

/// The 3-component cross product; the `w` lane of the result is 0.
pub open spec fn cross_s(a: Tuple, b: Tuple) -> Tuple {
    tuple_s(
        fx_sub(fx_mul(a.y@, b.z@), fx_mul(a.z@, b.y@)),
        fx_sub(fx_mul(a.z@, b.x@), fx_mul(a.x@, b.z@)),
        fx_sub(fx_mul(a.x@, b.y@), fx_mul(a.y@, b.x@)),
        0,
    )
}

/// The Euclidean norm over all four lanes, rounded down.
pub open spec fn magnitude_s(a: Tuple) -> int {
    fx_sqrt(dot_s(a, a))
}

/// The unit vector in the direction of `a`; a tuple whose magnitude rounds
/// to 0 is returned unchanged.
pub open spec fn normalize_s(a: Tuple) -> Tuple {
    if magnitude_s(a) == 0 {
        a
    } else {
        tuple_div_scalar_s(a, magnitude_s(a))
    }
}

/// `v` reflected about the normal `n`: `v - n * 2 * dot(v, n)`.
pub open spec fn reflect_s(v: Tuple, n: Tuple) -> Tuple {
    tuple_sub_s(v, tuple_scale_s(tuple_scale_s(n, 2 * SCALE), dot_s(v, n)))
}

/// Whether all four lanes are within the fuzzy tolerance of each other.
pub open spec fn tuple_fuzzy_eq_s(a: Tuple, b: Tuple) -> bool {
    fx_fuzzy_eq(a.x@, b.x@) && fx_fuzzy_eq(a.y@, b.y@) && fx_fuzzy_eq(a.z@, b.z@) && fx_fuzzy_eq(
        a.w@,
        b.w@,
    )
}

/// Whether the first three lanes are within the fuzzy tolerance of each
/// other; the comparison used for colors.
pub open spec fn rgb_eq_s(a: Tuple, b: Tuple) -> bool {
    fx_fuzzy_eq(a.x@, b.x@) && fx_fuzzy_eq(a.y@, b.y@) && fx_fuzzy_eq(a.z@, b.z@)
}

/// One color lane scaled by 255, rounded, and clamped into 0..=255.
pub open spec fn channel_byte_s(v: int) -> int {
    let scaled = rdiv(v * 255, SCALE as int);
    if scaled < 0 {
        0
    } else if scaled > 255 {
        255
    } else {
        scaled
    }
}

/// The 8-bit color of a tuple read as red, green, blue, alpha.
pub open spec fn rgba_s(a: Tuple) -> Rgba {
    Rgba {
        red: channel_byte_s(a.x@) as u8,
        green: channel_byte_s(a.y@) as u8,
        blue: channel_byte_s(a.z@) as u8,
        alpha: channel_byte_s(a.w@) as u8,
    }
}

impl Tuple {
    /// A tuple with the four given lanes.
    pub fn new(x: Fx, y: Fx, z: Fx, w: Fx) -> (r: Tuple)
        ensures
            r == (Tuple { x, y, z, w }),
    {
        Tuple { x, y, z, w }
    }

    /// A point: `w` = 1.
    pub fn point(x: Fx, y: Fx, z: Fx) -> (r: Tuple)
        ensures
            r == (Tuple { x, y, z, w: Fx { bits: SCALE } }),
    {
        Tuple { x, y, z, w: Fx::one() }
    }

    /// A direction vector: `w` = 0.
    pub fn vector(x: Fx, y: Fx, z: Fx) -> (r: Tuple)
        ensures
            r == (Tuple { x, y, z, w: Fx { bits: 0 } }),
    {
        Tuple { x, y, z, w: Fx::zero() }
    }

    /// A color with the given red, green, blue and alpha lanes.
    pub fn color(red: Fx, green: Fx, blue: Fx, alpha: Fx) -> (r: Tuple)
        ensures
            r == (Tuple { x: red, y: green, z: blue, w: alpha }),
    {
        Tuple { x: red, y: green, z: blue, w: alpha }
    }

    /// Whether this tuple is a point (`w` exactly 1).
    pub fn is_point(self) -> (r: bool)
        ensures
            r == (self.w@ == SCALE as int),
    {
        self.w.bits == SCALE
    }

    /// Whether this tuple is a direction vector (`w` exactly 0).
    pub fn is_vector(self) -> (r: bool)
        ensures
            r == (self.w@ == 0),
    {
        self.w.bits == 0
    }

    /// Lane-wise sum.
    pub fn add(self, other: Tuple) -> (r: Tuple)
        ensures
            r == tuple_add_s(self, other),
    {
        Tuple {
            x: self.x.add(other.x),
            y: self.y.add(other.y),
            z: self.z.add(other.z),
            w: self.w.add(other.w),
        }
    }

    /// Lane-wise difference.
    pub fn sub(self, other: Tuple) -> (r: Tuple)
        ensures
            r == tuple_sub_s(self, other),
    {
        Tuple {
            x: self.x.sub(other.x),
            y: self.y.sub(other.y),
            z: self.z.sub(other.z),
            w: self.w.sub(other.w),
        }
    }

    /// Lane-wise negation.
    pub fn neg(self) -> (r: Tuple)
        ensures
            r == tuple_neg_s(self),
    {
        Tuple { x: self.x.neg(), y: self.y.neg(), z: self.z.neg(), w: self.w.neg() }
    }

    /// Every lane multiplied by the scalar `s`.
    pub fn scale(self, s: Fx) -> (r: Tuple)
        ensures
            r == tuple_scale_s(self, s@),
    {
        Tuple { x: self.x.mul(s), y: self.y.mul(s), z: self.z.mul(s), w: self.w.mul(s) }
    }

    /// Every lane divided by the scalar `s`.
    pub fn div_scalar(self, s: Fx) -> (r: Tuple)
        requires
            s@ != 0,
        ensures
            r == tuple_div_scalar_s(self, s@),
    {
        Tuple { x: self.x.div(s), y: self.y.div(s), z: self.z.div(s), w: self.w.div(s) }
    }

    /// Lane-wise product, the color blend.
    pub fn hadamard(self, other: Tuple) -> (r: Tuple)
        ensures
            r == tuple_hadamard_s(self, other),
    {
        Tuple {
            x: self.x.mul(other.x),
            y: self.y.mul(other.y),
            z: self.z.mul(other.z),
            w: self.w.mul(other.w),
        }
    }

    /// The dot product over all four lanes.
    pub fn dot(self, other: Tuple) -> (r: Fx)
        ensures
            r@ == dot_s(self, other),
    {
        self.x.mul(other.x).add(self.y.mul(other.y)).add(self.z.mul(other.z)).add(
            self.w.mul(other.w),
        )
    }

    /// The 3-component cross product; the `w` lane of the result is 0.
    pub fn cross(self, other: Tuple) -> (r: Tuple)
        ensures
            r == cross_s(self, other),
    {
        Tuple {
            x: self.y.mul(other.z).sub(self.z.mul(other.y)),
            y: self.z.mul(other.x).sub(self.x.mul(other.z)),
            z: self.x.mul(other.y).sub(self.y.mul(other.x)),
            w: Fx::zero(),
        }
    }

    /// The Euclidean norm over all four lanes.
    pub fn magnitude(self) -> (r: Fx)
        ensures
            r@ == magnitude_s(self),
            r@ >= 0,
    {
        let squared = self.dot(self);
        proof {
            lemma_dot_self_nonneg(self);
        }
        squared.sqrt()
    }

    /// The unit vector in this direction; a tuple whose magnitude rounds
    /// to 0 is returned unchanged.
    pub fn normalize(self) -> (r: Tuple)
        ensures
            r == normalize_s(self),
    {
        let m = self.magnitude();
        if m.bits == 0 {
            self
        } else {
            self.div_scalar(m)
        }
    }

    /// This vector reflected about the normal `n`.
    pub fn reflect(self, n: Tuple) -> (r: Tuple)
        ensures
            r == reflect_s(self, n),
    {
        let d = self.dot(n);
        self.sub(n.scale(Fx { bits: 2 * SCALE }).scale(d))
    }

    /// The lanes reread as a direction vector: `w` forced back to 0.
    pub fn repair_vector_after_translation(self) -> (r: Tuple)
        ensures
            r == (Tuple { x: self.x, y: self.y, z: self.z, w: Fx { bits: 0 } }),
    {
        Tuple::vector(self.x, self.y, self.z)
    }

    /// Whether all four lanes are within the fuzzy tolerance of each
    /// other.
    pub fn fuzzy_eq(self, other: Tuple) -> (r: bool)
        ensures
            r == tuple_fuzzy_eq_s(self, other),
    {
        self.x.fuzzy_eq(other.x) && self.y.fuzzy_eq(other.y) && self.z.fuzzy_eq(other.z)
            && self.w.fuzzy_eq(other.w)
    }

    /// Whether the first three lanes are within the fuzzy tolerance of
    /// each other; the comparison used for colors.
    pub fn rgb_eq(self, other: Tuple) -> (r: bool)
        ensures
            r == rgb_eq_s(self, other),
    {
        self.x.fuzzy_eq(other.x) && self.y.fuzzy_eq(other.y) && self.z.fuzzy_eq(other.z)
    }

    /// The 8-bit color of this tuple: each lane scaled by 255, rounded,
    /// and clamped into 0..=255.
    pub fn to_rgba(self) -> (r: Rgba)
        ensures
            r == rgba_s(self),
    {
        Rgba {
            red: channel_byte(self.x),
            green: channel_byte(self.y),
            blue: channel_byte(self.z),
            alpha: channel_byte(self.w),
        }
    }
}

/// One color lane scaled by 255, rounded, and clamped into 0..=255.
fn channel_byte(v: Fx) -> (r: u8)
    ensures
        r as int == channel_byte_s(v@),
{
    let negative: bool = v.bits < 0;
    let magnitude: u128 = abs_u128(v.bits) * 255u128;
    let quotient: u128 = (magnitude + (HALF_SCALE as u128)) / (SCALE as u128);
    proof {
        assert(abs_int(v@) * 255 == abs_int(v@ * 255)) by (nonlinear_arith);
        assert(v@ < 0 ==> v@ * 255 <= 0) by (nonlinear_arith);
        assert(v@ >= 0 ==> v@ * 255 >= 0) by (nonlinear_arith);
        lemma_rdiv_sign_magnitude(v@ * 255, SCALE as int, negative, quotient as int);
    }
    if negative {
        0
    } else if quotient > 255 {
        255
    } else {
        quotient as u8
    }
}

/// The dot product of a tuple with itself is non-negative.
pub proof fn lemma_dot_self_nonneg(a: Tuple)
    ensures
        dot_s(a, a) >= 0,
{
    lemma_fx_square_nonneg(a.x@);
    lemma_fx_square_nonneg(a.y@);
    lemma_fx_square_nonneg(a.z@);
    lemma_fx_square_nonneg(a.w@);
}

/// A rounded fixed-point square is non-negative.
pub proof fn lemma_fx_square_nonneg(v: int)
    ensures
        fx_mul(v, v) >= 0,
{
    assert(v * v >= 0) by (nonlinear_arith);
    lemma_div_pos_is_pos(v * v + (SCALE as int) / 2, SCALE as int);
}

} // verus!
