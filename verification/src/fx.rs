//! Q31.32 fixed-point scalars.
//!
//! A value is stored as `bits`, an `i64` holding the real number
//! `bits / 2^32`.  Every arithmetic operation rounds to nearest (ties away
//! from zero) and saturates at the `i64` range; the spec functions in this
//! module state the produced value exactly, so every layer built on top of
//! them has an exact contract.

use vstd::arithmetic::div_mod::lemma_fundamental_div_mod;
use vstd::arithmetic::div_mod::lemma_fundamental_div_mod_converse;
use vstd::prelude::*;

verus! {

/// Number of fractional steps in one unit: the bits of the value 1.
pub const SCALE: i64 = 4294967296;

/// Half of [`SCALE`], the rounding offset.
pub const HALF_SCALE: i64 = 2147483648;

/// The bits of the value -1.
pub const NEG_SCALE: i64 = -4294967296;

/// Tolerance of the fuzzy comparisons, the bits of 1e-5 (rounded).
pub const FUZZY_EPSILON_BITS: i64 = 42950;

/// A fixed-point number: the real value `bits / 2^32`.
#[derive(Clone, Copy, Debug, PartialEq, Eq, Structural)]
pub struct Fx {
    pub bits: i64,
}

impl View for Fx {
    type V = int;

    open spec fn view(&self) -> int {
        self.bits as int
    }
}

/// Clamps a mathematical integer into the `i64` range.
pub open spec fn sat64(x: int) -> int {
    if x > i64::MAX as int {
        i64::MAX as int
    } else if x < i64::MIN as int {
        i64::MIN as int
    } else {
        x
    }
}

/// `n / d` rounded to the nearest integer, ties away from zero.
/// Meaningful for `d > 0`.
pub open spec fn rdiv(n: int, d: int) -> int {
    if n >= 0 {
        (n + d / 2) / d
    } else {
        -((-n + d / 2) / d)
    }
}

/// The bits of the sum of two fixed-point values.
pub open spec fn fx_add(a: int, b: int) -> int {
    sat64(a + b)
}

/// The bits of the difference of two fixed-point values.
pub open spec fn fx_sub(a: int, b: int) -> int {
    sat64(a - b)
}

/// The bits of the negation of a fixed-point value.
pub open spec fn fx_neg(a: int) -> int {
    sat64(-a)
}

/// The bits of the rounded product of two fixed-point values.
pub open spec fn fx_mul(a: int, b: int) -> int {
    sat64(rdiv(a * b, SCALE as int))
}

/// The bits of the rounded quotient of two fixed-point values;
/// 0 when the divisor is 0 (execution never divides by 0).
pub open spec fn fx_div(a: int, b: int) -> int {
    if b == 0 {
        0
    } else if b > 0 {
        sat64(rdiv(a * SCALE, b))
    } else {
        sat64(rdiv(-(a * SCALE), -b))
    }
}

/// The bits of the fixed-point value closest to the integer `n`.
pub open spec fn fx_of_int(n: int) -> int {
    sat64(n * SCALE)
}

/// Whether two fixed-point values differ by less than the fuzzy tolerance.
pub open spec fn fx_fuzzy_eq(a: int, b: int) -> bool {
    -(FUZZY_EPSILON_BITS as int) < a - b < FUZZY_EPSILON_BITS as int
}

/// Builds the fixed-point value with the given (clamped) bits.
pub open spec fn fx(bits: int) -> Fx {
    Fx { bits: sat64(bits) as i64 }
}

impl Fx {
    /// The value 0.
    pub fn zero() -> (r: Fx)
        ensures
            r == (Fx { bits: 0 }),
    {
        Fx { bits: 0 }
    }

    /// The value 1.
    pub fn one() -> (r: Fx)
        ensures
            r == (Fx { bits: SCALE }),
    {
        Fx { bits: SCALE }
    }

    /// Reinterprets raw bits as a fixed-point value.
    pub fn from_bits(bits: i64) -> (r: Fx)
        ensures
            r@ == bits as int,
    {
        Fx { bits }
    }

    /// The fixed-point value closest to the integer `n`, saturated.
    pub fn from_int(n: i64) -> (r: Fx)
        ensures
            r@ == fx_of_int(n as int),
    {
        proof {
            assert(i64::MIN * SCALE >= i128::MIN && i64::MAX * SCALE <= i128::MAX
                && (n as int) * SCALE <= i64::MAX * SCALE && (n as int) * SCALE >= i64::MIN
                * SCALE) by (nonlinear_arith)
                requires
                    i64::MIN <= n as int <= i64::MAX,
            ;
        }
        let wide: i128 = (n as i128) * (SCALE as i128);
        Fx { bits: clamp_i128(wide) }
    }

    /// Saturating fixed-point addition.
    pub fn add(self, other: Fx) -> (r: Fx)
        ensures
            r@ == fx_add(self@, other@),
    {
        let wide: i128 = (self.bits as i128) + (other.bits as i128);
        Fx { bits: clamp_i128(wide) }
    }

    /// Saturating fixed-point subtraction.
    pub fn sub(self, other: Fx) -> (r: Fx)
        ensures
            r@ == fx_sub(self@, other@),
    {
        let wide: i128 = (self.bits as i128) - (other.bits as i128);
        Fx { bits: clamp_i128(wide) }
    }

    /// Saturating fixed-point negation.
    pub fn neg(self) -> (r: Fx)
        ensures
            r@ == fx_neg(self@),
    {
        let wide: i128 = -(self.bits as i128);
        Fx { bits: clamp_i128(wide) }
    }

    /// Rounded, saturating fixed-point multiplication.
    pub fn mul(self, other: Fx) -> (r: Fx)
        ensures
            r@ == fx_mul(self@, other@),
    {
        let negative: bool = (self.bits < 0) != (other.bits < 0);
        let mag_a: u128 = abs_u128(self.bits);
        let mag_b: u128 = abs_u128(other.bits);
        proof {
            assert(mag_a * mag_b <= 0x8000000000000000u128 * 0x8000000000000000u128)
                by (nonlinear_arith)
                requires
                    mag_a <= 0x8000000000000000u128,
                    mag_b <= 0x8000000000000000u128,
            ;
        }
        let magnitude: u128 = mag_a * mag_b;
        let quotient: u128 = (magnitude + (HALF_SCALE as u128)) / (SCALE as u128);
        proof {
            lemma_abs_product(self@, other@);
            assert((self@ < 0) != (other@ < 0) ==> self@ * other@ <= 0) by (nonlinear_arith);
            assert((self@ < 0) == (other@ < 0) ==> self@ * other@ >= 0) by (nonlinear_arith);
            lemma_rdiv_sign_magnitude(self@ * other@, SCALE as int, negative, quotient as int);
        }
        Fx { bits: sat_sign_magnitude(negative, quotient) }
    }

    /// Rounded, saturating fixed-point division.
    pub fn div(self, other: Fx) -> (r: Fx)
        requires
            other@ != 0,
        ensures
            r@ == fx_div(self@, other@),
    {
        let negative: bool = (self.bits < 0) != (other.bits < 0);
        let mag_a: u128 = abs_u128(self.bits);
        proof {
            assert(mag_a * (SCALE as u128) <= 0x8000000000000000u128 * 0x100000000u128)
                by (nonlinear_arith)
                requires
                    mag_a <= 0x8000000000000000u128,
            ;
        }
        let numerator: u128 = mag_a * (SCALE as u128);
        let denominator: u128 = abs_u128(other.bits);
        let quotient: u128 = (numerator + denominator / 2) / denominator;
        proof {
            lemma_abs_product(self@, SCALE as int);
            assert(self@ < 0 ==> self@ * SCALE <= 0) by (nonlinear_arith);
            assert(self@ >= 0 ==> self@ * SCALE >= 0) by (nonlinear_arith);
            if other@ > 0 {
                lemma_rdiv_sign_magnitude(self@ * SCALE, other@, negative, quotient as int);
            } else {
                assert(-(self@ * SCALE) == (-self@) * SCALE) by (nonlinear_arith);
                assert(abs_int(-(self@ * SCALE)) == abs_int(self@ * SCALE));
                lemma_rdiv_sign_magnitude(-(self@ * SCALE), -other@, negative, quotient as int);
            }
        }
        Fx { bits: sat_sign_magnitude(negative, quotient) }
    }

    /// Whether this value is within the fuzzy tolerance of `other`.
    pub fn fuzzy_eq(self, other: Fx) -> (r: bool)
        ensures
            r == fx_fuzzy_eq(self@, other@),
    {
        let diff: i128 = (self.bits as i128) - (other.bits as i128);
        -(FUZZY_EPSILON_BITS as i128) < diff && diff < FUZZY_EPSILON_BITS as i128
    }
}

/// The absolute value of a mathematical integer.
pub open spec fn abs_int(x: int) -> int {
    if x < 0 {
        -x
    } else {
        x
    }
}

/// The absolute value of an `i64`, widened so that `i64::MIN` needs no care.
pub(crate) fn abs_u128(x: i64) -> (r: u128)
    ensures
        r as int == abs_int(x as int),
{
    if x >= 0 {
        x as u128
    } else {
        (-(x as i128)) as u128
    }
}

/// Clamps an `i128` into the `i64` range.
fn clamp_i128(x: i128) -> (r: i64)
    ensures
        r as int == sat64(x as int),
{
    if x > i64::MAX as i128 {
        i64::MAX
    } else if x < i64::MIN as i128 {
        i64::MIN
    } else {
        x as i64
    }
}

/// Clamps `magnitude` (negated when `negative`) into the `i64` range.
fn sat_sign_magnitude(negative: bool, magnitude: u128) -> (r: i64)
    ensures
        r as int == sat64(
            if negative {
                -(magnitude as int)
            } else {
                magnitude as int
            },
        ),
{
    if negative {
        if magnitude > 9223372036854775808u128 {
            i64::MIN
        } else if magnitude == 9223372036854775808u128 {
            i64::MIN
        } else {
            -(magnitude as i64)
        }
    } else {
        if magnitude >= 9223372036854775807u128 {
            i64::MAX
        } else {
            magnitude as i64
        }
    }
}

/// The bits of pi (rounded).
pub const PI_BITS: i64 = 13493037705;

/// The bits of 2*pi (rounded).
pub const TWO_PI_BITS: i64 = 26986075409;

/// The bits of pi/2 (rounded).
pub const HALF_PI_BITS: i64 = 6746518852;

/// The bits of 1/3! (rounded).
pub const SIN_C3: i64 = 715827883;

/// The bits of 1/5! (rounded).
pub const SIN_C5: i64 = 35791394;

/// The bits of 1/7! (rounded).
pub const SIN_C7: i64 = 852176;

/// The bits of 1/9! (rounded).
pub const SIN_C9: i64 = 11836;

/// The bits of 1/11! (rounded).
pub const SIN_C11: i64 = 108;

/// The bits of 1/13! (rounded).
pub const SIN_C13: i64 = 1;

/// The bits of 1/2! .
pub const COS_C2: i64 = 2147483648;

/// The bits of 1/4! (rounded).
pub const COS_C4: i64 = 178956971;

/// The bits of 1/6! (rounded).
pub const COS_C6: i64 = 5965232;

/// The bits of 1/8! (rounded).
pub const COS_C8: i64 = 106522;

/// The bits of 1/10! (rounded).
pub const COS_C10: i64 = 1184;

/// The bits of 1/12! (rounded).
pub const COS_C12: i64 = 9;

/// Whether `r` is the floor of the square root of `n`.
pub open spec fn is_sqrt_floor(n: int, r: int) -> bool {
    0 <= r && r * r <= n && n < (r + 1) * (r + 1)
}

/// The largest `r >= 0` with `r * r <= n` (0 for negative `n`).
pub open spec fn sqrt_floor(n: int) -> int {
    if n < 0 {
        0
    } else {
        choose|r: int| is_sqrt_floor(n, r)
    }
}

/// The bits of the square root of a non-negative fixed-point value,
/// rounded down.
pub open spec fn fx_sqrt(a: int) -> int {
    sqrt_floor(a * SCALE)
}

/// The bits of `x` reduced by the nearest whole number of turns: the
/// result keeps the same point on the circle and lies within half a turn
/// of zero.
pub open spec fn reduce_turn(x: int) -> int {
    x - rdiv(x, TWO_PI_BITS as int) * TWO_PI_BITS
}

/// One step of the Horner evaluation shared by the two polynomials:
/// `c - u * acc`.
pub open spec fn horner_step(c: int, u: int, acc: int) -> int {
    fx_sub(c, fx_mul(u, acc))
}

/// The sine polynomial, accurate on arguments within a quarter turn of 0.
pub open spec fn sin_poly(x: int) -> int {
    let u = fx_mul(x, x);
    let p = horner_step(
        SCALE as int,
        u,
        horner_step(
            SIN_C3 as int,
            u,
            horner_step(
                SIN_C5 as int,
                u,
                horner_step(
                    SIN_C7 as int,
                    u,
                    horner_step(SIN_C9 as int, u, horner_step(SIN_C11 as int, u, SIN_C13 as int)),
                ),
            ),
        ),
    );
    fx_mul(x, p)
}

/// The cosine polynomial, accurate on arguments within a quarter turn of 0.
pub open spec fn cos_poly(x: int) -> int {
    let u = fx_mul(x, x);
    horner_step(
        SCALE as int,
        u,
        horner_step(
            COS_C2 as int,
            u,
            horner_step(
                COS_C4 as int,
                u,
                horner_step(
                    COS_C6 as int,
                    u,
                    horner_step(COS_C8 as int, u, horner_step(COS_C10 as int, u, COS_C12 as int)),
                ),
            ),
        ),
    )
}

/// The bits of the sine of a fixed-point angle in radians: the angle is
/// reduced to within half a turn of zero, folded into a quarter turn, and
/// the polynomial is applied.
pub open spec fn fx_sin(x: int) -> int {
    let r = reduce_turn(x);
    if r > HALF_PI_BITS as int {
        sin_poly(PI_BITS - r)
    } else if r < -(HALF_PI_BITS as int) {
        sin_poly(-(PI_BITS as int) - r)
    } else {
        sin_poly(r)
    }
}

/// The bits of the cosine of a fixed-point angle in radians, by the same
/// reduction as [`fx_sin`].
pub open spec fn fx_cos(x: int) -> int {
    let r = reduce_turn(x);
    if r > HALF_PI_BITS as int {
        fx_neg(cos_poly(PI_BITS - r))
    } else if r < -(HALF_PI_BITS as int) {
        fx_neg(cos_poly(PI_BITS + r))
    } else {
        cos_poly(r)
    }
}

/// The bits of the tangent: sine over cosine (0 where the cosine rounds
/// to exactly 0).
pub open spec fn fx_tan(x: int) -> int {
    fx_div(fx_sin(x), fx_cos(x))
}

/// The bits of a non-negative base raised to a whole power, by repeated
/// rounded multiplication.
pub open spec fn fx_pow(b: int, n: nat) -> int
    decreases n,
{
    if n == 0 {
        SCALE as int
    } else {
        fx_mul(fx_pow(b, (n - 1) as nat), b)
    }
}

impl Fx {
    /// The square root, rounded down to the nearest representable value.
    pub fn sqrt(self) -> (r: Fx)
        requires
            self@ >= 0,
        ensures
            r@ == fx_sqrt(self@),
            r@ >= 0,
            r@ * r@ <= self@ * SCALE < (r@ + 1) * (r@ + 1),
    {
        proof {
            assert((self@) * (SCALE as int) < 0x8000000000000000 * 0x100000000) by (nonlinear_arith)
                requires
                    0 <= self@ < 0x8000000000000000,
            ;
            assert(self@ * SCALE >= 0) by (nonlinear_arith)
                requires
                    self@ >= 0,
            ;
        }
        let n: u128 = (self.bits as u128) * (SCALE as u128);
        let root: u64 = isqrt96(n);
        proof {
            lemma_sqrt_floor_is(self@ * SCALE, root as int);
        }
        Fx { bits: root as i64 }
    }

    /// The angle reduced by a whole number of turns to within half a turn
    /// of zero.
    pub fn reduce_turn(self) -> (r: Fx)
        ensures
            r@ == reduce_turn(self@),
            -(PI_BITS as int) <= r@ <= PI_BITS as int,
    {
        let negative: bool = self.bits < 0;
        let magnitude: u128 = abs_u128(self.bits);
        let quotient: u128 = (magnitude + 13493037704u128) / (TWO_PI_BITS as u128);
        proof {
            lemma_rdiv_sign_magnitude(self@, TWO_PI_BITS as int, negative, quotient as int);
            lemma_reduce_turn_bounds(self@);
        }
        let turns: i128 = if negative {
            -(quotient as i128)
        } else {
            quotient as i128
        };
        let reduced: i128 = (self.bits as i128) - turns * (TWO_PI_BITS as i128);
        Fx { bits: reduced as i64 }
    }

    /// The sine of this angle in radians.
    pub fn sin(self) -> (r: Fx)
        ensures
            r@ == fx_sin(self@),
    {
        let reduced = self.reduce_turn();
        if reduced.bits > HALF_PI_BITS {
            Fx { bits: PI_BITS - reduced.bits }.sin_quarter()
        } else if reduced.bits < -HALF_PI_BITS {
            Fx { bits: -PI_BITS - reduced.bits }.sin_quarter()
        } else {
            reduced.sin_quarter()
        }
    }

    /// The cosine of this angle in radians.
    pub fn cos(self) -> (r: Fx)
        ensures
            r@ == fx_cos(self@),
    {
        let reduced = self.reduce_turn();
        if reduced.bits > HALF_PI_BITS {
            Fx { bits: PI_BITS - reduced.bits }.cos_quarter().neg()
        } else if reduced.bits < -HALF_PI_BITS {
            Fx { bits: PI_BITS + reduced.bits }.cos_quarter().neg()
        } else {
            reduced.cos_quarter()
        }
    }

    /// The tangent of this angle in radians (0 where the cosine rounds to
    /// exactly 0).
    pub fn tan(self) -> (r: Fx)
        ensures
            r@ == fx_tan(self@),
    {
        let s = self.sin();
        let c = self.cos();
        if c.bits == 0 {
            Fx { bits: 0 }
        } else {
            s.div(c)
        }
    }

    /// This value raised to the whole power `n`, by repeated rounded
    /// multiplication.
    pub fn powi(self, n: u32) -> (r: Fx)
        ensures
            r@ == fx_pow(self@, n as nat),
    {
        let mut acc = Fx::one();
        let mut i: u32 = 0;
        while i < n
            invariant
                i <= n,
                acc@ == fx_pow(self@, i as nat),
            decreases n - i,
        {
            acc = acc.mul(self);
            i = i + 1;
        }
        acc
    }

    /// The sine polynomial on an argument already folded into a quarter
    /// turn of zero.
    fn sin_quarter(self) -> (r: Fx)
        ensures
            r@ == sin_poly(self@),
    {
        let u = self.mul(self);
        let mut acc = Fx { bits: SIN_C13 };
        acc = Fx { bits: SIN_C11 }.sub(u.mul(acc));
        acc = Fx { bits: SIN_C9 }.sub(u.mul(acc));
        acc = Fx { bits: SIN_C7 }.sub(u.mul(acc));
        acc = Fx { bits: SIN_C5 }.sub(u.mul(acc));
        acc = Fx { bits: SIN_C3 }.sub(u.mul(acc));
        acc = Fx { bits: SCALE }.sub(u.mul(acc));
        self.mul(acc)
    }

    /// The cosine polynomial on an argument already folded into a quarter
    /// turn of zero.
    fn cos_quarter(self) -> (r: Fx)
        ensures
            r@ == cos_poly(self@),
    {
        let u = self.mul(self);
        let mut acc = Fx { bits: COS_C12 };
        acc = Fx { bits: COS_C10 }.sub(u.mul(acc));
        acc = Fx { bits: COS_C8 }.sub(u.mul(acc));
        acc = Fx { bits: COS_C6 }.sub(u.mul(acc));
        acc = Fx { bits: COS_C4 }.sub(u.mul(acc));
        acc = Fx { bits: COS_C2 }.sub(u.mul(acc));
        acc = Fx { bits: SCALE }.sub(u.mul(acc));
        acc
    }
}

/// Floor of the square root of a value below 2^96.
fn isqrt96(n: u128) -> (r: u64)
    requires
        n < 0x1000000000000000000000000u128,
    ensures
        0 <= r as int,
        r < 0x1000000000000u64,
        (r as int) * (r as int) <= n as int,
        (n as int) < ((r as int) + 1) * ((r as int) + 1),
{
    let mut lo: u64 = 0;
    let mut hi: u64 = 0x1000000000000u64;
    proof {
        assert(0x1000000000000 * 0x1000000000000 == 0x1000000000000000000000000)
            by (nonlinear_arith);
    }
    while hi - lo > 1
        invariant
            lo < hi <= 0x1000000000000u64,
            (lo as int) * (lo as int) <= n as int,
            (n as int) < (hi as int) * (hi as int),
        decreases hi - lo,
    {
        let mid: u64 = lo + (hi - lo) / 2;
        proof {
            assert((mid as int) * (mid as int) < 0x1000000000000 * 0x1000000000000)
                by (nonlinear_arith)
                requires
                    0 <= (mid as int) < 0x1000000000000,
            ;
        }
        if (mid as u128) * (mid as u128) <= n {
            lo = mid;
        } else {
            hi = mid;
        }
    }
    lo
}

/// Any witness of the floor-square-root characterization is the value of
/// `sqrt_floor`.
pub proof fn lemma_sqrt_floor_is(n: int, r: int)
    requires
        0 <= r,
        r * r <= n,
        n < (r + 1) * (r + 1),
    ensures
        sqrt_floor(n) == r,
{
    assert(n >= 0) by (nonlinear_arith)
        requires
            0 <= r,
            r * r <= n,
    ;
    assert(is_sqrt_floor(n, r));
    let picked = choose|q: int| is_sqrt_floor(n, q);
    assert(is_sqrt_floor(n, picked));
    assert(picked == r) by (nonlinear_arith)
        requires
            0 <= r,
            r * r <= n,
            n < (r + 1) * (r + 1),
            0 <= picked,
            picked * picked <= n,
            n < (picked + 1) * (picked + 1),
    ;
}

/// The reduced angle lies within half a turn of zero.
proof fn lemma_reduce_turn_bounds(x: int)
    ensures
        -(PI_BITS as int) <= reduce_turn(x) <= PI_BITS as int,
{
    let d = TWO_PI_BITS as int;
    if x >= 0 {
        let shifted = x + d / 2;
        lemma_fundamental_div_mod(shifted, d);
        assert(reduce_turn(x) == shifted % d - d / 2);
    } else {
        let shifted = -x + d / 2;
        lemma_fundamental_div_mod(shifted, d);
        assert(reduce_turn(x) == d / 2 - shifted % d);
    }
}

/// Multiplying by one is exact: `fx_mul(one, a) == a` for every
/// representable `a`.
pub proof fn lemma_fx_mul_one(a: int)
    requires
        i64::MIN <= a <= i64::MAX,
    ensures
        fx_mul(SCALE as int, a) == a,
        fx_mul(a, SCALE as int) == a,
{
    let s = SCALE as int;
    if a >= 0 {
        lemma_fundamental_div_mod_converse(a * s + s / 2, s, a, s / 2);
        assert(s * a == a * s) by (nonlinear_arith);
        assert(s * a >= 0) by (nonlinear_arith)
            requires
                a >= 0,
                s >= 0,
        ;
    } else {
        assert(-(s * a) == (-a) * s && -(a * s) == (-a) * s && s * a < 0 && a * s < 0)
            by (nonlinear_arith)
            requires
                a < 0,
                s > 0,
        ;
        lemma_fundamental_div_mod_converse((-a) * s + s / 2, s, -a, s / 2);
    }
}

/// Rounding an exact multiple of the divisor loses nothing:
/// `rdiv(q * d, d) == q`.
pub proof fn lemma_rdiv_exact(n: int, d: int, q: int)
    requires
        d > 0,
        n == q * d,
    ensures
        rdiv(n, d) == q,
{
    if q >= 0 {
        assert(n >= 0) by (nonlinear_arith)
            requires
                n == q * d,
                q >= 0,
                d > 0,
        ;
        lemma_fundamental_div_mod_converse(q * d + d / 2, d, q, d / 2);
    } else {
        assert(n < 0 && -n == (-q) * d) by (nonlinear_arith)
            requires
                n == q * d,
                q < 0,
                d > 0,
        ;
        lemma_fundamental_div_mod_converse((-q) * d + d / 2, d, -q, d / 2);
    }
}

/// Dividing by one is exact: `fx_div(a, one) == a` for every
/// representable `a`.
pub proof fn lemma_fx_div_one(a: int)
    requires
        i64::MIN <= a <= i64::MAX,
    ensures
        fx_div(a, SCALE as int) == a,
{
    let s = SCALE as int;
    if a >= 0 {
        lemma_fundamental_div_mod_converse(a * s + s / 2, s, a, s / 2);
        assert(a * s >= 0) by (nonlinear_arith)
            requires
                a >= 0,
                s >= 0,
        ;
    } else {
        assert(-(a * s) == (-a) * s && a * s < 0) by (nonlinear_arith)
            requires
                a < 0,
                s > 0,
        ;
        lemma_fundamental_div_mod_converse((-a) * s + s / 2, s, -a, s / 2);
    }
}

/// Multiplying by zero gives exactly zero.
pub proof fn lemma_fx_mul_zero(a: int)
    ensures
        fx_mul(0, a) == 0,
        fx_mul(a, 0) == 0,
{
    let s = SCALE as int;
    assert(0 * a == 0 && a * 0 == 0) by (nonlinear_arith);
    lemma_fundamental_div_mod_converse(s / 2, s, 0, s / 2);
}

/// Multiplying by 0 or by 1 and dividing by 1 are exact, for every
/// operand at once: the facts behind every exactness proof about the
/// unit matrices.
pub proof fn lemma_fx_units()
    ensures
        forall|a: int| #[trigger] fx_mul(0, a) == 0,
        forall|a: int| #[trigger] fx_mul(a, 0) == 0,
        forall|a: int| i64::MIN <= a <= i64::MAX ==> #[trigger] fx_mul(SCALE as int, a) == a,
        forall|a: int| i64::MIN <= a <= i64::MAX ==> #[trigger] fx_mul(a, SCALE as int) == a,
        forall|a: int| i64::MIN <= a <= i64::MAX ==> #[trigger] fx_div(a, SCALE as int) == a,
{
    assert forall|a: int| #[trigger] fx_mul(0, a) == 0 by {
        lemma_fx_mul_zero(a);
    }
    assert forall|a: int| #[trigger] fx_mul(a, 0) == 0 by {
        lemma_fx_mul_zero(a);
    }
    assert forall|a: int| i64::MIN <= a <= i64::MAX implies #[trigger] fx_mul(SCALE as int, a)
        == a by {
        lemma_fx_mul_one(a);
    }
    assert forall|a: int| i64::MIN <= a <= i64::MAX implies #[trigger] fx_mul(a, SCALE as int)
        == a by {
        lemma_fx_mul_one(a);
    }
    assert forall|a: int| i64::MIN <= a <= i64::MAX implies #[trigger] fx_div(a, SCALE as int)
        == a by {
        lemma_fx_div_one(a);
    }
}

/// `|a * b| == |a| * |b|`.
proof fn lemma_abs_product(a: int, b: int)
    ensures
        abs_int(a) * abs_int(b) == abs_int(a * b),
{
    assert(abs_int(a) * abs_int(b) == abs_int(a * b)) by (nonlinear_arith);
}

/// Relates the sign-magnitude rounding done in execution to `rdiv`:
/// when `q == (|n| + d/2) / d` then the signed result is `rdiv(n, d)`.
pub(crate) proof fn lemma_rdiv_sign_magnitude(n: int, d: int, negative: bool, q: int)
    requires
        d > 0,
        q == (abs_int(n) + d / 2) / d,
        negative ==> n <= 0,
        !negative ==> n >= 0,
    ensures
        (if negative {
            -q
        } else {
            q
        }) == rdiv(n, d),
{
    if n == 0 {
        assert((0 + d / 2) / d == 0) by {
            lemma_fundamental_div_mod_converse(d / 2, d, 0, d / 2);
        }
    }
}

} // verus!
