//! 4x4 transformation matrices, with the 3x3 and 2x2 helpers used by the
//! cofactor-expansion determinant and inverse.

use crate::fx::fx;
use crate::fx::fx_add;
use crate::fx::fx_cos;
use crate::fx::fx_div;
use crate::fx::fx_fuzzy_eq;
use crate::fx::fx_mul;
use crate::fx::fx_neg;
use crate::fx::fx_sin;
use crate::fx::fx_sub;
use crate::fx::Fx;
use crate::fx::SCALE;
use crate::tuple::tuple_s;
use crate::tuple::Tuple;
use vstd::prelude::*;

verus! {

/// A 4x4 fixed-point matrix; `mRC` is the entry at row `R`, column `C`.
#[derive(Clone, Copy, Debug, PartialEq, Eq, Structural)]
pub struct Matrix4 {
    pub m00: Fx,
    pub m01: Fx,
    pub m02: Fx,
    pub m03: Fx,
    pub m10: Fx,
    pub m11: Fx,
    pub m12: Fx,
    pub m13: Fx,
    pub m20: Fx,
    pub m21: Fx,
    pub m22: Fx,
    pub m23: Fx,
    pub m30: Fx,
    pub m31: Fx,
    pub m32: Fx,
    pub m33: Fx,
}

/// A 3x3 fixed-point matrix, used for the minors of a [`Matrix4`].
#[derive(Clone, Copy, Debug, PartialEq, Eq, Structural)]
pub struct Matrix3 {
    pub m00: Fx,
    pub m01: Fx,
    pub m02: Fx,
    pub m10: Fx,
    pub m11: Fx,
    pub m12: Fx,
    pub m20: Fx,
    pub m21: Fx,
    pub m22: Fx,
}

/// A 2x2 fixed-point matrix, the base case of the determinant.
#[derive(Clone, Copy, Debug, PartialEq, Eq, Structural)]
pub struct Matrix2 {
    pub m00: Fx,
    pub m01: Fx,
    pub m10: Fx,
    pub m11: Fx,
}

/// The 4x4 matrix with the given entry bits, row by row.
pub open spec fn mat4(
    m00: int,
    m01: int,
    m02: int,
    m03: int,
    m10: int,
    m11: int,
    m12: int,
    m13: int,
    m20: int,
    m21: int,
    m22: int,
    m23: int,
    m30: int,
    m31: int,
    m32: int,
    m33: int,
) -> Matrix4 {
    Matrix4 {
        m00: fx(m00),
        m01: fx(m01),
        m02: fx(m02),
        m03: fx(m03),
        m10: fx(m10),
        m11: fx(m11),
        m12: fx(m12),
        m13: fx(m13),
        m20: fx(m20),
        m21: fx(m21),
        m22: fx(m22),
        m23: fx(m23),
        m30: fx(m30),
        m31: fx(m31),
        m32: fx(m32),
        m33: fx(m33),
    }
}

/// The 3x3 matrix with the given entry bits, row by row.
pub open spec fn mat3(
    m00: int,
    m01: int,
    m02: int,
    m10: int,
    m11: int,
    m12: int,
    m20: int,
    m21: int,
    m22: int,
) -> Matrix3 {
    Matrix3 {
        m00: fx(m00),
        m01: fx(m01),
        m02: fx(m02),
        m10: fx(m10),
        m11: fx(m11),
        m12: fx(m12),
        m20: fx(m20),
        m21: fx(m21),
        m22: fx(m22),
    }
}

/// The entry of `m` at row `r`, column `c`.
pub open spec fn at4(m: Matrix4, r: int, c: int) -> int {
    if r == 0 {
        if c == 0 {
            m.m00@
        } else if c == 1 {
            m.m01@
        } else if c == 2 {
            m.m02@
        } else {
            m.m03@
        }
    } else if r == 1 {
        if c == 0 {
            m.m10@
        } else if c == 1 {
            m.m11@
        } else if c == 2 {
            m.m12@
        } else {
            m.m13@
        }
    } else if r == 2 {
        if c == 0 {
            m.m20@
        } else if c == 1 {
            m.m21@
        } else if c == 2 {
            m.m22@
        } else {
            m.m23@
        }
    } else {
        if c == 0 {
            m.m30@
        } else if c == 1 {
            m.m31@
        } else if c == 2 {
            m.m32@
        } else {
            m.m33@
        }
    }
}

/// The entry of `m` at row `r`, column `c`.
pub open spec fn at3(m: Matrix3, r: int, c: int) -> int {
    if r == 0 {
        if c == 0 {
            m.m00@
        } else if c == 1 {
            m.m01@
        } else {
            m.m02@
        }
    } else if r == 1 {
        if c == 0 {
            m.m10@
        } else if c == 1 {
            m.m11@
        } else {
            m.m12@
        }
    } else {
        if c == 0 {
            m.m20@
        } else if c == 1 {
            m.m21@
        } else {
            m.m22@
        }
    }
}

/// The index that position `i` of a submatrix reads from when row or
/// column `removed` is struck out.
pub open spec fn skip_index(i: int, removed: int) -> int {
    if i < removed {
        i
    } else {
        i + 1
    }
}

/// A four-term rounded dot product, summed left to right.
pub open spec fn dot4_s(
    a0: int,
    b0: int,
    a1: int,
    b1: int,
    a2: int,
    b2: int,
    a3: int,
    b3: int,
) -> int {
    fx_add(fx_add(fx_add(fx_mul(a0, b0), fx_mul(a1, b1)), fx_mul(a2, b2)), fx_mul(a3, b3))
}

/// Entry `(r, c)` of the product `a * b`.
pub open spec fn mul_entry_s(a: Matrix4, b: Matrix4, r: int, c: int) -> int {
    dot4_s(
        at4(a, r, 0),
        at4(b, 0, c),
        at4(a, r, 1),
        at4(b, 1, c),
        at4(a, r, 2),
        at4(b, 2, c),
        at4(a, r, 3),
        at4(b, 3, c),
    )
}

/// The matrix product `a * b`.
pub open spec fn mat_mul_s(a: Matrix4, b: Matrix4) -> Matrix4 {
    mat4(
        mul_entry_s(a, b, 0, 0),
        mul_entry_s(a, b, 0, 1),
        mul_entry_s(a, b, 0, 2),
        mul_entry_s(a, b, 0, 3),
        mul_entry_s(a, b, 1, 0),
        mul_entry_s(a, b, 1, 1),
        mul_entry_s(a, b, 1, 2),
        mul_entry_s(a, b, 1, 3),
        mul_entry_s(a, b, 2, 0),
        mul_entry_s(a, b, 2, 1),
        mul_entry_s(a, b, 2, 2),
        mul_entry_s(a, b, 2, 3),
        mul_entry_s(a, b, 3, 0),
        mul_entry_s(a, b, 3, 1),
        mul_entry_s(a, b, 3, 2),
        mul_entry_s(a, b, 3, 3),
    )
}

/// The matrix `m` applied to the column vector `t`.
pub open spec fn mat_tuple_s(m: Matrix4, t: Tuple) -> Tuple {
    tuple_s(
        dot4_s(at4(m, 0, 0), t.x@, at4(m, 0, 1), t.y@, at4(m, 0, 2), t.z@, at4(m, 0, 3), t.w@),
        dot4_s(at4(m, 1, 0), t.x@, at4(m, 1, 1), t.y@, at4(m, 1, 2), t.z@, at4(m, 1, 3), t.w@),
        dot4_s(at4(m, 2, 0), t.x@, at4(m, 2, 1), t.y@, at4(m, 2, 2), t.z@, at4(m, 2, 3), t.w@),
        dot4_s(at4(m, 3, 0), t.x@, at4(m, 3, 1), t.y@, at4(m, 3, 2), t.z@, at4(m, 3, 3), t.w@),
    )
}

/// The transpose of `m`.
pub open spec fn transpose_s(m: Matrix4) -> Matrix4 {
    mat4(
        m.m00@,
        m.m10@,
        m.m20@,
        m.m30@,
        m.m01@,
        m.m11@,
        m.m21@,
        m.m31@,
        m.m02@,
        m.m12@,
        m.m22@,
        m.m32@,
        m.m03@,
        m.m13@,
        m.m23@,
        m.m33@,
    )
}

/// The identity matrix.
pub open spec fn identity_s() -> Matrix4 {
    mat4(SCALE as int, 0, 0, 0, 0, SCALE as int, 0, 0, 0, 0, SCALE as int, 0, 0, 0, 0, SCALE as int)
}

/// The translation by `(x, y, z)`.
pub open spec fn translation_s(x: int, y: int, z: int) -> Matrix4 {
    mat4(SCALE as int, 0, 0, x, 0, SCALE as int, 0, y, 0, 0, SCALE as int, z, 0, 0, 0, SCALE as int)
}

/// The scaling by `(x, y, z)`.
pub open spec fn scaling_s(x: int, y: int, z: int) -> Matrix4 {
    mat4(x, 0, 0, 0, 0, y, 0, 0, 0, 0, z, 0, 0, 0, 0, SCALE as int)
}

/// The right-handed rotation about the x axis by `r` radians.
pub open spec fn rotation_x_s(r: int) -> Matrix4 {
    mat4(
        SCALE as int,
        0,
        0,
        0,
        0,
        fx_cos(r),
        fx_neg(fx_sin(r)),
        0,
        0,
        fx_sin(r),
        fx_cos(r),
        0,
        0,
        0,
        0,
        SCALE as int,
    )
}

/// The right-handed rotation about the y axis by `r` radians.
pub open spec fn rotation_y_s(r: int) -> Matrix4 {
    mat4(
        fx_cos(r),
        0,
        fx_sin(r),
        0,
        0,
        SCALE as int,
        0,
        0,
        fx_neg(fx_sin(r)),
        0,
        fx_cos(r),
        0,
        0,
        0,
        0,
        SCALE as int,
    )
}

/// The right-handed rotation about the z axis by `r` radians.
pub open spec fn rotation_z_s(r: int) -> Matrix4 {
    mat4(
        fx_cos(r),
        fx_neg(fx_sin(r)),
        0,
        0,
        fx_sin(r),
        fx_cos(r),
        0,
        0,
        0,
        0,
        SCALE as int,
        0,
        0,
        0,
        0,
        SCALE as int,
    )
}

/// The shearing with the six lane-to-lane factors.
pub open spec fn shearing_s(xy: int, xz: int, yx: int, yz: int, zx: int, zy: int) -> Matrix4 {
    mat4(
        SCALE as int,
        xy,
        xz,
        0,
        yx,
        SCALE as int,
        yz,
        0,
        zx,
        zy,
        SCALE as int,
        0,
        0,
        0,
        0,
        SCALE as int,
    )
}

/// The determinant of a 2x2 matrix: `ad - bc`.
pub open spec fn det2_s(m: Matrix2) -> int {
    fx_sub(fx_mul(m.m00@, m.m11@), fx_mul(m.m01@, m.m10@))
}

/// The 2x2 matrix left when row `row` and column `col` are struck out.
pub open spec fn submatrix3_s(m: Matrix3, row: int, col: int) -> Matrix2 {
    Matrix2 {
        m00: fx(at3(m, skip_index(0, row), skip_index(0, col))),
        m01: fx(at3(m, skip_index(0, row), skip_index(1, col))),
        m10: fx(at3(m, skip_index(1, row), skip_index(0, col))),
        m11: fx(at3(m, skip_index(1, row), skip_index(1, col))),
    }
}

/// The minor of a 3x3 matrix at `(row, col)`.
pub open spec fn minor3_s(m: Matrix3, row: int, col: int) -> int {
    det2_s(submatrix3_s(m, row, col))
}

/// The cofactor of a 3x3 matrix at `(row, col)`: the minor, negated on
/// the odd positions.
pub open spec fn cofactor3_s(m: Matrix3, row: int, col: int) -> int {
    if (row + col) % 2 == 0 {
        minor3_s(m, row, col)
    } else {
        fx_neg(minor3_s(m, row, col))
    }
}

/// The determinant of a 3x3 matrix, by cofactor expansion along the
/// first row.
pub open spec fn det3_s(m: Matrix3) -> int {
    fx_add(
        fx_add(fx_mul(at3(m, 0, 0), cofactor3_s(m, 0, 0)), fx_mul(at3(m, 0, 1), cofactor3_s(m, 0, 1))),
        fx_mul(at3(m, 0, 2), cofactor3_s(m, 0, 2)),
    )
}

/// The 3x3 matrix left when row `row` and column `col` are struck out.
pub open spec fn submatrix4_s(m: Matrix4, row: int, col: int) -> Matrix3 {
    mat3(
        at4(m, skip_index(0, row), skip_index(0, col)),
        at4(m, skip_index(0, row), skip_index(1, col)),
        at4(m, skip_index(0, row), skip_index(2, col)),
        at4(m, skip_index(1, row), skip_index(0, col)),
        at4(m, skip_index(1, row), skip_index(1, col)),
        at4(m, skip_index(1, row), skip_index(2, col)),
        at4(m, skip_index(2, row), skip_index(0, col)),
        at4(m, skip_index(2, row), skip_index(1, col)),
        at4(m, skip_index(2, row), skip_index(2, col)),
    )
}

/// The minor of a 4x4 matrix at `(row, col)`.
pub open spec fn minor4_s(m: Matrix4, row: int, col: int) -> int {
    det3_s(submatrix4_s(m, row, col))
}

/// The cofactor of a 4x4 matrix at `(row, col)`.
pub open spec fn cofactor4_s(m: Matrix4, row: int, col: int) -> int {
    if (row + col) % 2 == 0 {
        minor4_s(m, row, col)
    } else {
        fx_neg(minor4_s(m, row, col))
    }
}

/// The determinant of a 4x4 matrix, by cofactor expansion along the
/// first row.
pub open spec fn det4_s(m: Matrix4) -> int {
    fx_add(
        fx_add(
            fx_add(
                fx_mul(at4(m, 0, 0), cofactor4_s(m, 0, 0)),
                fx_mul(at4(m, 0, 1), cofactor4_s(m, 0, 1)),
            ),
            fx_mul(at4(m, 0, 2), cofactor4_s(m, 0, 2)),
        ),
        fx_mul(at4(m, 0, 3), cofactor4_s(m, 0, 3)),
    )
}

/// The inverse: the transposed cofactor matrix, each entry divided by
/// the determinant.  Meaningful when the determinant is not 0.
pub open spec fn inverse_s(m: Matrix4) -> Matrix4 {
    mat4(
        fx_div(cofactor4_s(m, 0, 0), det4_s(m)),
        fx_div(cofactor4_s(m, 1, 0), det4_s(m)),
        fx_div(cofactor4_s(m, 2, 0), det4_s(m)),
        fx_div(cofactor4_s(m, 3, 0), det4_s(m)),
        fx_div(cofactor4_s(m, 0, 1), det4_s(m)),
        fx_div(cofactor4_s(m, 1, 1), det4_s(m)),
        fx_div(cofactor4_s(m, 2, 1), det4_s(m)),
        fx_div(cofactor4_s(m, 3, 1), det4_s(m)),
        fx_div(cofactor4_s(m, 0, 2), det4_s(m)),
        fx_div(cofactor4_s(m, 1, 2), det4_s(m)),
        fx_div(cofactor4_s(m, 2, 2), det4_s(m)),
        fx_div(cofactor4_s(m, 3, 2), det4_s(m)),
        fx_div(cofactor4_s(m, 0, 3), det4_s(m)),
        fx_div(cofactor4_s(m, 1, 3), det4_s(m)),
        fx_div(cofactor4_s(m, 2, 3), det4_s(m)),
        fx_div(cofactor4_s(m, 3, 3), det4_s(m)),
    )
}

/// Whether every entry of `a` is within the fuzzy tolerance of the
/// matching entry of `b`.
pub open spec fn mat4_fuzzy_eq_s(a: Matrix4, b: Matrix4) -> bool {
    fx_fuzzy_eq(a.m00@, b.m00@) && fx_fuzzy_eq(a.m01@, b.m01@) && fx_fuzzy_eq(a.m02@, b.m02@)
        && fx_fuzzy_eq(a.m03@, b.m03@) && fx_fuzzy_eq(a.m10@, b.m10@) && fx_fuzzy_eq(
        a.m11@,
        b.m11@,
    ) && fx_fuzzy_eq(a.m12@, b.m12@) && fx_fuzzy_eq(a.m13@, b.m13@) && fx_fuzzy_eq(a.m20@, b.m20@)
        && fx_fuzzy_eq(a.m21@, b.m21@) && fx_fuzzy_eq(a.m22@, b.m22@) && fx_fuzzy_eq(
        a.m23@,
        b.m23@,
    ) && fx_fuzzy_eq(a.m30@, b.m30@) && fx_fuzzy_eq(a.m31@, b.m31@) && fx_fuzzy_eq(a.m32@, b.m32@)
        && fx_fuzzy_eq(a.m33@, b.m33@)
}

/// The fixed-point identity matrix is exactly its own inverse, and its
/// determinant is exactly 1: every product and quotient involved rounds
/// without error.
#[verifier::rlimit(60)]
pub proof fn lemma_identity_inverse()
    ensures
        det4_s(identity_s()) == SCALE as int,
        inverse_s(identity_s()) == identity_s(),
{
    crate::fx::lemma_fx_units();
    let m = identity_s();
    assert(cofactor4_s(m, 0, 0) == SCALE as int);
    assert(cofactor4_s(m, 1, 1) == SCALE as int);
    assert(cofactor4_s(m, 2, 2) == SCALE as int);
    assert(cofactor4_s(m, 3, 3) == SCALE as int);
    assert(cofactor4_s(m, 0, 1) == 0);
    assert(cofactor4_s(m, 0, 2) == 0);
    assert(cofactor4_s(m, 0, 3) == 0);
    assert(cofactor4_s(m, 1, 0) == 0);
    assert(cofactor4_s(m, 1, 2) == 0);
    assert(cofactor4_s(m, 1, 3) == 0);
    assert(cofactor4_s(m, 2, 0) == 0);
    assert(cofactor4_s(m, 2, 1) == 0);
    assert(cofactor4_s(m, 2, 3) == 0);
    assert(cofactor4_s(m, 3, 0) == 0);
    assert(cofactor4_s(m, 3, 1) == 0);
    assert(cofactor4_s(m, 3, 2) == 0);
    assert(det4_s(m) == SCALE as int);
    assert(inverse_s(m) == m);
}

/// The inverse of a translation is exactly the opposite translation:
/// every product, sum and quotient in the cofactor expansion rounds
/// without error.  (The one unrepresentable offset, the smallest `i64`,
/// whose negation saturates, is left out.)
#[verifier::rlimit(100)]
pub proof fn lemma_translation_inverse(x: int, y: int, z: int)
    requires
        i64::MIN < x <= i64::MAX,
        i64::MIN < y <= i64::MAX,
        i64::MIN < z <= i64::MAX,
    ensures
        det4_s(translation_s(x, y, z)) == SCALE as int,
        inverse_s(translation_s(x, y, z)) == translation_s(-x, -y, -z),
{
    crate::fx::lemma_fx_units();
    let m = translation_s(x, y, z);
    assert(cofactor4_s(m, 0, 0) == SCALE as int);
    assert(cofactor4_s(m, 1, 1) == SCALE as int);
    assert(cofactor4_s(m, 2, 2) == SCALE as int);
    assert(cofactor4_s(m, 3, 3) == SCALE as int);
    assert(cofactor4_s(m, 0, 1) == 0);
    assert(cofactor4_s(m, 0, 2) == 0);
    assert(cofactor4_s(m, 0, 3) == 0);
    assert(cofactor4_s(m, 1, 0) == 0);
    assert(cofactor4_s(m, 1, 2) == 0);
    assert(cofactor4_s(m, 1, 3) == 0);
    assert(cofactor4_s(m, 2, 0) == 0);
    assert(cofactor4_s(m, 2, 1) == 0);
    assert(cofactor4_s(m, 2, 3) == 0);
    assert(cofactor4_s(m, 3, 0) == -x);
    assert(cofactor4_s(m, 3, 1) == -y);
    assert(cofactor4_s(m, 3, 2) == -z);
    assert(det4_s(m) == SCALE as int);
    assert(inverse_s(m) == translation_s(-x, -y, -z));
}

/// Inverting a translation twice gives back exactly the translation: the
/// fixed-point inverse is an exact involution on translations.
pub proof fn lemma_translation_inverse_involution(x: int, y: int, z: int)
    requires
        i64::MIN < x <= i64::MAX,
        i64::MIN < y <= i64::MAX,
        i64::MIN < z <= i64::MAX,
    ensures
        inverse_s(inverse_s(translation_s(x, y, z))) == translation_s(x, y, z),
{
    lemma_translation_inverse(x, y, z);
    lemma_translation_inverse(-x, -y, -z);
}

/// The determinant of a scaling is exactly the rounded product of its
/// three factors: the cofactor expansion meets only zeros, ones and the
/// factors themselves.
#[verifier::rlimit(100)]
pub proof fn lemma_scaling_det(x: int, y: int, z: int)
    requires
        i64::MIN <= x <= i64::MAX,
        i64::MIN <= y <= i64::MAX,
        i64::MIN <= z <= i64::MAX,
    ensures
        det4_s(scaling_s(x, y, z)) == fx_mul(x, fx_mul(y, z)),
{
    crate::fx::lemma_fx_units();
    let m = scaling_s(x, y, z);
    assert(cofactor4_s(m, 0, 0) == fx_mul(y, z));
    assert(cofactor4_s(m, 0, 1) == 0);
    assert(cofactor4_s(m, 0, 2) == 0);
    assert(cofactor4_s(m, 0, 3) == 0);
    assert(det4_s(m) == fx_mul(x, fx_mul(y, z)));
}

/// The identity matrix maps every tuple to itself exactly: each lane is
/// one rounded multiplication by 1 and three additions of 0, and all of
/// them are exact.
pub proof fn lemma_identity_mul_tuple(t: Tuple)
    ensures
        mat_tuple_s(identity_s(), t) == t,
{
    crate::fx::lemma_fx_units();
    assert(mat_tuple_s(identity_s(), t) == t);
}

/// Multiplying by the identity matrix, on either side, changes a matrix
/// exactly nowhere.
#[verifier::rlimit(100)]
pub proof fn lemma_identity_mul_matrix(m: Matrix4)
    ensures
        mat_mul_s(identity_s(), m) == m,
        mat_mul_s(m, identity_s()) == m,
{
    crate::fx::lemma_fx_units();
    assert(mat_mul_s(identity_s(), m) == m);
    assert(mat_mul_s(m, identity_s()) == m);
}

/// A four-term rounded dot product, summed left to right.
fn dot4(a0: Fx, b0: Fx, a1: Fx, b1: Fx, a2: Fx, b2: Fx, a3: Fx, b3: Fx) -> (r: Fx)
    ensures
        r@ == dot4_s(a0@, b0@, a1@, b1@, a2@, b2@, a3@, b3@),
{
    a0.mul(b0).add(a1.mul(b1)).add(a2.mul(b2)).add(a3.mul(b3))
}

impl Matrix4 {
    /// A matrix from its sixteen entries, row by row.
    #[allow(clippy::too_many_arguments)]
    pub fn new(
        m00: Fx,
        m01: Fx,
        m02: Fx,
        m03: Fx,
        m10: Fx,
        m11: Fx,
        m12: Fx,
        m13: Fx,
        m20: Fx,
        m21: Fx,
        m22: Fx,
        m23: Fx,
        m30: Fx,
        m31: Fx,
        m32: Fx,
        m33: Fx,
    ) -> (r: Matrix4)
        ensures
            r == (Matrix4 {
                m00,
                m01,
                m02,
                m03,
                m10,
                m11,
                m12,
                m13,
                m20,
                m21,
                m22,
                m23,
                m30,
                m31,
                m32,
                m33,
            }),
    {
        Matrix4 {
            m00,
            m01,
            m02,
            m03,
            m10,
            m11,
            m12,
            m13,
            m20,
            m21,
            m22,
            m23,
            m30,
            m31,
            m32,
            m33,
        }
    }

    /// A matrix whose rows are the first three tuples, over the given
    /// bottom row.
    pub fn from_rows(a: Tuple, b: Tuple, c: Tuple, d: Tuple) -> (r: Matrix4)
        ensures
            r == (Matrix4 {
                m00: a.x,
                m01: a.y,
                m02: a.z,
                m03: a.w,
                m10: b.x,
                m11: b.y,
                m12: b.z,
                m13: b.w,
                m20: c.x,
                m21: c.y,
                m22: c.z,
                m23: c.w,
                m30: d.x,
                m31: d.y,
                m32: d.z,
                m33: d.w,
            }),
    {
        Matrix4 {
            m00: a.x,
            m01: a.y,
            m02: a.z,
            m03: a.w,
            m10: b.x,
            m11: b.y,
            m12: b.z,
            m13: b.w,
            m20: c.x,
            m21: c.y,
            m22: c.z,
            m23: c.w,
            m30: d.x,
            m31: d.y,
            m32: d.z,
            m33: d.w,
        }
    }

    /// The identity matrix.
    pub fn identity() -> (r: Matrix4)
        ensures
            r == identity_s(),
    {
        let o = Fx::one();
        let z = Fx::zero();
        Matrix4 {
            m00: o,
            m01: z,
            m02: z,
            m03: z,
            m10: z,
            m11: o,
            m12: z,
            m13: z,
            m20: z,
            m21: z,
            m22: o,
            m23: z,
            m30: z,
            m31: z,
            m32: z,
            m33: o,
        }
    }

    /// The translation by `(x, y, z)`.
    pub fn translation(x: Fx, y: Fx, z: Fx) -> (r: Matrix4)
        ensures
            r == translation_s(x@, y@, z@),
    {
        let o = Fx::one();
        let zero = Fx::zero();
        Matrix4 {
            m00: o,
            m01: zero,
            m02: zero,
            m03: x,
            m10: zero,
            m11: o,
            m12: zero,
            m13: y,
            m20: zero,
            m21: zero,
            m22: o,
            m23: z,
            m30: zero,
            m31: zero,
            m32: zero,
            m33: o,
        }
    }

    /// The scaling by `(x, y, z)`.
    pub fn scaling(x: Fx, y: Fx, z: Fx) -> (r: Matrix4)
        ensures
            r == scaling_s(x@, y@, z@),
    {
        let o = Fx::one();
        let zero = Fx::zero();
        Matrix4 {
            m00: x,
            m01: zero,
            m02: zero,
            m03: zero,
            m10: zero,
            m11: y,
            m12: zero,
            m13: zero,
            m20: zero,
            m21: zero,
            m22: z,
            m23: zero,
            m30: zero,
            m31: zero,
            m32: zero,
            m33: o,
        }
    }

    /// The right-handed rotation about the x axis by `r` radians.
    pub fn rotation_x(angle: Fx) -> (r: Matrix4)
        ensures
            r == rotation_x_s(angle@),
    {
        let c = angle.cos();
        let s = angle.sin();
        let o = Fx::one();
        let zero = Fx::zero();
        Matrix4 {
            m00: o,
            m01: zero,
            m02: zero,
            m03: zero,
            m10: zero,
            m11: c,
            m12: s.neg(),
            m13: zero,
            m20: zero,
            m21: s,
            m22: c,
            m23: zero,
            m30: zero,
            m31: zero,
            m32: zero,
            m33: o,
        }
    }

    /// The right-handed rotation about the y axis by `r` radians.
    pub fn rotation_y(angle: Fx) -> (r: Matrix4)
        ensures
            r == rotation_y_s(angle@),
    {
        let c = angle.cos();
        let s = angle.sin();
        let o = Fx::one();
        let zero = Fx::zero();
        Matrix4 {
            m00: c,
            m01: zero,
            m02: s,
            m03: zero,
            m10: zero,
            m11: o,
            m12: zero,
            m13: zero,
            m20: s.neg(),
            m21: zero,
            m22: c,
            m23: zero,
            m30: zero,
            m31: zero,
            m32: zero,
            m33: o,
        }
    }

    /// The right-handed rotation about the z axis by `r` radians.
    pub fn rotation_z(angle: Fx) -> (r: Matrix4)
        ensures
            r == rotation_z_s(angle@),
    {
        let c = angle.cos();
        let s = angle.sin();
        let o = Fx::one();
        let zero = Fx::zero();
        Matrix4 {
            m00: c,
            m01: s.neg(),
            m02: zero,
            m03: zero,
            m10: s,
            m11: c,
            m12: zero,
            m13: zero,
            m20: zero,
            m21: zero,
            m22: o,
            m23: zero,
            m30: zero,
            m31: zero,
            m32: zero,
            m33: o,
        }
    }

    /// The shearing with the six lane-to-lane factors.
    pub fn shearing(xy: Fx, xz: Fx, yx: Fx, yz: Fx, zx: Fx, zy: Fx) -> (r: Matrix4)
        ensures
            r == shearing_s(xy@, xz@, yx@, yz@, zx@, zy@),
    {
        let o = Fx::one();
        let zero = Fx::zero();
        Matrix4 {
            m00: o,
            m01: xy,
            m02: xz,
            m03: zero,
            m10: yx,
            m11: o,
            m12: yz,
            m13: zero,
            m20: zx,
            m21: zy,
            m22: o,
            m23: zero,
            m30: zero,
            m31: zero,
            m32: zero,
            m33: o,
        }
    }

    /// The entry at row `row`, column `col`.
    pub fn get(&self, row: usize, col: usize) -> (r: Fx)
        requires
            row < 4,
            col < 4,
        ensures
            r@ == at4(*self, row as int, col as int),
    {
        if row == 0 {
            if col == 0 {
                self.m00
            } else if col == 1 {
                self.m01
            } else if col == 2 {
                self.m02
            } else {
                self.m03
            }
        } else if row == 1 {
            if col == 0 {
                self.m10
            } else if col == 1 {
                self.m11
            } else if col == 2 {
                self.m12
            } else {
                self.m13
            }
        } else if row == 2 {
            if col == 0 {
                self.m20
            } else if col == 1 {
                self.m21
            } else if col == 2 {
                self.m22
            } else {
                self.m23
            }
        } else {
            if col == 0 {
                self.m30
            } else if col == 1 {
                self.m31
            } else if col == 2 {
                self.m32
            } else {
                self.m33
            }
        }
    }

    /// The matrix product `self * other`.
    pub fn mul(self, other: Matrix4) -> (r: Matrix4)
        ensures
            r == mat_mul_s(self, other),
    {
        Matrix4 {
            m00: dot4(
                self.m00,
                other.m00,
                self.m01,
                other.m10,
                self.m02,
                other.m20,
                self.m03,
                other.m30,
            ),
            m01: dot4(
                self.m00,
                other.m01,
                self.m01,
                other.m11,
                self.m02,
                other.m21,
                self.m03,
                other.m31,
            ),
            m02: dot4(
                self.m00,
                other.m02,
                self.m01,
                other.m12,
                self.m02,
                other.m22,
                self.m03,
                other.m32,
            ),
            m03: dot4(
                self.m00,
                other.m03,
                self.m01,
                other.m13,
                self.m02,
                other.m23,
                self.m03,
                other.m33,
            ),
            m10: dot4(
                self.m10,
                other.m00,
                self.m11,
                other.m10,
                self.m12,
                other.m20,
                self.m13,
                other.m30,
            ),
            m11: dot4(
                self.m10,
                other.m01,
                self.m11,
                other.m11,
                self.m12,
                other.m21,
                self.m13,
                other.m31,
            ),
            m12: dot4(
                self.m10,
                other.m02,
                self.m11,
                other.m12,
                self.m12,
                other.m22,
                self.m13,
                other.m32,
            ),
            m13: dot4(
                self.m10,
                other.m03,
                self.m11,
                other.m13,
                self.m12,
                other.m23,
                self.m13,
                other.m33,
            ),
            m20: dot4(
                self.m20,
                other.m00,
                self.m21,
                other.m10,
                self.m22,
                other.m20,
                self.m23,
                other.m30,
            ),
            m21: dot4(
                self.m20,
                other.m01,
                self.m21,
                other.m11,
                self.m22,
                other.m21,
                self.m23,
                other.m31,
            ),
            m22: dot4(
                self.m20,
                other.m02,
                self.m21,
                other.m12,
                self.m22,
                other.m22,
                self.m23,
                other.m32,
            ),
            m23: dot4(
                self.m20,
                other.m03,
                self.m21,
                other.m13,
                self.m22,
                other.m23,
                self.m23,
                other.m33,
            ),
            m30: dot4(
                self.m30,
                other.m00,
                self.m31,
                other.m10,
                self.m32,
                other.m20,
                self.m33,
                other.m30,
            ),
            m31: dot4(
                self.m30,
                other.m01,
                self.m31,
                other.m11,
                self.m32,
                other.m21,
                self.m33,
                other.m31,
            ),
            m32: dot4(
                self.m30,
                other.m02,
                self.m31,
                other.m12,
                self.m32,
                other.m22,
                self.m33,
                other.m32,
            ),
            m33: dot4(
                self.m30,
                other.m03,
                self.m31,
                other.m13,
                self.m32,
                other.m23,
                self.m33,
                other.m33,
            ),
        }
    }

    /// The matrix applied to the column vector `t`.
    pub fn mul_tuple(&self, t: Tuple) -> (r: Tuple)
        ensures
            r == mat_tuple_s(*self, t),
    {
        Tuple {
            x: dot4(self.m00, t.x, self.m01, t.y, self.m02, t.z, self.m03, t.w),
            y: dot4(self.m10, t.x, self.m11, t.y, self.m12, t.z, self.m13, t.w),
            z: dot4(self.m20, t.x, self.m21, t.y, self.m22, t.z, self.m23, t.w),
            w: dot4(self.m30, t.x, self.m31, t.y, self.m32, t.z, self.m33, t.w),
        }
    }

    /// The transpose.
    pub fn transpose(&self) -> (r: Matrix4)
        ensures
            r == transpose_s(*self),
    {
        Matrix4 {
            m00: self.m00,
            m01: self.m10,
            m02: self.m20,
            m03: self.m30,
            m10: self.m01,
            m11: self.m11,
            m12: self.m21,
            m13: self.m31,
            m20: self.m02,
            m21: self.m12,
            m22: self.m22,
            m23: self.m32,
            m30: self.m03,
            m31: self.m13,
            m32: self.m23,
            m33: self.m33,
        }
    }

    /// The 3x3 matrix left when row `row` and column `col` are struck
    /// out.
    pub fn submatrix(&self, row: usize, col: usize) -> (r: Matrix3)
        requires
            row < 4,
            col < 4,
        ensures
            r == submatrix4_s(*self, row as int, col as int),
    {
        let r0: usize = if 0 < row {
            0
        } else {
            1
        };
        let r1: usize = if 1 < row {
            1
        } else {
            2
        };
        let r2: usize = if 2 < row {
            2
        } else {
            3
        };
        let c0: usize = if 0 < col {
            0
        } else {
            1
        };
        let c1: usize = if 1 < col {
            1
        } else {
            2
        };
        let c2: usize = if 2 < col {
            2
        } else {
            3
        };
        Matrix3 {
            m00: self.get(r0, c0),
            m01: self.get(r0, c1),
            m02: self.get(r0, c2),
            m10: self.get(r1, c0),
            m11: self.get(r1, c1),
            m12: self.get(r1, c2),
            m20: self.get(r2, c0),
            m21: self.get(r2, c1),
            m22: self.get(r2, c2),
        }
    }

    /// The minor at `(row, col)`: the determinant of the submatrix.
    pub fn minor(&self, row: usize, col: usize) -> (r: Fx)
        requires
            row < 4,
            col < 4,
        ensures
            r@ == minor4_s(*self, row as int, col as int),
    {
        self.submatrix(row, col).determinant()
    }

    /// The cofactor at `(row, col)`: the minor, negated on the odd
    /// positions.
    pub fn cofactor(&self, row: usize, col: usize) -> (r: Fx)
        requires
            row < 4,
            col < 4,
        ensures
            r@ == cofactor4_s(*self, row as int, col as int),
    {
        let minor = self.minor(row, col);
        if (row + col) % 2 == 0 {
            minor
        } else {
            minor.neg()
        }
    }

    /// The determinant, by cofactor expansion along the first row.
    pub fn determinant(&self) -> (r: Fx)
        ensures
            r@ == det4_s(*self),
    {
        self.m00.mul(self.cofactor(0, 0)).add(self.m01.mul(self.cofactor(0, 1))).add(
            self.m02.mul(self.cofactor(0, 2)),
        ).add(self.m03.mul(self.cofactor(0, 3)))
    }

    /// Whether the determinant is not exactly 0.
    pub fn is_invertible(&self) -> (r: bool)
        ensures
            r == (det4_s(*self) != 0),
    {
        let d = self.determinant();
        d.bits != 0
    }

    /// The inverse, or `None` exactly when the determinant is 0.
    pub fn inverse(&self) -> (r: Option<Matrix4>)
        ensures
            match r {
                Some(inv) => det4_s(*self) != 0 && inv == inverse_s(*self),
                None => det4_s(*self) == 0,
            },
    {
        let det = self.determinant();
        if det.bits == 0 {
            return None;
        }
        Some(
            Matrix4 {
                m00: self.cofactor(0, 0).div(det),
                m01: self.cofactor(1, 0).div(det),
                m02: self.cofactor(2, 0).div(det),
                m03: self.cofactor(3, 0).div(det),
                m10: self.cofactor(0, 1).div(det),
                m11: self.cofactor(1, 1).div(det),
                m12: self.cofactor(2, 1).div(det),
                m13: self.cofactor(3, 1).div(det),
                m20: self.cofactor(0, 2).div(det),
                m21: self.cofactor(1, 2).div(det),
                m22: self.cofactor(2, 2).div(det),
                m23: self.cofactor(3, 2).div(det),
                m30: self.cofactor(0, 3).div(det),
                m31: self.cofactor(1, 3).div(det),
                m32: self.cofactor(2, 3).div(det),
                m33: self.cofactor(3, 3).div(det),
            },
        )
    }

    /// Whether every entry is within the fuzzy tolerance of the matching
    /// entry of `other`.
    pub fn fuzzy_eq(&self, other: &Matrix4) -> (r: bool)
        ensures
            r == mat4_fuzzy_eq_s(*self, *other),
    {
        self.m00.fuzzy_eq(other.m00) && self.m01.fuzzy_eq(other.m01) && self.m02.fuzzy_eq(
            other.m02,
        ) && self.m03.fuzzy_eq(other.m03) && self.m10.fuzzy_eq(other.m10) && self.m11.fuzzy_eq(
            other.m11,
        ) && self.m12.fuzzy_eq(other.m12) && self.m13.fuzzy_eq(other.m13) && self.m20.fuzzy_eq(
            other.m20,
        ) && self.m21.fuzzy_eq(other.m21) && self.m22.fuzzy_eq(other.m22) && self.m23.fuzzy_eq(
            other.m23,
        ) && self.m30.fuzzy_eq(other.m30) && self.m31.fuzzy_eq(other.m31) && self.m32.fuzzy_eq(
            other.m32,
        ) && self.m33.fuzzy_eq(other.m33)
    }
}

impl Matrix3 {
    /// A matrix from its nine entries, row by row.
    #[allow(clippy::too_many_arguments)]
    pub fn new(
        m00: Fx,
        m01: Fx,
        m02: Fx,
        m10: Fx,
        m11: Fx,
        m12: Fx,
        m20: Fx,
        m21: Fx,
        m22: Fx,
    ) -> (r: Matrix3)
        ensures
            r == (Matrix3 { m00, m01, m02, m10, m11, m12, m20, m21, m22 }),
    {
        Matrix3 { m00, m01, m02, m10, m11, m12, m20, m21, m22 }
    }

    /// The entry at row `row`, column `col`.
    pub fn get(&self, row: usize, col: usize) -> (r: Fx)
        requires
            row < 3,
            col < 3,
        ensures
            r@ == at3(*self, row as int, col as int),
    {
        if row == 0 {
            if col == 0 {
                self.m00
            } else if col == 1 {
                self.m01
            } else {
                self.m02
            }
        } else if row == 1 {
            if col == 0 {
                self.m10
            } else if col == 1 {
                self.m11
            } else {
                self.m12
            }
        } else {
            if col == 0 {
                self.m20
            } else if col == 1 {
                self.m21
            } else {
                self.m22
            }
        }
    }

    /// The 2x2 matrix left when row `row` and column `col` are struck
    /// out.
    pub fn submatrix(&self, row: usize, col: usize) -> (r: Matrix2)
        requires
            row < 3,
            col < 3,
        ensures
            r == submatrix3_s(*self, row as int, col as int),
    {
        let r0: usize = if 0 < row {
            0
        } else {
            1
        };
        let r1: usize = if 1 < row {
            1
        } else {
            2
        };
        let c0: usize = if 0 < col {
            0
        } else {
            1
        };
        let c1: usize = if 1 < col {
            1
        } else {
            2
        };
        Matrix2 {
            m00: self.get(r0, c0),
            m01: self.get(r0, c1),
            m10: self.get(r1, c0),
            m11: self.get(r1, c1),
        }
    }

    /// The minor at `(row, col)`: the determinant of the submatrix.
    pub fn minor(&self, row: usize, col: usize) -> (r: Fx)
        requires
            row < 3,
            col < 3,
        ensures
            r@ == minor3_s(*self, row as int, col as int),
    {
        self.submatrix(row, col).determinant()
    }

    /// The cofactor at `(row, col)`.
    pub fn cofactor(&self, row: usize, col: usize) -> (r: Fx)
        requires
            row < 3,
            col < 3,
        ensures
            r@ == cofactor3_s(*self, row as int, col as int),
    {
        let minor = self.minor(row, col);
        if (row + col) % 2 == 0 {
            minor
        } else {
            minor.neg()
        }
    }

    /// The determinant, by cofactor expansion along the first row.
    pub fn determinant(&self) -> (r: Fx)
        ensures
            r@ == det3_s(*self),
    {
        self.m00.mul(self.cofactor(0, 0)).add(self.m01.mul(self.cofactor(0, 1))).add(
            self.m02.mul(self.cofactor(0, 2)),
        )
    }
}

impl Matrix2 {
    /// A matrix from its four entries, row by row.
    pub fn new(m00: Fx, m01: Fx, m10: Fx, m11: Fx) -> (r: Matrix2)
        ensures
            r == (Matrix2 { m00, m01, m10, m11 }),
    {
        Matrix2 { m00, m01, m10, m11 }
    }

    /// The entry at row `row`, column `col`.
    pub fn get(&self, row: usize, col: usize) -> (r: Fx)
        requires
            row < 2,
            col < 2,
        ensures
            row == 0 && col == 0 ==> r == self.m00,
            row == 0 && col == 1 ==> r == self.m01,
            row == 1 && col == 0 ==> r == self.m10,
            row == 1 && col == 1 ==> r == self.m11,
    {
        if row == 0 {
            if col == 0 {
                self.m00
            } else {
                self.m01
            }
        } else {
            if col == 0 {
                self.m10
            } else {
                self.m11
            }
        }
    }

    /// The determinant `ad - bc`.
    pub fn determinant(&self) -> (r: Fx)
        ensures
            r@ == det2_s(*self),
    {
        self.m00.mul(self.m11).sub(self.m01.mul(self.m10))
    }
}

} // verus!
