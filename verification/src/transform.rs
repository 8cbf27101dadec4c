//! The fluent builder that composes primitive transforms, and the look-at
//! view transform.

use crate::fx::fx;
use crate::fx::fx_neg;
use crate::fx::Fx;
use crate::fx::SCALE;
use crate::matrix::identity_s;
use crate::matrix::mat_mul_s;
use crate::matrix::rotation_x_s;
use crate::matrix::rotation_y_s;
use crate::matrix::rotation_z_s;
use crate::matrix::scaling_s;
use crate::matrix::shearing_s;
use crate::matrix::translation_s;
use crate::matrix::Matrix4;
use crate::tuple::cross_s;
use crate::tuple::normalize_s;
use crate::tuple::tuple_neg_s;
use crate::tuple::tuple_sub_s;
use crate::tuple::Tuple;
use vstd::prelude::*;

verus! {

/// An ordered list of primitive transforms.  Building composes them so
/// that the first-appended operation is the one applied to a point
/// first.
#[derive(Clone, Debug)]
pub struct Transform {
    operations: Vec<Matrix4>,
}

/// The matrix of an operation list: identity for the empty list, and
/// otherwise the product of the operations from last appended (leftmost
/// factor) to first appended (rightmost factor).
pub open spec fn build_s(ops: Seq<Matrix4>) -> Matrix4
    decreases ops.len(),
{
    if ops.len() == 0 {
        identity_s()
    } else if ops.len() == 1 {
        ops[0]
    } else {
        mat_mul_s(build_s(ops.drop_first()), ops[0])
    }
}

impl Transform {
    /// The operations appended so far, in order.
    pub closed spec fn ops(self) -> Seq<Matrix4> {
        self.operations@
    }

    /// An empty builder: it builds to the identity.
    pub fn new() -> (r: Transform)
        ensures
            r.ops() == Seq::<Matrix4>::empty(),
    {
        Transform { operations: Vec::new() }
    }

    /// A builder holding the one given matrix.
    pub fn from_matrix(m: Matrix4) -> (r: Transform)
        ensures
            r.ops() == seq![m],
    {
        let mut operations: Vec<Matrix4> = Vec::new();
        operations.push(m);
        proof {
            assert(operations@ =~= seq![m]);
        }
        Transform { operations }
    }

    /// Appends a translation.
    pub fn translate(self, x: Fx, y: Fx, z: Fx) -> (r: Transform)
        ensures
            r.ops() == self.ops().push(translation_s(x@, y@, z@)),
    {
        let mut operations = self.operations;
        operations.push(Matrix4::translation(x, y, z));
        Transform { operations }
    }

    /// Appends a scaling.
    pub fn scale(self, x: Fx, y: Fx, z: Fx) -> (r: Transform)
        ensures
            r.ops() == self.ops().push(scaling_s(x@, y@, z@)),
    {
        let mut operations = self.operations;
        operations.push(Matrix4::scaling(x, y, z));
        Transform { operations }
    }

    /// Appends a rotation about the x axis.
    pub fn rotate_x(self, angle: Fx) -> (r: Transform)
        ensures
            r.ops() == self.ops().push(rotation_x_s(angle@)),
    {
        let mut operations = self.operations;
        operations.push(Matrix4::rotation_x(angle));
        Transform { operations }
    }

    /// Appends a rotation about the y axis.
    pub fn rotate_y(self, angle: Fx) -> (r: Transform)
        ensures
            r.ops() == self.ops().push(rotation_y_s(angle@)),
    {
        let mut operations = self.operations;
        operations.push(Matrix4::rotation_y(angle));
        Transform { operations }
    }

    /// Appends a rotation about the z axis.
    pub fn rotate_z(self, angle: Fx) -> (r: Transform)
        ensures
            r.ops() == self.ops().push(rotation_z_s(angle@)),
    {
        let mut operations = self.operations;
        operations.push(Matrix4::rotation_z(angle));
        Transform { operations }
    }

    /// Appends a shearing.
    pub fn shear(self, xy: Fx, xz: Fx, yx: Fx, yz: Fx, zx: Fx, zy: Fx) -> (r: Transform)
        ensures
            r.ops() == self.ops().push(shearing_s(xy@, xz@, yx@, yz@, zx@, zy@)),
    {
        let mut operations = self.operations;
        operations.push(Matrix4::shearing(xy, xz, yx, yz, zx, zy));
        Transform { operations }
    }

    /// Folds the operations into one matrix, composing them in reverse
    /// append order, so that the first-appended operation applies to a
    /// point first.
    pub fn build(self) -> (r: Matrix4)
        ensures
            r == build_s(self.ops()),
    {
        let ghost all = self.operations@;
        let n = self.operations.len();
        if n == 0 {
            Matrix4::identity()
        } else {
            let mut acc = self.operations[n - 1];
            let mut i: usize = n - 1;
            proof {
                assert(all.subrange(n - 1, n as int)[0] == all[n - 1]);
            }
            while i > 0
                invariant
                    all == self.operations@,
                    n == self.operations.len(),
                    i < n == all.len(),
                    acc == build_s(all.subrange(i as int, n as int)),
                decreases i,
            {
                i = i - 1;
                proof {
                    assert(all.subrange(i as int, n as int).drop_first() =~= all.subrange(
                        i + 1,
                        n as int,
                    ));
                    assert(all.subrange(i as int, n as int)[0] == all[i as int]);
                }
                acc = acc.mul(self.operations[i]);
            }
            proof {
                assert(all.subrange(0, n as int) =~= all);
            }
            acc
        }
    }
}

/// An empty builder composes to exactly the identity matrix.
pub proof fn lemma_empty_transform_builds_identity()
    ensures
        build_s(Seq::<Matrix4>::empty()) == identity_s(),
{
}

/// A builder holding one operation composes to exactly that operation.
pub proof fn lemma_single_transform_builds_itself(m: Matrix4)
    ensures
        build_s(seq![m]) == m,
{
}

impl Default for Transform {
    /// An empty builder.
    fn default() -> (r: Transform)
        ensures
            r.ops() == Seq::<Matrix4>::empty(),
    {
        Transform::new()
    }
}

/// The view transform placing the eye at `from`, looking toward `to`,
/// with `up` roughly upward.
pub open spec fn view_transform_s(from: Tuple, to: Tuple, up: Tuple) -> Matrix4 {
    let forward = normalize_s(tuple_sub_s(to, from));
    let left = cross_s(forward, normalize_s(up));
    let true_up = cross_s(left, forward);
    let orientation = Matrix4 {
        m00: left.x,
        m01: left.y,
        m02: left.z,
        m03: left.w,
        m10: true_up.x,
        m11: true_up.y,
        m12: true_up.z,
        m13: true_up.w,
        m20: tuple_neg_s(forward).x,
        m21: tuple_neg_s(forward).y,
        m22: tuple_neg_s(forward).z,
        m23: tuple_neg_s(forward).w,
        m30: fx(0),
        m31: fx(0),
        m32: fx(0),
        m33: fx(SCALE as int),
    };
    mat_mul_s(
        orientation,
        translation_s(fx_neg(from.x@), fx_neg(from.y@), fx_neg(from.z@)),
    )
}

/// Builds the view transform for the given eye position, target and up
/// direction.
pub fn view_transform(from: Tuple, to: Tuple, up: Tuple) -> (r: Matrix4)
    ensures
        r == view_transform_s(from, to, up),
{
    let forward = to.sub(from).normalize();
    let left = forward.cross(up.normalize());
    let true_up = left.cross(forward);
    let orientation = Matrix4::from_rows(
        left,
        true_up,
        forward.neg(),
        Tuple::new(Fx::zero(), Fx::zero(), Fx::zero(), Fx::one()),
    );
    orientation.mul(Matrix4::translation(from.x.neg(), from.y.neg(), from.z.neg()))
}

} // verus!
