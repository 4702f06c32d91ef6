//! Small fixed-size vector and matrix types over fixed-point scalars:
//! everything the pipeline needs, with the entry-wise arithmetic
//! stated exactly.

use vstd::prelude::*;
use crate::fixed::{
    fp_ok, sat, tdiv, iabs, fp_mul_spec, fp_div_spec, fp_sqrt_spec, fp_add, fp_sub, fp_mul,
    fp_div, fp_sqrt, fp_sat, tdiv_i128, lemma_abs_mul_le, FP_ONE, FP_LIM,
};

verus! {

#[derive(Clone, Copy, PartialEq, Eq, Structural, Debug)]
pub struct Vec2 {
    pub x: i64,
    pub y: i64,
}

#[derive(Clone, Copy, PartialEq, Eq, Structural, Debug)]
pub struct Vec3 {
    pub x: i64,
    pub y: i64,
    pub z: i64,
}

#[derive(Clone, Copy, PartialEq, Eq, Structural, Debug)]
pub struct Vec4 {
    pub x: i64,
    pub y: i64,
    pub z: i64,
    pub w: i64,
}

/// A 4x4 matrix in row-major entry order.
#[derive(Clone, Copy, PartialEq, Eq, Structural, Debug)]
pub struct Mat4 {
    pub m00: i64, pub m01: i64, pub m02: i64, pub m03: i64,
    pub m10: i64, pub m11: i64, pub m12: i64, pub m13: i64,
    pub m20: i64, pub m21: i64, pub m22: i64, pub m23: i64,
    pub m30: i64, pub m31: i64, pub m32: i64, pub m33: i64,
}

/// A 3x3 matrix in row-major entry order.
#[derive(Clone, Copy, PartialEq, Eq, Structural, Debug)]
pub struct Mat3 {
    pub m00: i64, pub m01: i64, pub m02: i64,
    pub m10: i64, pub m11: i64, pub m12: i64,
    pub m20: i64, pub m21: i64, pub m22: i64,
}

impl Vec2 {
    pub open spec fn wf(self) -> bool {
        fp_ok(self.x as int) && fp_ok(self.y as int)
    }

}

impl Vec3 {
    pub open spec fn wf(self) -> bool {
        fp_ok(self.x as int) && fp_ok(self.y as int) && fp_ok(self.z as int)
    }


}

impl Vec4 {
    pub open spec fn wf(self) -> bool {
        fp_ok(self.x as int) && fp_ok(self.y as int) && fp_ok(self.z as int) && fp_ok(
            self.w as int,
        )
    }
}

/// The saturating fixed-point dot product of two 3-vectors, folded
/// left to right.
pub open spec fn dot3_spec(a: Vec3, b: Vec3) -> int {
    sat(
        sat(fp_mul_spec(a.x as int, b.x as int) + fp_mul_spec(a.y as int, b.y as int))
            + fp_mul_spec(a.z as int, b.z as int),
    )
}

pub fn dot3(a: &Vec3, b: &Vec3) -> (r: i64)
    requires
        a.wf(),
        b.wf(),
    ensures
        r == dot3_spec(*a, *b),
        fp_ok(r as int),
{
    let xx: i64 = fp_mul(a.x, b.x);
    let yy: i64 = fp_mul(a.y, b.y);
    let zz: i64 = fp_mul(a.z, b.z);
    fp_add(fp_add(xx, yy), zz)
}

/// The saturating fixed-point cross product, component by component.
pub open spec fn cross3_spec(a: Vec3, b: Vec3) -> Vec3 {
    Vec3 {
        x: sat(fp_mul_spec(a.y as int, b.z as int) - fp_mul_spec(a.z as int, b.y as int)) as i64,
        y: sat(fp_mul_spec(a.z as int, b.x as int) - fp_mul_spec(a.x as int, b.z as int)) as i64,
        z: sat(fp_mul_spec(a.x as int, b.y as int) - fp_mul_spec(a.y as int, b.x as int)) as i64,
    }
}

pub fn cross3(a: &Vec3, b: &Vec3) -> (r: Vec3)
    requires
        a.wf(),
        b.wf(),
    ensures
        r == cross3_spec(*a, *b),
        r.wf(),
{
    Vec3 {
        x: fp_sub(fp_mul(a.y, b.z), fp_mul(a.z, b.y)),
        y: fp_sub(fp_mul(a.z, b.x), fp_mul(a.x, b.z)),
        z: fp_sub(fp_mul(a.x, b.y), fp_mul(a.y, b.x)),
    }
}

/// Component-wise vector subtraction.
pub open spec fn sub3_spec(a: Vec3, b: Vec3) -> Vec3 {
    Vec3 {
        x: sat(a.x - b.x) as i64,
        y: sat(a.y - b.y) as i64,
        z: sat(a.z - b.z) as i64,
    }
}

pub fn sub3(a: &Vec3, b: &Vec3) -> (r: Vec3)
    requires
        a.wf(),
        b.wf(),
    ensures
        r == sub3_spec(*a, *b),
        r.wf(),
{
    Vec3 { x: fp_sub(a.x, b.x), y: fp_sub(a.y, b.y), z: fp_sub(a.z, b.z) }
}

/// The vector scaled to unit length; the zero vector stays zero
/// rather than faulting.
pub open spec fn normalize3_spec(v: Vec3) -> Vec3 {
    let len = fp_sqrt_spec(dot3_spec(v, v));
    if len == 0 {
        Vec3 { x: 0i64, y: 0i64, z: 0i64 }
    } else {
        Vec3 {
            x: fp_div_spec(v.x as int, len) as i64,
            y: fp_div_spec(v.y as int, len) as i64,
            z: fp_div_spec(v.z as int, len) as i64,
        }
    }
}

pub fn normalize3(v: &Vec3) -> (r: Vec3)
    requires
        v.wf(),
    ensures
        r == normalize3_spec(*v),
        r.wf(),
{
    let len: i64 = fp_sqrt(dot3(v, v));
    if len == 0 {
        Vec3 { x: 0, y: 0, z: 0 }
    } else {
        Vec3 { x: fp_div(v.x, len), y: fp_div(v.y, len), z: fp_div(v.z, len) }
    }
}

/// The saturating fixed-point dot product of a matrix row with a
/// column, folded left to right.
#[verifier::opaque]
pub open spec fn dot4_spec(
    a0: int,
    a1: int,
    a2: int,
    a3: int,
    b0: int,
    b1: int,
    b2: int,
    b3: int,
) -> int {
    sat(
        sat(sat(fp_mul_spec(a0, b0) + fp_mul_spec(a1, b1)) + fp_mul_spec(a2, b2)) + fp_mul_spec(
            a3,
            b3,
        ),
    )
}

fn dot4(a0: i64, a1: i64, a2: i64, a3: i64, b0: i64, b1: i64, b2: i64, b3: i64) -> (r: i64)
    requires
        fp_ok(a0 as int),
        fp_ok(a1 as int),
        fp_ok(a2 as int),
        fp_ok(a3 as int),
        fp_ok(b0 as int),
        fp_ok(b1 as int),
        fp_ok(b2 as int),
        fp_ok(b3 as int),
    ensures
        r == dot4_spec(a0 as int, a1 as int, a2 as int, a3 as int, b0 as int, b1 as int, b2 as int, b3 as int),
        fp_ok(r as int),
{
    proof {
        reveal(dot4_spec);
    }
    let p0: i64 = fp_mul(a0, b0);
    let p1: i64 = fp_mul(a1, b1);
    let p2: i64 = fp_mul(a2, b2);
    let p3: i64 = fp_mul(a3, b3);
    fp_add(fp_add(fp_add(p0, p1), p2), p3)
}

impl Mat4 {
    pub open spec fn wf(self) -> bool {
        &&& fp_ok(self.m00 as int) && fp_ok(self.m01 as int) && fp_ok(self.m02 as int) && fp_ok(self.m03 as int)
        &&& fp_ok(self.m10 as int) && fp_ok(self.m11 as int) && fp_ok(self.m12 as int) && fp_ok(self.m13 as int)
        &&& fp_ok(self.m20 as int) && fp_ok(self.m21 as int) && fp_ok(self.m22 as int) && fp_ok(self.m23 as int)
        &&& fp_ok(self.m30 as int) && fp_ok(self.m31 as int) && fp_ok(self.m32 as int) && fp_ok(self.m33 as int)
    }

    /// Build a matrix from its sixteen entries, row by row.
    #[allow(clippy::too_many_arguments)]
    pub fn new(
        m00: i64, m01: i64, m02: i64, m03: i64,
        m10: i64, m11: i64, m12: i64, m13: i64,
        m20: i64, m21: i64, m22: i64, m23: i64,
        m30: i64, m31: i64, m32: i64, m33: i64,
    ) -> (r: Mat4)
        requires
            fp_ok(m00 as int), fp_ok(m01 as int), fp_ok(m02 as int), fp_ok(m03 as int),
            fp_ok(m10 as int), fp_ok(m11 as int), fp_ok(m12 as int), fp_ok(m13 as int),
            fp_ok(m20 as int), fp_ok(m21 as int), fp_ok(m22 as int), fp_ok(m23 as int),
            fp_ok(m30 as int), fp_ok(m31 as int), fp_ok(m32 as int), fp_ok(m33 as int),
        ensures
            r == (Mat4 { m00, m01, m02, m03, m10, m11, m12, m13, m20, m21, m22, m23, m30, m31, m32, m33 }),
            r.wf(),
    {
        Mat4 { m00, m01, m02, m03, m10, m11, m12, m13, m20, m21, m22, m23, m30, m31, m32, m33 }
    }

    /// The identity transform.
    pub fn identity() -> (r: Mat4)
        ensures
            r == Mat4::identity_spec(),
            r.wf(),
    {
        Mat4 {
            m00: FP_ONE, m01: 0, m02: 0, m03: 0,
            m10: 0, m11: FP_ONE, m12: 0, m13: 0,
            m20: 0, m21: 0, m22: FP_ONE, m23: 0,
            m30: 0, m31: 0, m32: 0, m33: FP_ONE,
        }
    }

    pub open spec fn identity_spec() -> Mat4 {
        Mat4 {
            m00: FP_ONE, m01: 0, m02: 0, m03: 0,
            m10: 0, m11: FP_ONE, m12: 0, m13: 0,
            m20: 0, m21: 0, m22: FP_ONE, m23: 0,
            m30: 0, m31: 0, m32: 0, m33: FP_ONE,
        }
    }
}

impl Mat3 {
    pub open spec fn wf(self) -> bool {
        &&& fp_ok(self.m00 as int) && fp_ok(self.m01 as int) && fp_ok(self.m02 as int)
        &&& fp_ok(self.m10 as int) && fp_ok(self.m11 as int) && fp_ok(self.m12 as int)
        &&& fp_ok(self.m20 as int) && fp_ok(self.m21 as int) && fp_ok(self.m22 as int)
    }

    pub open spec fn identity_spec() -> Mat3 {
        Mat3 { m00: FP_ONE, m01: 0, m02: 0, m10: 0, m11: FP_ONE, m12: 0, m20: 0, m21: 0, m22: FP_ONE }
    }
}

/// The entry-wise statement of the 4x4 matrix product.
pub open spec fn mat4_mul_spec(a: Mat4, b: Mat4) -> Mat4 {
    Mat4 {
        m00: dot4_spec(a.m00 as int, a.m01 as int, a.m02 as int, a.m03 as int, b.m00 as int, b.m10 as int, b.m20 as int, b.m30 as int) as i64,
        m01: dot4_spec(a.m00 as int, a.m01 as int, a.m02 as int, a.m03 as int, b.m01 as int, b.m11 as int, b.m21 as int, b.m31 as int) as i64,
        m02: dot4_spec(a.m00 as int, a.m01 as int, a.m02 as int, a.m03 as int, b.m02 as int, b.m12 as int, b.m22 as int, b.m32 as int) as i64,
        m03: dot4_spec(a.m00 as int, a.m01 as int, a.m02 as int, a.m03 as int, b.m03 as int, b.m13 as int, b.m23 as int, b.m33 as int) as i64,
        m10: dot4_spec(a.m10 as int, a.m11 as int, a.m12 as int, a.m13 as int, b.m00 as int, b.m10 as int, b.m20 as int, b.m30 as int) as i64,
        m11: dot4_spec(a.m10 as int, a.m11 as int, a.m12 as int, a.m13 as int, b.m01 as int, b.m11 as int, b.m21 as int, b.m31 as int) as i64,
        m12: dot4_spec(a.m10 as int, a.m11 as int, a.m12 as int, a.m13 as int, b.m02 as int, b.m12 as int, b.m22 as int, b.m32 as int) as i64,
        m13: dot4_spec(a.m10 as int, a.m11 as int, a.m12 as int, a.m13 as int, b.m03 as int, b.m13 as int, b.m23 as int, b.m33 as int) as i64,
        m20: dot4_spec(a.m20 as int, a.m21 as int, a.m22 as int, a.m23 as int, b.m00 as int, b.m10 as int, b.m20 as int, b.m30 as int) as i64,
        m21: dot4_spec(a.m20 as int, a.m21 as int, a.m22 as int, a.m23 as int, b.m01 as int, b.m11 as int, b.m21 as int, b.m31 as int) as i64,
        m22: dot4_spec(a.m20 as int, a.m21 as int, a.m22 as int, a.m23 as int, b.m02 as int, b.m12 as int, b.m22 as int, b.m32 as int) as i64,
        m23: dot4_spec(a.m20 as int, a.m21 as int, a.m22 as int, a.m23 as int, b.m03 as int, b.m13 as int, b.m23 as int, b.m33 as int) as i64,
        m30: dot4_spec(a.m30 as int, a.m31 as int, a.m32 as int, a.m33 as int, b.m00 as int, b.m10 as int, b.m20 as int, b.m30 as int) as i64,
        m31: dot4_spec(a.m30 as int, a.m31 as int, a.m32 as int, a.m33 as int, b.m01 as int, b.m11 as int, b.m21 as int, b.m31 as int) as i64,
        m32: dot4_spec(a.m30 as int, a.m31 as int, a.m32 as int, a.m33 as int, b.m02 as int, b.m12 as int, b.m22 as int, b.m32 as int) as i64,
        m33: dot4_spec(a.m30 as int, a.m31 as int, a.m32 as int, a.m33 as int, b.m03 as int, b.m13 as int, b.m23 as int, b.m33 as int) as i64,
    }
}

/// The entry-wise statement of a matrix-vector product.
pub open spec fn mat4_vec_spec(m: Mat4, v: Vec4) -> Vec4 {
    Vec4 {
        x: dot4_spec(m.m00 as int, m.m01 as int, m.m02 as int, m.m03 as int, v.x as int, v.y as int, v.z as int, v.w as int) as i64,
        y: dot4_spec(m.m10 as int, m.m11 as int, m.m12 as int, m.m13 as int, v.x as int, v.y as int, v.z as int, v.w as int) as i64,
        z: dot4_spec(m.m20 as int, m.m21 as int, m.m22 as int, m.m23 as int, v.x as int, v.y as int, v.z as int, v.w as int) as i64,
        w: dot4_spec(m.m30 as int, m.m31 as int, m.m32 as int, m.m33 as int, v.x as int, v.y as int, v.z as int, v.w as int) as i64,
    }
}

pub open spec fn mat3_vec_spec(m: Mat3, v: Vec3) -> Vec3 {
    Vec3 {
        x: row3_spec(m.m00 as int, m.m01 as int, m.m02 as int, v) as i64,
        y: row3_spec(m.m10 as int, m.m11 as int, m.m12 as int, v) as i64,
        z: row3_spec(m.m20 as int, m.m21 as int, m.m22 as int, v) as i64,
    }
}

pub open spec fn mat4_to_mat3_spec(m: Mat4) -> Mat3 {
    Mat3 {
        m00: m.m00, m01: m.m01, m02: m.m02,
        m10: m.m10, m11: m.m11, m12: m.m12,
        m20: m.m20, m21: m.m21, m22: m.m22,
    }
}

pub open spec fn mat3_transpose_spec(m: Mat3) -> Mat3 {
    Mat3 {
        m00: m.m00, m01: m.m10, m02: m.m20,
        m10: m.m01, m11: m.m11, m12: m.m21,
        m20: m.m02, m21: m.m12, m22: m.m22,
    }
}

/// The fixed-point adjugate inverse; the identity when singular.
pub open spec fn mat3_inverse_spec(m: Mat3) -> Mat3 {
    let det = m3_det_spec(m);
    if det == 0 {
        Mat3::identity_spec()
    } else {
        Mat3 {
            m00: m3_inv_entry_spec(minor_spec(m.m11 as int, m.m12 as int, m.m21 as int, m.m22 as int), det) as i64,
            m01: m3_inv_entry_spec(-minor_spec(m.m01 as int, m.m02 as int, m.m21 as int, m.m22 as int), det) as i64,
            m02: m3_inv_entry_spec(minor_spec(m.m01 as int, m.m02 as int, m.m11 as int, m.m12 as int), det) as i64,
            m10: m3_inv_entry_spec(-minor_spec(m.m10 as int, m.m12 as int, m.m20 as int, m.m22 as int), det) as i64,
            m11: m3_inv_entry_spec(minor_spec(m.m00 as int, m.m02 as int, m.m20 as int, m.m22 as int), det) as i64,
            m12: m3_inv_entry_spec(-minor_spec(m.m00 as int, m.m02 as int, m.m10 as int, m.m12 as int), det) as i64,
            m20: m3_inv_entry_spec(minor_spec(m.m10 as int, m.m11 as int, m.m20 as int, m.m21 as int), det) as i64,
            m21: m3_inv_entry_spec(-minor_spec(m.m00 as int, m.m01 as int, m.m20 as int, m.m21 as int), det) as i64,
            m22: m3_inv_entry_spec(minor_spec(m.m00 as int, m.m01 as int, m.m10 as int, m.m11 as int), det) as i64,
        }
    }
}

/// Matrix product: entry `(i, j)` of the result is the fixed-point
/// dot of row `i` of `a` with column `j` of `b`.
pub fn mat4_mul(a: &Mat4, b: &Mat4) -> (r: Mat4)
    requires
        a.wf(),
        b.wf(),
    ensures
        r.wf(),
        r == mat4_mul_spec(*a, *b),
        r.m00 == dot4_spec(a.m00 as int, a.m01 as int, a.m02 as int, a.m03 as int, b.m00 as int, b.m10 as int, b.m20 as int, b.m30 as int),
        r.m01 == dot4_spec(a.m00 as int, a.m01 as int, a.m02 as int, a.m03 as int, b.m01 as int, b.m11 as int, b.m21 as int, b.m31 as int),
        r.m02 == dot4_spec(a.m00 as int, a.m01 as int, a.m02 as int, a.m03 as int, b.m02 as int, b.m12 as int, b.m22 as int, b.m32 as int),
        r.m03 == dot4_spec(a.m00 as int, a.m01 as int, a.m02 as int, a.m03 as int, b.m03 as int, b.m13 as int, b.m23 as int, b.m33 as int),
        r.m10 == dot4_spec(a.m10 as int, a.m11 as int, a.m12 as int, a.m13 as int, b.m00 as int, b.m10 as int, b.m20 as int, b.m30 as int),
        r.m11 == dot4_spec(a.m10 as int, a.m11 as int, a.m12 as int, a.m13 as int, b.m01 as int, b.m11 as int, b.m21 as int, b.m31 as int),
        r.m12 == dot4_spec(a.m10 as int, a.m11 as int, a.m12 as int, a.m13 as int, b.m02 as int, b.m12 as int, b.m22 as int, b.m32 as int),
        r.m13 == dot4_spec(a.m10 as int, a.m11 as int, a.m12 as int, a.m13 as int, b.m03 as int, b.m13 as int, b.m23 as int, b.m33 as int),
        r.m20 == dot4_spec(a.m20 as int, a.m21 as int, a.m22 as int, a.m23 as int, b.m00 as int, b.m10 as int, b.m20 as int, b.m30 as int),
        r.m21 == dot4_spec(a.m20 as int, a.m21 as int, a.m22 as int, a.m23 as int, b.m01 as int, b.m11 as int, b.m21 as int, b.m31 as int),
        r.m22 == dot4_spec(a.m20 as int, a.m21 as int, a.m22 as int, a.m23 as int, b.m02 as int, b.m12 as int, b.m22 as int, b.m32 as int),
        r.m23 == dot4_spec(a.m20 as int, a.m21 as int, a.m22 as int, a.m23 as int, b.m03 as int, b.m13 as int, b.m23 as int, b.m33 as int),
        r.m30 == dot4_spec(a.m30 as int, a.m31 as int, a.m32 as int, a.m33 as int, b.m00 as int, b.m10 as int, b.m20 as int, b.m30 as int),
        r.m31 == dot4_spec(a.m30 as int, a.m31 as int, a.m32 as int, a.m33 as int, b.m01 as int, b.m11 as int, b.m21 as int, b.m31 as int),
        r.m32 == dot4_spec(a.m30 as int, a.m31 as int, a.m32 as int, a.m33 as int, b.m02 as int, b.m12 as int, b.m22 as int, b.m32 as int),
        r.m33 == dot4_spec(a.m30 as int, a.m31 as int, a.m32 as int, a.m33 as int, b.m03 as int, b.m13 as int, b.m23 as int, b.m33 as int),
{
    Mat4 {
        m00: dot4(a.m00, a.m01, a.m02, a.m03, b.m00, b.m10, b.m20, b.m30),
        m01: dot4(a.m00, a.m01, a.m02, a.m03, b.m01, b.m11, b.m21, b.m31),
        m02: dot4(a.m00, a.m01, a.m02, a.m03, b.m02, b.m12, b.m22, b.m32),
        m03: dot4(a.m00, a.m01, a.m02, a.m03, b.m03, b.m13, b.m23, b.m33),
        m10: dot4(a.m10, a.m11, a.m12, a.m13, b.m00, b.m10, b.m20, b.m30),
        m11: dot4(a.m10, a.m11, a.m12, a.m13, b.m01, b.m11, b.m21, b.m31),
        m12: dot4(a.m10, a.m11, a.m12, a.m13, b.m02, b.m12, b.m22, b.m32),
        m13: dot4(a.m10, a.m11, a.m12, a.m13, b.m03, b.m13, b.m23, b.m33),
        m20: dot4(a.m20, a.m21, a.m22, a.m23, b.m00, b.m10, b.m20, b.m30),
        m21: dot4(a.m20, a.m21, a.m22, a.m23, b.m01, b.m11, b.m21, b.m31),
        m22: dot4(a.m20, a.m21, a.m22, a.m23, b.m02, b.m12, b.m22, b.m32),
        m23: dot4(a.m20, a.m21, a.m22, a.m23, b.m03, b.m13, b.m23, b.m33),
        m30: dot4(a.m30, a.m31, a.m32, a.m33, b.m00, b.m10, b.m20, b.m30),
        m31: dot4(a.m30, a.m31, a.m32, a.m33, b.m01, b.m11, b.m21, b.m31),
        m32: dot4(a.m30, a.m31, a.m32, a.m33, b.m02, b.m12, b.m22, b.m32),
        m33: dot4(a.m30, a.m31, a.m32, a.m33, b.m03, b.m13, b.m23, b.m33),
    }
}

/// Matrix-vector product: each component is the fixed-point dot of a
/// row with the vector.
pub fn mat4_vec(m: &Mat4, v: &Vec4) -> (r: Vec4)
    requires
        m.wf(),
        v.wf(),
    ensures
        r.wf(),
        r == mat4_vec_spec(*m, *v),
        r.x == dot4_spec(m.m00 as int, m.m01 as int, m.m02 as int, m.m03 as int, v.x as int, v.y as int, v.z as int, v.w as int),
        r.y == dot4_spec(m.m10 as int, m.m11 as int, m.m12 as int, m.m13 as int, v.x as int, v.y as int, v.z as int, v.w as int),
        r.z == dot4_spec(m.m20 as int, m.m21 as int, m.m22 as int, m.m23 as int, v.x as int, v.y as int, v.z as int, v.w as int),
        r.w == dot4_spec(m.m30 as int, m.m31 as int, m.m32 as int, m.m33 as int, v.x as int, v.y as int, v.z as int, v.w as int),
{
    Vec4 {
        x: dot4(m.m00, m.m01, m.m02, m.m03, v.x, v.y, v.z, v.w),
        y: dot4(m.m10, m.m11, m.m12, m.m13, v.x, v.y, v.z, v.w),
        z: dot4(m.m20, m.m21, m.m22, m.m23, v.x, v.y, v.z, v.w),
        w: dot4(m.m30, m.m31, m.m32, m.m33, v.x, v.y, v.z, v.w),
    }
}

/// The upper-left 3x3 block of a 4x4 matrix.
pub fn mat4_to_mat3(m: &Mat4) -> (r: Mat3)
    requires
        m.wf(),
    ensures
        r.wf(),
        r == (Mat3 {
            m00: m.m00, m01: m.m01, m02: m.m02,
            m10: m.m10, m11: m.m11, m12: m.m12,
            m20: m.m20, m21: m.m21, m22: m.m22,
        }),
{
    Mat3 {
        m00: m.m00, m01: m.m01, m02: m.m02,
        m10: m.m10, m11: m.m11, m12: m.m12,
        m20: m.m20, m21: m.m21, m22: m.m22,
    }
}

pub fn mat3_transpose(m: &Mat3) -> (r: Mat3)
    requires
        m.wf(),
    ensures
        r.wf(),
        r == (Mat3 {
            m00: m.m00, m01: m.m10, m02: m.m20,
            m10: m.m01, m11: m.m11, m12: m.m21,
            m20: m.m02, m21: m.m12, m22: m.m22,
        }),
{
    Mat3 {
        m00: m.m00, m01: m.m10, m02: m.m20,
        m10: m.m01, m11: m.m11, m12: m.m21,
        m20: m.m02, m21: m.m12, m22: m.m22,
    }
}

/// The saturating fixed-point dot of a 3x3 row with a 3-vector.
#[verifier::opaque]
pub open spec fn row3_spec(a0: int, a1: int, a2: int, b: Vec3) -> int {
    sat(
        sat(fp_mul_spec(a0, b.x as int) + fp_mul_spec(a1, b.y as int)) + fp_mul_spec(
            a2,
            b.z as int,
        ),
    )
}

pub fn mat3_vec(m: &Mat3, v: &Vec3) -> (r: Vec3)
    requires
        m.wf(),
        v.wf(),
    ensures
        r.wf(),
        r == mat3_vec_spec(*m, *v),
        r.x == row3_spec(m.m00 as int, m.m01 as int, m.m02 as int, *v),
        r.y == row3_spec(m.m10 as int, m.m11 as int, m.m12 as int, *v),
        r.z == row3_spec(m.m20 as int, m.m21 as int, m.m22 as int, *v),
{
    proof {
        reveal(row3_spec);
    }
    Vec3 {
        x: fp_add(fp_add(fp_mul(m.m00, v.x), fp_mul(m.m01, v.y)), fp_mul(m.m02, v.z)),
        y: fp_add(fp_add(fp_mul(m.m10, v.x), fp_mul(m.m11, v.y)), fp_mul(m.m12, v.z)),
        z: fp_add(fp_add(fp_mul(m.m20, v.x), fp_mul(m.m21, v.y)), fp_mul(m.m22, v.z)),
    }
}

/// A 2x2 minor of a 3x3 fixed-point matrix, kept at raw double scale
/// (no division yet).
pub open spec fn minor_spec(a: int, b: int, c: int, d: int) -> int {
    a * d - b * c
}

/// The determinant of a 3x3 fixed-point matrix at raw triple scale.
pub open spec fn m3_det_spec(m: Mat3) -> int {
    m.m00 as int * minor_spec(m.m11 as int, m.m12 as int, m.m21 as int, m.m22 as int) - m.m01 as int
        * minor_spec(m.m10 as int, m.m12 as int, m.m20 as int, m.m22 as int) + m.m02 as int
        * minor_spec(m.m10 as int, m.m11 as int, m.m20 as int, m.m21 as int)
}

/// One entry of the fixed-point inverse: a raw cofactor re-scaled by
/// `2^32` and divided by the raw determinant.
pub open spec fn m3_inv_entry_spec(cof: int, det: int) -> int
    recommends
        det != 0,
{
    sat(tdiv(cof * 0x100000000, det))
}

fn minor(a: i64, b: i64, c: i64, d: i64) -> (r: i128)
    requires
        fp_ok(a as int),
        fp_ok(b as int),
        fp_ok(c as int),
        fp_ok(d as int),
    ensures
        r == minor_spec(a as int, b as int, c as int, d as int),
        iabs(r as int) <= 0x400000000000000000000,
{
    proof {
        lemma_abs_mul_le(a as int, d as int, FP_LIM as int, FP_LIM as int);
        lemma_abs_mul_le(b as int, c as int, FP_LIM as int, FP_LIM as int);
    }
    (a as i128) * (d as i128) - (b as i128) * (c as i128)
}

/// The raw determinant of a 3x3 fixed-point matrix.
pub fn m3_det(m: &Mat3) -> (r: i128)
    requires
        m.wf(),
    ensures
        r == m3_det_spec(*m),
        iabs(r as int) <= 0x10000000000000000000000000000000,
{
    let c0: i128 = minor(m.m11, m.m12, m.m21, m.m22);
    let c1: i128 = minor(m.m10, m.m12, m.m20, m.m22);
    let c2: i128 = minor(m.m10, m.m11, m.m20, m.m21);
    proof {
        lemma_abs_mul_le(m.m00 as int, c0 as int, FP_LIM as int, 0x400000000000000000000);
        lemma_abs_mul_le(m.m01 as int, c1 as int, FP_LIM as int, 0x400000000000000000000);
        lemma_abs_mul_le(m.m02 as int, c2 as int, FP_LIM as int, 0x400000000000000000000);
    }
    (m.m00 as i128) * c0 - (m.m01 as i128) * c1 + (m.m02 as i128) * c2
}

fn inv_entry(cof: i128, det: i128) -> (r: i64)
    requires
        iabs(cof as int) <= 0x400000000000000000000,
        det != 0,
        iabs(det as int) <= 0x10000000000000000000000000000000,
    ensures
        r == m3_inv_entry_spec(cof as int, det as int),
        fp_ok(r as int),
{
    proof {
        lemma_abs_mul_le(cof as int, 0x100000000, 0x400000000000000000000, 0x100000000);
    }
    fp_sat(tdiv_i128(cof * 0x100000000, det))
}

/// The fixed-point inverse of a 3x3 matrix by the adjugate formula;
/// a singular matrix falls back to the identity. Each entry of the
/// inverse is the transposed cofactor over the determinant.
pub fn mat3_inverse(m: &Mat3) -> (r: Mat3)
    requires
        m.wf(),
    ensures
        r.wf(),
        r == mat3_inverse_spec(*m),
        m3_det_spec(*m) == 0 ==> r == Mat3::identity_spec(),
        m3_det_spec(*m) != 0 ==> {
            let det = m3_det_spec(*m);
            &&& r.m00 == m3_inv_entry_spec(minor_spec(m.m11 as int, m.m12 as int, m.m21 as int, m.m22 as int), det)
            &&& r.m01 == m3_inv_entry_spec(-minor_spec(m.m01 as int, m.m02 as int, m.m21 as int, m.m22 as int), det)
            &&& r.m02 == m3_inv_entry_spec(minor_spec(m.m01 as int, m.m02 as int, m.m11 as int, m.m12 as int), det)
            &&& r.m10 == m3_inv_entry_spec(-minor_spec(m.m10 as int, m.m12 as int, m.m20 as int, m.m22 as int), det)
            &&& r.m11 == m3_inv_entry_spec(minor_spec(m.m00 as int, m.m02 as int, m.m20 as int, m.m22 as int), det)
            &&& r.m12 == m3_inv_entry_spec(-minor_spec(m.m00 as int, m.m02 as int, m.m10 as int, m.m12 as int), det)
            &&& r.m20 == m3_inv_entry_spec(minor_spec(m.m10 as int, m.m11 as int, m.m20 as int, m.m21 as int), det)
            &&& r.m21 == m3_inv_entry_spec(-minor_spec(m.m00 as int, m.m01 as int, m.m20 as int, m.m21 as int), det)
            &&& r.m22 == m3_inv_entry_spec(minor_spec(m.m00 as int, m.m01 as int, m.m10 as int, m.m11 as int), det)
        },
{
    let det: i128 = m3_det(m);
    if det == 0 {
        Mat3 { m00: FP_ONE, m01: 0, m02: 0, m10: 0, m11: FP_ONE, m12: 0, m20: 0, m21: 0, m22: FP_ONE }
    } else {
        let c00: i128 = minor(m.m11, m.m12, m.m21, m.m22);
        let c01: i128 = minor(m.m01, m.m02, m.m21, m.m22);
        let c02: i128 = minor(m.m01, m.m02, m.m11, m.m12);
        let c10: i128 = minor(m.m10, m.m12, m.m20, m.m22);
        let c11: i128 = minor(m.m00, m.m02, m.m20, m.m22);
        let c12: i128 = minor(m.m00, m.m02, m.m10, m.m12);
        let c20: i128 = minor(m.m10, m.m11, m.m20, m.m21);
        let c21: i128 = minor(m.m00, m.m01, m.m20, m.m21);
        let c22: i128 = minor(m.m00, m.m01, m.m10, m.m11);
        Mat3 {
            m00: inv_entry(c00, det),
            m01: inv_entry(-c01, det),
            m02: inv_entry(c02, det),
            m10: inv_entry(-c10, det),
            m11: inv_entry(c11, det),
            m12: inv_entry(-c12, det),
            m20: inv_entry(c20, det),
            m21: inv_entry(-c21, det),
            m22: inv_entry(c22, det),
        }
    }
}

} // verus!
