//! Vectors and 3×3 matrices of exact rationals.
//!
//! [`Mat3`] serves three roles, as in the classic homogeneous-coordinate
//! treatment of plane geometry: a 2D affine map (linear part plus
//! translation), the symmetric matrix of a conic's quadratic form, and a 3D
//! rotation. An affine map is built from the constructors below and composed
//! with [`Mat3::mul`]; [`Mat3::inv`] fails exactly on the maps whose
//! determinant is zero.

use vstd::prelude::*;
use crate::ratio::{Qs, Ratio, q_wf, q_int, q_add, q_mul, q_sub, q_neg, q_div};

verus! {

/// Ghost model of a 2-vector.
pub struct V2s {
    pub x: Qs,
    pub y: Qs,
}

pub open spec fn v2_wf(v: V2s) -> bool {
    q_wf(v.x) && q_wf(v.y)
}

/// A 2-vector (or point) of exact rationals.
pub struct Vec2 {
    pub x: Ratio,
    pub y: Ratio,
}

impl View for Vec2 {
    type V = V2s;

    open spec fn view(&self) -> V2s {
        V2s { x: self.x@, y: self.y@ }
    }
}

impl Vec2 {
    pub open spec fn wf(&self) -> bool {
        v2_wf(self@)
    }

    pub fn new(x: Ratio, y: Ratio) -> (r: Vec2)
        ensures
            r@.x == x@,
            r@.y == y@,
    {
        Vec2 { x, y }
    }

    pub fn dup(&self) -> (r: Vec2)
        ensures
            r@ == self@,
    {
        Vec2 { x: self.x.dup(), y: self.y.dup() }
    }
}

/// Ghost model of a 3×3 matrix.
pub struct M3s {
    pub m11: Qs,
    pub m12: Qs,
    pub m13: Qs,
    pub m21: Qs,
    pub m22: Qs,
    pub m23: Qs,
    pub m31: Qs,
    pub m32: Qs,
    pub m33: Qs,
}

pub open spec fn m3_wf(m: M3s) -> bool {
    q_wf(m.m11) && q_wf(m.m12) && q_wf(m.m13) && q_wf(m.m21) && q_wf(m.m22) && q_wf(m.m23)
        && q_wf(m.m31) && q_wf(m.m32) && q_wf(m.m33)
}

pub open spec fn m3_id() -> M3s {
    M3s {
        m11: q_int(1),
        m12: q_int(0),
        m13: q_int(0),
        m21: q_int(0),
        m22: q_int(1),
        m23: q_int(0),
        m31: q_int(0),
        m32: q_int(0),
        m33: q_int(1),
    }
}

/// Translation by `v` as a homogeneous matrix.
pub open spec fn m3_translate(v: V2s) -> M3s {
    M3s {
        m11: q_int(1),
        m12: q_int(0),
        m13: v.x,
        m21: q_int(0),
        m22: q_int(1),
        m23: v.y,
        m31: q_int(0),
        m32: q_int(0),
        m33: q_int(1),
    }
}

/// Axis-aligned scaling by `v` as a homogeneous matrix.
pub open spec fn m3_scale(v: V2s) -> M3s {
    M3s {
        m11: v.x,
        m12: q_int(0),
        m13: q_int(0),
        m21: q_int(0),
        m22: v.y,
        m23: q_int(0),
        m31: q_int(0),
        m32: q_int(0),
        m33: q_int(1),
    }
}

/// Rotation about the z axis by the angle whose sine and cosine are `s` and
/// `c`. Read as a homogeneous matrix this is the plane rotation by that angle.
pub open spec fn m3_rot_z(s: Qs, c: Qs) -> M3s {
    M3s {
        m11: c,
        m12: q_neg(s),
        m13: q_int(0),
        m21: s,
        m22: c,
        m23: q_int(0),
        m31: q_int(0),
        m32: q_int(0),
        m33: q_int(1),
    }
}

/// Rotation about the x axis by the angle whose sine and cosine are `s` and
/// `c`.
pub open spec fn m3_rot_x(s: Qs, c: Qs) -> M3s {
    M3s {
        m11: q_int(1),
        m12: q_int(0),
        m13: q_int(0),
        m21: q_int(0),
        m22: c,
        m23: q_neg(s),
        m31: q_int(0),
        m32: s,
        m33: c,
    }
}

pub open spec fn m3_transpose(m: M3s) -> M3s {
    M3s {
        m11: m.m11,
        m12: m.m21,
        m13: m.m31,
        m21: m.m12,
        m22: m.m22,
        m23: m.m32,
        m31: m.m13,
        m32: m.m23,
        m33: m.m33,
    }
}

pub open spec fn m3_mul(a: M3s, b: M3s) -> M3s {
    M3s {
        m11: q_add(q_add(q_mul(a.m11, b.m11), q_mul(a.m12, b.m21)), q_mul(a.m13, b.m31)),
        m12: q_add(q_add(q_mul(a.m11, b.m12), q_mul(a.m12, b.m22)), q_mul(a.m13, b.m32)),
        m13: q_add(q_add(q_mul(a.m11, b.m13), q_mul(a.m12, b.m23)), q_mul(a.m13, b.m33)),
        m21: q_add(q_add(q_mul(a.m21, b.m11), q_mul(a.m22, b.m21)), q_mul(a.m23, b.m31)),
        m22: q_add(q_add(q_mul(a.m21, b.m12), q_mul(a.m22, b.m22)), q_mul(a.m23, b.m32)),
        m23: q_add(q_add(q_mul(a.m21, b.m13), q_mul(a.m22, b.m23)), q_mul(a.m23, b.m33)),
        m31: q_add(q_add(q_mul(a.m31, b.m11), q_mul(a.m32, b.m21)), q_mul(a.m33, b.m31)),
        m32: q_add(q_add(q_mul(a.m31, b.m12), q_mul(a.m32, b.m22)), q_mul(a.m33, b.m32)),
        m33: q_add(q_add(q_mul(a.m31, b.m13), q_mul(a.m32, b.m23)), q_mul(a.m33, b.m33)),
    }
}

pub open spec fn m3_det(m: M3s) -> Qs {
    q_add(
        q_sub(
            q_mul(m.m11, q_sub(q_mul(m.m22, m.m33), q_mul(m.m23, m.m32))),
            q_mul(m.m12, q_sub(q_mul(m.m21, m.m33), q_mul(m.m23, m.m31))),
        ),
        q_mul(m.m13, q_sub(q_mul(m.m21, m.m32), q_mul(m.m22, m.m31))),
    )
}

/// The inverse: the adjugate with each entry divided by the determinant
/// (meaningful when the determinant is nonzero).
pub open spec fn m3_inv(m: M3s) -> M3s {
    let det = m3_det(m);
    M3s {
        m11: q_div(q_sub(q_mul(m.m22, m.m33), q_mul(m.m23, m.m32)), det),
        m12: q_div(q_sub(q_mul(m.m13, m.m32), q_mul(m.m12, m.m33)), det),
        m13: q_div(q_sub(q_mul(m.m12, m.m23), q_mul(m.m13, m.m22)), det),
        m21: q_div(q_sub(q_mul(m.m23, m.m31), q_mul(m.m21, m.m33)), det),
        m22: q_div(q_sub(q_mul(m.m11, m.m33), q_mul(m.m13, m.m31)), det),
        m23: q_div(q_sub(q_mul(m.m13, m.m21), q_mul(m.m11, m.m23)), det),
        m31: q_div(q_sub(q_mul(m.m21, m.m32), q_mul(m.m22, m.m31)), det),
        m32: q_div(q_sub(q_mul(m.m12, m.m31), q_mul(m.m11, m.m32)), det),
        m33: q_div(q_sub(q_mul(m.m11, m.m22), q_mul(m.m12, m.m21)), det),
    }
}

/// A 3×3 matrix of exact rationals.
pub struct Mat3 {
    pub m11: Ratio,
    pub m12: Ratio,
    pub m13: Ratio,
    pub m21: Ratio,
    pub m22: Ratio,
    pub m23: Ratio,
    pub m31: Ratio,
    pub m32: Ratio,
    pub m33: Ratio,
}

impl View for Mat3 {
    type V = M3s;

    open spec fn view(&self) -> M3s {
        M3s {
            m11: self.m11@,
            m12: self.m12@,
            m13: self.m13@,
            m21: self.m21@,
            m22: self.m22@,
            m23: self.m23@,
            m31: self.m31@,
            m32: self.m32@,
            m33: self.m33@,
        }
    }
}

impl Mat3 {
    pub open spec fn wf(&self) -> bool {
        m3_wf(self@)
    }

    pub fn id() -> (r: Mat3)
        ensures
            r@ == m3_id(),
            r.wf(),
    {
        Mat3 {
            m11: Ratio::from_int(1),
            m12: Ratio::from_int(0),
            m13: Ratio::from_int(0),
            m21: Ratio::from_int(0),
            m22: Ratio::from_int(1),
            m23: Ratio::from_int(0),
            m31: Ratio::from_int(0),
            m32: Ratio::from_int(0),
            m33: Ratio::from_int(1),
        }
    }

    pub fn translate(v: &Vec2) -> (r: Mat3)
        requires
            v.wf(),
        ensures
            r@ == m3_translate(v@),
            r.wf(),
    {
        Mat3 {
            m11: Ratio::from_int(1),
            m12: Ratio::from_int(0),
            m13: v.x.dup(),
            m21: Ratio::from_int(0),
            m22: Ratio::from_int(1),
            m23: v.y.dup(),
            m31: Ratio::from_int(0),
            m32: Ratio::from_int(0),
            m33: Ratio::from_int(1),
        }
    }

    pub fn scale(v: &Vec2) -> (r: Mat3)
        requires
            v.wf(),
        ensures
            r@ == m3_scale(v@),
            r.wf(),
    {
        Mat3 {
            m11: v.x.dup(),
            m12: Ratio::from_int(0),
            m13: Ratio::from_int(0),
            m21: Ratio::from_int(0),
            m22: v.y.dup(),
            m23: Ratio::from_int(0),
            m31: Ratio::from_int(0),
            m32: Ratio::from_int(0),
            m33: Ratio::from_int(1),
        }
    }

    /// Plane rotation by the angle whose sine and cosine the caller supplies.
    pub fn rotate(rot_sin: &Ratio, rot_cos: &Ratio) -> (r: Mat3)
        requires
            rot_sin.wf(),
            rot_cos.wf(),
        ensures
            r@ == m3_rot_z(rot_sin@, rot_cos@),
            r.wf(),
    {
        Mat3 {
            m11: rot_cos.dup(),
            m12: rot_sin.neg(),
            m13: Ratio::from_int(0),
            m21: rot_sin.dup(),
            m22: rot_cos.dup(),
            m23: Ratio::from_int(0),
            m31: Ratio::from_int(0),
            m32: Ratio::from_int(0),
            m33: Ratio::from_int(1),
        }
    }

    /// Rotation about the x axis by the angle whose sine and cosine the caller
    /// supplies.
    pub fn rotate_x(rot_sin: &Ratio, rot_cos: &Ratio) -> (r: Mat3)
        requires
            rot_sin.wf(),
            rot_cos.wf(),
        ensures
            r@ == m3_rot_x(rot_sin@, rot_cos@),
            r.wf(),
    {
        Mat3 {
            m11: Ratio::from_int(1),
            m12: Ratio::from_int(0),
            m13: Ratio::from_int(0),
            m21: Ratio::from_int(0),
            m22: rot_cos.dup(),
            m23: rot_sin.neg(),
            m31: Ratio::from_int(0),
            m32: rot_sin.dup(),
            m33: rot_cos.dup(),
        }
    }

    pub fn transpose(&self) -> (r: Mat3)
        ensures
            r@ == m3_transpose(self@),
    {
        Mat3 {
            m11: self.m11.dup(),
            m12: self.m21.dup(),
            m13: self.m31.dup(),
            m21: self.m12.dup(),
            m22: self.m22.dup(),
            m23: self.m32.dup(),
            m31: self.m13.dup(),
            m32: self.m23.dup(),
            m33: self.m33.dup(),
        }
    }

    /// Matrix product; composition of affine maps.
    pub fn mul(&self, o: &Mat3) -> (r: Mat3)
        requires
            self.wf(),
            o.wf(),
        ensures
            r@ == m3_mul(self@, o@),
            r.wf(),
    {
        Mat3 {
            m11: self.m11.mul(&o.m11).add(&self.m12.mul(&o.m21)).add(&self.m13.mul(&o.m31)),
            m12: self.m11.mul(&o.m12).add(&self.m12.mul(&o.m22)).add(&self.m13.mul(&o.m32)),
            m13: self.m11.mul(&o.m13).add(&self.m12.mul(&o.m23)).add(&self.m13.mul(&o.m33)),
            m21: self.m21.mul(&o.m11).add(&self.m22.mul(&o.m21)).add(&self.m23.mul(&o.m31)),
            m22: self.m21.mul(&o.m12).add(&self.m22.mul(&o.m22)).add(&self.m23.mul(&o.m32)),
            m23: self.m21.mul(&o.m13).add(&self.m22.mul(&o.m23)).add(&self.m23.mul(&o.m33)),
            m31: self.m31.mul(&o.m11).add(&self.m32.mul(&o.m21)).add(&self.m33.mul(&o.m31)),
            m32: self.m31.mul(&o.m12).add(&self.m32.mul(&o.m22)).add(&self.m33.mul(&o.m32)),
            m33: self.m31.mul(&o.m13).add(&self.m32.mul(&o.m23)).add(&self.m33.mul(&o.m33)),
        }
    }

    pub fn det(&self) -> (r: Ratio)
        requires
            self.wf(),
        ensures
            r@ == m3_det(self@),
            r.wf(),
    {
        let t1 = self.m11.mul(&self.m22.mul(&self.m33).sub(&self.m23.mul(&self.m32)));
        let t2 = self.m12.mul(&self.m21.mul(&self.m33).sub(&self.m23.mul(&self.m31)));
        let t3 = self.m13.mul(&self.m21.mul(&self.m32).sub(&self.m22.mul(&self.m31)));
        t1.sub(&t2).add(&t3)
    }

    /// The inverse map. Fails exactly when the matrix is singular, that is,
    /// when its determinant is zero.
    pub fn inv(&self) -> (r: Option<Mat3>)
        requires
            self.wf(),
        ensures
            (r is None) <==> m3_det(self@).n == 0,
            r matches Some(i) ==> i@ == m3_inv(self@) && i.wf(),
    {
        let det = self.det();
        if det.num_is_zero() {
            None
        } else {
            Some(
                Mat3 {
                    m11: self.m22.mul(&self.m33).sub(&self.m23.mul(&self.m32)).div(&det),
                    m12: self.m13.mul(&self.m32).sub(&self.m12.mul(&self.m33)).div(&det),
                    m13: self.m12.mul(&self.m23).sub(&self.m13.mul(&self.m22)).div(&det),
                    m21: self.m23.mul(&self.m31).sub(&self.m21.mul(&self.m33)).div(&det),
                    m22: self.m11.mul(&self.m33).sub(&self.m13.mul(&self.m31)).div(&det),
                    m23: self.m13.mul(&self.m21).sub(&self.m11.mul(&self.m23)).div(&det),
                    m31: self.m21.mul(&self.m32).sub(&self.m22.mul(&self.m31)).div(&det),
                    m32: self.m12.mul(&self.m31).sub(&self.m11.mul(&self.m32)).div(&det),
                    m33: self.m11.mul(&self.m22).sub(&self.m12.mul(&self.m21)).div(&det),
                },
            )
        }
    }
}

} // verus!
