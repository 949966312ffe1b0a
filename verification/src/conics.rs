//! Conic sections: an orbital ellipse in two equivalent algebraic forms.
//!
//! The canonical form gives center, semi-axes and rotation; the implicit form
//! gives the six coefficients of `A·x² + B·xy + C·y² + D·x + E·y + F = 0`.
//! The implicit form determines the curve only up to a common factor, so two
//! coefficient vectors that are proportional denote the same conic.
//!
//! Converting canonical → implicit needs the sine and cosine of the rotation
//! angle, and implicit → canonical needs square roots and an arc tangent;
//! those irrational values are supplied by the caller, and every contract is
//! an exact polynomial identity in them.

use vstd::prelude::*;
use crate::ratio::{Qs, Ratio, q_wf, q_int, q_add, q_mul, q_sub, q_neg, q_div, q_eqv, q_lt, q_le};
use crate::geom::{
    V2s,
    Vec2,
    v2_wf,
    M3s,
    Mat3,
    m3_mul,
    m3_transpose,
    m3_inv,
    m3_det,
    m3_id,
};

verus! {

/// Ghost model of the implicit form: the six quadratic coefficients.
pub struct ConicQs {
    pub a: Qs,
    pub b: Qs,
    pub c: Qs,
    pub d: Qs,
    pub e: Qs,
    pub f: Qs,
}

pub open spec fn conic_wf(c: ConicQs) -> bool {
    q_wf(c.a) && q_wf(c.b) && q_wf(c.c) && q_wf(c.d) && q_wf(c.e) && q_wf(c.f)
}

/// The two coefficient vectors denote the same conic with the same scale:
/// they agree coefficient by coefficient as rationals.
pub open spec fn conic_eqv(x: ConicQs, y: ConicQs) -> bool {
    q_eqv(x.a, y.a) && q_eqv(x.b, y.b) && q_eqv(x.c, y.c) && q_eqv(x.d, y.d) && q_eqv(x.e, y.e)
        && q_eqv(x.f, y.f)
}

/// Ghost model of the canonical form.
pub struct CanonQs {
    pub semi_axes: V2s,
    pub center: V2s,
    pub rotation: Qs,
}

pub open spec fn canon_wf(c: CanonQs) -> bool {
    v2_wf(c.semi_axes) && v2_wf(c.center) && q_wf(c.rotation)
}

pub open spec fn q_half() -> Qs {
    Qs { n: 1, d: 2 }
}

/// The discriminant `B² − 4·A·C`; negative exactly on genuine ellipses.
pub open spec fn conic_discr(c: ConicQs) -> Qs {
    q_sub(q_mul(c.b, c.b), q_mul(q_mul(q_int(4), c.a), c.c))
}

/// The implicit coefficients of the canonical ellipse whose rotation has sine
/// `s` and cosine `co`: the rotated, centered ellipse expanded into its
/// quadratic form.
pub open spec fn implicit_of_canonical(c: CanonQs, s: Qs, co: Qs) -> ConicQs {
    let ax = c.semi_axes.x;
    let ay = c.semi_axes.y;
    let cx = c.center.x;
    let cy = c.center.y;
    let axs = q_mul(ax, s);
    let ayc = q_mul(ay, co);
    let axc = q_mul(ax, co);
    let ays = q_mul(ay, s);
    let pa = q_add(q_mul(axs, axs), q_mul(ayc, ayc));
    let pc = q_add(q_mul(axc, axc), q_mul(ays, ays));
    let pb = q_mul(q_mul(q_mul(q_int(2), q_sub(q_mul(ay, ay), q_mul(ax, ax))), s), co);
    let pd = q_sub(q_mul(q_mul(q_int(-2), pa), cx), q_mul(pb, cy));
    let pe = q_sub(q_mul(q_neg(pb), cx), q_mul(q_mul(q_int(2), pc), cy));
    let pf = q_sub(
        q_add(q_add(q_mul(q_mul(pa, cx), cx), q_mul(q_mul(pb, cx), cy)), q_mul(q_mul(pc, cy), cy)),
        q_mul(q_mul(ax, ax), q_mul(ay, ay)),
    );
    ConicQs { a: pa, b: pb, c: pc, d: pd, e: pe, f: pf }
}

/// The symmetric matrix of the quadratic form, off-diagonal entries halved.
pub open spec fn conic_to_matrix(c: ConicQs) -> M3s {
    M3s {
        m11: c.a,
        m12: q_mul(c.b, q_half()),
        m13: q_mul(c.d, q_half()),
        m21: q_mul(c.b, q_half()),
        m22: c.c,
        m23: q_mul(c.e, q_half()),
        m31: q_mul(c.d, q_half()),
        m32: q_mul(c.e, q_half()),
        m33: c.f,
    }
}

/// The implicit coefficients read back from a (not necessarily symmetric)
/// quadratic-form matrix: opposite off-diagonal entries are summed.
pub open spec fn conic_from_matrix(m: M3s) -> ConicQs {
    ConicQs {
        a: m.m11,
        b: q_add(m.m12, m.m21),
        c: m.m22,
        d: q_add(m.m13, m.m31),
        e: q_add(m.m23, m.m32),
        f: m.m33,
    }
}

/// The center of the ellipse with implicit coefficients `c`.
pub open spec fn canonical_center(c: ConicQs) -> V2s {
    let discr = conic_discr(c);
    V2s {
        x: q_div(q_sub(q_mul(q_mul(q_int(2), c.c), c.d), q_mul(c.b, c.e)), discr),
        y: q_div(q_sub(q_mul(q_mul(q_int(2), c.a), c.e), q_mul(c.b, c.d)), discr),
    }
}

/// The factor `2·(A·E² + C·D² − B·D·E + discr·F)` shared by both semi-axis
/// radicands.
pub open spec fn conic_axis_factor(c: ConicQs) -> Qs {
    q_mul(
        q_int(2),
        q_add(
            q_sub(
                q_add(q_mul(c.a, q_mul(c.e, c.e)), q_mul(c.c, q_mul(c.d, c.d))),
                q_mul(c.b, q_mul(c.d, c.e)),
            ),
            q_mul(conic_discr(c), c.f),
        ),
    )
}

/// The quantity whose square root separates the two semi-axes:
/// `(A − C)² + B²`.
pub open spec fn conic_axis_split(c: ConicQs) -> Qs {
    q_add(q_mul(q_sub(c.a, c.c), q_sub(c.a, c.c)), q_mul(c.b, c.b))
}

/// The square of the x semi-axis, given `t`, the caller's square root of
/// [`conic_axis_split`].
pub open spec fn axis_x_radicand(c: ConicQs, t: Qs) -> Qs {
    let discr = conic_discr(c);
    q_div(q_mul(conic_axis_factor(c), q_add(q_add(c.a, c.c), t)), q_mul(discr, discr))
}

/// The square of the y semi-axis, given `t` as above.
pub open spec fn axis_y_radicand(c: ConicQs, t: Qs) -> Qs {
    let discr = conic_discr(c);
    q_div(q_mul(conic_axis_factor(c), q_sub(q_add(c.a, c.c), t)), q_mul(discr, discr))
}

/// Implicit form of a conic section: the coefficients `A, B, C, D, E, F` of
/// `A·x² + B·xy + C·y² + D·x + E·y + F = 0`, in that order.
pub struct ImplicitConicSectionRepr(
    pub Ratio,
    pub Ratio,
    pub Ratio,
    pub Ratio,
    pub Ratio,
    pub Ratio,
);

impl View for ImplicitConicSectionRepr {
    type V = ConicQs;

    open spec fn view(&self) -> ConicQs {
        ConicQs { a: self.0@, b: self.1@, c: self.2@, d: self.3@, e: self.4@, f: self.5@ }
    }
}

/// Canonical form of an ellipse: semi-axes, center and rotation angle (in
/// radians; exact only as far as the caller's rational value for it is).
pub struct CanonicalEllipseRepr {
    pub semi_axes: Vec2,
    pub center: Vec2,
    pub rotation: Ratio,
}

impl View for CanonicalEllipseRepr {
    type V = CanonQs;

    open spec fn view(&self) -> CanonQs {
        CanonQs { semi_axes: self.semi_axes@, center: self.center@, rotation: self.rotation@ }
    }
}

/// What `ImplicitConicSectionRepr::to_canonical` recovers exactly: the center,
/// the squares of the two semi-axes, and the arguments whose half arc tangent
/// is the rotation angle. The caller takes the two square roots and the arc
/// tangent; when `rot_y` and `rot_x` are both zero the ellipse is axis-aligned
/// and the rotation is zero.
pub struct CanonicalParts {
    pub center: Vec2,
    pub axis_x_radicand: Ratio,
    pub axis_y_radicand: Ratio,
    pub rot_y: Ratio,
    pub rot_x: Ratio,
}

impl ImplicitConicSectionRepr {
    pub open spec fn wf(&self) -> bool {
        conic_wf(self@)
    }

    pub fn dup(&self) -> (r: ImplicitConicSectionRepr)
        ensures
            r@ == self@,
    {
        ImplicitConicSectionRepr(
            self.0.dup(),
            self.1.dup(),
            self.2.dup(),
            self.3.dup(),
            self.4.dup(),
            self.5.dup(),
        )
    }

    /// The symmetric 3×3 matrix of the quadratic form.
    pub fn to_matrix(&self) -> (r: Mat3)
        requires
            self.wf(),
        ensures
            r@ == conic_to_matrix(self@),
            r.wf(),
    {
        let half = Ratio::new(1, 2);
        Mat3 {
            m11: self.0.dup(),
            m12: self.1.mul(&half),
            m13: self.3.mul(&half),
            m21: self.1.mul(&half),
            m22: self.2.dup(),
            m23: self.4.mul(&half),
            m31: self.3.mul(&half),
            m32: self.4.mul(&half),
            m33: self.5.dup(),
        }
    }

    /// The implicit coefficients read back from a quadratic-form matrix.
    pub fn from_matrix(m: &Mat3) -> (r: ImplicitConicSectionRepr)
        requires
            m.wf(),
        ensures
            r@ == conic_from_matrix(m@),
            r.wf(),
    {
        ImplicitConicSectionRepr(
            m.m11.dup(),
            m.m12.add(&m.m21),
            m.m22.dup(),
            m.m13.add(&m.m31),
            m.m23.add(&m.m32),
            m.m33.dup(),
        )
    }

    /// The discriminant `B² − 4·A·C`.
    pub fn discriminant(&self) -> (r: Ratio)
        requires
            self.wf(),
        ensures
            r@ == conic_discr(self@),
            r.wf(),
    {
        self.1.mul(&self.1).sub(&Ratio::from_int(4).mul(&self.0).mul(&self.2))
    }

    /// The quantity whose square root the caller hands to
    /// [`Self::to_canonical`].
    pub fn axis_split_radicand(&self) -> (r: Ratio)
        requires
            self.wf(),
        ensures
            r@ == conic_axis_split(self@),
            r.wf(),
    {
        let diff = self.0.sub(&self.2);
        diff.mul(&diff).add(&self.1.mul(&self.1))
    }

    /// Recovers the canonical parameters, exactly as far as they are rational:
    /// the center, the squares of the semi-axes, and the rotation as the pair
    /// whose half arc tangent it is. `axis_split_sqrt` is the caller's square
    /// root of [`Self::axis_split_radicand`].
    ///
    /// Fails exactly when the discriminant is not negative: then the
    /// coefficients do not describe an ellipse (or describe a degenerate one),
    /// an unsupported input that is detected rather than answered.
    pub fn to_canonical(&self, axis_split_sqrt: &Ratio) -> (r: Option<CanonicalParts>)
        requires
            self.wf(),
            axis_split_sqrt.wf(),
        ensures
            (r is None) <==> conic_discr(self@).n >= 0,
            r matches Some(p) ==> p.center@ == canonical_center(self@) && p.center.wf()
                && p.axis_x_radicand@ == axis_x_radicand(self@, axis_split_sqrt@)
                && p.axis_x_radicand.wf() && p.axis_y_radicand@ == axis_y_radicand(
                self@,
                axis_split_sqrt@,
            ) && p.axis_y_radicand.wf() && p.rot_y@ == q_neg(self@.b) && p.rot_y.wf()
                && p.rot_x@ == q_sub(self@.c, self@.a) && p.rot_x.wf(),
    {
        let discr = self.discriminant();
        if discr.num_is_neg() {
            let two = Ratio::from_int(2);
            let cx = two.mul(&self.2).mul(&self.3).sub(&self.1.mul(&self.4)).div(&discr);
            let cy = two.mul(&self.0).mul(&self.4).sub(&self.1.mul(&self.3)).div(&discr);
            let factor = two.mul(
                &self.0.mul(&self.4.mul(&self.4)).add(&self.2.mul(&self.3.mul(&self.3))).sub(
                    &self.1.mul(&self.3.mul(&self.4)),
                ).add(&discr.mul(&self.5)),
            );
            let discr2 = discr.mul(&discr);
            proof {
                assert(discr2@.n != 0) by (nonlinear_arith)
                    requires
                        discr2@.n == discr@.n * discr@.n,
                        discr@.n < 0,
                ;
            }
            let trace = self.0.add(&self.2);
            let rx = factor.mul(&trace.add(axis_split_sqrt)).div(&discr2);
            let ry = factor.mul(&trace.sub(axis_split_sqrt)).div(&discr2);
            Some(
                CanonicalParts {
                    center: Vec2 { x: cx, y: cy },
                    axis_x_radicand: rx,
                    axis_y_radicand: ry,
                    rot_y: self.1.neg(),
                    rot_x: self.2.sub(&self.0),
                },
            )
        } else {
            None
        }
    }
}

impl CanonicalEllipseRepr {
    pub open spec fn wf(&self) -> bool {
        canon_wf(self@)
    }

    pub fn dup(&self) -> (r: CanonicalEllipseRepr)
        ensures
            r@ == self@,
    {
        CanonicalEllipseRepr {
            semi_axes: self.semi_axes.dup(),
            center: self.center.dup(),
            rotation: self.rotation.dup(),
        }
    }

    /// Expands the rotated, centered ellipse into its six implicit
    /// coefficients; `rot_sin` and `rot_cos` are the caller's sine and cosine
    /// of the rotation angle.
    pub fn to_implicit(&self, rot_sin: &Ratio, rot_cos: &Ratio) -> (r: ImplicitConicSectionRepr)
        requires
            self.wf(),
            rot_sin.wf(),
            rot_cos.wf(),
        ensures
            r@ == implicit_of_canonical(self@, rot_sin@, rot_cos@),
            r.wf(),
    {
        let ax = &self.semi_axes.x;
        let ay = &self.semi_axes.y;
        let cx = &self.center.x;
        let cy = &self.center.y;
        let axs = ax.mul(rot_sin);
        let ayc = ay.mul(rot_cos);
        let axc = ax.mul(rot_cos);
        let ays = ay.mul(rot_sin);
        let pa = axs.mul(&axs).add(&ayc.mul(&ayc));
        let pc = axc.mul(&axc).add(&ays.mul(&ays));
        let pb = Ratio::from_int(2).mul(&ay.mul(ay).sub(&ax.mul(ax))).mul(rot_sin).mul(rot_cos);
        let pd = Ratio::from_int(-2).mul(&pa).mul(cx).sub(&pb.mul(cy));
        let pe = pb.neg().mul(cx).sub(&Ratio::from_int(2).mul(&pc).mul(cy));
        let pf = pa.mul(cx).mul(cx).add(&pb.mul(cx).mul(cy)).add(&pc.mul(cy).mul(cy)).sub(
            &ax.mul(ax).mul(&ay.mul(ay)),
        );
        ImplicitConicSectionRepr(pa, pb, pc, pd, pe, pf)
    }

    /// The point of the ellipse at eccentric anomaly `E`, whose sine and
    /// cosine the caller supplies: `center + (a·cos E, b·sin E)` in the
    /// unrotated frame.
    pub fn point(&self, sin_e: &Ratio, cos_e: &Ratio) -> (r: Vec2)
        requires
            self.wf(),
            sin_e.wf(),
            cos_e.wf(),
        ensures
            r@.x == q_add(self@.center.x, q_mul(self@.semi_axes.x, cos_e@)),
            r@.y == q_add(self@.center.y, q_mul(self@.semi_axes.y, sin_e@)),
            r.wf(),
    {
        Vec2 {
            x: self.center.x.add(&self.semi_axes.x.mul(cos_e)),
            y: self.center.y.add(&self.semi_axes.y.mul(sin_e)),
        }
    }
}

impl Default for CanonicalEllipseRepr {
    /// The degenerate ellipse at the origin: both semi-axes zero.
    fn default() -> (r: CanonicalEllipseRepr)
        ensures
            r@.semi_axes.x == q_int(0),
            r@.semi_axes.y == q_int(0),
            r@.center.x == q_int(0),
            r@.center.y == q_int(0),
            r@.rotation == q_int(0),
            r.wf(),
    {
        CanonicalEllipseRepr {
            semi_axes: Vec2 { x: Ratio::from_int(0), y: Ratio::from_int(0) },
            center: Vec2 { x: Ratio::from_int(0), y: Ratio::from_int(0) },
            rotation: Ratio::from_int(0),
        }
    }
}

/// Ghost model of an [`Ellipse`].
pub enum EllipseQs {
    Canonical(CanonQs),
    Implicit(ConicQs),
}

/// An ellipse carried in whichever of the two forms it was produced.
pub enum Ellipse {
    Canonical(CanonicalEllipseRepr),
    Implicit(ImplicitConicSectionRepr),
}

impl View for Ellipse {
    type V = EllipseQs;

    open spec fn view(&self) -> EllipseQs {
        match self {
            Ellipse::Canonical(x) => EllipseQs::Canonical(x@),
            Ellipse::Implicit(x) => EllipseQs::Implicit(x@),
        }
    }
}

/// The canonical ellipse of a circle of the given radius about the origin.
pub open spec fn circle_spec(radius: Qs) -> CanonQs {
    CanonQs {
        semi_axes: V2s { x: radius, y: radius },
        center: V2s { x: q_int(0), y: q_int(0) },
        rotation: q_int(0),
    }
}

/// The canonical ellipse of the orbit with the given periapsis distance and
/// eccentricity, the focus at the origin and the periapsis on the +x axis:
/// `a = pe/(1−e)`, `b = a·root` where `root` stands for `√(1−e²)`, center
/// `(pe − a, 0)`.
pub open spec fn from_orbital_spec(pe: Qs, ecc: Qs, root: Qs) -> CanonQs {
    let a = q_div(pe, q_sub(q_int(1), ecc));
    CanonQs {
        semi_axes: V2s { x: a, y: q_mul(a, root) },
        center: V2s { x: q_sub(pe, a), y: q_int(0) },
        rotation: q_int(0),
    }
}

/// The implicit coefficients of an ellipse in either form, with `s`, `co` the
/// sine and cosine of the rotation angle of the canonical form (unused for the
/// implicit form).
pub open spec fn ellipse_implicit_spec(e: EllipseQs, s: Qs, co: Qs) -> ConicQs {
    match e {
        EllipseQs::Canonical(x) => implicit_of_canonical(x, s, co),
        EllipseQs::Implicit(x) => x,
    }
}

/// The implicit coefficients of the image of the conic `c` under the affine
/// map `m`: the congruence transform `Aᵀ·M·A` of its quadratic form by the
/// inverse `A` of `m`.
pub open spec fn transform_spec(m: M3s, c: ConicQs) -> ConicQs {
    conic_from_matrix(
        m3_mul(m3_mul(m3_transpose(m3_inv(m)), conic_to_matrix(c)), m3_inv(m)),
    )
}

impl Ellipse {
    pub open spec fn wf(&self) -> bool {
        match self {
            Ellipse::Canonical(x) => x.wf(),
            Ellipse::Implicit(x) => x.wf(),
        }
    }

    /// A circle of the given radius about the origin.
    pub fn new_circle(radius: Ratio) -> (r: Ellipse)
        requires
            radius.wf(),
        ensures
            r@ == EllipseQs::Canonical(circle_spec(radius@)),
            r.wf(),
    {
        Ellipse::Canonical(
            CanonicalEllipseRepr {
                semi_axes: Vec2 { x: radius.dup(), y: radius },
                center: Vec2 { x: Ratio::from_int(0), y: Ratio::from_int(0) },
                rotation: Ratio::from_int(0),
            },
        )
    }

    /// The orbit with the given periapsis distance (positive) and eccentricity
    /// (in `[0, 1)`), as a canonical ellipse with the focus at the origin and
    /// the periapsis on the +x axis. `minor_axis_root` is the caller's value
    /// for `√(1−e²)`; the contract fixes the semi-minor axis as `a` times it.
    pub fn from_orbital(periapsis: &Ratio, eccentr: &Ratio, minor_axis_root: &Ratio) -> (r: Ellipse)
        requires
            periapsis.wf(),
            eccentr.wf(),
            minor_axis_root.wf(),
            q_lt(q_int(0), periapsis@),
            q_le(q_int(0), eccentr@),
            q_lt(eccentr@, q_int(1)),
        ensures
            r@ == EllipseQs::Canonical(from_orbital_spec(periapsis@, eccentr@, minor_axis_root@)),
            r.wf(),
    {
        let one_minus = Ratio::from_int(1).sub(eccentr);
        let a = periapsis.div(&one_minus);
        let b = a.mul(minor_axis_root);
        let cx = periapsis.sub(&a);
        Ellipse::Canonical(
            CanonicalEllipseRepr {
                semi_axes: Vec2 { x: a, y: b },
                center: Vec2 { x: cx, y: Ratio::from_int(0) },
                rotation: Ratio::from_int(0),
            },
        )
    }

    /// The implicit form: the identity on an implicit ellipse, the expansion
    /// of the quadratic form on a canonical one. `rot_sin` and `rot_cos` are
    /// the caller's sine and cosine of the canonical rotation angle (ignored
    /// for the implicit form).
    pub fn to_implicit(&self, rot_sin: &Ratio, rot_cos: &Ratio) -> (r: ImplicitConicSectionRepr)
        requires
            self.wf(),
            rot_sin.wf(),
            rot_cos.wf(),
        ensures
            r@ == ellipse_implicit_spec(self@, rot_sin@, rot_cos@),
            r.wf(),
    {
        match self {
            Ellipse::Canonical(x) => x.to_implicit(rot_sin, rot_cos),
            Ellipse::Implicit(x) => x.dup(),
        }
    }

    /// The image of the ellipse under the affine map `map`: the quadratic form
    /// is carried through the congruence rule by the inverse of `map`. Fails
    /// exactly when `map` is singular — a degenerate projection has no
    /// ellipse image, and the caller skips it.
    pub fn transform(&self, map: &Mat3, rot_sin: &Ratio, rot_cos: &Ratio) -> (r: Option<Ellipse>)
        requires
            self.wf(),
            map.wf(),
            rot_sin.wf(),
            rot_cos.wf(),
        ensures
            (r is None) <==> m3_det(map@).n == 0,
            r matches Some(e2) ==> (e2 matches Ellipse::Implicit(c2) && c2@ == transform_spec(
                map@,
                ellipse_implicit_spec(self@, rot_sin@, rot_cos@),
            ) && c2.wf()),
    {
        match map.inv() {
            None => None,
            Some(a) => {
                let m = self.to_implicit(rot_sin, rot_cos).to_matrix();
                let n = a.transpose().mul(&m).mul(&a);
                Some(Ellipse::Implicit(ImplicitConicSectionRepr::from_matrix(&n)))
            },
        }
    }
}

/// Law (focus-to-periapsis invariant): for every admissible periapsis
/// distance, eccentricity and minor-axis root, the canonical ellipse built by
/// `from_orbital` satisfies `center.x + semi_axes.x == periapsis` exactly —
/// the focus sits at the origin, one semi-major axis short of the periapsis.
pub proof fn lemma_from_orbital_focus_periapsis(pe: Qs, ecc: Qs, root: Qs)
    requires
        q_wf(pe),
        q_wf(ecc),
        q_wf(root),
        q_lt(q_int(0), pe),
        q_le(q_int(0), ecc),
        q_lt(ecc, q_int(1)),
    ensures
        ({
            let c = from_orbital_spec(pe, ecc, root);
            q_eqv(q_add(c.center.x, c.semi_axes.x), pe)
        }),
{
    let a = q_div(pe, q_sub(q_int(1), ecc));
    let c = from_orbital_spec(pe, ecc, root);
    assert(c.center.x == q_sub(pe, a));
    assert(c.semi_axes.x == a);
    let lhs = q_add(q_sub(pe, a), a);
    assert(lhs.n == (pe.n * a.d - a.n * pe.d) * a.d + a.n * (pe.d * a.d));
    assert(lhs.d == (pe.d * a.d) * a.d);
    assert(lhs.n * pe.d == pe.n * lhs.d) by (nonlinear_arith)
        requires
            lhs.n == (pe.n * a.d - a.n * pe.d) * a.d + a.n * (pe.d * a.d),
            lhs.d == (pe.d * a.d) * a.d,
    ;
}

/// The value of a row-times-column sum whose left factors are `1, 0, 0`: the
/// first entry, scaled by the denominators of the other two.
proof fn lemma_dot_left_1(x: Qs, y: Qs, z: Qs)
    ensures
        ({
            let p = q_add(q_add(q_mul(q_int(1), x), q_mul(q_int(0), y)), q_mul(q_int(0), z));
            p.n == (x.n * y.d) * z.d && p.d == (x.d * y.d) * z.d
        }),
{
    let ha = q_mul(q_int(1), x);
    let hb = q_mul(q_int(0), y);
    let hc = q_mul(q_int(0), z);
    assert(ha.n == x.n && ha.d == x.d);
    assert(hb.n == 0 && hb.d == y.d);
    assert(hc.n == 0 && hc.d == z.d);
    let i = q_add(ha, hb);
    assert(i.n == ha.n * hb.d + hb.n * ha.d && i.d == ha.d * hb.d);
    assert(i.n == x.n * y.d && i.d == x.d * y.d);
    let p = q_add(i, hc);
    assert(p.n == i.n * hc.d + hc.n * i.d && p.d == i.d * hc.d);
    assert(p.n == (x.n * y.d) * z.d && p.d == (x.d * y.d) * z.d);
}

/// As above with left factors `0, 1, 0`.
proof fn lemma_dot_left_2(x: Qs, y: Qs, z: Qs)
    ensures
        ({
            let p = q_add(q_add(q_mul(q_int(0), x), q_mul(q_int(1), y)), q_mul(q_int(0), z));
            p.n == (y.n * x.d) * z.d && p.d == (x.d * y.d) * z.d
        }),
{
    let ha = q_mul(q_int(0), x);
    let hb = q_mul(q_int(1), y);
    let hc = q_mul(q_int(0), z);
    assert(ha.n == 0 && ha.d == x.d);
    assert(hb.n == y.n && hb.d == y.d);
    assert(hc.n == 0 && hc.d == z.d);
    let i = q_add(ha, hb);
    assert(i.n == ha.n * hb.d + hb.n * ha.d && i.d == ha.d * hb.d);
    assert(i.n == y.n * x.d && i.d == x.d * y.d);
    let p = q_add(i, hc);
    assert(p.n == i.n * hc.d + hc.n * i.d && p.d == i.d * hc.d);
    assert(p.n == (y.n * x.d) * z.d && p.d == (x.d * y.d) * z.d);
}

/// As above with left factors `0, 0, 1`.
proof fn lemma_dot_left_3(x: Qs, y: Qs, z: Qs)
    ensures
        ({
            let p = q_add(q_add(q_mul(q_int(0), x), q_mul(q_int(0), y)), q_mul(q_int(1), z));
            p.n == z.n * (x.d * y.d) && p.d == (x.d * y.d) * z.d
        }),
{
    let ha = q_mul(q_int(0), x);
    let hb = q_mul(q_int(0), y);
    let hc = q_mul(q_int(1), z);
    assert(ha.n == 0 && ha.d == x.d);
    assert(hb.n == 0 && hb.d == y.d);
    assert(hc.n == z.n && hc.d == z.d);
    let i = q_add(ha, hb);
    assert(i.n == ha.n * hb.d + hb.n * ha.d && i.d == ha.d * hb.d);
    assert(i.n == 0 && i.d == x.d * y.d);
    let p = q_add(i, hc);
    assert(p.n == i.n * hc.d + hc.n * i.d && p.d == i.d * hc.d);
    assert(p.n == z.n * (x.d * y.d) && p.d == (x.d * y.d) * z.d);
}

/// The mirrored sums, with the identity factors on the right: `1, 0, 0`,
proof fn lemma_dot_right_1(x: Qs, y: Qs, z: Qs)
    ensures
        ({
            let p = q_add(q_add(q_mul(x, q_int(1)), q_mul(y, q_int(0))), q_mul(z, q_int(0)));
            p.n == (x.n * y.d) * z.d && p.d == (x.d * y.d) * z.d
        }),
{
    let ha = q_mul(x, q_int(1));
    let hb = q_mul(y, q_int(0));
    let hc = q_mul(z, q_int(0));
    assert(ha.n == x.n && ha.d == x.d);
    assert(hb.n == 0 && hb.d == y.d);
    assert(hc.n == 0 && hc.d == z.d);
    let i = q_add(ha, hb);
    assert(i.n == ha.n * hb.d + hb.n * ha.d && i.d == ha.d * hb.d);
    assert(i.n == x.n * y.d && i.d == x.d * y.d);
    let p = q_add(i, hc);
    assert(p.n == i.n * hc.d + hc.n * i.d && p.d == i.d * hc.d);
    assert(p.n == (x.n * y.d) * z.d && p.d == (x.d * y.d) * z.d);
}

/// ... `0, 1, 0`,
proof fn lemma_dot_right_2(x: Qs, y: Qs, z: Qs)
    ensures
        ({
            let p = q_add(q_add(q_mul(x, q_int(0)), q_mul(y, q_int(1))), q_mul(z, q_int(0)));
            p.n == (y.n * x.d) * z.d && p.d == (x.d * y.d) * z.d
        }),
{
    let ha = q_mul(x, q_int(0));
    let hb = q_mul(y, q_int(1));
    let hc = q_mul(z, q_int(0));
    assert(ha.n == 0 && ha.d == x.d);
    assert(hb.n == y.n && hb.d == y.d);
    assert(hc.n == 0 && hc.d == z.d);
    let i = q_add(ha, hb);
    assert(i.n == ha.n * hb.d + hb.n * ha.d && i.d == ha.d * hb.d);
    assert(i.n == y.n * x.d && i.d == x.d * y.d);
    let p = q_add(i, hc);
    assert(p.n == i.n * hc.d + hc.n * i.d && p.d == i.d * hc.d);
    assert(p.n == (y.n * x.d) * z.d && p.d == (x.d * y.d) * z.d);
}

/// ... and `0, 0, 1`.
proof fn lemma_dot_right_3(x: Qs, y: Qs, z: Qs)
    ensures
        ({
            let p = q_add(q_add(q_mul(x, q_int(0)), q_mul(y, q_int(0))), q_mul(z, q_int(1)));
            p.n == z.n * (x.d * y.d) && p.d == (x.d * y.d) * z.d
        }),
{
    let ha = q_mul(x, q_int(0));
    let hb = q_mul(y, q_int(0));
    let hc = q_mul(z, q_int(1));
    assert(ha.n == 0 && ha.d == x.d);
    assert(hb.n == 0 && hb.d == y.d);
    assert(hc.n == z.n && hc.d == z.d);
    let i = q_add(ha, hb);
    assert(i.n == ha.n * hb.d + hb.n * ha.d && i.d == ha.d * hb.d);
    assert(i.n == 0 && i.d == x.d * y.d);
    let p = q_add(i, hc);
    assert(p.n == i.n * hc.d + hc.n * i.d && p.d == i.d * hc.d);
    assert(p.n == z.n * (x.d * y.d) && p.d == (x.d * y.d) * z.d);
}

/// Law (the two matrix forms agree): reading the quadratic-form matrix of a
/// conic back gives the same six coefficients as rationals — each halved
/// off-diagonal pair recombines exactly.
pub proof fn lemma_matrix_round_trip(c: ConicQs)
    requires
        conic_wf(c),
    ensures
        conic_eqv(conic_from_matrix(conic_to_matrix(c)), c),
{
    let m = conic_to_matrix(c);
    let out = conic_from_matrix(m);
    assert(out.a == c.a && out.c == c.c && out.f == c.f);
    assert(m.m12 == m.m21 && m.m13 == m.m31 && m.m23 == m.m32);
    assert(m.m12.n == c.b.n && m.m12.d == 2 * c.b.d);
    assert(m.m13.n == c.d.n && m.m13.d == 2 * c.d.d);
    assert(m.m23.n == c.e.n && m.m23.d == 2 * c.e.d);
    assert(out.b.n == m.m12.n * m.m21.d + m.m21.n * m.m12.d && out.b.d == m.m12.d * m.m21.d);
    assert(out.b.n * c.b.d == c.b.n * out.b.d) by (nonlinear_arith)
        requires
            out.b.n == m.m12.n * m.m21.d + m.m21.n * m.m12.d,
            out.b.d == m.m12.d * m.m21.d,
            m.m12.n == c.b.n,
            m.m12.d == 2 * c.b.d,
            m.m21.n == c.b.n,
            m.m21.d == 2 * c.b.d,
    ;
    assert(out.d.n == m.m13.n * m.m31.d + m.m31.n * m.m13.d && out.d.d == m.m13.d * m.m31.d);
    assert(out.d.n * c.d.d == c.d.n * out.d.d) by (nonlinear_arith)
        requires
            out.d.n == m.m13.n * m.m31.d + m.m31.n * m.m13.d,
            out.d.d == m.m13.d * m.m31.d,
            m.m13.n == c.d.n,
            m.m13.d == 2 * c.d.d,
            m.m31.n == c.d.n,
            m.m31.d == 2 * c.d.d,
    ;
    assert(out.e.n == m.m23.n * m.m32.d + m.m32.n * m.m23.d && out.e.d == m.m23.d * m.m32.d);
    assert(out.e.n * c.e.d == c.e.n * out.e.d) by (nonlinear_arith)
        requires
            out.e.n == m.m23.n * m.m32.d + m.m32.n * m.m23.d,
            out.e.d == m.m23.d * m.m32.d,
            m.m23.n == c.e.n,
            m.m23.d == 2 * c.e.d,
            m.m32.n == c.e.n,
            m.m32.d == 2 * c.e.d,
    ;
    assert(conic_eqv(out, c));
}

/// Law (identity transform is a no-op): the identity affine map is not
/// singular, and carrying any conic through the congruence transform by it
/// gives back the same six coefficients as rationals.
#[verifier::rlimit(50)]
pub proof fn lemma_transform_identity(c: ConicQs)
    requires
        conic_wf(c),
    ensures
        m3_det(m3_id()).n != 0,
        conic_eqv(transform_spec(m3_id(), c), c),
{
    assert(m3_inv(m3_id()) == m3_id());
    assert(m3_transpose(m3_id()) == m3_id());
    let m = conic_to_matrix(c);
    let p1 = m3_mul(m3_id(), m);
    let p2 = m3_mul(p1, m3_id());
    let out = transform_spec(m3_id(), c);
    assert(out == conic_from_matrix(p2));
    // The entries of the quadratic-form matrix over the coefficients.
    assert(m.m11 == c.a && m.m22 == c.c && m.m33 == c.f);
    assert(m.m12 == m.m21 && m.m13 == m.m31 && m.m23 == m.m32);
    assert(m.m12.n == c.b.n && m.m12.d == 2 * c.b.d);
    assert(m.m13.n == c.d.n && m.m13.d == 2 * c.d.d);
    assert(m.m23.n == c.e.n && m.m23.d == 2 * c.e.d);
    let b2 = m.m12.d;
    let d2 = m.m13.d;
    let e2 = m.m23.d;
    // The entries of id · m: each keeps its numerator, scaled by the other two
    // denominators of its column; column j sits over k_j throughout.
    let k1 = (c.a.d * b2) * d2;
    let k2 = (b2 * c.c.d) * e2;
    let k3 = (d2 * e2) * c.f.d;
    assert(p1.m11 == q_add(
        q_add(q_mul(q_int(1), m.m11), q_mul(q_int(0), m.m21)),
        q_mul(q_int(0), m.m31),
    ));
    lemma_dot_left_1(m.m11, m.m21, m.m31);
    assert(p1.m11.n == (c.a.n * b2) * d2 && p1.m11.d == k1);
    assert(p1.m21 == q_add(
        q_add(q_mul(q_int(0), m.m11), q_mul(q_int(1), m.m21)),
        q_mul(q_int(0), m.m31),
    ));
    lemma_dot_left_2(m.m11, m.m21, m.m31);
    assert(p1.m21.n == (c.b.n * c.a.d) * d2 && p1.m21.d == k1);
    assert(p1.m31 == q_add(
        q_add(q_mul(q_int(0), m.m11), q_mul(q_int(0), m.m21)),
        q_mul(q_int(1), m.m31),
    ));
    lemma_dot_left_3(m.m11, m.m21, m.m31);
    assert(p1.m31.n == c.d.n * (c.a.d * b2) && p1.m31.d == k1);
    assert(p1.m12 == q_add(
        q_add(q_mul(q_int(1), m.m12), q_mul(q_int(0), m.m22)),
        q_mul(q_int(0), m.m32),
    ));
    lemma_dot_left_1(m.m12, m.m22, m.m32);
    assert(p1.m12.n == (c.b.n * c.c.d) * e2 && p1.m12.d == k2);
    assert(p1.m22 == q_add(
        q_add(q_mul(q_int(0), m.m12), q_mul(q_int(1), m.m22)),
        q_mul(q_int(0), m.m32),
    ));
    lemma_dot_left_2(m.m12, m.m22, m.m32);
    assert(p1.m22.n == (c.c.n * b2) * e2 && p1.m22.d == k2);
    assert(p1.m32 == q_add(
        q_add(q_mul(q_int(0), m.m12), q_mul(q_int(0), m.m22)),
        q_mul(q_int(1), m.m32),
    ));
    lemma_dot_left_3(m.m12, m.m22, m.m32);
    assert(p1.m32.n == c.e.n * (b2 * c.c.d) && p1.m32.d == k2);
    assert(p1.m13 == q_add(
        q_add(q_mul(q_int(1), m.m13), q_mul(q_int(0), m.m23)),
        q_mul(q_int(0), m.m33),
    ));
    lemma_dot_left_1(m.m13, m.m23, m.m33);
    assert(p1.m13.n == (c.d.n * e2) * c.f.d && p1.m13.d == k3);
    assert(p1.m23 == q_add(
        q_add(q_mul(q_int(0), m.m13), q_mul(q_int(1), m.m23)),
        q_mul(q_int(0), m.m33),
    ));
    lemma_dot_left_2(m.m13, m.m23, m.m33);
    assert(p1.m23.n == (c.e.n * d2) * c.f.d && p1.m23.d == k3);
    assert(p1.m33 == q_add(
        q_add(q_mul(q_int(0), m.m13), q_mul(q_int(0), m.m23)),
        q_mul(q_int(1), m.m33),
    ));
    lemma_dot_left_3(m.m13, m.m23, m.m33);
    assert(p1.m33.n == c.f.n * (d2 * e2) && p1.m33.d == k3);
    // The entries of (id · m) · id: every entry sits over the same
    // denominator kk.
    let kk = (k1 * k2) * k3;
    assert(p2.m11 == q_add(
        q_add(q_mul(p1.m11, q_int(1)), q_mul(p1.m12, q_int(0))),
        q_mul(p1.m13, q_int(0)),
    ));
    lemma_dot_right_1(p1.m11, p1.m12, p1.m13);
    assert(p2.m11.n == (p1.m11.n * k2) * k3 && p2.m11.d == kk);
    assert(p2.m12 == q_add(
        q_add(q_mul(p1.m11, q_int(0)), q_mul(p1.m12, q_int(1))),
        q_mul(p1.m13, q_int(0)),
    ));
    lemma_dot_right_2(p1.m11, p1.m12, p1.m13);
    assert(p2.m12.n == (p1.m12.n * k1) * k3 && p2.m12.d == kk);
    assert(p2.m13 == q_add(
        q_add(q_mul(p1.m11, q_int(0)), q_mul(p1.m12, q_int(0))),
        q_mul(p1.m13, q_int(1)),
    ));
    lemma_dot_right_3(p1.m11, p1.m12, p1.m13);
    assert(p2.m13.n == p1.m13.n * (k1 * k2) && p2.m13.d == kk);
    assert(p2.m21 == q_add(
        q_add(q_mul(p1.m21, q_int(1)), q_mul(p1.m22, q_int(0))),
        q_mul(p1.m23, q_int(0)),
    ));
    lemma_dot_right_1(p1.m21, p1.m22, p1.m23);
    assert(p2.m21.n == (p1.m21.n * k2) * k3 && p2.m21.d == kk);
    assert(p2.m22 == q_add(
        q_add(q_mul(p1.m21, q_int(0)), q_mul(p1.m22, q_int(1))),
        q_mul(p1.m23, q_int(0)),
    ));
    lemma_dot_right_2(p1.m21, p1.m22, p1.m23);
    assert(p2.m22.n == (p1.m22.n * k1) * k3 && p2.m22.d == kk);
    assert(p2.m23 == q_add(
        q_add(q_mul(p1.m21, q_int(0)), q_mul(p1.m22, q_int(0))),
        q_mul(p1.m23, q_int(1)),
    ));
    lemma_dot_right_3(p1.m21, p1.m22, p1.m23);
    assert(p2.m23.n == p1.m23.n * (k1 * k2) && p2.m23.d == kk);
    assert(p2.m31 == q_add(
        q_add(q_mul(p1.m31, q_int(1)), q_mul(p1.m32, q_int(0))),
        q_mul(p1.m33, q_int(0)),
    ));
    lemma_dot_right_1(p1.m31, p1.m32, p1.m33);
    assert(p2.m31.n == (p1.m31.n * k2) * k3 && p2.m31.d == kk);
    assert(p2.m32 == q_add(
        q_add(q_mul(p1.m31, q_int(0)), q_mul(p1.m32, q_int(1))),
        q_mul(p1.m33, q_int(0)),
    ));
    lemma_dot_right_2(p1.m31, p1.m32, p1.m33);
    assert(p2.m32.n == (p1.m32.n * k1) * k3 && p2.m32.d == kk);
    assert(p2.m33 == q_add(
        q_add(q_mul(p1.m31, q_int(0)), q_mul(p1.m32, q_int(0))),
        q_mul(p1.m33, q_int(1)),
    ));
    lemma_dot_right_3(p1.m31, p1.m32, p1.m33);
    assert(p2.m33.n == p1.m33.n * (k1 * k2) && p2.m33.d == kk);
    // Each read-back coefficient is the original, scaled by a positive
    // common factor.
    assert(out.a == p2.m11);
    assert(out.a.n * c.a.d == c.a.n * out.a.d) by (nonlinear_arith)
        requires
            out.a.n == (p1.m11.n * k2) * k3,
            out.a.d == (k1 * k2) * k3,
            p1.m11.n == (c.a.n * b2) * d2,
            k1 == (c.a.d * b2) * d2,
    ;
    assert(out.b == q_add(p2.m12, p2.m21));
    assert(out.b.n == p2.m12.n * p2.m21.d + p2.m21.n * p2.m12.d && out.b.d == p2.m12.d
        * p2.m21.d);
    assert(p2.m12.n == p2.m21.n) by (nonlinear_arith)
        requires
            p2.m12.n == (p1.m12.n * k1) * k3,
            p2.m21.n == (p1.m21.n * k2) * k3,
            p1.m12.n == (c.b.n * c.c.d) * e2,
            p1.m21.n == (c.b.n * c.a.d) * d2,
            k1 == (c.a.d * b2) * d2,
            k2 == (b2 * c.c.d) * e2,
    ;
    assert(out.b.n == 2 * (p2.m12.n * kk) && out.b.d == kk * kk);
    assert(p2.m12.n == (((c.b.n * c.c.d) * e2) * k1) * k3);
    assert(p2.m12.n * b2 == c.b.n * kk) by (nonlinear_arith)
        requires
            p2.m12.n == (((c.b.n * c.c.d) * e2) * k1) * k3,
            kk == (k1 * k2) * k3,
            k2 == (b2 * c.c.d) * e2,
    ;
    assert(out.b.n * c.b.d == c.b.n * out.b.d) by (nonlinear_arith)
        requires
            out.b.n == 2 * (p2.m12.n * kk),
            out.b.d == kk * kk,
            p2.m12.n * b2 == c.b.n * kk,
            b2 == 2 * c.b.d,
    ;
    assert(out.c == p2.m22);
    assert(out.c.n * c.c.d == c.c.n * out.c.d) by (nonlinear_arith)
        requires
            out.c.n == (p1.m22.n * k1) * k3,
            out.c.d == (k1 * k2) * k3,
            p1.m22.n == (c.c.n * b2) * e2,
            k2 == (b2 * c.c.d) * e2,
    ;
    assert(out.d == q_add(p2.m13, p2.m31));
    assert(out.d.n == p2.m13.n * p2.m31.d + p2.m31.n * p2.m13.d && out.d.d == p2.m13.d
        * p2.m31.d);
    assert(p2.m13.n == p2.m31.n) by (nonlinear_arith)
        requires
            p2.m13.n == p1.m13.n * (k1 * k2),
            p2.m31.n == (p1.m31.n * k2) * k3,
            p1.m13.n == (c.d.n * e2) * c.f.d,
            p1.m31.n == c.d.n * (c.a.d * b2),
            k1 == (c.a.d * b2) * d2,
            k3 == (d2 * e2) * c.f.d,
    ;
    assert(out.d.n == 2 * (p2.m13.n * kk) && out.d.d == kk * kk);
    assert(out.d.n * c.d.d == c.d.n * out.d.d) by (nonlinear_arith)
        requires
            out.d.n == 2 * (p2.m13.n * kk),
            out.d.d == kk * kk,
            p2.m13.n == p1.m13.n * (k1 * k2),
            p1.m13.n == (c.d.n * e2) * c.f.d,
            kk == (k1 * k2) * k3,
            k3 == (d2 * e2) * c.f.d,
            d2 == 2 * c.d.d,
    ;
    assert(out.e == q_add(p2.m23, p2.m32));
    assert(out.e.n == p2.m23.n * p2.m32.d + p2.m32.n * p2.m23.d && out.e.d == p2.m23.d
        * p2.m32.d);
    assert(p2.m23.n == p2.m32.n) by (nonlinear_arith)
        requires
            p2.m23.n == p1.m23.n * (k1 * k2),
            p2.m32.n == (p1.m32.n * k1) * k3,
            p1.m23.n == (c.e.n * d2) * c.f.d,
            p1.m32.n == c.e.n * (b2 * c.c.d),
            k2 == (b2 * c.c.d) * e2,
            k3 == (d2 * e2) * c.f.d,
    ;
    assert(out.e.n == 2 * (p2.m23.n * kk) && out.e.d == kk * kk);
    assert(out.e.n * c.e.d == c.e.n * out.e.d) by (nonlinear_arith)
        requires
            out.e.n == 2 * (p2.m23.n * kk),
            out.e.d == kk * kk,
            p2.m23.n == p1.m23.n * (k1 * k2),
            p1.m23.n == (c.e.n * d2) * c.f.d,
            kk == (k1 * k2) * k3,
            k3 == (d2 * e2) * c.f.d,
            e2 == 2 * c.e.d,
    ;
    assert(out.f == p2.m33);
    assert(out.f.n * c.f.d == c.f.n * out.f.d) by (nonlinear_arith)
        requires
            out.f.n == p1.m33.n * (k1 * k2),
            out.f.d == (k1 * k2) * k3,
            p1.m33.n == c.f.n * (d2 * e2),
            k3 == (d2 * e2) * c.f.d,
    ;
    assert(conic_eqv(out, c));
}
} // verus!
