//! Orbits: the in-plane trajectory, the orientation of the orbital plane, and
//! the Newton iteration that inverts Kepler's equation.
//!
//! The solver is driven step by step: the caller evaluates the sine and
//! cosine of the current iterate between steps (those are the only
//! non-rational quantities in the iteration) and [`KeplerSolver::advance`]
//! does one exactly-specified Newton step. The iteration cap and both
//! stopping rules live here, verified: a solve never runs more than
//! [`MAX_ITERATIONS`] steps and never hands back a stale iterate silently.

use vstd::prelude::*;
use crate::ratio::{
    Qs,
    Ratio,
    q_wf,
    q_int,
    q_add,
    q_mul,
    q_sub,
    q_neg,
    q_div,
    q_eqv,
    q_lt,
    q_le,
    q_abs,
    q_round,
};
use crate::geom::{Vec2, Mat3, m3_mul, m3_rot_z, m3_rot_x};
use crate::conics::{Ellipse, EllipseQs, from_orbital_spec};

verus! {

/// Numerator of the closest rational to 2π that a 64-bit float can hold.
pub const TAU_NUM: i128 = 884279719003555;

/// Denominator of the same: 2^47.
pub const TAU_DEN: i128 = 140737488355328;

/// Denominator of half of it: 2^48.
pub const TAU_HALF_DEN: i128 = 281474976710656;

/// Iteration cap of the Kepler solver.
pub const MAX_ITERATIONS: u8 = 20;

/// Newton iterates are rounded down to multiples of 1/2^52, the granularity
/// of a 64-bit float near one; an update smaller than that can register as a
/// plateau, as rounding does in a floating-point implementation, and an
/// iterate in the admissible range converts to a 64-bit float exactly.
pub const KEPLER_SCALE: i128 = 4503599627370496;

/// 2π, to the precision of a 64-bit float, as an exact rational.
pub open spec fn q_tau() -> Qs {
    Qs { n: TAU_NUM as int, d: TAU_DEN as int }
}

/// Half of [`q_tau`].
pub open spec fn q_half_tau() -> Qs {
    Qs { n: TAU_NUM as int, d: TAU_HALF_DEN as int }
}

/// The residual tolerance of the Kepler solver: 1e-15, exactly.
pub open spec fn q_kepler_tol() -> Qs {
    Qs { n: 1, d: 1000000000000000 }
}

/// Ghost model of an orbital plane: its three orientation angles.
pub struct PlaneQs {
    pub lon_asc_node: Qs,
    pub inclination: Qs,
    pub arg_peri: Qs,
}

/// The orientation of an orbital plane: longitude of the ascending node,
/// inclination, and argument of periapsis, all in radians (exact only as far
/// as the caller's rational values for them are).
pub struct Plane {
    pub lon_asc_node: Ratio,
    pub inclination: Ratio,
    pub arg_peri: Ratio,
}

impl View for Plane {
    type V = PlaneQs;

    open spec fn view(&self) -> PlaneQs {
        PlaneQs {
            lon_asc_node: self.lon_asc_node@,
            inclination: self.inclination@,
            arg_peri: self.arg_peri@,
        }
    }
}

/// The sines and cosines of the three angles of a [`Plane`], evaluated by the
/// caller.
pub struct PlaneTrig {
    pub sin_lon: Ratio,
    pub cos_lon: Ratio,
    pub sin_inc: Ratio,
    pub cos_inc: Ratio,
    pub sin_arg: Ratio,
    pub cos_arg: Ratio,
}

impl PlaneTrig {
    pub open spec fn wf(&self) -> bool {
        q_wf(self.sin_lon@) && q_wf(self.cos_lon@) && q_wf(self.sin_inc@) && q_wf(self.cos_inc@)
            && q_wf(self.sin_arg@) && q_wf(self.cos_arg@)
    }
}

impl Plane {
    /// The rotation taking plane-local coordinates (periapsis on the local +x
    /// axis) into the embedding frame:
    /// `Rz(lon_asc_node) · Rx(inclination) · Rz(arg_peri)`, built from the
    /// caller's sines and cosines of the three angles.
    pub fn to_matrix(&self, trig: &PlaneTrig) -> (r: Mat3)
        requires
            trig.wf(),
        ensures
            r@ == m3_mul(
                m3_mul(
                    m3_rot_z(trig.sin_lon@, trig.cos_lon@),
                    m3_rot_x(trig.sin_inc@, trig.cos_inc@),
                ),
                m3_rot_z(trig.sin_arg@, trig.cos_arg@),
            ),
            r.wf(),
    {
        Mat3::rotate(&trig.sin_lon, &trig.cos_lon).mul(
            &Mat3::rotate_x(&trig.sin_inc, &trig.cos_inc),
        ).mul(&Mat3::rotate(&trig.sin_arg, &trig.cos_arg))
    }
}

/// Ghost model of a planar trajectory.
pub struct PlanarQs {
    pub periapsis: Qs,
    pub eccentr: Qs,
}

/// The in-plane shape of an orbit: periapsis distance (positive) and
/// eccentricity (nonnegative; below one the orbit is closed).
pub struct PlanarTrajectory {
    pub periapsis: Ratio,
    pub eccentr: Ratio,
}

impl View for PlanarTrajectory {
    type V = PlanarQs;

    open spec fn view(&self) -> PlanarQs {
        PlanarQs { periapsis: self.periapsis@, eccentr: self.eccentr@ }
    }
}

/// An orbit: the orientation of its plane and its in-plane shape.
pub struct Trajectory {
    pub p: Plane,
    pub t: PlanarTrajectory,
}

/// The radicand of the period formula: `r³/mu` with `r = periapsis/(1−e)`.
pub open spec fn period_radicand_spec(t: PlanarQs, mu: Qs) -> Qs {
    let r = q_div(t.periapsis, q_sub(q_int(1), t.eccentr));
    q_div(q_mul(q_mul(r, r), r), mu)
}

/// The x coordinate of the apoapsis: `periapsis − 2·a` with
/// `a = periapsis/(1−e)`.
pub open spec fn apoapsis_x_spec(t: PlanarQs) -> Qs {
    q_sub(t.periapsis, q_mul(q_int(2), q_div(t.periapsis, q_sub(q_int(1), t.eccentr))))
}

/// The denominator of the orbit equation at a true anomaly with cosine `co`:
/// `1 + e·cos ν`.
pub open spec fn point_denom_spec(t: PlanarQs, co: Qs) -> Qs {
    q_add(q_int(1), q_mul(t.eccentr, co))
}

/// The radius of the orbit at a true anomaly with cosine `co`:
/// semi-latus rectum over `1 + e·cos ν`.
pub open spec fn point_radius_spec(t: PlanarQs, co: Qs) -> Qs {
    q_div(q_mul(t.periapsis, q_add(q_int(1), t.eccentr)), point_denom_spec(t, co))
}

impl PlanarTrajectory {
    /// Positive periapsis distance, nonnegative eccentricity.
    pub open spec fn wf(&self) -> bool {
        q_wf(self@.periapsis) && q_wf(self@.eccentr) && q_lt(q_int(0), self@.periapsis) && q_le(
            q_int(0),
            self@.eccentr,
        )
    }

    pub fn dup(&self) -> (r: PlanarTrajectory)
        ensures
            r@ == self@,
    {
        PlanarTrajectory { periapsis: self.periapsis.dup(), eccentr: self.eccentr.dup() }
    }

    /// The radicand `r³/mu` of the period formula, for the standard
    /// gravitational parameter `mu`; meaningful only for a closed orbit, so
    /// `e < 1` is required.
    pub fn period_radicand(&self, mu: &Ratio) -> (r: Ratio)
        requires
            self.wf(),
            mu.wf(),
            q_lt(q_int(0), mu@),
            q_lt(self@.eccentr, q_int(1)),
        ensures
            r@ == period_radicand_spec(self@, mu@),
            r.wf(),
    {
        let rad = self.periapsis.div(&Ratio::from_int(1).sub(&self.eccentr));
        rad.mul(&rad).mul(&rad).div(mu)
    }

    /// The orbital period: 2π times the caller's square root of
    /// [`Self::period_radicand`]. The contract fixes the product exactly; the
    /// square root itself is the caller's.
    pub fn period(&self, radicand_sqrt: &Ratio) -> (r: Ratio)
        requires
            radicand_sqrt.wf(),
        ensures
            r@ == q_mul(q_tau(), radicand_sqrt@),
            r.wf(),
    {
        Ratio::new(TAU_NUM, TAU_DEN).mul(radicand_sqrt)
    }

    /// The apoapsis location `(periapsis − 2·a, 0)`, defined exactly when the
    /// orbit is closed (`e < 1`): an open trajectory genuinely has no
    /// apoapsis.
    pub fn apoapsis(&self) -> (r: Option<Vec2>)
        requires
            self.wf(),
        ensures
            (r is Some) <==> q_lt(self@.eccentr, q_int(1)),
            r matches Some(v) ==> v@.x == apoapsis_x_spec(self@) && v@.y == q_int(0) && v.wf(),
    {
        if self.eccentr.lt(&Ratio::from_int(1)) {
            let a = self.periapsis.div(&Ratio::from_int(1).sub(&self.eccentr));
            Some(
                Vec2 {
                    x: self.periapsis.sub(&Ratio::from_int(2).mul(&a)),
                    y: Ratio::from_int(0),
                },
            )
        } else {
            None
        }
    }

    /// The periapsis location `(periapsis, 0)`; always defined.
    pub fn periapsis(&self) -> (r: Vec2)
        requires
            self.wf(),
        ensures
            r@.x == self@.periapsis,
            r@.y == q_int(0),
            r.wf(),
    {
        Vec2 { x: self.periapsis.dup(), y: Ratio::from_int(0) }
    }

    /// The trajectory as a canonical ellipse with the focus at the origin;
    /// requires a closed orbit (`e < 1`). `minor_axis_root` is the caller's
    /// value for `√(1−e²)`, as in [`Ellipse::from_orbital`].
    pub fn to_ellipse(&self, minor_axis_root: &Ratio) -> (r: Ellipse)
        requires
            self.wf(),
            minor_axis_root.wf(),
            q_lt(self@.eccentr, q_int(1)),
        ensures
            r@ == EllipseQs::Canonical(
                from_orbital_spec(self@.periapsis, self@.eccentr, minor_axis_root@),
            ),
            r.wf(),
    {
        Ellipse::from_orbital(&self.periapsis, &self.eccentr, minor_axis_root)
    }

    /// The semi-latus rectum `periapsis · (1 + e)`.
    pub fn semi_latus_rectum(&self) -> (r: Ratio)
        requires
            self.wf(),
        ensures
            r@ == q_mul(self@.periapsis, q_add(q_int(1), self@.eccentr)),
            r.wf(),
    {
        self.periapsis.mul(&Ratio::from_int(1).add(&self.eccentr))
    }

    /// The position at a true anomaly, whose sine and cosine the caller
    /// supplies: `r·(cos ν, sin ν)` with `r` the orbit radius there. Undefined
    /// — `None` — when `1 + e·cos ν ≤ 0`: the angle lies beyond the asymptote
    /// of an open orbit, a correct physical answer rather than an error.
    pub fn point(&self, sin_nu: &Ratio, cos_nu: &Ratio) -> (r: Option<Vec2>)
        requires
            self.wf(),
            sin_nu.wf(),
            cos_nu.wf(),
        ensures
            (r is None) <==> q_le(point_denom_spec(self@, cos_nu@), q_int(0)),
            r matches Some(v) ==> v@.x == q_mul(point_radius_spec(self@, cos_nu@), cos_nu@)
                && v@.y == q_mul(point_radius_spec(self@, cos_nu@), sin_nu@) && v.wf(),
    {
        let d = Ratio::from_int(1).add(&self.eccentr.mul(cos_nu));
        if d.num_is_neg() || d.num_is_zero() {
            None
        } else {
            let radius = self.semi_latus_rectum().div(&d);
            Some(Vec2 { x: radius.mul(cos_nu), y: radius.mul(sin_nu) })
        }
    }
}

/// Kepler's equation, the forward map: `E − e·sin E`, with the caller's sine
/// of `E`. Used to verify a solution of [`KeplerSolver`].
pub fn kepler(ecc: &Ratio, ecc_anom: &Ratio, sin_ecc_anom: &Ratio) -> (r: Ratio)
    requires
        ecc.wf(),
        ecc_anom.wf(),
        sin_ecc_anom.wf(),
    ensures
        r@ == q_sub(ecc_anom@, q_mul(ecc@, sin_ecc_anom@)),
        r.wf(),
{
    ecc_anom.sub(&ecc.mul(sin_ecc_anom))
}

/// Ghost model of a solver state.
pub struct KeplerQs {
    pub ecc: Qs,
    pub mean_anom: Qs,
    pub ecc_anom: Qs,
    pub steps_left: int,
}

/// The state of a Newton iteration on Kepler's equation
/// `mean_anom = E − ecc·sin E`: the fixed inputs, the current iterate
/// `ecc_anom`, and how many of the [`MAX_ITERATIONS`] steps remain.
pub struct KeplerSolver {
    pub ecc: Ratio,
    pub mean_anom: Ratio,
    pub ecc_anom: Ratio,
    pub steps_left: u8,
}

impl View for KeplerSolver {
    type V = KeplerQs;

    open spec fn view(&self) -> KeplerQs {
        KeplerQs {
            ecc: self.ecc@,
            mean_anom: self.mean_anom@,
            ecc_anom: self.ecc_anom@,
            steps_left: self.steps_left as int,
        }
    }
}

/// The outcome of one solver step.
pub enum KeplerStep {
    /// A stopping rule fired: the payload solves the equation to tolerance,
    /// or the iteration reached a numerical plateau there.
    Converged(Ratio),
    /// Another step is needed; the caller evaluates the sine and cosine of
    /// the new iterate and advances again.
    Continue(KeplerSolver),
    /// The iteration cap was exhausted (or the Newton slope vanished): a
    /// fatal numerical failure, surfaced rather than papered over.
    Diverged,
}

/// The initial guess: the mean anomaly itself below eccentricity 0.8, else
/// ±π — the high-eccentricity bootstrap that prevents divergence.
pub open spec fn kepler_init_spec(ecc: Qs, mean: Qs) -> Qs {
    if q_lt(ecc, Qs { n: 4, d: 5 }) {
        mean
    } else if mean.n >= 0 {
        q_half_tau()
    } else {
        q_neg(q_half_tau())
    }
}

/// The residual of Kepler's equation at the current iterate, with `sin` the
/// sine of that iterate: `(E − e·sin E) − M`.
pub open spec fn kepler_resid_spec(s: KeplerQs, sin: Qs) -> Qs {
    q_sub(q_sub(s.ecc_anom, q_mul(s.ecc, sin)), s.mean_anom)
}

/// The Newton slope at the current iterate, with `cos` its cosine:
/// `1 − e·cos E`.
pub open spec fn kepler_slope_spec(s: KeplerQs, co: Qs) -> Qs {
    q_sub(q_int(1), q_mul(s.ecc, co))
}

/// The next iterate: the Newton update, rounded down to the solver's working
/// precision.
pub open spec fn kepler_next_spec(s: KeplerQs, sin: Qs, co: Qs) -> Qs {
    q_round(
        q_sub(s.ecc_anom, q_div(kepler_resid_spec(s, sin), kepler_slope_spec(s, co))),
        KEPLER_SCALE as int,
    )
}

/// Whether `m` is an admissible mean anomaly: within `[−2π, 2π]`. A value
/// outside is a caller programming error; check before building a solver.
pub fn mean_anomaly_in_range(m: &Ratio) -> (r: bool)
    requires
        m.wf(),
    ensures
        r == (q_le(q_neg(q_tau()), m@) && q_le(m@, q_tau())),
{
    let tau = Ratio::new(TAU_NUM, TAU_DEN);
    tau.neg().le(m) && m.le(&tau)
}

/// Builds the solver for `mean_anom = E − ecc·sin E` with the documented
/// initial guess and the full iteration budget. The mean anomaly must lie in
/// `[−2π, 2π]`; gate with [`mean_anomaly_in_range`].
pub fn approx_inv_kepler(ecc: &Ratio, mean_anom: &Ratio) -> (r: KeplerSolver)
    requires
        ecc.wf(),
        mean_anom.wf(),
        q_le(q_neg(q_tau()), mean_anom@),
        q_le(mean_anom@, q_tau()),
    ensures
        r@.ecc == ecc@,
        r@.mean_anom == mean_anom@,
        r@.ecc_anom == kepler_init_spec(ecc@, mean_anom@),
        r@.steps_left == MAX_ITERATIONS as int,
        r.wf(),
{
    let guess = if ecc.lt(&Ratio::new(4, 5)) {
        mean_anom.dup()
    } else if !mean_anom.num_is_neg() {
        Ratio::new(TAU_NUM, TAU_HALF_DEN)
    } else {
        Ratio::new(-TAU_NUM, TAU_HALF_DEN)
    };
    KeplerSolver {
        ecc: ecc.dup(),
        mean_anom: mean_anom.dup(),
        ecc_anom: guess,
        steps_left: MAX_ITERATIONS,
    }
}

impl KeplerSolver {
    pub open spec fn wf(&self) -> bool {
        q_wf(self@.ecc) && q_wf(self@.mean_anom) && q_wf(self@.ecc_anom)
    }

    /// One Newton step. The caller supplies the sine and cosine of the
    /// current iterate; the contract pins the outcome exactly: convergence
    /// when the residual is within tolerance, a plateau when the rounded
    /// update does not move, `Diverged` when the step budget is exhausted or
    /// the Newton slope vanishes, and otherwise the exactly-described next
    /// state with one step fewer remaining.
    pub fn advance(self, sin_cur: &Ratio, cos_cur: &Ratio) -> (r: KeplerStep)
        requires
            self.wf(),
            sin_cur.wf(),
            cos_cur.wf(),
        ensures
            ({
                let f = kepler_resid_spec(self@, sin_cur@);
                let g = kepler_slope_spec(self@, cos_cur@);
                let nx = kepler_next_spec(self@, sin_cur@, cos_cur@);
                &&& (self@.steps_left == 0 ==> r is Diverged)
                &&& (self@.steps_left > 0 && q_lt(q_abs(f), q_kepler_tol()) ==> (
                r matches KeplerStep::Converged(v) && v@ == self@.ecc_anom && q_wf(v@)))
                &&& (self@.steps_left > 0 && !q_lt(q_abs(f), q_kepler_tol()) && g.n == 0
                    ==> r is Diverged)
                &&& (self@.steps_left > 0 && !q_lt(q_abs(f), q_kepler_tol()) && g.n != 0 ==> (
                if q_eqv(nx, self@.ecc_anom) {
                    r matches KeplerStep::Converged(v) && v@ == nx && q_wf(v@)
                } else {
                    r matches KeplerStep::Continue(s2) && s2@.ecc == self@.ecc
                        && s2@.mean_anom == self@.mean_anom && s2@.ecc_anom == nx
                        && s2@.steps_left == self@.steps_left - 1 && s2.wf()
                }))
            }),
    {
        if self.steps_left == 0 {
            return KeplerStep::Diverged;
        }
        let f = self.ecc_anom.sub(&self.ecc.mul(sin_cur)).sub(&self.mean_anom);
        let tol = Ratio::new(1, 1000000000000000);
        let within = f.lt(&tol) && tol.neg().lt(&f);
        proof {
            lemma_abs_lt_iff(f@, q_kepler_tol());
        }
        if within {
            return KeplerStep::Converged(self.ecc_anom);
        }
        let g = Ratio::from_int(1).sub(&self.ecc.mul(cos_cur));
        if g.num_is_zero() {
            return KeplerStep::Diverged;
        }
        let next = self.ecc_anom.sub(&f.div(&g)).round_to_scale(KEPLER_SCALE);
        if next.eq_val(&self.ecc_anom) {
            KeplerStep::Converged(next)
        } else {
            KeplerStep::Continue(
                KeplerSolver {
                    ecc: self.ecc,
                    mean_anom: self.mean_anom,
                    ecc_anom: next,
                    steps_left: self.steps_left - 1,
                },
            )
        }
    }
}

/// Law (circular orbit): with eccentricity exactly zero and the iterate equal
/// to the mean anomaly — which is the initial state `approx_inv_kepler`
/// builds, since zero is below the bootstrap threshold — the residual of
/// Kepler's equation is exactly zero whatever sine the caller supplies, and
/// so lies within tolerance. By the contract of [`KeplerSolver::advance`],
/// the very first step therefore returns `Converged` with exactly the mean
/// anomaly: the eccentric anomaly of a circular orbit equals its mean
/// anomaly.
pub proof fn lemma_zero_eccentricity_converges(s: KeplerQs, sin_cur: Qs)
    requires
        q_wf(s.ecc),
        q_wf(s.mean_anom),
        q_wf(s.ecc_anom),
        q_wf(sin_cur),
        s.ecc.n == 0,
        s.ecc_anom == s.mean_anom,
    ensures
        q_eqv(kepler_resid_spec(s, sin_cur), q_int(0)),
        q_lt(q_abs(kepler_resid_spec(s, sin_cur)), q_kepler_tol()),
{
    let f = kepler_resid_spec(s, sin_cur);
    let inner = q_sub(s.ecc_anom, q_mul(s.ecc, sin_cur));
    assert(f == q_sub(inner, s.mean_anom));
    assert(inner.n == s.ecc_anom.n * (s.ecc.d * sin_cur.d) - (s.ecc.n * sin_cur.n)
        * s.ecc_anom.d);
    assert(inner.d == s.ecc_anom.d * (s.ecc.d * sin_cur.d));
    assert(f.n == inner.n * s.mean_anom.d - s.mean_anom.n * inner.d);
    assert(f.d == inner.d * s.mean_anom.d);
    assert(f.n == 0) by (nonlinear_arith)
        requires
            f.n == inner.n * s.mean_anom.d - s.mean_anom.n * inner.d,
            inner.n == s.ecc_anom.n * (s.ecc.d * sin_cur.d) - (s.ecc.n * sin_cur.n)
                * s.ecc_anom.d,
            inner.d == s.ecc_anom.d * (s.ecc.d * sin_cur.d),
            s.ecc.n == 0,
            s.ecc_anom == s.mean_anom,
    ;
    assert(f.d > 0) by (nonlinear_arith)
        requires
            f.d == inner.d * s.mean_anom.d,
            inner.d == s.ecc_anom.d * (s.ecc.d * sin_cur.d),
            s.ecc_anom.d > 0,
            s.ecc.d > 0,
            sin_cur.d > 0,
            s.mean_anom.d > 0,
    ;
    assert(f.n * 1 == 0 * f.d) by (nonlinear_arith)
        requires
            f.n == 0,
    ;
    assert(q_eqv(f, q_int(0)));
    assert(q_abs(f) == f);
    assert(f.n * q_kepler_tol().d == 0 && q_kepler_tol().n * f.d == f.d) by (nonlinear_arith)
        requires
            f.n == 0,
            q_kepler_tol().d == 1000000000000000,
            q_kepler_tol().n == 1,
            f.d > 0,
    ;
    assert(q_lt(f, q_kepler_tol()));
}

/// `|f| < tol` exactly when `−tol < f < tol`, for a positive tolerance.
proof fn lemma_abs_lt_iff(f: Qs, tol: Qs)
    requires
        q_wf(f),
        q_wf(tol),
        tol.n > 0,
    ensures
        q_lt(q_abs(f), tol) <==> (q_lt(f, tol) && q_lt(q_neg(tol), f)),
{
    assert(q_lt(q_abs(f), tol) <==> (q_lt(f, tol) && q_lt(q_neg(tol), f))) by (nonlinear_arith)
        requires
            f.d > 0,
            tol.d > 0,
            tol.n > 0,
    ;
}

} // verus!
