use num_traits::ToPrimitive;
use orbit_conics::geom::{Mat3, Vec2};
use orbit_conics::orbits::{Plane, PlaneTrig, PlanarTrajectory};
use orbit_conics::ratio::Ratio;

fn q(n: i128, d: i128) -> Ratio {
    Ratio::new(n, d)
}

fn qi(n: i128) -> Ratio {
    Ratio::from_int(n)
}

fn to_f(r: &Ratio) -> f64 {
    let s: i128 = 1 << 52;
    r.floor_scaled(s).to_f64().unwrap() / (s as f64)
}

// Apoapsis is undefined for eccentricity at or above one, defined below it,
// and then equal to periapsis − 2·periapsis/(1−e).
#[test]
fn apoapsis_domain() {
    let open1 = PlanarTrajectory { periapsis: qi(100), eccentr: qi(1) };
    assert!(open1.apoapsis().is_none());
    let open2 = PlanarTrajectory { periapsis: qi(100), eccentr: q(3, 2) };
    assert!(open2.apoapsis().is_none());
    let closed = PlanarTrajectory { periapsis: qi(100), eccentr: q(1, 2) };
    let apo = closed.apoapsis().unwrap();
    // a = 100/(1/2) = 200, apoapsis x = 100 − 400 = −300.
    assert!(apo.x.eq_val(&qi(-300)));
    assert!(apo.y.eq_val(&qi(0)));
}

#[test]
fn semi_latus_rectum_formula() {
    let t = PlanarTrajectory { periapsis: qi(6571), eccentr: q(1, 2) };
    assert!(t.semi_latus_rectum().eq_val(&q(19713, 2)));
}

// The position on the orbit at a true anomaly: at ν = 0 the periapsis, and
// beyond the asymptote of an open orbit no position at all.
#[test]
fn point_on_orbit() {
    let t = PlanarTrajectory { periapsis: qi(100), eccentr: q(1, 2) };
    // ν = 0: sine 0, cosine 1; r = 150/(3/2) = 100.
    let p = t.point(&qi(0), &qi(1)).unwrap();
    assert!(p.x.eq_val(&qi(100)));
    assert!(p.y.eq_val(&qi(0)));
    // ν = π on a hyperbolic trajectory: 1 + 2·(−1) ≤ 0, beyond the asymptote.
    let h = PlanarTrajectory { periapsis: qi(100), eccentr: qi(2) };
    assert!(h.point(&qi(0), &qi(-1)).is_none());
    // The same angle on the closed orbit is fine: r = 150/(1/2) = 300.
    let p2 = t.point(&qi(0), &qi(-1)).unwrap();
    assert!(p2.x.eq_val(&qi(-300)));
    assert!(p2.y.eq_val(&qi(0)));
}

// The radicand of the period formula is r³/mu with r = periapsis/(1−e).
#[test]
fn period_radicand_formula() {
    let t = PlanarTrajectory { periapsis: qi(4), eccentr: q(1, 2) };
    // r = 8, r³ = 512, /mu = 256.
    assert!(t.period_radicand(&qi(2)).eq_val(&qi(256)));
}

// The period itself is 2π times the caller's square root of the radicand.
#[test]
fn period_is_tau_times_root() {
    let t = PlanarTrajectory { periapsis: qi(1), eccentr: qi(0) };
    let rad = t.period_radicand(&qi(1));
    assert!(rad.eq_val(&qi(1)));
    let p = t.period(&qi(1));
    assert!((to_f(&p) - std::f64::consts::TAU).abs() < 1e-9);
}

// A quarter turn about z, alone, gives exactly the plane rotation matrix.
#[test]
fn plane_matrix_quarter_turn() {
    let plane = Plane { lon_asc_node: qi(0), inclination: qi(0), arg_peri: qi(0) };
    let trig = PlaneTrig {
        sin_lon: qi(1),
        cos_lon: qi(0),
        sin_inc: qi(0),
        cos_inc: qi(1),
        sin_arg: qi(0),
        cos_arg: qi(1),
    };
    let m = plane.to_matrix(&trig);
    assert!(m.m11.eq_val(&qi(0)));
    assert!(m.m12.eq_val(&qi(-1)));
    assert!(m.m13.eq_val(&qi(0)));
    assert!(m.m21.eq_val(&qi(1)));
    assert!(m.m22.eq_val(&qi(0)));
    assert!(m.m23.eq_val(&qi(0)));
    assert!(m.m31.eq_val(&qi(0)));
    assert!(m.m32.eq_val(&qi(0)));
    assert!(m.m33.eq_val(&qi(1)));
}

// A quarter turn of inclination carries the plane's y axis to z.
#[test]
fn plane_matrix_inclination() {
    let plane = Plane { lon_asc_node: qi(0), inclination: qi(0), arg_peri: qi(0) };
    let trig = PlaneTrig {
        sin_lon: qi(0),
        cos_lon: qi(1),
        sin_inc: qi(1),
        cos_inc: qi(0),
        sin_arg: qi(0),
        cos_arg: qi(1),
    };
    let m = plane.to_matrix(&trig);
    assert!(m.m11.eq_val(&qi(1)));
    assert!(m.m22.eq_val(&qi(0)));
    assert!(m.m23.eq_val(&qi(-1)));
    assert!(m.m32.eq_val(&qi(1)));
    assert!(m.m33.eq_val(&qi(0)));
}

// Inverting a translation gives the opposite translation, and composing the
// two gives the identity, exactly.
#[test]
fn affine_inverse_translation() {
    let t = Mat3::translate(&Vec2::new(qi(2), qi(3)));
    let inv = t.inv().unwrap();
    assert!(inv.m13.eq_val(&qi(-2)));
    assert!(inv.m23.eq_val(&qi(-3)));
    let id = t.mul(&inv);
    assert!(id.m11.eq_val(&qi(1)));
    assert!(id.m12.eq_val(&qi(0)));
    assert!(id.m13.eq_val(&qi(0)));
    assert!(id.m21.eq_val(&qi(0)));
    assert!(id.m22.eq_val(&qi(1)));
    assert!(id.m23.eq_val(&qi(0)));
    assert!(id.m31.eq_val(&qi(0)));
    assert!(id.m32.eq_val(&qi(0)));
    assert!(id.m33.eq_val(&qi(1)));
}

// The determinant of a scaling is the product of its factors.
#[test]
fn affine_determinant() {
    let s = Mat3::scale(&Vec2::new(qi(2), qi(5)));
    assert!(s.det().eq_val(&qi(10)));
    assert!(Mat3::id().det().eq_val(&qi(1)));
}
