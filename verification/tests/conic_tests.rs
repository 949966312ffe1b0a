use num_traits::ToPrimitive;
use orbit_conics::conics::{CanonicalEllipseRepr, Ellipse, ImplicitConicSectionRepr};
use orbit_conics::geom::{Mat3, Vec2};
use orbit_conics::orbits::PlanarTrajectory;
use orbit_conics::ratio::Ratio;

fn q(n: i128, d: i128) -> Ratio {
    Ratio::new(n, d)
}

fn qi(n: i128) -> Ratio {
    Ratio::from_int(n)
}

fn to_f(r: &Ratio) -> f64 {
    let s: i128 = 1 << 52;
    r.floor_scaled(s).to_f64().unwrap() / (s as f64)
}

fn from_f(x: f64) -> Ratio {
    let s: i128 = 1 << 52;
    Ratio::new((x * (s as f64)).round() as i128, s)
}

fn assert_val(r: &Ratio, n: i128, d: i128) {
    assert!(r.eq_val(&q(n, d)), "expected {}/{}, got about {}", n, d, to_f(r));
}

#[test]
fn new_circle_is_centered() {
    let e = Ellipse::new_circle(qi(5));
    match e {
        Ellipse::Canonical(c) => {
            assert_val(&c.semi_axes.x, 5, 1);
            assert_val(&c.semi_axes.y, 5, 1);
            assert_val(&c.center.x, 0, 1);
            assert_val(&c.center.y, 0, 1);
            assert_val(&c.rotation, 0, 1);
        },
        _ => panic!("expected canonical form"),
    }
}

// Scenario: periapsis 6571 (200 above a body of radius 6371), eccentricity 0:
// the orbit is the circle of radius 6571 about the origin.
#[test]
fn circular_orbit_scenario() {
    let t = PlanarTrajectory { periapsis: qi(6571), eccentr: qi(0) };
    // With e = 0 the minor-axis root √(1−e²) is exactly 1.
    let e = t.to_ellipse(&qi(1));
    match e {
        Ellipse::Canonical(c) => {
            assert_val(&c.semi_axes.x, 6571, 1);
            assert_val(&c.semi_axes.y, 6571, 1);
            assert_val(&c.center.x, 0, 1);
            assert_val(&c.center.y, 0, 1);
        },
        _ => panic!("expected canonical form"),
    }
    // Apoapsis and periapsis coincide in distance: both 6571 from the focus.
    let apo = t.apoapsis().unwrap();
    assert_val(&apo.x, -6571, 1);
    assert_val(&apo.y, 0, 1);
    let peri = t.periapsis();
    assert_val(&peri.x, 6571, 1);
    assert_val(&peri.y, 0, 1);
}

// Scenario: periapsis 6571, eccentricity 0.5: a = 13142, b = a·√0.75,
// center (−6571, 0).
#[test]
fn elliptic_orbit_scenario() {
    let t = PlanarTrajectory { periapsis: qi(6571), eccentr: q(1, 2) };
    let root = from_f(0.75f64.sqrt());
    let e = t.to_ellipse(&root);
    match e {
        Ellipse::Canonical(c) => {
            assert_val(&c.semi_axes.x, 13142, 1);
            assert_val(&c.center.x, -6571, 1);
            assert_val(&c.center.y, 0, 1);
            let b = to_f(&c.semi_axes.y);
            assert!((b - 13142.0 * 0.75f64.sqrt()).abs() < 1e-3, "semi-minor axis was {}", b);
        },
        _ => panic!("expected canonical form"),
    }
}

// The focus-to-periapsis invariant: center.x + semi_axes.x == periapsis,
// exactly, whatever value stands in for the minor-axis root.
#[test]
fn focus_periapsis_invariant() {
    let e = Ellipse::from_orbital(&qi(6571), &q(1, 2), &from_f(0.75f64.sqrt()));
    match e {
        Ellipse::Canonical(c) => {
            let back = c.center.x.add(&c.semi_axes.x);
            assert!(back.eq_val(&qi(6571)));
        },
        _ => panic!("expected canonical form"),
    }
}

// x² + 4y² − 4 = 0 is the axis-aligned ellipse with semi-axes 2 and 1; its
// canonical parameters come back exactly, since the axis-split square root
// |A − C| = 3 is itself rational.
#[test]
fn implicit_to_canonical_axis_aligned() {
    let imp = ImplicitConicSectionRepr(qi(1), qi(0), qi(4), qi(0), qi(0), qi(-4));
    let split = imp.axis_split_radicand();
    assert!(split.eq_val(&qi(9)));
    let parts = imp.to_canonical(&qi(3)).unwrap();
    assert!(parts.center.x.eq_val(&qi(0)));
    assert!(parts.center.y.eq_val(&qi(0)));
    assert!(parts.axis_x_radicand.eq_val(&qi(4)));
    assert!(parts.axis_y_radicand.eq_val(&qi(1)));
    assert!(parts.rot_y.eq_val(&qi(0)));
    assert!(parts.rot_x.eq_val(&qi(3)));
}

// A hyperbola (discriminant > 0) and a parabola (discriminant = 0) are
// detected as unsupported rather than answered.
#[test]
fn non_ellipse_is_detected() {
    let hyperbola = ImplicitConicSectionRepr(qi(0), qi(1), qi(0), qi(0), qi(0), qi(-1));
    assert!(hyperbola.to_canonical(&qi(1)).is_none());
    let parabola = ImplicitConicSectionRepr(qi(1), qi(0), qi(0), qi(0), qi(-1), qi(0));
    assert!(parabola.to_canonical(&qi(0)).is_none());
}

// Reading the quadratic-form matrix back gives the same coefficients.
#[test]
fn matrix_round_trip() {
    let imp = ImplicitConicSectionRepr(qi(1), qi(3), qi(4), qi(5), qi(7), qi(-4));
    let back = ImplicitConicSectionRepr::from_matrix(&imp.to_matrix());
    assert!(back.0.eq_val(&imp.0));
    assert!(back.1.eq_val(&imp.1));
    assert!(back.2.eq_val(&imp.2));
    assert!(back.3.eq_val(&imp.3));
    assert!(back.4.eq_val(&imp.4));
    assert!(back.5.eq_val(&imp.5));
}

// Transforming by the identity map is a no-op on the coefficients, exactly.
#[test]
fn transform_identity_is_noop() {
    let imp = ImplicitConicSectionRepr(qi(1), qi(0), qi(4), qi(2), qi(-6), qi(-4));
    let e = Ellipse::Implicit(imp.dup());
    let out = e.transform(&Mat3::id(), &qi(0), &qi(1)).unwrap();
    match out {
        Ellipse::Implicit(c2) => {
            assert!(c2.0.eq_val(&imp.0));
            assert!(c2.1.eq_val(&imp.1));
            assert!(c2.2.eq_val(&imp.2));
            assert!(c2.3.eq_val(&imp.3));
            assert!(c2.4.eq_val(&imp.4));
            assert!(c2.5.eq_val(&imp.5));
        },
        _ => panic!("expected implicit form"),
    }
}

// A singular map (here a projection collapsing x) yields no result, and its
// inverse does not exist.
#[test]
fn transform_singular_is_none() {
    let collapse = Mat3::scale(&Vec2::new(qi(0), qi(1)));
    assert!(collapse.inv().is_none());
    let e = Ellipse::new_circle(qi(1));
    assert!(e.transform(&collapse, &qi(0), &qi(1)).is_none());
}

// A quarter-turn carries x² + 4y² − 4 into 4x² + y² − 4, up to a positive
// factor; the quarter-turn's sine and cosine are exact.
#[test]
fn transform_quarter_turn_swaps_axes() {
    let imp = ImplicitConicSectionRepr(qi(1), qi(0), qi(4), qi(0), qi(0), qi(-4));
    let e = Ellipse::Implicit(imp);
    let turn = Mat3::rotate(&qi(1), &qi(0));
    let out = e.transform(&turn, &qi(0), &qi(1)).unwrap();
    match out {
        Ellipse::Implicit(c2) => {
            // Proportionality: A' : C' = 4 : 1 and F' = −A'·1 (scaled alike).
            assert!(c2.0.eq_val(&c2.2.mul(&qi(4))));
            assert!(c2.1.eq_val(&qi(0)));
            assert!(c2.3.eq_val(&qi(0)));
            assert!(c2.4.eq_val(&qi(0)));
            assert!(c2.5.eq_val(&c2.2.neg().mul(&qi(4))));
        },
        _ => panic!("expected implicit form"),
    }
}

// Round trip with a genuinely rotated ellipse, through floating-point square
// roots and arc tangent: the recovered implicit coefficients are proportional
// to the originals within tolerance.
#[test]
fn round_trip_rotated_ellipse() {
    let theta: f64 = 0.3;
    let start = CanonicalEllipseRepr {
        semi_axes: Vec2::new(qi(2), qi(1)),
        center: Vec2::new(qi(3), qi(1)),
        rotation: from_f(theta),
    };
    let imp1 = start.to_implicit(&from_f(theta.sin()), &from_f(theta.cos()));
    let split = to_f(&imp1.axis_split_radicand()).sqrt();
    let parts = imp1.to_canonical(&from_f(split)).unwrap();
    let theta2 = to_f(&parts.rot_y).atan2(to_f(&parts.rot_x)) / 2.0;
    let recovered = CanonicalEllipseRepr {
        semi_axes: Vec2::new(
            from_f(to_f(&parts.axis_x_radicand).sqrt()),
            from_f(to_f(&parts.axis_y_radicand).sqrt()),
        ),
        center: parts.center,
        rotation: from_f(theta2),
    };
    let imp2 = recovered.to_implicit(&from_f(theta2.sin()), &from_f(theta2.cos()));
    let scale = to_f(&imp2.0) / to_f(&imp1.0);
    let pairs = [
        (to_f(&imp2.0), to_f(&imp1.0)),
        (to_f(&imp2.1), to_f(&imp1.1)),
        (to_f(&imp2.2), to_f(&imp1.2)),
        (to_f(&imp2.3), to_f(&imp1.3)),
        (to_f(&imp2.4), to_f(&imp1.4)),
        (to_f(&imp2.5), to_f(&imp1.5)),
    ];
    for (got, want) in pairs {
        assert!((got - scale * want).abs() < 1e-6, "{} vs {}*{}", got, scale, want);
    }
}

// The default canonical ellipse is the degenerate one at the origin.
#[test]
fn default_is_degenerate() {
    let c = CanonicalEllipseRepr::default();
    assert!(c.semi_axes.x.eq_val(&qi(0)));
    assert!(c.semi_axes.y.eq_val(&qi(0)));
    assert!(c.center.x.eq_val(&qi(0)));
    assert!(c.center.y.eq_val(&qi(0)));
    assert!(c.rotation.eq_val(&qi(0)));
}

// The point of an ellipse at an eccentric anomaly with exact sine and cosine.
#[test]
fn canonical_point() {
    let c = CanonicalEllipseRepr {
        semi_axes: Vec2::new(qi(2), qi(1)),
        center: Vec2::new(qi(3), qi(4)),
        rotation: qi(0),
    };
    // E = π/2: sine 1, cosine 0.
    let p = c.point(&qi(1), &qi(0));
    assert!(p.x.eq_val(&qi(3)));
    assert!(p.y.eq_val(&qi(5)));
}
