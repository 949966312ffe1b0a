use num_traits::ToPrimitive;
use orbit_conics::orbits::{
    approx_inv_kepler, kepler, mean_anomaly_in_range, KeplerSolver, KeplerStep, MAX_ITERATIONS,
    TAU_DEN, TAU_HALF_DEN, TAU_NUM,
};
use orbit_conics::ratio::Ratio;

fn q(n: i128, d: i128) -> Ratio {
    Ratio::new(n, d)
}

fn qi(n: i128) -> Ratio {
    Ratio::from_int(n)
}

fn to_f(r: &Ratio) -> f64 {
    let s: i128 = 1 << 52;
    r.floor_scaled(s).to_f64().unwrap() / (s as f64)
}

fn from_f(x: f64) -> Ratio {
    let s: i128 = 1 << 52;
    Ratio::new((x * (s as f64)).round() as i128, s)
}

fn abs_lt(x: &Ratio, tol: &Ratio) -> bool {
    x.lt(tol) && tol.neg().lt(x)
}

/// Drives the solver, evaluating the sine and cosine of each iterate in
/// 64-bit floating point; `None` is the solver's own divergence report.
fn solve(ecc: &Ratio, mean_anom: &Ratio) -> Option<Ratio> {
    assert!(mean_anomaly_in_range(mean_anom));
    let mut state: KeplerSolver = approx_inv_kepler(ecc, mean_anom);
    loop {
        let cur = to_f(&state.ecc_anom);
        match state.advance(&from_f(cur.sin()), &from_f(cur.cos())) {
            KeplerStep::Converged(v) => return Some(v),
            KeplerStep::Continue(next) => state = next,
            KeplerStep::Diverged => return None,
        }
    }
}

// The rational 2π of the library is exactly the 64-bit float 2π.
#[test]
fn tau_matches_float_tau() {
    assert_eq!((TAU_NUM as f64) / (TAU_DEN as f64), std::f64::consts::TAU);
    assert_eq!(2 * TAU_DEN, TAU_HALF_DEN);
}

// The admissible range of the mean anomaly is [−2π, 2π], with both endpoints
// admissible and nothing beyond them.
#[test]
fn mean_anomaly_range() {
    assert!(mean_anomaly_in_range(&q(TAU_NUM, TAU_DEN)));
    assert!(mean_anomaly_in_range(&q(-TAU_NUM, TAU_DEN)));
    assert!(mean_anomaly_in_range(&qi(0)));
    assert!(!mean_anomaly_in_range(&q(2 * TAU_NUM, TAU_DEN)));
    assert!(!mean_anomaly_in_range(&q(-2 * TAU_NUM, TAU_DEN)));
}

// Circular orbit: the eccentric anomaly equals the mean anomaly, exactly, on
// the very first step.
#[test]
fn zero_eccentricity_is_exact() {
    let m = from_f(1.234);
    let state = approx_inv_kepler(&qi(0), &m);
    match state.advance(&from_f(0.0), &from_f(1.0)) {
        KeplerStep::Converged(v) => assert!(v.eq_val(&m)),
        _ => panic!("expected convergence on the first step"),
    }
    let v = solve(&qi(0), &m).unwrap();
    assert!(v.eq_val(&m));
}

// The forward map is exactly E − e·s for whatever sine value s the caller
// supplies.
#[test]
fn kepler_forward_map() {
    // e = 1/2, E = π, s = 1: result is π − 1/2.
    let r = kepler(&q(1, 2), &q(TAU_NUM, TAU_HALF_DEN), &qi(1));
    assert!(r.eq_val(&q(TAU_NUM - TAU_HALF_DEN / 2, TAU_HALF_DEN)));
}

// The solve inverts the forward map to within 1e−12 across eccentricities up
// to 0.99 and mean anomalies across [−2π, 2π].
#[test]
fn solve_inverts_kepler() {
    let tol = q(1, 1_000_000_000_000);
    for (en, ed) in [(0i128, 100i128), (30, 100), (60, 100), (90, 100), (99, 100)] {
        let ecc = q(en, ed);
        for k in -8i128..=8 {
            let m = q(TAU_NUM * k, TAU_DEN * 8);
            let v = solve(&ecc, &m).unwrap_or_else(|| panic!("diverged at {}/{} k={}", en, ed, k));
            let sin_v = from_f(to_f(&v).sin());
            let resid = kepler(&ecc, &v, &sin_v).sub(&m);
            assert!(abs_lt(&resid, &tol), "residual {} at e={}/{} k={}", to_f(&resid), en, ed, k);
        }
    }
}

// High-eccentricity edge case: e = 0.9, M = π converges within the iteration
// cap and satisfies the tolerance.
#[test]
fn high_eccentricity_converges() {
    let ecc = q(9, 10);
    let m = q(TAU_NUM, TAU_HALF_DEN);
    let v = solve(&ecc, &m).unwrap();
    let resid = kepler(&ecc, &v, &from_f(to_f(&v).sin())).sub(&m);
    assert!(abs_lt(&resid, &q(1, 1_000_000_000_000)));
}

// A vanishing Newton slope is a fatal numerical failure, reported as such.
#[test]
fn vanishing_slope_diverges() {
    let state = KeplerSolver {
        ecc: q(1, 2),
        mean_anom: qi(0),
        ecc_anom: qi(1),
        steps_left: 5,
    };
    // A cosine of 2 (no real angle has it, but the caller supplies it) makes
    // the slope 1 − e·cos exactly zero, while the residual stays 1.
    match state.advance(&qi(0), &qi(2)) {
        KeplerStep::Diverged => {},
        _ => panic!("expected divergence"),
    }
}

// When neither stopping rule ever fires, the solver runs exactly its
// iteration cap and then fails, never silently returning a stale iterate.
#[test]
fn iteration_cap_is_enforced() {
    // Feeding sin E = E and cos E = 0 turns the update into
    // E' = 0.9·E + M, a slow contraction that cannot reach the tolerance
    // within the cap.
    let ecc = q(9, 10);
    let m = qi(1);
    let mut state = approx_inv_kepler(&ecc, &m);
    let mut continues = 0u32;
    loop {
        let sin_cur = state.ecc_anom.dup();
        match state.advance(&sin_cur, &qi(0)) {
            KeplerStep::Continue(next) => {
                continues += 1;
                state = next;
            },
            KeplerStep::Diverged => break,
            KeplerStep::Converged(_) => panic!("unexpected convergence"),
        }
    }
    assert_eq!(continues, MAX_ITERATIONS as u32);
}

// The high-eccentricity bootstrap: at and above e = 0.8 the initial guess is
// ±π by the sign of the mean anomaly, below it the mean anomaly itself.
#[test]
fn initial_guess_bootstrap() {
    let low = approx_inv_kepler(&q(79, 100), &qi(1));
    assert!(low.ecc_anom.eq_val(&qi(1)));
    let high = approx_inv_kepler(&q(8, 10), &qi(1));
    assert!(high.ecc_anom.eq_val(&q(TAU_NUM, TAU_HALF_DEN)));
    let neg = approx_inv_kepler(&q(8, 10), &qi(-1));
    assert!(neg.ecc_anom.eq_val(&q(-TAU_NUM, TAU_HALF_DEN)));
}
