//! Exact geometry of Keplerian orbits.
//!
//! An orbital ellipse is carried in two equivalent algebraic forms, canonical
//! (center, semi-axes, rotation) and implicit (six quadratic coefficients),
//! with conversions between them, projection through an arbitrary affine map
//! by the congruence rule for quadratic forms, and a bounded Newton iteration
//! that inverts Kepler's equation.
//!
//! All arithmetic is exact: every quantity is a rational number backed by
//! arbitrary-precision integers. The irrational steps of the computations
//! (sines, cosines, square roots, arc tangents) cannot be taken exactly, so
//! each function that needs such a value takes it as an argument; the caller
//! evaluates it to whatever precision it wants and the contracts state the
//! result as an exact polynomial in the supplied values.

pub mod bignum;
pub mod ratio;
pub mod geom;
pub mod conics;
pub mod orbits;
