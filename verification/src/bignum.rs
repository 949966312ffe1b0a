//! Trusted layer over `num_bigint::BigInt`.
//!
//! The rest of the crate does its arithmetic on arbitrary-precision integers
//! through the small wrappers below. Each wrapper makes exactly one call into
//! `num_bigint` (or `num_integer`) and states what that call returns in terms
//! of `big_val`, the integer a `BigInt` holds.

use vstd::prelude::*;

verus! {

#[verifier::external_type_specification]
#[verifier::external_body]
pub struct ExBigInt(num_bigint::BigInt);

/// The integer that a `num_bigint::BigInt` holds.
pub uninterp spec fn big_val(x: num_bigint::BigInt) -> int;

/// Relies on `<num_bigint::BigInt as From<i128>>::from`: builds the big
/// integer with exactly the given value.
#[verifier::external_body]
pub fn big_from_i128(x: i128) -> (r: num_bigint::BigInt)
    ensures
        big_val(r) == x as int,
{
    num_bigint::BigInt::from(x)
}

/// Relies on `<num_bigint::BigInt as Clone>::clone`: the copy holds the same
/// integer.
#[verifier::external_body]
pub fn big_clone(a: &num_bigint::BigInt) -> (r: num_bigint::BigInt)
    ensures
        big_val(r) == big_val(*a),
{
    a.clone()
}

/// Relies on `<&num_bigint::BigInt as core::ops::Add>::add`:
/// arbitrary-precision addition.
#[verifier::external_body]
pub fn big_add(a: &num_bigint::BigInt, b: &num_bigint::BigInt) -> (r: num_bigint::BigInt)
    ensures
        big_val(r) == big_val(*a) + big_val(*b),
{
    a + b
}

/// Relies on `<&num_bigint::BigInt as core::ops::Sub>::sub`:
/// arbitrary-precision subtraction.
#[verifier::external_body]
pub fn big_sub(a: &num_bigint::BigInt, b: &num_bigint::BigInt) -> (r: num_bigint::BigInt)
    ensures
        big_val(r) == big_val(*a) - big_val(*b),
{
    a - b
}

/// Relies on `<&num_bigint::BigInt as core::ops::Mul>::mul`:
/// arbitrary-precision multiplication.
#[verifier::external_body]
pub fn big_mul(a: &num_bigint::BigInt, b: &num_bigint::BigInt) -> (r: num_bigint::BigInt)
    ensures
        big_val(r) == big_val(*a) * big_val(*b),
{
    a * b
}

/// Relies on `<&num_bigint::BigInt as core::ops::Neg>::neg`: arithmetic
/// negation.
#[verifier::external_body]
pub fn big_neg(a: &num_bigint::BigInt) -> (r: num_bigint::BigInt)
    ensures
        big_val(r) == -big_val(*a),
{
    -a
}

/// Relies on `<num_bigint::BigInt as PartialOrd>::lt` (through the `Ord`
/// impl): the order of `BigInt` is the numeric order.
#[verifier::external_body]
pub fn big_lt(a: &num_bigint::BigInt, b: &num_bigint::BigInt) -> (r: bool)
    ensures
        r == (big_val(*a) < big_val(*b)),
{
    a < b
}

/// Relies on `<num_bigint::BigInt as PartialEq>::eq`: `BigInt` keeps a unique
/// normalized representation, so structural equality is numeric equality.
#[verifier::external_body]
pub fn big_eq(a: &num_bigint::BigInt, b: &num_bigint::BigInt) -> (r: bool)
    ensures
        r == (big_val(*a) == big_val(*b)),
{
    a == b
}

/// Relies on `<num_bigint::BigInt as num_integer::Integer>::div_mod_floor`:
/// floored division with its remainder; for a positive divisor the remainder
/// lies in `[0, divisor)`.
#[verifier::external_body]
pub fn big_div_mod_floor(a: &num_bigint::BigInt, b: &num_bigint::BigInt) -> (r: (
    num_bigint::BigInt,
    num_bigint::BigInt,
))
    requires
        big_val(*b) > 0,
    ensures
        big_val(*a) == big_val(r.0) * big_val(*b) + big_val(r.1),
        0 <= big_val(r.1) < big_val(*b),
{
    num_integer::Integer::div_mod_floor(a, b)
}

} // verus!
