//! Exact rational numbers.
//!
//! A [`Ratio`] is a pair of arbitrary-precision integers, numerator and
//! denominator, with the denominator positive. Results are not reduced to
//! lowest terms: every operation's contract states the numerator and the
//! denominator of its result as exact integer polynomials in the operands,
//! through the ghost model [`Qs`]. Two representations denote the same
//! rational exactly when [`q_eqv`] holds of them.

use vstd::prelude::*;
use crate::bignum::big_val;
use crate::bignum::big_from_i128;
use crate::bignum::big_clone;
use crate::bignum::big_add;
use crate::bignum::big_sub;
use crate::bignum::big_mul;
use crate::bignum::big_neg;
use crate::bignum::big_lt;
use crate::bignum::big_eq;
use crate::bignum::big_div_mod_floor;

verus! {

/// Ghost model of a rational: a numerator over a denominator.
pub struct Qs {
    pub n: int,
    pub d: int,
}

/// A representation is well formed when its denominator is positive.
pub open spec fn q_wf(a: Qs) -> bool {
    a.d > 0
}

/// The integer `i` as a rational.
pub open spec fn q_int(i: int) -> Qs {
    Qs { n: i, d: 1 }
}

pub open spec fn q_add(a: Qs, b: Qs) -> Qs {
    Qs { n: a.n * b.d + b.n * a.d, d: a.d * b.d }
}

pub open spec fn q_sub(a: Qs, b: Qs) -> Qs {
    Qs { n: a.n * b.d - b.n * a.d, d: a.d * b.d }
}

pub open spec fn q_mul(a: Qs, b: Qs) -> Qs {
    Qs { n: a.n * b.n, d: a.d * b.d }
}

pub open spec fn q_neg(a: Qs) -> Qs {
    Qs { n: -a.n, d: a.d }
}

/// Division, with the sign moved into the numerator so that a well-formed
/// operand with a nonzero divisor gives a well-formed result.
pub open spec fn q_div(a: Qs, b: Qs) -> Qs {
    if b.n >= 0 {
        Qs { n: a.n * b.d, d: a.d * b.n }
    } else {
        Qs { n: -(a.n * b.d), d: -(a.d * b.n) }
    }
}

/// `a` and `b` denote the same rational (meaningful when both are well
/// formed).
pub open spec fn q_eqv(a: Qs, b: Qs) -> bool {
    a.n * b.d == b.n * a.d
}

/// `a` denotes a strictly smaller rational than `b` (meaningful when both are
/// well formed).
pub open spec fn q_lt(a: Qs, b: Qs) -> bool {
    a.n * b.d < b.n * a.d
}

pub open spec fn q_le(a: Qs, b: Qs) -> bool {
    a.n * b.d <= b.n * a.d
}

pub open spec fn q_abs(a: Qs) -> Qs {
    if a.n >= 0 {
        a
    } else {
        q_neg(a)
    }
}

/// `a` rounded down to a multiple of `1/s`.
pub open spec fn q_round(a: Qs, s: int) -> Qs {
    Qs { n: (a.n * s) / a.d, d: s }
}

/// An exact rational number: `num / den`, with `den` positive.
pub struct Ratio {
    pub num: num_bigint::BigInt,
    pub den: num_bigint::BigInt,
}

impl View for Ratio {
    type V = Qs;

    open spec fn view(&self) -> Qs {
        Qs { n: big_val(self.num), d: big_val(self.den) }
    }
}

impl Ratio {
    pub open spec fn wf(&self) -> bool {
        q_wf(self@)
    }

    pub fn new(num: i128, den: i128) -> (r: Ratio)
        requires
            den > 0,
        ensures
            r@ == (Qs { n: num as int, d: den as int }),
            r.wf(),
    {
        Ratio { num: big_from_i128(num), den: big_from_i128(den) }
    }

    pub fn from_int(i: i128) -> (r: Ratio)
        ensures
            r@ == q_int(i as int),
            r.wf(),
    {
        Ratio::new(i, 1)
    }

    /// An exact copy.
    pub fn dup(&self) -> (r: Ratio)
        ensures
            r@ == self@,
    {
        Ratio { num: big_clone(&self.num), den: big_clone(&self.den) }
    }

    pub fn add(&self, o: &Ratio) -> (r: Ratio)
        requires
            self.wf(),
            o.wf(),
        ensures
            r@ == q_add(self@, o@),
            r.wf(),
    {
        proof {
            assert(self@.d * o@.d > 0) by (nonlinear_arith)
                requires
                    self@.d > 0,
                    o@.d > 0,
            ;
        }
        let n = big_add(&big_mul(&self.num, &o.den), &big_mul(&o.num, &self.den));
        let d = big_mul(&self.den, &o.den);
        Ratio { num: n, den: d }
    }

    pub fn sub(&self, o: &Ratio) -> (r: Ratio)
        requires
            self.wf(),
            o.wf(),
        ensures
            r@ == q_sub(self@, o@),
            r.wf(),
    {
        proof {
            assert(self@.d * o@.d > 0) by (nonlinear_arith)
                requires
                    self@.d > 0,
                    o@.d > 0,
            ;
        }
        let n = big_sub(&big_mul(&self.num, &o.den), &big_mul(&o.num, &self.den));
        let d = big_mul(&self.den, &o.den);
        Ratio { num: n, den: d }
    }

    pub fn mul(&self, o: &Ratio) -> (r: Ratio)
        requires
            self.wf(),
            o.wf(),
        ensures
            r@ == q_mul(self@, o@),
            r.wf(),
    {
        proof {
            assert(self@.d * o@.d > 0) by (nonlinear_arith)
                requires
                    self@.d > 0,
                    o@.d > 0,
            ;
        }
        let n = big_mul(&self.num, &o.num);
        let d = big_mul(&self.den, &o.den);
        Ratio { num: n, den: d }
    }

    pub fn neg(&self) -> (r: Ratio)
        requires
            self.wf(),
        ensures
            r@ == q_neg(self@),
            r.wf(),
    {
        Ratio { num: big_neg(&self.num), den: big_clone(&self.den) }
    }

    pub fn div(&self, o: &Ratio) -> (r: Ratio)
        requires
            self.wf(),
            o.wf(),
            o@.n != 0,
        ensures
            r@ == q_div(self@, o@),
            r.wf(),
    {
        let zero = big_from_i128(0);
        if big_lt(&o.num, &zero) {
            proof {
                assert(-(self@.d * o@.n) > 0) by (nonlinear_arith)
                    requires
                        self@.d > 0,
                        o@.n < 0,
                ;
            }
            let n = big_neg(&big_mul(&self.num, &o.den));
            let d = big_neg(&big_mul(&self.den, &o.num));
            Ratio { num: n, den: d }
        } else {
            proof {
                assert(self@.d * o@.n > 0) by (nonlinear_arith)
                    requires
                        self@.d > 0,
                        o@.n > 0,
                ;
            }
            let n = big_mul(&self.num, &o.den);
            let d = big_mul(&self.den, &o.num);
            Ratio { num: n, den: d }
        }
    }

    pub fn lt(&self, o: &Ratio) -> (r: bool)
        requires
            self.wf(),
            o.wf(),
        ensures
            r == q_lt(self@, o@),
    {
        big_lt(&big_mul(&self.num, &o.den), &big_mul(&o.num, &self.den))
    }

    pub fn le(&self, o: &Ratio) -> (r: bool)
        requires
            self.wf(),
            o.wf(),
        ensures
            r == q_le(self@, o@),
    {
        !big_lt(&big_mul(&o.num, &self.den), &big_mul(&self.num, &o.den))
    }

    /// Whether the two representations denote the same rational.
    pub fn eq_val(&self, o: &Ratio) -> (r: bool)
        requires
            self.wf(),
            o.wf(),
        ensures
            r == q_eqv(self@, o@),
    {
        big_eq(&big_mul(&self.num, &o.den), &big_mul(&o.num, &self.den))
    }

    pub fn num_is_neg(&self) -> (r: bool)
        ensures
            r == (self@.n < 0),
    {
        let zero = big_from_i128(0);
        big_lt(&self.num, &zero)
    }

    pub fn num_is_zero(&self) -> (r: bool)
        ensures
            r == (self@.n == 0),
    {
        let zero = big_from_i128(0);
        big_eq(&self.num, &zero)
    }

    /// The numerator of `self` rounded down to a multiple of `1/scale`, that
    /// is, the integer part of `self * scale`.
    pub fn floor_scaled(&self, scale: i128) -> (r: num_bigint::BigInt)
        requires
            self.wf(),
            scale > 0,
        ensures
            big_val(r) == (self@.n * scale) / self@.d,
    {
        let s = big_from_i128(scale);
        let scaled = big_mul(&self.num, &s);
        let (q, m) = big_div_mod_floor(&scaled, &self.den);
        proof {
            let x = self@.n * scale;
            let d = self@.d;
            vstd::arithmetic::div_mod::lemma_fundamental_div_mod(x, d);
            vstd::arithmetic::div_mod::lemma_mod_bound(x, d);
            assert(big_val(q) == x / d) by (nonlinear_arith)
                requires
                    x == big_val(q) * d + big_val(m),
                    0 <= big_val(m) < d,
                    x == d * (x / d) + x % d,
                    0 <= x % d < d,
            ;
        }
        q
    }

    /// `self` rounded down to a multiple of `1/scale`.
    pub fn round_to_scale(&self, scale: i128) -> (r: Ratio)
        requires
            self.wf(),
            scale > 0,
        ensures
            r@ == q_round(self@, scale as int),
            r.wf(),
    {
        let n = self.floor_scaled(scale);
        Ratio { num: n, den: big_from_i128(scale) }
    }
}

/// Rounding never moves a value by as much as `1/s`: the rounded value lies in
/// `(a - 1/s, a]`.
pub proof fn lemma_round_close(a: Qs, s: int)
    requires
        q_wf(a),
        s > 0,
    ensures
        q_wf(q_round(a, s)),
        q_le(q_round(a, s), a),
        q_lt(a, q_add(q_round(a, s), Qs { n: 1, d: s })),
{
    let x = a.n * s;
    let d = a.d;
    vstd::arithmetic::div_mod::lemma_fundamental_div_mod(x, d);
    vstd::arithmetic::div_mod::lemma_mod_bound(x, d);
    let q = x / d;
    assert(q * d <= x < q * d + d);
    assert((x / d) * a.d <= (a.n * s) < (x / d) * a.d + a.d);
    assert(q_le(q_round(a, s), a)) by (nonlinear_arith)
        requires
            q == x / d,
            x == a.n * s,
            d == a.d,
            q * d <= x,
            d > 0,
            s > 0,
    ;
    assert(q_lt(a, q_add(q_round(a, s), Qs { n: 1, d: s }))) by (nonlinear_arith)
        requires
            q == x / d,
            x == a.n * s,
            d == a.d,
            x < q * d + d,
            d > 0,
            s > 0,
    ;
}

} // verus!
