//! Univariate polynomials over the field, in coefficient form, with the
//! arithmetic done by arkworks' dense polynomials.
use vstd::prelude::*;
use ark_bls12_381::Fr;
use ark_ff::{BigInteger256, PrimeField};
use ark_poly::univariate::DensePolynomial;
use ark_poly::{Polynomial, UVPolynomial};
use crate::field::{Fe, fadd, fmul, modulus};
use crate::composer::all_wf;
use vstd::arithmetic::div_mod::lemma_small_mod;

verus! {

/// The coefficient of `x^i`; zero past the end.
pub open spec fn coeff(s: Seq<Fe>, i: int) -> int {
    if 0 <= i < s.len() {
        s[i].val()
    } else {
        0
    }
}

/// The value at `x` of the polynomial with coefficients `s`, lowest first.
pub open spec fn poly_eval(s: Seq<Fe>, x: int) -> int
    decreases s.len(),
{
    if s.len() == 0 {
        0
    } else {
        fadd(s[0].val(), fmul(x, poly_eval(s.drop_first(), x)))
    }
}

/// Polynomials with the same coefficients have the same value everywhere.
pub proof fn lemma_eval_same_coeffs(s: Seq<Fe>, t: Seq<Fe>, x: int)
    requires
        forall|i: int| #[trigger] coeff(s, i) == coeff(t, i),
    ensures
        poly_eval(s, x) == poly_eval(t, x),
    decreases s.len() + t.len(),
{
    if s.len() == 0 && t.len() == 0 {
    } else {
        let s1 = if s.len() == 0 { s } else { s.drop_first() };
        let t1 = if t.len() == 0 { t } else { t.drop_first() };
        assert forall|i: int| #[trigger] coeff(s1, i) == coeff(t1, i) by {
            assert(coeff(s, i + 1) == coeff(t, i + 1));
            if i < 0 {
                assert(coeff(s1, i) == 0 && coeff(t1, i) == 0);
            } else {
            if s.len() == 0 {
                assert(coeff(s1, i) == 0);
            } else {
                assert(coeff(s1, i) == coeff(s, i + 1));
            }
            if t.len() == 0 {
                assert(coeff(t1, i) == 0);
            } else {
                assert(coeff(t1, i) == coeff(t, i + 1));
            }
            }
        }
        lemma_eval_same_coeffs(s1, t1, x);
        assert(coeff(s, 0) == coeff(t, 0));
        assert(modulus() > 0);
        assert(x * 0 == 0);
        lemma_small_mod(0, modulus() as nat);
        assert(fmul(x, 0) == 0);
        assert(fadd(0, 0) == 0);
        if s.len() == 0 {
            assert(poly_eval(t, x) == fadd(0, fmul(x, poly_eval(s, x))));
        } else if t.len() == 0 {
            assert(poly_eval(s, x) == fadd(0, fmul(x, poly_eval(t, x))));
        }
    }
}

/// A polynomial in normal form: canonical coefficients, and no zero as the
/// last one (the zero polynomial has none).
pub struct Poly {
    pub coeffs: Vec<Fe>,
}

impl Poly {
    pub open spec fn wf(self) -> bool {
        all_wf(self.coeffs@) && (self.coeffs@.len() == 0 || self.coeffs@.last().val() != 0)
    }

    /// The coefficient of `x^i`.
    pub open spec fn coeff(self, i: int) -> int {
        coeff(self.coeffs@, i)
    }

    pub open spec fn eval(self, x: int) -> int {
        poly_eval(self.coeffs@, x)
    }

    /// The polynomial with these coefficients, lowest first; trailing zeros
    /// are dropped.
    pub fn from_coefficients_vec(coeffs: Vec<Fe>) -> (r: Poly)
        requires
            all_wf(coeffs@),
        ensures
            r.wf(),
            r.coeffs@.len() <= coeffs@.len(),
            forall|i: int| #[trigger] r.coeff(i) == coeff(coeffs@, i),
            forall|x: int| #[trigger] r.eval(x) == poly_eval(coeffs@, x),
    {
        let r = ark_from_coefficients(coeffs);
        proof {
            assert forall|i: int| #[trigger] coeff(r.coeffs@, i) == coeff(coeffs@, i) by {
                assert(r.coeff(i) == coeff(coeffs@, i));
            }
            assert forall|x: int| #[trigger] r.eval(x) == poly_eval(coeffs@, x) by {
                lemma_eval_same_coeffs(r.coeffs@, coeffs@, x);
            }
        }
        r
    }

    /// `self + other`.
    pub fn add(&self, other: &Poly) -> (r: Poly)
        requires
            self.wf(),
            other.wf(),
        ensures
            r.wf(),
            forall|i: int| #[trigger] r.coeff(i) == fadd(self.coeff(i), other.coeff(i)),
    {
        ark_add(self, other)
    }

    /// `self · s` for a field element `s`.
    pub fn scale(&self, s: &Fe) -> (r: Poly)
        requires
            self.wf(),
            s.wf(),
        ensures
            r.wf(),
            forall|i: int| #[trigger] r.coeff(i) == fmul(self.coeff(i), s.val()),
    {
        ark_scale(self, s)
    }

    /// The value at `x`.
    pub fn evaluate(&self, x: &Fe) -> (r: Fe)
        requires
            self.wf(),
            x.wf(),
        ensures
            r.wf(),
            r.val() == self.eval(x.val()),
    {
        ark_evaluate(self, x)
    }
}

/// Relies on `DensePolynomial::from_coefficients_vec` of ark-poly: the same
/// coefficients with the trailing zeros dropped.
#[verifier::external_body]
fn ark_from_coefficients(coeffs: Vec<Fe>) -> (r: Poly)
    requires
        all_wf(coeffs@),
    ensures
        r.wf(),
        r.coeffs@.len() <= coeffs@.len(),
        forall|i: int| #[trigger] r.coeff(i) == coeff(coeffs@, i),
{
    let v = coeffs.iter().map(|a| Fr::from_repr(BigInteger256([a.l0, a.l1, a.l2, a.l3])).unwrap());
    let p = DensePolynomial::from_coefficients_vec(v.collect());
    let r = p.coeffs.iter().map(|x| x.into_repr().0);
    Poly { coeffs: r.map(|l| Fe { l0: l[0], l1: l[1], l2: l[2], l3: l[3] }).collect() }
}

/// Relies on `Add` of ark-poly's `DensePolynomial`: coefficient-wise sums,
/// trailing zeros dropped.
#[verifier::external_body]
fn ark_add(p: &Poly, q: &Poly) -> (r: Poly)
    requires
        p.wf(),
        q.wf(),
    ensures
        r.wf(),
        forall|i: int| #[trigger] r.coeff(i) == fadd(p.coeff(i), q.coeff(i)),
{
    let a = DensePolynomial { coeffs: p.coeffs.iter().map(|a| Fr::from_repr(BigInteger256([a.l0, a.l1, a.l2, a.l3])).unwrap()).collect() };
    let b = DensePolynomial { coeffs: q.coeffs.iter().map(|a| Fr::from_repr(BigInteger256([a.l0, a.l1, a.l2, a.l3])).unwrap()).collect() };
    let r = (&a + &b).coeffs.into_iter().map(|x| x.into_repr().0);
    Poly { coeffs: r.map(|l| Fe { l0: l[0], l1: l[1], l2: l[2], l3: l[3] }).collect() }
}

/// Relies on `Mul<F>` of ark-poly's `DensePolynomial`: every coefficient
/// times `s` (the zero polynomial when `s` is zero).
#[verifier::external_body]
fn ark_scale(p: &Poly, s: &Fe) -> (r: Poly)
    requires
        p.wf(),
        s.wf(),
    ensures
        r.wf(),
        forall|i: int| #[trigger] r.coeff(i) == fmul(p.coeff(i), s.val()),
{
    let a = DensePolynomial { coeffs: p.coeffs.iter().map(|a| Fr::from_repr(BigInteger256([a.l0, a.l1, a.l2, a.l3])).unwrap()).collect() };
    let e = Fr::from_repr(BigInteger256([s.l0, s.l1, s.l2, s.l3])).unwrap();
    let r = (&a * e).coeffs.into_iter().map(|x| x.into_repr().0);
    Poly { coeffs: r.map(|l| Fe { l0: l[0], l1: l[1], l2: l[2], l3: l[3] }).collect() }
}

/// Relies on `Polynomial::evaluate` of ark-poly's `DensePolynomial`: the
/// value of the polynomial at `x`.
#[verifier::external_body]
fn ark_evaluate(p: &Poly, x: &Fe) -> (r: Fe)
    requires
        p.wf(),
        x.wf(),
    ensures
        r.wf(),
        r.val() == p.eval(x.val()),
{
    let a = DensePolynomial { coeffs: p.coeffs.iter().map(|a| Fr::from_repr(BigInteger256([a.l0, a.l1, a.l2, a.l3])).unwrap()).collect() };
    let l = a.evaluate(&Fr::from_repr(BigInteger256([x.l0, x.l1, x.l2, x.l3])).unwrap()).into_repr().0;
    Fe { l0: l[0], l1: l[1], l2: l[2], l3: l[3] }
}

} // verus!
