//! Elements of the scalar field of BLS12-381, held as four canonical 64-bit
//! limbs, with the arithmetic done by arkworks.
use vstd::prelude::*;
use vstd::arithmetic::div_mod::{
    lemma_fundamental_div_mod_converse, lemma_mul_mod_noop_left, lemma_mul_mod_noop_right,
    lemma_add_mod_noop, lemma_add_mod_noop_right, lemma_small_mod,
};
use vstd::arithmetic::mul::{lemma_mul_is_associative, lemma_mul_is_distributive_add};
use ark_bls12_381::Fr;
use ark_ff::{BigInteger256, Field, PrimeField};

verus! {

/// 2^64, the weight of one limb.
pub open spec fn limb_base() -> int {
    0x1_0000_0000_0000_0000
}

/// The integer written by four little-endian 64-bit limbs.
pub open spec fn limbs_value(l0: int, l1: int, l2: int, l3: int) -> int {
    l0 + limb_base() * (l1 + limb_base() * (l2 + limb_base() * l3))
}

/// The order of the field,
/// 52435875175126190479447740508185965837690552500527637822603658699938581184513.
pub open spec fn modulus() -> int {
    limbs_value(0xffffffff00000001, 0x53bda402fffe5bfe, 0x3339d80809a1d805, 0x73eda753299d7d48)
}

pub open spec fn fadd(a: int, b: int) -> int {
    (a + b) % modulus()
}

pub open spec fn fsub(a: int, b: int) -> int {
    (a - b) % modulus()
}

pub open spec fn fneg(a: int) -> int {
    (0 - a) % modulus()
}

pub open spec fn fmul(a: int, b: int) -> int {
    (a * b) % modulus()
}

/// `x` to the power `e`, in the field.
pub open spec fn fpow(x: int, e: nat) -> int
    decreases e,
{
    if e == 0 {
        1
    } else {
        fmul(x, fpow(x, (e - 1) as nat))
    }
}

/// The values of a sequence of elements.
pub open spec fn vals(s: Seq<Fe>) -> Seq<int> {
    s.map_values(|x: Fe| x.val())
}

/// Multiplication in the field is associative.
pub proof fn lemma_fmul_assoc(a: int, b: int, c: int)
    ensures
        fmul(fmul(a, b), c) == fmul(a, fmul(b, c)),
{
    let m = modulus();
    lemma_mul_mod_noop_left(a * b, c, m);
    lemma_mul_mod_noop_right(a, b * c, m);
    lemma_mul_is_associative(a, b, c);
}

/// Multiplication distributes over addition in the field.
pub proof fn lemma_fmul_distrib(a: int, b: int, c: int)
    ensures
        fmul(a, fadd(b, c)) == fadd(fmul(a, b), fmul(a, c)),
{
    let m = modulus();
    lemma_mul_mod_noop_right(a, b + c, m);
    lemma_mul_is_distributive_add(a, b, c);
    lemma_add_mod_noop(a * b, a * c, m);
}

/// Addition in the field is associative.
pub proof fn lemma_fadd_assoc(a: int, b: int, c: int)
    ensures
        fadd(fadd(a, b), c) == fadd(a, fadd(b, c)),
{
    let m = modulus();
    lemma_add_mod_noop_right(c, a + b, m);
    lemma_add_mod_noop_right(a, b + c, m);
    assert(c + (a + b) == a + (b + c));
}

/// One is neutral for multiplication and zero for addition, on reduced
/// values.
pub proof fn lemma_neutral(a: int)
    requires
        0 <= a < modulus(),
    ensures
        fmul(a, 1) == a,
        fmul(1, a) == a,
        fadd(a, 0) == a,
        fadd(0, a) == a,
        fmul(a, 0) == 0,
        fmul(0, a) == 0,
{
    lemma_small_mod(a as nat, modulus() as nat);
    lemma_small_mod(0, modulus() as nat);
}

/// A field element in canonical form: its value is below the modulus.
#[derive(Clone, Copy, Debug, PartialEq, Eq, Structural)]
pub struct Fe {
    pub(crate) l0: u64,
    pub(crate) l1: u64,
    pub(crate) l2: u64,
    pub(crate) l3: u64,
}

proof fn lemma_limbs_unique(a0: int, a1: int, a2: int, a3: int, b0: int, b1: int, b2: int, b3: int)
    requires
        0 <= a0 < limb_base(),
        0 <= a1 < limb_base(),
        0 <= a2 < limb_base(),
        0 <= a3,
        0 <= b0 < limb_base(),
        0 <= b1 < limb_base(),
        0 <= b2 < limb_base(),
        0 <= b3,
        limbs_value(a0, a1, a2, a3) == limbs_value(b0, b1, b2, b3),
    ensures
        a0 == b0 && a1 == b1 && a2 == b2 && a3 == b3,
{
    let d = limb_base();
    let x = limbs_value(a0, a1, a2, a3);
    let qa = a1 + d * (a2 + d * a3);
    let qb = b1 + d * (b2 + d * b3);
    lemma_fundamental_div_mod_converse(x, d, qa, a0);
    lemma_fundamental_div_mod_converse(x, d, qb, b0);
    let ra = a2 + d * a3;
    let rb = b2 + d * b3;
    lemma_fundamental_div_mod_converse(qa, d, ra, a1);
    lemma_fundamental_div_mod_converse(qb, d, rb, b1);
    lemma_fundamental_div_mod_converse(ra, d, a3, a2);
    lemma_fundamental_div_mod_converse(rb, d, b3, b2);
}

impl Fe {
    pub closed spec fn val(self) -> int {
        limbs_value(self.l0 as int, self.l1 as int, self.l2 as int, self.l3 as int)
    }

    pub open spec fn wf(self) -> bool {
        self.val() < modulus()
    }

    /// The value is never negative.
    pub proof fn lemma_val_nonneg(self)
        ensures
            0 <= self.val(),
    {
        assert(0 <= self.val()) by (nonlinear_arith)
            requires
                self.val() == limbs_value(self.l0 as int, self.l1 as int, self.l2 as int, self.l3 as int),
                0 <= self.l0,
                0 <= self.l1,
                0 <= self.l2,
                0 <= self.l3,
        ;
    }

    /// Two elements of equal value are the same element.
    pub proof fn lemma_val_injective(self, other: Fe)
        requires
            self.val() == other.val(),
        ensures
            self == other,
    {
        lemma_limbs_unique(
            self.l0 as int, self.l1 as int, self.l2 as int, self.l3 as int,
            other.l0 as int, other.l1 as int, other.l2 as int, other.l3 as int,
        );
    }

    pub fn from_u64(x: u64) -> (r: Fe)
        ensures
            r.wf(),
            r.val() == x,
    {
        Fe { l0: x, l1: 0, l2: 0, l3: 0 }
    }

    /// The four little-endian 64-bit limbs of the canonical value.
    pub fn to_limbs(&self) -> (r: [u64; 4])
        ensures
            limbs_value(r[0] as int, r[1] as int, r[2] as int, r[3] as int) == self.val(),
    {
        [self.l0, self.l1, self.l2, self.l3]
    }

    /// The element whose value is that of the four little-endian limbs,
    /// reduced modulo the field's order.
    pub fn from_limbs(limbs: [u64; 4]) -> (r: Fe)
        ensures
            r.wf(),
            r.val() == limbs_value(limbs[0] as int, limbs[1] as int, limbs[2] as int, limbs[3] as int) % modulus(),
    {
        let base = Fe { l0: 0, l1: 1, l2: 0, l3: 0 };
        let ghost b = limb_base();
        let ghost m = modulus();
        let ghost x0 = limbs[0] as int;
        let ghost x1 = limbs[1] as int;
        let ghost x2 = limbs[2] as int;
        let ghost x3 = limbs[3] as int;
        let t3 = Fe::from_u64(limbs[3]);
        let t2 = Fe::from_u64(limbs[2]).add(&base.mul(&t3));
        let t1 = Fe::from_u64(limbs[1]).add(&base.mul(&t2));
        let t0 = Fe::from_u64(limbs[0]).add(&base.mul(&t1));
        proof {
            assert(base.val() == b);
            lemma_small_mod(x3 as nat, m as nat);
            assert(t2.val() == (x2 + b * x3) % m) by {
                lemma_mul_mod_noop_right(b, x3, m);
                lemma_add_mod_noop_right(x2, b * x3, m);
            }
            assert(t1.val() == (x1 + b * (x2 + b * x3)) % m) by {
                lemma_mul_mod_noop_right(b, x2 + b * x3, m);
                lemma_add_mod_noop_right(x1, b * (x2 + b * x3), m);
            }
            assert(t0.val() == (x0 + b * (x1 + b * (x2 + b * x3))) % m) by {
                lemma_mul_mod_noop_right(b, x1 + b * (x2 + b * x3), m);
                lemma_add_mod_noop_right(x0, b * (x1 + b * (x2 + b * x3)), m);
            }
        }
        t0
    }

    pub fn zero() -> (r: Fe)
        ensures
            r.wf(),
            r.val() == 0,
    {
        Fe::from_u64(0)
    }

    pub fn one() -> (r: Fe)
        ensures
            r.wf(),
            r.val() == 1,
    {
        Fe::from_u64(1)
    }

    pub fn is_zero(&self) -> (r: bool)
        ensures
            r == (self.val() == 0),
    {
        let z = Fe::zero();
        proof {
            if self.val() == 0 {
                self.lemma_val_injective(z);
            }
        }
        *self == z
    }

    pub fn add(&self, other: &Fe) -> (r: Fe)
        requires
            self.wf(),
            other.wf(),
        ensures
            r.wf(),
            r.val() == fadd(self.val(), other.val()),
    {
        fr_add(self, other)
    }

    pub fn sub(&self, other: &Fe) -> (r: Fe)
        requires
            self.wf(),
            other.wf(),
        ensures
            r.wf(),
            r.val() == fsub(self.val(), other.val()),
    {
        fr_sub(self, other)
    }

    pub fn neg(&self) -> (r: Fe)
        requires
            self.wf(),
        ensures
            r.wf(),
            r.val() == fneg(self.val()),
    {
        fr_neg(self)
    }

    pub fn mul(&self, other: &Fe) -> (r: Fe)
        requires
            self.wf(),
            other.wf(),
        ensures
            r.wf(),
            r.val() == fmul(self.val(), other.val()),
    {
        fr_mul(self, other)
    }

    /// The square, taken as the product of the element with itself.
    pub fn square(&self) -> (r: Fe)
        requires
            self.wf(),
        ensures
            r.wf(),
            r.val() == fmul(self.val(), self.val()),
    {
        fr_mul(self, self)
    }

    /// The multiplicative inverse; `None` for zero.
    pub fn inverse(&self) -> (r: Option<Fe>)
        requires
            self.wf(),
        ensures
            r.is_none() <==> self.val() == 0,
            r.is_some() ==> r.unwrap().wf() && fmul(self.val(), r.unwrap().val()) == 1,
    {
        fr_inverse(self)
    }

    pub fn pow(&self, e: u64) -> (r: Fe)
        requires
            self.wf(),
        ensures
            r.wf(),
            r.val() == fpow(self.val(), e as nat),
    {
        fr_pow(self, e)
    }
}

/// Relies on `Add` of ark-ff's `Fp256` for BLS12-381's scalar field: the sum
/// modulo the field's order, in canonical form.
#[verifier::external_body]
fn fr_add(a: &Fe, b: &Fe) -> (r: Fe)
    requires
        a.wf(),
        b.wf(),
    ensures
        r.wf(),
        r.val() == fadd(a.val(), b.val()),
{
    let x = Fr::from_repr(BigInteger256([a.l0, a.l1, a.l2, a.l3])).unwrap();
    let y = Fr::from_repr(BigInteger256([b.l0, b.l1, b.l2, b.l3])).unwrap();
    let r = (x + y).into_repr().0;
    Fe { l0: r[0], l1: r[1], l2: r[2], l3: r[3] }
}

/// Relies on `Sub` of ark-ff's `Fp256` for BLS12-381's scalar field: the
/// difference modulo the field's order, in canonical form.
#[verifier::external_body]
fn fr_sub(a: &Fe, b: &Fe) -> (r: Fe)
    requires
        a.wf(),
        b.wf(),
    ensures
        r.wf(),
        r.val() == fsub(a.val(), b.val()),
{
    let x = Fr::from_repr(BigInteger256([a.l0, a.l1, a.l2, a.l3])).unwrap();
    let y = Fr::from_repr(BigInteger256([b.l0, b.l1, b.l2, b.l3])).unwrap();
    let r = (x - y).into_repr().0;
    Fe { l0: r[0], l1: r[1], l2: r[2], l3: r[3] }
}

/// Relies on `Neg` of ark-ff's `Fp256` for BLS12-381's scalar field: the
/// additive inverse modulo the field's order, in canonical form.
#[verifier::external_body]
fn fr_neg(a: &Fe) -> (r: Fe)
    requires
        a.wf(),
    ensures
        r.wf(),
        r.val() == fneg(a.val()),
{
    let x = Fr::from_repr(BigInteger256([a.l0, a.l1, a.l2, a.l3])).unwrap();
    let r = (-x).into_repr().0;
    Fe { l0: r[0], l1: r[1], l2: r[2], l3: r[3] }
}

/// Relies on `Mul` of ark-ff's `Fp256` for BLS12-381's scalar field: the
/// product modulo the field's order, in canonical form.
#[verifier::external_body]
fn fr_mul(a: &Fe, b: &Fe) -> (r: Fe)
    requires
        a.wf(),
        b.wf(),
    ensures
        r.wf(),
        r.val() == fmul(a.val(), b.val()),
{
    let x = Fr::from_repr(BigInteger256([a.l0, a.l1, a.l2, a.l3])).unwrap();
    let y = Fr::from_repr(BigInteger256([b.l0, b.l1, b.l2, b.l3])).unwrap();
    let r = (x * y).into_repr().0;
    Fe { l0: r[0], l1: r[1], l2: r[2], l3: r[3] }
}

/// Relies on `Field::inverse` of ark-ff's `Fp256` for BLS12-381's scalar
/// field: `None` for zero, else the element whose product with `a` is one.
#[verifier::external_body]
fn fr_inverse(a: &Fe) -> (r: Option<Fe>)
    requires
        a.wf(),
    ensures
        r.is_none() <==> a.val() == 0,
        r.is_some() ==> r.unwrap().wf() && fmul(a.val(), r.unwrap().val()) == 1,
{
    let x = Fr::from_repr(BigInteger256([a.l0, a.l1, a.l2, a.l3])).unwrap();
    x.inverse().map(|v| {
        let r = v.into_repr().0;
        Fe { l0: r[0], l1: r[1], l2: r[2], l3: r[3] }
    })
}

/// Relies on `Field::pow` of ark-ff's `Fp256` for BLS12-381's scalar field:
/// `a` multiplied by itself `e` times (one for `e = 0`).
#[verifier::external_body]
fn fr_pow(a: &Fe, e: u64) -> (r: Fe)
    requires
        a.wf(),
    ensures
        r.wf(),
        r.val() == fpow(a.val(), e as nat),
{
    let x = Fr::from_repr(BigInteger256([a.l0, a.l1, a.l2, a.l3])).unwrap();
    let r = x.pow([e]).into_repr().0;
    Fe { l0: r[0], l1: r[1], l2: r[2], l3: r[3] }
}

} // verus!
