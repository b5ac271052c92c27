//! The evaluation domain (a multiplicative subgroup of power-of-two size),
//! transforms between coefficients and evaluations over it and over a coset
//! of it, Lagrange helpers, and linear combination by a challenge.
use vstd::prelude::*;
use ark_bls12_381::Fr;
use ark_ff::{BigInteger256, FftField, PrimeField};
use ark_poly::{EvaluationDomain, GeneralEvaluationDomain};
use crate::field::{
    Fe, fadd, fmul, fsub, fpow, modulus, lemma_fmul_assoc, lemma_fmul_distrib, lemma_fadd_assoc,
    lemma_neutral,
};
use crate::composer::all_wf;
use crate::lookup::{pow_of_two, lemma_pow_of_two_monotone};
use crate::poly::{Poly, poly_eval};

verus! {

/// A multiplicative subgroup of the field of size `2^k`, `k <= 32`, with
/// its constants: a generator, its inverse, the inverse of the size, and the
/// offset of the coset used for extended evaluations with its inverse.
pub struct Domain {
    size: usize,
    log_size: u32,
    size_inv: Fe,
    group_gen: Fe,
    group_gen_inv: Fe,
    offset: Fe,
    offset_inv: Fe,
}

impl Domain {
    pub closed spec fn spec_size(self) -> nat {
        self.size as nat
    }

    pub closed spec fn spec_log_size(self) -> nat {
        self.log_size as nat
    }

    /// The generator of the subgroup.
    pub closed spec fn omega(self) -> int {
        self.group_gen.val()
    }

    pub closed spec fn omega_inv(self) -> int {
        self.group_gen_inv.val()
    }

    pub closed spec fn size_inv_val(self) -> int {
        self.size_inv.val()
    }

    /// The coset offset.
    pub closed spec fn spec_offset(self) -> int {
        self.offset.val()
    }

    pub closed spec fn offset_inv(self) -> int {
        self.offset_inv.val()
    }

    pub closed spec fn consts_wf(self) -> bool {
        self.size_inv.wf() && self.group_gen.wf() && self.group_gen_inv.wf() && self.offset.wf()
            && self.offset_inv.wf()
    }

    pub open spec fn wf(self) -> bool {
        &&& self.consts_wf()
        &&& self.spec_log_size() <= 32
        &&& self.spec_size() == pow_of_two(self.spec_log_size())
        &&& fpow(self.omega(), self.spec_size()) == 1
        &&& forall|j: nat| 0 < j < self.spec_size() ==> #[trigger] fpow(self.omega(), j) != 1
        &&& fmul(self.omega(), self.omega_inv()) == 1
        &&& fmul(self.spec_size() as int, self.size_inv_val()) == 1
        &&& self.spec_offset() == 7
        &&& fpow(self.spec_offset(), self.spec_size()) != 1
        &&& fmul(self.spec_offset(), self.offset_inv()) == 1
    }

    /// The `j`-th element of the subgroup, `omega^j`.
    pub open spec fn spec_element(self, j: int) -> int {
        fpow(self.omega(), j as nat)
    }

    /// The `j`-th element of the coset, `offset · omega^j`.
    pub open spec fn spec_coset_element(self, j: int) -> int {
        fmul(self.spec_offset(), fpow(self.omega(), j as nat))
    }

    /// The smallest domain with room for `num_coeffs` coefficients: its size
    /// is the least power of two at or above `num_coeffs`.
    pub fn new(num_coeffs: usize) -> (r: Domain)
        requires
            num_coeffs <= 0x1_0000_0000,
            num_coeffs <= usize::MAX / 2 + 1,
        ensures
            r.wf(),
            r.spec_size() >= num_coeffs,
            r.spec_log_size() == 0 || pow_of_two((r.spec_log_size() - 1) as nat) < num_coeffs,
    {
        let mut size: usize = 1;
        let mut log_size: u32 = 0;
        proof {
            reveal_with_fuel(pow_of_two, 33);
        }
        while size < num_coeffs
            invariant
                num_coeffs <= 0x1_0000_0000,
                num_coeffs <= usize::MAX / 2 + 1,
                log_size <= 32,
                size == pow_of_two(log_size as nat),
                size >= 1,
                pow_of_two(32) == 0x1_0000_0000,
                log_size == 0 || pow_of_two((log_size - 1) as nat) < num_coeffs,
            decreases 0x1_0000_0000 - size,
        {
            proof {
                if log_size >= 32 {
                    lemma_pow_of_two_monotone(32, log_size as nat);
                }
                lemma_pow_of_two_monotone((log_size + 1) as nat, 32);
                assert(pow_of_two((log_size + 1) as nat) == 2 * pow_of_two(log_size as nat));
            }
            size = size * 2;
            log_size = log_size + 1;
        }
        let group_gen = ark_root_of_unity(size);
        proof {
            if group_gen.val() == 0 {
                assert(fpow(0, size as nat) == fmul(0, fpow(0, (size - 1) as nat)));
                assert(0 * fpow(0, (size - 1) as nat) == 0);
                lemma_neutral(0);
            }
            lemma_neutral(size as int);
            assert(size < modulus());
        }
        let group_gen_inv = group_gen.inverse().unwrap();
        let size_inv = Fe::from_u64(size as u64).inverse().unwrap();
        let offset = ark_multiplicative_generator();
        proof {
            assert(0 < size < modulus() - 1);
            assert(fpow(offset.val(), size as nat) != 1);
        }
        let offset_inv = offset.inverse().unwrap();
        Domain { size, log_size, size_inv, group_gen, group_gen_inv, offset, offset_inv }
    }

    pub fn size(&self) -> (r: usize)
        ensures
            r == self.spec_size(),
    {
        self.size
    }

    /// The `i`-th element of the subgroup.
    pub fn element(&self, i: usize) -> (r: Fe)
        requires
            self.wf(),
        ensures
            r.wf(),
            r.val() == self.spec_element(i as int),
    {
        self.group_gen.pow(i as u64)
    }
}

/// The constants of an evaluation domain.
pub trait EvaluationDomainExt {
    /// `log_2` of the size.
    fn log_size_of_group(&self) -> u32;

    /// The inverse of the size, in the field.
    fn size_inv(&self) -> Fe;

    /// The generator of the subgroup.
    fn group_gen(&self) -> Fe;

    /// The inverse of the generator.
    fn group_gen_inv(&self) -> Fe;

    /// The inverse of the multiplicative generator of the field, which is the
    /// coset offset.
    fn generator_inv(&self) -> Fe;
}

impl EvaluationDomainExt for Domain {
    fn log_size_of_group(&self) -> (r: u32)
        ensures
            r == self.spec_log_size(),
    {
        self.log_size
    }

    fn size_inv(&self) -> (r: Fe)
        ensures
            r.val() == self.size_inv_val(),
    {
        self.size_inv
    }

    fn group_gen(&self) -> (r: Fe)
        ensures
            r.val() == self.omega(),
    {
        self.group_gen
    }

    fn group_gen_inv(&self) -> (r: Fe)
        ensures
            r.val() == self.omega_inv(),
    {
        self.group_gen_inv
    }

    fn generator_inv(&self) -> (r: Fe)
        ensures
            r.val() == self.offset_inv(),
    {
        self.offset_inv
    }
}

/// Relies on `FftField::get_root_of_unity` of ark-ff for BLS12-381's scalar
/// field (two-adicity 32): an element of multiplicative order exactly `n`.
#[verifier::external_body]
fn ark_root_of_unity(n: usize) -> (r: Fe)
    requires
        exists|k: nat| k <= 32 && n == pow_of_two(k),
    ensures
        r.wf(),
        fpow(r.val(), n as nat) == 1,
        forall|j: nat| 0 < j < n ==> #[trigger] fpow(r.val(), j) != 1,
{
    let l = Fr::get_root_of_unity(n).unwrap().into_repr().0;
    Fe { l0: l[0], l1: l[1], l2: l[2], l3: l[3] }
}

/// Relies on `FftField::multiplicative_generator` of ark-ff for BLS12-381's
/// scalar field, which is 7: a generator of the multiplicative group, of
/// order `modulus - 1`.
#[verifier::external_body]
fn ark_multiplicative_generator() -> (r: Fe)
    ensures
        r.wf(),
        r.val() == 7,
        forall|j: nat| 0 < j < modulus() - 1 ==> #[trigger] fpow(r.val(), j) != 1,
{
    let l = Fr::multiplicative_generator().into_repr().0;
    Fe { l0: l[0], l1: l[1], l2: l[2], l3: l[3] }
}

/// Relies on `EvaluationDomain::fft` of ark-poly's `GeneralEvaluationDomain`
/// (built for the same size, so with the same generator): the values of the
/// polynomial with coefficients `coeffs` at `omega^0, ..., omega^(n-1)`.
#[verifier::external_body]
fn ark_fft(domain: &Domain, coeffs: &[Fe]) -> (r: Vec<Fe>)
    requires
        domain.wf(),
        all_wf(coeffs@),
        coeffs@.len() <= domain.spec_size(),
    ensures
        r@.len() == domain.spec_size(),
        all_wf(r@),
        forall|j: int| 0 <= j < domain.spec_size() ==> #[trigger] r@[j].val() == poly_eval(coeffs@, domain.spec_element(j)),
{
    let d = GeneralEvaluationDomain::<Fr>::new(domain.size).unwrap();
    let v: Vec<Fr> = coeffs.iter().map(|a| Fr::from_repr(BigInteger256([a.l0, a.l1, a.l2, a.l3])).unwrap()).collect();
    let r = d.fft(&v).into_iter().map(|x| x.into_repr().0);
    r.map(|l| Fe { l0: l[0], l1: l[1], l2: l[2], l3: l[3] }).collect()
}

/// Relies on `EvaluationDomain::ifft` of ark-poly's `GeneralEvaluationDomain`:
/// the coefficients of the polynomial of degree below `n` whose value at
/// `omega^j` is `evals[j]`.
#[verifier::external_body]
fn ark_ifft(domain: &Domain, evals: &[Fe]) -> (r: Vec<Fe>)
    requires
        domain.wf(),
        all_wf(evals@),
        evals@.len() == domain.spec_size(),
    ensures
        r@.len() == domain.spec_size(),
        all_wf(r@),
        forall|j: int| 0 <= j < domain.spec_size() ==> poly_eval(r@, domain.spec_element(j)) == #[trigger] evals@[j].val(),
{
    let d = GeneralEvaluationDomain::<Fr>::new(domain.size).unwrap();
    let v: Vec<Fr> = evals.iter().map(|a| Fr::from_repr(BigInteger256([a.l0, a.l1, a.l2, a.l3])).unwrap()).collect();
    let r = d.ifft(&v).into_iter().map(|x| x.into_repr().0);
    r.map(|l| Fe { l0: l[0], l1: l[1], l2: l[2], l3: l[3] }).collect()
}

/// Relies on `EvaluationDomain::coset_fft` of ark-poly's
/// `GeneralEvaluationDomain`, whose coset offset is the field's multiplicative
/// generator: the values of the polynomial at `offset · omega^j`.
#[verifier::external_body]
fn ark_coset_fft(domain: &Domain, coeffs: &[Fe]) -> (r: Vec<Fe>)
    requires
        domain.wf(),
        all_wf(coeffs@),
        coeffs@.len() <= domain.spec_size(),
    ensures
        r@.len() == domain.spec_size(),
        all_wf(r@),
        forall|j: int| 0 <= j < domain.spec_size() ==> #[trigger] r@[j].val() == poly_eval(coeffs@, domain.spec_coset_element(j)),
{
    let d = GeneralEvaluationDomain::<Fr>::new(domain.size).unwrap();
    let v: Vec<Fr> = coeffs.iter().map(|a| Fr::from_repr(BigInteger256([a.l0, a.l1, a.l2, a.l3])).unwrap()).collect();
    let r = d.coset_fft(&v).into_iter().map(|x| x.into_repr().0);
    r.map(|l| Fe { l0: l[0], l1: l[1], l2: l[2], l3: l[3] }).collect()
}

/// Relies on `EvaluationDomain::coset_ifft` of ark-poly's
/// `GeneralEvaluationDomain`: the coefficients of the polynomial of degree
/// below `n` whose value at `offset · omega^j` is `evals[j]`.
#[verifier::external_body]
fn ark_coset_ifft(domain: &Domain, evals: &[Fe]) -> (r: Vec<Fe>)
    requires
        domain.wf(),
        all_wf(evals@),
        evals@.len() == domain.spec_size(),
    ensures
        r@.len() == domain.spec_size(),
        all_wf(r@),
        forall|j: int| 0 <= j < domain.spec_size() ==> poly_eval(r@, domain.spec_coset_element(j)) == #[trigger] evals@[j].val(),
{
    let d = GeneralEvaluationDomain::<Fr>::new(domain.size).unwrap();
    let v: Vec<Fr> = evals.iter().map(|a| Fr::from_repr(BigInteger256([a.l0, a.l1, a.l2, a.l3])).unwrap()).collect();
    let r = d.coset_ifft(&v).into_iter().map(|x| x.into_repr().0);
    r.map(|l| Fe { l0: l[0], l1: l[1], l2: l[2], l3: l[3] }).collect()
}

/// The polynomial of degree below `n` whose value at the `j`-th domain
/// element is `evals[j]` (inverse transform).
pub fn poly_from_evals(domain: &Domain, evals: Vec<Fe>) -> (r: Poly)
    requires
        domain.wf(),
        all_wf(evals@),
        evals@.len() == domain.spec_size(),
    ensures
        r.wf(),
        r.coeffs@.len() <= domain.spec_size(),
        forall|j: int| 0 <= j < domain.spec_size() ==> r.eval(domain.spec_element(j)) == #[trigger] evals@[j].val(),
{
    poly_from_evals_ref(domain, evals.as_slice())
}

/// As `poly_from_evals`, on borrowed evaluations.
pub fn poly_from_evals_ref(domain: &Domain, evals: &[Fe]) -> (r: Poly)
    requires
        domain.wf(),
        all_wf(evals@),
        evals@.len() == domain.spec_size(),
    ensures
        r.wf(),
        r.coeffs@.len() <= domain.spec_size(),
        forall|j: int| 0 <= j < domain.spec_size() ==> r.eval(domain.spec_element(j)) == #[trigger] evals@[j].val(),
{
    let coeffs = ark_ifft(domain, evals);
    let r = Poly::from_coefficients_vec(coeffs);
    proof {
        assert forall|j: int| 0 <= j < domain.spec_size() implies r.eval(domain.spec_element(j)) == #[trigger] evals@[j].val() by {
            assert(r.eval(domain.spec_element(j)) == poly_eval(coeffs@, domain.spec_element(j)));
        }
    }
    r
}

/// The polynomial of degree below `n` whose value at the `j`-th coset
/// element is `evals[j]`.
pub fn poly_from_coset_evals(domain: &Domain, evals: Vec<Fe>) -> (r: Poly)
    requires
        domain.wf(),
        all_wf(evals@),
        evals@.len() == domain.spec_size(),
    ensures
        r.wf(),
        r.coeffs@.len() <= domain.spec_size(),
        forall|j: int| 0 <= j < domain.spec_size() ==> r.eval(domain.spec_coset_element(j)) == #[trigger] evals@[j].val(),
{
    let coeffs = ark_coset_ifft(domain, evals.as_slice());
    let r = Poly::from_coefficients_vec(coeffs);
    proof {
        assert forall|j: int| 0 <= j < domain.spec_size() implies r.eval(domain.spec_coset_element(j)) == #[trigger] evals@[j].val() by {
            assert(r.eval(domain.spec_coset_element(j)) == poly_eval(coeffs@, domain.spec_coset_element(j)));
        }
    }
    r
}

/// The values of `poly` at the domain elements (forward transform).
pub fn evals_from_poly_ref(domain: &Domain, poly: &Poly) -> (r: Vec<Fe>)
    requires
        domain.wf(),
        poly.wf(),
        poly.coeffs@.len() <= domain.spec_size(),
    ensures
        r@.len() == domain.spec_size(),
        all_wf(r@),
        forall|j: int| 0 <= j < domain.spec_size() ==> #[trigger] r@[j].val() == poly.eval(domain.spec_element(j)),
{
    ark_fft(domain, poly.coeffs.as_slice())
}

/// The values of `poly` at the coset elements.
pub fn coset_evals_from_poly(domain: &Domain, poly: Poly) -> (r: Vec<Fe>)
    requires
        domain.wf(),
        poly.wf(),
        poly.coeffs@.len() <= domain.spec_size(),
    ensures
        r@.len() == domain.spec_size(),
        all_wf(r@),
        forall|j: int| 0 <= j < domain.spec_size() ==> #[trigger] r@[j].val() == poly.eval(domain.spec_coset_element(j)),
        forall|j: int| 0 <= j < domain.spec_size() ==> #[trigger] fpow(domain.spec_coset_element(j), domain.spec_size()) != 1,
{
    coset_evals_from_poly_ref(domain, &poly)
}

/// As `coset_evals_from_poly`, on a borrowed polynomial.
pub fn coset_evals_from_poly_ref(domain: &Domain, poly: &Poly) -> (r: Vec<Fe>)
    requires
        domain.wf(),
        poly.wf(),
        poly.coeffs@.len() <= domain.spec_size(),
    ensures
        r@.len() == domain.spec_size(),
        all_wf(r@),
        forall|j: int| 0 <= j < domain.spec_size() ==> #[trigger] r@[j].val() == poly.eval(domain.spec_coset_element(j)),
        forall|j: int| 0 <= j < domain.spec_size() ==> #[trigger] fpow(domain.spec_coset_element(j), domain.spec_size()) != 1,
{
    proof {
        assert forall|j: int| 0 <= j < domain.spec_size() implies #[trigger] fpow(domain.spec_coset_element(j), domain.spec_size()) != 1 by {
            lemma_coset_misses_domain(*domain, j as nat);
        }
    }
    ark_coset_fft(domain, poly.coeffs.as_slice())
}

/// The Lagrange polynomial of the `index`-th domain element: one there, zero
/// at every other domain element, degree below `n`.
pub fn compute_lagrange_poly(domain: &Domain, index: usize) -> (r: Poly)
    requires
        domain.wf(),
        index < domain.spec_size(),
    ensures
        r.wf(),
        r.coeffs@.len() <= domain.spec_size(),
        forall|j: int| 0 <= j < domain.spec_size() ==> #[trigger] r.eval(domain.spec_element(j)) == if j == index {
            1int
        } else {
            0int
        },
{
    let n = domain.size();
    let mut x_evals: Vec<Fe> = Vec::new();
    let mut i: usize = 0;
    while i < n
        invariant
            i <= n,
            x_evals@.len() == i,
            forall|j: int| 0 <= j < i ==> #[trigger] x_evals@[j].val() == 0 && x_evals@[j].wf(),
        decreases n - i,
    {
        x_evals.push(Fe::zero());
        i = i + 1;
    }
    x_evals.set(index, Fe::one());
    let r = poly_from_evals(domain, x_evals);
    proof {
        assert forall|j: int| 0 <= j < domain.spec_size() implies #[trigger] r.eval(domain.spec_element(j)) == if j == index {
            1int
        } else {
            0int
        } by {
            assert(r.eval(domain.spec_element(j)) == x_evals@[j].val());
        }
    }
    r
}

/// The first Lagrange polynomial of a domain of size `n` at `z`, from the
/// vanishing polynomial's value `zh_eval = z^n - 1`:
/// `zh_eval / (n · (z - 1))`. `None` when `n · (z - 1)` is zero.
pub fn compute_first_lagrange_evaluation(n: usize, zh_eval: Fe, z: Fe) -> (r: Option<Fe>)
    requires
        zh_eval.wf(),
        z.wf(),
    ensures
        r is None <==> fmul(n as int, fsub(z.val(), 1)) == 0,
        r matches Some(v) ==> v.wf() && fmul(v.val(), fmul(n as int, fsub(z.val(), 1))) == zh_eval.val(),
{
    let n_fr = Fe::from_u64(n as u64);
    let denom = n_fr.mul(&z.sub(&Fe::one()));
    match denom.inverse() {
        Some(inv) => {
            let v = zh_eval.mul(&inv);
            proof {
                let d = denom.val();
                lemma_fmul_assoc(zh_eval.val(), inv.val(), d);
                assert(inv.val() * d == d * inv.val()) by (nonlinear_arith);
                assert(fmul(inv.val(), d) == 1);
                zh_eval.lemma_val_nonneg();
                lemma_neutral(zh_eval.val());
            }
            Some(v)
        },
        None => None,
    }
}

/// `values[0] + c · values[1] + ... + c^k · values[k]`, by Horner's rule.
pub open spec fn lc_value(values: Seq<Fe>, c: int) -> int {
    poly_eval(values, c)
}

proof fn lemma_fmul_swap(a: int, b: int, c: int, d: int)
    ensures
        fmul(fmul(a, b), fmul(c, d)) == fmul(fmul(a, c), fmul(b, d)),
{
    let m = modulus();
    vstd::arithmetic::div_mod::lemma_mul_mod_noop(a * b, c * d, m);
    vstd::arithmetic::div_mod::lemma_mul_mod_noop(a * c, b * d, m);
    assert((a * b) * (c * d) == (a * c) * (b * d)) by (nonlinear_arith);
}

/// Powers distribute over products.
pub proof fn lemma_fpow_mul(a: int, b: int, n: nat)
    ensures
        fpow(fmul(a, b), n) == fmul(fpow(a, n), fpow(b, n)),
    decreases n,
{
    if n == 0 {
        lemma_neutral(1);
    } else {
        lemma_fpow_mul(a, b, (n - 1) as nat);
        lemma_fmul_swap(a, b, fpow(a, (n - 1) as nat), fpow(b, (n - 1) as nat));
    }
}

/// Every power of an `n`-th root of one is an `n`-th root of one.
pub proof fn lemma_fpow_root(x: int, k: nat, n: nat)
    requires
        fpow(x, n) == 1,
    ensures
        fpow(fpow(x, k), n) == 1,
    decreases k,
{
    if k == 0 {
        lemma_fpow_one(n);
    } else {
        lemma_fpow_root(x, (k - 1) as nat, n);
        lemma_fpow_mul(x, fpow(x, (k - 1) as nat), n);
        lemma_neutral(1);
    }
}

proof fn lemma_fpow_one(n: nat)
    ensures
        fpow(1, n) == 1,
    decreases n,
{
    if n > 0 {
        lemma_fpow_one((n - 1) as nat);
        lemma_neutral(1);
    }
}

/// The coset is disjoint from the domain: no coset element is an `n`-th
/// root of one, so the domain's vanishing polynomial `X^n - 1` is nonzero
/// at every coset element.
pub proof fn lemma_coset_misses_domain(domain: Domain, j: nat)
    requires
        domain.wf(),
    ensures
        fpow(domain.spec_coset_element(j as int), domain.spec_size()) != 1,
{
    let n = domain.spec_size();
    let g = domain.spec_offset();
    let w = fpow(domain.omega(), j);
    lemma_fpow_mul(g, w, n);
    lemma_fpow_root(domain.omega(), j, n);
    assert(fpow(g, n) == fmul(g, fpow(g, (n - 1) as nat)));
    assert(0 <= fpow(g, n) < modulus()) by {
        vstd::arithmetic::div_mod::lemma_mod_bound(g * fpow(g, (n - 1) as nat), modulus());
    }
    lemma_neutral(fpow(g, n));
}

/// `values[0]·c^0 + values[1]·c^1 + ...`, term by term.
pub open spec fn power_sum(values: Seq<Fe>, c: int) -> int
    decreases values.len(),
{
    if values.len() == 0 {
        0
    } else {
        fadd(power_sum(values.drop_last(), c), fmul(values.last().val(), fpow(c, (values.len() - 1) as nat)))
    }
}

proof fn lemma_poly_eval_push(s: Seq<Fe>, x: Fe, c: int)
    requires
        all_wf(s),
        x.wf(),
        0 <= c < modulus(),
    ensures
        poly_eval(s.push(x), c) == fadd(poly_eval(s, c), fmul(x.val(), fpow(c, s.len()))),
    decreases s.len(),
{
    x.lemma_val_nonneg();
    if s.len() == 0 {
        assert(s.push(x).drop_first() =~= Seq::<Fe>::empty());
        assert(poly_eval(s.push(x).drop_first(), c) == 0);
        lemma_neutral(x.val());
        lemma_neutral(c);
    } else {
        let t = s.drop_first();
        assert(s.push(x).drop_first() =~= t.push(x));
        assert(s.push(x)[0] == s[0]);
        lemma_poly_eval_push(t, x, c);
        let pe_t = poly_eval(t, c);
        let xp = fmul(x.val(), fpow(c, t.len()));
        // c · (pe_t + xp) = c·pe_t + c·xp
        lemma_fmul_distrib(c, pe_t, xp);
        lemma_fadd_assoc(s[0].val(), fmul(c, pe_t), fmul(c, xp));
        // c · (x · c^k) = x · (c · c^k)
        lemma_fmul_assoc(c, x.val(), fpow(c, t.len()));
        lemma_fmul_assoc(x.val(), c, fpow(c, t.len()));
        assert(c * x.val() == x.val() * c) by (nonlinear_arith);
        assert(fpow(c, s.len()) == fmul(c, fpow(c, t.len())));
    }
}

/// Horner's rule and the term-by-term sum agree: the linear combination of
/// `values` by `c` is `Σ values[i] · c^i`.
pub proof fn lemma_lc_is_power_sum(values: Seq<Fe>, c: int)
    requires
        all_wf(values),
        0 <= c < modulus(),
    ensures
        lc_value(values, c) == power_sum(values, c),
    decreases values.len(),
{
    if values.len() > 0 {
        let init = values.drop_last();
        lemma_lc_is_power_sum(init, c);
        lemma_poly_eval_push(init, values.last(), c);
        assert(init.push(values.last()) =~= values);
    }
}

/// The linear combination of `values` by powers of `challenge`. `None` for
/// no values, and for a challenge of zero or one, which would merge distinct
/// columns.
pub fn lc(values: &[Fe], challenge: Fe) -> (r: Option<Fe>)
    requires
        all_wf(values@),
        challenge.wf(),
    ensures
        r is None <==> values@.len() == 0 || challenge.val() == 0 || challenge.val() == 1,
        r matches Some(v) ==> v.wf() && v.val() == lc_value(values@, challenge.val()),
{
    if challenge.is_zero() || challenge.sub(&Fe::one()).is_zero() {
        proof {
            if challenge.val() != 0 && challenge.val() != 1 {
                challenge.lemma_val_nonneg();
                assert(fsub(challenge.val(), 1) == challenge.val() - 1) by {
                    lemma_neutral(challenge.val() - 1);
                }
            }
        }
        return None;
    }
    proof {
        challenge.lemma_val_nonneg();
        if challenge.val() == 1 {
            lemma_neutral(0);
        }
    }
    let len = values.len();
    if len == 0 {
        return None;
    }
    let mut acc = values[len - 1];
    let mut i: usize = len - 1;
    proof {
        let tail = values@.subrange(len - 1, len as int);
        assert(tail.drop_first().len() == 0);
        assert(poly_eval(tail.drop_first(), challenge.val()) == 0);
        assert(tail[0] == acc);
        assert(poly_eval(tail, challenge.val()) == fadd(acc.val(), fmul(challenge.val(), 0)));
        lemma_neutral(challenge.val());
        assert(acc.wf());
        acc.lemma_val_nonneg();
        lemma_neutral(acc.val());
    }
    while i > 0
        invariant
            all_wf(values@),
            challenge.wf(),
            len == values@.len(),
            i < len,
            acc.wf(),
            acc.val() == poly_eval(values@.subrange(i as int, len as int), challenge.val()),
        decreases i,
    {
        let v = values[i - 1];
        let next = acc.mul(&challenge).add(&v);
        proof {
            let s = values@.subrange(i - 1, len as int);
            assert(s.drop_first() =~= values@.subrange(i as int, len as int));
            assert(next.val() == fadd(fmul(acc.val(), challenge.val()), v.val()));
            assert(acc.val() * challenge.val() == challenge.val() * acc.val()) by (nonlinear_arith);
            assert(poly_eval(s, challenge.val()) == fadd(v.val(), fmul(challenge.val(), acc.val())));
        }
        acc = next;
        i = i - 1;
    }
    assert(values@.subrange(0, len as int) =~= values@);
    Some(acc)
}

/// `1, scalar, scalar^2, ..., scalar^(count-1)`.
pub fn powers_of(scalar: Fe, count: usize) -> (r: Vec<Fe>)
    requires
        scalar.wf(),
    ensures
        r@.len() == count,
        all_wf(r@),
        forall|i: int| 0 <= i < count ==> #[trigger] r@[i].val() == fpow(scalar.val(), i as nat),
{
    let mut r: Vec<Fe> = Vec::new();
    let mut p = Fe::one();
    let mut i: usize = 0;
    while i < count
        invariant
            scalar.wf(),
            i <= count,
            r@.len() == i,
            all_wf(r@),
            p.wf(),
            p.val() == fpow(scalar.val(), i as nat),
            forall|j: int| 0 <= j < i ==> #[trigger] r@[j].val() == fpow(scalar.val(), j as nat),
        decreases count - i,
    {
        r.push(p);
        let next = p.mul(&scalar);
        proof {
            assert(p.val() * scalar.val() == scalar.val() * p.val()) by (nonlinear_arith);
            assert(fpow(scalar.val(), (i + 1) as nat) == fmul(scalar.val(), fpow(scalar.val(), i as nat)));
        }
        p = next;
        i = i + 1;
    }
    r
}

} // verus!
