//! The lookup gate's key objects (Plookup argument): its contribution to the
//! linearisation polynomial, to the quotient polynomial, and to the
//! verifier's combined commitment.
use vstd::prelude::*;
use crate::field::{Fe, fadd, fsub, fneg, fmul, vals};
use crate::composer::all_wf;
use crate::poly::Poly;
use crate::util::{lc, lc_value};
use crate::evaluations::{WireEvaluations, LookupEvaluations, ProofEvaluations};

verus! {

pub open spec fn sq(x: int) -> int {
    fmul(x, x)
}

/// `α^3 · (lc(a, b, c, t4; ζ) - f)`: the scale of the lookup selector.
pub open spec fn lookup_scalar_1(alpha: int, zeta: int, a: Fe, b: Fe, c: Fe, t4: Fe, f: int) -> int {
    fmul(fmul(sq(alpha), alpha), fsub(lc_value(seq![a, b, c, t4], zeta), f))
}

/// `α^4 · (1+δ) · (ε+f) · (ε(1+δ) + t + δ·t_next) + L1(z) · α^5`: the scale of
/// the running product `z2`.
pub open spec fn lookup_scalar_2(alpha: int, delta: int, epsilon: int, l_1_eval: int, f: int, t: int, t_next: int) -> int {
    let alpha_qu = sq(sq(alpha));
    let one_plus_delta = fadd(delta, 1);
    let eps_opd = fmul(epsilon, one_plus_delta);
    fadd(
        fmul(fmul(fmul(alpha_qu, one_plus_delta), fadd(epsilon, f)), fadd(fadd(fmul(delta, t_next), eps_opd), t)),
        fmul(fmul(l_1_eval, alpha_qu), alpha),
    )
}

/// `-α^4 · z2_next · (ε(1+δ) + h2 + δ·h1_next)`: the scale of `h1`.
pub open spec fn lookup_scalar_3(alpha: int, delta: int, epsilon: int, z2_next: int, h1_next: int, h2: int) -> int {
    let alpha_qu = sq(sq(alpha));
    let eps_opd = fmul(epsilon, fadd(delta, 1));
    fmul(fmul(fneg(alpha_qu), z2_next), fadd(fadd(fmul(delta, h1_next), eps_opd), h2))
}

/// A challenge that keeps distinct columns apart in a linear combination.
pub open spec fn good_challenge(zeta: Fe) -> bool {
    zeta.val() != 0 && zeta.val() != 1
}

/// `α^3 · (lc(a, b, c, t4; ζ) - f)`, computed.
fn scalar_1(alpha: Fe, zeta: Fe, a: Fe, b: Fe, c: Fe, t4: Fe, f: Fe) -> (r: Fe)
    requires
        alpha.wf() && zeta.wf() && a.wf() && b.wf() && c.wf() && t4.wf() && f.wf(),
        good_challenge(zeta),
    ensures
        r.wf(),
        r.val() == lookup_scalar_1(alpha.val(), zeta.val(), a, b, c, t4, f.val()),
{
    let alpha_sq = alpha.square();
    let values = vec![a, b, c, t4];
    assert(values@ =~= seq![a, b, c, t4]);
    let combined = lc(values.as_slice(), zeta).unwrap();
    alpha_sq.mul(&alpha).mul(&combined.sub(&f))
}

/// The second scale, computed.
fn scalar_2(alpha: Fe, delta: Fe, epsilon: Fe, l_1_eval: Fe, f: Fe, t: Fe, t_next: Fe) -> (r: Fe)
    requires
        alpha.wf() && delta.wf() && epsilon.wf() && l_1_eval.wf() && f.wf() && t.wf() && t_next.wf(),
    ensures
        r.wf(),
        r.val() == lookup_scalar_2(alpha.val(), delta.val(), epsilon.val(), l_1_eval.val(), f.val(), t.val(), t_next.val()),
{
    let alpha_sq = alpha.square();
    let alpha_qu = alpha_sq.square();
    let one_plus_delta = delta.add(&Fe::one());
    let eps_opd = epsilon.mul(&one_plus_delta);
    let left = alpha_qu.mul(&one_plus_delta).mul(&epsilon.add(&f)).mul(&delta.mul(&t_next).add(&eps_opd).add(&t));
    left.add(&l_1_eval.mul(&alpha_qu).mul(&alpha))
}

/// The third scale, computed.
fn scalar_3(alpha: Fe, delta: Fe, epsilon: Fe, z2_next: Fe, h1_next: Fe, h2: Fe) -> (r: Fe)
    requires
        alpha.wf() && delta.wf() && epsilon.wf() && z2_next.wf() && h1_next.wf() && h2.wf(),
    ensures
        r.wf(),
        r.val() == lookup_scalar_3(alpha.val(), delta.val(), epsilon.val(), z2_next.val(), h1_next.val(), h2.val()),
{
    let alpha_sq = alpha.square();
    let alpha_qu = alpha_sq.square();
    let eps_opd = epsilon.mul(&delta.add(&Fe::one()));
    alpha_qu.neg().mul(&z2_next).mul(&delta.mul(&h1_next).add(&eps_opd).add(&h2))
}

/// The lookup selector polynomial.
pub struct ProverKey {
    pub q_lookup: Poly,
}

impl ProverKey {
    pub open spec fn wf(self) -> bool {
        self.q_lookup.wf()
    }

    /// `q_lookup·s1 + z2·s2 + h1·s3`, with the three scales above.
    pub fn compute_linearisation(
        &self,
        alpha: Fe,
        delta: Fe,
        epsilon: Fe,
        zeta: Fe,
        l_1_eval: Fe,
        wire_evals: &WireEvaluations,
        lookup_evals: &LookupEvaluations,
        z2_poly: &Poly,
        h1_poly: &Poly,
    ) -> (r: Poly)
        requires
            self.wf(),
            alpha.wf() && delta.wf() && epsilon.wf() && zeta.wf() && l_1_eval.wf(),
            good_challenge(zeta),
            wire_evals.wf(),
            lookup_evals.wf(),
            z2_poly.wf(),
            h1_poly.wf(),
        ensures
            r.wf(),
            forall|i: int| #[trigger] r.coeff(i) == fadd(
                fadd(
                    fmul(
                        self.q_lookup.coeff(i),
                        lookup_scalar_1(alpha.val(), zeta.val(), wire_evals.a, wire_evals.b, wire_evals.c, lookup_evals.t4, lookup_evals.f.val()),
                    ),
                    fmul(
                        z2_poly.coeff(i),
                        lookup_scalar_2(alpha.val(), delta.val(), epsilon.val(), l_1_eval.val(), lookup_evals.f.val(), lookup_evals.t.val(), lookup_evals.t_next.val()),
                    ),
                ),
                fmul(
                    h1_poly.coeff(i),
                    lookup_scalar_3(alpha.val(), delta.val(), epsilon.val(), lookup_evals.z2_next.val(), lookup_evals.h1_next.val(), lookup_evals.h2.val()),
                ),
            ),
    {
        let s1 = scalar_1(alpha, zeta, wire_evals.a, wire_evals.b, wire_evals.c, lookup_evals.t4, lookup_evals.f);
        let s2 = scalar_2(alpha, delta, epsilon, l_1_eval, lookup_evals.f, lookup_evals.t, lookup_evals.t_next);
        let s3 = scalar_3(alpha, delta, epsilon, lookup_evals.z2_next, lookup_evals.h1_next, lookup_evals.h2);
        let part_1 = self.q_lookup.scale(&s1);
        let part_2 = z2_poly.scale(&s2);
        let part_3 = h1_poly.scale(&s3);
        let sum = part_1.add(&part_2);
        let r = sum.add(&part_3);
        proof {
            assert forall|i: int| #[trigger] r.coeff(i) == fadd(
                fadd(fmul(self.q_lookup.coeff(i), s1.val()), fmul(z2_poly.coeff(i), s2.val())),
                fmul(h1_poly.coeff(i), s3.val()),
            ) by {
                assert(r.coeff(i) == fadd(sum.coeff(i), part_3.coeff(i)));
                assert(sum.coeff(i) == fadd(part_1.coeff(i), part_2.coeff(i)));
            }
        }
        r
    }
}

/// The lookup selector and the fourth table column, also over the extended
/// coset.
pub struct ExtendedProverKey {
    pub q_lookup: Vec<Fe>,
    pub q_lookup_coset: Vec<Fe>,
    pub t4: Poly,
    pub t4_coset: Vec<Fe>,
}

/// The lookup gate's part of the quotient at one coset point.
pub open spec fn lookup_quotient_term(
    alpha: int,
    delta: int,
    epsilon: int,
    zeta: int,
    a: Fe,
    b: Fe,
    c: Fe,
    t4: Fe,
    q_lookup: int,
    f: int,
    t: int,
    t_next: int,
    h1: int,
    h1_next: int,
    h2: int,
    z2: int,
    z2_next: int,
    l_1: int,
) -> int {
    let alpha_qu = sq(sq(alpha));
    let one_plus_delta = fadd(delta, 1);
    let eps_opd = fmul(epsilon, one_plus_delta);
    let part_1 = fmul(fmul(fmul(sq(alpha), alpha), fsub(lc_value(seq![a, b, c, t4], zeta), f)), q_lookup);
    let part_2 = fmul(
        fmul(fmul(fmul(alpha_qu, one_plus_delta), fadd(epsilon, f)), fadd(fadd(fmul(delta, t_next), eps_opd), t)),
        z2,
    );
    let part_3 = fmul(
        fmul(fmul(fneg(alpha_qu), z2_next), fadd(fadd(fmul(delta, h2), eps_opd), h1)),
        fadd(fadd(fmul(delta, h1_next), h2), eps_opd),
    );
    let part_4 = fmul(fmul(fmul(fsub(z2, 1), l_1), alpha_qu), alpha);
    fadd(fadd(fadd(part_1, part_2), part_3), part_4)
}

impl ExtendedProverKey {
    pub open spec fn wf(self) -> bool {
        all_wf(self.q_lookup@) && all_wf(self.q_lookup_coset@) && self.t4.wf() && all_wf(self.t4_coset@)
    }

    /// The lookup gate's part of the quotient at coset index `i`.
    pub fn compute_quotient_i(
        &self,
        i: usize,
        alpha: Fe,
        delta: Fe,
        epsilon: Fe,
        zeta: Fe,
        a_i: Fe,
        b_i: Fe,
        c_i: Fe,
        f_i: Fe,
        t_i: Fe,
        t_i_next: Fe,
        h1_i: Fe,
        h1_i_next: Fe,
        h2_i: Fe,
        z2_i: Fe,
        z2_i_next: Fe,
        l_1_i: Fe,
    ) -> (r: Fe)
        requires
            self.wf(),
            i < self.q_lookup_coset@.len(),
            i < self.t4_coset@.len(),
            alpha.wf() && delta.wf() && epsilon.wf() && zeta.wf(),
            good_challenge(zeta),
            a_i.wf() && b_i.wf() && c_i.wf() && f_i.wf() && t_i.wf() && t_i_next.wf(),
            h1_i.wf() && h1_i_next.wf() && h2_i.wf() && z2_i.wf() && z2_i_next.wf() && l_1_i.wf(),
        ensures
            r.wf(),
            r.val() == lookup_quotient_term(
                alpha.val(),
                delta.val(),
                epsilon.val(),
                zeta.val(),
                a_i,
                b_i,
                c_i,
                self.t4_coset@[i as int],
                self.q_lookup_coset@[i as int].val(),
                f_i.val(),
                t_i.val(),
                t_i_next.val(),
                h1_i.val(),
                h1_i_next.val(),
                h2_i.val(),
                z2_i.val(),
                z2_i_next.val(),
                l_1_i.val(),
            ),
    {
        let alpha_sq = alpha.square();
        let alpha_qu = alpha_sq.square();
        let one_plus_delta = delta.add(&Fe::one());
        let eps_opd = epsilon.mul(&one_plus_delta);
        let q_lookup_i = self.q_lookup_coset[i];
        let t4_i = self.t4_coset[i];
        let values = vec![a_i, b_i, c_i, t4_i];
        assert(values@ =~= seq![a_i, b_i, c_i, t4_i]);
        let combined = lc(values.as_slice(), zeta).unwrap();
        let part_1 = alpha_sq.mul(&alpha).mul(&combined.sub(&f_i)).mul(&q_lookup_i);
        let part_2 = alpha_qu.mul(&one_plus_delta).mul(&epsilon.add(&f_i)).mul(
            &delta.mul(&t_i_next).add(&eps_opd).add(&t_i),
        ).mul(&z2_i);
        let part_3 = alpha_qu.neg().mul(&z2_i_next).mul(&delta.mul(&h2_i).add(&eps_opd).add(&h1_i)).mul(
            &delta.mul(&h1_i_next).add(&h2_i).add(&eps_opd),
        );
        let part_4 = z2_i.sub(&Fe::one()).mul(&l_1_i).mul(&alpha_qu).mul(&alpha);
        part_1.add(&part_2).add(&part_3).add(&part_4)
    }
}

/// Commitments to the lookup selector and the four table columns.
pub struct VerifierKey<C: Copy> {
    pub q_lookup: C,
    pub t1: C,
    pub t2: C,
    pub t3: C,
    pub t4: C,
}

impl<C: Copy> VerifierKey<C> {
    /// Appends the three scales, paired with the commitments to `q_lookup`,
    /// `z2` and `h1`, to the scalars and points of the verifier's combined
    /// commitment; they mirror the terms of the prover's linearisation.
    pub fn compute_linearisation_commitment(
        &self,
        scalars: &mut Vec<Fe>,
        points: &mut Vec<C>,
        evaluations: &ProofEvaluations,
        alpha: Fe,
        delta: Fe,
        epsilon: Fe,
        zeta: Fe,
        l_1_eval: Fe,
        z2_comm: C,
        h1_comm: C,
    )
        requires
            evaluations.wf(),
            alpha.wf() && delta.wf() && epsilon.wf() && zeta.wf() && l_1_eval.wf(),
            good_challenge(zeta),
        ensures
            vals(final(scalars)@) == vals(old(scalars)@) + seq![
                lookup_scalar_1(
                    alpha.val(),
                    zeta.val(),
                    evaluations.wire_evals.a,
                    evaluations.wire_evals.b,
                    evaluations.wire_evals.c,
                    evaluations.lookup_evals.t4,
                    evaluations.lookup_evals.f.val(),
                ),
                lookup_scalar_2(
                    alpha.val(),
                    delta.val(),
                    epsilon.val(),
                    l_1_eval.val(),
                    evaluations.lookup_evals.f.val(),
                    evaluations.lookup_evals.t.val(),
                    evaluations.lookup_evals.t_next.val(),
                ),
                lookup_scalar_3(
                    alpha.val(),
                    delta.val(),
                    epsilon.val(),
                    evaluations.lookup_evals.z2_next.val(),
                    evaluations.lookup_evals.h1_next.val(),
                    evaluations.lookup_evals.h2.val(),
                ),
            ],
            final(points)@ == old(points)@ + seq![self.q_lookup, z2_comm, h1_comm],
    {
        let w = evaluations.wire_evals;
        let l = evaluations.lookup_evals;
        let s1 = scalar_1(alpha, zeta, w.a, w.b, w.c, l.t4, l.f);
        scalars.push(s1);
        points.push(self.q_lookup);
        let s2 = scalar_2(alpha, delta, epsilon, l_1_eval, l.f, l.t, l.t_next);
        scalars.push(s2);
        points.push(z2_comm);
        let s3 = scalar_3(alpha, delta, epsilon, l.z2_next, l.h1_next, l.h2);
        scalars.push(s3);
        points.push(h1_comm);
        proof {
            assert(vals(scalars@) =~= vals(old(scalars)@) + seq![s1.val(), s2.val(), s3.val()]);
            assert(points@ =~= old(points)@ + seq![self.q_lookup, z2_comm, h1_comm]);
        }
    }
}

} // verus!
