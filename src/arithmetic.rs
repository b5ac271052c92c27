//! The arithmetic gate's key objects: its contribution to the linearisation
//! polynomial, to the quotient polynomial, and to the verifier's combined
//! commitment.
use vstd::prelude::*;
use crate::field::{Fe, fadd, fmul, vals};
use crate::composer::all_wf;
use crate::poly::Poly;
use crate::evaluations::{WireEvaluations, ProofEvaluations};

verus! {

/// The selector polynomials.
pub struct ProverKey {
    pub q_m: Poly,
    pub q_l: Poly,
    pub q_r: Poly,
    pub q_o: Poly,
    pub q_c: Poly,
}

/// `q_m·(a·b) + q_l·a + q_r·b + q_o·c + q_c`, for one coefficient.
pub open spec fn arith_linearisation_coeff(q_m: int, q_l: int, q_r: int, q_o: int, q_c: int, a: int, b: int, c: int) -> int {
    fadd(fadd(fadd(fadd(fmul(q_m, fmul(a, b)), fmul(q_l, a)), fmul(q_r, b)), fmul(q_o, c)), q_c)
}

impl ProverKey {
    pub open spec fn wf(self) -> bool {
        self.q_m.wf() && self.q_l.wf() && self.q_r.wf() && self.q_o.wf() && self.q_c.wf()
    }

    /// The polynomial `q_m·(a·b) + q_l·a + q_r·b + q_o·c + q_c` for the
    /// opened wire values `a, b, c`.
    pub fn compute_linearisation(&self, wire_evals: &WireEvaluations) -> (r: Poly)
        requires
            self.wf(),
            wire_evals.wf(),
        ensures
            r.wf(),
            forall|i: int| #[trigger] r.coeff(i) == arith_linearisation_coeff(
                self.q_m.coeff(i),
                self.q_l.coeff(i),
                self.q_r.coeff(i),
                self.q_o.coeff(i),
                self.q_c.coeff(i),
                wire_evals.a.val(),
                wire_evals.b.val(),
                wire_evals.c.val(),
            ),
    {
        let ab = wire_evals.a.mul(&wire_evals.b);
        let t_m = self.q_m.scale(&ab);
        let t_l = self.q_l.scale(&wire_evals.a);
        let t_r = self.q_r.scale(&wire_evals.b);
        let t_o = self.q_o.scale(&wire_evals.c);
        let s1 = t_m.add(&t_l);
        let s2 = s1.add(&t_r);
        let s3 = s2.add(&t_o);
        let r = s3.add(&self.q_c);
        proof {
            assert forall|i: int| #[trigger] r.coeff(i) == arith_linearisation_coeff(
                self.q_m.coeff(i),
                self.q_l.coeff(i),
                self.q_r.coeff(i),
                self.q_o.coeff(i),
                self.q_c.coeff(i),
                wire_evals.a.val(),
                wire_evals.b.val(),
                wire_evals.c.val(),
            ) by {
                assert(r.coeff(i) == fadd(s3.coeff(i), self.q_c.coeff(i)));
                assert(s3.coeff(i) == fadd(s2.coeff(i), t_o.coeff(i)));
                assert(s2.coeff(i) == fadd(s1.coeff(i), t_r.coeff(i)));
                assert(s1.coeff(i) == fadd(t_m.coeff(i), t_l.coeff(i)));
                assert(t_m.coeff(i) == fmul(self.q_m.coeff(i), ab.val()));
                assert(t_l.coeff(i) == fmul(self.q_l.coeff(i), wire_evals.a.val()));
                assert(t_r.coeff(i) == fmul(self.q_r.coeff(i), wire_evals.b.val()));
                assert(t_o.coeff(i) == fmul(self.q_o.coeff(i), wire_evals.c.val()));
            }
        }
        r
    }
}

/// The selectors evaluated over the extended coset.
pub struct ExtendedProverKey {
    pub q_m_coset: Vec<Fe>,
    pub q_l_coset: Vec<Fe>,
    pub q_r_coset: Vec<Fe>,
    pub q_o_coset: Vec<Fe>,
    pub q_c_coset: Vec<Fe>,
}

/// `a·b·q_m + a·q_l + b·q_r + c·q_o + q_c + pi` at one coset point.
pub open spec fn arith_quotient_term(q_m: int, q_l: int, q_r: int, q_o: int, q_c: int, a: int, b: int, c: int, pi: int) -> int {
    fadd(fadd(fadd(fadd(fadd(fmul(fmul(a, b), q_m), fmul(a, q_l)), fmul(b, q_r)), fmul(c, q_o)), q_c), pi)
}

impl ExtendedProverKey {
    pub open spec fn wf(self) -> bool {
        all_wf(self.q_m_coset@) && all_wf(self.q_l_coset@) && all_wf(self.q_r_coset@)
            && all_wf(self.q_o_coset@) && all_wf(self.q_c_coset@)
    }

    /// The arithmetic gate's part of the quotient at coset index `i`.
    pub fn compute_quotient_i(&self, i: usize, a_i: Fe, b_i: Fe, c_i: Fe, pi_i: Fe) -> (r: Fe)
        requires
            self.wf(),
            i < self.q_m_coset@.len(),
            i < self.q_l_coset@.len(),
            i < self.q_r_coset@.len(),
            i < self.q_o_coset@.len(),
            i < self.q_c_coset@.len(),
            a_i.wf(),
            b_i.wf(),
            c_i.wf(),
            pi_i.wf(),
        ensures
            r.wf(),
            r.val() == arith_quotient_term(
                self.q_m_coset@[i as int].val(),
                self.q_l_coset@[i as int].val(),
                self.q_r_coset@[i as int].val(),
                self.q_o_coset@[i as int].val(),
                self.q_c_coset@[i as int].val(),
                a_i.val(),
                b_i.val(),
                c_i.val(),
                pi_i.val(),
            ),
    {
        let t_m = a_i.mul(&b_i).mul(&self.q_m_coset[i]);
        let t_l = a_i.mul(&self.q_l_coset[i]);
        let t_r = b_i.mul(&self.q_r_coset[i]);
        let t_o = c_i.mul(&self.q_o_coset[i]);
        t_m.add(&t_l).add(&t_r).add(&t_o).add(&self.q_c_coset[i]).add(&pi_i)
    }
}

/// Commitments to the selector polynomials, of the commitment type `C`.
pub struct VerifierKey<C: Copy> {
    pub q_m: C,
    pub q_l: C,
    pub q_r: C,
    pub q_o: C,
    pub q_c: C,
}

impl<C: Copy> VerifierKey<C> {
    /// Appends the pairs `(a·b, q_m)`, `(a, q_l)`, `(b, q_r)`, `(c, q_o)`,
    /// `(1, q_c)` to the scalars and points of the verifier's combined
    /// commitment.
    pub fn compute_linearisation_commitment(&self, scalars: &mut Vec<Fe>, points: &mut Vec<C>, evaluations: &ProofEvaluations)
        requires
            evaluations.wf(),
        ensures
            vals(final(scalars)@) == vals(old(scalars)@) + seq![
                fmul(evaluations.wire_evals.a.val(), evaluations.wire_evals.b.val()),
                evaluations.wire_evals.a.val(),
                evaluations.wire_evals.b.val(),
                evaluations.wire_evals.c.val(),
                1int,
            ],
            final(points)@ == old(points)@ + seq![self.q_m, self.q_l, self.q_r, self.q_o, self.q_c],
    {
        let w = evaluations.wire_evals;
        scalars.push(w.a.mul(&w.b));
        points.push(self.q_m);
        scalars.push(w.a);
        points.push(self.q_l);
        scalars.push(w.b);
        points.push(self.q_r);
        scalars.push(w.c);
        points.push(self.q_o);
        scalars.push(Fe::one());
        points.push(self.q_c);
        proof {
            assert(vals(scalars@) =~= vals(old(scalars)@) + seq![
                fmul(evaluations.wire_evals.a.val(), evaluations.wire_evals.b.val()),
                evaluations.wire_evals.a.val(),
                evaluations.wire_evals.b.val(),
                evaluations.wire_evals.c.val(),
                1int,
            ]);
            assert(points@ =~= old(points)@ + seq![self.q_m, self.q_l, self.q_r, self.q_o, self.q_c]);
        }
    }
}

} // verus!
