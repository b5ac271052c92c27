//! Values that the prover opens at the evaluation challenge and hands to the
//! key objects.
use vstd::prelude::*;
use crate::field::Fe;

verus! {

/// The wire polynomials at the challenge point.
#[derive(Clone, Copy, Debug, PartialEq, Eq, Structural)]
pub struct WireEvaluations {
    pub a: Fe,
    pub b: Fe,
    pub c: Fe,
}

impl WireEvaluations {
    pub open spec fn wf(self) -> bool {
        self.a.wf() && self.b.wf() && self.c.wf()
    }
}

/// The lookup polynomials at the challenge point `z` and at `z·omega`.
#[derive(Clone, Copy, Debug, PartialEq, Eq, Structural)]
pub struct LookupEvaluations {
    /// The compressed witness column `f`.
    pub f: Fe,
    /// The compressed table column `t`, and at the next row.
    pub t: Fe,
    pub t_next: Fe,
    /// The fourth table column.
    pub t4: Fe,
    /// The halves `h1`, `h2` of the sorted column.
    pub h1_next: Fe,
    pub h2: Fe,
    /// The running product `z2` at the next row.
    pub z2_next: Fe,
}

impl LookupEvaluations {
    pub open spec fn wf(self) -> bool {
        self.f.wf() && self.t.wf() && self.t_next.wf() && self.t4.wf() && self.h1_next.wf()
            && self.h2.wf() && self.z2_next.wf()
    }
}

/// All values opened by the prover.
#[derive(Clone, Copy, Debug, PartialEq, Eq, Structural)]
pub struct ProofEvaluations {
    pub wire_evals: WireEvaluations,
    pub lookup_evals: LookupEvaluations,
}

impl ProofEvaluations {
    pub open spec fn wf(self) -> bool {
        self.wire_evals.wf() && self.lookup_evals.wf()
    }
}

} // verus!
