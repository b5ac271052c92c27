//! Variables and the two builds of a circuit: the setup build, which records
//! selectors and wiring, and the proving build, which records wiring and
//! witness values.
use vstd::prelude::*;
use crate::field::Fe;

verus! {

/// A handle into the variable store; `Zero` stands for the constant zero and
/// needs no storage.
#[derive(Clone, Copy, Debug, PartialEq, Eq, Structural)]
pub enum Variable {
    Zero,
    Var(usize),
}

impl Variable {
    /// The handle was handed out by a store that has made `count` variables.
    pub open spec fn valid(self, count: nat) -> bool {
        match self {
            Variable::Zero => true,
            Variable::Var(i) => i < count,
        }
    }
}

/// The value of a variable under an assignment; `Zero` is zero.
pub open spec fn var_value(values: Seq<Fe>, v: Variable) -> int {
    match v {
        Variable::Zero => 0,
        Variable::Var(i) => values[i as int].val(),
    }
}

/// The selector values of one gate row.
#[derive(Clone, Copy, Debug, PartialEq, Eq, Structural)]
pub struct Selectors {
    pub q_m: Fe,
    pub q_l: Fe,
    pub q_r: Fe,
    pub q_o: Fe,
    pub q_c: Fe,
    pub q_lookup: Fe,
}

impl Selectors {
    pub open spec fn wf(self) -> bool {
        self.q_m.wf() && self.q_l.wf() && self.q_r.wf() && self.q_o.wf() && self.q_c.wf()
            && self.q_lookup.wf()
    }

    /// The selectors of a lookup row: no arithmetic meaning, lookup selector one.
    pub open spec fn is_lookup(self) -> bool {
        self.q_m.val() == 0 && self.q_l.val() == 0 && self.q_r.val() == 0 && self.q_o.val() == 0
            && self.q_c.val() == 0 && self.q_lookup.val() == 1
    }

    /// Selectors of an arithmetic row (the lookup selector is zero).
    pub fn new_arith(q_m: Fe, q_l: Fe, q_r: Fe, q_o: Fe, q_c: Fe) -> (r: Selectors)
        ensures
            r.q_m == q_m && r.q_l == q_l && r.q_r == q_r && r.q_o == q_o && r.q_c == q_c,
            r.q_lookup.val() == 0 && r.q_lookup.wf(),
    {
        Selectors { q_m, q_l, q_r, q_o, q_c, q_lookup: Fe::zero() }
    }

    pub fn new_lookup() -> (r: Selectors)
        ensures
            r.wf(),
            r.is_lookup(),
    {
        Selectors {
            q_m: Fe::zero(),
            q_l: Fe::zero(),
            q_r: Fe::zero(),
            q_o: Fe::zero(),
            q_c: Fe::zero(),
            q_lookup: Fe::one(),
        }
    }
}

/// The setup build: selectors and wiring of every row, the rows that carry a
/// public input, and the number of variables made.
pub struct SetupComposer {
    pub n: usize,
    pub q_m: Vec<Fe>,
    pub q_l: Vec<Fe>,
    pub q_r: Vec<Fe>,
    pub q_o: Vec<Fe>,
    pub q_c: Vec<Fe>,
    pub q_lookup: Vec<Fe>,
    pub w_l: Vec<Variable>,
    pub w_r: Vec<Variable>,
    pub w_o: Vec<Variable>,
    /// Rows that carry a public input, in increasing order.
    pub pp: Vec<usize>,
    pub num_vars: usize,
}

pub open spec fn all_wf(s: Seq<Fe>) -> bool {
    forall|i: int| 0 <= i < s.len() ==> #[trigger] s[i].wf()
}

pub open spec fn all_valid(s: Seq<Variable>, count: nat) -> bool {
    forall|i: int| 0 <= i < s.len() ==> #[trigger] s[i].valid(count)
}

pub open spec fn all_below(s: Seq<usize>, n: nat) -> bool {
    forall|i: int| 0 <= i < s.len() ==> #[trigger] s[i] < n
}

impl SetupComposer {
    pub open spec fn wf(self) -> bool {
        &&& self.q_m@.len() == self.n && self.q_l@.len() == self.n && self.q_r@.len() == self.n
        &&& self.q_o@.len() == self.n && self.q_c@.len() == self.n && self.q_lookup@.len() == self.n
        &&& self.w_l@.len() == self.n && self.w_r@.len() == self.n && self.w_o@.len() == self.n
        &&& all_wf(self.q_m@) && all_wf(self.q_l@) && all_wf(self.q_r@)
        &&& all_wf(self.q_o@) && all_wf(self.q_c@) && all_wf(self.q_lookup@)
        &&& all_valid(self.w_l@, self.num_vars as nat)
        &&& all_valid(self.w_r@, self.num_vars as nat)
        &&& all_valid(self.w_o@, self.num_vars as nat)
        &&& all_below(self.pp@, self.n as nat)
    }

    /// `new` is `old` with one more row: wires `a, b, c`, selectors `s`, and a
    /// public input there when `is_pi`.
    pub open spec fn appended(
        old: SetupComposer,
        new: SetupComposer,
        a: Variable,
        b: Variable,
        c: Variable,
        s: Selectors,
        is_pi: bool,
    ) -> bool {
        &&& new.n == old.n + 1
        &&& new.q_m@ == old.q_m@.push(s.q_m) && new.q_l@ == old.q_l@.push(s.q_l)
        &&& new.q_r@ == old.q_r@.push(s.q_r) && new.q_o@ == old.q_o@.push(s.q_o)
        &&& new.q_c@ == old.q_c@.push(s.q_c) && new.q_lookup@ == old.q_lookup@.push(s.q_lookup)
        &&& new.w_l@ == old.w_l@.push(a) && new.w_r@ == old.w_r@.push(b)
        &&& new.w_o@ == old.w_o@.push(c)
        &&& new.pp@ == (if is_pi { old.pp@.push(old.n) } else { old.pp@ })
        &&& new.num_vars == old.num_vars
    }

    pub fn new() -> (r: SetupComposer)
        ensures
            r.wf(),
            r.n == 0,
            r.num_vars == 0,
            r.pp@.len() == 0,
    {
        SetupComposer {
            n: 0,
            q_m: Vec::new(),
            q_l: Vec::new(),
            q_r: Vec::new(),
            q_o: Vec::new(),
            q_c: Vec::new(),
            q_lookup: Vec::new(),
            w_l: Vec::new(),
            w_r: Vec::new(),
            w_o: Vec::new(),
            pp: Vec::new(),
            num_vars: 0,
        }
    }

    /// Makes a fresh variable, with no value.
    pub fn new_variable(&mut self) -> (v: Variable)
        requires
            old(self).wf(),
            old(self).num_vars < usize::MAX,
        ensures
            final(self).wf(),
            v == Variable::Var(old(self).num_vars as usize),
            final(self).num_vars == old(self).num_vars + 1,
            final(self).n == old(self).n,
            final(self).q_m@ == old(self).q_m@ && final(self).q_l@ == old(self).q_l@,
            final(self).q_r@ == old(self).q_r@ && final(self).q_o@ == old(self).q_o@,
            final(self).q_c@ == old(self).q_c@ && final(self).q_lookup@ == old(self).q_lookup@,
            final(self).w_l@ == old(self).w_l@ && final(self).w_r@ == old(self).w_r@,
            final(self).w_o@ == old(self).w_o@ && final(self).pp@ == old(self).pp@,
    {
        let v = Variable::Var(self.num_vars);
        self.num_vars = self.num_vars + 1;
        proof {
            assert forall|i: int| 0 <= i < self.w_l@.len() implies #[trigger] self.w_l@[i].valid(
                self.num_vars as nat,
            ) by {
                assert(old(self).w_l@[i].valid(old(self).num_vars as nat));
            }
            assert forall|i: int| 0 <= i < self.w_r@.len() implies #[trigger] self.w_r@[i].valid(
                self.num_vars as nat,
            ) by {
                assert(old(self).w_r@[i].valid(old(self).num_vars as nat));
            }
            assert forall|i: int| 0 <= i < self.w_o@.len() implies #[trigger] self.w_o@[i].valid(
                self.num_vars as nat,
            ) by {
                assert(old(self).w_o@[i].valid(old(self).num_vars as nat));
            }
        }
        v
    }

    /// Appends one row with the given wires and selectors; when
    /// `is_public_input`, records the row as a public-input position.
    pub fn gate_constrain(
        &mut self,
        a: Variable,
        b: Variable,
        c: Variable,
        sels: Selectors,
        is_public_input: bool,
    )
        requires
            old(self).wf(),
            old(self).n < usize::MAX,
            sels.wf(),
            a.valid(old(self).num_vars as nat),
            b.valid(old(self).num_vars as nat),
            c.valid(old(self).num_vars as nat),
        ensures
            final(self).wf(),
            SetupComposer::appended(*old(self), *final(self), a, b, c, sels, is_public_input),
    {
        if is_public_input {
            self.pp.push(self.n);
        }
        self.q_m.push(sels.q_m);
        self.q_l.push(sels.q_l);
        self.q_r.push(sels.q_r);
        self.q_o.push(sels.q_o);
        self.q_c.push(sels.q_c);
        self.q_lookup.push(sels.q_lookup);
        self.w_l.push(a);
        self.w_r.push(b);
        self.w_o.push(c);
        self.n = self.n + 1;
        proof {
            assert forall|i: int| 0 <= i < self.pp@.len() implies #[trigger] self.pp@[i] < self.n by {
                if i < old(self).pp@.len() {
                    assert(old(self).pp@[i] < old(self).n);
                }
            }
            assert(all_wf(self.q_m@) && all_wf(self.q_l@) && all_wf(self.q_r@));
            assert(all_wf(self.q_o@) && all_wf(self.q_c@) && all_wf(self.q_lookup@));
            assert(all_valid(self.w_l@, self.num_vars as nat));
            assert(all_valid(self.w_r@, self.num_vars as nat));
            assert(all_valid(self.w_o@, self.num_vars as nat));
        }
    }
}

/// The proving build: wiring of every row, the value of every variable, and
/// the public inputs with the rows that carry them.
pub struct ProvingComposer {
    pub n: usize,
    pub w_l: Vec<Variable>,
    pub w_r: Vec<Variable>,
    pub w_o: Vec<Variable>,
    /// The value of variable `i` is `values[i]`.
    pub values: Vec<Fe>,
    pub pi_pos: Vec<usize>,
    pub pi_vals: Vec<Fe>,
}

impl ProvingComposer {
    pub open spec fn wf(self) -> bool {
        &&& self.w_l@.len() == self.n && self.w_r@.len() == self.n && self.w_o@.len() == self.n
        &&& all_valid(self.w_l@, self.values@.len())
        &&& all_valid(self.w_r@, self.values@.len())
        &&& all_valid(self.w_o@, self.values@.len())
        &&& all_wf(self.values@)
        &&& self.pi_pos@.len() == self.pi_vals@.len()
        &&& all_below(self.pi_pos@, self.n as nat)
        &&& all_wf(self.pi_vals@)
    }

    /// `new` is `old` with one more row: wires `a, b, c`, and the public input
    /// `pi` there when it is given.
    pub open spec fn appended(
        old: ProvingComposer,
        new: ProvingComposer,
        a: Variable,
        b: Variable,
        c: Variable,
        pi: Option<Fe>,
    ) -> bool {
        &&& new.n == old.n + 1
        &&& new.w_l@ == old.w_l@.push(a) && new.w_r@ == old.w_r@.push(b)
        &&& new.w_o@ == old.w_o@.push(c)
        &&& new.values@ == old.values@
        &&& match pi {
            Some(v) => new.pi_pos@ == old.pi_pos@.push(old.n) && new.pi_vals@ == old.pi_vals@.push(v),
            None => new.pi_pos@ == old.pi_pos@ && new.pi_vals@ == old.pi_vals@,
        }
    }

    pub fn new() -> (r: ProvingComposer)
        ensures
            r.wf(),
            r.n == 0,
            r.values@.len() == 0,
            r.pi_pos@.len() == 0,
    {
        ProvingComposer {
            n: 0,
            w_l: Vec::new(),
            w_r: Vec::new(),
            w_o: Vec::new(),
            values: Vec::new(),
            pi_pos: Vec::new(),
            pi_vals: Vec::new(),
        }
    }

    /// Makes a fresh variable bound to `value`.
    pub fn assign_variable(&mut self, value: Fe) -> (v: Variable)
        requires
            old(self).wf(),
            value.wf(),
        ensures
            final(self).wf(),
            v == Variable::Var(old(self).values@.len() as usize),
            final(self).values@ == old(self).values@.push(value),
            final(self).n == old(self).n,
            final(self).w_l@ == old(self).w_l@ && final(self).w_r@ == old(self).w_r@,
            final(self).w_o@ == old(self).w_o@,
            final(self).pi_pos@ == old(self).pi_pos@ && final(self).pi_vals@ == old(self).pi_vals@,
    {
        let v = Variable::Var(self.values.len());
        self.values.push(value);
        proof {
            assert forall|i: int| 0 <= i < self.w_l@.len() implies #[trigger] self.w_l@[i].valid(
                self.values@.len(),
            ) by {
                assert(old(self).w_l@[i].valid(old(self).values@.len()));
            }
            assert forall|i: int| 0 <= i < self.w_r@.len() implies #[trigger] self.w_r@[i].valid(
                self.values@.len(),
            ) by {
                assert(old(self).w_r@[i].valid(old(self).values@.len()));
            }
            assert forall|i: int| 0 <= i < self.w_o@.len() implies #[trigger] self.w_o@[i].valid(
                self.values@.len(),
            ) by {
                assert(old(self).w_o@[i].valid(old(self).values@.len()));
            }
            assert(all_wf(self.values@));
        }
        v
    }

    /// The value of a variable; `Zero` needs no lookup.
    pub fn value_of_var(&self, v: Variable) -> (r: Fe)
        requires
            self.wf(),
            v.valid(self.values@.len()),
        ensures
            r.wf(),
            r.val() == var_value(self.values@, v),
    {
        match v {
            Variable::Zero => Fe::zero(),
            Variable::Var(i) => self.values[i],
        }
    }

    /// Appends one row binding the given wires; a public input, when given,
    /// is recorded at this row.
    pub fn input_wires(&mut self, a: Variable, b: Variable, c: Variable, pi: Option<Fe>)
        requires
            old(self).wf(),
            old(self).n < usize::MAX,
            a.valid(old(self).values@.len()),
            b.valid(old(self).values@.len()),
            c.valid(old(self).values@.len()),
            pi matches Some(v) ==> v.wf(),
        ensures
            final(self).wf(),
            ProvingComposer::appended(*old(self), *final(self), a, b, c, pi),
    {
        if let Some(v) = pi {
            self.pi_pos.push(self.n);
            self.pi_vals.push(v);
        }
        self.w_l.push(a);
        self.w_r.push(b);
        self.w_o.push(c);
        self.n = self.n + 1;
        proof {
            assert forall|i: int| 0 <= i < self.pi_pos@.len() implies #[trigger] self.pi_pos@[i]
                < self.n by {
                if i < old(self).pi_pos@.len() {
                    assert(old(self).pi_pos@[i] < old(self).n);
                }
            }
            assert(all_wf(self.pi_vals@));
            assert(all_valid(self.w_l@, self.values@.len()));
            assert(all_valid(self.w_r@, self.values@.len()));
            assert(all_valid(self.w_o@, self.values@.len()));
        }
    }
}

} // verus!
