//! Gate-building interface that circuit descriptions are written
//! against. Each operation works on both builds: the setup build records the
//! row, the proving build computes the values and records the wiring.
use vstd::prelude::*;
use crate::field::Fe;
use crate::composer::{SetupComposer, ProvingComposer, Selectors, Variable, var_value};
use crate::lookup::{
    LookupTable, LookupError, CustomSet, Custom1DMap, Custom2DMap, rows_subset, set_rows,
    rows_1d, rows_2d, on_axis, rows_value,
};

verus! {

/// One of the two builds of a circuit.
pub enum Composer {
    Setup(SetupComposer),
    Proving(ProvingComposer),
}

impl Composer {
    pub open spec fn wf(self) -> bool {
        match self {
            Composer::Setup(c) => c.wf(),
            Composer::Proving(c) => c.wf(),
        }
    }

    /// The number of variables made so far.
    pub open spec fn var_count(self) -> nat {
        match self {
            Composer::Setup(c) => c.num_vars as nat,
            Composer::Proving(c) => c.values@.len(),
        }
    }

    /// The number of rows so far.
    pub open spec fn rows(self) -> nat {
        match self {
            Composer::Setup(c) => c.n as nat,
            Composer::Proving(c) => c.n as nat,
        }
    }
}

/// A circuit build: one of the two composers and the lookup table it checks
/// lookups against.
pub struct ConstraintSystem {
    pub composer: Composer,
    pub lookup_table: LookupTable,
}

/// `new` is `old` with one more row, wired `(a, b, c)`, with lookup selectors.
pub open spec fn setup_lookup_appended(old: SetupComposer, new: SetupComposer, a: Variable, b: Variable, c: Variable) -> bool {
    exists|s: Selectors| s.is_lookup() && #[trigger] SetupComposer::appended(old, new, a, b, c, s, false)
}

/// A lookup row `(a, b, c)` was added to `old` to give `new`: in the setup
/// build with lookup selectors, in the proving build with no public input.
pub open spec fn lookup_row_added(old: Composer, new: Composer, a: Variable, b: Variable, c: Variable) -> bool {
    match old {
        Composer::Setup(o) => match new {
            Composer::Setup(f) => setup_lookup_appended(o, f, a, b, c),
            Composer::Proving(_) => false,
        },
        Composer::Proving(o) => match new {
            Composer::Proving(f) => ProvingComposer::appended(o, f, a, b, c, None),
            Composer::Setup(_) => false,
        },
    }
}

/// `new` is `old` with one more variable, bound to `value` in the proving
/// build.
pub open spec fn variable_added(old: Composer, new: Composer, value: int) -> bool {
    match (old, new) {
        (Composer::Setup(o), Composer::Setup(f)) => f.num_vars == o.num_vars + 1 && f.n == o.n
            && f.q_m@ == o.q_m@ && f.q_l@ == o.q_l@ && f.q_r@ == o.q_r@ && f.q_o@ == o.q_o@
            && f.q_c@ == o.q_c@ && f.q_lookup@ == o.q_lookup@ && f.w_l@ == o.w_l@
            && f.w_r@ == o.w_r@ && f.w_o@ == o.w_o@ && f.pp@ == o.pp@,
        (Composer::Proving(o), Composer::Proving(f)) => (exists|x: Fe|
            x.val() == value && #[trigger] o.values@.push(x) == f.values@)
            && f.n == o.n && f.w_l@ == o.w_l@ && f.w_r@ == o.w_r@ && f.w_o@ == o.w_o@
            && f.pi_pos@ == o.pi_pos@ && f.pi_vals@ == o.pi_vals@,
        _ => false,
    }
}

/// `new` is `old` with one fresh variable (bound to `value` in a proving
/// build) followed by one lookup row wired `(a, b, c)`.
pub open spec fn output_row_added(old: Composer, new: Composer, a: Variable, b: Variable, c: Variable, value: int) -> bool {
    exists|mid: Composer| #[trigger] variable_added(old, mid, value) && lookup_row_added(mid, new, a, b, c)
}

/// In a setup build the bound value plays no part.
pub proof fn lemma_output_row_value(
    old: Composer,
    new: Composer,
    a: Variable,
    b: Variable,
    c: Variable,
    v1: int,
    v2: int,
)
    requires
        output_row_added(old, new, a, b, c, v1),
        is_setup(old) || v1 == v2,
    ensures
        output_row_added(old, new, a, b, c, v2),
{
    let mid = choose|mid: Composer| #[trigger] variable_added(old, mid, v1) && lookup_row_added(mid, new, a, b, c);
    assert(variable_added(old, mid, v2));
}

/// One fresh variable and one row make the build one variable and one row
/// larger.
pub proof fn lemma_output_row_counts(old: Composer, new: Composer, a: Variable, b: Variable, c: Variable, value: int)
    requires
        output_row_added(old, new, a, b, c, value),
    ensures
        new.rows() == old.rows() + 1,
        new.var_count() == old.var_count() + 1,
        is_setup(new) == is_setup(old),
{
    let mid = choose|mid: Composer| #[trigger] variable_added(old, mid, value) && lookup_row_added(mid, new, a, b, c);
    match old {
        Composer::Setup(o) => match mid {
            Composer::Setup(m) => match new {
                Composer::Setup(f) => {
                    let sel = choose|sel: Selectors| sel.is_lookup() && #[trigger] SetupComposer::appended(m, f, a, b, c, sel, false);
                },
                Composer::Proving(_) => {},
            },
            Composer::Proving(_) => {},
        },
        Composer::Proving(o) => match mid {
            Composer::Proving(m) => match new {
                Composer::Proving(f) => {
                    let x = choose|x: Fe| x.val() == value && #[trigger] o.values@.push(x) == m.values@;
                },
                Composer::Setup(_) => {},
            },
            Composer::Setup(_) => {},
        },
    }
}

/// The value a variable holds in a proving build.
pub open spec fn value_in(c: Composer, v: Variable) -> int {
    match c {
        Composer::Proving(p) => var_value(p.values@, v),
        Composer::Setup(_) => 0,
    }
}

/// `new` keeps the variables of `old`, with their values, and may add more.
pub open spec fn extends(old: Composer, new: Composer) -> bool {
    match old {
        Composer::Setup(o) => match new {
            Composer::Setup(f) => o.num_vars <= f.num_vars,
            Composer::Proving(_) => false,
        },
        Composer::Proving(o) => match new {
            Composer::Proving(f) => o.values@.len() <= f.values@.len() && forall|i: int|
                0 <= i < o.values@.len() ==> #[trigger] f.values@[i] == o.values@[i],
            Composer::Setup(_) => false,
        },
    }
}

pub proof fn lemma_extends_keeps_values(old: Composer, new: Composer, v: Variable)
    requires
        extends(old, new),
        v.valid(old.var_count()),
    ensures
        v.valid(new.var_count()),
        value_in(new, v) == value_in(old, v),
{
}

pub proof fn lemma_extends_trans(a: Composer, b: Composer, c: Composer)
    requires
        extends(a, b),
        extends(b, c),
    ensures
        extends(a, c),
{
    if let Composer::Proving(pa) = a {
        if let Composer::Proving(pb) = b {
            if let Composer::Proving(pc) = c {
                assert forall|i: int| 0 <= i < pa.values@.len() implies #[trigger] pc.values@[i] == pa.values@[i] by {
                    assert(pb.values@[i] == pa.values@[i]);
                }
            }
        }
    }
}

/// Every one of `rows` is loaded in `table`.
pub open spec fn loaded(table: LookupTable, rows: Seq<(int, int, int)>) -> bool {
    rows_subset(rows, table.value())
}

pub open spec fn is_setup(c: Composer) -> bool {
    c matches Composer::Setup(_)
}

impl ConstraintSystem {
    pub open spec fn wf(self) -> bool {
        self.composer.wf() && self.lookup_table.wf()
    }

    /// Room for one more row and one more variable.
    pub open spec fn has_room(self) -> bool {
        self.composer.rows() < usize::MAX && self.composer.var_count() < usize::MAX
    }

    /// A setup build when `setup`, else a proving build; both start empty.
    pub fn new(setup: bool, lookup_table: LookupTable) -> (r: ConstraintSystem)
        requires
            lookup_table.wf(),
        ensures
            r.wf(),
            is_setup(r.composer) == setup,
            r.composer.rows() == 0,
            r.composer.var_count() == 0,
            r.lookup_table == lookup_table,
            match r.composer {
                Composer::Setup(c) => c.pp@.len() == 0,
                Composer::Proving(c) => c.pi_pos@.len() == 0,
            },
    {
        let composer = if setup {
            Composer::Setup(SetupComposer::new())
        } else {
            Composer::Proving(ProvingComposer::new())
        };
        ConstraintSystem { composer, lookup_table }
    }

    /// Makes a variable; the proving build binds it to `value`, the setup
    /// build leaves it without one.
    pub fn assign_variable(&mut self, value: Fe) -> (v: Variable)
        requires
            old(self).wf(),
            old(self).has_room(),
            value.wf(),
        ensures
            final(self).wf(),
            final(self).lookup_table == old(self).lookup_table,
            v == Variable::Var(old(self).composer.var_count() as usize),
            variable_added(old(self).composer, final(self).composer, value.val()),
            extends(old(self).composer, final(self).composer),
            final(self).composer.var_count() == old(self).composer.var_count() + 1,
            !is_setup(old(self).composer) ==> value_in(final(self).composer, v) == value.val(),
    {
        match &mut self.composer {
            Composer::Setup(c) => c.new_variable(),
            Composer::Proving(c) => c.assign_variable(value),
        }
    }

    /// Adds an arithmetic row `q_m·a·b + q_l·a + q_r·b + q_o·c + q_c (+ pi) = 0`;
    /// `pi`, when given, makes the row a public-input row (the setup build
    /// records only its position).
    pub fn arithmetic_gate(&mut self, a: Variable, b: Variable, c: Variable, sels: Selectors, pi: Option<Fe>)
        requires
            old(self).wf(),
            old(self).has_room(),
            sels.wf(),
            pi matches Some(v) ==> v.wf(),
            a.valid(old(self).composer.var_count()),
            b.valid(old(self).composer.var_count()),
            c.valid(old(self).composer.var_count()),
        ensures
            final(self).wf(),
            final(self).lookup_table == old(self).lookup_table,
            match (old(self).composer, final(self).composer) {
                (Composer::Setup(o), Composer::Setup(f)) => SetupComposer::appended(o, f, a, b, c, sels, pi is Some),
                (Composer::Proving(o), Composer::Proving(f)) => ProvingComposer::appended(o, f, a, b, c, pi),
                _ => false,
            },
            extends(old(self).composer, final(self).composer),
    {
        match &mut self.composer {
            Composer::Setup(comp) => comp.gate_constrain(a, b, c, sels, pi.is_some()),
            Composer::Proving(comp) => comp.input_wires(a, b, c, pi),
        }
    }

    /// Adds a set-membership row wired `(x, 0, 0)`: the proving build checks
    /// that the value of `x` is an element of family `T`.
    pub fn contains_gate<T: CustomSet>(&mut self, x: Variable) -> (r: Result<(), LookupError>)
        requires
            old(self).wf(),
            old(self).has_room(),
            x.valid(old(self).composer.var_count()),
        ensures
            final(self).wf(),
            extends(old(self).composer, final(self).composer),
            final(self).composer.var_count() == old(self).composer.var_count(),
            is_setup(final(self).composer) == is_setup(old(self).composer),
            r is Ok ==> final(self).composer.rows() == old(self).composer.rows() + 1,
            final(self).lookup_table == old(self).lookup_table,
            !loaded(old(self).lookup_table, set_rows(T::elements())) ==> r == Err::<(), LookupError>(
                LookupError::MissingTable,
            ) && final(self).composer == old(self).composer,
            loaded(old(self).lookup_table, set_rows(T::elements())) ==> (r is Ok <==> (is_setup(
                old(self).composer,
            ) || on_axis(T::elements(), value_in(old(self).composer, x)))),
            r is Ok ==> lookup_row_added(
                old(self).composer,
                final(self).composer,
                x,
                Variable::Zero,
                Variable::Zero,
            ),
            loaded(old(self).lookup_table, set_rows(T::elements())) ==> (r is Err ==> r == Err::<
                (),
                LookupError,
            >(LookupError::NoMatch) && final(self).composer == old(self).composer),
    {
        let rows = T::collect_rows();
        if !self.lookup_table.contains_rows(&rows) {
            return Err(LookupError::MissingTable);
        }
        match &mut self.composer {
            Composer::Setup(comp) => {
                let ghost before = *comp;
                let sels = Selectors::new_lookup();
                comp.gate_constrain(x, Variable::Zero, Variable::Zero, sels, false);
                assert(SetupComposer::appended(before, *comp, x, Variable::Zero, Variable::Zero, sels, false));
                Ok(())
            },
            Composer::Proving(comp) => {
                let x_value = comp.value_of_var(x);
                match self.lookup_table.contains::<T>(&x_value) {
                    Ok(()) => {
                        comp.input_wires(x, Variable::Zero, Variable::Zero, None);
                        Ok(())
                    },
                    Err(e) => Err(e),
                }
            },
        }
    }

    /// Adds a one-input lookup row wired `(x, y, 0)` with a fresh output `y`;
    /// the proving build binds `y` to the output of family `T` at the value
    /// of `x`.
    pub fn lookup_1d_gate<T: Custom1DMap>(&mut self, x: Variable) -> (r: Result<Variable, LookupError>)
        requires
            old(self).wf(),
            old(self).has_room(),
            x.valid(old(self).composer.var_count()),
        ensures
            final(self).wf(),
            extends(old(self).composer, final(self).composer),
            r is Ok ==> final(self).composer.var_count() == old(self).composer.var_count() + 1,
            r matches Ok(y) ==> !is_setup(old(self).composer) ==> value_in(final(self).composer, y)
                == T::map(value_in(old(self).composer, x) as u64) as int,
            final(self).lookup_table == old(self).lookup_table,
            !loaded(old(self).lookup_table, rows_1d::<T>()) ==> r == Err::<Variable, LookupError>(
                LookupError::MissingTable,
            ) && final(self).composer == old(self).composer,
            loaded(old(self).lookup_table, rows_1d::<T>()) ==> (r is Ok <==> (is_setup(old(self).composer)
                || on_axis(T::x_axis(), value_in(old(self).composer, x)))),
            r matches Ok(y) ==> y == Variable::Var(old(self).composer.var_count() as usize)
                && output_row_added(
                old(self).composer,
                final(self).composer,
                x,
                y,
                Variable::Zero,
                T::map(value_in(old(self).composer, x) as u64) as int,
            ),
            loaded(old(self).lookup_table, rows_1d::<T>()) ==> (r is Err ==> r == Err::<
                Variable,
                LookupError,
            >(LookupError::NoMatch) && final(self).composer == old(self).composer),
    {
        let rows = T::collect_rows();
        assert(rows_value(rows@) =~= rows_1d::<T>());
        if !self.lookup_table.contains_rows(&rows) {
            return Err(LookupError::MissingTable);
        }
        match &mut self.composer {
            Composer::Setup(comp) => {
                let y = comp.new_variable();
                let ghost mid = *comp;
                let sels = Selectors::new_lookup();
                comp.gate_constrain(x, y, Variable::Zero, sels, false);
                proof {
                    assert(SetupComposer::appended(mid, *comp, x, y, Variable::Zero, sels, false));
                    assert(lookup_row_added(Composer::Setup(mid), Composer::Setup(*comp), x, y, Variable::Zero));
                    assert(variable_added(
                        old(self).composer,
                        Composer::Setup(mid),
                        T::map(value_in(old(self).composer, x) as u64) as int,
                    ));
                }
                Ok(y)
            },
            Composer::Proving(comp) => {
                let x_value = comp.value_of_var(x);
                match self.lookup_table.lookup_1d::<T>(&x_value) {
                    Ok(y_value) => {
                        let ghost before = *comp;
                        let y = comp.assign_variable(y_value);
                        let ghost mid = *comp;
                        comp.input_wires(x, y, Variable::Zero, None);
                        proof {
                            assert(before.values@.push(y_value) == mid.values@);
                            assert(lookup_row_added(Composer::Proving(mid), Composer::Proving(*comp), x, y, Variable::Zero));
                            assert(variable_added(
                                old(self).composer,
                                Composer::Proving(mid),
                                T::map(value_in(old(self).composer, x) as u64) as int,
                            ));
                        }
                        Ok(y)
                    },
                    Err(e) => Err(e),
                }
            },
        }
    }

    /// Adds a two-input lookup row wired `(x, y, z)` with a fresh output `z`;
    /// the proving build binds `z` to the output of family `T` at the values
    /// of `x` and `y`.
    pub fn lookup_2d_gate<T: Custom2DMap>(&mut self, x: Variable, y: Variable) -> (r: Result<Variable, LookupError>)
        requires
            old(self).wf(),
            old(self).has_room(),
            x.valid(old(self).composer.var_count()),
            y.valid(old(self).composer.var_count()),
        ensures
            final(self).wf(),
            extends(old(self).composer, final(self).composer),
            r is Ok ==> final(self).composer.var_count() == old(self).composer.var_count() + 1,
            r matches Ok(z) ==> !is_setup(old(self).composer) ==> value_in(final(self).composer, z)
                == T::map(value_in(old(self).composer, x) as u64, value_in(old(self).composer, y) as u64) as int,
            final(self).lookup_table == old(self).lookup_table,
            !loaded(old(self).lookup_table, rows_2d::<T>()) ==> r == Err::<Variable, LookupError>(
                LookupError::MissingTable,
            ) && final(self).composer == old(self).composer,
            loaded(old(self).lookup_table, rows_2d::<T>()) ==> (r is Ok <==> (is_setup(old(self).composer)
                || (on_axis(T::x_axis(), value_in(old(self).composer, x)) && on_axis(
                T::y_axis(),
                value_in(old(self).composer, y),
            )))),
            r matches Ok(z) ==> z == Variable::Var(old(self).composer.var_count() as usize)
                && output_row_added(
                old(self).composer,
                final(self).composer,
                x,
                y,
                z,
                T::map(value_in(old(self).composer, x) as u64, value_in(old(self).composer, y) as u64) as int,
            ),
            loaded(old(self).lookup_table, rows_2d::<T>()) ==> (r is Err ==> r == Err::<
                Variable,
                LookupError,
            >(LookupError::NoMatch) && final(self).composer == old(self).composer),
    {
        let rows = T::collect_rows();
        assert(rows_value(rows@) =~= rows_2d::<T>());
        if !self.lookup_table.contains_rows(&rows) {
            return Err(LookupError::MissingTable);
        }
        match &mut self.composer {
            Composer::Setup(comp) => {
                let z = comp.new_variable();
                let ghost mid = *comp;
                let sels = Selectors::new_lookup();
                comp.gate_constrain(x, y, z, sels, false);
                proof {
                    assert(SetupComposer::appended(mid, *comp, x, y, z, sels, false));
                    assert(lookup_row_added(Composer::Setup(mid), Composer::Setup(*comp), x, y, z));
                    assert(variable_added(
                        old(self).composer,
                        Composer::Setup(mid),
                        T::map(value_in(old(self).composer, x) as u64, value_in(old(self).composer, y) as u64) as int,
                    ));
                }
                Ok(z)
            },
            Composer::Proving(comp) => {
                let x_value = comp.value_of_var(x);
                let y_value = comp.value_of_var(y);
                match self.lookup_table.lookup_2d::<T>(&x_value, &y_value) {
                    Ok(z_value) => {
                        let ghost before = *comp;
                        let z = comp.assign_variable(z_value);
                        let ghost mid = *comp;
                        comp.input_wires(x, y, z, None);
                        proof {
                            assert(before.values@.push(z_value) == mid.values@);
                            assert(lookup_row_added(Composer::Proving(mid), Composer::Proving(*comp), x, y, z));
                            assert(variable_added(
                                old(self).composer,
                                Composer::Proving(mid),
                                T::map(value_in(old(self).composer, x) as u64, value_in(old(self).composer, y) as u64) as int,
                            ));
                        }
                        Ok(z)
                    },
                    Err(e) => Err(e),
                }
            },
        }
    }
}


} // verus!
