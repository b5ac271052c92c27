//! A reference evaluation of the arithmetic gate equation on every row of
//! a circuit, over an assigned witness.
use vstd::prelude::*;
use crate::field::{Fe, fadd, fmul, modulus, lemma_fadd_assoc, lemma_neutral, lemma_fmul_assoc};
use vstd::arithmetic::div_mod::{
    lemma_add_mod_noop, lemma_mul_mod_noop_left, lemma_mul_mod_noop_right, lemma_mod_twice,
    lemma_mod_multiples_vanish, lemma_fundamental_div_mod,
};
use crate::composer::{SetupComposer, ProvingComposer, Variable, var_value, all_wf};
use crate::constraint_system::{ConstraintSystem, Composer};

verus! {

/// Why a pair of builds fails the check.
#[derive(Clone, Copy, Debug, PartialEq, Eq, Structural)]
pub enum GateError {
    /// The two builds have different numbers of rows.
    CircuitSize,
    /// A build records another number of public inputs than was given.
    PublicInputArity,
    /// The two builds put their public inputs at different rows.
    PublicInputPositions,
    /// The public input with this index differs from the one given.
    PublicInputValue(usize),
    /// At this row the arithmetic equation does not hold.
    Unsatisfied(usize),
    /// The builds handed over are not one setup build and one proving build.
    WrongMode,
    /// The expected value with this index is not the value of its variable
    /// (or the variable has none).
    WrongValue(usize),
}

/// The public input at row `i`: the last one recorded there, else zero.
pub open spec fn pi_at(pos: Seq<usize>, vals: Seq<Fe>, i: int) -> int
    decreases pos.len(),
{
    if pos.len() == 0 || vals.len() == 0 {
        0
    } else if pos.last() == i {
        vals.last().val()
    } else {
        pi_at(pos.drop_last(), vals.drop_last(), i)
    }
}

/// `q_m·a·b + q_l·a + q_r·b + q_o·c + pi + q_c` in the field.
pub open spec fn gate_eval(
    q_m: int,
    q_l: int,
    q_r: int,
    q_o: int,
    q_c: int,
    a: int,
    b: int,
    c: int,
    pi: int,
) -> int {
    fadd(fadd(fadd(fadd(fadd(fmul(fmul(q_m, a), b), fmul(q_l, a)), fmul(q_r, b)), fmul(q_o, c)), pi), q_c)
}

/// Arithmetic equation of row `i`: selectors of the setup build, wire values
/// and public input of the proving build.
pub open spec fn row_value(setup: SetupComposer, proving: ProvingComposer, i: int) -> int {
    gate_eval(
        setup.q_m@[i].val(),
        setup.q_l@[i].val(),
        setup.q_r@[i].val(),
        setup.q_o@[i].val(),
        setup.q_c@[i].val(),
        var_value(proving.values@, proving.w_l@[i]),
        var_value(proving.values@, proving.w_r@[i]),
        var_value(proving.values@, proving.w_o@[i]),
        pi_at(proving.pi_pos@, proving.pi_vals@, i),
    )
}

/// The two builds agree in size and in public-input count and positions.
pub open spec fn shape_ok(setup: SetupComposer, proving: ProvingComposer, pub_inputs: Seq<Fe>) -> bool {
    &&& setup.n == proving.n
    &&& setup.pp@.len() == pub_inputs.len()
    &&& proving.pi_vals@.len() == pub_inputs.len()
    &&& setup.pp@ == proving.pi_pos@
}

pub open spec fn pi_values_ok(proving: ProvingComposer, pub_inputs: Seq<Fe>) -> bool {
    forall|k: int| 0 <= k < pub_inputs.len() ==> #[trigger] proving.pi_vals@[k].val() == pub_inputs[k].val()
}

pub open spec fn gates_ok(setup: SetupComposer, proving: ProvingComposer) -> bool {
    forall|i: int| 0 <= i < setup.n ==> #[trigger] row_value(setup, proving, i) == 0
}

proof fn lemma_pi_at_step(pos: Seq<usize>, vals: Seq<Fe>, k: int, j: int)
    requires
        0 <= k < pos.len(),
        pos.len() == vals.len(),
    ensures
        pi_at(pos.take(k + 1), vals.take(k + 1), j) == if pos[k] == j {
            vals[k].val()
        } else {
            pi_at(pos.take(k), vals.take(k), j)
        },
{
    assert(pos.take(k + 1).drop_last() =~= pos.take(k));
    assert(vals.take(k + 1).drop_last() =~= vals.take(k));
}

/// The public input of every row, zero where none is recorded.
fn pi_evals(proving: &ProvingComposer) -> (r: Vec<Fe>)
    requires
        proving.wf(),
    ensures
        r@.len() == proving.n,
        all_wf(r@),
        forall|j: int| 0 <= j < proving.n ==> #[trigger] r@[j].val() == pi_at(proving.pi_pos@, proving.pi_vals@, j),
{
    let n = proving.n;
    let mut r: Vec<Fe> = Vec::new();
    let mut i: usize = 0;
    while i < n
        invariant
            i <= n,
            r@.len() == i,
            forall|j: int| 0 <= j < i ==> (#[trigger] r@[j]).val() == 0 && r@[j].wf(),
        decreases n - i,
    {
        r.push(Fe::zero());
        i = i + 1;
    }
    let ghost pos = proving.pi_pos@;
    let ghost vals = proving.pi_vals@;
    proof {
        assert forall|j: int| 0 <= j < n implies #[trigger] r@[j].val() == pi_at(pos.take(0), vals.take(0), j) by {
            assert(pos.take(0).len() == 0);
        }
    }
    let mut k: usize = 0;
    while k < proving.pi_pos.len()
        invariant
            proving.wf(),
            pos == proving.pi_pos@,
            vals == proving.pi_vals@,
            n == proving.n,
            k <= pos.len(),
            r@.len() == n,
            all_wf(r@),
            forall|j: int| 0 <= j < n ==> #[trigger] r@[j].val() == pi_at(pos.take(k as int), vals.take(k as int), j),
        decreases pos.len() - k,
    {
        let p = proving.pi_pos[k];
        assert(p < n);
        r.set(p, proving.pi_vals[k]);
        proof {
            assert forall|j: int| 0 <= j < n implies #[trigger] r@[j].val() == pi_at(
                pos.take(k + 1),
                vals.take(k + 1),
                j,
            ) by {
                lemma_pi_at_step(pos, vals, k as int, j);
            }
        }
        k = k + 1;
    }
    assert(pos.take(pos.len() as int) =~= pos);
    assert(vals.take(vals.len() as int) =~= vals);
    r
}

/// Checks the two builds of a circuit against each other and the given
/// public inputs, then evaluates the arithmetic gate equation on every row;
/// reports the first failure.
pub fn check_arith_gate(setup: &SetupComposer, proving: &ProvingComposer, pub_inputs: &[Fe]) -> (r:
    Result<(), GateError>)
    requires
        setup.wf(),
        proving.wf(),
        all_wf(pub_inputs@),
    ensures
        r == Err::<(), GateError>(GateError::CircuitSize) <==> setup.n != proving.n,
        r == Err::<(), GateError>(GateError::PublicInputArity) <==> setup.n == proving.n && (
        setup.pp@.len() != pub_inputs@.len() || proving.pi_vals@.len() != pub_inputs@.len()),
        r == Err::<(), GateError>(GateError::PublicInputPositions) <==> setup.n == proving.n
            && setup.pp@.len() == pub_inputs@.len() && proving.pi_vals@.len() == pub_inputs@.len()
            && setup.pp@ != proving.pi_pos@,
        (r matches Err(GateError::PublicInputValue(_))) <==> shape_ok(*setup, *proving, pub_inputs@)
            && !pi_values_ok(*proving, pub_inputs@),
        r matches Err(GateError::PublicInputValue(k)) ==> k < pub_inputs@.len()
            && proving.pi_vals@[k as int].val() != pub_inputs@[k as int].val()
            && forall|j: int| 0 <= j < k ==> proving.pi_vals@[j].val() == pub_inputs@[j].val(),
        r matches Err(GateError::Unsatisfied(i)) ==> shape_ok(*setup, *proving, pub_inputs@)
            && pi_values_ok(*proving, pub_inputs@) && i < setup.n
            && row_value(*setup, *proving, i as int) != 0
            && forall|j: int| 0 <= j < i ==> row_value(*setup, *proving, j) == 0,
        r is Ok <==> shape_ok(*setup, *proving, pub_inputs@) && pi_values_ok(*proving, pub_inputs@)
            && gates_ok(*setup, *proving),
        !(r matches Err(GateError::WrongMode)) && !(r matches Err(GateError::WrongValue(_))),
{
    if setup.n != proving.n {
        return Err(GateError::CircuitSize);
    }
    if setup.pp.len() != pub_inputs.len() || proving.pi_vals.len() != pub_inputs.len() {
        return Err(GateError::PublicInputArity);
    }
    let mut k: usize = 0;
    while k < setup.pp.len()
        invariant
            setup.wf(),
            proving.wf(),
            setup.n == proving.n,
            setup.pp@.len() == pub_inputs@.len(),
            proving.pi_vals@.len() == pub_inputs@.len(),
            k <= setup.pp@.len(),
            setup.pp@.len() == proving.pi_pos@.len(),
            forall|j: int| 0 <= j < k ==> setup.pp@[j] == proving.pi_pos@[j],
        decreases setup.pp@.len() - k,
    {
        if setup.pp[k] != proving.pi_pos[k] {
            return Err(GateError::PublicInputPositions);
        }
        k = k + 1;
    }
    assert(setup.pp@ =~= proving.pi_pos@);
    let mut k: usize = 0;
    while k < pub_inputs.len()
        invariant
            setup.wf(),
            proving.wf(),
            shape_ok(*setup, *proving, pub_inputs@),
            k <= pub_inputs@.len(),
            forall|j: int| 0 <= j < k ==> proving.pi_vals@[j].val() == pub_inputs@[j].val(),
        decreases pub_inputs@.len() - k,
    {
        if proving.pi_vals[k] != pub_inputs[k] {
            proof {
                if proving.pi_vals@[k as int].val() == pub_inputs@[k as int].val() {
                    proving.pi_vals@[k as int].lemma_val_injective(pub_inputs@[k as int]);
                }
            }
            return Err(GateError::PublicInputValue(k));
        }
        k = k + 1;
    }
    let pis = pi_evals(proving);
    let n = setup.n;
    let mut i: usize = 0;
    while i < n
        invariant
            setup.wf(),
            proving.wf(),
            n == setup.n,
            n == proving.n,
            i <= n,
            pis@.len() == n,
            all_wf(pis@),
            shape_ok(*setup, *proving, pub_inputs@),
            pi_values_ok(*proving, pub_inputs@),
            forall|j: int| 0 <= j < n ==> #[trigger] pis@[j].val() == pi_at(proving.pi_pos@, proving.pi_vals@, j),
            forall|j: int| 0 <= j < i ==> row_value(*setup, *proving, j) == 0,
        decreases n - i,
    {
        let a = proving.value_of_var(proving.w_l[i]);
        let b = proving.value_of_var(proving.w_r[i]);
        let c = proving.value_of_var(proving.w_o[i]);
        let t_m = setup.q_m[i].mul(&a).mul(&b);
        let t_l = setup.q_l[i].mul(&a);
        let t_r = setup.q_r[i].mul(&b);
        let t_o = setup.q_o[i].mul(&c);
        let out = t_m.add(&t_l).add(&t_r).add(&t_o).add(&pis[i]).add(&setup.q_c[i]);
        assert(out.val() == row_value(*setup, *proving, i as int));
        if !out.is_zero() {
            return Err(GateError::Unsatisfied(i));
        }
        i = i + 1;
    }
    Ok(())
}

/// The variable holds the expected value in the proving build.
pub open spec fn value_as_expected(proving: ProvingComposer, v: Variable, expected: Fe) -> bool {
    v.valid(proving.values@.len()) && var_value(proving.values@, v) == expected.val()
}

/// Checks the two builds of one circuit description: first that each
/// variable listed holds its expected value in the proving build, then the
/// gate equation of every row as `check_arith_gate` does.
pub fn test_gate_constraints(
    setup: &ConstraintSystem,
    proving: &ConstraintSystem,
    expected: &Vec<(Variable, Fe)>,
    pub_inputs: &[Fe],
) -> (r: Result<(), GateError>)
    requires
        setup.wf(),
        proving.wf(),
        all_wf(pub_inputs@),
    ensures
        (r == Err::<(), GateError>(GateError::WrongMode)) <==> !(setup.composer is Setup && proving.composer is Proving),
        match setup.composer {
            Composer::Setup(s) => match proving.composer {
            Composer::Proving(p) => {
                &&& (r matches Err(GateError::WrongValue(_))) <==> exists|k: int|
                    0 <= k < expected@.len() && !value_as_expected(p, expected@[k].0, expected@[k].1)
                &&& r matches Err(GateError::WrongValue(k)) ==> k < expected@.len()
                    && !value_as_expected(p, expected@[k as int].0, expected@[k as int].1)
                    && forall|j: int| 0 <= j < k ==> value_as_expected(p, expected@[j].0, expected@[j].1)
                &&& r is Ok <==> (forall|k: int| 0 <= k < expected@.len() ==> value_as_expected(p, expected@[k].0, expected@[k].1))
                    && shape_ok(s, p, pub_inputs@) && pi_values_ok(p, pub_inputs@) && gates_ok(s, p)
            },
            _ => true,
            },
            _ => true,
        },
{
    let s = match &setup.composer {
        Composer::Setup(s) => s,
        _ => return Err(GateError::WrongMode),
    };
    match &proving.composer {
        Composer::Proving(p) => {
            let mut k: usize = 0;
            while k < expected.len()
                invariant
                    p.wf(),
                    proving.composer == Composer::Proving(*p),
                    setup.composer == Composer::Setup(*s),
                    k <= expected@.len(),
                    forall|j: int| 0 <= j < k ==> value_as_expected(*p, expected@[j].0, expected@[j].1),
                decreases expected@.len() - k,
            {
                let (v, want) = expected[k];
                let ok = match v {
                    Variable::Zero => want.is_zero(),
                    Variable::Var(i) => i < p.values.len() && p.values[i] == want,
                };
                if !ok {
                    proof {
                        if let Variable::Var(i) = v {
                            if i < p.values@.len() && p.values@[i as int].val() == want.val() {
                                p.values@[i as int].lemma_val_injective(want);
                            }
                        }
                    }
                    return Err(GateError::WrongValue(k));
                }
                k = k + 1;
            }
            check_arith_gate(s, p, pub_inputs)
        },
        _ => Err(GateError::WrongMode),
    }
}

/// On a satisfied row, adding a nonzero `delta` to the constant selector of
/// that row makes its equation fail, and leaves every other row as it was.
pub proof fn lemma_perturbed_constant_fails(
    setup: SetupComposer,
    perturbed: SetupComposer,
    proving: ProvingComposer,
    i: int,
    delta: int,
)
    requires
        setup.wf(),
        proving.wf(),
        setup.n == proving.n,
        0 <= i < setup.n,
        0 < delta < modulus(),
        row_value(setup, proving, i) == 0,
        perturbed.n == setup.n,
        perturbed.q_m@ == setup.q_m@,
        perturbed.q_l@ == setup.q_l@,
        perturbed.q_r@ == setup.q_r@,
        perturbed.q_o@ == setup.q_o@,
        perturbed.q_c@.len() == setup.q_c@.len(),
        perturbed.q_c@[i].val() == fadd(setup.q_c@[i].val(), delta),
        forall|j: int| 0 <= j < setup.n && j != i ==> perturbed.q_c@[j] == setup.q_c@[j],
    ensures
        row_value(perturbed, proving, i) != 0,
        forall|j: int| 0 <= j < setup.n && j != i ==> row_value(perturbed, proving, j) == row_value(setup, proving, j),
{
    let x = row_value(setup, proving, i);
    let rest = fadd(
        fadd(
            fadd(
                fadd(
                    fmul(fmul(setup.q_m@[i].val(), var_value(proving.values@, proving.w_l@[i])), var_value(proving.values@, proving.w_r@[i])),
                    fmul(setup.q_l@[i].val(), var_value(proving.values@, proving.w_l@[i])),
                ),
                fmul(setup.q_r@[i].val(), var_value(proving.values@, proving.w_r@[i])),
            ),
            fmul(setup.q_o@[i].val(), var_value(proving.values@, proving.w_o@[i])),
        ),
        pi_at(proving.pi_pos@, proving.pi_vals@, i),
    );
    assert(x == fadd(rest, setup.q_c@[i].val()));
    assert(row_value(perturbed, proving, i) == fadd(rest, fadd(setup.q_c@[i].val(), delta)));
    lemma_fadd_assoc(rest, setup.q_c@[i].val(), delta);
    lemma_neutral(delta);
}

/// Unreduced sum behind an arithmetic row's equation.
pub open spec fn gate_sum(
    q_m: int,
    q_l: int,
    q_r: int,
    q_o: int,
    q_c: int,
    a: int,
    b: int,
    c: int,
    pi: int,
) -> int {
    q_m * a * b + q_l * a + q_r * b + q_o * c + pi + q_c
}

/// An arithmetic row's equation is its unreduced sum, reduced once.
pub proof fn lemma_gate_eval_normal_form(
    q_m: int,
    q_l: int,
    q_r: int,
    q_o: int,
    q_c: int,
    a: int,
    b: int,
    c: int,
    pi: int,
)
    ensures
        gate_eval(q_m, q_l, q_r, q_o, q_c, a, b, c, pi) == gate_sum(q_m, q_l, q_r, q_o, q_c, a, b, c, pi) % modulus(),
{
    let m = modulus();
    let t_m = q_m * a * b;
    let t_l = q_l * a;
    let t_r = q_r * b;
    let t_o = q_o * c;
    lemma_mul_mod_noop_left(q_m * a, b, m);
    assert(fmul(fmul(q_m, a), b) == t_m % m);
    lemma_add_mod_noop(t_m, t_l, m);
    lemma_mod_twice(t_m, m);
    lemma_mod_twice(t_l, m);
    lemma_add_mod_noop(t_m + t_l, t_r, m);
    lemma_mod_twice(t_m + t_l, m);
    lemma_mod_twice(t_r, m);
    lemma_add_mod_noop(t_m + t_l + t_r, t_o, m);
    lemma_mod_twice(t_m + t_l + t_r, m);
    lemma_mod_twice(t_o, m);
    lemma_add_mod_noop(t_m + t_l + t_r + t_o, pi, m);
    lemma_mod_twice(t_m + t_l + t_r + t_o, m);
    lemma_add_mod_noop(t_m + t_l + t_r + t_o + pi, q_c, m);
    lemma_mod_twice(t_m + t_l + t_r + t_o + pi, m);
    assert(fadd(fmul(fmul(q_m, a), b), fmul(q_l, a)) == (t_m + t_l) % m);
    assert(fadd((t_m + t_l) % m, fmul(q_r, b)) == (t_m + t_l + t_r) % m);
    assert(fadd((t_m + t_l + t_r) % m, fmul(q_o, c)) == (t_m + t_l + t_r + t_o) % m);
    assert(fadd((t_m + t_l + t_r + t_o) % m, pi) == (t_m + t_l + t_r + t_o + pi) % m) by {
        lemma_add_mod_noop(t_m + t_l + t_r + t_o, pi, m);
        lemma_mod_twice(pi, m);
        vstd::arithmetic::div_mod::lemma_add_mod_noop_right(t_m + t_l + t_r + t_o, pi, m);
        assert(((t_m + t_l + t_r + t_o) % m + pi) % m == (pi + (t_m + t_l + t_r + t_o) % m) % m);
        vstd::arithmetic::div_mod::lemma_add_mod_noop_right(pi, t_m + t_l + t_r + t_o, m);
    }
    assert(fadd((t_m + t_l + t_r + t_o + pi) % m, q_c) == (t_m + t_l + t_r + t_o + pi + q_c) % m) by {
        vstd::arithmetic::div_mod::lemma_add_mod_noop_right(q_c, t_m + t_l + t_r + t_o + pi, m);
    }
}

/// `x` has a multiplicative inverse in the field.
pub open spec fn is_unit(x: int) -> bool {
    exists|y: int| #[trigger] fmul(x, y) == 1
}

/// A product of two invertible elements is not zero.
pub proof fn lemma_unit_product_nonzero(x: int, y: int)
    requires
        is_unit(x),
        is_unit(y),
    ensures
        fmul(x, y) != 0,
{
    let xi = choose|v: int| #[trigger] fmul(x, v) == 1;
    let yi = choose|v: int| #[trigger] fmul(y, v) == 1;
    // (x·y)·(yi·xi) = x·(y·yi)·xi = x·xi = 1
    lemma_fmul_assoc(x, y, fmul(yi, xi));
    lemma_fmul_assoc(y, yi, xi);
    assert(fmul(fmul(y, yi), xi) == fmul(1, xi));
    lemma_mul_mod_noop_left(1, xi, modulus());
    assert(fmul(1, xi) == xi % modulus());
    lemma_mul_mod_noop_right(x, xi, modulus());
    assert(fmul(x, fmul(1, xi)) == 1);
    if fmul(x, y) == 0 {
        assert(fmul(fmul(x, y), fmul(yi, xi)) == fmul(0, fmul(yi, xi)));
        assert(0 * fmul(yi, xi) == 0);
        lemma_neutral(0);
        vstd::arithmetic::div_mod::lemma_small_mod(0, modulus() as nat);
    }
}

/// Replacing `x` by `(x + delta) mod P` in a sum that is `factor` times `x`
/// plus the rest shifts the reduced sum by `delta · factor`.
proof fn lemma_shift(rest: int, x: int, delta: int, factor: int)
    ensures
        (rest + ((x + delta) % modulus()) * factor) % modulus() == (rest + x * factor + delta * factor)
            % modulus(),
{
    let m = modulus();
    let k = (x + delta) / m;
    lemma_fundamental_div_mod(x + delta, m);
    assert((x + delta) % m == x + delta - m * k);
    assert(rest + (x + delta - m * k) * factor == m * (-k * factor) + (rest + x * factor + delta * factor))
        by (nonlinear_arith);
    lemma_mod_multiples_vanish(-k * factor, rest + x * factor + delta * factor, m);
}

/// Adding `delta` to one selector, or to the value on one wire, of a row
/// shifts its equation by `delta` times that entry's factor: `a·b` for
/// `q_m`, `a`, `b`, `c` for `q_l`, `q_r`, `q_o`, one for `q_c` and the public
/// input, `q_m·b + q_l` for `a`, `q_m·a + q_r` for `b`, and `q_o` for `c`.
pub proof fn lemma_gate_eval_shift(
    q_m: int,
    q_l: int,
    q_r: int,
    q_o: int,
    q_c: int,
    a: int,
    b: int,
    c: int,
    pi: int,
    delta: int,
)
    ensures
        ({
            let s = gate_sum(q_m, q_l, q_r, q_o, q_c, a, b, c, pi);
            let m = modulus();
            &&& gate_eval(fadd(q_m, delta), q_l, q_r, q_o, q_c, a, b, c, pi) == (s + delta * (a * b)) % m
            &&& gate_eval(q_m, fadd(q_l, delta), q_r, q_o, q_c, a, b, c, pi) == (s + delta * a) % m
            &&& gate_eval(q_m, q_l, fadd(q_r, delta), q_o, q_c, a, b, c, pi) == (s + delta * b) % m
            &&& gate_eval(q_m, q_l, q_r, fadd(q_o, delta), q_c, a, b, c, pi) == (s + delta * c) % m
            &&& gate_eval(q_m, q_l, q_r, q_o, fadd(q_c, delta), a, b, c, pi) == (s + delta) % m
            &&& gate_eval(q_m, q_l, q_r, q_o, q_c, a, b, c, fadd(pi, delta)) == (s + delta) % m
            &&& gate_eval(q_m, q_l, q_r, q_o, q_c, fadd(a, delta), b, c, pi) == (s + delta * (q_m * b + q_l)) % m
            &&& gate_eval(q_m, q_l, q_r, q_o, q_c, a, fadd(b, delta), c, pi) == (s + delta * (q_m * a + q_r)) % m
            &&& gate_eval(q_m, q_l, q_r, q_o, q_c, a, b, fadd(c, delta), pi) == (s + delta * q_o) % m
        }),
{
    let m = modulus();
    let d = delta;
    lemma_gate_eval_normal_form(fadd(q_m, d), q_l, q_r, q_o, q_c, a, b, c, pi);
    lemma_gate_eval_normal_form(q_m, fadd(q_l, d), q_r, q_o, q_c, a, b, c, pi);
    lemma_gate_eval_normal_form(q_m, q_l, fadd(q_r, d), q_o, q_c, a, b, c, pi);
    lemma_gate_eval_normal_form(q_m, q_l, q_r, fadd(q_o, d), q_c, a, b, c, pi);
    lemma_gate_eval_normal_form(q_m, q_l, q_r, q_o, fadd(q_c, d), a, b, c, pi);
    lemma_gate_eval_normal_form(q_m, q_l, q_r, q_o, q_c, a, b, c, fadd(pi, d));
    lemma_gate_eval_normal_form(q_m, q_l, q_r, q_o, q_c, fadd(a, d), b, c, pi);
    lemma_gate_eval_normal_form(q_m, q_l, q_r, q_o, q_c, a, fadd(b, d), c, pi);
    lemma_gate_eval_normal_form(q_m, q_l, q_r, q_o, q_c, a, b, fadd(c, d), pi);
    let x2 = fadd(q_m, d);
    assert(x2 * a * b + q_l * a + q_r * b + q_o * c + pi + q_c == (q_l * a + q_r * b + q_o * c + pi + q_c) + x2 * (a * b)) by (nonlinear_arith);
    assert((q_l * a + q_r * b + q_o * c + pi + q_c) + q_m * (a * b) + d * (a * b) == (q_m * a * b + q_l * a + q_r * b + q_o * c + pi + q_c) + d * (a * b)) by (nonlinear_arith);
    lemma_shift(q_l * a + q_r * b + q_o * c + pi + q_c, q_m, d, (a * b));
    let x2 = fadd(q_l, d);
    assert(q_m * a * b + x2 * a + q_r * b + q_o * c + pi + q_c == (q_m * a * b + q_r * b + q_o * c + pi + q_c) + x2 * a) by (nonlinear_arith);
    assert((q_m * a * b + q_r * b + q_o * c + pi + q_c) + q_l * a + d * a == (q_m * a * b + q_l * a + q_r * b + q_o * c + pi + q_c) + d * a) by (nonlinear_arith);
    lemma_shift(q_m * a * b + q_r * b + q_o * c + pi + q_c, q_l, d, a);
    let x2 = fadd(q_r, d);
    assert(q_m * a * b + q_l * a + x2 * b + q_o * c + pi + q_c == (q_m * a * b + q_l * a + q_o * c + pi + q_c) + x2 * b) by (nonlinear_arith);
    assert((q_m * a * b + q_l * a + q_o * c + pi + q_c) + q_r * b + d * b == (q_m * a * b + q_l * a + q_r * b + q_o * c + pi + q_c) + d * b) by (nonlinear_arith);
    lemma_shift(q_m * a * b + q_l * a + q_o * c + pi + q_c, q_r, d, b);
    let x2 = fadd(q_o, d);
    assert(q_m * a * b + q_l * a + q_r * b + x2 * c + pi + q_c == (q_m * a * b + q_l * a + q_r * b + pi + q_c) + x2 * c) by (nonlinear_arith);
    assert((q_m * a * b + q_l * a + q_r * b + pi + q_c) + q_o * c + d * c == (q_m * a * b + q_l * a + q_r * b + q_o * c + pi + q_c) + d * c) by (nonlinear_arith);
    lemma_shift(q_m * a * b + q_l * a + q_r * b + pi + q_c, q_o, d, c);
    let x2 = fadd(q_c, d);
    assert(q_m * a * b + q_l * a + q_r * b + q_o * c + pi + x2 == (q_m * a * b + q_l * a + q_r * b + q_o * c + pi) + x2 * 1) by (nonlinear_arith);
    assert((q_m * a * b + q_l * a + q_r * b + q_o * c + pi) + q_c * 1 + d * 1 == (q_m * a * b + q_l * a + q_r * b + q_o * c + pi + q_c) + d * 1) by (nonlinear_arith);
    lemma_shift(q_m * a * b + q_l * a + q_r * b + q_o * c + pi, q_c, d, 1);
    let x2 = fadd(pi, d);
    assert(q_m * a * b + q_l * a + q_r * b + q_o * c + x2 + q_c == (q_m * a * b + q_l * a + q_r * b + q_o * c + q_c) + x2 * 1) by (nonlinear_arith);
    assert((q_m * a * b + q_l * a + q_r * b + q_o * c + q_c) + pi * 1 + d * 1 == (q_m * a * b + q_l * a + q_r * b + q_o * c + pi + q_c) + d * 1) by (nonlinear_arith);
    lemma_shift(q_m * a * b + q_l * a + q_r * b + q_o * c + q_c, pi, d, 1);
    let x2 = fadd(a, d);
    assert(q_m * x2 * b + q_l * x2 + q_r * b + q_o * c + pi + q_c == (q_r * b + q_o * c + pi + q_c) + x2 * (q_m * b + q_l)) by (nonlinear_arith);
    assert((q_r * b + q_o * c + pi + q_c) + a * (q_m * b + q_l) + d * (q_m * b + q_l) == (q_m * a * b + q_l * a + q_r * b + q_o * c + pi + q_c) + d * (q_m * b + q_l)) by (nonlinear_arith);
    lemma_shift(q_r * b + q_o * c + pi + q_c, a, d, (q_m * b + q_l));
    let x2 = fadd(b, d);
    assert(q_m * a * x2 + q_l * a + q_r * x2 + q_o * c + pi + q_c == (q_l * a + q_o * c + pi + q_c) + x2 * (q_m * a + q_r)) by (nonlinear_arith);
    assert((q_l * a + q_o * c + pi + q_c) + b * (q_m * a + q_r) + d * (q_m * a + q_r) == (q_m * a * b + q_l * a + q_r * b + q_o * c + pi + q_c) + d * (q_m * a + q_r)) by (nonlinear_arith);
    lemma_shift(q_l * a + q_o * c + pi + q_c, b, d, (q_m * a + q_r));
    let x2 = fadd(c, d);
    assert(q_m * a * b + q_l * a + q_r * b + q_o * x2 + pi + q_c == (q_m * a * b + q_l * a + q_r * b + pi + q_c) + x2 * q_o) by (nonlinear_arith);
    assert((q_m * a * b + q_l * a + q_r * b + pi + q_c) + c * q_o + d * q_o == (q_m * a * b + q_l * a + q_r * b + q_o * c + pi + q_c) + d * q_o) by (nonlinear_arith);
    lemma_shift(q_m * a * b + q_l * a + q_r * b + pi + q_c, c, d, q_o);
}


/// On a satisfied row, adding `delta` to a single selector or wire value
/// makes the row's equation fail whenever `delta` and that entry's factor
/// (see `lemma_gate_eval_shift`) are invertible: it becomes
/// `delta · factor`.
pub proof fn lemma_perturbed_row_fails(
    q_m: int,
    q_l: int,
    q_r: int,
    q_o: int,
    q_c: int,
    a: int,
    b: int,
    c: int,
    pi: int,
    delta: int,
)
    requires
        gate_eval(q_m, q_l, q_r, q_o, q_c, a, b, c, pi) == 0,
        is_unit(delta),
    ensures
        is_unit(a * b) ==> gate_eval(fadd(q_m, delta), q_l, q_r, q_o, q_c, a, b, c, pi) != 0,
        is_unit(a) ==> gate_eval(q_m, fadd(q_l, delta), q_r, q_o, q_c, a, b, c, pi) != 0,
        is_unit(b) ==> gate_eval(q_m, q_l, fadd(q_r, delta), q_o, q_c, a, b, c, pi) != 0,
        is_unit(c) ==> gate_eval(q_m, q_l, q_r, fadd(q_o, delta), q_c, a, b, c, pi) != 0,
        gate_eval(q_m, q_l, q_r, q_o, fadd(q_c, delta), a, b, c, pi) != 0,
        gate_eval(q_m, q_l, q_r, q_o, q_c, a, b, c, fadd(pi, delta)) != 0,
        is_unit(q_m * b + q_l) ==> gate_eval(q_m, q_l, q_r, q_o, q_c, fadd(a, delta), b, c, pi) != 0,
        is_unit(q_m * a + q_r) ==> gate_eval(q_m, q_l, q_r, q_o, q_c, a, fadd(b, delta), c, pi) != 0,
        is_unit(q_o) ==> gate_eval(q_m, q_l, q_r, q_o, q_c, a, b, fadd(c, delta), pi) != 0,
{
    let m = modulus();
    let s = gate_sum(q_m, q_l, q_r, q_o, q_c, a, b, c, pi);
    lemma_gate_eval_normal_form(q_m, q_l, q_r, q_o, q_c, a, b, c, pi);
    lemma_gate_eval_shift(q_m, q_l, q_r, q_o, q_c, a, b, c, pi, delta);
    assert(s % m == 0);
    assert forall|f: int| #[trigger] is_unit(f) implies (s + delta * f) % m != 0 by {
        lemma_add_mod_noop(s, delta * f, m);
        lemma_mod_twice(delta * f, m);
        vstd::arithmetic::div_mod::lemma_small_mod(0, m as nat);
        assert((s + delta * f) % m == (delta * f) % m);
        lemma_unit_product_nonzero(delta, f);
    }
    // one is its own inverse
    assert(fmul(1, 1) == 1) by {
        vstd::arithmetic::div_mod::lemma_small_mod(1, m as nat);
    }
    assert(is_unit(1));
    assert(delta * 1 == delta);
}

} // verus!
