use plonk_core::composer::{ProvingComposer, Selectors, SetupComposer, Variable};
use plonk_core::constraint_system::{Composer, ConstraintSystem};
use plonk_core::field::Fe;
use plonk_core::helper::{check_arith_gate, test_gate_constraints, GateError};
use plonk_core::lookup::{LookupError, LookupTable};
use plonk_core::tables::{U8AndTable, U8NotTable, U8XorTable, UintRangeTable};

fn f(v: u64) -> Fe {
    Fe::from_u64(v)
}

fn byte_tables() -> LookupTable {
    let mut t = LookupTable::new();
    t.insert_table::<UintRangeTable<8>>();
    t.insert_table::<U8XorTable>();
    t.insert_table::<U8AndTable>();
    t
}

/// Asserts `c = a ^ b` through one XOR lookup, and checks it with the carry
/// identity `a + b = c + 2·(a & b)`.
fn xor_circuit(cs: &mut ConstraintSystem, a: u8, b: u8) -> (Variable, Variable, Variable) {
    let va = cs.assign_variable(f(a as u64));
    let vb = cs.assign_variable(f(b as u64));
    cs.contains_gate::<UintRangeTable<8>>(va).unwrap();
    cs.contains_gate::<UintRangeTable<8>>(vb).unwrap();
    let vc = cs.lookup_2d_gate::<U8XorTable>(va, vb).unwrap();
    let vd = cs.lookup_2d_gate::<U8AndTable>(va, vb).unwrap();
    let sum = (a ^ b) as u64 + 2 * (a & b) as u64;
    let vs = cs.assign_variable(f(sum));
    let minus_one = Fe::one().neg();
    cs.arithmetic_gate(vc, vd, vs, Selectors::new_arith(Fe::zero(), Fe::one(), f(2), minus_one, Fe::zero()), None);
    cs.arithmetic_gate(va, vb, vs, Selectors::new_arith(Fe::zero(), Fe::one(), Fe::one(), minus_one, Fe::zero()), None);
    (va, vb, vc)
}

#[test]
fn xor_circuit_end_to_end() {
    let mut setup = ConstraintSystem::new(true, byte_tables());
    let mut proving = ConstraintSystem::new(false, byte_tables());
    xor_circuit(&mut setup, 0b1010, 0b0110);
    let (_, _, vc) = xor_circuit(&mut proving, 0b1010, 0b0110);
    match &setup.composer {
        Composer::Setup(s) => {
            assert_eq!(s.n, 6);
            assert_eq!(s.q_lookup[0], Fe::one());
            assert_eq!(s.q_lookup[4], Fe::zero());
            assert_eq!(s.q_r[4], f(2));
            assert_eq!(s.w_l[2], Variable::Var(0));
            assert_eq!(s.w_o[2], Variable::Var(2));
        }
        Composer::Proving(_) => panic!("setup build expected"),
    }
    let expected = vec![(vc, f(0b1100))];
    assert_eq!(test_gate_constraints(&setup, &proving, &expected, &[]), Ok(()));

    // a wrong expectation is reported
    let wrong = vec![(vc, f(0b1101))];
    assert_eq!(test_gate_constraints(&setup, &proving, &wrong, &[]), Err(GateError::WrongValue(0)));

    // perturbing c makes the carry row fail
    if let Composer::Proving(p) = &mut proving.composer {
        if let Variable::Var(i) = vc {
            p.values[i] = f(0b1101);
        }
    }
    assert_eq!(test_gate_constraints(&setup, &proving, &Vec::new(), &[]), Err(GateError::Unsatisfied(4)));
    assert_eq!(test_gate_constraints(&proving, &setup, &Vec::new(), &[]), Err(GateError::WrongMode));
}

#[test]
fn lookup_gate_errors() {
    let mut setup = ConstraintSystem::new(true, LookupTable::new());
    let x = setup.assign_variable(f(3));
    assert_eq!(setup.contains_gate::<UintRangeTable<8>>(x), Err(LookupError::MissingTable));
    assert_eq!(setup.lookup_1d_gate::<U8NotTable>(x), Err(LookupError::MissingTable));

    let mut proving = ConstraintSystem::new(false, byte_tables());
    let big = proving.assign_variable(f(300));
    let small = proving.assign_variable(f(7));
    assert_eq!(proving.contains_gate::<UintRangeTable<8>>(big), Err(LookupError::NoMatch));
    assert_eq!(proving.contains_gate::<UintRangeTable<8>>(small), Ok(()));
    assert_eq!(proving.lookup_2d_gate::<U8XorTable>(big, small), Err(LookupError::NoMatch));
    let z = proving.lookup_2d_gate::<U8XorTable>(small, small).unwrap();
    assert_eq!(z, Variable::Var(2));
    match &proving.composer {
        Composer::Proving(p) => {
            assert_eq!(p.n, 2);
            assert_eq!(p.value_of_var(z), Fe::zero());
            assert_eq!(p.value_of_var(Variable::Zero), Fe::zero());
        }
        Composer::Setup(_) => panic!("proving build expected"),
    }
}

#[test]
fn one_input_lookup_gate() {
    let mut t = LookupTable::new();
    t.insert_table::<U8NotTable>();
    let mut setup = ConstraintSystem::new(true, t);
    let x = setup.assign_variable(f(5));
    let y = setup.lookup_1d_gate::<U8NotTable>(x).unwrap();
    assert_eq!(y, Variable::Var(1));

    let mut t = LookupTable::new();
    t.insert_table::<U8NotTable>();
    let mut proving = ConstraintSystem::new(false, t);
    let x = proving.assign_variable(f(5));
    let y = proving.lookup_1d_gate::<U8NotTable>(x).unwrap();
    match &proving.composer {
        Composer::Proving(p) => {
            assert_eq!(p.value_of_var(y), f(250));
            assert_eq!(p.w_l[0], x);
            assert_eq!(p.w_r[0], y);
            assert_eq!(p.w_o[0], Variable::Zero);
        }
        Composer::Setup(_) => panic!("proving build expected"),
    }
    assert_eq!(test_gate_constraints(&setup, &proving, &vec![(y, f(250))], &[]), Ok(()));
}

fn public_input_circuit(cs: &mut ConstraintSystem, x: u64, pi: u64) {
    // x - pi = 0, with the public input on the row
    let vx = cs.assign_variable(f(x));
    cs.arithmetic_gate(
        vx,
        Variable::Zero,
        Variable::Zero,
        Selectors::new_arith(Fe::zero(), Fe::one().neg(), Fe::zero(), Fe::zero(), Fe::zero()),
        Some(f(pi)),
    );
}

#[test]
fn public_inputs_are_checked() {
    let mut setup = ConstraintSystem::new(true, LookupTable::new());
    let mut proving = ConstraintSystem::new(false, LookupTable::new());
    public_input_circuit(&mut setup, 9, 9);
    public_input_circuit(&mut proving, 9, 9);
    assert_eq!(test_gate_constraints(&setup, &proving, &Vec::new(), &[f(9)]), Ok(()));
    assert_eq!(test_gate_constraints(&setup, &proving, &Vec::new(), &[f(8)]), Err(GateError::PublicInputValue(0)));
    assert_eq!(test_gate_constraints(&setup, &proving, &Vec::new(), &[]), Err(GateError::PublicInputArity));

    let mut proving = ConstraintSystem::new(false, LookupTable::new());
    public_input_circuit(&mut proving, 9, 8);
    assert_eq!(test_gate_constraints(&setup, &proving, &Vec::new(), &[f(8)]), Err(GateError::Unsatisfied(0)));
}

#[test]
fn gate_check_reports_structural_mismatches() {
    let mut s = SetupComposer::new();
    let mut p = ProvingComposer::new();
    assert_eq!(check_arith_gate(&s, &p, &[]), Ok(()));
    s.gate_constrain(Variable::Zero, Variable::Zero, Variable::Zero, Selectors::new_lookup(), false);
    assert_eq!(check_arith_gate(&s, &p, &[]), Err(GateError::CircuitSize));
    p.input_wires(Variable::Zero, Variable::Zero, Variable::Zero, Some(f(1)));
    assert_eq!(check_arith_gate(&s, &p, &[f(1)]), Err(GateError::PublicInputArity));

    let mut s = SetupComposer::new();
    let mut p = ProvingComposer::new();
    s.gate_constrain(Variable::Zero, Variable::Zero, Variable::Zero, Selectors::new_lookup(), false);
    s.gate_constrain(Variable::Zero, Variable::Zero, Variable::Zero, Selectors::new_lookup(), true);
    p.input_wires(Variable::Zero, Variable::Zero, Variable::Zero, Some(f(1)));
    p.input_wires(Variable::Zero, Variable::Zero, Variable::Zero, None);
    assert_eq!(check_arith_gate(&s, &p, &[f(1)]), Err(GateError::PublicInputPositions));
}

#[test]
fn constant_selector_perturbation_fails_that_row_only() {
    let mut s = SetupComposer::new();
    let mut p = ProvingComposer::new();
    let a = p.assign_variable(f(3));
    let _ = s.new_variable();
    // 2·a - 6 = 0 on both rows
    let sels = Selectors::new_arith(Fe::zero(), f(2), Fe::zero(), Fe::zero(), f(6).neg());
    for _ in 0..2 {
        s.gate_constrain(a, Variable::Zero, Variable::Zero, sels, false);
        p.input_wires(a, Variable::Zero, Variable::Zero, None);
    }
    assert_eq!(check_arith_gate(&s, &p, &[]), Ok(()));
    s.q_c[1] = s.q_c[1].add(&f(5));
    assert_eq!(check_arith_gate(&s, &p, &[]), Err(GateError::Unsatisfied(1)));
}
