use plonk_core::constraint_system::{Composer, ConstraintSystem};
use plonk_core::field::Fe;
use plonk_core::helper::test_gate_constraints;
use plonk_core::lookup::{LookupError, LookupTable};
use plonk_core::tables::{U8AndTable, U8AndWithConstTable, U8XorTable, U8XorWithConstTable, UintRangeTable};
use plonk_core::uint8::{Uint8, Uint8Var};

fn tables() -> LookupTable {
    let mut t = LookupTable::new();
    t.insert_table::<UintRangeTable<8>>();
    t.insert_table::<U8XorTable>();
    t.insert_table::<U8AndTable>();
    t.insert_table::<U8XorWithConstTable<0x0f>>();
    t.insert_table::<U8AndWithConstTable<0x3c>>();
    t.insert_table::<U8AndWithConstTable<0xf5>>();
    t
}

fn circuit(cs: &mut ConstraintSystem) -> Vec<Uint8> {
    let a = Uint8Var::assign(cs, 0b1010_1010).unwrap();
    let b = Uint8Var::assign(cs, 0b0110_0110).unwrap();
    let x = a.xor(cs, &b).unwrap();
    let y = a.and(cs, &b).unwrap();
    let z = x.xor_with_const(cs, 0x0f).unwrap();
    let va = Uint8::Variable(a);
    let w = va.and(cs, &Uint8::Constant(0x3c)).unwrap();
    let n = Uint8::Constant(0x0a).not_and(cs, &va).unwrap();
    let k = Uint8::Constant(0x0a).xor(cs, &Uint8::Constant(0x06)).unwrap();
    vec![Uint8::Variable(x), Uint8::Variable(y), Uint8::Variable(z), w, n, k]
}

#[test]
fn byte_operations_in_both_builds() {
    let mut setup = ConstraintSystem::new(true, tables());
    let mut proving = ConstraintSystem::new(false, tables());
    let s = circuit(&mut setup);
    let p = circuit(&mut proving);
    let values: Vec<u8> = p.iter().map(|v| v.value()).collect();
    assert_eq!(values, vec![0b1100_1100, 0b0010_0010, 0b1100_0011, 0b0010_1000, 0b1010_0000, 0x0c]);
    assert_eq!(s.iter().map(|v| v.value()).collect::<Vec<u8>>(), values);
    let mut expected = Vec::new();
    for v in &p {
        if let Uint8::Variable(var) = v {
            expected.push((var.var, Fe::from_u64(var.value as u64)));
        }
    }
    assert_eq!(test_gate_constraints(&setup, &proving, &expected, &[]), Ok(()));
    match &setup.composer {
        Composer::Setup(c) => assert_eq!(c.n, 7),
        Composer::Proving(_) => panic!("setup build expected"),
    }
}

#[test]
fn missing_tables_are_reported() {
    let mut cs = ConstraintSystem::new(false, LookupTable::new());
    assert_eq!(Uint8Var::assign(&mut cs, 3), Err(LookupError::MissingTable));
    let mut t = LookupTable::new();
    t.insert_table::<UintRangeTable<8>>();
    let mut cs = ConstraintSystem::new(false, t);
    let a = Uint8Var::assign(&mut cs, 3).unwrap();
    assert_eq!(a.and(&mut cs, &a), Err(LookupError::MissingTable));
    assert_eq!(a.xor_with_const(&mut cs, 200), Err(LookupError::MissingTable));
    assert_eq!(Uint8::Constant(3).and(&mut cs, &Uint8::Constant(6)), Ok(Uint8::Constant(2)));
}

fn rows_and_vars(cs: &ConstraintSystem) -> (usize, usize) {
    match &cs.composer {
        Composer::Setup(c) => (c.n, c.num_vars),
        Composer::Proving(c) => (c.n, c.values.len()),
    }
}

#[test]
fn each_operation_adds_one_row_or_none() {
    for setup in [true, false] {
        let mut cs = ConstraintSystem::new(setup, tables());
        let a = Uint8Var::assign(&mut cs, 0xaa).unwrap();
        assert_eq!(rows_and_vars(&cs), (1, 1));
        let b = Uint8Var::assign(&mut cs, 0x66).unwrap();
        assert_eq!(rows_and_vars(&cs), (2, 2));
        let (va, vb) = (Uint8::Variable(a), Uint8::Variable(b));
        // two constants: nothing added
        let k = Uint8::Constant(3).xor(&mut cs, &Uint8::Constant(5)).unwrap();
        assert_eq!(k, Uint8::Constant(6));
        assert_eq!(rows_and_vars(&cs), (2, 2));
        // two variables: one output variable, one row (a, b, out)
        let x = va.xor(&mut cs, &vb).unwrap();
        assert_eq!(rows_and_vars(&cs), (3, 3));
        match x {
            Uint8::Variable(v) => assert_eq!(v.var, plonk_core::composer::Variable::Var(2)),
            Uint8::Constant(_) => panic!("a variable result expected"),
        }
        // a constant with a variable: one row on the variable operand
        let y = Uint8::Constant(0x3c).and(&mut cs, &va).unwrap();
        assert_eq!(rows_and_vars(&cs), (4, 4));
        assert_eq!(y.value(), 0xaa & 0x3c);
        if let Composer::Setup(c) = &cs.composer {
            assert_eq!(c.w_l[3], a.var);
            assert_eq!(c.w_o[3], plonk_core::composer::Variable::Zero);
            assert_eq!(c.w_r[2], b.var);
        }
        // a failing operation leaves the build as it was
        assert_eq!(va.not_and(&mut cs, &vb), Err(LookupError::MissingTable));
        assert_eq!(rows_and_vars(&cs), (4, 4));
    }
}
