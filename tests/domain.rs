use plonk_core::field::Fe;
use plonk_core::poly::Poly;
use plonk_core::util::{
    coset_evals_from_poly, coset_evals_from_poly_ref, compute_first_lagrange_evaluation,
    compute_lagrange_poly, evals_from_poly_ref, lc, poly_from_coset_evals, poly_from_evals,
    poly_from_evals_ref, powers_of, Domain, EvaluationDomainExt,
};

fn f(v: u64) -> Fe {
    Fe::from_u64(v)
}

fn poly(cs: &[u64]) -> Poly {
    Poly::from_coefficients_vec(cs.iter().map(|&c| f(c)).collect())
}

#[test]
fn domain_constants() {
    let d = Domain::new(5);
    assert_eq!(d.size(), 8);
    assert_eq!(d.log_size_of_group(), 3);
    assert_eq!(d.size_inv().mul(&f(8)), Fe::one());
    assert_eq!(d.group_gen().mul(&d.group_gen_inv()), Fe::one());
    assert_eq!(d.generator_inv().mul(&f(7)), Fe::one());
    assert_eq!(d.group_gen().pow(8), Fe::one());
    assert_ne!(d.group_gen().pow(4), Fe::one());
    assert_eq!(d.element(3), d.group_gen().pow(3));
    assert_eq!(Domain::new(0).size(), 1);
    assert_eq!(Domain::new(1).size(), 1);
    assert_eq!(Domain::new(16).size(), 16);
    assert_eq!(Domain::new(17).log_size_of_group(), 5);
}

#[test]
fn forward_transform_evaluates_on_the_domain() {
    let d = Domain::new(4);
    let p = poly(&[1, 2, 3]);
    let evals = evals_from_poly_ref(&d, &p);
    assert_eq!(evals.len(), 4);
    for j in 0..4 {
        assert_eq!(evals[j], p.evaluate(&d.element(j)));
    }
    // at omega^0 = 1 the value is the sum of the coefficients
    assert_eq!(evals[0], f(6));
}

#[test]
fn round_trip_through_evaluations() {
    let d = Domain::new(8);
    let p = poly(&[5, 0, 7, 1, 9, 2]);
    let evals = evals_from_poly_ref(&d, &p);
    let q = poly_from_evals(&d, evals.clone());
    assert_eq!(q.coeffs, p.coeffs);
    let q2 = poly_from_evals_ref(&d, &evals);
    assert_eq!(q2.coeffs, p.coeffs);
}

#[test]
fn round_trip_through_coset_evaluations() {
    let d = Domain::new(8);
    let p = poly(&[3, 1, 4, 1, 5, 9, 2, 6]);
    let evals = coset_evals_from_poly_ref(&d, &p);
    for j in 0..8 {
        assert_eq!(evals[j], p.evaluate(&f(7).mul(&d.element(j))));
    }
    let q = poly_from_coset_evals(&d, evals.clone());
    assert_eq!(q.coeffs, p.coeffs);
    let again = coset_evals_from_poly(&d, q);
    assert_eq!(again, evals);
}

#[test]
fn lagrange_polynomial_is_an_indicator() {
    let d = Domain::new(8);
    for i in 0..8 {
        let l = compute_lagrange_poly(&d, i);
        for j in 0..8 {
            let want = if i == j { Fe::one() } else { Fe::zero() };
            assert_eq!(l.evaluate(&d.element(j)), want);
        }
    }
}

#[test]
fn first_lagrange_closed_form() {
    let d = Domain::new(8);
    let l0 = compute_lagrange_poly(&d, 0);
    for z in [f(2), f(12345), f(3).neg()] {
        let zh = z.pow(8).sub(&Fe::one());
        let closed = compute_first_lagrange_evaluation(8, zh, z).unwrap();
        assert_eq!(closed, l0.evaluate(&z));
    }
    assert!(compute_first_lagrange_evaluation(8, Fe::zero(), Fe::one()).is_none());
    assert!(compute_first_lagrange_evaluation(0, Fe::one(), f(2)).is_none());
}

#[test]
fn linear_combination_is_a_power_sum() {
    let vs = [f(3), f(1), f(4), f(1), f(5)];
    let c = f(10);
    assert_eq!(lc(&vs, c), Some(f(51413)));
    let c = f(987654321);
    let mut expected = Fe::zero();
    for (i, v) in vs.iter().enumerate() {
        expected = expected.add(&v.mul(&c.pow(i as u64)));
    }
    assert_eq!(lc(&vs, c), Some(expected));
    assert_eq!(lc(&vs, Fe::zero()), None);
    assert_eq!(lc(&vs, Fe::one()), None);
    assert_eq!(lc(&[], f(5)), None);
    assert_eq!(lc(&[f(9)], f(5)), Some(f(9)));
}

#[test]
fn powers() {
    assert_eq!(powers_of(f(3), 5), vec![f(1), f(3), f(9), f(27), f(81)]);
    assert_eq!(powers_of(f(3), 0), Vec::<Fe>::new());
}

#[test]
fn polynomial_arithmetic() {
    let p = poly(&[1, 2, 3]);
    let q = poly(&[4, 5]);
    assert_eq!(p.add(&q).coeffs, poly(&[5, 7, 3]).coeffs);
    assert_eq!(p.scale(&f(2)).coeffs, poly(&[2, 4, 6]).coeffs);
    assert!(p.scale(&Fe::zero()).coeffs.is_empty());
    let minus = poly(&[0, 0, 3]).scale(&Fe::one().neg());
    assert_eq!(p.add(&minus).coeffs, poly(&[1, 2]).coeffs);
    assert_eq!(p.evaluate(&f(2)), f(17));
    assert_eq!(poly(&[1, 0, 0]).coeffs.len(), 1);
}

#[test]
fn coset_misses_the_domain() {
    let d = Domain::new(16);
    for j in 0..16 {
        let point = f(7).mul(&d.element(j));
        assert_ne!(point.pow(16), Fe::one());
        assert_eq!(d.element(j).pow(16), Fe::one());
    }
}
