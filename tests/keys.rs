use plonk_core::arithmetic;
use plonk_core::evaluations::{LookupEvaluations, ProofEvaluations, WireEvaluations};
use plonk_core::field::Fe;
use plonk_core::plookup;
use plonk_core::poly::Poly;
use plonk_core::util::lc;

fn f(v: u64) -> Fe {
    Fe::from_u64(v)
}

fn poly(cs: &[u64]) -> Poly {
    Poly::from_coefficients_vec(cs.iter().map(|&c| f(c)).collect())
}

fn evaluations() -> ProofEvaluations {
    ProofEvaluations {
        wire_evals: WireEvaluations { a: f(2), b: f(3), c: f(5) },
        lookup_evals: LookupEvaluations {
            f: f(7),
            t: f(11),
            t_next: f(13),
            t4: f(17),
            h1_next: f(19),
            h2: f(23),
            z2_next: f(29),
        },
    }
}

#[test]
fn arithmetic_linearisation() {
    let pk = arithmetic::ProverKey { q_m: poly(&[1]), q_l: poly(&[0, 1]), q_r: poly(&[2]), q_o: poly(&[1, 1]), q_c: poly(&[3]) };
    let w = WireEvaluations { a: f(2), b: f(3), c: f(5) };
    // 1·6 + x·2 + 2·3 + (1 + x)·5 + 3 = 20 + 7x
    assert_eq!(pk.compute_linearisation(&w).coeffs, poly(&[20, 7]).coeffs);
}

#[test]
fn arithmetic_quotient_term() {
    let ek = arithmetic::ExtendedProverKey {
        q_m_coset: vec![f(1), f(0)],
        q_l_coset: vec![f(0), f(1)],
        q_r_coset: vec![f(0), f(1)],
        q_o_coset: vec![f(0), Fe::one().neg()],
        q_c_coset: vec![f(0), f(0)],
    };
    assert_eq!(ek.compute_quotient_i(0, f(2), f(3), f(5), f(1)), f(7));
    assert_eq!(ek.compute_quotient_i(1, f(2), f(3), f(5), f(0)), f(0));
}

#[test]
fn arithmetic_verifier_terms() {
    let vk = arithmetic::VerifierKey { q_m: 10u32, q_l: 11, q_r: 12, q_o: 13, q_c: 14 };
    let mut scalars = vec![f(99)];
    let mut points = vec![1u32];
    vk.compute_linearisation_commitment(&mut scalars, &mut points, &evaluations());
    assert_eq!(scalars, vec![f(99), f(6), f(2), f(3), f(5), f(1)]);
    assert_eq!(points, vec![1, 10, 11, 12, 13, 14]);
}

fn lookup_scalars(alpha: Fe, delta: Fe, epsilon: Fe, zeta: Fe, l1: Fe) -> (Fe, Fe, Fe) {
    let e = evaluations();
    let (w, l) = (e.wire_evals, e.lookup_evals);
    let a2 = alpha.mul(&alpha);
    let a4 = a2.mul(&a2);
    let opd = delta.add(&Fe::one());
    let eod = epsilon.mul(&opd);
    let comb = lc(&[w.a, w.b, w.c, l.t4], zeta).unwrap();
    let s1 = a2.mul(&alpha).mul(&comb.sub(&l.f));
    let s2 = a4.mul(&opd).mul(&epsilon.add(&l.f)).mul(&delta.mul(&l.t_next).add(&eod).add(&l.t))
        .add(&l1.mul(&a4).mul(&alpha));
    let s3 = a4.neg().mul(&l.z2_next).mul(&delta.mul(&l.h1_next).add(&eod).add(&l.h2));
    (s1, s2, s3)
}

#[test]
fn lookup_prover_and_verifier_agree() {
    let (alpha, delta, epsilon, zeta, l1) = (f(2), f(3), f(4), f(5), f(6));
    let e = evaluations();
    let (s1, s2, s3) = lookup_scalars(alpha, delta, epsilon, zeta, l1);
    // lc(2, 3, 5, 17; 5) = 2 + 15 + 125 + 2125 = 2267; α^3 · (2267 - 7) = 18080
    assert_eq!(s1, f(18080));
    let pk = plookup::ProverKey { q_lookup: poly(&[1, 1]) };
    let z2 = poly(&[0, 0, 1]);
    let h1 = poly(&[1]);
    let lin = pk.compute_linearisation(alpha, delta, epsilon, zeta, l1, &e.wire_evals, &e.lookup_evals, &z2, &h1);
    assert_eq!(lin.coeffs, vec![s1.add(&s3), s1, s2]);

    let vk = plookup::VerifierKey { q_lookup: 1u8, t1: 2, t2: 3, t3: 4, t4: 5 };
    let mut scalars = Vec::new();
    let mut points = Vec::new();
    vk.compute_linearisation_commitment(&mut scalars, &mut points, &e, alpha, delta, epsilon, zeta, l1, 20, 30);
    assert_eq!(scalars, vec![s1, s2, s3]);
    assert_eq!(points, vec![1, 20, 30]);
}

#[test]
fn lookup_quotient_term() {
    let (alpha, delta, epsilon, zeta) = (f(2), f(3), f(4), f(5));
    let ek = plookup::ExtendedProverKey {
        q_lookup: vec![f(1)],
        q_lookup_coset: vec![f(1)],
        t4: poly(&[17]),
        t4_coset: vec![f(17)],
    };
    let (a, b, c) = (f(2), f(3), f(5));
    let (fi, t, tn, h1, h1n, h2, z2, z2n, l1) = (f(7), f(11), f(13), f(31), f(19), f(23), f(1), f(29), f(6));
    let got = ek.compute_quotient_i(0, alpha, delta, epsilon, zeta, a, b, c, fi, t, tn, h1, h1n, h2, z2, z2n, l1);
    let a2 = alpha.mul(&alpha);
    let a4 = a2.mul(&a2);
    let opd = delta.add(&Fe::one());
    let eod = epsilon.mul(&opd);
    let comb = lc(&[a, b, c, f(17)], zeta).unwrap();
    let part_1 = a2.mul(&alpha).mul(&comb.sub(&fi));
    let part_2 = a4.mul(&opd).mul(&epsilon.add(&fi)).mul(&delta.mul(&tn).add(&eod).add(&t)).mul(&z2);
    let part_3 = a4.neg().mul(&z2n).mul(&delta.mul(&h2).add(&eod).add(&h1)).mul(&delta.mul(&h1n).add(&h2).add(&eod));
    // z2 = 1, so the fourth part vanishes
    assert_eq!(got, part_1.add(&part_2).add(&part_3));
    assert_ne!(got, part_1.add(&part_2));
}
