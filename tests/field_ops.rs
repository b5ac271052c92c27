use plonk_core::field::Fe;

#[test]
fn add_wraps_around_the_modulus() {
    let minus_one = Fe::one().neg();
    assert_eq!(minus_one.add(&Fe::one()), Fe::zero());
    assert_eq!(minus_one.add(&Fe::from_u64(5)), Fe::from_u64(4));
}

#[test]
fn mul_and_inverse() {
    let a = Fe::from_u64(12345);
    let inv = a.inverse().unwrap();
    assert_eq!(a.mul(&inv), Fe::one());
    assert!(Fe::zero().inverse().is_none());
    assert_eq!(Fe::from_u64(6).mul(&Fe::from_u64(7)), Fe::from_u64(42));
}

#[test]
fn sub_neg_square_pow() {
    assert_eq!(Fe::from_u64(3).sub(&Fe::from_u64(5)), Fe::from_u64(2).neg());
    assert_eq!(Fe::from_u64(9).square(), Fe::from_u64(81));
    assert_eq!(Fe::from_u64(2).pow(10), Fe::from_u64(1024));
    assert_eq!(Fe::from_u64(2).pow(0), Fe::one());
    assert!(Fe::zero().is_zero());
    assert!(!Fe::one().is_zero());
}

#[test]
fn limbs_round_trip_and_reduce() {
    let x = Fe::from_u64(7).neg();
    assert_eq!(Fe::from_limbs(x.to_limbs()), x);
    assert_eq!(Fe::from_u64(9).to_limbs(), [9, 0, 0, 0]);
    let modulus = [0xffffffff00000001, 0x53bda402fffe5bfe, 0x3339d80809a1d805, 0x73eda753299d7d48];
    assert_eq!(Fe::from_limbs(modulus), Fe::zero());
    assert_eq!(Fe::from_limbs([5, 1, 0, 0]), Fe::from_u64(1 << 32).square().add(&Fe::from_u64(5)));
    assert_eq!(x.to_limbs()[0], 0xffffffff00000001 - 7);
}
