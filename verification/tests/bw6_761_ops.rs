use ark_bw6_761::{Fr, G1Affine, G1Projective, G2Affine, G2Projective, BW6_761};
use ark_ec::pairing::Pairing;
use ark_ec::AffineRepr;
use ark_ff::{One, Zero};
use ark_serialize::CanonicalSerialize;
use curve_bridge::bw6_761::{
    final_exponentiation, msm_g1, msm_g2, mul_affine_g1, mul_affine_g2, mul_projective_g1,
    mul_projective_g2, multi_miller_loop,
};
use curve_bridge::scalar::encode_limbs;
use curve_bridge::Error;

fn ser<T: CanonicalSerialize>(t: &T) -> Vec<u8> {
    let mut out = Vec::new();
    t.serialize_uncompressed(&mut out).unwrap();
    out
}

fn g1_gen() -> Vec<u8> {
    ser(&G1Affine::generator())
}

fn g2_gen() -> Vec<u8> {
    ser(&G2Affine::generator())
}

#[test]
fn bw6_mul_by_one_round_trips_the_point() {
    let one = encode_limbs(&vec![1]);
    assert_eq!(mul_projective_g1(g1_gen(), one.clone()).unwrap(), g1_gen());
    assert_eq!(mul_affine_g1(g1_gen(), one.clone()).unwrap(), g1_gen());
    assert_eq!(mul_projective_g2(g2_gen(), one.clone()).unwrap(), g2_gen());
    assert_eq!(mul_affine_g2(g2_gen(), one).unwrap(), g2_gen());
}

#[test]
fn bw6_mul_by_zero_gives_identity() {
    let zero = encode_limbs(&vec![]);
    assert_eq!(
        mul_projective_g1(g1_gen(), zero.clone()).unwrap(),
        ser(&G1Projective::zero())
    );
    assert_eq!(
        mul_projective_g2(g2_gen(), zero).unwrap(),
        ser(&G2Projective::zero())
    );
}

#[test]
fn bw6_mul_rejects_bad_point_length() {
    let one = encode_limbs(&vec![1]);
    assert_eq!(mul_projective_g1(vec![0u8; 96], one.clone()), Err(Error::BadLength));
    assert_eq!(mul_affine_g2(vec![0u8; 191], one), Err(Error::BadLength));
}

#[test]
fn bw6_msm_empty_gives_identity() {
    assert_eq!(msm_g1(vec![], vec![]).unwrap(), ser(&G1Projective::zero()));
    assert_eq!(msm_g2(vec![], vec![]).unwrap(), ser(&G2Projective::zero()));
}

#[test]
fn bw6_msm_matches_scalar_mul() {
    let s7 = ser(&Fr::from(7u64));
    assert_eq!(
        msm_g1(vec![g1_gen()], vec![s7.clone()]).unwrap(),
        mul_affine_g1(g1_gen(), encode_limbs(&vec![7])).unwrap()
    );
    assert_eq!(
        msm_g2(vec![g2_gen()], vec![s7]).unwrap(),
        mul_affine_g2(g2_gen(), encode_limbs(&vec![7])).unwrap()
    );
}

#[test]
fn bw6_msm_rejects_mismatch_and_bad_scalar_width() {
    assert_eq!(msm_g1(vec![], vec![vec![0u8; 48]]), Err(Error::LengthMismatch));
    // The scalar field of this family is 48 bytes wide, not 32.
    assert_eq!(msm_g1(vec![g1_gen()], vec![vec![0u8; 32]]), Err(Error::BadLength));
}

#[test]
fn bw6_miller_loop_empty_gives_one() {
    assert_eq!(
        multi_miller_loop(vec![], vec![]).unwrap(),
        ser(&<BW6_761 as Pairing>::TargetField::one())
    );
}

#[test]
fn bw6_pairing_of_generators_matches_engine() {
    let m = multi_miller_loop(vec![g1_gen()], vec![g2_gen()]).unwrap();
    let e = final_exponentiation(m).unwrap();
    let expected = BW6_761::pairing(G1Affine::generator(), G2Affine::generator()).0;
    assert_eq!(e, ser(&expected));
}

#[test]
fn bw6_final_exponentiation_rejects_bad_length() {
    assert_eq!(final_exponentiation(vec![0u8; 100]), Err(Error::BadLength));
}

#[test]
fn bw6_final_exponentiation_of_zero_reports_engine_error() {
    // The engine's final exponentiation on this family inverts its input
    // unconditionally; the dispatcher must catch the zero element first.
    assert_eq!(
        ser(&<BW6_761 as Pairing>::TargetField::zero()),
        vec![0u8; 576]
    );
    assert_eq!(final_exponentiation(vec![0u8; 576]), Err(Error::Engine));
}

#[test]
fn bw6_msm_rejects_out_of_range_scalar() {
    assert_eq!(
        msm_g1(vec![g1_gen()], vec![vec![0xffu8; 48]]),
        Err(Error::BadFieldElement)
    );
}
