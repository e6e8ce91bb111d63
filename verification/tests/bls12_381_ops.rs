use ark_bls12_381::{Bls12_381, Fq12, Fr, G1Affine, G1Projective, G2Affine, G2Projective};
use ark_ec::pairing::Pairing;
use ark_ec::AffineRepr;
use ark_ff::{One, Zero};
use ark_serialize::CanonicalSerialize;
use curve_bridge::bls12_381::{
    final_exponentiation, msm_g1, msm_g2, mul_affine_g1, mul_affine_g2, mul_projective_g1,
    mul_projective_g2, multi_miller_loop,
};
use curve_bridge::scalar::encode_limbs;
use curve_bridge::Error;

fn ser<T: CanonicalSerialize>(t: &T) -> Vec<u8> {
    let mut out = Vec::new();
    t.serialize_uncompressed(&mut out).unwrap();
    out
}

fn g1_gen() -> Vec<u8> {
    ser(&G1Affine::generator())
}

fn g2_gen() -> Vec<u8> {
    ser(&G2Affine::generator())
}

#[test]
fn bls_mul_by_one_round_trips_the_point() {
    let one = encode_limbs(&vec![1]);
    assert_eq!(mul_projective_g1(g1_gen(), one.clone()).unwrap(), g1_gen());
    assert_eq!(mul_affine_g1(g1_gen(), one.clone()).unwrap(), g1_gen());
    assert_eq!(mul_projective_g2(g2_gen(), one.clone()).unwrap(), g2_gen());
    assert_eq!(mul_affine_g2(g2_gen(), one).unwrap(), g2_gen());
}

#[test]
fn bls_mul_by_zero_gives_identity() {
    let zero = encode_limbs(&vec![0]);
    let id1 = ser(&G1Projective::zero());
    let id2 = ser(&G2Projective::zero());
    assert_eq!(mul_projective_g1(g1_gen(), zero.clone()).unwrap(), id1);
    assert_eq!(mul_affine_g1(g1_gen(), zero.clone()).unwrap(), id1);
    assert_eq!(mul_projective_g2(g2_gen(), zero.clone()).unwrap(), id2);
    assert_eq!(mul_affine_g2(g2_gen(), zero).unwrap(), id2);
}

#[test]
fn bls_mul_by_two_moves_the_point() {
    let two = encode_limbs(&vec![2]);
    let out = mul_affine_g1(g1_gen(), two).unwrap();
    assert_ne!(out, g1_gen());
    assert_eq!(out, ser(&(G1Affine::generator() * Fr::from(2u64))));
}

#[test]
fn bls_mul_rejects_bad_point_length() {
    let one = encode_limbs(&vec![1]);
    assert_eq!(mul_projective_g1(vec![0u8; 95], one.clone()), Err(Error::BadLength));
    assert_eq!(mul_affine_g1(vec![0u8; 97], one.clone()), Err(Error::BadLength));
    assert_eq!(mul_projective_g2(vec![0u8; 191], one.clone()), Err(Error::BadLength));
    assert_eq!(mul_affine_g2(vec![], one), Err(Error::BadLength));
}

#[test]
fn bls_mul_rejects_bad_scalar_blob() {
    assert_eq!(mul_projective_g1(g1_gen(), vec![0u8; 7]), Err(Error::BadLength));
    let mut blob = vec![2u8, 0, 0, 0, 0, 0, 0, 0];
    blob.extend_from_slice(&[0u8; 8]);
    assert_eq!(mul_affine_g1(g1_gen(), blob), Err(Error::BadLength));
}

#[test]
fn bls_mul_rejects_out_of_range_coordinate() {
    let one = encode_limbs(&vec![1]);
    assert_eq!(mul_affine_g1(vec![0xffu8; 96], one), Err(Error::BadFieldElement));
}

#[test]
fn bls_msm_empty_gives_identity() {
    assert_eq!(msm_g1(vec![], vec![]).unwrap(), ser(&G1Projective::zero()));
    assert_eq!(msm_g2(vec![], vec![]).unwrap(), ser(&G2Projective::zero()));
}

#[test]
fn bls_msm_matches_scalar_mul() {
    let s5 = ser(&Fr::from(5u64));
    assert_eq!(
        msm_g1(vec![g1_gen()], vec![s5.clone()]).unwrap(),
        mul_affine_g1(g1_gen(), encode_limbs(&vec![5])).unwrap()
    );
    assert_eq!(
        msm_g2(vec![g2_gen()], vec![s5]).unwrap(),
        mul_affine_g2(g2_gen(), encode_limbs(&vec![5])).unwrap()
    );
}

#[test]
fn bls_msm_adds_scalar_multiples() {
    let s2 = ser(&Fr::from(2u64));
    let s3 = ser(&Fr::from(3u64));
    assert_eq!(
        msm_g1(vec![g1_gen(), g1_gen()], vec![s2, s3]).unwrap(),
        mul_affine_g1(g1_gen(), encode_limbs(&vec![5])).unwrap()
    );
}

#[test]
fn bls_msm_rejects_mismatch_and_bad_lengths() {
    let s2 = ser(&Fr::from(2u64));
    assert_eq!(msm_g1(vec![g1_gen()], vec![]), Err(Error::LengthMismatch));
    assert_eq!(msm_g1(vec![vec![0u8; 95]], vec![s2.clone()]), Err(Error::BadLength));
    assert_eq!(msm_g1(vec![g1_gen()], vec![vec![0u8; 31]]), Err(Error::BadLength));
    assert_eq!(msm_g2(vec![g2_gen()], vec![vec![0u8; 33]]), Err(Error::BadLength));
}

#[test]
fn bls_miller_loop_empty_gives_one() {
    assert_eq!(multi_miller_loop(vec![], vec![]).unwrap(), ser(&Fq12::one()));
}

#[test]
fn bls_miller_loop_rejects_mismatch_and_short_points() {
    assert_eq!(multi_miller_loop(vec![g1_gen()], vec![]), Err(Error::LengthMismatch));
    assert_eq!(
        multi_miller_loop(vec![vec![0u8; 10]], vec![g2_gen()]),
        Err(Error::BadLength)
    );
    assert_eq!(
        multi_miller_loop(vec![g1_gen()], vec![vec![0u8; 191]]),
        Err(Error::BadLength)
    );
}

#[test]
fn bls_pairing_of_generators_matches_engine() {
    let m = multi_miller_loop(vec![g1_gen()], vec![g2_gen()]).unwrap();
    let e = final_exponentiation(m).unwrap();
    let expected = Bls12_381::pairing(G1Affine::generator(), G2Affine::generator()).0;
    assert_eq!(e, ser(&expected));
}

#[test]
fn bls_pairing_is_bilinear() {
    let p2 = mul_affine_g1(g1_gen(), encode_limbs(&vec![2])).unwrap();
    let q3 = mul_affine_g2(g2_gen(), encode_limbs(&vec![3])).unwrap();
    let q6 = mul_affine_g2(g2_gen(), encode_limbs(&vec![6])).unwrap();
    let lhs = final_exponentiation(multi_miller_loop(vec![p2], vec![q3]).unwrap()).unwrap();
    let rhs = final_exponentiation(multi_miller_loop(vec![g1_gen()], vec![q6]).unwrap()).unwrap();
    assert_eq!(lhs, rhs);
}

#[test]
fn bls_final_exponentiation_rejects_bad_length() {
    assert_eq!(final_exponentiation(vec![0u8; 575]), Err(Error::BadLength));
}

#[test]
fn bls_final_exponentiation_of_zero_reports_engine_error() {
    // 576 zero bytes decode to the zero element of the target field,
    // the one value on which the engine's final exponentiation fails.
    assert_eq!(ser(&Fq12::zero()), vec![0u8; 576]);
    assert_eq!(final_exponentiation(vec![0u8; 576]), Err(Error::Engine));
}

#[test]
fn bls_sequence_entries_reject_out_of_range_elements() {
    let s2 = ser(&Fr::from(2u64));
    assert_eq!(
        multi_miller_loop(vec![vec![0xffu8; 96]], vec![g2_gen()]),
        Err(Error::BadFieldElement)
    );
    assert_eq!(
        msm_g1(vec![vec![0xffu8; 96]], vec![s2.clone()]),
        Err(Error::BadFieldElement)
    );
    assert_eq!(
        msm_g1(vec![g1_gen()], vec![vec![0xffu8; 32]]),
        Err(Error::BadFieldElement)
    );
}
