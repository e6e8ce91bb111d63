use ark_ec::{AffineRepr, CurveGroup};
use ark_ff::{Field, One, Zero};
use ark_serialize::{CanonicalDeserialize, CanonicalSerialize};
use curve_bridge::scalar::encode_limbs;
use curve_bridge::Error;

fn ser<T: CanonicalSerialize>(t: &T) -> Vec<u8> {
    let mut out = Vec::new();
    t.serialize_uncompressed(&mut out).unwrap();
    out
}

#[test]
fn ed377_mul_by_one_round_trips_the_point() {
    let g = ser(&ark_ed_on_bls12_377::EdwardsAffine::generator());
    let one = encode_limbs(&vec![1]);
    assert_eq!(
        curve_bridge::ed_on_bls12_377::mul_projective(g.clone(), one.clone()).unwrap(),
        g
    );
    assert_eq!(curve_bridge::ed_on_bls12_377::mul_affine(g.clone(), one).unwrap(), g);
}

#[test]
fn ed377_mul_by_zero_gives_identity() {
    let g = ser(&ark_ed_on_bls12_377::EdwardsAffine::generator());
    let zero = encode_limbs(&vec![0, 0]);
    assert_eq!(
        curve_bridge::ed_on_bls12_377::mul_projective(g, zero).unwrap(),
        ser(&ark_ed_on_bls12_377::EdwardsProjective::zero())
    );
}

#[test]
fn ed377_msm_empty_gives_identity_and_single_matches_mul() {
    assert_eq!(
        curve_bridge::ed_on_bls12_377::msm(vec![], vec![]).unwrap(),
        ser(&ark_ed_on_bls12_377::EdwardsProjective::zero())
    );
    let g = ser(&ark_ed_on_bls12_377::EdwardsAffine::generator());
    let s9 = ser(&ark_ed_on_bls12_377::Fr::from(9u64));
    assert_eq!(
        curve_bridge::ed_on_bls12_377::msm(vec![g.clone()], vec![s9]).unwrap(),
        curve_bridge::ed_on_bls12_377::mul_affine(g, encode_limbs(&vec![9])).unwrap()
    );
}

#[test]
fn ed377_rejects_bad_lengths() {
    let one = encode_limbs(&vec![1]);
    assert_eq!(
        curve_bridge::ed_on_bls12_377::mul_affine(vec![0u8; 63], one),
        Err(Error::BadLength)
    );
    let g = ser(&ark_ed_on_bls12_377::EdwardsAffine::generator());
    assert_eq!(
        curve_bridge::ed_on_bls12_377::msm(vec![g], vec![vec![0u8; 31]]),
        Err(Error::BadLength)
    );
}

#[test]
fn jubjub_te_mul_round_trips_and_identity() {
    let g = ser(&ark_ed_on_bls12_381::EdwardsAffine::generator());
    let one = encode_limbs(&vec![1]);
    assert_eq!(
        curve_bridge::ed_on_bls12_381::te_mul_projective(g.clone(), one.clone()).unwrap(),
        g
    );
    assert_eq!(
        curve_bridge::ed_on_bls12_381::te_mul_affine(g.clone(), one).unwrap(),
        g
    );
    let zero = encode_limbs(&vec![]);
    assert_eq!(
        curve_bridge::ed_on_bls12_381::te_mul_affine(g, zero).unwrap(),
        ser(&ark_ed_on_bls12_381::EdwardsProjective::zero())
    );
}

#[test]
fn jubjub_sw_mul_round_trips_and_identity() {
    let g = ser(&ark_ed_on_bls12_381::SWAffine::generator());
    assert_eq!(g.len(), 65);
    let one = encode_limbs(&vec![1]);
    assert_eq!(
        curve_bridge::ed_on_bls12_381::sw_mul_projective(g.clone(), one.clone()).unwrap(),
        g
    );
    assert_eq!(
        curve_bridge::ed_on_bls12_381::sw_mul_affine(g.clone(), one).unwrap(),
        g
    );
    let zero = encode_limbs(&vec![0]);
    assert_eq!(
        curve_bridge::ed_on_bls12_381::sw_mul_affine(g, zero).unwrap(),
        ser(&ark_ed_on_bls12_381::SWProjective::zero())
    );
}

#[test]
fn jubjub_msm_empty_and_single() {
    assert_eq!(
        curve_bridge::ed_on_bls12_381::te_msm(vec![], vec![]).unwrap(),
        ser(&ark_ed_on_bls12_381::EdwardsProjective::zero())
    );
    assert_eq!(
        curve_bridge::ed_on_bls12_381::sw_msm(vec![], vec![]).unwrap(),
        ser(&ark_ed_on_bls12_381::SWProjective::zero())
    );
    let gt = ser(&ark_ed_on_bls12_381::EdwardsAffine::generator());
    let gs = ser(&ark_ed_on_bls12_381::SWAffine::generator());
    let s4 = ser(&ark_ed_on_bls12_381::Fr::from(4u64));
    assert_eq!(
        curve_bridge::ed_on_bls12_381::te_msm(vec![gt.clone()], vec![s4.clone()]).unwrap(),
        curve_bridge::ed_on_bls12_381::te_mul_affine(gt, encode_limbs(&vec![4])).unwrap()
    );
    assert_eq!(
        curve_bridge::ed_on_bls12_381::sw_msm(vec![gs.clone()], vec![s4]).unwrap(),
        curve_bridge::ed_on_bls12_381::sw_mul_affine(gs, encode_limbs(&vec![4])).unwrap()
    );
}

#[test]
fn jubjub_sw_rejects_te_width_buffer() {
    // The short Weierstrass codec of this family is 65 bytes wide: the
    // two flag bits do not fit beside a 255-bit modulus.
    let one = encode_limbs(&vec![1]);
    assert_eq!(
        curve_bridge::ed_on_bls12_381::sw_mul_affine(vec![0u8; 64], one.clone()),
        Err(Error::BadLength)
    );
    assert_eq!(
        curve_bridge::ed_on_bls12_381::te_mul_affine(vec![0u8; 65], one),
        Err(Error::BadLength)
    );
}

/// Evaluates one group isomorphism from the twisted Edwards model to the
/// short Weierstrass model of the same group: twisted Edwards to
/// Montgomery to short Weierstrass, with the Montgomery constants the
/// curve parameters document.
fn te_to_sw(p: ark_ed_on_bls12_381::EdwardsAffine) -> ark_ed_on_bls12_381::SWAffine {
    type Fq = ark_ed_on_bls12_381::Fq;
    let a_m = Fq::from(40962u64);
    let b_m = -Fq::from(40964u64);
    let one = Fq::one();
    let three = Fq::from(3u64);
    let (x, y) = (p.x, p.y);
    let u = (one + y) / (one - y);
    let v = u / x;
    let xs = u / b_m + a_m / (three * b_m);
    let ys = v / b_m;
    ark_ed_on_bls12_381::SWAffine::new_unchecked(xs, ys)
}

#[test]
fn jubjub_models_agree_through_the_isomorphism() {
    // Multiply the twisted Edwards generator by k in the twisted Edwards
    // model, and its image by k in the short Weierstrass model: the two
    // results must be the same logical group element.
    let k: u64 = 11;
    let g_te = ark_ed_on_bls12_381::EdwardsAffine::generator();
    let g_sw = te_to_sw(g_te);

    // Sanity: the image lies on the short Weierstrass curve.
    let a = <ark_ed_on_bls12_381::JubjubConfig as ark_ec::short_weierstrass::SWCurveConfig>::COEFF_A;
    let b = <ark_ed_on_bls12_381::JubjubConfig as ark_ec::short_weierstrass::SWCurveConfig>::COEFF_B;
    assert_eq!(g_sw.y.square(), g_sw.x * g_sw.x.square() + a * g_sw.x + b);

    let te_out = curve_bridge::ed_on_bls12_381::te_mul_affine(
        ser(&g_te),
        encode_limbs(&vec![k]),
    )
    .unwrap();
    let sw_out = curve_bridge::ed_on_bls12_381::sw_mul_affine(
        ser(&g_sw),
        encode_limbs(&vec![k]),
    )
    .unwrap();

    let te_pt = ark_ed_on_bls12_381::EdwardsProjective::deserialize_uncompressed_unchecked(
        te_out.as_slice(),
    )
    .unwrap()
    .into_affine();
    let sw_pt = ark_ed_on_bls12_381::SWProjective::deserialize_uncompressed_unchecked(
        sw_out.as_slice(),
    )
    .unwrap()
    .into_affine();
    assert_eq!(te_to_sw(te_pt), sw_pt);
}
