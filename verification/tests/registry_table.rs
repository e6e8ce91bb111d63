use curve_bridge::registry::{
    point_encoded_len, scalar_encoded_len, supports_pairing, target_encoded_len, CurveFamily,
    CurveModel, GroupId, PointRepr,
};

#[test]
fn point_widths_match_field_layout() {
    let sw = CurveModel::ShortWeierstrass;
    let te = CurveModel::TwistedEdwards;
    for repr in [PointRepr::Affine, PointRepr::Projective] {
        assert_eq!(point_encoded_len(CurveFamily::Bls12_381, GroupId::G1, sw, repr), Some(96));
        assert_eq!(point_encoded_len(CurveFamily::Bls12_381, GroupId::G2, sw, repr), Some(192));
        assert_eq!(point_encoded_len(CurveFamily::Bw6_761, GroupId::G1, sw, repr), Some(192));
        assert_eq!(point_encoded_len(CurveFamily::Bw6_761, GroupId::G2, sw, repr), Some(192));
        assert_eq!(
            point_encoded_len(CurveFamily::EdOnBls12_377, GroupId::G1, te, repr),
            Some(64)
        );
        assert_eq!(
            point_encoded_len(CurveFamily::EdOnBls12_381, GroupId::G1, te, repr),
            Some(64)
        );
        assert_eq!(
            point_encoded_len(CurveFamily::EdOnBls12_381, GroupId::G1, sw, repr),
            Some(65)
        );
    }
}

#[test]
fn unsupported_combinations_have_no_width() {
    let sw = CurveModel::ShortWeierstrass;
    let te = CurveModel::TwistedEdwards;
    let affine = PointRepr::Affine;
    assert_eq!(point_encoded_len(CurveFamily::Bls12_381, GroupId::G1, te, affine), None);
    assert_eq!(point_encoded_len(CurveFamily::Bw6_761, GroupId::G2, te, affine), None);
    assert_eq!(point_encoded_len(CurveFamily::EdOnBls12_377, GroupId::G2, te, affine), None);
    assert_eq!(point_encoded_len(CurveFamily::EdOnBls12_377, GroupId::G1, sw, affine), None);
    assert_eq!(point_encoded_len(CurveFamily::EdOnBls12_381, GroupId::G2, te, affine), None);
    assert_eq!(point_encoded_len(CurveFamily::EdOnBls12_381, GroupId::G2, sw, affine), None);
}

#[test]
fn scalar_and_target_widths() {
    assert_eq!(scalar_encoded_len(CurveFamily::Bls12_381), 32);
    assert_eq!(scalar_encoded_len(CurveFamily::Bw6_761), 48);
    assert_eq!(scalar_encoded_len(CurveFamily::EdOnBls12_377), 32);
    assert_eq!(scalar_encoded_len(CurveFamily::EdOnBls12_381), 32);
    assert_eq!(target_encoded_len(CurveFamily::Bls12_381), Some(576));
    assert_eq!(target_encoded_len(CurveFamily::Bw6_761), Some(576));
    assert_eq!(target_encoded_len(CurveFamily::EdOnBls12_377), None);
    assert_eq!(target_encoded_len(CurveFamily::EdOnBls12_381), None);
    assert!(supports_pairing(CurveFamily::Bls12_381));
    assert!(supports_pairing(CurveFamily::Bw6_761));
    assert!(!supports_pairing(CurveFamily::EdOnBls12_377));
    assert!(!supports_pairing(CurveFamily::EdOnBls12_381));
}
