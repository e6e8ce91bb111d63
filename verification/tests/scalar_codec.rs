use curve_bridge::scalar::{decode_limbs, encode_limbs};
use curve_bridge::Error;

#[test]
fn limb_codec_round_trip() {
    let cases: Vec<Vec<u64>> = vec![
        vec![],
        vec![0],
        vec![1],
        vec![0xdead_beef_0123_4567, 42, u64::MAX],
    ];
    for limbs in cases {
        let blob = encode_limbs(&limbs);
        assert_eq!(blob.len(), 8 + 8 * limbs.len());
        let back = decode_limbs(&blob).unwrap();
        assert_eq!(back, limbs);
    }
}

#[test]
fn limb_codec_exact_bytes() {
    let blob = encode_limbs(&vec![1, 2]);
    let mut expected = vec![2u8, 0, 0, 0, 0, 0, 0, 0];
    expected.extend_from_slice(&[1, 0, 0, 0, 0, 0, 0, 0]);
    expected.extend_from_slice(&[2, 0, 0, 0, 0, 0, 0, 0]);
    assert_eq!(blob, expected);
}

#[test]
fn limb_codec_empty_sequence() {
    let blob = encode_limbs(&vec![]);
    assert_eq!(blob, vec![0u8; 8]);
    assert_eq!(decode_limbs(&blob).unwrap(), Vec::<u64>::new());
}

#[test]
fn limb_decode_rejects_short_buffer() {
    assert_eq!(decode_limbs(&vec![]), Err(Error::BadLength));
    assert_eq!(decode_limbs(&vec![0u8; 7]), Err(Error::BadLength));
}

#[test]
fn limb_decode_rejects_wrong_count() {
    // Declares two limbs but carries one.
    let mut blob = vec![2u8, 0, 0, 0, 0, 0, 0, 0];
    blob.extend_from_slice(&[0u8; 8]);
    assert_eq!(decode_limbs(&blob), Err(Error::BadLength));
    // Declares zero limbs but carries trailing bytes.
    let mut blob = vec![0u8; 8];
    blob.push(0);
    assert_eq!(decode_limbs(&blob), Err(Error::BadLength));
}
