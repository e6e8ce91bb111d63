//! Entry points for the BW6-761 family: Miller loop and final
//! exponentiation, scalar multiplication and multi-scalar multiplication
//! on G1 and G2, all over raw byte buffers.

use vstd::prelude::*;
use crate::Error;
use crate::registry::{
    BW6_761_G1_LEN, BW6_761_G2_LEN, BW6_761_SCALAR_LEN, BW6_761_TARGET_LEN,
};
use crate::scalar::{all_zero_limbs, decode_limbs, limb_blob_wf, limbs_of};

verus! {

/// Carries an engine value of `ark_bw6_761::G1Affine`; opaque here.
#[verifier::external_body]
pub struct G1AffinePoint {
    inner: ark_bw6_761::G1Affine,
}

/// Carries an engine value of `ark_bw6_761::G1Projective`; opaque here.
#[verifier::external_body]
pub struct G1ProjectivePoint {
    inner: ark_bw6_761::G1Projective,
}

/// Carries an engine value of `ark_bw6_761::G2Affine`; opaque here.
#[verifier::external_body]
pub struct G2AffinePoint {
    inner: ark_bw6_761::G2Affine,
}

/// Carries an engine value of `ark_bw6_761::G2Projective`; opaque here.
#[verifier::external_body]
pub struct G2ProjectivePoint {
    inner: ark_bw6_761::G2Projective,
}

/// Carries an engine value of `ark_bw6_761::Fr`; opaque here.
#[verifier::external_body]
pub struct ScalarElement {
    inner: ark_bw6_761::Fr,
}

/// Carries an engine value of `ark_bw6_761::Fq6`; opaque here.
#[verifier::external_body]
pub struct TargetElement {
    inner: ark_bw6_761::Fq6,
}

/// The canonical uncompressed encoding of an affine G1 point.
pub uninterp spec fn ser_g1_affine(p: G1AffinePoint) -> Seq<u8>;

/// The canonical uncompressed encoding of a projective G1 point.
pub uninterp spec fn ser_g1_projective(p: G1ProjectivePoint) -> Seq<u8>;

/// What deserializing an affine G1 point from a fixed-width buffer
/// returns: a point, or nothing when a coordinate is out of range.
pub uninterp spec fn parse_of_g1_affine(b: Seq<u8>) -> Option<G1AffinePoint>;

/// What deserializing a projective G1 point returns.
pub uninterp spec fn parse_of_g1_projective(b: Seq<u8>) -> Option<G1ProjectivePoint>;

/// What the engine's projective G1 scalar multiplication returns.
pub uninterp spec fn spec_g1_mul_projective(p: G1ProjectivePoint, limbs: Seq<u64>) -> G1ProjectivePoint;

/// What the engine's affine G1 scalar multiplication returns.
pub uninterp spec fn spec_g1_mul_affine(p: G1AffinePoint, limbs: Seq<u64>) -> G1ProjectivePoint;

/// What the engine's G1 multi-scalar multiplication returns.
pub uninterp spec fn spec_g1_msm(ps: Seq<G1AffinePoint>, ss: Seq<ScalarElement>) -> G1ProjectivePoint;

/// The G1 group identity: the value of an empty multi-scalar
/// multiplication.
pub open spec fn g1_identity() -> G1ProjectivePoint {
    spec_g1_msm(Seq::empty(), Seq::empty())
}

/// Whether `b` is the canonical encoding of the affine point `p`.
pub open spec fn g1_affine_canon(b: Seq<u8>, p: G1AffinePoint) -> bool {
    b.len() == BW6_761_G1_LEN && b == ser_g1_affine(p)
}

/// Whether `b` is the canonical encoding of the projective point `p`.
pub open spec fn g1_projective_canon(b: Seq<u8>, p: G1ProjectivePoint) -> bool {
    b.len() == BW6_761_G1_LEN && b == ser_g1_projective(p)
}

/// Whether `ps` matches the byte buffers `bs` element by element.
pub open spec fn g1_affine_seq_canon(bs: Seq<Vec<u8>>, ps: Seq<G1AffinePoint>) -> bool {
    &&& ps.len() == bs.len()
    &&& forall|i: int| 0 <= i < bs.len() ==> g1_affine_canon(#[trigger] bs[i]@, ps[i])
}

/// Whether every buffer of `bs` has the fixed width and deserializes to
/// the matching element of `ps`.
pub open spec fn g1_affine_seq_parsed(bs: Seq<Vec<u8>>, ps: Seq<G1AffinePoint>) -> bool {
    &&& ps.len() == bs.len()
    &&& forall|i: int| 0 <= i < bs.len() ==> #[trigger] bs[i]@.len() == BW6_761_G1_LEN
    &&& forall|i: int| 0 <= i < bs.len() ==> parse_of_g1_affine(#[trigger] bs[i]@) == Some(ps[i])
}

/// The canonical uncompressed encoding of an affine G2 point.
pub uninterp spec fn ser_g2_affine(p: G2AffinePoint) -> Seq<u8>;

/// The canonical uncompressed encoding of a projective G2 point.
pub uninterp spec fn ser_g2_projective(p: G2ProjectivePoint) -> Seq<u8>;

/// What deserializing an affine G2 point from a fixed-width buffer
/// returns: a point, or nothing when a coordinate is out of range.
pub uninterp spec fn parse_of_g2_affine(b: Seq<u8>) -> Option<G2AffinePoint>;

/// What deserializing a projective G2 point returns.
pub uninterp spec fn parse_of_g2_projective(b: Seq<u8>) -> Option<G2ProjectivePoint>;

/// What the engine's projective G2 scalar multiplication returns.
pub uninterp spec fn spec_g2_mul_projective(p: G2ProjectivePoint, limbs: Seq<u64>) -> G2ProjectivePoint;

/// What the engine's affine G2 scalar multiplication returns.
pub uninterp spec fn spec_g2_mul_affine(p: G2AffinePoint, limbs: Seq<u64>) -> G2ProjectivePoint;

/// What the engine's G2 multi-scalar multiplication returns.
pub uninterp spec fn spec_g2_msm(ps: Seq<G2AffinePoint>, ss: Seq<ScalarElement>) -> G2ProjectivePoint;

/// The G2 group identity: the value of an empty multi-scalar
/// multiplication.
pub open spec fn g2_identity() -> G2ProjectivePoint {
    spec_g2_msm(Seq::empty(), Seq::empty())
}

/// Whether `b` is the canonical encoding of the affine point `p`.
pub open spec fn g2_affine_canon(b: Seq<u8>, p: G2AffinePoint) -> bool {
    b.len() == BW6_761_G2_LEN && b == ser_g2_affine(p)
}

/// Whether `b` is the canonical encoding of the projective point `p`.
pub open spec fn g2_projective_canon(b: Seq<u8>, p: G2ProjectivePoint) -> bool {
    b.len() == BW6_761_G2_LEN && b == ser_g2_projective(p)
}

/// Whether `ps` matches the byte buffers `bs` element by element.
pub open spec fn g2_affine_seq_canon(bs: Seq<Vec<u8>>, ps: Seq<G2AffinePoint>) -> bool {
    &&& ps.len() == bs.len()
    &&& forall|i: int| 0 <= i < bs.len() ==> g2_affine_canon(#[trigger] bs[i]@, ps[i])
}

/// Whether every buffer of `bs` has the fixed width and deserializes to
/// the matching element of `ps`.
pub open spec fn g2_affine_seq_parsed(bs: Seq<Vec<u8>>, ps: Seq<G2AffinePoint>) -> bool {
    &&& ps.len() == bs.len()
    &&& forall|i: int| 0 <= i < bs.len() ==> #[trigger] bs[i]@.len() == BW6_761_G2_LEN
    &&& forall|i: int| 0 <= i < bs.len() ==> parse_of_g2_affine(#[trigger] bs[i]@) == Some(ps[i])
}

/// The canonical encoding of a scalar-field element.
pub uninterp spec fn ser_scalar(s: ScalarElement) -> Seq<u8>;

/// What deserializing a scalar-field element from a fixed-width buffer
/// returns: an element, or nothing when the value is out of range.
pub uninterp spec fn parse_of_scalar(b: Seq<u8>) -> Option<ScalarElement>;

/// Whether `b` is the canonical encoding of the scalar `s`.
pub open spec fn scalar_canon(b: Seq<u8>, s: ScalarElement) -> bool {
    b.len() == BW6_761_SCALAR_LEN && b == ser_scalar(s)
}

/// Whether `ss` matches the byte buffers `bs` element by element.
pub open spec fn scalar_seq_canon(bs: Seq<Vec<u8>>, ss: Seq<ScalarElement>) -> bool {
    &&& ss.len() == bs.len()
    &&& forall|i: int| 0 <= i < bs.len() ==> scalar_canon(#[trigger] bs[i]@, ss[i])
}

/// Whether every buffer of `bs` has the fixed width and deserializes to
/// the matching element of `ss`.
pub open spec fn scalar_seq_parsed(bs: Seq<Vec<u8>>, ss: Seq<ScalarElement>) -> bool {
    &&& ss.len() == bs.len()
    &&& forall|i: int| 0 <= i < bs.len() ==> #[trigger] bs[i]@.len() == BW6_761_SCALAR_LEN
    &&& forall|i: int| 0 <= i < bs.len() ==> parse_of_scalar(#[trigger] bs[i]@) == Some(ss[i])
}

/// The canonical uncompressed encoding of a pairing-target element.
pub uninterp spec fn ser_target(f: TargetElement) -> Seq<u8>;

/// What deserializing a target-field element returns.
pub uninterp spec fn parse_of_target(b: Seq<u8>) -> Option<TargetElement>;

/// Whether a target-field element is the field's zero, the one value on
/// which the engine's final exponentiation is undefined.
pub uninterp spec fn target_is_zero(f: TargetElement) -> bool;

/// What the engine's multi Miller loop returns.
pub uninterp spec fn miller(ps: Seq<G1AffinePoint>, qs: Seq<G2AffinePoint>) -> TargetElement;

/// What the engine's final exponentiation returns on an invertible input.
pub uninterp spec fn final_exp(f: TargetElement) -> TargetElement;

/// The multiplicative identity of the pairing target field: the value of
/// a Miller loop over empty sequences.
pub open spec fn target_identity() -> TargetElement {
    miller(Seq::empty(), Seq::empty())
}

/// Whether `b` is the canonical encoding of the target element `f`.
pub open spec fn target_canon(b: Seq<u8>, f: TargetElement) -> bool {
    b.len() == BW6_761_TARGET_LEN && b == ser_target(f)
}

/// Relies on `Affine::<g1::Config>::deserialize_with_mode` (uncompressed, unchecked):
/// a pure function of the buffer, and deserializing the canonical
/// encoding of a value gives that value back.
#[verifier::external_body]
fn parse_g1_affine(b: &Vec<u8>) -> (r: Option<G1AffinePoint>)
    requires
        b@.len() == BW6_761_G1_LEN,
    ensures
        r == parse_of_g1_affine(b@),
        forall|p: G1AffinePoint| b@ == ser_g1_affine(p) ==> r == Some(p),
{
    match <ark_bw6_761::G1Affine as ark_serialize::CanonicalDeserialize>::deserialize_with_mode(
        b.as_slice(),
        ark_serialize::Compress::No,
        ark_serialize::Validate::No,
    ) {
        Ok(p) => Some(G1AffinePoint { inner: p }),
        Err(_) => None,
    }
}

/// Relies on `Projective::<g1::Config>::deserialize_with_mode` (uncompressed, unchecked):
/// a pure function of the buffer, and deserializing the canonical
/// encoding of a value gives that value back.
#[verifier::external_body]
fn parse_g1_projective(b: &Vec<u8>) -> (r: Option<G1ProjectivePoint>)
    requires
        b@.len() == BW6_761_G1_LEN,
    ensures
        r == parse_of_g1_projective(b@),
        forall|p: G1ProjectivePoint| b@ == ser_g1_projective(p) ==> r == Some(p),
{
    match <ark_bw6_761::G1Projective as ark_serialize::CanonicalDeserialize>::deserialize_with_mode(
        b.as_slice(),
        ark_serialize::Compress::No,
        ark_serialize::Validate::No,
    ) {
        Ok(p) => Some(G1ProjectivePoint { inner: p }),
        Err(_) => None,
    }
}

/// Relies on `Affine::<g2::Config>::deserialize_with_mode` (uncompressed, unchecked):
/// a pure function of the buffer, and deserializing the canonical
/// encoding of a value gives that value back.
#[verifier::external_body]
fn parse_g2_affine(b: &Vec<u8>) -> (r: Option<G2AffinePoint>)
    requires
        b@.len() == BW6_761_G2_LEN,
    ensures
        r == parse_of_g2_affine(b@),
        forall|p: G2AffinePoint| b@ == ser_g2_affine(p) ==> r == Some(p),
{
    match <ark_bw6_761::G2Affine as ark_serialize::CanonicalDeserialize>::deserialize_with_mode(
        b.as_slice(),
        ark_serialize::Compress::No,
        ark_serialize::Validate::No,
    ) {
        Ok(p) => Some(G2AffinePoint { inner: p }),
        Err(_) => None,
    }
}

/// Relies on `Projective::<g2::Config>::deserialize_with_mode` (uncompressed, unchecked):
/// a pure function of the buffer, and deserializing the canonical
/// encoding of a value gives that value back.
#[verifier::external_body]
fn parse_g2_projective(b: &Vec<u8>) -> (r: Option<G2ProjectivePoint>)
    requires
        b@.len() == BW6_761_G2_LEN,
    ensures
        r == parse_of_g2_projective(b@),
        forall|p: G2ProjectivePoint| b@ == ser_g2_projective(p) ==> r == Some(p),
{
    match <ark_bw6_761::G2Projective as ark_serialize::CanonicalDeserialize>::deserialize_with_mode(
        b.as_slice(),
        ark_serialize::Compress::No,
        ark_serialize::Validate::No,
    ) {
        Ok(p) => Some(G2ProjectivePoint { inner: p }),
        Err(_) => None,
    }
}

/// Relies on `Fp::deserialize_with_mode` (uncompressed, unchecked):
/// a pure function of the buffer, and deserializing the canonical
/// encoding of a value gives that value back.
#[verifier::external_body]
fn parse_scalar(b: &Vec<u8>) -> (r: Option<ScalarElement>)
    requires
        b@.len() == BW6_761_SCALAR_LEN,
    ensures
        r == parse_of_scalar(b@),
        forall|p: ScalarElement| b@ == ser_scalar(p) ==> r == Some(p),
{
    match <ark_bw6_761::Fr as ark_serialize::CanonicalDeserialize>::deserialize_with_mode(
        b.as_slice(),
        ark_serialize::Compress::No,
        ark_serialize::Validate::No,
    ) {
        Ok(p) => Some(ScalarElement { inner: p }),
        Err(_) => None,
    }
}

/// Relies on `QuadExtField::deserialize_with_mode` (uncompressed, unchecked):
/// a pure function of the buffer, and deserializing the canonical
/// encoding of a value gives that value back.
#[verifier::external_body]
fn parse_target(b: &Vec<u8>) -> (r: Option<TargetElement>)
    requires
        b@.len() == BW6_761_TARGET_LEN,
    ensures
        r == parse_of_target(b@),
        forall|p: TargetElement| b@ == ser_target(p) ==> r == Some(p),
{
    match <ark_bw6_761::Fq6 as ark_serialize::CanonicalDeserialize>::deserialize_with_mode(
        b.as_slice(),
        ark_serialize::Compress::No,
        ark_serialize::Validate::No,
    ) {
        Ok(p) => Some(TargetElement { inner: p }),
        Err(_) => None,
    }
}

/// Relies on `ark_bw6_761::G1Projective`'s `serialize_with_mode` (uncompressed): the output
/// is the canonical fixed-width encoding and writing to a byte vector
/// cannot fail.
#[verifier::external_body]
fn encode_g1_projective(p: &G1ProjectivePoint) -> (r: Vec<u8>)
    ensures
        r@ == ser_g1_projective(*p),
        r@.len() == BW6_761_G1_LEN,
{
    let mut out: Vec<u8> = Vec::new();
    <ark_bw6_761::G1Projective as ark_serialize::CanonicalSerialize>::serialize_with_mode(
        &p.inner,
        &mut out,
        ark_serialize::Compress::No,
    ).unwrap();
    out
}

/// Relies on `ark_bw6_761::G2Projective`'s `serialize_with_mode` (uncompressed): the output
/// is the canonical fixed-width encoding and writing to a byte vector
/// cannot fail.
#[verifier::external_body]
fn encode_g2_projective(p: &G2ProjectivePoint) -> (r: Vec<u8>)
    ensures
        r@ == ser_g2_projective(*p),
        r@.len() == BW6_761_G2_LEN,
{
    let mut out: Vec<u8> = Vec::new();
    <ark_bw6_761::G2Projective as ark_serialize::CanonicalSerialize>::serialize_with_mode(
        &p.inner,
        &mut out,
        ark_serialize::Compress::No,
    ).unwrap();
    out
}

/// Relies on `ark_bw6_761::Fq6`'s `serialize_with_mode` (uncompressed): the output
/// is the canonical fixed-width encoding and writing to a byte vector
/// cannot fail.
#[verifier::external_body]
fn encode_target(p: &TargetElement) -> (r: Vec<u8>)
    ensures
        r@ == ser_target(*p),
        r@.len() == BW6_761_TARGET_LEN,
{
    let mut out: Vec<u8> = Vec::new();
    <ark_bw6_761::Fq6 as ark_serialize::CanonicalSerialize>::serialize_with_mode(
        &p.inner,
        &mut out,
        ark_serialize::Compress::No,
    ).unwrap();
    out
}

/// Relies on `Group::mul_bigint`: double-and-add over the limb bits, a
/// pure function of point and limbs; with no limb bit set it returns the
/// group identity, the same value an empty multi-scalar multiplication
/// sums to.
#[verifier::external_body]
fn engine_g1_mul_projective(p: &G1ProjectivePoint, limbs: &Vec<u64>) -> (r: G1ProjectivePoint)
    ensures
        r == spec_g1_mul_projective(*p, limbs@),
        all_zero_limbs(limbs@) ==> r == g1_identity(),
{
    G1ProjectivePoint { inner: ark_ec::Group::mul_bigint(&p.inner, limbs.as_slice()) }
}

/// Relies on `AffineRepr::mul_bigint`, as for the projective form.
#[verifier::external_body]
fn engine_g1_mul_affine(p: &G1AffinePoint, limbs: &Vec<u64>) -> (r: G1ProjectivePoint)
    ensures
        r == spec_g1_mul_affine(*p, limbs@),
        all_zero_limbs(limbs@) ==> r == g1_identity(),
{
    G1ProjectivePoint { inner: ark_ec::AffineRepr::mul_bigint(&p.inner, limbs.as_slice()) }
}

/// Relies on `Group::mul_bigint`: double-and-add over the limb bits, a
/// pure function of point and limbs; with no limb bit set it returns the
/// group identity, the same value an empty multi-scalar multiplication
/// sums to.
#[verifier::external_body]
fn engine_g2_mul_projective(p: &G2ProjectivePoint, limbs: &Vec<u64>) -> (r: G2ProjectivePoint)
    ensures
        r == spec_g2_mul_projective(*p, limbs@),
        all_zero_limbs(limbs@) ==> r == g2_identity(),
{
    G2ProjectivePoint { inner: ark_ec::Group::mul_bigint(&p.inner, limbs.as_slice()) }
}

/// Relies on `AffineRepr::mul_bigint`, as for the projective form.
#[verifier::external_body]
fn engine_g2_mul_affine(p: &G2AffinePoint, limbs: &Vec<u64>) -> (r: G2ProjectivePoint)
    ensures
        r == spec_g2_mul_affine(*p, limbs@),
        all_zero_limbs(limbs@) ==> r == g2_identity(),
{
    G2ProjectivePoint { inner: ark_ec::AffineRepr::mul_bigint(&p.inner, limbs.as_slice()) }
}

/// Relies on `VariableBaseMSM::msm`, which succeeds exactly on
/// equal-length slices and is a pure function of bases and scalars.
#[verifier::external_body]
fn engine_g1_msm(ps: &Vec<G1AffinePoint>, ss: &Vec<ScalarElement>) -> (r: G1ProjectivePoint)
    requires
        ps@.len() == ss@.len(),
    ensures
        r == spec_g1_msm(ps@, ss@),
{
    let bases: Vec<ark_bw6_761::G1Affine> = ps.iter().map(|x| x.inner).collect();
    let scs: Vec<ark_bw6_761::Fr> = ss.iter().map(|x| x.inner).collect();
    G1ProjectivePoint {
        inner: <ark_bw6_761::G1Projective as ark_ec::VariableBaseMSM>::msm(
            bases.as_slice(),
            scs.as_slice(),
        ).unwrap(),
    }
}

/// Relies on `VariableBaseMSM::msm`, which succeeds exactly on
/// equal-length slices and is a pure function of bases and scalars.
#[verifier::external_body]
fn engine_g2_msm(ps: &Vec<G2AffinePoint>, ss: &Vec<ScalarElement>) -> (r: G2ProjectivePoint)
    requires
        ps@.len() == ss@.len(),
    ensures
        r == spec_g2_msm(ps@, ss@),
{
    let bases: Vec<ark_bw6_761::G2Affine> = ps.iter().map(|x| x.inner).collect();
    let scs: Vec<ark_bw6_761::Fr> = ss.iter().map(|x| x.inner).collect();
    G2ProjectivePoint {
        inner: <ark_bw6_761::G2Projective as ark_ec::VariableBaseMSM>::msm(
            bases.as_slice(),
            scs.as_slice(),
        ).unwrap(),
    }
}

/// Relies on `BW6_761::multi_miller_loop` (each pair prepared with
/// `G1Prepared::from` / `G2Prepared::from`): a pure function of the two
/// point sequences, which it consumes pairwise in order; over empty
/// sequences the loop product is the multiplicative identity.
#[verifier::external_body]
fn engine_multi_miller_loop(ps: &Vec<G1AffinePoint>, qs: &Vec<G2AffinePoint>) -> (r: TargetElement)
    requires
        ps@.len() == qs@.len(),
    ensures
        r == miller(ps@, qs@),
{
    TargetElement {
        inner: <ark_bw6_761::BW6_761 as ark_ec::pairing::Pairing>::multi_miller_loop(
            ps.iter().map(|x| x.inner),
            qs.iter().map(|x| x.inner),
        ).0,
    }
}

/// Relies on `Zero::is_zero` on the target field: true exactly of the
/// field's zero element.
#[verifier::external_body]
fn engine_target_is_zero(f: &TargetElement) -> (r: bool)
    ensures
        r == target_is_zero(*f),
{
    ark_ff::Zero::is_zero(&f.inner)
}

/// Relies on `BW6_761::final_exponentiation`: a pure function of its
/// input, defined on every invertible input; it inverts its input
/// unconditionally, so the zero element, which `requires` excludes, would
/// abort it.
#[verifier::external_body]
fn engine_final_exponentiation(f: &TargetElement) -> (r: TargetElement)
    requires
        !target_is_zero(*f),
    ensures
        r == final_exp(*f),
{
    TargetElement {
        inner: <ark_bw6_761::BW6_761 as ark_ec::pairing::Pairing>::final_exponentiation(
            ark_ec::pairing::MillerLoopOutput(f.inner),
        ).unwrap().0,
    }
}

/// Computes the multi Miller loop over paired G1/G2 sequences.
///
/// Empty sequences are a defined edge case: the result encodes the
/// multiplicative identity of the target field.
pub fn multi_miller_loop(a_vec: Vec<Vec<u8>>, b_vec: Vec<Vec<u8>>) -> (r: Result<Vec<u8>, Error>)
    ensures
        ((exists|i: int| 0 <= i < a_vec@.len() && #[trigger] a_vec@[i]@.len() != BW6_761_G1_LEN) || (
        exists|i: int| 0 <= i < b_vec@.len() && #[trigger] b_vec@[i]@.len() != BW6_761_G2_LEN)) ==> r == Err::<
            Vec<u8>,
            Error,
        >(Error::BadLength),
        (forall|i: int| 0 <= i < a_vec@.len() ==> #[trigger] a_vec@[i]@.len() == BW6_761_G1_LEN) && (forall|
            i: int,
        | 0 <= i < b_vec@.len() ==> #[trigger] b_vec@[i]@.len() == BW6_761_G2_LEN) && ((exists|i: int|
            0 <= i < a_vec@.len() && parse_of_g1_affine(#[trigger] a_vec@[i]@) is None) || (exists|i: int|
            0 <= i < b_vec@.len() && parse_of_g2_affine(#[trigger] b_vec@[i]@) is None)) ==> r == Err::<
            Vec<u8>,
            Error,
        >(Error::BadFieldElement),
        (forall|i: int| 0 <= i < a_vec@.len() ==> #[trigger] a_vec@[i]@.len() == BW6_761_G1_LEN) && (forall|
            i: int,
        | 0 <= i < b_vec@.len() ==> #[trigger] b_vec@[i]@.len() == BW6_761_G2_LEN) && (forall|i: int|
            0 <= i < a_vec@.len() ==> parse_of_g1_affine(#[trigger] a_vec@[i]@) is Some) && (forall|i: int|
            0 <= i < b_vec@.len() ==> parse_of_g2_affine(#[trigger] b_vec@[i]@) is Some) && a_vec@.len()
            != b_vec@.len() ==> r == Err::<Vec<u8>, Error>(Error::LengthMismatch),
        forall|ps: Seq<G1AffinePoint>, qs: Seq<G2AffinePoint>|
            a_vec@.len() == b_vec@.len() && g1_affine_seq_parsed(a_vec@, ps) && g2_affine_seq_parsed(b_vec@, qs) ==> (
            r matches Ok(v) && v@ == ser_target(#[trigger] miller(ps, qs))),
        forall|ps: Seq<G1AffinePoint>, qs: Seq<G2AffinePoint>|
            a_vec@.len() == b_vec@.len() && g1_affine_seq_canon(a_vec@, ps) && g2_affine_seq_canon(b_vec@, qs) ==> (
            r matches Ok(v) && v@ == ser_target(#[trigger] miller(ps, qs))),
        a_vec@.len() == 0 && b_vec@.len() == 0 ==> (r matches Ok(v) && v@ == ser_target(
            target_identity(),
        )),
        r matches Ok(v) ==> v@.len() == BW6_761_TARGET_LEN,
{
    let n_a_vec = a_vec.len();
    let mut i_a_vec: usize = 0;
    while i_a_vec < n_a_vec
        invariant
            n_a_vec == a_vec@.len(),
            i_a_vec <= n_a_vec,
            forall|j: int| 0 <= j < i_a_vec ==> #[trigger] a_vec@[j]@.len() == BW6_761_G1_LEN,
        decreases n_a_vec - i_a_vec,
    {
        if a_vec[i_a_vec].len() != BW6_761_G1_LEN {
            return Err(Error::BadLength);
        }
        i_a_vec = i_a_vec + 1;
    }
    let n_b_vec = b_vec.len();
    let mut i_b_vec: usize = 0;
    while i_b_vec < n_b_vec
        invariant
            n_b_vec == b_vec@.len(),
            i_b_vec <= n_b_vec,
            forall|j: int| 0 <= j < a_vec@.len() ==> #[trigger] a_vec@[j]@.len() == BW6_761_G1_LEN,
            forall|j: int| 0 <= j < i_b_vec ==> #[trigger] b_vec@[j]@.len() == BW6_761_G2_LEN,
        decreases n_b_vec - i_b_vec,
    {
        if b_vec[i_b_vec].len() != BW6_761_G2_LEN {
            return Err(Error::BadLength);
        }
        i_b_vec = i_b_vec + 1;
    }
    let mut vals_a_vec: Vec<G1AffinePoint> = Vec::new();
    let mut k_a_vec: usize = 0;
    while k_a_vec < n_a_vec
        invariant
            n_a_vec == a_vec@.len(),
            k_a_vec <= n_a_vec,
            vals_a_vec@.len() == k_a_vec,
            forall|j: int| 0 <= j < b_vec@.len() ==> #[trigger] b_vec@[j]@.len() == BW6_761_G2_LEN,
            forall|j: int| 0 <= j < n_a_vec ==> #[trigger] a_vec@[j]@.len() == BW6_761_G1_LEN,
            forall|j: int, p: G1AffinePoint|
                #![trigger vals_a_vec@[j], ser_g1_affine(p)]
                0 <= j < k_a_vec && a_vec@[j]@ == ser_g1_affine(p) ==> vals_a_vec@[j] == p,
            forall|j: int|
                0 <= j < k_a_vec ==> parse_of_g1_affine(#[trigger] a_vec@[j]@) == Some(vals_a_vec@[j]),
        decreases n_a_vec - k_a_vec,
    {
        let pt = match parse_g1_affine(&a_vec[k_a_vec]) {
            Some(p) => p,
            None => {
                proof {
                    assert forall|ps: Seq<G1AffinePoint>, qs: Seq<G2AffinePoint>|
                        (g1_affine_seq_canon(a_vec@, ps) && g2_affine_seq_canon(b_vec@, qs)) || (
                        g1_affine_seq_parsed(a_vec@, ps) && g2_affine_seq_parsed(b_vec@, qs)) implies false by {
                        assert(g1_affine_canon(a_vec@[k_a_vec as int]@, ps[k_a_vec as int]) || parse_of_g1_affine(a_vec@[k_a_vec as int]@) == Some(ps[k_a_vec as int]));
                    }
                }
                return Err(Error::BadFieldElement);
            },
        };
        vals_a_vec.push(pt);
        k_a_vec = k_a_vec + 1;
    }
    let mut vals_b_vec: Vec<G2AffinePoint> = Vec::new();
    let mut k_b_vec: usize = 0;
    while k_b_vec < n_b_vec
        invariant
            n_b_vec == b_vec@.len(),
            k_b_vec <= n_b_vec,
            vals_b_vec@.len() == k_b_vec,
            forall|j: int| 0 <= j < a_vec@.len() ==> #[trigger] a_vec@[j]@.len() == BW6_761_G1_LEN,
            vals_a_vec@.len() == a_vec@.len(),
            forall|j: int, p: G1AffinePoint|
                #![trigger vals_a_vec@[j], ser_g1_affine(p)]
                0 <= j < vals_a_vec@.len() && a_vec@[j]@ == ser_g1_affine(p) ==> vals_a_vec@[j] == p,
            forall|j: int|
                0 <= j < vals_a_vec@.len() ==> parse_of_g1_affine(#[trigger] a_vec@[j]@) == Some(vals_a_vec@[j]),
            forall|j: int| 0 <= j < n_b_vec ==> #[trigger] b_vec@[j]@.len() == BW6_761_G2_LEN,
            forall|j: int, p: G2AffinePoint|
                #![trigger vals_b_vec@[j], ser_g2_affine(p)]
                0 <= j < k_b_vec && b_vec@[j]@ == ser_g2_affine(p) ==> vals_b_vec@[j] == p,
            forall|j: int|
                0 <= j < k_b_vec ==> parse_of_g2_affine(#[trigger] b_vec@[j]@) == Some(vals_b_vec@[j]),
        decreases n_b_vec - k_b_vec,
    {
        let pt = match parse_g2_affine(&b_vec[k_b_vec]) {
            Some(p) => p,
            None => {
                proof {
                    assert forall|ps: Seq<G1AffinePoint>, qs: Seq<G2AffinePoint>|
                        (g1_affine_seq_canon(a_vec@, ps) && g2_affine_seq_canon(b_vec@, qs)) || (
                        g1_affine_seq_parsed(a_vec@, ps) && g2_affine_seq_parsed(b_vec@, qs)) implies false by {
                        assert(g2_affine_canon(b_vec@[k_b_vec as int]@, qs[k_b_vec as int]) || parse_of_g2_affine(b_vec@[k_b_vec as int]@) == Some(qs[k_b_vec as int]));
                    }
                }
                return Err(Error::BadFieldElement);
            },
        };
        vals_b_vec.push(pt);
        k_b_vec = k_b_vec + 1;
    }
    if a_vec.len() != b_vec.len() {
        return Err(Error::LengthMismatch);
    }
    let out = engine_multi_miller_loop(&vals_a_vec, &vals_b_vec);
    proof {
        if a_vec@.len() == 0 {
            assert(vals_a_vec@ =~= Seq::<G1AffinePoint>::empty());
            assert(vals_b_vec@ =~= Seq::<G2AffinePoint>::empty());
        }
        assert forall|ps: Seq<G1AffinePoint>, qs: Seq<G2AffinePoint>|
            (g1_affine_seq_canon(a_vec@, ps) && g2_affine_seq_canon(b_vec@, qs)) || (g1_affine_seq_parsed(a_vec@, ps)
                && g2_affine_seq_parsed(b_vec@, qs)) implies vals_a_vec@ == ps && vals_b_vec@ == qs by {
            assert forall|j: int| 0 <= j < ps.len() implies vals_a_vec@[j] == ps[j] by {
                assert(g1_affine_canon(a_vec@[j]@, ps[j]) || parse_of_g1_affine(a_vec@[j]@) == Some(ps[j]));
            }
            assert forall|j: int| 0 <= j < qs.len() implies vals_b_vec@[j] == qs[j] by {
                assert(g2_affine_canon(b_vec@[j]@, qs[j]) || parse_of_g2_affine(b_vec@[j]@) == Some(qs[j]));
            }
            assert(vals_a_vec@ =~= ps);
            assert(vals_b_vec@ =~= qs);
        }
    }
    Ok(encode_target(&out))
}

/// Raises a Miller-loop output to the final-exponentiation power,
/// mapping it into the pairing target subgroup.
///
/// The zero element of the target field is not invertible; the
/// dispatcher rejects it with the engine error before invoking the
/// engine.
pub fn final_exponentiation(target: Vec<u8>) -> (r: Result<Vec<u8>, Error>)
    ensures
        target@.len() != BW6_761_TARGET_LEN ==> r == Err::<Vec<u8>, Error>(Error::BadLength),
        target@.len() == BW6_761_TARGET_LEN && parse_of_target(target@) is None ==> r == Err::<
            Vec<u8>,
            Error,
        >(Error::BadFieldElement),
        forall|f: TargetElement|
            target@.len() == BW6_761_TARGET_LEN && parse_of_target(target@) == Some(f)
                && #[trigger] target_is_zero(f) ==> r == Err::<Vec<u8>, Error>(Error::Engine),
        forall|f: TargetElement|
            target@.len() == BW6_761_TARGET_LEN && parse_of_target(target@) == Some(f) && !target_is_zero(f)
                ==> (r matches Ok(v) && v@ == ser_target(#[trigger] final_exp(f))),
        forall|f: TargetElement|
            #[trigger] target_canon(target@, f) && target_is_zero(f) ==> r == Err::<
                Vec<u8>,
                Error,
            >(Error::Engine),
        forall|f: TargetElement|
            #[trigger] target_canon(target@, f) && !target_is_zero(f) ==> (r matches Ok(v) && v@
                == ser_target(final_exp(f))),
        r matches Ok(v) ==> v@.len() == BW6_761_TARGET_LEN,
{
    if target.len() != BW6_761_TARGET_LEN {
        return Err(Error::BadLength);
    }
    let f = match parse_target(&target) {
        Some(f) => f,
        None => {
            return Err(Error::BadFieldElement);
        },
    };
    if engine_target_is_zero(&f) {
        return Err(Error::Engine);
    }
    let out = engine_final_exponentiation(&f);
    Ok(encode_target(&out))
}

/// Multiplies a projective G1 point by a raw limb scalar; the result is
/// returned in projective (normalized) encoding.
///
/// The scalar is a little-endian limb blob and is not reduced before
/// use; an all-zero scalar yields the group identity.
pub fn mul_projective_g1(base: Vec<u8>, scalar: Vec<u8>) -> (r: Result<Vec<u8>, Error>)
    ensures
        base@.len() != BW6_761_G1_LEN ==> r == Err::<Vec<u8>, Error>(Error::BadLength),
        base@.len() == BW6_761_G1_LEN && !limb_blob_wf(scalar@) ==> r == Err::<Vec<u8>, Error>(
            Error::BadLength,
        ),
        base@.len() == BW6_761_G1_LEN && limb_blob_wf(scalar@) && parse_of_g1_projective(base@) is None ==> r
            == Err::<Vec<u8>, Error>(Error::BadFieldElement),
        base@.len() == BW6_761_G1_LEN && limb_blob_wf(scalar@) ==> (parse_of_g1_projective(base@) matches Some(p)
            ==> (r matches Ok(v) && v@ == ser_g1_projective(spec_g1_mul_projective(p, limbs_of(scalar@))))),
        forall|p: G1ProjectivePoint|
            #[trigger] g1_projective_canon(base@, p) && limb_blob_wf(scalar@) ==> (r matches Ok(v)
                && v@ == ser_g1_projective(spec_g1_mul_projective(p, limbs_of(scalar@)))),
        forall|p: G1ProjectivePoint|
            #[trigger] g1_projective_canon(base@, p) && limb_blob_wf(scalar@) && all_zero_limbs(
                limbs_of(scalar@),
            ) ==> (r matches Ok(v) && v@ == ser_g1_projective(g1_identity())),
        r matches Ok(v) ==> v@.len() == BW6_761_G1_LEN,
{
    if base.len() != BW6_761_G1_LEN {
        return Err(Error::BadLength);
    }
    let limbs = match decode_limbs(&scalar) {
        Ok(l) => l,
        Err(e) => {
            return Err(e);
        },
    };
    let pt = match parse_g1_projective(&base) {
        Some(p) => p,
        None => {
            return Err(Error::BadFieldElement);
        },
    };
    let out = engine_g1_mul_projective(&pt, &limbs);
    Ok(encode_g1_projective(&out))
}

/// Multiplies a projective G2 point by a raw limb scalar; the result is
/// returned in projective (normalized) encoding.
///
/// The scalar is a little-endian limb blob and is not reduced before
/// use; an all-zero scalar yields the group identity.
pub fn mul_projective_g2(base: Vec<u8>, scalar: Vec<u8>) -> (r: Result<Vec<u8>, Error>)
    ensures
        base@.len() != BW6_761_G2_LEN ==> r == Err::<Vec<u8>, Error>(Error::BadLength),
        base@.len() == BW6_761_G2_LEN && !limb_blob_wf(scalar@) ==> r == Err::<Vec<u8>, Error>(
            Error::BadLength,
        ),
        base@.len() == BW6_761_G2_LEN && limb_blob_wf(scalar@) && parse_of_g2_projective(base@) is None ==> r
            == Err::<Vec<u8>, Error>(Error::BadFieldElement),
        base@.len() == BW6_761_G2_LEN && limb_blob_wf(scalar@) ==> (parse_of_g2_projective(base@) matches Some(p)
            ==> (r matches Ok(v) && v@ == ser_g2_projective(spec_g2_mul_projective(p, limbs_of(scalar@))))),
        forall|p: G2ProjectivePoint|
            #[trigger] g2_projective_canon(base@, p) && limb_blob_wf(scalar@) ==> (r matches Ok(v)
                && v@ == ser_g2_projective(spec_g2_mul_projective(p, limbs_of(scalar@)))),
        forall|p: G2ProjectivePoint|
            #[trigger] g2_projective_canon(base@, p) && limb_blob_wf(scalar@) && all_zero_limbs(
                limbs_of(scalar@),
            ) ==> (r matches Ok(v) && v@ == ser_g2_projective(g2_identity())),
        r matches Ok(v) ==> v@.len() == BW6_761_G2_LEN,
{
    if base.len() != BW6_761_G2_LEN {
        return Err(Error::BadLength);
    }
    let limbs = match decode_limbs(&scalar) {
        Ok(l) => l,
        Err(e) => {
            return Err(e);
        },
    };
    let pt = match parse_g2_projective(&base) {
        Some(p) => p,
        None => {
            return Err(Error::BadFieldElement);
        },
    };
    let out = engine_g2_mul_projective(&pt, &limbs);
    Ok(encode_g2_projective(&out))
}

/// Multiplies a affine G1 point by a raw limb scalar; the result is
/// returned in projective (normalized) encoding.
///
/// The scalar is a little-endian limb blob and is not reduced before
/// use; an all-zero scalar yields the group identity.
pub fn mul_affine_g1(base: Vec<u8>, scalar: Vec<u8>) -> (r: Result<Vec<u8>, Error>)
    ensures
        base@.len() != BW6_761_G1_LEN ==> r == Err::<Vec<u8>, Error>(Error::BadLength),
        base@.len() == BW6_761_G1_LEN && !limb_blob_wf(scalar@) ==> r == Err::<Vec<u8>, Error>(
            Error::BadLength,
        ),
        base@.len() == BW6_761_G1_LEN && limb_blob_wf(scalar@) && parse_of_g1_affine(base@) is None ==> r
            == Err::<Vec<u8>, Error>(Error::BadFieldElement),
        base@.len() == BW6_761_G1_LEN && limb_blob_wf(scalar@) ==> (parse_of_g1_affine(base@) matches Some(p)
            ==> (r matches Ok(v) && v@ == ser_g1_projective(spec_g1_mul_affine(p, limbs_of(scalar@))))),
        forall|p: G1AffinePoint|
            #[trigger] g1_affine_canon(base@, p) && limb_blob_wf(scalar@) ==> (r matches Ok(v)
                && v@ == ser_g1_projective(spec_g1_mul_affine(p, limbs_of(scalar@)))),
        forall|p: G1AffinePoint|
            #[trigger] g1_affine_canon(base@, p) && limb_blob_wf(scalar@) && all_zero_limbs(
                limbs_of(scalar@),
            ) ==> (r matches Ok(v) && v@ == ser_g1_projective(g1_identity())),
        r matches Ok(v) ==> v@.len() == BW6_761_G1_LEN,
{
    if base.len() != BW6_761_G1_LEN {
        return Err(Error::BadLength);
    }
    let limbs = match decode_limbs(&scalar) {
        Ok(l) => l,
        Err(e) => {
            return Err(e);
        },
    };
    let pt = match parse_g1_affine(&base) {
        Some(p) => p,
        None => {
            return Err(Error::BadFieldElement);
        },
    };
    let out = engine_g1_mul_affine(&pt, &limbs);
    Ok(encode_g1_projective(&out))
}

/// Multiplies a affine G2 point by a raw limb scalar; the result is
/// returned in projective (normalized) encoding.
///
/// The scalar is a little-endian limb blob and is not reduced before
/// use; an all-zero scalar yields the group identity.
pub fn mul_affine_g2(base: Vec<u8>, scalar: Vec<u8>) -> (r: Result<Vec<u8>, Error>)
    ensures
        base@.len() != BW6_761_G2_LEN ==> r == Err::<Vec<u8>, Error>(Error::BadLength),
        base@.len() == BW6_761_G2_LEN && !limb_blob_wf(scalar@) ==> r == Err::<Vec<u8>, Error>(
            Error::BadLength,
        ),
        base@.len() == BW6_761_G2_LEN && limb_blob_wf(scalar@) && parse_of_g2_affine(base@) is None ==> r
            == Err::<Vec<u8>, Error>(Error::BadFieldElement),
        base@.len() == BW6_761_G2_LEN && limb_blob_wf(scalar@) ==> (parse_of_g2_affine(base@) matches Some(p)
            ==> (r matches Ok(v) && v@ == ser_g2_projective(spec_g2_mul_affine(p, limbs_of(scalar@))))),
        forall|p: G2AffinePoint|
            #[trigger] g2_affine_canon(base@, p) && limb_blob_wf(scalar@) ==> (r matches Ok(v)
                && v@ == ser_g2_projective(spec_g2_mul_affine(p, limbs_of(scalar@)))),
        forall|p: G2AffinePoint|
            #[trigger] g2_affine_canon(base@, p) && limb_blob_wf(scalar@) && all_zero_limbs(
                limbs_of(scalar@),
            ) ==> (r matches Ok(v) && v@ == ser_g2_projective(g2_identity())),
        r matches Ok(v) ==> v@.len() == BW6_761_G2_LEN,
{
    if base.len() != BW6_761_G2_LEN {
        return Err(Error::BadLength);
    }
    let limbs = match decode_limbs(&scalar) {
        Ok(l) => l,
        Err(e) => {
            return Err(e);
        },
    };
    let pt = match parse_g2_affine(&base) {
        Some(p) => p,
        None => {
            return Err(Error::BadFieldElement);
        },
    };
    let out = engine_g2_mul_affine(&pt, &limbs);
    Ok(encode_g2_projective(&out))
}

/// Computes the multi-scalar multiplication `sum scalar_i * point_i`.
///
/// Empty input yields the group identity.
pub fn msm_g1(bases: Vec<Vec<u8>>, scalars: Vec<Vec<u8>>) -> (r: Result<Vec<u8>, Error>)
    ensures
        ((exists|i: int| 0 <= i < bases@.len() && #[trigger] bases@[i]@.len() != BW6_761_G1_LEN) || (
        exists|i: int| 0 <= i < scalars@.len() && #[trigger] scalars@[i]@.len() != BW6_761_SCALAR_LEN)) ==> r == Err::<
            Vec<u8>,
            Error,
        >(Error::BadLength),
        (forall|i: int| 0 <= i < bases@.len() ==> #[trigger] bases@[i]@.len() == BW6_761_G1_LEN) && (forall|
            i: int,
        | 0 <= i < scalars@.len() ==> #[trigger] scalars@[i]@.len() == BW6_761_SCALAR_LEN) && ((exists|i: int|
            0 <= i < bases@.len() && parse_of_g1_affine(#[trigger] bases@[i]@) is None) || (exists|i: int|
            0 <= i < scalars@.len() && parse_of_scalar(#[trigger] scalars@[i]@) is None)) ==> r == Err::<
            Vec<u8>,
            Error,
        >(Error::BadFieldElement),
        (forall|i: int| 0 <= i < bases@.len() ==> #[trigger] bases@[i]@.len() == BW6_761_G1_LEN) && (forall|
            i: int,
        | 0 <= i < scalars@.len() ==> #[trigger] scalars@[i]@.len() == BW6_761_SCALAR_LEN) && (forall|i: int|
            0 <= i < bases@.len() ==> parse_of_g1_affine(#[trigger] bases@[i]@) is Some) && (forall|i: int|
            0 <= i < scalars@.len() ==> parse_of_scalar(#[trigger] scalars@[i]@) is Some) && bases@.len()
            != scalars@.len() ==> r == Err::<Vec<u8>, Error>(Error::LengthMismatch),
        forall|ps: Seq<G1AffinePoint>, qs: Seq<ScalarElement>|
            bases@.len() == scalars@.len() && g1_affine_seq_parsed(bases@, ps) && scalar_seq_parsed(scalars@, qs) ==> (
            r matches Ok(v) && v@ == ser_g1_projective(#[trigger] spec_g1_msm(ps, qs))),
        forall|ps: Seq<G1AffinePoint>, qs: Seq<ScalarElement>|
            bases@.len() == scalars@.len() && g1_affine_seq_canon(bases@, ps) && scalar_seq_canon(scalars@, qs) ==> (
            r matches Ok(v) && v@ == ser_g1_projective(#[trigger] spec_g1_msm(ps, qs))),
        bases@.len() == 0 && scalars@.len() == 0 ==> (r matches Ok(v) && v@ == ser_g1_projective(
            g1_identity(),
        )),
        r matches Ok(v) ==> v@.len() == BW6_761_G1_LEN,
{
    let n_bases = bases.len();
    let mut i_bases: usize = 0;
    while i_bases < n_bases
        invariant
            n_bases == bases@.len(),
            i_bases <= n_bases,
            forall|j: int| 0 <= j < i_bases ==> #[trigger] bases@[j]@.len() == BW6_761_G1_LEN,
        decreases n_bases - i_bases,
    {
        if bases[i_bases].len() != BW6_761_G1_LEN {
            return Err(Error::BadLength);
        }
        i_bases = i_bases + 1;
    }
    let n_scalars = scalars.len();
    let mut i_scalars: usize = 0;
    while i_scalars < n_scalars
        invariant
            n_scalars == scalars@.len(),
            i_scalars <= n_scalars,
            forall|j: int| 0 <= j < bases@.len() ==> #[trigger] bases@[j]@.len() == BW6_761_G1_LEN,
            forall|j: int| 0 <= j < i_scalars ==> #[trigger] scalars@[j]@.len() == BW6_761_SCALAR_LEN,
        decreases n_scalars - i_scalars,
    {
        if scalars[i_scalars].len() != BW6_761_SCALAR_LEN {
            return Err(Error::BadLength);
        }
        i_scalars = i_scalars + 1;
    }
    let mut vals_bases: Vec<G1AffinePoint> = Vec::new();
    let mut k_bases: usize = 0;
    while k_bases < n_bases
        invariant
            n_bases == bases@.len(),
            k_bases <= n_bases,
            vals_bases@.len() == k_bases,
            forall|j: int| 0 <= j < scalars@.len() ==> #[trigger] scalars@[j]@.len() == BW6_761_SCALAR_LEN,
            forall|j: int| 0 <= j < n_bases ==> #[trigger] bases@[j]@.len() == BW6_761_G1_LEN,
            forall|j: int, p: G1AffinePoint|
                #![trigger vals_bases@[j], ser_g1_affine(p)]
                0 <= j < k_bases && bases@[j]@ == ser_g1_affine(p) ==> vals_bases@[j] == p,
            forall|j: int|
                0 <= j < k_bases ==> parse_of_g1_affine(#[trigger] bases@[j]@) == Some(vals_bases@[j]),
        decreases n_bases - k_bases,
    {
        let pt = match parse_g1_affine(&bases[k_bases]) {
            Some(p) => p,
            None => {
                proof {
                    assert forall|ps: Seq<G1AffinePoint>, qs: Seq<ScalarElement>|
                        (g1_affine_seq_canon(bases@, ps) && scalar_seq_canon(scalars@, qs)) || (
                        g1_affine_seq_parsed(bases@, ps) && scalar_seq_parsed(scalars@, qs)) implies false by {
                        assert(g1_affine_canon(bases@[k_bases as int]@, ps[k_bases as int]) || parse_of_g1_affine(bases@[k_bases as int]@) == Some(ps[k_bases as int]));
                    }
                }
                return Err(Error::BadFieldElement);
            },
        };
        vals_bases.push(pt);
        k_bases = k_bases + 1;
    }
    let mut vals_scalars: Vec<ScalarElement> = Vec::new();
    let mut k_scalars: usize = 0;
    while k_scalars < n_scalars
        invariant
            n_scalars == scalars@.len(),
            k_scalars <= n_scalars,
            vals_scalars@.len() == k_scalars,
            forall|j: int| 0 <= j < bases@.len() ==> #[trigger] bases@[j]@.len() == BW6_761_G1_LEN,
            vals_bases@.len() == bases@.len(),
            forall|j: int, p: G1AffinePoint|
                #![trigger vals_bases@[j], ser_g1_affine(p)]
                0 <= j < vals_bases@.len() && bases@[j]@ == ser_g1_affine(p) ==> vals_bases@[j] == p,
            forall|j: int|
                0 <= j < vals_bases@.len() ==> parse_of_g1_affine(#[trigger] bases@[j]@) == Some(vals_bases@[j]),
            forall|j: int| 0 <= j < n_scalars ==> #[trigger] scalars@[j]@.len() == BW6_761_SCALAR_LEN,
            forall|j: int, p: ScalarElement|
                #![trigger vals_scalars@[j], ser_scalar(p)]
                0 <= j < k_scalars && scalars@[j]@ == ser_scalar(p) ==> vals_scalars@[j] == p,
            forall|j: int|
                0 <= j < k_scalars ==> parse_of_scalar(#[trigger] scalars@[j]@) == Some(vals_scalars@[j]),
        decreases n_scalars - k_scalars,
    {
        let pt = match parse_scalar(&scalars[k_scalars]) {
            Some(p) => p,
            None => {
                proof {
                    assert forall|ps: Seq<G1AffinePoint>, qs: Seq<ScalarElement>|
                        (g1_affine_seq_canon(bases@, ps) && scalar_seq_canon(scalars@, qs)) || (
                        g1_affine_seq_parsed(bases@, ps) && scalar_seq_parsed(scalars@, qs)) implies false by {
                        assert(scalar_canon(scalars@[k_scalars as int]@, qs[k_scalars as int]) || parse_of_scalar(scalars@[k_scalars as int]@) == Some(qs[k_scalars as int]));
                    }
                }
                return Err(Error::BadFieldElement);
            },
        };
        vals_scalars.push(pt);
        k_scalars = k_scalars + 1;
    }
    if bases.len() != scalars.len() {
        return Err(Error::LengthMismatch);
    }
    let out = engine_g1_msm(&vals_bases, &vals_scalars);
    proof {
        if bases@.len() == 0 {
            assert(vals_bases@ =~= Seq::<G1AffinePoint>::empty());
            assert(vals_scalars@ =~= Seq::<ScalarElement>::empty());
        }
        assert forall|ps: Seq<G1AffinePoint>, qs: Seq<ScalarElement>|
            (g1_affine_seq_canon(bases@, ps) && scalar_seq_canon(scalars@, qs)) || (g1_affine_seq_parsed(bases@, ps)
                && scalar_seq_parsed(scalars@, qs)) implies vals_bases@ == ps && vals_scalars@ == qs by {
            assert forall|j: int| 0 <= j < ps.len() implies vals_bases@[j] == ps[j] by {
                assert(g1_affine_canon(bases@[j]@, ps[j]) || parse_of_g1_affine(bases@[j]@) == Some(ps[j]));
            }
            assert forall|j: int| 0 <= j < qs.len() implies vals_scalars@[j] == qs[j] by {
                assert(scalar_canon(scalars@[j]@, qs[j]) || parse_of_scalar(scalars@[j]@) == Some(qs[j]));
            }
            assert(vals_bases@ =~= ps);
            assert(vals_scalars@ =~= qs);
        }
    }
    Ok(encode_g1_projective(&out))
}

/// Computes the multi-scalar multiplication `sum scalar_i * point_i`.
///
/// Empty input yields the group identity.
pub fn msm_g2(bases: Vec<Vec<u8>>, scalars: Vec<Vec<u8>>) -> (r: Result<Vec<u8>, Error>)
    ensures
        ((exists|i: int| 0 <= i < bases@.len() && #[trigger] bases@[i]@.len() != BW6_761_G2_LEN) || (
        exists|i: int| 0 <= i < scalars@.len() && #[trigger] scalars@[i]@.len() != BW6_761_SCALAR_LEN)) ==> r == Err::<
            Vec<u8>,
            Error,
        >(Error::BadLength),
        (forall|i: int| 0 <= i < bases@.len() ==> #[trigger] bases@[i]@.len() == BW6_761_G2_LEN) && (forall|
            i: int,
        | 0 <= i < scalars@.len() ==> #[trigger] scalars@[i]@.len() == BW6_761_SCALAR_LEN) && ((exists|i: int|
            0 <= i < bases@.len() && parse_of_g2_affine(#[trigger] bases@[i]@) is None) || (exists|i: int|
            0 <= i < scalars@.len() && parse_of_scalar(#[trigger] scalars@[i]@) is None)) ==> r == Err::<
            Vec<u8>,
            Error,
        >(Error::BadFieldElement),
        (forall|i: int| 0 <= i < bases@.len() ==> #[trigger] bases@[i]@.len() == BW6_761_G2_LEN) && (forall|
            i: int,
        | 0 <= i < scalars@.len() ==> #[trigger] scalars@[i]@.len() == BW6_761_SCALAR_LEN) && (forall|i: int|
            0 <= i < bases@.len() ==> parse_of_g2_affine(#[trigger] bases@[i]@) is Some) && (forall|i: int|
            0 <= i < scalars@.len() ==> parse_of_scalar(#[trigger] scalars@[i]@) is Some) && bases@.len()
            != scalars@.len() ==> r == Err::<Vec<u8>, Error>(Error::LengthMismatch),
        forall|ps: Seq<G2AffinePoint>, qs: Seq<ScalarElement>|
            bases@.len() == scalars@.len() && g2_affine_seq_parsed(bases@, ps) && scalar_seq_parsed(scalars@, qs) ==> (
            r matches Ok(v) && v@ == ser_g2_projective(#[trigger] spec_g2_msm(ps, qs))),
        forall|ps: Seq<G2AffinePoint>, qs: Seq<ScalarElement>|
            bases@.len() == scalars@.len() && g2_affine_seq_canon(bases@, ps) && scalar_seq_canon(scalars@, qs) ==> (
            r matches Ok(v) && v@ == ser_g2_projective(#[trigger] spec_g2_msm(ps, qs))),
        bases@.len() == 0 && scalars@.len() == 0 ==> (r matches Ok(v) && v@ == ser_g2_projective(
            g2_identity(),
        )),
        r matches Ok(v) ==> v@.len() == BW6_761_G2_LEN,
{
    let n_bases = bases.len();
    let mut i_bases: usize = 0;
    while i_bases < n_bases
        invariant
            n_bases == bases@.len(),
            i_bases <= n_bases,
            forall|j: int| 0 <= j < i_bases ==> #[trigger] bases@[j]@.len() == BW6_761_G2_LEN,
        decreases n_bases - i_bases,
    {
        if bases[i_bases].len() != BW6_761_G2_LEN {
            return Err(Error::BadLength);
        }
        i_bases = i_bases + 1;
    }
    let n_scalars = scalars.len();
    let mut i_scalars: usize = 0;
    while i_scalars < n_scalars
        invariant
            n_scalars == scalars@.len(),
            i_scalars <= n_scalars,
            forall|j: int| 0 <= j < bases@.len() ==> #[trigger] bases@[j]@.len() == BW6_761_G2_LEN,
            forall|j: int| 0 <= j < i_scalars ==> #[trigger] scalars@[j]@.len() == BW6_761_SCALAR_LEN,
        decreases n_scalars - i_scalars,
    {
        if scalars[i_scalars].len() != BW6_761_SCALAR_LEN {
            return Err(Error::BadLength);
        }
        i_scalars = i_scalars + 1;
    }
    let mut vals_bases: Vec<G2AffinePoint> = Vec::new();
    let mut k_bases: usize = 0;
    while k_bases < n_bases
        invariant
            n_bases == bases@.len(),
            k_bases <= n_bases,
            vals_bases@.len() == k_bases,
            forall|j: int| 0 <= j < scalars@.len() ==> #[trigger] scalars@[j]@.len() == BW6_761_SCALAR_LEN,
            forall|j: int| 0 <= j < n_bases ==> #[trigger] bases@[j]@.len() == BW6_761_G2_LEN,
            forall|j: int, p: G2AffinePoint|
                #![trigger vals_bases@[j], ser_g2_affine(p)]
                0 <= j < k_bases && bases@[j]@ == ser_g2_affine(p) ==> vals_bases@[j] == p,
            forall|j: int|
                0 <= j < k_bases ==> parse_of_g2_affine(#[trigger] bases@[j]@) == Some(vals_bases@[j]),
        decreases n_bases - k_bases,
    {
        let pt = match parse_g2_affine(&bases[k_bases]) {
            Some(p) => p,
            None => {
                proof {
                    assert forall|ps: Seq<G2AffinePoint>, qs: Seq<ScalarElement>|
                        (g2_affine_seq_canon(bases@, ps) && scalar_seq_canon(scalars@, qs)) || (
                        g2_affine_seq_parsed(bases@, ps) && scalar_seq_parsed(scalars@, qs)) implies false by {
                        assert(g2_affine_canon(bases@[k_bases as int]@, ps[k_bases as int]) || parse_of_g2_affine(bases@[k_bases as int]@) == Some(ps[k_bases as int]));
                    }
                }
                return Err(Error::BadFieldElement);
            },
        };
        vals_bases.push(pt);
        k_bases = k_bases + 1;
    }
    let mut vals_scalars: Vec<ScalarElement> = Vec::new();
    let mut k_scalars: usize = 0;
    while k_scalars < n_scalars
        invariant
            n_scalars == scalars@.len(),
            k_scalars <= n_scalars,
            vals_scalars@.len() == k_scalars,
            forall|j: int| 0 <= j < bases@.len() ==> #[trigger] bases@[j]@.len() == BW6_761_G2_LEN,
            vals_bases@.len() == bases@.len(),
            forall|j: int, p: G2AffinePoint|
                #![trigger vals_bases@[j], ser_g2_affine(p)]
                0 <= j < vals_bases@.len() && bases@[j]@ == ser_g2_affine(p) ==> vals_bases@[j] == p,
            forall|j: int|
                0 <= j < vals_bases@.len() ==> parse_of_g2_affine(#[trigger] bases@[j]@) == Some(vals_bases@[j]),
            forall|j: int| 0 <= j < n_scalars ==> #[trigger] scalars@[j]@.len() == BW6_761_SCALAR_LEN,
            forall|j: int, p: ScalarElement|
                #![trigger vals_scalars@[j], ser_scalar(p)]
                0 <= j < k_scalars && scalars@[j]@ == ser_scalar(p) ==> vals_scalars@[j] == p,
            forall|j: int|
                0 <= j < k_scalars ==> parse_of_scalar(#[trigger] scalars@[j]@) == Some(vals_scalars@[j]),
        decreases n_scalars - k_scalars,
    {
        let pt = match parse_scalar(&scalars[k_scalars]) {
            Some(p) => p,
            None => {
                proof {
                    assert forall|ps: Seq<G2AffinePoint>, qs: Seq<ScalarElement>|
                        (g2_affine_seq_canon(bases@, ps) && scalar_seq_canon(scalars@, qs)) || (
                        g2_affine_seq_parsed(bases@, ps) && scalar_seq_parsed(scalars@, qs)) implies false by {
                        assert(scalar_canon(scalars@[k_scalars as int]@, qs[k_scalars as int]) || parse_of_scalar(scalars@[k_scalars as int]@) == Some(qs[k_scalars as int]));
                    }
                }
                return Err(Error::BadFieldElement);
            },
        };
        vals_scalars.push(pt);
        k_scalars = k_scalars + 1;
    }
    if bases.len() != scalars.len() {
        return Err(Error::LengthMismatch);
    }
    let out = engine_g2_msm(&vals_bases, &vals_scalars);
    proof {
        if bases@.len() == 0 {
            assert(vals_bases@ =~= Seq::<G2AffinePoint>::empty());
            assert(vals_scalars@ =~= Seq::<ScalarElement>::empty());
        }
        assert forall|ps: Seq<G2AffinePoint>, qs: Seq<ScalarElement>|
            (g2_affine_seq_canon(bases@, ps) && scalar_seq_canon(scalars@, qs)) || (g2_affine_seq_parsed(bases@, ps)
                && scalar_seq_parsed(scalars@, qs)) implies vals_bases@ == ps && vals_scalars@ == qs by {
            assert forall|j: int| 0 <= j < ps.len() implies vals_bases@[j] == ps[j] by {
                assert(g2_affine_canon(bases@[j]@, ps[j]) || parse_of_g2_affine(bases@[j]@) == Some(ps[j]));
            }
            assert forall|j: int| 0 <= j < qs.len() implies vals_scalars@[j] == qs[j] by {
                assert(scalar_canon(scalars@[j]@, qs[j]) || parse_of_scalar(scalars@[j]@) == Some(qs[j]));
            }
            assert(vals_bases@ =~= ps);
            assert(vals_scalars@ =~= qs);
        }
    }
    Ok(encode_g2_projective(&out))
}

} // verus!
