//! Entry points for the curve over the BLS12-381 scalar field, whose one
//! logical group is exposed through two independent models: short
//! Weierstrass and twisted Edwards, each with its own codec.

use vstd::prelude::*;
use crate::Error;
use crate::registry::{
    ED_ON_BLS12_381_SCALAR_LEN, ED_ON_BLS12_381_SW_LEN, ED_ON_BLS12_381_TE_LEN,
};
use crate::scalar::{all_zero_limbs, decode_limbs, limb_blob_wf, limbs_of};

verus! {

/// Carries an engine value of `ark_ed_on_bls12_381::EdwardsAffine`; opaque here.
#[verifier::external_body]
pub struct TeAffinePoint {
    inner: ark_ed_on_bls12_381::EdwardsAffine,
}

/// Carries an engine value of `ark_ed_on_bls12_381::EdwardsProjective`; opaque here.
#[verifier::external_body]
pub struct TeProjectivePoint {
    inner: ark_ed_on_bls12_381::EdwardsProjective,
}

/// Carries an engine value of `ark_ed_on_bls12_381::SWAffine`; opaque here.
#[verifier::external_body]
pub struct SwAffinePoint {
    inner: ark_ed_on_bls12_381::SWAffine,
}

/// Carries an engine value of `ark_ed_on_bls12_381::SWProjective`; opaque here.
#[verifier::external_body]
pub struct SwProjectivePoint {
    inner: ark_ed_on_bls12_381::SWProjective,
}

/// Carries an engine value of `ark_ed_on_bls12_381::Fr`; opaque here.
#[verifier::external_body]
pub struct ScalarElement {
    inner: ark_ed_on_bls12_381::Fr,
}

/// The canonical uncompressed encoding of an affine short Weierstrass point.
pub uninterp spec fn ser_sw_affine(p: SwAffinePoint) -> Seq<u8>;

/// The canonical uncompressed encoding of a projective short Weierstrass point.
pub uninterp spec fn ser_sw_projective(p: SwProjectivePoint) -> Seq<u8>;

/// What deserializing an affine short Weierstrass point from a fixed-width buffer
/// returns: a point, or nothing when a coordinate is out of range.
pub uninterp spec fn parse_of_sw_affine(b: Seq<u8>) -> Option<SwAffinePoint>;

/// What deserializing a projective short Weierstrass point returns.
pub uninterp spec fn parse_of_sw_projective(b: Seq<u8>) -> Option<SwProjectivePoint>;

/// What the engine's projective short Weierstrass scalar multiplication returns.
pub uninterp spec fn spec_sw_mul_projective(p: SwProjectivePoint, limbs: Seq<u64>) -> SwProjectivePoint;

/// What the engine's affine short Weierstrass scalar multiplication returns.
pub uninterp spec fn spec_sw_mul_affine(p: SwAffinePoint, limbs: Seq<u64>) -> SwProjectivePoint;

/// What the engine's short Weierstrass multi-scalar multiplication returns.
pub uninterp spec fn spec_sw_msm(ps: Seq<SwAffinePoint>, ss: Seq<ScalarElement>) -> SwProjectivePoint;

/// The short Weierstrass group identity: the value of an empty multi-scalar
/// multiplication.
pub open spec fn sw_identity() -> SwProjectivePoint {
    spec_sw_msm(Seq::empty(), Seq::empty())
}

/// Whether `b` is the canonical encoding of the affine point `p`.
pub open spec fn sw_affine_canon(b: Seq<u8>, p: SwAffinePoint) -> bool {
    b.len() == ED_ON_BLS12_381_SW_LEN && b == ser_sw_affine(p)
}

/// Whether `b` is the canonical encoding of the projective point `p`.
pub open spec fn sw_projective_canon(b: Seq<u8>, p: SwProjectivePoint) -> bool {
    b.len() == ED_ON_BLS12_381_SW_LEN && b == ser_sw_projective(p)
}

/// Whether `ps` matches the byte buffers `bs` element by element.
pub open spec fn sw_affine_seq_canon(bs: Seq<Vec<u8>>, ps: Seq<SwAffinePoint>) -> bool {
    &&& ps.len() == bs.len()
    &&& forall|i: int| 0 <= i < bs.len() ==> sw_affine_canon(#[trigger] bs[i]@, ps[i])
}

/// Whether every buffer of `bs` has the fixed width and deserializes to
/// the matching element of `ps`.
pub open spec fn sw_affine_seq_parsed(bs: Seq<Vec<u8>>, ps: Seq<SwAffinePoint>) -> bool {
    &&& ps.len() == bs.len()
    &&& forall|i: int| 0 <= i < bs.len() ==> #[trigger] bs[i]@.len() == ED_ON_BLS12_381_SW_LEN
    &&& forall|i: int| 0 <= i < bs.len() ==> parse_of_sw_affine(#[trigger] bs[i]@) == Some(ps[i])
}

/// The canonical uncompressed encoding of an affine twisted Edwards point.
pub uninterp spec fn ser_te_affine(p: TeAffinePoint) -> Seq<u8>;

/// The canonical uncompressed encoding of a projective twisted Edwards point.
pub uninterp spec fn ser_te_projective(p: TeProjectivePoint) -> Seq<u8>;

/// What deserializing an affine twisted Edwards point from a fixed-width buffer
/// returns: a point, or nothing when a coordinate is out of range.
pub uninterp spec fn parse_of_te_affine(b: Seq<u8>) -> Option<TeAffinePoint>;

/// What deserializing a projective twisted Edwards point returns.
pub uninterp spec fn parse_of_te_projective(b: Seq<u8>) -> Option<TeProjectivePoint>;

/// What the engine's projective twisted Edwards scalar multiplication returns.
pub uninterp spec fn spec_te_mul_projective(p: TeProjectivePoint, limbs: Seq<u64>) -> TeProjectivePoint;

/// What the engine's affine twisted Edwards scalar multiplication returns.
pub uninterp spec fn spec_te_mul_affine(p: TeAffinePoint, limbs: Seq<u64>) -> TeProjectivePoint;

/// What the engine's twisted Edwards multi-scalar multiplication returns.
pub uninterp spec fn spec_te_msm(ps: Seq<TeAffinePoint>, ss: Seq<ScalarElement>) -> TeProjectivePoint;

/// The twisted Edwards group identity: the value of an empty multi-scalar
/// multiplication.
pub open spec fn te_identity() -> TeProjectivePoint {
    spec_te_msm(Seq::empty(), Seq::empty())
}

/// Whether `b` is the canonical encoding of the affine point `p`.
pub open spec fn te_affine_canon(b: Seq<u8>, p: TeAffinePoint) -> bool {
    b.len() == ED_ON_BLS12_381_TE_LEN && b == ser_te_affine(p)
}

/// Whether `b` is the canonical encoding of the projective point `p`.
pub open spec fn te_projective_canon(b: Seq<u8>, p: TeProjectivePoint) -> bool {
    b.len() == ED_ON_BLS12_381_TE_LEN && b == ser_te_projective(p)
}

/// Whether `ps` matches the byte buffers `bs` element by element.
pub open spec fn te_affine_seq_canon(bs: Seq<Vec<u8>>, ps: Seq<TeAffinePoint>) -> bool {
    &&& ps.len() == bs.len()
    &&& forall|i: int| 0 <= i < bs.len() ==> te_affine_canon(#[trigger] bs[i]@, ps[i])
}

/// Whether every buffer of `bs` has the fixed width and deserializes to
/// the matching element of `ps`.
pub open spec fn te_affine_seq_parsed(bs: Seq<Vec<u8>>, ps: Seq<TeAffinePoint>) -> bool {
    &&& ps.len() == bs.len()
    &&& forall|i: int| 0 <= i < bs.len() ==> #[trigger] bs[i]@.len() == ED_ON_BLS12_381_TE_LEN
    &&& forall|i: int| 0 <= i < bs.len() ==> parse_of_te_affine(#[trigger] bs[i]@) == Some(ps[i])
}

/// The canonical encoding of a scalar-field element.
pub uninterp spec fn ser_scalar(s: ScalarElement) -> Seq<u8>;

/// What deserializing a scalar-field element from a fixed-width buffer
/// returns: an element, or nothing when the value is out of range.
pub uninterp spec fn parse_of_scalar(b: Seq<u8>) -> Option<ScalarElement>;

/// Whether `b` is the canonical encoding of the scalar `s`.
pub open spec fn scalar_canon(b: Seq<u8>, s: ScalarElement) -> bool {
    b.len() == ED_ON_BLS12_381_SCALAR_LEN && b == ser_scalar(s)
}

/// Whether `ss` matches the byte buffers `bs` element by element.
pub open spec fn scalar_seq_canon(bs: Seq<Vec<u8>>, ss: Seq<ScalarElement>) -> bool {
    &&& ss.len() == bs.len()
    &&& forall|i: int| 0 <= i < bs.len() ==> scalar_canon(#[trigger] bs[i]@, ss[i])
}

/// Whether every buffer of `bs` has the fixed width and deserializes to
/// the matching element of `ss`.
pub open spec fn scalar_seq_parsed(bs: Seq<Vec<u8>>, ss: Seq<ScalarElement>) -> bool {
    &&& ss.len() == bs.len()
    &&& forall|i: int| 0 <= i < bs.len() ==> #[trigger] bs[i]@.len() == ED_ON_BLS12_381_SCALAR_LEN
    &&& forall|i: int| 0 <= i < bs.len() ==> parse_of_scalar(#[trigger] bs[i]@) == Some(ss[i])
}

/// Relies on `short_weierstrass::Affine::<JubjubConfig>::deserialize_with_mode` (uncompressed, unchecked):
/// a pure function of the buffer, and deserializing the canonical
/// encoding of a value gives that value back.
#[verifier::external_body]
fn parse_sw_affine(b: &Vec<u8>) -> (r: Option<SwAffinePoint>)
    requires
        b@.len() == ED_ON_BLS12_381_SW_LEN,
    ensures
        r == parse_of_sw_affine(b@),
        forall|p: SwAffinePoint| b@ == ser_sw_affine(p) ==> r == Some(p),
{
    match <ark_ed_on_bls12_381::SWAffine as ark_serialize::CanonicalDeserialize>::deserialize_with_mode(
        b.as_slice(),
        ark_serialize::Compress::No,
        ark_serialize::Validate::No,
    ) {
        Ok(p) => Some(SwAffinePoint { inner: p }),
        Err(_) => None,
    }
}

/// Relies on `short_weierstrass::Projective::<JubjubConfig>::deserialize_with_mode` (uncompressed, unchecked):
/// a pure function of the buffer, and deserializing the canonical
/// encoding of a value gives that value back.
#[verifier::external_body]
fn parse_sw_projective(b: &Vec<u8>) -> (r: Option<SwProjectivePoint>)
    requires
        b@.len() == ED_ON_BLS12_381_SW_LEN,
    ensures
        r == parse_of_sw_projective(b@),
        forall|p: SwProjectivePoint| b@ == ser_sw_projective(p) ==> r == Some(p),
{
    match <ark_ed_on_bls12_381::SWProjective as ark_serialize::CanonicalDeserialize>::deserialize_with_mode(
        b.as_slice(),
        ark_serialize::Compress::No,
        ark_serialize::Validate::No,
    ) {
        Ok(p) => Some(SwProjectivePoint { inner: p }),
        Err(_) => None,
    }
}

/// Relies on `Affine::<JubjubConfig>::deserialize_with_mode` (uncompressed, unchecked):
/// a pure function of the buffer, and deserializing the canonical
/// encoding of a value gives that value back.
#[verifier::external_body]
fn parse_te_affine(b: &Vec<u8>) -> (r: Option<TeAffinePoint>)
    requires
        b@.len() == ED_ON_BLS12_381_TE_LEN,
    ensures
        r == parse_of_te_affine(b@),
        forall|p: TeAffinePoint| b@ == ser_te_affine(p) ==> r == Some(p),
{
    match <ark_ed_on_bls12_381::EdwardsAffine as ark_serialize::CanonicalDeserialize>::deserialize_with_mode(
        b.as_slice(),
        ark_serialize::Compress::No,
        ark_serialize::Validate::No,
    ) {
        Ok(p) => Some(TeAffinePoint { inner: p }),
        Err(_) => None,
    }
}

/// Relies on `Projective::<JubjubConfig>::deserialize_with_mode` (uncompressed, unchecked):
/// a pure function of the buffer, and deserializing the canonical
/// encoding of a value gives that value back.
#[verifier::external_body]
fn parse_te_projective(b: &Vec<u8>) -> (r: Option<TeProjectivePoint>)
    requires
        b@.len() == ED_ON_BLS12_381_TE_LEN,
    ensures
        r == parse_of_te_projective(b@),
        forall|p: TeProjectivePoint| b@ == ser_te_projective(p) ==> r == Some(p),
{
    match <ark_ed_on_bls12_381::EdwardsProjective as ark_serialize::CanonicalDeserialize>::deserialize_with_mode(
        b.as_slice(),
        ark_serialize::Compress::No,
        ark_serialize::Validate::No,
    ) {
        Ok(p) => Some(TeProjectivePoint { inner: p }),
        Err(_) => None,
    }
}

/// Relies on `Fp::deserialize_with_mode` (uncompressed, unchecked):
/// a pure function of the buffer, and deserializing the canonical
/// encoding of a value gives that value back.
#[verifier::external_body]
fn parse_scalar(b: &Vec<u8>) -> (r: Option<ScalarElement>)
    requires
        b@.len() == ED_ON_BLS12_381_SCALAR_LEN,
    ensures
        r == parse_of_scalar(b@),
        forall|p: ScalarElement| b@ == ser_scalar(p) ==> r == Some(p),
{
    match <ark_ed_on_bls12_381::Fr as ark_serialize::CanonicalDeserialize>::deserialize_with_mode(
        b.as_slice(),
        ark_serialize::Compress::No,
        ark_serialize::Validate::No,
    ) {
        Ok(p) => Some(ScalarElement { inner: p }),
        Err(_) => None,
    }
}

/// Relies on `ark_ed_on_bls12_381::SWProjective`'s `serialize_with_mode` (uncompressed): the output
/// is the canonical fixed-width encoding and writing to a byte vector
/// cannot fail.
#[verifier::external_body]
fn encode_sw_projective(p: &SwProjectivePoint) -> (r: Vec<u8>)
    ensures
        r@ == ser_sw_projective(*p),
        r@.len() == ED_ON_BLS12_381_SW_LEN,
{
    let mut out: Vec<u8> = Vec::new();
    <ark_ed_on_bls12_381::SWProjective as ark_serialize::CanonicalSerialize>::serialize_with_mode(
        &p.inner,
        &mut out,
        ark_serialize::Compress::No,
    ).unwrap();
    out
}

/// Relies on `ark_ed_on_bls12_381::EdwardsProjective`'s `serialize_with_mode` (uncompressed): the output
/// is the canonical fixed-width encoding and writing to a byte vector
/// cannot fail.
#[verifier::external_body]
fn encode_te_projective(p: &TeProjectivePoint) -> (r: Vec<u8>)
    ensures
        r@ == ser_te_projective(*p),
        r@.len() == ED_ON_BLS12_381_TE_LEN,
{
    let mut out: Vec<u8> = Vec::new();
    <ark_ed_on_bls12_381::EdwardsProjective as ark_serialize::CanonicalSerialize>::serialize_with_mode(
        &p.inner,
        &mut out,
        ark_serialize::Compress::No,
    ).unwrap();
    out
}

/// Relies on `Group::mul_bigint`: double-and-add over the limb bits, a
/// pure function of point and limbs; with no limb bit set it returns the
/// group identity, the same value an empty multi-scalar multiplication
/// sums to.
#[verifier::external_body]
fn engine_sw_mul_projective(p: &SwProjectivePoint, limbs: &Vec<u64>) -> (r: SwProjectivePoint)
    ensures
        r == spec_sw_mul_projective(*p, limbs@),
        all_zero_limbs(limbs@) ==> r == sw_identity(),
{
    SwProjectivePoint { inner: ark_ec::Group::mul_bigint(&p.inner, limbs.as_slice()) }
}

/// Relies on `AffineRepr::mul_bigint`, as for the projective form.
#[verifier::external_body]
fn engine_sw_mul_affine(p: &SwAffinePoint, limbs: &Vec<u64>) -> (r: SwProjectivePoint)
    ensures
        r == spec_sw_mul_affine(*p, limbs@),
        all_zero_limbs(limbs@) ==> r == sw_identity(),
{
    SwProjectivePoint { inner: ark_ec::AffineRepr::mul_bigint(&p.inner, limbs.as_slice()) }
}

/// Relies on `VariableBaseMSM::msm`, which succeeds exactly on
/// equal-length slices and is a pure function of bases and scalars.
#[verifier::external_body]
fn engine_sw_msm(ps: &Vec<SwAffinePoint>, ss: &Vec<ScalarElement>) -> (r: SwProjectivePoint)
    requires
        ps@.len() == ss@.len(),
    ensures
        r == spec_sw_msm(ps@, ss@),
{
    let bases: Vec<ark_ed_on_bls12_381::SWAffine> = ps.iter().map(|x| x.inner).collect();
    let scs: Vec<ark_ed_on_bls12_381::Fr> = ss.iter().map(|x| x.inner).collect();
    SwProjectivePoint {
        inner: <ark_ed_on_bls12_381::SWProjective as ark_ec::VariableBaseMSM>::msm(
            bases.as_slice(),
            scs.as_slice(),
        ).unwrap(),
    }
}

/// Relies on `Group::mul_bigint`: double-and-add over the limb bits, a
/// pure function of point and limbs; with no limb bit set it returns the
/// group identity, the same value an empty multi-scalar multiplication
/// sums to.
#[verifier::external_body]
fn engine_te_mul_projective(p: &TeProjectivePoint, limbs: &Vec<u64>) -> (r: TeProjectivePoint)
    ensures
        r == spec_te_mul_projective(*p, limbs@),
        all_zero_limbs(limbs@) ==> r == te_identity(),
{
    TeProjectivePoint { inner: ark_ec::Group::mul_bigint(&p.inner, limbs.as_slice()) }
}

/// Relies on `AffineRepr::mul_bigint`, as for the projective form.
#[verifier::external_body]
fn engine_te_mul_affine(p: &TeAffinePoint, limbs: &Vec<u64>) -> (r: TeProjectivePoint)
    ensures
        r == spec_te_mul_affine(*p, limbs@),
        all_zero_limbs(limbs@) ==> r == te_identity(),
{
    TeProjectivePoint { inner: ark_ec::AffineRepr::mul_bigint(&p.inner, limbs.as_slice()) }
}

/// Relies on `VariableBaseMSM::msm`, which succeeds exactly on
/// equal-length slices and is a pure function of bases and scalars.
#[verifier::external_body]
fn engine_te_msm(ps: &Vec<TeAffinePoint>, ss: &Vec<ScalarElement>) -> (r: TeProjectivePoint)
    requires
        ps@.len() == ss@.len(),
    ensures
        r == spec_te_msm(ps@, ss@),
{
    let bases: Vec<ark_ed_on_bls12_381::EdwardsAffine> = ps.iter().map(|x| x.inner).collect();
    let scs: Vec<ark_ed_on_bls12_381::Fr> = ss.iter().map(|x| x.inner).collect();
    TeProjectivePoint {
        inner: <ark_ed_on_bls12_381::EdwardsProjective as ark_ec::VariableBaseMSM>::msm(
            bases.as_slice(),
            scs.as_slice(),
        ).unwrap(),
    }
}

/// Multiplies a projective short Weierstrass point by a raw limb scalar; the result is
/// returned in projective (normalized) encoding.
///
/// The scalar is a little-endian limb blob and is not reduced before
/// use; an all-zero scalar yields the group identity.
pub fn sw_mul_projective(base: Vec<u8>, scalar: Vec<u8>) -> (r: Result<Vec<u8>, Error>)
    ensures
        base@.len() != ED_ON_BLS12_381_SW_LEN ==> r == Err::<Vec<u8>, Error>(Error::BadLength),
        base@.len() == ED_ON_BLS12_381_SW_LEN && !limb_blob_wf(scalar@) ==> r == Err::<Vec<u8>, Error>(
            Error::BadLength,
        ),
        base@.len() == ED_ON_BLS12_381_SW_LEN && limb_blob_wf(scalar@) && parse_of_sw_projective(base@) is None ==> r
            == Err::<Vec<u8>, Error>(Error::BadFieldElement),
        base@.len() == ED_ON_BLS12_381_SW_LEN && limb_blob_wf(scalar@) ==> (parse_of_sw_projective(base@) matches Some(p)
            ==> (r matches Ok(v) && v@ == ser_sw_projective(spec_sw_mul_projective(p, limbs_of(scalar@))))),
        forall|p: SwProjectivePoint|
            #[trigger] sw_projective_canon(base@, p) && limb_blob_wf(scalar@) ==> (r matches Ok(v)
                && v@ == ser_sw_projective(spec_sw_mul_projective(p, limbs_of(scalar@)))),
        forall|p: SwProjectivePoint|
            #[trigger] sw_projective_canon(base@, p) && limb_blob_wf(scalar@) && all_zero_limbs(
                limbs_of(scalar@),
            ) ==> (r matches Ok(v) && v@ == ser_sw_projective(sw_identity())),
        r matches Ok(v) ==> v@.len() == ED_ON_BLS12_381_SW_LEN,
{
    if base.len() != ED_ON_BLS12_381_SW_LEN {
        return Err(Error::BadLength);
    }
    let limbs = match decode_limbs(&scalar) {
        Ok(l) => l,
        Err(e) => {
            return Err(e);
        },
    };
    let pt = match parse_sw_projective(&base) {
        Some(p) => p,
        None => {
            return Err(Error::BadFieldElement);
        },
    };
    let out = engine_sw_mul_projective(&pt, &limbs);
    Ok(encode_sw_projective(&out))
}

/// Multiplies a affine short Weierstrass point by a raw limb scalar; the result is
/// returned in projective (normalized) encoding.
///
/// The scalar is a little-endian limb blob and is not reduced before
/// use; an all-zero scalar yields the group identity.
pub fn sw_mul_affine(base: Vec<u8>, scalar: Vec<u8>) -> (r: Result<Vec<u8>, Error>)
    ensures
        base@.len() != ED_ON_BLS12_381_SW_LEN ==> r == Err::<Vec<u8>, Error>(Error::BadLength),
        base@.len() == ED_ON_BLS12_381_SW_LEN && !limb_blob_wf(scalar@) ==> r == Err::<Vec<u8>, Error>(
            Error::BadLength,
        ),
        base@.len() == ED_ON_BLS12_381_SW_LEN && limb_blob_wf(scalar@) && parse_of_sw_affine(base@) is None ==> r
            == Err::<Vec<u8>, Error>(Error::BadFieldElement),
        base@.len() == ED_ON_BLS12_381_SW_LEN && limb_blob_wf(scalar@) ==> (parse_of_sw_affine(base@) matches Some(p)
            ==> (r matches Ok(v) && v@ == ser_sw_projective(spec_sw_mul_affine(p, limbs_of(scalar@))))),
        forall|p: SwAffinePoint|
            #[trigger] sw_affine_canon(base@, p) && limb_blob_wf(scalar@) ==> (r matches Ok(v)
                && v@ == ser_sw_projective(spec_sw_mul_affine(p, limbs_of(scalar@)))),
        forall|p: SwAffinePoint|
            #[trigger] sw_affine_canon(base@, p) && limb_blob_wf(scalar@) && all_zero_limbs(
                limbs_of(scalar@),
            ) ==> (r matches Ok(v) && v@ == ser_sw_projective(sw_identity())),
        r matches Ok(v) ==> v@.len() == ED_ON_BLS12_381_SW_LEN,
{
    if base.len() != ED_ON_BLS12_381_SW_LEN {
        return Err(Error::BadLength);
    }
    let limbs = match decode_limbs(&scalar) {
        Ok(l) => l,
        Err(e) => {
            return Err(e);
        },
    };
    let pt = match parse_sw_affine(&base) {
        Some(p) => p,
        None => {
            return Err(Error::BadFieldElement);
        },
    };
    let out = engine_sw_mul_affine(&pt, &limbs);
    Ok(encode_sw_projective(&out))
}

/// Computes the multi-scalar multiplication `sum scalar_i * point_i`.
///
/// Empty input yields the group identity.
pub fn sw_msm(bases: Vec<Vec<u8>>, scalars: Vec<Vec<u8>>) -> (r: Result<Vec<u8>, Error>)
    ensures
        ((exists|i: int| 0 <= i < bases@.len() && #[trigger] bases@[i]@.len() != ED_ON_BLS12_381_SW_LEN) || (
        exists|i: int| 0 <= i < scalars@.len() && #[trigger] scalars@[i]@.len() != ED_ON_BLS12_381_SCALAR_LEN)) ==> r == Err::<
            Vec<u8>,
            Error,
        >(Error::BadLength),
        (forall|i: int| 0 <= i < bases@.len() ==> #[trigger] bases@[i]@.len() == ED_ON_BLS12_381_SW_LEN) && (forall|
            i: int,
        | 0 <= i < scalars@.len() ==> #[trigger] scalars@[i]@.len() == ED_ON_BLS12_381_SCALAR_LEN) && ((exists|i: int|
            0 <= i < bases@.len() && parse_of_sw_affine(#[trigger] bases@[i]@) is None) || (exists|i: int|
            0 <= i < scalars@.len() && parse_of_scalar(#[trigger] scalars@[i]@) is None)) ==> r == Err::<
            Vec<u8>,
            Error,
        >(Error::BadFieldElement),
        (forall|i: int| 0 <= i < bases@.len() ==> #[trigger] bases@[i]@.len() == ED_ON_BLS12_381_SW_LEN) && (forall|
            i: int,
        | 0 <= i < scalars@.len() ==> #[trigger] scalars@[i]@.len() == ED_ON_BLS12_381_SCALAR_LEN) && (forall|i: int|
            0 <= i < bases@.len() ==> parse_of_sw_affine(#[trigger] bases@[i]@) is Some) && (forall|i: int|
            0 <= i < scalars@.len() ==> parse_of_scalar(#[trigger] scalars@[i]@) is Some) && bases@.len()
            != scalars@.len() ==> r == Err::<Vec<u8>, Error>(Error::LengthMismatch),
        forall|ps: Seq<SwAffinePoint>, qs: Seq<ScalarElement>|
            bases@.len() == scalars@.len() && sw_affine_seq_parsed(bases@, ps) && scalar_seq_parsed(scalars@, qs) ==> (
            r matches Ok(v) && v@ == ser_sw_projective(#[trigger] spec_sw_msm(ps, qs))),
        forall|ps: Seq<SwAffinePoint>, qs: Seq<ScalarElement>|
            bases@.len() == scalars@.len() && sw_affine_seq_canon(bases@, ps) && scalar_seq_canon(scalars@, qs) ==> (
            r matches Ok(v) && v@ == ser_sw_projective(#[trigger] spec_sw_msm(ps, qs))),
        bases@.len() == 0 && scalars@.len() == 0 ==> (r matches Ok(v) && v@ == ser_sw_projective(
            sw_identity(),
        )),
        r matches Ok(v) ==> v@.len() == ED_ON_BLS12_381_SW_LEN,
{
    let n_bases = bases.len();
    let mut i_bases: usize = 0;
    while i_bases < n_bases
        invariant
            n_bases == bases@.len(),
            i_bases <= n_bases,
            forall|j: int| 0 <= j < i_bases ==> #[trigger] bases@[j]@.len() == ED_ON_BLS12_381_SW_LEN,
        decreases n_bases - i_bases,
    {
        if bases[i_bases].len() != ED_ON_BLS12_381_SW_LEN {
            return Err(Error::BadLength);
        }
        i_bases = i_bases + 1;
    }
    let n_scalars = scalars.len();
    let mut i_scalars: usize = 0;
    while i_scalars < n_scalars
        invariant
            n_scalars == scalars@.len(),
            i_scalars <= n_scalars,
            forall|j: int| 0 <= j < bases@.len() ==> #[trigger] bases@[j]@.len() == ED_ON_BLS12_381_SW_LEN,
            forall|j: int| 0 <= j < i_scalars ==> #[trigger] scalars@[j]@.len() == ED_ON_BLS12_381_SCALAR_LEN,
        decreases n_scalars - i_scalars,
    {
        if scalars[i_scalars].len() != ED_ON_BLS12_381_SCALAR_LEN {
            return Err(Error::BadLength);
        }
        i_scalars = i_scalars + 1;
    }
    let mut vals_bases: Vec<SwAffinePoint> = Vec::new();
    let mut k_bases: usize = 0;
    while k_bases < n_bases
        invariant
            n_bases == bases@.len(),
            k_bases <= n_bases,
            vals_bases@.len() == k_bases,
            forall|j: int| 0 <= j < scalars@.len() ==> #[trigger] scalars@[j]@.len() == ED_ON_BLS12_381_SCALAR_LEN,
            forall|j: int| 0 <= j < n_bases ==> #[trigger] bases@[j]@.len() == ED_ON_BLS12_381_SW_LEN,
            forall|j: int, p: SwAffinePoint|
                #![trigger vals_bases@[j], ser_sw_affine(p)]
                0 <= j < k_bases && bases@[j]@ == ser_sw_affine(p) ==> vals_bases@[j] == p,
            forall|j: int|
                0 <= j < k_bases ==> parse_of_sw_affine(#[trigger] bases@[j]@) == Some(vals_bases@[j]),
        decreases n_bases - k_bases,
    {
        let pt = match parse_sw_affine(&bases[k_bases]) {
            Some(p) => p,
            None => {
                proof {
                    assert forall|ps: Seq<SwAffinePoint>, qs: Seq<ScalarElement>|
                        (sw_affine_seq_canon(bases@, ps) && scalar_seq_canon(scalars@, qs)) || (
                        sw_affine_seq_parsed(bases@, ps) && scalar_seq_parsed(scalars@, qs)) implies false by {
                        assert(sw_affine_canon(bases@[k_bases as int]@, ps[k_bases as int]) || parse_of_sw_affine(bases@[k_bases as int]@) == Some(ps[k_bases as int]));
                    }
                }
                return Err(Error::BadFieldElement);
            },
        };
        vals_bases.push(pt);
        k_bases = k_bases + 1;
    }
    let mut vals_scalars: Vec<ScalarElement> = Vec::new();
    let mut k_scalars: usize = 0;
    while k_scalars < n_scalars
        invariant
            n_scalars == scalars@.len(),
            k_scalars <= n_scalars,
            vals_scalars@.len() == k_scalars,
            forall|j: int| 0 <= j < bases@.len() ==> #[trigger] bases@[j]@.len() == ED_ON_BLS12_381_SW_LEN,
            vals_bases@.len() == bases@.len(),
            forall|j: int, p: SwAffinePoint|
                #![trigger vals_bases@[j], ser_sw_affine(p)]
                0 <= j < vals_bases@.len() && bases@[j]@ == ser_sw_affine(p) ==> vals_bases@[j] == p,
            forall|j: int|
                0 <= j < vals_bases@.len() ==> parse_of_sw_affine(#[trigger] bases@[j]@) == Some(vals_bases@[j]),
            forall|j: int| 0 <= j < n_scalars ==> #[trigger] scalars@[j]@.len() == ED_ON_BLS12_381_SCALAR_LEN,
            forall|j: int, p: ScalarElement|
                #![trigger vals_scalars@[j], ser_scalar(p)]
                0 <= j < k_scalars && scalars@[j]@ == ser_scalar(p) ==> vals_scalars@[j] == p,
            forall|j: int|
                0 <= j < k_scalars ==> parse_of_scalar(#[trigger] scalars@[j]@) == Some(vals_scalars@[j]),
        decreases n_scalars - k_scalars,
    {
        let pt = match parse_scalar(&scalars[k_scalars]) {
            Some(p) => p,
            None => {
                proof {
                    assert forall|ps: Seq<SwAffinePoint>, qs: Seq<ScalarElement>|
                        (sw_affine_seq_canon(bases@, ps) && scalar_seq_canon(scalars@, qs)) || (
                        sw_affine_seq_parsed(bases@, ps) && scalar_seq_parsed(scalars@, qs)) implies false by {
                        assert(scalar_canon(scalars@[k_scalars as int]@, qs[k_scalars as int]) || parse_of_scalar(scalars@[k_scalars as int]@) == Some(qs[k_scalars as int]));
                    }
                }
                return Err(Error::BadFieldElement);
            },
        };
        vals_scalars.push(pt);
        k_scalars = k_scalars + 1;
    }
    if bases.len() != scalars.len() {
        return Err(Error::LengthMismatch);
    }
    let out = engine_sw_msm(&vals_bases, &vals_scalars);
    proof {
        if bases@.len() == 0 {
            assert(vals_bases@ =~= Seq::<SwAffinePoint>::empty());
            assert(vals_scalars@ =~= Seq::<ScalarElement>::empty());
        }
        assert forall|ps: Seq<SwAffinePoint>, qs: Seq<ScalarElement>|
            (sw_affine_seq_canon(bases@, ps) && scalar_seq_canon(scalars@, qs)) || (sw_affine_seq_parsed(bases@, ps)
                && scalar_seq_parsed(scalars@, qs)) implies vals_bases@ == ps && vals_scalars@ == qs by {
            assert forall|j: int| 0 <= j < ps.len() implies vals_bases@[j] == ps[j] by {
                assert(sw_affine_canon(bases@[j]@, ps[j]) || parse_of_sw_affine(bases@[j]@) == Some(ps[j]));
            }
            assert forall|j: int| 0 <= j < qs.len() implies vals_scalars@[j] == qs[j] by {
                assert(scalar_canon(scalars@[j]@, qs[j]) || parse_of_scalar(scalars@[j]@) == Some(qs[j]));
            }
            assert(vals_bases@ =~= ps);
            assert(vals_scalars@ =~= qs);
        }
    }
    Ok(encode_sw_projective(&out))
}

/// Multiplies a projective twisted Edwards point by a raw limb scalar; the result is
/// returned in projective (normalized) encoding.
///
/// The scalar is a little-endian limb blob and is not reduced before
/// use; an all-zero scalar yields the group identity.
pub fn te_mul_projective(base: Vec<u8>, scalar: Vec<u8>) -> (r: Result<Vec<u8>, Error>)
    ensures
        base@.len() != ED_ON_BLS12_381_TE_LEN ==> r == Err::<Vec<u8>, Error>(Error::BadLength),
        base@.len() == ED_ON_BLS12_381_TE_LEN && !limb_blob_wf(scalar@) ==> r == Err::<Vec<u8>, Error>(
            Error::BadLength,
        ),
        base@.len() == ED_ON_BLS12_381_TE_LEN && limb_blob_wf(scalar@) && parse_of_te_projective(base@) is None ==> r
            == Err::<Vec<u8>, Error>(Error::BadFieldElement),
        base@.len() == ED_ON_BLS12_381_TE_LEN && limb_blob_wf(scalar@) ==> (parse_of_te_projective(base@) matches Some(p)
            ==> (r matches Ok(v) && v@ == ser_te_projective(spec_te_mul_projective(p, limbs_of(scalar@))))),
        forall|p: TeProjectivePoint|
            #[trigger] te_projective_canon(base@, p) && limb_blob_wf(scalar@) ==> (r matches Ok(v)
                && v@ == ser_te_projective(spec_te_mul_projective(p, limbs_of(scalar@)))),
        forall|p: TeProjectivePoint|
            #[trigger] te_projective_canon(base@, p) && limb_blob_wf(scalar@) && all_zero_limbs(
                limbs_of(scalar@),
            ) ==> (r matches Ok(v) && v@ == ser_te_projective(te_identity())),
        r matches Ok(v) ==> v@.len() == ED_ON_BLS12_381_TE_LEN,
{
    if base.len() != ED_ON_BLS12_381_TE_LEN {
        return Err(Error::BadLength);
    }
    let limbs = match decode_limbs(&scalar) {
        Ok(l) => l,
        Err(e) => {
            return Err(e);
        },
    };
    let pt = match parse_te_projective(&base) {
        Some(p) => p,
        None => {
            return Err(Error::BadFieldElement);
        },
    };
    let out = engine_te_mul_projective(&pt, &limbs);
    Ok(encode_te_projective(&out))
}

/// Multiplies a affine twisted Edwards point by a raw limb scalar; the result is
/// returned in projective (normalized) encoding.
///
/// The scalar is a little-endian limb blob and is not reduced before
/// use; an all-zero scalar yields the group identity.
pub fn te_mul_affine(base: Vec<u8>, scalar: Vec<u8>) -> (r: Result<Vec<u8>, Error>)
    ensures
        base@.len() != ED_ON_BLS12_381_TE_LEN ==> r == Err::<Vec<u8>, Error>(Error::BadLength),
        base@.len() == ED_ON_BLS12_381_TE_LEN && !limb_blob_wf(scalar@) ==> r == Err::<Vec<u8>, Error>(
            Error::BadLength,
        ),
        base@.len() == ED_ON_BLS12_381_TE_LEN && limb_blob_wf(scalar@) && parse_of_te_affine(base@) is None ==> r
            == Err::<Vec<u8>, Error>(Error::BadFieldElement),
        base@.len() == ED_ON_BLS12_381_TE_LEN && limb_blob_wf(scalar@) ==> (parse_of_te_affine(base@) matches Some(p)
            ==> (r matches Ok(v) && v@ == ser_te_projective(spec_te_mul_affine(p, limbs_of(scalar@))))),
        forall|p: TeAffinePoint|
            #[trigger] te_affine_canon(base@, p) && limb_blob_wf(scalar@) ==> (r matches Ok(v)
                && v@ == ser_te_projective(spec_te_mul_affine(p, limbs_of(scalar@)))),
        forall|p: TeAffinePoint|
            #[trigger] te_affine_canon(base@, p) && limb_blob_wf(scalar@) && all_zero_limbs(
                limbs_of(scalar@),
            ) ==> (r matches Ok(v) && v@ == ser_te_projective(te_identity())),
        r matches Ok(v) ==> v@.len() == ED_ON_BLS12_381_TE_LEN,
{
    if base.len() != ED_ON_BLS12_381_TE_LEN {
        return Err(Error::BadLength);
    }
    let limbs = match decode_limbs(&scalar) {
        Ok(l) => l,
        Err(e) => {
            return Err(e);
        },
    };
    let pt = match parse_te_affine(&base) {
        Some(p) => p,
        None => {
            return Err(Error::BadFieldElement);
        },
    };
    let out = engine_te_mul_affine(&pt, &limbs);
    Ok(encode_te_projective(&out))
}

/// Computes the multi-scalar multiplication `sum scalar_i * point_i`.
///
/// Empty input yields the group identity.
pub fn te_msm(bases: Vec<Vec<u8>>, scalars: Vec<Vec<u8>>) -> (r: Result<Vec<u8>, Error>)
    ensures
        ((exists|i: int| 0 <= i < bases@.len() && #[trigger] bases@[i]@.len() != ED_ON_BLS12_381_TE_LEN) || (
        exists|i: int| 0 <= i < scalars@.len() && #[trigger] scalars@[i]@.len() != ED_ON_BLS12_381_SCALAR_LEN)) ==> r == Err::<
            Vec<u8>,
            Error,
        >(Error::BadLength),
        (forall|i: int| 0 <= i < bases@.len() ==> #[trigger] bases@[i]@.len() == ED_ON_BLS12_381_TE_LEN) && (forall|
            i: int,
        | 0 <= i < scalars@.len() ==> #[trigger] scalars@[i]@.len() == ED_ON_BLS12_381_SCALAR_LEN) && ((exists|i: int|
            0 <= i < bases@.len() && parse_of_te_affine(#[trigger] bases@[i]@) is None) || (exists|i: int|
            0 <= i < scalars@.len() && parse_of_scalar(#[trigger] scalars@[i]@) is None)) ==> r == Err::<
            Vec<u8>,
            Error,
        >(Error::BadFieldElement),
        (forall|i: int| 0 <= i < bases@.len() ==> #[trigger] bases@[i]@.len() == ED_ON_BLS12_381_TE_LEN) && (forall|
            i: int,
        | 0 <= i < scalars@.len() ==> #[trigger] scalars@[i]@.len() == ED_ON_BLS12_381_SCALAR_LEN) && (forall|i: int|
            0 <= i < bases@.len() ==> parse_of_te_affine(#[trigger] bases@[i]@) is Some) && (forall|i: int|
            0 <= i < scalars@.len() ==> parse_of_scalar(#[trigger] scalars@[i]@) is Some) && bases@.len()
            != scalars@.len() ==> r == Err::<Vec<u8>, Error>(Error::LengthMismatch),
        forall|ps: Seq<TeAffinePoint>, qs: Seq<ScalarElement>|
            bases@.len() == scalars@.len() && te_affine_seq_parsed(bases@, ps) && scalar_seq_parsed(scalars@, qs) ==> (
            r matches Ok(v) && v@ == ser_te_projective(#[trigger] spec_te_msm(ps, qs))),
        forall|ps: Seq<TeAffinePoint>, qs: Seq<ScalarElement>|
            bases@.len() == scalars@.len() && te_affine_seq_canon(bases@, ps) && scalar_seq_canon(scalars@, qs) ==> (
            r matches Ok(v) && v@ == ser_te_projective(#[trigger] spec_te_msm(ps, qs))),
        bases@.len() == 0 && scalars@.len() == 0 ==> (r matches Ok(v) && v@ == ser_te_projective(
            te_identity(),
        )),
        r matches Ok(v) ==> v@.len() == ED_ON_BLS12_381_TE_LEN,
{
    let n_bases = bases.len();
    let mut i_bases: usize = 0;
    while i_bases < n_bases
        invariant
            n_bases == bases@.len(),
            i_bases <= n_bases,
            forall|j: int| 0 <= j < i_bases ==> #[trigger] bases@[j]@.len() == ED_ON_BLS12_381_TE_LEN,
        decreases n_bases - i_bases,
    {
        if bases[i_bases].len() != ED_ON_BLS12_381_TE_LEN {
            return Err(Error::BadLength);
        }
        i_bases = i_bases + 1;
    }
    let n_scalars = scalars.len();
    let mut i_scalars: usize = 0;
    while i_scalars < n_scalars
        invariant
            n_scalars == scalars@.len(),
            i_scalars <= n_scalars,
            forall|j: int| 0 <= j < bases@.len() ==> #[trigger] bases@[j]@.len() == ED_ON_BLS12_381_TE_LEN,
            forall|j: int| 0 <= j < i_scalars ==> #[trigger] scalars@[j]@.len() == ED_ON_BLS12_381_SCALAR_LEN,
        decreases n_scalars - i_scalars,
    {
        if scalars[i_scalars].len() != ED_ON_BLS12_381_SCALAR_LEN {
            return Err(Error::BadLength);
        }
        i_scalars = i_scalars + 1;
    }
    let mut vals_bases: Vec<TeAffinePoint> = Vec::new();
    let mut k_bases: usize = 0;
    while k_bases < n_bases
        invariant
            n_bases == bases@.len(),
            k_bases <= n_bases,
            vals_bases@.len() == k_bases,
            forall|j: int| 0 <= j < scalars@.len() ==> #[trigger] scalars@[j]@.len() == ED_ON_BLS12_381_SCALAR_LEN,
            forall|j: int| 0 <= j < n_bases ==> #[trigger] bases@[j]@.len() == ED_ON_BLS12_381_TE_LEN,
            forall|j: int, p: TeAffinePoint|
                #![trigger vals_bases@[j], ser_te_affine(p)]
                0 <= j < k_bases && bases@[j]@ == ser_te_affine(p) ==> vals_bases@[j] == p,
            forall|j: int|
                0 <= j < k_bases ==> parse_of_te_affine(#[trigger] bases@[j]@) == Some(vals_bases@[j]),
        decreases n_bases - k_bases,
    {
        let pt = match parse_te_affine(&bases[k_bases]) {
            Some(p) => p,
            None => {
                proof {
                    assert forall|ps: Seq<TeAffinePoint>, qs: Seq<ScalarElement>|
                        (te_affine_seq_canon(bases@, ps) && scalar_seq_canon(scalars@, qs)) || (
                        te_affine_seq_parsed(bases@, ps) && scalar_seq_parsed(scalars@, qs)) implies false by {
                        assert(te_affine_canon(bases@[k_bases as int]@, ps[k_bases as int]) || parse_of_te_affine(bases@[k_bases as int]@) == Some(ps[k_bases as int]));
                    }
                }
                return Err(Error::BadFieldElement);
            },
        };
        vals_bases.push(pt);
        k_bases = k_bases + 1;
    }
    let mut vals_scalars: Vec<ScalarElement> = Vec::new();
    let mut k_scalars: usize = 0;
    while k_scalars < n_scalars
        invariant
            n_scalars == scalars@.len(),
            k_scalars <= n_scalars,
            vals_scalars@.len() == k_scalars,
            forall|j: int| 0 <= j < bases@.len() ==> #[trigger] bases@[j]@.len() == ED_ON_BLS12_381_TE_LEN,
            vals_bases@.len() == bases@.len(),
            forall|j: int, p: TeAffinePoint|
                #![trigger vals_bases@[j], ser_te_affine(p)]
                0 <= j < vals_bases@.len() && bases@[j]@ == ser_te_affine(p) ==> vals_bases@[j] == p,
            forall|j: int|
                0 <= j < vals_bases@.len() ==> parse_of_te_affine(#[trigger] bases@[j]@) == Some(vals_bases@[j]),
            forall|j: int| 0 <= j < n_scalars ==> #[trigger] scalars@[j]@.len() == ED_ON_BLS12_381_SCALAR_LEN,
            forall|j: int, p: ScalarElement|
                #![trigger vals_scalars@[j], ser_scalar(p)]
                0 <= j < k_scalars && scalars@[j]@ == ser_scalar(p) ==> vals_scalars@[j] == p,
            forall|j: int|
                0 <= j < k_scalars ==> parse_of_scalar(#[trigger] scalars@[j]@) == Some(vals_scalars@[j]),
        decreases n_scalars - k_scalars,
    {
        let pt = match parse_scalar(&scalars[k_scalars]) {
            Some(p) => p,
            None => {
                proof {
                    assert forall|ps: Seq<TeAffinePoint>, qs: Seq<ScalarElement>|
                        (te_affine_seq_canon(bases@, ps) && scalar_seq_canon(scalars@, qs)) || (
                        te_affine_seq_parsed(bases@, ps) && scalar_seq_parsed(scalars@, qs)) implies false by {
                        assert(scalar_canon(scalars@[k_scalars as int]@, qs[k_scalars as int]) || parse_of_scalar(scalars@[k_scalars as int]@) == Some(qs[k_scalars as int]));
                    }
                }
                return Err(Error::BadFieldElement);
            },
        };
        vals_scalars.push(pt);
        k_scalars = k_scalars + 1;
    }
    if bases.len() != scalars.len() {
        return Err(Error::LengthMismatch);
    }
    let out = engine_te_msm(&vals_bases, &vals_scalars);
    proof {
        if bases@.len() == 0 {
            assert(vals_bases@ =~= Seq::<TeAffinePoint>::empty());
            assert(vals_scalars@ =~= Seq::<ScalarElement>::empty());
        }
        assert forall|ps: Seq<TeAffinePoint>, qs: Seq<ScalarElement>|
            (te_affine_seq_canon(bases@, ps) && scalar_seq_canon(scalars@, qs)) || (te_affine_seq_parsed(bases@, ps)
                && scalar_seq_parsed(scalars@, qs)) implies vals_bases@ == ps && vals_scalars@ == qs by {
            assert forall|j: int| 0 <= j < ps.len() implies vals_bases@[j] == ps[j] by {
                assert(te_affine_canon(bases@[j]@, ps[j]) || parse_of_te_affine(bases@[j]@) == Some(ps[j]));
            }
            assert forall|j: int| 0 <= j < qs.len() implies vals_scalars@[j] == qs[j] by {
                assert(scalar_canon(scalars@[j]@, qs[j]) || parse_of_scalar(scalars@[j]@) == Some(qs[j]));
            }
            assert(vals_bases@ =~= ps);
            assert(vals_scalars@ =~= qs);
        }
    }
    Ok(encode_te_projective(&out))
}

} // verus!
