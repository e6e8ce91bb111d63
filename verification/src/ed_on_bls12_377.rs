//! Entry points for the twisted Edwards curve over the BLS12-377 scalar
//! field: scalar multiplication and multi-scalar multiplication on its
//! single group, over raw byte buffers.

use vstd::prelude::*;
use crate::Error;
use crate::registry::{ED_ON_BLS12_377_LEN, ED_ON_BLS12_377_SCALAR_LEN};
use crate::scalar::{all_zero_limbs, decode_limbs, limb_blob_wf, limbs_of};

verus! {

/// Carries an engine value of `ark_ed_on_bls12_377::EdwardsAffine`; opaque here.
#[verifier::external_body]
pub struct AffinePoint {
    inner: ark_ed_on_bls12_377::EdwardsAffine,
}

/// Carries an engine value of `ark_ed_on_bls12_377::EdwardsProjective`; opaque here.
#[verifier::external_body]
pub struct ProjectivePoint {
    inner: ark_ed_on_bls12_377::EdwardsProjective,
}

/// Carries an engine value of `ark_ed_on_bls12_377::Fr`; opaque here.
#[verifier::external_body]
pub struct ScalarElement {
    inner: ark_ed_on_bls12_377::Fr,
}

/// The canonical uncompressed encoding of an affine twisted Edwards point.
pub uninterp spec fn ser_affine(p: AffinePoint) -> Seq<u8>;

/// The canonical uncompressed encoding of a projective twisted Edwards point.
pub uninterp spec fn ser_projective(p: ProjectivePoint) -> Seq<u8>;

/// What deserializing an affine twisted Edwards point from a fixed-width buffer
/// returns: a point, or nothing when a coordinate is out of range.
pub uninterp spec fn parse_of_affine(b: Seq<u8>) -> Option<AffinePoint>;

/// What deserializing a projective twisted Edwards point returns.
pub uninterp spec fn parse_of_projective(b: Seq<u8>) -> Option<ProjectivePoint>;

/// What the engine's projective twisted Edwards scalar multiplication returns.
pub uninterp spec fn spec_mul_projective(p: ProjectivePoint, limbs: Seq<u64>) -> ProjectivePoint;

/// What the engine's affine twisted Edwards scalar multiplication returns.
pub uninterp spec fn spec_mul_affine(p: AffinePoint, limbs: Seq<u64>) -> ProjectivePoint;

/// What the engine's twisted Edwards multi-scalar multiplication returns.
pub uninterp spec fn spec_msm(ps: Seq<AffinePoint>, ss: Seq<ScalarElement>) -> ProjectivePoint;

/// The twisted Edwards group identity: the value of an empty multi-scalar
/// multiplication.
pub open spec fn identity() -> ProjectivePoint {
    spec_msm(Seq::empty(), Seq::empty())
}

/// Whether `b` is the canonical encoding of the affine point `p`.
pub open spec fn affine_canon(b: Seq<u8>, p: AffinePoint) -> bool {
    b.len() == ED_ON_BLS12_377_LEN && b == ser_affine(p)
}

/// Whether `b` is the canonical encoding of the projective point `p`.
pub open spec fn projective_canon(b: Seq<u8>, p: ProjectivePoint) -> bool {
    b.len() == ED_ON_BLS12_377_LEN && b == ser_projective(p)
}

/// Whether `ps` matches the byte buffers `bs` element by element.
pub open spec fn affine_seq_canon(bs: Seq<Vec<u8>>, ps: Seq<AffinePoint>) -> bool {
    &&& ps.len() == bs.len()
    &&& forall|i: int| 0 <= i < bs.len() ==> affine_canon(#[trigger] bs[i]@, ps[i])
}

/// Whether every buffer of `bs` has the fixed width and deserializes to
/// the matching element of `ps`.
pub open spec fn affine_seq_parsed(bs: Seq<Vec<u8>>, ps: Seq<AffinePoint>) -> bool {
    &&& ps.len() == bs.len()
    &&& forall|i: int| 0 <= i < bs.len() ==> #[trigger] bs[i]@.len() == ED_ON_BLS12_377_LEN
    &&& forall|i: int| 0 <= i < bs.len() ==> parse_of_affine(#[trigger] bs[i]@) == Some(ps[i])
}

/// The canonical encoding of a scalar-field element.
pub uninterp spec fn ser_scalar(s: ScalarElement) -> Seq<u8>;

/// What deserializing a scalar-field element from a fixed-width buffer
/// returns: an element, or nothing when the value is out of range.
pub uninterp spec fn parse_of_scalar(b: Seq<u8>) -> Option<ScalarElement>;

/// Whether `b` is the canonical encoding of the scalar `s`.
pub open spec fn scalar_canon(b: Seq<u8>, s: ScalarElement) -> bool {
    b.len() == ED_ON_BLS12_377_SCALAR_LEN && b == ser_scalar(s)
}

/// Whether `ss` matches the byte buffers `bs` element by element.
pub open spec fn scalar_seq_canon(bs: Seq<Vec<u8>>, ss: Seq<ScalarElement>) -> bool {
    &&& ss.len() == bs.len()
    &&& forall|i: int| 0 <= i < bs.len() ==> scalar_canon(#[trigger] bs[i]@, ss[i])
}

/// Whether every buffer of `bs` has the fixed width and deserializes to
/// the matching element of `ss`.
pub open spec fn scalar_seq_parsed(bs: Seq<Vec<u8>>, ss: Seq<ScalarElement>) -> bool {
    &&& ss.len() == bs.len()
    &&& forall|i: int| 0 <= i < bs.len() ==> #[trigger] bs[i]@.len() == ED_ON_BLS12_377_SCALAR_LEN
    &&& forall|i: int| 0 <= i < bs.len() ==> parse_of_scalar(#[trigger] bs[i]@) == Some(ss[i])
}

/// Relies on `Affine::<EdwardsConfig>::deserialize_with_mode` (uncompressed, unchecked):
/// a pure function of the buffer, and deserializing the canonical
/// encoding of a value gives that value back.
#[verifier::external_body]
fn parse_affine(b: &Vec<u8>) -> (r: Option<AffinePoint>)
    requires
        b@.len() == ED_ON_BLS12_377_LEN,
    ensures
        r == parse_of_affine(b@),
        forall|p: AffinePoint| b@ == ser_affine(p) ==> r == Some(p),
{
    match <ark_ed_on_bls12_377::EdwardsAffine as ark_serialize::CanonicalDeserialize>::deserialize_with_mode(
        b.as_slice(),
        ark_serialize::Compress::No,
        ark_serialize::Validate::No,
    ) {
        Ok(p) => Some(AffinePoint { inner: p }),
        Err(_) => None,
    }
}

/// Relies on `Projective::<EdwardsConfig>::deserialize_with_mode` (uncompressed, unchecked):
/// a pure function of the buffer, and deserializing the canonical
/// encoding of a value gives that value back.
#[verifier::external_body]
fn parse_projective(b: &Vec<u8>) -> (r: Option<ProjectivePoint>)
    requires
        b@.len() == ED_ON_BLS12_377_LEN,
    ensures
        r == parse_of_projective(b@),
        forall|p: ProjectivePoint| b@ == ser_projective(p) ==> r == Some(p),
{
    match <ark_ed_on_bls12_377::EdwardsProjective as ark_serialize::CanonicalDeserialize>::deserialize_with_mode(
        b.as_slice(),
        ark_serialize::Compress::No,
        ark_serialize::Validate::No,
    ) {
        Ok(p) => Some(ProjectivePoint { inner: p }),
        Err(_) => None,
    }
}

/// Relies on `Fp::deserialize_with_mode` (uncompressed, unchecked):
/// a pure function of the buffer, and deserializing the canonical
/// encoding of a value gives that value back.
#[verifier::external_body]
fn parse_scalar(b: &Vec<u8>) -> (r: Option<ScalarElement>)
    requires
        b@.len() == ED_ON_BLS12_377_SCALAR_LEN,
    ensures
        r == parse_of_scalar(b@),
        forall|p: ScalarElement| b@ == ser_scalar(p) ==> r == Some(p),
{
    match <ark_ed_on_bls12_377::Fr as ark_serialize::CanonicalDeserialize>::deserialize_with_mode(
        b.as_slice(),
        ark_serialize::Compress::No,
        ark_serialize::Validate::No,
    ) {
        Ok(p) => Some(ScalarElement { inner: p }),
        Err(_) => None,
    }
}

/// Relies on `ark_ed_on_bls12_377::EdwardsProjective`'s `serialize_with_mode` (uncompressed): the output
/// is the canonical fixed-width encoding and writing to a byte vector
/// cannot fail.
#[verifier::external_body]
fn encode_projective(p: &ProjectivePoint) -> (r: Vec<u8>)
    ensures
        r@ == ser_projective(*p),
        r@.len() == ED_ON_BLS12_377_LEN,
{
    let mut out: Vec<u8> = Vec::new();
    <ark_ed_on_bls12_377::EdwardsProjective as ark_serialize::CanonicalSerialize>::serialize_with_mode(
        &p.inner,
        &mut out,
        ark_serialize::Compress::No,
    ).unwrap();
    out
}

/// Relies on `Group::mul_bigint`: double-and-add over the limb bits, a
/// pure function of point and limbs; with no limb bit set it returns the
/// group identity, the same value an empty multi-scalar multiplication
/// sums to.
#[verifier::external_body]
fn engine_mul_projective(p: &ProjectivePoint, limbs: &Vec<u64>) -> (r: ProjectivePoint)
    ensures
        r == spec_mul_projective(*p, limbs@),
        all_zero_limbs(limbs@) ==> r == identity(),
{
    ProjectivePoint { inner: ark_ec::Group::mul_bigint(&p.inner, limbs.as_slice()) }
}

/// Relies on `AffineRepr::mul_bigint`, as for the projective form.
#[verifier::external_body]
fn engine_mul_affine(p: &AffinePoint, limbs: &Vec<u64>) -> (r: ProjectivePoint)
    ensures
        r == spec_mul_affine(*p, limbs@),
        all_zero_limbs(limbs@) ==> r == identity(),
{
    ProjectivePoint { inner: ark_ec::AffineRepr::mul_bigint(&p.inner, limbs.as_slice()) }
}

/// Relies on `VariableBaseMSM::msm`, which succeeds exactly on
/// equal-length slices and is a pure function of bases and scalars.
#[verifier::external_body]
fn engine_msm(ps: &Vec<AffinePoint>, ss: &Vec<ScalarElement>) -> (r: ProjectivePoint)
    requires
        ps@.len() == ss@.len(),
    ensures
        r == spec_msm(ps@, ss@),
{
    let bases: Vec<ark_ed_on_bls12_377::EdwardsAffine> = ps.iter().map(|x| x.inner).collect();
    let scs: Vec<ark_ed_on_bls12_377::Fr> = ss.iter().map(|x| x.inner).collect();
    ProjectivePoint {
        inner: <ark_ed_on_bls12_377::EdwardsProjective as ark_ec::VariableBaseMSM>::msm(
            bases.as_slice(),
            scs.as_slice(),
        ).unwrap(),
    }
}

/// Multiplies a projective twisted Edwards point by a raw limb scalar; the result is
/// returned in projective (normalized) encoding.
///
/// The scalar is a little-endian limb blob and is not reduced before
/// use; an all-zero scalar yields the group identity.
pub fn mul_projective(base: Vec<u8>, scalar: Vec<u8>) -> (r: Result<Vec<u8>, Error>)
    ensures
        base@.len() != ED_ON_BLS12_377_LEN ==> r == Err::<Vec<u8>, Error>(Error::BadLength),
        base@.len() == ED_ON_BLS12_377_LEN && !limb_blob_wf(scalar@) ==> r == Err::<Vec<u8>, Error>(
            Error::BadLength,
        ),
        base@.len() == ED_ON_BLS12_377_LEN && limb_blob_wf(scalar@) && parse_of_projective(base@) is None ==> r
            == Err::<Vec<u8>, Error>(Error::BadFieldElement),
        base@.len() == ED_ON_BLS12_377_LEN && limb_blob_wf(scalar@) ==> (parse_of_projective(base@) matches Some(p)
            ==> (r matches Ok(v) && v@ == ser_projective(spec_mul_projective(p, limbs_of(scalar@))))),
        forall|p: ProjectivePoint|
            #[trigger] projective_canon(base@, p) && limb_blob_wf(scalar@) ==> (r matches Ok(v)
                && v@ == ser_projective(spec_mul_projective(p, limbs_of(scalar@)))),
        forall|p: ProjectivePoint|
            #[trigger] projective_canon(base@, p) && limb_blob_wf(scalar@) && all_zero_limbs(
                limbs_of(scalar@),
            ) ==> (r matches Ok(v) && v@ == ser_projective(identity())),
        r matches Ok(v) ==> v@.len() == ED_ON_BLS12_377_LEN,
{
    if base.len() != ED_ON_BLS12_377_LEN {
        return Err(Error::BadLength);
    }
    let limbs = match decode_limbs(&scalar) {
        Ok(l) => l,
        Err(e) => {
            return Err(e);
        },
    };
    let pt = match parse_projective(&base) {
        Some(p) => p,
        None => {
            return Err(Error::BadFieldElement);
        },
    };
    let out = engine_mul_projective(&pt, &limbs);
    Ok(encode_projective(&out))
}

/// Multiplies a affine twisted Edwards point by a raw limb scalar; the result is
/// returned in projective (normalized) encoding.
///
/// The scalar is a little-endian limb blob and is not reduced before
/// use; an all-zero scalar yields the group identity.
pub fn mul_affine(base: Vec<u8>, scalar: Vec<u8>) -> (r: Result<Vec<u8>, Error>)
    ensures
        base@.len() != ED_ON_BLS12_377_LEN ==> r == Err::<Vec<u8>, Error>(Error::BadLength),
        base@.len() == ED_ON_BLS12_377_LEN && !limb_blob_wf(scalar@) ==> r == Err::<Vec<u8>, Error>(
            Error::BadLength,
        ),
        base@.len() == ED_ON_BLS12_377_LEN && limb_blob_wf(scalar@) && parse_of_affine(base@) is None ==> r
            == Err::<Vec<u8>, Error>(Error::BadFieldElement),
        base@.len() == ED_ON_BLS12_377_LEN && limb_blob_wf(scalar@) ==> (parse_of_affine(base@) matches Some(p)
            ==> (r matches Ok(v) && v@ == ser_projective(spec_mul_affine(p, limbs_of(scalar@))))),
        forall|p: AffinePoint|
            #[trigger] affine_canon(base@, p) && limb_blob_wf(scalar@) ==> (r matches Ok(v)
                && v@ == ser_projective(spec_mul_affine(p, limbs_of(scalar@)))),
        forall|p: AffinePoint|
            #[trigger] affine_canon(base@, p) && limb_blob_wf(scalar@) && all_zero_limbs(
                limbs_of(scalar@),
            ) ==> (r matches Ok(v) && v@ == ser_projective(identity())),
        r matches Ok(v) ==> v@.len() == ED_ON_BLS12_377_LEN,
{
    if base.len() != ED_ON_BLS12_377_LEN {
        return Err(Error::BadLength);
    }
    let limbs = match decode_limbs(&scalar) {
        Ok(l) => l,
        Err(e) => {
            return Err(e);
        },
    };
    let pt = match parse_affine(&base) {
        Some(p) => p,
        None => {
            return Err(Error::BadFieldElement);
        },
    };
    let out = engine_mul_affine(&pt, &limbs);
    Ok(encode_projective(&out))
}

/// Computes the multi-scalar multiplication `sum scalar_i * point_i`.
///
/// Empty input yields the group identity.
pub fn msm(bases: Vec<Vec<u8>>, scalars: Vec<Vec<u8>>) -> (r: Result<Vec<u8>, Error>)
    ensures
        ((exists|i: int| 0 <= i < bases@.len() && #[trigger] bases@[i]@.len() != ED_ON_BLS12_377_LEN) || (
        exists|i: int| 0 <= i < scalars@.len() && #[trigger] scalars@[i]@.len() != ED_ON_BLS12_377_SCALAR_LEN)) ==> r == Err::<
            Vec<u8>,
            Error,
        >(Error::BadLength),
        (forall|i: int| 0 <= i < bases@.len() ==> #[trigger] bases@[i]@.len() == ED_ON_BLS12_377_LEN) && (forall|
            i: int,
        | 0 <= i < scalars@.len() ==> #[trigger] scalars@[i]@.len() == ED_ON_BLS12_377_SCALAR_LEN) && ((exists|i: int|
            0 <= i < bases@.len() && parse_of_affine(#[trigger] bases@[i]@) is None) || (exists|i: int|
            0 <= i < scalars@.len() && parse_of_scalar(#[trigger] scalars@[i]@) is None)) ==> r == Err::<
            Vec<u8>,
            Error,
        >(Error::BadFieldElement),
        (forall|i: int| 0 <= i < bases@.len() ==> #[trigger] bases@[i]@.len() == ED_ON_BLS12_377_LEN) && (forall|
            i: int,
        | 0 <= i < scalars@.len() ==> #[trigger] scalars@[i]@.len() == ED_ON_BLS12_377_SCALAR_LEN) && (forall|i: int|
            0 <= i < bases@.len() ==> parse_of_affine(#[trigger] bases@[i]@) is Some) && (forall|i: int|
            0 <= i < scalars@.len() ==> parse_of_scalar(#[trigger] scalars@[i]@) is Some) && bases@.len()
            != scalars@.len() ==> r == Err::<Vec<u8>, Error>(Error::LengthMismatch),
        forall|ps: Seq<AffinePoint>, qs: Seq<ScalarElement>|
            bases@.len() == scalars@.len() && affine_seq_parsed(bases@, ps) && scalar_seq_parsed(scalars@, qs) ==> (
            r matches Ok(v) && v@ == ser_projective(#[trigger] spec_msm(ps, qs))),
        forall|ps: Seq<AffinePoint>, qs: Seq<ScalarElement>|
            bases@.len() == scalars@.len() && affine_seq_canon(bases@, ps) && scalar_seq_canon(scalars@, qs) ==> (
            r matches Ok(v) && v@ == ser_projective(#[trigger] spec_msm(ps, qs))),
        bases@.len() == 0 && scalars@.len() == 0 ==> (r matches Ok(v) && v@ == ser_projective(
            identity(),
        )),
        r matches Ok(v) ==> v@.len() == ED_ON_BLS12_377_LEN,
{
    let n_bases = bases.len();
    let mut i_bases: usize = 0;
    while i_bases < n_bases
        invariant
            n_bases == bases@.len(),
            i_bases <= n_bases,
            forall|j: int| 0 <= j < i_bases ==> #[trigger] bases@[j]@.len() == ED_ON_BLS12_377_LEN,
        decreases n_bases - i_bases,
    {
        if bases[i_bases].len() != ED_ON_BLS12_377_LEN {
            return Err(Error::BadLength);
        }
        i_bases = i_bases + 1;
    }
    let n_scalars = scalars.len();
    let mut i_scalars: usize = 0;
    while i_scalars < n_scalars
        invariant
            n_scalars == scalars@.len(),
            i_scalars <= n_scalars,
            forall|j: int| 0 <= j < bases@.len() ==> #[trigger] bases@[j]@.len() == ED_ON_BLS12_377_LEN,
            forall|j: int| 0 <= j < i_scalars ==> #[trigger] scalars@[j]@.len() == ED_ON_BLS12_377_SCALAR_LEN,
        decreases n_scalars - i_scalars,
    {
        if scalars[i_scalars].len() != ED_ON_BLS12_377_SCALAR_LEN {
            return Err(Error::BadLength);
        }
        i_scalars = i_scalars + 1;
    }
    let mut vals_bases: Vec<AffinePoint> = Vec::new();
    let mut k_bases: usize = 0;
    while k_bases < n_bases
        invariant
            n_bases == bases@.len(),
            k_bases <= n_bases,
            vals_bases@.len() == k_bases,
            forall|j: int| 0 <= j < scalars@.len() ==> #[trigger] scalars@[j]@.len() == ED_ON_BLS12_377_SCALAR_LEN,
            forall|j: int| 0 <= j < n_bases ==> #[trigger] bases@[j]@.len() == ED_ON_BLS12_377_LEN,
            forall|j: int, p: AffinePoint|
                #![trigger vals_bases@[j], ser_affine(p)]
                0 <= j < k_bases && bases@[j]@ == ser_affine(p) ==> vals_bases@[j] == p,
            forall|j: int|
                0 <= j < k_bases ==> parse_of_affine(#[trigger] bases@[j]@) == Some(vals_bases@[j]),
        decreases n_bases - k_bases,
    {
        let pt = match parse_affine(&bases[k_bases]) {
            Some(p) => p,
            None => {
                proof {
                    assert forall|ps: Seq<AffinePoint>, qs: Seq<ScalarElement>|
                        (affine_seq_canon(bases@, ps) && scalar_seq_canon(scalars@, qs)) || (
                        affine_seq_parsed(bases@, ps) && scalar_seq_parsed(scalars@, qs)) implies false by {
                        assert(affine_canon(bases@[k_bases as int]@, ps[k_bases as int]) || parse_of_affine(bases@[k_bases as int]@) == Some(ps[k_bases as int]));
                    }
                }
                return Err(Error::BadFieldElement);
            },
        };
        vals_bases.push(pt);
        k_bases = k_bases + 1;
    }
    let mut vals_scalars: Vec<ScalarElement> = Vec::new();
    let mut k_scalars: usize = 0;
    while k_scalars < n_scalars
        invariant
            n_scalars == scalars@.len(),
            k_scalars <= n_scalars,
            vals_scalars@.len() == k_scalars,
            forall|j: int| 0 <= j < bases@.len() ==> #[trigger] bases@[j]@.len() == ED_ON_BLS12_377_LEN,
            vals_bases@.len() == bases@.len(),
            forall|j: int, p: AffinePoint|
                #![trigger vals_bases@[j], ser_affine(p)]
                0 <= j < vals_bases@.len() && bases@[j]@ == ser_affine(p) ==> vals_bases@[j] == p,
            forall|j: int|
                0 <= j < vals_bases@.len() ==> parse_of_affine(#[trigger] bases@[j]@) == Some(vals_bases@[j]),
            forall|j: int| 0 <= j < n_scalars ==> #[trigger] scalars@[j]@.len() == ED_ON_BLS12_377_SCALAR_LEN,
            forall|j: int, p: ScalarElement|
                #![trigger vals_scalars@[j], ser_scalar(p)]
                0 <= j < k_scalars && scalars@[j]@ == ser_scalar(p) ==> vals_scalars@[j] == p,
            forall|j: int|
                0 <= j < k_scalars ==> parse_of_scalar(#[trigger] scalars@[j]@) == Some(vals_scalars@[j]),
        decreases n_scalars - k_scalars,
    {
        let pt = match parse_scalar(&scalars[k_scalars]) {
            Some(p) => p,
            None => {
                proof {
                    assert forall|ps: Seq<AffinePoint>, qs: Seq<ScalarElement>|
                        (affine_seq_canon(bases@, ps) && scalar_seq_canon(scalars@, qs)) || (
                        affine_seq_parsed(bases@, ps) && scalar_seq_parsed(scalars@, qs)) implies false by {
                        assert(scalar_canon(scalars@[k_scalars as int]@, qs[k_scalars as int]) || parse_of_scalar(scalars@[k_scalars as int]@) == Some(qs[k_scalars as int]));
                    }
                }
                return Err(Error::BadFieldElement);
            },
        };
        vals_scalars.push(pt);
        k_scalars = k_scalars + 1;
    }
    if bases.len() != scalars.len() {
        return Err(Error::LengthMismatch);
    }
    let out = engine_msm(&vals_bases, &vals_scalars);
    proof {
        if bases@.len() == 0 {
            assert(vals_bases@ =~= Seq::<AffinePoint>::empty());
            assert(vals_scalars@ =~= Seq::<ScalarElement>::empty());
        }
        assert forall|ps: Seq<AffinePoint>, qs: Seq<ScalarElement>|
            (affine_seq_canon(bases@, ps) && scalar_seq_canon(scalars@, qs)) || (affine_seq_parsed(bases@, ps)
                && scalar_seq_parsed(scalars@, qs)) implies vals_bases@ == ps && vals_scalars@ == qs by {
            assert forall|j: int| 0 <= j < ps.len() implies vals_bases@[j] == ps[j] by {
                assert(affine_canon(bases@[j]@, ps[j]) || parse_of_affine(bases@[j]@) == Some(ps[j]));
            }
            assert forall|j: int| 0 <= j < qs.len() implies vals_scalars@[j] == qs[j] by {
                assert(scalar_canon(scalars@[j]@, qs[j]) || parse_of_scalar(scalars@[j]@) == Some(qs[j]));
            }
            assert(vals_bases@ =~= ps);
            assert(vals_scalars@ =~= qs);
        }
    }
    Ok(encode_projective(&out))
}

} // verus!
