//! The curve family registry: the four supported families and the fixed
//! byte widths of their uncompressed encodings.
//!
//! Every width is the sum of the coordinate field-element widths, where a
//! field element over a `b`-bit modulus occupies `ceil(b / 8)` bytes and
//! the coordinate that carries the encoding flags occupies
//! `ceil((b + f) / 8)` bytes for `f` flag bits (two for a short
//! Weierstrass point, none for a twisted Edwards point).  A projective
//! point is normalized to affine form before encoding, so both
//! representations of one group share a width.

use vstd::prelude::*;

verus! {

/// One of the four supported curve families.
#[derive(Clone, Copy, PartialEq, Eq, Structural, Debug)]
pub enum CurveFamily {
    /// BLS12-381: two groups and a pairing.
    Bls12_381,
    /// BW6-761: two groups and a pairing.
    Bw6_761,
    /// The twisted Edwards curve over the BLS12-377 scalar field.
    EdOnBls12_377,
    /// The curve over the BLS12-381 scalar field, exposed through both a
    /// short Weierstrass and a twisted Edwards model of the same group.
    EdOnBls12_381,
}

/// Which group of a family a point belongs to.
#[derive(Clone, Copy, PartialEq, Eq, Structural, Debug)]
pub enum GroupId {
    /// The first (or only) group.
    G1,
    /// The second group of a pairing-capable family.
    G2,
}

/// The curve equation model a codec works against.
#[derive(Clone, Copy, PartialEq, Eq, Structural, Debug)]
pub enum CurveModel {
    /// Short Weierstrass coordinates.
    ShortWeierstrass,
    /// Twisted Edwards coordinates.
    TwistedEdwards,
}

/// Affine or projective coordinates.
#[derive(Clone, Copy, PartialEq, Eq, Structural, Debug)]
pub enum PointRepr {
    /// Two coordinates, or a point-at-infinity flag.
    Affine,
    /// Three coordinates; encoded in normalized affine form.
    Projective,
}

/// Width of an uncompressed BLS12-381 G1 point.
pub const BLS12_381_G1_LEN: usize = 96;
/// Width of an uncompressed BLS12-381 G2 point.
pub const BLS12_381_G2_LEN: usize = 192;
/// Width of a BLS12-381 pairing-target element (twelfth-degree extension).
pub const BLS12_381_TARGET_LEN: usize = 576;
/// Width of a BLS12-381 scalar-field element.
pub const BLS12_381_SCALAR_LEN: usize = 32;

/// Width of an uncompressed BW6-761 G1 point.
pub const BW6_761_G1_LEN: usize = 192;
/// Width of an uncompressed BW6-761 G2 point.
pub const BW6_761_G2_LEN: usize = 192;
/// Width of a BW6-761 pairing-target element (sixth-degree extension).
pub const BW6_761_TARGET_LEN: usize = 576;
/// Width of a BW6-761 scalar-field element.
pub const BW6_761_SCALAR_LEN: usize = 48;

/// Width of an uncompressed point of the Edwards curve over the
/// BLS12-377 scalar field.
pub const ED_ON_BLS12_377_LEN: usize = 64;
/// Width of a scalar-field element of that curve.
pub const ED_ON_BLS12_377_SCALAR_LEN: usize = 32;

/// Width of an uncompressed twisted Edwards point of the curve over the
/// BLS12-381 scalar field.
pub const ED_ON_BLS12_381_TE_LEN: usize = 64;
/// Width of an uncompressed short Weierstrass point of the same group:
/// the two flag bits do not fit beside a 255-bit modulus, so the second
/// coordinate takes one extra byte.
pub const ED_ON_BLS12_381_SW_LEN: usize = 65;
/// Width of a scalar-field element of that curve.
pub const ED_ON_BLS12_381_SCALAR_LEN: usize = 32;

/// The width of an uncompressed point encoding, or `None` when the
/// family does not offer the given group and model.
pub open spec fn spec_point_encoded_len(
    f: CurveFamily,
    g: GroupId,
    m: CurveModel,
    r: PointRepr,
) -> Option<usize> {
    match (f, m) {
        (CurveFamily::Bls12_381, CurveModel::ShortWeierstrass) => match g {
            GroupId::G1 => Some(BLS12_381_G1_LEN),
            GroupId::G2 => Some(BLS12_381_G2_LEN),
        },
        (CurveFamily::Bw6_761, CurveModel::ShortWeierstrass) => match g {
            GroupId::G1 => Some(BW6_761_G1_LEN),
            GroupId::G2 => Some(BW6_761_G2_LEN),
        },
        (CurveFamily::EdOnBls12_377, CurveModel::TwistedEdwards) => match g {
            GroupId::G1 => Some(ED_ON_BLS12_377_LEN),
            GroupId::G2 => None,
        },
        (CurveFamily::EdOnBls12_381, CurveModel::ShortWeierstrass) => match g {
            GroupId::G1 => Some(ED_ON_BLS12_381_SW_LEN),
            GroupId::G2 => None,
        },
        (CurveFamily::EdOnBls12_381, CurveModel::TwistedEdwards) => match g {
            GroupId::G1 => Some(ED_ON_BLS12_381_TE_LEN),
            GroupId::G2 => None,
        },
        _ => None,
    }
}

/// The width of a scalar-field element of the family, as multi-scalar
/// multiplication expects its scalars.
pub open spec fn spec_scalar_encoded_len(f: CurveFamily) -> usize {
    match f {
        CurveFamily::Bls12_381 => BLS12_381_SCALAR_LEN,
        CurveFamily::Bw6_761 => BW6_761_SCALAR_LEN,
        CurveFamily::EdOnBls12_377 => ED_ON_BLS12_377_SCALAR_LEN,
        CurveFamily::EdOnBls12_381 => ED_ON_BLS12_381_SCALAR_LEN,
    }
}

/// The width of a pairing-target field element, or `None` for the
/// single-group families, which have no pairing.
pub open spec fn spec_target_encoded_len(f: CurveFamily) -> Option<usize> {
    match f {
        CurveFamily::Bls12_381 => Some(BLS12_381_TARGET_LEN),
        CurveFamily::Bw6_761 => Some(BW6_761_TARGET_LEN),
        CurveFamily::EdOnBls12_377 => None,
        CurveFamily::EdOnBls12_381 => None,
    }
}

/// Whether the family supports the two-stage pairing protocol.
pub open spec fn spec_supports_pairing(f: CurveFamily) -> bool {
    spec_target_encoded_len(f) is Some
}

/// Looks a point width up in the registry.
pub fn point_encoded_len(f: CurveFamily, g: GroupId, m: CurveModel, r: PointRepr) -> (res: Option<
    usize,
>)
    ensures
        res == spec_point_encoded_len(f, g, m, r),
{
    match (f, m) {
        (CurveFamily::Bls12_381, CurveModel::ShortWeierstrass) => match g {
            GroupId::G1 => Some(BLS12_381_G1_LEN),
            GroupId::G2 => Some(BLS12_381_G2_LEN),
        },
        (CurveFamily::Bw6_761, CurveModel::ShortWeierstrass) => match g {
            GroupId::G1 => Some(BW6_761_G1_LEN),
            GroupId::G2 => Some(BW6_761_G2_LEN),
        },
        (CurveFamily::EdOnBls12_377, CurveModel::TwistedEdwards) => match g {
            GroupId::G1 => Some(ED_ON_BLS12_377_LEN),
            GroupId::G2 => None,
        },
        (CurveFamily::EdOnBls12_381, CurveModel::ShortWeierstrass) => match g {
            GroupId::G1 => Some(ED_ON_BLS12_381_SW_LEN),
            GroupId::G2 => None,
        },
        (CurveFamily::EdOnBls12_381, CurveModel::TwistedEdwards) => match g {
            GroupId::G1 => Some(ED_ON_BLS12_381_TE_LEN),
            GroupId::G2 => None,
        },
        _ => None,
    }
}

/// Looks a scalar-field width up in the registry.
pub fn scalar_encoded_len(f: CurveFamily) -> (res: usize)
    ensures
        res == spec_scalar_encoded_len(f),
{
    match f {
        CurveFamily::Bls12_381 => BLS12_381_SCALAR_LEN,
        CurveFamily::Bw6_761 => BW6_761_SCALAR_LEN,
        CurveFamily::EdOnBls12_377 => ED_ON_BLS12_377_SCALAR_LEN,
        CurveFamily::EdOnBls12_381 => ED_ON_BLS12_381_SCALAR_LEN,
    }
}

/// Looks a pairing-target width up in the registry.
pub fn target_encoded_len(f: CurveFamily) -> (res: Option<usize>)
    ensures
        res == spec_target_encoded_len(f),
{
    match f {
        CurveFamily::Bls12_381 => Some(BLS12_381_TARGET_LEN),
        CurveFamily::Bw6_761 => Some(BW6_761_TARGET_LEN),
        CurveFamily::EdOnBls12_377 => None,
        CurveFamily::EdOnBls12_381 => None,
    }
}

/// Whether the family supports the two-stage pairing protocol.
pub fn supports_pairing(f: CurveFamily) -> (res: bool)
    ensures
        res == spec_supports_pairing(f),
{
    match f {
        CurveFamily::Bls12_381 => true,
        CurveFamily::Bw6_761 => true,
        CurveFamily::EdOnBls12_377 => false,
        CurveFamily::EdOnBls12_381 => false,
    }
}

} // verus!
