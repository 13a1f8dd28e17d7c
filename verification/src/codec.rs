//! Decoding of points from fixed-width, big-endian, uncompressed buffers,
//! and the encoding that inverts it.

use crate::curve::{
    exec_g1_decoded, exec_g2_decoded, exec_g2_in_subgroup, g1_decoded, g2_decoded,
    g2_in_subgroup,
};
use crate::encoding::copy_bytes;
use crate::error::VerifyError;
use crate::family::CurveFamily;
use crate::point::{G1Point, G2Point};
use vstd::prelude::*;

verus! {

/// What decoding a G1 buffer gives: the canonical encoding of the point,
/// `MalformedEncoding` for a buffer that is not exactly as wide as the
/// family's G1 points, or `MalformedPoint` for coordinates that the family's
/// decoder does not accept.
pub open spec fn decode_g1_spec(bytes: Seq<u8>, family: CurveFamily) -> Result<
    Seq<u8>,
    VerifyError,
> {
    if bytes.len() != family.spec_g1_width() {
        Err(VerifyError::MalformedEncoding)
    } else {
        match g1_decoded(family, bytes) {
            Some(point) => Ok(point),
            None => Err(VerifyError::MalformedPoint),
        }
    }
}

/// What decoding a G2 buffer gives: the canonical encoding of the point,
/// `MalformedEncoding` for a buffer that is not exactly as wide as the
/// family's G2 points, or `MalformedPoint` for coordinates that the family's
/// decoder does not accept or that are not in the prime-order subgroup.
pub open spec fn decode_g2_spec(bytes: Seq<u8>, family: CurveFamily) -> Result<
    Seq<u8>,
    VerifyError,
> {
    if bytes.len() != family.spec_g2_width() {
        Err(VerifyError::MalformedEncoding)
    } else {
        match g2_decoded(family, bytes) {
            Some(point) => if g2_in_subgroup(family, point) {
                Ok(point)
            } else {
                Err(VerifyError::MalformedPoint)
            },
            None => Err(VerifyError::MalformedPoint),
        }
    }
}

/// Decodes a point of G1 from its uncompressed encoding in `family`.
///
/// A buffer of any other width than the family's is rejected: it is never
/// padded or cut.
pub fn decode_g1(bytes: &[u8], family: CurveFamily) -> (r: Result<G1Point, VerifyError>)
    ensures
        r matches Ok(p) ==> p.wf() && p.family() == family && decode_g1_spec(bytes@, family)
            == Ok::<Seq<u8>, VerifyError>(p@),
        r matches Err(e) ==> decode_g1_spec(bytes@, family) == Err::<Seq<u8>, VerifyError>(e),
{
    if bytes.len() != family.g1_width() {
        return Err(VerifyError::MalformedEncoding);
    }
    match exec_g1_decoded(family, bytes) {
        Some(point) => Ok(G1Point::from_canonical(family, point)),
        None => Err(VerifyError::MalformedPoint),
    }
}

/// Decodes a point of G2 from its uncompressed encoding in `family`.
///
/// A buffer of any other width than the family's is rejected: it is never
/// padded or cut.
pub fn decode_g2(bytes: &[u8], family: CurveFamily) -> (r: Result<G2Point, VerifyError>)
    ensures
        r matches Ok(p) ==> p.wf() && p.family() == family && decode_g2_spec(bytes@, family)
            == Ok::<Seq<u8>, VerifyError>(p@),
        r matches Err(e) ==> decode_g2_spec(bytes@, family) == Err::<Seq<u8>, VerifyError>(e),
{
    if bytes.len() != family.g2_width() {
        return Err(VerifyError::MalformedEncoding);
    }
    match exec_g2_decoded(family, bytes) {
        Some(point) => {
            if exec_g2_in_subgroup(family, point.as_slice()) {
                Ok(G2Point::from_canonical(family, point))
            } else {
                Err(VerifyError::MalformedPoint)
            }
        },
        None => Err(VerifyError::MalformedPoint),
    }
}

/// The uncompressed encoding of a point of G1.
pub fn encode_g1(p: &G1Point) -> (r: Vec<u8>)
    ensures
        r@ == p@,
        r@.len() == p.family().spec_g1_width(),
{
    copy_bytes(p.as_bytes())
}

/// The uncompressed encoding of a point of G2.
pub fn encode_g2(p: &G2Point) -> (r: Vec<u8>)
    ensures
        r@ == p@,
        r@.len() == p.family().spec_g2_width(),
{
    copy_bytes(p.as_bytes())
}

/// Decoding the encoding of a point of G1 gives the point back.
pub proof fn lemma_g1_round_trip(p: G1Point)
    requires
        p.wf(),
    ensures
        decode_g1_spec(p@, p.family()) == Ok::<Seq<u8>, VerifyError>(p@),
{
}

/// Decoding the encoding of a point of G2 gives the point back.
pub proof fn lemma_g2_round_trip(p: G2Point)
    requires
        p.wf(),
    ensures
        decode_g2_spec(p@, p.family()) == Ok::<Seq<u8>, VerifyError>(p@),
{
}

/// A buffer as wide as the points of one family never decodes in the other
/// family, in G1 or in G2.
pub proof fn lemma_families_do_not_mix(bytes: Seq<u8>, width_of: CurveFamily, decoded_in: CurveFamily)
    requires
        width_of != decoded_in,
    ensures
        bytes.len() == width_of.spec_g1_width() ==> decode_g1_spec(bytes, decoded_in) == Err::<
            Seq<u8>,
            VerifyError,
        >(VerifyError::MalformedEncoding),
        bytes.len() == width_of.spec_g2_width() ==> decode_g2_spec(bytes, decoded_in) == Err::<
            Seq<u8>,
            VerifyError,
        >(VerifyError::MalformedEncoding),
{
}

} // verus!
