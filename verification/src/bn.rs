//! What this library takes from the `pairing_ce` crate, for its BN256
//! curve. Nothing in this file is proved: each contract restates what that
//! crate's source shows.
//!
//! Points cross this boundary in their canonical uncompressed encoding, and
//! elements of the target field in the text that the crate prints for them.

use crate::encoding::{be_value, decimal_value, identity_encoding, is_decimal_numeral, rows_view};
use crate::family::bn256_scalar_modulus;
use pairing_ce::bn256::{Bn256, Fr, FrRepr, G1Affine, G1Prepared, G1Uncompressed};
use pairing_ce::bn256::{G2Affine, G2Prepared, G2Uncompressed};
use pairing_ce::ff::{PrimeField, PrimeFieldRepr};
use pairing_ce::{CurveAffine, CurveProjective, EncodedPoint, Engine};
use vstd::prelude::*;

verus! {

/// What `G1Uncompressed::into_affine` makes of 64 bytes: nothing, or a
/// point, given as the encoding that `into_uncompressed` writes.
pub uninterp spec fn bn_g1_decoded(bytes: Seq<u8>) -> Option<Seq<u8>>;

/// What `G2Uncompressed::into_affine` makes of 128 bytes: nothing, or a
/// point, given as the encoding that `into_uncompressed` writes.
pub uninterp spec fn bn_g2_decoded(bytes: Seq<u8>) -> Option<Seq<u8>>;

/// The encoding of the sum of the G1 points that `a` and `b` encode.
pub uninterp spec fn bn_g1_sum(a: Seq<u8>, b: Seq<u8>) -> Seq<u8>;

/// The encoding of `k` times the G1 point that `p` encodes.
pub uninterp spec fn bn_g1_scaled(p: Seq<u8>, k: nat) -> Seq<u8>;

/// The encoding of the negation of the G2 point that `q` encodes.
pub uninterp spec fn bn_g2_negated(q: Seq<u8>) -> Seq<u8>;

/// The encoding of the G2 point that `q` encodes, multiplied by the order of
/// the scalar field.
pub uninterp spec fn bn_g2_order_multiple(q: Seq<u8>) -> Seq<u8>;

/// The text of the target-field element that is the product of the pairings
/// of `g1s[i]` with `g2s[i]`, where the final exponentiation is defined.
pub uninterp spec fn bn_pairing_product(g1s: Seq<Seq<u8>>, g2s: Seq<Seq<u8>>) -> Option<
    Seq<u8>,
>;

/// `p` is the encoding that the crate writes for some point of G1.
pub open spec fn bn_g1_is_point(p: Seq<u8>) -> bool {
    p.len() == 64 && bn_g1_decoded(p) == Some(p)
}

/// `q` is the encoding that the crate writes for some point on the curve
/// of G2, in the prime-order subgroup or not.
pub open spec fn bn_g2_is_point(q: Seq<u8>) -> bool {
    q.len() == 128 && bn_g2_decoded(q) == Some(q)
}

/// `G1Uncompressed::into_affine`, which accepts coordinates on the curve,
/// followed by `into_uncompressed`. The result is named; an encoding that
/// comes out decodes to itself.
#[verifier::external_body]
pub(crate) fn bn_g1_from_uncompressed(bytes: &[u8]) -> (r: Option<Vec<u8>>)
    requires
        bytes@.len() == 64,
    ensures
        r is None ==> bn_g1_decoded(bytes@) is None,
        r matches Some(c) ==> bn_g1_decoded(bytes@) == Some(c@) && bn_g1_is_point(c@),
{
    let enc = G1Uncompressed::from_fixed_bytes(bytes.try_into().unwrap());
    enc.into_affine().ok().map(|p| p.into_uncompressed().as_ref().to_vec())
}

/// `G2Uncompressed::into_affine`, which accepts coordinates on the curve
/// and does not ask whether the point is in the prime-order subgroup,
/// followed by `into_uncompressed`. The result is named; an encoding that
/// comes out decodes to itself.
#[verifier::external_body]
pub(crate) fn bn_g2_from_uncompressed(bytes: &[u8]) -> (r: Option<Vec<u8>>)
    requires
        bytes@.len() == 128,
    ensures
        r is None ==> bn_g2_decoded(bytes@) is None,
        r matches Some(c) ==> bn_g2_decoded(bytes@) == Some(c@) && bn_g2_is_point(c@),
{
    let enc = G2Uncompressed::from_fixed_bytes(bytes.try_into().unwrap());
    enc.into_affine().ok().map(|q| q.into_uncompressed().as_ref().to_vec())
}

/// `G1Affine::zero`, encoded: the infinity bit and 511 zero bits.
#[verifier::external_body]
pub(crate) fn bn_g1_identity() -> (r: Vec<u8>)
    ensures
        r@ == identity_encoding(64),
        bn_g1_is_point(r@),
{
    G1Affine::zero().into_uncompressed().as_ref().to_vec()
}

/// Addition in G1 (`add_assign_mixed`). The sum is named, and is again the
/// encoding of a point.
#[verifier::external_body]
pub(crate) fn bn_g1_add(a: &[u8], b: &[u8]) -> (r: Vec<u8>)
    requires
        bn_g1_is_point(a@),
        bn_g1_is_point(b@),
    ensures
        r@ == bn_g1_sum(a@, b@),
        bn_g1_is_point(r@),
{
    let pa = G1Uncompressed::from_fixed_bytes(a.try_into().unwrap()).into_affine().unwrap();
    let pb = G1Uncompressed::from_fixed_bytes(b.try_into().unwrap()).into_affine().unwrap();
    let mut sum = pa.into_projective();
    sum.add_assign_mixed(&pb);
    sum.into_affine().into_uncompressed().as_ref().to_vec()
}

/// Scalar multiplication in G1 (`CurveAffine::mul`), with the scalar read
/// from 32 big-endian bytes. The multiple is named, and is again the
/// encoding of a point.
#[verifier::external_body]
pub(crate) fn bn_g1_mul(p: &[u8], k: &[u8]) -> (r: Vec<u8>)
    requires
        bn_g1_is_point(p@),
        k@.len() == 32,
    ensures
        r@ == bn_g1_scaled(p@, be_value(k@)),
        bn_g1_is_point(r@),
{
    let point = G1Uncompressed::from_fixed_bytes(p.try_into().unwrap()).into_affine().unwrap();
    let mut repr = FrRepr::default();
    repr.read_be(k).unwrap();
    point.mul(repr).into_affine().into_uncompressed().as_ref().to_vec()
}

/// Negation in G2 (`CurveAffine::negate`). The negation is named, and is
/// again the encoding of a point.
#[verifier::external_body]
pub(crate) fn bn_g2_neg(q: &[u8]) -> (r: Vec<u8>)
    requires
        bn_g2_is_point(q@),
    ensures
        r@ == bn_g2_negated(q@),
        bn_g2_is_point(r@),
{
    let mut point = G2Uncompressed::from_fixed_bytes(q.try_into().unwrap()).into_affine().unwrap();
    point.negate();
    point.into_uncompressed().as_ref().to_vec()
}

/// `CurveAffine::mul` in G2 by `Fr::char()`, the order of the scalar field.
/// The multiple is named, and is again the encoding of a point.
#[verifier::external_body]
pub(crate) fn bn_g2_mul_by_order(q: &[u8]) -> (r: Vec<u8>)
    requires
        bn_g2_is_point(q@),
    ensures
        r@ == bn_g2_order_multiple(q@),
        bn_g2_is_point(r@),
{
    let point = G2Uncompressed::from_fixed_bytes(q.try_into().unwrap()).into_affine().unwrap();
    point.mul(Fr::char()).into_affine().into_uncompressed().as_ref().to_vec()
}

/// `Bn256::miller_loop` over the pairs `(g1s[i], g2s[i])`, each component
/// prepared by `CurveAffine::prepare`, then `Bn256::final_exponentiation`,
/// which gives nothing where the loop's result has no inverse. The result
/// is named, as the text that `Display` writes for it.
#[verifier::external_body]
pub(crate) fn bn_multi_pairing(g1s: &Vec<Vec<u8>>, g2s: &Vec<Vec<u8>>) -> (r: Option<Vec<u8>>)
    requires
        g1s@.len() == g2s@.len(),
        forall|i: int| 0 <= i < g1s@.len() ==> bn_g1_is_point(#[trigger] g1s@[i]@),
        forall|i: int| 0 <= i < g2s@.len() ==> bn_g2_is_point(#[trigger] g2s@[i]@),
    ensures
        r is None ==> bn_pairing_product(rows_view(g1s@), rows_view(g2s@)) is None,
        r matches Some(t) ==> bn_pairing_product(rows_view(g1s@), rows_view(g2s@)) == Some(t@),
{
    let ps: Vec<G1Prepared> = g1s.iter().map(
        |b| G1Uncompressed::from_fixed_bytes(b[..].try_into().unwrap()).into_affine().unwrap().prepare(),
    ).collect();
    let qs: Vec<G2Prepared> = g2s.iter().map(
        |b| G2Uncompressed::from_fixed_bytes(b[..].try_into().unwrap()).into_affine().unwrap().prepare(),
    ).collect();
    let terms: Vec<(&G1Prepared, &G2Prepared)> = ps.iter().zip(qs.iter()).collect();
    Bn256::final_exponentiation(&Bn256::miller_loop(terms.iter())).map(|f| f.to_string().into_bytes())
}

/// `Fr::from_str`, followed by `into_repr` and `write_be`. It accepts
/// exactly the decimal numerals in shortest form, and gives the numeral's
/// value reduced by the field's order, in 32 big-endian bytes.
#[verifier::external_body]
pub(crate) fn bn_scalar_from_decimal(s: &str) -> (r: Option<Vec<u8>>)
    ensures
        r is Some <==> is_decimal_numeral(s@),
        r matches Some(k) ==> k@.len() == 32 && be_value(k@) == decimal_value(s@)
            % bn256_scalar_modulus(),
{
    let mut out: Vec<u8> = Vec::new();
    Fr::from_str(s).map(|x| x.into_repr().write_be(&mut out).unwrap()).map(|_| out)
}

} // verus!
