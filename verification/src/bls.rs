//! What this library takes from the `bls12_381` crate. Nothing in this file
//! is proved: each contract restates what that crate's source shows.
//!
//! Points cross this boundary in their canonical uncompressed encoding, and
//! elements of the target group in the text that the crate prints for them.

use crate::encoding::{decimal_value, identity_encoding, is_decimal_numeral, le_value, rows_view};
use crate::family::bls12_381_scalar_modulus;
use bls12_381::{multi_miller_loop, G1Affine, G1Projective, G2Affine, G2Prepared, Scalar};
use ff::PrimeField;
use vstd::prelude::*;

verus! {

/// What `G1Affine::from_uncompressed` makes of 96 bytes: nothing, or a
/// point, given as the encoding that `G1Affine::to_uncompressed` writes.
pub uninterp spec fn bls_g1_decoded(bytes: Seq<u8>) -> Option<Seq<u8>>;

/// What `G2Affine::from_uncompressed` makes of 192 bytes: nothing, or a
/// point, given as the encoding that `G2Affine::to_uncompressed` writes.
pub uninterp spec fn bls_g2_decoded(bytes: Seq<u8>) -> Option<Seq<u8>>;

/// The encoding of the sum of the G1 points that `a` and `b` encode.
pub uninterp spec fn bls_g1_sum(a: Seq<u8>, b: Seq<u8>) -> Seq<u8>;

/// The encoding of `k` times the G1 point that `p` encodes.
pub uninterp spec fn bls_g1_scaled(p: Seq<u8>, k: nat) -> Seq<u8>;

/// The encoding of the negation of the G2 point that `q` encodes.
pub uninterp spec fn bls_g2_negated(q: Seq<u8>) -> Seq<u8>;

/// The text of the target-group element that is the product of the pairings
/// of `g1s[i]` with `g2s[i]`.
pub uninterp spec fn bls_pairing_product(g1s: Seq<Seq<u8>>, g2s: Seq<Seq<u8>>) -> Seq<u8>;

/// `p` is the encoding that the crate writes for some point of G1.
pub open spec fn bls_g1_is_point(p: Seq<u8>) -> bool {
    p.len() == 96 && bls_g1_decoded(p) == Some(p)
}

/// `q` is the encoding that the crate writes for some point of G2.
pub open spec fn bls_g2_is_point(q: Seq<u8>) -> bool {
    q.len() == 192 && bls_g2_decoded(q) == Some(q)
}

/// `G1Affine::from_uncompressed`, which accepts coordinates on the curve and
/// in the prime-order subgroup, followed by `to_uncompressed`. The result is
/// named; an encoding that comes out decodes to itself.
#[verifier::external_body]
pub(crate) fn bls_g1_from_uncompressed(bytes: &[u8]) -> (r: Option<Vec<u8>>)
    requires
        bytes@.len() == 96,
    ensures
        r is None ==> bls_g1_decoded(bytes@) is None,
        r matches Some(c) ==> bls_g1_decoded(bytes@) == Some(c@) && bls_g1_is_point(c@),
{
    let arr: &[u8; 96] = bytes.try_into().unwrap();
    let p: Option<G1Affine> = Option::from(G1Affine::from_uncompressed(arr));
    p.map(|p| p.to_uncompressed().to_vec())
}

/// `G2Affine::from_uncompressed`, which accepts coordinates on the curve and
/// in the prime-order subgroup, followed by `to_uncompressed`. The result is
/// named; an encoding that comes out decodes to itself.
#[verifier::external_body]
pub(crate) fn bls_g2_from_uncompressed(bytes: &[u8]) -> (r: Option<Vec<u8>>)
    requires
        bytes@.len() == 192,
    ensures
        r is None ==> bls_g2_decoded(bytes@) is None,
        r matches Some(c) ==> bls_g2_decoded(bytes@) == Some(c@) && bls_g2_is_point(c@),
{
    let arr: &[u8; 192] = bytes.try_into().unwrap();
    let q: Option<G2Affine> = Option::from(G2Affine::from_uncompressed(arr));
    q.map(|q| q.to_uncompressed().to_vec())
}

/// `G1Affine::identity`, encoded: the infinity bit and 767 zero bits.
#[verifier::external_body]
pub(crate) fn bls_g1_identity() -> (r: Vec<u8>)
    ensures
        r@ == identity_encoding(96),
        bls_g1_is_point(r@),
{
    G1Affine::identity().to_uncompressed().to_vec()
}

/// Addition in G1 (`+` on `G1Projective` and `G1Affine`). The sum is named,
/// and is again the encoding of a point.
#[verifier::external_body]
pub(crate) fn bls_g1_add(a: &[u8], b: &[u8]) -> (r: Vec<u8>)
    requires
        bls_g1_is_point(a@),
        bls_g1_is_point(b@),
    ensures
        r@ == bls_g1_sum(a@, b@),
        bls_g1_is_point(r@),
{
    let pa = G1Affine::from_uncompressed(a.try_into().unwrap()).unwrap();
    let pb = G1Affine::from_uncompressed(b.try_into().unwrap()).unwrap();
    G1Affine::from(G1Projective::from(pa) + pb).to_uncompressed().to_vec()
}

/// Scalar multiplication in G1 (`*` on `G1Affine` and `Scalar`), with the
/// scalar read by `Scalar::from_bytes` from 32 little-endian bytes below the
/// modulus. The multiple is named, and is again the encoding of a point.
#[verifier::external_body]
pub(crate) fn bls_g1_mul(p: &[u8], k: &[u8]) -> (r: Vec<u8>)
    requires
        bls_g1_is_point(p@),
        k@.len() == 32,
        le_value(k@) < bls12_381_scalar_modulus(),
    ensures
        r@ == bls_g1_scaled(p@, le_value(k@)),
        bls_g1_is_point(r@),
{
    let point = G1Affine::from_uncompressed(p.try_into().unwrap()).unwrap();
    let scalar = Scalar::from_bytes(k.try_into().unwrap()).unwrap();
    G1Affine::from(point * scalar).to_uncompressed().to_vec()
}

/// Negation in G2 (`-` on `G2Affine`). The negation is named, and is again
/// the encoding of a point.
#[verifier::external_body]
pub(crate) fn bls_g2_neg(q: &[u8]) -> (r: Vec<u8>)
    requires
        bls_g2_is_point(q@),
    ensures
        r@ == bls_g2_negated(q@),
        bls_g2_is_point(r@),
{
    let point = G2Affine::from_uncompressed(q.try_into().unwrap()).unwrap();
    (-point).to_uncompressed().to_vec()
}

/// `multi_miller_loop` over the pairs `(g1s[i], g2s[i])`, each second
/// component prepared by `G2Prepared::from`, then `final_exponentiation`.
/// The result is named, as the text that `Display` writes for it.
#[verifier::external_body]
pub(crate) fn bls_multi_pairing(g1s: &Vec<Vec<u8>>, g2s: &Vec<Vec<u8>>) -> (r: Vec<u8>)
    requires
        g1s@.len() == g2s@.len(),
        forall|i: int| 0 <= i < g1s@.len() ==> bls_g1_is_point(#[trigger] g1s@[i]@),
        forall|i: int| 0 <= i < g2s@.len() ==> bls_g2_is_point(#[trigger] g2s@[i]@),
    ensures
        r@ == bls_pairing_product(rows_view(g1s@), rows_view(g2s@)),
{
    let ps: Vec<G1Affine> =
        g1s.iter().map(|b| G1Affine::from_uncompressed(b[..].try_into().unwrap()).unwrap()).collect();
    let qs: Vec<G2Prepared> = g2s.iter().map(
        |b| G2Prepared::from(G2Affine::from_uncompressed(b[..].try_into().unwrap()).unwrap()),
    ).collect();
    let terms: Vec<(&G1Affine, &G2Prepared)> = ps.iter().zip(qs.iter()).collect();
    multi_miller_loop(&terms).final_exponentiation().to_string().into_bytes()
}

/// `Scalar::from_str_vartime`, followed by `Scalar::to_bytes`. It accepts
/// exactly the decimal numerals in shortest form, and gives the numeral's
/// value reduced by the field's order, in 32 little-endian bytes.
#[verifier::external_body]
pub(crate) fn bls_scalar_from_decimal(s: &str) -> (r: Option<Vec<u8>>)
    ensures
        r is Some <==> is_decimal_numeral(s@),
        r matches Some(k) ==> k@.len() == 32 && le_value(k@) == decimal_value(s@)
            % bls12_381_scalar_modulus(),
{
    Scalar::from_str_vartime(s).map(|x| x.to_bytes().to_vec())
}

} // verus!
