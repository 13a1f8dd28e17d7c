//! The group and pairing operations of both curve families, chosen by the
//! family tag. Each operation is carried out by the family's curve library;
//! its result is described here by a specification function of the same
//! name without the `exec_` prefix.

use crate::bls::{
    bls_g1_add, bls_g1_decoded, bls_g1_from_uncompressed, bls_g1_identity, bls_g1_scaled,
    bls_g1_sum, bls_g2_decoded, bls_g2_from_uncompressed, bls_g2_neg, bls_g2_negated,
    bls_multi_pairing, bls_pairing_product,
};
use crate::bn::{
    bn_g1_add, bn_g1_decoded, bn_g1_from_uncompressed, bn_g1_identity, bn_g1_scaled, bn_g1_sum,
    bn_g2_decoded, bn_g2_from_uncompressed, bn_g2_mul_by_order, bn_g2_neg, bn_g2_negated,
    bn_g2_order_multiple, bn_multi_pairing, bn_pairing_product,
};
use crate::encoding::{identity_encoding, is_identity_encoding, rows_view};
use crate::family::CurveFamily;
use vstd::prelude::*;

verus! {

/// What the family's decoder makes of a G1 buffer of the right width:
/// nothing, or the canonical encoding of the point it stands for.
pub open spec fn g1_decoded(family: CurveFamily, bytes: Seq<u8>) -> Option<Seq<u8>> {
    match family {
        CurveFamily::Bls12_381 => bls_g1_decoded(bytes),
        CurveFamily::Bn256 => bn_g1_decoded(bytes),
    }
}

/// What the family's decoder makes of a G2 buffer of the right width:
/// nothing, or the canonical encoding of the curve point it stands for.
pub open spec fn g2_decoded(family: CurveFamily, bytes: Seq<u8>) -> Option<Seq<u8>> {
    match family {
        CurveFamily::Bls12_381 => bls_g2_decoded(bytes),
        CurveFamily::Bn256 => bn_g2_decoded(bytes),
    }
}

/// `p` is the canonical encoding of a point of the family's G1.
pub open spec fn g1_is_point(family: CurveFamily, p: Seq<u8>) -> bool {
    p.len() == family.spec_g1_width() && g1_decoded(family, p) == Some(p)
}

/// `q` is the canonical encoding of a point on the curve that hosts the
/// family's G2.
pub open spec fn g2_on_curve(family: CurveFamily, q: Seq<u8>) -> bool {
    q.len() == family.spec_g2_width() && g2_decoded(family, q) == Some(q)
}

/// The curve point that `q` encodes lies in the prime-order subgroup G2.
///
/// The decoder of the 381-bit family checks this itself. For the 256-bit
/// family the point is multiplied by the group order and must vanish.
pub open spec fn g2_in_subgroup(family: CurveFamily, q: Seq<u8>) -> bool {
    match family {
        CurveFamily::Bls12_381 => true,
        CurveFamily::Bn256 => bn_g2_order_multiple(q) == identity_encoding(128),
    }
}

/// `q` is the canonical encoding of a point of the family's G2.
pub open spec fn g2_is_point(family: CurveFamily, q: Seq<u8>) -> bool {
    g2_on_curve(family, q) && g2_in_subgroup(family, q)
}

/// The encoding of the sum of two G1 points.
pub open spec fn g1_sum(family: CurveFamily, a: Seq<u8>, b: Seq<u8>) -> Seq<u8> {
    match family {
        CurveFamily::Bls12_381 => bls_g1_sum(a, b),
        CurveFamily::Bn256 => bn_g1_sum(a, b),
    }
}

/// The encoding of `k` times a G1 point.
pub open spec fn g1_scaled(family: CurveFamily, p: Seq<u8>, k: nat) -> Seq<u8> {
    match family {
        CurveFamily::Bls12_381 => bls_g1_scaled(p, k),
        CurveFamily::Bn256 => bn_g1_scaled(p, k),
    }
}

/// The encoding of the negation of a G2 point.
pub open spec fn g2_negated(family: CurveFamily, q: Seq<u8>) -> Seq<u8> {
    match family {
        CurveFamily::Bls12_381 => bls_g2_negated(q),
        CurveFamily::Bn256 => bn_g2_negated(q),
    }
}

/// The product, in the target group, of the pairings of `g1s[i]` with
/// `g2s[i]`; nothing where the family's final exponentiation is undefined.
pub open spec fn pairing_product(
    family: CurveFamily,
    g1s: Seq<Seq<u8>>,
    g2s: Seq<Seq<u8>>,
) -> Option<Seq<u8>> {
    match family {
        CurveFamily::Bls12_381 => Some(bls_pairing_product(g1s, g2s)),
        CurveFamily::Bn256 => bn_pairing_product(g1s, g2s),
    }
}

pub(crate) fn exec_g1_decoded(family: CurveFamily, bytes: &[u8]) -> (r: Option<Vec<u8>>)
    requires
        bytes@.len() == family.spec_g1_width(),
    ensures
        r is None ==> g1_decoded(family, bytes@) is None,
        r matches Some(c) ==> g1_decoded(family, bytes@) == Some(c@) && g1_is_point(family, c@),
{
    match family {
        CurveFamily::Bls12_381 => bls_g1_from_uncompressed(bytes),
        CurveFamily::Bn256 => bn_g1_from_uncompressed(bytes),
    }
}

pub(crate) fn exec_g2_decoded(family: CurveFamily, bytes: &[u8]) -> (r: Option<Vec<u8>>)
    requires
        bytes@.len() == family.spec_g2_width(),
    ensures
        r is None ==> g2_decoded(family, bytes@) is None,
        r matches Some(c) ==> g2_decoded(family, bytes@) == Some(c@) && g2_on_curve(family, c@),
{
    match family {
        CurveFamily::Bls12_381 => bls_g2_from_uncompressed(bytes),
        CurveFamily::Bn256 => bn_g2_from_uncompressed(bytes),
    }
}

pub(crate) fn exec_g2_in_subgroup(family: CurveFamily, q: &[u8]) -> (r: bool)
    requires
        g2_on_curve(family, q@),
    ensures
        r == g2_in_subgroup(family, q@),
{
    match family {
        CurveFamily::Bls12_381 => true,
        CurveFamily::Bn256 => {
            let multiple = bn_g2_mul_by_order(q);
            is_identity_encoding(multiple.as_slice())
        },
    }
}

pub(crate) fn exec_g1_identity(family: CurveFamily) -> (r: Vec<u8>)
    ensures
        r@ == identity_encoding(family.spec_g1_width()),
        g1_is_point(family, r@),
{
    match family {
        CurveFamily::Bls12_381 => bls_g1_identity(),
        CurveFamily::Bn256 => bn_g1_identity(),
    }
}

pub(crate) fn exec_g1_sum(family: CurveFamily, a: &[u8], b: &[u8]) -> (r: Vec<u8>)
    requires
        g1_is_point(family, a@),
        g1_is_point(family, b@),
    ensures
        r@ == g1_sum(family, a@, b@),
        g1_is_point(family, r@),
{
    match family {
        CurveFamily::Bls12_381 => bls_g1_add(a, b),
        CurveFamily::Bn256 => bn_g1_add(a, b),
    }
}

pub(crate) fn exec_g2_negated(family: CurveFamily, q: &[u8]) -> (r: Vec<u8>)
    requires
        g2_on_curve(family, q@),
    ensures
        r@ == g2_negated(family, q@),
        g2_on_curve(family, r@),
{
    match family {
        CurveFamily::Bls12_381 => bls_g2_neg(q),
        CurveFamily::Bn256 => bn_g2_neg(q),
    }
}

pub(crate) fn exec_pairing_product(
    family: CurveFamily,
    g1s: &Vec<Vec<u8>>,
    g2s: &Vec<Vec<u8>>,
) -> (r: Option<Vec<u8>>)
    requires
        g1s@.len() == g2s@.len(),
        forall|i: int| 0 <= i < g1s@.len() ==> g1_is_point(family, #[trigger] g1s@[i]@),
        forall|i: int| 0 <= i < g2s@.len() ==> g2_on_curve(family, #[trigger] g2s@[i]@),
    ensures
        r is None ==> pairing_product(family, rows_view(g1s@), rows_view(g2s@)) is None,
        r matches Some(t) ==> pairing_product(family, rows_view(g1s@), rows_view(g2s@)) == Some(
            t@,
        ),
{
    match family {
        CurveFamily::Bls12_381 => Some(bls_multi_pairing(g1s, g2s)),
        CurveFamily::Bn256 => bn_multi_pairing(g1s, g2s),
    }
}

} // verus!
