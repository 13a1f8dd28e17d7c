//! Reading proofs and verifying keys from records of raw byte sequences.

use crate::codec::{decode_g1, decode_g1_spec, decode_g2, decode_g2_spec};
use crate::encoding::identity_encoding;
use crate::error::VerifyError;
use crate::family::CurveFamily;
use crate::point::{G1Point, G2Point};
use crate::records::{
    all_proper, points_view, Proof, ProofView, VerifyingKey, VerifyingKeyView,
};
use crate::types::{ProofStr, VkeyStr};
use vstd::prelude::*;

verus! {

/// The G1 point that a field of a record holds: the point that the field
/// decodes to, unless it is the identity.
pub open spec fn g1_component(bytes: Seq<u8>, family: CurveFamily) -> Option<Seq<u8>> {
    match decode_g1_spec(bytes, family) {
        Ok(p) => if p != identity_encoding(family.spec_g1_width()) {
            Some(p)
        } else {
            None
        },
        Err(_) => None,
    }
}

/// The G2 point that a field of a record holds: the point that the field
/// decodes to, unless it is the identity.
pub open spec fn g2_component(bytes: Seq<u8>, family: CurveFamily) -> Option<Seq<u8>> {
    match decode_g2_spec(bytes, family) {
        Ok(q) => if q != identity_encoding(family.spec_g2_width()) {
            Some(q)
        } else {
            None
        },
        Err(_) => None,
    }
}

/// The proof that a record holds in `family`, or `MalformedEncoding` where
/// one of its three fields holds no point.
pub open spec fn parse_proof_spec(pof: ProofStr, family: CurveFamily) -> Result<
    ProofView,
    VerifyError,
> {
    match (
        g1_component(pof.pi_a@, family),
        g2_component(pof.pi_b@, family),
        g1_component(pof.pi_c@, family),
    ) {
        (Some(a), Some(b), Some(c)) => Ok(ProofView { family, a, b, c }),
        _ => Err(VerifyError::MalformedEncoding),
    }
}

/// Every entry of `ic` holds a point in `family`.
pub open spec fn ic_components_hold(ic: Seq<Vec<u8>>, family: CurveFamily) -> bool {
    forall|i: int| 0 <= i < ic.len() ==> (#[trigger] g1_component(ic[i]@, family)) is Some
}

/// The points that the entries of `ic` hold in `family`.
pub open spec fn ic_components(ic: Seq<Vec<u8>>, family: CurveFamily) -> Seq<Seq<u8>> {
    Seq::new(ic.len(), |i: int| g1_component(ic[i]@, family).unwrap())
}

/// The verifying key that a record holds in `family`:
/// `MalformedVerifyingKey` where `ic` is empty, else `MalformedEncoding`
/// where one of the fields or entries holds no point. The G1 forms of beta
/// and delta, which the record does not have, are the identity.
pub open spec fn parse_vkey_spec(vk: VkeyStr, family: CurveFamily) -> Result<
    VerifyingKeyView,
    VerifyError,
> {
    if vk.ic@.len() == 0 {
        Err(VerifyError::MalformedVerifyingKey)
    } else {
        match (
            g1_component(vk.alpha_1@, family),
            g2_component(vk.beta_2@, family),
            g2_component(vk.gamma_2@, family),
            g2_component(vk.delta_2@, family),
        ) {
            (Some(alpha_g1), Some(beta_g2), Some(gamma_g2), Some(delta_g2)) => if ic_components_hold(
                vk.ic@,
                family,
            ) {
                Ok(
                    VerifyingKeyView {
                        family,
                        alpha_g1,
                        beta_g1: identity_encoding(family.spec_g1_width()),
                        beta_g2,
                        gamma_g2,
                        delta_g1: identity_encoding(family.spec_g1_width()),
                        delta_g2,
                        ic: ic_components(vk.ic@, family),
                    },
                )
            } else {
                Err(VerifyError::MalformedEncoding)
            },
            _ => Err(VerifyError::MalformedEncoding),
        }
    }
}

fn read_g1_component(bytes: &[u8], family: CurveFamily) -> (r: Option<G1Point>)
    ensures
        r is None ==> g1_component(bytes@, family) is None,
        r matches Some(p) ==> p.wf() && p.family() == family && !p.is_identity() && g1_component(
            bytes@,
            family,
        ) == Some(p@),
{
    match decode_g1(bytes, family) {
        Ok(p) => if p.is_identity() {
            None
        } else {
            Some(p)
        },
        Err(_) => None,
    }
}

fn read_g2_component(bytes: &[u8], family: CurveFamily) -> (r: Option<G2Point>)
    ensures
        r is None ==> g2_component(bytes@, family) is None,
        r matches Some(q) ==> q.wf() && q.family() == family && !q.is_identity() && g2_component(
            bytes@,
            family,
        ) == Some(q@),
{
    match decode_g2(bytes, family) {
        Ok(q) => if q.is_identity() {
            None
        } else {
            Some(q)
        },
        Err(_) => None,
    }
}

/// Reads a proof from a record of byte sequences in `family`.
///
/// Each field must be exactly as wide as the family's encoding of its point
/// and must decode to a point other than the identity.
pub fn parse_proof(pof: &ProofStr, family: CurveFamily) -> (r: Result<Proof, VerifyError>)
    ensures
        r matches Ok(p) ==> p.wf() && parse_proof_spec(*pof, family) == Ok::<
            ProofView,
            VerifyError,
        >(p@),
        r matches Err(e) ==> parse_proof_spec(*pof, family) == Err::<ProofView, VerifyError>(e),
{
    let a = match read_g1_component(pof.pi_a.as_slice(), family) {
        Some(a) => a,
        None => {
            return Err(VerifyError::MalformedEncoding);
        },
    };
    let b = match read_g2_component(pof.pi_b.as_slice(), family) {
        Some(b) => b,
        None => {
            return Err(VerifyError::MalformedEncoding);
        },
    };
    let c = match read_g1_component(pof.pi_c.as_slice(), family) {
        Some(c) => c,
        None => {
            return Err(VerifyError::MalformedEncoding);
        },
    };
    Ok(Proof::from_points(a, b, c))
}

/// Reads a verifying key from a record of byte sequences in `family`.
///
/// There must be at least one entry in `ic`. Each field and entry must be
/// exactly as wide as the family's encoding of its point and must decode to
/// a point other than the identity. The G1 forms of beta and delta are not
/// in the record: the key holds the identity for both.
pub fn parse_vkey(vk: &VkeyStr, family: CurveFamily) -> (r: Result<VerifyingKey, VerifyError>)
    ensures
        r matches Ok(key) ==> key.wf() && parse_vkey_spec(*vk, family) == Ok::<
            VerifyingKeyView,
            VerifyError,
        >(key@),
        r matches Err(e) ==> parse_vkey_spec(*vk, family) == Err::<VerifyingKeyView, VerifyError>(
            e,
        ),
{
    if vk.ic.len() == 0 {
        return Err(VerifyError::MalformedVerifyingKey);
    }
    let alpha_g1 = match read_g1_component(vk.alpha_1.as_slice(), family) {
        Some(p) => p,
        None => {
            return Err(VerifyError::MalformedEncoding);
        },
    };
    let beta_g2 = match read_g2_component(vk.beta_2.as_slice(), family) {
        Some(q) => q,
        None => {
            return Err(VerifyError::MalformedEncoding);
        },
    };
    let gamma_g2 = match read_g2_component(vk.gamma_2.as_slice(), family) {
        Some(q) => q,
        None => {
            return Err(VerifyError::MalformedEncoding);
        },
    };
    let delta_g2 = match read_g2_component(vk.delta_2.as_slice(), family) {
        Some(q) => q,
        None => {
            return Err(VerifyError::MalformedEncoding);
        },
    };
    let mut ic: Vec<G1Point> = Vec::new();
    let mut i: usize = 0;
    while i < vk.ic.len()
        invariant
            i <= vk.ic@.len(),
            ic@.len() == i,
            all_proper(family, ic@),
            forall|j: int| 0 <= j < i ==> g1_component(vk.ic@[j]@, family) == Some(ic@[j]@),
        decreases vk.ic@.len() - i,
    {
        match read_g1_component(vk.ic[i].as_slice(), family) {
            Some(p) => {
                ic.push(p);
            },
            None => {
                return Err(VerifyError::MalformedEncoding);
            },
        }
        i += 1;
    }
    assert(ic_components_hold(vk.ic@, family)) by {
        assert forall|j: int| 0 <= j < vk.ic@.len() implies (#[trigger] g1_component(
            vk.ic@[j]@,
            family,
        )) is Some by {
            assert(g1_component(vk.ic@[j]@, family) == Some(ic@[j]@));
        }
    }
    assert(points_view(ic@) =~= ic_components(vk.ic@, family));
    let beta_g1 = G1Point::identity(family);
    let delta_g1 = G1Point::identity(family);
    Ok(VerifyingKey::from_points(alpha_g1, beta_g1, beta_g2, gamma_g2, delta_g1, delta_g2, ic))
}

/// Reads a proof from a record of byte sequences in the 381-bit family.
pub fn parse_bls_proof(pof: &ProofStr) -> (r: Result<Proof, VerifyError>)
    ensures
        r matches Ok(p) ==> p.wf() && parse_proof_spec(*pof, CurveFamily::Bls12_381) == Ok::<
            ProofView,
            VerifyError,
        >(p@),
        r matches Err(e) ==> parse_proof_spec(*pof, CurveFamily::Bls12_381) == Err::<
            ProofView,
            VerifyError,
        >(e),
{
    parse_proof(pof, CurveFamily::Bls12_381)
}

/// Reads a verifying key from a record of byte sequences in the 381-bit
/// family.
pub fn parse_bls_vkey(vk: &VkeyStr) -> (r: Result<VerifyingKey, VerifyError>)
    ensures
        r matches Ok(key) ==> key.wf() && parse_vkey_spec(*vk, CurveFamily::Bls12_381) == Ok::<
            VerifyingKeyView,
            VerifyError,
        >(key@),
        r matches Err(e) ==> parse_vkey_spec(*vk, CurveFamily::Bls12_381) == Err::<
            VerifyingKeyView,
            VerifyError,
        >(e),
{
    parse_vkey(vk, CurveFamily::Bls12_381)
}

/// Reads a proof from a record of byte sequences in the 256-bit family.
pub fn parse_bn_proof(pof: &ProofStr) -> (r: Result<Proof, VerifyError>)
    ensures
        r matches Ok(p) ==> p.wf() && parse_proof_spec(*pof, CurveFamily::Bn256) == Ok::<
            ProofView,
            VerifyError,
        >(p@),
        r matches Err(e) ==> parse_proof_spec(*pof, CurveFamily::Bn256) == Err::<
            ProofView,
            VerifyError,
        >(e),
{
    parse_proof(pof, CurveFamily::Bn256)
}

/// Reads a verifying key from a record of byte sequences in the 256-bit
/// family.
pub fn parse_bn_vkey(vk: &VkeyStr) -> (r: Result<VerifyingKey, VerifyError>)
    ensures
        r matches Ok(key) ==> key.wf() && parse_vkey_spec(*vk, CurveFamily::Bn256) == Ok::<
            VerifyingKeyView,
            VerifyError,
        >(key@),
        r matches Err(e) ==> parse_vkey_spec(*vk, CurveFamily::Bn256) == Err::<
            VerifyingKeyView,
            VerifyError,
        >(e),
{
    parse_vkey(vk, CurveFamily::Bn256)
}

} // verus!
