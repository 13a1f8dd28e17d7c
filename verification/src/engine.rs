//! The Groth16 check: preparing a verifying key, and verifying a proof
//! against a prepared key and the public inputs.

use crate::curve::{
    exec_g1_sum, exec_pairing_product, g1_is_point, g1_scaled, g1_sum, g2_negated,
    pairing_product,
};
use crate::encoding::{copy_bytes, rows_view};
use crate::error::VerifyError;
use crate::family::CurveFamily;
use crate::point::{PreparedG2, TargetElement};
use crate::records::{
    all_proper, copy_points, points_view, PreparedVerifyingKey, PreparedVerifyingKeyView, Proof,
    ProofView, VerifyingKey, VerifyingKeyView,
};
use crate::parser::{parse_proof, parse_proof_spec, parse_vkey, parse_vkey_spec};
use crate::scalar::Scalar;
use crate::types::{ProofStr, VkeyStr};
use vstd::prelude::*;

verus! {

/// What preparing a verifying key gives: the pairing of alpha with beta,
/// the negations of gamma and delta, and the basis points unchanged; or
/// `MalformedVerifyingKey` where the key has no basis point or the pairing
/// of alpha with beta is undefined.
pub open spec fn prepare_spec(vk: VerifyingKeyView) -> Result<
    PreparedVerifyingKeyView,
    VerifyError,
> {
    if vk.ic.len() == 0 {
        Err(VerifyError::MalformedVerifyingKey)
    } else {
        match pairing_product(vk.family, seq![vk.alpha_g1], seq![vk.beta_g2]) {
            Some(alpha_g1_beta_g2) => Ok(
                PreparedVerifyingKeyView {
                    family: vk.family,
                    alpha_g1_beta_g2,
                    neg_gamma_g2: g2_negated(vk.family, vk.gamma_g2),
                    neg_delta_g2: g2_negated(vk.family, vk.delta_g2),
                    ic: vk.ic,
                },
            ),
            None => Err(VerifyError::MalformedVerifyingKey),
        }
    }
}

/// The numbers that the scalars in `inputs` stand for.
pub open spec fn scalar_values(inputs: Seq<Scalar>) -> Seq<nat> {
    Seq::new(inputs.len(), |i: int| inputs[i]@)
}

/// The basis point of the constant term plus, for each of the first `n`
/// inputs, the input times its basis point:
/// `ic[0] + inputs[0] * ic[1] + ... + inputs[n - 1] * ic[n]`.
pub open spec fn accumulate(family: CurveFamily, ic: Seq<Seq<u8>>, inputs: Seq<nat>, n: nat) -> Seq<
    u8,
>
    decreases n,
{
    if n == 0 {
        ic[0]
    } else {
        g1_sum(
            family,
            accumulate(family, ic, inputs, (n - 1) as nat),
            g1_scaled(family, ic[n as int], inputs[n - 1]),
        )
    }
}

/// The inputs fit the key: there is one for each basis point but the first,
/// and key, proof and inputs are of one curve family.
pub open spec fn inputs_fit(
    pvk: PreparedVerifyingKeyView,
    proof: ProofView,
    inputs: Seq<Scalar>,
) -> bool {
    &&& inputs.len() + 1 == pvk.ic.len()
    &&& proof.family == pvk.family
    &&& forall|i: int| 0 <= i < inputs.len() ==> (#[trigger] inputs[i]).family() == pvk.family
}

/// The pairing equation of Groth16: with `acc` the combination of the
/// basis points by the inputs,
/// `e(a, b) * e(acc, -gamma) * e(c, -delta) == e(alpha, beta)`.
pub open spec fn pairing_equation_holds(
    pvk: PreparedVerifyingKeyView,
    proof: ProofView,
    inputs: Seq<nat>,
) -> bool {
    let acc = accumulate(pvk.family, pvk.ic, inputs, inputs.len());
    pairing_product(
        pvk.family,
        seq![proof.a, acc, proof.c],
        seq![proof.b, pvk.neg_gamma_g2, pvk.neg_delta_g2],
    ) == Some(pvk.alpha_g1_beta_g2)
}

/// The verdict on a proof: `MalformedInput` where the inputs do not fit the
/// key, else acceptance exactly where the pairing equation holds, and
/// `VerificationFailed` where it does not.
pub open spec fn verify_spec(
    pvk: PreparedVerifyingKeyView,
    proof: ProofView,
    inputs: Seq<Scalar>,
) -> Result<(), VerifyError> {
    if !inputs_fit(pvk, proof, inputs) {
        Err(VerifyError::MalformedInput)
    } else if pairing_equation_holds(pvk, proof, scalar_values(inputs)) {
        Ok(())
    } else {
        Err(VerifyError::VerificationFailed)
    }
}

/// A buffer that holds `bytes` and nothing else.
fn single_row(bytes: &[u8]) -> (rows: Vec<Vec<u8>>)
    ensures
        rows@.len() == 1,
        rows@[0]@ == bytes@,
        rows_view(rows@) == seq![bytes@],
{
    let mut rows: Vec<Vec<u8>> = Vec::new();
    rows.push(copy_bytes(bytes));
    assert(rows_view(rows@) =~= seq![bytes@]);
    rows
}

/// Buffers that hold `first`, `second` and `third`, in this order.
fn three_rows(first: &[u8], second: &[u8], third: &[u8]) -> (rows: Vec<Vec<u8>>)
    ensures
        rows@.len() == 3,
        rows@[0]@ == first@,
        rows@[1]@ == second@,
        rows@[2]@ == third@,
        rows_view(rows@) == seq![first@, second@, third@],
{
    let mut rows: Vec<Vec<u8>> = Vec::new();
    rows.push(copy_bytes(first));
    rows.push(copy_bytes(second));
    rows.push(copy_bytes(third));
    assert(rows_view(rows@) =~= seq![first@, second@, third@]);
    rows
}

/// Prepares a verifying key for repeated use.
///
/// The pairing of alpha with beta is computed once, gamma and delta are
/// negated, and the basis points are copied. The result depends on the key
/// alone.
pub fn prepare_verifying_key(vk: &VerifyingKey) -> (r: Result<PreparedVerifyingKey, VerifyError>)
    ensures
        r matches Ok(pvk) ==> pvk.wf() && prepare_spec(vk@) == Ok::<
            PreparedVerifyingKeyView,
            VerifyError,
        >(pvk@),
        r matches Err(e) ==> prepare_spec(vk@) == Err::<PreparedVerifyingKeyView, VerifyError>(e),
{
    let family = vk.family();
    let points = vk.ic();
    if points.len() == 0 {
        return Err(VerifyError::MalformedVerifyingKey);
    }
    let g1s = single_row(vk.alpha_g1().as_bytes());
    let g2s = single_row(vk.beta_g2().as_bytes());
    let text = match exec_pairing_product(family, &g1s, &g2s) {
        Some(text) => text,
        None => {
            return Err(VerifyError::MalformedVerifyingKey);
        },
    };
    let alpha_g1_beta_g2 = TargetElement::from_text(family, text);
    let neg_gamma_g2 = PreparedG2::negation_of(vk.gamma_g2());
    let neg_delta_g2 = PreparedG2::negation_of(vk.delta_g2());
    let ic = copy_points(points, Ghost(family));
    Ok(PreparedVerifyingKey::from_parts(alpha_g1_beta_g2, neg_gamma_g2, neg_delta_g2, ic))
}

/// Whether every scalar in `inputs` is of `family`.
fn all_of_family(inputs: &[Scalar], family: CurveFamily) -> (r: bool)
    ensures
        r == forall|i: int| 0 <= i < inputs@.len() ==> (#[trigger] inputs@[i]).family() == family,
{
    let mut i: usize = 0;
    while i < inputs.len()
        invariant
            i <= inputs@.len(),
            forall|j: int| 0 <= j < i ==> (#[trigger] inputs@[j]).family() == family,
        decreases inputs@.len() - i,
    {
        if !inputs[i].family().same(family) {
            return false;
        }
        i += 1;
    }
    true
}

/// Combines the basis points of `pvk` by the inputs.
fn accumulate_inputs(pvk: &PreparedVerifyingKey, inputs: &[Scalar]) -> (acc: Vec<u8>)
    requires
        inputs@.len() + 1 == pvk@.ic.len(),
        forall|i: int| 0 <= i < inputs@.len() ==> (#[trigger] inputs@[i]).family() == pvk@.family,
    ensures
        acc@ == accumulate(pvk@.family, pvk@.ic, scalar_values(inputs@), inputs@.len()),
        g1_is_point(pvk@.family, acc@),
{
    let family = pvk.family();
    let points = pvk.ic();
    let ghost values = scalar_values(inputs@);
    let mut acc = copy_bytes(points[0].as_bytes());
    let mut i: usize = 0;
    while i < inputs.len()
        invariant
            i <= inputs@.len(),
            inputs@.len() + 1 == points@.len(),
            family == pvk@.family,
            values == scalar_values(inputs@),
            points_view(points@) == pvk@.ic,
            all_proper(family, points@),
            forall|j: int| 0 <= j < inputs@.len() ==> (#[trigger] inputs@[j]).family() == family,
            acc@ == accumulate(family, pvk@.ic, values, i as nat),
            g1_is_point(family, acc@),
        decreases inputs@.len() - i,
    {
        let term = inputs[i].scale_g1(points[i + 1].as_bytes());
        assert(pvk@.ic[i + 1] == points@[i + 1]@);
        assert(values[i as int] == inputs@[i as int]@);
        acc = exec_g1_sum(family, acc.as_slice(), term.as_slice());
        i += 1;
    }
    acc
}

/// Verifies a proof against a prepared verifying key and the public inputs.
///
/// That the inputs fit the key is checked before any curve arithmetic. A
/// proof that does not satisfy the pairing equation is reported as
/// `VerificationFailed`, apart from every malformed input.
pub fn verify_proof(pvk: &PreparedVerifyingKey, proof: &Proof, public_inputs: &[Scalar]) -> (r:
    Result<(), VerifyError>)
    ensures
        r == verify_spec(pvk@, proof@, public_inputs@),
{
    let family = pvk.family();
    let points = pvk.ic();
    if points.len() - 1 != public_inputs.len() {
        return Err(VerifyError::MalformedInput);
    }
    if !proof.family().same(family) {
        return Err(VerifyError::MalformedInput);
    }
    if !all_of_family(public_inputs, family) {
        return Err(VerifyError::MalformedInput);
    }
    let acc = accumulate_inputs(pvk, public_inputs);
    let g1s = three_rows(proof.a().as_bytes(), acc.as_slice(), proof.c().as_bytes());
    let g2s = three_rows(
        proof.b().as_bytes(),
        pvk.neg_gamma_g2().as_bytes(),
        pvk.neg_delta_g2().as_bytes(),
    );
    match exec_pairing_product(family, &g1s, &g2s) {
        Some(text) => {
            let product = TargetElement::from_text(family, text);
            if product.eq(pvk.alpha_g1_beta_g2()) {
                Ok(())
            } else {
                Err(VerifyError::VerificationFailed)
            }
        },
        None => Err(VerifyError::VerificationFailed),
    }
}

/// The verdict on a proof and a key that are still records of bytes: the
/// first error met in reading the proof, reading the key and preparing the
/// key, in this order, else the verdict of `verify_spec`.
pub open spec fn verify_encoded_spec(
    vkey: VkeyStr,
    pof: ProofStr,
    inputs: Seq<Scalar>,
    family: CurveFamily,
) -> Result<(), VerifyError> {
    match parse_proof_spec(pof, family) {
        Err(e) => Err(e),
        Ok(proof) => match parse_vkey_spec(vkey, family) {
            Err(e) => Err(e),
            Ok(key) => match prepare_spec(key) {
                Err(e) => Err(e),
                Ok(pvk) => verify_spec(pvk, proof, inputs),
            },
        },
    }
}

/// Verifies a proof against a verifying key, both given as records of
/// bytes in `family`: reads the proof, reads and prepares the key, and
/// verifies.
pub fn verify_encoded(
    vkey: &VkeyStr,
    pof: &ProofStr,
    public_inputs: &[Scalar],
    family: CurveFamily,
) -> (r: Result<(), VerifyError>)
    ensures
        r == verify_encoded_spec(*vkey, *pof, public_inputs@, family),
{
    let proof = match parse_proof(pof, family) {
        Ok(proof) => proof,
        Err(e) => {
            return Err(e);
        },
    };
    let key = match parse_vkey(vkey, family) {
        Ok(key) => key,
        Err(e) => {
            return Err(e);
        },
    };
    let pvk = match prepare_verifying_key(&key) {
        Ok(pvk) => pvk,
        Err(e) => {
            return Err(e);
        },
    };
    verify_proof(&pvk, &proof, public_inputs)
}

/// With a key that has only the basis point of the constant term, and no
/// public inputs, the verdict rests on that basis point alone: the proof is
/// accepted exactly where
/// `e(a, b) * e(ic[0], -gamma) * e(c, -delta) == e(alpha, beta)`.
pub proof fn lemma_verify_without_inputs(pvk: PreparedVerifyingKeyView, proof: ProofView)
    requires
        pvk.ic.len() == 1,
        proof.family == pvk.family,
    ensures
        verify_spec(pvk, proof, Seq::<Scalar>::empty()) == (if pairing_product(
            pvk.family,
            seq![proof.a, pvk.ic[0], proof.c],
            seq![proof.b, pvk.neg_gamma_g2, pvk.neg_delta_g2],
        ) == Some(pvk.alpha_g1_beta_g2) {
            Ok::<(), VerifyError>(())
        } else {
            Err::<(), VerifyError>(VerifyError::VerificationFailed)
        }),
{
    let inputs = Seq::<Scalar>::empty();
    assert(scalar_values(inputs).len() == 0);
    assert(accumulate(pvk.family, pvk.ic, scalar_values(inputs), 0) == pvk.ic[0]);
}

/// Where the number of public inputs is not the number of basis points
/// less one, be it one too few or any other number, the verdict is
/// `MalformedInput`, whatever the proof.
pub proof fn lemma_wrong_number_of_inputs(
    pvk: PreparedVerifyingKeyView,
    proof: ProofView,
    inputs: Seq<Scalar>,
)
    requires
        inputs.len() + 1 != pvk.ic.len(),
    ensures
        verify_spec(pvk, proof, inputs) == Err::<(), VerifyError>(VerifyError::MalformedInput),
{
}

} // verus!
