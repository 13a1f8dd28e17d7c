use bellman_ce::groth16::{create_proof, generate_parameters, Parameters};
use bellman_ce::{Circuit, ConstraintSystem, SynthesisError};
use groth16_verifier::{
    parse_bls_proof, parse_bn_proof, parse_bn_vkey, prepare_verifying_key, verify_encoded, verify_proof,
    CurveFamily, ProofStr, Scalar, Verdict, VerifyError, VkeyStr,
};
use pairing_ce::bn256::{Bn256, Fr, G1Affine, G1, G2};
use pairing_ce::ff::{Field, PrimeField};
use pairing_ce::{CurveAffine, CurveProjective, EncodedPoint};

fn fr(numeral: &str) -> Fr {
    Fr::from_str(numeral).unwrap()
}

/// One round of a cubing round function: the image `(xl + k)^3 + xr` is the
/// only public input.
struct BnRound {
    xl: Option<Fr>,
    xr: Option<Fr>,
    k: Fr,
}

impl Circuit<Bn256> for BnRound {
    fn synthesize<CS: ConstraintSystem<Bn256>>(self, cs: &mut CS) -> Result<(), SynthesisError> {
        let k = self.k;
        let xl_value = self.xl;
        let xr_value = self.xr;
        let xl = cs.alloc(|| "xl", || xl_value.ok_or(SynthesisError::AssignmentMissing))?;
        let xr = cs.alloc(|| "xr", || xr_value.ok_or(SynthesisError::AssignmentMissing))?;
        let shifted = xl_value.map(|mut x| {
            x.add_assign(&k);
            x
        });
        let square_value = shifted.map(|mut x| {
            x.square();
            x
        });
        let square = cs.alloc(|| "square", || square_value.ok_or(SynthesisError::AssignmentMissing))?;
        cs.enforce(
            || "square = (xl + k)^2",
            |lc| lc + xl + (k, CS::one()),
            |lc| lc + xl + (k, CS::one()),
            |lc| lc + square,
        );
        let image_value = match (square_value, shifted, xr_value) {
            (Some(mut sq), Some(sh), Some(r)) => {
                sq.mul_assign(&sh);
                sq.add_assign(&r);
                Some(sq)
            }
            _ => None,
        };
        let image =
            cs.alloc_input(|| "image", || image_value.ok_or(SynthesisError::AssignmentMissing))?;
        cs.enforce(
            || "image = square * (xl + k) + xr",
            |lc| lc + square,
            |lc| lc + xl + (k, CS::one()),
            |lc| lc + image - xr,
        );
        Ok(())
    }
}

/// A circuit without public inputs: it knows a factorisation of 35.
struct BnFactors {
    p: Option<Fr>,
    q: Option<Fr>,
}

impl Circuit<Bn256> for BnFactors {
    fn synthesize<CS: ConstraintSystem<Bn256>>(self, cs: &mut CS) -> Result<(), SynthesisError> {
        let p_value = self.p;
        let q_value = self.q;
        let p = cs.alloc(|| "p", || p_value.ok_or(SynthesisError::AssignmentMissing))?;
        let q = cs.alloc(|| "q", || q_value.ok_or(SynthesisError::AssignmentMissing))?;
        cs.enforce(|| "p * q = 35", |lc| lc + p, |lc| lc + q, |lc| lc + (fr("35"), CS::one()));
        Ok(())
    }
}

fn bn_setup<C: Circuit<Bn256>>(circuit: C) -> Parameters<Bn256> {
    generate_parameters::<Bn256, C>(
        circuit,
        G1::one(),
        G2::one(),
        fr("11"),
        fr("13"),
        fr("17"),
        fr("19"),
        fr("123456789"),
    )
    .unwrap()
}

fn bn_key_record(params: &Parameters<Bn256>) -> VkeyStr {
    VkeyStr {
        alpha_1: params.vk.alpha_g1.into_uncompressed().as_ref().to_vec(),
        beta_2: params.vk.beta_g2.into_uncompressed().as_ref().to_vec(),
        gamma_2: params.vk.gamma_g2.into_uncompressed().as_ref().to_vec(),
        delta_2: params.vk.delta_g2.into_uncompressed().as_ref().to_vec(),
        ic: params.vk.ic.iter().map(|p| p.into_uncompressed().as_ref().to_vec()).collect(),
    }
}

fn bn_proof_record(proof: &bellman_ce::groth16::Proof<Bn256>) -> ProofStr {
    ProofStr {
        pi_a: proof.a.into_uncompressed().as_ref().to_vec(),
        pi_b: proof.b.into_uncompressed().as_ref().to_vec(),
        pi_c: proof.c.into_uncompressed().as_ref().to_vec(),
    }
}

/// A key and a proof that `(1 + 1)^3 + 25 = 33`, both as records of bytes.
fn bn_round_fixture() -> (VkeyStr, ProofStr, bellman_ce::groth16::Proof<Bn256>, Parameters<Bn256>) {
    let params = bn_setup(BnRound { xl: None, xr: None, k: fr("1") });
    let circuit = BnRound { xl: Some(fr("1")), xr: Some(fr("25")), k: fr("1") };
    let proof = create_proof(circuit, &params, fr("29"), fr("31")).unwrap();
    (bn_key_record(&params), bn_proof_record(&proof), proof, params)
}

fn bn_input(numeral: &str) -> Scalar {
    Scalar::from_decimal(numeral, CurveFamily::Bn256).unwrap()
}

#[test]
fn snark_proof_bellman_bn_verify() {
    let (vkey, pof, _, _) = bn_round_fixture();
    let proof = parse_bn_proof(&pof).unwrap();
    let verificationkey = parse_bn_vkey(&vkey).unwrap();
    let pvk = prepare_verifying_key(&verificationkey).unwrap();
    assert!(verify_proof(&pvk, &proof, &[bn_input("33")]).is_ok());
}

#[test]
fn bn_any_other_input_fails_verification() {
    let (vkey, pof, _, _) = bn_round_fixture();
    let proof = parse_bn_proof(&pof).unwrap();
    let pvk = prepare_verifying_key(&parse_bn_vkey(&vkey).unwrap()).unwrap();
    for numeral in ["0", "1", "32", "34", "330", "21888242871839275222246405745257275088548364400416034343698204186575808495616"] {
        assert_eq!(
            verify_proof(&pvk, &proof, &[bn_input(numeral)]),
            Err(VerifyError::VerificationFailed)
        );
    }
}

#[test]
fn bn_input_is_read_modulo_the_group_order() {
    // 33 plus the order of the scalar field stands for the same scalar as 33.
    let (vkey, pof, _, _) = bn_round_fixture();
    let proof = parse_bn_proof(&pof).unwrap();
    let pvk = prepare_verifying_key(&parse_bn_vkey(&vkey).unwrap()).unwrap();
    let wrapped = bn_input("21888242871839275222246405745257275088548364400416034343698204186575808495650");
    assert_eq!(wrapped.to_bytes_be(), bn_input("33").to_bytes_be());
    assert_eq!(verify_proof(&pvk, &proof, &[wrapped]), Ok(()));
}

#[test]
fn bn_verdict_agrees_with_the_prover_library() {
    let (vkey, pof, outside_proof, params) = bn_round_fixture();
    let proof = parse_bn_proof(&pof).unwrap();
    let pvk = prepare_verifying_key(&parse_bn_vkey(&vkey).unwrap()).unwrap();
    let outside_pvk = bellman_ce::groth16::prepare_verifying_key(&params.vk);
    for value in [0u64, 7, 33, 34, 1000] {
        let numeral = value.to_string();
        let ours = verify_proof(&pvk, &proof, &[bn_input(&numeral)]).is_ok();
        let theirs =
            bellman_ce::groth16::verify_proof(&outside_pvk, &outside_proof, &[fr(&numeral)]).unwrap();
        assert_eq!(ours, theirs);
        assert_eq!(ours, value == 33);
    }
}

#[test]
fn bn_wrong_number_of_inputs_is_malformed_input() {
    let (vkey, pof, _, _) = bn_round_fixture();
    let proof = parse_bn_proof(&pof).unwrap();
    let pvk = prepare_verifying_key(&parse_bn_vkey(&vkey).unwrap()).unwrap();
    assert_eq!(pvk.ic().len(), 2);
    assert_eq!(verify_proof(&pvk, &proof, &[]), Err(VerifyError::MalformedInput));
    assert_eq!(
        verify_proof(&pvk, &proof, &[bn_input("33"), bn_input("33")]),
        Err(VerifyError::MalformedInput)
    );
}

#[test]
fn bn_input_of_the_other_family_is_malformed_input() {
    let (vkey, pof, _, _) = bn_round_fixture();
    let proof = parse_bn_proof(&pof).unwrap();
    let pvk = prepare_verifying_key(&parse_bn_vkey(&vkey).unwrap()).unwrap();
    let foreign = Scalar::from_decimal("33", CurveFamily::Bls12_381).unwrap();
    assert_eq!(verify_proof(&pvk, &proof, &[foreign]), Err(VerifyError::MalformedInput));
}

#[test]
fn bn_key_without_public_inputs_verifies_on_the_constant_term() {
    let params = bn_setup(BnFactors { p: None, q: None });
    let circuit = BnFactors { p: Some(fr("5")), q: Some(fr("7")) };
    let outside_proof = create_proof(circuit, &params, fr("3"), fr("4")).unwrap();
    let vkey = bn_key_record(&params);
    assert_eq!(vkey.ic.len(), 1);
    let proof = parse_bn_proof(&bn_proof_record(&outside_proof)).unwrap();
    let pvk = prepare_verifying_key(&parse_bn_vkey(&vkey).unwrap()).unwrap();
    assert_eq!(verify_proof(&pvk, &proof, &[]), Ok(()));
    assert_eq!(verify_proof(&pvk, &proof, &[bn_input("1")]), Err(VerifyError::MalformedInput));
}

#[test]
fn bn_changed_point_a_fails_verification() {
    let (vkey, mut pof, outside_proof, _) = bn_round_fixture();
    // Another valid point in place of `a`: twice the point.
    let mut doubled = outside_proof.a.into_projective();
    doubled.double();
    let doubled: G1Affine = doubled.into_affine();
    pof.pi_a = doubled.into_uncompressed().as_ref().to_vec();
    let proof = parse_bn_proof(&pof).unwrap();
    let pvk = prepare_verifying_key(&parse_bn_vkey(&vkey).unwrap()).unwrap();
    assert_eq!(verify_proof(&pvk, &proof, &[bn_input("33")]), Err(VerifyError::VerificationFailed));
}

#[test]
fn bn_single_bit_flips_in_a_never_verify() {
    let (vkey, pof, _, _) = bn_round_fixture();
    let pvk = prepare_verifying_key(&parse_bn_vkey(&vkey).unwrap()).unwrap();
    for bit in 0..(64 * 8) {
        let mut flipped = pof.clone();
        flipped.pi_a[bit / 8] ^= 1 << (bit % 8);
        match parse_bn_proof(&flipped) {
            Ok(proof) => assert_eq!(
                verify_proof(&pvk, &proof, &[bn_input("33")]),
                Err(VerifyError::VerificationFailed)
            ),
            Err(e) => assert_eq!(e, VerifyError::MalformedEncoding),
        }
    }
}

#[test]
fn bn_prepared_key_is_the_same_each_time() {
    let (vkey, _, _, _) = bn_round_fixture();
    let key = parse_bn_vkey(&vkey).unwrap();
    let first = prepare_verifying_key(&key).unwrap();
    let second = prepare_verifying_key(&key).unwrap();
    assert_eq!(first.alpha_g1_beta_g2().as_bytes(), second.alpha_g1_beta_g2().as_bytes());
    assert_eq!(first.neg_gamma_g2().as_bytes(), second.neg_gamma_g2().as_bytes());
    assert_eq!(first.neg_delta_g2().as_bytes(), second.neg_delta_g2().as_bytes());
    assert_eq!(first.ic().len(), key.ic().len());
    for (ours, theirs) in first.ic().iter().zip(key.ic().iter()) {
        assert_eq!(ours.as_bytes(), theirs.as_bytes());
    }
    assert_ne!(first.neg_gamma_g2().as_bytes(), key.gamma_g2().as_bytes());
}

#[test]
fn bn_records_do_not_read_in_the_other_family() {
    let (_, pof, _, _) = bn_round_fixture();
    assert_eq!(parse_bls_proof(&pof).err(), Some(VerifyError::MalformedEncoding));
}

#[test]
fn bn_records_are_verified_in_one_step() {
    let (vkey, pof, _, _) = bn_round_fixture();
    let family = CurveFamily::Bn256;
    assert_eq!(verify_encoded(&vkey, &pof, &[bn_input("33")], family), Ok(()));
    assert_eq!(
        verify_encoded(&vkey, &pof, &[bn_input("34")], family),
        Err(VerifyError::VerificationFailed)
    );
    assert_eq!(verify_encoded(&vkey, &pof, &[], family), Err(VerifyError::MalformedInput));
    let mut cut = pof.clone();
    cut.pi_c.pop();
    assert_eq!(
        verify_encoded(&vkey, &cut, &[bn_input("33")], family),
        Err(VerifyError::MalformedEncoding)
    );
    let mut empty = vkey.clone();
    empty.ic.clear();
    assert_eq!(
        verify_encoded(&empty, &pof, &[bn_input("33")], family),
        Err(VerifyError::MalformedVerifyingKey)
    );
    // The proof is read before the key.
    assert_eq!(
        verify_encoded(&empty, &cut, &[bn_input("33")], family),
        Err(VerifyError::MalformedEncoding)
    );
}

#[test]
fn bn_outcomes_make_three_verdicts() {
    let (vkey, pof, _, _) = bn_round_fixture();
    let family = CurveFamily::Bn256;
    let accepted = verify_encoded(&vkey, &pof, &[bn_input("33")], family);
    assert_eq!(Verdict::of(&accepted), Verdict::Accepted);
    let rejected = verify_encoded(&vkey, &pof, &[bn_input("3")], family);
    assert_eq!(Verdict::of(&rejected), Verdict::Rejected);
    let malformed = verify_encoded(&vkey, &pof, &[], family);
    assert_eq!(Verdict::of(&malformed), Verdict::Malformed);
    for e in [
        VerifyError::MalformedEncoding,
        VerifyError::MalformedPoint,
        VerifyError::MalformedVerifyingKey,
        VerifyError::MalformedInput,
    ] {
        assert_eq!(Verdict::of(&Err(e)), Verdict::Malformed);
    }
}
