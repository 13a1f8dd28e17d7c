use vstd::prelude::*;

verus! {

/// A proof as it arrives: three byte sequences, each the big-endian
/// uncompressed encoding of a point in the target curve family.
#[derive(Clone, Debug, PartialEq, Eq)]
pub struct ProofStr {
    /// The G1 point `a`.
    pub pi_a: Vec<u8>,
    /// The G2 point `b`.
    pub pi_b: Vec<u8>,
    /// The G1 point `c`.
    pub pi_c: Vec<u8>,
}

/// A verifying key as it arrives: byte sequences, each the big-endian
/// uncompressed encoding of a point in the target curve family.
///
/// The G1 forms of beta and delta are not part of it: only a prover needs
/// them.
#[derive(Clone, Debug, PartialEq, Eq)]
pub struct VkeyStr {
    /// The G1 point alpha.
    pub alpha_1: Vec<u8>,
    /// The G2 point beta.
    pub beta_2: Vec<u8>,
    /// The G2 point gamma.
    pub gamma_2: Vec<u8>,
    /// The G2 point delta.
    pub delta_2: Vec<u8>,
    /// The G1 basis points: first the one of the constant term, then one
    /// for each public input.
    pub ic: Vec<Vec<u8>>,
}

} // verus!
