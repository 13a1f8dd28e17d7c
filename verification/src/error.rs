use vstd::prelude::*;

verus! {

/// Why a proof was not accepted.
///
/// `VerificationFailed` is the ordinary verdict on a well-formed proof that
/// does not satisfy the pairing equation. Every other variant says that the
/// proof, the key or the inputs were not well-formed, so that no verdict on
/// the proof was reached.
#[derive(Clone, Copy, Debug, PartialEq, Eq, Structural)]
pub enum VerifyError {
    /// A byte buffer has the wrong width for its family, or a record holds a
    /// component that does not decode to an admissible point.
    MalformedEncoding,
    /// A buffer of the right width whose coordinates are not on the curve or
    /// not in the prime-order subgroup.
    MalformedPoint,
    /// The verifying key has no constant-term basis point, or it failed a
    /// consistency check while it was prepared.
    MalformedVerifyingKey,
    /// The public inputs do not fit the key.
    MalformedInput,
    /// Everything was well-formed, and the pairing equation does not hold.
    VerificationFailed,
}

/// The three answers that a caller can get: the proof is valid, the proof
/// is well-formed but wrong, or proof, key or inputs are not well-formed.
#[derive(Clone, Copy, Debug, PartialEq, Eq, Structural)]
pub enum Verdict {
    /// The pairing equation holds.
    Accepted,
    /// Everything was well-formed, and the pairing equation does not hold.
    Rejected,
    /// A buffer, a point, the key or the inputs were not well-formed.
    Malformed,
}

impl Verdict {
    /// The answer that an outcome of verification stands for.
    pub open spec fn spec_of(outcome: Result<(), VerifyError>) -> Verdict {
        match outcome {
            Ok(_) => Verdict::Accepted,
            Err(VerifyError::VerificationFailed) => Verdict::Rejected,
            Err(_) => Verdict::Malformed,
        }
    }

    /// The answer that an outcome of verification stands for.
    pub fn of(outcome: &Result<(), VerifyError>) -> (v: Verdict)
        ensures
            v == Verdict::spec_of(*outcome),
    {
        match outcome {
            Ok(_) => Verdict::Accepted,
            Err(VerifyError::VerificationFailed) => Verdict::Rejected,
            Err(_) => Verdict::Malformed,
        }
    }
}

/// Conditions that can arise in the proving system as a whole: during
/// parameter generation, proving or verification.
#[derive(Clone, Copy, Debug, PartialEq, Eq, Structural)]
pub enum SynthesisError {
    /// During synthesis, the assignment of a variable was not known.
    AssignmentMissing,
    /// During synthesis, a division by zero occurred.
    DivisionByZero,
    /// During synthesis, an unsatisfiable constraint system was constructed.
    Unsatisfiable,
    /// During synthesis, the polynomials ended up being of too high a degree.
    PolynomialDegreeTooLarge,
    /// During proof generation, an identity was met in the parameters.
    UnexpectedIdentity,
    /// During proof generation, reading the parameters failed.
    IoError,
    /// During verification, the verifying key was malformed.
    MalformedVerifyingKey,
    /// During parameter generation, an unconstrained auxiliary variable was seen.
    UnconstrainedVariable,
}

} // verus!
