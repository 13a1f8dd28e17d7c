//! Verification of Groth16 proofs over two pairing-friendly curve families,
//! with strict decoding of proofs and verifying keys from fixed-width
//! uncompressed point encodings.
//!
//! Raw bytes are decoded into points (`codec`), records of bytes into a
//! [`Proof`] or a [`VerifyingKey`] (`parser`), a key is prepared once
//! ([`prepare_verifying_key`]), and proofs are then checked against it
//! ([`verify_proof`]).

pub mod bls;
pub mod bn;
pub mod codec;
pub mod curve;
pub mod encoding;
pub mod engine;
pub mod error;
pub mod family;
pub mod parser;
pub mod point;
pub mod records;
pub mod scalar;
pub mod types;

pub use codec::{decode_g1, decode_g2, encode_g1, encode_g2};
pub use engine::{prepare_verifying_key, verify_encoded, verify_proof};
pub use error::{SynthesisError, Verdict, VerifyError};
pub use family::CurveFamily;
pub use parser::{
    parse_bls_proof, parse_bls_vkey, parse_bn_proof, parse_bn_vkey, parse_proof, parse_vkey,
};
pub use point::{G1Point, G2Point, PreparedG2, TargetElement};
pub use records::{PreparedVerifyingKey, Proof, VerifyingKey};
pub use scalar::Scalar;
pub use types::{ProofStr, VkeyStr};
