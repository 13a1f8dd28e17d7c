use vstd::prelude::*;

verus! {

/// The pairing-friendly curve families whose point encodings are understood.
///
/// Every point, scalar, proof and key carries the family it belongs to, and
/// values of different families never mix in one computation.
#[derive(Clone, Copy, Debug, PartialEq, Eq, Structural)]
pub enum CurveFamily {
    /// The 381-bit family (BLS12-381).
    Bls12_381,
    /// The 256-bit family (BN256).
    Bn256,
}

impl CurveFamily {
    /// Number of bytes of an uncompressed G1 point: two base-field coordinates.
    pub open spec fn spec_g1_width(self) -> nat {
        match self {
            CurveFamily::Bls12_381 => 96,
            CurveFamily::Bn256 => 64,
        }
    }

    /// Number of bytes of an uncompressed G2 point: two coordinates in the
    /// quadratic extension, each twice as wide as a base-field coordinate.
    pub open spec fn spec_g2_width(self) -> nat {
        match self {
            CurveFamily::Bls12_381 => 192,
            CurveFamily::Bn256 => 128,
        }
    }

    /// Order of the scalar field, which is also the order of G1 and G2.
    pub open spec fn spec_scalar_modulus(self) -> nat {
        match self {
            CurveFamily::Bls12_381 => bls12_381_scalar_modulus(),
            CurveFamily::Bn256 => bn256_scalar_modulus(),
        }
    }

    pub fn g1_width(self) -> (w: usize)
        ensures
            w == self.spec_g1_width(),
    {
        match self {
            CurveFamily::Bls12_381 => 96,
            CurveFamily::Bn256 => 64,
        }
    }

    pub fn g2_width(self) -> (w: usize)
        ensures
            w == self.spec_g2_width(),
    {
        match self {
            CurveFamily::Bls12_381 => 192,
            CurveFamily::Bn256 => 128,
        }
    }

    /// Whether `self` and `other` are the same family.
    pub fn same(self, other: CurveFamily) -> (r: bool)
        ensures
            r == (self == other),
    {
        match (self, other) {
            (CurveFamily::Bls12_381, CurveFamily::Bls12_381) => true,
            (CurveFamily::Bn256, CurveFamily::Bn256) => true,
            _ => false,
        }
    }
}

/// The number that four 64-bit limbs stand for, least significant limb first.
pub open spec fn limbs_value(l0: nat, l1: nat, l2: nat, l3: nat) -> nat {
    l0 + 0x1_0000_0000_0000_0000 * (l1 + 0x1_0000_0000_0000_0000 * (l2
        + 0x1_0000_0000_0000_0000 * l3))
}

/// Order of the BLS12-381 scalar field,
/// `0x73eda753299d7d483339d80809a1d80553bda402fffe5bfeffffffff00000001`.
pub open spec fn bls12_381_scalar_modulus() -> nat {
    limbs_value(
        0xffff_ffff_0000_0001,
        0x53bd_a402_fffe_5bfe,
        0x3339_d808_09a1_d805,
        0x73ed_a753_299d_7d48,
    )
}

/// Order of the BN256 scalar field,
/// `0x30644e72e131a029b85045b68181585d2833e84879b9709143e1f593f0000001`.
pub open spec fn bn256_scalar_modulus() -> nat {
    limbs_value(
        0x43e1_f593_f000_0001,
        0x2833_e848_79b9_7091,
        0xb850_45b6_8181_585d,
        0x3064_4e72_e131_a029,
    )
}

} // verus!
