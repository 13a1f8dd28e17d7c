use crate::bls::{bls_g1_mul, bls_scalar_from_decimal};
use crate::bn::{bn_g1_mul, bn_scalar_from_decimal};
use crate::curve::{g1_is_point, g1_scaled};
use crate::encoding::{
    be_value, copy_bytes, decimal_value, is_decimal_numeral, le_value, lemma_reverse_le_is_be,
    reversed_bytes,
};
use crate::family::CurveFamily;
use vstd::prelude::*;

verus! {

/// An element of the scalar field of a curve family: a public input of a
/// circuit. It stands for a number below the order of the field.
pub struct Scalar {
    family: CurveFamily,
    /// The number in 32 bytes, most significant byte first.
    bytes: Vec<u8>,
}

impl View for Scalar {
    type V = nat;

    /// The number that the scalar stands for.
    closed spec fn view(&self) -> nat {
        be_value(self.bytes@)
    }
}

impl Scalar {
    /// The family in whose scalar field the element lies.
    pub closed spec fn spec_family(&self) -> CurveFamily {
        self.family
    }

    /// The 32 bytes that hold the number, most significant byte first.
    pub closed spec fn spec_bytes(&self) -> Seq<u8> {
        self.bytes@
    }

    /// A scalar is held in 32 bytes and is below the order of its field.
    #[verifier::type_invariant]
    pub open spec fn wf(&self) -> bool {
        &&& self.spec_bytes().len() == 32
        &&& self@ == be_value(self.spec_bytes())
        &&& self@ < self.spec_family().spec_scalar_modulus()
    }

    #[verifier::when_used_as_spec(spec_family)]
    pub fn family(&self) -> (f: CurveFamily)
        ensures
            f == self.spec_family(),
    {
        self.family
    }

    /// Reads a base-10 numeral into the scalar field of `family`.
    ///
    /// The numeral must be in shortest form: digits only, at least one, and
    /// no leading zero except in `"0"`. A numeral that is not below the order
    /// of the field is reduced by it.
    pub fn from_decimal(s: &str, family: CurveFamily) -> (r: Option<Scalar>)
        ensures
            r is Some <==> is_decimal_numeral(s@),
            r matches Some(k) ==> k.wf() && k.family() == family && k@ == decimal_value(s@)
                % family.spec_scalar_modulus(),
    {
        match family {
            CurveFamily::Bls12_381 => match bls_scalar_from_decimal(s) {
                Some(little) => {
                    let bytes = reversed_bytes(little.as_slice());
                    proof {
                        lemma_reverse_le_is_be(little@);
                    }
                    Some(Scalar { family, bytes })
                },
                None => None,
            },
            CurveFamily::Bn256 => match bn_scalar_from_decimal(s) {
                Some(bytes) => Some(Scalar { family, bytes }),
                None => None,
            },
        }
    }

    /// The number in 32 bytes, most significant byte first.
    pub fn to_bytes_be(&self) -> (r: Vec<u8>)
        ensures
            r@ == self.spec_bytes(),
            r@.len() == 32,
            be_value(r@) == self@,
    {
        proof {
            use_type_invariant(self);
        }
        copy_bytes(self.bytes.as_slice())
    }

    /// The G1 point `p` multiplied by this scalar.
    pub(crate) fn scale_g1(&self, p: &[u8]) -> (r: Vec<u8>)
        requires
            g1_is_point(self.family(), p@),
        ensures
            r@ == g1_scaled(self.family(), p@, self@),
            g1_is_point(self.family(), r@),
    {
        proof {
            use_type_invariant(self);
        }
        match self.family {
            CurveFamily::Bls12_381 => {
                let little = reversed_bytes(self.bytes.as_slice());
                proof {
                    lemma_reverse_le_is_be(little@);
                    assert(little@.reverse() =~= self.bytes@);
                }
                bls_g1_mul(p, little.as_slice())
            },
            CurveFamily::Bn256 => bn_g1_mul(p, self.bytes.as_slice()),
        }
    }
}

impl Clone for Scalar {
    fn clone(&self) -> (r: Self)
        ensures
            r.wf(),
            r.family() == self.family(),
            r@ == self@,
            r.spec_bytes() == self.spec_bytes(),
    {
        proof {
            use_type_invariant(self);
        }
        Scalar { family: self.family, bytes: copy_bytes(self.bytes.as_slice()) }
    }
}

} // verus!
