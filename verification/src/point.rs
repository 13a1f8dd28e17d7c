use crate::curve::{
    exec_g1_identity, exec_g2_negated, g1_is_point, g2_is_point, g2_negated, g2_on_curve,
};
use crate::encoding::{bytes_equal, copy_bytes, identity_encoding, is_identity_encoding};
use crate::family::CurveFamily;
use vstd::prelude::*;

verus! {

/// A point of the group G1 of a curve family, in affine form.
///
/// Its view is the point's canonical uncompressed encoding: the big-endian
/// coordinates `x` and `y`, or the encoding of the point at infinity.
#[derive(Debug)]
pub struct G1Point {
    family: CurveFamily,
    bytes: Vec<u8>,
}

/// A point of the group G2 of a curve family, in affine form.
///
/// Its view is the point's canonical uncompressed encoding: the big-endian
/// coordinates `x` and `y`, each in the quadratic extension of the base
/// field, or the encoding of the point at infinity.
#[derive(Debug)]
pub struct G2Point {
    family: CurveFamily,
    bytes: Vec<u8>,
}

/// A point on the curve of G2 that is ready to be paired: the negation of a
/// point of a verifying key.
#[derive(Debug)]
pub struct PreparedG2 {
    family: CurveFamily,
    bytes: Vec<u8>,
}

/// An element of the target group of the pairing.
///
/// Its view is the text in which the family's curve library writes the
/// element, coefficient by coefficient in canonical form. Two elements are
/// equal exactly when their texts are.
#[derive(Debug)]
pub struct TargetElement {
    family: CurveFamily,
    text: Vec<u8>,
}

impl View for G1Point {
    type V = Seq<u8>;

    closed spec fn view(&self) -> Seq<u8> {
        self.bytes@
    }
}

impl View for G2Point {
    type V = Seq<u8>;

    closed spec fn view(&self) -> Seq<u8> {
        self.bytes@
    }
}

impl View for PreparedG2 {
    type V = Seq<u8>;

    closed spec fn view(&self) -> Seq<u8> {
        self.bytes@
    }
}

impl View for TargetElement {
    type V = Seq<u8>;

    closed spec fn view(&self) -> Seq<u8> {
        self.text@
    }
}

impl G1Point {
    /// The family to which the point belongs.
    pub closed spec fn spec_family(&self) -> CurveFamily {
        self.family
    }

    /// The point is one that the family's decoder accepts, in the encoding
    /// that the family's encoder writes.
    #[verifier::type_invariant]
    pub open spec fn wf(&self) -> bool {
        g1_is_point(self.spec_family(), self@)
    }

    /// Whether the point is the identity of the group, the point at infinity.
    pub open spec fn spec_is_identity(&self) -> bool {
        self@ == identity_encoding(self.spec_family().spec_g1_width())
    }

    pub(crate) fn from_canonical(family: CurveFamily, bytes: Vec<u8>) -> (p: G1Point)
        requires
            g1_is_point(family, bytes@),
        ensures
            p.wf(),
            p.family() == family,
            p@ == bytes@,
    {
        G1Point { family, bytes }
    }

    /// The identity of the group G1 of `family`.
    pub fn identity(family: CurveFamily) -> (p: G1Point)
        ensures
            p.wf(),
            p.family() == family,
            p.is_identity(),
    {
        G1Point { family, bytes: exec_g1_identity(family) }
    }

    #[verifier::when_used_as_spec(spec_family)]
    pub fn family(&self) -> (f: CurveFamily)
        ensures
            f == self.spec_family(),
    {
        self.family
    }

    #[verifier::when_used_as_spec(spec_is_identity)]
    pub fn is_identity(&self) -> (r: bool)
        ensures
            r == self.spec_is_identity(),
    {
        proof {
            use_type_invariant(self);
        }
        is_identity_encoding(self.bytes.as_slice())
    }

    /// The canonical encoding of the point.
    pub fn as_bytes(&self) -> (r: &[u8])
        ensures
            r@ == self@,
            g1_is_point(self.family(), r@),
    {
        proof {
            use_type_invariant(self);
        }
        self.bytes.as_slice()
    }
}

impl G2Point {
    /// The family to which the point belongs.
    pub closed spec fn spec_family(&self) -> CurveFamily {
        self.family
    }

    /// The point is one that the family's decoder accepts and that lies in
    /// the prime-order subgroup, in the encoding that the family's encoder
    /// writes.
    #[verifier::type_invariant]
    pub open spec fn wf(&self) -> bool {
        g2_is_point(self.spec_family(), self@)
    }

    /// Whether the point is the identity of the group, the point at infinity.
    pub open spec fn spec_is_identity(&self) -> bool {
        self@ == identity_encoding(self.spec_family().spec_g2_width())
    }

    pub(crate) fn from_canonical(family: CurveFamily, bytes: Vec<u8>) -> (p: G2Point)
        requires
            g2_is_point(family, bytes@),
        ensures
            p.wf(),
            p.family() == family,
            p@ == bytes@,
    {
        G2Point { family, bytes }
    }

    #[verifier::when_used_as_spec(spec_family)]
    pub fn family(&self) -> (f: CurveFamily)
        ensures
            f == self.spec_family(),
    {
        self.family
    }

    #[verifier::when_used_as_spec(spec_is_identity)]
    pub fn is_identity(&self) -> (r: bool)
        ensures
            r == self.spec_is_identity(),
    {
        proof {
            use_type_invariant(self);
        }
        is_identity_encoding(self.bytes.as_slice())
    }

    /// The canonical encoding of the point.
    pub fn as_bytes(&self) -> (r: &[u8])
        ensures
            r@ == self@,
            g2_is_point(self.family(), r@),
    {
        proof {
            use_type_invariant(self);
        }
        self.bytes.as_slice()
    }
}

impl PreparedG2 {
    /// The family to which the point belongs.
    pub closed spec fn spec_family(&self) -> CurveFamily {
        self.family
    }

    /// The point is on the curve of G2, in the encoding that the family's
    /// encoder writes.
    #[verifier::type_invariant]
    pub open spec fn wf(&self) -> bool {
        g2_on_curve(self.spec_family(), self@)
    }

    /// The negation of `q`, ready to be paired.
    pub fn negation_of(q: &G2Point) -> (r: PreparedG2)
        ensures
            r.wf(),
            r.family() == q.family(),
            r@ == g2_negated(q.family(), q@),
    {
        let family = q.family();
        let bytes = exec_g2_negated(family, q.as_bytes());
        PreparedG2 { family, bytes }
    }

    #[verifier::when_used_as_spec(spec_family)]
    pub fn family(&self) -> (f: CurveFamily)
        ensures
            f == self.spec_family(),
    {
        self.family
    }

    /// The canonical encoding of the point.
    pub fn as_bytes(&self) -> (r: &[u8])
        ensures
            r@ == self@,
            g2_on_curve(self.family(), r@),
    {
        proof {
            use_type_invariant(self);
        }
        self.bytes.as_slice()
    }
}

impl TargetElement {
    /// The family in whose target group the element lies.
    pub closed spec fn spec_family(&self) -> CurveFamily {
        self.family
    }

    pub(crate) fn from_text(family: CurveFamily, text: Vec<u8>) -> (t: TargetElement)
        ensures
            t.family() == family,
            t@ == text@,
    {
        TargetElement { family, text }
    }

    #[verifier::when_used_as_spec(spec_family)]
    pub fn family(&self) -> (f: CurveFamily)
        ensures
            f == self.spec_family(),
    {
        self.family
    }

    /// The text of the element.
    pub fn as_bytes(&self) -> (r: &[u8])
        ensures
            r@ == self@,
    {
        self.text.as_slice()
    }
}

impl Clone for G1Point {
    fn clone(&self) -> (r: Self)
        ensures
            r.wf(),
            r.family() == self.family(),
            r@ == self@,
    {
        proof {
            use_type_invariant(self);
        }
        G1Point { family: self.family, bytes: copy_bytes(self.bytes.as_slice()) }
    }
}

impl Clone for G2Point {
    fn clone(&self) -> (r: Self)
        ensures
            r.wf(),
            r.family() == self.family(),
            r@ == self@,
    {
        proof {
            use_type_invariant(self);
        }
        G2Point { family: self.family, bytes: copy_bytes(self.bytes.as_slice()) }
    }
}

impl Clone for PreparedG2 {
    fn clone(&self) -> (r: Self)
        ensures
            r.wf(),
            r.family() == self.family(),
            r@ == self@,
    {
        proof {
            use_type_invariant(self);
        }
        PreparedG2 { family: self.family, bytes: copy_bytes(self.bytes.as_slice()) }
    }
}

impl Clone for TargetElement {
    fn clone(&self) -> (r: Self)
        ensures
            r.family() == self.family(),
            r@ == self@,
    {
        TargetElement { family: self.family, text: copy_bytes(self.text.as_slice()) }
    }
}

impl PartialEq for G1Point {
    fn eq(&self, other: &G1Point) -> (r: bool) {
        self.family.same(other.family) && bytes_equal(
            self.bytes.as_slice(),
            other.bytes.as_slice(),
        )
    }
}

/// Two points are equal where they are of one family and have one encoding.
impl vstd::std_specs::cmp::PartialEqSpecImpl for G1Point {
    open spec fn obeys_eq_spec() -> bool {
        true
    }

    open spec fn eq_spec(&self, other: &G1Point) -> bool {
        self.family() == other.family() && self@ == other@
    }
}

impl Eq for G1Point {

}

impl PartialEq for G2Point {
    fn eq(&self, other: &G2Point) -> (r: bool) {
        self.family.same(other.family) && bytes_equal(
            self.bytes.as_slice(),
            other.bytes.as_slice(),
        )
    }
}

/// Two points are equal where they are of one family and have one encoding.
impl vstd::std_specs::cmp::PartialEqSpecImpl for G2Point {
    open spec fn obeys_eq_spec() -> bool {
        true
    }

    open spec fn eq_spec(&self, other: &G2Point) -> bool {
        self.family() == other.family() && self@ == other@
    }
}

impl Eq for G2Point {

}

impl PartialEq for TargetElement {
    fn eq(&self, other: &TargetElement) -> (r: bool) {
        self.family.same(other.family) && bytes_equal(
            self.text.as_slice(),
            other.text.as_slice(),
        )
    }
}

/// Two elements are equal where they are of one family and have one text.
impl vstd::std_specs::cmp::PartialEqSpecImpl for TargetElement {
    open spec fn obeys_eq_spec() -> bool {
        true
    }

    open spec fn eq_spec(&self, other: &TargetElement) -> bool {
        self.family() == other.family() && self@ == other@
    }
}

impl Eq for TargetElement {

}

} // verus!
