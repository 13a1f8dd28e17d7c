//! The decoded artifacts of the proof system: a proof, a verifying key, and
//! a verifying key prepared for repeated use.

use crate::curve::{g1_is_point, g2_is_point, g2_on_curve};
use crate::encoding::identity_encoding;
use crate::family::CurveFamily;
use crate::point::{G1Point, G2Point, PreparedG2, TargetElement};
use vstd::prelude::*;

verus! {

/// A Groth16 proof: three points of one curve family, none of them the
/// identity.
#[derive(Debug)]
pub struct Proof {
    a: G1Point,
    b: G2Point,
    c: G1Point,
}

/// What a proof is, with each point given by its canonical encoding.
pub ghost struct ProofView {
    pub family: CurveFamily,
    pub a: Seq<u8>,
    pub b: Seq<u8>,
    pub c: Seq<u8>,
}

/// `p` encodes a point of the family's G1 other than the identity.
pub open spec fn g1_is_proper(family: CurveFamily, p: Seq<u8>) -> bool {
    g1_is_point(family, p) && p != identity_encoding(family.spec_g1_width())
}

/// `q` encodes a point of the family's G2 other than the identity.
pub open spec fn g2_is_proper(family: CurveFamily, q: Seq<u8>) -> bool {
    g2_is_point(family, q) && q != identity_encoding(family.spec_g2_width())
}

impl ProofView {
    /// The three points are points of the family, and none is the identity.
    pub open spec fn wf(self) -> bool {
        &&& g1_is_proper(self.family, self.a)
        &&& g2_is_proper(self.family, self.b)
        &&& g1_is_proper(self.family, self.c)
    }
}

impl View for Proof {
    type V = ProofView;

    closed spec fn view(&self) -> ProofView {
        ProofView { family: self.a.family(), a: self.a@, b: self.b@, c: self.c@ }
    }
}

impl Proof {
    #[verifier::type_invariant]
    closed spec fn inv(&self) -> bool {
        &&& self.a.wf() && self.b.wf() && self.c.wf()
        &&& self.b.family() == self.a.family()
        &&& self.c.family() == self.a.family()
        &&& !self.a.is_identity() && !self.b.is_identity() && !self.c.is_identity()
    }

    /// The three points are points of one family, and none is the identity.
    pub open spec fn wf(&self) -> bool {
        self@.wf()
    }

    pub(crate) fn from_points(a: G1Point, b: G2Point, c: G1Point) -> (p: Proof)
        requires
            a.wf() && b.wf() && c.wf(),
            a.family() == b.family() && b.family() == c.family(),
            !a.is_identity() && !b.is_identity() && !c.is_identity(),
        ensures
            p.wf(),
            p@ == (ProofView { family: a.family(), a: a@, b: b@, c: c@ }),
    {
        Proof { a, b, c }
    }

    /// The curve family of the proof's points.
    pub fn family(&self) -> (f: CurveFamily)
        ensures
            f == self@.family,
    {
        self.a.family()
    }

    /// The point `a`, of G1.
    pub fn a(&self) -> (p: &G1Point)
        ensures
            self.wf(),
            p@ == self@.a,
            p.family() == self@.family,
    {
        proof {
            use_type_invariant(self);
        }
        &self.a
    }

    /// The point `b`, of G2.
    pub fn b(&self) -> (p: &G2Point)
        ensures
            self.wf(),
            p@ == self@.b,
            p.family() == self@.family,
    {
        proof {
            use_type_invariant(self);
        }
        &self.b
    }

    /// The point `c`, of G1.
    pub fn c(&self) -> (p: &G1Point)
        ensures
            self.wf(),
            p@ == self@.c,
            p.family() == self@.family,
    {
        proof {
            use_type_invariant(self);
        }
        &self.c
    }
}

/// A verifying key: the public, circuit-specific parameters against which
/// proofs are checked.
///
/// `ic` holds the basis point of the constant term, then one basis point
/// for each public input. The G1 forms of beta and delta serve only to
/// construct proofs; a key that was read for verification holds the
/// identity in their place.
#[derive(Debug)]
pub struct VerifyingKey {
    alpha_g1: G1Point,
    beta_g1: G1Point,
    beta_g2: G2Point,
    gamma_g2: G2Point,
    delta_g1: G1Point,
    delta_g2: G2Point,
    ic: Vec<G1Point>,
}

/// What a verifying key is, with each point given by its canonical encoding.
pub ghost struct VerifyingKeyView {
    pub family: CurveFamily,
    pub alpha_g1: Seq<u8>,
    pub beta_g1: Seq<u8>,
    pub beta_g2: Seq<u8>,
    pub gamma_g2: Seq<u8>,
    pub delta_g1: Seq<u8>,
    pub delta_g2: Seq<u8>,
    pub ic: Seq<Seq<u8>>,
}

/// The canonical encodings of the points in `points`.
pub open spec fn points_view(points: Seq<G1Point>) -> Seq<Seq<u8>> {
    Seq::new(points.len(), |i: int| points[i]@)
}

impl VerifyingKeyView {
    /// All points are points of the family; there is a basis point for the
    /// constant term; and no point is the identity, except that the G1 forms
    /// of beta and delta may be.
    pub open spec fn wf(self) -> bool {
        &&& g1_is_proper(self.family, self.alpha_g1)
        &&& g1_is_point(self.family, self.beta_g1)
        &&& g2_is_proper(self.family, self.beta_g2)
        &&& g2_is_proper(self.family, self.gamma_g2)
        &&& g1_is_point(self.family, self.delta_g1)
        &&& g2_is_proper(self.family, self.delta_g2)
        &&& self.ic.len() >= 1
        &&& forall|i: int| 0 <= i < self.ic.len() ==> g1_is_proper(self.family, #[trigger] self.ic[i])
    }
}

impl View for VerifyingKey {
    type V = VerifyingKeyView;

    closed spec fn view(&self) -> VerifyingKeyView {
        VerifyingKeyView {
            family: self.alpha_g1.family(),
            alpha_g1: self.alpha_g1@,
            beta_g1: self.beta_g1@,
            beta_g2: self.beta_g2@,
            gamma_g2: self.gamma_g2@,
            delta_g1: self.delta_g1@,
            delta_g2: self.delta_g2@,
            ic: points_view(self.ic@),
        }
    }
}

/// Every point in `points` is a point of `family` other than the identity.
pub open spec fn all_proper(family: CurveFamily, points: Seq<G1Point>) -> bool {
    forall|i: int|
        0 <= i < points.len() ==> {
            &&& (#[trigger] points[i]).wf()
            &&& points[i].family() == family
            &&& !points[i].is_identity()
        }
}

impl VerifyingKey {
    #[verifier::type_invariant]
    closed spec fn inv(&self) -> bool {
        let family = self.alpha_g1.family();
        &&& self.alpha_g1.wf() && !self.alpha_g1.is_identity()
        &&& self.beta_g1.wf() && self.beta_g1.family() == family
        &&& self.beta_g2.wf() && self.beta_g2.family() == family && !self.beta_g2.is_identity()
        &&& self.gamma_g2.wf() && self.gamma_g2.family() == family
            && !self.gamma_g2.is_identity()
        &&& self.delta_g1.wf() && self.delta_g1.family() == family
        &&& self.delta_g2.wf() && self.delta_g2.family() == family
            && !self.delta_g2.is_identity()
        &&& self.ic@.len() >= 1
        &&& all_proper(family, self.ic@)
    }

    /// The key meets what its view's `wf` asks.
    pub open spec fn wf(&self) -> bool {
        self@.wf()
    }

    pub(crate) fn from_points(
        alpha_g1: G1Point,
        beta_g1: G1Point,
        beta_g2: G2Point,
        gamma_g2: G2Point,
        delta_g1: G1Point,
        delta_g2: G2Point,
        ic: Vec<G1Point>,
    ) -> (key: VerifyingKey)
        requires
            alpha_g1.wf() && !alpha_g1.is_identity(),
            beta_g1.wf() && beta_g1.family() == alpha_g1.family(),
            beta_g2.wf() && beta_g2.family() == alpha_g1.family() && !beta_g2.is_identity(),
            gamma_g2.wf() && gamma_g2.family() == alpha_g1.family() && !gamma_g2.is_identity(),
            delta_g1.wf() && delta_g1.family() == alpha_g1.family(),
            delta_g2.wf() && delta_g2.family() == alpha_g1.family() && !delta_g2.is_identity(),
            ic@.len() >= 1,
            all_proper(alpha_g1.family(), ic@),
        ensures
            key.wf(),
            key@ == (VerifyingKeyView {
                family: alpha_g1.family(),
                alpha_g1: alpha_g1@,
                beta_g1: beta_g1@,
                beta_g2: beta_g2@,
                gamma_g2: gamma_g2@,
                delta_g1: delta_g1@,
                delta_g2: delta_g2@,
                ic: points_view(ic@),
            }),
    {
        VerifyingKey { alpha_g1, beta_g1, beta_g2, gamma_g2, delta_g1, delta_g2, ic }
    }

    /// The curve family of the key's points.
    pub fn family(&self) -> (f: CurveFamily)
        ensures
            f == self@.family,
    {
        self.alpha_g1.family()
    }

    /// Alpha, in G1.
    pub fn alpha_g1(&self) -> (p: &G1Point)
        ensures
            self.wf(),
            p@ == self@.alpha_g1,
            p.family() == self@.family,
    {
        proof {
            use_type_invariant(self);
        }
        &self.alpha_g1
    }

    /// Beta, in G1: the identity in a key that was read for verification.
    pub fn beta_g1(&self) -> (p: &G1Point)
        ensures
            self.wf(),
            p@ == self@.beta_g1,
            p.family() == self@.family,
    {
        proof {
            use_type_invariant(self);
        }
        &self.beta_g1
    }

    /// Beta, in G2.
    pub fn beta_g2(&self) -> (p: &G2Point)
        ensures
            self.wf(),
            p@ == self@.beta_g2,
            p.family() == self@.family,
    {
        proof {
            use_type_invariant(self);
        }
        &self.beta_g2
    }

    /// Gamma, in G2.
    pub fn gamma_g2(&self) -> (p: &G2Point)
        ensures
            self.wf(),
            p@ == self@.gamma_g2,
            p.family() == self@.family,
    {
        proof {
            use_type_invariant(self);
        }
        &self.gamma_g2
    }

    /// Delta, in G1: the identity in a key that was read for verification.
    pub fn delta_g1(&self) -> (p: &G1Point)
        ensures
            self.wf(),
            p@ == self@.delta_g1,
            p.family() == self@.family,
    {
        proof {
            use_type_invariant(self);
        }
        &self.delta_g1
    }

    /// Delta, in G2.
    pub fn delta_g2(&self) -> (p: &G2Point)
        ensures
            self.wf(),
            p@ == self@.delta_g2,
            p.family() == self@.family,
    {
        proof {
            use_type_invariant(self);
        }
        &self.delta_g2
    }

    /// The basis points: that of the constant term, then one for each
    /// public input.
    pub fn ic(&self) -> (points: &Vec<G1Point>)
        ensures
            self.wf(),
            points_view(points@) == self@.ic,
            all_proper(self@.family, points@),
    {
        proof {
            use_type_invariant(self);
        }
        &self.ic
    }
}

/// A verifying key made ready for repeated use: the pairing of alpha with
/// beta is computed once, and gamma and delta are held negated.
#[derive(Debug)]
pub struct PreparedVerifyingKey {
    alpha_g1_beta_g2: TargetElement,
    neg_gamma_g2: PreparedG2,
    neg_delta_g2: PreparedG2,
    ic: Vec<G1Point>,
}

/// What a prepared verifying key is: the text of the target element, and
/// the canonical encodings of the points.
pub ghost struct PreparedVerifyingKeyView {
    pub family: CurveFamily,
    pub alpha_g1_beta_g2: Seq<u8>,
    pub neg_gamma_g2: Seq<u8>,
    pub neg_delta_g2: Seq<u8>,
    pub ic: Seq<Seq<u8>>,
}

impl PreparedVerifyingKeyView {
    /// The points are points of the family, and there is a basis point for
    /// the constant term.
    pub open spec fn wf(self) -> bool {
        &&& g2_on_curve(self.family, self.neg_gamma_g2)
        &&& g2_on_curve(self.family, self.neg_delta_g2)
        &&& self.ic.len() >= 1
        &&& forall|i: int| 0 <= i < self.ic.len() ==> g1_is_proper(self.family, #[trigger] self.ic[i])
    }
}

impl View for PreparedVerifyingKey {
    type V = PreparedVerifyingKeyView;

    closed spec fn view(&self) -> PreparedVerifyingKeyView {
        PreparedVerifyingKeyView {
            family: self.alpha_g1_beta_g2.family(),
            alpha_g1_beta_g2: self.alpha_g1_beta_g2@,
            neg_gamma_g2: self.neg_gamma_g2@,
            neg_delta_g2: self.neg_delta_g2@,
            ic: points_view(self.ic@),
        }
    }
}

impl PreparedVerifyingKey {
    #[verifier::type_invariant]
    closed spec fn inv(&self) -> bool {
        let family = self.alpha_g1_beta_g2.family();
        &&& self.neg_gamma_g2.wf() && self.neg_gamma_g2.family() == family
        &&& self.neg_delta_g2.wf() && self.neg_delta_g2.family() == family
        &&& self.ic@.len() >= 1
        &&& all_proper(family, self.ic@)
    }

    /// The key meets what its view's `wf` asks.
    pub open spec fn wf(&self) -> bool {
        self@.wf()
    }

    pub(crate) fn from_parts(
        alpha_g1_beta_g2: TargetElement,
        neg_gamma_g2: PreparedG2,
        neg_delta_g2: PreparedG2,
        ic: Vec<G1Point>,
    ) -> (key: PreparedVerifyingKey)
        requires
            neg_gamma_g2.wf() && neg_gamma_g2.family() == alpha_g1_beta_g2.family(),
            neg_delta_g2.wf() && neg_delta_g2.family() == alpha_g1_beta_g2.family(),
            ic@.len() >= 1,
            all_proper(alpha_g1_beta_g2.family(), ic@),
        ensures
            key.wf(),
            key@ == (PreparedVerifyingKeyView {
                family: alpha_g1_beta_g2.family(),
                alpha_g1_beta_g2: alpha_g1_beta_g2@,
                neg_gamma_g2: neg_gamma_g2@,
                neg_delta_g2: neg_delta_g2@,
                ic: points_view(ic@),
            }),
    {
        PreparedVerifyingKey { alpha_g1_beta_g2, neg_gamma_g2, neg_delta_g2, ic }
    }

    /// The curve family of the key's points.
    pub fn family(&self) -> (f: CurveFamily)
        ensures
            f == self@.family,
    {
        self.alpha_g1_beta_g2.family()
    }

    /// The pairing of alpha with beta.
    pub fn alpha_g1_beta_g2(&self) -> (t: &TargetElement)
        ensures
            t@ == self@.alpha_g1_beta_g2,
            t.family() == self@.family,
    {
        &self.alpha_g1_beta_g2
    }

    /// The negation of gamma, ready to be paired.
    pub fn neg_gamma_g2(&self) -> (q: &PreparedG2)
        ensures
            self.wf(),
            q@ == self@.neg_gamma_g2,
            q.family() == self@.family,
    {
        proof {
            use_type_invariant(self);
        }
        &self.neg_gamma_g2
    }

    /// The negation of delta, ready to be paired.
    pub fn neg_delta_g2(&self) -> (q: &PreparedG2)
        ensures
            self.wf(),
            q@ == self@.neg_delta_g2,
            q.family() == self@.family,
    {
        proof {
            use_type_invariant(self);
        }
        &self.neg_delta_g2
    }

    /// The basis points, as in the verifying key.
    pub fn ic(&self) -> (points: &Vec<G1Point>)
        ensures
            self.wf(),
            points_view(points@) == self@.ic,
            all_proper(self@.family, points@),
    {
        proof {
            use_type_invariant(self);
        }
        &self.ic
    }
}

/// A copy of `points`.
pub(crate) fn copy_points(points: &Vec<G1Point>, Ghost(family): Ghost<CurveFamily>) -> (out: Vec<
    G1Point,
>)
    requires
        all_proper(family, points@),
    ensures
        out@.len() == points@.len(),
        all_proper(family, out@),
        points_view(out@) == points_view(points@),
{
    let mut out: Vec<G1Point> = Vec::new();
    let mut i: usize = 0;
    while i < points.len()
        invariant
            i <= points@.len(),
            out@.len() == i,
            all_proper(family, points@),
            all_proper(family, out@),
            forall|j: int| 0 <= j < i ==> out@[j]@ == points@[j]@,
        decreases points@.len() - i,
    {
        let p = points[i].clone();
        out.push(p);
        i += 1;
    }
    assert(points_view(out@) =~= points_view(points@));
    out
}

/// Whether `left` and `right` hold the same points in the same order.
fn same_points(
    left: &Vec<G1Point>,
    right: &Vec<G1Point>,
    Ghost(family): Ghost<CurveFamily>,
) -> (r: bool)
    requires
        all_proper(family, left@),
        all_proper(family, right@),
    ensures
        r == (points_view(left@) == points_view(right@)),
{
    if left.len() != right.len() {
        assert(points_view(left@).len() != points_view(right@).len());
        return false;
    }
    let mut i: usize = 0;
    while i < left.len()
        invariant
            i <= left@.len(),
            left@.len() == right@.len(),
            all_proper(family, left@),
            all_proper(family, right@),
            forall|j: int| 0 <= j < i ==> left@[j]@ == right@[j]@,
        decreases left@.len() - i,
    {
        if !left[i].eq(&right[i]) {
            assert(points_view(left@)[i as int] != points_view(right@)[i as int]);
            return false;
        }
        i += 1;
    }
    assert(points_view(left@) =~= points_view(right@));
    true
}

impl Clone for Proof {
    fn clone(&self) -> (r: Self)
        ensures
            r.wf(),
            r@ == self@,
    {
        proof {
            use_type_invariant(self);
        }
        Proof { a: self.a.clone(), b: self.b.clone(), c: self.c.clone() }
    }
}

impl PartialEq for Proof {
    fn eq(&self, other: &Proof) -> (r: bool) {
        proof {
            use_type_invariant(self);
            use_type_invariant(other);
        }
        self.a.eq(&other.a) && self.b.eq(&other.b) && self.c.eq(&other.c)
    }
}

/// Two proofs are equal where they are of one family and have the same
/// three points.
impl vstd::std_specs::cmp::PartialEqSpecImpl for Proof {
    open spec fn obeys_eq_spec() -> bool {
        true
    }

    open spec fn eq_spec(&self, other: &Proof) -> bool {
        self@ == other@
    }
}

impl Eq for Proof {

}

impl Clone for VerifyingKey {
    fn clone(&self) -> (r: Self)
        ensures
            r.wf(),
            r@ == self@,
    {
        proof {
            use_type_invariant(self);
        }
        VerifyingKey {
            alpha_g1: self.alpha_g1.clone(),
            beta_g1: self.beta_g1.clone(),
            beta_g2: self.beta_g2.clone(),
            gamma_g2: self.gamma_g2.clone(),
            delta_g1: self.delta_g1.clone(),
            delta_g2: self.delta_g2.clone(),
            ic: copy_points(&self.ic, Ghost(self.alpha_g1.family())),
        }
    }
}

impl PartialEq for VerifyingKey {
    fn eq(&self, other: &VerifyingKey) -> (r: bool) {
        proof {
            use_type_invariant(self);
            use_type_invariant(other);
        }
        self.alpha_g1.eq(&other.alpha_g1) && self.beta_g1.eq(&other.beta_g1) && self.beta_g2.eq(
            &other.beta_g2,
        ) && self.gamma_g2.eq(&other.gamma_g2) && self.delta_g1.eq(&other.delta_g1)
            && self.delta_g2.eq(&other.delta_g2) && same_points(
            &self.ic,
            &other.ic,
            Ghost(self.alpha_g1.family()),
        )
    }
}

/// Two verifying keys are equal where they are of one family and have the
/// same points, the basis points in the same order.
impl vstd::std_specs::cmp::PartialEqSpecImpl for VerifyingKey {
    open spec fn obeys_eq_spec() -> bool {
        true
    }

    open spec fn eq_spec(&self, other: &VerifyingKey) -> bool {
        self@ == other@
    }
}

impl Eq for VerifyingKey {

}

} // verus!
