use bls12_381::{G1Affine, G1Projective, G2Affine, G2Projective, Scalar as BlsFr};
use groth16_verifier::codec::{decode_g1, decode_g2, encode_g1, encode_g2};
use groth16_verifier::{CurveFamily, G1Point, VerifyError};
use pairing_ce::bn256;
use pairing_ce::ff::{Field, PrimeField};
use pairing_ce::{CurveAffine, CurveProjective, EncodedPoint};

fn bls_g1_generator() -> Vec<u8> {
    G1Affine::generator().to_uncompressed().to_vec()
}

fn bls_g2_generator() -> Vec<u8> {
    G2Affine::generator().to_uncompressed().to_vec()
}

fn bn_g1_generator() -> Vec<u8> {
    bn256::G1Affine::one().into_uncompressed().as_ref().to_vec()
}

fn bn_g2_generator() -> Vec<u8> {
    bn256::G2Affine::one().into_uncompressed().as_ref().to_vec()
}

fn identity_of_width(width: usize) -> Vec<u8> {
    let mut bytes = vec![0u8; width];
    bytes[0] = 0x40;
    bytes
}

#[test]
fn round_trip_of_the_generators() {
    let p = decode_g1(&bls_g1_generator(), CurveFamily::Bls12_381).unwrap();
    assert_eq!(encode_g1(&p), bls_g1_generator());
    let q = decode_g2(&bls_g2_generator(), CurveFamily::Bls12_381).unwrap();
    assert_eq!(encode_g2(&q), bls_g2_generator());
    let p = decode_g1(&bn_g1_generator(), CurveFamily::Bn256).unwrap();
    assert_eq!(encode_g1(&p), bn_g1_generator());
    let q = decode_g2(&bn_g2_generator(), CurveFamily::Bn256).unwrap();
    assert_eq!(encode_g2(&q), bn_g2_generator());
}

#[test]
fn round_trip_of_many_bls_points() {
    for k in 1u64..20 {
        let g1 = G1Affine::from(G1Projective::generator() * BlsFr::from(k * k + 3));
        let p = decode_g1(&g1.to_uncompressed(), CurveFamily::Bls12_381).unwrap();
        assert_eq!(p.family(), CurveFamily::Bls12_381);
        assert!(!p.is_identity());
        let again = decode_g1(&encode_g1(&p), CurveFamily::Bls12_381).unwrap();
        assert_eq!(again.as_bytes(), p.as_bytes());
        assert_eq!(p.as_bytes(), &g1.to_uncompressed()[..]);

        let g2 = G2Affine::from(G2Projective::generator() * BlsFr::from(k * k + 3));
        let q = decode_g2(&g2.to_uncompressed(), CurveFamily::Bls12_381).unwrap();
        let again = decode_g2(&encode_g2(&q), CurveFamily::Bls12_381).unwrap();
        assert_eq!(again.as_bytes(), q.as_bytes());
        assert_eq!(q.as_bytes(), &g2.to_uncompressed()[..]);
    }
}

#[test]
fn round_trip_of_many_bn_points() {
    for k in 1u64..20 {
        let scalar = bn256::Fr::from_str(&(k * k + 3).to_string()).unwrap();
        let g1 = bn256::G1Affine::one().mul(scalar).into_affine();
        let bytes = g1.into_uncompressed().as_ref().to_vec();
        let p = decode_g1(&bytes, CurveFamily::Bn256).unwrap();
        assert_eq!(p.family(), CurveFamily::Bn256);
        let again = decode_g1(&encode_g1(&p), CurveFamily::Bn256).unwrap();
        assert_eq!(again.as_bytes(), p.as_bytes());
        assert_eq!(p.as_bytes(), &bytes[..]);

        let g2 = bn256::G2Affine::one().mul(scalar).into_affine();
        let bytes = g2.into_uncompressed().as_ref().to_vec();
        let q = decode_g2(&bytes, CurveFamily::Bn256).unwrap();
        let again = decode_g2(&encode_g2(&q), CurveFamily::Bn256).unwrap();
        assert_eq!(again.as_bytes(), q.as_bytes());
        assert_eq!(q.as_bytes(), &bytes[..]);
    }
}

#[test]
fn a_buffer_of_the_other_family_is_rejected() {
    assert_eq!(
        decode_g1(&bn_g1_generator(), CurveFamily::Bls12_381).err(),
        Some(VerifyError::MalformedEncoding)
    );
    assert_eq!(
        decode_g1(&bls_g1_generator(), CurveFamily::Bn256).err(),
        Some(VerifyError::MalformedEncoding)
    );
    assert_eq!(
        decode_g2(&bn_g2_generator(), CurveFamily::Bls12_381).err(),
        Some(VerifyError::MalformedEncoding)
    );
    assert_eq!(
        decode_g2(&bls_g2_generator(), CurveFamily::Bn256).err(),
        Some(VerifyError::MalformedEncoding)
    );
}

#[test]
fn the_widths_are_those_of_the_families() {
    assert_eq!(CurveFamily::Bls12_381.g1_width(), 96);
    assert_eq!(CurveFamily::Bls12_381.g2_width(), 192);
    assert_eq!(CurveFamily::Bn256.g1_width(), 64);
    assert_eq!(CurveFamily::Bn256.g2_width(), 128);
    assert!(CurveFamily::Bn256.same(CurveFamily::Bn256));
    assert!(!CurveFamily::Bn256.same(CurveFamily::Bls12_381));
}

#[test]
fn a_buffer_of_any_other_width_is_rejected() {
    for family in [CurveFamily::Bls12_381, CurveFamily::Bn256] {
        let g1 = if family == CurveFamily::Bls12_381 { bls_g1_generator() } else { bn_g1_generator() };
        let g2 = if family == CurveFamily::Bls12_381 { bls_g2_generator() } else { bn_g2_generator() };
        assert_eq!(decode_g1(&[], family).err(), Some(VerifyError::MalformedEncoding));
        assert_eq!(decode_g2(&[], family).err(), Some(VerifyError::MalformedEncoding));
        assert_eq!(decode_g1(&g1[..g1.len() - 1], family).err(), Some(VerifyError::MalformedEncoding));
        assert_eq!(decode_g2(&g2[..g2.len() - 1], family).err(), Some(VerifyError::MalformedEncoding));
        let mut longer = g1.clone();
        longer.push(0);
        assert_eq!(decode_g1(&longer, family).err(), Some(VerifyError::MalformedEncoding));
        let mut longer = g2.clone();
        longer.push(0);
        assert_eq!(decode_g2(&longer, family).err(), Some(VerifyError::MalformedEncoding));
        // A G1 buffer is not a G2 buffer.
        assert_eq!(decode_g2(&g1, family).err(), Some(VerifyError::MalformedEncoding));
        assert_eq!(decode_g1(&g2, family).err(), Some(VerifyError::MalformedEncoding));
    }
}

#[test]
fn a_short_buffer_is_not_padded_with_zeros() {
    // A point whose encoding ends in a zero byte: cut, the buffer would read
    // as the same point if it were filled up with zeros.
    let mut found = false;
    for k in 1u64..2000 {
        let point = G1Affine::from(G1Projective::generator() * BlsFr::from(k));
        let bytes = point.to_uncompressed();
        if bytes[95] == 0 {
            assert!(decode_g1(&bytes, CurveFamily::Bls12_381).is_ok());
            assert_eq!(
                decode_g1(&bytes[..95], CurveFamily::Bls12_381).err(),
                Some(VerifyError::MalformedEncoding)
            );
            found = true;
            break;
        }
    }
    assert!(found);
}

#[test]
fn coordinates_off_the_curve_are_a_malformed_point() {
    let mut bytes = bls_g1_generator();
    bytes[95] ^= 1;
    assert_eq!(decode_g1(&bytes, CurveFamily::Bls12_381).err(), Some(VerifyError::MalformedPoint));
    let mut bytes = bls_g2_generator();
    bytes[191] ^= 1;
    assert_eq!(decode_g2(&bytes, CurveFamily::Bls12_381).err(), Some(VerifyError::MalformedPoint));
    let mut bytes = bn_g1_generator();
    bytes[63] ^= 1;
    assert_eq!(decode_g1(&bytes, CurveFamily::Bn256).err(), Some(VerifyError::MalformedPoint));
    let mut bytes = bn_g2_generator();
    bytes[127] ^= 1;
    assert_eq!(decode_g2(&bytes, CurveFamily::Bn256).err(), Some(VerifyError::MalformedPoint));
}

#[test]
fn coordinates_above_the_field_modulus_are_a_malformed_point() {
    let mut bytes = vec![0xffu8; 96];
    bytes[0] = 0x1f;
    assert_eq!(decode_g1(&bytes, CurveFamily::Bls12_381).err(), Some(VerifyError::MalformedPoint));
    let mut bytes = vec![0xffu8; 64];
    bytes[0] = 0x3f;
    assert_eq!(decode_g1(&bytes, CurveFamily::Bn256).err(), Some(VerifyError::MalformedPoint));
}

#[test]
fn the_point_at_infinity_has_its_own_encoding() {
    for family in [CurveFamily::Bls12_381, CurveFamily::Bn256] {
        let p = decode_g1(&identity_of_width(family.g1_width()), family).unwrap();
        assert!(p.is_identity());
        assert_eq!(encode_g1(&p), identity_of_width(family.g1_width()));
        let q = decode_g2(&identity_of_width(family.g2_width()), family).unwrap();
        assert!(q.is_identity());
        assert_eq!(encode_g2(&q), identity_of_width(family.g2_width()));
        let made = G1Point::identity(family);
        assert!(made.is_identity());
        assert_eq!(made.family(), family);
        assert_eq!(made.as_bytes(), p.as_bytes());
    }
}

#[test]
fn all_zero_coordinates_are_not_the_point_at_infinity() {
    for family in [CurveFamily::Bls12_381, CurveFamily::Bn256] {
        let zeros = vec![0u8; family.g1_width()];
        assert_eq!(decode_g1(&zeros, family).err(), Some(VerifyError::MalformedPoint));
        let zeros = vec![0u8; family.g2_width()];
        assert_eq!(decode_g2(&zeros, family).err(), Some(VerifyError::MalformedPoint));
    }
}

#[test]
fn flag_bits_that_do_not_belong_are_a_malformed_point() {
    // The infinity bit beside coordinates.
    let mut bytes = bls_g1_generator();
    bytes[0] |= 0x40;
    assert_eq!(decode_g1(&bytes, CurveFamily::Bls12_381).err(), Some(VerifyError::MalformedPoint));
    let mut bytes = bn_g1_generator();
    bytes[0] |= 0x40;
    assert_eq!(decode_g1(&bytes, CurveFamily::Bn256).err(), Some(VerifyError::MalformedPoint));
    // The bit that marks a compressed encoding.
    let mut bytes = bls_g1_generator();
    bytes[0] |= 0x80;
    assert_eq!(decode_g1(&bytes, CurveFamily::Bls12_381).err(), Some(VerifyError::MalformedPoint));
    let mut bytes = bn_g1_generator();
    bytes[0] |= 0x80;
    assert_eq!(decode_g1(&bytes, CurveFamily::Bn256).err(), Some(VerifyError::MalformedPoint));
    let mut bytes = bn_g2_generator();
    bytes[0] |= 0x80;
    assert_eq!(decode_g2(&bytes, CurveFamily::Bn256).err(), Some(VerifyError::MalformedPoint));
    // The bit that orders the y-coordinate of a compressed encoding.
    let mut bytes = bls_g1_generator();
    bytes[0] |= 0x20;
    assert_eq!(decode_g1(&bytes, CurveFamily::Bls12_381).err(), Some(VerifyError::MalformedPoint));
}

#[test]
fn a_second_encoding_of_infinity_decodes_to_the_canonical_one() {
    // The 256-bit family's G1 decoder overlooks the top bit beside the
    // infinity bit. What comes out is the point at infinity all the same.
    let mut bytes = identity_of_width(64);
    bytes[0] = 0xc0;
    let p = decode_g1(&bytes, CurveFamily::Bn256).unwrap();
    assert!(p.is_identity());
    assert_eq!(encode_g1(&p), identity_of_width(64));
}

#[test]
fn a_curve_point_outside_the_subgroup_is_a_malformed_point() {
    // A point on the curve over the quadratic extension with a small
    // x-coordinate: the cofactor is so large that it is not in G2.
    let mut tried = 0;
    for c0 in 1u64..200 {
        let x = bn256::Fq2 {
            c0: bn256::Fq::from_str(&c0.to_string()).unwrap(),
            c1: bn256::Fq::one(),
        };
        if let Some(point) = bn256::G2Affine::get_point_from_x(x, false) {
            if !point.is_on_curve() {
                continue;
            }
            assert!(!point.mul(bn256::Fr::char()).is_zero());
            let encoded = point.into_uncompressed();
            // The curve library alone accepts the encoding.
            assert!(encoded.into_affine().is_ok());
            assert_eq!(
                decode_g2(encoded.as_ref(), CurveFamily::Bn256).err(),
                Some(VerifyError::MalformedPoint)
            );
            tried += 1;
        }
    }
    assert!(tried > 10);
}

#[test]
fn decoding_an_encoding_gives_the_point_back() {
    for (family, g1, g2) in [
        (CurveFamily::Bls12_381, bls_g1_generator(), bls_g2_generator()),
        (CurveFamily::Bn256, bn_g1_generator(), bn_g2_generator()),
    ] {
        let p = decode_g1(&g1, family).unwrap();
        assert_eq!(decode_g1(&encode_g1(&p), family), Ok(p.clone()));
        let q = decode_g2(&g2, family).unwrap();
        assert_eq!(decode_g2(&encode_g2(&q), family), Ok(q.clone()));
        let identity = G1Point::identity(family);
        assert_eq!(decode_g1(&encode_g1(&identity), family), Ok(identity.clone()));
        assert_ne!(p, identity);
    }
}

#[test]
fn points_of_different_families_are_different_points() {
    let bls = G1Point::identity(CurveFamily::Bls12_381);
    let bn = G1Point::identity(CurveFamily::Bn256);
    assert_ne!(bls, bn);
    assert_eq!(bls, G1Point::identity(CurveFamily::Bls12_381));
}
