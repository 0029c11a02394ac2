//! Group points and their canonical compressed encodings.

use ristretto255::{Point, Scalar};

/// The published compressed encoding of the ristretto255 generator.
const GENERATOR_BYTES: [u8; 32] = [
    0xe2, 0xf2, 0xae, 0x0a, 0x6a, 0xbc, 0x4e, 0x71, 0xa8, 0x84, 0xa9, 0x61, 0xc5, 0x00, 0x51,
    0x5f, 0x58, 0xe3, 0x0b, 0x6a, 0xa5, 0x82, 0xdd, 0x8d, 0xb6, 0xa6, 0x59, 0x45, 0xe0, 0x8d,
    0x2d, 0x76,
];

#[test]
fn generator_has_published_encoding() {
    assert_eq!(Point::generator().to_bytes_compressed(), GENERATOR_BYTES);
}

#[test]
fn point_decode_encode_round_trip() {
    let p = Point::decode(&GENERATOR_BYTES).unwrap();
    assert_eq!(p.to_bytes_compressed(), GENERATOR_BYTES);
    // another valid encoding: the double of the generator
    let two = Scalar::from_le_bytes_mod_order(&[2]);
    let d = Point::mul_generator(&two).to_bytes_compressed();
    let q = Point::decode(&d).unwrap();
    assert_eq!(q.to_bytes_compressed(), d);
}

#[test]
fn invalid_encodings_are_rejected() {
    assert!(Point::decode(&[0xff; 32]).is_none());
    assert!(Point::decode(&[0u8; 31]).is_none());
    assert!(Point::decode(&[0u8; 33]).is_none());
    assert!(Point::decode(&[]).is_none());
}

#[test]
fn identity_encodes_as_zero_bytes() {
    assert_eq!(Point::zero().to_bytes_compressed(), [0u8; 32]);
    assert!(Point::is_zero(&Point::zero()));
    assert!(!Point::is_zero(&Point::generator()));
    assert!(Point::is_zero(&Point::default()));
}

#[test]
fn addition_subtraction_negation() {
    let g = Point::generator();
    assert!(Point::is_zero(&Point::add(&g, &Point::negate(&g))));
    assert!(Point::is_zero(&Point::sub(&g, &g)));
    let two_g = Point::add(&g, &g);
    assert!(Point::ct_eq(&Point::sub(&two_g, &g), &g));
    // adding the identity changes nothing
    assert!(Point::ct_eq(&Point::add(&g, &Point::zero()), &g));
}

#[test]
fn scalar_multiplication_agrees_with_addition() {
    let g = Point::generator();
    let three = Scalar::from_le_bytes_mod_order(&[3]);
    let by_mul = Point::mul_scalar(&three, &g);
    let by_add = Point::add(&Point::add(&g, &g), &g);
    assert!(Point::ct_eq(&by_mul, &by_add));
    let by_base = Point::mul_generator(&three);
    assert!(Point::ct_eq(&by_mul, &by_base));
}

#[test]
fn point_conditional_select_picks_by_choice() {
    let g = Point::generator();
    let z = Point::zero();
    assert!(Point::ct_eq(&Point::conditional_select(&g, &z, false), &g));
    assert!(Point::ct_eq(&Point::conditional_select(&g, &z, true), &z));
}

#[test]
fn curve_membership_flags() {
    let g = Point::generator();
    assert!(g.is_on_curve());
    assert!(g.is_torsion_free());
    assert_eq!(g.to_bytes_uncompressed(), g.to_bytes_compressed());
}
