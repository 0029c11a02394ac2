//! Ordering of scalars and points over their canonical encoded bytes.

use core::cmp::Ordering;
use ristretto255::{Point, Scalar};

#[test]
fn scalar_order_is_over_le_bytes() {
    let zero = Scalar::zero();
    let one = Scalar::one();
    assert_eq!(Scalar::cmp(&zero, &one), Ordering::Less);
    assert_eq!(Scalar::cmp(&one, &zero), Ordering::Greater);
    assert_eq!(Scalar::cmp(&one, &one), Ordering::Equal);
    // the order reads the little-endian encoding byte by byte, so 256,
    // encoded [0, 1, 0, ...], sorts below 2, encoded [2, 0, 0, ...]
    let two_five_six = Scalar::from_le_bytes_mod_order(&[0, 1]);
    let two = Scalar::from_le_bytes_mod_order(&[2]);
    assert_eq!(Scalar::cmp(&two_five_six, &two), Ordering::Less);
    assert_eq!(Scalar::partial_cmp(&zero, &one), Some(Ordering::Less));
}

#[test]
fn point_order_is_over_compressed_bytes() {
    let z = Point::zero();
    let g = Point::generator();
    // the identity encodes as 32 zero bytes, below any other encoding
    assert_eq!(Point::cmp(&z, &g), Ordering::Less);
    assert_eq!(Point::cmp(&g, &z), Ordering::Greater);
    assert_eq!(Point::cmp(&g, &g), Ordering::Equal);
    assert_eq!(Point::partial_cmp(&g, &g), Some(Ordering::Equal));
}
