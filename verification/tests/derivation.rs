//! HD child-key derivation: determinism, concrete vectors, and agreement
//! with an HMAC-SHA512 digest computed directly.

use hmac::Mac;
use ristretto255::{ExtendedPublicKey, HdWallet, NonHardenedIndex, Point, Scalar};

fn hexval(c: u8) -> u8 {
    match c {
        b'0'..=b'9' => c - b'0',
        b'a'..=b'f' => c - b'a' + 10,
        _ => panic!("bad hex digit"),
    }
}

fn hex32(s: &str) -> [u8; 32] {
    let b = s.as_bytes();
    assert_eq!(b.len(), 64);
    let mut out = [0u8; 32];
    for i in 0..32 {
        out[i] = hexval(b[2 * i]) * 16 + hexval(b[2 * i + 1]);
    }
    out
}

/// A fixed parent: the generator point with chain code 0, 1, ..., 31.
fn parent() -> ExtendedPublicKey {
    let mut chain_code = [0u8; 32];
    for i in 0..32 {
        chain_code[i] = i as u8;
    }
    ExtendedPublicKey { public_key: Point::generator(), chain_code }
}

fn check_vector(index: u32, shift_le: &str, chain_code: &str) {
    let p = parent();
    let idx = NonHardenedIndex::new(index).unwrap();
    let derived = HdWallet::derive_public_shift(&p, idx);
    assert_eq!(derived.shift.to_le_bytes(), hex32(shift_le));
    assert_eq!(derived.child_public_key.chain_code, hex32(chain_code));
    let expected_child = Point::add(&p.public_key, &Point::mul_generator(&derived.shift));
    assert!(Point::ct_eq(&derived.child_public_key.public_key, &expected_child));
}

#[test]
fn derivation_is_deterministic() {
    let p = parent();
    let idx = NonHardenedIndex::new(5).unwrap();
    let a = HdWallet::derive_public_shift(&p, idx);
    let b = HdWallet::derive_public_shift(&p, idx);
    assert_eq!(a.shift.to_le_bytes(), b.shift.to_le_bytes());
    assert_eq!(
        a.child_public_key.public_key.to_bytes_compressed(),
        b.child_public_key.public_key.to_bytes_compressed()
    );
    assert_eq!(a.child_public_key.chain_code, b.child_public_key.chain_code);
}

#[test]
fn derivation_vector_index_zero() {
    check_vector(
        0,
        "2790724c674f5f2ba3d6f8d9ee28f49b89ebd14723d984b33d0dbdd5d80eae05",
        "5794b58d3cfd46cdaba42b6e1d4baa415a52506c6833010116348cf7e8e60e80",
    );
}

#[test]
fn derivation_vector_index_one() {
    check_vector(
        1,
        "5505b4547cd33820f8350217762724e13ad101877fbf3ab0eb00c01e90e78705",
        "36adf0ef79642f1a042fd33b3336b993a0cb8826ac96a3f53136bbf915bf3d46",
    );
}

#[test]
fn derivation_vector_largest_index() {
    check_vector(
        2147483647,
        "d593469a0cc8525bf34c81d6ca89c5a08013f2304a3b1a3e2dc8a0b7ca6cc507",
        "c3c0090e09cdcc20cb1e54596cfdea500e1fc027aadcd7e6c3247bc38a34f6d7",
    );
}

#[test]
fn derivation_matches_direct_hmac() {
    let p = parent();
    let idx = NonHardenedIndex::new(3).unwrap();
    let derived = HdWallet::derive_public_shift(&p, idx);

    let mut mac = <hmac::Hmac<sha2::Sha512> as Mac>::new_from_slice(&p.chain_code).unwrap();
    mac.update(&p.public_key.to_bytes_compressed());
    mac.update(&[0x00]);
    mac.update(&3u32.to_be_bytes());
    let digest: [u8; 64] = mac.finalize().into_bytes().into();

    let mut left = [0u8; 32];
    left.copy_from_slice(&digest[..32]);
    let shift = Scalar::from_be_bytes_mod_order(&left);
    assert_eq!(derived.shift.to_le_bytes(), shift.to_le_bytes());
    assert_eq!(derived.child_public_key.chain_code, digest[32..]);

    let recomputed = HdWallet::calculate_shift(&p, &digest);
    assert_eq!(recomputed.shift.to_le_bytes(), derived.shift.to_le_bytes());
    assert!(Point::ct_eq(
        &recomputed.child_public_key.public_key,
        &derived.child_public_key.public_key
    ));
}

#[test]
fn calculate_shift_of_zero_digest_keeps_parent() {
    let p = parent();
    let derived = HdWallet::calculate_shift(&p, &[0u8; 64]);
    assert!(Scalar::is_zero(&derived.shift));
    assert!(Point::ct_eq(&derived.child_public_key.public_key, &p.public_key));
    assert_eq!(derived.child_public_key.chain_code, [0u8; 32]);
}

#[test]
fn non_hardened_index_bounds() {
    assert!(NonHardenedIndex::new(0).is_some());
    assert!(NonHardenedIndex::new(0x7fff_ffff).is_some());
    assert!(NonHardenedIndex::new(0x8000_0000).is_none());
    assert!(NonHardenedIndex::new(u32::MAX).is_none());
    let idx = NonHardenedIndex::new(1).unwrap();
    assert_eq!(idx.to_u32(), 1);
    assert_eq!(idx.to_be_bytes(), [0, 0, 0, 1]);
    let idx = NonHardenedIndex::new(0x0102_0304).unwrap();
    assert_eq!(idx.to_be_bytes(), [1, 2, 3, 4]);
}
