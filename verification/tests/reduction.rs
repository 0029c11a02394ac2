//! Reduction of byte strings of every boundary length, checked against
//! values computed with an arbitrary-precision integer reference.

use ristretto255::Scalar;

fn hexval(c: u8) -> u8 {
    match c {
        b'0'..=b'9' => c - b'0',
        b'a'..=b'f' => c - b'a' + 10,
        _ => panic!("bad hex digit"),
    }
}

fn hex32(s: &str) -> [u8; 32] {
    let b = s.as_bytes();
    assert_eq!(b.len(), 64);
    let mut out = [0u8; 32];
    for i in 0..32 {
        out[i] = hexval(b[2 * i]) * 16 + hexval(b[2 * i + 1]);
    }
    out
}

/// The byte pattern the expected values below were computed from.
fn pattern(n: usize) -> Vec<u8> {
    (0..n).map(|i| ((i * 7 + 3) % 256) as u8).collect()
}

fn check(n: usize, expected_le: &str, expected_be: &str) {
    let b = pattern(n);
    let le = Scalar::from_le_bytes_mod_order(&b);
    assert_eq!(le.to_le_bytes(), hex32(expected_le));
    let be = Scalar::from_be_bytes_mod_order(&b);
    assert_eq!(be.to_le_bytes(), hex32(expected_be));
}

#[test]
fn reduce_len_0() {
    check(
        0,
        "0000000000000000000000000000000000000000000000000000000000000000",
        "0000000000000000000000000000000000000000000000000000000000000000",
    );
}

#[test]
fn reduce_len_31() {
    check(
        31,
        "030a11181f262d343b424950575e656c737a81888f969da4abb2b9c0c7ced500",
        "d5cec7c0b9b2aba49d968f88817a736c655e575049423b342d261f18110a0300",
    );
}

#[test]
fn reduce_len_32() {
    check(
        32,
        "fa46955fc81d3ebb584bb60909ae125d727a81888f969da4abb2b9c0c7ced50c",
        "dcd5cec7c0b9b2aba49d968f88817a736c655e575049423b342d261f18110a03",
    );
}

#[test]
fn reduce_len_33() {
    check(
        33,
        "8a94e67fc1176036572ab5f060a799414a7981888f969da4abb2b9c0c7ced50c",
        "7320be60d62b472f7b3c3008d1aeb2906f6c655e575049423b342d261f18110a",
    );
}

#[test]
fn reduce_len_63() {
    check(
        63,
        "b24ca20242d929653b855d942f64f58c88723e655aec69cfa2d22b24bbce580e",
        "d9983241f0f5af6f65eea872720e60d46409ef6420e9b2e0301276bd5a208001",
    );
}

#[test]
fn reduce_len_64() {
    check(
        64,
        "4aa70a615c257b2a6f0e1d418c6d294e5bead6ae68915f33e8835f538b5a3d0e",
        "84fb8c7bc8a53c6e57b1b7619305276bd26409ef6420e9b2e0301276bd5a2000",
    );
}

#[test]
fn reduce_len_65() {
    check(
        65,
        "51a8a9a9f1bcf1f729494ddccc8b9532e5f106ef70ca7bd1fc0065ec7af2f90b",
        "e9dc0fd34602818cc11dc271a49f47fd6ad26409ef6420e9b2e0301276bd5a00",
    );
}

#[test]
fn reduce_len_129() {
    check(
        129,
        "720220560d53b3ebce187f55d7c6765bd675446f242a68b4e1c71e8fd8d71509",
        "f5cd1c6609717915c401e1ca4c73e6f61a3629595fa92ca7680145c9613fb30a",
    );
}

#[test]
fn reduce_is_deterministic() {
    for n in [0usize, 31, 32, 33, 63, 64, 65, 129, 200] {
        let b = pattern(n);
        assert_eq!(
            Scalar::from_le_bytes_mod_order(&b).to_le_bytes(),
            Scalar::from_le_bytes_mod_order(&b).to_le_bytes()
        );
        assert_eq!(
            Scalar::from_be_bytes_mod_order(&b).to_le_bytes(),
            Scalar::from_be_bytes_mod_order(&b).to_le_bytes()
        );
    }
}

#[test]
fn reduce_endianness_flip() {
    for n in [0usize, 31, 32, 33, 63, 64, 65, 129, 200] {
        let b = pattern(n);
        let mut rev = b.clone();
        rev.reverse();
        assert_eq!(
            Scalar::from_be_bytes_mod_order(&b).to_le_bytes(),
            Scalar::from_le_bytes_mod_order(&rev).to_le_bytes()
        );
    }
}

#[test]
fn reduce_array_forms_agree() {
    let b = pattern(32);
    let arr: [u8; 32] = b.clone().try_into().unwrap();
    assert_eq!(
        Scalar::from_le_array_mod_order(&arr).to_le_bytes(),
        Scalar::from_le_bytes_mod_order(&b).to_le_bytes()
    );
    assert_eq!(
        Scalar::from_be_array_mod_order(&arr).to_le_bytes(),
        Scalar::from_be_bytes_mod_order(&b).to_le_bytes()
    );
    let w = pattern(64);
    let warr: [u8; 64] = w.clone().try_into().unwrap();
    assert_eq!(
        Scalar::from_le_array_mod_order_wide(&warr).to_le_bytes(),
        Scalar::from_le_bytes_mod_order(&w).to_le_bytes()
    );
    assert_eq!(
        Scalar::from_be_array_mod_order_wide(&warr).to_le_bytes(),
        Scalar::from_be_bytes_mod_order(&w).to_le_bytes()
    );
}
