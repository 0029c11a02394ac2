//! The curve marker type.

use ristretto255::Ristretto255;

#[test]
fn curve_name_is_ristretto255() {
    assert_eq!(Ristretto255::curve_name(), "ristretto255");
}
