use soroban_playground::zk_verifier::{is_canonical_scalar, is_readable_g1};

const FR_MODULUS: [u8; 32] = [
    0x30, 0x64, 0x4e, 0x72, 0xe1, 0x31, 0xa0, 0x29, 0xb8, 0x50, 0x45, 0xb6, 0x81, 0x81, 0x58, 0x5d, 0x28, 0x33, 0xe8,
    0x48, 0x79, 0xb9, 0x70, 0x91, 0x43, 0xe1, 0xf5, 0x93, 0xf0, 0x00, 0x00, 0x01,
];

const FQ_MODULUS: [u8; 32] = [
    0x30, 0x64, 0x4e, 0x72, 0xe1, 0x31, 0xa0, 0x29, 0xb8, 0x50, 0x45, 0xb6, 0x81, 0x81, 0x58, 0x5d, 0x97, 0x81, 0x6a,
    0x91, 0x68, 0x71, 0xca, 0x8d, 0x3c, 0x20, 0x8c, 0x16, 0xd8, 0x7c, 0xfd, 0x47,
];

#[test]
fn canonical_scalars_are_those_below_the_field_order() {
    assert!(is_canonical_scalar(&[0u8; 32]));
    let mut below = FR_MODULUS;
    below[31] = 0;
    assert!(is_canonical_scalar(&below));
    assert!(!is_canonical_scalar(&FR_MODULUS));
    assert!(!is_canonical_scalar(&[0xff; 32]));
}

#[test]
fn readable_g1_points_have_both_coordinates_below_q() {
    assert!(is_readable_g1(&[0u8; 64]));
    let mut p = [0u8; 64];
    p[31] = 1;
    p[63] = 2;
    assert!(is_readable_g1(&p));
    assert!(!is_readable_g1(&[0xff; 64]));
    // Y equal to q is not a field element.
    p[32..].copy_from_slice(&FQ_MODULUS);
    assert!(!is_readable_g1(&p));
    // X just below q is.
    let mut q = [0u8; 64];
    q[..32].copy_from_slice(&FQ_MODULUS);
    q[31] -= 1;
    assert!(is_readable_g1(&q));
    // A flag bit set in the first byte.
    let mut f = [0u8; 64];
    f[0] = 0x40;
    assert!(!is_readable_g1(&f));
}
