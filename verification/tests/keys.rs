use sr25519_ecies::bytes::{put, to_array};
use sr25519_ecies::curve::Scalar;
use sr25519_ecies::errors::SignatureError;
use sr25519_ecies::keys::{Keypair, PublicKey, SecretKey};

// 2^252 + 27742317777372353535851937790883648493, least significant byte first.
const GROUP_ORDER: [u8; 32] = [
    0xed, 0xd3, 0xf5, 0x5c, 0x1a, 0x63, 0x12, 0x58, 0xd6, 0x9c, 0xf7, 0xa2, 0xde, 0xf9, 0xde, 0x14,
    0, 0, 0, 0, 0, 0, 0, 0, 0, 0, 0, 0, 0, 0, 0, 0x10,
];

// The encoding of the base point.
const BASE_POINT: [u8; 32] = [
    0xe2, 0xf2, 0xae, 0x0a, 0x6a, 0xbc, 0x4e, 0x71, 0xa8, 0x84, 0xa9, 0x61, 0xc5, 0x00, 0x51, 0x5f,
    0x58, 0xe3, 0x0b, 0x6a, 0xa5, 0x82, 0xdd, 0x8d, 0xb6, 0xa6, 0x59, 0x45, 0xe0, 0x8d, 0x2d, 0x76,
];

// The encoding of twice the base point.
const TWICE_BASE_POINT: [u8; 32] = [
    0x6a, 0x49, 0x32, 0x10, 0xf7, 0x49, 0x9c, 0xd1, 0x7f, 0xec, 0xb5, 0x10, 0xae, 0x0c, 0xea, 0x23,
    0xa1, 0x10, 0xe8, 0xd5, 0xb9, 0x01, 0xf8, 0xac, 0xad, 0xd3, 0x09, 0x5c, 0x73, 0xa3, 0xb9, 0x19,
];

fn small_secret(n: u8) -> SecretKey {
    let mut bytes = [0u8; 64];
    bytes[0] = n;
    SecretKey::from_uniform_bytes(&bytes)
}

#[test]
fn scalars_are_below_the_group_order() {
    assert!(Scalar::from_canonical_bytes(GROUP_ORDER).is_none());
    assert!(Scalar::from_canonical_bytes([0xff; 32]).is_none());
    let mut largest = GROUP_ORDER;
    largest[0] -= 1;
    assert_eq!(Scalar::from_canonical_bytes(largest).unwrap().to_bytes(), largest);
    assert_eq!(Scalar::from_canonical_bytes([0; 32]).unwrap().to_bytes(), [0; 32]);
}

#[test]
fn wide_numbers_are_reduced() {
    let mut wide = [0u8; 64];
    wide[..32].copy_from_slice(&GROUP_ORDER);
    assert_eq!(Scalar::from_bytes_mod_order_wide(&wide).to_bytes(), [0u8; 32]);
    wide[0] += 9;
    let mut nine = [0u8; 32];
    nine[0] = 9;
    assert_eq!(Scalar::from_bytes_mod_order_wide(&wide).to_bytes(), nine);
}

#[test]
fn erased_scalar_is_zero() {
    let mut scalar = *small_secret(5).scalar();
    scalar.zeroize();
    assert_eq!(scalar.to_bytes(), [0u8; 32]);
}

#[test]
fn public_keys_are_multiples_of_the_base_point() {
    assert_eq!(small_secret(0).to_public().to_bytes(), [0u8; 32]);
    assert_eq!(small_secret(1).to_public().to_bytes(), BASE_POINT);
    assert_eq!(small_secret(2).to_public().to_bytes(), TWICE_BASE_POINT);
    assert!(small_secret(0).to_public().is_identity());
    assert!(!small_secret(1).to_public().is_identity());
}

#[test]
fn key_exchange_multiplies() {
    let base = PublicKey::from_bytes(&BASE_POINT).unwrap();
    assert_eq!(small_secret(2).raw_key_exchange(&base), TWICE_BASE_POINT);
    let (a, b) = (small_secret(17), small_secret(200));
    assert_eq!(a.raw_key_exchange(&b.to_public()), b.raw_key_exchange(&a.to_public()));
}

#[test]
fn public_key_bytes() {
    assert!(matches!(
        PublicKey::from_bytes(&[0u8; 31]),
        Err(SignatureError::BytesLengthError { name: "PublicKey", length: 32, .. })
    ));
    assert!(matches!(
        PublicKey::from_bytes(&[0xff; 32]),
        Err(SignatureError::PointDecompressionError)
    ));
    let base = PublicKey::from_bytes(&BASE_POINT).unwrap();
    assert_eq!(base.to_bytes(), BASE_POINT);
    assert!(base == small_secret(1).to_public());
    assert!(base != small_secret(2).to_public());
}

#[test]
fn generated_pairs_belong_together_and_differ() {
    let first = Keypair::generate();
    let second = Keypair::generate();
    assert!(first.public == first.secret.to_public());
    assert!(first.public != second.public);
}

#[test]
fn copies_of_bytes() {
    assert_eq!(to_array::<4>(&[1, 2, 3, 4]), [1, 2, 3, 4]);
    let mut out = [9u8; 5];
    put(&mut out, 1, &[1, 2]);
    assert_eq!(out, [9, 1, 2, 9, 9]);
}

#[test]
fn different_scalars_have_different_public_keys() {
    for n in 1..40 {
        assert!(small_secret(n).to_public() != small_secret(n - 1).to_public());
    }
}
