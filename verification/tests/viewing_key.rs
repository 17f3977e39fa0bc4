use rand_chacha::rand_core::{RngCore, SeedableRng};
use rand_chacha::ChaChaRng;

use sr25519_ecies::ecies::{decrypt, encrypt};
use sr25519_ecies::errors::SignatureError;
use sr25519_ecies::keys::{Keypair, PublicKey, SecretKey};
use sr25519_ecies::viewing_key::{
    FullViewingKey, IncomingViewingKey, OutgoingViewingKey, FULL_VIEWING_KEY_LENGTH,
};

fn test_keypair(seed: u8) -> Keypair {
    let mut rng = ChaChaRng::from_seed([seed; 32]);
    let mut bytes = [0u8; 64];
    rng.fill_bytes(&mut bytes);
    SecretKey::from_uniform_bytes(&bytes).to_keypair()
}

// --- IncomingViewingKey ---

#[test]
fn ivk_derivation_is_deterministic() {
    let kp = test_keypair(1);
    let ivk1 = IncomingViewingKey::from_secret(&kp.secret);
    let ivk2 = IncomingViewingKey::from_secret(&kp.secret);
    assert!(ivk1 == ivk2);
}

#[test]
fn ivk_public_differs_from_signing_public() {
    let kp = test_keypair(1);
    let ivk = IncomingViewingKey::from_secret(&kp.secret);
    assert!(ivk.ivk_public() != &kp.public);
}

#[test]
fn ivk_different_keys_differ() {
    let ivk1 = IncomingViewingKey::from_secret(&test_keypair(1).secret);
    let ivk2 = IncomingViewingKey::from_secret(&test_keypair(2).secret);
    assert!(ivk1 != ivk2);
}

#[test]
fn ivk_serialization_round_trip() {
    let kp = test_keypair(1);
    let ivk = IncomingViewingKey::from_secret(&kp.secret);
    let bytes = ivk.to_bytes();
    let ivk2 = IncomingViewingKey::from_bytes(&bytes).unwrap();
    assert!(ivk == ivk2);
}

#[test]
fn ivk_tampered_scalar_rejected() {
    let kp = test_keypair(1);
    let ivk = IncomingViewingKey::from_secret(&kp.secret);
    let mut bytes = ivk.to_bytes();
    bytes[0] ^= 0x01;
    assert!(IncomingViewingKey::from_bytes(&bytes).is_err());
}

#[test]
fn ivk_debug_does_not_leak_scalar() {
    let kp = test_keypair(1);
    let ivk = IncomingViewingKey::from_secret(&kp.secret);
    let debug = ivk.debug_string();
    assert!(!debug.contains("ivk_scalar"));
}

// --- OutgoingViewingKey ---

#[test]
fn ovk_derivation_is_deterministic() {
    let kp = test_keypair(1);
    let ovk1 = OutgoingViewingKey::from_secret(&kp.secret);
    let ovk2 = OutgoingViewingKey::from_secret(&kp.secret);
    assert!(ovk1 == ovk2);
}

#[test]
fn ovk_different_keys_differ() {
    let ovk1 = OutgoingViewingKey::from_secret(&test_keypair(1).secret);
    let ovk2 = OutgoingViewingKey::from_secret(&test_keypair(2).secret);
    assert!(ovk1 != ovk2);
}

#[test]
fn ovk_serialization_round_trip() {
    let kp = test_keypair(1);
    let ovk = OutgoingViewingKey::from_secret(&kp.secret);
    let bytes = ovk.to_bytes();
    let ovk2 = OutgoingViewingKey::from_bytes(&bytes).unwrap();
    assert!(ovk == ovk2);
}

#[test]
fn ovk_debug_redacted() {
    let kp = test_keypair(1);
    let ovk = OutgoingViewingKey::from_secret(&kp.secret);
    let debug = ovk.debug_string();
    assert_eq!(debug, "OutgoingViewingKey(***)");
}

// --- FullViewingKey ---

#[test]
fn fvk_from_secret_and_keypair_match() {
    let kp = test_keypair(1);
    let fvk1 = FullViewingKey::from_secret(&kp.secret);
    let fvk2 = FullViewingKey::from_keypair(&kp);
    assert!(fvk1.ivk() == fvk2.ivk());
    assert!(fvk1.ovk() == fvk2.ovk());
    assert!(fvk1.signing_public() == fvk2.signing_public());
}

#[test]
fn fvk_serialization_round_trip() {
    let kp = test_keypair(1);
    let fvk = FullViewingKey::from_keypair(&kp);
    let bytes = fvk.to_bytes();
    assert_eq!(bytes.len(), FULL_VIEWING_KEY_LENGTH);
    let fvk2 = FullViewingKey::from_bytes(&bytes).unwrap();
    assert!(fvk == fvk2);
}

#[test]
fn fvk_debug_does_not_leak_secrets() {
    let kp = test_keypair(1);
    let fvk = FullViewingKey::from_keypair(&kp);
    let debug = fvk.debug_string();
    let ivk_hex = format!("{:?}", &fvk.ivk().to_bytes()[..32]);
    assert!(!debug.contains(&ivk_hex));
}

#[test]
fn ivk_and_ovk_are_independent() {
    // IVK is a scalar, OVK is a symmetric key: derived from the
    // same secret under different domains, they must differ.
    let kp = test_keypair(1);
    let ivk = IncomingViewingKey::from_secret(&kp.secret);
    let ovk = OutgoingViewingKey::from_secret(&kp.secret);
    assert_ne!(&ivk.to_bytes()[..32], &ovk.to_bytes()[..]);
}

// --- With ECIES ---

#[test]
fn ecies_ivk_round_trip() {
    let kp = test_keypair(1);
    let alice_ovk = OutgoingViewingKey::from_secret(&test_keypair(2).secret);
    let ivk = IncomingViewingKey::from_secret(&kp.secret);
    let ctx = b"test-ivk";
    let plaintext = b"incoming only";

    let encrypted = encrypt(plaintext, ivk.ivk_public(), ctx, &alice_ovk).unwrap();

    let decrypted = ivk.decrypt(&encrypted, ctx).unwrap();
    assert_eq!(&decrypted[..], plaintext);

    // Signing secret key cannot decrypt (different key)
    let result = decrypt(&encrypted, &kp.secret, ctx);
    assert!(result.is_err());
}

#[test]
fn ecies_fvk_round_trip() {
    let alice = test_keypair(1);
    let bob = test_keypair(2);
    let alice_fvk = FullViewingKey::from_keypair(&alice);
    let bob_fvk = FullViewingKey::from_keypair(&bob);
    let ctx = b"test-fvk";
    let plaintext = b"full viewing key round trip";

    let encrypted = encrypt(plaintext, bob_fvk.ivk_public(), ctx, alice_fvk.ovk()).unwrap();

    // Bob decrypts incoming
    let decrypted = bob_fvk.decrypt_incoming(&encrypted, ctx).unwrap();
    assert_eq!(&decrypted[..], plaintext);

    // Alice decrypts outgoing
    let decrypted2 = alice_fvk.decrypt_outgoing(&encrypted, bob_fvk.ivk_public(), ctx).unwrap();
    assert_eq!(&decrypted2[..], plaintext);
}

#[test]
fn viewing_key_wrong_ovk_fails() {
    let alice = test_keypair(1);
    let bob = test_keypair(2);
    let charlie = test_keypair(3);
    let alice_fvk = FullViewingKey::from_keypair(&alice);
    let bob_fvk = FullViewingKey::from_keypair(&bob);
    let charlie_fvk = FullViewingKey::from_keypair(&charlie);

    let encrypted = encrypt(b"secret", bob_fvk.ivk_public(), b"ctx", alice_fvk.ovk()).unwrap();

    let result = charlie_fvk.decrypt_outgoing(&encrypted, bob_fvk.ivk_public(), b"ctx");
    assert!(result.is_err());
}

#[test]
fn tampered_ovk_blob_fails() {
    let alice = test_keypair(1);
    let bob = test_keypair(2);
    let alice_fvk = FullViewingKey::from_keypair(&alice);
    let bob_fvk = FullViewingKey::from_keypair(&bob);

    let mut encrypted =
        encrypt(b"tamper test", bob_fvk.ivk_public(), b"ctx", alice_fvk.ovk()).unwrap();

    let last = encrypted.len() - 1;
    encrypted[last] ^= 0x01;

    // IVK still works
    assert!(bob_fvk.decrypt_incoming(&encrypted, b"ctx").is_ok());
    // OVK fails
    assert!(alice_fvk.decrypt_outgoing(&encrypted, bob_fvk.ivk_public(), b"ctx").is_err());
}

// --- Derivation, step by step with the cryptographic crates ---

#[test]
fn ivk_is_the_reduced_challenge() {
    let kp = test_keypair(5);
    let mut t = merlin::Transcript::new(b"sr25519-ivk");
    t.append_message(b"signing-scalar", &kp.secret.scalar().to_bytes());
    let mut wide = [0u8; 64];
    t.challenge_bytes(b"ivk-scalar", &mut wide);
    let scalar = curve25519_dalek::scalar::Scalar::from_bytes_mod_order_wide(&wide);
    let public = (&scalar * curve25519_dalek::constants::RISTRETTO_BASEPOINT_TABLE).compress();

    let bytes = IncomingViewingKey::from_secret(&kp.secret).to_bytes();
    assert_eq!(&bytes[..32], &scalar.to_bytes());
    assert_eq!(&bytes[32..], public.as_bytes());
}

#[test]
fn ovk_is_the_challenge() {
    let kp = test_keypair(5);
    let mut t = merlin::Transcript::new(b"sr25519-ovk");
    t.append_message(b"signing-scalar", &kp.secret.scalar().to_bytes());
    let mut key = [0u8; 32];
    t.challenge_bytes(b"ovk-key", &mut key);
    assert_eq!(OutgoingViewingKey::from_secret(&kp.secret).to_bytes(), key);
}

// --- Errors in serialized keys ---

#[test]
fn wrong_lengths_are_reported() {
    assert!(matches!(
        IncomingViewingKey::from_bytes(&[0u8; 63]),
        Err(SignatureError::BytesLengthError { name: "IncomingViewingKey", length: 64, .. })
    ));
    assert!(matches!(
        OutgoingViewingKey::from_bytes(&[0u8; 33]),
        Err(SignatureError::BytesLengthError { name: "OutgoingViewingKey", length: 32, .. })
    ));
    assert!(matches!(
        FullViewingKey::from_bytes(&[0u8; 127]),
        Err(SignatureError::BytesLengthError { name: "FullViewingKey", length: 128, .. })
    ));
    match FullViewingKey::from_bytes(&[]) {
        Err(SignatureError::BytesLengthError { description, .. }) => {
            assert_eq!(description, "A 128-byte sr25519 full viewing key")
        }
        _ => panic!("a length error was expected"),
    }
}

#[test]
fn ivk_scalar_has_to_be_below_the_group_order() {
    let mut bytes = IncomingViewingKey::from_secret(&test_keypair(1).secret).to_bytes();
    bytes[..32].copy_from_slice(&[0xff; 32]);
    assert!(matches!(
        IncomingViewingKey::from_bytes(&bytes),
        Err(SignatureError::ScalarFormatError)
    ));
}

#[test]
fn ivk_public_has_to_be_that_of_the_scalar() {
    let bytes = IncomingViewingKey::from_secret(&test_keypair(1).secret).to_bytes();
    let mut other = bytes;
    other[32..].copy_from_slice(&test_keypair(2).public.to_bytes());
    assert!(matches!(
        IncomingViewingKey::from_bytes(&other),
        Err(SignatureError::PointDecompressionError)
    ));
    let mut no_point = bytes;
    no_point[32..].copy_from_slice(&[0xff; 32]);
    assert!(matches!(
        IncomingViewingKey::from_bytes(&no_point),
        Err(SignatureError::PointDecompressionError)
    ));
}

#[test]
fn ivk_public_is_checked_against_the_expected_one() {
    let (one, other) = (test_keypair(1).public, test_keypair(2).public);
    assert_eq!(IncomingViewingKey::check_public(&one, &one), Ok(()));
    assert_eq!(
        IncomingViewingKey::check_public(&one, &other),
        Err(SignatureError::PointDecompressionError)
    );
}

#[test]
fn fvk_signing_public_has_to_be_a_point() {
    let mut bytes = FullViewingKey::from_keypair(&test_keypair(1)).to_bytes();
    bytes[96..].copy_from_slice(&[0xff; 32]);
    assert!(matches!(
        FullViewingKey::from_bytes(&bytes),
        Err(SignatureError::PointDecompressionError)
    ));
}

#[test]
fn fvk_bytes_are_the_parts_in_order() {
    let kp = test_keypair(1);
    let fvk = FullViewingKey::from_keypair(&kp);
    let bytes = fvk.to_bytes();
    assert_eq!(&bytes[..64], &fvk.ivk().to_bytes()[..]);
    assert_eq!(&bytes[64..96], &fvk.ovk().to_bytes()[..]);
    assert_eq!(&bytes[96..], &kp.public.to_bytes()[..]);
    // Reading and writing again gives the same bytes.
    assert_eq!(FullViewingKey::from_bytes(&bytes).unwrap().to_bytes(), bytes);
}

// --- Comparison, erasure, text ---

#[test]
fn fvk_comparison_looks_at_the_secret_parts_only() {
    let kp = test_keypair(1);
    let fvk = FullViewingKey::from_keypair(&kp);
    let mut bytes = fvk.to_bytes();
    bytes[96..].copy_from_slice(&test_keypair(2).public.to_bytes());
    let renamed = FullViewingKey::from_bytes(&bytes).unwrap();
    assert!(fvk == renamed);
    assert_eq!(fvk.ct_eq(&renamed), 1);

    bytes[64] ^= 1;
    let other_ovk = FullViewingKey::from_bytes(&bytes).unwrap();
    assert!(fvk != other_ovk);
    assert_eq!(fvk.ct_eq(&other_ovk), 0);
    assert!(fvk != FullViewingKey::from_keypair(&test_keypair(3)));
}

#[test]
fn erased_keys_are_zero() {
    let mut fvk = FullViewingKey::from_keypair(&test_keypair(1));
    let copy = fvk.clone();
    fvk.zeroize();
    let bytes = fvk.to_bytes();
    assert_eq!(&bytes[..32], &[0u8; 32]);
    assert_eq!(&bytes[32..64], &copy.to_bytes()[32..64]);
    assert_eq!(&bytes[64..96], &[0u8; 32]);
    assert_eq!(&bytes[96..], &copy.to_bytes()[96..]);
    assert!(fvk != copy);
    // The public key is no longer that of the scalar.
    assert!(FullViewingKey::from_bytes(&bytes).is_err());
}

#[test]
fn debug_texts() {
    let zero = [0u8; 32];
    let identity = PublicKey::from_bytes(&zero).unwrap();
    let text = format!("PublicKey( RistrettoPoint( CompressedRistretto: {:?} ) )", zero);
    assert_eq!(identity.debug_string(), text);
    // Numbers of one, two and three digits.
    let base = curve25519_dalek::constants::RISTRETTO_BASEPOINT_COMPRESSED.to_bytes();
    assert_eq!(
        PublicKey::from_bytes(&base).unwrap().debug_string(),
        "PublicKey( RistrettoPoint( CompressedRistretto: [226, 242, 174, 10, 106, 188, 78, 113, \
         168, 132, 169, 97, 197, 0, 81, 95, 88, 227, 11, 106, 165, 130, 221, 141, 182, 166, 89, \
         69, 224, 141, 45, 118] ) )"
    );

    let kp = test_keypair(1);
    let fvk = FullViewingKey::from_keypair(&kp);
    let ivk_public = fvk.ivk_public().debug_string();
    assert_eq!(
        fvk.ivk().debug_string(),
        format!("IncomingViewingKey {{ ivk_public: {} }}", ivk_public)
    );
    assert_eq!(
        fvk.debug_string(),
        format!(
            "FullViewingKey {{ ivk_public: {}, signing_public: {} }}",
            ivk_public,
            kp.public.debug_string()
        )
    );
}

#[test]
fn public_half_admits_one_scalar() {
    let bytes = IncomingViewingKey::from_secret(&test_keypair(1).secret).to_bytes();
    for bit in 0..256 {
        let mut other = bytes;
        other[bit / 8] ^= 1 << (bit % 8);
        assert!(IncomingViewingKey::from_bytes(&other).is_err());
    }
}

#[test]
fn ivk_key_exchange_agrees() {
    let ivk = IncomingViewingKey::from_secret(&test_keypair(1).secret);
    let e = test_keypair(2);
    let shared = ivk.raw_key_exchange(&e.public);
    assert_eq!(shared, e.secret.raw_key_exchange(ivk.ivk_public()));
    assert_ne!(shared, e.public.to_bytes());
}

#[test]
fn every_string_of_32_bytes_is_an_ovk() {
    for byte in [0u8, 1, 0x7f, 0xff] {
        assert_eq!(OutgoingViewingKey::from_bytes(&[byte; 32]).unwrap().to_bytes(), [byte; 32]);
    }
}
