use rand_chacha::rand_core::{RngCore, SeedableRng};
use rand_chacha::ChaChaRng;

use chacha20poly1305::aead::{Aead, KeyInit, Payload};
use chacha20poly1305::ChaCha20Poly1305;

use sr25519_ecies::aead::NONCE_LENGTH;
use sr25519_ecies::ecies::{
    build_aad, complete_message, decrypt, decrypt_inner, decrypt_outgoing, decrypt_with_ivk,
    encrypt, encrypt_with, encrypt_with_nonces, parse_ephemeral_pk, reject_identity, seal_payload,
    unwrapped_scalar, EciesError, Envelope, ECIES_OVERHEAD, OVK_BLOB_LEN,
};
use sr25519_ecies::keys::{Keypair, PublicKey, SecretKey, PUBLIC_KEY_LENGTH};
use sr25519_ecies::viewing_key::{IncomingViewingKey, OutgoingViewingKey};

fn test_secret(seed: [u8; 32]) -> SecretKey {
    let mut rng = ChaChaRng::from_seed(seed);
    let mut bytes = [0u8; 64];
    rng.fill_bytes(&mut bytes);
    SecretKey::from_uniform_bytes(&bytes)
}

fn test_keypair(seed: u8) -> Keypair {
    test_secret([seed; 32]).to_keypair()
}

fn test_ovk(seed: u8) -> OutgoingViewingKey {
    OutgoingViewingKey::from_secret(&test_keypair(seed).secret)
}

fn test_ivk(seed: u8) -> IncomingViewingKey {
    IncomingViewingKey::from_secret(&test_keypair(seed).secret)
}

#[test]
fn round_trip() {
    let bob_ivk = test_ivk(2);
    let alice_ovk = test_ovk(1);
    let ctx = b"test-round-trip";
    let plaintext = b"hello bob, this is alice";

    let encrypted = encrypt(plaintext, bob_ivk.ivk_public(), ctx, &alice_ovk).unwrap();
    assert_eq!(encrypted.len(), ECIES_OVERHEAD + plaintext.len());

    // Bob decrypts with IVK
    let decrypted = bob_ivk.decrypt(&encrypted, ctx).unwrap();
    assert_eq!(&decrypted[..], plaintext);

    // Alice decrypts outgoing with OVK
    let decrypted2 = decrypt_outgoing(&encrypted, &alice_ovk, bob_ivk.ivk_public(), ctx).unwrap();
    assert_eq!(&decrypted2[..], plaintext);
}

#[test]
fn wrong_ivk_fails() {
    let bob_ivk = test_ivk(2);
    let alice_ovk = test_ovk(1);
    let charlie_ivk = test_ivk(3);

    let encrypted = encrypt(b"secret", bob_ivk.ivk_public(), b"ctx", &alice_ovk).unwrap();
    assert_eq!(charlie_ivk.decrypt(&encrypted, b"ctx"), Err(EciesError::DecryptionFailed));
}

#[test]
fn ecies_wrong_ovk_fails() {
    let bob_ivk = test_ivk(2);
    let alice_ovk = test_ovk(1);
    let charlie_ovk = test_ovk(3);

    let encrypted = encrypt(b"secret", bob_ivk.ivk_public(), b"ctx", &alice_ovk).unwrap();
    assert_eq!(
        decrypt_outgoing(&encrypted, &charlie_ovk, bob_ivk.ivk_public(), b"ctx"),
        Err(EciesError::DecryptionFailed)
    );
}

#[test]
fn wrong_recipient_pk_in_outgoing_fails() {
    let bob_ivk = test_ivk(2);
    let alice_ovk = test_ovk(1);
    let charlie_ivk = test_ivk(3);

    let encrypted = encrypt(b"test", bob_ivk.ivk_public(), b"ctx", &alice_ovk).unwrap();
    // Wrong recipient pk: the key of the wrapped secret does not match
    assert_eq!(
        decrypt_outgoing(&encrypted, &alice_ovk, charlie_ivk.ivk_public(), b"ctx"),
        Err(EciesError::DecryptionFailed)
    );
}

#[test]
fn deterministic_encryption() {
    let bob_ivk = test_ivk(2);
    let alice_ovk = test_ovk(1);
    let ctx = b"test-det";
    let plaintext = b"deterministic";

    let eph = test_secret([42; 32]);
    let enc1 = encrypt_with(plaintext, bob_ivk.ivk_public(), ctx, &eph, &alice_ovk).unwrap();
    let enc2 = encrypt_with(plaintext, bob_ivk.ivk_public(), ctx, &eph, &alice_ovk).unwrap();

    // Same ephemeral pk
    assert_eq!(&enc1[..32], &enc2[..32]);
    // Different nonces
    assert_ne!(enc1, enc2);

    assert_eq!(bob_ivk.decrypt(&enc1, ctx).unwrap(), plaintext);
    assert_eq!(bob_ivk.decrypt(&enc2, ctx).unwrap(), plaintext);
}

#[test]
fn empty_plaintext() {
    let bob_ivk = test_ivk(2);
    let alice_ovk = test_ovk(1);

    let encrypted = encrypt(b"", bob_ivk.ivk_public(), b"empty", &alice_ovk).unwrap();
    assert_eq!(encrypted.len(), ECIES_OVERHEAD);
    assert!(bob_ivk.decrypt(&encrypted, b"empty").unwrap().is_empty());
    assert!(decrypt_outgoing(&encrypted, &alice_ovk, bob_ivk.ivk_public(), b"empty")
        .unwrap()
        .is_empty());
}

#[test]
fn wrong_context_fails() {
    let bob_ivk = test_ivk(2);
    let alice_ovk = test_ovk(1);

    let encrypted = encrypt(b"ctx test", bob_ivk.ivk_public(), b"ctx-a", &alice_ovk).unwrap();
    assert_eq!(bob_ivk.decrypt(&encrypted, b"ctx-b"), Err(EciesError::DecryptionFailed));
}

#[test]
fn truncated_ciphertext() {
    assert_eq!(
        decrypt(&[0u8; 10], &test_keypair(1).secret, b"ctx"),
        Err(EciesError::CiphertextTooShort)
    );
}

#[test]
fn tampered_ciphertext() {
    let bob_ivk = test_ivk(2);
    let alice_ovk = test_ovk(1);

    let mut encrypted = encrypt(b"tamper", bob_ivk.ivk_public(), b"ctx", &alice_ovk).unwrap();
    // Tamper in the main ciphertext area (before the OVK blob)
    let tamper_idx = PUBLIC_KEY_LENGTH + NONCE_LENGTH + 1;
    encrypted[tamper_idx] ^= 0x01;
    assert_eq!(bob_ivk.decrypt(&encrypted, b"ctx"), Err(EciesError::DecryptionFailed));
}

#[test]
fn tampered_ovk_blob() {
    let bob_ivk = test_ivk(2);
    let alice_ovk = test_ovk(1);

    let mut encrypted = encrypt(b"tamper ovk", bob_ivk.ivk_public(), b"ctx", &alice_ovk).unwrap();
    let last = encrypted.len() - 1;
    encrypted[last] ^= 0x01;

    // IVK decrypt still works (the OVK blob is stripped)
    assert!(bob_ivk.decrypt(&encrypted, b"ctx").is_ok());
    // OVK decrypt fails
    assert_eq!(
        decrypt_outgoing(&encrypted, &alice_ovk, bob_ivk.ivk_public(), b"ctx"),
        Err(EciesError::DecryptionFailed)
    );
}

#[test]
fn large_plaintext() {
    let bob_ivk = test_ivk(2);
    let alice_ovk = test_ovk(1);
    let plaintext = vec![0xAB; 65536];

    let encrypted = encrypt(&plaintext, bob_ivk.ivk_public(), b"lg", &alice_ovk).unwrap();
    assert_eq!(bob_ivk.decrypt(&encrypted, b"lg").unwrap(), plaintext);
    assert_eq!(
        decrypt_outgoing(&encrypted, &alice_ovk, bob_ivk.ivk_public(), b"lg").unwrap(),
        plaintext
    );
}

#[test]
fn reject_identity_recipient() {
    let identity = PublicKey::from_bytes(&[0u8; 32]).unwrap();
    let ovk = test_ovk(1);
    assert_eq!(encrypt(b"test", &identity, b"ctx", &ovk), Err(EciesError::IdentityRecipient));
}

#[test]
fn reject_identity_ephemeral() {
    let bob_ivk = test_ivk(2);
    let alice_ovk = test_ovk(1);

    let mut encrypted = encrypt(b"test", bob_ivk.ivk_public(), b"ctx", &alice_ovk).unwrap();
    // Overwrite ephemeral pk with identity
    encrypted[..32].copy_from_slice(&[0u8; 32]);
    assert_eq!(bob_ivk.decrypt(&encrypted, b"ctx"), Err(EciesError::InvalidEphemeralKey));
}

#[test]
fn decrypt_with_secret_key_directly() {
    // Encrypt to Bob's raw public key (not IVK), decrypt with secret key
    let bob = test_keypair(2);
    let alice_ovk = test_ovk(1);
    let ctx = b"raw-sk";
    let plaintext = b"direct secret key";

    let encrypted = encrypt(plaintext, &bob.public, ctx, &alice_ovk).unwrap();
    let decrypted = decrypt(&encrypted, &bob.secret, ctx).unwrap();
    assert_eq!(&decrypted[..], plaintext);
}

// The constants of the wire format.
#[test]
fn wire_format_lengths() {
    assert_eq!(ECIES_OVERHEAD, 120);
    assert_eq!(OVK_BLOB_LEN, 60);
    assert_eq!(PUBLIC_KEY_LENGTH, 32);
}

#[test]
fn envelope_is_too_short_below_the_overhead() {
    let bytes = [7u8; 120];
    assert!(matches!(Envelope::parse(&bytes[..119]), Err(EciesError::CiphertextTooShort)));
    assert!(Envelope::parse(&bytes).is_ok());
    assert!(matches!(
        decrypt_outgoing(&bytes[..119], &test_ovk(1), test_ivk(2).ivk_public(), b"ctx"),
        Err(EciesError::CiphertextTooShort)
    ));
}

#[test]
fn envelope_parts_are_where_the_wire_format_puts_them() {
    let mut bytes = vec![1u8; 32];
    bytes.extend_from_slice(&[2u8; 12]);
    bytes.extend_from_slice(&[3u8; 16 + 5]);
    bytes.extend_from_slice(&[4u8; 12]);
    bytes.extend_from_slice(&[5u8; 48]);
    let envelope = Envelope::parse(&bytes).unwrap();
    assert_eq!(envelope.ephemeral_pk, &[1u8; 32]);
    assert_eq!(envelope.nonce, [2u8; 12]);
    assert_eq!(envelope.encrypted, &[3u8; 21]);
    assert_eq!(envelope.ovk_nonce, [4u8; 12]);
    assert_eq!(envelope.ovk_ciphertext, &[5u8; 48]);
    // Put together again, the message is what it was.
    assert_eq!(envelope.assemble(), bytes);
}

#[test]
fn associated_data_is_both_public_keys() {
    let aad = build_aad(&[8u8; 32], &[9u8; 32]);
    assert_eq!(&aad[..32], &[8u8; 32]);
    assert_eq!(&aad[32..], &[9u8; 32]);
}

#[test]
fn ephemeral_key_has_to_be_a_point() {
    assert!(matches!(parse_ephemeral_pk(&[0u8; 32]), Err(EciesError::InvalidEphemeralKey)));
    assert!(matches!(parse_ephemeral_pk(&[0xffu8; 32]), Err(EciesError::InvalidEphemeralKey)));
    assert!(matches!(parse_ephemeral_pk(&[1u8; 31]), Err(EciesError::InvalidEphemeralKey)));
    let pk = test_keypair(4).public;
    assert!(parse_ephemeral_pk(&pk.to_bytes()).unwrap() == pk);
}

#[test]
fn identity_is_rejected_and_others_are_not() {
    let identity = PublicKey::from_bytes(&[0u8; 32]).unwrap();
    assert_eq!(reject_identity(&identity), Err(EciesError::IdentityRecipient));
    assert_eq!(reject_identity(&test_keypair(1).public), Ok(()));
}

#[test]
fn unwrapped_bytes_have_to_be_a_scalar() {
    assert!(matches!(unwrapped_scalar(&[0u8; 31]), Err(EciesError::DecryptionFailed)));
    assert!(matches!(unwrapped_scalar(&[0xffu8; 32]), Err(EciesError::DecryptionFailed)));
    let mut seven = [0u8; 32];
    seven[0] = 7;
    assert_eq!(unwrapped_scalar(&seven).unwrap().to_bytes(), seven);
}

// The whole message, computed step by step with the cryptographic crates.
#[test]
fn message_with_given_nonces() {
    let bob = test_keypair(2);
    let alice_ovk = test_ovk(1);
    let eph = test_secret([42; 32]);
    let eph_pk = eph.to_public().to_bytes();
    let bob_pk = bob.public.to_bytes();

    let scalar = curve25519_dalek::scalar::Scalar::from_canonical_bytes(eph.scalar().to_bytes());
    let point = curve25519_dalek::ristretto::CompressedRistretto(bob_pk).decompress().unwrap();
    let shared = (scalar.unwrap() * point).compress();

    let mut t = merlin::Transcript::new(b"sr25519-ecies");
    t.append_message(b"ctx", b"given");
    t.append_message(b"ephemeral-pk", &eph_pk);
    t.append_message(b"recipient-pk", &bob_pk);
    t.append_message(b"shared-secret", shared.as_bytes());
    let mut key = [0u8; 32];
    t.challenge_bytes(b"aead-key", &mut key);
    let mut aad = eph_pk.to_vec();
    aad.extend_from_slice(&bob_pk);
    let payload = ChaCha20Poly1305::new(&key.into())
        .encrypt(&[1u8; 12].into(), Payload { msg: b"nonces", aad: &aad })
        .unwrap();

    let mut t = merlin::Transcript::new(b"sr25519-ecies-ovk-wrap");
    t.append_message(b"ovk", &alice_ovk.to_bytes());
    t.append_message(b"ephemeral-pk", &eph_pk);
    t.append_message(b"recipient-pk", &bob_pk);
    t.append_message(b"main-ciphertext", &payload);
    let mut key = [0u8; 32];
    t.challenge_bytes(b"ovk-wrap-key", &mut key);
    let wrapped = ChaCha20Poly1305::new(&key.into())
        .encrypt(&[2u8; 12].into(), &eph.scalar().to_bytes()[..])
        .unwrap();

    let mut expected = eph_pk.to_vec();
    expected.extend_from_slice(&[1u8; 12]);
    expected.extend_from_slice(&payload);
    expected.extend_from_slice(&[2u8; 12]);
    expected.extend_from_slice(&wrapped);

    let message = encrypt_with_nonces(
        b"nonces",
        &bob.public,
        b"given",
        &eph,
        &alice_ovk,
        &[1u8; 12],
        &[2u8; 12],
    )
    .unwrap();
    assert_eq!(message, expected);
    assert_eq!(decrypt(&message, &bob.secret, b"given").unwrap(), b"nonces");
    assert_eq!(
        decrypt_outgoing(&message, &alice_ovk, &bob.public, b"given").unwrap(),
        b"nonces"
    );
}

// With a zero ephemeral secret the message starts with the identity, and nobody can read it.
#[test]
fn zero_ephemeral_secret_cannot_be_read() {
    let bob = test_keypair(2);
    let alice_ovk = test_ovk(1);
    let zero = SecretKey::from_uniform_bytes(&[0u8; 64]);
    let message = encrypt_with(b"lost", &bob.public, b"ctx", &zero, &alice_ovk).unwrap();
    assert_eq!(&message[..32], &[0u8; 32]);
    assert_eq!(decrypt(&message, &bob.secret, b"ctx"), Err(EciesError::InvalidEphemeralKey));
    assert_eq!(
        decrypt_outgoing(&message, &alice_ovk, &bob.public, b"ctx"),
        Err(EciesError::InvalidEphemeralKey)
    );
}

// The recipient's result does not depend on the last 60 bytes.
#[test]
fn recipient_ignores_the_part_for_the_sender() {
    let bob_ivk = test_ivk(2);
    let mut message = encrypt(b"same", bob_ivk.ivk_public(), b"ctx", &test_ovk(1)).unwrap();
    let main_end = message.len() - OVK_BLOB_LEN;
    for byte in message[main_end..].iter_mut() {
        *byte = 0;
    }
    assert_eq!(decrypt_with_ivk(&message, &bob_ivk, b"ctx").unwrap(), b"same");
}

// A wrapped secret that is moved to another message of the same sender is not accepted there.
#[test]
fn wrapped_secret_is_bound_to_its_message() {
    let bob = test_keypair(2);
    let alice_ovk = test_ovk(1);
    let eph = test_secret([42; 32]);
    let first = encrypt_with(b"first", &bob.public, b"ctx", &eph, &alice_ovk).unwrap();
    let second = encrypt_with(b"other", &bob.public, b"ctx", &eph, &alice_ovk).unwrap();
    let mut mixed = first[..first.len() - OVK_BLOB_LEN].to_vec();
    mixed.extend_from_slice(&second[second.len() - OVK_BLOB_LEN..]);
    assert_eq!(decrypt(&mixed, &bob.secret, b"ctx").unwrap(), b"first");
    assert_eq!(
        decrypt_outgoing(&mixed, &alice_ovk, &bob.public, b"ctx"),
        Err(EciesError::DecryptionFailed)
    );
}

#[test]
fn errors_explain_themselves() {
    assert_eq!(EciesError::CiphertextTooShort.message(), "ECIES ciphertext too short");
    assert_eq!(
        EciesError::InvalidEphemeralKey.message(),
        "Invalid ephemeral public key in ECIES ciphertext"
    );
    assert_eq!(
        EciesError::IdentityRecipient.message(),
        "ECIES recipient public key is the identity point"
    );
    assert_eq!(EciesError::EncryptionFailed.message(), "ECIES encryption failed");
    assert_eq!(
        EciesError::DecryptionFailed.message(),
        "ECIES decryption failed: authentication or key mismatch"
    );
}

// The sender's key shows in the last 48 bytes only.
#[test]
fn outgoing_key_is_in_the_last_bytes() {
    let bob = test_keypair(2);
    let eph = test_secret([42; 32]);
    let seal = |ovk: &OutgoingViewingKey| {
        encrypt_with_nonces(b"who", &bob.public, b"ctx", &eph, ovk, &[1u8; 12], &[2u8; 12]).unwrap()
    };
    let (one, other) = (seal(&test_ovk(1)), seal(&test_ovk(3)));
    let n = one.len();
    assert_eq!(n, other.len());
    assert_eq!(one[..n - 48], other[..n - 48]);
    assert_ne!(one[n - 48..], other[n - 48..]);
    // With the same key and nonces the message is the same.
    assert_eq!(one, seal(&test_ovk(1)));
}

#[test]
fn nonces_distinguish_messages() {
    let bob = test_keypair(2);
    let eph = test_secret([42; 32]);
    let ovk = test_ovk(1);
    let seal = |nonce: &[u8; 12], ovk_nonce: &[u8; 12]| {
        encrypt_with_nonces(b"again", &bob.public, b"ctx", &eph, &ovk, nonce, ovk_nonce).unwrap()
    };
    let one = seal(&[1u8; 12], &[2u8; 12]);
    for other in [seal(&[3u8; 12], &[2u8; 12]), seal(&[1u8; 12], &[3u8; 12])] {
        assert_eq!(one[..32], other[..32]);
        assert_ne!(one, other);
        assert_eq!(decrypt(&other, &bob.secret, b"ctx").unwrap(), b"again");
    }
}

// An incoming viewing key that holds the scalar of a secret key decrypts as that key does.
#[test]
fn incoming_key_decrypts_as_secret() {
    let bob = test_keypair(2);
    let mut bytes = bob.secret.scalar().to_bytes().to_vec();
    bytes.extend_from_slice(&bob.public.to_bytes());
    let ivk = IncomingViewingKey::from_bytes(&bytes).unwrap();
    let message = encrypt(b"either", &bob.public, b"ctx", &test_ovk(1)).unwrap();
    assert_eq!(decrypt_with_ivk(&message, &ivk, b"ctx").unwrap(), b"either");
    assert_eq!(decrypt(&message, &bob.secret, b"ctx").unwrap(), b"either");
    assert_eq!(
        decrypt_with_ivk(&message, &ivk, b"other"),
        decrypt(&message, &bob.secret, b"other")
    );
}

// The key exchange is not called for a message that is refused, and otherwise once, with the key in
// front of the message.
#[test]
fn key_exchange_is_called_for_accepted_keys_only() {
    let bob = test_keypair(2);
    let message = encrypt(b"once", &bob.public, b"ctx", &test_ovk(1)).unwrap();
    let run = |ciphertext: &[u8]| {
        let mut calls = Vec::new();
        let ecdh = |pk: &PublicKey| {
            calls.push(pk.to_bytes());
            bob.secret.raw_key_exchange(pk)
        };
        let result = decrypt_inner(ciphertext, ecdh, &bob.public, b"ctx");
        (result, calls)
    };
    assert_eq!(run(&message[..119]), (Err(EciesError::CiphertextTooShort), vec![]));
    for bad in [[0u8; 32], [0xff; 32]] {
        let mut refused = message.clone();
        refused[..32].copy_from_slice(&bad);
        assert_eq!(run(&refused), (Err(EciesError::InvalidEphemeralKey), vec![]));
    }
    let mut front = [0u8; 32];
    front.copy_from_slice(&message[..32]);
    assert_eq!(run(&message), (Ok(b"once".to_vec()), vec![front]));
    let mut tampered = message.clone();
    tampered[50] ^= 1;
    assert_eq!(run(&tampered), (Err(EciesError::DecryptionFailed), vec![front]));
}

// A message is its payload and what is put around it.
#[test]
fn message_is_put_around_its_payload() {
    let bob = test_keypair(2);
    let eph = test_secret([42; 32]);
    let ovk = test_ovk(1);
    let (nonce, ovk_nonce) = ([1u8; 12], [2u8; 12]);
    let encrypted = seal_payload(b"inner", &bob.public, b"ctx", &eph, &nonce).unwrap();
    assert_eq!(encrypted.len(), 5 + 16);
    let message =
        complete_message(&encrypted, &bob.public, &eph, &ovk, &nonce, &ovk_nonce).unwrap();
    assert_eq!(message[44..65], encrypted[..]);
    assert_eq!(
        encrypt_with_nonces(b"inner", &bob.public, b"ctx", &eph, &ovk, &nonce, &ovk_nonce),
        Ok(message)
    );
}
