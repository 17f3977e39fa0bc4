//! ECIES encryption with sr25519 keys.
//!
//! * Key agreement: Diffie-Hellman on Ristretto255, with an ephemeral key of the sender.
//! * Key derivation: Merlin transcripts.
//! * Cipher: ChaCha20-Poly1305.
//!
//! A message on the wire is
//!
//! ```text
//! [ephemeral_pk: 32] [nonce: 12] [ciphertext + tag: N + 16]
//! [ovk_nonce: 12] [ovk_wrapped_esk + tag: 32 + 16]
//! ```
//!
//! The last 60 bytes hold the ephemeral secret key, encrypted under the sender's
//! [`OutgoingViewingKey`], so that the sender can read the message again.
use vstd::prelude::*;

use crate::aead::{
    chacha20poly1305_open, chacha20poly1305_seal, key_stream_ends, message_fits, open, seal,
    NONCE_LENGTH, TAG_LENGTH,
};
use crate::bytes::{le_nat, outcome, put, to_array, utf8, zeros};
use crate::curve::{
    agreed_with_owner, identity_encoding, is_scalar, mul_point, ristretto_decodes, ristretto_mul,
    ristretto_mul_base, Scalar, SCALAR_LENGTH,
};
use crate::keys::{Keypair, PublicKey, SecretKey, PUBLIC_KEY_LENGTH};
use crate::secret::{random_bytes, wipe, wipe_vec};
use crate::transcript::{challenge, lemma_ascii_length, merlin_challenge, transcript_log};
use crate::viewing_key::{IncomingViewingKey, OutgoingViewingKey};

verus! {

/// Size of the last part of a message: 12 (nonce) + 32 (encrypted scalar) + 16 (tag).
pub const OVK_BLOB_LEN: usize = NONCE_LENGTH + SCALAR_LENGTH + TAG_LENGTH;

/// By how much a message is longer than its plaintext:
/// 32 (ephemeral key) + 12 (nonce) + 16 (tag) + 60 (last part) = 120 bytes.
pub const ECIES_OVERHEAD: usize = PUBLIC_KEY_LENGTH + NONCE_LENGTH + TAG_LENGTH + OVK_BLOB_LEN;

/// Why a message could not be encrypted or decrypted.
#[derive(Clone, Copy, Debug, PartialEq, Eq, Hash, Structural)]
pub enum EciesError {
    /// The ciphertext is too short to contain the ECIES header and tag.
    CiphertextTooShort,
    /// The ephemeral public key is not the encoding of a point, or is the identity.
    InvalidEphemeralKey,
    /// The recipient's public key is the identity point. Every key exchange with it gives the
    /// identity, so anyone could derive the key of the message.
    IdentityRecipient,
    /// The cipher refused to encrypt.
    EncryptionFailed,
    /// The cipher refused to decrypt: wrong key, or corrupted or forged data.
    DecryptionFailed,
}

/// The text that explains an error.
pub open spec fn error_text(error: EciesError) -> Seq<char> {
    match error {
        EciesError::CiphertextTooShort => "ECIES ciphertext too short"@,
        EciesError::InvalidEphemeralKey => "Invalid ephemeral public key in ECIES ciphertext"@,
        EciesError::IdentityRecipient => "ECIES recipient public key is the identity point"@,
        EciesError::EncryptionFailed => "ECIES encryption failed"@,
        EciesError::DecryptionFailed =>
            "ECIES decryption failed: authentication or key mismatch"@,
    }
}

impl EciesError {
    /// The text that explains the error.
    pub fn message(&self) -> (text: &'static str)
        ensures
            text@ == error_text(*self),
    {
        match self {
            EciesError::CiphertextTooShort => "ECIES ciphertext too short",
            EciesError::InvalidEphemeralKey => "Invalid ephemeral public key in ECIES ciphertext",
            EciesError::IdentityRecipient => "ECIES recipient public key is the identity point",
            EciesError::EncryptionFailed => "ECIES encryption failed",
            EciesError::DecryptionFailed => "ECIES decryption failed: authentication or key mismatch",
        }
    }
}

// ---------------------------------------------------------------------------
// Wire format
// ---------------------------------------------------------------------------

/// The parts of a message, as byte strings.
#[verifier::ext_equal]
pub struct Parts {
    /// The ephemeral public key.
    pub ephemeral_pk: Seq<u8>,
    /// The nonce of the payload.
    pub nonce: Seq<u8>,
    /// The encrypted payload with its tag.
    pub encrypted: Seq<u8>,
    /// The nonce of the wrapped ephemeral secret.
    pub ovk_nonce: Seq<u8>,
    /// The wrapped ephemeral secret with its tag.
    pub ovk_ciphertext: Seq<u8>,
}

impl Parts {
    /// Whether every part has a length that the wire format gives it.
    pub open spec fn well_formed(self) -> bool {
        &&& self.ephemeral_pk.len() == PUBLIC_KEY_LENGTH
        &&& self.nonce.len() == NONCE_LENGTH
        &&& self.encrypted.len() >= TAG_LENGTH
        &&& self.ovk_nonce.len() == NONCE_LENGTH
        &&& self.ovk_ciphertext.len() == SCALAR_LENGTH + TAG_LENGTH
    }

    /// The message on the wire: the parts one after the other.
    pub open spec fn wire(self) -> Seq<u8> {
        self.ephemeral_pk + self.nonce + self.encrypted + self.ovk_nonce + self.ovk_ciphertext
    }
}

/// The parts of the message `wire`.
pub open spec fn parts(wire: Seq<u8>) -> Parts {
    let header = PUBLIC_KEY_LENGTH + NONCE_LENGTH;
    let main_end = wire.len() - OVK_BLOB_LEN;
    Parts {
        ephemeral_pk: wire.subrange(0, PUBLIC_KEY_LENGTH as int),
        nonce: wire.subrange(PUBLIC_KEY_LENGTH as int, header),
        encrypted: wire.subrange(header, main_end),
        ovk_nonce: wire.subrange(main_end, main_end + NONCE_LENGTH),
        ovk_ciphertext: wire.subrange(main_end + NONCE_LENGTH, wire.len() as int),
    }
}

/// Taking apart what was put together gives the parts back.
pub proof fn law_parts_of_wire(message: Parts)
    requires
        message.well_formed(),
    ensures
        message.wire().len() >= ECIES_OVERHEAD,
        parts(message.wire()) == message,
{
    assert(parts(message.wire()) =~= message);
}

/// Putting together what was taken apart gives the message back.
pub proof fn law_wire_of_parts(wire: Seq<u8>)
    requires
        wire.len() >= ECIES_OVERHEAD,
    ensures
        parts(wire).well_formed(),
        parts(wire).wire() == wire,
{
    assert(parts(wire).wire() =~= wire);
}

/// A message that is taken apart.
pub struct Envelope<'a> {
    /// The ephemeral public key.
    pub ephemeral_pk: &'a [u8],
    /// The nonce of the payload.
    pub nonce: [u8; 12],
    /// The encrypted payload with its tag.
    pub encrypted: &'a [u8],
    /// The nonce of the wrapped ephemeral secret.
    pub ovk_nonce: [u8; 12],
    /// The wrapped ephemeral secret with its tag.
    pub ovk_ciphertext: &'a [u8],
}

impl<'a> View for Envelope<'a> {
    type V = Parts;

    open spec fn view(&self) -> Parts {
        Parts {
            ephemeral_pk: self.ephemeral_pk@,
            nonce: self.nonce@,
            encrypted: self.encrypted@,
            ovk_nonce: self.ovk_nonce@,
            ovk_ciphertext: self.ovk_ciphertext@,
        }
    }
}

impl<'a> Envelope<'a> {
    /// Takes a message apart.
    pub fn parse(ciphertext: &'a [u8]) -> (result: Result<Envelope<'a>, EciesError>)
        ensures
            match result {
                Ok(envelope) => {
                    &&& ciphertext@.len() >= ECIES_OVERHEAD
                    &&& envelope@ == parts(ciphertext@)
                    &&& envelope@.well_formed()
                },
                Err(error) => {
                    &&& ciphertext@.len() < ECIES_OVERHEAD
                    &&& error == EciesError::CiphertextTooShort
                },
            },
    {
        if ciphertext.len() < ECIES_OVERHEAD {
            return Err(EciesError::CiphertextTooShort);
        }
        let main_end: usize = ciphertext.len() - OVK_BLOB_LEN;
        Ok(
            Envelope {
                ephemeral_pk: &ciphertext[0..PUBLIC_KEY_LENGTH],
                nonce: to_array(&ciphertext[PUBLIC_KEY_LENGTH..PUBLIC_KEY_LENGTH + NONCE_LENGTH]),
                encrypted: &ciphertext[PUBLIC_KEY_LENGTH + NONCE_LENGTH..main_end],
                ovk_nonce: to_array(&ciphertext[main_end..main_end + NONCE_LENGTH]),
                ovk_ciphertext: &ciphertext[main_end + NONCE_LENGTH..ciphertext.len()],
            },
        )
    }

    /// Puts a message together, which has to fit into memory.
    pub fn assemble(&self) -> (wire: Vec<u8>)
        requires
            self@.wire().len() <= isize::MAX,
        ensures
            wire@ == self@.wire(),
    {
        let mut wire: Vec<u8> = Vec::new();
        wire.extend_from_slice(self.ephemeral_pk);
        wire.extend_from_slice(&self.nonce);
        wire.extend_from_slice(self.encrypted);
        wire.extend_from_slice(&self.ovk_nonce);
        wire.extend_from_slice(self.ovk_ciphertext);
        assert(wire@ =~= self@.wire());
        wire
    }
}

// ---------------------------------------------------------------------------
// Keys of the cipher
// ---------------------------------------------------------------------------

/// The transcript of the key of the payload.
pub open spec fn payload_log(
    shared_secret: Seq<u8>,
    ephemeral_pk: Seq<u8>,
    recipient_pk: Seq<u8>,
    ctx: Seq<u8>,
) -> Seq<(Seq<u8>, Seq<u8>)> {
    seq![
        (utf8("dom-sep"), utf8("sr25519-ecies")),
        (utf8("ctx"), ctx),
        (utf8("ephemeral-pk"), ephemeral_pk),
        (utf8("recipient-pk"), recipient_pk),
        (utf8("shared-secret"), shared_secret),
    ]
}

/// The key of the payload.
pub open spec fn payload_key(
    shared_secret: Seq<u8>,
    ephemeral_pk: Seq<u8>,
    recipient_pk: Seq<u8>,
    ctx: Seq<u8>,
) -> Seq<u8> {
    merlin_challenge(
        payload_log(shared_secret, ephemeral_pk, recipient_pk, ctx),
        utf8("aead-key"),
        32,
    )
}

/// The transcript of the key that wraps the ephemeral secret.
pub open spec fn wrap_log(
    ovk: Seq<u8>,
    ephemeral_pk: Seq<u8>,
    recipient_pk: Seq<u8>,
    encrypted: Seq<u8>,
) -> Seq<(Seq<u8>, Seq<u8>)> {
    seq![
        (utf8("dom-sep"), utf8("sr25519-ecies-ovk-wrap")),
        (utf8("ovk"), ovk),
        (utf8("ephemeral-pk"), ephemeral_pk),
        (utf8("recipient-pk"), recipient_pk),
        (utf8("main-ciphertext"), encrypted),
    ]
}

/// The key that wraps the ephemeral secret. It depends on the encrypted payload, so that a wrapped
/// secret cannot be moved to another message.
pub open spec fn wrap_key(
    ovk: Seq<u8>,
    ephemeral_pk: Seq<u8>,
    recipient_pk: Seq<u8>,
    encrypted: Seq<u8>,
) -> Seq<u8> {
    merlin_challenge(
        wrap_log(ovk, ephemeral_pk, recipient_pk, encrypted),
        utf8("ovk-wrap-key"),
        32,
    )
}

/// Derives the key of the payload from the secret that sender and recipient share.
fn derive_aead_key(
    shared_secret: &[u8; 32],
    ephemeral_pk: &[u8; 32],
    recipient_pk: &[u8; 32],
    ctx: &[u8],
) -> (key: [u8; 32])
    requires
        ctx@.len() <= u32::MAX,
    ensures
        key@ == payload_key(shared_secret@, ephemeral_pk@, recipient_pk@, ctx@),
{
    proof {
        reveal_strlit("sr25519-ecies");
        lemma_ascii_length("sr25519-ecies");
    }
    let mut t = merlin::Transcript::new("sr25519-ecies".as_bytes());
    t.append_message("ctx".as_bytes(), ctx);
    t.append_message("ephemeral-pk".as_bytes(), ephemeral_pk);
    t.append_message("recipient-pk".as_bytes(), recipient_pk);
    t.append_message("shared-secret".as_bytes(), shared_secret);
    assert(transcript_log(t) =~= payload_log(
        shared_secret@,
        ephemeral_pk@,
        recipient_pk@,
        ctx@,
    ));
    challenge(t, "aead-key".as_bytes())
}

/// Derives the key that wraps the ephemeral secret, for the message with the payload `encrypted`.
fn derive_ovk_wrap_key(
    ovk: &[u8; 32],
    ephemeral_pk: &[u8; 32],
    recipient_pk: &[u8; 32],
    encrypted: &[u8],
) -> (key: [u8; 32])
    requires
        encrypted@.len() <= u32::MAX,
    ensures
        key@ == wrap_key(ovk@, ephemeral_pk@, recipient_pk@, encrypted@),
{
    proof {
        reveal_strlit("sr25519-ecies-ovk-wrap");
        lemma_ascii_length("sr25519-ecies-ovk-wrap");
    }
    let mut t = merlin::Transcript::new("sr25519-ecies-ovk-wrap".as_bytes());
    t.append_message("ovk".as_bytes(), ovk);
    t.append_message("ephemeral-pk".as_bytes(), ephemeral_pk);
    t.append_message("recipient-pk".as_bytes(), recipient_pk);
    t.append_message("main-ciphertext".as_bytes(), encrypted);
    assert(transcript_log(t) =~= wrap_log(ovk@, ephemeral_pk@, recipient_pk@, encrypted@));
    challenge(t, "ovk-wrap-key".as_bytes())
}

/// The associated data of the payload: `ephemeral_pk || recipient_pk`.
pub fn build_aad(ephemeral_pk: &[u8; 32], recipient_pk: &[u8; 32]) -> (aad: [u8; 64])
    ensures
        aad@ == ephemeral_pk@ + recipient_pk@,
{
    let mut aad = [0u8; 64];
    put(&mut aad, 0, ephemeral_pk);
    put(&mut aad, 32, recipient_pk);
    assert(aad@ =~= ephemeral_pk@ + recipient_pk@);
    aad
}

// ---------------------------------------------------------------------------
// Checks of public keys
// ---------------------------------------------------------------------------

/// Whether `bytes` can be the ephemeral public key of a message: a point other than the identity.
pub open spec fn valid_ephemeral(bytes: Seq<u8>) -> bool {
    &&& bytes.len() == PUBLIC_KEY_LENGTH
    &&& ristretto_decodes(bytes)
    &&& bytes != identity_encoding()
}

/// Rejects the identity point as a public key.
pub fn reject_identity(pk: &PublicKey) -> (result: Result<(), EciesError>)
    ensures
        result == if pk@ == identity_encoding() {
            Err::<(), EciesError>(EciesError::IdentityRecipient)
        } else {
            Ok::<(), EciesError>(())
        },
{
    if pk.is_identity() {
        return Err(EciesError::IdentityRecipient);
    }
    Ok(())
}

/// Reads and checks the ephemeral public key of a message.
pub fn parse_ephemeral_pk(bytes: &[u8]) -> (result: Result<PublicKey, EciesError>)
    ensures
        match result {
            Ok(pk) => valid_ephemeral(bytes@) && pk@ == bytes@,
            Err(error) => !valid_ephemeral(bytes@) && error == EciesError::InvalidEphemeralKey,
        },
{
    match PublicKey::from_bytes(bytes) {
        Ok(pk) => if pk.is_identity() {
            Err(EciesError::InvalidEphemeralKey)
        } else {
            Ok(pk)
        },
        Err(_) => Err(EciesError::InvalidEphemeralKey),
    }
}

// ---------------------------------------------------------------------------
// What is encrypted and decrypted to what
// ---------------------------------------------------------------------------

/// The payload of the message that carries `plaintext`, encrypted and with its tag.
pub open spec fn sealed_payload(
    plaintext: Seq<u8>,
    recipient: Seq<u8>,
    ctx: Seq<u8>,
    ephemeral_secret: Seq<u8>,
    nonce: Seq<u8>,
) -> Seq<u8> {
    let ephemeral_pk = ristretto_mul_base(ephemeral_secret);
    let shared_secret = ristretto_mul(ephemeral_secret, recipient);
    chacha20poly1305_seal(
        payload_key(shared_secret, ephemeral_pk, recipient, ctx),
        nonce,
        plaintext,
        ephemeral_pk + recipient,
    )
}

/// The message with the payload `encrypted`.
pub open spec fn message_around(
    encrypted: Seq<u8>,
    recipient: Seq<u8>,
    ephemeral_secret: Seq<u8>,
    ovk: Seq<u8>,
    nonce: Seq<u8>,
    ovk_nonce: Seq<u8>,
) -> Parts {
    let ephemeral_pk = ristretto_mul_base(ephemeral_secret);
    Parts {
        ephemeral_pk,
        nonce,
        encrypted,
        ovk_nonce,
        ovk_ciphertext: chacha20poly1305_seal(
            wrap_key(ovk, ephemeral_pk, recipient, encrypted),
            ovk_nonce,
            ephemeral_secret,
            seq![],
        ),
    }
}

/// The message that carries `plaintext`.
pub open spec fn sealed_message(
    plaintext: Seq<u8>,
    recipient: Seq<u8>,
    ctx: Seq<u8>,
    ephemeral_secret: Seq<u8>,
    ovk: Seq<u8>,
    nonce: Seq<u8>,
    ovk_nonce: Seq<u8>,
) -> Parts {
    message_around(
        sealed_payload(plaintext, recipient, ctx, ephemeral_secret, nonce),
        recipient,
        ephemeral_secret,
        ovk,
        nonce,
        ovk_nonce,
    )
}

/// What encryption gives.
pub open spec fn encryption(
    plaintext: Seq<u8>,
    recipient: Seq<u8>,
    ctx: Seq<u8>,
    ephemeral_secret: Seq<u8>,
    ovk: Seq<u8>,
    nonce: Seq<u8>,
    ovk_nonce: Seq<u8>,
) -> Result<Seq<u8>, EciesError> {
    if recipient == identity_encoding() {
        Err(EciesError::IdentityRecipient)
    } else if !message_fits(plaintext.len()) {
        Err(EciesError::EncryptionFailed)
    } else {
        Ok(
            sealed_message(
                plaintext,
                recipient,
                ctx,
                ephemeral_secret,
                ovk,
                nonce,
                ovk_nonce,
            ).wire(),
        )
    }
}

/// What opening the payload with the shared secret gives.
pub open spec fn opened_payload(
    message: Parts,
    shared_secret: Seq<u8>,
    recipient: Seq<u8>,
    ctx: Seq<u8>,
) -> Result<Seq<u8>, EciesError> {
    match chacha20poly1305_open(
        payload_key(shared_secret, message.ephemeral_pk, recipient, ctx),
        message.nonce,
        message.encrypted,
        message.ephemeral_pk + recipient,
    ) {
        Some(plaintext) => Ok(plaintext),
        None => Err(EciesError::DecryptionFailed),
    }
}

/// What decryption by the owner of `scalar` gives, for a message to the public key `recipient`.
pub open spec fn decryption(
    ciphertext: Seq<u8>,
    scalar: Seq<u8>,
    recipient: Seq<u8>,
    ctx: Seq<u8>,
) -> Result<Seq<u8>, EciesError> {
    let message = parts(ciphertext);
    if ciphertext.len() < ECIES_OVERHEAD {
        Err(EciesError::CiphertextTooShort)
    } else if !valid_ephemeral(message.ephemeral_pk) {
        Err(EciesError::InvalidEphemeralKey)
    } else {
        opened_payload(message, ristretto_mul(scalar, message.ephemeral_pk), recipient, ctx)
    }
}

/// The ephemeral secret that is wrapped in a message, if `ovk` unwraps it.
pub open spec fn unwrapped_secret(message: Parts, ovk: Seq<u8>, recipient: Seq<u8>) -> Option<
    Seq<u8>,
> {
    chacha20poly1305_open(
        wrap_key(ovk, message.ephemeral_pk, recipient, message.encrypted),
        message.ovk_nonce,
        message.ovk_ciphertext,
        seq![],
    )
}

/// What decryption by the sender gives, for a message to the public key `recipient`.
pub open spec fn outgoing_decryption(
    ciphertext: Seq<u8>,
    ovk: Seq<u8>,
    recipient: Seq<u8>,
    ctx: Seq<u8>,
) -> Result<Seq<u8>, EciesError> {
    let message = parts(ciphertext);
    if ciphertext.len() < ECIES_OVERHEAD {
        Err(EciesError::CiphertextTooShort)
    } else if !valid_ephemeral(message.ephemeral_pk) {
        Err(EciesError::InvalidEphemeralKey)
    } else {
        match unwrapped_secret(message, ovk, recipient) {
            Some(secret) => if is_scalar(secret) {
                opened_payload(message, ristretto_mul(secret, recipient), recipient, ctx)
            } else {
                Err(EciesError::DecryptionFailed)
            },
            None => Err(EciesError::DecryptionFailed),
        }
    }
}

/// Whether everyone who owns the public key `recipient` decrypts `ciphertext` to `plaintext`.
pub open spec fn recipient_reads(
    ciphertext: Seq<u8>,
    recipient: Seq<u8>,
    ctx: Seq<u8>,
    plaintext: Seq<u8>,
) -> bool {
    forall|t: Seq<u8>|
        t.len() == SCALAR_LENGTH && #[trigger] ristretto_mul_base(t) == recipient ==> decryption(
            ciphertext,
            t,
            recipient,
            ctx,
        ) == Ok::<Seq<u8>, EciesError>(plaintext)
}

/// Whether the sender decrypts `ciphertext` to `plaintext`.
pub open spec fn sender_reads(
    ciphertext: Seq<u8>,
    ovk: Seq<u8>,
    recipient: Seq<u8>,
    ctx: Seq<u8>,
    plaintext: Seq<u8>,
) -> bool {
    outgoing_decryption(ciphertext, ovk, recipient, ctx) == Ok::<Seq<u8>, EciesError>(plaintext)
}

/// Whether decryption refuses the ephemeral key of `ciphertext`, whoever decrypts.
pub open spec fn nobody_reads(ciphertext: Seq<u8>) -> bool {
    ciphertext.len() >= ECIES_OVERHEAD && !valid_ephemeral(parts(ciphertext).ephemeral_pk)
}

/// Whether `wire` delivers `plaintext`: it is as long as it has to be, starts with the public key of
/// the ephemeral secret, and both the recipient and the sender read the plaintext. With a zero
/// ephemeral secret nobody does.
pub open spec fn delivers(
    wire: Seq<u8>,
    plaintext: Seq<u8>,
    recipient: Seq<u8>,
    ctx: Seq<u8>,
    ephemeral_secret: Seq<u8>,
    ovk: Seq<u8>,
) -> bool {
    &&& wire.len() == plaintext.len() + ECIES_OVERHEAD
    &&& parts(wire).ephemeral_pk == ristretto_mul_base(ephemeral_secret)
    &&& if le_nat(ephemeral_secret) != 0 {
        &&& recipient_reads(wire, recipient, ctx, plaintext)
        &&& sender_reads(wire, ovk, recipient, ctx, plaintext)
    } else {
        nobody_reads(wire)
    }
}

/// Whether `result` is what encryption with a given ephemeral secret gives for some nonces.
pub open spec fn encrypted_with(
    result: Result<Seq<u8>, EciesError>,
    plaintext: Seq<u8>,
    recipient: Seq<u8>,
    ctx: Seq<u8>,
    ephemeral_secret: Seq<u8>,
    ovk: Seq<u8>,
) -> bool {
    exists|nonce: Seq<u8>, ovk_nonce: Seq<u8>|
        {
            &&& nonce.len() == NONCE_LENGTH
            &&& ovk_nonce.len() == NONCE_LENGTH
            &&& result == #[trigger] encryption(
                plaintext,
                recipient,
                ctx,
                ephemeral_secret,
                ovk,
                nonce,
                ovk_nonce,
            )
            &&& result is Ok ==> sealed_message(
                plaintext,
                recipient,
                ctx,
                ephemeral_secret,
                ovk,
                nonce,
                ovk_nonce,
            ).well_formed()
        }
}

/// Whether the lengths are such that encryption does not run into a limit of the transcript, which
/// takes messages of less than 4 GiB, or of memory.
pub open spec fn encryptable(plaintext_len: nat, recipient: Seq<u8>, ctx_len: nat) -> bool {
    recipient == identity_encoding() || {
        &&& ctx_len <= u32::MAX
        &&& plaintext_len + TAG_LENGTH <= isize::MAX
        &&& message_fits(plaintext_len) ==> {
            &&& plaintext_len + TAG_LENGTH <= u32::MAX
            &&& plaintext_len + ECIES_OVERHEAD <= isize::MAX
        }
    }
}

// ---------------------------------------------------------------------------
// Encryption
// ---------------------------------------------------------------------------

/// Encrypts the payload of a message, under the secret that the ephemeral key and the recipient
/// share.
pub fn seal_payload(
    plaintext: &[u8],
    recipient: &PublicKey,
    ctx: &[u8],
    ephemeral_secret: &SecretKey,
    nonce: &[u8; 12],
) -> (result: Result<Vec<u8>, EciesError>)
    requires
        ctx@.len() <= u32::MAX,
        plaintext@.len() + TAG_LENGTH <= isize::MAX,
        !key_stream_ends(plaintext@.len()),
    ensures
        match result {
            Ok(encrypted) => {
                &&& message_fits(plaintext@.len())
                &&& encrypted@ == sealed_payload(
                    plaintext@,
                    recipient@,
                    ctx@,
                    ephemeral_secret@,
                    nonce@,
                )
                &&& encrypted@.len() == plaintext@.len() + TAG_LENGTH
            },
            Err(error) => {
                &&& !message_fits(plaintext@.len())
                &&& error == EciesError::EncryptionFailed
            },
        },
        result matches Ok(encrypted) ==> {
            let ephemeral_pk = ristretto_mul_base(ephemeral_secret@);
            let shared_secret = ristretto_mul(ephemeral_secret@, recipient@);
            &&& agreed_with_owner(shared_secret, ephemeral_secret@, recipient@)
            &&& chacha20poly1305_open(
                payload_key(shared_secret, ephemeral_pk, recipient@, ctx@),
                nonce@,
                encrypted@,
                ephemeral_pk + recipient@,
            ) == Some(plaintext@)
        },
{
    let ephemeral_pk = ephemeral_secret.to_public();
    let recipient_pk = recipient.as_compressed();
    let shared = ephemeral_secret.raw_key_exchange(recipient);
    let mut key = derive_aead_key(&shared, ephemeral_pk.as_compressed(), recipient_pk, ctx);
    let aad = build_aad(ephemeral_pk.as_compressed(), recipient_pk);
    let sealed = seal(&key, nonce, plaintext, &aad);
    wipe(&mut key);
    match sealed {
        Ok(encrypted) => Ok(encrypted),
        Err(_) => Err(EciesError::EncryptionFailed),
    }
}

/// Puts a message together around its encrypted payload: adds the ephemeral public key, and the
/// ephemeral secret, wrapped under the sender's outgoing viewing key.
pub fn complete_message(
    encrypted: &[u8],
    recipient: &PublicKey,
    ephemeral_secret: &SecretKey,
    sender_ovk: &OutgoingViewingKey,
    nonce: &[u8; 12],
    ovk_nonce: &[u8; 12],
) -> (result: Result<Vec<u8>, EciesError>)
    requires
        TAG_LENGTH <= encrypted@.len() <= u32::MAX,
        encrypted@.len() + ECIES_OVERHEAD - TAG_LENGTH <= isize::MAX,
    ensures
        ({
            let message = message_around(
                encrypted@,
                recipient@,
                ephemeral_secret@,
                sender_ovk@,
                nonce@,
                ovk_nonce@,
            );
            &&& outcome(result) == Ok::<Seq<u8>, EciesError>(message.wire())
            &&& message.well_formed()
            &&& parts(message.wire()) == message
            &&& unwrapped_secret(message, sender_ovk@, recipient@) == Some(ephemeral_secret@)
        }),
        is_scalar(ephemeral_secret@),
        valid_ephemeral(ristretto_mul_base(ephemeral_secret@)) <==> le_nat(ephemeral_secret@) != 0,
{
    let ephemeral_pk = ephemeral_secret.to_public();
    let mut ovk_key = derive_ovk_wrap_key(
        sender_ovk.as_bytes(),
        ephemeral_pk.as_compressed(),
        recipient.as_compressed(),
        encrypted,
    );
    let no_aad: [u8; 0] = [];
    assert(no_aad@ =~= seq![]);
    let wrapped = seal(&ovk_key, ovk_nonce, ephemeral_secret.scalar().as_bytes(), &no_aad);
    wipe(&mut ovk_key);
    let ovk_ciphertext = match wrapped {
        Ok(ovk_ciphertext) => ovk_ciphertext,
        Err(_) => return Err(EciesError::EncryptionFailed),
    };

    let envelope = Envelope {
        ephemeral_pk: ephemeral_pk.as_compressed(),
        nonce: *nonce,
        encrypted,
        ovk_nonce: *ovk_nonce,
        ovk_ciphertext: &ovk_ciphertext,
    };
    proof {
        law_parts_of_wire(envelope@);
    }
    Ok(envelope.assemble())
}

/// Encrypts with a given ephemeral secret key and given nonces.
///
/// Unless the ephemeral secret is zero, the owner of the recipient's key and the owner of the
/// outgoing viewing key both decrypt the result to the plaintext.
pub fn encrypt_with_nonces(
    plaintext: &[u8],
    recipient: &PublicKey,
    ctx: &[u8],
    ephemeral_secret: &SecretKey,
    sender_ovk: &OutgoingViewingKey,
    nonce: &[u8; 12],
    ovk_nonce: &[u8; 12],
) -> (result: Result<Vec<u8>, EciesError>)
    requires
        encryptable(plaintext@.len(), recipient@, ctx@.len()),
    ensures
        result is Ok <==> recipient@ != identity_encoding() && plaintext@.len() < 64 * u32::MAX,
        result == Err::<Vec<u8>, EciesError>(EciesError::IdentityRecipient) <==> recipient@
            == identity_encoding(),
        outcome(result) == encryption(
            plaintext@,
            recipient@,
            ctx@,
            ephemeral_secret@,
            sender_ovk@,
            nonce@,
            ovk_nonce@,
        ),
        result is Ok ==> sealed_message(
            plaintext@,
            recipient@,
            ctx@,
            ephemeral_secret@,
            sender_ovk@,
            nonce@,
            ovk_nonce@,
        ).well_formed(),
        result matches Ok(wire) ==> delivers(
            wire@,
            plaintext@,
            recipient@,
            ctx@,
            ephemeral_secret@,
            sender_ovk@,
        ),
{
    match reject_identity(recipient) {
        Ok(_) => {},
        Err(error) => return Err(error),
    }
    match seal_payload(plaintext, recipient, ctx, ephemeral_secret, nonce) {
        Ok(encrypted) => complete_message(
            &encrypted,
            recipient,
            ephemeral_secret,
            sender_ovk,
            nonce,
            ovk_nonce,
        ),
        Err(error) => Err(error),
    }
}

/// Encrypts with a given ephemeral secret key, and nonces from the operating system. Each nonce is
/// drawn only when it is needed: none for a recipient that is rejected.
pub fn encrypt_with(
    plaintext: &[u8],
    recipient: &PublicKey,
    ctx: &[u8],
    ephemeral_secret: &SecretKey,
    sender_ovk: &OutgoingViewingKey,
) -> (result: Result<Vec<u8>, EciesError>)
    requires
        encryptable(plaintext@.len(), recipient@, ctx@.len()),
    ensures
        result is Ok <==> recipient@ != identity_encoding() && plaintext@.len() < 64 * u32::MAX,
        result == Err::<Vec<u8>, EciesError>(EciesError::IdentityRecipient) <==> recipient@
            == identity_encoding(),
        encrypted_with(
            outcome(result),
            plaintext@,
            recipient@,
            ctx@,
            ephemeral_secret@,
            sender_ovk@,
        ),
        result matches Ok(wire) ==> delivers(
            wire@,
            plaintext@,
            recipient@,
            ctx@,
            ephemeral_secret@,
            sender_ovk@,
        ),
{
    match reject_identity(recipient) {
        Ok(_) => {},
        Err(error) => {
            assert(Err::<Seq<u8>, EciesError>(error) == encryption(
                plaintext@,
                recipient@,
                ctx@,
                ephemeral_secret@,
                sender_ovk@,
                zeros(12),
                zeros(12),
            ));
            return Err(error);
        },
    }
    let nonce: [u8; 12] = random_bytes();
    let encrypted = match seal_payload(plaintext, recipient, ctx, ephemeral_secret, &nonce) {
        Ok(encrypted) => encrypted,
        Err(error) => {
            assert(Err::<Seq<u8>, EciesError>(error) == encryption(
                plaintext@,
                recipient@,
                ctx@,
                ephemeral_secret@,
                sender_ovk@,
                nonce@,
                zeros(12),
            ));
            return Err(error);
        },
    };
    let ovk_nonce: [u8; 12] = random_bytes();
    let result = complete_message(
        &encrypted,
        recipient,
        ephemeral_secret,
        sender_ovk,
        &nonce,
        &ovk_nonce,
    );
    assert(outcome(result) == encryption(
        plaintext@,
        recipient@,
        ctx@,
        ephemeral_secret@,
        sender_ovk@,
        nonce@,
        ovk_nonce@,
    ));
    result
}

/// Encrypts `plaintext` to `recipient`: [`encrypt_with`] a fresh ephemeral secret key, which is not
/// zero, so that the recipient and the sender both read the message.
///
/// - `ctx`: separates the uses of the scheme (e.g. the name of an application).
/// - `sender_ovk`: the sender's outgoing viewing key, by which the sender can read the message.
pub fn encrypt(
    plaintext: &[u8],
    recipient: &PublicKey,
    ctx: &[u8],
    sender_ovk: &OutgoingViewingKey,
) -> (result: Result<Vec<u8>, EciesError>)
    requires
        encryptable(plaintext@.len(), recipient@, ctx@.len()),
    ensures
        result is Ok <==> recipient@ != identity_encoding() && plaintext@.len() < 64 * u32::MAX,
        result == Err::<Vec<u8>, EciesError>(EciesError::IdentityRecipient) <==> recipient@
            == identity_encoding(),
        exists|ephemeral_secret: Seq<u8>|
            {
                &&& is_scalar(ephemeral_secret)
                &&& le_nat(ephemeral_secret) != 0
                &&& #[trigger] encrypted_with(
                    outcome(result),
                    plaintext@,
                    recipient@,
                    ctx@,
                    ephemeral_secret,
                    sender_ovk@,
                )
                &&& result matches Ok(wire) ==> delivers(
                    wire@,
                    plaintext@,
                    recipient@,
                    ctx@,
                    ephemeral_secret,
                    sender_ovk@,
                )
            },
        result matches Ok(wire) ==> {
            &&& wire@.len() == plaintext@.len() + ECIES_OVERHEAD
            &&& recipient_reads(wire@, recipient@, ctx@, plaintext@)
            &&& sender_reads(wire@, sender_ovk@, recipient@, ctx@, plaintext@)
        },
{
    let ephemeral = Keypair::generate();
    encrypt_with(plaintext, recipient, ctx, &ephemeral.secret, sender_ovk)
}

// ---------------------------------------------------------------------------
// Decryption
// ---------------------------------------------------------------------------

/// Whether the payload of `message` is `plaintext`, sealed under the shared secret.
pub open spec fn carries(
    message: Parts,
    shared_secret: Seq<u8>,
    recipient: Seq<u8>,
    ctx: Seq<u8>,
    plaintext: Seq<u8>,
) -> bool {
    message.encrypted == chacha20poly1305_seal(
        payload_key(shared_secret, message.ephemeral_pk, recipient, ctx),
        message.nonce,
        plaintext,
        message.ephemeral_pk + recipient,
    )
}

/// Whether the lengths are such that decryption by the recipient does not run into a limit of the
/// transcript or of the cipher.
pub open spec fn decryptable(ciphertext_len: nat, ctx_len: nat) -> bool {
    ciphertext_len < ECIES_OVERHEAD || {
        &&& ctx_len <= u32::MAX
        &&& !key_stream_ends((ciphertext_len - ECIES_OVERHEAD) as nat)
    }
}

/// Whether the lengths are such that decryption by the sender does not run into a limit of the
/// transcript, which takes the payload as a message.
pub open spec fn outgoing_decryptable(ciphertext_len: nat, ctx_len: nat) -> bool {
    ciphertext_len < ECIES_OVERHEAD || {
        &&& ctx_len <= u32::MAX
        &&& ciphertext_len - ECIES_OVERHEAD + TAG_LENGTH <= u32::MAX
    }
}

/// Opens the payload of a message with the secret that sender and recipient share.
pub fn open_payload(
    envelope: &Envelope<'_>,
    ephemeral_pk: &PublicKey,
    shared: &[u8; 32],
    recipient_pk: &PublicKey,
    ctx: &[u8],
) -> (result: Result<Vec<u8>, EciesError>)
    requires
        envelope@.well_formed(),
        envelope@.ephemeral_pk == ephemeral_pk@,
        ctx@.len() <= u32::MAX,
        !key_stream_ends((envelope@.encrypted.len() - TAG_LENGTH) as nat),
    ensures
        outcome(result) == opened_payload(envelope@, shared@, recipient_pk@, ctx@),
        result matches Ok(plaintext) ==> {
            &&& plaintext@.len() + TAG_LENGTH == envelope@.encrypted.len()
            &&& carries(envelope@, shared@, recipient_pk@, ctx@, plaintext@)
        },
{
    let mut key = derive_aead_key(
        shared,
        ephemeral_pk.as_compressed(),
        recipient_pk.as_compressed(),
        ctx,
    );
    let aad = build_aad(ephemeral_pk.as_compressed(), recipient_pk.as_compressed());
    let opened = open(&key, &envelope.nonce, envelope.encrypted, &aad);
    wipe(&mut key);
    match opened {
        Ok(plaintext) => Ok(plaintext),
        Err(_) => Err(EciesError::DecryptionFailed),
    }
}

/// Decrypts a message with the recipient's secret key. The last part of the message, which is for
/// the sender, is ignored.
pub fn decrypt(ciphertext: &[u8], secret: &SecretKey, ctx: &[u8]) -> (result: Result<
    Vec<u8>,
    EciesError,
>)
    requires
        decryptable(ciphertext@.len(), ctx@.len()),
    ensures
        outcome(result) == decryption(
            ciphertext@,
            secret@,
            ristretto_mul_base(secret@),
            ctx@,
        ),
        result matches Ok(plaintext) ==> {
            &&& ciphertext@.len() == plaintext@.len() + ECIES_OVERHEAD
            &&& carries(
                parts(ciphertext@),
                ristretto_mul(secret@, parts(ciphertext@).ephemeral_pk),
                ristretto_mul_base(secret@),
                ctx@,
                plaintext@,
            )
        },
{
    let recipient_pk = secret.to_public();
    let ecdh = |ephemeral_pk: &PublicKey| -> (shared: [u8; 32])
        ensures
            shared@ == ristretto_mul(secret@, ephemeral_pk@),
        { secret.raw_key_exchange(ephemeral_pk) };
    decrypt_inner(ciphertext, ecdh, &recipient_pk, ctx)
}

/// Decrypts a message with an incoming viewing key, to whose public key it was encrypted.
pub fn decrypt_with_ivk(ciphertext: &[u8], ivk: &IncomingViewingKey, ctx: &[u8]) -> (result: Result<
    Vec<u8>,
    EciesError,
>)
    requires
        decryptable(ciphertext@.len(), ctx@.len()),
    ensures
        outcome(result) == decryption(ciphertext@, ivk@.scalar, ivk@.public, ctx@),
        result matches Ok(plaintext) ==> {
            &&& ciphertext@.len() == plaintext@.len() + ECIES_OVERHEAD
            &&& carries(
                parts(ciphertext@),
                ristretto_mul(ivk@.scalar, parts(ciphertext@).ephemeral_pk),
                ivk@.public,
                ctx@,
                plaintext@,
            )
        },
{
    let ecdh = |ephemeral_pk: &PublicKey| -> (shared: [u8; 32])
        ensures
            shared@ == ristretto_mul(ivk@.scalar, ephemeral_pk@),
        { ivk.raw_key_exchange(ephemeral_pk) };
    decrypt_inner(ciphertext, ecdh, ivk.ivk_public(), ctx)
}

/// Decrypts a message by the key exchange `ecdh`, which is called with the ephemeral public key of
/// the message, once that is accepted, and never otherwise.
pub fn decrypt_inner<F: FnOnce(&PublicKey) -> [u8; 32]>(
    ciphertext: &[u8],
    ecdh: F,
    recipient_pk: &PublicKey,
    ctx: &[u8],
) -> (result: Result<Vec<u8>, EciesError>)
    requires
        decryptable(ciphertext@.len(), ctx@.len()),
        forall|pk: &PublicKey|
            ciphertext@.len() >= ECIES_OVERHEAD && valid_ephemeral(pk@) && pk@ == parts(
                ciphertext@,
            ).ephemeral_pk ==> #[trigger] ecdh.requires((pk,)),
    ensures
        if ciphertext@.len() < ECIES_OVERHEAD {
            result == Err::<Vec<u8>, EciesError>(EciesError::CiphertextTooShort)
        } else if !valid_ephemeral(parts(ciphertext@).ephemeral_pk) {
            result == Err::<Vec<u8>, EciesError>(EciesError::InvalidEphemeralKey)
        } else {
            exists|pk: &PublicKey, shared: [u8; 32]|
                {
                    &&& pk@ == parts(ciphertext@).ephemeral_pk
                    &&& #[trigger] ecdh.ensures((pk,), shared)
                    &&& outcome(result) == opened_payload(
                        parts(ciphertext@),
                        shared@,
                        recipient_pk@,
                        ctx@,
                    )
                    &&& result matches Ok(plaintext) ==> {
                        &&& ciphertext@.len() == plaintext@.len() + ECIES_OVERHEAD
                        &&& carries(
                            parts(ciphertext@),
                            shared@,
                            recipient_pk@,
                            ctx@,
                            plaintext@,
                        )
                    }
                }
        },
{
    let envelope = match Envelope::parse(ciphertext) {
        Ok(envelope) => envelope,
        Err(error) => return Err(error),
    };
    let ephemeral_pk = match parse_ephemeral_pk(envelope.ephemeral_pk) {
        Ok(ephemeral_pk) => ephemeral_pk,
        Err(error) => return Err(error),
    };
    let shared = ecdh(&ephemeral_pk);
    open_payload(&envelope, &ephemeral_pk, &shared, recipient_pk, ctx)
}

/// The scalar that unwrapped bytes hold.
pub fn unwrapped_scalar(bytes: &[u8]) -> (result: Result<Scalar, EciesError>)
    ensures
        match result {
            Ok(scalar) => is_scalar(bytes@) && scalar@ == bytes@,
            Err(error) => !is_scalar(bytes@) && error == EciesError::DecryptionFailed,
        },
{
    if bytes.len() != SCALAR_LENGTH {
        return Err(EciesError::DecryptionFailed);
    }
    let mut scalar_bytes: [u8; 32] = to_array(bytes);
    let scalar = Scalar::from_canonical_bytes(scalar_bytes);
    wipe(&mut scalar_bytes);
    match scalar {
        Some(scalar) => Ok(scalar),
        None => Err(EciesError::DecryptionFailed),
    }
}

/// Decrypts a message with the sender's outgoing viewing key: unwraps the ephemeral secret, and
/// repeats the key exchange with it.
///
/// Where the message starts with the public key of that secret, the recipient reads the same.
pub fn decrypt_outgoing(
    ciphertext: &[u8],
    ovk: &OutgoingViewingKey,
    recipient_pk: &PublicKey,
    ctx: &[u8],
) -> (result: Result<Vec<u8>, EciesError>)
    requires
        outgoing_decryptable(ciphertext@.len(), ctx@.len()),
    ensures
        outcome(result) == outgoing_decryption(ciphertext@, ovk@, recipient_pk@, ctx@),
        result matches Ok(plaintext) ==> {
            &&& ciphertext@.len() == plaintext@.len() + ECIES_OVERHEAD
            &&& unwrapped_secret(parts(ciphertext@), ovk@, recipient_pk@) matches Some(secret)
            &&& carries(
                parts(ciphertext@),
                ristretto_mul(secret, recipient_pk@),
                recipient_pk@,
                ctx@,
                plaintext@,
            )
            &&& parts(ciphertext@).ephemeral_pk == ristretto_mul_base(secret) ==> recipient_reads(
                ciphertext@,
                recipient_pk@,
                ctx@,
                plaintext@,
            )
        },
{
    let envelope = match Envelope::parse(ciphertext) {
        Ok(envelope) => envelope,
        Err(error) => return Err(error),
    };
    let ephemeral_pk = match parse_ephemeral_pk(envelope.ephemeral_pk) {
        Ok(ephemeral_pk) => ephemeral_pk,
        Err(error) => return Err(error),
    };

    let mut ovk_key = derive_ovk_wrap_key(
        ovk.as_bytes(),
        ephemeral_pk.as_compressed(),
        recipient_pk.as_compressed(),
        envelope.encrypted,
    );
    let no_aad: [u8; 0] = [];
    assert(no_aad@ =~= seq![]);
    let unwrapped = open(&ovk_key, &envelope.ovk_nonce, envelope.ovk_ciphertext, &no_aad);
    wipe(&mut ovk_key);
    let mut esk_bytes = match unwrapped {
        Ok(esk_bytes) => esk_bytes,
        Err(_) => return Err(EciesError::DecryptionFailed),
    };
    let scalar = unwrapped_scalar(&esk_bytes);
    wipe_vec(&mut esk_bytes);
    let mut esk_scalar = match scalar {
        Ok(esk_scalar) => esk_scalar,
        Err(error) => return Err(error),
    };

    let shared = mul_point(esk_scalar.as_bytes(), recipient_pk.as_compressed());
    esk_scalar.zeroize();
    open_payload(&envelope, &ephemeral_pk, &shared, recipient_pk, ctx)
}

} // verus!
