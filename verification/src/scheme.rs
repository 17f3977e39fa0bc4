//! What the scheme computes, said of the primitives alone: points, transcripts and the cipher.
//!
//! Every law here is written out with the labels, the positions and the limits as numbers and
//! texts, so that it says what a message is without the definitions of the other modules.
use vstd::prelude::*;

use crate::aead::{chacha20poly1305_open, chacha20poly1305_seal, message_fits};
use crate::bytes::{le_nat, lemma_le_bytes_round_trip, utf8};
use crate::curve::{
    group_order, identity_encoding, is_scalar, lemma_group_order_fits, ristretto_decodes,
    ristretto_mul, ristretto_mul_base,
};
use crate::ecies::{
    carries, decryptable, decryption, delivers, encryptable, encrypted_with, encryption,
    law_parts_of_wire, message_around, nobody_reads, opened_payload, outgoing_decryptable,
    outgoing_decryption, parts, payload_key, payload_log, recipient_reads, sealed_message,
    sealed_payload, sender_reads, unwrapped_secret, valid_ephemeral, wrap_key, wrap_log,
    EciesError, Envelope, Parts, ECIES_OVERHEAD, OVK_BLOB_LEN,
};
use crate::transcript::merlin_challenge;
use crate::viewing_key::{incoming_key, incoming_log, incoming_scalar, outgoing_key};

verus! {

// ---------------------------------------------------------------------------
// Keys that are derived
// ---------------------------------------------------------------------------

/// The key of a payload is the challenge of a transcript of the whole context, both public keys and
/// the shared secret, of whatever length.
pub proof fn law_payload_key(
    shared_secret: Seq<u8>,
    ephemeral_pk: Seq<u8>,
    recipient_pk: Seq<u8>,
    ctx: Seq<u8>,
)
    ensures
        payload_key(shared_secret, ephemeral_pk, recipient_pk, ctx) == merlin_challenge(
            seq![
                (utf8("dom-sep"), utf8("sr25519-ecies")),
                (utf8("ctx"), ctx),
                (utf8("ephemeral-pk"), ephemeral_pk),
                (utf8("recipient-pk"), recipient_pk),
                (utf8("shared-secret"), shared_secret),
            ],
            utf8("aead-key"),
            32,
        ),
{
}

/// The key that wraps an ephemeral secret is the challenge of a transcript of the outgoing viewing
/// key, both public keys and the whole encrypted payload, of whatever length.
pub proof fn law_wrap_key(
    ovk: Seq<u8>,
    ephemeral_pk: Seq<u8>,
    recipient_pk: Seq<u8>,
    encrypted: Seq<u8>,
)
    ensures
        wrap_key(ovk, ephemeral_pk, recipient_pk, encrypted) == merlin_challenge(
            seq![
                (utf8("dom-sep"), utf8("sr25519-ecies-ovk-wrap")),
                (utf8("ovk"), ovk),
                (utf8("ephemeral-pk"), ephemeral_pk),
                (utf8("recipient-pk"), recipient_pk),
                (utf8("main-ciphertext"), encrypted),
            ],
            utf8("ovk-wrap-key"),
            32,
        ),
{
}

/// The incoming viewing scalar is the number that the 64 challenge bytes of the signing scalar
/// hold, reduced modulo the group order, and the public key of the viewing key is its multiple of
/// the base point.
pub proof fn law_incoming_key(signing_scalar: Seq<u8>)
    ensures
        incoming_scalar(signing_scalar).len() == 32,
        le_nat(incoming_scalar(signing_scalar)) == le_nat(
            merlin_challenge(
                seq![
                    (utf8("dom-sep"), utf8("sr25519-ivk")),
                    (utf8("signing-scalar"), signing_scalar),
                ],
                utf8("ivk-scalar"),
                64,
            ),
        ) % 7237005577332262213973186563042994240857116359379907606001950938285454250989nat,
        incoming_key(signing_scalar).scalar == incoming_scalar(signing_scalar),
        incoming_key(signing_scalar).public == ristretto_mul_base(incoming_scalar(signing_scalar)),
{
    let wide = merlin_challenge(incoming_log(signing_scalar), utf8("ivk-scalar"), 64);
    lemma_group_order_fits();
    lemma_le_bytes_round_trip(le_nat(wide) % group_order(), 32);
}

/// The outgoing viewing key is the 32 challenge bytes of the signing scalar.
pub proof fn law_outgoing_key(signing_scalar: Seq<u8>)
    ensures
        outgoing_key(signing_scalar) == merlin_challenge(
            seq![
                (utf8("dom-sep"), utf8("sr25519-ovk")),
                (utf8("signing-scalar"), signing_scalar),
            ],
            utf8("ovk-key"),
            32,
        ),
{
}

// ---------------------------------------------------------------------------
// Wire format
// ---------------------------------------------------------------------------

/// Where the parts of a message stand: bytes 0 to 32, 32 to 44, 44 to the last 60, and these as 12
/// and 48.
pub proof fn law_positions(wire: Seq<u8>)
    requires
        wire.len() >= 120,
    ensures
        ({
            let n = wire.len();
            let message = parts(wire);
            &&& message.ephemeral_pk == wire.subrange(0, 32)
            &&& message.nonce == wire.subrange(32, 44)
            &&& message.encrypted == wire.subrange(44, n - 60)
            &&& message.ovk_nonce == wire.subrange(n - 60, n - 48)
            &&& message.ovk_ciphertext == wire.subrange(n - 48, n as int)
            &&& message.well_formed()
        }),
        ECIES_OVERHEAD == 120,
        OVK_BLOB_LEN == 60,
{
}

/// A message on the wire is its parts one after the other, and has its parts where they have their
/// lengths.
pub proof fn law_concatenation(message: Parts)
    ensures
        message.wire() == message.ephemeral_pk + message.nonce + message.encrypted
            + message.ovk_nonce + message.ovk_ciphertext,
        message.well_formed() <==> message.ephemeral_pk.len() == 32 && message.nonce.len() == 12
            && message.encrypted.len() >= 16 && message.ovk_nonce.len() == 12
            && message.ovk_ciphertext.len() == 48,
{
}

/// A message that is taken apart shows its parts under their names.
pub proof fn law_parts_of_envelope(envelope: Envelope<'_>)
    ensures
        envelope@.ephemeral_pk == envelope.ephemeral_pk@,
        envelope@.nonce == envelope.nonce@,
        envelope@.encrypted == envelope.encrypted@,
        envelope@.ovk_nonce == envelope.ovk_nonce@,
        envelope@.ovk_ciphertext == envelope.ovk_ciphertext@,
{
}

/// An ephemeral key is accepted where it is the encoding of a point other than the one whose bytes
/// are all zero.
pub proof fn law_accepted_ephemeral_keys(bytes: Seq<u8>)
    ensures
        valid_ephemeral(bytes) <==> {
            &&& bytes.len() == 32
            &&& ristretto_decodes(bytes)
            &&& exists|i: int| 0 <= i < 32 && #[trigger] bytes[i] != 0
        },
        bytes == identity_encoding() <==> bytes.len() == 32 && forall|i: int|
            0 <= i < 32 ==> #[trigger] bytes[i] == 0,
{
    if bytes.len() == 32 && forall|i: int| 0 <= i < 32 ==> #[trigger] bytes[i] == 0 {
        assert(bytes =~= identity_encoding());
    }
}

/// The scalars are the 32-byte numbers below 2^252 + 27742317777372353535851937790883648493.
pub proof fn law_scalars(bytes: Seq<u8>)
    ensures
        is_scalar(bytes) <==> bytes.len() == 32 && le_nat(bytes)
            < 7237005577332262213973186563042994240857116359379907606001950938285454250989nat,
{
}

// ---------------------------------------------------------------------------
// Encryption
// ---------------------------------------------------------------------------

/// What encryption gives: the identity is refused, and a plaintext of 64 * (2^32 - 1) bytes or
/// more; every other input gives the message, byte for byte.
pub proof fn law_encryption(
    plaintext: Seq<u8>,
    recipient: Seq<u8>,
    ctx: Seq<u8>,
    ephemeral_secret: Seq<u8>,
    ovk: Seq<u8>,
    nonce: Seq<u8>,
    ovk_nonce: Seq<u8>,
)
    ensures
        encryption(plaintext, recipient, ctx, ephemeral_secret, ovk, nonce, ovk_nonce) == ({
            let ephemeral_pk = ristretto_mul_base(ephemeral_secret);
            let payload = chacha20poly1305_seal(
                merlin_challenge(
                    seq![
                        (utf8("dom-sep"), utf8("sr25519-ecies")),
                        (utf8("ctx"), ctx),
                        (utf8("ephemeral-pk"), ephemeral_pk),
                        (utf8("recipient-pk"), recipient),
                        (utf8("shared-secret"), ristretto_mul(ephemeral_secret, recipient)),
                    ],
                    utf8("aead-key"),
                    32,
                ),
                nonce,
                plaintext,
                ephemeral_pk + recipient,
            );
            let wrapped = chacha20poly1305_seal(
                merlin_challenge(
                    seq![
                        (utf8("dom-sep"), utf8("sr25519-ecies-ovk-wrap")),
                        (utf8("ovk"), ovk),
                        (utf8("ephemeral-pk"), ephemeral_pk),
                        (utf8("recipient-pk"), recipient),
                        (utf8("main-ciphertext"), payload),
                    ],
                    utf8("ovk-wrap-key"),
                    32,
                ),
                ovk_nonce,
                ephemeral_secret,
                seq![],
            );
            if recipient == Seq::new(32, |i: int| 0u8) {
                Err::<Seq<u8>, EciesError>(EciesError::IdentityRecipient)
            } else if plaintext.len() >= 274877906880 {
                Err(EciesError::EncryptionFailed)
            } else {
                Ok(ephemeral_pk + nonce + payload + ovk_nonce + wrapped)
            }
        }),
{
    assert(identity_encoding() =~= Seq::new(32, |i: int| 0u8));
}

/// What the parts of a message are, for every recipient: the payload is the plaintext, sealed under
/// the challenge, and around any payload stand the ephemeral public key, the nonces and the
/// ephemeral secret, wrapped for that payload.
pub proof fn law_steps_of_encryption(
    plaintext: Seq<u8>,
    encrypted: Seq<u8>,
    recipient: Seq<u8>,
    ctx: Seq<u8>,
    ephemeral_secret: Seq<u8>,
    ovk: Seq<u8>,
    nonce: Seq<u8>,
    ovk_nonce: Seq<u8>,
)
    ensures
        ({
            let ephemeral_pk = ristretto_mul_base(ephemeral_secret);
            let payload = sealed_payload(plaintext, recipient, ctx, ephemeral_secret, nonce);
            let around = message_around(
                encrypted,
                recipient,
                ephemeral_secret,
                ovk,
                nonce,
                ovk_nonce,
            );
            let wrapping = merlin_challenge(
                seq![
                    (utf8("dom-sep"), utf8("sr25519-ecies-ovk-wrap")),
                    (utf8("ovk"), ovk),
                    (utf8("ephemeral-pk"), ephemeral_pk),
                    (utf8("recipient-pk"), recipient),
                    (utf8("main-ciphertext"), encrypted),
                ],
                utf8("ovk-wrap-key"),
                32,
            );
            &&& payload == chacha20poly1305_seal(
                merlin_challenge(
                    seq![
                        (utf8("dom-sep"), utf8("sr25519-ecies")),
                        (utf8("ctx"), ctx),
                        (utf8("ephemeral-pk"), ephemeral_pk),
                        (utf8("recipient-pk"), recipient),
                        (utf8("shared-secret"), ristretto_mul(ephemeral_secret, recipient)),
                    ],
                    utf8("aead-key"),
                    32,
                ),
                nonce,
                plaintext,
                ephemeral_pk + recipient,
            )
            &&& around.ephemeral_pk == ephemeral_pk
            &&& around.nonce == nonce
            &&& around.encrypted == encrypted
            &&& around.ovk_nonce == ovk_nonce
            &&& around.ovk_ciphertext == chacha20poly1305_seal(
                wrapping,
                ovk_nonce,
                ephemeral_secret,
                seq![],
            )
            &&& unwrapped_secret(around, ovk, recipient) == chacha20poly1305_open(
                wrapping,
                ovk_nonce,
                around.ovk_ciphertext,
                seq![],
            )
            &&& sealed_message(
                plaintext,
                recipient,
                ctx,
                ephemeral_secret,
                ovk,
                nonce,
                ovk_nonce,
            ) == message_around(payload, recipient, ephemeral_secret, ovk, nonce, ovk_nonce)
        }),
{
}

/// A message of [`encrypt_with`](crate::ecies::encrypt_with) is the one that encryption gives for
/// the nonces that stand in it, and an error comes for the two reasons only.
pub proof fn law_encrypted_with(
    result: Result<Seq<u8>, EciesError>,
    plaintext: Seq<u8>,
    recipient: Seq<u8>,
    ctx: Seq<u8>,
    ephemeral_secret: Seq<u8>,
    ovk: Seq<u8>,
)
    ensures
        encrypted_with(result, plaintext, recipient, ctx, ephemeral_secret, ovk) ==> {
            match result {
                Ok(wire) => {
                    let n = wire.len();
                    &&& n >= 120
                    &&& recipient != identity_encoding()
                    &&& plaintext.len() < 274877906880
                    &&& encryption(
                        plaintext,
                        recipient,
                        ctx,
                        ephemeral_secret,
                        ovk,
                        wire.subrange(32, 44),
                        wire.subrange(n - 60, n - 48),
                    ) == Ok::<Seq<u8>, EciesError>(wire)
                    &&& wire.subrange(0, 32) == ristretto_mul_base(ephemeral_secret)
                },
                Err(error) => {
                    ||| recipient == identity_encoding() && error == EciesError::IdentityRecipient
                    ||| {
                        &&& recipient != identity_encoding()
                        &&& plaintext.len() >= 274877906880
                        &&& error == EciesError::EncryptionFailed
                    }
                },
            }
        },
{
    if encrypted_with(result, plaintext, recipient, ctx, ephemeral_secret, ovk) && result is Ok {
        let (nonce, ovk_nonce) = choose|nonce: Seq<u8>, ovk_nonce: Seq<u8>|
            {
                &&& nonce.len() == 12
                &&& ovk_nonce.len() == 12
                &&& result == #[trigger] encryption(
                    plaintext,
                    recipient,
                    ctx,
                    ephemeral_secret,
                    ovk,
                    nonce,
                    ovk_nonce,
                )
                &&& sealed_message(
                    plaintext,
                    recipient,
                    ctx,
                    ephemeral_secret,
                    ovk,
                    nonce,
                    ovk_nonce,
                ).well_formed()
            };
        let message = sealed_message(
            plaintext,
            recipient,
            ctx,
            ephemeral_secret,
            ovk,
            nonce,
            ovk_nonce,
        );
        law_parts_of_wire(message);
        law_positions(message.wire());
    }
}

/// A message that delivers is read: by everyone who owns the recipient's key, and by the sender.
/// One with a zero ephemeral secret is refused, whoever decrypts.
pub proof fn law_delivery(
    wire: Seq<u8>,
    plaintext: Seq<u8>,
    recipient: Seq<u8>,
    ctx: Seq<u8>,
    ephemeral_secret: Seq<u8>,
    ovk: Seq<u8>,
    owner: Seq<u8>,
    anyone: (Seq<u8>, Seq<u8>, Seq<u8>),
)
    ensures
        delivers(wire, plaintext, recipient, ctx, ephemeral_secret, ovk) ==> {
            &&& wire.len() == plaintext.len() + 120
            &&& wire.subrange(0, 32) == ristretto_mul_base(ephemeral_secret)
            &&& le_nat(ephemeral_secret) != 0 ==> {
                &&& owner.len() == 32 && ristretto_mul_base(owner) == recipient ==> decryption(
                    wire,
                    owner,
                    recipient,
                    ctx,
                ) == Ok::<Seq<u8>, EciesError>(plaintext)
                &&& outgoing_decryption(wire, ovk, recipient, ctx) == Ok::<Seq<u8>, EciesError>(
                    plaintext,
                )
            }
            &&& le_nat(ephemeral_secret) == 0 ==> {
                &&& decryption(wire, anyone.0, anyone.1, anyone.2) == Err::<Seq<u8>, EciesError>(
                    EciesError::InvalidEphemeralKey,
                )
                &&& outgoing_decryption(wire, anyone.0, anyone.1, anyone.2) == Err::<
                    Seq<u8>,
                    EciesError,
                >(EciesError::InvalidEphemeralKey)
            }
        },
        recipient_reads(wire, recipient, ctx, plaintext) && owner.len() == 32
            && ristretto_mul_base(owner) == recipient ==> decryption(wire, owner, recipient, ctx)
            == Ok::<Seq<u8>, EciesError>(plaintext),
        sender_reads(wire, ovk, recipient, ctx, plaintext) ==> outgoing_decryption(
            wire,
            ovk,
            recipient,
            ctx,
        ) == Ok::<Seq<u8>, EciesError>(plaintext),
        nobody_reads(wire) ==> decryption(wire, anyone.0, anyone.1, anyone.2) == Err::<
            Seq<u8>,
            EciesError,
        >(EciesError::InvalidEphemeralKey),
{
}

/// Which lengths are accepted: all but those at which the transcript, the key stream or memory ends.
pub proof fn law_accepted_lengths(plaintext_len: nat, recipient: Seq<u8>, ctx_len: nat)
    ensures
        message_fits(plaintext_len) <==> plaintext_len < 274877906880,
        ctx_len <= 4294967295 && plaintext_len <= 4294967279 && plaintext_len + 120 <= isize::MAX
            ==> encryptable(plaintext_len, recipient, ctx_len),
        ctx_len <= 4294967295 && plaintext_len >= 274877906880 && plaintext_len + 16 <= isize::MAX
            ==> encryptable(plaintext_len, recipient, ctx_len),
        recipient == identity_encoding() ==> encryptable(plaintext_len, recipient, ctx_len),
        plaintext_len < 120 ==> decryptable(plaintext_len, ctx_len),
        plaintext_len < 120 ==> outgoing_decryptable(plaintext_len, ctx_len),
        ctx_len <= 4294967295 && (plaintext_len <= 274877906816 || plaintext_len >= 274877906880)
            ==> decryptable((plaintext_len + 120) as nat, ctx_len),
        ctx_len <= 4294967295 && plaintext_len <= 4294967279 ==> outgoing_decryptable(
            (plaintext_len + 120) as nat,
            ctx_len,
        ),
{
}

// ---------------------------------------------------------------------------
// Decryption
// ---------------------------------------------------------------------------

/// What decryption by the recipient gives, with every error: what the cipher opens the payload to,
/// under the challenge of the whole context, both public keys and the shared secret.
pub proof fn law_decryption(
    ciphertext: Seq<u8>,
    scalar: Seq<u8>,
    recipient: Seq<u8>,
    ctx: Seq<u8>,
)
    ensures
        decryption(ciphertext, scalar, recipient, ctx) == ({
            let n = ciphertext.len();
            let ephemeral_pk = ciphertext.subrange(0, 32);
            if n < 120 {
                Err::<Seq<u8>, EciesError>(EciesError::CiphertextTooShort)
            } else if !ristretto_decodes(ephemeral_pk) || ephemeral_pk == Seq::new(
                32,
                |i: int| 0u8,
            ) {
                Err(EciesError::InvalidEphemeralKey)
            } else {
                match chacha20poly1305_open(
                    merlin_challenge(
                        seq![
                            (utf8("dom-sep"), utf8("sr25519-ecies")),
                            (utf8("ctx"), ctx),
                            (utf8("ephemeral-pk"), ephemeral_pk),
                            (utf8("recipient-pk"), recipient),
                            (utf8("shared-secret"), ristretto_mul(scalar, ephemeral_pk)),
                        ],
                        utf8("aead-key"),
                        32,
                    ),
                    ciphertext.subrange(32, 44),
                    ciphertext.subrange(44, n - 60),
                    ephemeral_pk + recipient,
                ) {
                    Some(plaintext) => Ok(plaintext),
                    None => Err(EciesError::DecryptionFailed),
                }
            }
        }),
{
    assert(identity_encoding() =~= Seq::new(32, |i: int| 0u8));
}

/// What decryption by the sender gives, with every error: the wrapped part opens under the challenge
/// of the outgoing viewing key, both public keys and the whole payload, it has to be a scalar, and
/// the payload opens under the secret that this scalar shares with the recipient.
pub proof fn law_outgoing_decryption(
    ciphertext: Seq<u8>,
    ovk: Seq<u8>,
    recipient: Seq<u8>,
    ctx: Seq<u8>,
)
    ensures
        outgoing_decryption(ciphertext, ovk, recipient, ctx) == ({
            let n = ciphertext.len();
            let ephemeral_pk = ciphertext.subrange(0, 32);
            let encrypted = ciphertext.subrange(44, n - 60);
            if n < 120 {
                Err::<Seq<u8>, EciesError>(EciesError::CiphertextTooShort)
            } else if !ristretto_decodes(ephemeral_pk) || ephemeral_pk == Seq::new(
                32,
                |i: int| 0u8,
            ) {
                Err(EciesError::InvalidEphemeralKey)
            } else {
                match chacha20poly1305_open(
                    merlin_challenge(
                        seq![
                            (utf8("dom-sep"), utf8("sr25519-ecies-ovk-wrap")),
                            (utf8("ovk"), ovk),
                            (utf8("ephemeral-pk"), ephemeral_pk),
                            (utf8("recipient-pk"), recipient),
                            (utf8("main-ciphertext"), encrypted),
                        ],
                        utf8("ovk-wrap-key"),
                        32,
                    ),
                    ciphertext.subrange(n - 60, n - 48),
                    ciphertext.subrange(n - 48, n as int),
                    seq![],
                ) {
                    None => Err(EciesError::DecryptionFailed),
                    Some(secret) => if secret.len() != 32 || le_nat(secret)
                        >= 7237005577332262213973186563042994240857116359379907606001950938285454250989nat {
                        Err(EciesError::DecryptionFailed)
                    } else {
                        match chacha20poly1305_open(
                            merlin_challenge(
                                seq![
                                    (utf8("dom-sep"), utf8("sr25519-ecies")),
                                    (utf8("ctx"), ctx),
                                    (utf8("ephemeral-pk"), ephemeral_pk),
                                    (utf8("recipient-pk"), recipient),
                                    (utf8("shared-secret"), ristretto_mul(secret, recipient)),
                                ],
                                utf8("aead-key"),
                                32,
                            ),
                            ciphertext.subrange(32, 44),
                            encrypted,
                            ephemeral_pk + recipient,
                        ) {
                            Some(plaintext) => Ok(plaintext),
                            None => Err(EciesError::DecryptionFailed),
                        }
                    },
                }
            }
        }),
{
    assert(identity_encoding() =~= Seq::new(32, |i: int| 0u8));
}

/// What opening the payload gives: what the cipher opens it to under the challenge, or that
/// decryption failed.
pub proof fn law_opened_payload(
    message: Parts,
    shared_secret: Seq<u8>,
    recipient: Seq<u8>,
    ctx: Seq<u8>,
    plaintext: Seq<u8>,
)
    ensures
        ({
            let key = merlin_challenge(
                seq![
                    (utf8("dom-sep"), utf8("sr25519-ecies")),
                    (utf8("ctx"), ctx),
                    (utf8("ephemeral-pk"), message.ephemeral_pk),
                    (utf8("recipient-pk"), recipient),
                    (utf8("shared-secret"), shared_secret),
                ],
                utf8("aead-key"),
                32,
            );
            let opened = chacha20poly1305_open(
                key,
                message.nonce,
                message.encrypted,
                message.ephemeral_pk + recipient,
            );
            &&& opened is None ==> opened_payload(message, shared_secret, recipient, ctx) == Err::<
                Seq<u8>,
                EciesError,
            >(EciesError::DecryptionFailed)
            &&& opened == Some(plaintext) ==> opened_payload(message, shared_secret, recipient, ctx)
                == Ok::<Seq<u8>, EciesError>(plaintext)
            &&& carries(message, shared_secret, recipient, ctx, plaintext) ==> message.encrypted
                == chacha20poly1305_seal(
                key,
                message.nonce,
                plaintext,
                message.ephemeral_pk + recipient,
            )
        }),
{
}

// ---------------------------------------------------------------------------
// What is refused where nothing is forged
// ---------------------------------------------------------------------------

/// Whether two transcripts are told apart: where they differ, so do their challenges.
pub open spec fn told_apart(
    one: Seq<(Seq<u8>, Seq<u8>)>,
    other: Seq<(Seq<u8>, Seq<u8>)>,
    label: Seq<u8>,
) -> bool {
    one != other ==> merlin_challenge(one, label, 32) != merlin_challenge(other, label, 32)
}

/// Whether `sealed`, which was made under `key`, does not open under `other_key`, unless the keys
/// are the same.
pub open spec fn opens_under_its_key_only(
    key: Seq<u8>,
    other_key: Seq<u8>,
    nonce: Seq<u8>,
    sealed: Seq<u8>,
    associated: Seq<u8>,
) -> bool {
    key != other_key ==> chacha20poly1305_open(other_key, nonce, sealed, associated) is None
}

/// The sender's message does not open with another outgoing viewing key, where nothing is forged.
pub proof fn law_other_outgoing_key_is_refused(
    plaintext: Seq<u8>,
    recipient: Seq<u8>,
    ctx: Seq<u8>,
    ephemeral_secret: Seq<u8>,
    ovk: Seq<u8>,
    other_ovk: Seq<u8>,
    nonce: Seq<u8>,
    ovk_nonce: Seq<u8>,
    other_ctx: Seq<u8>,
)
    requires
        ovk != other_ovk,
    ensures
        ({
            let message = sealed_message(
                plaintext,
                recipient,
                ctx,
                ephemeral_secret,
                ovk,
                nonce,
                ovk_nonce,
            );
            let log = |k: Seq<u8>|
                seq![
                    (utf8("dom-sep"), utf8("sr25519-ecies-ovk-wrap")),
                    (utf8("ovk"), k),
                    (utf8("ephemeral-pk"), message.ephemeral_pk),
                    (utf8("recipient-pk"), recipient),
                    (utf8("main-ciphertext"), message.encrypted),
                ];
            message.well_formed() && valid_ephemeral(message.ephemeral_pk) && told_apart(
                log(ovk),
                log(other_ovk),
                utf8("ovk-wrap-key"),
            ) && opens_under_its_key_only(
                merlin_challenge(log(ovk), utf8("ovk-wrap-key"), 32),
                merlin_challenge(log(other_ovk), utf8("ovk-wrap-key"), 32),
                ovk_nonce,
                message.ovk_ciphertext,
                seq![],
            ) ==> outgoing_decryption(message.wire(), other_ovk, recipient, other_ctx) == Err::<
                Seq<u8>,
                EciesError,
            >(EciesError::DecryptionFailed)
        }),
{
    let message = sealed_message(
        plaintext,
        recipient,
        ctx,
        ephemeral_secret,
        ovk,
        nonce,
        ovk_nonce,
    );
    if message.well_formed() {
        law_parts_of_wire(message);
        let one = wrap_log(ovk, message.ephemeral_pk, recipient, message.encrypted);
        let other = wrap_log(other_ovk, message.ephemeral_pk, recipient, message.encrypted);
        assert(one[1].1 == ovk && other[1].1 == other_ovk);
    }
}

/// The sender's message does not open for another recipient's public key, where nothing is forged.
pub proof fn law_other_recipient_is_refused(
    plaintext: Seq<u8>,
    recipient: Seq<u8>,
    other_recipient: Seq<u8>,
    ctx: Seq<u8>,
    ephemeral_secret: Seq<u8>,
    ovk: Seq<u8>,
    nonce: Seq<u8>,
    ovk_nonce: Seq<u8>,
    other_ctx: Seq<u8>,
)
    requires
        recipient != other_recipient,
    ensures
        ({
            let message = sealed_message(
                plaintext,
                recipient,
                ctx,
                ephemeral_secret,
                ovk,
                nonce,
                ovk_nonce,
            );
            let log = |r: Seq<u8>|
                seq![
                    (utf8("dom-sep"), utf8("sr25519-ecies-ovk-wrap")),
                    (utf8("ovk"), ovk),
                    (utf8("ephemeral-pk"), message.ephemeral_pk),
                    (utf8("recipient-pk"), r),
                    (utf8("main-ciphertext"), message.encrypted),
                ];
            message.well_formed() && valid_ephemeral(message.ephemeral_pk) && told_apart(
                log(recipient),
                log(other_recipient),
                utf8("ovk-wrap-key"),
            ) && opens_under_its_key_only(
                merlin_challenge(log(recipient), utf8("ovk-wrap-key"), 32),
                merlin_challenge(log(other_recipient), utf8("ovk-wrap-key"), 32),
                ovk_nonce,
                message.ovk_ciphertext,
                seq![],
            ) ==> outgoing_decryption(message.wire(), ovk, other_recipient, other_ctx) == Err::<
                Seq<u8>,
                EciesError,
            >(EciesError::DecryptionFailed)
        }),
{
    let message = sealed_message(
        plaintext,
        recipient,
        ctx,
        ephemeral_secret,
        ovk,
        nonce,
        ovk_nonce,
    );
    if message.well_formed() {
        law_parts_of_wire(message);
        let one = wrap_log(ovk, message.ephemeral_pk, recipient, message.encrypted);
        let other = wrap_log(ovk, message.ephemeral_pk, other_recipient, message.encrypted);
        assert(one[3].1 == recipient && other[3].1 == other_recipient);
    }
}

/// A message does not decrypt under another context or another shared secret, where nothing is
/// forged: neither by a recipient, nor by the sender.
pub proof fn law_other_context_or_secret_is_refused(
    plaintext: Seq<u8>,
    recipient: Seq<u8>,
    ctx: Seq<u8>,
    other_ctx: Seq<u8>,
    ephemeral_secret: Seq<u8>,
    ovk: Seq<u8>,
    nonce: Seq<u8>,
    ovk_nonce: Seq<u8>,
    scalar: Seq<u8>,
)
    ensures
        ({
            let message = sealed_message(
                plaintext,
                recipient,
                ctx,
                ephemeral_secret,
                ovk,
                nonce,
                ovk_nonce,
            );
            let log = |c: Seq<u8>, s: Seq<u8>|
                seq![
                    (utf8("dom-sep"), utf8("sr25519-ecies")),
                    (utf8("ctx"), c),
                    (utf8("ephemeral-pk"), message.ephemeral_pk),
                    (utf8("recipient-pk"), recipient),
                    (utf8("shared-secret"), s),
                ];
            let shared = ristretto_mul(ephemeral_secret, recipient);
            let unforged = |other: Seq<u8>|
                told_apart(log(ctx, shared), log(other_ctx, other), utf8("aead-key"))
                    && opens_under_its_key_only(
                    merlin_challenge(log(ctx, shared), utf8("aead-key"), 32),
                    merlin_challenge(log(other_ctx, other), utf8("aead-key"), 32),
                    nonce,
                    message.encrypted,
                    message.ephemeral_pk + recipient,
                );
            let other = ristretto_mul(scalar, message.ephemeral_pk);
            message.well_formed() && valid_ephemeral(message.ephemeral_pk) ==> {
                &&& (ctx != other_ctx || shared != other) && unforged(other) ==> decryption(
                    message.wire(),
                    scalar,
                    recipient,
                    other_ctx,
                ) == Err::<Seq<u8>, EciesError>(EciesError::DecryptionFailed)
                &&& ctx != other_ctx && unforged(shared) && unwrapped_secret(
                    message,
                    ovk,
                    recipient,
                ) == Some(ephemeral_secret) ==> outgoing_decryption(
                    message.wire(),
                    ovk,
                    recipient,
                    other_ctx,
                ) == Err::<Seq<u8>, EciesError>(EciesError::DecryptionFailed)
            }
        }),
{
    let message = sealed_message(
        plaintext,
        recipient,
        ctx,
        ephemeral_secret,
        ovk,
        nonce,
        ovk_nonce,
    );
    let shared = ristretto_mul(ephemeral_secret, recipient);
    let other = ristretto_mul(scalar, message.ephemeral_pk);
    if message.well_formed() {
        law_parts_of_wire(message);
        let a = payload_log(shared, message.ephemeral_pk, recipient, ctx);
        let b = payload_log(other, message.ephemeral_pk, recipient, other_ctx);
        let c = payload_log(shared, message.ephemeral_pk, recipient, other_ctx);
        assert(a[1].1 == ctx && b[1].1 == other_ctx && c[1].1 == other_ctx);
        assert(a[4].1 == shared && b[4].1 == other);
    }
}

} // verus!
