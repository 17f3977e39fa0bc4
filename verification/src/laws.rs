//! Laws that hold between the operations of the library.
use vstd::prelude::*;

use crate::aead::{chacha20poly1305_open, message_fits};
use crate::bytes::{le_nat, lemma_le_bytes_round_trip, utf8};
use crate::curve::{
    agreed_with_owner, group_order, identity_encoding, is_scalar, lemma_group_order_fits,
    ristretto_mul, ristretto_mul_base,
};
use crate::ecies::{
    decryptable, decryption, delivers, encryptable, encryption, law_parts_of_wire,
    outgoing_decryptable, outgoing_decryption, parts, payload_log, sealed_message, valid_ephemeral,
    wrap_key, wrap_log, EciesError, Parts, ECIES_OVERHEAD, OVK_BLOB_LEN,
};
use crate::keys::{PublicKey, SecretKey, PUBLIC_KEY_LENGTH};
use crate::transcript::{lemma_utf8_injective, merlin_challenge};
use crate::viewing_key::{
    full_key, incoming_log, incoming_scalar, outgoing_log, IncomingHalves, OutgoingViewingKey,
};

verus! {

// ---------------------------------------------------------------------------
// Encryption and decryption
// ---------------------------------------------------------------------------

/// What was encrypted to the public key of a secret key, that key decrypts to the plaintext.
pub proof fn law_secret_key_reads(
    wire: Seq<u8>,
    plaintext: Seq<u8>,
    secret: Seq<u8>,
    ctx: Seq<u8>,
    ephemeral_secret: Seq<u8>,
    ovk: Seq<u8>,
)
    requires
        is_scalar(secret),
        le_nat(ephemeral_secret) != 0,
    ensures
        delivers(wire, plaintext, ristretto_mul_base(secret), ctx, ephemeral_secret, ovk)
            ==> decryption(wire, secret, ristretto_mul_base(secret), ctx) == Ok::<
            Seq<u8>,
            EciesError,
        >(plaintext),
{
}

/// What was encrypted to the public key of an incoming viewing key, that key decrypts to the
/// plaintext.
pub proof fn law_incoming_key_reads(
    wire: Seq<u8>,
    plaintext: Seq<u8>,
    ivk: IncomingHalves,
    ctx: Seq<u8>,
    ephemeral_secret: Seq<u8>,
    ovk: Seq<u8>,
)
    requires
        is_scalar(ivk.scalar),
        le_nat(ephemeral_secret) != 0,
    ensures
        ivk.consistent() && delivers(wire, plaintext, ivk.public, ctx, ephemeral_secret, ovk)
            ==> decryption(wire, ivk.scalar, ivk.public, ctx) == Ok::<Seq<u8>, EciesError>(
            plaintext,
        ),
{
}

/// What was encrypted to the full viewing key of a signing scalar, that key decrypts to the
/// plaintext.
pub proof fn law_full_key_reads(
    wire: Seq<u8>,
    plaintext: Seq<u8>,
    signing_scalar: Seq<u8>,
    signing_public: Seq<u8>,
    ctx: Seq<u8>,
    ephemeral_secret: Seq<u8>,
    ovk: Seq<u8>,
)
    requires
        le_nat(ephemeral_secret) != 0,
    ensures
        ({
            let ivk = full_key(signing_scalar, signing_public).ivk;
            delivers(wire, plaintext, ivk.public, ctx, ephemeral_secret, ovk) ==> decryption(
                wire,
                ivk.scalar,
                ivk.public,
                ctx,
            ) == Ok::<Seq<u8>, EciesError>(plaintext)
        }),
{
    law_derived_scalar(signing_scalar);
}

/// What was encrypted with an outgoing viewing key, that key decrypts to the plaintext, given only
/// the recipient's public key and the context.
pub proof fn law_outgoing_key_reads(
    wire: Seq<u8>,
    plaintext: Seq<u8>,
    recipient: Seq<u8>,
    ctx: Seq<u8>,
    ephemeral_secret: Seq<u8>,
    ovk: Seq<u8>,
)
    requires
        le_nat(ephemeral_secret) != 0,
    ensures
        delivers(wire, plaintext, recipient, ctx, ephemeral_secret, ovk) ==> outgoing_decryption(
            wire,
            ovk,
            recipient,
            ctx,
        ) == Ok::<Seq<u8>, EciesError>(plaintext),
{
}

/// What can be encrypted can be decrypted: the limits on lengths of the one leave room for the
/// other.
pub proof fn law_encryptable_is_decryptable(plaintext_len: nat, recipient: Seq<u8>, ctx_len: nat)
    requires
        encryptable(plaintext_len, recipient, ctx_len),
        recipient != identity_encoding(),
        message_fits(plaintext_len),
    ensures
        decryptable((plaintext_len + ECIES_OVERHEAD) as nat, ctx_len),
        outgoing_decryptable((plaintext_len + ECIES_OVERHEAD) as nat, ctx_len),
{
}

/// An incoming viewing key with the scalar of a secret key and its public key decrypts as that
/// secret key does, errors included.
pub proof fn law_incoming_key_decrypts_as_secret(
    ciphertext: Seq<u8>,
    secret: Seq<u8>,
    ivk: IncomingHalves,
    ctx: Seq<u8>,
)
    requires
        ivk.scalar == secret,
    ensures
        ivk.public == ristretto_mul_base(secret) ==> decryption(
            ciphertext,
            ivk.scalar,
            ivk.public,
            ctx,
        ) == decryption(ciphertext, secret, ristretto_mul_base(secret), ctx),
{
}

/// Encryption is a function of its arguments and the two nonces, and reads nothing of the keys but
/// the ephemeral scalar, the bytes of the outgoing viewing key and the recipient's encoding.
pub proof fn law_encryption_is_deterministic(
    plaintext: Seq<u8>,
    ctx: Seq<u8>,
    nonce: Seq<u8>,
    ovk_nonce: Seq<u8>,
    recipients: (PublicKey, PublicKey),
    ephemeral_secrets: (SecretKey, SecretKey),
    ovks: (OutgoingViewingKey, OutgoingViewingKey),
)
    requires
        recipients.0@ == recipients.1@,
        ephemeral_secrets.0@ == ephemeral_secrets.1@,
        ovks.0@ == ovks.1@,
    ensures
        encryption(
            plaintext,
            recipients.0@,
            ctx,
            ephemeral_secrets.0@,
            ovks.0@,
            nonce,
            ovk_nonce,
        ) == encryption(
            plaintext,
            recipients.1@,
            ctx,
            ephemeral_secrets.1@,
            ovks.1@,
            nonce,
            ovk_nonce,
        ),
{
}

/// Two messages with the same ephemeral secret start with the same 32 bytes, and differ where one
/// of their nonces differs.
pub proof fn law_nonces_distinguish_messages(
    plaintext: Seq<u8>,
    recipient: Seq<u8>,
    ctx: Seq<u8>,
    ephemeral_secret: Seq<u8>,
    ovk: Seq<u8>,
    nonces: (Seq<u8>, Seq<u8>),
    other_nonces: (Seq<u8>, Seq<u8>),
)
    requires
        nonces != other_nonces,
    ensures
        ({
            let one = sealed_message(
                plaintext,
                recipient,
                ctx,
                ephemeral_secret,
                ovk,
                nonces.0,
                nonces.1,
            );
            let other = sealed_message(
                plaintext,
                recipient,
                ctx,
                ephemeral_secret,
                ovk,
                other_nonces.0,
                other_nonces.1,
            );
            one.well_formed() && other.well_formed() ==> {
                &&& one.wire().subrange(0, 32) == other.wire().subrange(0, 32)
                &&& one.wire() != other.wire()
            }
        }),
{
    let one = sealed_message(
        plaintext,
        recipient,
        ctx,
        ephemeral_secret,
        ovk,
        nonces.0,
        nonces.1,
    );
    let other = sealed_message(
        plaintext,
        recipient,
        ctx,
        ephemeral_secret,
        ovk,
        other_nonces.0,
        other_nonces.1,
    );
    if one.well_formed() && other.well_formed() {
        law_parts_of_wire(one);
        law_parts_of_wire(other);
        assert(one.nonce != other.nonce || one.ovk_nonce != other.ovk_nonce);
    }
}

/// The sender's outgoing viewing key shows in the last 48 bytes of a message only: the wrapped
/// ephemeral secret with its tag.
pub proof fn law_outgoing_key_is_in_the_last_bytes(
    plaintext: Seq<u8>,
    recipient: Seq<u8>,
    ctx: Seq<u8>,
    ephemeral_secret: Seq<u8>,
    ovk: Seq<u8>,
    other_ovk: Seq<u8>,
    nonce: Seq<u8>,
    ovk_nonce: Seq<u8>,
)
    ensures
        ({
            let one = sealed_message(
                plaintext,
                recipient,
                ctx,
                ephemeral_secret,
                ovk,
                nonce,
                ovk_nonce,
            );
            let other = sealed_message(
                plaintext,
                recipient,
                ctx,
                ephemeral_secret,
                other_ovk,
                nonce,
                ovk_nonce,
            );
            let n = one.wire().len();
            one.well_formed() && other.well_formed() ==> {
                &&& other.wire().len() == n
                &&& one.wire().subrange(0, n - 48) == other.wire().subrange(0, n - 48)
            }
        }),
{
    let one = sealed_message(plaintext, recipient, ctx, ephemeral_secret, ovk, nonce, ovk_nonce);
    let other = sealed_message(
        plaintext,
        recipient,
        ctx,
        ephemeral_secret,
        other_ovk,
        nonce,
        ovk_nonce,
    );
    if one.well_formed() && other.well_formed() {
        let n = one.wire().len();
        let start = one.ephemeral_pk + one.nonce + one.encrypted + one.ovk_nonce;
        assert(one.wire().subrange(0, n - 48) =~= start);
        assert(other.wire().subrange(0, n - 48) =~= start);
    }
}

/// The message `one` with the last part of the message `other`.
pub open spec fn with_last_part_of(one: Seq<u8>, other: Seq<u8>) -> Seq<u8> {
    one.subrange(0, one.len() - OVK_BLOB_LEN) + other.subrange(
        other.len() - OVK_BLOB_LEN,
        other.len() as int,
    )
}

/// Whether the keys that wrap a secret for two payloads are kept apart: different transcripts give
/// different keys, and what is sealed under the second key does not open under the first unless the
/// keys are the same.
pub open spec fn wrapping_is_unforged(
    ovk: Seq<u8>,
    ephemeral_pk: Seq<u8>,
    recipient: Seq<u8>,
    encrypted: Seq<u8>,
    other: Parts,
) -> bool {
    let key = wrap_key(ovk, ephemeral_pk, recipient, encrypted);
    let other_key = wrap_key(ovk, ephemeral_pk, recipient, other.encrypted);
    &&& wrap_log(ovk, ephemeral_pk, recipient, encrypted) != wrap_log(
        ovk,
        ephemeral_pk,
        recipient,
        other.encrypted,
    ) ==> key != other_key
    &&& key != other_key ==> chacha20poly1305_open(
        key,
        other.ovk_nonce,
        other.ovk_ciphertext,
        seq![],
    ) is None
}

/// A wrapped secret that is moved to a message with another payload is refused, where nothing is
/// forged.
pub proof fn law_moved_secret_is_refused(
    plaintexts: (Seq<u8>, Seq<u8>),
    recipient: Seq<u8>,
    ctx: Seq<u8>,
    ephemeral_secret: Seq<u8>,
    ovk: Seq<u8>,
    nonces: (Seq<u8>, Seq<u8>),
    other_nonces: (Seq<u8>, Seq<u8>),
)
    ensures
        ({
            let one = sealed_message(
                plaintexts.0,
                recipient,
                ctx,
                ephemeral_secret,
                ovk,
                nonces.0,
                nonces.1,
            );
            let other = sealed_message(
                plaintexts.1,
                recipient,
                ctx,
                ephemeral_secret,
                ovk,
                other_nonces.0,
                other_nonces.1,
            );
            one.well_formed() && other.well_formed() && valid_ephemeral(one.ephemeral_pk)
                && one.encrypted != other.encrypted && wrapping_is_unforged(
                ovk,
                one.ephemeral_pk,
                recipient,
                one.encrypted,
                other,
            ) ==> outgoing_decryption(
                with_last_part_of(one.wire(), other.wire()),
                ovk,
                recipient,
                ctx,
            ) == Err::<Seq<u8>, EciesError>(EciesError::DecryptionFailed)
        }),
{
    let one = sealed_message(
        plaintexts.0,
        recipient,
        ctx,
        ephemeral_secret,
        ovk,
        nonces.0,
        nonces.1,
    );
    let other = sealed_message(
        plaintexts.1,
        recipient,
        ctx,
        ephemeral_secret,
        ovk,
        other_nonces.0,
        other_nonces.1,
    );
    if one.well_formed() && other.well_formed() {
        law_wrap_transcript_binds(
            (ovk, one.ephemeral_pk, recipient, one.encrypted),
            (ovk, one.ephemeral_pk, recipient, other.encrypted),
        );
        let moved = Parts {
            ovk_nonce: other.ovk_nonce,
            ovk_ciphertext: other.ovk_ciphertext,
            ..one
        };
        assert(with_last_part_of(one.wire(), other.wire()) =~= moved.wire());
        law_parts_of_wire(moved);
    }
}

/// The recipient ignores the last part of a message: two messages that differ only there decrypt
/// to the same.
pub proof fn law_recipient_ignores_last_part(
    one: Seq<u8>,
    other: Seq<u8>,
    scalar: Seq<u8>,
    recipient: Seq<u8>,
    ctx: Seq<u8>,
)
    requires
        one.len() == other.len(),
        one.len() >= ECIES_OVERHEAD,
        one.subrange(0, one.len() - OVK_BLOB_LEN) == other.subrange(0, one.len() - OVK_BLOB_LEN),
    ensures
        decryption(one, scalar, recipient, ctx) == decryption(other, scalar, recipient, ctx),
{
    let main_end = one.len() - OVK_BLOB_LEN;
    assert forall|i: int| 0 <= i < main_end implies one[i] == other[i] by {
        assert(one.subrange(0, main_end)[i] == other.subrange(0, main_end)[i]);
    }
    assert(parts(one).ephemeral_pk =~= parts(other).ephemeral_pk);
    assert(parts(one).nonce =~= parts(other).nonce);
    assert(parts(one).encrypted =~= parts(other).encrypted);
}

// ---------------------------------------------------------------------------
// Derivation
// ---------------------------------------------------------------------------

/// The four derivations have transcripts of their own: no input of one gives the transcript of
/// another.
pub proof fn law_transcripts_are_separate(
    payload: (Seq<u8>, Seq<u8>, Seq<u8>, Seq<u8>),
    wrap: (Seq<u8>, Seq<u8>, Seq<u8>, Seq<u8>),
    incoming_input: Seq<u8>,
    outgoing_input: Seq<u8>,
)
    ensures
        ({
            let payload = payload_log(payload.0, payload.1, payload.2, payload.3);
            let wrap = wrap_log(wrap.0, wrap.1, wrap.2, wrap.3);
            let incoming = incoming_log(incoming_input);
            let outgoing = outgoing_log(outgoing_input);
            &&& payload != wrap
            &&& payload != incoming
            &&& payload != outgoing
            &&& wrap != incoming
            &&& wrap != outgoing
            &&& incoming != outgoing
        }),
{
    reveal_strlit("sr25519-ecies");
    reveal_strlit("sr25519-ecies-ovk-wrap");
    assert("sr25519-ecies"@.len() != "sr25519-ecies-ovk-wrap"@.len());
    lemma_utf8_injective("sr25519-ecies", "sr25519-ecies-ovk-wrap");
    let payload = payload_log(payload.0, payload.1, payload.2, payload.3);
    let wrap = wrap_log(wrap.0, wrap.1, wrap.2, wrap.3);
    assert(payload[0].1 != wrap[0].1);

    reveal_strlit("sr25519-ivk");
    reveal_strlit("sr25519-ovk");
    assert("sr25519-ivk"@[8] != "sr25519-ovk"@[8]);
    lemma_utf8_injective("sr25519-ivk", "sr25519-ovk");
    let incoming = incoming_log(incoming_input);
    let outgoing = outgoing_log(outgoing_input);
    assert(incoming[0].1 != outgoing[0].1);

    assert(payload.len() == 5 && wrap.len() == 5);
    assert(incoming.len() == 2 && outgoing.len() == 2);
}

/// The transcript of a payload's key determines the context, both public keys and the shared
/// secret.
pub proof fn law_payload_transcript_binds(
    one: (Seq<u8>, Seq<u8>, Seq<u8>, Seq<u8>),
    other: (Seq<u8>, Seq<u8>, Seq<u8>, Seq<u8>),
)
    ensures
        payload_log(one.0, one.1, one.2, one.3) == payload_log(other.0, other.1, other.2, other.3)
            ==> one == other,
{
    let a = payload_log(one.0, one.1, one.2, one.3);
    let b = payload_log(other.0, other.1, other.2, other.3);
    if a == b {
        assert(a[1].1 == b[1].1 && a[2].1 == b[2].1 && a[3].1 == b[3].1 && a[4].1 == b[4].1);
    }
}

/// The transcript of a wrapping key determines the outgoing viewing key, both public keys and the
/// encrypted payload: a wrapped secret belongs to one payload.
pub proof fn law_wrap_transcript_binds(
    one: (Seq<u8>, Seq<u8>, Seq<u8>, Seq<u8>),
    other: (Seq<u8>, Seq<u8>, Seq<u8>, Seq<u8>),
)
    ensures
        wrap_log(one.0, one.1, one.2, one.3) == wrap_log(other.0, other.1, other.2, other.3) ==> one
            == other,
{
    let a = wrap_log(one.0, one.1, one.2, one.3);
    let b = wrap_log(other.0, other.1, other.2, other.3);
    if a == b {
        assert(a[1].1 == b[1].1 && a[2].1 == b[2].1 && a[3].1 == b[3].1 && a[4].1 == b[4].1);
    }
}

/// The transcripts of the viewing keys determine the signing scalar.
pub proof fn law_viewing_transcripts_bind(one: Seq<u8>, other: Seq<u8>)
    ensures
        incoming_log(one) == incoming_log(other) ==> one == other,
        outgoing_log(one) == outgoing_log(other) ==> one == other,
{
    assert(incoming_log(one)[1].1 == one && incoming_log(other)[1].1 == other);
    assert(outgoing_log(one)[1].1 == one && outgoing_log(other)[1].1 == other);
}

/// The associated data of a payload determines both public keys.
pub proof fn law_associated_data_binds(
    ephemeral_pk: Seq<u8>,
    recipient_pk: Seq<u8>,
    other_ephemeral_pk: Seq<u8>,
    other_recipient_pk: Seq<u8>,
)
    requires
        ephemeral_pk.len() == PUBLIC_KEY_LENGTH,
        other_ephemeral_pk.len() == PUBLIC_KEY_LENGTH,
        ephemeral_pk + recipient_pk == other_ephemeral_pk + other_recipient_pk,
    ensures
        ephemeral_pk == other_ephemeral_pk,
        recipient_pk == other_recipient_pk,
{
    let aad = ephemeral_pk + recipient_pk;
    let other = other_ephemeral_pk + other_recipient_pk;
    assert(ephemeral_pk =~= aad.subrange(0, 32));
    assert(other_ephemeral_pk =~= other.subrange(0, 32));
    assert(recipient_pk =~= aad.subrange(32, aad.len() as int));
    assert(other_recipient_pk =~= other.subrange(32, other.len() as int));
}

// ---------------------------------------------------------------------------
// Keys
// ---------------------------------------------------------------------------

/// The incoming viewing scalar that is derived from a signing scalar is a scalar.
pub proof fn law_derived_scalar(signing_scalar: Seq<u8>)
    ensures
        is_scalar(incoming_scalar(signing_scalar)),
{
    let wide = merlin_challenge(incoming_log(signing_scalar), utf8("ivk-scalar"), 64);
    lemma_group_order_fits();
    lemma_le_bytes_round_trip(le_nat(wide) % group_order(), 32);
}

/// Incoming viewing keys that compare as equal are the same key, where the public key of each is
/// that of its scalar.
pub proof fn law_equal_incoming_keys(one: IncomingHalves, other: IncomingHalves)
    requires
        one.consistent(),
        other.consistent(),
        one.scalar == other.scalar,
    ensures
        one == other,
{
}

/// The full viewing key of a key pair has the viewing keys of the secret and the public key of the
/// pair. Where that is the public key of the secret, it is the full viewing key of the secret, also
/// when serialized.
pub proof fn law_keypair_has_key_of_secret(signing_scalar: Seq<u8>, signing_public: Seq<u8>)
    ensures
        ({
            let of_pair = full_key(signing_scalar, signing_public);
            let of_secret = full_key(signing_scalar, ristretto_mul_base(signing_scalar));
            &&& of_pair.ivk == of_secret.ivk
            &&& of_pair.ovk == of_secret.ovk
            &&& of_pair.signing_public == signing_public
            &&& signing_public == ristretto_mul_base(signing_scalar) ==> {
                &&& of_pair == of_secret
                &&& of_pair.bytes() == of_secret.bytes()
            }
        }),
{
}

/// Both sides of a key exchange reach the same secret: what one side computes, and with it what
/// every owner of the other public key computes, is what the other scalar gives.
pub proof fn law_key_exchange_agrees(shared: Seq<u8>, one: Seq<u8>, other: Seq<u8>)
    requires
        is_scalar(other),
    ensures
        agreed_with_owner(shared, one, ristretto_mul_base(other)) ==> shared == ristretto_mul(
            other,
            ristretto_mul_base(one),
        ),
{
}

} // verus!
