//! What serialized keys hold, which are accepted, when keys are equal and how they are shown, said
//! of the bytes alone.
use vstd::prelude::*;

use vstd::std_specs::cmp::PartialEqSpec;

use crate::bytes::{decimal_list, le_bytes, le_nat, outcome, pow256, utf8, zeros};
use crate::curve::{group_order, point_text, ristretto_decodes, ristretto_mul_base};
use crate::ecies::{error_text, EciesError};
use crate::errors::SignatureError;
use crate::keys::{public_key_text, read_public_key, PublicKey};
use crate::viewing_key::{
    full_key, full_text, incoming_key, incoming_text, outgoing_key, read_full, read_incoming,
    read_outgoing, FullParts, FullViewingKey, IncomingHalves, IncomingViewingKey,
    OutgoingViewingKey,
};

verus! {

// ---------------------------------------------------------------------------
// Reading
// ---------------------------------------------------------------------------

/// A public key is 32 bytes that encode a point, and is those bytes.
pub proof fn law_public_keys_are_points(bytes: Seq<u8>)
    ensures
        read_public_key(bytes) == if bytes.len() != 32 {
            Err::<Seq<u8>, SignatureError>(
                SignatureError::BytesLengthError {
                    name: "PublicKey",
                    description: "A Ristretto Schnorr public key represented as a 32-byte Ristretto compressed point",
                    length: 32,
                },
            )
        } else if ristretto_decodes(bytes) {
            Ok(bytes)
        } else {
            Err(SignatureError::PointDecompressionError)
        },
{
}

/// An incoming viewing key is 64 bytes: a number below the group order, and the encoding of its
/// multiple of the base point. The number is looked at first.
pub proof fn law_incoming_keys_are_read(bytes: Seq<u8>)
    ensures
        bytes.len() != 64 <==> read_incoming(bytes) == Err::<IncomingHalves, SignatureError>(
            SignatureError::BytesLengthError {
                name: "IncomingViewingKey",
                description: "A 64-byte sr25519 incoming viewing key",
                length: 64,
            },
        ),
        bytes.len() == 64 ==> {
            let scalar = bytes.subrange(0, 32);
            let public = bytes.subrange(32, 64);
            let below = le_nat(scalar)
                < 7237005577332262213973186563042994240857116359379907606001950938285454250989nat;
            let agrees = ristretto_decodes(public) && public == ristretto_mul_base(scalar);
            &&& !below ==> read_incoming(bytes) == Err::<IncomingHalves, SignatureError>(
                SignatureError::ScalarFormatError,
            )
            &&& below && !agrees ==> read_incoming(bytes) == Err::<IncomingHalves, SignatureError>(
                SignatureError::PointDecompressionError,
            )
            &&& below && agrees ==> {
                &&& read_incoming(bytes) matches Ok(ivk)
                &&& ivk.scalar == scalar
                &&& ivk.public == public
            }
        },
{
}

/// An outgoing viewing key is 32 bytes, whatever they are.
pub proof fn law_outgoing_keys_are_read(bytes: Seq<u8>)
    ensures
        read_outgoing(bytes) matches Ok(ovk) ==> ovk == bytes && bytes.len() == 32,
        bytes.len() == 32 ==> read_outgoing(bytes) is Ok,
{
}

/// A full viewing key is 128 bytes: an incoming viewing key, an outgoing one, and the encoding of a
/// point. The error of the first part that is refused is given.
pub proof fn law_full_keys_are_read(bytes: Seq<u8>)
    ensures
        bytes.len() != 128 <==> read_full(bytes) == Err::<FullParts, SignatureError>(
            SignatureError::BytesLengthError {
                name: "FullViewingKey",
                description: "A 128-byte sr25519 full viewing key",
                length: 128,
            },
        ),
        bytes.len() == 128 ==> {
            let incoming = read_incoming(bytes.subrange(0, 64));
            let point = ristretto_decodes(bytes.subrange(96, 128));
            &&& incoming matches Err(error) ==> read_full(bytes) == Err::<FullParts, SignatureError>(
                error,
            )
            &&& incoming is Ok && !point ==> read_full(bytes) == Err::<FullParts, SignatureError>(
                SignatureError::PointDecompressionError,
            )
            &&& incoming is Ok && point ==> {
                &&& read_full(bytes) matches Ok(fvk)
                &&& fvk.ivk.scalar == bytes.subrange(0, 32)
                &&& fvk.ivk.public == bytes.subrange(32, 64)
                &&& fvk.ovk == bytes.subrange(64, 96)
                &&& fvk.signing_public == bytes.subrange(96, 128)
            }
        },
{
    if bytes.len() == 128 {
        let start = bytes.subrange(0, 64);
        assert(start.subrange(0, 32) =~= bytes.subrange(0, 32));
        assert(start.subrange(32, 64) =~= bytes.subrange(32, 64));
        law_incoming_keys_are_read(start);
    }
}

/// Serialized keys hold their parts one after the other.
pub proof fn law_serialized_keys(ivk: IncomingHalves, fvk: FullParts)
    ensures
        ivk.bytes() == ivk.scalar + ivk.public,
        fvk.bytes() == fvk.ivk.scalar + fvk.ivk.public + fvk.ovk + fvk.signing_public,
        ivk.consistent() <==> ivk.public == ristretto_mul_base(ivk.scalar),
{
}

/// A full viewing key holds the incoming and the outgoing viewing key of the signing scalar, and the
/// signing public key as it is given.
pub proof fn law_parts_of_full_key(signing_scalar: Seq<u8>, signing_public: Seq<u8>)
    ensures
        full_key(signing_scalar, signing_public).ivk == incoming_key(signing_scalar),
        full_key(signing_scalar, signing_public).ovk == outgoing_key(signing_scalar),
        full_key(signing_scalar, signing_public).signing_public == signing_public,
{
}

// ---------------------------------------------------------------------------
// Equality
// ---------------------------------------------------------------------------

/// Public keys are equal where their encodings are.
pub proof fn law_equal_public_keys(one: PublicKey, other: PublicKey)
    ensures
        one.eq_spec(&other) <==> one@ == other@,
{
}

/// Incoming viewing keys are equal where their scalars are.
pub proof fn law_equality_of_incoming_keys(one: IncomingViewingKey, other: IncomingViewingKey)
    ensures
        one.eq_spec(&other) <==> one@.scalar == other@.scalar,
{
}

/// Outgoing viewing keys are equal where their bytes are.
pub proof fn law_equality_of_outgoing_keys(one: OutgoingViewingKey, other: OutgoingViewingKey)
    ensures
        one.eq_spec(&other) <==> one@ == other@,
{
}

/// Full viewing keys are equal where the incoming scalars and the outgoing keys are; the public
/// keys are not looked at.
pub proof fn law_equality_of_full_keys(one: FullViewingKey, other: FullViewingKey)
    ensures
        one.eq_spec(&other) <==> one@.ivk.scalar == other@.ivk.scalar && one@.ovk == other@.ovk,
{
}

// ---------------------------------------------------------------------------
// Texts
// ---------------------------------------------------------------------------

/// How keys are shown: by their public keys, and these by their bytes.
pub proof fn law_texts_of_keys(ivk_public: Seq<u8>, signing_public: Seq<u8>)
    ensures
        ({
            let text = |encoding: Seq<u8>|
                "PublicKey( RistrettoPoint( "@ + ("CompressedRistretto: ["@ + decimal_list(encoding)
                    + "]"@) + " ) )"@;
            &&& public_key_text(ivk_public) == text(ivk_public)
            &&& incoming_text(ivk_public) == "IncomingViewingKey { ivk_public: "@ + text(ivk_public)
                + " }"@
            &&& full_text(ivk_public, signing_public) == "FullViewingKey { ivk_public: "@ + text(
                ivk_public,
            ) + ", signing_public: "@ + text(signing_public) + " }"@
        }),
{
    assert(point_text(ivk_public) =~= "CompressedRistretto: ["@ + decimal_list(ivk_public) + "]"@);
}

/// How errors are explained.
pub proof fn law_texts_of_errors()
    ensures
        error_text(EciesError::CiphertextTooShort) == "ECIES ciphertext too short"@,
        error_text(EciesError::InvalidEphemeralKey)
            == "Invalid ephemeral public key in ECIES ciphertext"@,
        error_text(EciesError::IdentityRecipient)
            == "ECIES recipient public key is the identity point"@,
        error_text(EciesError::EncryptionFailed) == "ECIES encryption failed"@,
        error_text(EciesError::DecryptionFailed)
            == "ECIES decryption failed: authentication or key mismatch"@,
{
}

// ---------------------------------------------------------------------------
// Bytes
// ---------------------------------------------------------------------------

/// Little-endian numbers: each byte counts 256 times what the byte before it counts, and every
/// number that fits is written by the bytes that hold it.
pub proof fn law_little_endian(bytes: Seq<u8>, first: u8)
    ensures
        le_nat(Seq::<u8>::empty()) == 0,
        le_nat(seq![first] + bytes) == first + 256 * le_nat(bytes),
        le_nat(bytes) < pow256(bytes.len()),
        le_bytes(le_nat(bytes), bytes.len()) == bytes,
    decreases bytes.len(),
{
    assert((seq![first] + bytes).drop_first() =~= bytes);
    if bytes.len() > 0 {
        let rest = bytes.drop_first();
        law_little_endian(rest, first);
        assert(le_nat(bytes) / 256 == le_nat(rest));
        assert(le_nat(bytes) % 256 == bytes[0]);
        assert(seq![bytes[0]] + rest =~= bytes);
    } else {
        assert(le_bytes(0, 0) =~= bytes);
    }
}

/// The order of the group, strings of zeros, the bytes of a text, and outcomes with bytes.
pub proof fn law_values(len: nat, i: int, text: &str, bytes: Vec<u8>, error: EciesError)
    ensures
        group_order()
            == 7237005577332262213973186563042994240857116359379907606001950938285454250989nat,
        zeros(len).len() == len,
        0 <= i < len ==> zeros(len)[i] == 0,
        utf8(text) == vstd::utf8::encode_utf8(text@),
        outcome(Ok::<Vec<u8>, EciesError>(bytes)) == Ok::<Seq<u8>, EciesError>(bytes@),
        outcome(Err::<Vec<u8>, EciesError>(error)) == Err::<Seq<u8>, EciesError>(error),
{
}

} // verus!
