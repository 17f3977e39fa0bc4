//! ChaCha20-Poly1305.
use vstd::prelude::*;

use chacha20poly1305::aead::{Aead, KeyInit};

verus! {

/// Size of a nonce (96 bits).
pub const NONCE_LENGTH: usize = 12;

/// Size of the Poly1305 authentication tag.
pub const TAG_LENGTH: usize = 16;

/// The error of the cipher.
#[verifier::external_type_specification]
#[verifier::external_body]
pub struct ExAeadError(chacha20poly1305::aead::Error);

/// Whether the cipher takes a message of `len` bytes: it has at most 2^32 - 1 blocks of 64 bytes.
pub open spec fn message_fits(len: nat) -> bool {
    len / 64 < u32::MAX
}

/// Whether a message of `len` bytes begins the last block that [`message_fits`] admits. The key
/// stream ends before that block: its counter starts at one, and `remaining_blocks` of chacha20
/// counts up to `u32::MAX`. So `apply_keystream` panics.
pub open spec fn key_stream_ends(len: nat) -> bool {
    64 * (u32::MAX - 1) < len < 64 * u32::MAX
}

/// The ciphertext and tag of a message under a key, a nonce and associated data.
pub uninterp spec fn chacha20poly1305_seal(
    key: Seq<u8>,
    nonce: Seq<u8>,
    message: Seq<u8>,
    associated: Seq<u8>,
) -> Seq<u8>;

/// The message of a ciphertext and tag, if the tag is right.
pub uninterp spec fn chacha20poly1305_open(
    key: Seq<u8>,
    nonce: Seq<u8>,
    sealed: Seq<u8>,
    associated: Seq<u8>,
) -> Option<Seq<u8>>;

/// `Aead::encrypt` of `ChaCha20Poly1305`. Claims that it succeeds exactly for the messages that
/// fit, that the result depends on the four arguments alone and is a tag longer than the message,
/// and that it opens to the message. The `Aead` implementation, in the aead crate, copies the
/// message, lets `encrypt_in_place_detached`, in `cipher.rs` of chacha20poly1305, add the key
/// stream to the copy, and appends the tag of what that gives.
#[verifier::external_body]
pub(crate) fn seal(
    key: &[u8; 32],
    nonce: &[u8; 12],
    message: &[u8],
    associated: &[u8],
) -> (result: Result<Vec<u8>, chacha20poly1305::aead::Error>)
    requires
        message@.len() + TAG_LENGTH <= isize::MAX,
        !key_stream_ends(message@.len()),
    ensures
        result is Ok <==> message_fits(message@.len()),
        result matches Ok(sealed) ==> {
            &&& sealed@ == chacha20poly1305_seal(key@, nonce@, message@, associated@)
            &&& sealed@.len() == message@.len() + TAG_LENGTH
            &&& chacha20poly1305_open(key@, nonce@, sealed@, associated@) == Some(message@)
        },
{
    chacha20poly1305::ChaCha20Poly1305::new(key.into()).encrypt(
        nonce.into(),
        chacha20poly1305::aead::Payload { msg: message, aad: associated },
    )
}

/// `Aead::decrypt` of `ChaCha20Poly1305`. Claims that the result depends on the four arguments
/// alone, and that what opens to a message is what sealing that message gives. Less than a tag does
/// not open; otherwise `decrypt_in_place_detached`, in `cipher.rs` of chacha20poly1305, checks the
/// length and the tag as encryption makes them, and only then adds the same key stream.
#[verifier::external_body]
pub(crate) fn open(
    key: &[u8; 32],
    nonce: &[u8; 12],
    sealed: &[u8],
    associated: &[u8],
) -> (result: Result<Vec<u8>, chacha20poly1305::aead::Error>)
    requires
        sealed@.len() < TAG_LENGTH || !key_stream_ends((sealed@.len() - TAG_LENGTH) as nat),
    ensures
        match result {
            Ok(message) => chacha20poly1305_open(key@, nonce@, sealed@, associated@) == Some(
                message@,
            ),
            Err(_) => chacha20poly1305_open(key@, nonce@, sealed@, associated@) is None,
        },
        result matches Ok(message) ==> {
            &&& message_fits(message@.len())
            &&& sealed@ == chacha20poly1305_seal(key@, nonce@, message@, associated@)
            &&& sealed@.len() == message@.len() + TAG_LENGTH
        },
{
    chacha20poly1305::ChaCha20Poly1305::new(key.into()).decrypt(
        nonce.into(),
        chacha20poly1305::aead::Payload { msg: sealed, aad: associated },
    )
}

} // verus!
