//! Viewing keys for sr25519.
//!
//! ```text
//! SecretKey
//!   ├── FullViewingKey { ivk, ovk, signing_public }
//!   │   ├── IncomingViewingKey   ← decrypts messages TO you
//!   │   └── OutgoingViewingKey   ← decrypts messages BY you
//!   └── signing                  ← with the full secret only
//! ```
//!
//! Both keys come from the signing scalar through Merlin transcripts with domains of their own:
//!
//! ```text
//! ivk_scalar = Merlin("sr25519-ivk", signing_scalar)   → scalar of a key exchange
//! ovk        = Merlin("sr25519-ovk", signing_scalar)   → 32-byte symmetric key
//! ```
use vstd::prelude::*;

use crate::bytes::{le_bytes, le_nat, outcome, put, to_array, utf8, zeros};
use crate::curve::{
    agreed_with_owner, group_order, is_scalar, mul_point, ristretto_decodes, ristretto_mul,
    ristretto_mul_base, Scalar,
};
use crate::ecies::{
    carries, decrypt_outgoing, decrypt_with_ivk, decryptable, decryption, outgoing_decryptable,
    outgoing_decryption, parts, recipient_reads, unwrapped_secret, EciesError, ECIES_OVERHEAD,
};
use crate::errors::{SignatureError, SignatureResult};
use crate::keys::{
    public_key_text, read_public_key, Keypair, PublicKey, SecretKey, PUBLIC_KEY_LENGTH,
};
use crate::secret::{bytes_ct_eq, wipe};
use crate::transcript::{challenge, lemma_ascii_length, merlin_challenge, transcript_log};

verus! {

// ---------------------------------------------------------------------------
// IncomingViewingKey
// ---------------------------------------------------------------------------

/// Length of a serialized [`IncomingViewingKey`]: 32 (scalar) + 32 (public).
pub const INCOMING_VIEWING_KEY_LENGTH: usize = 32 + PUBLIC_KEY_LENGTH;

/// The transcript of the incoming viewing scalar.
pub open spec fn incoming_log(signing_scalar: Seq<u8>) -> Seq<(Seq<u8>, Seq<u8>)> {
    seq![(utf8("dom-sep"), utf8("sr25519-ivk")), (utf8("signing-scalar"), signing_scalar)]
}

/// The incoming viewing scalar of a signing scalar.
pub open spec fn incoming_scalar(signing_scalar: Seq<u8>) -> Seq<u8> {
    let wide = merlin_challenge(incoming_log(signing_scalar), utf8("ivk-scalar"), 64);
    le_bytes(le_nat(wide) % group_order(), 32)
}

/// The halves of an incoming viewing key.
#[verifier::ext_equal]
pub struct IncomingHalves {
    /// The bytes of the scalar.
    pub scalar: Seq<u8>,
    /// The encoding of the public key.
    pub public: Seq<u8>,
}

impl IncomingHalves {
    /// Whether the public key is that of the scalar.
    pub open spec fn consistent(self) -> bool {
        self.public == ristretto_mul_base(self.scalar)
    }

    /// The serialized key: `[ivk_scalar: 32] [ivk_public: 32]`.
    pub open spec fn bytes(self) -> Seq<u8> {
        self.scalar + self.public
    }
}

/// The incoming viewing key of a signing scalar.
pub open spec fn incoming_key(signing_scalar: Seq<u8>) -> IncomingHalves {
    let scalar = incoming_scalar(signing_scalar);
    IncomingHalves { scalar, public: ristretto_mul_base(scalar) }
}

/// What reading `bytes` as an incoming viewing key gives.
pub open spec fn read_incoming(bytes: Seq<u8>) -> Result<IncomingHalves, SignatureError> {
    if bytes.len() != INCOMING_VIEWING_KEY_LENGTH {
        Err(
            SignatureError::BytesLengthError {
                name: "IncomingViewingKey",
                description: "A 64-byte sr25519 incoming viewing key",
                length: INCOMING_VIEWING_KEY_LENGTH,
            },
        )
    } else {
        let halves = IncomingHalves {
            scalar: bytes.subrange(0, 32),
            public: bytes.subrange(32, 64),
        };
        if !is_scalar(halves.scalar) {
            Err(SignatureError::ScalarFormatError)
        } else if !ristretto_decodes(halves.public) || !halves.consistent() {
            Err(SignatureError::PointDecompressionError)
        } else {
            Ok(halves)
        }
    }
}

/// Only one byte string reads as a given incoming viewing key, namely the serialized key, and what
/// is read is consistent.
pub proof fn law_incoming_bytes(bytes: Seq<u8>)
    ensures
        read_incoming(bytes) matches Ok(ivk) ==> ivk.bytes() == bytes && ivk.consistent(),
{
    if bytes.len() == INCOMING_VIEWING_KEY_LENGTH {
        assert(bytes.subrange(0, 32) + bytes.subrange(32, 64) =~= bytes);
    }
}

/// A serialized incoming viewing key reads back as the same key, where its public key is that of
/// its scalar.
pub proof fn law_incoming_round_trip(ivk: IncomingHalves)
    requires
        is_scalar(ivk.scalar),
        ivk.public.len() == PUBLIC_KEY_LENGTH,
    ensures
        ristretto_decodes(ivk.public) && ivk.consistent() ==> read_incoming(ivk.bytes()) == Ok::<
            IncomingHalves,
            SignatureError,
        >(ivk),
{
    assert(ivk.bytes().subrange(0, 32) =~= ivk.scalar);
    assert(ivk.bytes().subrange(32, 64) =~= ivk.public);
}

/// Whether no other bytes with the public half of `bytes` read as an incoming viewing key.
pub open spec fn admits_one_scalar(bytes: Seq<u8>) -> bool {
    forall|other: Seq<u8>|
        other.len() == INCOMING_VIEWING_KEY_LENGTH && other.subrange(32, 64) == bytes.subrange(
            32,
            64,
        ) && other.subrange(0, 32) != bytes.subrange(0, 32) ==> #[trigger] read_incoming(
            other,
        ) is Err
}

/// An incoming viewing key, derived one-way from an sr25519 secret key.
///
/// Decrypts the messages that were encrypted to [`ivk_public`](Self::ivk_public), and cannot sign.
/// The scalar is erased when the key goes out of scope.
pub struct IncomingViewingKey {
    ivk_scalar: Scalar,
    ivk_public: PublicKey,
}

impl View for IncomingViewingKey {
    type V = IncomingHalves;

    closed spec fn view(&self) -> IncomingHalves {
        IncomingHalves { scalar: self.ivk_scalar@, public: self.ivk_public@ }
    }
}

impl Clone for IncomingViewingKey {
    fn clone(&self) -> (copy: Self)
        ensures
            copy@ == self@,
    {
        IncomingViewingKey { ivk_scalar: self.ivk_scalar, ivk_public: self.ivk_public }
    }
}

impl PartialEq for IncomingViewingKey {
    fn eq(&self, other: &Self) -> (equal: bool) {
        self.ct_eq(other) == 1u8
    }
}

impl vstd::std_specs::cmp::PartialEqSpecImpl for IncomingViewingKey {
    open spec fn obeys_eq_spec() -> bool {
        true
    }

    open spec fn eq_spec(&self, other: &Self) -> bool {
        self@.scalar == other@.scalar
    }
}

impl Eq for IncomingViewingKey {

}

impl Drop for IncomingViewingKey {
    fn drop(&mut self)
        ensures
            final(self)@.scalar == zeros(32),
        opens_invariants none
        no_unwind
    {
        self.zeroize();
    }
}

impl IncomingViewingKey {
    /// Derives the incoming viewing key of a secret key. Serialized, it reads back as the same.
    pub fn from_secret(secret: &SecretKey) -> (ivk: Self)
        ensures
            ivk@ == incoming_key(secret@),
            ivk@.consistent(),
            is_scalar(ivk@.scalar),
            read_incoming(ivk@.bytes()) == Ok::<IncomingHalves, SignatureError>(ivk@),
    {
        let ivk_scalar = Self::derive_scalar(secret);
        let ivk_public = PublicKey::from_scalar(&ivk_scalar);
        proof {
            use_type_invariant(&ivk_public);
            law_incoming_round_trip(incoming_key(secret@));
        }
        IncomingViewingKey { ivk_scalar, ivk_public }
    }

    /// Derives the scalar, one-way, by a Merlin transcript.
    fn derive_scalar(secret: &SecretKey) -> (scalar: Scalar)
        ensures
            scalar@ == incoming_scalar(secret@),
            is_scalar(scalar@),
    {
        proof {
            reveal_strlit("sr25519-ivk");
            lemma_ascii_length("sr25519-ivk");
        }
        let mut t = merlin::Transcript::new("sr25519-ivk".as_bytes());
        t.append_message("signing-scalar".as_bytes(), secret.scalar().as_bytes());
        assert(transcript_log(t) =~= incoming_log(secret@));
        let mut buf: [u8; 64] = challenge(t, "ivk-scalar".as_bytes());
        let scalar = Scalar::from_bytes_mod_order_wide(&buf);
        wipe(&mut buf);
        scalar
    }

    /// Checks the public key of a serialized key against `expected`, the one that its scalar has.
    pub fn check_public(claimed: &PublicKey, expected: &PublicKey) -> (result: SignatureResult<()>)
        ensures
            result == if claimed@ == expected@ {
                Ok::<(), SignatureError>(())
            } else {
                Err::<(), SignatureError>(SignatureError::PointDecompressionError)
            },
    {
        if expected != claimed {
            return Err(SignatureError::PointDecompressionError);
        }
        Ok(())
    }

    /// The public key that senders encrypt to.
    pub fn ivk_public(&self) -> (public: &PublicKey)
        ensures
            public@ == self@.public,
            is_scalar(self@.scalar),
    {
        proof {
            use_type_invariant(&self.ivk_scalar);
        }
        &self.ivk_public
    }

    /// The encoding of the point that this key and the owner of `public` agree on.
    pub fn raw_key_exchange(&self, public: &PublicKey) -> (shared: [u8; 32])
        ensures
            shared@ == ristretto_mul(self@.scalar, public@),
            agreed_with_owner(shared@, self@.scalar, public@),
    {
        mul_point(self.ivk_scalar.as_bytes(), public.as_compressed())
    }

    /// Decrypts a message that was encrypted to [`ivk_public`](Self::ivk_public).
    pub fn decrypt(&self, ciphertext: &[u8], ctx: &[u8]) -> (result: Result<Vec<u8>, EciesError>)
        requires
            decryptable(ciphertext@.len(), ctx@.len()),
        ensures
            outcome(result) == decryption(ciphertext@, self@.scalar, self@.public, ctx@),
            result matches Ok(plaintext) ==> {
                &&& ciphertext@.len() == plaintext@.len() + ECIES_OVERHEAD
                &&& carries(
                    parts(ciphertext@),
                    ristretto_mul(self@.scalar, parts(ciphertext@).ephemeral_pk),
                    self@.public,
                    ctx@,
                    plaintext@,
                )
            },
    {
        decrypt_with_ivk(ciphertext, self, ctx)
    }

    /// Compares the scalars in constant time: one where they are equal, zero where not.
    pub fn ct_eq(&self, other: &Self) -> (choice: u8)
        ensures
            choice == if self@.scalar == other@.scalar {
                1u8
            } else {
                0u8
            },
    {
        bytes_ct_eq(self.ivk_scalar.as_bytes(), other.ivk_scalar.as_bytes())
    }

    /// Overwrites the scalar with zero. The public key stays.
    pub fn zeroize(&mut self)
        ensures
            final(self)@.scalar == zeros(32),
            final(self)@.public == old(self)@.public,
        opens_invariants none
        no_unwind
    {
        self.ivk_scalar.zeroize();
    }

    /// The key as text, for debugging; the scalar is left out.
    pub fn debug_string(&self) -> (text: String)
        ensures
            text@ == incoming_text(self@.public),
    {
        let mut text = "IncomingViewingKey { ivk_public: ".to_owned();
        text.append(self.ivk_public.debug_string().as_str());
        text.append(" }");
        text
    }

    /// Serializes to bytes: `[ivk_scalar: 32] [ivk_public: 32]`. The bytes of a consistent key
    /// read back as the same key.
    pub fn to_bytes(&self) -> (bytes: [u8; INCOMING_VIEWING_KEY_LENGTH])
        ensures
            bytes@ == self@.bytes(),
            is_scalar(self@.scalar),
            self@.public.len() == PUBLIC_KEY_LENGTH,
            self@.consistent() ==> read_incoming(bytes@) == Ok::<IncomingHalves, SignatureError>(
                self@,
            ),
    {
        let mut bytes = [0u8; INCOMING_VIEWING_KEY_LENGTH];
        put(&mut bytes, 0, self.ivk_scalar.as_bytes());
        put(&mut bytes, 32, self.ivk_public.as_compressed());
        assert(bytes@ =~= self@.bytes());
        proof {
            law_incoming_round_trip(self@);
        }
        bytes
    }

    /// Reads a key, and verifies that the public key is that of the scalar. Only one scalar goes
    /// with a public key.
    pub fn from_bytes(bytes: &[u8]) -> (result: SignatureResult<Self>)
        ensures
            match result {
                Ok(ivk) => {
                    &&& read_incoming(bytes@) == Ok::<IncomingHalves, SignatureError>(ivk@)
                    &&& ivk@.consistent()
                    &&& ivk@.bytes() == bytes@
                    &&& is_scalar(ivk@.scalar)
                    &&& admits_one_scalar(bytes@)
                },
                Err(error) => read_incoming(bytes@) == Err::<IncomingHalves, SignatureError>(error),
            },
    {
        if bytes.len() != INCOMING_VIEWING_KEY_LENGTH {
            return Err(
                SignatureError::BytesLengthError {
                    name: "IncomingViewingKey",
                    description: "A 64-byte sr25519 incoming viewing key",
                    length: INCOMING_VIEWING_KEY_LENGTH,
                },
            );
        }
        let mut scalar_bytes: [u8; 32] = to_array(&bytes[0..32]);
        let scalar = Scalar::from_canonical_bytes(scalar_bytes);
        wipe(&mut scalar_bytes);
        let ivk_scalar = match scalar {
            Some(ivk_scalar) => ivk_scalar,
            None => return Err(SignatureError::ScalarFormatError),
        };
        let ivk_public = match PublicKey::from_bytes(&bytes[32..64]) {
            Ok(ivk_public) => ivk_public,
            Err(error) => return Err(error),
        };
        let expected = PublicKey::from_scalar(&ivk_scalar);
        match Self::check_public(&ivk_public, &expected) {
            Ok(_) => {},
            Err(error) => return Err(error),
        }
        proof {
            law_incoming_bytes(bytes@);
        }
        Ok(IncomingViewingKey { ivk_scalar, ivk_public })
    }
}

/// The text that stands for an incoming viewing key.
pub open spec fn incoming_text(public: Seq<u8>) -> Seq<char> {
    "IncomingViewingKey { ivk_public: "@ + public_key_text(public) + " }"@
}

// ---------------------------------------------------------------------------
// OutgoingViewingKey
// ---------------------------------------------------------------------------

/// Length of a serialized [`OutgoingViewingKey`]: 32 bytes (symmetric key).
pub const OUTGOING_VIEWING_KEY_LENGTH: usize = 32;

/// The transcript of the outgoing viewing key.
pub open spec fn outgoing_log(signing_scalar: Seq<u8>) -> Seq<(Seq<u8>, Seq<u8>)> {
    seq![(utf8("dom-sep"), utf8("sr25519-ovk")), (utf8("signing-scalar"), signing_scalar)]
}

/// The outgoing viewing key of a signing scalar.
pub open spec fn outgoing_key(signing_scalar: Seq<u8>) -> Seq<u8> {
    merlin_challenge(outgoing_log(signing_scalar), utf8("ovk-key"), 32)
}

/// What reading `bytes` as an outgoing viewing key gives.
pub open spec fn read_outgoing(bytes: Seq<u8>) -> Result<Seq<u8>, SignatureError> {
    if bytes.len() != OUTGOING_VIEWING_KEY_LENGTH {
        Err(
            SignatureError::BytesLengthError {
                name: "OutgoingViewingKey",
                description: "A 32-byte sr25519 outgoing viewing key",
                length: OUTGOING_VIEWING_KEY_LENGTH,
            },
        )
    } else {
        Ok(bytes)
    }
}

/// Every 32-byte string reads as an outgoing viewing key, the key of those bytes, and no other
/// string does.
pub proof fn law_outgoing_bytes(bytes: Seq<u8>)
    ensures
        bytes.len() == OUTGOING_VIEWING_KEY_LENGTH ==> read_outgoing(bytes) == Ok::<
            Seq<u8>,
            SignatureError,
        >(bytes),
        bytes.len() != OUTGOING_VIEWING_KEY_LENGTH ==> read_outgoing(bytes) == Err::<
            Seq<u8>,
            SignatureError,
        >(
            SignatureError::BytesLengthError {
                name: "OutgoingViewingKey",
                description: "A 32-byte sr25519 outgoing viewing key",
                length: 32,
            },
        ),
{
}

/// An outgoing viewing key, derived one-way from an sr25519 secret key.
///
/// This symmetric key wraps the ephemeral secret inside a message, so that the sender can decrypt
/// the message again. It is erased when it goes out of scope.
pub struct OutgoingViewingKey {
    ovk: [u8; 32],
}

/// The bytes of the key.
impl View for OutgoingViewingKey {
    type V = Seq<u8>;

    closed spec fn view(&self) -> Seq<u8> {
        self.ovk@
    }
}

impl Clone for OutgoingViewingKey {
    fn clone(&self) -> (copy: Self)
        ensures
            copy@ == self@,
    {
        OutgoingViewingKey { ovk: self.ovk }
    }
}

impl PartialEq for OutgoingViewingKey {
    fn eq(&self, other: &Self) -> (equal: bool) {
        self.ct_eq(other) == 1u8
    }
}

impl vstd::std_specs::cmp::PartialEqSpecImpl for OutgoingViewingKey {
    open spec fn obeys_eq_spec() -> bool {
        true
    }

    open spec fn eq_spec(&self, other: &Self) -> bool {
        self@ == other@
    }
}

impl Eq for OutgoingViewingKey {

}

impl Drop for OutgoingViewingKey {
    fn drop(&mut self)
        ensures
            final(self)@ == zeros(32),
        opens_invariants none
        no_unwind
    {
        self.zeroize();
    }
}

impl OutgoingViewingKey {
    /// Derives the outgoing viewing key of a secret key.
    pub fn from_secret(secret: &SecretKey) -> (ovk: Self)
        ensures
            ovk@ == outgoing_key(secret@),
    {
        proof {
            reveal_strlit("sr25519-ovk");
            lemma_ascii_length("sr25519-ovk");
        }
        let mut t = merlin::Transcript::new("sr25519-ovk".as_bytes());
        t.append_message("signing-scalar".as_bytes(), secret.scalar().as_bytes());
        assert(transcript_log(t) =~= outgoing_log(secret@));
        OutgoingViewingKey { ovk: challenge(t, "ovk-key".as_bytes()) }
    }

    /// The bytes of the key, in place.
    pub fn as_bytes(&self) -> (bytes: &[u8; 32])
        ensures
            bytes@ == self@,
    {
        &self.ovk
    }

    /// Compares the keys in constant time: one where they are equal, zero where not.
    pub fn ct_eq(&self, other: &Self) -> (choice: u8)
        ensures
            choice == if self@ == other@ {
                1u8
            } else {
                0u8
            },
    {
        bytes_ct_eq(&self.ovk, &other.ovk)
    }

    /// Overwrites the key with zeros.
    pub fn zeroize(&mut self)
        ensures
            final(self)@ == zeros(32),
        opens_invariants none
        no_unwind
    {
        wipe(&mut self.ovk);
    }

    /// The key as text, for debugging, which shows nothing of it.
    pub fn debug_string(&self) -> (text: String)
        ensures
            text@ == "OutgoingViewingKey(***)"@,
    {
        "OutgoingViewingKey(***)".to_owned()
    }

    /// Serializes to 32 bytes, which read back as the same key.
    pub fn to_bytes(&self) -> (bytes: [u8; OUTGOING_VIEWING_KEY_LENGTH])
        ensures
            bytes@ == self@,
            read_outgoing(bytes@) == Ok::<Seq<u8>, SignatureError>(self@),
    {
        self.ovk
    }

    /// Reads a key from 32 bytes.
    pub fn from_bytes(bytes: &[u8]) -> (result: SignatureResult<Self>)
        ensures
            match result {
                Ok(ovk) => read_outgoing(bytes@) == Ok::<Seq<u8>, SignatureError>(ovk@),
                Err(error) => read_outgoing(bytes@) == Err::<Seq<u8>, SignatureError>(error),
            },
    {
        if bytes.len() != OUTGOING_VIEWING_KEY_LENGTH {
            return Err(
                SignatureError::BytesLengthError {
                    name: "OutgoingViewingKey",
                    description: "A 32-byte sr25519 outgoing viewing key",
                    length: OUTGOING_VIEWING_KEY_LENGTH,
                },
            );
        }
        Ok(OutgoingViewingKey { ovk: to_array(bytes) })
    }
}

// ---------------------------------------------------------------------------
// FullViewingKey
// ---------------------------------------------------------------------------

/// Length of a serialized [`FullViewingKey`]:
/// 32 (ivk scalar) + 32 (ivk public) + 32 (ovk) + 32 (signing public) = 128.
pub const FULL_VIEWING_KEY_LENGTH: usize = INCOMING_VIEWING_KEY_LENGTH + OUTGOING_VIEWING_KEY_LENGTH
    + PUBLIC_KEY_LENGTH;

/// The parts of a full viewing key.
#[verifier::ext_equal]
pub struct FullParts {
    /// The incoming viewing key.
    pub ivk: IncomingHalves,
    /// The bytes of the outgoing viewing key.
    pub ovk: Seq<u8>,
    /// The encoding of the signing public key.
    pub signing_public: Seq<u8>,
}

impl FullParts {
    /// The serialized key: `[ivk_scalar: 32] [ivk_public: 32] [ovk: 32] [signing_public: 32]`.
    pub open spec fn bytes(self) -> Seq<u8> {
        self.ivk.bytes() + self.ovk + self.signing_public
    }
}

/// The full viewing key of a signing scalar and a signing public key.
pub open spec fn full_key(signing_scalar: Seq<u8>, signing_public: Seq<u8>) -> FullParts {
    FullParts {
        ivk: incoming_key(signing_scalar),
        ovk: outgoing_key(signing_scalar),
        signing_public,
    }
}

/// What reading `bytes` as a full viewing key gives.
pub open spec fn read_full(bytes: Seq<u8>) -> Result<FullParts, SignatureError> {
    if bytes.len() != FULL_VIEWING_KEY_LENGTH {
        Err(
            SignatureError::BytesLengthError {
                name: "FullViewingKey",
                description: "A 128-byte sr25519 full viewing key",
                length: FULL_VIEWING_KEY_LENGTH,
            },
        )
    } else {
        match (read_incoming(bytes.subrange(0, 64)), read_public_key(bytes.subrange(96, 128))) {
            (Ok(ivk), Ok(signing_public)) => Ok(
                FullParts { ivk, ovk: bytes.subrange(64, 96), signing_public },
            ),
            (Err(error), _) => Err(error),
            (Ok(_), Err(error)) => Err(error),
        }
    }
}

/// Only one byte string reads as a given full viewing key, namely the serialized key, and the
/// incoming viewing key that is read is consistent.
pub proof fn law_full_bytes(bytes: Seq<u8>)
    ensures
        read_full(bytes) matches Ok(fvk) ==> fvk.bytes() == bytes && fvk.ivk.consistent(),
{
    if bytes.len() == FULL_VIEWING_KEY_LENGTH {
        law_incoming_bytes(bytes.subrange(0, 64));
        assert(bytes.subrange(0, 64) + bytes.subrange(64, 96) + bytes.subrange(96, 128) =~= bytes);
    }
}

/// The text that stands for a full viewing key.
pub open spec fn full_text(ivk_public: Seq<u8>, signing_public: Seq<u8>) -> Seq<char> {
    "FullViewingKey { ivk_public: "@ + public_key_text(ivk_public) + ", signing_public: "@
        + public_key_text(signing_public) + " }"@
}

/// An incoming and an outgoing viewing key, with the signing public key to tell whose they are.
///
/// Derived one-way from a [`SecretKey`]; cannot sign. Its secret parts are erased when it goes out of
/// scope.
pub struct FullViewingKey {
    ivk: IncomingViewingKey,
    ovk: OutgoingViewingKey,
    // Advisory: not bound to the other two, so to be trusted only in a key derived here.
    signing_public: PublicKey,
}

impl View for FullViewingKey {
    type V = FullParts;

    closed spec fn view(&self) -> FullParts {
        FullParts { ivk: self.ivk@, ovk: self.ovk@, signing_public: self.signing_public@ }
    }
}

impl Clone for FullViewingKey {
    fn clone(&self) -> (copy: Self)
        ensures
            copy@ == self@,
    {
        FullViewingKey {
            ivk: self.ivk.clone(),
            ovk: self.ovk.clone(),
            signing_public: self.signing_public,
        }
    }
}

impl PartialEq for FullViewingKey {
    fn eq(&self, other: &Self) -> (equal: bool) {
        self.ct_eq(other) == 1u8
    }
}

impl vstd::std_specs::cmp::PartialEqSpecImpl for FullViewingKey {
    open spec fn obeys_eq_spec() -> bool {
        true
    }

    open spec fn eq_spec(&self, other: &Self) -> bool {
        self@.ivk.scalar == other@.ivk.scalar && self@.ovk == other@.ovk
    }
}

impl Eq for FullViewingKey {

}

impl Drop for FullViewingKey {
    fn drop(&mut self)
        ensures
            final(self)@.ivk.scalar == zeros(32),
            final(self)@.ovk == zeros(32),
        opens_invariants none
        no_unwind
    {
        self.zeroize();
    }
}

impl FullViewingKey {
    /// Derives the full viewing key of a secret key.
    pub fn from_secret(secret: &SecretKey) -> (fvk: Self)
        ensures
            fvk@ == full_key(secret@, ristretto_mul_base(secret@)),
    {
        let ivk = IncomingViewingKey::from_secret(secret);
        let ovk = OutgoingViewingKey::from_secret(secret);
        let signing_public = secret.to_public();
        FullViewingKey { ivk, ovk, signing_public }
    }

    /// Derives the full viewing key of a key pair, and takes over its public key.
    pub fn from_keypair(keypair: &Keypair) -> (fvk: Self)
        ensures
            fvk@ == full_key(keypair.secret@, keypair.public@),
    {
        let ivk = IncomingViewingKey::from_secret(&keypair.secret);
        let ovk = OutgoingViewingKey::from_secret(&keypair.secret);
        FullViewingKey { ivk, ovk, signing_public: keypair.public }
    }

    /// The incoming viewing key.
    pub fn ivk(&self) -> (ivk: &IncomingViewingKey)
        ensures
            ivk@ == self@.ivk,
            is_scalar(self@.ivk.scalar),
    {
        proof {
            use_type_invariant(&self.ivk.ivk_scalar);
        }
        &self.ivk
    }

    /// The outgoing viewing key.
    pub fn ovk(&self) -> (ovk: &OutgoingViewingKey)
        ensures
            ovk@ == self@.ovk,
    {
        &self.ovk
    }

    /// The public key that senders encrypt to.
    pub fn ivk_public(&self) -> (public: &PublicKey)
        ensures
            public@ == self@.ivk.public,
            is_scalar(self@.ivk.scalar),
    {
        self.ivk.ivk_public()
    }

    /// The signing public key (advisory).
    pub fn signing_public(&self) -> (public: &PublicKey)
        ensures
            public@ == self@.signing_public,
    {
        &self.signing_public
    }

    /// Decrypts an incoming message.
    pub fn decrypt_incoming(&self, ciphertext: &[u8], ctx: &[u8]) -> (result: Result<
        Vec<u8>,
        EciesError,
    >)
        requires
            decryptable(ciphertext@.len(), ctx@.len()),
        ensures
            outcome(result) == decryption(ciphertext@, self@.ivk.scalar, self@.ivk.public, ctx@),
            result matches Ok(plaintext) ==> {
                &&& ciphertext@.len() == plaintext@.len() + ECIES_OVERHEAD
                &&& carries(
                    parts(ciphertext@),
                    ristretto_mul(self@.ivk.scalar, parts(ciphertext@).ephemeral_pk),
                    self@.ivk.public,
                    ctx@,
                    plaintext@,
                )
            },
    {
        self.ivk.decrypt(ciphertext, ctx)
    }

    /// Decrypts an outgoing message; `recipient_pk` is the public key it was encrypted to.
    pub fn decrypt_outgoing(
        &self,
        ciphertext: &[u8],
        recipient_pk: &PublicKey,
        ctx: &[u8],
    ) -> (result: Result<Vec<u8>, EciesError>)
        requires
            outgoing_decryptable(ciphertext@.len(), ctx@.len()),
        ensures
            outcome(result) == outgoing_decryption(ciphertext@, self@.ovk, recipient_pk@, ctx@),
            result matches Ok(plaintext) ==> {
                &&& ciphertext@.len() == plaintext@.len() + ECIES_OVERHEAD
                &&& unwrapped_secret(parts(ciphertext@), self@.ovk, recipient_pk@) matches Some(
                    secret,
                )
                &&& carries(
                    parts(ciphertext@),
                    ristretto_mul(secret, recipient_pk@),
                    recipient_pk@,
                    ctx@,
                    plaintext@,
                )
                &&& parts(ciphertext@).ephemeral_pk == ristretto_mul_base(secret)
                    ==> recipient_reads(ciphertext@, recipient_pk@, ctx@, plaintext@)
            },
    {
        decrypt_outgoing(ciphertext, &self.ovk, recipient_pk, ctx)
    }

    /// Compares the secret parts in constant time: one where both keys are equal, zero where not.
    pub fn ct_eq(&self, other: &Self) -> (choice: u8)
        ensures
            choice == if self@.ivk.scalar == other@.ivk.scalar && self@.ovk == other@.ovk {
                1u8
            } else {
                0u8
            },
    {
        let same_ivk = self.ivk.ct_eq(&other.ivk);
        let same_ovk = self.ovk.ct_eq(&other.ovk);
        assert(same_ivk <= 1 && same_ovk <= 1 ==> (same_ivk & same_ovk) == if same_ivk == 1
            && same_ovk == 1 {
            1u8
        } else {
            0u8
        }) by (bit_vector);
        same_ivk & same_ovk
    }

    /// Overwrites the secret parts with zeros. The public keys stay.
    pub fn zeroize(&mut self)
        ensures
            final(self)@.ivk.scalar == zeros(32),
            final(self)@.ivk.public == old(self)@.ivk.public,
            final(self)@.ovk == zeros(32),
            final(self)@.signing_public == old(self)@.signing_public,
        opens_invariants none
        no_unwind
    {
        self.ivk.zeroize();
        self.ovk.zeroize();
    }

    /// The key as text, for debugging; the secret parts are left out.
    pub fn debug_string(&self) -> (text: String)
        ensures
            text@ == full_text(self@.ivk.public, self@.signing_public),
    {
        let mut text = "FullViewingKey { ivk_public: ".to_owned();
        text.append(self.ivk.ivk_public.debug_string().as_str());
        text.append(", signing_public: ");
        text.append(self.signing_public.debug_string().as_str());
        text.append(" }");
        text
    }

    /// Serializes to bytes: `[ivk_scalar: 32] [ivk_public: 32] [ovk: 32] [signing_public: 32]`.
    /// The bytes of a key whose incoming viewing key is consistent read back as the same key.
    pub fn to_bytes(&self) -> (bytes: [u8; FULL_VIEWING_KEY_LENGTH])
        ensures
            bytes@ == self@.bytes(),
            is_scalar(self@.ivk.scalar),
            self@.ivk.consistent() ==> read_full(bytes@) == Ok::<FullParts, SignatureError>(self@),
    {
        let mut bytes = [0u8; FULL_VIEWING_KEY_LENGTH];
        put(&mut bytes, 0, &self.ivk.to_bytes());
        put(&mut bytes, 64, self.ovk.as_bytes());
        put(&mut bytes, 96, self.signing_public.as_compressed());
        assert(bytes@ =~= self@.bytes());
        assert(bytes@.subrange(0, 64) =~= self@.ivk.bytes());
        assert(bytes@.subrange(64, 96) =~= self@.ovk);
        assert(bytes@.subrange(96, 128) =~= self@.signing_public);
        bytes
    }

    /// Reads a key, and verifies that the incoming viewing key is consistent.
    pub fn from_bytes(bytes: &[u8]) -> (result: SignatureResult<Self>)
        ensures
            match result {
                Ok(fvk) => {
                    &&& read_full(bytes@) == Ok::<FullParts, SignatureError>(fvk@)
                    &&& fvk@.ivk.consistent()
                    &&& fvk@.bytes() == bytes@
                    &&& is_scalar(fvk@.ivk.scalar)
                    &&& admits_one_scalar(bytes@.subrange(0, 64))
                },
                Err(error) => read_full(bytes@) == Err::<FullParts, SignatureError>(error),
            },
    {
        if bytes.len() != FULL_VIEWING_KEY_LENGTH {
            return Err(
                SignatureError::BytesLengthError {
                    name: "FullViewingKey",
                    description: "A 128-byte sr25519 full viewing key",
                    length: FULL_VIEWING_KEY_LENGTH,
                },
            );
        }
        let ivk = match IncomingViewingKey::from_bytes(&bytes[0..64]) {
            Ok(ivk) => ivk,
            Err(error) => return Err(error),
        };
        let ovk = match OutgoingViewingKey::from_bytes(&bytes[64..96]) {
            Ok(ovk) => ovk,
            Err(error) => return Err(error),
        };
        let signing_public = match PublicKey::from_bytes(&bytes[96..128]) {
            Ok(signing_public) => signing_public,
            Err(error) => return Err(error),
        };
        proof {
            law_full_bytes(bytes@);
        }
        Ok(FullViewingKey { ivk, ovk, signing_public })
    }
}

} // verus!
