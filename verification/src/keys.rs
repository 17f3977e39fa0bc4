//! sr25519 keys.
use vstd::prelude::*;

use crate::bytes::{le_bytes, le_nat, lemma_le_nat_one, to_array, zeros};
use crate::curve::{
    agreed_with_owner, debug_point, decodes, group_order, identity_encoding, is_identity, is_scalar,
    mul_base, mul_point, only_scalar, point_text, ristretto_decodes, ristretto_mul,
    ristretto_mul_base, Scalar,
};
use crate::errors::{SignatureError, SignatureResult};
use crate::secret::{bytes_ct_eq, random_bytes, wipe};

verus! {

/// Length of a serialized [`PublicKey`].
pub const PUBLIC_KEY_LENGTH: usize = 32;

/// What reading `bytes` as a public key gives: the encoding of a point.
pub open spec fn read_public_key(bytes: Seq<u8>) -> Result<Seq<u8>, SignatureError> {
    if bytes.len() != 32 {
        Err(
            SignatureError::BytesLengthError {
                name: "PublicKey",
                description: "A Ristretto Schnorr public key represented as a 32-byte Ristretto compressed point",
                length: 32,
            },
        )
    } else if !ristretto_decodes(bytes) {
        Err(SignatureError::PointDecompressionError)
    } else {
        Ok(bytes)
    }
}

/// A point of the group, by its encoding.
#[derive(Clone, Copy)]
pub struct PublicKey {
    compressed: [u8; 32],
}

/// The encoding of the point.
impl View for PublicKey {
    type V = Seq<u8>;

    closed spec fn view(&self) -> Seq<u8> {
        self.compressed@
    }
}

impl PublicKey {
    /// Every public key is the encoding of a point.
    #[verifier::type_invariant]
    pub open spec fn encodes_a_point(self) -> bool {
        self@.len() == PUBLIC_KEY_LENGTH && ristretto_decodes(self@)
    }

    /// Reads a public key, which has to be the encoding of a point. The identity is one.
    pub fn from_bytes(bytes: &[u8]) -> (result: SignatureResult<PublicKey>)
        ensures
            match result {
                Ok(public) => read_public_key(bytes@) == Ok::<Seq<u8>, SignatureError>(public@),
                Err(error) => read_public_key(bytes@) == Err::<Seq<u8>, SignatureError>(error),
            },
    {
        if bytes.len() != PUBLIC_KEY_LENGTH {
            return Err(
                SignatureError::BytesLengthError {
                    name: "PublicKey",
                    description: "A Ristretto Schnorr public key represented as a 32-byte Ristretto compressed point",
                    length: PUBLIC_KEY_LENGTH,
                },
            );
        }
        let compressed: [u8; 32] = to_array(bytes);
        if decodes(&compressed) {
            Ok(PublicKey { compressed })
        } else {
            Err(SignatureError::PointDecompressionError)
        }
    }

    /// The public key of a secret scalar. No other scalar has it.
    pub fn from_scalar(scalar: &Scalar) -> (public: PublicKey)
        ensures
            public@ == ristretto_mul_base(scalar@),
            public@ == identity_encoding() <==> le_nat(scalar@) == 0,
            only_scalar(public@, scalar@),
    {
        PublicKey { compressed: mul_base(scalar.as_bytes()) }
    }

    /// The encoding of the point.
    pub fn as_compressed(&self) -> (compressed: &[u8; 32])
        ensures
            compressed@ == self@,
            self.encodes_a_point(),
    {
        proof {
            use_type_invariant(self);
        }
        &self.compressed
    }

    /// Serializes to the encoding of the point, which reads back as the same key.
    pub fn to_bytes(&self) -> (bytes: [u8; PUBLIC_KEY_LENGTH])
        ensures
            bytes@ == self@,
            read_public_key(bytes@) == Ok::<Seq<u8>, SignatureError>(self@),
    {
        proof {
            use_type_invariant(self);
        }
        self.compressed
    }

    /// Whether the point is the identity.
    pub fn is_identity(&self) -> (identity: bool)
        ensures
            identity == (self@ == identity_encoding()),
    {
        is_identity(&self.compressed)
    }

    /// The key as text, for debugging.
    pub fn debug_string(&self) -> (text: String)
        ensures
            text@ == public_key_text(self@),
    {
        let mut text = "PublicKey( RistrettoPoint( ".to_owned();
        text.append(debug_point(&self.compressed).as_str());
        text.append(" ) )");
        text
    }
}

/// The text that stands for a public key.
pub open spec fn public_key_text(encoding: Seq<u8>) -> Seq<char> {
    "PublicKey( RistrettoPoint( "@ + point_text(encoding) + " ) )"@
}

impl PartialEq for PublicKey {
    fn eq(&self, other: &Self) -> (equal: bool) {
        bytes_ct_eq(&self.compressed, &other.compressed) == 1u8
    }
}

impl vstd::std_specs::cmp::PartialEqSpecImpl for PublicKey {
    open spec fn obeys_eq_spec() -> bool {
        true
    }

    open spec fn eq_spec(&self, other: &Self) -> bool {
        self@ == other@
    }
}

impl Eq for PublicKey {

}

/// A secret key: the signing scalar. It is erased when it goes out of scope.
pub struct SecretKey {
    key: Scalar,
}

/// The bytes of the signing scalar.
impl View for SecretKey {
    type V = Seq<u8>;

    closed spec fn view(&self) -> Seq<u8> {
        self.key@
    }
}

impl Drop for SecretKey {
    fn drop(&mut self)
        ensures
            final(self)@ == zeros(32),
        opens_invariants none
        no_unwind
    {
        self.key.zeroize();
    }
}

impl SecretKey {
    /// The secret key that 64 uniformly distributed bytes give, reduced modulo the group order.
    pub fn from_uniform_bytes(bytes: &[u8; 64]) -> (secret: SecretKey)
        ensures
            secret@ == le_bytes(le_nat(bytes@) % group_order(), 32),
            is_scalar(secret@),
            le_nat(secret@) == le_nat(bytes@) % group_order(),
    {
        SecretKey { key: Scalar::from_bytes_mod_order_wide(bytes) }
    }

    /// A fresh secret key, from the randomness of the operating system. It is never zero, for which
    /// there is no key exchange: where the bytes reduce to zero, others are drawn, and where that
    /// goes on and on, the key is one.
    pub fn generate() -> (secret: SecretKey)
        ensures
            is_scalar(secret@),
            le_nat(secret@) != 0,
    {
        let mut draws: u8 = 0;
        while draws < 100
            decreases 100 - draws,
        {
            let mut bytes: [u8; 64] = random_bytes();
            let secret = SecretKey::from_uniform_bytes(&bytes);
            wipe(&mut bytes);
            if !secret.to_public().is_identity() {
                return secret;
            }
            draws = draws + 1;
        }
        let mut one = [0u8; 64];
        one[0] = 1;
        proof {
            lemma_le_nat_one(one@);
            vstd::arithmetic::div_mod::lemma_small_mod(1, group_order());
        }
        SecretKey::from_uniform_bytes(&one)
    }

    /// The signing scalar.
    pub fn scalar(&self) -> (scalar: &Scalar)
        ensures
            scalar@ == self@,
            is_scalar(self@),
    {
        proof {
            use_type_invariant(&self.key);
        }
        &self.key
    }

    /// The public key that belongs to this secret key. No other scalar has it.
    pub fn to_public(&self) -> (public: PublicKey)
        ensures
            public@ == ristretto_mul_base(self@),
            public@ == identity_encoding() <==> le_nat(self@) == 0,
            only_scalar(public@, self@),
            is_scalar(self@),
    {
        PublicKey::from_scalar(self.scalar())
    }

    /// The key pair of this secret key.
    pub fn to_keypair(self) -> (pair: Keypair)
        ensures
            pair.secret@ == self@,
            pair.public@ == ristretto_mul_base(self@),
    {
        let public = self.to_public();
        Keypair { secret: self, public }
    }

    /// The encoding of the point that this key and the owner of `public` agree on.
    pub fn raw_key_exchange(&self, public: &PublicKey) -> (shared: [u8; 32])
        ensures
            shared@ == ristretto_mul(self@, public@),
            agreed_with_owner(shared@, self@, public@),
    {
        mul_point(self.key.as_bytes(), public.as_compressed())
    }
}

/// A secret key and a public key.
pub struct Keypair {
    /// The secret half.
    pub secret: SecretKey,
    /// The public half.
    pub public: PublicKey,
}

impl Keypair {
    /// A fresh key pair, from the randomness of the operating system.
    pub fn generate() -> (pair: Keypair)
        ensures
            is_scalar(pair.secret@),
            le_nat(pair.secret@) != 0,
            pair.public@ == ristretto_mul_base(pair.secret@),
    {
        SecretKey::generate().to_keypair()
    }
}

} // verus!
