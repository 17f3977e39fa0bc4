//! The Ristretto255 group and its scalars, held as bytes.
//!
//! A point stands for itself by its 32-byte Ristretto encoding, which is unique, and a scalar by
//! its 32 bytes in little-endian order.
use vstd::prelude::*;

use crate::bytes::{
    decimal_list, le_bytes, le_nat, lemma_le_bytes_round_trip, lemma_le_nat_zeros, pow256, zeros,
};
use crate::secret::wipe;

verus! {

/// Length of a scalar in bytes.
pub const SCALAR_LENGTH: usize = 32;

/// The order of the group: 2^252 + 27742317777372353535851937790883648493.
pub open spec fn group_order() -> nat {
    7237005577332262213973186563042994240857116359379907606001950938285454250989nat
}

/// Whether `bytes` are those of a scalar: 32 bytes that hold a number below the group order.
pub open spec fn is_scalar(bytes: Seq<u8>) -> bool {
    bytes.len() == SCALAR_LENGTH && le_nat(bytes) < group_order()
}

/// The encoding of the identity point.
pub open spec fn identity_encoding() -> Seq<u8> {
    zeros(32)
}

/// Whether 32 bytes are the encoding of a point.
pub uninterp spec fn ristretto_decodes(encoding: Seq<u8>) -> bool;

/// The encoding of the product of a scalar and the base point.
pub uninterp spec fn ristretto_mul_base(scalar: Seq<u8>) -> Seq<u8>;

/// The encoding of the product of a scalar and an encoded point.
pub uninterp spec fn ristretto_mul(scalar: Seq<u8>, encoding: Seq<u8>) -> Seq<u8>;

/// Whether `shared` is what every owner of the public point `point` computes from the public point
/// of `scalar`.
pub open spec fn agreed_with_owner(shared: Seq<u8>, scalar: Seq<u8>, point: Seq<u8>) -> bool {
    forall|t: Seq<u8>|
        t.len() == 32 && #[trigger] ristretto_mul_base(t) == point ==> shared == ristretto_mul(
            t,
            ristretto_mul_base(scalar),
        )
}

/// Whether `scalar` is the only scalar whose multiple of the base point is `point`.
pub open spec fn only_scalar(point: Seq<u8>, scalar: Seq<u8>) -> bool {
    forall|t: Seq<u8>|
        is_scalar(t) && #[trigger] ristretto_mul_base(t) == point ==> t == scalar
}

/// The text that stands for an encoded point: its bytes as a list of numbers.
pub open spec fn point_text(encoding: Seq<u8>) -> Seq<char> {
    "CompressedRistretto: ["@ + decimal_list(encoding) + "]"@
}

/// `CompressedRistretto::decompress` of curve25519-dalek, asked only whether it yields a point.
/// Claims that the answer depends on the bytes alone.
#[verifier::external_body]
pub(crate) fn decodes(encoding: &[u8; 32]) -> (valid: bool)
    ensures
        valid == ristretto_decodes(encoding@),
{
    curve25519_dalek::ristretto::CompressedRistretto(*encoding).decompress().is_some()
}

/// `RistrettoPoint::eq` of curve25519-dalek against `RistrettoPoint::default`. Claims that the
/// identity is the point whose encoding is all zeros, and no other: the encoding of a point is
/// unique.
#[verifier::external_body]
pub(crate) fn is_identity(encoding: &[u8; 32]) -> (identity: bool)
    ensures
        identity == (encoding@ == identity_encoding()),
{
    curve25519_dalek::ristretto::CompressedRistretto(*encoding).decompress() == Some(
        curve25519_dalek::ristretto::RistrettoPoint::default(),
    )
}

/// The product of a scalar and `RISTRETTO_BASEPOINT_TABLE` of curve25519-dalek, encoded by
/// `RistrettoPoint::compress`. Claims that the result depends on the scalar alone, that it is the
/// encoding of a point, that it is the identity exactly for the multiples of the group order, and
/// that no two numbers below the group order give the same point. The last two say that the base
/// point has the order that curve25519-dalek documents for it at `BASEPOINT_ORDER`, in
/// `constants.rs`.
#[verifier::external_body]
pub(crate) fn mul_base(scalar: &[u8; 32]) -> (encoding: [u8; 32])
    ensures
        encoding@ == ristretto_mul_base(scalar@),
        ristretto_decodes(encoding@),
        encoding@ == identity_encoding() <==> le_nat(scalar@) % group_order() == 0,
        is_scalar(scalar@) ==> only_scalar(encoding@, scalar@),
{
    let scalar = curve25519_dalek::scalar::Scalar::from_bytes_mod_order(*scalar);
    (&scalar * curve25519_dalek::constants::RISTRETTO_BASEPOINT_TABLE).compress().to_bytes()
}

/// The product of a scalar and a point of curve25519-dalek, encoded by `RistrettoPoint::compress`.
/// Claims that the result depends on the two alone, and that multiplication commutes: where the
/// point is itself a multiple `t` of the base point, the result is `t` times the scalar's multiple
/// of the base point. That holds in every commutative group, and curve25519-dalek documents
/// Ristretto as a group of prime order at the head of `ristretto.rs`.
#[verifier::external_body]
pub(crate) fn mul_point(scalar: &[u8; 32], point: &[u8; 32]) -> (encoding: [u8; 32])
    requires
        ristretto_decodes(point@),
    ensures
        encoding@ == ristretto_mul(scalar@, point@),
        agreed_with_owner(encoding@, scalar@, point@),
{
    let scalar = curve25519_dalek::scalar::Scalar::from_bytes_mod_order(*scalar);
    let point = curve25519_dalek::ristretto::CompressedRistretto(*point).decompress().unwrap();
    (scalar * point).compress().to_bytes()
}

/// `Scalar::from_canonical_bytes` of curve25519-dalek, asked only whether it yields a scalar.
/// Claims that it does exactly for the numbers below the group order: `is_canonical`, in
/// `scalar.rs`, compares the bytes with their reduction.
#[verifier::external_body]
fn is_canonical(bytes: &[u8; 32]) -> (canonical: bool)
    ensures
        canonical == (le_nat(bytes@) < group_order()),
{
    bool::from(curve25519_dalek::scalar::Scalar::from_canonical_bytes(*bytes).is_some())
}

/// `Scalar::from_bytes_mod_order_wide` of curve25519-dalek. Claims what its documentation says:
/// the result is the little-endian number that the 64 bytes hold, reduced modulo the group order.
#[verifier::external_body]
fn reduce_wide(bytes: &[u8; 64]) -> (reduced: [u8; 32])
    ensures
        reduced@ == le_bytes(le_nat(bytes@) % group_order(), 32),
{
    curve25519_dalek::scalar::Scalar::from_bytes_mod_order_wide(bytes).to_bytes()
}

/// The `Debug` output of `CompressedRistretto` of curve25519-dalek. Claims that it is the name of
/// the type, a colon, and the bytes of the encoding as an array is shown.
#[verifier::external_body]
pub(crate) fn debug_point(encoding: &[u8; 32]) -> (text: String)
    ensures
        text@ == point_text(encoding@),
{
    format!("{:?}", curve25519_dalek::ristretto::CompressedRistretto(*encoding))
}

/// A number below the group order.
#[derive(Clone, Copy)]
pub struct Scalar {
    bytes: [u8; 32],
}

impl View for Scalar {
    type V = Seq<u8>;

    closed spec fn view(&self) -> Seq<u8> {
        self.bytes@
    }
}

impl Scalar {
    /// Every scalar is below the group order.
    #[verifier::type_invariant]
    pub open spec fn canonical(self) -> bool {
        is_scalar(self@)
    }

    /// Reads a scalar; only the numbers below the group order are accepted.
    pub fn from_canonical_bytes(bytes: [u8; 32]) -> (scalar: Option<Scalar>)
        ensures
            scalar is Some <==> is_scalar(bytes@),
            scalar matches Some(s) ==> s@ == bytes@,
    {
        if is_canonical(&bytes) {
            Some(Scalar { bytes })
        } else {
            None
        }
    }

    /// Reduces a 64-byte number modulo the group order.
    pub fn from_bytes_mod_order_wide(bytes: &[u8; 64]) -> (scalar: Scalar)
        ensures
            scalar@ == le_bytes(le_nat(bytes@) % group_order(), 32),
            is_scalar(scalar@),
            le_nat(scalar@) == le_nat(bytes@) % group_order(),
    {
        proof {
            lemma_group_order_fits();
            lemma_le_bytes_round_trip(le_nat(bytes@) % group_order(), 32);
        }
        Scalar { bytes: reduce_wide(bytes) }
    }

    /// The 32 bytes of the scalar, in place.
    pub fn as_bytes(&self) -> (bytes: &[u8; 32])
        ensures
            bytes@ == self@,
            is_scalar(self@),
    {
        proof {
            use_type_invariant(self);
        }
        &self.bytes
    }

    /// A copy of the 32 bytes of the scalar.
    pub fn to_bytes(&self) -> (bytes: [u8; 32])
        ensures
            bytes@ == self@,
            is_scalar(self@),
    {
        proof {
            use_type_invariant(self);
        }
        self.bytes
    }

    /// Overwrites the scalar with zero.
    pub fn zeroize(&mut self)
        ensures
            final(self)@ == zeros(32),
        opens_invariants none
        no_unwind
    {
        proof {
            lemma_le_nat_zeros(32);
        }
        wipe(&mut self.bytes);
    }
}

/// The group order fits into 32 bytes.
pub(crate) proof fn lemma_group_order_fits()
    ensures
        group_order() < pow256(32),
{
    reveal_with_fuel(pow256, 33);
}

} // verus!
