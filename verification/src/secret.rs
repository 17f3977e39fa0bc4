//! Bytes that are secret: drawn at random, compared in constant time, and erased after use.
use vstd::prelude::*;

use crate::bytes::zeros;

verus! {

/// `OsRng::fill_bytes` of rand_core. Nothing is claimed of the bytes: they are random. The call
/// panics where the operating system has no randomness to give.
#[verifier::external_body]
pub(crate) fn random_bytes<const N: usize>() -> (bytes: [u8; N]) {
    let mut bytes = [0u8; N];
    rand_core::RngCore::fill_bytes(&mut rand_core::OsRng, &mut bytes);
    bytes
}

/// `ConstantTimeEq::ct_eq` of subtle for slices of `u8`, with the choice as a byte. Claims that it
/// is one for equal bytes and zero for others: the slices have one length, and the choices for the
/// single bytes, each zero or one, are joined by `&`.
#[verifier::external_body]
pub(crate) fn bytes_ct_eq(a: &[u8; 32], b: &[u8; 32]) -> (choice: u8)
    ensures
        choice == if a@ == b@ {
            1u8
        } else {
            0u8
        },
{
    subtle::ConstantTimeEq::ct_eq(&a[..], &b[..]).unwrap_u8()
}

/// `Zeroize::zeroize` of zeroize for arrays of bytes. Claims that every byte is zero afterwards.
#[verifier::external_body]
pub(crate) fn wipe<const N: usize>(bytes: &mut [u8; N])
    ensures
        final(bytes)@ == zeros(N as nat),
    opens_invariants none
    no_unwind
{
    zeroize::Zeroize::zeroize(bytes)
}

/// `Zeroize::zeroize` of zeroize for vectors of bytes. Claims that the vector is empty afterwards;
/// that its memory was overwritten before is not stated.
#[verifier::external_body]
pub(crate) fn wipe_vec(bytes: &mut Vec<u8>)
    ensures
        final(bytes)@ == Seq::<u8>::empty(),
{
    zeroize::Zeroize::zeroize(bytes)
}

} // verus!
