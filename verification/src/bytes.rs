//! Byte strings: little-endian numbers, and copies between slices and arrays.
use vstd::prelude::*;

verus! {

/// The number that `bytes` holds, least significant byte first.
pub open spec fn le_nat(bytes: Seq<u8>) -> nat
    decreases bytes.len(),
{
    if bytes.len() == 0 {
        0
    } else {
        bytes[0] as nat + 256 * le_nat(bytes.drop_first())
    }
}

/// The `len` low bytes of `n`, least significant byte first.
pub open spec fn le_bytes(n: nat, len: nat) -> Seq<u8>
    decreases len,
{
    if len == 0 {
        seq![]
    } else {
        seq![(n % 256) as u8] + le_bytes(n / 256, (len - 1) as nat)
    }
}

/// The number of values that `len` bytes can take.
pub open spec fn pow256(len: nat) -> nat
    decreases len,
{
    if len == 0 {
        1
    } else {
        256 * pow256((len - 1) as nat)
    }
}

/// A string of `len` zero bytes.
pub open spec fn zeros(len: nat) -> Seq<u8> {
    Seq::new(len, |i: int| 0u8)
}

/// The digits of a number.
pub open spec fn decimal(n: nat) -> Seq<char>
    decreases n,
{
    let digit = (48 + n % 10) as char;
    if n < 10 {
        seq![digit]
    } else {
        decimal(n / 10).push(digit)
    }
}

/// The bytes as decimal numbers, with a comma and a space between them.
pub open spec fn decimal_list(bytes: Seq<u8>) -> Seq<char>
    decreases bytes.len(),
{
    if bytes.len() == 0 {
        seq![]
    } else if bytes.len() == 1 {
        decimal(bytes[0] as nat)
    } else {
        decimal_list(bytes.drop_last()) + seq![',', ' '] + decimal(bytes.last() as nat)
    }
}

/// The bytes of `text` in UTF-8.
pub open spec fn utf8(text: &str) -> Seq<u8> {
    vstd::utf8::encode_utf8(text@)
}

/// The outcome of a fallible computation of bytes, with the bytes taken by their view.
pub open spec fn outcome<E>(result: Result<Vec<u8>, E>) -> Result<Seq<u8>, E> {
    match result {
        Ok(bytes) => Ok(bytes@),
        Err(error) => Err(error),
    }
}

/// Writing a number that fits into `len` bytes and reading it back changes nothing.
pub proof fn lemma_le_bytes_round_trip(n: nat, len: nat)
    requires
        n < pow256(len),
    ensures
        le_bytes(n, len).len() == len,
        le_nat(le_bytes(n, len)) == n,
    decreases len,
{
    if len > 0 {
        let rest = le_bytes(n / 256, (len - 1) as nat);
        lemma_le_bytes_round_trip(n / 256, (len - 1) as nat);
        assert(le_bytes(n, len).drop_first() == rest);
    }
}

/// Zero bytes stand for the number zero.
pub proof fn lemma_le_nat_zeros(len: nat)
    ensures
        le_nat(zeros(len)) == 0,
    decreases len,
{
    if len > 0 {
        lemma_le_nat_zeros((len - 1) as nat);
        assert(zeros(len).drop_first() == zeros((len - 1) as nat));
    }
}

/// A one with zeros behind it stands for the number one.
pub proof fn lemma_le_nat_one(bytes: Seq<u8>)
    requires
        bytes.len() > 0,
        bytes[0] == 1,
        forall|i: int| 0 < i < bytes.len() ==> bytes[i] == 0,
    ensures
        le_nat(bytes) == 1,
{
    assert(bytes.drop_first() =~= zeros((bytes.len() - 1) as nat));
    lemma_le_nat_zeros((bytes.len() - 1) as nat);
}

/// Copies a slice into an array of its length.
pub fn to_array<const N: usize>(bytes: &[u8]) -> (out: [u8; N])
    requires
        bytes@.len() == N,
    ensures
        out@ == bytes@,
{
    let mut out = [0u8; N];
    put(&mut out, 0, bytes);
    out
}

/// Overwrites the part of `out` that starts at `at` with `part`.
pub fn put<const N: usize>(out: &mut [u8; N], at: usize, part: &[u8])
    requires
        at + part@.len() <= N,
    ensures
        final(out)@ == old(out)@.subrange(0, at as int) + part@ + old(out)@.subrange(
            at + part@.len(),
            N as int,
        ),
{
    let ghost before = out@;
    for i in 0..part.len()
        invariant
            at + part@.len() <= N,
            before.len() == N,
            out@ == before.subrange(0, at as int) + part@.subrange(0, i as int) + before.subrange(
                at + i,
                N as int,
            ),
    {
        out[at + i] = part[i];
    }
}

} // verus!
