//! BLAKE3-backed hashing: the primitive 32-byte digest of a byte buffer,
//! the truncated digest type, and the parametric hasher offering unpadded
//! hashing of field-element vectors and two-to-one digest compression.

use vstd::prelude::*;

use crate::field::{elems_le_bytes, FieldElement};

verus! {

/// The 32-byte BLAKE3 digest of a byte sequence, a function of the bytes
/// alone.
pub uninterp spec fn blake3_digest(input: Seq<u8>) -> Seq<u8>;

/// Relies on blake3::hash: it returns the 32-byte BLAKE3 digest of the
/// input buffer, determined by the input bytes alone.
#[verifier::external_body]
pub(crate) fn blake3_hash_bytes(input: &Vec<u8>) -> (r: Vec<u8>)
    ensures
        r@ == blake3_digest(input@),
        r@.len() == 32,
{
    blake3::hash(input.as_slice()).as_bytes().to_vec()
}

/// A hash digest of exactly `N` bytes. Its view is the byte sequence.
#[derive(Debug, PartialEq, Eq)]
pub struct BytesHash<const N: usize> {
    bytes: Vec<u8>,
}

impl<const N: usize> View for BytesHash<N> {
    type V = Seq<u8>;

    closed spec fn view(&self) -> Seq<u8> {
        self.bytes@
    }
}

impl<const N: usize> BytesHash<N> {
    /// A digest is well formed when it holds exactly `N` bytes.
    pub open spec fn wf(&self) -> bool {
        self@.len() == N
    }

    /// The digest's bytes.
    pub fn as_bytes(&self) -> (r: &Vec<u8>)
        ensures
            r@ == self@,
    {
        &self.bytes
    }
}

/// Copies the first `n` bytes of `src` into a fresh vector.
fn take_prefix(src: &Vec<u8>, n: usize) -> (r: Vec<u8>)
    requires
        n <= src@.len(),
    ensures
        r@ == src@.take(n as int),
{
    let mut out: Vec<u8> = Vec::new();
    let mut i: usize = 0;
    while i < n
        invariant
            i <= n,
            n <= src@.len(),
            out@ == src@.take(i as int),
        decreases n - i,
    {
        out.push(src[i]);
        proof {
            assert(out@ =~= src@.take(i + 1));
        }
        i += 1;
    }
    out
}

/// BLAKE3-based hasher with a compile-time digest size of `N` bytes, each
/// digest the truncation of the primitive 32-byte BLAKE3 digest.
pub struct Blake3_256<const N: usize>;

impl<const N: usize> Blake3_256<N> {
    /// Unpadded hash of a field-element vector: the input is serialized with
    /// the little-endian wire encoding, hashed with BLAKE3, and the digest
    /// truncated to its first `N` bytes.
    pub fn hash_no_pad(input: &Vec<FieldElement>) -> (r: BytesHash<N>)
        requires
            N <= 32,
        ensures
            r@ == blake3_digest(elems_le_bytes(input@)).take(N as int),
            r.wf(),
    {
        let buffer = crate::field::to_le_bytes_vec(input);
        let digest = blake3_hash_bytes(&buffer);
        BytesHash { bytes: take_prefix(&digest, N) }
    }

    /// Two-to-one compression: the left digest followed by the right digest
    /// is hashed with BLAKE3 and the result truncated to its first `N`
    /// bytes. Left and right enter the buffer in order, so the operation is
    /// order-sensitive.
    pub fn two_to_one(left: BytesHash<N>, right: BytesHash<N>) -> (r: BytesHash<N>)
        requires
            N <= 32,
            left.wf(),
            right.wf(),
        ensures
            r@ == blake3_digest(left@ + right@).take(N as int),
            r.wf(),
    {
        let mut v: Vec<u8> = left.bytes;
        let mut rb: Vec<u8> = right.bytes;
        v.append(&mut rb);
        let digest = blake3_hash_bytes(&v);
        BytesHash { bytes: take_prefix(&digest, N) }
    }
}

} // verus!
