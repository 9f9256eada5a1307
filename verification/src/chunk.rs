//! Byte chunks: the opaque unit that the stream moves.
use vstd::prelude::*;
use bytes::Bytes;

verus! {

/// `bytes::Bytes`, an immutable span of bytes, carried through the stream unread.
#[verifier::external_type_specification]
#[verifier::external_body]
pub struct ExBytes(bytes::Bytes);

/// The bytes that a chunk holds, in order.
pub uninterp spec fn chunk_bytes(chunk: Bytes) -> Seq<u8>;

/// `Bytes::len` returns the number of bytes that the chunk holds.
pub assume_specification[ Bytes::len ](chunk: &Bytes) -> (n: usize)
    ensures
        n == chunk_bytes(*chunk).len(),
;

} // verus!
