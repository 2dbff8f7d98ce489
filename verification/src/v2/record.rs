//! Fixed-layout records.
//!
//! Every structure of the protocol is a packed record of known size. A
//! record is described by the bytes it is stored as and by the value that
//! a span of bytes stands for.

use vstd::prelude::*;

verus! {

/// A record with a fixed, packed byte layout.
pub trait Stivale2Record: Sized {
    /// The number of bytes the record occupies.
    spec fn spec_size() -> nat;

    /// The bytes the record is stored as.
    spec fn spec_encode(&self) -> Seq<u8>;

    /// The record that the first `spec_size()` bytes of `bytes` stand for.
    spec fn spec_decode(bytes: Seq<u8>) -> Self;

    /// The number of bytes the record occupies.
    fn size() -> (n: usize)
        ensures
            n == Self::spec_size(),
    ;

    /// Appends the record's bytes to `out`.
    fn encode_into(&self, out: &mut Vec<u8>)
        ensures
            final(out)@ == old(out)@ + self.spec_encode(),
    ;

    /// Reads the record stored at the start of `bytes`.
    fn decode(bytes: &[u8]) -> (record: Self)
        requires
            bytes@.len() >= Self::spec_size(),
        ensures
            record == Self::spec_decode(bytes@),
    ;

    /// A record is stored in exactly `spec_size()` bytes.
    proof fn lemma_encode_len(&self)
        ensures
            self.spec_encode().len() == Self::spec_size(),
    ;

    /// Decoding the bytes of a record gives the record back, whatever
    /// follows them.
    proof fn lemma_round_trip(&self, after: Seq<u8>)
        ensures
            Self::spec_decode(self.spec_encode() + after) == *self,
    ;
}

/// Stores `record` in a fresh buffer.
pub fn encode<T: Stivale2Record>(record: &T) -> (bytes: Vec<u8>)
    ensures
        bytes@ == record.spec_encode(),
        bytes@.len() == T::spec_size(),
{
    let mut bytes: Vec<u8> = Vec::new();
    record.encode_into(&mut bytes);
    proof {
        record.lemma_encode_len();
        assert(bytes@ =~= record.spec_encode());
    }
    bytes
}

} // verus!
