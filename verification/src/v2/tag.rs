//! The generic tag header.

use vstd::prelude::*;
use crate::v2::record::Stivale2Record;
use crate::v2::wire::{lemma_u64_field, push_u64, read_u64, spec_u64_at, spec_u64_bytes};

verus! {

/// The header every tag begins with: one node of a chain.
///
/// `identifier` selects the concrete record laid out at the node's address;
/// `next` is the address of the following node, or `0` at the end of the
/// chain.
#[derive(Clone, Copy, Debug, PartialEq, Eq, Structural)]
pub struct Stivale2Tag {
    pub identifier: u64,
    pub next: u64,
}

impl Stivale2Record for Stivale2Tag {
    open spec fn spec_size() -> nat {
        16
    }

    open spec fn spec_encode(&self) -> Seq<u8> {
        spec_u64_bytes(self.identifier) + spec_u64_bytes(self.next)
    }

    open spec fn spec_decode(bytes: Seq<u8>) -> Self {
        Stivale2Tag { identifier: spec_u64_at(bytes, 0), next: spec_u64_at(bytes, 8) }
    }

    fn size() -> (n: usize) {
        16
    }

    fn encode_into(&self, out: &mut Vec<u8>) {
        push_u64(out, self.identifier);
        push_u64(out, self.next);
        assert(out@ =~= old(out)@ + self.spec_encode());
    }

    fn decode(bytes: &[u8]) -> (record: Self) {
        Stivale2Tag { identifier: read_u64(bytes, 0), next: read_u64(bytes, 8) }
    }

    proof fn lemma_encode_len(&self) {
    }

    proof fn lemma_round_trip(&self, after: Seq<u8>) {
        let all = self.spec_encode() + after;
        assert(all.subrange(0, 8) =~= spec_u64_bytes(self.identifier));
        assert(all.subrange(8, 16) =~= spec_u64_bytes(self.next));
        lemma_u64_field(all, 0, self.identifier);
        lemma_u64_field(all, 8, self.next);
    }
}

/// A record that is laid out at a node of a chain.
///
/// Such a record begins with the generic header, so that a chain can be
/// walked before the shape of any of its records is known.
pub trait Stivale2TagLayout: Stivale2Record {
    /// The generic header the record begins with.
    spec fn spec_header(&self) -> Stivale2Tag;

    /// The generic header the record begins with.
    fn header(&self) -> (tag: Stivale2Tag)
        ensures
            tag == self.spec_header(),
    ;

    /// The stored record starts with its header: reading the generic header
    /// from the record's bytes gives the record's own identifier and
    /// successor, whatever shape follows them.
    proof fn lemma_header_prefix(&self, after: Seq<u8>)
        ensures
            Self::spec_size() >= Stivale2Tag::spec_size(),
            Stivale2Tag::spec_decode(self.spec_encode() + after) == self.spec_header(),
    ;

    /// The record read from a span of bytes carries the generic header read
    /// from the same span.
    proof fn lemma_header_of_decoded(bytes: Seq<u8>)
        ensures
            Self::spec_decode(bytes).spec_header() == Stivale2Tag::spec_decode(bytes),
    ;
}

impl Stivale2TagLayout for Stivale2Tag {
    open spec fn spec_header(&self) -> Stivale2Tag {
        *self
    }

    fn header(&self) -> (tag: Stivale2Tag) {
        *self
    }

    proof fn lemma_header_prefix(&self, after: Seq<u8>) {
        self.lemma_round_trip(after);
    }

    proof fn lemma_header_of_decoded(bytes: Seq<u8>) {
    }
}

/// Prefix stability: a record of any tag shape, once stored, reads back
/// through the generic header with the identifier and the successor it was
/// stored with, whatever bytes follow it.
pub proof fn lemma_prefix_stable<T: Stivale2TagLayout>(record: T, after: Seq<u8>)
    ensures
        Stivale2Tag::spec_decode(record.spec_encode() + after).identifier
            == record.spec_header().identifier,
        Stivale2Tag::spec_decode(record.spec_encode() + after).next == record.spec_header().next,
{
    record.lemma_header_prefix(after);
}

} // verus!
