//! The header a kernel carries for the bootloader, and its request tags.
//!
//! The header is placed in the `.stivale2hdr` section of the kernel
//! executable. The bootloader reads it before the kernel runs.

use vstd::prelude::*;
use crate::v2::record::Stivale2Record;
use crate::v2::tag::{Stivale2Tag, Stivale2TagLayout};
use crate::v2::wire::{
    lemma_u16_field, lemma_u64_field, push_u16, push_u64, read_u16, read_u64, spec_u16_at,
    spec_u16_bytes, spec_u64_at, spec_u64_bytes,
};

verus! {

/// Identifier of [`Stivale2HeaderTagFrameBuffer`].
pub const STIVALE2_HEADER_TAG_FRAMEBUFFER_ID: u64 = 0x3ecc1bc43d0f7971;

/// Identifier of [`Stivale2HeaderTagTerminal`].
pub const STIVALE2_HEADER_TAG_TERMINAL_ID: u64 = 0xa85d499b1823be72;

/// The kernel's boot request.
#[derive(Clone, Copy, Debug, PartialEq, Eq, Structural)]
pub struct Stivale2Header {
    /// Address the bootloader jumps to, or `0` to use the entry point of the
    /// executable.
    pub entry_point: u64,
    /// The highest address of the region reserved for the initial stack, which
    /// grows down.
    pub stack: u64,
    pub flags: u64,
    /// Address of the first request tag, or `0` where there is none.
    pub tags: u64,
}

impl Stivale2Record for Stivale2Header {
    open spec fn spec_size() -> nat {
        32
    }

    open spec fn spec_encode(&self) -> Seq<u8> {
        spec_u64_bytes(self.entry_point)
            + spec_u64_bytes(self.stack)
            + spec_u64_bytes(self.flags)
            + spec_u64_bytes(self.tags)
    }

    open spec fn spec_decode(bytes: Seq<u8>) -> Self {
        Stivale2Header {
            entry_point: spec_u64_at(bytes, 0),
            stack: spec_u64_at(bytes, 8),
            flags: spec_u64_at(bytes, 16),
            tags: spec_u64_at(bytes, 24),
        }
    }

    fn size() -> (n: usize) {
        32
    }

    fn encode_into(&self, out: &mut Vec<u8>) {
        push_u64(out, self.entry_point);
        push_u64(out, self.stack);
        push_u64(out, self.flags);
        push_u64(out, self.tags);
        assert(out@ =~= old(out)@ + self.spec_encode());
    }

    fn decode(bytes: &[u8]) -> (record: Self) {
        Stivale2Header {
            entry_point: read_u64(bytes, 0),
            stack: read_u64(bytes, 8),
            flags: read_u64(bytes, 16),
            tags: read_u64(bytes, 24),
        }
    }

    proof fn lemma_encode_len(&self) {
    }

    proof fn lemma_round_trip(&self, after: Seq<u8>) {
        let all = self.spec_encode() + after;
        assert(all.subrange(0, 8) =~= spec_u64_bytes(self.entry_point));
        lemma_u64_field(all, 0, self.entry_point);
        assert(all.subrange(8, 16) =~= spec_u64_bytes(self.stack));
        lemma_u64_field(all, 8, self.stack);
        assert(all.subrange(16, 24) =~= spec_u64_bytes(self.flags));
        lemma_u64_field(all, 16, self.flags);
        assert(all.subrange(24, 32) =~= spec_u64_bytes(self.tags));
        lemma_u64_field(all, 24, self.tags);
    }
}

impl Stivale2Header {
    /// Builds the header of a kernel whose initial stack is the region of
    /// `stack_size` bytes that starts at address `stack_base`.
    ///
    /// The header's stack pointer is the address of the last byte of that
    /// region.
    pub fn new(
        entry_point: u64,
        stack_base: u64,
        stack_size: u64,
        flags: u64,
        tags: u64,
    ) -> (header: Self)
        requires
            stack_size > 0,
            stack_base + stack_size - 1 <= u64::MAX,
        ensures
            header == (Stivale2Header {
                entry_point,
                stack: (stack_base + stack_size - 1) as u64,
                flags,
                tags,
            }),
    {
        Stivale2Header { entry_point, stack: stack_base + (stack_size - 1), flags, tags }
    }
}

/// Asks the bootloader for a framebuffer of the given geometry.
#[derive(Clone, Copy, Debug, PartialEq, Eq, Structural)]
pub struct Stivale2HeaderTagFrameBuffer {
    pub identifier: u64,
    pub next: u64,
    pub framebuffer_width: u16,
    pub framebuffer_height: u16,
    pub framebuffer_bpp: u16,
}

impl Stivale2Record for Stivale2HeaderTagFrameBuffer {
    open spec fn spec_size() -> nat {
        22
    }

    open spec fn spec_encode(&self) -> Seq<u8> {
        spec_u64_bytes(self.identifier)
            + spec_u64_bytes(self.next)
            + spec_u16_bytes(self.framebuffer_width)
            + spec_u16_bytes(self.framebuffer_height)
            + spec_u16_bytes(self.framebuffer_bpp)
    }

    open spec fn spec_decode(bytes: Seq<u8>) -> Self {
        Stivale2HeaderTagFrameBuffer {
            identifier: spec_u64_at(bytes, 0),
            next: spec_u64_at(bytes, 8),
            framebuffer_width: spec_u16_at(bytes, 16),
            framebuffer_height: spec_u16_at(bytes, 18),
            framebuffer_bpp: spec_u16_at(bytes, 20),
        }
    }

    fn size() -> (n: usize) {
        22
    }

    fn encode_into(&self, out: &mut Vec<u8>) {
        push_u64(out, self.identifier);
        push_u64(out, self.next);
        push_u16(out, self.framebuffer_width);
        push_u16(out, self.framebuffer_height);
        push_u16(out, self.framebuffer_bpp);
        assert(out@ =~= old(out)@ + self.spec_encode());
    }

    fn decode(bytes: &[u8]) -> (record: Self) {
        Stivale2HeaderTagFrameBuffer {
            identifier: read_u64(bytes, 0),
            next: read_u64(bytes, 8),
            framebuffer_width: read_u16(bytes, 16),
            framebuffer_height: read_u16(bytes, 18),
            framebuffer_bpp: read_u16(bytes, 20),
        }
    }

    proof fn lemma_encode_len(&self) {
    }

    proof fn lemma_round_trip(&self, after: Seq<u8>) {
        let all = self.spec_encode() + after;
        assert(all.subrange(0, 8) =~= spec_u64_bytes(self.identifier));
        lemma_u64_field(all, 0, self.identifier);
        assert(all.subrange(8, 16) =~= spec_u64_bytes(self.next));
        lemma_u64_field(all, 8, self.next);
        assert(all.subrange(16, 18) =~= spec_u16_bytes(self.framebuffer_width));
        lemma_u16_field(all, 16, self.framebuffer_width);
        assert(all.subrange(18, 20) =~= spec_u16_bytes(self.framebuffer_height));
        lemma_u16_field(all, 18, self.framebuffer_height);
        assert(all.subrange(20, 22) =~= spec_u16_bytes(self.framebuffer_bpp));
        lemma_u16_field(all, 20, self.framebuffer_bpp);
    }
}

impl Stivale2TagLayout for Stivale2HeaderTagFrameBuffer {
    open spec fn spec_header(&self) -> Stivale2Tag {
        Stivale2Tag { identifier: self.identifier, next: self.next }
    }

    fn header(&self) -> (tag: Stivale2Tag) {
        Stivale2Tag { identifier: self.identifier, next: self.next }
    }

    proof fn lemma_header_prefix(&self, after: Seq<u8>) {
        self.lemma_round_trip(after);
    }

    proof fn lemma_header_of_decoded(bytes: Seq<u8>) {
    }
}

/// Asks the bootloader for a terminal.
#[derive(Clone, Copy, Debug, PartialEq, Eq, Structural)]
pub struct Stivale2HeaderTagTerminal {
    pub identifier: u64,
    pub next: u64,
    pub flags: u64,
}

impl Stivale2Record for Stivale2HeaderTagTerminal {
    open spec fn spec_size() -> nat {
        24
    }

    open spec fn spec_encode(&self) -> Seq<u8> {
        spec_u64_bytes(self.identifier)
            + spec_u64_bytes(self.next)
            + spec_u64_bytes(self.flags)
    }

    open spec fn spec_decode(bytes: Seq<u8>) -> Self {
        Stivale2HeaderTagTerminal {
            identifier: spec_u64_at(bytes, 0),
            next: spec_u64_at(bytes, 8),
            flags: spec_u64_at(bytes, 16),
        }
    }

    fn size() -> (n: usize) {
        24
    }

    fn encode_into(&self, out: &mut Vec<u8>) {
        push_u64(out, self.identifier);
        push_u64(out, self.next);
        push_u64(out, self.flags);
        assert(out@ =~= old(out)@ + self.spec_encode());
    }

    fn decode(bytes: &[u8]) -> (record: Self) {
        Stivale2HeaderTagTerminal {
            identifier: read_u64(bytes, 0),
            next: read_u64(bytes, 8),
            flags: read_u64(bytes, 16),
        }
    }

    proof fn lemma_encode_len(&self) {
    }

    proof fn lemma_round_trip(&self, after: Seq<u8>) {
        let all = self.spec_encode() + after;
        assert(all.subrange(0, 8) =~= spec_u64_bytes(self.identifier));
        lemma_u64_field(all, 0, self.identifier);
        assert(all.subrange(8, 16) =~= spec_u64_bytes(self.next));
        lemma_u64_field(all, 8, self.next);
        assert(all.subrange(16, 24) =~= spec_u64_bytes(self.flags));
        lemma_u64_field(all, 16, self.flags);
    }
}

impl Stivale2TagLayout for Stivale2HeaderTagTerminal {
    open spec fn spec_header(&self) -> Stivale2Tag {
        Stivale2Tag { identifier: self.identifier, next: self.next }
    }

    fn header(&self) -> (tag: Stivale2Tag) {
        Stivale2Tag { identifier: self.identifier, next: self.next }
    }

    proof fn lemma_header_prefix(&self, after: Seq<u8>) {
        self.lemma_round_trip(after);
    }

    proof fn lemma_header_of_decoded(bytes: Seq<u8>) {
    }
}
} // verus!
