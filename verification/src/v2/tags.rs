//! Records of the response chain.
//!
//! Each of these is laid out by the bootloader at a node of the chain that
//! the info structure points to.

use vstd::prelude::*;
use crate::v2::record::Stivale2Record;
use crate::v2::tag::{Stivale2Tag, Stivale2TagLayout};
use crate::v2::wire::{
    lemma_u16_field, lemma_u32_field, lemma_u64_field, push_u16, push_u32, push_u64, read_u16,
    read_u32, read_u64, spec_u16_at, spec_u16_bytes, spec_u32_at, spec_u32_bytes, spec_u64_at,
    spec_u64_bytes,
};

verus! {

/// Identifier of [`Stivale2StructTagFramebuffer`].
pub const STIVALE2_STRUCT_TAG_FRAMEBUFFER_ID: u64 = 0x506461d2950408fa;

/// Identifier of [`Stivale2StructTagTerminal`].
pub const STIVALE2_STRUCT_TAG_TERMINAL_ID: u64 = 0xc2b3f4c3233b0974;

/// The framebuffer the bootloader set up.
#[derive(Clone, Copy, Debug, PartialEq, Eq, Structural)]
pub struct Stivale2StructTagFramebuffer {
    pub identifier: u64,
    pub next: u64,
    pub framebuffer_addr: u64,
    pub framebuffer_width: u16,
    pub framebuffer_height: u16,
    pub framebuffer_pitch: u16,
    pub framebuffer_bpp: u16,
    pub memory_model: u8,
    pub red_mask_size: u8,
    pub red_mask_shift: u8,
    pub green_mask_size: u8,
    pub green_mask_shift: u8,
    pub blue_mask_size: u8,
    pub blue_mask_shift: u8,
}

impl Stivale2Record for Stivale2StructTagFramebuffer {
    open spec fn spec_size() -> nat {
        39
    }

    open spec fn spec_encode(&self) -> Seq<u8> {
        spec_u64_bytes(self.identifier)
            + spec_u64_bytes(self.next)
            + spec_u64_bytes(self.framebuffer_addr)
            + spec_u16_bytes(self.framebuffer_width)
            + spec_u16_bytes(self.framebuffer_height)
            + spec_u16_bytes(self.framebuffer_pitch)
            + spec_u16_bytes(self.framebuffer_bpp)
            + seq![self.memory_model]
            + seq![self.red_mask_size]
            + seq![self.red_mask_shift]
            + seq![self.green_mask_size]
            + seq![self.green_mask_shift]
            + seq![self.blue_mask_size]
            + seq![self.blue_mask_shift]
    }

    open spec fn spec_decode(bytes: Seq<u8>) -> Self {
        Stivale2StructTagFramebuffer {
            identifier: spec_u64_at(bytes, 0),
            next: spec_u64_at(bytes, 8),
            framebuffer_addr: spec_u64_at(bytes, 16),
            framebuffer_width: spec_u16_at(bytes, 24),
            framebuffer_height: spec_u16_at(bytes, 26),
            framebuffer_pitch: spec_u16_at(bytes, 28),
            framebuffer_bpp: spec_u16_at(bytes, 30),
            memory_model: bytes[32],
            red_mask_size: bytes[33],
            red_mask_shift: bytes[34],
            green_mask_size: bytes[35],
            green_mask_shift: bytes[36],
            blue_mask_size: bytes[37],
            blue_mask_shift: bytes[38],
        }
    }

    fn size() -> (n: usize) {
        39
    }

    fn encode_into(&self, out: &mut Vec<u8>) {
        push_u64(out, self.identifier);
        push_u64(out, self.next);
        push_u64(out, self.framebuffer_addr);
        push_u16(out, self.framebuffer_width);
        push_u16(out, self.framebuffer_height);
        push_u16(out, self.framebuffer_pitch);
        push_u16(out, self.framebuffer_bpp);
        out.push(self.memory_model);
        out.push(self.red_mask_size);
        out.push(self.red_mask_shift);
        out.push(self.green_mask_size);
        out.push(self.green_mask_shift);
        out.push(self.blue_mask_size);
        out.push(self.blue_mask_shift);
        assert(out@ =~= old(out)@ + self.spec_encode());
    }

    fn decode(bytes: &[u8]) -> (record: Self) {
        Stivale2StructTagFramebuffer {
            identifier: read_u64(bytes, 0),
            next: read_u64(bytes, 8),
            framebuffer_addr: read_u64(bytes, 16),
            framebuffer_width: read_u16(bytes, 24),
            framebuffer_height: read_u16(bytes, 26),
            framebuffer_pitch: read_u16(bytes, 28),
            framebuffer_bpp: read_u16(bytes, 30),
            memory_model: bytes[32],
            red_mask_size: bytes[33],
            red_mask_shift: bytes[34],
            green_mask_size: bytes[35],
            green_mask_shift: bytes[36],
            blue_mask_size: bytes[37],
            blue_mask_shift: bytes[38],
        }
    }

    proof fn lemma_encode_len(&self) {
    }

    proof fn lemma_round_trip(&self, after: Seq<u8>) {
        let all = self.spec_encode() + after;
        assert(all.subrange(0, 8) =~= spec_u64_bytes(self.identifier));
        lemma_u64_field(all, 0, self.identifier);
        assert(all.subrange(8, 16) =~= spec_u64_bytes(self.next));
        lemma_u64_field(all, 8, self.next);
        assert(all.subrange(16, 24) =~= spec_u64_bytes(self.framebuffer_addr));
        lemma_u64_field(all, 16, self.framebuffer_addr);
        assert(all.subrange(24, 26) =~= spec_u16_bytes(self.framebuffer_width));
        lemma_u16_field(all, 24, self.framebuffer_width);
        assert(all.subrange(26, 28) =~= spec_u16_bytes(self.framebuffer_height));
        lemma_u16_field(all, 26, self.framebuffer_height);
        assert(all.subrange(28, 30) =~= spec_u16_bytes(self.framebuffer_pitch));
        lemma_u16_field(all, 28, self.framebuffer_pitch);
        assert(all.subrange(30, 32) =~= spec_u16_bytes(self.framebuffer_bpp));
        lemma_u16_field(all, 30, self.framebuffer_bpp);
        assert(all[32] == self.memory_model);
        assert(all[33] == self.red_mask_size);
        assert(all[34] == self.red_mask_shift);
        assert(all[35] == self.green_mask_size);
        assert(all[36] == self.green_mask_shift);
        assert(all[37] == self.blue_mask_size);
        assert(all[38] == self.blue_mask_shift);
    }
}

impl Stivale2TagLayout for Stivale2StructTagFramebuffer {
    open spec fn spec_header(&self) -> Stivale2Tag {
        Stivale2Tag { identifier: self.identifier, next: self.next }
    }

    fn header(&self) -> (tag: Stivale2Tag) {
        Stivale2Tag { identifier: self.identifier, next: self.next }
    }

    proof fn lemma_header_prefix(&self, after: Seq<u8>) {
        self.lemma_round_trip(after);
    }

    proof fn lemma_header_of_decoded(bytes: Seq<u8>) {
    }
}

/// The terminal the bootloader offers for early output.
#[derive(Clone, Copy, Debug, PartialEq, Eq, Structural)]
pub struct Stivale2StructTagTerminal {
    pub identifier: u64,
    pub next: u64,
    pub flags: u32,
    pub cols: u16,
    pub rows: u16,
    /// Address of the bootloader's text-output routine. The routine takes the
    /// address of the text and its length in bytes, and returns nothing.
    pub term_write: u64,
}

impl Stivale2Record for Stivale2StructTagTerminal {
    open spec fn spec_size() -> nat {
        32
    }

    open spec fn spec_encode(&self) -> Seq<u8> {
        spec_u64_bytes(self.identifier)
            + spec_u64_bytes(self.next)
            + spec_u32_bytes(self.flags)
            + spec_u16_bytes(self.cols)
            + spec_u16_bytes(self.rows)
            + spec_u64_bytes(self.term_write)
    }

    open spec fn spec_decode(bytes: Seq<u8>) -> Self {
        Stivale2StructTagTerminal {
            identifier: spec_u64_at(bytes, 0),
            next: spec_u64_at(bytes, 8),
            flags: spec_u32_at(bytes, 16),
            cols: spec_u16_at(bytes, 20),
            rows: spec_u16_at(bytes, 22),
            term_write: spec_u64_at(bytes, 24),
        }
    }

    fn size() -> (n: usize) {
        32
    }

    fn encode_into(&self, out: &mut Vec<u8>) {
        push_u64(out, self.identifier);
        push_u64(out, self.next);
        push_u32(out, self.flags);
        push_u16(out, self.cols);
        push_u16(out, self.rows);
        push_u64(out, self.term_write);
        assert(out@ =~= old(out)@ + self.spec_encode());
    }

    fn decode(bytes: &[u8]) -> (record: Self) {
        Stivale2StructTagTerminal {
            identifier: read_u64(bytes, 0),
            next: read_u64(bytes, 8),
            flags: read_u32(bytes, 16),
            cols: read_u16(bytes, 20),
            rows: read_u16(bytes, 22),
            term_write: read_u64(bytes, 24),
        }
    }

    proof fn lemma_encode_len(&self) {
    }

    proof fn lemma_round_trip(&self, after: Seq<u8>) {
        let all = self.spec_encode() + after;
        assert(all.subrange(0, 8) =~= spec_u64_bytes(self.identifier));
        lemma_u64_field(all, 0, self.identifier);
        assert(all.subrange(8, 16) =~= spec_u64_bytes(self.next));
        lemma_u64_field(all, 8, self.next);
        assert(all.subrange(16, 20) =~= spec_u32_bytes(self.flags));
        lemma_u32_field(all, 16, self.flags);
        assert(all.subrange(20, 22) =~= spec_u16_bytes(self.cols));
        lemma_u16_field(all, 20, self.cols);
        assert(all.subrange(22, 24) =~= spec_u16_bytes(self.rows));
        lemma_u16_field(all, 22, self.rows);
        assert(all.subrange(24, 32) =~= spec_u64_bytes(self.term_write));
        lemma_u64_field(all, 24, self.term_write);
    }
}

impl Stivale2TagLayout for Stivale2StructTagTerminal {
    open spec fn spec_header(&self) -> Stivale2Tag {
        Stivale2Tag { identifier: self.identifier, next: self.next }
    }

    fn header(&self) -> (tag: Stivale2Tag) {
        Stivale2Tag { identifier: self.identifier, next: self.next }
    }

    proof fn lemma_header_prefix(&self, after: Seq<u8>) {
        self.lemma_round_trip(after);
    }

    proof fn lemma_header_of_decoded(bytes: Seq<u8>) {
    }
}

/// The command line that was passed to the kernel.
#[derive(Clone, Copy, Debug, PartialEq, Eq, Structural)]
pub struct Stivale2StructTagCmdline {
    pub identifier: u64,
    pub next: u64,
    /// Address of the command line string.
    pub cmdline: u64,
}

impl Stivale2Record for Stivale2StructTagCmdline {
    open spec fn spec_size() -> nat {
        24
    }

    open spec fn spec_encode(&self) -> Seq<u8> {
        spec_u64_bytes(self.identifier)
            + spec_u64_bytes(self.next)
            + spec_u64_bytes(self.cmdline)
    }

    open spec fn spec_decode(bytes: Seq<u8>) -> Self {
        Stivale2StructTagCmdline {
            identifier: spec_u64_at(bytes, 0),
            next: spec_u64_at(bytes, 8),
            cmdline: spec_u64_at(bytes, 16),
        }
    }

    fn size() -> (n: usize) {
        24
    }

    fn encode_into(&self, out: &mut Vec<u8>) {
        push_u64(out, self.identifier);
        push_u64(out, self.next);
        push_u64(out, self.cmdline);
        assert(out@ =~= old(out)@ + self.spec_encode());
    }

    fn decode(bytes: &[u8]) -> (record: Self) {
        Stivale2StructTagCmdline {
            identifier: read_u64(bytes, 0),
            next: read_u64(bytes, 8),
            cmdline: read_u64(bytes, 16),
        }
    }

    proof fn lemma_encode_len(&self) {
    }

    proof fn lemma_round_trip(&self, after: Seq<u8>) {
        let all = self.spec_encode() + after;
        assert(all.subrange(0, 8) =~= spec_u64_bytes(self.identifier));
        lemma_u64_field(all, 0, self.identifier);
        assert(all.subrange(8, 16) =~= spec_u64_bytes(self.next));
        lemma_u64_field(all, 8, self.next);
        assert(all.subrange(16, 24) =~= spec_u64_bytes(self.cmdline));
        lemma_u64_field(all, 16, self.cmdline);
    }
}

impl Stivale2TagLayout for Stivale2StructTagCmdline {
    open spec fn spec_header(&self) -> Stivale2Tag {
        Stivale2Tag { identifier: self.identifier, next: self.next }
    }

    fn header(&self) -> (tag: Stivale2Tag) {
        Stivale2Tag { identifier: self.identifier, next: self.next }
    }

    proof fn lemma_header_prefix(&self, after: Seq<u8>) {
        self.lemma_round_trip(after);
    }

    proof fn lemma_header_of_decoded(bytes: Seq<u8>) {
    }
}

/// The current UNIX epoch, as read from the real-time clock.
#[derive(Clone, Copy, Debug, PartialEq, Eq, Structural)]
pub struct Stivale2StructTagEpoch {
    pub identifier: u64,
    pub next: u64,
    pub epoch: u64,
}

impl Stivale2Record for Stivale2StructTagEpoch {
    open spec fn spec_size() -> nat {
        24
    }

    open spec fn spec_encode(&self) -> Seq<u8> {
        spec_u64_bytes(self.identifier)
            + spec_u64_bytes(self.next)
            + spec_u64_bytes(self.epoch)
    }

    open spec fn spec_decode(bytes: Seq<u8>) -> Self {
        Stivale2StructTagEpoch {
            identifier: spec_u64_at(bytes, 0),
            next: spec_u64_at(bytes, 8),
            epoch: spec_u64_at(bytes, 16),
        }
    }

    fn size() -> (n: usize) {
        24
    }

    fn encode_into(&self, out: &mut Vec<u8>) {
        push_u64(out, self.identifier);
        push_u64(out, self.next);
        push_u64(out, self.epoch);
        assert(out@ =~= old(out)@ + self.spec_encode());
    }

    fn decode(bytes: &[u8]) -> (record: Self) {
        Stivale2StructTagEpoch {
            identifier: read_u64(bytes, 0),
            next: read_u64(bytes, 8),
            epoch: read_u64(bytes, 16),
        }
    }

    proof fn lemma_encode_len(&self) {
    }

    proof fn lemma_round_trip(&self, after: Seq<u8>) {
        let all = self.spec_encode() + after;
        assert(all.subrange(0, 8) =~= spec_u64_bytes(self.identifier));
        lemma_u64_field(all, 0, self.identifier);
        assert(all.subrange(8, 16) =~= spec_u64_bytes(self.next));
        lemma_u64_field(all, 8, self.next);
        assert(all.subrange(16, 24) =~= spec_u64_bytes(self.epoch));
        lemma_u64_field(all, 16, self.epoch);
    }
}

impl Stivale2TagLayout for Stivale2StructTagEpoch {
    open spec fn spec_header(&self) -> Stivale2Tag {
        Stivale2Tag { identifier: self.identifier, next: self.next }
    }

    fn header(&self) -> (tag: Stivale2Tag) {
        Stivale2Tag { identifier: self.identifier, next: self.next }
    }

    proof fn lemma_header_prefix(&self, after: Seq<u8>) {
        self.lemma_round_trip(after);
    }

    proof fn lemma_header_of_decoded(bytes: Seq<u8>) {
    }
}

/// Information about the firmware the machine was booted from.
#[derive(Clone, Copy, Debug, PartialEq, Eq, Structural)]
pub struct Stivale2StructTagFirmware {
    pub identifier: u64,
    pub next: u64,
    pub flags: u64,
}

impl Stivale2Record for Stivale2StructTagFirmware {
    open spec fn spec_size() -> nat {
        24
    }

    open spec fn spec_encode(&self) -> Seq<u8> {
        spec_u64_bytes(self.identifier)
            + spec_u64_bytes(self.next)
            + spec_u64_bytes(self.flags)
    }

    open spec fn spec_decode(bytes: Seq<u8>) -> Self {
        Stivale2StructTagFirmware {
            identifier: spec_u64_at(bytes, 0),
            next: spec_u64_at(bytes, 8),
            flags: spec_u64_at(bytes, 16),
        }
    }

    fn size() -> (n: usize) {
        24
    }

    fn encode_into(&self, out: &mut Vec<u8>) {
        push_u64(out, self.identifier);
        push_u64(out, self.next);
        push_u64(out, self.flags);
        assert(out@ =~= old(out)@ + self.spec_encode());
    }

    fn decode(bytes: &[u8]) -> (record: Self) {
        Stivale2StructTagFirmware {
            identifier: read_u64(bytes, 0),
            next: read_u64(bytes, 8),
            flags: read_u64(bytes, 16),
        }
    }

    proof fn lemma_encode_len(&self) {
    }

    proof fn lemma_round_trip(&self, after: Seq<u8>) {
        let all = self.spec_encode() + after;
        assert(all.subrange(0, 8) =~= spec_u64_bytes(self.identifier));
        lemma_u64_field(all, 0, self.identifier);
        assert(all.subrange(8, 16) =~= spec_u64_bytes(self.next));
        lemma_u64_field(all, 8, self.next);
        assert(all.subrange(16, 24) =~= spec_u64_bytes(self.flags));
        lemma_u64_field(all, 16, self.flags);
    }
}

impl Stivale2TagLayout for Stivale2StructTagFirmware {
    open spec fn spec_header(&self) -> Stivale2Tag {
        Stivale2Tag { identifier: self.identifier, next: self.next }
    }

    fn header(&self) -> (tag: Stivale2Tag) {
        Stivale2Tag { identifier: self.identifier, next: self.next }
    }

    proof fn lemma_header_prefix(&self, after: Seq<u8>) {
        self.lemma_round_trip(after);
    }

    proof fn lemma_header_of_decoded(bytes: Seq<u8>) {
    }
}

/// The EFI system table, where one is available.
#[derive(Clone, Copy, Debug, PartialEq, Eq, Structural)]
pub struct Stivale2StructTagEFISystemTable {
    pub identifier: u64,
    pub next: u64,
    /// Address of the EFI system table.
    pub system_table: u64,
}

impl Stivale2Record for Stivale2StructTagEFISystemTable {
    open spec fn spec_size() -> nat {
        24
    }

    open spec fn spec_encode(&self) -> Seq<u8> {
        spec_u64_bytes(self.identifier)
            + spec_u64_bytes(self.next)
            + spec_u64_bytes(self.system_table)
    }

    open spec fn spec_decode(bytes: Seq<u8>) -> Self {
        Stivale2StructTagEFISystemTable {
            identifier: spec_u64_at(bytes, 0),
            next: spec_u64_at(bytes, 8),
            system_table: spec_u64_at(bytes, 16),
        }
    }

    fn size() -> (n: usize) {
        24
    }

    fn encode_into(&self, out: &mut Vec<u8>) {
        push_u64(out, self.identifier);
        push_u64(out, self.next);
        push_u64(out, self.system_table);
        assert(out@ =~= old(out)@ + self.spec_encode());
    }

    fn decode(bytes: &[u8]) -> (record: Self) {
        Stivale2StructTagEFISystemTable {
            identifier: read_u64(bytes, 0),
            next: read_u64(bytes, 8),
            system_table: read_u64(bytes, 16),
        }
    }

    proof fn lemma_encode_len(&self) {
    }

    proof fn lemma_round_trip(&self, after: Seq<u8>) {
        let all = self.spec_encode() + after;
        assert(all.subrange(0, 8) =~= spec_u64_bytes(self.identifier));
        lemma_u64_field(all, 0, self.identifier);
        assert(all.subrange(8, 16) =~= spec_u64_bytes(self.next));
        lemma_u64_field(all, 8, self.next);
        assert(all.subrange(16, 24) =~= spec_u64_bytes(self.system_table));
        lemma_u64_field(all, 16, self.system_table);
    }
}

impl Stivale2TagLayout for Stivale2StructTagEFISystemTable {
    open spec fn spec_header(&self) -> Stivale2Tag {
        Stivale2Tag { identifier: self.identifier, next: self.next }
    }

    fn header(&self) -> (tag: Stivale2Tag) {
        Stivale2Tag { identifier: self.identifier, next: self.next }
    }

    proof fn lemma_header_prefix(&self, after: Seq<u8>) {
        self.lemma_round_trip(after);
    }

    proof fn lemma_header_of_decoded(bytes: Seq<u8>) {
    }
}

/// The raw executable file of the kernel, as the bootloader loaded it.
#[derive(Clone, Copy, Debug, PartialEq, Eq, Structural)]
pub struct Stivale2StructTagKernelFile {
    pub identifier: u64,
    pub next: u64,
    /// Address of the copy of the file.
    pub kernel_file: u64,
}

impl Stivale2Record for Stivale2StructTagKernelFile {
    open spec fn spec_size() -> nat {
        24
    }

    open spec fn spec_encode(&self) -> Seq<u8> {
        spec_u64_bytes(self.identifier)
            + spec_u64_bytes(self.next)
            + spec_u64_bytes(self.kernel_file)
    }

    open spec fn spec_decode(bytes: Seq<u8>) -> Self {
        Stivale2StructTagKernelFile {
            identifier: spec_u64_at(bytes, 0),
            next: spec_u64_at(bytes, 8),
            kernel_file: spec_u64_at(bytes, 16),
        }
    }

    fn size() -> (n: usize) {
        24
    }

    fn encode_into(&self, out: &mut Vec<u8>) {
        push_u64(out, self.identifier);
        push_u64(out, self.next);
        push_u64(out, self.kernel_file);
        assert(out@ =~= old(out)@ + self.spec_encode());
    }

    fn decode(bytes: &[u8]) -> (record: Self) {
        Stivale2StructTagKernelFile {
            identifier: read_u64(bytes, 0),
            next: read_u64(bytes, 8),
            kernel_file: read_u64(bytes, 16),
        }
    }

    proof fn lemma_encode_len(&self) {
    }

    proof fn lemma_round_trip(&self, after: Seq<u8>) {
        let all = self.spec_encode() + after;
        assert(all.subrange(0, 8) =~= spec_u64_bytes(self.identifier));
        lemma_u64_field(all, 0, self.identifier);
        assert(all.subrange(8, 16) =~= spec_u64_bytes(self.next));
        lemma_u64_field(all, 8, self.next);
        assert(all.subrange(16, 24) =~= spec_u64_bytes(self.kernel_file));
        lemma_u64_field(all, 16, self.kernel_file);
    }
}

impl Stivale2TagLayout for Stivale2StructTagKernelFile {
    open spec fn spec_header(&self) -> Stivale2Tag {
        Stivale2Tag { identifier: self.identifier, next: self.next }
    }

    fn header(&self) -> (tag: Stivale2Tag) {
        Stivale2Tag { identifier: self.identifier, next: self.next }
    }

    proof fn lemma_header_prefix(&self, after: Seq<u8>) {
        self.lemma_round_trip(after);
    }

    proof fn lemma_header_of_decoded(bytes: Seq<u8>) {
    }
}
} // verus!
