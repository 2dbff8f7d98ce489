//! The info structure the bootloader hands to the kernel.
//!
//! The address of this structure is the single argument of the kernel's
//! entry point. It names the bootloader and points to the chain of response
//! tags.

use vstd::prelude::*;
use crate::v2::memory::BootMemory;
use crate::v2::record::Stivale2Record;
use crate::v2::tag::Stivale2TagLayout;
use crate::v2::tags::{
    Stivale2StructTagFramebuffer, Stivale2StructTagTerminal, STIVALE2_STRUCT_TAG_FRAMEBUFFER_ID,
    STIVALE2_STRUCT_TAG_TERMINAL_ID,
};
use crate::v2::wire::{
    lemma_array_field, lemma_u64_field, push_array, push_u64, read_array, read_u64, spec_array_at,
    spec_u64_at, spec_u64_bytes,
};

verus! {

/// The root of the bootloader's response.
///
/// The two strings are fields of exactly 64 bytes. They are kept byte for
/// byte: nothing is trimmed, and no terminator is looked for.
#[derive(Clone, Copy, Debug)]
pub struct Stivale2Struct {
    pub bootloader_brand: [u8; 64],
    pub bootloader_version: [u8; 64],
    /// Address of the first response tag, or `0` where there is none.
    pub tags: u64,
}

impl Stivale2Record for Stivale2Struct {
    open spec fn spec_size() -> nat {
        136
    }

    open spec fn spec_encode(&self) -> Seq<u8> {
        self.bootloader_brand@ + self.bootloader_version@ + spec_u64_bytes(self.tags)
    }

    open spec fn spec_decode(bytes: Seq<u8>) -> Self {
        Stivale2Struct {
            bootloader_brand: spec_array_at::<64>(bytes, 0),
            bootloader_version: spec_array_at::<64>(bytes, 64),
            tags: spec_u64_at(bytes, 128),
        }
    }

    fn size() -> (n: usize) {
        136
    }

    fn encode_into(&self, out: &mut Vec<u8>) {
        push_array(out, &self.bootloader_brand);
        push_array(out, &self.bootloader_version);
        push_u64(out, self.tags);
        assert(out@ =~= old(out)@ + self.spec_encode());
    }

    fn decode(bytes: &[u8]) -> (record: Self) {
        Stivale2Struct {
            bootloader_brand: read_array(bytes, 0),
            bootloader_version: read_array(bytes, 64),
            tags: read_u64(bytes, 128),
        }
    }

    proof fn lemma_encode_len(&self) {
    }

    proof fn lemma_round_trip(&self, after: Seq<u8>) {
        let all = self.spec_encode() + after;
        assert(all.subrange(0, 64) =~= self.bootloader_brand@);
        lemma_array_field::<64>(all, 0, self.bootloader_brand);
        assert(all.subrange(64, 128) =~= self.bootloader_version@);
        lemma_array_field::<64>(all, 64, self.bootloader_version);
        assert(all.subrange(128, 136) =~= spec_u64_bytes(self.tags));
        lemma_u64_field(all, 128, self.tags);
    }
}

impl Stivale2Struct {
    /// Looks up a tag of the response chain by its identifier and returns
    /// the address of the first node that carries it.
    pub fn get_tag(&self, memory: &BootMemory, id: u64) -> (found: Option<u64>)
        requires
            memory.chain_wf(self.tags),
        ensures
            found == memory.spec_find_tag(self.tags, id),
    {
        memory.find_tag(self.tags, id)
    }

    /// Looks up the tag that carries `id` and reads it as a `T`.
    ///
    /// Only the identifier is matched: the caller names the shape that the
    /// protocol binds to `id`.
    pub fn _get<T: Stivale2TagLayout>(&self, memory: &BootMemory, id: u64) -> (found: Option<T>)
        requires
            memory.chain_wf(self.tags),
            memory.spec_fits::<T>(self.tags, id),
        ensures
            found == memory.spec_find::<T>(self.tags, id),
            found is Some <==> memory.spec_find_tag(self.tags, id) is Some,
            found matches Some(record) ==> record.spec_header().identifier == id,
    {
        memory.find(self.tags, id)
    }

    /// The terminal the bootloader offers, if it offers one.
    pub fn get_terminal(&self, memory: &BootMemory) -> (found: Option<Stivale2StructTagTerminal>)
        requires
            memory.chain_wf(self.tags),
            memory.spec_fits::<Stivale2StructTagTerminal>(
                self.tags,
                STIVALE2_STRUCT_TAG_TERMINAL_ID,
            ),
        ensures
            found == memory.spec_find::<Stivale2StructTagTerminal>(
                self.tags,
                STIVALE2_STRUCT_TAG_TERMINAL_ID,
            ),
            found is Some <==> memory.spec_find_tag(self.tags, STIVALE2_STRUCT_TAG_TERMINAL_ID)
                is Some,
            found matches Some(terminal) ==> terminal.identifier
                == STIVALE2_STRUCT_TAG_TERMINAL_ID,
    {
        self._get(memory, STIVALE2_STRUCT_TAG_TERMINAL_ID)
    }

    /// The framebuffer the bootloader set up, if it set one up.
    pub fn get_framebuffer(&self, memory: &BootMemory) -> (found: Option<
        Stivale2StructTagFramebuffer,
    >)
        requires
            memory.chain_wf(self.tags),
            memory.spec_fits::<Stivale2StructTagFramebuffer>(
                self.tags,
                STIVALE2_STRUCT_TAG_FRAMEBUFFER_ID,
            ),
        ensures
            found == memory.spec_find::<Stivale2StructTagFramebuffer>(
                self.tags,
                STIVALE2_STRUCT_TAG_FRAMEBUFFER_ID,
            ),
            found is Some <==> memory.spec_find_tag(self.tags, STIVALE2_STRUCT_TAG_FRAMEBUFFER_ID)
                is Some,
            found matches Some(framebuffer) ==> framebuffer.identifier
                == STIVALE2_STRUCT_TAG_FRAMEBUFFER_ID,
    {
        self._get(memory, STIVALE2_STRUCT_TAG_FRAMEBUFFER_ID)
    }
}

} // verus!
