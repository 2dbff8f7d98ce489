//! The physical memory map.

use vstd::prelude::*;
use crate::v2::memory::BootMemory;
use crate::v2::record::Stivale2Record;
use crate::v2::tag::{Stivale2Tag, Stivale2TagLayout};
use crate::v2::wire::{
    lemma_u32_field, lemma_u64_field, push_u32, push_u64, read_u32, read_u64, spec_u32_at,
    spec_u32_bytes, spec_u64_at, spec_u64_bytes,
};

verus! {

/// What a region of physical memory is used for.
#[derive(Clone, Copy, Debug, PartialEq, Eq, Structural)]
pub enum Stivale2MMapType {
    Usable,
    Reserved,
    ACPIReclaimable,
    ACPINvs,
    BadMemory,
    BootloaderReclaimable,
    KernelAndModules,
    Framebuffer,
}

impl Stivale2MMapType {
    /// The code that stands for the region type in a memory-map entry.
    pub open spec fn spec_code(&self) -> u32 {
        match self {
            Stivale2MMapType::Usable => 1,
            Stivale2MMapType::Reserved => 2,
            Stivale2MMapType::ACPIReclaimable => 3,
            Stivale2MMapType::ACPINvs => 4,
            Stivale2MMapType::BadMemory => 5,
            Stivale2MMapType::BootloaderReclaimable => 0x1000,
            Stivale2MMapType::KernelAndModules => 0x1001,
            Stivale2MMapType::Framebuffer => 0x1002,
        }
    }

    /// The region type that `code` stands for. A code that stands for none
    /// is taken as reserved.
    pub open spec fn spec_from_code(code: u32) -> Stivale2MMapType {
        if code == 1 {
            Stivale2MMapType::Usable
        } else if code == 3 {
            Stivale2MMapType::ACPIReclaimable
        } else if code == 4 {
            Stivale2MMapType::ACPINvs
        } else if code == 5 {
            Stivale2MMapType::BadMemory
        } else if code == 0x1000 {
            Stivale2MMapType::BootloaderReclaimable
        } else if code == 0x1001 {
            Stivale2MMapType::KernelAndModules
        } else if code == 0x1002 {
            Stivale2MMapType::Framebuffer
        } else {
            Stivale2MMapType::Reserved
        }
    }

    /// The code that stands for the region type in a memory-map entry.
    pub fn code(&self) -> (code: u32)
        ensures
            code == self.spec_code(),
    {
        match self {
            Stivale2MMapType::Usable => 1,
            Stivale2MMapType::Reserved => 2,
            Stivale2MMapType::ACPIReclaimable => 3,
            Stivale2MMapType::ACPINvs => 4,
            Stivale2MMapType::BadMemory => 5,
            Stivale2MMapType::BootloaderReclaimable => 0x1000,
            Stivale2MMapType::KernelAndModules => 0x1001,
            Stivale2MMapType::Framebuffer => 0x1002,
        }
    }

    /// The region type that `code` stands for. A code that stands for none
    /// is taken as reserved, never as usable.
    pub fn from_code(code: u32) -> (region_type: Self)
        ensures
            region_type == Self::spec_from_code(code),
            region_type is Usable <==> code == 1,
    {
        if code == 1 {
            Stivale2MMapType::Usable
        } else if code == 3 {
            Stivale2MMapType::ACPIReclaimable
        } else if code == 4 {
            Stivale2MMapType::ACPINvs
        } else if code == 5 {
            Stivale2MMapType::BadMemory
        } else if code == 0x1000 {
            Stivale2MMapType::BootloaderReclaimable
        } else if code == 0x1001 {
            Stivale2MMapType::KernelAndModules
        } else if code == 0x1002 {
            Stivale2MMapType::Framebuffer
        } else {
            Stivale2MMapType::Reserved
        }
    }

    /// Every region type is the one its own code stands for.
    pub proof fn lemma_code_round_trip(&self)
        ensures
            Self::spec_from_code(self.spec_code()) == *self,
    {
    }

    /// Only the code `1` stands for usable memory.
    pub proof fn lemma_usable_code(code: u32)
        ensures
            Self::spec_from_code(code) is Usable <==> code == 1,
    {
    }
}

/// One row of the memory map: a region of physical memory.
#[derive(Clone, Copy, Debug, PartialEq, Eq, Structural)]
pub struct Stivale2MMapEntry {
    /// Address of the first byte of the region.
    pub base: u64,
    /// Size of the region in bytes.
    pub length: u64,
    /// Code of the region type, see [`Stivale2MMapType`].
    pub type_code: u32,
    pub unsed: u32,
}

impl Stivale2Record for Stivale2MMapEntry {
    open spec fn spec_size() -> nat {
        24
    }

    open spec fn spec_encode(&self) -> Seq<u8> {
        spec_u64_bytes(self.base)
            + spec_u64_bytes(self.length)
            + spec_u32_bytes(self.type_code)
            + spec_u32_bytes(self.unsed)
    }

    open spec fn spec_decode(bytes: Seq<u8>) -> Self {
        Stivale2MMapEntry {
            base: spec_u64_at(bytes, 0),
            length: spec_u64_at(bytes, 8),
            type_code: spec_u32_at(bytes, 16),
            unsed: spec_u32_at(bytes, 20),
        }
    }

    fn size() -> (n: usize) {
        24
    }

    fn encode_into(&self, out: &mut Vec<u8>) {
        push_u64(out, self.base);
        push_u64(out, self.length);
        push_u32(out, self.type_code);
        push_u32(out, self.unsed);
        assert(out@ =~= old(out)@ + self.spec_encode());
    }

    fn decode(bytes: &[u8]) -> (record: Self) {
        Stivale2MMapEntry {
            base: read_u64(bytes, 0),
            length: read_u64(bytes, 8),
            type_code: read_u32(bytes, 16),
            unsed: read_u32(bytes, 20),
        }
    }

    proof fn lemma_encode_len(&self) {
    }

    proof fn lemma_round_trip(&self, after: Seq<u8>) {
        let all = self.spec_encode() + after;
        assert(all.subrange(0, 8) =~= spec_u64_bytes(self.base));
        lemma_u64_field(all, 0, self.base);
        assert(all.subrange(8, 16) =~= spec_u64_bytes(self.length));
        lemma_u64_field(all, 8, self.length);
        assert(all.subrange(16, 20) =~= spec_u32_bytes(self.type_code));
        lemma_u32_field(all, 16, self.type_code);
        assert(all.subrange(20, 24) =~= spec_u32_bytes(self.unsed));
        lemma_u32_field(all, 20, self.unsed);
    }
}

impl Stivale2MMapEntry {
    /// The type of the region.
    pub open spec fn spec_region_type(&self) -> Stivale2MMapType {
        Stivale2MMapType::spec_from_code(self.type_code)
    }

    /// The type of the region. An entry with an unknown code is reserved.
    pub fn region_type(&self) -> (region_type: Stivale2MMapType)
        ensures
            region_type == self.spec_region_type(),
            region_type is Usable <==> self.type_code == 1,
    {
        Stivale2MMapType::from_code(self.type_code)
    }
}

/// The memory map: `entries` rows laid out back to back from address `memmap`.
#[derive(Clone, Copy, Debug, PartialEq, Eq, Structural)]
pub struct Stivale2StructTagMemmap {
    pub identifier: u64,
    pub next: u64,
    /// Number of rows.
    pub entries: u64,
    /// Address of the first row.
    pub memmap: u64,
}

impl Stivale2Record for Stivale2StructTagMemmap {
    open spec fn spec_size() -> nat {
        32
    }

    open spec fn spec_encode(&self) -> Seq<u8> {
        spec_u64_bytes(self.identifier)
            + spec_u64_bytes(self.next)
            + spec_u64_bytes(self.entries)
            + spec_u64_bytes(self.memmap)
    }

    open spec fn spec_decode(bytes: Seq<u8>) -> Self {
        Stivale2StructTagMemmap {
            identifier: spec_u64_at(bytes, 0),
            next: spec_u64_at(bytes, 8),
            entries: spec_u64_at(bytes, 16),
            memmap: spec_u64_at(bytes, 24),
        }
    }

    fn size() -> (n: usize) {
        32
    }

    fn encode_into(&self, out: &mut Vec<u8>) {
        push_u64(out, self.identifier);
        push_u64(out, self.next);
        push_u64(out, self.entries);
        push_u64(out, self.memmap);
        assert(out@ =~= old(out)@ + self.spec_encode());
    }

    fn decode(bytes: &[u8]) -> (record: Self) {
        Stivale2StructTagMemmap {
            identifier: read_u64(bytes, 0),
            next: read_u64(bytes, 8),
            entries: read_u64(bytes, 16),
            memmap: read_u64(bytes, 24),
        }
    }

    proof fn lemma_encode_len(&self) {
    }

    proof fn lemma_round_trip(&self, after: Seq<u8>) {
        let all = self.spec_encode() + after;
        assert(all.subrange(0, 8) =~= spec_u64_bytes(self.identifier));
        lemma_u64_field(all, 0, self.identifier);
        assert(all.subrange(8, 16) =~= spec_u64_bytes(self.next));
        lemma_u64_field(all, 8, self.next);
        assert(all.subrange(16, 24) =~= spec_u64_bytes(self.entries));
        lemma_u64_field(all, 16, self.entries);
        assert(all.subrange(24, 32) =~= spec_u64_bytes(self.memmap));
        lemma_u64_field(all, 24, self.memmap);
    }
}

impl Stivale2TagLayout for Stivale2StructTagMemmap {
    open spec fn spec_header(&self) -> Stivale2Tag {
        Stivale2Tag { identifier: self.identifier, next: self.next }
    }

    fn header(&self) -> (tag: Stivale2Tag) {
        Stivale2Tag { identifier: self.identifier, next: self.next }
    }

    proof fn lemma_header_prefix(&self, after: Seq<u8>) {
        self.lemma_round_trip(after);
    }

    proof fn lemma_header_of_decoded(bytes: Seq<u8>) {
    }
}

impl Stivale2StructTagMemmap {
    /// Whether all rows of the map lie inside `memory`.
    pub open spec fn spec_rows_in(&self, memory: &BootMemory) -> bool {
        memory.spec_contains_items::<Stivale2MMapEntry>(self.memmap, self.entries as nat)
    }

    /// The row at position `index`.
    pub open spec fn spec_entry(&self, memory: &BootMemory, index: nat) -> Stivale2MMapEntry {
        memory.spec_read_item::<Stivale2MMapEntry>(self.memmap, index)
    }

    /// All rows of the map, in the order they are laid out.
    pub open spec fn spec_rows(&self, memory: &BootMemory) -> Seq<Stivale2MMapEntry> {
        Seq::new(self.entries as nat, |i: int| self.spec_entry(memory, i as nat))
    }

    /// Reads the row at position `index`.
    pub fn entry(&self, memory: &BootMemory, index: u64) -> (row: Stivale2MMapEntry)
        requires
            index < self.entries,
            self.spec_rows_in(memory),
        ensures
            row == self.spec_entry(memory, index as nat),
    {
        proof {
            assert(memory.bytes@.len() == memory.bytes.len());
            lemma_rows_fit(memory.bytes@.len(), self.entries as nat, index as nat);
        }
        memory.read_item(self.memmap, index as usize)
    }

    /// Reads all rows of the map, in the order they are laid out.
    pub fn rows(&self, memory: &BootMemory) -> (rows: Vec<Stivale2MMapEntry>)
        requires
            self.spec_rows_in(memory),
        ensures
            rows@ == self.spec_rows(memory),
    {
        let mut rows: Vec<Stivale2MMapEntry> = Vec::new();
        let mut index: u64 = 0;
        while index < self.entries
            invariant
                self.spec_rows_in(memory),
                index <= self.entries,
                rows@.len() == index,
                forall|i: int| 0 <= i < index ==> rows@[i] == self.spec_entry(memory, i as nat),
            decreases self.entries - index,
        {
            let row = self.entry(memory, index);
            rows.push(row);
            index = index + 1;
        }
        assert(rows@ =~= self.spec_rows(memory));
        rows
    }
}

/// An array of `count` rows that fits in `len` bytes has every row up to
/// `index` inside those bytes, and `index` is below `len`.
proof fn lemma_rows_fit(len: nat, count: nat, index: nat)
    requires
        index < count,
    ensures
        count * Stivale2MMapEntry::spec_size() <= len ==> (index + 1)
            * Stivale2MMapEntry::spec_size() <= len && index < len,
{
}

} // verus!
