//! Definitions for the stivale2 boot protocol.
//!
//! Every record of the protocol is a fixed-size, packed, little-endian
//! structure. Addresses are carried as `u64`, with `0` standing for an
//! absent pointer.

pub mod header;
pub mod info;
pub mod memmap;
pub mod memory;
pub mod record;
pub mod tag;
pub mod tags;
pub mod wire;

pub use self::header::{
    Stivale2Header, Stivale2HeaderTagFrameBuffer, Stivale2HeaderTagTerminal,
    STIVALE2_HEADER_TAG_FRAMEBUFFER_ID, STIVALE2_HEADER_TAG_TERMINAL_ID,
};
pub use self::info::Stivale2Struct;
pub use self::memmap::{Stivale2MMapEntry, Stivale2MMapType, Stivale2StructTagMemmap};
pub use self::memory::BootMemory;
pub use self::record::{encode, Stivale2Record};
pub use self::tag::{Stivale2Tag, Stivale2TagLayout};
pub use self::tags::{
    Stivale2StructTagCmdline, Stivale2StructTagEFISystemTable, Stivale2StructTagEpoch,
    Stivale2StructTagFirmware, Stivale2StructTagFramebuffer, Stivale2StructTagKernelFile,
    Stivale2StructTagTerminal, STIVALE2_STRUCT_TAG_FRAMEBUFFER_ID,
    STIVALE2_STRUCT_TAG_TERMINAL_ID,
};
