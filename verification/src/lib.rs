//! Verified bindings for the stivale boot protocol.
//!
//! The protocol hands a freshly started kernel the address of a root
//! structure, from which a chain of self-describing tags is discovered.
//! Every record is modelled here as a plain value together with its exact
//! packed byte layout, and the memory the bootloader populated is modelled
//! as a borrowed span of bytes with a known start address.

pub mod v2;
