//! Post-link support for WebAssembly modules whose DWARF debug information is
//! kept in a separate, unstripped sibling binary.
//!
//! The crate provides the byte-level logic of the patch step: the unsigned
//! LEB128 encoding used by the WebAssembly binary format for lengths, the
//! assembly of the `external_debug_info` custom section that points a debugger
//! at the unstripped module, and the decision of whether the external strip
//! step succeeded. Running the external stripper and touching the filesystem
//! are left to the surrounding program.

pub mod leb128;
pub mod patcher;
pub mod platform;
pub mod section;
