//! Decoding of the ELF (Executable and Linkable Format) file header and
//! program header table from a flat byte buffer.
//!
//! The crate is organised in three modules, leaves first:
//! - [`display`]: a small carrier type for sizes that are rendered both as a
//!   hexadecimal address and as a decimal byte count.
//! - [`fields`]: pure field decoders that read a fixed-width little-endian
//!   scalar at a known offset, and the mappings from raw codes to
//!   human-readable labels.
//! - [`parser`]: validation of the magic number and assembly of the decoded
//!   ELF header and the ordered sequence of segment descriptors, with a typed
//!   error for every way a buffer can be rejected.

pub mod display;
pub mod fields;
pub mod parser;
