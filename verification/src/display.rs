//! Carrier type for segment sizes.

use vstd::prelude::*;

verus! {

/// A 64-bit value that callers render as a hexadecimal address annotated
/// with its decimal byte count. The crate itself does no formatting; the
/// wrapped value is public so that a front end can print it as it likes.
#[derive(Clone, Copy, Debug, PartialEq, Eq, Structural)]
pub struct HexAddress(pub u64);

} // verus!
