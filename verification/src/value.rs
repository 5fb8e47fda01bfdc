//! Fixed sizes of the SEG-Y file regions.

use vstd::prelude::*;

verus! {

/// The size (in bytes) of the textual EBCDIC header in a SEG-Y file.
pub const EBCDIC_HEADER_SIZE: usize = 3200;

/// The size (in bytes) of the SEG-Y binary header.
pub const BINARY_HEADER_SIZE: usize = 400;

/// The size (in bytes) of each trace header in a SEG-Y file.
pub const TRACE_HEADER_SIZE: usize = 240;

} // verus!
