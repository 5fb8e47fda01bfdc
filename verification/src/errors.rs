//! Errors when reading SEG-Y data.

use vstd::prelude::*;

verus! {

/// Errors when reading SEG-Y data.
#[derive(Debug)]
pub enum SegyError {
    /// The binary header declares a sample format code outside the
    /// recognized set; carries the raw code.
    UnsupportedSampleFormat(u16),
    /// A 4-byte group could not be interpreted as an IBM float.
    IbmFloatConversionError,
    /// A fixed-offset field extraction ran past the supplied buffer;
    /// carries a description of which read failed.
    ParseError(String),
}

} // verus!
