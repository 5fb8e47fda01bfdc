//! Decoder for the SEG-Y seismic data exchange format: a 3200-byte textual
//! header, a 400-byte binary header, and a sequence of trace records, each a
//! fixed 240-byte trace header followed by a sample payload.

pub mod ebcdic_syg;
pub mod errors;
pub mod format;
pub mod reader;
pub mod sgy;
pub mod utils;
pub mod value;

use vstd::prelude::*;

use crate::errors::SegyError;
use crate::format::SampleFormat;
use crate::reader::{
    binary_header_ok, parse_stream, text_header_spec, trace_views, SegyReader,
};
use crate::sgy::SegyFile;
use crate::utils::be_u16_at;
use crate::value::{BINARY_HEADER_SIZE, EBCDIC_HEADER_SIZE};

verus! {

/// Decode a whole SEG-Y byte source: the 3200-byte textual header, the
/// 400-byte binary header that immediately follows, and every trace record
/// after that, until the cleanly exhausted end of the source. The first
/// failure anywhere aborts the whole decode; no partial result is returned.
pub fn read_segy_from_bytes(data: Vec<u8>) -> (r: Result<SegyFile, SegyError>)
    ensures
        r matches Ok(f) ==> {
            &&& data@.len() >= EBCDIC_HEADER_SIZE + BINARY_HEADER_SIZE
            &&& f.ebcdic_header@ == text_header_spec(
                data@.subrange(0, EBCDIC_HEADER_SIZE as int),
            )
            &&& binary_header_ok(
                data@.subrange(
                    EBCDIC_HEADER_SIZE as int,
                    EBCDIC_HEADER_SIZE + BINARY_HEADER_SIZE,
                ),
                f.binary_header,
            )
            &&& parse_stream(
                data@,
                EBCDIC_HEADER_SIZE + BINARY_HEADER_SIZE,
                f.binary_header.sample_format_code,
                f.binary_header.samples_per_trace,
            ) == Some(trace_views(f.traces@))
        },
        r matches Err(e) ==> {
            ||| (e is ParseError && data@.len() < EBCDIC_HEADER_SIZE + BINARY_HEADER_SIZE)
            ||| (e matches SegyError::UnsupportedSampleFormat(c) && data@.len()
                >= EBCDIC_HEADER_SIZE + BINARY_HEADER_SIZE && c == be_u16_at(
                data@.subrange(
                    EBCDIC_HEADER_SIZE as int,
                    EBCDIC_HEADER_SIZE + BINARY_HEADER_SIZE,
                ),
                24,
            ) && SampleFormat::spec_from_code(c) is None)
            ||| (e is ParseError && data@.len() >= EBCDIC_HEADER_SIZE + BINARY_HEADER_SIZE && (
            SampleFormat::spec_from_code(
                be_u16_at(
                    data@.subrange(
                        EBCDIC_HEADER_SIZE as int,
                        EBCDIC_HEADER_SIZE + BINARY_HEADER_SIZE,
                    ),
                    24,
                ),
            ) matches Some(fmt) && parse_stream(
                data@,
                EBCDIC_HEADER_SIZE + BINARY_HEADER_SIZE,
                fmt,
                be_u16_at(
                    data@.subrange(
                        EBCDIC_HEADER_SIZE as int,
                        EBCDIC_HEADER_SIZE + BINARY_HEADER_SIZE,
                    ),
                    20,
                ),
            ) is None))
        },
{
    let mut reader = SegyReader::new(data);
    let ebcdic_header = match reader.read_ebcdic_header() {
        Ok(h) => h,
        Err(e) => {
            return Err(e);
        },
    };
    let binary_header = match reader.read_binary_header() {
        Ok(h) => h,
        Err(e) => {
            return Err(e);
        },
    };
    let traces = match reader.read_all_traces(&binary_header) {
        Ok(t) => t,
        Err(e) => {
            return Err(e);
        },
    };
    Ok(SegyFile { ebcdic_header: ebcdic_header.text, binary_header, traces })
}

} // verus!
