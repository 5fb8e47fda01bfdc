//! SEG-Y sample formats and the sample codec: one decode rule per declared
//! format, shared by every call site.

use vstd::prelude::*;

use crate::ebcdic_syg::Sample;
use crate::errors::SegyError;
use crate::utils::{as_signed_8, be_i16_at, be_i32_at, be_u32_at, ibm_bits};

verus! {

/// SEG-Y sample formats.
#[derive(Debug, Clone, Copy, PartialEq, Eq, Structural)]
pub enum SampleFormat {
    /// 1 = IBM float (32-bit)
    IbmFloat,
    /// 2 = 32-bit integer
    Int32,
    /// 3 = 16-bit integer
    Int16,
    /// 5 = IEEE float (32-bit)
    IeeeFloat,
    /// 8 = 8-bit integer
    Int8,
}

impl SampleFormat {
    /// The format denoted by a raw format code, if the code is recognized.
    pub open spec fn spec_from_code(code: u16) -> Option<SampleFormat> {
        if code == 1 {
            Some(SampleFormat::IbmFloat)
        } else if code == 2 {
            Some(SampleFormat::Int32)
        } else if code == 3 {
            Some(SampleFormat::Int16)
        } else if code == 5 {
            Some(SampleFormat::IeeeFloat)
        } else if code == 8 {
            Some(SampleFormat::Int8)
        } else {
            None
        }
    }

    pub fn from_code(code: u16) -> (r: Result<Self, SegyError>)
        ensures
            r matches Ok(f) ==> Self::spec_from_code(code) == Some(f),
            r matches Err(e) ==> Self::spec_from_code(code) is None && e
                == SegyError::UnsupportedSampleFormat(code),
    {
        match code {
            1 => Ok(SampleFormat::IbmFloat),
            2 => Ok(SampleFormat::Int32),
            3 => Ok(SampleFormat::Int16),
            5 => Ok(SampleFormat::IeeeFloat),
            8 => Ok(SampleFormat::Int8),
            _ => Err(SegyError::UnsupportedSampleFormat(code)),
        }
    }

    /// The size in bytes of each sample for the given format.
    pub open spec fn spec_sample_size(self) -> int {
        match self {
            SampleFormat::IbmFloat => 4,
            SampleFormat::Int32 => 4,
            SampleFormat::Int16 => 2,
            SampleFormat::IeeeFloat => 4,
            SampleFormat::Int8 => 1,
        }
    }

    /// Returns the size in bytes of each sample for the given format.
    pub fn sample_size(&self) -> (r: usize)
        ensures
            r == self.spec_sample_size(),
    {
        match self {
            SampleFormat::IbmFloat => 4,
            SampleFormat::Int32 => 4,
            SampleFormat::Int16 => 2,
            SampleFormat::IeeeFloat => 4,
            SampleFormat::Int8 => 1,
        }
    }
}

/// The sample decoded from one sample-width chunk: IBM floats become the
/// IEEE-754 bit pattern of their conversion, IEEE floats their own bit
/// pattern, and the integer formats the exact big-endian two's-complement
/// value.
pub open spec fn decoded_sample(format: SampleFormat, chunk: Seq<u8>) -> Sample
    recommends
        chunk.len() == format.spec_sample_size(),
{
    match format {
        SampleFormat::IbmFloat => Sample::FloatBits(ibm_bits(chunk)),
        SampleFormat::Int32 => Sample::Int(be_i32_at(chunk, 0)),
        SampleFormat::Int16 => Sample::Int(be_i16_at(chunk, 0) as i32),
        SampleFormat::IeeeFloat => Sample::FloatBits(be_u32_at(chunk, 0) as u32),
        SampleFormat::Int8 => Sample::Int(as_signed_8(chunk[0]) as i32),
    }
}

/// The ordered sample sequence decoded from a byte run: one sample per
/// sample-width chunk, in order.
pub open spec fn decoded_samples(format: SampleFormat, bytes: Seq<u8>) -> Seq<Sample> {
    Seq::new(
        (bytes.len() as int / format.spec_sample_size()) as nat,
        |i: int|
            decoded_sample(
                format,
                bytes.subrange(i * format.spec_sample_size(), (i + 1) * format.spec_sample_size()),
            ),
    )
}

/// Decode a byte run whose length is an exact multiple of the format's
/// sample width into one sample per chunk, preserving order.
pub fn decode_samples(format: SampleFormat, bytes: &[u8]) -> (r: Vec<Sample>)
    requires
        bytes@.len() as int % format.spec_sample_size() == 0,
    ensures
        r@ == decoded_samples(format, bytes@),
        r@.len() * format.spec_sample_size() == bytes@.len(),
{
    let width = format.sample_size();
    let count = bytes.len() / width;
    let mut samples: Vec<Sample> = Vec::new();
    let mut i: usize = 0;
    proof {
        vstd::arithmetic::div_mod::lemma_fundamental_div_mod(bytes@.len() as int, width as int);
    }
    while i < count
        invariant
            0 < width == format.spec_sample_size(),
            count == bytes@.len() as int / width as int,
            count * width == bytes@.len(),
            bytes@.len() <= usize::MAX,
            i <= count,
            samples@.len() == i,
            forall|j: int|
                0 <= j < i ==> samples@[j] == decoded_sample(
                    format,
                    bytes@.subrange(j * width, (j + 1) * width),
                ),
        decreases count - i,
    {
        proof {
            assert(i * width + width <= count * width) by (nonlinear_arith)
                requires
                    i + 1 <= count,
                    width > 0,
            ;
            assert(i * width >= 0) by (nonlinear_arith)
                requires
                    i >= 0,
                    width > 0,
            ;
        }
        let off = i * width;
        let sample = match format {
            SampleFormat::IbmFloat => {
                let bits = decode_ibm_chunk(bytes, off);
                Sample::FloatBits(bits)
            },
            SampleFormat::Int32 => {
                let b0 = bytes[off];
                let b1 = bytes[off + 1];
                let b2 = bytes[off + 2];
                let b3 = bytes[off + 3];
                let u: u32 = (b0 as u32) * 0x100_0000 + (b1 as u32) * 0x1_0000 + (b2 as u32)
                    * 0x100 + (b3 as u32);
                let wide: i64 = u as i64;
                let v: i64 = if wide >= 0x8000_0000 {
                    wide - 0x1_0000_0000
                } else {
                    wide
                };
                Sample::Int(v as i32)
            },
            SampleFormat::Int16 => {
                let u: u32 = (bytes[off] as u32) * 256 + (bytes[off + 1] as u32);
                let v: i32 = if u >= 0x8000 {
                    (u as i32) - 0x1_0000
                } else {
                    u as i32
                };
                Sample::Int(v)
            },
            SampleFormat::IeeeFloat => {
                let b0 = bytes[off];
                let b1 = bytes[off + 1];
                let b2 = bytes[off + 2];
                let b3 = bytes[off + 3];
                let u: u32 = (b0 as u32) * 0x100_0000 + (b1 as u32) * 0x1_0000 + (b2 as u32)
                    * 0x100 + (b3 as u32);
                Sample::FloatBits(u)
            },
            SampleFormat::Int8 => {
                let b = bytes[off];
                let v: i32 = if b >= 0x80 {
                    (b as i32) - 0x100
                } else {
                    b as i32
                };
                Sample::Int(v)
            },
        };
        proof {
            assert(sample == decoded_sample(
                format,
                bytes@.subrange(i * width, (i + 1) * width),
            ));
        }
        samples.push(sample);
        i = i + 1;
    }
    proof {
        assert(samples@ =~= decoded_samples(format, bytes@));
    }
    samples
}

/// Decode the 4-byte IBM float chunk starting at `off`.
fn decode_ibm_chunk(bytes: &[u8], off: usize) -> (r: u32)
    requires
        off + 4 <= bytes@.len(),
    ensures
        r == ibm_bits(bytes@.subrange(off as int, off as int + 4)),
{
    let _len: usize = bytes.len();
    let chunk: &[u8] = &bytes[off..off + 4];
    match crate::utils::ibm_to_ieee_bits(chunk) {
        Ok(bits) => bits,
        Err(_) => 0,
    }
}

} // verus!
