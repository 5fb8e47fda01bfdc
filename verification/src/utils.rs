//! Bounds-checked big-endian field extraction from byte buffers, and the
//! IBM base-16 floating-point to IEEE-754 bit-pattern conversion.

use vstd::prelude::*;

use crate::errors::SegyError;

verus! {

/// The unsigned 16-bit value stored big-endian at `off` in `b`.
pub open spec fn be_u16_at(b: Seq<u8>, off: int) -> u16
    recommends
        0 <= off,
        off + 2 <= b.len(),
{
    (b[off] * 256 + b[off + 1]) as u16
}

/// The unsigned 32-bit value stored big-endian at `off` in `b`, as an integer.
pub open spec fn be_u32_at(b: Seq<u8>, off: int) -> int
    recommends
        0 <= off,
        off + 4 <= b.len(),
{
    b[off] * 0x100_0000 + b[off + 1] * 0x1_0000 + b[off + 2] * 0x100 + b[off + 3]
}

/// Reinterpret an unsigned 32-bit value as two's-complement signed.
pub open spec fn as_signed_32(v: int) -> int
    recommends
        0 <= v < 0x1_0000_0000,
{
    if v >= 0x8000_0000 {
        v - 0x1_0000_0000
    } else {
        v
    }
}

/// Reinterpret an unsigned 16-bit value as two's-complement signed.
pub open spec fn as_signed_16(v: int) -> int
    recommends
        0 <= v < 0x1_0000,
{
    if v >= 0x8000 {
        v - 0x1_0000
    } else {
        v
    }
}

/// Reinterpret an unsigned byte as two's-complement signed.
pub open spec fn as_signed_8(v: u8) -> int {
    if v >= 0x80 {
        v - 0x100
    } else {
        v as int
    }
}

/// The signed 32-bit value stored big-endian at `off` in `b`.
pub open spec fn be_i32_at(b: Seq<u8>, off: int) -> i32
    recommends
        0 <= off,
        off + 4 <= b.len(),
{
    as_signed_32(be_u32_at(b, off)) as i32
}

/// The signed 16-bit value stored big-endian at `off` in `b`.
pub open spec fn be_i16_at(b: Seq<u8>, off: int) -> i16
    recommends
        0 <= off,
        off + 2 <= b.len(),
{
    as_signed_16(b[off] * 256 + b[off + 1]) as i16
}

/// Read a big-endian `i32` from the given buffer at the specified offset.
pub fn read_i32_be(buffer: &[u8], offset: usize) -> (r: Result<i32, SegyError>)
    ensures
        r is Ok <==> offset + 4 <= buffer@.len(),
        r matches Ok(v) ==> v == be_i32_at(buffer@, offset as int),
        r matches Err(e) ==> e is ParseError,
{
    if offset >= buffer.len() || buffer.len() - offset < 4 {
        return Err(SegyError::ParseError("Not enough bytes to read i32".to_string()));
    }
    let b0 = buffer[offset];
    let b1 = buffer[offset + 1];
    let b2 = buffer[offset + 2];
    let b3 = buffer[offset + 3];
    let u: u32 = (b0 as u32) * 0x100_0000 + (b1 as u32) * 0x1_0000 + (b2 as u32) * 0x100 + (
    b3 as u32);
    let wide: i64 = u as i64;
    let v: i64 = if wide >= 0x8000_0000 {
        wide - 0x1_0000_0000
    } else {
        wide
    };
    Ok(v as i32)
}

/// Read a big-endian `u16` from the given buffer at the specified offset.
pub fn read_u16_be(buffer: &[u8], offset: usize) -> (r: Result<u16, SegyError>)
    ensures
        r is Ok <==> offset + 2 <= buffer@.len(),
        r matches Ok(v) ==> v == be_u16_at(buffer@, offset as int),
        r matches Err(e) ==> e is ParseError,
{
    if offset >= buffer.len() || buffer.len() - offset < 2 {
        return Err(SegyError::ParseError("Not enough bytes to read u16".to_string()));
    }
    let hi = buffer[offset];
    let lo = buffer[offset + 1];
    Ok((hi as u16) * 256 + (lo as u16))
}

/// Read a big-endian `i16` from the given buffer at the specified offset.
pub fn read_i16_be(buffer: &[u8], offset: usize) -> (r: Result<i16, SegyError>)
    ensures
        r is Ok <==> offset + 2 <= buffer@.len(),
        r matches Ok(v) ==> v == be_i16_at(buffer@, offset as int),
        r matches Err(e) ==> e is ParseError,
{
    if offset >= buffer.len() || buffer.len() - offset < 2 {
        return Err(SegyError::ParseError("Not enough bytes to read i16".to_string()));
    }
    let hi = buffer[offset];
    let lo = buffer[offset + 1];
    let u: u16 = (hi as u16) * 256 + (lo as u16);
    let wide: i32 = u as i32;
    let v: i32 = if wide >= 0x8000 {
        wide - 0x1_0000
    } else {
        wide
    };
    Ok(v as i16)
}

/// The 24-bit fraction of an IBM float: bytes 1 to 3, big-endian.
pub open spec fn ibm_fraction(b: Seq<u8>) -> int
    recommends
        b.len() == 4,
{
    b[1] * 0x1_0000 + b[2] * 0x100 + b[3]
}

/// The base-16 exponent of an IBM float, rebased to base 2: the low seven
/// bits of byte 0, biased by 64, scaled by 4.
pub open spec fn ibm_exponent(b: Seq<u8>) -> int
    recommends
        b.len() == 4,
{
    ((b[0] % 0x80) - 64) * 4
}

/// The fraction after normalization: doubled until bit 23 is set.
pub open spec fn normalized_fraction(f: int) -> int
    decreases
            (if 0 < f < 0x80_0000 {
                0x80_0000 - f
            } else {
                0
            }),
{
    if 0 < f < 0x80_0000 {
        normalized_fraction(f * 2)
    } else {
        f
    }
}

/// The exponent after normalization: decremented once per doubling of the
/// fraction.
pub open spec fn normalized_exponent(f: int, e: int) -> int
    decreases
            (if 0 < f < 0x80_0000 {
                0x80_0000 - f
            } else {
                0
            }),
{
    if 0 < f < 0x80_0000 {
        normalized_exponent(f * 2, e - 1)
    } else {
        e
    }
}

/// Normalization never raises the exponent.
pub proof fn lemma_normalized_exponent_le(f: int, e: int)
    requires
        0 < f,
    ensures
        normalized_exponent(f, e) <= e,
    decreases
            (if f < 0x80_0000 {
                0x80_0000 - f
            } else {
                0
            }),
{
    if f < 0x80_0000 {
        lemma_normalized_exponent_le(f * 2, e - 1);
    }
}

/// Normalization lowers the exponent by less than the gap between the
/// fraction and bit 23, since the fraction at least doubles on every step.
pub proof fn lemma_normalized_exponent_ge(f: int, e: int)
    requires
        0 < f < 0x100_0000,
    ensures
        normalized_exponent(f, e) >= e - 0x80_0000 + (if f < 0x80_0000 {
            f
        } else {
            0x80_0000
        }),
    decreases
            (if f < 0x80_0000 {
                0x80_0000 - f
            } else {
                0
            }),
{
    if f < 0x80_0000 {
        lemma_normalized_exponent_ge(f * 2, e - 1);
    }
}

/// The IEEE-754 single-precision bit pattern equivalent to an IBM float:
/// sign bit, the normalized exponent biased by 126 (the normalized
/// fraction over bit 23 lies in [1/2, 1), one binary place below IEEE's
/// implicit leading 1), and the normalized fraction with bit 23 masked
/// off. This conversion is exact: the 24 normalized fraction bits map
/// one-for-one onto IEEE's implicit bit plus 23 explicit bits. An all-zero
/// fraction gives exactly 0.0 regardless of sign and exponent; a value
/// beyond IEEE single range clamps to the infinity of its sign, and one
/// below it to the zero of its sign.
pub open spec fn ibm_bits(b: Seq<u8>) -> u32
    recommends
        b.len() == 4,
{
    let f0 = ibm_fraction(b);
    if f0 == 0 {
        0u32
    } else {
        let nf = normalized_fraction(f0);
        let ne = normalized_exponent(f0, ibm_exponent(b));
        let eb = ne + 126;
        let sign_bit: u32 = if b[0] >= 0x80 {
            0x8000_0000u32
        } else {
            0u32
        };
        if eb >= 255 {
            (sign_bit + 0x7F80_0000) as u32
        } else if eb <= 0 {
            sign_bit
        } else {
            (sign_bit + eb * 0x80_0000 + (nf - 0x80_0000)) as u32
        }
    }
}

/// Convert one 4-byte IBM base-16 float into the equivalent IEEE-754
/// single-precision bit pattern. Fails only when the slice is not exactly
/// 4 bytes long.
pub fn ibm_to_ieee_bits(bytes: &[u8]) -> (r: Result<u32, SegyError>)
    ensures
        r is Ok <==> bytes@.len() == 4,
        r matches Ok(v) ==> v == ibm_bits(bytes@),
        r matches Err(e) ==> e is IbmFloatConversionError,
{
    if bytes.len() != 4 {
        return Err(SegyError::IbmFloatConversionError);
    }
    let mut fraction: u32 = (bytes[1] as u32) * 0x1_0000 + (bytes[2] as u32) * 0x100 + (
    bytes[3] as u32);
    if fraction == 0 {
        return Ok(0);
    }
    let sign: bool = bytes[0] >= 0x80;
    let mut exponent: i32 = ((bytes[0] % 0x80) as i32 - 64) * 4;
    let ghost f0: int = fraction as int;
    let ghost e0: int = exponent as int;
    let ghost ne0: int = normalized_exponent(f0, e0);
    proof {
        lemma_normalized_exponent_le(f0, e0);
        lemma_normalized_exponent_ge(f0, e0);
    }
    while fraction < 0x80_0000
        invariant
            0 < fraction < 0x100_0000,
            normalized_fraction(fraction as int) == normalized_fraction(f0),
            normalized_exponent(fraction as int, exponent as int) == ne0,
            -0x81_0000 <= ne0 <= exponent <= 252,
        decreases 0x100_0000 - fraction,
    {
        proof {
            assert(normalized_fraction(fraction as int) == normalized_fraction(
                fraction as int * 2,
            ));
            assert(normalized_exponent(fraction as int, exponent as int) == normalized_exponent(
                fraction as int * 2,
                exponent as int - 1,
            ));
            lemma_normalized_exponent_le(fraction as int * 2, exponent as int - 1);
        }
        fraction = fraction * 2;
        exponent = exponent - 1;
    }
    proof {
        assert(normalized_fraction(fraction as int) == fraction as int);
        assert(normalized_exponent(fraction as int, exponent as int) == exponent as int);
    }
    let e_biased: i32 = exponent + 126;
    let sign_bit: u32 = if sign {
        0x8000_0000
    } else {
        0
    };
    let bits: u32 = if e_biased >= 255 {
        sign_bit + 0x7F80_0000
    } else if e_biased <= 0 {
        sign_bit
    } else {
        sign_bit + (e_biased as u32) * 0x80_0000 + (fraction - 0x80_0000)
    };
    Ok(bits)
}

} // verus!
