//! The SEG-Y reading engine: a forward-only cursor over an in-memory byte
//! source, with one reader for each file region and the trace-stream loop.

use vstd::prelude::*;

use crate::ebcdic_syg::{BinaryHeader, EbcdicHeader, Sample, Trace, TraceHeader, TraceModel};
use crate::errors::SegyError;
use crate::format::{decode_samples, decoded_samples, SampleFormat};
use crate::utils::{be_i16_at, be_i32_at, be_u16_at, read_i16_be, read_i32_be, read_u16_be};
use crate::value::{BINARY_HEADER_SIZE, EBCDIC_HEADER_SIZE, TRACE_HEADER_SIZE};

use ebcdic::ebcdic::Ebcdic;

verus! {

/// What `Ebcdic::ebcdic_to_ascii` produces for a source buffer, with
/// non-printable characters mapped to space and the "next line" control
/// character mapped to line-feed: a byte-for-byte table conversion, a
/// function of the source bytes alone.
pub uninterp spec fn ebcdic_ascii(src: Seq<u8>) -> Seq<u8>;

/// What `String::from_utf8_lossy` produces for a byte buffer: the bytes
/// interpreted as UTF-8 text, with invalid sequences replaced rather than
/// rejected; a function of the bytes alone.
pub uninterp spec fn lossy_utf8(bytes: Seq<u8>) -> Seq<char>;

/// Relies on ebcdic::ebcdic::Ebcdic::ebcdic_to_ascii: converts each source
/// byte through a fixed EBCDIC-to-ASCII table into a destination buffer of
/// the same length, mapping non-printable characters to space and the
/// "next line" control character to line-feed.
#[verifier::external_body]
fn ebcdic_to_ascii_bytes(src: &Vec<u8>) -> (r: Vec<u8>)
    ensures
        r@ == ebcdic_ascii(src@),
        r@.len() == src@.len(),
{
    let mut dest = vec![0u8; src.len()];
    Ebcdic::ebcdic_to_ascii(src, &mut dest, src.len(), true, true);
    dest
}

/// Relies on String::from_utf8_lossy: decodes a byte buffer as UTF-8 text,
/// replacing invalid sequences with the replacement character; this never
/// fails.
#[verifier::external_body]
fn bytes_to_string_lossy(bytes: &Vec<u8>) -> (r: String)
    ensures
        r@ == lossy_utf8(bytes@),
{
    String::from_utf8_lossy(bytes).into_owned()
}

/// Whether a byte is printable ASCII or one of the accepted whitespace
/// control characters (line-feed, carriage-return, tab).
pub open spec fn text_byte_ok(b: u8) -> bool {
    (0x20 <= b && b <= 0x7E) || b == 0x0A || b == 0x0D || b == 0x09
}

/// How many bytes of the buffer are printable ASCII or accepted whitespace.
pub open spec fn text_byte_count(s: Seq<u8>) -> int
    decreases s.len(),
{
    if s.len() == 0 {
        0
    } else {
        text_byte_count(s.drop_last()) + if text_byte_ok(s.last()) {
            1int
        } else {
            0int
        }
    }
}

/// Whether the fraction of printable-ASCII-or-whitespace bytes exceeds
/// 80%, stated exactly over the counts.
pub open spec fn mostly_ascii(s: Seq<u8>) -> bool {
    5 * text_byte_count(s) > 4 * s.len()
}

/// The decoded textual header: the buffer taken verbatim when it looks
/// like ASCII, otherwise its EBCDIC-to-ASCII conversion, interpreted as
/// text by a lossy decode.
pub open spec fn text_header_spec(s: Seq<u8>) -> Seq<char> {
    if mostly_ascii(s) {
        lossy_utf8(s)
    } else {
        lossy_utf8(ebcdic_ascii(s))
    }
}

/// Whether `h` holds exactly the fields stored at the fixed offsets of the
/// 400-byte binary header block, with a recognized sample format code.
pub open spec fn binary_header_ok(block: Seq<u8>, h: BinaryHeader) -> bool
    recommends
        block.len() == BINARY_HEADER_SIZE,
{
    &&& h.job_id == be_i32_at(block, 0)
    &&& h.line_number == be_i32_at(block, 4)
    &&& h.reel_number == be_i32_at(block, 8)
    &&& h.sample_interval_us == be_u16_at(block, 16)
    &&& h.samples_per_trace == be_u16_at(block, 20)
    &&& Some(h.sample_format_code) == SampleFormat::spec_from_code(be_u16_at(block, 24))
}

/// The trace header parsed from its fixed 240-byte block.
pub open spec fn spec_trace_header(block: Seq<u8>) -> TraceHeader
    recommends
        block.len() == TRACE_HEADER_SIZE,
{
    TraceHeader {
        trace_sequence_line: be_i32_at(block, 0),
        field_record_number: be_i32_at(block, 8),
        trace_number: be_i32_at(block, 12),
        source_point_number: be_i32_at(block, 16),
        trace_sample_count: be_u16_at(block, 114),
        trace_sample_interval_us: be_u16_at(block, 116),
        trace_sequence_file: be_i32_at(block, 4),
        ensemble_number: be_i32_at(block, 20),
        trace_in_ensemble: be_i32_at(block, 24),
        offset: be_i32_at(block, 36),
        cdp_x: be_i32_at(block, 72),
        cdp_y: be_i32_at(block, 76),
        coord_scalar: be_i16_at(block, 70),
        year_data_recorded: be_u16_at(block, 158),
        day_of_year: be_u16_at(block, 160),
        hour_of_day: be_u16_at(block, 162),
        minute_of_hour: be_u16_at(block, 164),
        second_of_minute: be_u16_at(block, 166),
    }
}

/// The number of samples a trace carries: the trace header's own count,
/// or the file-level default when that count is 0.
pub open spec fn effective_sample_count(h: TraceHeader, default_count: u16) -> u16 {
    if h.trace_sample_count == 0 {
        default_count
    } else {
        h.trace_sample_count
    }
}

/// The payload length in bytes of the trace record starting at `pos`.
pub open spec fn record_payload_len(b: Seq<u8>, pos: int, fmt: SampleFormat, d: u16) -> int {
    effective_sample_count(spec_trace_header(b.subrange(pos, pos + TRACE_HEADER_SIZE)), d)
        * fmt.spec_sample_size()
}

/// Whether a complete trace record — a full 240-byte header and its full
/// payload — lies at `pos`.
pub open spec fn record_ok(b: Seq<u8>, pos: int, fmt: SampleFormat, d: u16) -> bool {
    &&& 0 <= pos
    &&& pos + TRACE_HEADER_SIZE <= b.len()
    &&& pos + TRACE_HEADER_SIZE + record_payload_len(b, pos, fmt, d) <= b.len()
}

/// The position just past the trace record starting at `pos`.
pub open spec fn record_end(b: Seq<u8>, pos: int, fmt: SampleFormat, d: u16) -> int {
    pos + TRACE_HEADER_SIZE + record_payload_len(b, pos, fmt, d)
}

/// The trace decoded from the record starting at `pos`.
pub open spec fn record_trace(b: Seq<u8>, pos: int, fmt: SampleFormat, d: u16) -> TraceModel {
    TraceModel {
        header: spec_trace_header(b.subrange(pos, pos + TRACE_HEADER_SIZE)),
        data_samples: decoded_samples(
            fmt,
            b.subrange(pos + TRACE_HEADER_SIZE, record_end(b, pos, fmt, d)),
        ),
    }
}

/// The trace sequence encoded from `pos` to the end of the source: one
/// trace per complete record, in on-disk order, ending exactly at the end
/// of the source; `None` when the remainder is not such a sequence.
pub open spec fn parse_stream(b: Seq<u8>, pos: int, fmt: SampleFormat, d: u16) -> Option<
    Seq<TraceModel>,
>
    decreases b.len() - pos,
{
    if pos == b.len() {
        Some(Seq::empty())
    } else if !record_ok(b, pos, fmt, d) {
        None
    } else {
        match parse_stream(b, record_end(b, pos, fmt, d), fmt, d) {
            Some(rest) => Some(seq![record_trace(b, pos, fmt, d)] + rest),
            None => None,
        }
    }
}

/// The mathematical content of a trace sequence.
pub open spec fn trace_views(ts: Seq<Trace>) -> Seq<TraceModel> {
    ts.map_values(|t: Trace| t@)
}

/// A reader that decodes SEG-Y structures from an in-memory byte source,
/// advancing a cursor strictly forward.
pub struct SegyReader {
    data: Vec<u8>,
    pos: usize,
}

impl SegyReader {
    /// The whole byte source being decoded.
    pub closed spec fn bytes(&self) -> Seq<u8> {
        self.data@
    }

    /// The current cursor position.
    pub closed spec fn cursor(&self) -> int {
        self.pos as int
    }

    /// The cursor never runs past the end of the source.
    pub open spec fn wf(&self) -> bool {
        0 <= self.cursor() <= self.bytes().len()
    }

    /// How many bytes remain in front of the cursor.
    pub open spec fn remaining(&self) -> int {
        self.bytes().len() - self.cursor()
    }

    /// Creates a new `SegyReader` over an in-memory byte source, with the
    /// cursor at the start.
    pub fn new(data: Vec<u8>) -> (r: SegyReader)
        ensures
            r.bytes() == data@,
            r.cursor() == 0,
            r.wf(),
    {
        SegyReader { data, pos: 0 }
    }

    /// Take the next `n` bytes and advance the cursor past them; fail,
    /// leaving the cursor in place, when fewer than `n` bytes remain.
    fn take(&mut self, n: usize) -> (r: Result<Vec<u8>, SegyError>)
        requires
            old(self).wf(),
        ensures
            final(self).bytes() == old(self).bytes(),
            final(self).wf(),
            r is Ok <==> old(self).remaining() >= n,
            r matches Ok(v) ==> v@ == old(self).bytes().subrange(
                old(self).cursor(),
                old(self).cursor() + n,
            ) && final(self).cursor() == old(self).cursor() + n,
            r is Err ==> final(self).cursor() == old(self).cursor(),
            r matches Err(e) ==> e is ParseError,
    {
        if self.data.len() - self.pos < n {
            return Err(SegyError::ParseError("Unexpected end of data".to_string()));
        }
        let mut v: Vec<u8> = Vec::new();
        let mut i: usize = 0;
        while i < n
            invariant
                self.pos + n <= self.data@.len(),
                self.data@.len() <= usize::MAX,
                i <= n,
                v@ == self.data@.subrange(self.pos as int, self.pos + i),
            decreases n - i,
        {
            v.push(self.data[self.pos + i]);
            proof {
                assert(v@ =~= self.data@.subrange(self.pos as int, self.pos + i + 1));
            }
            i = i + 1;
        }
        self.pos = self.pos + n;
        Ok(v)
    }

    /// Whether more than 80% of the buffer's bytes are printable ASCII or
    /// accepted whitespace; the comparison is exact, with no rounding.
    pub fn is_probably_ascii(buffer: &[u8]) -> (r: bool)
        ensures
            r == mostly_ascii(buffer@),
    {
        let total = buffer.len();
        let mut ascii_count: usize = 0;
        let mut i: usize = 0;
        while i < total
            invariant
                total == buffer@.len(),
                i <= total,
                ascii_count == text_byte_count(buffer@.take(i as int)),
                ascii_count <= i,
            decreases total - i,
        {
            let b = buffer[i];
            proof {
                let s = buffer@.take(i + 1);
                assert(s.drop_last() =~= buffer@.take(i as int));
                assert(s.last() == buffer@[i as int]);
            }
            if (b >= 0x20 && b <= 0x7E) || b == 0x0A || b == 0x0D || b == 0x09 {
                ascii_count = ascii_count + 1;
            }
            i = i + 1;
        }
        proof {
            assert(buffer@.take(total as int) =~= buffer@);
        }
        5 * (ascii_count as u128) > 4 * (total as u128)
    }

    /// Reads the 3200-byte textual header, detecting ASCII against legacy
    /// EBCDIC text and normalizing to a displayable string. Given a full
    /// 3200-byte block this never fails.
    pub fn read_ebcdic_header(&mut self) -> (r: Result<EbcdicHeader, SegyError>)
        requires
            old(self).wf(),
        ensures
            final(self).bytes() == old(self).bytes(),
            final(self).wf(),
            r is Ok <==> old(self).remaining() >= EBCDIC_HEADER_SIZE,
            r matches Ok(h) ==> h.text@ == text_header_spec(
                old(self).bytes().subrange(
                    old(self).cursor(),
                    old(self).cursor() + EBCDIC_HEADER_SIZE,
                ),
            ) && final(self).cursor() == old(self).cursor() + EBCDIC_HEADER_SIZE,
            r is Err ==> final(self).cursor() == old(self).cursor(),
            r matches Err(e) ==> e is ParseError,
    {
        let buffer = match self.take(EBCDIC_HEADER_SIZE) {
            Ok(b) => b,
            Err(e) => {
                return Err(e);
            },
        };
        let ascii_buffer: Vec<u8> = if Self::is_probably_ascii(buffer.as_slice()) {
            buffer
        } else {
            ebcdic_to_ascii_bytes(&buffer)
        };
        let text = bytes_to_string_lossy(&ascii_buffer);
        Ok(EbcdicHeader { text })
    }

    /// Reads the 400-byte binary header, extracting the reel-level fields
    /// at their fixed offsets and validating the sample format code.
    pub fn read_binary_header(&mut self) -> (r: Result<BinaryHeader, SegyError>)
        requires
            old(self).wf(),
        ensures
            final(self).bytes() == old(self).bytes(),
            final(self).wf(),
            r matches Ok(h) ==> old(self).remaining() >= BINARY_HEADER_SIZE && binary_header_ok(
                old(self).bytes().subrange(
                    old(self).cursor(),
                    old(self).cursor() + BINARY_HEADER_SIZE,
                ),
                h,
            ) && final(self).cursor() == old(self).cursor() + BINARY_HEADER_SIZE,
            r matches Err(e) ==> final(self).cursor() == old(self).cursor() && ((e is ParseError
                && old(self).remaining() < BINARY_HEADER_SIZE) || (e matches
            SegyError::UnsupportedSampleFormat(c) && old(self).remaining() >= BINARY_HEADER_SIZE
                && c == be_u16_at(
                old(self).bytes().subrange(
                    old(self).cursor(),
                    old(self).cursor() + BINARY_HEADER_SIZE,
                ),
                24,
            ) && SampleFormat::spec_from_code(c) is None)),
    {
        let saved_pos = self.pos;
        let buffer = match self.take(BINARY_HEADER_SIZE) {
            Ok(b) => b,
            Err(e) => {
                return Err(e);
            },
        };
        let job_id = read_i32_be(buffer.as_slice(), 0)?;
        let line_number = read_i32_be(buffer.as_slice(), 4)?;
        let reel_number = read_i32_be(buffer.as_slice(), 8)?;
        let sample_interval_us = read_u16_be(buffer.as_slice(), 16)?;
        let samples_per_trace = read_u16_be(buffer.as_slice(), 20)?;
        let format_code_raw = read_u16_be(buffer.as_slice(), 24)?;
        let sample_format_code = match SampleFormat::from_code(format_code_raw) {
            Ok(f) => f,
            Err(e) => {
                self.pos = saved_pos;
                return Err(e);
            },
        };
        Ok(
            BinaryHeader {
                job_id,
                line_number,
                reel_number,
                sample_format_code,
                samples_per_trace,
                sample_interval_us,
            },
        )
    }

    /// Reads the fixed 240-byte trace header, parsing its named fields at
    /// their fixed offsets.
    pub fn read_trace_header(&mut self) -> (r: Result<TraceHeader, SegyError>)
        requires
            old(self).wf(),
        ensures
            final(self).bytes() == old(self).bytes(),
            final(self).wf(),
            r is Ok <==> old(self).remaining() >= TRACE_HEADER_SIZE,
            r matches Ok(h) ==> h == spec_trace_header(
                old(self).bytes().subrange(
                    old(self).cursor(),
                    old(self).cursor() + TRACE_HEADER_SIZE,
                ),
            ) && final(self).cursor() == old(self).cursor() + TRACE_HEADER_SIZE,
            r is Err ==> final(self).cursor() == old(self).cursor(),
            r matches Err(e) ==> e is ParseError,
    {
        let buffer = match self.take(TRACE_HEADER_SIZE) {
            Ok(b) => b,
            Err(e) => {
                return Err(e);
            },
        };
        let trace_sequence_line = read_i32_be(buffer.as_slice(), 0)?;
        let field_record_number = read_i32_be(buffer.as_slice(), 8)?;
        let trace_number = read_i32_be(buffer.as_slice(), 12)?;
        let source_point_number = read_i32_be(buffer.as_slice(), 16)?;
        let trace_sample_count = read_u16_be(buffer.as_slice(), 114)?;
        let trace_sample_interval_us = read_u16_be(buffer.as_slice(), 116)?;
        let trace_sequence_file = read_i32_be(buffer.as_slice(), 4)?;
        let ensemble_number = read_i32_be(buffer.as_slice(), 20)?;
        let trace_in_ensemble = read_i32_be(buffer.as_slice(), 24)?;
        let offset = read_i32_be(buffer.as_slice(), 36)?;
        let coord_scalar = read_i16_be(buffer.as_slice(), 70)?;
        let cdp_x = read_i32_be(buffer.as_slice(), 72)?;
        let cdp_y = read_i32_be(buffer.as_slice(), 76)?;
        let year_data_recorded = read_u16_be(buffer.as_slice(), 158)?;
        let day_of_year = read_u16_be(buffer.as_slice(), 160)?;
        let hour_of_day = read_u16_be(buffer.as_slice(), 162)?;
        let minute_of_hour = read_u16_be(buffer.as_slice(), 164)?;
        let second_of_minute = read_u16_be(buffer.as_slice(), 166)?;
        Ok(
            TraceHeader {
                trace_sequence_line,
                field_record_number,
                trace_number,
                source_point_number,
                trace_sample_count,
                trace_sample_interval_us,
                trace_sequence_file,
                ensemble_number,
                trace_in_ensemble,
                offset,
                cdp_x,
                cdp_y,
                coord_scalar,
                year_data_recorded,
                day_of_year,
                hour_of_day,
                minute_of_hour,
                second_of_minute,
            },
        )
    }

    /// Reads the sample payload of one trace and decodes it with the
    /// sample codec.
    fn read_trace_data(&mut self, sample_format: SampleFormat, samples_in_trace: u16) -> (r:
        Result<Vec<Sample>, SegyError>)
        requires
            old(self).wf(),
        ensures
            final(self).bytes() == old(self).bytes(),
            final(self).wf(),
            r is Ok <==> old(self).remaining() >= samples_in_trace
                * sample_format.spec_sample_size(),
            r matches Ok(v) ==> v@ == decoded_samples(
                sample_format,
                old(self).bytes().subrange(
                    old(self).cursor(),
                    old(self).cursor() + samples_in_trace * sample_format.spec_sample_size(),
                ),
            ) && v@.len() == samples_in_trace && final(self).cursor() == old(self).cursor()
                + samples_in_trace * sample_format.spec_sample_size(),
            r is Err ==> final(self).cursor() == old(self).cursor(),
            r matches Err(e) ==> e is ParseError,
    {
        let sample_count = samples_in_trace as usize;
        let sample_size = sample_format.sample_size();
        let byte_len = sample_count * sample_size;
        let buffer = match self.take(byte_len) {
            Ok(b) => b,
            Err(e) => {
                return Err(e);
            },
        };
        proof {
            vstd::arithmetic::div_mod::lemma_mod_multiples_basic(
                sample_count as int,
                sample_size as int,
            );
        }
        let data_samples = decode_samples(sample_format, buffer.as_slice());
        proof {
            assert(data_samples@.len() * sample_size as int == sample_count * sample_size as int);
            assert(data_samples@.len() == sample_count) by (nonlinear_arith)
                requires
                    data_samples@.len() * sample_size as int == sample_count * sample_size as int,
                    sample_size as int > 0,
            ;
        }
        Ok(data_samples)
    }

    /// Reads one SEG-Y trace (header + data). A trace header carrying a
    /// sample count of 0 takes the file-level default count instead.
    pub fn read_trace(&mut self, sample_format: SampleFormat, default_samples_per_trace: u16) -> (r:
        Result<Trace, SegyError>)
        requires
            old(self).wf(),
        ensures
            final(self).bytes() == old(self).bytes(),
            final(self).wf(),
            r is Ok <==> record_ok(
                old(self).bytes(),
                old(self).cursor(),
                sample_format,
                default_samples_per_trace,
            ),
            r matches Ok(t) ==> t@ == record_trace(
                old(self).bytes(),
                old(self).cursor(),
                sample_format,
                default_samples_per_trace,
            ) && final(self).cursor() == record_end(
                old(self).bytes(),
                old(self).cursor(),
                sample_format,
                default_samples_per_trace,
            ) && t.data_samples@.len() == effective_sample_count(
                t.header,
                default_samples_per_trace,
            ),
            r is Err ==> final(self).cursor() == old(self).cursor(),
            r matches Err(e) ==> e is ParseError,
    {
        let saved_pos = self.pos;
        let header = match self.read_trace_header() {
            Ok(h) => h,
            Err(e) => {
                return Err(e);
            },
        };
        let samples_in_trace = if header.trace_sample_count == 0 {
            default_samples_per_trace
        } else {
            header.trace_sample_count
        };
        let data_samples = match self.read_trace_data(sample_format, samples_in_trace) {
            Ok(v) => v,
            Err(e) => {
                self.pos = saved_pos;
                return Err(e);
            },
        };
        Ok(Trace { header, data_samples })
    }

    /// Reads all traces from the current position until the cleanly
    /// exhausted end of the source. Ending exactly at a record boundary is
    /// the only non-error termination; any shorter leftover is corruption.
    pub fn read_all_traces(&mut self, binary_header: &BinaryHeader) -> (r: Result<
        Vec<Trace>,
        SegyError,
    >)
        requires
            old(self).wf(),
        ensures
            final(self).bytes() == old(self).bytes(),
            final(self).wf(),
            r matches Ok(ts) ==> parse_stream(
                old(self).bytes(),
                old(self).cursor(),
                binary_header.sample_format_code,
                binary_header.samples_per_trace,
            ) == Some(trace_views(ts@)) && final(self).cursor() == old(self).bytes().len(),
            r matches Err(e) ==> parse_stream(
                old(self).bytes(),
                old(self).cursor(),
                binary_header.sample_format_code,
                binary_header.samples_per_trace,
            ) is None && e is ParseError,
    {
        let fmt = binary_header.sample_format_code;
        let d = binary_header.samples_per_trace;
        let ghost b = self.bytes();
        let ghost pos0 = self.cursor();
        let mut traces: Vec<Trace> = Vec::new();
        while self.pos < self.data.len()
            invariant
                self.wf(),
                self.bytes() == b,
                b == old(self).bytes(),
                pos0 == old(self).cursor(),
                fmt == binary_header.sample_format_code,
                d == binary_header.samples_per_trace,
                parse_stream(b, self.cursor(), fmt, d) matches Some(rest) ==> parse_stream(
                    b,
                    pos0,
                    fmt,
                    d,
                ) == Some(trace_views(traces@) + rest),
                parse_stream(b, self.cursor(), fmt, d) is None ==> parse_stream(
                    b,
                    pos0,
                    fmt,
                    d,
                ) is None,
            decreases b.len() - self.cursor(),
        {
            let ghost cur = self.cursor();
            let t = match self.read_trace(fmt, d) {
                Ok(t) => t,
                Err(e) => {
                    return Err(e);
                },
            };
            proof {
                let ghost end = record_end(b, cur, fmt, d);
                let ghost old_views = trace_views(traces@);
                assert(trace_views(traces@.push(t)) =~= old_views.push(t@));
                if parse_stream(b, end, fmt, d) is Some {
                    let rest = parse_stream(b, end, fmt, d)->Some_0;
                    assert(parse_stream(b, cur, fmt, d) == Some(seq![t@] + rest));
                    assert(old_views + (seq![t@] + rest) =~= old_views.push(t@) + rest);
                }
            }
            traces.push(t);
        }
        proof {
            assert(parse_stream(b, self.cursor(), fmt, d) == Some(Seq::<TraceModel>::empty()));
            assert(trace_views(traces@) + Seq::<TraceModel>::empty() =~= trace_views(traces@));
        }
        Ok(traces)
    }
}

/// Exactly `k` complete trace records lie consecutively at `pos`, with
/// `tail` bytes left over after the last record.
pub open spec fn records_then_tail(
    b: Seq<u8>,
    pos: int,
    fmt: SampleFormat,
    d: u16,
    k: nat,
    tail: int,
) -> bool
    decreases k,
{
    if k == 0 {
        b.len() - pos == tail
    } else {
        record_ok(b, pos, fmt, d) && records_then_tail(
            b,
            record_end(b, pos, fmt, d),
            fmt,
            d,
            (k - 1) as nat,
            tail,
        )
    }
}

/// The traces of `k` consecutive records starting at `pos`, in on-disk
/// order.
pub open spec fn records_traces(b: Seq<u8>, pos: int, fmt: SampleFormat, d: u16, k: nat) -> Seq<
    TraceModel,
>
    decreases k,
{
    if k == 0 {
        Seq::empty()
    } else {
        seq![record_trace(b, pos, fmt, d)] + records_traces(
            b,
            record_end(b, pos, fmt, d),
            fmt,
            d,
            (k - 1) as nat,
        )
    }
}

/// Law: a byte source holding exactly `k` complete trace records followed
/// by zero additional bytes parses to exactly those `k` traces, in on-disk
/// order, with clean termination.
pub proof fn lemma_complete_records_parse(b: Seq<u8>, pos: int, fmt: SampleFormat, d: u16, k: nat)
    requires
        records_then_tail(b, pos, fmt, d, k, 0),
    ensures
        parse_stream(b, pos, fmt, d) == Some(records_traces(b, pos, fmt, d, k)),
        records_traces(b, pos, fmt, d, k).len() == k,
    decreases k,
{
    if k == 0 {
        assert(pos == b.len());
    } else {
        lemma_complete_records_parse(b, record_end(b, pos, fmt, d), fmt, d, (k - 1) as nat);
    }
}

/// Law: a byte source holding `k` complete trace records followed by a
/// stray leftover — at least one byte but less than a full trace header —
/// fails to parse rather than silently truncating to `k` traces.
pub proof fn lemma_stray_tail_fails(
    b: Seq<u8>,
    pos: int,
    fmt: SampleFormat,
    d: u16,
    k: nat,
    tail: int,
)
    requires
        records_then_tail(b, pos, fmt, d, k, tail),
        0 < tail < TRACE_HEADER_SIZE,
    ensures
        parse_stream(b, pos, fmt, d) is None,
    decreases k,
{
    if k > 0 {
        lemma_stray_tail_fails(b, record_end(b, pos, fmt, d), fmt, d, (k - 1) as nat, tail);
    }
}

} // verus!
