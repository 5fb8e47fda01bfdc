use segy::ebcdic_syg::Sample;
use segy::errors::SegyError;
use segy::format::{decode_samples, SampleFormat};
use segy::read_segy_from_bytes;
use segy::reader::SegyReader;

fn put_u16(buf: &mut [u8], off: usize, v: u16) {
    let b = v.to_be_bytes();
    buf[off] = b[0];
    buf[off + 1] = b[1];
}

fn put_i32(buf: &mut [u8], off: usize, v: i32) {
    let b = v.to_be_bytes();
    for i in 0..4 {
        buf[off + i] = b[i];
    }
}

/// A 400-byte binary header block with the given format code and default
/// sample count.
fn binary_block(format_code: u16, samples_per_trace: u16) -> Vec<u8> {
    let mut block = vec![0u8; 400];
    put_i32(&mut block, 0, 77);
    put_i32(&mut block, 4, 12);
    put_i32(&mut block, 8, 3);
    put_u16(&mut block, 16, 2000);
    put_u16(&mut block, 20, samples_per_trace);
    put_u16(&mut block, 24, format_code);
    block
}

/// A 240-byte trace header block with the given trace number and sample
/// count.
fn trace_header_block(trace_number: i32, sample_count: u16) -> Vec<u8> {
    let mut block = vec![0u8; 240];
    put_i32(&mut block, 0, 1);
    put_i32(&mut block, 4, 2);
    put_i32(&mut block, 8, 9);
    put_i32(&mut block, 12, trace_number);
    put_i32(&mut block, 16, 4);
    put_i32(&mut block, 20, 5);
    put_i32(&mut block, 24, 6);
    put_i32(&mut block, 36, -150);
    put_u16(&mut block, 70, 0xFFFF);
    put_i32(&mut block, 72, 1000);
    put_i32(&mut block, 76, 2000);
    put_u16(&mut block, 114, sample_count);
    put_u16(&mut block, 116, 2000);
    put_u16(&mut block, 158, 1999);
    put_u16(&mut block, 160, 321);
    put_u16(&mut block, 162, 23);
    put_u16(&mut block, 164, 59);
    put_u16(&mut block, 166, 58);
    block
}

fn ascii_text_block() -> Vec<u8> {
    vec![b'C'; 3200]
}

#[test]
fn text_header_ascii_is_kept_verbatim() {
    let mut reader = SegyReader::new(ascii_text_block());
    let h = reader.read_ebcdic_header().unwrap();
    assert_eq!(h.text, "C".repeat(3200));
}

#[test]
fn text_header_ebcdic_is_converted() {
    // 0xC1 is the EBCDIC letter 'A'; a buffer of it is nowhere near 80%
    // printable ASCII, so the legacy conversion runs.
    let mut reader = SegyReader::new(vec![0xC1u8; 3200]);
    let h = reader.read_ebcdic_header().unwrap();
    assert_eq!(h.text, "A".repeat(3200));
}

#[test]
fn text_header_non_printable_ebcdic_becomes_spaces() {
    let mut reader = SegyReader::new(vec![0x00u8; 3200]);
    let h = reader.read_ebcdic_header().unwrap();
    assert_eq!(h.text, " ".repeat(3200));
}

#[test]
fn text_header_threshold_is_strictly_above_80_percent() {
    // 2561 of 3200 printable bytes is just above 80%: kept verbatim, with
    // the invalid trailing bytes replaced by the lossy decode.
    let mut data = vec![b'A'; 2561];
    data.extend(vec![0xFFu8; 639]);
    let mut reader = SegyReader::new(data);
    let h = reader.read_ebcdic_header().unwrap();
    let expected = format!("{}{}", "A".repeat(2561), "\u{FFFD}".repeat(639));
    assert_eq!(h.text, expected);

    // 2560 of 3200 is exactly 80%: not above the threshold, so the buffer
    // goes through the EBCDIC conversion instead (ASCII 'A' bytes land on a
    // non-printable EBCDIC slot and become spaces).
    let mut data = vec![b'A'; 2560];
    data.extend(vec![0x00u8; 640]);
    let mut reader = SegyReader::new(data);
    let h = reader.read_ebcdic_header().unwrap();
    assert_eq!(h.text, " ".repeat(3200));
}

#[test]
fn text_header_short_buffer_fails() {
    let mut reader = SegyReader::new(vec![b'A'; 3199]);
    assert!(matches!(
        reader.read_ebcdic_header(),
        Err(SegyError::ParseError(_))
    ));
}

#[test]
fn is_probably_ascii_counts_exactly() {
    assert!(SegyReader::is_probably_ascii(b"hello\nworld\t\r"));
    assert!(!SegyReader::is_probably_ascii(&[0x00u8; 32]));
    assert!(!SegyReader::is_probably_ascii(&[]));
    // 5 printable bytes out of 6 is above 80%; 4 of 5 is exactly 80% and
    // does not pass.
    assert!(SegyReader::is_probably_ascii(&[b'a', b'b', b'c', b'd', b'e', 0x00]));
    assert!(!SegyReader::is_probably_ascii(&[b'a', b'b', b'c', b'd', 0x00]));
}

#[test]
fn binary_header_fields_parse_at_fixed_offsets() {
    let mut reader = SegyReader::new(binary_block(3, 500));
    let h = reader.read_binary_header().unwrap();
    assert_eq!(h.job_id, 77);
    assert_eq!(h.line_number, 12);
    assert_eq!(h.reel_number, 3);
    assert_eq!(h.sample_interval_us, 2000);
    assert_eq!(h.samples_per_trace, 500);
    assert!(matches!(h.sample_format_code, SampleFormat::Int16));
}

#[test]
fn binary_header_unknown_format_code_carries_the_code() {
    let mut reader = SegyReader::new(binary_block(99, 500));
    assert!(matches!(
        reader.read_binary_header(),
        Err(SegyError::UnsupportedSampleFormat(99))
    ));
}

#[test]
fn format_codes_map_to_the_five_formats() {
    assert!(matches!(SampleFormat::from_code(1), Ok(SampleFormat::IbmFloat)));
    assert!(matches!(SampleFormat::from_code(2), Ok(SampleFormat::Int32)));
    assert!(matches!(SampleFormat::from_code(3), Ok(SampleFormat::Int16)));
    assert!(matches!(SampleFormat::from_code(5), Ok(SampleFormat::IeeeFloat)));
    assert!(matches!(SampleFormat::from_code(8), Ok(SampleFormat::Int8)));
    assert!(matches!(
        SampleFormat::from_code(4),
        Err(SegyError::UnsupportedSampleFormat(4))
    ));
}

#[test]
fn sample_sizes_match_the_formats() {
    assert_eq!(SampleFormat::IbmFloat.sample_size(), 4);
    assert_eq!(SampleFormat::Int32.sample_size(), 4);
    assert_eq!(SampleFormat::Int16.sample_size(), 2);
    assert_eq!(SampleFormat::IeeeFloat.sample_size(), 4);
    assert_eq!(SampleFormat::Int8.sample_size(), 1);
}

#[test]
fn decode_samples_int16_is_exact_and_ordered() {
    let bytes = [0x00u8, 0x01, 0xFF, 0xFF, 0x80, 0x00, 0x7F, 0xFF];
    let samples = decode_samples(SampleFormat::Int16, &bytes);
    assert_eq!(
        samples,
        vec![
            Sample::Int(1),
            Sample::Int(-1),
            Sample::Int(-32768),
            Sample::Int(32767)
        ]
    );
}

#[test]
fn decode_samples_int32_and_int8_are_exact() {
    let bytes = [0xFFu8, 0xFF, 0xFF, 0xD6];
    assert_eq!(
        decode_samples(SampleFormat::Int32, &bytes),
        vec![Sample::Int(-42)]
    );
    let bytes8 = [0x00u8, 0x7F, 0x80, 0xFF];
    assert_eq!(
        decode_samples(SampleFormat::Int8, &bytes8),
        vec![
            Sample::Int(0),
            Sample::Int(127),
            Sample::Int(-128),
            Sample::Int(-1)
        ]
    );
}

#[test]
fn decode_samples_ieee_keeps_the_bit_pattern() {
    let bytes = [0x3Fu8, 0x80, 0x00, 0x00, 0xC0, 0x00, 0x00, 0x00];
    let samples = decode_samples(SampleFormat::IeeeFloat, &bytes);
    assert_eq!(
        samples,
        vec![Sample::FloatBits(0x3F80_0000), Sample::FloatBits(0xC000_0000)]
    );
    match samples[0] {
        Sample::FloatBits(b) => assert_eq!(f32::from_bits(b), 1.0),
        Sample::Int(_) => panic!("wrong sample kind"),
    }
}

#[test]
fn decode_samples_ibm_runs_the_conversion() {
    // IBM 1.0, then an all-zero chunk: exactly 1.0 and exactly 0.0.
    let bytes = [0x41u8, 0x10, 0x00, 0x00, 0x00, 0x00, 0x00, 0x00];
    let samples = decode_samples(SampleFormat::IbmFloat, &bytes);
    assert_eq!(
        samples,
        vec![Sample::FloatBits(0x3F80_0000), Sample::FloatBits(0)]
    );
}

/// A whole file: text header, binary header (int16, default count), then
/// the given trace records.
fn whole_file(format_code: u16, default_count: u16, records: &[(i32, u16, Vec<u8>)]) -> Vec<u8> {
    let mut data = ascii_text_block();
    data.extend(binary_block(format_code, default_count));
    for (trace_number, sample_count, payload) in records {
        data.extend(trace_header_block(*trace_number, *sample_count));
        data.extend(payload.clone());
    }
    data
}

#[test]
fn two_complete_records_yield_two_traces_in_order() {
    let records = vec![
        (101, 2u16, vec![0x00u8, 0x05, 0xFF, 0xFB]),
        (102, 1u16, vec![0x12u8, 0x34]),
    ];
    let file = read_segy_from_bytes(whole_file(3, 7, &records)).unwrap();
    assert_eq!(file.ebcdic_header, "C".repeat(3200));
    assert_eq!(file.traces.len(), 2);
    assert_eq!(file.traces[0].header.trace_number, 101);
    assert_eq!(file.traces[1].header.trace_number, 102);
    assert_eq!(
        file.traces[0].data_samples,
        vec![Sample::Int(5), Sample::Int(-5)]
    );
    assert_eq!(file.traces[1].data_samples, vec![Sample::Int(0x1234)]);
    assert_eq!(file.traces[0].header.trace_sequence_line, 1);
    assert_eq!(file.traces[0].header.offset, -150);
    assert_eq!(file.traces[0].header.coord_scalar, -1);
    assert_eq!(file.traces[0].header.year_data_recorded, 1999);
}

#[test]
fn zero_records_yield_an_empty_trace_list() {
    let file = read_segy_from_bytes(whole_file(3, 7, &[])).unwrap();
    assert_eq!(file.traces.len(), 0);
    assert_eq!(file.binary_header.samples_per_trace, 7);
}

#[test]
fn a_stray_byte_after_the_last_record_fails() {
    let records = vec![(101, 2u16, vec![0x00u8, 0x05, 0xFF, 0xFB])];
    let mut data = whole_file(3, 7, &records);
    data.push(0xAB);
    assert!(matches!(
        read_segy_from_bytes(data),
        Err(SegyError::ParseError(_))
    ));
}

#[test]
fn a_truncated_payload_fails() {
    let mut data = ascii_text_block();
    data.extend(binary_block(3, 7));
    data.extend(trace_header_block(101, 2));
    data.push(0x00);
    assert!(matches!(
        read_segy_from_bytes(data),
        Err(SegyError::ParseError(_))
    ));
}

#[test]
fn unsupported_format_code_fails_before_any_trace() {
    let records = vec![(101, 2u16, vec![0x00u8, 0x05, 0xFF, 0xFB])];
    assert!(matches!(
        read_segy_from_bytes(whole_file(99, 7, &records)),
        Err(SegyError::UnsupportedSampleFormat(99))
    ));
}

#[test]
fn zero_sample_count_uses_the_file_level_default() {
    // The trace header declares 0 samples; the binary header's default of 3
    // sizes the payload and the decoded trace.
    let records = vec![(7, 0u16, vec![0x00u8, 0x01, 0x00, 0x02, 0x00, 0x03])];
    let file = read_segy_from_bytes(whole_file(3, 3, &records)).unwrap();
    assert_eq!(file.traces.len(), 1);
    assert_eq!(
        file.traces[0].data_samples,
        vec![Sample::Int(1), Sample::Int(2), Sample::Int(3)]
    );
}

#[test]
fn ibm_float_file_decodes_to_float_bits() {
    // IBM 1.0 and IBM -1.0 decode to the IEEE patterns of 1.0 and -1.0.
    let records = vec![(1, 2u16, vec![0x41u8, 0x10, 0x00, 0x00, 0xC1, 0x10, 0x00, 0x00])];
    let file = read_segy_from_bytes(whole_file(1, 5, &records)).unwrap();
    assert!(matches!(file.binary_header.sample_format_code, SampleFormat::IbmFloat));
    assert_eq!(
        file.traces[0].data_samples,
        vec![Sample::FloatBits(0x3F80_0000), Sample::FloatBits(0xBF80_0000)]
    );
}

#[test]
fn int8_file_uses_one_byte_per_sample() {
    let records = vec![(1, 3u16, vec![0x01u8, 0xFF, 0x80])];
    let file = read_segy_from_bytes(whole_file(8, 5, &records)).unwrap();
    assert_eq!(
        file.traces[0].data_samples,
        vec![Sample::Int(1), Sample::Int(-1), Sample::Int(-128)]
    );
}

#[test]
fn ieee_file_keeps_bit_patterns() {
    let records = vec![(1, 1u16, vec![0x40u8, 0x49, 0x0F, 0xDB])];
    let file = read_segy_from_bytes(whole_file(5, 5, &records)).unwrap();
    match file.traces[0].data_samples[0] {
        Sample::FloatBits(b) => assert!((f32::from_bits(b) - 3.14159274).abs() < 1e-6),
        Sample::Int(_) => panic!("wrong sample kind"),
    }
}

#[test]
fn read_trace_reads_one_record_and_its_samples() {
    let mut data = trace_header_block(11, 2);
    data.extend(vec![0x00u8, 0x00, 0x00, 0x2A, 0xFF, 0xFF, 0xFF, 0xFE]);
    let mut reader = SegyReader::new(data);
    let trace = reader.read_trace(SampleFormat::Int32, 9).unwrap();
    assert_eq!(trace.header.trace_number, 11);
    assert_eq!(trace.data_samples, vec![Sample::Int(42), Sample::Int(-2)]);
}

#[test]
fn read_trace_header_parses_all_fields() {
    let mut reader = SegyReader::new(trace_header_block(13, 100));
    let h = reader.read_trace_header().unwrap();
    assert_eq!(h.trace_sequence_line, 1);
    assert_eq!(h.trace_sequence_file, 2);
    assert_eq!(h.field_record_number, 9);
    assert_eq!(h.trace_number, 13);
    assert_eq!(h.source_point_number, 4);
    assert_eq!(h.ensemble_number, 5);
    assert_eq!(h.trace_in_ensemble, 6);
    assert_eq!(h.offset, -150);
    assert_eq!(h.coord_scalar, -1);
    assert_eq!(h.cdp_x, 1000);
    assert_eq!(h.cdp_y, 2000);
    assert_eq!(h.trace_sample_count, 100);
    assert_eq!(h.trace_sample_interval_us, 2000);
    assert_eq!(h.year_data_recorded, 1999);
    assert_eq!(h.day_of_year, 321);
    assert_eq!(h.hour_of_day, 23);
    assert_eq!(h.minute_of_hour, 59);
    assert_eq!(h.second_of_minute, 58);
}

#[test]
fn a_short_trace_header_fails() {
    let mut data = trace_header_block(11, 1);
    data.extend(vec![0x00u8, 0x01]);
    data.extend(vec![0u8; 100]);
    let mut reader = SegyReader::new(data);
    assert!(reader.read_trace(SampleFormat::Int16, 9).is_ok());
    assert!(matches!(
        reader.read_trace(SampleFormat::Int16, 9),
        Err(SegyError::ParseError(_))
    ));
}
