use giga_segy::bitconverter::{decode_sample, encode_sample, SampleValue};
use giga_segy::enums::{FixedLengthTraces, SampleFormatCode};
use giga_segy::header_structs::{BinHeader, TraceHeader};
use giga_segy::scan;
use giga_segy::read_data;
use giga_segy::settings::SegySettings;
use giga_segy::utils::{CoordinateScalar, Multiplier};
use giga_segy::write_file::SegyFile;
use giga_segy::write_headers::{text_header_bytes, th_as_bytes_with_settings};
use giga_segy::create_headers::create_tape_label;

fn sample_header(format: SampleFormatCode, no_samples: u16, le: bool) -> BinHeader {
    let mut bin_header = BinHeader::new(3, 5, no_samples, format);
    bin_header.binary_flag_direction_is_le = le;
    bin_header.fixed_length_trace_flag = FixedLengthTraces::Yes;
    bin_header
}

fn write_simple_file(
    format: SampleFormatCode,
    le: bool,
    traces: &[(i32, i32, Vec<SampleValue>)],
) -> (Vec<u8>, Vec<TraceHeader>) {
    let no_samples = traces[0].2.len() as u16;
    let bin_header = sample_header(format, no_samples, le);
    let text: String = "a survey description".to_string();
    let (mut file, mut bytes) =
        SegyFile::create(SegySettings::default(), text, bin_header, None).expect("create works");
    let mut headers = Vec::new();
    for (inline, crossline, data) in traces {
        let mut th = TraceHeader::new_3d(*inline * 10, *crossline * 10, *inline, *crossline, 0);
        th.no_samples_in_trace = data.len() as u16;
        headers.push(th.clone());
        let mut block = file.add_trace(th, None, data.clone()).expect("append works");
        bytes.append(&mut block);
    }
    (bytes, headers)
}

fn read_back(bytes: &[u8], settings: SegySettings) -> (BinHeader, Vec<giga_segy::Trace>) {
    let mut bin_header = scan::get_bin_header(bytes, &settings).expect("bin header reads");
    let traces = scan::get_metadata_for_traces(bytes, &mut bin_header, 0, &settings)
        .expect("scan works");
    (bin_header, traces)
}

#[test]
fn bin_header_roundtrip_through_bytes() {
    for le in [false, true] {
        let mut original = sample_header(SampleFormatCode::Int16, 7, le);
        original.job_id = 77;
        original.line_number = 1234;
        original.reel_number = 56;
        original.sweep_frequency_start = 3;
        original.sweep_frequency_end = 9;
        original.extended_header_count = 0;
        let bytes = original.as_bytes().expect("encodable");
        assert_eq!(bytes.len(), 400);
        let decoded = BinHeader::from_bytes(&bytes, &SegySettings::default()).expect("parses");
        assert_eq!(decoded, original);
    }
}

#[test]
fn trace_header_roundtrip_default_settings() {
    for le in [false, true] {
        let bin_header = sample_header(SampleFormatCode::Int16, 7, le);
        let mut th = TraceHeader::new_3d(42, -17, 3, 4, -100);
        th.trace_sequence_on_line = 9;
        th.no_samples_in_trace = 7;
        th.source_x = 5200;
        th.source_y = -5200;
        th.day_of_year = 123;
        th.high_cut_slope = 11;
        th.source_measurement_exponent = 2;
        th.trace_name = [83, 69, 71, 48, 48, 48, 48, 49];
        let bytes = th_as_bytes_with_settings(&th, &SegySettings::default(), &bin_header)
            .expect("encodable");
        assert_eq!(bytes.len(), 240);
        let decoded = TraceHeader::from_bytes(&bytes, &bin_header, &SegySettings::default(), 0)
            .expect("parses");
        assert_eq!(decoded, th);
    }
}

#[test]
fn file_roundtrip_fixed_length_i16() {
    for le in [false, true] {
        let data0: Vec<SampleValue> = (0..5).map(|x| SampleValue::I16(x * 3 - 4)).collect();
        let data1: Vec<SampleValue> = (0..5).map(|x| SampleValue::I16(x)).collect();
        let (bytes, headers) =
            write_simple_file(SampleFormatCode::Int16, le, &[(1, 1, data0.clone()), (1, 2, data1.clone())]);
        let text = scan::get_text_header(&bytes).expect("text header reads");
        assert!(text.starts_with("a survey description"));
        let (bin_header, traces) = read_back(&bytes, SegySettings::default());
        assert_eq!(bin_header.no_samples, 5);
        assert_eq!(traces.len(), 2);
        for (k, trace) in traces.iter().enumerate() {
            assert_eq!(trace.get_header(), &headers[k]);
            let samples = read_data::get_trace_data_as_samples(
                &bytes,
                trace,
                &bin_header,
                &SegySettings::default(),
            )
            .expect("data reads");
            let expected = if k == 0 { &data0 } else { &data1 };
            assert_eq!(&samples, expected);
        }
    }
}

#[test]
fn file_roundtrip_float32_data() {
    let data: Vec<SampleValue> =
        [1.5f32, -2.25, 1.0e9, 0.0].iter().map(|x| SampleValue::F32Bits(x.to_bits())).collect();
    let (bytes, _) = write_simple_file(SampleFormatCode::Float32, false, &[(1, 1, data.clone())]);
    let (bin_header, traces) = read_back(&bytes, SegySettings::default());
    let samples = read_data::get_trace_data_as_samples(
        &bytes,
        &traces[0],
        &bin_header,
        &SegySettings::default(),
    )
    .expect("data reads");
    assert_eq!(samples, data);
}

#[test]
fn file_roundtrip_float64_truncates_on_f32_read() {
    // A 64-bit value with more precision than a 32-bit float carries:
    // the stored bytes keep it, and a narrowing to 32 bits must change it.
    let v = 1.000000001f64;
    let data = vec![SampleValue::F64Bits(v.to_bits())];
    let (bytes, _) = write_simple_file(SampleFormatCode::Float64, true, &[(1, 1, data.clone())]);
    let (bin_header, traces) = read_back(&bytes, SegySettings::default());
    let samples = read_data::get_trace_data_as_samples(
        &bytes,
        &traces[0],
        &bin_header,
        &SegySettings::default(),
    )
    .expect("data reads");
    assert_eq!(samples, data);
    match samples[0] {
        SampleValue::F64Bits(bits) => {
            let narrowed = f64::from_bits(bits) as f32;
            assert_ne!(narrowed as f64, f64::from_bits(bits));
        },
        _ => panic!("expected a double-precision sample"),
    }
}

#[test]
fn geometry_relocation_roundtrip() {
    // Write the geometry at non-default byte indices, then read with both
    // default and matching settings.
    let mut settings = SegySettings::default();
    settings.set_x_ensemble_bidx(96).expect("fine");
    settings.set_y_ensemble_bidx(100).expect("fine");
    settings.set_inline_no_bidx(104).expect("fine");
    settings.set_crossline_no_bidx(108).expect("fine");

    let bin_header = sample_header(SampleFormatCode::Int16, 3, false);
    let mut th = TraceHeader::new_3d(700, 800, 31, 32, 0);
    th.no_samples_in_trace = 3;
    let bytes = th_as_bytes_with_settings(&th, &settings, &bin_header).expect("encodable");

    let with_default =
        TraceHeader::from_bytes(&bytes, &bin_header, &SegySettings::default(), 0).expect("parses");
    assert_eq!(with_default.x_ensemble, 0);
    assert_eq!(with_default.y_ensemble, 0);
    assert_eq!(with_default.inline_no, 0);
    assert_eq!(with_default.crossline_no, 0);

    let with_matching = TraceHeader::from_bytes(&bytes, &bin_header, &settings, 0).expect("parses");
    assert_eq!(with_matching.x_ensemble, 700);
    assert_eq!(with_matching.y_ensemble, 800);
    assert_eq!(with_matching.inline_no, 31);
    assert_eq!(with_matching.crossline_no, 32);
}

#[test]
fn bounds_filter_excludes_out_of_range() {
    let data: Vec<SampleValue> = (0..3).map(SampleValue::I16).collect();
    let (bytes, _) =
        write_simple_file(SampleFormatCode::Int16, false, &[(10, 7, data.clone()), (100, 7, data)]);
    let mut settings = SegySettings::default();
    settings.set_inlne_min_max([50, 2000]);
    let (_, traces) = read_back(&bytes, settings);
    assert_eq!(traces.len(), 1);
    assert_eq!(traces[0].get_header().inline_no, 100);
}

#[test]
fn scalar_direction_and_scaling() {
    let s = CoordinateScalar::from_multiplier_recip(100).expect("valid");
    assert_eq!(s.writeable_scalar(), -100);
    assert_eq!(s.scale_to_i32(52), Some(5200));
    assert_eq!(s.multiplier(), Multiplier::Recip(100));

    let s = CoordinateScalar::from_multiplier(1000).expect("valid");
    assert_eq!(s.writeable_scalar(), 1000);

    assert!(CoordinateScalar::from_multiplier(-1).is_none());
    assert!(CoordinateScalar::from_multiplier(32767).is_some());
    assert!(CoordinateScalar::from_multiplier(32768).is_none());
}

#[test]
fn scalar_overflow_and_precision_loss() {
    // Too fine a multiplier overflows the storable range at write time.
    let s = CoordinateScalar::from_multiplier_recip(10000).expect("valid");
    assert_eq!(s.scale_to_i32(300000), None);
    // Too coarse a multiplier loses precision: the round trip differs.
    let s = CoordinateScalar::from_multiplier(10).expect("valid");
    let stored = s.scale_to_i32(52).expect("in range");
    assert_eq!(stored, 5);
    assert_ne!(stored as i64 * 10, 52);
}

#[test]
fn sample_codec_exhaustive_8_bit() {
    for le in [false, true] {
        for v in i8::MIN..=i8::MAX {
            let enc = encode_sample(&SampleValue::I8(v), SampleFormatCode::Int8, le).unwrap();
            assert_eq!(decode_sample(&enc, SampleFormatCode::Int8, le).unwrap(), SampleValue::I8(v));
        }
        for v in u8::MIN..=u8::MAX {
            let enc = encode_sample(&SampleValue::U8(v), SampleFormatCode::UInt8, le).unwrap();
            assert_eq!(
                decode_sample(&enc, SampleFormatCode::UInt8, le).unwrap(),
                SampleValue::U8(v)
            );
        }
    }
}

#[test]
fn sample_codec_exhaustive_16_bit() {
    for le in [false, true] {
        for v in i16::MIN..=i16::MAX {
            let enc = encode_sample(&SampleValue::I16(v), SampleFormatCode::Int16, le).unwrap();
            assert_eq!(
                decode_sample(&enc, SampleFormatCode::Int16, le).unwrap(),
                SampleValue::I16(v)
            );
        }
        for v in u16::MIN..=u16::MAX {
            let enc = encode_sample(&SampleValue::U16(v), SampleFormatCode::UInt16, le).unwrap();
            assert_eq!(
                decode_sample(&enc, SampleFormatCode::UInt16, le).unwrap(),
                SampleValue::U16(v)
            );
        }
    }
}

#[test]
fn lossless_matrix_scenarios() {
    // An unsigned 32-bit value as a signed 16-bit target must fail.
    let header = sample_header(SampleFormatCode::Int16, 1, false);
    let res = giga_segy::write_data::convert_data_losslessly(
        &vec![SampleValue::U32(1)],
        &header,
    );
    assert!(res.is_err());
    // A signed 16-bit value as a 32-bit float target must succeed.
    let header = sample_header(SampleFormatCode::Float32, 1, false);
    let res = giga_segy::write_data::convert_data_losslessly(
        &vec![SampleValue::I16(-17)],
        &header,
    );
    assert!(res.is_ok());
    assert!(SampleValue::F32Bits(0).is_lossless_to(SampleFormatCode::Float64));
    assert!(!SampleValue::F64Bits(0).is_lossless_to(SampleFormatCode::Float32));
    assert!(!SampleValue::I64(0).is_lossless_to(SampleFormatCode::Int32));
}

#[test]
fn writer_rejects_bad_data_shapes() {
    let bin_header = sample_header(SampleFormatCode::Int16, 5, false);
    let (mut file, _) = SegyFile::create(
        SegySettings::default(),
        "x".to_string(),
        bin_header,
        None,
    )
    .expect("create works");
    // Neither the file-wide count nor the trace's own count matches.
    let mut th = TraceHeader::new_2d(1, 1, 0);
    th.no_samples_in_trace = 9;
    let data: Vec<SampleValue> = (0..4).map(SampleValue::I16).collect();
    let err = file.add_trace(th, None, data).unwrap_err();
    assert!(matches!(err, giga_segy::errors::RsgError::BadDataVector { .. }));
    // The trace's own count may differ from the file-wide count.
    let mut th = TraceHeader::new_2d(1, 1, 0);
    th.no_samples_in_trace = 4;
    let data: Vec<SampleValue> = (0..4).map(SampleValue::I16).collect();
    assert!(file.add_trace(th, None, data).is_ok());
}

#[test]
fn tape_label_roundtrip() {
    let label = create_tape_label();
    let bytes = label.as_bytes().expect("fits");
    assert_eq!(bytes.len(), 128);
    let decoded = giga_segy::header_structs::TapeLabel::from_bytes(
        &bytes,
        &SegySettings::default(),
    )
    .expect("parses");
    assert_eq!(decoded, label);
    let readable = decoded.to_readable();
    assert_eq!(readable.storage_unit_structure, "RECORD");
    assert_eq!(readable.max_block_size, u32::MAX);
}

#[test]
fn text_header_is_space_padded() {
    let out = text_header_bytes("hello").expect("fits");
    assert_eq!(out.len(), 3200);
    assert_eq!(&out[0..5], b"hello");
    assert!(out[5..].iter().all(|b| *b == b' '));
    let too_long: String = std::iter::repeat('x').take(3201).collect();
    assert!(text_header_bytes(&too_long).is_err());
}

#[test]
fn strided_read_skips_data_points() {
    let data: Vec<SampleValue> = (0..6).map(SampleValue::I16).collect();
    let (bytes, _) = write_simple_file(SampleFormatCode::Int16, true, &[(1, 1, data)]);
    let mut settings = SegySettings::default();
    settings.set_step_by(2);
    let (bin_header, traces) = read_back(&bytes, SegySettings::default());
    let samples =
        read_data::get_trace_data_as_samples(&bytes, &traces[0], &bin_header, &settings)
            .expect("data reads");
    assert_eq!(
        samples,
        vec![SampleValue::I16(0), SampleValue::I16(2), SampleValue::I16(4)]
    );
}

#[test]
fn data_point_access_matches_full_read() {
    let data: Vec<SampleValue> = (0..4).map(|x| SampleValue::I16(x * 7)).collect();
    let (bytes, _) = write_simple_file(SampleFormatCode::Int16, false, &[(1, 1, data.clone())]);
    let (bin_header, traces) = read_back(&bytes, SegySettings::default());
    for (i, expected) in data.iter().enumerate() {
        let point = read_data::get_trace_data_point_as_sample(
            &bytes,
            &traces[0],
            &bin_header,
            &SegySettings::default(),
            i,
        )
        .expect("point reads");
        assert_eq!(&point, expected);
    }
    assert!(read_data::get_trace_data_point_as_sample(
        &bytes,
        &traces[0],
        &bin_header,
        &SegySettings::default(),
        999
    )
    .is_err());
}

#[test]
fn ebcdic_trace_name_is_translated() {
    let mut th = TraceHeader::new_2d(0, 0, 0);
    // The word "TEST" in EBCDIC; it does not start with an ASCII `S`.
    th.trace_name = [0xE3, 0xC5, 0xE2, 0xE3, 0, 0, 0, 0];
    assert_eq!(th.get_trace_name(), "TEST");
    // An ASCII name beginning with `S` is taken as it stands.
    th.trace_name = [83, 69, 71, 0, 0, 0, 0, 0];
    assert_eq!(th.get_trace_name(), "SEG");
}

#[test]
fn variable_length_records_roundtrip() {
    let bin_header = {
        let mut h = sample_header(SampleFormatCode::Int16, 3, false);
        h.fixed_length_trace_flag = FixedLengthTraces::No;
        h
    };
    let (mut file, mut bytes) = SegyFile::create(
        SegySettings::default(),
        "v".to_string(),
        bin_header,
        None,
    )
    .expect("create works");
    for count in [3u16, 5, 2] {
        let mut th = TraceHeader::new_2d(1, 1, 0);
        th.no_samples_in_trace = count;
        let data: Vec<SampleValue> = (0..count as i16).map(SampleValue::I16).collect();
        let mut block = file.add_trace(th, None, data).expect("append works");
        bytes.append(&mut block);
    }
    let (bin_header, traces) = read_back(&bytes, SegySettings::default());
    assert_eq!(traces.len(), 3);
    let lengths: Vec<usize> = traces.iter().map(|t| t.len()).collect();
    assert_eq!(lengths, vec![6, 10, 4]);
    // A truncated buffer is unambiguous corruption in variable mode.
    let truncated = &bytes[..bytes.len() - 1];
    let mut bh = scan::get_bin_header(truncated, &SegySettings::default()).expect("reads");
    let res = scan::get_metadata_for_traces(truncated, &mut bh, 0, &SegySettings::default());
    assert!(matches!(res, Err(giga_segy::errors::RsgError::IncompleteTrace)));
}

#[test]
fn ibm_and_float_coordinates_decode() {
    let bin_header = sample_header(SampleFormatCode::Int16, 3, false);
    let th = TraceHeader::new_2d(0, 0, 0);
    let mut settings = SegySettings::default();
    settings.set_override_coordinate_format(SampleFormatCode::Float32).expect("4-byte");
    let mut bytes =
        th_as_bytes_with_settings(&th, &SegySettings::default(), &bin_header).expect("encodable");
    // Place the single-precision value 52.0 in the source x field.
    bytes[72..76].copy_from_slice(&52.0f32.to_be_bytes());
    let decoded = TraceHeader::from_bytes(&bytes, &bin_header, &settings, 0).expect("parses");
    assert_eq!(decoded.source_x, 52);

    // The IBM single-precision pattern for 100.0: exponent 66 base 16,
    // fraction 100 / 16^2.
    let mut settings = SegySettings::default();
    settings.set_override_coordinate_format(SampleFormatCode::IbmFloat32).expect("4-byte");
    bytes[72..76].copy_from_slice(&[0x42, 0x64, 0x00, 0x00]);
    let decoded = TraceHeader::from_bytes(&bytes, &bin_header, &settings, 0).expect("parses");
    assert_eq!(decoded.source_x, 100);
}

#[test]
fn extended_header_count_too_large_fails() {
    let data: Vec<SampleValue> = (0..3).map(SampleValue::I16).collect();
    let (bytes, _) = write_simple_file(SampleFormatCode::Int16, false, &[(1, 1, data)]);
    let res = scan::get_extended_text_headers(&bytes, 1000);
    assert!(matches!(res, Err(giga_segy::errors::RsgError::SEGYTooShort)));
}

#[test]
fn trace_table_min_max_and_lookup() {
    let data: Vec<SampleValue> = (0..3).map(SampleValue::I16).collect();
    let (bytes, _) = write_simple_file(
        SampleFormatCode::Int16,
        false,
        &[(5, 9, data.clone()), (2, 4, data.clone()), (8, 1, data)],
    );
    let (_, traces) = read_back(&bytes, SegySettings::default());
    assert_eq!(giga_segy::trace_table::trace_idx_for_inline_min_max(&traces), Some([1, 2]));
    assert_eq!(giga_segy::trace_table::trace_idx_for_crossline_min_max(&traces), Some([2, 0]));
    assert_eq!(giga_segy::trace_table::trace_idx_for_x_ensemble_min_max(&traces), Some([1, 2]));
    assert_eq!(giga_segy::trace_table::trace_idx_for_y_ensemble_min_max(&traces), Some([2, 0]));
    assert_eq!(giga_segy::trace_table::find_trace_by_xline_inline(&traces, 4, 2), Some(1));
    assert_eq!(giga_segy::trace_table::find_trace_by_xline_inline(&traces, 4, 3), None);
    assert_eq!(giga_segy::trace_table::trace_idx_for_inline_min_max(&Vec::new()), None);
}

#[test]
fn create_rejects_bad_inputs() {
    let too_long: String = std::iter::repeat('x').take(3201).collect();
    let res = SegyFile::create(
        SegySettings::default(),
        too_long,
        sample_header(SampleFormatCode::Int16, 1, false),
        None,
    );
    assert!(matches!(res, Err(giga_segy::errors::RsgError::InvalidHeader { .. })));
    let mut bad = sample_header(SampleFormatCode::Int16, 1, false);
    bad.sorting_code = giga_segy::enums::TraceSortingCode::Invalid;
    let res = SegyFile::create(SegySettings::default(), "x".to_string(), bad, None);
    assert!(matches!(res, Err(giga_segy::errors::RsgError::InvalidHeader { .. })));
}
