use giga_segy::enums::SampleFormatCode;
use giga_segy::header_structs::{BinHeader, TraceHeader};

#[test]
fn create_bin_header_1() {
    let header = BinHeader::new(1600, 5, 500, SampleFormatCode::Float32);
    assert_eq!(header.no_traces, 1600);
    assert_eq!(header.sample_interval, 5);
    assert_eq!(header.no_samples, 500);
    assert_eq!(header.sample_format_code, SampleFormatCode::Float32);
}

#[test]
fn create_bin_header_2() {
    let header = BinHeader::new(123, 4, 567, SampleFormatCode::Float64);
    assert_eq!(header.no_traces, 123);
    assert_eq!(header.sample_interval, 4);
    assert_eq!(header.no_samples, 567);
    assert_eq!(header.sample_format_code, SampleFormatCode::Float64);
}

#[test]
fn create_bin_header_default() {
    let header = BinHeader::default();
    assert_eq!(header.no_traces, 0);
    assert_eq!(header.sample_interval, 0);
    assert_eq!(header.no_samples, 0);
    assert_eq!(header.sample_format_code, SampleFormatCode::Float32);
}

#[test]
fn create_trace_header_2d_1() {
    let header = TraceHeader::new_2d(889000, 623000, 2);
    assert_eq!(header.x_ensemble, 889000);
    assert_eq!(header.y_ensemble, 623000);
    assert_eq!(header.coordinate_scalar, 2);
}

#[test]
fn create_trace_header_2d_2() {
    let header = TraceHeader::new_2d(45, 23, -5);
    assert_eq!(header.x_ensemble, 45);
    assert_eq!(header.y_ensemble, 23);
    assert_eq!(header.coordinate_scalar, -5);
}

#[test]
fn create_trace_header_3d_1() {
    let header = TraceHeader::new_3d(889000, 623000, 2300, 1898, 2);
    assert_eq!(header.x_ensemble, 889000);
    assert_eq!(header.y_ensemble, 623000);
    assert_eq!(header.inline_no, 2300);
    assert_eq!(header.crossline_no, 1898);
    assert_eq!(header.coordinate_scalar, 2);
}

#[test]
fn create_trace_header_3d_2() {
    let header = TraceHeader::new_3d(45, 23, 999, -5000, -5);
    assert_eq!(header.x_ensemble, 45);
    assert_eq!(header.y_ensemble, 23);
    assert_eq!(header.inline_no, 999);
    assert_eq!(header.crossline_no, -5000);
    assert_eq!(header.coordinate_scalar, -5);
}

#[test]
fn create_trace_header_default() {
    let header = TraceHeader::default();
    assert_eq!(header.x_ensemble, 0);
    assert_eq!(header.y_ensemble, 0);
    assert_eq!(header.coordinate_scalar, 0);
}
