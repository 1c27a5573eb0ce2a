use giga_segy::enums::{MeasurementSystem, OrderTraceBy, SampleFormatCode, TraceIdCode};
use giga_segy::settings::SegySettings;
use giga_segy::TRACE_HEADER_LEN;

#[test]
fn test_order_trace_by() {
    let mut default = SegySettings::default();
    default.set_order_trace_by(OrderTraceBy::TraceNo);
    assert_eq!(default.order_trace_by, OrderTraceBy::TraceNo);
    assert_eq!(default.get_order_trace_by(), OrderTraceBy::TraceNo);
}

#[test]
fn test_override_to_le1() {
    let mut default = SegySettings::default();
    default.set_override_to_le(true);
    assert_eq!(default.override_to_le, Some(true));
    assert_eq!(default.get_override_to_le(), Some(true));
}

#[test]
fn test_override_to_le2() {
    let mut default = SegySettings::default();
    default.set_override_to_le(false);
    assert_eq!(default.override_to_le, Some(false));
    assert_eq!(default.get_override_to_le(), Some(false));
}

#[test]
fn test_override_sample_format() {
    let mut default = SegySettings::default();
    default.set_override_trace_format(SampleFormatCode::UInt32);
    assert_eq!(default.override_trace_format, Some(SampleFormatCode::UInt32));
    assert_eq!(default.get_override_trace_format(), Some(SampleFormatCode::UInt32));
}

#[test]
fn test_override_trace_id_code() {
    let mut default = SegySettings::default();
    default.set_override_trace_id_code(TraceIdCode::VibratorBaseplate);
    assert_eq!(default.override_trace_id_code, Some(TraceIdCode::VibratorBaseplate));
    assert_eq!(default.get_override_trace_id_code(), Some(TraceIdCode::VibratorBaseplate));
}

#[test]
fn test_override_trace_depth_units() {
    let mut default = SegySettings::default();
    default.set_override_trace_depth_units(MeasurementSystem::Meters);
    assert_eq!(default.override_trace_depth_units, Some(MeasurementSystem::Meters));
    assert_eq!(default.get_override_trace_depth_units(), Some(MeasurementSystem::Meters));
}

#[test]
fn test_override_coordinate_units() {
    let mut default = SegySettings::default();
    default.set_override_coordinate_units(MeasurementSystem::Meters);
    assert_eq!(default.override_coordinate_units, Some(MeasurementSystem::Meters));
    assert_eq!(default.get_override_coordinate_units(), Some(MeasurementSystem::Meters));
}

#[test]
#[allow(unused_must_use)]
fn test_override_coordinate_format() {
    let mut default = SegySettings::default();
    default.set_override_coordinate_format(SampleFormatCode::IbmFloat32);
    assert_eq!(default.override_coordinate_format, Some(SampleFormatCode::IbmFloat32));
    assert_eq!(default.get_override_coordinate_format(), Some(SampleFormatCode::IbmFloat32));
    assert!(default.set_override_coordinate_format(SampleFormatCode::UInt64).is_err());
}

#[test]
fn test_set_override_coordinate_scaling_integer() {
    let mut default = SegySettings::default();
    default.set_override_coordinate_scaling(42).expect("valid");
    assert!(default.set_override_coordinate_scaling(42000).is_err());
    assert_eq!(default.override_coordinate_scaling, Some(42));
    assert_eq!(default.get_override_coordinate_scaling(), Some(42));
}

#[test]
#[allow(unused_must_use)]
fn test_inline_no_bidx() {
    let mut default = SegySettings::default();
    default.set_inline_no_bidx(34);
    assert_eq!(default.inline_no_bidx, 34);
    assert_eq!(default.get_inline_no_bidx(), 34);
}

#[test]
#[allow(unused_must_use)]
fn test_crossline_no_bidx() {
    let mut default = SegySettings::default();
    default.set_crossline_no_bidx(34);
    assert_eq!(default.crossline_no_bidx, 34);
    assert_eq!(default.get_crossline_no_bidx(), 34);
}

#[test]
#[allow(unused_must_use)]
fn test_y_ensemble_bidx() {
    let mut default = SegySettings::default();
    default.set_y_ensemble_bidx(34);
    assert_eq!(default.y_ensemble_bidx, 34);
    assert_eq!(default.get_y_ensemble_bidx(), 34);
}

#[test]
#[allow(unused_must_use)]
fn test_x_ensemble_bidx() {
    let mut default = SegySettings::default();
    default.set_x_ensemble_bidx(34);
    assert_eq!(default.x_ensemble_bidx, 34);
    assert_eq!(default.get_x_ensemble_bidx(), 34);
}

#[test]
#[allow(unused_must_use)]
fn test_inline_no_bidx_fail() {
    let mut default = SegySettings::default();
    assert!(default.set_inline_no_bidx(TRACE_HEADER_LEN - 3).is_err());
    assert!(default.set_inline_no_bidx(TRACE_HEADER_LEN + 3).is_err());
}

#[test]
#[allow(unused_must_use)]
fn test_crossline_no_bidx_fail() {
    let mut default = SegySettings::default();
    assert!(default.set_crossline_no_bidx(TRACE_HEADER_LEN - 3).is_err());
    assert!(default.set_crossline_no_bidx(TRACE_HEADER_LEN + 3).is_err());
}

#[test]
#[allow(unused_must_use)]
fn test_y_ensemble_bidx_fail() {
    let mut default = SegySettings::default();
    assert!(default.set_y_ensemble_bidx(TRACE_HEADER_LEN - 3).is_err());
    assert!(default.set_y_ensemble_bidx(TRACE_HEADER_LEN + 3).is_err());
}

#[test]
#[allow(unused_must_use)]
fn test_x_ensemble_bidx_fail() {
    let mut default = SegySettings::default();
    assert!(default.set_x_ensemble_bidx(TRACE_HEADER_LEN - 3).is_err());
    assert!(default.set_x_ensemble_bidx(TRACE_HEADER_LEN + 3).is_err());
}

#[test]
fn test_step_by() {
    let mut default = SegySettings::default();
    default.set_step_by(34);
    assert_eq!(default.step_by, 34);
    assert_eq!(default.get_step_by(), 34);
}

#[test]
fn test_inlne_min_max() {
    let mut default = SegySettings::default();
    default.set_inlne_min_max([-100, 1000]);
    assert_eq!(default.inline_min_max, Some([-100, 1000]));
    assert_eq!(default.get_inlne_min_max(), Some([-100, 1000]));
}

#[test]
fn test_crossline_min_max() {
    let mut default = SegySettings::default();
    default.set_crossline_min_max([-100, 1000]);
    assert_eq!(default.crossline_min_max, Some([-100, 1000]));
    assert_eq!(default.get_crossline_min_max(), Some([-100, 1000]));
}

#[test]
fn test_override_dim_x() {
    let mut default = SegySettings::default();
    default.set_override_dim_x(44).expect("valid");
    assert_eq!(default.override_dim_x, Some(44));
    assert_eq!(default.get_override_dim_x(), Some(44));
    assert_eq!(default.crossline_min_max, Some([0, 43]));
}

#[test]
fn test_override_dim_y() {
    let mut default = SegySettings::default();
    default.set_override_dim_y(44).expect("valid");
    assert_eq!(default.override_dim_y, Some(44));
    assert_eq!(default.get_override_dim_y(), Some(44));
    assert_eq!(default.inline_min_max, Some([0, 43]));
}

#[test]
fn test_override_dim_z() {
    let mut default = SegySettings::default();
    default.set_override_dim_z(44).expect("valid");
    assert_eq!(default.override_dim_z, Some(44));
    assert_eq!(default.get_override_dim_z(), Some(44));
    assert_eq!(default.inline_min_max, None);
}

#[test]
fn test_override_dim_x_fail() {
    let mut default = SegySettings::default();
    assert!(default.set_override_dim_x(-44).is_err());
}

#[test]
fn test_override_dim_y_fail() {
    let mut default = SegySettings::default();
    assert!(default.set_override_dim_y(-44).is_err());
}

#[test]
fn test_override_dim_z_fail() {
    let mut default = SegySettings::default();
    assert!(default.set_override_dim_z(-44).is_err());
}

#[test]
fn trace_in_bounds_defaults_accept_everything() {
    let mut settings = SegySettings::default();
    assert!(settings.trace_in_bounds(99999, -99999));
    settings.set_inlne_min_max([50, 2000]);
    assert_ne!(settings.trace_in_bounds(99999, -99999), true);
    assert!(settings.trace_in_bounds(100, -99999));
    settings.set_crossline_min_max([50, 2000]);
    assert_ne!(settings.trace_in_bounds(100, -99999), true);
    assert!(settings.trace_in_bounds(100, 100));
}

#[test]
fn test_origin() {
    let mut default = SegySettings::default();
    let origin = [999f64.to_bits(), (-999f64).to_bits(), 0.1234f64.to_bits()];
    default.set_origin(origin);
    assert_eq!(default.origin, Some(origin));
    assert_eq!(default.get_origin(), Some(origin));
}

#[test]
fn test_override_u() {
    let mut default = SegySettings::default();
    let u = [340f64.to_bits(), 430f64.to_bits(), (-999f64).to_bits()];
    default.set_override_u(u);
    assert_eq!(default.override_u, Some(u));
    assert_eq!(default.get_override_u(), Some(u));
}

#[test]
fn test_override_v() {
    let mut default = SegySettings::default();
    let v = [340f64.to_bits(), 430f64.to_bits(), (-999f64).to_bits()];
    default.set_override_v(v);
    assert_eq!(default.override_v, Some(v));
    assert_eq!(default.get_override_v(), Some(v));
}

#[test]
fn test_override_sample_interval() {
    let mut default = SegySettings::default();
    default.set_override_sample_interval((-999f64).to_bits());
    assert_eq!(default.override_sample_interval, Some((-999f64).to_bits()));
    assert_eq!(default.get_override_sample_interval(), Some((-999f64).to_bits()));
}
