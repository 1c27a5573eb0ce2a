use giga_segy::enums::{
    AmplitudeRecoveryMethod, BinaryGainRecovered, CoordinateUnits, Correlated,
    CorrelatedDataTraces, DataUse, FixedLengthTraces, GainType, ImpulseSignalPolarity,
    MeasurementSystem, OverTravel, SampleFormatCode, SourceMeasurementUnit, SourceType, SweepType,
    SweepTypeCode, TaperType, TimeBasisCode, TraceIdCode, TraceSortingCode, TraceValueUnit,
    TransductionUnits, VibratoryPolarityCode,
};
use giga_segy::header_structs::c_safe_name;
use giga_segy::text::ascii_bytes_to_string;

#[test]
fn test_c_safe_name() {
    let name0 = vec![b'T', b'e', b'a', b' ', b'b', b'a', b'g'];
    let processed = c_safe_name(&name0);
    assert_eq!(&processed, "Tea bag");
}

#[test]
fn test_c_safe_nam1() {
    let name0 = vec![b'T', b'e', b'a', b'0', b'b', b'a', b'g'];
    let processed = c_safe_name(&name0);
    assert_eq!(&processed, "Tea0bag");
}

#[test]
fn test_c_safe_name2() {
    let name0 = vec![b'T', b'e', b'a', 0, b'b', b'a', b'g'];
    let processed = c_safe_name(&name0);
    assert_eq!(&processed, "");
}

#[test]
fn test_ascii_bytes_to_string() {
    let name0 = vec![b'T', b'e', b'a', b' ', b'b', b'a', b'g'];
    let processed = ascii_bytes_to_string(&name0);
    assert_eq!(&processed, "Tea bag");
}

#[test]
fn test_ascii_bytes_to_string1() {
    let name0 = vec![b'T', b'e', b'a', b'0', b'b', b'a', b'g'];
    let processed = ascii_bytes_to_string(&name0);
    assert_eq!(&processed, "Tea0bag");
}

#[test]
fn test_ascii_bytes_to_string2() {
    let name0 = vec![b'T', b'e', b'a', 0, b'b', b'a', b'g'];
    let processed = ascii_bytes_to_string(&name0);
    assert_eq!(&processed, "Tea");
}

#[test]
fn sample_format_code_new() {
    assert_eq!(SampleFormatCode::new(1).unwrap(), SampleFormatCode::IbmFloat32);
    assert_eq!(SampleFormatCode::new(2).unwrap(), SampleFormatCode::Int32);
    assert_eq!(SampleFormatCode::new(3).unwrap(), SampleFormatCode::Int16);
    assert_eq!(SampleFormatCode::new(4).unwrap(), SampleFormatCode::FixPoint32);
    assert_eq!(SampleFormatCode::new(5).unwrap(), SampleFormatCode::Float32);
    assert_eq!(SampleFormatCode::new(6).unwrap(), SampleFormatCode::Float64);
    assert_eq!(SampleFormatCode::new(7).unwrap(), SampleFormatCode::Int24);
    assert_eq!(SampleFormatCode::new(8).unwrap(), SampleFormatCode::Int8);
    assert_eq!(SampleFormatCode::new(9).unwrap(), SampleFormatCode::Int64);
    assert_eq!(SampleFormatCode::new(10).unwrap(), SampleFormatCode::UInt32);
    assert_eq!(SampleFormatCode::new(11).unwrap(), SampleFormatCode::UInt16);
    assert_eq!(SampleFormatCode::new(12).unwrap(), SampleFormatCode::UInt64);
    assert!(SampleFormatCode::new(13).is_err());
    assert!(SampleFormatCode::new(14).is_err());
    assert_eq!(SampleFormatCode::new(15).unwrap(), SampleFormatCode::UInt24);
    assert_eq!(SampleFormatCode::new(16).unwrap(), SampleFormatCode::UInt8);
}

#[test]
fn sample_format_code_datum_byte_length() {
    assert_eq!(SampleFormatCode::IbmFloat32.datum_byte_length(), 4);
    assert_eq!(SampleFormatCode::Int32.datum_byte_length(), 4);
    assert_eq!(SampleFormatCode::Int16.datum_byte_length(), 2);
    assert_eq!(SampleFormatCode::FixPoint32.datum_byte_length(), 4);
    assert_eq!(SampleFormatCode::Float32.datum_byte_length(), 4);
    assert_eq!(SampleFormatCode::Float64.datum_byte_length(), 8);
    assert_eq!(SampleFormatCode::Int24.datum_byte_length(), 3);
    assert_eq!(SampleFormatCode::Int8.datum_byte_length(), 1);
    assert_eq!(SampleFormatCode::Int64.datum_byte_length(), 8);
    assert_eq!(SampleFormatCode::UInt32.datum_byte_length(), 4);
    assert_eq!(SampleFormatCode::UInt16.datum_byte_length(), 2);
    assert_eq!(SampleFormatCode::UInt64.datum_byte_length(), 8);
    assert_eq!(SampleFormatCode::UInt24.datum_byte_length(), 3);
    assert_eq!(SampleFormatCode::UInt8.datum_byte_length(), 1);
}

#[test]
fn trace_sorting_code_new() {
    assert_eq!(TraceSortingCode::Other, TraceSortingCode::new(-1));
    assert_eq!(TraceSortingCode::Unknown, TraceSortingCode::new(0));
    assert_eq!(TraceSortingCode::AsRec, TraceSortingCode::new(1));
    assert_eq!(TraceSortingCode::CDPEnsemble, TraceSortingCode::new(2));
    assert_eq!(TraceSortingCode::SingleFoldContinuous, TraceSortingCode::new(3));
    assert_eq!(TraceSortingCode::HorizontalStack, TraceSortingCode::new(4));
    assert_eq!(TraceSortingCode::CommonSourcePoint, TraceSortingCode::new(5));
    assert_eq!(TraceSortingCode::CommonReceiverPoint, TraceSortingCode::new(6));
    assert_eq!(TraceSortingCode::CommonOffsetPoint, TraceSortingCode::new(7));
    assert_eq!(TraceSortingCode::CommonMidPoint, TraceSortingCode::new(8));
    assert_eq!(TraceSortingCode::CommonConversionPoint, TraceSortingCode::new(9));
    assert_eq!(TraceSortingCode::Invalid, TraceSortingCode::new(-50));
    assert_eq!(TraceSortingCode::Invalid, TraceSortingCode::new(50));
}

#[test]
fn sweep_type_code_new() {
    assert_eq!(SweepTypeCode::Unspecified, SweepTypeCode::new(0));
    assert_eq!(SweepTypeCode::Linear, SweepTypeCode::new(1));
    assert_eq!(SweepTypeCode::Parabolic, SweepTypeCode::new(2));
    assert_eq!(SweepTypeCode::Exponential, SweepTypeCode::new(3));
    assert_eq!(SweepTypeCode::Other, SweepTypeCode::new(4));
    assert_eq!(SweepTypeCode::Invalid, SweepTypeCode::new(50));
}

#[test]
fn taper_type_new() {
    assert_eq!(TaperType::Unspecified, TaperType::new(0));
    assert_eq!(TaperType::Linear, TaperType::new(1));
    assert_eq!(TaperType::Cosine2, TaperType::new(2));
    assert_eq!(TaperType::Other, TaperType::new(3));
    assert_eq!(TaperType::Invalid, TaperType::new(50));
}

#[test]
fn cdt_new() {
    assert_eq!(CorrelatedDataTraces::Unspecified, CorrelatedDataTraces::new(0));
    assert_eq!(CorrelatedDataTraces::No, CorrelatedDataTraces::new(1));
    assert_eq!(CorrelatedDataTraces::Yes, CorrelatedDataTraces::new(2));
    assert_eq!(CorrelatedDataTraces::Invalid, CorrelatedDataTraces::new(40));
    assert_eq!(CorrelatedDataTraces::Invalid, CorrelatedDataTraces::new(3));
    assert_eq!(CorrelatedDataTraces::Invalid, CorrelatedDataTraces::new(255));
}

#[test]
fn bgr_new() {
    assert_eq!(BinaryGainRecovered::Unspecified, BinaryGainRecovered::new(0));
    assert_eq!(BinaryGainRecovered::Yes, BinaryGainRecovered::new(1));
    assert_eq!(BinaryGainRecovered::No, BinaryGainRecovered::new(2));
    assert_eq!(BinaryGainRecovered::Invalid, BinaryGainRecovered::new(40));
    assert_eq!(BinaryGainRecovered::Invalid, BinaryGainRecovered::new(3));
    assert_eq!(BinaryGainRecovered::Invalid, BinaryGainRecovered::new(255));
}

#[test]
fn arm_new() {
    assert_eq!(AmplitudeRecoveryMethod::Unspecified, AmplitudeRecoveryMethod::new(0));
    assert_eq!(AmplitudeRecoveryMethod::NoRecovery, AmplitudeRecoveryMethod::new(1));
    assert_eq!(AmplitudeRecoveryMethod::SphericalDivergence, AmplitudeRecoveryMethod::new(2));
    assert_eq!(AmplitudeRecoveryMethod::Agc, AmplitudeRecoveryMethod::new(3));
    assert_eq!(AmplitudeRecoveryMethod::Other, AmplitudeRecoveryMethod::new(4));
    assert_eq!(AmplitudeRecoveryMethod::Invalid, AmplitudeRecoveryMethod::new(9));
}

#[test]
fn measurement_system_new() {
    assert_eq!(MeasurementSystem::Unspecified, MeasurementSystem::new(0));
    assert_eq!(MeasurementSystem::Meters, MeasurementSystem::new(1));
    assert_eq!(MeasurementSystem::Feet, MeasurementSystem::new(2));
    assert_eq!(MeasurementSystem::Invalid, MeasurementSystem::new(6));
}

#[test]
fn isp_new() {
    assert_eq!(ImpulseSignalPolarity::Unspecified, ImpulseSignalPolarity::new(0));
    assert_eq!(ImpulseSignalPolarity::IncreasePressureMinus, ImpulseSignalPolarity::new(1));
    assert_eq!(ImpulseSignalPolarity::IncreasePressurePlus, ImpulseSignalPolarity::new(2));
    assert_eq!(ImpulseSignalPolarity::Invalid, ImpulseSignalPolarity::new(50));
}

#[test]
fn vpc_new() {
    assert_eq!(VibratoryPolarityCode::Unspecified, VibratoryPolarityCode::new(0));
    assert_eq!(VibratoryPolarityCode::From338, VibratoryPolarityCode::new(1));
    assert_eq!(VibratoryPolarityCode::From23, VibratoryPolarityCode::new(2));
    assert_eq!(VibratoryPolarityCode::From68, VibratoryPolarityCode::new(3));
    assert_eq!(VibratoryPolarityCode::From113, VibratoryPolarityCode::new(4));
    assert_eq!(VibratoryPolarityCode::From158, VibratoryPolarityCode::new(5));
    assert_eq!(VibratoryPolarityCode::From203, VibratoryPolarityCode::new(6));
    assert_eq!(VibratoryPolarityCode::From248, VibratoryPolarityCode::new(7));
    assert_eq!(VibratoryPolarityCode::From293, VibratoryPolarityCode::new(8));
    assert_eq!(VibratoryPolarityCode::Invalid, VibratoryPolarityCode::new(99));
    assert_eq!(VibratoryPolarityCode::Invalid, VibratoryPolarityCode::new(9));
}

#[test]
fn time_basis_new() {
    assert_eq!(TimeBasisCode::Unspecified, TimeBasisCode::new(0));
    assert_eq!(TimeBasisCode::Local, TimeBasisCode::new(1));
    assert_eq!(TimeBasisCode::GreenwichGMT, TimeBasisCode::new(2));
    assert_eq!(TimeBasisCode::Other, TimeBasisCode::new(3));
    assert_eq!(TimeBasisCode::CoordinatedUTC, TimeBasisCode::new(4));
    assert_eq!(TimeBasisCode::GlobalGPS, TimeBasisCode::new(5));
    assert_eq!(TimeBasisCode::Invalid, TimeBasisCode::new(6));
    assert_eq!(TimeBasisCode::Invalid, TimeBasisCode::new(66));
}

#[test]
fn data_use_new() {
    assert_eq!(DataUse::Unspecified, DataUse::new(0));
    assert_eq!(DataUse::Production, DataUse::new(1));
    assert_eq!(DataUse::Test, DataUse::new(2));
    assert_eq!(DataUse::Invalid, DataUse::new(3));
    assert_eq!(DataUse::Invalid, DataUse::new(40));
}

#[test]
fn coordinate_units_new() {
    assert_eq!(CoordinateUnits::Unspecified, CoordinateUnits::new(0));
    assert_eq!(CoordinateUnits::Length, CoordinateUnits::new(1));
    assert_eq!(CoordinateUnits::SecondsOfArc, CoordinateUnits::new(2));
    assert_eq!(CoordinateUnits::DegreesDecimal, CoordinateUnits::new(3));
    assert_eq!(CoordinateUnits::DegreesMinutesSeconds, CoordinateUnits::new(4));
    assert_eq!(CoordinateUnits::Invalid, CoordinateUnits::new(5));
    assert_eq!(CoordinateUnits::Invalid, CoordinateUnits::new(255));
    assert_eq!(CoordinateUnits::Invalid, CoordinateUnits::new(55));
}

#[test]
fn correlated_new() {
    assert_eq!(Correlated::Unspecified, Correlated::new(0));
    assert_eq!(Correlated::No, Correlated::new(1));
    assert_eq!(Correlated::Yes, Correlated::new(2));
    assert_eq!(Correlated::Invalid, Correlated::new(9));
    assert_eq!(Correlated::Invalid, Correlated::new(3));
    assert_eq!(Correlated::Invalid, Correlated::new(29));
}

#[test]
fn sweep_type_new() {
    assert_eq!(SweepType::Unspecified, SweepType::new(0));
    assert_eq!(SweepType::Linear, SweepType::new(1));
    assert_eq!(SweepType::Parabolic, SweepType::new(2));
    assert_eq!(SweepType::Exponential, SweepType::new(3));
    assert_eq!(SweepType::Other, SweepType::new(4));
    assert_eq!(SweepType::Invalid, SweepType::new(5));
    assert_eq!(SweepType::Invalid, SweepType::new(55));
    assert_eq!(SweepType::Invalid, SweepType::new(255));
}

#[test]
fn overtravel_new() {
    assert_eq!(OverTravel::Unspecified, OverTravel::new(0));
    assert_eq!(OverTravel::Up, OverTravel::new(1));
    assert_eq!(OverTravel::Down, OverTravel::new(2));
    assert_eq!(OverTravel::Invalid, OverTravel::new(3));
    assert_eq!(OverTravel::Invalid, OverTravel::new(33));
    assert_eq!(OverTravel::Invalid, OverTravel::new(233));
}

#[test]
fn trace_value_unit_new() {
    assert_eq!(TraceValueUnit::Other, TraceValueUnit::new(-1));
    assert_eq!(TraceValueUnit::Unknown, TraceValueUnit::new(0));
    assert_eq!(TraceValueUnit::Pascal, TraceValueUnit::new(1));
    assert_eq!(TraceValueUnit::Volts, TraceValueUnit::new(2));
    assert_eq!(TraceValueUnit::Millivolts, TraceValueUnit::new(3));
    assert_eq!(TraceValueUnit::Amperes, TraceValueUnit::new(4));
    assert_eq!(TraceValueUnit::Meters, TraceValueUnit::new(5));
    assert_eq!(TraceValueUnit::MetersPerSecond, TraceValueUnit::new(6));
    assert_eq!(TraceValueUnit::MetersPerSecond2, TraceValueUnit::new(7));
    assert_eq!(TraceValueUnit::Newton, TraceValueUnit::new(8));
    assert_eq!(TraceValueUnit::Watt, TraceValueUnit::new(9));
    assert_eq!(TraceValueUnit::Invalid, TraceValueUnit::new(10));
    assert_eq!(TraceValueUnit::Invalid, TraceValueUnit::new(100));
    assert_eq!(TraceValueUnit::Invalid, TraceValueUnit::new(255));
}

#[test]
fn transduction_unit_new() {
    assert_eq!(TransductionUnits::Other, TransductionUnits::new(-1));
    assert_eq!(TransductionUnits::Unknown, TransductionUnits::new(0));
    assert_eq!(TransductionUnits::Pascal, TransductionUnits::new(1));
    assert_eq!(TransductionUnits::Volts, TransductionUnits::new(2));
    assert_eq!(TransductionUnits::Millivolts, TransductionUnits::new(3));
    assert_eq!(TransductionUnits::Amperes, TransductionUnits::new(4));
    assert_eq!(TransductionUnits::Meters, TransductionUnits::new(5));
    assert_eq!(TransductionUnits::MetersPerSecond, TransductionUnits::new(6));
    assert_eq!(TransductionUnits::MetersPerSecond2, TransductionUnits::new(7));
    assert_eq!(TransductionUnits::Newton, TransductionUnits::new(8));
    assert_eq!(TransductionUnits::Watt, TransductionUnits::new(9));
    assert_eq!(TransductionUnits::Invalid, TransductionUnits::new(10));
    assert_eq!(TransductionUnits::Invalid, TransductionUnits::new(100));
    assert_eq!(TransductionUnits::Invalid, TransductionUnits::new(255));
}

#[test]
fn source_type_new() {
    assert_eq!(SourceType::Unknown, SourceType::new(0));
    assert_eq!(SourceType::VibratoryVertical, SourceType::new(1));
    assert_eq!(SourceType::VibratoryCrossLine, SourceType::new(2));
    assert_eq!(SourceType::VibratoryInLine, SourceType::new(3));
    assert_eq!(SourceType::ImpulsiveVertical, SourceType::new(4));
    assert_eq!(SourceType::ImpulsiveCrossLine, SourceType::new(5));
    assert_eq!(SourceType::ImpulsiveInLine, SourceType::new(6));
    assert_eq!(SourceType::DistributedImpulsiveVertical, SourceType::new(7));
    assert_eq!(SourceType::DistributedImpulsiveCrossLine, SourceType::new(8));
    assert_eq!(SourceType::DistributedImpulsiveInLine, SourceType::new(9));
    assert_eq!(SourceType::Invalid, SourceType::new(10));
    assert_eq!(SourceType::Invalid, SourceType::new(100));
    assert_eq!(SourceType::Invalid, SourceType::new(-100));
}

#[test]
fn scu_new() {
    assert_eq!(SourceMeasurementUnit::Other, SourceMeasurementUnit::new(-1));
    assert_eq!(SourceMeasurementUnit::Unknown, SourceMeasurementUnit::new(0));
    assert_eq!(SourceMeasurementUnit::Joule, SourceMeasurementUnit::new(1));
    assert_eq!(SourceMeasurementUnit::KiloWatt, SourceMeasurementUnit::new(2));
    assert_eq!(SourceMeasurementUnit::Pascal, SourceMeasurementUnit::new(3));
    assert_eq!(SourceMeasurementUnit::Bar, SourceMeasurementUnit::new(4));
    assert_eq!(SourceMeasurementUnit::BarMeter, SourceMeasurementUnit::new(5));
    assert_eq!(SourceMeasurementUnit::Newton, SourceMeasurementUnit::new(6));
    assert_eq!(SourceMeasurementUnit::Kilograms, SourceMeasurementUnit::new(7));
    assert_eq!(SourceMeasurementUnit::Invalid, SourceMeasurementUnit::new(8));
    assert_eq!(SourceMeasurementUnit::Invalid, SourceMeasurementUnit::new(80));
    assert_eq!(SourceMeasurementUnit::Invalid, SourceMeasurementUnit::new(-8));
    assert_eq!(SourceMeasurementUnit::Invalid, SourceMeasurementUnit::new(80));
}

#[test]
fn trace_id_code_new() {
    assert_eq!(TraceIdCode::Other, TraceIdCode::new(-1));
    assert_eq!(TraceIdCode::Unknown, TraceIdCode::new(0));
    assert_eq!(TraceIdCode::TimeDomainSeismic, TraceIdCode::new(1));
    assert_eq!(TraceIdCode::Dead, TraceIdCode::new(2));
    assert_eq!(TraceIdCode::Dummy, TraceIdCode::new(3));
    assert_eq!(TraceIdCode::TimeBreak, TraceIdCode::new(4));
    assert_eq!(TraceIdCode::Uphole, TraceIdCode::new(5));
    assert_eq!(TraceIdCode::Sweep, TraceIdCode::new(6));
    assert_eq!(TraceIdCode::Timing, TraceIdCode::new(7));
    assert_eq!(TraceIdCode::Waterbreak, TraceIdCode::new(8));
    assert_eq!(TraceIdCode::NearFieldGunSig, TraceIdCode::new(9));
    assert_eq!(TraceIdCode::FarFieldGunSig, TraceIdCode::new(10));
    assert_eq!(TraceIdCode::SeismicPressureSensor, TraceIdCode::new(11));
    assert_eq!(TraceIdCode::MulticomponentVertical, TraceIdCode::new(12));
    assert_eq!(TraceIdCode::MulticomponentCrossLine, TraceIdCode::new(13));
    assert_eq!(TraceIdCode::MulticomponentInLine, TraceIdCode::new(14));
    assert_eq!(TraceIdCode::RotatedVertical, TraceIdCode::new(15));
    assert_eq!(TraceIdCode::RotatedTransverse, TraceIdCode::new(16));
    assert_eq!(TraceIdCode::RotatedRadial, TraceIdCode::new(17));
    assert_eq!(TraceIdCode::VibratorReactionMass, TraceIdCode::new(18));
    assert_eq!(TraceIdCode::VibratorBaseplate, TraceIdCode::new(19));
    assert_eq!(TraceIdCode::VibratorEstimatedGroundForce, TraceIdCode::new(20));
    assert_eq!(TraceIdCode::VibratorReference, TraceIdCode::new(21));
    assert_eq!(TraceIdCode::TimeVelocityPairs, TraceIdCode::new(22));
    assert_eq!(TraceIdCode::TimeDepthPairs, TraceIdCode::new(23));
    assert_eq!(TraceIdCode::DepthVelocityPairs, TraceIdCode::new(24));
    assert_eq!(TraceIdCode::DepthDomainSeismic, TraceIdCode::new(25));
    assert_eq!(TraceIdCode::GravityPotential, TraceIdCode::new(26));
    assert_eq!(TraceIdCode::EFVertical, TraceIdCode::new(27));
    assert_eq!(TraceIdCode::EFCrossLine, TraceIdCode::new(28));
    assert_eq!(TraceIdCode::EFInLine, TraceIdCode::new(29));
    assert_eq!(TraceIdCode::RotatedEFVertical, TraceIdCode::new(30));
    assert_eq!(TraceIdCode::RotatedEFTransverse, TraceIdCode::new(31));
    assert_eq!(TraceIdCode::RotatedEFRadial, TraceIdCode::new(32));
    assert_eq!(TraceIdCode::MFVertical, TraceIdCode::new(33));
    assert_eq!(TraceIdCode::MFCrossLine, TraceIdCode::new(34));
    assert_eq!(TraceIdCode::MFInLine, TraceIdCode::new(35));
    assert_eq!(TraceIdCode::RotatedMFVertical, TraceIdCode::new(36));
    assert_eq!(TraceIdCode::RotatedMFTransverse, TraceIdCode::new(37));
    assert_eq!(TraceIdCode::RotatedMFRadial, TraceIdCode::new(38));
    assert_eq!(TraceIdCode::RotatedSensorPitch, TraceIdCode::new(39));
    assert_eq!(TraceIdCode::RotatedSensorRoll, TraceIdCode::new(40));
    assert_eq!(TraceIdCode::RotatedSensorYaw, TraceIdCode::new(41));
    assert_eq!(TraceIdCode::Invalid, TraceIdCode::new(42));
    assert_eq!(TraceIdCode::Invalid, TraceIdCode::new(43));
    assert_eq!(TraceIdCode::Invalid, TraceIdCode::new(255));
    assert_eq!(TraceIdCode::Invalid, TraceIdCode::new(-255));
    assert_eq!(TraceIdCode::Invalid, TraceIdCode::new(-2));
}

#[test]
fn fixed_length_traces() {
    assert_eq!(FixedLengthTraces::Yes, FixedLengthTraces::new(1).unwrap());
    assert_eq!(FixedLengthTraces::No, FixedLengthTraces::new(0).unwrap());
    assert!(FixedLengthTraces::new(55).is_err());
    assert!(FixedLengthTraces::new(2).is_err());
    assert!(FixedLengthTraces::new(255).is_err());
    assert!(!FixedLengthTraces::No.yes());
    assert!(FixedLengthTraces::No.no());
    assert!(!FixedLengthTraces::Yes.no());
    assert!(FixedLengthTraces::Yes.yes());
}
