//! The closed coded vocabularies of the binary and trace headers.
//!
//! Each coded field of a header is modelled as an enum. Fields that appear
//! only in the binary header reject unknown codes with an error; fields of
//! the trace header fall back to a dedicated `Invalid` variant instead,
//! because relocated byte layouts can make their position meaningless.
//! Every `new` is specified against a spec-level decoder, and every `code`
//! guarantees that decoding the produced code yields the variant back.

use crate::errors::RsgError;
use vstd::prelude::*;
use vstd::string::StringExecFns;

verus! {

/// Which header field, or file position, orders the traces of a file.
#[derive(Debug, Clone, Copy, PartialEq, Eq, Structural)]
pub enum OrderTraceBy {
    Default,
    TraceSequenceOnLine,
    TraceSequenceInFile,
    FieldRecordNo,
    TraceNo,
    TraceNoInEnsemble,
}

/// Sample encoding of the trace data, from bytes 24..26 of the binary header.
#[derive(Debug, Clone, Copy, PartialEq, Eq, Structural)]
pub enum SampleFormatCode {
    IbmFloat32,
    Int32,
    Int16,
    FixPoint32,
    Float32,
    Float64,
    Int24,
    Int8,
    Int64,
    UInt32,
    UInt16,
    UInt64,
    UInt24,
    UInt8,
}

impl SampleFormatCode {
    /// The variant a wire code decodes to, if it is a recognised code.
    pub open spec fn spec_new(source: u16) -> Option<SampleFormatCode> {
        match source {
            1u16 => Some(SampleFormatCode::IbmFloat32),
            2u16 => Some(SampleFormatCode::Int32),
            3u16 => Some(SampleFormatCode::Int16),
            4u16 => Some(SampleFormatCode::FixPoint32),
            5u16 => Some(SampleFormatCode::Float32),
            6u16 => Some(SampleFormatCode::Float64),
            7u16 => Some(SampleFormatCode::Int24),
            8u16 => Some(SampleFormatCode::Int8),
            9u16 => Some(SampleFormatCode::Int64),
            10u16 => Some(SampleFormatCode::UInt32),
            11u16 => Some(SampleFormatCode::UInt16),
            12u16 => Some(SampleFormatCode::UInt64),
            15u16 => Some(SampleFormatCode::UInt24),
            16u16 => Some(SampleFormatCode::UInt8),
            _ => None,
        }
    }

    /// The wire code of each variant.
    pub open spec fn spec_code(self) -> u16 {
        match self {
            SampleFormatCode::IbmFloat32 => 1u16,
            SampleFormatCode::Int32 => 2u16,
            SampleFormatCode::Int16 => 3u16,
            SampleFormatCode::FixPoint32 => 4u16,
            SampleFormatCode::Float32 => 5u16,
            SampleFormatCode::Float64 => 6u16,
            SampleFormatCode::Int24 => 7u16,
            SampleFormatCode::Int8 => 8u16,
            SampleFormatCode::Int64 => 9u16,
            SampleFormatCode::UInt32 => 10u16,
            SampleFormatCode::UInt16 => 11u16,
            SampleFormatCode::UInt64 => 12u16,
            SampleFormatCode::UInt24 => 15u16,
            SampleFormatCode::UInt8 => 16u16,
        }
    }

    /// Decodes a wire code, rejecting unknown codes.
    pub fn new(source: u16) -> (r: Result<Self, RsgError>)
        ensures
            match SampleFormatCode::spec_new(source) {
                Some(v) => r == Ok::<SampleFormatCode, RsgError>(v),
                None => (r matches Err(RsgError::ParseEnum { f, code }) && f@
                    == "SampleFormatCode"@ && code == source),
            },
    {
        let v = match source {
            1 => SampleFormatCode::IbmFloat32,
            2 => SampleFormatCode::Int32,
            3 => SampleFormatCode::Int16,
            4 => SampleFormatCode::FixPoint32,
            5 => SampleFormatCode::Float32,
            6 => SampleFormatCode::Float64,
            7 => SampleFormatCode::Int24,
            8 => SampleFormatCode::Int8,
            9 => SampleFormatCode::Int64,
            10 => SampleFormatCode::UInt32,
            11 => SampleFormatCode::UInt16,
            12 => SampleFormatCode::UInt64,
            15 => SampleFormatCode::UInt24,
            16 => SampleFormatCode::UInt8,
            _ => {
                return Err(RsgError::ParseEnum {
                    f: String::from_str("SampleFormatCode"),
                    code: source,
                });
            },
        };
        Ok(v)
    }

    /// The wire code of this variant; decoding it yields the variant back.
    pub fn code(self) -> (r: u16)
        ensures
            r == self.spec_code(),
            SampleFormatCode::spec_new(r) == Some(self),
    {
        match self {
            SampleFormatCode::IbmFloat32 => 1,
            SampleFormatCode::Int32 => 2,
            SampleFormatCode::Int16 => 3,
            SampleFormatCode::FixPoint32 => 4,
            SampleFormatCode::Float32 => 5,
            SampleFormatCode::Float64 => 6,
            SampleFormatCode::Int24 => 7,
            SampleFormatCode::Int8 => 8,
            SampleFormatCode::Int64 => 9,
            SampleFormatCode::UInt32 => 10,
            SampleFormatCode::UInt16 => 11,
            SampleFormatCode::UInt64 => 12,
            SampleFormatCode::UInt24 => 15,
            SampleFormatCode::UInt8 => 16,
        }
    }

    /// How many bytes one datum of this format occupies.
    pub open spec fn spec_datum_byte_length(self) -> usize {
        match self {
            SampleFormatCode::IbmFloat32 => 4usize,
            SampleFormatCode::Int32 => 4usize,
            SampleFormatCode::Int16 => 2usize,
            SampleFormatCode::FixPoint32 => 4usize,
            SampleFormatCode::Float32 => 4usize,
            SampleFormatCode::Float64 => 8usize,
            SampleFormatCode::Int24 => 3usize,
            SampleFormatCode::Int8 => 1usize,
            SampleFormatCode::Int64 => 8usize,
            SampleFormatCode::UInt32 => 4usize,
            SampleFormatCode::UInt16 => 2usize,
            SampleFormatCode::UInt64 => 8usize,
            SampleFormatCode::UInt24 => 3usize,
            SampleFormatCode::UInt8 => 1usize,
        }
    }

    /// The byte length of a datum, used to size trace records.
    pub fn datum_byte_length(self) -> (r: usize)
        ensures
            r == self.spec_datum_byte_length(),
            1 <= r <= 8,
    {
        match self {
            SampleFormatCode::IbmFloat32 => 4,
            SampleFormatCode::Int32 => 4,
            SampleFormatCode::Int16 => 2,
            SampleFormatCode::FixPoint32 => 4,
            SampleFormatCode::Float32 => 4,
            SampleFormatCode::Float64 => 8,
            SampleFormatCode::Int24 => 3,
            SampleFormatCode::Int8 => 1,
            SampleFormatCode::Int64 => 8,
            SampleFormatCode::UInt32 => 4,
            SampleFormatCode::UInt16 => 2,
            SampleFormatCode::UInt64 => 8,
            SampleFormatCode::UInt24 => 3,
            SampleFormatCode::UInt8 => 1,
        }
    }
}

/// Whether every trace of the file has the length the binary header
/// declares, from bytes 302..304 of the binary header.
#[derive(Debug, Clone, Copy, PartialEq, Eq, Structural)]
pub enum FixedLengthTraces {
    Yes,
    No,
}

impl FixedLengthTraces {
    /// The variant a wire code decodes to, if it is a recognised code.
    pub open spec fn spec_new(source: u16) -> Option<FixedLengthTraces> {
        match source {
            1u16 => Some(FixedLengthTraces::Yes),
            0u16 => Some(FixedLengthTraces::No),
            _ => None,
        }
    }

    /// The wire code of each variant.
    pub open spec fn spec_code(self) -> u16 {
        match self {
            FixedLengthTraces::Yes => 1u16,
            FixedLengthTraces::No => 0u16,
        }
    }

    /// Decodes a wire code, rejecting unknown codes.
    pub fn new(source: u16) -> (r: Result<Self, RsgError>)
        ensures
            match FixedLengthTraces::spec_new(source) {
                Some(v) => r == Ok::<FixedLengthTraces, RsgError>(v),
                None => (r matches Err(RsgError::ParseEnum { f, code }) && f@
                    == "FixedLengthTraces"@ && code == source),
            },
    {
        match source {
            1 => Ok(FixedLengthTraces::Yes),
            0 => Ok(FixedLengthTraces::No),
            _ => Err(RsgError::ParseEnum {
                f: String::from_str("FixedLengthTraces"),
                code: source,
            }),
        }
    }

    /// The wire code of this variant; decoding it yields the variant back.
    pub fn code(self) -> (r: u16)
        ensures
            r == self.spec_code(),
            FixedLengthTraces::spec_new(r) == Some(self),
    {
        match self {
            FixedLengthTraces::Yes => 1,
            FixedLengthTraces::No => 0,
        }
    }

    /// True exactly for the `Yes` variant.
    pub fn yes(self) -> (r: bool)
        ensures
            r == (self is Yes),
    {
        self == FixedLengthTraces::Yes
    }

    /// True exactly for the `No` variant.
    pub fn no(self) -> (r: bool)
        ensures
            r == (self is No),
    {
        self == FixedLengthTraces::No
    }
}

/// Trace sorting, from bytes 28..30 of the binary header (signed).
///
/// Unknown codes decode to `Invalid` rather than failing.
#[derive(Debug, Clone, Copy, PartialEq, Eq, Structural)]
pub enum TraceSortingCode {
    Other,
    Unknown,
    AsRec,
    CDPEnsemble,
    SingleFoldContinuous,
    HorizontalStack,
    CommonSourcePoint,
    CommonReceiverPoint,
    CommonOffsetPoint,
    CommonMidPoint,
    CommonConversionPoint,
    Invalid,
}

impl TraceSortingCode {
    /// The variant a wire code decodes to; unknown codes give `Invalid`.
    pub open spec fn spec_new(source: i16) -> TraceSortingCode {
        match source {
            -1i16 => TraceSortingCode::Other,
            0i16 => TraceSortingCode::Unknown,
            1i16 => TraceSortingCode::AsRec,
            2i16 => TraceSortingCode::CDPEnsemble,
            3i16 => TraceSortingCode::SingleFoldContinuous,
            4i16 => TraceSortingCode::HorizontalStack,
            5i16 => TraceSortingCode::CommonSourcePoint,
            6i16 => TraceSortingCode::CommonReceiverPoint,
            7i16 => TraceSortingCode::CommonOffsetPoint,
            8i16 => TraceSortingCode::CommonMidPoint,
            9i16 => TraceSortingCode::CommonConversionPoint,
            _ => TraceSortingCode::Invalid,
        }
    }

    /// The wire code of each variant; `Invalid` gets a code that no
    /// variant decodes from, so decoding any code yields the variant back.
    pub open spec fn spec_code(self) -> i16 {
        match self {
            TraceSortingCode::Other => -1i16,
            TraceSortingCode::Unknown => 0i16,
            TraceSortingCode::AsRec => 1i16,
            TraceSortingCode::CDPEnsemble => 2i16,
            TraceSortingCode::SingleFoldContinuous => 3i16,
            TraceSortingCode::HorizontalStack => 4i16,
            TraceSortingCode::CommonSourcePoint => 5i16,
            TraceSortingCode::CommonReceiverPoint => 6i16,
            TraceSortingCode::CommonOffsetPoint => 7i16,
            TraceSortingCode::CommonMidPoint => 8i16,
            TraceSortingCode::CommonConversionPoint => 9i16,
            TraceSortingCode::Invalid => -32768i16,
        }
    }

    /// Decodes a wire code; unknown codes give `Invalid`.
    pub fn new(source: i16) -> (r: Self)
        ensures
            r == TraceSortingCode::spec_new(source),
    {
        match source {
            -1 => TraceSortingCode::Other,
            0 => TraceSortingCode::Unknown,
            1 => TraceSortingCode::AsRec,
            2 => TraceSortingCode::CDPEnsemble,
            3 => TraceSortingCode::SingleFoldContinuous,
            4 => TraceSortingCode::HorizontalStack,
            5 => TraceSortingCode::CommonSourcePoint,
            6 => TraceSortingCode::CommonReceiverPoint,
            7 => TraceSortingCode::CommonOffsetPoint,
            8 => TraceSortingCode::CommonMidPoint,
            9 => TraceSortingCode::CommonConversionPoint,
            _ => TraceSortingCode::Invalid,
        }
    }

    /// The wire code of this variant, for writing headers back out.
    pub fn code(self) -> (r: i16)
        requires
            !(self is Invalid),
        ensures
            r == self.spec_code(),
            TraceSortingCode::spec_new(r) == self,
    {
        match self {
            TraceSortingCode::Other => -1,
            TraceSortingCode::Unknown => 0,
            TraceSortingCode::AsRec => 1,
            TraceSortingCode::CDPEnsemble => 2,
            TraceSortingCode::SingleFoldContinuous => 3,
            TraceSortingCode::HorizontalStack => 4,
            TraceSortingCode::CommonSourcePoint => 5,
            TraceSortingCode::CommonReceiverPoint => 6,
            TraceSortingCode::CommonOffsetPoint => 7,
            TraceSortingCode::CommonMidPoint => 8,
            TraceSortingCode::CommonConversionPoint => 9,
            TraceSortingCode::Invalid => -32768,
        }
    }
}

/// Sweep type, from bytes 38..40 of the binary header.
///
/// Unknown codes decode to `Invalid` rather than failing.
#[derive(Debug, Clone, Copy, PartialEq, Eq, Structural)]
pub enum SweepTypeCode {
    Unspecified,
    Linear,
    Parabolic,
    Exponential,
    Other,
    Invalid,
}

impl SweepTypeCode {
    /// The variant a wire code decodes to; unknown codes give `Invalid`.
    pub open spec fn spec_new(source: u16) -> SweepTypeCode {
        match source {
            0u16 => SweepTypeCode::Unspecified,
            1u16 => SweepTypeCode::Linear,
            2u16 => SweepTypeCode::Parabolic,
            3u16 => SweepTypeCode::Exponential,
            4u16 => SweepTypeCode::Other,
            _ => SweepTypeCode::Invalid,
        }
    }

    /// The wire code of each variant; `Invalid` gets a code that no
    /// variant decodes from, so decoding any code yields the variant back.
    pub open spec fn spec_code(self) -> u16 {
        match self {
            SweepTypeCode::Unspecified => 0u16,
            SweepTypeCode::Linear => 1u16,
            SweepTypeCode::Parabolic => 2u16,
            SweepTypeCode::Exponential => 3u16,
            SweepTypeCode::Other => 4u16,
            SweepTypeCode::Invalid => 65535u16,
        }
    }

    /// Decodes a wire code; unknown codes give `Invalid`.
    pub fn new(source: u16) -> (r: Self)
        ensures
            r == SweepTypeCode::spec_new(source),
    {
        match source {
            0 => SweepTypeCode::Unspecified,
            1 => SweepTypeCode::Linear,
            2 => SweepTypeCode::Parabolic,
            3 => SweepTypeCode::Exponential,
            4 => SweepTypeCode::Other,
            _ => SweepTypeCode::Invalid,
        }
    }

    /// The wire code of this variant, for writing headers back out.
    pub fn code(self) -> (r: u16)
        requires
            !(self is Invalid),
        ensures
            r == self.spec_code(),
            SweepTypeCode::spec_new(r) == self,
    {
        match self {
            SweepTypeCode::Unspecified => 0,
            SweepTypeCode::Linear => 1,
            SweepTypeCode::Parabolic => 2,
            SweepTypeCode::Exponential => 3,
            SweepTypeCode::Other => 4,
            SweepTypeCode::Invalid => 65535,
        }
    }
}

/// Taper type, from bytes 46..48 of the binary header (also bytes 138..140 of a trace header).
///
/// Unknown codes decode to `Invalid` rather than failing.
#[derive(Debug, Clone, Copy, PartialEq, Eq, Structural)]
pub enum TaperType {
    Unspecified,
    Linear,
    Cosine2,
    Other,
    Invalid,
}

impl TaperType {
    /// The variant a wire code decodes to; unknown codes give `Invalid`.
    pub open spec fn spec_new(source: u16) -> TaperType {
        match source {
            0u16 => TaperType::Unspecified,
            1u16 => TaperType::Linear,
            2u16 => TaperType::Cosine2,
            3u16 => TaperType::Other,
            _ => TaperType::Invalid,
        }
    }

    /// The wire code of each variant; `Invalid` gets a code that no
    /// variant decodes from, so decoding any code yields the variant back.
    pub open spec fn spec_code(self) -> u16 {
        match self {
            TaperType::Unspecified => 0u16,
            TaperType::Linear => 1u16,
            TaperType::Cosine2 => 2u16,
            TaperType::Other => 3u16,
            TaperType::Invalid => 65535u16,
        }
    }

    /// Decodes a wire code; unknown codes give `Invalid`.
    pub fn new(source: u16) -> (r: Self)
        ensures
            r == TaperType::spec_new(source),
    {
        match source {
            0 => TaperType::Unspecified,
            1 => TaperType::Linear,
            2 => TaperType::Cosine2,
            3 => TaperType::Other,
            _ => TaperType::Invalid,
        }
    }

    /// The wire code of this variant, for writing headers back out.
    pub fn code(self) -> (r: u16)
        requires
            !(self is Invalid),
        ensures
            r == self.spec_code(),
            TaperType::spec_new(r) == self,
    {
        match self {
            TaperType::Unspecified => 0,
            TaperType::Linear => 1,
            TaperType::Cosine2 => 2,
            TaperType::Other => 3,
            TaperType::Invalid => 65535,
        }
    }
}

/// Whether data traces are correlated, from bytes 48..50 of the binary header.
///
/// Unknown codes decode to `Invalid` rather than failing.
#[derive(Debug, Clone, Copy, PartialEq, Eq, Structural)]
pub enum CorrelatedDataTraces {
    Unspecified,
    No,
    Yes,
    Invalid,
}

impl CorrelatedDataTraces {
    /// The variant a wire code decodes to; unknown codes give `Invalid`.
    pub open spec fn spec_new(source: u16) -> CorrelatedDataTraces {
        match source {
            0u16 => CorrelatedDataTraces::Unspecified,
            1u16 => CorrelatedDataTraces::No,
            2u16 => CorrelatedDataTraces::Yes,
            _ => CorrelatedDataTraces::Invalid,
        }
    }

    /// The wire code of each variant; `Invalid` gets a code that no
    /// variant decodes from, so decoding any code yields the variant back.
    pub open spec fn spec_code(self) -> u16 {
        match self {
            CorrelatedDataTraces::Unspecified => 0u16,
            CorrelatedDataTraces::No => 1u16,
            CorrelatedDataTraces::Yes => 2u16,
            CorrelatedDataTraces::Invalid => 65535u16,
        }
    }

    /// Decodes a wire code; unknown codes give `Invalid`.
    pub fn new(source: u16) -> (r: Self)
        ensures
            r == CorrelatedDataTraces::spec_new(source),
    {
        match source {
            0 => CorrelatedDataTraces::Unspecified,
            1 => CorrelatedDataTraces::No,
            2 => CorrelatedDataTraces::Yes,
            _ => CorrelatedDataTraces::Invalid,
        }
    }

    /// The wire code of this variant, for writing headers back out.
    pub fn code(self) -> (r: u16)
        requires
            !(self is Invalid),
        ensures
            r == self.spec_code(),
            CorrelatedDataTraces::spec_new(r) == self,
    {
        match self {
            CorrelatedDataTraces::Unspecified => 0,
            CorrelatedDataTraces::No => 1,
            CorrelatedDataTraces::Yes => 2,
            CorrelatedDataTraces::Invalid => 65535,
        }
    }
}

/// Whether binary gain was recovered, from bytes 50..52 of the binary header.
///
/// Unknown codes decode to `Invalid` rather than failing.
#[derive(Debug, Clone, Copy, PartialEq, Eq, Structural)]
pub enum BinaryGainRecovered {
    Unspecified,
    Yes,
    No,
    Invalid,
}

impl BinaryGainRecovered {
    /// The variant a wire code decodes to; unknown codes give `Invalid`.
    pub open spec fn spec_new(source: u16) -> BinaryGainRecovered {
        match source {
            0u16 => BinaryGainRecovered::Unspecified,
            1u16 => BinaryGainRecovered::Yes,
            2u16 => BinaryGainRecovered::No,
            _ => BinaryGainRecovered::Invalid,
        }
    }

    /// The wire code of each variant; `Invalid` gets a code that no
    /// variant decodes from, so decoding any code yields the variant back.
    pub open spec fn spec_code(self) -> u16 {
        match self {
            BinaryGainRecovered::Unspecified => 0u16,
            BinaryGainRecovered::Yes => 1u16,
            BinaryGainRecovered::No => 2u16,
            BinaryGainRecovered::Invalid => 65535u16,
        }
    }

    /// Decodes a wire code; unknown codes give `Invalid`.
    pub fn new(source: u16) -> (r: Self)
        ensures
            r == BinaryGainRecovered::spec_new(source),
    {
        match source {
            0 => BinaryGainRecovered::Unspecified,
            1 => BinaryGainRecovered::Yes,
            2 => BinaryGainRecovered::No,
            _ => BinaryGainRecovered::Invalid,
        }
    }

    /// The wire code of this variant, for writing headers back out.
    pub fn code(self) -> (r: u16)
        requires
            !(self is Invalid),
        ensures
            r == self.spec_code(),
            BinaryGainRecovered::spec_new(r) == self,
    {
        match self {
            BinaryGainRecovered::Unspecified => 0,
            BinaryGainRecovered::Yes => 1,
            BinaryGainRecovered::No => 2,
            BinaryGainRecovered::Invalid => 65535,
        }
    }
}

/// Amplitude recovery method, from bytes 52..54 of the binary header.
///
/// Unknown codes decode to `Invalid` rather than failing.
#[derive(Debug, Clone, Copy, PartialEq, Eq, Structural)]
pub enum AmplitudeRecoveryMethod {
    Unspecified,
    NoRecovery,
    SphericalDivergence,
    Agc,
    Other,
    Invalid,
}

impl AmplitudeRecoveryMethod {
    /// The variant a wire code decodes to; unknown codes give `Invalid`.
    pub open spec fn spec_new(source: u16) -> AmplitudeRecoveryMethod {
        match source {
            0u16 => AmplitudeRecoveryMethod::Unspecified,
            1u16 => AmplitudeRecoveryMethod::NoRecovery,
            2u16 => AmplitudeRecoveryMethod::SphericalDivergence,
            3u16 => AmplitudeRecoveryMethod::Agc,
            4u16 => AmplitudeRecoveryMethod::Other,
            _ => AmplitudeRecoveryMethod::Invalid,
        }
    }

    /// The wire code of each variant; `Invalid` gets a code that no
    /// variant decodes from, so decoding any code yields the variant back.
    pub open spec fn spec_code(self) -> u16 {
        match self {
            AmplitudeRecoveryMethod::Unspecified => 0u16,
            AmplitudeRecoveryMethod::NoRecovery => 1u16,
            AmplitudeRecoveryMethod::SphericalDivergence => 2u16,
            AmplitudeRecoveryMethod::Agc => 3u16,
            AmplitudeRecoveryMethod::Other => 4u16,
            AmplitudeRecoveryMethod::Invalid => 65535u16,
        }
    }

    /// Decodes a wire code; unknown codes give `Invalid`.
    pub fn new(source: u16) -> (r: Self)
        ensures
            r == AmplitudeRecoveryMethod::spec_new(source),
    {
        match source {
            0 => AmplitudeRecoveryMethod::Unspecified,
            1 => AmplitudeRecoveryMethod::NoRecovery,
            2 => AmplitudeRecoveryMethod::SphericalDivergence,
            3 => AmplitudeRecoveryMethod::Agc,
            4 => AmplitudeRecoveryMethod::Other,
            _ => AmplitudeRecoveryMethod::Invalid,
        }
    }

    /// The wire code of this variant, for writing headers back out.
    pub fn code(self) -> (r: u16)
        requires
            !(self is Invalid),
        ensures
            r == self.spec_code(),
            AmplitudeRecoveryMethod::spec_new(r) == self,
    {
        match self {
            AmplitudeRecoveryMethod::Unspecified => 0,
            AmplitudeRecoveryMethod::NoRecovery => 1,
            AmplitudeRecoveryMethod::SphericalDivergence => 2,
            AmplitudeRecoveryMethod::Agc => 3,
            AmplitudeRecoveryMethod::Other => 4,
            AmplitudeRecoveryMethod::Invalid => 65535,
        }
    }
}

/// Measurement system, from bytes 54..56 of the binary header.
///
/// Unknown codes decode to `Invalid` rather than failing.
#[derive(Debug, Clone, Copy, PartialEq, Eq, Structural)]
pub enum MeasurementSystem {
    Unspecified,
    Meters,
    Feet,
    Invalid,
}

impl MeasurementSystem {
    /// The variant a wire code decodes to; unknown codes give `Invalid`.
    pub open spec fn spec_new(source: u16) -> MeasurementSystem {
        match source {
            0u16 => MeasurementSystem::Unspecified,
            1u16 => MeasurementSystem::Meters,
            2u16 => MeasurementSystem::Feet,
            _ => MeasurementSystem::Invalid,
        }
    }

    /// The wire code of each variant; `Invalid` gets a code that no
    /// variant decodes from, so decoding any code yields the variant back.
    pub open spec fn spec_code(self) -> u16 {
        match self {
            MeasurementSystem::Unspecified => 0u16,
            MeasurementSystem::Meters => 1u16,
            MeasurementSystem::Feet => 2u16,
            MeasurementSystem::Invalid => 65535u16,
        }
    }

    /// Decodes a wire code; unknown codes give `Invalid`.
    pub fn new(source: u16) -> (r: Self)
        ensures
            r == MeasurementSystem::spec_new(source),
    {
        match source {
            0 => MeasurementSystem::Unspecified,
            1 => MeasurementSystem::Meters,
            2 => MeasurementSystem::Feet,
            _ => MeasurementSystem::Invalid,
        }
    }

    /// The wire code of this variant, for writing headers back out.
    pub fn code(self) -> (r: u16)
        requires
            !(self is Invalid),
        ensures
            r == self.spec_code(),
            MeasurementSystem::spec_new(r) == self,
    {
        match self {
            MeasurementSystem::Unspecified => 0,
            MeasurementSystem::Meters => 1,
            MeasurementSystem::Feet => 2,
            MeasurementSystem::Invalid => 65535,
        }
    }
}

/// Impulse signal polarity, from bytes 56..58 of the binary header.
///
/// Unknown codes decode to `Invalid` rather than failing.
#[derive(Debug, Clone, Copy, PartialEq, Eq, Structural)]
pub enum ImpulseSignalPolarity {
    Unspecified,
    IncreasePressureMinus,
    IncreasePressurePlus,
    Invalid,
}

impl ImpulseSignalPolarity {
    /// The variant a wire code decodes to; unknown codes give `Invalid`.
    pub open spec fn spec_new(source: u16) -> ImpulseSignalPolarity {
        match source {
            0u16 => ImpulseSignalPolarity::Unspecified,
            1u16 => ImpulseSignalPolarity::IncreasePressureMinus,
            2u16 => ImpulseSignalPolarity::IncreasePressurePlus,
            _ => ImpulseSignalPolarity::Invalid,
        }
    }

    /// The wire code of each variant; `Invalid` gets a code that no
    /// variant decodes from, so decoding any code yields the variant back.
    pub open spec fn spec_code(self) -> u16 {
        match self {
            ImpulseSignalPolarity::Unspecified => 0u16,
            ImpulseSignalPolarity::IncreasePressureMinus => 1u16,
            ImpulseSignalPolarity::IncreasePressurePlus => 2u16,
            ImpulseSignalPolarity::Invalid => 65535u16,
        }
    }

    /// Decodes a wire code; unknown codes give `Invalid`.
    pub fn new(source: u16) -> (r: Self)
        ensures
            r == ImpulseSignalPolarity::spec_new(source),
    {
        match source {
            0 => ImpulseSignalPolarity::Unspecified,
            1 => ImpulseSignalPolarity::IncreasePressureMinus,
            2 => ImpulseSignalPolarity::IncreasePressurePlus,
            _ => ImpulseSignalPolarity::Invalid,
        }
    }

    /// The wire code of this variant, for writing headers back out.
    pub fn code(self) -> (r: u16)
        requires
            !(self is Invalid),
        ensures
            r == self.spec_code(),
            ImpulseSignalPolarity::spec_new(r) == self,
    {
        match self {
            ImpulseSignalPolarity::Unspecified => 0,
            ImpulseSignalPolarity::IncreasePressureMinus => 1,
            ImpulseSignalPolarity::IncreasePressurePlus => 2,
            ImpulseSignalPolarity::Invalid => 65535,
        }
    }
}

/// Vibratory polarity code, from bytes 58..60 of the binary header.
///
/// Unknown codes decode to `Invalid` rather than failing.
#[derive(Debug, Clone, Copy, PartialEq, Eq, Structural)]
pub enum VibratoryPolarityCode {
    Unspecified,
    From338,
    From23,
    From68,
    From113,
    From158,
    From203,
    From248,
    From293,
    Invalid,
}

impl VibratoryPolarityCode {
    /// The variant a wire code decodes to; unknown codes give `Invalid`.
    pub open spec fn spec_new(source: u16) -> VibratoryPolarityCode {
        match source {
            0u16 => VibratoryPolarityCode::Unspecified,
            1u16 => VibratoryPolarityCode::From338,
            2u16 => VibratoryPolarityCode::From23,
            3u16 => VibratoryPolarityCode::From68,
            4u16 => VibratoryPolarityCode::From113,
            5u16 => VibratoryPolarityCode::From158,
            6u16 => VibratoryPolarityCode::From203,
            7u16 => VibratoryPolarityCode::From248,
            8u16 => VibratoryPolarityCode::From293,
            _ => VibratoryPolarityCode::Invalid,
        }
    }

    /// The wire code of each variant; `Invalid` gets a code that no
    /// variant decodes from, so decoding any code yields the variant back.
    pub open spec fn spec_code(self) -> u16 {
        match self {
            VibratoryPolarityCode::Unspecified => 0u16,
            VibratoryPolarityCode::From338 => 1u16,
            VibratoryPolarityCode::From23 => 2u16,
            VibratoryPolarityCode::From68 => 3u16,
            VibratoryPolarityCode::From113 => 4u16,
            VibratoryPolarityCode::From158 => 5u16,
            VibratoryPolarityCode::From203 => 6u16,
            VibratoryPolarityCode::From248 => 7u16,
            VibratoryPolarityCode::From293 => 8u16,
            VibratoryPolarityCode::Invalid => 65535u16,
        }
    }

    /// Decodes a wire code; unknown codes give `Invalid`.
    pub fn new(source: u16) -> (r: Self)
        ensures
            r == VibratoryPolarityCode::spec_new(source),
    {
        match source {
            0 => VibratoryPolarityCode::Unspecified,
            1 => VibratoryPolarityCode::From338,
            2 => VibratoryPolarityCode::From23,
            3 => VibratoryPolarityCode::From68,
            4 => VibratoryPolarityCode::From113,
            5 => VibratoryPolarityCode::From158,
            6 => VibratoryPolarityCode::From203,
            7 => VibratoryPolarityCode::From248,
            8 => VibratoryPolarityCode::From293,
            _ => VibratoryPolarityCode::Invalid,
        }
    }

    /// The wire code of this variant, for writing headers back out.
    pub fn code(self) -> (r: u16)
        requires
            !(self is Invalid),
        ensures
            r == self.spec_code(),
            VibratoryPolarityCode::spec_new(r) == self,
    {
        match self {
            VibratoryPolarityCode::Unspecified => 0,
            VibratoryPolarityCode::From338 => 1,
            VibratoryPolarityCode::From23 => 2,
            VibratoryPolarityCode::From68 => 3,
            VibratoryPolarityCode::From113 => 4,
            VibratoryPolarityCode::From158 => 5,
            VibratoryPolarityCode::From203 => 6,
            VibratoryPolarityCode::From248 => 7,
            VibratoryPolarityCode::From293 => 8,
            VibratoryPolarityCode::Invalid => 65535,
        }
    }
}

/// Time basis, from bytes 310..312 of the binary header (also bytes 166..168 of a trace header).
///
/// Unknown codes decode to `Invalid` rather than failing.
#[derive(Debug, Clone, Copy, PartialEq, Eq, Structural)]
pub enum TimeBasisCode {
    Unspecified,
    Local,
    GreenwichGMT,
    Other,
    CoordinatedUTC,
    GlobalGPS,
    Invalid,
}

impl TimeBasisCode {
    /// The variant a wire code decodes to; unknown codes give `Invalid`.
    pub open spec fn spec_new(source: u16) -> TimeBasisCode {
        match source {
            0u16 => TimeBasisCode::Unspecified,
            1u16 => TimeBasisCode::Local,
            2u16 => TimeBasisCode::GreenwichGMT,
            3u16 => TimeBasisCode::Other,
            4u16 => TimeBasisCode::CoordinatedUTC,
            5u16 => TimeBasisCode::GlobalGPS,
            _ => TimeBasisCode::Invalid,
        }
    }

    /// The wire code of each variant; `Invalid` gets a code that no
    /// variant decodes from, so decoding any code yields the variant back.
    pub open spec fn spec_code(self) -> u16 {
        match self {
            TimeBasisCode::Unspecified => 0u16,
            TimeBasisCode::Local => 1u16,
            TimeBasisCode::GreenwichGMT => 2u16,
            TimeBasisCode::Other => 3u16,
            TimeBasisCode::CoordinatedUTC => 4u16,
            TimeBasisCode::GlobalGPS => 5u16,
            TimeBasisCode::Invalid => 65535u16,
        }
    }

    /// Decodes a wire code; unknown codes give `Invalid`.
    pub fn new(source: u16) -> (r: Self)
        ensures
            r == TimeBasisCode::spec_new(source),
    {
        match source {
            0 => TimeBasisCode::Unspecified,
            1 => TimeBasisCode::Local,
            2 => TimeBasisCode::GreenwichGMT,
            3 => TimeBasisCode::Other,
            4 => TimeBasisCode::CoordinatedUTC,
            5 => TimeBasisCode::GlobalGPS,
            _ => TimeBasisCode::Invalid,
        }
    }

    /// The wire code of this variant, for writing headers back out.
    pub fn code(self) -> (r: u16)
        requires
            !(self is Invalid),
        ensures
            r == self.spec_code(),
            TimeBasisCode::spec_new(r) == self,
    {
        match self {
            TimeBasisCode::Unspecified => 0,
            TimeBasisCode::Local => 1,
            TimeBasisCode::GreenwichGMT => 2,
            TimeBasisCode::Other => 3,
            TimeBasisCode::CoordinatedUTC => 4,
            TimeBasisCode::GlobalGPS => 5,
            TimeBasisCode::Invalid => 65535,
        }
    }
}

/// Trace identification, from bytes 28..30 of a trace header (signed).
///
/// Unknown codes decode to `Invalid` rather than failing.
#[derive(Debug, Clone, Copy, PartialEq, Eq, Structural)]
pub enum TraceIdCode {
    Other,
    Unknown,
    TimeDomainSeismic,
    Dead,
    Dummy,
    TimeBreak,
    Uphole,
    Sweep,
    Timing,
    Waterbreak,
    NearFieldGunSig,
    FarFieldGunSig,
    SeismicPressureSensor,
    MulticomponentVertical,
    MulticomponentCrossLine,
    MulticomponentInLine,
    RotatedVertical,
    RotatedTransverse,
    RotatedRadial,
    VibratorReactionMass,
    VibratorBaseplate,
    VibratorEstimatedGroundForce,
    VibratorReference,
    TimeVelocityPairs,
    TimeDepthPairs,
    DepthVelocityPairs,
    DepthDomainSeismic,
    GravityPotential,
    EFVertical,
    EFCrossLine,
    EFInLine,
    RotatedEFVertical,
    RotatedEFTransverse,
    RotatedEFRadial,
    MFVertical,
    MFCrossLine,
    MFInLine,
    RotatedMFVertical,
    RotatedMFTransverse,
    RotatedMFRadial,
    RotatedSensorPitch,
    RotatedSensorRoll,
    RotatedSensorYaw,
    Invalid,
}

impl TraceIdCode {
    /// The variant a wire code decodes to; unknown codes give `Invalid`.
    pub open spec fn spec_new(source: i16) -> TraceIdCode {
        match source {
            -1i16 => TraceIdCode::Other,
            0i16 => TraceIdCode::Unknown,
            1i16 => TraceIdCode::TimeDomainSeismic,
            2i16 => TraceIdCode::Dead,
            3i16 => TraceIdCode::Dummy,
            4i16 => TraceIdCode::TimeBreak,
            5i16 => TraceIdCode::Uphole,
            6i16 => TraceIdCode::Sweep,
            7i16 => TraceIdCode::Timing,
            8i16 => TraceIdCode::Waterbreak,
            9i16 => TraceIdCode::NearFieldGunSig,
            10i16 => TraceIdCode::FarFieldGunSig,
            11i16 => TraceIdCode::SeismicPressureSensor,
            12i16 => TraceIdCode::MulticomponentVertical,
            13i16 => TraceIdCode::MulticomponentCrossLine,
            14i16 => TraceIdCode::MulticomponentInLine,
            15i16 => TraceIdCode::RotatedVertical,
            16i16 => TraceIdCode::RotatedTransverse,
            17i16 => TraceIdCode::RotatedRadial,
            18i16 => TraceIdCode::VibratorReactionMass,
            19i16 => TraceIdCode::VibratorBaseplate,
            20i16 => TraceIdCode::VibratorEstimatedGroundForce,
            21i16 => TraceIdCode::VibratorReference,
            22i16 => TraceIdCode::TimeVelocityPairs,
            23i16 => TraceIdCode::TimeDepthPairs,
            24i16 => TraceIdCode::DepthVelocityPairs,
            25i16 => TraceIdCode::DepthDomainSeismic,
            26i16 => TraceIdCode::GravityPotential,
            27i16 => TraceIdCode::EFVertical,
            28i16 => TraceIdCode::EFCrossLine,
            29i16 => TraceIdCode::EFInLine,
            30i16 => TraceIdCode::RotatedEFVertical,
            31i16 => TraceIdCode::RotatedEFTransverse,
            32i16 => TraceIdCode::RotatedEFRadial,
            33i16 => TraceIdCode::MFVertical,
            34i16 => TraceIdCode::MFCrossLine,
            35i16 => TraceIdCode::MFInLine,
            36i16 => TraceIdCode::RotatedMFVertical,
            37i16 => TraceIdCode::RotatedMFTransverse,
            38i16 => TraceIdCode::RotatedMFRadial,
            39i16 => TraceIdCode::RotatedSensorPitch,
            40i16 => TraceIdCode::RotatedSensorRoll,
            41i16 => TraceIdCode::RotatedSensorYaw,
            _ => TraceIdCode::Invalid,
        }
    }

    /// The wire code of each variant; `Invalid` gets a code that no
    /// variant decodes from, so decoding any code yields the variant back.
    pub open spec fn spec_code(self) -> i16 {
        match self {
            TraceIdCode::Other => -1i16,
            TraceIdCode::Unknown => 0i16,
            TraceIdCode::TimeDomainSeismic => 1i16,
            TraceIdCode::Dead => 2i16,
            TraceIdCode::Dummy => 3i16,
            TraceIdCode::TimeBreak => 4i16,
            TraceIdCode::Uphole => 5i16,
            TraceIdCode::Sweep => 6i16,
            TraceIdCode::Timing => 7i16,
            TraceIdCode::Waterbreak => 8i16,
            TraceIdCode::NearFieldGunSig => 9i16,
            TraceIdCode::FarFieldGunSig => 10i16,
            TraceIdCode::SeismicPressureSensor => 11i16,
            TraceIdCode::MulticomponentVertical => 12i16,
            TraceIdCode::MulticomponentCrossLine => 13i16,
            TraceIdCode::MulticomponentInLine => 14i16,
            TraceIdCode::RotatedVertical => 15i16,
            TraceIdCode::RotatedTransverse => 16i16,
            TraceIdCode::RotatedRadial => 17i16,
            TraceIdCode::VibratorReactionMass => 18i16,
            TraceIdCode::VibratorBaseplate => 19i16,
            TraceIdCode::VibratorEstimatedGroundForce => 20i16,
            TraceIdCode::VibratorReference => 21i16,
            TraceIdCode::TimeVelocityPairs => 22i16,
            TraceIdCode::TimeDepthPairs => 23i16,
            TraceIdCode::DepthVelocityPairs => 24i16,
            TraceIdCode::DepthDomainSeismic => 25i16,
            TraceIdCode::GravityPotential => 26i16,
            TraceIdCode::EFVertical => 27i16,
            TraceIdCode::EFCrossLine => 28i16,
            TraceIdCode::EFInLine => 29i16,
            TraceIdCode::RotatedEFVertical => 30i16,
            TraceIdCode::RotatedEFTransverse => 31i16,
            TraceIdCode::RotatedEFRadial => 32i16,
            TraceIdCode::MFVertical => 33i16,
            TraceIdCode::MFCrossLine => 34i16,
            TraceIdCode::MFInLine => 35i16,
            TraceIdCode::RotatedMFVertical => 36i16,
            TraceIdCode::RotatedMFTransverse => 37i16,
            TraceIdCode::RotatedMFRadial => 38i16,
            TraceIdCode::RotatedSensorPitch => 39i16,
            TraceIdCode::RotatedSensorRoll => 40i16,
            TraceIdCode::RotatedSensorYaw => 41i16,
            TraceIdCode::Invalid => -32768i16,
        }
    }

    /// Decodes a wire code; unknown codes give `Invalid`.
    pub fn new(source: i16) -> (r: Self)
        ensures
            r == TraceIdCode::spec_new(source),
    {
        match source {
            -1 => TraceIdCode::Other,
            0 => TraceIdCode::Unknown,
            1 => TraceIdCode::TimeDomainSeismic,
            2 => TraceIdCode::Dead,
            3 => TraceIdCode::Dummy,
            4 => TraceIdCode::TimeBreak,
            5 => TraceIdCode::Uphole,
            6 => TraceIdCode::Sweep,
            7 => TraceIdCode::Timing,
            8 => TraceIdCode::Waterbreak,
            9 => TraceIdCode::NearFieldGunSig,
            10 => TraceIdCode::FarFieldGunSig,
            11 => TraceIdCode::SeismicPressureSensor,
            12 => TraceIdCode::MulticomponentVertical,
            13 => TraceIdCode::MulticomponentCrossLine,
            14 => TraceIdCode::MulticomponentInLine,
            15 => TraceIdCode::RotatedVertical,
            16 => TraceIdCode::RotatedTransverse,
            17 => TraceIdCode::RotatedRadial,
            18 => TraceIdCode::VibratorReactionMass,
            19 => TraceIdCode::VibratorBaseplate,
            20 => TraceIdCode::VibratorEstimatedGroundForce,
            21 => TraceIdCode::VibratorReference,
            22 => TraceIdCode::TimeVelocityPairs,
            23 => TraceIdCode::TimeDepthPairs,
            24 => TraceIdCode::DepthVelocityPairs,
            25 => TraceIdCode::DepthDomainSeismic,
            26 => TraceIdCode::GravityPotential,
            27 => TraceIdCode::EFVertical,
            28 => TraceIdCode::EFCrossLine,
            29 => TraceIdCode::EFInLine,
            30 => TraceIdCode::RotatedEFVertical,
            31 => TraceIdCode::RotatedEFTransverse,
            32 => TraceIdCode::RotatedEFRadial,
            33 => TraceIdCode::MFVertical,
            34 => TraceIdCode::MFCrossLine,
            35 => TraceIdCode::MFInLine,
            36 => TraceIdCode::RotatedMFVertical,
            37 => TraceIdCode::RotatedMFTransverse,
            38 => TraceIdCode::RotatedMFRadial,
            39 => TraceIdCode::RotatedSensorPitch,
            40 => TraceIdCode::RotatedSensorRoll,
            41 => TraceIdCode::RotatedSensorYaw,
            _ => TraceIdCode::Invalid,
        }
    }

    /// The wire code of this variant, for writing headers back out.
    pub fn code(self) -> (r: i16)
        requires
            !(self is Invalid),
        ensures
            r == self.spec_code(),
            TraceIdCode::spec_new(r) == self,
    {
        match self {
            TraceIdCode::Other => -1,
            TraceIdCode::Unknown => 0,
            TraceIdCode::TimeDomainSeismic => 1,
            TraceIdCode::Dead => 2,
            TraceIdCode::Dummy => 3,
            TraceIdCode::TimeBreak => 4,
            TraceIdCode::Uphole => 5,
            TraceIdCode::Sweep => 6,
            TraceIdCode::Timing => 7,
            TraceIdCode::Waterbreak => 8,
            TraceIdCode::NearFieldGunSig => 9,
            TraceIdCode::FarFieldGunSig => 10,
            TraceIdCode::SeismicPressureSensor => 11,
            TraceIdCode::MulticomponentVertical => 12,
            TraceIdCode::MulticomponentCrossLine => 13,
            TraceIdCode::MulticomponentInLine => 14,
            TraceIdCode::RotatedVertical => 15,
            TraceIdCode::RotatedTransverse => 16,
            TraceIdCode::RotatedRadial => 17,
            TraceIdCode::VibratorReactionMass => 18,
            TraceIdCode::VibratorBaseplate => 19,
            TraceIdCode::VibratorEstimatedGroundForce => 20,
            TraceIdCode::VibratorReference => 21,
            TraceIdCode::TimeVelocityPairs => 22,
            TraceIdCode::TimeDepthPairs => 23,
            TraceIdCode::DepthVelocityPairs => 24,
            TraceIdCode::DepthDomainSeismic => 25,
            TraceIdCode::GravityPotential => 26,
            TraceIdCode::EFVertical => 27,
            TraceIdCode::EFCrossLine => 28,
            TraceIdCode::EFInLine => 29,
            TraceIdCode::RotatedEFVertical => 30,
            TraceIdCode::RotatedEFTransverse => 31,
            TraceIdCode::RotatedEFRadial => 32,
            TraceIdCode::MFVertical => 33,
            TraceIdCode::MFCrossLine => 34,
            TraceIdCode::MFInLine => 35,
            TraceIdCode::RotatedMFVertical => 36,
            TraceIdCode::RotatedMFTransverse => 37,
            TraceIdCode::RotatedMFRadial => 38,
            TraceIdCode::RotatedSensorPitch => 39,
            TraceIdCode::RotatedSensorRoll => 40,
            TraceIdCode::RotatedSensorYaw => 41,
            TraceIdCode::Invalid => -32768,
        }
    }
}

/// Data use, from bytes 34..36 of a trace header.
///
/// Unknown codes decode to `Invalid` rather than failing.
#[derive(Debug, Clone, Copy, PartialEq, Eq, Structural)]
pub enum DataUse {
    Unspecified,
    Production,
    Test,
    Invalid,
}

impl DataUse {
    /// The variant a wire code decodes to; unknown codes give `Invalid`.
    pub open spec fn spec_new(source: u16) -> DataUse {
        match source {
            0u16 => DataUse::Unspecified,
            1u16 => DataUse::Production,
            2u16 => DataUse::Test,
            _ => DataUse::Invalid,
        }
    }

    /// The wire code of each variant; `Invalid` gets a code that no
    /// variant decodes from, so decoding any code yields the variant back.
    pub open spec fn spec_code(self) -> u16 {
        match self {
            DataUse::Unspecified => 0u16,
            DataUse::Production => 1u16,
            DataUse::Test => 2u16,
            DataUse::Invalid => 65535u16,
        }
    }

    /// Decodes a wire code; unknown codes give `Invalid`.
    pub fn new(source: u16) -> (r: Self)
        ensures
            r == DataUse::spec_new(source),
    {
        match source {
            0 => DataUse::Unspecified,
            1 => DataUse::Production,
            2 => DataUse::Test,
            _ => DataUse::Invalid,
        }
    }

    /// The wire code of this variant, for writing headers back out.
    pub fn code(self) -> (r: u16)
        requires
            !(self is Invalid),
        ensures
            r == self.spec_code(),
            DataUse::spec_new(r) == self,
    {
        match self {
            DataUse::Unspecified => 0,
            DataUse::Production => 1,
            DataUse::Test => 2,
            DataUse::Invalid => 65535,
        }
    }
}

/// Coordinate units, from bytes 88..90 of a trace header.
///
/// Unknown codes decode to `Invalid` rather than failing.
#[derive(Debug, Clone, Copy, PartialEq, Eq, Structural)]
pub enum CoordinateUnits {
    Unspecified,
    Length,
    SecondsOfArc,
    DegreesDecimal,
    DegreesMinutesSeconds,
    Invalid,
}

impl CoordinateUnits {
    /// The variant a wire code decodes to; unknown codes give `Invalid`.
    pub open spec fn spec_new(source: u16) -> CoordinateUnits {
        match source {
            0u16 => CoordinateUnits::Unspecified,
            1u16 => CoordinateUnits::Length,
            2u16 => CoordinateUnits::SecondsOfArc,
            3u16 => CoordinateUnits::DegreesDecimal,
            4u16 => CoordinateUnits::DegreesMinutesSeconds,
            _ => CoordinateUnits::Invalid,
        }
    }

    /// The wire code of each variant; `Invalid` gets a code that no
    /// variant decodes from, so decoding any code yields the variant back.
    pub open spec fn spec_code(self) -> u16 {
        match self {
            CoordinateUnits::Unspecified => 0u16,
            CoordinateUnits::Length => 1u16,
            CoordinateUnits::SecondsOfArc => 2u16,
            CoordinateUnits::DegreesDecimal => 3u16,
            CoordinateUnits::DegreesMinutesSeconds => 4u16,
            CoordinateUnits::Invalid => 65535u16,
        }
    }

    /// Decodes a wire code; unknown codes give `Invalid`.
    pub fn new(source: u16) -> (r: Self)
        ensures
            r == CoordinateUnits::spec_new(source),
    {
        match source {
            0 => CoordinateUnits::Unspecified,
            1 => CoordinateUnits::Length,
            2 => CoordinateUnits::SecondsOfArc,
            3 => CoordinateUnits::DegreesDecimal,
            4 => CoordinateUnits::DegreesMinutesSeconds,
            _ => CoordinateUnits::Invalid,
        }
    }

    /// The wire code of this variant, for writing headers back out.
    pub fn code(self) -> (r: u16)
        requires
            !(self is Invalid),
        ensures
            r == self.spec_code(),
            CoordinateUnits::spec_new(r) == self,
    {
        match self {
            CoordinateUnits::Unspecified => 0,
            CoordinateUnits::Length => 1,
            CoordinateUnits::SecondsOfArc => 2,
            CoordinateUnits::DegreesDecimal => 3,
            CoordinateUnits::DegreesMinutesSeconds => 4,
            CoordinateUnits::Invalid => 65535,
        }
    }
}

/// Gain type, from bytes 118..120 of a trace header.
///
/// Unknown codes decode to `Invalid` rather than failing.
#[derive(Debug, Clone, Copy, PartialEq, Eq, Structural)]
pub enum GainType {
    Unspecified,
    Fixed,
    Binary,
    FloatingPoint,
    Invalid,
}

impl GainType {
    /// The variant a wire code decodes to; unknown codes give `Invalid`.
    pub open spec fn spec_new(source: u16) -> GainType {
        match source {
            0u16 => GainType::Unspecified,
            1u16 => GainType::Fixed,
            2u16 => GainType::Binary,
            3u16 => GainType::FloatingPoint,
            _ => GainType::Invalid,
        }
    }

    /// The wire code of each variant; `Invalid` gets a code that no
    /// variant decodes from, so decoding any code yields the variant back.
    pub open spec fn spec_code(self) -> u16 {
        match self {
            GainType::Unspecified => 0u16,
            GainType::Fixed => 1u16,
            GainType::Binary => 2u16,
            GainType::FloatingPoint => 3u16,
            GainType::Invalid => 65535u16,
        }
    }

    /// Decodes a wire code; unknown codes give `Invalid`.
    pub fn new(source: u16) -> (r: Self)
        ensures
            r == GainType::spec_new(source),
    {
        match source {
            0 => GainType::Unspecified,
            1 => GainType::Fixed,
            2 => GainType::Binary,
            3 => GainType::FloatingPoint,
            _ => GainType::Invalid,
        }
    }

    /// The wire code of this variant, for writing headers back out.
    pub fn code(self) -> (r: u16)
        requires
            !(self is Invalid),
        ensures
            r == self.spec_code(),
            GainType::spec_new(r) == self,
    {
        match self {
            GainType::Unspecified => 0,
            GainType::Fixed => 1,
            GainType::Binary => 2,
            GainType::FloatingPoint => 3,
            GainType::Invalid => 65535,
        }
    }
}

/// Whether the trace is correlated, from bytes 124..126 of a trace header.
///
/// Unknown codes decode to `Invalid` rather than failing.
#[derive(Debug, Clone, Copy, PartialEq, Eq, Structural)]
pub enum Correlated {
    Unspecified,
    No,
    Yes,
    Invalid,
}

impl Correlated {
    /// The variant a wire code decodes to; unknown codes give `Invalid`.
    pub open spec fn spec_new(source: u16) -> Correlated {
        match source {
            0u16 => Correlated::Unspecified,
            1u16 => Correlated::No,
            2u16 => Correlated::Yes,
            _ => Correlated::Invalid,
        }
    }

    /// The wire code of each variant; `Invalid` gets a code that no
    /// variant decodes from, so decoding any code yields the variant back.
    pub open spec fn spec_code(self) -> u16 {
        match self {
            Correlated::Unspecified => 0u16,
            Correlated::No => 1u16,
            Correlated::Yes => 2u16,
            Correlated::Invalid => 65535u16,
        }
    }

    /// Decodes a wire code; unknown codes give `Invalid`.
    pub fn new(source: u16) -> (r: Self)
        ensures
            r == Correlated::spec_new(source),
    {
        match source {
            0 => Correlated::Unspecified,
            1 => Correlated::No,
            2 => Correlated::Yes,
            _ => Correlated::Invalid,
        }
    }

    /// The wire code of this variant, for writing headers back out.
    pub fn code(self) -> (r: u16)
        requires
            !(self is Invalid),
        ensures
            r == self.spec_code(),
            Correlated::spec_new(r) == self,
    {
        match self {
            Correlated::Unspecified => 0,
            Correlated::No => 1,
            Correlated::Yes => 2,
            Correlated::Invalid => 65535,
        }
    }
}

/// Sweep type, from bytes 132..134 of a trace header.
///
/// Unknown codes decode to `Invalid` rather than failing.
#[derive(Debug, Clone, Copy, PartialEq, Eq, Structural)]
pub enum SweepType {
    Unspecified,
    Linear,
    Parabolic,
    Exponential,
    Other,
    Invalid,
}

impl SweepType {
    /// The variant a wire code decodes to; unknown codes give `Invalid`.
    pub open spec fn spec_new(source: u16) -> SweepType {
        match source {
            0u16 => SweepType::Unspecified,
            1u16 => SweepType::Linear,
            2u16 => SweepType::Parabolic,
            3u16 => SweepType::Exponential,
            4u16 => SweepType::Other,
            _ => SweepType::Invalid,
        }
    }

    /// The wire code of each variant; `Invalid` gets a code that no
    /// variant decodes from, so decoding any code yields the variant back.
    pub open spec fn spec_code(self) -> u16 {
        match self {
            SweepType::Unspecified => 0u16,
            SweepType::Linear => 1u16,
            SweepType::Parabolic => 2u16,
            SweepType::Exponential => 3u16,
            SweepType::Other => 4u16,
            SweepType::Invalid => 65535u16,
        }
    }

    /// Decodes a wire code; unknown codes give `Invalid`.
    pub fn new(source: u16) -> (r: Self)
        ensures
            r == SweepType::spec_new(source),
    {
        match source {
            0 => SweepType::Unspecified,
            1 => SweepType::Linear,
            2 => SweepType::Parabolic,
            3 => SweepType::Exponential,
            4 => SweepType::Other,
            _ => SweepType::Invalid,
        }
    }

    /// The wire code of this variant, for writing headers back out.
    pub fn code(self) -> (r: u16)
        requires
            !(self is Invalid),
        ensures
            r == self.spec_code(),
            SweepType::spec_new(r) == self,
    {
        match self {
            SweepType::Unspecified => 0,
            SweepType::Linear => 1,
            SweepType::Parabolic => 2,
            SweepType::Exponential => 3,
            SweepType::Other => 4,
            SweepType::Invalid => 65535,
        }
    }
}

/// Over travel, from bytes 178..180 of a trace header.
///
/// Unknown codes decode to `Invalid` rather than failing.
#[derive(Debug, Clone, Copy, PartialEq, Eq, Structural)]
pub enum OverTravel {
    Unspecified,
    Up,
    Down,
    Invalid,
}

impl OverTravel {
    /// The variant a wire code decodes to; unknown codes give `Invalid`.
    pub open spec fn spec_new(source: u16) -> OverTravel {
        match source {
            0u16 => OverTravel::Unspecified,
            1u16 => OverTravel::Up,
            2u16 => OverTravel::Down,
            _ => OverTravel::Invalid,
        }
    }

    /// The wire code of each variant; `Invalid` gets a code that no
    /// variant decodes from, so decoding any code yields the variant back.
    pub open spec fn spec_code(self) -> u16 {
        match self {
            OverTravel::Unspecified => 0u16,
            OverTravel::Up => 1u16,
            OverTravel::Down => 2u16,
            OverTravel::Invalid => 65535u16,
        }
    }

    /// Decodes a wire code; unknown codes give `Invalid`.
    pub fn new(source: u16) -> (r: Self)
        ensures
            r == OverTravel::spec_new(source),
    {
        match source {
            0 => OverTravel::Unspecified,
            1 => OverTravel::Up,
            2 => OverTravel::Down,
            _ => OverTravel::Invalid,
        }
    }

    /// The wire code of this variant, for writing headers back out.
    pub fn code(self) -> (r: u16)
        requires
            !(self is Invalid),
        ensures
            r == self.spec_code(),
            OverTravel::spec_new(r) == self,
    {
        match self {
            OverTravel::Unspecified => 0,
            OverTravel::Up => 1,
            OverTravel::Down => 2,
            OverTravel::Invalid => 65535,
        }
    }
}

/// Trace value measurement unit, from bytes 202..204 of a trace header (signed).
///
/// Unknown codes decode to `Invalid` rather than failing.
#[derive(Debug, Clone, Copy, PartialEq, Eq, Structural)]
pub enum TraceValueUnit {
    Other,
    Unknown,
    Pascal,
    Volts,
    Millivolts,
    Amperes,
    Meters,
    MetersPerSecond,
    MetersPerSecond2,
    Newton,
    Watt,
    Invalid,
}

impl TraceValueUnit {
    /// The variant a wire code decodes to; unknown codes give `Invalid`.
    pub open spec fn spec_new(source: i16) -> TraceValueUnit {
        match source {
            -1i16 => TraceValueUnit::Other,
            0i16 => TraceValueUnit::Unknown,
            1i16 => TraceValueUnit::Pascal,
            2i16 => TraceValueUnit::Volts,
            3i16 => TraceValueUnit::Millivolts,
            4i16 => TraceValueUnit::Amperes,
            5i16 => TraceValueUnit::Meters,
            6i16 => TraceValueUnit::MetersPerSecond,
            7i16 => TraceValueUnit::MetersPerSecond2,
            8i16 => TraceValueUnit::Newton,
            9i16 => TraceValueUnit::Watt,
            _ => TraceValueUnit::Invalid,
        }
    }

    /// The wire code of each variant; `Invalid` gets a code that no
    /// variant decodes from, so decoding any code yields the variant back.
    pub open spec fn spec_code(self) -> i16 {
        match self {
            TraceValueUnit::Other => -1i16,
            TraceValueUnit::Unknown => 0i16,
            TraceValueUnit::Pascal => 1i16,
            TraceValueUnit::Volts => 2i16,
            TraceValueUnit::Millivolts => 3i16,
            TraceValueUnit::Amperes => 4i16,
            TraceValueUnit::Meters => 5i16,
            TraceValueUnit::MetersPerSecond => 6i16,
            TraceValueUnit::MetersPerSecond2 => 7i16,
            TraceValueUnit::Newton => 8i16,
            TraceValueUnit::Watt => 9i16,
            TraceValueUnit::Invalid => -32768i16,
        }
    }

    /// Decodes a wire code; unknown codes give `Invalid`.
    pub fn new(source: i16) -> (r: Self)
        ensures
            r == TraceValueUnit::spec_new(source),
    {
        match source {
            -1 => TraceValueUnit::Other,
            0 => TraceValueUnit::Unknown,
            1 => TraceValueUnit::Pascal,
            2 => TraceValueUnit::Volts,
            3 => TraceValueUnit::Millivolts,
            4 => TraceValueUnit::Amperes,
            5 => TraceValueUnit::Meters,
            6 => TraceValueUnit::MetersPerSecond,
            7 => TraceValueUnit::MetersPerSecond2,
            8 => TraceValueUnit::Newton,
            9 => TraceValueUnit::Watt,
            _ => TraceValueUnit::Invalid,
        }
    }

    /// The wire code of this variant, for writing headers back out.
    pub fn code(self) -> (r: i16)
        requires
            !(self is Invalid),
        ensures
            r == self.spec_code(),
            TraceValueUnit::spec_new(r) == self,
    {
        match self {
            TraceValueUnit::Other => -1,
            TraceValueUnit::Unknown => 0,
            TraceValueUnit::Pascal => 1,
            TraceValueUnit::Volts => 2,
            TraceValueUnit::Millivolts => 3,
            TraceValueUnit::Amperes => 4,
            TraceValueUnit::Meters => 5,
            TraceValueUnit::MetersPerSecond => 6,
            TraceValueUnit::MetersPerSecond2 => 7,
            TraceValueUnit::Newton => 8,
            TraceValueUnit::Watt => 9,
            TraceValueUnit::Invalid => -32768,
        }
    }
}

/// Transduction units, from bytes 210..212 of a trace header (signed).
///
/// Unknown codes decode to `Invalid` rather than failing.
#[derive(Debug, Clone, Copy, PartialEq, Eq, Structural)]
pub enum TransductionUnits {
    Other,
    Unknown,
    Pascal,
    Volts,
    Millivolts,
    Amperes,
    Meters,
    MetersPerSecond,
    MetersPerSecond2,
    Newton,
    Watt,
    Invalid,
}

impl TransductionUnits {
    /// The variant a wire code decodes to; unknown codes give `Invalid`.
    pub open spec fn spec_new(source: i16) -> TransductionUnits {
        match source {
            -1i16 => TransductionUnits::Other,
            0i16 => TransductionUnits::Unknown,
            1i16 => TransductionUnits::Pascal,
            2i16 => TransductionUnits::Volts,
            3i16 => TransductionUnits::Millivolts,
            4i16 => TransductionUnits::Amperes,
            5i16 => TransductionUnits::Meters,
            6i16 => TransductionUnits::MetersPerSecond,
            7i16 => TransductionUnits::MetersPerSecond2,
            8i16 => TransductionUnits::Newton,
            9i16 => TransductionUnits::Watt,
            _ => TransductionUnits::Invalid,
        }
    }

    /// The wire code of each variant; `Invalid` gets a code that no
    /// variant decodes from, so decoding any code yields the variant back.
    pub open spec fn spec_code(self) -> i16 {
        match self {
            TransductionUnits::Other => -1i16,
            TransductionUnits::Unknown => 0i16,
            TransductionUnits::Pascal => 1i16,
            TransductionUnits::Volts => 2i16,
            TransductionUnits::Millivolts => 3i16,
            TransductionUnits::Amperes => 4i16,
            TransductionUnits::Meters => 5i16,
            TransductionUnits::MetersPerSecond => 6i16,
            TransductionUnits::MetersPerSecond2 => 7i16,
            TransductionUnits::Newton => 8i16,
            TransductionUnits::Watt => 9i16,
            TransductionUnits::Invalid => -32768i16,
        }
    }

    /// Decodes a wire code; unknown codes give `Invalid`.
    pub fn new(source: i16) -> (r: Self)
        ensures
            r == TransductionUnits::spec_new(source),
    {
        match source {
            -1 => TransductionUnits::Other,
            0 => TransductionUnits::Unknown,
            1 => TransductionUnits::Pascal,
            2 => TransductionUnits::Volts,
            3 => TransductionUnits::Millivolts,
            4 => TransductionUnits::Amperes,
            5 => TransductionUnits::Meters,
            6 => TransductionUnits::MetersPerSecond,
            7 => TransductionUnits::MetersPerSecond2,
            8 => TransductionUnits::Newton,
            9 => TransductionUnits::Watt,
            _ => TransductionUnits::Invalid,
        }
    }

    /// The wire code of this variant, for writing headers back out.
    pub fn code(self) -> (r: i16)
        requires
            !(self is Invalid),
        ensures
            r == self.spec_code(),
            TransductionUnits::spec_new(r) == self,
    {
        match self {
            TransductionUnits::Other => -1,
            TransductionUnits::Unknown => 0,
            TransductionUnits::Pascal => 1,
            TransductionUnits::Volts => 2,
            TransductionUnits::Millivolts => 3,
            TransductionUnits::Amperes => 4,
            TransductionUnits::Meters => 5,
            TransductionUnits::MetersPerSecond => 6,
            TransductionUnits::MetersPerSecond2 => 7,
            TransductionUnits::Newton => 8,
            TransductionUnits::Watt => 9,
            TransductionUnits::Invalid => -32768,
        }
    }
}

/// Source type, from bytes 216..218 of a trace header (signed).
///
/// Unknown codes decode to `Invalid` rather than failing.
#[derive(Debug, Clone, Copy, PartialEq, Eq, Structural)]
pub enum SourceType {
    Unknown,
    VibratoryVertical,
    VibratoryCrossLine,
    VibratoryInLine,
    ImpulsiveVertical,
    ImpulsiveCrossLine,
    ImpulsiveInLine,
    DistributedImpulsiveVertical,
    DistributedImpulsiveCrossLine,
    DistributedImpulsiveInLine,
    Invalid,
}

impl SourceType {
    /// The variant a wire code decodes to; unknown codes give `Invalid`.
    pub open spec fn spec_new(source: i16) -> SourceType {
        match source {
            0i16 => SourceType::Unknown,
            1i16 => SourceType::VibratoryVertical,
            2i16 => SourceType::VibratoryCrossLine,
            3i16 => SourceType::VibratoryInLine,
            4i16 => SourceType::ImpulsiveVertical,
            5i16 => SourceType::ImpulsiveCrossLine,
            6i16 => SourceType::ImpulsiveInLine,
            7i16 => SourceType::DistributedImpulsiveVertical,
            8i16 => SourceType::DistributedImpulsiveCrossLine,
            9i16 => SourceType::DistributedImpulsiveInLine,
            _ => SourceType::Invalid,
        }
    }

    /// The wire code of each variant; `Invalid` gets a code that no
    /// variant decodes from, so decoding any code yields the variant back.
    pub open spec fn spec_code(self) -> i16 {
        match self {
            SourceType::Unknown => 0i16,
            SourceType::VibratoryVertical => 1i16,
            SourceType::VibratoryCrossLine => 2i16,
            SourceType::VibratoryInLine => 3i16,
            SourceType::ImpulsiveVertical => 4i16,
            SourceType::ImpulsiveCrossLine => 5i16,
            SourceType::ImpulsiveInLine => 6i16,
            SourceType::DistributedImpulsiveVertical => 7i16,
            SourceType::DistributedImpulsiveCrossLine => 8i16,
            SourceType::DistributedImpulsiveInLine => 9i16,
            SourceType::Invalid => -32768i16,
        }
    }

    /// Decodes a wire code; unknown codes give `Invalid`.
    pub fn new(source: i16) -> (r: Self)
        ensures
            r == SourceType::spec_new(source),
    {
        match source {
            0 => SourceType::Unknown,
            1 => SourceType::VibratoryVertical,
            2 => SourceType::VibratoryCrossLine,
            3 => SourceType::VibratoryInLine,
            4 => SourceType::ImpulsiveVertical,
            5 => SourceType::ImpulsiveCrossLine,
            6 => SourceType::ImpulsiveInLine,
            7 => SourceType::DistributedImpulsiveVertical,
            8 => SourceType::DistributedImpulsiveCrossLine,
            9 => SourceType::DistributedImpulsiveInLine,
            _ => SourceType::Invalid,
        }
    }

    /// The wire code of this variant, for writing headers back out.
    pub fn code(self) -> (r: i16)
        requires
            !(self is Invalid),
        ensures
            r == self.spec_code(),
            SourceType::spec_new(r) == self,
    {
        match self {
            SourceType::Unknown => 0,
            SourceType::VibratoryVertical => 1,
            SourceType::VibratoryCrossLine => 2,
            SourceType::VibratoryInLine => 3,
            SourceType::ImpulsiveVertical => 4,
            SourceType::ImpulsiveCrossLine => 5,
            SourceType::ImpulsiveInLine => 6,
            SourceType::DistributedImpulsiveVertical => 7,
            SourceType::DistributedImpulsiveCrossLine => 8,
            SourceType::DistributedImpulsiveInLine => 9,
            SourceType::Invalid => -32768,
        }
    }
}

/// Source measurement unit, from bytes 230..232 of a trace header (signed).
///
/// Unknown codes decode to `Invalid` rather than failing.
#[derive(Debug, Clone, Copy, PartialEq, Eq, Structural)]
pub enum SourceMeasurementUnit {
    Other,
    Unknown,
    Joule,
    KiloWatt,
    Pascal,
    Bar,
    BarMeter,
    Newton,
    Kilograms,
    Invalid,
}

impl SourceMeasurementUnit {
    /// The variant a wire code decodes to; unknown codes give `Invalid`.
    pub open spec fn spec_new(source: i16) -> SourceMeasurementUnit {
        match source {
            -1i16 => SourceMeasurementUnit::Other,
            0i16 => SourceMeasurementUnit::Unknown,
            1i16 => SourceMeasurementUnit::Joule,
            2i16 => SourceMeasurementUnit::KiloWatt,
            3i16 => SourceMeasurementUnit::Pascal,
            4i16 => SourceMeasurementUnit::Bar,
            5i16 => SourceMeasurementUnit::BarMeter,
            6i16 => SourceMeasurementUnit::Newton,
            7i16 => SourceMeasurementUnit::Kilograms,
            _ => SourceMeasurementUnit::Invalid,
        }
    }

    /// The wire code of each variant; `Invalid` gets a code that no
    /// variant decodes from, so decoding any code yields the variant back.
    pub open spec fn spec_code(self) -> i16 {
        match self {
            SourceMeasurementUnit::Other => -1i16,
            SourceMeasurementUnit::Unknown => 0i16,
            SourceMeasurementUnit::Joule => 1i16,
            SourceMeasurementUnit::KiloWatt => 2i16,
            SourceMeasurementUnit::Pascal => 3i16,
            SourceMeasurementUnit::Bar => 4i16,
            SourceMeasurementUnit::BarMeter => 5i16,
            SourceMeasurementUnit::Newton => 6i16,
            SourceMeasurementUnit::Kilograms => 7i16,
            SourceMeasurementUnit::Invalid => -32768i16,
        }
    }

    /// Decodes a wire code; unknown codes give `Invalid`.
    pub fn new(source: i16) -> (r: Self)
        ensures
            r == SourceMeasurementUnit::spec_new(source),
    {
        match source {
            -1 => SourceMeasurementUnit::Other,
            0 => SourceMeasurementUnit::Unknown,
            1 => SourceMeasurementUnit::Joule,
            2 => SourceMeasurementUnit::KiloWatt,
            3 => SourceMeasurementUnit::Pascal,
            4 => SourceMeasurementUnit::Bar,
            5 => SourceMeasurementUnit::BarMeter,
            6 => SourceMeasurementUnit::Newton,
            7 => SourceMeasurementUnit::Kilograms,
            _ => SourceMeasurementUnit::Invalid,
        }
    }

    /// The wire code of this variant, for writing headers back out.
    pub fn code(self) -> (r: i16)
        requires
            !(self is Invalid),
        ensures
            r == self.spec_code(),
            SourceMeasurementUnit::spec_new(r) == self,
    {
        match self {
            SourceMeasurementUnit::Other => -1,
            SourceMeasurementUnit::Unknown => 0,
            SourceMeasurementUnit::Joule => 1,
            SourceMeasurementUnit::KiloWatt => 2,
            SourceMeasurementUnit::Pascal => 3,
            SourceMeasurementUnit::Bar => 4,
            SourceMeasurementUnit::BarMeter => 5,
            SourceMeasurementUnit::Newton => 6,
            SourceMeasurementUnit::Kilograms => 7,
            SourceMeasurementUnit::Invalid => -32768,
        }
    }
}

} // verus!
