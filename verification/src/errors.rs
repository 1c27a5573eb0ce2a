//! The error vocabulary of the library.

use crate::enums::SampleFormatCode;
use vstd::prelude::*;
use vstd::string::StringExecFns;

verus! {

/// Everything that can go wrong while reading or writing SEG-Y structures.
#[derive(Debug, Clone, PartialEq)]
pub enum RsgError {
    /// A binary header buffer whose length is not 400.
    BinHeaderLength { l: usize },
    /// An invalid value handed to a settings setter.
    SEGYSettingsError { msg: String },
    /// A buffer too short to hold even the mandatory headers.
    FileTooShort,
    /// A coordinate read in the configured format that has no `i32` value.
    FloatConversion { format: SampleFormatCode },
    /// A self-declared trace length that runs past the end of the buffer.
    IncompleteTrace,
    /// A trace index with no trace.
    TraceNotFound { i: usize },
    /// A datum index outside the trace's data block.
    TracePointOutOfBounds { idx: usize },
    /// A buffer too short for the extended text headers it declares.
    SEGYTooShort,
    /// A trace data range that runs past the end of the buffer.
    ShortSEGY { a: usize, b: usize },
    /// A data block length that the datum width does not divide.
    TraceDivisibility { a: usize, b: usize, format: SampleFormatCode },
    /// A trace header buffer whose length is not 240.
    TraceHeaderLength { l: usize },
    /// A sample conversion that the codec does not support.
    BitConversionError { msg: String },
    /// A header that cannot be serialised or parsed.
    InvalidHeader { msg: String },
    /// A data vector with more than 65535 samples.
    LongDataVector { l_data: usize },
    /// A data vector whose length matches neither declared sample count.
    BadDataVector { l_data: u16, l_bin: u16, l_trace: u16 },
    /// A code with no variant in a vocabulary that rejects unknown codes.
    ParseEnum { f: String, code: u16 },
}

impl RsgError {
    /// A short description of the error kind, for reporting.
    pub fn describe(&self) -> String {
        match self {
            RsgError::BinHeaderLength { .. } => String::from_str(
                "binary header length should be 400",
            ),
            RsgError::SEGYSettingsError { msg } => msg.clone(),
            RsgError::FileTooShort => String::from_str("file is too short to be SEG-Y"),
            RsgError::FloatConversion { .. } => String::from_str(
                "coordinate value cannot be represented as i32",
            ),
            RsgError::IncompleteTrace => String::from_str("last trace incomplete"),
            RsgError::TraceNotFound { .. } => String::from_str("trace not found"),
            RsgError::TracePointOutOfBounds { .. } => String::from_str(
                "trace data point is out of bounds",
            ),
            RsgError::SEGYTooShort => String::from_str(
                "mapped file is too short for the declared headers",
            ),
            RsgError::ShortSEGY { .. } => String::from_str("mapping is too short for the trace"),
            RsgError::TraceDivisibility { .. } => String::from_str(
                "data length is not divisible by the datum length",
            ),
            RsgError::TraceHeaderLength { .. } => String::from_str(
                "trace header length should be 240",
            ),
            RsgError::BitConversionError { msg } => msg.clone(),
            RsgError::InvalidHeader { msg } => msg.clone(),
            RsgError::LongDataVector { .. } => String::from_str(
                "data vector has more than 65535 points",
            ),
            RsgError::BadDataVector { .. } => String::from_str(
                "data length matches neither declared sample count",
            ),
            RsgError::ParseEnum { f, .. } => f.clone(),
        }
    }
}

} // verus!
