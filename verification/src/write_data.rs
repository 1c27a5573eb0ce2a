//! Conversion of whole data vectors to their on-disk bytes, and the
//! lossless-compatibility matrix that guards the checked write path.

use crate::bitconverter::{
    encode_sample, spec_decode_sample, spec_encode_sample, spec_encode_supported, spec_sample_int,
    SampleValue,
};
use crate::enums::SampleFormatCode;
use crate::errors::RsgError;
use crate::header_structs::BinHeader;
use vstd::prelude::*;
use vstd::string::StringExecFns;

verus! {

/// The sample format and endianness a file's data is written with.
pub fn get_format_and_le(bh: &BinHeader) -> (r: (SampleFormatCode, bool))
    ensures
        r.0 == bh.sample_format_code,
        r.1 == bh.binary_flag_direction_is_le,
{
    (bh.sample_format_code, bh.binary_flag_direction_is_le)
}

/// The bytes a data vector encodes to, when every sample converts: the
/// concatenation of the encodings of its samples.
pub open spec fn spec_convert_data(
    data: Seq<SampleValue>,
    format: SampleFormatCode,
    le: bool,
) -> Option<Seq<u8>>
    decreases data.len(),
{
    if data.len() == 0 {
        Some(Seq::<u8>::empty())
    } else {
        match (spec_convert_data(data.drop_last(), format, le), spec_encode_sample(
            data.last(),
            format,
            le,
        )) {
            (Some(rest), Some(b)) => Some(rest + b),
            _ => None,
        }
    }
}

/// Converts a data vector to the bytes of the file's sample format,
/// possibly losing precision. Fails exactly when some sample cannot be
/// converted.
pub fn convert_data(data: &Vec<SampleValue>, bin_header: &BinHeader) -> (r: Result<
    Vec<u8>,
    RsgError,
>)
    ensures
        !spec_encode_supported(bin_header.sample_format_code) ==> (r matches Err(
            RsgError::BitConversionError { .. },
        )),
        spec_encode_supported(bin_header.sample_format_code) ==> match spec_convert_data(
            data@,
            bin_header.sample_format_code,
            bin_header.binary_flag_direction_is_le,
        ) {
            Some(bytes) => (r matches Ok(out) && out@ == bytes),
            None => (r matches Err(RsgError::BitConversionError { .. })),
        },
{
    let (format, le) = get_format_and_le(bin_header);
    match format {
        SampleFormatCode::IbmFloat32 => {
            return Err(RsgError::BitConversionError {
                msg: String::from_str("IBM floats cannot be written from IEEE values"),
            });
        },
        SampleFormatCode::Int24 | SampleFormatCode::UInt24 => {
            return Err(RsgError::BitConversionError {
                msg: String::from_str("writing of 24-bit integers is not implemented"),
            });
        },
        SampleFormatCode::FixPoint32 => {
            return Err(RsgError::BitConversionError {
                msg: String::from_str("fixed-point samples are obsolete"),
            });
        },
        _ => {},
    }
    let n = data.len();
    let mut out: Vec<u8> = Vec::new();
    let mut i: usize = 0;
    while i < n
        invariant
            n == data@.len(),
            0 <= i <= n,
            format == bin_header.sample_format_code,
            le == bin_header.binary_flag_direction_is_le,
            spec_convert_data(data@.take(i as int), format, le) == Some(out@),
        decreases n - i,
    {
        let mut piece = match encode_sample(&data[i], format, le) {
            Ok(p) => p,
            Err(e) => {
                proof {
                    lemma_convert_data_failure(data@, format, le, i as int);
                }
                return Err(e);
            },
        };
        out.append(&mut piece);
        i += 1;
        proof {
            assert(data@.take(i as int).drop_last() =~= data@.take(i - 1));
            assert(data@.take(i as int).last() == data@[i - 1]);
        }
    }
    proof {
        assert(data@.take(n as int) =~= data@);
    }
    Ok(out)
}

/// If some sample of the vector fails to encode, the whole vector does.
proof fn lemma_convert_data_failure(
    data: Seq<SampleValue>,
    format: SampleFormatCode,
    le: bool,
    i: int,
)
    requires
        0 <= i < data.len(),
        spec_encode_sample(data[i], format, le) is None,
    ensures
        spec_convert_data(data, format, le) is None,
    decreases data.len(),
{
    if data.len() > 0 {
        if i == data.len() - 1 {
        } else {
            lemma_convert_data_failure(data.drop_last(), format, le, i);
        }
    }
}

/// Whether a sample of this kind can be written to the format with no
/// loss at all: the matrix is over the source width and signedness, not
/// the value.
pub open spec fn spec_is_lossless_to(v: SampleValue, f: SampleFormatCode) -> bool {
    match v {
        SampleValue::I8(_) => f is Int64 || f is Int32 || f is Int16 || f is Int8 || f is Float64
            || f is Float32,
        SampleValue::I16(_) => f is Int64 || f is Int32 || f is Int16 || f is Float64
            || f is Float32,
        SampleValue::I32(_) => f is Int64 || f is Int32 || f is Float64,
        SampleValue::I64(_) => f is Int64,
        SampleValue::U8(_) => f is UInt8 || f is UInt16 || f is UInt32 || f is UInt64 || f is Int16
            || f is Int32 || f is Int64 || f is Float32 || f is Float64,
        SampleValue::U16(_) => f is UInt16 || f is UInt32 || f is UInt64 || f is Int32
            || f is Int64 || f is Float64,
        SampleValue::U32(_) => f is UInt32 || f is UInt64 || f is Int64,
        SampleValue::U64(_) => f is UInt64,
        SampleValue::F32Bits(_) => f is Float32 || f is Float64,
        SampleValue::F64Bits(_) => f is Float64,
        SampleValue::Ibm32Bits(_) => false,
    }
}

impl SampleValue {
    /// Whether a sample of this kind writes to the format with no loss.
    pub fn is_lossless_to(&self, f: SampleFormatCode) -> (r: bool)
        ensures
            r == spec_is_lossless_to(*self, f),
    {
        match self {
            SampleValue::I8(_) => matches!(
                f,
                SampleFormatCode::Int64 | SampleFormatCode::Int32 | SampleFormatCode::Int16
                    | SampleFormatCode::Int8 | SampleFormatCode::Float64 | SampleFormatCode::Float32
            ),
            SampleValue::I16(_) => matches!(
                f,
                SampleFormatCode::Int64 | SampleFormatCode::Int32 | SampleFormatCode::Int16
                    | SampleFormatCode::Float64 | SampleFormatCode::Float32
            ),
            SampleValue::I32(_) => matches!(
                f,
                SampleFormatCode::Int64 | SampleFormatCode::Int32 | SampleFormatCode::Float64
            ),
            SampleValue::I64(_) => matches!(f, SampleFormatCode::Int64),
            SampleValue::U8(_) => matches!(
                f,
                SampleFormatCode::UInt8 | SampleFormatCode::UInt16 | SampleFormatCode::UInt32
                    | SampleFormatCode::UInt64 | SampleFormatCode::Int16 | SampleFormatCode::Int32
                    | SampleFormatCode::Int64 | SampleFormatCode::Float32
                    | SampleFormatCode::Float64
            ),
            SampleValue::U16(_) => matches!(
                f,
                SampleFormatCode::UInt16 | SampleFormatCode::UInt32 | SampleFormatCode::UInt64
                    | SampleFormatCode::Int32 | SampleFormatCode::Int64 | SampleFormatCode::Float64
            ),
            SampleValue::U32(_) => matches!(
                f,
                SampleFormatCode::UInt32 | SampleFormatCode::UInt64 | SampleFormatCode::Int64
            ),
            SampleValue::U64(_) => matches!(f, SampleFormatCode::UInt64),
            SampleValue::F32Bits(_) => matches!(
                f,
                SampleFormatCode::Float32 | SampleFormatCode::Float64
            ),
            SampleValue::F64Bits(_) => matches!(f, SampleFormatCode::Float64),
            SampleValue::Ibm32Bits(_) => false,
        }
    }
}

/// Converts a data vector, but only when every sample's kind writes to
/// the format losslessly; a single incompatible sample fails the whole
/// vector before any conversion.
pub fn convert_data_losslessly(data: &Vec<SampleValue>, bin_header: &BinHeader) -> (r: Result<
    Vec<u8>,
    RsgError,
>)
    ensures
        !spec_encode_supported(bin_header.sample_format_code) ==> (r matches Err(
            RsgError::BitConversionError { .. },
        )),
        spec_encode_supported(bin_header.sample_format_code) && (forall|i: int|
            0 <= i < data@.len() ==> spec_is_lossless_to(
                data@[i],
                bin_header.sample_format_code,
            )) ==> match spec_convert_data(
            data@,
            bin_header.sample_format_code,
            bin_header.binary_flag_direction_is_le,
        ) {
            Some(bytes) => (r matches Ok(out) && out@ == bytes),
            None => (r matches Err(RsgError::BitConversionError { .. })),
        },
        (exists|i: int|
            0 <= i < data@.len() && !spec_is_lossless_to(
                data@[i],
                bin_header.sample_format_code,
            )) ==> (r matches Err(RsgError::BitConversionError { .. })),
{
    let (format, _) = get_format_and_le(bin_header);
    let n = data.len();
    let mut i: usize = 0;
    while i < n
        invariant
            n == data@.len(),
            0 <= i <= n,
            format == bin_header.sample_format_code,
            forall|j: int| 0 <= j < i ==> spec_is_lossless_to(data@[j], format),
        decreases n - i,
    {
        if !data[i].is_lossless_to(format) {
            return Err(RsgError::BitConversionError {
                msg: String::from_str("data cannot be written losslessly in this format"),
            });
        }
        i += 1;
    }
    convert_data(data, bin_header)
}

/// Whether a format stores plain integers.
pub open spec fn spec_int_format(f: SampleFormatCode) -> bool {
    f is Int8 || f is Int16 || f is Int32 || f is Int64 || f is UInt8 || f is UInt16 || f is UInt32
        || f is UInt64
}

/// Law: a sample whose kind is lossless for a format always encodes into
/// that format; the checked write path can only fail on the kind test.
pub proof fn lemma_lossless_encode_succeeds(v: SampleValue, f: SampleFormatCode, le: bool)
    requires
        spec_is_lossless_to(v, f),
    ensures
        spec_encode_sample(v, f, le) is Some,
{
}

/// Law: encoding a sample into an integer format and decoding the bytes
/// again yields a sample with exactly the original integer value, for
/// every value the format can hold and either endianness.
pub proof fn lemma_int_format_roundtrip(v: SampleValue, f: SampleFormatCode, le: bool)
    requires
        spec_int_format(f),
        spec_encode_sample(v, f, le) is Some,
    ensures
        spec_sample_int(spec_decode_sample(spec_encode_sample(v, f, le).unwrap(), f, le))
            == spec_sample_int(v),
{
    broadcast use crate::bytes::lemma_u16_bytes_roundtrip;
    broadcast use crate::bytes::lemma_u32_bytes_roundtrip;
    broadcast use crate::bytes::lemma_u64_bytes_roundtrip;

    let x = spec_sample_int(v).unwrap();
    match f {
        SampleFormatCode::Int8 => {
            let y: i8 = x as i8;
            assert(((y as u8) as i8) == y) by (bit_vector);
        },
        SampleFormatCode::Int16 => {
            let y: i16 = x as i16;
            assert(((y as u16) as i16) == y) by (bit_vector);
        },
        SampleFormatCode::Int32 => {
            let y: i32 = x as i32;
            assert(((y as u32) as i32) == y) by (bit_vector);
        },
        SampleFormatCode::Int64 => {
            let y: i64 = x as i64;
            assert(((y as u64) as i64) == y) by (bit_vector);
        },
        _ => {},
    }
}

/// Law: a lossless write to an integer format round-trips exactly: the
/// encoded bytes decode to a sample with the original integer value.
pub proof fn lemma_lossless_int_roundtrip(v: SampleValue, f: SampleFormatCode, le: bool)
    requires
        spec_is_lossless_to(v, f),
        spec_int_format(f),
    ensures
        spec_encode_sample(v, f, le) is Some,
        spec_sample_int(spec_decode_sample(spec_encode_sample(v, f, le).unwrap(), f, le))
            == spec_sample_int(v),
{
    lemma_lossless_encode_succeeds(v, f, le);
    lemma_int_format_roundtrip(v, f, le);
}

/// Whether one sample converts into the format at all.
pub open spec fn spec_encode_sample_is_some(
    v: SampleValue,
    f: SampleFormatCode,
    le: bool,
) -> bool {
    spec_encode_sample(v, f, le) is Some
}

/// A vector of samples that each convert, converts as a whole.
pub proof fn lemma_all_encodable_converts(data: Seq<SampleValue>, f: SampleFormatCode, le: bool)
    requires
        forall|j: int| 0 <= j < data.len() ==> spec_encode_sample_is_some(#[trigger] data[j], f, le),
    ensures
        spec_convert_data(data, f, le) is Some,
    decreases data.len(),
{
    if data.len() > 0 {
        assert forall|j: int|
            0 <= j < data.drop_last().len() implies spec_encode_sample_is_some(
            #[trigger] data.drop_last()[j],
            f,
            le,
        ) by {
            assert(data.drop_last()[j] == data[j]);
        }
        lemma_all_encodable_converts(data.drop_last(), f, le);
        assert(spec_encode_sample_is_some(data[data.len() - 1], f, le));
    }
}

} // verus!
