//! The sample codec: raw bytes to and from numeric sample values, for
//! every supported sample format and endianness.
//!
//! A decoded sample keeps the width and signedness it had on disk;
//! floating-point samples are carried as bit patterns, so the codec
//! itself is exact. The 24-bit formats and the obsolete fixed-point
//! format are recognised but always fail to convert, and the legacy IBM
//! float can be decoded but never written.

use crate::bytes::{get_i16, get_i32, get_i64, get_u16, get_u32, get_u64};
use crate::bytes::{spec_i16_at, spec_i32_at, spec_i64_at, spec_u16_at, spec_u32_at, spec_u64_at};
use crate::bytes::{emit_u16, emit_u32, emit_u64, spec_u16_bytes, spec_u32_bytes, spec_u64_bytes};
use crate::enums::SampleFormatCode;
use crate::errors::RsgError;
use crate::fbits::{f32_trunc, f64_trunc, spec_f32_trunc, spec_f64_trunc};
use crate::fbits::{f32_to_f64_bits, f64_to_f32_bits, spec_f32_to_f64_bits, spec_f64_to_f32_bits};
use crate::fbits::{int_to_f32_bits, int_to_f64_bits, spec_float_bits};
use vstd::prelude::*;
use vstd::string::StringExecFns;

verus! {

/// One sample value, as wide and as signed as its source: integers of
/// every supported width, and floating-point values as bit patterns.
#[derive(Debug, Clone, Copy, PartialEq, Eq, Structural)]
pub enum SampleValue {
    I8(i8),
    I16(i16),
    I32(i32),
    I64(i64),
    U8(u8),
    U16(u16),
    U32(u32),
    U64(u64),
    /// An IEEE single-precision value, by its bits.
    F32Bits(u32),
    /// An IEEE double-precision value, by its bits.
    F64Bits(u64),
    /// An IBM single-precision value, by its (big-endian) bits.
    Ibm32Bits(u32),
}

/// Whether the format can be decoded: everything but the 24-bit formats
/// and the obsolete fixed-point format.
pub open spec fn spec_decode_supported(format: SampleFormatCode) -> bool {
    !(format is Int24 || format is UInt24 || format is FixPoint32)
}

/// Whether the format can be encoded: everything decodable except the
/// IBM float, which cannot be written from IEEE values.
pub open spec fn spec_encode_supported(format: SampleFormatCode) -> bool {
    spec_decode_supported(format) && !(format is IbmFloat32)
}

/// The sample a datum's bytes decode to. The bytes must already have the
/// format's width. The IBM float is always big-endian; `le` governs every
/// other format.
pub open spec fn spec_decode_sample(bytes: Seq<u8>, format: SampleFormatCode, le: bool) -> SampleValue {
    match format {
        SampleFormatCode::Int8 => SampleValue::I8(bytes[0] as i8),
        SampleFormatCode::Int16 => SampleValue::I16(spec_i16_at(bytes, 0, le)),
        SampleFormatCode::Int32 => SampleValue::I32(spec_i32_at(bytes, 0, le)),
        SampleFormatCode::Int64 => SampleValue::I64(spec_i64_at(bytes, 0, le)),
        SampleFormatCode::UInt8 => SampleValue::U8(bytes[0]),
        SampleFormatCode::UInt16 => SampleValue::U16(spec_u16_at(bytes, 0, le)),
        SampleFormatCode::UInt32 => SampleValue::U32(spec_u32_at(bytes, 0, le)),
        SampleFormatCode::UInt64 => SampleValue::U64(spec_u64_at(bytes, 0, le)),
        SampleFormatCode::Float32 => SampleValue::F32Bits(spec_u32_at(bytes, 0, le)),
        SampleFormatCode::Float64 => SampleValue::F64Bits(spec_u64_at(bytes, 0, le)),
        SampleFormatCode::IbmFloat32 => SampleValue::Ibm32Bits(spec_u32_at(bytes, 0, false)),
        _ => SampleValue::I8(0i8),
    }
}

/// Decodes one datum. Fails for the unconvertible formats and for a byte
/// slice whose length is not the format's width.
pub fn decode_sample(bytes: &[u8], format: SampleFormatCode, le: bool) -> (r: Result<
    SampleValue,
    RsgError,
>)
    ensures
        !spec_decode_supported(format) ==> (r matches Err(RsgError::BitConversionError { .. })),
        spec_decode_supported(format) && bytes@.len() != format.spec_datum_byte_length() ==> (
        r matches Err(RsgError::BitConversionError { .. })),
        spec_decode_supported(format) && bytes@.len() == format.spec_datum_byte_length() ==> r
            == Ok::<SampleValue, RsgError>(spec_decode_sample(bytes@, format, le)),
{
    match format {
        SampleFormatCode::Int24 | SampleFormatCode::UInt24 => {
            return Err(RsgError::BitConversionError {
                msg: String::from_str("parsing of 24-bit integers is not implemented"),
            });
        },
        SampleFormatCode::FixPoint32 => {
            return Err(RsgError::BitConversionError {
                msg: String::from_str("fixed-point samples are obsolete"),
            });
        },
        _ => {},
    }
    let width = format.datum_byte_length();
    if bytes.len() != width {
        return Err(RsgError::BitConversionError {
            msg: String::from_str("datum has the wrong byte length for its format"),
        });
    }
    let v = match format {
        SampleFormatCode::Int8 => SampleValue::I8(*vstd::slice::slice_index_get(bytes, 0) as i8),
        SampleFormatCode::Int16 => SampleValue::I16(get_i16(bytes, 0, le)),
        SampleFormatCode::Int32 => SampleValue::I32(get_i32(bytes, 0, le)),
        SampleFormatCode::Int64 => SampleValue::I64(get_i64(bytes, 0, le)),
        SampleFormatCode::UInt8 => SampleValue::U8(*vstd::slice::slice_index_get(bytes, 0)),
        SampleFormatCode::UInt16 => SampleValue::U16(get_u16(bytes, 0, le)),
        SampleFormatCode::UInt32 => SampleValue::U32(get_u32(bytes, 0, le)),
        SampleFormatCode::UInt64 => SampleValue::U64(get_u64(bytes, 0, le)),
        SampleFormatCode::Float32 => SampleValue::F32Bits(get_u32(bytes, 0, le)),
        SampleFormatCode::Float64 => SampleValue::F64Bits(get_u64(bytes, 0, le)),
        _ => SampleValue::Ibm32Bits(get_u32(bytes, 0, false)),
    };
    Ok(v)
}

/// The integer a sample stands for when one exists: the value of an
/// integer sample, and the integer part of a finite floating-point
/// sample whose magnitude is below `2^64`. IBM samples are never
/// projected.
pub open spec fn spec_sample_int(v: SampleValue) -> Option<int> {
    match v {
        SampleValue::I8(x) => Some(x as int),
        SampleValue::I16(x) => Some(x as int),
        SampleValue::I32(x) => Some(x as int),
        SampleValue::I64(x) => Some(x as int),
        SampleValue::U8(x) => Some(x as int),
        SampleValue::U16(x) => Some(x as int),
        SampleValue::U32(x) => Some(x as int),
        SampleValue::U64(x) => Some(x as int),
        SampleValue::F32Bits(bits) => match spec_f32_trunc(bits) {
            Some((neg, mag)) => Some(
                if neg {
                    -(mag as int)
                } else {
                    mag as int
                },
            ),
            None => None,
        },
        SampleValue::F64Bits(bits) => match spec_f64_trunc(bits) {
            Some((neg, mag)) => Some(
                if neg {
                    -(mag as int)
                } else {
                    mag as int
                },
            ),
            None => None,
        },
        SampleValue::Ibm32Bits(_) => None,
    }
}

/// The sign and magnitude a sample rounds through on its way to a
/// floating-point format, when it has them.
pub open spec fn spec_sample_parts(v: SampleValue) -> Option<(bool, nat)> {
    match spec_sample_int(v) {
        Some(x) => Some(
            (
                x < 0,
                if x < 0 {
                    (-x) as nat
                } else {
                    x as nat
                },
            ),
        ),
        None => None,
    }
}

/// The bytes one sample encodes to in a format, when the conversion is
/// possible: integer targets take any sample whose integer projection
/// fits the target's range, and floating-point targets take any
/// non-IBM sample, rounding to nearest. Unsupported formats take
/// nothing.
pub open spec fn spec_encode_sample(v: SampleValue, format: SampleFormatCode, le: bool) -> Option<
    Seq<u8>,
> {
    if !spec_encode_supported(format) {
        None
    } else {
        match format {
            SampleFormatCode::Int8 => match spec_sample_int(v) {
                Some(x) => if i8::MIN <= x <= i8::MAX {
                    Some(seq![(x as i8) as u8])
                } else {
                    None
                },
                None => None,
            },
            SampleFormatCode::Int16 => match spec_sample_int(v) {
                Some(x) => if i16::MIN <= x <= i16::MAX {
                    Some(spec_u16_bytes((x as i16) as u16, le))
                } else {
                    None
                },
                None => None,
            },
            SampleFormatCode::Int32 => match spec_sample_int(v) {
                Some(x) => if i32::MIN <= x <= i32::MAX {
                    Some(spec_u32_bytes((x as i32) as u32, le))
                } else {
                    None
                },
                None => None,
            },
            SampleFormatCode::Int64 => match spec_sample_int(v) {
                Some(x) => if i64::MIN <= x <= i64::MAX {
                    Some(spec_u64_bytes((x as i64) as u64, le))
                } else {
                    None
                },
                None => None,
            },
            SampleFormatCode::UInt8 => match spec_sample_int(v) {
                Some(x) => if 0 <= x <= u8::MAX {
                    Some(seq![x as u8])
                } else {
                    None
                },
                None => None,
            },
            SampleFormatCode::UInt16 => match spec_sample_int(v) {
                Some(x) => if 0 <= x <= u16::MAX {
                    Some(spec_u16_bytes(x as u16, le))
                } else {
                    None
                },
                None => None,
            },
            SampleFormatCode::UInt32 => match spec_sample_int(v) {
                Some(x) => if 0 <= x <= u32::MAX {
                    Some(spec_u32_bytes(x as u32, le))
                } else {
                    None
                },
                None => None,
            },
            SampleFormatCode::UInt64 => match spec_sample_int(v) {
                Some(x) => if 0 <= x <= u64::MAX {
                    Some(spec_u64_bytes(x as u64, le))
                } else {
                    None
                },
                None => None,
            },
            SampleFormatCode::Float32 => match v {
                SampleValue::F32Bits(bits) => Some(spec_u32_bytes(bits, le)),
                SampleValue::F64Bits(bits) => Some(spec_u32_bytes(spec_f64_to_f32_bits(bits), le)),
                SampleValue::Ibm32Bits(_) => None,
                _ => match spec_sample_parts(v) {
                    Some((neg, mag)) => Some(
                        spec_u32_bytes(spec_float_bits(neg, mag, 0, 23, 127, 31) as u32, le),
                    ),
                    None => None,
                },
            },
            SampleFormatCode::Float64 => match v {
                SampleValue::F32Bits(bits) => Some(spec_u64_bytes(spec_f32_to_f64_bits(bits), le)),
                SampleValue::F64Bits(bits) => Some(spec_u64_bytes(bits, le)),
                SampleValue::Ibm32Bits(_) => None,
                _ => match spec_sample_parts(v) {
                    Some((neg, mag)) => Some(
                        spec_u64_bytes(spec_float_bits(neg, mag, 0, 52, 1023, 63) as u64, le),
                    ),
                    None => None,
                },
            },
            _ => None,
        }
    }
}

/// The integer projection of a sample, computed.
fn sample_int(v: &SampleValue) -> (r: Option<(bool, u64)>)
    ensures
        match spec_sample_int(*v) {
            Some(x) => (r matches Some((neg, mag)) && (if neg {
                -(mag as int)
            } else {
                mag as int
            }) == x && (neg ==> mag > 0)),
            None => r is None,
        },
{
    match v {
        SampleValue::I8(x) => Some(split_sign(*x as i64)),
        SampleValue::I16(x) => Some(split_sign(*x as i64)),
        SampleValue::I32(x) => Some(split_sign(*x as i64)),
        SampleValue::I64(x) => Some(split_sign(*x)),
        SampleValue::U8(x) => Some((false, *x as u64)),
        SampleValue::U16(x) => Some((false, *x as u64)),
        SampleValue::U32(x) => Some((false, *x as u64)),
        SampleValue::U64(x) => Some((false, *x)),
        SampleValue::F32Bits(bits) => match f32_trunc(*bits) {
            Some((neg, mag)) => Some((neg && mag > 0, mag)),
            None => None,
        },
        SampleValue::F64Bits(bits) => match f64_trunc(*bits) {
            Some((neg, mag)) => Some((neg && mag > 0, mag)),
            None => None,
        },
        SampleValue::Ibm32Bits(_) => None,
    }
}

/// An `i64` as a strict sign and a magnitude.
fn split_sign(x: i64) -> (r: (bool, u64))
    ensures
        (if r.0 {
            -(r.1 as int)
        } else {
            r.1 as int
        }) == x,
        r.0 ==> r.1 > 0,
{
    if x < 0 {
        if x == i64::MIN {
            (true, 0x8000000000000000u64)
        } else {
            (true, (-x) as u64)
        }
    } else {
        (false, x as u64)
    }
}

/// Encodes one sample into a format. Fails exactly where the conversion
/// is impossible: a format that cannot be written, an integer target
/// whose range the value leaves, or a floating-point source without an
/// integer part for an integer target.
pub fn encode_sample(v: &SampleValue, format: SampleFormatCode, le: bool) -> (r: Result<
    Vec<u8>,
    RsgError,
>)
    ensures
        match spec_encode_sample(*v, format, le) {
            Some(bytes) => (r matches Ok(out) && out@ == bytes),
            None => (r matches Err(RsgError::BitConversionError { .. })),
        },
{
    let parts = sample_int(v);
    match format {
        SampleFormatCode::Int8 => match parts {
            Some((neg, mag)) => {
                if !neg && mag <= 127 {
                    Ok(emit_one((mag as i64) as u8))
                } else if neg && mag <= 128 {
                    Ok(emit_one((-(mag as i64)) as u8))
                } else {
                    Err(cannot_convert())
                }
            },
            None => Err(cannot_convert()),
        },
        SampleFormatCode::Int16 => match parts {
            Some((neg, mag)) => {
                if !neg && mag <= 0x7fff {
                    Ok(emit_u16(mag as u16, le))
                } else if neg && mag <= 0x8000 {
                    Ok(emit_u16(((-(mag as i64)) as i16) as u16, le))
                } else {
                    Err(cannot_convert())
                }
            },
            None => Err(cannot_convert()),
        },
        SampleFormatCode::Int32 => match parts {
            Some((neg, mag)) => {
                if !neg && mag <= 0x7fffffff {
                    Ok(emit_u32(mag as u32, le))
                } else if neg && mag <= 0x80000000 {
                    Ok(emit_u32(((-(mag as i64)) as i32) as u32, le))
                } else {
                    Err(cannot_convert())
                }
            },
            None => Err(cannot_convert()),
        },
        SampleFormatCode::Int64 => match parts {
            Some((neg, mag)) => {
                if !neg && mag <= 0x7fffffffffffffff {
                    Ok(emit_u64(mag, le))
                } else if neg && mag <= 0x8000000000000000 {
                    proof {
                        assert((((-(mag as int)) as i64) as u64) == (0u64).wrapping_sub(mag))
                            by (bit_vector)
                            requires
                                0 < mag <= 0x8000000000000000u64,
                        ;
                    }
                    Ok(emit_u64((0u64).wrapping_sub(mag), le))
                } else {
                    Err(cannot_convert())
                }
            },
            None => Err(cannot_convert()),
        },
        SampleFormatCode::UInt8 => match parts {
            Some((neg, mag)) => {
                if !neg && mag <= 0xff {
                    Ok(emit_one(mag as u8))
                } else {
                    Err(cannot_convert())
                }
            },
            None => Err(cannot_convert()),
        },
        SampleFormatCode::UInt16 => match parts {
            Some((neg, mag)) => {
                if !neg && mag <= 0xffff {
                    Ok(emit_u16(mag as u16, le))
                } else {
                    Err(cannot_convert())
                }
            },
            None => Err(cannot_convert()),
        },
        SampleFormatCode::UInt32 => match parts {
            Some((neg, mag)) => {
                if !neg && mag <= 0xffffffff {
                    Ok(emit_u32(mag as u32, le))
                } else {
                    Err(cannot_convert())
                }
            },
            None => Err(cannot_convert()),
        },
        SampleFormatCode::UInt64 => match parts {
            Some((neg, mag)) => {
                if !neg {
                    Ok(emit_u64(mag, le))
                } else {
                    Err(cannot_convert())
                }
            },
            None => Err(cannot_convert()),
        },
        SampleFormatCode::Float32 => match v {
            SampleValue::F32Bits(bits) => Ok(emit_u32(*bits, le)),
            SampleValue::F64Bits(bits) => Ok(emit_u32(f64_to_f32_bits(*bits), le)),
            SampleValue::Ibm32Bits(_) => Err(cannot_convert()),
            _ => match parts {
                Some((neg, mag)) => Ok(emit_u32(int_to_f32_bits(neg, mag), le)),
                None => Err(cannot_convert()),
            },
        },
        SampleFormatCode::Float64 => match v {
            SampleValue::F32Bits(bits) => Ok(emit_u64(f32_to_f64_bits(*bits), le)),
            SampleValue::F64Bits(bits) => Ok(emit_u64(*bits, le)),
            SampleValue::Ibm32Bits(_) => Err(cannot_convert()),
            _ => match parts {
                Some((neg, mag)) => Ok(emit_u64(int_to_f64_bits(neg, mag), le)),
                None => Err(cannot_convert()),
            },
        },
        SampleFormatCode::IbmFloat32 => Err(RsgError::BitConversionError {
            msg: String::from_str("IBM floats cannot be written from IEEE values"),
        }),
        SampleFormatCode::Int24 | SampleFormatCode::UInt24 => Err(RsgError::BitConversionError {
            msg: String::from_str("writing of 24-bit integers is not implemented"),
        }),
        SampleFormatCode::FixPoint32 => Err(RsgError::BitConversionError {
            msg: String::from_str("fixed-point samples are obsolete"),
        }),
    }
}

/// A one-byte vector.
fn emit_one(b: u8) -> (r: Vec<u8>)
    ensures
        r@ == seq![b],
{
    let mut out: Vec<u8> = Vec::new();
    out.push(b);
    proof {
        assert(out@ =~= seq![b]);
    }
    out
}

/// The conversion error for a value a format cannot hold.
fn cannot_convert() -> (r: RsgError)
    ensures
        r matches RsgError::BitConversionError { .. },
{
    RsgError::BitConversionError { msg: String::from_str("cannot convert value to format") }
}

} // verus!
