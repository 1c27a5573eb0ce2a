//! Decoding of the fixed-size header records from their bytes, under the
//! control of the parsing settings.

use crate::bytes::{get_i16, get_i32, get_u16, get_u32};
use crate::bytes::{spec_i16_at, spec_i32_at, spec_u16_at, spec_u32_at};
use crate::enums::{
    AmplitudeRecoveryMethod, BinaryGainRecovered, CoordinateUnits, Correlated,
    CorrelatedDataTraces, DataUse, FixedLengthTraces, GainType, ImpulseSignalPolarity,
    MeasurementSystem, OrderTraceBy, OverTravel, SampleFormatCode, SourceMeasurementUnit,
    SourceType, SweepType, SweepTypeCode, TaperType, TimeBasisCode, TraceIdCode, TraceSortingCode,
    TraceValueUnit, TransductionUnits, VibratoryPolarityCode,
};
use crate::errors::RsgError;
use crate::fbits::{f32_trunc, ibm_bits_to_i32, spec_f32_trunc, spec_ibm_bits_to_i32};
use crate::header_structs::{BinHeader, TapeLabel, TraceHeader};
use crate::settings::SegySettings;
use crate::{BIN_HEADER_LEN, TRACE_HEADER_LEN};
use vstd::prelude::*;
use vstd::string::StringExecFns;

verus! {

/// The `i32` a 4-byte coordinate word stands for under a coordinate
/// format: `None` when the value has no `i32` representation. The word is
/// taken in the file's byte order, except for the IBM float, which is
/// always big-endian.
#[verifier::opaque]
pub open spec fn spec_parse_coord_u32(w: u32, fmt: SampleFormatCode) -> Option<i32> {
    match fmt {
        SampleFormatCode::Int32 => Some(w as i32),
        SampleFormatCode::UInt32 => if w <= 0x7fffffff {
            Some(w as i32)
        } else {
            None
        },
        SampleFormatCode::Float32 => match spec_f32_trunc(w) {
            Some((neg, mag)) => if !neg && mag <= 0x7fffffff {
                Some(mag as i32)
            } else if neg && mag <= 0x80000000 {
                Some((-(mag as int)) as i32)
            } else {
                None
            },
            None => None,
        },
        SampleFormatCode::IbmFloat32 => spec_ibm_bits_to_i32(w),
        _ => None,
    }
}

/// The coordinate stored at `off` in `bytes` under a coordinate format.
pub open spec fn spec_coord_at(bytes: Seq<u8>, off: int, fmt: SampleFormatCode, le: bool) -> Option<
    i32,
> {
    if fmt is IbmFloat32 {
        spec_parse_coord_u32(spec_u32_at(bytes, off, false), fmt)
    } else {
        spec_parse_coord_u32(spec_u32_at(bytes, off, le), fmt)
    }
}

/// Reads the coordinate at `off`, interpreting its 4 bytes in the
/// coordinate format.
pub fn parse_coord(bytes: &[u8], off: usize, fmt: SampleFormatCode, le: bool) -> (r: Option<i32>)
    requires
        off + 4 <= bytes@.len(),
    ensures
        r == spec_coord_at(bytes@, off as int, fmt, le),
{
    proof {
        reveal(spec_parse_coord_u32);
    }
    let w = if matches!(fmt, SampleFormatCode::IbmFloat32) {
        get_u32(bytes, off, false)
    } else {
        get_u32(bytes, off, le)
    };
    match fmt {
        SampleFormatCode::Int32 => Some(w as i32),
        SampleFormatCode::UInt32 => if w <= 0x7fffffff {
            Some(w as i32)
        } else {
            None
        },
        SampleFormatCode::Float32 => match f32_trunc(w) {
            Some((neg, mag)) => {
                if !neg && mag <= 0x7fffffff {
                    Some(mag as i32)
                } else if neg && mag <= 0x80000000 {
                    Some((-(mag as i64)) as i32)
                } else {
                    None
                }
            },
            None => None,
        },
        SampleFormatCode::IbmFloat32 => ibm_bits_to_i32(w),
        _ => None,
    }
}

/// Whether the file's multi-byte fields are little-endian: overridden by
/// the settings, and otherwise deduced from the 4-byte marker at bytes
/// 96..100 of the binary header, where exactly `[1, 2, 3, 4]` declares
/// little-endian order.
pub open spec fn spec_bin_le(bytes: Seq<u8>, s: SegySettings) -> bool {
    match s.override_to_le {
        Some(le) => le,
        None => bytes[96] == 1 && bytes[97] == 2 && bytes[98] == 3 && bytes[99] == 4,
    }
}

/// The sample format the file declares, after the settings override.
pub open spec fn spec_bin_format(bytes: Seq<u8>, s: SegySettings) -> Option<SampleFormatCode> {
    match s.override_trace_format {
        Some(f) => Some(f),
        None => SampleFormatCode::spec_new(spec_u16_at(bytes, 24, spec_bin_le(bytes, s))),
    }
}

/// Whether a 400-byte buffer decodes to a binary header: its sample
/// format code and its fixed-length flag must be recognised.
pub open spec fn spec_bin_header_parses(bytes: Seq<u8>, s: SegySettings) -> bool {
    &&& bytes.len() == BIN_HEADER_LEN
    &&& spec_bin_format(bytes, s) is Some
    &&& FixedLengthTraces::spec_new(spec_u16_at(bytes, 302, spec_bin_le(bytes, s))) is Some
}

/// How a binary header relates to its serialised bytes under given
/// settings: every field holds the interpretation of its byte range. A
/// buffer determines the header completely.
pub open spec fn bin_header_matches(bytes: Seq<u8>, s: SegySettings, h: BinHeader) -> bool {
    let le = spec_bin_le(bytes, s);
    &&& h.job_id == spec_u32_at(bytes, 0, le)
    &&& h.line_number == spec_u32_at(bytes, 4, le)
    &&& h.reel_number == spec_u32_at(bytes, 8, le)
    &&& h.no_traces == spec_u16_at(bytes, 12, le)
    &&& h.no_aux_traces == spec_u16_at(bytes, 14, le)
    &&& h.sample_interval == spec_u16_at(bytes, 16, le)
    &&& h.sample_interval_original == spec_u16_at(bytes, 18, le)
    &&& h.no_samples == spec_u16_at(bytes, 20, le)
    &&& h.no_samples_original == spec_u16_at(bytes, 22, le)
    &&& Some(h.sample_format_code) == spec_bin_format(bytes, s)
    &&& h.ensemble_fold == spec_u16_at(bytes, 26, le)
    &&& h.sorting_code == TraceSortingCode::spec_new(spec_i16_at(bytes, 28, le))
    &&& h.vertical_sum == spec_u16_at(bytes, 30, le)
    &&& h.sweep_frequency_start == spec_u16_at(bytes, 32, le)
    &&& h.sweep_frequency_end == spec_u16_at(bytes, 34, le)
    &&& h.sweep_length == spec_u16_at(bytes, 36, le)
    &&& h.sweep_type == SweepTypeCode::spec_new(spec_u16_at(bytes, 38, le))
    &&& h.sweep_channel_trace_no == spec_u16_at(bytes, 40, le)
    &&& h.sweep_taper_at_start == spec_u16_at(bytes, 42, le)
    &&& h.sweep_taper_at_end == spec_u16_at(bytes, 44, le)
    &&& h.taper_type == TaperType::spec_new(spec_u16_at(bytes, 46, le))
    &&& h.correlated_traces == CorrelatedDataTraces::spec_new(spec_u16_at(bytes, 48, le))
    &&& h.binary_gain_recovered == BinaryGainRecovered::spec_new(spec_u16_at(bytes, 50, le))
    &&& h.amplitude_recovery_method == AmplitudeRecoveryMethod::spec_new(
        spec_u16_at(bytes, 52, le),
    )
    &&& h.measurement_system == (match s.override_coordinate_units {
        Some(units) => units,
        None => MeasurementSystem::spec_new(spec_u16_at(bytes, 54, le)),
    })
    &&& h.impulse_signal_polarity == ImpulseSignalPolarity::spec_new(spec_u16_at(bytes, 56, le))
    &&& h.vibratory_polarity_code == VibratoryPolarityCode::spec_new(spec_u16_at(bytes, 58, le))
    &&& h.segy_revision_number[0] == bytes[300]
    &&& h.segy_revision_number[1] == bytes[301]
    &&& Some(h.fixed_length_trace_flag) == FixedLengthTraces::spec_new(spec_u16_at(bytes, 302, le))
    &&& h.extended_header_count == spec_u32_at(bytes, 306, le)
    &&& h.time_basis_code == TimeBasisCode::spec_new(spec_u16_at(bytes, 310, le))
    &&& h.binary_flag_direction_is_le == le
}

/// Law: a binary header is determined by its bytes and settings. With
/// the encoder's guarantee that its output matches the header it was
/// given, writing a header and decoding the bytes again returns it
/// unchanged.
pub proof fn lemma_bin_header_matches_unique(
    bytes: Seq<u8>,
    s: SegySettings,
    h1: BinHeader,
    h2: BinHeader,
)
    requires
        bin_header_matches(bytes, s, h1),
        bin_header_matches(bytes, s, h2),
    ensures
        h1 == h2,
{
    broadcast use vstd::array::axiom_array_ext_equal;

    assert(h1.segy_revision_number =~= h2.segy_revision_number);
}

impl BinHeader {
    /// Decodes a 400-byte buffer into a binary header. Any other length
    /// is rejected, as is an unrecognised sample format code or
    /// fixed-length flag; every other coded field falls back to its
    /// `Invalid` variant instead.
    #[verifier::rlimit(100)]
    pub fn from_bytes(bytes: &[u8], settings: &SegySettings) -> (r: Result<BinHeader, RsgError>)
        ensures
            bytes@.len() != BIN_HEADER_LEN ==> (r matches Err(RsgError::BinHeaderLength { l })
                && l == bytes@.len()),
            spec_bin_header_parses(bytes@, *settings) ==> (r matches Ok(h)
                && bin_header_matches(bytes@, *settings, h)),
            bytes@.len() == BIN_HEADER_LEN && !spec_bin_header_parses(bytes@, *settings) ==> (
            r matches Err(RsgError::ParseEnum { .. })),
    {
        let n = bytes.len();
        if n != BIN_HEADER_LEN {
            return Err(RsgError::BinHeaderLength { l: n });
        }
        let le = match settings.get_override_to_le() {
            Some(le) => le,
            None => {
                *vstd::slice::slice_index_get(bytes, 96) == 1 && *vstd::slice::slice_index_get(
                    bytes,
                    97,
                ) == 2 && *vstd::slice::slice_index_get(bytes, 98) == 3
                    && *vstd::slice::slice_index_get(bytes, 99) == 4
            },
        };
        let sample_format_code = match settings.get_override_trace_format() {
            Some(code) => code,
            None => {
                match SampleFormatCode::new(get_u16(bytes, 24, le)) {
                    Ok(code) => code,
                    Err(e) => {
                        return Err(e);
                    },
                }
            },
        };
        let fixed_length_trace_flag = match FixedLengthTraces::new(get_u16(bytes, 302, le)) {
            Ok(f) => f,
            Err(e) => {
                return Err(e);
            },
        };
        let measurement_system = match settings.get_override_coordinate_units() {
            Some(units) => units,
            None => MeasurementSystem::new(get_u16(bytes, 54, le)),
        };
        let header = BinHeader {
            job_id: get_u32(bytes, 0, le),
            line_number: get_u32(bytes, 4, le),
            reel_number: get_u32(bytes, 8, le),
            no_traces: get_u16(bytes, 12, le),
            no_aux_traces: get_u16(bytes, 14, le),
            sample_interval: get_u16(bytes, 16, le),
            sample_interval_original: get_u16(bytes, 18, le),
            no_samples: get_u16(bytes, 20, le),
            no_samples_original: get_u16(bytes, 22, le),
            sample_format_code,
            ensemble_fold: get_u16(bytes, 26, le),
            sorting_code: TraceSortingCode::new(get_i16(bytes, 28, le)),
            vertical_sum: get_u16(bytes, 30, le),
            sweep_frequency_start: get_u16(bytes, 32, le),
            sweep_frequency_end: get_u16(bytes, 34, le),
            sweep_length: get_u16(bytes, 36, le),
            sweep_type: SweepTypeCode::new(get_u16(bytes, 38, le)),
            sweep_channel_trace_no: get_u16(bytes, 40, le),
            sweep_taper_at_start: get_u16(bytes, 42, le),
            sweep_taper_at_end: get_u16(bytes, 44, le),
            taper_type: TaperType::new(get_u16(bytes, 46, le)),
            correlated_traces: CorrelatedDataTraces::new(get_u16(bytes, 48, le)),
            binary_gain_recovered: BinaryGainRecovered::new(get_u16(bytes, 50, le)),
            amplitude_recovery_method: AmplitudeRecoveryMethod::new(get_u16(bytes, 52, le)),
            measurement_system,
            impulse_signal_polarity: ImpulseSignalPolarity::new(get_u16(bytes, 56, le)),
            vibratory_polarity_code: VibratoryPolarityCode::new(get_u16(bytes, 58, le)),
            segy_revision_number: [
                *vstd::slice::slice_index_get(bytes, 300),
                *vstd::slice::slice_index_get(bytes, 301),
            ],
            fixed_length_trace_flag,
            extended_header_count: get_u32(bytes, 306, le),
            time_basis_code: TimeBasisCode::new(get_u16(bytes, 310, le)),
            binary_flag_direction_is_le: le,
        };
        Ok(header)
    }
}

/// The numeric value of a run of ASCII decimal digits, when the bytes
/// are exactly such a run.
pub open spec fn spec_digits_value(s: Seq<u8>) -> Option<int>
    decreases s.len(),
{
    if s.len() == 0 {
        Some(0)
    } else {
        let d = s.last();
        if 48 <= d <= 57 {
            match spec_digits_value(s.drop_last()) {
                Some(v) => Some(v * 10 + (d - 48)),
                None => None,
            }
        } else {
            None
        }
    }
}

/// The stored block size a label's size field stands for: its digits
/// after any leading NUL or space padding, as a number, if they are
/// digits and the number fits 32 bits.
pub open spec fn spec_label_block_size(s: Seq<u8>) -> Option<u32> {
    let stripped = s.skip(spec_label_pad_len(s));
    match spec_digits_value(stripped) {
        Some(v) => if v <= u32::MAX {
            Some(v as u32)
        } else {
            None
        },
        None => None,
    }
}

/// How many leading NUL or space bytes pad the size field.
pub open spec fn spec_label_pad_len(s: Seq<u8>) -> int
    decreases s.len(),
{
    if s.len() == 0 {
        0
    } else if s[0] == 0 || s[0] == 32 {
        1 + spec_label_pad_len(s.skip(1))
    } else {
        0
    }
}

/// Parses the decimal character field of a tape label: leading NUL or
/// space padding, then digits.
fn parse_label_block_size(bytes: &[u8]) -> (r: Option<u32>)
    ensures
        r == spec_label_block_size(bytes@),
{
    let n = bytes.len();
    let mut p: usize = 0;
    proof {
        assert(bytes@.skip(0) =~= bytes@);
    }
    while p < n && (*vstd::slice::slice_index_get(bytes, p) == 0 || *vstd::slice::slice_index_get(
        bytes,
        p,
    ) == 32)
        invariant
            n == bytes@.len(),
            0 <= p <= n,
            spec_label_pad_len(bytes@) == p + spec_label_pad_len(bytes@.skip(p as int)),
        decreases n - p,
    {
        proof {
            assert(bytes@.skip(p as int)[0] == bytes@[p as int]);
            assert(bytes@.skip(p as int).skip(1) =~= bytes@.skip(p + 1));
        }
        p += 1;
    }
    proof {
        if p < n {
            assert(bytes@.skip(p as int)[0] == bytes@[p as int]);
        } else {
            assert(bytes@.skip(p as int) =~= Seq::<u8>::empty());
        }
        assert(spec_label_pad_len(bytes@) == p);
    }
    let ghost digits = bytes@.skip(p as int);
    let mut value: u64 = 0;
    let mut i: usize = p;
    proof {
        assert(digits.subrange(0, 0) =~= Seq::<u8>::empty());
    }
    while i < n
        invariant
            n == bytes@.len(),
            digits == bytes@.skip(p as int),
            spec_label_pad_len(bytes@) == p,
            p <= i <= n,
            spec_digits_value(digits.subrange(0, i - p)) == Some(value as int),
            value <= 0xffffffff,
        decreases n - i,
    {
        let d = *vstd::slice::slice_index_get(bytes, i);
        proof {
            assert(digits[i - p] == bytes@[i as int]);
        }
        if d < 48 || d > 57 {
            proof {
                lemma_digits_value_bad(digits, i - p);
            }
            return None;
        }
        let next = value * 10 + (d - 48) as u64;
        proof {
            assert(digits.subrange(0, i + 1 - p).drop_last() =~= digits.subrange(0, i - p));
            assert(digits.subrange(0, i + 1 - p).last() == digits[i - p]);
        }
        if next > 0xffffffff {
            proof {
                lemma_digits_value_monotone(digits, i + 1 - p);
            }
            return None;
        }
        value = next;
        i += 1;
    }
    proof {
        assert(digits.subrange(0, n - p) =~= digits);
    }
    Some(value as u32)
}

/// A non-digit anywhere makes the whole run invalid.
proof fn lemma_digits_value_bad(s: Seq<u8>, i: int)
    requires
        0 <= i < s.len(),
        !(48 <= s[i] <= 57),
    ensures
        spec_digits_value(s) is None,
    decreases s.len(),
{
    if s.len() > 0 {
        if i == s.len() - 1 {
        } else {
            lemma_digits_value_bad(s.drop_last(), i);
        }
    }
}

/// A digit run's value only grows as it extends.
proof fn lemma_digits_value_monotone(s: Seq<u8>, i: int)
    requires
        0 <= i <= s.len(),
        match spec_digits_value(s.subrange(0, i)) {
            Some(v) => v > 0xffffffff,
            None => true,
        },
    ensures
        match spec_digits_value(s) {
            Some(v) => v > 0xffffffff,
            None => true,
        },
    decreases s.len() - i,
{
    if i < s.len() {
        assert(s.subrange(0, i + 1).drop_last() =~= s.subrange(0, i));
        assert(s.subrange(0, i + 1).last() == s[i]);
        lemma_digits_value_monotone(s, i + 1);
    } else {
        assert(s.subrange(0, i) =~= s);
    }
}

/// Copies `N` bytes starting at `off` into a fresh array.
fn copy_array<const N: usize>(src: &[u8], off: usize) -> (r: [u8; N])
    requires
        off + N <= src@.len(),
    ensures
        forall|i: int| 0 <= i < N ==> r@[i] == src@[off + i],
{
    let n = src.len();
    let mut a: [u8; N] = [0; N];
    let mut i: usize = 0;
    while i < N
        invariant
            n == src@.len(),
            off + N <= n,
            0 <= i <= N,
            a@.len() == N,
            forall|j: int| 0 <= j < i ==> a@[j] == src@[off + j],
        decreases N - i,
    {
        a[i] = *vstd::slice::slice_index_get(src, off + i);
        i += 1;
    }
    a
}

/// How a tape label relates to its 128 serialised bytes: every character
/// field holds its byte range, and the block size field holds the parsed
/// decimal value.
pub open spec fn tape_label_matches(bytes: Seq<u8>, h: TapeLabel) -> bool {
    &&& forall|i: int| 0 <= i < 4 ==> h.storage_unit_seq_no@[i] == bytes[0 + i]
    &&& forall|i: int| 0 <= i < 5 ==> h.segy_revision_no@[i] == bytes[4 + i]
    &&& forall|i: int| 0 <= i < 6 ==> h.storage_unit_structure@[i] == bytes[9 + i]
    &&& forall|i: int| 0 <= i < 4 ==> h.binding_number@[i] == bytes[15 + i]
    &&& Some(h.max_block_size) == spec_label_block_size(bytes.subrange(19, 29))
    &&& forall|i: int| 0 <= i < 10 ==> h.producing_organisation_code@[i] == bytes[29 + i]
    &&& forall|i: int| 0 <= i < 11 ==> h.creation_date@[i] == bytes[39 + i]
    &&& forall|i: int| 0 <= i < 12 ==> h.serial_number@[i] == bytes[50 + i]
    &&& forall|i: int| 0 <= i < 12 ==> h.external_label@[i] == bytes[68 + i]
    &&& forall|i: int| 0 <= i < 24 ==> h.recording_entity@[i] == bytes[80 + i]
    &&& forall|i: int| 0 <= i < 14 ==> h.extra@[i] == bytes[104 + i]
}

impl TapeLabel {
    /// Decodes a 128-byte tape label. Fails only when the block size
    /// field does not read as a padded decimal number.
    pub fn from_bytes(bytes: &[u8], _settings: &SegySettings) -> (r: Result<TapeLabel, RsgError>)
        requires
            bytes@.len() == crate::TAPE_LABEL_LEN,
        ensures
            match spec_label_block_size(bytes@.subrange(19, 29)) {
                Some(_) => (r matches Ok(h) && tape_label_matches(bytes@, h)),
                None => (r matches Err(RsgError::InvalidHeader { .. })),
            },
    {
        let size_field = vstd::slice::slice_subrange(bytes, 19, 29);
        let max_block_size = match parse_label_block_size(size_field) {
            Some(v) => v,
            None => {
                return Err(RsgError::InvalidHeader {
                    msg: String::from_str("tape label block size is not a decimal number"),
                });
            },
        };
        let res = TapeLabel {
            storage_unit_seq_no: copy_array::<4>(bytes, 0),
            segy_revision_no: copy_array::<5>(bytes, 4),
            storage_unit_structure: copy_array::<6>(bytes, 9),
            binding_number: copy_array::<4>(bytes, 15),
            max_block_size,
            producing_organisation_code: copy_array::<10>(bytes, 29),
            creation_date: copy_array::<11>(bytes, 39),
            serial_number: copy_array::<12>(bytes, 50),
            external_label: copy_array::<12>(bytes, 68),
            recording_entity: copy_array::<24>(bytes, 80),
            extra: copy_array::<14>(bytes, 104),
        };
        Ok(res)
    }
}

/// The coordinate format the settings choose: the override when present,
/// 4-byte signed integers otherwise.
pub open spec fn spec_trace_coord_fmt(s: SegySettings) -> SampleFormatCode {
    match s.override_coordinate_format {
        Some(f) => f,
        None => SampleFormatCode::Int32,
    }
}

/// An `i32` reinterpreted as the 64-bit word its bits sign-extend to.
pub open spec fn spec_sign_ext_u64(v: i32) -> u64 {
    if v >= 0 {
        v as u64
    } else {
        (v + 0x10000000000000000) as u64
    }
}

/// Sign-extends an `i32` into a `u64` word.
fn sign_ext_u64(v: i32) -> (r: u64)
    ensures
        r == spec_sign_ext_u64(v),
{
    if v >= 0 {
        v as u64
    } else {
        let mag = (-(v as i64)) as u64;
        u64::MAX - mag + 1
    }
}

/// The low 32 bits of a word, as a signed value.
pub open spec fn spec_wrap_u64_to_i32(w: u64) -> i32 {
    ((w % 0x100000000) as u32) as i32
}

/// Truncates a word to its low 32 bits, signed.
fn wrap_u64_to_i32(w: u64) -> (r: i32)
    ensures
        r == spec_wrap_u64_to_i32(w),
{
    ((w % 0x100000000) as u32) as i32
}

/// The position a trace counts as for the dimension overrides: the scan
/// position itself, or one of the sequence-number fields of its header,
/// as the ordering mode directs.
pub open spec fn spec_effective_index(bytes: Seq<u8>, s: SegySettings, le: bool, idx: usize) -> u64 {
    match s.order_trace_by {
        OrderTraceBy::Default => idx as u64,
        OrderTraceBy::TraceSequenceOnLine => spec_sign_ext_u64(spec_i32_at(bytes, 0, le)),
        OrderTraceBy::TraceSequenceInFile => spec_sign_ext_u64(spec_i32_at(bytes, 4, le)),
        OrderTraceBy::FieldRecordNo => spec_sign_ext_u64(spec_i32_at(bytes, 8, le)),
        OrderTraceBy::TraceNo => spec_sign_ext_u64(spec_i32_at(bytes, 12, le)),
        OrderTraceBy::TraceNoInEnsemble => spec_sign_ext_u64(spec_i32_at(bytes, 24, le)),
    }
}

/// Whether a 240-byte buffer decodes to a trace header under the given
/// settings and endianness: the coordinate format must be 4 bytes wide
/// and every coordinate field must have an `i32` value.
#[verifier::opaque]
pub open spec fn trace_header_parses(bytes: Seq<u8>, s: SegySettings, le: bool) -> bool {
    &&& bytes.len() == TRACE_HEADER_LEN
    &&& SegySettings::spec_coordinate_format_is_4_byte(spec_trace_coord_fmt(s))
    &&& spec_coord_at(bytes, 36, spec_trace_coord_fmt(s), le) is Some
    &&& spec_coord_at(bytes, 40, spec_trace_coord_fmt(s), le) is Some
    &&& spec_coord_at(bytes, 44, spec_trace_coord_fmt(s), le) is Some
    &&& spec_coord_at(bytes, 48, spec_trace_coord_fmt(s), le) is Some
    &&& spec_coord_at(bytes, 52, spec_trace_coord_fmt(s), le) is Some
    &&& spec_coord_at(bytes, 56, spec_trace_coord_fmt(s), le) is Some
    &&& spec_coord_at(bytes, 60, spec_trace_coord_fmt(s), le) is Some
    &&& spec_coord_at(bytes, 64, spec_trace_coord_fmt(s), le) is Some
    &&& spec_coord_at(bytes, 72, spec_trace_coord_fmt(s), le) is Some
    &&& spec_coord_at(bytes, 76, spec_trace_coord_fmt(s), le) is Some
    &&& spec_coord_at(bytes, 80, spec_trace_coord_fmt(s), le) is Some
    &&& spec_coord_at(bytes, 84, spec_trace_coord_fmt(s), le) is Some
    &&& spec_coord_at(bytes, s.x_ensemble_bidx as int, spec_trace_coord_fmt(s), le) is Some
    &&& spec_coord_at(bytes, s.y_ensemble_bidx as int, spec_trace_coord_fmt(s), le) is Some
}

/// Part of [`trace_header_matches`]: the leading plain and coded fields.
#[verifier::opaque]
pub open spec fn trace_header_matches_a(
    bytes: Seq<u8>,
    s: SegySettings,
    le: bool,
    idx: usize,
    h: TraceHeader,
) -> bool {
    &&& h.trace_sequence_on_line == spec_i32_at(bytes, 0, le)
    &&& h.trace_sequence_in_file == spec_i32_at(bytes, 4, le)
    &&& h.field_record_no == spec_i32_at(bytes, 8, le)
    &&& h.trace_no == spec_i32_at(bytes, 12, le)
    &&& h.energy_source_point_no == spec_i32_at(bytes, 16, le)
    &&& h.ensemble_no == spec_i32_at(bytes, 20, le)
    &&& h.trace_no_in_ensemble == spec_i32_at(bytes, 24, le)
    &&& h.trace_identification_code == (match s.override_trace_id_code {
        Some(id) => id,
        None => TraceIdCode::spec_new(spec_i16_at(bytes, 28, le)),
    })
    &&& h.no_v_summed_traces == spec_u16_at(bytes, 30, le)
    &&& h.no_h_stacked_traces == spec_u16_at(bytes, 32, le)
    &&& h.data_use == DataUse::spec_new(spec_u16_at(bytes, 34, le))
    &&& h.elevation_scalar == spec_i16_at(bytes, 68, le)
    &&& h.coordinate_units == CoordinateUnits::spec_new(spec_u16_at(bytes, 88, le))
    &&& h.weathing_velocity == spec_u16_at(bytes, 90, le)
    &&& h.sub_weathering_velocity == spec_u16_at(bytes, 92, le)
    &&& h.uphole_time_at_source == spec_u16_at(bytes, 94, le)
    &&& h.uphole_time_at_group == spec_u16_at(bytes, 96, le)
    &&& h.source_static_correction == spec_u16_at(bytes, 98, le)
    &&& h.group_static_correction == spec_u16_at(bytes, 100, le)
    &&& h.total_static_applied == spec_u16_at(bytes, 102, le)
    &&& h.lag_time_a == spec_u16_at(bytes, 104, le)
    &&& h.lag_time_b == spec_u16_at(bytes, 106, le)
    &&& h.delay_recording_time == spec_u16_at(bytes, 108, le)
    &&& h.mute_time_start == spec_u16_at(bytes, 110, le)
    &&& h.mute_time_end == spec_u16_at(bytes, 112, le)
    &&& h.no_samples_in_trace == spec_u16_at(bytes, 114, le)
    &&& h.sample_interval_of_trace == spec_u16_at(bytes, 116, le)
    &&& h.gain_type == GainType::spec_new(spec_u16_at(bytes, 118, le))
    &&& h.instrument_gain_constant == spec_u16_at(bytes, 120, le)
    &&& h.instrument_initial_gain == spec_u16_at(bytes, 122, le)
    &&& h.correlated == Correlated::spec_new(spec_u16_at(bytes, 124, le))
    &&& h.sweep_frequency_at_start == spec_u16_at(bytes, 126, le)
}

/// Part of [`trace_header_matches`]: the trailing plain and coded fields.
#[verifier::opaque]
pub open spec fn trace_header_matches_b(
    bytes: Seq<u8>,
    s: SegySettings,
    le: bool,
    idx: usize,
    h: TraceHeader,
) -> bool {
    &&& h.sweep_frequency_at_end == spec_u16_at(bytes, 128, le)
    &&& h.sweep_length == spec_u16_at(bytes, 130, le)
    &&& h.sweep_type == SweepType::spec_new(spec_u16_at(bytes, 132, le))
    &&& h.sweep_trace_taper_length_at_start == spec_u16_at(bytes, 134, le)
    &&& h.sweep_trace_taper_length_at_end == spec_u16_at(bytes, 136, le)
    &&& h.taper_type == TaperType::spec_new(spec_u16_at(bytes, 138, le))
    &&& h.alias_filter_frequency == spec_u16_at(bytes, 140, le)
    &&& h.alias_filter_slope == spec_u16_at(bytes, 142, le)
    &&& h.notch_filter_frequency == spec_u16_at(bytes, 144, le)
    &&& h.notch_filter_slope == spec_u16_at(bytes, 146, le)
    &&& h.low_cut_frequency == spec_u16_at(bytes, 148, le)
    &&& h.high_cut_frequency == spec_u16_at(bytes, 150, le)
    &&& h.low_cut_slope == spec_u16_at(bytes, 152, le)
    &&& h.high_cut_slope == spec_u16_at(bytes, 154, le)
    &&& h.year_recorded == spec_u16_at(bytes, 156, le)
    &&& h.day_of_year == spec_u16_at(bytes, 158, le)
    &&& h.hour_of_day == spec_u16_at(bytes, 160, le)
    &&& h.minute_of_hour == spec_u16_at(bytes, 162, le)
    &&& h.second_of_minute == spec_u16_at(bytes, 164, le)
    &&& h.time_base_code == TimeBasisCode::spec_new(spec_u16_at(bytes, 166, le))
    &&& h.trace_weighting_factor == spec_u16_at(bytes, 168, le)
    &&& h.geophone_group_number_roll_pos1 == spec_u16_at(bytes, 170, le)
    &&& h.geophone_group_number_first_trace_orig_field == spec_u16_at(bytes, 172, le)
    &&& h.geophone_group_number_last_trace_orig_field == spec_u16_at(bytes, 174, le)
    &&& h.gap_size == spec_u16_at(bytes, 176, le)
    &&& h.over_travel == OverTravel::spec_new(spec_u16_at(bytes, 178, le))
    &&& h.shot_point_no == spec_i32_at(bytes, 196, le)
    &&& h.shot_point_scalar == spec_u16_at(bytes, 200, le)
    &&& h.trace_value_measurement_unit == TraceValueUnit::spec_new(spec_i16_at(bytes, 202, le))
    &&& h.transduction_constant_mantissa == spec_i32_at(bytes, 204, le)
    &&& h.transduction_constant_power == spec_u16_at(bytes, 208, le)
    &&& h.transduction_units == TransductionUnits::spec_new(spec_i16_at(bytes, 210, le))
    &&& h.trace_identifier == spec_u16_at(bytes, 212, le)
    &&& h.time_scalar_trace_header == spec_u16_at(bytes, 214, le)
    &&& h.source_type == SourceType::spec_new(spec_i16_at(bytes, 216, le))
    &&& h.source_energy_direction_v == spec_u16_at(bytes, 218, le)
    &&& h.source_energy_direction_il == spec_u16_at(bytes, 220, le)
    &&& h.source_energy_direction_xl == spec_u16_at(bytes, 222, le)
    &&& h.source_measurement_mantissa == spec_i32_at(bytes, 224, le)
    &&& h.source_measurement_exponent == spec_u16_at(bytes, 228, le)
    &&& h.source_measurement_unit == SourceMeasurementUnit::spec_new(spec_i16_at(bytes, 230, le))
}

/// Part of [`trace_header_matches`]: the coordinate-format fields and the coordinate scalar.
#[verifier::opaque]
pub open spec fn trace_header_matches_c(
    bytes: Seq<u8>,
    s: SegySettings,
    le: bool,
    idx: usize,
    h: TraceHeader,
) -> bool {
    &&& Some(h.source_to_receiver_distance) == spec_coord_at(bytes, 36, spec_trace_coord_fmt(s), le)
    &&& Some(h.elevation_of_receiver_group) == spec_coord_at(bytes, 40, spec_trace_coord_fmt(s), le)
    &&& Some(h.surface_elevation_of_source) == spec_coord_at(bytes, 44, spec_trace_coord_fmt(s), le)
    &&& Some(h.source_depth) == spec_coord_at(bytes, 48, spec_trace_coord_fmt(s), le)
    &&& Some(h.datum_elevation_of_receiver_group) == spec_coord_at(bytes, 52, spec_trace_coord_fmt(s), le)
    &&& Some(h.datum_elevation_of_source) == spec_coord_at(bytes, 56, spec_trace_coord_fmt(s), le)
    &&& Some(h.water_column_height_at_source) == spec_coord_at(bytes, 60, spec_trace_coord_fmt(s), le)
    &&& Some(h.water_column_height_at_group) == spec_coord_at(bytes, 64, spec_trace_coord_fmt(s), le)
    &&& h.coordinate_scalar == (match s.override_coordinate_scaling {
        Some(sc) => sc,
        None => spec_i16_at(bytes, 70, le),
    })
    &&& Some(h.source_x) == spec_coord_at(bytes, 72, spec_trace_coord_fmt(s), le)
    &&& Some(h.source_y) == spec_coord_at(bytes, 76, spec_trace_coord_fmt(s), le)
    &&& Some(h.receiver_group_x) == spec_coord_at(bytes, 80, spec_trace_coord_fmt(s), le)
    &&& Some(h.receiver_group_y) == spec_coord_at(bytes, 84, spec_trace_coord_fmt(s), le)
}

/// Part of [`trace_header_matches`]: the geometry fields, at the offsets the settings name, and the trace name.
#[verifier::opaque]
pub open spec fn trace_header_matches_d(
    bytes: Seq<u8>,
    s: SegySettings,
    le: bool,
    idx: usize,
    h: TraceHeader,
) -> bool {
    &&& Some(h.x_ensemble) == spec_coord_at(bytes, s.x_ensemble_bidx as int, spec_trace_coord_fmt(s), le)
    &&& Some(h.y_ensemble) == spec_coord_at(bytes, s.y_ensemble_bidx as int, spec_trace_coord_fmt(s), le)
    &&& h.inline_no == (match s.override_dim_x {
        Some(x) => spec_wrap_u64_to_i32(spec_effective_index(bytes, s, le, idx) / (x as u64)),
        None => spec_i32_at(bytes, s.inline_no_bidx as int, le),
    })
    &&& h.crossline_no == (match s.override_dim_x {
        Some(x) => spec_wrap_u64_to_i32(spec_effective_index(bytes, s, le, idx) % (x as u64)),
        None => spec_i32_at(bytes, s.crossline_no_bidx as int, le),
    })
    &&& forall|i: int|
        0 <= i < 8 ==> h.trace_name@[i] == (if le {
            bytes[232 + i]
        } else {
            bytes[239 - i]
        })
}

/// How a trace header relates to its serialised bytes: every field holds
/// the interpretation of its byte range, the geometry fields at the
/// offsets the settings name, after the configured overrides. A buffer,
/// the settings and the scan position determine the header completely.
pub open spec fn trace_header_matches(
    bytes: Seq<u8>,
    s: SegySettings,
    le: bool,
    idx: usize,
    h: TraceHeader,
) -> bool {
    &&& trace_header_matches_a(bytes, s, le, idx, h)
    &&& trace_header_matches_b(bytes, s, le, idx, h)
    &&& trace_header_matches_c(bytes, s, le, idx, h)
    &&& trace_header_matches_d(bytes, s, le, idx, h)
}

/// Law: a trace header is determined by its bytes, settings and scan
/// position. With the encoder's guarantee that its output matches the
/// header it was given, writing a header and decoding the bytes again
/// under the same settings returns it unchanged.
pub proof fn lemma_trace_header_matches_unique(
    bytes: Seq<u8>,
    s: SegySettings,
    le: bool,
    idx: usize,
    h1: TraceHeader,
    h2: TraceHeader,
)
    requires
        trace_header_matches(bytes, s, le, idx, h1),
        trace_header_matches(bytes, s, le, idx, h2),
    ensures
        h1 == h2,
{
    broadcast use vstd::array::axiom_array_ext_equal;

    reveal(trace_header_matches_a);
    reveal(trace_header_matches_b);
    reveal(trace_header_matches_c);
    reveal(trace_header_matches_d);
    assert(h1.trace_name =~= h2.trace_name);
}


/// Law: under the default 4-byte signed coordinate format, every 240-byte
/// region decodes — each coordinate word has an `i32` value — so a trace
/// header written under such settings can always be read back, whatever
/// byte indices the geometry fields were given.
pub proof fn lemma_int32_coords_always_parse(bytes: Seq<u8>, s: SegySettings, le: bool)
    requires
        bytes.len() == TRACE_HEADER_LEN,
        s.wf(),
        spec_trace_coord_fmt(s) is Int32,
    ensures
        trace_header_parses(bytes, s, le),
{
    reveal(trace_header_parses);
    reveal(spec_parse_coord_u32);
}

impl TraceHeader {
    /// Decodes a 240-byte buffer into a trace header. Any other length is
    /// rejected; a coordinate format that is not 4 bytes wide, and a
    /// coordinate value with no `i32` representation, fail with a
    /// conversion error. `idx` is the position of the trace in the scan,
    /// consulted by the dimension overrides.
    #[verifier::rlimit(100)]
    #[verifier::spinoff_prover]
    pub fn from_bytes(
        bytes: &[u8],
        bin_header: &BinHeader,
        settings: &SegySettings,
        idx: usize,
    ) -> (r: Result<TraceHeader, RsgError>)
        requires
            settings.wf(),
            match settings.override_dim_x {
                Some(x) => x > 0,
                None => true,
            },
        ensures
            bytes@.len() != TRACE_HEADER_LEN ==> (r matches Err(RsgError::TraceHeaderLength {
                l,
            }) && l == bytes@.len()),
            trace_header_parses(bytes@, *settings, bin_header.binary_flag_direction_is_le) ==> (
            r matches Ok(h) && trace_header_matches(
                bytes@,
                *settings,
                bin_header.binary_flag_direction_is_le,
                idx,
                h,
            )),
            bytes@.len() == TRACE_HEADER_LEN && !SegySettings::spec_coordinate_format_is_4_byte(
                spec_trace_coord_fmt(*settings),
            ) ==> (r matches Err(RsgError::BitConversionError { .. })),
            bytes@.len() == TRACE_HEADER_LEN && SegySettings::spec_coordinate_format_is_4_byte(
                spec_trace_coord_fmt(*settings),
            ) && !trace_header_parses(bytes@, *settings, bin_header.binary_flag_direction_is_le)
                ==> (r matches Err(RsgError::FloatConversion { .. })),
    {
        let n = bytes.len();
        if n != TRACE_HEADER_LEN {
            proof {
                reveal(trace_header_parses);
            }
            return Err(RsgError::TraceHeaderLength { l: n });
        }
        let le = bin_header.binary_flag_direction_is_le;
        let fmt = match settings.get_override_coordinate_format() {
            Some(f) => f,
            None => SampleFormatCode::Int32,
        };
        if !matches!(
            fmt,
            SampleFormatCode::IbmFloat32 | SampleFormatCode::Float32 | SampleFormatCode::UInt32
                | SampleFormatCode::Int32
        ) {
            proof {
                reveal(trace_header_parses);
            }
            return Err(RsgError::BitConversionError {
                msg: String::from_str("coordinate format must be 4-byte"),
            });
        }
        let o_36 = parse_coord(bytes, 36, fmt, le);
        let o_40 = parse_coord(bytes, 40, fmt, le);
        let o_44 = parse_coord(bytes, 44, fmt, le);
        let o_48 = parse_coord(bytes, 48, fmt, le);
        let o_52 = parse_coord(bytes, 52, fmt, le);
        let o_56 = parse_coord(bytes, 56, fmt, le);
        let o_60 = parse_coord(bytes, 60, fmt, le);
        let o_64 = parse_coord(bytes, 64, fmt, le);
        let o_72 = parse_coord(bytes, 72, fmt, le);
        let o_76 = parse_coord(bytes, 76, fmt, le);
        let o_80 = parse_coord(bytes, 80, fmt, le);
        let o_84 = parse_coord(bytes, 84, fmt, le);
        let o_x_ens = parse_coord(bytes, settings.get_x_ensemble_bidx(), fmt, le);
        let o_y_ens = parse_coord(bytes, settings.get_y_ensemble_bidx(), fmt, le);
        if o_36.is_none() || o_40.is_none() || o_44.is_none() || o_48.is_none() || o_52.is_none()
            || o_56.is_none() || o_60.is_none() || o_64.is_none() || o_72.is_none()
            || o_76.is_none() || o_80.is_none() || o_84.is_none() || o_x_ens.is_none()
            || o_y_ens.is_none() {
            proof {
                reveal(trace_header_parses);
            }
            return Err(RsgError::FloatConversion { format: fmt });
        }
        proof {
            reveal(trace_header_parses);
            assert(trace_header_parses(bytes@, *settings, le));
        }
        let c_36 = match o_36 {
            Some(v) => v,
            None => 0,
        };
        let c_40 = match o_40 {
            Some(v) => v,
            None => 0,
        };
        let c_44 = match o_44 {
            Some(v) => v,
            None => 0,
        };
        let c_48 = match o_48 {
            Some(v) => v,
            None => 0,
        };
        let c_52 = match o_52 {
            Some(v) => v,
            None => 0,
        };
        let c_56 = match o_56 {
            Some(v) => v,
            None => 0,
        };
        let c_60 = match o_60 {
            Some(v) => v,
            None => 0,
        };
        let c_64 = match o_64 {
            Some(v) => v,
            None => 0,
        };
        let c_72 = match o_72 {
            Some(v) => v,
            None => 0,
        };
        let c_76 = match o_76 {
            Some(v) => v,
            None => 0,
        };
        let c_80 = match o_80 {
            Some(v) => v,
            None => 0,
        };
        let c_84 = match o_84 {
            Some(v) => v,
            None => 0,
        };
        let x_ensemble = match o_x_ens {
            Some(v) => v,
            None => 0,
        };
        let y_ensemble = match o_y_ens {
            Some(v) => v,
            None => 0,
        };
        let coordinate_scalar = match settings.get_override_coordinate_scaling() {
            Some(scaling) => scaling,
            None => get_i16(bytes, 70, le),
        };
        let trace_identification_code = match settings.get_override_trace_id_code() {
            Some(id) => id,
            None => TraceIdCode::new(get_i16(bytes, 28, le)),
        };
        let (inline_no, crossline_no) = match settings.get_override_dim_x() {
            Some(x) => {
                let eidx: u64 = match settings.get_order_trace_by() {
                    OrderTraceBy::Default => idx as u64,
                    OrderTraceBy::TraceSequenceOnLine => sign_ext_u64(get_i32(bytes, 0, le)),
                    OrderTraceBy::TraceSequenceInFile => sign_ext_u64(get_i32(bytes, 4, le)),
                    OrderTraceBy::FieldRecordNo => sign_ext_u64(get_i32(bytes, 8, le)),
                    OrderTraceBy::TraceNo => sign_ext_u64(get_i32(bytes, 12, le)),
                    OrderTraceBy::TraceNoInEnsemble => sign_ext_u64(get_i32(bytes, 24, le)),
                };
                (wrap_u64_to_i32(eidx / (x as u64)), wrap_u64_to_i32(eidx % (x as u64)))
            },
            None => (
                get_i32(bytes, settings.get_inline_no_bidx(), le),
                get_i32(bytes, settings.get_crossline_no_bidx(), le),
            ),
        };
        let trace_name: [u8; 8] = if le {
            copy_array::<8>(bytes, 232)
        } else {
            let mut a: [u8; 8] = [0; 8];
            let mut i: usize = 0;
            while i < 8
                invariant
                    bytes@.len() == 240,
                    0 <= i <= 8,
                    a@.len() == 8,
                    forall|j: int| 0 <= j < i ==> a@[j] == bytes@[239 - j],
                decreases 8 - i,
            {
                a[i] = *vstd::slice::slice_index_get(bytes, 239 - i);
                i += 1;
            }
            a
        };
        let h = TraceHeader {
            trace_sequence_on_line: get_i32(bytes, 0, le),
            trace_sequence_in_file: get_i32(bytes, 4, le),
            field_record_no: get_i32(bytes, 8, le),
            trace_no: get_i32(bytes, 12, le),
            energy_source_point_no: get_i32(bytes, 16, le),
            ensemble_no: get_i32(bytes, 20, le),
            trace_no_in_ensemble: get_i32(bytes, 24, le),
            trace_identification_code,
            no_v_summed_traces: get_u16(bytes, 30, le),
            no_h_stacked_traces: get_u16(bytes, 32, le),
            data_use: DataUse::new(get_u16(bytes, 34, le)),
            source_to_receiver_distance: c_36,
            elevation_of_receiver_group: c_40,
            surface_elevation_of_source: c_44,
            source_depth: c_48,
            datum_elevation_of_receiver_group: c_52,
            datum_elevation_of_source: c_56,
            water_column_height_at_source: c_60,
            water_column_height_at_group: c_64,
            elevation_scalar: get_i16(bytes, 68, le),
            coordinate_scalar,
            source_x: c_72,
            source_y: c_76,
            receiver_group_x: c_80,
            receiver_group_y: c_84,
            coordinate_units: CoordinateUnits::new(get_u16(bytes, 88, le)),
            weathing_velocity: get_u16(bytes, 90, le),
            sub_weathering_velocity: get_u16(bytes, 92, le),
            uphole_time_at_source: get_u16(bytes, 94, le),
            uphole_time_at_group: get_u16(bytes, 96, le),
            source_static_correction: get_u16(bytes, 98, le),
            group_static_correction: get_u16(bytes, 100, le),
            total_static_applied: get_u16(bytes, 102, le),
            lag_time_a: get_u16(bytes, 104, le),
            lag_time_b: get_u16(bytes, 106, le),
            delay_recording_time: get_u16(bytes, 108, le),
            mute_time_start: get_u16(bytes, 110, le),
            mute_time_end: get_u16(bytes, 112, le),
            no_samples_in_trace: get_u16(bytes, 114, le),
            sample_interval_of_trace: get_u16(bytes, 116, le),
            gain_type: GainType::new(get_u16(bytes, 118, le)),
            instrument_gain_constant: get_u16(bytes, 120, le),
            instrument_initial_gain: get_u16(bytes, 122, le),
            correlated: Correlated::new(get_u16(bytes, 124, le)),
            sweep_frequency_at_start: get_u16(bytes, 126, le),
            sweep_frequency_at_end: get_u16(bytes, 128, le),
            sweep_length: get_u16(bytes, 130, le),
            sweep_type: SweepType::new(get_u16(bytes, 132, le)),
            sweep_trace_taper_length_at_start: get_u16(bytes, 134, le),
            sweep_trace_taper_length_at_end: get_u16(bytes, 136, le),
            taper_type: TaperType::new(get_u16(bytes, 138, le)),
            alias_filter_frequency: get_u16(bytes, 140, le),
            alias_filter_slope: get_u16(bytes, 142, le),
            notch_filter_frequency: get_u16(bytes, 144, le),
            notch_filter_slope: get_u16(bytes, 146, le),
            low_cut_frequency: get_u16(bytes, 148, le),
            high_cut_frequency: get_u16(bytes, 150, le),
            low_cut_slope: get_u16(bytes, 152, le),
            high_cut_slope: get_u16(bytes, 154, le),
            year_recorded: get_u16(bytes, 156, le),
            day_of_year: get_u16(bytes, 158, le),
            hour_of_day: get_u16(bytes, 160, le),
            minute_of_hour: get_u16(bytes, 162, le),
            second_of_minute: get_u16(bytes, 164, le),
            time_base_code: TimeBasisCode::new(get_u16(bytes, 166, le)),
            trace_weighting_factor: get_u16(bytes, 168, le),
            geophone_group_number_roll_pos1: get_u16(bytes, 170, le),
            geophone_group_number_first_trace_orig_field: get_u16(bytes, 172, le),
            geophone_group_number_last_trace_orig_field: get_u16(bytes, 174, le),
            gap_size: get_u16(bytes, 176, le),
            over_travel: OverTravel::new(get_u16(bytes, 178, le)),
            x_ensemble,
            y_ensemble,
            inline_no,
            crossline_no,
            shot_point_no: get_i32(bytes, 196, le),
            shot_point_scalar: get_u16(bytes, 200, le),
            trace_value_measurement_unit: TraceValueUnit::new(get_i16(bytes, 202, le)),
            transduction_constant_mantissa: get_i32(bytes, 204, le),
            transduction_constant_power: get_u16(bytes, 208, le),
            transduction_units: TransductionUnits::new(get_i16(bytes, 210, le)),
            trace_identifier: get_u16(bytes, 212, le),
            time_scalar_trace_header: get_u16(bytes, 214, le),
            source_type: SourceType::new(get_i16(bytes, 216, le)),
            source_energy_direction_v: get_u16(bytes, 218, le),
            source_energy_direction_il: get_u16(bytes, 220, le),
            source_energy_direction_xl: get_u16(bytes, 222, le),
            source_measurement_mantissa: get_i32(bytes, 224, le),
            source_measurement_exponent: get_u16(bytes, 228, le),
            source_measurement_unit: SourceMeasurementUnit::new(get_i16(bytes, 230, le)),
            trace_name,
        };
        proof {
            assert(trace_header_matches_a(bytes@, *settings, le, idx, h)) by {
                reveal(trace_header_matches_a);
            }
            assert(trace_header_matches_b(bytes@, *settings, le, idx, h)) by {
                reveal(trace_header_matches_b);
            }
            assert(trace_header_matches_c(bytes@, *settings, le, idx, h)) by {
                reveal(trace_header_matches_c);
            }
            assert(trace_header_matches_d(bytes@, *settings, le, idx, h)) by {
                reveal(trace_header_matches_d);
            }
        }
        Ok(h)
    }
}

} // verus!
