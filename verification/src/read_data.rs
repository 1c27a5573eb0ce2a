//! Reading the sample data of a trace out of the mapped buffer: raw
//! bytes, strided bytes, decoded samples and single data points.

use crate::bitconverter::{decode_sample, spec_decode_sample, spec_decode_supported, SampleValue};
use crate::enums::SampleFormatCode;
use crate::errors::RsgError;
use crate::header_structs::BinHeader;
use crate::settings::SegySettings;
use crate::Trace;
use vstd::prelude::*;
use vstd::slice::{slice_subrange, slice_to_vec};
use vstd::string::StringExecFns;

verus! {

/// The sample format a trace's data is read in: the settings override
/// when present, the file-wide format otherwise.
pub open spec fn spec_trace_fmt(bin_header: BinHeader, s: SegySettings) -> SampleFormatCode {
    match s.override_trace_format {
        Some(f) => f,
        None => bin_header.sample_format_code,
    }
}

/// The byte order a trace's data is read in: the settings override when
/// present, the file-wide order otherwise.
pub open spec fn spec_trace_le(bin_header: BinHeader, s: SegySettings) -> bool {
    match s.override_to_le {
        Some(le) => le,
        None => bin_header.binary_flag_direction_is_le,
    }
}

/// The raw bytes of a trace's data block.
pub fn get_trace_data_reference<'a>(data: &'a [u8], trace: &Trace) -> (r: Result<&'a [u8], RsgError>)
    ensures
        trace.trace_start_byte + trace.trace_byte_len <= data@.len() ==> (r matches Ok(s) && s@
            == data@.subrange(
            trace.trace_start_byte as int,
            trace.trace_start_byte + trace.trace_byte_len,
        )),
        trace.trace_start_byte + trace.trace_byte_len > data@.len() ==> (r matches Err(
            RsgError::ShortSEGY { .. },
        )),
{
    let n = data.len();
    let start = trace.get_start();
    let len = trace.len();
    if start > n || n - start < len {
        return Err(RsgError::ShortSEGY { a: n, b: len });
    }
    Ok(slice_subrange(data, start, start + len))
}

/// The bytes a stride selects out of a data block: each datum-sized
/// chunk at a multiple of `width * step`, with a final partial chunk
/// taken as it stands.
pub open spec fn spec_strided(bytes: Seq<u8>, width: int, step: int) -> Seq<u8>
    recommends
        width >= 1,
        step >= 1,
    decreases bytes.len(),
    when width >= 1 && step >= 1
    via spec_strided_decreases
{
    if bytes.len() == 0 {
        Seq::<u8>::empty()
    } else {
        let chunk_end = if width <= bytes.len() {
            width
        } else {
            bytes.len() as int
        };
        let adv = if width * step <= bytes.len() {
            width * step
        } else {
            bytes.len() as int
        };
        bytes.take(chunk_end) + spec_strided(bytes.skip(adv), width, step)
    }
}

#[via_fn]
proof fn spec_strided_decreases(bytes: Seq<u8>, width: int, step: int) {
    if bytes.len() > 0 {
        vstd::arithmetic::mul::lemma_mul_inequality(1, width, step);
    }
}

/// Selects every `step`-th datum-sized chunk of a data block.
pub fn strided_bytes(bytes: &[u8], width: usize, step: usize) -> (r: Vec<u8>)
    requires
        1 <= width <= 8,
        step >= 1,
    ensures
        r@ == spec_strided(bytes@, width as int, step as int),
{
    let n = bytes.len();
    let mut out: Vec<u8> = Vec::new();
    let mut pos: usize = 0;
    proof {
        assert(bytes@.skip(0) =~= bytes@);
        assert(out@ + spec_strided(bytes@.skip(0), width as int, step as int) =~= spec_strided(
            bytes@,
            width as int,
            step as int,
        ));
    }
    while pos < n
        invariant
            n == bytes@.len(),
            0 <= pos <= n,
            1 <= width <= 8,
            step >= 1,
            spec_strided(bytes@, width as int, step as int) == out@ + spec_strided(
                bytes@.skip(pos as int),
                width as int,
                step as int,
            ),
        decreases n - pos,
    {
        let ghost out0 = out@;
        let ghost rest = bytes@.skip(pos as int);
        let end = if n - pos >= width {
            pos + width
        } else {
            n
        };
        let mut chunk = slice_to_vec(slice_subrange(bytes, pos, end));
        out.append(&mut chunk);
        let adv: usize = if step <= (n - pos) / width {
            proof {
                vstd::arithmetic::div_mod::lemma_fundamental_div_mod(n - pos, width as int);
                vstd::arithmetic::mul::lemma_mul_inequality(
                    step as int,
                    ((n - pos) / (width as int)) as int,
                    width as int,
                );
                vstd::arithmetic::mul::lemma_mul_is_commutative(step as int, width as int);
                vstd::arithmetic::mul::lemma_mul_is_commutative(
                    ((n - pos) / (width as int)) as int,
                    width as int,
                );
                vstd::arithmetic::div_mod::lemma_mod_bound(n - pos, width as int);
            }
            width * step
        } else {
            proof {
                vstd::arithmetic::div_mod::lemma_fundamental_div_mod(n - pos, width as int);
                vstd::arithmetic::mul::lemma_mul_is_distributive_add_other_way(
                    width as int,
                    ((n - pos) / (width as int)) as int,
                    1,
                );
                vstd::arithmetic::mul::lemma_mul_inequality(
                    ((n - pos) / (width as int)) as int + 1,
                    step as int,
                    width as int,
                );
                vstd::arithmetic::mul::lemma_mul_is_commutative(
                    ((n - pos) / (width as int)) as int + 1,
                    width as int,
                );
                vstd::arithmetic::mul::lemma_mul_is_commutative(step as int, width as int);
                vstd::arithmetic::div_mod::lemma_mod_bound(n - pos, width as int);
            }
            n - pos
        };
        proof {
            assert(rest.take(
                if width as int <= rest.len() {
                    width as int
                } else {
                    rest.len() as int
                },
            ) =~= bytes@.subrange(pos as int, end as int));
            assert(rest.skip(adv as int) =~= bytes@.skip(pos + adv));
            assert(out@ =~= out0 + bytes@.subrange(pos as int, end as int));
            assert(out@ + spec_strided(bytes@.skip(pos + adv), width as int, step as int) =~= out0
                + spec_strided(rest, width as int, step as int));
        }
        pos = pos + adv;
    }
    proof {
        assert(bytes@.skip(n as int) =~= Seq::<u8>::empty());
        assert(out@ + Seq::<u8>::empty() =~= out@);
    }
    out
}

/// The samples a byte block decodes to: one per datum-sized chunk, when
/// the format converts and the width divides the block.
pub open spec fn spec_decode_vector(bytes: Seq<u8>, fmt: SampleFormatCode, le: bool) -> Option<
    Seq<SampleValue>,
> {
    let w = fmt.spec_datum_byte_length() as int;
    if !spec_decode_supported(fmt) || (bytes.len() as int) % w != 0 {
        None
    } else {
        Some(
            Seq::new(
                ((bytes.len() as int) / w) as nat,
                |i: int| spec_decode_sample(bytes.subrange(i * w, i * w + w), fmt, le),
            ),
        )
    }
}

/// Decodes a whole byte block datum by datum.
pub fn decode_datum_vector(bytes: &[u8], fmt: SampleFormatCode, le: bool) -> (r: Result<
    Vec<SampleValue>,
    RsgError,
>)
    ensures
        match spec_decode_vector(bytes@, fmt, le) {
            Some(s) => (r matches Ok(v) && v@ == s),
            None => (r matches Err(e) && (e matches RsgError::BitConversionError { .. }
                || e matches RsgError::TraceDivisibility { .. })),
        },
{
    if matches!(
        fmt,
        SampleFormatCode::Int24 | SampleFormatCode::UInt24 | SampleFormatCode::FixPoint32
    ) {
        return Err(RsgError::BitConversionError {
            msg: String::from_str("samples in this format cannot be decoded"),
        });
    }
    let w = fmt.datum_byte_length();
    let n = bytes.len();
    if n % w != 0 {
        return Err(RsgError::TraceDivisibility { a: n, b: w, format: fmt });
    }
    let count = n / w;
    let mut out: Vec<SampleValue> = Vec::new();
    let mut i: usize = 0;
    proof {
        vstd::arithmetic::div_mod::lemma_fundamental_div_mod(n as int, w as int);
    }
    while i < count
        invariant
            n == bytes@.len(),
            1 <= w <= 8,
            w == fmt.spec_datum_byte_length(),
            spec_decode_supported(fmt),
            count == n as int / w as int,
            n == count * w,
            0 <= i <= count,
            out@.len() == i,
            forall|j: int|
                0 <= j < i ==> out@[j] == spec_decode_sample(
                    bytes@.subrange(j * (w as int), j * (w as int) + (w as int)),
                    fmt,
                    le,
                ),
        decreases count - i,
    {
        proof {
            vstd::arithmetic::mul::lemma_mul_inequality(i as int + 1, count as int, w as int);
            vstd::arithmetic::mul::lemma_mul_is_distributive_add_other_way(
                w as int,
                i as int,
                1,
            );
            vstd::arithmetic::mul::lemma_mul_is_commutative(i as int + 1, w as int);
            vstd::arithmetic::mul::lemma_mul_is_commutative(count as int, w as int);
            vstd::arithmetic::mul::lemma_mul_is_commutative(i as int, w as int);
        }
        let chunk = slice_subrange(bytes, i * w, i * w + w);
        match decode_sample(chunk, fmt, le) {
            Ok(v) => {
                out.push(v);
            },
            Err(e) => {
                return Err(e);
            },
        }
        i += 1;
    }
    proof {
        let s = spec_decode_vector(bytes@, fmt, le).unwrap();
        assert(out@ =~= s);
    }
    Ok(out)
}

/// Reads and decodes the whole data block of a trace, honouring the
/// format, endianness and stride settings. A block the buffer cannot
/// hold, a format that does not convert, and a block the datum width
/// does not divide each fail with their own error.
pub fn get_trace_data_as_samples(
    data: &[u8],
    trace: &Trace,
    bin_header: &BinHeader,
    settings: &SegySettings,
) -> (r: Result<Vec<SampleValue>, RsgError>)
    requires
        settings.step_by >= 1,
    ensures
        trace.trace_start_byte + trace.trace_byte_len > data@.len() ==> (r matches Err(
            RsgError::ShortSEGY { .. },
        )),
        trace.trace_start_byte + trace.trace_byte_len <= data@.len() ==> (match spec_decode_vector(
            spec_strided(
                data@.subrange(
                    trace.trace_start_byte as int,
                    trace.trace_start_byte + trace.trace_byte_len,
                ),
                spec_trace_fmt(*bin_header, *settings).spec_datum_byte_length() as int,
                settings.step_by as int,
            ),
            spec_trace_fmt(*bin_header, *settings),
            spec_trace_le(*bin_header, *settings),
        ) {
            Some(s) => (r matches Ok(v) && v@ == s),
            None => (r matches Err(e) && (e matches RsgError::BitConversionError { .. }
                || e matches RsgError::TraceDivisibility { .. })),
        }),
{
    let raw = match get_trace_data_reference(data, trace) {
        Ok(s) => s,
        Err(e) => {
            return Err(e);
        },
    };
    let fmt = match settings.get_override_trace_format() {
        Some(f) => f,
        None => bin_header.sample_format_code,
    };
    let le = match settings.get_override_to_le() {
        Some(le) => le,
        None => bin_header.binary_flag_direction_is_le,
    };
    let width = fmt.datum_byte_length();
    let strided = strided_bytes(raw, width, settings.get_step_by());
    decode_datum_vector(strided.as_slice(), fmt, le)
}

/// Reads the raw bytes of a trace's data block, honouring the stride: a
/// stride of one returns the block as it stands.
pub fn get_trace_data_as_bytes_unprocessed(
    data: &[u8],
    trace: &Trace,
    bin_header: &BinHeader,
    settings: &SegySettings,
) -> (r: Result<Vec<u8>, RsgError>)
    requires
        settings.step_by >= 1,
    ensures
        trace.trace_start_byte + trace.trace_byte_len > data@.len() ==> (r matches Err(
            RsgError::ShortSEGY { .. },
        )),
        trace.trace_start_byte + trace.trace_byte_len <= data@.len() ==> (r matches Ok(v) && v@
            == spec_strided(
            data@.subrange(
                trace.trace_start_byte as int,
                trace.trace_start_byte + trace.trace_byte_len,
            ),
            spec_trace_fmt(*bin_header, *settings).spec_datum_byte_length() as int,
            settings.step_by as int,
        )),
{
    let raw = match get_trace_data_reference(data, trace) {
        Ok(s) => s,
        Err(e) => {
            return Err(e);
        },
    };
    let fmt = match settings.get_override_trace_format() {
        Some(f) => f,
        None => bin_header.sample_format_code,
    };
    let width = fmt.datum_byte_length();
    Ok(strided_bytes(raw, width, settings.get_step_by()))
}

/// Whether the datum at `idx` of the trace lies inside the trace's data
/// range and the buffer.
pub open spec fn spec_point_in_range(
    data: Seq<u8>,
    trace: Trace,
    bin_header: BinHeader,
    s: SegySettings,
    idx: int,
) -> bool {
    let w = spec_trace_fmt(bin_header, s).spec_datum_byte_length() as int;
    &&& (idx + 1) * w <= trace.trace_byte_len
    &&& trace.trace_start_byte + (idx + 1) * w <= data.len()
}

/// Reads the raw bytes of one data point of a trace: exactly the datum
/// inside the trace range, and an out-of-bounds error for any index
/// whose datum is not wholly there.
pub fn get_trace_data_point_as_bytes(
    data: &[u8],
    trace: &Trace,
    bin_header: &BinHeader,
    settings: &SegySettings,
    idx: usize,
) -> (r: Result<Vec<u8>, RsgError>)
    ensures
        spec_point_in_range(data@, *trace, *bin_header, *settings, idx as int) ==> (r matches Ok(v)
            && v@ == data@.subrange(
            trace.trace_start_byte + idx * (spec_trace_fmt(
                *bin_header,
                *settings,
            ).spec_datum_byte_length() as int),
            trace.trace_start_byte + (idx + 1) * (spec_trace_fmt(
                *bin_header,
                *settings,
            ).spec_datum_byte_length() as int),
        )),
        !spec_point_in_range(data@, *trace, *bin_header, *settings, idx as int) ==> (r matches Err(
            e,
        ) && e == (RsgError::TracePointOutOfBounds { idx })),
        r matches Ok(v) ==> {
            let w = spec_trace_fmt(*bin_header, *settings).spec_datum_byte_length() as int;
            &&& trace.trace_start_byte + (idx + 1) * w <= trace.trace_start_byte
                + trace.trace_byte_len
            &&& trace.trace_start_byte + (idx + 1) * w <= data@.len()
            &&& v@ == data@.subrange(
                trace.trace_start_byte + idx * w,
                trace.trace_start_byte + idx * w + w,
            )
        },
        r matches Err(e) ==> (e matches RsgError::TracePointOutOfBounds { idx: i } && i == idx),
{
    let fmt = match settings.get_override_trace_format() {
        Some(f) => f,
        None => bin_header.sample_format_code,
    };
    let w = fmt.datum_byte_length();
    let n = data.len();
    let start = trace.get_start();
    let len = trace.len();
    if idx > n / w {
        proof {
            vstd::arithmetic::div_mod::lemma_fundamental_div_mod(n as int, w as int);
            vstd::arithmetic::mul::lemma_mul_inequality(
                (n as int / w as int) + 1,
                idx as int,
                w as int,
            );
            vstd::arithmetic::mul::lemma_mul_is_distributive_add_other_way(
                w as int,
                n as int / w as int,
                1,
            );
            vstd::arithmetic::mul::lemma_mul_is_commutative(
                (n as int / w as int) + 1,
                w as int,
            );
            vstd::arithmetic::mul::lemma_mul_is_commutative(idx as int, w as int);
            vstd::arithmetic::div_mod::lemma_mod_bound(n as int, w as int);
            vstd::arithmetic::mul::lemma_mul_inequality(
                idx as int,
                idx as int + 1,
                w as int,
            );
        }
        return Err(RsgError::TracePointOutOfBounds { idx });
    }
    proof {
        vstd::arithmetic::div_mod::lemma_fundamental_div_mod(n as int, w as int);
        vstd::arithmetic::mul::lemma_mul_inequality(idx as int, n as int / w as int, w as int);
        vstd::arithmetic::mul::lemma_mul_is_commutative(idx as int, w as int);
        vstd::arithmetic::mul::lemma_mul_is_commutative(n as int / w as int, w as int);
        vstd::arithmetic::div_mod::lemma_mod_bound(n as int, w as int);
    }
    let first_byte = idx * w;
    if start > n || first_byte > len || len - first_byte < w || first_byte > n - start || n - start
        - first_byte < w {
        return Err(RsgError::TracePointOutOfBounds { idx });
    }
    proof {
        vstd::arithmetic::mul::lemma_mul_is_distributive_add_other_way(
            w as int,
            idx as int,
            1,
        );
        vstd::arithmetic::mul::lemma_mul_is_commutative(idx as int + 1, w as int);
    }
    Ok(slice_to_vec(slice_subrange(data, start + first_byte, start + first_byte + w)))
}

/// Reads and decodes one data point of a trace: the decoded datum when
/// the index is in range and the format converts, the out-of-bounds
/// error otherwise, or a conversion error for an unconvertible format.
pub fn get_trace_data_point_as_sample(
    data: &[u8],
    trace: &Trace,
    bin_header: &BinHeader,
    settings: &SegySettings,
    idx: usize,
) -> (r: Result<SampleValue, RsgError>)
    ensures
        spec_point_in_range(data@, *trace, *bin_header, *settings, idx as int)
            && spec_decode_supported(spec_trace_fmt(*bin_header, *settings)) ==> r is Ok,
        !spec_point_in_range(data@, *trace, *bin_header, *settings, idx as int) ==> (r matches Err(
            e,
        ) && e == (RsgError::TracePointOutOfBounds { idx })),
        spec_point_in_range(data@, *trace, *bin_header, *settings, idx as int)
            && !spec_decode_supported(spec_trace_fmt(*bin_header, *settings)) ==> (r matches Err(
            e,
        ) && e matches RsgError::BitConversionError { .. }),
        r matches Ok(v) ==> {
            let w = spec_trace_fmt(*bin_header, *settings).spec_datum_byte_length() as int;
            &&& trace.trace_start_byte + (idx + 1) * w <= data@.len()
            &&& v == spec_decode_sample(
                data@.subrange(
                    trace.trace_start_byte + idx * w,
                    trace.trace_start_byte + idx * w + w,
                ),
                spec_trace_fmt(*bin_header, *settings),
                spec_trace_le(*bin_header, *settings),
            )
        },
{
    let fmt = match settings.get_override_trace_format() {
        Some(f) => f,
        None => bin_header.sample_format_code,
    };
    let le = match settings.get_override_to_le() {
        Some(le) => le,
        None => bin_header.binary_flag_direction_is_le,
    };
    let point = match get_trace_data_point_as_bytes(data, trace, bin_header, settings, idx) {
        Ok(p) => p,
        Err(e) => {
            return Err(e);
        },
    };
    decode_sample(point.as_slice(), fmt, le)
}

} // verus!
