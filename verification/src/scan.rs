//! Trace discovery over a mapped byte buffer: locating the label, text,
//! binary and extended headers, then walking the trace blocks under
//! either the fixed-length or the variable-length record regime.

use crate::convert_headers::{
    lemma_trace_header_matches_unique, spec_bin_header_parses, trace_header_matches,
    trace_header_parses,
};
use crate::errors::RsgError;
use crate::header_structs::{BinHeader, TapeLabel, TraceHeader};
use crate::settings::SegySettings;
use crate::text::{convert_bytes_to_ascii, ebcdic_ascii, to_ascii_byte, utf8_lossy};
use crate::text::{lossy_chars, spec_header_text_bytes};
use crate::{Trace, BIN_HEADER_LEN, TAPE_LABEL_LEN, TEXT_HEADER_LEN, TRACE_HEADER_LEN};
use vstd::prelude::*;
use vstd::slice::slice_subrange;

verus! {

/// Whether a buffer starts with a tape label: its first byte does not
/// read as the letter `C` in any of the three encodings the text header
/// may use, while the byte right after the label-sized prefix does. The
/// heuristic needs at least one byte past the label.
pub open spec fn spec_has_label(bytes: Seq<u8>) -> bool {
    let c1 = bytes[0];
    let c2 = bytes[TAPE_LABEL_LEN as int];
    !(c1 == 67 || ebcdic_ascii(c1) == 67) && (c2 == 67 || ebcdic_ascii(c2) == 67)
}

/// Applies the tape label heuristic. A buffer no longer than a label is
/// too short to be a file at all.
pub fn has_label(bytes: &[u8]) -> (r: Result<bool, RsgError>)
    ensures
        bytes@.len() <= TAPE_LABEL_LEN ==> r == Err::<bool, RsgError>(RsgError::FileTooShort),
        bytes@.len() > TAPE_LABEL_LEN ==> r == Ok::<bool, RsgError>(spec_has_label(bytes@)),
{
    let n = bytes.len();
    if n <= TAPE_LABEL_LEN {
        return Err(RsgError::FileTooShort);
    }
    let c1 = *vstd::slice::slice_index_get(bytes, 0);
    let c2 = *vstd::slice::slice_index_get(bytes, TAPE_LABEL_LEN);
    let starts_with_text_header = c1 == 67 || to_ascii_byte(c1) == 67;
    let text_header_at_label_end = c2 == 67 || to_ascii_byte(c2) == 67;
    Ok(!starts_with_text_header && text_header_at_label_end)
}

/// The byte the mandatory headers start at: shifted by the label length
/// when the buffer has a label.
pub open spec fn spec_start_shift(bytes: Seq<u8>) -> int {
    if spec_has_label(bytes) {
        TAPE_LABEL_LEN as int
    } else {
        0
    }
}

/// Whether the buffer is long enough to hold the mandatory headers and
/// at least one trace header after its optional label.
pub open spec fn spec_file_long_enough(bytes: Seq<u8>) -> bool {
    bytes.len() > spec_start_shift(bytes) + TEXT_HEADER_LEN + BIN_HEADER_LEN + TRACE_HEADER_LEN
}

/// Checks that a buffer is long enough to be a file.
pub fn check_file_length(bytes: &[u8]) -> (r: Result<bool, RsgError>)
    ensures
        bytes@.len() > TAPE_LABEL_LEN && spec_file_long_enough(bytes@) ==> r == Ok::<
            bool,
            RsgError,
        >(spec_has_label(bytes@)),
        !(bytes@.len() > TAPE_LABEL_LEN && spec_file_long_enough(bytes@)) ==> r == Err::<
            bool,
            RsgError,
        >(RsgError::FileTooShort),
{
    let label = match has_label(bytes) {
        Ok(l) => l,
        Err(e) => {
            return Err(e);
        },
    };
    let shift: usize = if label {
        TAPE_LABEL_LEN
    } else {
        0
    };
    if bytes.len() <= shift + TEXT_HEADER_LEN + BIN_HEADER_LEN + TRACE_HEADER_LEN {
        return Err(RsgError::FileTooShort);
    }
    Ok(label)
}

/// Reads the tape label of a buffer that has one.
pub fn get_tape_label(bytes: &[u8], settings: &SegySettings) -> (r: Result<
    Option<TapeLabel>,
    RsgError,
>)
    ensures
        bytes@.len() <= TAPE_LABEL_LEN ==> r == Err::<Option<TapeLabel>, RsgError>(
            RsgError::FileTooShort,
        ),
        bytes@.len() > TAPE_LABEL_LEN && !spec_has_label(bytes@) ==> r == Ok::<
            Option<TapeLabel>,
            RsgError,
        >(None),
        bytes@.len() > TAPE_LABEL_LEN && spec_has_label(bytes@) ==> (
        match crate::convert_headers::spec_label_block_size(bytes@.subrange(19, 29)) {
            Some(_) => (r matches Ok(l) && l matches Some(label)
                && crate::convert_headers::tape_label_matches(
                bytes@.subrange(0, TAPE_LABEL_LEN as int),
                label,
            )),
            None => (r matches Err(e) && e matches RsgError::InvalidHeader { .. }),
        }),
{
    let label = match has_label(bytes) {
        Ok(l) => l,
        Err(e) => {
            return Err(e);
        },
    };
    if label {
        let raw = slice_subrange(bytes, 0, TAPE_LABEL_LEN);
        proof {
            assert(raw@.subrange(19, 29) =~= bytes@.subrange(19, 29));
        }
        match TapeLabel::from_bytes(raw, settings) {
            Ok(l) => Ok(Some(l)),
            Err(e) => Err(e),
        }
    } else {
        Ok(None)
    }
}

/// Reads the 3200-byte text header as a string, mapped out of EBCDIC
/// when it is not printable ASCII and truncated at the first NUL.
pub fn get_text_header(bytes: &[u8]) -> (r: Result<String, RsgError>)
    ensures
        bytes@.len() <= TAPE_LABEL_LEN ==> (r matches Err(e) && e == RsgError::FileTooShort),
        bytes@.len() > TAPE_LABEL_LEN && spec_start_shift(bytes@) + TEXT_HEADER_LEN
            > bytes@.len() ==> (r matches Err(e) && e == RsgError::SEGYTooShort),
        bytes@.len() > TAPE_LABEL_LEN && spec_start_shift(bytes@) + TEXT_HEADER_LEN
            <= bytes@.len() ==> (r matches Ok(s) && s@ == lossy_chars(
            spec_header_text_bytes(
                bytes@.subrange(
                    spec_start_shift(bytes@),
                    spec_start_shift(bytes@) + TEXT_HEADER_LEN,
                ),
            ),
        )),
{
    let label = match has_label(bytes) {
        Ok(l) => l,
        Err(e) => {
            return Err(e);
        },
    };
    let start: usize = if label {
        TAPE_LABEL_LEN
    } else {
        0
    };
    if bytes.len() < start + TEXT_HEADER_LEN || start + TEXT_HEADER_LEN > bytes.len() {
        return Err(RsgError::SEGYTooShort);
    }
    let region = slice_subrange(bytes, start, start + TEXT_HEADER_LEN);
    let header_bytes = convert_bytes_to_ascii(region);
    Ok(utf8_lossy(header_bytes.as_slice()))
}

/// Decodes the 400-byte binary header of the buffer.
pub fn get_bin_header(bytes: &[u8], settings: &SegySettings) -> (r: Result<BinHeader, RsgError>)
    ensures
        bytes@.len() <= TAPE_LABEL_LEN ==> (r matches Err(e) && e == RsgError::FileTooShort),
        bytes@.len() > TAPE_LABEL_LEN && spec_start_shift(bytes@) + TEXT_HEADER_LEN
            + BIN_HEADER_LEN > bytes@.len() ==> (r matches Err(e) && e == RsgError::SEGYTooShort),
        bytes@.len() > TAPE_LABEL_LEN && spec_start_shift(bytes@) + TEXT_HEADER_LEN
            + BIN_HEADER_LEN <= bytes@.len() && spec_bin_header_parses(
            bytes@.subrange(
                spec_start_shift(bytes@) + TEXT_HEADER_LEN,
                spec_start_shift(bytes@) + TEXT_HEADER_LEN + BIN_HEADER_LEN,
            ),
            *settings,
        ) ==> (r matches Ok(h) && crate::convert_headers::bin_header_matches(
            bytes@.subrange(
                spec_start_shift(bytes@) + TEXT_HEADER_LEN,
                spec_start_shift(bytes@) + TEXT_HEADER_LEN + BIN_HEADER_LEN,
            ),
            *settings,
            h,
        )),
{
    let label = match has_label(bytes) {
        Ok(l) => l,
        Err(e) => {
            return Err(e);
        },
    };
    let start: usize = if label {
        TAPE_LABEL_LEN + TEXT_HEADER_LEN
    } else {
        TEXT_HEADER_LEN
    };
    if bytes.len() < start + BIN_HEADER_LEN {
        return Err(RsgError::SEGYTooShort);
    }
    let region = slice_subrange(bytes, start, start + BIN_HEADER_LEN);
    BinHeader::from_bytes(region, settings)
}

/// Reads the extended text headers, of which the binary header declares
/// the count: one string per declared 3200-byte region, each decoded
/// like the text header. Fails when the buffer cannot hold that many.
pub fn get_extended_text_headers(bytes: &[u8], count: u32) -> (r: Result<Vec<String>, RsgError>)
    ensures
        count == 0 ==> (r matches Ok(v) && v@.len() == 0),
        count > 0 && bytes@.len() <= TAPE_LABEL_LEN ==> (r matches Err(e) && e
            == RsgError::FileTooShort),
        count > 0 && bytes@.len() > TAPE_LABEL_LEN && spec_start_shift(bytes@) + TEXT_HEADER_LEN
            + BIN_HEADER_LEN + count * TEXT_HEADER_LEN > bytes@.len() ==> (r matches Err(e) && e
            == RsgError::SEGYTooShort),
        count > 0 && bytes@.len() > TAPE_LABEL_LEN && spec_start_shift(bytes@) + TEXT_HEADER_LEN
            + BIN_HEADER_LEN + count * TEXT_HEADER_LEN <= bytes@.len() ==> (r matches Ok(v)
            && v@.len() == count && (forall|k: int|
            0 <= k < count ==> (#[trigger] v@[k])@ == lossy_chars(
                spec_header_text_bytes(
                    bytes@.subrange(
                        spec_start_shift(bytes@) + TEXT_HEADER_LEN + BIN_HEADER_LEN + k
                            * TEXT_HEADER_LEN,
                        spec_start_shift(bytes@) + TEXT_HEADER_LEN + BIN_HEADER_LEN + (k + 1)
                            * TEXT_HEADER_LEN,
                    ),
                ),
            ))),
        r matches Ok(v) ==> v@.len() == count,
{
    if count == 0 {
        return Ok(Vec::new());
    }
    let label = match has_label(bytes) {
        Ok(l) => l,
        Err(e) => {
            return Err(e);
        },
    };
    let start: usize = if label {
        TAPE_LABEL_LEN + TEXT_HEADER_LEN + BIN_HEADER_LEN
    } else {
        TEXT_HEADER_LEN + BIN_HEADER_LEN
    };
    let count = count as usize;
    let n = bytes.len();
    let total: u64 = (count as u64) * (TEXT_HEADER_LEN as u64);
    if (n as u64) < (start as u64) + total {
        return Err(RsgError::SEGYTooShort);
    }
    let mut extra_headers: Vec<String> = Vec::new();
    let mut i: usize = 0;
    while i < count
        invariant
            n == bytes@.len(),
            extra_headers@.len() == i,
            0 <= i <= count,
            start == spec_start_shift(bytes@) + TEXT_HEADER_LEN + BIN_HEADER_LEN,
            start + count * TEXT_HEADER_LEN <= n,
            forall|k: int|
                0 <= k < i ==> (#[trigger] extra_headers@[k])@ == lossy_chars(
                    spec_header_text_bytes(
                        bytes@.subrange(
                            start + k * TEXT_HEADER_LEN,
                            start + (k + 1) * TEXT_HEADER_LEN,
                        ),
                    ),
                ),
        decreases count - i,
    {
        proof {
            vstd::arithmetic::mul::lemma_mul_inequality(
                i as int + 1,
                count as int,
                TEXT_HEADER_LEN as int,
            );
            vstd::arithmetic::mul::lemma_mul_is_distributive_add_other_way(
                TEXT_HEADER_LEN as int,
                i as int,
                1,
            );
        }
        let hs = start + i * TEXT_HEADER_LEN;
        let region = slice_subrange(bytes, hs, hs + TEXT_HEADER_LEN);
        let header_bytes = convert_bytes_to_ascii(region);
        extra_headers.push(utf8_lossy(header_bytes.as_slice()));
        i += 1;
    }
    Ok(extra_headers)
}

/// The byte length of `count` data of `datum_size` bytes each.
fn datum_total(datum_size: usize, count: usize) -> (r: usize)
    requires
        datum_size <= 8,
        count <= 65535,
    ensures
        r == datum_size * count,
        r <= 524280,
{
    proof {
        vstd::arithmetic::mul::lemma_mul_inequality(datum_size as int, 8, count as int);
        vstd::arithmetic::mul::lemma_mul_inequality(count as int, 65535, 8);
        vstd::arithmetic::mul::lemma_mul_is_commutative(8, count as int);
    }
    datum_size * count
}

/// Whether the settings allow the trace scan: the byte indices leave
/// room for their fields, a configured inline dimension is positive, a
/// depth override fits the 16-bit sample count, and the stride is
/// usable.
pub open spec fn spec_scan_settings_ok(s: SegySettings) -> bool {
    &&& s.wf()
    &&& match s.override_dim_x {
        Some(x) => x > 0,
        None => true,
    }
    &&& match s.override_dim_z {
        Some(z) => 0 <= z <= u16::MAX,
        None => true,
    }
}


/// The byte the first trace block starts at: after the optional label,
/// the text header, the binary header and the declared extended text
/// headers.
pub open spec fn spec_traces_start(bytes: Seq<u8>, ext: int) -> int {
    spec_start_shift(bytes) + TEXT_HEADER_LEN * (ext + 1) + BIN_HEADER_LEN
}

/// A trace header after the depth override: the declared sample count
/// replaced when a z-dimension is configured.
pub open spec fn spec_adjusted(h: TraceHeader, s: SegySettings) -> TraceHeader {
    match s.override_dim_z {
        Some(z) => TraceHeader { no_samples_in_trace: z as u16, ..h },
        None => h,
    }
}

/// The header a 240-byte region decodes to: by the uniqueness law, at
/// most one header matches a region, so this picks it.
pub open spec fn spec_the_header(sub: Seq<u8>, s: SegySettings, le: bool, i: usize) -> TraceHeader {
    choose|h: TraceHeader| trace_header_matches(sub, s, le, i, h)
}

/// The data byte length the depth override leaves a trace with.
pub open spec fn spec_fixed_apparent(datum: int, no_samples: int, s: SegySettings) -> int {
    match s.override_dim_z {
        Some(z) => if z < no_samples {
            datum * z
        } else {
            datum * no_samples
        },
        None => datum * no_samples,
    }
}

/// The traces the fixed-length regime yields from `cursor` on: the
/// buffer is cut in blocks of `block` bytes; each block's header region
/// decodes to a trace whose data begins after the header and spans the
/// apparent length; a block whose header does not decode ends the walk,
/// as do the end of the buffer and the grid cap; out-of-bounds traces
/// are dropped but still count a block.
pub open spec fn spec_fixed_traces(
    bytes: Seq<u8>,
    s: SegySettings,
    le: bool,
    block: int,
    apparent: int,
    cursor: int,
    i: int,
    max: int,
) -> Seq<Trace>
    decreases bytes.len() - cursor,
    when block >= 1 && cursor >= 0
{
    if i >= max || bytes.len() - cursor < block {
        Seq::<Trace>::empty()
    } else {
        let sub = bytes.subrange(cursor, cursor + TRACE_HEADER_LEN);
        if !trace_header_parses(sub, s, le) {
            Seq::<Trace>::empty()
        } else {
            let h = spec_adjusted(spec_the_header(sub, s, le, i as usize), s);
            let rest = spec_fixed_traces(bytes, s, le, block, apparent, cursor + block, i + 1, max);
            if s.spec_trace_in_bounds(h.inline_no, h.crossline_no) {
                seq![
                    Trace {
                        trace_header: h,
                        trace_start_byte: (cursor + TRACE_HEADER_LEN) as usize,
                        trace_byte_len: apparent as usize,
                    },
                ] + rest
            } else {
                rest
            }
        }
    }
}

/// The traces the variable-length regime yields from `cursor` on, or
/// nothing when some record's self-declared data runs past the buffer:
/// each trace's length comes from its own declared sample count, a
/// header that does not decode ends the walk, and out-of-bounds traces
/// are dropped but still advance the cursor.
pub open spec fn spec_variable_traces(
    bytes: Seq<u8>,
    s: SegySettings,
    le: bool,
    datum: int,
    max_len: Option<int>,
    cursor: int,
    i: int,
    max: int,
) -> Option<Seq<Trace>>
    decreases bytes.len() - cursor,
    when datum >= 1 && cursor >= 0
    via spec_variable_traces_decreases
{
    if i >= max || bytes.len() - cursor < TRACE_HEADER_LEN {
        Some(Seq::<Trace>::empty())
    } else {
        let sub = bytes.subrange(cursor, cursor + TRACE_HEADER_LEN);
        if !trace_header_parses(sub, s, le) {
            Some(Seq::<Trace>::empty())
        } else {
            let h0 = spec_the_header(sub, s, le, i as usize);
            let tbl = datum * h0.no_samples_in_trace;
            if bytes.len() - cursor - TRACE_HEADER_LEN < tbl {
                None
            } else {
                let h = spec_adjusted(h0, s);
                let apparent = match max_len {
                    Some(l) => if l < h0.no_samples_in_trace {
                        datum * l
                    } else {
                        tbl
                    },
                    None => tbl,
                };
                match spec_variable_traces(
                    bytes,
                    s,
                    le,
                    datum,
                    max_len,
                    cursor + TRACE_HEADER_LEN + tbl,
                    i + 1,
                    max,
                ) {
                    None => None,
                    Some(rest) => Some(
                        if s.spec_trace_in_bounds(h.inline_no, h.crossline_no) {
                            seq![
                                Trace {
                                    trace_header: h,
                                    trace_start_byte: (cursor + TRACE_HEADER_LEN) as usize,
                                    trace_byte_len: apparent as usize,
                                },
                            ] + rest
                        } else {
                            rest
                        },
                    ),
                }
            }
        }
    }
}

#[via_fn]
proof fn spec_variable_traces_decreases(
    bytes: Seq<u8>,
    s: SegySettings,
    le: bool,
    datum: int,
    max_len: Option<int>,
    cursor: int,
    i: int,
    max: int,
) {
    if !(i >= max || bytes.len() - cursor < TRACE_HEADER_LEN) {
        let sub = bytes.subrange(cursor, cursor + TRACE_HEADER_LEN);
        if trace_header_parses(sub, s, le) {
            let h0 = spec_the_header(sub, s, le, i as usize);
            vstd::arithmetic::mul::lemma_mul_inequality(
                0,
                h0.no_samples_in_trace as int,
                datum,
            );
            vstd::arithmetic::mul::lemma_mul_is_commutative(h0.no_samples_in_trace as int, datum);
        }
    }
}


/// Law (write-then-scan): a 240-byte region that matches a trace header
/// under the settings decodes, and the header the scan takes from it is
/// exactly that header. Together with the encoder's guarantee that its
/// output matches the header it was given, a written trace block scans
/// back to the written header.
pub proof fn lemma_scan_recovers_written_header(
    sub: Seq<u8>,
    s: SegySettings,
    le: bool,
    i: usize,
    h: TraceHeader,
)
    requires
        sub.len() == TRACE_HEADER_LEN,
        crate::settings::SegySettings::spec_coordinate_format_is_4_byte(
            crate::convert_headers::spec_trace_coord_fmt(s),
        ),
        trace_header_matches(sub, s, le, i, h),
    ensures
        trace_header_parses(sub, s, le),
        spec_the_header(sub, s, le, i) == h,
{
    reveal(crate::convert_headers::trace_header_parses);
    reveal(crate::convert_headers::trace_header_matches_c);
    reveal(crate::convert_headers::trace_header_matches_d);
    assert(trace_header_matches(sub, s, le, i, spec_the_header(sub, s, le, i))) by {
        assert(exists|h2: TraceHeader| trace_header_matches(sub, s, le, i, h2));
    }
    lemma_trace_header_matches_unique(sub, s, le, i, h, spec_the_header(sub, s, le, i));
}

/// The depth override as the sample cap the scan applies per trace.
pub open spec fn spec_scan_max_len(s: SegySettings) -> Option<int> {
    match s.override_dim_z {
        Some(z) => Some(z as int),
        None => None,
    }
}

/// Scans the buffer for its traces, starting after the headers: the
/// central read-path walk. In fixed-length mode the buffer is cut in
/// blocks of the file-wide record size; a header that fails to decode
/// after the first block ends the scan quietly, tolerating trailing
/// foreign bytes. In variable-length mode each trace declares its own
/// length, so a record running past the buffer is corruption and fails;
/// a header that fails to decode ends the scan quietly. Traces outside
/// the configured bounds are dropped but still advance the walk, and a
/// configured grid caps how many traces are taken. Every returned trace
/// passes the bounds filter and its data range lies inside the buffer.
pub fn get_metadata_for_traces(
    bytes: &[u8],
    bin_header: &mut BinHeader,
    extended_header_count: usize,
    settings: &SegySettings,
) -> (r: Result<Vec<Trace>, RsgError>)
    requires
        spec_scan_settings_ok(*settings),
    ensures
        match r {
            Ok(traces) => (forall|j: int|
                0 <= j < traces@.len() ==> settings.spec_trace_in_bounds(
                    (#[trigger] traces@[j]).trace_header.inline_no,
                    traces@[j].trace_header.crossline_no,
                ) && traces@[j].trace_start_byte + traces@[j].trace_byte_len <= bytes@.len())
                && traces@.len() <= settings.spec_max_trace_count() && (
            match settings.override_dim_z {
                Some(z) => *final(bin_header) == (BinHeader {
                    no_samples: z as u16,
                    fixed_length_trace_flag: crate::enums::FixedLengthTraces::Yes,
                    ..*old(bin_header)
                }),
                None => *final(bin_header) == *old(bin_header),
            }),
            Err(_) => *final(bin_header) == *old(bin_header),
        },
        bytes@.len() <= TAPE_LABEL_LEN ==> (r matches Err(e) && e == RsgError::FileTooShort),
        bytes@.len() > TAPE_LABEL_LEN && spec_traces_start(bytes@, extended_header_count as int)
            > bytes@.len() ==> (r matches Err(e) && e == RsgError::SEGYTooShort),
        bytes@.len() > TAPE_LABEL_LEN && spec_traces_start(bytes@, extended_header_count as int)
            <= bytes@.len() ==> ({
            let le = old(bin_header).binary_flag_direction_is_le;
            let datum = old(bin_header).sample_format_code.spec_datum_byte_length() as int;
            let start = spec_traces_start(bytes@, extended_header_count as int);
            let max = settings.spec_max_trace_count() as int;
            if old(bin_header).fixed_length_trace_flag is Yes {
                let block = datum * old(bin_header).no_samples + TRACE_HEADER_LEN;
                let apparent = spec_fixed_apparent(
                    datum,
                    old(bin_header).no_samples as int,
                    *settings,
                );
                let first_fails = max > 0 && bytes@.len() - start >= block
                    && !trace_header_parses(
                    bytes@.subrange(start, start + TRACE_HEADER_LEN),
                    *settings,
                    le,
                );
                &&& (first_fails ==> (r matches Err(e) && (e matches RsgError::BitConversionError {
                    ..
                } || e matches RsgError::FloatConversion { .. })))
                &&& (!first_fails ==> (r matches Ok(traces) && traces@ == spec_fixed_traces(
                    bytes@,
                    *settings,
                    le,
                    block,
                    apparent,
                    start,
                    0,
                    max,
                )))
            } else {
                match spec_variable_traces(
                    bytes@,
                    *settings,
                    le,
                    datum,
                    spec_scan_max_len(*settings),
                    start,
                    0,
                    max,
                ) {
                    None => (r matches Err(e) && e == RsgError::IncompleteTrace),
                    Some(ts) => (r matches Ok(traces) && traces@ == ts),
                }
            }
        }),
{
    let n = bytes.len();
    let label = match has_label(bytes) {
        Ok(l) => l,
        Err(e) => {
            return Err(e);
        },
    };
    let datum_size = bin_header.sample_format_code.datum_byte_length();
    let shift: u128 = if label {
        TAPE_LABEL_LEN as u128
    } else {
        0
    };
    let start_u128: u128 = (TEXT_HEADER_LEN as u128) * ((extended_header_count as u128) + 1) + (
    BIN_HEADER_LEN as u128) + shift;
    if start_u128 > n as u128 {
        return Err(RsgError::SEGYTooShort);
    }
    let start_byte = start_u128 as usize;
    let max_trace_length = settings.get_max_trace_length_by_override_dimensions();
    let max_trace_count = settings.get_max_trace_count_by_override_dimensions();
    let mut traces: Vec<Trace> = Vec::new();
    let mut scan_error: Option<RsgError> = None;
    let ghost le = bin_header.binary_flag_direction_is_le;
    let ghost s = *settings;
    let ghost max_g = max_trace_count as int;
    proof {
        assert(start_byte as int == spec_traces_start(bytes@, extended_header_count as int));
    }
    if bin_header.fixed_length_trace_flag.yes() {
        let trace_byte_length = datum_total(datum_size, bin_header.no_samples as usize);
        let block_byte_length = trace_byte_length + TRACE_HEADER_LEN;
        let trace_apparent_byte_length = match max_trace_length {
            Some(l) => {
                if l < bin_header.no_samples as usize {
                    proof {
                        vstd::arithmetic::mul::lemma_mul_inequality(
                            l as int,
                            bin_header.no_samples as int,
                            datum_size as int,
                        );
                        vstd::arithmetic::mul::lemma_mul_is_commutative(
                            l as int,
                            datum_size as int,
                        );
                        vstd::arithmetic::mul::lemma_mul_is_commutative(
                            bin_header.no_samples as int,
                            datum_size as int,
                        );
                    }
                    datum_total(datum_size, l)
                } else {
                    trace_byte_length
                }
            },
            None => trace_byte_length,
        };
        let ghost block_g = block_byte_length as int;
        let ghost apparent_g = trace_apparent_byte_length as int;
        let ghost full = spec_fixed_traces(
            bytes@,
            s,
            le,
            block_g,
            apparent_g,
            start_byte as int,
            0,
            max_g,
        );
        proof {
            assert(apparent_g == spec_fixed_apparent(
                bin_header.sample_format_code.spec_datum_byte_length() as int,
                bin_header.no_samples as int,
                s,
            ));
        }
        let mut cursor: usize = start_byte;
        let mut i: usize = 0;
        loop
            invariant_except_break
                scan_error is None,
            invariant
                n == bytes@.len(),
                s == *settings,
                le == bin_header.binary_flag_direction_is_le,
                max_trace_count == settings.spec_max_trace_count(),
                max_g == max_trace_count as int,
                block_g == block_byte_length as int,
                apparent_g == trace_apparent_byte_length as int,
                full == spec_fixed_traces(
                    bytes@,
                    s,
                    le,
                    block_g,
                    apparent_g,
                    start_byte as int,
                    0,
                    max_g,
                ),
                start_byte <= cursor <= n,
                block_byte_length == trace_byte_length + TRACE_HEADER_LEN,
                trace_apparent_byte_length <= trace_byte_length,
                traces@.len() <= i,
                i <= max_trace_count,
                i == 0 ==> cursor == start_byte,
                i > 0 ==> trace_header_parses(
                    bytes@.subrange(start_byte as int, start_byte + TRACE_HEADER_LEN),
                    s,
                    le,
                ),
                spec_scan_settings_ok(*settings),
                full == traces@ + spec_fixed_traces(
                    bytes@,
                    s,
                    le,
                    block_g,
                    apparent_g,
                    cursor as int,
                    i as int,
                    max_g,
                ),
                forall|j: int|
                    0 <= j < traces@.len() ==> settings.spec_trace_in_bounds(
                        (#[trigger] traces@[j]).trace_header.inline_no,
                        traces@[j].trace_header.crossline_no,
                    ) && traces@[j].trace_start_byte + traces@[j].trace_byte_len <= n,
            ensures
                n == bytes@.len(),
                traces@.len() <= max_trace_count == settings.spec_max_trace_count(),
                forall|j: int|
                    0 <= j < traces@.len() ==> settings.spec_trace_in_bounds(
                        (#[trigger] traces@[j]).trace_header.inline_no,
                        traces@[j].trace_header.crossline_no,
                    ) && traces@[j].trace_start_byte + traces@[j].trace_byte_len <= n,
                match scan_error {
                    Some(e) => max_g > 0 && n - start_byte >= block_g && !trace_header_parses(
                        bytes@.subrange(start_byte as int, start_byte + TRACE_HEADER_LEN),
                        s,
                        le,
                    ) && (e matches RsgError::BitConversionError { .. }
                        || e matches RsgError::FloatConversion { .. }),
                    None => full == traces@ && !(max_g > 0 && n - start_byte >= block_g
                        && !trace_header_parses(
                        bytes@.subrange(start_byte as int, start_byte + TRACE_HEADER_LEN),
                        s,
                        le,
                    )),
                },
            decreases n - cursor + max_trace_count - i,
        {
            if !(i < max_trace_count && n - cursor >= block_byte_length) {
                proof {
                    assert(spec_fixed_traces(
                        bytes@,
                        s,
                        le,
                        block_g,
                        apparent_g,
                        cursor as int,
                        i as int,
                        max_g,
                    ) =~= Seq::<Trace>::empty());
                    assert(traces@ + Seq::<Trace>::empty() =~= traces@);
                }
                break ;
            }
            let header_region = slice_subrange(bytes, cursor, cursor + TRACE_HEADER_LEN);
            let ghost sub = bytes@.subrange(cursor as int, cursor + TRACE_HEADER_LEN);
            match TraceHeader::from_bytes(header_region, bin_header, settings, i) {
                Ok(mut t) => {
                    let ghost t0 = t;
                    proof {
                        assert(trace_header_parses(sub, s, le));
                        assert(trace_header_matches(sub, s, le, i, t0));
                        let hsel = spec_the_header(sub, s, le, i);
                        assert(trace_header_matches(sub, s, le, i, hsel)) by {
                            assert(exists|h: TraceHeader| trace_header_matches(sub, s, le, i, h));
                        }
                        lemma_trace_header_matches_unique(sub, s, le, i, t0, hsel);
                    }
                    t.adjust_sample_count(settings);
                    proof {
                        assert(t == spec_adjusted(t0, s));
                    }
                    let ghost before_rest = spec_fixed_traces(
                        bytes@,
                        s,
                        le,
                        block_g,
                        apparent_g,
                        cursor + block_byte_length,
                        i + 1,
                        max_g,
                    );
                    if settings.trace_in_bounds(t.inline_no, t.crossline_no) {
                        let trace = Trace::new(
                            t,
                            cursor + TRACE_HEADER_LEN,
                            trace_apparent_byte_length,
                        );
                        let ghost traces0 = traces@;
                        traces.push(trace);
                        proof {
                            assert(spec_fixed_traces(
                                bytes@,
                                s,
                                le,
                                block_g,
                                apparent_g,
                                cursor as int,
                                i as int,
                                max_g,
                            ) == seq![trace] + before_rest);
                            assert(traces0 + (seq![trace] + before_rest) =~= traces@
                                + before_rest);
                            assert forall|j: int| 0 <= j < traces@.len() implies
                                settings.spec_trace_in_bounds(
                                    (#[trigger] traces@[j]).trace_header.inline_no,
                                    traces@[j].trace_header.crossline_no,
                                ) && traces@[j].trace_start_byte + traces@[j].trace_byte_len
                                <= n by {
                                if j < traces0.len() {
                                    assert(traces@[j] == traces0[j]);
                                } else {
                                    assert(traces@[j] == trace);
                                }
                            }
                        }
                    } else {
                        proof {
                            assert(spec_fixed_traces(
                                bytes@,
                                s,
                                le,
                                block_g,
                                apparent_g,
                                cursor as int,
                                i as int,
                                max_g,
                            ) == before_rest);
                        }
                    }
                },
                Err(e) => {
                    proof {
                        assert(!trace_header_parses(sub, s, le));
                        if i > 0 {
                            assert(spec_fixed_traces(
                                bytes@,
                                s,
                                le,
                                block_g,
                                apparent_g,
                                cursor as int,
                                i as int,
                                max_g,
                            ) =~= Seq::<Trace>::empty());
                            assert(traces@ + Seq::<Trace>::empty() =~= traces@);
                        }
                    }
                    if i == 0 {
                        scan_error = Some(e);
                    }
                    break ;
                },
            }
            cursor = cursor + block_byte_length;
            i = i + 1;
        }
        match scan_error {
            Some(e) => Err(e),
            None => {
                bin_header.adjust_sample_count(settings);
                Ok(traces)
            },
        }
    } else {
        let ghost datum_g = datum_size as int;
        let ghost maxlen_g = spec_scan_max_len(s);
        let ghost full = spec_variable_traces(
            bytes@,
            s,
            le,
            datum_g,
            maxlen_g,
            start_byte as int,
            0,
            max_g,
        );
        proof {
            assert(match (max_trace_length, maxlen_g) {
                (Some(l), Some(lg)) => l as int == lg,
                (None, None) => true,
                _ => false,
            });
        }
        let mut cursor: usize = start_byte;
        let mut i: usize = 0;
        loop
            invariant_except_break
                scan_error is None,
            invariant
                n == bytes@.len(),
                s == *settings,
                le == bin_header.binary_flag_direction_is_le,
                1 <= datum_size <= 8,
                datum_g == datum_size as int,
                maxlen_g == spec_scan_max_len(s),
                match (max_trace_length, maxlen_g) {
                    (Some(l), Some(lg)) => l as int == lg && l <= 65535,
                    (None, None) => true,
                    _ => false,
                },
                max_trace_count == settings.spec_max_trace_count(),
                max_g == max_trace_count as int,
                full == spec_variable_traces(
                    bytes@,
                    s,
                    le,
                    datum_g,
                    maxlen_g,
                    start_byte as int,
                    0,
                    max_g,
                ),
                start_byte <= cursor <= n,
                traces@.len() <= i,
                i <= max_trace_count,
                spec_scan_settings_ok(*settings),
                full == (match spec_variable_traces(
                    bytes@,
                    s,
                    le,
                    datum_g,
                    maxlen_g,
                    cursor as int,
                    i as int,
                    max_g,
                ) {
                    None => None,
                    Some(rest) => Some(traces@ + rest),
                }),
                forall|j: int|
                    0 <= j < traces@.len() ==> settings.spec_trace_in_bounds(
                        (#[trigger] traces@[j]).trace_header.inline_no,
                        traces@[j].trace_header.crossline_no,
                    ) && traces@[j].trace_start_byte + traces@[j].trace_byte_len <= n,
            ensures
                n == bytes@.len(),
                traces@.len() <= max_trace_count == settings.spec_max_trace_count(),
                forall|j: int|
                    0 <= j < traces@.len() ==> settings.spec_trace_in_bounds(
                        (#[trigger] traces@[j]).trace_header.inline_no,
                        traces@[j].trace_header.crossline_no,
                    ) && traces@[j].trace_start_byte + traces@[j].trace_byte_len <= n,
                match scan_error {
                    Some(e) => e == RsgError::IncompleteTrace && full is None,
                    None => full == Some(traces@),
                },
            decreases n - cursor + max_trace_count - i,
        {
            if !(i < max_trace_count && n - cursor >= TRACE_HEADER_LEN) {
                proof {
                    assert(spec_variable_traces(
                        bytes@,
                        s,
                        le,
                        datum_g,
                        maxlen_g,
                        cursor as int,
                        i as int,
                        max_g,
                    ) == Some(Seq::<Trace>::empty()));
                    assert(traces@ + Seq::<Trace>::empty() =~= traces@);
                }
                break ;
            }
            let header_region = slice_subrange(bytes, cursor, cursor + TRACE_HEADER_LEN);
            let ghost sub = bytes@.subrange(cursor as int, cursor + TRACE_HEADER_LEN);
            match TraceHeader::from_bytes(header_region, bin_header, settings, i) {
                Ok(mut t) => {
                    let ghost t0 = t;
                    proof {
                        assert(trace_header_parses(sub, s, le));
                        assert(trace_header_matches(sub, s, le, i, t0));
                        let hsel = spec_the_header(sub, s, le, i);
                        assert(trace_header_matches(sub, s, le, i, hsel)) by {
                            assert(exists|h: TraceHeader| trace_header_matches(sub, s, le, i, h));
                        }
                        lemma_trace_header_matches_unique(sub, s, le, i, t0, hsel);
                    }
                    let trace_byte_length = datum_total(datum_size, t.no_samples_in_trace as usize);
                    let declared_samples = t.no_samples_in_trace as usize;
                    t.adjust_sample_count(settings);
                    proof {
                        assert(t == spec_adjusted(t0, s));
                    }
                    if n - cursor - TRACE_HEADER_LEN < trace_byte_length {
                        proof {
                            assert(spec_variable_traces(
                                bytes@,
                                s,
                                le,
                                datum_g,
                                maxlen_g,
                                cursor as int,
                                i as int,
                                max_g,
                            ) is None);
                        }
                        scan_error = Some(RsgError::IncompleteTrace);
                        break ;
                    }
                    let ghost before_rest = spec_variable_traces(
                        bytes@,
                        s,
                        le,
                        datum_g,
                        maxlen_g,
                        cursor + TRACE_HEADER_LEN + trace_byte_length,
                        i + 1,
                        max_g,
                    );
                    if settings.trace_in_bounds(t.inline_no, t.crossline_no) {
                        let trace_apparent_byte_length = match max_trace_length {
                            Some(l) => {
                                if l < declared_samples {
                                    proof {
                                        vstd::arithmetic::mul::lemma_mul_inequality(
                                            l as int,
                                            declared_samples as int,
                                            datum_size as int,
                                        );
                                        vstd::arithmetic::mul::lemma_mul_is_commutative(
                                            l as int,
                                            datum_size as int,
                                        );
                                        vstd::arithmetic::mul::lemma_mul_is_commutative(
                                            declared_samples as int,
                                            datum_size as int,
                                        );
                                    }
                                    datum_total(datum_size, l)
                                } else {
                                    trace_byte_length
                                }
                            },
                            None => trace_byte_length,
                        };
                        let trace = Trace::new(
                            t,
                            cursor + TRACE_HEADER_LEN,
                            trace_apparent_byte_length,
                        );
                        let ghost traces0 = traces@;
                        traces.push(trace);
                        proof {
                            assert(spec_variable_traces(
                                bytes@,
                                s,
                                le,
                                datum_g,
                                maxlen_g,
                                cursor as int,
                                i as int,
                                max_g,
                            ) == (match before_rest {
                                None => None,
                                Some(rest) => Some(seq![trace] + rest),
                            }));
                            if before_rest is Some {
                                assert(traces0 + (seq![trace] + before_rest.unwrap())
                                    =~= traces@ + before_rest.unwrap());
                            }
                            assert forall|j: int| 0 <= j < traces@.len() implies
                                settings.spec_trace_in_bounds(
                                    (#[trigger] traces@[j]).trace_header.inline_no,
                                    traces@[j].trace_header.crossline_no,
                                ) && traces@[j].trace_start_byte + traces@[j].trace_byte_len
                                <= n by {
                                if j < traces0.len() {
                                    assert(traces@[j] == traces0[j]);
                                } else {
                                    assert(traces@[j] == trace);
                                }
                            }
                        }
                    } else {
                        proof {
                            assert(spec_variable_traces(
                                bytes@,
                                s,
                                le,
                                datum_g,
                                maxlen_g,
                                cursor as int,
                                i as int,
                                max_g,
                            ) == before_rest);
                        }
                    }
                    cursor = cursor + TRACE_HEADER_LEN + trace_byte_length;
                    i = i + 1;
                },
                Err(_) => {
                    proof {
                        assert(!trace_header_parses(sub, s, le));
                        assert(spec_variable_traces(
                            bytes@,
                            s,
                            le,
                            datum_g,
                            maxlen_g,
                            cursor as int,
                            i as int,
                            max_g,
                        ) == Some(Seq::<Trace>::empty()));
                        assert(traces@ + Seq::<Trace>::empty() =~= traces@);
                    }
                    break ;
                },
            }
        }
        match scan_error {
            Some(e) => Err(e),
            None => {
                bin_header.adjust_sample_count(settings);
                Ok(traces)
            },
        }
    }
}

} // verus!
