//! The sequential writer: a session that accumulates trace bookkeeping
//! and produces the exact byte blocks to append to a new file, enforcing
//! the data-shape invariants before any byte is produced.
//!
//! The session holds no file handle: creating it yields the leading
//! header bytes, and every appended trace yields its own block, so the
//! caller appends each block to its sink in order.

use crate::bitconverter::SampleValue;
use crate::convert_headers::{
    bin_header_matches, spec_bin_header_parses, spec_trace_coord_fmt, trace_header_matches,
};
use crate::errors::RsgError;
use crate::header_structs::{BinHeader, TapeLabel, TraceHeader};
use crate::settings::SegySettings;
use crate::write_data::{convert_data, spec_convert_data, spec_is_lossless_to};
use crate::write_headers::{
    spec_bin_encodable, spec_roundtrip_settings, spec_th_coords_ok, spec_th_enums_ok,
    text_header_bytes, th_as_bytes_with_settings,
};
use crate::{SegyMetadata, Trace, BIN_HEADER_LEN, TAPE_LABEL_LEN, TEXT_HEADER_LEN, TRACE_HEADER_LEN};
use vstd::prelude::*;
use vstd::string::StringExecFns;
use vstd::string::StringSliceAdditionalSpecFns;

verus! {

/// The byte-offset bookkeeping of one written trace, relative to the
/// first trace of the file.
#[derive(Debug, Clone, Copy, PartialEq, Eq, Structural)]
pub struct TraceCoordinates {
    /// Position of the trace in the order it was added.
    pub idx: usize,
    /// First byte of the trace record, header included.
    pub start_byte: usize,
    /// First byte of the trace data.
    pub data_start_byte: usize,
    /// Length of the whole record: header, extended header and data.
    pub byte_len: usize,
}

impl TraceCoordinates {
    /// An entry from its parts.
    pub fn new(idx: usize, start: usize, ds: usize, overall_len: usize) -> (r: TraceCoordinates)
        ensures
            r == (TraceCoordinates {
                idx,
                start_byte: start,
                data_start_byte: ds,
                byte_len: overall_len,
            }),
    {
        TraceCoordinates { idx, start_byte: start, data_start_byte: ds, byte_len: overall_len }
    }
}

/// A write session: the metadata the file was created with, the record
/// of the traces written so far, and their byte-offset table keyed by
/// trace index. Single-writer and append-only; the caller owns the sink
/// the produced byte blocks go to.
pub struct SegyFile {
    /// The headers and settings the file was created with.
    pub metadata: SegyMetadata<SegySettings>,
    /// The traces written so far.
    pub traces: Vec<Trace>,
    /// The byte-offset table: the entry at an index describes the trace
    /// of that index.
    pub lookup: Vec<TraceCoordinates>,
    /// Bytes appended for traces so far.
    pub total_trace_bytes: usize,
}

impl SegyFile {
    /// The writer's bookkeeping invariant: one offset entry per trace,
    /// consecutive and gap-free from byte zero of the trace region.
    pub open spec fn wf(self) -> bool {
        &&& self.lookup@.len() == self.traces@.len()
        &&& forall|j: int| 0 <= j < self.lookup@.len() ==> (#[trigger] self.lookup@[j]).idx == j
        &&& forall|j: int|
            0 <= j < self.lookup@.len() ==> (#[trigger] self.lookup@[j]).start_byte + self.lookup@[j].byte_len <= self.total_trace_bytes
        &&& forall|j: int|
            0 < j < self.lookup@.len() ==> (#[trigger] self.lookup@[j]).start_byte == self.lookup@[
                j - 1].start_byte + self.lookup@[j - 1].byte_len
        &&& (self.lookup@.len() > 0 ==> self.lookup@[0].start_byte == 0 && self.lookup@[
            self.lookup@.len() - 1].start_byte + self.lookup@[self.lookup@.len() - 1].byte_len
            == self.total_trace_bytes)
        &&& (self.lookup@.len() == 0 ==> self.total_trace_bytes == 0)
    }

    /// Begins a new file: the session and the leading bytes, which are
    /// the optional 128-byte tape label, the 3200-byte space-padded text
    /// header and the 400-byte binary header, in that order. Fails when
    /// the text does not fit or the binary header holds an unwritable
    /// coded field.
    pub fn create(
        settings: SegySettings,
        text_header: String,
        bin_header: BinHeader,
        tape_label: Option<TapeLabel>,
    ) -> (r: Result<(SegyFile, Vec<u8>), RsgError>)
        ensures
            vstd::utf8::encode_utf8(text_header@).len() <= TEXT_HEADER_LEN && spec_bin_encodable(
                bin_header,
            ) ==> r is Ok,
            vstd::utf8::encode_utf8(text_header@).len() > TEXT_HEADER_LEN ==> (r matches Err(
                RsgError::InvalidHeader { .. },
            )),
            vstd::utf8::encode_utf8(text_header@).len() <= TEXT_HEADER_LEN && !spec_bin_encodable(
                bin_header,
            ) ==> (r matches Err(RsgError::InvalidHeader { .. })),
            r matches Ok((f, bytes)) ==> {
                let shift: int = if tape_label is Some {
                    TAPE_LABEL_LEN as int
                } else {
                    0
                };
                &&& f.metadata.settings == settings
                &&& f.metadata.text_header == text_header
                &&& f.metadata.bin_header == bin_header
                &&& f.metadata.tape_label == tape_label
                &&& f.metadata.extended_headers@.len() == 0
                &&& f.traces@.len() == 0
                &&& f.lookup@.len() == 0
                &&& f.total_trace_bytes == 0
                &&& f.wf()
                &&& bytes@.len() == shift + TEXT_HEADER_LEN + BIN_HEADER_LEN
                &&& spec_bin_header_parses(
                    bytes@.subrange(
                        shift + TEXT_HEADER_LEN,
                        shift + TEXT_HEADER_LEN + BIN_HEADER_LEN,
                    ),
                    SegySettings::spec_default(),
                )
                &&& bin_header_matches(
                    bytes@.subrange(
                        shift + TEXT_HEADER_LEN,
                        shift + TEXT_HEADER_LEN + BIN_HEADER_LEN,
                    ),
                    SegySettings::spec_default(),
                    bin_header,
                )
                &&& (tape_label matches Some(tl)
                    ==> crate::convert_headers::tape_label_matches(
                    bytes@.subrange(0, TAPE_LABEL_LEN as int),
                    tl,
                ))
                &&& bytes@.subrange(
                    shift,
                    shift + vstd::utf8::encode_utf8(text_header@).len(),
                ) == vstd::utf8::encode_utf8(text_header@)
                &&& (forall|i: int|
                    shift + vstd::utf8::encode_utf8(text_header@).len() <= i < shift
                        + TEXT_HEADER_LEN ==> #[trigger] bytes@[i] == 32)
            },
    {
        let mut out: Vec<u8> = Vec::new();
        let ghost mut label_view: Seq<u8> = Seq::empty();
        if let Some(ref tl) = tape_label {
            let mut label_bytes = match tl.as_bytes() {
                Ok(b) => b,
                Err(e) => {
                    return Err(e);
                },
            };
            proof {
                label_view = label_bytes@;
            }
            out.append(&mut label_bytes);
        }
        let ghost shift_g = out@.len() as int;
        let mut text_bytes = match text_header_bytes(text_header.as_str()) {
            Ok(b) => b,
            Err(e) => {
                return Err(e);
            },
        };
        let ghost text_view = text_bytes@;
        out.append(&mut text_bytes);
        let ghost before_bin = out@.len() as int;
        let mut bin_bytes = match bin_header.as_bytes() {
            Ok(b) => b,
            Err(e) => {
                return Err(e);
            },
        };
        let ghost bin_view = bin_bytes@;
        out.append(&mut bin_bytes);
        proof {
            assert(out@.subrange(before_bin, before_bin + BIN_HEADER_LEN) =~= bin_view);
            if tape_label is Some {
                assert(out@.subrange(0, TAPE_LABEL_LEN as int) =~= label_view);
            }
            let nb = vstd::utf8::encode_utf8(text_header@).len() as int;
            assert(out@.subrange(shift_g, shift_g + TEXT_HEADER_LEN) =~= text_view);
            assert(out@.subrange(shift_g, shift_g + nb) =~= text_view.subrange(0, nb));
            assert forall|i: int|
                shift_g + nb <= i < shift_g + TEXT_HEADER_LEN implies #[trigger] out@[i]
                == 32 by {
                assert(out@[i] == text_view[i - shift_g]);
            }
        }
        let file = SegyFile {
            metadata: SegyMetadata::new(
                tape_label,
                text_header,
                Vec::new(),
                bin_header,
                settings,
            ),
            traces: Vec::new(),
            lookup: Vec::new(),
            total_trace_bytes: 0,
        };
        Ok((file, out))
    }

    /// Appends one trace: checks the data shape, serialises the trace
    /// header under the settings, then the optional extended header text
    /// and the converted data, and returns the whole block while
    /// recording its byte offsets. The sample count must fit sixteen
    /// bits and must equal either the file-wide declared count or the
    /// trace's own, an intentional either-or: a trace may legitimately
    /// differ from the file-wide count in variable-length files.
    pub fn add_trace(
        &mut self,
        trace_header: TraceHeader,
        extended_header: Option<String>,
        data: Vec<SampleValue>,
    ) -> (r: Result<Vec<u8>, RsgError>)
        requires
            old(self).metadata.settings.wf(),
            old(self).wf(),
        ensures
            final(self).metadata == old(self).metadata,
            r is Err ==> *final(self) == *old(self),
            data@.len() > 65535 ==> (r matches Err(RsgError::LongDataVector { l_data }) && l_data
                == data@.len()),
            data@.len() <= 65535 && data@.len() != old(self).metadata.bin_header.no_samples
                && data@.len() != trace_header.no_samples_in_trace ==> (r matches Err(
                RsgError::BadDataVector { l_data, l_bin, l_trace },
            ) && l_data == data@.len() && l_bin == old(self).metadata.bin_header.no_samples
                && l_trace == trace_header.no_samples_in_trace),
            ({
                let s = old(self).metadata.settings;
                let format = old(self).metadata.bin_header.sample_format_code;
                let owed_ext_len: int = match extended_header {
                    Some(ref x) => vstd::utf8::encode_utf8(x@).len() as int,
                    None => 0,
                };
                let owed_data_bytes = spec_convert_data(
                    data@,
                    format,
                    old(self).metadata.bin_header.binary_flag_direction_is_le,
                );
                &&& data@.len() <= 65535
                &&& (data@.len() == old(self).metadata.bin_header.no_samples || data@.len()
                    == trace_header.no_samples_in_trace)
                &&& spec_th_enums_ok(trace_header)
                &&& (spec_trace_coord_fmt(s) is Int32 || spec_trace_coord_fmt(s) is UInt32
                    || spec_trace_coord_fmt(s) is Float32)
                &&& spec_th_coords_ok(trace_header, spec_trace_coord_fmt(s))
                &&& crate::bitconverter::spec_encode_supported(format)
                &&& owed_data_bytes is Some
                &&& owed_ext_len <= usize::MAX - TRACE_HEADER_LEN
                &&& old(self).total_trace_bytes + TRACE_HEADER_LEN + owed_ext_len
                    + owed_data_bytes.unwrap().len() <= usize::MAX
            }) ==> r is Ok,
            r matches Ok(block) ==> {
                let s = old(self).metadata.settings;
                let le = old(self).metadata.bin_header.binary_flag_direction_is_le;
                let ext_len: int = match extended_header {
                    Some(ref x) => vstd::utf8::encode_utf8(x@).len() as int,
                    None => 0,
                };
                let data_bytes = spec_convert_data(
                    data@,
                    old(self).metadata.bin_header.sample_format_code,
                    le,
                );
                &&& data_bytes is Some
                &&& block@.len() == TRACE_HEADER_LEN + ext_len + data_bytes.unwrap().len()
                &&& block@.subrange(TRACE_HEADER_LEN + ext_len, block@.len() as int)
                    == data_bytes.unwrap()
                &&& (spec_roundtrip_settings(s) ==> (forall|k: usize|
                    trace_header_matches(
                        block@.subrange(0, TRACE_HEADER_LEN as int),
                        s,
                        le,
                        k,
                        trace_header,
                    )))
                &&& final(self).traces@ == old(self).traces@.push(
                    Trace {
                        trace_header,
                        trace_start_byte: (old(self).total_trace_bytes + TRACE_HEADER_LEN
                            + ext_len) as usize,
                        trace_byte_len: data_bytes.unwrap().len() as usize,
                    },
                )
                &&& final(self).lookup@ == old(self).lookup@.push(
                    TraceCoordinates {
                        idx: old(self).traces@.len() as usize,
                        start_byte: old(self).total_trace_bytes,
                        data_start_byte: (old(self).total_trace_bytes + TRACE_HEADER_LEN
                            + ext_len) as usize,
                        byte_len: block@.len() as usize,
                    },
                )
                &&& final(self).total_trace_bytes == old(self).total_trace_bytes + block@.len()
                &&& final(self).wf()
            },
    {
        let data_len = data.len();
        let bin_sample_count = self.metadata.bin_header.no_samples;
        let th_sample_count = trace_header.no_samples_in_trace;
        if data_len > 65535 {
            return Err(RsgError::LongDataVector { l_data: data_len });
        }
        if (data_len as u16) != bin_sample_count && (data_len as u16) != th_sample_count {
            return Err(RsgError::BadDataVector {
                l_data: data_len as u16,
                l_bin: bin_sample_count,
                l_trace: th_sample_count,
            });
        }
        let mut block = match th_as_bytes_with_settings(
            &trace_header,
            &self.metadata.settings,
            &self.metadata.bin_header,
        ) {
            Ok(b) => b,
            Err(e) => {
                return Err(e);
            },
        };
        let ghost th_view = block@;
        let ext_len: usize = match &extended_header {
            Some(extra) => {
                let raw = extra.as_str().as_bytes();
                let mut ext_bytes = vstd::slice::slice_to_vec(raw);
                let l = ext_bytes.len();
                if l > usize::MAX - TRACE_HEADER_LEN {
                    return Err(RsgError::InvalidHeader {
                        msg: String::from_str("extended header does not fit in memory"),
                    });
                }
                block.append(&mut ext_bytes);
                l
            },
            None => 0,
        };
        let data_bytes = match convert_data(&data, &self.metadata.bin_header) {
            Ok(b) => b,
            Err(e) => {
                return Err(e);
            },
        };
        let data_byte_len = data_bytes.len();
        let ghost data_view = data_bytes@;
        if data_byte_len > usize::MAX - TRACE_HEADER_LEN - ext_len || self.total_trace_bytes
            > usize::MAX - TRACE_HEADER_LEN - ext_len - data_byte_len {
            return Err(RsgError::LongDataVector { l_data: data_byte_len });
        }
        let mut data_tail = data_bytes;
        block.append(&mut data_tail);
        proof {
            assert(block@.subrange(
                TRACE_HEADER_LEN + ext_len,
                block@.len() as int,
            ) =~= data_view);
            assert(block@.subrange(0, TRACE_HEADER_LEN as int) =~= th_view);
        }
        let idx = self.traces.len();
        let start = self.total_trace_bytes;
        let data_start = start + TRACE_HEADER_LEN + ext_len;
        let block_len = block.len();
        let new_coordinates = TraceCoordinates::new(idx, start, data_start, block_len);
        self.traces.push(Trace::new(trace_header, data_start, data_byte_len));
        self.lookup.push(new_coordinates);
        self.total_trace_bytes = start + block_len;
        proof {
            let l = self.lookup@;
            assert forall|j: int| 0 <= j < l.len() implies (#[trigger] l[j]).idx == j by {
                if j < l.len() - 1 {
                    assert(l[j] == old(self).lookup@[j]);
                }
            }
            assert forall|j: int|
                0 <= j < l.len() implies (#[trigger] l[j]).start_byte + l[j].byte_len
                <= self.total_trace_bytes by {
                if j < l.len() - 1 {
                    assert(l[j] == old(self).lookup@[j]);
                }
            }
            assert forall|j: int|
                0 < j < l.len() implies (#[trigger] l[j]).start_byte == l[j - 1].start_byte + l[j
                - 1].byte_len by {
                if j < l.len() - 1 {
                    assert(l[j] == old(self).lookup@[j]);
                    assert(l[j - 1] == old(self).lookup@[j - 1]);
                } else {
                    if j - 1 < l.len() - 1 && j >= 1 {
                        assert(l[j - 1] == old(self).lookup@[j - 1]);
                    }
                }
            }
        }
        Ok(block)
    }

    /// Appends one trace through the checked path: the data may only be
    /// written when its kind converts to the file's sample format with
    /// no loss at all; any other data fails before a byte is produced.
    pub fn add_trace_lossless(
        &mut self,
        trace_header: TraceHeader,
        extended_header: Option<String>,
        data: Vec<SampleValue>,
    ) -> (r: Result<Vec<u8>, RsgError>)
        requires
            old(self).metadata.settings.wf(),
            old(self).wf(),
        ensures
            final(self).metadata == old(self).metadata,
            r is Err ==> *final(self) == *old(self),
            (exists|i: int|
                0 <= i < data@.len() && !spec_is_lossless_to(
                    data@[i],
                    old(self).metadata.bin_header.sample_format_code,
                )) ==> (r matches Err(RsgError::BitConversionError { .. })),
            ({
                let s = old(self).metadata.settings;
                let format = old(self).metadata.bin_header.sample_format_code;
                let owed_ext_len: int = match extended_header {
                    Some(ref x) => vstd::utf8::encode_utf8(x@).len() as int,
                    None => 0,
                };
                let owed_data_bytes = spec_convert_data(
                    data@,
                    format,
                    old(self).metadata.bin_header.binary_flag_direction_is_le,
                );
                &&& data@.len() <= 65535
                &&& (data@.len() == old(self).metadata.bin_header.no_samples || data@.len()
                    == trace_header.no_samples_in_trace)
                &&& spec_th_enums_ok(trace_header)
                &&& (spec_trace_coord_fmt(s) is Int32 || spec_trace_coord_fmt(s) is UInt32
                    || spec_trace_coord_fmt(s) is Float32)
                &&& spec_th_coords_ok(trace_header, spec_trace_coord_fmt(s))
                &&& crate::bitconverter::spec_encode_supported(format)
                &&& (forall|i: int|
                    0 <= i < data@.len() ==> spec_is_lossless_to(#[trigger] data@[i], format))
                &&& owed_data_bytes is Some
                &&& owed_ext_len <= usize::MAX - TRACE_HEADER_LEN
                &&& old(self).total_trace_bytes + TRACE_HEADER_LEN + owed_ext_len
                    + owed_data_bytes.unwrap().len() <= usize::MAX
            }) ==> r is Ok,
            r matches Ok(block) ==> {
                let s = old(self).metadata.settings;
                let le = old(self).metadata.bin_header.binary_flag_direction_is_le;
                let ext_len: int = match extended_header {
                    Some(ref x) => vstd::utf8::encode_utf8(x@).len() as int,
                    None => 0,
                };
                let data_bytes = spec_convert_data(
                    data@,
                    old(self).metadata.bin_header.sample_format_code,
                    le,
                );
                &&& data_bytes is Some
                &&& block@.len() == TRACE_HEADER_LEN + ext_len + data_bytes.unwrap().len()
                &&& block@.subrange(TRACE_HEADER_LEN + ext_len, block@.len() as int)
                    == data_bytes.unwrap()
                &&& final(self).traces@ == old(self).traces@.push(
                    Trace {
                        trace_header,
                        trace_start_byte: (old(self).total_trace_bytes + TRACE_HEADER_LEN
                            + ext_len) as usize,
                        trace_byte_len: data_bytes.unwrap().len() as usize,
                    },
                )
                &&& final(self).total_trace_bytes == old(self).total_trace_bytes + block@.len()
                &&& final(self).wf()
            },
    {
        let n = data.len();
        let mut i: usize = 0;
        let (format, _) = crate::write_data::get_format_and_le(&self.metadata.bin_header);
        while i < n
            invariant
                n == data@.len(),
                0 <= i <= n,
                format == self.metadata.bin_header.sample_format_code,
                forall|j: int| 0 <= j < i ==> spec_is_lossless_to(#[trigger] data@[j], format),
            decreases n - i,
        {
            if !data[i].is_lossless_to(format) {
                return Err(RsgError::BitConversionError {
                    msg: String::from_str("data cannot be written losslessly in this format"),
                });
            }
            i += 1;
        }
        proof {
            assert forall|j: int|
                0 <= j < data@.len() implies crate::write_data::spec_encode_sample_is_some(
                #[trigger] data@[j],
                format,
                self.metadata.bin_header.binary_flag_direction_is_le,
            ) by {
                crate::write_data::lemma_lossless_encode_succeeds(
                    data@[j],
                    format,
                    self.metadata.bin_header.binary_flag_direction_is_le,
                );
            }
            crate::write_data::lemma_all_encodable_converts(
                data@,
                format,
                self.metadata.bin_header.binary_flag_direction_is_le,
            );
        }
        self.add_trace(trace_header, extended_header, data)
    }
}

} // verus!
