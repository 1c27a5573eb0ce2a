//! Reading and writing of SEG-Y, the binary container format for seismic
//! trace data: fixed-size binary headers, relocatable geometry fields, and
//! a per-format sample codec.

use vstd::prelude::*;

pub mod bitconverter;
pub mod bytes;
pub mod convert_headers;
pub mod create_headers;
pub mod enums;
pub mod errors;
pub mod fbits;
pub mod header_structs;
pub mod read_data;
pub mod scan;
pub mod settings;
pub mod text;
pub mod trace_table;
pub mod utils;
pub mod write_data;
pub mod write_file;
pub mod write_headers;

verus! {

/// Byte length of the optional leading tape label.
pub const TAPE_LABEL_LEN: usize = 128;
/// Byte length of the textual header.
pub const TEXT_HEADER_LEN: usize = 3200;
/// Byte length of the file-wide binary header.
pub const BIN_HEADER_LEN: usize = 400;
/// Byte length of each trace header.
pub const TRACE_HEADER_LEN: usize = 240;
/// Default byte index of the inline number in a trace header.
pub const INLINE_BYTE_LOCATION: usize = 188;
/// Default byte index of the crossline number in a trace header.
pub const CROSSLINE_BYTE_LOCATION: usize = 192;
/// Default byte index of the x ensemble (CDP) coordinate in a trace header.
pub const CDPX_BYTE_LOCATION: usize = 180;
/// Default byte index of the y ensemble (CDP) coordinate in a trace header.
pub const CDPY_BYTE_LOCATION: usize = 184;

/// One trace of a file: its parsed header and the byte range its sample
/// data occupies in the underlying buffer. The data itself is not owned;
/// it is resolved lazily through the range.
#[derive(Debug, Clone, PartialEq)]
pub struct Trace {
    /// The parsed trace header holding the trace metadata.
    pub trace_header: header_structs::TraceHeader,
    /// First byte of the trace data in the buffer.
    pub trace_start_byte: usize,
    /// Length of the trace data in bytes.
    pub trace_byte_len: usize,
}

impl Trace {
    /// A trace from its header and the location of its data.
    pub fn new(trace_header: header_structs::TraceHeader, data_start: usize, data_len: usize) -> (r:
        Trace)
        ensures
            r == (Trace {
                trace_header,
                trace_start_byte: data_start,
                trace_byte_len: data_len,
            }),
    {
        Trace { trace_header, trace_start_byte: data_start, trace_byte_len: data_len }
    }

    /// The trace header.
    pub fn get_header(&self) -> (r: &header_structs::TraceHeader)
        ensures
            r == &self.trace_header,
    {
        &self.trace_header
    }

    /// The first byte of the trace data.
    pub fn get_start(&self) -> (r: usize)
        ensures
            r == self.trace_start_byte,
    {
        self.trace_start_byte
    }

    /// The length of the trace data in bytes.
    pub fn len(&self) -> (r: usize)
        ensures
            r == self.trace_byte_len,
    {
        self.trace_byte_len
    }

    /// Whether the trace has no data.
    pub fn is_empty(&self) -> (r: bool)
        ensures
            r == (self.trace_byte_len == 0),
    {
        self.trace_byte_len == 0
    }
}

/// Everything read from a file before its traces: the optional tape
/// label, the text header, the extended text headers, the binary header
/// and the settings the file was opened or created with.
pub struct SegyMetadata<S> {
    pub tape_label: Option<header_structs::TapeLabel>,
    pub text_header: String,
    pub extended_headers: Vec<String>,
    pub bin_header: header_structs::BinHeader,
    pub settings: S,
}

impl<S> SegyMetadata<S> {
    /// Metadata from its parts.
    pub fn new(
        tape_label: Option<header_structs::TapeLabel>,
        text_header: String,
        extended_headers: Vec<String>,
        bin_header: header_structs::BinHeader,
        settings: S,
    ) -> (r: SegyMetadata<S>)
        ensures
            r.tape_label == tape_label,
            r.text_header == text_header,
            r.extended_headers == extended_headers,
            r.bin_header == bin_header,
            r.settings == settings,
    {
        SegyMetadata { tape_label, text_header, extended_headers, bin_header, settings }
    }

    /// The settings the file was opened with.
    pub fn get_settings(&self) -> (r: &S)
        ensures
            r == &self.settings,
    {
        &self.settings
    }

    /// The tape label, if the file had one.
    pub fn get_tape_label(&self) -> (r: &Option<header_structs::TapeLabel>)
        ensures
            r == &self.tape_label,
    {
        &self.tape_label
    }

    /// The text header.
    pub fn get_text_header(&self) -> (r: &str)
        ensures
            r@ == self.text_header@,
    {
        self.text_header.as_str()
    }

    /// The extended text headers.
    pub fn get_extended_headers(&self) -> (r: &[String])
        ensures
            r@ == self.extended_headers@,
    {
        self.extended_headers.as_slice()
    }

    /// The text header cut into its lines of eighty characters; a last
    /// partial line is kept.
    pub fn get_text_header_lines(&self) -> (r: Vec<String>)
        ensures
            r@.len() == (self.text_header@.len() + 79) / 80,
            forall|i: int|
                0 <= i < r@.len() ==> r@[i]@ == self.text_header@.subrange(
                    80 * i,
                    if 80 * i + 80 <= self.text_header@.len() {
                        80 * i + 80
                    } else {
                        self.text_header@.len() as int
                    },
                ),
    {
        let s = self.text_header.as_str();
        let n = s.unicode_len();
        let mut lines: Vec<String> = Vec::new();
        let mut start: usize = 0;
        while start < n
            invariant
                n == self.text_header@.len(),
                s@ == self.text_header@,
                0 <= start <= n,
                start % 80 == 0,
                lines@.len() == start / 80,
                forall|i: int|
                    0 <= i < lines@.len() ==> lines@[i]@ == self.text_header@.subrange(
                        80 * i,
                        if 80 * i + 80 <= n {
                            80 * i + 80
                        } else {
                            n as int
                        },
                    ),
            decreases n - start,
        {
            let end = if n - start >= 80 {
                start + 80
            } else {
                n
            };
            let chunk = s.substring_char(start, end);
            lines.push(String::from_str(chunk));
            start = end;
            if start == n && n % 80 != 0 {
                proof {
                    assert(lines@.len() == (n + 79) / 80);
                }
                return lines;
            }
        }
        lines
    }

    /// The binary header.
    pub fn get_bin_header(&self) -> (r: &header_structs::BinHeader)
        ensures
            r == &self.bin_header,
    {
        &self.bin_header
    }

    /// The tape label with its character fields decoded, if the file had
    /// a label.
    pub fn get_readable_tape_label(&self) -> (r: Option<header_structs::ReadableTapeLabel>)
        ensures
            r is Some <==> self.tape_label is Some,
    {
        match &self.tape_label {
            Some(l) => Some(l.to_readable()),
            None => None,
        }
    }

    /// Takes the metadata apart into its fields.
    pub fn deconstruct(self) -> (r: (
        Option<header_structs::TapeLabel>,
        String,
        Vec<String>,
        header_structs::BinHeader,
        S,
    ))
        ensures
            r.0 == self.tape_label,
            r.1 == self.text_header,
            r.2 == self.extended_headers,
            r.3 == self.bin_header,
            r.4 == self.settings,
    {
        let SegyMetadata { tape_label, text_header, extended_headers, bin_header, settings } = self;
        (tape_label, text_header, extended_headers, bin_header, settings)
    }
}

} // verus!
