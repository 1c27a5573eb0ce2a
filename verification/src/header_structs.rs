//! The structured forms of the fixed-size binary records of a file: the
//! 240-byte trace header, the 400-byte binary header and the optional
//! 128-byte tape label.

use crate::enums::{
    AmplitudeRecoveryMethod, BinaryGainRecovered, CoordinateUnits, Correlated,
    CorrelatedDataTraces, DataUse, FixedLengthTraces, GainType, ImpulseSignalPolarity,
    MeasurementSystem, OverTravel, SampleFormatCode, SourceMeasurementUnit, SourceType,
    SweepType, SweepTypeCode, TaperType, TimeBasisCode, TraceIdCode, TraceSortingCode,
    TraceValueUnit, TransductionUnits, VibratoryPolarityCode,
};
use crate::settings::SegySettings;
use crate::text::{all_ascii, ascii_chars, ascii_bytes_to_string, lossy_chars};
use crate::text::{ebcdic_ascii, spec_truncate_at_nul, to_ascii_byte, utf8_owned};
use vstd::prelude::*;
use vstd::string::StringExecFns;

verus! {

/// A parsed trace header: the per-trace metadata record. Byte offsets
/// given for the fields are the nominal ones; the four geometry fields
/// are read from and written to the offsets the settings name.
#[derive(Debug, Clone, PartialEq)]
pub struct TraceHeader {

    /// Bytes 0..4 of the trace header.
    pub trace_sequence_on_line: i32,
    /// Bytes 4..8 of the trace header.
    pub trace_sequence_in_file: i32,
    /// Bytes 8..12 of the trace header.
    pub field_record_no: i32,
    /// Bytes 12..16 of the trace header.
    pub trace_no: i32,
    /// Bytes 16..20 of the trace header.
    pub energy_source_point_no: i32,
    /// Bytes 20..24 of the trace header.
    pub ensemble_no: i32,
    /// Bytes 24..28 of the trace header.
    pub trace_no_in_ensemble: i32,
    /// Bytes 28..30 of the trace header.
    pub trace_identification_code: TraceIdCode,
    /// Bytes 30..32 of the trace header.
    pub no_v_summed_traces: u16,
    /// Bytes 32..34 of the trace header.
    pub no_h_stacked_traces: u16,
    /// Bytes 34..36 of the trace header.
    pub data_use: DataUse,
    /// Bytes 36..40 of the trace header.
    pub source_to_receiver_distance: i32,
    /// Bytes 40..44 of the trace header.
    pub elevation_of_receiver_group: i32,
    /// Bytes 44..48 of the trace header.
    pub surface_elevation_of_source: i32,
    /// Bytes 48..52 of the trace header.
    pub source_depth: i32,
    /// Bytes 52..56 of the trace header.
    pub datum_elevation_of_receiver_group: i32,
    /// Bytes 56..60 of the trace header.
    pub datum_elevation_of_source: i32,
    /// Bytes 60..64 of the trace header.
    pub water_column_height_at_source: i32,
    /// Bytes 64..68 of the trace header.
    pub water_column_height_at_group: i32,
    /// Bytes 68..70 of the trace header.
    pub elevation_scalar: i16,
    /// Bytes 70..72 of the trace header.
    pub coordinate_scalar: i16,
    /// Bytes 72..76 of the trace header.
    pub source_x: i32,
    /// Bytes 76..80 of the trace header.
    pub source_y: i32,
    /// Bytes 80..84 of the trace header.
    pub receiver_group_x: i32,
    /// Bytes 84..88 of the trace header.
    pub receiver_group_y: i32,
    /// Bytes 88..90 of the trace header.
    pub coordinate_units: CoordinateUnits,
    /// Bytes 90..92 of the trace header.
    pub weathing_velocity: u16,
    /// Bytes 92..94 of the trace header.
    pub sub_weathering_velocity: u16,
    /// Bytes 94..96 of the trace header.
    pub uphole_time_at_source: u16,
    /// Bytes 96..98 of the trace header.
    pub uphole_time_at_group: u16,
    /// Bytes 98..100 of the trace header.
    pub source_static_correction: u16,
    /// Bytes 100..102 of the trace header.
    pub group_static_correction: u16,
    /// Bytes 102..104 of the trace header.
    pub total_static_applied: u16,
    /// Bytes 104..106 of the trace header.
    pub lag_time_a: u16,
    /// Bytes 106..108 of the trace header.
    pub lag_time_b: u16,
    /// Bytes 108..110 of the trace header.
    pub delay_recording_time: u16,
    /// Bytes 110..112 of the trace header.
    pub mute_time_start: u16,
    /// Bytes 112..114 of the trace header.
    pub mute_time_end: u16,
    /// Bytes 114..116 of the trace header.
    pub no_samples_in_trace: u16,
    /// Bytes 116..118 of the trace header.
    pub sample_interval_of_trace: u16,
    /// Bytes 118..120 of the trace header.
    pub gain_type: GainType,
    /// Bytes 120..122 of the trace header.
    pub instrument_gain_constant: u16,
    /// Bytes 122..124 of the trace header.
    pub instrument_initial_gain: u16,
    /// Bytes 124..126 of the trace header.
    pub correlated: Correlated,
    /// Bytes 126..128 of the trace header.
    pub sweep_frequency_at_start: u16,
    /// Bytes 128..130 of the trace header.
    pub sweep_frequency_at_end: u16,
    /// Bytes 130..132 of the trace header.
    pub sweep_length: u16,
    /// Bytes 132..134 of the trace header.
    pub sweep_type: SweepType,
    /// Bytes 134..136 of the trace header.
    pub sweep_trace_taper_length_at_start: u16,
    /// Bytes 136..138 of the trace header.
    pub sweep_trace_taper_length_at_end: u16,
    /// Bytes 138..140 of the trace header.
    pub taper_type: TaperType,
    /// Bytes 140..142 of the trace header.
    pub alias_filter_frequency: u16,
    /// Bytes 142..144 of the trace header.
    pub alias_filter_slope: u16,
    /// Bytes 144..146 of the trace header.
    pub notch_filter_frequency: u16,
    /// Bytes 146..148 of the trace header.
    pub notch_filter_slope: u16,
    /// Bytes 148..150 of the trace header.
    pub low_cut_frequency: u16,
    /// Bytes 150..152 of the trace header.
    pub high_cut_frequency: u16,
    /// Bytes 152..154 of the trace header.
    pub low_cut_slope: u16,
    /// Bytes 154..156 of the trace header.
    pub high_cut_slope: u16,
    /// Bytes 156..158 of the trace header.
    pub year_recorded: u16,
    /// Bytes 158..160 of the trace header.
    pub day_of_year: u16,
    /// Bytes 160..162 of the trace header.
    pub hour_of_day: u16,
    /// Bytes 162..164 of the trace header.
    pub minute_of_hour: u16,
    /// Bytes 164..166 of the trace header.
    pub second_of_minute: u16,
    /// Bytes 166..168 of the trace header.
    pub time_base_code: TimeBasisCode,
    /// Bytes 168..170 of the trace header.
    pub trace_weighting_factor: u16,
    /// Bytes 170..172 of the trace header.
    pub geophone_group_number_roll_pos1: u16,
    /// Bytes 172..174 of the trace header.
    pub geophone_group_number_first_trace_orig_field: u16,
    /// Bytes 174..176 of the trace header.
    pub geophone_group_number_last_trace_orig_field: u16,
    /// Bytes 176..178 of the trace header.
    pub gap_size: u16,
    /// Bytes 178..180 of the trace header.
    pub over_travel: OverTravel,
    /// The x ensemble value, at the byte index the settings give it.
    pub x_ensemble: i32,
    /// The y ensemble value, at the byte index the settings give it.
    pub y_ensemble: i32,
    /// The inline value, at the byte index the settings give it.
    pub inline_no: i32,
    /// The crossline value, at the byte index the settings give it.
    pub crossline_no: i32,
    /// Bytes 196..200 of the trace header.
    pub shot_point_no: i32,
    /// Bytes 200..202 of the trace header.
    pub shot_point_scalar: u16,
    /// Bytes 202..204 of the trace header.
    pub trace_value_measurement_unit: TraceValueUnit,
    /// Bytes 204..208 of the trace header.
    pub transduction_constant_mantissa: i32,
    /// Bytes 208..210 of the trace header.
    pub transduction_constant_power: u16,
    /// Bytes 210..212 of the trace header.
    pub transduction_units: TransductionUnits,
    /// Bytes 212..214 of the trace header.
    pub trace_identifier: u16,
    /// Bytes 214..216 of the trace header.
    pub time_scalar_trace_header: u16,
    /// Bytes 216..218 of the trace header.
    pub source_type: SourceType,
    /// Bytes 218..220 of the trace header.
    pub source_energy_direction_v: u16,
    /// Bytes 220..222 of the trace header.
    pub source_energy_direction_il: u16,
    /// Bytes 222..224 of the trace header.
    pub source_energy_direction_xl: u16,
    /// Bytes 224..228 of the trace header.
    pub source_measurement_mantissa: i32,
    /// Bytes 228..230 of the trace header.
    pub source_measurement_exponent: u16,
    /// Bytes 230..232 of the trace header.
    pub source_measurement_unit: SourceMeasurementUnit,
    /// Bytes 232..240 of the trace header.
    pub trace_name: [u8; 8],
}

/// The parsed file-wide binary header. The serialised form is exactly 400
/// bytes; roughly 30 of its fields are interpreted here.
#[derive(Debug, Clone, PartialEq)]
pub struct BinHeader {

    /// Bytes 0..4 of the binary header.
    pub job_id: u32,
    /// Bytes 4..8 of the binary header.
    pub line_number: u32,
    /// Bytes 8..12 of the binary header.
    pub reel_number: u32,
    /// Bytes 12..14 of the binary header.
    pub no_traces: u16,
    /// Bytes 14..16 of the binary header.
    pub no_aux_traces: u16,
    /// Bytes 16..18 of the binary header.
    pub sample_interval: u16,
    /// Bytes 18..20 of the binary header.
    pub sample_interval_original: u16,
    /// Bytes 20..22 of the binary header.
    pub no_samples: u16,
    /// Bytes 22..24 of the binary header.
    pub no_samples_original: u16,
    /// Bytes 24..26 of the binary header.
    pub sample_format_code: SampleFormatCode,
    /// Bytes 26..28 of the binary header.
    pub ensemble_fold: u16,
    /// Bytes 28..30 of the binary header.
    pub sorting_code: TraceSortingCode,
    /// Bytes 30..32 of the binary header.
    pub vertical_sum: u16,
    /// Bytes 32..34 of the binary header.
    pub sweep_frequency_start: u16,
    /// Bytes 34..36 of the binary header.
    pub sweep_frequency_end: u16,
    /// Bytes 36..38 of the binary header.
    pub sweep_length: u16,
    /// Bytes 38..40 of the binary header.
    pub sweep_type: SweepTypeCode,
    /// Bytes 40..42 of the binary header.
    pub sweep_channel_trace_no: u16,
    /// Bytes 42..44 of the binary header.
    pub sweep_taper_at_start: u16,
    /// Bytes 44..46 of the binary header.
    pub sweep_taper_at_end: u16,
    /// Bytes 46..48 of the binary header.
    pub taper_type: TaperType,
    /// Bytes 48..50 of the binary header.
    pub correlated_traces: CorrelatedDataTraces,
    /// Bytes 50..52 of the binary header.
    pub binary_gain_recovered: BinaryGainRecovered,
    /// Bytes 52..54 of the binary header.
    pub amplitude_recovery_method: AmplitudeRecoveryMethod,
    /// Bytes 54..56 of the binary header.
    pub measurement_system: MeasurementSystem,
    /// Bytes 56..58 of the binary header.
    pub impulse_signal_polarity: ImpulseSignalPolarity,
    /// Bytes 58..60 of the binary header.
    pub vibratory_polarity_code: VibratoryPolarityCode,
    /// Bytes 300..302 of the binary header.
    pub segy_revision_number: [u8; 2],
    /// Bytes 302..304 of the binary header.
    pub fixed_length_trace_flag: FixedLengthTraces,
    /// Bytes 306..310 of the binary header.
    pub extended_header_count: u32,
    /// Bytes 310..312 of the binary header.
    pub time_basis_code: TimeBasisCode,
    /// Whether every multi-byte field of the file is little-endian,
    /// from the 4-byte marker at bytes 96..100 of the binary header.
    pub binary_flag_direction_is_le: bool,
}

/// The 128-byte legacy tape label, stored mostly as character bytes.
#[derive(Debug, Clone, PartialEq)]
pub struct TapeLabel {
    /// Bytes 0..4.
    pub storage_unit_seq_no: [u8; 4],
    /// Bytes 4..9.
    pub segy_revision_no: [u8; 5],
    /// Bytes 9..15.
    pub storage_unit_structure: [u8; 6],
    /// Bytes 15..19.
    pub binding_number: [u8; 4],
    /// Bytes 19..29, stored as decimal character bytes.
    pub max_block_size: u32,
    /// Bytes 29..39.
    pub producing_organisation_code: [u8; 10],
    /// Bytes 39..50.
    pub creation_date: [u8; 11],
    /// Bytes 50..62.
    pub serial_number: [u8; 12],
    /// Bytes 68..80.
    pub external_label: [u8; 12],
    /// Bytes 80..104.
    pub recording_entity: [u8; 24],
    /// Bytes 104..118.
    pub extra: [u8; 14],
}

/// The tape label with every character field decoded to a string.
#[derive(Debug, Clone, PartialEq)]
pub struct ReadableTapeLabel {
    pub storage_unit_seq_no: String,
    pub segy_revision_no: String,
    pub storage_unit_structure: String,
    pub binding_number: String,
    pub max_block_size: u32,
    pub producing_organisation_code: String,
    pub creation_date: String,
    pub serial_number: String,
    pub external_label: String,
    pub recording_entity: String,
    pub extra: String,
}

/// How a character field of the label reads as text: decoded from its
/// bytes before the first NUL, exactly when those bytes are ASCII.
pub open spec fn spec_label_field_readable(bytes: Seq<u8>, out: Seq<char>) -> bool {
    &&& out == lossy_chars(spec_truncate_at_nul(bytes))
    &&& all_ascii(spec_truncate_at_nul(bytes)) ==> out == ascii_chars(spec_truncate_at_nul(bytes))
}

impl TapeLabel {
    /// Decodes every character field of the label to a string.
    pub fn to_readable(&self) -> (r: ReadableTapeLabel)
        ensures
            spec_label_field_readable(self.storage_unit_seq_no@, r.storage_unit_seq_no@),
            spec_label_field_readable(self.segy_revision_no@, r.segy_revision_no@),
            spec_label_field_readable(self.storage_unit_structure@, r.storage_unit_structure@),
            spec_label_field_readable(self.binding_number@, r.binding_number@),
            r.max_block_size == self.max_block_size,
            spec_label_field_readable(
                self.producing_organisation_code@,
                r.producing_organisation_code@,
            ),
            spec_label_field_readable(self.creation_date@, r.creation_date@),
            spec_label_field_readable(self.serial_number@, r.serial_number@),
            spec_label_field_readable(self.external_label@, r.external_label@),
            spec_label_field_readable(self.recording_entity@, r.recording_entity@),
            spec_label_field_readable(self.extra@, r.extra@),
    {
        ReadableTapeLabel {
            storage_unit_seq_no: ascii_bytes_to_string(self.storage_unit_seq_no.as_slice()),
            segy_revision_no: ascii_bytes_to_string(self.segy_revision_no.as_slice()),
            storage_unit_structure: ascii_bytes_to_string(self.storage_unit_structure.as_slice()),
            binding_number: ascii_bytes_to_string(self.binding_number.as_slice()),
            max_block_size: self.max_block_size,
            producing_organisation_code: ascii_bytes_to_string(
                self.producing_organisation_code.as_slice(),
            ),
            creation_date: ascii_bytes_to_string(self.creation_date.as_slice()),
            serial_number: ascii_bytes_to_string(self.serial_number.as_slice()),
            external_label: ascii_bytes_to_string(self.external_label.as_slice()),
            recording_entity: ascii_bytes_to_string(self.recording_entity.as_slice()),
            extra: ascii_bytes_to_string(self.extra.as_slice()),
        }
    }
}

impl BinHeader {
    /// When a depth override is configured, replaces the declared sample
    /// count with it and marks the traces as fixed-length.
    pub fn adjust_sample_count(&mut self, settings: &SegySettings)
        requires
            match settings.override_dim_z {
                Some(z) => 0 <= z <= u16::MAX,
                None => true,
            },
        ensures
            match settings.override_dim_z {
                Some(z) => *final(self) == (BinHeader {
                    no_samples: z as u16,
                    fixed_length_trace_flag: FixedLengthTraces::Yes,
                    ..*old(self)
                }),
                None => *final(self) == *old(self),
            },
    {
        if let Some(dim_z) = settings.override_dim_z {
            self.no_samples = dim_z as u16;
            self.fixed_length_trace_flag = FixedLengthTraces::Yes;
        }
    }
}

impl TraceHeader {
    /// When a depth override is configured, replaces the declared sample
    /// count of the trace with it.
    pub fn adjust_sample_count(&mut self, settings: &SegySettings)
        requires
            match settings.override_dim_z {
                Some(z) => 0 <= z <= u16::MAX,
                None => true,
            },
        ensures
            match settings.override_dim_z {
                Some(z) => *final(self) == (TraceHeader {
                    no_samples_in_trace: z as u16,
                    ..*old(self)
                }),
                None => *final(self) == *old(self),
            },
    {
        if let Some(dim_z) = settings.override_dim_z {
            self.no_samples_in_trace = dim_z as u16;
        }
    }

    /// The bytes the trace name stands for: taken as ASCII when they start
    /// with the letter `S` (names normally begin with `SEG`), otherwise
    /// mapped out of EBCDIC; NUL-terminated either way.
    pub open spec fn spec_trace_name_bytes(self) -> Seq<u8> {
        if self.trace_name[0] == 83u8 {
            spec_truncate_at_nul(self.trace_name@)
        } else {
            spec_truncate_at_nul(Seq::new(8, |i: int| ebcdic_ascii(self.trace_name@[i])))
        }
    }

    /// The trace name as a string.
    pub fn get_trace_name(&self) -> (r: String)
        ensures
            r@ == lossy_chars(self.spec_trace_name_bytes()),
            all_ascii(self.spec_trace_name_bytes()) ==> r@ == ascii_chars(
                self.spec_trace_name_bytes(),
            ),
    {
        let is_ascii_name = self.trace_name[0] == 83;
        if is_ascii_name {
            return ascii_bytes_to_string(self.trace_name.as_slice());
        }
        let mut name: Vec<u8> = Vec::new();
        let mut i: usize = 0;
        while i < 8
            invariant
                0 <= i <= 8,
                name@.len() == i,
                forall|j: int| 0 <= j < i ==> name@[j] == ebcdic_ascii(self.trace_name@[j]),
            decreases 8 - i,
        {
            name.push(to_ascii_byte(self.trace_name[i]));
            i += 1;
        }
        proof {
            assert(name@ =~= Seq::new(8, |i: int| ebcdic_ascii(self.trace_name@[i])));
        }
        ascii_bytes_to_string(name.as_slice())
    }
}

/// Converts name bytes to a string if they hold no NUL and are valid
/// UTF-8, and to the empty string otherwise.
pub fn c_safe_name(name: &[u8]) -> (r: String)
    ensures
        (exists|i: int| 0 <= i < name@.len() && name@[i] == 0) ==> r@ == Seq::<char>::empty(),
        (forall|i: int| 0 <= i < name@.len() ==> name@[i] != 0) && all_ascii(name@) ==> r@
            == ascii_chars(name@),
        (forall|i: int| 0 <= i < name@.len() ==> name@[i] != 0) && !vstd::utf8::valid_utf8(name@)
            ==> r@ == Seq::<char>::empty(),
{
    let n = name.len();
    let mut i: usize = 0;
    while i < n
        invariant
            n == name@.len(),
            0 <= i <= n,
            forall|j: int| 0 <= j < i ==> name@[j] != 0,
        decreases n - i,
    {
        if *vstd::slice::slice_index_get(name, i) == 0 {
            return String::new();
        }
        i += 1;
    }
    match utf8_owned(name) {
        Some(s) => s,
        None => String::new(),
    }
}

} // verus!
