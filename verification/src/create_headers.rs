//! Construction of fresh headers for the write path: defaults with every
//! coded field unspecified and every count zero, and the small builders
//! the writer examples use.

use crate::enums::{
    AmplitudeRecoveryMethod, BinaryGainRecovered, CoordinateUnits, Correlated,
    CorrelatedDataTraces, DataUse, FixedLengthTraces, GainType, ImpulseSignalPolarity,
    MeasurementSystem, OverTravel, SampleFormatCode, SourceMeasurementUnit, SourceType, SweepType,
    SweepTypeCode, TaperType, TimeBasisCode, TraceIdCode, TraceSortingCode, TraceValueUnit,
    TransductionUnits, VibratoryPolarityCode,
};
use crate::header_structs::{BinHeader, TapeLabel, TraceHeader};
use vstd::prelude::*;

verus! {

/// An empty tape label: a record structure marker, a placeholder binding
/// number, and the largest representable block size.
pub fn create_tape_label() -> (r: TapeLabel)
    ensures
        r.storage_unit_structure@ =~= seq![82u8, 69u8, 67u8, 79u8, 82u8, 68u8],
        r.binding_number@ =~= seq![66u8, 88u8, 88u8, 88u8],
        r.max_block_size == u32::MAX,
{
    TapeLabel {
        storage_unit_seq_no: [0; 4],
        segy_revision_no: [0; 5],
        storage_unit_structure: [82, 69, 67, 79, 82, 68],
        binding_number: [66, 88, 88, 88],
        max_block_size: u32::MAX,
        producing_organisation_code: [0; 10],
        creation_date: [0; 11],
        serial_number: [0; 12],
        external_label: [0; 12],
        recording_entity: [0; 24],
        extra: [0; 14],
    }
}

/// Whether a binary header is the empty default: every coded field
/// unspecified or unknown, every count zero, single-precision samples,
/// big-endian byte order, and revision two. This is a blank slate for
/// the writer, not the standard's defaults.
pub open spec fn is_default_bin_header(h: BinHeader) -> bool {
    &&& h.job_id == 0
    &&& h.line_number == 0
    &&& h.reel_number == 0
    &&& h.no_traces == 0
    &&& h.no_aux_traces == 0
    &&& h.sample_interval == 0
    &&& h.sample_interval_original == 0
    &&& h.no_samples == 0
    &&& h.no_samples_original == 0
    &&& h.sample_format_code is Float32
    &&& h.ensemble_fold == 0
    &&& h.sorting_code is Unknown
    &&& h.vertical_sum == 0
    &&& h.sweep_frequency_start == 0
    &&& h.sweep_frequency_end == 0
    &&& h.sweep_length == 0
    &&& h.sweep_type is Unspecified
    &&& h.sweep_channel_trace_no == 0
    &&& h.sweep_taper_at_start == 0
    &&& h.sweep_taper_at_end == 0
    &&& h.taper_type is Unspecified
    &&& h.correlated_traces is Unspecified
    &&& h.binary_gain_recovered is Unspecified
    &&& h.amplitude_recovery_method is Unspecified
    &&& h.measurement_system is Unspecified
    &&& h.impulse_signal_polarity is Unspecified
    &&& h.vibratory_polarity_code is Unspecified
    &&& h.segy_revision_number@[0] == 2 && h.segy_revision_number@[1] == 0
    &&& h.fixed_length_trace_flag is No
    &&& h.extended_header_count == 0
    &&& h.time_basis_code is Unspecified
    &&& h.binary_flag_direction_is_le == false
}

impl BinHeader {
    /// A binary header with the counts and sample format a new file
    /// needs, over the empty defaults.
    pub fn new(
        no_traces: u16,
        sample_interval: u16,
        no_samples: u16,
        sample_format_code: SampleFormatCode,
    ) -> (r: BinHeader)
        ensures
            is_default_bin_header(
                BinHeader {
                    no_traces: 0,
                    sample_interval: 0,
                    no_samples: 0,
                    sample_format_code: SampleFormatCode::Float32,
                    ..r
                },
            ),
            r.no_traces == no_traces,
            r.sample_interval == sample_interval,
            r.no_samples == no_samples,
            r.sample_format_code == sample_format_code,
    {
        let mut header = BinHeader::default();
        header.no_traces = no_traces;
        header.sample_interval = sample_interval;
        header.no_samples = no_samples;
        header.sample_format_code = sample_format_code;
        header
    }

    /// Sets the measurement system.
    pub fn set_measurement_system(&mut self, measurement_system: MeasurementSystem)
        ensures
            *final(self) == (BinHeader { measurement_system, ..*old(self) }),
    {
        self.measurement_system = measurement_system;
    }

    /// Marks every multi-byte field of the file as little-endian.
    pub fn switch_binary_flag_to_le(&mut self)
        ensures
            *final(self) == (BinHeader { binary_flag_direction_is_le: true, ..*old(self) }),
    {
        self.binary_flag_direction_is_le = true;
    }
}

impl Default for BinHeader {
    /// The empty binary header.
    fn default() -> (r: BinHeader)
        ensures
            is_default_bin_header(r),
    {
        BinHeader {
            job_id: 0,
            line_number: 0,
            reel_number: 0,
            no_traces: 0,
            no_aux_traces: 0,
            sample_interval: 0,
            sample_interval_original: 0,
            no_samples: 0,
            no_samples_original: 0,
            sample_format_code: SampleFormatCode::Float32,
            ensemble_fold: 0,
            sorting_code: TraceSortingCode::Unknown,
            vertical_sum: 0,
            sweep_frequency_start: 0,
            sweep_frequency_end: 0,
            sweep_length: 0,
            sweep_type: SweepTypeCode::Unspecified,
            sweep_channel_trace_no: 0,
            sweep_taper_at_start: 0,
            sweep_taper_at_end: 0,
            taper_type: TaperType::Unspecified,
            correlated_traces: CorrelatedDataTraces::Unspecified,
            binary_gain_recovered: BinaryGainRecovered::Unspecified,
            amplitude_recovery_method: AmplitudeRecoveryMethod::Unspecified,
            measurement_system: MeasurementSystem::Unspecified,
            impulse_signal_polarity: ImpulseSignalPolarity::Unspecified,
            vibratory_polarity_code: VibratoryPolarityCode::Unspecified,
            segy_revision_number: [2, 0],
            fixed_length_trace_flag: FixedLengthTraces::No,
            extended_header_count: 0,
            time_basis_code: TimeBasisCode::Unspecified,
            binary_flag_direction_is_le: false,
        }
    }
}

/// Whether a trace header is the empty default: every coded field
/// unspecified or unknown and every value zero.
pub open spec fn is_default_trace_header(h: TraceHeader) -> bool {
    &&& h.trace_sequence_on_line == 0
    &&& h.trace_sequence_in_file == 0
    &&& h.field_record_no == 0
    &&& h.trace_no == 0
    &&& h.energy_source_point_no == 0
    &&& h.ensemble_no == 0
    &&& h.trace_no_in_ensemble == 0
    &&& h.trace_identification_code is Unknown
    &&& h.no_v_summed_traces == 0
    &&& h.no_h_stacked_traces == 0
    &&& h.data_use is Unspecified
    &&& h.source_to_receiver_distance == 0
    &&& h.elevation_of_receiver_group == 0
    &&& h.surface_elevation_of_source == 0
    &&& h.source_depth == 0
    &&& h.datum_elevation_of_receiver_group == 0
    &&& h.datum_elevation_of_source == 0
    &&& h.water_column_height_at_source == 0
    &&& h.water_column_height_at_group == 0
    &&& h.elevation_scalar == 0
    &&& h.coordinate_scalar == 0
    &&& h.source_x == 0
    &&& h.source_y == 0
    &&& h.receiver_group_x == 0
    &&& h.receiver_group_y == 0
    &&& h.coordinate_units is Unspecified
    &&& h.weathing_velocity == 0
    &&& h.sub_weathering_velocity == 0
    &&& h.uphole_time_at_source == 0
    &&& h.uphole_time_at_group == 0
    &&& h.source_static_correction == 0
    &&& h.group_static_correction == 0
    &&& h.total_static_applied == 0
    &&& h.lag_time_a == 0
    &&& h.lag_time_b == 0
    &&& h.delay_recording_time == 0
    &&& h.mute_time_start == 0
    &&& h.mute_time_end == 0
    &&& h.no_samples_in_trace == 0
    &&& h.sample_interval_of_trace == 0
    &&& h.gain_type is Unspecified
    &&& h.instrument_gain_constant == 0
    &&& h.instrument_initial_gain == 0
    &&& h.correlated is Unspecified
    &&& h.sweep_frequency_at_start == 0
    &&& h.sweep_frequency_at_end == 0
    &&& h.sweep_length == 0
    &&& h.sweep_type is Unspecified
    &&& h.sweep_trace_taper_length_at_start == 0
    &&& h.sweep_trace_taper_length_at_end == 0
    &&& h.taper_type is Unspecified
    &&& h.alias_filter_frequency == 0
    &&& h.alias_filter_slope == 0
    &&& h.notch_filter_frequency == 0
    &&& h.notch_filter_slope == 0
    &&& h.low_cut_frequency == 0
    &&& h.high_cut_frequency == 0
    &&& h.low_cut_slope == 0
    &&& h.high_cut_slope == 0
    &&& h.year_recorded == 0
    &&& h.day_of_year == 0
    &&& h.hour_of_day == 0
    &&& h.minute_of_hour == 0
    &&& h.second_of_minute == 0
    &&& h.time_base_code is Unspecified
    &&& h.trace_weighting_factor == 0
    &&& h.geophone_group_number_roll_pos1 == 0
    &&& h.geophone_group_number_first_trace_orig_field == 0
    &&& h.geophone_group_number_last_trace_orig_field == 0
    &&& h.gap_size == 0
    &&& h.over_travel is Unspecified
    &&& h.x_ensemble == 0
    &&& h.y_ensemble == 0
    &&& h.inline_no == 0
    &&& h.crossline_no == 0
    &&& h.shot_point_no == 0
    &&& h.shot_point_scalar == 0
    &&& h.trace_value_measurement_unit is Unknown
    &&& h.transduction_constant_mantissa == 0
    &&& h.transduction_constant_power == 0
    &&& h.transduction_units is Unknown
    &&& h.trace_identifier == 0
    &&& h.time_scalar_trace_header == 0
    &&& h.source_type is Unknown
    &&& h.source_energy_direction_v == 0
    &&& h.source_energy_direction_il == 0
    &&& h.source_energy_direction_xl == 0
    &&& h.source_measurement_mantissa == 0
    &&& h.source_measurement_exponent == 0
    &&& h.source_measurement_unit is Unknown
    &&& forall|i: int| 0 <= i < 8 ==> h.trace_name@[i] == 0
}

impl TraceHeader {
    /// A trace header for a 2-dimensional survey: the ensemble
    /// coordinates and their scalar, over the empty defaults.
    pub fn new_2d(x_ensemble: i32, y_ensemble: i32, coordinate_scalar: i16) -> (r: TraceHeader)
        ensures
            is_default_trace_header(
                TraceHeader { x_ensemble: 0, y_ensemble: 0, coordinate_scalar: 0, ..r },
            ),
            r.x_ensemble == x_ensemble,
            r.y_ensemble == y_ensemble,
            r.coordinate_scalar == coordinate_scalar,
    {
        let mut header = TraceHeader::default();
        header.x_ensemble = x_ensemble;
        header.y_ensemble = y_ensemble;
        header.coordinate_scalar = coordinate_scalar;
        header
    }

    /// A trace header for a 3-dimensional survey: the ensemble
    /// coordinates, the grid position and the scalar, over the empty
    /// defaults.
    pub fn new_3d(
        x_ensemble: i32,
        y_ensemble: i32,
        inline_no: i32,
        xline_no: i32,
        coordinate_scalar: i16,
    ) -> (r: TraceHeader)
        ensures
            is_default_trace_header(
                TraceHeader {
                    x_ensemble: 0,
                    y_ensemble: 0,
                    inline_no: 0,
                    crossline_no: 0,
                    coordinate_scalar: 0,
                    ..r
                },
            ),
            r.x_ensemble == x_ensemble,
            r.y_ensemble == y_ensemble,
            r.inline_no == inline_no,
            r.crossline_no == xline_no,
            r.coordinate_scalar == coordinate_scalar,
    {
        let mut header = TraceHeader::default();
        header.inline_no = inline_no;
        header.crossline_no = xline_no;
        header.x_ensemble = x_ensemble;
        header.y_ensemble = y_ensemble;
        header.coordinate_scalar = coordinate_scalar;
        header
    }
}

impl Default for TraceHeader {
    /// The empty trace header.
    fn default() -> (r: TraceHeader)
        ensures
            is_default_trace_header(r),
    {
        TraceHeader {
            trace_sequence_on_line: 0,
            trace_sequence_in_file: 0,
            field_record_no: 0,
            trace_no: 0,
            energy_source_point_no: 0,
            ensemble_no: 0,
            trace_no_in_ensemble: 0,
            trace_identification_code: TraceIdCode::Unknown,
            no_v_summed_traces: 0,
            no_h_stacked_traces: 0,
            data_use: DataUse::Unspecified,
            source_to_receiver_distance: 0,
            elevation_of_receiver_group: 0,
            surface_elevation_of_source: 0,
            source_depth: 0,
            datum_elevation_of_receiver_group: 0,
            datum_elevation_of_source: 0,
            water_column_height_at_source: 0,
            water_column_height_at_group: 0,
            elevation_scalar: 0,
            coordinate_scalar: 0,
            source_x: 0,
            source_y: 0,
            receiver_group_x: 0,
            receiver_group_y: 0,
            coordinate_units: CoordinateUnits::Unspecified,
            weathing_velocity: 0,
            sub_weathering_velocity: 0,
            uphole_time_at_source: 0,
            uphole_time_at_group: 0,
            source_static_correction: 0,
            group_static_correction: 0,
            total_static_applied: 0,
            lag_time_a: 0,
            lag_time_b: 0,
            delay_recording_time: 0,
            mute_time_start: 0,
            mute_time_end: 0,
            no_samples_in_trace: 0,
            sample_interval_of_trace: 0,
            gain_type: GainType::Unspecified,
            instrument_gain_constant: 0,
            instrument_initial_gain: 0,
            correlated: Correlated::Unspecified,
            sweep_frequency_at_start: 0,
            sweep_frequency_at_end: 0,
            sweep_length: 0,
            sweep_type: SweepType::Unspecified,
            sweep_trace_taper_length_at_start: 0,
            sweep_trace_taper_length_at_end: 0,
            taper_type: TaperType::Unspecified,
            alias_filter_frequency: 0,
            alias_filter_slope: 0,
            notch_filter_frequency: 0,
            notch_filter_slope: 0,
            low_cut_frequency: 0,
            high_cut_frequency: 0,
            low_cut_slope: 0,
            high_cut_slope: 0,
            year_recorded: 0,
            day_of_year: 0,
            hour_of_day: 0,
            minute_of_hour: 0,
            second_of_minute: 0,
            time_base_code: TimeBasisCode::Unspecified,
            trace_weighting_factor: 0,
            geophone_group_number_roll_pos1: 0,
            geophone_group_number_first_trace_orig_field: 0,
            geophone_group_number_last_trace_orig_field: 0,
            gap_size: 0,
            over_travel: OverTravel::Unspecified,
            x_ensemble: 0,
            y_ensemble: 0,
            inline_no: 0,
            crossline_no: 0,
            shot_point_no: 0,
            shot_point_scalar: 0,
            trace_value_measurement_unit: TraceValueUnit::Unknown,
            transduction_constant_mantissa: 0,
            transduction_constant_power: 0,
            transduction_units: TransductionUnits::Unknown,
            trace_identifier: 0,
            time_scalar_trace_header: 0,
            source_type: SourceType::Unknown,
            source_energy_direction_v: 0,
            source_energy_direction_il: 0,
            source_energy_direction_xl: 0,
            source_measurement_mantissa: 0,
            source_measurement_exponent: 0,
            source_measurement_unit: SourceMeasurementUnit::Unknown,
            trace_name: [0; 8],
        }
    }
}

} // verus!
