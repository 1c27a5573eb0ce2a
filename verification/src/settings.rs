//! Parsing and writing settings: relocated byte indices for the geometry
//! fields, format and endianness overrides, bounds filters and dimension
//! overrides.
//!
//! Few SEG-Y files in the field follow the standard byte layout, so both
//! the header codec and the writer consult these settings. Setters validate
//! their input where an invalid value is representable; the fields are
//! exposed read-only through getters in ordinary use.

use crate::enums::{MeasurementSystem, OrderTraceBy, SampleFormatCode, TraceIdCode};
use crate::errors::RsgError;
use crate::{CDPX_BYTE_LOCATION, CDPY_BYTE_LOCATION, CROSSLINE_BYTE_LOCATION};
use crate::{INLINE_BYTE_LOCATION, TRACE_HEADER_LEN};
use vstd::prelude::*;
use vstd::string::StringExecFns;

verus! {

/// Settings for the custom reading and writing of header byte locations
/// and other interpretation choices.
///
/// The fields are public so that they can be inspected, but they should be
/// changed through the setters: several fields admit only a subset of the
/// values of their type, and some setters keep fields consistent with each
/// other.
#[derive(Debug, Clone, PartialEq)]
pub struct SegySettings {
    /// What the traces of a file are ordered by.
    pub order_trace_by: OrderTraceBy,
    /// Overrides the endianness deduced from the binary header, if set.
    pub override_to_le: Option<bool>,
    /// Overrides the sample format of the trace data, if set.
    pub override_trace_format: Option<SampleFormatCode>,
    /// Overrides the format the 4-byte coordinate fields are read in.
    pub override_coordinate_format: Option<SampleFormatCode>,
    /// Overrides the trace identification code of every trace, if set.
    pub override_trace_id_code: Option<TraceIdCode>,
    /// Overrides the depth units. Not consulted by this library; carried
    /// for consuming applications.
    pub override_trace_depth_units: Option<MeasurementSystem>,
    /// Overrides the coordinate units, if set.
    pub override_coordinate_units: Option<MeasurementSystem>,
    /// Replaces the on-disk coordinate scalar entirely, if set.
    pub override_coordinate_scaling: Option<i16>,
    /// Byte index of the inline number in a trace header.
    pub inline_no_bidx: usize,
    /// Byte index of the crossline number in a trace header.
    pub crossline_no_bidx: usize,
    /// Byte index of the x ensemble (CDP) coordinate in a trace header.
    pub x_ensemble_bidx: usize,
    /// Byte index of the y ensemble (CDP) coordinate in a trace header.
    pub y_ensemble_bidx: usize,
    /// Stride for reading trace data; 1 reads every datum.
    pub step_by: usize,
    /// Closed inline bounds for the trace filter, if set.
    pub inline_min_max: Option<[i32; 2]>,
    /// Closed crossline bounds for the trace filter, if set.
    pub crossline_min_max: Option<[i32; 2]>,
    /// The geometry origin, as three IEEE double-precision bit patterns.
    /// Carried for consuming applications; not consulted here.
    pub origin: Option<[u64; 3]>,
    /// Grid inline count override; also derives crossline bounds.
    pub override_dim_x: Option<i32>,
    /// Grid crossline count override; also derives inline bounds.
    pub override_dim_y: Option<i32>,
    /// Sample count (depth) override.
    pub override_dim_z: Option<i32>,
    /// A custom `u` unit vector, as double-precision bit patterns.
    /// Carried for consuming applications; not consulted here.
    pub override_u: Option<[u64; 3]>,
    /// A custom `v` unit vector, as double-precision bit patterns.
    /// Carried for consuming applications; not consulted here.
    pub override_v: Option<[u64; 3]>,
    /// A physical sample interval override, as a double-precision bit
    /// pattern. Carried for consuming applications; not consulted here.
    pub override_sample_interval: Option<u64>,
}

impl SegySettings {
    /// The default settings: nothing overridden, the nominal standard byte
    /// locations, and a stride of 1.
    pub open spec fn spec_default() -> SegySettings {
        SegySettings {
            order_trace_by: OrderTraceBy::Default,
            override_to_le: None,
            override_trace_format: None,
            override_coordinate_format: None,
            override_trace_id_code: None,
            override_trace_depth_units: None,
            override_coordinate_units: None,
            override_coordinate_scaling: None,
            inline_no_bidx: INLINE_BYTE_LOCATION,
            crossline_no_bidx: CROSSLINE_BYTE_LOCATION,
            x_ensemble_bidx: CDPX_BYTE_LOCATION,
            y_ensemble_bidx: CDPY_BYTE_LOCATION,
            step_by: 1usize,
            inline_min_max: None,
            crossline_min_max: None,
            origin: None,
            override_dim_x: None,
            override_dim_y: None,
            override_dim_z: None,
            override_u: None,
            override_v: None,
            override_sample_interval: None,
        }
    }

    /// Every geometry byte index leaves room for a 4-byte field inside the
    /// 240-byte trace header. Setters preserve this; the header codec
    /// relies on it.
    pub open spec fn wf(self) -> bool {
        &&& self.inline_no_bidx + 4 <= TRACE_HEADER_LEN
        &&& self.crossline_no_bidx + 4 <= TRACE_HEADER_LEN
        &&& self.x_ensemble_bidx + 4 <= TRACE_HEADER_LEN
        &&& self.y_ensemble_bidx + 4 <= TRACE_HEADER_LEN
    }

    /// The coordinate format override may only name a 4-byte format.
    pub open spec fn spec_coordinate_format_is_4_byte(format: SampleFormatCode) -> bool {
        format is IbmFloat32 || format is Float32 || format is UInt32 || format is Int32
    }

    /// Sets what traces are ordered by.
    pub fn set_order_trace_by(&mut self, order: OrderTraceBy)
        ensures
            *final(self) == (SegySettings { order_trace_by: order, ..*old(self) }),
    {
        self.order_trace_by = order;
    }

    /// Overrides the endianness: little-endian if `le`, else big-endian.
    pub fn set_override_to_le(&mut self, le: bool)
        ensures
            *final(self) == (SegySettings { override_to_le: Some(le), ..*old(self) }),
    {
        self.override_to_le = Some(le);
    }

    /// Overrides the sample format of the trace data.
    pub fn set_override_trace_format(&mut self, format: SampleFormatCode)
        ensures
            *final(self) == (SegySettings { override_trace_format: Some(format), ..*old(self) }),
    {
        self.override_trace_format = Some(format);
    }

    /// Overrides the trace identification code of every trace.
    pub fn set_override_trace_id_code(&mut self, domain: TraceIdCode)
        ensures
            *final(self) == (SegySettings { override_trace_id_code: Some(domain), ..*old(self) }),
    {
        self.override_trace_id_code = Some(domain);
    }

    /// Overrides the depth units. Not consulted by this library; carried
    /// for consuming applications.
    pub fn set_override_trace_depth_units(&mut self, units: MeasurementSystem)
        ensures
            *final(self) == (SegySettings {
                override_trace_depth_units: Some(units),
                ..*old(self)
            }),
    {
        self.override_trace_depth_units = Some(units);
    }

    /// Overrides the coordinate units.
    pub fn set_override_coordinate_units(&mut self, units: MeasurementSystem)
        ensures
            *final(self) == (SegySettings {
                override_coordinate_units: Some(units),
                ..*old(self)
            }),
    {
        self.override_coordinate_units = Some(units);
    }

    /// Overrides the format the 4-byte coordinate fields are read and
    /// written in. Fails for any format that is not 4 bytes wide, because
    /// the coordinate fields of a trace header occupy exactly 4 bytes.
    pub fn set_override_coordinate_format(&mut self, format: SampleFormatCode) -> (r: Result<
        (),
        RsgError,
    >)
        ensures
            Self::spec_coordinate_format_is_4_byte(format) ==> r is Ok && *final(self) == (
            SegySettings { override_coordinate_format: Some(format), ..*old(self) }),
            !Self::spec_coordinate_format_is_4_byte(format) ==> (r matches Err(
                RsgError::BitConversionError { .. },
            )) && *final(self) == *old(self),
    {
        match format {
            SampleFormatCode::IbmFloat32
            | SampleFormatCode::Float32
            | SampleFormatCode::UInt32
            | SampleFormatCode::Int32 => {
                self.override_coordinate_format = Some(format);
                Ok(())
            },
            _ => Err(RsgError::BitConversionError {
                msg: String::from_str("coordinate format must be 4-byte"),
            }),
        }
    }

    /// Replaces the on-disk coordinate scalar entirely. The trace header
    /// stores the scalar as an `i16`, so any value outside that range is
    /// rejected.
    pub fn set_override_coordinate_scaling(&mut self, scaling: i64) -> (r: Result<(), RsgError>)
        ensures
            i16::MIN <= scaling <= i16::MAX ==> r is Ok && *final(self) == (SegySettings {
                override_coordinate_scaling: Some(scaling as i16),
                ..*old(self)
            }),
            !(i16::MIN <= scaling <= i16::MAX) ==> (r matches Err(
                RsgError::BitConversionError { .. },
            )) && *final(self) == *old(self),
    {
        if scaling >= i16::MIN as i64 && scaling <= i16::MAX as i64 {
            self.override_coordinate_scaling = Some(scaling as i16);
            Ok(())
        } else {
            Err(RsgError::BitConversionError {
                msg: String::from_str("value is outside of the scaling range"),
            })
        }
    }

    /// Sets the byte index the inline number is read from and written to.
    /// Fails when a 4-byte field there would run past the header's end.
    pub fn set_inline_no_bidx(&mut self, bidx: usize) -> (r: Result<(), RsgError>)
        ensures
            bidx + 4 <= TRACE_HEADER_LEN ==> r is Ok && *final(self) == (SegySettings {
                inline_no_bidx: bidx,
                ..*old(self)
            }),
            bidx + 4 > TRACE_HEADER_LEN ==> (r matches Err(RsgError::SEGYSettingsError { .. }))
                && *final(self) == *old(self),
    {
        if bidx > TRACE_HEADER_LEN - 4 {
            return Err(RsgError::SEGYSettingsError {
                msg: String::from_str("maximum permitted index value for trace header"),
            });
        }
        self.inline_no_bidx = bidx;
        Ok(())
    }

    /// Sets the byte index the crossline number is read from and written to.
    pub fn set_crossline_no_bidx(&mut self, bidx: usize) -> (r: Result<(), RsgError>)
        ensures
            bidx + 4 <= TRACE_HEADER_LEN ==> r is Ok && *final(self) == (SegySettings {
                crossline_no_bidx: bidx,
                ..*old(self)
            }),
            bidx + 4 > TRACE_HEADER_LEN ==> (r matches Err(RsgError::SEGYSettingsError { .. }))
                && *final(self) == *old(self),
    {
        if bidx > TRACE_HEADER_LEN - 4 {
            return Err(RsgError::SEGYSettingsError {
                msg: String::from_str("maximum permitted index value for trace header"),
            });
        }
        self.crossline_no_bidx = bidx;
        Ok(())
    }

    /// Sets the byte index the x ensemble coordinate is read from and
    /// written to.
    pub fn set_x_ensemble_bidx(&mut self, bidx: usize) -> (r: Result<(), RsgError>)
        ensures
            bidx + 4 <= TRACE_HEADER_LEN ==> r is Ok && *final(self) == (SegySettings {
                x_ensemble_bidx: bidx,
                ..*old(self)
            }),
            bidx + 4 > TRACE_HEADER_LEN ==> (r matches Err(RsgError::SEGYSettingsError { .. }))
                && *final(self) == *old(self),
    {
        if bidx > TRACE_HEADER_LEN - 4 {
            return Err(RsgError::SEGYSettingsError {
                msg: String::from_str("maximum permitted index value for trace header"),
            });
        }
        self.x_ensemble_bidx = bidx;
        Ok(())
    }

    /// Sets the byte index the y ensemble coordinate is read from and
    /// written to.
    pub fn set_y_ensemble_bidx(&mut self, bidx: usize) -> (r: Result<(), RsgError>)
        ensures
            bidx + 4 <= TRACE_HEADER_LEN ==> r is Ok && *final(self) == (SegySettings {
                y_ensemble_bidx: bidx,
                ..*old(self)
            }),
            bidx + 4 > TRACE_HEADER_LEN ==> (r matches Err(RsgError::SEGYSettingsError { .. }))
                && *final(self) == *old(self),
    {
        if bidx > TRACE_HEADER_LEN - 4 {
            return Err(RsgError::SEGYSettingsError {
                msg: String::from_str("maximum permitted index value for trace header"),
            });
        }
        self.y_ensemble_bidx = bidx;
        Ok(())
    }

    /// Sets the stride for reading trace data.
    pub fn set_step_by(&mut self, step: usize)
        ensures
            *final(self) == (SegySettings { step_by: step, ..*old(self) }),
    {
        self.step_by = step;
    }

    /// Sets the closed inline bounds of the trace filter.
    pub fn set_inlne_min_max(&mut self, min_max: [i32; 2])
        ensures
            *final(self) == (SegySettings { inline_min_max: Some(min_max), ..*old(self) }),
    {
        self.inline_min_max = Some(min_max);
    }

    /// Sets the closed crossline bounds of the trace filter.
    pub fn set_crossline_min_max(&mut self, min_max: [i32; 2])
        ensures
            *final(self) == (SegySettings { crossline_min_max: Some(min_max), ..*old(self) }),
    {
        self.crossline_min_max = Some(min_max);
    }

    /// Sets the grid inline count. A negative count is rejected. Setting
    /// the count also derives crossline bounds of `[0, dim_x - 1]` as a
    /// convenience default; geometries whose true bounds differ should
    /// override them afterwards with [`Self::set_crossline_min_max`].
    pub fn set_override_dim_x(&mut self, dim_x: i32) -> (r: Result<(), RsgError>)
        ensures
            dim_x >= 0 ==> r is Ok && final(self).override_dim_x == Some(dim_x) && (final(
                self).crossline_min_max matches Some(m) && m[0] == 0 && m[1] == dim_x - 1) && *old(self)
                == (SegySettings {
                override_dim_x: old(self).override_dim_x,
                crossline_min_max: old(self).crossline_min_max,
                ..*final(self)
            }),
            dim_x < 0 ==> (r matches Err(RsgError::SEGYSettingsError { .. })) && *final(self)
                == *old(self),
    {
        if dim_x < 0 {
            Err(RsgError::SEGYSettingsError {
                msg: String::from_str("custom x-dimension must not be negative"),
            })
        } else {
            self.override_dim_x = Some(dim_x);
            self.crossline_min_max = Some([0, dim_x - 1]);
            Ok(())
        }
    }

    /// Sets the grid crossline count; the counterpart of
    /// [`Self::set_override_dim_x`], deriving inline bounds instead.
    pub fn set_override_dim_y(&mut self, dim_y: i32) -> (r: Result<(), RsgError>)
        ensures
            dim_y >= 0 ==> r is Ok && final(self).override_dim_y == Some(dim_y) && (final(
                self).inline_min_max matches Some(m) && m[0] == 0 && m[1] == dim_y - 1) && *old(self) == (
            SegySettings {
                override_dim_y: old(self).override_dim_y,
                inline_min_max: old(self).inline_min_max,
                ..*final(self)
            }),
            dim_y < 0 ==> (r matches Err(RsgError::SEGYSettingsError { .. })) && *final(self)
                == *old(self),
    {
        if dim_y < 0 {
            Err(RsgError::SEGYSettingsError {
                msg: String::from_str("custom y-dimension must not be negative"),
            })
        } else {
            self.override_dim_y = Some(dim_y);
            self.inline_min_max = Some([0, dim_y - 1]);
            Ok(())
        }
    }

    /// Sets the sample count (depth) override. A negative count is
    /// rejected.
    pub fn set_override_dim_z(&mut self, dim_z: i32) -> (r: Result<(), RsgError>)
        ensures
            dim_z >= 0 ==> r is Ok && *final(self) == (SegySettings {
                override_dim_z: Some(dim_z),
                ..*old(self)
            }),
            dim_z < 0 ==> (r matches Err(RsgError::SEGYSettingsError { .. })) && *final(self)
                == *old(self),
    {
        if dim_z < 0 {
            Err(RsgError::SEGYSettingsError {
                msg: String::from_str("custom z-dimension must not be negative"),
            })
        } else {
            self.override_dim_z = Some(dim_z);
            Ok(())
        }
    }

    /// Sets the geometry origin, given as double-precision bit patterns.
    pub fn set_origin(&mut self, origin: [u64; 3])
        ensures
            *final(self) == (SegySettings { origin: Some(origin), ..*old(self) }),
    {
        self.origin = Some(origin);
    }

    /// Sets the physical `u` vector, given as double-precision bit
    /// patterns.
    pub fn set_override_u(&mut self, u: [u64; 3])
        ensures
            *final(self) == (SegySettings { override_u: Some(u), ..*old(self) }),
    {
        self.override_u = Some(u);
    }

    /// Sets the physical `v` vector, given as double-precision bit
    /// patterns.
    pub fn set_override_v(&mut self, v: [u64; 3])
        ensures
            *final(self) == (SegySettings { override_v: Some(v), ..*old(self) }),
    {
        self.override_v = Some(v);
    }

    /// Sets the physical sample interval override, given as a
    /// double-precision bit pattern.
    pub fn set_override_sample_interval(&mut self, t: u64)
        ensures
            *final(self) == (SegySettings { override_sample_interval: Some(t), ..*old(self) }),
    {
        self.override_sample_interval = Some(t);
    }

    /// The geometry origin, if set.
    pub fn get_origin(&self) -> (r: Option<[u64; 3]>)
        ensures
            r == self.origin,
    {
        self.origin
    }

    /// The physical `u` vector override, if set.
    pub fn get_override_u(&self) -> (r: Option<[u64; 3]>)
        ensures
            r == self.override_u,
    {
        self.override_u
    }

    /// The physical `v` vector override, if set.
    pub fn get_override_v(&self) -> (r: Option<[u64; 3]>)
        ensures
            r == self.override_v,
    {
        self.override_v
    }

    /// The physical sample interval override, if set.
    pub fn get_override_sample_interval(&self) -> (r: Option<u64>)
        ensures
            r == self.override_sample_interval,
    {
        self.override_sample_interval
    }

    /// The endianness override, if any.
    pub fn get_override_to_le(&self) -> (r: Option<bool>)
        ensures
            r == self.override_to_le,
    {
        self.override_to_le
    }

    /// The trace data format override, if any.
    pub fn get_override_trace_format(&self) -> (r: Option<SampleFormatCode>)
        ensures
            r == self.override_trace_format,
    {
        self.override_trace_format
    }

    /// The coordinate format override, if any.
    pub fn get_override_coordinate_format(&self) -> (r: Option<SampleFormatCode>)
        ensures
            r == self.override_coordinate_format,
    {
        self.override_coordinate_format
    }

    /// The trace identification code override, if any.
    pub fn get_override_trace_id_code(&self) -> (r: Option<TraceIdCode>)
        ensures
            r == self.override_trace_id_code,
    {
        self.override_trace_id_code
    }

    /// The depth unit override, if any.
    pub fn get_override_trace_depth_units(&self) -> (r: Option<MeasurementSystem>)
        ensures
            r == self.override_trace_depth_units,
    {
        self.override_trace_depth_units
    }

    /// The coordinate unit override, if any.
    pub fn get_override_coordinate_units(&self) -> (r: Option<MeasurementSystem>)
        ensures
            r == self.override_coordinate_units,
    {
        self.override_coordinate_units
    }

    /// The coordinate scalar override, if any.
    pub fn get_override_coordinate_scaling(&self) -> (r: Option<i16>)
        ensures
            r == self.override_coordinate_scaling,
    {
        self.override_coordinate_scaling
    }

    /// The byte index of the inline number.
    pub fn get_inline_no_bidx(&self) -> (r: usize)
        ensures
            r == self.inline_no_bidx,
    {
        self.inline_no_bidx
    }

    /// The byte index of the crossline number.
    pub fn get_crossline_no_bidx(&self) -> (r: usize)
        ensures
            r == self.crossline_no_bidx,
    {
        self.crossline_no_bidx
    }

    /// The byte index of the x ensemble coordinate.
    pub fn get_x_ensemble_bidx(&self) -> (r: usize)
        ensures
            r == self.x_ensemble_bidx,
    {
        self.x_ensemble_bidx
    }

    /// The byte index of the y ensemble coordinate.
    pub fn get_y_ensemble_bidx(&self) -> (r: usize)
        ensures
            r == self.y_ensemble_bidx,
    {
        self.y_ensemble_bidx
    }

    /// The stride for reading trace data.
    pub fn get_step_by(&self) -> (r: usize)
        ensures
            r == self.step_by,
    {
        self.step_by
    }

    /// The closed inline bounds of the trace filter, if set.
    pub fn get_inlne_min_max(&self) -> (r: Option<[i32; 2]>)
        ensures
            r == self.inline_min_max,
    {
        self.inline_min_max
    }

    /// The closed crossline bounds of the trace filter, if set.
    pub fn get_crossline_min_max(&self) -> (r: Option<[i32; 2]>)
        ensures
            r == self.crossline_min_max,
    {
        self.crossline_min_max
    }

    /// The grid inline count override, if set.
    pub fn get_override_dim_x(&self) -> (r: Option<i32>)
        ensures
            r == self.override_dim_x,
    {
        self.override_dim_x
    }

    /// The grid crossline count override, if set.
    pub fn get_override_dim_y(&self) -> (r: Option<i32>)
        ensures
            r == self.override_dim_y,
    {
        self.override_dim_y
    }

    /// The sample count override, if set.
    pub fn get_override_dim_z(&self) -> (r: Option<i32>)
        ensures
            r == self.override_dim_z,
    {
        self.override_dim_z
    }

    /// The greatest number of traces the dimension overrides allow. The
    /// setters admit only non-negative dimensions; any other value found
    /// in the public fields leaves the count unbounded.
    pub open spec fn spec_max_trace_count(self) -> usize {
        match (self.override_dim_x, self.override_dim_y) {
            (Some(x), Some(y)) => if x >= 0 && y >= 0 && x * y <= usize::MAX {
                (x * y) as usize
            } else {
                usize::MAX
            },
            _ => usize::MAX,
        }
    }

    /// The greatest number of traces in the geometry: the grid size when
    /// both grid dimensions are overridden, unbounded otherwise.
    pub fn get_max_trace_count_by_override_dimensions(&self) -> (r: usize)
        ensures
            r == self.spec_max_trace_count(),
    {
        match (self.override_dim_x, self.override_dim_y) {
            (Some(x), Some(y)) => {
                if x >= 0 && y >= 0 {
                    proof {
                        assert((x as int) * (y as int) <= 0x7fffffff * 0x7fffffff)
                            by (nonlinear_arith)
                            requires
                                0 <= x <= 0x7fffffff,
                                0 <= y <= 0x7fffffff,
                        ;
                    }
                    let p = (x as u64) * (y as u64);
                    if p <= usize::MAX as u64 {
                        p as usize
                    } else {
                        usize::MAX
                    }
                } else {
                    usize::MAX
                }
            },
            _ => usize::MAX,
        }
    }

    /// The greatest sample count per trace, if the depth is overridden.
    pub fn get_max_trace_length_by_override_dimensions(&self) -> (r: Option<usize>)
        ensures
            match self.override_dim_z {
                Some(z) => r == Some(z as usize),
                None => r is None,
            },
    {
        match self.override_dim_z {
            Some(count) => Some(count as usize),
            None => None,
        }
    }

    /// What the traces of a file are ordered by.
    pub fn get_order_trace_by(&self) -> (r: OrderTraceBy)
        ensures
            r == self.order_trace_by,
    {
        self.order_trace_by
    }

    /// Whether a trace with the given inline and crossline numbers passes
    /// the bounds filter: an axis without configured bounds accepts every
    /// value, and a configured axis accepts exactly its closed range.
    pub open spec fn spec_trace_in_bounds(self, inline: i32, crossline: i32) -> bool {
        &&& match self.inline_min_max {
            Some(m) => m[0] <= inline <= m[1],
            None => true,
        }
        &&& match self.crossline_min_max {
            Some(m) => m[0] <= crossline <= m[1],
            None => true,
        }
    }

    /// Whether a trace with the given inline and crossline numbers is in
    /// bounds. With no bounds configured every trace is; with bounds on
    /// one axis only, the other axis is unconstrained.
    pub fn trace_in_bounds(&self, inline: i32, crossline: i32) -> (r: bool)
        ensures
            r == self.spec_trace_in_bounds(inline, crossline),
    {
        let inline_ok = match self.inline_min_max {
            Some(m) => inline <= m[1] && inline >= m[0],
            None => true,
        };
        let crossline_ok = match self.crossline_min_max {
            Some(m) => crossline <= m[1] && crossline >= m[0],
            None => true,
        };
        inline_ok && crossline_ok
    }
}

impl Default for SegySettings {
    /// The default settings: nothing overridden and the nominal standard
    /// byte locations, which are well formed.
    fn default() -> (r: Self)
        ensures
            r == SegySettings::spec_default(),
            r.wf(),
    {
        SegySettings {
            order_trace_by: OrderTraceBy::Default,
            override_to_le: None,
            override_trace_format: None,
            override_coordinate_format: None,
            override_trace_id_code: None,
            override_trace_depth_units: None,
            override_coordinate_units: None,
            override_coordinate_scaling: None,
            inline_no_bidx: INLINE_BYTE_LOCATION,
            crossline_no_bidx: CROSSLINE_BYTE_LOCATION,
            x_ensemble_bidx: CDPX_BYTE_LOCATION,
            y_ensemble_bidx: CDPY_BYTE_LOCATION,
            step_by: 1,
            inline_min_max: None,
            crossline_min_max: None,
            origin: None,
            override_dim_x: None,
            override_dim_y: None,
            override_dim_z: None,
            override_u: None,
            override_v: None,
            override_sample_interval: None,
        }
    }
}

} // verus!
