//! Encoding of the fixed-size header records into their bytes. Every
//! encoder guarantees that decoding its output under the same settings
//! returns the record it was given, which is the write-then-read
//! round-trip of the library.

use crate::bytes::{put_i16, put_i32, put_u16, put_u32};
use crate::bytes::{spec_i16_at, spec_i32_at, spec_u16_at, spec_u32_at, spec_u32_bytes};
use crate::convert_headers::{
    bin_header_matches, spec_bin_header_parses, spec_coord_at, spec_parse_coord_u32,
    spec_trace_coord_fmt, tape_label_matches, trace_header_matches, trace_header_matches_a,
    trace_header_matches_b, trace_header_matches_c, trace_header_matches_d, spec_digits_value,
    spec_label_block_size, spec_label_pad_len,
};
use crate::enums::{
    CoordinateUnits, Correlated, DataUse, GainType, OverTravel, SampleFormatCode,
    SourceMeasurementUnit, SourceType, SweepType, TaperType, TimeBasisCode, TraceIdCode,
    TraceValueUnit, TransductionUnits,
};
use crate::errors::RsgError;
use crate::fbits::spec_float_bits;
use crate::header_structs::{BinHeader, TapeLabel, TraceHeader};
use crate::settings::SegySettings;
use crate::{BIN_HEADER_LEN, TAPE_LABEL_LEN, TEXT_HEADER_LEN, TRACE_HEADER_LEN};
use vstd::prelude::*;
use vstd::string::StringExecFns;
use vstd::string::StringSliceAdditionalSpecFns;

verus! {

/// A vector of `n` zero bytes.
pub fn zero_vec(n: usize) -> (r: Vec<u8>)
    ensures
        r@.len() == n,
        forall|i: int| 0 <= i < n ==> r@[i] == 0,
{
    let mut out: Vec<u8> = Vec::new();
    let mut i: usize = 0;
    while i < n
        invariant
            0 <= i <= n,
            out@.len() == i,
            forall|j: int| 0 <= j < i ==> out@[j] == 0,
        decreases n - i,
    {
        out.push(0);
        i += 1;
    }
    out
}

/// The 3200-byte serialised text header: the text's bytes, space-padded.
/// A text longer than 3200 bytes does not fit.
pub fn text_header_bytes(header: &str) -> (r: Result<Vec<u8>, RsgError>)
    ensures
        header.spec_bytes().len() > TEXT_HEADER_LEN ==> (r matches Err(
            RsgError::InvalidHeader { .. },
        )),
        header.spec_bytes().len() <= TEXT_HEADER_LEN ==> (r matches Ok(out) && out@.len()
            == TEXT_HEADER_LEN && out@.subrange(0, header.spec_bytes().len() as int)
            == header.spec_bytes() && (forall|i: int|
            header.spec_bytes().len() <= i < TEXT_HEADER_LEN ==> out@[i] == 32)),
{
    let raw = header.as_bytes();
    let n = raw.len();
    if n > TEXT_HEADER_LEN {
        return Err(RsgError::InvalidHeader {
            msg: String::from_str("text header is longer than 3200 bytes"),
        });
    }
    let mut out: Vec<u8> = Vec::new();
    let mut i: usize = 0;
    while i < n
        invariant
            n == raw@.len() <= TEXT_HEADER_LEN,
            0 <= i <= n,
            out@ == raw@.take(i as int),
        decreases n - i,
    {
        out.push(*vstd::slice::slice_index_get(raw, i));
        i += 1;
        proof {
            assert(out@ =~= raw@.take(i as int));
        }
    }
    while out.len() < TEXT_HEADER_LEN
        invariant
            n == raw@.len(),
            n <= out@.len() <= TEXT_HEADER_LEN,
            out@.subrange(0, n as int) == raw@,
            forall|i: int| n <= i < out@.len() ==> out@[i] == 32,
        decreases TEXT_HEADER_LEN - out@.len(),
    {
        out.push(32);
        proof {
            assert(out@.subrange(0, n as int) =~= raw@);
        }
    }
    proof {
        assert(out@.subrange(0, n as int) =~= raw@);
    }
    Ok(out)
}

/// `10^e`.
pub open spec fn pow10(e: nat) -> nat
    decreases e,
{
    if e == 0 {
        1nat
    } else {
        10 * pow10((e - 1) as nat)
    }
}

/// Prefixing a digit multiplies its weight by ten for every digit after
/// it.
proof fn lemma_digits_value_cons(d: u8, s: Seq<u8>)
    requires
        48 <= d <= 57,
        spec_digits_value(s) is Some,
    ensures
        spec_digits_value(seq![d] + s) == Some(
            (d - 48) * pow10(s.len()) + spec_digits_value(s).unwrap(),
        ),
    decreases s.len(),
{
    if s.len() == 0 {
        assert(seq![d] + s =~= seq![d]);
        assert(seq![d].drop_last() =~= Seq::<u8>::empty());
        assert(spec_digits_value(Seq::<u8>::empty()) == Some(0int));
        assert(spec_digits_value(seq![d]) == Some(0 * 10 + (d - 48) as int));
        assert(pow10(s.len()) == 1);
        assert(spec_digits_value(seq![d] + s) == Some(
            (d - 48) * pow10(s.len()) + spec_digits_value(s).unwrap(),
        )) by {
            vstd::arithmetic::mul::lemma_mul_basics((d - 48) as int);
        }
    } else {
        let t = seq![d] + s;
        assert(t.last() == s.last());
        assert(t.drop_last() =~= seq![d] + s.drop_last());
        assert(48 <= s.last() <= 57 && spec_digits_value(s.drop_last()) is Some);
        lemma_digits_value_cons(d, s.drop_last());
        let a = ((d - 48) * pow10((s.len() - 1) as nat)) as int;
        let b = spec_digits_value(s.drop_last()).unwrap();
        assert(spec_digits_value(t) == Some((a + b) * 10 + (s.last() - 48)));
        assert((a + b) * 10 == a * 10 + b * 10) by {
            vstd::arithmetic::mul::lemma_mul_is_distributive_add_other_way(10, a, b);
        }
        assert((d - 48) * pow10(s.len()) == a * 10) by {
            assert(pow10(s.len()) == 10 * pow10((s.len() - 1) as nat));
            vstd::arithmetic::mul::lemma_mul_is_associative(
                (d - 48) as int,
                pow10((s.len() - 1) as nat) as int,
                10,
            );
            vstd::arithmetic::mul::lemma_mul_is_commutative(
                pow10((s.len() - 1) as nat) as int,
                10,
            );
            vstd::arithmetic::mul::lemma_mul_is_commutative(
                (d - 48) as int,
                10 * pow10((s.len() - 1) as nat) as int,
            );
            vstd::arithmetic::mul::lemma_mul_is_associative(
                10,
                (d - 48) as int,
                pow10((s.len() - 1) as nat) as int,
            );
        }
        assert(spec_digits_value(s) == Some(b * 10 + (s.last() - 48)));
        assert(spec_digits_value(seq![d] + s) == Some(
            (d - 48) * pow10(s.len()) + spec_digits_value(s).unwrap(),
        ));
    }
}

/// The ten ASCII digits of `v`, zero-padded: a decimal field that parses
/// back to `v`.
fn emit_decimal_10(v: u32) -> (r: Vec<u8>)
    ensures
        r@.len() == 10,
        forall|i: int| 0 <= i < 10 ==> 48 <= #[trigger] r@[i] <= 57,
        spec_label_block_size(r@) == Some(v),
{
    let mut digits: [u8; 10] = [48; 10];
    let mut rest: u64 = v as u64;
    let mut i: usize = 0;
    proof {
        assert(digits@.skip(10) =~= Seq::<u8>::empty());
        assert(pow10(0) == 1);
        vstd::arithmetic::mul::lemma_mul_basics(rest as int);
    }
    while i < 10
        invariant
            0 <= i <= 10,
            digits@.len() == 10,
            forall|j: int| 0 <= j < 10 ==> 48 <= #[trigger] digits@[j] <= 57,
            spec_digits_value(digits@.skip(10 - i)) == Some((v as int) - rest * pow10(i as nat)),
            rest * pow10(i as nat) <= v,
        decreases 10 - i,
    {
        let ghost before = digits@;
        let ghost old_rest = rest as int;
        let d: u8 = (rest % 10) as u8 + 48;
        digits[9 - i] = d;
        rest = rest / 10;
        proof {
            let ghost suf = before.skip(10 - i);
            assert(digits@.skip(9 - i as int) =~= seq![d] + suf);
            lemma_digits_value_cons(d, suf);
            assert(pow10((i + 1) as nat) == 10 * pow10(i as nat));
            vstd::arithmetic::div_mod::lemma_fundamental_div_mod(old_rest, 10);
            let p = pow10(i as nat) as int;
            assert(old_rest * p == (rest as int) * (10 * p) + ((d - 48) as int) * p) by {
                vstd::arithmetic::mul::lemma_mul_is_distributive_add_other_way(
                    p,
                    10 * (rest as int),
                    (d - 48) as int,
                );
                vstd::arithmetic::mul::lemma_mul_is_associative(10, rest as int, p);
                vstd::arithmetic::mul::lemma_mul_is_commutative(rest as int, 10 * p);
                vstd::arithmetic::mul::lemma_mul_is_commutative(10 * p, rest as int);
                vstd::arithmetic::mul::lemma_mul_is_associative(rest as int, 10, p);
            }
            assert((rest as int) * (10 * p) <= old_rest * p);
        }
        i += 1;
    }
    proof {
        assert(rest == 0) by {
            if rest >= 1 {
                assert(pow10(10) == 10000000000) by {
                    reveal_with_fuel(pow10, 11);
                }
                vstd::arithmetic::mul::lemma_mul_inequality(1, rest as int, pow10(10) as int);
                vstd::arithmetic::mul::lemma_mul_is_commutative(rest as int, pow10(10) as int);
            }
        }
        vstd::arithmetic::mul::lemma_mul_basics(pow10(10) as int);
        assert(digits@.skip(0) =~= digits@);
        assert(spec_digits_value(digits@) == Some(v as int));
        assert(spec_label_pad_len(digits@) == 0);
    }
    let mut out: Vec<u8> = Vec::new();
    let mut k: usize = 0;
    while k < 10
        invariant
            0 <= k <= 10,
            digits@.len() == 10,
            out@ == digits@.take(k as int),
        decreases 10 - k,
    {
        out.push(digits[k]);
        k += 1;
        proof {
            assert(out@ =~= digits@.take(k as int));
        }
    }
    proof {
        assert(out@ =~= digits@);
    }
    out
}

impl TapeLabel {
    /// The 128 serialised bytes of the label: its character fields at
    /// their offsets, the block size as ten zero-padded decimal digits,
    /// and zero in the reserved ranges. Decoding the bytes returns the
    /// label unchanged.
    pub fn as_bytes(&self) -> (r: Result<Vec<u8>, RsgError>)
        ensures
            r matches Ok(out) && out@.len() == TAPE_LABEL_LEN && tape_label_matches(out@, *self),
    {
        let mut out = zero_vec(TAPE_LABEL_LEN);
        copy_into(&mut out, 0, self.storage_unit_seq_no.as_slice());
        copy_into(&mut out, 4, self.segy_revision_no.as_slice());
        copy_into(&mut out, 9, self.storage_unit_structure.as_slice());
        copy_into(&mut out, 15, self.binding_number.as_slice());
        let digits = emit_decimal_10(self.max_block_size);
        copy_into(&mut out, 19, digits.as_slice());
        copy_into(&mut out, 29, self.producing_organisation_code.as_slice());
        copy_into(&mut out, 39, self.creation_date.as_slice());
        copy_into(&mut out, 50, self.serial_number.as_slice());
        copy_into(&mut out, 68, self.external_label.as_slice());
        copy_into(&mut out, 80, self.recording_entity.as_slice());
        copy_into(&mut out, 104, self.extra.as_slice());
        proof {
            assert(out@.subrange(19, 29) =~= digits@);
        }
        Ok(out)
    }
}

/// Overwrites `dest` at `off` with the bytes of `src`.
fn copy_into(dest: &mut Vec<u8>, off: usize, src: &[u8])
    requires
        off + src@.len() <= old(dest)@.len(),
    ensures
        final(dest)@.len() == old(dest)@.len(),
        forall|i: int| 0 <= i < src@.len() ==> final(dest)@[off + i] == src@[i],
        forall|i: int|
            0 <= i < old(dest)@.len() && !(off <= i < off + src@.len()) ==> final(dest)@[i] == old(
                dest,
            )@[i],
{
    let m = src.len();
    let n = dest.len();
    let mut i: usize = 0;
    while i < m
        invariant
            m == src@.len(),
            n == dest@.len() == old(dest)@.len(),
            off + m <= n,
            0 <= i <= m,
            forall|j: int| 0 <= j < i ==> dest@[off + j] == src@[j],
            forall|j: int| 0 <= j < n && !(off <= j < off + m) ==> dest@[j] == old(dest)@[j],
        decreases m - i,
    {
        dest.set(off + i, *vstd::slice::slice_index_get(src, i));
        i += 1;
    }
}

/// Whether a binary header can be written: none of its fallback-coded
/// fields may hold the `Invalid` variant, because `Invalid` has no wire
/// code.
pub open spec fn spec_bin_encodable(h: BinHeader) -> bool {
    &&& !(h.sorting_code is Invalid)
    &&& !(h.sweep_type is Invalid)
    &&& !(h.taper_type is Invalid)
    &&& !(h.correlated_traces is Invalid)
    &&& !(h.binary_gain_recovered is Invalid)
    &&& !(h.amplitude_recovery_method is Invalid)
    &&& !(h.measurement_system is Invalid)
    &&& !(h.impulse_signal_polarity is Invalid)
    &&& !(h.vibratory_polarity_code is Invalid)
    &&& !(h.time_basis_code is Invalid)
}

/// Writes the leading fields of the binary header, bytes 0..32.
fn bin_put_a(out: &mut Vec<u8>, h: &BinHeader, le: bool)
    requires
        old(out)@.len() == BIN_HEADER_LEN,
        !(h.sorting_code is Invalid),
    ensures
        final(out)@.len() == BIN_HEADER_LEN,
        forall|i: int| 0 <= i < BIN_HEADER_LEN && !(0 <= i < 32) ==> final(out)@[i] == old(out)@[i],
        spec_u32_at(final(out)@, 0, le) == h.job_id,
        spec_u32_at(final(out)@, 4, le) == h.line_number,
        spec_u32_at(final(out)@, 8, le) == h.reel_number,
        spec_u16_at(final(out)@, 12, le) == h.no_traces,
        spec_u16_at(final(out)@, 14, le) == h.no_aux_traces,
        spec_u16_at(final(out)@, 16, le) == h.sample_interval,
        spec_u16_at(final(out)@, 18, le) == h.sample_interval_original,
        spec_u16_at(final(out)@, 20, le) == h.no_samples,
        spec_u16_at(final(out)@, 22, le) == h.no_samples_original,
        SampleFormatCode::spec_new(spec_u16_at(final(out)@, 24, le)) == Some(h.sample_format_code),
        spec_u16_at(final(out)@, 26, le) == h.ensemble_fold,
        crate::enums::TraceSortingCode::spec_new(spec_i16_at(final(out)@, 28, le))
            == h.sorting_code,
        spec_u16_at(final(out)@, 30, le) == h.vertical_sum,
{
    put_u32(out, 0, h.job_id, le);
    put_u32(out, 4, h.line_number, le);
    put_u32(out, 8, h.reel_number, le);
    put_u16(out, 12, h.no_traces, le);
    put_u16(out, 14, h.no_aux_traces, le);
    put_u16(out, 16, h.sample_interval, le);
    put_u16(out, 18, h.sample_interval_original, le);
    put_u16(out, 20, h.no_samples, le);
    put_u16(out, 22, h.no_samples_original, le);
    put_u16(out, 24, h.sample_format_code.code(), le);
    put_u16(out, 26, h.ensemble_fold, le);
    put_i16(out, 28, h.sorting_code.code(), le);
    put_u16(out, 30, h.vertical_sum, le);
}

/// Writes the sweep and recovery fields of the binary header, bytes
/// 32..60.
fn bin_put_b(out: &mut Vec<u8>, h: &BinHeader, le: bool)
    requires
        old(out)@.len() == BIN_HEADER_LEN,
        !(h.sweep_type is Invalid),
        !(h.taper_type is Invalid),
        !(h.correlated_traces is Invalid),
        !(h.binary_gain_recovered is Invalid),
        !(h.amplitude_recovery_method is Invalid),
        !(h.measurement_system is Invalid),
        !(h.impulse_signal_polarity is Invalid),
        !(h.vibratory_polarity_code is Invalid),
    ensures
        final(out)@.len() == BIN_HEADER_LEN,
        forall|i: int|
            0 <= i < BIN_HEADER_LEN && !(32 <= i < 60) ==> final(out)@[i] == old(out)@[i],
        spec_u16_at(final(out)@, 32, le) == h.sweep_frequency_start,
        spec_u16_at(final(out)@, 34, le) == h.sweep_frequency_end,
        spec_u16_at(final(out)@, 36, le) == h.sweep_length,
        crate::enums::SweepTypeCode::spec_new(spec_u16_at(final(out)@, 38, le)) == h.sweep_type,
        spec_u16_at(final(out)@, 40, le) == h.sweep_channel_trace_no,
        spec_u16_at(final(out)@, 42, le) == h.sweep_taper_at_start,
        spec_u16_at(final(out)@, 44, le) == h.sweep_taper_at_end,
        crate::enums::TaperType::spec_new(spec_u16_at(final(out)@, 46, le)) == h.taper_type,
        crate::enums::CorrelatedDataTraces::spec_new(spec_u16_at(final(out)@, 48, le))
            == h.correlated_traces,
        crate::enums::BinaryGainRecovered::spec_new(spec_u16_at(final(out)@, 50, le))
            == h.binary_gain_recovered,
        crate::enums::AmplitudeRecoveryMethod::spec_new(spec_u16_at(final(out)@, 52, le))
            == h.amplitude_recovery_method,
        crate::enums::MeasurementSystem::spec_new(spec_u16_at(final(out)@, 54, le))
            == h.measurement_system,
        crate::enums::ImpulseSignalPolarity::spec_new(spec_u16_at(final(out)@, 56, le))
            == h.impulse_signal_polarity,
        crate::enums::VibratoryPolarityCode::spec_new(spec_u16_at(final(out)@, 58, le))
            == h.vibratory_polarity_code,
{
    put_u16(out, 32, h.sweep_frequency_start, le);
    put_u16(out, 34, h.sweep_frequency_end, le);
    put_u16(out, 36, h.sweep_length, le);
    put_u16(out, 38, h.sweep_type.code(), le);
    put_u16(out, 40, h.sweep_channel_trace_no, le);
    put_u16(out, 42, h.sweep_taper_at_start, le);
    put_u16(out, 44, h.sweep_taper_at_end, le);
    put_u16(out, 46, h.taper_type.code(), le);
    put_u16(out, 48, h.correlated_traces.code(), le);
    put_u16(out, 50, h.binary_gain_recovered.code(), le);
    put_u16(out, 52, h.amplitude_recovery_method.code(), le);
    put_u16(out, 54, h.measurement_system.code(), le);
    put_u16(out, 56, h.impulse_signal_polarity.code(), le);
    put_u16(out, 58, h.vibratory_polarity_code.code(), le);
}

/// Writes the endianness marker and the revision block of the binary
/// header: bytes 96..100 and 300..312.
fn bin_put_c(out: &mut Vec<u8>, h: &BinHeader, le: bool)
    requires
        old(out)@.len() == BIN_HEADER_LEN,
        !(h.time_basis_code is Invalid),
    ensures
        final(out)@.len() == BIN_HEADER_LEN,
        forall|i: int|
            0 <= i < BIN_HEADER_LEN && !(96 <= i < 100) && !(300 <= i < 312) ==> final(out)@[i]
                == old(out)@[i],
        final(out)@[304] == old(out)@[304],
        final(out)@[305] == old(out)@[305],
        final(out)@[96] == (if le {
            1u8
        } else {
            4u8
        }),
        final(out)@[97] == (if le {
            2u8
        } else {
            3u8
        }),
        final(out)@[98] == (if le {
            3u8
        } else {
            2u8
        }),
        final(out)@[99] == (if le {
            4u8
        } else {
            1u8
        }),
        final(out)@[300] == h.segy_revision_number[0],
        final(out)@[301] == h.segy_revision_number[1],
        crate::enums::FixedLengthTraces::spec_new(spec_u16_at(final(out)@, 302, le)) == Some(
            h.fixed_length_trace_flag,
        ),
        spec_u32_at(final(out)@, 306, le) == h.extended_header_count,
        crate::enums::TimeBasisCode::spec_new(spec_u16_at(final(out)@, 310, le))
            == h.time_basis_code,
{
    let n = out.len();
    if le {
        out.set(96, 1);
        out.set(97, 2);
        out.set(98, 3);
        out.set(99, 4);
    } else {
        out.set(96, 4);
        out.set(97, 3);
        out.set(98, 2);
        out.set(99, 1);
    }
    out.set(300, h.segy_revision_number[0]);
    out.set(301, h.segy_revision_number[1]);
    put_u16(out, 302, h.fixed_length_trace_flag.code(), le);
    put_u32(out, 306, h.extended_header_count, le);
    put_u16(out, 310, h.time_basis_code.code(), le);
}

impl BinHeader {
    /// The 400 serialised bytes of the header: every field at its
    /// nominal offset, the endianness marker at bytes 96..100, and zero
    /// elsewhere. Decoding the bytes under default settings returns the
    /// header unchanged.
    #[verifier::rlimit(100)]
    #[verifier::spinoff_prover]
    pub fn as_bytes(&self) -> (r: Result<Vec<u8>, RsgError>)
        ensures
            !spec_bin_encodable(*self) ==> (r matches Err(RsgError::InvalidHeader { .. })),
            spec_bin_encodable(*self) ==> (r matches Ok(out) && out@.len() == BIN_HEADER_LEN
                && spec_bin_header_parses(out@, SegySettings::spec_default())
                && bin_header_matches(out@, SegySettings::spec_default(), *self) && out@[96] == (
            if self.binary_flag_direction_is_le {
                1u8
            } else {
                4u8
            }) && out@[97] == (
            if self.binary_flag_direction_is_le {
                2u8
            } else {
                3u8
            }) && out@[98] == (
            if self.binary_flag_direction_is_le {
                3u8
            } else {
                2u8
            }) && out@[99] == (
            if self.binary_flag_direction_is_le {
                4u8
            } else {
                1u8
            }) && (forall|i: int|
                60 <= i < 96 || 100 <= i < 300 || 304 <= i < 306 || 312 <= i < 400
                    ==> #[trigger] out@[i] == 0)),
    {
        if self.sorting_code.clone() == crate::enums::TraceSortingCode::Invalid
            || self.sweep_type.clone() == crate::enums::SweepTypeCode::Invalid
            || self.taper_type.clone() == crate::enums::TaperType::Invalid
            || self.correlated_traces.clone() == crate::enums::CorrelatedDataTraces::Invalid
            || self.binary_gain_recovered.clone() == crate::enums::BinaryGainRecovered::Invalid
            || self.amplitude_recovery_method.clone()
            == crate::enums::AmplitudeRecoveryMethod::Invalid || self.measurement_system.clone()
            == crate::enums::MeasurementSystem::Invalid || self.impulse_signal_polarity.clone()
            == crate::enums::ImpulseSignalPolarity::Invalid || self.vibratory_polarity_code.clone()
            == crate::enums::VibratoryPolarityCode::Invalid || self.time_basis_code.clone()
            == crate::enums::TimeBasisCode::Invalid {
            return Err(RsgError::InvalidHeader {
                msg: String::from_str("a coded field holds no writable value"),
            });
        }
        let le = self.binary_flag_direction_is_le;
        let mut out = zero_vec(BIN_HEADER_LEN);
        let ghost z = out@;
        bin_put_a(&mut out, self, le);
        let ghost after_a = out@;
        bin_put_b(&mut out, self, le);
        let ghost after_b = out@;
        bin_put_c(&mut out, self, le);
        proof {
            assert forall|i: int|
                60 <= i < 96 || 100 <= i < 300 || 304 <= i < 306 || 312 <= i < 400 implies
                #[trigger] out@[i] == 0 by {
                assert(out@[i] == after_b[i]);
                assert(after_b[i] == after_a[i]);
                assert(after_a[i] == z[i]);
            }
        }
        Ok(out)
    }
}

/// Whether a single coordinate value can be written in a coordinate
/// format: 4-byte signed always, unsigned only when non-negative,
/// single-precision always (rounding), and the IBM float never.
pub open spec fn spec_coord_encodable(v: i32, fmt: SampleFormatCode) -> bool {
    fmt is Int32 || fmt is Float32 || (fmt is UInt32 && v >= 0)
}

/// The 4 bytes a coordinate value is written as in a coordinate format.
#[verifier::opaque]
pub open spec fn spec_coord_bytes(v: i32, fmt: SampleFormatCode, le: bool) -> Option<Seq<u8>> {
    match fmt {
        SampleFormatCode::Int32 => Some(spec_u32_bytes(v as u32, le)),
        SampleFormatCode::UInt32 => if v >= 0 {
            Some(spec_u32_bytes(v as u32, le))
        } else {
            None
        },
        SampleFormatCode::Float32 => Some(
            spec_u32_bytes(
                spec_float_bits(
                    v < 0,
                    if v < 0 {
                        (-(v as int)) as nat
                    } else {
                        v as nat
                    },
                    0,
                    23,
                    127,
                    31,
                ) as u32,
                le,
            ),
        ),
        _ => None,
    }
}

/// Law: a coordinate written in the default 4-byte signed format, or as
/// an unsigned word when it is non-negative, reads back as exactly the
/// value written. Together with the header codec contracts this is the
/// geometry round-trip of the write-then-read path.
pub proof fn lemma_coord_roundtrip_at(bytes: Seq<u8>, off: int, v: i32, fmt: SampleFormatCode, le: bool)
    requires
        0 <= off,
        off + 4 <= bytes.len(),
        fmt is Int32 || (fmt is UInt32 && v >= 0),
        spec_coord_bytes(v, fmt, le) is Some,
        bytes.subrange(off, off + 4) == spec_coord_bytes(v, fmt, le).unwrap(),
    ensures
        spec_coord_at(bytes, off, fmt, le) == Some(v),
{
    reveal(spec_parse_coord_u32);
    reveal(spec_coord_bytes);
    crate::bytes::lemma_u32_bytes_roundtrip(v as u32, le);
    let sub = bytes.subrange(off, off + 4);
    assert(bytes[off] == sub[0]);
    assert(bytes[off + 1] == sub[1]);
    assert(bytes[off + 2] == sub[2]);
    assert(bytes[off + 3] == sub[3]);
    assert(spec_u32_at(bytes, off, le) == spec_u32_at(sub, 0, le));
    let w: u32 = v as u32;
    assert((w as i32) == v) by (bit_vector)
        requires
            w == v as u32,
    ;
    if fmt is UInt32 {
        assert(w <= 0x7fffffff) by (bit_vector)
            requires
                w == v as u32 && v >= 0i32,
        ;
    }
}

/// Writes a coordinate value in the coordinate format.
fn emit_coord(v: i32, fmt: SampleFormatCode, le: bool) -> (r: Vec<u8>)
    requires
        spec_coord_encodable(v, fmt),
    ensures
        spec_coord_bytes(v, fmt, le) matches Some(b) && r@ == b,
        r@.len() == 4,
{
    proof {
        reveal(spec_coord_bytes);
        broadcast use crate::bytes::lemma_u32_bytes_roundtrip;
    }
    match fmt {
        SampleFormatCode::Float32 => {
            let (neg, mag): (bool, u64) = if v < 0 {
                (true, (-(v as i64)) as u64)
            } else {
                (false, v as u64)
            };
            crate::bytes::emit_u32(crate::fbits::int_to_f32_bits(neg, mag), le)
        },
        _ => crate::bytes::emit_u32(v as u32, le),
    }
}

/// The nominal layout of bytes 0..36 of a serialised trace header:
/// the leading sequence and identification fields at their standard offsets, whatever byte indices the settings
/// give the geometry fields.
#[verifier::opaque]
pub open spec fn th_nominal_head(bytes: Seq<u8>, h: TraceHeader, le: bool) -> bool {
    &&& spec_i32_at(bytes, 0, le) == h.trace_sequence_on_line
    &&& spec_i32_at(bytes, 4, le) == h.trace_sequence_in_file
    &&& spec_i32_at(bytes, 8, le) == h.field_record_no
    &&& spec_i32_at(bytes, 12, le) == h.trace_no
    &&& spec_i32_at(bytes, 16, le) == h.energy_source_point_no
    &&& spec_i32_at(bytes, 20, le) == h.ensemble_no
    &&& spec_i32_at(bytes, 24, le) == h.trace_no_in_ensemble
    &&& TraceIdCode::spec_new(spec_i16_at(bytes, 28, le)) == h.trace_identification_code
    &&& spec_u16_at(bytes, 30, le) == h.no_v_summed_traces
    &&& spec_u16_at(bytes, 32, le) == h.no_h_stacked_traces
    &&& DataUse::spec_new(spec_u16_at(bytes, 34, le)) == h.data_use
}

/// The nominal layout of bytes 36..88 of a serialised trace header:
/// the coordinate-format fields and the two scalars at their standard offsets, whatever byte indices the settings
/// give the geometry fields.
#[verifier::opaque]
pub open spec fn th_nominal_coords(bytes: Seq<u8>, h: TraceHeader, fmt: SampleFormatCode, le: bool) -> bool {
    &&& spec_coord_bytes(h.source_to_receiver_distance, fmt, le) is Some
    &&& bytes.subrange(36, 40) == spec_coord_bytes(h.source_to_receiver_distance, fmt, le).unwrap()
    &&& spec_coord_bytes(h.elevation_of_receiver_group, fmt, le) is Some
    &&& bytes.subrange(40, 44) == spec_coord_bytes(h.elevation_of_receiver_group, fmt, le).unwrap()
    &&& spec_coord_bytes(h.surface_elevation_of_source, fmt, le) is Some
    &&& bytes.subrange(44, 48) == spec_coord_bytes(h.surface_elevation_of_source, fmt, le).unwrap()
    &&& spec_coord_bytes(h.source_depth, fmt, le) is Some
    &&& bytes.subrange(48, 52) == spec_coord_bytes(h.source_depth, fmt, le).unwrap()
    &&& spec_coord_bytes(h.datum_elevation_of_receiver_group, fmt, le) is Some
    &&& bytes.subrange(52, 56) == spec_coord_bytes(h.datum_elevation_of_receiver_group, fmt, le).unwrap()
    &&& spec_coord_bytes(h.datum_elevation_of_source, fmt, le) is Some
    &&& bytes.subrange(56, 60) == spec_coord_bytes(h.datum_elevation_of_source, fmt, le).unwrap()
    &&& spec_coord_bytes(h.water_column_height_at_source, fmt, le) is Some
    &&& bytes.subrange(60, 64) == spec_coord_bytes(h.water_column_height_at_source, fmt, le).unwrap()
    &&& spec_coord_bytes(h.water_column_height_at_group, fmt, le) is Some
    &&& bytes.subrange(64, 68) == spec_coord_bytes(h.water_column_height_at_group, fmt, le).unwrap()
    &&& spec_i16_at(bytes, 68, le) == h.elevation_scalar
    &&& spec_i16_at(bytes, 70, le) == h.coordinate_scalar
    &&& spec_coord_bytes(h.source_x, fmt, le) is Some
    &&& bytes.subrange(72, 76) == spec_coord_bytes(h.source_x, fmt, le).unwrap()
    &&& spec_coord_bytes(h.source_y, fmt, le) is Some
    &&& bytes.subrange(76, 80) == spec_coord_bytes(h.source_y, fmt, le).unwrap()
    &&& spec_coord_bytes(h.receiver_group_x, fmt, le) is Some
    &&& bytes.subrange(80, 84) == spec_coord_bytes(h.receiver_group_x, fmt, le).unwrap()
    &&& spec_coord_bytes(h.receiver_group_y, fmt, le) is Some
    &&& bytes.subrange(84, 88) == spec_coord_bytes(h.receiver_group_y, fmt, le).unwrap()
}

/// The nominal layout of bytes 88..134 of a serialised trace header:
/// the velocity, timing and gain fields at their standard offsets, whatever byte indices the settings
/// give the geometry fields.
#[verifier::opaque]
pub open spec fn th_nominal_mid(bytes: Seq<u8>, h: TraceHeader, le: bool) -> bool {
    &&& CoordinateUnits::spec_new(spec_u16_at(bytes, 88, le)) == h.coordinate_units
    &&& spec_u16_at(bytes, 90, le) == h.weathing_velocity
    &&& spec_u16_at(bytes, 92, le) == h.sub_weathering_velocity
    &&& spec_u16_at(bytes, 94, le) == h.uphole_time_at_source
    &&& spec_u16_at(bytes, 96, le) == h.uphole_time_at_group
    &&& spec_u16_at(bytes, 98, le) == h.source_static_correction
    &&& spec_u16_at(bytes, 100, le) == h.group_static_correction
    &&& spec_u16_at(bytes, 102, le) == h.total_static_applied
    &&& spec_u16_at(bytes, 104, le) == h.lag_time_a
    &&& spec_u16_at(bytes, 106, le) == h.lag_time_b
    &&& spec_u16_at(bytes, 108, le) == h.delay_recording_time
    &&& spec_u16_at(bytes, 110, le) == h.mute_time_start
    &&& spec_u16_at(bytes, 112, le) == h.mute_time_end
    &&& spec_u16_at(bytes, 114, le) == h.no_samples_in_trace
    &&& spec_u16_at(bytes, 116, le) == h.sample_interval_of_trace
    &&& GainType::spec_new(spec_u16_at(bytes, 118, le)) == h.gain_type
    &&& spec_u16_at(bytes, 120, le) == h.instrument_gain_constant
    &&& spec_u16_at(bytes, 122, le) == h.instrument_initial_gain
    &&& Correlated::spec_new(spec_u16_at(bytes, 124, le)) == h.correlated
    &&& spec_u16_at(bytes, 126, le) == h.sweep_frequency_at_start
    &&& spec_u16_at(bytes, 128, le) == h.sweep_frequency_at_end
    &&& spec_u16_at(bytes, 130, le) == h.sweep_length
    &&& SweepType::spec_new(spec_u16_at(bytes, 132, le)) == h.sweep_type
}

/// The nominal layout of bytes 134..180 of a serialised trace header:
/// the taper, filter, date and geophone fields at their standard offsets, whatever byte indices the settings
/// give the geometry fields.
#[verifier::opaque]
pub open spec fn th_nominal_late(bytes: Seq<u8>, h: TraceHeader, le: bool) -> bool {
    &&& spec_u16_at(bytes, 134, le) == h.sweep_trace_taper_length_at_start
    &&& spec_u16_at(bytes, 136, le) == h.sweep_trace_taper_length_at_end
    &&& TaperType::spec_new(spec_u16_at(bytes, 138, le)) == h.taper_type
    &&& spec_u16_at(bytes, 140, le) == h.alias_filter_frequency
    &&& spec_u16_at(bytes, 142, le) == h.alias_filter_slope
    &&& spec_u16_at(bytes, 144, le) == h.notch_filter_frequency
    &&& spec_u16_at(bytes, 146, le) == h.notch_filter_slope
    &&& spec_u16_at(bytes, 148, le) == h.low_cut_frequency
    &&& spec_u16_at(bytes, 150, le) == h.high_cut_frequency
    &&& spec_u16_at(bytes, 152, le) == h.low_cut_slope
    &&& spec_u16_at(bytes, 154, le) == h.high_cut_slope
    &&& spec_u16_at(bytes, 156, le) == h.year_recorded
    &&& spec_u16_at(bytes, 158, le) == h.day_of_year
    &&& spec_u16_at(bytes, 160, le) == h.hour_of_day
    &&& spec_u16_at(bytes, 162, le) == h.minute_of_hour
    &&& spec_u16_at(bytes, 164, le) == h.second_of_minute
    &&& TimeBasisCode::spec_new(spec_u16_at(bytes, 166, le)) == h.time_base_code
    &&& spec_u16_at(bytes, 168, le) == h.trace_weighting_factor
    &&& spec_u16_at(bytes, 170, le) == h.geophone_group_number_roll_pos1
    &&& spec_u16_at(bytes, 172, le) == h.geophone_group_number_first_trace_orig_field
    &&& spec_u16_at(bytes, 174, le) == h.geophone_group_number_last_trace_orig_field
    &&& spec_u16_at(bytes, 176, le) == h.gap_size
    &&& OverTravel::spec_new(spec_u16_at(bytes, 178, le)) == h.over_travel
}

/// The nominal layout of bytes 196..232 of a serialised trace header:
/// the shot-point, transduction and source fields at their standard offsets, whatever byte indices the settings
/// give the geometry fields.
#[verifier::opaque]
pub open spec fn th_nominal_tail(bytes: Seq<u8>, h: TraceHeader, le: bool) -> bool {
    &&& spec_i32_at(bytes, 196, le) == h.shot_point_no
    &&& spec_u16_at(bytes, 200, le) == h.shot_point_scalar
    &&& TraceValueUnit::spec_new(spec_i16_at(bytes, 202, le)) == h.trace_value_measurement_unit
    &&& spec_i32_at(bytes, 204, le) == h.transduction_constant_mantissa
    &&& spec_u16_at(bytes, 208, le) == h.transduction_constant_power
    &&& TransductionUnits::spec_new(spec_i16_at(bytes, 210, le)) == h.transduction_units
    &&& spec_u16_at(bytes, 212, le) == h.trace_identifier
    &&& spec_u16_at(bytes, 214, le) == h.time_scalar_trace_header
    &&& SourceType::spec_new(spec_i16_at(bytes, 216, le)) == h.source_type
    &&& spec_u16_at(bytes, 218, le) == h.source_energy_direction_v
    &&& spec_u16_at(bytes, 220, le) == h.source_energy_direction_il
    &&& spec_u16_at(bytes, 222, le) == h.source_energy_direction_xl
    &&& spec_i32_at(bytes, 224, le) == h.source_measurement_mantissa
    &&& spec_u16_at(bytes, 228, le) == h.source_measurement_exponent
    &&& SourceMeasurementUnit::spec_new(spec_i16_at(bytes, 230, le)) == h.source_measurement_unit
}

/// The nominal layout of bytes 232..240 of a serialised trace header:
/// the trace name, reversed for a big-endian file.
#[verifier::opaque]
pub open spec fn th_nominal_name(bytes: Seq<u8>, h: TraceHeader, le: bool) -> bool {
    forall|i: int|
        0 <= i < 8 ==> h.trace_name@[i] == (if le {
            bytes[232 + i]
        } else {
            bytes[239 - i]
        })
}

/// Whether every configured geometry range misses the byte region
/// `lo..hi`: the condition under which the final geometry pass leaves
/// the region's nominal content standing.
pub open spec fn spec_ranges_avoid(s: SegySettings, lo: int, hi: int) -> bool {
    &&& (s.x_ensemble_bidx + 4 <= lo || s.x_ensemble_bidx >= hi)
    &&& (s.y_ensemble_bidx + 4 <= lo || s.y_ensemble_bidx >= hi)
    &&& (s.inline_no_bidx + 4 <= lo || s.inline_no_bidx >= hi)
    &&& (s.crossline_no_bidx + 4 <= lo || s.crossline_no_bidx >= hi)
}

/// Bytes 0..36 carry their nominal content over to any buffer that
/// agrees with them there.
proof fn lemma_th_nominal_head_transfer(out: Seq<u8>, base: Seq<u8>, h: TraceHeader, le: bool)
    requires
        out.len() >= 36,
        base.len() >= 36,
        forall|i: int| 0 <= i < 36 ==> out[i] == base[i],
        th_nominal_head(base, h, le),
    ensures
        th_nominal_head(out, h, le),
{
    reveal(th_nominal_head);
}

/// Bytes 36..88 carry their nominal content over to any buffer that
/// agrees with them there.
proof fn lemma_th_nominal_coords_transfer(out: Seq<u8>, base: Seq<u8>, h: TraceHeader, fmt: SampleFormatCode, le: bool)
    requires
        out.len() >= 88,
        base.len() >= 88,
        forall|i: int| 36 <= i < 88 ==> out[i] == base[i],
        th_nominal_coords(base, h, fmt, le),
    ensures
        th_nominal_coords(out, h, fmt, le),
{
    reveal(th_nominal_coords);
    assert(out.subrange(36, 40) =~= base.subrange(36, 40));
    assert(out.subrange(40, 44) =~= base.subrange(40, 44));
    assert(out.subrange(44, 48) =~= base.subrange(44, 48));
    assert(out.subrange(48, 52) =~= base.subrange(48, 52));
    assert(out.subrange(52, 56) =~= base.subrange(52, 56));
    assert(out.subrange(56, 60) =~= base.subrange(56, 60));
    assert(out.subrange(60, 64) =~= base.subrange(60, 64));
    assert(out.subrange(64, 68) =~= base.subrange(64, 68));
    assert(out.subrange(72, 76) =~= base.subrange(72, 76));
    assert(out.subrange(76, 80) =~= base.subrange(76, 80));
    assert(out.subrange(80, 84) =~= base.subrange(80, 84));
    assert(out.subrange(84, 88) =~= base.subrange(84, 88));
}

/// Bytes 88..134 carry their nominal content over to any buffer that
/// agrees with them there.
proof fn lemma_th_nominal_mid_transfer(out: Seq<u8>, base: Seq<u8>, h: TraceHeader, le: bool)
    requires
        out.len() >= 134,
        base.len() >= 134,
        forall|i: int| 88 <= i < 134 ==> out[i] == base[i],
        th_nominal_mid(base, h, le),
    ensures
        th_nominal_mid(out, h, le),
{
    reveal(th_nominal_mid);
}

/// Bytes 134..180 carry their nominal content over to any buffer that
/// agrees with them there.
proof fn lemma_th_nominal_late_transfer(out: Seq<u8>, base: Seq<u8>, h: TraceHeader, le: bool)
    requires
        out.len() >= 180,
        base.len() >= 180,
        forall|i: int| 134 <= i < 180 ==> out[i] == base[i],
        th_nominal_late(base, h, le),
    ensures
        th_nominal_late(out, h, le),
{
    reveal(th_nominal_late);
}

/// Bytes 196..232 carry their nominal content over to any buffer that
/// agrees with them there.
proof fn lemma_th_nominal_tail_transfer(out: Seq<u8>, base: Seq<u8>, h: TraceHeader, le: bool)
    requires
        out.len() >= 232,
        base.len() >= 232,
        forall|i: int| 196 <= i < 232 ==> out[i] == base[i],
        th_nominal_tail(base, h, le),
    ensures
        th_nominal_tail(out, h, le),
{
    reveal(th_nominal_tail);
}

/// Bytes 232..240 carry their nominal content over to any buffer that
/// agrees with them there.
proof fn lemma_th_nominal_name_transfer(out: Seq<u8>, base: Seq<u8>, h: TraceHeader, le: bool)
    requires
        out.len() >= 240,
        base.len() >= 240,
        forall|i: int| 232 <= i < 240 ==> out[i] == base[i],
        th_nominal_name(base, h, le),
    ensures
        th_nominal_name(out, h, le),
{
    reveal(th_nominal_name);
}

/// Whether every coded field of a trace header has a wire code.
pub open spec fn spec_th_enums_ok(h: TraceHeader) -> bool {
    &&& !(h.trace_identification_code is Invalid)
    &&& !(h.data_use is Invalid)
    &&& !(h.coordinate_units is Invalid)
    &&& !(h.gain_type is Invalid)
    &&& !(h.correlated is Invalid)
    &&& !(h.sweep_type is Invalid)
    &&& !(h.taper_type is Invalid)
    &&& !(h.time_base_code is Invalid)
    &&& !(h.over_travel is Invalid)
    &&& !(h.trace_value_measurement_unit is Invalid)
    &&& !(h.transduction_units is Invalid)
    &&& !(h.source_type is Invalid)
    &&& !(h.source_measurement_unit is Invalid)
}

/// Whether every coordinate field of the header can be written in the
/// coordinate format.
pub open spec fn spec_th_coords_ok(h: TraceHeader, fmt: SampleFormatCode) -> bool {
    &&& spec_coord_encodable(h.source_to_receiver_distance, fmt)
    &&& spec_coord_encodable(h.elevation_of_receiver_group, fmt)
    &&& spec_coord_encodable(h.surface_elevation_of_source, fmt)
    &&& spec_coord_encodable(h.source_depth, fmt)
    &&& spec_coord_encodable(h.datum_elevation_of_receiver_group, fmt)
    &&& spec_coord_encodable(h.datum_elevation_of_source, fmt)
    &&& spec_coord_encodable(h.water_column_height_at_source, fmt)
    &&& spec_coord_encodable(h.water_column_height_at_group, fmt)
    &&& spec_coord_encodable(h.source_x, fmt)
    &&& spec_coord_encodable(h.source_y, fmt)
    &&& spec_coord_encodable(h.receiver_group_x, fmt)
    &&& spec_coord_encodable(h.receiver_group_y, fmt)
    &&& spec_coord_encodable(h.x_ensemble, fmt)
    &&& spec_coord_encodable(h.y_ensemble, fmt)
}

/// Settings under which writing and reading a trace header is an exact
/// round trip: the nominal geometry offsets and no override that would
/// replace a stored field on the way back in.
pub open spec fn spec_roundtrip_settings(s: SegySettings) -> bool {
    &&& s.inline_no_bidx == crate::INLINE_BYTE_LOCATION
    &&& s.crossline_no_bidx == crate::CROSSLINE_BYTE_LOCATION
    &&& s.x_ensemble_bidx == crate::CDPX_BYTE_LOCATION
    &&& s.y_ensemble_bidx == crate::CDPY_BYTE_LOCATION
    &&& s.override_coordinate_format is None
    &&& s.override_trace_id_code is None
    &&& s.override_coordinate_scaling is None
    &&& s.override_dim_x is None
}

/// Whether two 4-byte fields at the given byte indices do not overlap.
pub open spec fn spec_ranges_disjoint(a: usize, b: usize) -> bool {
    a + 4 <= b || b + 4 <= a
}

/// Writes the trace header fields at bytes 0..36.
fn th_put_a(out: &mut Vec<u8>, h: &TraceHeader, le: bool)
    requires
        old(out)@.len() == TRACE_HEADER_LEN,
        !(h.trace_identification_code is Invalid),
        !(h.data_use is Invalid),
    ensures
        final(out)@.len() == TRACE_HEADER_LEN,
        forall|i: int|
            0 <= i < TRACE_HEADER_LEN && !(0 <= i < 36) ==> final(out)@[i] == old(out)@[i],
        spec_i32_at(final(out)@, 0, le) == h.trace_sequence_on_line,
        spec_i32_at(final(out)@, 4, le) == h.trace_sequence_in_file,
        spec_i32_at(final(out)@, 8, le) == h.field_record_no,
        spec_i32_at(final(out)@, 12, le) == h.trace_no,
        spec_i32_at(final(out)@, 16, le) == h.energy_source_point_no,
        spec_i32_at(final(out)@, 20, le) == h.ensemble_no,
        spec_i32_at(final(out)@, 24, le) == h.trace_no_in_ensemble,
        TraceIdCode::spec_new(spec_i16_at(final(out)@, 28, le)) == h.trace_identification_code,
        spec_u16_at(final(out)@, 30, le) == h.no_v_summed_traces,
        spec_u16_at(final(out)@, 32, le) == h.no_h_stacked_traces,
        DataUse::spec_new(spec_u16_at(final(out)@, 34, le)) == h.data_use,
        th_nominal_head(final(out)@, *h, le),
{
    put_i32(out, 0, h.trace_sequence_on_line, le);
    put_i32(out, 4, h.trace_sequence_in_file, le);
    put_i32(out, 8, h.field_record_no, le);
    put_i32(out, 12, h.trace_no, le);
    put_i32(out, 16, h.energy_source_point_no, le);
    put_i32(out, 20, h.ensemble_no, le);
    put_i32(out, 24, h.trace_no_in_ensemble, le);
    put_i16(out, 28, h.trace_identification_code.code(), le);
    put_u16(out, 30, h.no_v_summed_traces, le);
    put_u16(out, 32, h.no_h_stacked_traces, le);
    put_u16(out, 34, h.data_use.code(), le);
    proof {
        assert(th_nominal_head(out@, *h, le)) by {
            reveal(th_nominal_head);
        }
    }
}

/// Writes the trace header fields at bytes 36..88.
fn th_put_coords1(out: &mut Vec<u8>, h: &TraceHeader, fmt: SampleFormatCode, le: bool)
    requires
        old(out)@.len() == TRACE_HEADER_LEN,
        spec_coord_encodable(h.source_to_receiver_distance, fmt),
        spec_coord_encodable(h.elevation_of_receiver_group, fmt),
        spec_coord_encodable(h.surface_elevation_of_source, fmt),
        spec_coord_encodable(h.source_depth, fmt),
        spec_coord_encodable(h.datum_elevation_of_receiver_group, fmt),
        spec_coord_encodable(h.datum_elevation_of_source, fmt),
        spec_coord_encodable(h.water_column_height_at_source, fmt),
        spec_coord_encodable(h.water_column_height_at_group, fmt),
        spec_coord_encodable(h.source_x, fmt),
        spec_coord_encodable(h.source_y, fmt),
        spec_coord_encodable(h.receiver_group_x, fmt),
        spec_coord_encodable(h.receiver_group_y, fmt),
    ensures
        final(out)@.len() == TRACE_HEADER_LEN,
        forall|i: int|
            0 <= i < TRACE_HEADER_LEN && !(36 <= i < 88) ==> final(out)@[i] == old(out)@[i],
        final(out)@.subrange(36, 40) == spec_coord_bytes(h.source_to_receiver_distance, fmt, le).unwrap() && spec_coord_bytes(h.source_to_receiver_distance, fmt, le) is Some,
        final(out)@.subrange(40, 44) == spec_coord_bytes(h.elevation_of_receiver_group, fmt, le).unwrap() && spec_coord_bytes(h.elevation_of_receiver_group, fmt, le) is Some,
        final(out)@.subrange(44, 48) == spec_coord_bytes(h.surface_elevation_of_source, fmt, le).unwrap() && spec_coord_bytes(h.surface_elevation_of_source, fmt, le) is Some,
        final(out)@.subrange(48, 52) == spec_coord_bytes(h.source_depth, fmt, le).unwrap() && spec_coord_bytes(h.source_depth, fmt, le) is Some,
        final(out)@.subrange(52, 56) == spec_coord_bytes(h.datum_elevation_of_receiver_group, fmt, le).unwrap() && spec_coord_bytes(h.datum_elevation_of_receiver_group, fmt, le) is Some,
        final(out)@.subrange(56, 60) == spec_coord_bytes(h.datum_elevation_of_source, fmt, le).unwrap() && spec_coord_bytes(h.datum_elevation_of_source, fmt, le) is Some,
        final(out)@.subrange(60, 64) == spec_coord_bytes(h.water_column_height_at_source, fmt, le).unwrap() && spec_coord_bytes(h.water_column_height_at_source, fmt, le) is Some,
        final(out)@.subrange(64, 68) == spec_coord_bytes(h.water_column_height_at_group, fmt, le).unwrap() && spec_coord_bytes(h.water_column_height_at_group, fmt, le) is Some,
        spec_i16_at(final(out)@, 68, le) == h.elevation_scalar,
        spec_i16_at(final(out)@, 70, le) == h.coordinate_scalar,
        final(out)@.subrange(72, 76) == spec_coord_bytes(h.source_x, fmt, le).unwrap() && spec_coord_bytes(h.source_x, fmt, le) is Some,
        final(out)@.subrange(76, 80) == spec_coord_bytes(h.source_y, fmt, le).unwrap() && spec_coord_bytes(h.source_y, fmt, le) is Some,
        final(out)@.subrange(80, 84) == spec_coord_bytes(h.receiver_group_x, fmt, le).unwrap() && spec_coord_bytes(h.receiver_group_x, fmt, le) is Some,
        final(out)@.subrange(84, 88) == spec_coord_bytes(h.receiver_group_y, fmt, le).unwrap() && spec_coord_bytes(h.receiver_group_y, fmt, le) is Some,
        th_nominal_coords(final(out)@, *h, fmt, le),
{
    {
        let cb = emit_coord(h.source_to_receiver_distance, fmt, le);
        copy_into(out, 36, cb.as_slice());
    }
    {
        let cb = emit_coord(h.elevation_of_receiver_group, fmt, le);
        copy_into(out, 40, cb.as_slice());
    }
    {
        let cb = emit_coord(h.surface_elevation_of_source, fmt, le);
        copy_into(out, 44, cb.as_slice());
    }
    {
        let cb = emit_coord(h.source_depth, fmt, le);
        copy_into(out, 48, cb.as_slice());
    }
    {
        let cb = emit_coord(h.datum_elevation_of_receiver_group, fmt, le);
        copy_into(out, 52, cb.as_slice());
    }
    {
        let cb = emit_coord(h.datum_elevation_of_source, fmt, le);
        copy_into(out, 56, cb.as_slice());
    }
    {
        let cb = emit_coord(h.water_column_height_at_source, fmt, le);
        copy_into(out, 60, cb.as_slice());
    }
    {
        let cb = emit_coord(h.water_column_height_at_group, fmt, le);
        copy_into(out, 64, cb.as_slice());
    }
    put_i16(out, 68, h.elevation_scalar, le);
    put_i16(out, 70, h.coordinate_scalar, le);
    {
        let cb = emit_coord(h.source_x, fmt, le);
        copy_into(out, 72, cb.as_slice());
    }
    {
        let cb = emit_coord(h.source_y, fmt, le);
        copy_into(out, 76, cb.as_slice());
    }
    {
        let cb = emit_coord(h.receiver_group_x, fmt, le);
        copy_into(out, 80, cb.as_slice());
    }
    {
        let cb = emit_coord(h.receiver_group_y, fmt, le);
        copy_into(out, 84, cb.as_slice());
    }
    proof {
        assert(th_nominal_coords(out@, *h, fmt, le)) by {
            reveal(th_nominal_coords);
            assert(out@.subrange(36, 40) =~= spec_coord_bytes(h.source_to_receiver_distance, fmt, le).unwrap());
            assert(out@.subrange(40, 44) =~= spec_coord_bytes(h.elevation_of_receiver_group, fmt, le).unwrap());
            assert(out@.subrange(44, 48) =~= spec_coord_bytes(h.surface_elevation_of_source, fmt, le).unwrap());
            assert(out@.subrange(48, 52) =~= spec_coord_bytes(h.source_depth, fmt, le).unwrap());
            assert(out@.subrange(52, 56) =~= spec_coord_bytes(h.datum_elevation_of_receiver_group, fmt, le).unwrap());
            assert(out@.subrange(56, 60) =~= spec_coord_bytes(h.datum_elevation_of_source, fmt, le).unwrap());
            assert(out@.subrange(60, 64) =~= spec_coord_bytes(h.water_column_height_at_source, fmt, le).unwrap());
            assert(out@.subrange(64, 68) =~= spec_coord_bytes(h.water_column_height_at_group, fmt, le).unwrap());
            assert(out@.subrange(72, 76) =~= spec_coord_bytes(h.source_x, fmt, le).unwrap());
            assert(out@.subrange(76, 80) =~= spec_coord_bytes(h.source_y, fmt, le).unwrap());
            assert(out@.subrange(80, 84) =~= spec_coord_bytes(h.receiver_group_x, fmt, le).unwrap());
            assert(out@.subrange(84, 88) =~= spec_coord_bytes(h.receiver_group_y, fmt, le).unwrap());
        }
    }
}

/// Writes the trace header fields at bytes 88..134.
fn th_put_b(out: &mut Vec<u8>, h: &TraceHeader, le: bool)
    requires
        old(out)@.len() == TRACE_HEADER_LEN,
        !(h.coordinate_units is Invalid),
        !(h.gain_type is Invalid),
        !(h.correlated is Invalid),
        !(h.sweep_type is Invalid),
    ensures
        final(out)@.len() == TRACE_HEADER_LEN,
        forall|i: int|
            0 <= i < TRACE_HEADER_LEN && !(88 <= i < 134) ==> final(out)@[i] == old(out)@[i],
        CoordinateUnits::spec_new(spec_u16_at(final(out)@, 88, le)) == h.coordinate_units,
        spec_u16_at(final(out)@, 90, le) == h.weathing_velocity,
        spec_u16_at(final(out)@, 92, le) == h.sub_weathering_velocity,
        spec_u16_at(final(out)@, 94, le) == h.uphole_time_at_source,
        spec_u16_at(final(out)@, 96, le) == h.uphole_time_at_group,
        spec_u16_at(final(out)@, 98, le) == h.source_static_correction,
        spec_u16_at(final(out)@, 100, le) == h.group_static_correction,
        spec_u16_at(final(out)@, 102, le) == h.total_static_applied,
        spec_u16_at(final(out)@, 104, le) == h.lag_time_a,
        spec_u16_at(final(out)@, 106, le) == h.lag_time_b,
        spec_u16_at(final(out)@, 108, le) == h.delay_recording_time,
        spec_u16_at(final(out)@, 110, le) == h.mute_time_start,
        spec_u16_at(final(out)@, 112, le) == h.mute_time_end,
        spec_u16_at(final(out)@, 114, le) == h.no_samples_in_trace,
        spec_u16_at(final(out)@, 116, le) == h.sample_interval_of_trace,
        GainType::spec_new(spec_u16_at(final(out)@, 118, le)) == h.gain_type,
        spec_u16_at(final(out)@, 120, le) == h.instrument_gain_constant,
        spec_u16_at(final(out)@, 122, le) == h.instrument_initial_gain,
        Correlated::spec_new(spec_u16_at(final(out)@, 124, le)) == h.correlated,
        spec_u16_at(final(out)@, 126, le) == h.sweep_frequency_at_start,
        spec_u16_at(final(out)@, 128, le) == h.sweep_frequency_at_end,
        spec_u16_at(final(out)@, 130, le) == h.sweep_length,
        SweepType::spec_new(spec_u16_at(final(out)@, 132, le)) == h.sweep_type,
        th_nominal_mid(final(out)@, *h, le),
{
    put_u16(out, 88, h.coordinate_units.code(), le);
    put_u16(out, 90, h.weathing_velocity, le);
    put_u16(out, 92, h.sub_weathering_velocity, le);
    put_u16(out, 94, h.uphole_time_at_source, le);
    put_u16(out, 96, h.uphole_time_at_group, le);
    put_u16(out, 98, h.source_static_correction, le);
    put_u16(out, 100, h.group_static_correction, le);
    put_u16(out, 102, h.total_static_applied, le);
    put_u16(out, 104, h.lag_time_a, le);
    put_u16(out, 106, h.lag_time_b, le);
    put_u16(out, 108, h.delay_recording_time, le);
    put_u16(out, 110, h.mute_time_start, le);
    put_u16(out, 112, h.mute_time_end, le);
    put_u16(out, 114, h.no_samples_in_trace, le);
    put_u16(out, 116, h.sample_interval_of_trace, le);
    put_u16(out, 118, h.gain_type.code(), le);
    put_u16(out, 120, h.instrument_gain_constant, le);
    put_u16(out, 122, h.instrument_initial_gain, le);
    put_u16(out, 124, h.correlated.code(), le);
    put_u16(out, 126, h.sweep_frequency_at_start, le);
    put_u16(out, 128, h.sweep_frequency_at_end, le);
    put_u16(out, 130, h.sweep_length, le);
    put_u16(out, 132, h.sweep_type.code(), le);
    proof {
        assert(th_nominal_mid(out@, *h, le)) by {
            reveal(th_nominal_mid);
        }
    }
}

/// Writes the trace header fields at bytes 134..180.
fn th_put_c(out: &mut Vec<u8>, h: &TraceHeader, le: bool)
    requires
        old(out)@.len() == TRACE_HEADER_LEN,
        !(h.taper_type is Invalid),
        !(h.time_base_code is Invalid),
        !(h.over_travel is Invalid),
    ensures
        final(out)@.len() == TRACE_HEADER_LEN,
        forall|i: int|
            0 <= i < TRACE_HEADER_LEN && !(134 <= i < 180) ==> final(out)@[i] == old(out)@[i],
        spec_u16_at(final(out)@, 134, le) == h.sweep_trace_taper_length_at_start,
        spec_u16_at(final(out)@, 136, le) == h.sweep_trace_taper_length_at_end,
        TaperType::spec_new(spec_u16_at(final(out)@, 138, le)) == h.taper_type,
        spec_u16_at(final(out)@, 140, le) == h.alias_filter_frequency,
        spec_u16_at(final(out)@, 142, le) == h.alias_filter_slope,
        spec_u16_at(final(out)@, 144, le) == h.notch_filter_frequency,
        spec_u16_at(final(out)@, 146, le) == h.notch_filter_slope,
        spec_u16_at(final(out)@, 148, le) == h.low_cut_frequency,
        spec_u16_at(final(out)@, 150, le) == h.high_cut_frequency,
        spec_u16_at(final(out)@, 152, le) == h.low_cut_slope,
        spec_u16_at(final(out)@, 154, le) == h.high_cut_slope,
        spec_u16_at(final(out)@, 156, le) == h.year_recorded,
        spec_u16_at(final(out)@, 158, le) == h.day_of_year,
        spec_u16_at(final(out)@, 160, le) == h.hour_of_day,
        spec_u16_at(final(out)@, 162, le) == h.minute_of_hour,
        spec_u16_at(final(out)@, 164, le) == h.second_of_minute,
        TimeBasisCode::spec_new(spec_u16_at(final(out)@, 166, le)) == h.time_base_code,
        spec_u16_at(final(out)@, 168, le) == h.trace_weighting_factor,
        spec_u16_at(final(out)@, 170, le) == h.geophone_group_number_roll_pos1,
        spec_u16_at(final(out)@, 172, le) == h.geophone_group_number_first_trace_orig_field,
        spec_u16_at(final(out)@, 174, le) == h.geophone_group_number_last_trace_orig_field,
        spec_u16_at(final(out)@, 176, le) == h.gap_size,
        OverTravel::spec_new(spec_u16_at(final(out)@, 178, le)) == h.over_travel,
        th_nominal_late(final(out)@, *h, le),
{
    put_u16(out, 134, h.sweep_trace_taper_length_at_start, le);
    put_u16(out, 136, h.sweep_trace_taper_length_at_end, le);
    put_u16(out, 138, h.taper_type.code(), le);
    put_u16(out, 140, h.alias_filter_frequency, le);
    put_u16(out, 142, h.alias_filter_slope, le);
    put_u16(out, 144, h.notch_filter_frequency, le);
    put_u16(out, 146, h.notch_filter_slope, le);
    put_u16(out, 148, h.low_cut_frequency, le);
    put_u16(out, 150, h.high_cut_frequency, le);
    put_u16(out, 152, h.low_cut_slope, le);
    put_u16(out, 154, h.high_cut_slope, le);
    put_u16(out, 156, h.year_recorded, le);
    put_u16(out, 158, h.day_of_year, le);
    put_u16(out, 160, h.hour_of_day, le);
    put_u16(out, 162, h.minute_of_hour, le);
    put_u16(out, 164, h.second_of_minute, le);
    put_u16(out, 166, h.time_base_code.code(), le);
    put_u16(out, 168, h.trace_weighting_factor, le);
    put_u16(out, 170, h.geophone_group_number_roll_pos1, le);
    put_u16(out, 172, h.geophone_group_number_first_trace_orig_field, le);
    put_u16(out, 174, h.geophone_group_number_last_trace_orig_field, le);
    put_u16(out, 176, h.gap_size, le);
    put_u16(out, 178, h.over_travel.code(), le);
    proof {
        assert(th_nominal_late(out@, *h, le)) by {
            reveal(th_nominal_late);
        }
    }
}

/// Writes the trace header fields at bytes 196..232.
fn th_put_d(out: &mut Vec<u8>, h: &TraceHeader, le: bool)
    requires
        old(out)@.len() == TRACE_HEADER_LEN,
        !(h.trace_value_measurement_unit is Invalid),
        !(h.transduction_units is Invalid),
        !(h.source_type is Invalid),
        !(h.source_measurement_unit is Invalid),
    ensures
        final(out)@.len() == TRACE_HEADER_LEN,
        forall|i: int|
            0 <= i < TRACE_HEADER_LEN && !(196 <= i < 232) ==> final(out)@[i] == old(out)@[i],
        spec_i32_at(final(out)@, 196, le) == h.shot_point_no,
        spec_u16_at(final(out)@, 200, le) == h.shot_point_scalar,
        TraceValueUnit::spec_new(spec_i16_at(final(out)@, 202, le)) == h.trace_value_measurement_unit,
        spec_i32_at(final(out)@, 204, le) == h.transduction_constant_mantissa,
        spec_u16_at(final(out)@, 208, le) == h.transduction_constant_power,
        TransductionUnits::spec_new(spec_i16_at(final(out)@, 210, le)) == h.transduction_units,
        spec_u16_at(final(out)@, 212, le) == h.trace_identifier,
        spec_u16_at(final(out)@, 214, le) == h.time_scalar_trace_header,
        SourceType::spec_new(spec_i16_at(final(out)@, 216, le)) == h.source_type,
        spec_u16_at(final(out)@, 218, le) == h.source_energy_direction_v,
        spec_u16_at(final(out)@, 220, le) == h.source_energy_direction_il,
        spec_u16_at(final(out)@, 222, le) == h.source_energy_direction_xl,
        spec_i32_at(final(out)@, 224, le) == h.source_measurement_mantissa,
        spec_u16_at(final(out)@, 228, le) == h.source_measurement_exponent,
        SourceMeasurementUnit::spec_new(spec_i16_at(final(out)@, 230, le)) == h.source_measurement_unit,
        th_nominal_tail(final(out)@, *h, le),
{
    put_i32(out, 196, h.shot_point_no, le);
    put_u16(out, 200, h.shot_point_scalar, le);
    put_i16(out, 202, h.trace_value_measurement_unit.code(), le);
    put_i32(out, 204, h.transduction_constant_mantissa, le);
    put_u16(out, 208, h.transduction_constant_power, le);
    put_i16(out, 210, h.transduction_units.code(), le);
    put_u16(out, 212, h.trace_identifier, le);
    put_u16(out, 214, h.time_scalar_trace_header, le);
    put_i16(out, 216, h.source_type.code(), le);
    put_u16(out, 218, h.source_energy_direction_v, le);
    put_u16(out, 220, h.source_energy_direction_il, le);
    put_u16(out, 222, h.source_energy_direction_xl, le);
    put_i32(out, 224, h.source_measurement_mantissa, le);
    put_u16(out, 228, h.source_measurement_exponent, le);
    put_i16(out, 230, h.source_measurement_unit.code(), le);
    proof {
        assert(th_nominal_tail(out@, *h, le)) by {
            reveal(th_nominal_tail);
        }
    }
}

/// Writes the trace name at bytes 232..240: in file order when the file
/// is little-endian, reversed otherwise.
fn th_put_name(out: &mut Vec<u8>, h: &TraceHeader, le: bool)
    requires
        old(out)@.len() == TRACE_HEADER_LEN,
    ensures
        final(out)@.len() == TRACE_HEADER_LEN,
        forall|i: int|
            0 <= i < TRACE_HEADER_LEN && !(232 <= i < 240) ==> final(out)@[i] == old(out)@[i],
        forall|i: int|
            0 <= i < 8 ==> h.trace_name@[i] == (if le {
                final(out)@[232 + i]
            } else {
                final(out)@[239 - i]
            }),
        th_nominal_name(final(out)@, *h, le),
{
    let n = out.len();
    let mut i: usize = 0;
    while i < 8
        invariant
            n == out@.len() == TRACE_HEADER_LEN,
            0 <= i <= 8,
            forall|j: int| 0 <= j < out@.len() && !(232 <= j < 240) ==> out@[j] == old(out)@[j],
            forall|j: int|
                0 <= j < i ==> h.trace_name@[j] == (if le {
                    out@[232 + j]
                } else {
                    out@[239 - j]
                }),
        decreases 8 - i,
    {
        if le {
            out.set(232 + i, h.trace_name[i]);
        } else {
            out.set(239 - i, h.trace_name[i]);
        }
        i += 1;
    }
    proof {
        assert(th_nominal_name(out@, *h, le)) by {
            reveal(th_nominal_name);
        }
    }
}

/// Writes the four geometry fields at the byte indices the settings name,
/// in the order x ensemble, y ensemble, inline, crossline; a later field
/// overwrites an earlier one wherever their ranges collide.
fn th_put_geometry(
    out: &mut Vec<u8>,
    h: &TraceHeader,
    s: &SegySettings,
    fmt: SampleFormatCode,
    le: bool,
)
    requires
        old(out)@.len() == TRACE_HEADER_LEN,
        s.wf(),
        spec_coord_encodable(h.x_ensemble, fmt),
        spec_coord_encodable(h.y_ensemble, fmt),
    ensures
        final(out)@.len() == TRACE_HEADER_LEN,
        forall|i: int|
            0 <= i < TRACE_HEADER_LEN && !(s.x_ensemble_bidx <= i < s.x_ensemble_bidx + 4) && !(
            s.y_ensemble_bidx <= i < s.y_ensemble_bidx + 4) && !(s.inline_no_bidx <= i
                < s.inline_no_bidx + 4) && !(s.crossline_no_bidx <= i < s.crossline_no_bidx + 4)
                ==> final(out)@[i] == old(out)@[i],
        spec_i32_at(final(out)@, s.crossline_no_bidx as int, le) == h.crossline_no,
        spec_ranges_disjoint(s.inline_no_bidx, s.crossline_no_bidx) ==> spec_i32_at(
            final(out)@,
            s.inline_no_bidx as int,
            le,
        ) == h.inline_no,
        spec_ranges_disjoint(s.y_ensemble_bidx, s.inline_no_bidx) && spec_ranges_disjoint(
            s.y_ensemble_bidx,
            s.crossline_no_bidx,
        ) ==> final(out)@.subrange(s.y_ensemble_bidx as int, s.y_ensemble_bidx + 4)
            == spec_coord_bytes(h.y_ensemble, fmt, le).unwrap() && spec_coord_bytes(
            h.y_ensemble,
            fmt,
            le,
        ) is Some,
        spec_ranges_disjoint(s.x_ensemble_bidx, s.y_ensemble_bidx) && spec_ranges_disjoint(
            s.x_ensemble_bidx,
            s.inline_no_bidx,
        ) && spec_ranges_disjoint(s.x_ensemble_bidx, s.crossline_no_bidx) ==> final(
            out)@.subrange(s.x_ensemble_bidx as int, s.x_ensemble_bidx + 4) == spec_coord_bytes(
            h.x_ensemble,
            fmt,
            le,
        ).unwrap() && spec_coord_bytes(h.x_ensemble, fmt, le) is Some,
{
    let xb = emit_coord(h.x_ensemble, fmt, le);
    copy_into(out, s.get_x_ensemble_bidx(), xb.as_slice());
    let yb = emit_coord(h.y_ensemble, fmt, le);
    copy_into(out, s.get_y_ensemble_bidx(), yb.as_slice());
    put_i32(out, s.get_inline_no_bidx(), h.inline_no, le);
    put_i32(out, s.get_crossline_no_bidx(), h.crossline_no, le);
    proof {
        if spec_ranges_disjoint(s.y_ensemble_bidx, s.inline_no_bidx) && spec_ranges_disjoint(
            s.y_ensemble_bidx,
            s.crossline_no_bidx,
        ) {
            assert(final(out)@.subrange(s.y_ensemble_bidx as int, s.y_ensemble_bidx + 4) =~= yb@);
        }
        if spec_ranges_disjoint(s.x_ensemble_bidx, s.y_ensemble_bidx) && spec_ranges_disjoint(
            s.x_ensemble_bidx,
            s.inline_no_bidx,
        ) && spec_ranges_disjoint(s.x_ensemble_bidx, s.crossline_no_bidx) {
            assert(final(out)@.subrange(s.x_ensemble_bidx as int, s.x_ensemble_bidx + 4) =~= xb@);
        }
    }
}


/// Serialises a trace header to its 240 bytes under the settings: every
/// field at its nominal offset, then the four geometry fields rewritten
/// at the configured byte indices as a final pass, which silently
/// overwrites whatever those ranges held. Fails when a coded field holds
/// `Invalid`, when the coordinate format cannot be written, or when a
/// coordinate value does not fit the format.
#[verifier::rlimit(100)]
#[verifier::spinoff_prover]
pub fn th_as_bytes_with_settings(
    trace_header: &TraceHeader,
    settings: &SegySettings,
    bin_header: &BinHeader,
) -> (r: Result<Vec<u8>, RsgError>)
    requires
        settings.wf(),
    ensures
        !spec_th_enums_ok(*trace_header) ==> (r matches Err(RsgError::InvalidHeader { .. })),
        spec_th_enums_ok(*trace_header) && !(spec_trace_coord_fmt(*settings) is Int32
            || spec_trace_coord_fmt(*settings) is UInt32 || spec_trace_coord_fmt(*settings)
            is Float32) ==> (r matches Err(RsgError::BitConversionError { .. })),
        spec_th_enums_ok(*trace_header) && (spec_trace_coord_fmt(*settings) is Int32
            || spec_trace_coord_fmt(*settings) is UInt32 || spec_trace_coord_fmt(*settings)
            is Float32) && !spec_th_coords_ok(*trace_header, spec_trace_coord_fmt(*settings)) ==> (
        r matches Err(RsgError::BitConversionError { .. })),
        spec_th_enums_ok(*trace_header) && (spec_trace_coord_fmt(*settings) is Int32
            || spec_trace_coord_fmt(*settings) is UInt32 || spec_trace_coord_fmt(*settings)
            is Float32) && spec_th_coords_ok(*trace_header, spec_trace_coord_fmt(*settings)) ==> (
        r matches Ok(out) && out@.len() == TRACE_HEADER_LEN && spec_i32_at(
            out@,
            settings.crossline_no_bidx as int,
            bin_header.binary_flag_direction_is_le,
        ) == trace_header.crossline_no && (spec_ranges_disjoint(
            settings.inline_no_bidx,
            settings.crossline_no_bidx,
        ) ==> spec_i32_at(
            out@,
            settings.inline_no_bidx as int,
            bin_header.binary_flag_direction_is_le,
        ) == trace_header.inline_no) && (spec_ranges_disjoint(
            settings.y_ensemble_bidx,
            settings.inline_no_bidx,
        ) && spec_ranges_disjoint(settings.y_ensemble_bidx, settings.crossline_no_bidx)
            ==> spec_coord_at(
            out@,
            settings.y_ensemble_bidx as int,
            spec_trace_coord_fmt(*settings),
            bin_header.binary_flag_direction_is_le,
        ) == Some(trace_header.y_ensemble) || spec_trace_coord_fmt(*settings) is Float32) && (
        spec_ranges_disjoint(settings.x_ensemble_bidx, settings.y_ensemble_bidx)
            && spec_ranges_disjoint(settings.x_ensemble_bidx, settings.inline_no_bidx)
            && spec_ranges_disjoint(settings.x_ensemble_bidx, settings.crossline_no_bidx)
            ==> spec_coord_at(
            out@,
            settings.x_ensemble_bidx as int,
            spec_trace_coord_fmt(*settings),
            bin_header.binary_flag_direction_is_le,
        ) == Some(trace_header.x_ensemble) || spec_trace_coord_fmt(*settings) is Float32) && (
        forall|i: int|
            180 <= i < 196 && !(settings.x_ensemble_bidx <= i < settings.x_ensemble_bidx + 4) && !(
            settings.y_ensemble_bidx <= i < settings.y_ensemble_bidx + 4) && !(
            settings.inline_no_bidx <= i < settings.inline_no_bidx + 4) && !(
            settings.crossline_no_bidx <= i < settings.crossline_no_bidx + 4)
                ==> #[trigger] out@[i] == 0) && (spec_ranges_avoid(*settings, 0, 36)
            ==> th_nominal_head(out@, *trace_header, bin_header.binary_flag_direction_is_le)) && (spec_ranges_avoid(
            *settings,
            36,
            88,
        ) ==> th_nominal_coords(
            out@,
            *trace_header,
            spec_trace_coord_fmt(*settings),
            bin_header.binary_flag_direction_is_le,
        )) && (
        spec_ranges_avoid(*settings, 88, 134) ==> th_nominal_mid(
            out@,
            *trace_header,
            bin_header.binary_flag_direction_is_le,
        )) && (
        spec_ranges_avoid(*settings, 134, 180) ==> th_nominal_late(
            out@,
            *trace_header,
            bin_header.binary_flag_direction_is_le,
        )) && (
        spec_ranges_avoid(*settings, 196, 232) ==> th_nominal_tail(
            out@,
            *trace_header,
            bin_header.binary_flag_direction_is_le,
        )) && (
        spec_ranges_avoid(*settings, 232, 240) ==> th_nominal_name(
            out@,
            *trace_header,
            bin_header.binary_flag_direction_is_le,
        )) && (
        spec_roundtrip_settings(*settings) ==> (forall|k: usize|
            trace_header_matches(
                out@,
                *settings,
                bin_header.binary_flag_direction_is_le,
                k,
                *trace_header,
            )))),
{
    let h = trace_header;
    if h.trace_identification_code.clone() == TraceIdCode::Invalid || h.data_use.clone()
        == DataUse::Invalid || h.coordinate_units.clone() == CoordinateUnits::Invalid
        || h.gain_type.clone() == GainType::Invalid || h.correlated.clone() == Correlated::Invalid
        || h.sweep_type.clone() == SweepType::Invalid || h.taper_type.clone() == TaperType::Invalid
        || h.time_base_code.clone() == TimeBasisCode::Invalid || h.over_travel.clone()
        == OverTravel::Invalid || h.trace_value_measurement_unit.clone() == TraceValueUnit::Invalid
        || h.transduction_units.clone() == TransductionUnits::Invalid || h.source_type.clone()
        == SourceType::Invalid || h.source_measurement_unit.clone()
        == SourceMeasurementUnit::Invalid {
        return Err(RsgError::InvalidHeader {
            msg: String::from_str("a coded field holds no writable value"),
        });
    }
    let le = bin_header.binary_flag_direction_is_le;
    let fmt = match settings.get_override_coordinate_format() {
        Some(f) => f,
        None => SampleFormatCode::Int32,
    };
    if !matches!(
        fmt,
        SampleFormatCode::Int32 | SampleFormatCode::UInt32 | SampleFormatCode::Float32
    ) {
        return Err(RsgError::BitConversionError {
            msg: String::from_str("coordinates cannot be written in this format"),
        });
    }
    if matches!(fmt, SampleFormatCode::UInt32) && (trace_header.source_to_receiver_distance < 0 || trace_header.elevation_of_receiver_group < 0 || trace_header.surface_elevation_of_source < 0 || trace_header.source_depth < 0 || trace_header.datum_elevation_of_receiver_group < 0 || trace_header.datum_elevation_of_source < 0 || trace_header.water_column_height_at_source < 0 || trace_header.water_column_height_at_group < 0 || trace_header.source_x < 0 || trace_header.source_y < 0 || trace_header.receiver_group_x < 0 || trace_header.receiver_group_y < 0 || trace_header.x_ensemble < 0 || trace_header.y_ensemble < 0) {
        return Err(RsgError::BitConversionError {
            msg: String::from_str("a negative coordinate cannot be written unsigned"),
        });
    }
    let mut out = zero_vec(TRACE_HEADER_LEN);
    let ghost z = out@;
    th_put_a(&mut out, h, le);
    let ghost after_a = out@;
    th_put_coords1(&mut out, h, fmt, le);
    let ghost snap = out@;
    th_put_b(&mut out, h, le);
    let ghost after_b = out@;
    th_put_c(&mut out, h, le);
    let ghost after_c = out@;
    th_put_d(&mut out, h, le);
    let ghost after_d = out@;
    th_put_name(&mut out, h, le);
    let ghost named = out@;
    th_put_geometry(&mut out, h, settings, fmt, le);
    proof {
        assert forall|i: int|
            180 <= i < 196 && !(settings.x_ensemble_bidx <= i < settings.x_ensemble_bidx + 4) && !(
            settings.y_ensemble_bidx <= i < settings.y_ensemble_bidx + 4) && !(
            settings.inline_no_bidx <= i < settings.inline_no_bidx + 4) && !(
            settings.crossline_no_bidx <= i < settings.crossline_no_bidx + 4) implies
            #[trigger] out@[i] == 0 by {
            assert(out@[i] == named[i]);
            assert(named[i] == after_d[i]);
            assert(after_d[i] == after_c[i]);
            assert(after_c[i] == after_b[i]);
            assert(after_b[i] == snap[i]);
            assert(snap[i] == after_a[i]);
            assert(after_a[i] == z[i]);
        }
    }
    proof {
        if spec_ranges_avoid(*settings, 0, 36) {
            assert forall|i: int| 0 <= i < 36 implies out@[i] == after_a[i] by {
            assert(out@[i] == named[i]);
            assert(named[i] == after_d[i]);
            assert(after_d[i] == after_c[i]);
            assert(after_c[i] == after_b[i]);
            assert(after_b[i] == snap[i]);
            assert(snap[i] == after_a[i]);
            }
            lemma_th_nominal_head_transfer(out@, after_a, *h, le);
        }
        if spec_ranges_avoid(*settings, 36, 88) {
            assert forall|i: int| 36 <= i < 88 implies out@[i] == snap[i] by {
            assert(out@[i] == named[i]);
            assert(named[i] == after_d[i]);
            assert(after_d[i] == after_c[i]);
            assert(after_c[i] == after_b[i]);
            assert(after_b[i] == snap[i]);
            }
            lemma_th_nominal_coords_transfer(out@, snap, *h, fmt, le);
        }
        if spec_ranges_avoid(*settings, 88, 134) {
            assert forall|i: int| 88 <= i < 134 implies out@[i] == after_b[i] by {
            assert(out@[i] == named[i]);
            assert(named[i] == after_d[i]);
            assert(after_d[i] == after_c[i]);
            assert(after_c[i] == after_b[i]);
            }
            lemma_th_nominal_mid_transfer(out@, after_b, *h, le);
        }
        if spec_ranges_avoid(*settings, 134, 180) {
            assert forall|i: int| 134 <= i < 180 implies out@[i] == after_c[i] by {
            assert(out@[i] == named[i]);
            assert(named[i] == after_d[i]);
            assert(after_d[i] == after_c[i]);
            }
            lemma_th_nominal_late_transfer(out@, after_c, *h, le);
        }
        if spec_ranges_avoid(*settings, 196, 232) {
            assert forall|i: int| 196 <= i < 232 implies out@[i] == after_d[i] by {
            assert(out@[i] == named[i]);
            assert(named[i] == after_d[i]);
            }
            lemma_th_nominal_tail_transfer(out@, after_d, *h, le);
        }
        if spec_ranges_avoid(*settings, 232, 240) {
            assert forall|i: int| 232 <= i < 240 implies out@[i] == named[i] by {
            assert(out@[i] == named[i]);
            }
            lemma_th_nominal_name_transfer(out@, named, *h, le);
        }
        if !(fmt is Float32) {
            if spec_ranges_disjoint(settings.y_ensemble_bidx, settings.inline_no_bidx)
                && spec_ranges_disjoint(settings.y_ensemble_bidx, settings.crossline_no_bidx) {
                lemma_coord_roundtrip_at(
                    out@,
                    settings.y_ensemble_bidx as int,
                    h.y_ensemble,
                    fmt,
                    le,
                );
            }
            if spec_ranges_disjoint(settings.x_ensemble_bidx, settings.y_ensemble_bidx)
                && spec_ranges_disjoint(settings.x_ensemble_bidx, settings.inline_no_bidx)
                && spec_ranges_disjoint(settings.x_ensemble_bidx, settings.crossline_no_bidx) {
                lemma_coord_roundtrip_at(
                    out@,
                    settings.x_ensemble_bidx as int,
                    h.x_ensemble,
                    fmt,
                    le,
                );
            }
        }
        if spec_roundtrip_settings(*settings) {
            assert(trace_header_matches_a(out@, *settings, le, 0, *h)) by {
                reveal(trace_header_matches_a);
            }
            assert(trace_header_matches_b(out@, *settings, le, 0, *h)) by {
                reveal(trace_header_matches_b);
            }
            assert(trace_header_matches_c(out@, *settings, le, 0, *h)) by {
                reveal(trace_header_matches_c);
                assert(out@.subrange(36, 40) =~= snap.subrange(36, 40));
                assert(out@.subrange(40, 44) =~= snap.subrange(40, 44));
                assert(out@.subrange(44, 48) =~= snap.subrange(44, 48));
                assert(out@.subrange(48, 52) =~= snap.subrange(48, 52));
                assert(out@.subrange(52, 56) =~= snap.subrange(52, 56));
                assert(out@.subrange(56, 60) =~= snap.subrange(56, 60));
                assert(out@.subrange(60, 64) =~= snap.subrange(60, 64));
                assert(out@.subrange(64, 68) =~= snap.subrange(64, 68));
                assert(out@.subrange(72, 76) =~= snap.subrange(72, 76));
                assert(out@.subrange(76, 80) =~= snap.subrange(76, 80));
                assert(out@.subrange(80, 84) =~= snap.subrange(80, 84));
                assert(out@.subrange(84, 88) =~= snap.subrange(84, 88));
                lemma_coord_roundtrip_at(
                    out@,
                    36,
                    h.source_to_receiver_distance,
                    fmt,
                    le,
                );
                lemma_coord_roundtrip_at(
                    out@,
                    40,
                    h.elevation_of_receiver_group,
                    fmt,
                    le,
                );
                lemma_coord_roundtrip_at(
                    out@,
                    44,
                    h.surface_elevation_of_source,
                    fmt,
                    le,
                );
                lemma_coord_roundtrip_at(
                    out@,
                    48,
                    h.source_depth,
                    fmt,
                    le,
                );
                lemma_coord_roundtrip_at(
                    out@,
                    52,
                    h.datum_elevation_of_receiver_group,
                    fmt,
                    le,
                );
                lemma_coord_roundtrip_at(
                    out@,
                    56,
                    h.datum_elevation_of_source,
                    fmt,
                    le,
                );
                lemma_coord_roundtrip_at(
                    out@,
                    60,
                    h.water_column_height_at_source,
                    fmt,
                    le,
                );
                lemma_coord_roundtrip_at(
                    out@,
                    64,
                    h.water_column_height_at_group,
                    fmt,
                    le,
                );
                lemma_coord_roundtrip_at(
                    out@,
                    72,
                    h.source_x,
                    fmt,
                    le,
                );
                lemma_coord_roundtrip_at(
                    out@,
                    76,
                    h.source_y,
                    fmt,
                    le,
                );
                lemma_coord_roundtrip_at(
                    out@,
                    80,
                    h.receiver_group_x,
                    fmt,
                    le,
                );
                lemma_coord_roundtrip_at(
                    out@,
                    84,
                    h.receiver_group_y,
                    fmt,
                    le,
                );
            }
            assert(trace_header_matches_d(out@, *settings, le, 0, *h)) by {
                reveal(trace_header_matches_d);
                lemma_coord_roundtrip_at(out@, 180, h.x_ensemble, fmt, le);
                lemma_coord_roundtrip_at(out@, 184, h.y_ensemble, fmt, le);
                assert(forall|i: int|
                    0 <= i < 8 ==> #[trigger] h.trace_name@[i] == (if le {
                        out@[232 + i]
                    } else {
                        out@[239 - i]
                    }));
            }
            assert(forall|k: usize| trace_header_matches(out@, *settings, le, k, *h)) by {
                reveal(trace_header_matches_a);
                reveal(trace_header_matches_b);
                reveal(trace_header_matches_c);
                reveal(trace_header_matches_d);
                assert(trace_header_matches(out@, *settings, le, 0, *h));
                assert forall|k: usize| trace_header_matches(out@, *settings, le, k, *h) by {
                    assert(trace_header_matches_a(out@, *settings, le, k, *h));
                    assert(trace_header_matches_b(out@, *settings, le, k, *h));
                    assert(trace_header_matches_c(out@, *settings, le, k, *h));
                    assert(trace_header_matches_d(out@, *settings, le, k, *h));
                }
            }
        }
    }
    Ok(out)
}


} // verus!
