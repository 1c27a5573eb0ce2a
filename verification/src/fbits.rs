//! Integer semantics for the floating-point encodings the sample codec
//! meets: IEEE single and double precision, and the legacy IBM base-16
//! single precision. Values are handled as bit patterns throughout, so
//! that conversion, truncation and rounding are exact integer functions.

use vstd::arithmetic::div_mod::lemma_div_denominator;
use vstd::arithmetic::power2::{lemma2_to64, lemma2_to64_rest, lemma_pow2_adds, pow2};
use vstd::prelude::*;

verus! {

broadcast use vstd::arithmetic::power2::lemma_pow2_pos;

/// The position of the highest set bit of `n`.
pub open spec fn spec_log2(n: nat) -> nat
    decreases n,
{
    if n < 2 {
        0
    } else {
        1 + spec_log2(n / 2)
    }
}

/// `spec_log2` names the unique `k` with `pow2(k) <= n < pow2(k + 1)`.
pub proof fn lemma_log2_bounds(n: nat)
    requires
        n >= 1,
    ensures
        pow2(spec_log2(n)) <= n < pow2(spec_log2(n) + 1),
    decreases n,
{
    if n < 2 {
        lemma2_to64();
    } else {
        lemma_log2_bounds(n / 2);
        broadcast use vstd::arithmetic::power2::lemma_pow2_unfold;

        assert(pow2(spec_log2(n)) == 2 * pow2(spec_log2(n / 2)));
        assert(pow2(spec_log2(n) + 1) == 2 * pow2(spec_log2(n / 2) + 1));
    }
}

/// `2^e` as an exec value.
pub fn pow2_u64(e: u32) -> (r: u64)
    requires
        e < 64,
    ensures
        r == pow2(e as nat),
{
    proof {
        lemma2_to64();
    }
    let mut i: u32 = 0;
    let mut r: u64 = 1;
    while i < e
        invariant
            0 <= i <= e < 64,
            r == pow2(i as nat),
        decreases e - i,
    {
        proof {
            broadcast use vstd::arithmetic::power2::lemma_pow2_unfold;

            lemma2_to64();
            lemma2_to64_rest();
            vstd::arithmetic::power2::lemma_pow2_strictly_increases(i as nat + 1, 64);
        }
        r = r * 2;
        i = i + 1;
    }
    r
}

/// The highest set bit of `mag`.
pub fn log2_u64(mag: u64) -> (k: u32)
    requires
        mag >= 1,
    ensures
        k == spec_log2(mag as nat),
        k <= 63,
        pow2(k as nat) <= mag < pow2(k as nat + 1),
{
    proof {
        lemma2_to64();
        assert(mag as nat / pow2(0) == mag as nat) by {
            vstd::arithmetic::div_mod::lemma_div_basics_2(mag as int);
        }
    }
    let mut k: u32 = 0;
    let mut t: u64 = mag;
    while t >= 2
        invariant
            t == mag as nat / pow2(k as nat),
            spec_log2(mag as nat) == k + spec_log2(t as nat),
            t >= 1,
            k <= 63,
        decreases t,
    {
        proof {
            broadcast use vstd::arithmetic::power2::lemma_pow2_unfold;

            lemma_div_denominator(mag as int, pow2(k as nat) as int, 2);
            assert(mag as nat / pow2((k + 1) as nat) == t as nat / 2);
            if k == 63 {
                lemma2_to64_rest();
                assert(mag < pow2(64));
                vstd::arithmetic::div_mod::lemma_fundamental_div_mod(
                    mag as int,
                    pow2(63) as int,
                );
                vstd::arithmetic::div_mod::lemma_mod_bound(mag as int, pow2(63) as int);
                assert(mag as int >= pow2(63) * 2);
            }
        }
        t = t / 2;
        k = k + 1;
    }
    proof {
        lemma_log2_bounds(mag as nat);
        vstd::arithmetic::div_mod::lemma_fundamental_div_mod(mag as int, pow2(k as nat) as int);
        broadcast use vstd::arithmetic::power2::lemma_pow2_pos;
        broadcast use vstd::arithmetic::power2::lemma_pow2_adds;
        broadcast use vstd::arithmetic::mul::lemma_mul_is_commutative;

        assert(t == 1);
        assert(mag as nat == pow2(k as nat) + (mag as nat % pow2(k as nat)));
        vstd::arithmetic::div_mod::lemma_mod_bound(mag as int, pow2(k as nat) as int);
        assert(mag < pow2(k as nat) + pow2(k as nat));
        assert(pow2(k as nat + 1) == 2 * pow2(k as nat)) by {
            broadcast use vstd::arithmetic::power2::lemma_pow2_unfold;

        }
        if spec_log2(mag as nat) != k {
            lemma_log2_bounds(mag as nat);
            if spec_log2(mag as nat) < k {
                vstd::arithmetic::power2::lemma_pow2_strictly_increases(
                    spec_log2(mag as nat) + 1,
                    k as nat + 1,
                );
            } else {
                vstd::arithmetic::power2::lemma_pow2_strictly_increases(
                    k as nat + 1,
                    spec_log2(mag as nat) + 1,
                );
            }
        }
    }
    k
}

/// `mag / 2^sh`, rounded to the nearest integer with ties to even.
pub open spec fn spec_round_mantissa(mag: nat, sh: nat) -> nat {
    if sh == 0 {
        mag
    } else {
        let q = mag / pow2(sh);
        let rem = mag % pow2(sh);
        let half = pow2((sh - 1) as nat);
        if rem > half || (rem == half && q % 2 == 1) {
            q + 1
        } else {
            q
        }
    }
}

/// Rounds away the low `sh` bits of `mag`, to nearest, ties to even.
pub fn round_mantissa_u64(mag: u64, sh: u32) -> (r: u64)
    requires
        1 <= sh <= 63,
    ensures
        r == spec_round_mantissa(mag as nat, sh as nat),
        r <= mag as nat / pow2(sh as nat) + 1,
{
    let d = pow2_u64(sh);
    let half = pow2_u64(sh - 1);
    let q = mag / d;
    let rem = mag % d;
    proof {
        broadcast use vstd::arithmetic::power2::lemma_pow2_pos;

        lemma2_to64();
        lemma2_to64_rest();
        vstd::arithmetic::power2::lemma_pow2_strictly_increases(sh as nat, 64);
        if sh > 1 {
            vstd::arithmetic::power2::lemma_pow2_strictly_increases(1, sh as nat);
        }
        vstd::arithmetic::div_mod::lemma_div_is_ordered_by_denominator(mag as int, 2, d as int);
        assert(mag as u64 / 2 < 0x8000000000000000u64) by (bit_vector);
    }
    if rem > half || (rem == half && q % 2 == 1) {
        q + 1
    } else {
        q
    }
}

/// The sign, biased exponent field and fraction field assembled into a
/// float bit pattern. `m` is the fraction width and `sign_pos` the bit
/// position of the sign.
pub open spec fn spec_assemble(neg: bool, field: nat, frac: nat, m: nat, sign_pos: nat) -> nat {
    (if neg {
        pow2(sign_pos)
    } else {
        0
    }) + field * pow2(m) + frac
}

/// The IEEE bit pattern closest to `(-1)^neg * mag * 2^scale`, rounding to
/// nearest with ties to even, for a format with `m` fraction bits, greatest
/// unbiased exponent `emax` (the bias), and sign bit `sign_pos`. Overflow
/// gives the infinity of the right sign; values below the subnormal range
/// round to zero.
pub open spec fn spec_float_bits(
    neg: bool,
    mag: nat,
    scale: int,
    m: nat,
    emax: int,
    sign_pos: nat,
) -> nat {
    let emin = 1 - emax;
    if mag == 0 {
        spec_assemble(neg, 0, 0, m, sign_pos)
    } else {
        let k = spec_log2(mag);
        let e = k + scale;
        if e < emin {
            let sh = emin - m - scale;
            let q = if sh >= 0 {
                spec_round_mantissa(mag, sh as nat)
            } else {
                mag * pow2((-sh) as nat)
            };
            if q == pow2(m) {
                spec_assemble(neg, 1, 0, m, sign_pos)
            } else {
                spec_assemble(neg, 0, q, m, sign_pos)
            }
        } else {
            if k <= m {
                let q = mag * pow2((m - k) as nat);
                if e > emax as i64 {
                    spec_assemble(neg, (2 * emax + 1) as nat, 0, m, sign_pos)
                } else {
                    spec_assemble(neg, (e + emax) as nat, (q - pow2(m)) as nat, m, sign_pos)
                }
            } else {
                let q0 = spec_round_mantissa(mag, (k - m) as nat);
                let q = if q0 == pow2(m + 1) {
                    pow2(m)
                } else {
                    q0
                };
                let e2 = if q0 == pow2(m + 1) {
                    e + 1
                } else {
                    e
                };
                if e2 > emax as i64 {
                    spec_assemble(neg, (2 * emax + 1) as nat, 0, m, sign_pos)
                } else {
                    spec_assemble(neg, (e2 + emax) as nat, (q - pow2(m)) as nat, m, sign_pos)
                }
            }
        }
    }
}

/// Assembles the IEEE bit pattern for `(-1)^neg * mag * 2^scale`, rounded
/// to nearest with ties to even. The parameters must describe single or
/// double precision.
pub fn float_bits(neg: bool, mag: u64, scale: i32, m: u32, emax: i32, sign_pos: u32) -> (r: u64)
    requires
        (m == 23 && emax == 127 && sign_pos == 31) || (m == 52 && emax == 1023 && sign_pos == 63),
        -2200 <= scale <= 2200,
    ensures
        r == spec_float_bits(neg, mag as nat, scale as int, m as nat, emax as int, sign_pos as nat),
{
    proof {
        lemma2_to64();
        lemma2_to64_rest();
    }
    let sign: u64 = if neg {
        pow2_u64(sign_pos)
    } else {
        0
    };
    if mag == 0 {
        return sign;
    }
    let k = log2_u64(mag);
    let e: i64 = k as i64 + scale as i64;
    let emin: i64 = 1 - emax as i64;
    let pm = pow2_u64(m);
    if e < emin {
        let sh: i64 = emin - m as i64 - scale as i64;
        let q: u64 = if sh >= 65 {
            proof {
                lemma_pow2_increase_past_64(sh as nat);
            }
            0
        } else if sh == 64 {
            proof {
                lemma2_to64_rest();
                vstd::arithmetic::div_mod::lemma_basic_div(mag as int, pow2(64) as int);
                vstd::arithmetic::div_mod::lemma_small_mod(mag as nat, pow2(64));
            }
            if mag > 0x8000000000000000u64 {
                1
            } else {
                0
            }
        } else if sh >= 1 {
            proof {
                lemma_subnormal_round_bound(mag as nat, k as nat, sh as nat, m as nat);
            }
            round_mantissa_u64(mag, sh as u32)
        } else {
            proof {
                lemma_subnormal_product_bound(mag as nat, k as nat, (-sh) as nat, m as nat);
            }
            if sh == 0 {
                mag
            } else {
                mag * pow2_u64((-sh) as u32)
            }
        };
        if q == pm {
            sign + pm
        } else {
            proof {
                lemma2_to64_rest();
                if m == 23 {
                    vstd::arithmetic::power2::lemma_pow2_strictly_increases(23, 52);
                }
            }
            sign + q
        }
    } else {
        if k <= m {
            proof {
                lemma_mantissa_shift_bounds(mag as nat, k as nat, m as nat);
            }
            let q: u64 = mag * pow2_u64(m - k);
            if e > emax as i64 {
                sign + ((2 * emax + 1) as u64) * pm
            } else {
                sign + ((e + emax as i64) as u64) * pm + (q - pm)
            }
        } else {
            proof {
                lemma_rounded_mantissa_bounds(mag as nat, k as nat, m as nat);
            }
            let q0 = round_mantissa_u64(mag, k - m);
            let pm1 = pow2_u64(m + 1);
            let (q, e2): (u64, i64) = if q0 == pm1 {
                (pm, e + 1)
            } else {
                (q0, e)
            };
            proof {
                if q0 != pow2(m as nat + 1) {
                    lemma_rounded_q_at_least(mag as nat, k as nat, m as nat);
                }
                assert(pow2(m as nat + 1) == 2 * pow2(m as nat)) by {
                    broadcast use vstd::arithmetic::power2::lemma_pow2_unfold;

                }
            }
            if e2 > emax as i64 {
                sign + ((2 * emax + 1) as u64) * pm
            } else {
                sign + ((e2 + emax as i64) as u64) * pm + (q - pm)
            }
        }
    }
}

/// Any power of two at position 64 or above exceeds `u64::MAX`, so a
/// rounding shift that large gives zero.
proof fn lemma_pow2_increase_past_64(sh: nat)
    requires
        sh >= 65,
    ensures
        forall|x: nat| x < 0x10000000000000000 ==> spec_round_mantissa(x, sh) == 0,
{
    lemma2_to64_rest();
    vstd::arithmetic::power2::lemma_pow2_strictly_increases(64, sh);
    if sh - 1 > 64 {
        vstd::arithmetic::power2::lemma_pow2_strictly_increases(64, (sh - 1) as nat);
    }
    assert(pow2((sh - 1) as nat) >= pow2(64));
    assert forall|x: nat| x < 0x10000000000000000 implies spec_round_mantissa(x, sh) == 0 by {
        broadcast use vstd::arithmetic::power2::lemma_pow2_pos;

        vstd::arithmetic::div_mod::lemma_basic_div(x as int, pow2(sh) as int);
        vstd::arithmetic::div_mod::lemma_small_mod(x, pow2(sh));
    }
}

/// In the subnormal range a rounding shift keeps the quotient at or below
/// `2^m`.
proof fn lemma_subnormal_round_bound(mag: nat, k: nat, sh: nat, m: nat)
    requires
        pow2(k) <= mag < pow2(k + 1),
        k + 1 <= sh + m,
    ensures
        spec_round_mantissa(mag, sh) <= pow2(m),
{
    broadcast use vstd::arithmetic::power2::lemma_pow2_pos;

    if sh == 0 {
        if k + 1 < m {
            vstd::arithmetic::power2::lemma_pow2_strictly_increases(k + 1, m);
        }
    } else {
        lemma_pow2_adds(sh, m);
        if k + 1 < sh + m {
            vstd::arithmetic::power2::lemma_pow2_strictly_increases(k + 1, sh + m);
        }
        vstd::arithmetic::div_mod::lemma_multiply_divide_lt(
            mag as int,
            pow2(sh) as int,
            pow2(m) as int,
        );
    }
}

/// In the deep subnormal range the scaled magnitude stays under `2^m`.
proof fn lemma_subnormal_product_bound(mag: nat, k: nat, shn: nat, m: nat)
    requires
        pow2(k) <= mag < pow2(k + 1),
        k + 1 + shn <= m,
        m <= 52,
    ensures
        mag * pow2(shn) < pow2(m),
        mag * pow2(shn) <= 0xffffffffffffffff,
{
    broadcast use vstd::arithmetic::power2::lemma_pow2_pos;

    vstd::arithmetic::mul::lemma_mul_strict_inequality(
        mag as int,
        pow2(k + 1) as int,
        pow2(shn) as int,
    );
    lemma_pow2_adds(k + 1, shn);
    if k + 1 + shn < m {
        vstd::arithmetic::power2::lemma_pow2_strictly_increases(k + 1 + shn, m);
    }
    lemma2_to64_rest();
    if m < 64 {
        vstd::arithmetic::power2::lemma_pow2_strictly_increases(m, 64);
    }
}

/// Shifting a `k + 1`-bit magnitude up to `m + 1` bits stays in range and
/// keeps the leading bit.
proof fn lemma_mantissa_shift_bounds(mag: nat, k: nat, m: nat)
    requires
        pow2(k) <= mag < pow2(k + 1),
        k <= m,
        m <= 52,
    ensures
        pow2(m) <= mag * pow2((m - k) as nat) < pow2(m + 1),
        mag * pow2((m - k) as nat) <= 0xffffffffffffffff,
{
    broadcast use vstd::arithmetic::power2::lemma_pow2_pos;

    let d = pow2((m - k) as nat);
    vstd::arithmetic::mul::lemma_mul_inequality(pow2(k) as int, mag as int, d as int);
    vstd::arithmetic::mul::lemma_mul_inequality(mag as int + 1, pow2(k + 1) as int, d as int);
    vstd::arithmetic::mul::lemma_mul_is_distributive_add_other_way(d as int, mag as int, 1);
    lemma_pow2_adds(k, (m - k) as nat);
    lemma_pow2_adds(k + 1, (m - k) as nat);
    lemma2_to64_rest();
    if m + 1 < 64 {
        vstd::arithmetic::power2::lemma_pow2_strictly_increases(m + 1, 64);
    }
}

/// Rounding a magnitude with more than `m + 1` bits down to `m + 1` bits
/// cannot exceed `2^(m + 1)`.
proof fn lemma_rounded_mantissa_bounds(mag: nat, k: nat, m: nat)
    requires
        pow2(k) <= mag < pow2(k + 1),
        m < k,
        k <= 63,
    ensures
        mag / pow2((k - m) as nat) + 1 <= pow2(m + 1),
        mag / pow2((k - m) as nat) >= pow2(m),
{
    broadcast use vstd::arithmetic::power2::lemma_pow2_pos;

    lemma_pow2_adds((k - m) as nat, m + 1);
    vstd::arithmetic::div_mod::lemma_multiply_divide_lt(
        mag as int,
        pow2((k - m) as nat) as int,
        pow2(m + 1) as int,
    );
    lemma_pow2_adds((k - m) as nat, m);
    vstd::arithmetic::div_mod::lemma_div_is_ordered(
        pow2(k) as int,
        mag as int,
        pow2((k - m) as nat) as int,
    );
    vstd::arithmetic::div_mod::lemma_div_multiples_vanish(
        pow2(m) as int,
        pow2((k - m) as nat) as int,
    );
}

/// The unrounded quotient keeps its leading bit.
proof fn lemma_rounded_q_at_least(mag: nat, k: nat, m: nat)
    requires
        pow2(k) <= mag < pow2(k + 1),
        m < k,
        k <= 63,
    ensures
        spec_round_mantissa(mag, (k - m) as nat) >= pow2(m),
{
    broadcast use vstd::arithmetic::power2::lemma_pow2_pos;

    lemma_rounded_mantissa_bounds(mag, k, m);
}

/// The sign of an IEEE single-precision bit pattern.
pub open spec fn spec_f32_neg(bits: u32) -> bool {
    bits / 0x80000000 == 1
}

/// The biased exponent field of an IEEE single-precision bit pattern.
pub open spec fn spec_f32_exp(bits: u32) -> u32 {
    (bits / 0x800000) % 0x100
}

/// The fraction field of an IEEE single-precision bit pattern.
pub open spec fn spec_f32_frac(bits: u32) -> u32 {
    bits % 0x800000
}

/// The sign of an IEEE double-precision bit pattern.
pub open spec fn spec_f64_neg(bits: u64) -> bool {
    bits / 0x8000000000000000 == 1
}

/// The biased exponent field of an IEEE double-precision bit pattern.
pub open spec fn spec_f64_exp(bits: u64) -> u64 {
    (bits / 0x10000000000000) % 0x800
}

/// The fraction field of an IEEE double-precision bit pattern.
pub open spec fn spec_f64_frac(bits: u64) -> u64 {
    bits % 0x10000000000000
}

/// The integer part of the single-precision value with the given bits,
/// as a sign and a magnitude: `None` for an infinity, for a not-a-number,
/// and for magnitudes of `2^64` or more.
pub open spec fn spec_f32_trunc(bits: u32) -> Option<(bool, u64)> {
    let neg = spec_f32_neg(bits);
    let e = spec_f32_exp(bits) as int;
    let m = spec_f32_frac(bits) as nat + pow2(23);
    if e == 255 {
        None
    } else if e < 127 {
        Some((neg, 0u64))
    } else if e <= 149 {
        Some((neg, (m / pow2((150 - e) as nat)) as u64))
    } else if e <= 190 {
        Some((neg, (m * pow2((e - 150) as nat)) as u64))
    } else {
        None
    }
}

/// The integer part of a single-precision value.
pub fn f32_trunc(bits: u32) -> (r: Option<(bool, u64)>)
    ensures
        r == spec_f32_trunc(bits),
{
    proof {
        lemma2_to64();
        lemma2_to64_rest();
    }
    let neg = bits / 0x80000000 == 1;
    let e = (bits / 0x800000) % 0x100;
    let m: u64 = (bits % 0x800000) as u64 + 0x800000;
    if e == 255 {
        None
    } else if e < 127 {
        Some((neg, 0))
    } else if e <= 149 {
        Some((neg, m / pow2_u64(150 - e)))
    } else if e <= 190 {
        proof {
            lemma_trunc_shift_bound(m as nat, 24, (e - 150) as nat);
        }
        Some((neg, m * pow2_u64(e - 150)))
    } else {
        None
    }
}

/// The integer part of the double-precision value with the given bits:
/// `None` for an infinity, for a not-a-number, and for magnitudes of
/// `2^64` or more.
pub open spec fn spec_f64_trunc(bits: u64) -> Option<(bool, u64)> {
    let neg = spec_f64_neg(bits);
    let e = spec_f64_exp(bits) as int;
    let m = spec_f64_frac(bits) as nat + pow2(52);
    if e == 2047 {
        None
    } else if e < 1023 {
        Some((neg, 0u64))
    } else if e <= 1074 {
        Some((neg, (m / pow2((1075 - e) as nat)) as u64))
    } else if e <= 1085 {
        Some((neg, (m * pow2((e - 1075) as nat)) as u64))
    } else {
        None
    }
}

/// The integer part of a double-precision value.
pub fn f64_trunc(bits: u64) -> (r: Option<(bool, u64)>)
    ensures
        r == spec_f64_trunc(bits),
{
    proof {
        lemma2_to64();
        lemma2_to64_rest();
    }
    let neg = bits / 0x8000000000000000 == 1;
    let e = ((bits / 0x10000000000000) % 0x800) as u32;
    let m: u64 = (bits % 0x10000000000000) + 0x10000000000000;
    if e == 2047 {
        None
    } else if e < 1023 {
        Some((neg, 0))
    } else if e <= 1074 {
        Some((neg, m / pow2_u64(1075 - e)))
    } else if e <= 1085 {
        proof {
            lemma_trunc_shift_bound(m as nat, 53, (e - 1075) as nat);
        }
        Some((neg, m * pow2_u64(e - 1075)))
    } else {
        None
    }
}

/// A magnitude of `w` bits shifted left within the remaining width fits
/// in a 64-bit word.
proof fn lemma_trunc_shift_bound(m: nat, w: nat, sh: nat)
    requires
        m < pow2(w),
        w + sh <= 64,
    ensures
        m * pow2(sh) < pow2(64),
        m * pow2(sh) <= 0xffffffffffffffff,
{
    broadcast use vstd::arithmetic::power2::lemma_pow2_pos;

    vstd::arithmetic::mul::lemma_mul_strict_inequality(m as int, pow2(w) as int, pow2(sh) as int);
    lemma_pow2_adds(w, sh);
    if w + sh < 64 {
        vstd::arithmetic::power2::lemma_pow2_strictly_increases(w + sh, 64);
    }
    lemma2_to64_rest();
}

/// The integer part of the IBM single-precision value with the given
/// (big-endian) bits, checked into the `i32` range. The format stores a
/// sign, a base-16 exponent in excess-64 form, and a 24-bit fraction.
pub open spec fn spec_ibm_bits_to_i32(bits: u32) -> Option<i32> {
    let neg = bits / 0x80000000 == 1;
    let e7 = (bits / 0x1000000) % 0x80;
    let m24 = bits % 0x1000000;
    if m24 == 0 {
        Some(0i32)
    } else {
        let sh = 4 * (e7 as int) - 280;
        if sh >= 32 {
            None
        } else {
            let mag = if sh >= 0 {
                m24 as nat * pow2(sh as nat)
            } else if -sh >= 24 {
                0
            } else {
                m24 as nat / pow2((-sh) as nat)
            };
            if !neg && mag <= 0x7fffffff {
                Some(mag as i32)
            } else if neg && mag <= 0x80000000 {
                Some((-(mag as int)) as i32)
            } else {
                None
            }
        }
    }
}

/// The integer part of an IBM single-precision value as an `i32`.
pub fn ibm_bits_to_i32(bits: u32) -> (r: Option<i32>)
    ensures
        r == spec_ibm_bits_to_i32(bits),
{
    proof {
        lemma2_to64();
        lemma2_to64_rest();
    }
    let neg = bits / 0x80000000 == 1;
    let e7 = (bits / 0x1000000) % 0x80;
    let m24: u64 = (bits % 0x1000000) as u64;
    if m24 == 0 {
        return Some(0);
    }
    let sh: i64 = 4 * (e7 as i64) - 280;
    if sh >= 32 {
        return None;
    }
    let mag: u64 = if sh >= 0 {
        proof {
            lemma_trunc_shift_bound(m24 as nat, 24, sh as nat);
        }
        m24 * pow2_u64(sh as u32)
    } else if sh <= -24 {
        0
    } else {
        m24 / pow2_u64((-sh) as u32)
    };
    if !neg && mag <= 0x7fffffff {
        Some(mag as i32)
    } else if neg && mag <= 0x80000000 {
        Some((-(mag as i64)) as i32)
    } else {
        None
    }
}

/// The double-precision bit pattern of the single-precision value with
/// the given bits. Finite values convert exactly; infinities map to
/// infinities; every not-a-number maps to one with the fraction shifted
/// into place.
pub open spec fn spec_f32_to_f64_bits(bits: u32) -> u64 {
    let neg = spec_f32_neg(bits);
    let e = spec_f32_exp(bits) as int;
    let f = spec_f32_frac(bits) as nat;
    if e == 255 {
        spec_assemble(neg, 2047, f * pow2(29), 52, 63) as u64
    } else if e == 0 {
        spec_float_bits(neg, f, -149, 52, 1023, 63) as u64
    } else {
        spec_float_bits(neg, f + pow2(23), e - 150, 52, 1023, 63) as u64
    }
}

/// Widens a single-precision bit pattern to double precision.
pub fn f32_to_f64_bits(bits: u32) -> (r: u64)
    ensures
        r == spec_f32_to_f64_bits(bits),
{
    proof {
        lemma2_to64();
        lemma2_to64_rest();
    }
    let neg = bits / 0x80000000 == 1;
    let e = (bits / 0x800000) % 0x100;
    let f: u64 = (bits % 0x800000) as u64;
    if e == 255 {
        let sign: u64 = if neg {
            0x8000000000000000
        } else {
            0
        };
        sign + 2047u64 * 0x10000000000000 + f * 0x20000000
    } else if e == 0 {
        float_bits(neg, f, -149, 52, 1023, 63)
    } else {
        float_bits(neg, f + 0x800000, e as i32 - 150, 52, 1023, 63)
    }
}

/// The single-precision bit pattern nearest the double-precision value
/// with the given bits, rounding to nearest with ties to even. Infinities
/// map to infinities, every not-a-number to the canonical quiet one of the
/// same sign, and overflow to infinity.
pub open spec fn spec_f64_to_f32_bits(bits: u64) -> u32 {
    let neg = spec_f64_neg(bits);
    let e = spec_f64_exp(bits) as int;
    let f = spec_f64_frac(bits) as nat;
    if e == 2047 {
        if f == 0 {
            spec_assemble(neg, 255, 0, 23, 31) as u32
        } else {
            spec_assemble(neg, 255, pow2(22), 23, 31) as u32
        }
    } else if e == 0 {
        spec_float_bits(neg, f, -1074, 23, 127, 31) as u32
    } else {
        spec_float_bits(neg, f + pow2(52), e - 1075, 23, 127, 31) as u32
    }
}

/// Narrows a double-precision bit pattern to single precision.
pub fn f64_to_f32_bits(bits: u64) -> (r: u32)
    ensures
        r == spec_f64_to_f32_bits(bits),
{
    proof {
        lemma2_to64();
        lemma2_to64_rest();
    }
    let neg = bits / 0x8000000000000000 == 1;
    let e = ((bits / 0x10000000000000) % 0x800) as u32;
    let f: u64 = bits % 0x10000000000000;
    if e == 2047 {
        let sign: u32 = if neg {
            0x80000000
        } else {
            0
        };
        if f == 0 {
            sign + 255u32 * 0x800000
        } else {
            sign + 255u32 * 0x800000 + 0x400000
        }
    } else if e == 0 {
        let r = float_bits(neg, f, -1074, 23, 127, 31);
        proof {
            lemma_float_bits_fits_u32(neg, f as nat, -1074);
        }
        r as u32
    } else {
        let r = float_bits(neg, f + 0x10000000000000, e as i32 - 1075, 23, 127, 31);
        proof {
            lemma_float_bits_fits_u32(neg, (f + 0x10000000000000) as nat, e as int - 1075);
        }
        r as u32
    }
}

/// A single-precision pattern assembled by `spec_float_bits` occupies only
/// 32 bits.
proof fn lemma_float_bits_fits_u32(neg: bool, mag: nat, scale: int)
    requires
        mag < pow2(64),
    ensures
        spec_float_bits(neg, mag, scale, 23, 127, 31) < 0x100000000,
{
    broadcast use vstd::arithmetic::power2::lemma_pow2_pos;

    lemma2_to64();
    lemma2_to64_rest();
    let m: nat = 23;
    let emax: int = 127;
    let emin: int = 1 - emax;
    if mag == 0 {
    } else {
        lemma_log2_bounds(mag);
        let k = spec_log2(mag);
        if k > 63 {
            vstd::arithmetic::power2::lemma_pow2_strictly_increases(64, k);
        }
        let e = k + scale;
        if e < emin {
            let sh = emin - m - scale;
            if sh >= 0 {
                lemma_subnormal_round_bound(mag, k, sh as nat, m);
            } else {
                lemma_subnormal_product_bound(mag, k, (-sh) as nat, m);
            }
        } else {
            if k <= m {
                lemma_mantissa_shift_bounds(mag, k, m);
                if e <= emax {
                    let field = (e + emax) as nat;
                    let q = mag * pow2((m - k) as nat);
                    vstd::arithmetic::mul::lemma_mul_inequality(field as int, 254, pow2(m) as int);
                }
            } else {
                lemma_rounded_mantissa_bounds(mag, k, m);
                let q0 = spec_round_mantissa(mag, (k - m) as nat);
                let e2 = if q0 == pow2(m + 1) {
                    e + 1
                } else {
                    e
                };
                if e2 <= emax {
                    let field = (e2 + emax) as nat;
                    vstd::arithmetic::mul::lemma_mul_inequality(field as int, 254, pow2(m) as int);
                }
            }
        }
    }
}

/// The single-precision bit pattern nearest `(-1)^neg * mag`, rounding to
/// nearest with ties to even; magnitudes beyond the range give infinity.
pub fn int_to_f32_bits(neg: bool, mag: u64) -> (r: u32)
    ensures
        r == spec_float_bits(neg, mag as nat, 0, 23, 127, 31),
{
    let r = float_bits(neg, mag, 0, 23, 127, 31);
    proof {
        lemma2_to64_rest();
        lemma_float_bits_fits_u32(neg, mag as nat, 0);
    }
    r as u32
}

/// The double-precision bit pattern nearest `(-1)^neg * mag`, rounding to
/// nearest with ties to even.
pub fn int_to_f64_bits(neg: bool, mag: u64) -> (r: u64)
    ensures
        r == spec_float_bits(neg, mag as nat, 0, 52, 1023, 63),
{
    float_bits(neg, mag, 0, 52, 1023, 63)
}

} // verus!
