//! The coordinate scalar: the somewhat unusual way the trace header
//! expresses the scaling factor of coordinates.
//!
//! Coordinates are stored as integers, so a decimal coordinate is scaled
//! into an integer before writing and scaled back when reading. The
//! header stores the scaling as a signed 16-bit value: a positive value
//! is a divisor applied on write, and a negative value stands for the
//! reciprocal. The multiplier is kept exactly, as either an integer or
//! the reciprocal of one.

use vstd::prelude::*;

verus! {

/// An exact multiplier: a positive integer, or the reciprocal of one for
/// multipliers below one.
#[derive(Debug, Clone, Copy, PartialEq, Eq, Structural)]
pub enum Multiplier {
    /// The integer `n`, for multipliers of one and above.
    Int(i64),
    /// `1 / n`, for multipliers below one.
    Recip(i64),
}

/// A coordinate multiplier together with the 16-bit scalar that stands
/// for it in a trace header.
#[derive(Debug, Clone, Copy, PartialEq, Eq, Structural)]
pub struct CoordinateScalar {
    /// The exact multiplier the scalar was created from.
    pub original_multiplier: Multiplier,
    /// The 16-bit value written to the trace header.
    pub writeable_scalar: i16,
}

impl CoordinateScalar {
    /// What a scalar holds when it is well formed: the multiplier is
    /// positive, and the stored scalar is the multiplier itself for
    /// multipliers above one, the negated denominator for reciprocal
    /// multipliers above one, and zero for a multiplier of exactly one.
    pub open spec fn wf(self) -> bool {
        match self.original_multiplier {
            Multiplier::Int(m) => 1 <= m <= i16::MAX && self.writeable_scalar == (if m == 1 {
                0
            } else {
                m as i16
            }),
            Multiplier::Recip(d) => 1 <= d <= i16::MAX && self.writeable_scalar == (if d == 1 {
                0
            } else {
                (-d) as i16
            }),
        }
    }

    /// A scalar from an integer multiplier. A negative or zero
    /// multiplier, or one beyond the 16-bit range, has no scalar.
    pub fn from_multiplier(multiplier: i64) -> (r: Option<CoordinateScalar>)
        ensures
            1 <= multiplier <= i16::MAX ==> (r matches Some(s) && s.wf()
                && s.original_multiplier == Multiplier::Int(multiplier)),
            !(1 <= multiplier <= i16::MAX) ==> r is None,
    {
        if multiplier < 1 || multiplier > i16::MAX as i64 {
            return None;
        }
        let writeable_scalar: i16 = if multiplier == 1 {
            0
        } else {
            multiplier as i16
        };
        Some(CoordinateScalar { original_multiplier: Multiplier::Int(multiplier), writeable_scalar })
    }

    /// A scalar from the reciprocal multiplier `1 / denominator`: the
    /// way a decimal coordinate keeps its places, by storing it
    /// premultiplied with `denominator`. A denominator outside
    /// `1..=i16::MAX` has no scalar.
    pub fn from_multiplier_recip(denominator: i64) -> (r: Option<CoordinateScalar>)
        ensures
            1 <= denominator <= i16::MAX ==> (r matches Some(s) && s.wf()
                && s.original_multiplier == Multiplier::Recip(denominator)),
            !(1 <= denominator <= i16::MAX) ==> r is None,
    {
        if denominator < 1 || denominator > i16::MAX as i64 {
            return None;
        }
        let writeable_scalar: i16 = if denominator == 1 {
            0
        } else {
            (-denominator) as i16
        };
        Some(
            CoordinateScalar {
                original_multiplier: Multiplier::Recip(denominator),
                writeable_scalar,
            },
        )
    }

    /// The value that is stored for a coordinate: the coordinate divided
    /// by the multiplier, truncated.
    pub open spec fn spec_scale(self, x: int) -> int {
        match self.original_multiplier {
            Multiplier::Int(m) => crate::utils::spec_div_trunc(x, m as int),
            Multiplier::Recip(d) => x * d,
        }
    }

    /// Scales a coordinate to the stored integer form, checked into the
    /// `i32` range: the write-time conversion. A value the range cannot
    /// hold gives `None`, which the writer reports as a conversion
    /// error.
    pub fn scale_to_i32(&self, x: i64) -> (r: Option<i32>)
        requires
            self.wf(),
        ensures
            i32::MIN <= self.spec_scale(x as int) <= i32::MAX ==> r == Some(
                self.spec_scale(x as int) as i32,
            ),
            !(i32::MIN <= self.spec_scale(x as int) <= i32::MAX) ==> r is None,
    {
        match self.original_multiplier {
            Multiplier::Int(m) => {
                let (neg, magx) = split_sign_i64(x);
                let q: u64 = magx / (m as u64);
                proof {
                    if neg {
                        assert((-(x as int)) / (m as int) == q);
                    }
                }
                if !neg && q <= i32::MAX as u64 {
                    Some(q as i32)
                } else if neg && q <= 0x80000000u64 {
                    Some((-(q as i64)) as i32)
                } else {
                    None
                }
            },
            Multiplier::Recip(d) => {
                if x > i32::MAX as i64 || x < i32::MIN as i64 {
                    proof {
                        lemma_scale_magnifies(x as int, d as int);
                    }
                    None
                } else {
                    proof {
                        assert(-0x40000000000000 <= (x as int) * (d as int)
                            <= 0x40000000000000) by (nonlinear_arith)
                            requires
                                -0x80000000 <= x <= 0x7fffffff,
                                1 <= d <= 0x7fff,
                        ;
                    }
                    let p = x * d;
                    if p >= i32::MIN as i64 && p <= i32::MAX as i64 {
                        Some(p as i32)
                    } else {
                        None
                    }
                }
            },
        }
    }

    /// Scales a coordinate without the `i32` range check, truncated to
    /// the integer part.
    pub fn scale(&self, x: i64) -> (r: i64)
        requires
            self.wf(),
            i64::MIN <= self.spec_scale(x as int) <= i64::MAX,
        ensures
            r == self.spec_scale(x as int),
    {
        match self.original_multiplier {
            Multiplier::Int(m) => {
                let (neg, magx) = split_sign_i64(x);
                let q: u64 = magx / (m as u64);
                proof {
                    if neg {
                        assert((-(x as int)) / (m as int) == q);
                        vstd::arithmetic::div_mod::lemma_div_is_ordered(
                            0,
                            -(x as int),
                            m as int,
                        );
                    } else {
                        vstd::arithmetic::div_mod::lemma_div_is_ordered(0, x as int, m as int);
                    }
                }
                if neg {
                    if q == 0x8000000000000000u64 {
                        i64::MIN
                    } else {
                        -(q as i64)
                    }
                } else {
                    q as i64
                }
            },
            Multiplier::Recip(d) => { x * d },
        }
    }

    /// The exact multiplier.
    pub fn multiplier(&self) -> (r: Multiplier)
        ensures
            r == self.original_multiplier,
    {
        self.original_multiplier
    }

    /// The scalar as it is written to the trace header.
    pub fn writeable_scalar(&self) -> (r: i16)
        ensures
            r == self.writeable_scalar,
    {
        self.writeable_scalar
    }
}

/// Division truncated towards zero, as machine division behaves.
pub open spec fn spec_div_trunc(x: int, m: int) -> int {
    if x >= 0 {
        x / m
    } else {
        -((-x) / m)
    }
}

/// An `i64` as a strict sign and a magnitude.
fn split_sign_i64(x: i64) -> (r: (bool, u64))
    ensures
        (if r.0 {
            -(r.1 as int)
        } else {
            r.1 as int
        }) == x,
        r.0 ==> r.1 > 0,
{
    if x < 0 {
        if x == i64::MIN {
            (true, 0x8000000000000000u64)
        } else {
            (true, (-x) as u64)
        }
    } else {
        (false, x as u64)
    }
}

/// Magnifying a coordinate outside the 32-bit range by a positive
/// denominator leaves it outside the range.
proof fn lemma_scale_magnifies(x: int, d: int)
    requires
        1 <= d,
        x < i32::MIN || x > i32::MAX,
    ensures
        !(i32::MIN <= x * d <= i32::MAX),
{
    if x > i32::MAX {
        vstd::arithmetic::mul::lemma_mul_inequality(1, d, x);
        vstd::arithmetic::mul::lemma_mul_is_commutative(d, x);
        vstd::arithmetic::mul::lemma_mul_is_commutative(x, 1);
    } else {
        vstd::arithmetic::mul::lemma_mul_inequality(1, d, -x);
        vstd::arithmetic::mul::lemma_mul_is_commutative(d, -x);
        vstd::arithmetic::mul::lemma_mul_is_commutative(-x, 1);
        assert((-x) * d == -(x * d)) by {
            vstd::arithmetic::mul::lemma_mul_is_distributive_sub_other_way(d, 0, x);
        }
    }
}

/// Law (scalar direction): a multiplier above one stores a positive
/// scalar, and a reciprocal multiplier below one stores a negative
/// scalar; the header never stores a reciprocal as a positive value.
pub proof fn lemma_scalar_direction(s: CoordinateScalar)
    requires
        s.wf(),
    ensures
        (s.original_multiplier matches Multiplier::Int(m) && m > 1) ==> s.writeable_scalar > 0,
        (s.original_multiplier matches Multiplier::Recip(d) && d > 1) ==> s.writeable_scalar < 0,
{
}

/// Law (coarse multipliers are lossy): scaling with an integer
/// multiplier that does not divide the coordinate, then undoing the
/// scale, yields a different coordinate. A round trip through such a
/// scalar must observe inequality.
pub proof fn lemma_coarse_scaling_is_lossy(s: CoordinateScalar, x: int)
    requires
        s.wf(),
        s.original_multiplier matches Multiplier::Int(m) && x % (m as int) != 0,
    ensures
        s.spec_scale(x) * (s.original_multiplier->Int_0 as int) != x,
{
    let m = s.original_multiplier->Int_0 as int;
    if x >= 0 {
        vstd::arithmetic::div_mod::lemma_fundamental_div_mod(x, m);
        vstd::arithmetic::mul::lemma_mul_is_commutative(x / m, m);
    } else {
        vstd::arithmetic::div_mod::lemma_fundamental_div_mod(-x, m);
        vstd::arithmetic::mul::lemma_mul_is_commutative((-x) / m, m);
        assert((-((-x) / m)) * m == -(((-x) / m) * m)) by {
            vstd::arithmetic::mul::lemma_mul_is_distributive_sub_other_way(m, 0, (-x) / m);
        }
        if (-x) % m == 0 {
            let t = (-x) / m;
            assert(-x == m * t);
            assert(x == (-t) * m) by {
                vstd::arithmetic::mul::lemma_mul_is_commutative(m, t);
                vstd::arithmetic::mul::lemma_mul_is_distributive_sub_other_way(m, 0, t);
            }
            vstd::arithmetic::div_mod::lemma_mod_multiples_basic(-t, m);
        }
    }
}

/// Law (reciprocal scaling is exact): a reciprocal multiplier scales
/// every coordinate without loss; dividing the stored value by the
/// denominator recovers the coordinate exactly.
pub proof fn lemma_recip_scaling_is_exact(s: CoordinateScalar, x: int)
    requires
        s.wf(),
        s.original_multiplier matches Multiplier::Recip(_),
    ensures
        s.spec_scale(x) / (s.original_multiplier->Recip_0 as int) == x,
{
    let d = s.original_multiplier->Recip_0 as int;
    vstd::arithmetic::div_mod::lemma_div_multiples_vanish(x, d);
    vstd::arithmetic::mul::lemma_mul_is_commutative(x, d);
}

} // verus!
