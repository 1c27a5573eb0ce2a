//! Fixed-width integer fields inside header byte buffers, in either byte
//! order. Every reader and writer is specified against the spec-level
//! interpretation functions, so that writing a field and reading it back
//! is known to return the original value.

use vstd::prelude::*;

verus! {

/// The value of the `u16` stored at `off` in `s`, little- or big-endian.
pub open spec fn spec_u16_at(s: Seq<u8>, off: int, le: bool) -> u16 {
    if le {
        (s[off] + s[off + 1] * 256) as u16
    } else {
        (s[off + 1] + s[off] * 256) as u16
    }
}

/// The value of the `i16` stored at `off` in `s`.
pub open spec fn spec_i16_at(s: Seq<u8>, off: int, le: bool) -> i16 {
    spec_u16_at(s, off, le) as i16
}

/// The value of the `u32` stored at `off` in `s`.
pub open spec fn spec_u32_at(s: Seq<u8>, off: int, le: bool) -> u32 {
    if le {
        (s[off] + s[off + 1] * 0x100 + s[off + 2] * 0x10000 + s[off + 3] * 0x1000000) as u32
    } else {
        (s[off + 3] + s[off + 2] * 0x100 + s[off + 1] * 0x10000 + s[off] * 0x1000000) as u32
    }
}

/// The value of the `i32` stored at `off` in `s`.
pub open spec fn spec_i32_at(s: Seq<u8>, off: int, le: bool) -> i32 {
    spec_u32_at(s, off, le) as i32
}

/// The value of the `u64` stored at `off` in `s`.
pub open spec fn spec_u64_at(s: Seq<u8>, off: int, le: bool) -> u64 {
    if le {
        (spec_u32_at(s, off, true) + spec_u32_at(s, off + 4, true) * 0x100000000) as u64
    } else {
        (spec_u32_at(s, off + 4, false) + spec_u32_at(s, off, false) * 0x100000000) as u64
    }
}

/// Read a `u16` field from a byte slice.
pub fn get_u16(s: &[u8], off: usize, le: bool) -> (r: u16)
    requires
        off + 2 <= s@.len(),
    ensures
        r == spec_u16_at(s@, off as int, le),
{
    let n = s.len();
    let b0 = *vstd::slice::slice_index_get(s, off);
    let b1 = *vstd::slice::slice_index_get(s, off + 1);
    if le {
        b0 as u16 + (b1 as u16) * 256
    } else {
        b1 as u16 + (b0 as u16) * 256
    }
}

/// Read an `i16` field from a byte slice.
pub fn get_i16(s: &[u8], off: usize, le: bool) -> (r: i16)
    requires
        off + 2 <= s@.len(),
    ensures
        r == spec_i16_at(s@, off as int, le),
{
    get_u16(s, off, le) as i16
}

/// Read a `u32` field from a byte slice.
pub fn get_u32(s: &[u8], off: usize, le: bool) -> (r: u32)
    requires
        off + 4 <= s@.len(),
    ensures
        r == spec_u32_at(s@, off as int, le),
{
    let n = s.len();
    let b0 = *vstd::slice::slice_index_get(s, off);
    let b1 = *vstd::slice::slice_index_get(s, off + 1);
    let b2 = *vstd::slice::slice_index_get(s, off + 2);
    let b3 = *vstd::slice::slice_index_get(s, off + 3);
    if le {
        b0 as u32 + (b1 as u32) * 0x100 + (b2 as u32) * 0x10000 + (b3 as u32) * 0x1000000
    } else {
        b3 as u32 + (b2 as u32) * 0x100 + (b1 as u32) * 0x10000 + (b0 as u32) * 0x1000000
    }
}

/// Read an `i32` field from a byte slice.
pub fn get_i32(s: &[u8], off: usize, le: bool) -> (r: i32)
    requires
        off + 4 <= s@.len(),
    ensures
        r == spec_i32_at(s@, off as int, le),
{
    get_u32(s, off, le) as i32
}

/// Read a `u64` field from a byte slice.
pub fn get_u64(s: &[u8], off: usize, le: bool) -> (r: u64)
    requires
        off + 8 <= s@.len(),
    ensures
        r == spec_u64_at(s@, off as int, le),
{
    let n = s.len();
    if le {
        let lo = get_u32(s, off, true);
        let hi = get_u32(s, off + 4, true);
        lo as u64 + (hi as u64) * 0x100000000
    } else {
        let lo = get_u32(s, off + 4, false);
        let hi = get_u32(s, off, false);
        lo as u64 + (hi as u64) * 0x100000000
    }
}

/// Overwrite the two bytes at `off` in `dest` with `v`.
pub fn put_u16(dest: &mut Vec<u8>, off: usize, v: u16, le: bool)
    requires
        off + 2 <= old(dest)@.len(),
    ensures
        final(dest)@.len() == old(dest)@.len(),
        spec_u16_at(final(dest)@, off as int, le) == v,
        forall|i: int|
            0 <= i < old(dest)@.len() && !(off <= i < off + 2) ==> final(dest)@[i] == old(
                dest,
            )@[i],
{
    let n = dest.len();
    let lo = (v % 256) as u8;
    let hi = (v / 256) as u8;
    if le {
        dest.set(off, lo);
        dest.set(off + 1, hi);
    } else {
        dest.set(off, hi);
        dest.set(off + 1, lo);
    }
}

/// Overwrite the two bytes at `off` in `dest` with `v`.
pub fn put_i16(dest: &mut Vec<u8>, off: usize, v: i16, le: bool)
    requires
        off + 2 <= old(dest)@.len(),
    ensures
        final(dest)@.len() == old(dest)@.len(),
        spec_i16_at(final(dest)@, off as int, le) == v,
        forall|i: int|
            0 <= i < old(dest)@.len() && !(off <= i < off + 2) ==> final(dest)@[i] == old(
                dest,
            )@[i],
{
    put_u16(dest, off, v as u16, le);
    proof {
        let u = spec_u16_at(final(dest)@, off as int, le);
        assert(u as i16 == v) by (bit_vector)
            requires
                u == v as u16,
        ;
    }
}

/// Overwrite the four bytes at `off` in `dest` with `v`.
pub fn put_u32(dest: &mut Vec<u8>, off: usize, v: u32, le: bool)
    requires
        off + 4 <= old(dest)@.len(),
    ensures
        final(dest)@.len() == old(dest)@.len(),
        spec_u32_at(final(dest)@, off as int, le) == v,
        forall|i: int|
            0 <= i < old(dest)@.len() && !(off <= i < off + 4) ==> final(dest)@[i] == old(
                dest,
            )@[i],
{
    let n = dest.len();
    let b0 = (v % 0x100) as u8;
    let b1 = ((v / 0x100) % 0x100) as u8;
    let b2 = ((v / 0x10000) % 0x100) as u8;
    let b3 = (v / 0x1000000) as u8;
    if le {
        dest.set(off, b0);
        dest.set(off + 1, b1);
        dest.set(off + 2, b2);
        dest.set(off + 3, b3);
    } else {
        dest.set(off, b3);
        dest.set(off + 1, b2);
        dest.set(off + 2, b1);
        dest.set(off + 3, b0);
    }
}

/// Overwrite the four bytes at `off` in `dest` with `v`.
pub fn put_i32(dest: &mut Vec<u8>, off: usize, v: i32, le: bool)
    requires
        off + 4 <= old(dest)@.len(),
    ensures
        final(dest)@.len() == old(dest)@.len(),
        spec_i32_at(final(dest)@, off as int, le) == v,
        forall|i: int|
            0 <= i < old(dest)@.len() && !(off <= i < off + 4) ==> final(dest)@[i] == old(
                dest,
            )@[i],
{
    put_u32(dest, off, v as u32, le);
    proof {
        let u = spec_u32_at(final(dest)@, off as int, le);
        assert(u as i32 == v) by (bit_vector)
            requires
                u == v as u32,
        ;
    }
}

/// Overwrite the eight bytes at `off` in `dest` with `v`.
pub fn put_u64(dest: &mut Vec<u8>, off: usize, v: u64, le: bool)
    requires
        off + 8 <= old(dest)@.len(),
    ensures
        final(dest)@.len() == old(dest)@.len(),
        spec_u64_at(final(dest)@, off as int, le) == v,
        forall|i: int|
            0 <= i < old(dest)@.len() && !(off <= i < off + 8) ==> final(dest)@[i] == old(
                dest,
            )@[i],
{
    let n = dest.len();
    let lo = (v % 0x100000000) as u32;
    let hi = (v / 0x100000000) as u32;
    if le {
        put_u32(dest, off, lo, true);
        put_u32(dest, off + 4, hi, true);
    } else {
        put_u32(dest, off, hi, false);
        put_u32(dest, off + 4, lo, false);
    }
}

/// The value of the `i64` stored at `off` in `s`.
pub open spec fn spec_i64_at(s: Seq<u8>, off: int, le: bool) -> i64 {
    spec_u64_at(s, off, le) as i64
}

/// Read an `i64` field from a byte slice.
pub fn get_i64(s: &[u8], off: usize, le: bool) -> (r: i64)
    requires
        off + 8 <= s@.len(),
    ensures
        r == spec_i64_at(s@, off as int, le),
{
    get_u64(s, off, le) as i64
}

/// The two bytes that encode `v`, little- or big-endian.
pub open spec fn spec_u16_bytes(v: u16, le: bool) -> Seq<u8> {
    let lo = (v % 256) as u8;
    let hi = (v / 256) as u8;
    if le {
        seq![lo, hi]
    } else {
        seq![hi, lo]
    }
}

/// The four bytes that encode `v`.
pub open spec fn spec_u32_bytes(v: u32, le: bool) -> Seq<u8> {
    let b0 = (v % 0x100) as u8;
    let b1 = ((v / 0x100) % 0x100) as u8;
    let b2 = ((v / 0x10000) % 0x100) as u8;
    let b3 = (v / 0x1000000) as u8;
    if le {
        seq![b0, b1, b2, b3]
    } else {
        seq![b3, b2, b1, b0]
    }
}

/// The eight bytes that encode `v`.
pub open spec fn spec_u64_bytes(v: u64, le: bool) -> Seq<u8> {
    let lo = (v % 0x100000000) as u32;
    let hi = (v / 0x100000000) as u32;
    if le {
        spec_u32_bytes(lo, true) + spec_u32_bytes(hi, true)
    } else {
        spec_u32_bytes(hi, false) + spec_u32_bytes(lo, false)
    }
}

/// Reading back the bytes that encode a `u16` yields the value.
pub broadcast proof fn lemma_u16_bytes_roundtrip(v: u16, le: bool)
    ensures
        (#[trigger] spec_u16_bytes(v, le)).len() == 2,
        spec_u16_at(spec_u16_bytes(v, le), 0, le) == v,
{
}

/// Reading back the bytes that encode a `u32` yields the value.
pub broadcast proof fn lemma_u32_bytes_roundtrip(v: u32, le: bool)
    ensures
        (#[trigger] spec_u32_bytes(v, le)).len() == 4,
        spec_u32_at(spec_u32_bytes(v, le), 0, le) == v,
{
    assert(((v / 0x100) % 0x100) * 0x100 + ((v / 0x10000) % 0x100) * 0x10000 + (v / 0x1000000)
        * 0x1000000 + v % 0x100 == v) by (bit_vector);
}

/// Reading back the bytes that encode a `u64` yields the value.
pub broadcast proof fn lemma_u64_bytes_roundtrip(v: u64, le: bool)
    ensures
        (#[trigger] spec_u64_bytes(v, le)).len() == 8,
        spec_u64_at(spec_u64_bytes(v, le), 0, le) == v,
{
    let lo = (v % 0x100000000) as u32;
    let hi = (v / 0x100000000) as u32;
    lemma_u32_bytes_roundtrip(lo, le);
    lemma_u32_bytes_roundtrip(hi, le);
    if le {
        let s = spec_u32_bytes(lo, true) + spec_u32_bytes(hi, true);
        assert(spec_u32_at(s, 0, true) == lo) by {
            assert(s[0] == spec_u32_bytes(lo, true)[0]);
            assert(s[1] == spec_u32_bytes(lo, true)[1]);
            assert(s[2] == spec_u32_bytes(lo, true)[2]);
            assert(s[3] == spec_u32_bytes(lo, true)[3]);
        }
        assert(spec_u32_at(s, 4, true) == hi) by {
            assert(s[4] == spec_u32_bytes(hi, true)[0]);
            assert(s[5] == spec_u32_bytes(hi, true)[1]);
            assert(s[6] == spec_u32_bytes(hi, true)[2]);
            assert(s[7] == spec_u32_bytes(hi, true)[3]);
        }
        assert(lo + hi * 0x100000000 == v) by (bit_vector)
            requires
                lo == (v % 0x100000000) as u32 && hi == (v / 0x100000000) as u32,
        ;
    } else {
        let s = spec_u32_bytes(hi, false) + spec_u32_bytes(lo, false);
        assert(spec_u32_at(s, 4, false) == lo) by {
            assert(s[4] == spec_u32_bytes(lo, false)[0]);
            assert(s[5] == spec_u32_bytes(lo, false)[1]);
            assert(s[6] == spec_u32_bytes(lo, false)[2]);
            assert(s[7] == spec_u32_bytes(lo, false)[3]);
        }
        assert(spec_u32_at(s, 0, false) == hi) by {
            assert(s[0] == spec_u32_bytes(hi, false)[0]);
            assert(s[1] == spec_u32_bytes(hi, false)[1]);
            assert(s[2] == spec_u32_bytes(hi, false)[2]);
            assert(s[3] == spec_u32_bytes(hi, false)[3]);
        }
        assert(lo + hi * 0x100000000 == v) by (bit_vector)
            requires
                lo == (v % 0x100000000) as u32 && hi == (v / 0x100000000) as u32,
        ;
    }
}

/// Emits the two bytes that encode `v`.
pub fn emit_u16(v: u16, le: bool) -> (r: Vec<u8>)
    ensures
        r@ == spec_u16_bytes(v, le),
{
    let lo = (v % 256) as u8;
    let hi = (v / 256) as u8;
    let mut out: Vec<u8> = Vec::new();
    if le {
        out.push(lo);
        out.push(hi);
    } else {
        out.push(hi);
        out.push(lo);
    }
    proof {
        assert(out@ =~= spec_u16_bytes(v, le));
    }
    out
}

/// Emits the four bytes that encode `v`.
pub fn emit_u32(v: u32, le: bool) -> (r: Vec<u8>)
    ensures
        r@ == spec_u32_bytes(v, le),
{
    let b0 = (v % 0x100) as u8;
    let b1 = ((v / 0x100) % 0x100) as u8;
    let b2 = ((v / 0x10000) % 0x100) as u8;
    let b3 = (v / 0x1000000) as u8;
    let mut out: Vec<u8> = Vec::new();
    if le {
        out.push(b0);
        out.push(b1);
        out.push(b2);
        out.push(b3);
    } else {
        out.push(b3);
        out.push(b2);
        out.push(b1);
        out.push(b0);
    }
    proof {
        assert(out@ =~= spec_u32_bytes(v, le));
    }
    out
}

/// Emits the eight bytes that encode `v`.
pub fn emit_u64(v: u64, le: bool) -> (r: Vec<u8>)
    ensures
        r@ == spec_u64_bytes(v, le),
{
    let lo = (v % 0x100000000) as u32;
    let hi = (v / 0x100000000) as u32;
    let (a, b) = if le {
        (emit_u32(lo, true), emit_u32(hi, true))
    } else {
        (emit_u32(hi, false), emit_u32(lo, false))
    };
    let mut out = a;
    let mut b = b;
    out.append(&mut b);
    proof {
        assert(out@ =~= spec_u64_bytes(v, le));
    }
    out
}

} // verus!
