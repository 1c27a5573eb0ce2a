//! Byte-to-text conversions for the textual parts of a file: ASCII and
//! EBCDIC handling, NUL truncation, and the heuristics around them.

use vstd::prelude::*;

verus! {

/// Whether every byte of `s` is ASCII.
pub open spec fn all_ascii(s: Seq<u8>) -> bool {
    forall|i: int| 0 <= i < s.len() ==> s[i] < 128
}

/// The characters that a sequence of ASCII bytes stands for.
pub open spec fn ascii_chars(s: Seq<u8>) -> Seq<char> {
    Seq::new(s.len(), |i: int| s[i] as char)
}

/// Whether a byte is printable ASCII: ASCII and not a control character.
pub open spec fn spec_ascii_printable(b: u8) -> bool {
    32 <= b <= 126
}

/// Whether every byte of `s` is printable ASCII.
pub open spec fn all_ascii_printable(s: Seq<u8>) -> bool {
    forall|i: int| 0 <= i < s.len() ==> spec_ascii_printable(s[i])
}

/// The position of the first NUL byte of `s`, or its length if none.
pub open spec fn spec_nul_pos(s: Seq<u8>) -> int
    decreases s.len(),
{
    if s.len() == 0 {
        0
    } else if s[0] == 0 {
        0
    } else {
        1 + spec_nul_pos(s.skip(1))
    }
}

/// The prefix of `s` before its first NUL byte.
pub open spec fn spec_truncate_at_nul(s: Seq<u8>) -> Seq<u8> {
    s.take(spec_nul_pos(s))
}

/// What `encoding8::ebcdic::to_ascii` maps each byte to.
pub uninterp spec fn ebcdic_ascii(b: u8) -> u8;

/// The ASCII equivalent of an EBCDIC byte.
///
/// Relies on `encoding8::ebcdic::to_ascii`: a fixed, total table from
/// bytes to bytes.
#[verifier::external_body]
pub fn to_ascii_byte(b: u8) -> (r: u8)
    ensures
        r == ebcdic_ascii(b),
{
    encoding8::ebcdic::to_ascii(b)
}

/// What `String::from_utf8_lossy` turns a byte sequence into.
pub uninterp spec fn lossy_chars(s: Seq<u8>) -> Seq<char>;

/// Decodes bytes as UTF-8, replacing invalid sequences.
///
/// Relies on `String::from_utf8_lossy`: a pure function of the bytes that
/// decodes ASCII bytes to the characters of the same value.
#[verifier::external_body]
pub(crate) fn utf8_lossy(bytes: &[u8]) -> (r: String)
    ensures
        r@ == lossy_chars(bytes@),
        all_ascii(bytes@) ==> r@ == ascii_chars(bytes@),
{
    String::from_utf8_lossy(bytes).to_string()
}

/// Decodes bytes as strict UTF-8.
///
/// Relies on `String::from_utf8`: it succeeds exactly on valid UTF-8, and
/// ASCII bytes decode to the characters of the same value.
#[verifier::external_body]
pub fn utf8_owned(bytes: &[u8]) -> (r: Option<String>)
    ensures
        match r {
            Some(s) => vstd::utf8::valid_utf8(bytes@) && vstd::utf8::encode_utf8(s@) == bytes@ && (
            all_ascii(bytes@) ==> s@
                == ascii_chars(bytes@)),
            None => !vstd::utf8::valid_utf8(bytes@) && !all_ascii(bytes@),
        },
{
    String::from_utf8(bytes.to_vec()).ok()
}

/// The prefix of `bytes` before its first NUL byte, as an owned vector.
pub fn truncate_at_nul(bytes: &[u8]) -> (r: Vec<u8>)
    ensures
        r@ == spec_truncate_at_nul(bytes@),
{
    let n = bytes.len();
    let mut p: usize = 0;
    while p < n && *vstd::slice::slice_index_get(bytes, p) != 0
        invariant
            n == bytes@.len(),
            0 <= p <= n,
            forall|j: int| 0 <= j < p ==> bytes@[j] != 0,
        decreases n - p,
    {
        p += 1;
    }
    let mut out: Vec<u8> = Vec::new();
    let mut i: usize = 0;
    while i < p
        invariant
            n == bytes@.len(),
            0 <= i <= p <= n,
            out@ == bytes@.take(i as int),
            forall|j: int| 0 <= j < p ==> bytes@[j] != 0,
        decreases p - i,
    {
        out.push(*vstd::slice::slice_index_get(bytes, i));
        i += 1;
        proof {
            assert(out@ =~= bytes@.take(i as int));
        }
    }
    proof {
        lemma_nul_pos_characterisation(bytes@, p as int);
    }
    out
}

/// The first NUL position is the unique prefix length whose bytes are all
/// non-NUL and which is either the whole sequence or stops at a NUL.
proof fn lemma_nul_pos_characterisation(s: Seq<u8>, p: int)
    requires
        0 <= p <= s.len(),
        forall|j: int| 0 <= j < p ==> s[j] != 0,
        p < s.len() ==> s[p] == 0,
    ensures
        spec_nul_pos(s) == p,
        s.take(p) == spec_truncate_at_nul(s),
    decreases s.len(),
{
    if s.len() == 0 {
    } else if s[0] == 0 {
    } else {
        lemma_nul_pos_characterisation(s.skip(1), p - 1);
        assert(s.take(p) =~= seq![s[0]] + s.skip(1).take(p - 1));
        assert(spec_truncate_at_nul(s) =~= seq![s[0]] + s.skip(1).take(p - 1));
    }
}

/// Converts ASCII NUL-terminated bytes to a string: the bytes before the
/// first NUL, decoded as text.
pub fn ascii_bytes_to_string(bytes: &[u8]) -> (r: String)
    ensures
        r@ == lossy_chars(spec_truncate_at_nul(bytes@)),
        all_ascii(spec_truncate_at_nul(bytes@)) ==> r@ == ascii_chars(
            spec_truncate_at_nul(bytes@),
        ),
{
    let truncated = truncate_at_nul(bytes);
    utf8_lossy(truncated.as_slice())
}

/// Whether every byte of the region is printable ASCII.
pub fn region_is_ascii(bytes: &[u8]) -> (r: bool)
    ensures
        r == all_ascii_printable(bytes@),
{
    let n = bytes.len();
    let mut i: usize = 0;
    while i < n
        invariant
            n == bytes@.len(),
            0 <= i <= n,
            forall|j: int| 0 <= j < i ==> spec_ascii_printable(bytes@[j]),
        decreases n - i,
    {
        let b = *vstd::slice::slice_index_get(bytes, i);
        if b < 32 || b > 126 {
            return false;
        }
        i += 1;
    }
    true
}

/// The text bytes a header region stands for: the region itself when it is
/// printable ASCII, otherwise its EBCDIC-to-ASCII image, truncated at the
/// first NUL either way.
pub open spec fn spec_header_text_bytes(s: Seq<u8>) -> Seq<u8> {
    if all_ascii_printable(s) {
        spec_truncate_at_nul(s)
    } else {
        spec_truncate_at_nul(Seq::new(s.len(), |i: int| ebcdic_ascii(s[i])))
    }
}

/// Converts a header text region to ASCII bytes, mapping out of EBCDIC
/// unless the region already is printable ASCII, and truncating at the
/// first NUL.
pub fn convert_bytes_to_ascii(bytes: &[u8]) -> (r: Vec<u8>)
    ensures
        r@ == spec_header_text_bytes(bytes@),
{
    if region_is_ascii(bytes) {
        truncate_at_nul(bytes)
    } else {
        let n = bytes.len();
        let mut mapped: Vec<u8> = Vec::new();
        let mut i: usize = 0;
        while i < n
            invariant
                n == bytes@.len(),
                0 <= i <= n,
                mapped@.len() == i,
                forall|j: int| 0 <= j < i ==> mapped@[j] == ebcdic_ascii(bytes@[j]),
            decreases n - i,
        {
            let b = *vstd::slice::slice_index_get(bytes, i);
            mapped.push(to_ascii_byte(b));
            i += 1;
        }
        proof {
            assert(mapped@ =~= Seq::new(bytes@.len(), |i: int| ebcdic_ascii(bytes@[i])));
        }
        truncate_at_nul(mapped.as_slice())
    }
}

} // verus!
