//! Encoding adapters.
//!
//! Each adapter turns an input buffer into a sequence of code points paired
//! with the offset, in the input's native units, just past each code point.
//! Three encodings are supported: Latin-1 (one byte per code point), UTF-8
//! (offsets are byte indices), and UTF-16 (offsets are code-unit indices).
//!
//! Decoding is total. Malformed UTF-8 is recovered by the maximal-subpart
//! policy: the longest prefix of a valid sequence is consumed and yields the
//! replacement character, and a lone UTF-16 surrogate likewise becomes the
//! replacement character. No input makes an adapter fail.

use vstd::prelude::*;
use vstd::utf8::decode_first_codepoint;
use vstd::utf8::is_continuation_byte;
use vstd::utf8::length_of_first_codepoint;
use vstd::utf8::valid_first_scalar;

verus! {

/// The code point substituted for a malformed byte or unit sequence.
pub const REPLACEMENT: u32 = 0xFFFD;

// ---------------------------------------------------------------------------
// Latin-1
// ---------------------------------------------------------------------------

/// Code points of a Latin-1 buffer: each byte is its own code point.
pub open spec fn latin1_cps(bytes: Seq<u8>) -> Seq<u32> {
    bytes.map_values(|b: u8| b as u32)
}

/// Unit offsets of a Latin-1 buffer: code point `k` ends at offset `k + 1`.
pub open spec fn latin1_offs(bytes: Seq<u8>) -> Seq<int> {
    Seq::new(bytes.len(), |k: int| k + 1)
}

// ---------------------------------------------------------------------------
// UTF-8
// ---------------------------------------------------------------------------

/// The admissible range for the byte that follows a 3- or 4-byte leading
/// byte. The constrained ranges exclude overlong encodings and surrogates.
pub open spec fn second_byte_ok(b0: u8, b1: u8) -> bool {
    if b0 == 0xE0 {
        0xA0 <= b1 <= 0xBF
    } else if b0 == 0xED {
        0x80 <= b1 <= 0x9F
    } else if b0 == 0xF0 {
        0x90 <= b1 <= 0xBF
    } else if b0 == 0xF4 {
        0x80 <= b1 <= 0x8F
    } else {
        0x80 <= b1 <= 0xBF
    }
}

/// Width of the maximal subpart of an ill-formed sequence starting at `i`:
/// the longest prefix that could still begin a well-formed sequence.
pub open spec fn invalid_advance(bytes: Seq<u8>, i: int) -> int
    recommends
        0 <= i < bytes.len(),
{
    let b0 = bytes[i];
    if 0xE0 <= b0 <= 0xEF {
        if i + 1 < bytes.len() && second_byte_ok(b0, bytes[i + 1]) {
            2
        } else {
            1
        }
    } else if 0xF0 <= b0 <= 0xF4 {
        if i + 1 < bytes.len() && second_byte_ok(b0, bytes[i + 1]) {
            if i + 2 < bytes.len() && is_continuation_byte(bytes[i + 2]) {
                3
            } else {
                2
            }
        } else {
            1
        }
    } else {
        1
    }
}

/// Number of bytes consumed by the decode step at position `i`.
pub open spec fn utf8_step_width(bytes: Seq<u8>, i: int) -> int
    recommends
        0 <= i < bytes.len(),
{
    if valid_first_scalar(bytes.skip(i)) {
        length_of_first_codepoint(bytes.skip(i))
    } else {
        invalid_advance(bytes, i)
    }
}

/// Code point produced by the decode step at position `i`.
pub open spec fn utf8_step_cp(bytes: Seq<u8>, i: int) -> u32
    recommends
        0 <= i < bytes.len(),
{
    if valid_first_scalar(bytes.skip(i)) {
        decode_first_codepoint(bytes.skip(i))
    } else {
        REPLACEMENT
    }
}

/// Every decode step consumes at least one byte and stays inside the buffer.
pub proof fn lemma_utf8_step_bounds(bytes: Seq<u8>, i: int)
    requires
        0 <= i < bytes.len(),
    ensures
        1 <= utf8_step_width(bytes, i),
        i + utf8_step_width(bytes, i) <= bytes.len(),
{
    if valid_first_scalar(bytes.skip(i)) {
        assert(bytes.skip(i).len() == bytes.len() - i);
    }
}

/// Code points decoded from byte position `i` onward.
pub open spec fn utf8_cps_from(bytes: Seq<u8>, i: int) -> Seq<u32>
    decreases bytes.len() - i,
    when 0 <= i
    via utf8_cps_from_decreases
{
    if i < 0 || i >= bytes.len() {
        Seq::empty()
    } else {
        seq![utf8_step_cp(bytes, i)] + utf8_cps_from(bytes, i + utf8_step_width(bytes, i))
    }
}

#[via_fn]
proof fn utf8_cps_from_decreases(bytes: Seq<u8>, i: int) {
    if 0 <= i < bytes.len() {
        lemma_utf8_step_bounds(bytes, i);
    }
}

/// End offsets of the code points decoded from byte position `i` onward.
pub open spec fn utf8_offs_from(bytes: Seq<u8>, i: int) -> Seq<int>
    decreases bytes.len() - i,
    when 0 <= i
    via utf8_offs_from_decreases
{
    if i < 0 || i >= bytes.len() {
        Seq::empty()
    } else {
        seq![i + utf8_step_width(bytes, i)] + utf8_offs_from(
            bytes,
            i + utf8_step_width(bytes, i),
        )
    }
}

#[via_fn]
proof fn utf8_offs_from_decreases(bytes: Seq<u8>, i: int) {
    if 0 <= i < bytes.len() {
        lemma_utf8_step_bounds(bytes, i);
    }
}

// ---------------------------------------------------------------------------
// UTF-16
// ---------------------------------------------------------------------------

/// True when the unit is a high (leading) surrogate.
pub open spec fn is_high_surrogate(u: u16) -> bool {
    0xD800 <= u <= 0xDBFF
}

/// True when the unit is a low (trailing) surrogate.
pub open spec fn is_low_surrogate(u: u16) -> bool {
    0xDC00 <= u <= 0xDFFF
}

/// Number of units consumed by the decode step at position `i`: two for a
/// well-formed surrogate pair, one otherwise.
pub open spec fn utf16_step_width(units: Seq<u16>, i: int) -> int
    recommends
        0 <= i < units.len(),
{
    if is_high_surrogate(units[i]) && i + 1 < units.len() && is_low_surrogate(units[i + 1]) {
        2
    } else {
        1
    }
}

/// Code point produced by the decode step at position `i`. A lone surrogate
/// becomes the replacement character.
pub open spec fn utf16_step_cp(units: Seq<u16>, i: int) -> u32
    recommends
        0 <= i < units.len(),
{
    if is_high_surrogate(units[i]) {
        if i + 1 < units.len() && is_low_surrogate(units[i + 1]) {
            (0x10000 + (((units[i] - 0xD800) as u32) * 0x400) + ((units[i + 1] - 0xDC00) as u32)) as u32
        } else {
            REPLACEMENT
        }
    } else if is_low_surrogate(units[i]) {
        REPLACEMENT
    } else {
        units[i] as u32
    }
}

/// Code points decoded from unit position `i` onward.
pub open spec fn utf16_cps_from(units: Seq<u16>, i: int) -> Seq<u32>
    decreases units.len() - i,
    when 0 <= i
{
    if i < 0 || i >= units.len() {
        Seq::empty()
    } else {
        seq![utf16_step_cp(units, i)] + utf16_cps_from(units, i + utf16_step_width(units, i))
    }
}

/// End offsets of the code points decoded from unit position `i` onward.
pub open spec fn utf16_offs_from(units: Seq<u16>, i: int) -> Seq<int>
    decreases units.len() - i,
    when 0 <= i
{
    if i < 0 || i >= units.len() {
        Seq::empty()
    } else {
        seq![i + utf16_step_width(units, i)] + utf16_offs_from(
            units,
            i + utf16_step_width(units, i),
        )
    }
}

// ---------------------------------------------------------------------------
// Well-formedness of a decoded stream
// ---------------------------------------------------------------------------

/// Unit offsets as mathematical integers.
pub open spec fn as_ints(v: Seq<usize>) -> Seq<int> {
    v.map_values(|x: usize| x as int)
}

/// Shape shared by every adapter's output: one offset per code point, all
/// offsets strictly increasing, positive, and bounded by the input length,
/// with the last offset equal to the input length. A nonempty input decodes
/// to at least one code point.
pub open spec fn units_wf(cps: Seq<u32>, offs: Seq<int>, unit_len: int) -> bool {
    &&& cps.len() == offs.len()
    &&& (forall|k: int| 0 <= k < offs.len() ==> 0 < #[trigger] offs[k] <= unit_len)
    &&& (forall|k1: int, k2: int|
        0 <= k1 < k2 < offs.len() ==> #[trigger] offs[k1] < #[trigger] offs[k2])
    &&& (offs.len() == 0 <==> unit_len == 0)
    &&& (offs.len() > 0 ==> offs[offs.len() - 1] == unit_len)
}

/// The Latin-1 adapter's output is well formed.
pub proof fn lemma_latin1_wf(bytes: Seq<u8>)
    ensures
        units_wf(latin1_cps(bytes), latin1_offs(bytes), bytes.len() as int),
{
}

/// Strengthened induction shape for the UTF-8 stream decoded from `i` on:
/// lengths agree, offsets lie in `(i, len]`, are strictly increasing, and
/// end exactly at `len`.
pub proof fn lemma_utf8_from_shape(bytes: Seq<u8>, i: int)
    requires
        0 <= i <= bytes.len(),
    ensures
        utf8_cps_from(bytes, i).len() == utf8_offs_from(bytes, i).len(),
        utf8_offs_from(bytes, i).len() == 0 <==> i == bytes.len(),
        forall|k: int|
            0 <= k < utf8_offs_from(bytes, i).len() ==> i < #[trigger] utf8_offs_from(bytes, i)[k]
                <= bytes.len(),
        forall|k1: int, k2: int|
            0 <= k1 < k2 < utf8_offs_from(bytes, i).len() ==> #[trigger] utf8_offs_from(
                bytes,
                i,
            )[k1] < #[trigger] utf8_offs_from(bytes, i)[k2],
        i < bytes.len() ==> utf8_offs_from(bytes, i)[utf8_offs_from(bytes, i).len() - 1]
            == bytes.len(),
    decreases bytes.len() - i,
{
    if i < bytes.len() {
        lemma_utf8_step_bounds(bytes, i);
        let w = utf8_step_width(bytes, i);
        lemma_utf8_from_shape(bytes, i + w);
    }
}

/// The UTF-8 adapter's output is well formed.
pub proof fn lemma_utf8_wf(bytes: Seq<u8>)
    ensures
        units_wf(utf8_cps_from(bytes, 0), utf8_offs_from(bytes, 0), bytes.len() as int),
{
    lemma_utf8_from_shape(bytes, 0);
}

/// Every UTF-16 decode step consumes at least one unit and stays inside the
/// buffer.
pub proof fn lemma_utf16_step_bounds(units: Seq<u16>, i: int)
    requires
        0 <= i < units.len(),
    ensures
        1 <= utf16_step_width(units, i),
        i + utf16_step_width(units, i) <= units.len(),
{
}

/// Strengthened induction shape for the UTF-16 stream decoded from `i` on.
pub proof fn lemma_utf16_from_shape(units: Seq<u16>, i: int)
    requires
        0 <= i <= units.len(),
    ensures
        utf16_cps_from(units, i).len() == utf16_offs_from(units, i).len(),
        utf16_offs_from(units, i).len() == 0 <==> i == units.len(),
        forall|k: int|
            0 <= k < utf16_offs_from(units, i).len() ==> i < #[trigger] utf16_offs_from(
                units,
                i,
            )[k] <= units.len(),
        forall|k1: int, k2: int|
            0 <= k1 < k2 < utf16_offs_from(units, i).len() ==> #[trigger] utf16_offs_from(
                units,
                i,
            )[k1] < #[trigger] utf16_offs_from(units, i)[k2],
        i < units.len() ==> utf16_offs_from(units, i)[utf16_offs_from(units, i).len() - 1]
            == units.len(),
    decreases units.len() - i,
{
    if i < units.len() {
        let w = utf16_step_width(units, i);
        lemma_utf16_from_shape(units, i + w);
    }
}

/// The UTF-16 adapter's output is well formed.
pub proof fn lemma_utf16_wf(units: Seq<u16>)
    ensures
        units_wf(utf16_cps_from(units, 0), utf16_offs_from(units, 0), units.len() as int),
{
    lemma_utf16_from_shape(units, 0);
}

// ---------------------------------------------------------------------------
// Executable adapters
// ---------------------------------------------------------------------------

/// A decoded input buffer: the code points and, for each, the offset just
/// past it in the input's native units.
pub struct CodePointRun {
    /// The decoded code points, in input order.
    pub cps: Vec<u32>,
    /// `offs[k]` is the offset just past code point `k`.
    pub offs: Vec<usize>,
}

/// Decodes a Latin-1 buffer: every byte is its own code point.
pub fn decode_latin1(bytes: &[u8]) -> (r: CodePointRun)
    ensures
        r.cps@ == latin1_cps(bytes@),
        as_ints(r.offs@) == latin1_offs(bytes@),
{
    let n = bytes.len();
    let mut cps: Vec<u32> = Vec::new();
    let mut offs: Vec<usize> = Vec::new();
    let mut i: usize = 0;
    while i < n
        invariant
            n == bytes@.len(),
            i <= n,
            cps@.len() == i,
            offs@.len() == i,
            forall|k: int| 0 <= k < i ==> cps@[k] == bytes@[k] as u32,
            forall|k: int| 0 <= k < i ==> offs@[k] == k + 1,
        decreases n - i,
    {
        cps.push(bytes[i] as u32);
        offs.push(i + 1);
        i = i + 1;
    }
    let r = CodePointRun { cps, offs };
    proof {
        assert(r.cps@ =~= latin1_cps(bytes@));
        assert(as_ints(r.offs@) =~= latin1_offs(bytes@));
    }
    r
}

/// True when `b` has the form `10xxxxxx` of a UTF-8 continuation byte.
fn cont_byte(b: u8) -> (r: bool)
    ensures
        r == is_continuation_byte(b),
{
    0x80 <= b && b <= 0xBF
}

/// True when `b1` may follow the 3- or 4-byte leading byte `b0`.
fn second_byte_ok_exec(b0: u8, b1: u8) -> (r: bool)
    ensures
        r == second_byte_ok(b0, b1),
{
    if b0 == 0xE0 {
        0xA0 <= b1 && b1 <= 0xBF
    } else if b0 == 0xED {
        0x80 <= b1 && b1 <= 0x9F
    } else if b0 == 0xF0 {
        0x90 <= b1 && b1 <= 0xBF
    } else if b0 == 0xF4 {
        0x80 <= b1 && b1 <= 0x8F
    } else {
        0x80 <= b1 && b1 <= 0xBF
    }
}

/// One UTF-8 decode step at byte position `i`: the code point there and the
/// number of bytes it occupies. An ill-formed sequence yields the
/// replacement character over its maximal subpart.
fn utf8_step(bytes: &[u8], i: usize) -> (r: (u32, usize))
    requires
        i < bytes@.len(),
    ensures
        r.0 == utf8_step_cp(bytes@, i as int),
        r.1 == utf8_step_width(bytes@, i as int),
        1 <= r.1,
        i + r.1 <= bytes@.len(),
{
    let ghost s = bytes@.skip(i as int);
    let n = bytes.len();
    let b0 = bytes[i];
    proof {
        assert(s.len() == n - i);
        assert(s[0] == b0);
        lemma_utf8_step_bounds(bytes@, i as int);
    }
    if b0 < 0x80 {
        proof {
            assert(b0 & 0x7F == b0) by (bit_vector)
                requires
                    b0 < 0x80,
            ;
            assert(valid_first_scalar(s));
        }
        (b0 as u32, 1)
    } else if 0xC2 <= b0 && b0 <= 0xDF {
        if i + 1 < n && cont_byte(bytes[i + 1]) {
            let b1 = bytes[i + 1];
            let cp: u32 = (((b0 & 0x1F) as u32) << 6) | ((b1 & 0x3F) as u32);
            proof {
                assert(s[1] == b1);
                assert(0x80 <= cp && cp <= 0x7FF) by (bit_vector)
                    requires
                        0xC2 <= b0 && b0 <= 0xDF && 0x80 <= b1 && b1 <= 0xBF && cp == ((((b0
                            & 0x1F) as u32) << 6) | ((b1 & 0x3F) as u32)),
                ;
                assert(valid_first_scalar(s));
            }
            (cp, 2)
        } else {
            proof {
                assert(!valid_first_scalar(s));
            }
            (REPLACEMENT, 1)
        }
    } else if 0xE0 <= b0 && b0 <= 0xEF {
        if i + 1 < n && second_byte_ok_exec(b0, bytes[i + 1]) {
            let b1 = bytes[i + 1];
            if i + 2 < n && cont_byte(bytes[i + 2]) {
                let b2 = bytes[i + 2];
                let cp: u32 = (((b0 & 0x0F) as u32) << 12) | (((b1 & 0x3F) as u32) << 6) | ((b2
                    & 0x3F) as u32);
                proof {
                    assert(s[1] == b1);
                    assert(s[2] == b2);
                    assert(0x800 <= cp && cp <= 0xFFFF && !(0xD800 <= cp && cp <= 0xDFFF))
                        by (bit_vector)
                        requires
                            0xE0 <= b0 && b0 <= 0xEF && 0x80 <= b1 && b1 <= 0xBF && (b0 != 0xE0
                                || 0xA0 <= b1) && (b0 != 0xED || b1 <= 0x9F) && 0x80 <= b2 && b2
                                <= 0xBF && cp == ((((b0 & 0x0F) as u32) << 12) | (((b1
                                & 0x3F) as u32) << 6) | ((b2 & 0x3F) as u32)),
                    ;
                    assert(valid_first_scalar(s));
                }
                (cp, 3)
            } else {
                proof {
                    assert(!valid_first_scalar(s));
                }
                (REPLACEMENT, 2)
            }
        } else {
            proof {
                lemma_e_lead_bad_second(bytes@, i as int);
            }
            (REPLACEMENT, 1)
        }
    } else if 0xF0 <= b0 && b0 <= 0xF4 {
        if i + 1 < n && second_byte_ok_exec(b0, bytes[i + 1]) {
            let b1 = bytes[i + 1];
            if i + 2 < n && cont_byte(bytes[i + 2]) {
                let b2 = bytes[i + 2];
                if i + 3 < n && cont_byte(bytes[i + 3]) {
                    let b3 = bytes[i + 3];
                    let cp: u32 = (((b0 & 0x07) as u32) << 18) | (((b1 & 0x3F) as u32) << 12) | (((
                    b2 & 0x3F) as u32) << 6) | ((b3 & 0x3F) as u32);
                    proof {
                        assert(s[1] == b1);
                        assert(s[2] == b2);
                        assert(s[3] == b3);
                        assert(0x10000 <= cp && cp <= 0x10FFFF) by (bit_vector)
                            requires
                                0xF0 <= b0 && b0 <= 0xF4 && 0x80 <= b1 && b1 <= 0xBF && (b0 != 0xF0
                                    || 0x90 <= b1) && (b0 != 0xF4 || b1 <= 0x8F) && 0x80 <= b2 && b2
                                    <= 0xBF && 0x80 <= b3 && b3 <= 0xBF && cp == ((((b0
                                    & 0x07) as u32) << 18) | (((b1 & 0x3F) as u32) << 12) | (((b2
                                    & 0x3F) as u32) << 6) | ((b3 & 0x3F) as u32)),
                        ;
                        assert(valid_first_scalar(s));
                    }
                    (cp, 4)
                } else {
                    proof {
                        assert(!valid_first_scalar(s));
                    }
                    (REPLACEMENT, 3)
                }
            } else {
                proof {
                    assert(!valid_first_scalar(s));
                }
                (REPLACEMENT, 2)
            }
        } else {
            proof {
                lemma_f_lead_bad_second(bytes@, i as int);
            }
            (REPLACEMENT, 1)
        }
    } else {
        proof {
            lemma_stray_lead(bytes@, i as int);
        }
        (REPLACEMENT, 1)
    }
}

/// A 3-byte lead whose second byte is missing or out of range starts no
/// well-formed scalar.
proof fn lemma_e_lead_bad_second(bytes: Seq<u8>, i: int)
    requires
        0 <= i < bytes.len(),
        0xE0 <= bytes[i] <= 0xEF,
        i + 1 < bytes.len() ==> !second_byte_ok(bytes[i], bytes[i + 1]),
    ensures
        !valid_first_scalar(bytes.skip(i)),
{
    let s = bytes.skip(i);
    let b0 = bytes[i];
    if i + 1 < bytes.len() && is_continuation_byte(bytes[i + 1]) && i + 2 < bytes.len()
        && is_continuation_byte(bytes[i + 2]) {
        let b1 = bytes[i + 1];
        let b2 = bytes[i + 2];
        assert(s[0] == b0 && s[1] == b1 && s[2] == b2);
        let cp = (((b0 & 0x0F) as u32) << 12) | (((b1 & 0x3F) as u32) << 6) | ((b2
            & 0x3F) as u32);
        if b0 == 0xE0 {
            assert(cp < 0x800) by (bit_vector)
                requires
                    b0 == 0xE0 && 0x80 <= b1 && b1 <= 0x9F && cp == ((((b0 & 0x0F) as u32) << 12) | (((b1
                        & 0x3F) as u32) << 6) | ((b2 & 0x3F) as u32)),
            ;
        } else {
            assert(b0 == 0xED && 0xA0 <= b1);
            assert(0xD800 <= cp && cp <= 0xDFFF) by (bit_vector)
                requires
                    b0 == 0xED && 0xA0 <= b1 && b1 <= 0xBF && 0x80 <= b2 && b2 <= 0xBF && cp
                        == ((((b0 & 0x0F) as u32) << 12) | (((b1 & 0x3F) as u32) << 6) | ((b2
                        & 0x3F) as u32)),
            ;
        }
        assert(!valid_first_scalar(s));
    } else {
        assert(!valid_first_scalar(s));
    }
}

/// A 4-byte lead whose second byte is missing or out of range starts no
/// well-formed scalar.
proof fn lemma_f_lead_bad_second(bytes: Seq<u8>, i: int)
    requires
        0 <= i < bytes.len(),
        0xF0 <= bytes[i] <= 0xF4,
        i + 1 < bytes.len() ==> !second_byte_ok(bytes[i], bytes[i + 1]),
    ensures
        !valid_first_scalar(bytes.skip(i)),
{
    let s = bytes.skip(i);
    let b0 = bytes[i];
    if i + 1 < bytes.len() && is_continuation_byte(bytes[i + 1]) && i + 2 < bytes.len()
        && is_continuation_byte(bytes[i + 2]) && i + 3 < bytes.len() && is_continuation_byte(
        bytes[i + 3],
    ) {
        let b1 = bytes[i + 1];
        let b2 = bytes[i + 2];
        let b3 = bytes[i + 3];
        assert(s[0] == b0 && s[1] == b1 && s[2] == b2 && s[3] == b3);
        let cp = (((b0 & 0x07) as u32) << 18) | (((b1 & 0x3F) as u32) << 12) | (((b2
            & 0x3F) as u32) << 6) | ((b3 & 0x3F) as u32);
        if b0 == 0xF0 {
            assert(cp < 0x10000) by (bit_vector)
                requires
                    b0 == 0xF0 && 0x80 <= b1 && b1 <= 0x8F && cp == ((((b0 & 0x07) as u32) << 18) | (((b1
                        & 0x3F) as u32) << 12) | (((b2 & 0x3F) as u32) << 6) | ((b3
                        & 0x3F) as u32)),
            ;
        } else {
            assert(b0 == 0xF4 && 0x90 <= b1);
            assert(cp > 0x10FFFF) by (bit_vector)
                requires
                    b0 == 0xF4 && 0x90 <= b1 && b1 <= 0xBF && cp == ((((b0 & 0x07) as u32) << 18)
                        | (((b1 & 0x3F) as u32) << 12) | (((b2 & 0x3F) as u32) << 6) | ((b3
                        & 0x3F) as u32)),
            ;
        }
        assert(!valid_first_scalar(s));
    } else {
        assert(!valid_first_scalar(s));
    }
}

/// A byte that can lead no sequence (a stray continuation byte, an overlong
/// 2-byte lead, or a lead beyond U+10FFFF) starts no well-formed scalar.
proof fn lemma_stray_lead(bytes: Seq<u8>, i: int)
    requires
        0 <= i < bytes.len(),
        0x80 <= bytes[i],
        !(0xC2 <= bytes[i] <= 0xDF),
        !(0xE0 <= bytes[i] <= 0xEF),
        !(0xF0 <= bytes[i] <= 0xF4),
    ensures
        !valid_first_scalar(bytes.skip(i)),
{
    let s = bytes.skip(i);
    let b0 = bytes[i];
    assert(s[0] == b0);
    if 0xC0 <= b0 <= 0xC1 && s.len() >= 2 && is_continuation_byte(s[1]) {
        let b1 = bytes[i + 1];
        assert(s[1] == b1);
        let cp = (((b0 & 0x1F) as u32) << 6) | ((b1 & 0x3F) as u32);
        assert(cp < 0x80) by (bit_vector)
            requires
                0xC0 <= b0 && b0 <= 0xC1 && cp == ((((b0 & 0x1F) as u32) << 6) | ((b1
                    & 0x3F) as u32)),
        ;
        assert(!valid_first_scalar(s));
    } else if 0xF5 <= b0 <= 0xF7 && s.len() >= 4 && is_continuation_byte(s[1])
        && is_continuation_byte(s[2]) && is_continuation_byte(s[3]) {
        let b1 = bytes[i + 1];
        let b2 = bytes[i + 2];
        let b3 = bytes[i + 3];
        assert(s[1] == b1 && s[2] == b2 && s[3] == b3);
        let cp = (((b0 & 0x07) as u32) << 18) | (((b1 & 0x3F) as u32) << 12) | (((b2
            & 0x3F) as u32) << 6) | ((b3 & 0x3F) as u32);
        assert(cp > 0x10FFFF) by (bit_vector)
            requires
                0xF5 <= b0 && b0 <= 0xF7 && cp == ((((b0 & 0x07) as u32) << 18) | (((b1
                    & 0x3F) as u32) << 12) | (((b2 & 0x3F) as u32) << 6) | ((b3
                    & 0x3F) as u32)),
        ;
        assert(!valid_first_scalar(s));
    } else {
        assert(!valid_first_scalar(s));
    }
}

/// Decodes a UTF-8 buffer, recovering from ill-formed sequences by the
/// maximal-subpart policy.
pub fn decode_utf8(bytes: &[u8]) -> (r: CodePointRun)
    ensures
        r.cps@ == utf8_cps_from(bytes@, 0),
        as_ints(r.offs@) == utf8_offs_from(bytes@, 0),
{
    let n = bytes.len();
    let mut cps: Vec<u32> = Vec::new();
    let mut offs: Vec<usize> = Vec::new();
    let mut i: usize = 0;
    while i < n
        invariant
            n == bytes@.len(),
            i <= n,
            cps@.len() == offs@.len(),
            utf8_cps_from(bytes@, 0) == cps@ + utf8_cps_from(bytes@, i as int),
            utf8_offs_from(bytes@, 0) == as_ints(offs@) + utf8_offs_from(bytes@, i as int),
        decreases n - i,
    {
        let ghost prev_offs = offs@;
        let (cp, w) = utf8_step(bytes, i);
        cps.push(cp);
        offs.push(i + w);
        proof {
            assert(as_ints(offs@) =~= as_ints(prev_offs) + seq![(i + w) as int]);
        }
        i = i + w;
    }
    let r = CodePointRun { cps, offs };
    proof {
        assert(utf8_cps_from(bytes@, n as int) =~= Seq::<u32>::empty());
        assert(utf8_offs_from(bytes@, n as int) =~= Seq::<int>::empty());
        assert(r.cps@ =~= utf8_cps_from(bytes@, 0));
        assert(as_ints(r.offs@) =~= utf8_offs_from(bytes@, 0));
    }
    r
}

/// Decodes a UTF-16 buffer. A well-formed surrogate pair yields one code
/// point of width two; a lone surrogate yields the replacement character.
pub fn decode_utf16(units: &[u16]) -> (r: CodePointRun)
    ensures
        r.cps@ == utf16_cps_from(units@, 0),
        as_ints(r.offs@) == utf16_offs_from(units@, 0),
{
    let n = units.len();
    let mut cps: Vec<u32> = Vec::new();
    let mut offs: Vec<usize> = Vec::new();
    let mut i: usize = 0;
    while i < n
        invariant
            n == units@.len(),
            i <= n,
            cps@.len() == offs@.len(),
            utf16_cps_from(units@, 0) == cps@ + utf16_cps_from(units@, i as int),
            utf16_offs_from(units@, 0) == as_ints(offs@) + utf16_offs_from(units@, i as int),
        decreases n - i,
    {
        let u = units[i];
        let ghost prev_offs = offs@;
        let w: usize;
        if 0xD800 <= u && u <= 0xDBFF {
            if i + 1 < n && 0xDC00 <= units[i + 1] && units[i + 1] <= 0xDFFF {
                let lo = units[i + 1];
                let cp: u32 = 0x10000 + ((u as u32 - 0xD800) * 0x400) + (lo as u32 - 0xDC00);
                cps.push(cp);
                w = 2;
            } else {
                cps.push(REPLACEMENT);
                w = 1;
            }
        } else if 0xDC00 <= u && u <= 0xDFFF {
            cps.push(REPLACEMENT);
            w = 1;
        } else {
            cps.push(u as u32);
            w = 1;
        }
        offs.push(i + w);
        proof {
            assert(as_ints(offs@) =~= as_ints(prev_offs) + seq![(i + w) as int]);
        }
        i = i + w;
    }
    let r = CodePointRun { cps, offs };
    proof {
        assert(utf16_cps_from(units@, n as int) =~= Seq::<u32>::empty());
        assert(utf16_offs_from(units@, n as int) =~= Seq::<int>::empty());
        assert(r.cps@ =~= utf16_cps_from(units@, 0));
        assert(as_ints(r.offs@) =~= utf16_offs_from(units@, 0));
    }
    r
}

} // verus!
