//! Laws of the boundary sequences.
//!
//! Each proof function here states a property that holds of every input
//! and every algorithm: the boundary offsets are strictly increasing and
//! end exactly at the input length, an empty input yields no boundary,
//! the pieces between consecutive boundaries reconstruct the input, no
//! boundary falls inside a multi-byte UTF-8 sequence or a UTF-16
//! surrogate pair, and the three encodings agree on ASCII input.

use vstd::prelude::*;
use vstd::utf8::is_char_boundary;
use vstd::utf8::is_char_boundary_iff_not_is_continuation_byte;
use vstd::utf8::is_char_boundary_start_end_of_seq;
use vstd::utf8::is_continuation_byte;
use vstd::utf8::length_of_first_codepoint;
use vstd::utf8::pop_first_scalar;
use vstd::utf8::valid_first_scalar;
use vstd::utf8::valid_utf8;
use vstd::utf8::valid_utf8_split;

use crate::decode::is_high_surrogate;
use crate::decode::is_low_surrogate;
use crate::decode::latin1_cps;
use crate::decode::latin1_offs;
use crate::decode::lemma_latin1_wf;
use crate::decode::lemma_utf16_wf;
use crate::decode::lemma_utf8_wf;
use crate::decode::utf16_cps_from;
use crate::decode::utf16_offs_from;
use crate::decode::utf16_step_cp;
use crate::decode::utf16_step_width;
use crate::decode::utf8_cps_from;
use crate::decode::utf8_offs_from;
use crate::decode::utf8_step_cp;
use crate::decode::utf8_step_width;
use crate::engine::BreakRules;
use crate::engine::breaks_latin1;
use crate::engine::breaks_utf16;
use crate::engine::breaks_utf8;
use crate::engine::lemma_break_offsets_shape;
use crate::property::GC_RI;
use crate::property::GC_ZWJ;
use crate::property::gcb_class;
use crate::rules_grapheme::is_grapheme_break;

verus! {

// ---------------------------------------------------------------------------
// Monotone boundaries ending at the input length; empty input, no boundary
// ---------------------------------------------------------------------------

/// For every Latin-1 input and every algorithm: the boundary offsets are
/// strictly increasing, stay within the input, a nonempty input's last
/// boundary is the input length, and an empty input yields no boundary.
pub proof fn lemma_boundaries_monotone_latin1(rules: BreakRules, bytes: Seq<u8>)
    ensures
        bytes.len() == 0 ==> breaks_latin1(rules, bytes).len() == 0,
        bytes.len() > 0 ==> breaks_latin1(rules, bytes).len() >= 1,
        bytes.len() > 0 ==> breaks_latin1(rules, bytes)[breaks_latin1(rules, bytes).len() - 1]
            == bytes.len(),
        forall|k: int|
            0 <= k < breaks_latin1(rules, bytes).len() ==> 0 <= #[trigger] breaks_latin1(
                rules,
                bytes,
            )[k] <= bytes.len(),
        forall|k1: int, k2: int|
            0 <= k1 < k2 < breaks_latin1(rules, bytes).len() ==> #[trigger] breaks_latin1(
                rules,
                bytes,
            )[k1] < #[trigger] breaks_latin1(rules, bytes)[k2],
{
    lemma_latin1_wf(bytes);
    lemma_break_offsets_shape(rules, latin1_cps(bytes), latin1_offs(bytes), bytes.len() as int);
}

/// The same shape for UTF-8 input, offsets in bytes.
pub proof fn lemma_boundaries_monotone_utf8(rules: BreakRules, bytes: Seq<u8>)
    ensures
        bytes.len() == 0 ==> breaks_utf8(rules, bytes).len() == 0,
        bytes.len() > 0 ==> breaks_utf8(rules, bytes).len() >= 1,
        bytes.len() > 0 ==> breaks_utf8(rules, bytes)[breaks_utf8(rules, bytes).len() - 1]
            == bytes.len(),
        forall|k: int|
            0 <= k < breaks_utf8(rules, bytes).len() ==> 0 <= #[trigger] breaks_utf8(
                rules,
                bytes,
            )[k] <= bytes.len(),
        forall|k1: int, k2: int|
            0 <= k1 < k2 < breaks_utf8(rules, bytes).len() ==> #[trigger] breaks_utf8(
                rules,
                bytes,
            )[k1] < #[trigger] breaks_utf8(rules, bytes)[k2],
{
    lemma_utf8_wf(bytes);
    lemma_break_offsets_shape(
        rules,
        utf8_cps_from(bytes, 0),
        utf8_offs_from(bytes, 0),
        bytes.len() as int,
    );
}

/// The same shape for UTF-16 input, offsets in code units.
pub proof fn lemma_boundaries_monotone_utf16(rules: BreakRules, units: Seq<u16>)
    ensures
        units.len() == 0 ==> breaks_utf16(rules, units).len() == 0,
        units.len() > 0 ==> breaks_utf16(rules, units).len() >= 1,
        units.len() > 0 ==> breaks_utf16(rules, units)[breaks_utf16(rules, units).len() - 1]
            == units.len(),
        forall|k: int|
            0 <= k < breaks_utf16(rules, units).len() ==> 0 <= #[trigger] breaks_utf16(
                rules,
                units,
            )[k] <= units.len(),
        forall|k1: int, k2: int|
            0 <= k1 < k2 < breaks_utf16(rules, units).len() ==> #[trigger] breaks_utf16(
                rules,
                units,
            )[k1] < #[trigger] breaks_utf16(rules, units)[k2],
{
    lemma_utf16_wf(units);
    lemma_break_offsets_shape(
        rules,
        utf16_cps_from(units, 0),
        utf16_offs_from(units, 0),
        units.len() as int,
    );
}

// ---------------------------------------------------------------------------
// The pieces between consecutive boundaries reconstruct the input
// ---------------------------------------------------------------------------

/// Concatenation of the input pieces delimited by the boundary offsets in
/// `b`, starting at offset `start`.
pub open spec fn concat_pieces<T>(s: Seq<T>, b: Seq<int>, start: int) -> Seq<T>
    decreases b.len(),
{
    if b.len() == 0 {
        Seq::empty()
    } else {
        s.subrange(start, b[0]) + concat_pieces(s, b.subrange(1, b.len() as int), b[0])
    }
}

/// Splitting at increasing offsets that end at the input length loses and
/// duplicates nothing: the pieces concatenate back to the input suffix.
pub proof fn lemma_concat_pieces<T>(s: Seq<T>, b: Seq<int>, start: int)
    requires
        0 <= start <= s.len(),
        b.len() == 0 ==> start == s.len(),
        b.len() > 0 ==> start <= b[0],
        b.len() > 0 ==> b[b.len() - 1] == s.len(),
        forall|k: int| 0 <= k < b.len() ==> 0 <= #[trigger] b[k] <= s.len(),
        forall|k1: int, k2: int| 0 <= k1 < k2 < b.len() ==> #[trigger] b[k1] < #[trigger] b[k2],
    ensures
        concat_pieces(s, b, start) == s.subrange(start, s.len() as int),
    decreases b.len(),
{
    if b.len() == 0 {
        assert(concat_pieces(s, b, start) =~= s.subrange(start, s.len() as int));
    } else {
        let rest = b.subrange(1, b.len() as int);
        lemma_concat_pieces(s, rest, b[0]);
        assert(s.subrange(start, b[0]) + s.subrange(b[0], s.len() as int) =~= s.subrange(
            start,
            s.len() as int,
        ));
    }
}

/// For every Latin-1 input and every algorithm, concatenating the byte
/// pieces between consecutive boundaries reconstructs the input exactly.
pub proof fn lemma_pieces_reconstruct_latin1(rules: BreakRules, bytes: Seq<u8>)
    ensures
        concat_pieces(bytes, breaks_latin1(rules, bytes), 0) == bytes,
{
    lemma_boundaries_monotone_latin1(rules, bytes);
    lemma_concat_pieces(bytes, breaks_latin1(rules, bytes), 0);
    assert(bytes.subrange(0, bytes.len() as int) =~= bytes);
}

/// The same reconstruction for UTF-8 input.
pub proof fn lemma_pieces_reconstruct_utf8(rules: BreakRules, bytes: Seq<u8>)
    ensures
        concat_pieces(bytes, breaks_utf8(rules, bytes), 0) == bytes,
{
    lemma_boundaries_monotone_utf8(rules, bytes);
    lemma_concat_pieces(bytes, breaks_utf8(rules, bytes), 0);
    assert(bytes.subrange(0, bytes.len() as int) =~= bytes);
}

/// The same reconstruction for UTF-16 input.
pub proof fn lemma_pieces_reconstruct_utf16(rules: BreakRules, units: Seq<u16>)
    ensures
        concat_pieces(units, breaks_utf16(rules, units), 0) == units,
{
    lemma_boundaries_monotone_utf16(rules, units);
    lemma_concat_pieces(units, breaks_utf16(rules, units), 0);
    assert(units.subrange(0, units.len() as int) =~= units);
}

// ---------------------------------------------------------------------------
// Idempotence of grapheme segmentation on Latin-1 input
// ---------------------------------------------------------------------------

/// The grapheme break relation reads only the adjacent pair when the left
/// class is neither the joiner nor a regional indicator, so two streams
/// agreeing on the pair agree on the break.
proof fn lemma_grapheme_break_pairwise(a: Seq<u32>, ai: int, b: Seq<u32>, bi: int)
    requires
        1 <= ai < a.len(),
        1 <= bi < b.len(),
        a[ai - 1] == b[bi - 1],
        a[ai] == b[bi],
        gcb_class(a[ai - 1]) != GC_ZWJ,
        gcb_class(a[ai - 1]) != GC_RI,
    ensures
        is_grapheme_break(a, ai) == is_grapheme_break(b, bi),
{
}

/// A Latin-1 code point is never a joiner or a regional indicator.
proof fn lemma_latin1_class_simple(cp: u32)
    requires
        cp <= 0xFF,
    ensures
        gcb_class(cp) != GC_ZWJ,
        gcb_class(cp) != GC_RI,
{
}

/// Idempotence for grapheme clusters over Latin-1 input: the piece between
/// two consecutive boundaries is itself one cluster, so re-segmenting it
/// yields only its start and its end, and no internal boundary.
pub proof fn lemma_grapheme_latin1_idempotent(bytes: Seq<u8>, k: int)
    requires
        0 <= k,
        k + 1 < breaks_latin1(BreakRules::Grapheme, bytes).len(),
    ensures
        breaks_latin1(
            BreakRules::Grapheme,
            bytes.subrange(
                breaks_latin1(BreakRules::Grapheme, bytes)[k],
                breaks_latin1(BreakRules::Grapheme, bytes)[k + 1],
            ),
        ) == seq![
            0int,
            breaks_latin1(BreakRules::Grapheme, bytes)[k + 1] - breaks_latin1(
                BreakRules::Grapheme,
                bytes,
            )[k],
        ],
{
    let rules = BreakRules::Grapheme;
    let b = breaks_latin1(rules, bytes);
    lemma_boundaries_monotone_latin1(rules, bytes);
    let lo = b[k];
    let hi = b[k + 1];
    assert(0 <= lo < hi <= bytes.len());
    let cps = latin1_cps(bytes);
    let offs = latin1_offs(bytes);
    let idxs = crate::engine::boundary_indices(rules, cps, 1);
    let mapped = idxs.map_values(|j: int| offs[j - 1]);
    crate::engine::lemma_boundary_indices_shape(rules, cps, 1);
    assert(mapped =~= idxs);
    assert(bytes.len() > 0);
    assert(b == seq![0int] + idxs);
    assert forall|j: int| lo < j < hi implies !crate::engine::is_boundary(rules, cps, j) by {
        if crate::engine::is_boundary(rules, cps, j) {
            crate::engine::lemma_boundary_indices_complete(rules, cps, 1, j);
            let m = choose|m: int| 0 <= m < idxs.len() && idxs[m] == j;
            assert(b[m + 1] == idxs[m]);
            if m + 1 <= k {
                assert(b[m + 1] <= b[k]);
            } else {
                assert(b[k + 1] <= b[m + 1]);
            }
        }
    }
    let piece = bytes.subrange(lo, hi);
    let pcps = latin1_cps(piece);
    assert(pcps.len() == hi - lo);
    assert forall|i: int| 1 <= i < pcps.len() implies !crate::engine::is_boundary(
        rules,
        pcps,
        i,
    ) by {
        assert(pcps[i - 1] == cps[lo + i - 1]);
        assert(pcps[i] == cps[lo + i]);
        assert(pcps[i - 1] <= 0xFF);
        lemma_latin1_class_simple(pcps[i - 1]);
        lemma_grapheme_break_pairwise(pcps, i, cps, lo + i);
        assert(!crate::engine::is_boundary(rules, cps, lo + i));
    }
    crate::engine::lemma_boundary_indices_no_interior(rules, pcps, 1);
    let pidxs = crate::engine::boundary_indices(rules, pcps, 1);
    assert(pidxs == seq![pcps.len() as int]);
    let pmapped = pidxs.map_values(|j: int| latin1_offs(piece)[j - 1]);
    assert(pmapped =~= seq![hi - lo]);
    assert(breaks_latin1(rules, piece) =~= seq![0int, hi - lo]);
}

// ---------------------------------------------------------------------------
// Boundaries never split a character's encoding
// ---------------------------------------------------------------------------

/// Every decode-step end inside a valid UTF-8 buffer is a character
/// boundary of that buffer.
proof fn lemma_utf8_offs_char_boundaries(bytes: Seq<u8>, i: int)
    requires
        valid_utf8(bytes),
        0 <= i <= bytes.len(),
        is_char_boundary(bytes, i),
    ensures
        forall|k: int|
            0 <= k < utf8_offs_from(bytes, i).len() ==> is_char_boundary(
                bytes,
                #[trigger] utf8_offs_from(bytes, i)[k],
            ),
    decreases bytes.len() - i,
{
    if i < bytes.len() {
        let suffix = bytes.skip(i);
        valid_utf8_split(bytes, i);
        assert(suffix =~= bytes.subrange(i, bytes.len() as int));
        assert(valid_utf8(suffix));
        assert(valid_first_scalar(suffix));
        let w = length_of_first_codepoint(suffix);
        assert(utf8_step_width(bytes, i) == w);
        crate::decode::lemma_utf8_step_bounds(bytes, i);
        if i + w == bytes.len() {
            is_char_boundary_start_end_of_seq(bytes);
        } else {
            let rest = pop_first_scalar(suffix);
            assert(rest =~= bytes.skip(i + w));
            assert(valid_utf8(rest));
            assert(rest.len() > 0);
            assert(valid_first_scalar(rest));
            assert(rest[0] == bytes[i + w]);
            assert(!is_continuation_byte(bytes[i + w]));
            is_char_boundary_iff_not_is_continuation_byte(bytes, i + w);
        }
        lemma_utf8_offs_char_boundaries(bytes, i + w);
        let offs_i = utf8_offs_from(bytes, i);
        let offs_n = utf8_offs_from(bytes, i + w);
        assert(offs_i == seq![i + w] + offs_n);
        assert forall|k: int| 0 <= k < offs_i.len() implies is_char_boundary(
            bytes,
            #[trigger] offs_i[k],
        ) by {
            if k == 0 {
                assert(offs_i[0] == i + w);
            } else {
                assert(offs_i[k] == offs_n[k - 1]);
            }
        }
    }
}

/// For every valid UTF-8 input and every algorithm, no boundary falls
/// inside a multi-byte character encoding: each boundary offset is a
/// character boundary of the input.
pub proof fn lemma_breaks_char_boundaries_utf8(rules: BreakRules, bytes: Seq<u8>)
    requires
        valid_utf8(bytes),
    ensures
        forall|k: int|
            0 <= k < breaks_utf8(rules, bytes).len() ==> is_char_boundary(
                bytes,
                #[trigger] breaks_utf8(rules, bytes)[k],
            ),
{
    let cps = utf8_cps_from(bytes, 0);
    let offs = utf8_offs_from(bytes, 0);
    lemma_utf8_wf(bytes);
    crate::engine::lemma_boundary_indices_shape(rules, cps, 1);
    lemma_utf8_offs_char_boundaries(bytes, 0);
    let idxs = crate::engine::boundary_indices(rules, cps, 1);
    let mapped = idxs.map_values(|j: int| offs[j - 1]);
    assert forall|k: int| 0 <= k < mapped.len() implies is_char_boundary(
        bytes,
        #[trigger] mapped[k],
    ) by {
        assert(mapped[k] == offs[idxs[k] - 1]);
        assert(1 <= idxs[k] <= cps.len());
    }
}

/// Every decode-step end inside a UTF-16 buffer stays outside well-formed
/// surrogate pairs.
proof fn lemma_utf16_offs_outside_pairs(units: Seq<u16>, i: int)
    requires
        0 <= i <= units.len(),
    ensures
        forall|k: int|
            0 <= k < utf16_offs_from(units, i).len() && #[trigger] utf16_offs_from(units, i)[k]
                < units.len() ==> !(is_high_surrogate(
                units[utf16_offs_from(units, i)[k] - 1],
            ) && is_low_surrogate(units[utf16_offs_from(units, i)[k]])),
    decreases units.len() - i,
{
    if i < units.len() {
        let w = utf16_step_width(units, i);
        crate::decode::lemma_utf16_step_bounds(units, i);
        lemma_utf16_offs_outside_pairs(units, i + w);
        let offs_i = utf16_offs_from(units, i);
        let offs_n = utf16_offs_from(units, i + w);
        assert(offs_i == seq![i + w] + offs_n);
        assert forall|k: int|
            0 <= k < offs_i.len() && #[trigger] offs_i[k] < units.len() implies !(
        is_high_surrogate(units[offs_i[k] - 1]) && is_low_surrogate(units[offs_i[k]])) by {
            if k == 0 {
                assert(offs_i[0] == i + w);
                if i + w < units.len() {
                    if w == 2 {
                        assert(is_low_surrogate(units[i + 1]));
                        assert(!is_high_surrogate(units[i + 1]));
                    } else {
                        assert(!(is_high_surrogate(units[i]) && is_low_surrogate(units[i + 1])));
                    }
                }
            } else {
                assert(offs_i[k] == offs_n[k - 1]);
            }
        }
    }
}

/// For every UTF-16 input and every algorithm, no boundary falls between
/// the two units of a well-formed surrogate pair.
pub proof fn lemma_breaks_outside_surrogate_pairs(rules: BreakRules, units: Seq<u16>)
    ensures
        forall|k: int|
            0 <= k < breaks_utf16(rules, units).len() && 0 < #[trigger] breaks_utf16(
                rules,
                units,
            )[k] < units.len() ==> !(is_high_surrogate(
                units[breaks_utf16(rules, units)[k] - 1],
            ) && is_low_surrogate(units[breaks_utf16(rules, units)[k]])),
{
    let cps = utf16_cps_from(units, 0);
    let offs = utf16_offs_from(units, 0);
    lemma_utf16_wf(units);
    crate::engine::lemma_boundary_indices_shape(rules, cps, 1);
    lemma_utf16_offs_outside_pairs(units, 0);
    let idxs = crate::engine::boundary_indices(rules, cps, 1);
    let mapped = idxs.map_values(|j: int| offs[j - 1]);
    assert forall|k: int|
        0 <= k < mapped.len() && 0 < #[trigger] mapped[k] < units.len() implies !(
    is_high_surrogate(units[mapped[k] - 1]) && is_low_surrogate(units[mapped[k]])) by {
        assert(mapped[k] == offs[idxs[k] - 1]);
        assert(1 <= idxs[k] <= cps.len());
    }
}

// ---------------------------------------------------------------------------
// The three encodings agree on ASCII input
// ---------------------------------------------------------------------------

/// On ASCII bytes, UTF-8 decoding is the identity on code points and its
/// offsets advance one byte at a time.
proof fn lemma_ascii_utf8_stream(bytes: Seq<u8>, i: int)
    requires
        0 <= i <= bytes.len(),
        forall|k: int| 0 <= k < bytes.len() ==> #[trigger] bytes[k] < 0x80,
    ensures
        utf8_cps_from(bytes, i).len() == bytes.len() - i,
        utf8_offs_from(bytes, i).len() == bytes.len() - i,
        forall|k: int|
            0 <= k < bytes.len() - i ==> #[trigger] utf8_cps_from(bytes, i)[k] == bytes[i
                + k] as u32,
        forall|k: int| 0 <= k < bytes.len() - i ==> #[trigger] utf8_offs_from(bytes, i)[k] == i + k
            + 1,
    decreases bytes.len() - i,
{
    if i < bytes.len() {
        let suffix = bytes.skip(i);
        let b = bytes[i];
        assert(suffix[0] == b);
        assert(b & 0x7F == b) by (bit_vector)
            requires
                b < 0x80,
        ;
        assert(valid_first_scalar(suffix));
        assert(utf8_step_width(bytes, i) == 1);
        assert(utf8_step_cp(bytes, i) == b as u32);
        lemma_ascii_utf8_stream(bytes, i + 1);
    }
}

/// On ASCII-valued units, UTF-16 decoding is the identity on code points
/// and its offsets advance one unit at a time.
proof fn lemma_ascii_utf16_stream(units: Seq<u16>, i: int)
    requires
        0 <= i <= units.len(),
        forall|k: int| 0 <= k < units.len() ==> #[trigger] units[k] < 0x80,
    ensures
        utf16_cps_from(units, i).len() == units.len() - i,
        utf16_offs_from(units, i).len() == units.len() - i,
        forall|k: int|
            0 <= k < units.len() - i ==> #[trigger] utf16_cps_from(units, i)[k] == units[i
                + k] as u32,
        forall|k: int| 0 <= k < units.len() - i ==> #[trigger] utf16_offs_from(units, i)[k] == i + k
            + 1,
    decreases units.len() - i,
{
    if i < units.len() {
        assert(utf16_step_width(units, i) == 1);
        assert(utf16_step_cp(units, i) == units[i] as u32);
        lemma_ascii_utf16_stream(units, i + 1);
    }
}

/// For ASCII text, the 8-bit, UTF-8, and UTF-16 views agree on the
/// boundary positions, for every algorithm: the offsets are equal number
/// for number, the unit being one byte or one code unit per character.
pub proof fn lemma_ascii_encodings_agree(rules: BreakRules, bytes: Seq<u8>, units: Seq<u16>)
    requires
        forall|k: int| 0 <= k < bytes.len() ==> #[trigger] bytes[k] < 0x80,
        units.len() == bytes.len(),
        forall|k: int| 0 <= k < units.len() ==> #[trigger] units[k] == bytes[k] as u16,
    ensures
        breaks_utf8(rules, bytes) == breaks_latin1(rules, bytes),
        breaks_utf16(rules, units) == breaks_latin1(rules, bytes),
{
    lemma_ascii_utf8_stream(bytes, 0);
    assert(forall|k: int| 0 <= k < units.len() ==> #[trigger] units[k] < 0x80);
    lemma_ascii_utf16_stream(units, 0);
    assert(utf8_cps_from(bytes, 0) =~= latin1_cps(bytes));
    assert(utf8_offs_from(bytes, 0) =~= latin1_offs(bytes));
    assert(utf16_cps_from(units, 0) =~= latin1_cps(bytes));
    assert(utf16_offs_from(units, 0) =~= latin1_offs(bytes));
}

} // verus!
