//! The rule-based break iterator shared by every algorithm and encoding.
//!
//! The model is declarative: a position in the code point stream is a
//! boundary when the algorithm's rule relation allows a break there, and
//! the end of a nonempty input is always a boundary. The grapheme, word,
//! and sentence algorithms also emit a boundary at the very start of a
//! nonempty input; the line algorithm does not, since the start of text is
//! no break opportunity.
//!
//! The iterator is single-pass and lazy: each call advances the scan just
//! far enough to produce the next boundary offset, and a fresh iterator
//! must be constructed to rescan. Offsets are emitted in the input's own
//! units, strictly increasing, ending exactly at the input length.

use vstd::prelude::*;

use crate::decode::CodePointRun;
use crate::decode::as_ints;
use crate::decode::decode_latin1;
use crate::decode::decode_utf16;
use crate::decode::decode_utf8;
use crate::decode::latin1_cps;
use crate::decode::latin1_offs;
use crate::decode::lemma_latin1_wf;
use crate::decode::lemma_utf16_wf;
use crate::decode::lemma_utf8_wf;
use crate::decode::units_wf;
use crate::decode::utf16_cps_from;
use crate::decode::utf16_offs_from;
use crate::decode::utf8_cps_from;
use crate::decode::utf8_offs_from;
use crate::options::LineBreakOptions;
use crate::rules_grapheme::grapheme_break_at;
use crate::rules_grapheme::is_grapheme_break;
use crate::rules_line::is_line_break;
use crate::rules_line::line_break_at;
use crate::rules_sentence::is_sentence_break;
use crate::rules_sentence::sentence_break_at;
use crate::rules_word::is_word_break;
use crate::rules_word::word_break_at;

verus! {

/// Selects the rule relation that drives the shared engine.
#[derive(Clone, Copy, Debug, PartialEq, Eq, Structural)]
pub enum BreakRules {
    /// Grapheme-cluster boundaries.
    Grapheme,
    /// Word boundaries.
    Word,
    /// Sentence boundaries.
    Sentence,
    /// Line break opportunities under the given options.
    Line(LineBreakOptions),
}

/// True when the rule relation allows a break between `cps[i - 1]` and
/// `cps[i]`.
pub open spec fn rule_allows_break(rules: BreakRules, cps: Seq<u32>, i: int) -> bool
    recommends
        1 <= i < cps.len(),
{
    match rules {
        BreakRules::Grapheme => is_grapheme_break(cps, i),
        BreakRules::Word => is_word_break(cps, i),
        BreakRules::Sentence => is_sentence_break(cps, i),
        BreakRules::Line(opts) => is_line_break(cps, i, opts),
    }
}

/// True when the algorithm emits a boundary at offset zero of a nonempty
/// input.
pub open spec fn emits_start(rules: BreakRules) -> bool {
    match rules {
        BreakRules::Line(_) => false,
        _ => true,
    }
}

/// True when position `i` of the code point stream is a boundary: the end
/// of input always is, and interior positions follow the rule relation.
pub open spec fn is_boundary(rules: BreakRules, cps: Seq<u32>, i: int) -> bool
    recommends
        1 <= i <= cps.len(),
{
    i == cps.len() || rule_allows_break(rules, cps, i)
}

/// The boundary positions at or after `i`, as indices into the code point
/// stream, in increasing order.
pub open spec fn boundary_indices(rules: BreakRules, cps: Seq<u32>, i: int) -> Seq<int>
    decreases cps.len() + 1 - i,
    when 1 <= i
{
    if i > cps.len() {
        Seq::empty()
    } else if is_boundary(rules, cps, i) {
        seq![i] + boundary_indices(rules, cps, i + 1)
    } else {
        boundary_indices(rules, cps, i + 1)
    }
}

/// Shape of the boundary index sequence: it is strictly increasing, stays
/// in `[i, len]`, and for any start inside the input it is nonempty and
/// ends exactly at the input's last position.
pub proof fn lemma_boundary_indices_shape(rules: BreakRules, cps: Seq<u32>, i: int)
    requires
        1 <= i,
    ensures
        i > cps.len() ==> boundary_indices(rules, cps, i).len() == 0,
        i <= cps.len() ==> boundary_indices(rules, cps, i).len() >= 1,
        i <= cps.len() ==> boundary_indices(rules, cps, i)[boundary_indices(
            rules,
            cps,
            i,
        ).len() - 1] == cps.len(),
        forall|k: int|
            0 <= k < boundary_indices(rules, cps, i).len() ==> i <= #[trigger] boundary_indices(
                rules,
                cps,
                i,
            )[k] <= cps.len(),
        forall|k1: int, k2: int|
            0 <= k1 < k2 < boundary_indices(rules, cps, i).len() ==> #[trigger] boundary_indices(
                rules,
                cps,
                i,
            )[k1] < #[trigger] boundary_indices(rules, cps, i)[k2],
    decreases cps.len() + 1 - i,
{
    if i <= cps.len() {
        lemma_boundary_indices_shape(rules, cps, i + 1);
    }
}

/// The boundary index sequence is complete: every boundary position at or
/// after the start appears in it.
pub proof fn lemma_boundary_indices_complete(rules: BreakRules, cps: Seq<u32>, i: int, j: int)
    requires
        1 <= i <= j <= cps.len(),
        is_boundary(rules, cps, j),
    ensures
        boundary_indices(rules, cps, i).contains(j),
    decreases j - i,
{
    if i < j {
        lemma_boundary_indices_complete(rules, cps, i + 1, j);
        let rest = boundary_indices(rules, cps, i + 1);
        assert(exists|m: int| 0 <= m < rest.len() && rest[m] == j);
        let witness = choose|m: int| 0 <= m < rest.len() && rest[m] == j;
        let whole = boundary_indices(rules, cps, i);
        if is_boundary(rules, cps, i) {
            assert(whole == seq![i] + rest);
            assert(whole[witness + 1] == j);
        } else {
            assert(whole == rest);
            assert(whole[witness] == j);
        }
    } else {
        assert(boundary_indices(rules, cps, i)[0] == j);
    }
}

/// When no interior position from `i` on allows a break, the only
/// boundary left is the end of input.
pub proof fn lemma_boundary_indices_no_interior(rules: BreakRules, cps: Seq<u32>, i: int)
    requires
        1 <= i <= cps.len(),
        forall|j: int| i <= j < cps.len() ==> !is_boundary(rules, cps, j),
    ensures
        boundary_indices(rules, cps, i) == seq![cps.len() as int],
    decreases cps.len() - i,
{
    if i < cps.len() {
        lemma_boundary_indices_no_interior(rules, cps, i + 1);
    } else {
        assert(boundary_indices(rules, cps, i + 1) =~= Seq::<int>::empty());
        assert(boundary_indices(rules, cps, i) =~= seq![cps.len() as int]);
    }
}

/// The boundary offsets of a decoded stream, in the input's native units.
pub open spec fn break_offsets(rules: BreakRules, cps: Seq<u32>, offs: Seq<int>) -> Seq<int> {
    let mapped = boundary_indices(rules, cps, 1).map_values(|j: int| offs[j - 1]);
    if emits_start(rules) && cps.len() > 0 {
        seq![0int] + mapped
    } else {
        mapped
    }
}

/// Shape of the boundary offsets of a well-formed decoded stream: all
/// offsets lie in `[0, n]`, they are strictly increasing, an empty input
/// yields no boundary, and a nonempty input's last boundary is `n`.
pub proof fn lemma_break_offsets_shape(rules: BreakRules, cps: Seq<u32>, offs: Seq<int>, n: int)
    requires
        units_wf(cps, offs, n),
    ensures
        n == 0 ==> break_offsets(rules, cps, offs).len() == 0,
        n > 0 ==> break_offsets(rules, cps, offs).len() >= 1,
        n > 0 ==> break_offsets(rules, cps, offs)[break_offsets(rules, cps, offs).len() - 1] == n,
        forall|k: int|
            0 <= k < break_offsets(rules, cps, offs).len() ==> 0 <= #[trigger] break_offsets(
                rules,
                cps,
                offs,
            )[k] <= n,
        forall|k1: int, k2: int|
            0 <= k1 < k2 < break_offsets(rules, cps, offs).len() ==> #[trigger] break_offsets(
                rules,
                cps,
                offs,
            )[k1] < #[trigger] break_offsets(rules, cps, offs)[k2],
{
    lemma_boundary_indices_shape(rules, cps, 1);
    let idxs = boundary_indices(rules, cps, 1);
    let mapped = idxs.map_values(|j: int| offs[j - 1]);
    assert(forall|k: int| 0 <= k < mapped.len() ==> #[trigger] mapped[k] == offs[idxs[k] - 1]);
    if n == 0 {
        assert(cps.len() == 0);
    } else {
        assert(cps.len() > 0);
        assert(idxs[idxs.len() - 1] == cps.len());
        assert(mapped[mapped.len() - 1] == offs[cps.len() - 1]);
    }
}

/// Executable boundary test at position `i` of a decoded stream.
pub fn boundary_check(rules: &BreakRules, cps: &Vec<u32>, i: usize) -> (b: bool)
    requires
        1 <= i <= cps@.len(),
    ensures
        b == is_boundary(*rules, cps@, i as int),
{
    if i == cps.len() {
        true
    } else {
        match rules {
            BreakRules::Grapheme => grapheme_break_at(cps, i),
            BreakRules::Word => word_break_at(cps, i),
            BreakRules::Sentence => sentence_break_at(cps, i),
            BreakRules::Line(opts) => line_break_at(cps, i, *opts),
        }
    }
}

/// The shared scanning engine. It owns one decoded input and yields that
/// input's boundary offsets once each, in increasing order; it cannot be
/// restarted.
pub struct RuleBreakIterator {
    cps: Vec<u32>,
    offs: Vec<usize>,
    rules: BreakRules,
    pos: usize,
    start_pending: bool,
    finished: bool,
}

impl RuleBreakIterator {
    /// The input length in the input's native units.
    pub closed spec fn unit_len(&self) -> int {
        if self.offs@.len() == 0 {
            0
        } else {
            self.offs@[self.offs@.len() - 1] as int
        }
    }

    /// Internal consistency: the decoded stream is well formed and the
    /// scan position is inside it.
    pub closed spec fn wf(&self) -> bool {
        &&& units_wf(self.cps@, as_ints(self.offs@), self.unit_len())
        &&& (1 <= self.pos <= self.cps@.len() || (self.pos == 1 && self.cps@.len() == 0))
        &&& self.start_pending ==> self.pos == 1 && emits_start(self.rules) && self.cps@.len() > 0
            && !self.finished
    }

    /// The boundary offsets this iterator has yet to yield.
    pub closed spec fn pending(&self) -> Seq<int> {
        if self.finished {
            Seq::empty()
        } else {
            let mapped = boundary_indices(self.rules, self.cps@, self.pos as int).map_values(
                |j: int| as_ints(self.offs@)[j - 1],
            );
            if self.start_pending {
                seq![0int] + mapped
            } else {
                mapped
            }
        }
    }

    /// Builds an iterator over a decoded stream.
    pub fn new(run: CodePointRun, rules: BreakRules) -> (it: Self)
        requires
            units_wf(
                run.cps@,
                as_ints(run.offs@),
                if run.offs@.len() == 0 {
                    0int
                } else {
                    run.offs@[run.offs@.len() - 1] as int
                },
            ),
        ensures
            it.wf(),
            it.pending() == break_offsets(rules, run.cps@, as_ints(run.offs@)),
    {
        let pending_start = emits_start_exec(&rules) && run.cps.len() > 0;
        let it = RuleBreakIterator {
            cps: run.cps,
            offs: run.offs,
            rules,
            pos: 1,
            start_pending: pending_start,
            finished: false,
        };
        it
    }

    /// Yields the next boundary offset, or `None` once the input is
    /// exhausted. Each yielded offset is the head of what was pending, so
    /// the full yielded sequence is exactly the boundary-offset sequence
    /// of the input.
    pub fn next_boundary(&mut self) -> (r: Option<usize>)
        requires
            old(self).wf(),
        ensures
            final(self).wf(),
            match r {
                Some(x) => old(self).pending().len() > 0 && x as int == old(self).pending()[0]
                    && final(self).pending() == old(self).pending().subrange(
                    1,
                    old(self).pending().len() as int,
                ),
                None => old(self).pending().len() == 0 && final(self).pending().len() == 0,
            },
    {
        let n = self.cps.len();
        if self.finished {
            return None;
        }
        if self.start_pending {
            self.start_pending = false;
            proof {
                assert(old(self).pending()[0] == 0int);
                assert(final(self).pending() =~= old(self).pending().subrange(
                    1,
                    old(self).pending().len() as int,
                ));
            }
            return Some(0);
        }
        while self.pos < n && !boundary_check(&self.rules, &self.cps, self.pos)
            invariant
                self.wf(),
                !self.start_pending,
                !self.finished,
                n == self.cps@.len(),
                boundary_indices(self.rules, self.cps@, self.pos as int) == boundary_indices(
                    old(self).rules,
                    old(self).cps@,
                    old(self).pos as int,
                ),
                self.rules == old(self).rules,
                self.cps@ == old(self).cps@,
                self.offs@ == old(self).offs@,
                old(self).start_pending == false,
            decreases n - self.pos,
        {
            self.pos = self.pos + 1;
        }
        if n == 0 {
            proof {
                assert(boundary_indices(self.rules, self.cps@, self.pos as int).len() == 0);
            }
            return None;
        }
        let i = self.pos;
        let off = self.offs[i - 1];
        if i == n {
            self.finished = true;
        } else {
            self.pos = i + 1;
        }
        proof {
            assert(is_boundary(self.rules, self.cps@, i as int));
            let idxs = boundary_indices(self.rules, self.cps@, i as int);
            assert(idxs == seq![i as int] + boundary_indices(self.rules, self.cps@, i + 1));
            if i == n {
                assert(boundary_indices(self.rules, self.cps@, i + 1).len() == 0);
            }
            assert(old(self).pending() =~= seq![as_ints(self.offs@)[i - 1]]
                + final(self).pending());
            assert(final(self).pending() =~= old(self).pending().subrange(
                1,
                old(self).pending().len() as int,
            ));
        }
        Some(off)
    }

    /// Yields every remaining boundary offset at once, consuming the
    /// iterator.
    pub fn collect_boundaries(self) -> (v: Vec<usize>)
        requires
            self.wf(),
        ensures
            as_ints(v@) == self.pending(),
    {
        let mut it = self;
        let mut v: Vec<usize> = Vec::new();
        proof {
            assert(as_ints(v@) + it.pending() =~= self.pending());
        }
        loop
            invariant
                it.wf(),
                as_ints(v@) + it.pending() == self.pending(),
            decreases it.pending().len(),
        {
            let ghost prev_v = v@;
            let ghost prev_pending = it.pending();
            let r = it.next_boundary();
            match r {
                Some(x) => {
                    v.push(x);
                    proof {
                        assert(as_ints(v@) =~= as_ints(prev_v) + seq![x as int]);
                        assert(as_ints(v@) + it.pending() =~= as_ints(prev_v) + prev_pending);
                    }
                },
                None => {
                    proof {
                        assert(as_ints(v@) + it.pending() =~= as_ints(v@));
                    }
                    return v;
                },
            }
        }
    }
}

/// The boundary offsets of a Latin-1 buffer, in byte units.
pub open spec fn breaks_latin1(rules: BreakRules, bytes: Seq<u8>) -> Seq<int> {
    break_offsets(rules, latin1_cps(bytes), latin1_offs(bytes))
}

/// The boundary offsets of a UTF-8 buffer, in byte units.
pub open spec fn breaks_utf8(rules: BreakRules, bytes: Seq<u8>) -> Seq<int> {
    break_offsets(rules, utf8_cps_from(bytes, 0), utf8_offs_from(bytes, 0))
}

/// The boundary offsets of a UTF-16 buffer, in code-unit units.
pub open spec fn breaks_utf16(rules: BreakRules, units: Seq<u16>) -> Seq<int> {
    break_offsets(rules, utf16_cps_from(units, 0), utf16_offs_from(units, 0))
}

/// Builds the shared iterator over a Latin-1 buffer.
pub fn iterator_latin1(bytes: &[u8], rules: BreakRules) -> (it: RuleBreakIterator)
    ensures
        it.wf(),
        it.pending() == breaks_latin1(rules, bytes@),
{
    proof {
        lemma_latin1_wf(bytes@);
    }
    let run = decode_latin1(bytes);
    RuleBreakIterator::new(run, rules)
}

/// Builds the shared iterator over a UTF-8 buffer.
pub fn iterator_utf8(bytes: &[u8], rules: BreakRules) -> (it: RuleBreakIterator)
    ensures
        it.wf(),
        it.pending() == breaks_utf8(rules, bytes@),
{
    proof {
        lemma_utf8_wf(bytes@);
    }
    let run = decode_utf8(bytes);
    RuleBreakIterator::new(run, rules)
}

/// Builds the shared iterator over a UTF-16 buffer.
pub fn iterator_utf16(units: &[u16], rules: BreakRules) -> (it: RuleBreakIterator)
    ensures
        it.wf(),
        it.pending() == breaks_utf16(rules, units@),
{
    proof {
        lemma_utf16_wf(units@);
    }
    let run = decode_utf16(units);
    RuleBreakIterator::new(run, rules)
}

/// Executable twin of [`emits_start`].
fn emits_start_exec(rules: &BreakRules) -> (b: bool)
    ensures
        b == emits_start(*rules),
{
    match rules {
        BreakRules::Line(_) => false,
        _ => true,
    }
}

} // verus!
