//! The line-break segmenter and its iterators.
//!
//! A segmenter is constructed once with a set of options and then hands
//! out single-pass iterators over individual inputs. The options are
//! captured at construction and never change for the segmenter's lifetime.
//! Construction validates the requested configuration; every combination
//! of the published options is encoded by the built-in tables, so
//! construction succeeds for each of them, and the contracts say so.

use vstd::prelude::*;
use vstd::utf8::encode_utf8;

use crate::decode::as_ints;
use crate::engine::BreakRules;
use crate::engine::RuleBreakIterator;
use crate::engine::breaks_latin1;
use crate::engine::breaks_utf16;
use crate::engine::breaks_utf8;
use crate::engine::iterator_latin1;
use crate::engine::iterator_utf16;
use crate::engine::iterator_utf8;
use crate::fallback::get_line_break_utf16;
use crate::fallback::get_line_break_utf8;
use crate::options::LineBreakOptions;
use crate::options::LineBreakRule;
use crate::options::SegmenterError;
use crate::options::WordBreakRule;

verus! {

/// Segments text into line break opportunities under a fixed set of
/// options.
pub struct LineBreakSegmenter {
    options: LineBreakOptions,
}

impl LineBreakSegmenter {
    /// The options this segmenter was constructed with.
    pub closed spec fn options_spec(&self) -> LineBreakOptions {
        self.options
    }

    /// Constructs a segmenter with the default options. The built-in
    /// tables always carry the default configuration, so this never
    /// fails.
    pub fn try_new() -> (r: Result<Self, SegmenterError>)
        ensures
            r matches Ok(s) && s.options_spec() == (LineBreakOptions {
                line_break_rule: LineBreakRule::Normal,
                word_break_rule: WordBreakRule::Normal,
                ja_zh: false,
            }),
    {
        LineBreakSegmenter::try_new_with_options(
            LineBreakOptions {
                line_break_rule: LineBreakRule::Normal,
                word_break_rule: WordBreakRule::Normal,
                ja_zh: false,
            },
        )
    }

    /// Constructs a segmenter with the given options. The built-in tables
    /// encode every combination of the published options, so construction
    /// succeeds for each of them.
    pub fn try_new_with_options(options: LineBreakOptions) -> (r: Result<Self, SegmenterError>)
        ensures
            r matches Ok(s) && s.options_spec() == options,
    {
        Ok(LineBreakSegmenter { options })
    }

    /// Segments a UTF-8 string; boundaries come as byte offsets. The
    /// statistical fallback is consulted first; without a model it adds
    /// no boundaries and the rule table decides alone.
    pub fn segment_str(&self, input: &str) -> (it: LineBreakIterator)
        ensures
            it.wf(),
            it.pending() == breaks_utf8(
                BreakRules::Line(self.options_spec()),
                encode_utf8(input@),
            ),
    {
        let _model = get_line_break_utf8(input);
        LineBreakIterator {
            inner: iterator_utf8(input.as_bytes(), BreakRules::Line(self.options)),
        }
    }

    /// Segments a Latin-1 buffer; boundaries come as byte offsets.
    pub fn segment_latin1(&self, input: &[u8]) -> (it: LineBreakIteratorLatin1)
        ensures
            it.wf(),
            it.pending() == breaks_latin1(BreakRules::Line(self.options_spec()), input@),
    {
        LineBreakIteratorLatin1 { inner: iterator_latin1(input, BreakRules::Line(self.options)) }
    }

    /// Segments a UTF-16 buffer; boundaries come as code-unit offsets.
    /// The statistical fallback is consulted first; without a model it
    /// adds no boundaries and the rule table decides alone.
    pub fn segment_utf16(&self, input: &[u16]) -> (it: LineBreakIteratorUtf16)
        ensures
            it.wf(),
            it.pending() == breaks_utf16(BreakRules::Line(self.options_spec()), input@),
    {
        let _model = get_line_break_utf16(input);
        LineBreakIteratorUtf16 { inner: iterator_utf16(input, BreakRules::Line(self.options)) }
    }
}

/// Line break opportunities of a UTF-8 string, as byte offsets.
pub struct LineBreakIterator {
    inner: RuleBreakIterator,
}

impl LineBreakIterator {
    /// Internal consistency.
    pub closed spec fn wf(&self) -> bool {
        self.inner.wf()
    }

    /// The boundary offsets not yet yielded.
    pub closed spec fn pending(&self) -> Seq<int> {
        self.inner.pending()
    }

    /// Yields the next boundary offset, or `None` once exhausted.
    pub fn next_boundary(&mut self) -> (r: Option<usize>)
        requires
            old(self).wf(),
        ensures
            final(self).wf(),
            match r {
                Some(x) => old(self).pending().len() > 0 && x as int == old(self).pending()[0]
                    && final(self).pending() == old(self).pending().subrange(
                    1,
                    old(self).pending().len() as int,
                ),
                None => old(self).pending().len() == 0 && final(self).pending().len() == 0,
            },
    {
        self.inner.next_boundary()
    }

    /// Yields every remaining boundary offset, consuming the iterator.
    pub fn collect_boundaries(self) -> (v: Vec<usize>)
        requires
            self.wf(),
        ensures
            as_ints(v@) == self.pending(),
    {
        self.inner.collect_boundaries()
    }
}

/// Line break opportunities of a Latin-1 buffer, as byte offsets.
pub struct LineBreakIteratorLatin1 {
    inner: RuleBreakIterator,
}

impl LineBreakIteratorLatin1 {
    /// Internal consistency.
    pub closed spec fn wf(&self) -> bool {
        self.inner.wf()
    }

    /// The boundary offsets not yet yielded.
    pub closed spec fn pending(&self) -> Seq<int> {
        self.inner.pending()
    }

    /// Yields the next boundary offset, or `None` once exhausted.
    pub fn next_boundary(&mut self) -> (r: Option<usize>)
        requires
            old(self).wf(),
        ensures
            final(self).wf(),
            match r {
                Some(x) => old(self).pending().len() > 0 && x as int == old(self).pending()[0]
                    && final(self).pending() == old(self).pending().subrange(
                    1,
                    old(self).pending().len() as int,
                ),
                None => old(self).pending().len() == 0 && final(self).pending().len() == 0,
            },
    {
        self.inner.next_boundary()
    }

    /// Yields every remaining boundary offset, consuming the iterator.
    pub fn collect_boundaries(self) -> (v: Vec<usize>)
        requires
            self.wf(),
        ensures
            as_ints(v@) == self.pending(),
    {
        self.inner.collect_boundaries()
    }
}

/// Line break opportunities of a UTF-16 buffer, as code-unit offsets.
pub struct LineBreakIteratorUtf16 {
    inner: RuleBreakIterator,
}

impl LineBreakIteratorUtf16 {
    /// Internal consistency.
    pub closed spec fn wf(&self) -> bool {
        self.inner.wf()
    }

    /// The boundary offsets not yet yielded.
    pub closed spec fn pending(&self) -> Seq<int> {
        self.inner.pending()
    }

    /// Yields the next boundary offset, or `None` once exhausted.
    pub fn next_boundary(&mut self) -> (r: Option<usize>)
        requires
            old(self).wf(),
        ensures
            final(self).wf(),
            match r {
                Some(x) => old(self).pending().len() > 0 && x as int == old(self).pending()[0]
                    && final(self).pending() == old(self).pending().subrange(
                    1,
                    old(self).pending().len() as int,
                ),
                None => old(self).pending().len() == 0 && final(self).pending().len() == 0,
            },
    {
        self.inner.next_boundary()
    }

    /// Yields every remaining boundary offset, consuming the iterator.
    pub fn collect_boundaries(self) -> (v: Vec<usize>)
        requires
            self.wf(),
        ensures
            as_ints(v@) == self.pending(),
    {
        self.inner.collect_boundaries()
    }
}

} // verus!
