//! Sentence break iterators.

use vstd::prelude::*;
use vstd::utf8::encode_utf8;

use crate::decode::as_ints;
use crate::engine::BreakRules;
use crate::engine::RuleBreakIterator;
use crate::engine::breaks_latin1;
use crate::engine::breaks_utf16;
use crate::engine::breaks_utf8;
use crate::engine::iterator_latin1;
use crate::engine::iterator_utf16;
use crate::engine::iterator_utf8;

verus! {

/// Sentence boundaries of a UTF-8 string, as byte offsets.
pub struct SentenceBreakIterator {
    inner: RuleBreakIterator,
}

impl SentenceBreakIterator {
    /// Internal consistency.
    pub closed spec fn wf(&self) -> bool {
        self.inner.wf()
    }

    /// The boundary offsets not yet yielded.
    pub closed spec fn pending(&self) -> Seq<int> {
        self.inner.pending()
    }

    /// Binds an iterator to one input string.
    pub fn new(input: &str) -> (it: Self)
        ensures
            it.wf(),
            it.pending() == breaks_utf8(BreakRules::Sentence, encode_utf8(input@)),
    {
        SentenceBreakIterator {
            inner: iterator_utf8(input.as_bytes(), BreakRules::Sentence),
        }
    }

    /// Yields the next boundary offset, or `None` once exhausted.
    pub fn next_boundary(&mut self) -> (r: Option<usize>)
        requires
            old(self).wf(),
        ensures
            final(self).wf(),
            match r {
                Some(x) => old(self).pending().len() > 0 && x as int == old(self).pending()[0]
                    && final(self).pending() == old(self).pending().subrange(
                    1,
                    old(self).pending().len() as int,
                ),
                None => old(self).pending().len() == 0 && final(self).pending().len() == 0,
            },
    {
        self.inner.next_boundary()
    }

    /// Yields every remaining boundary offset, consuming the iterator.
    pub fn collect_boundaries(self) -> (v: Vec<usize>)
        requires
            self.wf(),
        ensures
            as_ints(v@) == self.pending(),
    {
        self.inner.collect_boundaries()
    }
}

/// Sentence boundaries of a Latin-1 buffer, as byte offsets.
pub struct SentenceBreakIteratorLatin1 {
    inner: RuleBreakIterator,
}

impl SentenceBreakIteratorLatin1 {
    /// Internal consistency.
    pub closed spec fn wf(&self) -> bool {
        self.inner.wf()
    }

    /// The boundary offsets not yet yielded.
    pub closed spec fn pending(&self) -> Seq<int> {
        self.inner.pending()
    }

    /// Binds an iterator to one input buffer.
    pub fn new(input: &[u8]) -> (it: Self)
        ensures
            it.wf(),
            it.pending() == breaks_latin1(BreakRules::Sentence, input@),
    {
        SentenceBreakIteratorLatin1 { inner: iterator_latin1(input, BreakRules::Sentence) }
    }

    /// Yields the next boundary offset, or `None` once exhausted.
    pub fn next_boundary(&mut self) -> (r: Option<usize>)
        requires
            old(self).wf(),
        ensures
            final(self).wf(),
            match r {
                Some(x) => old(self).pending().len() > 0 && x as int == old(self).pending()[0]
                    && final(self).pending() == old(self).pending().subrange(
                    1,
                    old(self).pending().len() as int,
                ),
                None => old(self).pending().len() == 0 && final(self).pending().len() == 0,
            },
    {
        self.inner.next_boundary()
    }

    /// Yields every remaining boundary offset, consuming the iterator.
    pub fn collect_boundaries(self) -> (v: Vec<usize>)
        requires
            self.wf(),
        ensures
            as_ints(v@) == self.pending(),
    {
        self.inner.collect_boundaries()
    }
}

/// Sentence boundaries of a UTF-16 buffer, as code-unit offsets.
pub struct SentenceBreakIteratorUtf16 {
    inner: RuleBreakIterator,
}

impl SentenceBreakIteratorUtf16 {
    /// Internal consistency.
    pub closed spec fn wf(&self) -> bool {
        self.inner.wf()
    }

    /// The boundary offsets not yet yielded.
    pub closed spec fn pending(&self) -> Seq<int> {
        self.inner.pending()
    }

    /// Binds an iterator to one input buffer.
    pub fn new(input: &[u16]) -> (it: Self)
        ensures
            it.wf(),
            it.pending() == breaks_utf16(BreakRules::Sentence, input@),
    {
        SentenceBreakIteratorUtf16 { inner: iterator_utf16(input, BreakRules::Sentence) }
    }

    /// Yields the next boundary offset, or `None` once exhausted.
    pub fn next_boundary(&mut self) -> (r: Option<usize>)
        requires
            old(self).wf(),
        ensures
            final(self).wf(),
            match r {
                Some(x) => old(self).pending().len() > 0 && x as int == old(self).pending()[0]
                    && final(self).pending() == old(self).pending().subrange(
                    1,
                    old(self).pending().len() as int,
                ),
                None => old(self).pending().len() == 0 && final(self).pending().len() == 0,
            },
    {
        self.inner.next_boundary()
    }

    /// Yields every remaining boundary offset, consuming the iterator.
    pub fn collect_boundaries(self) -> (v: Vec<usize>)
        requires
            self.wf(),
        ensures
            as_ints(v@) == self.pending(),
    {
        self.inner.collect_boundaries()
    }
}

} // verus!
