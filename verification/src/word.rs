//! Word break iterators.

use vstd::prelude::*;
use vstd::utf8::encode_utf8;

use crate::decode::as_ints;
use crate::engine::BreakRules;
use crate::engine::RuleBreakIterator;
use crate::engine::breaks_latin1;
use crate::engine::breaks_utf16;
use crate::engine::breaks_utf8;
use crate::engine::iterator_latin1;
use crate::engine::iterator_utf16;
use crate::engine::iterator_utf8;

verus! {

/// Word boundaries of a UTF-8 string, as byte offsets.
pub struct WordBreakIterator {
    inner: RuleBreakIterator,
}

impl WordBreakIterator {
    /// Internal consistency.
    pub closed spec fn wf(&self) -> bool {
        self.inner.wf()
    }

    /// The boundary offsets not yet yielded.
    pub closed spec fn pending(&self) -> Seq<int> {
        self.inner.pending()
    }

    /// Binds an iterator to one input string.
    pub fn new(input: &str) -> (it: Self)
        ensures
            it.wf(),
            it.pending() == breaks_utf8(BreakRules::Word, encode_utf8(input@)),
    {
        WordBreakIterator {
            inner: iterator_utf8(input.as_bytes(), BreakRules::Word),
        }
    }

    /// Yields the next boundary offset, or `None` once exhausted.
    pub fn next_boundary(&mut self) -> (r: Option<usize>)
        requires
            old(self).wf(),
        ensures
            final(self).wf(),
            match r {
                Some(x) => old(self).pending().len() > 0 && x as int == old(self).pending()[0]
                    && final(self).pending() == old(self).pending().subrange(
                    1,
                    old(self).pending().len() as int,
                ),
                None => old(self).pending().len() == 0 && final(self).pending().len() == 0,
            },
    {
        self.inner.next_boundary()
    }

    /// Yields every remaining boundary offset, consuming the iterator.
    pub fn collect_boundaries(self) -> (v: Vec<usize>)
        requires
            self.wf(),
        ensures
            as_ints(v@) == self.pending(),
    {
        self.inner.collect_boundaries()
    }
}

/// Word boundaries of a Latin-1 buffer, as byte offsets.
pub struct WordBreakIteratorLatin1 {
    inner: RuleBreakIterator,
}

impl WordBreakIteratorLatin1 {
    /// Internal consistency.
    pub closed spec fn wf(&self) -> bool {
        self.inner.wf()
    }

    /// The boundary offsets not yet yielded.
    pub closed spec fn pending(&self) -> Seq<int> {
        self.inner.pending()
    }

    /// Binds an iterator to one input buffer.
    pub fn new(input: &[u8]) -> (it: Self)
        ensures
            it.wf(),
            it.pending() == breaks_latin1(BreakRules::Word, input@),
    {
        WordBreakIteratorLatin1 { inner: iterator_latin1(input, BreakRules::Word) }
    }

    /// Yields the next boundary offset, or `None` once exhausted.
    pub fn next_boundary(&mut self) -> (r: Option<usize>)
        requires
            old(self).wf(),
        ensures
            final(self).wf(),
            match r {
                Some(x) => old(self).pending().len() > 0 && x as int == old(self).pending()[0]
                    && final(self).pending() == old(self).pending().subrange(
                    1,
                    old(self).pending().len() as int,
                ),
                None => old(self).pending().len() == 0 && final(self).pending().len() == 0,
            },
    {
        self.inner.next_boundary()
    }

    /// Yields every remaining boundary offset, consuming the iterator.
    pub fn collect_boundaries(self) -> (v: Vec<usize>)
        requires
            self.wf(),
        ensures
            as_ints(v@) == self.pending(),
    {
        self.inner.collect_boundaries()
    }
}

/// Word boundaries of a UTF-16 buffer, as code-unit offsets.
pub struct WordBreakIteratorUtf16 {
    inner: RuleBreakIterator,
}

impl WordBreakIteratorUtf16 {
    /// Internal consistency.
    pub closed spec fn wf(&self) -> bool {
        self.inner.wf()
    }

    /// The boundary offsets not yet yielded.
    pub closed spec fn pending(&self) -> Seq<int> {
        self.inner.pending()
    }

    /// Binds an iterator to one input buffer.
    pub fn new(input: &[u16]) -> (it: Self)
        ensures
            it.wf(),
            it.pending() == breaks_utf16(BreakRules::Word, input@),
    {
        WordBreakIteratorUtf16 { inner: iterator_utf16(input, BreakRules::Word) }
    }

    /// Yields the next boundary offset, or `None` once exhausted.
    pub fn next_boundary(&mut self) -> (r: Option<usize>)
        requires
            old(self).wf(),
        ensures
            final(self).wf(),
            match r {
                Some(x) => old(self).pending().len() > 0 && x as int == old(self).pending()[0]
                    && final(self).pending() == old(self).pending().subrange(
                    1,
                    old(self).pending().len() as int,
                ),
                None => old(self).pending().len() == 0 && final(self).pending().len() == 0,
            },
    {
        self.inner.next_boundary()
    }

    /// Yields every remaining boundary offset, consuming the iterator.
    pub fn collect_boundaries(self) -> (v: Vec<usize>)
        requires
            self.wf(),
        ensures
            as_ints(v@) == self.pending(),
    {
        self.inner.collect_boundaries()
    }
}

} // verus!
