//! Rule-driven Unicode text segmentation.
//!
//! The crate locates boundaries between grapheme clusters, words, sentences,
//! and line-break opportunities, following the Unicode text-segmentation
//! algorithms (UAX #29) and the line-breaking algorithm (UAX #14) with
//! CSS-style option overrides.
//!
//! Input may be given as Latin-1 bytes, UTF-8 (a `&str` or raw bytes), or
//! UTF-16 code units; the emitted boundary offsets are in the input's own
//! units. Every segmentation function is total: malformed UTF-8 or lone
//! surrogates are classified as the replacement character and never cause a
//! failure.

pub mod decode;
pub mod engine;
pub mod fallback;
pub mod grapheme;
pub mod laws;
pub mod line_breaker;
pub mod options;
pub mod property;
pub mod provider;
pub mod rules_grapheme;
pub mod rules_line;
pub mod rules_sentence;
pub mod rules_word;
pub mod sentence;
pub mod word;

pub use fallback::get_line_break_utf16;
pub use fallback::get_line_break_utf8;
pub use grapheme::GraphemeClusterBreakIterator;
pub use grapheme::GraphemeClusterBreakIteratorLatin1;
pub use grapheme::GraphemeClusterBreakIteratorUtf16;
pub use line_breaker::LineBreakIterator;
pub use line_breaker::LineBreakIteratorLatin1;
pub use line_breaker::LineBreakIteratorUtf16;
pub use line_breaker::LineBreakSegmenter;
pub use options::LineBreakOptions;
pub use options::LineBreakRule;
pub use options::SegmenterError;
pub use options::WordBreakRule;
pub use provider::PropertyTable;
pub use sentence::SentenceBreakIterator;
pub use sentence::SentenceBreakIteratorLatin1;
pub use sentence::SentenceBreakIteratorUtf16;
pub use word::WordBreakIterator;
pub use word::WordBreakIteratorLatin1;
pub use word::WordBreakIteratorUtf16;
