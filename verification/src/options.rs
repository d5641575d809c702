//! Options controlling line breaking, and the construction-time error type.

use vstd::prelude::*;

verus! {

/// Strictness profile for line breaking, mirroring the CSS `line-break`
/// property. It selects how conditional Japanese/Chinese prohibitions are
/// applied before the pair rules are consulted.
#[derive(Clone, Copy, Debug, PartialEq, Eq, Structural)]
pub enum LineBreakRule {
    /// The least restrictive profile: small kana and similar nonstarters
    /// become ordinary break opportunities.
    Loose,
    /// The default profile.
    Normal,
    /// The most restrictive profile: conditional nonstarters keep their
    /// prohibitions.
    Strict,
}

/// Word-break override for line breaking, mirroring the CSS `word-break`
/// property.
#[derive(Clone, Copy, Debug, PartialEq, Eq, Structural)]
pub enum WordBreakRule {
    /// No override.
    Normal,
    /// Allow a break between any pair of letters or digits.
    BreakAll,
    /// Treat runs of ideographic text as unbreakable units.
    KeepAll,
}

/// Options fixed at construction time for one line-break segmenter.
///
/// Changing options requires constructing a new segmenter; iterators capture
/// the options once and never observe a change.
#[derive(Clone, Copy, Debug, PartialEq, Eq, Structural)]
pub struct LineBreakOptions {
    /// Strictness profile applied before the pair table is consulted.
    pub line_break_rule: LineBreakRule,
    /// Word-break override applied before the pair table is consulted.
    pub word_break_rule: WordBreakRule,
    /// True when the content language is Japanese or Chinese, which enables
    /// the loose-profile remappings specific to those scripts.
    pub ja_zh: bool,
}

impl Default for LineBreakOptions {
    /// The default options: normal strictness, no word-break override, and
    /// no Japanese/Chinese treatment.
    fn default() -> (r: Self)
        ensures
            r.line_break_rule == LineBreakRule::Normal,
            r.word_break_rule == WordBreakRule::Normal,
            !r.ja_zh,
    {
        LineBreakOptions {
            line_break_rule: LineBreakRule::Normal,
            word_break_rule: WordBreakRule::Normal,
            ja_zh: false,
        }
    }
}

/// A construction-time failure. Once a segmenter has been constructed,
/// iteration is total and infallible: no error arises during scanning.
#[derive(Clone, Copy, Debug, PartialEq, Eq, Structural)]
pub enum SegmenterError {
    /// The requested algorithm or variant is not present in the supplied
    /// table payload.
    MissingData,
    /// The table payload failed structural or version validation.
    InvalidData,
    /// The requested options combination is not encoded by the active table.
    UnsupportedOption,
}

} // verus!
