//! Scenario tests for the four break algorithms over the three encodings.

use icu_segmenter::GraphemeClusterBreakIterator;
use icu_segmenter::GraphemeClusterBreakIteratorLatin1;
use icu_segmenter::GraphemeClusterBreakIteratorUtf16;
use icu_segmenter::LineBreakOptions;
use icu_segmenter::LineBreakRule;
use icu_segmenter::LineBreakSegmenter;
use icu_segmenter::SentenceBreakIterator;
use icu_segmenter::SentenceBreakIteratorLatin1;
use icu_segmenter::WordBreakIterator;
use icu_segmenter::WordBreakIteratorLatin1;
use icu_segmenter::WordBreakRule;

fn utf16(s: &str) -> Vec<u16> {
    s.encode_utf16().collect()
}

#[test]
fn line_default_hello_world() {
    let segmenter = LineBreakSegmenter::try_new().expect("default options are supported");
    let breakpoints = segmenter.segment_str("Hello World").collect_boundaries();
    assert_eq!(breakpoints, vec![6, 11]);
}

#[test]
fn line_strict_break_all_hello_world() {
    let mut options = LineBreakOptions::default();
    options.line_break_rule = LineBreakRule::Strict;
    options.word_break_rule = WordBreakRule::BreakAll;
    options.ja_zh = false;
    let segmenter =
        LineBreakSegmenter::try_new_with_options(options).expect("options are supported");
    let breakpoints = segmenter.segment_str("Hello World").collect_boundaries();
    assert_eq!(breakpoints, vec![1, 2, 3, 4, 6, 7, 8, 9, 10, 11]);
}

#[test]
fn line_latin1_hello_world() {
    let segmenter = LineBreakSegmenter::try_new().expect("default options are supported");
    let breakpoints = segmenter.segment_latin1(b"Hello World").collect_boundaries();
    assert_eq!(breakpoints, vec![6, 11]);
}

#[test]
fn line_utf16_hello_world() {
    let segmenter = LineBreakSegmenter::try_new().expect("default options are supported");
    let units = utf16("Hello World");
    let breakpoints = segmenter.segment_utf16(&units).collect_boundaries();
    assert_eq!(breakpoints, vec![6, 11]);
}

#[test]
fn word_hello_world() {
    let breakpoints = WordBreakIterator::new("Hello World").collect_boundaries();
    assert_eq!(breakpoints, vec![0, 5, 6, 11]);
}

#[test]
fn word_latin1_hello_world() {
    let breakpoints = WordBreakIteratorLatin1::new(b"Hello World").collect_boundaries();
    assert_eq!(breakpoints, vec![0, 5, 6, 11]);
}

#[test]
fn sentence_hello_world() {
    let breakpoints = SentenceBreakIterator::new("Hello World").collect_boundaries();
    assert_eq!(breakpoints, vec![0, 11]);
}

#[test]
fn sentence_latin1_hello_world() {
    let breakpoints = SentenceBreakIteratorLatin1::new(b"Hello World").collect_boundaries();
    assert_eq!(breakpoints, vec![0, 11]);
}

#[test]
fn grapheme_hello_world_map_emoji() {
    let breakpoints = GraphemeClusterBreakIterator::new("Hello \u{1F5FA}").collect_boundaries();
    assert_eq!(breakpoints, vec![0, 1, 2, 3, 4, 5, 6, 10]);
}

#[test]
fn grapheme_latin1_hello_world() {
    let breakpoints = GraphemeClusterBreakIteratorLatin1::new(b"Hello World").collect_boundaries();
    assert_eq!(breakpoints, vec![0, 1, 2, 3, 4, 5, 6, 7, 8, 9, 10, 11]);
}

#[test]
fn empty_inputs_yield_no_boundaries() {
    let segmenter = LineBreakSegmenter::try_new().expect("default options are supported");
    assert_eq!(segmenter.segment_str("").collect_boundaries(), Vec::<usize>::new());
    assert_eq!(segmenter.segment_latin1(b"").collect_boundaries(), Vec::<usize>::new());
    assert_eq!(segmenter.segment_utf16(&[]).collect_boundaries(), Vec::<usize>::new());
    assert_eq!(GraphemeClusterBreakIterator::new("").collect_boundaries(), Vec::<usize>::new());
    assert_eq!(WordBreakIterator::new("").collect_boundaries(), Vec::<usize>::new());
    assert_eq!(SentenceBreakIterator::new("").collect_boundaries(), Vec::<usize>::new());
}

#[test]
fn grapheme_crlf_is_one_cluster() {
    let breakpoints = GraphemeClusterBreakIterator::new("a\r\nb").collect_boundaries();
    assert_eq!(breakpoints, vec![0, 1, 3, 4]);
}

#[test]
fn grapheme_combining_mark_attaches() {
    // "e" followed by a combining acute accent forms one cluster.
    let breakpoints = GraphemeClusterBreakIterator::new("e\u{0301}x").collect_boundaries();
    assert_eq!(breakpoints, vec![0, 3, 4]);
}

#[test]
fn grapheme_regional_indicators_pair_up() {
    // Four regional indicators form two flags of two indicators each.
    let input = "\u{1F1E6}\u{1F1E7}\u{1F1E8}\u{1F1E9}";
    let breakpoints = GraphemeClusterBreakIterator::new(input).collect_boundaries();
    assert_eq!(breakpoints, vec![0, 8, 16]);
}

#[test]
fn grapheme_zwj_emoji_sequence_is_one_cluster() {
    // Man, zero-width joiner, woman: one emoji sequence.
    let input = "\u{1F468}\u{200D}\u{1F469}";
    let breakpoints = GraphemeClusterBreakIterator::new(input).collect_boundaries();
    assert_eq!(breakpoints, vec![0, 11]);
}

#[test]
fn word_number_with_decimal_point() {
    // The full stop between digits links them into one word.
    let breakpoints = WordBreakIterator::new("3.14").collect_boundaries();
    assert_eq!(breakpoints, vec![0, 4]);
}

#[test]
fn word_apostrophe_in_contraction() {
    let breakpoints = WordBreakIterator::new("can't stop").collect_boundaries();
    assert_eq!(breakpoints, vec![0, 5, 6, 10]);
}

#[test]
fn sentence_terminator_splits() {
    let breakpoints = SentenceBreakIterator::new("He left. She stayed.").collect_boundaries();
    assert_eq!(breakpoints, vec![0, 9, 20]);
}

#[test]
fn sentence_lowercase_after_full_stop_continues() {
    // A lowercase letter after the full stop marks an abbreviation, not a
    // sentence end.
    let breakpoints = SentenceBreakIterator::new("etc. and more").collect_boundaries();
    assert_eq!(breakpoints, vec![0, 13]);
}

#[test]
fn line_mandatory_break_after_newline() {
    let segmenter = LineBreakSegmenter::try_new().expect("default options are supported");
    let breakpoints = segmenter.segment_str("ab\ncd").collect_boundaries();
    assert_eq!(breakpoints, vec![3, 5]);
}

#[test]
fn line_no_break_before_space() {
    let segmenter = LineBreakSegmenter::try_new().expect("default options are supported");
    // Both spaces glue to the word before them; the break comes after.
    let breakpoints = segmenter.segment_str("a  b").collect_boundaries();
    assert_eq!(breakpoints, vec![3, 4]);
}

#[test]
fn line_hyphen_allows_break_after() {
    let segmenter = LineBreakSegmenter::try_new().expect("default options are supported");
    let breakpoints = segmenter.segment_str("well-known").collect_boundaries();
    assert_eq!(breakpoints, vec![5, 10]);
}

#[test]
fn line_keep_all_glues_ideographs() {
    let mut options = LineBreakOptions::default();
    options.word_break_rule = WordBreakRule::KeepAll;
    let segmenter =
        LineBreakSegmenter::try_new_with_options(options).expect("options are supported");
    let ideographs = "\u{4E00}\u{4E8C}\u{4E09}";
    let breakpoints = segmenter.segment_str(ideographs).collect_boundaries();
    assert_eq!(breakpoints, vec![9]);
    // Without the override, each ideograph is its own break site.
    let plain = LineBreakSegmenter::try_new().expect("default options are supported");
    let breakpoints = plain.segment_str(ideographs).collect_boundaries();
    assert_eq!(breakpoints, vec![3, 6, 9]);
}

#[test]
fn line_strict_keeps_small_kana() {
    // Katakana KA followed by small TSU, a conditional starter.
    let text = "\u{30AB}\u{30C3}";
    let normal = LineBreakSegmenter::try_new().expect("default options are supported");
    assert_eq!(normal.segment_str(text).collect_boundaries(), vec![3, 6]);
    // The strict profile keeps the nonstarter prohibition.
    let mut options = LineBreakOptions::default();
    options.line_break_rule = LineBreakRule::Strict;
    let strict = LineBreakSegmenter::try_new_with_options(options).expect("options are supported");
    assert_eq!(strict.segment_str(text).collect_boundaries(), vec![6]);
}

#[test]
fn next_boundary_is_single_pass() {
    let mut it = WordBreakIterator::new("Hi yo");
    assert_eq!(it.next_boundary(), Some(0));
    assert_eq!(it.next_boundary(), Some(2));
    assert_eq!(it.next_boundary(), Some(3));
    assert_eq!(it.next_boundary(), Some(5));
    assert_eq!(it.next_boundary(), None);
    assert_eq!(it.next_boundary(), None);
}

#[test]
fn ascii_encodings_agree() {
    let text = "One two. Three!";
    let bytes = text.as_bytes();
    let units = utf16(text);
    let w8 = WordBreakIterator::new(text).collect_boundaries();
    let wl = WordBreakIteratorLatin1::new(bytes).collect_boundaries();
    let w16 = icu_segmenter::WordBreakIteratorUtf16::new(&units).collect_boundaries();
    assert_eq!(w8, wl);
    assert_eq!(w8, w16);
    let g8 = GraphemeClusterBreakIterator::new(text).collect_boundaries();
    let gl = GraphemeClusterBreakIteratorLatin1::new(bytes).collect_boundaries();
    let g16 = GraphemeClusterBreakIteratorUtf16::new(&units).collect_boundaries();
    assert_eq!(g8, gl);
    assert_eq!(g8, g16);
}

#[test]
fn utf16_surrogate_pair_stays_whole() {
    let units = utf16("a\u{1F5FA}b");
    let breakpoints = GraphemeClusterBreakIteratorUtf16::new(&units).collect_boundaries();
    assert_eq!(breakpoints, vec![0, 1, 3, 4]);
}

#[test]
fn malformed_utf8_is_replaced_not_fatal() {
    // A stray continuation byte becomes one replacement character, and the
    // truncated 3-byte lead E0 A0 becomes one more (its maximal subpart is
    // both bytes); scanning still covers every byte and ends at the buffer
    // length.
    let bytes: &[u8] = &[0x61, 0x80, 0xE0, 0xA0, 0x62];
    let it = icu_segmenter::engine::iterator_utf8(bytes, icu_segmenter::engine::BreakRules::Grapheme);
    let breakpoints = it.collect_boundaries();
    assert_eq!(breakpoints, vec![0, 1, 2, 4, 5]);
}

#[test]
fn utf16_lone_surrogate_is_replaced_not_fatal() {
    // A lone high surrogate stands for the replacement character and
    // occupies one unit; scanning stays total.
    let units: &[u16] = &[0xD800, 0x41];
    let breakpoints = GraphemeClusterBreakIteratorUtf16::new(units).collect_boundaries();
    assert_eq!(breakpoints, vec![0, 1, 2]);
    let segmenter = LineBreakSegmenter::try_new().expect("default options are supported");
    let breakpoints = segmenter.segment_utf16(units).collect_boundaries();
    assert_eq!(*breakpoints.last().expect("nonempty input ends in a boundary"), units.len());
}

#[test]
fn fallback_without_model_is_pass_through() {
    assert!(icu_segmenter::get_line_break_utf8("Hello World").is_none());
    assert!(icu_segmenter::get_line_break_utf16(&[0x41, 0x42]).is_none());
}

#[test]
fn pieces_reconstruct_input() {
    let text = "Hello World";
    let breakpoints = WordBreakIterator::new(text).collect_boundaries();
    let mut rebuilt = String::new();
    let mut start = 0;
    for &b in &breakpoints {
        rebuilt.push_str(&text[start..b]);
        start = b;
    }
    rebuilt.push_str(&text[start..]);
    assert_eq!(rebuilt, text);
}

#[test]
fn resegmenting_a_piece_is_idempotent() {
    let text = "Hello World. It is.";
    let algorithms: [fn(&str) -> Vec<usize>; 4] = [
        |s| WordBreakIterator::new(s).collect_boundaries(),
        |s| SentenceBreakIterator::new(s).collect_boundaries(),
        |s| GraphemeClusterBreakIterator::new(s).collect_boundaries(),
        |s| {
            let segmenter = LineBreakSegmenter::try_new().expect("default options are supported");
            segmenter.segment_str(s).collect_boundaries()
        },
    ];
    for segment in &algorithms {
        let breakpoints = segment(text);
        let mut prev = 0;
        for &b in &breakpoints {
            let piece = &text[prev..b];
            let inner = segment(piece);
            for &p in &inner {
                assert!(p == 0 || p == piece.len(), "internal boundary {p} in {piece:?}");
            }
            prev = b;
        }
    }
}
