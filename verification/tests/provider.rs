//! Tests for property-table payload loading and option validation.

use icu_segmenter::LineBreakOptions;
use icu_segmenter::LineBreakRule;
use icu_segmenter::PropertyTable;
use icu_segmenter::SegmenterError;
use icu_segmenter::WordBreakRule;
use icu_segmenter::provider::check_line_options;

const LINE_ALGORITHM: u8 = 3;

/// Builds a payload: version 1, the given algorithm and default class, and
/// one nine-byte record per `(start, end, class)` range.
fn payload(algo: u8, default_class: u8, ranges: &[(u32, u32, u8)]) -> Vec<u8> {
    let mut blob = vec![1u8, algo, default_class, ranges.len() as u8];
    for &(start, end, class) in ranges {
        blob.extend_from_slice(&start.to_le_bytes());
        blob.extend_from_slice(&end.to_le_bytes());
        blob.push(class);
    }
    blob
}

#[test]
fn payload_roundtrip_classify() {
    let blob = payload(LINE_ALGORITHM, 27, &[(0x30, 0x39, 23), (0x41, 0x5A, 27), (0x4E00, 0x9FFF, 29)]);
    let table = PropertyTable::try_from_payload(&blob, LINE_ALGORITHM).expect("payload is well formed");
    assert_eq!(table.range_count(), 3);
    assert_eq!(table.classify(0x30), 23);
    assert_eq!(table.classify(0x39), 23);
    assert_eq!(table.classify(0x41), 27);
    assert_eq!(table.classify(0x4E01), 29);
    // Outside every range: the default class, never a failure.
    assert_eq!(table.classify(0x3A), 27);
    assert_eq!(table.classify(0x10FFFF), 27);
}

#[test]
fn payload_empty_table_is_valid() {
    let blob = payload(LINE_ALGORITHM, 5, &[]);
    let table = PropertyTable::try_from_payload(&blob, LINE_ALGORITHM).expect("payload is well formed");
    assert_eq!(table.range_count(), 0);
    assert_eq!(table.classify(0x41), 5);
}

#[test]
fn payload_wrong_version_is_invalid_data() {
    let mut blob = payload(LINE_ALGORITHM, 27, &[(0x30, 0x39, 23)]);
    blob[0] = 2;
    assert!(matches!(
        PropertyTable::try_from_payload(&blob, LINE_ALGORITHM),
        Err(SegmenterError::InvalidData)
    ));
}

#[test]
fn payload_truncated_is_invalid_data() {
    let mut blob = payload(LINE_ALGORITHM, 27, &[(0x30, 0x39, 23)]);
    blob.pop();
    assert!(matches!(
        PropertyTable::try_from_payload(&blob, LINE_ALGORITHM),
        Err(SegmenterError::InvalidData)
    ));
    assert!(matches!(
        PropertyTable::try_from_payload(&[], LINE_ALGORITHM),
        Err(SegmenterError::InvalidData)
    ));
}

#[test]
fn payload_for_other_algorithm_is_missing_data() {
    let blob = payload(0, 0, &[(0x30, 0x39, 23)]);
    assert!(matches!(
        PropertyTable::try_from_payload(&blob, LINE_ALGORITHM),
        Err(SegmenterError::MissingData)
    ));
}

#[test]
fn payload_unordered_ranges_are_invalid_data() {
    // Second range starts before the first ends.
    let blob = payload(LINE_ALGORITHM, 27, &[(0x30, 0x39, 23), (0x35, 0x40, 27)]);
    assert!(matches!(
        PropertyTable::try_from_payload(&blob, LINE_ALGORITHM),
        Err(SegmenterError::InvalidData)
    ));
    // A range whose start lies beyond its end.
    let blob = payload(LINE_ALGORITHM, 27, &[(0x39, 0x30, 23)]);
    assert!(matches!(
        PropertyTable::try_from_payload(&blob, LINE_ALGORITHM),
        Err(SegmenterError::InvalidData)
    ));
}

#[test]
fn options_unsupported_by_table() {
    // A table with neither conditional starters nor ideographic ranges.
    let plain = payload(LINE_ALGORITHM, 27, &[(0x30, 0x39, 23)]);
    let plain = PropertyTable::try_from_payload(&plain, LINE_ALGORITHM).expect("well formed");
    let mut options = LineBreakOptions::default();
    assert_eq!(check_line_options(&plain, options), Ok(()));
    options.line_break_rule = LineBreakRule::Strict;
    assert_eq!(check_line_options(&plain, options), Err(SegmenterError::UnsupportedOption));
    options.line_break_rule = LineBreakRule::Normal;
    options.word_break_rule = WordBreakRule::KeepAll;
    assert_eq!(check_line_options(&plain, options), Err(SegmenterError::UnsupportedOption));

    // A table carrying both: every combination is supported.
    let full = payload(LINE_ALGORITHM, 27, &[(0x30FC, 0x30FC, 38), (0x4E00, 0x9FFF, 29)]);
    let full = PropertyTable::try_from_payload(&full, LINE_ALGORITHM).expect("well formed");
    options.line_break_rule = LineBreakRule::Loose;
    options.word_break_rule = WordBreakRule::BreakAll;
    assert_eq!(check_line_options(&full, options), Ok(()));
}
