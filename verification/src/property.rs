//! Property tables: the map from a code point to its break class.
//!
//! Each of the four algorithms has its own class alphabet and its own total
//! classification function. The tables cover the principal Unicode blocks;
//! any code point outside them receives the algorithm's default class, never
//! an error, so every classification is a total function over the whole code
//! point domain.
//!
//! Each classification exists twice: a specification function, which the
//! contracts and the break predicates are stated over, and an executable
//! twin proved to agree with it.

use vstd::prelude::*;

verus! {

// ---------------------------------------------------------------------------
// Shared code point sets
// ---------------------------------------------------------------------------

/// Combining marks: the principal nonspacing-mark blocks, the variation
/// selectors, and the emoji skin-tone modifiers.
pub open spec fn is_combining(cp: u32) -> bool {
    ||| (0x0300 <= cp && cp <= 0x036F)
    ||| (0x0483 <= cp && cp <= 0x0489)
    ||| (0x0591 <= cp && cp <= 0x05BD)
    ||| cp == 0x05BF
    ||| (0x05C1 <= cp && cp <= 0x05C2)
    ||| (0x05C4 <= cp && cp <= 0x05C5)
    ||| cp == 0x05C7
    ||| (0x0610 <= cp && cp <= 0x061A)
    ||| (0x064B <= cp && cp <= 0x065F)
    ||| cp == 0x0670
    ||| (0x06D6 <= cp && cp <= 0x06DC)
    ||| (0x06DF <= cp && cp <= 0x06E4)
    ||| (0x06E7 <= cp && cp <= 0x06E8)
    ||| (0x06EA <= cp && cp <= 0x06ED)
    ||| cp == 0x0711
    ||| (0x0730 <= cp && cp <= 0x074A)
    ||| (0x07EB <= cp && cp <= 0x07F3)
    ||| (0x0816 <= cp && cp <= 0x0819)
    ||| (0x0900 <= cp && cp <= 0x0902)
    ||| cp == 0x093C
    ||| (0x0941 <= cp && cp <= 0x0948)
    ||| cp == 0x094D
    ||| (0x0951 <= cp && cp <= 0x0957)
    ||| (0x0962 <= cp && cp <= 0x0963)
    ||| cp == 0x09BC
    ||| (0x09C1 <= cp && cp <= 0x09C4)
    ||| cp == 0x09CD
    ||| (0x0E31 <= cp && cp <= 0x0E31)
    ||| (0x0E34 <= cp && cp <= 0x0E3A)
    ||| (0x0E47 <= cp && cp <= 0x0E4E)
    ||| cp == 0x0EB1
    ||| (0x0EB4 <= cp && cp <= 0x0EBC)
    ||| (0x0EC8 <= cp && cp <= 0x0ECD)
    ||| (0x0F71 <= cp && cp <= 0x0F7E)
    ||| (0x102D <= cp && cp <= 0x1030)
    ||| (0x1032 <= cp && cp <= 0x1037)
    ||| (0x1039 <= cp && cp <= 0x103A)
    ||| (0x17B7 <= cp && cp <= 0x17BD)
    ||| cp == 0x17C6
    ||| (0x17C9 <= cp && cp <= 0x17D3)
    ||| (0x1AB0 <= cp && cp <= 0x1AFF)
    ||| (0x1DC0 <= cp && cp <= 0x1DFF)
    ||| (0x20D0 <= cp && cp <= 0x20FF)
    ||| (0x302A <= cp && cp <= 0x302D)
    ||| (0x3099 <= cp && cp <= 0x309A)
    ||| (0xFE00 <= cp && cp <= 0xFE0F)
    ||| (0xFE20 <= cp && cp <= 0xFE2F)
    ||| (0xE0100 <= cp && cp <= 0xE01EF)
    ||| (0x1F3FB <= cp && cp <= 0x1F3FF)
}

/// Format controls other than the zero-width joiner and non-joiner.
pub open spec fn is_format(cp: u32) -> bool {
    ||| cp == 0x00AD
    ||| (0x0600 <= cp && cp <= 0x0605)
    ||| cp == 0x061C
    ||| cp == 0x06DD
    ||| cp == 0x070F
    ||| cp == 0x08E2
    ||| cp == 0x180E
    ||| cp == 0x200B
    ||| (0x200E <= cp && cp <= 0x200F)
    ||| (0x202A <= cp && cp <= 0x202E)
    ||| (0x2060 <= cp && cp <= 0x2064)
    ||| (0x2066 <= cp && cp <= 0x206F)
    ||| cp == 0xFEFF
    ||| (0xFFF9 <= cp && cp <= 0xFFFB)
    ||| cp == 0x110BD
}

/// Extended pictographic characters: the principal emoji and symbol blocks.
pub open spec fn is_extpic(cp: u32) -> bool {
    ||| cp == 0x00A9
    ||| cp == 0x00AE
    ||| cp == 0x203C
    ||| cp == 0x2049
    ||| cp == 0x2122
    ||| cp == 0x2139
    ||| (0x231A <= cp && cp <= 0x231B)
    ||| (0x23E9 <= cp && cp <= 0x23F3)
    ||| (0x2600 <= cp && cp <= 0x27BF)
    ||| (0x2B00 <= cp && cp <= 0x2BFF)
    ||| (0x1F000 <= cp && cp <= 0x1FAFF)
}

/// Regional indicator symbols.
pub open spec fn is_ri(cp: u32) -> bool {
    0x1F1E6 <= cp && cp <= 0x1F1FF
}

/// Leading Hangul jamo.
pub open spec fn is_hangul_l(cp: u32) -> bool {
    (0x1100 <= cp && cp <= 0x115F) || (0xA960 <= cp && cp <= 0xA97C)
}

/// Vowel Hangul jamo.
pub open spec fn is_hangul_v(cp: u32) -> bool {
    (0x1160 <= cp && cp <= 0x11A7) || (0xD7B0 <= cp && cp <= 0xD7C6)
}

/// Trailing Hangul jamo.
pub open spec fn is_hangul_t(cp: u32) -> bool {
    (0x11A8 <= cp && cp <= 0x11FF) || (0xD7CB <= cp && cp <= 0xD7FB)
}

/// Precomposed Hangul syllable of the LV shape (no trailing consonant).
pub open spec fn is_hangul_lv(cp: u32) -> bool {
    0xAC00 <= cp && cp <= 0xD7A3 && (cp - 0xAC00) % 28 == 0
}

/// Precomposed Hangul syllable of the LVT shape.
pub open spec fn is_hangul_lvt(cp: u32) -> bool {
    0xAC00 <= cp && cp <= 0xD7A3 && (cp - 0xAC00) % 28 != 0
}

/// Decimal digits of the principal blocks.
pub open spec fn is_digit(cp: u32) -> bool {
    ||| (0x0030 <= cp && cp <= 0x0039)
    ||| (0x0660 <= cp && cp <= 0x0669)
    ||| (0x06F0 <= cp && cp <= 0x06F9)
    ||| (0x0966 <= cp && cp <= 0x096F)
    ||| (0xFF10 <= cp && cp <= 0xFF19)
}

/// Alphabetic letters of the principal bicameral and consonantal scripts:
/// Latin, Greek, Cyrillic, Armenian, Arabic, Syriac, Devanagari, and the
/// conjoining Hangul blocks. Ideographs, kana, and the dictionary-segmented
/// Southeast-Asian scripts are deliberately excluded.
pub open spec fn is_letter(cp: u32) -> bool {
    ||| (0x0041 <= cp && cp <= 0x005A)
    ||| (0x0061 <= cp && cp <= 0x007A)
    ||| cp == 0x00AA
    ||| cp == 0x00B5
    ||| cp == 0x00BA
    ||| (0x00C0 <= cp && cp <= 0x00D6)
    ||| (0x00D8 <= cp && cp <= 0x00F6)
    ||| (0x00F8 <= cp && cp <= 0x02FF)
    ||| (0x0370 <= cp && cp <= 0x0374)
    ||| (0x0376 <= cp && cp <= 0x0377)
    ||| (0x037B <= cp && cp <= 0x037D)
    ||| cp == 0x0386
    ||| (0x0388 <= cp && cp <= 0x03FF)
    ||| (0x0400 <= cp && cp <= 0x052F)
    ||| (0x0531 <= cp && cp <= 0x0556)
    ||| (0x0561 <= cp && cp <= 0x0587)
    ||| (0x0620 <= cp && cp <= 0x064A)
    ||| (0x066E <= cp && cp <= 0x066F)
    ||| (0x0671 <= cp && cp <= 0x06D3)
    ||| cp == 0x06D5
    ||| (0x06FA <= cp && cp <= 0x06FC)
    ||| cp == 0x0710
    ||| (0x0712 <= cp && cp <= 0x072F)
    ||| (0x0904 <= cp && cp <= 0x0939)
    ||| cp == 0x093D
    ||| cp == 0x0950
    ||| (0x0958 <= cp && cp <= 0x0961)
    ||| (0x0971 <= cp && cp <= 0x097F)
    ||| (0x1E00 <= cp && cp <= 0x1FFF)
    ||| (0x1100 <= cp && cp <= 0x11FF)
    ||| (0xA960 <= cp && cp <= 0xA97C)
    ||| (0xAC00 <= cp && cp <= 0xD7A3)
    ||| (0xD7B0 <= cp && cp <= 0xD7FB)
    ||| (0xFF21 <= cp && cp <= 0xFF3A)
    ||| (0xFF41 <= cp && cp <= 0xFF5A)
}

/// Hebrew letters.
pub open spec fn is_hebrew(cp: u32) -> bool {
    (0x05D0 <= cp && cp <= 0x05EA) || cp == 0x05EF
}

/// Katakana, including halfwidth forms and phonetic extensions.
pub open spec fn is_katakana(cp: u32) -> bool {
    ||| (0x30A1 <= cp && cp <= 0x30FA)
    ||| (0x30FC <= cp && cp <= 0x30FF)
    ||| (0x31F0 <= cp && cp <= 0x31FF)
    ||| (0x3031 <= cp && cp <= 0x3035)
    ||| (0xFF66 <= cp && cp <= 0xFF9D)
}

/// Ideographs, kana, and the other blocks that line breaking treats as
/// ideographic.
pub open spec fn is_ideographic(cp: u32) -> bool {
    ||| (0x2E80 <= cp && cp <= 0x2FFF)
    ||| cp == 0x3000
    ||| (0x3003 <= cp && cp <= 0x3007)
    ||| cp == 0x3013
    ||| (0x3041 <= cp && cp <= 0x3096)
    ||| (0x309B <= cp && cp <= 0x30FA)
    ||| (0x30FC <= cp && cp <= 0x30FF)
    ||| (0x3105 <= cp && cp <= 0x312F)
    ||| (0x31F0 <= cp && cp <= 0x31FF)
    ||| (0x3400 <= cp && cp <= 0x4DBF)
    ||| (0x4E00 <= cp && cp <= 0x9FFF)
    ||| (0xF900 <= cp && cp <= 0xFAFF)
    ||| (0x1F000 <= cp && cp <= 0x1FAFF)
}

/// Scripts segmented by dictionary or statistical model rather than by the
/// pair table: Thai, Lao, Myanmar, and Khmer.
pub open spec fn is_complex_script(cp: u32) -> bool {
    ||| (0x0E01 <= cp && cp <= 0x0E5B)
    ||| (0x0E81 <= cp && cp <= 0x0EDF)
    ||| (0x1000 <= cp && cp <= 0x109F)
    ||| (0x1780 <= cp && cp <= 0x17D3)
}

/// Executable twin of [`is_combining`].
pub fn combining(cp: u32) -> (r: bool)
    ensures
        r == is_combining(cp),
{
    (0x0300 <= cp && cp <= 0x036F) || (0x0483 <= cp && cp <= 0x0489) || (0x0591 <= cp && cp
        <= 0x05BD) || cp == 0x05BF || (0x05C1 <= cp && cp <= 0x05C2) || (0x05C4 <= cp && cp
        <= 0x05C5) || cp == 0x05C7 || (0x0610 <= cp && cp <= 0x061A) || (0x064B <= cp && cp
        <= 0x065F) || cp == 0x0670 || (0x06D6 <= cp && cp <= 0x06DC) || (0x06DF <= cp && cp
        <= 0x06E4) || (0x06E7 <= cp && cp <= 0x06E8) || (0x06EA <= cp && cp <= 0x06ED) || cp
        == 0x0711 || (0x0730 <= cp && cp <= 0x074A) || (0x07EB <= cp && cp <= 0x07F3) || (0x0816
        <= cp && cp <= 0x0819) || (0x0900 <= cp && cp <= 0x0902) || cp == 0x093C || (0x0941 <= cp
        && cp <= 0x0948) || cp == 0x094D || (0x0951 <= cp && cp <= 0x0957) || (0x0962 <= cp && cp
        <= 0x0963) || cp == 0x09BC || (0x09C1 <= cp && cp <= 0x09C4) || cp == 0x09CD || (0x0E31
        <= cp && cp <= 0x0E31) || (0x0E34 <= cp && cp <= 0x0E3A) || (0x0E47 <= cp && cp <= 0x0E4E)
        || cp == 0x0EB1 || (0x0EB4 <= cp && cp <= 0x0EBC) || (0x0EC8 <= cp && cp <= 0x0ECD) || (
    0x0F71 <= cp && cp <= 0x0F7E) || (0x102D <= cp && cp <= 0x1030) || (0x1032 <= cp && cp
        <= 0x1037) || (0x1039 <= cp && cp <= 0x103A) || (0x17B7 <= cp && cp <= 0x17BD) || cp
        == 0x17C6 || (0x17C9 <= cp && cp <= 0x17D3) || (0x1AB0 <= cp && cp <= 0x1AFF) || (0x1DC0
        <= cp && cp <= 0x1DFF) || (0x20D0 <= cp && cp <= 0x20FF) || (0x302A <= cp && cp <= 0x302D)
        || (0x3099 <= cp && cp <= 0x309A) || (0xFE00 <= cp && cp <= 0xFE0F) || (0xFE20 <= cp && cp
        <= 0xFE2F) || (0xE0100 <= cp && cp <= 0xE01EF) || (0x1F3FB <= cp && cp <= 0x1F3FF)
}

/// Executable twin of [`is_format`].
pub fn format_control(cp: u32) -> (r: bool)
    ensures
        r == is_format(cp),
{
    cp == 0x00AD || (0x0600 <= cp && cp <= 0x0605) || cp == 0x061C || cp == 0x06DD || cp == 0x070F
        || cp == 0x08E2 || cp == 0x180E || cp == 0x200B || (0x200E <= cp && cp <= 0x200F) || (
    0x202A <= cp && cp <= 0x202E) || (0x2060 <= cp && cp <= 0x2064) || (0x2066 <= cp && cp
        <= 0x206F) || cp == 0xFEFF || (0xFFF9 <= cp && cp <= 0xFFFB) || cp == 0x110BD
}

/// Executable twin of [`is_extpic`].
pub fn extpic(cp: u32) -> (r: bool)
    ensures
        r == is_extpic(cp),
{
    cp == 0x00A9 || cp == 0x00AE || cp == 0x203C || cp == 0x2049 || cp == 0x2122 || cp == 0x2139
        || (0x231A <= cp && cp <= 0x231B) || (0x23E9 <= cp && cp <= 0x23F3) || (0x2600 <= cp && cp
        <= 0x27BF) || (0x2B00 <= cp && cp <= 0x2BFF) || (0x1F000 <= cp && cp <= 0x1FAFF)
}

/// Executable twin of [`is_ri`].
pub fn regional_indicator(cp: u32) -> (r: bool)
    ensures
        r == is_ri(cp),
{
    0x1F1E6 <= cp && cp <= 0x1F1FF
}

/// Executable twin of [`is_digit`].
pub fn digit(cp: u32) -> (r: bool)
    ensures
        r == is_digit(cp),
{
    (0x0030 <= cp && cp <= 0x0039) || (0x0660 <= cp && cp <= 0x0669) || (0x06F0 <= cp && cp
        <= 0x06F9) || (0x0966 <= cp && cp <= 0x096F) || (0xFF10 <= cp && cp <= 0xFF19)
}

/// Executable twin of [`is_letter`].
pub fn letter(cp: u32) -> (r: bool)
    ensures
        r == is_letter(cp),
{
    (0x0041 <= cp && cp <= 0x005A) || (0x0061 <= cp && cp <= 0x007A) || cp == 0x00AA || cp
        == 0x00B5 || cp == 0x00BA || (0x00C0 <= cp && cp <= 0x00D6) || (0x00D8 <= cp && cp
        <= 0x00F6) || (0x00F8 <= cp && cp <= 0x02FF) || (0x0370 <= cp && cp <= 0x0374) || (0x0376
        <= cp && cp <= 0x0377) || (0x037B <= cp && cp <= 0x037D) || cp == 0x0386 || (0x0388 <= cp
        && cp <= 0x03FF) || (0x0400 <= cp && cp <= 0x052F) || (0x0531 <= cp && cp <= 0x0556) || (
    0x0561 <= cp && cp <= 0x0587) || (0x0620 <= cp && cp <= 0x064A) || (0x066E <= cp && cp
        <= 0x066F) || (0x0671 <= cp && cp <= 0x06D3) || cp == 0x06D5 || (0x06FA <= cp && cp
        <= 0x06FC) || cp == 0x0710 || (0x0712 <= cp && cp <= 0x072F) || (0x0904 <= cp && cp
        <= 0x0939) || cp == 0x093D || cp == 0x0950 || (0x0958 <= cp && cp <= 0x0961) || (0x0971
        <= cp && cp <= 0x097F) || (0x1E00 <= cp && cp <= 0x1FFF) || (0x1100 <= cp && cp <= 0x11FF)
        || (0xA960 <= cp && cp <= 0xA97C) || (0xAC00 <= cp && cp <= 0xD7A3) || (0xD7B0 <= cp && cp
        <= 0xD7FB) || (0xFF21 <= cp && cp <= 0xFF3A) || (0xFF41 <= cp && cp <= 0xFF5A)
}

/// Executable twin of [`is_hebrew`].
pub fn hebrew(cp: u32) -> (r: bool)
    ensures
        r == is_hebrew(cp),
{
    (0x05D0 <= cp && cp <= 0x05EA) || cp == 0x05EF
}

/// Executable twin of [`is_katakana`].
pub fn katakana(cp: u32) -> (r: bool)
    ensures
        r == is_katakana(cp),
{
    (0x30A1 <= cp && cp <= 0x30FA) || (0x30FC <= cp && cp <= 0x30FF) || (0x31F0 <= cp && cp
        <= 0x31FF) || (0x3031 <= cp && cp <= 0x3035) || (0xFF66 <= cp && cp <= 0xFF9D)
}

/// Executable twin of [`is_ideographic`].
pub fn ideographic(cp: u32) -> (r: bool)
    ensures
        r == is_ideographic(cp),
{
    (0x2E80 <= cp && cp <= 0x2FFF) || cp == 0x3000 || (0x3003 <= cp && cp <= 0x3007) || cp
        == 0x3013 || (0x3041 <= cp && cp <= 0x3096) || (0x309B <= cp && cp <= 0x30FA) || (0x30FC
        <= cp && cp <= 0x30FF) || (0x3105 <= cp && cp <= 0x312F) || (0x31F0 <= cp && cp <= 0x31FF)
        || (0x3400 <= cp && cp <= 0x4DBF) || (0x4E00 <= cp && cp <= 0x9FFF) || (0xF900 <= cp && cp
        <= 0xFAFF) || (0x1F000 <= cp && cp <= 0x1FAFF)
}

/// Executable twin of [`is_complex_script`].
pub fn complex_script(cp: u32) -> (r: bool)
    ensures
        r == is_complex_script(cp),
{
    (0x0E01 <= cp && cp <= 0x0E5B) || (0x0E81 <= cp && cp <= 0x0EDF) || (0x1000 <= cp && cp
        <= 0x109F) || (0x1780 <= cp && cp <= 0x17D3)
}

// ---------------------------------------------------------------------------
// Grapheme cluster break classes
// ---------------------------------------------------------------------------

/// Default grapheme class for anything not otherwise classified.
pub const GC_OTHER: u8 = 0;

/// Carriage return.
pub const GC_CR: u8 = 1;

/// Line feed.
pub const GC_LF: u8 = 2;

/// Control and format characters that always stand alone.
pub const GC_CONTROL: u8 = 3;

/// Nonspacing extenders that never begin a cluster.
pub const GC_EXTEND: u8 = 4;

/// Zero-width joiner.
pub const GC_ZWJ: u8 = 5;

/// Regional indicator.
pub const GC_RI: u8 = 6;

/// Characters that glue to the following character.
pub const GC_PREPEND: u8 = 7;

/// Spacing marks that glue to the preceding character.
pub const GC_SPACINGMARK: u8 = 8;

/// Leading Hangul jamo.
pub const GC_L: u8 = 9;

/// Vowel Hangul jamo.
pub const GC_V: u8 = 10;

/// Trailing Hangul jamo.
pub const GC_T: u8 = 11;

/// Hangul syllable without trailing consonant.
pub const GC_LV: u8 = 12;

/// Hangul syllable with trailing consonant.
pub const GC_LVT: u8 = 13;

/// Extended pictographic character.
pub const GC_EXTPIC: u8 = 14;

/// Grapheme-cluster break class of a code point.
pub open spec fn gcb_class(cp: u32) -> u8 {
    if cp == 0x0D {
        GC_CR
    } else if cp == 0x0A {
        GC_LF
    } else if cp == 0x200D {
        GC_ZWJ
    } else if is_ri(cp) {
        GC_RI
    } else if (0x0600 <= cp && cp <= 0x0605) || cp == 0x06DD || cp == 0x070F || cp == 0x08E2 || cp
        == 0x0D4E || cp == 0x110BD {
        GC_PREPEND
    } else if cp < 0x20 || (0x7F <= cp && cp <= 0x9F) || cp == 0x2028 || cp == 0x2029 || is_format(
        cp,
    ) {
        GC_CONTROL
    } else if cp == 0x200C || is_combining(cp) {
        GC_EXTEND
    } else if cp == 0x0903 || (0x093E <= cp && cp <= 0x0940) || (0x0949 <= cp && cp <= 0x094C) || (
    0x0982 <= cp && cp <= 0x0983) || (0x0A3E <= cp && cp <= 0x0A40) || cp == 0x0E33 || cp == 0x0EB3
        || cp == 0x1031 {
        GC_SPACINGMARK
    } else if is_hangul_l(cp) {
        GC_L
    } else if is_hangul_v(cp) {
        GC_V
    } else if is_hangul_t(cp) {
        GC_T
    } else if is_hangul_lv(cp) {
        GC_LV
    } else if is_hangul_lvt(cp) {
        GC_LVT
    } else if is_extpic(cp) {
        GC_EXTPIC
    } else {
        GC_OTHER
    }
}

/// Executable twin of [`gcb_class`].
pub fn gcb_class_of(cp: u32) -> (c: u8)
    ensures
        c == gcb_class(cp),
{
    if cp == 0x0D {
        GC_CR
    } else if cp == 0x0A {
        GC_LF
    } else if cp == 0x200D {
        GC_ZWJ
    } else if regional_indicator(cp) {
        GC_RI
    } else if (0x0600 <= cp && cp <= 0x0605) || cp == 0x06DD || cp == 0x070F || cp == 0x08E2 || cp
        == 0x0D4E || cp == 0x110BD {
        GC_PREPEND
    } else if cp < 0x20 || (0x7F <= cp && cp <= 0x9F) || cp == 0x2028 || cp == 0x2029
        || format_control(cp) {
        GC_CONTROL
    } else if cp == 0x200C || combining(cp) {
        GC_EXTEND
    } else if cp == 0x0903 || (0x093E <= cp && cp <= 0x0940) || (0x0949 <= cp && cp <= 0x094C) || (
    0x0982 <= cp && cp <= 0x0983) || (0x0A3E <= cp && cp <= 0x0A40) || cp == 0x0E33 || cp == 0x0EB3
        || cp == 0x1031 {
        GC_SPACINGMARK
    } else if (0x1100 <= cp && cp <= 0x115F) || (0xA960 <= cp && cp <= 0xA97C) {
        GC_L
    } else if (0x1160 <= cp && cp <= 0x11A7) || (0xD7B0 <= cp && cp <= 0xD7C6) {
        GC_V
    } else if (0x11A8 <= cp && cp <= 0x11FF) || (0xD7CB <= cp && cp <= 0xD7FB) {
        GC_T
    } else if 0xAC00 <= cp && cp <= 0xD7A3 && (cp - 0xAC00) % 28 == 0 {
        GC_LV
    } else if 0xAC00 <= cp && cp <= 0xD7A3 {
        GC_LVT
    } else if extpic(cp) {
        GC_EXTPIC
    } else {
        GC_OTHER
    }
}

// ---------------------------------------------------------------------------
// Word break classes
// ---------------------------------------------------------------------------

/// Default word class.
pub const WC_OTHER: u8 = 0;

/// Carriage return.
pub const WC_CR: u8 = 1;

/// Line feed.
pub const WC_LF: u8 = 2;

/// Other mandatory newlines.
pub const WC_NEWLINE: u8 = 3;

/// Nonspacing extenders, transparent to the word rules.
pub const WC_EXTEND: u8 = 4;

/// Zero-width joiner.
pub const WC_ZWJ: u8 = 5;

/// Format controls, transparent to the word rules.
pub const WC_FORMAT: u8 = 6;

/// Regional indicator.
pub const WC_RI: u8 = 7;

/// Katakana.
pub const WC_KATAKANA: u8 = 8;

/// Hebrew letter.
pub const WC_HEBREW: u8 = 9;

/// Alphabetic letter.
pub const WC_ALETTER: u8 = 10;

/// Apostrophe.
pub const WC_SQ: u8 = 11;

/// Quotation mark.
pub const WC_DQ: u8 = 12;

/// Punctuation linking both letters and numbers, such as the full stop.
pub const WC_MIDNUMLET: u8 = 13;

/// Punctuation linking letters, such as the colon.
pub const WC_MIDLETTER: u8 = 14;

/// Punctuation linking numbers, such as the comma.
pub const WC_MIDNUM: u8 = 15;

/// Decimal digit.
pub const WC_NUMERIC: u8 = 16;

/// Connector punctuation, such as the low line.
pub const WC_EXTENDNUMLET: u8 = 17;

/// Breaking space that glues to adjacent breaking spaces.
pub const WC_WSEGSPACE: u8 = 18;

/// Extended pictographic character.
pub const WC_EXTPIC: u8 = 19;

/// Word break class of a code point.
pub open spec fn wb_class(cp: u32) -> u8 {
    if cp == 0x0D {
        WC_CR
    } else if cp == 0x0A {
        WC_LF
    } else if cp == 0x0B || cp == 0x0C || cp == 0x85 || cp == 0x2028 || cp == 0x2029 {
        WC_NEWLINE
    } else if cp == 0x200D {
        WC_ZWJ
    } else if is_ri(cp) {
        WC_RI
    } else if cp == 0x200C || is_combining(cp) || (0xFF9E <= cp && cp <= 0xFF9F) {
        WC_EXTEND
    } else if is_format(cp) {
        WC_FORMAT
    } else if is_katakana(cp) {
        WC_KATAKANA
    } else if is_hebrew(cp) {
        WC_HEBREW
    } else if is_letter(cp) {
        WC_ALETTER
    } else if cp == 0x27 {
        WC_SQ
    } else if cp == 0x22 {
        WC_DQ
    } else if cp == 0x2E || cp == 0x2018 || cp == 0x2019 || cp == 0x2024 || cp == 0xFE52 || cp
        == 0xFF07 || cp == 0xFF0E {
        WC_MIDNUMLET
    } else if cp == 0x3A || cp == 0xB7 || cp == 0x387 || cp == 0x5F4 || cp == 0x2027 || cp == 0xFE13
        || cp == 0xFE55 || cp == 0xFF1A {
        WC_MIDLETTER
    } else if cp == 0x2C || cp == 0x3B || cp == 0x37E || cp == 0x589 || cp == 0x60C || cp == 0x60D
        || cp == 0x66C || cp == 0x7F8 || cp == 0x2044 || cp == 0xFE10 || cp == 0xFE14 || cp
        == 0xFF0C || cp == 0xFF1B {
        WC_MIDNUM
    } else if is_digit(cp) || cp == 0x66B {
        WC_NUMERIC
    } else if cp == 0x5F || cp == 0x202F || cp == 0x203F || cp == 0x2040 || cp == 0x2054 || cp
        == 0xFE33 || cp == 0xFE34 || cp == 0xFF3F {
        WC_EXTENDNUMLET
    } else if cp == 0x20 || cp == 0x1680 || (0x2000 <= cp && cp <= 0x2006) || (0x2008 <= cp && cp
        <= 0x200A) || cp == 0x205F || cp == 0x3000 {
        WC_WSEGSPACE
    } else if is_extpic(cp) {
        WC_EXTPIC
    } else {
        WC_OTHER
    }
}

/// Executable twin of [`wb_class`].
pub fn wb_class_of(cp: u32) -> (c: u8)
    ensures
        c == wb_class(cp),
{
    if cp == 0x0D {
        WC_CR
    } else if cp == 0x0A {
        WC_LF
    } else if cp == 0x0B || cp == 0x0C || cp == 0x85 || cp == 0x2028 || cp == 0x2029 {
        WC_NEWLINE
    } else if cp == 0x200D {
        WC_ZWJ
    } else if regional_indicator(cp) {
        WC_RI
    } else if cp == 0x200C || combining(cp) || (0xFF9E <= cp && cp <= 0xFF9F) {
        WC_EXTEND
    } else if format_control(cp) {
        WC_FORMAT
    } else if katakana(cp) {
        WC_KATAKANA
    } else if hebrew(cp) {
        WC_HEBREW
    } else if letter(cp) {
        WC_ALETTER
    } else if cp == 0x27 {
        WC_SQ
    } else if cp == 0x22 {
        WC_DQ
    } else if cp == 0x2E || cp == 0x2018 || cp == 0x2019 || cp == 0x2024 || cp == 0xFE52 || cp
        == 0xFF07 || cp == 0xFF0E {
        WC_MIDNUMLET
    } else if cp == 0x3A || cp == 0xB7 || cp == 0x387 || cp == 0x5F4 || cp == 0x2027 || cp == 0xFE13
        || cp == 0xFE55 || cp == 0xFF1A {
        WC_MIDLETTER
    } else if cp == 0x2C || cp == 0x3B || cp == 0x37E || cp == 0x589 || cp == 0x60C || cp == 0x60D
        || cp == 0x66C || cp == 0x7F8 || cp == 0x2044 || cp == 0xFE10 || cp == 0xFE14 || cp
        == 0xFF0C || cp == 0xFF1B {
        WC_MIDNUM
    } else if digit(cp) || cp == 0x66B {
        WC_NUMERIC
    } else if cp == 0x5F || cp == 0x202F || cp == 0x203F || cp == 0x2040 || cp == 0x2054 || cp
        == 0xFE33 || cp == 0xFE34 || cp == 0xFF3F {
        WC_EXTENDNUMLET
    } else if cp == 0x20 || cp == 0x1680 || (0x2000 <= cp && cp <= 0x2006) || (0x2008 <= cp && cp
        <= 0x200A) || cp == 0x205F || cp == 0x3000 {
        WC_WSEGSPACE
    } else if extpic(cp) {
        WC_EXTPIC
    } else {
        WC_OTHER
    }
}

// ---------------------------------------------------------------------------
// Sentence break classes
// ---------------------------------------------------------------------------

/// Default sentence class.
pub const SC_OTHER: u8 = 0;

/// Carriage return.
pub const SC_CR: u8 = 1;

/// Line feed.
pub const SC_LF: u8 = 2;

/// Other paragraph separators.
pub const SC_SEP: u8 = 3;

/// Nonspacing extenders, transparent to the sentence rules.
pub const SC_EXTEND: u8 = 4;

/// Format controls, transparent to the sentence rules.
pub const SC_FORMAT: u8 = 5;

/// Spaces.
pub const SC_SP: u8 = 6;

/// Lowercase letter.
pub const SC_LOWER: u8 = 7;

/// Uppercase letter.
pub const SC_UPPER: u8 = 8;

/// Letter without case.
pub const SC_OLETTER: u8 = 9;

/// Decimal digit.
pub const SC_NUMERIC: u8 = 10;

/// Ambiguous terminator: the full stop.
pub const SC_ATERM: u8 = 11;

/// Unambiguous sentence terminator.
pub const SC_STERM: u8 = 12;

/// Closing or quoting punctuation.
pub const SC_CLOSE: u8 = 13;

/// Punctuation that continues a sentence, such as the comma.
pub const SC_SCONTINUE: u8 = 14;

/// Sentence break class of a code point.
pub open spec fn sb_class(cp: u32) -> u8 {
    if cp == 0x0D {
        SC_CR
    } else if cp == 0x0A {
        SC_LF
    } else if cp == 0x85 || cp == 0x2028 || cp == 0x2029 {
        SC_SEP
    } else if cp == 0x200C || cp == 0x200D || is_combining(cp) || (0xFF9E <= cp && cp <= 0xFF9F) {
        SC_EXTEND
    } else if is_format(cp) {
        SC_FORMAT
    } else if cp == 0x09 || cp == 0x0B || cp == 0x0C || cp == 0x20 || cp == 0xA0 || cp == 0x1680
        || (0x2000 <= cp && cp <= 0x200A) || cp == 0x202F || cp == 0x205F || cp == 0x3000 {
        SC_SP
    } else if (0x61 <= cp && cp <= 0x7A) || cp == 0xB5 || (0xDF <= cp && cp <= 0xF6) || (0xF8 <= cp
        && cp <= 0xFF) || (0x3AC <= cp && cp <= 0x3CE) || (0x430 <= cp && cp <= 0x45F) || (0x561
        <= cp && cp <= 0x587) || (0xFF41 <= cp && cp <= 0xFF5A) {
        SC_LOWER
    } else if (0x41 <= cp && cp <= 0x5A) || (0xC0 <= cp && cp <= 0xD6) || (0xD8 <= cp && cp <= 0xDE)
        || (0x388 <= cp && cp <= 0x38F) || (0x391 <= cp && cp <= 0x3AB) || (0x400 <= cp && cp
        <= 0x42F) || (0x531 <= cp && cp <= 0x556) || (0xFF21 <= cp && cp <= 0xFF3A) {
        SC_UPPER
    } else if is_digit(cp) {
        SC_NUMERIC
    } else if cp == 0x2E || cp == 0x2024 || cp == 0xFE52 || cp == 0xFF0E {
        SC_ATERM
    } else if cp == 0x21 || cp == 0x3F || cp == 0x203C || cp == 0x203D || (0x2047 <= cp && cp
        <= 0x2049) || cp == 0x3002 || cp == 0xFF01 || cp == 0xFF1F || cp == 0xFF61 {
        SC_STERM
    } else if cp == 0x22 || cp == 0x27 || cp == 0x28 || cp == 0x29 || cp == 0x5B || cp == 0x5D || cp
        == 0x7B || cp == 0x7D || cp == 0xAB || cp == 0xBB || cp == 0x2018 || cp == 0x2019 || cp
        == 0x201C || cp == 0x201D || cp == 0x2039 || cp == 0x203A || (0x3008 <= cp && cp <= 0x3011)
        || (0x3014 <= cp && cp <= 0x301B) || cp == 0xFF08 || cp == 0xFF09 || cp == 0xFF3B || cp
        == 0xFF3D || cp == 0xFF5B || cp == 0xFF5D || cp == 0xFF62 || cp == 0xFF63 {
        SC_CLOSE
    } else if cp == 0x2C || cp == 0x2D || cp == 0x3A || cp == 0x60C || cp == 0x2013 || cp == 0x2014
        || cp == 0x3001 || cp == 0xFE10 || cp == 0xFE11 || cp == 0xFF0C || cp == 0xFF0D || cp
        == 0xFF1A || cp == 0xFF64 {
        SC_SCONTINUE
    } else if is_hebrew(cp) || is_letter(cp) || is_katakana(cp) || is_ideographic(cp)
        || is_complex_script(cp) {
        SC_OLETTER
    } else {
        SC_OTHER
    }
}

/// Executable twin of [`sb_class`].
pub fn sb_class_of(cp: u32) -> (c: u8)
    ensures
        c == sb_class(cp),
{
    if cp == 0x0D {
        SC_CR
    } else if cp == 0x0A {
        SC_LF
    } else if cp == 0x85 || cp == 0x2028 || cp == 0x2029 {
        SC_SEP
    } else if cp == 0x200C || cp == 0x200D || combining(cp) || (0xFF9E <= cp && cp <= 0xFF9F) {
        SC_EXTEND
    } else if format_control(cp) {
        SC_FORMAT
    } else if cp == 0x09 || cp == 0x0B || cp == 0x0C || cp == 0x20 || cp == 0xA0 || cp == 0x1680
        || (0x2000 <= cp && cp <= 0x200A) || cp == 0x202F || cp == 0x205F || cp == 0x3000 {
        SC_SP
    } else if (0x61 <= cp && cp <= 0x7A) || cp == 0xB5 || (0xDF <= cp && cp <= 0xF6) || (0xF8 <= cp
        && cp <= 0xFF) || (0x3AC <= cp && cp <= 0x3CE) || (0x430 <= cp && cp <= 0x45F) || (0x561
        <= cp && cp <= 0x587) || (0xFF41 <= cp && cp <= 0xFF5A) {
        SC_LOWER
    } else if (0x41 <= cp && cp <= 0x5A) || (0xC0 <= cp && cp <= 0xD6) || (0xD8 <= cp && cp <= 0xDE)
        || (0x388 <= cp && cp <= 0x38F) || (0x391 <= cp && cp <= 0x3AB) || (0x400 <= cp && cp
        <= 0x42F) || (0x531 <= cp && cp <= 0x556) || (0xFF21 <= cp && cp <= 0xFF3A) {
        SC_UPPER
    } else if digit(cp) {
        SC_NUMERIC
    } else if cp == 0x2E || cp == 0x2024 || cp == 0xFE52 || cp == 0xFF0E {
        SC_ATERM
    } else if cp == 0x21 || cp == 0x3F || cp == 0x203C || cp == 0x203D || (0x2047 <= cp && cp
        <= 0x2049) || cp == 0x3002 || cp == 0xFF01 || cp == 0xFF1F || cp == 0xFF61 {
        SC_STERM
    } else if cp == 0x22 || cp == 0x27 || cp == 0x28 || cp == 0x29 || cp == 0x5B || cp == 0x5D || cp
        == 0x7B || cp == 0x7D || cp == 0xAB || cp == 0xBB || cp == 0x2018 || cp == 0x2019 || cp
        == 0x201C || cp == 0x201D || cp == 0x2039 || cp == 0x203A || (0x3008 <= cp && cp <= 0x3011)
        || (0x3014 <= cp && cp <= 0x301B) || cp == 0xFF08 || cp == 0xFF09 || cp == 0xFF3B || cp
        == 0xFF3D || cp == 0xFF5B || cp == 0xFF5D || cp == 0xFF62 || cp == 0xFF63 {
        SC_CLOSE
    } else if cp == 0x2C || cp == 0x2D || cp == 0x3A || cp == 0x60C || cp == 0x2013 || cp == 0x2014
        || cp == 0x3001 || cp == 0xFE10 || cp == 0xFE11 || cp == 0xFF0C || cp == 0xFF0D || cp
        == 0xFF1A || cp == 0xFF64 {
        SC_SCONTINUE
    } else if hebrew(cp) || letter(cp) || katakana(cp) || ideographic(cp) || complex_script(cp) {
        SC_OLETTER
    } else {
        SC_OTHER
    }
}

// ---------------------------------------------------------------------------
// Line break classes
// ---------------------------------------------------------------------------

/// Mandatory break.
pub const LB_BK: u8 = 0;

/// Carriage return.
pub const LB_CR: u8 = 1;

/// Line feed.
pub const LB_LF: u8 = 2;

/// Next line.
pub const LB_NL: u8 = 3;

/// Breaking space.
pub const LB_SP: u8 = 4;

/// Zero-width space.
pub const LB_ZW: u8 = 5;

/// Word joiner.
pub const LB_WJ: u8 = 6;

/// Non-breaking glue.
pub const LB_GL: u8 = 7;

/// Combining mark or format control, transparent to the line rules.
pub const LB_CM: u8 = 8;

/// Zero-width joiner.
pub const LB_ZWJ: u8 = 9;

/// Break opportunity before and after, such as the em dash.
pub const LB_B2: u8 = 10;

/// Break opportunity after, such as the soft hyphen.
pub const LB_BA: u8 = 11;

/// Break opportunity before.
pub const LB_BB: u8 = 12;

/// Hyphen.
pub const LB_HY: u8 = 13;

/// Contingent break, such as an embedded object.
pub const LB_CB: u8 = 14;

/// Closing punctuation.
pub const LB_CL: u8 = 15;

/// Closing parenthesis.
pub const LB_CP: u8 = 16;

/// Exclamation or question mark.
pub const LB_EX: u8 = 17;

/// Inseparable leaders.
pub const LB_IN: u8 = 18;

/// Nonstarter.
pub const LB_NS: u8 = 19;

/// Opening punctuation.
pub const LB_OP: u8 = 20;

/// Ambiguous quotation mark.
pub const LB_QU: u8 = 21;

/// Infix numeric separator.
pub const LB_IS: u8 = 22;

/// Numeric digit.
pub const LB_NU: u8 = 23;

/// Postfix numeric sign.
pub const LB_PO: u8 = 24;

/// Prefix numeric sign.
pub const LB_PR: u8 = 25;

/// Numeric symbol, the solidus.
pub const LB_SY: u8 = 26;

/// Ordinary alphabetic character, the default class.
pub const LB_AL: u8 = 27;

/// Hebrew letter.
pub const LB_HL: u8 = 28;

/// Ideograph.
pub const LB_ID: u8 = 29;

/// Emoji base.
pub const LB_EB: u8 = 30;

/// Emoji modifier.
pub const LB_EM: u8 = 31;

/// Hangul syllable without trailing consonant.
pub const LB_H2: u8 = 32;

/// Hangul syllable with trailing consonant.
pub const LB_H3: u8 = 33;

/// Leading Hangul jamo.
pub const LB_JL: u8 = 34;

/// Vowel Hangul jamo.
pub const LB_JV: u8 = 35;

/// Trailing Hangul jamo.
pub const LB_JT: u8 = 36;

/// Regional indicator.
pub const LB_RI: u8 = 37;

/// Conditional Japanese starter: small kana and the prolonged sound mark.
pub const LB_CJ: u8 = 38;

/// True for the emoji-base subset carried by the table.
pub open spec fn is_emoji_base(cp: u32) -> bool {
    ||| (0x270A <= cp && cp <= 0x270D)
    ||| cp == 0x1F385
    ||| (0x1F466 <= cp && cp <= 0x1F478)
    ||| (0x1F481 <= cp && cp <= 0x1F483)
    ||| cp == 0x1F590
    ||| (0x1F645 <= cp && cp <= 0x1F647)
    ||| cp == 0x1F926
    ||| (0x1F9D1 <= cp && cp <= 0x1F9DD)
}

/// True for the conditional Japanese starters (small kana and the prolonged
/// sound mark).
pub open spec fn is_small_kana(cp: u32) -> bool {
    ||| cp == 0x3041 || cp == 0x3043 || cp == 0x3045 || cp == 0x3047 || cp == 0x3049
    ||| cp == 0x3063 || cp == 0x3083 || cp == 0x3085 || cp == 0x3087 || cp == 0x308E
    ||| cp == 0x3095 || cp == 0x3096
    ||| cp == 0x30A1 || cp == 0x30A3 || cp == 0x30A5 || cp == 0x30A7 || cp == 0x30A9
    ||| cp == 0x30C3 || cp == 0x30E3 || cp == 0x30E5 || cp == 0x30E7 || cp == 0x30EE
    ||| cp == 0x30F5 || cp == 0x30F6 || cp == 0x30FC
    ||| (0xFF67 <= cp && cp <= 0xFF70)
}

/// Raw line break class of a code point, before any option override.
pub open spec fn lb_class(cp: u32) -> u8 {
    if cp == 0x0A {
        LB_LF
    } else if cp == 0x0D {
        LB_CR
    } else if cp == 0x85 {
        LB_NL
    } else if cp == 0x0B || cp == 0x0C || cp == 0x2028 || cp == 0x2029 {
        LB_BK
    } else if cp == 0x20 {
        LB_SP
    } else if cp == 0x200B {
        LB_ZW
    } else if cp == 0x2060 || cp == 0xFEFF {
        LB_WJ
    } else if cp == 0xA0 || cp == 0x2007 || cp == 0x202F || cp == 0x2011 {
        LB_GL
    } else if cp == 0x200D {
        LB_ZWJ
    } else if cp == 0x09 || cp == 0xAD || cp == 0x58A || cp == 0x5BE || cp == 0xF0B || cp == 0x2010
        || cp == 0x2012 || cp == 0x2013 {
        LB_BA
    } else if 0x1F3FB <= cp && cp <= 0x1F3FF {
        LB_EM
    } else if cp == 0x200C || is_combining(cp) || is_format(cp) {
        LB_CM
    } else if cp == 0x2D {
        LB_HY
    } else if cp == 0x2014 {
        LB_B2
    } else if cp == 0xB4 || cp == 0x2C8 || cp == 0x2CC {
        LB_BB
    } else if cp == 0xFFFC {
        LB_CB
    } else if cp == 0x7D || cp == 0x3001 || cp == 0x3002 || cp == 0x3009 || cp == 0x300B || cp
        == 0x300D || cp == 0x300F || cp == 0x3011 || cp == 0x3015 || cp == 0x3017 || cp == 0x3019
        || cp == 0x301B || cp == 0xFF09 || cp == 0xFF0C || cp == 0xFF0E || cp == 0xFF3D || cp
        == 0xFF5D || cp == 0xFF61 || cp == 0xFF63 || cp == 0xFF64 {
        LB_CL
    } else if cp == 0x29 || cp == 0x5D {
        LB_CP
    } else if cp == 0x21 || cp == 0x3F || cp == 0xFF01 || cp == 0xFF1F {
        LB_EX
    } else if (0x2024 <= cp && cp <= 0x2026) || cp == 0xFE19 {
        LB_IN
    } else if cp == 0x203C || cp == 0x203D || (0x2047 <= cp && cp <= 0x2049) || cp == 0x3005 || cp
        == 0x301C || cp == 0x303C || cp == 0x30FB || cp == 0xFF1A || cp == 0xFF1B || cp == 0xFF65 {
        LB_NS
    } else if cp == 0x28 || cp == 0x5B || cp == 0x7B || cp == 0xA1 || cp == 0xBF || cp == 0x3008
        || cp == 0x300A || cp == 0x300C || cp == 0x300E || cp == 0x3010 || cp == 0x3014 || cp
        == 0x3016 || cp == 0x3018 || cp == 0x301A || cp == 0xFF08 || cp == 0xFF3B || cp == 0xFF5B
        || cp == 0xFF62 {
        LB_OP
    } else if cp == 0x22 || cp == 0x27 || cp == 0xAB || cp == 0xBB || cp == 0x2018 || cp == 0x2019
        || cp == 0x201C || cp == 0x201D || cp == 0x2039 || cp == 0x203A {
        LB_QU
    } else if cp == 0x2C || cp == 0x2E || cp == 0x3A || cp == 0x3B || cp == 0x37E || cp == 0x589
        || cp == 0x60C || cp == 0x60D || cp == 0x2044 {
        LB_IS
    } else if is_digit(cp) || cp == 0x66B {
        LB_NU
    } else if cp == 0x25 || cp == 0xA2 || cp == 0xB0 || (0x2030 <= cp && cp <= 0x2033) || cp
        == 0xFF05 || cp == 0xFFE0 {
        LB_PO
    } else if cp == 0x24 || cp == 0x2B || cp == 0x5C || cp == 0xA3 || cp == 0xA4 || cp == 0xA5
        || cp == 0xB1 || (0x20A0 <= cp && cp <= 0x20BF) || cp == 0x2212 {
        LB_PR
    } else if cp == 0x2F {
        LB_SY
    } else if is_hebrew(cp) {
        LB_HL
    } else if is_hangul_l(cp) {
        LB_JL
    } else if is_hangul_v(cp) {
        LB_JV
    } else if is_hangul_t(cp) {
        LB_JT
    } else if is_hangul_lv(cp) {
        LB_H2
    } else if is_hangul_lvt(cp) {
        LB_H3
    } else if is_ri(cp) {
        LB_RI
    } else if is_emoji_base(cp) {
        LB_EB
    } else if is_small_kana(cp) {
        LB_CJ
    } else if is_complex_script(cp) {
        LB_AL
    } else if is_ideographic(cp) {
        LB_ID
    } else {
        LB_AL
    }
}

/// Executable twin of [`lb_class`].
pub fn lb_class_of(cp: u32) -> (c: u8)
    ensures
        c == lb_class(cp),
{
    if cp == 0x0A {
        LB_LF
    } else if cp == 0x0D {
        LB_CR
    } else if cp == 0x85 {
        LB_NL
    } else if cp == 0x0B || cp == 0x0C || cp == 0x2028 || cp == 0x2029 {
        LB_BK
    } else if cp == 0x20 {
        LB_SP
    } else if cp == 0x200B {
        LB_ZW
    } else if cp == 0x2060 || cp == 0xFEFF {
        LB_WJ
    } else if cp == 0xA0 || cp == 0x2007 || cp == 0x202F || cp == 0x2011 {
        LB_GL
    } else if cp == 0x200D {
        LB_ZWJ
    } else if cp == 0x09 || cp == 0xAD || cp == 0x58A || cp == 0x5BE || cp == 0xF0B || cp == 0x2010
        || cp == 0x2012 || cp == 0x2013 {
        LB_BA
    } else if 0x1F3FB <= cp && cp <= 0x1F3FF {
        LB_EM
    } else if cp == 0x200C || combining(cp) || format_control(cp) {
        LB_CM
    } else if cp == 0x2D {
        LB_HY
    } else if cp == 0x2014 {
        LB_B2
    } else if cp == 0xB4 || cp == 0x2C8 || cp == 0x2CC {
        LB_BB
    } else if cp == 0xFFFC {
        LB_CB
    } else if cp == 0x7D || cp == 0x3001 || cp == 0x3002 || cp == 0x3009 || cp == 0x300B || cp
        == 0x300D || cp == 0x300F || cp == 0x3011 || cp == 0x3015 || cp == 0x3017 || cp == 0x3019
        || cp == 0x301B || cp == 0xFF09 || cp == 0xFF0C || cp == 0xFF0E || cp == 0xFF3D || cp
        == 0xFF5D || cp == 0xFF61 || cp == 0xFF63 || cp == 0xFF64 {
        LB_CL
    } else if cp == 0x29 || cp == 0x5D {
        LB_CP
    } else if cp == 0x21 || cp == 0x3F || cp == 0xFF01 || cp == 0xFF1F {
        LB_EX
    } else if (0x2024 <= cp && cp <= 0x2026) || cp == 0xFE19 {
        LB_IN
    } else if cp == 0x203C || cp == 0x203D || (0x2047 <= cp && cp <= 0x2049) || cp == 0x3005 || cp
        == 0x301C || cp == 0x303C || cp == 0x30FB || cp == 0xFF1A || cp == 0xFF1B || cp == 0xFF65 {
        LB_NS
    } else if cp == 0x28 || cp == 0x5B || cp == 0x7B || cp == 0xA1 || cp == 0xBF || cp == 0x3008
        || cp == 0x300A || cp == 0x300C || cp == 0x300E || cp == 0x3010 || cp == 0x3014 || cp
        == 0x3016 || cp == 0x3018 || cp == 0x301A || cp == 0xFF08 || cp == 0xFF3B || cp == 0xFF5B
        || cp == 0xFF62 {
        LB_OP
    } else if cp == 0x22 || cp == 0x27 || cp == 0xAB || cp == 0xBB || cp == 0x2018 || cp == 0x2019
        || cp == 0x201C || cp == 0x201D || cp == 0x2039 || cp == 0x203A {
        LB_QU
    } else if cp == 0x2C || cp == 0x2E || cp == 0x3A || cp == 0x3B || cp == 0x37E || cp == 0x589
        || cp == 0x60C || cp == 0x60D || cp == 0x2044 {
        LB_IS
    } else if digit(cp) || cp == 0x66B {
        LB_NU
    } else if cp == 0x25 || cp == 0xA2 || cp == 0xB0 || (0x2030 <= cp && cp <= 0x2033) || cp
        == 0xFF05 || cp == 0xFFE0 {
        LB_PO
    } else if cp == 0x24 || cp == 0x2B || cp == 0x5C || cp == 0xA3 || cp == 0xA4 || cp == 0xA5
        || cp == 0xB1 || (0x20A0 <= cp && cp <= 0x20BF) || cp == 0x2212 {
        LB_PR
    } else if cp == 0x2F {
        LB_SY
    } else if hebrew(cp) {
        LB_HL
    } else if (0x1100 <= cp && cp <= 0x115F) || (0xA960 <= cp && cp <= 0xA97C) {
        LB_JL
    } else if (0x1160 <= cp && cp <= 0x11A7) || (0xD7B0 <= cp && cp <= 0xD7C6) {
        LB_JV
    } else if (0x11A8 <= cp && cp <= 0x11FF) || (0xD7CB <= cp && cp <= 0xD7FB) {
        LB_JT
    } else if 0xAC00 <= cp && cp <= 0xD7A3 && (cp - 0xAC00) % 28 == 0 {
        LB_H2
    } else if 0xAC00 <= cp && cp <= 0xD7A3 {
        LB_H3
    } else if regional_indicator(cp) {
        LB_RI
    } else if (0x270A <= cp && cp <= 0x270D) || cp == 0x1F385 || (0x1F466 <= cp && cp <= 0x1F478)
        || (0x1F481 <= cp && cp <= 0x1F483) || cp == 0x1F590 || (0x1F645 <= cp && cp <= 0x1F647)
        || cp == 0x1F926 || (0x1F9D1 <= cp && cp <= 0x1F9DD) {
        LB_EB
    } else if cp == 0x3041 || cp == 0x3043 || cp == 0x3045 || cp == 0x3047 || cp == 0x3049 || cp
        == 0x3063 || cp == 0x3083 || cp == 0x3085 || cp == 0x3087 || cp == 0x308E || cp == 0x3095
        || cp == 0x3096 || cp == 0x30A1 || cp == 0x30A3 || cp == 0x30A5 || cp == 0x30A7 || cp
        == 0x30A9 || cp == 0x30C3 || cp == 0x30E3 || cp == 0x30E5 || cp == 0x30E7 || cp == 0x30EE
        || cp == 0x30F5 || cp == 0x30F6 || cp == 0x30FC || (0xFF67 <= cp && cp <= 0xFF70) {
        LB_CJ
    } else if complex_script(cp) {
        LB_AL
    } else if ideographic(cp) {
        LB_ID
    } else {
        LB_AL
    }
}

} // verus!
