//! Word boundary rules.
//!
//! Extenders, format controls, and the zero-width joiner are transparent:
//! except directly after a newline they attach to the preceding character
//! and are skipped when the rules read their context. Several rules need
//! one further character of lookahead or lookback beyond the transparent
//! span, and the regional-indicator rule needs the length of the preceding
//! indicator run; all of that context is resolved here, so the relation is
//! total and the earliest matching rule wins.

use vstd::prelude::*;

use crate::property::WC_ALETTER;
use crate::property::WC_CR;
use crate::property::WC_DQ;
use crate::property::WC_EXTEND;
use crate::property::WC_EXTENDNUMLET;
use crate::property::WC_EXTPIC;
use crate::property::WC_FORMAT;
use crate::property::WC_HEBREW;
use crate::property::WC_KATAKANA;
use crate::property::WC_LF;
use crate::property::WC_MIDLETTER;
use crate::property::WC_MIDNUM;
use crate::property::WC_MIDNUMLET;
use crate::property::WC_NEWLINE;
use crate::property::WC_NUMERIC;
use crate::property::WC_RI;
use crate::property::WC_SQ;
use crate::property::WC_WSEGSPACE;
use crate::property::WC_ZWJ;
use crate::property::wb_class;
use crate::property::wb_class_of;

verus! {

/// True for the classes that are transparent to the word rules.
pub open spec fn wb_ignorable(c: u8) -> bool {
    c == WC_EXTEND || c == WC_FORMAT || c == WC_ZWJ
}

/// True for the two letter classes that the rules treat alike.
pub open spec fn wb_letterish(c: u8) -> bool {
    c == WC_ALETTER || c == WC_HEBREW
}

/// Index of the last non-transparent code point at or before `j`, or `-1`.
pub open spec fn wb_prev(cps: Seq<u32>, j: int) -> int
    recommends
        j < cps.len(),
    decreases j + 1,
{
    if j < 0 {
        -1
    } else if wb_ignorable(wb_class(cps[j])) {
        wb_prev(cps, j - 1)
    } else {
        j
    }
}

/// The previous-index helper stays within `[-1, j]`.
pub proof fn lemma_wb_prev_le(cps: Seq<u32>, j: int)
    requires
        -1 <= j,
    ensures
        -1 <= wb_prev(cps, j) <= j,
    decreases j + 1,
{
    if j >= 0 && wb_ignorable(wb_class(cps[j])) {
        lemma_wb_prev_le(cps, j - 1);
    }
}

/// Index of the first non-transparent code point at or after `j`, or the
/// sequence length when none follows.
pub open spec fn wb_next(cps: Seq<u32>, j: int) -> int
    recommends
        0 <= j,
    decreases cps.len() - j,
{
    if j < 0 || j >= cps.len() {
        cps.len() as int
    } else if wb_ignorable(wb_class(cps[j])) {
        wb_next(cps, j + 1)
    } else {
        j
    }
}

/// Length of the run of regional indicators (transparent characters
/// skipped) ending at index `j`.
pub open spec fn wb_ri_run(cps: Seq<u32>, j: int) -> int
    recommends
        j < cps.len(),
    decreases j + 1,
    when j < cps.len()
    via wb_ri_run_decreases
{
    if j < 0 {
        0
    } else if wb_class(cps[j]) == WC_RI {
        1 + wb_ri_run(cps, wb_prev(cps, j - 1))
    } else {
        0
    }
}

#[via_fn]
proof fn wb_ri_run_decreases(cps: Seq<u32>, j: int) {
    if 0 <= j && wb_class(cps[j]) == WC_RI {
        lemma_wb_prev_le(cps, j - 1);
    }
}

/// True when the first non-transparent code point at or after `j` exists
/// and bears class `c` (or either letter class, when `letterish` is set).
pub open spec fn wb_next_has(cps: Seq<u32>, j: int, c: u8, letterish: bool) -> bool {
    let k = wb_next(cps, j);
    k < cps.len() && (if letterish {
        wb_letterish(wb_class(cps[k]))
    } else {
        wb_class(cps[k]) == c
    })
}

/// True when the last non-transparent code point at or before `j` exists
/// and bears class `c` (or either letter class, when `letterish` is set).
pub open spec fn wb_prev_has(cps: Seq<u32>, j: int, c: u8, letterish: bool) -> bool {
    let k = wb_prev(cps, j);
    k >= 0 && (if letterish {
        wb_letterish(wb_class(cps[k]))
    } else {
        wb_class(cps[k]) == c
    })
}

/// True when a word boundary falls between `cps[i - 1]` and `cps[i]`.
pub open spec fn is_word_break(cps: Seq<u32>, i: int) -> bool
    recommends
        1 <= i < cps.len(),
{
    let lc = wb_class(cps[i - 1]);
    let rc = wb_class(cps[i]);
    if lc == WC_CR && rc == WC_LF {
        false
    } else if lc == WC_CR || lc == WC_LF || lc == WC_NEWLINE {
        true
    } else if rc == WC_CR || rc == WC_LF || rc == WC_NEWLINE {
        true
    } else if lc == WC_ZWJ && rc == WC_EXTPIC {
        false
    } else if lc == WC_WSEGSPACE && rc == WC_WSEGSPACE {
        false
    } else if wb_ignorable(rc) {
        false
    } else {
        let lb = wb_prev(cps, i - 1);
        if lb < 0 {
            true
        } else {
            let l = wb_class(cps[lb]);
            if wb_letterish(l) && wb_letterish(rc) {
                false
            } else if wb_letterish(l) && (rc == WC_MIDLETTER || rc == WC_MIDNUMLET || rc == WC_SQ)
                && wb_next_has(cps, i + 1, 0, true) {
                false
            } else if (l == WC_MIDLETTER || l == WC_MIDNUMLET || l == WC_SQ) && wb_letterish(rc)
                && wb_prev_has(cps, lb - 1, 0, true) {
                false
            } else if l == WC_HEBREW && rc == WC_SQ {
                false
            } else if l == WC_HEBREW && rc == WC_DQ && wb_next_has(cps, i + 1, WC_HEBREW, false) {
                false
            } else if l == WC_DQ && rc == WC_HEBREW && wb_prev_has(cps, lb - 1, WC_HEBREW, false) {
                false
            } else if l == WC_NUMERIC && rc == WC_NUMERIC {
                false
            } else if wb_letterish(l) && rc == WC_NUMERIC {
                false
            } else if l == WC_NUMERIC && wb_letterish(rc) {
                false
            } else if (l == WC_MIDNUM || l == WC_MIDNUMLET || l == WC_SQ) && rc == WC_NUMERIC
                && wb_prev_has(cps, lb - 1, WC_NUMERIC, false) {
                false
            } else if l == WC_NUMERIC && (rc == WC_MIDNUM || rc == WC_MIDNUMLET || rc == WC_SQ)
                && wb_next_has(cps, i + 1, WC_NUMERIC, false) {
                false
            } else if l == WC_KATAKANA && rc == WC_KATAKANA {
                false
            } else if (wb_letterish(l) || l == WC_NUMERIC || l == WC_KATAKANA || l
                == WC_EXTENDNUMLET) && rc == WC_EXTENDNUMLET {
                false
            } else if l == WC_EXTENDNUMLET && (wb_letterish(rc) || rc == WC_NUMERIC || rc
                == WC_KATAKANA) {
                false
            } else if l == WC_RI && rc == WC_RI && wb_ri_run(cps, lb) % 2 == 1 {
                false
            } else {
                true
            }
        }
    }
}

/// Executable twin of [`wb_prev`]; `None` stands for `-1`.
fn wb_prev_at(cps: &Vec<u32>, j: usize) -> (r: Option<usize>)
    requires
        j < cps@.len(),
    ensures
        match r {
            Some(k) => wb_prev(cps@, j as int) == k && k <= j,
            None => wb_prev(cps@, j as int) == -1,
        },
    decreases j,
{
    if wb_ignorable_at(wb_class_of(cps[j])) {
        if j == 0 {
            proof {
                assert(wb_prev(cps@, -1) == -1);
            }
            None
        } else {
            wb_prev_at(cps, j - 1)
        }
    } else {
        Some(j)
    }
}

/// Executable twin of [`wb_ignorable`].
fn wb_ignorable_at(c: u8) -> (r: bool)
    ensures
        r == wb_ignorable(c),
{
    c == WC_EXTEND || c == WC_FORMAT || c == WC_ZWJ
}

/// Executable twin of [`wb_next`]; `None` stands for the sequence length.
fn wb_next_at(cps: &Vec<u32>, j: usize) -> (r: Option<usize>)
    requires
        j <= cps@.len(),
    ensures
        match r {
            Some(k) => wb_next(cps@, j as int) == k && j <= k && k < cps@.len(),
            None => wb_next(cps@, j as int) == cps@.len(),
        },
    decreases cps@.len() - j,
{
    if j == cps.len() {
        None
    } else if wb_ignorable_at(wb_class_of(cps[j])) {
        wb_next_at(cps, j + 1)
    } else {
        Some(j)
    }
}

/// Executable twin of the parity test on [`wb_ri_run`].
fn wb_ri_run_odd(cps: &Vec<u32>, j: usize) -> (odd: bool)
    requires
        j < cps@.len(),
    ensures
        odd == (wb_ri_run(cps@, j as int) % 2 == 1),
    decreases j,
{
    if wb_class_of(cps[j]) == WC_RI {
        if j == 0 {
            proof {
                assert(wb_ri_run(cps@, wb_prev(cps@, -1)) == 0);
            }
            true
        } else {
            let p = wb_prev_at(cps, j - 1);
            match p {
                Some(k) => !wb_ri_run_odd(cps, k),
                None => {
                    proof {
                        assert(wb_ri_run(cps@, -1) == 0);
                    }
                    true
                },
            }
        }
    } else {
        false
    }
}

/// True when the first non-transparent code point at or after `j` exists
/// and satisfies the requested class test; executable twin of
/// [`wb_next_has`].
fn wb_next_has_at(cps: &Vec<u32>, j: usize, c: u8, letterish: bool) -> (r: bool)
    requires
        j <= cps@.len(),
    ensures
        r == wb_next_has(cps@, j as int, c, letterish),
{
    let k = wb_next_at(cps, j);
    match k {
        Some(k) => {
            let kc = wb_class_of(cps[k]);
            if letterish {
                kc == WC_ALETTER || kc == WC_HEBREW
            } else {
                kc == c
            }
        },
        None => false,
    }
}

/// True when the last non-transparent code point at or before `j` exists
/// and satisfies the requested class test; executable twin of
/// [`wb_prev_has`] (`before` false stands for a lookback start of `-1`).
fn wb_prev_has_at(cps: &Vec<u32>, j: usize, present: bool, c: u8, letterish: bool) -> (r: bool)
    requires
        present ==> j < cps@.len(),
    ensures
        present ==> r == wb_prev_has(cps@, j as int, c, letterish),
        !present ==> r == wb_prev_has(cps@, -1, c, letterish),
{
    if !present {
        proof {
            assert(wb_prev(cps@, -1) == -1);
        }
        false
    } else {
        let k = wb_prev_at(cps, j);
        match k {
            Some(k) => {
                let kc = wb_class_of(cps[k]);
                if letterish {
                    kc == WC_ALETTER || kc == WC_HEBREW
                } else {
                    kc == c
                }
            },
            None => false,
        }
    }
}

/// Executable twin of [`is_word_break`].
pub fn word_break_at(cps: &Vec<u32>, i: usize) -> (b: bool)
    requires
        1 <= i < cps@.len(),
    ensures
        b == is_word_break(cps@, i as int),
{
    let n = cps.len();
    proof {
        assert(i + 1 <= n);
    }
    let lc = wb_class_of(cps[i - 1]);
    let rc = wb_class_of(cps[i]);
    if lc == WC_CR && rc == WC_LF {
        false
    } else if lc == WC_CR || lc == WC_LF || lc == WC_NEWLINE {
        true
    } else if rc == WC_CR || rc == WC_LF || rc == WC_NEWLINE {
        true
    } else if lc == WC_ZWJ && rc == WC_EXTPIC {
        false
    } else if lc == WC_WSEGSPACE && rc == WC_WSEGSPACE {
        false
    } else if wb_ignorable_at(rc) {
        false
    } else {
        let lbo = wb_prev_at(cps, i - 1);
        match lbo {
            None => true,
            Some(lb) => {
                let l = wb_class_of(cps[lb]);
                let l_letter = l == WC_ALETTER || l == WC_HEBREW;
                let r_letter = rc == WC_ALETTER || rc == WC_HEBREW;
                if l_letter && r_letter {
                    false
                } else if l_letter && (rc == WC_MIDLETTER || rc == WC_MIDNUMLET || rc == WC_SQ)
                    && wb_next_has_at(cps, i + 1, 0, true) {
                    false
                } else if (l == WC_MIDLETTER || l == WC_MIDNUMLET || l == WC_SQ) && r_letter
                    && wb_prev_has_at(cps, if lb == 0 { 0 } else { lb - 1 }, lb > 0, 0, true) {
                    false
                } else if l == WC_HEBREW && rc == WC_SQ {
                    false
                } else if l == WC_HEBREW && rc == WC_DQ && wb_next_has_at(
                    cps,
                    i + 1,
                    WC_HEBREW,
                    false,
                ) {
                    false
                } else if l == WC_DQ && rc == WC_HEBREW && wb_prev_has_at(
                    cps,
                    if lb == 0 { 0 } else { lb - 1 },
                    lb > 0,
                    WC_HEBREW,
                    false,
                ) {
                    false
                } else if l == WC_NUMERIC && rc == WC_NUMERIC {
                    false
                } else if l_letter && rc == WC_NUMERIC {
                    false
                } else if l == WC_NUMERIC && r_letter {
                    false
                } else if (l == WC_MIDNUM || l == WC_MIDNUMLET || l == WC_SQ) && rc == WC_NUMERIC
                    && wb_prev_has_at(
                    cps,
                    if lb == 0 { 0 } else { lb - 1 },
                    lb > 0,
                    WC_NUMERIC,
                    false,
                ) {
                    false
                } else if l == WC_NUMERIC && (rc == WC_MIDNUM || rc == WC_MIDNUMLET || rc == WC_SQ)
                    && wb_next_has_at(cps, i + 1, WC_NUMERIC, false) {
                    false
                } else if l == WC_KATAKANA && rc == WC_KATAKANA {
                    false
                } else if (l_letter || l == WC_NUMERIC || l == WC_KATAKANA || l == WC_EXTENDNUMLET)
                    && rc == WC_EXTENDNUMLET {
                    false
                } else if l == WC_EXTENDNUMLET && (r_letter || rc == WC_NUMERIC || rc
                    == WC_KATAKANA) {
                    false
                } else if l == WC_RI && rc == WC_RI && wb_ri_run_odd(cps, lb) {
                    false
                } else {
                    true
                }
            },
        }
    }
}

} // verus!
