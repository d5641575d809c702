//! Sentence boundary rules.
//!
//! Sentences differ from the other algorithms in their default: adjacent
//! characters stay together unless a rule places a boundary, which happens
//! only after paragraph separators and after sentence terminators followed
//! by their trailing closers and spaces. Extenders and format controls are
//! transparent. The ambiguous terminator (the full stop) suppresses the
//! boundary before digits, before an immediately following uppercase letter
//! in an abbreviation context, and when a lowercase letter lies ahead.

use vstd::prelude::*;

use crate::property::SC_ATERM;
use crate::property::SC_CLOSE;
use crate::property::SC_CR;
use crate::property::SC_EXTEND;
use crate::property::SC_FORMAT;
use crate::property::SC_LF;
use crate::property::SC_LOWER;
use crate::property::SC_NUMERIC;
use crate::property::SC_OLETTER;
use crate::property::SC_SCONTINUE;
use crate::property::SC_SEP;
use crate::property::SC_SP;
use crate::property::SC_STERM;
use crate::property::SC_UPPER;
use crate::property::sb_class;
use crate::property::sb_class_of;

verus! {

/// True for the classes that are transparent to the sentence rules.
pub open spec fn sb_ignorable(c: u8) -> bool {
    c == SC_EXTEND || c == SC_FORMAT
}

/// Index of the last non-transparent code point at or before `j`, or `-1`.
pub open spec fn sb_prev(cps: Seq<u32>, j: int) -> int
    recommends
        j < cps.len(),
    decreases j + 1,
{
    if j < 0 {
        -1
    } else if sb_ignorable(sb_class(cps[j])) {
        sb_prev(cps, j - 1)
    } else {
        j
    }
}

/// The previous-index helper stays within `[-1, j]`.
pub proof fn lemma_sb_prev_le(cps: Seq<u32>, j: int)
    requires
        -1 <= j,
    ensures
        -1 <= sb_prev(cps, j) <= j,
    decreases j + 1,
{
    if j >= 0 && sb_ignorable(sb_class(cps[j])) {
        lemma_sb_prev_le(cps, j - 1);
    }
}

/// From folded index `j`, skips a run of spaces backward (transparent
/// characters skipped between them) and returns the folded index before it.
pub open spec fn sb_skip_sp_back(cps: Seq<u32>, j: int) -> int
    recommends
        j < cps.len(),
    decreases j + 1,
    when j < cps.len()
    via sb_skip_sp_back_decreases
{
    if j < 0 {
        -1
    } else if sb_class(cps[j]) == SC_SP {
        sb_skip_sp_back(cps, sb_prev(cps, j - 1))
    } else {
        j
    }
}

#[via_fn]
proof fn sb_skip_sp_back_decreases(cps: Seq<u32>, j: int) {
    if 0 <= j && sb_class(cps[j]) == SC_SP {
        lemma_sb_prev_le(cps, j - 1);
    }
}

/// The space-skipping helper stays within `[-1, j]`.
pub proof fn lemma_sb_skip_sp_le(cps: Seq<u32>, j: int)
    requires
        -1 <= j,
        j < cps.len(),
    ensures
        -1 <= sb_skip_sp_back(cps, j) <= j,
    decreases j + 1,
{
    if 0 <= j && sb_class(cps[j]) == SC_SP {
        lemma_sb_prev_le(cps, j - 1);
        if sb_prev(cps, j - 1) >= -1 {
            lemma_sb_skip_sp_le(cps, sb_prev(cps, j - 1));
        }
    }
}

/// From folded index `j`, skips a run of closing punctuation backward and
/// returns the folded index before it.
pub open spec fn sb_skip_close_back(cps: Seq<u32>, j: int) -> int
    recommends
        j < cps.len(),
    decreases j + 1,
    when j < cps.len()
    via sb_skip_close_back_decreases
{
    if j < 0 {
        -1
    } else if sb_class(cps[j]) == SC_CLOSE {
        sb_skip_close_back(cps, sb_prev(cps, j - 1))
    } else {
        j
    }
}

#[via_fn]
proof fn sb_skip_close_back_decreases(cps: Seq<u32>, j: int) {
    if 0 <= j && sb_class(cps[j]) == SC_CLOSE {
        lemma_sb_prev_le(cps, j - 1);
    }
}

/// The closer-skipping helper stays within `[-1, j]`.
pub proof fn lemma_sb_skip_close_le(cps: Seq<u32>, j: int)
    requires
        -1 <= j,
        j < cps.len(),
    ensures
        -1 <= sb_skip_close_back(cps, j) <= j,
    decreases j + 1,
{
    if 0 <= j && sb_class(cps[j]) == SC_CLOSE {
        lemma_sb_prev_le(cps, j - 1);
        if sb_prev(cps, j - 1) >= -1 {
            lemma_sb_skip_close_le(cps, sb_prev(cps, j - 1));
        }
    }
}

/// True when folded index `j` ends a `terminator Close*` context; with
/// `with_sp`, a `terminator Close* Sp*` context. With `aterm_only`, only
/// the ambiguous terminator counts.
pub open spec fn sb_term_context(cps: Seq<u32>, j: int, with_sp: bool, aterm_only: bool) -> bool
    recommends
        j < cps.len(),
{
    let j1 = if with_sp {
        sb_skip_sp_back(cps, j)
    } else {
        j
    };
    let j2 = sb_skip_close_back(cps, j1);
    j2 >= 0 && (if aterm_only {
        sb_class(cps[j2]) == SC_ATERM
    } else {
        sb_class(cps[j2]) == SC_ATERM || sb_class(cps[j2]) == SC_STERM
    })
}

/// True when, scanning forward from `k`, a lowercase letter appears before
/// any letter, digit-free terminator, or separator does.
pub open spec fn sb_lower_ahead(cps: Seq<u32>, k: int) -> bool
    decreases cps.len() - k,
    when k <= cps.len()
{
    if k < 0 || k >= cps.len() {
        false
    } else {
        let c = sb_class(cps[k]);
        if c == SC_LOWER {
            true
        } else if c == SC_OLETTER || c == SC_UPPER || c == SC_SEP || c == SC_CR || c == SC_LF || c
            == SC_STERM || c == SC_ATERM {
            false
        } else {
            sb_lower_ahead(cps, k + 1)
        }
    }
}

/// True when a sentence boundary falls between `cps[i - 1]` and `cps[i]`.
pub open spec fn is_sentence_break(cps: Seq<u32>, i: int) -> bool
    recommends
        1 <= i < cps.len(),
{
    let lc = sb_class(cps[i - 1]);
    let rc = sb_class(cps[i]);
    if lc == SC_CR && rc == SC_LF {
        false
    } else if lc == SC_SEP || lc == SC_CR || lc == SC_LF {
        true
    } else if sb_ignorable(rc) {
        false
    } else {
        let lb = sb_prev(cps, i - 1);
        if lb < 0 {
            false
        } else {
            let l = sb_class(cps[lb]);
            if l == SC_ATERM && rc == SC_NUMERIC {
                false
            } else if l == SC_ATERM && rc == SC_UPPER && sb_upper_lower_before(cps, lb - 1) {
                false
            } else if sb_term_context(cps, lb, true, true) && sb_lower_ahead(cps, i) {
                false
            } else if sb_term_context(cps, lb, true, false) && (rc == SC_SCONTINUE || rc == SC_ATERM
                || rc == SC_STERM) {
                false
            } else if (rc == SC_CLOSE || rc == SC_SP || rc == SC_SEP || rc == SC_CR || rc == SC_LF)
                && sb_term_context(cps, lb, false, false) {
                false
            } else if (rc == SC_SP || rc == SC_SEP || rc == SC_CR || rc == SC_LF)
                && sb_term_context(cps, lb, true, false) {
                false
            } else if sb_term_context(cps, lb, true, false) {
                true
            } else {
                false
            }
        }
    }
}

/// True when the last non-transparent code point at or before `j` is a
/// cased letter.
pub open spec fn sb_upper_lower_before(cps: Seq<u32>, j: int) -> bool {
    let k = sb_prev(cps, j);
    k >= 0 && (sb_class(cps[k]) == SC_UPPER || sb_class(cps[k]) == SC_LOWER)
}

/// Executable twin of [`sb_ignorable`].
fn sb_ignorable_at(c: u8) -> (r: bool)
    ensures
        r == sb_ignorable(c),
{
    c == SC_EXTEND || c == SC_FORMAT
}

/// Executable twin of [`sb_prev`]; `None` stands for `-1`.
fn sb_prev_at(cps: &Vec<u32>, j: usize) -> (r: Option<usize>)
    requires
        j < cps@.len(),
    ensures
        match r {
            Some(k) => sb_prev(cps@, j as int) == k && k <= j,
            None => sb_prev(cps@, j as int) == -1,
        },
    decreases j,
{
    if sb_ignorable_at(sb_class_of(cps[j])) {
        if j == 0 {
            proof {
                assert(sb_prev(cps@, -1) == -1);
            }
            None
        } else {
            sb_prev_at(cps, j - 1)
        }
    } else {
        Some(j)
    }
}

/// Executable twin of [`sb_skip_sp_back`]; `None` stands for `-1`.
fn sb_skip_sp_back_at(cps: &Vec<u32>, j: usize) -> (r: Option<usize>)
    requires
        j < cps@.len(),
    ensures
        match r {
            Some(k) => sb_skip_sp_back(cps@, j as int) == k && k <= j && k < cps@.len(),
            None => sb_skip_sp_back(cps@, j as int) == -1,
        },
    decreases j,
{
    if sb_class_of(cps[j]) == SC_SP {
        if j == 0 {
            proof {
                assert(sb_prev(cps@, -1) == -1);
                assert(sb_skip_sp_back(cps@, -1) == -1);
            }
            None
        } else {
            let p = sb_prev_at(cps, j - 1);
            match p {
                Some(k) => sb_skip_sp_back_at(cps, k),
                None => {
                    proof {
                        assert(sb_skip_sp_back(cps@, -1) == -1);
                    }
                    None
                },
            }
        }
    } else {
        Some(j)
    }
}

/// Executable twin of [`sb_skip_close_back`]; `None` stands for `-1`.
fn sb_skip_close_back_at(cps: &Vec<u32>, j: usize) -> (r: Option<usize>)
    requires
        j < cps@.len(),
    ensures
        match r {
            Some(k) => sb_skip_close_back(cps@, j as int) == k && k <= j && k < cps@.len(),
            None => sb_skip_close_back(cps@, j as int) == -1,
        },
    decreases j,
{
    if sb_class_of(cps[j]) == SC_CLOSE {
        if j == 0 {
            proof {
                assert(sb_prev(cps@, -1) == -1);
                assert(sb_skip_close_back(cps@, -1) == -1);
            }
            None
        } else {
            let p = sb_prev_at(cps, j - 1);
            match p {
                Some(k) => sb_skip_close_back_at(cps, k),
                None => {
                    proof {
                        assert(sb_skip_close_back(cps@, -1) == -1);
                    }
                    None
                },
            }
        }
    } else {
        Some(j)
    }
}

/// Executable twin of [`sb_term_context`].
fn sb_term_context_at(cps: &Vec<u32>, j: usize, with_sp: bool, aterm_only: bool) -> (r: bool)
    requires
        j < cps@.len(),
    ensures
        r == sb_term_context(cps@, j as int, with_sp, aterm_only),
{
    let j1 = if with_sp {
        sb_skip_sp_back_at(cps, j)
    } else {
        Some(j)
    };
    match j1 {
        None => {
            proof {
                assert(sb_skip_close_back(cps@, -1) == -1);
            }
            false
        },
        Some(k1) => {
            let j2 = sb_skip_close_back_at(cps, k1);
            match j2 {
                None => false,
                Some(k2) => {
                    let c = sb_class_of(cps[k2]);
                    if aterm_only {
                        c == SC_ATERM
                    } else {
                        c == SC_ATERM || c == SC_STERM
                    }
                },
            }
        },
    }
}

/// Executable twin of [`sb_lower_ahead`].
fn sb_lower_ahead_at(cps: &Vec<u32>, k: usize) -> (r: bool)
    requires
        k <= cps@.len(),
    ensures
        r == sb_lower_ahead(cps@, k as int),
    decreases cps@.len() - k,
{
    if k == cps.len() {
        false
    } else {
        let c = sb_class_of(cps[k]);
        if c == SC_LOWER {
            true
        } else if c == SC_OLETTER || c == SC_UPPER || c == SC_SEP || c == SC_CR || c == SC_LF || c
            == SC_STERM || c == SC_ATERM {
            false
        } else {
            sb_lower_ahead_at(cps, k + 1)
        }
    }
}

/// Executable twin of [`is_sentence_break`].
pub fn sentence_break_at(cps: &Vec<u32>, i: usize) -> (b: bool)
    requires
        1 <= i < cps@.len(),
    ensures
        b == is_sentence_break(cps@, i as int),
{
    let lc = sb_class_of(cps[i - 1]);
    let rc = sb_class_of(cps[i]);
    if lc == SC_CR && rc == SC_LF {
        false
    } else if lc == SC_SEP || lc == SC_CR || lc == SC_LF {
        true
    } else if sb_ignorable_at(rc) {
        false
    } else {
        let lbo = sb_prev_at(cps, i - 1);
        match lbo {
            None => false,
            Some(lb) => {
                let l = sb_class_of(cps[lb]);
                let upper_lower_before: bool;
                if lb == 0 {
                    proof {
                        assert(sb_prev(cps@, -1) == -1);
                    }
                    upper_lower_before = false;
                } else {
                    let p = sb_prev_at(cps, lb - 1);
                    upper_lower_before = match p {
                        Some(k) => {
                            let pc = sb_class_of(cps[k]);
                            pc == SC_UPPER || pc == SC_LOWER
                        },
                        None => false,
                    };
                }
                if l == SC_ATERM && rc == SC_NUMERIC {
                    false
                } else if l == SC_ATERM && rc == SC_UPPER && upper_lower_before {
                    false
                } else if sb_term_context_at(cps, lb, true, true) && sb_lower_ahead_at(cps, i) {
                    false
                } else if sb_term_context_at(cps, lb, true, false) && (rc == SC_SCONTINUE || rc
                    == SC_ATERM || rc == SC_STERM) {
                    false
                } else if (rc == SC_CLOSE || rc == SC_SP || rc == SC_SEP || rc == SC_CR || rc
                    == SC_LF) && sb_term_context_at(cps, lb, false, false) {
                    false
                } else if (rc == SC_SP || rc == SC_SEP || rc == SC_CR || rc == SC_LF)
                    && sb_term_context_at(cps, lb, true, false) {
                    false
                } else if sb_term_context_at(cps, lb, true, false) {
                    true
                } else {
                    false
                }
            },
        }
    }
}

} // verus!
