//! Grapheme-cluster boundary rules.
//!
//! The rule relation is total over all class pairs: for every position the
//! chain below reaches a decision, the earliest matching rule winning, which
//! mirrors the published priority order. Two rules need context beyond the
//! adjacent pair: the emoji zero-width-joiner sequence rule (a pictograph
//! followed by extenders, a joiner, and another pictograph stays whole) and
//! the regional-indicator pairing rule (flags pair up two by two).

use vstd::prelude::*;

use crate::property::GC_CONTROL;
use crate::property::GC_CR;
use crate::property::GC_EXTEND;
use crate::property::GC_EXTPIC;
use crate::property::GC_L;
use crate::property::GC_LF;
use crate::property::GC_LV;
use crate::property::GC_LVT;
use crate::property::GC_PREPEND;
use crate::property::GC_RI;
use crate::property::GC_SPACINGMARK;
use crate::property::GC_T;
use crate::property::GC_V;
use crate::property::GC_ZWJ;
use crate::property::gcb_class;
use crate::property::gcb_class_of;

verus! {

/// Index of the last code point at or before `j` that is not an extender,
/// or `-1` when only extenders precede.
pub open spec fn gcb_skip_extend_back(cps: Seq<u32>, j: int) -> int
    recommends
        j < cps.len(),
    decreases j + 1,
{
    if j < 0 {
        -1
    } else if gcb_class(cps[j]) == GC_EXTEND {
        gcb_skip_extend_back(cps, j - 1)
    } else {
        j
    }
}

/// Number of consecutive regional indicators ending just before index `j`.
pub open spec fn gcb_ri_run_before(cps: Seq<u32>, j: int) -> int
    recommends
        j <= cps.len(),
    decreases j,
{
    if j <= 0 {
        0
    } else if gcb_class(cps[j - 1]) == GC_RI {
        1 + gcb_ri_run_before(cps, j - 1)
    } else {
        0
    }
}

/// Context of the emoji joiner rule: walking back from `i - 2` over
/// extenders lands on an extended pictographic character.
pub open spec fn gcb_zwj_context(cps: Seq<u32>, i: int) -> bool
    recommends
        1 <= i < cps.len(),
{
    let j = gcb_skip_extend_back(cps, i - 2);
    j >= 0 && gcb_class(cps[j]) == GC_EXTPIC
}

/// True when a grapheme-cluster boundary falls between `cps[i - 1]` and
/// `cps[i]`.
pub open spec fn is_grapheme_break(cps: Seq<u32>, i: int) -> bool
    recommends
        1 <= i < cps.len(),
{
    let l = gcb_class(cps[i - 1]);
    let r = gcb_class(cps[i]);
    if l == GC_CR && r == GC_LF {
        false
    } else if l == GC_CONTROL || l == GC_CR || l == GC_LF {
        true
    } else if r == GC_CONTROL || r == GC_CR || r == GC_LF {
        true
    } else if l == GC_L && (r == GC_L || r == GC_V || r == GC_LV || r == GC_LVT) {
        false
    } else if (l == GC_LV || l == GC_V) && (r == GC_V || r == GC_T) {
        false
    } else if (l == GC_LVT || l == GC_T) && r == GC_T {
        false
    } else if r == GC_EXTEND || r == GC_ZWJ {
        false
    } else if r == GC_SPACINGMARK {
        false
    } else if l == GC_PREPEND {
        false
    } else if l == GC_ZWJ && r == GC_EXTPIC && gcb_zwj_context(cps, i) {
        false
    } else if l == GC_RI && r == GC_RI && gcb_ri_run_before(cps, i - 1) % 2 == 0 {
        false
    } else {
        true
    }
}

/// Executable twin of [`gcb_skip_extend_back`]; `None` stands for `-1`.
fn gcb_skip_extend_back_at(cps: &Vec<u32>, j: usize) -> (r: Option<usize>)
    requires
        j < cps@.len(),
    ensures
        match r {
            Some(k) => gcb_skip_extend_back(cps@, j as int) == k && k <= j,
            None => gcb_skip_extend_back(cps@, j as int) == -1,
        },
    decreases j,
{
    if gcb_class_of(cps[j]) == GC_EXTEND {
        if j == 0 {
            proof {
                assert(gcb_skip_extend_back(cps@, -1) == -1);
            }
            None
        } else {
            gcb_skip_extend_back_at(cps, j - 1)
        }
    } else {
        Some(j)
    }
}

/// Executable twin of the parity of [`gcb_ri_run_before`].
fn gcb_ri_run_even(cps: &Vec<u32>, j: usize) -> (even: bool)
    requires
        j <= cps@.len(),
    ensures
        even == (gcb_ri_run_before(cps@, j as int) % 2 == 0),
    decreases j,
{
    if j == 0 {
        true
    } else if gcb_class_of(cps[j - 1]) == GC_RI {
        !gcb_ri_run_even(cps, j - 1)
    } else {
        true
    }
}

/// Executable twin of [`is_grapheme_break`].
pub fn grapheme_break_at(cps: &Vec<u32>, i: usize) -> (b: bool)
    requires
        1 <= i < cps@.len(),
    ensures
        b == is_grapheme_break(cps@, i as int),
{
    let l = gcb_class_of(cps[i - 1]);
    let r = gcb_class_of(cps[i]);
    if l == GC_CR && r == GC_LF {
        false
    } else if l == GC_CONTROL || l == GC_CR || l == GC_LF {
        true
    } else if r == GC_CONTROL || r == GC_CR || r == GC_LF {
        true
    } else if l == GC_L && (r == GC_L || r == GC_V || r == GC_LV || r == GC_LVT) {
        false
    } else if (l == GC_LV || l == GC_V) && (r == GC_V || r == GC_T) {
        false
    } else if (l == GC_LVT || l == GC_T) && r == GC_T {
        false
    } else if r == GC_EXTEND || r == GC_ZWJ {
        false
    } else if r == GC_SPACINGMARK {
        false
    } else if l == GC_PREPEND {
        false
    } else if l == GC_ZWJ && r == GC_EXTPIC {
        if i >= 2 {
            let back = gcb_skip_extend_back_at(cps, i - 2);
            match back {
                Some(k) => gcb_class_of(cps[k]) != GC_EXTPIC,
                None => true,
            }
        } else {
            true
        }
    } else if l == GC_RI && r == GC_RI && gcb_ri_run_even(cps, i - 1) {
        false
    } else {
        true
    }
}

} // verus!
