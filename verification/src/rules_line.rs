//! Line break rules and the option resolver.
//!
//! Before the pair rules are consulted, every code point's raw class is
//! passed through the option resolver: the strictness profile decides how
//! conditional Japanese starters behave, the word-break override can turn
//! letters and digits into ideograph-like break sites (`BreakAll`) or glue
//! ideographic runs together (`KeepAll`), and the loose profile under
//! Japanese/Chinese content turns nonstarters into ordinary break sites.
//!
//! Combining marks and the zero-width joiner are transparent: they attach
//! to the preceding character unless it is a space or a hard separator, in
//! which case they count as ordinary letters. The rule chain distinguishes
//! mandatory breaks (hard separators), allowed breaks, and prohibitions,
//! the earliest matching rule winning, mirroring the published priority
//! order.

use vstd::prelude::*;

use crate::options::LineBreakOptions;
use crate::options::LineBreakRule;
use crate::options::WordBreakRule;
use crate::property::LB_AL;
use crate::property::LB_B2;
use crate::property::LB_BA;
use crate::property::LB_BB;
use crate::property::LB_BK;
use crate::property::LB_CB;
use crate::property::LB_CJ;
use crate::property::LB_CL;
use crate::property::LB_CM;
use crate::property::LB_CP;
use crate::property::LB_CR;
use crate::property::LB_EB;
use crate::property::LB_EM;
use crate::property::LB_EX;
use crate::property::LB_GL;
use crate::property::LB_H2;
use crate::property::LB_H3;
use crate::property::LB_HL;
use crate::property::LB_HY;
use crate::property::LB_ID;
use crate::property::LB_IN;
use crate::property::LB_IS;
use crate::property::LB_JL;
use crate::property::LB_JT;
use crate::property::LB_JV;
use crate::property::LB_LF;
use crate::property::LB_NL;
use crate::property::LB_NS;
use crate::property::LB_NU;
use crate::property::LB_OP;
use crate::property::LB_PO;
use crate::property::LB_PR;
use crate::property::LB_QU;
use crate::property::LB_RI;
use crate::property::LB_SP;
use crate::property::LB_SY;
use crate::property::LB_WJ;
use crate::property::LB_ZW;
use crate::property::LB_ZWJ;
use crate::property::lb_class;
use crate::property::lb_class_of;

verus! {

/// Outcome of the pair table for one position.
#[derive(Clone, Copy, Debug, PartialEq, Eq, Structural)]
pub enum BreakDecision {
    /// No break may occur here.
    Prohibit,
    /// A break opportunity exists here.
    Allow,
    /// A break is required here.
    Mandatory,
}

/// Line break class of a code point after the option overrides.
pub open spec fn lb_resolved(cp: u32, opts: LineBreakOptions) -> u8 {
    let c0 = lb_class(cp);
    let c1 = if c0 == LB_CJ {
        if opts.line_break_rule == LineBreakRule::Strict {
            LB_NS
        } else {
            LB_ID
        }
    } else {
        c0
    };
    let c2 = if opts.word_break_rule == WordBreakRule::BreakAll && (c1 == LB_AL || c1 == LB_HL
        || c1 == LB_NU) {
        LB_ID
    } else if opts.word_break_rule == WordBreakRule::KeepAll && (c1 == LB_ID || c1 == LB_H2 || c1
        == LB_H3 || c1 == LB_JL || c1 == LB_JV || c1 == LB_JT) {
        LB_AL
    } else {
        c1
    };
    if opts.line_break_rule == LineBreakRule::Loose && opts.ja_zh && (c2 == LB_NS || c2 == LB_IN) {
        LB_ID
    } else {
        c2
    }
}

/// Executable twin of [`lb_resolved`].
pub fn lb_resolved_of(cp: u32, opts: LineBreakOptions) -> (c: u8)
    ensures
        c == lb_resolved(cp, opts),
{
    let c0 = lb_class_of(cp);
    let c1 = if c0 == LB_CJ {
        if opts.line_break_rule == LineBreakRule::Strict {
            LB_NS
        } else {
            LB_ID
        }
    } else {
        c0
    };
    let c2 = if opts.word_break_rule == WordBreakRule::BreakAll && (c1 == LB_AL || c1 == LB_HL
        || c1 == LB_NU) {
        LB_ID
    } else if opts.word_break_rule == WordBreakRule::KeepAll && (c1 == LB_ID || c1 == LB_H2 || c1
        == LB_H3 || c1 == LB_JL || c1 == LB_JV || c1 == LB_JT) {
        LB_AL
    } else {
        c1
    };
    if opts.line_break_rule == LineBreakRule::Loose && opts.ja_zh && (c2 == LB_NS || c2 == LB_IN) {
        LB_ID
    } else {
        c2
    }
}

/// True for the classes transparent to the pair rules.
pub open spec fn lb_transparent(c: u8) -> bool {
    c == LB_CM || c == LB_ZWJ
}

/// True for the classes a combining mark cannot attach to.
pub open spec fn lb_no_base(c: u8) -> bool {
    c == LB_BK || c == LB_CR || c == LB_LF || c == LB_NL || c == LB_SP || c == LB_ZW
}

/// Index of the last non-transparent code point at or before `j`, or `-1`.
pub open spec fn lb_prev_base(cps: Seq<u32>, j: int, opts: LineBreakOptions) -> int
    recommends
        j < cps.len(),
    decreases j + 1,
{
    if j < 0 {
        -1
    } else if lb_transparent(lb_resolved(cps[j], opts)) {
        lb_prev_base(cps, j - 1, opts)
    } else {
        j
    }
}

/// The base-finding helper stays within `[-1, j]`.
pub proof fn lemma_lb_prev_base_le(cps: Seq<u32>, j: int, opts: LineBreakOptions)
    requires
        -1 <= j,
    ensures
        -1 <= lb_prev_base(cps, j, opts) <= j,
    decreases j + 1,
{
    if j >= 0 && lb_transparent(lb_resolved(cps[j], opts)) {
        lemma_lb_prev_base_le(cps, j - 1, opts);
    }
}

/// Effective class of position `j`: a combining mark or joiner takes its
/// base's class; one with no usable base counts as an ordinary letter.
pub open spec fn lb_eff(cps: Seq<u32>, j: int, opts: LineBreakOptions) -> u8
    recommends
        0 <= j < cps.len(),
{
    let c = lb_resolved(cps[j], opts);
    if !lb_transparent(c) {
        c
    } else {
        let b = lb_prev_base(cps, j - 1, opts);
        if b < 0 {
            LB_AL
        } else {
            let bc = lb_resolved(cps[b], opts);
            if lb_no_base(bc) {
                LB_AL
            } else {
                bc
            }
        }
    }
}

/// Index of the last non-space code point at or before `j`, or `-1`.
pub open spec fn lb_skip_sp_back(cps: Seq<u32>, j: int, opts: LineBreakOptions) -> int
    recommends
        j < cps.len(),
    decreases j + 1,
{
    if j < 0 {
        -1
    } else if lb_resolved(cps[j], opts) == LB_SP {
        lb_skip_sp_back(cps, j - 1, opts)
    } else {
        j
    }
}

/// True when skipping spaces back from `i - 1` lands on a zero-width space.
pub open spec fn lb_zw_before(cps: Seq<u32>, i: int, opts: LineBreakOptions) -> bool
    recommends
        1 <= i < cps.len(),
{
    let k = lb_skip_sp_back(cps, i - 1, opts);
    k >= 0 && lb_resolved(cps[k], opts) == LB_ZW
}

/// True when skipping spaces back from `i - 1` lands on effective class
/// `cls`.
pub open spec fn lb_sp_ctx(cps: Seq<u32>, i: int, cls: u8, opts: LineBreakOptions) -> bool
    recommends
        1 <= i < cps.len(),
{
    let k = lb_skip_sp_back(cps, i - 1, opts);
    k >= 0 && lb_eff(cps, k, opts) == cls
}

/// True when the base before the hyphen-like base before `i` is a Hebrew
/// letter.
pub open spec fn lb_hl_hyphen_before(cps: Seq<u32>, i: int, opts: LineBreakOptions) -> bool
    recommends
        1 <= i < cps.len(),
{
    let b = lb_prev_base(cps, i - 1, opts);
    b >= 1 && {
        let p = lb_prev_base(cps, b - 1, opts);
        p >= 0 && lb_resolved(cps[p], opts) == LB_HL
    }
}

/// Length of the run of regional indicators (transparent characters
/// skipped) ending at folded index `j`.
pub open spec fn lb_ri_run(cps: Seq<u32>, j: int, opts: LineBreakOptions) -> int
    recommends
        j < cps.len(),
    decreases j + 1,
    when j < cps.len()
    via lb_ri_run_decreases
{
    if j < 0 {
        0
    } else if lb_resolved(cps[j], opts) == LB_RI {
        1 + lb_ri_run(cps, lb_prev_base(cps, j - 1, opts), opts)
    } else {
        0
    }
}

#[via_fn]
proof fn lb_ri_run_decreases(cps: Seq<u32>, j: int, opts: LineBreakOptions) {
    if 0 <= j && lb_resolved(cps[j], opts) == LB_RI {
        lemma_lb_prev_base_le(cps, j - 1, opts);
    }
}

/// The pair table's decision between `cps[i - 1]` and `cps[i]`, applying
/// the rules in priority order.
pub open spec fn line_break_decision(cps: Seq<u32>, i: int, opts: LineBreakOptions) -> BreakDecision
    recommends
        1 <= i < cps.len(),
{
    let lraw = lb_resolved(cps[i - 1], opts);
    let rraw = lb_resolved(cps[i], opts);
    let l = lb_eff(cps, i - 1, opts);
    if lraw == LB_BK {
        BreakDecision::Mandatory
    } else if lraw == LB_CR && rraw == LB_LF {
        BreakDecision::Prohibit
    } else if lraw == LB_CR || lraw == LB_LF || lraw == LB_NL {
        BreakDecision::Mandatory
    } else if rraw == LB_BK || rraw == LB_CR || rraw == LB_LF || rraw == LB_NL {
        BreakDecision::Prohibit
    } else if rraw == LB_SP || rraw == LB_ZW {
        BreakDecision::Prohibit
    } else if lb_zw_before(cps, i, opts) {
        BreakDecision::Allow
    } else if lraw == LB_ZWJ {
        BreakDecision::Prohibit
    } else if lb_transparent(rraw) && !(lraw == LB_SP || lraw == LB_ZW) {
        BreakDecision::Prohibit
    } else {
        let r = if lb_transparent(rraw) {
            LB_AL
        } else {
            rraw
        };
        if l == LB_WJ || r == LB_WJ {
            BreakDecision::Prohibit
        } else if l == LB_GL {
            BreakDecision::Prohibit
        } else if r == LB_GL && !(lraw == LB_SP || l == LB_BA || l == LB_HY) {
            BreakDecision::Prohibit
        } else if r == LB_CL || r == LB_CP || r == LB_EX || r == LB_IS || r == LB_SY {
            BreakDecision::Prohibit
        } else if lb_sp_ctx(cps, i, LB_OP, opts) {
            BreakDecision::Prohibit
        } else if r == LB_OP && lb_sp_ctx(cps, i, LB_QU, opts) {
            BreakDecision::Prohibit
        } else if r == LB_NS && (lb_sp_ctx(cps, i, LB_CL, opts) || lb_sp_ctx(cps, i, LB_CP, opts)) {
            BreakDecision::Prohibit
        } else if r == LB_B2 && lb_sp_ctx(cps, i, LB_B2, opts) {
            BreakDecision::Prohibit
        } else if lraw == LB_SP {
            BreakDecision::Allow
        } else if l == LB_QU || r == LB_QU {
            BreakDecision::Prohibit
        } else if l == LB_CB || r == LB_CB {
            BreakDecision::Allow
        } else if r == LB_BA || r == LB_HY || r == LB_NS || l == LB_BB {
            BreakDecision::Prohibit
        } else if (l == LB_HY || l == LB_BA) && lb_hl_hyphen_before(cps, i, opts) {
            BreakDecision::Prohibit
        } else if l == LB_SY && r == LB_HL {
            BreakDecision::Prohibit
        } else if r == LB_IN {
            BreakDecision::Prohibit
        } else if (l == LB_AL || l == LB_HL) && r == LB_NU {
            BreakDecision::Prohibit
        } else if l == LB_NU && (r == LB_AL || r == LB_HL) {
            BreakDecision::Prohibit
        } else if l == LB_PR && (r == LB_ID || r == LB_EB || r == LB_EM) {
            BreakDecision::Prohibit
        } else if (l == LB_ID || l == LB_EB || l == LB_EM) && r == LB_PO {
            BreakDecision::Prohibit
        } else if (l == LB_PR || l == LB_PO) && (r == LB_AL || r == LB_HL) {
            BreakDecision::Prohibit
        } else if (l == LB_AL || l == LB_HL) && (r == LB_PR || r == LB_PO) {
            BreakDecision::Prohibit
        } else if (l == LB_CL || l == LB_CP || l == LB_NU) && (r == LB_PO || r == LB_PR) {
            BreakDecision::Prohibit
        } else if (l == LB_PO || l == LB_PR) && (r == LB_OP || r == LB_NU) {
            BreakDecision::Prohibit
        } else if (l == LB_HY || l == LB_IS || l == LB_NU || l == LB_SY) && r == LB_NU {
            BreakDecision::Prohibit
        } else if l == LB_JL && (r == LB_JL || r == LB_JV || r == LB_H2 || r == LB_H3) {
            BreakDecision::Prohibit
        } else if (l == LB_JV || l == LB_H2) && (r == LB_JV || r == LB_JT) {
            BreakDecision::Prohibit
        } else if (l == LB_JT || l == LB_H3) && r == LB_JT {
            BreakDecision::Prohibit
        } else if (l == LB_JL || l == LB_JV || l == LB_JT || l == LB_H2 || l == LB_H3) && (r
            == LB_IN || r == LB_PO) {
            BreakDecision::Prohibit
        } else if l == LB_PR && (r == LB_JL || r == LB_JV || r == LB_JT || r == LB_H2 || r
            == LB_H3) {
            BreakDecision::Prohibit
        } else if (l == LB_AL || l == LB_HL) && (r == LB_AL || r == LB_HL) {
            BreakDecision::Prohibit
        } else if l == LB_IS && (r == LB_AL || r == LB_HL) {
            BreakDecision::Prohibit
        } else if (l == LB_AL || l == LB_HL || l == LB_NU) && r == LB_OP {
            BreakDecision::Prohibit
        } else if l == LB_CP && (r == LB_AL || r == LB_HL || r == LB_NU) {
            BreakDecision::Prohibit
        } else if l == LB_RI && r == LB_RI && lb_ri_run(cps, lb_prev_base(cps, i - 1, opts), opts)
            % 2 == 1 {
            BreakDecision::Prohibit
        } else if l == LB_EB && r == LB_EM {
            BreakDecision::Prohibit
        } else {
            BreakDecision::Allow
        }
    }
}

/// True when a line break opportunity (allowed or mandatory) falls between
/// `cps[i - 1]` and `cps[i]`.
pub open spec fn is_line_break(cps: Seq<u32>, i: int, opts: LineBreakOptions) -> bool
    recommends
        1 <= i < cps.len(),
{
    line_break_decision(cps, i, opts) != BreakDecision::Prohibit
}

/// Executable twin of [`lb_prev_base`]; `None` stands for `-1`.
fn lb_prev_base_at(cps: &Vec<u32>, j: usize, opts: LineBreakOptions) -> (r: Option<usize>)
    requires
        j < cps@.len(),
    ensures
        match r {
            Some(k) => lb_prev_base(cps@, j as int, opts) == k && k <= j,
            None => lb_prev_base(cps@, j as int, opts) == -1,
        },
    decreases j,
{
    let c = lb_resolved_of(cps[j], opts);
    if c == LB_CM || c == LB_ZWJ {
        if j == 0 {
            proof {
                assert(lb_prev_base(cps@, -1, opts) == -1);
            }
            None
        } else {
            lb_prev_base_at(cps, j - 1, opts)
        }
    } else {
        Some(j)
    }
}

/// Executable twin of [`lb_eff`].
fn lb_eff_at(cps: &Vec<u32>, j: usize, opts: LineBreakOptions) -> (c: u8)
    requires
        j < cps@.len(),
    ensures
        c == lb_eff(cps@, j as int, opts),
{
    let c = lb_resolved_of(cps[j], opts);
    if !(c == LB_CM || c == LB_ZWJ) {
        c
    } else if j == 0 {
        proof {
            assert(lb_prev_base(cps@, -1, opts) == -1);
        }
        LB_AL
    } else {
        let b = lb_prev_base_at(cps, j - 1, opts);
        match b {
            None => LB_AL,
            Some(k) => {
                let bc = lb_resolved_of(cps[k], opts);
                if bc == LB_BK || bc == LB_CR || bc == LB_LF || bc == LB_NL || bc == LB_SP || bc
                    == LB_ZW {
                    LB_AL
                } else {
                    bc
                }
            },
        }
    }
}

/// Executable twin of [`lb_skip_sp_back`]; `None` stands for `-1`.
fn lb_skip_sp_back_at(cps: &Vec<u32>, j: usize, opts: LineBreakOptions) -> (r: Option<usize>)
    requires
        j < cps@.len(),
    ensures
        match r {
            Some(k) => lb_skip_sp_back(cps@, j as int, opts) == k && k <= j && k < cps@.len(),
            None => lb_skip_sp_back(cps@, j as int, opts) == -1,
        },
    decreases j,
{
    if lb_resolved_of(cps[j], opts) == LB_SP {
        if j == 0 {
            proof {
                assert(lb_skip_sp_back(cps@, -1, opts) == -1);
            }
            None
        } else {
            lb_skip_sp_back_at(cps, j - 1, opts)
        }
    } else {
        Some(j)
    }
}

/// Executable twin of [`lb_sp_ctx`].
fn lb_sp_ctx_at(cps: &Vec<u32>, i: usize, cls: u8, opts: LineBreakOptions) -> (r: bool)
    requires
        1 <= i < cps@.len(),
    ensures
        r == lb_sp_ctx(cps@, i as int, cls, opts),
{
    let k = lb_skip_sp_back_at(cps, i - 1, opts);
    match k {
        None => false,
        Some(k) => lb_eff_at(cps, k, opts) == cls,
    }
}

/// Executable twin of the parity test on [`lb_ri_run`].
fn lb_ri_run_odd(cps: &Vec<u32>, j: usize, opts: LineBreakOptions) -> (odd: bool)
    requires
        j < cps@.len(),
    ensures
        odd == (lb_ri_run(cps@, j as int, opts) % 2 == 1),
    decreases j,
{
    if lb_resolved_of(cps[j], opts) == LB_RI {
        if j == 0 {
            proof {
                assert(lb_ri_run(cps@, lb_prev_base(cps@, -1, opts), opts) == 0);
            }
            true
        } else {
            let p = lb_prev_base_at(cps, j - 1, opts);
            match p {
                Some(k) => !lb_ri_run_odd(cps, k, opts),
                None => {
                    proof {
                        assert(lb_ri_run(cps@, -1, opts) == 0);
                    }
                    true
                },
            }
        }
    } else {
        false
    }
}

/// Executable twin of [`line_break_decision`].
pub fn line_break_decision_at(cps: &Vec<u32>, i: usize, opts: LineBreakOptions) -> (d:
    BreakDecision)
    requires
        1 <= i < cps@.len(),
    ensures
        d == line_break_decision(cps@, i as int, opts),
{
    let lraw = lb_resolved_of(cps[i - 1], opts);
    let rraw = lb_resolved_of(cps[i], opts);
    if lraw == LB_BK {
        BreakDecision::Mandatory
    } else if lraw == LB_CR && rraw == LB_LF {
        BreakDecision::Prohibit
    } else if lraw == LB_CR || lraw == LB_LF || lraw == LB_NL {
        BreakDecision::Mandatory
    } else if rraw == LB_BK || rraw == LB_CR || rraw == LB_LF || rraw == LB_NL {
        BreakDecision::Prohibit
    } else if rraw == LB_SP || rraw == LB_ZW {
        BreakDecision::Prohibit
    } else if {
        let k = lb_skip_sp_back_at(cps, i - 1, opts);
        match k {
            None => false,
            Some(k) => lb_resolved_of(cps[k], opts) == LB_ZW,
        }
    } {
        BreakDecision::Allow
    } else if lraw == LB_ZWJ {
        BreakDecision::Prohibit
    } else if (rraw == LB_CM || rraw == LB_ZWJ) && !(lraw == LB_SP || lraw == LB_ZW) {
        BreakDecision::Prohibit
    } else {
        let l = lb_eff_at(cps, i - 1, opts);
        let r = if rraw == LB_CM || rraw == LB_ZWJ {
            LB_AL
        } else {
            rraw
        };
        if l == LB_WJ || r == LB_WJ {
            BreakDecision::Prohibit
        } else if l == LB_GL {
            BreakDecision::Prohibit
        } else if r == LB_GL && !(lraw == LB_SP || l == LB_BA || l == LB_HY) {
            BreakDecision::Prohibit
        } else if r == LB_CL || r == LB_CP || r == LB_EX || r == LB_IS || r == LB_SY {
            BreakDecision::Prohibit
        } else if lb_sp_ctx_at(cps, i, LB_OP, opts) {
            BreakDecision::Prohibit
        } else if r == LB_OP && lb_sp_ctx_at(cps, i, LB_QU, opts) {
            BreakDecision::Prohibit
        } else if r == LB_NS && (lb_sp_ctx_at(cps, i, LB_CL, opts) || lb_sp_ctx_at(
            cps,
            i,
            LB_CP,
            opts,
        )) {
            BreakDecision::Prohibit
        } else if r == LB_B2 && lb_sp_ctx_at(cps, i, LB_B2, opts) {
            BreakDecision::Prohibit
        } else if lraw == LB_SP {
            BreakDecision::Allow
        } else if l == LB_QU || r == LB_QU {
            BreakDecision::Prohibit
        } else if l == LB_CB || r == LB_CB {
            BreakDecision::Allow
        } else if r == LB_BA || r == LB_HY || r == LB_NS || l == LB_BB {
            BreakDecision::Prohibit
        } else if (l == LB_HY || l == LB_BA) && {
            let b = lb_prev_base_at(cps, i - 1, opts);
            match b {
                Some(bk) => {
                    if bk >= 1 {
                        let p = lb_prev_base_at(cps, bk - 1, opts);
                        match p {
                            Some(pk) => lb_resolved_of(cps[pk], opts) == LB_HL,
                            None => false,
                        }
                    } else {
                        proof {
                            assert(lb_prev_base(cps@, -1, opts) == -1);
                        }
                        false
                    }
                },
                None => false,
            }
        } {
            BreakDecision::Prohibit
        } else if l == LB_SY && r == LB_HL {
            BreakDecision::Prohibit
        } else if r == LB_IN {
            BreakDecision::Prohibit
        } else if (l == LB_AL || l == LB_HL) && r == LB_NU {
            BreakDecision::Prohibit
        } else if l == LB_NU && (r == LB_AL || r == LB_HL) {
            BreakDecision::Prohibit
        } else if l == LB_PR && (r == LB_ID || r == LB_EB || r == LB_EM) {
            BreakDecision::Prohibit
        } else if (l == LB_ID || l == LB_EB || l == LB_EM) && r == LB_PO {
            BreakDecision::Prohibit
        } else if (l == LB_PR || l == LB_PO) && (r == LB_AL || r == LB_HL) {
            BreakDecision::Prohibit
        } else if (l == LB_AL || l == LB_HL) && (r == LB_PR || r == LB_PO) {
            BreakDecision::Prohibit
        } else if (l == LB_CL || l == LB_CP || l == LB_NU) && (r == LB_PO || r == LB_PR) {
            BreakDecision::Prohibit
        } else if (l == LB_PO || l == LB_PR) && (r == LB_OP || r == LB_NU) {
            BreakDecision::Prohibit
        } else if (l == LB_HY || l == LB_IS || l == LB_NU || l == LB_SY) && r == LB_NU {
            BreakDecision::Prohibit
        } else if l == LB_JL && (r == LB_JL || r == LB_JV || r == LB_H2 || r == LB_H3) {
            BreakDecision::Prohibit
        } else if (l == LB_JV || l == LB_H2) && (r == LB_JV || r == LB_JT) {
            BreakDecision::Prohibit
        } else if (l == LB_JT || l == LB_H3) && r == LB_JT {
            BreakDecision::Prohibit
        } else if (l == LB_JL || l == LB_JV || l == LB_JT || l == LB_H2 || l == LB_H3) && (r
            == LB_IN || r == LB_PO) {
            BreakDecision::Prohibit
        } else if l == LB_PR && (r == LB_JL || r == LB_JV || r == LB_JT || r == LB_H2 || r
            == LB_H3) {
            BreakDecision::Prohibit
        } else if (l == LB_AL || l == LB_HL) && (r == LB_AL || r == LB_HL) {
            BreakDecision::Prohibit
        } else if l == LB_IS && (r == LB_AL || r == LB_HL) {
            BreakDecision::Prohibit
        } else if (l == LB_AL || l == LB_HL || l == LB_NU) && r == LB_OP {
            BreakDecision::Prohibit
        } else if l == LB_CP && (r == LB_AL || r == LB_HL || r == LB_NU) {
            BreakDecision::Prohibit
        } else if l == LB_RI && r == LB_RI && {
            let b = lb_prev_base_at(cps, i - 1, opts);
            match b {
                Some(bk) => lb_ri_run_odd(cps, bk, opts),
                None => {
                    proof {
                        assert(lb_ri_run(cps@, -1, opts) == 0);
                    }
                    false
                },
            }
        } {
            BreakDecision::Prohibit
        } else if l == LB_EB && r == LB_EM {
            BreakDecision::Prohibit
        } else {
            BreakDecision::Allow
        }
    }
}

/// Executable twin of [`is_line_break`].
pub fn line_break_at(cps: &Vec<u32>, i: usize, opts: LineBreakOptions) -> (b: bool)
    requires
        1 <= i < cps@.len(),
    ensures
        b == is_line_break(cps@, i as int, opts),
{
    let d = line_break_decision_at(cps, i, opts);
    !(d == BreakDecision::Prohibit)
}

} // verus!
