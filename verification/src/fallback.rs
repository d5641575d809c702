//! The statistical fallback segmenter's interface.
//!
//! For scripts without explicit word separators, a sequence model can
//! propose additional line break positions inside runs the pair table
//! cannot segment. No model is built into this crate, so both entry points
//! degrade to pass-through: they return `None`, and callers fall back to
//! rule-table-only results. The contracts record that degradation, so every
//! caller is verified against exactly the no-model behaviour.

use vstd::prelude::*;

verus! {

/// Proposes model-derived line break positions for a UTF-8 run. Without a
/// model this is always `None`: no additional boundaries.
pub fn get_line_break_utf8(_input: &str) -> (r: Option<Vec<usize>>)
    ensures
        r is None,
{
    None
}

/// Proposes model-derived line break positions for a UTF-16 run. Without a
/// model this is always `None`: no additional boundaries.
pub fn get_line_break_utf16(_input: &[u16]) -> (r: Option<Vec<usize>>)
    ensures
        r is None,
{
    None
}

} // verus!
