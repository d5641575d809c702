//! Loading property tables from versioned binary payloads.
//!
//! The built-in algorithms carry their tables compiled in; this module is
//! the interface through which a pre-built table payload from a data
//! provider is validated and turned into a usable range table. A payload
//! is laid out as:
//!
//! - byte 0: format version, which must be `1`;
//! - byte 1: algorithm identifier the table was built for;
//! - byte 2: the default class for unmapped code points;
//! - byte 3: `n`, the number of ranges;
//! - then `n` nine-byte records: range start and range end as
//!   little-endian 32-bit values, then the range's class.
//!
//! Ranges must be well ordered: each start at most its end, and each range
//! strictly before the next. A malformed payload fails construction with
//! `InvalidData` and a payload built for another algorithm with
//! `MissingData`; a constructed table never fails afterwards, since lookup
//! is total over the whole code point domain.

use vstd::prelude::*;

use crate::options::LineBreakOptions;
use crate::options::LineBreakRule;
use crate::options::SegmenterError;
use crate::options::WordBreakRule;
use crate::property::LB_CJ;
use crate::property::LB_ID;

verus! {

/// The payload format version this module reads.
pub const PAYLOAD_VERSION: u8 = 1;

/// Start of record `k`, read little endian.
pub open spec fn rec_start(blob: Seq<u8>, k: int) -> u32
    recommends
        0 <= k,
        4 + 9 * k + 9 <= blob.len(),
{
    ((blob[4 + 9 * k] as int) + (blob[5 + 9 * k] as int) * 0x100 + (blob[6 + 9 * k] as int)
        * 0x10000 + (blob[7 + 9 * k] as int) * 0x1000000) as u32
}

/// End of record `k`, read little endian.
pub open spec fn rec_end(blob: Seq<u8>, k: int) -> u32
    recommends
        0 <= k,
        4 + 9 * k + 9 <= blob.len(),
{
    ((blob[8 + 9 * k] as int) + (blob[9 + 9 * k] as int) * 0x100 + (blob[10 + 9 * k] as int)
        * 0x10000 + (blob[11 + 9 * k] as int) * 0x1000000) as u32
}

/// Class of record `k`.
pub open spec fn rec_class(blob: Seq<u8>, k: int) -> u8
    recommends
        0 <= k,
        4 + 9 * k + 9 <= blob.len(),
{
    blob[12 + 9 * k]
}

/// True when the payload announces the right version and its length fits
/// its own record count.
pub open spec fn payload_shape_ok(blob: Seq<u8>) -> bool {
    &&& blob.len() >= 4
    &&& blob[0] == PAYLOAD_VERSION
    &&& blob.len() == 4 + 9 * (blob[3] as int)
}

/// True when every record is a nonempty range and the ranges are strictly
/// ordered and disjoint.
pub open spec fn payload_ranges_ok(blob: Seq<u8>) -> bool {
    &&& (forall|k: int|
        0 <= k < blob[3] as int ==> #[trigger] rec_start(blob, k) <= rec_end(blob, k))
    &&& (forall|k: int|
        0 <= k && k + 1 < blob[3] as int ==> #[trigger] rec_end(blob, k) < rec_start(blob, k + 1))
}

/// True when the payload is a well-formed table for algorithm `algo`.
pub open spec fn payload_wf(blob: Seq<u8>, algo: u8) -> bool {
    &&& payload_shape_ok(blob)
    &&& blob[1] == algo
    &&& payload_ranges_ok(blob)
}

/// The construction error a payload earns: a payload of the wrong shape
/// is invalid data; a well-shaped payload for another algorithm is
/// missing data; a well-shaped, rightly addressed payload with bad ranges
/// is again invalid data.
pub open spec fn payload_error(blob: Seq<u8>, algo: u8) -> SegmenterError
    recommends
        !payload_wf(blob, algo),
{
    if !payload_shape_ok(blob) {
        SegmenterError::InvalidData
    } else if blob[1] != algo {
        SegmenterError::MissingData
    } else {
        SegmenterError::InvalidData
    }
}

/// An immutable range-based lookup table from code point to break class.
/// Lookups are total: a code point outside every range gets the default
/// class, never an error.
pub struct PropertyTable {
    starts: Vec<u32>,
    ends: Vec<u32>,
    classes: Vec<u8>,
    default_class: u8,
}

impl PropertyTable {
    /// The range starts.
    pub closed spec fn starts_spec(&self) -> Seq<u32> {
        self.starts@
    }

    /// The range ends.
    pub closed spec fn ends_spec(&self) -> Seq<u32> {
        self.ends@
    }

    /// The range classes.
    pub closed spec fn classes_spec(&self) -> Seq<u8> {
        self.classes@
    }

    /// The class of unmapped code points.
    pub closed spec fn default_spec(&self) -> u8 {
        self.default_class
    }

    /// Internal consistency: one class per range, ranges nonempty,
    /// strictly ordered and pairwise disjoint.
    pub closed spec fn wf(&self) -> bool {
        &&& self.starts@.len() == self.ends@.len()
        &&& self.starts@.len() == self.classes@.len()
        &&& (forall|k: int|
            0 <= k < self.starts@.len() ==> #[trigger] self.starts@[k] <= self.ends@[k])
        &&& (forall|k1: int, k2: int|
            0 <= k1 < k2 < self.starts@.len() ==> #[trigger] self.ends@[k1]
                < #[trigger] self.starts@[k2])
    }

    /// Builds a table from a versioned payload addressed to algorithm
    /// `algo`. Succeeds exactly on well-formed payloads for that
    /// algorithm; a malformed payload is `InvalidData`, one addressed to
    /// another algorithm `MissingData`.
    #[verifier::rlimit(100)]
    pub fn try_from_payload(blob: &[u8], algo: u8) -> (r: Result<PropertyTable, SegmenterError>)
        ensures
            payload_wf(blob@, algo) <==> r is Ok,
            match r {
                Ok(t) => {
                    &&& t.wf()
                    &&& t.starts_spec().len() == blob@[3] as int
                    &&& (forall|k: int|
                        0 <= k < blob@[3] as int ==> #[trigger] t.starts_spec()[k] == rec_start(
                            blob@,
                            k,
                        ) && t.ends_spec()[k] == rec_end(blob@, k) && t.classes_spec()[k]
                            == rec_class(blob@, k))
                    &&& t.default_spec() == blob@[2]
                },
                Err(e) => e == payload_error(blob@, algo),
            },
    {
        if blob.len() < 4 {
            return Err(SegmenterError::InvalidData);
        }
        if blob[0] != PAYLOAD_VERSION {
            return Err(SegmenterError::InvalidData);
        }
        let n = blob[3] as usize;
        if blob.len() != 4 + 9 * n {
            return Err(SegmenterError::InvalidData);
        }
        if blob[1] != algo {
            return Err(SegmenterError::MissingData);
        }
        let mut starts: Vec<u32> = Vec::new();
        let mut ends: Vec<u32> = Vec::new();
        let mut classes: Vec<u8> = Vec::new();
        let mut k: usize = 0;
        while k < n
            invariant
                n == blob@[3] as int,
                blob@.len() == 4 + 9 * n,
                blob@[0] == PAYLOAD_VERSION,
                blob@[1] == algo,
                k <= n,
                starts@.len() == k,
                ends@.len() == k,
                classes@.len() == k,
                forall|j: int| 0 <= j < k ==> #[trigger] starts@[j] == rec_start(blob@, j),
                forall|j: int| 0 <= j < k ==> #[trigger] ends@[j] == rec_end(blob@, j),
                forall|j: int| 0 <= j < k ==> #[trigger] classes@[j] == rec_class(blob@, j),
                forall|j: int| 0 <= j < k ==> #[trigger] starts@[j] <= ends@[j],
                forall|j: int| 0 <= j && j + 1 < k ==> #[trigger] ends@[j] < starts@[j + 1],
            decreases n - k,
        {
            let p = 4 + 9 * k;
            let start: u32 = blob[p] as u32 + (blob[p + 1] as u32) * 0x100 + (blob[p + 2] as u32)
                * 0x10000 + (blob[p + 3] as u32) * 0x1000000;
            let end: u32 = blob[p + 4] as u32 + (blob[p + 5] as u32) * 0x100 + (blob[p
                + 6] as u32) * 0x10000 + (blob[p + 7] as u32) * 0x1000000;
            let class = blob[p + 8];
            proof {
                assert(rec_start(blob@, k as int) == start);
                assert(rec_end(blob@, k as int) == end);
            }
            if start > end {
                proof {
                    assert(!payload_ranges_ok(blob@));
                }
                return Err(SegmenterError::InvalidData);
            }
            if k > 0 && ends[k - 1] >= start {
                proof {
                    assert(ends@[k - 1] == rec_end(blob@, k as int - 1));
                    assert(!(rec_end(blob@, k as int - 1) < rec_start(blob@, (k as int - 1) + 1)));
                    assert(!payload_ranges_ok(blob@));
                }
                return Err(SegmenterError::InvalidData);
            }
            starts.push(start);
            ends.push(end);
            classes.push(class);
            k = k + 1;
        }
        proof {
            lemma_ranges_transitive(starts@, ends@);
            assert forall|j: int| 0 <= j < blob@[3] as int implies #[trigger] rec_start(blob@, j)
                <= rec_end(blob@, j) by {
                assert(starts@[j] == rec_start(blob@, j));
                assert(ends@[j] == rec_end(blob@, j));
            }
            assert forall|j: int| 0 <= j && j + 1 < blob@[3] as int implies #[trigger] rec_end(
                blob@,
                j,
            ) < rec_start(blob@, j + 1) by {
                assert(ends@[j] == rec_end(blob@, j));
                assert(starts@[j + 1] == rec_start(blob@, j + 1));
                assert(ends@[j] < starts@[j + 1]);
            }
            assert(payload_ranges_ok(blob@));
        }
        let t = PropertyTable { starts, ends, classes, default_class: blob[2] };
        Ok(t)
    }

    /// The break class of a code point: the class of the range containing
    /// it, or the default class when no range does. Total over the whole
    /// code point domain; lookups never fail.
    pub fn classify(&self, cp: u32) -> (c: u8)
        requires
            self.wf(),
        ensures
            forall|k: int|
                0 <= k < self.starts_spec().len() && self.starts_spec()[k] <= cp
                    <= self.ends_spec()[k] ==> c == #[trigger] self.classes_spec()[k],
            (forall|k: int|
                0 <= k < self.starts_spec().len() ==> !(#[trigger] self.starts_spec()[k] <= cp
                    <= self.ends_spec()[k])) ==> c == self.default_spec(),
    {
        let n = self.starts.len();
        let mut j: usize = 0;
        while j < n
            invariant
                self.wf(),
                n == self.starts@.len(),
                j <= n,
                forall|k: int|
                    0 <= k < j ==> !(#[trigger] self.starts@[k] <= cp <= self.ends@[k]),
            decreases n - j,
        {
            if self.starts[j] <= cp && cp <= self.ends[j] {
                proof {
                    assert(self.starts_spec()[j as int] <= cp <= self.ends_spec()[j as int]);
                    assert forall|k: int|
                        0 <= k < self.starts@.len() && self.starts@[k] <= cp
                            <= self.ends@[k] implies #[trigger] self.classes@[k] == self.classes@[j
                        as int] by {
                        if k > j {
                            assert(self.ends@[j as int] < self.starts@[k]);
                        }
                    }
                }
                return self.classes[j];
            }
            j = j + 1;
        }
        self.default_class
    }

    /// The number of ranges the table holds.
    pub fn range_count(&self) -> (n: usize)
        ensures
            n == self.starts_spec().len(),
    {
        self.starts.len()
    }
}

/// Strictly ordered adjacent ranges are strictly ordered globally.
proof fn lemma_ranges_transitive(starts: Seq<u32>, ends: Seq<u32>)
    requires
        starts.len() == ends.len(),
        forall|k: int| 0 <= k < starts.len() ==> #[trigger] starts[k] <= ends[k],
        forall|k: int| 0 <= k && k + 1 < starts.len() ==> #[trigger] ends[k] < starts[k + 1],
    ensures
        forall|k1: int, k2: int|
            0 <= k1 < k2 < starts.len() ==> #[trigger] ends[k1] < #[trigger] starts[k2],
{
    assert forall|k1: int, k2: int| 0 <= k1 < k2 < starts.len() implies #[trigger] ends[k1]
        < #[trigger] starts[k2] by {
        lemma_ranges_step(starts, ends, k1, k2);
    }
}

/// One chain of the global ordering, by induction on the gap.
proof fn lemma_ranges_step(starts: Seq<u32>, ends: Seq<u32>, k1: int, k2: int)
    requires
        starts.len() == ends.len(),
        forall|k: int| 0 <= k < starts.len() ==> #[trigger] starts[k] <= ends[k],
        forall|k: int| 0 <= k && k + 1 < starts.len() ==> #[trigger] ends[k] < starts[k + 1],
        0 <= k1 < k2 < starts.len(),
    ensures
        ends[k1] < starts[k2],
    decreases k2 - k1,
{
    if k1 + 1 < k2 {
        lemma_ranges_step(starts, ends, k1, k2 - 1);
        assert(ends[k2 - 1] < starts[k2]);
    }
}

/// Checks that a loaded line-break table encodes what the requested
/// options need: a profile other than the normal one needs the table to
/// distinguish conditional starters, and a word-break override needs it
/// to mark ideographic ranges. Succeeds exactly when both hold; anything
/// else is the unsupported-options error.
pub fn check_line_options(table: &PropertyTable, options: LineBreakOptions) -> (r: Result<
    (),
    SegmenterError,
>)
    requires
        table.wf(),
    ensures
        r is Ok <==> ((options.line_break_rule == LineBreakRule::Normal || (exists|k: int|
            0 <= k < table.classes_spec().len() && #[trigger] table.classes_spec()[k] == LB_CJ))
            && (options.word_break_rule == WordBreakRule::Normal || (exists|k: int|
            0 <= k < table.classes_spec().len() && #[trigger] table.classes_spec()[k] == LB_ID))),
        r is Err ==> r == Err::<(), SegmenterError>(SegmenterError::UnsupportedOption),
{
    let needs_cj = !(options.line_break_rule == LineBreakRule::Normal);
    let needs_id = !(options.word_break_rule == WordBreakRule::Normal);
    if needs_cj && !table_has_class(table, LB_CJ) {
        return Err(SegmenterError::UnsupportedOption);
    }
    if needs_id && !table_has_class(table, LB_ID) {
        return Err(SegmenterError::UnsupportedOption);
    }
    Ok(())
}

/// True when some range of the table bears class `c`.
fn table_has_class(table: &PropertyTable, c: u8) -> (r: bool)
    requires
        table.wf(),
    ensures
        r == (exists|k: int|
            0 <= k < table.classes_spec().len() && #[trigger] table.classes_spec()[k] == c),
{
    let n = table.range_count();
    proof {
        assert(table.classes_spec().len() == table.starts_spec().len());
    }
    let mut j: usize = 0;
    while j < n
        invariant
            n == table.classes_spec().len(),
            j <= n,
            forall|k: int| 0 <= k < j ==> #[trigger] table.classes_spec()[k] != c,
        decreases n - j,
    {
        if table.class_at(j) == c {
            return true;
        }
        j = j + 1;
    }
    false
}

impl PropertyTable {
    /// The class of range `j`.
    pub fn class_at(&self, j: usize) -> (c: u8)
        requires
            j < self.classes_spec().len(),
        ensures
            c == self.classes_spec()[j as int],
    {
        self.classes[j]
    }
}

} // verus!
