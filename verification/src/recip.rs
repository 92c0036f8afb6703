//! The reciprocal lookup table.
//!
//! The prior-weighted policy multiplies every per-edge score by the
//! reciprocal of the edge's visit count, and avoids a division on that hot
//! path by precomputing the reciprocals of all counts below 128 once at
//! construction.  The reciprocals are real numbers and are produced by the
//! caller; this module stores them as opaque words and verifies the access
//! discipline: the table always holds exactly 128 entries, a count below
//! 128 hits its own entry, and a larger count misses, telling the caller to
//! divide directly.

use vstd::prelude::*;

verus! {

pub const RECIPROCAL_TABLE_LEN: usize = 128;

/// A fixed table of 128 precomputed reciprocal values, immutable after
/// construction and safe to share across worker threads.
pub struct ReciprocalTable {
    entries: Vec<u64>,
}

impl View for ReciprocalTable {
    type V = Seq<u64>;

    closed spec fn view(&self) -> Seq<u64> {
        self.entries@
    }
}

impl ReciprocalTable {
    /// The table holds one entry per visit count below the table length.
    pub closed spec fn wf(&self) -> bool {
        self.entries@.len() == RECIPROCAL_TABLE_LEN
    }

    /// Accepts the precomputed entries, one per count in `0..128`, and
    /// nothing else: a batch of any other size is refused.
    pub fn new(entries: Vec<u64>) -> (r: Option<ReciprocalTable>)
        ensures
            r is Some <==> entries@.len() == RECIPROCAL_TABLE_LEN,
            r matches Some(t) ==> t.wf() && t@ == entries@,
    {
        if entries.len() == RECIPROCAL_TABLE_LEN {
            Some(ReciprocalTable { entries })
        } else {
            None
        }
    }

    /// The entry for visit count `x`, or `None` for a count at or beyond
    /// the table length, for which the caller divides directly.  The index
    /// is proved in bounds; no run-time check is left in the lookup path
    /// beyond the one comparison.
    pub fn lookup(&self, x: u64) -> (r: Option<u64>)
        requires
            self.wf(),
        ensures
            x < RECIPROCAL_TABLE_LEN ==> r == Some(self@[x as int]),
            x >= RECIPROCAL_TABLE_LEN ==> r is None,
    {
        if x < RECIPROCAL_TABLE_LEN as u64 {
            Some(self.entries[x as usize])
        } else {
            None
        }
    }
}

} // verus!
