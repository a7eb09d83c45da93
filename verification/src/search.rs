//! Index search: binary searches over an in-memory picture of the index
//! stream, by instant or by retained size, for the nearest preceding seek
//! point and its own byte offset in the index stream.

use vstd::prelude::*;
use crate::index::{IndexRecord, INDEX_RECORD_SIZE};

verus! {

/// The one way a search can come back empty: no index record qualifies.
/// Callers treat it as "do nothing this cycle", not as an error.
#[derive(Clone, Copy, Debug, PartialEq, Eq)]
pub enum SearchError {
    NotFound,
}

/// A contiguous stretch of the index stream, read into memory: the records
/// in append order, and the byte offset in the index stream at which the
/// first of them begins.
pub struct IndexSnapshot {
    /// Byte offset, in the index stream, of `records[0]`.
    pub base_offset: u64,
    /// The index records, in append order.
    pub records: Vec<IndexRecord>,
}

impl IndexSnapshot {
    /// The index stream's own invariant: instants are non-decreasing, data
    /// offsets are non-decreasing, and every record's byte offset fits the
    /// stream.
    pub open spec fn wf(self) -> bool {
        &&& forall|i: int, j: int|
            0 <= i <= j < self.records@.len() ==> #[trigger] self.records@[i].timestamp
                <= #[trigger] self.records@[j].timestamp
        &&& forall|i: int, j: int|
            0 <= i <= j < self.records@.len() ==> #[trigger] self.records@[i].offset
                <= #[trigger] self.records@[j].offset
        &&& self.base_offset + INDEX_RECORD_SIZE * self.records@.len() <= u64::MAX
    }

    /// The byte offset, in the index stream, of record `i`.
    pub open spec fn spec_record_offset(self, i: int) -> int {
        self.base_offset + INDEX_RECORD_SIZE * i
    }

    /// Takes records read back from the index stream into a snapshot,
    /// checking the index stream's invariant on the way: fails exactly
    /// when the instants or the offsets decrease somewhere, or the stretch
    /// would not fit the offset domain.
    pub fn new_checked(base_offset: u64, records: Vec<IndexRecord>) -> (r: Option<IndexSnapshot>)
        ensures
            match r {
                Some(s) => {
                    &&& s.wf()
                    &&& s.base_offset == base_offset
                    &&& s.records@ == records@
                },
                None => !(IndexSnapshot { base_offset, records }).wf(),
            },
    {
        match (records.len() as u64).checked_mul(INDEX_RECORD_SIZE) {
            Some(stretch) => {
                if stretch > u64::MAX - base_offset {
                    return None;
                }
            },
            None => {
                return None;
            },
        }
        let mut i: usize = 1;
        while i < records.len()
            invariant
                1 <= i,
                records@.len() > 0 ==> i <= records@.len(),
                forall|p: int, q: int|
                    0 <= p <= q < i && q < records@.len() ==> (#[trigger] records@[p]).timestamp
                        <= (#[trigger] records@[q]).timestamp,
                forall|p: int, q: int|
                    0 <= p <= q < i && q < records@.len() ==> (#[trigger] records@[p]).offset
                        <= (#[trigger] records@[q]).offset,
            decreases records@.len() - i,
        {
            if records[i - 1].timestamp > records[i].timestamp {
                return None;
            }
            if records[i - 1].offset > records[i].offset {
                return None;
            }
            i = i + 1;
        }
        Some(IndexSnapshot { base_offset, records })
    }

    /// Searches for the last index record whose instant is at or before
    /// `target`, returning it together with its byte offset in the index
    /// stream; fails with `NotFound` exactly when every record is newer
    /// than `target`.
    pub fn search_by_instant(&self, target: u64) -> (r: Result<(IndexRecord, u64), SearchError>)
        requires
            self.wf(),
        ensures
            match r {
                Ok((rec, off)) => exists|i: int|
                    {
                        &&& 0 <= i < self.records@.len()
                        &&& rec == self.records@[i]
                        &&& #[trigger] self.records@[i].timestamp <= target
                        &&& forall|j: int|
                            i < j < self.records@.len() ==> #[trigger] self.records@[j].timestamp
                                > target
                        &&& off == self.spec_record_offset(i)
                    },
                Err(e) => e == SearchError::NotFound && forall|j: int|
                    0 <= j < self.records@.len() ==> #[trigger] self.records@[j].timestamp
                        > target,
            },
    {
        let mut lo: usize = 0;
        let mut hi: usize = self.records.len();
        while lo < hi
            invariant
                self.wf(),
                lo <= hi <= self.records@.len(),
                forall|j: int| 0 <= j < lo ==> #[trigger] self.records@[j].timestamp <= target,
                forall|j: int|
                    hi <= j < self.records@.len() ==> #[trigger] self.records@[j].timestamp
                        > target,
            decreases hi - lo,
        {
            let mid = lo + (hi - lo) / 2;
            if self.records[mid].timestamp <= target {
                lo = mid + 1;
            } else {
                hi = mid;
            }
        }
        if lo == 0 {
            Err(SearchError::NotFound)
        } else {
            let i = lo - 1;
            let rec = self.records[i];
            let off = self.base_offset + INDEX_RECORD_SIZE * (i as u64);
            proof {
                assert(0 <= i < self.records@.len());
                assert(rec == self.records@[i as int] && self.records@[i as int].timestamp
                    <= target && off == self.spec_record_offset(i as int));
            }
            Ok((rec, off))
        }
    }

    /// Searches for the deepest index record still within the retained-size
    /// budget: the first record whose distance from the data stream's tail
    /// is at most `budget` bytes.  Fails with `NotFound` exactly when even
    /// the newest record lies further from the tail than the budget.
    pub fn search_by_cumulative_size(&self, data_tail: u64, budget: u64) -> (r: Result<
        (IndexRecord, u64),
        SearchError,
    >)
        requires
            self.wf(),
            forall|j: int|
                0 <= j < self.records@.len() ==> #[trigger] self.records@[j].offset <= data_tail,
        ensures
            match r {
                Ok((rec, off)) => exists|i: int|
                    {
                        &&& 0 <= i < self.records@.len()
                        &&& rec == self.records@[i]
                        &&& data_tail - #[trigger] self.records@[i].offset <= budget
                        &&& forall|j: int|
                            0 <= j < i ==> data_tail - #[trigger] self.records@[j].offset > budget
                        &&& off == self.spec_record_offset(i)
                    },
                Err(e) => e == SearchError::NotFound && forall|j: int|
                    0 <= j < self.records@.len() ==> data_tail - #[trigger] self.records@[j].offset
                        > budget,
            },
    {
        // A record is within budget exactly when its data offset is at or
        // past the tail minus the budget.
        let bound: u64 = if data_tail > budget {
            data_tail - budget
        } else {
            0
        };
        let mut lo: usize = 0;
        let mut hi: usize = self.records.len();
        while lo < hi
            invariant
                self.wf(),
                lo <= hi <= self.records@.len(),
                bound == if data_tail > budget {
                    data_tail - budget
                } else {
                    0
                },
                forall|j: int| 0 <= j < lo ==> #[trigger] self.records@[j].offset < bound,
                forall|j: int|
                    hi <= j < self.records@.len() ==> #[trigger] self.records@[j].offset >= bound,
            decreases hi - lo,
        {
            let mid = lo + (hi - lo) / 2;
            if self.records[mid].offset < bound {
                lo = mid + 1;
            } else {
                hi = mid;
            }
        }
        if lo == self.records.len() {
            Err(SearchError::NotFound)
        } else {
            let rec = self.records[lo];
            let off = self.base_offset + INDEX_RECORD_SIZE * (lo as u64);
            proof {
                assert(0 <= lo < self.records@.len());
                assert(rec == self.records@[lo as int] && data_tail - self.records@[lo as int].offset
                    <= budget && off == self.spec_record_offset(lo as int));
            }
            Ok((rec, off))
        }
    }
}

} // verus!
