//! The retention maintainer's decisions: which retention boundaries a
//! configured policy asks for, where the index says they fall, and the
//! truncation of both streams at those points.  The unverified adapter
//! only schedules the periodic cycle and mirrors the truncations onto the
//! storage service.

use vstd::prelude::*;
use crate::config::ConfigError;
use crate::index::INDEX_RECORD_SIZE;
use crate::search::{IndexSnapshot, SearchError};
use crate::timestamp::NANOSECONDS_PER_SECOND;
use crate::writer::StreamWriter;

verus! {

/// Which retention boundaries the maintainer enforces.
#[derive(Clone, Copy, Debug, PartialEq, Eq)]
pub enum RetentionType {
    /// Nothing is ever deleted.
    Disabled,
    /// Data older than the configured age is deleted.
    Days,
    /// The oldest data is deleted once the stream exceeds the configured
    /// size.
    Bytes,
    /// Both boundaries are enforced, each on its own.
    DaysAndBytes,
}

/// The retention policy a session runs under, with the age carried in
/// whole seconds and the size in bytes.  Immutable once the session
/// starts.
#[derive(Clone, Copy, Debug, PartialEq, Eq)]
pub enum RetentionPolicy {
    /// Delete data older than this many seconds.
    Days(u64),
    /// Delete the oldest data beyond this many bytes.
    Bytes(u64),
    /// Both boundaries, each applied independently every cycle.
    DaysAndBytes(u64, u64),
    /// Nothing is ever deleted; the maintainer does not run.
    Disabled,
}

/// The policy a retention type and its parameters define, or the
/// configuration error when a needed parameter is missing.
pub open spec fn spec_retention_policy(
    retention_type: RetentionType,
    age_seconds: Option<u64>,
    bytes: Option<u64>,
) -> Result<RetentionPolicy, ConfigError> {
    match retention_type {
        RetentionType::Days => match age_seconds {
            Some(s) => Ok(RetentionPolicy::Days(s)),
            None => Err(ConfigError::RetentionDaysNotSet),
        },
        RetentionType::Bytes => match bytes {
            Some(b) => Ok(RetentionPolicy::Bytes(b)),
            None => Err(ConfigError::RetentionBytesNotSet),
        },
        RetentionType::DaysAndBytes => match (age_seconds, bytes) {
            (Some(s), Some(b)) => Ok(RetentionPolicy::DaysAndBytes(s, b)),
            (None, _) => Err(ConfigError::RetentionDaysNotSet),
            (Some(_), None) => Err(ConfigError::RetentionBytesNotSet),
        },
        RetentionType::Disabled => Ok(RetentionPolicy::Disabled),
    }
}

impl RetentionPolicy {
    /// Builds the policy from the configured type and parameters.  A type
    /// that needs a parameter the configuration lacks is a fatal
    /// configuration error.
    pub fn new(retention_type: RetentionType, age_seconds: Option<u64>, bytes: Option<u64>) -> (r:
        Result<Self, ConfigError>)
        ensures
            r == spec_retention_policy(retention_type, age_seconds, bytes),
    {
        match retention_type {
            RetentionType::Days => match age_seconds {
                Some(s) => Ok(RetentionPolicy::Days(s)),
                None => Err(ConfigError::RetentionDaysNotSet),
            },
            RetentionType::Bytes => match bytes {
                Some(b) => Ok(RetentionPolicy::Bytes(b)),
                None => Err(ConfigError::RetentionBytesNotSet),
            },
            RetentionType::DaysAndBytes => match (age_seconds, bytes) {
                (Some(s), Some(b)) => Ok(RetentionPolicy::DaysAndBytes(s, b)),
                (None, _) => Err(ConfigError::RetentionDaysNotSet),
                (Some(_), None) => Err(ConfigError::RetentionBytesNotSet),
            },
            RetentionType::Disabled => Ok(RetentionPolicy::Disabled),
        }
    }

    /// The age boundary the policy asks for, in seconds, if any.
    pub open spec fn spec_age_seconds(self) -> Option<u64> {
        match self {
            RetentionPolicy::Days(s) => Some(s),
            RetentionPolicy::DaysAndBytes(s, _) => Some(s),
            _ => None,
        }
    }

    /// The size boundary the policy asks for, in bytes, if any.
    pub open spec fn spec_size_bytes(self) -> Option<u64> {
        match self {
            RetentionPolicy::Bytes(b) => Some(b),
            RetentionPolicy::DaysAndBytes(_, b) => Some(b),
            _ => None,
        }
    }

    /// The age boundary the policy asks for, in seconds, if any.
    pub fn age_seconds(&self) -> (r: Option<u64>)
        ensures
            r == self.spec_age_seconds(),
    {
        match *self {
            RetentionPolicy::Days(s) => Some(s),
            RetentionPolicy::DaysAndBytes(s, _) => Some(s),
            _ => None,
        }
    }

    /// The size boundary the policy asks for, in bytes, if any.
    pub fn size_bytes(&self) -> (r: Option<u64>)
        ensures
            r == self.spec_size_bytes(),
    {
        match *self {
            RetentionPolicy::Bytes(b) => Some(b),
            RetentionPolicy::DaysAndBytes(_, b) => Some(b),
            _ => None,
        }
    }
}

/// One truncation: the byte offset to cut the index stream before, and the
/// byte offset to cut the data stream before.  The index is cut no later
/// than the data, so a reader is never handed an index pointer into
/// already-truncated data.
#[derive(Clone, Copy, Debug, PartialEq, Eq)]
pub struct TruncationPoint {
    /// Cut the index stream before this offset.
    pub index_offset: u64,
    /// Cut the data stream before this offset.
    pub data_offset: u64,
}

/// The age boundary as an instant: the current time minus the retention
/// window, clamped at the epoch when the window reaches further back than
/// the domain.
pub open spec fn spec_age_target(now: u64, age_seconds: u64) -> u64 {
    if now > age_seconds * NANOSECONDS_PER_SECOND {
        (now - age_seconds * NANOSECONDS_PER_SECOND) as u64
    } else {
        0
    }
}

/// `tp` cuts at the last index record whose instant is at or before
/// `target`.
pub open spec fn is_age_boundary(snapshot: IndexSnapshot, target: u64, tp: TruncationPoint) -> bool {
    exists|i: int|
        {
            &&& 0 <= i < snapshot.records@.len()
            &&& (#[trigger] snapshot.records@[i]).timestamp <= target
            &&& forall|j: int|
                i < j < snapshot.records@.len() ==> #[trigger] snapshot.records@[j].timestamp
                    > target
            &&& tp.index_offset == snapshot.spec_record_offset(i)
            &&& tp.data_offset == snapshot.records@[i].offset
        }
}

/// No index record's instant is at or before `target`.
pub open spec fn no_age_boundary(snapshot: IndexSnapshot, target: u64) -> bool {
    forall|j: int|
        0 <= j < snapshot.records@.len() ==> #[trigger] snapshot.records@[j].timestamp > target
}

/// `tp` cuts at the deepest index record within `budget` bytes of the data
/// tail.
pub open spec fn is_size_boundary(
    snapshot: IndexSnapshot,
    data_tail: u64,
    budget: u64,
    tp: TruncationPoint,
) -> bool {
    exists|i: int|
        {
            &&& 0 <= i < snapshot.records@.len()
            &&& data_tail - (#[trigger] snapshot.records@[i]).offset <= budget
            &&& forall|j: int|
                0 <= j < i ==> data_tail - #[trigger] snapshot.records@[j].offset > budget
            &&& tp.index_offset == snapshot.spec_record_offset(i)
            &&& tp.data_offset == snapshot.records@[i].offset
        }
}

/// Every index record lies further from the data tail than `budget`.
pub open spec fn no_size_boundary(snapshot: IndexSnapshot, data_tail: u64, budget: u64) -> bool {
    forall|j: int|
        0 <= j < snapshot.records@.len() ==> data_tail - #[trigger] snapshot.records@[j].offset
            > budget
}

/// A truncation head after optionally applying one cut.
pub open spec fn spec_truncated_head(head: u64, offset: u64) -> u64 {
    if offset >= head {
        offset
    } else {
        head
    }
}

/// Where the days boundary falls: the last index record at or before the
/// age target, as a truncation point; none when the index holds no such
/// record, in which case the cycle does nothing.
pub fn plan_age_truncation(snapshot: &IndexSnapshot, now: u64, age_seconds: u64) -> (r: Option<
    TruncationPoint,
>)
    requires
        snapshot.wf(),
    ensures
        match r {
            Some(tp) => is_age_boundary(*snapshot, spec_age_target(now, age_seconds), tp),
            None => no_age_boundary(*snapshot, spec_age_target(now, age_seconds)),
        },
{
    let target: u64 = match age_seconds.checked_mul(NANOSECONDS_PER_SECOND) {
        Some(window_nanos) => if now > window_nanos {
            now - window_nanos
        } else {
            0
        },
        // the window reaches further back than the whole domain
        None => 0,
    };
    match snapshot.search_by_instant(target) {
        Ok((rec, index_offset)) => Some(
            TruncationPoint { index_offset, data_offset: rec.offset },
        ),
        Err(SearchError::NotFound) => None,
    }
}

/// Where the bytes boundary falls: the deepest index record whose distance
/// from the data tail is within the byte budget; none when even the newest
/// record is beyond it, in which case the cycle does nothing.
pub fn plan_size_truncation(snapshot: &IndexSnapshot, data_tail: u64, budget: u64) -> (r: Option<
    TruncationPoint,
>)
    requires
        snapshot.wf(),
        forall|j: int|
            0 <= j < snapshot.records@.len() ==> #[trigger] snapshot.records@[j].offset
                <= data_tail,
    ensures
        match r {
            Some(tp) => is_size_boundary(*snapshot, data_tail, budget, tp),
            None => no_size_boundary(*snapshot, data_tail, budget),
        },
{
    match snapshot.search_by_cumulative_size(data_tail, budget) {
        Ok((rec, index_offset)) => Some(
            TruncationPoint { index_offset, data_offset: rec.offset },
        ),
        Err(SearchError::NotFound) => None,
    }
}

/// Cuts both streams at one truncation point: the index stream no later
/// than the data stream, so the index never points into truncated data.
pub fn apply_truncation(
    tp: TruncationPoint,
    index_writer: &mut StreamWriter,
    data_writer: &mut StreamWriter,
)
    requires
        old(index_writer).wf(),
        old(data_writer).wf(),
        tp.index_offset <= old(index_writer).tail,
        tp.data_offset <= old(data_writer).tail,
    ensures
        final(index_writer).wf(),
        final(data_writer).wf(),
        final(index_writer).head == if tp.index_offset >= old(index_writer).head {
            tp.index_offset
        } else {
            old(index_writer).head
        },
        final(data_writer).head == if tp.data_offset >= old(data_writer).head {
            tp.data_offset
        } else {
            old(data_writer).head
        },
        final(index_writer).tail == old(index_writer).tail,
        final(data_writer).tail == old(data_writer).tail,
        final(index_writer).durable == old(index_writer).durable,
        final(data_writer).durable == old(data_writer).durable,
        final(index_writer).sealed == old(index_writer).sealed,
        final(data_writer).sealed == old(data_writer).sealed,
        final(index_writer).appended@ == old(index_writer).appended@,
        final(data_writer).appended@ == old(data_writer).appended@,
        final(index_writer).opened_at == old(index_writer).opened_at,
        final(data_writer).opened_at == old(data_writer).opened_at,
{
    index_writer.truncate_before(tp.index_offset);
    data_writer.truncate_before(tp.data_offset);
}

/// One retention maintenance cycle: per the policy's components, finds the
/// age and size boundaries in the index and truncates both stream models
/// at each, index no later than data.  A boundary that no index record
/// satisfies is skipped for this cycle; it is not an error.  The adapter
/// mirrors the returned truncations onto its own storage handles in the
/// same order: the age cut, then the size cut, index before data.
pub fn retention_tick(
    policy: &RetentionPolicy,
    now: u64,
    snapshot: &IndexSnapshot,
    index_writer: &mut StreamWriter,
    data_writer: &mut StreamWriter,
) -> (r: (Option<TruncationPoint>, Option<TruncationPoint>))
    requires
        snapshot.wf(),
        old(index_writer).wf(),
        old(data_writer).wf(),
        snapshot.base_offset + INDEX_RECORD_SIZE * snapshot.records@.len() <= old(
            index_writer,
        ).tail,
        forall|j: int|
            0 <= j < snapshot.records@.len() ==> #[trigger] snapshot.records@[j].offset <= old(
                data_writer,
            ).tail,
    ensures
        final(index_writer).wf(),
        final(data_writer).wf(),
        // the age component's cut, when the policy has one and a record
        // qualifies
        match r.0 {
            Some(tp) => policy.spec_age_seconds() matches Some(age) && is_age_boundary(
                *snapshot,
                spec_age_target(now, age),
                tp,
            ),
            None => policy.spec_age_seconds() matches Some(age) ==> no_age_boundary(
                *snapshot,
                spec_age_target(now, age),
            ),
        },
        (policy.spec_age_seconds() is None ==> r.0 is None),
        // the size component's cut, against the data tail of this cycle
        match r.1 {
            Some(tp) => policy.spec_size_bytes() matches Some(budget) && is_size_boundary(
                *snapshot,
                old(data_writer).tail,
                budget,
                tp,
            ),
            None => policy.spec_size_bytes() matches Some(budget) ==> no_size_boundary(
                *snapshot,
                old(data_writer).tail,
                budget,
            ),
        },
        (policy.spec_size_bytes() is None ==> r.1 is None),
        // how the heads moved: each cut only ever advances them
        final(index_writer).head == spec_truncated_head(
            spec_truncated_head(
                old(index_writer).head,
                match r.0 {
                    Some(tp) => tp.index_offset,
                    None => 0,
                },
            ),
            match r.1 {
                Some(tp) => tp.index_offset,
                None => 0,
            },
        ),
        final(data_writer).head == spec_truncated_head(
            spec_truncated_head(
                old(data_writer).head,
                match r.0 {
                    Some(tp) => tp.data_offset,
                    None => 0,
                },
            ),
            match r.1 {
                Some(tp) => tp.data_offset,
                None => 0,
            },
        ),
        // everything else about both writers is untouched
        final(index_writer).tail == old(index_writer).tail,
        final(data_writer).tail == old(data_writer).tail,
        final(index_writer).durable == old(index_writer).durable,
        final(data_writer).durable == old(data_writer).durable,
        final(index_writer).sealed == old(index_writer).sealed,
        final(data_writer).sealed == old(data_writer).sealed,
        final(index_writer).appended@ == old(index_writer).appended@,
        final(data_writer).appended@ == old(data_writer).appended@,
        final(index_writer).opened_at == old(index_writer).opened_at,
        final(data_writer).opened_at == old(data_writer).opened_at,
        // no index record reachable after a cut refers to data that the
        // cut discarded
        (r.0 matches Some(tp) ==> forall|j: int|
            0 <= j < snapshot.records@.len() && snapshot.spec_record_offset(j) >= tp.index_offset
                ==> #[trigger] snapshot.records@[j].offset >= tp.data_offset),
        (r.1 matches Some(tp) ==> forall|j: int|
            0 <= j < snapshot.records@.len() && snapshot.spec_record_offset(j) >= tp.index_offset
                ==> #[trigger] snapshot.records@[j].offset >= tp.data_offset),
{
    let age_cut: Option<TruncationPoint> = match policy.age_seconds() {
        Some(age) => plan_age_truncation(snapshot, now, age),
        None => None,
    };
    if let Some(tp) = age_cut {
        apply_truncation(tp, index_writer, data_writer);
    }
    let size_cut: Option<TruncationPoint> = match policy.size_bytes() {
        Some(budget) => plan_size_truncation(snapshot, data_writer.current_offset(), budget),
        None => None,
    };
    if let Some(tp) = size_cut {
        apply_truncation(tp, index_writer, data_writer);
    }
    proof {
        if age_cut is Some {
            lemma_age_cut_safe(
                *snapshot,
                spec_age_target(now, policy.spec_age_seconds()->0),
                age_cut->0,
            );
        }
        if size_cut is Some {
            lemma_size_cut_safe(
                *snapshot,
                old(data_writer).tail,
                policy.spec_size_bytes()->0,
                size_cut->0,
            );
        }
    }
    (age_cut, size_cut)
}

/// Retention law, days boundary: after both streams are cut at an age
/// boundary for instant `target`, every index record still reachable
/// refers only to data at or past the data stream's new head, and every
/// reachable record but the boundary record itself — the seek point a
/// reader of the boundary instant still needs — carries an instant newer
/// than `target`.
pub proof fn lemma_age_cut_safe(snapshot: IndexSnapshot, target: u64, tp: TruncationPoint)
    requires
        snapshot.wf(),
        is_age_boundary(snapshot, target, tp),
    ensures
        forall|j: int|
            0 <= j < snapshot.records@.len() && snapshot.spec_record_offset(j) >= tp.index_offset
                ==> #[trigger] snapshot.records@[j].offset >= tp.data_offset,
        forall|j: int|
            0 <= j < snapshot.records@.len() && snapshot.spec_record_offset(j) > tp.index_offset
                ==> #[trigger] snapshot.records@[j].timestamp > target,
{
    let i = choose|i: int|
        {
            &&& 0 <= i < snapshot.records@.len()
            &&& (#[trigger] snapshot.records@[i]).timestamp <= target
            &&& forall|j: int|
                i < j < snapshot.records@.len() ==> #[trigger] snapshot.records@[j].timestamp
                    > target
            &&& tp.index_offset == snapshot.spec_record_offset(i)
            &&& tp.data_offset == snapshot.records@[i].offset
        };
    assert forall|j: int|
        0 <= j < snapshot.records@.len() && snapshot.spec_record_offset(j) >= tp.index_offset
        implies #[trigger] snapshot.records@[j].offset >= tp.data_offset by {
        assert(j >= i);
    }
    assert forall|j: int|
        0 <= j < snapshot.records@.len() && snapshot.spec_record_offset(j) > tp.index_offset
        implies #[trigger] snapshot.records@[j].timestamp > target by {
        assert(j > i);
    }
}

/// Retention law, bytes boundary: after both streams are cut at a size
/// boundary for `budget`, every index record still reachable refers only
/// to data at or past the data stream's new head; and the cut retains no
/// less than necessary — every record it discarded lay further from the
/// tail than the budget allows.
pub proof fn lemma_size_cut_safe(
    snapshot: IndexSnapshot,
    data_tail: u64,
    budget: u64,
    tp: TruncationPoint,
)
    requires
        snapshot.wf(),
        is_size_boundary(snapshot, data_tail, budget, tp),
    ensures
        forall|j: int|
            0 <= j < snapshot.records@.len() && snapshot.spec_record_offset(j) >= tp.index_offset
                ==> #[trigger] snapshot.records@[j].offset >= tp.data_offset,
        forall|j: int|
            0 <= j < snapshot.records@.len() && snapshot.spec_record_offset(j) < tp.index_offset
                ==> data_tail - #[trigger] snapshot.records@[j].offset > budget,
{
    let i = choose|i: int|
        {
            &&& 0 <= i < snapshot.records@.len()
            &&& data_tail - (#[trigger] snapshot.records@[i]).offset <= budget
            &&& forall|j: int|
                0 <= j < i ==> data_tail - #[trigger] snapshot.records@[j].offset > budget
            &&& tp.index_offset == snapshot.spec_record_offset(i)
            &&& tp.data_offset == snapshot.records@[i].offset
        };
    assert forall|j: int|
        0 <= j < snapshot.records@.len() && snapshot.spec_record_offset(j) >= tp.index_offset
        implies #[trigger] snapshot.records@[j].offset >= tp.data_offset by {
        assert(j >= i);
    }
    assert forall|j: int|
        0 <= j < snapshot.records@.len() && snapshot.spec_record_offset(j) < tp.index_offset
        implies data_tail - #[trigger] snapshot.records@[j].offset > budget by {
        assert(j < i);
    }
}

} // verus!
