//! The indexing policy: decides, per incoming record, whether the record
//! becomes a seek point of the index stream, and whether it is written as a
//! discontinuity.

use vstd::prelude::*;

verus! {

/// The decision table: a record without an instant is never indexed; a
/// random-access record is indexed once the minimum interval has passed
/// since the last index entry; a non-random-access record is indexed only
/// when the maximum interval has been exceeded; before any index entry
/// exists, a random-access record is always indexed and another record only
/// once the maximum interval has passed since the first valid instant.
pub open spec fn spec_should_index(
    timestamp: Option<u64>,
    random_access: bool,
    last_index_time: Option<u64>,
    first_valid_time: Option<u64>,
    min_nanos: u64,
    max_nanos: u64,
) -> bool {
    match timestamp {
        None => false,
        Some(ts) => match last_index_time {
            Some(last) => if random_access {
                ts >= last + min_nanos
            } else {
                ts > last + max_nanos
            },
            None => if random_access {
                true
            } else {
                match first_valid_time {
                    Some(first) => ts > first + max_nanos,
                    None => false,
                }
            },
        },
    }
}

/// Whether one record becomes a seek point, per the decision table.
pub fn should_index(
    timestamp: Option<u64>,
    random_access: bool,
    last_index_time: Option<u64>,
    first_valid_time: Option<u64>,
    min_nanos: u64,
    max_nanos: u64,
) -> (r: bool)
    ensures
        r == spec_should_index(
            timestamp,
            random_access,
            last_index_time,
            first_valid_time,
            min_nanos,
            max_nanos,
        ),
{
    match timestamp {
        None => false,
        Some(ts) => match last_index_time {
            Some(last) => if random_access {
                ts as u128 >= last as u128 + min_nanos as u128
            } else {
                ts as u128 > last as u128 + max_nanos as u128
            },
            None => if random_access {
                true
            } else {
                match first_valid_time {
                    Some(first) => ts as u128 > first as u128 + max_nanos as u128,
                    None => false,
                }
            },
        },
    }
}

/// A record is written as a discontinuity when its source flagged a gap or
/// reset, when it is the first record of the session, or when it is the
/// first record the session ever indexes.
pub open spec fn spec_discontinuity(
    flagged: bool,
    buffers_written: u64,
    include_in_index: bool,
    last_index_time: Option<u64>,
) -> bool {
    flagged || buffers_written == 0 || (include_in_index && last_index_time is None)
}

/// Whether one record is written as a discontinuity.
pub fn compute_discontinuity(
    flagged: bool,
    buffers_written: u64,
    include_in_index: bool,
    last_index_time: Option<u64>,
) -> (r: bool)
    ensures
        r == spec_discontinuity(flagged, buffers_written, include_in_index, last_index_time),
{
    flagged || buffers_written == 0 || (include_in_index && last_index_time.is_none())
}

} // verus!
