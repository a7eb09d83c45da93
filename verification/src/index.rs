//! The index record codec: the fixed binary layout of one seek-point entry
//! of the index stream, and the in-memory picture of a stretch of that
//! stream.

use vstd::prelude::*;
use vstd::bytes::{
    lemma_auto_spec_u32_to_from_le_bytes, lemma_auto_spec_u64_to_from_le_bytes,
    spec_u32_from_le_bytes, spec_u32_to_le_bytes, spec_u64_from_le_bytes, spec_u64_to_le_bytes,
    u32_from_le_bytes, u32_to_le_bytes, u64_from_le_bytes, u64_to_le_bytes,
};
use vstd::slice::slice_subrange;

verus! {

/// The size, in bytes, of one encoded index record: the instant, the data
/// offset, and the flag word.
pub const INDEX_RECORD_SIZE: u64 = 20;

/// One seek-point entry of the index stream: the instant and data-stream
/// offset of an indexed record, with its random-access and discontinuity
/// flags.  Instants in the index are always real: a record without one is
/// never indexed.
#[derive(Clone, Copy, Debug, PartialEq, Eq)]
pub struct IndexRecord {
    /// Atomic-domain nanoseconds of the indexed record.
    pub timestamp: u64,
    /// Byte offset in the data stream at which the indexed record begins.
    pub offset: u64,
    /// True when the indexed record can be decoded without prior records.
    pub random_access: bool,
    /// True when the indexed record follows a gap or reset.
    pub discontinuity: bool,
}

/// The flag word of an encoded index record.
pub open spec fn spec_flags_word(random_access: bool, discontinuity: bool) -> u32 {
    ((if random_access {
        1int
    } else {
        0int
    }) + (if discontinuity {
        2int
    } else {
        0int
    })) as u32
}

/// The byte sequence of one encoded index record: the instant, the data
/// offset and the flag word, each little-endian.
pub open spec fn spec_encode_record(r: IndexRecord) -> Seq<u8> {
    spec_u64_to_le_bytes(r.timestamp) + spec_u64_to_le_bytes(r.offset) + spec_u32_to_le_bytes(
        spec_flags_word(r.random_access, r.discontinuity),
    )
}

/// The record read back from one encoded entry; flag bits outside the two
/// defined ones are ignored.
pub open spec fn spec_decode_record(b: Seq<u8>) -> IndexRecord
    recommends
        b.len() == INDEX_RECORD_SIZE,
{
    IndexRecord {
        timestamp: spec_u64_from_le_bytes(b.subrange(0, 8)),
        offset: spec_u64_from_le_bytes(b.subrange(8, 16)),
        random_access: spec_u32_from_le_bytes(b.subrange(16, 20)) % 2 == 1,
        discontinuity: (spec_u32_from_le_bytes(b.subrange(16, 20)) / 2) % 2 == 1,
    }
}

impl IndexRecord {
    /// A new seek-point entry.
    pub fn new(timestamp: u64, offset: u64, random_access: bool, discontinuity: bool) -> (r: Self)
        ensures
            r == (IndexRecord { timestamp, offset, random_access, discontinuity }),
    {
        IndexRecord { timestamp, offset, random_access, discontinuity }
    }

    /// Encodes the record into its fixed binary layout.
    pub fn encode(&self) -> (b: Vec<u8>)
        ensures
            b@ == spec_encode_record(*self),
            b@.len() == INDEX_RECORD_SIZE,
    {
        proof {
            lemma_auto_spec_u64_to_from_le_bytes();
            lemma_auto_spec_u32_to_from_le_bytes();
        }
        let mut b = u64_to_le_bytes(self.timestamp);
        let mut off = u64_to_le_bytes(self.offset);
        let flags: u32 = (if self.random_access {
            1
        } else {
            0
        }) + (if self.discontinuity {
            2
        } else {
            0
        });
        let mut fl = u32_to_le_bytes(flags);
        b.append(&mut off);
        b.append(&mut fl);
        proof {
            assert(b@ =~= spec_encode_record(*self));
        }
        b
    }

    /// Decodes one fixed-layout entry.
    pub fn decode(b: &[u8]) -> (r: Self)
        requires
            b@.len() == INDEX_RECORD_SIZE,
        ensures
            r == spec_decode_record(b@),
    {
        let ts_bytes = slice_subrange(b, 0, 8);
        let off_bytes = slice_subrange(b, 8, 16);
        let fl_bytes = slice_subrange(b, 16, 20);
        let timestamp = u64_from_le_bytes(ts_bytes);
        let offset = u64_from_le_bytes(off_bytes);
        let flags = u32_from_le_bytes(fl_bytes);
        IndexRecord {
            timestamp,
            offset,
            random_access: flags % 2 == 1,
            discontinuity: (flags / 2) % 2 == 1,
        }
    }
}

/// Decodes a whole stretch of the index stream: a flat sequence of
/// fixed-layout entries, in append order.
pub fn decode_index_records(b: &[u8]) -> (records: Vec<IndexRecord>)
    requires
        b@.len() as int % (INDEX_RECORD_SIZE as int) == 0,
    ensures
        records@.len() == b@.len() as int / (INDEX_RECORD_SIZE as int),
        forall|i: int|
            0 <= i < records@.len() ==> #[trigger] records@[i] == spec_decode_record(
                b@.subrange(INDEX_RECORD_SIZE * i, INDEX_RECORD_SIZE * (i + 1)),
            ),
{
    let mut records: Vec<IndexRecord> = Vec::new();
    let n = b.len() / (INDEX_RECORD_SIZE as usize);
    let mut i: usize = 0;
    while i < n
        invariant
            n == b@.len() as int / (INDEX_RECORD_SIZE as int),
            b@.len() == n * INDEX_RECORD_SIZE,
            b@.len() <= usize::MAX,
            i <= n,
            records@.len() == i,
            forall|k: int|
                0 <= k < i ==> #[trigger] records@[k] == spec_decode_record(
                    b@.subrange(INDEX_RECORD_SIZE * k, INDEX_RECORD_SIZE * (k + 1)),
                ),
        decreases n - i,
    {
        proof {
            let sz = INDEX_RECORD_SIZE as int;
            assert(i as int * sz + sz == (i as int + 1) * sz && (i as int + 1) * sz <= n as int
                * sz) by (nonlinear_arith)
                requires
                    i < n,
                    0 <= sz,
            ;
        }
        let rec = IndexRecord::decode(
            slice_subrange(
                b,
                i * (INDEX_RECORD_SIZE as usize),
                i * (INDEX_RECORD_SIZE as usize) + (INDEX_RECORD_SIZE as usize),
            ),
        );
        records.push(rec);
        i = i + 1;
    }
    records
}

/// The bytes of a sequence of index records, each encoded, in order: the
/// index stream is exactly this flat sequence of fixed-layout entries.
pub open spec fn spec_encode_records(log: Seq<IndexRecord>) -> Seq<u8>
    decreases log.len(),
{
    if log.len() == 0 {
        Seq::empty()
    } else {
        spec_encode_records(log.drop_last()) + spec_encode_record(log.last())
    }
}

/// Encoded index records take a fixed number of bytes each.
pub proof fn lemma_encode_records_len(log: Seq<IndexRecord>)
    ensures
        spec_encode_records(log).len() == INDEX_RECORD_SIZE * log.len(),
    decreases log.len(),
{
    lemma_auto_spec_u64_to_from_le_bytes();
    lemma_auto_spec_u32_to_from_le_bytes();
    if log.len() > 0 {
        lemma_encode_records_len(log.drop_last());
    }
}

/// Appending one record to the log appends its encoding to the stream.
pub proof fn lemma_encode_records_push(log: Seq<IndexRecord>, r: IndexRecord)
    ensures
        spec_encode_records(log.push(r)) == spec_encode_records(log) + spec_encode_record(r),
{
    assert(log.push(r).drop_last() =~= log);
    assert(log.push(r).last() == r);
}

/// Round-trip law: encoding an index record and decoding the bytes yields
/// the original instant, offset and flags exactly.
pub proof fn lemma_record_round_trip(r: IndexRecord)
    ensures
        spec_decode_record(spec_encode_record(r)) == r,
{
    lemma_auto_spec_u64_to_from_le_bytes();
    lemma_auto_spec_u32_to_from_le_bytes();
    let b = spec_encode_record(r);
    assert(b.subrange(0, 8) =~= spec_u64_to_le_bytes(r.timestamp));
    assert(b.subrange(8, 16) =~= spec_u64_to_le_bytes(r.offset));
    assert(b.subrange(16, 20) =~= spec_u32_to_le_bytes(
        spec_flags_word(r.random_access, r.discontinuity),
    ));
}

} // verus!
