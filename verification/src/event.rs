//! Event framing and fragmentation: every payload appended to the data
//! stream is carried in a length-prefixed frame, and a payload larger than
//! the atomic-write limit is split into ordered fragments, each framed on
//! its own.

use vstd::prelude::*;
use vstd::bytes::{
    lemma_auto_spec_u32_to_from_le_bytes, lemma_auto_spec_u64_to_from_le_bytes,
    spec_u32_from_le_bytes, spec_u32_to_le_bytes, spec_u64_from_le_bytes, spec_u64_to_le_bytes,
    u32_from_le_bytes, u32_to_le_bytes, u64_from_le_bytes, u64_to_le_bytes,
};
use vstd::slice::{slice_subrange, slice_to_vec};

verus! {

/// The storage service's atomic-write size limit: one frame never exceeds
/// this many bytes.
pub const MAX_ATOMIC_WRITE_SIZE: usize = 8 * 1024 * 1024;

/// The size of the frame header: the payload length, the flag word and the
/// instant.
pub const EVENT_HEADER_SIZE: usize = 16;

/// The largest payload one frame can carry.
pub const MAX_PAYLOAD_SIZE: usize = MAX_ATOMIC_WRITE_SIZE - EVENT_HEADER_SIZE;

/// One framed event: a payload with the instant and flags its header
/// carries.
#[derive(Debug)]
pub struct EventWithHeader {
    /// The bytes carried by this frame.
    pub payload: Vec<u8>,
    /// The instant of the record, when known.
    pub timestamp: Option<u64>,
    /// True when a seek point refers to this frame.
    pub include_in_index: bool,
    /// True when the frame begins a record decodable without prior records.
    pub random_access: bool,
    /// True when the frame follows a gap or reset.
    pub discontinuity: bool,
}

/// The flag word of a frame header.
pub open spec fn spec_event_flags_word(
    include_in_index: bool,
    random_access: bool,
    discontinuity: bool,
    timestamp_present: bool,
) -> u32 {
    ((if include_in_index {
        1int
    } else {
        0int
    }) + (if random_access {
        2int
    } else {
        0int
    }) + (if discontinuity {
        4int
    } else {
        0int
    }) + (if timestamp_present {
        8int
    } else {
        0int
    })) as u32
}

/// The byte sequence of one frame with the given payload, instant and
/// flags: the payload length, the flag word and the instant, each
/// little-endian, followed by the payload.
pub open spec fn spec_encode_parts(
    payload: Seq<u8>,
    timestamp: Option<u64>,
    include_in_index: bool,
    random_access: bool,
    discontinuity: bool,
) -> Seq<u8> {
    spec_u32_to_le_bytes(payload.len() as u32) + spec_u32_to_le_bytes(
        spec_event_flags_word(include_in_index, random_access, discontinuity, timestamp is Some),
    ) + spec_u64_to_le_bytes(
        match timestamp {
            Some(t) => t,
            None => 0,
        },
    ) + payload
}

/// The byte sequence of one encoded frame.
pub open spec fn spec_encode_event(e: EventWithHeader) -> Seq<u8> {
    spec_encode_parts(e.payload@, e.timestamp, e.include_in_index, e.random_access, e.discontinuity)
}

impl EventWithHeader {
    /// A new framed event.
    pub fn new(
        payload: Vec<u8>,
        timestamp: Option<u64>,
        include_in_index: bool,
        random_access: bool,
        discontinuity: bool,
    ) -> (r: Self)
        ensures
            r == (EventWithHeader {
                payload,
                timestamp,
                include_in_index,
                random_access,
                discontinuity,
            }),
    {
        EventWithHeader { payload, timestamp, include_in_index, random_access, discontinuity }
    }

    /// Encodes the frame: header, then payload.  The whole frame stays
    /// within the atomic-write limit.
    pub fn encode(&self) -> (b: Vec<u8>)
        requires
            self.payload@.len() <= MAX_PAYLOAD_SIZE,
        ensures
            b@ == spec_encode_event(*self),
            b@.len() == EVENT_HEADER_SIZE + self.payload@.len(),
            b@.len() <= MAX_ATOMIC_WRITE_SIZE,
    {
        proof {
            lemma_auto_spec_u64_to_from_le_bytes();
            lemma_auto_spec_u32_to_from_le_bytes();
        }
        let mut b = u32_to_le_bytes(self.payload.len() as u32);
        let flags: u32 = (if self.include_in_index {
            1
        } else {
            0
        }) + (if self.random_access {
            2
        } else {
            0
        }) + (if self.discontinuity {
            4
        } else {
            0
        }) + (if self.timestamp.is_some() {
            8
        } else {
            0
        });
        let mut fl = u32_to_le_bytes(flags);
        let ts: u64 = match self.timestamp {
            Some(t) => t,
            None => 0,
        };
        let mut tb = u64_to_le_bytes(ts);
        b.append(&mut fl);
        b.append(&mut tb);
        let mut p = slice_to_vec(self.payload.as_slice());
        b.append(&mut p);
        proof {
            assert(b@ =~= spec_encode_event(*self));
        }
        b
    }

    /// Decodes one whole frame: the byte sequence must be exactly a header
    /// followed by the payload the header announces.
    pub fn decode(b: &[u8]) -> (r: Self)
        requires
            b@.len() >= EVENT_HEADER_SIZE,
            spec_u32_from_le_bytes(b@.subrange(0, 4)) == b@.len() - EVENT_HEADER_SIZE,
        ensures
            r.payload@ == b@.subrange(EVENT_HEADER_SIZE as int, b@.len() as int),
            r.include_in_index == (spec_u32_from_le_bytes(b@.subrange(4, 8)) % 2 == 1),
            r.random_access == ((spec_u32_from_le_bytes(b@.subrange(4, 8)) / 2) % 2 == 1),
            r.discontinuity == ((spec_u32_from_le_bytes(b@.subrange(4, 8)) / 4) % 2 == 1),
            r.timestamp == if (spec_u32_from_le_bytes(b@.subrange(4, 8)) / 8) % 2 == 1 {
                Some(spec_u64_from_le_bytes(b@.subrange(8, 16)))
            } else {
                None::<u64>
            },
    {
        let flags = u32_from_le_bytes(slice_subrange(b, 4, 8));
        let ts_raw = u64_from_le_bytes(slice_subrange(b, 8, 16));
        let payload = slice_to_vec(slice_subrange(b, EVENT_HEADER_SIZE, b.len()));
        EventWithHeader {
            payload,
            timestamp: if (flags / 8) % 2 == 1 {
                Some(ts_raw)
            } else {
                None
            },
            include_in_index: flags % 2 == 1,
            random_access: (flags / 2) % 2 == 1,
            discontinuity: (flags / 4) % 2 == 1,
        }
    }
}

/// The payload bytes of a sequence of frames, in order.
pub open spec fn concat_payloads(frags: Seq<EventWithHeader>) -> Seq<u8>
    decreases frags.len(),
{
    if frags.len() == 0 {
        Seq::empty()
    } else {
        concat_payloads(frags.drop_last()) + frags.last().payload@
    }
}

/// How many fragments a payload of `len` bytes splits into: one per full
/// stretch of the atomic payload limit, and one for any remainder.
pub open spec fn spec_fragment_count(len: nat) -> nat
    decreases len,
{
    if len == 0 {
        0
    } else if len <= MAX_PAYLOAD_SIZE {
        1
    } else {
        1 + spec_fragment_count((len - MAX_PAYLOAD_SIZE) as nat)
    }
}

/// The payload stretch of fragment `k`: the `k`-th slice of the payload,
/// of the atomic payload limit except possibly the last.
pub open spec fn spec_fragment_payload(payload: Seq<u8>, k: int) -> Seq<u8> {
    let lo = k * (MAX_PAYLOAD_SIZE as int);
    let hi = if lo + (MAX_PAYLOAD_SIZE as int) <= payload.len() {
        lo + (MAX_PAYLOAD_SIZE as int)
    } else {
        payload.len() as int
    };
    payload.subrange(lo, hi)
}

/// What fragment `k` of a record holds: its stretch of the payload, the
/// record's instant, and — only on fragment 0 — the record's flags.
pub open spec fn is_fragment(
    e: EventWithHeader,
    payload: Seq<u8>,
    timestamp: Option<u64>,
    include_in_index: bool,
    random_access: bool,
    discontinuity: bool,
    k: int,
) -> bool {
    &&& e.payload@ == spec_fragment_payload(payload, k)
    &&& e.timestamp == timestamp
    &&& e.include_in_index == (k == 0 && include_in_index)
    &&& e.random_access == (k == 0 && random_access)
    &&& e.discontinuity == (k == 0 && discontinuity)
}

/// The bytes of encoded fragment `k` of a record.
pub open spec fn spec_encode_fragment(
    payload: Seq<u8>,
    timestamp: Option<u64>,
    include_in_index: bool,
    random_access: bool,
    discontinuity: bool,
    k: int,
) -> Seq<u8> {
    spec_encode_parts(
        spec_fragment_payload(payload, k),
        timestamp,
        k == 0 && include_in_index,
        k == 0 && random_access,
        k == 0 && discontinuity,
    )
}

/// The bytes of the first `n` encoded fragments of a record, in order:
/// what appending a record of this payload and these flags adds to the
/// data stream.
pub open spec fn spec_encode_fragments_upto(
    payload: Seq<u8>,
    timestamp: Option<u64>,
    include_in_index: bool,
    random_access: bool,
    discontinuity: bool,
    n: int,
) -> Seq<u8>
    decreases n,
{
    if n <= 0 {
        Seq::empty()
    } else {
        spec_encode_fragments_upto(
            payload,
            timestamp,
            include_in_index,
            random_access,
            discontinuity,
            n - 1,
        ) + spec_encode_fragment(
            payload,
            timestamp,
            include_in_index,
            random_access,
            discontinuity,
            n - 1,
        )
    }
}

/// Frames that hold a record's fragments encode to exactly the record's
/// fragment bytes.
pub proof fn lemma_frames_encode_fragments(
    frags: Seq<EventWithHeader>,
    payload: Seq<u8>,
    timestamp: Option<u64>,
    include_in_index: bool,
    random_access: bool,
    discontinuity: bool,
    n: int,
)
    requires
        0 <= n <= frags.len(),
        forall|k: int|
            0 <= k < frags.len() ==> is_fragment(
                #[trigger] frags[k],
                payload,
                timestamp,
                include_in_index,
                random_access,
                discontinuity,
                k,
            ),
    ensures
        spec_encode_frames(frags.take(n)) == spec_encode_fragments_upto(
            payload,
            timestamp,
            include_in_index,
            random_access,
            discontinuity,
            n,
        ),
    decreases n,
{
    if n == 0 {
        assert(frags.take(0) =~= Seq::<EventWithHeader>::empty());
    } else {
        lemma_frames_encode_fragments(
            frags,
            payload,
            timestamp,
            include_in_index,
            random_access,
            discontinuity,
            n - 1,
        );
        assert(frags.take(n).drop_last() =~= frags.take(n - 1));
        assert(frags.take(n).last() == frags[n - 1]);
    }
}

/// The bytes of a sequence of frames, each encoded, in order: what a
/// sequence of appends of those frames adds to the data stream.
pub open spec fn spec_encode_frames(frags: Seq<EventWithHeader>) -> Seq<u8>
    decreases frags.len(),
{
    if frags.len() == 0 {
        Seq::empty()
    } else {
        spec_encode_frames(frags.drop_last()) + spec_encode_event(frags.last())
    }
}

/// Encoded frames take one header per frame plus their payloads.
pub proof fn lemma_encode_frames_len(frags: Seq<EventWithHeader>)
    ensures
        spec_encode_frames(frags).len() == EVENT_HEADER_SIZE * frags.len() + concat_payloads(
            frags,
        ).len(),
    decreases frags.len(),
{
    lemma_auto_spec_u32_to_from_le_bytes();
    lemma_auto_spec_u64_to_from_le_bytes();
    if frags.len() > 0 {
        lemma_encode_frames_len(frags.drop_last());
    }
}

/// Encoding one more frame appends its encoding.
pub proof fn lemma_encode_frames_take(frags: Seq<EventWithHeader>, j: int)
    requires
        0 <= j < frags.len(),
    ensures
        spec_encode_frames(frags.take(j + 1)) == spec_encode_frames(frags.take(j))
            + spec_encode_event(frags[j]),
{
    assert(frags.take(j + 1).drop_last() =~= frags.take(j));
    assert(frags.take(j + 1).last() == frags[j]);
}

/// A prefix of the frames encodes to at most as many bytes as all of them.
pub proof fn lemma_encode_frames_take_len_le(frags: Seq<EventWithHeader>, j: int)
    requires
        0 <= j <= frags.len(),
    ensures
        spec_encode_frames(frags.take(j)).len() <= spec_encode_frames(frags).len(),
    decreases frags.len() - j,
{
    lemma_auto_spec_u32_to_from_le_bytes();
    lemma_auto_spec_u64_to_from_le_bytes();
    if j == frags.len() {
        assert(frags.take(j) =~= frags);
    } else {
        lemma_encode_frames_take(frags, j);
        lemma_encode_frames_take_len_le(frags, j + 1);
    }
}

/// Splits one record's payload into ordered framed fragments of at most the
/// atomic payload limit.  Only the first fragment carries the record's
/// index, random-access and discontinuity flags; reassembling all fragment
/// payloads in order reproduces the record's payload exactly.
pub fn fragment_event(
    payload: &Vec<u8>,
    timestamp: Option<u64>,
    include_in_index: bool,
    random_access: bool,
    discontinuity: bool,
) -> (frags: Vec<EventWithHeader>)
    ensures
        concat_payloads(frags@) == payload@,
        frags@.len() == spec_fragment_count(payload@.len()),
        forall|k: int|
            0 <= k < frags@.len() ==> is_fragment(
                #[trigger] frags@[k],
                payload@,
                timestamp,
                include_in_index,
                random_access,
                discontinuity,
                k,
            ),
        forall|k: int|
            0 <= k < frags@.len() ==> 0 < #[trigger] frags@[k].payload@.len() <= MAX_PAYLOAD_SIZE,
        forall|k: int|
            0 <= k < frags@.len() - 1 ==> #[trigger] frags@[k].payload@.len() == MAX_PAYLOAD_SIZE,
        frags@.len() == 0 <==> payload@.len() == 0,
{
    let mut frags: Vec<EventWithHeader> = Vec::new();
    let mut pos: usize = 0;
    proof {
        assert(concat_payloads(frags@) =~= payload@.subrange(0, 0));
    }
    while pos < payload.len()
        invariant
            pos <= payload@.len(),
            pos == frags@.len() * MAX_PAYLOAD_SIZE || pos == payload@.len(),
            frags@.len() + spec_fragment_count((payload@.len() - pos) as nat)
                == spec_fragment_count(payload@.len()),
            concat_payloads(frags@) == payload@.subrange(0, pos as int),
            forall|k: int|
                0 <= k < frags@.len() ==> is_fragment(
                    #[trigger] frags@[k],
                    payload@,
                    timestamp,
                    include_in_index,
                    random_access,
                    discontinuity,
                    k,
                ),
            forall|k: int|
                0 <= k < frags@.len() ==> 0 < #[trigger] frags@[k].payload@.len()
                    <= MAX_PAYLOAD_SIZE,
            forall|k: int|
                0 <= k < frags@.len() - 1 ==> #[trigger] frags@[k].payload@.len()
                    == MAX_PAYLOAD_SIZE,
            frags@.len() == 0 <==> pos == 0,
        decreases payload@.len() - pos,
    {
        let remaining = payload.len() - pos;
        let chunk_len = if remaining < MAX_PAYLOAD_SIZE {
            remaining
        } else {
            MAX_PAYLOAD_SIZE
        };
        let chunk = slice_to_vec(slice_subrange(payload.as_slice(), pos, pos + chunk_len));
        let frag = if pos == 0 {
            EventWithHeader::new(chunk, timestamp, include_in_index, random_access, discontinuity)
        } else {
            EventWithHeader::new(chunk, timestamp, false, false, false)
        };
        let ghost old_frags = frags@;
        frags.push(frag);
        proof {
            let n = old_frags.len() as int;
            let m = MAX_PAYLOAD_SIZE as int;
            assert((n - 1) * m + m == n * m && (n + 1) * m == n * m + m) by (nonlinear_arith);
            assert(pos == n * m);
            assert(frags@.drop_last() =~= old_frags);
            assert(concat_payloads(frags@) =~= payload@.subrange(0, (pos + chunk_len) as int));
            assert(spec_fragment_count((payload@.len() - pos) as nat) == 1 + spec_fragment_count(
                (payload@.len() - pos - chunk_len) as nat,
            ));
            assert(frag.payload@ == spec_fragment_payload(payload@, n));
        }
        pos = pos + chunk_len;
    }
    proof {
        assert(payload@.subrange(0, payload@.len() as int) =~= payload@);
    }
    frags
}

} // verus!
