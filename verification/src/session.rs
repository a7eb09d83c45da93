//! The write-path session: per incoming record it maps the instant into
//! the atomic domain, applies the indexing policy, frames and fragments
//! the payload, and appends to the models of the data and index streams —
//! returning a plan of the exact bytes and flushes for the adapter to
//! mirror onto the storage service, in the plan's order.

use vstd::prelude::*;
use crate::config::TimestampMode;
use crate::event::{
    fragment_event, lemma_encode_frames_len, lemma_encode_frames_take,
    lemma_encode_frames_take_len_le, lemma_frames_encode_fragments, spec_encode_event,
    spec_encode_fragment, spec_encode_fragments_upto, spec_encode_frames, spec_fragment_count,
    EVENT_HEADER_SIZE,
};
use crate::index::{
    lemma_encode_records_push, spec_encode_record, spec_encode_records, IndexRecord,
    INDEX_RECORD_SIZE,
};
use crate::policy::{compute_discontinuity, should_index, spec_discontinuity, spec_should_index};
use crate::timestamp::{ntp_to_tai, unix_to_tai, PravegaTimestamp};
use crate::writer::StreamWriter;

verus! {

/// One input unit handed to the write path: the payload with its raw
/// instant, duration and flags, as the host boundary delivered them.
pub struct Record {
    /// The payload bytes.
    pub payload: Vec<u8>,
    /// The raw presentation instant, in the configured time domain.
    pub pts: Option<u64>,
    /// How long the record lasts, in nanoseconds.
    pub duration: Option<u64>,
    /// True when the record decodes without prior records (a key frame).
    pub random_access: bool,
    /// True when the source flagged a gap or reset before this record.
    pub discontinuity: bool,
    /// True when both streams must be flushed right after this record.
    pub sync_after: bool,
}

/// The one failure the verified write path itself can hit: an append or
/// record count would pass the end of the representable range.
#[derive(Clone, Copy, Debug, PartialEq, Eq)]
pub enum RenderError {
    PositionOverflow,
}

/// What the adapter must do for one record, in this order: flush the data
/// then the index stream when `flush_before`; append `index_record_bytes`
/// to the index stream; append each of `data_frames` to the data stream as
/// one atomic write; flush both streams when `sync_after`.
pub struct RenderPlan {
    /// The record's instant in the atomic domain, if known.
    pub timestamp: Option<u64>,
    /// Whether the record became a seek point.
    pub include_in_index: bool,
    /// Whether the record was written as a discontinuity.
    pub discontinuity: bool,
    /// Flush data, then index, before appending the index record, so a
    /// reader that sees the seek point finds its data durable.
    pub flush_before: bool,
    /// The encoded index record to append, when the record is indexed.
    pub index_record_bytes: Option<Vec<u8>>,
    /// The encoded frames to append to the data stream, in order.
    pub data_frames: Vec<Vec<u8>>,
    /// Flush both streams after appending.
    pub sync_after: bool,
}

/// What the adapter must do to stop the session, in this order: flush the
/// data stream; append `final_index_record_bytes` to the index stream;
/// flush the index stream; seal both streams when `seal_streams`.
pub struct StopPlan {
    /// The terminal index record, synthesized from the last record's
    /// instant and the final write position.
    pub final_index_record_bytes: Option<Vec<u8>>,
    /// Whether both streams are sealed against all further appends.
    pub seal_streams: bool,
}

/// The instant of a record carried into the atomic domain, by the
/// configured source mode; out-of-range inputs yield none.
pub open spec fn spec_map_timestamp(
    mode: TimestampMode,
    pts: Option<u64>,
    base_time: Option<u64>,
) -> Option<u64> {
    match mode {
        TimestampMode::RealtimeClock => match (base_time, pts) {
            (Some(b), Some(p)) => if b + p <= u64::MAX {
                unix_to_tai((b + p) as u64)
            } else {
                None
            },
            _ => None,
        },
        TimestampMode::Ntp => match pts {
            Some(p) => ntp_to_tai(p),
            None => None,
        },
        TimestampMode::Tai => pts,
    }
}

/// Maps a record's raw instant into the atomic domain.  In the wall-clock
/// mode the pipeline's base time plus the instant gives Unix-domain
/// nanoseconds; in the network-time mode the instant is converted; in the
/// atomic mode it passes through.
pub fn map_timestamp(mode: TimestampMode, pts: Option<u64>, base_time: Option<u64>) -> (r: Option<
    u64,
>)
    ensures
        r == spec_map_timestamp(mode, pts, base_time),
{
    match mode {
        TimestampMode::RealtimeClock => match (base_time, pts) {
            (Some(b), Some(p)) => match b.checked_add(p) {
                Some(u) => PravegaTimestamp::from_unix_nanoseconds(Some(u)).nanoseconds(),
                None => None,
            },
            _ => None,
        },
        TimestampMode::Ntp => PravegaTimestamp::from_ntp_nanoseconds(pts).nanoseconds(),
        TimestampMode::Tai => pts,
    }
}

/// Whether index offsets grow strictly along the log.
pub open spec fn offsets_strictly_increasing(log: Seq<IndexRecord>) -> bool {
    forall|i: int, j: int|
        0 <= i < j < log.len() ==> #[trigger] log[i].offset < #[trigger] log[j].offset
}

/// One write-path session over one data/index stream pair.
pub struct SinkSession {
    /// The time domain of incoming instants.
    pub timestamp_mode: TimestampMode,
    /// Minimum nanoseconds between index records.
    pub index_min_nanos: u64,
    /// Nanoseconds after which an index record is forced.
    pub index_max_nanos: u64,
    /// Whether stop seals both streams.
    pub seal_on_stop: bool,
    /// True until the session has been stopped.
    pub active: bool,
    /// The first real instant the session saw; set once, never changed.
    pub first_valid_time: Option<u64>,
    /// The instant of the last index record appended.
    pub last_index_time: Option<u64>,
    /// The instant the terminal index record will carry.
    pub final_timestamp: Option<u64>,
    /// The offset the terminal index record will carry.
    pub final_offset: Option<u64>,
    /// How many records this session has written.
    pub buffers_written: u64,
    /// The data stream, as this session's writer handle sees it.
    pub data_writer: StreamWriter,
    /// The index stream, as this session's writer handle sees it.
    pub index_writer: StreamWriter,
    /// The index records this session has appended, in order.
    pub index_log: Ghost<Seq<IndexRecord>>,
}

impl SinkSession {
    /// The session invariant.  It carries the index stream's contract:
    /// along the log, instants never decrease and data offsets never
    /// decrease; every seek point refers only to data already durable; the
    /// index stream holds exactly the log's encodings; and the terminal
    /// record's offset never falls behind the last seek point.
    pub open spec fn wf(self) -> bool {
        &&& self.data_writer.wf()
        &&& self.index_writer.wf()
        &&& (self.active ==> !self.data_writer.sealed && !self.index_writer.sealed)
        &&& self.index_writer.appended@ == spec_encode_records(self.index_log@)
        &&& self.index_writer.tail == self.index_writer.opened_at + INDEX_RECORD_SIZE
            * self.index_log@.len()
        &&& forall|i: int, j: int|
            0 <= i <= j < self.index_log@.len() ==> (#[trigger] self.index_log@[i]).timestamp
                <= (#[trigger] self.index_log@[j]).timestamp
        &&& forall|i: int, j: int|
            0 <= i <= j < self.index_log@.len() ==> (#[trigger] self.index_log@[i]).offset
                <= (#[trigger] self.index_log@[j]).offset
        &&& forall|i: int|
            0 <= i < self.index_log@.len() ==> (#[trigger] self.index_log@[i]).offset
                <= self.data_writer.durable
        &&& (self.index_log@.len() == 0 <==> self.last_index_time is None)
        &&& (self.index_log@.len() > 0 ==> self.last_index_time == Some(
            self.index_log@.last().timestamp,
        ))
        &&& match self.final_offset {
            Some(o) => o <= self.data_writer.tail && (self.index_log@.len() > 0
                ==> self.index_log@.last().offset <= o),
            None => true,
        }
    }

    /// The record's instant, as the session maps it.
    pub open spec fn spec_render_ts(self, record: Record, base_time: Option<u64>) -> Option<u64> {
        spec_map_timestamp(self.timestamp_mode, record.pts, base_time)
    }

    /// The first valid instant after seeing this record.
    pub open spec fn spec_render_first_valid(self, record: Record, base_time: Option<u64>) -> Option<
        u64,
    > {
        if self.first_valid_time is None {
            self.spec_render_ts(record, base_time)
        } else {
            self.first_valid_time
        }
    }

    /// Whether this record becomes a seek point.
    pub open spec fn spec_render_include(self, record: Record, base_time: Option<u64>) -> bool {
        spec_should_index(
            self.spec_render_ts(record, base_time),
            record.random_access,
            self.last_index_time,
            self.spec_render_first_valid(record, base_time),
            self.index_min_nanos,
            self.index_max_nanos,
        )
    }

    /// Whether this record is written as a discontinuity.
    pub open spec fn spec_render_disc(self, record: Record, base_time: Option<u64>) -> bool {
        spec_discontinuity(
            record.discontinuity,
            self.buffers_written,
            self.spec_render_include(record, base_time),
            self.last_index_time,
        )
    }

    /// Whether appending this record would run past the representable
    /// range of stream offsets or of the record count.
    pub open spec fn spec_render_overflow(self, record: Record, base_time: Option<u64>) -> bool {
        ||| self.data_writer.tail + record.payload@.len() + EVENT_HEADER_SIZE
            * spec_fragment_count(record.payload@.len()) > u64::MAX
        ||| (self.spec_render_include(record, base_time) && self.index_writer.tail
            + INDEX_RECORD_SIZE > u64::MAX)
        ||| self.buffers_written == u64::MAX
    }

    /// The terminal instant after this record: its instant plus its
    /// duration, a zero duration counted as one nanosecond, saturating at
    /// the end of the domain.
    pub open spec fn spec_render_final_ts(self, record: Record, base_time: Option<u64>) -> Option<
        u64,
    > {
        match self.spec_render_ts(record, base_time) {
            Some(t) => {
                let d = match record.duration {
                    Some(d) => if d >= 1 {
                        d
                    } else {
                        1
                    },
                    None => 1,
                };
                if t + d <= u64::MAX {
                    Some((t + d) as u64)
                } else {
                    Some(u64::MAX)
                }
            },
            None => self.final_timestamp,
        }
    }

    /// A fresh session over writers opened at the streams' tails, with the
    /// intervals already validated against each other.
    pub fn begin(
        timestamp_mode: TimestampMode,
        index_min_nanos: u64,
        index_max_nanos: u64,
        seal_on_stop: bool,
        data_tail: u64,
        index_tail: u64,
    ) -> (s: Self)
        requires
            index_min_nanos <= index_max_nanos,
        ensures
            s.wf(),
            s.timestamp_mode == timestamp_mode,
            s.index_min_nanos == index_min_nanos,
            s.index_max_nanos == index_max_nanos,
            s.seal_on_stop == seal_on_stop,
            s.active,
            s.first_valid_time is None,
            s.last_index_time is None,
            s.final_timestamp is None,
            s.final_offset is None,
            s.buffers_written == 0,
            s.data_writer.tail == data_tail,
            s.data_writer.durable == data_tail,
            s.index_writer.tail == index_tail,
            s.index_writer.durable == index_tail,
            s.index_log@ == Seq::<IndexRecord>::empty(),
    {
        SinkSession {
            timestamp_mode,
            index_min_nanos,
            index_max_nanos,
            seal_on_stop,
            active: true,
            first_valid_time: None,
            last_index_time: None,
            final_timestamp: None,
            final_offset: None,
            buffers_written: 0,
            data_writer: StreamWriter::open_at(0, data_tail),
            index_writer: StreamWriter::open_at(0, index_tail),
            index_log: Ghost(Seq::empty()),
        }
    }

    /// Ingests one record: decides its seek point and discontinuity,
    /// frames and fragments its payload, appends to both stream models,
    /// and returns the adapter's plan.  Fails only when an append would
    /// overflow the offset domain, and then changes nothing.
    pub fn render(&mut self, record: &Record, base_time: Option<u64>) -> (r: Result<
        RenderPlan,
        RenderError,
    >)
        requires
            old(self).wf(),
            old(self).active,
        ensures
            match r {
                Err(e) => {
                    &&& e == RenderError::PositionOverflow
                    &&& old(self).spec_render_overflow(*record, base_time)
                    &&& *final(self) == *old(self)
                },
                Ok(plan) => {
                    &&& !old(self).spec_render_overflow(*record, base_time)
                    &&& final(self).wf()
                    // what the plan says
                    &&& plan.timestamp == old(self).spec_render_ts(*record, base_time)
                    &&& plan.include_in_index == old(self).spec_render_include(*record, base_time)
                    &&& plan.discontinuity == old(self).spec_render_disc(*record, base_time)
                    &&& plan.flush_before == plan.include_in_index
                    &&& plan.sync_after == record.sync_after
                    &&& (plan.include_in_index ==> (plan.index_record_bytes matches Some(b)
                        && b@ == spec_encode_record(
                        IndexRecord {
                            timestamp: old(self).spec_render_ts(*record, base_time)->0,
                            offset: old(self).data_writer.tail,
                            random_access: record.random_access,
                            discontinuity: old(self).spec_render_disc(*record, base_time),
                        },
                    )))
                    &&& (!plan.include_in_index ==> plan.index_record_bytes is None)
                    &&& plan.data_frames@.len() == spec_fragment_count(record.payload@.len())
                    &&& forall|k: int|
                        0 <= k < plan.data_frames@.len() ==> (#[trigger] plan.data_frames@[k])@
                            == spec_encode_fragment(
                            record.payload@,
                            old(self).spec_render_ts(*record, base_time),
                            old(self).spec_render_include(*record, base_time),
                            record.random_access,
                            old(self).spec_render_disc(*record, base_time),
                            k,
                        )
                    // how the session state moved
                    &&& final(self).timestamp_mode == old(self).timestamp_mode
                    &&& final(self).index_min_nanos == old(self).index_min_nanos
                    &&& final(self).index_max_nanos == old(self).index_max_nanos
                    &&& final(self).seal_on_stop == old(self).seal_on_stop
                    &&& final(self).active
                    &&& final(self).first_valid_time == old(self).spec_render_first_valid(
                        *record,
                        base_time,
                    )
                    &&& final(self).last_index_time == if plan.include_in_index {
                        plan.timestamp
                    } else {
                        old(self).last_index_time
                    }
                    &&& final(self).buffers_written == old(self).buffers_written + 1
                    &&& final(self).final_timestamp == old(self).spec_render_final_ts(
                        *record,
                        base_time,
                    )
                    &&& final(self).final_offset == Some(final(self).data_writer.tail)
                    // how the index stream moved
                    &&& final(self).index_log@ == if plan.include_in_index {
                        old(self).index_log@.push(
                            IndexRecord {
                                timestamp: old(self).spec_render_ts(*record, base_time)->0,
                                offset: old(self).data_writer.tail,
                                random_access: record.random_access,
                                discontinuity: old(self).spec_render_disc(*record, base_time),
                            },
                        )
                    } else {
                        old(self).index_log@
                    }
                    &&& final(self).index_writer.tail == old(self).index_writer.tail + (
                    if plan.include_in_index {
                        INDEX_RECORD_SIZE as int
                    } else {
                        0
                    })
                    &&& final(self).index_writer.durable == if record.sync_after {
                        final(self).index_writer.tail
                    } else if plan.include_in_index {
                        old(self).index_writer.tail
                    } else {
                        old(self).index_writer.durable
                    }
                    // how the data stream moved: exactly the record's
                    // framed fragments, appended in order
                    &&& final(self).data_writer.appended@ == old(self).data_writer.appended@
                        + spec_encode_fragments_upto(
                        record.payload@,
                        old(self).spec_render_ts(*record, base_time),
                        old(self).spec_render_include(*record, base_time),
                        record.random_access,
                        old(self).spec_render_disc(*record, base_time),
                        spec_fragment_count(record.payload@.len()) as int,
                    )
                    &&& final(self).data_writer.tail == old(self).data_writer.tail
                        + record.payload@.len() + EVENT_HEADER_SIZE * spec_fragment_count(
                        record.payload@.len(),
                    )
                    &&& (record.payload@.len() > 0 ==> final(self).data_writer.tail > old(
                        self,
                    ).data_writer.tail)
                    &&& final(self).data_writer.head == old(self).data_writer.head
                    &&& final(self).data_writer.durable == if record.sync_after {
                        final(self).data_writer.tail
                    } else if plan.include_in_index {
                        old(self).data_writer.tail
                    } else {
                        old(self).data_writer.durable
                    }
                    // the index stream's offsets stay strictly increasing as
                    // long as data kept arriving between seek points
                    &&& (offsets_strictly_increasing(old(self).index_log@) && (
                    plan.include_in_index ==> (old(self).index_log@.len() == 0 || old(
                        self,
                    ).data_writer.tail > old(self).index_log@.last().offset))
                        ==> offsets_strictly_increasing(final(self).index_log@))
                },
            },
    {
        let ts = map_timestamp(self.timestamp_mode, record.pts, base_time);
        let new_first_valid = if self.first_valid_time.is_none() {
            ts
        } else {
            self.first_valid_time
        };
        let indexed = should_index(
            ts,
            record.random_access,
            self.last_index_time,
            new_first_valid,
            self.index_min_nanos,
            self.index_max_nanos,
        );
        let disc = compute_discontinuity(
            record.discontinuity,
            self.buffers_written,
            indexed,
            self.last_index_time,
        );
        let frags = fragment_event(&record.payload, ts, indexed, record.random_access, disc);

        // Everything below appends; make sure no position can overflow,
        // and fail without touching any state if one could.
        let total_bytes: u128 = record.payload.len() as u128 + (EVENT_HEADER_SIZE as u128) * (
        frags.len() as u128);
        if (self.data_writer.tail as u128) + total_bytes > (u64::MAX as u128) {
            return Err(RenderError::PositionOverflow);
        }
        if indexed && self.index_writer.tail > u64::MAX - (INDEX_RECORD_SIZE as u64) {
            return Err(RenderError::PositionOverflow);
        }
        if self.buffers_written == u64::MAX {
            return Err(RenderError::PositionOverflow);
        }
        proof {
            lemma_encode_frames_len(frags@);
        }

        self.first_valid_time = new_first_valid;
        let writer_offset = self.data_writer.current_offset();

        // A seek point must never lead a reader to data that is not yet
        // durable: flush both streams before appending the index record.
        let index_record_bytes: Option<Vec<u8>> = if indexed {
            self.data_writer.flush();
            self.index_writer.flush();
            // a record without an instant is never indexed
            let ts_val = ts.unwrap();
            let rec = IndexRecord::new(ts_val, writer_offset, record.random_access, disc);
            let bytes = rec.encode();
            self.index_writer.write(&bytes);
            proof {
                lemma_encode_records_push(self.index_log@, rec);
                self.index_log@ = self.index_log@.push(rec);
            }
            self.last_index_time = Some(ts_val);
            Some(bytes)
        } else {
            None
        };

        // Append the payload as framed fragments, each one atomic write.
        let ghost mid = *self;
        let mut data_frames: Vec<Vec<u8>> = Vec::new();
        let mut k: usize = 0;
        proof {
            assert(frags@.take(0) =~= Seq::<crate::event::EventWithHeader>::empty());
            assert(mid.data_writer.appended@ + spec_encode_frames(frags@.take(0))
                =~= mid.data_writer.appended@);
        }
        while k < frags.len()
            invariant
                k <= frags@.len(),
                self.data_writer.wf(),
                !self.data_writer.sealed,
                self.data_writer.appended@ == mid.data_writer.appended@ + spec_encode_frames(
                    frags@.take(k as int),
                ),
                self.data_writer.tail == mid.data_writer.tail + spec_encode_frames(
                    frags@.take(k as int),
                ).len(),
                mid.data_writer.tail + spec_encode_frames(frags@).len() <= u64::MAX,
                self.data_writer.head == mid.data_writer.head,
                self.data_writer.durable == mid.data_writer.durable,
                self.data_writer.opened_at == mid.data_writer.opened_at,
                self.timestamp_mode == mid.timestamp_mode,
                self.index_min_nanos == mid.index_min_nanos,
                self.index_max_nanos == mid.index_max_nanos,
                self.seal_on_stop == mid.seal_on_stop,
                self.active == mid.active,
                self.first_valid_time == mid.first_valid_time,
                self.last_index_time == mid.last_index_time,
                self.final_timestamp == mid.final_timestamp,
                self.final_offset == mid.final_offset,
                self.buffers_written == mid.buffers_written,
                self.index_writer == mid.index_writer,
                self.index_log@ == mid.index_log@,
                data_frames@.len() == k,
                forall|j: int|
                    0 <= j < k ==> (#[trigger] data_frames@[j])@ == spec_encode_event(frags@[j]),
                forall|j: int|
                    0 <= j < frags@.len() ==> (#[trigger] frags@[j]).payload@.len()
                        <= crate::event::MAX_PAYLOAD_SIZE,
            decreases frags@.len() - k,
        {
            let frame = frags[k].encode();
            proof {
                lemma_encode_frames_take(frags@, k as int);
                lemma_encode_frames_take_len_le(frags@, k as int + 1);
            }
            self.data_writer.write(&frame);
            data_frames.push(frame);
            k = k + 1;
            proof {
                assert(self.data_writer.appended@ =~= mid.data_writer.appended@
                    + spec_encode_frames(frags@.take(k as int)));
            }
        }
        proof {
            assert(frags@.take(frags@.len() as int) =~= frags@);
            lemma_frames_encode_fragments(
                frags@,
                record.payload@,
                ts,
                indexed,
                record.random_access,
                disc,
                frags@.len() as int,
            );
        }

        if record.sync_after {
            self.data_writer.flush();
            self.index_writer.flush();
        }

        self.buffers_written = self.buffers_written + 1;
        match ts {
            Some(t) => {
                let d = match record.duration {
                    Some(d) => if d >= 1 {
                        d
                    } else {
                        1
                    },
                    None => 1,
                };
                self.final_timestamp = Some(t.saturating_add(d));
            },
            None => {},
        }
        self.final_offset = Some(self.data_writer.current_offset());

        Ok(
            RenderPlan {
                timestamp: ts,
                include_in_index: indexed,
                discontinuity: disc,
                flush_before: indexed,
                index_record_bytes,
                data_frames,
                sync_after: record.sync_after,
            },
        )
    }

    /// Ends the session: synthesizes the terminal index record from the
    /// last record's instant and final write position, flushes both
    /// streams, and seals them when configured to.  Fails only when the
    /// terminal index append would overflow the offset domain, and then
    /// changes nothing.
    pub fn stop(&mut self) -> (r: Result<StopPlan, RenderError>)
        requires
            old(self).wf(),
            old(self).active,
        ensures
            match r {
                Err(e) => {
                    &&& e == RenderError::PositionOverflow
                    &&& old(self).final_timestamp is Some && old(self).final_offset is Some && old(
                        self,
                    ).index_writer.tail + INDEX_RECORD_SIZE > u64::MAX
                    &&& *final(self) == *old(self)
                },
                Ok(plan) => {
                    &&& !final(self).active
                    &&& plan.seal_streams == old(self).seal_on_stop
                    &&& final(self).data_writer.sealed == old(self).seal_on_stop
                    &&& final(self).index_writer.sealed == old(self).seal_on_stop
                    &&& (old(self).final_timestamp is Some && old(self).final_offset is Some
                        ==> (plan.final_index_record_bytes matches Some(b) && b@
                        == spec_encode_record(
                        IndexRecord {
                            timestamp: old(self).final_timestamp->0,
                            offset: old(self).final_offset->0,
                            random_access: false,
                            discontinuity: false,
                        },
                    ) && final(self).index_log@ == old(self).index_log@.push(
                        IndexRecord {
                            timestamp: old(self).final_timestamp->0,
                            offset: old(self).final_offset->0,
                            random_access: false,
                            discontinuity: false,
                        },
                    )))
                    &&& (!(old(self).final_timestamp is Some && old(self).final_offset is Some)
                        ==> plan.final_index_record_bytes is None && final(self).index_log@ == old(
                        self,
                    ).index_log@)
                    // both streams end flushed: everything appended is durable
                    &&& final(self).data_writer.durable == final(self).data_writer.tail
                    &&& final(self).index_writer.durable == final(self).index_writer.tail
                    &&& final(self).data_writer.tail == old(self).data_writer.tail
                    &&& final(self).index_writer.tail == old(self).index_writer.tail + (
                    if old(self).final_timestamp is Some && old(self).final_offset is Some {
                        INDEX_RECORD_SIZE as int
                    } else {
                        0
                    })
                    // the invariant survives whenever the terminal instant
                    // did not regress behind the last seek point
                    &&& (old(self).index_log@.len() == 0 || old(self).final_timestamp is None
                        || old(self).final_offset is None || old(self).index_log@.last().timestamp
                        <= old(self).final_timestamp->0 ==> final(self).wf())
                },
            },
    {
        if self.final_timestamp.is_some() && self.final_offset.is_some() {
            if self.index_writer.tail > u64::MAX - (INDEX_RECORD_SIZE as u64) {
                return Err(RenderError::PositionOverflow);
            }
        }
        self.data_writer.flush();
        let final_index_record_bytes: Option<Vec<u8>> = match (self.final_timestamp, self
            .final_offset) {
            (Some(t), Some(o)) => {
                let rec = IndexRecord::new(t, o, false, false);
                let bytes = rec.encode();
                self.index_writer.write(&bytes);
                proof {
                    lemma_encode_records_push(self.index_log@, rec);
                    self.index_log@ = self.index_log@.push(rec);
                }
                self.last_index_time = Some(t);
                Some(bytes)
            },
            _ => None,
        };
        self.index_writer.flush();
        if self.seal_on_stop {
            self.data_writer.seal();
            self.index_writer.seal();
        }
        self.active = false;
        Ok(StopPlan { final_index_record_bytes, seal_streams: self.seal_on_stop })
    }
}

} // verus!
