//! The append-only writer model: the state of one remote byte stream as a
//! writer handle sees it — truncation head, durability barrier, logical
//! tail and seal — together with the bytes this session has appended.
//!
//! The unverified adapter mirrors every operation onto the storage
//! service's real handle; the model is what the write path's guarantees
//! are stated over.

use vstd::prelude::*;

verus! {

/// One append-only byte stream, as seen through a writer handle.
pub struct StreamWriter {
    /// All bytes before this offset have been discarded by truncation.
    pub head: u64,
    /// All bytes before this offset are durable and visible to readers;
    /// only `flush` moves it.
    pub durable: u64,
    /// The logical tail: the offset at which the next append lands.
    pub tail: u64,
    /// The tail at which this handle was opened; appends of this session
    /// begin here.
    pub opened_at: u64,
    /// True once the stream accepts no further appends, in this or any
    /// future session.
    pub sealed: bool,
    /// The bytes appended through this handle, starting at `opened_at`.
    pub appended: Ghost<Seq<u8>>,
}

impl StreamWriter {
    /// The model invariant: the head, the durability barrier and the
    /// session's opening point never pass the tail, and the session's
    /// appended bytes span exactly from the opening point to the tail.
    pub open spec fn wf(self) -> bool {
        &&& self.head <= self.tail
        &&& self.durable <= self.tail
        &&& self.opened_at <= self.tail
        &&& self.appended@.len() == self.tail - self.opened_at
    }

    /// Opens a writer positioned at the stream's current tail, the only
    /// position an append-only stream allows.  The head reported by the
    /// service is at most the tail.
    pub fn open_at(head: u64, tail: u64) -> (w: Self)
        requires
            head <= tail,
        ensures
            w.wf(),
            w.head == head,
            w.durable == tail,
            w.tail == tail,
            w.opened_at == tail,
            !w.sealed,
            w.appended@ == Seq::<u8>::empty(),
    {
        StreamWriter {
            head,
            durable: tail,
            tail,
            opened_at: tail,
            sealed: false,
            appended: Ghost(Seq::empty()),
        }
    }

    /// The writer's logical tail position: the offset the next append
    /// receives, used as the candidate index offset.
    pub fn current_offset(&self) -> (r: u64)
        ensures
            r == self.tail,
    {
        self.tail
    }

    /// Buffers `bytes` for appending at the tail.  The bytes are not
    /// durable or visible to readers until the next flush.
    pub fn write(&mut self, bytes: &Vec<u8>)
        requires
            old(self).wf(),
            !old(self).sealed,
            old(self).tail + bytes@.len() <= u64::MAX,
        ensures
            final(self).wf(),
            final(self).tail == old(self).tail + bytes@.len(),
            final(self).appended@ == old(self).appended@ + bytes@,
            final(self).head == old(self).head,
            final(self).durable == old(self).durable,
            final(self).opened_at == old(self).opened_at,
            final(self).sealed == old(self).sealed,
    {
        proof {
            self.appended@ = self.appended@ + bytes@;
        }
        self.tail = self.tail + bytes.len() as u64;
    }

    /// The durability barrier: after it, every byte appended so far is
    /// persistent and visible to readers.
    pub fn flush(&mut self)
        requires
            old(self).wf(),
        ensures
            final(self).wf(),
            final(self).durable == old(self).tail,
            final(self).tail == old(self).tail,
            final(self).head == old(self).head,
            final(self).opened_at == old(self).opened_at,
            final(self).sealed == old(self).sealed,
            final(self).appended@ == old(self).appended@,
    {
        self.durable = self.tail;
    }

    /// Irrevocably discards all bytes before `offset`, which must lie at or
    /// before the tail; called only by the retention maintainer.  Bytes
    /// already truncated stay truncated.
    pub fn truncate_before(&mut self, offset: u64)
        requires
            old(self).wf(),
            offset <= old(self).tail,
        ensures
            final(self).wf(),
            final(self).head == if offset >= old(self).head {
                offset
            } else {
                old(self).head
            },
            final(self).durable == old(self).durable,
            final(self).tail == old(self).tail,
            final(self).opened_at == old(self).opened_at,
            final(self).sealed == old(self).sealed,
            final(self).appended@ == old(self).appended@,
    {
        if offset >= self.head {
            self.head = offset;
        }
    }

    /// Marks the stream read-only: no append is accepted after this, in
    /// this or any future session.
    pub fn seal(&mut self)
        requires
            old(self).wf(),
        ensures
            final(self).wf(),
            final(self).sealed,
            final(self).head == old(self).head,
            final(self).durable == old(self).durable,
            final(self).tail == old(self).tail,
            final(self).opened_at == old(self).opened_at,
            final(self).appended@ == old(self).appended@,
    {
        self.sealed = true;
    }
}

} // verus!
