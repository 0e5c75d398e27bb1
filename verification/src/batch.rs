//! The batch writer's decision core: the pending batch with its dual
//! size/time flush trigger, the multi-row insert statement text, and the
//! positional parameter list bound for one commit.
//!
//! The writer thread itself (channel receive with a bounded timeout,
//! executing the statement on the store connection) runs outside this
//! crate; each receive attempt hands its outcome and the current
//! wall-clock time to [`PendingBatch::on_receive`], which decides whether
//! to flush and hands back the rows to commit.

use vstd::prelude::*;
use crate::record::Row;

verus! {

/// A full batch flushes immediately at this many records.
pub const BATCH_SIZE: usize = 1000;

/// A non-empty batch older than this (milliseconds since the last flush)
/// flushes partially, so sparse traffic is never held indefinitely.
pub const MAX_WRITE_INTERVAL_MS: u64 = 10000;

/// Bound on the writer's blocking receive, in milliseconds, so a stop
/// request is observed promptly even when no records arrive.
pub const RECEIVE_TIMEOUT_MS: u64 = 2000;

/// The ordered records awaiting one durable commit, together with the
/// time of the last flush, which drives the time-based trigger.
pub struct PendingBatch {
    rows: Vec<Row>,
    last_write_ms: u64,
}

impl PendingBatch {
    /// The records currently awaiting commit, in arrival order.
    pub closed spec fn pending(self) -> Seq<Row> {
        self.rows@
    }

    /// Wall-clock time (ms) of the last flush, or of construction.
    pub closed spec fn last_write(self) -> u64 {
        self.last_write_ms
    }

    /// Between receive attempts the batch is always strictly below the
    /// size threshold: reaching it triggers an immediate flush.
    pub open spec fn wf(self) -> bool {
        self.pending().len() < BATCH_SIZE
    }

    /// An empty batch whose flush clock starts now.
    pub fn new(now_ms: u64) -> (b: PendingBatch)
        ensures
            b.wf(),
            b.pending() == Seq::<Row>::empty(),
            b.last_write() == now_ms,
    {
        PendingBatch { rows: Vec::new(), last_write_ms: now_ms }
    }

    /// Number of records currently awaiting commit.
    pub fn len(&self) -> (n: usize)
        ensures
            n == self.pending().len(),
    {
        self.rows.len()
    }

    /// Wall-clock time (ms) of the last flush, or of construction.
    pub fn last_write_ms(&self) -> (t: u64)
        ensures
            t == self.last_write(),
    {
        self.last_write_ms
    }

    /// One step of the writer loop, after a receive attempt: append the
    /// received record, if any, then apply the dual flush trigger. A full
    /// batch (size threshold) flushes immediately; otherwise a non-empty
    /// batch flushes once the time since the last flush has reached the
    /// interval bound. A flush empties the batch, resets the flush clock
    /// to `now_ms`, and returns every pending row, in order, for the
    /// caller to commit as one statement.
    pub fn on_receive(&mut self, received: Option<Row>, now_ms: u64) -> (flushed: Option<
        Vec<Row>,
    >)
        requires
            old(self).wf(),
            now_ms >= old(self).last_write(),
        ensures
            final(self).wf(),
            ({
                let queued = match received {
                    Some(r) => old(self).pending().push(r),
                    None => old(self).pending(),
                };
                let due = now_ms - old(self).last_write() >= MAX_WRITE_INTERVAL_MS;
                match flushed {
                    Some(rows) => {
                        &&& rows@ == queued
                        &&& queued.len() == BATCH_SIZE || (queued.len() > 0 && due)
                        &&& final(self).pending() == Seq::<Row>::empty()
                        &&& final(self).last_write() == now_ms
                    },
                    None => {
                        &&& queued.len() < BATCH_SIZE
                        &&& !(queued.len() > 0 && due)
                        &&& final(self).pending() == queued
                        &&& final(self).last_write() == old(self).last_write()
                    },
                }
            }),
    {
        if let Some(r) = received {
            self.rows.push(r);
        }
        if self.rows.len() == BATCH_SIZE {
            self.last_write_ms = now_ms;
            Some(self.take_rows())
        } else if self.rows.len() > 0 && now_ms - self.last_write_ms >= MAX_WRITE_INTERVAL_MS {
            self.last_write_ms = now_ms;
            Some(self.take_rows())
        } else {
            None
        }
    }

    /// Unconditional shutdown drain: hand back whatever is pending, in
    /// order, leaving the batch empty. The caller commits the rows (if
    /// any) before the writer terminates, so a clean stop loses nothing.
    pub fn drain(&mut self) -> (rows: Vec<Row>)
        requires
            old(self).wf(),
        ensures
            final(self).wf(),
            rows@ == old(self).pending(),
            final(self).pending() == Seq::<Row>::empty(),
            final(self).last_write() == old(self).last_write(),
    {
        self.take_rows()
    }

    /// Swap the pending rows out for an empty vector.
    fn take_rows(&mut self) -> (rows: Vec<Row>)
        ensures
            rows@ == old(self).pending(),
            final(self).pending() == Seq::<Row>::empty(),
            final(self).last_write() == old(self).last_write(),
    {
        let mut out: Vec<Row> = Vec::new();
        core::mem::swap(&mut out, &mut self.rows);
        out
    }
}

} // verus!
