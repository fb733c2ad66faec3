//! The durable writer's decisions: when a packet is buffered or merged, and
//! when the store is written to. The task that owns a writer waits for
//! packets and timer ticks and hands each to it.

use vstd::prelude::*;
use crate::aggregate::{absorbed, window_has_room, BucketTable};
use crate::state::{packet_views, BucketView, PacketMetadata, PacketView};
use crate::storage::{FlushOutcome, FlushReport, Storage};

verus! {

/// Packets that the raw writer buffers before it flushes without waiting
/// for the timer.
pub const RAW_BATCH: usize = 1000;

/// Seconds between the raw writer's timer ticks.
pub const RAW_TICK_SECONDS: u64 = 2;

/// The report accounts for the whole batch: once the transaction was begun
/// and the insert prepared, every packet or bucket of the batch was left
/// out for want of a row, stored, or refused by the database; before that,
/// none was stored or refused. The report names no error exactly when the
/// batch was committed.
pub open spec fn accounted(report: FlushReport) -> bool {
    &&& report.unfit <= report.batch
    &&& report.outcome == FlushOutcome::Committed || report.outcome == FlushOutcome::CommitFailed
        ==> report.unfit + report.stored + report.refused == report.batch
    &&& report.outcome == FlushOutcome::BeginFailed || report.outcome
        == FlushOutcome::PrepareFailed ==> report.stored == 0 && report.refused == 0
    &&& report.outcome == FlushOutcome::Committed <==> report.error is None
}

/// The writer's memory between flushes: the buffered packets of raw mode,
/// or the buckets of the current window of aggregated mode.
pub struct Writer {
    window_seconds: u64,
    buffer: Vec<PacketMetadata>,
    buckets: BucketTable,
}

impl Writer {
    /// The aggregation window in seconds; zero stands for raw mode.
    pub closed spec fn window(&self) -> u64 {
        self.window_seconds
    }

    /// The packets buffered since the last flush, oldest first.
    pub closed spec fn pending(&self) -> Seq<PacketView> {
        packet_views(self.buffer@)
    }

    /// The buckets of the current window, in order of first arrival.
    pub closed spec fn buckets(&self) -> Seq<BucketView> {
        self.buckets@
    }

    /// The writer's invariant: raw mode holds no buckets and fewer packets
    /// than a full batch; aggregated mode holds no packets.
    pub closed spec fn wf(&self) -> bool {
        &&& self.buckets.wf()
        &&& self.buffer@.len() < RAW_BATCH
        &&& self.window_seconds == 0 ==> self.buckets@.len() == 0
        &&& self.window_seconds != 0 ==> self.buffer@.len() == 0
    }

    /// The packet fits the counters of its flow's bucket. Raw mode has room
    /// for every packet.
    pub open spec fn has_room(&self, p: PacketView) -> bool {
        self.window() != 0 ==> window_has_room(self.buckets(), p)
    }

    /// A writer with nothing in memory: raw where the window is zero,
    /// aggregating over windows of that many seconds otherwise.
    pub fn new(aggregation_window_seconds: u64) -> (writer: Writer)
        ensures
            writer.wf(),
            writer.window() == aggregation_window_seconds,
            writer.pending().len() == 0,
            writer.buckets().len() == 0,
    {
        Writer {
            window_seconds: aggregation_window_seconds,
            buffer: Vec::new(),
            buckets: BucketTable::new(),
        }
    }

    /// Whether the writer aggregates.
    pub fn is_aggregating(&self) -> (aggregating: bool)
        ensures
            aggregating == (self.window() != 0),
    {
        self.window_seconds != 0
    }

    /// Seconds between timer ticks: two in raw mode, the window otherwise.
    pub fn tick_seconds(&self) -> (seconds: u64)
        ensures
            seconds == if self.window() == 0 {
                RAW_TICK_SECONDS
            } else {
                self.window()
            },
    {
        if self.window_seconds == 0 {
            RAW_TICK_SECONDS
        } else {
            self.window_seconds
        }
    }

    /// Number of packets buffered.
    pub fn pending_len(&self) -> (n: usize)
        ensures
            n == self.pending().len(),
    {
        self.buffer.len()
    }

    /// Number of buckets in the current window.
    pub fn bucket_count(&self) -> (n: usize)
        ensures
            n == self.buckets().len(),
    {
        self.buckets.len()
    }

    /// Whether the packet fits the counters of its flow's bucket.
    pub fn can_accept(&self, packet: &PacketMetadata) -> (fits: bool)
        requires
            self.wf(),
        ensures
            fits == self.has_room(packet@),
    {
        if self.window_seconds == 0 {
            true
        } else {
            self.buckets.can_accept(packet)
        }
    }

    /// Takes one packet. In raw mode it joins the buffer, and the buffer is
    /// flushed when it reaches a full batch. In aggregated mode it is
    /// merged into the window and nothing is written.
    pub fn on_packet(&mut self, storage: &mut Storage, packet: PacketMetadata) -> (flushed: Option<
        FlushReport,
    >)
        requires
            old(self).wf(),
            old(self).has_room(packet@),
        ensures
            final(self).wf(),
            final(self).window() == old(self).window(),
            old(self).window() == 0 && old(self).pending().len() + 1 < RAW_BATCH ==> flushed is None
                && final(self).pending() == old(self).pending().push(packet@),
            old(self).window() == 0 && old(self).pending().len() + 1 >= RAW_BATCH ==> flushed is Some
                && flushed->0.batch == RAW_BATCH && final(self).pending().len() == 0,
            old(self).window() != 0 ==> flushed is None && final(self).buckets() == absorbed(
                old(self).buckets(),
                packet@,
            ),
            final(self).window() == 0 ==> final(self).buckets().len() == 0,
            final(self).window() != 0 ==> final(self).pending().len() == 0,
            flushed matches Some(report) ==> accounted(report),
    {
        if self.window_seconds == 0 {
            self.buffer.push(packet);
            if self.buffer.len() >= RAW_BATCH {
                Some(storage.flush(&mut self.buffer))
            } else {
                None
            }
        } else {
            self.buckets.upsert(&packet);
            None
        }
    }

    /// Takes one timer tick: what is in memory is written, and memory is
    /// cleared. With nothing in memory the store is left alone.
    pub fn on_tick(&mut self, storage: &mut Storage) -> (flushed: Option<FlushReport>)
        requires
            old(self).wf(),
        ensures
            final(self).wf(),
            final(self).window() == old(self).window(),
            final(self).pending().len() == 0,
            final(self).buckets().len() == 0,
            match flushed {
                Some(report) => report.batch > 0 && report.batch == old(self).pending().len()
                    + old(self).buckets().len(),
                None => old(self).pending().len() == 0 && old(self).buckets().len() == 0,
            },
            flushed matches Some(report) ==> accounted(report),
    {
        if self.window_seconds == 0 {
            if self.buffer.len() > 0 {
                Some(storage.flush(&mut self.buffer))
            } else {
                None
            }
        } else {
            if !self.buckets.is_empty() {
                Some(storage.flush_aggregated(&mut self.buckets))
            } else {
                None
            }
        }
    }
}

} // verus!
