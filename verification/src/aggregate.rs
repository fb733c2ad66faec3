//! The aggregation window: one bucket per flow, in the order in which the
//! flows were first seen in the window.

use vstd::prelude::*;
use vstd::hash_map::StringHashMap;
use crate::state::{AggregatedBucket, BucketView, PacketMetadata, PacketView};

verus! {

/// Some bucket of the window belongs to the flow `key`.
pub open spec fn holds(buckets: Seq<BucketView>, key: Seq<char>) -> bool {
    exists|i: int| 0 <= i < buckets.len() && (#[trigger] buckets[i]).key() == key
}

/// The place of the bucket of the flow `key`, where the window holds one.
pub open spec fn slot(buckets: Seq<BucketView>, key: Seq<char>) -> int {
    choose|i: int| 0 <= i < buckets.len() && (#[trigger] buckets[i]).key() == key
}

/// No two buckets of the window belong to the same flow.
pub open spec fn distinct_flows(buckets: Seq<BucketView>) -> bool {
    forall|i: int, j: int|
        0 <= i < j < buckets.len() ==> (#[trigger] buckets[i]).key() != (#[trigger] buckets[j]).key()
}

/// The packet fits the counters of its flow's bucket, where the window
/// holds one.
pub open spec fn window_has_room(buckets: Seq<BucketView>, p: PacketView) -> bool {
    holds(buckets, p.key()) ==> {
        let b = buckets[slot(buckets, p.key())];
        b.packet_count < u64::MAX && b.total_bytes + p.length <= u64::MAX
    }
}

/// The window after one more packet: the packet is merged into the bucket
/// of its flow, or opens a bucket at the end.
pub open spec fn absorbed(buckets: Seq<BucketView>, p: PacketView) -> Seq<BucketView> {
    if holds(buckets, p.key()) {
        let at = slot(buckets, p.key());
        buckets.update(at, buckets[at].merged(p))
    } else {
        buckets.push(BucketView::opened(p))
    }
}

/// The window that a run of packets builds up from nothing.
pub open spec fn aggregated(packets: Seq<PacketView>) -> Seq<BucketView>
    decreases packets.len(),
{
    if packets.len() == 0 {
        Seq::empty()
    } else {
        absorbed(aggregated(packets.drop_last()), packets.last())
    }
}

/// The sum of the lengths of a run of packets.
pub open spec fn total_length(packets: Seq<PacketView>) -> nat
    decreases packets.len(),
{
    if packets.len() == 0 {
        0
    } else {
        total_length(packets.drop_last()) + packets.last().length
    }
}

/// Packets of one flow end up in one bucket that counts them all, sums
/// their lengths, and keeps the time stamp of the one that arrived first.
pub proof fn lemma_aggregation(packets: Seq<PacketView>)
    requires
        packets.len() >= 1,
        forall|i: int| 0 <= i < packets.len() ==> (#[trigger] packets[i]).key() == packets[0].key(),
    ensures
        aggregated(packets).len() == 1,
        aggregated(packets)[0].packet_count == packets.len(),
        aggregated(packets)[0].total_bytes == total_length(packets),
        aggregated(packets)[0].first_timestamp == packets[0].timestamp,
        aggregated(packets)[0].key() == packets[0].key(),
    decreases packets.len(),
{
    let earlier = packets.drop_last();
    if packets.len() == 1 {
        assert(total_length(earlier) == 0);
    } else {
        lemma_aggregation(earlier);
    }
}

/// The buckets of the current window, found by flow key in constant time
/// and kept in the order of first arrival.
pub struct BucketTable {
    index: StringHashMap<usize>,
    buckets: Vec<AggregatedBucket>,
}

impl View for BucketTable {
    type V = Seq<BucketView>;

    closed spec fn view(&self) -> Seq<BucketView> {
        Seq::new(self.buckets@.len(), |i: int| self.buckets@[i]@)
    }
}

impl BucketTable {
    /// The table's invariant: the index knows exactly the flows of the
    /// buckets, each at its place, and no flow has two buckets.
    pub closed spec fn wf(&self) -> bool {
        &&& forall|i: int|
            0 <= i < self.buckets@.len() ==> self.index@.contains_key(
                (#[trigger] self.buckets@[i])@.key(),
            ) && self.index@[self.buckets@[i]@.key()] == i
        &&& forall|k: Seq<char>| #[trigger]
            self.index@.contains_key(k) ==> 0 <= self.index@[k] < self.buckets@.len()
                && self.buckets@[self.index@[k] as int]@.key() == k
    }

    /// The packet fits the counters of its flow's bucket, where the window
    /// holds one.
    pub open spec fn has_room(&self, p: PacketView) -> bool {
        window_has_room(self@, p)
    }

    /// A well-formed table holds each flow once.
    pub proof fn lemma_distinct(&self)
        requires
            self.wf(),
        ensures
            distinct_flows(self@),
    {
    }

    /// A table without buckets.
    pub fn new() -> (table: BucketTable)
        ensures
            table.wf(),
            table@ == Seq::<BucketView>::empty(),
    {
        BucketTable { index: StringHashMap::new(), buckets: Vec::new() }
    }

    /// Number of flows in the window.
    pub fn len(&self) -> (n: usize)
        ensures
            n == self@.len(),
    {
        self.buckets.len()
    }

    /// Whether the window has seen no packet.
    pub fn is_empty(&self) -> (empty: bool)
        ensures
            empty == (self@.len() == 0),
    {
        self.buckets.len() == 0
    }

    /// The bucket at place `i`, in order of first arrival.
    pub fn get(&self, i: usize) -> (bucket: &AggregatedBucket)
        requires
            i < self@.len(),
        ensures
            bucket@ == self@[i as int],
    {
        &self.buckets[i]
    }

    /// Whether the packet fits the counters of its flow's bucket.
    pub fn can_accept(&self, packet: &PacketMetadata) -> (fits: bool)
        requires
            self.wf(),
        ensures
            fits == self.has_room(packet@),
    {
        let key = packet.flow_key();
        proof {
            self.lemma_distinct();
        }
        match self.index.get(key.as_str()) {
            Some(at) => {
                let at: usize = *at;
                assert(self@[at as int].key() == packet@.key());
                let b = &self.buckets[at];
                b.packet_count < u64::MAX && b.total_bytes <= u64::MAX - packet.length as u64
            },
            None => true,
        }
    }

    /// Takes one packet into the window: merged into the bucket of its
    /// flow, or opening a new bucket behind the others.
    pub fn upsert(&mut self, packet: &PacketMetadata)
        requires
            old(self).wf(),
            old(self).has_room(packet@),
        ensures
            final(self).wf(),
            final(self)@ == absorbed(old(self)@, packet@),
    {
        let key = packet.flow_key();
        proof {
            self.lemma_distinct();
        }
        let found: Option<usize> = match self.index.get(key.as_str()) {
            Some(at) => Some(*at),
            None => None,
        };
        match found {
            Some(at) => {
                assert(self@[at as int] == self.buckets@[at as int]@);
                let mut bucket = AggregatedBucket::from_packet(packet);
                core::mem::swap(&mut bucket, &mut self.buckets[at]);
                bucket.merge(packet);
                core::mem::swap(&mut bucket, &mut self.buckets[at]);
            },
            None => {
                let at = self.buckets.len();
                self.buckets.push(AggregatedBucket::from_packet(packet));
                self.index.insert(key, at);
            },
        }
    }

    /// Hands out the buckets of the window, in order of first arrival, and
    /// leaves the table empty for the next window.
    pub fn take_all(&mut self) -> (buckets: Vec<AggregatedBucket>)
        requires
            old(self).wf(),
        ensures
            final(self).wf(),
            final(self)@ == Seq::<BucketView>::empty(),
            buckets@.len() == old(self)@.len(),
            forall|i: int| 0 <= i < buckets@.len() ==> (#[trigger] buckets@[i])@ == old(self)@[i],
    {
        let mut buckets: Vec<AggregatedBucket> = Vec::new();
        core::mem::swap(&mut buckets, &mut self.buckets);
        self.index.clear();
        buckets
    }
}

} // verus!
