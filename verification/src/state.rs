//! The agent's view of traffic: packet metadata, per-flow counters and the
//! per-window summaries of the aggregating writer.

use vstd::prelude::*;
use vstd::string::StringExecFns;
use dashmap::DashMap;
use tokio::time::Instant;
use crate::clock::{clock_origin, nanos_since, wall_clock_millis};
use crate::flow_table::{
    flow_table_contains, flow_table_new, flow_table_remove, flow_table_snapshot,
    flow_table_upsert, flows_of, upserted, FlowMap,
};
use crate::tally::{
    bytes_in, lemma_tally_insert, lemma_tally_remove, packets_in, tally,
};
use crate::event::{PacketEvent, IPPROTO_TCP, IPPROTO_UDP};
use crate::text::{decimal, dotted_quad, format_ipv4, push_decimal};

verus! {

/// The text of an optional string.
pub open spec fn opt_text(o: Option<String>) -> Option<Seq<char>> {
    match o {
        Some(s) => Some(s@),
        None => None,
    }
}

/// The name under which a protocol number is shown and stored.
pub open spec fn protocol_text(protocol: u8) -> Seq<char> {
    if protocol == IPPROTO_TCP {
        "TCP"@
    } else if protocol == IPPROTO_UDP {
        "UDP"@
    } else {
        "IP("@ + decimal(protocol as nat) + ")"@
    }
}

/// The canonical key of a flow: `<src_ip>:<src_port> -> <dst_ip>:<dst_port>`.
/// It is directional: the reverse tuple is another flow.
pub open spec fn flow_key_text(
    src_ip: Seq<char>,
    src_port: u16,
    dst_ip: Seq<char>,
    dst_port: u16,
) -> Seq<char> {
    src_ip + ":"@ + decimal(src_port as nat) + " -> "@ + dst_ip + ":"@ + decimal(dst_port as nat)
}

/// What the agent knows of one packet.
#[derive(Debug)]
pub struct PacketMetadata {
    /// Milliseconds since the Unix epoch, assigned when the event was decoded.
    pub timestamp: i64,
    /// Source address, dotted quad.
    pub src_ip: String,
    /// Destination address, dotted quad.
    pub dst_ip: String,
    /// Source port.
    pub src_port: u16,
    /// Destination port.
    pub dst_port: u16,
    /// `TCP`, `UDP` or `IP(<n>)`.
    pub protocol: String,
    /// Length of the datagram in bytes.
    pub length: usize,
    /// Name of the source host, where enrichment found one.
    pub src_hostname: Option<String>,
    /// Name of the destination host, where enrichment found one.
    pub dst_hostname: Option<String>,
}

/// The mathematical content of a [`PacketMetadata`].
pub struct PacketView {
    pub timestamp: i64,
    pub src_ip: Seq<char>,
    pub dst_ip: Seq<char>,
    pub src_port: u16,
    pub dst_port: u16,
    pub protocol: Seq<char>,
    pub length: nat,
    pub src_hostname: Option<Seq<char>>,
    pub dst_hostname: Option<Seq<char>>,
}

impl PacketView {
    /// The key of the flow that the packet belongs to.
    pub open spec fn key(self) -> Seq<char> {
        flow_key_text(self.src_ip, self.src_port, self.dst_ip, self.dst_port)
    }
}

/// The metadata that an event is lifted to, given the reading of the wall
/// clock at decode time. Host names are left for enrichment to fill in.
pub open spec fn lifted(event: PacketEvent, timestamp: i64) -> PacketView {
    PacketView {
        timestamp,
        src_ip: dotted_quad(event.src_addr),
        dst_ip: dotted_quad(event.dst_addr),
        src_port: event.src_port,
        dst_port: event.dst_port,
        protocol: protocol_text(event.protocol),
        length: event.pkt_len as nat,
        src_hostname: None,
        dst_hostname: None,
    }
}

impl View for PacketMetadata {
    type V = PacketView;

    open spec fn view(&self) -> PacketView {
        PacketView {
            timestamp: self.timestamp,
            src_ip: self.src_ip@,
            dst_ip: self.dst_ip@,
            src_port: self.src_port,
            dst_port: self.dst_port,
            protocol: self.protocol@,
            length: self.length as nat,
            src_hostname: opt_text(self.src_hostname),
            dst_hostname: opt_text(self.dst_hostname),
        }
    }
}

/// The mathematical content of a run of packets.
pub open spec fn packet_views(packets: Seq<PacketMetadata>) -> Seq<PacketView> {
    Seq::new(packets.len(), |i: int| packets[i]@)
}

/// A copy of an optional string.
pub fn copy_opt(o: &Option<String>) -> (r: Option<String>)
    ensures
        r == *o,
        opt_text(r) == opt_text(*o),
{
    match o {
        Some(s) => Some(s.clone()),
        None => None,
    }
}

/// The name of a protocol number: `TCP` for 6, `UDP` for 17, `IP(<n>)` for
/// any other.
pub fn protocol_name(protocol: u8) -> (name: String)
    ensures
        name@ == protocol_text(protocol),
{
    if protocol == IPPROTO_TCP {
        String::from_str("TCP")
    } else if protocol == IPPROTO_UDP {
        String::from_str("UDP")
    } else {
        let mut name = String::from_str("IP(");
        push_decimal(&mut name, protocol as u64);
        name.append(")");
        name
    }
}

/// The canonical key of the flow between two endpoints, source first.
pub fn flow_key(src_ip: &str, src_port: u16, dst_ip: &str, dst_port: u16) -> (key: String)
    ensures
        key@ == flow_key_text(src_ip@, src_port, dst_ip@, dst_port),
{
    let mut key = String::from_str(src_ip);
    key.append(":");
    push_decimal(&mut key, src_port as u64);
    key.append(" -> ");
    key.append(dst_ip);
    key.append(":");
    push_decimal(&mut key, dst_port as u64);
    key
}

impl PacketMetadata {
    /// Lifts an event to metadata, stamped with the wall clock at this
    /// moment. All but the time stamp is a function of the event.
    pub fn from_ebpf(event: &PacketEvent) -> (meta: PacketMetadata)
        ensures
            meta@ == lifted(*event, meta.timestamp),
    {
        let now = wall_clock_millis();
        PacketMetadata::from_event_at(event, now)
    }

    /// Lifts an event to metadata with the given time stamp: the addresses
    /// as dotted quads, the protocol by name, the length as it stands.
    pub fn from_event_at(event: &PacketEvent, timestamp: i64) -> (meta: PacketMetadata)
        ensures
            meta@ == lifted(*event, timestamp),
    {
        PacketMetadata {
            timestamp,
            src_ip: format_ipv4(event.src_addr),
            dst_ip: format_ipv4(event.dst_addr),
            src_port: event.src_port,
            dst_port: event.dst_port,
            protocol: protocol_name(event.protocol),
            length: event.pkt_len as usize,
            src_hostname: None,
            dst_hostname: None,
        }
    }

    /// The canonical key of the packet's flow.
    pub fn flow_key(&self) -> (key: String)
        ensures
            key@ == self@.key(),
    {
        flow_key(self.src_ip.as_str(), self.src_port, self.dst_ip.as_str(), self.dst_port)
    }
}

impl Clone for PacketMetadata {
    fn clone(&self) -> (copy: PacketMetadata)
        ensures
            copy@ == self@,
    {
        PacketMetadata {
            timestamp: self.timestamp,
            src_ip: self.src_ip.clone(),
            dst_ip: self.dst_ip.clone(),
            src_port: self.src_port,
            dst_port: self.dst_port,
            protocol: self.protocol.clone(),
            length: self.length,
            src_hostname: copy_opt(&self.src_hostname),
            dst_hostname: copy_opt(&self.dst_hostname),
        }
    }
}

/// Counters of one live flow.
#[derive(Clone, Copy, Debug, PartialEq, Eq)]
pub struct ConnectionStats {
    /// Bytes seen in the flow's direction.
    pub bytes_sent: u64,
    /// Reserved: the flow key is directional, so nothing is counted here.
    pub bytes_received: u64,
    /// Packets seen.
    pub packets_count: u64,
    /// Reading of the monotonic clock, in nanoseconds, at the latest packet.
    pub last_seen: u64,
}

impl ConnectionStats {
    /// What a flow's record is after its first packet.
    pub open spec fn opened(length: u64, now: u64) -> ConnectionStats {
        ConnectionStats { bytes_sent: length, bytes_received: 0, packets_count: 1, last_seen: now }
    }

    /// What a flow's record is after one more packet.
    pub open spec fn advanced(self, length: u64, now: u64) -> ConnectionStats {
        ConnectionStats {
            bytes_sent: (self.bytes_sent + length) as u64,
            bytes_received: self.bytes_received,
            packets_count: (self.packets_count + 1) as u64,
            last_seen: now,
        }
    }

    /// One more packet of the given length fits the counters.
    pub open spec fn has_room(self, length: u64) -> bool {
        self.packets_count < u64::MAX && self.bytes_sent + length <= u64::MAX
    }

    /// The record counts at least one packet, and no fewer bytes than its
    /// packets' minimal headers add up to.
    pub open spec fn meets_minimum(self) -> bool {
        self.packets_count >= 1 && self.bytes_sent >= self.packets_count * 20
    }

    /// The record of a flow seen for the first time.
    pub fn first(length: u64, now: u64) -> (stats: ConnectionStats)
        ensures
            stats == ConnectionStats::opened(length, now),
    {
        ConnectionStats { bytes_sent: length, bytes_received: 0, packets_count: 1, last_seen: now }
    }

    /// Counts one more packet and refreshes the time of the last sighting.
    pub fn record(&mut self, length: u64, now: u64)
        requires
            old(self).has_room(length),
        ensures
            *final(self) == old(self).advanced(length, now),
            final(self).packets_count == old(self).packets_count + 1,
            final(self).bytes_sent == old(self).bytes_sent + length,
    {
        self.packets_count = self.packets_count + 1;
        self.bytes_sent = self.bytes_sent + length;
        self.last_seen = now;
    }

    /// Whether the flow has been silent for longer than `timeout`, both in
    /// nanoseconds. A flow seen after `now` counts as seen at `now`.
    pub fn is_stale(&self, now: u64, timeout: u64) -> (stale: bool)
        ensures
            stale == stale_at(*self, now, timeout),
    {
        now > self.last_seen && now - self.last_seen > timeout
    }
}

/// A flow is stale when more than `timeout` has passed since its last
/// packet: exactly `timeout` is not yet stale.
pub open spec fn stale_at(stats: ConnectionStats, now: u64, timeout: u64) -> bool {
    now - stats.last_seen > timeout
}

/// Summary of one flow over one aggregation window.
#[derive(Debug)]
pub struct AggregatedBucket {
    /// Time stamp of the window's first packet of the flow.
    pub first_timestamp: i64,
    pub src_ip: String,
    pub dst_ip: String,
    pub src_port: u16,
    pub dst_port: u16,
    pub protocol: String,
    /// Packets merged into the bucket.
    pub packet_count: u64,
    /// Sum of their lengths.
    pub total_bytes: u64,
    pub src_hostname: Option<String>,
    pub dst_hostname: Option<String>,
}

/// The mathematical content of an [`AggregatedBucket`], with unbounded
/// counters.
pub struct BucketView {
    pub first_timestamp: i64,
    pub src_ip: Seq<char>,
    pub dst_ip: Seq<char>,
    pub src_port: u16,
    pub dst_port: u16,
    pub protocol: Seq<char>,
    pub packet_count: nat,
    pub total_bytes: nat,
    pub src_hostname: Option<Seq<char>>,
    pub dst_hostname: Option<Seq<char>>,
}

impl BucketView {
    /// The bucket that the first packet of a flow opens.
    pub open spec fn opened(p: PacketView) -> BucketView {
        BucketView {
            first_timestamp: p.timestamp,
            src_ip: p.src_ip,
            dst_ip: p.dst_ip,
            src_port: p.src_port,
            dst_port: p.dst_port,
            protocol: p.protocol,
            packet_count: 1,
            total_bytes: p.length,
            src_hostname: p.src_hostname,
            dst_hostname: p.dst_hostname,
        }
    }

    /// The bucket after one more packet: the counters grow, the first time
    /// stamp and the tuple stay.
    pub open spec fn merged(self, p: PacketView) -> BucketView {
        BucketView {
            packet_count: self.packet_count + 1,
            total_bytes: self.total_bytes + p.length,
            ..self
        }
    }

    /// The key of the bucket's flow.
    pub open spec fn key(self) -> Seq<char> {
        flow_key_text(self.src_ip, self.src_port, self.dst_ip, self.dst_port)
    }

    /// The bucket counts at least one packet, and no fewer bytes than its
    /// packets' minimal headers add up to.
    pub open spec fn meets_minimum(self) -> bool {
        self.packet_count >= 1 && self.total_bytes >= self.packet_count * 20
    }
}

impl View for AggregatedBucket {
    type V = BucketView;

    open spec fn view(&self) -> BucketView {
        BucketView {
            first_timestamp: self.first_timestamp,
            src_ip: self.src_ip@,
            dst_ip: self.dst_ip@,
            src_port: self.src_port,
            dst_port: self.dst_port,
            protocol: self.protocol@,
            packet_count: self.packet_count as nat,
            total_bytes: self.total_bytes as nat,
            src_hostname: opt_text(self.src_hostname),
            dst_hostname: opt_text(self.dst_hostname),
        }
    }
}

impl AggregatedBucket {
    /// One more packet of the given length fits the counters.
    pub open spec fn has_room(self, length: nat) -> bool {
        self.packet_count < u64::MAX && self.total_bytes + length <= u64::MAX
    }

    /// Opens a bucket with the first packet of a flow in a window.
    pub fn from_packet(packet: &PacketMetadata) -> (bucket: AggregatedBucket)
        ensures
            bucket@ == BucketView::opened(packet@),
            bucket@.packet_count == 1,
            packet@.length >= 20 ==> bucket@.meets_minimum(),
    {
        AggregatedBucket {
            first_timestamp: packet.timestamp,
            src_ip: packet.src_ip.clone(),
            dst_ip: packet.dst_ip.clone(),
            src_port: packet.src_port,
            dst_port: packet.dst_port,
            protocol: packet.protocol.clone(),
            packet_count: 1,
            total_bytes: packet.length as u64,
            src_hostname: copy_opt(&packet.src_hostname),
            dst_hostname: copy_opt(&packet.dst_hostname),
        }
    }

    /// Merges one more packet of the flow: one packet and its length are
    /// added; the time stamp of the first sighting is kept.
    pub fn merge(&mut self, packet: &PacketMetadata)
        requires
            old(self).has_room(packet@.length),
        ensures
            final(self)@ == old(self)@.merged(packet@),
            final(self)@.packet_count >= 1,
            old(self)@.meets_minimum() && packet@.length >= 20 ==> final(self)@.meets_minimum(),
    {
        self.packet_count = self.packet_count + 1;
        self.total_bytes = self.total_bytes + packet.length as u64;
    }

    /// Merges one more packet of the flow where it fits the counters, and
    /// says whether it did. A packet that does not fit leaves the bucket as
    /// it is. Either way the time stamp of the first sighting and the tuple
    /// stay, whatever the packet's time stamp.
    pub fn try_merge(&mut self, packet: &PacketMetadata) -> (merged: bool)
        ensures
            merged == old(self).has_room(packet@.length),
            merged ==> final(self)@ == old(self)@.merged(packet@),
            merged ==> final(self)@.packet_count == old(self)@.packet_count + 1,
            merged ==> final(self)@.total_bytes == old(self)@.total_bytes + packet@.length,
            !merged ==> final(self)@ == old(self)@,
            final(self)@.first_timestamp == old(self)@.first_timestamp,
            final(self)@.key() == old(self)@.key(),
            final(self)@.protocol == old(self)@.protocol,
            old(self)@.packet_count >= 1 ==> final(self)@.packet_count >= 1,
            old(self)@.meets_minimum() && packet@.length >= 20 ==> final(self)@.meets_minimum(),
    {
        if self.packet_count < u64::MAX && self.total_bytes <= u64::MAX - packet.length as u64 {
            self.merge(packet);
            true
        } else {
            false
        }
    }

    /// The canonical key of the bucket's flow.
    pub fn flow_key(&self) -> (key: String)
        ensures
            key@ == self@.key(),
    {
        flow_key(self.src_ip.as_str(), self.src_port, self.dst_ip.as_str(), self.dst_port)
    }
}

/// Every flow of the map counts at least one packet.
pub open spec fn all_counted(flows: FlowMap) -> bool {
    forall|k: Seq<char>| flows.contains_key(k) ==> (#[trigger] flows[k]).packets_count >= 1
}

/// Every flow of the map counts at least one packet and at least 20 bytes
/// for each of its packets.
pub open spec fn all_meet_minimum(flows: FlowMap) -> bool {
    forall|k: Seq<char>| flows.contains_key(k) ==> (#[trigger] flows[k]).meets_minimum()
}

/// No flow of the map was last seen after `reading`.
pub open spec fn all_seen_by(flows: FlowMap, reading: u64) -> bool {
    forall|k: Seq<char>| flows.contains_key(k) ==> (#[trigger] flows[k]).last_seen <= reading
}

/// The later of two readings of a clock.
pub open spec fn later(a: u64, b: u64) -> u64 {
    if a >= b {
        a
    } else {
        b
    }
}

/// The packets counted so far in the flow `key`; none where the map does
/// not hold the flow.
pub open spec fn packets_of_flow(flows: FlowMap, key: Seq<char>) -> nat {
    if flows.contains_key(key) {
        flows[key].packets_count as nat
    } else {
        0
    }
}

/// The bytes counted so far in the flow `key`; none where the map does not
/// hold the flow.
pub open spec fn bytes_of_flow(flows: FlowMap, key: Seq<char>) -> nat {
    if flows.contains_key(key) {
        flows[key].bytes_sent as nat
    } else {
        0
    }
}

/// The flow `key` of `after` counts one packet and `length` bytes more than
/// it did in `before`, where it counted none if it was not there.
pub open spec fn flow_grew(before: FlowMap, after: FlowMap, key: Seq<char>, length: nat) -> bool {
    &&& after.contains_key(key)
    &&& after[key].packets_count == packets_of_flow(before, key) + 1
    &&& after[key].bytes_sent == bytes_of_flow(before, key) + length
}

/// The number of flows that a packet of the flow `key` adds to a map: one
/// where the map does not hold the flow, none where it does.
pub open spec fn new_flows(flows: FlowMap, key: Seq<char>) -> nat {
    if flows.contains_key(key) {
        0
    } else {
        1
    }
}

/// The flows of `before` that are not stale at `now`, unchanged.
pub open spec fn without_stale(before: FlowMap, now: u64, timeout: u64) -> FlowMap {
    before.restrict(
        Set::new(|k: Seq<char>| before.contains_key(k) && !stale_at(before[k], now, timeout)),
    )
}

/// A listing that names every key of a finite map of flows, each once, is
/// as long as the map is large.
pub proof fn lemma_listing_counts(flows: FlowMap, keys: Seq<Seq<char>>)
    requires
        flows.dom().finite(),
        forall|i: int| 0 <= i < keys.len() ==> flows.contains_key(#[trigger] keys[i]),
        forall|i: int, j: int| 0 <= i < j < keys.len() ==> #[trigger] keys[i] != #[trigger] keys[j],
        forall|k: Seq<char>| #[trigger]
            flows.contains_key(k) ==> exists|i: int| 0 <= i < keys.len() && #[trigger] keys[i] == k,
    ensures
        keys.len() == flows.dom().len(),
    decreases keys.len(),
{
    if keys.len() == 0 {
        assert(flows.dom() =~= Set::empty());
    } else {
        let last = keys.last();
        let rest = keys.drop_last();
        let fewer = flows.remove(last);
        assert forall|k: Seq<char>| #[trigger] fewer.contains_key(k) implies exists|i: int|
            0 <= i < rest.len() && #[trigger] rest[i] == k by {
            let i = choose|i: int| 0 <= i < keys.len() && #[trigger] keys[i] == k;
            assert(rest[i] == keys[i]);
        }
        lemma_listing_counts(fewer, rest);
    }
}

/// One packet adds one to the packets summed over the flows and its length
/// to the bytes, whether it opens a flow or joins one; every flow still
/// counts at least one packet; and where the packet has 20 bytes or more,
/// every flow that had at least 20 bytes for each of its packets still has.
pub proof fn lemma_packet_adds_to_sums(flows: FlowMap, key: Seq<char>, length: u64, now: u64)
    requires
        flows.dom().finite(),
        flows.contains_key(key) ==> flows[key].has_room(length),
    ensures
        ({
            let after = flows.insert(key, upserted(flows, key, length, now));
            &&& packets_in(after) == packets_in(flows) + 1
            &&& bytes_in(after) == bytes_in(flows) + length
            &&& flow_grew(flows, after, key, length as nat)
            &&& all_counted(flows) ==> all_counted(after)
            &&& all_meet_minimum(flows) && length >= 20 ==> all_meet_minimum(after)
        }),
{
    let count = |s: ConnectionStats| s.packets_count as nat;
    let size = |s: ConnectionStats| s.bytes_sent as nat;
    if flows.contains_key(key) {
        lemma_tally_remove(flows, count, key);
        lemma_tally_remove(flows, size, key);
    } else {
        assert(flows.remove(key) =~= flows);
    }
    lemma_tally_insert(flows, count, key, upserted(flows, key, length, now));
    lemma_tally_insert(flows, size, key, upserted(flows, key, length, now));
}

/// A live flow counts no more packets and bytes than all live flows do
/// together.
pub proof fn lemma_flow_within_sums(flows: FlowMap, key: Seq<char>)
    requires
        flows.dom().finite(),
        flows.contains_key(key),
    ensures
        flows[key].packets_count <= packets_in(flows),
        flows[key].bytes_sent <= bytes_in(flows),
{
    lemma_tally_remove(flows, |s: ConnectionStats| s.packets_count as nat, key);
    lemma_tally_remove(flows, |s: ConnectionStats| s.bytes_sent as nat, key);
}

/// The live flows and the totals since start.
///
/// Every operation that changes the state takes it exclusively: that is
/// what lets a contract say how the state after the operation relates to
/// the state before it. Who shares the live state between tasks spreads it
/// over several states, one for each shard of flows, and guards each on its
/// own, so that an update waits only for updates of its own shard.
pub struct TrafficState {
    connections: DashMap<String, ConnectionStats>,
    total_packets: u64,
    total_bytes: u64,
    active_connections: usize,
    origin: Instant,
    latest: u64,
    evicted_packets: Ghost<nat>,
    evicted_bytes: Ghost<nat>,
}

impl TrafficState {
    /// The live flows.
    pub closed spec fn flows(&self) -> FlowMap {
        flows_of(self.connections)
    }

    /// Packets seen since start.
    pub closed spec fn packets(&self) -> nat {
        self.total_packets as nat
    }

    /// Bytes seen since start.
    pub closed spec fn bytes(&self) -> nat {
        self.total_bytes as nat
    }

    /// Number of live flows, as counted.
    pub closed spec fn active(&self) -> nat {
        self.active_connections as nat
    }

    /// The latest reading of the monotonic clock that the state has gone
    /// by, in nanoseconds; zero before the first.
    pub closed spec fn latest(&self) -> u64 {
        self.latest
    }

    /// Packets that were counted in flows since evicted.
    pub closed spec fn evicted_packets(&self) -> nat {
        self.evicted_packets@
    }

    /// Bytes that were counted in flows since evicted.
    pub closed spec fn evicted_bytes(&self) -> nat {
        self.evicted_bytes@
    }

    /// The state's invariant: the count of active flows is the size of the
    /// flow map, every live flow has at least one packet and was last seen
    /// no later than the latest reading of the clock, and the totals are the
    /// sums over the live flows and the evicted ones.
    pub open spec fn wf(&self) -> bool {
        &&& self.flows().dom().finite()
        &&& self.active() == self.flows().dom().len()
        &&& all_counted(self.flows())
        &&& all_seen_by(self.flows(), self.latest())
        &&& self.packets() == packets_in(self.flows()) + self.evicted_packets()
        &&& self.bytes() == bytes_in(self.flows()) + self.evicted_bytes()
    }

    /// In every well-formed state the total of packets is the sum of the
    /// packets of all flows, live or evicted, and so is the total of bytes;
    /// and every live flow has at least one packet.
    pub proof fn lemma_totals_cover_all_flows(&self)
        requires
            self.wf(),
        ensures
            self.packets() == packets_in(self.flows()) + self.evicted_packets(),
            self.bytes() == bytes_in(self.flows()) + self.evicted_bytes(),
            forall|k: Seq<char>|
                self.flows().contains_key(k) ==> (#[trigger] self.flows()[k]).packets_count >= 1,
    {
    }

    /// One more packet of the given length fits every counter.
    pub open spec fn has_room(&self, length: nat) -> bool {
        &&& self.packets() < u64::MAX
        &&& self.bytes() + length <= u64::MAX
        &&& self.active() < usize::MAX
    }

    /// A state without flows, all totals zero.
    pub fn new() -> (state: TrafficState)
        ensures
            state.wf(),
            state.flows() == FlowMap::empty(),
            state.packets() == 0,
            state.bytes() == 0,
            state.active() == 0,
            state.latest() == 0,
            state.evicted_packets() == 0,
            state.evicted_bytes() == 0,
    {
        TrafficState {
            connections: flow_table_new(),
            total_packets: 0,
            total_bytes: 0,
            active_connections: 0,
            origin: clock_origin(),
            latest: 0,
            evicted_packets: Ghost(0),
            evicted_bytes: Ghost(0),
        }
    }

    /// Packets seen since start.
    pub fn total_packets(&self) -> (n: u64)
        ensures
            n == self.packets(),
    {
        self.total_packets
    }

    /// Bytes seen since start.
    pub fn total_bytes(&self) -> (n: u64)
        ensures
            n == self.bytes(),
    {
        self.total_bytes
    }

    /// Number of live flows.
    pub fn active_connections(&self) -> (n: usize)
        ensures
            n == self.active(),
    {
        self.active_connections
    }

    /// Whether one more packet of this length fits every counter.
    pub fn can_accept(&self, packet: &PacketMetadata) -> (fits: bool)
        ensures
            fits == self.has_room(packet@.length),
    {
        self.total_packets < u64::MAX && self.total_bytes <= u64::MAX - packet.length as u64
            && self.active_connections < usize::MAX
    }

    /// Every live flow once, with its key and a copy of its counters, in no
    /// particular order.
    pub fn snapshot(&self) -> (all: Vec<(String, ConnectionStats)>)
        requires
            self.wf(),
        ensures
            all@.len() == self.flows().dom().len(),
            forall|i: int|
                0 <= i < all@.len() ==> self.flows().contains_key((#[trigger] all@[i]).0@)
                    && self.flows()[all@[i].0@] == all@[i].1,
            forall|i: int, j: int|
                0 <= i < j < all@.len() ==> (#[trigger] all@[i]).0@ != (#[trigger] all@[j]).0@,
            forall|k: Seq<char>| #[trigger]
                self.flows().contains_key(k) ==> exists|i: int|
                    0 <= i < all@.len() && (#[trigger] all@[i]).0@ == k,
    {
        let all = flow_table_snapshot(&self.connections);
        proof {
            let keys = Seq::new(all@.len(), |i: int| all@[i].0@);
            assert forall|k: Seq<char>| #[trigger] self.flows().contains_key(k) implies exists|
                i: int,
            |
                0 <= i < keys.len() && #[trigger] keys[i] == k by {
                let i = choose|i: int| 0 <= i < all@.len() && (#[trigger] all@[i]).0@ == k;
                assert(keys[i] == k);
            }
            lemma_listing_counts(self.flows(), keys);
        }
        all
    }

    /// Reading of this state's monotonic clock, in nanoseconds. The clock
    /// does not go back: a reading that came out earlier than the latest
    /// one that the state has gone by is given as that one.
    pub fn now(&self) -> (reading: u64)
        ensures
            reading >= self.latest(),
    {
        let reading = nanos_since(&self.origin);
        if reading < self.latest {
            self.latest
        } else {
            reading
        }
    }

    /// Accounts for one packet seen at `now`: its flow is opened with the
    /// packet or has the packet added, and the totals grow by one packet and
    /// its length. Only a new flow raises the count of active flows.
    pub fn update_at(&mut self, packet: &PacketMetadata, now: u64)
        requires
            old(self).wf(),
            old(self).has_room(packet@.length),
        ensures
            final(self).wf(),
            final(self).flows() == old(self).flows().insert(
                packet@.key(),
                upserted(old(self).flows(), packet@.key(), packet.length as u64, now),
            ),
            flow_grew(old(self).flows(), final(self).flows(), packet@.key(), packet@.length),
            final(self).flows()[packet@.key()].last_seen == now,
            final(self).packets() == old(self).packets() + 1,
            final(self).bytes() == old(self).bytes() + packet@.length,
            final(self).active() == old(self).active() + (if old(self).flows().contains_key(
                packet@.key(),
            ) {
                0nat
            } else {
                1nat
            }),
            final(self).latest() == later(old(self).latest(), now),
            final(self).evicted_packets() == old(self).evicted_packets(),
            final(self).evicted_bytes() == old(self).evicted_bytes(),
            all_meet_minimum(old(self).flows()) && packet@.length >= 20 ==> all_meet_minimum(
                final(self).flows(),
            ),
    {
        let key = packet.flow_key();
        let length = packet.length as u64;
        let known = flow_table_contains(&self.connections, key.as_str());
        proof {
            if self.flows().contains_key(key@) {
                lemma_flow_within_sums(self.flows(), key@);
            }
            lemma_packet_adds_to_sums(self.flows(), key@, length, now);
        }
        flow_table_upsert(&mut self.connections, key, length, now);
        if !known {
            self.active_connections = self.active_connections + 1;
        }
        self.total_packets = self.total_packets + 1;
        self.total_bytes = self.total_bytes + length;
        if now > self.latest {
            self.latest = now;
        }
    }

    /// Evicts the flows that are stale at `now`: those whose last packet is
    /// more than `timeout` nanoseconds back. A flow seen exactly `timeout`
    /// ago stays. The count of active flows drops by the number evicted, in
    /// one subtraction; the totals stay as they are.
    pub fn cleanup_stale_at(&mut self, now: u64, timeout: u64)
        requires
            old(self).wf(),
        ensures
            final(self).wf(),
            final(self).flows() == without_stale(old(self).flows(), now, timeout),
            final(self).packets() == old(self).packets(),
            final(self).bytes() == old(self).bytes(),
            final(self).active() == final(self).flows().dom().len(),
            final(self).active() <= old(self).active(),
            final(self).latest() == later(old(self).latest(), now),
            final(self).evicted_packets() + packets_in(final(self).flows()) == old(
                self,
            ).evicted_packets() + packets_in(old(self).flows()),
            final(self).evicted_bytes() + bytes_in(final(self).flows()) == old(self).evicted_bytes()
                + bytes_in(old(self).flows()),
            all_meet_minimum(old(self).flows()) ==> all_meet_minimum(final(self).flows()),
    {
        let snapshot = flow_table_snapshot(&self.connections);
        let ghost before = self.flows();
        let ghost count = |s: ConnectionStats| s.packets_count as nat;
        let ghost size = |s: ConnectionStats| s.bytes_sent as nat;
        let mut removed: usize = 0;
        let mut i: usize = 0;
        while i < snapshot.len()
            invariant
                0 <= i <= snapshot@.len(),
                before.dom().finite(),
                before == old(self).flows(),
                flows_of(self.connections).dom().finite(),
                self.total_packets == old(self).total_packets,
                self.total_bytes == old(self).total_bytes,
                self.active_connections == old(self).active_connections,
                self.latest == old(self).latest,
                old(self).wf(),
                count == |s: ConnectionStats| s.packets_count as nat,
                size == |s: ConnectionStats| s.bytes_sent as nat,
                forall|j: int|
                    0 <= j < snapshot@.len() ==> before.contains_key((#[trigger] snapshot@[j]).0@)
                        && before[snapshot@[j].0@] == snapshot@[j].1,
                forall|a: int, b: int|
                    0 <= a < b < snapshot@.len() ==> (#[trigger] snapshot@[a]).0@ != (
                    #[trigger] snapshot@[b]).0@,
                forall|k: Seq<char>| #[trigger]
                    flows_of(self.connections).contains_key(k) ==> before.contains_key(k)
                        && flows_of(self.connections)[k] == before[k],
                forall|j: int|
                    0 <= j < snapshot@.len() ==> (flows_of(self.connections).contains_key(
                        (#[trigger] snapshot@[j]).0@,
                    ) <==> (j >= i || !stale_at(snapshot@[j].1, now, timeout))),
                removed + flows_of(self.connections).dom().len() == before.dom().len(),
                tally(flows_of(self.connections), count) + self.evicted_packets@ == tally(
                    before,
                    count,
                ) + old(self).evicted_packets@,
                tally(flows_of(self.connections), size) + self.evicted_bytes@ == tally(
                    before,
                    size,
                ) + old(self).evicted_bytes@,
            decreases snapshot@.len() - i,
        {
            if snapshot[i].1.is_stale(now, timeout) {
                let ghost k = snapshot@[i as int].0@;
                let ghost current = flows_of(self.connections);
                proof {
                    lemma_tally_remove(current, count, k);
                    lemma_tally_remove(current, size, k);
                    self.evicted_packets = Ghost(self.evicted_packets@ + count(current[k]));
                    self.evicted_bytes = Ghost(self.evicted_bytes@ + size(current[k]));
                }
                flow_table_remove(&mut self.connections, snapshot[i].0.as_str());
                removed = removed + 1;
            }
            i = i + 1;
        }
        if removed > 0 {
            self.active_connections = self.active_connections - removed;
        }
        if now > self.latest {
            self.latest = now;
        }
    }

    /// Evicts the flows that are stale now, by this state's monotonic clock:
    /// those whose last packet is more than `timeout` nanoseconds back at
    /// the reading, which becomes the state's latest. The reading is never
    /// earlier than the latest before, so a flow that was already silent
    /// for longer than `timeout` then is evicted whatever the clock shows.
    /// The totals stay as they are.
    pub fn cleanup_stale_connections(&mut self, timeout: u64)
        requires
            old(self).wf(),
        ensures
            final(self).wf(),
            final(self).latest() >= old(self).latest(),
            final(self).flows() == without_stale(old(self).flows(), final(self).latest(), timeout),
            forall|k: Seq<char>|
                old(self).flows().contains_key(k) && old(self).latest() - (#[trigger] old(
                    self,
                ).flows()[k]).last_seen > timeout ==> !final(self).flows().contains_key(k),
            final(self).flows().submap_of(old(self).flows()),
            final(self).packets() == old(self).packets(),
            final(self).bytes() == old(self).bytes(),
            final(self).active() == final(self).flows().dom().len(),
            final(self).active() <= old(self).active(),
            final(self).evicted_packets() + packets_in(final(self).flows()) == old(
                self,
            ).evicted_packets() + packets_in(old(self).flows()),
            final(self).evicted_bytes() + bytes_in(final(self).flows()) == old(self).evicted_bytes()
                + bytes_in(old(self).flows()),
            all_meet_minimum(old(self).flows()) ==> all_meet_minimum(final(self).flows()),
    {
        let now = self.now();
        self.cleanup_stale_at(now, timeout);
    }

    /// Accounts for one packet seen now, by this state's monotonic clock.
    /// The reading, which is never earlier than the latest before, becomes
    /// the state's latest and the time of the flow's last sighting; all else
    /// is as in [`TrafficState::update_at`].
    pub fn update(&mut self, packet: &PacketMetadata)
        requires
            old(self).wf(),
            old(self).has_room(packet@.length),
        ensures
            final(self).wf(),
            final(self).latest() >= old(self).latest(),
            final(self).flows() == old(self).flows().insert(
                packet@.key(),
                upserted(
                    old(self).flows(),
                    packet@.key(),
                    packet.length as u64,
                    final(self).latest(),
                ),
            ),
            flow_grew(old(self).flows(), final(self).flows(), packet@.key(), packet@.length),
            final(self).flows()[packet@.key()].last_seen == final(self).latest(),
            final(self).packets() == old(self).packets() + 1,
            final(self).bytes() == old(self).bytes() + packet@.length,
            final(self).active() == old(self).active() + (if old(self).flows().contains_key(
                packet@.key(),
            ) {
                0nat
            } else {
                1nat
            }),
            final(self).evicted_packets() == old(self).evicted_packets(),
            final(self).evicted_bytes() == old(self).evicted_bytes(),
            all_meet_minimum(old(self).flows()) && packet@.length >= 20 ==> all_meet_minimum(
                final(self).flows(),
            ),
    {
        let now = self.now();
        self.update_at(packet, now);
    }

    /// Accounts for one packet seen now where it fits every counter, and
    /// says whether it did. A packet that does not fit leaves the state as
    /// it is. Either way the state stays well formed: the totals are the
    /// sums over the live and the evicted flows, and every live flow has at
    /// least one packet.
    pub fn try_update(&mut self, packet: &PacketMetadata) -> (accepted: bool)
        requires
            old(self).wf(),
        ensures
            final(self).wf(),
            accepted == old(self).has_room(packet@.length),
            accepted ==> {
                &&& final(self).latest() >= old(self).latest()
                &&& final(self).flows() == old(self).flows().insert(
                    packet@.key(),
                    upserted(
                        old(self).flows(),
                        packet@.key(),
                        packet.length as u64,
                        final(self).latest(),
                    ),
                )
                &&& flow_grew(
                    old(self).flows(),
                    final(self).flows(),
                    packet@.key(),
                    packet@.length,
                )
                &&& final(self).packets() == old(self).packets() + 1
                &&& final(self).bytes() == old(self).bytes() + packet@.length
                &&& final(self).active() == old(self).active() + new_flows(
                    old(self).flows(),
                    packet@.key(),
                )
            },
            !accepted ==> {
                &&& final(self).flows() == old(self).flows()
                &&& final(self).packets() == old(self).packets()
                &&& final(self).bytes() == old(self).bytes()
                &&& final(self).active() == old(self).active()
                &&& final(self).latest() == old(self).latest()
            },
            final(self).evicted_packets() == old(self).evicted_packets(),
            final(self).evicted_bytes() == old(self).evicted_bytes(),
            all_meet_minimum(old(self).flows()) && packet@.length >= 20 ==> all_meet_minimum(
                final(self).flows(),
            ),
    {
        if self.can_accept(packet) {
            self.update(packet);
            true
        } else {
            false
        }
    }
}

} // verus!
