//! Capture from whole frames: slicing a frame into its headers, the capture
//! filter, and the sampling of what is stored.

use vstd::prelude::*;
use vstd::string::{StrSliceExecFns, StringExecFns};
use etherparse::{NetSlice, SlicedPacket, TransportSlice};
use crate::clock::wall_clock_millis;
use crate::config::Config;
use crate::flow_table::upserted;
use crate::shard::{shard_index, shard_of};
use crate::state::{copy_opt, later, opt_text, PacketMetadata, PacketView, TrafficState};

verus! {

/// The version of an IP header.
#[derive(Clone, Copy, Debug, PartialEq, Eq)]
pub enum IpVersion {
    V4,
    V6,
}

/// A transport protocol with ports.
#[derive(Clone, Copy, Debug, PartialEq, Eq)]
pub enum Transport {
    Tcp,
    Udp,
}

/// What the headers of a frame say: the IP version and the addresses as
/// text, and the transport with its ports, each where the frame has one.
#[derive(Debug)]
pub struct SlicedFrame {
    pub net: Option<(IpVersion, String, String)>,
    pub transport: Option<(Transport, u16, u16)>,
}

/// The mathematical content of a [`SlicedFrame`].
pub struct SlicedView {
    pub net: Option<(IpVersion, Seq<char>, Seq<char>)>,
    pub transport: Option<(Transport, u16, u16)>,
}

/// The text of the addresses of a network header.
pub open spec fn net_view(net: Option<(IpVersion, String, String)>) -> Option<
    (IpVersion, Seq<char>, Seq<char>),
> {
    match net {
        Some((version, source, destination)) => Some((version, source@, destination@)),
        None => None,
    }
}

impl View for SlicedFrame {
    type V = SlicedView;

    open spec fn view(&self) -> SlicedView {
        SlicedView { net: net_view(self.net), transport: self.transport }
    }
}

/// What slicing makes of the bytes of a frame; `None` where the frame is
/// not one that can be sliced.
pub uninterp spec fn sliced(frame: Seq<u8>) -> Option<SlicedView>;

/// `etherparse::SlicedPacket::from_ethernet`, and of what it found the
/// network header: the IP version and the two addresses as text. `None`
/// where the frame cannot be sliced. The same bytes slice the same way.
#[verifier::external_body]
pub(crate) fn slice_net(data: &[u8]) -> (out: Option<Option<(IpVersion, String, String)>>)
    ensures
        match out {
            Some(net) => sliced(data@) is Some && sliced(data@)->0.net == net_view(net),
            None => sliced(data@) is None,
        },
{
    let packet = SlicedPacket::from_ethernet(data).ok()?;
    Some(match &packet.net {
        Some(NetSlice::Ipv4(s)) => Some(
            (IpVersion::V4, s.header().source_addr().to_string(), s.header().destination_addr().to_string()),
        ),
        Some(NetSlice::Ipv6(s)) => Some(
            (IpVersion::V6, s.header().source_addr().to_string(), s.header().destination_addr().to_string()),
        ),
        _ => None,
    })
}

/// `etherparse::SlicedPacket::from_ethernet`, and of what it found the
/// transport header, where that is TCP or UDP, with its ports. `None`
/// where the frame cannot be sliced or has no such header.
#[verifier::external_body]
pub(crate) fn slice_transport(data: &[u8]) -> (out: Option<(Transport, u16, u16)>)
    ensures
        out == match sliced(data@) {
            Some(frame) => frame.transport,
            None => None,
        },
{
    match SlicedPacket::from_ethernet(data).ok()?.transport {
        Some(TransportSlice::Tcp(h)) => Some((Transport::Tcp, h.source_port(), h.destination_port())),
        Some(TransportSlice::Udp(h)) => Some((Transport::Udp, h.source_port(), h.destination_port())),
        _ => None,
    }
}

/// Slices a frame into its headers, from the Ethernet header downwards.
pub fn slice_frame(data: &[u8]) -> (out: Option<SlicedFrame>)
    ensures
        match out {
            Some(frame) => sliced(data@) == Some(frame@),
            None => sliced(data@) is None,
        },
{
    match slice_net(data) {
        Some(net) => Some(SlicedFrame { net, transport: slice_transport(data) }),
        None => None,
    }
}

/// A character with an ASCII capital turned into its small letter.
pub open spec fn ascii_lower(c: char) -> char {
    if 'A' <= c && c <= 'Z' {
        ((c as u8) + 32) as char
    } else {
        c
    }
}

/// A text with its ASCII capitals turned into small letters.
pub open spec fn ascii_folded(s: Seq<char>) -> Seq<char> {
    Seq::new(s.len(), |i: int| ascii_lower(s[i]))
}

/// The number of a character, with that of an ASCII capital moved to its
/// small letter's.
fn folded_code(c: char) -> (code: u32)
    ensures
        code == ascii_lower(c) as u32,
{
    let code = c as u32;
    if 65 <= code && code <= 90 {
        code + 32
    } else {
        code
    }
}

/// Whether two texts are the same once the ASCII capitals of both are
/// turned into small letters.
pub fn same_ignoring_ascii_case(a: &str, b: &str) -> (same: bool)
    ensures
        same == (ascii_folded(a@) == ascii_folded(b@)),
{
    let n = a.unicode_len();
    if n != b.unicode_len() {
        assert(ascii_folded(a@).len() != ascii_folded(b@).len());
        return false;
    }
    let mut i: usize = 0;
    while i < n
        invariant
            0 <= i <= n,
            n == a@.len(),
            n == b@.len(),
            forall|j: int| 0 <= j < i ==> ascii_lower(#[trigger] a@[j]) == ascii_lower(b@[j]),
        decreases n - i,
    {
        if folded_code(a.get_char(i)) != folded_code(b.get_char(i)) {
            assert(ascii_folded(a@)[i as int] != ascii_folded(b@)[i as int]);
            return false;
        }
        i = i + 1;
    }
    assert(ascii_folded(a@) =~= ascii_folded(b@));
    true
}

/// The metadata of a sliced frame: addresses and ports where the frame has
/// them, and the protocol by the innermost header that was recognised.
pub open spec fn described(frame: SlicedView, timestamp: i64, length: usize) -> PacketView {
    PacketView {
        timestamp,
        src_ip: match frame.net {
            Some((_, source, _)) => source,
            None => "?.?.?.?"@,
        },
        dst_ip: match frame.net {
            Some((_, _, destination)) => destination,
            None => "?.?.?.?"@,
        },
        src_port: match frame.transport {
            Some((_, source, _)) => source,
            None => 0,
        },
        dst_port: match frame.transport {
            Some((_, _, destination)) => destination,
            None => 0,
        },
        protocol: match frame.transport {
            Some((Transport::Tcp, _, _)) => "TCP"@,
            Some((Transport::Udp, _, _)) => "UDP"@,
            None => match frame.net {
                Some((IpVersion::V4, _, _)) => "IPv4"@,
                Some((IpVersion::V6, _, _)) => "IPv6"@,
                None => "Unknown"@,
            },
        },
        length: length as nat,
        src_hostname: None,
        dst_hostname: None,
    }
}

/// The frame has a header that was recognised.
pub open spec fn recognised(frame: SlicedView) -> bool {
    frame.net is Some || frame.transport is Some
}

/// The metadata of a sliced frame.
pub fn frame_metadata(frame: &SlicedFrame, timestamp: i64, length: usize) -> (meta: PacketMetadata)
    ensures
        meta@ == described(frame@, timestamp, length),
{
    let mut meta = PacketMetadata {
        timestamp,
        src_ip: String::from_str("?.?.?.?"),
        dst_ip: String::from_str("?.?.?.?"),
        src_port: 0,
        dst_port: 0,
        protocol: String::from_str("Unknown"),
        length,
        src_hostname: None,
        dst_hostname: None,
    };
    match &frame.net {
        Some((version, source, destination)) => {
            meta.src_ip = source.clone();
            meta.dst_ip = destination.clone();
            match version {
                IpVersion::V4 => {
                    meta.protocol = String::from_str("IPv4");
                },
                IpVersion::V6 => {
                    meta.protocol = String::from_str("IPv6");
                },
            }
        },
        None => {},
    }
    match &frame.transport {
        Some((kind, source, destination)) => {
            meta.src_port = *source;
            meta.dst_port = *destination;
            match kind {
                Transport::Tcp => {
                    meta.protocol = String::from_str("TCP");
                },
                Transport::Udp => {
                    meta.protocol = String::from_str("UDP");
                },
            }
        },
        None => {},
    }
    meta
}

/// The shard, of `shards`, that the flow of a captured frame falls into;
/// the first for a frame that cannot be sliced.
pub fn frame_shard(data: &[u8], shards: usize) -> (shard: usize)
    ensures
        shard == match sliced(data@) {
            Some(frame) => shard_index(frame_key(frame), shards),
            None => 0,
        },
        shards > 0 ==> shard < shards,
{
    match slice_frame(data) {
        Some(frame) => {
            let key = frame_metadata(&frame, 0, 0).flow_key();
            shard_of(key.as_str(), shards)
        },
        None => 0,
    }
}

/// What a capture keeps: packets from or to a port, from or to an address,
/// of a protocol. A criterion that is not set keeps everything.
#[derive(Debug)]
pub struct FilterConfig {
    pub port: Option<u16>,
    pub ip: Option<String>,
    pub protocol: Option<String>,
}

/// The mathematical content of a [`FilterConfig`].
pub struct FilterView {
    pub port: Option<u16>,
    pub ip: Option<Seq<char>>,
    pub protocol: Option<Seq<char>>,
}

impl View for FilterConfig {
    type V = FilterView;

    open spec fn view(&self) -> FilterView {
        FilterView {
            port: self.port,
            ip: opt_text(self.ip),
            protocol: opt_text(self.protocol),
        }
    }
}

impl FilterView {
    /// Whether the filter keeps a packet: every criterion that is set is
    /// met, the port and the address by either end of the packet, the
    /// protocol without regard to the case of ASCII letters.
    pub open spec fn keeps(self, p: PacketView) -> bool {
        &&& self.port matches Some(port) ==> p.src_port == port || p.dst_port == port
        &&& self.ip matches Some(ip) ==> p.src_ip == ip || p.dst_ip == ip
        &&& self.protocol matches Some(protocol) ==> ascii_folded(p.protocol) == ascii_folded(
            protocol,
        )
    }
}

impl Default for FilterConfig {
    fn default() -> (filter: FilterConfig)
        ensures
            filter@ == (FilterView { port: None, ip: None, protocol: None }),
    {
        FilterConfig { port: None, ip: None, protocol: None }
    }
}

impl Clone for FilterConfig {
    fn clone(&self) -> (copy: FilterConfig)
        ensures
            copy@ == self@,
    {
        FilterConfig {
            port: self.port,
            ip: copy_opt(&self.ip),
            protocol: copy_opt(&self.protocol),
        }
    }
}

impl<'a> From<&'a Config> for FilterConfig {
    /// The filter that the settings ask for.
    fn from(config: &'a Config) -> (filter: FilterConfig) {
        FilterConfig {
            port: config.filter_port,
            ip: copy_opt(&config.filter_ip),
            protocol: copy_opt(&config.filter_protocol),
        }
    }
}

impl<'a> vstd::std_specs::convert::FromSpecImpl<&'a Config> for FilterConfig {
    open spec fn obeys_from_spec() -> bool {
        true
    }

    open spec fn from_spec(config: &'a Config) -> FilterConfig {
        FilterConfig {
            port: config.filter_port,
            ip: config.filter_ip,
            protocol: config.filter_protocol,
        }
    }
}

impl FilterConfig {
    /// Whether the filter keeps the packet.
    pub fn matches(&self, meta: &PacketMetadata) -> (kept: bool)
        ensures
            kept == self@.keeps(meta@),
    {
        match self.port {
            Some(port) => {
                if meta.src_port != port && meta.dst_port != port {
                    return false;
                }
            },
            None => {},
        }
        match &self.ip {
            Some(ip) => {
                if meta.src_ip != *ip && meta.dst_ip != *ip {
                    return false;
                }
            },
            None => {},
        }
        match &self.protocol {
            Some(protocol) => {
                if !same_ignoring_ascii_case(meta.protocol.as_str(), protocol.as_str()) {
                    return false;
                }
            },
            None => {},
        }
        true
    }
}

/// The rate that sampling runs with: the one set, and 1 where 0 was set.
pub open spec fn effective_rate(sample_rate: u32) -> u32 {
    if sample_rate == 0 {
        1
    } else {
        sample_rate
    }
}

/// The counter after one more packet; it starts over after the largest
/// number it can hold.
pub open spec fn next_count(counter: u32) -> u32 {
    if counter == u32::MAX {
        0
    } else {
        (counter + 1) as u32
    }
}

/// Sampling for the store: one packet in every `rate` passes.
#[derive(Clone, Copy, Debug, PartialEq, Eq)]
pub struct Sampler {
    rate: u32,
    counter: u32,
}

impl Sampler {
    /// Packets counted so far.
    pub closed spec fn counter(&self) -> u32 {
        self.counter
    }

    /// One packet in this many passes.
    pub closed spec fn rate(&self) -> u32 {
        self.rate
    }

    /// The sampler's invariant: the rate is at least one.
    pub open spec fn wf(&self) -> bool {
        self.rate() >= 1
    }

    /// A sampler that has counted nothing. A rate of 0 stands for 1: every
    /// packet passes.
    pub fn new(sample_rate: u32) -> (sampler: Sampler)
        ensures
            sampler.wf(),
            sampler.rate() == effective_rate(sample_rate),
            sampler.counter() == 0,
    {
        Sampler {
            rate: if sample_rate == 0 {
                1
            } else {
                sample_rate
            },
            counter: 0,
        }
    }

    /// Counts one packet and says whether it passes: it does when the count
    /// is a multiple of the rate.
    pub fn pass(&mut self) -> (passes: bool)
        requires
            old(self).wf(),
        ensures
            final(self).wf(),
            final(self).rate() == old(self).rate(),
            final(self).counter() == next_count(old(self).counter()),
            passes == (final(self).counter() % final(self).rate() == 0),
    {
        self.counter = self.counter.wrapping_add(1);
        self.counter % self.rate == 0
    }
}

/// The capture of one interface: its filter and its sampler.
pub struct Sniffer {
    pub filter: FilterConfig,
    pub sampler: Sampler,
}

/// The content of a frame that may not have been sliced.
pub open spec fn frame_view(frame: Option<SlicedFrame>) -> Option<SlicedView> {
    match frame {
        Some(f) => Some(f@),
        None => None,
    }
}

/// Whether a captured frame counts: it was sliced, a header of it was
/// recognised, and the filter keeps it. The time at which the frame was
/// captured plays no part in that.
pub open spec fn counted(filter: FilterView, frame: Option<SlicedView>, length: usize) -> bool {
    frame matches Some(f) && recognised(f) && filter.keeps(described(f, 0, length))
}

/// The key of the flow that a sliced frame belongs to.
pub open spec fn frame_key(frame: SlicedView) -> Seq<char> {
    described(frame, 0, 0).key()
}

impl Sniffer {
    /// A capture with the filter and sampling that the settings ask for.
    pub fn new(config: &Config) -> (sniffer: Sniffer)
        ensures
            sniffer.sampler.wf(),
            sniffer.sampler.rate() == effective_rate(config@.sample_rate),
            sniffer.sampler.counter() == 0,
            sniffer.filter@ == (FilterView {
                port: config@.filter_port,
                ip: config@.filter_ip,
                protocol: config@.filter_protocol,
            }),
    {
        Sniffer { filter: FilterConfig::from(config), sampler: Sampler::new(config.sample_rate) }
    }

    /// Takes one captured frame that was sliced, stamped `timestamp` and
    /// seen at `now`. A frame that counts is accounted for in the live
    /// state, always; it is handed out for the store when sampling
    /// lets it pass. A frame that does not count changes nothing.
    pub fn observe_sliced(
        &mut self,
        state: &mut TrafficState,
        frame: Option<SlicedFrame>,
        length: usize,
        timestamp: i64,
        now: u64,
    ) -> (stored: Option<PacketMetadata>)
        requires
            old(self).sampler.wf(),
            old(state).wf(),
            old(state).has_room(length as nat),
        ensures
            final(self).sampler.wf(),
            final(self).filter == old(self).filter,
            final(self).sampler.rate() == old(self).sampler.rate(),
            final(state).wf(),
            !counted(old(self).filter@, frame_view(frame), length) ==> {
                &&& stored is None
                &&& final(self).sampler == old(self).sampler
                &&& final(state).flows() == old(state).flows()
                &&& final(state).packets() == old(state).packets()
                &&& final(state).bytes() == old(state).bytes()
                &&& final(state).active() == old(state).active()
                &&& final(state).latest() == old(state).latest()
            },
            counted(old(self).filter@, frame_view(frame), length) ==> {
                let meta = described(frame->0@, timestamp, length);
                &&& meta.key() == frame_key(frame->0@)
                &&& final(self).sampler.counter() == next_count(old(self).sampler.counter())
                &&& final(state).flows() == old(state).flows().insert(
                    meta.key(),
                    upserted(old(state).flows(), meta.key(), length as u64, now),
                )
                &&& final(state).packets() == old(state).packets() + 1
                &&& final(state).bytes() == old(state).bytes() + length
                &&& final(state).latest() == later(old(state).latest(), now)
                &&& match stored {
                    Some(kept) => kept@ == meta && final(self).sampler.counter()
                        % final(self).sampler.rate() == 0,
                    None => final(self).sampler.counter() % final(self).sampler.rate() != 0,
                }
            },
    {
        let frame = match frame {
            Some(frame) => frame,
            None => {
                return None;
            },
        };
        let meta = frame_metadata(&frame, timestamp, length);
        proof {
            reveal_strlit("Unknown");
            reveal_strlit("TCP");
            reveal_strlit("UDP");
            reveal_strlit("IPv4");
            reveal_strlit("IPv6");
            assert("TCP"@.len() == 3 && "UDP"@.len() == 3);
            assert("IPv4"@.len() == 4 && "IPv6"@.len() == 4);
        }
        if meta.protocol == String::from_str("Unknown") || !self.filter.matches(&meta) {
            return None;
        }
        state.update_at(&meta, now);
        if self.sampler.pass() {
            Some(meta)
        } else {
            None
        }
    }

    /// Takes one captured frame: slices it, stamps it with the wall clock
    /// and accounts for it as of now by the state's monotonic clock.
    ///
    /// Whether the frame counts is decided by its bytes and the filter
    /// alone. A frame that counts is accounted for under the key of its
    /// flow, with the reading of the monotonic clock, which becomes the
    /// state's latest, as the time of the sighting; it is handed out, with
    /// the time stamp that the wall clock gave, when sampling lets it pass.
    /// A frame that does not count changes nothing.
    pub fn observe(&mut self, state: &mut TrafficState, data: &[u8], length: usize) -> (stored:
        Option<PacketMetadata>)
        requires
            old(self).sampler.wf(),
            old(state).wf(),
            old(state).has_room(length as nat),
        ensures
            final(self).sampler.wf(),
            final(self).filter == old(self).filter,
            final(self).sampler.rate() == old(self).sampler.rate(),
            final(state).wf(),
            !counted(old(self).filter@, sliced(data@), length) ==> {
                &&& stored is None
                &&& final(self).sampler == old(self).sampler
                &&& final(state).flows() == old(state).flows()
                &&& final(state).packets() == old(state).packets()
                &&& final(state).bytes() == old(state).bytes()
                &&& final(state).active() == old(state).active()
                &&& final(state).latest() == old(state).latest()
            },
            counted(old(self).filter@, sliced(data@), length) ==> {
                let key = frame_key(sliced(data@)->0);
                &&& final(self).sampler.counter() == next_count(old(self).sampler.counter())
                &&& final(state).latest() >= old(state).latest()
                &&& final(state).flows() == old(state).flows().insert(
                    key,
                    upserted(old(state).flows(), key, length as u64, final(state).latest()),
                )
                &&& final(state).packets() == old(state).packets() + 1
                &&& final(state).bytes() == old(state).bytes() + length
                &&& match stored {
                    Some(kept) => kept@ == described(sliced(data@)->0, kept.timestamp, length)
                        && final(self).sampler.counter() % final(self).sampler.rate() == 0,
                    None => final(self).sampler.counter() % final(self).sampler.rate() != 0,
                }
            },
    {
        let frame = slice_frame(data);
        let timestamp = wall_clock_millis();
        let now = state.now();
        self.observe_sliced(state, frame, length, timestamp, now)
    }
}

} // verus!
