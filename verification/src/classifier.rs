//! The per-packet classifier: from the bytes of an Ethernet frame to at most
//! one event, never touching the packet itself.

use vstd::prelude::*;
use crate::event::{byte_of, lemma_bytes_compose, wire_bytes, PacketEvent, IPPROTO_TCP, IPPROTO_UDP};

verus! {

/// Verdict that lets the packet continue unchanged down the pipeline.
pub const TC_ACT_PIPE: i32 = 3;

/// Length of an Ethernet header.
pub const ETH_HDR_LEN: usize = 14;

/// Length of the fixed part of an IPv4 header.
pub const IPV4_HDR_LEN: usize = 20;

/// Length of the fixed part of a TCP header.
pub const TCP_HDR_LEN: usize = 20;

/// Length of a UDP header.
pub const UDP_HDR_LEN: usize = 8;

/// EtherType of IPv4.
pub const ETHERTYPE_IPV4: u16 = 0x0800;

/// The network-order number held in the two bytes of `s` starting at `at`.
pub open spec fn be16(s: Seq<u8>, at: int) -> int {
    256 * (s[at] as int) + s[at + 1] as int
}

/// The network-order number held in the four bytes of `s` starting at `at`.
pub open spec fn be32(s: Seq<u8>, at: int) -> int {
    16777216 * (s[at] as int) + 65536 * (s[at + 1] as int) + 256 * (s[at + 2] as int) + s[at
        + 3] as int
}

/// The frame holds a whole Ethernet header that announces IPv4.
pub open spec fn is_ipv4_frame(frame: Seq<u8>) -> bool {
    frame.len() >= 14 && be16(frame, 12) == ETHERTYPE_IPV4
}

/// Protocol number in the IPv4 header of a frame of at least 34 bytes.
pub open spec fn ip_protocol(frame: Seq<u8>) -> u8 {
    frame[23]
}

/// Bytes that a frame needs for the headers the classifier reads, given the
/// protocol: Ethernet, fixed IPv4, and the fixed transport header.
pub open spec fn needed_len(protocol: u8) -> int {
    if protocol == IPPROTO_TCP {
        54
    } else {
        42
    }
}

/// The event that a frame gives rise to, if any.
///
/// A frame is passed over when it is too short for an Ethernet header, is not
/// IPv4, is too short for the fixed IPv4 header, carries a transport other
/// than TCP or UDP, or is too short for that transport's header. The
/// transport header is taken to follow the fixed 20 bytes of the IPv4 header.
pub open spec fn classified(frame: Seq<u8>) -> Option<PacketEvent> {
    if !is_ipv4_frame(frame) || frame.len() < 34 {
        None
    } else if ip_protocol(frame) != IPPROTO_TCP && ip_protocol(frame) != IPPROTO_UDP {
        None
    } else if frame.len() < needed_len(ip_protocol(frame)) {
        None
    } else {
        Some(
            PacketEvent {
                src_addr: be32(frame, 26) as u32,
                dst_addr: be32(frame, 30) as u32,
                src_port: be16(frame, 34) as u16,
                dst_port: be16(frame, 36) as u16,
                protocol: ip_protocol(frame),
                _pad: [0u8, 0u8, 0u8],
                pkt_len: be16(frame, 16) as u32,
            },
        )
    }
}

/// What one run of the classifier yields: the verdict on the packet and the
/// record to hand to the transport, if the packet was accepted.
pub struct Observation {
    /// Always [`TC_ACT_PIPE`].
    pub verdict: i32,
    /// The event record to submit, if any.
    pub record: Option<[u8; 20]>,
}

fn read_be16(frame: &[u8], at: usize) -> (x: u16)
    requires
        at + 2 <= frame.len(),
    ensures
        x == be16(frame@, at as int),
{
    let hi: u16 = frame[at] as u16;
    let lo: u16 = frame[at + 1] as u16;
    256 * hi + lo
}

fn read_be32(frame: &[u8], at: usize) -> (x: u32)
    requires
        at + 4 <= frame.len(),
    ensures
        x == be32(frame@, at as int),
{
    let b0: u32 = frame[at] as u32;
    let b1: u32 = frame[at + 1] as u32;
    let b2: u32 = frame[at + 2] as u32;
    let b3: u32 = frame[at + 3] as u32;
    16777216 * b0 + 65536 * b1 + 256 * b2 + b3
}

/// Parses the link, network and transport headers of one frame. Every read
/// is preceded by the bounds check that covers it.
pub fn classify(frame: &[u8]) -> (out: Option<PacketEvent>)
    ensures
        out == classified(frame@),
        frame@.len() < 14 ==> out is None,
        frame@.len() >= 14 && be16(frame@, 12) != ETHERTYPE_IPV4 ==> out is None,
        frame@.len() < 34 ==> out is None,
        frame@.len() >= 34 && frame@[23] != IPPROTO_TCP && frame@[23] != IPPROTO_UDP ==> out is None,
        out matches Some(e) ==> e.protocol == IPPROTO_TCP || e.protocol == IPPROTO_UDP,
{
    if frame.len() < ETH_HDR_LEN {
        return None;
    }
    let ether_type = read_be16(frame, 12);
    if ether_type != ETHERTYPE_IPV4 {
        return None;
    }
    if frame.len() < ETH_HDR_LEN + IPV4_HDR_LEN {
        return None;
    }
    let protocol = frame[23];
    let src_addr = read_be32(frame, 26);
    let dst_addr = read_be32(frame, 30);
    let tot_len = read_be16(frame, 16);
    let transport: usize = ETH_HDR_LEN + IPV4_HDR_LEN;
    if protocol == IPPROTO_TCP {
        if frame.len() < transport + TCP_HDR_LEN {
            return None;
        }
    } else if protocol == IPPROTO_UDP {
        if frame.len() < transport + UDP_HDR_LEN {
            return None;
        }
    } else {
        return None;
    }
    let src_port = read_be16(frame, transport);
    let dst_port = read_be16(frame, transport + 2);
    Some(
        PacketEvent {
            src_addr,
            dst_addr,
            src_port,
            dst_port,
            protocol,
            _pad: [0, 0, 0],
            pkt_len: tot_len as u32,
        },
    )
}

/// The classifier's entry point on the bytes of one packet: observes, and
/// always lets the packet through.
pub fn ayaflow(frame: &[u8]) -> (out: Observation)
    ensures
        out.verdict == TC_ACT_PIPE,
        match classified(frame@) {
            Some(e) => out.record matches Some(r) && r@ == wire_bytes(e),
            None => out.record is None,
        },
{
    let record = match classify(frame) {
        Some(event) => Some(event.encode()),
        None => None,
    };
    Observation { verdict: TC_ACT_PIPE, record }
}

/// The frame is long enough for the Ethernet, IPv4 and transport headers of
/// `protocol`, which is TCP or UDP, announces IPv4 and that protocol, and its
/// header fields hold the given values in network byte order.
pub open spec fn is_frame_of(
    frame: Seq<u8>,
    protocol: u8,
    src: u32,
    dst: u32,
    sport: u16,
    dport: u16,
    tot_len: u16,
) -> bool {
    &&& protocol == IPPROTO_TCP || protocol == IPPROTO_UDP
    &&& frame.len() >= needed_len(protocol)
    &&& frame[12] == 0x08 && frame[13] == 0x00
    &&& frame[23] == protocol
    &&& frame[16] == byte_of(tot_len as int, 1) && frame[17] == byte_of(tot_len as int, 0)
    &&& frame[26] == byte_of(src as int, 3) && frame[27] == byte_of(src as int, 2)
    &&& frame[28] == byte_of(src as int, 1) && frame[29] == byte_of(src as int, 0)
    &&& frame[30] == byte_of(dst as int, 3) && frame[31] == byte_of(dst as int, 2)
    &&& frame[32] == byte_of(dst as int, 1) && frame[33] == byte_of(dst as int, 0)
    &&& frame[34] == byte_of(sport as int, 1) && frame[35] == byte_of(sport as int, 0)
    &&& frame[36] == byte_of(dport as int, 1) && frame[37] == byte_of(dport as int, 0)
}

/// A valid TCP or UDP frame over IPv4 yields an event that gives its header
/// values back exactly, in host byte order.
pub proof fn lemma_frame_round_trip(
    frame: Seq<u8>,
    protocol: u8,
    src: u32,
    dst: u32,
    sport: u16,
    dport: u16,
    tot_len: u16,
)
    requires
        is_frame_of(frame, protocol, src, dst, sport, dport, tot_len),
    ensures
        classified(frame) matches Some(e) && e.src_addr == src && e.dst_addr == dst && e.src_port
            == sport && e.dst_port == dport && e.protocol == protocol && e.pkt_len == tot_len,
{
    lemma_bytes_compose(src);
    lemma_bytes_compose(dst);
    lemma_bytes_compose(sport as u32);
    lemma_bytes_compose(dport as u32);
    lemma_bytes_compose(tot_len as u32);
}

/// An event that the classifier emits names TCP or UDP, and is well formed
/// when the datagram's length field covers at least a whole header.
pub proof fn lemma_classified_well_formed(frame: Seq<u8>)
    ensures
        classified(frame) matches Some(e) ==> (e.protocol == IPPROTO_TCP || e.protocol
            == IPPROTO_UDP) && (e.well_formed() <==> be16(frame, 16) >= 20),
{
}

} // verus!
