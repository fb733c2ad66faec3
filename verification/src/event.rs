//! The fixed-size event that the classifier hands to the agent, and its
//! 20-byte record layout.

use vstd::prelude::*;

verus! {

/// Size in bytes of one event record.
pub const EVENT_SIZE: usize = 20;

/// IANA protocol number of TCP.
pub const IPPROTO_TCP: u8 = 6;

/// IANA protocol number of UDP.
pub const IPPROTO_UDP: u8 = 17;

/// Shortest IPv4 datagram: a header without options and no payload.
pub const MIN_IPV4_LEN: u32 = 20;

/// One observed packet: the flow tuple and the datagram length.
///
/// Addresses and ports are held in host byte order. A record lays the fields
/// out in declaration order, little-endian, with no gaps.
#[derive(Clone, Copy, Debug, PartialEq, Eq)]
pub struct PacketEvent {
    /// Source IPv4 address.
    pub src_addr: u32,
    /// Destination IPv4 address.
    pub dst_addr: u32,
    /// Source port.
    pub src_port: u16,
    /// Destination port.
    pub dst_port: u16,
    /// IP protocol number.
    pub protocol: u8,
    /// Reserved, zero on the wire.
    pub _pad: [u8; 3],
    /// Total length of the IPv4 datagram in bytes.
    pub pkt_len: u32,
}

/// The little-endian number held in the two bytes of `s` starting at `at`.
pub open spec fn le16(s: Seq<u8>, at: int) -> int {
    s[at] as int + 256 * (s[at + 1] as int)
}

/// The little-endian number held in the four bytes of `s` starting at `at`.
pub open spec fn le32(s: Seq<u8>, at: int) -> int {
    s[at] as int + 256 * (s[at + 1] as int) + 65536 * (s[at + 2] as int) + 16777216 * (s[at + 3] as int)
}

/// Byte `i` (0 is the least significant) of `x`.
pub open spec fn byte_of(x: int, i: int) -> u8 {
    if i == 0 {
        (x % 256) as u8
    } else if i == 1 {
        ((x / 256) % 256) as u8
    } else if i == 2 {
        ((x / 65536) % 256) as u8
    } else {
        ((x / 16777216) % 256) as u8
    }
}

/// The record that carries `e`, reserved bytes zeroed.
pub open spec fn wire_bytes(e: PacketEvent) -> Seq<u8> {
    seq![
        byte_of(e.src_addr as int, 0), byte_of(e.src_addr as int, 1),
        byte_of(e.src_addr as int, 2), byte_of(e.src_addr as int, 3),
        byte_of(e.dst_addr as int, 0), byte_of(e.dst_addr as int, 1),
        byte_of(e.dst_addr as int, 2), byte_of(e.dst_addr as int, 3),
        byte_of(e.src_port as int, 0), byte_of(e.src_port as int, 1),
        byte_of(e.dst_port as int, 0), byte_of(e.dst_port as int, 1),
        e.protocol, 0u8, 0u8, 0u8,
        byte_of(e.pkt_len as int, 0), byte_of(e.pkt_len as int, 1),
        byte_of(e.pkt_len as int, 2), byte_of(e.pkt_len as int, 3),
    ]
}

/// What a record of at least 20 bytes decodes to; a shorter one holds no event.
pub open spec fn decoded(record: Seq<u8>) -> Option<PacketEvent> {
    if record.len() < 20 {
        None
    } else {
        Some(
            PacketEvent {
                src_addr: le32(record, 0) as u32,
                dst_addr: le32(record, 4) as u32,
                src_port: le16(record, 8) as u16,
                dst_port: le16(record, 10) as u16,
                protocol: record[12],
                _pad: [record[13], record[14], record[15]],
                pkt_len: le32(record, 16) as u32,
            },
        )
    }
}

fn read_le16(record: &[u8], at: usize) -> (x: u16)
    requires
        at + 2 <= record.len(),
    ensures
        x == le16(record@, at as int),
{
    let lo: u16 = record[at] as u16;
    let hi: u16 = record[at + 1] as u16;
    lo + 256 * hi
}

fn read_le32(record: &[u8], at: usize) -> (x: u32)
    requires
        at + 4 <= record.len(),
    ensures
        x == le32(record@, at as int),
{
    let b0: u32 = record[at] as u32;
    let b1: u32 = record[at + 1] as u32;
    let b2: u32 = record[at + 2] as u32;
    let b3: u32 = record[at + 3] as u32;
    b0 + 256 * b1 + 65536 * b2 + 16777216 * b3
}

fn byte_at(x: u32, i: u8) -> (b: u8)
    requires
        i < 4,
    ensures
        b == byte_of(x as int, i as int),
{
    if i == 0 {
        (x % 256) as u8
    } else if i == 1 {
        ((x / 256) % 256) as u8
    } else if i == 2 {
        ((x / 65536) % 256) as u8
    } else {
        ((x / 16777216) % 256) as u8
    }
}

impl PacketEvent {
    /// What the data model asks of an event that the classifier emitted
    /// for a transport it knows and a datagram with a whole header.
    pub open spec fn well_formed(self) -> bool {
        &&& (self.protocol == IPPROTO_TCP || self.protocol == IPPROTO_UDP)
        &&& self.pkt_len >= MIN_IPV4_LEN
    }

    /// Lays the event out as one record, field by field, with the reserved
    /// bytes zeroed.
    pub fn encode(&self) -> (out: [u8; 20])
        ensures
            out@ == wire_bytes(*self),
    {
        let out: [u8; 20] = [
            byte_at(self.src_addr, 0), byte_at(self.src_addr, 1),
            byte_at(self.src_addr, 2), byte_at(self.src_addr, 3),
            byte_at(self.dst_addr, 0), byte_at(self.dst_addr, 1),
            byte_at(self.dst_addr, 2), byte_at(self.dst_addr, 3),
            byte_at(self.src_port as u32, 0), byte_at(self.src_port as u32, 1),
            byte_at(self.dst_port as u32, 0), byte_at(self.dst_port as u32, 1),
            self.protocol, 0, 0, 0,
            byte_at(self.pkt_len, 0), byte_at(self.pkt_len, 1),
            byte_at(self.pkt_len, 2), byte_at(self.pkt_len, 3),
        ];
        out
    }

    /// Reads the event at the start of a record. A record shorter than an
    /// event is discarded; bytes past the event are ignored.
    pub fn decode(record: &[u8]) -> (out: Option<PacketEvent>)
        ensures
            out == decoded(record@),
            out is Some <==> record@.len() >= EVENT_SIZE,
    {
        if record.len() < EVENT_SIZE {
            return None;
        }
        Some(
            PacketEvent {
                src_addr: read_le32(record, 0),
                dst_addr: read_le32(record, 4),
                src_port: read_le16(record, 8),
                dst_port: read_le16(record, 10),
                protocol: record[12],
                _pad: [record[13], record[14], record[15]],
                pkt_len: read_le32(record, 16),
            },
        )
    }
}

/// The four bytes of a 32-bit number put it together again, and so do the
/// two bytes of a 16-bit number.
pub proof fn lemma_bytes_compose(x: u32)
    ensures
        byte_of(x as int, 0) as int + 256 * (byte_of(x as int, 1) as int) + 65536 * (byte_of(
            x as int,
            2,
        ) as int) + 16777216 * (byte_of(x as int, 3) as int) == x,
        x < 65536 ==> byte_of(x as int, 0) as int + 256 * (byte_of(x as int, 1) as int) == x,
{
}

/// Decoding the record of an event gives the event back, field for field,
/// with the reserved bytes zeroed.
pub proof fn lemma_decode_encode(e: PacketEvent)
    ensures
        decoded(wire_bytes(e)) matches Some(d) && d.src_addr == e.src_addr && d.dst_addr
            == e.dst_addr && d.src_port == e.src_port && d.dst_port == e.dst_port && d.protocol
            == e.protocol && d.pkt_len == e.pkt_len && d._pad@ == seq![0u8, 0u8, 0u8],
{
    let s = wire_bytes(e);
    let d = decoded(s)->0;
    lemma_bytes_compose(e.src_addr);
    lemma_bytes_compose(e.dst_addr);
    lemma_bytes_compose(e.src_port as u32);
    lemma_bytes_compose(e.dst_port as u32);
    lemma_bytes_compose(e.pkt_len);
}

} // verus!
