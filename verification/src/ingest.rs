//! The ingest step: from one record of the event transport to the metadata
//! that the live state and the writer are given.

use vstd::prelude::*;
use crate::clock::wall_clock_millis;
use crate::event::{decoded, PacketEvent};
use crate::state::{lifted, opt_text, PacketMetadata, PacketView};

verus! {

/// What a record is lifted to at `timestamp`: nothing where it is shorter
/// than an event, else the metadata of the event at its start.
pub open spec fn lifted_record(record: Seq<u8>, timestamp: i64) -> Option<PacketView> {
    match decoded(record) {
        Some(event) => Some(lifted(event, timestamp)),
        None => None,
    }
}

/// Decodes one record and lifts it to metadata stamped `timestamp`. A
/// record that is too short is discarded.
pub fn lift_record_at(record: &[u8], timestamp: i64) -> (meta: Option<PacketMetadata>)
    ensures
        match meta {
            Some(m) => lifted_record(record@, timestamp) == Some(m@),
            None => lifted_record(record@, timestamp) is None,
        },
        meta is Some <==> record@.len() >= 20,
{
    match PacketEvent::decode(record) {
        Some(event) => Some(PacketMetadata::from_event_at(&event, timestamp)),
        None => None,
    }
}

/// Decodes one record and lifts it to metadata stamped with the wall clock
/// at this moment. Whatever the clock shows, a record that is too short is
/// discarded and any other is lifted.
pub fn lift_record(record: &[u8]) -> (meta: Option<PacketMetadata>)
    ensures
        match meta {
            Some(m) => lifted_record(record@, m.timestamp) == Some(m@),
            None => record@.len() < 20,
        },
        meta is Some <==> record@.len() >= 20,
{
    let now = wall_clock_millis();
    lift_record_at(record, now)
}

/// Attaches the host names that enrichment found; a name that was not
/// found stays unset.
pub fn enrich(meta: &mut PacketMetadata, src_hostname: Option<String>, dst_hostname: Option<String>)
    ensures
        final(meta)@ == (PacketView {
            src_hostname: opt_text(src_hostname),
            dst_hostname: opt_text(dst_hostname),
            ..old(meta)@
        }),
{
    meta.src_hostname = src_hostname;
    meta.dst_hostname = dst_hostname;
}

} // verus!
