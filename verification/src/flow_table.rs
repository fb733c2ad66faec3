//! The concurrent map that holds the live flows, and what is taken on trust
//! about it.

use vstd::prelude::*;
use dashmap::DashMap;
use crate::state::ConnectionStats;

verus! {

/// `dashmap::DashMap`, held as it is: nothing inside a map is visible to a
/// proof but through the functions below.
#[verifier::external_type_specification]
#[verifier::external_body]
#[verifier::reject_recursive_types(K)]
#[verifier::reject_recursive_types(V)]
#[verifier::reject_recursive_types(S)]
pub struct ExDashMap<K, V, S>(DashMap<K, V, S>);

/// Flows as mathematics: the text of each key with the flow's counters.
pub type FlowMap = Map<Seq<char>, ConnectionStats>;

/// The flows that a table holds.
pub uninterp spec fn flows_of(table: DashMap<String, ConnectionStats>) -> FlowMap;

/// What the table holds for `key` after a packet of `length` bytes seen at
/// `now`: the advanced record of a known flow, the opening record of a new
/// one.
pub open spec fn upserted(
    flows: FlowMap,
    key: Seq<char>,
    length: u64,
    now: u64,
) -> ConnectionStats {
    if flows.contains_key(key) {
        flows[key].advanced(length, now)
    } else {
        ConnectionStats::opened(length, now)
    }
}

/// `DashMap::new`: a table without flows.
#[verifier::external_body]
pub(crate) fn flow_table_new() -> (table: DashMap<String, ConnectionStats>)
    ensures
        flows_of(table) == FlowMap::empty(),
{
    DashMap::new()
}

/// `DashMap::contains_key`: whether the table holds a flow under `key`.
#[verifier::external_body]
pub(crate) fn flow_table_contains(table: &DashMap<String, ConnectionStats>, key: &str) -> (known:
    bool)
    ensures
        known == flows_of(*table).contains_key(key@),
{
    table.contains_key(key)
}

/// `DashMap::entry`, then `Entry::and_modify` and `Entry::or_insert_with`:
/// under the entry's lock, a flow that is there has the packet recorded in
/// place, and a flow that is not is inserted with its opening record. No
/// other key is touched.
#[verifier::external_body]
pub(crate) fn flow_table_upsert(
    table: &mut DashMap<String, ConnectionStats>,
    key: String,
    length: u64,
    now: u64,
)
    requires
        flows_of(*old(table)).contains_key(key@) ==> flows_of(*old(table))[key@].has_room(length),
    ensures
        flows_of(*final(table)) == flows_of(*old(table)).insert(
            key@,
            upserted(flows_of(*old(table)), key@, length, now),
        ),
{
    table.entry(key).and_modify(|stats| stats.record(length, now)).or_insert_with(
        || ConnectionStats::first(length, now),
    );
}

/// `DashMap::remove`: the flow under `key` leaves the table, if it was
/// there. No other key is touched.
#[verifier::external_body]
pub(crate) fn flow_table_remove(table: &mut DashMap<String, ConnectionStats>, key: &str)
    ensures
        flows_of(*final(table)) == flows_of(*old(table)).remove(key@),
{
    table.remove(key);
}

/// `DashMap::iter`, collected: every flow of the table once, with a copy of
/// its key and its counters, in an order that is not specified.
#[verifier::external_body]
pub(crate) fn flow_table_snapshot(table: &DashMap<String, ConnectionStats>) -> (all: Vec<
    (String, ConnectionStats),
>)
    ensures
        forall|i: int|
            0 <= i < all@.len() ==> flows_of(*table).contains_key((#[trigger] all@[i]).0@)
                && flows_of(*table)[all@[i].0@] == all@[i].1,
        forall|i: int, j: int|
            0 <= i < j < all@.len() ==> (#[trigger] all@[i]).0@ != (#[trigger] all@[j]).0@,
        forall|k: Seq<char>| #[trigger]
            flows_of(*table).contains_key(k) ==> exists|i: int|
                0 <= i < all@.len() && (#[trigger] all@[i]).0@ == k,
{
    table.iter().map(|entry| (entry.key().clone(), *entry.value())).collect()
}

} // verus!
