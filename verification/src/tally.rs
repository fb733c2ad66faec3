//! Sums over the live flows, and how they move when a flow is added,
//! replaced or removed.

use vstd::prelude::*;
use crate::flow_table::FlowMap;
use crate::state::ConnectionStats;

verus! {

/// The sum of `measure` over the flows of a finite map.
pub open spec fn tally(flows: FlowMap, measure: spec_fn(ConnectionStats) -> nat) -> nat
    decreases flows.dom().len(),
    when flows.dom().finite()
{
    if flows.dom().len() == 0 {
        0
    } else {
        let k = flows.dom().choose();
        measure(flows[k]) + tally(flows.remove(k), measure)
    }
}

/// The packets counted over all flows of a map.
pub open spec fn packets_in(flows: FlowMap) -> nat {
    tally(flows, |s: ConnectionStats| s.packets_count as nat)
}

/// The bytes counted over all flows of a map.
pub open spec fn bytes_in(flows: FlowMap) -> nat {
    tally(flows, |s: ConnectionStats| s.bytes_sent as nat)
}

/// Any one flow can be taken out of the sum: it is the flow's measure plus
/// the sum over the rest.
pub proof fn lemma_tally_remove(
    flows: FlowMap,
    measure: spec_fn(ConnectionStats) -> nat,
    key: Seq<char>,
)
    requires
        flows.dom().finite(),
        flows.contains_key(key),
    ensures
        tally(flows, measure) == measure(flows[key]) + tally(flows.remove(key), measure),
    decreases flows.dom().len(),
{
    let c = flows.dom().choose();
    if c != key {
        let rest = flows.remove(c);
        lemma_tally_remove(rest, measure, key);
        lemma_tally_remove(flows.remove(key), measure, c);
        assert(rest.remove(key) =~= flows.remove(key).remove(c));
    }
}

/// Putting a record under a key makes the sum that record's measure plus
/// the sum over the other flows.
pub proof fn lemma_tally_insert(
    flows: FlowMap,
    measure: spec_fn(ConnectionStats) -> nat,
    key: Seq<char>,
    stats: ConnectionStats,
)
    requires
        flows.dom().finite(),
    ensures
        tally(flows.insert(key, stats), measure) == measure(stats) + tally(
            flows.remove(key),
            measure,
        ),
{
    let after = flows.insert(key, stats);
    lemma_tally_remove(after, measure, key);
    assert(after.remove(key) =~= flows.remove(key));
}

} // verus!
