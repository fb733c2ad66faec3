//! What the read API answers with: health, totals, the busiest live flows,
//! the bounded history, and the step by which an exported counter moves.

use vstd::prelude::*;
use vstd::string::StringExecFns;
use crate::flow_table::FlowMap;
use crate::state::{packet_views, ConnectionStats, PacketMetadata, TrafficState};
use crate::storage::{
    capped, history_of, newest_first, RowView, Storage, StorageError, StorageStage, MAX_HISTORY,
};

verus! {

/// Most flows that the live view shows.
pub const LIVE_LIMIT: usize = 50;

/// Rows of history where the caller names no limit.
pub const DEFAULT_HISTORY_LIMIT: usize = 100;

/// Answer of the health endpoint.
#[derive(Debug)]
pub struct HealthResponse {
    pub status: String,
    pub active_connections: usize,
    pub total_packets: u64,
}

/// The totals, as the stats endpoint and each frame of the stream carry
/// them. The rates of the stats endpoint are quotients of these by the
/// uptime.
#[derive(Clone, Copy, Debug, PartialEq, Eq)]
pub struct Totals {
    pub total_packets: u64,
    pub total_bytes: u64,
    pub active_connections: usize,
}

/// Answer of the live endpoint.
#[derive(Debug)]
pub struct LiveResponse {
    /// The busiest flows, busiest first.
    pub connections: Vec<(String, ConnectionStats)>,
    pub total_packets: u64,
    pub total_bytes: u64,
}

/// Query of the history endpoint.
#[derive(Clone, Copy, Debug)]
pub struct HistoryParams {
    pub limit: Option<usize>,
}

/// The limit that a history query runs with: the one asked for, or 100
/// where none was, and 1000 at most.
pub open spec fn effective(limit: Option<usize>) -> nat {
    match limit {
        Some(n) => capped(n as nat),
        None => DEFAULT_HISTORY_LIMIT as nat,
    }
}

/// The step by which a counter that only grows is moved to follow a total:
/// the distance to the total, and nothing where the total is behind.
pub open spec fn advance(current: u64, exported: u64) -> nat {
    if current > exported {
        (current - exported) as nat
    } else {
        0
    }
}

/// `picks` names distinct places of `all`, and `chosen` holds the flows at
/// those places in order, busiest first, none of them less busy than a flow
/// that was not picked.
pub open spec fn is_top_selection(
    all: Seq<(String, ConnectionStats)>,
    chosen: Seq<(String, ConnectionStats)>,
    picks: Seq<int>,
) -> bool {
    &&& picks.len() == chosen.len()
    &&& forall|i: int|
        0 <= i < picks.len() ==> 0 <= #[trigger] picks[i] < all.len() && chosen[i].0@
            == all[picks[i]].0@ && chosen[i].1 == all[picks[i]].1
    &&& forall|i: int, j: int|
        0 <= i < j < picks.len() ==> #[trigger] picks[i] != #[trigger] picks[j]
    &&& forall|i: int, j: int|
        0 <= i < j < chosen.len() ==> (#[trigger] chosen[i]).1.packets_count >= (
        #[trigger] chosen[j]).1.packets_count
    &&& forall|p: int, i: int|
        0 <= p < all.len() && !picks.contains(p) && 0 <= i < chosen.len() ==> (
        #[trigger] all[p]).1.packets_count <= (#[trigger] chosen[i]).1.packets_count
}

/// The `limit` busiest flows of a listing, by packets, busiest first; all
/// of them where the listing has fewer. Flows that are equally busy come
/// in no particular order.
pub fn top_flows(all: &Vec<(String, ConnectionStats)>, limit: usize) -> (chosen: Vec<
    (String, ConnectionStats),
>)
    ensures
        chosen@.len() == if limit <= all@.len() {
            limit as int
        } else {
            all@.len() as int
        },
        exists|picks: Seq<int>| is_top_selection(all@, chosen@, picks),
{
    let n = all.len();
    let k = if limit <= n {
        limit
    } else {
        n
    };
    let mut order: Vec<usize> = Vec::new();
    let mut i: usize = 0;
    while i < n
        invariant
            0 <= i <= n,
            n == all@.len(),
            order@.len() == i,
            forall|j: int| 0 <= j < i ==> order@[j] == j,
        decreases n - i,
    {
        order.push(i);
        i = i + 1;
    }
    let mut done: usize = 0;
    while done < k
        invariant
            0 <= done <= k <= n,
            n == all@.len(),
            order@.len() == n,
            forall|j: int| 0 <= j < n ==> 0 <= #[trigger] order@[j] < n,
            forall|a: int, b: int| 0 <= a < b < n ==> #[trigger] order@[a] != #[trigger] order@[b],
            forall|a: int, b: int|
                0 <= a < done && a < b < n ==> all@[#[trigger] order@[a] as int].1.packets_count
                    >= all@[#[trigger] order@[b] as int].1.packets_count,
        decreases k - done,
    {
        let mut best: usize = done;
        let mut j: usize = done + 1;
        while j < n
            invariant
                done < n,
                done <= best < j <= n,
                n == all@.len(),
                order@.len() == n,
                forall|m: int| 0 <= m < n ==> 0 <= #[trigger] order@[m] < n,
                forall|m: int|
                    done <= m < j ==> all@[order@[best as int] as int].1.packets_count
                        >= all@[#[trigger] order@[m] as int].1.packets_count,
            decreases n - j,
        {
            if all[order[j]].1.packets_count > all[order[best]].1.packets_count {
                best = j;
            }
            j = j + 1;
        }
        let first = order[done];
        let top = order[best];
        order.set(done, top);
        order.set(best, first);
        done = done + 1;
    }
    let mut chosen: Vec<(String, ConnectionStats)> = Vec::new();
    let mut c: usize = 0;
    while c < k
        invariant
            0 <= c <= k <= n,
            n == all@.len(),
            order@.len() == n,
            chosen@.len() == c,
            forall|j: int| 0 <= j < n ==> 0 <= #[trigger] order@[j] < n,
            forall|j: int|
                0 <= j < c ==> (#[trigger] chosen@[j]).0@ == all@[order@[j] as int].0@
                    && chosen@[j].1 == all@[order@[j] as int].1,
        decreases k - c,
    {
        let at = order[c];
        chosen.push((all[at].0.clone(), all[at].1));
        c = c + 1;
    }
    proof {
        let picks = Seq::new(k as nat, |j: int| order@[j] as int);
        assert forall|p: int, i: int|
            0 <= p < all@.len() && !picks.contains(p) && 0 <= i < chosen@.len() implies (
        #[trigger] all@[p]).1.packets_count <= (#[trigger] chosen@[i]).1.packets_count by {
            lemma_permutation_covers(order@, p);
            let b = choose|b: int| 0 <= b < n && order@[b] == p;
            if b < k {
                assert(picks[b] == p);
            }
        }
        assert forall|i: int, j: int| 0 <= i < j < chosen@.len() implies (
        #[trigger] chosen@[i]).1.packets_count >= (#[trigger] chosen@[j]).1.packets_count by {}
        assert(is_top_selection(all@, chosen@, picks));
    }
    chosen
}

/// A list of `n` distinct numbers below `n` holds every number below `n`.
pub proof fn lemma_permutation_covers(order: Seq<usize>, p: int)
    requires
        0 <= p < order.len() <= usize::MAX,
        forall|j: int| 0 <= j < order.len() ==> 0 <= #[trigger] order[j] < order.len(),
        forall|a: int, b: int|
            0 <= a < b < order.len() ==> #[trigger] order[a] != #[trigger] order[b],
    ensures
        exists|b: int| 0 <= b < order.len() && order[b] == p,
{
    let values = order.to_set();
    let all = Set::new(|x: usize| 0 <= x < order.len());
    order.unique_seq_to_set();
    lemma_usize_range_len(order.len());
    vstd::set_lib::lemma_subset_equality(values, all);
    assert(all.contains(p as usize));
    let b = choose|b: int| 0 <= b < order.len() && order[b] == p as usize;
}

/// There are `n` numbers below `n`.
pub proof fn lemma_usize_range_len(n: nat)
    requires
        n <= usize::MAX,
    ensures
        Set::new(|x: usize| 0 <= x < n).finite(),
        Set::new(|x: usize| 0 <= x < n).len() == n,
    decreases n,
{
    let s = Set::new(|x: usize| 0 <= x < n);
    if n == 0 {
        assert(s =~= Set::empty());
    } else {
        let fewer = Set::new(|x: usize| 0 <= x < n - 1);
        lemma_usize_range_len((n - 1) as nat);
        assert(s =~= fewer.insert((n - 1) as usize));
    }
}

impl HistoryParams {
    /// The limit that the query runs with.
    pub fn effective_limit(&self) -> (limit: usize)
        ensures
            limit == effective(self.limit),
            limit <= MAX_HISTORY,
    {
        match self.limit {
            Some(n) => if n <= MAX_HISTORY {
                n
            } else {
                MAX_HISTORY
            },
            None => DEFAULT_HISTORY_LIMIT,
        }
    }
}

/// The health of the agent: always `ok`, with the number of live flows and
/// the packets seen.
pub fn health(state: &TrafficState) -> (answer: HealthResponse)
    ensures
        answer.status@ == "ok"@,
        answer.active_connections == state.active(),
        answer.total_packets == state.packets(),
{
    HealthResponse {
        status: String::from_str("ok"),
        active_connections: state.active_connections(),
        total_packets: state.total_packets(),
    }
}

/// The health of the agent, given its totals: always `ok`, with the number
/// of live flows and the packets seen.
pub fn health_of(totals: Totals) -> (answer: HealthResponse)
    ensures
        answer.status@ == "ok"@,
        answer.active_connections == totals.active_connections,
        answer.total_packets == totals.total_packets,
{
    HealthResponse {
        status: String::from_str("ok"),
        active_connections: totals.active_connections,
        total_packets: totals.total_packets,
    }
}

/// The packets of a run of totals, added up.
pub open spec fn packets_summed(parts: Seq<Totals>) -> nat
    decreases parts.len(),
{
    if parts.len() == 0 {
        0
    } else {
        packets_summed(parts.drop_last()) + parts.last().total_packets as nat
    }
}

/// The bytes of a run of totals, added up.
pub open spec fn bytes_summed(parts: Seq<Totals>) -> nat
    decreases parts.len(),
{
    if parts.len() == 0 {
        0
    } else {
        bytes_summed(parts.drop_last()) + parts.last().total_bytes as nat
    }
}

/// The live flows of a run of totals, added up.
pub open spec fn active_summed(parts: Seq<Totals>) -> nat
    decreases parts.len(),
{
    if parts.len() == 0 {
        0
    } else {
        active_summed(parts.drop_last()) + parts.last().active_connections as nat
    }
}

/// The sums over the first parts of a run of totals are no more than the
/// sums over all of them.
pub proof fn lemma_summed_prefix(parts: Seq<Totals>, n: int)
    requires
        0 <= n <= parts.len(),
    ensures
        packets_summed(parts.take(n)) <= packets_summed(parts),
        bytes_summed(parts.take(n)) <= bytes_summed(parts),
        active_summed(parts.take(n)) <= active_summed(parts),
    decreases parts.len(),
{
    if n == parts.len() {
        assert(parts.take(n) =~= parts);
    } else {
        assert(parts.drop_last().take(n) =~= parts.take(n));
        lemma_summed_prefix(parts.drop_last(), n);
    }
}

/// The totals of the whole live state, given the totals of its shards:
/// their sums. There are none where a sum is beyond its counter.
pub fn combined(parts: &Vec<Totals>) -> (whole: Option<Totals>)
    ensures
        match whole {
            Some(t) => t.total_packets == packets_summed(parts@) && t.total_bytes == bytes_summed(
                parts@,
            ) && t.active_connections == active_summed(parts@),
            None => packets_summed(parts@) > u64::MAX || bytes_summed(parts@) > u64::MAX
                || active_summed(parts@) > usize::MAX,
        },
{
    let mut whole = Totals { total_packets: 0, total_bytes: 0, active_connections: 0 };
    let mut i: usize = 0;
    while i < parts.len()
        invariant
            0 <= i <= parts@.len(),
            whole.total_packets == packets_summed(parts@.take(i as int)),
            whole.total_bytes == bytes_summed(parts@.take(i as int)),
            whole.active_connections == active_summed(parts@.take(i as int)),
        decreases parts@.len() - i,
    {
        proof {
            assert(parts@.take(i + 1).drop_last() =~= parts@.take(i as int));
            lemma_summed_prefix(parts@, i + 1);
        }
        let part = parts[i];
        if part.total_packets > u64::MAX - whole.total_packets || part.total_bytes > u64::MAX
            - whole.total_bytes || part.active_connections > usize::MAX
            - whole.active_connections {
            return None;
        }
        whole = Totals {
            total_packets: whole.total_packets + part.total_packets,
            total_bytes: whole.total_bytes + part.total_bytes,
            active_connections: whole.active_connections + part.active_connections,
        };
        i = i + 1;
    }
    assert(parts@.take(parts@.len() as int) =~= parts@);
    Some(whole)
}

/// The live view of a listing of flows with their totals: the 50 busiest
/// flows of the listing, busiest first, and the totals as given.
pub fn live_of(all: &Vec<(String, ConnectionStats)>, totals: Totals) -> (answer: LiveResponse)
    ensures
        answer.total_packets == totals.total_packets,
        answer.total_bytes == totals.total_bytes,
        answer.connections@.len() == if LIVE_LIMIT <= all@.len() {
            LIVE_LIMIT as int
        } else {
            all@.len() as int
        },
        exists|picks: Seq<int>| is_top_selection(all@, answer.connections@, picks),
{
    LiveResponse {
        connections: top_flows(all, LIVE_LIMIT),
        total_packets: totals.total_packets,
        total_bytes: totals.total_bytes,
    }
}

/// The totals since start.
pub fn totals(state: &TrafficState) -> (answer: Totals)
    ensures
        answer.total_packets == state.packets(),
        answer.total_bytes == state.bytes(),
        answer.active_connections == state.active(),
{
    Totals {
        total_packets: state.total_packets(),
        total_bytes: state.total_bytes(),
        active_connections: state.active_connections(),
    }
}

/// The live view: the 50 busiest flows, busiest first, and the totals.
pub fn live(state: &TrafficState) -> (answer: LiveResponse)
    requires
        state.wf(),
    ensures
        answer.total_packets == state.packets(),
        answer.total_bytes == state.bytes(),
        answer.connections@.len() == if state.flows().dom().len() <= LIVE_LIMIT {
            state.flows().dom().len()
        } else {
            LIVE_LIMIT as nat
        },
        forall|i: int|
            0 <= i < answer.connections@.len() ==> state.flows().contains_key(
                (#[trigger] answer.connections@[i]).0@,
            ) && state.flows()[answer.connections@[i].0@] == answer.connections@[i].1,
        forall|i: int, j: int|
            0 <= i < j < answer.connections@.len() ==> (
            #[trigger] answer.connections@[i]).1.packets_count >= (
            #[trigger] answer.connections@[j]).1.packets_count,
        forall|i: int, j: int|
            0 <= i < j < answer.connections@.len() ==> (#[trigger] answer.connections@[i]).0@ != (
            #[trigger] answer.connections@[j]).0@,
        forall|k: Seq<char>, i: int|
            state.flows().contains_key(k) && 0 <= i < answer.connections@.len() && (forall|
                j: int,
            |
                0 <= j < answer.connections@.len() ==> (#[trigger] answer.connections@[j]).0@ != k)
                ==> (#[trigger] state.flows()[k]).packets_count <= (
            #[trigger] answer.connections@[i]).1.packets_count,
{
    let all = state.snapshot();
    let connections = top_flows(&all, LIVE_LIMIT);
    proof {
        let picks = choose|picks: Seq<int>| is_top_selection(all@, connections@, picks);
        assert forall|i: int, j: int| 0 <= i < j < connections@.len() implies (
        #[trigger] connections@[i]).0@ != (#[trigger] connections@[j]).0@ by {
            assert(picks[i] != picks[j]);
        }
        assert forall|i: int| 0 <= i < connections@.len() implies state.flows().contains_key(
            (#[trigger] connections@[i]).0@,
        ) && state.flows()[connections@[i].0@] == connections@[i].1 by {
            assert(state.flows().contains_key(all@[picks[i]].0@));
        }
        assert forall|k: Seq<char>, i: int|
            state.flows().contains_key(k) && 0 <= i < connections@.len() && (forall|j: int|
                0 <= j < connections@.len() ==> (#[trigger] connections@[j]).0@
                    != k) implies (#[trigger] state.flows()[k]).packets_count <= (
        #[trigger] connections@[i]).1.packets_count by {
            let p = choose|p: int| 0 <= p < all@.len() && (#[trigger] all@[p]).0@ == k;
            if picks.contains(p) {
                let j = choose|j: int| 0 <= j < picks.len() && picks[j] == p;
                assert(connections@[j].0@ == k);
            }
        }
    }
    LiveResponse {
        connections,
        total_packets: state.total_packets(),
        total_bytes: state.total_bytes(),
    }
}

/// The history that the endpoint answers with: the most recent rows,
/// newest first, as many as the query's effective limit at most. With an
/// effective limit of zero there are none, and the store is not asked; with
/// any other, the answer is the history that the store's answer stands for.
pub fn history(storage: &Storage, params: &HistoryParams) -> (answer: Result<
    Vec<PacketMetadata>,
    StorageError,
>)
    ensures
        effective(params.limit) == 0 ==> answer is Ok && answer->Ok_0@.len() == 0,
        match answer {
            Ok(packets) => {
                &&& packets@.len() <= effective(params.limit)
                &&& newest_first(packet_views(packets@))
                &&& exists|rows: Seq<RowView>| #[trigger]
                    history_of(rows, effective(params.limit)) == Some(packet_views(packets@))
            },
            Err(e) => effective(params.limit) > 0 && (e.stage == StorageStage::Query || e.stage
                == StorageStage::Decode),
        },
{
    let limit = params.effective_limit();
    let answer = storage.query_history(limit);
    proof {
        assert(capped(limit as nat) == effective(params.limit));
    }
    answer
}

/// The step by which an exported counter is moved to follow a total.
pub fn counter_advance(current: u64, exported: u64) -> (step: u64)
    ensures
        step == advance(current, exported),
        exported + step >= current,
        current >= exported ==> exported + step == current,
{
    if current > exported {
        current - exported
    } else {
        0
    }
}

} // verus!
