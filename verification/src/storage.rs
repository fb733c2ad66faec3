//! The durable store of packet rows: schema, batched writes, history and
//! retention.

use vstd::prelude::*;
use vstd::string::StringExecFns;
use rusqlite::{Connection, Error};
use crate::clock::wall_clock_millis;
use crate::sqlite::{
    db_begin, db_commit, db_connection, db_error_text, db_execute, db_execute_batch, db_insert,
    db_open, db_prepare, db_query_text, db_rows,
};
use crate::aggregate::BucketTable;
use crate::state::{
    copy_opt, opt_text, packet_views, AggregatedBucket, BucketView, PacketMetadata, PacketView,
};

verus! {

/// Most rows that one history query returns.
pub const MAX_HISTORY: usize = 1000;

/// Turns on write-ahead logging.
pub const JOURNAL_SQL: &'static str = "PRAGMA journal_mode=WAL;";

/// Relaxes the synchrony of commits to what write-ahead logging needs.
pub const SYNCHRONOUS_SQL: &'static str = "PRAGMA synchronous=NORMAL;";

/// Creates the table of packet rows where it is missing.
pub const CREATE_TABLE_SQL: &'static str =
    "CREATE TABLE IF NOT EXISTS packets (
                id INTEGER PRIMARY KEY,
                timestamp INTEGER NOT NULL,
                src_ip TEXT NOT NULL,
                dst_ip TEXT NOT NULL,
                src_port INTEGER,
                dst_port INTEGER,
                protocol TEXT,
                length INTEGER,
                src_hostname TEXT,
                dst_hostname TEXT
            )";

/// Adds the source host name to a table that predates it.
pub const ADD_SRC_HOSTNAME_SQL: &'static str = "ALTER TABLE packets ADD COLUMN src_hostname TEXT";

/// Adds the destination host name to a table that predates it.
pub const ADD_DST_HOSTNAME_SQL: &'static str = "ALTER TABLE packets ADD COLUMN dst_hostname TEXT";

/// Creates the index on the time stamp where it is missing.
pub const CREATE_INDEX_SQL: &'static str =
    "CREATE INDEX IF NOT EXISTS idx_timestamp ON packets(timestamp)";

/// Inserts one row.
pub const INSERT_SQL: &'static str =
    "INSERT INTO packets (timestamp, src_ip, dst_ip, src_port, dst_port, protocol, length, src_hostname, dst_hostname)
                 VALUES (?1, ?2, ?3, ?4, ?5, ?6, ?7, ?8, ?9)";

/// Selects the most recent rows, newest first.
pub const SELECT_RECENT_SQL: &'static str =
    "SELECT timestamp, src_ip, dst_ip, src_port, dst_port, protocol, length, src_hostname, dst_hostname
             FROM packets ORDER BY timestamp DESC LIMIT ?1";

/// Deletes the rows stamped before a given time.
pub const DELETE_BEFORE_SQL: &'static str = "DELETE FROM packets WHERE timestamp < ?1";

/// The step of the store's work at which the database reported an error.
#[derive(Clone, Copy, Debug, PartialEq, Eq)]
pub enum StorageStage {
    Open,
    Journal,
    Synchronous,
    Schema,
    Index,
    Query,
    Decode,
    Delete,
}

/// An error of the store: where it came up, and the database's words.
#[derive(Debug)]
pub struct StorageError {
    pub stage: StorageStage,
    pub message: String,
}

/// How a flush ended.
#[derive(Clone, Copy, Debug, PartialEq, Eq)]
pub enum FlushOutcome {
    /// The transaction was committed.
    Committed,
    /// The transaction could not be begun.
    BeginFailed,
    /// The insert statement could not be prepared.
    PrepareFailed,
    /// The rows were handed over, but the commit failed.
    CommitFailed,
}

/// What became of one batch.
#[derive(Debug)]
pub struct FlushReport {
    pub outcome: FlushOutcome,
    /// Packets or buckets in the batch.
    pub batch: usize,
    /// Packets of the batch that have no row and were left out.
    pub unfit: usize,
    /// Rows that the database took.
    pub stored: usize,
    /// Rows that were handed to the database and that it refused.
    pub refused: usize,
    /// The database's words on the failure that ended the flush, if any.
    pub error: Option<String>,
}

/// How many of the database's answers to the inserts of a batch say that
/// the row was taken.
pub open spec fn taken_count(taken: Seq<bool>) -> nat
    decreases taken.len(),
{
    if taken.len() == 0 {
        0
    } else {
        taken_count(taken.drop_last()) + if taken.last() {
            1nat
        } else {
            0nat
        }
    }
}

/// One row of the table `packets`, without its id.
#[derive(Debug)]
pub struct Row {
    pub timestamp: i64,
    pub src_ip: String,
    pub dst_ip: String,
    pub src_port: u16,
    pub dst_port: u16,
    pub protocol: String,
    /// Length of one packet, or all bytes of a flow in one window.
    pub length: i64,
    pub src_hostname: Option<String>,
    pub dst_hostname: Option<String>,
}

/// The mathematical content of a [`Row`].
pub struct RowView {
    pub timestamp: i64,
    pub src_ip: Seq<char>,
    pub dst_ip: Seq<char>,
    pub src_port: u16,
    pub dst_port: u16,
    pub protocol: Seq<char>,
    pub length: i64,
    pub src_hostname: Option<Seq<char>>,
    pub dst_hostname: Option<Seq<char>>,
}

impl View for Row {
    type V = RowView;

    open spec fn view(&self) -> RowView {
        RowView {
            timestamp: self.timestamp,
            src_ip: self.src_ip@,
            dst_ip: self.dst_ip@,
            src_port: self.src_port,
            dst_port: self.dst_port,
            protocol: self.protocol@,
            length: self.length,
            src_hostname: opt_text(self.src_hostname),
            dst_hostname: opt_text(self.dst_hostname),
        }
    }
}

/// The 64-bit two's-complement reading of an unsigned 64-bit number.
pub open spec fn as_signed(x: nat) -> int {
    if x <= i64::MAX {
        x as int
    } else {
        x - 0x1_0000_0000_0000_0000
    }
}

/// The row of one packet. A length beyond the signed 64-bit range has no
/// row.
pub open spec fn packet_row(p: PacketView) -> Option<RowView> {
    if p.length <= i64::MAX {
        Some(
            RowView {
                timestamp: p.timestamp,
                src_ip: p.src_ip,
                dst_ip: p.dst_ip,
                src_port: p.src_port,
                dst_port: p.dst_port,
                protocol: p.protocol,
                length: p.length as i64,
                src_hostname: p.src_hostname,
                dst_hostname: p.dst_hostname,
            },
        )
    } else {
        None
    }
}

/// The row of one bucket: stamped with the window's first sighting of the
/// flow, its length the bucket's bytes read as a signed number.
pub open spec fn bucket_row(b: BucketView) -> RowView {
    RowView {
        timestamp: b.first_timestamp,
        src_ip: b.src_ip,
        dst_ip: b.dst_ip,
        src_port: b.src_port,
        dst_port: b.dst_port,
        protocol: b.protocol,
        length: as_signed(b.total_bytes) as i64,
        src_hostname: b.src_hostname,
        dst_hostname: b.dst_hostname,
    }
}

/// The rows of a batch of packets, in order, without the packets that have
/// none.
pub open spec fn packet_rows(packets: Seq<PacketView>) -> Seq<RowView>
    decreases packets.len(),
{
    if packets.len() == 0 {
        Seq::empty()
    } else {
        match packet_row(packets.last()) {
            Some(row) => packet_rows(packets.drop_last()).push(row),
            None => packet_rows(packets.drop_last()),
        }
    }
}

/// A row stamped `timestamp` is past retention at `now_ms` when it is
/// more than `retention_seconds` old.
pub open spec fn past_retention(timestamp: i64, now_ms: i64, retention_seconds: u64) -> bool {
    timestamp < now_ms - retention_seconds * 1000
}

/// The time before which rows are past retention: `retention_seconds`
/// before `now_ms`, in milliseconds, and no earlier than the earliest time
/// that a row can bear.
pub open spec fn cutoff_at(now_ms: i64, retention_seconds: u64) -> int {
    if now_ms - retention_seconds * 1000 < i64::MIN {
        i64::MIN as int
    } else {
        now_ms - retention_seconds * 1000
    }
}

/// The packet that a stored row describes. A row whose length is negative,
/// or longer than anything held in memory, describes none.
pub open spec fn row_packet(r: RowView) -> Option<PacketView> {
    if 0 <= r.length <= usize::MAX {
        Some(
            PacketView {
                timestamp: r.timestamp,
                src_ip: r.src_ip,
                dst_ip: r.dst_ip,
                src_port: r.src_port,
                dst_port: r.dst_port,
                protocol: r.protocol,
                length: r.length as nat,
                src_hostname: r.src_hostname,
                dst_hostname: r.dst_hostname,
            },
        )
    } else {
        None
    }
}

/// The mathematical content of a run of rows.
pub open spec fn row_views(rows: Seq<Row>) -> Seq<RowView> {
    Seq::new(rows.len(), |i: int| rows[i]@)
}

/// Each of the first `n` rows describes a packet.
pub open spec fn decodable(rows: Seq<RowView>, n: int) -> bool {
    forall|i: int| 0 <= i < n ==> row_packet(#[trigger] rows[i]) is Some
}

/// The packets that the first `n` rows describe, in the rows' order.
pub open spec fn packets_of(rows: Seq<RowView>, n: int) -> Seq<PacketView> {
    Seq::new(n as nat, |i: int| row_packet(rows[i])->0)
}

/// The history that an answer of the database stands for, given the limit
/// that the query ran with: the packets of the first `cap` rows, or of all
/// where there are fewer. There is none where one of these rows describes
/// no packet, or where they are not in order, newest first.
pub open spec fn history_of(rows: Seq<RowView>, cap: nat) -> Option<Seq<PacketView>> {
    let n = if cap <= rows.len() {
        cap as int
    } else {
        rows.len() as int
    };
    if decodable(rows, n) && newest_first(packets_of(rows, n)) {
        Some(packets_of(rows, n))
    } else {
        None
    }
}

/// The packets are in the order of their time stamps, newest first.
pub open spec fn newest_first(packets: Seq<PacketView>) -> bool {
    forall|i: int, j: int|
        0 <= i < j < packets.len() ==> (#[trigger] packets[i]).timestamp >= (
        #[trigger] packets[j]).timestamp
}

/// The limit that a history query runs with: the caller's, and 1000 at
/// most.
pub open spec fn capped(limit: nat) -> nat {
    if limit <= MAX_HISTORY {
        limit
    } else {
        MAX_HISTORY as nat
    }
}

impl Row {
    /// The row that stores one packet, if its length can be stored.
    pub fn of_packet(packet: &PacketMetadata) -> (row: Option<Row>)
        ensures
            match row {
                Some(r) => packet_row(packet@) == Some(r@),
                None => packet_row(packet@) is None,
            },
    {
        if packet.length as u64 > i64::MAX as u64 {
            return None;
        }
        Some(
            Row {
                timestamp: packet.timestamp,
                src_ip: packet.src_ip.clone(),
                dst_ip: packet.dst_ip.clone(),
                src_port: packet.src_port,
                dst_port: packet.dst_port,
                protocol: packet.protocol.clone(),
                length: packet.length as i64,
                src_hostname: copy_opt(&packet.src_hostname),
                dst_hostname: copy_opt(&packet.dst_hostname),
            },
        )
    }

    /// The packet that a stored row describes, if the row's length is one
    /// that a packet can have.
    pub fn to_packet(&self) -> (packet: Option<PacketMetadata>)
        ensures
            match packet {
                Some(p) => row_packet(self@) == Some(p@) && packet_row(p@) == Some(self@),
                None => row_packet(self@) is None,
            },
    {
        if self.length < 0 || self.length as u64 > usize::MAX as u64 {
            return None;
        }
        Some(
            PacketMetadata {
                timestamp: self.timestamp,
                src_ip: self.src_ip.clone(),
                dst_ip: self.dst_ip.clone(),
                src_port: self.src_port,
                dst_port: self.dst_port,
                protocol: self.protocol.clone(),
                length: self.length as usize,
                src_hostname: copy_opt(&self.src_hostname),
                dst_hostname: copy_opt(&self.dst_hostname),
            },
        )
    }

    /// The one row that stores a bucket.
    pub fn of_bucket(bucket: &AggregatedBucket) -> (row: Row)
        ensures
            row@ == bucket_row(bucket@),
    {
        let length: i64 = if bucket.total_bytes <= i64::MAX as u64 {
            bucket.total_bytes as i64
        } else {
            let low: u64 = bucket.total_bytes - 0x8000_0000_0000_0000;
            low as i64 + i64::MIN
        };
        Row {
            timestamp: bucket.first_timestamp,
            src_ip: bucket.src_ip.clone(),
            dst_ip: bucket.dst_ip.clone(),
            src_port: bucket.src_port,
            dst_port: bucket.dst_port,
            protocol: bucket.protocol.clone(),
            length,
            src_hostname: copy_opt(&bucket.src_hostname),
            dst_hostname: copy_opt(&bucket.dst_hostname),
        }
    }
}

/// The rows of a batch of packets, in order, and the number of packets
/// that have no row.
pub fn batch_rows(buffer: &Vec<PacketMetadata>) -> (out: (Vec<Row>, usize))
    ensures
        out.0@.len() + out.1 == buffer@.len(),
        out.0@.len() == packet_rows(packet_views(buffer@)).len(),
        forall|i: int|
            0 <= i < out.0@.len() ==> (#[trigger] out.0@[i])@ == packet_rows(
                packet_views(buffer@),
            )[i],
{
    let ghost packets = packet_views(buffer@);
    let mut rows: Vec<Row> = Vec::new();
    let mut unfit: usize = 0;
    let mut i: usize = 0;
    while i < buffer.len()
        invariant
            0 <= i <= buffer@.len(),
            packets == packet_views(buffer@),
            rows@.len() + unfit == i,
            rows@.len() == packet_rows(packets.take(i as int)).len(),
            forall|j: int|
                0 <= j < rows@.len() ==> (#[trigger] rows@[j])@ == packet_rows(
                    packets.take(i as int),
                )[j],
        decreases buffer@.len() - i,
    {
        proof {
            assert(packets.take(i + 1).drop_last() =~= packets.take(i as int));
        }
        match Row::of_packet(&buffer[i]) {
            Some(row) => {
                rows.push(row);
            },
            None => {
                unfit = unfit + 1;
            },
        }
        i = i + 1;
    }
    proof {
        assert(packets.take(buffer@.len() as int) =~= packets);
    }
    (rows, unfit)
}

/// The rows of the buckets of a window, one for each, in order.
pub fn bucket_rows(buckets: &Vec<AggregatedBucket>) -> (rows: Vec<Row>)
    ensures
        rows@.len() == buckets@.len(),
        forall|i: int| 0 <= i < rows@.len() ==> (#[trigger] rows@[i])@ == bucket_row(buckets@[i]@),
{
    let mut rows: Vec<Row> = Vec::new();
    let mut i: usize = 0;
    while i < buckets.len()
        invariant
            0 <= i <= buckets@.len(),
            rows@.len() == i,
            forall|j: int| 0 <= j < rows@.len() ==> (#[trigger] rows@[j])@ == bucket_row(buckets@[j]@),
        decreases buckets@.len() - i,
    {
        rows.push(Row::of_bucket(&buckets[i]));
        i = i + 1;
    }
    rows
}

/// The time before which rows are past retention.
pub fn retention_cutoff(now_ms: i64, retention_seconds: u64) -> (cutoff: i64)
    ensures
        cutoff == cutoff_at(now_ms, retention_seconds),
        forall|t: i64| t < cutoff <==> #[trigger] past_retention(t, now_ms, retention_seconds),
{
    let span: i128 = retention_seconds as i128 * 1000;
    let exact: i128 = now_ms as i128 - span;
    if exact < i64::MIN as i128 {
        i64::MIN
    } else {
        exact as i64
    }
}

/// The limit that a history query runs with.
pub fn cap_limit(limit: usize) -> (cap: usize)
    ensures
        cap == capped(limit as nat),
        cap <= limit,
        cap <= MAX_HISTORY,
{
    if limit <= MAX_HISTORY {
        limit
    } else {
        MAX_HISTORY
    }
}

/// The history that an answer of the database stands for: the packets of
/// its first `cap` rows. An answer that is not newest first, or holds a
/// length that no packet has, is refused.
pub fn history_from_rows(rows: &Vec<Row>, cap: usize) -> (history: Result<
    Vec<PacketMetadata>,
    StorageError,
>)
    ensures
        match history {
            Ok(packets) => history_of(row_views(rows@), cap as nat) == Some(
                packet_views(packets@),
            ),
            Err(e) => history_of(row_views(rows@), cap as nat) is None && e.stage
                == StorageStage::Decode,
        },
{
    let ghost views = row_views(rows@);
    let n = if cap <= rows.len() {
        cap
    } else {
        rows.len()
    };
    let mut packets: Vec<PacketMetadata> = Vec::new();
    let mut i: usize = 0;
    while i < n
        invariant
            0 <= i <= n <= rows@.len(),
            n == if cap <= rows@.len() {
                cap as int
            } else {
                rows@.len() as int
            },
            views == row_views(rows@),
            packets@.len() == i,
            decodable(views, i as int),
            packet_views(packets@) == packets_of(views, i as int),
            newest_first(packets_of(views, i as int)),
        decreases n - i,
    {
        assert(views[i as int] == rows@[i as int]@);
        let packet = match rows[i].to_packet() {
            Some(packet) => packet,
            None => {
                assert(!decodable(views, n as int));
                return Err(
                    StorageError {
                        stage: StorageStage::Decode,
                        message: String::from_str("length out of range"),
                    },
                );
            },
        };
        if i > 0 && packets[i - 1].timestamp < packet.timestamp {
            proof {
                if decodable(views, n as int) {
                    let all = packets_of(views, n as int);
                    assert(packets_of(views, i as int)[i - 1] == all[i - 1]);
                    assert(packet_views(packets@)[i - 1] == packets@[i - 1]@);
                    assert(all[i - 1].timestamp < all[i as int].timestamp);
                    assert(!newest_first(all));
                }
            }
            return Err(
                StorageError {
                    stage: StorageStage::Decode,
                    message: String::from_str("rows out of order"),
                },
            );
        }
        let ghost before = packet_views(packets@);
        packets.push(packet);
        proof {
            let earlier = packets_of(views, i as int);
            let after = packets_of(views, i + 1);
            assert(packet_views(packets@) =~= after) by {
                assert forall|j: int| 0 <= j < i + 1 implies packet_views(packets@)[j]
                    == after[j] by {
                    if j < i {
                        assert(packet_views(packets@)[j] == before[j]);
                        assert(before[j] == earlier[j]);
                    }
                }
            }
            assert forall|a: int, b: int| 0 <= a < b < after.len() implies (
            #[trigger] after[a]).timestamp >= (#[trigger] after[b]).timestamp by {
                if b < i {
                    assert(after[a] == earlier[a]);
                    assert(after[b] == earlier[b]);
                } else if a < i - 1 {
                    assert(after[a] == earlier[a]);
                    assert(after[i - 1] == earlier[i - 1]);
                    assert(earlier[a].timestamp >= earlier[i - 1].timestamp);
                } else {
                    assert(before[i - 1] == packets@[i - 1]@);
                }
            }
        }
        i = i + 1;
    }
    Ok(packets)
}

/// No more rows were taken than answers were given.
pub proof fn lemma_taken_count_bound(taken: Seq<bool>)
    ensures
        taken_count(taken) <= taken.len(),
    decreases taken.len(),
{
    if taken.len() > 0 {
        lemma_taken_count_bound(taken.drop_last());
    }
}

/// What a batch reports whose transaction was begun and whose insert was
/// prepared, given the database's answer to each insert, in order, and to
/// the commit. Every row of the batch that was handed over counts as stored
/// or as refused, whatever the answers to the rows before it; what the batch
/// holds beyond the rows handed over had no row.
pub fn settle_batch(batch: usize, taken: &Vec<bool>, commit_error: Option<String>) -> (report:
    FlushReport)
    requires
        taken@.len() <= batch,
    ensures
        report.batch == batch,
        report.unfit == batch - taken@.len(),
        report.stored == taken_count(taken@),
        report.refused == taken@.len() - taken_count(taken@),
        commit_error is None ==> report.outcome == FlushOutcome::Committed && report.error is None,
        commit_error is Some ==> report.outcome == FlushOutcome::CommitFailed && report.error
            == commit_error,
{
    let mut stored: usize = 0;
    let mut i: usize = 0;
    while i < taken.len()
        invariant
            0 <= i <= taken@.len(),
            stored == taken_count(taken@.take(i as int)),
            stored <= i,
        decreases taken@.len() - i,
    {
        assert(taken@.take(i + 1).drop_last() =~= taken@.take(i as int));
        if taken[i] {
            stored = stored + 1;
        }
        i = i + 1;
    }
    assert(taken@.take(taken@.len() as int) =~= taken@);
    let outcome = match &commit_error {
        Some(_) => FlushOutcome::CommitFailed,
        None => FlushOutcome::Committed,
    };
    FlushReport {
        outcome,
        batch,
        unfit: batch - taken.len(),
        stored,
        refused: taken.len() - stored,
        error: commit_error,
    }
}

/// What a batch reports whose transaction could not be begun, or whose
/// insert could not be prepared once it was: no row was handed over.
pub fn settle_unstarted(batch: usize, rows: usize, began: bool, error: String) -> (report:
    FlushReport)
    requires
        rows <= batch,
    ensures
        report.batch == batch,
        report.unfit == batch - rows,
        report.stored == 0,
        report.refused == 0,
        report.outcome == if began {
            FlushOutcome::PrepareFailed
        } else {
            FlushOutcome::BeginFailed
        },
        report.error == Some(error),
{
    FlushReport {
        outcome: if began {
            FlushOutcome::PrepareFailed
        } else {
            FlushOutcome::BeginFailed
        },
        batch,
        unfit: batch - rows,
        stored: 0,
        refused: 0,
        error: Some(error),
    }
}

/// What a deletion gives back, given what the database answered: the number
/// of rows that it deleted, or its error as an error of the store.
pub fn settle_deletion(outcome: Result<usize, Error>) -> (deleted: Result<usize, StorageError>)
    ensures
        match outcome {
            Ok(n) => deleted == Ok::<usize, StorageError>(n),
            Err(_) => deleted is Err && deleted->Err_0.stage == StorageStage::Delete,
        },
{
    match outcome {
        Ok(n) => Ok(n),
        Err(e) => Err(failure(StorageStage::Delete, &e)),
    }
}

fn failure(stage: StorageStage, error: &Error) -> (e: StorageError)
    ensures
        e.stage == stage,
{
    StorageError { stage, message: db_error_text(error) }
}

/// The store: one connection to the database file.
pub struct Storage {
    conn: Connection,
}

impl Storage {
    /// Opens the database at `db_path` and makes it ready: write-ahead
    /// logging, relaxed synchrony, the table of packets and the index on
    /// its time stamp. A table that predates the host-name columns has them
    /// added; on a table that has them the attempt fails and is passed
    /// over. Opening a database that is ready changes nothing in it.
    pub fn new(db_path: &str) -> (opened: Result<Storage, StorageError>)
        ensures
            opened matches Err(e) ==> e.stage == StorageStage::Open || e.stage
                == StorageStage::Journal || e.stage == StorageStage::Synchronous || e.stage
                == StorageStage::Schema || e.stage == StorageStage::Index,
    {
        let conn = match db_open(db_path) {
            Ok(conn) => conn,
            Err(e) => {
                return Err(failure(StorageStage::Open, &e));
            },
        };
        match db_query_text(&conn, JOURNAL_SQL) {
            Ok(_) => {},
            Err(e) => {
                return Err(failure(StorageStage::Journal, &e));
            },
        }
        match db_execute_batch(&conn, SYNCHRONOUS_SQL) {
            Ok(_) => {},
            Err(e) => {
                return Err(failure(StorageStage::Synchronous, &e));
            },
        }
        match db_execute(&conn, CREATE_TABLE_SQL, &Vec::new()) {
            Ok(_) => {},
            Err(e) => {
                return Err(failure(StorageStage::Schema, &e));
            },
        }
        let _ = db_execute(&conn, ADD_SRC_HOSTNAME_SQL, &Vec::new());
        let _ = db_execute(&conn, ADD_DST_HOSTNAME_SQL, &Vec::new());
        match db_execute(&conn, CREATE_INDEX_SQL, &Vec::new()) {
            Ok(_) => {},
            Err(e) => {
                return Err(failure(StorageStage::Index, &e));
            },
        }
        Ok(Storage { conn })
    }

    /// Writes the rows of a batch of `batch` packets or buckets in one
    /// transaction, with one prepared insert. Every row is handed to the
    /// database, in order: a row that it refuses is counted and passed over,
    /// and the batch goes on. Where the transaction cannot be begun or the
    /// statement cannot be prepared, no row is handed over. Nothing is tried
    /// again.
    fn write_rows(&mut self, rows: &Vec<Row>, batch: usize) -> (report: FlushReport)
        requires
            rows@.len() <= batch,
        ensures
            report.batch == batch,
            report.unfit == batch - rows@.len(),
            report.outcome == FlushOutcome::Committed || report.outcome
                == FlushOutcome::CommitFailed ==> report.stored + report.refused == rows@.len(),
            report.outcome == FlushOutcome::BeginFailed || report.outcome
                == FlushOutcome::PrepareFailed ==> report.stored == 0 && report.refused == 0,
            report.outcome == FlushOutcome::Committed <==> report.error is None,
    {
        let tx = match db_begin(&mut self.conn) {
            Ok(tx) => tx,
            Err(e) => {
                return settle_unstarted(batch, rows.len(), false, db_error_text(&e));
            },
        };
        let mut taken: Vec<bool> = Vec::new();
        match db_prepare(db_connection(&tx), INSERT_SQL) {
            Ok(mut stmt) => {
                let mut i: usize = 0;
                while i < rows.len()
                    invariant
                        0 <= i <= rows@.len(),
                        taken@.len() == i,
                    decreases rows@.len() - i,
                {
                    let answer = db_insert(&mut stmt, &rows[i]);
                    taken.push(answer.is_ok());
                    i = i + 1;
                }
            },
            Err(e) => {
                return settle_unstarted(batch, rows.len(), true, db_error_text(&e));
            },
        }
        let commit_error = match db_commit(tx) {
            Ok(_) => None,
            Err(e) => Some(db_error_text(&e)),
        };
        proof {
            lemma_taken_count_bound(taken@);
        }
        settle_batch(batch, &taken, commit_error)
    }

    /// Writes a batch of rows in one transaction, with one prepared insert.
    /// Every row is handed to the database, in order: a row that it refuses
    /// is counted and passed over, and the batch goes on. Where the
    /// transaction cannot be begun or the statement cannot be prepared, no
    /// row is handed over. Nothing is tried again.
    pub fn write_batch(&mut self, rows: &Vec<Row>) -> (report: FlushReport)
        ensures
            report.batch == rows@.len(),
            report.unfit == 0,
            report.outcome == FlushOutcome::Committed || report.outcome
                == FlushOutcome::CommitFailed ==> report.stored + report.refused == rows@.len(),
            report.outcome == FlushOutcome::BeginFailed || report.outcome
                == FlushOutcome::PrepareFailed ==> report.stored == 0 && report.refused == 0,
            report.outcome == FlushOutcome::Committed <==> report.error is None,
    {
        self.write_rows(rows, rows.len())
    }

    /// Writes the buffered packets, one row each, and empties the buffer.
    /// A packet that has no row is counted and left out; every other is
    /// handed to the database, whether or not it refused one before. The
    /// buffer is emptied however the flush ends: a batch that could not be
    /// written is dropped, not retried.
    pub fn flush(&mut self, buffer: &mut Vec<PacketMetadata>) -> (report: FlushReport)
        ensures
            final(buffer)@.len() == 0,
            report.batch == old(buffer)@.len(),
            report.unfit == old(buffer)@.len() - packet_rows(packet_views(old(buffer)@)).len(),
            report.outcome == FlushOutcome::Committed || report.outcome
                == FlushOutcome::CommitFailed ==> report.stored + report.refused == packet_rows(
                packet_views(old(buffer)@),
            ).len(),
            report.outcome == FlushOutcome::BeginFailed || report.outcome
                == FlushOutcome::PrepareFailed ==> report.stored == 0 && report.refused == 0,
            report.outcome == FlushOutcome::Committed <==> report.error is None,
    {
        let (rows, _) = batch_rows(buffer);
        let report = self.write_rows(&rows, buffer.len());
        buffer.clear();
        report
    }

    /// Writes the buckets of the window, one row each with the bucket's
    /// bytes as its length, and clears the window, however the flush ends.
    /// Every bucket's row is handed to the database, whether or not it
    /// refused one before.
    pub fn flush_aggregated(&mut self, buckets: &mut BucketTable) -> (report: FlushReport)
        requires
            old(buckets).wf(),
        ensures
            final(buckets).wf(),
            final(buckets)@.len() == 0,
            report.batch == old(buckets)@.len(),
            report.unfit == 0,
            report.outcome == FlushOutcome::Committed || report.outcome
                == FlushOutcome::CommitFailed ==> report.stored + report.refused == old(
                buckets,
            )@.len(),
            report.outcome == FlushOutcome::BeginFailed || report.outcome
                == FlushOutcome::PrepareFailed ==> report.stored == 0 && report.refused == 0,
            report.outcome == FlushOutcome::Committed <==> report.error is None,
    {
        let taken = buckets.take_all();
        let rows = bucket_rows(&taken);
        self.write_rows(&rows, rows.len())
    }

    /// The most recent rows, newest first: `limit` of them at most, and
    /// never more than 1000. A limit of zero gives no rows and asks the
    /// database nothing. For any other limit the database is asked for that
    /// many rows, and what is given back is the history that its answer
    /// stands for; an answer that is not newest first, or holds a length
    /// that no packet has, is refused.
    pub fn query_history(&self, limit: usize) -> (history: Result<
        Vec<PacketMetadata>,
        StorageError,
    >)
        ensures
            limit == 0 ==> history is Ok && history->Ok_0@.len() == 0,
            match history {
                Ok(packets) => {
                    &&& packets@.len() <= capped(limit as nat)
                    &&& newest_first(packet_views(packets@))
                    &&& exists|rows: Seq<RowView>| #[trigger]
                        history_of(rows, capped(limit as nat)) == Some(packet_views(packets@))
                },
                Err(e) => limit > 0 && (e.stage == StorageStage::Query || e.stage
                    == StorageStage::Decode),
            },
    {
        let cap = cap_limit(limit);
        if cap == 0 {
            let packets: Vec<PacketMetadata> = Vec::new();
            proof {
                let none = Seq::<RowView>::empty();
                assert(packets_of(none, 0) =~= packet_views(packets@));
                assert(history_of(none, 0) == Some(packet_views(packets@)));
            }
            return Ok(packets);
        }
        let mut stmt = match db_prepare(&self.conn, SELECT_RECENT_SQL) {
            Ok(stmt) => stmt,
            Err(e) => {
                return Err(failure(StorageStage::Query, &e));
            },
        };
        let rows = match db_rows(&mut stmt, cap as i64) {
            Ok(rows) => rows,
            Err(e) => {
                return Err(failure(StorageStage::Query, &e));
            },
        };
        let history = history_from_rows(&rows, cap);
        proof {
            if history is Ok {
                let views = row_views(rows@);
                let packets = packet_views(history->Ok_0@);
                assert(cap as nat == capped(limit as nat));
                assert(history_of(views, capped(limit as nat)) == Some(packets));
                assert(packets.len() == history->Ok_0@.len());
                assert(packets.len() <= capped(limit as nat));
                assert(newest_first(packets));
            }
        }
        history
    }

    /// Deletes the rows that are more than `older_than_seconds` old at
    /// `now_ms`, and gives their number.
    pub fn delete_older_than(&self, now_ms: i64, older_than_seconds: u64) -> (deleted: Result<
        usize,
        StorageError,
    >)
        ensures
            deleted matches Err(e) ==> e.stage == StorageStage::Delete,
    {
        let cutoff = retention_cutoff(now_ms, older_than_seconds);
        settle_deletion(db_execute(&self.conn, DELETE_BEFORE_SQL, &vec![cutoff]))
    }

    /// Deletes the rows that are more than `older_than_seconds` old by the
    /// wall clock, and gives their number.
    pub fn delete_old_data(&self, older_than_seconds: u64) -> (deleted: Result<
        usize,
        StorageError,
    >)
        ensures
            deleted matches Err(e) ==> e.stage == StorageStage::Delete,
    {
        let now_ms = wall_clock_millis();
        self.delete_older_than(now_ms, older_than_seconds)
    }
}

} // verus!
