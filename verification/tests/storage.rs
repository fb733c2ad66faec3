use ayaflow::aggregate::BucketTable;
use ayaflow::api::{history, HistoryParams};
use ayaflow::state::{AggregatedBucket, PacketMetadata};
use ayaflow::storage::{
    batch_rows, bucket_rows, cap_limit, history_from_rows, retention_cutoff, settle_batch,
    settle_deletion, settle_unstarted, FlushOutcome, Row, Storage, StorageStage, MAX_HISTORY,
};
use ayaflow::writer::{Writer, RAW_BATCH, RAW_TICK_SECONDS};

fn packet_at(timestamp: i64, length: usize) -> PacketMetadata {
    PacketMetadata {
        timestamp,
        src_ip: "10.0.0.1".into(),
        dst_ip: "192.168.1.100".into(),
        src_port: 12345,
        dst_port: 443,
        protocol: "TCP".into(),
        length,
        src_hostname: None,
        dst_hostname: None,
    }
}

fn udp_at(timestamp: i64) -> PacketMetadata {
    PacketMetadata {
        timestamp,
        src_ip: "172.16.0.1".into(),
        dst_ip: "8.8.8.8".into(),
        src_port: 53000,
        dst_port: 53,
        protocol: "UDP".into(),
        length: 64,
        src_hostname: Some("resolver-client.example".into()),
        dst_hostname: Some("dns.google".into()),
    }
}

#[test]
fn opening_twice_succeeds_and_keeps_the_rows() {
    let path = "file:ayaflow_open_twice?mode=memory&cache=shared";
    let mut first = Storage::new(path).unwrap();
    let mut buffer = vec![packet_at(1, 1500), udp_at(2), packet_at(3, 40)];
    let report = first.flush(&mut buffer);
    assert_eq!(report.outcome, FlushOutcome::Committed);
    assert_eq!(report.stored, 3);
    let before = first.query_history(100).unwrap();
    let second = Storage::new(path).unwrap();
    let after = second.query_history(100).unwrap();
    assert_eq!(after.len(), 3);
    assert_eq!(before.len(), after.len());
    for (a, b) in before.iter().zip(after.iter()) {
        assert_eq!(a.timestamp, b.timestamp);
        assert_eq!(a.src_ip, b.src_ip);
        assert_eq!(a.length, b.length);
        assert_eq!(a.dst_hostname, b.dst_hostname);
    }
    let third = Storage::new(path).unwrap();
    assert_eq!(third.query_history(100).unwrap().len(), 3);
    assert_eq!(first.query_history(100).unwrap().len(), 3);
}

#[test]
fn a_table_without_host_names_gets_the_columns() {
    let path = "file:ayaflow_legacy?mode=memory&cache=shared";
    let keep = rusqlite::Connection::open(path).unwrap();
    keep.execute_batch(
        "CREATE TABLE packets (
            id INTEGER PRIMARY KEY,
            timestamp INTEGER NOT NULL,
            src_ip TEXT NOT NULL,
            dst_ip TEXT NOT NULL,
            src_port INTEGER,
            dst_port INTEGER,
            protocol TEXT,
            length INTEGER
        );
        INSERT INTO packets (timestamp, src_ip, dst_ip, src_port, dst_port, protocol, length)
        VALUES (5, '1.1.1.1', '2.2.2.2', 1, 2, 'TCP', 60);",
    )
    .unwrap();
    let mut storage = Storage::new(path).unwrap();
    let mut buffer = vec![udp_at(9)];
    assert_eq!(storage.flush(&mut buffer).stored, 1);
    let rows = storage.query_history(10).unwrap();
    assert_eq!(rows.len(), 2);
    assert_eq!(rows[0].timestamp, 9);
    assert_eq!(rows[0].src_hostname.as_deref(), Some("resolver-client.example"));
    assert_eq!(rows[0].dst_hostname.as_deref(), Some("dns.google"));
    assert_eq!(rows[1].timestamp, 5);
    assert_eq!(rows[1].src_ip, "1.1.1.1");
    assert_eq!(rows[1].length, 60);
    assert_eq!(rows[1].src_hostname, None);
}

#[test]
fn opening_fails_where_the_file_cannot_be_made() {
    let error = Storage::new("/no-such-directory-for-flows/nested/traffic.db").err().unwrap();
    assert_eq!(error.stage, StorageStage::Open);
    assert!(!error.message.is_empty());
}

#[test]
fn raw_writer_flushes_once_at_a_thousand_packets() {
    let mut storage = Storage::new(":memory:").unwrap();
    let mut writer = Writer::new(0);
    assert!(!writer.is_aggregating());
    assert_eq!(writer.tick_seconds(), RAW_TICK_SECONDS);
    assert_eq!(RAW_TICK_SECONDS, 2);
    assert_eq!(RAW_BATCH, 1000);
    let mut flushes = 0;
    for i in 0..1000 {
        let p = packet_at(i, 1500);
        assert!(writer.can_accept(&p));
        if let Some(report) = writer.on_packet(&mut storage, p) {
            flushes += 1;
            assert_eq!(i, 999);
            assert_eq!(report.outcome, FlushOutcome::Committed);
            assert_eq!(report.batch, 1000);
            assert_eq!(report.stored, 1000);
            assert_eq!(report.error, None);
        } else {
            assert_eq!(writer.pending_len(), (i + 1) as usize);
        }
    }
    assert_eq!(flushes, 1);
    assert_eq!(writer.pending_len(), 0);
    assert_eq!(storage.query_history(2000).unwrap().len(), 1000);
    assert!(writer.on_tick(&mut storage).is_none());
}

#[test]
fn raw_writer_flushes_what_it_holds_on_a_tick() {
    let mut storage = Storage::new(":memory:").unwrap();
    let mut writer = Writer::new(0);
    assert!(writer.on_tick(&mut storage).is_none());
    assert!(writer.on_packet(&mut storage, packet_at(10, 1500)).is_none());
    assert!(writer.on_packet(&mut storage, udp_at(20)).is_none());
    assert_eq!(writer.pending_len(), 2);
    assert_eq!(storage.query_history(10).unwrap().len(), 0);
    let report = writer.on_tick(&mut storage).unwrap();
    assert_eq!(report.outcome, FlushOutcome::Committed);
    assert_eq!(report.batch, 2);
    assert_eq!(report.stored, 2);
    assert_eq!(writer.pending_len(), 0);
    let rows = storage.query_history(10).unwrap();
    assert_eq!(rows.len(), 2);
    assert_eq!(rows[0].timestamp, 20);
    assert_eq!(rows[0].protocol, "UDP");
    assert_eq!(rows[0].src_port, 53000);
    assert_eq!(rows[0].dst_port, 53);
    assert_eq!(rows[0].length, 64);
    assert_eq!(rows[0].dst_hostname.as_deref(), Some("dns.google"));
    assert_eq!(rows[1].timestamp, 10);
    assert_eq!(rows[1].src_ip, "10.0.0.1");
    assert_eq!(rows[1].dst_ip, "192.168.1.100");
    assert_eq!(rows[1].length, 1500);
    assert_eq!(rows[1].src_hostname, None);
}

#[test]
fn aggregating_writer_stores_one_row_for_a_thousand_packets() {
    let mut storage = Storage::new(":memory:").unwrap();
    let mut writer = Writer::new(5);
    assert!(writer.is_aggregating());
    assert_eq!(writer.tick_seconds(), 5);
    for i in 0..1000 {
        assert!(writer.on_packet(&mut storage, packet_at(100 + i, 1500)).is_none());
    }
    assert_eq!(writer.bucket_count(), 1);
    assert_eq!(writer.pending_len(), 0);
    assert_eq!(storage.query_history(10).unwrap().len(), 0);
    let report = writer.on_tick(&mut storage).unwrap();
    assert_eq!(report.outcome, FlushOutcome::Committed);
    assert_eq!(report.batch, 1);
    assert_eq!(report.stored, 1);
    assert_eq!(writer.bucket_count(), 0);
    let rows = storage.query_history(10).unwrap();
    assert_eq!(rows.len(), 1);
    assert_eq!(rows[0].length, 1_500_000);
    assert_eq!(rows[0].timestamp, 100);
    assert_eq!(rows[0].src_ip, "10.0.0.1");
    assert_eq!(rows[0].dst_port, 443);
    assert!(writer.on_tick(&mut storage).is_none());
}

#[test]
fn aggregating_writer_keeps_flows_apart_and_in_order_of_arrival() {
    let mut storage = Storage::new(":memory:").unwrap();
    let mut writer = Writer::new(1);
    writer.on_packet(&mut storage, udp_at(7));
    writer.on_packet(&mut storage, packet_at(8, 1500));
    writer.on_packet(&mut storage, udp_at(9));
    assert_eq!(writer.bucket_count(), 2);
    let report = writer.on_tick(&mut storage).unwrap();
    assert_eq!(report.batch, 2);
    assert_eq!(report.stored, 2);
    let rows = storage.query_history(10).unwrap();
    assert_eq!(rows.len(), 2);
    assert_eq!(rows[0].timestamp, 8);
    assert_eq!(rows[0].length, 1500);
    assert_eq!(rows[1].timestamp, 7);
    assert_eq!(rows[1].length, 128);
    assert_eq!(rows[1].src_hostname.as_deref(), Some("resolver-client.example"));
}

#[test]
fn bucket_table_merges_by_flow_key() {
    let mut table = BucketTable::new();
    assert!(table.is_empty());
    table.upsert(&packet_at(1, 100));
    table.upsert(&udp_at(2));
    table.upsert(&packet_at(3, 50));
    assert_eq!(table.len(), 2);
    assert_eq!(table.get(0).packet_count, 2);
    assert_eq!(table.get(0).total_bytes, 150);
    assert_eq!(table.get(0).first_timestamp, 1);
    assert_eq!(table.get(1).packet_count, 1);
    assert_eq!(table.get(1).first_timestamp, 2);
    assert!(table.can_accept(&packet_at(4, usize::MAX - 150)));
    assert!(!table.can_accept(&packet_at(4, usize::MAX - 149)));
    let taken = table.take_all();
    assert_eq!(taken.len(), 2);
    assert_eq!(taken[1].src_ip, "172.16.0.1");
    assert!(table.is_empty());
    table.upsert(&udp_at(5));
    assert_eq!(table.len(), 1);
    assert_eq!(table.get(0).first_timestamp, 5);
}

#[test]
fn retention_of_zero_seconds_deletes_every_row() {
    let mut storage = Storage::new(":memory:").unwrap();
    let mut buffer: Vec<PacketMetadata> = (0..100).map(|i| packet_at(i, 60)).collect();
    assert_eq!(storage.flush(&mut buffer).stored, 100);
    assert!(buffer.is_empty());
    assert_eq!(storage.query_history(1000).unwrap().len(), 100);
    assert_eq!(storage.delete_old_data(0).unwrap(), 100);
    assert!(storage.query_history(10).unwrap().is_empty());
    assert_eq!(storage.delete_old_data(0).unwrap(), 0);
}

#[test]
fn retention_deletes_only_what_is_older() {
    let mut storage = Storage::new(":memory:").unwrap();
    let mut buffer = vec![
        packet_at(39_999, 60),
        packet_at(40_000, 60),
        packet_at(40_001, 60),
        packet_at(100_000, 60),
    ];
    storage.flush(&mut buffer);
    assert_eq!(storage.delete_older_than(100_000, 60).unwrap(), 1);
    let rows = storage.query_history(10).unwrap();
    assert_eq!(rows.len(), 3);
    assert_eq!(rows[2].timestamp, 40_000);
    assert_eq!(storage.delete_older_than(100_000, u64::MAX).unwrap(), 0);
    assert_eq!(storage.delete_older_than(i64::MAX, 0).unwrap(), 3);
}

#[test]
fn cutoff_is_exact_and_stops_at_the_earliest_time() {
    assert_eq!(retention_cutoff(1_000_000, 60), 940_000);
    assert_eq!(retention_cutoff(1_700_000_000_000, 86_400), 1_699_913_600_000);
    assert_eq!(retention_cutoff(5, 0), 5);
    assert_eq!(retention_cutoff(0, 1), -1000);
    assert_eq!(retention_cutoff(0, u64::MAX), i64::MIN);
    assert_eq!(retention_cutoff(i64::MIN, 1), i64::MIN);
    assert_eq!(retention_cutoff(i64::MAX, 0), i64::MAX);
    assert_eq!(retention_cutoff(i64::MAX, 18_446_744_073_709_551), -9_223_372_036_854_775_193);
}

#[test]
fn history_is_newest_first_and_bounded() {
    let mut storage = Storage::new(":memory:").unwrap();
    let mut buffer: Vec<PacketMetadata> = (0..1500).map(|i| packet_at(i, 60)).collect();
    let report = storage.flush(&mut buffer);
    assert_eq!(report.batch, 1500);
    assert_eq!(report.stored, 1500);
    assert!(storage.query_history(0).unwrap().is_empty());
    let five = storage.query_history(5).unwrap();
    assert_eq!(five.iter().map(|p| p.timestamp).collect::<Vec<_>>(), vec![1499, 1498, 1497, 1496, 1495]);
    assert_eq!(storage.query_history(1000).unwrap().len(), 1000);
    assert_eq!(storage.query_history(1001).unwrap().len(), 1000);
    assert_eq!(storage.query_history(2000).unwrap().len(), 1000);
    assert_eq!(storage.query_history(usize::MAX).unwrap().len(), 1000);
    assert_eq!(MAX_HISTORY, 1000);
    assert_eq!(cap_limit(0), 0);
    assert_eq!(cap_limit(999), 999);
    assert_eq!(cap_limit(1000), 1000);
    assert_eq!(cap_limit(1001), 1000);
}

#[test]
fn history_endpoint_goes_by_the_effective_limit() {
    let mut storage = Storage::new(":memory:").unwrap();
    let mut buffer: Vec<PacketMetadata> = (0..150).map(|i| packet_at(i, 60)).collect();
    storage.flush(&mut buffer);
    assert_eq!(history(&storage, &HistoryParams { limit: None }).unwrap().len(), 100);
    assert_eq!(history(&storage, &HistoryParams { limit: Some(7) }).unwrap().len(), 7);
    assert_eq!(history(&storage, &HistoryParams { limit: Some(0) }).unwrap().len(), 0);
    assert_eq!(history(&storage, &HistoryParams { limit: Some(5000) }).unwrap().len(), 150);
}

#[test]
fn a_packet_too_long_for_a_row_is_passed_over() {
    let too_long = (i64::MAX as usize) + 1;
    let buffer = vec![packet_at(1, 60), packet_at(2, too_long), packet_at(3, i64::MAX as usize)];
    let (rows, unfit) = batch_rows(&buffer);
    assert_eq!(unfit, 1);
    assert_eq!(rows.len(), 2);
    assert_eq!(rows[0].timestamp, 1);
    assert_eq!(rows[0].length, 60);
    assert_eq!(rows[1].timestamp, 3);
    assert_eq!(rows[1].length, i64::MAX);
    assert!(Row::of_packet(&buffer[1]).is_none());
    let mut storage = Storage::new(":memory:").unwrap();
    let mut buffer = buffer;
    let report = storage.flush(&mut buffer);
    assert_eq!(report.batch, 3);
    assert_eq!(report.unfit, 1);
    assert_eq!(report.stored, 2);
    assert_eq!(report.refused, 0);
    assert_eq!(report.outcome, FlushOutcome::Committed);
    assert!(buffer.is_empty());
}

#[test]
fn a_bucket_row_reads_the_bytes_as_a_signed_number() {
    let mut bucket = AggregatedBucket::from_packet(&udp_at(77));
    bucket.total_bytes = 1_500_000;
    bucket.packet_count = 1000;
    let row = Row::of_bucket(&bucket);
    assert_eq!(row.timestamp, 77);
    assert_eq!(row.length, 1_500_000);
    assert_eq!(row.src_ip, "172.16.0.1");
    assert_eq!(row.dst_hostname.as_deref(), Some("dns.google"));
    bucket.total_bytes = i64::MAX as u64;
    assert_eq!(Row::of_bucket(&bucket).length, i64::MAX);
    bucket.total_bytes = i64::MAX as u64 + 1;
    assert_eq!(Row::of_bucket(&bucket).length, i64::MIN);
    bucket.total_bytes = u64::MAX;
    assert_eq!(Row::of_bucket(&bucket).length, -1);
    let rows = bucket_rows(&vec![bucket]);
    assert_eq!(rows.len(), 1);
    assert_eq!(rows[0].length, -1);
    assert!(rows[0].to_packet().is_none());
}

#[test]
fn a_stored_row_with_a_negative_length_fails_the_query() {
    let mut storage = Storage::new(":memory:").unwrap();
    let mut bucket = AggregatedBucket::from_packet(&udp_at(1));
    bucket.total_bytes = u64::MAX;
    let report = storage.write_batch(&bucket_rows(&vec![bucket]));
    assert_eq!(report.stored, 1);
    let error = storage.query_history(10).err().unwrap();
    assert_eq!(error.stage, StorageStage::Decode);
    assert!(storage.query_history(0).unwrap().is_empty());
}

#[test]
fn a_batch_that_cannot_be_written_is_dropped() {
    let path = "file:ayaflow_dropped_batch?mode=memory&cache=shared";
    let mut storage = Storage::new(path).unwrap();
    let other = rusqlite::Connection::open(path).unwrap();
    other.execute_batch("DROP TABLE packets;").unwrap();
    let mut buffer = vec![packet_at(1, 60), packet_at(2, 60)];
    let report = storage.flush(&mut buffer);
    assert_eq!(report.outcome, FlushOutcome::PrepareFailed);
    assert_eq!(report.batch, 2);
    assert_eq!(report.unfit, 0);
    assert_eq!(report.stored, 0);
    assert_eq!(report.refused, 0);
    assert!(report.error.is_some());
    assert!(buffer.is_empty());
    let mut writer = Writer::new(3);
    writer.on_packet(&mut storage, udp_at(3));
    let report = writer.on_tick(&mut storage).unwrap();
    assert_eq!(report.outcome, FlushOutcome::PrepareFailed);
    assert_eq!(writer.bucket_count(), 0);
    assert_eq!(storage.query_history(10).err().unwrap().stage, StorageStage::Query);
    assert_eq!(storage.delete_old_data(0).err().unwrap().stage, StorageStage::Delete);
}

#[test]
fn a_row_that_the_table_refuses_is_skipped_and_the_batch_goes_on() {
    let path = "file:ayaflow_refused_row?mode=memory&cache=shared";
    let keep = rusqlite::Connection::open(path).unwrap();
    keep.execute_batch(
        "CREATE TABLE packets (
            id INTEGER PRIMARY KEY,
            timestamp INTEGER NOT NULL,
            src_ip TEXT NOT NULL,
            dst_ip TEXT NOT NULL,
            src_port INTEGER,
            dst_port INTEGER CHECK (dst_port <> 53),
            protocol TEXT,
            length INTEGER,
            src_hostname TEXT,
            dst_hostname TEXT
        );",
    )
    .unwrap();
    let mut storage = Storage::new(path).unwrap();
    let mut buffer = vec![packet_at(1, 60), udp_at(2), packet_at(3, 60)];
    let report = storage.flush(&mut buffer);
    assert_eq!(report.outcome, FlushOutcome::Committed);
    assert_eq!(report.batch, 3);
    assert_eq!(report.unfit, 0);
    assert_eq!(report.stored, 2);
    assert_eq!(report.refused, 1);
    assert_eq!(report.error, None);
    assert!(buffer.is_empty());
    let rows = storage.query_history(10).unwrap();
    assert_eq!(rows.iter().map(|p| p.timestamp).collect::<Vec<_>>(), vec![3, 1]);
}

#[test]
fn a_refused_row_anywhere_in_the_batch_leaves_the_others_stored() {
    let path = "file:ayaflow_refused_rows?mode=memory&cache=shared";
    let keep = rusqlite::Connection::open(path).unwrap();
    keep.execute_batch(
        "CREATE TABLE packets (
            id INTEGER PRIMARY KEY,
            timestamp INTEGER NOT NULL CHECK (timestamp % 3 <> 0),
            src_ip TEXT NOT NULL,
            dst_ip TEXT NOT NULL,
            src_port INTEGER,
            dst_port INTEGER,
            protocol TEXT,
            length INTEGER,
            src_hostname TEXT,
            dst_hostname TEXT
        );",
    )
    .unwrap();
    let mut storage = Storage::new(path).unwrap();
    let mut buffer: Vec<PacketMetadata> = (0..10).map(|i| packet_at(i, 60)).collect();
    let report = storage.flush(&mut buffer);
    assert_eq!(report.outcome, FlushOutcome::Committed);
    assert_eq!(report.batch, 10);
    assert_eq!(report.stored, 6);
    assert_eq!(report.refused, 4);
    assert!(buffer.is_empty());
    let rows = storage.query_history(100).unwrap();
    assert_eq!(rows.iter().map(|p| p.timestamp).collect::<Vec<_>>(), vec![8, 7, 5, 4, 2, 1]);
    let mut table = BucketTable::new();
    let mut third = udp_at(3);
    third.src_port = 1;
    table.upsert(&third);
    table.upsert(&udp_at(10));
    let report = storage.flush_aggregated(&mut table);
    assert_eq!(report.outcome, FlushOutcome::Committed);
    assert_eq!(report.batch, 2);
    assert_eq!(report.unfit, 0);
    assert_eq!(report.stored, 1);
    assert_eq!(report.refused, 1);
    assert!(table.is_empty());
    assert_eq!(storage.query_history(100).unwrap().len(), 7);
}

#[test]
fn a_settled_batch_counts_every_answer() {
    let report = settle_batch(6, &vec![true, false, true, true, false], None);
    assert_eq!(report.outcome, FlushOutcome::Committed);
    assert_eq!(report.batch, 6);
    assert_eq!(report.unfit, 1);
    assert_eq!(report.stored, 3);
    assert_eq!(report.refused, 2);
    assert_eq!(report.error, None);
    let report = settle_batch(2, &vec![false, true], Some("disk full".to_string()));
    assert_eq!(report.outcome, FlushOutcome::CommitFailed);
    assert_eq!(report.batch, 2);
    assert_eq!(report.unfit, 0);
    assert_eq!(report.stored, 1);
    assert_eq!(report.refused, 1);
    assert_eq!(report.error.as_deref(), Some("disk full"));
    let report = settle_batch(0, &Vec::new(), None);
    assert_eq!(report.stored + report.refused + report.unfit, 0);
}

#[test]
fn a_batch_that_was_not_started_hands_over_no_row() {
    let report = settle_unstarted(5, 4, false, "locked".to_string());
    assert_eq!(report.outcome, FlushOutcome::BeginFailed);
    assert_eq!(report.batch, 5);
    assert_eq!(report.unfit, 1);
    assert_eq!(report.stored, 0);
    assert_eq!(report.refused, 0);
    assert_eq!(report.error.as_deref(), Some("locked"));
    let report = settle_unstarted(5, 5, true, "no such table".to_string());
    assert_eq!(report.outcome, FlushOutcome::PrepareFailed);
    assert_eq!(report.unfit, 0);
    assert_eq!(report.error.as_deref(), Some("no such table"));
}

fn row_at(timestamp: i64, length: i64) -> Row {
    Row {
        timestamp,
        src_ip: "10.0.0.1".into(),
        dst_ip: "10.0.0.2".into(),
        src_port: 1,
        dst_port: 2,
        protocol: "TCP".into(),
        length,
        src_hostname: None,
        dst_hostname: Some("b.example".into()),
    }
}

#[test]
fn an_answer_in_order_becomes_the_history() {
    let rows = vec![row_at(9, 60), row_at(9, 61), row_at(3, 62), row_at(-4, 0)];
    let packets = history_from_rows(&rows, 10).unwrap();
    assert_eq!(packets.iter().map(|p| p.timestamp).collect::<Vec<_>>(), vec![9, 9, 3, -4]);
    assert_eq!(packets.iter().map(|p| p.length).collect::<Vec<_>>(), vec![60, 61, 62, 0]);
    assert_eq!(packets[0].src_ip, "10.0.0.1");
    assert_eq!(packets[0].dst_ip, "10.0.0.2");
    assert_eq!(packets[0].src_port, 1);
    assert_eq!(packets[0].dst_port, 2);
    assert_eq!(packets[0].protocol, "TCP");
    assert_eq!(packets[0].src_hostname, None);
    assert_eq!(packets[0].dst_hostname.as_deref(), Some("b.example"));
    assert_eq!(history_from_rows(&rows, 2).unwrap().len(), 2);
    assert!(history_from_rows(&rows, 0).unwrap().is_empty());
    assert!(history_from_rows(&Vec::new(), 5).unwrap().is_empty());
}

#[test]
fn an_answer_out_of_order_is_refused() {
    let rows = vec![row_at(9, 60), row_at(3, 60), row_at(4, 60)];
    assert_eq!(history_from_rows(&rows, 10).err().unwrap().stage, StorageStage::Decode);
    assert_eq!(history_from_rows(&rows, 3).err().unwrap().stage, StorageStage::Decode);
    assert_eq!(history_from_rows(&rows, 2).unwrap().len(), 2);
}

#[test]
fn an_answer_with_a_length_that_no_packet_has_is_refused() {
    let rows = vec![row_at(9, 60), row_at(8, -1)];
    assert_eq!(history_from_rows(&rows, 10).err().unwrap().stage, StorageStage::Decode);
    assert_eq!(history_from_rows(&rows, 1).unwrap().len(), 1);
}

#[test]
fn a_deletion_gives_back_the_count_or_the_error() {
    assert_eq!(settle_deletion(Ok(3)).unwrap(), 3);
    assert_eq!(settle_deletion(Ok(0)).unwrap(), 0);
    let error = settle_deletion(Err(rusqlite::Error::QueryReturnedNoRows)).err().unwrap();
    assert_eq!(error.stage, StorageStage::Delete);
    assert!(!error.message.is_empty());
}
