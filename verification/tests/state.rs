use ayaflow::event::PacketEvent;
use ayaflow::state::{AggregatedBucket, ConnectionStats, PacketMetadata, TrafficState};
use ayaflow::timing::{
    seconds_to_nanos, CHANNEL_CAPACITY, DNS_TIMEOUT_SECONDS, DNS_TTL_SECONDS,
    EVICTION_PERIOD_SECONDS, IDLE_SLEEP_MILLIS, RETENTION_PERIOD_SECONDS, STREAM_PERIOD_SECONDS,
};

fn packet(src_ip: &str, src_port: u16, dst_ip: &str, dst_port: u16, protocol: &str, length: usize) -> PacketMetadata {
    PacketMetadata {
        timestamp: 0,
        src_ip: src_ip.into(),
        dst_ip: dst_ip.into(),
        src_port,
        dst_port,
        protocol: protocol.into(),
        length,
        src_hostname: None,
        dst_hostname: None,
    }
}

#[test]
fn test_from_ebpf_tcp() {
    let event = PacketEvent {
        src_addr: u32::from_be_bytes([10, 0, 0, 1]),
        dst_addr: u32::from_be_bytes([192, 168, 1, 100]),
        src_port: 12345,
        dst_port: 443,
        protocol: 6,
        _pad: [0; 3],
        pkt_len: 1500,
    };
    let meta = PacketMetadata::from_ebpf(&event);

    assert_eq!(meta.src_ip, "10.0.0.1");
    assert_eq!(meta.dst_ip, "192.168.1.100");
    assert_eq!(meta.src_port, 12345);
    assert_eq!(meta.dst_port, 443);
    assert_eq!(meta.protocol, "TCP");
    assert_eq!(meta.length, 1500);
}

#[test]
fn test_from_ebpf_udp() {
    let event = PacketEvent {
        src_addr: u32::from_be_bytes([172, 16, 0, 1]),
        dst_addr: u32::from_be_bytes([8, 8, 8, 8]),
        src_port: 53000,
        dst_port: 53,
        protocol: 17,
        _pad: [0; 3],
        pkt_len: 64,
    };
    let meta = PacketMetadata::from_ebpf(&event);

    assert_eq!(meta.src_ip, "172.16.0.1");
    assert_eq!(meta.dst_ip, "8.8.8.8");
    assert_eq!(meta.protocol, "UDP");
    assert_eq!(meta.length, 64);
}

#[test]
fn test_traffic_state_update() {
    let mut state = TrafficState::new();
    let packet = PacketMetadata {
        timestamp: 0,
        src_ip: "127.0.0.1".into(),
        dst_ip: "127.0.0.1".into(),
        src_port: 80,
        dst_port: 1234,
        protocol: "TCP".into(),
        length: 100,
        src_hostname: None,
        dst_hostname: None,
    };

    state.update(&packet);
    assert_eq!(state.total_packets(), 1);
    assert_eq!(state.total_bytes(), 100);
    assert_eq!(state.active_connections(), 1);

    state.update(&packet);
    assert_eq!(state.total_packets(), 2);
    assert_eq!(state.total_bytes(), 200);
    assert_eq!(state.active_connections(), 1);
}

#[test]
fn state_test_traffic_state_update() {
    let mut state = TrafficState::new();
    let packet = PacketMetadata {
        timestamp: 0,
        src_ip: "127.0.0.1".into(),
        dst_ip: "127.0.0.1".into(),
        src_port: 80,
        dst_port: 1234,
        protocol: "TCP".into(),
        length: 100,
        src_hostname: None,
        dst_hostname: None,
    };

    state.update(&packet);

    assert_eq!(state.total_packets(), 1);
    assert_eq!(state.total_bytes(), 100);
    assert_eq!(state.active_connections(), 1);

    state.update(&packet);
    assert_eq!(state.total_packets(), 2);
    assert_eq!(state.total_bytes(), 200);
    assert_eq!(state.active_connections(), 1);
}

#[test]
fn from_event_at_keeps_the_given_time_stamp() {
    let event = PacketEvent {
        src_addr: 0,
        dst_addr: u32::MAX,
        src_port: 0,
        dst_port: 65535,
        protocol: 1,
        _pad: [0; 3],
        pkt_len: 20,
    };
    let meta = PacketMetadata::from_event_at(&event, 1_700_000_000_123);
    assert_eq!(meta.timestamp, 1_700_000_000_123);
    assert_eq!(meta.src_ip, "0.0.0.0");
    assert_eq!(meta.dst_ip, "255.255.255.255");
    assert_eq!(meta.protocol, "IP(1)");
    assert_eq!(meta.src_hostname, None);
    assert_eq!(meta.dst_hostname, None);
    assert_eq!(meta.flow_key(), "0.0.0.0:0 -> 255.255.255.255:65535");
}

#[test]
fn flow_key_is_directional() {
    let forward = packet("10.0.0.1", 12345, "192.168.1.100", 443, "TCP", 1500);
    let backward = packet("192.168.1.100", 443, "10.0.0.1", 12345, "TCP", 1500);
    assert_eq!(forward.flow_key(), "10.0.0.1:12345 -> 192.168.1.100:443");
    assert_eq!(backward.flow_key(), "192.168.1.100:443 -> 10.0.0.1:12345");
    assert_ne!(forward.flow_key(), backward.flow_key());
}

#[test]
fn one_packet_opens_one_flow() {
    let mut state = TrafficState::new();
    let p = packet("10.0.0.1", 12345, "192.168.1.100", 443, "TCP", 1500);
    state.update_at(&p, 7);
    assert_eq!(state.total_packets(), 1);
    assert_eq!(state.total_bytes(), 1500);
    assert_eq!(state.active_connections(), 1);
    let flows = state.snapshot();
    assert_eq!(flows.len(), 1);
    assert_eq!(flows[0].0, "10.0.0.1:12345 -> 192.168.1.100:443");
    assert_eq!(
        flows[0].1,
        ConnectionStats { bytes_sent: 1500, bytes_received: 0, packets_count: 1, last_seen: 7 }
    );
}

#[test]
fn thousand_packets_stay_one_flow() {
    let mut state = TrafficState::new();
    let p = packet("10.0.0.1", 12345, "192.168.1.100", 443, "TCP", 1500);
    for now in 0..1000u64 {
        state.update_at(&p, now);
    }
    assert_eq!(state.total_packets(), 1000);
    assert_eq!(state.total_bytes(), 1_500_000);
    assert_eq!(state.active_connections(), 1);
    let flows = state.snapshot();
    assert_eq!(flows.len(), 1);
    assert_eq!(flows[0].1.packets_count, 1000);
    assert_eq!(flows[0].1.bytes_sent, 1_500_000);
    assert_eq!(flows[0].1.last_seen, 999);
}

#[test]
fn mixed_burst_makes_two_flows() {
    let mut state = TrafficState::new();
    state.update_at(&packet("172.16.0.1", 53000, "8.8.8.8", 53, "UDP", 64), 1);
    state.update_at(&packet("10.0.0.1", 12345, "192.168.1.100", 443, "TCP", 1500), 2);
    assert_eq!(state.active_connections(), 2);
    assert_eq!(state.total_packets(), 2);
    assert_eq!(state.total_bytes(), 1564);
    let mut keys: Vec<String> = state.snapshot().into_iter().map(|f| f.0).collect();
    keys.sort();
    assert_eq!(keys, vec!["10.0.0.1:12345 -> 192.168.1.100:443", "172.16.0.1:53000 -> 8.8.8.8:53"]);
}

#[test]
fn eviction_after_sixty_one_seconds() {
    let second: u64 = 1_000_000_000;
    let mut state = TrafficState::new();
    state.update_at(&packet("10.0.0.1", 12345, "192.168.1.100", 443, "TCP", 1500), 0);
    state.cleanup_stale_at(61 * second, 60 * second);
    assert_eq!(state.active_connections(), 0);
    assert_eq!(state.total_packets(), 1);
    assert_eq!(state.total_bytes(), 1500);
    assert!(state.snapshot().is_empty());
}

#[test]
fn eviction_keeps_a_flow_at_exactly_the_timeout() {
    let second: u64 = 1_000_000_000;
    let mut state = TrafficState::new();
    state.update_at(&packet("10.0.0.1", 1, "10.0.0.2", 2, "TCP", 40), 5 * second);
    state.update_at(&packet("10.0.0.3", 3, "10.0.0.4", 4, "UDP", 28), 5 * second - 1);
    state.cleanup_stale_at(65 * second, 60 * second);
    assert_eq!(state.active_connections(), 1);
    let flows = state.snapshot();
    assert_eq!(flows.len(), 1);
    assert_eq!(flows[0].0, "10.0.0.1:1 -> 10.0.0.2:2");
    assert_eq!(state.total_packets(), 2);
    assert_eq!(state.total_bytes(), 68);
}

#[test]
fn eviction_treats_a_flow_seen_later_as_fresh() {
    let mut state = TrafficState::new();
    state.update_at(&packet("10.0.0.1", 1, "10.0.0.2", 2, "TCP", 40), 100);
    state.cleanup_stale_at(50, 0);
    assert_eq!(state.active_connections(), 1);
}

#[test]
fn an_evicted_flow_comes_back_with_fresh_counters() {
    let mut state = TrafficState::new();
    let p = packet("10.0.0.1", 1, "10.0.0.2", 2, "TCP", 40);
    state.update_at(&p, 0);
    state.update_at(&p, 1);
    state.cleanup_stale_at(100, 10);
    state.update_at(&p, 200);
    assert_eq!(state.active_connections(), 1);
    assert_eq!(state.total_packets(), 3);
    assert_eq!(state.total_bytes(), 120);
    let flows = state.snapshot();
    assert_eq!(flows[0].1.packets_count, 1);
    assert_eq!(flows[0].1.bytes_sent, 40);
    assert_eq!(flows[0].1.last_seen, 200);
}

#[test]
fn cleanup_by_the_clock_keeps_fresh_flows() {
    let mut state = TrafficState::new();
    let p = packet("10.0.0.1", 1, "10.0.0.2", 2, "TCP", 40);
    state.update(&p);
    state.cleanup_stale_connections(3_600_000_000_000);
    assert_eq!(state.active_connections(), 1);
    assert!(state.can_accept(&p));
}

#[test]
fn bucket_opens_with_the_first_packet_and_merges_the_next() {
    let mut first = packet("10.0.0.1", 12345, "192.168.1.100", 443, "TCP", 1500);
    first.timestamp = 11;
    first.src_hostname = Some("a.example".into());
    let mut second = packet("10.0.0.1", 12345, "192.168.1.100", 443, "TCP", 40);
    second.timestamp = 22;
    let mut bucket = AggregatedBucket::from_packet(&first);
    assert_eq!(bucket.first_timestamp, 11);
    assert_eq!(bucket.packet_count, 1);
    assert_eq!(bucket.total_bytes, 1500);
    assert_eq!(bucket.src_hostname.as_deref(), Some("a.example"));
    assert_eq!(bucket.dst_hostname, None);
    bucket.merge(&second);
    assert_eq!(bucket.first_timestamp, 11);
    assert_eq!(bucket.packet_count, 2);
    assert_eq!(bucket.total_bytes, 1540);
    assert_eq!(bucket.src_ip, "10.0.0.1");
    assert_eq!(bucket.dst_ip, "192.168.1.100");
    assert_eq!(bucket.src_port, 12345);
    assert_eq!(bucket.dst_port, 443);
    assert_eq!(bucket.protocol, "TCP");
    assert_eq!(bucket.flow_key(), "10.0.0.1:12345 -> 192.168.1.100:443");
}

#[test]
fn connection_stats_record_and_staleness() {
    let mut stats = ConnectionStats::first(64, 10);
    assert_eq!(stats, ConnectionStats { bytes_sent: 64, bytes_received: 0, packets_count: 1, last_seen: 10 });
    stats.record(36, 20);
    assert_eq!(stats, ConnectionStats { bytes_sent: 100, bytes_received: 0, packets_count: 2, last_seen: 20 });
    assert!(!stats.is_stale(20, 0));
    assert!(!stats.is_stale(80, 60));
    assert!(stats.is_stale(81, 60));
    assert!(!stats.is_stale(5, 0));
}

#[test]
fn clone_copies_every_field() {
    let mut p = packet("10.0.0.1", 1, "10.0.0.2", 2, "TCP", 40);
    p.timestamp = 99;
    p.dst_hostname = Some("b.example".into());
    let q = p.clone();
    assert_eq!(q.timestamp, 99);
    assert_eq!(q.src_ip, "10.0.0.1");
    assert_eq!(q.dst_ip, "10.0.0.2");
    assert_eq!(q.src_port, 1);
    assert_eq!(q.dst_port, 2);
    assert_eq!(q.protocol, "TCP");
    assert_eq!(q.length, 40);
    assert_eq!(q.src_hostname, None);
    assert_eq!(q.dst_hostname.as_deref(), Some("b.example"));
}

#[test]
fn seconds_become_nanoseconds_and_stop_at_the_longest_span() {
    assert_eq!(seconds_to_nanos(0), 0);
    assert_eq!(seconds_to_nanos(60), 60_000_000_000);
    assert_eq!(seconds_to_nanos(18_446_744_073), 18_446_744_073_000_000_000);
    assert_eq!(seconds_to_nanos(18_446_744_074), u64::MAX);
    assert_eq!(seconds_to_nanos(u64::MAX), u64::MAX);
}

#[test]
fn the_fixed_periods_are_as_documented() {
    assert_eq!(CHANNEL_CAPACITY, 10_000);
    assert_eq!(IDLE_SLEEP_MILLIS, 1);
    assert_eq!(EVICTION_PERIOD_SECONDS, 10);
    assert_eq!(RETENTION_PERIOD_SECONDS, 60);
    assert_eq!(STREAM_PERIOD_SECONDS, 1);
    assert_eq!(DNS_TTL_SECONDS, 300);
    assert_eq!(DNS_TIMEOUT_SECONDS, 2);
}

#[test]
fn the_clock_of_a_state_does_not_go_back() {
    let second: u64 = 1_000_000_000;
    let mut state = TrafficState::new();
    state.update_at(&packet("10.0.0.1", 1, "10.0.0.2", 2, "TCP", 40), 0);
    state.update_at(&packet("10.0.0.3", 3, "10.0.0.4", 4, "UDP", 28), 1_000_000 * second);
    assert_eq!(state.now(), 1_000_000 * second);
    state.update(&packet("10.0.0.5", 5, "10.0.0.6", 6, "TCP", 40));
    let mut flows = state.snapshot();
    flows.sort_by(|a, b| a.0.cmp(&b.0));
    assert_eq!(flows[2].0, "10.0.0.5:5 -> 10.0.0.6:6");
    assert_eq!(flows[2].1.last_seen, 1_000_000 * second);
    state.cleanup_stale_connections(60 * second);
    let mut keys: Vec<String> = state.snapshot().into_iter().map(|f| f.0).collect();
    keys.sort();
    assert_eq!(keys, vec!["10.0.0.3:3 -> 10.0.0.4:4", "10.0.0.5:5 -> 10.0.0.6:6"]);
    assert_eq!(state.active_connections(), 2);
    assert_eq!(state.total_packets(), 3);
}

#[test]
fn a_reading_of_the_clock_is_taken_where_it_is_later() {
    let mut state = TrafficState::new();
    state.update_at(&packet("10.0.0.1", 1, "10.0.0.2", 2, "TCP", 40), 0);
    let first = state.now();
    let second = state.now();
    assert!(second >= first);
    state.update(&packet("10.0.0.1", 1, "10.0.0.2", 2, "TCP", 40));
    let seen = state.snapshot()[0].1.last_seen;
    assert!(seen >= second);
    assert!(state.now() >= seen);
}

#[test]
fn a_packet_that_fits_is_accepted_and_counted() {
    let mut state = TrafficState::new();
    let p = packet("10.0.0.1", 1, "10.0.0.2", 2, "TCP", 40);
    assert!(state.try_update(&p));
    assert!(state.try_update(&p));
    assert_eq!(state.total_packets(), 2);
    assert_eq!(state.total_bytes(), 80);
    assert_eq!(state.active_connections(), 1);
    assert_eq!(state.snapshot()[0].1.packets_count, 2);
    assert_eq!(state.snapshot()[0].1.bytes_sent, 80);
}

#[test]
fn a_packet_that_does_not_fit_the_counters_changes_nothing() {
    let mut state = TrafficState::new();
    assert!(state.try_update(&packet("10.0.0.1", 1, "10.0.0.2", 2, "TCP", usize::MAX - 10)));
    let too_much = packet("10.0.0.3", 3, "10.0.0.4", 4, "UDP", 11);
    assert!(!state.can_accept(&too_much));
    assert!(!state.try_update(&too_much));
    assert_eq!(state.total_packets(), 1);
    assert_eq!(state.total_bytes(), u64::MAX - 10);
    assert_eq!(state.active_connections(), 1);
    assert_eq!(state.snapshot().len(), 1);
    assert!(state.try_update(&packet("10.0.0.3", 3, "10.0.0.4", 4, "UDP", 10)));
    assert_eq!(state.total_bytes(), u64::MAX);
    assert_eq!(state.active_connections(), 2);
}

#[test]
fn a_bucket_merges_what_fits_and_keeps_its_first_sighting() {
    let mut first = packet("10.0.0.1", 1, "10.0.0.2", 2, "TCP", 100);
    first.timestamp = 50;
    let mut bucket = AggregatedBucket::from_packet(&first);
    let mut earlier = packet("10.0.0.1", 1, "10.0.0.2", 2, "TCP", 20);
    earlier.timestamp = 7;
    let mut later = packet("10.0.0.1", 1, "10.0.0.2", 2, "TCP", 30);
    later.timestamp = 900;
    assert!(bucket.try_merge(&earlier));
    assert!(bucket.try_merge(&later));
    assert_eq!(bucket.first_timestamp, 50);
    assert_eq!(bucket.packet_count, 3);
    assert_eq!(bucket.total_bytes, 150);
    let huge = packet("10.0.0.1", 1, "10.0.0.2", 2, "TCP", usize::MAX - 149);
    assert!(!bucket.try_merge(&huge));
    assert_eq!(bucket.packet_count, 3);
    assert_eq!(bucket.total_bytes, 150);
    assert_eq!(bucket.first_timestamp, 50);
    bucket.packet_count = u64::MAX;
    assert!(!bucket.try_merge(&earlier));
    assert_eq!(bucket.packet_count, u64::MAX);
    assert_eq!(bucket.src_ip, "10.0.0.1");
    assert_eq!(bucket.dst_port, 2);
    assert_eq!(bucket.protocol, "TCP");
}
