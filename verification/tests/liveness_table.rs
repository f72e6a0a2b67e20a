use nas_boot::heartbeat::HeartbeatMessage;
use nas_boot::liveness::{
    apply_heartbeat, handle_heartbeat, minutes_between, LivenessTable, Timestamp,
};

fn at(secs: i64) -> Timestamp {
    Timestamp { secs, nanos: 0 }
}

fn message(timestamp: &str, hostname: &str) -> HeartbeatMessage {
    HeartbeatMessage { timestamp: timestamp.to_string(), hostname: hostname.to_string() }
}

#[test]
fn minutes_round_toward_zero() {
    assert_eq!(minutes_between(at(0), at(0)), 0);
    assert_eq!(minutes_between(at(59), at(0)), 0);
    assert_eq!(minutes_between(at(60), at(0)), 1);
    assert_eq!(minutes_between(at(119), at(0)), 1);
    assert_eq!(minutes_between(at(120), at(0)), 2);
    assert_eq!(minutes_between(at(0), at(59)), 0);
    assert_eq!(minutes_between(at(0), at(60)), -1);
    assert_eq!(minutes_between(at(0), at(119)), -1);
    assert_eq!(minutes_between(at(0), at(120)), -2);
}

#[test]
fn minutes_count_nanoseconds() {
    let now = Timestamp { secs: 100, nanos: 500_000_000 };
    let seen = Timestamp { secs: 40, nanos: 600_000_000 };
    assert_eq!(minutes_between(now, seen), 0);
    let seen = Timestamp { secs: 40, nanos: 500_000_000 };
    assert_eq!(minutes_between(now, seen), 1);
    assert_eq!(minutes_between(seen, now), -1);
}

#[test]
fn minutes_at_the_limits() {
    let first = Timestamp { secs: i64::MIN, nanos: 0 };
    let last = Timestamp { secs: i64::MAX, nanos: u32::MAX };
    assert_eq!(minutes_between(last, first), 307_445_734_561_825_860);
    assert_eq!(minutes_between(first, last), -307_445_734_561_825_860);
}

#[test]
fn new_table_is_empty() {
    let table = LivenessTable::new();
    assert!(table.is_empty());
    assert_eq!(table.len(), 0);
    assert_eq!(table.last_seen("desk"), None);
}

#[test]
fn record_inserts_and_updates() {
    let mut table = LivenessTable::new();
    table.record("desk".to_string(), at(100));
    table.record("laptop".to_string(), at(200));
    assert_eq!(table.len(), 2);
    assert_eq!(table.last_seen("desk"), Some(at(100)));
    assert_eq!(table.last_seen("laptop"), Some(at(200)));
    assert_eq!(table.last_seen("other"), None);
    table.record("desk".to_string(), at(300));
    assert_eq!(table.len(), 2);
    assert_eq!(table.last_seen("desk"), Some(at(300)));
    assert_eq!(table.last_seen("laptop"), Some(at(200)));
}

#[test]
fn repeated_heartbeats_leave_one_entry() {
    let mut table = LivenessTable::new();
    for round in 0..5 {
        table.record("desk".to_string(), at(1000 + round));
    }
    assert_eq!(table.len(), 1);
    assert_eq!(table.last_seen("desk"), Some(at(1004)));
    table.record("desk".to_string(), at(7));
    assert_eq!(table.len(), 1);
    assert_eq!(table.last_seen("desk"), Some(at(7)));
}

#[test]
fn sweep_evicts_at_the_timeout() {
    let mut table = LivenessTable::new();
    table.record("old".to_string(), at(0));
    table.record("fresh".to_string(), at(61));
    let report = table.sweep(at(120), 2);
    assert_eq!(report.evicted, vec!["old".to_string()]);
    assert!(report.any_active);
    assert_eq!(table.len(), 1);
    assert_eq!(table.last_seen("old"), None);
    assert_eq!(table.last_seen("fresh"), Some(at(61)));
}

#[test]
fn sweep_keeps_what_is_just_under_the_timeout() {
    let mut table = LivenessTable::new();
    table.record("desk".to_string(), at(0));
    let report = table.sweep(at(119), 2);
    assert!(report.evicted.is_empty());
    assert!(report.any_active);
    assert_eq!(table.last_seen("desk"), Some(at(0)));
}

#[test]
fn sweep_of_everything_reports_no_client() {
    let mut table = LivenessTable::new();
    table.record("a".to_string(), at(0));
    table.record("b".to_string(), at(10));
    table.record("c".to_string(), at(20));
    let report = table.sweep(at(1000), 2);
    let mut evicted = report.evicted.clone();
    evicted.sort();
    assert_eq!(evicted, vec!["a".to_string(), "b".to_string(), "c".to_string()]);
    assert!(!report.any_active);
    assert!(table.is_empty());
}

#[test]
fn sweep_of_empty_table() {
    let mut table = LivenessTable::new();
    let report = table.sweep(at(1000), 2);
    assert!(report.evicted.is_empty());
    assert!(!report.any_active);
}

#[test]
fn sweep_with_zero_timeout_evicts_everyone_seen_by_now() {
    let mut table = LivenessTable::new();
    table.record("now".to_string(), at(500));
    table.record("ahead".to_string(), at(600));
    let report = table.sweep(at(500), 0);
    assert_eq!(report.evicted, vec!["now".to_string()]);
    assert!(report.any_active);
    assert_eq!(table.last_seen("ahead"), Some(at(600)));
}

#[test]
fn heartbeat_round_trip() {
    let mut table = LivenessTable::new();
    let receipt = handle_heartbeat(&mut table, message("2024-01-01T00:00:00Z", "desk"));
    assert_eq!(receipt.response, "OK");
    assert!(receipt.recorded);
    let seen = table.last_seen("desk").unwrap();
    assert_eq!(seen, Timestamp { secs: 1_704_067_200, nanos: 0 });
    assert_eq!(minutes_between(seen, seen), 0);
    let report = table.sweep(Timestamp { secs: 1_704_067_200 + 119, nanos: 0 }, 2);
    assert!(report.any_active);
    let report = table.sweep(Timestamp { secs: 1_704_067_200 + 120, nanos: 0 }, 2);
    assert_eq!(report.evicted, vec!["desk".to_string()]);
    assert!(!report.any_active);
    assert!(table.is_empty());
}

#[test]
fn heartbeat_timestamp_is_read_in_utc() {
    let mut table = LivenessTable::new();
    handle_heartbeat(&mut table, message("2024-01-01T02:00:00+02:00", "east"));
    handle_heartbeat(&mut table, message("2023-12-31T19:00:00.25-05:00", "west"));
    assert_eq!(table.last_seen("east"), Some(Timestamp { secs: 1_704_067_200, nanos: 0 }));
    assert_eq!(
        table.last_seen("west"),
        Some(Timestamp { secs: 1_704_067_200, nanos: 250_000_000 })
    );
}

#[test]
fn heartbeat_before_the_epoch() {
    let mut table = LivenessTable::new();
    handle_heartbeat(&mut table, message("1969-12-31T23:59:59.5Z", "past"));
    assert_eq!(table.last_seen("past"), Some(Timestamp { secs: -1, nanos: 500_000_000 }));
}

#[test]
fn malformed_heartbeat_is_dropped_with_success() {
    let mut table = LivenessTable::new();
    table.record("desk".to_string(), at(100));
    for bad in ["", "yesterday", "2024-01-01", "2024-01-01 00:00:00", "2024-13-01T00:00:00Z"] {
        let receipt = handle_heartbeat(&mut table, message(bad, "intruder"));
        assert_eq!(receipt.response, "OK");
        assert!(!receipt.recorded);
        let receipt = handle_heartbeat(&mut table, message(bad, "desk"));
        assert_eq!(receipt.response, "OK");
        assert!(!receipt.recorded);
    }
    assert_eq!(table.len(), 1);
    assert_eq!(table.last_seen("desk"), Some(at(100)));
    assert_eq!(table.last_seen("intruder"), None);
}

#[test]
fn repeated_heartbeat_messages_keep_the_latest() {
    let mut table = LivenessTable::new();
    handle_heartbeat(&mut table, message("2024-01-01T00:00:00Z", "desk"));
    handle_heartbeat(&mut table, message("2024-01-01T00:01:00Z", "desk"));
    handle_heartbeat(&mut table, message("2024-01-01T00:00:30Z", "desk"));
    assert_eq!(table.len(), 1);
    assert_eq!(table.last_seen("desk"), Some(Timestamp { secs: 1_704_067_230, nanos: 0 }));
}

#[test]
fn parsed_heartbeat_is_applied() {
    let mut table = LivenessTable::new();
    let receipt = apply_heartbeat(&mut table, "desk".to_string(), Some((42, 7)));
    assert_eq!((receipt.response, receipt.recorded), ("OK", true));
    assert_eq!(table.last_seen("desk"), Some(Timestamp { secs: 42, nanos: 7 }));
    let receipt = apply_heartbeat(&mut table, "desk".to_string(), None);
    assert_eq!((receipt.response, receipt.recorded), ("OK", false));
    assert_eq!(table.last_seen("desk"), Some(Timestamp { secs: 42, nanos: 7 }));
    let receipt = apply_heartbeat(&mut table, "other".to_string(), None);
    assert_eq!((receipt.response, receipt.recorded), ("OK", false));
    assert_eq!(table.len(), 1);
}

#[test]
fn host_names_are_compared_exactly() {
    let mut table = LivenessTable::new();
    table.record("Desk".to_string(), at(1));
    table.record("desk".to_string(), at(2));
    table.record("desk ".to_string(), at(3));
    table.record("".to_string(), at(4));
    assert_eq!(table.len(), 4);
    assert_eq!(table.last_seen("Desk"), Some(at(1)));
    assert_eq!(table.last_seen("desk"), Some(at(2)));
    assert_eq!(table.last_seen("desk "), Some(at(3)));
    assert_eq!(table.last_seen(""), Some(at(4)));
    assert_eq!(table.last_seen("des"), None);
}
