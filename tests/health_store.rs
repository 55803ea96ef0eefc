use web_remote::health::HealthStatus;
use web_remote::health_store::HealthStore;

fn record(connected: bool, latency: u64, up_time: u64, label: &str, last: u64) -> HealthStatus {
    HealthStatus {
        connected,
        latency,
        up_time,
        container_status: label.to_string(),
        last_message_time: last,
    }
}

#[test]
fn initial_get_returns_default_record() {
    let store = HealthStore::new();
    let s = store.get();
    assert!(!s.connected);
    assert_eq!(s.latency, 0);
    assert_eq!(s.up_time, 0);
    assert_eq!(s.container_status, "UNKNOWN");
    assert_eq!(s.last_message_time, 0);
}

#[test]
fn update_then_get_round_trips() {
    let mut store = HealthStore::new();
    store.update(record(true, 42, 3600, "RUNNING", 1_700_000_000));
    assert_eq!(store.get(), record(true, 42, 3600, "RUNNING", 1_700_000_000));
}

#[test]
fn later_update_replaces_whole_record() {
    let mut store = HealthStore::new();
    store.update(record(true, 10, 20, "A", 30));
    store.update(record(false, 0, 5, "", 7));
    assert_eq!(store.get(), record(false, 0, 5, "", 7));
}

#[test]
fn get_does_not_change_record() {
    let mut store = HealthStore::new();
    store.update(record(true, u64::MAX, u64::MAX, "MAX", u64::MAX));
    let first = store.get();
    let second = store.get();
    assert_eq!(first, second);
    assert_eq!(second.latency, u64::MAX);
}

#[test]
fn unknown_record_is_default() {
    assert_eq!(HealthStatus::unknown(), record(false, 0, 0, "UNKNOWN", 0));
}

#[test]
fn record_clone_keeps_fields() {
    let r = record(true, 1, 2, "x", 3);
    assert_eq!(r.clone(), r);
}
