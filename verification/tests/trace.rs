use xdr::clock::elapsed;
use xdr::ring::{TraceRing, TRACE_CAPACITY};
use xdr::trace::{EventCategory, Trace};

fn finished(url: &str, status: u16) -> Trace {
    let mut trace = Trace::started("id".to_string(), "a1", "GET", url, 1_000);
    trace.finish_at(status, 1_250);
    trace
}

#[test]
fn new_trace_is_live() {
    let trace = Trace::new("unknown", "GET", "/paid/data");
    assert_eq!(trace.agent_id, "unknown");
    assert_eq!(trace.method, "GET");
    assert_eq!(trace.url, "/paid/data");
    assert!(trace.end_time.is_none());
    assert!(trace.duration_ms.is_none());
    assert!(trace.status_code.is_none());
    assert!(trace.events.is_empty());
    let parsed = uuid::Uuid::parse_str(&trace.id).unwrap();
    assert_eq!(parsed.get_version_num(), 4);
    assert_ne!(Trace::new("unknown", "GET", "/").id, trace.id);
}

#[test]
fn new_trace_starts_now() {
    let before = chrono::Utc::now().timestamp_millis();
    let trace = Trace::new("unknown", "GET", "/");
    let after = chrono::Utc::now().timestamp_millis();
    assert!(before <= trace.start_time && trace.start_time <= after);
}

#[test]
fn log_appends_in_order() {
    let mut trace = Trace::started("t1".to_string(), "a1", "POST", "/x", 10);
    trace.log_at(EventCategory::Info, "first", 11);
    trace.log_at(EventCategory::Payment, "second", 12);
    trace.log(EventCategory::Error, "third");
    assert_eq!(trace.events.len(), 3);
    assert_eq!(trace.events[0].category, EventCategory::Info);
    assert_eq!(trace.events[0].message, "first");
    assert_eq!(trace.events[0].timestamp, 11);
    assert_eq!(trace.events[1].category, EventCategory::Payment);
    assert_eq!(trace.events[1].message, "second");
    assert_eq!(trace.events[1].timestamp, 12);
    assert_eq!(trace.events[2].category, EventCategory::Error);
    assert_eq!(trace.events[2].message, "third");
    assert!(trace.events[2].timestamp > 1_600_000_000_000);
    assert_eq!(trace.id, "t1");
    assert!(trace.status_code.is_none());
}

#[test]
fn finish_sets_end_duration_and_status() {
    let mut trace = Trace::started("t1".to_string(), "a1", "GET", "/x", 1_000);
    trace.log_at(EventCategory::Info, "kept", 1_001);
    trace.finish_at(402, 1_250);
    assert_eq!(trace.end_time, Some(1_250));
    assert_eq!(trace.duration_ms, Some(250));
    assert_eq!(trace.status_code, Some(402));
    assert_eq!(trace.start_time, 1_000);
    assert_eq!(trace.events.len(), 1);
}

#[test]
fn finish_uses_the_clock() {
    let mut trace = Trace::new("a1", "GET", "/x");
    trace.finish(200);
    let end = trace.end_time.unwrap();
    assert!(end >= trace.start_time);
    assert_eq!(trace.duration_ms, Some((end - trace.start_time) as u64));
    assert_eq!(trace.status_code, Some(200));
}

#[test]
fn elapsed_is_end_minus_start() {
    assert_eq!(elapsed(0, 0), 0);
    assert_eq!(elapsed(1_000, 1_250), 250);
    assert_eq!(elapsed(-5, 5), 10);
    assert_eq!(elapsed(i64::MIN, i64::MAX), u64::MAX);
    assert_eq!(elapsed(10, 9), 0);
    assert_eq!(elapsed(i64::MAX, i64::MIN), 0);
    assert_eq!(elapsed(i64::MAX - 1, i64::MAX), 1);
}

#[test]
fn clock_that_went_back_gives_no_duration() {
    let mut trace = Trace::started("t1".to_string(), "a1", "GET", "/x", 1_000);
    trace.finish_at(200, 900);
    assert_eq!(trace.end_time, Some(900));
    assert_eq!(trace.duration_ms, Some(0));
}

#[test]
fn clone_copies_everything() {
    let mut trace = finished("/a", 200);
    trace.log_at(EventCategory::Chaos, "boom", 5);
    let copy = trace.clone();
    assert_eq!(copy.id, trace.id);
    assert_eq!(copy.url, "/a");
    assert_eq!(copy.status_code, Some(200));
    assert_eq!(copy.duration_ms, Some(250));
    assert_eq!(copy.events.len(), 1);
    assert_eq!(copy.events[0].message, "boom");
}

#[test]
fn ring_keeps_order_below_capacity() {
    let mut ring = TraceRing::new();
    assert_eq!(ring.len(), 0);
    assert!(ring.snapshot().is_empty());
    ring.commit(finished("/1", 200));
    ring.commit(finished("/2", 402));
    ring.commit(finished("/3", 500));
    let all = ring.snapshot();
    assert_eq!(ring.len(), 3);
    assert_eq!(all.len(), 3);
    assert_eq!(all[0].url, "/1");
    assert_eq!(all[1].url, "/2");
    assert_eq!(all[2].url, "/3");
    assert_eq!(all[1].status_code, Some(402));
}

#[test]
fn ring_evicts_the_oldest_at_capacity() {
    assert_eq!(TRACE_CAPACITY, 1000);
    let mut ring = TraceRing::new();
    for i in 1..=1000 {
        ring.commit(finished(&format!("/{}", i), 200));
    }
    assert_eq!(ring.len(), 1000);
    assert_eq!(ring.snapshot()[0].url, "/1");
    ring.commit(finished("/1001", 200));
    assert_eq!(ring.len(), 1000);
    let all = ring.snapshot();
    assert_eq!(all[0].url, "/2");
    assert_eq!(all[999].url, "/1001");
    for i in 1002..=1500 {
        ring.commit(finished(&format!("/{}", i), 200));
    }
    let all = ring.snapshot();
    assert_eq!(all.len(), 1000);
    assert_eq!(all[0].url, "/501");
    assert_eq!(all[999].url, "/1500");
    for (k, trace) in all.iter().enumerate() {
        assert_eq!(trace.url, format!("/{}", 501 + k));
    }
}
