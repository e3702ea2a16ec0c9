use hackline::string_map::StringMap;
use hackline::msg::{
    default_content_type, now_ms, ts_from_millis, LogLevel, MsgEnvelope, CONTENT_TYPE_JSON, HEADER_LOG_LEVEL,
};

#[test]
fn level_names_round_trip() {
    for l in [LogLevel::Trace, LogLevel::Debug, LogLevel::Info, LogLevel::Warn, LogLevel::Error] {
        assert_eq!(LogLevel::parse(l.as_str()), Some(l));
    }
    assert_eq!(LogLevel::Warn.as_str(), "warn");
    assert_eq!(LogLevel::parse("WARN"), None);
    assert_eq!(LogLevel::parse(""), None);
    assert_eq!(LogLevel::default(), LogLevel::Info);
}

#[test]
fn envelope_levels() {
    let e = MsgEnvelope::new_log(LogLevel::Error, serde_json::Value::String("x".to_string()));
    assert_eq!(e.log_level(), LogLevel::Error);
    assert_eq!(e.headers.get(HEADER_LOG_LEVEL).map(|s| s.as_str()), Some("error"));
    let mut e = MsgEnvelope::new_event(serde_json::Value::from(1));
    assert_eq!(e.log_level(), LogLevel::Info);
    e.headers.insert("level".to_string(), "loud".to_string());
    assert_eq!(e.log_level(), LogLevel::Info);
    e.headers.insert("level".to_string(), "debug".to_string());
    assert_eq!(e.log_level(), LogLevel::Debug);
    assert_eq!(e.headers.pairs().len(), 1);
}

#[test]
fn envelope_defaults() {
    assert_eq!(default_content_type(), CONTENT_TYPE_JSON);
    let before = now_ms();
    let e = MsgEnvelope::new_event(serde_json::Value::Null);
    assert!(e.ts >= before);
    assert!(e.ts > 1_600_000_000_000);
    let other = MsgEnvelope::new_event(serde_json::Value::Null);
    assert_ne!(e.id, other.id);
}

#[test]
fn headers_replace_and_keep_others() {
    let mut h = StringMap::new();
    assert!(h.get("a").is_none());
    h.insert("a".to_string(), "1".to_string());
    h.insert("b".to_string(), "2".to_string());
    h.insert("a".to_string(), "3".to_string());
    assert_eq!(h.get("a").map(|s| s.as_str()), Some("3"));
    assert_eq!(h.get("b").map(|s| s.as_str()), Some("2"));
    assert_eq!(h.pairs().len(), 2);
}

#[test]
fn clock_readings_become_timestamps() {
    assert_eq!(ts_from_millis(Some(1_700_000_000_123)), 1_700_000_000_123);
    assert_eq!(ts_from_millis(None), 0);
    assert_eq!(ts_from_millis(Some(0)), 0);
    // `as i64` wraps a reading past i64::MAX, as the cast does.
    assert_eq!(ts_from_millis(Some(1u128 << 63)), i64::MIN);
    let now = now_ms();
    assert!(now > 1_600_000_000_000);
}

#[test]
fn envelopes_stamped_from_given_readings() {
    let e = MsgEnvelope::event_at(serde_json::Value::from(5), 42, Some(1_234));
    assert_eq!(e.id, 42);
    assert_eq!(e.ts, 1_234);
    assert_eq!(e.content_type, CONTENT_TYPE_JSON);
    assert_eq!(e.headers.pairs().len(), 0);
    assert_eq!(e.payload, serde_json::Value::from(5));
    let e = MsgEnvelope::event_at(serde_json::Value::Null, 1, None);
    assert_eq!(e.ts, 0);
    let l = MsgEnvelope::log_at(LogLevel::Warn, serde_json::Value::Null, 9, Some(77));
    assert_eq!(l.id, 9);
    assert_eq!(l.ts, 77);
    assert_eq!(l.log_level(), LogLevel::Warn);
    assert_eq!(l.headers.get(HEADER_LOG_LEVEL).map(|s| s.as_str()), Some("warn"));
    assert_eq!(l.headers.pairs().len(), 1);
}

#[test]
fn envelopes_and_headers_clone() {
    let e = MsgEnvelope::log_at(LogLevel::Debug, serde_json::Value::from("p"), 3, Some(10));
    let c = e.clone();
    assert_eq!(c.id, 3);
    assert_eq!(c.ts, 10);
    assert_eq!(c.payload, serde_json::Value::from("p"));
    assert_eq!(c.log_level(), LogLevel::Debug);
    let mut h = StringMap::new();
    h.insert("a".to_string(), "1".to_string());
    let mut h2 = h.clone();
    h2.insert("a".to_string(), "2".to_string());
    assert_eq!(h.get("a").map(|s| s.as_str()), Some("1"));
    assert_eq!(h2.get("a").map(|s| s.as_str()), Some("2"));
}
