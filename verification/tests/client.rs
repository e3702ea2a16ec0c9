use hackline::client::{event_publication, log_publication, session_zid, validate_topic, ClientError};
use hackline::keyexpr::{parse_msg_keyexpr, MsgKind};
use hackline::msg::LogLevel;
use hackline::zid::Zid;

#[test]
fn topic_validation() {
    assert!(validate_topic("foo").is_ok());
    assert!(validate_topic("foo.bar.baz").is_ok());
    assert!(validate_topic("").is_err());
    assert!(validate_topic(".foo").is_err());
    assert!(validate_topic("foo..bar").is_err());
    assert!(validate_topic("foo.*").is_err());
    assert!(validate_topic("foo/bar").is_err());
}

#[test]
fn topic_errors_name_the_problem() {
    assert_eq!(
        validate_topic(""),
        Err(ClientError::Topic("topic must not be empty".to_string()))
    );
    assert_eq!(
        validate_topic("a..b"),
        Err(ClientError::Topic("empty segment in topic `a..b`".to_string()))
    );
    assert_eq!(
        validate_topic("a.b*c.d"),
        Err(ClientError::Topic("segment `b*c` contains reserved character".to_string()))
    );
    // The first bad segment decides.
    assert_eq!(
        validate_topic("x/y..z"),
        Err(ClientError::Topic("segment `x/y` contains reserved character".to_string()))
    );
}

#[test]
fn event_publication_targets_own_namespace() {
    let zid = Zid::new("aabb").unwrap();
    let p = event_publication(&zid, "graph.slot", serde_json::from_str::<serde_json::Value>("{\"v\": 1}").unwrap()).unwrap();
    assert_eq!(p.keyexpr, "hackline/aabb/msg/event/graph/slot");
    assert_eq!(p.envelope.content_type, "application/json");
    assert!(p.envelope.headers.get("level").is_none());
    assert_eq!(p.envelope.payload, serde_json::from_str::<serde_json::Value>("{\"v\": 1}").unwrap());
    assert_eq!(p.envelope.log_level(), LogLevel::Info);
    // Version-4 UUID bits.
    assert_eq!((p.envelope.id >> 76) & 0xf, 4);
    assert_eq!((p.envelope.id >> 62) & 0x3, 2);
    assert!(p.envelope.ts > 1_600_000_000_000);
    let (z, kind, topic) = parse_msg_keyexpr(&p.keyexpr).unwrap();
    assert_eq!(z.as_str(), "aabb");
    assert_eq!(kind, MsgKind::Event);
    assert_eq!(topic, "graph.slot");
}

#[test]
fn log_publication_carries_level() {
    let zid = Zid::new("aabb").unwrap();
    let p = log_publication(&zid, LogLevel::Warn, "disk.full", serde_json::Value::Null).unwrap();
    assert_eq!(p.keyexpr, "hackline/aabb/msg/log/disk/full");
    assert_eq!(p.envelope.headers.get("level").map(|s| s.as_str()), Some("warn"));
    assert_eq!(p.envelope.log_level(), LogLevel::Warn);
    assert_eq!((p.envelope.id >> 76) & 0xf, 4);
    assert!(p.envelope.ts > 1_600_000_000_000);
    let (_, kind, topic) = parse_msg_keyexpr(&p.keyexpr).unwrap();
    assert_eq!(kind, MsgKind::Log);
    assert_eq!(topic, "disk.full");
}

#[test]
fn publication_rejects_bad_topic() {
    let zid = Zid::new("aabb").unwrap();
    assert!(matches!(
        event_publication(&zid, "a.*", serde_json::Value::Null),
        Err(ClientError::Topic(_))
    ));
    assert!(matches!(
        log_publication(&zid, LogLevel::Error, "", serde_json::Value::Null),
        Err(ClientError::Topic(_))
    ));
}

#[test]
fn session_zid_reports_reason() {
    assert_eq!(session_zid("abcd").unwrap().as_str(), "abcd");
    assert_eq!(
        session_zid("ABCD").unwrap_err(),
        ClientError::Zid("zid must be lowercase hex".to_string())
    );
    assert_eq!(
        session_zid("a").unwrap_err(),
        ClientError::Zid("zid must be 2 to 32 characters long".to_string())
    );
}
