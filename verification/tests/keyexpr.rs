use hackline::keyexpr::{
    connect, health, info, msg_event, msg_log, parse_msg_keyexpr, stream_dev, stream_gw,
    topic_to_keyexpr_suffix, MsgKind, MSG_EVENT_FANIN, MSG_LOG_FANIN,
};
use hackline::zid::{Zid, ZidError};
use uuid::Uuid;

#[test]
fn keyexpr_shape() {
    let zid = Zid::new("aabb").unwrap();
    assert_eq!(connect(&zid, 22), "hackline/aabb/tcp/22/connect");
    assert_eq!(info(&zid), "hackline/aabb/info");
    assert_eq!(health(&zid), "hackline/aabb/health");

    let rid = Uuid::nil();
    assert_eq!(
        stream_gw(&zid, rid.as_u128()),
        "hackline/aabb/stream/00000000-0000-0000-0000-000000000000/gw"
    );
}

#[test]
fn msg_keyexpr_round_trip() {
    let zid = Zid::new("aabb").unwrap();
    let ke = msg_event(&zid, "graph.slot.temp.changed");
    assert_eq!(ke, "hackline/aabb/msg/event/graph/slot/temp/changed");

    let (z, kind, topic) = parse_msg_keyexpr(&ke).unwrap();
    assert_eq!(z.as_str(), "aabb");
    assert_eq!(kind, MsgKind::Event);
    assert_eq!(topic, "graph.slot.temp.changed");

    let log_ke = msg_log(&zid, "audit.entry");
    let (_, kind, topic) = parse_msg_keyexpr(&log_ke).unwrap();
    assert_eq!(kind, MsgKind::Log);
    assert_eq!(topic, "audit.entry");
}

#[test]
fn parse_rejects_bad_shapes() {
    assert!(parse_msg_keyexpr("hackline/aabb/msg/event").is_none());
    assert!(parse_msg_keyexpr("hackline/aabb/info").is_none());
    assert!(parse_msg_keyexpr("hackline/ZZ/msg/event/x").is_none());
    assert!(parse_msg_keyexpr("hackline/aabb/msg/cmd/x").is_none());
}

#[test]
fn stream_keys_use_hyphenated_request_id() {
    let zid = Zid::new("0123456789abcdef").unwrap();
    let rid = Uuid::parse_str("67e55044-10b1-426f-9247-bb680e5fe0c8").unwrap();
    assert_eq!(
        stream_gw(&zid, rid.as_u128()),
        "hackline/0123456789abcdef/stream/67e55044-10b1-426f-9247-bb680e5fe0c8/gw"
    );
    assert_eq!(
        stream_dev(&zid, rid.as_u128()),
        "hackline/0123456789abcdef/stream/67e55044-10b1-426f-9247-bb680e5fe0c8/dev"
    );
}

#[test]
fn connect_key_port_edges() {
    let zid = Zid::new("ab").unwrap();
    assert_eq!(connect(&zid, 0), "hackline/ab/tcp/0/connect");
    assert_eq!(connect(&zid, 65535), "hackline/ab/tcp/65535/connect");
}

#[test]
fn suffix_replaces_every_dot() {
    assert_eq!(topic_to_keyexpr_suffix("graph.slot.temp.changed"), "graph/slot/temp/changed");
    assert_eq!(topic_to_keyexpr_suffix("plain"), "plain");
    assert_eq!(topic_to_keyexpr_suffix(".."), "//");
}

#[test]
fn other_planes_do_not_parse_as_messages() {
    let zid = Zid::new("aabb").unwrap();
    assert!(parse_msg_keyexpr(&info(&zid)).is_none());
    assert!(parse_msg_keyexpr(&health(&zid)).is_none());
    assert!(parse_msg_keyexpr(&connect(&zid, 8080)).is_none());
    assert!(parse_msg_keyexpr(&stream_gw(&zid, 7)).is_none());
    assert!(parse_msg_keyexpr(&stream_dev(&zid, 7)).is_none());
}

#[test]
fn parse_keeps_empty_pieces_and_rejects_other_prefixes() {
    let (_, kind, topic) = parse_msg_keyexpr("hackline/aabb/msg/log/").unwrap();
    assert_eq!(kind, MsgKind::Log);
    assert_eq!(topic, "");
    let (_, _, topic) = parse_msg_keyexpr("hackline/aabb/msg/event/a//b").unwrap();
    assert_eq!(topic, "a..b");
    assert!(parse_msg_keyexpr("other/aabb/msg/event/x").is_none());
    assert!(parse_msg_keyexpr("hackline/aabb/ms/event/x").is_none());
    assert!(parse_msg_keyexpr("").is_none());
}

#[test]
fn fanin_patterns() {
    assert_eq!(MSG_EVENT_FANIN, "hackline/*/msg/event/**");
    assert_eq!(MSG_LOG_FANIN, "hackline/*/msg/log/**");
}

#[test]
fn zid_validation() {
    assert_eq!(Zid::new("a").unwrap_err(), ZidError::BadLength);
    assert_eq!(Zid::new(&"a".repeat(33)).unwrap_err(), ZidError::BadLength);
    assert!(Zid::new(&"f".repeat(32)).is_ok());
    assert_eq!(Zid::new("aabG").unwrap_err(), ZidError::NotLowercaseHex);
    assert_eq!(Zid::new("aa-b").unwrap_err(), ZidError::NotLowercaseHex);
    assert_eq!(ZidError::BadLength.message(), "zid must be 2 to 32 characters long");
    assert_eq!(ZidError::NotLowercaseHex.message(), "zid must be lowercase hex");
    let z = Zid::new("0a1b").unwrap();
    assert_eq!(Zid::new(z.as_str()).unwrap(), z);
    assert_eq!(z.duplicate(), z);
}
