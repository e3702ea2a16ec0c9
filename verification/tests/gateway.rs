use hackline::api::{
    audit_page, authorize_token_mint, authorize_user_list, claim_owner, default_limit, default_owner_name,
    deletion_outcome, detail_choice, device_health, project, AuditDetail, ONLINE_STALE_SECS,
};
use hackline::config::{
    default_log_format, default_log_level, default_mode, log_format_is_json, GatewayConfig,
    LogConfig, ZenohConfig,
};
use hackline::db::{log_list_query, AuditEntry, SqlArg, LOGS_MAX_PER_DEVICE};
use hackline::error::GatewayError;
use hackline::keyexpr::MsgKind;
use hackline::msg::{LogLevel, MsgEnvelope};
use hackline::msg_fanin::{classify_sample, fanin_subscriptions, persist_plan, stored_level, unknown_device};
use hackline::zid::Zid;

fn row(user: Option<i64>, device: Option<i64>, tunnel: Option<i64>, detail: Option<&str>) -> AuditEntry {
    AuditEntry {
        id: 7,
        ts: 1700,
        user_id: user,
        device_id: device,
        tunnel_id: tunnel,
        action: "tunnel.open".to_string(),
        detail: detail.map(|s| s.to_string()),
    }
}

#[test]
fn audit_subject_precedence() {
    assert_eq!(project(row(Some(1), Some(2), Some(3), None)).subject, "tunnel:3");
    assert_eq!(project(row(Some(1), Some(2), None, None)).subject, "device:2");
    assert_eq!(project(row(Some(-1), None, None, None)).subject, "user:-1");
    assert_eq!(project(row(None, None, None, None)).subject, "");
}

#[test]
fn audit_detail_forms() {
    let v = project(row(Some(4), None, None, Some("{\"a\":1}")));
    assert_eq!(v.detail, AuditDetail::Json("{\"a\":1}".to_string()));
    assert_eq!(v.id, 7);
    assert_eq!(v.at, 1700);
    assert_eq!(v.actor_user_id, Some(4));
    assert_eq!(v.action, "tunnel.open");
    let v = project(row(None, None, None, Some("free text")));
    assert_eq!(v.detail, AuditDetail::Raw("free text".to_string()));
    let v = project(row(None, None, None, None));
    assert_eq!(v.detail, AuditDetail::Null);
}

#[test]
fn audit_page_keeps_order() {
    let p = audit_page(vec![row(None, None, Some(9), None), row(None, Some(8), None, None)]);
    assert!(p.next_cursor.is_none());
    assert_eq!(p.items.len(), 2);
    assert_eq!(p.items[0].subject, "tunnel:9");
    assert_eq!(p.items[1].subject, "device:8");
}

#[test]
fn request_defaults() {
    assert_eq!(default_limit(), 50);
    assert_eq!(default_owner_name(), "owner");
    assert_eq!(default_mode(), "client");
    assert_eq!(default_log_level(), "info");
    assert_eq!(default_log_format(), "pretty");
    let l = LogConfig::default();
    assert_eq!(l.level, "info");
    assert_eq!(l.format, "pretty");
    assert!(log_format_is_json("json"));
    assert!(!log_format_is_json("pretty"));
    assert!(!log_format_is_json("JSON"));
}

#[test]
fn device_liveness() {
    let h = device_health(Some(1000), 1000 + ONLINE_STALE_SECS);
    assert!(h.online);
    assert_eq!(h.last_seen_at, Some(1000));
    assert!(h.rtt_ms.is_none());
    assert!(!device_health(Some(1000), 1061).online);
    assert!(device_health(Some(2000), 1000).online);
    assert!(!device_health(None, 1000).online);
    assert!(!device_health(Some(i64::MIN), i64::MAX).online);
    assert!(device_health(Some(i64::MAX), i64::MIN).online);
}

#[test]
fn token_minting_rules() {
    assert_eq!(authorize_token_mint("owner", 1, 2), Ok(()));
    assert_eq!(authorize_token_mint("operator", 2, 2), Ok(()));
    assert_eq!(
        authorize_token_mint("operator", 1, 2),
        Err(GatewayError::Unauthorized("not permitted".to_string()))
    );
    assert_eq!(deletion_outcome(true), Ok(()));
    assert_eq!(deletion_outcome(false), Err(GatewayError::NotFound));
}

fn config(listen: Vec<&str>, connect: Vec<&str>) -> GatewayConfig {
    GatewayConfig {
        listen: None,
        database: None,
        zenoh: ZenohConfig {
            mode: "peer".to_string(),
            listen: listen.into_iter().map(String::from).collect(),
            connect: connect.into_iter().map(String::from).collect(),
        },
        tunnels: Vec::new(),
        log: LogConfig::default(),
    }
}

#[test]
fn zenoh_settings_follow_config() {
    let s = config(vec![], vec![]).zenoh_settings();
    let kv: Vec<(String, String, String)> =
        s.into_iter().map(|s| (s.key, s.value, s.context)).collect();
    assert_eq!(
        kv,
        vec![
            ("mode".to_string(), "\"peer\"".to_string(), "zenoh mode".to_string()),
            ("scouting/multicast/enabled".to_string(), "false".to_string(), "zenoh scouting".to_string()),
        ]
    );
    let s = config(vec!["tcp/0.0.0.0:7447"], vec!["tcp/a:1", "tcp/b:2"]).zenoh_settings();
    assert_eq!(s.len(), 4);
    assert_eq!(s[1].key, "listen/endpoints");
    assert_eq!(s[1].value, "[\"tcp/0.0.0.0:7447\"]");
    assert_eq!(s[2].key, "connect/endpoints");
    assert_eq!(s[2].value, "[\"tcp/a:1\",\"tcp/b:2\"]");
    assert_eq!(s[2].context, "zenoh connect");
}

#[test]
fn zenoh_endpoint_lists_are_json_escaped() {
    let s = config(vec!["a\"b\\c/d", "\t\u{1}\u{7f}é"], vec![]).zenoh_settings();
    assert_eq!(s[1].key, "listen/endpoints");
    assert_eq!(s[1].value, "[\"a\\\"b\\\\c/d\",\"\\t\\u0001\u{7f}é\"]");
}

#[test]
fn listen_and_database_fallbacks() {
    let mut c = config(vec![], vec![]);
    assert_eq!(c.listen_addr(), "127.0.0.1:8080");
    assert_eq!(c.database_path(), "gateway.db");
    c.listen = Some("0.0.0.0:9000".to_string());
    c.database = Some("/var/lib/gw.db".to_string());
    assert_eq!(c.listen_addr(), "0.0.0.0:9000");
    assert_eq!(c.database_path(), "/var/lib/gw.db");
}

#[test]
fn log_query_shapes() {
    let q = log_list_query(None, None, None, None, None, 5000);
    assert_eq!(
        q.sql,
        "SELECT id, device_id, topic, ts, level, content_type, payload\n         FROM logs WHERE 1=1 ORDER BY id DESC LIMIT ?"
    );
    assert_eq!(q.args, vec![SqlArg::Int(1000)]);
    let q = log_list_query(Some(3), Some("a.*"), Some("warn"), Some(10), Some(99), 0);
    assert!(q.sql.ends_with(
        " AND device_id = ? AND topic GLOB ? AND level = ? AND ts >= ? AND id < ? ORDER BY id DESC LIMIT ?"
    ));
    assert_eq!(
        q.args,
        vec![
            SqlArg::Int(3),
            SqlArg::Text("a.*".to_string()),
            SqlArg::Text("warn".to_string()),
            SqlArg::Int(10),
            SqlArg::Int(99),
            SqlArg::Int(1),
        ]
    );
    assert_eq!(q.sql.matches('?').count(), q.args.len());
    assert_eq!(log_list_query(None, None, None, None, None, 20).args, vec![SqlArg::Int(20)]);
    assert_eq!(LOGS_MAX_PER_DEVICE, 10_000);
}

#[test]
fn fanin_classification() {
    let subs = fanin_subscriptions();
    assert_eq!(subs, vec![("hackline/*/msg/event/**", MsgKind::Event), ("hackline/*/msg/log/**", MsgKind::Log)]);
    let (z, k, t) = classify_sample(MsgKind::Log, "hackline/aabb/msg/log/a/b").unwrap();
    assert_eq!((z.as_str(), k, t.as_str()), ("aabb", MsgKind::Log, "a.b"));
    assert_eq!(
        classify_sample(MsgKind::Event, "hackline/aabb/msg/log/a").unwrap_err(),
        GatewayError::BadRequest("keyexpr hackline/aabb/msg/log/a routed to Event subscriber".to_string())
    );
    assert_eq!(
        classify_sample(MsgKind::Event, "garbage").unwrap_err(),
        GatewayError::BadRequest("unparsable keyexpr: garbage".to_string())
    );
    let zid = Zid::new("cafe").unwrap();
    assert_eq!(
        unknown_device(&zid),
        GatewayError::BadRequest("unknown device zid cafe".to_string())
    );
    let env = MsgEnvelope::new_log(LogLevel::Trace, serde_json::Value::Null);
    assert_eq!(stored_level(&env), "trace");
    let env = MsgEnvelope::new_event(serde_json::Value::Null);
    assert_eq!(stored_level(&env), "info");
}

#[test]
fn detail_follows_the_json_check() {
    assert_eq!(detail_choice("{\"a\":1}".to_string(), true), AuditDetail::Json("{\"a\":1}".to_string()));
    assert_eq!(detail_choice("not json".to_string(), false), AuditDetail::Raw("not json".to_string()));
}

#[test]
fn claim_answers_with_first_owner() {
    let users = vec![(3, "member".to_string()), (5, "owner".to_string()), (8, "owner".to_string())];
    assert_eq!(claim_owner(&users), Ok(5));
    let users = vec![(3, "member".to_string()), (4, "Owner".to_string())];
    assert_eq!(claim_owner(&users), Err(GatewayError::BadRequest("claim failed".to_string())));
    assert_eq!(claim_owner(&Vec::new()), Err(GatewayError::BadRequest("claim failed".to_string())));
}

#[test]
fn deliveries_become_rows() {
    let zid = Zid::new("cafe").unwrap();
    let env = MsgEnvelope::event_at(serde_json::Value::from(1), 7, Some(1_000));
    let row = persist_plan(MsgKind::Event, &zid, Some(12), "a.b".to_string(), env).unwrap();
    assert_eq!(row.device_id, 12);
    assert_eq!(row.topic, "a.b");
    assert_eq!(row.ts, 1_000);
    assert_eq!(row.level, None);
    assert_eq!(row.content_type, "application/json");
    assert_eq!(row.payload, serde_json::Value::from(1));
    let env = MsgEnvelope::log_at(LogLevel::Error, serde_json::Value::Null, 7, Some(2_000));
    let row = persist_plan(MsgKind::Log, &zid, Some(12), "x".to_string(), env).unwrap();
    assert_eq!(row.ts, 2_000);
    assert_eq!(row.level.as_deref(), Some("error"));
    let env = MsgEnvelope::event_at(serde_json::Value::Null, 7, None);
    assert_eq!(
        persist_plan(MsgKind::Event, &zid, None, "x".to_string(), env).unwrap_err(),
        GatewayError::BadRequest("unknown device zid cafe".to_string())
    );
}

#[test]
fn only_owners_list_users() {
    assert_eq!(authorize_user_list("owner"), Ok(()));
    assert_eq!(authorize_user_list("member"), Err(GatewayError::Unauthorized("not permitted".to_string())));
    assert_eq!(authorize_user_list(""), Err(GatewayError::Unauthorized("not permitted".to_string())));
}
