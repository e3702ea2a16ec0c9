//! Gateway-side fan-in rules: one subscription per message-plane
//! keyexpr family (`hackline/*/msg/event/**`, `hackline/*/msg/log/**`).
//! Each delivery is parsed back into `(zid, kind, dotted-topic)` and
//! checked against the subscription it came through before the caller
//! decodes the envelope, looks the device up and persists the row.
//! Messages that fail are logged and dropped by the caller — the
//! gateway is a fan-in, not a validator of every device's conformance.

use vstd::prelude::*;

use crate::error::GatewayError;
use crate::keyexpr::{parse_msg_keyexpr, parsed_msg_keyexpr, MsgKind, MSG_EVENT_FANIN, MSG_LOG_FANIN};
use crate::msg::{header_level, level_name, MsgEnvelope};
use crate::zid::Zid;

verus! {

/// The subscriptions of the fan-in, each with the kind it carries.
pub fn fanin_subscriptions() -> (subs: Vec<(&'static str, MsgKind)>)
    ensures
        subs@.len() == 2,
        subs@[0].0@ == "hackline/*/msg/event/**"@ && subs@[0].1 == MsgKind::Event,
        subs@[1].0@ == "hackline/*/msg/log/**"@ && subs@[1].1 == MsgKind::Log,
{
    let mut subs: Vec<(&'static str, MsgKind)> = Vec::new();
    subs.push((MSG_EVENT_FANIN, MsgKind::Event));
    subs.push((MSG_LOG_FANIN, MsgKind::Log));
    subs
}

/// `Debug` name of a kind.
pub open spec fn kind_name(k: MsgKind) -> Seq<char> {
    match k {
        MsgKind::Event => "Event"@,
        MsgKind::Log => "Log"@,
    }
}

fn kind_str(k: MsgKind) -> (s: &'static str)
    ensures
        s@ == kind_name(k),
{
    match k {
        MsgKind::Event => "Event",
        MsgKind::Log => "Log",
    }
}

/// Where a delivery on key `ke`, received by the subscription for
/// `expected_kind`, belongs: its device, kind and dotted topic. A key
/// of another shape, or of the other kind, is refused.
pub fn classify_sample(expected_kind: MsgKind, ke: &str) -> (r: Result<(Zid, MsgKind, String), GatewayError>)
    ensures
        match parsed_msg_keyexpr(ke@) {
            None => r matches Err(GatewayError::BadRequest(m)) && m@ == "unparsable keyexpr: "@ + ke@,
            Some((z, k, t)) => if k != expected_kind {
                r matches Err(GatewayError::BadRequest(m))
                    && m@ == "keyexpr "@ + ke@ + " routed to "@ + kind_name(expected_kind) + " subscriber"@
            } else {
                r matches Ok((zid, kind, topic)) && zid.view() == z && kind == k && topic@ == t
            },
        },
{
    match parse_msg_keyexpr(ke) {
        None => {
            let mut m = String::from_str("unparsable keyexpr: ");
            m.append(ke);
            Err(GatewayError::BadRequest(m))
        },
        Some((zid, kind, topic)) => {
            if kind != expected_kind {
                let mut m = String::from_str("keyexpr ");
                m.append(ke);
                m.append(" routed to ");
                m.append(kind_str(expected_kind));
                m.append(" subscriber");
                Err(GatewayError::BadRequest(m))
            } else {
                Ok((zid, kind, topic))
            }
        },
    }
}

/// The refusal for a delivery from a device id with no `devices` row.
pub fn unknown_device(zid: &Zid) -> (e: GatewayError)
    ensures
        e matches GatewayError::BadRequest(m) && m@ == "unknown device zid "@ + zid.view(),
{
    let mut m = String::from_str("unknown device zid ");
    m.append(zid.as_str());
    GatewayError::BadRequest(m)
}

/// The `level` column a log delivery is stored with: the envelope's
/// level name (`info` when it carries none or an unknown one).
pub fn stored_level(env: &MsgEnvelope) -> (s: String)
    ensures
        s@ == level_name(header_level(env.headers@)),
{
    String::from_str(env.log_level().as_str())
}

/// The row a delivery is stored as: in `events` when `level` is `None`,
/// in `logs` with that level otherwise.
#[derive(Debug)]
pub struct StoredMessage {
    pub device_id: i64,
    pub topic: String,
    pub ts: i64,
    pub level: Option<String>,
    pub content_type: String,
    pub payload: serde_json::Value,
}

/// What a delivery of `kind` on `topic`, carrying `env`, is stored as,
/// once its device id was looked up: refused when the device is unknown;
/// otherwise a row with the device id, topic, the envelope's timestamp,
/// content type and payload, and for a log the envelope's level name.
pub fn persist_plan(
    kind: MsgKind,
    zid: &Zid,
    device_id: Option<i64>,
    topic: String,
    env: MsgEnvelope,
) -> (r: Result<StoredMessage, GatewayError>)
    ensures
        device_id is None ==> (r matches Err(GatewayError::BadRequest(m)) && m@ == "unknown device zid "@ + zid.view()),
        device_id is Some ==> (r matches Ok(row) && {
            &&& row.device_id == device_id->Some_0
            &&& row.topic@ == topic@
            &&& row.ts == env.ts
            &&& row.content_type@ == env.content_type@
            &&& row.payload == env.payload
            &&& match kind {
                MsgKind::Event => row.level is None,
                MsgKind::Log => row.level matches Some(l) && l@ == level_name(header_level(env.headers@)),
            }
        }),
{
    let device_id = match device_id {
        Some(d) => d,
        None => return Err(unknown_device(zid)),
    };
    let level = match kind {
        MsgKind::Event => None,
        MsgKind::Log => Some(stored_level(&env)),
    };
    Ok(StoredMessage {
        device_id,
        topic,
        ts: env.ts,
        level,
        content_type: env.content_type,
        payload: env.payload,
    })
}

} // verus!
