//! Request and response bodies of the REST surface, and the decisions
//! its handlers make between the database and the wire: audit rows
//! projected to their public form, device liveness, who may mint a
//! token, and what a deletion that found nothing answers.

use vstd::prelude::*;

use crate::db::AuditEntry;
use crate::error::GatewayError;
use crate::text::{push_signed_decimal, signed_decimal, str_eq};

verus! {

/// `GET /v1/audit?limit=N`
pub struct AuditQuery {
    pub limit: i64,
}

/// Page size of the audit listing when the query names none.
pub fn default_limit() -> (n: i64)
    ensures
        n == 50,
{
    50
}

/// The `detail` of an audit entry on the wire: null when the row has
/// none; the row's text as a JSON value when it parses as JSON; else
/// the object `{"raw": <text>}`.
#[derive(Debug, Clone, PartialEq, Eq)]
pub enum AuditDetail {
    Null,
    Json(String),
    Raw(String),
}

/// Public projection of an audit row: the point-in-time fields plus a
/// `subject` derived from whichever foreign key the row references.
#[derive(Debug)]
pub struct AuditEntryView {
    pub id: i64,
    pub at: i64,
    pub actor_user_id: Option<i64>,
    pub action: String,
    pub subject: String,
    pub detail: AuditDetail,
}

/// Page envelope `{ items, next_cursor }`. The audit list is not
/// cursor-paginated, so `next_cursor` is always `None`.
#[derive(Debug)]
pub struct AuditPage {
    pub items: Vec<AuditEntryView>,
    pub next_cursor: Option<i64>,
}

/// Whether `serde_json::from_str::<serde_json::Value>` accepts `s`.
/// It depends on the text alone.
pub uninterp spec fn json_value_parses(s: Seq<char>) -> bool;

/// `serde_json::from_str::<serde_json::Value>`, asked only whether it
/// succeeds. Trusted to answer `json_value_parses(s)`.
#[verifier::external_body]
fn json_text_parses(s: &str) -> (b: bool)
    ensures
        b == json_value_parses(s@),
{
    serde_json::from_str::<serde_json::Value>(s).is_ok()
}

/// `subject = "<resource>:<id>"`: tunnel beats device beats user — the
/// most specific key wins; none of the three gives an empty subject.
pub open spec fn audit_subject(row: AuditEntry) -> Seq<char> {
    match row.tunnel_id {
        Some(t) => "tunnel:"@ + signed_decimal(t as int),
        None => match row.device_id {
            Some(d) => "device:"@ + signed_decimal(d as int),
            None => match row.user_id {
                Some(u) => "user:"@ + signed_decimal(u as int),
                None => Seq::empty(),
            },
        },
    }
}

/// The wire detail of a row's detail text.
pub open spec fn audit_detail(detail: Option<String>, d: AuditDetail) -> bool {
    match detail {
        None => d is Null,
        Some(s) => if json_value_parses(s@) {
            d matches AuditDetail::Json(j) && j@ == s@
        } else {
            d matches AuditDetail::Raw(r) && r@ == s@
        },
    }
}

/// The public form of one audit row.
pub open spec fn projects_to(row: AuditEntry, v: AuditEntryView) -> bool {
    &&& v.id == row.id
    &&& v.at == row.ts
    &&& v.actor_user_id == row.user_id
    &&& v.action@ == row.action@
    &&& v.subject@ == audit_subject(row)
    &&& audit_detail(row.detail, v.detail)
}

/// The wire detail of a row's detail text, given whether the text
/// parses as JSON: the text as a JSON value if it does, else the text
/// wrapped as `{"raw": <text>}`.
pub fn detail_choice(text: String, parses_as_json: bool) -> (d: AuditDetail)
    ensures
        parses_as_json ==> (d matches AuditDetail::Json(j) && j@ == text@),
        !parses_as_json ==> (d matches AuditDetail::Raw(r) && r@ == text@),
{
    if parses_as_json {
        AuditDetail::Json(text)
    } else {
        AuditDetail::Raw(text)
    }
}

/// Projects an audit row to its public form.
pub fn project(row: AuditEntry) -> (v: AuditEntryView)
    ensures
        projects_to(row, v),
{
    let subject = if let Some(t) = row.tunnel_id {
        let mut s = String::from_str("tunnel:");
        push_signed_decimal(&mut s, t);
        s
    } else if let Some(d) = row.device_id {
        let mut s = String::from_str("device:");
        push_signed_decimal(&mut s, d);
        s
    } else if let Some(u) = row.user_id {
        let mut s = String::from_str("user:");
        push_signed_decimal(&mut s, u);
        s
    } else {
        String::new()
    };
    let detail = match row.detail {
        Some(s) => {
            let parses = json_text_parses(s.as_str());
            detail_choice(s, parses)
        },
        None => AuditDetail::Null,
    };
    AuditEntryView {
        id: row.id,
        at: row.ts,
        actor_user_id: row.user_id,
        action: row.action,
        subject,
        detail,
    }
}

/// The audit page for rows already read newest first.
pub fn audit_page(rows: Vec<AuditEntry>) -> (p: AuditPage)
    ensures
        p.next_cursor is None,
        p.items@.len() == rows@.len(),
        forall|i: int| 0 <= i < rows@.len() ==> projects_to(rows@[i], #[trigger] p.items@[i]),
{
    let mut items: Vec<AuditEntryView> = Vec::new();
    let ghost orig = rows@;
    for r in it: rows
        invariant
            it.seq() == orig,
            items@.len() == it.index(),
            forall|i: int| 0 <= i < items@.len() ==> projects_to(orig[i], #[trigger] items@[i]),
    {
        items.push(project(r));
    }
    AuditPage { items, next_cursor: None }
}

/// `POST /v1/claim` body.
pub struct ClaimRequest {
    pub token: String,
    pub name: String,
}

/// Owner name when a claim names none.
pub fn default_owner_name() -> (s: String)
    ensures
        s@ == "owner"@,
{
    String::from_str("owner")
}

pub struct ClaimResponse {
    pub user_id: i64,
    pub token: String,
}

/// `POST /v1/devices` body: register a device by ZID.
pub struct CreateDevice {
    pub zid: String,
    pub label: String,
}

/// `POST /v1/tunnels` body.
pub struct CreateTunnel {
    pub device_id: i64,
    pub kind: String,
    pub local_port: i64,
    pub public_hostname: Option<String>,
    pub public_port: Option<i64>,
}

pub struct MintTokenResponse {
    pub token: String,
}

/// Liveness summary of a device.
#[derive(Debug)]
pub struct DeviceHealth {
    pub online: bool,
    pub last_seen_at: Option<i64>,
    pub rtt_ms: Option<i64>,
}

/// A device is online if it was seen within this many seconds: the
/// bridge keepalive period (30 s) plus one missed beat of slack.
pub const ONLINE_STALE_SECS: i64 = 60;

/// `a.saturating_sub(b)` for `i64`.
pub open spec fn sat_sub(a: i64, b: i64) -> int {
    let d = a - b;
    if d > i64::MAX {
        i64::MAX as int
    } else if d < i64::MIN {
        i64::MIN as int
    } else {
        d
    }
}

fn saturating_sub(a: i64, b: i64) -> (r: i64)
    ensures
        r == sat_sub(a, b),
{
    match a.checked_sub(b) {
        Some(d) => d,
        None => if b < 0 {
            i64::MAX
        } else {
            i64::MIN
        },
    }
}

/// The health a device's `last_seen_at` stamp gives at Unix time `now`
/// (seconds): online when seen no more than `ONLINE_STALE_SECS` ago;
/// the round-trip time is not measured.
pub fn device_health(last_seen_at: Option<i64>, now: i64) -> (h: DeviceHealth)
    ensures
        h.online == match last_seen_at {
            Some(seen) => sat_sub(now, seen) <= ONLINE_STALE_SECS,
            None => false,
        },
        h.last_seen_at == last_seen_at,
        h.rtt_ms is None,
{
    let online = match last_seen_at {
        Some(seen) => saturating_sub(now, seen) <= ONLINE_STALE_SECS,
        None => false,
    };
    DeviceHealth { online, last_seen_at, rtt_ms: None }
}

/// Who may mint a token for `user_id`: an owner, or the user itself.
pub fn authorize_token_mint(caller_role: &str, caller_id: i64, user_id: i64) -> (r: Result<(), GatewayError>)
    ensures
        (caller_role@ == "owner"@ || caller_id == user_id) ==> r is Ok,
        !(caller_role@ == "owner"@ || caller_id == user_id) ==> (r matches Err(GatewayError::Unauthorized(m))
            && m@ == "not permitted"@),
{
    if !str_eq(caller_role, "owner") && caller_id != user_id {
        return Err(GatewayError::Unauthorized(String::from_str("not permitted")));
    }
    Ok(())
}

/// The id of the first user, in listing order, whose role is `owner`;
/// `users` pairs each user's id with its role.
pub open spec fn first_owner_id(users: Seq<(i64, Seq<char>)>) -> Option<i64>
    decreases users.len(),
{
    if users.len() == 0 {
        None
    } else if users[0].1 == "owner"@ {
        Some(users[0].0)
    } else {
        first_owner_id(users.drop_first())
    }
}

/// The users as (id, role) values.
pub open spec fn user_roles(users: Seq<(i64, String)>) -> Seq<(i64, Seq<char>)> {
    users.map_values(|u: (i64, String)| (u.0, u.1@))
}

/// The account a claim answers with once its token was consumed: the
/// first user (in listing order) with role `owner`; a claim that leaves
/// no owner fails.
pub fn claim_owner(users: &Vec<(i64, String)>) -> (r: Result<i64, GatewayError>)
    ensures
        match first_owner_id(user_roles(users@)) {
            Some(id) => r == Ok::<i64, GatewayError>(id),
            None => r matches Err(GatewayError::BadRequest(m)) && m@ == "claim failed"@,
        },
{
    let ghost all = user_roles(users@);
    assert(all.skip(0) =~= all);
    let mut i: usize = 0;
    while i < users.len()
        invariant
            i <= users@.len(),
            all == user_roles(users@),
            first_owner_id(all) == first_owner_id(all.skip(i as int)),
        decreases users@.len() - i,
    {
        assert(all.skip(i as int).drop_first() =~= all.skip(i + 1));
        if str_eq(users[i].1.as_str(), "owner") {
            return Ok(users[i].0);
        }
        i = i + 1;
    }
    assert(all.skip(i as int).len() == 0);
    Err(GatewayError::BadRequest(String::from_str("claim failed")))
}

/// Who may list the users (`GET /v1/users`, admin only): an owner.
pub fn authorize_user_list(caller_role: &str) -> (r: Result<(), GatewayError>)
    ensures
        caller_role@ == "owner"@ ==> r is Ok,
        caller_role@ != "owner"@ ==> (r matches Err(GatewayError::Unauthorized(m)) && m@ == "not permitted"@),
{
    if !str_eq(caller_role, "owner") {
        return Err(GatewayError::Unauthorized(String::from_str("not permitted")));
    }
    Ok(())
}

/// The answer to a deletion: done when a row went, not found otherwise.
pub fn deletion_outcome(deleted: bool) -> (r: Result<(), GatewayError>)
    ensures
        deleted ==> r is Ok,
        !deleted ==> r == Err::<(), GatewayError>(GatewayError::NotFound),
{
    if deleted {
        Ok(())
    } else {
        Err(GatewayError::NotFound)
    }
}

/// Saturation never changes the outcome: a device is online exactly
/// when it was seen at most `ONLINE_STALE_SECS` seconds before `now`
/// (or later than `now`).
pub proof fn law_online_window(now: i64, seen: i64)
    ensures
        (sat_sub(now, seen) <= ONLINE_STALE_SECS) <==> (now - seen <= ONLINE_STALE_SECS),
{
}

} // verus!
