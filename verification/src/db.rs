//! Rows of the gateway's tables and the SQL the log reader issues.
//! Running the statements is the caller's; the query text and its
//! arguments are decided here.

use vstd::prelude::*;

verus! {

/// A row of the `audit` table.
#[derive(Debug)]
pub struct AuditEntry {
    pub id: i64,
    pub ts: i64,
    pub user_id: Option<i64>,
    pub device_id: Option<i64>,
    pub tunnel_id: Option<i64>,
    pub action: String,
    pub detail: Option<String>,
}

/// A row of the `devices` table.
#[derive(Debug)]
pub struct Device {
    pub id: i64,
    pub zid: String,
    pub label: String,
    pub customer_id: Option<i64>,
    pub created_at: i64,
    pub last_seen_at: Option<i64>,
}

/// Ring-buffer size of the `logs` table, per device: older rows are
/// pruned after each insert.
pub const LOGS_MAX_PER_DEVICE: i64 = 10_000;

/// A bound SQL argument.
#[derive(Debug, Clone, PartialEq, Eq)]
pub enum SqlArg {
    Int(i64),
    Text(String),
}

pub open spec fn arg_view(a: SqlArg) -> (bool, int, Seq<char>) {
    match a {
        SqlArg::Int(i) => (true, i as int, Seq::empty()),
        SqlArg::Text(s) => (false, 0, s@),
    }
}

/// A statement with its positional arguments.
#[derive(Debug)]
pub struct LogQuery {
    pub sql: String,
    pub args: Vec<SqlArg>,
}

/// `limit.clamp(1, 1000)`.
pub open spec fn clamped_limit(limit: i64) -> i64 {
    if limit < 1 {
        1
    } else if limit > 1000 {
        1000
    } else {
        limit
    }
}

pub open spec fn opt_clause(present: bool, clause: Seq<char>) -> Seq<char> {
    if present {
        clause
    } else {
        Seq::empty()
    }
}

/// The SQL text of a log listing with the given filters present.
pub open spec fn log_query_sql(device: bool, topic: bool, level: bool, since: bool, cursor: bool) -> Seq<char> {
    "SELECT id, device_id, topic, ts, level, content_type, payload\n         FROM logs WHERE 1=1"@
        + opt_clause(device, " AND device_id = ?"@)
        + opt_clause(topic, " AND topic GLOB ?"@)
        + opt_clause(level, " AND level = ?"@)
        + opt_clause(since, " AND ts >= ?"@)
        + opt_clause(cursor, " AND id < ?"@)
        + " ORDER BY id DESC LIMIT ?"@
}

pub open spec fn opt_int_arg(v: Option<i64>) -> Seq<(bool, int, Seq<char>)> {
    match v {
        Some(i) => seq![(true, i as int, Seq::<char>::empty())],
        None => Seq::empty(),
    }
}

pub open spec fn opt_text_arg(v: Option<Seq<char>>) -> Seq<(bool, int, Seq<char>)> {
    match v {
        Some(s) => seq![(false, 0int, s)],
        None => Seq::empty(),
    }
}

pub open spec fn opt_str_view(v: Option<&str>) -> Option<Seq<char>> {
    match v {
        Some(s) => Some(s@),
        None => None,
    }
}

/// The arguments of a log listing, in placeholder order.
pub open spec fn log_query_args(
    device_id: Option<i64>,
    topic_glob: Option<Seq<char>>,
    level: Option<Seq<char>>,
    since_ms: Option<i64>,
    cursor: Option<i64>,
    limit: i64,
) -> Seq<(bool, int, Seq<char>)> {
    opt_int_arg(device_id) + opt_text_arg(topic_glob) + opt_text_arg(level) + opt_int_arg(since_ms)
        + opt_int_arg(cursor) + seq![(true, clamped_limit(limit) as int, Seq::<char>::empty())]
}

/// Newest-first page of log rows, filtered by device, topic glob, level,
/// a lower time bound and a cursor (rows with a smaller id), at most
/// `limit` rows with `limit` clamped to `1..=1000`.
pub fn log_list_query(
    device_id: Option<i64>,
    topic_glob: Option<&str>,
    level: Option<&str>,
    since_ms: Option<i64>,
    cursor: Option<i64>,
    limit: i64,
) -> (q: LogQuery)
    ensures
        q.sql@ == log_query_sql(
            device_id is Some,
            topic_glob is Some,
            level is Some,
            since_ms is Some,
            cursor is Some,
        ),
        q.args@.map_values(|a: SqlArg| arg_view(a)) == log_query_args(
            device_id,
            opt_str_view(topic_glob),
            opt_str_view(level),
            since_ms,
            cursor,
            limit,
        ),
{
    let limit = if limit < 1 {
        1
    } else if limit > 1000 {
        1000
    } else {
        limit
    };
    let mut sql = String::from_str("SELECT id, device_id, topic, ts, level, content_type, payload\n         FROM logs WHERE 1=1");
    let mut args: Vec<SqlArg> = Vec::new();
    let ghost mut model: Seq<(bool, int, Seq<char>)> = Seq::empty();
    if let Some(d) = device_id {
        sql.append(" AND device_id = ?");
        args.push(SqlArg::Int(d));
    }
    proof {
        model = opt_int_arg(device_id);
        assert(args@.map_values(|a: SqlArg| arg_view(a)) =~= model);
    }
    if let Some(t) = topic_glob {
        sql.append(" AND topic GLOB ?");
        args.push(SqlArg::Text(String::from_str(t)));
    }
    proof {
        model = model + opt_text_arg(opt_str_view(topic_glob));
        assert(args@.map_values(|a: SqlArg| arg_view(a)) =~= model);
    }
    if let Some(l) = level {
        sql.append(" AND level = ?");
        args.push(SqlArg::Text(String::from_str(l)));
    }
    proof {
        model = model + opt_text_arg(opt_str_view(level));
        assert(args@.map_values(|a: SqlArg| arg_view(a)) =~= model);
    }
    if let Some(s) = since_ms {
        sql.append(" AND ts >= ?");
        args.push(SqlArg::Int(s));
    }
    proof {
        model = model + opt_int_arg(since_ms);
        assert(args@.map_values(|a: SqlArg| arg_view(a)) =~= model);
    }
    if let Some(c) = cursor {
        sql.append(" AND id < ?");
        args.push(SqlArg::Int(c));
    }
    proof {
        model = model + opt_int_arg(cursor);
        assert(args@.map_values(|a: SqlArg| arg_view(a)) =~= model);
    }
    sql.append(" ORDER BY id DESC LIMIT ?");
    args.push(SqlArg::Int(limit));
    proof {
        model = model + seq![(true, limit as int, Seq::<char>::empty())];
        assert(args@.map_values(|a: SqlArg| arg_view(a)) =~= model);
        assert(sql@ =~= log_query_sql(
            device_id is Some,
            topic_glob is Some,
            level is Some,
            since_ms is Some,
            cursor is Some,
        ));
    }
    LogQuery { sql, args }
}

/// Number of `?` placeholders in an SQL text.
#[verifier::opaque]
pub open spec fn placeholders(s: Seq<char>) -> nat
    decreases s.len(),
{
    if s.len() == 0 {
        0
    } else {
        placeholders(s.drop_last()) + if s.last() == '?' { 1nat } else { 0nat }
    }
}

proof fn lemma_placeholders_concat(a: Seq<char>, b: Seq<char>)
    ensures
        placeholders(a + b) == placeholders(a) + placeholders(b),
    decreases b.len(),
{
    reveal(placeholders);
    if b.len() > 0 {
        lemma_placeholders_concat(a, b.drop_last());
        assert((a + b).drop_last() =~= a + b.drop_last());
    } else {
        assert(a + b =~= a);
    }
}

proof fn lemma_no_placeholders(s: Seq<char>)
    requires
        forall|i: int| 0 <= i < s.len() ==> s[i] != '?',
    ensures
        placeholders(s) == 0,
    decreases s.len(),
{
    reveal(placeholders);
    if s.len() > 0 {
        lemma_no_placeholders(s.drop_last());
    }
}

/// A filter clause holds one placeholder, at its end.
proof fn lemma_one_placeholder(s: Seq<char>)
    requires
        s.len() > 0,
        s.last() == '?',
        forall|i: int| 0 <= i < s.len() - 1 ==> s[i] != '?',
    ensures
        placeholders(s) == 1,
{
    reveal(placeholders);
    lemma_no_placeholders(s.drop_last());
}

proof fn lemma_clause_counts()
    ensures
        placeholders("SELECT id, device_id, topic, ts, level, content_type, payload\n         FROM logs WHERE 1=1"@) == 0,
        placeholders(" AND device_id = ?"@) == 1,
        placeholders(" AND topic GLOB ?"@) == 1,
        placeholders(" AND level = ?"@) == 1,
        placeholders(" AND ts >= ?"@) == 1,
        placeholders(" AND id < ?"@) == 1,
        placeholders(" ORDER BY id DESC LIMIT ?"@) == 1,
{
    reveal_strlit("SELECT id, device_id, topic, ts, level, content_type, payload\n         FROM logs WHERE 1=1");
    reveal_strlit(" AND device_id = ?");
    reveal_strlit(" AND topic GLOB ?");
    reveal_strlit(" AND level = ?");
    reveal_strlit(" AND ts >= ?");
    reveal_strlit(" AND id < ?");
    reveal_strlit(" ORDER BY id DESC LIMIT ?");
    lemma_no_placeholders("SELECT id, device_id, topic, ts, level, content_type, payload\n         FROM logs WHERE 1=1"@);
    lemma_one_placeholder(" AND device_id = ?"@);
    lemma_one_placeholder(" AND topic GLOB ?"@);
    lemma_one_placeholder(" AND level = ?"@);
    lemma_one_placeholder(" AND ts >= ?"@);
    lemma_one_placeholder(" AND id < ?"@);
    lemma_one_placeholder(" ORDER BY id DESC LIMIT ?"@);
}

proof fn lemma_opt_clause_count(present: bool, clause: Seq<char>)
    requires
        placeholders(clause) == 1,
    ensures
        placeholders(opt_clause(present, clause)) == if present { 1nat } else { 0nat },
{
    reveal(placeholders);
}

/// `v` counted as 0 or 1.
pub open spec fn present<T>(v: Option<T>) -> int {
    if v is Some { 1 } else { 0 }
}

spec fn log_base() -> Seq<char> {
    "SELECT id, device_id, topic, ts, level, content_type, payload\n         FROM logs WHERE 1=1"@
}

/// The placeholders of the SQL text before each clause, counted.
proof fn lemma_prefix_counts(d: bool, t: bool, l: bool, s: bool, c: bool)
    ensures
        placeholders(log_base()) == 0,
        placeholders(log_base() + opt_clause(d, " AND device_id = ?"@)) == if d { 1nat } else { 0nat },
        placeholders(log_base() + opt_clause(d, " AND device_id = ?"@) + opt_clause(t, " AND topic GLOB ?"@))
            == (if d { 1nat } else { 0nat }) + (if t { 1nat } else { 0nat }),
        placeholders(log_base() + opt_clause(d, " AND device_id = ?"@) + opt_clause(t, " AND topic GLOB ?"@)
            + opt_clause(l, " AND level = ?"@))
            == (if d { 1nat } else { 0nat }) + (if t { 1nat } else { 0nat }) + (if l { 1nat } else { 0nat }),
        placeholders(log_base() + opt_clause(d, " AND device_id = ?"@) + opt_clause(t, " AND topic GLOB ?"@)
            + opt_clause(l, " AND level = ?"@) + opt_clause(s, " AND ts >= ?"@))
            == (if d { 1nat } else { 0nat }) + (if t { 1nat } else { 0nat }) + (if l { 1nat } else { 0nat })
                + (if s { 1nat } else { 0nat }),
        placeholders(log_query_sql(d, t, l, s, c))
            == (if d { 1nat } else { 0nat }) + (if t { 1nat } else { 0nat }) + (if l { 1nat } else { 0nat })
                + (if s { 1nat } else { 0nat }) + (if c { 1nat } else { 0nat }) + 1,
{
    lemma_clause_counts();
    let p0 = log_base();
    let cd = opt_clause(d, " AND device_id = ?"@);
    let ct = opt_clause(t, " AND topic GLOB ?"@);
    let cl = opt_clause(l, " AND level = ?"@);
    let cs = opt_clause(s, " AND ts >= ?"@);
    let cc = opt_clause(c, " AND id < ?"@);
    let tail = " ORDER BY id DESC LIMIT ?"@;
    lemma_opt_clause_count(d, " AND device_id = ?"@);
    lemma_opt_clause_count(t, " AND topic GLOB ?"@);
    lemma_opt_clause_count(l, " AND level = ?"@);
    lemma_opt_clause_count(s, " AND ts >= ?"@);
    lemma_opt_clause_count(c, " AND id < ?"@);
    lemma_placeholders_concat(p0, cd);
    lemma_placeholders_concat(p0 + cd, ct);
    lemma_placeholders_concat(p0 + cd + ct, cl);
    lemma_placeholders_concat(p0 + cd + ct + cl, cs);
    lemma_placeholders_concat(p0 + cd + ct + cl + cs, cc);
    lemma_placeholders_concat(p0 + cd + ct + cl + cs + cc, tail);
}

/// A clause standing after `pre` in `sql`, with its argument after as
/// many arguments as `pre` has placeholders.
proof fn lemma_clause_bound(
    sql: Seq<char>,
    pre: Seq<char>,
    clause: Seq<char>,
    post: Seq<char>,
    args: Seq<(bool, int, Seq<char>)>,
    before: Seq<(bool, int, Seq<char>)>,
    v: (bool, int, Seq<char>),
    after: Seq<(bool, int, Seq<char>)>,
)
    requires
        sql == pre + clause + post,
        args == before + seq![v] + after,
        placeholders(pre) == before.len(),
    ensures
        exists|p: Seq<char>, q: Seq<char>|
            #![trigger p + clause + q, placeholders(p)]
            sql == p + clause + q && args[placeholders(p) as int] == v,
{
    assert(args[placeholders(pre) as int] == v);
    assert(sql == pre + clause + post);
}

/// A log listing binds exactly one argument per placeholder of its SQL
/// text: one for each filter given, and the page size last.
pub proof fn law_log_query_arity(
    device_id: Option<i64>,
    topic_glob: Option<Seq<char>>,
    level: Option<Seq<char>>,
    since_ms: Option<i64>,
    cursor: Option<i64>,
    limit: i64,
)
    ensures
        placeholders(log_query_sql(device_id is Some, topic_glob is Some, level is Some, since_ms is Some, cursor is Some)) == log_query_args(device_id, topic_glob, level, since_ms, cursor, limit).len(),
        log_query_args(device_id, topic_glob, level, since_ms, cursor, limit).len() == present(device_id) + present(topic_glob) + present(level) + present(since_ms) + present(cursor) + 1,
        log_query_args(device_id, topic_glob, level, since_ms, cursor, limit).last() == (true, clamped_limit(limit) as int, Seq::<char>::empty()),
{
    let (d, t, l, s, c) = (device_id is Some, topic_glob is Some, level is Some, since_ms is Some, cursor is Some);
    lemma_prefix_counts(d, t, l, s, c);
    let sql = log_query_sql(d, t, l, s, c);
    let args = log_query_args(device_id, topic_glob, level, since_ms, cursor, limit);
    let p0 = log_base();
    let cd = opt_clause(d, " AND device_id = ?"@);
    let ct = opt_clause(t, " AND topic GLOB ?"@);
    let cl = opt_clause(l, " AND level = ?"@);
    let cs = opt_clause(s, " AND ts >= ?"@);
    let cc = opt_clause(c, " AND id < ?"@);
    let tail = " ORDER BY id DESC LIMIT ?"@;
    let ad = opt_int_arg(device_id);
    let at = opt_text_arg(topic_glob);
    let al = opt_text_arg(level);
    let asn = opt_int_arg(since_ms);
    let ac = opt_int_arg(cursor);
    let lim = seq![(true, clamped_limit(limit) as int, Seq::<char>::empty())];
    assert(args =~= ad + at + al + asn + ac + lim);
}

/// Whatever other filters are given, a listing filtered by the device id
/// has the clause `AND device_id = ?` in its SQL text, and the argument bound
/// to that clause's placeholder is the filter's value.
pub proof fn law_log_device_filter(
    device_id: Option<i64>,
    topic_glob: Option<Seq<char>>,
    level: Option<Seq<char>>,
    since_ms: Option<i64>,
    cursor: Option<i64>,
    limit: i64,
)
    requires
        device_id is Some,
    ensures
        exists|pre: Seq<char>, post: Seq<char>|
            #![trigger pre + " AND device_id = ?"@ + post, placeholders(pre)]
            log_query_sql(device_id is Some, topic_glob is Some, level is Some, since_ms is Some, cursor is Some) == pre + " AND device_id = ?"@ + post
            && log_query_args(device_id, topic_glob, level, since_ms, cursor, limit)[placeholders(pre) as int] == (true, device_id->Some_0 as int, Seq::<char>::empty()),
{
    let (d, t, l, s, c) = (device_id is Some, topic_glob is Some, level is Some, since_ms is Some, cursor is Some);
    lemma_prefix_counts(d, t, l, s, c);
    let sql = log_query_sql(d, t, l, s, c);
    let args = log_query_args(device_id, topic_glob, level, since_ms, cursor, limit);
    let p0 = log_base();
    let cd = opt_clause(d, " AND device_id = ?"@);
    let ct = opt_clause(t, " AND topic GLOB ?"@);
    let cl = opt_clause(l, " AND level = ?"@);
    let cs = opt_clause(s, " AND ts >= ?"@);
    let cc = opt_clause(c, " AND id < ?"@);
    let tail = " ORDER BY id DESC LIMIT ?"@;
    let ad = opt_int_arg(device_id);
    let at = opt_text_arg(topic_glob);
    let al = opt_text_arg(level);
    let asn = opt_int_arg(since_ms);
    let ac = opt_int_arg(cursor);
    let lim = seq![(true, clamped_limit(limit) as int, Seq::<char>::empty())];
    assert(args =~= ad + at + al + asn + ac + lim);
    let dv = device_id->Some_0;
    assert(sql =~= p0 + " AND device_id = ?"@ + (ct + cl + cs + cc + tail));
    assert(args =~= Seq::empty() + seq![(true, dv as int, Seq::<char>::empty())] + (at + al + asn + ac + lim));
    lemma_clause_bound(sql, p0, " AND device_id = ?"@, (ct + cl + cs + cc + tail), args, Seq::empty(), (true, dv as int, Seq::<char>::empty()), (at + al + asn + ac + lim));
}

/// Whatever other filters are given, a listing filtered by the topic glob
/// has the clause `AND topic GLOB ?` in its SQL text, and the argument bound
/// to that clause's placeholder is the filter's value.
pub proof fn law_log_topic_filter(
    device_id: Option<i64>,
    topic_glob: Option<Seq<char>>,
    level: Option<Seq<char>>,
    since_ms: Option<i64>,
    cursor: Option<i64>,
    limit: i64,
)
    requires
        topic_glob is Some,
    ensures
        exists|pre: Seq<char>, post: Seq<char>|
            #![trigger pre + " AND topic GLOB ?"@ + post, placeholders(pre)]
            log_query_sql(device_id is Some, topic_glob is Some, level is Some, since_ms is Some, cursor is Some) == pre + " AND topic GLOB ?"@ + post
            && log_query_args(device_id, topic_glob, level, since_ms, cursor, limit)[placeholders(pre) as int] == (false, 0int, topic_glob->Some_0),
{
    let (d, t, l, s, c) = (device_id is Some, topic_glob is Some, level is Some, since_ms is Some, cursor is Some);
    lemma_prefix_counts(d, t, l, s, c);
    let sql = log_query_sql(d, t, l, s, c);
    let args = log_query_args(device_id, topic_glob, level, since_ms, cursor, limit);
    let p0 = log_base();
    let cd = opt_clause(d, " AND device_id = ?"@);
    let ct = opt_clause(t, " AND topic GLOB ?"@);
    let cl = opt_clause(l, " AND level = ?"@);
    let cs = opt_clause(s, " AND ts >= ?"@);
    let cc = opt_clause(c, " AND id < ?"@);
    let tail = " ORDER BY id DESC LIMIT ?"@;
    let ad = opt_int_arg(device_id);
    let at = opt_text_arg(topic_glob);
    let al = opt_text_arg(level);
    let asn = opt_int_arg(since_ms);
    let ac = opt_int_arg(cursor);
    let lim = seq![(true, clamped_limit(limit) as int, Seq::<char>::empty())];
    assert(args =~= ad + at + al + asn + ac + lim);
    let tv = topic_glob->Some_0;
    assert(sql =~= (p0 + cd) + " AND topic GLOB ?"@ + (cl + cs + cc + tail));
    assert(args =~= ad + seq![(false, 0int, tv)] + (al + asn + ac + lim));
    lemma_clause_bound(sql, (p0 + cd), " AND topic GLOB ?"@, (cl + cs + cc + tail), args, ad, (false, 0int, tv), (al + asn + ac + lim));
}

/// Whatever other filters are given, a listing filtered by the level
/// has the clause `AND level = ?` in its SQL text, and the argument bound
/// to that clause's placeholder is the filter's value.
pub proof fn law_log_level_filter(
    device_id: Option<i64>,
    topic_glob: Option<Seq<char>>,
    level: Option<Seq<char>>,
    since_ms: Option<i64>,
    cursor: Option<i64>,
    limit: i64,
)
    requires
        level is Some,
    ensures
        exists|pre: Seq<char>, post: Seq<char>|
            #![trigger pre + " AND level = ?"@ + post, placeholders(pre)]
            log_query_sql(device_id is Some, topic_glob is Some, level is Some, since_ms is Some, cursor is Some) == pre + " AND level = ?"@ + post
            && log_query_args(device_id, topic_glob, level, since_ms, cursor, limit)[placeholders(pre) as int] == (false, 0int, level->Some_0),
{
    let (d, t, l, s, c) = (device_id is Some, topic_glob is Some, level is Some, since_ms is Some, cursor is Some);
    lemma_prefix_counts(d, t, l, s, c);
    let sql = log_query_sql(d, t, l, s, c);
    let args = log_query_args(device_id, topic_glob, level, since_ms, cursor, limit);
    let p0 = log_base();
    let cd = opt_clause(d, " AND device_id = ?"@);
    let ct = opt_clause(t, " AND topic GLOB ?"@);
    let cl = opt_clause(l, " AND level = ?"@);
    let cs = opt_clause(s, " AND ts >= ?"@);
    let cc = opt_clause(c, " AND id < ?"@);
    let tail = " ORDER BY id DESC LIMIT ?"@;
    let ad = opt_int_arg(device_id);
    let at = opt_text_arg(topic_glob);
    let al = opt_text_arg(level);
    let asn = opt_int_arg(since_ms);
    let ac = opt_int_arg(cursor);
    let lim = seq![(true, clamped_limit(limit) as int, Seq::<char>::empty())];
    assert(args =~= ad + at + al + asn + ac + lim);
    let lv = level->Some_0;
    assert(sql =~= (p0 + cd + ct) + " AND level = ?"@ + (cs + cc + tail));
    assert(args =~= (ad + at) + seq![(false, 0int, lv)] + (asn + ac + lim));
    lemma_clause_bound(sql, (p0 + cd + ct), " AND level = ?"@, (cs + cc + tail), args, (ad + at), (false, 0int, lv), (asn + ac + lim));
}

/// Whatever other filters are given, a listing filtered by the lower time bound
/// has the clause `AND ts >= ?` in its SQL text, and the argument bound
/// to that clause's placeholder is the filter's value.
pub proof fn law_log_since_filter(
    device_id: Option<i64>,
    topic_glob: Option<Seq<char>>,
    level: Option<Seq<char>>,
    since_ms: Option<i64>,
    cursor: Option<i64>,
    limit: i64,
)
    requires
        since_ms is Some,
    ensures
        exists|pre: Seq<char>, post: Seq<char>|
            #![trigger pre + " AND ts >= ?"@ + post, placeholders(pre)]
            log_query_sql(device_id is Some, topic_glob is Some, level is Some, since_ms is Some, cursor is Some) == pre + " AND ts >= ?"@ + post
            && log_query_args(device_id, topic_glob, level, since_ms, cursor, limit)[placeholders(pre) as int] == (true, since_ms->Some_0 as int, Seq::<char>::empty()),
{
    let (d, t, l, s, c) = (device_id is Some, topic_glob is Some, level is Some, since_ms is Some, cursor is Some);
    lemma_prefix_counts(d, t, l, s, c);
    let sql = log_query_sql(d, t, l, s, c);
    let args = log_query_args(device_id, topic_glob, level, since_ms, cursor, limit);
    let p0 = log_base();
    let cd = opt_clause(d, " AND device_id = ?"@);
    let ct = opt_clause(t, " AND topic GLOB ?"@);
    let cl = opt_clause(l, " AND level = ?"@);
    let cs = opt_clause(s, " AND ts >= ?"@);
    let cc = opt_clause(c, " AND id < ?"@);
    let tail = " ORDER BY id DESC LIMIT ?"@;
    let ad = opt_int_arg(device_id);
    let at = opt_text_arg(topic_glob);
    let al = opt_text_arg(level);
    let asn = opt_int_arg(since_ms);
    let ac = opt_int_arg(cursor);
    let lim = seq![(true, clamped_limit(limit) as int, Seq::<char>::empty())];
    assert(args =~= ad + at + al + asn + ac + lim);
    let sv = since_ms->Some_0;
    assert(sql =~= (p0 + cd + ct + cl) + " AND ts >= ?"@ + (cc + tail));
    assert(args =~= (ad + at + al) + seq![(true, sv as int, Seq::<char>::empty())] + (ac + lim));
    lemma_clause_bound(sql, (p0 + cd + ct + cl), " AND ts >= ?"@, (cc + tail), args, (ad + at + al), (true, sv as int, Seq::<char>::empty()), (ac + lim));
}

/// Whatever other filters are given, a listing filtered by the cursor
/// has the clause `AND id < ?` in its SQL text, and the argument bound
/// to that clause's placeholder is the filter's value.
pub proof fn law_log_cursor_filter(
    device_id: Option<i64>,
    topic_glob: Option<Seq<char>>,
    level: Option<Seq<char>>,
    since_ms: Option<i64>,
    cursor: Option<i64>,
    limit: i64,
)
    requires
        cursor is Some,
    ensures
        exists|pre: Seq<char>, post: Seq<char>|
            #![trigger pre + " AND id < ?"@ + post, placeholders(pre)]
            log_query_sql(device_id is Some, topic_glob is Some, level is Some, since_ms is Some, cursor is Some) == pre + " AND id < ?"@ + post
            && log_query_args(device_id, topic_glob, level, since_ms, cursor, limit)[placeholders(pre) as int] == (true, cursor->Some_0 as int, Seq::<char>::empty()),
{
    let (d, t, l, s, c) = (device_id is Some, topic_glob is Some, level is Some, since_ms is Some, cursor is Some);
    lemma_prefix_counts(d, t, l, s, c);
    let sql = log_query_sql(d, t, l, s, c);
    let args = log_query_args(device_id, topic_glob, level, since_ms, cursor, limit);
    let p0 = log_base();
    let cd = opt_clause(d, " AND device_id = ?"@);
    let ct = opt_clause(t, " AND topic GLOB ?"@);
    let cl = opt_clause(l, " AND level = ?"@);
    let cs = opt_clause(s, " AND ts >= ?"@);
    let cc = opt_clause(c, " AND id < ?"@);
    let tail = " ORDER BY id DESC LIMIT ?"@;
    let ad = opt_int_arg(device_id);
    let at = opt_text_arg(topic_glob);
    let al = opt_text_arg(level);
    let asn = opt_int_arg(since_ms);
    let ac = opt_int_arg(cursor);
    let lim = seq![(true, clamped_limit(limit) as int, Seq::<char>::empty())];
    assert(args =~= ad + at + al + asn + ac + lim);
    let cv = cursor->Some_0;
    assert(sql =~= (p0 + cd + ct + cl + cs) + " AND id < ?"@ + tail);
    assert(args =~= (ad + at + al + asn) + seq![(true, cv as int, Seq::<char>::empty())] + lim);
    lemma_clause_bound(sql, (p0 + cd + ct + cl + cs), " AND id < ?"@, tail, args, (ad + at + al + asn), (true, cv as int, Seq::<char>::empty()), lim);
}

/// The page size a log listing asks for is always between 1 and 1000,
/// and a size already in that range is kept.
pub proof fn law_log_limit_bounds(limit: i64)
    ensures
        1 <= clamped_limit(limit) <= 1000,
        1 <= limit <= 1000 ==> clamped_limit(limit) == limit,
{
}

} // verus!
