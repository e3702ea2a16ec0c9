//! Message-plane wire types — what flows on
//! `hackline/<zid>/msg/event/...` and `hackline/<zid>/msg/log/...`.
//!
//! The envelope carries a sender-generated id, a timestamp, a content
//! type, a small headers map (trace ids, log level), and an opaque
//! payload. The whole envelope travels as JSON; `content_type` is
//! reserved so another encoding can swap in later without re-versioning
//! the keyexpr namespace.

use vstd::prelude::*;

use crate::string_map::StringMap;
use crate::text::str_eq;
use crate::uuid_text::random_uuid;

verus! {

/// `serde_json::Value`: the opaque payload, carried through unread.
#[verifier::external_type_specification]
#[verifier::external_body]
pub struct ExJsonValue(serde_json::Value);

/// `Clone for serde_json::Value` (derived in serde_json): copies the
/// value. Nothing is claimed of the copy; it lets the types that carry a
/// payload be cloned.
pub assume_specification[<serde_json::Value as std::clone::Clone>::clone](v: &serde_json::Value) -> serde_json::Value;

pub const CONTENT_TYPE_JSON: &'static str = "application/json";

/// Reserved header key carrying the log level on
/// `hackline/<zid>/msg/log/...` envelopes. Events do not set it.
pub const HEADER_LOG_LEVEL: &'static str = "level";

/// The content type an envelope gets when the sender names none.
pub fn default_content_type() -> (s: String)
    ensures
        s@ == "application/json"@,
{
    String::from_str(CONTENT_TYPE_JSON)
}

/// Five-level log severity. Lowercase string on the wire and in DB.
#[derive(Debug, Clone, Copy, PartialEq, Eq, Structural)]
pub enum LogLevel {
    Trace,
    Debug,
    Info,
    Warn,
    Error,
}

/// The wire name of a level.
pub open spec fn level_name(l: LogLevel) -> Seq<char> {
    match l {
        LogLevel::Trace => "trace"@,
        LogLevel::Debug => "debug"@,
        LogLevel::Info => "info"@,
        LogLevel::Warn => "warn"@,
        LogLevel::Error => "error"@,
    }
}

/// The level whose wire name is `s`, if any.
pub open spec fn parsed_level(s: Seq<char>) -> Option<LogLevel> {
    if s == "trace"@ {
        Some(LogLevel::Trace)
    } else if s == "debug"@ {
        Some(LogLevel::Debug)
    } else if s == "info"@ {
        Some(LogLevel::Info)
    } else if s == "warn"@ {
        Some(LogLevel::Warn)
    } else if s == "error"@ {
        Some(LogLevel::Error)
    } else {
        None
    }
}

impl LogLevel {
    pub fn as_str(self) -> (s: &'static str)
        ensures
            s@ == level_name(self),
    {
        match self {
            LogLevel::Trace => "trace",
            LogLevel::Debug => "debug",
            LogLevel::Info => "info",
            LogLevel::Warn => "warn",
            LogLevel::Error => "error",
        }
    }

    pub fn parse(s: &str) -> (r: Option<LogLevel>)
        ensures
            r == parsed_level(s@),
    {
        if str_eq(s, "trace") {
            Some(LogLevel::Trace)
        } else if str_eq(s, "debug") {
            Some(LogLevel::Debug)
        } else if str_eq(s, "info") {
            Some(LogLevel::Info)
        } else if str_eq(s, "warn") {
            Some(LogLevel::Warn)
        } else if str_eq(s, "error") {
            Some(LogLevel::Error)
        } else {
            None
        }
    }
}

impl Default for LogLevel {
    fn default() -> (l: LogLevel)
        ensures
            l == LogLevel::Info,
    {
        LogLevel::Info
    }
}

/// Common envelope for events and logs. The `payload` is opaque to
/// the gateway — stored as a JSON value blob.
#[derive(Debug, Clone)]
pub struct MsgEnvelope {
    /// Sender-chosen UUID, as the big-endian value of its 16 bytes.
    pub id: u128,
    /// Unix milliseconds since epoch.
    pub ts: i64,
    pub content_type: String,
    pub headers: StringMap,
    pub payload: serde_json::Value,
}

/// The level an envelope with these headers carries: the `level`
/// header when it names a level, `info` otherwise.
pub open spec fn header_level(h: Map<Seq<char>, Seq<char>>) -> LogLevel {
    if h.contains_key("level"@) && parsed_level(h["level"@]) is Some {
        parsed_level(h["level"@])->Some_0
    } else {
        LogLevel::Info
    }
}

/// The system clock read as whole milliseconds since the Unix epoch:
/// `SystemTime::now().duration_since(UNIX_EPOCH)` with its error
/// dropped, then `Duration::as_millis`. `None` when the clock reads
/// before the epoch. Nothing is claimed of the reading itself: it
/// depends on the clock.
#[verifier::external_body]
fn clock_unix_millis() -> (r: Option<u128>) {
    std::time::SystemTime::now().duration_since(std::time::UNIX_EPOCH).ok().map(|d| d.as_millis())
}

/// The timestamp a clock reading gives: its milliseconds cast to `i64`
/// (two's-complement truncation, as `as` does), or 0 for a clock before
/// the epoch.
pub open spec fn millis_ts(ms: Option<u128>) -> i64 {
    match ms {
        Some(m) => m as i64,
        None => 0,
    }
}

/// Turns a clock reading in Unix milliseconds into an envelope
/// timestamp.
pub fn ts_from_millis(ms: Option<u128>) -> (r: i64)
    ensures
        r == millis_ts(ms),
{
    match ms {
        Some(m) => m as i64,
        None => 0,
    }
}

/// Wall-clock time in Unix milliseconds; 0 when the clock reads before
/// the epoch. The result is `ts_from_millis` of the clock's reading;
/// nothing is promised of the reading itself, so no clause is stated
/// here: `ts_from_millis` carries the rule.
pub fn now_ms() -> i64 {
    let reading = clock_unix_millis();
    ts_from_millis(reading)
}

impl MsgEnvelope {
    /// An event envelope with the given id, stamped from the given clock
    /// reading: JSON content type, no headers.
    pub fn event_at(payload: serde_json::Value, id: u128, clock_ms: Option<u128>) -> (e: MsgEnvelope)
        ensures
            e.id == id,
            e.ts == millis_ts(clock_ms),
            e.content_type@ == "application/json"@,
            e.headers@ == Map::<Seq<char>, Seq<char>>::empty(),
            e.payload == payload,
    {
        MsgEnvelope {
            id,
            ts: ts_from_millis(clock_ms),
            content_type: String::from_str(CONTENT_TYPE_JSON),
            headers: StringMap::new(),
            payload,
        }
    }

    /// A log envelope with the given id, stamped from the given clock
    /// reading; the level goes in the `level` header.
    pub fn log_at(level: LogLevel, payload: serde_json::Value, id: u128, clock_ms: Option<u128>) -> (e: MsgEnvelope)
        ensures
            e.id == id,
            e.ts == millis_ts(clock_ms),
            e.content_type@ == "application/json"@,
            e.headers@ == Map::<Seq<char>, Seq<char>>::empty().insert("level"@, level_name(level)),
            e.payload == payload,
    {
        let mut e = Self::event_at(payload, id, clock_ms);
        e.headers.insert(String::from_str(HEADER_LOG_LEVEL), String::from_str(level.as_str()));
        e
    }

    /// Build a fresh event envelope. Callers set the payload; id, ts,
    /// content_type are filled in: a fresh version-4 UUID and the
    /// current clock reading, as `event_at` stamps them.
    pub fn new_event(payload: serde_json::Value) -> (e: MsgEnvelope)
        ensures
            e.content_type@ == "application/json"@,
            e.headers@ == Map::<Seq<char>, Seq<char>>::empty(),
            e.payload == payload,
            (e.id >> 76u128) & 0xfu128 == 4,
            (e.id >> 62u128) & 0x3u128 == 2,
    {
        let id = random_uuid();
        let reading = clock_unix_millis();
        Self::event_at(payload, id, reading)
    }

    /// Build a fresh log envelope. Level is stored in `headers.level`
    /// so the same envelope shape works for both planes.
    pub fn new_log(level: LogLevel, payload: serde_json::Value) -> (e: MsgEnvelope)
        ensures
            e.content_type@ == "application/json"@,
            e.headers@ == Map::<Seq<char>, Seq<char>>::empty().insert("level"@, level_name(level)),
            e.payload == payload,
            (e.id >> 76u128) & 0xfu128 == 4,
            (e.id >> 62u128) & 0x3u128 == 2,
    {
        let id = random_uuid();
        let reading = clock_unix_millis();
        Self::log_at(level, payload, id, reading)
    }

    /// Extract the log level from headers (info if missing or unknown).
    pub fn log_level(&self) -> (l: LogLevel)
        ensures
            l == header_level(self.headers@),
    {
        match self.headers.get(HEADER_LOG_LEVEL) {
            Some(s) => match LogLevel::parse(s.as_str()) {
                Some(l) => l,
                None => LogLevel::Info,
            },
            None => LogLevel::Info,
        }
    }
}

/// A level's wire name parses back to that level, and a name parses
/// only to the level it names.
pub proof fn law_level_name_round_trip(l: LogLevel, s: Seq<char>)
    ensures
        parsed_level(level_name(l)) == Some(l),
        parsed_level(s) == Some(l) ==> s == level_name(l),
{
    reveal_strlit("trace");
    reveal_strlit("debug");
    reveal_strlit("info");
    reveal_strlit("warn");
    reveal_strlit("error");
    assert("trace"@ != "debug"@) by { assert("trace"@[0] != "debug"@[0] || "trace"@.len() != "debug"@.len()); }
    assert("trace"@ != "info"@) by { assert("trace"@[0] != "info"@[0] || "trace"@.len() != "info"@.len()); }
    assert("trace"@ != "warn"@) by { assert("trace"@[0] != "warn"@[0] || "trace"@.len() != "warn"@.len()); }
    assert("trace"@ != "error"@) by { assert("trace"@[0] != "error"@[0] || "trace"@.len() != "error"@.len()); }
    assert("debug"@ != "info"@) by { assert("debug"@[0] != "info"@[0] || "debug"@.len() != "info"@.len()); }
    assert("debug"@ != "warn"@) by { assert("debug"@[0] != "warn"@[0] || "debug"@.len() != "warn"@.len()); }
    assert("debug"@ != "error"@) by { assert("debug"@[0] != "error"@[0] || "debug"@.len() != "error"@.len()); }
    assert("info"@ != "warn"@) by { assert("info"@[0] != "warn"@[0] || "info"@.len() != "warn"@.len()); }
    assert("info"@ != "error"@) by { assert("info"@[0] != "error"@[0] || "info"@.len() != "error"@.len()); }
    assert("warn"@ != "error"@) by { assert("warn"@[0] != "error"@[0] || "warn"@.len() != "error"@.len()); }
}

/// A log envelope reads back the level it was built with, and an event
/// envelope (no `level` header) reads as `info`.
pub proof fn law_envelope_level(l: LogLevel)
    ensures
        header_level(Map::<Seq<char>, Seq<char>>::empty().insert("level"@, level_name(l))) == l,
        header_level(Map::<Seq<char>, Seq<char>>::empty()) == LogLevel::Info,
{
    law_level_name_round_trip(l, level_name(l));
}

} // verus!
