//! Key-expression builders. Every key expression of the wire catalogue
//! is built by exactly one function in this file so a typo can't slip
//! into the wire; `parse_msg_keyexpr` reads the message-plane ones back.

use vstd::prelude::*;

use crate::text::{lacks, lemma_join_split, lemma_split_concat, lemma_split_nonempty, lemma_split_replace, lemma_split_without_sep, chars_eq, chars_of, decimal, join_with, push_chars, push_char, push_decimal, replace_char, replace_chars, split_chars, split_on, string_of};
use crate::uuid_text::{hyphenated, uuid_hyphenated};
use crate::zid::{is_valid_zid, Zid};

verus! {

/// `hackline/<zid>/tcp/<port>/connect`
pub open spec fn connect_ke(zid: Seq<char>, port: u16) -> Seq<char> {
    "hackline/"@ + zid + "/tcp/"@ + decimal(port as nat) + "/connect"@
}

/// `hackline/<zid>/info`
pub open spec fn info_ke(zid: Seq<char>) -> Seq<char> {
    "hackline/"@ + zid + "/info"@
}

/// `hackline/<zid>/health`
pub open spec fn health_ke(zid: Seq<char>) -> Seq<char> {
    "hackline/"@ + zid + "/health"@
}

/// `hackline/<zid>/stream/<request_id>/gw`
pub open spec fn stream_gw_ke(zid: Seq<char>, request_id: u128) -> Seq<char> {
    "hackline/"@ + zid + "/stream/"@ + hyphenated(request_id) + "/gw"@
}

/// `hackline/<zid>/stream/<request_id>/dev`
pub open spec fn stream_dev_ke(zid: Seq<char>, request_id: u128) -> Seq<char> {
    "hackline/"@ + zid + "/stream/"@ + hyphenated(request_id) + "/dev"@
}

/// `hackline/<zid>/msg/event/<topic-as-keyexpr>`
pub open spec fn msg_event_ke(zid: Seq<char>, topic: Seq<char>) -> Seq<char> {
    "hackline/"@ + zid + "/msg/event/"@ + replace_char(topic, '.', '/')
}

/// `hackline/<zid>/msg/log/<topic-as-keyexpr>`
pub open spec fn msg_log_ke(zid: Seq<char>, topic: Seq<char>) -> Seq<char> {
    "hackline/"@ + zid + "/msg/log/"@ + replace_char(topic, '.', '/')
}

/// `hackline/<zid>/tcp/<port>/connect`
pub fn connect(zid: &Zid, port: u16) -> (ke: String)
    ensures
        ke@ == connect_ke(zid.view(), port),
{
    let mut s = String::from_str("hackline/");
    s.append(zid.as_str());
    s.append("/tcp/");
    push_decimal(&mut s, port as u64);
    s.append("/connect");
    s
}

/// `hackline/<zid>/info`
pub fn info(zid: &Zid) -> (ke: String)
    ensures
        ke@ == info_ke(zid.view()),
{
    let mut s = String::from_str("hackline/");
    s.append(zid.as_str());
    s.append("/info");
    s
}

/// `hackline/<zid>/health`
pub fn health(zid: &Zid) -> (ke: String)
    ensures
        ke@ == health_ke(zid.view()),
{
    let mut s = String::from_str("hackline/");
    s.append(zid.as_str());
    s.append("/health");
    s
}

/// `hackline/<zid>/stream/<request_id>/gw` — gateway → agent data.
pub fn stream_gw(zid: &Zid, request_id: u128) -> (ke: String)
    ensures
        ke@ == stream_gw_ke(zid.view(), request_id),
{
    let mut s = String::from_str("hackline/");
    s.append(zid.as_str());
    s.append("/stream/");
    let rid = uuid_hyphenated(request_id);
    s.append(rid.as_str());
    s.append("/gw");
    s
}

/// `hackline/<zid>/stream/<request_id>/dev` — agent → gateway data.
pub fn stream_dev(zid: &Zid, request_id: u128) -> (ke: String)
    ensures
        ke@ == stream_dev_ke(zid.view(), request_id),
{
    let mut s = String::from_str("hackline/");
    s.append(zid.as_str());
    s.append("/stream/");
    let rid = uuid_hyphenated(request_id);
    s.append(rid.as_str());
    s.append("/dev");
    s
}

/// Dotted topic → keyexpr suffix. `graph.slot.temp.changed` →
/// `graph/slot/temp/changed`. Topics must not hold `.` inside a
/// segment; callers validate before publishing.
pub fn topic_to_keyexpr_suffix(topic: &str) -> (suffix: String)
    ensures
        suffix@ == replace_char(topic@, '.', '/'),
{
    replace_chars(topic, '.', '/')
}

/// `hackline/<zid>/msg/event/<topic-as-keyexpr>`
pub fn msg_event(zid: &Zid, topic: &str) -> (ke: String)
    ensures
        ke@ == msg_event_ke(zid.view(), topic@),
{
    let mut s = String::from_str("hackline/");
    s.append(zid.as_str());
    s.append("/msg/event/");
    let suffix = topic_to_keyexpr_suffix(topic);
    s.append(suffix.as_str());
    s
}

/// `hackline/<zid>/msg/log/<topic-as-keyexpr>`
pub fn msg_log(zid: &Zid, topic: &str) -> (ke: String)
    ensures
        ke@ == msg_log_ke(zid.view(), topic@),
{
    let mut s = String::from_str("hackline/");
    s.append(zid.as_str());
    s.append("/msg/log/");
    let suffix = topic_to_keyexpr_suffix(topic);
    s.append(suffix.as_str());
    s
}

/// Gateway-side fan-in subscription for every device's events.
pub const MSG_EVENT_FANIN: &'static str = "hackline/*/msg/event/**";

/// Gateway-side fan-in subscription for every device's logs.
pub const MSG_LOG_FANIN: &'static str = "hackline/*/msg/log/**";

/// Inbound message-plane keyexpr kinds the gateway recognises.
#[derive(Debug, Clone, Copy, PartialEq, Eq, Structural)]
pub enum MsgKind {
    Event,
    Log,
}

/// What `parse_msg_keyexpr` reads from a key: the device id, the kind
/// and the dotted topic, or nothing when the shape does not match.
pub open spec fn parsed_msg_keyexpr(ke: Seq<char>) -> Option<(Seq<char>, MsgKind, Seq<char>)> {
    let parts = split_on(ke, '/');
    if parts.len() >= 5 && parts[0] == "hackline"@ && parts[2] == "msg"@
        && (parts[3] == "event"@ || parts[3] == "log"@) && is_valid_zid(parts[1]) {
        Some((
            parts[1],
            if parts[3] == "event"@ { MsgKind::Event } else { MsgKind::Log },
            join_with(parts.skip(4), '.'),
        ))
    } else {
        None
    }
}

/// Joins `parts[from..]` with `sep`.
fn join_from(parts: &Vec<Vec<char>>, from: usize, sep: char, Ghost(model): Ghost<Seq<Seq<char>>>) -> (s: String)
    requires
        from < parts@.len(),
        model.len() == parts@.len(),
        forall|i: int| 0 <= i < parts@.len() ==> #[trigger] parts@[i]@ == model[i],
    ensures
        s@ == join_with(model.skip(from as int), sep),
{
    let mut s = string_of(parts[from].as_slice());
    let n = parts.len();
    assert(model.subrange(from as int, from + 1) =~= seq![model[from as int]]);
    for i in from + 1..n
        invariant
            n == parts@.len(),
            from < n,
            model.len() == n,
            forall|k: int| 0 <= k < n ==> #[trigger] parts@[k]@ == model[k],
            s@ == join_with(model.subrange(from as int, i as int), sep),
    {
        push_char(&mut s, sep);
        push_chars(&mut s, parts[i].as_slice());
        let ghost sub = model.subrange(from as int, i + 1);
        assert(sub.drop_last() =~= model.subrange(from as int, i as int));
        assert(sub.last() == model[i as int]);
    }
    assert(model.subrange(from as int, n as int) =~= model.skip(from as int));
    s
}

/// Parse a concrete inbound key like
/// `hackline/<zid>/msg/event/foo/bar` back into
/// `(zid, kind, dotted-topic)`. Returns `None` if the shape doesn't
/// match — callers log-and-drop rather than crash on a malformed
/// publication from an untrusted device.
pub fn parse_msg_keyexpr(ke: &str) -> (r: Option<(Zid, MsgKind, String)>)
    ensures
        match r {
            Some((z, k, t)) => parsed_msg_keyexpr(ke@) == Some((z.view(), k, t@)),
            None => parsed_msg_keyexpr(ke@) is None,
        },
{
    let cs = chars_of(ke);
    let parts = split_chars(cs.as_slice(), '/');
    let ghost model = split_on(ke@, '/');
    if parts.len() < 5 {
        return None;
    }
    if !chars_eq(parts[0].as_slice(), "hackline") {
        return None;
    }
    if !chars_eq(parts[2].as_slice(), "msg") {
        return None;
    }
    let kind = if chars_eq(parts[3].as_slice(), "event") {
        MsgKind::Event
    } else if chars_eq(parts[3].as_slice(), "log") {
        MsgKind::Log
    } else {
        return None;
    };
    let zid = match Zid::from_chars(parts[1].as_slice()) {
        Ok(z) => z,
        Err(_) => return None,
    };
    let topic = join_from(&parts, 4, '.', Ghost(model));
    Some((zid, kind, topic))
}

/// Device ids contain no `/`.
proof fn lemma_zid_lacks_slash(zid: Seq<char>)
    requires
        is_valid_zid(zid),
    ensures
        lacks(zid, '/'),
{
    assert forall|i: int| 0 <= i < zid.len() implies zid[i] != '/' by {
        assert(crate::zid::is_zid_char(zid[i]));
    }
}

/// The pieces of `"hackline/" + zid + "/" + word + "/" + rest`.
proof fn lemma_split_prefixed(zid: Seq<char>, word: Seq<char>, rest: Seq<char>)
    requires
        is_valid_zid(zid),
        lacks(word, '/'),
    ensures
        split_on("hackline/"@ + zid + seq!['/'] + word + seq!['/'] + rest, '/')
            == seq!["hackline"@, zid, word] + split_on(rest, '/'),
{
    reveal_strlit("hackline/");
    reveal_strlit("hackline");
    let h = "hackline"@;
    lemma_zid_lacks_slash(zid);
    assert(lacks(h, '/'));
    assert("hackline/"@ =~= h + seq!['/']);
    let ke = "hackline/"@ + zid + seq!['/'] + word + seq!['/'] + rest;
    assert(ke =~= h + seq!['/'] + (zid + seq!['/'] + (word + seq!['/'] + rest)));
    lemma_split_concat(h, zid + seq!['/'] + (word + seq!['/'] + rest), '/');
    lemma_split_concat(zid, word + seq!['/'] + rest, '/');
    lemma_split_concat(word, rest, '/');
    lemma_split_without_sep(h, '/');
    lemma_split_without_sep(zid, '/');
    lemma_split_without_sep(word, '/');
    assert(split_on(ke, '/') =~= seq![h, zid, word] + split_on(rest, '/'));
}

/// The message-plane key of a topic without `/`, split at `/`.
proof fn lemma_split_msg_ke(zid: Seq<char>, kind: Seq<char>, topic: Seq<char>)
    requires
        is_valid_zid(zid),
        lacks(topic, '/'),
        kind == "event"@ || kind == "log"@,
    ensures
        split_on("hackline/"@ + zid + "/msg/"@ + kind + seq!['/'] + replace_char(topic, '.', '/'), '/')
            == seq!["hackline"@, zid, "msg"@, kind] + split_on(topic, '.'),
{
    reveal_strlit("msg");
    reveal_strlit("/msg/");
    reveal_strlit("event");
    reveal_strlit("log");
    let r = replace_char(topic, '.', '/');
    assert(lacks("msg"@, '/'));
    assert(lacks(kind, '/'));
    assert("/msg/"@ =~= seq!['/'] + "msg"@ + seq!['/']);
    let ke = "hackline/"@ + zid + "/msg/"@ + kind + seq!['/'] + r;
    assert(ke =~= "hackline/"@ + zid + seq!['/'] + "msg"@ + seq!['/'] + (kind + seq!['/'] + r));
    lemma_split_prefixed(zid, "msg"@, kind + seq!['/'] + r);
    lemma_split_concat(kind, r, '/');
    lemma_split_without_sep(kind, '/');
    lemma_split_replace(topic, '.', '/');
    assert(split_on(ke, '/') =~= seq!["hackline"@, zid, "msg"@, kind] + split_on(topic, '.'));
}

/// Round trip of the event plane: the key that `msg_event` builds for a
/// device id and a topic without `/` parses back to that device id, the
/// event kind and that topic.
pub proof fn law_msg_event_round_trip(zid: Seq<char>, topic: Seq<char>)
    requires
        is_valid_zid(zid),
        lacks(topic, '/'),
    ensures
        parsed_msg_keyexpr(msg_event_ke(zid, topic)) == Some((zid, MsgKind::Event, topic)),
{
    reveal_strlit("/msg/event/");
    reveal_strlit("/msg/");
    reveal_strlit("event");
    reveal_strlit("log");
    reveal_strlit("hackline");
    reveal_strlit("msg");
    assert("/msg/event/"@ =~= "/msg/"@ + "event"@ + seq!['/']);
    let r = replace_char(topic, '.', '/');
    assert(msg_event_ke(zid, topic) =~= "hackline/"@ + zid + "/msg/"@ + "event"@ + seq!['/'] + r);
    lemma_split_msg_ke(zid, "event"@, topic);
    let parts = split_on(msg_event_ke(zid, topic), '/');
    lemma_split_nonempty(topic, '.');
    assert(parts.skip(4) =~= split_on(topic, '.'));
    lemma_join_split(topic, '.');
}

/// Round trip of the log plane: the key that `msg_log` builds for a
/// device id and a topic without `/` parses back to that device id, the
/// log kind and that topic.
pub proof fn law_msg_log_round_trip(zid: Seq<char>, topic: Seq<char>)
    requires
        is_valid_zid(zid),
        lacks(topic, '/'),
    ensures
        parsed_msg_keyexpr(msg_log_ke(zid, topic)) == Some((zid, MsgKind::Log, topic)),
{
    reveal_strlit("/msg/log/");
    reveal_strlit("/msg/");
    reveal_strlit("event");
    reveal_strlit("log");
    reveal_strlit("hackline");
    reveal_strlit("msg");
    assert("/msg/log/"@ =~= "/msg/"@ + "log"@ + seq!['/']);
    let r = replace_char(topic, '.', '/');
    assert(msg_log_ke(zid, topic) =~= "hackline/"@ + zid + "/msg/"@ + "log"@ + seq!['/'] + r);
    lemma_split_msg_ke(zid, "log"@, topic);
    let parts = split_on(msg_log_ke(zid, topic), '/');
    lemma_split_nonempty(topic, '.');
    assert(parts.skip(4) =~= split_on(topic, '.'));
    lemma_join_split(topic, '.');
    assert("event"@ != "log"@) by {
        assert("event"@.len() != "log"@.len());
    }
}

/// The pieces of `"hackline/" + zid + "/" + word`.
proof fn lemma_split_short(zid: Seq<char>, word: Seq<char>)
    requires
        is_valid_zid(zid),
        lacks(word, '/'),
    ensures
        split_on("hackline/"@ + zid + seq!['/'] + word, '/') == seq!["hackline"@, zid, word],
{
    reveal_strlit("hackline/");
    reveal_strlit("hackline");
    let h = "hackline"@;
    lemma_zid_lacks_slash(zid);
    assert(lacks(h, '/'));
    assert("hackline/"@ =~= h + seq!['/']);
    let ke = "hackline/"@ + zid + seq!['/'] + word;
    assert(ke =~= h + seq!['/'] + (zid + seq!['/'] + word));
    lemma_split_concat(h, zid + seq!['/'] + word, '/');
    lemma_split_concat(zid, word, '/');
    lemma_split_without_sep(h, '/');
    lemma_split_without_sep(zid, '/');
    lemma_split_without_sep(word, '/');
    assert(split_on(ke, '/') =~= seq![h, zid, word]);
}

/// Keys of the other planes never read as message-plane keys: the
/// info, health, connect and stream keys of any device parse to
/// nothing, so a device cannot smuggle them into the fan-in.
pub proof fn law_other_keys_are_not_messages(zid: Seq<char>, port: u16, request_id: u128)
    requires
        is_valid_zid(zid),
    ensures
        parsed_msg_keyexpr(info_ke(zid)) is None,
        parsed_msg_keyexpr(health_ke(zid)) is None,
        parsed_msg_keyexpr(connect_ke(zid, port)) is None,
        parsed_msg_keyexpr(stream_gw_ke(zid, request_id)) is None,
        parsed_msg_keyexpr(stream_dev_ke(zid, request_id)) is None,
{
    reveal_strlit("/info");
    reveal_strlit("info");
    reveal_strlit("/health");
    reveal_strlit("health");
    reveal_strlit("/tcp/");
    reveal_strlit("tcp");
    reveal_strlit("/stream/");
    reveal_strlit("stream");
    reveal_strlit("msg");
    assert(lacks("info"@, '/'));
    assert("/info"@ =~= seq!['/'] + "info"@);
    assert(info_ke(zid) =~= "hackline/"@ + zid + seq!['/'] + "info"@);
    lemma_split_short(zid, "info"@);
    assert(lacks("health"@, '/'));
    assert("/health"@ =~= seq!['/'] + "health"@);
    assert(health_ke(zid) =~= "hackline/"@ + zid + seq!['/'] + "health"@);
    lemma_split_short(zid, "health"@);

    assert(lacks("tcp"@, '/'));
    assert("/tcp/"@ =~= seq!['/'] + "tcp"@ + seq!['/']);
    let crest = decimal(port as nat) + "/connect"@;
    assert(connect_ke(zid, port) =~= "hackline/"@ + zid + seq!['/'] + "tcp"@ + seq!['/'] + crest);
    lemma_split_prefixed(zid, "tcp"@, crest);
    assert("tcp"@ != "msg"@) by { assert("tcp"@[0] != "msg"@[0]); }

    assert(lacks("stream"@, '/'));
    assert("/stream/"@ =~= seq!['/'] + "stream"@ + seq!['/']);
    let grest = hyphenated(request_id) + "/gw"@;
    let drest = hyphenated(request_id) + "/dev"@;
    assert(stream_gw_ke(zid, request_id) =~= "hackline/"@ + zid + seq!['/'] + "stream"@ + seq!['/'] + grest);
    assert(stream_dev_ke(zid, request_id) =~= "hackline/"@ + zid + seq!['/'] + "stream"@ + seq!['/'] + drest);
    lemma_split_prefixed(zid, "stream"@, grest);
    lemma_split_prefixed(zid, "stream"@, drest);
    assert("stream"@ != "msg"@) by { assert("stream"@.len() != "msg"@.len()); }
}

} // verus!
