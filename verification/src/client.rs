//! Device-side message-plane conventions: validated topics,
//! `MsgEnvelope`s, and keyexprs scoped to the session's own device id.
//! The transport (opening the session, serialising and putting the
//! bytes) belongs to the caller; this module decides what is sent and
//! where.

use vstd::prelude::*;

use crate::keyexpr::{law_msg_event_round_trip, law_msg_log_round_trip, msg_event, msg_event_ke, msg_log, msg_log_ke, parsed_msg_keyexpr, MsgKind};
use crate::msg::{level_name, LogLevel, MsgEnvelope};
use crate::text::{chars_of, join_with, lacks, lemma_join_split, push_chars, split_chars, split_on};
use crate::zid::{is_valid_zid, zid_error, zid_error_message, Zid};

verus! {

/// Errors of the message-plane conventions.
#[derive(Debug, Clone, PartialEq, Eq)]
pub enum ClientError {
    /// The session's device id is not a valid `Zid`.
    Zid(String),
    /// The topic would break the keyexpr conversion or smuggle a wildcard.
    Topic(String),
}

/// Whether a topic segment holds a character reserved by key expressions.
pub open spec fn has_reserved(seg: Seq<char>) -> bool {
    exists|i: int| 0 <= i < seg.len() && (seg[i] == '/' || seg[i] == '*')
}

/// The complaint about the first bad segment among `segs[i..]`.
pub open spec fn segment_problem(segs: Seq<Seq<char>>, topic: Seq<char>, i: int) -> Option<Seq<char>>
    decreases segs.len() - i,
{
    if i < 0 || i >= segs.len() {
        None
    } else if segs[i].len() == 0 {
        Some("empty segment in topic `"@ + topic + "`"@)
    } else if has_reserved(segs[i]) {
        Some("segment `"@ + segs[i] + "` contains reserved character"@)
    } else {
        segment_problem(segs, topic, i + 1)
    }
}

/// The complaint `validate_topic` makes about `topic`, if any.
pub open spec fn topic_problem(topic: Seq<char>) -> Option<Seq<char>> {
    if topic.len() == 0 {
        Some("topic must not be empty"@)
    } else {
        segment_problem(split_on(topic, '.'), topic, 0)
    }
}

/// Reject topics that would break the keyexpr conversion or smuggle
/// wildcards on a publish path.
pub fn validate_topic(topic: &str) -> (r: Result<(), ClientError>)
    ensures
        match topic_problem(topic@) {
            None => r is Ok,
            Some(m) => r matches Err(ClientError::Topic(msg)) && msg@ == m,
        },
{
    let cs = chars_of(topic);
    if cs.len() == 0 {
        return Err(ClientError::Topic(String::from_str("topic must not be empty")));
    }
    let segs = split_chars(cs.as_slice(), '.');
    let ghost model = split_on(topic@, '.');
    let n = segs.len();
    for i in 0..n
        invariant
            n == segs@.len(),
            n == model.len(),
            cs@ == topic@,
            topic@.len() > 0,
            model == split_on(topic@, '.'),
            forall|k: int| 0 <= k < n ==> #[trigger] segs@[k]@ == model[k],
            segment_problem(model, topic@, 0) == segment_problem(model, topic@, i as int),
    {
        let seg = &segs[i];
        if seg.len() == 0 {
            let mut m = String::from_str("empty segment in topic `");
            m.append(topic);
            m.append("`");
            return Err(ClientError::Topic(m));
        }
        let len = seg.len();
        let mut reserved = false;
        for j in 0..len
            invariant
                len == seg@.len(),
                reserved == exists|k: int| 0 <= k < j && (seg@[k] == '/' || seg@[k] == '*'),
        {
            if seg[j] == '/' || seg[j] == '*' {
                reserved = true;
            }
        }
        if reserved {
            let mut m = String::from_str("segment `");
            push_chars(&mut m, seg.as_slice());
            m.append("` contains reserved character");
            return Err(ClientError::Topic(m));
        }
    }
    Ok(())
}

/// A joined list lacks `c` when every piece and the separator do.
proof fn lemma_join_lacks(parts: Seq<Seq<char>>, sep: char, c: char)
    requires
        sep != c,
        forall|i: int| 0 <= i < parts.len() ==> lacks(#[trigger] parts[i], c),
    ensures
        lacks(join_with(parts, sep), c),
    decreases parts.len(),
{
    if parts.len() > 1 {
        lemma_join_lacks(parts.drop_last(), sep, c);
        let j = join_with(parts.drop_last(), sep) + seq![sep] + parts.last();
        assert(lacks(parts.last(), c));
        assert forall|i: int| 0 <= i < j.len() implies j[i] != c by {
            if i < join_with(parts.drop_last(), sep).len() {
            } else if i == join_with(parts.drop_last(), sep).len() {
            } else {
                assert(j[i] == parts.last()[i - join_with(parts.drop_last(), sep).len() - 1]);
            }
        }
    } else if parts.len() == 1 {
        assert(lacks(parts[0], c));
    }
}

proof fn lemma_segments_clean(segs: Seq<Seq<char>>, topic: Seq<char>, i: int)
    requires
        0 <= i,
        segment_problem(segs, topic, i) is None,
    ensures
        forall|k: int| i <= k < segs.len() ==> !has_reserved(#[trigger] segs[k]) && segs[k].len() > 0,
    decreases segs.len() - i,
{
    if i < segs.len() {
        lemma_segments_clean(segs, topic, i + 1);
        assert forall|k: int| i <= k < segs.len() implies !has_reserved(#[trigger] segs[k]) && segs[k].len() > 0 by {
            if k == i {
            } else {
            }
        }
    }
}

proof fn lemma_segments_clean_no_problem(segs: Seq<Seq<char>>, topic: Seq<char>, i: int)
    requires
        0 <= i,
        forall|k: int| i <= k < segs.len() ==> !has_reserved(#[trigger] segs[k]) && segs[k].len() > 0,
    ensures
        segment_problem(segs, topic, i) is None,
    decreases segs.len() - i,
{
    if i < segs.len() {
        assert(!has_reserved(segs[i]) && segs[i].len() > 0);
        lemma_segments_clean_no_problem(segs, topic, i + 1);
    }
}

/// `validate_topic` accepts exactly the non-empty topics whose
/// dot-separated segments are all non-empty and free of `/` and `*`.
pub proof fn law_topic_accepted_iff(topic: Seq<char>)
    ensures
        topic_problem(topic) is None <==> (topic.len() > 0 && forall|k: int|
            0 <= k < split_on(topic, '.').len() ==> #[trigger] split_on(topic, '.')[k].len() > 0
                && !has_reserved(split_on(topic, '.')[k])),
{
    let segs = split_on(topic, '.');
    if topic_problem(topic) is None {
        lemma_segments_clean(segs, topic, 0);
    }
    if topic.len() > 0 && forall|k: int| 0 <= k < segs.len() ==> #[trigger] segs[k].len() > 0 && !has_reserved(segs[k]) {
        lemma_segments_clean_no_problem(segs, topic, 0);
    }
}

/// A topic that `validate_topic` accepts holds neither `/` nor `*`, so
/// its message keys name exactly one topic and no wildcard.
pub proof fn law_valid_topic_is_plain(topic: Seq<char>)
    requires
        topic_problem(topic) is None,
    ensures
        lacks(topic, '/'),
        lacks(topic, '*'),
        topic.len() > 0,
{
    let segs = split_on(topic, '.');
    lemma_segments_clean(segs, topic, 0);
    assert forall|k: int| 0 <= k < segs.len() implies lacks(#[trigger] segs[k], '/') && lacks(segs[k], '*') by {
        assert(!has_reserved(segs[k]));
        assert forall|i: int| 0 <= i < segs[k].len() implies segs[k][i] != '/' && segs[k][i] != '*' by {
            if segs[k][i] == '/' || segs[k][i] == '*' {
                assert(has_reserved(segs[k]));
            }
        }
    }
    lemma_join_lacks(segs, '.', '/');
    lemma_join_lacks(segs, '.', '*');
    lemma_join_split(topic, '.');
}

/// What a publish sends: the key it goes under and the envelope.
#[derive(Debug)]
pub struct Publication {
    pub keyexpr: String,
    pub envelope: MsgEnvelope,
}

/// Prepares a fire-and-forget event under
/// `hackline/<zid>/msg/event/<topic>`: the topic is validated, then a
/// fresh event envelope is built around the payload.
pub fn event_publication(zid: &Zid, topic: &str, payload: serde_json::Value) -> (r: Result<Publication, ClientError>)
    ensures
        match topic_problem(topic@) {
            Some(m) => r matches Err(ClientError::Topic(msg)) && msg@ == m,
            None => r matches Ok(p) && {
                &&& p.keyexpr@ == msg_event_ke(zid.view(), topic@)
                &&& p.envelope.content_type@ == "application/json"@
                &&& p.envelope.headers@ == Map::<Seq<char>, Seq<char>>::empty()
                &&& p.envelope.payload == payload
                &&& (p.envelope.id >> 76u128) & 0xfu128 == 4
                &&& (p.envelope.id >> 62u128) & 0x3u128 == 2
            },
        },
{
    validate_topic(topic)?;
    let envelope = MsgEnvelope::new_event(payload);
    let keyexpr = msg_event(zid, topic);
    Ok(Publication { keyexpr, envelope })
}

/// Prepares a structured log under `hackline/<zid>/msg/log/<topic>`:
/// the topic is validated, then a fresh log envelope carrying `level`
/// is built around the payload.
pub fn log_publication(zid: &Zid, level: LogLevel, topic: &str, payload: serde_json::Value) -> (r: Result<Publication, ClientError>)
    ensures
        match topic_problem(topic@) {
            Some(m) => r matches Err(ClientError::Topic(msg)) && msg@ == m,
            None => r matches Ok(p) && {
                &&& p.keyexpr@ == msg_log_ke(zid.view(), topic@)
                &&& p.envelope.content_type@ == "application/json"@
                &&& p.envelope.headers@ == Map::<Seq<char>, Seq<char>>::empty().insert("level"@, level_name(level))
                &&& p.envelope.payload == payload
                &&& (p.envelope.id >> 76u128) & 0xfu128 == 4
                &&& (p.envelope.id >> 62u128) & 0x3u128 == 2
            },
        },
{
    validate_topic(topic)?;
    let envelope = MsgEnvelope::new_log(level, payload);
    let keyexpr = msg_log(zid, topic);
    Ok(Publication { keyexpr, envelope })
}

/// The device id a session derives from its own Zenoh id, rejected with
/// the reason when it is not a valid `Zid`.
pub fn session_zid(raw: &str) -> (r: Result<Zid, ClientError>)
    ensures
        match zid_error(raw@) {
            Some(e) => r matches Err(ClientError::Zid(m)) && m@ == zid_error_message(e),
            None => r matches Ok(z) && z.view() == raw@,
        },
{
    match Zid::new(raw) {
        Ok(z) => Ok(z),
        Err(e) => Err(ClientError::Zid(e.message())),
    }
}

/// What a device publishes is what the gateway's fan-in reads: for any
/// device id and any topic that `validate_topic` accepts, the event and
/// log keys parse back to that device, the right kind and that topic.
pub proof fn law_published_topic_reaches_fanin(zid: Seq<char>, topic: Seq<char>)
    requires
        is_valid_zid(zid),
        topic_problem(topic) is None,
    ensures
        parsed_msg_keyexpr(msg_event_ke(zid, topic)) == Some((zid, MsgKind::Event, topic)),
        parsed_msg_keyexpr(msg_log_ke(zid, topic)) == Some((zid, MsgKind::Log, topic)),
{
    law_valid_topic_is_plain(topic);
    law_msg_event_round_trip(zid, topic);
    law_msg_log_round_trip(zid, topic);
}

} // verus!
