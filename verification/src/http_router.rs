//! HTTP host routing. The shared HTTP listener peeks the first
//! request's `Host:` header off the wire to pick the `http` tunnel the
//! connection belongs to; bytes already read are forwarded into the
//! bridge before the socket halves are pumped freely. The caller does
//! the reading and the bridging; this module decides, chunk by chunk,
//! whether the preamble names a host, is still incomplete, or must be
//! refused, and turns the tunnel lookup into a device route.

use vstd::prelude::*;
use vstd::utf8::{decode_utf8, valid_utf8};

use crate::error::GatewayError;
use crate::text::chars_of;
use crate::zid::{zid_error, zid_error_message, Zid};

verus! {

/// Largest preamble read while looking for the `Host:` header.
pub const HEADER_LIMIT: usize = 8192;

/// Size of one read from the client socket.
pub const READ_BUF: usize = 8192;

/// `std::str::from_utf8`, its error dropped. Trusted to succeed exactly
/// when `buf` is valid UTF-8, and then to give the text it encodes.
#[verifier::external_body]
fn utf8_text(buf: &[u8]) -> (r: Option<&str>)
    ensures
        r is Some <==> valid_utf8(buf@),
        r matches Some(t) ==> t@ == decode_utf8(buf@),
{
    std::str::from_utf8(buf).ok()
}

/// Whether `c` has the Unicode `White_Space` property (PropList.txt):
/// the controls U+0009..U+000D, space, U+0085, no-break space, the
/// Ogham space mark, the spaces U+2000..U+200A, the line and paragraph
/// separators, the narrow no-break space, the medium mathematical space
/// and the ideographic space.
pub open spec fn unicode_white_space(c: char) -> bool {
    let v = c as u32;
    ||| 0x09 <= v <= 0x0D
    ||| v == 0x20
    ||| v == 0x85
    ||| v == 0xA0
    ||| v == 0x1680
    ||| 0x2000 <= v <= 0x200A
    ||| v == 0x2028
    ||| v == 0x2029
    ||| v == 0x202F
    ||| v == 0x205F
    ||| v == 0x3000
}

/// Whether `c` is white space in the sense of `char::is_whitespace`
/// (the Unicode `White_Space` property), by comparing its code point
/// against the list that `unicode_white_space` gives.
fn is_whitespace(c: char) -> (r: bool)
    ensures
        r == unicode_white_space(c),
{
    let v = c as u32;
    (0x09 <= v && v <= 0x0D) || v == 0x20 || v == 0x85 || v == 0xA0 || v == 0x1680
        || (0x2000 <= v && v <= 0x200A) || v == 0x2028 || v == 0x2029 || v == 0x202F
        || v == 0x205F || v == 0x3000
}

/// `s` without leading white space.
pub open spec fn trim_start(s: Seq<char>) -> Seq<char>
    decreases s.len(),
{
    if s.len() > 0 && unicode_white_space(s[0]) {
        trim_start(s.drop_first())
    } else {
        s
    }
}

/// `s` without trailing white space.
pub open spec fn trim_end(s: Seq<char>) -> Seq<char>
    decreases s.len(),
{
    if s.len() > 0 && unicode_white_space(s.last()) {
        trim_end(s.drop_last())
    } else {
        s
    }
}

/// `str::trim`: white space removed at both ends.
pub open spec fn trimmed(s: Seq<char>) -> Seq<char> {
    trim_end(trim_start(s))
}

/// A line break `\r\n` starts at `i`.
pub open spec fn crlf_at(s: Seq<char>, i: int) -> bool {
    0 <= i && i + 1 < s.len() && s[i] == '\r' && s[i + 1] == '\n'
}

/// End of the line that starts at or before `i`: the next `\r\n`
/// from `i` on, or the end of the text.
pub open spec fn line_end(s: Seq<char>, i: int) -> int
    decreases s.len() - i,
{
    if i >= s.len() {
        s.len() as int
    } else if crlf_at(s, i) {
        i
    } else {
        line_end(s, i + 1)
    }
}

/// The line starts with `Host:`, `host:` or `HOST:`.
pub open spec fn host_prefixed(line: Seq<char>) -> bool {
    line.len() >= 5 && (line.take(5) == "Host:"@ || line.take(5) == "host:"@ || line.take(5) == "HOST:"@)
}

/// The host named by the first complete `Host:` line among the lines
/// starting at `start`. Only lines ended by `\r\n` count: the result is
/// `None` once an empty line (end of headers) or an unterminated line
/// (the text runs out mid-line) comes first.
pub open spec fn host_from(s: Seq<char>, start: int) -> Option<Seq<char>>
    decreases s.len() - start,
{
    if start < 0 || start > s.len() {
        None
    } else {
        let e = line_end(s, start);
        let line = s.subrange(start, e);
        if e >= s.len() || e < start || e + 2 > s.len() {
            None
        } else if line.len() == 0 {
            None
        } else if host_prefixed(line) {
            Some(trimmed(line.skip(5)))
        } else {
            host_from(s, e + 2)
        }
    }
}

/// The host `parse_host_header` reads from a request preamble.
pub open spec fn host_header(buf: Seq<u8>) -> Option<Seq<char>> {
    if valid_utf8(buf) {
        host_from(decode_utf8(buf), 0)
    } else {
        None
    }
}

proof fn lemma_line_end_bounds(s: Seq<char>, i: int)
    requires
        0 <= i <= s.len(),
    ensures
        i <= line_end(s, i) <= s.len(),
        line_end(s, i) < s.len() ==> crlf_at(s, line_end(s, i)),
        forall|j: int| i <= j < line_end(s, i) ==> !crlf_at(s, j),
    decreases s.len() - i,
{
    if i < s.len() && !crlf_at(s, i) {
        lemma_line_end_bounds(s, i + 1);
    }
}

/// `line` holds no `\r\n`.
pub open spec fn no_crlf(line: Seq<char>) -> bool {
    forall|i: int| 0 <= i < line.len() ==> !crlf_at(line, i)
}

/// Header lines written out, each followed by `\r\n`.
pub open spec fn header_lines(lines: Seq<Seq<char>>) -> Seq<char>
    decreases lines.len(),
{
    if lines.len() == 0 {
        Seq::<char>::empty()
    } else {
        lines[0] + seq!['\r', '\n'] + header_lines(lines.drop_first())
    }
}

/// A complete line `line` stands at `start` of `s`: it ends at the next
/// `\r\n`.
proof fn lemma_complete_line(s: Seq<char>, start: int, line: Seq<char>, i: int)
    requires
        0 <= start <= i <= start + line.len(),
        start + line.len() + 2 <= s.len(),
        s.subrange(start, start + line.len()) == line,
        s[start + line.len()] == '\r',
        s[start + line.len() + 1] == '\n',
        no_crlf(line),
    ensures
        line_end(s, i) == start + line.len(),
    decreases start + line.len() - i,
{
    let e = start + line.len();
    if i < e {
        assert(s[i] == line[i - start]);
        if i + 1 < e {
            assert(s[i + 1] == line[i + 1 - start]);
            assert(!crlf_at(line, i - start));
        }
        assert(!crlf_at(s, i));
        lemma_complete_line(s, start, line, i + 1);
    }
}

proof fn lemma_header_lines_len(lines: Seq<Seq<char>>)
    ensures
        header_lines(lines).len() >= lines.len() * 2,
    decreases lines.len(),
{
    if lines.len() > 0 {
        lemma_header_lines_len(lines.drop_first());
    }
}

/// Walking complete, non-empty header lines from `start`: the first one
/// with a `Host:` prefix decides; with none, the blank line after them
/// ends the search with nothing.
proof fn lemma_host_over_lines(s: Seq<char>, start: int, lines: Seq<Seq<char>>, k: int)
    requires
        0 <= start,
        start + header_lines(lines).len() <= s.len(),
        s.subrange(start, start + header_lines(lines).len()) == header_lines(lines),
        0 <= k <= lines.len(),
        forall|i: int| 0 <= i < lines.len() ==> #[trigger] lines[i].len() > 0 && no_crlf(lines[i]),
        forall|i: int| 0 <= i < k ==> !host_prefixed(#[trigger] lines[i]),
        k < lines.len() ==> host_prefixed(lines[k]),
        k == lines.len() ==> start + header_lines(lines).len() + 2 <= s.len()
            && s[start + header_lines(lines).len()] == '\r'
            && s[start + header_lines(lines).len() + 1] == '\n',
    ensures
        k < lines.len() ==> host_from(s, start) == Some(trimmed(lines[k].skip(5))),
        k == lines.len() ==> host_from(s, start) is None,
    decreases lines.len(),
{
    let h = header_lines(lines);
    if lines.len() == 0 {
        let p = start;
        assert(crlf_at(s, p));
        assert(line_end(s, p) == p);
    } else {
        let l0 = lines[0];
        let rest = lines.drop_first();
        let hr = header_lines(rest);
        assert(h == l0 + seq!['\r', '\n'] + hr);
        let e = start + l0.len();
        assert(s.subrange(start, e) =~= h.subrange(0, l0.len() as int));
        assert(h.subrange(0, l0.len() as int) =~= l0);
        assert(s[e] == h[l0.len() as int]);
        assert(s[e + 1] == h[l0.len() + 1int]);
        lemma_complete_line(s, start, l0, start);
        assert(line_end(s, start) == e);
        if k == 0 {
            assert(host_from(s, start) == Some(trimmed(s.subrange(start, e).skip(5))));
        } else {
            assert(!host_prefixed(lines[0]));
            assert(s.subrange(e + 2, e + 2 + hr.len()) =~= hr) by {
                assert forall|j: int| 0 <= j < hr.len() implies s.subrange(e + 2, e + 2 + hr.len())[j] == hr[j] by {
                    assert(s[e + 2 + j] == s.subrange(start, start + h.len())[l0.len() + 2 + j]);
                }
            }
            assert forall|i: int| 0 <= i < rest.len() implies #[trigger] rest[i].len() > 0 && no_crlf(rest[i]) by {
                assert(rest[i] == lines[i + 1]);
            }
            assert forall|i: int| 0 <= i < k - 1 implies !host_prefixed(#[trigger] rest[i]) by {
                assert(rest[i] == lines[i + 1]);
            }
            if k < lines.len() {
                assert(rest[k - 1] == lines[k]);
            }
            lemma_host_over_lines(s, e + 2, rest, k - 1);
            assert(host_from(s, start) == host_from(s, e + 2));
        }
    }
}

/// The `Host:` header of a request preamble is found wherever it stands
/// among the header lines: for lines that are all complete and
/// non-empty, the host is the trimmed value of the first line with a
/// `Host:`, `host:` or `HOST:` prefix; with no such line before the
/// blank line that ends the headers, there is none.
pub proof fn law_host_is_first_host_line(
    buf: Seq<u8>,
    lines: Seq<Seq<char>>,
    k: int,
    rest: Seq<char>,
)
    requires
        valid_utf8(buf),
        0 <= k <= lines.len(),
        forall|i: int| 0 <= i < lines.len() ==> #[trigger] lines[i].len() > 0 && no_crlf(lines[i]),
        forall|i: int| 0 <= i < k ==> !host_prefixed(#[trigger] lines[i]),
        k < lines.len() ==> host_prefixed(lines[k]) && decode_utf8(buf) == header_lines(lines) + rest,
        k == lines.len() ==> decode_utf8(buf) == header_lines(lines) + seq!['\r', '\n'] + rest,
    ensures
        k < lines.len() ==> host_header(buf) == Some(trimmed(lines[k].skip(5))),
        k == lines.len() ==> host_header(buf) is None,
{
    let s = decode_utf8(buf);
    let h = header_lines(lines);
    if k < lines.len() {
        assert(s.subrange(0, h.len() as int) =~= h);
    } else {
        assert(s.subrange(0, h.len() as int) =~= h);
        assert(s[h.len() as int] == '\r');
        assert(s[h.len() + 1int] == '\n');
    }
    lemma_host_over_lines(s, 0, lines, k);
}

/// Where `trim_start` cuts: everything before the cut is white space,
/// and the character at the cut (if any) is not.
proof fn lemma_trim_start_cut(s: Seq<char>) -> (a: int)
    ensures
        0 <= a <= s.len(),
        trim_start(s) == s.skip(a),
        forall|i: int| 0 <= i < a ==> unicode_white_space(#[trigger] s[i]),
        a < s.len() ==> !unicode_white_space(s[a]),
    decreases s.len(),
{
    if s.len() > 0 && unicode_white_space(s[0]) {
        let a1 = lemma_trim_start_cut(s.drop_first());
        assert(s.drop_first().skip(a1) =~= s.skip(a1 + 1));
        assert forall|i: int| 0 <= i < a1 + 1 implies unicode_white_space(#[trigger] s[i]) by {
            if i > 0 {
                assert(s[i] == s.drop_first()[i - 1]);
            }
        }
        a1 + 1
    } else {
        assert(s.skip(0) =~= s);
        0
    }
}

/// Where `trim_end` cuts: everything from the cut on is white space, and
/// the character just before it (if any) is not.
proof fn lemma_trim_end_cut(s: Seq<char>) -> (b: int)
    ensures
        0 <= b <= s.len(),
        trim_end(s) == s.take(b),
        forall|i: int| b <= i < s.len() ==> unicode_white_space(#[trigger] s[i]),
        b > 0 ==> !unicode_white_space(s[b - 1]),
    decreases s.len(),
{
    if s.len() > 0 && unicode_white_space(s.last()) {
        let b1 = lemma_trim_end_cut(s.drop_last());
        assert(s.drop_last().take(b1) =~= s.take(b1));
        assert forall|i: int| b1 <= i < s.len() implies unicode_white_space(#[trigger] s[i]) by {
            if i < s.len() - 1 {
                assert(s[i] == s.drop_last()[i]);
            }
        }
        b1
    } else {
        assert(s.take(s.len() as int) =~= s);
        s.len() as int
    }
}

/// `trimmed` removes white space at both ends and nothing else: the
/// result is a contiguous part of the text, everything cut off before
/// and after it is white space, and the part neither starts nor ends
/// with white space.
pub proof fn law_trim_strips_only_outer_white_space(s: Seq<char>)
    ensures
        exists|a: int, b: int|
            #![trigger s.subrange(a, b)]
            0 <= a <= b <= s.len()
            && trimmed(s) == s.subrange(a, b)
            && (forall|i: int| 0 <= i < a ==> unicode_white_space(#[trigger] s[i]))
            && (forall|i: int| b <= i < s.len() ==> unicode_white_space(#[trigger] s[i]))
            && (a < b ==> !unicode_white_space(s[a]) && !unicode_white_space(s[b - 1])),
{
    let a = lemma_trim_start_cut(s);
    let t = s.skip(a);
    let b1 = lemma_trim_end_cut(t);
    let b = a + b1;
    assert(t.take(b1) =~= s.subrange(a, b));
    assert forall|i: int| b <= i < s.len() implies unicode_white_space(#[trigger] s[i]) by {
        assert(s[i] == t[i - a]);
    }
    if a < b {
        assert(s[b - 1] == t[b1 - 1]);
    }
    assert(trimmed(s) == s.subrange(a, b));
}

/// `str::trim` over a run of characters.
fn trim_chars(cs: &[char], lo: usize, hi: usize) -> (s: String)
    requires
        lo <= hi <= cs@.len(),
    ensures
        s@ == trimmed(cs@.subrange(lo as int, hi as int)),
{
    let mut a = lo;
    while a < hi && is_whitespace(cs[a])
        invariant
            lo <= a <= hi <= cs@.len(),
            trim_start(cs@.subrange(lo as int, hi as int)) == trim_start(cs@.subrange(a as int, hi as int)),
        decreases hi - a,
    {
        assert(cs@.subrange(a as int, hi as int).drop_first() =~= cs@.subrange(a + 1, hi as int));
        a = a + 1;
    }
    assert(trim_start(cs@.subrange(a as int, hi as int)) == cs@.subrange(a as int, hi as int));
    let mut b = hi;
    while b > a && is_whitespace(cs[b - 1])
        invariant
            lo <= a <= b <= hi <= cs@.len(),
            trim_end(cs@.subrange(a as int, hi as int)) == trim_end(cs@.subrange(a as int, b as int)),
        decreases b - a,
    {
        assert(cs@.subrange(a as int, b as int).drop_last() =~= cs@.subrange(a as int, b - 1));
        b = b - 1;
    }
    assert(trim_end(cs@.subrange(a as int, b as int)) == cs@.subrange(a as int, b as int));
    let mut out = String::new();
    let mut i = a;
    while i < b
        invariant
            a <= i <= b <= cs@.len(),
            out@ == cs@.subrange(a as int, i as int),
        decreases b - i,
    {
        crate::text::push_char(&mut out, cs[i]);
        assert(cs@.subrange(a as int, i + 1) =~= cs@.subrange(a as int, i as int).push(cs@[i as int]));
        i = i + 1;
    }
    out
}

/// Whether `cs[i..i + 5]` is one of the accepted `Host:` spellings.
fn has_host_prefix(cs: &[char], i: usize, e: usize) -> (r: bool)
    requires
        i <= e <= cs@.len(),
    ensures
        r == host_prefixed(cs@.subrange(i as int, e as int)),
{
    if e - i < 5 {
        return false;
    }
    let ghost line = cs@.subrange(i as int, e as int);
    let p = &cs[i..i + 5];
    let ghost q = cs@.subrange(i as int, i + 5);
    assert(p@ == q);
    assert(line.take(5) =~= q);
    crate::text::chars_eq(p, "Host:") || crate::text::chars_eq(p, "host:") || crate::text::chars_eq(p, "HOST:")
}

/// The value of the first `Host:` header of an HTTP/1 request preamble
/// (trimmed), or `None` when the bytes are not UTF-8, or the headers
/// end, or the bytes run out mid-line, before a complete `Host:` line
/// (one ended by `\r\n`) appears.
pub fn parse_host_header(buf: &[u8]) -> (r: Option<String>)
    ensures
        match r {
            Some(h) => host_header(buf@) == Some(h@),
            None => host_header(buf@) is None,
        },
{
    let text = match utf8_text(buf) {
        Some(t) => t,
        None => return None,
    };
    let cs = chars_of(text);
    let n = cs.len();
    let mut start: usize = 0;
    loop
        invariant
            n == cs@.len(),
            cs@ == decode_utf8(buf@),
            valid_utf8(buf@),
            start <= n,
            host_from(cs@, 0) == host_from(cs@, start as int),
        decreases n - start,
    {
        // Find the end of the current line.
        let mut e = start;
        while e < n && !(e + 1 < n && cs[e] == '\r' && cs[e + 1] == '\n')
            invariant
                n == cs@.len(),
                start <= e <= n,
                line_end(cs@, start as int) == line_end(cs@, e as int),
            decreases n - e,
        {
            e = e + 1;
        }
        proof {
            lemma_line_end_bounds(cs@, start as int);
        }
        if e >= n {
            return None;
        }
        if e == start {
            return None;
        }
        if has_host_prefix(cs.as_slice(), start, e) {
            let h = trim_chars(cs.as_slice(), start + 5, e);
            assert(cs@.subrange(start as int, e as int).skip(5) =~= cs@.subrange(start + 5, e as int));
            return Some(h);
        }
        start = e + 2;
    }
}

/// `\r\n\r\n` (end of the header section) starts at byte `i`.
pub open spec fn double_crlf_at(b: Seq<u8>, i: int) -> bool {
    0 <= i && i + 3 < b.len() && b[i] == 13u8 && b[i + 1] == 10u8 && b[i + 2] == 13u8 && b[i + 3] == 10u8
}

/// Position of the first `\r\n\r\n` in `buf`.
pub fn find_double_crlf(buf: &[u8]) -> (r: Option<usize>)
    ensures
        match r {
            Some(i) => double_crlf_at(buf@, i as int) && forall|j: int| 0 <= j < i ==> !double_crlf_at(buf@, j),
            None => forall|j: int| !double_crlf_at(buf@, j),
        },
{
    let n = buf.len();
    if n < 4 {
        return None;
    }
    for i in 0..n - 3
        invariant
            n == buf@.len(),
            n >= 4,
            forall|j: int| 0 <= j < i ==> !double_crlf_at(buf@, j),
    {
        if buf[i] == 13 && buf[i + 1] == 10 && buf[i + 2] == 13 && buf[i + 3] == 10 {
            return Some(i);
        }
    }
    None
}

/// What to do after a chunk of the request preamble has arrived.
#[derive(Debug, Clone, PartialEq, Eq)]
pub enum PreambleStep {
    /// Route the connection to the tunnel of this host.
    Route(String),
    /// No decision yet: read another chunk.
    ReadMore,
    /// Refuse the connection.
    Reject(GatewayError),
}

/// The decision on a preamble that holds `prefix` so far.
pub open spec fn preamble_decision(prefix: Seq<u8>) -> Option<Option<Seq<char>>> {
    match host_header(prefix) {
        Some(h) => Some(Some(h)),
        None => if exists|j: int| double_crlf_at(prefix, j) {
            Some(None)
        } else {
            None
        },
    }
}

/// Takes in the next chunk read from the client (empty when the client
/// closed the connection) and decides: route by the first `Host:`
/// header; refuse when the connection closed early, the headers ended
/// without `Host:`, or more than `HEADER_LIMIT` bytes came without a
/// decision; otherwise read more.
pub fn on_preamble_chunk(prefix: &mut Vec<u8>, chunk: &[u8]) -> (step: PreambleStep)
    requires
        old(prefix)@.len() + chunk@.len() <= usize::MAX,
    ensures
        chunk@.len() == 0 ==> final(prefix)@ == old(prefix)@ && (step matches PreambleStep::Reject(GatewayError::BadRequest(m))
            && m@ == "HTTP preamble closed early"@),
        chunk@.len() > 0 ==> {
            &&& final(prefix)@ == old(prefix)@ + chunk@
            &&& match host_header(final(prefix)@) {
                Some(h) => step matches PreambleStep::Route(s) && s@ == h,
                None => if exists|j: int| double_crlf_at(final(prefix)@, j) {
                    step matches PreambleStep::Reject(GatewayError::BadRequest(m)) && m@ == "HTTP request missing Host header"@
                } else if final(prefix)@.len() > HEADER_LIMIT {
                    step matches PreambleStep::Reject(GatewayError::BadRequest(m)) && m@ == "HTTP header section exceeded 8 KiB"@
                } else {
                    step is ReadMore
                },
            }
        },
{
    if chunk.len() == 0 {
        return PreambleStep::Reject(GatewayError::BadRequest(String::from_str("HTTP preamble closed early")));
    }
    prefix.extend_from_slice(chunk);
    assert(prefix@ =~= old(prefix)@ + chunk@);
    if let Some(h) = parse_host_header(prefix.as_slice()) {
        return PreambleStep::Route(h);
    }
    if let Some(_) = find_double_crlf(prefix.as_slice()) {
        return PreambleStep::Reject(GatewayError::BadRequest(String::from_str("HTTP request missing Host header")));
    }
    if prefix.len() > HEADER_LIMIT {
        return PreambleStep::Reject(GatewayError::BadRequest(String::from_str("HTTP header section exceeded 8 KiB")));
    }
    PreambleStep::ReadMore
}

/// The device behind a host once the `http` tunnel lookup has answered
/// with `(device zid, device-local port)`: no row means no tunnel for
/// the host; a stored zid that is not a valid `Zid` is refused; the port
/// is narrowed to `u16` as the bridge takes it.
pub fn resolve_route(host: &str, row: Option<(String, i64)>) -> (r: Result<(Zid, u16), GatewayError>)
    ensures
        match row {
            None => r matches Err(GatewayError::BadRequest(m))
                && m@ == "no http tunnel for host `"@ + host@ + "`"@,
            Some((zid, port)) => match zid_error(zid@) {
                Some(e) => r matches Err(GatewayError::BadRequest(m)) && m@ == zid_error_message(e),
                None => r matches Ok((z, p)) && z.view() == zid@ && p == port as u16,
            },
        },
{
    match row {
        None => {
            let mut m = String::from_str("no http tunnel for host `");
            m.append(host);
            m.append("`");
            Err(GatewayError::BadRequest(m))
        },
        Some((zid_str, local_port)) => match Zid::new(zid_str.as_str()) {
            Ok(z) => Ok((z, local_port as u16)),
            Err(e) => Err(GatewayError::BadRequest(e.message())),
        },
    }
}

/// The device's answer to a connect request: a refusal carries the
/// device's message, or `device rejected` when it gave none.
pub fn check_ack(ok: bool, message: Option<String>) -> (r: Result<(), GatewayError>)
    ensures
        ok ==> r is Ok,
        !ok ==> (r matches Err(GatewayError::BadRequest(m)) && m@ == match message {
            Some(s) => s@,
            None => "device rejected"@,
        }),
{
    if ok {
        Ok(())
    } else {
        match message {
            Some(s) => Err(GatewayError::BadRequest(s)),
            None => Err(GatewayError::BadRequest(String::from_str("device rejected"))),
        }
    }
}

} // verus!
