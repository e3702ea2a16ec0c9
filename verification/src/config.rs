//! Gateway configuration (TOML schema) and the rules derived from it:
//! field defaults, the Zenoh session settings, log format choice and
//! fallback listen/database locations. Reading and parsing the file is
//! the caller's; unknown keys are rejected there.

use vstd::prelude::*;

use crate::text::{join_with, str_eq};
use crate::uuid_text::hex_char;

verus! {

#[derive(Debug)]
pub struct GatewayConfig {
    pub listen: Option<String>,
    pub database: Option<String>,
    pub zenoh: ZenohConfig,
    pub tunnels: Vec<TunnelEntry>,
    pub log: LogConfig,
}

#[derive(Debug)]
pub struct ZenohConfig {
    pub mode: String,
    pub listen: Vec<String>,
    pub connect: Vec<String>,
}

#[derive(Debug, Clone)]
pub struct TunnelEntry {
    pub zid: String,
    pub device_port: u16,
    pub listen_port: u16,
}

#[derive(Debug)]
pub struct LogConfig {
    pub level: String,
    pub format: String,
}

/// Zenoh mode when the `[zenoh]` table names none.
pub fn default_mode() -> (s: String)
    ensures
        s@ == "client"@,
{
    String::from_str("client")
}

/// Log level filter when `[log]` names none.
pub fn default_log_level() -> (s: String)
    ensures
        s@ == "info"@,
{
    String::from_str("info")
}

/// Log format when `[log]` names none.
pub fn default_log_format() -> (s: String)
    ensures
        s@ == "pretty"@,
{
    String::from_str("pretty")
}

impl Default for LogConfig {
    fn default() -> (c: LogConfig)
        ensures
            c.level@ == "info"@,
            c.format@ == "pretty"@,
    {
        LogConfig { level: default_log_level(), format: default_log_format() }
    }
}

/// Whether logs are written as JSON lines (`format = "json"`); every
/// other format prints human-readable lines.
pub fn log_format_is_json(format: &str) -> (b: bool)
    ensures
        b == (format@ == "json"@),
{
    str_eq(format, "json")
}

/// How one character is written inside a JSON string by `serde_json`:
/// `"` and `\\` get a backslash, the controls with a short escape use it
/// (`\b \t \n \f \r`), the other controls below U+0020 become `\u00XX`
/// with lowercase hex digits, and everything else is kept as it is.
pub open spec fn json_char_escape(c: char) -> Seq<char> {
    let v = c as u32;
    if c == '"' {
        seq!['\\', '"']
    } else if c == '\\' {
        seq!['\\', '\\']
    } else if v == 0x08 {
        seq!['\\', 'b']
    } else if v == 0x09 {
        seq!['\\', 't']
    } else if v == 0x0A {
        seq!['\\', 'n']
    } else if v == 0x0C {
        seq!['\\', 'f']
    } else if v == 0x0D {
        seq!['\\', 'r']
    } else if v < 0x20 {
        seq!['\\', 'u', '0', '0', hex_char((v / 16) as nat), hex_char((v % 16) as nat)]
    } else {
        seq![c]
    }
}

/// The characters of `s`, each escaped as in a JSON string.
pub open spec fn json_escaped(s: Seq<char>) -> Seq<char>
    decreases s.len(),
{
    if s.len() == 0 {
        Seq::<char>::empty()
    } else {
        json_escaped(s.drop_last()) + json_char_escape(s.last())
    }
}

/// `s` as a JSON string literal.
pub open spec fn json_string(s: Seq<char>) -> Seq<char> {
    seq!['"'] + json_escaped(s) + seq!['"']
}

/// The compact JSON array text of a list of strings, as
/// `serde_json::to_string` writes it: `[`, the string literals separated
/// by `,` with no white space, `]`.
pub open spec fn json_string_array(items: Seq<Seq<char>>) -> Seq<char> {
    seq!['['] + join_with(items.map_values(|s: Seq<char>| json_string(s)), ',') + seq![']']
}

/// `serde_json::to_string` on a list of strings. Trusted to give the
/// compact JSON array text that `json_string_array` spells out (the
/// compact formatter and its escape table); serialising strings cannot
/// fail (no map keys, no fallible `Serialize`), so the empty fallback is
/// never taken.
#[verifier::external_body]
fn json_array_text(items: &Vec<String>) -> (s: String)
    ensures
        s@ == json_string_array(items.deep_view()),
{
    match serde_json::to_string(items) {
        Ok(s) => s,
        Err(_) => String::new(),
    }
}

/// One JSON5 insertion into the Zenoh session configuration: the key,
/// the value text, and what a failure is reported as.
#[derive(Debug)]
pub struct ZenohSetting {
    pub key: String,
    pub value: String,
    pub context: String,
}

pub open spec fn setting_view(s: ZenohSetting) -> (Seq<char>, Seq<char>, Seq<char>) {
    (s.key@, s.value@, s.context@)
}

/// The insertions a Zenoh configuration gets, in order: the mode as a
/// JSON5 string, the listen and connect endpoint lists when non-empty,
/// and multicast scouting switched off.
pub open spec fn zenoh_settings_for(
    mode: Seq<char>,
    listen: Seq<Seq<char>>,
    connect: Seq<Seq<char>>,
) -> Seq<(Seq<char>, Seq<char>, Seq<char>)> {
    seq![("mode"@, seq!['"'] + mode + seq!['"'], "zenoh mode"@)]
        + (if listen.len() > 0 {
            seq![("listen/endpoints"@, json_string_array(listen), "zenoh listen"@)]
        } else {
            Seq::empty()
        })
        + (if connect.len() > 0 {
            seq![("connect/endpoints"@, json_string_array(connect), "zenoh connect"@)]
        } else {
            Seq::empty()
        })
        + seq![("scouting/multicast/enabled"@, "false"@, "zenoh scouting"@)]
}

/// The Zenoh settings carry the listen endpoints exactly when some are
/// configured, and the connect endpoints exactly when some are
/// configured, each list independently of the other; the mode comes
/// first (quoted), multicast scouting is switched off last, and no key
/// appears twice.
pub proof fn law_zenoh_endpoints_independent(mode: Seq<char>, listen: Seq<Seq<char>>, connect: Seq<Seq<char>>)
    ensures
        ({
            let r = zenoh_settings_for(mode, listen, connect);
            &&& r.len() >= 2
            &&& r[0] == ("mode"@, seq!['"'] + mode + seq!['"'], "zenoh mode"@)
            &&& r[r.len() - 1] == ("scouting/multicast/enabled"@, "false"@, "zenoh scouting"@)
            &&& (listen.len() > 0 <==> exists|i: int| 0 <= i < r.len() && #[trigger] r[i].0 == "listen/endpoints"@)
            &&& (connect.len() > 0 <==> exists|i: int| 0 <= i < r.len() && #[trigger] r[i].0 == "connect/endpoints"@)
            &&& forall|i: int| 0 <= i < r.len() && #[trigger] r[i].0 == "listen/endpoints"@
                ==> r[i] == ("listen/endpoints"@, json_string_array(listen), "zenoh listen"@)
            &&& forall|i: int| 0 <= i < r.len() && #[trigger] r[i].0 == "connect/endpoints"@
                ==> r[i] == ("connect/endpoints"@, json_string_array(connect), "zenoh connect"@)
            &&& forall|i: int, j: int| 0 <= i < j < r.len() ==> #[trigger] r[i].0 != #[trigger] r[j].0
        }),
{
    reveal_strlit("mode");
    reveal_strlit("listen/endpoints");
    reveal_strlit("connect/endpoints");
    reveal_strlit("scouting/multicast/enabled");
    let km = "mode"@;
    let kl = "listen/endpoints"@;
    let kc = "connect/endpoints"@;
    let ks = "scouting/multicast/enabled"@;
    assert(km != kl && km != kc && km != ks) by {
        assert(km.len() != kl.len() && km.len() != kc.len() && km.len() != ks.len());
    }
    assert(kl != kc && kl != ks && kc != ks) by {
        assert(kl[0] != kc[0] && kl.len() != ks.len() && kc.len() != ks.len());
    }
    let r = zenoh_settings_for(mode, listen, connect);
    let lp = if listen.len() > 0 {
        seq![(kl, json_string_array(listen), "zenoh listen"@)]
    } else {
        Seq::empty()
    };
    let cp = if connect.len() > 0 {
        seq![(kc, json_string_array(connect), "zenoh connect"@)]
    } else {
        Seq::empty()
    };
    let head = seq![(km, seq!['"'] + mode + seq!['"'], "zenoh mode"@)];
    let tail = seq![(ks, "false"@, "zenoh scouting"@)];
    assert(r =~= head + lp + cp + tail);
    let nl = lp.len() as int;
    let nc = cp.len() as int;
    assert(r.len() == 2 + nl + nc);
    assert forall|i: int| 0 <= i < r.len() implies
        (i == 0 ==> r[i].0 == km)
        && (1 <= i < 1 + nl ==> r[i] == lp[i - 1] && r[i].0 == kl)
        && (1 + nl <= i < 1 + nl + nc ==> r[i] == cp[i - 1 - nl] && r[i].0 == kc)
        && (i == r.len() - 1 ==> r[i].0 == ks) by {
    }
    if listen.len() > 0 {
        assert(r[1].0 == kl);
    }
    if connect.len() > 0 {
        assert(r[1 + nl].0 == kc);
    }
}

fn setting(key: &str, value: String, context: &str) -> (s: ZenohSetting)
    ensures
        setting_view(s) == (key@, value@, context@),
{
    ZenohSetting { key: String::from_str(key), value, context: String::from_str(context) }
}

impl GatewayConfig {
    /// The Zenoh session settings this configuration asks for.
    pub fn zenoh_settings(&self) -> (r: Vec<ZenohSetting>)
        ensures
            r@.map_values(|s: ZenohSetting| setting_view(s)) == zenoh_settings_for(
                self.zenoh.mode@,
                self.zenoh.listen.deep_view(),
                self.zenoh.connect.deep_view(),
            ),
    {
        let mut r: Vec<ZenohSetting> = Vec::new();
        let mut mode = String::from_str("\"");
        mode.append(self.zenoh.mode.as_str());
        mode.append("\"");
        proof {
            reveal_strlit("\"");
            assert("\""@ =~= seq!['"']);
            assert(mode@ =~= seq!['"'] + self.zenoh.mode@ + seq!['"']);
            assert(self.zenoh.listen.deep_view().len() == self.zenoh.listen@.len());
            assert(self.zenoh.connect.deep_view().len() == self.zenoh.connect@.len());
        }
        r.push(setting("mode", mode, "zenoh mode"));
        if self.zenoh.listen.len() > 0 {
            r.push(setting("listen/endpoints", json_array_text(&self.zenoh.listen), "zenoh listen"));
        }
        if self.zenoh.connect.len() > 0 {
            r.push(setting("connect/endpoints", json_array_text(&self.zenoh.connect), "zenoh connect"));
        }
        r.push(setting("scouting/multicast/enabled", String::from_str("false"), "zenoh scouting"));
        assert(r@.map_values(|s: ZenohSetting| setting_view(s)) =~= zenoh_settings_for(
            self.zenoh.mode@,
            self.zenoh.listen.deep_view(),
            self.zenoh.connect.deep_view(),
        ));
        r
    }

    /// Address of the REST listener: `listen`, else `127.0.0.1:8080`.
    pub fn listen_addr(&self) -> (s: &str)
        ensures
            s@ == match self.listen {
                Some(l) => l@,
                None => "127.0.0.1:8080"@,
            },
    {
        match &self.listen {
            Some(l) => l.as_str(),
            None => "127.0.0.1:8080",
        }
    }

    /// Path of the SQLite database: `database`, else `gateway.db`.
    pub fn database_path(&self) -> (s: &str)
        ensures
            s@ == match self.database {
                Some(d) => d@,
                None => "gateway.db"@,
            },
    {
        match &self.database {
            Some(d) => d.as_str(),
            None => "gateway.db",
        }
    }
}

} // verus!
