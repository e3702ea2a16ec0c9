//! Types of the AI provider runner: who serves a run, what a run is
//! given, what it reports, and the registry mapping each provider to
//! its runner.

use vstd::prelude::*;

use std::collections::HashMap;

use crate::assoc::{distinct_firsts, lemma_lookup_at, lemma_push_new, lemma_replace_at, pairs_map};

verus! {

/// Caller-supplied identifier grouping every event and final result for
/// one run. A newtype rather than a bare `String` so the agent-domain id
/// cannot be mixed up with the upstream CLI session id, which stays a
/// `String`.
#[derive(Debug, Clone, PartialEq, Eq, Hash)]
pub struct SessionId(String);

impl View for SessionId {
    type V = Seq<char>;

    closed spec fn view(&self) -> Seq<char> {
        self.0@
    }
}

impl SessionId {
    pub fn as_str(&self) -> (s: &str)
        ensures
            s@ == self@,
    {
        self.0.as_str()
    }

    pub fn into_inner(self) -> (s: String)
        ensures
            s@ == self@,
    {
        self.0
    }
}

impl From<String> for SessionId {
    fn from(s: String) -> (id: SessionId) {
        SessionId(s)
    }
}

impl vstd::std_specs::convert::FromSpecImpl<String> for SessionId {
    open spec fn obeys_from_spec() -> bool {
        true
    }

    closed spec fn from_spec(s: String) -> SessionId {
        SessionId(s)
    }
}

impl<'a> From<&'a str> for SessionId {
    fn from(s: &'a str) -> (id: SessionId)
        ensures
            id@ == s@,
    {
        SessionId(String::from_str(s))
    }
}

impl<'a> vstd::std_specs::convert::FromSpecImpl<&'a str> for SessionId {
    open spec fn obeys_from_spec() -> bool {
        false
    }

    closed spec fn from_spec(s: &'a str) -> SessionId {
        choose|id: SessionId| id@ == s@
    }
}

impl SessionId {
    pub proof fn lemma_from_string(s: String)
        ensures
            <SessionId as vstd::std_specs::convert::FromSpec<String>>::from_spec(s)@ == s@,
    {
    }
}

/// Which AI backend to use.
#[derive(Debug, Clone, Copy, PartialEq, Eq, Hash, Structural)]
pub enum Provider {
    /// Anthropic's coding CLI — auth managed by its binary itself.
    Claude,
    /// OpenAI Codex CLI — reads `OPENAI_API_KEY` from environment.
    Codex,
    /// Anthropic cloud REST API.
    Anthropic,
    /// OpenAI cloud REST API.
    OpenAi,
}

/// The lowercase name a provider is displayed and serialised as.
pub open spec fn provider_name(p: Provider) -> Seq<char> {
    match p {
        Provider::Claude => "anthropic-cli"@,
        Provider::Codex => "codex"@,
        Provider::Anthropic => "anthropic"@,
        Provider::OpenAi => "openai"@,
    }
}

impl Provider {
    /// The name `Display` prints for the provider.
    pub fn as_str(&self) -> (s: &'static str)
        ensures
            s@ == provider_name(*self),
    {
        match self {
            Provider::Claude => "anthropic-cli",
            Provider::Codex => "codex",
            Provider::Anthropic => "anthropic",
            Provider::OpenAi => "openai",
        }
    }
}

/// A single message in a multi-turn conversation (REST providers).
#[derive(Debug, Clone)]
pub struct HistoryMessage {
    /// `"system"`, `"user"`, or `"assistant"`.
    pub role: String,
    pub content: String,
}

/// Configuration for a CLI-transport run. Fields that don't apply to a
/// particular CLI are ignored at the spawn site.
#[derive(Debug, Clone, Default)]
pub struct CliCfg {
    pub prompt: String,
    pub system_prompt: Option<String>,
    pub model: Option<String>,
    pub resume_id: Option<String>,
    pub mcp_url: Option<String>,
    pub mcp_token: Option<String>,
    pub allowed_tools: Option<String>,
    pub thinking_budget: Option<String>,
    pub work_dir: Option<String>,
}

/// A tool the model may invoke.
#[derive(Debug, Clone)]
pub struct ToolDef {
    pub name: String,
    pub description: Option<String>,
    /// JSON Schema for the tool's input object.
    pub input_schema: serde_json::Value,
}

/// Constraint on tool selection.
#[derive(Debug, Clone)]
pub enum ToolChoice {
    /// Model decides whether to call a tool.
    Auto,
    /// Model must call some tool.
    Any,
    /// Model must call the named tool.
    Tool { name: String },
    /// Model must not call any tool (`none` on the wire).
    Disabled,
}

/// Configuration for a REST-transport run.
#[derive(Debug, Clone, Default)]
pub struct RestCfg {
    pub prompt: String,
    pub system_prompt: Option<String>,
    pub model: Option<String>,
    pub api_key: Option<String>,
    pub base_url: Option<String>,
    pub history: Vec<HistoryMessage>,
    pub max_tokens: Option<u32>,
    pub extra_headers: HashMap<String, String>,
    pub tools: Vec<ToolDef>,
    pub tool_choice: Option<ToolChoice>,
    pub thinking_budget: Option<String>,
}

/// Typed input for a single run: a runner handed the wrong variant
/// returns `RunnerError::WrongInputKind` rather than ignoring fields.
#[derive(Debug, Clone)]
pub enum RunnerInput {
    Cli(CliCfg),
    Rest(RestCfg),
}

impl RunnerInput {
    /// Short tag used in error messages and tracing.
    pub fn kind_tag(&self) -> (s: &'static str)
        ensures
            s@ == self.kind_tag_spec(),
    {
        match self {
            RunnerInput::Cli(_) => "cli",
            RunnerInput::Rest(_) => "rest",
        }
    }
}

/// Errors that originate from the runner layer itself.
#[derive(Debug)]
pub enum RunnerError {
    /// The runner was handed a `RunnerInput` variant it does not accept.
    WrongInputKind { provider: String, expected: &'static str, got: &'static str },
}

impl RunnerInput {
    /// The check every runner makes first: an input of the kind its
    /// transport takes passes; another kind is refused with a typed
    /// error naming the provider, the expected kind and the given one.
    pub fn require_kind(&self, provider: Provider, expected: &'static str) -> (r: Result<(), RunnerError>)
        ensures
            self.kind_tag_spec() == expected@ ==> r is Ok,
            self.kind_tag_spec() != expected@ ==> (r matches Err(RunnerError::WrongInputKind { provider: p, expected: e, got: g })
                && p@ == provider_name(provider) && e@ == expected@ && g@ == self.kind_tag_spec()),
    {
        let got = self.kind_tag();
        if crate::text::str_eq(got, expected) {
            Ok(())
        } else {
            Err(RunnerError::WrongInputKind { provider: String::from_str(provider.as_str()), expected, got })
        }
    }

    /// The tag of an input, as `kind_tag` returns it.
    pub open spec fn kind_tag_spec(&self) -> Seq<char> {
        match self {
            RunnerInput::Cli(_) => "cli"@,
            RunnerInput::Rest(_) => "rest"@,
        }
    }
}

/// A structured tool invocation captured from the model's output.
#[derive(Debug, Clone)]
pub struct ToolUse {
    pub id: String,
    pub name: String,
    pub input: serde_json::Value,
}

/// Records one tool invocation within a run.
#[derive(Debug, Clone, Default)]
pub struct ToolCallEntry {
    pub name: String,
    pub duration_ms: u64,
    /// `"ok"` or `"error"`.
    pub status: String,
    pub error: Option<String>,
}

/// A registered provider and whether its backend is ready.
#[derive(Debug, Clone)]
pub struct ProviderStatus {
    pub provider: Provider,
    pub available: bool,
}

/// Registry mapping each `Provider` to its runner. Registering a
/// provider again replaces its runner.
pub struct Registry<R> {
    entries: Vec<(Provider, R)>,
}

impl<R> View for Registry<R> {
    type V = Map<Provider, R>;

    closed spec fn view(&self) -> Map<Provider, R> {
        pairs_map(self.entries@)
    }
}

impl<R> Registry<R> {
    #[verifier::type_invariant]
    spec fn well_formed(self) -> bool {
        distinct_firsts(self.entries@)
    }

    /// An empty registry.
    pub fn new() -> (r: Registry<R>)
        ensures
            r@ == Map::<Provider, R>::empty(),
    {
        let r = Registry { entries: Vec::new() };
        assert(r@ =~= Map::<Provider, R>::empty());
        r
    }

    fn position(&self, provider: &Provider) -> (r: Option<usize>)
        ensures
            match r {
                Some(i) => i < self.entries@.len() && self.entries@[i as int].0 == *provider,
                None => forall|i: int| 0 <= i < self.entries@.len() ==> #[trigger] self.entries@[i].0 != *provider,
            },
    {
        let n = self.entries.len();
        for i in 0..n
            invariant
                n == self.entries@.len(),
                forall|j: int| 0 <= j < i ==> #[trigger] self.entries@[j].0 != *provider,
        {
            if self.entries[i].0 == *provider {
                return Some(i);
            }
        }
        None
    }

    /// Register (or replace) the runner of `provider`.
    pub fn register(&mut self, provider: Provider, runner: R)
        ensures
            final(self)@ == old(self)@.insert(provider, runner),
    {
        proof {
            use_type_invariant(&*self);
        }
        let ghost old_entries = self.entries@;
        let pos = self.position(&provider);
        let mut entries: Vec<(Provider, R)> = Vec::new();
        std::mem::swap(&mut entries, &mut self.entries);
        match pos {
            Some(i) => {
                proof {
                    lemma_replace_at(old_entries, i as int, provider, runner);
                }
                entries.set(i, (provider, runner));
            },
            None => {
                proof {
                    lemma_push_new(old_entries, provider, runner);
                }
                entries.push((provider, runner));
            },
        }
        self.entries = entries;
    }

    /// Look up the runner of `provider`.
    pub fn get(&self, provider: &Provider) -> (r: Option<&R>)
        ensures
            match r {
                Some(x) => self@.contains_key(*provider) && *x == self@[*provider],
                None => !self@.contains_key(*provider),
            },
    {
        proof {
            use_type_invariant(self);
        }
        match self.position(provider) {
            Some(i) => {
                proof {
                    lemma_lookup_at(self.entries@, i as int);
                }
                Some(&self.entries[i].1)
            },
            None => None,
        }
    }

    /// All registered providers with their runners, each provider once.
    pub fn entries(&self) -> (r: &Vec<(Provider, R)>)
        ensures
            distinct_firsts(r@),
            pairs_map(r@) == self@,
    {
        proof {
            use_type_invariant(self);
        }
        &self.entries
    }
}

/// Registering a runner makes lookups of its provider answer it and
/// leaves every other provider's answer as it was.
pub proof fn law_register_then_get<R>(m: Map<Provider, R>, p: Provider, r: R, q: Provider)
    ensures
        m.insert(p, r).contains_key(p) && m.insert(p, r)[p] == r,
        q != p ==> (m.insert(p, r).contains_key(q) == m.contains_key(q)),
        q != p && m.contains_key(q) ==> m.insert(p, r)[q] == m[q],
{
}

} // verus!
