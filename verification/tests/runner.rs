use hackline::runner::{CliCfg, Provider, Registry, RestCfg, RunnerError, RunnerInput, SessionId};

#[test]
fn provider_names() {
    assert_eq!(Provider::Claude.as_str(), "anthropic-cli");
    assert_eq!(Provider::Codex.as_str(), "codex");
    assert_eq!(Provider::Anthropic.as_str(), "anthropic");
    assert_eq!(Provider::OpenAi.as_str(), "openai");
}

#[test]
fn session_ids() {
    let id = SessionId::from("session-1".to_string());
    assert_eq!(id.as_str(), "session-1");
    assert_eq!(id.clone().into_inner(), "session-1");
    assert_eq!(SessionId::from("session-1"), id);
    let other: SessionId = "session-2".into();
    assert_eq!(other.as_str(), "session-2");
}

#[test]
fn input_kind_tags() {
    assert_eq!(RunnerInput::Cli(CliCfg::default()).kind_tag(), "cli");
    assert_eq!(RunnerInput::Rest(RestCfg::default()).kind_tag(), "rest");
}

#[test]
fn registry_register_replaces() {
    let mut r: Registry<&str> = Registry::new();
    assert!(r.get(&Provider::Claude).is_none());
    r.register(Provider::Claude, "first");
    r.register(Provider::Codex, "codex");
    r.register(Provider::Claude, "second");
    assert_eq!(r.get(&Provider::Claude), Some(&"second"));
    assert_eq!(r.get(&Provider::Codex), Some(&"codex"));
    assert!(r.get(&Provider::OpenAi).is_none());
    assert_eq!(r.entries().len(), 2);
}

#[test]
fn rest_runner_rejects_cli_input_with_typed_error() {
    let input = RunnerInput::Cli(CliCfg { prompt: "anything".into(), ..Default::default() });
    let err = input.require_kind(Provider::Anthropic, "rest").expect_err("REST runner must reject Cli input");
    match err {
        RunnerError::WrongInputKind { provider, expected, got } => {
            assert_eq!(provider, "anthropic");
            assert_eq!(expected, "rest");
            assert_eq!(got, "cli");
        }
    }
    let rest = RunnerInput::Rest(RestCfg::default());
    assert!(rest.require_kind(Provider::OpenAi, "rest").is_ok());
}
