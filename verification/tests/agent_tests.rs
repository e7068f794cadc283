use saturation::agent::attach_summary;
use saturation::agent::{
    envelope_verdict, http_failure, input_source, params_source, parse_params, stdin_input, AgentClient,
    AgentEnvelope, AgentError, EnvelopeVerdict, InputSource, ParamsSource,
};
use saturation::config::{Config, TokenInfo, WorkspaceInfo};

fn cfg() -> Config {
    let mut config = Config {
        server: Some("http://localhost:4001".into()),
        active_workspace: Some("ws-1".into()),
        token: Some(TokenInfo {
            access_token: "tok".into(),
            refresh_token: "ref".into(),
            expires_at: "2099-01-01".into(),
        }),
        ..Default::default()
    };
    config.insert_workspace("ws-1".into(), WorkspaceInfo { name: "T".into(), role: "admin".into() });
    config
}

#[test]
fn builds_tool_url() {
    let c = AgentClient::from_config(&cfg(), None).unwrap();
    assert_eq!(c.url("tools"), "http://localhost:4001/api/cli/ws-1/tools");
    assert_eq!(c.url("tool/query"), "http://localhost:4001/api/cli/ws-1/tool/query");
}

#[test]
fn workspace_override_wins() {
    let c = AgentClient::from_config(&cfg(), Some("ws-other")).unwrap();
    assert_eq!(c.workspace_id(), "ws-other");
}

#[test]
fn client_needs_token_and_workspace() {
    assert_eq!(AgentClient::from_config(&Config::default(), Some("w")).err(), Some(AgentError::NotAuthenticated));
    let mut c = cfg();
    c.active_workspace = None;
    let e = AgentClient::from_config(&c, None).err().unwrap();
    assert_eq!(e.message(), "no active agent workspace. Run `saturation workspace use <id>` first.");
    let mut slashed = cfg();
    slashed.server = Some("http://h//".into());
    let client = AgentClient::from_config(&slashed, None).unwrap();
    assert_eq!(client.url("/tools"), "http://h/api/cli/ws-1/tools");
    assert_eq!(client.token, "tok");
}

#[test]
fn resolve_params_defaults_to_empty_object() {
    match params_source(None, None) {
        ParamsSource::Text(t) => {
            let v = parse_params(&t, "params").unwrap();
            assert_eq!(v, "{}");
        }
        ParamsSource::File(_) => panic!("no file was given"),
    }
}

#[test]
fn resolve_params_parses_inline() {
    match params_source(Some(r#"{"a":1}"#.into()), Some("f".into())) {
        ParamsSource::Text(t) => {
            let v = parse_params(&t, "params").unwrap();
            assert_eq!(v, r#"{"a":1}"#);
        }
        ParamsSource::File(_) => panic!("inline wins"),
    }
    assert_eq!(parse_params("{", "params").unwrap_err().message(), "invalid JSON params");
    assert!(matches!(params_source(None, Some("p.json".into())), ParamsSource::File(p) if p == "p.json"));
}

#[test]
fn resolve_input_prefers_inline() {
    match input_source(Some("x".into()), Some("f".into()), true) {
        InputSource::Text(s) => assert_eq!(s, "x"),
        _ => panic!("inline wins"),
    }
    assert!(matches!(input_source(None, Some("f".into()), true), InputSource::File(f) if f == "f"));
    assert!(matches!(input_source(None, None, true), InputSource::Stdin));
    assert!(matches!(input_source(None, None, false), InputSource::Missing));
    assert_eq!(stdin_input("  \n".into()), None);
    assert_eq!(stdin_input(" q ".into()).as_deref(), Some(" q "));
    assert_eq!(
        AgentError::NoInput("thing".into()).message(),
        "no thing provided. Pass inline JSON, --file <path>, or pipe via stdin."
    );
}

#[test]
fn envelope_reading() {
    let data = |d: Option<&str>, summary: Option<&str>| {
        let env = AgentEnvelope {
            success: true,
            data: d.map(String::from),
            summary: summary.map(String::from),
            error: None,
            message: None,
        };
        match envelope_verdict(200, "200 OK", b"{}", Some(env)) {
            EnvelopeVerdict::Data(d) => d,
            EnvelopeVerdict::Failed(e) => panic!("unexpected failure: {:?}", e),
        }
    };
    assert_eq!(data(Some(r#"{"rows":3}"#), Some("3 rows")), r#"{"_summary":"3 rows","rows":3}"#);
    assert_eq!(data(Some(r#"{"_summary":"kept"}"#), Some("new")), r#"{"_summary":"kept"}"#);
    assert_eq!(data(Some("[1,2]"), Some("two")), "[1,2]");
    assert_eq!(data(None, Some("s")), "null");
    assert_eq!(data(Some(r#"{"a":1}"#), None), r#"{"a":1}"#);
    let failed = AgentEnvelope { success: false, data: None, summary: None, error: Some("boom".into()), message: Some("m".into()) };
    match envelope_verdict(200, "200 OK", b"{}", Some(failed)) {
        EnvelopeVerdict::Failed(e) => assert_eq!(e.message(), "agent error: boom"),
        _ => panic!("expected a failure"),
    }
    let bare = AgentEnvelope { success: false, data: None, summary: None, error: None, message: None };
    match envelope_verdict(200, "200 OK", b"{}", Some(bare)) {
        EnvelopeVerdict::Failed(e) => assert_eq!(e.message(), "agent error: tool failed"),
        _ => panic!("expected a failure"),
    }
    match envelope_verdict(200, "200 OK", b"<html>", None) {
        EnvelopeVerdict::Failed(e) => assert_eq!(e.message(), "failed to parse agent response"),
        _ => panic!("expected a failure"),
    }
    let denied = AgentEnvelope { success: false, data: None, summary: None, error: Some("e".into()), message: Some("nope".into()) };
    match envelope_verdict(403, "403 Forbidden", b"{}", Some(denied)) {
        EnvelopeVerdict::Failed(e) => assert_eq!(e.message(), "HTTP 403 Forbidden: nope"),
        _ => panic!("expected a failure"),
    }
    match envelope_verdict(502, "502 Bad Gateway", b"upstream down", None) {
        EnvelopeVerdict::Failed(e) => assert_eq!(e.message(), "HTTP 502 Bad Gateway: upstream down"),
        _ => panic!("expected a failure"),
    }
    assert!(http_failure(204, "204 No Content", "").is_none());
    assert_eq!(http_failure(500, "500 Internal Server Error", "x").unwrap().message(), "HTTP 500 Internal Server Error: x");
}

#[test]
fn summary_is_attached_only_to_objects_without_one() {
    assert_eq!(attach_summary(r#"{"b":1,"a":"x"}"#, "done"), r#"{"_summary":"done","a":"x","b":1}"#);
    assert_eq!(attach_summary(r#"{"_summary":1}"#, "done"), r#"{"_summary":1}"#);
    assert_eq!(attach_summary("\"text\"", "done"), "\"text\"");
    assert_eq!(attach_summary("null", "done"), "null");
}
