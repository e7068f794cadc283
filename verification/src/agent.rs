//! The agent namespace: a thin client for the workspace tool registry
//! (`/api/cli/:ws/...`), which speaks the internal `{ success, data,
//! summary }` envelope rather than the `/v1` error model.

use vstd::prelude::*;
use crate::config::{Config, server_url_of};
use crate::json::{json_text_parse, parse_json_text, json_member_state, json_member_set, json_string_member, member_state, set_member};
use crate::text::{concat, strip_leading, strip_leading_str, strip_trailing, strip_trailing_str, trim, trim_str};
use crate::v1::client::{utf8_lossy, lossy_utf8, is_success_status};

verus! {

/// Options of the agent namespace.
#[derive(Debug)]
pub struct AgentArgs {
    /// Override of the active agent workspace for this command.
    pub workspace: Option<String>,
    pub command: AgentCommand,
}

/// The agent commands.
#[allow(inconsistent_fields)]
#[derive(Debug)]
pub enum AgentCommand {
    /// List the tools advertised by the workspace registry.
    Tools,
    /// Invoke any registered tool by name.
    Call { tool: String, params: Option<String>, file: Option<String> },
    /// Run a workspace query (a shortcut for calling `query`).
    Query { dsl: Option<String>, file: Option<String>, stdin: bool },
    /// Upload a document through the agent upload endpoint.
    Upload { file: String, project: Option<String>, classification: Option<String> },
}

/// A tool the registry advertises.
#[derive(Debug)]
pub struct ToolInfo {
    pub name: String,
    pub description: String,
}

/// Errors of the agent client.
#[derive(Debug, PartialEq, Eq)]
pub enum AgentError {
    /// No token is stored.
    NotAuthenticated,
    /// No workspace is given or active.
    NoWorkspace,
    /// The registry answered with a failure status (as displayed) and detail.
    Http { status: String, detail: String },
    /// A success body did not parse; what was being read.
    ParseFailed(String),
    /// The tool reported a failure.
    ToolFailed(String),
    /// Parameters are not JSON; what they were.
    InvalidJson(String),
    /// No input was given; what was expected.
    NoInput(String),
}

/// The message of each error.
pub open spec fn agent_error_text(e: AgentError) -> Seq<char> {
    match e {
        AgentError::NotAuthenticated => "Not authenticated. Run `saturation auth token TOKEN` first."@,
        AgentError::NoWorkspace => "no active agent workspace. Run `saturation workspace use <id>` first."@,
        AgentError::Http { status, detail } => "HTTP "@ + status@ + ": "@ + detail@,
        AgentError::ParseFailed(what) => "failed to parse "@ + what@,
        AgentError::ToolFailed(m) => "agent error: "@ + m@,
        AgentError::InvalidJson(what) => "invalid JSON "@ + what@,
        AgentError::NoInput(what) => "no "@ + what@ + " provided. Pass inline JSON, --file <path>, or pipe via stdin."@,
    }
}

impl AgentError {
    /// The message shown to the user.
    pub fn message(&self) -> (s: String)
        ensures
            s@ == agent_error_text(*self),
    {
        match self {
            AgentError::NotAuthenticated => {
                "Not authenticated. Run `saturation auth token TOKEN` first.".to_owned()
            },
            AgentError::NoWorkspace => {
                "no active agent workspace. Run `saturation workspace use <id>` first.".to_owned()
            },
            AgentError::Http { status, detail } => {
                let a = concat("HTTP ", status.as_str());
                let b = concat(a.as_str(), ": ");
                concat(b.as_str(), detail.as_str())
            },
            AgentError::ParseFailed(what) => concat("failed to parse ", what.as_str()),
            AgentError::ToolFailed(m) => concat("agent error: ", m.as_str()),
            AgentError::InvalidJson(what) => concat("invalid JSON ", what.as_str()),
            AgentError::NoInput(what) => {
                let a = concat("no ", what.as_str());
                concat(a.as_str(), " provided. Pass inline JSON, --file <path>, or pipe via stdin.")
            },
        }
    }
}

/// The agent client's addressing: the host (without trailing slashes), the
/// bearer token, and the workspace the calls go to.
#[derive(Debug)]
pub struct AgentClient {
    pub base_url: String,
    pub token: String,
    pub workspace_id: String,
}

/// The URL of a registry path: `{base}/api/cli/{workspace}/{suffix}`, with
/// the suffix's leading slashes dropped.
pub open spec fn agent_url_of(base: Seq<char>, workspace: Seq<char>, suffix: Seq<char>) -> Seq<char> {
    base + "/api/cli/"@ + workspace + "/"@ + strip_leading(suffix, '/')
}

impl AgentClient {
    /// The client for the stored configuration: it needs a token, and a
    /// workspace (the override, else the active one); it talks to the
    /// configured host.
    pub fn from_config(config: &Config, workspace_override: Option<&str>) -> (r: Result<AgentClient, AgentError>)
        ensures
            config.token is None ==> r == Err::<AgentClient, AgentError>(AgentError::NotAuthenticated),
            config.token is Some && workspace_override is None && config.active_workspace is None
                ==> r == Err::<AgentClient, AgentError>(AgentError::NoWorkspace),
            config.token is Some && (workspace_override is Some || config.active_workspace is Some) ==> r is Ok,
            r matches Ok(c) ==> config.token matches Some(t) && c.token@ == t.access_token@
                && c.base_url@ == strip_trailing(server_url_of(config.server), '/')
                && c.workspace_id@ == match workspace_override {
                    Some(w) => w@,
                    None => config.active_workspace->0@,
                },
    {
        let token = match config.require_token() {
            Ok(t) => t,
            Err(_) => {
                return Err(AgentError::NotAuthenticated);
            },
        };
        let workspace_id = match workspace_override {
            Some(w) => w.to_owned(),
            None => match &config.active_workspace {
                Some(a) => a.clone(),
                None => {
                    return Err(AgentError::NoWorkspace);
                },
            },
        };
        Ok(AgentClient {
            base_url: strip_trailing_str(config.server_url(), '/'),
            token: token.access_token.clone(),
            workspace_id,
        })
    }

    /// The URL of a registry path.
    pub fn url(&self, suffix: &str) -> (u: String)
        ensures
            u@ == agent_url_of(self.base_url@, self.workspace_id@, suffix@),
    {
        let a = concat(self.base_url.as_str(), "/api/cli/");
        let b = concat(a.as_str(), self.workspace_id.as_str());
        let c = concat(b.as_str(), "/");
        let rest = strip_leading_str(suffix, '/');
        concat(c.as_str(), rest.as_str())
    }

    /// The workspace the calls go to.
    pub fn workspace_id(&self) -> (w: &str)
        ensures
            w@ == self.workspace_id@,
    {
        self.workspace_id.as_str()
    }
}

/// The failure of a registry call answered with a status that is not a
/// success: the status as displayed and the body.
pub fn http_failure(status: u16, status_text: &str, body: &str) -> (r: Option<AgentError>)
    ensures
        r is None <==> is_success_status(status),
        r matches Some(e) ==> e matches AgentError::Http { status: s, detail: d } && s@ == status_text@ && d@ == body@,
{
    if 200 <= status && status <= 299 {
        None
    } else {
        Some(AgentError::Http { status: status_text.to_owned(), detail: body.to_owned() })
    }
}

/// What the envelope of an agent answer says: whether it succeeded, its
/// data (as compact JSON text, when present), its summary, error and message.
#[derive(Debug)]
pub struct AgentEnvelope {
    pub success: bool,
    pub data: Option<String>,
    pub summary: Option<String>,
    pub error: Option<String>,
    pub message: Option<String>,
}

/// The reading of an agent answer: its data (compact JSON text), or a
/// failure.
#[derive(Debug)]
pub enum EnvelopeVerdict {
    Data(String),
    Failed(AgentError),
}

/// The member an answer's summary is attached under.
pub const SUMMARY_KEY: &'static str = "_summary";

/// Data with a summary attached: an object without a `_summary` member gains
/// one holding the summary; an object that has one keeps it, and any other
/// value is left as it is.
pub open spec fn summary_attached(data: Seq<char>, summary: Seq<char>) -> Seq<char> {
    if json_member_state(data, SUMMARY_KEY@) == Some(false) {
        json_member_set(data, SUMMARY_KEY@, summary)
    } else {
        data
    }
}

/// Attaches a summary to data given as compact JSON text: an object
/// without a `_summary` member gains one holding the summary as a string,
/// its other members unchanged; anything else is returned as it is.
pub fn attach_summary(data: &str, summary: &str) -> (r: String)
    ensures
        r@ == summary_attached(data@, summary@),
        json_member_state(data@, SUMMARY_KEY@) == Some(false) ==> json_string_member(r@, SUMMARY_KEY@)
            == Some(summary@) && json_member_state(r@, SUMMARY_KEY@) == Some(true)
            && forall|k: Seq<char>| k != SUMMARY_KEY@ ==> #[trigger] json_string_member(r@, k) == json_string_member(data@, k)
                && json_member_state(r@, k) == json_member_state(data@, k),
        json_member_state(data@, SUMMARY_KEY@) != Some(false) ==> r@ == data@,
{
    match member_state(data, SUMMARY_KEY) {
        Some(false) => set_member(data, SUMMARY_KEY, summary),
        _ => data.to_owned(),
    }
}

/// The data an answer yields: its data (`null` when absent), with the
/// summary attached when there is one.
pub open spec fn envelope_data(env: AgentEnvelope) -> Seq<char> {
    let d = match env.data {
        Some(t) => t@,
        None => "null"@,
    };
    match env.summary {
        Some(s) => summary_attached(d, s@),
        None => d,
    }
}

/// The first present of two optional strings, by view.
pub open spec fn first_of(a: Option<String>, b: Option<String>) -> Option<Seq<char>> {
    match a {
        Some(x) => Some(x@),
        None => match b {
            Some(y) => Some(y@),
            None => None,
        },
    }
}

/// The first present of two optional strings.
fn first_present(a: &Option<String>, b: &Option<String>) -> (r: Option<String>)
    ensures
        r matches Some(x) ==> first_of(*a, *b) == Some(x@),
        r is None ==> first_of(*a, *b) is None,
{
    match a {
        Some(x) => Some(x.clone()),
        None => match b {
            Some(y) => Some(y.clone()),
            None => None,
        },
    }
}

/// Reads an agent answer. A failure status reports the envelope's message
/// (else its error, else nothing) when the body held an envelope, else the
/// body as text. A success needs an envelope (`envelope` is what the body
/// parsed to); one that reports no success fails with its error (else its
/// message, else `tool failed`); otherwise the data (`null` when absent)
/// is returned with the summary attached to it when there is one.
pub fn envelope_verdict(status: u16, status_text: &str, body: &[u8], envelope: Option<AgentEnvelope>) -> (r: EnvelopeVerdict)
    ensures
        !is_success_status(status) ==> (r matches EnvelopeVerdict::Failed(AgentError::Http { status: s, detail: d })
            && s@ == status_text@ && d@ == match envelope {
                Some(env) => match first_of(env.message, env.error) {
                    Some(m) => m,
                    None => Seq::<char>::empty(),
                },
                None => utf8_lossy(body@),
            }),
        is_success_status(status) && envelope is None ==> (r matches EnvelopeVerdict::Failed(AgentError::ParseFailed(w))
            && w@ == "agent response"@),
        envelope matches Some(env) ==> (is_success_status(status) && !env.success ==> (r matches EnvelopeVerdict::Failed(AgentError::ToolFailed(m))
            && m@ == match first_of(env.error, env.message) {
                Some(x) => x,
                None => "tool failed"@,
            })),
        envelope matches Some(env) ==> (is_success_status(status) && env.success ==> (r matches EnvelopeVerdict::Data(d)
            && d@ == envelope_data(env))),
{
    if !(200 <= status && status <= 299) {
        let detail = match &envelope {
            Some(env) => match first_present(&env.message, &env.error) {
                Some(m) => m,
                None => String::new(),
            },
            None => lossy_utf8(body),
        };
        return EnvelopeVerdict::Failed(AgentError::Http { status: status_text.to_owned(), detail });
    }
    match envelope {
        None => EnvelopeVerdict::Failed(AgentError::ParseFailed("agent response".to_owned())),
        Some(env) => {
            if !env.success {
                let m = match first_present(&env.error, &env.message) {
                    Some(m) => m,
                    None => "tool failed".to_owned(),
                };
                EnvelopeVerdict::Failed(AgentError::ToolFailed(m))
            } else {
                let data = match &env.data {
                    Some(t) => t.clone(),
                    None => "null".to_owned(),
                };
                match &env.summary {
                    Some(sm) => EnvelopeVerdict::Data(attach_summary(data.as_str(), sm.as_str())),
                    None => EnvelopeVerdict::Data(data),
                }
            }
        },
    }
}

/// Where the parameters of a tool call come from: inline text, a file, or,
/// when neither is given, the empty object.
#[derive(Debug)]
pub enum ParamsSource {
    Text(String),
    File(String),
}

/// Chooses where a tool call's parameters come from: inline text wins over a
/// file; with neither, the parameters are `{}`.
pub fn params_source(inline: Option<String>, file: Option<String>) -> (r: ParamsSource)
    ensures
        inline matches Some(s) ==> r == ParamsSource::Text(s),
        file matches Some(p) ==> (inline is None ==> r == ParamsSource::File(p)),
        inline is None && file is None ==> (r matches ParamsSource::Text(t) && t@ == "{}"@),
{
    match inline {
        Some(s) => ParamsSource::Text(s),
        None => match file {
            Some(p) => ParamsSource::File(p),
            None => ParamsSource::Text("{}".to_owned()),
        },
    }
}

/// Parses parameter text as JSON: the parameters as compact JSON text;
/// `what` names the parameters in the error.
pub fn parse_params(raw: &str, what: &str) -> (r: Result<String, AgentError>)
    ensures
        match json_text_parse(raw@) {
            Ok(t) => r matches Ok(x) && x@ == t,
            Err(_) => r matches Err(AgentError::InvalidJson(w)) && w@ == what@,
        },
{
    match parse_json_text(raw) {
        Ok(v) => Ok(v),
        Err(_) => Err(AgentError::InvalidJson(what.to_owned())),
    }
}

/// Where a command's input comes from: inline text, a file, standard input,
/// or nowhere.
#[derive(Debug)]
pub enum InputSource {
    Text(String),
    File(String),
    Stdin,
    Missing,
}

/// Chooses where a command's input comes from: inline text, else a file,
/// else standard input when it is asked for or is not a terminal.
pub fn input_source(inline: Option<String>, file: Option<String>, read_stdin: bool) -> (r: InputSource)
    ensures
        inline matches Some(s) ==> r == InputSource::Text(s),
        file matches Some(p) ==> (inline is None ==> r == InputSource::File(p)),
        inline is None && file is None && read_stdin ==> r == InputSource::Stdin,
        inline is None && file is None && !read_stdin ==> r == InputSource::Missing,
{
    match inline {
        Some(s) => InputSource::Text(s),
        None => match file {
            Some(p) => InputSource::File(p),
            None => if read_stdin {
                InputSource::Stdin
            } else {
                InputSource::Missing
            },
        },
    }
}

/// Standard input counts as input only when it is not blank.
pub fn stdin_input(buffer: String) -> (r: Option<String>)
    ensures
        trim(buffer@).len() > 0 ==> r == Some(buffer),
        trim(buffer@).len() == 0 ==> r is None,
{
    let t = trim_str(buffer.as_str());
    if t.as_str().is_empty() {
        None
    } else {
        Some(buffer)
    }
}

} // verus!
