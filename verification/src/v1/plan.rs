//! Request planning: each resource command becomes one typed request
//! (method, path, query, body, idempotency key, conditional header), or a
//! refusal made before anything is sent.

use vstd::prelude::*;
use crate::text::{concat, join_slash, slash_join, decimal_u64, dec_nat};
use crate::json::{json_text_parse, parse_json_text};
use super::client::{Client, ws_path_of, project_path_of};
use super::cli::{
    ListFlags, V1Command, ResourceArgs, ResourceCommand, ProjectArgs, ProjectCommand, ProjectCommentArgs, CrudArgs, CrudCommand, BudgetArgs, BudgetCommand, BudgetDocumentFlags, LineArgs, LineCommand, BudgetPhaseDataArgs, BudgetPhaseDataCommand, ResourceCommandWrap, TransactionArgs, TransactionCommand, TxItemArgs, PurchaseOrderArgs, PurchaseOrderCommand, PaymentRequestArgs, PaymentRequestCommand, PaymentArgs, PaymentCommand, PoItemArgs, LibraryArgs, LibraryCommand, LibraryCrudArgs, LibraryCrudCommand, LibraryRatesArgs, LibraryRatesCommand, RatePackItemArgs, LibraryUnitsArgs, LibraryUnitsCommand, ProjectLibraryArgs, ProjectLibraryCommand, ProjectIncentiveArgs, ProjectIncentiveCommand, ProjectCopyArgs, ProjectCopyCommand, ProjectTagArgs, ProjectTagCommand, IncentiveArgs, IncentiveCommand, DocumentArgs, DocumentCommand, SearchArgs, WebhookArgs, WebhookCommand, DocumentLinkKind, link_kind_name,
};

verus! {

/// HTTP methods used by the API.
#[derive(Clone, Copy, Debug, PartialEq, Eq, Structural)]
pub enum Method {
    Get,
    Post,
    Put,
    Patch,
    Delete,
}

/// How a successful response is consumed.
#[derive(Clone, Copy, Debug, PartialEq, Eq, Structural)]
pub enum ResponseMode {
    /// The body is the bare resource or collection (JSON).
    Json,
    /// The body is the original bytes, copied to standard output.
    Stream,
}

/// The body of a document link: the target and whether to replace a
/// different link of the same kind. Nothing else is sent.
#[derive(Debug)]
pub struct DocumentLinkBody {
    pub target_id: String,
    pub replace: bool,
}

/// A request body.
pub enum Body {
    /// No body.
    Empty,
    /// The JSON value `null`.
    Null,
    /// A JSON document given on the command line, as it is sent: the parsed
    /// value written back compactly.
    Json { json: String },
    /// `{ "targetId": .., "replace": .. }`.
    Link(DocumentLinkBody),
    /// `{ "sourceId": .. }`.
    Source { source_id: String },
    /// A multipart upload of a file with a metadata object.
    Upload { file: String, metadata: Vec<(String, String)> },
}

/// A request body, by its content.
pub enum BodySpec {
    Empty,
    Null,
    Json(Seq<char>),
    Link(Seq<char>, bool),
    Source(Seq<char>),
    Upload(Seq<char>, Seq<(Seq<char>, Seq<char>)>),
}

/// Query pairs by content.
pub open spec fn pairs_view(q: Seq<(String, String)>) -> Seq<(Seq<char>, Seq<char>)> {
    q.map_values(|p: (String, String)| (p.0@, p.1@))
}

/// An optional string by content.
pub open spec fn opt_view(o: Option<String>) -> Option<Seq<char>> {
    match o {
        Some(s) => Some(s@),
        None => None,
    }
}

/// An optional string slice by content.
pub open spec fn opt_str_view(o: Option<&str>) -> Option<Seq<char>> {
    match o {
        Some(s) => Some(s@),
        None => None,
    }
}

impl View for Body {
    type V = BodySpec;

    open spec fn view(&self) -> BodySpec {
        match self {
            Body::Empty => BodySpec::Empty,
            Body::Null => BodySpec::Null,
            Body::Json { json } => BodySpec::Json(json@),
            Body::Link(l) => BodySpec::Link(l.target_id@, l.replace),
            Body::Source { source_id } => BodySpec::Source(source_id@),
            Body::Upload { file, metadata } => BodySpec::Upload(file@, pairs_view(metadata@)),
        }
    }
}

/// One planned request.
pub struct Request {
    pub method: Method,
    /// Path below the `/v1` root.
    pub path: String,
    pub query: Vec<(String, String)>,
    pub body: Body,
    /// Sent as the `Idempotency-Key` header.
    pub idempotency_key: Option<String>,
    /// Sent as the `If-None-Match` header.
    pub if_none_match: Option<String>,
    pub response: ResponseMode,
}

/// A planned request, by content.
pub struct RequestSpec {
    pub method: Method,
    pub path: Seq<char>,
    pub query: Seq<(Seq<char>, Seq<char>)>,
    pub body: BodySpec,
    pub idempotency_key: Option<Seq<char>>,
    pub if_none_match: Option<Seq<char>>,
    pub response: ResponseMode,
}

impl View for Request {
    type V = RequestSpec;

    open spec fn view(&self) -> RequestSpec {
        RequestSpec {
            method: self.method,
            path: self.path@,
            query: pairs_view(self.query@),
            body: self.body@,
            idempotency_key: opt_view(self.idempotency_key),
            if_none_match: opt_view(self.if_none_match),
            response: self.response,
        }
    }
}

/// Why a command is refused before any request is sent.
#[derive(Debug)]
pub enum PlanError {
    /// A create that requires `--idempotency-key` was given none.
    MissingIdempotencyKey,
    /// `--project` was given to a command that is not project-scoped.
    ProjectNotSupported,
    /// A project-scoped resource was used without `--project`.
    ProjectRequired,
    /// A project Library task was used without `--project`.
    LibraryProjectRequired,
    /// A JSON body argument did not parse; the parser's message.
    InvalidJson(String),
}

/// A refusal by content.
pub enum PlanFailure {
    MissingIdempotencyKey,
    ProjectNotSupported,
    ProjectRequired,
    LibraryProjectRequired,
    /// The parser's message.
    InvalidJson(Seq<char>),
}

impl View for PlanError {
    type V = PlanFailure;

    open spec fn view(&self) -> PlanFailure {
        match self {
            PlanError::MissingIdempotencyKey => PlanFailure::MissingIdempotencyKey,
            PlanError::ProjectNotSupported => PlanFailure::ProjectNotSupported,
            PlanError::ProjectRequired => PlanFailure::ProjectRequired,
            PlanError::LibraryProjectRequired => PlanFailure::LibraryProjectRequired,
            PlanError::InvalidJson(m) => PlanFailure::InvalidJson(m@),
        }
    }
}

/// The user-facing message of a refusal.
pub open spec fn failure_message(e: PlanError) -> Seq<char> {
    match e {
        PlanError::MissingIdempotencyKey => "this create requires --idempotency-key <KEY>"@,
        PlanError::ProjectNotSupported => "--project is not valid for this command"@,
        PlanError::ProjectRequired => "this resource is project-scoped; pass --project <slug|id>"@,
        PlanError::LibraryProjectRequired => "project Library tasks require --project <slug|id>"@,
        PlanError::InvalidJson(m) => "invalid JSON body: "@ + m@,
    }
}

impl PlanError {
    /// The message shown for this refusal.
    pub fn message(&self) -> (s: String)
        ensures
            s@ == failure_message(*self),
    {
        match self {
            PlanError::MissingIdempotencyKey => "this create requires --idempotency-key <KEY>".to_owned(),
            PlanError::ProjectNotSupported => "--project is not valid for this command".to_owned(),
            PlanError::ProjectRequired => "this resource is project-scoped; pass --project <slug|id>".to_owned(),
            PlanError::LibraryProjectRequired => "project Library tasks require --project <slug|id>".to_owned(),
            PlanError::InvalidJson(m) => concat("invalid JSON body: ", m.as_str()),
        }
    }
}

/// A plan outcome by content.
pub open spec fn outcome(r: Result<Request, PlanError>) -> Result<RequestSpec, PlanFailure> {
    match r {
        Ok(q) => Ok(q@),
        Err(e) => Err(e@),
    }
}

// ---------------------------------------------------------------------------
// Query strings

/// One pair when the value is present, none otherwise.
pub open spec fn opt_pair(k: Seq<char>, v: Option<Seq<char>>) -> Seq<(Seq<char>, Seq<char>)> {
    match v {
        Some(x) => seq![(k, x)],
        None => Seq::empty(),
    }
}

/// The extra query pairs whose values are present, in order.
pub open spec fn present_pairs(extra: Seq<(Seq<char>, Option<Seq<char>>)>) -> Seq<(Seq<char>, Seq<char>)>
    decreases extra.len(),
{
    if extra.len() == 0 {
        Seq::empty()
    } else {
        present_pairs(extra.drop_last()) + opt_pair(extra.last().0, extra.last().1)
    }
}

/// Extra query parameters by content.
pub open spec fn extra_view(extra: Seq<(&str, Option<String>)>) -> Seq<(Seq<char>, Option<Seq<char>>)> {
    extra.map_values(|p: (&str, Option<String>)| (p.0@, opt_view(p.1)))
}

/// The query of a collection read: `limit`, `cursor`, `expand`, `fields`,
/// `sort`, `order` for each flag that is set, `withCount=true` when asked,
/// then each extra parameter that is present. Nothing is sent for an unset
/// flag.
pub open spec fn list_query(f: ListFlags, extra: Seq<(Seq<char>, Option<Seq<char>>)>) -> Seq<(Seq<char>, Seq<char>)> {
    opt_pair("limit"@, match f.limit { Some(l) => Some(dec_nat(l as nat)), None => None })
        + opt_pair("cursor"@, opt_view(f.cursor))
        + opt_pair("expand"@, opt_view(f.expand))
        + opt_pair("fields"@, opt_view(f.fields))
        + opt_pair("sort"@, opt_view(f.sort))
        + opt_pair("order"@, opt_view(f.order))
        + (if f.with_count { seq![("withCount"@, "true"@)] } else { Seq::empty() })
        + present_pairs(extra)
}

fn push_opt(q: &mut Vec<(String, String)>, key: &str, v: &Option<String>)
    ensures
        pairs_view(final(q)@) == pairs_view(old(q)@) + opt_pair(key@, opt_view(*v)),
{
    match v {
        Some(x) => {
            q.push((key.to_owned(), x.clone()));
            assert(pairs_view(q@) =~= pairs_view(old(q)@) + opt_pair(key@, opt_view(*v)));
        },
        None => {
            assert(pairs_view(q@) =~= pairs_view(old(q)@) + opt_pair(key@, opt_view(*v)));
        },
    }
}

/// Builds the query of a collection read from the shared flags plus
/// resource-specific parameters; parameters that are not set are dropped.
pub fn build_query(flags: &ListFlags, extra: Vec<(&str, Option<String>)>) -> (q: Vec<(String, String)>)
    ensures
        pairs_view(q@) == list_query(*flags, extra_view(extra@)),
{
    let mut q: Vec<(String, String)> = Vec::new();
    let limit = match flags.limit {
        Some(l) => Some(decimal_u64(l as u64)),
        None => None,
    };
    push_opt(&mut q, "limit", &limit);
    push_opt(&mut q, "cursor", &flags.cursor);
    push_opt(&mut q, "expand", &flags.expand);
    push_opt(&mut q, "fields", &flags.fields);
    push_opt(&mut q, "sort", &flags.sort);
    push_opt(&mut q, "order", &flags.order);
    let ghost before = pairs_view(q@);
    if flags.with_count {
        q.push(("withCount".to_owned(), "true".to_owned()));
    }
    assert(pairs_view(q@) =~= before + (if flags.with_count {
        seq![("withCount"@, "true"@)]
    } else {
        Seq::<(Seq<char>, Seq<char>)>::empty()
    }));
    let ghost base = pairs_view(q@);
    let ghost ev = extra_view(extra@);
    let mut i: usize = 0;
    assert(ev.take(0) =~= Seq::<(Seq<char>, Option<Seq<char>>)>::empty());
    while i < extra.len()
        invariant
            i <= extra@.len(),
            ev == extra_view(extra@),
            pairs_view(q@) == base + present_pairs(ev.take(i as int)),
        decreases extra@.len() - i,
    {
        let (k, v) = &extra[i];
        push_opt(&mut q, k, v);
        assert(ev.take(i + 1).drop_last() =~= ev.take(i as int));
        assert(pairs_view(q@) =~= base + present_pairs(ev.take(i + 1)));
        i = i + 1;
    }
    assert(ev.take(extra@.len() as int) =~= ev);
    q
}

// ---------------------------------------------------------------------------
// Request constructors

/// A request with the given parts, no conditional header, JSON response.
pub open spec fn req(
    method: Method,
    path: Seq<char>,
    query: Seq<(Seq<char>, Seq<char>)>,
    body: BodySpec,
    idem: Option<Seq<char>>,
) -> RequestSpec {
    RequestSpec {
        method,
        path,
        query,
        body,
        idempotency_key: idem,
        if_none_match: None,
        response: ResponseMode::Json,
    }
}

/// A request carrying the JSON document `data` (sent as its parsed value
/// written back compactly), or the refusal with the parser's message when
/// the document does not parse.
pub open spec fn json_req(
    method: Method,
    path: Seq<char>,
    query: Seq<(Seq<char>, Seq<char>)>,
    data: Seq<char>,
    idem: Option<Seq<char>>,
) -> Result<RequestSpec, PlanFailure> {
    match json_text_parse(data) {
        Ok(sent) => Ok(req(method, path, query, BodySpec::Json(sent), idem)),
        Err(m) => Err(PlanFailure::InvalidJson(m)),
    }
}

fn owned_key(idem: Option<&str>) -> (o: Option<String>)
    ensures
        opt_view(o) == opt_str_view(idem),
{
    match idem {
        Some(k) => Some(k.to_owned()),
        None => None,
    }
}

fn request(
    method: Method,
    path: String,
    query: Vec<(String, String)>,
    body: Body,
    idem: Option<&str>,
) -> (r: Request)
    ensures
        r@ == req(method, path@, pairs_view(query@), body@, opt_str_view(idem)),
{
    Request {
        method,
        path,
        query,
        body,
        idempotency_key: owned_key(idem),
        if_none_match: None,
        response: ResponseMode::Json,
    }
}

fn no_query() -> (q: Vec<(String, String)>)
    ensures
        pairs_view(q@) == Seq::<(Seq<char>, Seq<char>)>::empty(),
{
    let q: Vec<(String, String)> = Vec::new();
    assert(pairs_view(q@) =~= Seq::<(Seq<char>, Seq<char>)>::empty());
    q
}

fn json_request(
    method: Method,
    path: String,
    query: Vec<(String, String)>,
    data: &str,
    idem: Option<&str>,
) -> (r: Result<Request, PlanError>)
    ensures
        outcome(r) == json_req(method, path@, pairs_view(query@), data@, opt_str_view(idem)),
{
    match parse_json_text(data) {
        Ok(json) => Ok(request(method, path, query, Body::Json { json }, idem)),
        Err(m) => Err(PlanError::InvalidJson(m)),
    }
}

fn get(path: String, query: Vec<(String, String)>) -> (r: Request)
    ensures
        r@ == req(Method::Get, path@, pairs_view(query@), BodySpec::Empty, None),
{
    request(Method::Get, path, query, Body::Empty, None)
}

fn delete(path: String) -> (r: Request)
    ensures
        r@ == req(Method::Delete, path@, Seq::empty(), BodySpec::Empty, None),
{
    request(Method::Delete, path, no_query(), Body::Empty, None)
}

/// An empty query.
pub open spec fn nq() -> Seq<(Seq<char>, Seq<char>)> {
    Seq::empty()
}

/// The query of a read with only the shared flags.
pub open spec fn lq(f: ListFlags) -> Seq<(Seq<char>, Seq<char>)> {
    list_query(f, Seq::empty())
}

fn flags_query(f: &ListFlags) -> (q: Vec<(String, String)>)
    ensures
        pairs_view(q@) == lq(*f),
{
    let q = build_query(f, Vec::new());
    assert(extra_view(Seq::<(&str, Option<String>)>::empty()) =~= Seq::<(Seq<char>, Option<Seq<char>>)>::empty());
    q
}

/// `reset=true` when asked, nothing otherwise.
pub open spec fn reset_query(reset: bool) -> Seq<(Seq<char>, Seq<char>)> {
    if reset { seq![("reset"@, "true"@)] } else { Seq::empty() }
}

fn reset_pairs(reset: bool) -> (q: Vec<(String, String)>)
    ensures
        pairs_view(q@) == reset_query(reset),
{
    let mut q: Vec<(String, String)> = Vec::new();
    if reset {
        q.push(("reset".to_owned(), "true".to_owned()));
    }
    assert(pairs_view(q@) =~= reset_query(reset));
    q
}

/// `expand={value}` when given, nothing otherwise.
pub open spec fn expand_query(expand: Option<String>) -> Seq<(Seq<char>, Seq<char>)> {
    opt_pair("expand"@, opt_view(expand))
}

fn expand_pairs(expand: Option<String>) -> (q: Vec<(String, String)>)
    ensures
        pairs_view(q@) == expand_query(expand),
{
    let mut q: Vec<(String, String)> = Vec::new();
    push_opt(&mut q, "expand", &expand);
    assert(pairs_view(q@) =~= expand_query(expand));
    q
}

// ---------------------------------------------------------------------------
// Generic collections

/// The request of a list / get / create / update / delete command on the
/// collection at `base`.
pub open spec fn resource_plan(cmd: ResourceCommand, idem: Option<Seq<char>>, base: Seq<char>) -> Result<RequestSpec, PlanFailure> {
    match cmd {
        ResourceCommand::List(f) => Ok(req(Method::Get, base, lq(f), BodySpec::Empty, None)),
        ResourceCommand::Get { id, flags } => Ok(req(Method::Get, slash_join(base, id@), lq(flags), BodySpec::Empty, None)),
        ResourceCommand::Create { data } => json_req(Method::Post, base, nq(), data@, idem),
        ResourceCommand::Update { id, data } => json_req(Method::Patch, slash_join(base, id@), nq(), data@, None),
        ResourceCommand::Delete { id } => Ok(req(Method::Delete, slash_join(base, id@), nq(), BodySpec::Empty, None)),
    }
}

/// Plans a list / get / create / update / delete command on the collection
/// at `base`.
pub fn generic_resource(cmd: ResourceCommand, idem: Option<&str>, base: &str) -> (r: Result<Request, PlanError>)
    ensures
        outcome(r) == resource_plan(cmd, opt_str_view(idem), base@),
{
    match cmd {
        ResourceCommand::List(flags) => Ok(get(base.to_owned(), flags_query(&flags))),
        ResourceCommand::Get { id, flags } => Ok(get(join_slash(base, id.as_str()), flags_query(&flags))),
        ResourceCommand::Create { data } => json_request(Method::Post, base.to_owned(), no_query(), data.as_str(), idem),
        ResourceCommand::Update { id, data } => json_request(Method::Patch, join_slash(base, id.as_str()), no_query(), data.as_str(), None),
        ResourceCommand::Delete { id } => Ok(delete(join_slash(base, id.as_str()))),
    }
}

/// The request of a list / create / update / delete command on the
/// collection at `base` (a collection with no single-resource read).
pub open spec fn crud_plan(cmd: CrudCommand, idem: Option<Seq<char>>, base: Seq<char>) -> Result<RequestSpec, PlanFailure> {
    match cmd {
        CrudCommand::List(f) => Ok(req(Method::Get, base, lq(f), BodySpec::Empty, None)),
        CrudCommand::Create { data } => json_req(Method::Post, base, nq(), data@, idem),
        CrudCommand::Update { id, data } => json_req(Method::Patch, slash_join(base, id@), nq(), data@, None),
        CrudCommand::Delete { id } => Ok(req(Method::Delete, slash_join(base, id@), nq(), BodySpec::Empty, None)),
    }
}

/// Plans a list / create / update / delete command on the collection at
/// `base`.
pub fn crud_resource(cmd: CrudCommand, idem: Option<&str>, base: &str) -> (r: Result<Request, PlanError>)
    ensures
        outcome(r) == crud_plan(cmd, opt_str_view(idem), base@),
{
    match cmd {
        CrudCommand::List(flags) => Ok(get(base.to_owned(), flags_query(&flags))),
        CrudCommand::Create { data } => json_request(Method::Post, base.to_owned(), no_query(), data.as_str(), idem),
        CrudCommand::Update { id, data } => json_request(Method::Patch, join_slash(base, id.as_str()), no_query(), data.as_str(), None),
        CrudCommand::Delete { id } => Ok(delete(join_slash(base, id.as_str()))),
    }
}

// ---------------------------------------------------------------------------
// Projects

/// The request of a project command.
pub open spec fn projects_plan(cmd: ProjectCommand, idem: Option<Seq<char>>) -> Result<RequestSpec, PlanFailure> {
    let base = ws_path_of("projects"@);
    match cmd {
        ProjectCommand::List(f) => Ok(req(Method::Get, base, lq(f), BodySpec::Empty, None)),
        ProjectCommand::Get { id, flags } => Ok(req(Method::Get, slash_join(base, id@), lq(flags), BodySpec::Empty, None)),
        ProjectCommand::Create { data } => json_req(Method::Post, base, nq(), data@, idem),
        ProjectCommand::Update { id, data } => json_req(Method::Patch, slash_join(base, id@), nq(), data@, None),
        ProjectCommand::Comments(args) => crud_plan(args.command, idem, project_path_of(args.project_id@, "comments"@)),
    }
}

/// Plans a project command.
pub fn projects(cmd: ProjectCommand, client: &Client, idem: Option<&str>) -> (r: Result<Request, PlanError>)
    ensures
        outcome(r) == projects_plan(cmd, opt_str_view(idem)),
{
    let base = client.ws_path("projects");
    match cmd {
        ProjectCommand::List(flags) => Ok(get(base, flags_query(&flags))),
        ProjectCommand::Get { id, flags } => Ok(get(join_slash(base.as_str(), id.as_str()), flags_query(&flags))),
        ProjectCommand::Create { data } => json_request(Method::Post, base, no_query(), data.as_str(), idem),
        ProjectCommand::Update { id, data } => json_request(Method::Patch, join_slash(base.as_str(), id.as_str()), no_query(), data.as_str(), None),
        ProjectCommand::Comments(args) => project_comments(args.command, client, idem, args.project_id.as_str()),
    }
}

/// Plans a comment command in one project.
pub fn project_comments(cmd: CrudCommand, client: &Client, idem: Option<&str>, project: &str) -> (r: Result<Request, PlanError>)
    ensures
        outcome(r) == crud_plan(cmd, opt_str_view(idem), project_path_of(project@, "comments"@)),
{
    let base = client.project_path(project, "comments");
    crud_resource(cmd, idem, base.as_str())
}

// ---------------------------------------------------------------------------
// Budget

/// The query of a budget read: each filter that is set, in the order
/// `path`, `accountCode`, `accountId`, `phase`, `tags`, `tagMode`,
/// `dateFrom`, `dateTo`, `includeHiddenPhases=true` (when asked), `expand`.
pub open spec fn budget_query(f: BudgetDocumentFlags) -> Seq<(Seq<char>, Seq<char>)> {
    opt_pair("path"@, opt_view(f.path))
        + opt_pair("accountCode"@, opt_view(f.account_code))
        + opt_pair("accountId"@, opt_view(f.account_id))
        + opt_pair("phase"@, opt_view(f.phase))
        + opt_pair("tags"@, opt_view(f.tags))
        + opt_pair("tagMode"@, opt_view(f.tag_mode))
        + opt_pair("dateFrom"@, opt_view(f.date_from))
        + opt_pair("dateTo"@, opt_view(f.date_to))
        + (if f.include_hidden_phases { seq![("includeHiddenPhases"@, "true"@)] } else { Seq::empty() })
        + opt_pair("expand"@, opt_view(f.expand))
}

/// A conditional read: a GET that carries `If-None-Match` when an ETag is given.
pub open spec fn conditional_get(path: Seq<char>, query: Seq<(Seq<char>, Seq<char>)>, etag: Option<Seq<char>>) -> RequestSpec {
    RequestSpec { if_none_match: etag, ..req(Method::Get, path, query, BodySpec::Empty, None) }
}

/// The request of a budget command in `project`.
pub open spec fn budget_plan(cmd: BudgetCommand, idem: Option<Seq<char>>, project: Seq<char>) -> Result<RequestSpec, PlanFailure> {
    match cmd {
        BudgetCommand::Get(f) => Ok(conditional_get(project_path_of(project, "budget"@), budget_query(f), opt_view(f.if_none_match))),
        BudgetCommand::PhaseTotals(f) => Ok(conditional_get(project_path_of(project, "budget/totals"@), lq(f.flags), opt_view(f.if_none_match))),
        BudgetCommand::Lines(la) => budget_lines_plan(la.command, idem, project),
        BudgetCommand::PhaseData(pd) => budget_phase_data_plan(pd.command, idem, project),
        BudgetCommand::Phases(pw) => resource_plan(pw.command, idem, project_path_of(project, "budget/phases"@)),
    }
}

fn budget_query_pairs(f: &BudgetDocumentFlags) -> (q: Vec<(String, String)>)
    ensures
        pairs_view(q@) == budget_query(*f),
{
    let mut q: Vec<(String, String)> = Vec::new();
    push_opt(&mut q, "path", &f.path);
    push_opt(&mut q, "accountCode", &f.account_code);
    push_opt(&mut q, "accountId", &f.account_id);
    push_opt(&mut q, "phase", &f.phase);
    push_opt(&mut q, "tags", &f.tags);
    push_opt(&mut q, "tagMode", &f.tag_mode);
    push_opt(&mut q, "dateFrom", &f.date_from);
    push_opt(&mut q, "dateTo", &f.date_to);
    let ghost before = pairs_view(q@);
    if f.include_hidden_phases {
        q.push(("includeHiddenPhases".to_owned(), "true".to_owned()));
    }
    assert(pairs_view(q@) =~= before + (if f.include_hidden_phases {
        seq![("includeHiddenPhases"@, "true"@)]
    } else {
        Seq::<(Seq<char>, Seq<char>)>::empty()
    }));
    push_opt(&mut q, "expand", &f.expand);
    q
}

fn conditional(path: String, query: Vec<(String, String)>, etag: Option<String>) -> (r: Request)
    ensures
        r@ == conditional_get(path@, pairs_view(query@), opt_view(etag)),
{
    let mut r = get(path, query);
    r.if_none_match = etag;
    r
}

/// Plans a budget command in `project`.
pub fn budget(cmd: BudgetCommand, client: &Client, idem: Option<&str>, project: &str) -> (r: Result<Request, PlanError>)
    ensures
        outcome(r) == budget_plan(cmd, opt_str_view(idem), project@),
{
    match cmd {
        BudgetCommand::Get(f) => {
            let q = budget_query_pairs(&f);
            Ok(conditional(client.project_path(project, "budget"), q, f.if_none_match))
        },
        BudgetCommand::PhaseTotals(f) => {
            let q = flags_query(&f.flags);
            Ok(conditional(client.project_path(project, "budget/totals"), q, f.if_none_match))
        },
        BudgetCommand::Lines(la) => budget_lines(la.command, client, idem, project),
        BudgetCommand::PhaseData(pd) => budget_phase_data(pd.command, client, idem, project),
        BudgetCommand::Phases(pw) => {
            let base = client.project_path(project, "budget/phases");
            generic_resource(pw.command, idem, base.as_str())
        },
    }
}

/// The request of a budget-line command in `project`.
pub open spec fn budget_lines_plan(cmd: LineCommand, idem: Option<Seq<char>>, project: Seq<char>) -> Result<RequestSpec, PlanFailure> {
    let base = project_path_of(project, "budget/lines"@);
    match cmd {
        LineCommand::List { account_id, path, phase, tags, kind, flags } => Ok(req(
            Method::Get,
            base,
            list_query(flags, seq![
                ("accountId"@, opt_view(account_id)),
                ("path"@, opt_view(path)),
                ("phase"@, opt_view(phase)),
                ("tags"@, opt_view(tags)),
                ("kind"@, opt_view(kind)),
            ]),
            BodySpec::Empty,
            None,
        )),
        LineCommand::Get { line_id, flags } => Ok(req(Method::Get, slash_join(base, line_id@), lq(flags), BodySpec::Empty, None)),
        LineCommand::Create { data } => json_req(Method::Post, base, nq(), data@, idem),
        LineCommand::Bulk { data } => json_req(Method::Post, slash_join(base, "bulk"@), nq(), data@, idem),
        LineCommand::Update { line_id, data } => json_req(Method::Patch, slash_join(base, line_id@), nq(), data@, None),
        LineCommand::Delete { line_id, reset } => Ok(req(Method::Delete, slash_join(base, line_id@), reset_query(reset), BodySpec::Empty, None)),
    }
}

/// Plans a budget-line command in `project`.
pub fn budget_lines(cmd: LineCommand, client: &Client, idem: Option<&str>, project: &str) -> (r: Result<Request, PlanError>)
    ensures
        outcome(r) == budget_lines_plan(cmd, opt_str_view(idem), project@),
{
    let base = client.project_path(project, "budget/lines");
    match cmd {
        LineCommand::List { account_id, path, phase, tags, kind, flags } => {
            let extra = vec![
                ("accountId", account_id),
                ("path", path),
                ("phase", phase),
                ("tags", tags),
                ("kind", kind),
            ];
            let ghost ex = extra@;
            let q = build_query(&flags, extra);
            assert(extra_view(ex) =~= seq![
                ("accountId"@, opt_view(account_id)),
                ("path"@, opt_view(path)),
                ("phase"@, opt_view(phase)),
                ("tags"@, opt_view(tags)),
                ("kind"@, opt_view(kind)),
            ]);
            Ok(get(base, q))
        },
        LineCommand::Get { line_id, flags } => Ok(get(join_slash(base.as_str(), line_id.as_str()), flags_query(&flags))),
        LineCommand::Create { data } => json_request(Method::Post, base, no_query(), data.as_str(), idem),
        LineCommand::Bulk { data } => json_request(Method::Post, join_slash(base.as_str(), "bulk"), no_query(), data.as_str(), idem),
        LineCommand::Update { line_id, data } => json_request(Method::Patch, join_slash(base.as_str(), line_id.as_str()), no_query(), data.as_str(), None),
        LineCommand::Delete { line_id, reset } => Ok(request(Method::Delete, join_slash(base.as_str(), line_id.as_str()), reset_pairs(reset), Body::Empty, None)),
    }
}

/// The request of a phase-data command in `project`.
pub open spec fn budget_phase_data_plan(cmd: BudgetPhaseDataCommand, idem: Option<Seq<char>>, project: Seq<char>) -> Result<RequestSpec, PlanFailure> {
    let base = project_path_of(project, "budget"@);
    match cmd {
        BudgetPhaseDataCommand::SetValue { line_id, phase_id, data } => json_req(
            Method::Put,
            slash_join(slash_join(slash_join(base, "lines"@), line_id@) + "/phase-data"@, phase_id@),
            nq(),
            data@,
            None,
        ),
        BudgetPhaseDataCommand::Bulk { data } => json_req(Method::Post, slash_join(base, "lines/phase-data/bulk"@), nq(), data@, idem),
    }
}

/// Plans a phase-data command in `project`.
pub fn budget_phase_data(cmd: BudgetPhaseDataCommand, client: &Client, idem: Option<&str>, project: &str) -> (r: Result<Request, PlanError>)
    ensures
        outcome(r) == budget_phase_data_plan(cmd, opt_str_view(idem), project@),
{
    let base = client.project_path(project, "budget");
    match cmd {
        BudgetPhaseDataCommand::SetValue { line_id, phase_id, data } => {
            let lines = join_slash(base.as_str(), "lines");
            let line = join_slash(lines.as_str(), line_id.as_str());
            let pd = concat(line.as_str(), "/phase-data");
            json_request(Method::Put, join_slash(pd.as_str(), phase_id.as_str()), no_query(), data.as_str(), None)
        },
        BudgetPhaseDataCommand::Bulk { data } => json_request(Method::Post, join_slash(base.as_str(), "lines/phase-data/bulk"), no_query(), data.as_str(), idem),
    }
}

// ---------------------------------------------------------------------------
// Transactions

/// `projectId={project}` when a project is given.
pub open spec fn project_filter(project: Option<Seq<char>>) -> (Seq<char>, Option<Seq<char>>) {
    ("projectId"@, project)
}

fn owned_project(project: Option<&str>) -> (o: Option<String>)
    ensures
        opt_view(o) == opt_str_view(project),
{
    owned_key(project)
}

/// The request of a transaction command; `project` narrows lists and
/// totals to one project through the `projectId` filter.
pub open spec fn transactions_plan(cmd: TransactionCommand, idem: Option<Seq<char>>, project: Option<Seq<char>>) -> Result<RequestSpec, PlanFailure> {
    match cmd {
        TransactionCommand::List { source, type_filter, status, flags } => Ok(req(
            Method::Get,
            ws_path_of("transactions"@),
            list_query(flags, seq![
                project_filter(project),
                ("source"@, opt_view(source)),
                ("type"@, opt_view(type_filter)),
                ("status"@, opt_view(status)),
            ]),
            BodySpec::Empty,
            None,
        )),
        TransactionCommand::Get { tx_id, flags } => Ok(req(Method::Get, ws_path_of("transactions/"@ + tx_id@), lq(flags), BodySpec::Empty, None)),
        TransactionCommand::Create { data } => json_req(Method::Post, ws_path_of("transactions"@), nq(), data@, idem),
        TransactionCommand::Update { tx_id, data } => json_req(Method::Patch, ws_path_of("transactions/"@ + tx_id@), nq(), data@, None),
        TransactionCommand::Delete { tx_id } => Ok(req(Method::Delete, ws_path_of("transactions/"@ + tx_id@), nq(), BodySpec::Empty, None)),
        TransactionCommand::Stats(f) => Ok(req(
            Method::Get,
            ws_path_of("transactions/stats"@),
            list_query(f, seq![project_filter(project)]),
            BodySpec::Empty,
            None,
        )),
        TransactionCommand::Bulk { data } => json_req(Method::Post, ws_path_of("transactions/bulk"@), nq(), data@, idem),
        TransactionCommand::Items(item) => crud_plan(item.command, idem, ws_path_of("transactions/"@ + item.tx_id@ + "/items"@)),
    }
}

/// Plans a transaction command.
pub fn transactions(cmd: TransactionCommand, client: &Client, idem: Option<&str>, project: Option<&str>) -> (r: Result<Request, PlanError>)
    ensures
        outcome(r) == transactions_plan(cmd, opt_str_view(idem), opt_str_view(project)),
{
    match cmd {
        TransactionCommand::List { source, type_filter, status, flags } => {
            let extra = vec![
                ("projectId", owned_project(project)),
                ("source", source),
                ("type", type_filter),
                ("status", status),
            ];
            let ghost ex = extra@;
            let q = build_query(&flags, extra);
            assert(extra_view(ex) =~= seq![
                project_filter(opt_str_view(project)),
                ("source"@, opt_view(source)),
                ("type"@, opt_view(type_filter)),
                ("status"@, opt_view(status)),
            ]);
            Ok(get(client.ws_path("transactions"), q))
        },
        TransactionCommand::Get { tx_id, flags } => {
            let p = concat("transactions/", tx_id.as_str());
            Ok(get(client.ws_path(p.as_str()), flags_query(&flags)))
        },
        TransactionCommand::Create { data } => json_request(Method::Post, client.ws_path("transactions"), no_query(), data.as_str(), idem),
        TransactionCommand::Update { tx_id, data } => {
            let p = concat("transactions/", tx_id.as_str());
            json_request(Method::Patch, client.ws_path(p.as_str()), no_query(), data.as_str(), None)
        },
        TransactionCommand::Delete { tx_id } => {
            let p = concat("transactions/", tx_id.as_str());
            Ok(delete(client.ws_path(p.as_str())))
        },
        TransactionCommand::Stats(f) => {
            let extra = vec![("projectId", owned_project(project))];
            let ghost ex = extra@;
            let q = build_query(&f, extra);
            assert(extra_view(ex) =~= seq![project_filter(opt_str_view(project))]);
            Ok(get(client.ws_path("transactions/stats"), q))
        },
        TransactionCommand::Bulk { data } => json_request(Method::Post, client.ws_path("transactions/bulk"), no_query(), data.as_str(), idem),
        TransactionCommand::Items(item) => {
            let p = concat("transactions/", item.tx_id.as_str());
            let p = concat(p.as_str(), "/items");
            let base = client.ws_path(p.as_str());
            crud_resource(item.command, idem, base.as_str())
        },
    }
}

// ---------------------------------------------------------------------------
// Purchase orders

/// The path of one purchase order, optionally with a sub-resource suffix.
pub open spec fn po_path(id: Seq<char>, suffix: Seq<char>) -> Seq<char> {
    ws_path_of(slash_join("purchase-orders"@, id) + suffix)
}

fn po_path_exec(client: &Client, id: &str, suffix: &str) -> (p: String)
    ensures
        p@ == po_path(id@, suffix@),
{
    let a = join_slash("purchase-orders", id);
    let b = concat(a.as_str(), suffix);
    client.ws_path(b.as_str())
}

/// The request of a purchase-order command; `project` narrows the list to
/// one project through the `projectId` filter.
pub open spec fn purchase_orders_plan(cmd: PurchaseOrderCommand, idem: Option<Seq<char>>, project: Option<Seq<char>>) -> Result<RequestSpec, PlanFailure> {
    let pos = ws_path_of("purchase-orders"@);
    match cmd {
        PurchaseOrderCommand::List(f) => Ok(req(Method::Get, pos, list_query(f, seq![project_filter(project)]), BodySpec::Empty, None)),
        PurchaseOrderCommand::Get { purchase_order_id, flags } => Ok(req(Method::Get, po_path(purchase_order_id@, ""@), lq(flags), BodySpec::Empty, None)),
        PurchaseOrderCommand::Create { data, expand } => json_req(Method::Post, pos, expand_query(expand), data@, idem),
        PurchaseOrderCommand::Update { purchase_order_id, data, expand } => json_req(Method::Patch, po_path(purchase_order_id@, ""@), expand_query(expand), data@, None),
        PurchaseOrderCommand::Delete { purchase_order_id } => Ok(req(Method::Delete, po_path(purchase_order_id@, ""@), nq(), BodySpec::Empty, None)),
        PurchaseOrderCommand::Submit { purchase_order_id } => Ok(req(Method::Post, po_path(purchase_order_id@, "/submit"@), nq(), BodySpec::Null, idem)),
        PurchaseOrderCommand::CancelSubmission { purchase_order_id } => Ok(req(Method::Post, po_path(purchase_order_id@, "/cancel-submission"@), nq(), BodySpec::Null, idem)),
        PurchaseOrderCommand::Void { purchase_order_id } => Ok(req(Method::Post, po_path(purchase_order_id@, "/void"@), nq(), BodySpec::Null, idem)),
        PurchaseOrderCommand::MarkPaid { purchase_order_id } => Ok(req(Method::Post, po_path(purchase_order_id@, "/mark-paid"@), nq(), BodySpec::Null, idem)),
        PurchaseOrderCommand::LinkTransaction { purchase_order_id, transaction_id } => Ok(req(Method::Put, po_path(purchase_order_id@, "/transactions/"@ + transaction_id@), nq(), BodySpec::Null, None)),
        PurchaseOrderCommand::UnlinkTransaction { purchase_order_id, transaction_id } => Ok(req(Method::Delete, po_path(purchase_order_id@, "/transactions/"@ + transaction_id@), nq(), BodySpec::Empty, None)),
        PurchaseOrderCommand::Timeline { purchase_order_id, flags } => Ok(req(Method::Get, po_path(purchase_order_id@, "/timeline"@), lq(flags), BodySpec::Empty, None)),
        PurchaseOrderCommand::Items(item) => crud_plan(item.command, idem, po_path(item.purchase_order_id@, "/items"@)),
    }
}

/// Plans a purchase-order command.
pub fn purchase_orders(cmd: PurchaseOrderCommand, client: &Client, idem: Option<&str>, project: Option<&str>) -> (r: Result<Request, PlanError>)
    ensures
        outcome(r) == purchase_orders_plan(cmd, opt_str_view(idem), opt_str_view(project)),
{
    let pos = "purchase-orders";
    match cmd {
        PurchaseOrderCommand::List(f) => {
            let extra = vec![("projectId", owned_project(project))];
            let ghost ex = extra@;
            let q = build_query(&f, extra);
            assert(extra_view(ex) =~= seq![project_filter(opt_str_view(project))]);
            Ok(get(client.ws_path(pos), q))
        },
        PurchaseOrderCommand::Get { purchase_order_id, flags } => Ok(get(po_path_exec(client, purchase_order_id.as_str(), ""), flags_query(&flags))),
        PurchaseOrderCommand::Create { data, expand } => json_request(Method::Post, client.ws_path(pos), expand_pairs(expand), data.as_str(), idem),
        PurchaseOrderCommand::Update { purchase_order_id, data, expand } => json_request(Method::Patch, po_path_exec(client, purchase_order_id.as_str(), ""), expand_pairs(expand), data.as_str(), None),
        PurchaseOrderCommand::Delete { purchase_order_id } => Ok(delete(po_path_exec(client, purchase_order_id.as_str(), ""))),
        PurchaseOrderCommand::Submit { purchase_order_id } => Ok(request(Method::Post, po_path_exec(client, purchase_order_id.as_str(), "/submit"), no_query(), Body::Null, idem)),
        PurchaseOrderCommand::CancelSubmission { purchase_order_id } => Ok(request(Method::Post, po_path_exec(client, purchase_order_id.as_str(), "/cancel-submission"), no_query(), Body::Null, idem)),
        PurchaseOrderCommand::Void { purchase_order_id } => Ok(request(Method::Post, po_path_exec(client, purchase_order_id.as_str(), "/void"), no_query(), Body::Null, idem)),
        PurchaseOrderCommand::MarkPaid { purchase_order_id } => Ok(request(Method::Post, po_path_exec(client, purchase_order_id.as_str(), "/mark-paid"), no_query(), Body::Null, idem)),
        PurchaseOrderCommand::LinkTransaction { purchase_order_id, transaction_id } => {
            let s = concat("/transactions/", transaction_id.as_str());
            Ok(request(Method::Put, po_path_exec(client, purchase_order_id.as_str(), s.as_str()), no_query(), Body::Null, None))
        },
        PurchaseOrderCommand::UnlinkTransaction { purchase_order_id, transaction_id } => {
            let s = concat("/transactions/", transaction_id.as_str());
            Ok(delete(po_path_exec(client, purchase_order_id.as_str(), s.as_str())))
        },
        PurchaseOrderCommand::Timeline { purchase_order_id, flags } => Ok(get(po_path_exec(client, purchase_order_id.as_str(), "/timeline"), flags_query(&flags))),
        PurchaseOrderCommand::Items(item) => {
            let base = po_path_exec(client, item.purchase_order_id.as_str(), "/items");
            crud_resource(item.command, idem, base.as_str())
        },
    }
}

// ---------------------------------------------------------------------------
// Payment requests and payments

/// The request of a payment-request command.
pub open spec fn payment_requests_plan(cmd: PaymentRequestCommand, project: Option<Seq<char>>) -> Result<RequestSpec, PlanFailure> {
    let base = ws_path_of("payment-requests"@);
    match cmd {
        PaymentRequestCommand::List(f) => Ok(req(Method::Get, base, list_query(f, seq![project_filter(project)]), BodySpec::Empty, None)),
        PaymentRequestCommand::Get { payment_request_id, flags } => Ok(req(Method::Get, slash_join(base, payment_request_id@), lq(flags), BodySpec::Empty, None)),
    }
}

/// Plans a payment-request command.
pub fn payment_requests(cmd: PaymentRequestCommand, client: &Client, project: Option<&str>) -> (r: Result<Request, PlanError>)
    ensures
        outcome(r) == payment_requests_plan(cmd, opt_str_view(project)),
{
    let base = client.ws_path("payment-requests");
    match cmd {
        PaymentRequestCommand::List(f) => {
            let extra = vec![("projectId", owned_project(project))];
            let ghost ex = extra@;
            let q = build_query(&f, extra);
            assert(extra_view(ex) =~= seq![project_filter(opt_str_view(project))]);
            Ok(get(base, q))
        },
        PaymentRequestCommand::Get { payment_request_id, flags } => Ok(get(join_slash(base.as_str(), payment_request_id.as_str()), flags_query(&flags))),
    }
}

/// The request of a payment command.
pub open spec fn payments_plan(cmd: PaymentCommand, project: Option<Seq<char>>) -> Result<RequestSpec, PlanFailure> {
    let base = ws_path_of("payments"@);
    match cmd {
        PaymentCommand::List(f) => Ok(req(Method::Get, base, list_query(f, seq![project_filter(project)]), BodySpec::Empty, None)),
        PaymentCommand::Get { payment_id, flags } => Ok(req(Method::Get, slash_join(base, payment_id@), lq(flags), BodySpec::Empty, None)),
        PaymentCommand::Timeline { payment_id, flags } => Ok(req(Method::Get, slash_join(base, payment_id@) + "/timeline"@, lq(flags), BodySpec::Empty, None)),
    }
}

/// Plans a payment command.
pub fn payments(cmd: PaymentCommand, client: &Client, project: Option<&str>) -> (r: Result<Request, PlanError>)
    ensures
        outcome(r) == payments_plan(cmd, opt_str_view(project)),
{
    let base = client.ws_path("payments");
    match cmd {
        PaymentCommand::List(f) => {
            let extra = vec![("projectId", owned_project(project))];
            let ghost ex = extra@;
            let q = build_query(&f, extra);
            assert(extra_view(ex) =~= seq![project_filter(opt_str_view(project))]);
            Ok(get(base, q))
        },
        PaymentCommand::Get { payment_id, flags } => Ok(get(join_slash(base.as_str(), payment_id.as_str()), flags_query(&flags))),
        PaymentCommand::Timeline { payment_id, flags } => {
            let p = join_slash(base.as_str(), payment_id.as_str());
            Ok(get(concat(p.as_str(), "/timeline"), flags_query(&flags)))
        },
    }
}

// ---------------------------------------------------------------------------
// Library

/// The request of a template-section command (`fringes`, `globals`,
/// `currencies`, `fringe-groups`, `tags`).
pub open spec fn library_crud_plan(cmd: LibraryCrudCommand, idem: Option<Seq<char>>, section: Seq<char>) -> Result<RequestSpec, PlanFailure> {
    let base = ws_path_of("library/"@ + section);
    match cmd {
        LibraryCrudCommand::List(f) => Ok(req(Method::Get, base, lq(f), BodySpec::Empty, None)),
        LibraryCrudCommand::Get { id, flags } => Ok(req(Method::Get, slash_join(base, id@), lq(flags), BodySpec::Empty, None)),
        LibraryCrudCommand::Create { data } => json_req(Method::Post, base, nq(), data@, idem),
        LibraryCrudCommand::Update { id, data } => json_req(Method::Patch, slash_join(base, id@), nq(), data@, None),
        LibraryCrudCommand::Delete { id } => Ok(req(Method::Delete, slash_join(base, id@), nq(), BodySpec::Empty, None)),
    }
}

/// Plans a template-section command.
pub fn library_crud(cmd: LibraryCrudCommand, client: &Client, idem: Option<&str>, section: &str) -> (r: Result<Request, PlanError>)
    ensures
        outcome(r) == library_crud_plan(cmd, opt_str_view(idem), section@),
{
    let p = concat("library/", section);
    let base = client.ws_path(p.as_str());
    match cmd {
        LibraryCrudCommand::List(f) => Ok(get(base, flags_query(&f))),
        LibraryCrudCommand::Get { id, flags } => Ok(get(join_slash(base.as_str(), id.as_str()), flags_query(&flags))),
        LibraryCrudCommand::Create { data } => json_request(Method::Post, base, no_query(), data.as_str(), idem),
        LibraryCrudCommand::Update { id, data } => json_request(Method::Patch, join_slash(base.as_str(), id.as_str()), no_query(), data.as_str(), None),
        LibraryCrudCommand::Delete { id } => Ok(delete(join_slash(base.as_str(), id.as_str()))),
    }
}

/// The request of a rate-pack command.
pub open spec fn library_rates_plan(cmd: LibraryRatesCommand, idem: Option<Seq<char>>) -> Result<RequestSpec, PlanFailure> {
    let base = ws_path_of("library/rate-packs"@);
    match cmd {
        LibraryRatesCommand::List(f) => Ok(req(Method::Get, base, lq(f), BodySpec::Empty, None)),
        LibraryRatesCommand::Get { id, flags } => Ok(req(Method::Get, slash_join(base, id@), lq(flags), BodySpec::Empty, None)),
        LibraryRatesCommand::Create { data } => json_req(Method::Post, base, nq(), data@, idem),
        LibraryRatesCommand::Update { id, data } => json_req(Method::Patch, slash_join(base, id@), nq(), data@, None),
        LibraryRatesCommand::Delete { id } => Ok(req(Method::Delete, slash_join(base, id@), nq(), BodySpec::Empty, None)),
        LibraryRatesCommand::Enable { id } => Ok(req(Method::Post, slash_join(base, id@) + "/enablement"@, nq(), BodySpec::Null, idem)),
        LibraryRatesCommand::Disable { id } => Ok(req(Method::Delete, slash_join(base, id@) + "/enablement"@, nq(), BodySpec::Empty, None)),
        LibraryRatesCommand::Items(item) => crud_plan(item.command, idem, slash_join(base, item.pack_id@) + "/items"@),
    }
}

/// Plans a rate-pack command (including the per-pack items).
pub fn library_rates(cmd: LibraryRatesCommand, client: &Client, idem: Option<&str>) -> (r: Result<Request, PlanError>)
    ensures
        outcome(r) == library_rates_plan(cmd, opt_str_view(idem)),
{
    let base = client.ws_path("library/rate-packs");
    match cmd {
        LibraryRatesCommand::List(f) => Ok(get(base, flags_query(&f))),
        LibraryRatesCommand::Get { id, flags } => Ok(get(join_slash(base.as_str(), id.as_str()), flags_query(&flags))),
        LibraryRatesCommand::Create { data } => json_request(Method::Post, base, no_query(), data.as_str(), idem),
        LibraryRatesCommand::Update { id, data } => json_request(Method::Patch, join_slash(base.as_str(), id.as_str()), no_query(), data.as_str(), None),
        LibraryRatesCommand::Delete { id } => Ok(delete(join_slash(base.as_str(), id.as_str()))),
        LibraryRatesCommand::Enable { id } => {
            let p = join_slash(base.as_str(), id.as_str());
            Ok(request(Method::Post, concat(p.as_str(), "/enablement"), no_query(), Body::Null, idem))
        },
        LibraryRatesCommand::Disable { id } => {
            let p = join_slash(base.as_str(), id.as_str());
            Ok(delete(concat(p.as_str(), "/enablement")))
        },
        LibraryRatesCommand::Items(item) => {
            let p = join_slash(base.as_str(), item.pack_id.as_str());
            let item_base = concat(p.as_str(), "/items");
            crud_resource(item.command, idem, item_base.as_str())
        },
    }
}

/// The request of a unit command.
pub open spec fn library_units_plan(cmd: LibraryUnitsCommand, idem: Option<Seq<char>>) -> Result<RequestSpec, PlanFailure> {
    let base = ws_path_of("library/units"@);
    match cmd {
        LibraryUnitsCommand::List(f) => Ok(req(Method::Get, base, lq(f), BodySpec::Empty, None)),
        LibraryUnitsCommand::Get { unit_id } => Ok(req(Method::Get, slash_join(base, unit_id@), nq(), BodySpec::Empty, None)),
        LibraryUnitsCommand::Create { data } => json_req(Method::Post, base, nq(), data@, idem),
        LibraryUnitsCommand::Update { unit_id, data } => json_req(Method::Patch, slash_join(base, unit_id@), nq(), data@, None),
        LibraryUnitsCommand::Delete { unit_id } => Ok(req(Method::Delete, slash_join(base, unit_id@), nq(), BodySpec::Empty, None)),
    }
}

/// Plans a unit command.
pub fn library_units(cmd: LibraryUnitsCommand, client: &Client, idem: Option<&str>) -> (r: Result<Request, PlanError>)
    ensures
        outcome(r) == library_units_plan(cmd, opt_str_view(idem)),
{
    let base = client.ws_path("library/units");
    match cmd {
        LibraryUnitsCommand::List(f) => Ok(get(base, flags_query(&f))),
        LibraryUnitsCommand::Get { unit_id } => Ok(get(join_slash(base.as_str(), unit_id.as_str()), no_query())),
        LibraryUnitsCommand::Create { data } => json_request(Method::Post, base, no_query(), data.as_str(), idem),
        LibraryUnitsCommand::Update { unit_id, data } => json_request(Method::Patch, join_slash(base.as_str(), unit_id.as_str()), no_query(), data.as_str(), None),
        LibraryUnitsCommand::Delete { unit_id } => Ok(delete(join_slash(base.as_str(), unit_id.as_str()))),
    }
}

/// The request of an incentive-pack command. Enabling sends no key.
pub open spec fn incentives_plan(cmd: IncentiveCommand) -> Result<RequestSpec, PlanFailure> {
    let base = ws_path_of("library/incentive-packs"@);
    match cmd {
        IncentiveCommand::List(f) => Ok(req(Method::Get, base, lq(f), BodySpec::Empty, None)),
        IncentiveCommand::Get { pack_id, flags } => Ok(req(Method::Get, slash_join(base, pack_id@), lq(flags), BodySpec::Empty, None)),
        IncentiveCommand::Programs { pack_id, flags } => Ok(req(Method::Get, slash_join(base, pack_id@) + "/programs"@, lq(flags), BodySpec::Empty, None)),
        IncentiveCommand::Enable { pack_id } => Ok(req(Method::Post, slash_join(base, pack_id@) + "/enablement"@, nq(), BodySpec::Null, None)),
        IncentiveCommand::Disable { pack_id } => Ok(req(Method::Delete, slash_join(base, pack_id@) + "/enablement"@, nq(), BodySpec::Empty, None)),
    }
}

/// Plans an incentive-pack command.
pub fn incentives(cmd: IncentiveCommand, client: &Client) -> (r: Result<Request, PlanError>)
    ensures
        outcome(r) == incentives_plan(cmd),
{
    let base = client.ws_path("library/incentive-packs");
    match cmd {
        IncentiveCommand::List(f) => Ok(get(base, flags_query(&f))),
        IncentiveCommand::Get { pack_id, flags } => Ok(get(join_slash(base.as_str(), pack_id.as_str()), flags_query(&flags))),
        IncentiveCommand::Programs { pack_id, flags } => {
            let p = join_slash(base.as_str(), pack_id.as_str());
            Ok(get(concat(p.as_str(), "/programs"), flags_query(&flags)))
        },
        IncentiveCommand::Enable { pack_id } => {
            let p = join_slash(base.as_str(), pack_id.as_str());
            Ok(request(Method::Post, concat(p.as_str(), "/enablement"), no_query(), Body::Null, None))
        },
        IncentiveCommand::Disable { pack_id } => {
            let p = join_slash(base.as_str(), pack_id.as_str());
            Ok(delete(concat(p.as_str(), "/enablement")))
        },
    }
}

/// The request of a project-Library copy command (`fringes`, `globals`,
/// `currencies`, `fringe-groups`): `add` posts `{ sourceId }`, with
/// `reset=true` when asked.
pub open spec fn project_library_copy_plan(cmd: ProjectCopyCommand, idem: Option<Seq<char>>, project: Seq<char>, section: Seq<char>) -> Result<RequestSpec, PlanFailure> {
    let coll = project_path_of(project, "library/"@ + section);
    match cmd {
        ProjectCopyCommand::List(f) => Ok(req(Method::Get, coll, lq(f), BodySpec::Empty, None)),
        ProjectCopyCommand::Get { id, flags } => Ok(req(Method::Get, slash_join(coll, id@), lq(flags), BodySpec::Empty, None)),
        ProjectCopyCommand::Add { source_id, reset } => Ok(req(Method::Post, coll, reset_query(reset), BodySpec::Source(source_id@), idem)),
        ProjectCopyCommand::Update { id, data } => json_req(Method::Patch, slash_join(coll, id@), nq(), data@, None),
        ProjectCopyCommand::Delete { id } => Ok(req(Method::Delete, slash_join(coll, id@), nq(), BodySpec::Empty, None)),
    }
}

/// Plans a project-Library copy command.
pub fn project_library_copy(cmd: ProjectCopyCommand, client: &Client, idem: Option<&str>, project: &str, section: &str) -> (r: Result<Request, PlanError>)
    ensures
        outcome(r) == project_library_copy_plan(cmd, opt_str_view(idem), project@, section@),
{
    let sec = concat("library/", section);
    let coll = client.project_path(project, sec.as_str());
    match cmd {
        ProjectCopyCommand::List(f) => Ok(get(coll, flags_query(&f))),
        ProjectCopyCommand::Get { id, flags } => Ok(get(join_slash(coll.as_str(), id.as_str()), flags_query(&flags))),
        ProjectCopyCommand::Add { source_id, reset } => Ok(request(Method::Post, coll, reset_pairs(reset), Body::Source { source_id }, idem)),
        ProjectCopyCommand::Update { id, data } => json_request(Method::Patch, join_slash(coll.as_str(), id.as_str()), no_query(), data.as_str(), None),
        ProjectCopyCommand::Delete { id } => Ok(delete(join_slash(coll.as_str(), id.as_str()))),
    }
}

/// The request of a project-Library command in `project`.
pub open spec fn project_library_plan(cmd: ProjectLibraryCommand, idem: Option<Seq<char>>, project: Seq<char>) -> Result<RequestSpec, PlanFailure> {
    match cmd {
        ProjectLibraryCommand::Incentives(a) => {
            let coll = project_path_of(project, "library/incentives"@);
            match a.command {
                ProjectIncentiveCommand::List(f) => Ok(req(Method::Get, coll, lq(f), BodySpec::Empty, None)),
                ProjectIncentiveCommand::Get { incentive_id, flags } => Ok(req(Method::Get, slash_join(coll, incentive_id@), lq(flags), BodySpec::Empty, None)),
                ProjectIncentiveCommand::Add { data } => json_req(Method::Post, coll, nq(), data@, idem),
                ProjectIncentiveCommand::Update { incentive_id, data } => json_req(Method::Patch, slash_join(coll, incentive_id@), nq(), data@, None),
                ProjectIncentiveCommand::Delete { incentive_id } => Ok(req(Method::Delete, slash_join(coll, incentive_id@), nq(), BodySpec::Empty, None)),
            }
        },
        ProjectLibraryCommand::Fringes(a) => project_library_copy_plan(a.command, idem, project, "fringes"@),
        ProjectLibraryCommand::Globals(a) => project_library_copy_plan(a.command, idem, project, "globals"@),
        ProjectLibraryCommand::Currencies(a) => project_library_copy_plan(a.command, idem, project, "currencies"@),
        ProjectLibraryCommand::FringeGroups(a) => project_library_copy_plan(a.command, idem, project, "fringe-groups"@),
        ProjectLibraryCommand::Tags(a) => match a.command {
            ProjectTagCommand::List(f) => Ok(req(Method::Get, project_path_of(project, "library/tags"@), lq(f), BodySpec::Empty, None)),
        },
    }
}

/// Plans a project-Library command in `project`.
pub fn project_library(cmd: ProjectLibraryCommand, client: &Client, idem: Option<&str>, project: &str) -> (r: Result<Request, PlanError>)
    ensures
        outcome(r) == project_library_plan(cmd, opt_str_view(idem), project@),
{
    match cmd {
        ProjectLibraryCommand::Incentives(a) => {
            let coll = client.project_path(project, "library/incentives");
            match a.command {
                ProjectIncentiveCommand::List(f) => Ok(get(coll, flags_query(&f))),
                ProjectIncentiveCommand::Get { incentive_id, flags } => Ok(get(join_slash(coll.as_str(), incentive_id.as_str()), flags_query(&flags))),
                ProjectIncentiveCommand::Add { data } => json_request(Method::Post, coll, no_query(), data.as_str(), idem),
                ProjectIncentiveCommand::Update { incentive_id, data } => json_request(Method::Patch, join_slash(coll.as_str(), incentive_id.as_str()), no_query(), data.as_str(), None),
                ProjectIncentiveCommand::Delete { incentive_id } => Ok(delete(join_slash(coll.as_str(), incentive_id.as_str()))),
            }
        },
        ProjectLibraryCommand::Fringes(a) => project_library_copy(a.command, client, idem, project, "fringes"),
        ProjectLibraryCommand::Globals(a) => project_library_copy(a.command, client, idem, project, "globals"),
        ProjectLibraryCommand::Currencies(a) => project_library_copy(a.command, client, idem, project, "currencies"),
        ProjectLibraryCommand::FringeGroups(a) => project_library_copy(a.command, client, idem, project, "fringe-groups"),
        ProjectLibraryCommand::Tags(a) => match a.command {
            ProjectTagCommand::List(f) => Ok(get(client.project_path(project, "library/tags"), flags_query(&f))),
        },
    }
}

/// The request of a Library command; project Library tasks need a project.
pub open spec fn library_plan(cmd: LibraryCommand, idem: Option<Seq<char>>, project: Option<Seq<char>>) -> Result<RequestSpec, PlanFailure> {
    match cmd {
        LibraryCommand::RatePacks(a) => library_rates_plan(a.command, idem),
        LibraryCommand::Fringes(a) => library_crud_plan(a.command, idem, "fringes"@),
        LibraryCommand::Globals(a) => library_crud_plan(a.command, idem, "globals"@),
        LibraryCommand::Currencies(a) => library_crud_plan(a.command, idem, "currencies"@),
        LibraryCommand::FringeGroups(a) => library_crud_plan(a.command, idem, "fringe-groups"@),
        LibraryCommand::Tags(a) => library_crud_plan(a.command, idem, "tags"@),
        LibraryCommand::Units(a) => library_units_plan(a.command, idem),
        LibraryCommand::Incentives(a) => incentives_plan(a.command),
        LibraryCommand::Project(a) => match project {
            Some(p) => project_library_plan(a.command, idem, p),
            None => Err(PlanFailure::LibraryProjectRequired),
        },
    }
}

/// Plans a Library command.
pub fn library(cmd: LibraryCommand, client: &Client, idem: Option<&str>, project: Option<&str>) -> (r: Result<Request, PlanError>)
    ensures
        outcome(r) == library_plan(cmd, opt_str_view(idem), opt_str_view(project)),
{
    match cmd {
        LibraryCommand::RatePacks(a) => library_rates(a.command, client, idem),
        LibraryCommand::Fringes(a) => library_crud(a.command, client, idem, "fringes"),
        LibraryCommand::Globals(a) => library_crud(a.command, client, idem, "globals"),
        LibraryCommand::Currencies(a) => library_crud(a.command, client, idem, "currencies"),
        LibraryCommand::FringeGroups(a) => library_crud(a.command, client, idem, "fringe-groups"),
        LibraryCommand::Tags(a) => library_crud(a.command, client, idem, "tags"),
        LibraryCommand::Units(a) => library_units(a.command, client, idem),
        LibraryCommand::Incentives(a) => incentives(a.command, client),
        LibraryCommand::Project(a) => match project {
            Some(p) => project_library(a.command, client, idem, p),
            None => Err(PlanError::LibraryProjectRequired),
        },
    }
}

// ---------------------------------------------------------------------------
// Documents, search and webhooks

/// The metadata of an upload: `name`, `description`, `folderId`, each when given.
pub open spec fn upload_metadata(name: Option<String>, description: Option<String>, folder_id: Option<String>) -> Seq<(Seq<char>, Seq<char>)> {
    opt_pair("name"@, opt_view(name)) + opt_pair("description"@, opt_view(description)) + opt_pair("folderId"@, opt_view(folder_id))
}

/// The body of a document link: the target id and the replace flag only.
pub fn document_link_body(target_id: &str, replace: bool) -> (b: DocumentLinkBody)
    ensures
        b.target_id@ == target_id@,
        b.replace == replace,
{
    DocumentLinkBody { target_id: target_id.to_owned(), replace }
}

/// The request of a document command. `content` streams the original bytes.
pub open spec fn documents_plan(cmd: DocumentCommand, idem: Option<Seq<char>>) -> Result<RequestSpec, PlanFailure> {
    let base = ws_path_of("documents"@);
    match cmd {
        DocumentCommand::List(f) => Ok(req(Method::Get, base, lq(f), BodySpec::Empty, None)),
        DocumentCommand::Get { document_id, flags } => Ok(req(Method::Get, slash_join(base, document_id@), lq(flags), BodySpec::Empty, None)),
        DocumentCommand::Upload { file, name, description, folder_id } => Ok(req(
            Method::Post,
            "documents"@,
            nq(),
            BodySpec::Upload(file@, upload_metadata(name, description, folder_id)),
            idem,
        )),
        DocumentCommand::Update { document_id, data } => json_req(Method::Patch, slash_join(base, document_id@), nq(), data@, None),
        DocumentCommand::Delete { document_id } => Ok(req(Method::Delete, slash_join(base, document_id@), nq(), BodySpec::Empty, None)),
        DocumentCommand::Content { document_id } => Ok(RequestSpec {
            response: ResponseMode::Stream,
            ..req(Method::Get, slash_join(base, document_id@) + "/content"@, nq(), BodySpec::Empty, None)
        }),
        DocumentCommand::Extraction { document_id } => Ok(req(Method::Get, slash_join(base, document_id@) + "/extraction"@, nq(), BodySpec::Empty, None)),
        DocumentCommand::Link { document_id, kind, target_id, replace } => Ok(req(
            Method::Put,
            slash_join(slash_join(base, document_id@) + "/links"@, link_kind_name(kind)),
            nq(),
            BodySpec::Link(target_id@, replace),
            None,
        )),
        DocumentCommand::Unlink { document_id, kind } => Ok(req(
            Method::Delete,
            slash_join(slash_join(base, document_id@) + "/links"@, link_kind_name(kind)),
            nq(),
            BodySpec::Empty,
            None,
        )),
    }
}

fn link_path(base: &str, document_id: &str, kind: DocumentLinkKind) -> (p: String)
    ensures
        p@ == slash_join(slash_join(base@, document_id@) + "/links"@, link_kind_name(kind)),
{
    let a = join_slash(base, document_id);
    let b = concat(a.as_str(), "/links");
    join_slash(b.as_str(), kind.api_name())
}

/// Plans a document command.
pub fn documents(cmd: DocumentCommand, client: &Client, idem: Option<&str>) -> (r: Result<Request, PlanError>)
    ensures
        outcome(r) == documents_plan(cmd, opt_str_view(idem)),
{
    let base = client.ws_path("documents");
    match cmd {
        DocumentCommand::List(f) => Ok(get(base, flags_query(&f))),
        DocumentCommand::Get { document_id, flags } => Ok(get(join_slash(base.as_str(), document_id.as_str()), flags_query(&flags))),
        DocumentCommand::Upload { file, name, description, folder_id } => {
            let mut meta: Vec<(String, String)> = Vec::new();
            push_opt(&mut meta, "name", &name);
            push_opt(&mut meta, "description", &description);
            push_opt(&mut meta, "folderId", &folder_id);
            assert(pairs_view(meta@) =~= upload_metadata(name, description, folder_id));
            Ok(request(Method::Post, "documents".to_owned(), no_query(), Body::Upload { file, metadata: meta }, idem))
        },
        DocumentCommand::Update { document_id, data } => json_request(Method::Patch, join_slash(base.as_str(), document_id.as_str()), no_query(), data.as_str(), None),
        DocumentCommand::Delete { document_id } => Ok(delete(join_slash(base.as_str(), document_id.as_str()))),
        DocumentCommand::Content { document_id } => {
            let p = join_slash(base.as_str(), document_id.as_str());
            let mut r = get(concat(p.as_str(), "/content"), no_query());
            r.response = ResponseMode::Stream;
            Ok(r)
        },
        DocumentCommand::Extraction { document_id } => {
            let p = join_slash(base.as_str(), document_id.as_str());
            Ok(get(concat(p.as_str(), "/extraction"), no_query()))
        },
        DocumentCommand::Link { document_id, kind, target_id, replace } => {
            let body = document_link_body(target_id.as_str(), replace);
            Ok(request(Method::Put, link_path(base.as_str(), document_id.as_str(), kind), no_query(), Body::Link(body), None))
        },
        DocumentCommand::Unlink { document_id, kind } => Ok(delete(link_path(base.as_str(), document_id.as_str(), kind))),
    }
}

/// The request of a webhook command. A test delivery sends no key.
pub open spec fn webhooks_plan(cmd: WebhookCommand, idem: Option<Seq<char>>) -> Result<RequestSpec, PlanFailure> {
    let base = ws_path_of("webhooks"@);
    match cmd {
        WebhookCommand::List(f) => Ok(req(Method::Get, base, lq(f), BodySpec::Empty, None)),
        WebhookCommand::Get { webhook_id, flags } => Ok(req(Method::Get, slash_join(base, webhook_id@), lq(flags), BodySpec::Empty, None)),
        WebhookCommand::Create { data } => json_req(Method::Post, base, nq(), data@, idem),
        WebhookCommand::Update { webhook_id, data } => json_req(Method::Patch, slash_join(base, webhook_id@), nq(), data@, None),
        WebhookCommand::Delete { webhook_id } => Ok(req(Method::Delete, slash_join(base, webhook_id@), nq(), BodySpec::Empty, None)),
        WebhookCommand::TestDelivery { webhook_id } => Ok(req(Method::Post, slash_join(base, webhook_id@) + "/test-delivery"@, nq(), BodySpec::Null, None)),
        WebhookCommand::Deliveries { webhook_id, flags } => Ok(req(Method::Get, slash_join(base, webhook_id@) + "/deliveries"@, lq(flags), BodySpec::Empty, None)),
    }
}

/// Plans a webhook command.
pub fn webhooks(cmd: WebhookCommand, client: &Client, idem: Option<&str>) -> (r: Result<Request, PlanError>)
    ensures
        outcome(r) == webhooks_plan(cmd, opt_str_view(idem)),
{
    let base = client.ws_path("webhooks");
    match cmd {
        WebhookCommand::List(f) => Ok(get(base, flags_query(&f))),
        WebhookCommand::Get { webhook_id, flags } => Ok(get(join_slash(base.as_str(), webhook_id.as_str()), flags_query(&flags))),
        WebhookCommand::Create { data } => json_request(Method::Post, base, no_query(), data.as_str(), idem),
        WebhookCommand::Update { webhook_id, data } => json_request(Method::Patch, join_slash(base.as_str(), webhook_id.as_str()), no_query(), data.as_str(), None),
        WebhookCommand::Delete { webhook_id } => Ok(delete(join_slash(base.as_str(), webhook_id.as_str()))),
        WebhookCommand::TestDelivery { webhook_id } => {
            let p = join_slash(base.as_str(), webhook_id.as_str());
            Ok(request(Method::Post, concat(p.as_str(), "/test-delivery"), no_query(), Body::Null, None))
        },
        WebhookCommand::Deliveries { webhook_id, flags } => {
            let p = join_slash(base.as_str(), webhook_id.as_str());
            Ok(get(concat(p.as_str(), "/deliveries"), flags_query(&flags)))
        },
    }
}

/// The request of a search: `q`, `types` when given, `projectId` when a
/// project is given, after the shared flags.
pub open spec fn search_plan(a: SearchArgs, project: Option<Seq<char>>) -> RequestSpec {
    req(
        Method::Get,
        ws_path_of("search"@),
        list_query(a.flags, seq![("q"@, Some(a.query@)), ("types"@, opt_view(a.types)), project_filter(project)]),
        BodySpec::Empty,
        None,
    )
}

fn search(a: SearchArgs, client: &Client, project: Option<&str>) -> (r: Request)
    ensures
        r@ == search_plan(a, opt_str_view(project)),
{
    let extra = vec![("q", Some(a.query)), ("types", a.types), ("projectId", owned_project(project))];
    let ghost ex = extra@;
    let q = build_query(&a.flags, extra);
    assert(extra_view(ex) =~= seq![("q"@, Some(a.query@)), ("types"@, opt_view(a.types)), project_filter(opt_str_view(project))]);
    get(client.ws_path("search"), q)
}

// ---------------------------------------------------------------------------
// Command-level rules

/// The creates that require an idempotency key.
pub open spec fn requires_key(c: V1Command) -> bool {
    match c {
        V1Command::Projects(a) => match a.command {
            ProjectCommand::Create { .. } => true,
            ProjectCommand::Comments(ca) => ca.command is Create,
            _ => false,
        },
        V1Command::Contacts(a) => a.command is Create,
        V1Command::Spaces(a) => a.command is Create,
        V1Command::Budget(a) => match a.command {
            BudgetCommand::Lines(la) => la.command is Create || la.command is Bulk,
            BudgetCommand::PhaseData(pd) => pd.command is Bulk,
            BudgetCommand::Phases(pw) => pw.command is Create,
            _ => false,
        },
        V1Command::Transactions(a) => match a.command {
            TransactionCommand::Create { .. } => true,
            TransactionCommand::Bulk { .. } => true,
            TransactionCommand::Items(i) => i.command is Create,
            _ => false,
        },
        V1Command::PurchaseOrders(a) => match a.command {
            PurchaseOrderCommand::Create { .. } => true,
            PurchaseOrderCommand::Items(i) => i.command is Create,
            _ => false,
        },
        V1Command::Library(a) => match a.command {
            LibraryCommand::RatePacks(r) => match r.command {
                LibraryRatesCommand::Create { .. } => true,
                LibraryRatesCommand::Items(i) => i.command is Create,
                _ => false,
            },
            LibraryCommand::Fringes(l) => l.command is Create,
            LibraryCommand::Globals(l) => l.command is Create,
            LibraryCommand::Currencies(l) => l.command is Create,
            LibraryCommand::FringeGroups(l) => l.command is Create,
            LibraryCommand::Tags(l) => l.command is Create,
            LibraryCommand::Units(u) => u.command is Create,
            _ => false,
        },
        _ => false,
    }
}

/// Whether a create needs `--idempotency-key`.
pub fn requires_idempotency_key(command: &V1Command) -> (b: bool)
    ensures
        b == requires_key(*command),
{
    match command {
        V1Command::Projects(a) => match &a.command {
            ProjectCommand::Create { .. } => true,
            ProjectCommand::Comments(ca) => matches!(ca.command, CrudCommand::Create { .. }),
            _ => false,
        },
        V1Command::Contacts(a) => matches!(a.command, ResourceCommand::Create { .. }),
        V1Command::Spaces(a) => matches!(a.command, CrudCommand::Create { .. }),
        V1Command::Budget(a) => match &a.command {
            BudgetCommand::Lines(la) => matches!(la.command, LineCommand::Create { .. } | LineCommand::Bulk { .. }),
            BudgetCommand::PhaseData(pd) => matches!(pd.command, BudgetPhaseDataCommand::Bulk { .. }),
            BudgetCommand::Phases(pw) => matches!(pw.command, ResourceCommand::Create { .. }),
            _ => false,
        },
        V1Command::Transactions(a) => match &a.command {
            TransactionCommand::Create { .. } => true,
            TransactionCommand::Bulk { .. } => true,
            TransactionCommand::Items(i) => matches!(i.command, CrudCommand::Create { .. }),
            _ => false,
        },
        V1Command::PurchaseOrders(a) => match &a.command {
            PurchaseOrderCommand::Create { .. } => true,
            PurchaseOrderCommand::Items(i) => matches!(i.command, CrudCommand::Create { .. }),
            _ => false,
        },
        V1Command::Library(a) => match &a.command {
            LibraryCommand::RatePacks(r) => match &r.command {
                LibraryRatesCommand::Create { .. } => true,
                LibraryRatesCommand::Items(i) => matches!(i.command, CrudCommand::Create { .. }),
                _ => false,
            },
            LibraryCommand::Fringes(l) => matches!(l.command, LibraryCrudCommand::Create { .. }),
            LibraryCommand::Globals(l) => matches!(l.command, LibraryCrudCommand::Create { .. }),
            LibraryCommand::Currencies(l) => matches!(l.command, LibraryCrudCommand::Create { .. }),
            LibraryCommand::FringeGroups(l) => matches!(l.command, LibraryCrudCommand::Create { .. }),
            LibraryCommand::Tags(l) => matches!(l.command, LibraryCrudCommand::Create { .. }),
            LibraryCommand::Units(u) => matches!(u.command, LibraryUnitsCommand::Create { .. }),
            _ => false,
        },
        _ => false,
    }
}

/// The commands to which `--project` applies.
pub open spec fn project_scoped(c: V1Command) -> bool {
    match c {
        V1Command::Budget(_) => true,
        V1Command::Library(a) => a.command is Project,
        V1Command::Search(_) => true,
        V1Command::Transactions(_) => true,
        V1Command::PurchaseOrders(_) => true,
        V1Command::PaymentRequests(_) => true,
        V1Command::Payments(_) => true,
        _ => false,
    }
}

/// Whether `--project` is valid for a command.
pub fn supports_project_scope(command: &V1Command) -> (b: bool)
    ensures
        b == project_scoped(*command),
{
    match command {
        V1Command::Budget(_) => true,
        V1Command::Library(a) => matches!(a.command, LibraryCommand::Project(_)),
        V1Command::Search(_) => true,
        V1Command::Transactions(_) => true,
        V1Command::PurchaseOrders(_) => true,
        V1Command::PaymentRequests(_) => true,
        V1Command::Payments(_) => true,
        _ => false,
    }
}

/// The request of a command after the command-level rules.
pub open spec fn dispatch_plan(c: V1Command, project: Option<Seq<char>>, idem: Option<Seq<char>>) -> Result<RequestSpec, PlanFailure> {
    match c {
        V1Command::Whoami => Ok(req(Method::Get, "me"@, nq(), BodySpec::Empty, None)),
        V1Command::Projects(a) => projects_plan(a.command, idem),
        V1Command::Spaces(a) => crud_plan(a.command, idem, ws_path_of("spaces"@)),
        V1Command::Contacts(a) => resource_plan(a.command, idem, ws_path_of("contacts"@)),
        V1Command::Budget(a) => match project {
            Some(p) => budget_plan(a.command, idem, p),
            None => Err(PlanFailure::ProjectRequired),
        },
        V1Command::Transactions(a) => transactions_plan(a.command, idem, project),
        V1Command::PurchaseOrders(a) => purchase_orders_plan(a.command, idem, project),
        V1Command::PaymentRequests(a) => payment_requests_plan(a.command, project),
        V1Command::Payments(a) => payments_plan(a.command, project),
        V1Command::Library(a) => library_plan(a.command, idem, project),
        V1Command::Documents(a) => documents_plan(a.command, idem),
        V1Command::Search(a) => Ok(search_plan(a, project)),
        V1Command::Webhooks(a) => webhooks_plan(a.command, idem),
    }
}

/// The request of a command: refused when a required key is missing, then
/// when `--project` is given to a command it does not apply to; otherwise the
/// command's own request.
pub open spec fn command_plan(c: V1Command, project: Option<Seq<char>>, idem: Option<Seq<char>>) -> Result<RequestSpec, PlanFailure> {
    if requires_key(c) && idem is None {
        Err(PlanFailure::MissingIdempotencyKey)
    } else if project is Some && !project_scoped(c) {
        Err(PlanFailure::ProjectNotSupported)
    } else {
        dispatch_plan(c, project, idem)
    }
}

/// Plans one resource command: the request it makes, or why it is refused
/// before anything is sent.
pub fn execute(command: V1Command, project: Option<String>, idempotency_key: Option<String>, client: &Client) -> (r: Result<Request, PlanError>)
    ensures
        outcome(r) == command_plan(command, opt_view(project), opt_view(idempotency_key)),
        requires_key(command) && idempotency_key is None ==> outcome(r) == Err::<RequestSpec, PlanFailure>(PlanFailure::MissingIdempotencyKey),
{
    let idem: Option<&str> = match &idempotency_key {
        Some(k) => Some(k.as_str()),
        None => None,
    };
    assert(opt_str_view(idem) == opt_view(idempotency_key));
    if requires_idempotency_key(&command) && idem.is_none() {
        return Err(PlanError::MissingIdempotencyKey);
    }
    if project.is_some() && !supports_project_scope(&command) {
        return Err(PlanError::ProjectNotSupported);
    }
    let proj: Option<&str> = match &project {
        Some(p) => Some(p.as_str()),
        None => None,
    };
    assert(opt_str_view(proj) == opt_view(project));
    match command {
        V1Command::Whoami => Ok(get("me".to_owned(), no_query())),
        V1Command::Projects(a) => projects(a.command, client, idem),
        V1Command::Spaces(a) => {
            let base = client.ws_path("spaces");
            crud_resource(a.command, idem, base.as_str())
        },
        V1Command::Contacts(a) => {
            let base = client.ws_path("contacts");
            generic_resource(a.command, idem, base.as_str())
        },
        V1Command::Budget(a) => match proj {
            Some(p) => budget(a.command, client, idem, p),
            None => Err(PlanError::ProjectRequired),
        },
        V1Command::Transactions(a) => transactions(a.command, client, idem, proj),
        V1Command::PurchaseOrders(a) => purchase_orders(a.command, client, idem, proj),
        V1Command::PaymentRequests(a) => payment_requests(a.command, client, proj),
        V1Command::Payments(a) => payments(a.command, client, proj),
        V1Command::Library(a) => library(a.command, client, idem, proj),
        V1Command::Documents(a) => documents(a.command, client, idem),
        V1Command::Search(a) => Ok(search(a, client, proj)),
        V1Command::Webhooks(a) => webhooks(a.command, client, idem),
    }
}

/// A create that requires an idempotency key is either refused or sends
/// exactly the key it was given.
#[verifier::spinoff_prover]
#[verifier::rlimit(30)]
pub proof fn lemma_required_key_is_sent(c: V1Command, project: Option<Seq<char>>, idem: Option<Seq<char>>)
    requires
        requires_key(c),
        command_plan(c, project, idem) is Ok,
    ensures
        idem is Some,
        command_plan(c, project, idem)->Ok_0.idempotency_key == idem,
{
    match c {
        V1Command::Projects(a) => match a.command {
            ProjectCommand::Comments(ca) => {},
            _ => {},
        },
        V1Command::Budget(a) => match a.command {
            BudgetCommand::Lines(la) => {},
            BudgetCommand::PhaseData(pd) => {},
            BudgetCommand::Phases(pw) => {},
            _ => {},
        },
        V1Command::Transactions(a) => match a.command {
            TransactionCommand::Items(i) => {},
            _ => {},
        },
        V1Command::PurchaseOrders(a) => match a.command {
            PurchaseOrderCommand::Items(i) => {},
            _ => {},
        },
        V1Command::Library(a) => match a.command {
            LibraryCommand::RatePacks(r) => match r.command {
                LibraryRatesCommand::Items(i) => {},
                _ => {},
            },
            LibraryCommand::Units(u) => {},
            _ => {},
        },
        _ => {},
    }
}

/// `--project` on a command it does not apply to is refused (once the key
/// rule is met), and a project-owned task without `--project` is refused.
pub proof fn lemma_project_scope_rules(c: V1Command, project: Option<Seq<char>>, idem: Option<Seq<char>>)
    requires
        !(requires_key(c) && idem is None),
    ensures
        project is Some && !project_scoped(c) ==> command_plan(c, project, idem) == Err::<RequestSpec, PlanFailure>(PlanFailure::ProjectNotSupported),
        project is None && c is Budget ==> command_plan(c, project, idem) == Err::<RequestSpec, PlanFailure>(PlanFailure::ProjectRequired),
        project is None && (c matches V1Command::Library(a) && a.command is Project) ==> command_plan(c, project, idem) == Err::<RequestSpec, PlanFailure>(PlanFailure::LibraryProjectRequired),
{
}


/// With `--project p`, `transactions stats` reads `transactions/stats`
/// narrowed exactly as the transaction list is: its query is that of a
/// transaction list for `p` with no other filter, which is the query of the
/// same stats without a project followed by the one pair `projectId=p`.
pub proof fn lemma_transaction_stats_follow_project(f: ListFlags, p: Seq<char>, idem: Option<Seq<char>>)
    ensures ({
        let stats = V1Command::Transactions(TransactionArgs { command: TransactionCommand::Stats(f) });
        let list = V1Command::Transactions(TransactionArgs {
            command: TransactionCommand::List { source: None, type_filter: None, status: None, flags: f },
        });
        let scoped = command_plan(stats, Some(p), idem);
        let unscoped = command_plan(stats, None, idem);
        let listed = command_plan(list, Some(p), idem);
        &&& scoped is Ok && unscoped is Ok && listed is Ok
        &&& scoped->Ok_0.method == Method::Get
        &&& scoped->Ok_0.path == "transactions/stats"@
        &&& scoped->Ok_0.body == BodySpec::Empty
        &&& scoped->Ok_0.idempotency_key is None
        &&& scoped->Ok_0.query == listed->Ok_0.query
        &&& scoped->Ok_0.query == unscoped->Ok_0.query.push(("projectId"@, p))
        &&& unscoped->Ok_0.path == scoped->Ok_0.path
    }),
{
    reveal_strlit("transactions/stats");
    let one = seq![project_filter(Some(p))];
    let four = seq![project_filter(Some(p)), ("source"@, None::<Seq<char>>), ("type"@, None::<Seq<char>>), ("status"@, None::<Seq<char>>)];
    assert(one.drop_last() =~= Seq::<(Seq<char>, Option<Seq<char>>)>::empty());
    assert(present_pairs(one) =~= seq![("projectId"@, p)]);
    assert(four.drop_last().drop_last().drop_last() =~= one);
    assert(present_pairs(four.drop_last().drop_last()) =~= present_pairs(one));
    assert(present_pairs(four.drop_last()) =~= present_pairs(one));
    assert(present_pairs(four) =~= present_pairs(one));
    let none1 = seq![project_filter(None)];
    assert(none1.drop_last() =~= Seq::<(Seq<char>, Option<Seq<char>>)>::empty());
    assert(present_pairs(none1) =~= Seq::<(Seq<char>, Seq<char>)>::empty());
    assert(list_query(f, one) =~= list_query(f, none1).push(("projectId"@, p)));
}

/// Each purchase-order action posts to an endpoint of its own under the
/// order, `purchase-orders/{id}/submit`, `/cancel-submission`, `/void` and
/// `/mark-paid`, with a null body and the given key; no two of them share a
/// path.
pub proof fn lemma_purchase_order_actions(id: String, project: Option<Seq<char>>, idem: Option<Seq<char>>)
    ensures ({
        let submit = command_plan(V1Command::PurchaseOrders(PurchaseOrderArgs { command: PurchaseOrderCommand::Submit { purchase_order_id: id } }), project, idem);
        let cancel = command_plan(V1Command::PurchaseOrders(PurchaseOrderArgs { command: PurchaseOrderCommand::CancelSubmission { purchase_order_id: id } }), project, idem);
        let void = command_plan(V1Command::PurchaseOrders(PurchaseOrderArgs { command: PurchaseOrderCommand::Void { purchase_order_id: id } }), project, idem);
        let paid = command_plan(V1Command::PurchaseOrders(PurchaseOrderArgs { command: PurchaseOrderCommand::MarkPaid { purchase_order_id: id } }), project, idem);
        &&& submit is Ok && cancel is Ok && void is Ok && paid is Ok
        &&& submit->Ok_0.path == "purchase-orders/"@ + id@ + "/submit"@
        &&& cancel->Ok_0.path == "purchase-orders/"@ + id@ + "/cancel-submission"@
        &&& void->Ok_0.path == "purchase-orders/"@ + id@ + "/void"@
        &&& paid->Ok_0.path == "purchase-orders/"@ + id@ + "/mark-paid"@
        &&& submit->Ok_0.path != cancel->Ok_0.path && submit->Ok_0.path != void->Ok_0.path && submit->Ok_0.path != paid->Ok_0.path
        &&& cancel->Ok_0.path != void->Ok_0.path && cancel->Ok_0.path != paid->Ok_0.path && void->Ok_0.path != paid->Ok_0.path
        &&& forall|r: RequestSpec| #![trigger r.method] r == submit->Ok_0 || r == cancel->Ok_0 || r == void->Ok_0 || r == paid->Ok_0 ==> {
            &&& r.method == Method::Post
            &&& r.query.len() == 0
            &&& r.body == BodySpec::Null
            &&& r.idempotency_key == idem
        }
    }),
{
    reveal_strlit("purchase-orders");
    reveal_strlit("purchase-orders/");
    reveal_strlit("/submit");
    reveal_strlit("/cancel-submission");
    reveal_strlit("/void");
    reveal_strlit("/mark-paid");
    let head = slash_join("purchase-orders"@, id@);
    assert(head =~= "purchase-orders/"@ + id@);
    assert(head[0] == 'p');
    assert((head + "/submit"@)[0] == 'p');
    assert((head + "/cancel-submission"@)[0] == 'p');
    assert((head + "/void"@)[0] == 'p');
    assert((head + "/mark-paid"@)[0] == 'p');
}

/// An upload sends the file and one metadata pair for each option given:
/// `name` when a name is given, `description` when a description is, and
/// `folderId` when a folder is, each with the given value, and nothing else;
/// no key is sent twice.
pub proof fn lemma_upload_metadata_holds_given_options(
    file: String,
    name: Option<String>,
    description: Option<String>,
    folder_id: Option<String>,
    idem: Option<Seq<char>>,
)
    ensures ({
        let r = command_plan(V1Command::Documents(DocumentArgs { command: DocumentCommand::Upload { file, name, description, folder_id } }), None, idem);
        &&& r is Ok
        &&& r->Ok_0.method == Method::Post
        &&& r->Ok_0.path == "documents"@
        &&& r->Ok_0.idempotency_key == idem
        &&& r->Ok_0.body matches BodySpec::Upload(sent, meta) && {
            &&& sent == file@
            &&& (name matches Some(n) ==> meta.contains(("name"@, n@)))
            &&& (description matches Some(d) ==> meta.contains(("description"@, d@)))
            &&& (folder_id matches Some(g) ==> meta.contains(("folderId"@, g@)))
            &&& forall|j: int| 0 <= j < meta.len() ==> {
                ||| (#[trigger] meta[j]).0 == "name"@ && opt_view(name) == Some(meta[j].1)
                ||| meta[j].0 == "description"@ && opt_view(description) == Some(meta[j].1)
                ||| meta[j].0 == "folderId"@ && opt_view(folder_id) == Some(meta[j].1)
            }
            &&& forall|j: int, k: int| 0 <= j < k < meta.len() ==> (#[trigger] meta[j]).0 != (#[trigger] meta[k]).0
        }
    }),
{
    reveal_strlit("name");
    reveal_strlit("description");
    reveal_strlit("folderId");
    let a = opt_pair("name"@, opt_view(name));
    let b = opt_pair("description"@, opt_view(description));
    let c = opt_pair("folderId"@, opt_view(folder_id));
    let meta = upload_metadata(name, description, folder_id);
    assert(meta == a + b + c);
    assert forall|j: int| 0 <= j < meta.len() implies {
        ||| (#[trigger] meta[j]).0 == "name"@ && opt_view(name) == Some(meta[j].1)
        ||| meta[j].0 == "description"@ && opt_view(description) == Some(meta[j].1)
        ||| meta[j].0 == "folderId"@ && opt_view(folder_id) == Some(meta[j].1)
    } by {
        if j < a.len() {
            assert(meta[j] == a[j]);
        } else if j < a.len() + b.len() {
            assert(meta[j] == b[j - a.len()]);
        } else {
            assert(meta[j] == c[j - a.len() - b.len()]);
        }
    }
    if name is Some {
        assert(meta[0] == a[0]);
    }
    if description is Some {
        assert(meta[a.len() as int] == b[0]);
    }
    if folder_id is Some {
        assert(meta[(a.len() + b.len()) as int] == c[0]);
    }
    assert("name"@.len() != "description"@.len());
    assert("name"@.len() != "folderId"@.len());
    assert("description"@.len() != "folderId"@.len());
}


proof fn lemma_present_pairs_one(a: (Seq<char>, Option<Seq<char>>))
    ensures
        present_pairs(seq![a]) == opt_pair(a.0, a.1),
{
    let e = Seq::<(Seq<char>, Option<Seq<char>>)>::empty();
    assert(seq![a].drop_last() =~= e);
    assert(seq![a].last() == a);
    assert(present_pairs(e) =~= Seq::<(Seq<char>, Seq<char>)>::empty());
    assert(present_pairs(seq![a]) =~= opt_pair(a.0, a.1));
}

proof fn lemma_present_pairs_four(
    a: (Seq<char>, Option<Seq<char>>),
    b: (Seq<char>, Option<Seq<char>>),
    c: (Seq<char>, Option<Seq<char>>),
    d: (Seq<char>, Option<Seq<char>>),
)
    ensures
        present_pairs(seq![a, b, c, d]) == opt_pair(a.0, a.1) + opt_pair(b.0, b.1) + opt_pair(c.0, c.1) + opt_pair(d.0, d.1),
{
    let s = seq![a, b, c, d];
    lemma_present_pairs_one(a);
    let s2 = seq![a, b];
    let s3 = seq![a, b, c];
    assert(s2.drop_last() =~= seq![a]);
    assert(s2.last() == b);
    assert(present_pairs(s2) == opt_pair(a.0, a.1) + opt_pair(b.0, b.1));
    assert(s3.drop_last() =~= s2);
    assert(s3.last() == c);
    assert(present_pairs(s3) == opt_pair(a.0, a.1) + opt_pair(b.0, b.1) + opt_pair(c.0, c.1));
    assert(s.drop_last() =~= s3);
    assert(s.last() == d);
    assert(present_pairs(s) == opt_pair(a.0, a.1) + opt_pair(b.0, b.1) + opt_pair(c.0, c.1) + opt_pair(d.0, d.1));
}

/// On the workspace-root commands that take `--project` (transactions,
/// purchase orders, payment requests, payments), the project is only a
/// `projectId` filter: on the reads it narrows (transaction list and stats,
/// and the purchase-order, payment-request and payment lists) the request is
/// the one made without a project with the single pair `projectId=p` added
/// to the query (last for the lists and stats; before the list's own filters
/// for transactions), and every other command of these families makes the
/// same request with or without it.
#[verifier::spinoff_prover]
#[verifier::rlimit(40)]
pub proof fn lemma_project_is_a_filter(c: V1Command, p: Seq<char>, idem: Option<Seq<char>>)
    requires
        c is Transactions || c is PurchaseOrders || c is PaymentRequests || c is Payments,
    ensures ({
        let scoped = command_plan(c, Some(p), idem);
        let unscoped = command_plan(c, None, idem);
        let narrowed_at_end = (c matches V1Command::Transactions(a) && a.command is Stats)
            || (c matches V1Command::PurchaseOrders(a) && a.command is List)
            || (c matches V1Command::PaymentRequests(a) && a.command is List)
            || (c matches V1Command::Payments(a) && a.command is List);
        let transaction_list = c matches V1Command::Transactions(a) && a.command is List;
        &&& narrowed_at_end ==> scoped is Ok && unscoped is Ok
            && scoped->Ok_0 == (RequestSpec { query: unscoped->Ok_0.query.push(("projectId"@, p)), ..unscoped->Ok_0 })
        &&& transaction_list ==> scoped is Ok && unscoped is Ok
            && exists|k: int| 0 <= k <= unscoped->Ok_0.query.len()
                && scoped->Ok_0 == (RequestSpec { query: #[trigger] unscoped->Ok_0.query.insert(k, ("projectId"@, p)), ..unscoped->Ok_0 })
        &&& !narrowed_at_end && !transaction_list ==> scoped == unscoped
    }),
{
    let some = project_filter(Some(p));
    let none = project_filter(None);
    lemma_present_pairs_one(some);
    lemma_present_pairs_one(none);
    match c {
        V1Command::Transactions(a) => match a.command {
            TransactionCommand::List { source, type_filter, status, flags } => {
                let s = ("source"@, opt_view(source));
                let t = ("type"@, opt_view(type_filter));
                let u = ("status"@, opt_view(status));
                lemma_present_pairs_four(some, s, t, u);
                lemma_present_pairs_four(none, s, t, u);
                let base = list_query(flags, Seq::empty());
                let rest = opt_pair(s.0, s.1) + opt_pair(t.0, t.1) + opt_pair(u.0, u.1);
                assert(present_pairs(Seq::<(Seq<char>, Option<Seq<char>>)>::empty()) =~= Seq::<(Seq<char>, Seq<char>)>::empty());
                let sq = list_query(flags, seq![some, s, t, u]);
                let uq = list_query(flags, seq![none, s, t, u]);
                assert(sq =~= base + seq![("projectId"@, p)] + rest);
                assert(uq =~= base + rest);
                assert(sq =~= uq.insert(base.len() as int, ("projectId"@, p)));
            },
            TransactionCommand::Stats(f) => {
                assert(list_query(f, seq![some]) =~= list_query(f, seq![none]).push(("projectId"@, p)));
            },
            _ => {},
        },
        V1Command::PurchaseOrders(a) => match a.command {
            PurchaseOrderCommand::List(f) => {
                assert(list_query(f, seq![some]) =~= list_query(f, seq![none]).push(("projectId"@, p)));
            },
            _ => {},
        },
        V1Command::PaymentRequests(a) => match a.command {
            PaymentRequestCommand::List(f) => {
                assert(list_query(f, seq![some]) =~= list_query(f, seq![none]).push(("projectId"@, p)));
            },
            _ => {},
        },
        V1Command::Payments(a) => match a.command {
            PaymentCommand::List(f) => {
                assert(list_query(f, seq![some]) =~= list_query(f, seq![none]).push(("projectId"@, p)));
            },
            _ => {},
        },
        _ => {},
    }
}

} // verus!
