use saturation::v1::cli::{
    BudgetArgs, BudgetCommand, BudgetDocumentFlags, DocumentArgs, DocumentCommand, DocumentLinkKind, ListFlags,
    ProjectArgs, ProjectCommand, SearchArgs, V1Command,
};
use saturation::cli::OutputFormat;
use saturation::v1::client::{failure_report, FailureReport, interpret_response, interpret_upload_response, status_to_code, transport_error, upload_file_name, Client};
use saturation::v1::error::{ApiError, ErrorCode};
use saturation::v1::plan::{
    build_query, document_link_body, execute, requires_idempotency_key, supports_project_scope, Body, Method, PlanError,
    ResponseMode,
};

fn api_error(code: ErrorCode, message: &str) -> ApiError {
    ApiError {
        success: false,
        code,
        message: message.to_string(),
        request_id: Some("r".to_string()),
        field_errors: None,
        required_ability: None,
        retry_after: None,
        http_status: 0,
    }
}

#[test]
fn drops_none_flags_from_query() {
    let flags = ListFlags { limit: Some(10), ..Default::default() };
    let q = build_query(&flags, vec![("source", None), ("type", Some("po".into()))]);
    assert!(q.contains(&("limit".to_string(), "10".to_string())));
    assert!(q.contains(&("type".to_string(), "po".to_string())));
    assert!(!q.iter().any(|(k, _)| k == "source"));
}

#[test]
fn with_count_emits_true() {
    let flags = ListFlags { with_count: true, ..Default::default() };
    let q = build_query(&flags, vec![]);
    assert!(q.contains(&("withCount".to_string(), "true".to_string())));
}

#[test]
fn link_body_uses_target_id_and_replace_only() {
    let body = document_link_body("txn_8f2a", true);
    assert_eq!(body.target_id, "txn_8f2a");
    assert!(body.replace);
}

#[test]
fn round_trips_code_display() {
    assert_eq!(ErrorCode::AccountPathAmbiguous.to_string(), "account_path_ambiguous");
    assert_eq!(ErrorCode::AccountCodeAmbiguous.to_string(), "account_code_ambiguous");
    assert_eq!(ErrorCode::NotFound.to_string(), "not_found");
    assert_eq!(ErrorCode::BudgetComputeStale.to_string(), "budget_compute_stale");
    assert_eq!(ErrorCode::BudgetComputeTimeout.to_string(), "budget_compute_timeout");
}

#[test]
fn parses_documented_code() {
    assert_eq!(ErrorCode::from_wire("idempotency_conflict"), ErrorCode::IdempotencyConflict);
    assert_eq!(ErrorCode::from_wire("not_found"), ErrorCode::NotFound);
}

#[test]
fn tolerates_unknown_code_without_flattening() {
    let code = ErrorCode::from_wire("some_new_code");
    assert_eq!(code, ErrorCode::Other("some_new_code".into()));
    assert_eq!(code.to_string(), "some_new_code");
}

#[test]
fn renders_field_errors() {
    let mut err = api_error(ErrorCode::Validation, "bad");
    err.field_errors = Some(vec![("types".to_string(), vec!["unknown kind".to_string()])]);
    let rendered = err.render();
    assert!(rendered.contains("types: unknown kind"));
    assert!(rendered.contains("validation"));
}

#[test]
fn renders_required_ability_on_permission_revoked() {
    let mut err = api_error(ErrorCode::PermissionRevoked, "no");
    err.required_ability = Some("update:Transaction".to_string());
    assert!(err.render().contains("update:Transaction"));
}

#[test]
fn render_is_exact() {
    let mut err = api_error(ErrorCode::RateLimited, "slow down");
    err.http_status = 429;
    err.retry_after = Some(30);
    err.field_errors = Some(vec![("a".to_string(), vec!["x".to_string(), "y".to_string()])]);
    assert_eq!(err.render(), "[rate_limited] slow down (429)\n  request-id: r\n  retry-after: 30s\n  a: x; y");
}

#[test]
fn normalizes_v1_suffix() {
    let c = Client::new("https://next-api.saturation.io", "tok");
    assert_eq!(c.base_url(), "https://next-api.saturation.io/v1");
    let c2 = Client::new("https://next-api.saturation.io/v1/", "tok");
    assert_eq!(c2.base_url(), "https://next-api.saturation.io/v1");
    let c3 = Client::new("http://localhost:4300", "tok");
    assert_eq!(c3.base_url(), "http://localhost:4300/v1");
}

#[test]
fn builds_token_scoped_and_project_paths() {
    let c = Client::new("http://localhost:4300/v1", "tok");
    assert_eq!(c.ws_path("documents"), "documents");
    assert_eq!(c.project_path("my-film", "budget/lines"), "projects/my-film/budget/lines");
    assert_eq!(c.url("documents"), "http://localhost:4300/v1/documents");
    assert_eq!(c.token(), "tok");
}

#[test]
fn maps_status_to_typed_code() {
    assert_eq!(status_to_code(404), ErrorCode::NotFound);
    assert_eq!(status_to_code(429), ErrorCode::RateLimited);
    assert_eq!(status_to_code(504), ErrorCode::BudgetComputeTimeout);
}

#[test]
fn response_interpretation() {
    assert!(interpret_response(204, b"", None).unwrap().is_none());
    assert!(interpret_response(200, b"", None).unwrap().is_none());
    assert_eq!(interpret_response(200, b"{ \"b\": [1, 2], \"a\": 1 }", None).unwrap().unwrap(), "{\"a\":1,\"b\":[1,2]}");
    let bad = interpret_response(200, b"{", None).unwrap_err();
    assert_eq!(bad.code, ErrorCode::InternalError);
    assert_eq!(bad.message, "failed to parse success body: EOF while parsing an object at line 1 column 1");
    let synthetic = interpret_response(502, b"  proxy error \n", None).unwrap_err();
    assert_eq!(synthetic.code, ErrorCode::InternalError);
    assert_eq!(synthetic.message, "proxy error");
    assert_eq!(synthetic.http_status, 502);
    let typed = interpret_response(409, b"{}", Some(api_error(ErrorCode::IdempotencyConflict, "replayed"))).unwrap_err();
    assert_eq!(typed.code, ErrorCode::IdempotencyConflict);
    assert_eq!(typed.http_status, 409);
    let t = transport_error("offline".to_string());
    assert_eq!((t.code, t.http_status, t.message.as_str()), (ErrorCode::InternalError, 0, "offline"));
}

#[test]
fn upload_response_interpretation() {
    assert_eq!(interpret_upload_response(201, b"{\"id\": \"d1\"}", None).unwrap(), "{\"id\":\"d1\"}");
    let empty = interpret_upload_response(204, b"", None).unwrap_err();
    assert!(empty.message.starts_with("parse upload response: "));
    let failed = interpret_upload_response(404, b"missing", None).unwrap_err();
    assert_eq!((failed.code, failed.http_status, failed.message.as_str()), (ErrorCode::NotFound, 404, "missing"));
}

#[test]
fn upload_file_names() {
    assert_eq!(upload_file_name("invoice.pdf"), "invoice.pdf");
    assert_eq!(upload_file_name("/tmp/docs/invoice.pdf"), "invoice.pdf");
    assert_eq!(upload_file_name("docs/"), "docs");
    assert_eq!(upload_file_name("docs/."), "docs");
    assert_eq!(upload_file_name("docs/.."), "upload");
    assert_eq!(upload_file_name("/"), "upload");
    assert_eq!(upload_file_name(""), "upload");
    for p in ["a/b/c.txt", "./x", "a//b", "../y", "z/./"] {
        let expected = std::path::Path::new(p).file_name().and_then(|n| n.to_str()).unwrap_or("upload");
        assert_eq!(upload_file_name(p), expected, "path {p}");
    }
}

#[test]
fn create_requires_an_idempotency_key() {
    let client = Client::new("http://localhost:4300", "tok");
    let create = || V1Command::Projects(ProjectArgs { command: ProjectCommand::Create { data: "{ \"name\" : \"x\" }".into() } });
    assert!(requires_idempotency_key(&create()));
    let e = execute(create(), None, None, &client).err().unwrap();
    assert!(matches!(e, PlanError::MissingIdempotencyKey));
    assert_eq!(e.message(), "this create requires --idempotency-key <KEY>");
    let r = execute(create(), None, Some("k1".into()), &client).ok().unwrap();
    assert_eq!(r.method, Method::Post);
    assert_eq!(r.path, "projects");
    assert_eq!(r.idempotency_key.as_deref(), Some("k1"));
    assert!(matches!(&r.body, Body::Json { json } if json == "{\"name\":\"x\"}"));
    let bad_json = execute(
        V1Command::Projects(ProjectArgs { command: ProjectCommand::Create { data: "{".into() } }),
        None,
        Some("k".into()),
        &client,
    )
    .err()
    .unwrap();
    assert_eq!(bad_json.message(), "invalid JSON body: EOF while parsing an object at line 1 column 1");
}

#[test]
fn project_scope_rules() {
    let client = Client::new("http://localhost:4300", "tok");
    let budget = || V1Command::Budget(BudgetArgs { command: BudgetCommand::Get(BudgetDocumentFlags::default()) });
    assert!(supports_project_scope(&budget()));
    let e = execute(budget(), None, None, &client).err().unwrap();
    assert_eq!(e.message(), "this resource is project-scoped; pass --project <slug|id>");
    let r = execute(budget(), Some("film".into()), None, &client).ok().unwrap();
    assert_eq!(r.path, "projects/film/budget");
    assert_eq!(r.method, Method::Get);

    let list = || V1Command::Projects(ProjectArgs { command: ProjectCommand::List(ListFlags::default()) });
    assert!(!supports_project_scope(&list()));
    let e = execute(list(), Some("film".into()), None, &client).err().unwrap();
    assert_eq!(e.message(), "--project is not valid for this command");
}

#[test]
fn search_and_documents() {
    let client = Client::new("http://localhost:4300", "tok");
    let search = V1Command::Search(SearchArgs { query: "camera rental".into(), types: None, flags: ListFlags::default() });
    let r = execute(search, Some("p1".into()), None, &client).ok().unwrap();
    assert_eq!(r.path, "search");
    assert!(r.query.contains(&("q".to_string(), "camera rental".to_string())));
    assert!(r.query.contains(&("projectId".to_string(), "p1".to_string())));

    let content = V1Command::Documents(DocumentArgs { command: DocumentCommand::Content { document_id: "d1".into() } });
    let r = execute(content, None, None, &client).ok().unwrap();
    assert_eq!(r.response, ResponseMode::Stream);
    assert_eq!(r.path, "documents/d1/content");

    let link = V1Command::Documents(DocumentArgs {
        command: DocumentCommand::Link {
            document_id: "d1".into(),
            kind: DocumentLinkKind::PurchaseOrder,
            target_id: "po1".into(),
            replace: false,
        },
    });
    let r = execute(link, None, None, &client).ok().unwrap();
    assert_eq!(r.path, "documents/d1/links/purchaseOrder");
    match r.body {
        Body::Link(b) => {
            assert_eq!(b.target_id, "po1");
            assert!(!b.replace);
        }
        _ => panic!("expected a link body"),
    }
    assert_eq!(DocumentLinkKind::Transaction.api_name(), "transaction");
}

#[test]
fn failure_reports_follow_the_output_format() {
    let err = api_error(ErrorCode::NotFound, "missing");
    assert!(matches!(failure_report(OutputFormat::Json, &err), FailureReport::JsonLine));
    match failure_report(OutputFormat::Table, &err) {
        FailureReport::Rendered(t) => assert_eq!(t, "[not_found] missing (0)\n  request-id: r"),
        FailureReport::JsonLine => panic!("table output renders the error"),
    }
}

#[test]
fn wire_codes_read_back_unchanged() {
    for s in ["unauthenticated", "po_invalid_status", "budget_compute_timeout", "brand_new", ""] {
        assert_eq!(ErrorCode::from_wire(s).to_string(), s);
    }
}
