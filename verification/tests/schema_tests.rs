use saturation::schema::{api_surface, extract_operations, is_http_method, operations_to_json, push_json_string, text_lines, Operation};

const SPEC: &str = "openapi: 3.1.0\ninfo:\n  title: x\npaths:\n  /budget/lines:\n    get:\n      operationId: budget_listLines\n      summary: \"List lines\"\n      summary: ignored\n    post:\n      summary: \"\"\n      operationId: budget_createLine\n      operationId: second\n    parameters:\n      - name: x\n  /search:\n    options:\n      description: no id\ncomponents:\n  schemas:\n    X:\n      get:\n";

fn op(path: &str, method: &str, id: Option<&str>, summary: Option<&str>) -> (String, String, Option<String>, Option<String>) {
    (path.to_string(), method.to_string(), id.map(String::from), summary.map(String::from))
}

fn views(ops: &[Operation]) -> Vec<(String, String, Option<String>, Option<String>)> {
    ops.iter().map(|o| (o.path.clone(), o.method.clone(), o.operation_id.clone(), o.summary.clone())).collect()
}

#[test]
fn scans_paths_methods_and_keys() {
    let ops = extract_operations(SPEC);
    assert_eq!(
        views(&ops),
        vec![
            op("/budget/lines", "GET", Some("budget_listLines"), Some("List lines")),
            op("/budget/lines", "POST", Some("budget_createLine"), None),
            op("/search", "OPTIONS", None, None),
        ]
    );
}

#[test]
fn scan_reads_crlf_documents_alike() {
    let crlf = SPEC.replace('\n', "\r\n");
    assert_eq!(views(&extract_operations(&crlf)), views(&extract_operations(SPEC)));
    assert!(extract_operations("openapi: 3.1.0\n").is_empty());
    assert!(extract_operations("").is_empty());
}

#[test]
fn lines_follow_str_lines() {
    for s in ["", "a", "a\n", "a\r\nb", "a\n\nb\n", "\r\n", "x\ry"] {
        let expected: Vec<String> = s.lines().map(String::from).collect();
        assert_eq!(text_lines(s), expected, "input {:?}", s);
    }
}

#[test]
fn inventory_json_is_escaped() {
    let ops = vec![
        Operation { path: "/a".into(), method: "GET".into(), operation_id: Some("a_get".into()), summary: None },
        Operation {
            path: "/b".into(),
            method: "POST".into(),
            operation_id: None,
            summary: Some("q\"b\\c\tx\u{1}".into()),
        },
    ];
    let json = operations_to_json(&ops);
    assert_eq!(
        json,
        "[{\"path\":\"/a\",\"method\":\"GET\",\"operationId\":\"a_get\",\"summary\":null},{\"path\":\"/b\",\"method\":\"POST\",\"operationId\":null,\"summary\":\"q\\\"b\\\\c\\tx\\u0001\"}]"
    );
    let parsed: serde_json::Value = serde_json::from_str(&json).unwrap();
    assert_eq!(parsed[1]["summary"], "q\"b\\c\tx\u{1}");
    assert_eq!(operations_to_json(&Vec::new()), "[]");
    let mut out = Vec::new();
    push_json_string(&mut out, "\n\r");
    assert_eq!(out.iter().collect::<String>(), "\"\\n\\r\"");
}

#[test]
fn surface_counts_operations() {
    let ops = extract_operations(SPEC);
    let s = api_surface(&ops);
    assert_eq!(s.operation_count, 3);
    assert_eq!(s.source, "bundled OpenAPI 3.1 (openapi/openapi.yaml)");
    assert_eq!(s.title, "Saturation API");
    let parsed: serde_json::Value = serde_json::from_str(&s.operations).unwrap();
    assert_eq!(parsed.as_array().unwrap().len(), 3);
    assert_eq!(parsed[0]["operationId"], "budget_listLines");
}

#[test]
fn http_methods() {
    for m in ["get", "post", "put", "patch", "delete", "head", "options"] {
        assert!(is_http_method(m));
    }
    assert!(!is_http_method("GET"));
    assert!(!is_http_method("parameters"));
}
