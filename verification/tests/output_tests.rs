use saturation::cli::OutputFormat;
use saturation::output::{csv_escape, csv_lines, format_cell, table_lines, Json, Output, Segment, Style};

fn obj(entries: Vec<(&str, Json)>, compact: &str) -> Json {
    Json::Object { entries: entries.into_iter().map(|(k, v)| (k.to_string(), v)).collect(), compact: compact.to_string() }
}

fn text(line: &[Segment]) -> String {
    line.iter().map(|s| s.text.clone()).collect()
}

#[test]
fn test_format_cell_types() {
    assert_eq!(format_cell(&Json::Null), "");
    assert_eq!(format_cell(&Json::Bool(true)), "true");
    assert_eq!(format_cell(&Json::Number("42".into())), "42");
    assert_eq!(format_cell(&Json::Str("hello".into())), "hello");
    assert_eq!(format_cell(&obj(vec![("a", Json::Number("1".into()))], "{\"a\":1}")), "{\"a\":1}");
}

#[test]
fn test_csv_escape() {
    assert_eq!(csv_escape("simple"), "simple");
    assert_eq!(csv_escape("has,comma"), "\"has,comma\"");
    assert_eq!(csv_escape("has\"quote"), "\"has\"\"quote\"");
    assert_eq!(csv_escape("has\nnewline"), "\"has\nnewline\"");
}

#[test]
fn status_lines() {
    let out = Output::new(OutputFormat::Table, false);
    let ok = out.success("done").unwrap();
    assert_eq!(text(&ok), "OK done");
    assert!(matches!(ok[0].style, Style::GreenBold));
    assert_eq!(text(&out.error("bad")), "ERROR bad");
    assert_eq!(text(&out.status("Sign in", "https://x").unwrap()), "Sign in: https://x");
    let quiet = Output::new(OutputFormat::Json, true);
    assert!(quiet.success("done").is_none());
    assert!(quiet.status("a", "b").is_none());
    assert_eq!(text(&quiet.error("bad")), "ERROR bad");
}

#[test]
fn csv_of_an_array_of_objects() {
    let rows = Json::Array {
        items: vec![
            obj(vec![("id", Json::Str("a".into())), ("name", Json::Str("x,y".into()))], ""),
            obj(vec![("id", Json::Str("b".into())), ("name", Json::Null)], ""),
        ],
        compact: String::new(),
    };
    assert_eq!(csv_lines(&rows), vec!["id,name", "a,\"x,y\"", "b,"]);
}

#[test]
fn table_of_an_array_of_objects() {
    let rows = Json::Array {
        items: vec![
            obj(vec![("id", Json::Str("a".into())), ("name", Json::Str("Alpha".into()))], ""),
            obj(vec![("id", Json::Str("bb".into())), ("name", Json::Bool(true))], ""),
        ],
        compact: String::new(),
    };
    let lines = table_lines(&rows, false).ok().unwrap();
    let texts: Vec<String> = lines.iter().map(|l| text(l)).collect();
    assert_eq!(texts, vec!["id  name ", "--  -----", "a   Alpha", "bb  true "]);
    let quiet = table_lines(&rows, true).ok().unwrap();
    assert_eq!(quiet.len(), 2);
}

#[test]
fn long_cells_are_cut_to_forty_bytes() {
    let long = "x".repeat(50);
    let rows = Json::Array {
        items: vec![obj(vec![("note", Json::Str(long))], "")],
        compact: String::new(),
    };
    let lines = table_lines(&rows, true).ok().unwrap();
    let row = text(&lines[0]);
    assert_eq!(row.len(), 40);
    assert_eq!(row, format!("{}...", "x".repeat(37)));
    let wide = Json::Array {
        items: vec![obj(vec![("note", Json::Str(format!("{}é{}", "y".repeat(36), "z".repeat(10))))], "")],
        compact: String::new(),
    };
    assert!(table_lines(&wide, true).is_err());
}

#[test]
fn csv_fields_read_back() {
    fn unquote(t: &str) -> String {
        if t.len() >= 2 && t.starts_with('"') && t.ends_with('"') {
            t[1..t.len() - 1].replace("\"\"", "\"")
        } else {
            t.to_string()
        }
    }
    for v in ["plain", "a,b", "say \"hi\"", "\"", "line\nbreak", "", "\"\""] {
        assert_eq!(unquote(&csv_escape(v)), v);
    }
}
