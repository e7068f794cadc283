//! Machine-readable discovery of the public API: the operation inventory
//! scanned from the bundled OpenAPI document, and its JSON form.

use vstd::prelude::*;
use crate::text::{
    chars_of, string_of, push_str, str_eq, trim, trim_start, trim_str, strip_trailing,
    strip_trailing_str, strip_leading, strip_leading_str, has_prefix, first_non_ws, join_with,
    strings_view,
};
use crate::output::{byte_len, min_nat, capped_byte_len};
use crate::auth::split_on;

verus! {

/// Where the inventory comes from, as the discovery document says.
pub const SCHEMA_SOURCE: &'static str = "bundled OpenAPI 3.1 (openapi/openapi.yaml)";

/// The API's title in the discovery document.
pub const SCHEMA_TITLE: &'static str = "Saturation API";

/// One operation of the inventory.
#[derive(Debug)]
pub struct Operation {
    pub path: String,
    pub method: String,
    pub operation_id: Option<String>,
    pub summary: Option<String>,
}

/// An optional string by its view.
pub open spec fn opt_text(o: Option<String>) -> Option<Seq<char>> {
    match o {
        Some(s) => Some(s@),
        None => None,
    }
}

impl View for Operation {
    type V = (Seq<char>, Seq<char>, Option<Seq<char>>, Option<Seq<char>>);

    open spec fn view(&self) -> Self::V {
        (self.path@, self.method@, opt_text(self.operation_id), opt_text(self.summary))
    }
}

/// Operations by their views.
pub open spec fn ops_view(ops: Seq<Operation>) -> Seq<(Seq<char>, Seq<char>, Option<Seq<char>>, Option<Seq<char>>)> {
    ops.map_values(|o: Operation| o@)
}

/// A piece without one trailing carriage return.
pub open spec fn strip_cr(p: Seq<char>) -> Seq<char> {
    if p.len() > 0 && p.last() == '\r' {
        p.drop_last()
    } else {
        p
    }
}

/// The lines of a text (`str::lines`): split at `\n`, each line without a
/// `\r` that ended it, and no empty line after a final line ending.
pub open spec fn lines_of(s: Seq<char>) -> Seq<Seq<char>> {
    let p = split_on(s, '\n');
    let ended = p.drop_last().map_values(|x: Seq<char>| strip_cr(x));
    if p.last().len() == 0 {
        ended
    } else {
        ended.push(p.last())
    }
}

/// The HTTP methods an operation is keyed by.
pub open spec fn is_http_method_spec(m: Seq<char>) -> bool {
    m == "get"@ || m == "post"@ || m == "put"@ || m == "patch"@ || m == "delete"@ || m == "head"@
        || m == "options"@
}

/// A method key in upper case.
pub open spec fn method_upper(m: Seq<char>) -> Seq<char> {
    if m == "get"@ {
        "GET"@
    } else if m == "post"@ {
        "POST"@
    } else if m == "put"@ {
        "PUT"@
    } else if m == "patch"@ {
        "PATCH"@
    } else if m == "delete"@ {
        "DELETE"@
    } else if m == "head"@ {
        "HEAD"@
    } else {
        "OPTIONS"@
    }
}

/// Whether a method key is one of the HTTP methods.
pub fn is_http_method(m: &str) -> (b: bool)
    ensures
        b == is_http_method_spec(m@),
{
    str_eq(m, "get") || str_eq(m, "post") || str_eq(m, "put") || str_eq(m, "patch") || str_eq(m, "delete")
        || str_eq(m, "head") || str_eq(m, "options")
}

/// An HTTP method key in upper case.
fn upper_method(m: &str) -> (u: String)
    requires
        is_http_method_spec(m@),
    ensures
        u@ == method_upper(m@),
{
    if str_eq(m, "get") {
        "GET".to_owned()
    } else if str_eq(m, "post") {
        "POST".to_owned()
    } else if str_eq(m, "put") {
        "PUT".to_owned()
    } else if str_eq(m, "patch") {
        "PATCH".to_owned()
    } else if str_eq(m, "delete") {
        "DELETE".to_owned()
    } else if str_eq(m, "head") {
        "HEAD".to_owned()
    } else {
        "OPTIONS".to_owned()
    }
}

/// The scanner's state: whether it is inside the `paths:` block, the current
/// path, the operation being read, the operations read, and whether the
/// block has ended.
pub struct ScanState {
    pub in_paths: bool,
    pub path: Option<Seq<char>>,
    pub current: Option<(Seq<char>, Seq<char>, Option<Seq<char>>, Option<Seq<char>>)>,
    pub ops: Seq<(Seq<char>, Seq<char>, Option<Seq<char>>, Option<Seq<char>>)>,
    pub done: bool,
}

/// The operations read, with the one being read appended.
pub open spec fn flushed(st: ScanState) -> Seq<(Seq<char>, Seq<char>, Option<Seq<char>>, Option<Seq<char>>)> {
    match st.current {
        Some(op) => st.ops.push(op),
        None => st.ops,
    }
}

/// The leading whitespace of a line.
pub open spec fn leading_ws(line: Seq<char>) -> Seq<char> {
    line.take(line.len() - trim_start(line).len())
}

/// The indentation of a line: the bytes of its leading whitespace.
pub open spec fn indent(line: Seq<char>) -> nat {
    byte_len(leading_ws(line))
}

/// A summary value: trimmed, without surrounding double quotes.
pub open spec fn summary_text(rest: Seq<char>) -> Seq<char> {
    strip_trailing(strip_leading(trim(rest), '"'), '"')
}

/// An operation after one of its 6-space keys: the first `operationId` and
/// the first non-empty `summary` are kept.
pub open spec fn annotated(
    op: (Seq<char>, Seq<char>, Option<Seq<char>>, Option<Seq<char>>),
    t: Seq<char>,
) -> (Seq<char>, Seq<char>, Option<Seq<char>>, Option<Seq<char>>) {
    if has_prefix(t, "operationId:"@) {
        if op.2 is None {
            (op.0, op.1, Some(trim(t.skip(12))), op.3)
        } else {
            op
        }
    } else if has_prefix(t, "summary:"@) {
        if op.3 is None && summary_text(t.skip(8)).len() > 0 {
            (op.0, op.1, op.2, Some(summary_text(t.skip(8))))
        } else {
            op
        }
    } else {
        op
    }
}

/// One line of the scan. The `paths:` block is entered at its column-0 key
/// and ends at the next column-0 key. Inside it, a 2-space key starting with
/// `/` is a path, a 4-space HTTP-method key starts an operation under the
/// current path, and 6-space keys annotate the operation being read.
pub open spec fn scan_step(st: ScanState, line: Seq<char>) -> ScanState {
    if st.done {
        st
    } else if line == "paths:"@ {
        ScanState { in_paths: true, ..st }
    } else if st.in_paths && line.len() > 0 && line[0] != ' ' {
        ScanState { ops: flushed(st), current: None, done: true, ..st }
    } else if !st.in_paths {
        st
    } else {
        let t = trim_start(line);
        let ind = indent(line);
        if ind == 2 && t.len() > 0 && t[0] == '/' && t.last() == ':' {
            ScanState { ops: flushed(st), current: None, path: Some(strip_trailing(t, ':')), ..st }
        } else if ind == 4 && t.len() > 0 && t.last() == ':' && is_http_method_spec(strip_trailing(t, ':')) {
            ScanState {
                ops: flushed(st),
                current: match st.path {
                    Some(p) => Some((p, method_upper(strip_trailing(t, ':')), None, None)),
                    None => None,
                },
                ..st
            }
        } else if ind == 6 && st.current is Some {
            ScanState { current: Some(annotated(st.current->0, t)), ..st }
        } else {
            st
        }
    }
}

/// The scan's state after some lines.
pub open spec fn scan(lines: Seq<Seq<char>>) -> ScanState
    decreases lines.len(),
{
    if lines.len() == 0 {
        ScanState { in_paths: false, path: None, current: None, ops: Seq::empty(), done: false }
    } else {
        scan_step(scan(lines.drop_last()), lines.last())
    }
}

/// The operations of an OpenAPI document's `paths:` block, in order.
pub open spec fn operations_of(spec: Seq<char>) -> Seq<(Seq<char>, Seq<char>, Option<Seq<char>>, Option<Seq<char>>)> {
    flushed(scan(lines_of(spec)))
}

/// The lines of a text.
pub fn text_lines(s: &str) -> (lines: Vec<String>)
    ensures
        strings_view(lines@) == lines_of(s@),
{
    let parts = crate::auth::split_char(s, '\n');
    proof {
        crate::auth::lemma_split_on_nonempty(s@, '\n');
    }
    let n = parts.len();
    let mut lines: Vec<String> = Vec::new();
    let mut i: usize = 0;
    while i + 1 < n
        invariant
            n == parts@.len(),
            n >= 1,
            i + 1 <= n,
            strings_view(parts@) == split_on(s@, '\n'),
            strings_view(lines@) == strings_view(parts@).drop_last().take(i as int).map_values(|x: Seq<char>| strip_cr(x)),
        decreases n - i,
    {
        let p = parts[i].as_str();
        let k = p.unicode_len();
        let line = if k > 0 && p.get_char(k - 1) == '\r' {
            p.substring_char(0, k - 1).to_owned()
        } else {
            p.to_owned()
        };
        proof {
            assert(parts@[i as int]@ == strings_view(parts@)[i as int]);
            if k > 0 && p@[k - 1] == '\r' {
                assert(line@ =~= p@.drop_last());
            }
            assert(line@ == strip_cr(p@));
            assert(strings_view(parts@).drop_last()[i as int] == p@);
        }
        let ghost prev = strings_view(lines@);
        let ghost lv = line@;
        lines.push(line);
        proof {
            let d = strings_view(parts@).drop_last();
            assert(strings_view(lines@) =~= prev.push(lv));
            assert(d.take(i + 1).map_values(|x: Seq<char>| strip_cr(x)) =~= d.take(i as int).map_values(
                |x: Seq<char>| strip_cr(x),
            ).push(strip_cr(d[i as int])));
        }
        i = i + 1;
    }
    let ghost d = strings_view(parts@).drop_last();
    assert(d.take(i as int) =~= d);
    let last = parts[n - 1].as_str();
    assert(last@ == strings_view(parts@).last());
    if !last.is_empty() {
        lines.push(last.to_owned());
        assert(strings_view(lines@) =~= lines_of(s@));
    } else {
        assert(strings_view(lines@) =~= lines_of(s@));
    }
    lines
}

/// The leading-whitespace split of a line: the trimmed rest and the
/// indentation, capped at 7 bytes (only 2, 4 and 6 matter).
fn split_indent(line: &str) -> (r: (String, usize))
    ensures
        r.0@ == trim_start(line@),
        r.1 == min_nat(indent(line@), 7),
{
    let v = chars_of(line);
    let k = first_non_ws(&v);
    let n = line.unicode_len();
    let lead = line.substring_char(0, k);
    let rest = line.substring_char(k, n);
    assert(lead@ =~= leading_ws(line@));
    let ind = capped_byte_len(lead, 7);
    (rest.to_owned(), ind)
}

/// The view of an optional operation.
pub open spec fn current_view(o: Option<Operation>) -> Option<(Seq<char>, Seq<char>, Option<Seq<char>>, Option<Seq<char>>)> {
    match o {
        Some(op) => Some(op@),
        None => None,
    }
}

/// Applies a 6-space key to the operation being read.
fn annotate(op: &mut Operation, t: &str)
    ensures
        final(op)@ == annotated(old(op)@, t@),
{
    let v = chars_of(t);
    let n = t.unicode_len();
    if crate::text::starts_with_str(t, "operationId:") {
        proof {
            reveal_strlit("operationId:");
        }
        if op.operation_id.is_none() {
            let rest = t.substring_char(12, n);
            assert(rest@ =~= t@.skip(12));
            op.operation_id = Some(trim_str(rest));
        }
    } else if crate::text::starts_with_str(t, "summary:") {
        proof {
            reveal_strlit("summary:");
        }
        if op.summary.is_none() {
            let rest = t.substring_char(8, n);
            assert(rest@ =~= t@.skip(8));
            let trimmed = trim_str(rest);
            let unq = strip_leading_str(trimmed.as_str(), '"');
            let s = strip_trailing_str(unq.as_str(), '"');
            if !s.as_str().is_empty() {
                op.summary = Some(s);
            }
        }
    }
}

/// Scans an OpenAPI document for its operations: every method of every path
/// in the `paths:` block, with its first `operationId` and first non-empty
/// `summary`. The document's own indentation (2-space paths, 4-space
/// methods, 6-space keys) is what the scan reads.
pub fn extract_operations(spec: &str) -> (ops: Vec<Operation>)
    ensures
        ops_view(ops@) == operations_of(spec@),
{
    let lines = text_lines(spec);
    let mut in_paths = false;
    let mut path: Option<String> = None;
    let mut current: Option<Operation> = None;
    let mut ops: Vec<Operation> = Vec::new();
    let mut done = false;
    let mut i: usize = 0;
    assert(strings_view(lines@).take(0) =~= Seq::<Seq<char>>::empty());
    assert(ops_view(ops@) =~= Seq::empty());
    while i < lines.len()
        invariant
            i <= lines@.len(),
            strings_view(lines@) == lines_of(spec@),
            scan(strings_view(lines@).take(i as int)) == (ScanState {
                in_paths,
                path: opt_text(path),
                current: current_view(current),
                ops: ops_view(ops@),
                done,
            }),
        decreases lines@.len() - i,
    {
        let ghost before = ScanState {
            in_paths,
            path: opt_text(path),
            current: current_view(current),
            ops: ops_view(ops@),
            done,
        };
        let line = lines[i].as_str();
        proof {
            let ls = strings_view(lines@).take(i + 1);
            assert(ls.drop_last() =~= strings_view(lines@).take(i as int));
            assert(ls.last() == line@);
        }
        if !done {
            if str_eq(line, "paths:") {
                in_paths = true;
            } else if in_paths && !line.is_empty() && line.get_char(0) != ' ' {
                match current.take() {
                    Some(op) => {
                        ops.push(op);
                    },
                    None => {},
                }
                done = true;
                assert(ops_view(ops@) =~= flushed(before));
            } else if in_paths {
                let (t, ind) = split_indent(line);
                let tn = t.unicode_len();
                let is_path_key = ind == 2 && tn > 0 && t.get_char(0) == '/' && t.get_char(tn - 1) == ':';
                let is_colon_key = ind == 4 && tn > 0 && t.get_char(tn - 1) == ':';
                if is_path_key {
                    match current.take() {
                        Some(op) => {
                            ops.push(op);
                        },
                        None => {},
                    }
                    assert(ops_view(ops@) =~= flushed(before));
                    path = Some(strip_trailing_str(t.as_str(), ':'));
                } else if is_colon_key && is_http_method(strip_trailing_str(t.as_str(), ':').as_str()) {
                    let verb = strip_trailing_str(t.as_str(), ':');
                    match current.take() {
                        Some(op) => {
                            ops.push(op);
                        },
                        None => {},
                    }
                    assert(ops_view(ops@) =~= flushed(before));
                    current = match &path {
                        Some(p) => Some(Operation {
                            path: p.clone(),
                            method: upper_method(verb.as_str()),
                            operation_id: None,
                            summary: None,
                        }),
                        None => None,
                    };
                } else if ind == 6 {
                    match &mut current {
                        Some(op) => {
                            annotate(op, t.as_str());
                        },
                        None => {},
                    }
                }
            }
        }
        i = i + 1;
    }
    assert(strings_view(lines@).take(lines@.len() as int) =~= strings_view(lines@));
    match current.take() {
        Some(op) => {
            ops.push(op);
        },
        None => {},
    }
    ops
}


/// A lowercase hexadecimal digit.
pub open spec fn hex_digit(d: nat) -> char {
    seq!['0', '1', '2', '3', '4', '5', '6', '7', '8', '9', 'a', 'b', 'c', 'd', 'e', 'f'][d as int]
}

/// A character inside a JSON string: `"`, `\`, newline, carriage return and
/// tab get their short escapes, other control characters `\u00XX`, the rest
/// stand as they are.
pub open spec fn escape_char(c: char) -> Seq<char> {
    if c == '"' {
        seq!['\\', '"']
    } else if c == '\\' {
        seq!['\\', '\\']
    } else if c == '\n' {
        seq!['\\', 'n']
    } else if c == '\r' {
        seq!['\\', 'r']
    } else if c == '\t' {
        seq!['\\', 't']
    } else if (c as u32) < 0x20 {
        seq!['\\', 'u', '0', '0', hex_digit((c as u32 / 16) as nat), hex_digit((c as u32 % 16) as nat)]
    } else {
        seq![c]
    }
}

/// The escaped characters of a text.
pub open spec fn escaped(s: Seq<char>) -> Seq<char>
    decreases s.len(),
{
    if s.len() == 0 {
        Seq::empty()
    } else {
        escaped(s.drop_last()) + escape_char(s.last())
    }
}

/// A text as a JSON string literal.
pub open spec fn json_string(s: Seq<char>) -> Seq<char> {
    seq!['"'] + escaped(s) + seq!['"']
}

/// An optional text as JSON: its string literal, or `null`.
pub open spec fn json_opt(o: Option<Seq<char>>) -> Seq<char> {
    match o {
        Some(s) => json_string(s),
        None => "null"@,
    }
}

/// An operation as a JSON object, keys in the order path, method,
/// operationId, summary.
pub open spec fn op_json(op: (Seq<char>, Seq<char>, Option<Seq<char>>, Option<Seq<char>>)) -> Seq<char> {
    "{\"path\":"@ + json_string(op.0) + ",\"method\":"@ + json_string(op.1) + ",\"operationId\":"@
        + json_opt(op.2) + ",\"summary\":"@ + json_opt(op.3) + "}"@
}

/// The inventory as a JSON array.
pub open spec fn ops_json(ops: Seq<(Seq<char>, Seq<char>, Option<Seq<char>>, Option<Seq<char>>)>) -> Seq<char> {
    "["@ + join_with(ops.map_values(|o: (Seq<char>, Seq<char>, Option<Seq<char>>, Option<Seq<char>>)| op_json(o)), ","@) + "]"@
}

/// A lowercase hexadecimal digit.
fn hex_char(d: u32) -> (c: char)
    requires
        d < 16,
    ensures
        c == hex_digit(d as nat),
{
    let table: Vec<char> = vec!['0', '1', '2', '3', '4', '5', '6', '7', '8', '9', 'a', 'b', 'c', 'd', 'e', 'f'];
    table[d as usize]
}

/// Appends a text as a JSON string literal.
pub fn push_json_string(out: &mut Vec<char>, s: &str)
    ensures
        final(out)@ == old(out)@ + json_string(s@),
{
    let v = chars_of(s);
    let ghost start = out@;
    out.push('"');
    let mut i: usize = 0;
    assert(v@.take(0) =~= Seq::<char>::empty());
    while i < v.len()
        invariant
            i <= v@.len(),
            v@ == s@,
            out@ == start + seq!['"'] + escaped(v@.take(i as int)),
        decreases v@.len() - i,
    {
        let c = v[i];
        let ghost before = out@;
        if c == '"' {
            out.push('\\');
            out.push('"');
        } else if c == '\\' {
            out.push('\\');
            out.push('\\');
        } else if c == '\n' {
            out.push('\\');
            out.push('n');
        } else if c == '\r' {
            out.push('\\');
            out.push('r');
        } else if c == '\t' {
            out.push('\\');
            out.push('t');
        } else if (c as u32) < 0x20 {
            out.push('\\');
            out.push('u');
            out.push('0');
            out.push('0');
            out.push(hex_char((c as u32) / 16));
            out.push(hex_char((c as u32) % 16));
        } else {
            out.push(c);
        }
        proof {
            assert(out@ =~= before + escape_char(c));
            assert(v@.take(i + 1).drop_last() =~= v@.take(i as int));
        }
        i = i + 1;
    }
    out.push('"');
    assert(v@.take(v@.len() as int) =~= v@);
    assert(out@ =~= start + json_string(s@));
}

/// Appends an optional text as JSON.
fn push_json_opt(out: &mut Vec<char>, o: &Option<String>)
    ensures
        final(out)@ == old(out)@ + json_opt(opt_text(*o)),
{
    match o {
        Some(s) => push_json_string(out, s.as_str()),
        None => {
            push_str(out, "null");
        },
    }
}

/// Appends an operation as a JSON object.
fn push_op_json(out: &mut Vec<char>, op: &Operation)
    ensures
        final(out)@ == old(out)@ + op_json(op@),
{
    let ghost start = out@;
    push_str(out, "{\"path\":");
    push_json_string(out, op.path.as_str());
    push_str(out, ",\"method\":");
    push_json_string(out, op.method.as_str());
    push_str(out, ",\"operationId\":");
    push_json_opt(out, &op.operation_id);
    push_str(out, ",\"summary\":");
    push_json_opt(out, &op.summary);
    push_str(out, "}");
    assert(out@ =~= start + op_json(op@));
}

/// The inventory as a JSON array of `{path, method, operationId, summary}`
/// objects, written without a serializer.
pub fn operations_to_json(ops: &Vec<Operation>) -> (s: String)
    ensures
        s@ == ops_json(ops_view(ops@)),
{
    let mut out: Vec<char> = Vec::new();
    push_str(&mut out, "[");
    let ghost f = |o: (Seq<char>, Seq<char>, Option<Seq<char>>, Option<Seq<char>>)| op_json(o);
    let mut i: usize = 0;
    while i < ops.len()
        invariant
            i <= ops@.len(),
            f == (|o: (Seq<char>, Seq<char>, Option<Seq<char>>, Option<Seq<char>>)| op_json(o)),
            out@ == "["@ + join_with(ops_view(ops@.take(i as int)).map_values(f), ","@),
        decreases ops@.len() - i,
    {
        let ghost before = out@;
        if i > 0 {
            push_str(&mut out, ",");
        }
        push_op_json(&mut out, &ops[i]);
        proof {
            let items = ops_view(ops@.take(i + 1)).map_values(f);
            assert(items.drop_last() =~= ops_view(ops@.take(i as int)).map_values(f));
            assert(items.last() == op_json(ops@[i as int]@));
            assert(out@ =~= "["@ + join_with(items, ","@));
        }
        i = i + 1;
    }
    push_str(&mut out, "]");
    assert(ops@.take(ops@.len() as int) =~= ops@);
    string_of(&out)
}

/// What the discovery document says of the public API: where the inventory
/// comes from, the API's title, the number of operations, and the
/// operations as JSON.
#[derive(Debug)]
pub struct ApiSurface {
    pub source: String,
    pub title: String,
    pub operation_count: usize,
    pub operations: String,
}

/// The public API's discovery entry for an inventory.
pub fn api_surface(ops: &Vec<Operation>) -> (a: ApiSurface)
    ensures
        a.source@ == SCHEMA_SOURCE@,
        a.title@ == SCHEMA_TITLE@,
        a.operation_count == ops@.len(),
        a.operations@ == ops_json(ops_view(ops@)),
{
    ApiSurface {
        source: SCHEMA_SOURCE.to_owned(),
        title: SCHEMA_TITLE.to_owned(),
        operation_count: ops.len(),
        operations: operations_to_json(ops),
    }
}


/// An operation as the inventory promises it: a path starting with `/` and
/// an upper-case HTTP method.
pub open spec fn well_formed_op(op: (Seq<char>, Seq<char>, Option<Seq<char>>, Option<Seq<char>>)) -> bool {
    &&& op.0.len() > 0
    &&& op.0[0] == '/'
    &&& (op.1 == "GET"@ || op.1 == "POST"@ || op.1 == "PUT"@ || op.1 == "PATCH"@ || op.1 == "DELETE"@
        || op.1 == "HEAD"@ || op.1 == "OPTIONS"@)
}

/// The scanner's invariant: every operation read, the one being read, and
/// the current path are well formed.
pub open spec fn scan_state_ok(st: ScanState) -> bool {
    &&& forall|i: int| 0 <= i < st.ops.len() ==> well_formed_op(#[trigger] st.ops[i])
    &&& (st.current matches Some(c) ==> well_formed_op(c))
    &&& (st.path matches Some(p) ==> p.len() > 0 && p[0] == '/')
}

proof fn lemma_strip_trailing_keeps_head(t: Seq<char>, c: char)
    requires
        t.len() > 0,
        t[0] != c,
    ensures
        strip_trailing(t, c).len() > 0,
        strip_trailing(t, c)[0] == t[0],
    decreases t.len(),
{
    if t.last() == c {
        assert(t.len() > 1);
        lemma_strip_trailing_keeps_head(t.drop_last(), c);
    }
}

proof fn lemma_scan_step_ok(st: ScanState, line: Seq<char>)
    requires
        scan_state_ok(st),
    ensures
        scan_state_ok(scan_step(st, line)),
{
    let t = trim_start(line);
    if !st.done && line != "paths:"@ && st.in_paths && !(line.len() > 0 && line[0] != ' ') {
        if indent(line) == 2 && t.len() > 0 && t[0] == '/' && t.last() == ':' {
            lemma_strip_trailing_keeps_head(t, ':');
        }
    }
    let n = scan_step(st, line);
    assert forall|i: int| 0 <= i < n.ops.len() implies well_formed_op(#[trigger] n.ops[i]) by {
        if i < st.ops.len() {
            assert(well_formed_op(st.ops[i]));
        }
    }
}

proof fn lemma_scan_ok(lines: Seq<Seq<char>>)
    ensures
        scan_state_ok(scan(lines)),
    decreases lines.len(),
{
    if lines.len() > 0 {
        lemma_scan_ok(lines.drop_last());
        lemma_scan_step_ok(scan(lines.drop_last()), lines.last());
    }
}

/// Every operation scanned from any document has a path starting with `/`
/// and an upper-case HTTP method.
pub proof fn lemma_extracted_operations_well_formed(spec: Seq<char>)
    ensures
        forall|i: int| 0 <= i < operations_of(spec).len() ==> well_formed_op(#[trigger] operations_of(spec)[i]),
{
    let st = scan(lines_of(spec));
    lemma_scan_ok(lines_of(spec));
    assert forall|i: int| 0 <= i < operations_of(spec).len() implies well_formed_op(#[trigger] operations_of(spec)[i]) by {
        if i < st.ops.len() {
            assert(well_formed_op(st.ops[i]));
        }
    }
}

} // verus!
