//! Output rendering: the library's JSON model, cell text, CSV escaping and
//! the table/CSV layouts, plus the styled status lines.

use vstd::prelude::*;
use crate::cli::OutputFormat;
use crate::text::{chars_of, has_char, vec_has_char, push_str, string_of, join_with, join_strings, strings_view, concat};

verus! {

/// A JSON value as the output layer reads it. Object entries keep the order
/// the JSON library iterates them in; an array or object also carries its
/// compact serialization as the JSON library produced it.
#[derive(Debug)]
pub enum Json {
    Null,
    Bool(bool),
    /// A number, by its JSON text.
    Number(String),
    Str(String),
    Array { items: Vec<Json>, compact: String },
    Object { entries: Vec<(String, Json)>, compact: String },
}

/// The text of a table or CSV cell: empty for null, `true`/`false`, the
/// number's text, the string itself, or the compact JSON of an array or object.
pub open spec fn cell_text(v: Json) -> Seq<char> {
    match v {
        Json::Null => Seq::empty(),
        Json::Bool(b) => if b { "true"@ } else { "false"@ },
        Json::Number(t) => t@,
        Json::Str(s) => s@,
        Json::Array { compact, .. } => compact@,
        Json::Object { compact, .. } => compact@,
    }
}

/// Formats one value as cell text.
pub fn format_cell(value: &Json) -> (s: String)
    ensures
        s@ == cell_text(*value),
{
    match value {
        Json::Null => String::new(),
        Json::Bool(b) => if *b { "true".to_owned() } else { "false".to_owned() },
        Json::Number(t) => t.clone(),
        Json::Str(s) => s.clone(),
        Json::Array { compact, .. } => compact.clone(),
        Json::Object { compact, .. } => compact.clone(),
    }
}

/// Whether a CSV field must be quoted: it holds a comma, a quote or a newline.
pub open spec fn needs_quotes(s: Seq<char>) -> bool {
    has_char(s, ',') || has_char(s, '"') || has_char(s, '\n')
}

/// `s` with every `"` doubled.
pub open spec fn double_quotes(s: Seq<char>) -> Seq<char>
    decreases s.len(),
{
    if s.len() == 0 {
        Seq::empty()
    } else {
        double_quotes(s.drop_last()) + if s.last() == '"' { seq!['"', '"'] } else { seq![s.last()] }
    }
}

/// The CSV form of a field: quoted, with inner quotes doubled, when it
/// needs quotes; unchanged otherwise.
pub open spec fn csv_field(s: Seq<char>) -> Seq<char> {
    if needs_quotes(s) {
        seq!['"'] + double_quotes(s) + seq!['"']
    } else {
        s
    }
}

/// Escapes one CSV field.
pub fn csv_escape(value: &str) -> (s: String)
    ensures
        s@ == csv_field(value@),
{
    let v = chars_of(value);
    if vec_has_char(&v, ',') || vec_has_char(&v, '"') || vec_has_char(&v, '\n') {
        let mut out: Vec<char> = Vec::new();
        out.push('"');
        let mut i: usize = 0;
        while i < v.len()
            invariant
                i <= v@.len(),
                out@ == seq!['"'] + double_quotes(v@.take(i as int)),
            decreases v@.len() - i,
        {
            if v[i] == '"' {
                out.push('"');
                out.push('"');
            } else {
                out.push(v[i]);
            }
            assert(v@.take(i + 1).drop_last() =~= v@.take(i as int));
            assert(out@ =~= seq!['"'] + double_quotes(v@.take(i + 1)));
            i = i + 1;
        }
        out.push('"');
        assert(v@.take(v@.len() as int) =~= v@);
        assert(out@ =~= csv_field(value@));
        string_of(&out)
    } else {
        value.to_owned()
    }
}

/// Text styles of terminal output.
#[derive(Clone, Copy, Debug, PartialEq, Eq, Structural)]
pub enum Style {
    Plain,
    Bold,
    GreenBold,
    RedBold,
}

/// A run of text in one style.
#[derive(Debug)]
pub struct Segment {
    pub text: String,
    pub style: Style,
}

/// Segments by content.
pub open spec fn line_view(l: Seq<Segment>) -> Seq<(Seq<char>, Style)> {
    l.map_values(|s: Segment| (s.text@, s.style))
}

/// Lines by content.
pub open spec fn lines_view(ls: Seq<Vec<Segment>>) -> Seq<Seq<(Seq<char>, Style)>> {
    ls.map_values(|l: Vec<Segment>| line_view(l@))
}

fn segment(text: String, style: Style) -> (s: Segment)
    ensures
        s.text@ == text@,
        s.style == style,
{
    Segment { text, style }
}

fn line2(a: String, sa: Style, b: String, sb: Style) -> (l: Vec<Segment>)
    ensures
        line_view(l@) == seq![(a@, sa), (b@, sb)],
{
    let l = vec![segment(a, sa), segment(b, sb)];
    assert(line_view(l@) =~= seq![(a@, sa), (b@, sb)]);
    l
}

/// The output settings: format and quietness.
pub struct Output {
    pub format: OutputFormat,
    pub quiet: bool,
}

impl Output {
    /// Output settings with the given format and quietness.
    pub fn new(format: OutputFormat, quiet: bool) -> (o: Output)
        ensures
            o.format == format,
            o.quiet == quiet,
    {
        Output { format, quiet }
    }

    /// The success line `OK {message}` (bold green `OK`), or nothing when quiet.
    pub fn success(&self, message: &str) -> (l: Option<Vec<Segment>>)
        ensures
            self.quiet ==> l is None,
            !self.quiet ==> (l matches Some(x) && line_view(x@) == seq![("OK"@, Style::GreenBold), (" "@ + message@, Style::Plain)]),
    {
        if self.quiet {
            None
        } else {
            Some(line2("OK".to_owned(), Style::GreenBold, concat(" ", message), Style::Plain))
        }
    }

    /// The error line `ERROR {message}` (bold red `ERROR`), shown even when quiet.
    pub fn error(&self, message: &str) -> (l: Vec<Segment>)
        ensures
            line_view(l@) == seq![("ERROR"@, Style::RedBold), (" "@ + message@, Style::Plain)],
    {
        line2("ERROR".to_owned(), Style::RedBold, concat(" ", message), Style::Plain)
    }

    /// The status line `{label}: {value}` (bold label), or nothing when quiet.
    pub fn status(&self, label: &str, value: &str) -> (l: Option<Vec<Segment>>)
        ensures
            self.quiet ==> l is None,
            !self.quiet ==> (l matches Some(x) && line_view(x@) == seq![(label@, Style::Bold), (": "@ + value@, Style::Plain)]),
    {
        if self.quiet {
            None
        } else {
            Some(line2(label.to_owned(), Style::Bold, concat(": ", value), Style::Plain))
        }
    }
}

/// The first entry of an object with the given key, if any.
pub open spec fn lookup(entries: Seq<(String, Json)>, key: Seq<char>) -> Option<Json>
    decreases entries.len(),
{
    if entries.len() == 0 {
        None
    } else if entries[0].0@ == key {
        Some(entries[0].1)
    } else {
        lookup(entries.drop_first(), key)
    }
}

/// The cell text of an object's entry for a column; empty when absent.
pub open spec fn entry_cell(entries: Seq<(String, Json)>, key: Seq<char>) -> Seq<char> {
    match lookup(entries, key) {
        Some(v) => cell_text(v),
        None => Seq::empty(),
    }
}

/// Formats an object's entry for a column (empty when absent).
fn entry_cell_text(entries: &Vec<(String, Json)>, key: &str) -> (s: String)
    ensures
        s@ == entry_cell(entries@, key@),
{
    let mut i: usize = 0;
    assert(entries@.skip(0) =~= entries@);
    while i < entries.len()
        invariant
            i <= entries@.len(),
            lookup(entries@, key@) == lookup(entries@.skip(i as int), key@),
        decreases entries@.len() - i,
    {
        if crate::text::str_eq(entries[i].0.as_str(), key) {
            return format_cell(&entries[i].1);
        }
        assert(entries@.skip(i as int).drop_first() =~= entries@.skip(i + 1));
        i = i + 1;
    }
    String::new()
}

/// The keys of an object, in order.
pub open spec fn keys_of(entries: Seq<(String, Json)>) -> Seq<Seq<char>> {
    entries.map_values(|e: (String, Json)| e.0@)
}

/// The CSV row of an object under the given header.
pub open spec fn csv_row(entries: Seq<(String, Json)>, headers: Seq<Seq<char>>) -> Seq<char> {
    join_with(Seq::new(headers.len(), |i: int| csv_field(entry_cell(entries, headers[i]))), seq![','])
}

/// The CSV rows of the objects among `items`, in order (other items are skipped).
pub open spec fn csv_rows(items: Seq<Json>, headers: Seq<Seq<char>>) -> Seq<Seq<char>>
    decreases items.len(),
{
    if items.len() == 0 {
        Seq::empty()
    } else {
        csv_rows(items.drop_last(), headers) + match items.last() {
            Json::Object { entries, .. } => seq![csv_row(entries@, headers)],
            _ => Seq::empty(),
        }
    }
}

/// The CSV text lines of a value: only a non-empty array whose first item is
/// an object produces output: the escaped keys of the first object, then one
/// row per object item. Anything else produces nothing.
pub open spec fn csv_text(v: Json) -> Seq<Seq<char>> {
    match v {
        Json::Array { items, .. } => if items@.len() > 0 {
            match items@[0] {
                Json::Object { entries, .. } => {
                    let headers = keys_of(entries@);
                    seq![join_with(headers.map_values(|h: Seq<char>| csv_field(h)), seq![','])] + csv_rows(items@, headers)
                },
                _ => Seq::empty(),
            }
        } else {
            Seq::empty()
        },
        _ => Seq::empty(),
    }
}

fn csv_row_text(entries: &Vec<(String, Json)>, headers: &Vec<String>) -> (s: String)
    ensures
        s@ == csv_row(entries@, strings_view(headers@)),
{
    let ghost hv = strings_view(headers@);
    let mut cells: Vec<String> = Vec::new();
    let mut i: usize = 0;
    while i < headers.len()
        invariant
            i <= headers@.len(),
            hv == strings_view(headers@),
            cells@.len() == i,
            forall|k: int| 0 <= k < i ==> #[trigger] cells@[k]@ == csv_field(entry_cell(entries@, hv[k])),
        decreases headers@.len() - i,
    {
        let c = entry_cell_text(entries, headers[i].as_str());
        cells.push(csv_escape(c.as_str()));
        i = i + 1;
    }
    proof {
        reveal_strlit(",");
        assert(","@ =~= seq![',']);
        assert(strings_view(cells@) =~= Seq::new(hv.len(), |k: int| csv_field(entry_cell(entries@, hv[k]))));
    }
    join_strings(&cells, ",")
}

/// The CSV lines of a value.
pub fn csv_lines(value: &Json) -> (ls: Vec<String>)
    ensures
        strings_view(ls@) == csv_text(*value),
{
    let mut out: Vec<String> = Vec::new();
    match value {
        Json::Array { items, .. } => {
            if items.len() == 0 {
                assert(strings_view(out@) =~= csv_text(*value));
                return out;
            }
            match &items[0] {
                Json::Object { entries, .. } => {
                    let mut headers: Vec<String> = Vec::new();
                    let mut escaped: Vec<String> = Vec::new();
                    let mut i: usize = 0;
                    while i < entries.len()
                        invariant
                            i <= entries@.len(),
                            headers@.len() == i,
                            escaped@.len() == i,
                            forall|k: int| 0 <= k < i ==> #[trigger] headers@[k]@ == entries@[k].0@,
                            forall|k: int| 0 <= k < i ==> #[trigger] escaped@[k]@ == csv_field(entries@[k].0@),
                        decreases entries@.len() - i,
                    {
                        headers.push(entries[i].0.clone());
                        escaped.push(csv_escape(entries[i].0.as_str()));
                        i = i + 1;
                    }
                    let ghost hv = keys_of(entries@);
                    assert(strings_view(headers@) =~= hv);
                    proof {
                        reveal_strlit(",");
                        assert(","@ =~= seq![',']);
                        assert(strings_view(escaped@) =~= hv.map_values(|h: Seq<char>| csv_field(h)));
                    }
                    out.push(join_strings(&escaped, ","));
                    let ghost first = strings_view(out@);
                    let mut j: usize = 0;
                    while j < items.len()
                        invariant
                            j <= items@.len(),
                            hv == strings_view(headers@),
                            strings_view(out@) == first + csv_rows(items@.take(j as int), hv),
                        decreases items@.len() - j,
                    {
                        let ghost before = out@;
                        let ghost t = items@.take(j + 1);
                        assert(t.drop_last() =~= items@.take(j as int));
                        assert(t.last() == items@[j as int]);
                        match &items[j] {
                            Json::Object { entries: e, .. } => {
                                let row = csv_row_text(e, &headers);
                                out.push(row);
                                assert(csv_rows(t, hv) == csv_rows(items@.take(j as int), hv) + seq![csv_row(e@, hv)]);
                                assert(strings_view(out@) =~= strings_view(before) + seq![row@]);
                            },
                            _ => {
                                assert(csv_rows(t, hv) == csv_rows(items@.take(j as int), hv));
                            },
                        }
                        assert(strings_view(out@) =~= first + csv_rows(t, hv));
                        j = j + 1;
                    }
                    assert(items@.take(items@.len() as int) =~= items@);
                    out
                },
                _ => {
                    assert(strings_view(out@) =~= csv_text(*value));
                    out
                },
            }
        },
        _ => {
            assert(strings_view(out@) =~= csv_text(*value));
            out
        },
    }
}

// ---------------------------------------------------------------------------
// Table layout

/// The number of bytes a character takes in UTF-8.
pub open spec fn utf8_width(c: char) -> nat {
    if (c as u32) < 0x80 {
        1
    } else if (c as u32) < 0x800 {
        2
    } else if (c as u32) < 0x10000 {
        3
    } else {
        4
    }
}

/// The UTF-8 byte length of a text (what `str::len` returns).
pub open spec fn byte_len(s: Seq<char>) -> nat
    decreases s.len(),
{
    if s.len() == 0 {
        0
    } else {
        byte_len(s.drop_last()) + utf8_width(s.last())
    }
}

fn char_width(c: char) -> (n: usize)
    ensures
        n == utf8_width(c),
{
    if (c as u32) < 0x80 {
        1
    } else if (c as u32) < 0x800 {
        2
    } else if (c as u32) < 0x10000 {
        3
    } else {
        4
    }
}

/// The smaller of two numbers.
pub open spec fn min_nat(a: nat, b: nat) -> nat {
    if a <= b { a } else { b }
}

/// The larger of two numbers.
pub open spec fn max_nat(a: nat, b: nat) -> nat {
    if a >= b { a } else { b }
}

/// The byte length of `s`, capped at `cap`.
pub(crate) fn capped_byte_len(s: &str, cap: usize) -> (n: usize)
    requires
        cap <= 64,
    ensures
        n == min_nat(byte_len(s@), cap as nat),
{
    let v = chars_of(s);
    let mut acc: usize = 0;
    let mut i: usize = 0;
    assert(v@.take(0) =~= Seq::<char>::empty());
    while i < v.len() && acc < cap
        invariant
            i <= v@.len(),
            acc == byte_len(v@.take(i as int)),
            acc < cap + 4,
            cap <= 64,
        decreases v@.len() - i,
    {
        assert(v@.take(i + 1).drop_last() =~= v@.take(i as int));
        acc = acc + char_width(v[i]);
        i = i + 1;
    }
    if acc >= cap {
        proof {
            lemma_byte_len_take_monotone(v@, i as int, v@.len() as int);
            assert(v@.take(v@.len() as int) =~= v@);
        }
        cap
    } else {
        assert(v@.take(i as int) =~= v@);
        acc
    }
}

/// Longer prefixes never have fewer bytes; strictly more when they hold more characters.
pub proof fn lemma_byte_len_take_monotone(s: Seq<char>, a: int, b: int)
    requires
        0 <= a <= b <= s.len(),
    ensures
        byte_len(s.take(a)) <= byte_len(s.take(b)),
        a < b ==> byte_len(s.take(a)) < byte_len(s.take(b)),
    decreases b - a,
{
    if a < b {
        lemma_byte_len_take_monotone(s, a, b - 1);
        assert(s.take(b).drop_last() =~= s.take(b - 1));
    }
}

/// Whether byte offset `k` of `s` falls between characters.
pub open spec fn is_boundary(s: Seq<char>, k: nat) -> bool {
    exists|j: int| 0 <= j <= s.len() && byte_len(s.take(j)) == k
}

/// The characters of `s` before byte offset `k` (meaningful at a boundary).
pub open spec fn prefix_bytes(s: Seq<char>, k: nat) -> Seq<char> {
    s.take(choose|j: int| 0 <= j <= s.len() && byte_len(s.take(j)) == k)
}

/// A cell fitted to a column width: unchanged when its byte length fits;
/// otherwise cut to `width - 3` bytes (saturating) followed by `...`. The cut
/// must fall between characters (`None` when it does not).
pub open spec fn fitted(cell: Seq<char>, w: nat) -> Option<Seq<char>> {
    if byte_len(cell) > w {
        let k: nat = if w >= 3 { (w - 3) as nat } else { 0 };
        if is_boundary(cell, k) {
            Some(prefix_bytes(cell, k) + "..."@)
        } else {
            None
        }
    } else {
        Some(cell)
    }
}

/// `n` copies of `c`.
pub open spec fn repeat_char(c: char, n: nat) -> Seq<char> {
    Seq::new(n, |i: int| c)
}

/// Left-aligned padding with spaces to `w` characters (longer text unchanged).
pub open spec fn pad(s: Seq<char>, w: nat) -> Seq<char> {
    if s.len() < w {
        s + repeat_char(' ', (w - s.len()) as nat)
    } else {
        s
    }
}

/// The cells of an object under the given columns.
pub open spec fn row_cells(entries: Seq<(String, Json)>, headers: Seq<Seq<char>>) -> Seq<Seq<char>> {
    Seq::new(headers.len(), |i: int| entry_cell(entries, headers[i]))
}

/// The rows of the objects among `items` (other items are skipped).
pub open spec fn table_rows(items: Seq<Json>, headers: Seq<Seq<char>>) -> Seq<Seq<Seq<char>>>
    decreases items.len(),
{
    if items.len() == 0 {
        Seq::empty()
    } else {
        table_rows(items.drop_last(), headers) + match items.last() {
            Json::Object { entries, .. } => seq![row_cells(entries@, headers)],
            _ => Seq::empty(),
        }
    }
}

/// The largest byte length in column `i`, starting from `start`.
pub open spec fn widest(rows: Seq<Seq<Seq<char>>>, i: int, start: nat) -> nat
    decreases rows.len(),
{
    if rows.len() == 0 {
        start
    } else {
        max_nat(widest(rows.drop_last(), i, start), byte_len(rows.last()[i]))
    }
}

/// Column widths: the widest of the header and its cells, in bytes, capped at 40.
pub open spec fn widths(headers: Seq<Seq<char>>, rows: Seq<Seq<Seq<char>>>) -> Seq<nat> {
    Seq::new(headers.len(), |i: int| min_nat(40, widest(rows, i, byte_len(headers[i]))))
}

/// One styled line of a single segment.
pub open spec fn styled(s: Seq<char>, st: Style) -> Seq<(Seq<char>, Style)> {
    seq![(s, st)]
}

/// The header line: each column name padded to its width, two spaces apart.
pub open spec fn header_line(headers: Seq<Seq<char>>, w: Seq<nat>) -> Seq<char> {
    join_with(Seq::new(headers.len(), |i: int| pad(headers[i], w[i])), "  "@)
}

/// The separator line: dashes of each column's width, two spaces apart.
pub open spec fn separator_line(w: Seq<nat>) -> Seq<char> {
    join_with(Seq::new(w.len(), |i: int| repeat_char('-', w[i])), "  "@)
}

/// Whether every cell of a row can be fitted to its column.
pub open spec fn row_fits(row: Seq<Seq<char>>, w: Seq<nat>) -> bool {
    forall|i: int| 0 <= i < w.len() ==> #[trigger] fitted(row[i], w[i]) is Some
}

/// A row line: each cell fitted and padded to its column, two spaces apart.
pub open spec fn row_line(row: Seq<Seq<char>>, w: Seq<nat>) -> Seq<char> {
    join_with(Seq::new(w.len(), |i: int| pad(fitted(row[i], w[i])->Some_0, w[i])), "  "@)
}

/// The table layout of a value (`None` where a cell cannot be cut between
/// characters). An array of objects is a table whose columns are the keys of
/// its first item: a bold header and a dashed separator (unless quiet), then
/// one line per object item. An empty array is `(no results)` (unless quiet);
/// an array whose first item is not an object lists each item's cell text. An
/// object lists `key: value` lines with bold keys; anything else is its cell text.
pub open spec fn table_text(v: Json, quiet: bool) -> Option<Seq<Seq<(Seq<char>, Style)>>> {
    match v {
        Json::Array { items, .. } => if items@.len() == 0 {
            Some(if quiet { Seq::empty() } else { seq![styled("(no results)"@, Style::Plain)] })
        } else {
            match items@[0] {
                Json::Object { entries, .. } => {
                    let headers = keys_of(entries@);
                    let rows = table_rows(items@, headers);
                    let w = widths(headers, rows);
                    if forall|r: int| 0 <= r < rows.len() ==> #[trigger] row_fits(rows[r], w) {
                        Some((if quiet {
                            Seq::empty()
                        } else {
                            seq![
                                styled(header_line(headers, w), Style::Bold),
                                styled(separator_line(w), Style::Plain),
                            ]
                        }) + rows.map_values(|row: Seq<Seq<char>>| styled(row_line(row, w), Style::Plain)))
                    } else {
                        None
                    }
                },
                _ => Some(items@.map_values(|it: Json| styled(cell_text(it), Style::Plain))),
            }
        },
        Json::Object { entries, .. } => Some(
            entries@.map_values(|e: (String, Json)| seq![(e.0@, Style::Bold), (": "@ + cell_text(e.1), Style::Plain)]),
        ),
        _ => Some(seq![styled(cell_text(v), Style::Plain)]),
    }
}

/// A table cell that cannot be cut to its column width between characters.
#[derive(Debug)]
pub struct CutInsideCharacter {
    /// The byte offset of the cut.
    pub offset: usize,
}

/// Widths as natural numbers.
pub open spec fn nat_seq(w: Seq<usize>) -> Seq<nat> {
    w.map_values(|x: usize| x as nat)
}

/// Rows by content.
pub open spec fn rows_view(rs: Seq<Vec<String>>) -> Seq<Seq<Seq<char>>> {
    rs.map_values(|r: Vec<String>| strings_view(r@))
}

/// Fits one cell to a column width.
fn fit_cell(cell: &str, w: usize) -> (r: Result<String, CutInsideCharacter>)
    requires
        w <= 40,
    ensures
        match fitted(cell@, w as nat) {
            Some(t) => r matches Ok(x) && x@ == t,
            None => r is Err,
        },
{
    let n = capped_byte_len(cell, w + 1);
    if n <= w {
        return Ok(cell.to_owned());
    }
    let k: usize = if w >= 3 { w - 3 } else { 0 };
    let v = chars_of(cell);
    let mut acc: usize = 0;
    let mut i: usize = 0;
    assert(v@.take(0) =~= Seq::<char>::empty());
    while i < v.len() && acc < k
        invariant
            i <= v@.len(),
            acc == byte_len(v@.take(i as int)),
            k <= 37,
            acc < k + 4,
            i > 0 ==> byte_len(v@.take(i - 1)) < k,
        decreases v@.len() - i,
    {
        assert(v@.take(i + 1).drop_last() =~= v@.take(i as int));
        acc = acc + char_width(v[i]);
        i = i + 1;
    }
    if acc == k {
        proof {
            assert(is_boundary(cell@, k as nat));
            let j = choose|j: int| 0 <= j <= cell@.len() && byte_len(cell@.take(j)) == k;
            if j < i {
                lemma_byte_len_take_monotone(cell@, j, i as int);
            } else if j > i {
                lemma_byte_len_take_monotone(cell@, i as int, j);
            }
            assert(j == i);
        }
        proof {
            reveal_strlit("...");
        }
        let head = cell.substring_char(0, i);
        assert(head@ =~= v@.take(i as int));
        Ok(concat(head, "..."))
    } else {
        proof {
            assert forall|j: int| 0 <= j <= cell@.len() implies byte_len(cell@.take(j)) != k by {
                if j < i {
                    lemma_byte_len_take_monotone(cell@, j, i - 1);
                } else if j > i {
                    lemma_byte_len_take_monotone(cell@, i as int, j);
                } else {
                }
            }
        }
        Err(CutInsideCharacter { offset: k })
    }
}

fn push_repeat(out: &mut Vec<char>, c: char, n: usize)
    ensures
        final(out)@ == old(out)@ + repeat_char(c, n as nat),
{
    let mut i: usize = 0;
    while i < n
        invariant
            i <= n,
            out@ == old(out)@ + repeat_char(c, i as nat),
        decreases n - i,
    {
        out.push(c);
        assert(out@ =~= old(out)@ + repeat_char(c, (i + 1) as nat));
        i = i + 1;
    }
}

/// Pads to `w` characters with spaces.
fn pad_to(s: &str, w: usize) -> (r: String)
    ensures
        r@ == pad(s@, w as nat),
{
    let mut v = chars_of(s);
    let n = v.len();
    if n < w {
        push_repeat(&mut v, ' ', w - n);
    } else {
        assert(v@ == pad(s@, w as nat));
    }
    string_of(&v)
}

/// `n` dashes.
fn dashes(n: usize) -> (r: String)
    ensures
        r@ == repeat_char('-', n as nat),
{
    let mut v: Vec<char> = Vec::new();
    push_repeat(&mut v, '-', n);
    assert(v@ =~= repeat_char('-', n as nat));
    string_of(&v)
}

fn header_text(headers: &Vec<String>, w: &Vec<usize>) -> (s: String)
    requires
        headers@.len() == w@.len(),
    ensures
        s@ == header_line(strings_view(headers@), nat_seq(w@)),
{
    let mut parts: Vec<String> = Vec::new();
    let mut i: usize = 0;
    while i < headers.len()
        invariant
            i <= headers@.len(),
            headers@.len() == w@.len(),
            parts@.len() == i,
            forall|k: int| 0 <= k < i ==> #[trigger] parts@[k]@ == pad(headers@[k]@, w@[k] as nat),
        decreases headers@.len() - i,
    {
        parts.push(pad_to(headers[i].as_str(), w[i]));
        i = i + 1;
    }
    let ghost hv = strings_view(headers@);
    let ghost nw = nat_seq(w@);
    assert(strings_view(parts@) =~= Seq::new(hv.len(), |k: int| pad(hv[k], nw[k])));
    join_strings(&parts, "  ")
}

fn separator_text(w: &Vec<usize>) -> (s: String)
    ensures
        s@ == separator_line(nat_seq(w@)),
{
    let mut parts: Vec<String> = Vec::new();
    let mut i: usize = 0;
    while i < w.len()
        invariant
            i <= w@.len(),
            parts@.len() == i,
            forall|k: int| 0 <= k < i ==> #[trigger] parts@[k]@ == repeat_char('-', w@[k] as nat),
        decreases w@.len() - i,
    {
        parts.push(dashes(w[i]));
        i = i + 1;
    }
    let ghost nw = nat_seq(w@);
    assert(strings_view(parts@) =~= Seq::new(nw.len(), |k: int| repeat_char('-', nw[k])));
    join_strings(&parts, "  ")
}

fn row_text(row: &Vec<String>, w: &Vec<usize>) -> (r: Result<String, CutInsideCharacter>)
    requires
        row@.len() == w@.len(),
        forall|k: int| 0 <= k < w@.len() ==> w@[k] <= 40,
    ensures
        match r {
            Ok(s) => row_fits(strings_view(row@), nat_seq(w@)) && s@ == row_line(strings_view(row@), nat_seq(w@)),
            Err(_) => !row_fits(strings_view(row@), nat_seq(w@)),
        },
{
    let ghost rv = strings_view(row@);
    let ghost nw = nat_seq(w@);
    let mut parts: Vec<String> = Vec::new();
    let mut i: usize = 0;
    while i < w.len()
        invariant
            i <= w@.len(),
            row@.len() == w@.len(),
            rv == strings_view(row@),
            nw == nat_seq(w@),
            forall|k: int| 0 <= k < w@.len() ==> w@[k] <= 40,
            parts@.len() == i,
            forall|k: int| 0 <= k < i ==> #[trigger] fitted(rv[k], nw[k]) is Some,
            forall|k: int| 0 <= k < i ==> #[trigger] parts@[k]@ == pad(fitted(rv[k], nw[k])->Some_0, nw[k]),
        decreases w@.len() - i,
    {
        match fit_cell(row[i].as_str(), w[i]) {
            Ok(t) => {
                parts.push(pad_to(t.as_str(), w[i]));
            },
            Err(e) => {
                assert(fitted(rv[i as int], nw[i as int]) is None);
                return Err(e);
            },
        }
        i = i + 1;
    }
    assert(strings_view(parts@) =~= Seq::new(nw.len(), |k: int| pad(fitted(rv[k], nw[k])->Some_0, nw[k])));
    Ok(join_strings(&parts, "  "))
}

fn row_cells_text(entries: &Vec<(String, Json)>, headers: &Vec<String>) -> (r: Vec<String>)
    ensures
        strings_view(r@) == row_cells(entries@, strings_view(headers@)),
{
    let ghost hv = strings_view(headers@);
    let mut cells: Vec<String> = Vec::new();
    let mut i: usize = 0;
    while i < headers.len()
        invariant
            i <= headers@.len(),
            hv == strings_view(headers@),
            cells@.len() == i,
            forall|k: int| 0 <= k < i ==> #[trigger] cells@[k]@ == entry_cell(entries@, hv[k]),
        decreases headers@.len() - i,
    {
        cells.push(entry_cell_text(entries, headers[i].as_str()));
        i = i + 1;
    }
    assert(strings_view(cells@) =~= row_cells(entries@, hv));
    cells
}

/// The column widths of a table.
fn column_widths(headers: &Vec<String>, rows: &Vec<Vec<String>>) -> (w: Vec<usize>)
    requires
        forall|r: int| 0 <= r < rows@.len() ==> #[trigger] rows@[r]@.len() == headers@.len(),
    ensures
        nat_seq(w@) == widths(strings_view(headers@), rows_view(rows@)),
        w@.len() == headers@.len(),
        forall|k: int| 0 <= k < w@.len() ==> w@[k] <= 40,
{
    let ghost hv = strings_view(headers@);
    let ghost rv = rows_view(rows@);
    let mut w: Vec<usize> = Vec::new();
    let mut i: usize = 0;
    while i < headers.len()
        invariant
            i <= headers@.len(),
            hv == strings_view(headers@),
            rv == rows_view(rows@),
            forall|r: int| 0 <= r < rows@.len() ==> #[trigger] rows@[r]@.len() == headers@.len(),
            w@.len() == i,
            forall|k: int| 0 <= k < i ==> #[trigger] w@[k] as nat == min_nat(40, widest(rv, k, byte_len(hv[k]))),
            forall|k: int| 0 <= k < i ==> w@[k] <= 40,
        decreases headers@.len() - i,
    {
        let mut acc = capped_byte_len(headers[i].as_str(), 40);
        let mut r: usize = 0;
        assert(rv.take(0) =~= Seq::<Seq<Seq<char>>>::empty());
        while r < rows.len()
            invariant
                i < headers@.len(),
                r <= rows@.len(),
                rv == rows_view(rows@),
                hv == strings_view(headers@),
                forall|q: int| 0 <= q < rows@.len() ==> #[trigger] rows@[q]@.len() == headers@.len(),
                acc as nat == min_nat(40, widest(rv.take(r as int), i as int, byte_len(hv[i as int]))),
                acc <= 40,
            decreases rows@.len() - r,
        {
            let c = capped_byte_len(rows[r][i].as_str(), 40);
            assert(rv.take(r + 1).drop_last() =~= rv.take(r as int));
            assert(rv.take(r + 1).last() == rv[r as int]);
            assert(rv[r as int][i as int] == rows@[r as int]@[i as int]@);
            if c > acc {
                acc = c;
            }
            r = r + 1;
        }
        assert(rv.take(rows@.len() as int) =~= rv);
        w.push(acc);
        i = i + 1;
    }
    assert(nat_seq(w@) =~= widths(hv, rv));
    w
}

fn single(s: String, st: Style) -> (l: Vec<Segment>)
    ensures
        line_view(l@) == styled(s@, st),
{
    let l = vec![segment(s, st)];
    assert(line_view(l@) =~= styled(s@, st));
    l
}

/// The table layout of a value: the lines to print, each a
/// sequence of styled segments. Fails only where a cell would have to be cut
/// inside a character.
#[verifier::loop_isolation(false)]
pub fn table_lines(value: &Json, quiet: bool) -> (r: Result<Vec<Vec<Segment>>, CutInsideCharacter>)
    ensures
        match table_text(*value, quiet) {
            Some(t) => r matches Ok(ls) && lines_view(ls@) == t,
            None => r is Err,
        },
{
    let mut out: Vec<Vec<Segment>> = Vec::new();
    match value {
        Json::Array { items, .. } => {
            if items.len() == 0 {
                if !quiet {
                    out.push(single("(no results)".to_owned(), Style::Plain));
                }
                assert(lines_view(out@) =~= table_text(*value, quiet)->Some_0);
                return Ok(out);
            }
            match &items[0] {
                Json::Object { entries, .. } => {
                    let mut headers: Vec<String> = Vec::new();
                    let mut i: usize = 0;
                    while i < entries.len()
                        invariant
                            i <= entries@.len(),
                            headers@.len() == i,
                            forall|k: int| 0 <= k < i ==> #[trigger] headers@[k]@ == entries@[k].0@,
                        decreases entries@.len() - i,
                    {
                        headers.push(entries[i].0.clone());
                        i = i + 1;
                    }
                    let ghost hv = keys_of(entries@);
                    assert(strings_view(headers@) =~= hv);
                    let mut rows: Vec<Vec<String>> = Vec::new();
                    let mut j: usize = 0;
                    assert(items@.take(0) =~= Seq::<Json>::empty());
                    assert(rows_view(rows@) =~= table_rows(items@.take(0), hv));
                    while j < items.len()
                        invariant
                            j <= items@.len(),
                            hv == strings_view(headers@),
                            rows_view(rows@) == table_rows(items@.take(j as int), hv),
                            forall|q: int| 0 <= q < rows@.len() ==> #[trigger] rows@[q]@.len() == headers@.len(),
                        decreases items@.len() - j,
                    {
                        let ghost before = rows@;
                        let ghost t = items@.take(j + 1);
                        assert(t.drop_last() =~= items@.take(j as int));
                        assert(t.last() == items@[j as int]);
                        match &items[j] {
                            Json::Object { entries: e, .. } => {
                                let cells = row_cells_text(e, &headers);
                                assert(strings_view(cells@).len() == cells@.len());
                                rows.push(cells);
                                assert(rows_view(rows@) =~= rows_view(before) + seq![row_cells(e@, hv)]);
                            },
                            _ => {},
                        }
                        j = j + 1;
                    }
                    assert(items@.take(items@.len() as int) =~= items@);
                    let ghost rv = rows_view(rows@);
                    let w = column_widths(&headers, &rows);
                    let ghost nw = nat_seq(w@);
                    if !quiet {
                        out.push(single(header_text(&headers, &w), Style::Bold));
                        out.push(single(separator_text(&w), Style::Plain));
                    }
                    let ghost head = lines_view(out@);
                    let mut r: usize = 0;
                    while r < rows.len()
                        invariant
                            r <= rows@.len(),
                            rv == rows_view(rows@),
                            nw == nat_seq(w@),
                            w@.len() == headers@.len(),
                            forall|q: int| 0 <= q < rows@.len() ==> #[trigger] rows@[q]@.len() == headers@.len(),
                            forall|k: int| 0 <= k < w@.len() ==> w@[k] <= 40,
                            forall|q: int| 0 <= q < r ==> #[trigger] row_fits(rv[q], nw),
                            lines_view(out@) == head + rv.take(r as int).map_values(|row: Seq<Seq<char>>| styled(row_line(row, nw), Style::Plain)),
                        decreases rows@.len() - r,
                    {
                        assert(rv[r as int] == strings_view(rows@[r as int]@));
                        match row_text(&rows[r], &w) {
                            Ok(line) => {
                                let ghost before = out@;
                                out.push(single(line, Style::Plain));
                                assert(rv.take(r + 1) =~= rv.take(r as int).push(rv[r as int]));
                                assert(lines_view(out@) =~= lines_view(before).push(styled(row_line(rv[r as int], nw), Style::Plain)));
                                assert(lines_view(out@) =~= head + rv.take(r + 1).map_values(|row: Seq<Seq<char>>| styled(row_line(row, nw), Style::Plain)));
                            },
                            Err(e) => {
                                assert(!row_fits(rv[r as int], nw));
                                return Err(e);
                            },
                        }
                        r = r + 1;
                    }
                    assert(rv.take(rows@.len() as int) =~= rv);
                    Ok(out)
                },
                _ => {
                    let mut j: usize = 0;
                    while j < items.len()
                        invariant
                            j <= items@.len(),
                            lines_view(out@) == items@.take(j as int).map_values(|it: Json| styled(cell_text(it), Style::Plain)),
                        decreases items@.len() - j,
                    {
                        let ghost before = out@;
                        out.push(single(format_cell(&items[j]), Style::Plain));
                        assert(items@.take(j + 1) =~= items@.take(j as int).push(items@[j as int]));
                        assert(lines_view(out@) =~= lines_view(before).push(styled(cell_text(items@[j as int]), Style::Plain)));
                        assert(lines_view(out@) =~= items@.take(j + 1).map_values(|it: Json| styled(cell_text(it), Style::Plain)));
                        j = j + 1;
                    }
                    assert(items@.take(items@.len() as int) =~= items@);
                    Ok(out)
                },
            }
        },
        Json::Object { entries, .. } => {
            let mut j: usize = 0;
            while j < entries.len()
                invariant
                    j <= entries@.len(),
                    lines_view(out@) == entries@.take(j as int).map_values(|e: (String, Json)| seq![(e.0@, Style::Bold), (": "@ + cell_text(e.1), Style::Plain)]),
                decreases entries@.len() - j,
            {
                let v = format_cell(&entries[j].1);
                let l = line2(entries[j].0.clone(), Style::Bold, concat(": ", v.as_str()), Style::Plain);
                let ghost before = out@;
                out.push(l);
                assert(entries@.take(j + 1) =~= entries@.take(j as int).push(entries@[j as int]));
                assert(lines_view(out@) =~= lines_view(before).push(seq![(entries@[j as int].0@, Style::Bold), (": "@ + cell_text(entries@[j as int].1), Style::Plain)]));
                assert(lines_view(out@) =~= entries@.take(j + 1).map_values(|e: (String, Json)| seq![(e.0@, Style::Bold), (": "@ + cell_text(e.1), Style::Plain)]));
                j = j + 1;
            }
            assert(entries@.take(entries@.len() as int) =~= entries@);
            Ok(out)
        },
        _ => {
            out.push(single(format_cell(value), Style::Plain));
            assert(lines_view(out@) =~= table_text(*value, quiet)->Some_0);
            Ok(out)
        },
    }
}


/// Byte lengths add up over concatenation.
proof fn lemma_byte_len_concat(a: Seq<char>, b: Seq<char>)
    ensures
        byte_len(a + b) == byte_len(a) + byte_len(b),
    decreases b.len(),
{
    if b.len() == 0 {
        assert(a + b =~= a);
    } else {
        assert((a + b).drop_last() =~= a + b.drop_last());
        lemma_byte_len_concat(a, b.drop_last());
    }
}

/// Table columns are at most 40 bytes wide, and a cell fitted to a column of
/// at least 3 bytes never takes more bytes than the column.
pub proof fn lemma_fitted_cells_fit(headers: Seq<Seq<char>>, rows: Seq<Seq<Seq<char>>>, cell: Seq<char>, w: nat)
    ensures
        forall|i: int| 0 <= i < headers.len() ==> #[trigger] widths(headers, rows)[i] <= 40,
        w >= 3 && fitted(cell, w) is Some ==> byte_len(fitted(cell, w)->Some_0) <= w,
{
    if w >= 3 && fitted(cell, w) is Some && byte_len(cell) > w {
        let k: nat = (w - 3) as nat;
        let j = choose|j: int| 0 <= j <= cell.len() && byte_len(cell.take(j)) == k;
        reveal_strlit("...");
        assert(byte_len("..."@) == 3) by {
            let d = "..."@;
            assert(d =~= seq!['.', '.', '.']);
            let e = d.drop_last().drop_last();
            assert(e.len() == 1);
            assert(e.drop_last() =~= Seq::<char>::empty());
            assert(byte_len(e.drop_last()) == 0);
            assert(e.last() == '.');
            assert(utf8_width('.') == 1);
            assert(byte_len(e) == 1);
            assert(byte_len(d.drop_last()) == 2);
        }
        lemma_byte_len_concat(cell.take(j), "..."@);
    }
}


/// A column is at least as wide as its start and as each of its cells.
proof fn lemma_widest_bounds(rows: Seq<Seq<Seq<char>>>, i: int, start: nat, r: int)
    ensures
        start <= widest(rows, i, start),
        0 <= r < rows.len() ==> byte_len(rows[r][i]) <= widest(rows, i, start),
    decreases rows.len(),
{
    if rows.len() > 0 {
        lemma_widest_bounds(rows.drop_last(), i, start, r);
        if 0 <= r < rows.len() - 1 {
            assert(rows.drop_last()[r] == rows[r]);
        }
    }
}

/// Every data cell of a table takes at most its column's width in bytes,
/// and no column is wider than 40 bytes: a cell that is too long is cut to
/// fit (where the cut falls between characters; otherwise the layout is
/// refused).
pub proof fn lemma_table_cells_within_columns(headers: Seq<Seq<char>>, rows: Seq<Seq<Seq<char>>>)
    ensures
        forall|r: int, i: int| #![trigger rows[r][i], widths(headers, rows)[i]] 0 <= r < rows.len() && 0 <= i < headers.len() ==> {
            let w = widths(headers, rows)[i];
            &&& w <= 40
            &&& (fitted(rows[r][i], w) matches Some(x) ==> byte_len(x) <= w)
        },
{
    assert forall|r: int, i: int| #![trigger rows[r][i], widths(headers, rows)[i]] 0 <= r < rows.len() && 0 <= i < headers.len() implies {
        let w = widths(headers, rows)[i];
        &&& w <= 40
        &&& (fitted(rows[r][i], w) matches Some(x) ==> byte_len(x) <= w)
    } by {
        let w = widths(headers, rows)[i];
        let cell = rows[r][i];
        lemma_widest_bounds(rows, i, byte_len(headers[i]), r);
        if byte_len(cell) > w {
            assert(w == 40);
            lemma_fitted_cells_fit(headers, rows, cell, w);
        }
    }
}


/// A column's widest value is its start or the byte length of one of its cells.
proof fn lemma_widest_attained(rows: Seq<Seq<Seq<char>>>, i: int, start: nat)
    ensures
        widest(rows, i, start) == start
            || exists|r: int| 0 <= r < rows.len() && widest(rows, i, start) == byte_len(#[trigger] rows[r][i]),
    decreases rows.len(),
{
    if rows.len() > 0 {
        let rest = rows.drop_last();
        lemma_widest_attained(rest, i, start);
        if widest(rows, i, start) != byte_len(rows.last()[i]) && widest(rest, i, start) != start {
            let r = choose|r: int| 0 <= r < rest.len() && widest(rest, i, start) == byte_len(#[trigger] rest[r][i]);
            assert(rows[r] == rest[r]);
        }
        if widest(rows, i, start) == byte_len(rows.last()[i]) {
            assert(rows[rows.len() - 1] == rows.last());
        }
    }
}

/// Each column is exactly as wide as its header or its widest cell, in
/// bytes, capped at 40: it is at least the capped length of its header and
/// of every cell under it, never over 40, and equal to one of those capped
/// lengths. So the header, the separator and every padded row line up.
pub proof fn lemma_column_widths(headers: Seq<Seq<char>>, rows: Seq<Seq<Seq<char>>>)
    ensures
        widths(headers, rows).len() == headers.len(),
        forall|i: int| #![trigger widths(headers, rows)[i]] 0 <= i < headers.len() ==> {
            let w = widths(headers, rows)[i];
            &&& w <= 40
            &&& w >= min_nat(40, byte_len(headers[i]))
            &&& forall|r: int| 0 <= r < rows.len() ==> w >= min_nat(40, byte_len(#[trigger] rows[r][i]))
            &&& w == min_nat(40, byte_len(headers[i]))
                || exists|r: int| 0 <= r < rows.len() && w == min_nat(40, byte_len(#[trigger] rows[r][i]))
        },
{
    assert forall|i: int| #![trigger widths(headers, rows)[i]] 0 <= i < headers.len() implies {
        let w = widths(headers, rows)[i];
        &&& w <= 40
        &&& w >= min_nat(40, byte_len(headers[i]))
        &&& forall|r: int| 0 <= r < rows.len() ==> w >= min_nat(40, byte_len(#[trigger] rows[r][i]))
        &&& w == min_nat(40, byte_len(headers[i]))
            || exists|r: int| 0 <= r < rows.len() && w == min_nat(40, byte_len(#[trigger] rows[r][i]))
    } by {
        let start = byte_len(headers[i]);
        lemma_widest_bounds(rows, i, start, 0);
        assert forall|r: int| 0 <= r < rows.len() implies widths(headers, rows)[i] >= min_nat(40, byte_len(#[trigger] rows[r][i])) by {
            lemma_widest_bounds(rows, i, start, r);
        }
        lemma_widest_attained(rows, i, start);
        if widest(rows, i, start) != start {
            let r = choose|r: int| 0 <= r < rows.len() && widest(rows, i, start) == byte_len(#[trigger] rows[r][i]);
            assert(widths(headers, rows)[i] == min_nat(40, byte_len(rows[r][i])));
        }
    }
}

/// The inside of a quoted CSV field read back, front to back: each `""`
/// stands for one `"`; every other character stands for itself.
pub open spec fn undouble_quotes(t: Seq<char>) -> Seq<char>
    decreases t.len(),
{
    if t.len() == 0 {
        Seq::empty()
    } else if t.len() >= 2 && t[0] == '"' && t[1] == '"' {
        seq!['"'] + undouble_quotes(t.skip(2))
    } else {
        seq![t[0]] + undouble_quotes(t.skip(1))
    }
}

/// A CSV field read back: a field wrapped in quotes loses them and has its
/// doubled quotes undone; any other field is taken as it is.
pub open spec fn csv_unquote(t: Seq<char>) -> Seq<char> {
    if t.len() >= 2 && t[0] == '"' && t.last() == '"' {
        undouble_quotes(t.subrange(1, t.len() - 1))
    } else {
        t
    }
}

/// One character with its quote doubled.
pub open spec fn double_quote_char(c: char) -> Seq<char> {
    if c == '"' {
        seq!['"', '"']
    } else {
        seq![c]
    }
}

proof fn lemma_double_quotes_cons(c: char, rest: Seq<char>)
    ensures
        double_quotes(seq![c] + rest) == double_quote_char(c) + double_quotes(rest),
    decreases rest.len(),
{
    let s = seq![c] + rest;
    if rest.len() == 0 {
        assert(s.drop_last() =~= Seq::<char>::empty());
        assert(double_quotes(s.drop_last()) =~= Seq::<char>::empty());
        assert(s.last() == c);
        assert(double_quotes(s) =~= double_quotes(s.drop_last()) + double_quote_char(s.last()));
        assert(double_quote_char(c) + double_quotes(rest) =~= double_quote_char(c));
    } else {
        assert(s.drop_last() =~= seq![c] + rest.drop_last());
        lemma_double_quotes_cons(c, rest.drop_last());
        assert(s.last() == rest.last());
        assert(double_quotes(s) =~= double_quote_char(c) + double_quotes(rest));
    }
}

proof fn lemma_undouble_double(s: Seq<char>)
    ensures
        undouble_quotes(double_quotes(s)) == s,
    decreases s.len(),
{
    if s.len() > 0 {
        let rest = s.skip(1);
        assert(s =~= seq![s[0]] + rest);
        lemma_double_quotes_cons(s[0], rest);
        lemma_undouble_double(rest);
        let t = double_quote_char(s[0]) + double_quotes(rest);
        if s[0] == '"' {
            assert(t.skip(2) =~= double_quotes(rest));
        } else {
            assert(t.skip(1) =~= double_quotes(rest));
        }
        assert(undouble_quotes(t) =~= s);
    }
}

/// Reading a CSV field back gives the value that was escaped: quotes are
/// added only around a value holding a comma, quote or newline, and its
/// quotes are doubled, so unquoting undoes both.
pub proof fn lemma_csv_field_round_trip(s: Seq<char>)
    ensures
        csv_unquote(csv_field(s)) == s,
        !needs_quotes(s) ==> csv_field(s) == s,
{
    if needs_quotes(s) {
        let t = seq!['"'] + double_quotes(s) + seq!['"'];
        assert(t.subrange(1, t.len() - 1) =~= double_quotes(s));
        lemma_undouble_double(s);
    } else if s.len() >= 2 {
        assert(!has_char(s, '"'));
        assert(s[0] != '"');
    }
}

} // verus!
