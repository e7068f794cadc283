//! The `/v1` transport's own logic: base-URL normalization, path building,
//! and the mapping of a response to the success/error model.

use vstd::prelude::*;
use crate::text::{
    concat, has_suffix, join_slash, slash_join, strip_leading, strip_leading_str, strip_trailing,
    strip_trailing_str, ends_with_str, trim, trim_str,
};
use crate::json::{json_bytes_parse, parse_json_bytes};
use super::error::{ApiError, ErrorCode, rendered, wire_name};
use crate::cli::OutputFormat;
use vstd::utf8::{valid_utf8, decode_utf8};
use crate::text::{str_eq, strings_view};
use crate::auth::{split_on, split_char};

verus! {

/// The `/v1` base URL for a server root: trailing slashes removed, then a
/// single `/v1` suffix ensured.
pub open spec fn normalized_base(base: Seq<char>) -> Seq<char> {
    let b = strip_trailing(base, '/');
    if has_suffix(b, "/v1"@) {
        b
    } else {
        b + "/v1"@
    }
}

/// A path relative to the `/v1` root (leading slashes removed).
pub open spec fn ws_path_of(suffix: Seq<char>) -> Seq<char> {
    strip_leading(suffix, '/')
}

/// `projects/{project}/{suffix}`, the suffix without leading slashes.
pub open spec fn project_path_of(project: Seq<char>, suffix: Seq<char>) -> Seq<char> {
    "projects/"@ + project + seq!['/'] + strip_leading(suffix, '/')
}

/// The `/v1` transport settings: the normalized base URL and the bearer
/// token. The token determines the workspace, so paths never carry one.
pub struct Client {
    base_url: String,
    token: String,
}

impl Client {
    /// The normalized base URL.
    pub closed spec fn base(&self) -> Seq<char> {
        self.base_url@
    }

    /// The bearer token.
    pub closed spec fn bearer(&self) -> Seq<char> {
        self.token@
    }

    /// Builds the transport settings, normalizing the base URL.
    pub fn new(base_url: &str, token: &str) -> (c: Client)
        ensures
            c.base() == normalized_base(base_url@),
            c.bearer() == token@,
    {
        let b = strip_trailing_str(base_url, '/');
        let base = if ends_with_str(b.as_str(), "/v1") {
            b
        } else {
            concat(b.as_str(), "/v1")
        };
        Client { base_url: base, token: token.to_owned() }
    }

    /// The normalized base URL (server root with the `/v1` suffix).
    pub fn base_url(&self) -> (s: &str)
        ensures
            s@ == self.base(),
    {
        self.base_url.as_str()
    }

    /// The bearer token.
    pub fn token(&self) -> (s: &str)
        ensures
            s@ == self.bearer(),
    {
        self.token.as_str()
    }

    /// The full URL of a path below the base.
    pub fn url(&self, path: &str) -> (s: String)
        ensures
            s@ == slash_join(self.base(), strip_leading(path@, '/')),
    {
        let p = strip_leading_str(path, '/');
        join_slash(self.base_url.as_str(), p.as_str())
    }

    /// A token-scoped resource path from the `/v1` root.
    pub fn ws_path(&self, suffix: &str) -> (s: String)
        ensures
            s@ == ws_path_of(suffix@),
    {
        strip_leading_str(suffix, '/')
    }

    /// `projects/{project}/{suffix}`; the project is a slug or canonical id.
    pub fn project_path(&self, project: &str, suffix: &str) -> (s: String)
        ensures
            s@ == project_path_of(project@, suffix@),
    {
        proof {
            reveal_strlit("projects/");
        }
        let p = concat("projects/", project);
        let rest = strip_leading_str(suffix, '/');
        join_slash(p.as_str(), rest.as_str())
    }
}

/// Normalizing an already normalized base URL changes nothing.
pub proof fn lemma_normalized_base_idempotent(base: Seq<char>)
    ensures
        normalized_base(normalized_base(base)) == normalized_base(base),
        has_suffix(normalized_base(base), "/v1"@),
{
    reveal_strlit("/v1");
    let b = strip_trailing(base, '/');
    lemma_strip_trailing_last(base, '/');
    let n = normalized_base(base);
    if !has_suffix(b, "/v1"@) {
        assert((b + "/v1"@).subrange(b.len() as int, (b + "/v1"@).len() as int) =~= "/v1"@);
    }
    assert(n.len() >= 3);
    assert(n.last() == n.subrange(n.len() - 3, n.len() as int)[2]);
    assert(n.last() == '1');
    assert(strip_trailing(n, '/') == n);
}

proof fn lemma_strip_trailing_last(s: Seq<char>, c: char)
    ensures
        strip_trailing(s, c).len() == 0 || strip_trailing(s, c).last() != c,
    decreases s.len(),
{
    if s.len() > 0 && s.last() == c {
        lemma_strip_trailing_last(s.drop_last(), c);
    }
}

/// The typed code for a bare HTTP status that carried no documented envelope.
pub open spec fn code_for_status(status: u16) -> ErrorCode {
    if status == 401 {
        ErrorCode::Unauthenticated
    } else if status == 403 {
        ErrorCode::Forbidden
    } else if status == 404 {
        ErrorCode::NotFound
    } else if status == 409 {
        ErrorCode::IdempotencyConflict
    } else if status == 413 {
        ErrorCode::BudgetTooLarge
    } else if status == 422 {
        ErrorCode::Validation
    } else if status == 429 {
        ErrorCode::RateLimited
    } else if status == 504 {
        ErrorCode::BudgetComputeTimeout
    } else {
        ErrorCode::InternalError
    }
}

/// Maps a bare HTTP status to the closest typed code, so the rendering of an
/// error never falls back to an untyped string.
pub fn status_to_code(status: u16) -> (c: ErrorCode)
    ensures
        c == code_for_status(status),
{
    match status {
        401 => ErrorCode::Unauthenticated,
        403 => ErrorCode::Forbidden,
        404 => ErrorCode::NotFound,
        409 => ErrorCode::IdempotencyConflict,
        413 => ErrorCode::BudgetTooLarge,
        422 => ErrorCode::Validation,
        429 => ErrorCode::RateLimited,
        504 => ErrorCode::BudgetComputeTimeout,
        _ => ErrorCode::InternalError,
    }
}

/// The error for a failure that happened before a response arrived (or
/// while reading it): code `internal_error`, status 0, only a message.
pub open spec fn is_transport_error(e: ApiError, message: Seq<char>) -> bool {
    &&& !e.success
    &&& e.code == ErrorCode::InternalError
    &&& e.message@ == message
    &&& e.request_id is None
    &&& e.field_errors is None
    &&& e.required_ability is None
    &&& e.retry_after is None
    &&& e.http_status == 0
}

/// Builds the error for a transport failure.
pub fn transport_error(message: String) -> (e: ApiError)
    ensures
        is_transport_error(e, message@),
        e.well_formed(),
{
    ApiError {
        success: false,
        code: ErrorCode::InternalError,
        message,
        request_id: None,
        field_errors: None,
        required_ability: None,
        retry_after: None,
        http_status: 0,
    }
}

/// The text of a byte string decoded as UTF-8, invalid sequences replaced
/// (what `String::from_utf8_lossy` returns).
pub uninterp spec fn utf8_lossy(bytes: Seq<u8>) -> Seq<char>;

/// Decodes bytes with `String::from_utf8_lossy`; the result is named by
/// `utf8_lossy`, and valid UTF-8 decodes to exactly its characters, as the
/// documentation states.
#[verifier::external_body]
pub(crate) fn lossy_utf8(bytes: &[u8]) -> (s: String)
    ensures
        s@ == utf8_lossy(bytes@),
        valid_utf8(bytes@) ==> s@ == decode_utf8(bytes@),
{
    String::from_utf8_lossy(bytes).into_owned()
}

/// Whether a status is a success (2xx).
pub open spec fn is_success_status(status: u16) -> bool {
    200 <= status && status <= 299
}

/// A success body that does not parse: a transport error carrying the
/// parser's message.
pub open spec fn parse_failure(e: ApiError, prefix: Seq<char>, message: Seq<char>) -> bool {
    is_transport_error(e, prefix + message)
}

/// How a success body is read: its parsed value (written back compactly),
/// or a transport error whose message is `prefix` and the parser's message.
pub open spec fn success_reading(body: Seq<u8>, prefix: Seq<char>, res: Result<String, ApiError>) -> bool {
    match (json_bytes_parse(body), res) {
        (Ok(v), Ok(t)) => t@ == v,
        (Err(m), Err(e)) => parse_failure(e, prefix, m),
        _ => false,
    }
}

/// How a non-empty success body is read, as `interpret_response` returns it.
pub open spec fn optional_success_reading(body: Seq<u8>, prefix: Seq<char>, res: Result<Option<String>, ApiError>) -> bool {
    match (json_bytes_parse(body), res) {
        (Ok(v), Ok(Some(t))) => t@ == v,
        (Err(m), Err(e)) => parse_failure(e, prefix, m),
        _ => false,
    }
}

/// How a response is read: a success is the bare resource, by its compact
/// JSON text (or nothing, for `204` or an empty body); a success body that
/// does not parse is a transport error with the parser's message; an error
/// is the documented envelope when the body held one (`envelope`), else a
/// synthetic envelope typed from the status and carrying the trimmed body
/// text. Either way the error records the status.
pub fn interpret_response(status: u16, body: &[u8], envelope: Option<ApiError>) -> (res: Result<
    Option<String>,
    ApiError,
>)
    requires
        envelope matches Some(e) ==> e.well_formed(),
    ensures
        is_success_status(status) && (status == 204 || body@.len() == 0) ==> (res matches Ok(v)
            && v is None),
        is_success_status(status) && status != 204 && body@.len() != 0 ==> optional_success_reading(
            body@,
            "failed to parse success body: "@,
            res,
        ),
        !is_success_status(status) ==> (res matches Err(e) && failure_error(e, status, body@, envelope)),
        res matches Err(e) ==> e.well_formed(),
{
    proof {
        reveal_strlit("failed to parse success body: ");
    }
    if 200 <= status && status <= 299 {
        if status == 204 || body.len() == 0 {
            return Ok(None);
        }
        match parse_json_bytes(body) {
            Ok(v) => Ok(Some(v)),
            Err(e) => {
                let m = concat("failed to parse success body: ", e.as_str());
                Err(transport_error(m))
            },
        }
    } else {
        Err(failed_response(status, body, envelope))
    }
}

/// Whether `s` starts with `p`.
pub open spec fn has_prefix_text(s: Seq<char>, p: Seq<char>) -> bool {
    crate::text::has_prefix(s, p)
}


/// The error a failed response becomes: the documented envelope when the
/// body held one (with the status recorded), else a synthetic envelope typed
/// from the status and carrying the trimmed body text.
pub open spec fn failure_error(e: ApiError, status: u16, body: Seq<u8>, envelope: Option<ApiError>) -> bool {
    match envelope {
        Some(x) => e == ApiError { http_status: status, ..x },
        None => {
            &&& !e.success
            &&& e.code == code_for_status(status)
            &&& e.message@ == trim(utf8_lossy(body))
            &&& e.request_id is None
            &&& e.field_errors is None
            &&& e.required_ability is None
            &&& e.retry_after is None
            &&& e.http_status == status
        },
    }
}

/// Builds the error of a failed response.
fn failed_response(status: u16, body: &[u8], envelope: Option<ApiError>) -> (e: ApiError)
    requires
        envelope matches Some(x) ==> x.well_formed(),
    ensures
        failure_error(e, status, body@, envelope),
        e.well_formed(),
{
    match envelope {
        Some(e) => {
            let mut e = e;
            e.http_status = status;
            e
        },
        None => {
            let text = lossy_utf8(body);
            ApiError {
                success: false,
                code: status_to_code(status),
                message: trim_str(text.as_str()),
                request_id: None,
                field_errors: None,
                required_ability: None,
                retry_after: None,
                http_status: status,
            }
        },
    }
}

/// How the answer to a document upload is read: a success must be a JSON
/// body (whatever its status), read as its compact JSON text, else it is a
/// transport error with the parser's message; a failure is read as for any
/// other call.
pub fn interpret_upload_response(status: u16, body: &[u8], envelope: Option<ApiError>) -> (res: Result<String, ApiError>)
    requires
        envelope matches Some(e) ==> e.well_formed(),
    ensures
        is_success_status(status) ==> success_reading(body@, "parse upload response: "@, res),
        !is_success_status(status) ==> (res matches Err(e) && failure_error(e, status, body@, envelope)),
        res matches Err(e) ==> e.well_formed(),
{
    if 200 <= status && status <= 299 {
        match parse_json_bytes(body) {
            Ok(v) => Ok(v),
            Err(e) => Err(transport_error(concat("parse upload response: ", e.as_str()))),
        }
    } else {
        Err(failed_response(status, body, envelope))
    }
}

/// The path pieces that name something: not empty and not `.`.
pub open spec fn named_pieces(path: Seq<char>) -> Seq<Seq<char>> {
    split_on(path, '/').filter(|p: Seq<char>| p.len() > 0 && p != seq!['.'])
}

/// The file name of a path (`Path::file_name`): its last named piece, unless
/// there is none or it is `..`.
pub open spec fn file_name_of(path: Seq<char>) -> Option<Seq<char>> {
    let ps = named_pieces(path);
    if ps.len() == 0 || ps.last() == seq!['.', '.'] {
        None
    } else {
        Some(ps.last())
    }
}

/// The name an uploaded file is sent under: the path's file name, or
/// `upload` when it has none.
pub fn upload_file_name(path: &str) -> (n: String)
    ensures
        n@ == match file_name_of(path@) {
            Some(f) => f,
            None => "upload"@,
        },
{
    let pieces = split_char(path, '/');
    let ghost all = strings_view(pieces@);
    let mut last: Option<String> = None;
    let mut i: usize = 0;
    let ghost keep = |p: Seq<char>| p.len() > 0 && p != seq!['.'];
    assert(all.take(0).filter(keep) =~= Seq::<Seq<char>>::empty());
    while i < pieces.len()
        invariant
            i <= pieces@.len(),
            all == strings_view(pieces@),
            keep == (|p: Seq<char>| p.len() > 0 && p != seq!['.']),
            match last {
                Some(l) => all.take(i as int).filter(keep).len() > 0 && l@ == all.take(i as int).filter(keep).last(),
                None => all.take(i as int).filter(keep).len() == 0,
            },
        decreases pieces@.len() - i,
    {
        let p = pieces[i].as_str();
        proof {
            assert(all.take(i + 1).drop_last() =~= all.take(i as int));
            assert(all.take(i + 1).last() == p@);
            reveal(Seq::filter);
        }
        if !p.is_empty() && !str_eq(p, ".") {
            proof {
                reveal_strlit(".");
                assert("."@ =~= seq!['.']);
                assert(p@ != seq!['.']);
            }
            last = Some(p.to_owned());
        } else {
            proof {
                reveal_strlit(".");
                if p@.len() > 0 {
                    assert(p@ =~= seq!['.']);
                }
            }
        }
        i = i + 1;
    }
    assert(all.take(pieces@.len() as int) =~= all);
    proof {
        reveal_strlit("..");
        reveal_strlit("upload");
    }
    match last {
        Some(l) => if str_eq(l.as_str(), "..") {
            assert(l@ =~= seq!['.', '.']);
            "upload".to_owned()
        } else {
            proof {
                assert(".."@ =~= seq!['.', '.']);
                assert(l@ != seq!['.', '.']);
            }
            l
        },
        None => "upload".to_owned(),
    }
}


/// How a failed call is reported: under JSON output, as the error envelope
/// on one line of standard error with a failing exit status; otherwise as
/// the rendered error text.
#[derive(Debug)]
pub enum FailureReport {
    JsonLine,
    Rendered(String),
}

/// Chooses how a failed call is reported.
pub fn failure_report(format: OutputFormat, err: &ApiError) -> (r: FailureReport)
    ensures
        format == OutputFormat::Json ==> r is JsonLine,
        format != OutputFormat::Json ==> (r matches FailureReport::Rendered(t) && t@ == rendered(*err)),
{
    match format {
        OutputFormat::Json => FailureReport::JsonLine,
        _ => FailureReport::Rendered(err.render()),
    }
}


/// The code of an error response that carries no documented envelope is
/// fixed by its status alone: 401 is `unauthenticated`, 403 `forbidden`,
/// 404 `not_found`, 409 `idempotency_conflict`, 413 `budget_too_large`, 422
/// `validation`, 429 `rate_limited`, 504 `budget_compute_timeout`, and every
/// other status `internal_error`.
pub proof fn lemma_status_codes(status: u16)
    ensures
        status == 401 ==> code_for_status(status) == ErrorCode::Unauthenticated,
        status == 403 ==> code_for_status(status) == ErrorCode::Forbidden,
        status == 404 ==> code_for_status(status) == ErrorCode::NotFound,
        status == 409 ==> code_for_status(status) == ErrorCode::IdempotencyConflict,
        status == 413 ==> code_for_status(status) == ErrorCode::BudgetTooLarge,
        status == 422 ==> code_for_status(status) == ErrorCode::Validation,
        status == 429 ==> code_for_status(status) == ErrorCode::RateLimited,
        status == 504 ==> code_for_status(status) == ErrorCode::BudgetComputeTimeout,
        status != 401 && status != 403 && status != 404 && status != 409 && status != 413 && status != 422
            && status != 429 && status != 504 ==> code_for_status(status) == ErrorCode::InternalError,
        wire_name(code_for_status(status)) == (if status == 401 {
            "unauthenticated"@
        } else if status == 403 {
            "forbidden"@
        } else if status == 404 {
            "not_found"@
        } else if status == 409 {
            "idempotency_conflict"@
        } else if status == 413 {
            "budget_too_large"@
        } else if status == 422 {
            "validation"@
        } else if status == 429 {
            "rate_limited"@
        } else if status == 504 {
            "budget_compute_timeout"@
        } else {
            "internal_error"@
        }),
{
}

} // verus!
