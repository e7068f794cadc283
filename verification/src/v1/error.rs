//! The public API's typed error model.

use vstd::prelude::*;
use crate::text::{join_with, str_eq, push_str, push_decimal, dec_nat, dec_int, string_of};

verus! {

/// The closed set of stable, typed error codes, plus `Other` for a code
/// outside the documented set, kept verbatim.
#[derive(Debug, PartialEq, Eq)]
pub enum ErrorCode {
    Unauthenticated,
    InvalidToken,
    MissingAuthorization,
    TokenRevoked,
    PermissionRevoked,
    ScopeExceeded,
    Forbidden,
    FeatureNotAvailable,
    RoleCeilingExceeded,
    NotFound,
    DocumentTargetNotFound,
    Validation,
    CursorInvalid,
    ExpandInvalid,
    InvalidDateRange,
    WebhookHttpsRequired,
    DocumentInvalidTargetKind,
    RangeTooLarge,
    AccountPathAmbiguous,
    AccountCodeAmbiguous,
    BudgetComputeStale,
    IdempotencyConflict,
    AlreadyAssigned,
    StatusUnreachableForSource,
    PoInvalidStatus,
    WebhookUrlInvalidSsrf,
    FieldReadOnly,
    SourceNotPostable,
    WebhookUrlBlocked,
    DocumentAssignForbidden,
    DocumentCrossWorkspaceTarget,
    BudgetTooLarge,
    BatchTooLarge,
    RateLimited,
    SigningKeyNotConfigured,
    InternalError,
    BudgetComputeTimeout,
    /// A code not in the documented set, surfaced verbatim.
    Other(String),
}

/// The wire string (snake_case) of a code.
pub open spec fn wire_name(c: ErrorCode) -> Seq<char> {
    match c {
        ErrorCode::Unauthenticated => "unauthenticated"@,
        ErrorCode::InvalidToken => "invalid_token"@,
        ErrorCode::MissingAuthorization => "missing_authorization"@,
        ErrorCode::TokenRevoked => "token_revoked"@,
        ErrorCode::PermissionRevoked => "permission_revoked"@,
        ErrorCode::ScopeExceeded => "scope_exceeded"@,
        ErrorCode::Forbidden => "forbidden"@,
        ErrorCode::FeatureNotAvailable => "feature_not_available"@,
        ErrorCode::RoleCeilingExceeded => "role_ceiling_exceeded"@,
        ErrorCode::NotFound => "not_found"@,
        ErrorCode::DocumentTargetNotFound => "document_target_not_found"@,
        ErrorCode::Validation => "validation"@,
        ErrorCode::CursorInvalid => "cursor_invalid"@,
        ErrorCode::ExpandInvalid => "expand_invalid"@,
        ErrorCode::InvalidDateRange => "invalid_date_range"@,
        ErrorCode::WebhookHttpsRequired => "webhook_https_required"@,
        ErrorCode::DocumentInvalidTargetKind => "document_invalid_target_kind"@,
        ErrorCode::RangeTooLarge => "range_too_large"@,
        ErrorCode::AccountPathAmbiguous => "account_path_ambiguous"@,
        ErrorCode::AccountCodeAmbiguous => "account_code_ambiguous"@,
        ErrorCode::BudgetComputeStale => "budget_compute_stale"@,
        ErrorCode::IdempotencyConflict => "idempotency_conflict"@,
        ErrorCode::AlreadyAssigned => "already_assigned"@,
        ErrorCode::StatusUnreachableForSource => "status_unreachable_for_source"@,
        ErrorCode::PoInvalidStatus => "po_invalid_status"@,
        ErrorCode::WebhookUrlInvalidSsrf => "webhook_url_invalid_ssrf"@,
        ErrorCode::FieldReadOnly => "field_read_only"@,
        ErrorCode::SourceNotPostable => "source_not_postable"@,
        ErrorCode::WebhookUrlBlocked => "webhook_url_blocked"@,
        ErrorCode::DocumentAssignForbidden => "document_assign_forbidden"@,
        ErrorCode::DocumentCrossWorkspaceTarget => "document_cross_workspace_target"@,
        ErrorCode::BudgetTooLarge => "budget_too_large"@,
        ErrorCode::BatchTooLarge => "batch_too_large"@,
        ErrorCode::RateLimited => "rate_limited"@,
        ErrorCode::SigningKeyNotConfigured => "signing_key_not_configured"@,
        ErrorCode::InternalError => "internal_error"@,
        ErrorCode::BudgetComputeTimeout => "budget_compute_timeout"@,
        ErrorCode::Other(s) => s@,
    }
}

/// The documented code whose wire string is `s`, if any.
pub open spec fn documented_code(s: Seq<char>) -> Option<ErrorCode> {
    if s == "unauthenticated"@ {
        Some(ErrorCode::Unauthenticated)
    } else if s == "invalid_token"@ {
        Some(ErrorCode::InvalidToken)
    } else if s == "missing_authorization"@ {
        Some(ErrorCode::MissingAuthorization)
    } else if s == "token_revoked"@ {
        Some(ErrorCode::TokenRevoked)
    } else if s == "permission_revoked"@ {
        Some(ErrorCode::PermissionRevoked)
    } else if s == "scope_exceeded"@ {
        Some(ErrorCode::ScopeExceeded)
    } else if s == "forbidden"@ {
        Some(ErrorCode::Forbidden)
    } else if s == "feature_not_available"@ {
        Some(ErrorCode::FeatureNotAvailable)
    } else if s == "role_ceiling_exceeded"@ {
        Some(ErrorCode::RoleCeilingExceeded)
    } else if s == "not_found"@ {
        Some(ErrorCode::NotFound)
    } else if s == "document_target_not_found"@ {
        Some(ErrorCode::DocumentTargetNotFound)
    } else if s == "validation"@ {
        Some(ErrorCode::Validation)
    } else if s == "cursor_invalid"@ {
        Some(ErrorCode::CursorInvalid)
    } else if s == "expand_invalid"@ {
        Some(ErrorCode::ExpandInvalid)
    } else if s == "invalid_date_range"@ {
        Some(ErrorCode::InvalidDateRange)
    } else if s == "webhook_https_required"@ {
        Some(ErrorCode::WebhookHttpsRequired)
    } else if s == "document_invalid_target_kind"@ {
        Some(ErrorCode::DocumentInvalidTargetKind)
    } else if s == "range_too_large"@ {
        Some(ErrorCode::RangeTooLarge)
    } else if s == "account_path_ambiguous"@ {
        Some(ErrorCode::AccountPathAmbiguous)
    } else if s == "account_code_ambiguous"@ {
        Some(ErrorCode::AccountCodeAmbiguous)
    } else if s == "budget_compute_stale"@ {
        Some(ErrorCode::BudgetComputeStale)
    } else if s == "idempotency_conflict"@ {
        Some(ErrorCode::IdempotencyConflict)
    } else if s == "already_assigned"@ {
        Some(ErrorCode::AlreadyAssigned)
    } else if s == "status_unreachable_for_source"@ {
        Some(ErrorCode::StatusUnreachableForSource)
    } else if s == "po_invalid_status"@ {
        Some(ErrorCode::PoInvalidStatus)
    } else if s == "webhook_url_invalid_ssrf"@ {
        Some(ErrorCode::WebhookUrlInvalidSsrf)
    } else if s == "field_read_only"@ {
        Some(ErrorCode::FieldReadOnly)
    } else if s == "source_not_postable"@ {
        Some(ErrorCode::SourceNotPostable)
    } else if s == "webhook_url_blocked"@ {
        Some(ErrorCode::WebhookUrlBlocked)
    } else if s == "document_assign_forbidden"@ {
        Some(ErrorCode::DocumentAssignForbidden)
    } else if s == "document_cross_workspace_target"@ {
        Some(ErrorCode::DocumentCrossWorkspaceTarget)
    } else if s == "budget_too_large"@ {
        Some(ErrorCode::BudgetTooLarge)
    } else if s == "batch_too_large"@ {
        Some(ErrorCode::BatchTooLarge)
    } else if s == "rate_limited"@ {
        Some(ErrorCode::RateLimited)
    } else if s == "signing_key_not_configured"@ {
        Some(ErrorCode::SigningKeyNotConfigured)
    } else if s == "internal_error"@ {
        Some(ErrorCode::InternalError)
    } else if s == "budget_compute_timeout"@ {
        Some(ErrorCode::BudgetComputeTimeout)
    } else {
        None
    }
}

impl ErrorCode {
    /// The wire string of this code; an undocumented code is returned verbatim.
    pub fn to_string(&self) -> (s: String)
        ensures
            s@ == wire_name(*self),
    {
        match self {
            ErrorCode::Unauthenticated => "unauthenticated".to_owned(),
            ErrorCode::InvalidToken => "invalid_token".to_owned(),
            ErrorCode::MissingAuthorization => "missing_authorization".to_owned(),
            ErrorCode::TokenRevoked => "token_revoked".to_owned(),
            ErrorCode::PermissionRevoked => "permission_revoked".to_owned(),
            ErrorCode::ScopeExceeded => "scope_exceeded".to_owned(),
            ErrorCode::Forbidden => "forbidden".to_owned(),
            ErrorCode::FeatureNotAvailable => "feature_not_available".to_owned(),
            ErrorCode::RoleCeilingExceeded => "role_ceiling_exceeded".to_owned(),
            ErrorCode::NotFound => "not_found".to_owned(),
            ErrorCode::DocumentTargetNotFound => "document_target_not_found".to_owned(),
            ErrorCode::Validation => "validation".to_owned(),
            ErrorCode::CursorInvalid => "cursor_invalid".to_owned(),
            ErrorCode::ExpandInvalid => "expand_invalid".to_owned(),
            ErrorCode::InvalidDateRange => "invalid_date_range".to_owned(),
            ErrorCode::WebhookHttpsRequired => "webhook_https_required".to_owned(),
            ErrorCode::DocumentInvalidTargetKind => "document_invalid_target_kind".to_owned(),
            ErrorCode::RangeTooLarge => "range_too_large".to_owned(),
            ErrorCode::AccountPathAmbiguous => "account_path_ambiguous".to_owned(),
            ErrorCode::AccountCodeAmbiguous => "account_code_ambiguous".to_owned(),
            ErrorCode::BudgetComputeStale => "budget_compute_stale".to_owned(),
            ErrorCode::IdempotencyConflict => "idempotency_conflict".to_owned(),
            ErrorCode::AlreadyAssigned => "already_assigned".to_owned(),
            ErrorCode::StatusUnreachableForSource => "status_unreachable_for_source".to_owned(),
            ErrorCode::PoInvalidStatus => "po_invalid_status".to_owned(),
            ErrorCode::WebhookUrlInvalidSsrf => "webhook_url_invalid_ssrf".to_owned(),
            ErrorCode::FieldReadOnly => "field_read_only".to_owned(),
            ErrorCode::SourceNotPostable => "source_not_postable".to_owned(),
            ErrorCode::WebhookUrlBlocked => "webhook_url_blocked".to_owned(),
            ErrorCode::DocumentAssignForbidden => "document_assign_forbidden".to_owned(),
            ErrorCode::DocumentCrossWorkspaceTarget => "document_cross_workspace_target".to_owned(),
            ErrorCode::BudgetTooLarge => "budget_too_large".to_owned(),
            ErrorCode::BatchTooLarge => "batch_too_large".to_owned(),
            ErrorCode::RateLimited => "rate_limited".to_owned(),
            ErrorCode::SigningKeyNotConfigured => "signing_key_not_configured".to_owned(),
            ErrorCode::InternalError => "internal_error".to_owned(),
            ErrorCode::BudgetComputeTimeout => "budget_compute_timeout".to_owned(),
            ErrorCode::Other(s) => s.clone(),
        }
    }

    /// The code carried by a wire string: the documented code of that name,
    /// or `Other` holding the string unchanged.
    pub fn from_wire(s: &str) -> (c: ErrorCode)
        ensures
            match documented_code(s@) {
                Some(d) => c == d,
                None => c is Other && wire_name(c) == s@,
            },
    {
        if str_eq(s, "unauthenticated") {
            ErrorCode::Unauthenticated
        } else if str_eq(s, "invalid_token") {
            ErrorCode::InvalidToken
        } else if str_eq(s, "missing_authorization") {
            ErrorCode::MissingAuthorization
        } else if str_eq(s, "token_revoked") {
            ErrorCode::TokenRevoked
        } else if str_eq(s, "permission_revoked") {
            ErrorCode::PermissionRevoked
        } else if str_eq(s, "scope_exceeded") {
            ErrorCode::ScopeExceeded
        } else if str_eq(s, "forbidden") {
            ErrorCode::Forbidden
        } else if str_eq(s, "feature_not_available") {
            ErrorCode::FeatureNotAvailable
        } else if str_eq(s, "role_ceiling_exceeded") {
            ErrorCode::RoleCeilingExceeded
        } else if str_eq(s, "not_found") {
            ErrorCode::NotFound
        } else if str_eq(s, "document_target_not_found") {
            ErrorCode::DocumentTargetNotFound
        } else if str_eq(s, "validation") {
            ErrorCode::Validation
        } else if str_eq(s, "cursor_invalid") {
            ErrorCode::CursorInvalid
        } else if str_eq(s, "expand_invalid") {
            ErrorCode::ExpandInvalid
        } else if str_eq(s, "invalid_date_range") {
            ErrorCode::InvalidDateRange
        } else if str_eq(s, "webhook_https_required") {
            ErrorCode::WebhookHttpsRequired
        } else if str_eq(s, "document_invalid_target_kind") {
            ErrorCode::DocumentInvalidTargetKind
        } else if str_eq(s, "range_too_large") {
            ErrorCode::RangeTooLarge
        } else if str_eq(s, "account_path_ambiguous") {
            ErrorCode::AccountPathAmbiguous
        } else if str_eq(s, "account_code_ambiguous") {
            ErrorCode::AccountCodeAmbiguous
        } else if str_eq(s, "budget_compute_stale") {
            ErrorCode::BudgetComputeStale
        } else if str_eq(s, "idempotency_conflict") {
            ErrorCode::IdempotencyConflict
        } else if str_eq(s, "already_assigned") {
            ErrorCode::AlreadyAssigned
        } else if str_eq(s, "status_unreachable_for_source") {
            ErrorCode::StatusUnreachableForSource
        } else if str_eq(s, "po_invalid_status") {
            ErrorCode::PoInvalidStatus
        } else if str_eq(s, "webhook_url_invalid_ssrf") {
            ErrorCode::WebhookUrlInvalidSsrf
        } else if str_eq(s, "field_read_only") {
            ErrorCode::FieldReadOnly
        } else if str_eq(s, "source_not_postable") {
            ErrorCode::SourceNotPostable
        } else if str_eq(s, "webhook_url_blocked") {
            ErrorCode::WebhookUrlBlocked
        } else if str_eq(s, "document_assign_forbidden") {
            ErrorCode::DocumentAssignForbidden
        } else if str_eq(s, "document_cross_workspace_target") {
            ErrorCode::DocumentCrossWorkspaceTarget
        } else if str_eq(s, "budget_too_large") {
            ErrorCode::BudgetTooLarge
        } else if str_eq(s, "batch_too_large") {
            ErrorCode::BatchTooLarge
        } else if str_eq(s, "rate_limited") {
            ErrorCode::RateLimited
        } else if str_eq(s, "signing_key_not_configured") {
            ErrorCode::SigningKeyNotConfigured
        } else if str_eq(s, "internal_error") {
            ErrorCode::InternalError
        } else if str_eq(s, "budget_compute_timeout") {
            ErrorCode::BudgetComputeTimeout
        } else {
            ErrorCode::Other(s.to_owned())
        }
    }
}


/// The uniform error envelope of the API. Field errors are kept as an
/// ordered list of `(field, messages)` pairs.
#[derive(Debug)]
pub struct ApiError {
    /// Always `false` on the wire; kept to document the shape.
    pub success: bool,
    pub code: ErrorCode,
    pub message: String,
    pub request_id: Option<String>,
    /// Present on validation / mass-assignment failures.
    pub field_errors: Option<Vec<(String, Vec<String>)>>,
    /// Present on `permission_revoked`: the missing `action:subject` ability.
    pub required_ability: Option<String>,
    /// Present on `rate_limited`: seconds to wait before retrying.
    pub retry_after: Option<i64>,
    /// HTTP status the error arrived with (not on the wire).
    pub http_status: u16,
}

/// The messages of a field, as character sequences.
pub open spec fn messages_view(msgs: Seq<String>) -> Seq<Seq<char>> {
    msgs.map_values(|m: String| m@)
}

/// One rendered field-error line: `\n  {field}: {msg; msg; ...}`.
pub open spec fn field_line(f: (String, Vec<String>)) -> Seq<char> {
    seq!['\n', ' ', ' '] + f.0@ + seq![':', ' '] + join_with(messages_view(f.1@), seq![';', ' '])
}

/// All rendered field-error lines, in order.
pub open spec fn field_lines(fs: Seq<(String, Vec<String>)>) -> Seq<char>
    decreases fs.len(),
{
    if fs.len() == 0 {
        Seq::empty()
    } else {
        field_lines(fs.drop_last()) + field_line(fs.last())
    }
}

/// `{prefix}{value}` when the value is present, nothing otherwise.
pub open spec fn optional_line(prefix: Seq<char>, value: Option<String>) -> Seq<char> {
    match value {
        Some(v) => prefix + v@,
        None => Seq::empty(),
    }
}

/// The multi-line terminal rendering of an error:
/// `[{code}] {message} ({status})`, then one line for each of request id,
/// required ability, retry-after and each field error that is present.
pub open spec fn rendered(e: ApiError) -> Seq<char> {
    seq!['['] + wire_name(e.code) + seq![']', ' '] + e.message@ + seq![' ', '('] + dec_nat(
        e.http_status as nat,
    ) + seq![')'] + optional_line("\n  request-id: "@, e.request_id) + optional_line(
        "\n  required-ability: "@,
        e.required_ability,
    ) + match e.retry_after {
        Some(a) => "\n  retry-after: "@ + dec_int(a as int) + seq!['s'],
        None => Seq::empty(),
    } + match e.field_errors {
        Some(fs) => field_lines(fs@),
        None => Seq::empty(),
    }
}

fn push_joined(out: &mut Vec<char>, msgs: &Vec<String>)
    ensures
        final(out)@ == old(out)@ + join_with(messages_view(msgs@), seq![';', ' ']),
{
    proof {
        reveal_strlit("; ");
        assert("; "@ =~= seq![';', ' ']);
    }
    let ghost start = out@;
    let mut i: usize = 0;
    while i < msgs.len()
        invariant
            i <= msgs@.len(),
            out@ == start + join_with(messages_view(msgs@.take(i as int)), seq![';', ' ']),
            "; "@ == seq![';', ' '],
        decreases msgs@.len() - i,
    {
        let ghost before = out@;
        if i > 0 {
            push_str(out, "; ");
        }
        push_str(out, msgs[i].as_str());
        proof {
            let items = messages_view(msgs@.take(i + 1));
            assert(items.drop_last() =~= messages_view(msgs@.take(i as int)));
            assert(items.last() == msgs@[i as int]@);
            if i == 0 {
                assert(items.len() == 1);
                assert(out@ =~= start + join_with(items, seq![';', ' ']));
            } else {
                assert(out@ =~= start + join_with(items, seq![';', ' ']));
            }
        }
        i = i + 1;
    }
    assert(msgs@.take(msgs@.len() as int) =~= msgs@);
}

fn push_field_lines(out: &mut Vec<char>, fs: &Vec<(String, Vec<String>)>)
    ensures
        final(out)@ == old(out)@ + field_lines(fs@),
{
    proof {
        reveal_strlit("\n  ");
        reveal_strlit(": ");
        assert("\n  "@ =~= seq!['\n', ' ', ' ']);
        assert(": "@ =~= seq![':', ' ']);
    }
    let ghost start = out@;
    let mut i: usize = 0;
    while i < fs.len()
        invariant
            i <= fs@.len(),
            out@ == start + field_lines(fs@.take(i as int)),
            "\n  "@ == seq!['\n', ' ', ' '],
            ": "@ == seq![':', ' '],
        decreases fs@.len() - i,
    {
        push_str(out, "\n  ");
        push_str(out, fs[i].0.as_str());
        push_str(out, ": ");
        push_joined(out, &fs[i].1);
        proof {
            let t = fs@.take(i + 1);
            assert(t.drop_last() =~= fs@.take(i as int));
            assert(t.last() == fs@[i as int]);
            assert(out@ =~= start + field_lines(t));
        }
        i = i + 1;
    }
    assert(fs@.take(fs@.len() as int) =~= fs@);
}

/// No field is named twice among the field errors.
pub open spec fn field_keys_unique(fs: Seq<(String, Vec<String>)>) -> bool {
    forall|i: int, j: int| 0 <= i < j < fs.len() ==> #[trigger] fs[i].0@ != #[trigger] fs[j].0@
}

impl ApiError {
    /// The envelope's invariant: its field errors are keyed by distinct
    /// field names.
    pub open spec fn well_formed(&self) -> bool {
        match self.field_errors {
            Some(fs) => field_keys_unique(fs@),
            None => true,
        }
    }

    /// Renders a self-diagnosable, multi-line error for the terminal. The
    /// typed code is always preserved.
    pub fn render(&self) -> (s: String)
        ensures
            s@ == rendered(*self),
    {
        proof {
            reveal_strlit("[");
            reveal_strlit("] ");
            reveal_strlit(" (");
            reveal_strlit(")");
            reveal_strlit("s");
            assert("["@ =~= seq!['[']);
            assert("] "@ =~= seq![']', ' ']);
            assert(" ("@ =~= seq![' ', '(']);
            assert(")"@ =~= seq![')']);
            assert("s"@ =~= seq!['s']);
        }
        let mut out: Vec<char> = Vec::new();
        push_str(&mut out, "[");
        let code = self.code.to_string();
        push_str(&mut out, code.as_str());
        push_str(&mut out, "] ");
        push_str(&mut out, self.message.as_str());
        push_str(&mut out, " (");
        push_decimal(&mut out, self.http_status as u64);
        push_str(&mut out, ")");
        let ghost head = out@;
        if let Some(rid) = &self.request_id {
            push_str(&mut out, "\n  request-id: ");
            push_str(&mut out, rid.as_str());
        }
        let ghost with_rid = out@;
        assert(with_rid == head + optional_line("\n  request-id: "@, self.request_id));
        if let Some(ability) = &self.required_ability {
            push_str(&mut out, "\n  required-ability: ");
            push_str(&mut out, ability.as_str());
        }
        let ghost with_ability = out@;
        assert(with_ability == with_rid + optional_line("\n  required-ability: "@, self.required_ability));
        if let Some(after) = self.retry_after {
            push_str(&mut out, "\n  retry-after: ");
            let t = crate::text::decimal_i64(after);
            push_str(&mut out, t.as_str());
            push_str(&mut out, "s");
        }
        let ghost with_after = out@;
        if let Some(fields) = &self.field_errors {
            push_field_lines(&mut out, fields);
        }
        assert(out@ =~= rendered(*self));
        string_of(&out)
    }
}

/// Reading back the wire string of a documented code gives the same code:
/// no documented code is flattened into another or into `Other`.
#[verifier::spinoff_prover]
#[verifier::rlimit(60)]
pub proof fn lemma_documented_code_round_trip(c: ErrorCode)
    requires
        !(c is Other),
    ensures
        documented_code(wire_name(c)) == Some(c),
{
    match c {
        ErrorCode::Unauthenticated => {
            reveal_strlit("unauthenticated");
        },
        ErrorCode::InvalidToken => {
            reveal_strlit("invalid_token");
            reveal_strlit("unauthenticated");
            assert("unauthenticated"@.len() != "invalid_token"@.len());
        },
        ErrorCode::MissingAuthorization => {
            reveal_strlit("missing_authorization");
            reveal_strlit("unauthenticated");
            assert("unauthenticated"@.len() != "missing_authorization"@.len());
            reveal_strlit("invalid_token");
            assert("invalid_token"@.len() != "missing_authorization"@.len());
        },
        ErrorCode::TokenRevoked => {
            reveal_strlit("token_revoked");
            reveal_strlit("unauthenticated");
            assert("unauthenticated"@.len() != "token_revoked"@.len());
            reveal_strlit("invalid_token");
            assert("invalid_token"@[0] != "token_revoked"@[0]);
            reveal_strlit("missing_authorization");
            assert("missing_authorization"@.len() != "token_revoked"@.len());
        },
        ErrorCode::PermissionRevoked => {
            reveal_strlit("permission_revoked");
            reveal_strlit("unauthenticated");
            assert("unauthenticated"@.len() != "permission_revoked"@.len());
            reveal_strlit("invalid_token");
            assert("invalid_token"@.len() != "permission_revoked"@.len());
            reveal_strlit("missing_authorization");
            assert("missing_authorization"@.len() != "permission_revoked"@.len());
            reveal_strlit("token_revoked");
            assert("token_revoked"@.len() != "permission_revoked"@.len());
        },
        ErrorCode::ScopeExceeded => {
            reveal_strlit("scope_exceeded");
            reveal_strlit("unauthenticated");
            assert("unauthenticated"@.len() != "scope_exceeded"@.len());
            reveal_strlit("invalid_token");
            assert("invalid_token"@.len() != "scope_exceeded"@.len());
            reveal_strlit("missing_authorization");
            assert("missing_authorization"@.len() != "scope_exceeded"@.len());
            reveal_strlit("token_revoked");
            assert("token_revoked"@.len() != "scope_exceeded"@.len());
            reveal_strlit("permission_revoked");
            assert("permission_revoked"@.len() != "scope_exceeded"@.len());
        },
        ErrorCode::Forbidden => {
            reveal_strlit("forbidden");
            reveal_strlit("unauthenticated");
            assert("unauthenticated"@.len() != "forbidden"@.len());
            reveal_strlit("invalid_token");
            assert("invalid_token"@.len() != "forbidden"@.len());
            reveal_strlit("missing_authorization");
            assert("missing_authorization"@.len() != "forbidden"@.len());
            reveal_strlit("token_revoked");
            assert("token_revoked"@.len() != "forbidden"@.len());
            reveal_strlit("permission_revoked");
            assert("permission_revoked"@.len() != "forbidden"@.len());
            reveal_strlit("scope_exceeded");
            assert("scope_exceeded"@.len() != "forbidden"@.len());
        },
        ErrorCode::FeatureNotAvailable => {
            reveal_strlit("feature_not_available");
            reveal_strlit("unauthenticated");
            assert("unauthenticated"@.len() != "feature_not_available"@.len());
            reveal_strlit("invalid_token");
            assert("invalid_token"@.len() != "feature_not_available"@.len());
            reveal_strlit("missing_authorization");
            assert("missing_authorization"@[0] != "feature_not_available"@[0]);
            reveal_strlit("token_revoked");
            assert("token_revoked"@.len() != "feature_not_available"@.len());
            reveal_strlit("permission_revoked");
            assert("permission_revoked"@.len() != "feature_not_available"@.len());
            reveal_strlit("scope_exceeded");
            assert("scope_exceeded"@.len() != "feature_not_available"@.len());
            reveal_strlit("forbidden");
            assert("forbidden"@.len() != "feature_not_available"@.len());
        },
        ErrorCode::RoleCeilingExceeded => {
            reveal_strlit("role_ceiling_exceeded");
            reveal_strlit("unauthenticated");
            assert("unauthenticated"@.len() != "role_ceiling_exceeded"@.len());
            reveal_strlit("invalid_token");
            assert("invalid_token"@.len() != "role_ceiling_exceeded"@.len());
            reveal_strlit("missing_authorization");
            assert("missing_authorization"@[0] != "role_ceiling_exceeded"@[0]);
            reveal_strlit("token_revoked");
            assert("token_revoked"@.len() != "role_ceiling_exceeded"@.len());
            reveal_strlit("permission_revoked");
            assert("permission_revoked"@.len() != "role_ceiling_exceeded"@.len());
            reveal_strlit("scope_exceeded");
            assert("scope_exceeded"@.len() != "role_ceiling_exceeded"@.len());
            reveal_strlit("forbidden");
            assert("forbidden"@.len() != "role_ceiling_exceeded"@.len());
            reveal_strlit("feature_not_available");
            assert("feature_not_available"@[0] != "role_ceiling_exceeded"@[0]);
        },
        ErrorCode::NotFound => {
            reveal_strlit("not_found");
            reveal_strlit("unauthenticated");
            assert("unauthenticated"@.len() != "not_found"@.len());
            reveal_strlit("invalid_token");
            assert("invalid_token"@.len() != "not_found"@.len());
            reveal_strlit("missing_authorization");
            assert("missing_authorization"@.len() != "not_found"@.len());
            reveal_strlit("token_revoked");
            assert("token_revoked"@.len() != "not_found"@.len());
            reveal_strlit("permission_revoked");
            assert("permission_revoked"@.len() != "not_found"@.len());
            reveal_strlit("scope_exceeded");
            assert("scope_exceeded"@.len() != "not_found"@.len());
            reveal_strlit("forbidden");
            assert("forbidden"@[0] != "not_found"@[0]);
            reveal_strlit("feature_not_available");
            assert("feature_not_available"@.len() != "not_found"@.len());
            reveal_strlit("role_ceiling_exceeded");
            assert("role_ceiling_exceeded"@.len() != "not_found"@.len());
        },
        ErrorCode::DocumentTargetNotFound => {
            reveal_strlit("document_target_not_found");
            reveal_strlit("unauthenticated");
            assert("unauthenticated"@.len() != "document_target_not_found"@.len());
            reveal_strlit("invalid_token");
            assert("invalid_token"@.len() != "document_target_not_found"@.len());
            reveal_strlit("missing_authorization");
            assert("missing_authorization"@.len() != "document_target_not_found"@.len());
            reveal_strlit("token_revoked");
            assert("token_revoked"@.len() != "document_target_not_found"@.len());
            reveal_strlit("permission_revoked");
            assert("permission_revoked"@.len() != "document_target_not_found"@.len());
            reveal_strlit("scope_exceeded");
            assert("scope_exceeded"@.len() != "document_target_not_found"@.len());
            reveal_strlit("forbidden");
            assert("forbidden"@.len() != "document_target_not_found"@.len());
            reveal_strlit("feature_not_available");
            assert("feature_not_available"@.len() != "document_target_not_found"@.len());
            reveal_strlit("role_ceiling_exceeded");
            assert("role_ceiling_exceeded"@.len() != "document_target_not_found"@.len());
            reveal_strlit("not_found");
            assert("not_found"@.len() != "document_target_not_found"@.len());
        },
        ErrorCode::Validation => {
            reveal_strlit("validation");
            reveal_strlit("unauthenticated");
            assert("unauthenticated"@.len() != "validation"@.len());
            reveal_strlit("invalid_token");
            assert("invalid_token"@.len() != "validation"@.len());
            reveal_strlit("missing_authorization");
            assert("missing_authorization"@.len() != "validation"@.len());
            reveal_strlit("token_revoked");
            assert("token_revoked"@.len() != "validation"@.len());
            reveal_strlit("permission_revoked");
            assert("permission_revoked"@.len() != "validation"@.len());
            reveal_strlit("scope_exceeded");
            assert("scope_exceeded"@.len() != "validation"@.len());
            reveal_strlit("forbidden");
            assert("forbidden"@.len() != "validation"@.len());
            reveal_strlit("feature_not_available");
            assert("feature_not_available"@.len() != "validation"@.len());
            reveal_strlit("role_ceiling_exceeded");
            assert("role_ceiling_exceeded"@.len() != "validation"@.len());
            reveal_strlit("not_found");
            assert("not_found"@.len() != "validation"@.len());
            reveal_strlit("document_target_not_found");
            assert("document_target_not_found"@.len() != "validation"@.len());
        },
        ErrorCode::CursorInvalid => {
            reveal_strlit("cursor_invalid");
            reveal_strlit("unauthenticated");
            assert("unauthenticated"@.len() != "cursor_invalid"@.len());
            reveal_strlit("invalid_token");
            assert("invalid_token"@.len() != "cursor_invalid"@.len());
            reveal_strlit("missing_authorization");
            assert("missing_authorization"@.len() != "cursor_invalid"@.len());
            reveal_strlit("token_revoked");
            assert("token_revoked"@.len() != "cursor_invalid"@.len());
            reveal_strlit("permission_revoked");
            assert("permission_revoked"@.len() != "cursor_invalid"@.len());
            reveal_strlit("scope_exceeded");
            assert("scope_exceeded"@[0] != "cursor_invalid"@[0]);
            reveal_strlit("forbidden");
            assert("forbidden"@.len() != "cursor_invalid"@.len());
            reveal_strlit("feature_not_available");
            assert("feature_not_available"@.len() != "cursor_invalid"@.len());
            reveal_strlit("role_ceiling_exceeded");
            assert("role_ceiling_exceeded"@.len() != "cursor_invalid"@.len());
            reveal_strlit("not_found");
            assert("not_found"@.len() != "cursor_invalid"@.len());
            reveal_strlit("document_target_not_found");
            assert("document_target_not_found"@.len() != "cursor_invalid"@.len());
            reveal_strlit("validation");
            assert("validation"@.len() != "cursor_invalid"@.len());
        },
        ErrorCode::ExpandInvalid => {
            reveal_strlit("expand_invalid");
            reveal_strlit("unauthenticated");
            assert("unauthenticated"@.len() != "expand_invalid"@.len());
            reveal_strlit("invalid_token");
            assert("invalid_token"@.len() != "expand_invalid"@.len());
            reveal_strlit("missing_authorization");
            assert("missing_authorization"@.len() != "expand_invalid"@.len());
            reveal_strlit("token_revoked");
            assert("token_revoked"@.len() != "expand_invalid"@.len());
            reveal_strlit("permission_revoked");
            assert("permission_revoked"@.len() != "expand_invalid"@.len());
            reveal_strlit("scope_exceeded");
            assert("scope_exceeded"@[0] != "expand_invalid"@[0]);
            reveal_strlit("forbidden");
            assert("forbidden"@.len() != "expand_invalid"@.len());
            reveal_strlit("feature_not_available");
            assert("feature_not_available"@.len() != "expand_invalid"@.len());
            reveal_strlit("role_ceiling_exceeded");
            assert("role_ceiling_exceeded"@.len() != "expand_invalid"@.len());
            reveal_strlit("not_found");
            assert("not_found"@.len() != "expand_invalid"@.len());
            reveal_strlit("document_target_not_found");
            assert("document_target_not_found"@.len() != "expand_invalid"@.len());
            reveal_strlit("validation");
            assert("validation"@.len() != "expand_invalid"@.len());
            reveal_strlit("cursor_invalid");
            assert("cursor_invalid"@[0] != "expand_invalid"@[0]);
        },
        ErrorCode::InvalidDateRange => {
            reveal_strlit("invalid_date_range");
            reveal_strlit("unauthenticated");
            assert("unauthenticated"@.len() != "invalid_date_range"@.len());
            reveal_strlit("invalid_token");
            assert("invalid_token"@.len() != "invalid_date_range"@.len());
            reveal_strlit("missing_authorization");
            assert("missing_authorization"@.len() != "invalid_date_range"@.len());
            reveal_strlit("token_revoked");
            assert("token_revoked"@.len() != "invalid_date_range"@.len());
            reveal_strlit("permission_revoked");
            assert("permission_revoked"@[0] != "invalid_date_range"@[0]);
            reveal_strlit("scope_exceeded");
            assert("scope_exceeded"@.len() != "invalid_date_range"@.len());
            reveal_strlit("forbidden");
            assert("forbidden"@.len() != "invalid_date_range"@.len());
            reveal_strlit("feature_not_available");
            assert("feature_not_available"@.len() != "invalid_date_range"@.len());
            reveal_strlit("role_ceiling_exceeded");
            assert("role_ceiling_exceeded"@.len() != "invalid_date_range"@.len());
            reveal_strlit("not_found");
            assert("not_found"@.len() != "invalid_date_range"@.len());
            reveal_strlit("document_target_not_found");
            assert("document_target_not_found"@.len() != "invalid_date_range"@.len());
            reveal_strlit("validation");
            assert("validation"@.len() != "invalid_date_range"@.len());
            reveal_strlit("cursor_invalid");
            assert("cursor_invalid"@.len() != "invalid_date_range"@.len());
            reveal_strlit("expand_invalid");
            assert("expand_invalid"@.len() != "invalid_date_range"@.len());
        },
        ErrorCode::WebhookHttpsRequired => {
            reveal_strlit("webhook_https_required");
            reveal_strlit("unauthenticated");
            assert("unauthenticated"@.len() != "webhook_https_required"@.len());
            reveal_strlit("invalid_token");
            assert("invalid_token"@.len() != "webhook_https_required"@.len());
            reveal_strlit("missing_authorization");
            assert("missing_authorization"@.len() != "webhook_https_required"@.len());
            reveal_strlit("token_revoked");
            assert("token_revoked"@.len() != "webhook_https_required"@.len());
            reveal_strlit("permission_revoked");
            assert("permission_revoked"@.len() != "webhook_https_required"@.len());
            reveal_strlit("scope_exceeded");
            assert("scope_exceeded"@.len() != "webhook_https_required"@.len());
            reveal_strlit("forbidden");
            assert("forbidden"@.len() != "webhook_https_required"@.len());
            reveal_strlit("feature_not_available");
            assert("feature_not_available"@.len() != "webhook_https_required"@.len());
            reveal_strlit("role_ceiling_exceeded");
            assert("role_ceiling_exceeded"@.len() != "webhook_https_required"@.len());
            reveal_strlit("not_found");
            assert("not_found"@.len() != "webhook_https_required"@.len());
            reveal_strlit("document_target_not_found");
            assert("document_target_not_found"@.len() != "webhook_https_required"@.len());
            reveal_strlit("validation");
            assert("validation"@.len() != "webhook_https_required"@.len());
            reveal_strlit("cursor_invalid");
            assert("cursor_invalid"@.len() != "webhook_https_required"@.len());
            reveal_strlit("expand_invalid");
            assert("expand_invalid"@.len() != "webhook_https_required"@.len());
            reveal_strlit("invalid_date_range");
            assert("invalid_date_range"@.len() != "webhook_https_required"@.len());
        },
        ErrorCode::DocumentInvalidTargetKind => {
            reveal_strlit("document_invalid_target_kind");
            reveal_strlit("unauthenticated");
            assert("unauthenticated"@.len() != "document_invalid_target_kind"@.len());
            reveal_strlit("invalid_token");
            assert("invalid_token"@.len() != "document_invalid_target_kind"@.len());
            reveal_strlit("missing_authorization");
            assert("missing_authorization"@.len() != "document_invalid_target_kind"@.len());
            reveal_strlit("token_revoked");
            assert("token_revoked"@.len() != "document_invalid_target_kind"@.len());
            reveal_strlit("permission_revoked");
            assert("permission_revoked"@.len() != "document_invalid_target_kind"@.len());
            reveal_strlit("scope_exceeded");
            assert("scope_exceeded"@.len() != "document_invalid_target_kind"@.len());
            reveal_strlit("forbidden");
            assert("forbidden"@.len() != "document_invalid_target_kind"@.len());
            reveal_strlit("feature_not_available");
            assert("feature_not_available"@.len() != "document_invalid_target_kind"@.len());
            reveal_strlit("role_ceiling_exceeded");
            assert("role_ceiling_exceeded"@.len() != "document_invalid_target_kind"@.len());
            reveal_strlit("not_found");
            assert("not_found"@.len() != "document_invalid_target_kind"@.len());
            reveal_strlit("document_target_not_found");
            assert("document_target_not_found"@.len() != "document_invalid_target_kind"@.len());
            reveal_strlit("validation");
            assert("validation"@.len() != "document_invalid_target_kind"@.len());
            reveal_strlit("cursor_invalid");
            assert("cursor_invalid"@.len() != "document_invalid_target_kind"@.len());
            reveal_strlit("expand_invalid");
            assert("expand_invalid"@.len() != "document_invalid_target_kind"@.len());
            reveal_strlit("invalid_date_range");
            assert("invalid_date_range"@.len() != "document_invalid_target_kind"@.len());
            reveal_strlit("webhook_https_required");
            assert("webhook_https_required"@.len() != "document_invalid_target_kind"@.len());
        },
        ErrorCode::RangeTooLarge => {
            reveal_strlit("range_too_large");
            reveal_strlit("unauthenticated");
            assert("unauthenticated"@[0] != "range_too_large"@[0]);
            reveal_strlit("invalid_token");
            assert("invalid_token"@.len() != "range_too_large"@.len());
            reveal_strlit("missing_authorization");
            assert("missing_authorization"@.len() != "range_too_large"@.len());
            reveal_strlit("token_revoked");
            assert("token_revoked"@.len() != "range_too_large"@.len());
            reveal_strlit("permission_revoked");
            assert("permission_revoked"@.len() != "range_too_large"@.len());
            reveal_strlit("scope_exceeded");
            assert("scope_exceeded"@.len() != "range_too_large"@.len());
            reveal_strlit("forbidden");
            assert("forbidden"@.len() != "range_too_large"@.len());
            reveal_strlit("feature_not_available");
            assert("feature_not_available"@.len() != "range_too_large"@.len());
            reveal_strlit("role_ceiling_exceeded");
            assert("role_ceiling_exceeded"@.len() != "range_too_large"@.len());
            reveal_strlit("not_found");
            assert("not_found"@.len() != "range_too_large"@.len());
            reveal_strlit("document_target_not_found");
            assert("document_target_not_found"@.len() != "range_too_large"@.len());
            reveal_strlit("validation");
            assert("validation"@.len() != "range_too_large"@.len());
            reveal_strlit("cursor_invalid");
            assert("cursor_invalid"@.len() != "range_too_large"@.len());
            reveal_strlit("expand_invalid");
            assert("expand_invalid"@.len() != "range_too_large"@.len());
            reveal_strlit("invalid_date_range");
            assert("invalid_date_range"@.len() != "range_too_large"@.len());
            reveal_strlit("webhook_https_required");
            assert("webhook_https_required"@.len() != "range_too_large"@.len());
            reveal_strlit("document_invalid_target_kind");
            assert("document_invalid_target_kind"@.len() != "range_too_large"@.len());
        },
        ErrorCode::AccountPathAmbiguous => {
            reveal_strlit("account_path_ambiguous");
            reveal_strlit("unauthenticated");
            assert("unauthenticated"@.len() != "account_path_ambiguous"@.len());
            reveal_strlit("invalid_token");
            assert("invalid_token"@.len() != "account_path_ambiguous"@.len());
            reveal_strlit("missing_authorization");
            assert("missing_authorization"@.len() != "account_path_ambiguous"@.len());
            reveal_strlit("token_revoked");
            assert("token_revoked"@.len() != "account_path_ambiguous"@.len());
            reveal_strlit("permission_revoked");
            assert("permission_revoked"@.len() != "account_path_ambiguous"@.len());
            reveal_strlit("scope_exceeded");
            assert("scope_exceeded"@.len() != "account_path_ambiguous"@.len());
            reveal_strlit("forbidden");
            assert("forbidden"@.len() != "account_path_ambiguous"@.len());
            reveal_strlit("feature_not_available");
            assert("feature_not_available"@.len() != "account_path_ambiguous"@.len());
            reveal_strlit("role_ceiling_exceeded");
            assert("role_ceiling_exceeded"@.len() != "account_path_ambiguous"@.len());
            reveal_strlit("not_found");
            assert("not_found"@.len() != "account_path_ambiguous"@.len());
            reveal_strlit("document_target_not_found");
            assert("document_target_not_found"@.len() != "account_path_ambiguous"@.len());
            reveal_strlit("validation");
            assert("validation"@.len() != "account_path_ambiguous"@.len());
            reveal_strlit("cursor_invalid");
            assert("cursor_invalid"@.len() != "account_path_ambiguous"@.len());
            reveal_strlit("expand_invalid");
            assert("expand_invalid"@.len() != "account_path_ambiguous"@.len());
            reveal_strlit("invalid_date_range");
            assert("invalid_date_range"@.len() != "account_path_ambiguous"@.len());
            reveal_strlit("webhook_https_required");
            assert("webhook_https_required"@[0] != "account_path_ambiguous"@[0]);
            reveal_strlit("document_invalid_target_kind");
            assert("document_invalid_target_kind"@.len() != "account_path_ambiguous"@.len());
            reveal_strlit("range_too_large");
            assert("range_too_large"@.len() != "account_path_ambiguous"@.len());
        },
        ErrorCode::AccountCodeAmbiguous => {
            reveal_strlit("account_code_ambiguous");
            reveal_strlit("unauthenticated");
            assert("unauthenticated"@.len() != "account_code_ambiguous"@.len());
            reveal_strlit("invalid_token");
            assert("invalid_token"@.len() != "account_code_ambiguous"@.len());
            reveal_strlit("missing_authorization");
            assert("missing_authorization"@.len() != "account_code_ambiguous"@.len());
            reveal_strlit("token_revoked");
            assert("token_revoked"@.len() != "account_code_ambiguous"@.len());
            reveal_strlit("permission_revoked");
            assert("permission_revoked"@.len() != "account_code_ambiguous"@.len());
            reveal_strlit("scope_exceeded");
            assert("scope_exceeded"@.len() != "account_code_ambiguous"@.len());
            reveal_strlit("forbidden");
            assert("forbidden"@.len() != "account_code_ambiguous"@.len());
            reveal_strlit("feature_not_available");
            assert("feature_not_available"@.len() != "account_code_ambiguous"@.len());
            reveal_strlit("role_ceiling_exceeded");
            assert("role_ceiling_exceeded"@.len() != "account_code_ambiguous"@.len());
            reveal_strlit("not_found");
            assert("not_found"@.len() != "account_code_ambiguous"@.len());
            reveal_strlit("document_target_not_found");
            assert("document_target_not_found"@.len() != "account_code_ambiguous"@.len());
            reveal_strlit("validation");
            assert("validation"@.len() != "account_code_ambiguous"@.len());
            reveal_strlit("cursor_invalid");
            assert("cursor_invalid"@.len() != "account_code_ambiguous"@.len());
            reveal_strlit("expand_invalid");
            assert("expand_invalid"@.len() != "account_code_ambiguous"@.len());
            reveal_strlit("invalid_date_range");
            assert("invalid_date_range"@.len() != "account_code_ambiguous"@.len());
            reveal_strlit("webhook_https_required");
            assert("webhook_https_required"@[0] != "account_code_ambiguous"@[0]);
            reveal_strlit("document_invalid_target_kind");
            assert("document_invalid_target_kind"@.len() != "account_code_ambiguous"@.len());
            reveal_strlit("range_too_large");
            assert("range_too_large"@.len() != "account_code_ambiguous"@.len());
            reveal_strlit("account_path_ambiguous");
            assert("account_path_ambiguous"@[8] != "account_code_ambiguous"@[8]);
        },
        ErrorCode::BudgetComputeStale => {
            reveal_strlit("budget_compute_stale");
            reveal_strlit("unauthenticated");
            assert("unauthenticated"@.len() != "budget_compute_stale"@.len());
            reveal_strlit("invalid_token");
            assert("invalid_token"@.len() != "budget_compute_stale"@.len());
            reveal_strlit("missing_authorization");
            assert("missing_authorization"@.len() != "budget_compute_stale"@.len());
            reveal_strlit("token_revoked");
            assert("token_revoked"@.len() != "budget_compute_stale"@.len());
            reveal_strlit("permission_revoked");
            assert("permission_revoked"@.len() != "budget_compute_stale"@.len());
            reveal_strlit("scope_exceeded");
            assert("scope_exceeded"@.len() != "budget_compute_stale"@.len());
            reveal_strlit("forbidden");
            assert("forbidden"@.len() != "budget_compute_stale"@.len());
            reveal_strlit("feature_not_available");
            assert("feature_not_available"@.len() != "budget_compute_stale"@.len());
            reveal_strlit("role_ceiling_exceeded");
            assert("role_ceiling_exceeded"@.len() != "budget_compute_stale"@.len());
            reveal_strlit("not_found");
            assert("not_found"@.len() != "budget_compute_stale"@.len());
            reveal_strlit("document_target_not_found");
            assert("document_target_not_found"@.len() != "budget_compute_stale"@.len());
            reveal_strlit("validation");
            assert("validation"@.len() != "budget_compute_stale"@.len());
            reveal_strlit("cursor_invalid");
            assert("cursor_invalid"@.len() != "budget_compute_stale"@.len());
            reveal_strlit("expand_invalid");
            assert("expand_invalid"@.len() != "budget_compute_stale"@.len());
            reveal_strlit("invalid_date_range");
            assert("invalid_date_range"@.len() != "budget_compute_stale"@.len());
            reveal_strlit("webhook_https_required");
            assert("webhook_https_required"@.len() != "budget_compute_stale"@.len());
            reveal_strlit("document_invalid_target_kind");
            assert("document_invalid_target_kind"@.len() != "budget_compute_stale"@.len());
            reveal_strlit("range_too_large");
            assert("range_too_large"@.len() != "budget_compute_stale"@.len());
            reveal_strlit("account_path_ambiguous");
            assert("account_path_ambiguous"@.len() != "budget_compute_stale"@.len());
            reveal_strlit("account_code_ambiguous");
            assert("account_code_ambiguous"@.len() != "budget_compute_stale"@.len());
        },
        ErrorCode::IdempotencyConflict => {
            reveal_strlit("idempotency_conflict");
            reveal_strlit("unauthenticated");
            assert("unauthenticated"@.len() != "idempotency_conflict"@.len());
            reveal_strlit("invalid_token");
            assert("invalid_token"@.len() != "idempotency_conflict"@.len());
            reveal_strlit("missing_authorization");
            assert("missing_authorization"@.len() != "idempotency_conflict"@.len());
            reveal_strlit("token_revoked");
            assert("token_revoked"@.len() != "idempotency_conflict"@.len());
            reveal_strlit("permission_revoked");
            assert("permission_revoked"@.len() != "idempotency_conflict"@.len());
            reveal_strlit("scope_exceeded");
            assert("scope_exceeded"@.len() != "idempotency_conflict"@.len());
            reveal_strlit("forbidden");
            assert("forbidden"@.len() != "idempotency_conflict"@.len());
            reveal_strlit("feature_not_available");
            assert("feature_not_available"@.len() != "idempotency_conflict"@.len());
            reveal_strlit("role_ceiling_exceeded");
            assert("role_ceiling_exceeded"@.len() != "idempotency_conflict"@.len());
            reveal_strlit("not_found");
            assert("not_found"@.len() != "idempotency_conflict"@.len());
            reveal_strlit("document_target_not_found");
            assert("document_target_not_found"@.len() != "idempotency_conflict"@.len());
            reveal_strlit("validation");
            assert("validation"@.len() != "idempotency_conflict"@.len());
            reveal_strlit("cursor_invalid");
            assert("cursor_invalid"@.len() != "idempotency_conflict"@.len());
            reveal_strlit("expand_invalid");
            assert("expand_invalid"@.len() != "idempotency_conflict"@.len());
            reveal_strlit("invalid_date_range");
            assert("invalid_date_range"@.len() != "idempotency_conflict"@.len());
            reveal_strlit("webhook_https_required");
            assert("webhook_https_required"@.len() != "idempotency_conflict"@.len());
            reveal_strlit("document_invalid_target_kind");
            assert("document_invalid_target_kind"@.len() != "idempotency_conflict"@.len());
            reveal_strlit("range_too_large");
            assert("range_too_large"@.len() != "idempotency_conflict"@.len());
            reveal_strlit("account_path_ambiguous");
            assert("account_path_ambiguous"@.len() != "idempotency_conflict"@.len());
            reveal_strlit("account_code_ambiguous");
            assert("account_code_ambiguous"@.len() != "idempotency_conflict"@.len());
            reveal_strlit("budget_compute_stale");
            assert("budget_compute_stale"@[0] != "idempotency_conflict"@[0]);
        },
        ErrorCode::AlreadyAssigned => {
            reveal_strlit("already_assigned");
            reveal_strlit("unauthenticated");
            assert("unauthenticated"@.len() != "already_assigned"@.len());
            reveal_strlit("invalid_token");
            assert("invalid_token"@.len() != "already_assigned"@.len());
            reveal_strlit("missing_authorization");
            assert("missing_authorization"@.len() != "already_assigned"@.len());
            reveal_strlit("token_revoked");
            assert("token_revoked"@.len() != "already_assigned"@.len());
            reveal_strlit("permission_revoked");
            assert("permission_revoked"@.len() != "already_assigned"@.len());
            reveal_strlit("scope_exceeded");
            assert("scope_exceeded"@.len() != "already_assigned"@.len());
            reveal_strlit("forbidden");
            assert("forbidden"@.len() != "already_assigned"@.len());
            reveal_strlit("feature_not_available");
            assert("feature_not_available"@.len() != "already_assigned"@.len());
            reveal_strlit("role_ceiling_exceeded");
            assert("role_ceiling_exceeded"@.len() != "already_assigned"@.len());
            reveal_strlit("not_found");
            assert("not_found"@.len() != "already_assigned"@.len());
            reveal_strlit("document_target_not_found");
            assert("document_target_not_found"@.len() != "already_assigned"@.len());
            reveal_strlit("validation");
            assert("validation"@.len() != "already_assigned"@.len());
            reveal_strlit("cursor_invalid");
            assert("cursor_invalid"@.len() != "already_assigned"@.len());
            reveal_strlit("expand_invalid");
            assert("expand_invalid"@.len() != "already_assigned"@.len());
            reveal_strlit("invalid_date_range");
            assert("invalid_date_range"@.len() != "already_assigned"@.len());
            reveal_strlit("webhook_https_required");
            assert("webhook_https_required"@.len() != "already_assigned"@.len());
            reveal_strlit("document_invalid_target_kind");
            assert("document_invalid_target_kind"@.len() != "already_assigned"@.len());
            reveal_strlit("range_too_large");
            assert("range_too_large"@.len() != "already_assigned"@.len());
            reveal_strlit("account_path_ambiguous");
            assert("account_path_ambiguous"@.len() != "already_assigned"@.len());
            reveal_strlit("account_code_ambiguous");
            assert("account_code_ambiguous"@.len() != "already_assigned"@.len());
            reveal_strlit("budget_compute_stale");
            assert("budget_compute_stale"@.len() != "already_assigned"@.len());
            reveal_strlit("idempotency_conflict");
            assert("idempotency_conflict"@.len() != "already_assigned"@.len());
        },
        ErrorCode::StatusUnreachableForSource => {
            reveal_strlit("status_unreachable_for_source");
            reveal_strlit("unauthenticated");
            assert("unauthenticated"@.len() != "status_unreachable_for_source"@.len());
            reveal_strlit("invalid_token");
            assert("invalid_token"@.len() != "status_unreachable_for_source"@.len());
            reveal_strlit("missing_authorization");
            assert("missing_authorization"@.len() != "status_unreachable_for_source"@.len());
            reveal_strlit("token_revoked");
            assert("token_revoked"@.len() != "status_unreachable_for_source"@.len());
            reveal_strlit("permission_revoked");
            assert("permission_revoked"@.len() != "status_unreachable_for_source"@.len());
            reveal_strlit("scope_exceeded");
            assert("scope_exceeded"@.len() != "status_unreachable_for_source"@.len());
            reveal_strlit("forbidden");
            assert("forbidden"@.len() != "status_unreachable_for_source"@.len());
            reveal_strlit("feature_not_available");
            assert("feature_not_available"@.len() != "status_unreachable_for_source"@.len());
            reveal_strlit("role_ceiling_exceeded");
            assert("role_ceiling_exceeded"@.len() != "status_unreachable_for_source"@.len());
            reveal_strlit("not_found");
            assert("not_found"@.len() != "status_unreachable_for_source"@.len());
            reveal_strlit("document_target_not_found");
            assert("document_target_not_found"@.len() != "status_unreachable_for_source"@.len());
            reveal_strlit("validation");
            assert("validation"@.len() != "status_unreachable_for_source"@.len());
            reveal_strlit("cursor_invalid");
            assert("cursor_invalid"@.len() != "status_unreachable_for_source"@.len());
            reveal_strlit("expand_invalid");
            assert("expand_invalid"@.len() != "status_unreachable_for_source"@.len());
            reveal_strlit("invalid_date_range");
            assert("invalid_date_range"@.len() != "status_unreachable_for_source"@.len());
            reveal_strlit("webhook_https_required");
            assert("webhook_https_required"@.len() != "status_unreachable_for_source"@.len());
            reveal_strlit("document_invalid_target_kind");
            assert("document_invalid_target_kind"@.len() != "status_unreachable_for_source"@.len());
            reveal_strlit("range_too_large");
            assert("range_too_large"@.len() != "status_unreachable_for_source"@.len());
            reveal_strlit("account_path_ambiguous");
            assert("account_path_ambiguous"@.len() != "status_unreachable_for_source"@.len());
            reveal_strlit("account_code_ambiguous");
            assert("account_code_ambiguous"@.len() != "status_unreachable_for_source"@.len());
            reveal_strlit("budget_compute_stale");
            assert("budget_compute_stale"@.len() != "status_unreachable_for_source"@.len());
            reveal_strlit("idempotency_conflict");
            assert("idempotency_conflict"@.len() != "status_unreachable_for_source"@.len());
            reveal_strlit("already_assigned");
            assert("already_assigned"@.len() != "status_unreachable_for_source"@.len());
        },
        ErrorCode::PoInvalidStatus => {
            reveal_strlit("po_invalid_status");
            reveal_strlit("unauthenticated");
            assert("unauthenticated"@.len() != "po_invalid_status"@.len());
            reveal_strlit("invalid_token");
            assert("invalid_token"@.len() != "po_invalid_status"@.len());
            reveal_strlit("missing_authorization");
            assert("missing_authorization"@.len() != "po_invalid_status"@.len());
            reveal_strlit("token_revoked");
            assert("token_revoked"@.len() != "po_invalid_status"@.len());
            reveal_strlit("permission_revoked");
            assert("permission_revoked"@.len() != "po_invalid_status"@.len());
            reveal_strlit("scope_exceeded");
            assert("scope_exceeded"@.len() != "po_invalid_status"@.len());
            reveal_strlit("forbidden");
            assert("forbidden"@.len() != "po_invalid_status"@.len());
            reveal_strlit("feature_not_available");
            assert("feature_not_available"@.len() != "po_invalid_status"@.len());
            reveal_strlit("role_ceiling_exceeded");
            assert("role_ceiling_exceeded"@.len() != "po_invalid_status"@.len());
            reveal_strlit("not_found");
            assert("not_found"@.len() != "po_invalid_status"@.len());
            reveal_strlit("document_target_not_found");
            assert("document_target_not_found"@.len() != "po_invalid_status"@.len());
            reveal_strlit("validation");
            assert("validation"@.len() != "po_invalid_status"@.len());
            reveal_strlit("cursor_invalid");
            assert("cursor_invalid"@.len() != "po_invalid_status"@.len());
            reveal_strlit("expand_invalid");
            assert("expand_invalid"@.len() != "po_invalid_status"@.len());
            reveal_strlit("invalid_date_range");
            assert("invalid_date_range"@.len() != "po_invalid_status"@.len());
            reveal_strlit("webhook_https_required");
            assert("webhook_https_required"@.len() != "po_invalid_status"@.len());
            reveal_strlit("document_invalid_target_kind");
            assert("document_invalid_target_kind"@.len() != "po_invalid_status"@.len());
            reveal_strlit("range_too_large");
            assert("range_too_large"@.len() != "po_invalid_status"@.len());
            reveal_strlit("account_path_ambiguous");
            assert("account_path_ambiguous"@.len() != "po_invalid_status"@.len());
            reveal_strlit("account_code_ambiguous");
            assert("account_code_ambiguous"@.len() != "po_invalid_status"@.len());
            reveal_strlit("budget_compute_stale");
            assert("budget_compute_stale"@.len() != "po_invalid_status"@.len());
            reveal_strlit("idempotency_conflict");
            assert("idempotency_conflict"@.len() != "po_invalid_status"@.len());
            reveal_strlit("already_assigned");
            assert("already_assigned"@.len() != "po_invalid_status"@.len());
            reveal_strlit("status_unreachable_for_source");
            assert("status_unreachable_for_source"@.len() != "po_invalid_status"@.len());
        },
        ErrorCode::WebhookUrlInvalidSsrf => {
            reveal_strlit("webhook_url_invalid_ssrf");
            reveal_strlit("unauthenticated");
            assert("unauthenticated"@.len() != "webhook_url_invalid_ssrf"@.len());
            reveal_strlit("invalid_token");
            assert("invalid_token"@.len() != "webhook_url_invalid_ssrf"@.len());
            reveal_strlit("missing_authorization");
            assert("missing_authorization"@.len() != "webhook_url_invalid_ssrf"@.len());
            reveal_strlit("token_revoked");
            assert("token_revoked"@.len() != "webhook_url_invalid_ssrf"@.len());
            reveal_strlit("permission_revoked");
            assert("permission_revoked"@.len() != "webhook_url_invalid_ssrf"@.len());
            reveal_strlit("scope_exceeded");
            assert("scope_exceeded"@.len() != "webhook_url_invalid_ssrf"@.len());
            reveal_strlit("forbidden");
            assert("forbidden"@.len() != "webhook_url_invalid_ssrf"@.len());
            reveal_strlit("feature_not_available");
            assert("feature_not_available"@.len() != "webhook_url_invalid_ssrf"@.len());
            reveal_strlit("role_ceiling_exceeded");
            assert("role_ceiling_exceeded"@.len() != "webhook_url_invalid_ssrf"@.len());
            reveal_strlit("not_found");
            assert("not_found"@.len() != "webhook_url_invalid_ssrf"@.len());
            reveal_strlit("document_target_not_found");
            assert("document_target_not_found"@.len() != "webhook_url_invalid_ssrf"@.len());
            reveal_strlit("validation");
            assert("validation"@.len() != "webhook_url_invalid_ssrf"@.len());
            reveal_strlit("cursor_invalid");
            assert("cursor_invalid"@.len() != "webhook_url_invalid_ssrf"@.len());
            reveal_strlit("expand_invalid");
            assert("expand_invalid"@.len() != "webhook_url_invalid_ssrf"@.len());
            reveal_strlit("invalid_date_range");
            assert("invalid_date_range"@.len() != "webhook_url_invalid_ssrf"@.len());
            reveal_strlit("webhook_https_required");
            assert("webhook_https_required"@.len() != "webhook_url_invalid_ssrf"@.len());
            reveal_strlit("document_invalid_target_kind");
            assert("document_invalid_target_kind"@.len() != "webhook_url_invalid_ssrf"@.len());
            reveal_strlit("range_too_large");
            assert("range_too_large"@.len() != "webhook_url_invalid_ssrf"@.len());
            reveal_strlit("account_path_ambiguous");
            assert("account_path_ambiguous"@.len() != "webhook_url_invalid_ssrf"@.len());
            reveal_strlit("account_code_ambiguous");
            assert("account_code_ambiguous"@.len() != "webhook_url_invalid_ssrf"@.len());
            reveal_strlit("budget_compute_stale");
            assert("budget_compute_stale"@.len() != "webhook_url_invalid_ssrf"@.len());
            reveal_strlit("idempotency_conflict");
            assert("idempotency_conflict"@.len() != "webhook_url_invalid_ssrf"@.len());
            reveal_strlit("already_assigned");
            assert("already_assigned"@.len() != "webhook_url_invalid_ssrf"@.len());
            reveal_strlit("status_unreachable_for_source");
            assert("status_unreachable_for_source"@.len() != "webhook_url_invalid_ssrf"@.len());
            reveal_strlit("po_invalid_status");
            assert("po_invalid_status"@.len() != "webhook_url_invalid_ssrf"@.len());
        },
        ErrorCode::FieldReadOnly => {
            reveal_strlit("field_read_only");
            reveal_strlit("unauthenticated");
            assert("unauthenticated"@[0] != "field_read_only"@[0]);
            reveal_strlit("invalid_token");
            assert("invalid_token"@.len() != "field_read_only"@.len());
            reveal_strlit("missing_authorization");
            assert("missing_authorization"@.len() != "field_read_only"@.len());
            reveal_strlit("token_revoked");
            assert("token_revoked"@.len() != "field_read_only"@.len());
            reveal_strlit("permission_revoked");
            assert("permission_revoked"@.len() != "field_read_only"@.len());
            reveal_strlit("scope_exceeded");
            assert("scope_exceeded"@.len() != "field_read_only"@.len());
            reveal_strlit("forbidden");
            assert("forbidden"@.len() != "field_read_only"@.len());
            reveal_strlit("feature_not_available");
            assert("feature_not_available"@.len() != "field_read_only"@.len());
            reveal_strlit("role_ceiling_exceeded");
            assert("role_ceiling_exceeded"@.len() != "field_read_only"@.len());
            reveal_strlit("not_found");
            assert("not_found"@.len() != "field_read_only"@.len());
            reveal_strlit("document_target_not_found");
            assert("document_target_not_found"@.len() != "field_read_only"@.len());
            reveal_strlit("validation");
            assert("validation"@.len() != "field_read_only"@.len());
            reveal_strlit("cursor_invalid");
            assert("cursor_invalid"@.len() != "field_read_only"@.len());
            reveal_strlit("expand_invalid");
            assert("expand_invalid"@.len() != "field_read_only"@.len());
            reveal_strlit("invalid_date_range");
            assert("invalid_date_range"@.len() != "field_read_only"@.len());
            reveal_strlit("webhook_https_required");
            assert("webhook_https_required"@.len() != "field_read_only"@.len());
            reveal_strlit("document_invalid_target_kind");
            assert("document_invalid_target_kind"@.len() != "field_read_only"@.len());
            reveal_strlit("range_too_large");
            assert("range_too_large"@[0] != "field_read_only"@[0]);
            reveal_strlit("account_path_ambiguous");
            assert("account_path_ambiguous"@.len() != "field_read_only"@.len());
            reveal_strlit("account_code_ambiguous");
            assert("account_code_ambiguous"@.len() != "field_read_only"@.len());
            reveal_strlit("budget_compute_stale");
            assert("budget_compute_stale"@.len() != "field_read_only"@.len());
            reveal_strlit("idempotency_conflict");
            assert("idempotency_conflict"@.len() != "field_read_only"@.len());
            reveal_strlit("already_assigned");
            assert("already_assigned"@.len() != "field_read_only"@.len());
            reveal_strlit("status_unreachable_for_source");
            assert("status_unreachable_for_source"@.len() != "field_read_only"@.len());
            reveal_strlit("po_invalid_status");
            assert("po_invalid_status"@.len() != "field_read_only"@.len());
            reveal_strlit("webhook_url_invalid_ssrf");
            assert("webhook_url_invalid_ssrf"@.len() != "field_read_only"@.len());
        },
        ErrorCode::SourceNotPostable => {
            reveal_strlit("source_not_postable");
            reveal_strlit("unauthenticated");
            assert("unauthenticated"@.len() != "source_not_postable"@.len());
            reveal_strlit("invalid_token");
            assert("invalid_token"@.len() != "source_not_postable"@.len());
            reveal_strlit("missing_authorization");
            assert("missing_authorization"@.len() != "source_not_postable"@.len());
            reveal_strlit("token_revoked");
            assert("token_revoked"@.len() != "source_not_postable"@.len());
            reveal_strlit("permission_revoked");
            assert("permission_revoked"@.len() != "source_not_postable"@.len());
            reveal_strlit("scope_exceeded");
            assert("scope_exceeded"@.len() != "source_not_postable"@.len());
            reveal_strlit("forbidden");
            assert("forbidden"@.len() != "source_not_postable"@.len());
            reveal_strlit("feature_not_available");
            assert("feature_not_available"@.len() != "source_not_postable"@.len());
            reveal_strlit("role_ceiling_exceeded");
            assert("role_ceiling_exceeded"@.len() != "source_not_postable"@.len());
            reveal_strlit("not_found");
            assert("not_found"@.len() != "source_not_postable"@.len());
            reveal_strlit("document_target_not_found");
            assert("document_target_not_found"@.len() != "source_not_postable"@.len());
            reveal_strlit("validation");
            assert("validation"@.len() != "source_not_postable"@.len());
            reveal_strlit("cursor_invalid");
            assert("cursor_invalid"@.len() != "source_not_postable"@.len());
            reveal_strlit("expand_invalid");
            assert("expand_invalid"@.len() != "source_not_postable"@.len());
            reveal_strlit("invalid_date_range");
            assert("invalid_date_range"@.len() != "source_not_postable"@.len());
            reveal_strlit("webhook_https_required");
            assert("webhook_https_required"@.len() != "source_not_postable"@.len());
            reveal_strlit("document_invalid_target_kind");
            assert("document_invalid_target_kind"@.len() != "source_not_postable"@.len());
            reveal_strlit("range_too_large");
            assert("range_too_large"@.len() != "source_not_postable"@.len());
            reveal_strlit("account_path_ambiguous");
            assert("account_path_ambiguous"@.len() != "source_not_postable"@.len());
            reveal_strlit("account_code_ambiguous");
            assert("account_code_ambiguous"@.len() != "source_not_postable"@.len());
            reveal_strlit("budget_compute_stale");
            assert("budget_compute_stale"@.len() != "source_not_postable"@.len());
            reveal_strlit("idempotency_conflict");
            assert("idempotency_conflict"@.len() != "source_not_postable"@.len());
            reveal_strlit("already_assigned");
            assert("already_assigned"@.len() != "source_not_postable"@.len());
            reveal_strlit("status_unreachable_for_source");
            assert("status_unreachable_for_source"@.len() != "source_not_postable"@.len());
            reveal_strlit("po_invalid_status");
            assert("po_invalid_status"@.len() != "source_not_postable"@.len());
            reveal_strlit("webhook_url_invalid_ssrf");
            assert("webhook_url_invalid_ssrf"@.len() != "source_not_postable"@.len());
            reveal_strlit("field_read_only");
            assert("field_read_only"@.len() != "source_not_postable"@.len());
        },
        ErrorCode::WebhookUrlBlocked => {
            reveal_strlit("webhook_url_blocked");
            reveal_strlit("unauthenticated");
            assert("unauthenticated"@.len() != "webhook_url_blocked"@.len());
            reveal_strlit("invalid_token");
            assert("invalid_token"@.len() != "webhook_url_blocked"@.len());
            reveal_strlit("missing_authorization");
            assert("missing_authorization"@.len() != "webhook_url_blocked"@.len());
            reveal_strlit("token_revoked");
            assert("token_revoked"@.len() != "webhook_url_blocked"@.len());
            reveal_strlit("permission_revoked");
            assert("permission_revoked"@.len() != "webhook_url_blocked"@.len());
            reveal_strlit("scope_exceeded");
            assert("scope_exceeded"@.len() != "webhook_url_blocked"@.len());
            reveal_strlit("forbidden");
            assert("forbidden"@.len() != "webhook_url_blocked"@.len());
            reveal_strlit("feature_not_available");
            assert("feature_not_available"@.len() != "webhook_url_blocked"@.len());
            reveal_strlit("role_ceiling_exceeded");
            assert("role_ceiling_exceeded"@.len() != "webhook_url_blocked"@.len());
            reveal_strlit("not_found");
            assert("not_found"@.len() != "webhook_url_blocked"@.len());
            reveal_strlit("document_target_not_found");
            assert("document_target_not_found"@.len() != "webhook_url_blocked"@.len());
            reveal_strlit("validation");
            assert("validation"@.len() != "webhook_url_blocked"@.len());
            reveal_strlit("cursor_invalid");
            assert("cursor_invalid"@.len() != "webhook_url_blocked"@.len());
            reveal_strlit("expand_invalid");
            assert("expand_invalid"@.len() != "webhook_url_blocked"@.len());
            reveal_strlit("invalid_date_range");
            assert("invalid_date_range"@.len() != "webhook_url_blocked"@.len());
            reveal_strlit("webhook_https_required");
            assert("webhook_https_required"@.len() != "webhook_url_blocked"@.len());
            reveal_strlit("document_invalid_target_kind");
            assert("document_invalid_target_kind"@.len() != "webhook_url_blocked"@.len());
            reveal_strlit("range_too_large");
            assert("range_too_large"@.len() != "webhook_url_blocked"@.len());
            reveal_strlit("account_path_ambiguous");
            assert("account_path_ambiguous"@.len() != "webhook_url_blocked"@.len());
            reveal_strlit("account_code_ambiguous");
            assert("account_code_ambiguous"@.len() != "webhook_url_blocked"@.len());
            reveal_strlit("budget_compute_stale");
            assert("budget_compute_stale"@.len() != "webhook_url_blocked"@.len());
            reveal_strlit("idempotency_conflict");
            assert("idempotency_conflict"@.len() != "webhook_url_blocked"@.len());
            reveal_strlit("already_assigned");
            assert("already_assigned"@.len() != "webhook_url_blocked"@.len());
            reveal_strlit("status_unreachable_for_source");
            assert("status_unreachable_for_source"@.len() != "webhook_url_blocked"@.len());
            reveal_strlit("po_invalid_status");
            assert("po_invalid_status"@.len() != "webhook_url_blocked"@.len());
            reveal_strlit("webhook_url_invalid_ssrf");
            assert("webhook_url_invalid_ssrf"@.len() != "webhook_url_blocked"@.len());
            reveal_strlit("field_read_only");
            assert("field_read_only"@.len() != "webhook_url_blocked"@.len());
            reveal_strlit("source_not_postable");
            assert("source_not_postable"@[0] != "webhook_url_blocked"@[0]);
        },
        ErrorCode::DocumentAssignForbidden => {
            reveal_strlit("document_assign_forbidden");
            reveal_strlit("unauthenticated");
            assert("unauthenticated"@.len() != "document_assign_forbidden"@.len());
            reveal_strlit("invalid_token");
            assert("invalid_token"@.len() != "document_assign_forbidden"@.len());
            reveal_strlit("missing_authorization");
            assert("missing_authorization"@.len() != "document_assign_forbidden"@.len());
            reveal_strlit("token_revoked");
            assert("token_revoked"@.len() != "document_assign_forbidden"@.len());
            reveal_strlit("permission_revoked");
            assert("permission_revoked"@.len() != "document_assign_forbidden"@.len());
            reveal_strlit("scope_exceeded");
            assert("scope_exceeded"@.len() != "document_assign_forbidden"@.len());
            reveal_strlit("forbidden");
            assert("forbidden"@.len() != "document_assign_forbidden"@.len());
            reveal_strlit("feature_not_available");
            assert("feature_not_available"@.len() != "document_assign_forbidden"@.len());
            reveal_strlit("role_ceiling_exceeded");
            assert("role_ceiling_exceeded"@.len() != "document_assign_forbidden"@.len());
            reveal_strlit("not_found");
            assert("not_found"@.len() != "document_assign_forbidden"@.len());
            reveal_strlit("document_target_not_found");
            assert("document_target_not_found"@[9] != "document_assign_forbidden"@[9]);
            reveal_strlit("validation");
            assert("validation"@.len() != "document_assign_forbidden"@.len());
            reveal_strlit("cursor_invalid");
            assert("cursor_invalid"@.len() != "document_assign_forbidden"@.len());
            reveal_strlit("expand_invalid");
            assert("expand_invalid"@.len() != "document_assign_forbidden"@.len());
            reveal_strlit("invalid_date_range");
            assert("invalid_date_range"@.len() != "document_assign_forbidden"@.len());
            reveal_strlit("webhook_https_required");
            assert("webhook_https_required"@.len() != "document_assign_forbidden"@.len());
            reveal_strlit("document_invalid_target_kind");
            assert("document_invalid_target_kind"@.len() != "document_assign_forbidden"@.len());
            reveal_strlit("range_too_large");
            assert("range_too_large"@.len() != "document_assign_forbidden"@.len());
            reveal_strlit("account_path_ambiguous");
            assert("account_path_ambiguous"@.len() != "document_assign_forbidden"@.len());
            reveal_strlit("account_code_ambiguous");
            assert("account_code_ambiguous"@.len() != "document_assign_forbidden"@.len());
            reveal_strlit("budget_compute_stale");
            assert("budget_compute_stale"@.len() != "document_assign_forbidden"@.len());
            reveal_strlit("idempotency_conflict");
            assert("idempotency_conflict"@.len() != "document_assign_forbidden"@.len());
            reveal_strlit("already_assigned");
            assert("already_assigned"@.len() != "document_assign_forbidden"@.len());
            reveal_strlit("status_unreachable_for_source");
            assert("status_unreachable_for_source"@.len() != "document_assign_forbidden"@.len());
            reveal_strlit("po_invalid_status");
            assert("po_invalid_status"@.len() != "document_assign_forbidden"@.len());
            reveal_strlit("webhook_url_invalid_ssrf");
            assert("webhook_url_invalid_ssrf"@.len() != "document_assign_forbidden"@.len());
            reveal_strlit("field_read_only");
            assert("field_read_only"@.len() != "document_assign_forbidden"@.len());
            reveal_strlit("source_not_postable");
            assert("source_not_postable"@.len() != "document_assign_forbidden"@.len());
            reveal_strlit("webhook_url_blocked");
            assert("webhook_url_blocked"@.len() != "document_assign_forbidden"@.len());
        },
        ErrorCode::DocumentCrossWorkspaceTarget => {
            reveal_strlit("document_cross_workspace_target");
            reveal_strlit("unauthenticated");
            assert("unauthenticated"@.len() != "document_cross_workspace_target"@.len());
            reveal_strlit("invalid_token");
            assert("invalid_token"@.len() != "document_cross_workspace_target"@.len());
            reveal_strlit("missing_authorization");
            assert("missing_authorization"@.len() != "document_cross_workspace_target"@.len());
            reveal_strlit("token_revoked");
            assert("token_revoked"@.len() != "document_cross_workspace_target"@.len());
            reveal_strlit("permission_revoked");
            assert("permission_revoked"@.len() != "document_cross_workspace_target"@.len());
            reveal_strlit("scope_exceeded");
            assert("scope_exceeded"@.len() != "document_cross_workspace_target"@.len());
            reveal_strlit("forbidden");
            assert("forbidden"@.len() != "document_cross_workspace_target"@.len());
            reveal_strlit("feature_not_available");
            assert("feature_not_available"@.len() != "document_cross_workspace_target"@.len());
            reveal_strlit("role_ceiling_exceeded");
            assert("role_ceiling_exceeded"@.len() != "document_cross_workspace_target"@.len());
            reveal_strlit("not_found");
            assert("not_found"@.len() != "document_cross_workspace_target"@.len());
            reveal_strlit("document_target_not_found");
            assert("document_target_not_found"@.len() != "document_cross_workspace_target"@.len());
            reveal_strlit("validation");
            assert("validation"@.len() != "document_cross_workspace_target"@.len());
            reveal_strlit("cursor_invalid");
            assert("cursor_invalid"@.len() != "document_cross_workspace_target"@.len());
            reveal_strlit("expand_invalid");
            assert("expand_invalid"@.len() != "document_cross_workspace_target"@.len());
            reveal_strlit("invalid_date_range");
            assert("invalid_date_range"@.len() != "document_cross_workspace_target"@.len());
            reveal_strlit("webhook_https_required");
            assert("webhook_https_required"@.len() != "document_cross_workspace_target"@.len());
            reveal_strlit("document_invalid_target_kind");
            assert("document_invalid_target_kind"@.len() != "document_cross_workspace_target"@.len());
            reveal_strlit("range_too_large");
            assert("range_too_large"@.len() != "document_cross_workspace_target"@.len());
            reveal_strlit("account_path_ambiguous");
            assert("account_path_ambiguous"@.len() != "document_cross_workspace_target"@.len());
            reveal_strlit("account_code_ambiguous");
            assert("account_code_ambiguous"@.len() != "document_cross_workspace_target"@.len());
            reveal_strlit("budget_compute_stale");
            assert("budget_compute_stale"@.len() != "document_cross_workspace_target"@.len());
            reveal_strlit("idempotency_conflict");
            assert("idempotency_conflict"@.len() != "document_cross_workspace_target"@.len());
            reveal_strlit("already_assigned");
            assert("already_assigned"@.len() != "document_cross_workspace_target"@.len());
            reveal_strlit("status_unreachable_for_source");
            assert("status_unreachable_for_source"@.len() != "document_cross_workspace_target"@.len());
            reveal_strlit("po_invalid_status");
            assert("po_invalid_status"@.len() != "document_cross_workspace_target"@.len());
            reveal_strlit("webhook_url_invalid_ssrf");
            assert("webhook_url_invalid_ssrf"@.len() != "document_cross_workspace_target"@.len());
            reveal_strlit("field_read_only");
            assert("field_read_only"@.len() != "document_cross_workspace_target"@.len());
            reveal_strlit("source_not_postable");
            assert("source_not_postable"@.len() != "document_cross_workspace_target"@.len());
            reveal_strlit("webhook_url_blocked");
            assert("webhook_url_blocked"@.len() != "document_cross_workspace_target"@.len());
            reveal_strlit("document_assign_forbidden");
            assert("document_assign_forbidden"@.len() != "document_cross_workspace_target"@.len());
        },
        ErrorCode::BudgetTooLarge => {
            reveal_strlit("budget_too_large");
            reveal_strlit("unauthenticated");
            assert("unauthenticated"@.len() != "budget_too_large"@.len());
            reveal_strlit("invalid_token");
            assert("invalid_token"@.len() != "budget_too_large"@.len());
            reveal_strlit("missing_authorization");
            assert("missing_authorization"@.len() != "budget_too_large"@.len());
            reveal_strlit("token_revoked");
            assert("token_revoked"@.len() != "budget_too_large"@.len());
            reveal_strlit("permission_revoked");
            assert("permission_revoked"@.len() != "budget_too_large"@.len());
            reveal_strlit("scope_exceeded");
            assert("scope_exceeded"@.len() != "budget_too_large"@.len());
            reveal_strlit("forbidden");
            assert("forbidden"@.len() != "budget_too_large"@.len());
            reveal_strlit("feature_not_available");
            assert("feature_not_available"@.len() != "budget_too_large"@.len());
            reveal_strlit("role_ceiling_exceeded");
            assert("role_ceiling_exceeded"@.len() != "budget_too_large"@.len());
            reveal_strlit("not_found");
            assert("not_found"@.len() != "budget_too_large"@.len());
            reveal_strlit("document_target_not_found");
            assert("document_target_not_found"@.len() != "budget_too_large"@.len());
            reveal_strlit("validation");
            assert("validation"@.len() != "budget_too_large"@.len());
            reveal_strlit("cursor_invalid");
            assert("cursor_invalid"@.len() != "budget_too_large"@.len());
            reveal_strlit("expand_invalid");
            assert("expand_invalid"@.len() != "budget_too_large"@.len());
            reveal_strlit("invalid_date_range");
            assert("invalid_date_range"@.len() != "budget_too_large"@.len());
            reveal_strlit("webhook_https_required");
            assert("webhook_https_required"@.len() != "budget_too_large"@.len());
            reveal_strlit("document_invalid_target_kind");
            assert("document_invalid_target_kind"@.len() != "budget_too_large"@.len());
            reveal_strlit("range_too_large");
            assert("range_too_large"@.len() != "budget_too_large"@.len());
            reveal_strlit("account_path_ambiguous");
            assert("account_path_ambiguous"@.len() != "budget_too_large"@.len());
            reveal_strlit("account_code_ambiguous");
            assert("account_code_ambiguous"@.len() != "budget_too_large"@.len());
            reveal_strlit("budget_compute_stale");
            assert("budget_compute_stale"@.len() != "budget_too_large"@.len());
            reveal_strlit("idempotency_conflict");
            assert("idempotency_conflict"@.len() != "budget_too_large"@.len());
            reveal_strlit("already_assigned");
            assert("already_assigned"@[0] != "budget_too_large"@[0]);
            reveal_strlit("status_unreachable_for_source");
            assert("status_unreachable_for_source"@.len() != "budget_too_large"@.len());
            reveal_strlit("po_invalid_status");
            assert("po_invalid_status"@.len() != "budget_too_large"@.len());
            reveal_strlit("webhook_url_invalid_ssrf");
            assert("webhook_url_invalid_ssrf"@.len() != "budget_too_large"@.len());
            reveal_strlit("field_read_only");
            assert("field_read_only"@.len() != "budget_too_large"@.len());
            reveal_strlit("source_not_postable");
            assert("source_not_postable"@.len() != "budget_too_large"@.len());
            reveal_strlit("webhook_url_blocked");
            assert("webhook_url_blocked"@.len() != "budget_too_large"@.len());
            reveal_strlit("document_assign_forbidden");
            assert("document_assign_forbidden"@.len() != "budget_too_large"@.len());
            reveal_strlit("document_cross_workspace_target");
            assert("document_cross_workspace_target"@.len() != "budget_too_large"@.len());
        },
        ErrorCode::BatchTooLarge => {
            reveal_strlit("batch_too_large");
            reveal_strlit("unauthenticated");
            assert("unauthenticated"@[0] != "batch_too_large"@[0]);
            reveal_strlit("invalid_token");
            assert("invalid_token"@.len() != "batch_too_large"@.len());
            reveal_strlit("missing_authorization");
            assert("missing_authorization"@.len() != "batch_too_large"@.len());
            reveal_strlit("token_revoked");
            assert("token_revoked"@.len() != "batch_too_large"@.len());
            reveal_strlit("permission_revoked");
            assert("permission_revoked"@.len() != "batch_too_large"@.len());
            reveal_strlit("scope_exceeded");
            assert("scope_exceeded"@.len() != "batch_too_large"@.len());
            reveal_strlit("forbidden");
            assert("forbidden"@.len() != "batch_too_large"@.len());
            reveal_strlit("feature_not_available");
            assert("feature_not_available"@.len() != "batch_too_large"@.len());
            reveal_strlit("role_ceiling_exceeded");
            assert("role_ceiling_exceeded"@.len() != "batch_too_large"@.len());
            reveal_strlit("not_found");
            assert("not_found"@.len() != "batch_too_large"@.len());
            reveal_strlit("document_target_not_found");
            assert("document_target_not_found"@.len() != "batch_too_large"@.len());
            reveal_strlit("validation");
            assert("validation"@.len() != "batch_too_large"@.len());
            reveal_strlit("cursor_invalid");
            assert("cursor_invalid"@.len() != "batch_too_large"@.len());
            reveal_strlit("expand_invalid");
            assert("expand_invalid"@.len() != "batch_too_large"@.len());
            reveal_strlit("invalid_date_range");
            assert("invalid_date_range"@.len() != "batch_too_large"@.len());
            reveal_strlit("webhook_https_required");
            assert("webhook_https_required"@.len() != "batch_too_large"@.len());
            reveal_strlit("document_invalid_target_kind");
            assert("document_invalid_target_kind"@.len() != "batch_too_large"@.len());
            reveal_strlit("range_too_large");
            assert("range_too_large"@[0] != "batch_too_large"@[0]);
            reveal_strlit("account_path_ambiguous");
            assert("account_path_ambiguous"@.len() != "batch_too_large"@.len());
            reveal_strlit("account_code_ambiguous");
            assert("account_code_ambiguous"@.len() != "batch_too_large"@.len());
            reveal_strlit("budget_compute_stale");
            assert("budget_compute_stale"@.len() != "batch_too_large"@.len());
            reveal_strlit("idempotency_conflict");
            assert("idempotency_conflict"@.len() != "batch_too_large"@.len());
            reveal_strlit("already_assigned");
            assert("already_assigned"@.len() != "batch_too_large"@.len());
            reveal_strlit("status_unreachable_for_source");
            assert("status_unreachable_for_source"@.len() != "batch_too_large"@.len());
            reveal_strlit("po_invalid_status");
            assert("po_invalid_status"@.len() != "batch_too_large"@.len());
            reveal_strlit("webhook_url_invalid_ssrf");
            assert("webhook_url_invalid_ssrf"@.len() != "batch_too_large"@.len());
            reveal_strlit("field_read_only");
            assert("field_read_only"@[0] != "batch_too_large"@[0]);
            reveal_strlit("source_not_postable");
            assert("source_not_postable"@.len() != "batch_too_large"@.len());
            reveal_strlit("webhook_url_blocked");
            assert("webhook_url_blocked"@.len() != "batch_too_large"@.len());
            reveal_strlit("document_assign_forbidden");
            assert("document_assign_forbidden"@.len() != "batch_too_large"@.len());
            reveal_strlit("document_cross_workspace_target");
            assert("document_cross_workspace_target"@.len() != "batch_too_large"@.len());
            reveal_strlit("budget_too_large");
            assert("budget_too_large"@.len() != "batch_too_large"@.len());
        },
        ErrorCode::RateLimited => {
            reveal_strlit("rate_limited");
            reveal_strlit("unauthenticated");
            assert("unauthenticated"@.len() != "rate_limited"@.len());
            reveal_strlit("invalid_token");
            assert("invalid_token"@.len() != "rate_limited"@.len());
            reveal_strlit("missing_authorization");
            assert("missing_authorization"@.len() != "rate_limited"@.len());
            reveal_strlit("token_revoked");
            assert("token_revoked"@.len() != "rate_limited"@.len());
            reveal_strlit("permission_revoked");
            assert("permission_revoked"@.len() != "rate_limited"@.len());
            reveal_strlit("scope_exceeded");
            assert("scope_exceeded"@.len() != "rate_limited"@.len());
            reveal_strlit("forbidden");
            assert("forbidden"@.len() != "rate_limited"@.len());
            reveal_strlit("feature_not_available");
            assert("feature_not_available"@.len() != "rate_limited"@.len());
            reveal_strlit("role_ceiling_exceeded");
            assert("role_ceiling_exceeded"@.len() != "rate_limited"@.len());
            reveal_strlit("not_found");
            assert("not_found"@.len() != "rate_limited"@.len());
            reveal_strlit("document_target_not_found");
            assert("document_target_not_found"@.len() != "rate_limited"@.len());
            reveal_strlit("validation");
            assert("validation"@.len() != "rate_limited"@.len());
            reveal_strlit("cursor_invalid");
            assert("cursor_invalid"@.len() != "rate_limited"@.len());
            reveal_strlit("expand_invalid");
            assert("expand_invalid"@.len() != "rate_limited"@.len());
            reveal_strlit("invalid_date_range");
            assert("invalid_date_range"@.len() != "rate_limited"@.len());
            reveal_strlit("webhook_https_required");
            assert("webhook_https_required"@.len() != "rate_limited"@.len());
            reveal_strlit("document_invalid_target_kind");
            assert("document_invalid_target_kind"@.len() != "rate_limited"@.len());
            reveal_strlit("range_too_large");
            assert("range_too_large"@.len() != "rate_limited"@.len());
            reveal_strlit("account_path_ambiguous");
            assert("account_path_ambiguous"@.len() != "rate_limited"@.len());
            reveal_strlit("account_code_ambiguous");
            assert("account_code_ambiguous"@.len() != "rate_limited"@.len());
            reveal_strlit("budget_compute_stale");
            assert("budget_compute_stale"@.len() != "rate_limited"@.len());
            reveal_strlit("idempotency_conflict");
            assert("idempotency_conflict"@.len() != "rate_limited"@.len());
            reveal_strlit("already_assigned");
            assert("already_assigned"@.len() != "rate_limited"@.len());
            reveal_strlit("status_unreachable_for_source");
            assert("status_unreachable_for_source"@.len() != "rate_limited"@.len());
            reveal_strlit("po_invalid_status");
            assert("po_invalid_status"@.len() != "rate_limited"@.len());
            reveal_strlit("webhook_url_invalid_ssrf");
            assert("webhook_url_invalid_ssrf"@.len() != "rate_limited"@.len());
            reveal_strlit("field_read_only");
            assert("field_read_only"@.len() != "rate_limited"@.len());
            reveal_strlit("source_not_postable");
            assert("source_not_postable"@.len() != "rate_limited"@.len());
            reveal_strlit("webhook_url_blocked");
            assert("webhook_url_blocked"@.len() != "rate_limited"@.len());
            reveal_strlit("document_assign_forbidden");
            assert("document_assign_forbidden"@.len() != "rate_limited"@.len());
            reveal_strlit("document_cross_workspace_target");
            assert("document_cross_workspace_target"@.len() != "rate_limited"@.len());
            reveal_strlit("budget_too_large");
            assert("budget_too_large"@.len() != "rate_limited"@.len());
            reveal_strlit("batch_too_large");
            assert("batch_too_large"@.len() != "rate_limited"@.len());
        },
        ErrorCode::SigningKeyNotConfigured => {
            reveal_strlit("signing_key_not_configured");
            reveal_strlit("unauthenticated");
            assert("unauthenticated"@.len() != "signing_key_not_configured"@.len());
            reveal_strlit("invalid_token");
            assert("invalid_token"@.len() != "signing_key_not_configured"@.len());
            reveal_strlit("missing_authorization");
            assert("missing_authorization"@.len() != "signing_key_not_configured"@.len());
            reveal_strlit("token_revoked");
            assert("token_revoked"@.len() != "signing_key_not_configured"@.len());
            reveal_strlit("permission_revoked");
            assert("permission_revoked"@.len() != "signing_key_not_configured"@.len());
            reveal_strlit("scope_exceeded");
            assert("scope_exceeded"@.len() != "signing_key_not_configured"@.len());
            reveal_strlit("forbidden");
            assert("forbidden"@.len() != "signing_key_not_configured"@.len());
            reveal_strlit("feature_not_available");
            assert("feature_not_available"@.len() != "signing_key_not_configured"@.len());
            reveal_strlit("role_ceiling_exceeded");
            assert("role_ceiling_exceeded"@.len() != "signing_key_not_configured"@.len());
            reveal_strlit("not_found");
            assert("not_found"@.len() != "signing_key_not_configured"@.len());
            reveal_strlit("document_target_not_found");
            assert("document_target_not_found"@.len() != "signing_key_not_configured"@.len());
            reveal_strlit("validation");
            assert("validation"@.len() != "signing_key_not_configured"@.len());
            reveal_strlit("cursor_invalid");
            assert("cursor_invalid"@.len() != "signing_key_not_configured"@.len());
            reveal_strlit("expand_invalid");
            assert("expand_invalid"@.len() != "signing_key_not_configured"@.len());
            reveal_strlit("invalid_date_range");
            assert("invalid_date_range"@.len() != "signing_key_not_configured"@.len());
            reveal_strlit("webhook_https_required");
            assert("webhook_https_required"@.len() != "signing_key_not_configured"@.len());
            reveal_strlit("document_invalid_target_kind");
            assert("document_invalid_target_kind"@.len() != "signing_key_not_configured"@.len());
            reveal_strlit("range_too_large");
            assert("range_too_large"@.len() != "signing_key_not_configured"@.len());
            reveal_strlit("account_path_ambiguous");
            assert("account_path_ambiguous"@.len() != "signing_key_not_configured"@.len());
            reveal_strlit("account_code_ambiguous");
            assert("account_code_ambiguous"@.len() != "signing_key_not_configured"@.len());
            reveal_strlit("budget_compute_stale");
            assert("budget_compute_stale"@.len() != "signing_key_not_configured"@.len());
            reveal_strlit("idempotency_conflict");
            assert("idempotency_conflict"@.len() != "signing_key_not_configured"@.len());
            reveal_strlit("already_assigned");
            assert("already_assigned"@.len() != "signing_key_not_configured"@.len());
            reveal_strlit("status_unreachable_for_source");
            assert("status_unreachable_for_source"@.len() != "signing_key_not_configured"@.len());
            reveal_strlit("po_invalid_status");
            assert("po_invalid_status"@.len() != "signing_key_not_configured"@.len());
            reveal_strlit("webhook_url_invalid_ssrf");
            assert("webhook_url_invalid_ssrf"@.len() != "signing_key_not_configured"@.len());
            reveal_strlit("field_read_only");
            assert("field_read_only"@.len() != "signing_key_not_configured"@.len());
            reveal_strlit("source_not_postable");
            assert("source_not_postable"@.len() != "signing_key_not_configured"@.len());
            reveal_strlit("webhook_url_blocked");
            assert("webhook_url_blocked"@.len() != "signing_key_not_configured"@.len());
            reveal_strlit("document_assign_forbidden");
            assert("document_assign_forbidden"@.len() != "signing_key_not_configured"@.len());
            reveal_strlit("document_cross_workspace_target");
            assert("document_cross_workspace_target"@.len() != "signing_key_not_configured"@.len());
            reveal_strlit("budget_too_large");
            assert("budget_too_large"@.len() != "signing_key_not_configured"@.len());
            reveal_strlit("batch_too_large");
            assert("batch_too_large"@.len() != "signing_key_not_configured"@.len());
            reveal_strlit("rate_limited");
            assert("rate_limited"@.len() != "signing_key_not_configured"@.len());
        },
        ErrorCode::InternalError => {
            reveal_strlit("internal_error");
            reveal_strlit("unauthenticated");
            assert("unauthenticated"@.len() != "internal_error"@.len());
            reveal_strlit("invalid_token");
            assert("invalid_token"@.len() != "internal_error"@.len());
            reveal_strlit("missing_authorization");
            assert("missing_authorization"@.len() != "internal_error"@.len());
            reveal_strlit("token_revoked");
            assert("token_revoked"@.len() != "internal_error"@.len());
            reveal_strlit("permission_revoked");
            assert("permission_revoked"@.len() != "internal_error"@.len());
            reveal_strlit("scope_exceeded");
            assert("scope_exceeded"@[0] != "internal_error"@[0]);
            reveal_strlit("forbidden");
            assert("forbidden"@.len() != "internal_error"@.len());
            reveal_strlit("feature_not_available");
            assert("feature_not_available"@.len() != "internal_error"@.len());
            reveal_strlit("role_ceiling_exceeded");
            assert("role_ceiling_exceeded"@.len() != "internal_error"@.len());
            reveal_strlit("not_found");
            assert("not_found"@.len() != "internal_error"@.len());
            reveal_strlit("document_target_not_found");
            assert("document_target_not_found"@.len() != "internal_error"@.len());
            reveal_strlit("validation");
            assert("validation"@.len() != "internal_error"@.len());
            reveal_strlit("cursor_invalid");
            assert("cursor_invalid"@[0] != "internal_error"@[0]);
            reveal_strlit("expand_invalid");
            assert("expand_invalid"@[0] != "internal_error"@[0]);
            reveal_strlit("invalid_date_range");
            assert("invalid_date_range"@.len() != "internal_error"@.len());
            reveal_strlit("webhook_https_required");
            assert("webhook_https_required"@.len() != "internal_error"@.len());
            reveal_strlit("document_invalid_target_kind");
            assert("document_invalid_target_kind"@.len() != "internal_error"@.len());
            reveal_strlit("range_too_large");
            assert("range_too_large"@.len() != "internal_error"@.len());
            reveal_strlit("account_path_ambiguous");
            assert("account_path_ambiguous"@.len() != "internal_error"@.len());
            reveal_strlit("account_code_ambiguous");
            assert("account_code_ambiguous"@.len() != "internal_error"@.len());
            reveal_strlit("budget_compute_stale");
            assert("budget_compute_stale"@.len() != "internal_error"@.len());
            reveal_strlit("idempotency_conflict");
            assert("idempotency_conflict"@.len() != "internal_error"@.len());
            reveal_strlit("already_assigned");
            assert("already_assigned"@.len() != "internal_error"@.len());
            reveal_strlit("status_unreachable_for_source");
            assert("status_unreachable_for_source"@.len() != "internal_error"@.len());
            reveal_strlit("po_invalid_status");
            assert("po_invalid_status"@.len() != "internal_error"@.len());
            reveal_strlit("webhook_url_invalid_ssrf");
            assert("webhook_url_invalid_ssrf"@.len() != "internal_error"@.len());
            reveal_strlit("field_read_only");
            assert("field_read_only"@.len() != "internal_error"@.len());
            reveal_strlit("source_not_postable");
            assert("source_not_postable"@.len() != "internal_error"@.len());
            reveal_strlit("webhook_url_blocked");
            assert("webhook_url_blocked"@.len() != "internal_error"@.len());
            reveal_strlit("document_assign_forbidden");
            assert("document_assign_forbidden"@.len() != "internal_error"@.len());
            reveal_strlit("document_cross_workspace_target");
            assert("document_cross_workspace_target"@.len() != "internal_error"@.len());
            reveal_strlit("budget_too_large");
            assert("budget_too_large"@.len() != "internal_error"@.len());
            reveal_strlit("batch_too_large");
            assert("batch_too_large"@.len() != "internal_error"@.len());
            reveal_strlit("rate_limited");
            assert("rate_limited"@.len() != "internal_error"@.len());
            reveal_strlit("signing_key_not_configured");
            assert("signing_key_not_configured"@.len() != "internal_error"@.len());
        },
        ErrorCode::BudgetComputeTimeout => {
            reveal_strlit("budget_compute_timeout");
            reveal_strlit("unauthenticated");
            assert("unauthenticated"@.len() != "budget_compute_timeout"@.len());
            reveal_strlit("invalid_token");
            assert("invalid_token"@.len() != "budget_compute_timeout"@.len());
            reveal_strlit("missing_authorization");
            assert("missing_authorization"@.len() != "budget_compute_timeout"@.len());
            reveal_strlit("token_revoked");
            assert("token_revoked"@.len() != "budget_compute_timeout"@.len());
            reveal_strlit("permission_revoked");
            assert("permission_revoked"@.len() != "budget_compute_timeout"@.len());
            reveal_strlit("scope_exceeded");
            assert("scope_exceeded"@.len() != "budget_compute_timeout"@.len());
            reveal_strlit("forbidden");
            assert("forbidden"@.len() != "budget_compute_timeout"@.len());
            reveal_strlit("feature_not_available");
            assert("feature_not_available"@.len() != "budget_compute_timeout"@.len());
            reveal_strlit("role_ceiling_exceeded");
            assert("role_ceiling_exceeded"@.len() != "budget_compute_timeout"@.len());
            reveal_strlit("not_found");
            assert("not_found"@.len() != "budget_compute_timeout"@.len());
            reveal_strlit("document_target_not_found");
            assert("document_target_not_found"@.len() != "budget_compute_timeout"@.len());
            reveal_strlit("validation");
            assert("validation"@.len() != "budget_compute_timeout"@.len());
            reveal_strlit("cursor_invalid");
            assert("cursor_invalid"@.len() != "budget_compute_timeout"@.len());
            reveal_strlit("expand_invalid");
            assert("expand_invalid"@.len() != "budget_compute_timeout"@.len());
            reveal_strlit("invalid_date_range");
            assert("invalid_date_range"@.len() != "budget_compute_timeout"@.len());
            reveal_strlit("webhook_https_required");
            assert("webhook_https_required"@[0] != "budget_compute_timeout"@[0]);
            reveal_strlit("document_invalid_target_kind");
            assert("document_invalid_target_kind"@.len() != "budget_compute_timeout"@.len());
            reveal_strlit("range_too_large");
            assert("range_too_large"@.len() != "budget_compute_timeout"@.len());
            reveal_strlit("account_path_ambiguous");
            assert("account_path_ambiguous"@[0] != "budget_compute_timeout"@[0]);
            reveal_strlit("account_code_ambiguous");
            assert("account_code_ambiguous"@[0] != "budget_compute_timeout"@[0]);
            reveal_strlit("budget_compute_stale");
            assert("budget_compute_stale"@.len() != "budget_compute_timeout"@.len());
            reveal_strlit("idempotency_conflict");
            assert("idempotency_conflict"@.len() != "budget_compute_timeout"@.len());
            reveal_strlit("already_assigned");
            assert("already_assigned"@.len() != "budget_compute_timeout"@.len());
            reveal_strlit("status_unreachable_for_source");
            assert("status_unreachable_for_source"@.len() != "budget_compute_timeout"@.len());
            reveal_strlit("po_invalid_status");
            assert("po_invalid_status"@.len() != "budget_compute_timeout"@.len());
            reveal_strlit("webhook_url_invalid_ssrf");
            assert("webhook_url_invalid_ssrf"@.len() != "budget_compute_timeout"@.len());
            reveal_strlit("field_read_only");
            assert("field_read_only"@.len() != "budget_compute_timeout"@.len());
            reveal_strlit("source_not_postable");
            assert("source_not_postable"@.len() != "budget_compute_timeout"@.len());
            reveal_strlit("webhook_url_blocked");
            assert("webhook_url_blocked"@.len() != "budget_compute_timeout"@.len());
            reveal_strlit("document_assign_forbidden");
            assert("document_assign_forbidden"@.len() != "budget_compute_timeout"@.len());
            reveal_strlit("document_cross_workspace_target");
            assert("document_cross_workspace_target"@.len() != "budget_compute_timeout"@.len());
            reveal_strlit("budget_too_large");
            assert("budget_too_large"@.len() != "budget_compute_timeout"@.len());
            reveal_strlit("batch_too_large");
            assert("batch_too_large"@.len() != "budget_compute_timeout"@.len());
            reveal_strlit("rate_limited");
            assert("rate_limited"@.len() != "budget_compute_timeout"@.len());
            reveal_strlit("signing_key_not_configured");
            assert("signing_key_not_configured"@.len() != "budget_compute_timeout"@.len());
            reveal_strlit("internal_error");
            assert("internal_error"@.len() != "budget_compute_timeout"@.len());
        },
        ErrorCode::Other(_) => {},
    }
}


/// A wire string read as a code and written back is unchanged: a documented
/// name gives the code whose wire name it is (any other string is kept
/// verbatim by `from_wire`), so no code is ever flattened.
pub proof fn lemma_wire_name_of_documented(s: Seq<char>)
    ensures
        documented_code(s) matches Some(d) ==> wire_name(d) == s,
{
}

/// Rendering never loses the typed code: the rendered error starts with the
/// code's wire name in brackets.
pub proof fn lemma_render_keeps_code(e: ApiError)
    ensures
        crate::text::has_prefix(rendered(e), seq!['['] + wire_name(e.code) + seq![']']),
{
    let p = seq!['['] + wire_name(e.code) + seq![']'];
    assert(rendered(e).subrange(0, p.len() as int) =~= p);
}

} // verus!
