//! The decisions of the OAuth sign-in and token-refresh flows: metadata
//! validation, the PKCE challenge, the authorization URL, the loopback
//! callback, token-response checks, identity and expiry, and sign-out.

use vstd::prelude::*;
use vstd::utf8::{valid_utf8, decode_utf8, encode_utf8};
use crate::text::{concat, str_eq, strip_trailing, strip_trailing_str, is_ws, char_is_ws, chars_of};
use crate::config::{Config, TokenInfo, UserInfo, OAuthInfo, refreshable};
use crate::json::{json_bytes_parse, parse_json_bytes, json_string_member, json_i64_member, string_member, i64_member};
use crate::output::{Output, Segment, line_view, Style};
use crate::text::{decimal_u64, dec_nat, strings_view};
use base64::Engine;
use rand::Rng;
use sha2::Digest;

verus! {

/// The resource the issued tokens are for: the public `/v1` API.
pub const API_RESOURCE: &'static str = "https://next-api.saturation.io/v1";

/// The OAuth scopes the CLI asks for.
pub const SCOPES: &'static str = "openid profile email offline_access";

/// The OAuth authority's metadata document.
#[derive(Debug)]
pub struct OAuthMetadata {
    pub issuer: String,
    pub authorization_endpoint: String,
    pub token_endpoint: String,
    pub registration_endpoint: String,
    pub code_challenge_methods_supported: Vec<String>,
}

/// The token endpoint's answer to a code exchange.
#[derive(Debug)]
pub struct OAuthTokenResponse {
    pub access_token: String,
    pub token_type: String,
    /// Empty when the answer holds none.
    pub refresh_token: String,
    pub expires_in: Option<i64>,
    pub id_token: Option<String>,
}

/// The token endpoint's answer to a refresh.
#[derive(Debug)]
pub struct RefreshResponse {
    pub access_token: String,
    pub refresh_token: Option<String>,
    pub expires_in: Option<i64>,
}

/// The identity claims read from a token's payload.
#[derive(Debug)]
pub struct Claims {
    pub sub: Option<String>,
    pub email: Option<String>,
    pub name: Option<String>,
    pub exp: Option<i64>,
}

/// Errors of the sign-in and refresh flows.
#[derive(Debug, PartialEq, Eq)]
pub enum AuthError {
    /// The issuer is not a URL.
    InvalidIssuer,
    /// The issuer is plain HTTP outside loopback development.
    InsecureIssuer,
    /// The metadata names another issuer.
    IssuerMismatch,
    /// The authority does not offer the S256 PKCE method.
    NoPkceS256,
    /// An endpoint in the metadata is not a URL.
    InvalidEndpoint,
    /// An endpoint in the metadata is plain HTTP outside loopback development.
    InsecureEndpoint,
    /// The code exchange answered with a failure status.
    LoginFailed { status: String, body: String },
    /// The issued token is not a bearer token.
    UnsupportedTokenType,
    /// The code exchange issued no refresh token.
    NoRefreshToken,
    /// The code exchange issued a lifetime that is not positive.
    InvalidLifetime,
    /// The callback request is not UTF-8.
    InvalidCallback,
    /// The callback request has no request target.
    InvalidCallbackRequest,
    /// The callback target is not a URL; the URL parser's message.
    CallbackUrl(String),
    /// The authority reported an error in the callback.
    Denied(String),
    /// The callback's state does not match the one sent.
    InvalidState,
    /// The callback carries no code.
    MissingCode,
    /// No token is stored.
    NotAuthenticated,
    /// The stored token has no refresh token.
    NotRefreshable,
    /// The stored token was not issued by an OAuth client on record.
    NoOAuthClient,
    /// The refresh answered with a failure status.
    RefreshFailed { status: String, body: String },
    /// The expiry instant is outside what the date library represents.
    ExpiryOutOfRange,
    /// The code exchange's success body is not a token response.
    InvalidTokenResponse,
    /// The refresh's success body is not a refresh response.
    InvalidRefreshResponse,
}

/// The message of each error.
pub open spec fn auth_error_text(e: AuthError) -> Seq<char> {
    match e {
        AuthError::InvalidIssuer => "invalid OAuth issuer"@,
        AuthError::InsecureIssuer => "OAuth issuer must use HTTPS outside loopback development"@,
        AuthError::IssuerMismatch => "Saturation OAuth metadata returned a different issuer"@,
        AuthError::NoPkceS256 => "Saturation OAuth authority does not support PKCE S256"@,
        AuthError::InvalidEndpoint => "invalid OAuth endpoint"@,
        AuthError::InsecureEndpoint => "Saturation OAuth metadata contained an insecure endpoint"@,
        AuthError::LoginFailed { status, body } => "Saturation login failed: HTTP "@ + status@
            + ": "@ + body@,
        AuthError::UnsupportedTokenType => "Saturation login returned an unsupported token type"@,
        AuthError::NoRefreshToken => "Saturation login did not return a refresh token"@,
        AuthError::InvalidLifetime => "Saturation login returned an invalid token lifetime"@,
        AuthError::InvalidCallback => "invalid OAuth callback"@,
        AuthError::InvalidCallbackRequest => "invalid OAuth callback request"@,
        AuthError::CallbackUrl(m) => m@,
        AuthError::Denied(m) => "Saturation login was denied: "@ + m@,
        AuthError::InvalidState => "Saturation login callback had an invalid state"@,
        AuthError::MissingCode => "OAuth callback did not include a code"@,
        AuthError::NotAuthenticated => "Not authenticated. Run `saturation auth token TOKEN` first."@,
        AuthError::NotRefreshable => "this token cannot be refreshed (no refresh token).\nPersonal API tokens and injected JWTs do not need refresh.\nReplace the stored token if it has been revoked."@,
        AuthError::NoOAuthClient => "this stored token predates OAuth login. Run `saturation login` again."@,
        AuthError::RefreshFailed { status, body } => "token refresh failed: HTTP "@ + status@
            + ": "@ + body@,
        AuthError::ExpiryOutOfRange => "token expiry is out of range"@,
        AuthError::InvalidTokenResponse => "invalid OAuth token response"@,
        AuthError::InvalidRefreshResponse => "failed to parse refresh response"@,
    }
}

/// `a`, `b`, `c` and `d` in sequence.
fn concat4(a: &str, b: &str, c: &str, d: &str) -> (r: String)
    ensures
        r@ == a@ + b@ + c@ + d@,
{
    let ab = concat(a, b);
    let abc = concat(ab.as_str(), c);
    concat(abc.as_str(), d)
}

impl AuthError {
    /// The message shown to the user.
    pub fn message(&self) -> (s: String)
        ensures
            s@ == auth_error_text(*self),
    {
        match self {
            AuthError::InvalidIssuer => "invalid OAuth issuer".to_owned(),
            AuthError::InsecureIssuer => {
                "OAuth issuer must use HTTPS outside loopback development".to_owned()
            },
            AuthError::IssuerMismatch => {
                "Saturation OAuth metadata returned a different issuer".to_owned()
            },
            AuthError::NoPkceS256 => {
                "Saturation OAuth authority does not support PKCE S256".to_owned()
            },
            AuthError::InvalidEndpoint => "invalid OAuth endpoint".to_owned(),
            AuthError::InsecureEndpoint => {
                "Saturation OAuth metadata contained an insecure endpoint".to_owned()
            },
            AuthError::LoginFailed { status, body } => {
                concat4("Saturation login failed: HTTP ", status.as_str(), ": ", body.as_str())
            },
            AuthError::UnsupportedTokenType => {
                "Saturation login returned an unsupported token type".to_owned()
            },
            AuthError::NoRefreshToken => {
                "Saturation login did not return a refresh token".to_owned()
            },
            AuthError::InvalidLifetime => {
                "Saturation login returned an invalid token lifetime".to_owned()
            },
            AuthError::InvalidCallback => "invalid OAuth callback".to_owned(),
            AuthError::InvalidCallbackRequest => "invalid OAuth callback request".to_owned(),
            AuthError::CallbackUrl(m) => m.clone(),
            AuthError::Denied(m) => concat("Saturation login was denied: ", m.as_str()),
            AuthError::InvalidState => {
                "Saturation login callback had an invalid state".to_owned()
            },
            AuthError::MissingCode => "OAuth callback did not include a code".to_owned(),
            AuthError::NotAuthenticated => {
                "Not authenticated. Run `saturation auth token TOKEN` first.".to_owned()
            },
            AuthError::NotRefreshable => {
                "this token cannot be refreshed (no refresh token).\nPersonal API tokens and injected JWTs do not need refresh.\nReplace the stored token if it has been revoked.".to_owned()
            },
            AuthError::NoOAuthClient => {
                "this stored token predates OAuth login. Run `saturation login` again.".to_owned()
            },
            AuthError::RefreshFailed { status, body } => {
                concat4("token refresh failed: HTTP ", status.as_str(), ": ", body.as_str())
            },
            AuthError::ExpiryOutOfRange => "token expiry is out of range".to_owned(),
            AuthError::InvalidTokenResponse => "invalid OAuth token response".to_owned(),
            AuthError::InvalidRefreshResponse => "failed to parse refresh response".to_owned(),
        }
    }
}

/// Key-value pairs by their views.
pub open spec fn pairs_view(v: Seq<(String, String)>) -> Seq<(Seq<char>, Seq<char>)> {
    v.map_values(|p: (String, String)| (p.0@, p.1@))
}

/// An optional string by its view.
pub open spec fn opt_view(o: Option<String>) -> Option<Seq<char>> {
    match o {
        Some(s) => Some(s@),
        None => None,
    }
}

/// What the library reads of a parsed URL: its scheme, its host, and its
/// decoded query pairs in order.
#[derive(Debug)]
pub struct UrlParts {
    pub scheme: String,
    pub host: Option<String>,
    pub query: Vec<(String, String)>,
}

impl View for UrlParts {
    type V = (Seq<char>, Option<Seq<char>>, Seq<(Seq<char>, Seq<char>)>);

    open spec fn view(&self) -> Self::V {
        (self.scheme@, opt_view(self.host), pairs_view(self.query@))
    }
}

/// What `url::Url::parse` makes of a text: the scheme, host and decoded query
/// pairs of the URL, or the parser's error message.
pub uninterp spec fn url_parts(text: Seq<char>) -> Result<(Seq<char>, Option<Seq<char>>, Seq<(Seq<char>, Seq<char>)>), Seq<char>>;

/// A parse result by its view.
pub open spec fn parsed_view(r: Result<UrlParts, String>) -> Result<(Seq<char>, Option<Seq<char>>, Seq<(Seq<char>, Seq<char>)>), Seq<char>> {
    match r {
        Ok(p) => Ok(p@),
        Err(e) => Err(e@),
    }
}

/// Parses a URL with `url::Url::parse` and reads its scheme, host and query
/// pairs (by the name `url_parts`).
#[verifier::external_body]
fn parse_url(text: &str) -> (r: Result<UrlParts, String>)
    ensures
        url_parts(text@) == parsed_view(r),
{
    match url::Url::parse(text) {
        Ok(u) => {
            let host = match u.host_str() {
                Some(h) => Some(h.to_owned()),
                None => None,
            };
            Ok(UrlParts { scheme: u.scheme().to_owned(), host, query: u.query_pairs().into_owned().collect() })
        },
        Err(e) => Err(e.to_string()),
    }
}

/// What a URL becomes when `url::Url::parse` reads it and
/// `query_pairs_mut().append_pair` appends the pairs in order, as text; `None`
/// where the parse fails.
pub uninterp spec fn url_with_query(base: Seq<char>, pairs: Seq<(Seq<char>, Seq<char>)>) -> Option<Seq<char>>;

/// Appends query pairs to a URL with the `url` crate's form serializer (by
/// the name `url_with_query`).
#[verifier::external_body]
fn append_query_pairs(base: &str, pairs: &Vec<(String, String)>) -> (r: Option<String>)
    ensures
        r matches Some(u) ==> url_with_query(base@, pairs_view(pairs@)) == Some(u@),
        r is None ==> url_with_query(base@, pairs_view(pairs@)) is None,
{
    match url::Url::parse(base) {
        Ok(mut u) => {
            {
                let mut q = u.query_pairs_mut();
                for (k, v) in pairs.iter() {
                    q.append_pair(k, v);
                }
            }
            Some(u.as_str().to_owned())
        },
        Err(_) => None,
    }
}

/// A host that counts as loopback for development.
pub open spec fn is_loopback_host(host: Option<Seq<char>>) -> bool {
    host == Some("localhost"@) || host == Some("127.0.0.1"@)
}

/// The verdict on one endpoint of the metadata: it must be a URL, and HTTPS
/// unless both the issuer and the endpoint are loopback.
pub open spec fn endpoint_verdict(endpoint: Seq<char>, issuer_loopback: bool) -> Result<(), AuthError> {
    match url_parts(endpoint) {
        Err(_) => Err(AuthError::InvalidEndpoint),
        Ok(p) => if p.0 != "https"@ && !(issuer_loopback && is_loopback_host(p.1)) {
            Err(AuthError::InsecureEndpoint)
        } else {
            Ok(())
        },
    }
}

/// Whether the methods list offers `S256`.
pub open spec fn offers_s256(methods: Seq<String>) -> bool {
    exists|i: int| 0 <= i < methods.len() && #[trigger] methods[i]@ == "S256"@
}

/// The verdict on the authority's metadata against the expected issuer, in
/// the order the checks are made.
pub open spec fn metadata_verdict(expected_issuer: Seq<char>, m: OAuthMetadata) -> Result<(), AuthError> {
    match url_parts(expected_issuer) {
        Err(_) => Err(AuthError::InvalidIssuer),
        Ok(p) => {
            let lo = is_loopback_host(p.1);
            if p.0 != "https"@ && !(p.0 == "http"@ && lo) {
                Err(AuthError::InsecureIssuer)
            } else if strip_trailing(m.issuer@, '/') != expected_issuer {
                Err(AuthError::IssuerMismatch)
            } else if !offers_s256(m.code_challenge_methods_supported@) {
                Err(AuthError::NoPkceS256)
            } else if endpoint_verdict(m.authorization_endpoint@, lo) is Err {
                endpoint_verdict(m.authorization_endpoint@, lo)
            } else if endpoint_verdict(m.token_endpoint@, lo) is Err {
                endpoint_verdict(m.token_endpoint@, lo)
            } else {
                endpoint_verdict(m.registration_endpoint@, lo)
            }
        },
    }
}

/// Whether an optional host is one of the loopback names.
fn loopback_host(host: &Option<String>) -> (b: bool)
    ensures
        b == is_loopback_host(opt_view(*host)),
{
    match host {
        Some(h) => str_eq(h.as_str(), "localhost") || str_eq(h.as_str(), "127.0.0.1"),
        None => false,
    }
}

/// Checks one endpoint of the metadata.
fn check_endpoint(endpoint: &str, issuer_loopback: bool) -> (r: Result<(), AuthError>)
    ensures
        r == endpoint_verdict(endpoint@, issuer_loopback),
{
    match parse_url(endpoint) {
        Err(_) => Err(AuthError::InvalidEndpoint),
        Ok(p) => {
            if !str_eq(p.scheme.as_str(), "https") && !(issuer_loopback && loopback_host(&p.host)) {
                Err(AuthError::InsecureEndpoint)
            } else {
                Ok(())
            }
        },
    }
}

/// Whether the methods list offers `S256`.
fn has_s256(methods: &Vec<String>) -> (b: bool)
    ensures
        b == offers_s256(methods@),
{
    let mut i: usize = 0;
    while i < methods.len()
        invariant
            i <= methods@.len(),
            forall|k: int| 0 <= k < i ==> #[trigger] methods@[k]@ != "S256"@,
        decreases methods@.len() - i,
    {
        if str_eq(methods[i].as_str(), "S256") {
            return true;
        }
        i = i + 1;
    }
    false
}

/// Validates the authority's metadata: the issuer must be HTTPS (or HTTP on
/// loopback), the metadata must name the same issuer (ignoring trailing
/// slashes), offer S256 PKCE, and list only HTTPS endpoints (or loopback
/// endpoints for a loopback issuer).
pub fn validate_metadata(expected_issuer: &str, metadata: &OAuthMetadata) -> (r: Result<(), AuthError>)
    ensures
        r == metadata_verdict(expected_issuer@, *metadata),
{
    let issuer = match parse_url(expected_issuer) {
        Err(_) => {
            return Err(AuthError::InvalidIssuer);
        },
        Ok(p) => p,
    };
    let lo = loopback_host(&issuer.host);
    if !str_eq(issuer.scheme.as_str(), "https") && !(str_eq(issuer.scheme.as_str(), "http") && lo) {
        return Err(AuthError::InsecureIssuer);
    }
    let named = strip_trailing_str(metadata.issuer.as_str(), '/');
    if !str_eq(named.as_str(), expected_issuer) {
        return Err(AuthError::IssuerMismatch);
    }
    if !has_s256(&metadata.code_challenge_methods_supported) {
        return Err(AuthError::NoPkceS256);
    }
    let a = check_endpoint(metadata.authorization_endpoint.as_str(), lo);
    if a.is_err() {
        return a;
    }
    let t = check_endpoint(metadata.token_endpoint.as_str(), lo);
    if t.is_err() {
        return t;
    }
    check_endpoint(metadata.registration_endpoint.as_str(), lo)
}


/// An ASCII letter or digit.
pub open spec fn is_ascii_alnum(c: char) -> bool {
    ('a' <= c && c <= 'z') || ('A' <= c && c <= 'Z') || ('0' <= c && c <= '9')
}

/// A random string of ASCII letters and digits from the thread-local
/// generator (`rand::rng()` sampled with `rand::distr::Alphanumeric`). Which
/// characters come out is chance; their number and kind are not.
#[verifier::external_body]
fn random_alphanumeric(length: usize) -> (s: String)
    ensures
        s@.len() == length,
        forall|i: int| 0 <= i < s@.len() ==> is_ascii_alnum(#[trigger] s@[i]),
{
    rand::rng().sample_iter(&rand::distr::Alphanumeric).take(length).map(char::from).collect()
}

/// The SHA-256 digest of some bytes, as `sha2::Sha256::digest` computes it.
pub uninterp spec fn sha256_digest(bytes: Seq<u8>) -> Seq<u8>;

/// Hashes bytes with `sha2::Sha256::digest` (by the name `sha256_digest`);
/// a SHA-256 digest is 32 bytes long.
#[verifier::external_body]
fn sha256(bytes: &[u8]) -> (d: Vec<u8>)
    ensures
        d@ == sha256_digest(bytes@),
        d@.len() == 32,
{
    sha2::Sha256::digest(bytes).to_vec()
}

/// The URL-safe base64 text, without padding, of some bytes, as
/// `base64::engine::general_purpose::URL_SAFE_NO_PAD.encode` writes it.
pub uninterp spec fn base64url_encoded(bytes: Seq<u8>) -> Seq<char>;

/// Encodes bytes as URL-safe base64 without padding (by the name
/// `base64url_encoded`).
#[verifier::external_body]
fn encode_base64url(bytes: &[u8]) -> (s: String)
    ensures
        s@ == base64url_encoded(bytes@),
{
    base64::engine::general_purpose::URL_SAFE_NO_PAD.encode(bytes)
}

/// The bytes that `URL_SAFE_NO_PAD.decode` reads from a text, or `None` where
/// it refuses the text.
pub uninterp spec fn base64url_decoded(text: Seq<char>) -> Option<Seq<u8>>;

/// Decodes URL-safe base64 without padding (by the name `base64url_decoded`).
#[verifier::external_body]
fn decode_base64url(text: &str) -> (r: Option<Vec<u8>>)
    ensures
        r matches Some(b) ==> base64url_decoded(text@) == Some(b@),
        r is None ==> base64url_decoded(text@) is None,
{
    match base64::engine::general_purpose::URL_SAFE_NO_PAD.decode(text) {
        Ok(b) => Some(b),
        Err(_) => None,
    }
}

/// The PKCE S256 challenge of a verifier: the unpadded URL-safe base64 of the
/// SHA-256 of its UTF-8 bytes.
pub open spec fn pkce_challenge_of(verifier: Seq<char>) -> Seq<char> {
    base64url_encoded(sha256_digest(encode_utf8(verifier)))
}

/// The PKCE S256 challenge of a verifier.
pub fn pkce_challenge(verifier: &str) -> (c: String)
    ensures
        c@ == pkce_challenge_of(verifier@),
{
    proof {
        broadcast use vstd::string::group_string_axioms;
    }
    let bytes = verifier.as_bytes();
    assert(bytes@ == encode_utf8(verifier@));
    let digest = sha256(bytes);
    encode_base64url(digest.as_slice())
}

/// The secrets of one sign-in: the PKCE verifier, its challenge, and the
/// state echoed by the callback.
#[derive(Debug)]
pub struct Pkce {
    pub verifier: String,
    pub challenge: String,
    pub state: String,
}

/// Fresh sign-in secrets: a 64-character verifier and a 32-character state,
/// both ASCII letters and digits, and the verifier's S256 challenge.
pub fn new_pkce() -> (p: Pkce)
    ensures
        p.verifier@.len() == 64,
        forall|i: int| 0 <= i < 64 ==> is_ascii_alnum(#[trigger] p.verifier@[i]),
        p.challenge@ == pkce_challenge_of(p.verifier@),
        p.state@.len() == 32,
        forall|i: int| 0 <= i < 32 ==> is_ascii_alnum(#[trigger] p.state@[i]),
{
    let verifier = random_alphanumeric(64);
    let challenge = pkce_challenge(verifier.as_str());
    let state = random_alphanumeric(32);
    Pkce { verifier, challenge, state }
}

/// The loopback redirect URI for a callback port.
pub open spec fn callback_url_of(port: u16) -> Seq<char> {
    "http://127.0.0.1:"@ + dec_nat(port as nat) + "/callback"@
}

/// The loopback redirect URI for a callback port.
pub fn callback_url(port: u16) -> (u: String)
    ensures
        u@ == callback_url_of(port),
{
    let digits = decimal_u64(port as u64);
    let head = concat("http://127.0.0.1:", digits.as_str());
    concat(head.as_str(), "/callback")
}

/// A key-value pair of owned strings.
fn pair(k: &str, v: &str) -> (p: (String, String))
    ensures
        p.0@ == k@,
        p.1@ == v@,
{
    (k.to_owned(), v.to_owned())
}

/// The query of the authorization request, in order.
pub open spec fn authorize_pairs(client_id: Seq<char>, callback: Seq<char>, challenge: Seq<char>, state: Seq<char>) -> Seq<(Seq<char>, Seq<char>)> {
    seq![
        ("response_type"@, "code"@),
        ("client_id"@, client_id),
        ("redirect_uri"@, callback),
        ("code_challenge"@, challenge),
        ("code_challenge_method"@, "S256"@),
        ("scope"@, SCOPES@),
        ("resource"@, API_RESOURCE@),
        ("state"@, state),
    ]
}

/// The URL the user signs in at: the authorization endpoint with the
/// authorization request appended to its query. Fails when the endpoint is
/// not a URL.
pub fn authorize_url(endpoint: &str, client_id: &str, callback: &str, challenge: &str, state: &str) -> (r: Result<String, AuthError>)
    ensures
        r matches Ok(u) ==> url_with_query(endpoint@, authorize_pairs(client_id@, callback@, challenge@, state@)) == Some(u@),
        r is Err <==> url_with_query(endpoint@, authorize_pairs(client_id@, callback@, challenge@, state@)) is None,
        r matches Err(e) ==> e == AuthError::InvalidEndpoint,
{
    let mut pairs: Vec<(String, String)> = Vec::new();
    pairs.push(pair("response_type", "code"));
    pairs.push(pair("client_id", client_id));
    pairs.push(pair("redirect_uri", callback));
    pairs.push(pair("code_challenge", challenge));
    pairs.push(pair("code_challenge_method", "S256"));
    pairs.push(pair("scope", SCOPES));
    pairs.push(pair("resource", API_RESOURCE));
    pairs.push(pair("state", state));
    assert(pairs_view(pairs@) =~= authorize_pairs(client_id@, callback@, challenge@, state@));
    match append_query_pairs(endpoint, &pairs) {
        Some(u) => Ok(u),
        None => Err(AuthError::InvalidEndpoint),
    }
}

/// The form of the authorization-code exchange, in order.
pub open spec fn exchange_form(code: Seq<char>, client_id: Seq<char>, callback: Seq<char>, verifier: Seq<char>) -> Seq<(Seq<char>, Seq<char>)> {
    seq![
        ("grant_type"@, "authorization_code"@),
        ("code"@, code),
        ("client_id"@, client_id),
        ("redirect_uri"@, callback),
        ("code_verifier"@, verifier),
        ("resource"@, API_RESOURCE@),
    ]
}

/// The form of the authorization-code exchange.
pub fn token_exchange_form(code: &str, client_id: &str, callback: &str, verifier: &str) -> (f: Vec<(String, String)>)
    ensures
        pairs_view(f@) == exchange_form(code@, client_id@, callback@, verifier@),
{
    let mut f: Vec<(String, String)> = Vec::new();
    f.push(pair("grant_type", "authorization_code"));
    f.push(pair("code", code));
    f.push(pair("client_id", client_id));
    f.push(pair("redirect_uri", callback));
    f.push(pair("code_verifier", verifier));
    f.push(pair("resource", API_RESOURCE));
    assert(pairs_view(f@) =~= exchange_form(code@, client_id@, callback@, verifier@));
    f
}

/// Decodes UTF-8 with `std::str::from_utf8`: it succeeds exactly on valid
/// UTF-8, and then holds the decoded characters.
#[verifier::external_body]
fn utf8_text(bytes: &[u8]) -> (r: Option<String>)
    ensures
        r is Some <==> valid_utf8(bytes@),
        r matches Some(s) ==> s@ == decode_utf8(bytes@),
{
    match std::str::from_utf8(bytes) {
        Ok(s) => Some(s.to_owned()),
        Err(_) => None,
    }
}

/// The first index at or after `i` that holds no whitespace (or the end).
pub open spec fn skip_ws(s: Seq<char>, i: int) -> int
    decreases s.len() - i,
{
    if i < 0 || i >= s.len() || !is_ws(s[i]) {
        i
    } else {
        skip_ws(s, i + 1)
    }
}

/// The first index at or after `i` that holds whitespace (or the end).
pub open spec fn skip_word(s: Seq<char>, i: int) -> int
    decreases s.len() - i,
{
    if i < 0 || i >= s.len() || is_ws(s[i]) {
        i
    } else {
        skip_word(s, i + 1)
    }
}

/// The second whitespace-separated word of a text
/// (`split_whitespace().nth(1)`), if there is one.
pub open spec fn second_word(s: Seq<char>) -> Option<Seq<char>> {
    let a = skip_ws(s, 0);
    let b = skip_word(s, a);
    let c = skip_ws(s, b);
    if c >= s.len() {
        None
    } else {
        Some(s.subrange(c, skip_word(s, c)))
    }
}

/// Advances past whitespace from `i`.
fn skip_ws_from(v: &Vec<char>, i: usize) -> (j: usize)
    requires
        i <= v@.len(),
    ensures
        j == skip_ws(v@, i as int),
        i <= j <= v@.len(),
{
    let mut j = i;
    while j < v.len() && char_is_ws(v[j])
        invariant
            i <= j <= v@.len(),
            skip_ws(v@, i as int) == skip_ws(v@, j as int),
        decreases v@.len() - j,
    {
        j = j + 1;
    }
    j
}

/// Advances past non-whitespace from `i`.
fn skip_word_from(v: &Vec<char>, i: usize) -> (j: usize)
    requires
        i <= v@.len(),
    ensures
        j == skip_word(v@, i as int),
        i <= j <= v@.len(),
{
    let mut j = i;
    while j < v.len() && !char_is_ws(v[j])
        invariant
            i <= j <= v@.len(),
            skip_word(v@, i as int) == skip_word(v@, j as int),
        decreases v@.len() - j,
    {
        j = j + 1;
    }
    j
}

/// The request target of an HTTP request text: its second word.
pub fn request_target(request: &str) -> (r: Option<String>)
    ensures
        opt_view(r) == second_word(request@),
{
    let v = chars_of(request);
    let a = skip_ws_from(&v, 0);
    let b = skip_word_from(&v, a);
    let c = skip_ws_from(&v, b);
    if c >= v.len() {
        None
    } else {
        let d = skip_word_from(&v, c);
        Some(request.substring_char(c, d).to_owned())
    }
}

/// The value of the last pair with the given key (a map collected from the
/// pairs keeps the last value of a repeated key).
pub open spec fn last_value(pairs: Seq<(Seq<char>, Seq<char>)>, key: Seq<char>) -> Option<Seq<char>>
    decreases pairs.len(),
{
    if pairs.len() == 0 {
        None
    } else if pairs.last().0 == key {
        Some(pairs.last().1)
    } else {
        last_value(pairs.drop_last(), key)
    }
}

/// The value of the last pair with the given key.
fn last_value_of(pairs: &Vec<(String, String)>, key: &str) -> (r: Option<String>)
    ensures
        opt_view(r) == last_value(pairs_view(pairs@), key@),
{
    let mut i = pairs.len();
    assert(pairs_view(pairs@).take(i as int) =~= pairs_view(pairs@));
    while i > 0
        invariant
            i <= pairs@.len(),
            last_value(pairs_view(pairs@), key@) == last_value(pairs_view(pairs@).take(i as int), key@),
        decreases i,
    {
        let ghost t = pairs_view(pairs@).take(i as int);
        assert(t.drop_last() =~= pairs_view(pairs@).take(i - 1));
        if str_eq(pairs[i - 1].0.as_str(), key) {
            return Some(pairs[i - 1].1.clone());
        }
        i = i - 1;
    }
    None
}

/// The verdict on a callback's query: an `error` denies the sign-in; else the
/// `state` must be the one sent; else the `code` is the result.
pub open spec fn callback_verdict(query: Seq<(Seq<char>, Seq<char>)>, expected_state: Seq<char>) -> Result<Seq<char>, AuthError> {
    match last_value(query, "error"@) {
        Some(e) => Err(AuthError::Denied(string_with(e))),
        None => if last_value(query, "state"@) != Some(expected_state) {
            Err(AuthError::InvalidState)
        } else {
            match last_value(query, "code"@) {
                Some(c) => Ok(c),
                None => Err(AuthError::MissingCode),
            }
        },
    }
}

/// Some string whose view is `s`.
pub open spec fn string_with(s: Seq<char>) -> String {
    choose|x: String| x@ == s
}

/// Whether two callback results agree, strings by their views.
pub open spec fn same_result(r: Result<String, AuthError>, v: Result<Seq<char>, AuthError>) -> bool {
    match (r, v) {
        (Ok(a), Ok(b)) => a@ == b,
        (Err(AuthError::Denied(a)), Err(AuthError::Denied(b))) => a@ == b@,
        (Err(a), Err(b)) => a == b,
        _ => false,
    }
}

/// Decides a callback from its query pairs.
pub fn callback_outcome(query: &Vec<(String, String)>, expected_state: &str) -> (r: Result<String, AuthError>)
    ensures
        same_result(r, callback_verdict(pairs_view(query@), expected_state@)),
{
    match last_value_of(query, "error") {
        Some(e) => {
            proof {
                let w = string_with(e@);
                assert(exists|x: String| x@ == e@);
                assert(w@ == e@);
            }
            Err(AuthError::Denied(e))
        },
        None => {
            let state = last_value_of(query, "state");
            let state_ok = match &state {
                Some(s) => str_eq(s.as_str(), expected_state),
                None => false,
            };
            if !state_ok {
                Err(AuthError::InvalidState)
            } else {
                match last_value_of(query, "code") {
                    Some(c) => Ok(c),
                    None => Err(AuthError::MissingCode),
                }
            }
        },
    }
}

/// The reply written to the browser: `200 OK` with a success note, or
/// `400 Bad Request` with a failure note, as a complete HTTP response.
pub open spec fn callback_response_text(ok: bool) -> Seq<char> {
    if ok {
        "HTTP/1.1 200 OK\r\nContent-Type: text/plain; charset=utf-8\r\nContent-Length: 42\r\nConnection: close\r\n\r\nSigned in. You can return to the terminal."@
    } else {
        "HTTP/1.1 400 Bad Request\r\nContent-Type: text/plain; charset=utf-8\r\nContent-Length: 51\r\nConnection: close\r\n\r\nSign-in failed. Return to the terminal for details."@
    }
}

/// The reply written to the browser.
pub fn callback_response(ok: bool) -> (s: String)
    ensures
        s@ == callback_response_text(ok),
{
    if ok {
        "HTTP/1.1 200 OK\r\nContent-Type: text/plain; charset=utf-8\r\nContent-Length: 42\r\nConnection: close\r\n\r\nSigned in. You can return to the terminal.".to_owned()
    } else {
        "HTTP/1.1 400 Bad Request\r\nContent-Type: text/plain; charset=utf-8\r\nContent-Length: 51\r\nConnection: close\r\n\r\nSign-in failed. Return to the terminal for details.".to_owned()
    }
}

/// What the loopback server does with a callback request: give up without a
/// reply (the request is unreadable), or reply and report the result.
#[derive(Debug)]
pub enum CallbackReply {
    Abort(AuthError),
    Respond { result: Result<String, AuthError>, response: String },
}

/// The URL a request target is read as.
pub open spec fn callback_target_url(target: Seq<char>) -> Seq<char> {
    "http://localhost"@ + target
}

/// Whether a reply agrees with what the URL parser made of the target.
pub open spec fn callback_reply_agrees(
    r: CallbackReply,
    parsed: Result<(Seq<char>, Option<Seq<char>>, Seq<(Seq<char>, Seq<char>)>), Seq<char>>,
    expected_state: Seq<char>,
) -> bool {
    match parsed {
        Err(m) => r matches CallbackReply::Abort(AuthError::CallbackUrl(x)) && x@ == m,
        Ok(p) => r matches CallbackReply::Respond { result, response }
            && same_result(result, callback_verdict(p.2, expected_state))
            && response@ == callback_response_text(result is Ok),
    }
}

/// Handles the bytes of a callback request: they must be UTF-8 with a
/// request target that reads as a URL on `localhost`; the query then
/// decides the result, and the reply says whether it succeeded.
pub fn callback_reply(request: &[u8], expected_state: &str) -> (r: CallbackReply)
    ensures
        !valid_utf8(request@) ==> r == CallbackReply::Abort(AuthError::InvalidCallback),
        valid_utf8(request@) && second_word(decode_utf8(request@)) is None
            ==> r == CallbackReply::Abort(AuthError::InvalidCallbackRequest),
        valid_utf8(request@) && second_word(decode_utf8(request@)) is Some ==> callback_reply_agrees(
            r, url_parts(callback_target_url(second_word(decode_utf8(request@))->0)), expected_state@),
{
    let text = match utf8_text(request) {
        Some(t) => t,
        None => {
            return CallbackReply::Abort(AuthError::InvalidCallback);
        },
    };
    let target = match request_target(text.as_str()) {
        Some(t) => t,
        None => {
            return CallbackReply::Abort(AuthError::InvalidCallbackRequest);
        },
    };
    let url = concat("http://localhost", target.as_str());
    match parse_url(url.as_str()) {
        Err(m) => CallbackReply::Abort(AuthError::CallbackUrl(m)),
        Ok(p) => {
            let result = callback_outcome(&p.query, expected_state);
            let ok = result.is_ok();
            let response = callback_response(ok);
            CallbackReply::Respond { result, response }
        },
    }
}


/// Whether a token type is `bearer`, ignoring ASCII case.
pub open spec fn is_bearer(t: Seq<char>) -> bool {
    let b = seq!['b', 'e', 'a', 'r', 'e', 'r'];
    t.len() == 6 && forall|i: int| 0 <= i < 6 ==> (#[trigger] t[i] == b[i] || t[i] as u32 + 32 == b[i] as u32)
}

/// Whether a token type is `bearer`, ignoring ASCII case.
fn bearer_type(t: &str) -> (r: bool)
    ensures
        r == is_bearer(t@),
{
    let v = chars_of(t);
    let b: Vec<char> = vec!['b', 'e', 'a', 'r', 'e', 'r'];
    if v.len() != 6 {
        return false;
    }
    let mut i: usize = 0;
    while i < 6
        invariant
            v@.len() == 6,
            v@ == t@,
            b@ == seq!['b', 'e', 'a', 'r', 'e', 'r'],
            i <= 6,
            forall|k: int| 0 <= k < i ==> (#[trigger] v@[k] == b@[k] || v@[k] as u32 + 32 == b@[k] as u32),
        decreases 6 - i,
    {
        let c = v[i];
        if !(c == b[i] || ((b[i] as u32) >= 32 && (c as u32) == (b[i] as u32) - 32)) {
            return false;
        }
        i = i + 1;
    }
    true
}

/// The verdict on a code exchange's tokens: a bearer token, with a refresh
/// token, and a positive lifetime where one is given.
pub open spec fn token_verdict(t: OAuthTokenResponse) -> Result<(), AuthError> {
    if !is_bearer(t.token_type@) {
        Err(AuthError::UnsupportedTokenType)
    } else if t.refresh_token@.len() == 0 {
        Err(AuthError::NoRefreshToken)
    } else if t.expires_in matches Some(s) && s <= 0 {
        Err(AuthError::InvalidLifetime)
    } else {
        Ok(())
    }
}

/// Checks a code exchange's tokens.
pub fn check_token_response(t: &OAuthTokenResponse) -> (r: Result<(), AuthError>)
    ensures
        r == token_verdict(*t),
{
    if !bearer_type(t.token_type.as_str()) {
        return Err(AuthError::UnsupportedTokenType);
    }
    if t.refresh_token.as_str().is_empty() {
        return Err(AuthError::NoRefreshToken);
    }
    match t.expires_in {
        Some(s) => if s <= 0 {
            return Err(AuthError::InvalidLifetime);
        },
        None => {},
    }
    Ok(())
}

/// The failure of a code exchange answered with a status that is not a
/// success, carrying the status as displayed and the body.
pub fn login_failure(status: u16, status_text: &str, body: &str) -> (r: Option<AuthError>)
    ensures
        r is None <==> (200 <= status && status <= 299),
        r matches Some(e) ==> e matches AuthError::LoginFailed { status: s, body: b } && s@ == status_text@ && b@ == body@,
{
    if 200 <= status && status <= 299 {
        None
    } else {
        Some(AuthError::LoginFailed { status: status_text.to_owned(), body: body.to_owned() })
    }
}

/// The failure of a refresh answered with a status that is not a success.
pub fn refresh_failure(status: u16, status_text: &str, body: &str) -> (r: Option<AuthError>)
    ensures
        r is None <==> (200 <= status && status <= 299),
        r matches Some(e) ==> e matches AuthError::RefreshFailed { status: s, body: b } && s@ == status_text@ && b@ == body@,
{
    if 200 <= status && status <= 299 {
        None
    } else {
        Some(AuthError::RefreshFailed { status: status_text.to_owned(), body: body.to_owned() })
    }
}

/// The pieces of a text between occurrences of `c` (`str::split`), built
/// from the end so that each piece is known by the text before it.
pub open spec fn split_on(s: Seq<char>, c: char) -> Seq<Seq<char>>
    decreases s.len(),
{
    if s.len() == 0 {
        seq![seq![]]
    } else {
        let init = split_on(s.drop_last(), c);
        if s.last() == c {
            init.push(seq![])
        } else {
            init.update(init.len() - 1, init.last().push(s.last()))
        }
    }
}

pub(crate) proof fn lemma_split_on_nonempty(s: Seq<char>, c: char)
    ensures
        split_on(s, c).len() >= 1,
    decreases s.len(),
{
    if s.len() > 0 {
        lemma_split_on_nonempty(s.drop_last(), c);
    }
}

/// Splits a text at every occurrence of `c`.
pub fn split_char(s: &str, c: char) -> (parts: Vec<String>)
    ensures
        strings_view(parts@) == split_on(s@, c),
{
    let v = chars_of(s);
    let mut parts: Vec<String> = Vec::new();
    let mut cur: Vec<char> = Vec::new();
    let mut i: usize = 0;
    assert(v@.take(0) =~= Seq::<char>::empty());
    while i < v.len()
        invariant
            i <= v@.len(),
            v@ == s@,
            strings_view(parts@).push(cur@) == split_on(v@.take(i as int), c),
        decreases v@.len() - i,
    {
        let ghost before = v@.take(i as int);
        assert(v@.take(i + 1).drop_last() =~= before);
        proof {
            lemma_split_on_nonempty(before, c);
        }
        if v[i] == c {
            let piece = crate::text::string_of(&cur);
            parts.push(piece);
            cur = Vec::new();
            assert(strings_view(parts@).push(cur@) =~= split_on(before, c).push(seq![]));
        } else {
            cur.push(v[i]);
            assert(strings_view(parts@).push(cur@) =~= split_on(before, c).update(
                split_on(before, c).len() - 1,
                split_on(before, c).last().push(v@[i as int]),
            ));
        }
        i = i + 1;
    }
    assert(v@.take(v@.len() as int) =~= v@);
    parts.push(crate::text::string_of(&cur));
    assert(strings_view(parts@) =~= split_on(s@, c));
    parts
}

/// The payload of a token, when it decodes: the token has three
/// dot-separated parts, the middle one is unpadded URL-safe base64, and its
/// bytes are JSON; the payload is that JSON value, written back compactly.
pub open spec fn payload_json(jwt: Seq<char>) -> Option<Seq<char>> {
    let parts = split_on(jwt, '.');
    if parts.len() == 3 {
        match base64url_decoded(parts[1]) {
            Some(b) => match json_bytes_parse(b) {
                Ok(t) => Some(t),
                Err(_) => None,
            },
            None => None,
        }
    } else {
        None
    }
}

/// Decodes the payload of a JSON web token, without checking its signature:
/// the JSON value of its middle part (as compact JSON text), or `None` when
/// it does not decode.
pub fn decode_jwt_payload(jwt: &str) -> (r: Option<String>)
    ensures
        opt_view(r) == payload_json(jwt@),
{
    let parts = split_char(jwt, '.');
    if parts.len() != 3 {
        return None;
    }
    assert(parts@[1]@ == split_on(jwt@, '.')[1]);
    let bytes = match decode_base64url(parts[1].as_str()) {
        Some(b) => b,
        None => {
            return None;
        },
    };
    match parse_json_bytes(bytes.as_slice()) {
        Ok(v) => Some(v),
        Err(_) => None,
    }
}

/// The payload a sign-in reads identity claims from: the ID token's when
/// there is one and it decodes, else the access token's.
pub open spec fn claims_payload_of(t: OAuthTokenResponse) -> Option<Seq<char>> {
    match t.id_token {
        Some(id) => match payload_json(id@) {
            Some(p) => Some(p),
            None => payload_json(t.access_token@),
        },
        None => payload_json(t.access_token@),
    }
}

/// The payload a sign-in reads identity claims from.
pub fn claims_payload(tokens: &OAuthTokenResponse) -> (r: Option<String>)
    ensures
        opt_view(r) == claims_payload_of(*tokens),
{
    let from_id = match &tokens.id_token {
        Some(id) => decode_jwt_payload(id.as_str()),
        None => None,
    };
    match from_id {
        Some(p) => Some(p),
        None => decode_jwt_payload(tokens.access_token.as_str()),
    }
}

/// The identity claims a payload carries: its string members `sub`, `email`
/// and `name`, and its integer member `exp`.
pub open spec fn claims_in(payload: Seq<char>, c: Claims) -> bool {
    &&& opt_view(c.sub) == json_string_member(payload, "sub"@)
    &&& opt_view(c.email) == json_string_member(payload, "email"@)
    &&& opt_view(c.name) == json_string_member(payload, "name"@)
    &&& c.exp == json_i64_member(payload, "exp"@)
}

/// Reads the identity claims of a token payload given as JSON text.
pub fn payload_claims(payload: &str) -> (c: Claims)
    ensures
        claims_in(payload@, c),
{
    Claims {
        sub: string_member(payload, "sub"),
        email: string_member(payload, "email"),
        name: string_member(payload, "name"),
        exp: i64_member(payload, "exp"),
    }
}

/// The identity claims of a sign-in: those of the payload `claims_payload`
/// picks, or none when no payload decodes.
pub fn login_claims(tokens: &OAuthTokenResponse) -> (c: Claims)
    ensures
        match claims_payload_of(*tokens) {
            Some(p) => claims_in(p, c),
            None => c.sub is None && c.email is None && c.name is None && c.exp is None,
        },
{
    match claims_payload(tokens) {
        Some(p) => payload_claims(p.as_str()),
        None => Claims { sub: None, email: None, name: None, exp: None },
    }
}

/// The signed-in user that claims name: present when they carry an email,
/// with the subject (or nothing) as id and the name if any.
pub open spec fn claimed_user(claims: Claims, user: Option<UserInfo>) -> bool {
    match claims.email {
        Some(e) => user matches Some(u) && u.email == e && u.name == claims.name && u.id@ == match claims.sub {
            Some(s) => s@,
            None => Seq::<char>::empty(),
        },
        None => true,
    }
}

/// Records the identity the claims name: when they carry an email, the user
/// becomes that identity; otherwise nothing changes.
pub fn hydrate_identity(config: &mut Config, claims: &Claims)
    ensures
        claimed_user(*claims, final(config).user),
        claims.email is None ==> final(config).user == old(config).user,
        final(config).active_workspace == old(config).active_workspace,
        final(config).workspaces == old(config).workspaces,
        final(config).token == old(config).token,
        final(config).server == old(config).server,
        final(config).oauth == old(config).oauth,
{
    match &claims.email {
        Some(email) => {
            let id = match &claims.sub {
                Some(s) => s.clone(),
                None => String::new(),
            };
            let name = match &claims.name {
                Some(n) => Some(n.clone()),
                None => None,
            };
            config.user = Some(UserInfo { id, email: email.clone(), name });
        },
        None => {},
    }
}

/// The RFC 3339 text (`DateTime<Utc>::to_rfc3339`) of the instant given as
/// Unix seconds and nanoseconds, or `None` where
/// `chrono::DateTime::from_timestamp` cannot represent it.
pub uninterp spec fn utc_rfc3339(secs: i64, nanos: u32) -> Option<Seq<char>>;

/// The RFC 3339 text of an instant: `chrono::DateTime::from_timestamp`,
/// then `to_rfc3339` (by the name `utc_rfc3339`); `None` where the instant
/// is out of the library's range.
#[verifier::external_body]
fn rfc3339_text(secs: i64, nanos: u32) -> (r: Option<String>)
    ensures
        r matches Some(t) ==> utc_rfc3339(secs, nanos) == Some(t@),
        r is None ==> utc_rfc3339(secs, nanos) is None,
{
    match chrono::DateTime::from_timestamp(secs, nanos) {
        Some(t) => Some(t.to_rfc3339()),
        None => None,
    }
}

/// The largest number of seconds a time delta holds (`i64::MAX / 1000`);
/// `chrono::Duration::seconds` panics beyond it either way.
pub const MAX_DELTA_SECONDS: i64 = 9_223_372_036_854_775;

/// The expiry `seconds` after `now`, as RFC 3339 text, or `None` where the
/// instant cannot be represented.
pub open spec fn expiry_after_spec(now: (i64, u32), seconds: i64) -> Option<Seq<char>> {
    let secs = now.0 + seconds;
    if i64::MIN <= secs && secs <= i64::MAX {
        utc_rfc3339(secs as i64, now.1)
    } else {
        None
    }
}

/// The expiry `seconds` after `now`.
pub fn expiry_after(now: (i64, u32), seconds: i64) -> (r: Option<String>)
    requires
        -MAX_DELTA_SECONDS <= seconds <= MAX_DELTA_SECONDS,
    ensures
        opt_view(r) == expiry_after_spec(now, seconds),
{
    let secs: i128 = now.0 as i128 + seconds as i128;
    if secs < i64::MIN as i128 || secs > i64::MAX as i128 {
        None
    } else {
        rfc3339_text(secs as i64, now.1)
    }
}

/// The stored expiry of a signed-in token: the lifetime from now when one was
/// issued, else the claims' `exp` instant, else nothing (empty).
pub open spec fn login_expiry_spec(expires_in: Option<i64>, claims_exp: Option<i64>, now: (i64, u32)) -> Result<Seq<char>, AuthError> {
    match expires_in {
        Some(s) => match expiry_after_spec(now, s) {
            Some(t) => Ok(t),
            None => Err(AuthError::ExpiryOutOfRange),
        },
        None => Ok(match claims_exp {
            Some(ts) => match utc_rfc3339(ts, 0) {
                Some(t) => t,
                None => Seq::empty(),
            },
            None => Seq::empty(),
        }),
    }
}

/// The stored expiry of a signed-in token at the instant `now`.
pub fn login_expiry(expires_in: Option<i64>, claims_exp: Option<i64>, now: (i64, u32)) -> (r: Result<String, AuthError>)
    requires
        expires_in matches Some(s) ==> -MAX_DELTA_SECONDS <= s <= MAX_DELTA_SECONDS,
    ensures
        match (r, login_expiry_spec(expires_in, claims_exp, now)) {
            (Ok(a), Ok(b)) => a@ == b,
            (Err(a), Err(b)) => a == b,
            _ => false,
        },
{
    match expires_in {
        Some(s) => match expiry_after(now, s) {
            Some(t) => Ok(t),
            None => Err(AuthError::ExpiryOutOfRange),
        },
        None => match claims_exp {
            Some(ts) => match rfc3339_text(ts, 0) {
                Some(t) => Ok(t),
                None => Ok(String::new()),
            },
            None => Ok(String::new()),
        },
    }
}

/// Stores a completed sign-in: the tokens (with the given expiry), the OAuth
/// client that issued them, and the identity the claims name (the previous
/// user is dropped).
pub fn complete_login(
    config: &mut Config,
    tokens: OAuthTokenResponse,
    client_id: String,
    token_endpoint: String,
    claims: &Claims,
    expires_at: String,
)
    ensures
        final(config).token == Some(TokenInfo {
            access_token: tokens.access_token,
            refresh_token: tokens.refresh_token,
            expires_at,
        }),
        final(config).oauth matches Some(o) && o.client_id == client_id && o.token_endpoint
            == token_endpoint && o.resource@ == API_RESOURCE@,
        claimed_user(*claims, final(config).user),
        claims.email is None ==> final(config).user is None,
        final(config).active_workspace == old(config).active_workspace,
        final(config).workspaces == old(config).workspaces,
        final(config).server == old(config).server,
{
    config.token = Some(TokenInfo {
        access_token: tokens.access_token,
        refresh_token: tokens.refresh_token,
        expires_at,
    });
    config.oauth = Some(OAuthInfo {
        client_id,
        token_endpoint,
        resource: API_RESOURCE.to_owned(),
    });
    config.user = None;
    hydrate_identity(config, claims);
}

/// The request that refreshes the stored token: where it goes and its form.
#[derive(Debug)]
pub struct RefreshPlan {
    pub endpoint: String,
    pub form: Vec<(String, String)>,
}

/// The form of a refresh, in order.
pub open spec fn refresh_form(refresh_token: Seq<char>, client_id: Seq<char>, resource: Seq<char>) -> Seq<(Seq<char>, Seq<char>)> {
    seq![
        ("grant_type"@, "refresh_token"@),
        ("refresh_token"@, refresh_token),
        ("client_id"@, client_id),
        ("resource"@, resource),
    ]
}

/// Plans the refresh of the stored token: there must be a token, it must be
/// refreshable, and the OAuth client that issued it must be on record; the
/// form then goes to that client's token endpoint.
pub fn refresh_plan(config: &Config) -> (r: Result<RefreshPlan, AuthError>)
    ensures
        config.token is None ==> r == Err::<RefreshPlan, AuthError>(AuthError::NotAuthenticated),
        config.token matches Some(t) && !refreshable(t.refresh_token@) ==> r == Err::<RefreshPlan, AuthError>(AuthError::NotRefreshable),
        config.token matches Some(t) && refreshable(t.refresh_token@) && config.oauth is None
            ==> r == Err::<RefreshPlan, AuthError>(AuthError::NoOAuthClient),
        r matches Ok(p) ==> config.token matches Some(t) && config.oauth matches Some(o)
            && refreshable(t.refresh_token@)
            && p.endpoint@ == o.token_endpoint@
            && pairs_view(p.form@) == refresh_form(t.refresh_token@, o.client_id@, o.resource@),
        (config.token matches Some(t) && refreshable(t.refresh_token@) && config.oauth is Some) ==> r is Ok,
{
    let token = match &config.token {
        Some(t) => t,
        None => {
            return Err(AuthError::NotAuthenticated);
        },
    };
    if !token.is_refreshable() {
        return Err(AuthError::NotRefreshable);
    }
    let oauth = match &config.oauth {
        Some(o) => o,
        None => {
            return Err(AuthError::NoOAuthClient);
        },
    };
    let mut form: Vec<(String, String)> = Vec::new();
    form.push(pair("grant_type", "refresh_token"));
    form.push(pair("refresh_token", token.refresh_token.as_str()));
    form.push(pair("client_id", oauth.client_id.as_str()));
    form.push(pair("resource", oauth.resource.as_str()));
    assert(pairs_view(form@) =~= refresh_form(token.refresh_token@, oauth.client_id@, oauth.resource@));
    Ok(RefreshPlan { endpoint: oauth.token_endpoint.clone(), form })
}

/// Stores a refreshed token at the instant `now`: the new access token, the
/// new refresh token or else the previous one, and the new lifetime from now
/// (or no expiry). Fails, changing nothing, when the expiry instant cannot be
/// represented.
pub fn apply_refresh(config: &mut Config, response: RefreshResponse, now: (i64, u32)) -> (r: Result<(), AuthError>)
    requires
        old(config).token is Some,
        response.expires_in matches Some(s) ==> -MAX_DELTA_SECONDS <= s <= MAX_DELTA_SECONDS,
    ensures
        r is Err <==> (response.expires_in matches Some(s) && expiry_after_spec(now, s) is None),
        r matches Err(e) ==> e == AuthError::ExpiryOutOfRange && *final(config) == *old(config),
        r is Ok ==> (final(config).token matches Some(t)
            && t.access_token == response.access_token
            && t.refresh_token == match response.refresh_token {
                Some(x) => x,
                None => old(config).token->0.refresh_token,
            }
            && t.expires_at@ == match response.expires_in {
                Some(s) => expiry_after_spec(now, s)->0,
                None => Seq::<char>::empty(),
            }),
        final(config).user == old(config).user,
        final(config).active_workspace == old(config).active_workspace,
        final(config).workspaces == old(config).workspaces,
        final(config).server == old(config).server,
        final(config).oauth == old(config).oauth,
{
    let expires_at = match response.expires_in {
        Some(s) => match expiry_after(now, s) {
            Some(t) => t,
            None => {
                return Err(AuthError::ExpiryOutOfRange);
            },
        },
        None => String::new(),
    };
    let previous = match &config.token {
        Some(t) => t.refresh_token.clone(),
        None => String::new(),
    };
    let refresh_token = match response.refresh_token {
        Some(x) => x,
        None => previous,
    };
    config.token = Some(TokenInfo { access_token: response.access_token, refresh_token, expires_at });
    Ok(())
}

/// Signs out: forgets the token, the user and the OAuth client, keeping the
/// rest; the reply is the success line.
pub fn logout(config: &mut Config, output: &Output) -> (l: Option<Vec<Segment>>)
    ensures
        final(config).token is None,
        final(config).user is None,
        final(config).oauth is None,
        final(config).active_workspace == old(config).active_workspace,
        final(config).workspaces == old(config).workspaces,
        final(config).server == old(config).server,
        output.quiet ==> l is None,
        !output.quiet ==> (l matches Some(x) && line_view(x@) == seq![("OK"@, Style::GreenBold), (" "@ + "Logged out"@, Style::Plain)]),
{
    config.token = None;
    config.user = None;
    config.oauth = None;
    output.success("Logged out")
}


/// A callback is accepted only when it reports no error and echoes the state
/// that was sent, and then it yields its code; one that echoes another state
/// (and reports no error) is refused as an invalid state.
pub proof fn lemma_callback_needs_matching_state(query: Seq<(Seq<char>, Seq<char>)>, expected_state: Seq<char>)
    ensures
        callback_verdict(query, expected_state) matches Ok(c) ==> last_value(query, "error"@) is None
            && last_value(query, "state"@) == Some(expected_state) && last_value(query, "code"@) == Some(c),
        last_value(query, "error"@) is None && last_value(query, "state"@) != Some(expected_state)
            ==> callback_verdict(query, expected_state) == Err::<Seq<char>, AuthError>(AuthError::InvalidState),
{
}


/// The answer of a token endpoint as received: its status (as a number and
/// as displayed), its body, and what the body parsed to, if anything.
#[derive(Debug)]
pub struct TokenAnswer<T> {
    pub status: u16,
    pub status_text: String,
    pub body: String,
    pub parsed: Option<T>,
}

/// Whether a code exchange's answer is accepted: a success status and a
/// token response that passes the checks.
pub open spec fn login_accepted(status: u16, parsed: Option<OAuthTokenResponse>) -> bool {
    is_success_status_code(status) && match parsed {
        Some(t) => token_verdict(t) is Ok,
        None => false,
    }
}

/// What a completed sign-in stores: the tokens with the expiry, the OAuth
/// client, and the claimed identity; the rest is kept.
pub open spec fn login_stored(
    before: Config,
    after: Config,
    t: OAuthTokenResponse,
    claims: Claims,
    client_id: String,
    token_endpoint: String,
    expires_at: Seq<char>,
) -> bool {
    &&& after.token matches Some(k) && k.access_token == t.access_token && k.refresh_token == t.refresh_token
        && k.expires_at@ == expires_at
    &&& after.oauth matches Some(o) && o.client_id == client_id && o.token_endpoint == token_endpoint
        && o.resource@ == API_RESOURCE@
    &&& claimed_user(claims, after.user)
    &&& claims.email is None ==> after.user is None
    &&& after.active_workspace == before.active_workspace
    &&& after.workspaces == before.workspaces
    &&& after.server == before.server
}

/// Finishes a sign-in from the code exchange's answer at the instant `now`.
/// The answer must be a success, parse as a token response, and pass the
/// token checks; only then are the tokens, the OAuth client and the claimed
/// identity stored. On any failure nothing is stored.
pub fn finish_login(
    config: &mut Config,
    answer: TokenAnswer<OAuthTokenResponse>,
    claims: &Claims,
    client_id: String,
    token_endpoint: String,
    now: (i64, u32),
) -> (r: Result<(), AuthError>)
    requires
        login_accepted(answer.status, answer.parsed) ==> (answer.parsed->0.expires_in matches Some(s) ==> s
            <= MAX_DELTA_SECONDS),
    ensures
        r is Ok ==> login_accepted(answer.status, answer.parsed),
        r is Err ==> *final(config) == *old(config),
        !is_success_status_code(answer.status) ==> (r matches Err(AuthError::LoginFailed { status, body })
            && status@ == answer.status_text@ && body@ == answer.body@),
        is_success_status_code(answer.status) && answer.parsed is None ==> r == Err::<(), AuthError>(AuthError::InvalidTokenResponse),
        answer.parsed matches Some(t) ==> (is_success_status_code(answer.status) && token_verdict(t) is Err ==> r == token_verdict(t)),
        answer.parsed matches Some(t) ==> (is_success_status_code(answer.status) && token_verdict(t) is Ok ==> match login_expiry_spec(
            t.expires_in,
            claims.exp,
            now,
        ) {
            Err(e) => r == Err::<(), AuthError>(e),
            Ok(x) => r is Ok && login_stored(*old(config), *final(config), t, *claims, client_id, token_endpoint, x),
        }),
{
    match login_failure(answer.status, answer.status_text.as_str(), answer.body.as_str()) {
        Some(e) => {
            return Err(e);
        },
        None => {},
    }
    let tokens = match answer.parsed {
        Some(t) => t,
        None => {
            return Err(AuthError::InvalidTokenResponse);
        },
    };
    match check_token_response(&tokens) {
        Ok(()) => {},
        Err(e) => {
            return Err(e);
        },
    }
    let expires_at = match login_expiry(tokens.expires_in, claims.exp, now) {
        Ok(x) => x,
        Err(e) => {
            return Err(e);
        },
    };
    complete_login(config, tokens, client_id, token_endpoint, claims, expires_at);
    Ok(())
}

/// Whether a status is a success (2xx).
pub open spec fn is_success_status_code(status: u16) -> bool {
    200 <= status && status <= 299
}

/// Finishes a refresh from the token endpoint's answer at the instant `now`:
/// a failure status or an unparseable body is an error and changes nothing;
/// otherwise the refreshed token is stored as `apply_refresh` says.
pub fn finish_refresh(config: &mut Config, answer: TokenAnswer<RefreshResponse>, now: (i64, u32)) -> (r: Result<(), AuthError>)
    requires
        old(config).token is Some,
        answer.parsed matches Some(p) ==> (is_success_status_code(answer.status) ==> (p.expires_in matches Some(s)
            ==> -MAX_DELTA_SECONDS <= s <= MAX_DELTA_SECONDS)),
    ensures
        r is Err ==> *final(config) == *old(config),
        !is_success_status_code(answer.status) ==> (r matches Err(AuthError::RefreshFailed { status, body })
            && status@ == answer.status_text@ && body@ == answer.body@),
        is_success_status_code(answer.status) && answer.parsed is None ==> r == Err::<(), AuthError>(AuthError::InvalidRefreshResponse),
        answer.parsed matches Some(p) ==> (is_success_status_code(answer.status) ==> (
            (r is Err <==> (p.expires_in matches Some(s) && expiry_after_spec(now, s) is None))
            && (r is Ok ==> (final(config).token matches Some(t)
                && t.access_token == p.access_token
                && t.refresh_token == match p.refresh_token {
                    Some(x) => x,
                    None => old(config).token->0.refresh_token,
                }
                && t.expires_at@ == match p.expires_in {
                    Some(s) => expiry_after_spec(now, s)->0,
                    None => Seq::<char>::empty(),
                }
                && final(config).user == old(config).user
                && final(config).active_workspace == old(config).active_workspace
                && final(config).workspaces == old(config).workspaces
                && final(config).server == old(config).server
                && final(config).oauth == old(config).oauth)))),
{
    match refresh_failure(answer.status, answer.status_text.as_str(), answer.body.as_str()) {
        Some(e) => {
            return Err(e);
        },
        None => {},
    }
    let response = match answer.parsed {
        Some(p) => p,
        None => {
            return Err(AuthError::InvalidRefreshResponse);
        },
    };
    apply_refresh(config, response, now)
}

} // verus!
