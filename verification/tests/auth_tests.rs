use saturation::auth::{login_claims, payload_claims};
use saturation::auth::{
    claims_payload, finish_login, finish_refresh, TokenAnswer,
    apply_refresh, authorize_url, callback_outcome, callback_reply, callback_response, callback_url,
    check_token_response, complete_login, decode_jwt_payload, hydrate_identity, login_expiry,
    login_failure, logout, new_pkce, pkce_challenge, refresh_failure, refresh_plan, request_target,
    split_char, token_exchange_form, validate_metadata, AuthError, CallbackReply, Claims,
    OAuthMetadata, OAuthTokenResponse, RefreshResponse, API_RESOURCE,
};
use saturation::cli::OutputFormat;
use saturation::config::{Config, OAuthInfo, TokenInfo, UserInfo};
use saturation::output::Output;

fn metadata(issuer: &str, base: &str, methods: &[&str]) -> OAuthMetadata {
    OAuthMetadata {
        issuer: issuer.to_string(),
        authorization_endpoint: format!("{base}/oauth2/authorize"),
        token_endpoint: format!("{base}/oauth2/token"),
        registration_endpoint: format!("{base}/oauth2/register"),
        code_challenge_methods_supported: methods.iter().map(|m| m.to_string()).collect(),
    }
}

#[test]
fn callback_requires_matching_state() {
    let request = b"GET /callback?code=secret&state=wrong HTTP/1.1\r\nHost: localhost\r\n\r\n";
    match callback_reply(request, "expected") {
        CallbackReply::Respond { result, response } => {
            let err = result.unwrap_err();
            assert!(err.message().contains("invalid state"));
            assert!(response.starts_with("HTTP/1.1 400 Bad Request\r\n"));
        }
        CallbackReply::Abort(e) => panic!("unexpected abort: {:?}", e),
    }
}

#[test]
fn callback_with_matching_state_yields_code() {
    let request = b"GET /callback?code=secret&state=expected HTTP/1.1\r\nHost: localhost\r\n\r\n";
    match callback_reply(request, "expected") {
        CallbackReply::Respond { result, response } => {
            assert_eq!(result.unwrap(), "secret");
            assert!(response.starts_with("HTTP/1.1 200 OK\r\n"));
            assert!(response.ends_with("\r\n\r\nSigned in. You can return to the terminal."));
        }
        CallbackReply::Abort(e) => panic!("unexpected abort: {:?}", e),
    }
}

#[test]
fn callback_error_and_missing_code() {
    let denied = b"GET /callback?error=access_denied&state=s HTTP/1.1\r\n\r\n";
    match callback_reply(denied, "s") {
        CallbackReply::Respond { result, .. } => {
            assert_eq!(result.unwrap_err().message(), "Saturation login was denied: access_denied");
        }
        _ => panic!("expected a reply"),
    }
    let no_code = b"GET /callback?state=s HTTP/1.1\r\n\r\n";
    match callback_reply(no_code, "s") {
        CallbackReply::Respond { result, .. } => assert_eq!(result.unwrap_err(), AuthError::MissingCode),
        _ => panic!("expected a reply"),
    }
    assert!(matches!(callback_reply(b"GET", "s"), CallbackReply::Abort(AuthError::InvalidCallbackRequest)));
    assert!(matches!(callback_reply(&[0xff, 0xfe], "s"), CallbackReply::Abort(AuthError::InvalidCallback)));
}

#[test]
fn callback_keeps_the_last_repeated_value() {
    let q = vec![
        ("state".to_string(), "old".to_string()),
        ("state".to_string(), "new".to_string()),
        ("code".to_string(), "c".to_string()),
    ];
    assert_eq!(callback_outcome(&q, "new").unwrap(), "c");
    assert_eq!(callback_outcome(&q, "old").unwrap_err(), AuthError::InvalidState);
}

#[test]
fn callback_response_lengths_match() {
    let ok = callback_response(true);
    let body = ok.split("\r\n\r\n").nth(1).unwrap();
    assert!(ok.contains(&format!("Content-Length: {}\r\n", body.len())));
    let bad = callback_response(false);
    let body = bad.split("\r\n\r\n").nth(1).unwrap();
    assert!(bad.contains(&format!("Content-Length: {}\r\n", body.len())));
}

#[test]
fn request_target_is_the_second_word() {
    assert_eq!(request_target("GET /cb?x=1 HTTP/1.1").as_deref(), Some("/cb?x=1"));
    assert_eq!(request_target("  GET\t /a  ").as_deref(), Some("/a"));
    assert_eq!(request_target("GET"), None);
    assert_eq!(request_target(""), None);
}

#[test]
fn refresh_uses_the_discovered_oauth_client() {
    let mut config = Config {
        token: Some(TokenInfo {
            access_token: "old-access".into(),
            refresh_token: "old-refresh".into(),
            expires_at: String::new(),
        }),
        oauth: Some(OAuthInfo {
            client_id: "client_test".into(),
            token_endpoint: "http://127.0.0.1:9/oauth2/token".into(),
            resource: API_RESOURCE.into(),
        }),
        ..Config::default()
    };
    let plan = refresh_plan(&config).unwrap();
    assert_eq!(plan.endpoint, "http://127.0.0.1:9/oauth2/token");
    assert!(plan.form.contains(&("grant_type".to_string(), "refresh_token".to_string())));
    assert!(plan.form.contains(&("client_id".to_string(), "client_test".to_string())));
    assert!(plan.form.contains(&("refresh_token".to_string(), "old-refresh".to_string())));

    let response = RefreshResponse {
        access_token: "new-access".into(),
        refresh_token: Some("new-refresh".into()),
        expires_in: Some(3600),
    };
    apply_refresh(&mut config, response, (1_700_000_000, 0)).unwrap();
    let token = config.token.unwrap();
    assert_eq!(token.access_token, "new-access");
    assert_eq!(token.refresh_token, "new-refresh");
    assert!(!token.expires_at.is_empty());
    assert_eq!(token.expires_at, "2023-11-14T23:13:20+00:00");
}

#[test]
fn refresh_reuses_the_previous_refresh_token() {
    let mut config = Config {
        token: Some(TokenInfo { access_token: "a".into(), refresh_token: "keep".into(), expires_at: "x".into() }),
        ..Config::default()
    };
    let response = RefreshResponse { access_token: "b".into(), refresh_token: None, expires_in: None };
    apply_refresh(&mut config, response, (0, 0)).unwrap();
    let token = config.token.unwrap();
    assert_eq!(token.access_token, "b");
    assert_eq!(token.refresh_token, "keep");
    assert_eq!(token.expires_at, "");
}

#[test]
fn refresh_plan_errors() {
    assert_eq!(refresh_plan(&Config::default()).unwrap_err(), AuthError::NotAuthenticated);
    let injected = Config {
        token: Some(TokenInfo { access_token: "a".into(), refresh_token: String::new(), expires_at: String::new() }),
        ..Config::default()
    };
    let e = refresh_plan(&injected).unwrap_err();
    assert_eq!(e, AuthError::NotRefreshable);
    assert!(e.message().starts_with("this token cannot be refreshed (no refresh token).\n"));
    let legacy = Config {
        token: Some(TokenInfo { access_token: "a".into(), refresh_token: "r".into(), expires_at: String::new() }),
        ..Config::default()
    };
    assert_eq!(
        refresh_plan(&legacy).unwrap_err().message(),
        "this stored token predates OAuth login. Run `saturation login` again."
    );
    let failed = refresh_failure(401, "401 Unauthorized", "nope").unwrap();
    assert_eq!(failed.message(), "token refresh failed: HTTP 401 Unauthorized: nope");
    assert!(refresh_failure(200, "200 OK", "").is_none());
}

#[test]
fn metadata_validation() {
    let good = metadata("https://connect.saturation.io/", "https://connect.saturation.io", &["plain", "S256"]);
    assert_eq!(validate_metadata("https://connect.saturation.io", &good), Ok(()));

    let insecure = metadata("http://auth.example.com", "http://auth.example.com", &["S256"]);
    assert_eq!(validate_metadata("http://auth.example.com", &insecure), Err(AuthError::InsecureIssuer));

    let loopback = metadata("http://localhost:4000", "http://127.0.0.1:4000", &["S256"]);
    assert_eq!(validate_metadata("http://localhost:4000", &loopback), Ok(()));

    let other = metadata("https://evil.example.com", "https://connect.saturation.io", &["S256"]);
    assert_eq!(validate_metadata("https://connect.saturation.io", &other), Err(AuthError::IssuerMismatch));

    let no_pkce = metadata("https://connect.saturation.io", "https://connect.saturation.io", &["plain"]);
    assert_eq!(validate_metadata("https://connect.saturation.io", &no_pkce), Err(AuthError::NoPkceS256));

    let mixed = metadata("https://connect.saturation.io", "http://connect.saturation.io", &["S256"]);
    assert_eq!(validate_metadata("https://connect.saturation.io", &mixed), Err(AuthError::InsecureEndpoint));

    let mut broken = good;
    broken.token_endpoint = "not a url".into();
    assert_eq!(validate_metadata("https://connect.saturation.io", &broken), Err(AuthError::InvalidEndpoint));

    assert_eq!(validate_metadata("nope", &no_pkce), Err(AuthError::InvalidIssuer));
    assert_eq!(
        AuthError::InsecureIssuer.message(),
        "OAuth issuer must use HTTPS outside loopback development"
    );
}

#[test]
fn pkce_challenge_matches_the_rfc_example() {
    assert_eq!(
        pkce_challenge("dBjftJeZ4CVP-mB92K27uhbUJU1p1r_wW1gFWFOEjXk"),
        "E9Melhoa2OwvFrEMTJguCHaoeK1t8URWbuGJSstw-cM"
    );
    let p = new_pkce();
    assert_eq!(p.verifier.chars().count(), 64);
    assert!(p.verifier.chars().all(|c| c.is_ascii_alphanumeric()));
    assert_eq!(p.state.chars().count(), 32);
    assert!(p.state.chars().all(|c| c.is_ascii_alphanumeric()));
    assert_eq!(p.challenge, pkce_challenge(&p.verifier));
}

#[test]
fn authorize_url_carries_the_request() {
    let u = authorize_url(
        "https://connect.saturation.io/oauth2/authorize",
        "client_1",
        "http://127.0.0.1:5555/callback",
        "chal",
        "st8",
    )
    .unwrap();
    assert!(u.starts_with("https://connect.saturation.io/oauth2/authorize?response_type=code&client_id=client_1"));
    assert!(u.contains("redirect_uri=http%3A%2F%2F127.0.0.1%3A5555%2Fcallback"));
    assert!(u.contains("code_challenge=chal&code_challenge_method=S256"));
    assert!(u.contains("scope=openid+profile+email+offline_access"));
    assert!(u.contains("resource=https%3A%2F%2Fnext-api.saturation.io%2Fv1"));
    assert!(u.ends_with("state=st8"));
    assert_eq!(authorize_url("relative", "c", "r", "x", "s"), Err(AuthError::InvalidEndpoint));
}

#[test]
fn callback_url_and_exchange_form() {
    assert_eq!(callback_url(5555), "http://127.0.0.1:5555/callback");
    let f = token_exchange_form("code1", "client", "http://cb", "ver");
    assert_eq!(f[0], ("grant_type".to_string(), "authorization_code".to_string()));
    assert_eq!(f[1], ("code".to_string(), "code1".to_string()));
    assert_eq!(f[4], ("code_verifier".to_string(), "ver".to_string()));
    assert_eq!(f[5], ("resource".to_string(), API_RESOURCE.to_string()));
}

#[test]
fn token_response_checks() {
    let ok = OAuthTokenResponse {
        access_token: "a".into(),
        token_type: "Bearer".into(),
        refresh_token: "r".into(),
        expires_in: Some(3600),
        id_token: None,
    };
    assert_eq!(check_token_response(&ok), Ok(()));
    let mac = OAuthTokenResponse { token_type: "mac".into(), ..ok_clone(&ok) };
    assert_eq!(check_token_response(&mac), Err(AuthError::UnsupportedTokenType));
    let no_refresh = OAuthTokenResponse { refresh_token: String::new(), ..ok_clone(&ok) };
    assert_eq!(check_token_response(&no_refresh), Err(AuthError::NoRefreshToken));
    let zero = OAuthTokenResponse { expires_in: Some(0), ..ok_clone(&ok) };
    assert_eq!(check_token_response(&zero), Err(AuthError::InvalidLifetime));
    let upper = OAuthTokenResponse { token_type: "BEARER".into(), ..ok_clone(&ok) };
    assert_eq!(check_token_response(&upper), Ok(()));
    let failed = login_failure(400, "400 Bad Request", "bad").unwrap();
    assert_eq!(failed.message(), "Saturation login failed: HTTP 400 Bad Request: bad");
}

fn ok_clone(t: &OAuthTokenResponse) -> OAuthTokenResponse {
    OAuthTokenResponse {
        access_token: t.access_token.clone(),
        token_type: t.token_type.clone(),
        refresh_token: t.refresh_token.clone(),
        expires_in: t.expires_in,
        id_token: t.id_token.clone(),
    }
}

#[test]
fn jwt_payload_decoding() {
    // {"sub":"u1","email":"a@b.c"}
    let jwt = "eyJhbGciOiJub25lIn0.eyJzdWIiOiJ1MSIsImVtYWlsIjoiYUBiLmMifQ.sig";
    assert_eq!(decode_jwt_payload(jwt).as_deref(), Some(r#"{"email":"a@b.c","sub":"u1"}"#));
    assert_eq!(decode_jwt_payload("h.eyJzdWIiOiIxIn0.s").as_deref(), Some(r#"{"sub":"1"}"#));
    assert!(decode_jwt_payload("a.eyJzdWIiOiIxIn0.b.c").is_none());
    let mut t = OAuthTokenResponse {
        access_token: "h.eyJzdWIiOiIxIn0.s".into(),
        token_type: "Bearer".into(),
        refresh_token: "r".into(),
        expires_in: None,
        id_token: Some("not-a-jwt".into()),
    };
    assert_eq!(claims_payload(&t).as_deref(), Some(r#"{"sub":"1"}"#));
    t.id_token = Some(jwt.into());
    assert_eq!(claims_payload(&t).as_deref(), Some(r#"{"email":"a@b.c","sub":"u1"}"#));
    t.access_token = "opaque".into();
    t.id_token = None;
    assert!(claims_payload(&t).is_none());
    assert!(decode_jwt_payload("only.two").is_none());
    assert!(decode_jwt_payload("a.!!!.c").is_none());
    // "not json" in base64url
    assert!(decode_jwt_payload("a.bm90IGpzb24.c").is_none());
    assert_eq!(split_char("a.b..c", '.'), vec!["a", "b", "", "c"]);
    assert_eq!(split_char("", '.'), vec![""]);
}

#[test]
fn identity_and_login_completion() {
    let mut config = Config {
        user: Some(UserInfo { id: "old".into(), email: "old@x".into(), name: None }),
        ..Config::default()
    };
    let claims = Claims { sub: Some("u1".into()), email: Some("a@b.c".into()), name: Some("A".into()), exp: None };
    hydrate_identity(&mut config, &claims);
    let u = config.user.clone().unwrap();
    assert_eq!((u.id.as_str(), u.email.as_str(), u.name.as_deref()), ("u1", "a@b.c", Some("A")));

    let tokens = OAuthTokenResponse {
        access_token: "acc".into(),
        token_type: "Bearer".into(),
        refresh_token: "ref".into(),
        expires_in: None,
        id_token: None,
    };
    let anonymous = Claims { sub: None, email: None, name: None, exp: Some(0) };
    let expires_at = login_expiry(None, anonymous.exp, (1_700_000_000, 0)).unwrap();
    assert_eq!(expires_at, "1970-01-01T00:00:00+00:00");
    complete_login(&mut config, tokens, "cid".into(), "https://t".into(), &anonymous, expires_at);
    assert!(config.user.is_none());
    let t = config.token.clone().unwrap();
    assert_eq!(t.access_token, "acc");
    assert_eq!(t.refresh_token, "ref");
    let o = config.oauth.clone().unwrap();
    assert_eq!((o.client_id.as_str(), o.token_endpoint.as_str(), o.resource.as_str()), ("cid", "https://t", API_RESOURCE));
    assert_eq!(login_expiry(Some(60), None, (0, 0)).unwrap(), "1970-01-01T00:01:00+00:00");
    assert_eq!(login_expiry(None, None, (0, 0)).unwrap(), "");
}

#[test]
fn logout_forgets_credentials_only() {
    let mut config = Config {
        user: Some(UserInfo { id: "u".into(), email: "e".into(), name: None }),
        token: Some(TokenInfo { access_token: "a".into(), refresh_token: "r".into(), expires_at: String::new() }),
        oauth: Some(OAuthInfo { client_id: "c".into(), token_endpoint: "t".into(), resource: "r".into() }),
        active_workspace: Some("ws".into()),
        server: Some("http://s".into()),
        ..Config::default()
    };
    let line = logout(&mut config, &Output::new(OutputFormat::Json, false)).unwrap();
    assert!(config.token.is_none() && config.user.is_none() && config.oauth.is_none());
    assert_eq!(config.active_workspace.as_deref(), Some("ws"));
    assert_eq!(config.server.as_deref(), Some("http://s"));
    let text: String = line.iter().map(|s| s.text.clone()).collect();
    assert_eq!(text, "OK Logged out");
    let quiet = logout(&mut config, &Output::new(OutputFormat::Json, true));
    assert!(quiet.is_none());
}

fn tokens(token_type: &str, refresh: &str, expires_in: Option<i64>) -> OAuthTokenResponse {
    OAuthTokenResponse {
        access_token: "acc".into(),
        token_type: token_type.into(),
        refresh_token: refresh.into(),
        expires_in,
        id_token: None,
    }
}

fn answer<T>(status: u16, parsed: Option<T>) -> TokenAnswer<T> {
    TokenAnswer { status, status_text: format!("{status} X"), body: "body".into(), parsed }
}

#[test]
fn login_stores_only_an_accepted_answer() {
    let claims = Claims { sub: Some("s".into()), email: Some("e@x".into()), name: None, exp: None };
    let mut config = Config { server: Some("http://s".into()), ..Config::default() };

    let e = finish_login(&mut config, answer(400, Some(tokens("Bearer", "r", None))), &claims, "c".into(), "t".into(), (0, 0));
    assert_eq!(e.unwrap_err().message(), "Saturation login failed: HTTP 400 X: body");
    let e = finish_login(&mut config, answer::<OAuthTokenResponse>(200, None), &claims, "c".into(), "t".into(), (0, 0));
    assert_eq!(e.unwrap_err().message(), "invalid OAuth token response");
    let e = finish_login(&mut config, answer(200, Some(tokens("mac", "r", None))), &claims, "c".into(), "t".into(), (0, 0));
    assert_eq!(e.unwrap_err(), AuthError::UnsupportedTokenType);
    let e = finish_login(&mut config, answer(200, Some(tokens("Bearer", "r", Some(-5)))), &claims, "c".into(), "t".into(), (0, 0));
    assert_eq!(e.unwrap_err(), AuthError::InvalidLifetime);
    assert!(config.token.is_none() && config.oauth.is_none() && config.user.is_none());

    finish_login(&mut config, answer(200, Some(tokens("bearer", "r", Some(120)))), &claims, "c".into(), "t".into(), (0, 0)).unwrap();
    let t = config.token.clone().unwrap();
    assert_eq!((t.access_token.as_str(), t.refresh_token.as_str(), t.expires_at.as_str()), ("acc", "r", "1970-01-01T00:02:00+00:00"));
    assert_eq!(config.user.clone().unwrap().email, "e@x");
    assert_eq!(config.server.as_deref(), Some("http://s"));
}

#[test]
fn refresh_answers() {
    let base = || Config {
        token: Some(TokenInfo { access_token: "a".into(), refresh_token: "r".into(), expires_at: "old".into() }),
        ..Config::default()
    };
    let mut config = base();
    let e = finish_refresh(&mut config, answer::<RefreshResponse>(500, None), (0, 0)).unwrap_err();
    assert_eq!(e.message(), "token refresh failed: HTTP 500 X: body");
    let e = finish_refresh(&mut config, answer::<RefreshResponse>(200, None), (0, 0)).unwrap_err();
    assert_eq!(e.message(), "failed to parse refresh response");
    assert_eq!(config.token.clone().unwrap().expires_at, "old");
    let ok = RefreshResponse { access_token: "b".into(), refresh_token: None, expires_in: Some(-60) };
    finish_refresh(&mut config, answer(200, Some(ok)), (120, 5)).unwrap();
    let t = config.token.unwrap();
    assert_eq!((t.access_token.as_str(), t.refresh_token.as_str()), ("b", "r"));
    assert_eq!(t.expires_at, "1970-01-01T00:01:00.000000005+00:00");
}

#[test]
fn claims_come_from_the_payload_members() {
    let c = payload_claims(r#"{"sub":"u1","email":"a@b.c","name":7,"exp":1700000000}"#);
    assert_eq!(c.sub.as_deref(), Some("u1"));
    assert_eq!(c.email.as_deref(), Some("a@b.c"));
    assert_eq!(c.name, None);
    assert_eq!(c.exp, Some(1_700_000_000));
    let c = payload_claims("[1]");
    assert!(c.sub.is_none() && c.email.is_none() && c.name.is_none() && c.exp.is_none());
    let t = OAuthTokenResponse {
        access_token: "eyJhbGciOiJub25lIn0.eyJzdWIiOiJ1MSIsImVtYWlsIjoiYUBiLmMifQ.sig".into(),
        token_type: "Bearer".into(),
        refresh_token: "r".into(),
        expires_in: None,
        id_token: None,
    };
    assert_eq!(login_claims(&t).email.as_deref(), Some("a@b.c"));
    let opaque = OAuthTokenResponse { access_token: "opaque".into(), ..t };
    assert!(login_claims(&opaque).email.is_none());
}
