use prometheus_wireguard_exporter::server::{
    basic_credentials_of, complete_request, credentials_match, decide_request, is_authorized,
    route_request, unauthorized,
};
use prometheus_wireguard_exporter::{Authorization, Decision, Reply, Route};

fn basic(password: &str) -> Authorization {
    Authorization::Basic(password.to_owned())
}

fn rejected_status(decision: Decision) -> u16 {
    match decision {
        Decision::Respond(reply) => {
            assert!(reply.content_type.is_none());
            assert!(reply.body.is_empty());
            reply.status
        }
        Decision::InvokeCallback => panic!("the callback would be invoked"),
    }
}

fn invokes_callback(decision: &Decision) -> bool {
    matches!(decision, Decision::InvokeCallback)
}

fn status_for(authorization: &Authorization, header: Option<&[u8]>) -> u16 {
    match decide_request(authorization, header, "/metrics", "GET") {
        Decision::Respond(reply) => reply.status,
        Decision::InvokeCallback => 200,
    }
}

#[test]
fn serves_metrics_for_get() {
    let decision = decide_request(&Authorization::Disabled, None, "/metrics", "GET");
    assert!(invokes_callback(&decision));
    let reply: Reply = complete_request(Ok("metric 1\n".to_owned()));
    assert_eq!(reply.status, 200);
    assert_eq!(reply.content_type, Some("text/plain; version=0.0.4"));
    assert_eq!(reply.body, "metric 1\n");
}

#[test]
fn rejects_unknown_path() {
    let decision = decide_request(&Authorization::Disabled, None, "/health", "GET");
    assert!(!invokes_callback(&decision));
    assert_eq!(rejected_status(decision), 404);
}

#[test]
fn rejects_non_get_method() {
    let decision = decide_request(&Authorization::Disabled, None, "/metrics", "POST");
    assert!(!invokes_callback(&decision));
    assert_eq!(rejected_status(decision), 405);
}

#[test]
fn returns_internal_server_error() {
    let decision = decide_request(&Authorization::Disabled, None, "/metrics", "GET");
    assert!(invokes_callback(&decision));
    let reply = complete_request(Err("metric generation failed".to_owned()));
    assert_eq!(reply.status, 500);
    assert!(reply.content_type.is_none());
    assert_eq!(reply.body, "metric generation failed");
}

#[test]
fn basic_auth_missing_header_returns_unauthorized() {
    assert_eq!(status_for(&basic("secret"), None), 401);
}

#[test]
fn basic_auth_malformed_header_returns_unauthorized() {
    assert_eq!(status_for(&basic("secret"), Some(b"Basic")), 401);
}

#[test]
fn basic_auth_invalid_header_value_returns_unauthorized() {
    assert_eq!(status_for(&basic("secret"), Some(b"Basic \xff")), 401);
}

#[test]
fn basic_auth_extra_token_returns_unauthorized() {
    assert_eq!(status_for(&basic("secret"), Some(b"Basic token extra")), 401);
}

#[test]
fn basic_auth_rejects_non_literal_space_formatting() {
    for value in [
        "Basic\tOnNlY3JldA==",
        "Basic  OnNlY3JldA==",
        " Basic OnNlY3JldA==",
        "Basic OnNlY3JldA== ",
    ] {
        assert_eq!(
            status_for(&basic("secret"), Some(value.as_bytes())),
            401,
            "{value:?}"
        );
    }
}

#[test]
fn basic_auth_non_basic_scheme_returns_unauthorized() {
    assert_eq!(status_for(&basic("secret"), Some(b"Bearer token")), 401);
}

#[test]
fn basic_auth_invalid_base64_returns_unauthorized() {
    assert_eq!(status_for(&basic("secret"), Some(b"Basic not-base64")), 401);
}

#[test]
fn basic_auth_invalid_utf8_returns_unauthorized() {
    assert_eq!(status_for(&basic("secret"), Some(b"Basic //4=")), 401);
}

#[test]
fn basic_auth_wrong_password_returns_unauthorized() {
    assert_eq!(status_for(&basic("secret"), Some(b"Basic d3Jvbmc=")), 401);
}

#[test]
fn basic_auth_valid_secret_reaches_callback() {
    let decision = decide_request(
        &basic("secret"),
        Some(b"Basic OnNlY3JldA=="),
        "/metrics",
        "GET",
    );
    assert!(invokes_callback(&decision));
    let reply = complete_request(Ok("metric 1\n".to_owned()));
    assert_eq!(reply.status, 200);
}

#[test]
fn basic_auth_valid_credentials_still_route_unknown_path() {
    let decision = decide_request(
        &basic("secret"),
        Some(b"Basic OnNlY3JldA=="),
        "/unknown",
        "GET",
    );
    assert_eq!(rejected_status(decision), 404);
}

#[test]
fn unauthorized_takes_precedence_over_path_and_method() {
    let decision = decide_request(&basic("secret"), None, "/unknown", "POST");
    assert_eq!(rejected_status(decision), 401);
    assert_eq!(
        route_request(&basic("secret"), Some(b"Basic d3Jvbmc="), "/other", "PUT"),
        Route::Unauthorized
    );
}

#[test]
fn routes_each_outcome() {
    let open = Authorization::Disabled;
    assert_eq!(route_request(&open, None, "/metrics", "GET"), Route::Metrics);
    assert_eq!(route_request(&open, None, "/metrics/", "GET"), Route::NotFound);
    assert_eq!(route_request(&open, None, "/metrics", "get"), Route::MethodNotAllowed);
    assert_eq!(route_request(&open, None, "/x", "HEAD"), Route::NotFound);
}

#[test]
fn disabled_authorization_ignores_header() {
    assert!(is_authorized(None, &Authorization::Disabled));
    assert!(is_authorized(Some(b"garbage \xff"), &Authorization::Disabled));
}

#[test]
fn user_name_must_be_empty() {
    // "user:secret" in base64
    assert!(!is_authorized(Some(b"Basic dXNlcjpzZWNyZXQ="), &basic("secret")));
    assert!(is_authorized(Some(b"Basic OnNlY3JldA=="), &basic("secret")));
}

#[test]
fn extracts_basic_credentials() {
    assert_eq!(basic_credentials_of(b"Basic abc"), Some(&b"abc"[..]));
    assert_eq!(basic_credentials_of(b"Basic "), Some(&b""[..]));
    assert_eq!(basic_credentials_of(b"basic abc"), None);
    assert_eq!(basic_credentials_of(b"Basic\tabc"), None);
    assert_eq!(basic_credentials_of(b"Basic a\x7f"), None);
    assert_eq!(basic_credentials_of(b"Basic a\tb"), Some(&b"a\tb"[..]));
    assert_eq!(basic_credentials_of(b""), None);
}

#[test]
fn matches_decoded_credentials() {
    assert!(credentials_match(Some(b":secret".to_vec()), "secret"));
    assert!(!credentials_match(Some(b"secret".to_vec()), "secret"));
    assert!(!credentials_match(Some(vec![0xff, 0xfe]), "secret"));
    assert!(!credentials_match(None, "secret"));
    assert!(credentials_match(Some(":p\u{e9}".as_bytes().to_vec()), "p\u{e9}"));
}

#[test]
fn empty_password_accepts_lone_colon() {
    // ":" in base64
    assert!(is_authorized(Some(b"Basic Og=="), &basic("")));
    assert!(!is_authorized(Some(b"Basic "), &basic("")));
}

#[test]
fn unauthorized_reply_is_empty_401() {
    let reply = unauthorized();
    assert_eq!(reply.status, 401);
    assert!(reply.content_type.is_none());
    assert!(reply.body.is_empty());
}

#[test]
fn authorization_compares_by_password() {
    assert_eq!(basic("secret"), basic("secret"));
    assert_ne!(basic("secret"), basic("other"));
    assert_ne!(basic("secret"), Authorization::Disabled);
    assert_eq!(Authorization::Disabled, Authorization::Disabled.clone());
}
