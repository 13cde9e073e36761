use inventor_bot::api::auth::{
    authorize_url, endpoint_url, query_string, redirect_uri, register_form, verify, Client,
    TOKEN_PATH,
};
use inventor_bot::api::{is_success, remote_error};

fn pairs(v: &[(&str, &str)]) -> Vec<(String, String)> {
    v.iter().map(|(a, b)| (a.to_string(), b.to_string())).collect()
}

fn client() -> Client {
    Client { client_id: String::from("id1"), client_secret: String::from("sec1") }
}

#[test]
fn redirect_uri_formats_port() {
    assert_eq!(redirect_uri(65233), "http://127.0.0.1:65233");
    assert_eq!(redirect_uri(0), "http://127.0.0.1:0");
    assert_eq!(redirect_uri(8080), "http://127.0.0.1:8080");
}

#[test]
fn urls_join_host_and_path() {
    assert_eq!(endpoint_url("example.social", TOKEN_PATH), "https://example.social/oauth/token");
}

#[test]
fn forms_hold_fixed_scope() {
    assert_eq!(
        register_form("inventor_bot", 7, "https://site"),
        pairs(&[
            ("client_name", "inventor_bot"),
            ("redirect_uris", "http://127.0.0.1:7"),
            ("scopes", "write:statuses"),
            ("website", "https://site"),
        ])
    );
    let c = client();
    assert_eq!(
        c.authorize_query(7, "en"),
        pairs(&[
            ("response_type", "code"),
            ("client_id", "id1"),
            ("redirect_uri", "http://127.0.0.1:7"),
            ("scope", "write:statuses"),
            ("lang", "en"),
        ])
    );
    assert_eq!(
        c.token_form("XYZ", 7),
        pairs(&[
            ("grant_type", "authorization_code"),
            ("code", "XYZ"),
            ("client_id", "id1"),
            ("client_secret", "sec1"),
            ("redirect_uri", "http://127.0.0.1:7"),
            ("scope", "write:statuses"),
        ])
    );
    assert_eq!(
        c.revoke_form("Bearer t"),
        pairs(&[("client_id", "id1"), ("client_secret", "sec1"), ("token", "Bearer t")])
    );
}

#[test]
fn remote_error_shapes() {
    let e = remote_error(r#"{"error":"invalid_grant","error_description":"Code expired"}"#, "ctx");
    assert_eq!((e.context.as_str(), e.message.as_str()), ("invalid_grant", "Code expired"));
    let e = remote_error(r#"{"error":"Forbidden"}"#, "ctx");
    assert_eq!((e.context.as_str(), e.message.as_str()), ("ctx", "Forbidden"));
    let e = remote_error(r#"{"error":"x","error_description":5}"#, "ctx");
    assert_eq!((e.context.as_str(), e.message.as_str()), ("ctx", r#"{"error":"x","error_description":5}"#));
    let e = remote_error(r#"{"error":"x","error_description":null}"#, "ctx");
    assert_eq!((e.context.as_str(), e.message.as_str()), ("ctx", "x"));
    let e = remote_error(r#"{"error":7}"#, "ctx");
    assert_eq!(e.message, r#"{"error":7}"#);
    let e = remote_error("Bad Gateway", "ctx");
    assert_eq!((e.context.as_str(), e.message.as_str()), ("ctx", "Bad Gateway"));
}

#[test]
fn registration_response() {
    let c = Client::new(200, r#"{"client_id":"abc","client_secret":"xyz","id":"5"}"#).unwrap();
    assert_eq!((c.client_id.as_str(), c.client_secret.as_str()), ("abc", "xyz"));
    let e = Client::new(422, r#"{"error":"Validation failed"}"#).unwrap_err();
    assert_eq!(e.context, "Failed to create client.");
    assert_eq!(e.message, "Validation failed");
    assert!(Client::new(200, "{}").is_err());
}

#[test]
fn token_response() {
    let c = client();
    assert_eq!(c.token(200, r#"{"access_token":"tok","token_type":"Bearer"}"#).unwrap(), "Bearer tok");
    let e = c.token(400, r#"{"error":"invalid_grant","error_description":"bad code"}"#).unwrap_err();
    assert_eq!((e.context.as_str(), e.message.as_str()), ("invalid_grant", "bad code"));
}

#[test]
fn revoke_and_verify_status() {
    let c = client();
    assert!(c.revoke(200, "").is_ok());
    let e = c.revoke(403, "nope").unwrap_err();
    assert_eq!(e.message, "nope");
    assert!(verify(204).is_ok());
    assert!(verify(401).is_err());
    assert!(is_success(299));
    assert!(!is_success(300));
    assert!(!is_success(199));
}

#[test]
fn authorize_url_encodes_query() {
    let q = pairs(&[("response_type", "code"), ("redirect_uri", "http://127.0.0.1:7"), ("lang", "en")]);
    assert_eq!(
        query_string(&q).unwrap(),
        "response_type=code&redirect_uri=http%3A%2F%2F127.0.0.1%3A7&lang=en"
    );
    assert_eq!(query_string(&Vec::new()).unwrap(), "");
    assert_eq!(
        authorize_url("a.social", &pairs(&[("scope", "write:statuses")])).unwrap(),
        "https://a.social/oauth/authorize?scope=write%3Astatuses"
    );
}
