use notify_hook::config::Config;
use notify_hook::deliver::{delivery_aborts, prepare_delivery};
use notify_hook::json::to_json;
use notify_hook::form::to_urlencoded;
use notify_hook::payload::{Commit, CommitSource, Payload, SigSource};
use notify_hook::sign::compute_signature;

fn s(v: &str) -> String {
    v.to_string()
}

fn payload() -> Payload {
    let commit = Commit::from(CommitSource {
        id: s("a"),
        tree_id: s("t"),
        message: Some(s("m")),
        timestamp: s("ts"),
        author: SigSource { name: Some(s("n")), email: Some(s("e")) },
        committer: SigSource { name: Some(s("n")), email: Some(s("e")) },
        parent_deltas: None,
    });
    let config = Config::from_values(Some(s("repo")), None, None, None, None, None, None, None)
        .unwrap();
    Payload::from(&config, commit, vec![], "b", "c", "master")
}

fn config(content_type: Option<&str>, token: Option<&str>) -> Config {
    Config::from_values(
        Some(s("repo")),
        None,
        None,
        None,
        None,
        Some(s("http://a.example/h")),
        token.map(s),
        content_type.map(s),
    )
    .unwrap()
}

#[test]
fn signature_matches_known_hmac_sha1_vector() {
    // RFC 2202, HMAC-SHA1 test case 2.
    let sig = compute_signature(&b"Jefe".to_vec(), &b"what do ya want for nothing?".to_vec());
    assert_eq!(sig, "EFFCDF6AE5EB2FA2D27416D5F184DF9C259A7C79");
}

#[test]
fn signature_is_deterministic_and_body_sensitive() {
    let token = b"secret".to_vec();
    let body = b"payload bytes".to_vec();
    assert_eq!(compute_signature(&token, &body), compute_signature(&token, &body));
    let mut other = body.clone();
    other[0] ^= 1;
    assert_ne!(compute_signature(&token, &body), compute_signature(&token, &other));
}

#[test]
fn prepare_delivery_json_without_token() {
    let p = payload();
    let r = prepare_delivery(&config(Some("json"), None), &p);
    assert_eq!(r.body, to_json(&p));
    assert_eq!(r.content_type, "application/json");
    assert!(r.signature.is_none());
}

#[test]
fn prepare_delivery_urlencoded_by_default() {
    let p = payload();
    let r = prepare_delivery(&config(None, None), &p);
    assert_eq!(r.body, to_urlencoded(&p));
    assert_eq!(r.content_type, "application/x-www-form-urlencoded");
    assert!(r.signature.is_none());
}

#[test]
fn prepare_delivery_signs_exact_body_bytes() {
    let p = payload();
    // "4a656665" is hex for the token bytes "Jefe".
    let r = prepare_delivery(&config(Some("json"), Some("4a656665")), &p);
    let expected = compute_signature(&b"Jefe".to_vec(), &r.body);
    assert_eq!(r.signature.as_deref(), Some(expected.as_str()));
}

#[test]
fn server_error_aborts_delivery() {
    assert!(delivery_aborts(500));
}

#[test]
fn client_error_aborts_delivery() {
    assert!(delivery_aborts(404));
}

#[test]
fn success_and_redirect_do_not_abort() {
    assert!(!delivery_aborts(200));
    assert!(!delivery_aborts(204));
    assert!(!delivery_aborts(304));
}
