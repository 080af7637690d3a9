//! Tests of request planning: the upload and shorten requests of both
//! bridges, the file-count validation, and the client-setup decision.

use owo::bridge::hyper;
use owo::bridge::reqwest;
use owo::constants::{MAX_FILES, USER_AGENT};
use owo::request::{HttpRequest, Method, TransportOutcome};
use owo::Error;

const UPLOAD_URL: &str = "https://api.awau.moe/upload/pomf?key=";
const SHORTEN_URL: &str = "https://api.awau.moe/shorten/polr?action=shorten&url=";

#[test]
fn upload_files_over_limit_refused() {
    let payloads = vec![vec![1u8], vec![2u8], vec![3u8], vec![4u8]];
    assert!(payloads.len() > MAX_FILES);
    let r = reqwest::upload_files("secret", payloads);
    assert_eq!(r, Err(Error::TooManyFiles));
}

#[test]
fn upload_files_plans_one_post_with_parts_in_order() {
    let payloads = vec![vec![10u8, 11], vec![20u8]];
    let req = reqwest::upload_files("secret", payloads).expect("within the limit");
    assert_eq!(req.method, Method::Post);
    assert_eq!(req.url, format!("{}secret", UPLOAD_URL));
    assert_eq!(req.user_agent, USER_AGENT);
    assert_eq!(req.parts.len(), 2);
    assert_eq!(req.parts[0].name, "files[]");
    assert_eq!(req.parts[1].name, "files[]");
    assert_eq!(req.parts[0].data, vec![10u8, 11]);
    assert_eq!(req.parts[1].data, vec![20u8]);
}

#[test]
fn upload_files_accepts_limit_and_empty_batches() {
    let at_limit = vec![vec![1u8], vec![2u8], vec![3u8]];
    let req = reqwest::upload_files("k", at_limit).expect("exactly the limit");
    assert_eq!(req.parts.len(), 3);

    let empty: Vec<Vec<u8>> = vec![];
    let req = reqwest::upload_files("k", empty).expect("an empty batch");
    assert_eq!(req.parts.len(), 0);
}

#[test]
fn upload_file_matches_single_file_batch() {
    let single = reqwest::upload_file("secret", vec![5u8, 6, 7]);
    let batch = reqwest::upload_files("secret", vec![vec![5u8, 6, 7]]).expect("one file");
    assert_eq!(single, batch);
    assert_eq!(single.parts.len(), 1);
}

#[test]
fn shorten_plans_one_get_with_raw_query() {
    let req = reqwest::shorten_url("KEY", "https://example.com");
    assert_eq!(req.method, Method::Get);
    assert_eq!(
        req.url,
        format!("{}https://example.com&key=KEY", SHORTEN_URL)
    );
    assert_eq!(req.user_agent, USER_AGENT);
    assert!(req.parts.is_empty());
}

#[test]
fn shorten_response_returns_body_verbatim() {
    let r = reqwest::shorten_response(TransportOutcome::Body("https://owo.gg/x".to_string()));
    assert_eq!(r, Ok("https://owo.gg/x".to_string()));

    let r = reqwest::shorten_response(TransportOutcome::SendFailed("boom".to_string()));
    assert_eq!(r, Err(Error::TransportError("boom".to_string())));

    let r = reqwest::shorten_response(TransportOutcome::ReadFailed("eof".to_string()));
    assert_eq!(r, Err(Error::Io("eof".to_string())));
}

#[test]
fn every_planned_request_carries_the_user_agent() {
    assert_eq!(
        USER_AGENT,
        "WhatsThisClient (https://github.com/whats-this/owo.rs, 0.2.0)"
    );
    let upload_one = reqwest::upload_file("k", vec![1u8]);
    assert_eq!(upload_one.user_agent, USER_AGENT);
    let upload_many = reqwest::upload_files("k", vec![vec![1u8]]).expect("one file");
    assert_eq!(upload_many.user_agent, USER_AGENT);
    let shorten = reqwest::shorten_url("k", "https://example.com");
    assert_eq!(shorten.user_agent, USER_AGENT);
    let shorten_async = hyper::shorten_url("k", "https://example.com").expect("a valid target");
    assert_eq!(shorten_async.user_agent, USER_AGENT);
}

#[test]
fn hyper_shorten_plans_the_same_get() {
    let blocking: HttpRequest = reqwest::shorten_url("KEY", "https://example.com");
    let pending = hyper::shorten_url("KEY", "https://example.com").expect("a valid target");
    assert_eq!(blocking, pending);
}

#[test]
fn hyper_shorten_refuses_a_malformed_target() {
    let r = hyper::shorten_url("KEY", "https://exa mple.com");
    assert!(matches!(r, Err(Error::InvalidUri(_))));
}

#[test]
fn client_setup_surfaces_tls_failure_and_plans_nothing() {
    let r = hyper::client_setup::<u32>("KEY".to_string(), Err("broken trust store".to_string()));
    assert_eq!(r, Err(Error::TlsSetup("broken trust store".to_string())));
}

#[test]
fn client_setup_keeps_connector_and_key() {
    let r = hyper::client_setup::<u32>("KEY".to_string(), Ok(7));
    assert_eq!(r, Ok((7, "KEY".to_string())));
}
