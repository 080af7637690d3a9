//! Tests of the unified error type and of the upload outcome
//! interpretation.

use owo::bridge::reqwest::upload_response;
use owo::request::TransportOutcome;
use owo::Error;

#[test]
fn messages_carry_the_underlying_text() {
    assert_eq!(Error::Io("read failed".to_string()).message(), "read failed");
    assert_eq!(Error::Json("bad body".to_string()).message(), "bad body");
    assert_eq!(Error::TlsSetup("no trust".to_string()).message(), "no trust");
    assert_eq!(
        Error::TransportError("refused".to_string()).message(),
        "refused"
    );
    assert_eq!(
        Error::InvalidUri("bad target".to_string()).message(),
        "bad target"
    );
}

#[test]
fn too_many_files_has_its_fixed_message() {
    assert_eq!(Error::TooManyFiles.message(), "Too many files to upload");
}

#[test]
fn upload_response_decodes_a_read_body() {
    let body = "{\"files\":[{\"hash\":\"h\",\"name\":null,\"size\":9,\"url\":\"/h\"}],\"success\":true}";
    let resp = upload_response(TransportOutcome::Body(body.to_string())).expect("decodes");
    assert!(resp.success);
    assert_eq!(resp.files[0].size, 9);
}

#[test]
fn upload_response_maps_each_failed_step() {
    let r = upload_response(TransportOutcome::Body("not json".to_string()));
    assert!(matches!(r, Err(Error::Json(_))));

    let r = upload_response(TransportOutcome::SendFailed("refused".to_string()));
    assert_eq!(r, Err(Error::TransportError("refused".to_string())));

    let r = upload_response(TransportOutcome::ReadFailed("cut off".to_string()));
    assert_eq!(r, Err(Error::Json("cut off".to_string())));
}
