//! Tests of the response codec: decoding the upload endpoint's JSON,
//! encoding a response back, and the round trip between the two.

use owo::codec::{decode_upload_response, encode_upload_response};
use owo::{Error, FileUploadResponse, UploadedFile};

fn file(hash: &str, name: Option<&str>, size: u64, url: &str) -> UploadedFile {
    UploadedFile {
        hash: hash.to_string(),
        name: name.map(|n| n.to_string()),
        size,
        url: url.to_string(),
    }
}

#[test]
fn decodes_a_canned_upload_response() {
    let body = "{\"success\": true, \"files\": [{\"hash\":\"abc\",\"name\":null,\"size\":42,\"url\":\"/abc.png\"}]}";
    let resp = decode_upload_response(body).expect("a well-formed body");
    assert!(resp.success);
    assert_eq!(resp.files.len(), 1);
    assert_eq!(resp.files[0].name, None);
    assert_eq!(resp.files[0].size, 42);
    assert_eq!(resp.files[0].hash, "abc");
    assert_eq!(resp.files[0].url, "/abc.png");
}

#[test]
fn decodes_named_files_and_ignores_extra_members() {
    let body = "{\"extra\":[1,2],\"files\":[{\"hash\":\"h\",\"name\":\"cat.png\",\"size\":0,\"url\":\"/h\",\"spare\":null}],\"success\":false}";
    let resp = decode_upload_response(body).expect("a well-formed body");
    assert!(!resp.success);
    assert_eq!(resp.files[0].name.as_deref(), Some("cat.png"));
    assert_eq!(resp.files[0].size, 0);
}

#[test]
fn decodes_an_empty_file_list_as_given() {
    let resp = decode_upload_response("{\"files\":[],\"success\":true}").expect("empty is fine");
    assert!(resp.success);
    assert!(resp.files.is_empty());
}

#[test]
fn rejects_bodies_off_the_schema() {
    let bad = [
        "not json at all",
        "[]",
        "null",
        "{\"success\":true}",
        "{\"files\":[]}",
        "{\"files\":[],\"success\":\"yes\"}",
        "{\"files\":{},\"success\":true}",
        "{\"files\":[{\"name\":null,\"size\":1,\"url\":\"/x\"}],\"success\":true}",
        "{\"files\":[{\"hash\":\"h\",\"size\":-1,\"url\":\"/x\"}],\"success\":true}",
        "{\"files\":[{\"hash\":\"h\",\"size\":1.5,\"url\":\"/x\"}],\"success\":true}",
        "{\"files\":[{\"hash\":\"h\",\"size\":\"1\",\"url\":\"/x\"}],\"success\":true}",
        "{\"files\":[{\"hash\":\"h\",\"name\":3,\"size\":1,\"url\":\"/x\"}],\"success\":true}",
        "{\"files\":[{\"hash\":\"h\",\"size\":1}],\"success\":true}",
    ];
    for body in bad {
        let r = decode_upload_response(body);
        assert!(matches!(r, Err(Error::Json(_))), "accepted: {}", body);
    }
}

#[test]
fn encodes_a_response_exactly() {
    let resp = FileUploadResponse {
        files: vec![file("abc", None, 42, "/abc.png")],
        success: true,
    };
    assert_eq!(
        encode_upload_response(&resp),
        "{\"files\":[{\"hash\":\"abc\",\"name\":null,\"size\":42,\"url\":\"/abc.png\"}],\"success\":true}"
    );
}

#[test]
fn encodes_several_files_comma_separated() {
    let resp = FileUploadResponse {
        files: vec![file("a", Some("x"), 1, "/a"), file("b", None, 2, "/b")],
        success: false,
    };
    assert_eq!(
        encode_upload_response(&resp),
        "{\"files\":[{\"hash\":\"a\",\"name\":\"x\",\"size\":1,\"url\":\"/a\"},{\"hash\":\"b\",\"name\":null,\"size\":2,\"url\":\"/b\"}],\"success\":false}"
    );
}

#[test]
fn encodes_escapes_and_large_sizes_exactly() {
    let resp = FileUploadResponse {
        files: vec![file(
            "a\"b\\c\nd",
            Some("tab\tname"),
            u64::MAX,
            "/ünïcode",
        )],
        success: true,
    };
    assert_eq!(
        encode_upload_response(&resp),
        "{\"files\":[{\"hash\":\"a\\\"b\\\\c\\u000ad\",\"name\":\"tab\\u0009name\",\"size\":18446744073709551615,\"url\":\"/ünïcode\"}],\"success\":true}"
    );
}

#[test]
fn round_trips_a_synthetic_response() {
    let resp = FileUploadResponse {
        files: vec![
            file("plain", None, 0, "/p"),
            file("qu\"ote", Some("na\\me"), 42, "/q"),
            file("ctrl\u{1}\u{1f}", Some(""), u64::MAX, "snow☃man"),
        ],
        success: true,
    };
    let encoded = encode_upload_response(&resp);
    let decoded = decode_upload_response(&encoded).expect("own encoding decodes");
    assert_eq!(decoded, resp);
}

#[test]
fn round_trips_a_failed_response() {
    let resp = FileUploadResponse { files: vec![], success: false };
    let encoded = encode_upload_response(&resp);
    let decoded = decode_upload_response(&encoded).expect("own encoding decodes");
    assert_eq!(decoded, resp);
}

#[test]
fn encoded_text_reads_back_through_the_decode_capability() {
    let resp = FileUploadResponse {
        files: vec![file("ha\"sh", Some("a\nb"), 7, "/u")],
        success: true,
    };
    let encoded = encode_upload_response(&resp);
    let v: serde_json::Value = serde_json::from_str(&encoded).expect("valid JSON");
    assert_eq!(v["success"].as_bool(), Some(true));
    let files = v["files"].as_array().expect("an array");
    assert_eq!(files.len(), 1);
    assert_eq!(files[0]["hash"].as_str(), Some("ha\"sh"));
    assert_eq!(files[0]["name"].as_str(), Some("a\nb"));
    assert_eq!(files[0]["size"].as_u64(), Some(7));
    assert_eq!(files[0]["url"].as_str(), Some("/u"));
}
