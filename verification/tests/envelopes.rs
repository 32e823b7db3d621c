//! Envelope construction invariants and header behaviour.

use prost_twirp::service_run::{ServiceRequest, ServiceResponse};
use prost_twirp::wire::{decimal_string, Headers};

#[test]
fn new_request_is_post_with_protobuf_content_type() {
    let req = ServiceRequest::new(vec![1u8, 2, 3]);
    assert_eq!(req.method, "POST");
    assert_eq!(req.uri, "");
    assert_eq!(
        req.headers.get("content-type").as_deref(),
        Some("application/protobuf")
    );
}

#[test]
fn new_response_is_200_with_protobuf_content_type() {
    let resp = ServiceResponse::new(vec![9u8]);
    assert_eq!(resp.status, 200);
    assert_eq!(
        resp.headers.get("content-type").as_deref(),
        Some("application/protobuf")
    );
}

#[test]
fn clone_with_input_keeps_metadata() {
    let mut req = ServiceRequest::new(vec![1u8]);
    req.uri = "/somewhere".to_string();
    req.headers.insert("x-extra", "yes");
    let copy = req.clone_with_input(vec![2u8]);
    assert_eq!(copy.uri, "/somewhere");
    assert_eq!(copy.method, "POST");
    assert_eq!(copy.headers.get("x-extra").as_deref(), Some("yes"));
    assert_eq!(copy.input, vec![2u8]);
}

#[test]
fn clone_with_output_keeps_metadata() {
    let mut resp = ServiceResponse::new(vec![1u8]);
    resp.status = 201;
    let copy = resp.clone_with_output(vec![7u8]);
    assert_eq!(copy.status, 201);
    assert_eq!(
        copy.headers.get("content-type").as_deref(),
        Some("application/protobuf")
    );
    assert_eq!(copy.output, vec![7u8]);
}

#[test]
fn header_lookup_ignores_ascii_case() {
    let req = ServiceRequest::new(vec![0u8]);
    assert_eq!(
        req.headers.get("Content-Type").as_deref(),
        Some("application/protobuf")
    );
    assert_eq!(
        req.headers.get("CONTENT-TYPE").as_deref(),
        Some("application/protobuf")
    );
    assert_eq!(req.headers.get("content-type-x"), None);
}

#[test]
fn header_insert_replaces_every_match() {
    let mut headers = Headers {
        entries: vec![
            ("X-Thing".to_string(), "one".to_string()),
            ("other".to_string(), "kept".to_string()),
            ("x-thing".to_string(), "two".to_string()),
        ],
    };
    headers.insert("X-THING", "three");
    assert_eq!(headers.entries.len(), 2);
    assert_eq!(headers.get("x-thing").as_deref(), Some("three"));
    assert_eq!(headers.get("other").as_deref(), Some("kept"));
}

#[test]
fn header_get_returns_first_match() {
    let headers = Headers {
        entries: vec![
            ("dup".to_string(), "first".to_string()),
            ("DUP".to_string(), "second".to_string()),
        ],
    };
    assert_eq!(headers.get("dup").as_deref(), Some("first"));
}

#[test]
fn decimal_rendering_is_exact() {
    assert_eq!(decimal_string(0), "0");
    assert_eq!(decimal_string(7), "7");
    assert_eq!(decimal_string(1234), "1234");
    assert_eq!(decimal_string(1000000), "1000000");
}
