//! The Twirp error's JSON wire form: encode/decode symmetry and lenient
//! decoding.

use prost_twirp::errors::TwirpError;

fn min_max_meta() -> serde_json::Value {
    let mut m = serde_json::Map::new();
    m.insert("min".to_string(), serde_json::Value::from(1));
    m.insert("max".to_string(), serde_json::Value::from(10));
    serde_json::Value::Object(m)
}

#[test]
fn error_json_bytes_round_trip_with_meta() {
    let e = TwirpError::new_meta(400, "too_small", "Size too small", Some(min_max_meta()));
    let bytes = e.to_json_bytes().unwrap();
    let back = TwirpError::from_json_bytes(400, &bytes).unwrap();
    assert_eq!(back.status, 400);
    assert_eq!(back.error_type, "too_small");
    assert_eq!(back.msg, "Size too small");
    assert_eq!(back.meta, Some(min_max_meta()));
}

#[test]
fn error_json_bytes_round_trip_without_meta() {
    let e = TwirpError::new(404, "not_found", "nothing here");
    let bytes = e.to_json_bytes().unwrap();
    let back = TwirpError::from_json_bytes(404, &bytes).unwrap();
    assert_eq!(back.error_type, "not_found");
    assert_eq!(back.msg, "nothing here");
    assert_eq!(back.meta, None);
}

#[test]
fn to_json_emits_exactly_the_three_fields() {
    let e = TwirpError::new_meta(500, "kind", "text", Some(serde_json::Value::from(3)));
    let bytes = e.to_json_bytes().unwrap();
    let v: serde_json::Value = serde_json::from_slice(&bytes).unwrap();
    let obj = v.as_object().unwrap();
    assert_eq!(obj.len(), 3);
    assert_eq!(obj["error_type"], serde_json::Value::String("kind".to_string()));
    assert_eq!(obj["msg"], serde_json::Value::String("text".to_string()));
    assert_eq!(obj["meta"], serde_json::Value::from(3));
}

#[test]
fn decoding_without_error_type_keeps_whole_object_as_meta() {
    let mut m = serde_json::Map::new();
    m.insert("msg".to_string(), serde_json::Value::String("oops".to_string()));
    m.insert("extra".to_string(), serde_json::Value::from(42));
    let v = serde_json::Value::Object(m);
    let e = TwirpError::from_json(500, v.clone());
    assert_eq!(e.status, 500);
    assert_eq!(e.error_type, "<no code>");
    assert_eq!(e.msg, "oops");
    assert_eq!(e.meta, Some(v));
}

#[test]
fn decoding_with_error_type_takes_only_the_meta_field() {
    let mut m = serde_json::Map::new();
    m.insert(
        "error_type".to_string(),
        serde_json::Value::String("bad".to_string()),
    );
    m.insert("other".to_string(), serde_json::Value::from(1));
    let v = serde_json::Value::Object(m);
    let e = TwirpError::from_json(400, v);
    assert_eq!(e.error_type, "bad");
    assert_eq!(e.msg, "<no message>");
    assert_eq!(e.meta, None);
}

#[test]
fn decoding_a_non_object_keeps_it_as_meta() {
    let v = serde_json::Value::from(5);
    let e = TwirpError::from_json(500, v.clone());
    assert_eq!(e.error_type, "<no code>");
    assert_eq!(e.msg, "<no message>");
    assert_eq!(e.meta, Some(v));
}

#[test]
fn invalid_json_bytes_fail_to_decode() {
    assert!(TwirpError::from_json_bytes(500, b"{not json").is_err());
}

#[test]
fn error_response_carries_status_headers_and_json_body() {
    let e = TwirpError::new(405, "bad_method", "Method must be POST");
    let resp = e.to_hyper_response();
    assert_eq!(resp.status, 405);
    assert_eq!(
        resp.headers.get("content-type").as_deref(),
        Some("application/json")
    );
    assert_eq!(resp.headers.get("allow").as_deref(), Some("POST"));
    assert_eq!(
        resp.headers.get("content-length").as_deref(),
        Some(resp.body.len().to_string().as_str())
    );
    let v: serde_json::Value = serde_json::from_slice(&resp.body).unwrap();
    assert_eq!(v["error_type"], serde_json::Value::String("bad_method".to_string()));
    assert_eq!(
        v["msg"],
        serde_json::Value::String("Method must be POST".to_string())
    );
}

#[test]
fn only_a_405_response_carries_allow() {
    let e = TwirpError::new(404, "not_found", "nothing here");
    let resp = e.to_hyper_response();
    assert_eq!(resp.status, 404);
    assert_eq!(resp.headers.get("allow"), None);
}
