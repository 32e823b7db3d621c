//! End-to-end dispatch scenarios: a hand-rolled Haberdasher service routed
//! the way generated server code routes, exercised through the codec
//! bridge on both sides.

use prost::encoding::{int32, skip_field, string, DecodeContext, WireType};
use prost::Message;
use prost_twirp::errors::{ProstTwirpError, TwirpError};
use prost_twirp::service_run::{HyperServer, HyperService, ServiceRequest, ServiceResponse};
use prost_twirp::wire::{Headers, HttpRequest, HttpResponse, HttpVersion};

#[derive(Clone, PartialEq, Debug, Default)]
struct Size {
    inches: i32,
}

impl Message for Size {
    fn encode_raw<B: prost::bytes::BufMut>(&self, buf: &mut B) {
        if self.inches != 0 {
            int32::encode(1, &self.inches, buf);
        }
    }

    fn merge_field<B: prost::bytes::Buf>(
        &mut self,
        tag: u32,
        wire_type: WireType,
        buf: &mut B,
        ctx: DecodeContext,
    ) -> Result<(), prost::DecodeError> {
        match tag {
            1 => int32::merge(wire_type, &mut self.inches, buf, ctx),
            _ => skip_field(wire_type, tag, buf, ctx),
        }
    }

    fn encoded_len(&self) -> usize {
        if self.inches != 0 {
            int32::encoded_len(1, &self.inches)
        } else {
            0
        }
    }

    fn clear(&mut self) {
        self.inches = 0;
    }
}

#[derive(Clone, PartialEq, Debug, Default)]
struct Hat {
    size: i32,
    color: String,
    name: String,
}

impl Message for Hat {
    fn encode_raw<B: prost::bytes::BufMut>(&self, buf: &mut B) {
        if self.size != 0 {
            int32::encode(1, &self.size, buf);
        }
        if !self.color.is_empty() {
            string::encode(2, &self.color, buf);
        }
        if !self.name.is_empty() {
            string::encode(3, &self.name, buf);
        }
    }

    fn merge_field<B: prost::bytes::Buf>(
        &mut self,
        tag: u32,
        wire_type: WireType,
        buf: &mut B,
        ctx: DecodeContext,
    ) -> Result<(), prost::DecodeError> {
        match tag {
            1 => int32::merge(wire_type, &mut self.size, buf, ctx),
            2 => string::merge(wire_type, &mut self.color, buf, ctx),
            3 => string::merge(wire_type, &mut self.name, buf, ctx),
            _ => skip_field(wire_type, tag, buf, ctx),
        }
    }

    fn encoded_len(&self) -> usize {
        let mut len = 0;
        if self.size != 0 {
            len += int32::encoded_len(1, &self.size);
        }
        if !self.color.is_empty() {
            len += string::encoded_len(2, &self.color);
        }
        if !self.name.is_empty() {
            len += string::encoded_len(3, &self.name);
        }
        len
    }

    fn clear(&mut self) {
        self.size = 0;
        self.color.clear();
        self.name.clear();
    }
}

const MAKE_HAT_URL: &str = "/twirp/twitch.twirp.example.Haberdasher/MakeHat";

fn min_max_meta() -> serde_json::Value {
    let mut m = serde_json::Map::new();
    m.insert("min".to_string(), serde_json::Value::from(1));
    m.insert("max".to_string(), serde_json::Value::from(10));
    serde_json::Value::Object(m)
}

/// The user handler plus routing, shaped like generated server code.
fn handle(req: HttpRequest) -> Result<HttpResponse, ProstTwirpError> {
    match req.uri.as_str() {
        MAKE_HAT_URL => {
            let sreq = match ServiceRequest::<Size>::from_hyper_request(req) {
                Ok(r) => r,
                Err(e) => return Err(e),
            };
            let inches = sreq.input.inches;
            if inches < 1 {
                return Err(
                    TwirpError::new_meta(400, "too_small", "Size too small", Some(min_max_meta()))
                        .into(),
                );
            }
            if inches > 10 {
                return Err(
                    TwirpError::new_meta(400, "too_large", "Size too large", Some(min_max_meta()))
                        .into(),
                );
            }
            let hat = Hat {
                size: inches,
                color: "blue".to_string(),
                name: "fedora".to_string(),
            };
            ServiceResponse::new(hat).to_hyper_response()
        }
        _ => Ok(ProstTwirpError::NotFound.into_hyper_response().unwrap()),
    }
}

/// The server layer: any error from the handler becomes a Twirp JSON
/// response, as the transport adapter does with `into_hyper_response`.
fn serve(req: HttpRequest) -> HttpResponse {
    match handle(req) {
        Ok(resp) => resp,
        Err(e) => e.into_hyper_response().unwrap(),
    }
}

fn client_wire_request(inches: i32, uri: &str) -> HttpRequest {
    let sreq = ServiceRequest::new(Size { inches });
    let mut wire = sreq.to_hyper_request().unwrap();
    wire.uri = uri.to_string();
    wire
}

fn body_json(resp: &HttpResponse) -> serde_json::Value {
    serde_json::from_slice(&resp.body).unwrap()
}

#[test]
fn happy_path_returns_the_hat() {
    let resp = serve(client_wire_request(5, MAKE_HAT_URL));
    assert_eq!(resp.status, 200);
    assert_eq!(
        resp.headers.get("content-type").as_deref(),
        Some("application/protobuf")
    );
    let sresp = ServiceResponse::<Hat>::from_hyper_response(resp).unwrap();
    assert_eq!(
        sresp.output,
        Hat { size: 5, color: "blue".to_string(), name: "fedora".to_string() }
    );
}

#[test]
fn application_error_small_reaches_the_client() {
    let resp = serve(client_wire_request(0, MAKE_HAT_URL));
    assert_eq!(resp.status, 400);
    assert_eq!(
        resp.headers.get("content-type").as_deref(),
        Some("application/json")
    );
    let v = body_json(&resp);
    assert_eq!(v["error_type"], serde_json::Value::String("too_small".to_string()));
    let err = ServiceResponse::<Hat>::from_hyper_response(resp).unwrap_err();
    match err.root_err() {
        ProstTwirpError::TwirpError(t) => {
            assert_eq!(t.status, 400);
            assert_eq!(t.error_type, "too_small");
            assert_eq!(t.msg, "Size too small");
            assert_eq!(t.meta, Some(min_max_meta()));
        }
        other => panic!("unexpected error {:?}", other),
    }
}

#[test]
fn application_error_large_reaches_the_client() {
    let resp = serve(client_wire_request(11, MAKE_HAT_URL));
    assert_eq!(resp.status, 400);
    let v = body_json(&resp);
    assert_eq!(v["error_type"], serde_json::Value::String("too_large".to_string()));
}

#[test]
fn wrong_method_is_405_with_allow_post() {
    let mut wire = client_wire_request(5, MAKE_HAT_URL);
    wire.method = "GET".to_string();
    let resp = serve(wire);
    assert_eq!(resp.status, 405);
    assert_eq!(resp.headers.get("allow").as_deref(), Some("POST"));
    let v = body_json(&resp);
    assert_eq!(v["error_type"], serde_json::Value::String("bad_method".to_string()));
    assert_eq!(
        v["msg"],
        serde_json::Value::String("Method must be POST".to_string())
    );
}

#[test]
fn wrong_content_type_is_415() {
    let mut wire = client_wire_request(5, MAKE_HAT_URL);
    wire.headers.insert("content-type", "text/plain");
    let resp = serve(wire);
    assert_eq!(resp.status, 415);
    assert_eq!(resp.headers.get("allow"), None);
    let v = body_json(&resp);
    assert_eq!(
        v["error_type"],
        serde_json::Value::String("bad_content_type".to_string())
    );
}

#[test]
fn missing_content_type_is_415() {
    let wire = HttpRequest {
        method: "POST".to_string(),
        uri: MAKE_HAT_URL.to_string(),
        version: HttpVersion::Http11,
        headers: Headers { entries: vec![] },
        body: vec![],
    };
    let resp = serve(wire);
    assert_eq!(resp.status, 415);
}

#[test]
fn unknown_route_is_404() {
    let resp = serve(client_wire_request(
        5,
        "/twirp/twitch.twirp.example.Haberdasher/Unknown",
    ));
    assert_eq!(resp.status, 404);
    let v = body_json(&resp);
    assert_eq!(v["error_type"], serde_json::Value::String("not_found".to_string()));
    assert_eq!(
        v["msg"],
        serde_json::Value::String("The requested method was not found".to_string())
    );
}

#[test]
fn corrupt_body_is_400_protobuf_decode_err() {
    let mut wire = client_wire_request(5, MAKE_HAT_URL);
    wire.body = vec![0xFF];
    let resp = serve(wire);
    assert_eq!(resp.status, 400);
    let v = body_json(&resp);
    assert_eq!(
        v["error_type"],
        serde_json::Value::String("protobuf_decode_err".to_string())
    );
    assert_eq!(
        v["msg"],
        serde_json::Value::String("Invalid protobuf body".to_string())
    );
}

#[test]
fn decode_failure_wraps_evidence_in_after_body_error() {
    let mut wire = client_wire_request(5, MAKE_HAT_URL);
    wire.body = vec![0xFF];
    let err = ServiceRequest::<Size>::from_hyper_request(wire).unwrap_err();
    match &err {
        ProstTwirpError::AfterBodyError { body, method, status, .. } => {
            assert_eq!(body, &vec![0xFF]);
            assert_eq!(method.as_deref(), Some("POST"));
            assert!(status.is_none());
        }
        other => panic!("unexpected error {:?}", other),
    }
    assert!(matches!(
        err.root_err(),
        ProstTwirpError::ProstDecodeError(_)
    ));
}

#[test]
fn client_round_trip_preserves_message_and_headers() {
    let original = Size { inches: 7 };
    let sreq = ServiceRequest::new(original.clone());
    let mut wire = sreq.to_hyper_request().unwrap();
    wire.uri = MAKE_HAT_URL.to_string();
    assert_eq!(
        wire.headers.get("content-length").as_deref(),
        Some(wire.body.len().to_string().as_str())
    );
    let decoded = ServiceRequest::<Size>::from_hyper_request(wire).unwrap();
    assert_eq!(decoded.input, original);
    assert_eq!(
        decoded.headers.get("content-type").as_deref(),
        Some("application/protobuf")
    );
}

#[test]
fn non_success_with_invalid_json_is_json_decode_error() {
    let resp = HttpResponse {
        status: 500,
        version: HttpVersion::Http11,
        headers: Headers { entries: vec![] },
        body: b"not json at all".to_vec(),
    };
    let err = ServiceResponse::<Hat>::from_hyper_response(resp).unwrap_err();
    assert!(matches!(
        err.root_err(),
        ProstTwirpError::JsonDecodeError(_)
    ));
}

#[test]
fn root_err_is_idempotent_and_unwrapped() {
    let mut wire = client_wire_request(5, MAKE_HAT_URL);
    wire.body = vec![0xFF];
    let err = ServiceRequest::<Size>::from_hyper_request(wire).unwrap_err();
    let root = err.root_err();
    assert!(!matches!(root, ProstTwirpError::AfterBodyError { .. }));
    let again = root.root_err();
    assert!(matches!(again, ProstTwirpError::ProstDecodeError(_)));
}

#[test]
fn with_decoded_input_keeps_metadata_or_wraps_evidence() {
    let wire = client_wire_request(3, MAKE_HAT_URL);
    let ok = ServiceRequest::<Size>::with_decoded_input(wire, Ok(Size { inches: 3 })).unwrap();
    assert_eq!(ok.input, Size { inches: 3 });
    assert_eq!(ok.uri, MAKE_HAT_URL);

    let wire = client_wire_request(3, MAKE_HAT_URL);
    let body = wire.body.clone();
    let failed = ServiceRequest::<Size>::with_decoded_input(
        wire,
        Err(prost::DecodeError::new("boom")),
    )
    .unwrap_err();
    match failed {
        ProstTwirpError::AfterBodyError { body: b, method, status, .. } => {
            assert_eq!(b, body);
            assert_eq!(method.as_deref(), Some("POST"));
            assert!(status.is_none());
        }
        other => panic!("unexpected error {:?}", other),
    }
}

#[test]
fn with_decoded_output_keeps_metadata_or_wraps_evidence() {
    let resp = HttpResponse {
        status: 200,
        version: HttpVersion::Http11,
        headers: Headers { entries: vec![] },
        body: vec![1, 2, 3],
    };
    let hat = Hat { size: 1, color: "red".to_string(), name: "cap".to_string() };
    let ok = ServiceResponse::<Hat>::with_decoded_output(resp, Ok(hat.clone())).unwrap();
    assert_eq!(ok.output, hat);
    assert_eq!(ok.status, 200);

    let resp = HttpResponse {
        status: 200,
        version: HttpVersion::Http11,
        headers: Headers { entries: vec![] },
        body: vec![1, 2, 3],
    };
    let failed = ServiceResponse::<Hat>::with_decoded_output(
        resp,
        Err(prost::DecodeError::new("boom")),
    )
    .unwrap_err();
    match failed {
        ProstTwirpError::AfterBodyError { body, method, status, .. } => {
            assert_eq!(body, vec![1, 2, 3]);
            assert!(method.is_none());
            assert_eq!(status, Some(200));
        }
        other => panic!("unexpected error {:?}", other),
    }
}

struct FixedService;

impl HyperService for FixedService {
    fn handle(&self, _req: HttpRequest) -> Result<HttpResponse, ProstTwirpError> {
        Err(ProstTwirpError::NotFound)
    }
}

#[test]
fn hyper_server_shares_the_service() {
    let server = HyperServer::new(FixedService);
    let req = client_wire_request(1, MAKE_HAT_URL);
    let err = server.service.handle(req).unwrap_err();
    assert!(matches!(err, ProstTwirpError::NotFound));
}
