//! The Twirp error model: the application-visible `TwirpError`, its JSON
//! wire form, and the closed `ProstTwirpError` taxonomy of everything that
//! can go wrong during a call.

use vstd::prelude::*;

use crate::json::{
    json_as_str, json_clone, json_emitted, json_field, json_from_slice, json_get, json_map_insert,
    json_map_model, json_map_new, json_object, json_parsed, json_str_field, json_string_value,
    json_to_vec,
};
use crate::wire::{
    decimal_chars, decimal_string, header_lookup, header_name_lower, lemma_insert_lookup, Headers,
    HttpResponse, HttpVersion,
};

verus! {

/// A JSON-serializable Twirp error.
#[derive(Debug)]
pub struct TwirpError {
    /// The HTTP status code with which this error is or was transmitted.
    pub status: u16,
    /// The short code string, e.g. `not_found` or `too_small`.
    pub error_type: String,
    /// The human-readable message.
    pub msg: String,
    /// Optional JSON document with error-specific detail.
    pub meta: Option<serde_json::Value>,
}

/// The JSON object that carries a Twirp error on the wire: `error_type` and
/// `msg` as string fields, `meta` present exactly when the error has one,
/// and nothing else.
pub open spec fn twirp_error_json(
    v: serde_json::Value,
    error_type: Seq<char>,
    msg: Seq<char>,
    meta: Option<serde_json::Value>,
) -> bool {
    &&& json_str_field(v, "error_type"@) == Some(error_type)
    &&& json_str_field(v, "msg"@) == Some(msg)
    &&& json_field(v, "meta"@) == meta
    &&& forall|k: Seq<char>|
        k != "error_type"@ && k != "msg"@ && k != "meta"@ ==> #[trigger] json_field(v, k) is None
}

/// The `error_type` that decoding a Twirp error JSON value yields: the
/// string field, or the fixed placeholder when it is missing.
pub open spec fn decoded_error_type(v: serde_json::Value) -> Seq<char> {
    match json_str_field(v, "error_type"@) {
        Some(s) => s,
        None => "<no code>"@,
    }
}

/// The `msg` that decoding a Twirp error JSON value yields: the string
/// field, or the fixed placeholder when it is missing.
pub open spec fn decoded_msg(v: serde_json::Value) -> Seq<char> {
    match json_str_field(v, "msg"@) {
        Some(s) => s,
        None => "<no message>"@,
    }
}

/// The `meta` that decoding a Twirp error JSON value yields: the `meta`
/// field when `error_type` is present, else the whole original value.
pub open spec fn decoded_meta(v: serde_json::Value) -> Option<serde_json::Value> {
    if json_str_field(v, "error_type"@) is Some {
        json_field(v, "meta"@)
    } else {
        Some(v)
    }
}

/// The HTTP response that transmits a Twirp error with the given fields:
/// the error's status, a JSON content type, `Allow: POST` exactly on a
/// 405, a `Content-Length` matching the body, and as the body the
/// serialization of the error's JSON object.
pub open spec fn twirp_response_for(
    resp: HttpResponse,
    status: u16,
    error_type: Seq<char>,
    msg: Seq<char>,
    meta: Option<serde_json::Value>,
) -> bool {
    &&& resp.status == status
    &&& resp.version == HttpVersion::Http11
    &&& header_lookup(resp.headers@, "content-type"@) == Some("application/json"@)
    &&& (status == 405 ==> header_lookup(resp.headers@, "allow"@) == Some("POST"@))
    &&& (status != 405 ==> header_lookup(resp.headers@, "allow"@) is None)
    &&& header_lookup(resp.headers@, "content-length"@) == Some(decimal_chars(resp.body@.len()))
    &&& exists|v: serde_json::Value|
        #[trigger] twirp_error_json(v, error_type, msg, meta) && resp.body@ == json_emitted(v)
}

impl Clone for TwirpError {
    fn clone(&self) -> (r: TwirpError)
        ensures
            r.status == self.status,
            r.error_type@ == self.error_type@,
            r.msg@ == self.msg@,
            r.meta == self.meta,
    {
        TwirpError {
            status: self.status,
            error_type: self.error_type.clone(),
            msg: self.msg.clone(),
            meta: match &self.meta {
                Some(v) => Some(json_clone(v)),
                None => None,
            },
        }
    }
}

impl TwirpError {
    /// A Twirp error with no meta.
    pub fn new(status: u16, error_type: &str, msg: &str) -> (r: TwirpError)
        ensures
            r.status == status,
            r.error_type@ == error_type@,
            r.msg@ == msg@,
            r.meta is None,
    {
        TwirpError::new_meta(status, error_type, msg, None)
    }

    /// A Twirp error with optional meta.
    pub fn new_meta(status: u16, error_type: &str, msg: &str, meta: Option<
        serde_json::Value,
    >) -> (r: TwirpError)
        ensures
            r.status == status,
            r.error_type@ == error_type@,
            r.msg@ == msg@,
            r.meta == meta,
    {
        TwirpError {
            status,
            error_type: String::from_str(error_type),
            msg: String::from_str(msg),
            meta,
        }
    }

    /// Decodes an error from a JSON value, leniently: a missing
    /// `error_type` becomes `<no code>` and the whole value is kept as
    /// meta; a missing `msg` becomes `<no message>`.
    pub fn from_json(status: u16, json: serde_json::Value) -> (r: TwirpError)
        ensures
            r.status == status,
            r.error_type@ == decoded_error_type(json),
            r.msg@ == decoded_msg(json),
            r.meta == decoded_meta(json),
    {
        let error_type_field = match json_get(&json, "error_type") {
            Some(x) => json_as_str(x),
            None => None,
        };
        let msg_field = match json_get(&json, "msg") {
            Some(x) => json_as_str(x),
            None => None,
        };
        let has_type = error_type_field.is_some();
        let error_type = match error_type_field {
            Some(s) => s,
            None => String::from_str("<no code>"),
        };
        let msg = match msg_field {
            Some(s) => s,
            None => String::from_str("<no message>"),
        };
        // The whole value is kept as meta when there was no error_type.
        let meta = if has_type {
            match json_get(&json, "meta") {
                Some(x) => Some(json_clone(x)),
                None => None,
            }
        } else {
            Some(json)
        };
        TwirpError { status, error_type, msg, meta }
    }

    /// Decodes an error from JSON bytes; fails exactly when the bytes are
    /// not valid JSON.
    pub fn from_json_bytes(status: u16, json: &[u8]) -> (r: Result<TwirpError, serde_json::Error>)
        ensures
            (r is Ok) == (json_parsed(json@) is Some),
            r matches Ok(e) ==> json_parsed(json@) matches Some(v) && e.status == status
                && e.error_type@ == decoded_error_type(v) && e.msg@ == decoded_msg(v) && e.meta
                == decoded_meta(v),
    {
        match json_from_slice(json) {
            Ok(v) => Ok(TwirpError::from_json(status, v)),
            Err(e) => Err(e),
        }
    }

    /// Encodes the error as its JSON wire object.
    pub fn to_json(&self) -> (r: serde_json::Value)
        ensures
            twirp_error_json(r, self.error_type@, self.msg@, self.meta),
    {
        let mut props = json_map_new();
        proof {
            assert(json_map_model(props).dom() =~= Set::<Seq<char>>::empty());
            assert(json_map_model(props) =~= Map::<Seq<char>, serde_json::Value>::empty());
        }
        let et_value = json_string_value(self.error_type.as_str());
        let ghost et_v = et_value;
        json_map_insert(&mut props, String::from_str("error_type"), et_value);
        let msg_value = json_string_value(self.msg.as_str());
        let ghost msg_v = msg_value;
        json_map_insert(&mut props, String::from_str("msg"), msg_value);
        match &self.meta {
            Some(meta) => {
                json_map_insert(&mut props, String::from_str("meta"), json_clone(meta));
            },
            None => {},
        }
        let ghost mf = json_map_model(props);
        let r = json_object(props);
        proof {
            reveal_strlit("error_type");
            reveal_strlit("msg");
            reveal_strlit("meta");
            assert("error_type"@.len() == 10);
            assert("msg"@.len() == 3);
            assert("meta"@.len() == 4);
            assert(json_field(r, "error_type"@) == Some(et_v));
            assert(json_field(r, "msg"@) == Some(msg_v));
            match &self.meta {
                Some(mv) => {
                    assert(json_field(r, "meta"@) == Some(*mv));
                },
                None => {
                    assert(!mf.dom().contains("meta"@));
                    assert(json_field(r, "meta"@) is None);
                },
            }
            assert forall|k: Seq<char>|
                k != "error_type"@ && k != "msg"@ && k != "meta"@ implies #[trigger] json_field(
                r,
                k,
            ) is None by {
                assert(!mf.dom().contains(k));
            }
        }
        r
    }

    /// Encodes the error as JSON bytes; serializing the error's JSON
    /// object cannot fail.
    pub fn to_json_bytes(&self) -> (r: Result<Vec<u8>, serde_json::Error>)
        ensures
            r is Ok,
            r matches Ok(b) ==> exists|v: serde_json::Value|
                #[trigger] twirp_error_json(v, self.error_type@, self.msg@, self.meta) && b@
                    == json_emitted(v),
    {
        let v = self.to_json();
        match json_to_vec(&v) {
            Ok(b) => {
                proof {
                    assert(twirp_error_json(v, self.error_type@, self.msg@, self.meta) && b@
                        == json_emitted(v));
                }
                Ok(b)
            },
            Err(e) => Err(e),
        }
    }

    /// Builds the HTTP response that transmits this error: the error's own
    /// status, a JSON content type, an `Allow: POST` header exactly on a
    /// 405, and the JSON form of the error as the body.
    pub fn to_hyper_response(&self) -> (r: HttpResponse)
        ensures
            twirp_response_for(r, self.status, self.error_type@, self.msg@, self.meta),
    {
        let body_bytes = match self.to_json_bytes() {
            Ok(b) => b,
            // Cannot happen: serializing the error's JSON object is
            // infallible.
            Err(_) => Vec::new(),
        };
        let body_len = body_bytes.len() as u64;
        let mut headers = Headers::new();
        let ghost h0 = headers@;
        headers.insert("content-type", "application/json");
        let ghost h1 = headers@;
        let length_value = decimal_string(body_len);
        headers.insert("content-length", length_value.as_str());
        let ghost h2 = headers@;
        proof {
            reveal_strlit("content-type");
            reveal_strlit("content-length");
            reveal_strlit("allow");
            assert(header_name_lower("content-type"@).len() == 12);
            assert(header_name_lower("content-length"@).len() == 14);
            assert(header_name_lower("allow"@).len() == 5);
            lemma_insert_lookup(h0, "content-type"@, "application/json"@, "content-type"@);
            lemma_insert_lookup(h0, "content-type"@, "application/json"@, "allow"@);
            lemma_insert_lookup(h1, "content-length"@, length_value@, "content-type"@);
            lemma_insert_lookup(h1, "content-length"@, length_value@, "content-length"@);
            lemma_insert_lookup(h1, "content-length"@, length_value@, "allow"@);
        }
        if self.status == 405 {
            headers.insert("allow", "POST");
            proof {
                reveal_strlit("content-type");
                reveal_strlit("content-length");
                reveal_strlit("allow");
                assert(header_name_lower("content-type"@).len() == 12);
                assert(header_name_lower("content-length"@).len() == 14);
                assert(header_name_lower("allow"@).len() == 5);
                lemma_insert_lookup(h2, "allow"@, "POST"@, "content-type"@);
                lemma_insert_lookup(h2, "allow"@, "POST"@, "content-length"@);
                lemma_insert_lookup(h2, "allow"@, "POST"@, "allow"@);
            }
        }
        HttpResponse {
            status: self.status,
            version: HttpVersion::Http11,
            headers,
            body: body_bytes,
        }
    }
}

/// Law: decoding the JSON object built for a Twirp error yields the same
/// error back — `error_type`, `msg` and `meta` all survive the trip.
pub proof fn lemma_error_json_round_trip(
    v: serde_json::Value,
    error_type: Seq<char>,
    msg: Seq<char>,
    meta: Option<serde_json::Value>,
)
    requires
        twirp_error_json(v, error_type, msg, meta),
    ensures
        decoded_error_type(v) == error_type,
        decoded_msg(v) == msg,
        decoded_meta(v) == meta,
{
}

/// An error that can occur during a call to a Twirp service.
#[derive(Debug)]
#[non_exhaustive]
pub enum ProstTwirpError {
    /// A standard Twirp error with a type, message, and some metadata.
    TwirpError(TwirpError),
    /// An error when trying to decode JSON into an error or object.
    JsonDecodeError(serde_json::Error),
    /// An error when trying to encode a protobuf object.
    ProstEncodeError(prost::EncodeError),
    /// An error when trying to decode a protobuf object.
    ProstDecodeError(prost::DecodeError),
    /// A generic transport error.
    HyperError(hyper::Error),
    /// An HTTP protocol error.
    HttpError(hyper::http::Error),
    /// An invalid URI.
    InvalidUri(hyper::http::uri::InvalidUri),
    /// The HTTP method was not `POST`.
    InvalidMethod,
    /// The request content type was not `application/protobuf`.
    InvalidContentType,
    /// No matching method was found for the request.
    NotFound,
    /// A wrapper for any of the other errors that also carries the raw
    /// request or response body and the HTTP metadata seen with it.
    AfterBodyError {
        /// The request or response's raw body before the error happened.
        body: Vec<u8>,
        /// The request method, only present for server errors.
        method: Option<String>,
        /// The request or response's HTTP version.
        version: HttpVersion,
        /// The request or response's headers.
        headers: Headers,
        /// The response status, only present for client errors.
        status: Option<u16>,
        /// The underlying error.
        err: Box<ProstTwirpError>,
    },
}

impl From<TwirpError> for ProstTwirpError {
    fn from(v: TwirpError) -> (r: ProstTwirpError) {
        ProstTwirpError::TwirpError(v)
    }
}

impl vstd::std_specs::convert::FromSpecImpl<TwirpError> for ProstTwirpError {
    open spec fn obeys_from_spec() -> bool {
        true
    }

    open spec fn from_spec(v: TwirpError) -> ProstTwirpError {
        ProstTwirpError::TwirpError(v)
    }
}

impl From<hyper::Error> for ProstTwirpError {
    fn from(v: hyper::Error) -> (r: ProstTwirpError) {
        ProstTwirpError::HyperError(v)
    }
}

impl vstd::std_specs::convert::FromSpecImpl<hyper::Error> for ProstTwirpError {
    open spec fn obeys_from_spec() -> bool {
        true
    }

    open spec fn from_spec(v: hyper::Error) -> ProstTwirpError {
        ProstTwirpError::HyperError(v)
    }
}

impl From<hyper::http::Error> for ProstTwirpError {
    fn from(v: hyper::http::Error) -> (r: ProstTwirpError) {
        ProstTwirpError::HttpError(v)
    }
}

impl vstd::std_specs::convert::FromSpecImpl<hyper::http::Error> for ProstTwirpError {
    open spec fn obeys_from_spec() -> bool {
        true
    }

    open spec fn from_spec(v: hyper::http::Error) -> ProstTwirpError {
        ProstTwirpError::HttpError(v)
    }
}

/// The innermost error under any number of `AfterBodyError` wrappers.
pub open spec fn spec_root_err(e: ProstTwirpError) -> ProstTwirpError
    decreases e,
{
    match e {
        ProstTwirpError::AfterBodyError { err, .. } => spec_root_err(*err),
        _ => e,
    }
}

/// Law: unwrapping to the root error is idempotent, and what it returns is
/// never itself an `AfterBodyError`.
pub proof fn lemma_root_err_idempotent(e: ProstTwirpError)
    ensures
        spec_root_err(spec_root_err(e)) == spec_root_err(e),
        !(spec_root_err(e) is AfterBodyError),
    decreases e,
{
    match e {
        ProstTwirpError::AfterBodyError { err, .. } => lemma_root_err_idempotent(*err),
        _ => {},
    }
}

/// The status with which an internally-generated error is transmitted;
/// `AfterBodyError` wrappers are stripped first, so a wrapped failure is
/// reported as its root cause.
pub open spec fn translated_status(e: ProstTwirpError) -> u16 {
    match spec_root_err(e) {
        ProstTwirpError::TwirpError(t) => t.status,
        ProstTwirpError::InvalidMethod => 405,
        ProstTwirpError::ProstDecodeError(_) => 400,
        ProstTwirpError::InvalidContentType => 415,
        ProstTwirpError::NotFound => 404,
        _ => 500,
    }
}

/// The `error_type` with which an internally-generated error is
/// transmitted.
pub open spec fn translated_error_type(e: ProstTwirpError) -> Seq<char> {
    match spec_root_err(e) {
        ProstTwirpError::TwirpError(t) => t.error_type@,
        ProstTwirpError::InvalidMethod => "bad_method"@,
        ProstTwirpError::ProstDecodeError(_) => "protobuf_decode_err"@,
        ProstTwirpError::InvalidContentType => "bad_content_type"@,
        ProstTwirpError::NotFound => "not_found"@,
        _ => "internal_err"@,
    }
}

/// The `msg` with which an internally-generated error is transmitted.
pub open spec fn translated_msg(e: ProstTwirpError) -> Seq<char> {
    match spec_root_err(e) {
        ProstTwirpError::TwirpError(t) => t.msg@,
        ProstTwirpError::InvalidMethod => "Method must be POST"@,
        ProstTwirpError::ProstDecodeError(_) => "Invalid protobuf body"@,
        ProstTwirpError::InvalidContentType => "Content type must be application/protobuf"@,
        ProstTwirpError::NotFound => "The requested method was not found"@,
        _ => "Internal error"@,
    }
}

/// The `meta` with which an internally-generated error is transmitted:
/// only an explicit `TwirpError` carries one.
pub open spec fn translated_meta(e: ProstTwirpError) -> Option<serde_json::Value> {
    match spec_root_err(e) {
        ProstTwirpError::TwirpError(t) => t.meta,
        _ => None,
    }
}

/// Law: the fixed rows of the error translation table. A method,
/// content-type, protobuf-decode or routing failure — under any number of
/// `AfterBodyError` wrappers — reports with its fixed status, code and
/// message and no meta, and an explicit Twirp error reports exactly its
/// own fields.
pub proof fn lemma_translation_table(e: ProstTwirpError)
    ensures
        spec_root_err(e) is InvalidMethod ==> translated_status(e) == 405
            && translated_error_type(e) == "bad_method"@ && translated_msg(e)
            == "Method must be POST"@ && translated_meta(e) is None,
        spec_root_err(e) is InvalidContentType ==> translated_status(e) == 415
            && translated_error_type(e) == "bad_content_type"@ && translated_msg(e)
            == "Content type must be application/protobuf"@ && translated_meta(e) is None,
        spec_root_err(e) is ProstDecodeError ==> translated_status(e) == 400
            && translated_error_type(e) == "protobuf_decode_err"@ && translated_msg(e)
            == "Invalid protobuf body"@ && translated_meta(e) is None,
        spec_root_err(e) is NotFound ==> translated_status(e) == 404 && translated_error_type(e)
            == "not_found"@ && translated_msg(e) == "The requested method was not found"@
            && translated_meta(e) is None,
        spec_root_err(e) matches ProstTwirpError::TwirpError(t) ==> translated_status(e)
            == t.status && translated_error_type(e) == t.error_type@ && translated_msg(e)
            == t.msg@ && translated_meta(e) == t.meta,
{
}

impl ProstTwirpError {
    /// This same error, or the underlying error if it is an
    /// `AfterBodyError`.
    pub fn root_err(self) -> (r: ProstTwirpError)
        ensures
            r == spec_root_err(self),
            !(r is AfterBodyError),
        decreases self,
    {
        proof {
            lemma_root_err_idempotent(self);
        }
        match self {
            ProstTwirpError::AfterBodyError { err, .. } => (*err).root_err(),
            other => other,
        }
    }

    /// Translates the error into the HTTP response that reports it,
    /// after unwrapping to the root error: an explicit `TwirpError` as
    /// given; the method, content-type, decode and routing failures by the
    /// fixed Twirp table; everything else as a 500 `internal_err`. A
    /// transport error is handed back unchanged for the transport itself
    /// to report.
    pub fn into_hyper_response(self) -> (r: Result<HttpResponse, hyper::Error>)
        ensures
            spec_root_err(self) matches ProstTwirpError::HyperError(h) ==> r matches Err(x) && x
                == h,
            !(spec_root_err(self) is HyperError) ==> (r matches Ok(resp) && twirp_response_for(
                resp,
                translated_status(self),
                translated_error_type(self),
                translated_msg(self),
                translated_meta(self),
            )),
    {
        let root = self.root_err();
        let external_err = match root {
            ProstTwirpError::TwirpError(err) => err,
            // The transport reports its own failures.
            ProstTwirpError::HyperError(err) => return Err(err),
            ProstTwirpError::InvalidMethod => TwirpError::new(
                405,
                "bad_method",
                "Method must be POST",
            ),
            ProstTwirpError::ProstDecodeError(_) => TwirpError::new(
                400,
                "protobuf_decode_err",
                "Invalid protobuf body",
            ),
            ProstTwirpError::InvalidContentType => TwirpError::new(
                415,
                "bad_content_type",
                "Content type must be application/protobuf",
            ),
            ProstTwirpError::NotFound => TwirpError::new(
                404,
                "not_found",
                "The requested method was not found",
            ),
            _ => TwirpError::new(500, "internal_err", "Internal error"),
        };
        Ok(external_err.to_hyper_response())
    }
}

} // verus!
