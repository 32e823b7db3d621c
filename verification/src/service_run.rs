//! The wire runtime: typed request/response envelopes, the codec bridge
//! between them and whole HTTP requests and responses, the client
//! dispatcher, and the server-side service seam.
//!
//! The transport adapters that actually move bytes over a socket live
//! outside the library; everything here works on the plain [`HttpRequest`]
//! and [`HttpResponse`] values of [`crate::wire`].

use vstd::prelude::*;

use std::sync::Arc;

use crate::errors::{decoded_error_type, decoded_meta, decoded_msg, ProstTwirpError};
use crate::json::json_parsed;
use crate::pb::{prost_decode, prost_encode};
use crate::wire::{
    decimal_chars, decimal_string, header_lookup, header_name_lower, lemma_insert_lookup,
    remove_header, Headers, HttpRequest, HttpResponse, HttpVersion,
};

verus! {

/// The headers a fresh envelope starts with: only the protobuf content
/// type.
pub open spec fn protobuf_headers() -> Seq<(Seq<char>, Seq<char>)> {
    seq![("content-type"@, "application/protobuf"@)]
}

/// The headers of an envelope serialized to the wire: the envelope's own
/// headers with `Content-Length` replaced by the body's actual length.
pub open spec fn with_content_length(hs: Seq<(Seq<char>, Seq<char>)>, len: nat) -> Seq<
    (Seq<char>, Seq<char>),
> {
    remove_header(hs, "content-length"@).push(("content-length"@, decimal_chars(len)))
}

/// A request with HTTP info and a protobuf request payload.
#[derive(Debug)]
pub struct ServiceRequest<T> {
    /// The URI of the original request.
    ///
    /// When using a client, this is overridden with the proper URI. It is
    /// only valuable for servers.
    pub uri: String,
    /// The request method; should always be `POST`.
    pub method: String,
    /// The HTTP version, rarely changed from the default.
    pub version: HttpVersion,
    /// The set of headers.
    ///
    /// Should always at least have `Content-Type`. Clients override
    /// `Content-Length` on serialization.
    pub headers: Headers,
    /// The request body: the arguments of the rpc.
    pub input: T,
}

impl<T> ServiceRequest<T> {
    /// A new service request with the given input.
    ///
    /// This automatically sets the `Content-Type` header as
    /// `application/protobuf`.
    pub fn new(input: T) -> (r: ServiceRequest<T>)
        ensures
            r.uri@ == Seq::<char>::empty(),
            r.method@ == "POST"@,
            r.version == HttpVersion::Http11,
            r.headers@ == protobuf_headers(),
            r.input == input,
    {
        let mut headers = Headers::new();
        headers.insert("content-type", "application/protobuf");
        proof {
            assert(headers@ =~= protobuf_headers());
        }
        ServiceRequest {
            uri: String::new(),
            method: String::from_str("POST"),
            version: HttpVersion::default(),
            headers,
            input,
        }
    }

    /// A copy of this request with a different input value.
    pub fn clone_with_input(&self, input: T) -> (r: ServiceRequest<T>)
        ensures
            r.uri@ == self.uri@,
            r.method@ == self.method@,
            r.version == self.version,
            r.headers@ == self.headers@,
            r.input == input,
    {
        ServiceRequest {
            uri: self.uri.clone(),
            method: self.method.clone(),
            version: self.version,
            headers: self.headers.clone(),
            input,
        }
    }
}

impl<T> From<T> for ServiceRequest<T> {
    /// A fresh request envelope around the value, as `new` builds it.
    fn from(v: T) -> (r: ServiceRequest<T>)
        ensures
            r.uri@ == Seq::<char>::empty(),
            r.method@ == "POST"@,
            r.version == HttpVersion::Http11,
            r.headers@ == protobuf_headers(),
            r.input == v,
    {
        ServiceRequest::new(v)
    }
}

impl<T> vstd::std_specs::convert::FromSpecImpl<T> for ServiceRequest<T> {
    open spec fn obeys_from_spec() -> bool {
        // The envelope's strings have no spec-level construction, so no
        // conversion equation is claimed; the ensures above say what the
        // conversion builds.
        false
    }

    open spec fn from_spec(v: T) -> ServiceRequest<T> {
        arbitrary()
    }
}

impl<M> From<M> for ServiceResponse<M> {
    /// A fresh response envelope around the value, as `new` builds it.
    fn from(v: M) -> (r: ServiceResponse<M>)
        ensures
            r.version == HttpVersion::Http11,
            r.headers@ == protobuf_headers(),
            r.status == 200,
            r.output == v,
    {
        ServiceResponse::new(v)
    }
}

impl<M> vstd::std_specs::convert::FromSpecImpl<M> for ServiceResponse<M> {
    open spec fn obeys_from_spec() -> bool {
        false
    }

    open spec fn from_spec(v: M) -> ServiceResponse<M> {
        arbitrary()
    }
}

/// Law: a fresh request envelope carries the protobuf content type — the
/// lookup that the server-side checks perform finds it.
pub proof fn lemma_new_request_content_type()
    ensures
        header_lookup(protobuf_headers(), "content-type"@) == Some("application/protobuf"@),
{
}

/// Law: serializing an envelope keeps its content type: replacing
/// `Content-Length` in any headers leaves the `Content-Type` lookup
/// unchanged. With [`lemma_new_request_content_type`] this gives the round
/// trip for a fresh envelope: the wire request it serializes to passes the
/// server-side method and content-type checks, and its body — the encoded
/// payload — reaches the payload decoder unchanged.
pub proof fn lemma_content_length_keeps_content_type(hs: Seq<(Seq<char>, Seq<char>)>, len: nat)
    ensures
        header_lookup(with_content_length(hs, len), "content-type"@) == header_lookup(
            hs,
            "content-type"@,
        ),
{
    reveal_strlit("content-type");
    reveal_strlit("content-length");
    assert(header_name_lower("content-type"@).len() == 12);
    assert(header_name_lower("content-length"@).len() == 14);
    lemma_insert_lookup(hs, "content-length"@, decimal_chars(len), "content-type"@);
}

/// Law: round trip of a fresh envelope. The wire request serialized from
/// `ServiceRequest::new` passes the server-side checks — its method is
/// POST and its content type is still `application/protobuf` once
/// `Content-Length` is set — so, by the serializer's and deserializer's
/// own contracts, the body handed to the payload decoder is exactly the
/// encoder's output, and the envelope that comes back keeps the wire
/// request's headers.
pub proof fn lemma_new_request_round_trip(len: nat)
    ensures
        header_lookup(with_content_length(protobuf_headers(), len), "content-type"@) == Some(
            "application/protobuf"@,
        ),
{
    lemma_new_request_content_type();
    lemma_content_length_keeps_content_type(protobuf_headers(), len);
}

impl<T: prost::Message + Default> ServiceRequest<T> {
    /// Serializes into a wire request: an HTTP POST at the envelope's URI
    /// whose body is the encoded payload, with `Content-Length` set to the
    /// body's length. Encoding into a fresh buffer cannot fail.
    pub fn to_hyper_request(&self) -> (r: Result<HttpRequest, ProstTwirpError>)
        ensures
            r is Ok,
            r matches Ok(h) ==> ({
                &&& h.method@ == "POST"@
                &&& h.uri@ == self.uri@
                &&& h.version == HttpVersion::Http11
                &&& h.headers@ == with_content_length(self.headers@, h.body@.len())
            }),
    {
        let body = match prost_encode(&self.input) {
            Ok(b) => b,
            Err(e) => {
                return Err(ProstTwirpError::ProstEncodeError(e));
            },
        };
        let mut headers = self.headers.clone();
        let length_value = decimal_string(body.len() as u64);
        headers.insert("content-length", length_value.as_str());
        Ok(
            HttpRequest {
                method: String::from_str("POST"),
                uri: self.uri.clone(),
                version: HttpVersion::default(),
                headers,
                body,
            },
        )
    }

    /// The step after the payload decode of an incoming wire request:
    /// a successfully decoded input becomes the request envelope, keeping
    /// the wire request's metadata; a decode failure is wrapped with the
    /// raw body and that same metadata as evidence.
    pub fn with_decoded_input(req: HttpRequest, decoded: Result<T, prost::DecodeError>) -> (r:
        Result<ServiceRequest<T>, ProstTwirpError>)
        ensures
            decoded matches Ok(i) ==> (r matches Ok(s) && s.uri@ == req.uri@ && s.method@
                == req.method@ && s.version == req.version && s.headers@ == req.headers@ && s.input
                == i),
            decoded matches Err(de) ==> (r matches Err(e) && e matches
                ProstTwirpError::AfterBodyError {
                    body: b,
                    method: m,
                    version: ver,
                    headers: hs,
                    status: st,
                    err: inner,
                } && b@ == req.body@ && (m matches Some(ms) && ms@ == req.method@) && ver
                == req.version && hs@ == req.headers@ && st is None && ((*inner) matches
                ProstTwirpError::ProstDecodeError(d) && d == de)),
    {
        match decoded {
            Ok(input) => Ok(
                ServiceRequest {
                    uri: req.uri,
                    method: req.method,
                    version: req.version,
                    headers: req.headers,
                    input,
                },
            ),
            Err(err) => Err(
                ProstTwirpError::AfterBodyError {
                    status: None,
                    method: Some(req.method),
                    version: req.version,
                    headers: req.headers,
                    err: Box::new(ProstTwirpError::ProstDecodeError(err)),
                    body: req.body,
                },
            ),
        }
    }

    /// Deserializes a wire request into a request envelope: rejects a
    /// method other than POST with `InvalidMethod` and a content type
    /// other than `application/protobuf` with `InvalidContentType`, then
    /// decodes the body as the payload.
    pub fn from_hyper_request(req: HttpRequest) -> (r: Result<ServiceRequest<T>, ProstTwirpError>)
        ensures
            req.method@ != "POST"@ ==> (r matches Err(e) && e is InvalidMethod),
            req.method@ == "POST"@ && header_lookup(req.headers@, "content-type"@) != Some(
                "application/protobuf"@,
            ) ==> (r matches Err(e) && e is InvalidContentType),
            r matches Ok(s) ==> req.method@ == "POST"@ && header_lookup(
                req.headers@,
                "content-type"@,
            ) == Some("application/protobuf"@) && s.uri@ == req.uri@ && s.method@ == req.method@
                && s.version == req.version && s.headers@ == req.headers@,
            (req.method@ == "POST"@ && header_lookup(req.headers@, "content-type"@) == Some(
                "application/protobuf"@,
            ) && r is Err) ==> (r matches Err(e) && e matches ProstTwirpError::AfterBodyError {
                body: b,
                method: m,
                version: ver,
                headers: hs,
                status: st,
                err: inner,
            } && b@ == req.body@ && (m matches Some(ms) && ms@ == req.method@) && ver == req.version
                && hs@ == req.headers@ && st is None && (*inner) is ProstDecodeError),
    {
        if !(req.method == String::from_str("POST")) {
            return Err(ProstTwirpError::InvalidMethod);
        }
        let ct_ok = match req.headers.get("content-type") {
            Some(v) => v == String::from_str("application/protobuf"),
            None => false,
        };
        if !ct_ok {
            return Err(ProstTwirpError::InvalidContentType);
        }
        let decoded = prost_decode::<T>(req.body.as_slice());
        ServiceRequest::with_decoded_input(req, decoded)
    }
}

/// A response with HTTP info and a protobuf output payload.
#[derive(Debug)]
pub struct ServiceResponse<M> {
    /// The HTTP version.
    pub version: HttpVersion,
    /// The set of headers.
    ///
    /// Should always at least have `Content-Type`. Servers override
    /// `Content-Length` on serialization.
    pub headers: Headers,
    /// The status code.
    pub status: u16,
    /// The output of the rpc.
    pub output: M,
}

impl<M> ServiceResponse<M> {
    /// A new service response with the given output.
    ///
    /// This automatically sets the `Content-Type` header as
    /// `application/protobuf` and the status to 200 OK.
    pub fn new(output: M) -> (r: ServiceResponse<M>)
        ensures
            r.version == HttpVersion::Http11,
            r.headers@ == protobuf_headers(),
            r.status == 200,
            r.output == output,
    {
        let mut headers = Headers::new();
        headers.insert("content-type", "application/protobuf");
        proof {
            assert(headers@ =~= protobuf_headers());
        }
        ServiceResponse { version: HttpVersion::default(), headers, status: 200, output }
    }

    /// A copy of this response with a different output value.
    pub fn clone_with_output(&self, output: M) -> (r: ServiceResponse<M>)
        ensures
            r.version == self.version,
            r.headers@ == self.headers@,
            r.status == self.status,
            r.output == output,
    {
        ServiceResponse {
            version: self.version,
            headers: self.headers.clone(),
            status: self.status,
            output,
        }
    }
}

impl<M: prost::Message + Default> ServiceResponse<M> {
    /// The step after the payload decode of a successful wire response: a
    /// successfully decoded output becomes the response envelope, keeping
    /// the wire response's metadata; a decode failure is wrapped with the
    /// raw body and that same metadata as evidence.
    pub fn with_decoded_output(resp: HttpResponse, decoded: Result<M, prost::DecodeError>) -> (r:
        Result<ServiceResponse<M>, ProstTwirpError>)
        ensures
            decoded matches Ok(o) ==> (r matches Ok(s) && s.version == resp.version && s.headers@
                == resp.headers@ && s.status == resp.status && s.output == o),
            decoded matches Err(de) ==> (r matches Err(e) && e matches
                ProstTwirpError::AfterBodyError {
                    body: b,
                    method: m,
                    version: ver,
                    headers: hs,
                    status: st,
                    err: inner,
                } && b@ == resp.body@ && m is None && ver == resp.version && hs@ == resp.headers@
                && st == Some(resp.status) && ((*inner) matches
                ProstTwirpError::ProstDecodeError(d) && d == de)),
    {
        match decoded {
            Ok(output) => Ok(
                ServiceResponse {
                    version: resp.version,
                    headers: resp.headers,
                    status: resp.status,
                    output,
                },
            ),
            Err(err) => Err(
                ProstTwirpError::AfterBodyError {
                    body: resp.body,
                    method: None,
                    version: resp.version,
                    headers: resp.headers,
                    status: Some(resp.status),
                    err: Box::new(ProstTwirpError::ProstDecodeError(err)),
                },
            ),
        }
    }

    /// Deserializes a wire response: a 2xx response decodes its body as
    /// the payload; any other status carries a Twirp error document, which
    /// is decoded from the body's JSON with the response status. Either
    /// kind of failure is wrapped with the raw body and the response
    /// metadata as evidence.
    pub fn from_hyper_response(resp: HttpResponse) -> (r: Result<ServiceResponse<M>, ProstTwirpError>)
        ensures
            r matches Ok(s) ==> 200 <= resp.status < 300 && s.version == resp.version && s.headers@
                == resp.headers@ && s.status == resp.status,
            !(200 <= resp.status < 300) ==> (r matches Err(e) && e matches
                ProstTwirpError::AfterBodyError {
                    body: b,
                    method: m,
                    version: ver,
                    headers: hs,
                    status: st,
                    err: inner,
                } && b@ == resp.body@ && m is None && ver == resp.version && hs@ == resp.headers@
                && st == Some(resp.status) && (match json_parsed(resp.body@) {
                Some(v) => (*inner) matches ProstTwirpError::TwirpError(t) && t.status
                    == resp.status && t.error_type@ == decoded_error_type(v) && t.msg@
                    == decoded_msg(v) && t.meta == decoded_meta(v),
                None => (*inner) is JsonDecodeError,
            })),
            (200 <= resp.status < 300 && r is Err) ==> (r matches Err(e) && e matches
                ProstTwirpError::AfterBodyError {
                    body: b,
                    method: m,
                    version: ver,
                    headers: hs,
                    status: st,
                    err: inner,
                } && b@ == resp.body@ && m is None && ver == resp.version && hs@ == resp.headers@
                && st == Some(resp.status) && (*inner) is ProstDecodeError),
    {
        let is_success = 200 <= resp.status && resp.status < 300;
        if is_success {
            let decoded = prost_decode::<M>(resp.body.as_slice());
            return ServiceResponse::with_decoded_output(resp, decoded);
        }
        let err = match crate::errors::TwirpError::from_json_bytes(
            resp.status,
            resp.body.as_slice(),
        ) {
            Ok(e) => ProstTwirpError::TwirpError(e),
            Err(e) => ProstTwirpError::JsonDecodeError(e),
        };
        Err(
            ProstTwirpError::AfterBodyError {
                body: resp.body,
                method: None,
                version: resp.version,
                headers: resp.headers,
                status: Some(resp.status),
                err: Box::new(err),
            },
        )
    }

    /// Serializes into a wire response whose body is the encoded payload,
    /// with `Content-Length` set to the body's length. Encoding into a
    /// fresh buffer cannot fail.
    pub fn to_hyper_response(&self) -> (r: Result<HttpResponse, ProstTwirpError>)
        ensures
            r is Ok,
            r matches Ok(h) ==> ({
                &&& h.status == self.status
                &&& h.version == HttpVersion::Http11
                &&& h.headers@ == with_content_length(self.headers@, h.body@.len())
            }),
    {
        let body = match prost_encode(&self.output) {
            Ok(b) => b,
            Err(e) => {
                return Err(ProstTwirpError::ProstEncodeError(e));
            },
        };
        let mut headers = self.headers.clone();
        let length_value = decimal_string(body.len() as u64);
        headers.insert("content-length", length_value.as_str());
        Ok(
            HttpResponse {
                status: self.status,
                version: HttpVersion::default(),
                headers,
                body,
            },
        )
    }
}

/// The root URL with every trailing slash removed.
pub open spec fn trim_trailing_slashes(s: Seq<char>) -> Seq<char>
    decreases s.len(),
{
    if s.len() > 0 && s[s.len() - 1] == '/' {
        trim_trailing_slashes(s.drop_last())
    } else {
        s
    }
}

/// A path with every leading slash removed.
pub open spec fn trim_leading_slashes(s: Seq<char>) -> Seq<char>
    decreases s.len(),
{
    if s.len() > 0 && s[0] == '/' {
        trim_leading_slashes(s.subrange(1, s.len() as int))
    } else {
        s
    }
}

/// The URL a client calls for a given rpc path: the normalized root, one
/// slash, and the path without its leading slashes.
pub open spec fn invoke_url(root: Seq<char>, path: Seq<char>) -> Seq<char> {
    root + "/"@ + trim_leading_slashes(path)
}

/// Law: normalizing a root URL ignores a trailing slash — a root written
/// with one produces the very same outgoing URLs as the root without it —
/// and normalizing again changes nothing.
pub proof fn lemma_root_url_normalization(root: Seq<char>)
    ensures
        trim_trailing_slashes(root.push('/')) == trim_trailing_slashes(root),
        trim_trailing_slashes(trim_trailing_slashes(root)) == trim_trailing_slashes(root),
        forall|path: Seq<char>| #[trigger] invoke_url(trim_trailing_slashes(root.push('/')), path)
            == invoke_url(trim_trailing_slashes(root), path),
    decreases root.len(),
{
    let pushed = root.push('/');
    assert(pushed[pushed.len() - 1] == '/');
    assert(pushed.drop_last() =~= root);
    if root.len() > 0 && root[root.len() - 1] == '/' {
        lemma_root_url_normalization(root.drop_last());
    }
}

/// A wrapper for a transport client.
#[derive(Debug)]
pub struct HyperClient {
    /// The transport's pooled HTTP client.
    pub client: hyper::Client<hyper::client::HttpConnector>,
    /// The root URL without any trailing slash.
    pub root_url: String,
}

impl HyperClient {
    /// A new client wrapper for the given client and root URL, normalized
    /// by stripping trailing slashes.
    pub fn new(client: hyper::Client<hyper::client::HttpConnector>, root_url: &str) -> (r:
        HyperClient)
        ensures
            r.root_url@ == trim_trailing_slashes(root_url@),
            r.client == client,
    {
        let n = root_url.unicode_len();
        let mut end: usize = n;
        proof {
            assert(root_url@.subrange(0, n as int) =~= root_url@);
        }
        while end > 0 && root_url.get_char(end - 1) == '/'
            invariant
                end <= n,
                n == root_url@.len(),
                trim_trailing_slashes(root_url@) == trim_trailing_slashes(
                    root_url@.subrange(0, end as int),
                ),
            decreases end,
        {
            proof {
                let cur = root_url@.subrange(0, end as int);
                assert(cur[cur.len() - 1] == root_url@[end - 1]);
                assert(cur.drop_last() =~= root_url@.subrange(0, end - 1));
            }
            end = end - 1;
        }
        proof {
            assert(root_url@.subrange(0, n as int) =~= root_url@);
            let cur = root_url@.subrange(0, end as int);
            if end > 0 {
                assert(cur[cur.len() - 1] == root_url@[end - 1]);
            }
            assert(trim_trailing_slashes(cur) == cur);
        }
        let normalized = root_url.substring_char(0, end);
        HyperClient { client, root_url: normalized.to_owned() }
    }

    /// The URL that `go` calls for the given rpc path.
    pub fn request_url(&self, path: &str) -> (r: String)
        ensures
            r@ == invoke_url(self.root_url@, path@),
    {
        let n = path.unicode_len();
        let mut start: usize = 0;
        proof {
            assert(path@.subrange(0, n as int) =~= path@);
        }
        while start < n && path.get_char(start) == '/'
            invariant
                start <= n,
                n == path@.len(),
                trim_leading_slashes(path@) == trim_leading_slashes(
                    path@.subrange(start as int, n as int),
                ),
            decreases n - start,
        {
            proof {
                let cur = path@.subrange(start as int, n as int);
                assert(cur[0] == path@[start as int]);
                assert(cur.subrange(1, cur.len() as int) =~= path@.subrange(
                    start as int + 1,
                    n as int,
                ));
            }
            start = start + 1;
        }
        proof {
            assert(path@.subrange(0, n as int) =~= path@);
            let cur = path@.subrange(start as int, n as int);
            if start < n {
                assert(cur[0] == path@[start as int]);
            }
            assert(trim_leading_slashes(cur) == cur);
        }
        let trimmed = path.substring_char(start, n);
        let mut url = self.root_url.clone();
        url.append("/");
        url.append(trimmed);
        proof {
            assert(url@ =~= invoke_url(self.root_url@, path@));
        }
        url
    }
}

/// A trait for the heart of a hand-written Twirp service: responding to
/// every service method, synchronously, over the runtime's wire values.
///
/// Implementations are responsible for:
///
/// 1. Matching the URL to a service method (or returning `NotFound`).
/// 2. Decoding the request body into a protobuf message, typically using
///    [`ServiceRequest::from_hyper_request`] for the appropriate message.
/// 3. Calling the application logic to handle the request.
/// 4. Encoding the response, typically using
///    [`ServiceResponse::to_hyper_response`].
///
/// The transport adapter outside the library serves a [`HyperServer`]
/// holding such an implementation. Generated server adapters instead
/// implement the asynchronous `HyperHandler` seam that the generator emits
/// beside them, calling the same decode, dispatch and encode steps here.
pub trait HyperService {
    /// Accept a raw service request and return a raw service response or
    /// the error to report.
    fn handle(&self, req: HttpRequest) -> Result<HttpResponse, ProstTwirpError>;
}

/// A wrapper that keeps a shared handle to a [`HyperService`] so every
/// in-flight request can reach it.
///
/// The transport adapter forwards each request to the held service and
/// translates any error it returns into the Twirp JSON format with
/// [`ProstTwirpError::into_hyper_response`].
pub struct HyperServer<T: HyperService + Send + Sync> {
    /// The shared handle to the service.
    pub service: Arc<T>,
}

impl<T: HyperService + Send + Sync> HyperServer<T> {
    /// A new server wrapper sharing the given service implementation.
    pub fn new(service: T) -> (r: HyperServer<T>)
        ensures
            r.service == service,
    {
        HyperServer { service: Arc::new(service) }
    }
}

} // verus!
